//! A fast, keyed, non-cryptographic hasher for in-memory hash tables.
//!
//! The state is two 64-bit words: a running buffer and a key fixed at
//! construction. Every absorption step and the final digest go through one
//! multiply / rotate / xor / multiply compression function.
pub mod convert;
pub mod hasher;
pub mod laws;
pub mod mixing;

pub use hasher::{AHasher, HasherState};
pub use mixing::hash;
