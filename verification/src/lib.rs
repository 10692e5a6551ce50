//! Streaming double SHA-256: the digest of a message is the SHA-256 digest of
//! its SHA-256 digest.
//!
//! [`DoubleHash256`] is the hasher. It is built from [`DoubleHash256VarCore`],
//! which works on whole blocks, and [`BlockBuffer`], which cuts the incoming
//! bytes into blocks. SHA-256 itself is the work of the `sha2` crate.

pub mod base;
pub mod block_buffer;
pub mod hasher;
pub mod laws;
pub mod var_core;

pub use base::{BLOCK_SIZE, MAX_MESSAGE_LEN, NATIVE_OUTPUT_SIZE};
pub use block_buffer::BlockBuffer;
pub use hasher::DoubleHash256;
pub use var_core::{truncate, DoubleHash256VarCore, InvalidOutputSize, TruncSide};
