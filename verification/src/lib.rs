//! Sampled 128-bit fingerprints of byte buffers: the digest value, its
//! renderings, the sampling plan and the hasher that ties them together.

pub mod digest;
pub mod encoding;
pub mod hasher;
pub mod sampling;
pub mod source;
pub mod varint;
