//! Wrapping 32-bit arithmetic composed from two capability providers and a
//! dispatcher. The `adder` and `subtractor` modules each expose one total,
//! pure function over `u32`; the `calculate` module routes an [`calculate::Op`]
//! to the matching provider and returns its result unchanged. Both operations
//! wrap modulo 2^32 — overflow and underflow are not errors — so every call
//! succeeds on every input.

pub mod adder;
pub mod calculate;
pub mod subtractor;
