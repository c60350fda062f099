//! The bus transactions that the driver asks its caller to carry out.
//!
//! The driver never touches the bus itself. Each operation hands back the
//! one transaction that performs it; the caller runs it on the bus handle
//! and reports how it ended.
//!
//! The bytes of a write are held as `B`: the array `[u8; 1]` where the
//! driver makes them up, the caller's own slice where it passes them on.

use vstd::prelude::*;

verus! {

/// A write of `bytes` to the device at `address`.
#[derive(Debug)]
pub struct WriteTransaction<B> {
    /// The 7-bit address of the device written to.
    pub address: u8,
    /// The bytes to send, in order.
    pub bytes: B,
}

/// A read of `len` bytes from the device at `address`.
#[derive(Debug)]
pub struct ReadTransaction {
    /// The 7-bit address of the device read from.
    pub address: u8,
    /// The number of bytes to read.
    pub len: usize,
}

/// A write of `bytes` to the device at `address`, followed without a stop
/// by a read of `len` bytes from it.
#[derive(Debug)]
pub struct WriteReadTransaction<B> {
    /// The 7-bit address of the device addressed.
    pub address: u8,
    /// The bytes to send, in order.
    pub bytes: B,
    /// The number of bytes to read afterwards.
    pub len: usize,
}

} // verus!
