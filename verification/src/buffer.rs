//! Transfer buffers.
//!
//! A [`Buffer`] is handed to a transfer by value and handed back by value when
//! the transfer completes or is aborted. It cannot be copied, so at any time
//! exactly one party holds it.

use vstd::prelude::*;

verus! {

/// What a buffer is, mathematically: where the device finds its first byte,
/// and the bytes themselves.
pub struct BufferView {
    pub address: usize,
    pub bytes: Seq<u8>,
}

/// A run of bytes together with the bus address at which a device sees it.
#[derive(Debug, PartialEq, Eq)]
pub struct Buffer {
    address: usize,
    bytes: Vec<u8>,
}

impl View for Buffer {
    type V = BufferView;

    closed spec fn view(&self) -> BufferView {
        BufferView { address: self.address, bytes: self.bytes@ }
    }
}

/// The view of a buffer that may be absent.
pub open spec fn opt_view(b: Option<Buffer>) -> Option<BufferView> {
    match b {
        Some(b) => Some(b@),
        None => None,
    }
}

impl Buffer {
    /// Makes a buffer of `bytes` that the device addresses at `address`.
    pub fn new(address: usize, bytes: Vec<u8>) -> (b: Buffer)
        ensures
            b@.address == address,
            b@.bytes == bytes@,
    {
        Buffer { address, bytes }
    }

    /// The bus address of the first byte.
    pub fn address(&self) -> (a: usize)
        ensures
            a == self@.address,
    {
        self.address
    }

    /// The capacity of the buffer in bytes.
    pub fn len(&self) -> (n: usize)
        ensures
            n == self@.bytes.len(),
    {
        self.bytes.len()
    }

    /// The byte at `index`.
    pub fn get(&self, index: usize) -> (b: u8)
        requires
            index < self@.bytes.len(),
        ensures
            b == self@.bytes[index as int],
    {
        self.bytes[index]
    }

    /// Stores `byte` at `index` and leaves every other byte as it was.
    pub fn set(&mut self, index: usize, byte: u8)
        requires
            index < old(self)@.bytes.len(),
        ensures
            final(self)@.address == old(self)@.address,
            final(self)@.bytes == old(self)@.bytes.update(index as int, byte),
    {
        self.bytes[index] = byte;
    }

    /// The bytes, read only.
    pub fn bytes(&self) -> (v: &Vec<u8>)
        ensures
            v@ == self@.bytes,
    {
        &self.bytes
    }

    /// Gives up the handle and keeps the bytes.
    pub fn into_bytes(self) -> (v: Vec<u8>)
        ensures
            v@ == self@.bytes,
    {
        self.bytes
    }
}

} // verus!
