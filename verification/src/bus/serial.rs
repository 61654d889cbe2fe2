//! Serial transfer capture for Blargg / Mooneye `$FF01` (SB) oracles.
//!
//! Owns the byte stream written to SB; transfer timing itself stays in the bus I/O path.

use vstd::prelude::*;
use crate::text::{lossy_utf8, utf8_lossy};

verus! {

/// Bytes captured from `$FF01` writes.
#[derive(Clone)]
pub struct SerialCapture {
    bytes: Vec<u8>,
}

impl SerialCapture {
    /// Bytes captured so far, oldest first.
    pub closed spec fn captured(self) -> Seq<u8> {
        self.bytes@
    }

    pub fn new() -> (s: Self)
        ensures
            s.captured() == Seq::<u8>::empty(),
    {
        Self { bytes: Vec::new() }
    }

    pub fn push(&mut self, value: u8)
        ensures
            final(self).captured() == old(self).captured().push(value),
    {
        self.bytes.push(value);
    }

    pub fn clear(&mut self)
        ensures
            final(self).captured() == Seq::<u8>::empty(),
    {
        self.bytes.clear();
    }

    pub fn as_slice(&self) -> (r: &[u8])
        ensures
            r@ == self.captured(),
    {
        self.bytes.as_slice()
    }

    /// Captured bytes decoded as UTF-8, invalid sequences replaced.
    pub fn text(&self) -> (r: String)
        ensures
            r@ == lossy_utf8(self.captured()),
    {
        utf8_lossy(self.bytes.as_slice())
    }

    pub fn from_vec(bytes: Vec<u8>) -> (s: Self)
        ensures
            s.captured() == bytes@,
    {
        Self { bytes }
    }
}

impl Default for SerialCapture {
    fn default() -> (s: Self)
        ensures
            s.captured() == Seq::<u8>::empty(),
    {
        Self::new()
    }
}

} // verus!
