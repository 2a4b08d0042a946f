//! A saved emulator state: the frame it was taken at and its serialized bytes.
use vstd::prelude::*;

verus! {

#[derive(Debug, Clone)]
pub struct CoreState {
    pub frame_count: u64,
    pub bytes: Vec<u8>,
}

impl CoreState {
    /// Wrap a serialized core snapshot taken at `frame_count`.
    pub fn from_bytes(frame_count: u64, bytes: Vec<u8>) -> (r: Self)
        ensures
            r.frame_count == frame_count,
            r.bytes@ == bytes@,
    {
        CoreState { frame_count, bytes }
    }

    pub fn frame_count(&self) -> (r: u64)
        ensures
            r == self.frame_count,
    {
        self.frame_count
    }

    pub fn as_bytes(&self) -> (r: &[u8])
        ensures
            r@ == self.bytes@,
    {
        self.bytes.as_slice()
    }

    pub(crate) fn bytes(&self) -> (r: &[u8])
        ensures
            r@ == self.bytes@,
    {
        self.bytes.as_slice()
    }

    /// Consume the wrapper and hand back the serialized bytes.
    pub fn into_bytes(self) -> (r: Vec<u8>)
        ensures
            r@ == self.bytes@,
    {
        self.bytes
    }
}

} // verus!
