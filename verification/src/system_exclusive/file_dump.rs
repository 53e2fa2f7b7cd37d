//! File dump: the transfer of whole files between devices.
use crate::util::{extend_masked, masked};
use vstd::prelude::*;

verus! {

/// A file-dump message, held as the bytes that follow its opcode.
#[derive(Debug, Clone, PartialEq, Eq)]
pub struct FileDumpMsg {
    pub body: Vec<u8>,
}

impl FileDumpMsg {
    /// The bytes the message adds after its opcode: its body, each byte masked to seven bits.
    pub open spec fn encoding(&self) -> Seq<u8> {
        masked(self.body@)
    }

    /// Appends the message's bytes to `v`.
    pub fn extend_midi(&self, v: &mut Vec<u8>)
        ensures
            final(v)@ == old(v)@ + self.encoding(),
    {
        extend_masked(self.body.as_slice(), v);
    }
}

} // verus!
