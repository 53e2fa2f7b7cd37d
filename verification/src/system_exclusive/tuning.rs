//! Tuning: the retuning of single notes and of whole programs.
use crate::util::{extend_masked, masked};
use vstd::prelude::*;

verus! {

/// A change of tuning for single notes, held as the bytes that follow its opcode.
#[derive(Debug, Clone, PartialEq, Eq)]
pub struct TuningNoteChange {
    pub body: Vec<u8>,
}

impl TuningNoteChange {
    /// The bytes the message adds after its opcode: its body, each byte masked to seven bits.
    pub open spec fn encoding(&self) -> Seq<u8> {
        masked(self.body@)
    }

    /// Appends the message's bytes to `v`.
    pub fn extend_midi(&self, v: &mut Vec<u8>)
        ensures
            final(v)@ == old(v)@ + self.encoding(),
    {
        extend_masked(self.body.as_slice(), v);
    }
}

/// The tuning of a whole program, held as the bytes that follow its opcode.
#[derive(Debug, Clone, PartialEq, Eq)]
pub struct TuningBulkDumpReply {
    pub body: Vec<u8>,
}

impl TuningBulkDumpReply {
    /// The bytes the message adds after its opcode: its body, each byte masked to seven bits.
    pub open spec fn encoding(&self) -> Seq<u8> {
        masked(self.body@)
    }

    /// Appends the message's bytes to `v`.
    pub fn extend_midi(&self, v: &mut Vec<u8>)
        ensures
            final(v)@ == old(v)@ + self.encoding(),
    {
        extend_masked(self.body.as_slice(), v);
    }
}

} // verus!
