//! Machine control: transport commands for recorders and the answers they give.
use crate::util::{extend_masked, masked};
use vstd::prelude::*;

verus! {

/// A command to a controlled machine, held as the bytes that follow its opcode.
#[derive(Debug, Clone, PartialEq, Eq)]
pub struct MachineControlCommandMsg {
    pub body: Vec<u8>,
}

impl MachineControlCommandMsg {
    /// The bytes the message adds after its opcode: its body, each byte masked to seven bits.
    pub open spec fn encoding(&self) -> Seq<u8> {
        masked(self.body@)
    }

    /// Appends the message's bytes to `v`.
    pub fn extend_midi(&self, v: &mut Vec<u8>)
        ensures
            final(v)@ == old(v)@ + self.encoding(),
    {
        extend_masked(self.body.as_slice(), v);
    }
}

/// The answer of a controlled machine, held as the bytes that follow its opcode.
#[derive(Debug, Clone, PartialEq, Eq)]
pub struct MachineControlResponseMsg {
    pub body: Vec<u8>,
}

impl MachineControlResponseMsg {
    /// The bytes the message adds after its opcode: its body, each byte masked to seven bits.
    pub open spec fn encoding(&self) -> Seq<u8> {
        masked(self.body@)
    }

    /// Appends the message's bytes to `v`.
    pub fn extend_midi(&self, v: &mut Vec<u8>)
        ensures
            final(v)@ == old(v)@ + self.encoding(),
    {
        extend_masked(self.body.as_slice(), v);
    }
}

} // verus!
