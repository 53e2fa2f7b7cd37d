//! Sample dump: the transfer of sampled sound between devices.
use crate::util::{extend_masked, masked};
use vstd::prelude::*;

verus! {

/// A sample-dump message: its kind, and the bytes that follow the kind's opcode.
#[derive(Debug, Clone, PartialEq, Eq)]
pub enum SampleDumpMsg {
    Header(Vec<u8>),
    Packet(Vec<u8>),
    Request(Vec<u8>),
    MultipleLoopPoints(Vec<u8>),
    LoopPointsRequest(Vec<u8>),
}

impl SampleDumpMsg {
    /// The bytes of the message as the caller gave them, whatever its kind.
    pub open spec fn body(&self) -> Seq<u8> {
        match self {
            SampleDumpMsg::Header(body) => body@,
            SampleDumpMsg::Packet(body) => body@,
            SampleDumpMsg::Request(body) => body@,
            SampleDumpMsg::MultipleLoopPoints(body) => body@,
            SampleDumpMsg::LoopPointsRequest(body) => body@,
        }
    }

    /// The bytes the message adds after its opcode: its body, each byte masked to seven bits.
    pub open spec fn encoding(&self) -> Seq<u8> {
        masked(self.body())
    }

    /// Appends the message's bytes to `v`.
    pub fn extend_midi(&self, v: &mut Vec<u8>)
        ensures
            final(v)@ == old(v)@ + self.encoding(),
    {
        match self {
            SampleDumpMsg::Header(body) => extend_masked(body.as_slice(), v),
            SampleDumpMsg::Packet(body) => extend_masked(body.as_slice(), v),
            SampleDumpMsg::Request(body) => extend_masked(body.as_slice(), v),
            SampleDumpMsg::MultipleLoopPoints(body) => extend_masked(body.as_slice(), v),
            SampleDumpMsg::LoopPointsRequest(body) => extend_masked(body.as_slice(), v),
        }
    }
}

} // verus!
