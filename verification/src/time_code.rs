//! Time-code values that System Exclusive messages carry.
use crate::util::{extend_masked, masked, to_u7, u7};
use vstd::prelude::*;

verus! {

/// A position in SMPTE time, one byte for each field.
/// `code_hour` holds the hour together with the code for the frame rate.
#[derive(Debug, Clone, Copy, PartialEq, Eq)]
pub struct TimeCode {
    pub frames: u8,
    pub seconds: u8,
    pub minutes: u8,
    pub code_hour: u8,
}

impl TimeCode {
    /// The four data bytes of the time code, smallest unit first:
    /// frames, seconds, minutes, hour.
    pub open spec fn bytes(&self) -> Seq<u8> {
        seq![u7(self.frames), u7(self.seconds), u7(self.minutes), u7(self.code_hour)]
    }

    /// Returns the four data bytes of the time code, smallest unit first.
    pub fn to_bytes(&self) -> (r: [u8; 4])
        ensures
            r@ == self.bytes(),
    {
        let r: [u8; 4] = [
            to_u7(self.frames),
            to_u7(self.seconds),
            to_u7(self.minutes),
            to_u7(self.code_hour),
        ];
        assert(r@ =~= self.bytes());
        r
    }
}

/// The user bits of a time code: eight groups of four bits and a group of flags,
/// one group in the low half of each byte.
#[derive(Debug, Clone, Copy, PartialEq, Eq)]
pub struct UserBits {
    pub groups: [u8; 9],
}

impl UserBits {
    /// The nine groups in order, each cut down to its low four bits.
    pub open spec fn nibbles(&self) -> Seq<u8> {
        Seq::new(9, |i: int| (self.groups[i] % 16) as u8)
    }

    /// Returns the nine groups in order, each cut down to its low four bits.
    pub fn to_nibbles(&self) -> (r: [u8; 9])
        ensures
            r@ == self.nibbles(),
            forall|i: int| 0 <= i < 9 ==> #[trigger] r[i] == self.groups[i] & 0x0f,
    {
        let g = &self.groups;
        assert forall|x: u8| #[trigger] (x & 0x0f) == x % 16 by {
            assert(x & 0x0f == x % 16) by (bit_vector);
        }
        let r: [u8; 9] = [
            g[0] & 0x0f,
            g[1] & 0x0f,
            g[2] & 0x0f,
            g[3] & 0x0f,
            g[4] & 0x0f,
            g[5] & 0x0f,
            g[6] & 0x0f,
            g[7] & 0x0f,
            g[8] & 0x0f,
        ];
        assert(r@ =~= self.nibbles());
        r
    }
}

/// A time-code message that is not bound to real time, held as the bytes that follow its opcode.
#[derive(Debug, Clone, PartialEq, Eq)]
pub struct TimeCodeMsg {
    pub body: Vec<u8>,
}

impl TimeCodeMsg {
    /// The bytes the message adds after its opcode: its body, each byte masked to seven bits.
    pub open spec fn encoding(&self) -> Seq<u8> {
        masked(self.body@)
    }

    /// Appends the message's bytes to `v`.
    pub fn extend_midi(&self, v: &mut Vec<u8>)
        ensures
            final(v)@ == old(v)@ + self.encoding(),
    {
        extend_masked(self.body.as_slice(), v);
    }
}

/// A real-time cueing message, held as the bytes that follow its opcode.
#[derive(Debug, Clone, PartialEq, Eq)]
pub struct TimeCodeCueingMsg {
    pub body: Vec<u8>,
}

impl TimeCodeCueingMsg {
    /// The bytes the message adds after its opcode: its body, each byte masked to seven bits.
    pub open spec fn encoding(&self) -> Seq<u8> {
        masked(self.body@)
    }

    /// Appends the message's bytes to `v`.
    pub fn extend_midi(&self, v: &mut Vec<u8>)
        ensures
            final(v)@ == old(v)@ + self.encoding(),
    {
        extend_masked(self.body.as_slice(), v);
    }
}

} // verus!
