//! System Exclusive messages and their encoding.
//!
//! A message is framed by a start byte and an end byte. What stands between them
//! names the family of the message, then, in the two universal families, the device
//! it is for and its kind by one or two opcode bytes, then carries its payload.
//! Every byte between the frame bytes is a data byte: its high bit is clear.
//!
//! The payloads of the larger protocols (show control, machine control, sample and
//! file dump, notation, tuning, time code) are framed and addressed here and not
//! looked into: such a message is held as the bytes that follow its opcode.
//!
//! Nothing is refused: a number that is too large for its place on the wire loses
//! its high bits and is sent.
pub mod file_dump;
pub mod machine_control;
pub mod notation;
pub mod sample_dump;
pub mod show_control;
pub mod tuning;

pub use file_dump::FileDumpMsg;
pub use machine_control::{MachineControlCommandMsg, MachineControlResponseMsg};
pub use notation::{BarMarker, TimeSignature};
pub use sample_dump::SampleDumpMsg;
pub use show_control::ShowControlMsg;
pub use tuning::{TuningBulkDumpReply, TuningNoteChange};

use crate::time_code::{TimeCode, TimeCodeCueingMsg, TimeCodeMsg, UserBits};
use crate::util::{
    extend_masked, lemma_seven_bit_concat, lemma_u14_bits, lemma_u7, masked, seven_bit, to_u14,
    to_u7, u14_lsb, u14_msb, u7,
};
use vstd::prelude::*;
use vstd::std_specs::convert::{FromSpec, FromSpecImpl};

verus! {

/// The byte that opens every System Exclusive message.
pub const SYSEX_START: u8 = 0xF0;

/// The byte that closes every System Exclusive message.
pub const SYSEX_END: u8 = 0xF7;

/// The identifier of a manufacturer, in its short or its extended form.
/// Without a second byte the identifier is sent as one byte; with one, as three.
#[derive(Debug, Clone, Copy, PartialEq)]
pub struct SysExID(pub u8, pub Option<u8>);

impl SysExID {
    /// The bytes of the identifier on the wire: the one byte masked to seven bits,
    /// or a zero byte followed by both bytes, each masked.
    pub open spec fn encoding(&self) -> Seq<u8> {
        match self.1 {
            Some(second) => seq![0x00u8, u7(self.0), u7(second)],
            None => seq![u7(self.0)],
        }
    }

    /// Appends the identifier's bytes to `v`.
    pub fn extend_midi(&self, v: &mut Vec<u8>)
        ensures
            final(v)@ == old(v)@ + self.encoding(),
    {
        if let Some(second) = self.1 {
            v.push(0x00);
            v.push(to_u7(self.0));
            v.push(to_u7(second));
        } else {
            v.push(to_u7(self.0))
        }
    }
}

impl From<u8> for SysExID {
    /// The short identifier with this byte.
    fn from(a: u8) -> (r: Self) {
        Self(a, None)
    }
}

impl FromSpecImpl<u8> for SysExID {
    open spec fn obeys_from_spec() -> bool {
        true
    }

    open spec fn from_spec(a: u8) -> Self {
        SysExID(a, None)
    }
}

impl From<(u8, u8)> for SysExID {
    /// The extended identifier with these two bytes.
    fn from(pair: (u8, u8)) -> (r: Self) {
        Self(pair.0, Some(pair.1))
    }
}

impl FromSpecImpl<(u8, u8)> for SysExID {
    open spec fn obeys_from_spec() -> bool {
        true
    }

    open spec fn from_spec(pair: (u8, u8)) -> Self {
        SysExID(pair.0, Some(pair.1))
    }
}

/// The device a universal message is addressed to.
#[derive(Debug, Clone, Copy, PartialEq)]
pub enum DeviceID {
    /// Every device that listens.
    AllCall,
    /// The device with this number.
    Device(u8),
}

impl DeviceID {
    /// The address byte: `0x7F` for every device, else the device's number masked to seven bits.
    pub open spec fn byte(&self) -> u8 {
        match self {
            DeviceID::AllCall => 0x7Fu8,
            DeviceID::Device(x) => u7(*x),
        }
    }

    /// Returns the address byte.
    pub fn to_u8(&self) -> (r: u8)
        ensures
            r == self.byte(),
            r <= 127,
    {
        match self {
            Self::AllCall => 0x7F,
            Self::Device(x) => to_u7(*x),
        }
    }
}

/// The reply of a device that was asked to identify itself.
/// It has no fields, and adds no bytes to the message that carries it.
#[derive(Debug, Clone, Copy, PartialEq)]
pub struct IdentityReply {}

impl IdentityReply {
    /// The bytes the reply adds after its opcode: none.
    pub open spec fn encoding(&self) -> Seq<u8> {
        Seq::empty()
    }

    /// Appends the reply's bytes to `v`, which leaves `v` as it was.
    pub fn extend_midi(&self, v: &mut Vec<u8>)
        ensures
            final(v)@ == old(v)@ + self.encoding(),
            final(v)@ == old(v)@,
    {
    }
}

/// A universal message that is bound to real time.
#[derive(Debug, Clone, PartialEq)]
pub enum UniversalRealTimeMsg {
    TimeCodeFull(TimeCode),
    TimeCodeUserBits(UserBits),
    ShowControl(ShowControlMsg),
    BarMarker(BarMarker),
    TimeSignature(TimeSignature),
    TimeSignatureDelayed(TimeSignature),
    /// A volume of fourteen bits.
    MasterVolume(u16),
    /// A balance of fourteen bits.
    MasterBalance(u16),
    TimeCodeCueing(TimeCodeCueingMsg),
    MachineControlCommand(MachineControlCommandMsg),
    MachineControlResponse(MachineControlResponseMsg),
    TuningNoteChange(TuningNoteChange),
}

impl UniversalRealTimeMsg {
    /// The opcode of the message's kind: a category byte and,
    /// for most kinds, a byte for the kind within the category.
    pub open spec fn opcode(&self) -> Seq<u8> {
        match self {
            UniversalRealTimeMsg::TimeCodeFull(_) => seq![1u8, 1u8],
            UniversalRealTimeMsg::TimeCodeUserBits(_) => seq![1u8, 2u8],
            UniversalRealTimeMsg::ShowControl(_) => seq![2u8],
            UniversalRealTimeMsg::BarMarker(_) => seq![3u8, 1u8],
            UniversalRealTimeMsg::TimeSignature(_) => seq![3u8, 2u8],
            UniversalRealTimeMsg::TimeSignatureDelayed(_) => seq![3u8, 42u8],
            UniversalRealTimeMsg::MasterVolume(_) => seq![4u8, 1u8],
            UniversalRealTimeMsg::MasterBalance(_) => seq![4u8, 2u8],
            UniversalRealTimeMsg::TimeCodeCueing(_) => seq![5u8],
            UniversalRealTimeMsg::MachineControlCommand(_) => seq![6u8],
            UniversalRealTimeMsg::MachineControlResponse(_) => seq![7u8],
            UniversalRealTimeMsg::TuningNoteChange(_) => seq![8u8, 2u8],
        }
    }

    /// The bytes that follow the opcode.
    /// A full time code is sent largest unit first: hour, minutes, seconds, frames.
    /// A value of fourteen bits is sent low half first.
    pub open spec fn payload(&self) -> Seq<u8> {
        match self {
            UniversalRealTimeMsg::TimeCodeFull(code) => {
                let b = code.bytes();
                seq![b[3], b[2], b[1], b[0]]
            },
            UniversalRealTimeMsg::TimeCodeUserBits(user_bits) => user_bits.nibbles(),
            UniversalRealTimeMsg::ShowControl(msg) => msg.encoding(),
            UniversalRealTimeMsg::BarMarker(marker) => marker.encoding(),
            UniversalRealTimeMsg::TimeSignature(signature) => signature.encoding(),
            UniversalRealTimeMsg::TimeSignatureDelayed(signature) => signature.encoding(),
            UniversalRealTimeMsg::MasterVolume(vol) => seq![u14_lsb(*vol), u14_msb(*vol)],
            UniversalRealTimeMsg::MasterBalance(bal) => seq![u14_lsb(*bal), u14_msb(*bal)],
            UniversalRealTimeMsg::TimeCodeCueing(msg) => msg.encoding(),
            UniversalRealTimeMsg::MachineControlCommand(msg) => msg.encoding(),
            UniversalRealTimeMsg::MachineControlResponse(msg) => msg.encoding(),
            UniversalRealTimeMsg::TuningNoteChange(note_change) => note_change.encoding(),
        }
    }

    /// The bytes of the message on the wire: its opcode, then its payload.
    pub open spec fn encoding(&self) -> Seq<u8> {
        self.opcode() + self.payload()
    }

    /// Appends the message's bytes to `v`.
    pub fn extend_midi(&self, v: &mut Vec<u8>)
        ensures
            final(v)@ == old(v)@ + self.encoding(),
    {
        match self {
            UniversalRealTimeMsg::TimeCodeFull(code) => {
                v.push(1);
                v.push(1);
                let b = code.to_bytes();
                v.push(b[3]);
                v.push(b[2]);
                v.push(b[1]);
                v.push(b[0]);
            },
            UniversalRealTimeMsg::TimeCodeUserBits(user_bits) => {
                v.push(1);
                v.push(2);
                let nibbles = user_bits.to_nibbles();
                let mut i: usize = 0;
                while i < 9
                    invariant
                        i <= 9,
                        nibbles@ == user_bits.nibbles(),
                        v@ == old(v)@ + seq![1u8, 2u8] + nibbles@.take(i as int),
                    decreases 9 - i,
                {
                    v.push(nibbles[i]);
                    i = i + 1;
                }
                assert(nibbles@.take(9) =~= nibbles@);
            },
            UniversalRealTimeMsg::ShowControl(msg) => {
                v.push(2);
                msg.extend_midi(v);
            },
            UniversalRealTimeMsg::BarMarker(marker) => {
                v.push(3);
                v.push(1);
                marker.extend_midi(v);
            },
            UniversalRealTimeMsg::TimeSignature(signature) => {
                v.push(3);
                v.push(2);
                signature.extend_midi(v);
            },
            UniversalRealTimeMsg::TimeSignatureDelayed(signature) => {
                v.push(3);
                v.push(42);
                signature.extend_midi(v);
            },
            UniversalRealTimeMsg::MasterVolume(vol) => {
                v.push(4);
                v.push(1);
                let halves = to_u14(*vol);
                v.push(halves[1]);
                v.push(halves[0]);
            },
            UniversalRealTimeMsg::MasterBalance(bal) => {
                v.push(4);
                v.push(2);
                let halves = to_u14(*bal);
                v.push(halves[1]);
                v.push(halves[0]);
            },
            UniversalRealTimeMsg::TimeCodeCueing(msg) => {
                v.push(5);
                msg.extend_midi(v);
            },
            UniversalRealTimeMsg::MachineControlCommand(msg) => {
                v.push(6);
                msg.extend_midi(v);
            },
            UniversalRealTimeMsg::MachineControlResponse(msg) => {
                v.push(7);
                msg.extend_midi(v);
            },
            UniversalRealTimeMsg::TuningNoteChange(note_change) => {
                v.push(8);
                v.push(2);
                note_change.extend_midi(v);
            },
        }
    }
}

/// A universal message that is not bound to real time.
#[derive(Debug, Clone, PartialEq)]
pub enum UniversalNonRealTimeMsg {
    SampleDump(SampleDumpMsg),
    TimeCode(TimeCodeMsg),
    IdentityRequest,
    IdentityReply(IdentityReply),
    FileDump(FileDumpMsg),
    /// A request for the tuning of the program with this number.
    TuningBulkDumpRequest(u8),
    /// The tuning of the program with this number.
    TuningBulkDumpReply(u8, TuningBulkDumpReply),
    /// General MIDI switched on, or off.
    GeneralMidi(bool),
    EOF,
    Wait,
    Cancel,
    /// The packet with this number was not received well.
    NAK(u8),
    /// The packet with this number was received.
    ACK(u8),
}

impl UniversalNonRealTimeMsg {
    /// The opcode of the message's kind: a category byte and,
    /// for most kinds, a byte for the kind within the category.
    /// A sample dump has its category from the kind of dump.
    pub open spec fn opcode(&self) -> Seq<u8> {
        match self {
            UniversalNonRealTimeMsg::SampleDump(msg) => match msg {
                SampleDumpMsg::Header(_) => seq![1u8],
                SampleDumpMsg::Packet(_) => seq![2u8],
                SampleDumpMsg::Request(_) => seq![3u8],
                SampleDumpMsg::MultipleLoopPoints(_) => seq![5u8, 1u8],
                SampleDumpMsg::LoopPointsRequest(_) => seq![5u8, 2u8],
            },
            UniversalNonRealTimeMsg::TimeCode(_) => seq![4u8],
            UniversalNonRealTimeMsg::IdentityRequest => seq![6u8, 1u8],
            UniversalNonRealTimeMsg::IdentityReply(_) => seq![6u8, 2u8],
            UniversalNonRealTimeMsg::FileDump(_) => seq![7u8],
            UniversalNonRealTimeMsg::TuningBulkDumpRequest(_) => seq![8u8, 0u8],
            UniversalNonRealTimeMsg::TuningBulkDumpReply(_, _) => seq![8u8, 1u8],
            UniversalNonRealTimeMsg::GeneralMidi(on) => seq![9u8, if *on { 1u8 } else { 2u8 }],
            UniversalNonRealTimeMsg::EOF => seq![0x7Bu8, 0u8],
            UniversalNonRealTimeMsg::Wait => seq![0x7Cu8, 0u8],
            UniversalNonRealTimeMsg::Cancel => seq![0x7Du8, 0u8],
            UniversalNonRealTimeMsg::NAK(_) => seq![0x7Eu8],
            UniversalNonRealTimeMsg::ACK(_) => seq![0x7Fu8],
        }
    }

    /// The bytes that follow the opcode.
    /// Program and packet numbers are masked to seven bits.
    pub open spec fn payload(&self) -> Seq<u8> {
        match self {
            UniversalNonRealTimeMsg::SampleDump(msg) => msg.encoding(),
            UniversalNonRealTimeMsg::TimeCode(msg) => msg.encoding(),
            UniversalNonRealTimeMsg::IdentityRequest => Seq::empty(),
            UniversalNonRealTimeMsg::IdentityReply(identity) => identity.encoding(),
            UniversalNonRealTimeMsg::FileDump(msg) => msg.encoding(),
            UniversalNonRealTimeMsg::TuningBulkDumpRequest(program_num) => seq![u7(*program_num)],
            UniversalNonRealTimeMsg::TuningBulkDumpReply(program_num, tuning) => seq![
                u7(*program_num),
            ] + tuning.encoding(),
            UniversalNonRealTimeMsg::GeneralMidi(_) => Seq::empty(),
            UniversalNonRealTimeMsg::EOF => Seq::empty(),
            UniversalNonRealTimeMsg::Wait => Seq::empty(),
            UniversalNonRealTimeMsg::Cancel => Seq::empty(),
            UniversalNonRealTimeMsg::NAK(packet_num) => seq![u7(*packet_num)],
            UniversalNonRealTimeMsg::ACK(packet_num) => seq![u7(*packet_num)],
        }
    }

    /// The bytes of the message on the wire: its opcode, then its payload.
    pub open spec fn encoding(&self) -> Seq<u8> {
        self.opcode() + self.payload()
    }

    /// Appends the message's bytes to `v`.
    pub fn extend_midi(&self, v: &mut Vec<u8>)
        ensures
            final(v)@ == old(v)@ + self.encoding(),
    {
        match self {
            UniversalNonRealTimeMsg::SampleDump(msg) => {
                match msg {
                    SampleDumpMsg::Header(_) => v.push(1),
                    SampleDumpMsg::Packet(_) => v.push(2),
                    SampleDumpMsg::Request(_) => v.push(3),
                    SampleDumpMsg::MultipleLoopPoints(_) => {
                        v.push(5);
                        v.push(1);
                    },
                    SampleDumpMsg::LoopPointsRequest(_) => {
                        v.push(5);
                        v.push(2);
                    },
                }
                msg.extend_midi(v);
            },
            UniversalNonRealTimeMsg::TimeCode(msg) => {
                v.push(4);
                msg.extend_midi(v);
            },
            UniversalNonRealTimeMsg::IdentityRequest => {
                v.push(6);
                v.push(1);
            },
            UniversalNonRealTimeMsg::IdentityReply(identity) => {
                v.push(6);
                v.push(2);
                identity.extend_midi(v);
            },
            UniversalNonRealTimeMsg::FileDump(msg) => {
                v.push(7);
                msg.extend_midi(v);
            },
            UniversalNonRealTimeMsg::TuningBulkDumpRequest(program_num) => {
                v.push(8);
                v.push(0);
                v.push(to_u7(*program_num));
            },
            UniversalNonRealTimeMsg::TuningBulkDumpReply(program_num, tuning) => {
                v.push(8);
                v.push(1);
                v.push(to_u7(*program_num));
                tuning.extend_midi(v);
            },
            UniversalNonRealTimeMsg::GeneralMidi(on) => {
                v.push(9);
                v.push(if *on { 1 } else { 2 });
            },
            UniversalNonRealTimeMsg::EOF => {
                v.push(0x7B);
                v.push(0);
            },
            UniversalNonRealTimeMsg::Wait => {
                v.push(0x7C);
                v.push(0);
            },
            UniversalNonRealTimeMsg::Cancel => {
                v.push(0x7D);
                v.push(0);
            },
            UniversalNonRealTimeMsg::NAK(packet_num) => {
                v.push(0x7E);
                v.push(to_u7(*packet_num));
            },
            UniversalNonRealTimeMsg::ACK(packet_num) => {
                v.push(0x7F);
                v.push(to_u7(*packet_num));
            },
        }
    }
}

impl UniversalRealTimeMsg {
    /// Decoding is not provided: every input is refused, whatever it holds.
    pub fn from_midi(_m: &[u8]) -> (r: Result<(Self, usize), &str>)
        ensures
            r is Err,
            r->Err_0@ == "TODO: not implemented"@,
    {
        Err("TODO: not implemented")
    }
}

impl UniversalNonRealTimeMsg {
    /// Decoding is not provided: every input is refused, whatever it holds.
    pub fn from_midi(_m: &[u8]) -> (r: Result<(Self, usize), &str>)
        ensures
            r is Err,
            r->Err_0@ == "TODO: not implemented"@,
    {
        Err("TODO: not implemented")
    }
}

/// A System Exclusive message, of one of four families.
#[derive(Debug, Clone, PartialEq)]
pub enum SystemExclusiveMsg {
    /// Data in a manufacturer's own format.
    Commercial { id: SysExID, data: Vec<u8> },
    /// Data in a format of no registered manufacturer.
    NonCommercial { data: Vec<u8> },
    /// A universal message bound to real time, for one device or for all.
    UniversalRealTime { device: DeviceID, msg: UniversalRealTimeMsg },
    /// A universal message not bound to real time, for one device or for all.
    UniversalNonRealTime { device: DeviceID, msg: UniversalNonRealTimeMsg },
}

impl SystemExclusiveMsg {
    /// The bytes between the start byte and the end byte: what names the family,
    /// then what the family carries. Data bytes are masked to seven bits one by one,
    /// so a byte above 127 loses its high bit.
    pub open spec fn body(&self) -> Seq<u8> {
        match self {
            SystemExclusiveMsg::Commercial { id, data } => id.encoding() + masked(data@),
            SystemExclusiveMsg::NonCommercial { data } => seq![0x7Du8] + masked(data@),
            SystemExclusiveMsg::UniversalRealTime { device, msg } => seq![0x7Fu8, device.byte()]
                + msg.encoding(),
            SystemExclusiveMsg::UniversalNonRealTime { device, msg } => seq![0x7Eu8, device.byte()]
                + msg.encoding(),
        }
    }

    /// The bytes of the message on the wire: the start byte, the body, the end byte.
    pub open spec fn encoding(&self) -> Seq<u8> {
        seq![SYSEX_START] + self.body() + seq![SYSEX_END]
    }

    /// Returns the bytes of the message in a vector of their own.
    pub fn to_midi(&self) -> (r: Vec<u8>)
        ensures
            r@ == self.encoding(),
            r@.len() >= 2,
            r@.first() == SYSEX_START,
            r@.last() == SYSEX_END,
    {
        let mut r: Vec<u8> = Vec::new();
        self.extend_midi(&mut r);
        r
    }

    /// Appends the bytes of the message to `v`.
    pub fn extend_midi(&self, v: &mut Vec<u8>)
        ensures
            final(v)@ == old(v)@ + self.encoding(),
            final(v)@.len() >= old(v)@.len() + 2,
            final(v)@[old(v)@.len() as int] == SYSEX_START,
            final(v)@.last() == SYSEX_END,
    {
        v.push(SYSEX_START);
        match self {
            SystemExclusiveMsg::Commercial { id, data } => {
                id.extend_midi(v);
                extend_masked(data.as_slice(), v);
            },
            SystemExclusiveMsg::NonCommercial { data } => {
                v.push(0x7D);
                extend_masked(data.as_slice(), v);
            },
            SystemExclusiveMsg::UniversalRealTime { device, msg } => {
                v.push(0x7F);
                v.push(device.to_u8());
                msg.extend_midi(v);
            },
            SystemExclusiveMsg::UniversalNonRealTime { device, msg } => {
                v.push(0x7E);
                v.push(device.to_u8());
                msg.extend_midi(v);
            },
        }
        v.push(SYSEX_END);
    }
}

impl SystemExclusiveMsg {
    /// Decoding is not provided: every input is refused, whatever it holds.
    /// A successful result would hold the message and the number of bytes read for it.
    pub fn from_midi(_m: &[u8]) -> (r: Result<(Self, usize), &str>)
        ensures
            r is Err,
            r->Err_0@ == "TODO: not implemented"@,
    {
        Err("TODO: not implemented")
    }
}

impl From<&SystemExclusiveMsg> for Vec<u8> {
    /// The bytes of the message, as `to_midi` gives them.
    fn from(m: &SystemExclusiveMsg) -> (r: Vec<u8>)
        ensures
            r@ == m.encoding(),
    {
        m.to_midi()
    }
}

impl FromSpecImpl<&SystemExclusiveMsg> for Vec<u8> {
    open spec fn obeys_from_spec() -> bool {
        false
    }

    open spec fn from_spec(m: &SystemExclusiveMsg) -> Self {
        arbitrary()
    }
}

/// An identifier made from one byte is sent as that byte alone, masked to seven bits.
pub proof fn lemma_short_id_encoding(n: u8)
    ensures
        <SysExID as FromSpec<u8>>::from_spec(n).encoding() == seq![u7(n)],
{
}

/// An identifier made from two bytes is sent as a zero byte and the two bytes,
/// each masked to seven bits.
pub proof fn lemma_extended_id_encoding(a: u8, b: u8)
    ensures
        <SysExID as FromSpec<(u8, u8)>>::from_spec((a, b)).encoding() == seq![0x00u8, u7(a), u7(b)],
{
}

/// A message for every device is addressed to `0x7F`;
/// a message for one device, to that device's number masked to seven bits.
pub proof fn lemma_device_byte(n: u8)
    ensures
        DeviceID::AllCall.byte() == 0x7F,
        DeviceID::Device(n).byte() == u7(n),
{
}

/// Every encoded message opens with the start byte and closes with the end byte,
/// and so has at least two bytes.
pub proof fn lemma_encoding_is_framed(m: SystemExclusiveMsg)
    ensures
        m.encoding().len() >= 2,
        m.encoding().first() == SYSEX_START,
        m.encoding().last() == SYSEX_END,
        m.encoding().len() == m.body().len() + 2,
{
}

/// Between its opcode and its end a real-time message holds data bytes only.
pub proof fn lemma_real_time_is_seven_bit(msg: UniversalRealTimeMsg)
    ensures
        seven_bit(msg.opcode()),
        seven_bit(msg.payload()),
        seven_bit(msg.encoding()),
{
    match msg {
        UniversalRealTimeMsg::TimeCodeFull(code) => {
            lemma_u7(code.frames);
            lemma_u7(code.seconds);
            lemma_u7(code.minutes);
            lemma_u7(code.code_hour);
        },
        UniversalRealTimeMsg::MasterVolume(x) => {
            lemma_u14_bits(x);
        },
        UniversalRealTimeMsg::MasterBalance(x) => {
            lemma_u14_bits(x);
        },
        _ => {},
    }
    lemma_seven_bit_concat(msg.opcode(), msg.payload());
}

/// Between its opcode and its end a message not bound to real time holds data bytes only.
pub proof fn lemma_non_real_time_is_seven_bit(msg: UniversalNonRealTimeMsg)
    ensures
        seven_bit(msg.opcode()),
        seven_bit(msg.payload()),
        seven_bit(msg.encoding()),
{
    lemma_seven_bit_concat(msg.opcode(), msg.payload());
}

/// Between the start byte and the end byte every byte is a data byte,
/// whatever the caller put into the message. So the start byte stands
/// at the front of an encoded message and nowhere else, and the end byte
/// at its end and nowhere else.
pub proof fn lemma_body_is_seven_bit(m: SystemExclusiveMsg)
    ensures
        seven_bit(m.body()),
        forall|i: int| 0 < i < m.encoding().len() - 1 ==> #[trigger] m.encoding()[i] <= 127,
        forall|i: int|
            0 <= i < m.encoding().len() && #[trigger] m.encoding()[i] == SYSEX_START ==> i == 0,
        forall|i: int|
            0 <= i < m.encoding().len() && #[trigger] m.encoding()[i] == SYSEX_END ==> i
                == m.encoding().len() - 1,
{
    match m {
        SystemExclusiveMsg::Commercial { id, data } => {
            lemma_seven_bit_concat(id.encoding(), masked(data@));
        },
        SystemExclusiveMsg::NonCommercial { data } => {
            lemma_seven_bit_concat(seq![0x7Du8], masked(data@));
        },
        SystemExclusiveMsg::UniversalRealTime { device, msg } => {
            lemma_real_time_is_seven_bit(msg);
            lemma_seven_bit_concat(seq![0x7Fu8, device.byte()], msg.encoding());
        },
        SystemExclusiveMsg::UniversalNonRealTime { device, msg } => {
            lemma_non_real_time_is_seven_bit(msg);
            lemma_seven_bit_concat(seq![0x7Eu8, device.byte()], msg.encoding());
        },
    }
    assert forall|i: int| 0 < i < m.encoding().len() - 1 implies #[trigger] m.encoding()[i]
        <= 127 by {
        assert(m.encoding()[i] == m.body()[i - 1]);
    }
}

/// The opcode of a real-time kind is never the beginning of another kind's bytes:
/// two messages with the same bytes have the same opcode and the same payload.
pub proof fn lemma_real_time_opcode_is_unambiguous(a: UniversalRealTimeMsg, b: UniversalRealTimeMsg)
    requires
        a.encoding() == b.encoding(),
    ensures
        a.opcode() == b.opcode(),
        a.payload() == b.payload(),
{
    let e = a.encoding();
    assert(e[0] == a.opcode()[0] && e[0] == b.opcode()[0]);
    if a.opcode().len() == 2 {
        assert(e[1] == a.opcode()[1]);
    }
    if b.opcode().len() == 2 {
        assert(e[1] == b.opcode()[1]);
    }
    assert(a.opcode() =~= b.opcode());
    assert(a.payload() =~= e.subrange(a.opcode().len() as int, e.len() as int));
    assert(b.payload() =~= e.subrange(b.opcode().len() as int, e.len() as int));
}

/// The opcode of a kind not bound to real time is never the beginning of another
/// kind's bytes: two messages with the same bytes have the same opcode and the
/// same payload.
pub proof fn lemma_non_real_time_opcode_is_unambiguous(
    a: UniversalNonRealTimeMsg,
    b: UniversalNonRealTimeMsg,
)
    requires
        a.encoding() == b.encoding(),
    ensures
        a.opcode() == b.opcode(),
        a.payload() == b.payload(),
{
    let e = a.encoding();
    assert(e[0] == a.opcode()[0] && e[0] == b.opcode()[0]);
    if a.opcode().len() == 2 {
        assert(e[1] == a.opcode()[1]);
    }
    if b.opcode().len() == 2 {
        assert(e[1] == b.opcode()[1]);
    }
    assert(a.opcode() =~= b.opcode());
    assert(a.payload() =~= e.subrange(a.opcode().len() as int, e.len() as int));
    assert(b.payload() =~= e.subrange(b.opcode().len() as int, e.len() as int));
}

} // verus!
