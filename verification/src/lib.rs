//! Encoding of MIDI System Exclusive messages into the bytes a MIDI transport carries.
//!
//! A [`SystemExclusiveMsg`] says what is to be sent; [`SystemExclusiveMsg::to_midi`]
//! gives its bytes. Each encoder states the bytes it produces as a function of the
//! message, and the laws of the format are proved from those statements: the frame
//! of every message, the range of every byte inside the frame, and that the opcode
//! of a universal message can be read back from its bytes.
pub mod system_exclusive;
pub mod time_code;
pub mod util;

pub use system_exclusive::{
    DeviceID, IdentityReply, SysExID, SystemExclusiveMsg, UniversalNonRealTimeMsg,
    UniversalRealTimeMsg,
};
