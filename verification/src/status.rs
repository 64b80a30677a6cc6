//! The status bytes of the protocol.
//!
//! A channel-voice message has a status byte made of a category in the high
//! nibble and a channel index in the low nibble; the constant of such a
//! category is its status byte on the first channel. A system message has a
//! fixed status byte.

use vstd::prelude::*;

use crate::channel::Channel;

verus! {

/// Note off: key and release velocity follow.
pub const NOTE_OFF: u8 = 0x80;

/// Note on: key and attack velocity follow.
pub const NOTE_ON: u8 = 0x90;

/// Polyphonic aftertouch: key and pressure follow.
pub const POLYPHONIC_AFTERTOUCH: u8 = 0xA0;

/// Control or mode change: controller and value follow.
pub const CONTROL_OR_MODE_CHANGE: u8 = 0xB0;

/// Program change: the program follows.
pub const PROGRAM_CHANGE: u8 = 0xC0;

/// Channel aftertouch: the pressure follows.
pub const AFTERTOUCH: u8 = 0xD0;

/// Pitch bend change: the low and the high seven bits follow.
pub const PITCH_BEND_CHANGE: u8 = 0xE0;

/// The byte that opens a system-exclusive message.
pub const SYSTEM_EXCLUSIVE: u8 = 0xF0;

/// Song position pointer: the low and the high seven bits follow.
pub const SONG_POSITION_POINTER: u8 = 0xF2;

/// Song select: the song follows.
pub const SONG_SELECT: u8 = 0xF3;

/// Tune request.
pub const TUNE_REQUEST: u8 = 0xF6;

/// The byte that closes a system-exclusive message.
pub const END_OF_EXCLUSIVE: u8 = 0xF7;

/// Timing clock.
pub const TIMING_CLOCK: u8 = 0xF8;

/// Start.
pub const START: u8 = 0xFA;

/// Continue.
pub const CONTINUE: u8 = 0xFB;

/// Stop.
pub const STOP: u8 = 0xFC;

/// Active sensing.
pub const ACTIVE_SENSING: u8 = 0xFE;

/// System reset.
pub const SYSTEM_RESET: u8 = 0xFF;

/// Whether `status` belongs to the channel-voice category that starts at
/// `base`: one of the sixteen bytes from `base` on.
pub open spec fn in_category(status: u8, base: u8) -> bool {
    base <= status <= base + 15
}

/// The status byte of the category that starts at `base`, on `channel`.
pub open spec fn voice_status(base: u8, channel: Channel) -> u8 {
    (base + channel.index()) as u8
}

/// The channel that a status byte of the category starting at `base` names.
pub open spec fn voice_channel(status: u8, base: u8) -> Channel {
    Channel::spec_from_index((status - base) as u8)
}

/// How many bytes must follow `status` for a message to be complete, or
/// `None` where `status` starts no message.
///
/// For a system-exclusive message this is the one closing byte; the payload
/// before it may be empty.
pub open spec fn trailing_len(status: u8) -> Option<usize> {
    if in_category(status, NOTE_OFF) {
        Some(2)
    } else if in_category(status, NOTE_ON) {
        Some(2)
    } else if in_category(status, POLYPHONIC_AFTERTOUCH) {
        Some(2)
    } else if in_category(status, CONTROL_OR_MODE_CHANGE) {
        Some(2)
    } else if in_category(status, PROGRAM_CHANGE) {
        Some(1)
    } else if in_category(status, AFTERTOUCH) {
        Some(1)
    } else if in_category(status, PITCH_BEND_CHANGE) {
        Some(2)
    } else if status == SYSTEM_EXCLUSIVE {
        Some(1)
    } else if status == SONG_POSITION_POINTER {
        Some(2)
    } else if status == SONG_SELECT {
        Some(1)
    } else if status == TUNE_REQUEST || status == TIMING_CLOCK || status == START || status
        == CONTINUE || status == STOP || status == ACTIVE_SENSING || status == SYSTEM_RESET {
        Some(0)
    } else {
        None
    }
}

} // verus!
