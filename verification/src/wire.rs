//! The wire format: which bytes stand for which message.
//!
//! `spec_encode` and `spec_decode` say what the codec computes, and the
//! lemmas after them say how the two directions fit together.

use vstd::prelude::*;

use crate::channel::{lemma_channel_round_trip, lemma_index_round_trip};
use crate::error::DecodeError;
use crate::message::MessageView;
use crate::status::{
    in_category, trailing_len, voice_channel, voice_status, ACTIVE_SENSING, AFTERTOUCH, CONTINUE,
    CONTROL_OR_MODE_CHANGE, END_OF_EXCLUSIVE, NOTE_OFF, NOTE_ON, PITCH_BEND_CHANGE,
    POLYPHONIC_AFTERTOUCH, PROGRAM_CHANGE, SONG_POSITION_POINTER, SONG_SELECT, START, STOP,
    SYSTEM_EXCLUSIVE, SYSTEM_RESET, TIMING_CLOCK, TUNE_REQUEST,
};

verus! {

/// The bytes of a message on the wire.
///
/// A channel-voice message is its status byte, category plus channel index,
/// and then its data bytes in order. A system message is its fixed status
/// byte and its data bytes. A system-exclusive message is the opening byte,
/// the payload as it is, and the closing byte.
pub open spec fn spec_encode(message: MessageView) -> Seq<u8> {
    match message {
        MessageView::NoteOff(channel, key, velocity) => seq![
            voice_status(NOTE_OFF, channel),
            key,
            velocity,
        ],
        MessageView::NoteOn(channel, key, velocity) => seq![
            voice_status(NOTE_ON, channel),
            key,
            velocity,
        ],
        MessageView::PolyphonicAftertouch(channel, key, pressure) => seq![
            voice_status(POLYPHONIC_AFTERTOUCH, channel),
            key,
            pressure,
        ],
        MessageView::ControlOrModeChange(channel, controller, value) => seq![
            voice_status(CONTROL_OR_MODE_CHANGE, channel),
            controller,
            value,
        ],
        MessageView::ProgramChange(channel, program) => seq![
            voice_status(PROGRAM_CHANGE, channel),
            program,
        ],
        MessageView::Aftertouch(channel, pressure) => seq![
            voice_status(AFTERTOUCH, channel),
            pressure,
        ],
        MessageView::PitchBendChange(channel, low, high) => seq![
            voice_status(PITCH_BEND_CHANGE, channel),
            low,
            high,
        ],
        MessageView::SystemExclusive(payload) => seq![SYSTEM_EXCLUSIVE] + payload
            + seq![END_OF_EXCLUSIVE],
        MessageView::SongPositionPointer(low, high) => seq![SONG_POSITION_POINTER, low, high],
        MessageView::SongSelect(song) => seq![SONG_SELECT, song],
        MessageView::TuneRequest => seq![TUNE_REQUEST],
        MessageView::TimingClock => seq![TIMING_CLOCK],
        MessageView::Start => seq![START],
        MessageView::Continue => seq![CONTINUE],
        MessageView::Stop => seq![STOP],
        MessageView::ActiveSensing => seq![ACTIVE_SENSING],
        MessageView::SystemReset => seq![SYSTEM_RESET],
    }
}

/// The message that `bytes` holds, given that its first byte is a status
/// byte and that the bytes this status asks for follow it.
///
/// Bytes beyond those that the status asks for are left unread. For a
/// system-exclusive message the last byte of the input is taken for the
/// closing byte, whatever it is, and all between the first and the last is
/// the payload.
pub open spec fn assemble(bytes: Seq<u8>) -> MessageView {
    let status = bytes[0];
    if in_category(status, NOTE_OFF) {
        MessageView::NoteOff(voice_channel(status, NOTE_OFF), bytes[1], bytes[2])
    } else if in_category(status, NOTE_ON) {
        MessageView::NoteOn(voice_channel(status, NOTE_ON), bytes[1], bytes[2])
    } else if in_category(status, POLYPHONIC_AFTERTOUCH) {
        MessageView::PolyphonicAftertouch(
            voice_channel(status, POLYPHONIC_AFTERTOUCH),
            bytes[1],
            bytes[2],
        )
    } else if in_category(status, CONTROL_OR_MODE_CHANGE) {
        MessageView::ControlOrModeChange(
            voice_channel(status, CONTROL_OR_MODE_CHANGE),
            bytes[1],
            bytes[2],
        )
    } else if in_category(status, PROGRAM_CHANGE) {
        MessageView::ProgramChange(voice_channel(status, PROGRAM_CHANGE), bytes[1])
    } else if in_category(status, AFTERTOUCH) {
        MessageView::Aftertouch(voice_channel(status, AFTERTOUCH), bytes[1])
    } else if in_category(status, PITCH_BEND_CHANGE) {
        MessageView::PitchBendChange(
            voice_channel(status, PITCH_BEND_CHANGE),
            bytes[1],
            bytes[2],
        )
    } else if status == SYSTEM_EXCLUSIVE {
        MessageView::SystemExclusive(bytes.subrange(1, bytes.len() - 1))
    } else if status == SONG_POSITION_POINTER {
        MessageView::SongPositionPointer(bytes[1], bytes[2])
    } else if status == SONG_SELECT {
        MessageView::SongSelect(bytes[1])
    } else if status == TUNE_REQUEST {
        MessageView::TuneRequest
    } else if status == TIMING_CLOCK {
        MessageView::TimingClock
    } else if status == START {
        MessageView::Start
    } else if status == CONTINUE {
        MessageView::Continue
    } else if status == STOP {
        MessageView::Stop
    } else if status == ACTIVE_SENSING {
        MessageView::ActiveSensing
    } else {
        MessageView::SystemReset
    }
}

/// Whether `bytes` holds a whole message: a status byte that starts a
/// message, and after it at least as many bytes as this status asks for.
pub open spec fn is_complete(bytes: Seq<u8>) -> bool {
    &&& bytes.len() >= 1
    &&& trailing_len(bytes[0]) matches Some(expected)
    &&& bytes.len() - 1 >= expected
}

/// What decoding `bytes` gives.
///
/// Empty input is an error. Otherwise the first byte is the status byte: one
/// that starts no message is an error that carries the byte; one that asks
/// for more bytes than follow it is an error that carries how many it asks
/// for and how many follow; and else the result is the message assembled
/// from the status and the bytes after it.
pub open spec fn spec_decode(bytes: Seq<u8>) -> Result<MessageView, DecodeError> {
    if bytes.len() == 0 {
        Err(DecodeError::EmptyInput)
    } else {
        match trailing_len(bytes[0]) {
            None => Err(DecodeError::InvalidStatusByte(bytes[0])),
            Some(expected) => if bytes.len() - 1 < expected {
                Err(DecodeError::MissingDataByte(expected, (bytes.len() - 1) as usize))
            } else {
                Ok(assemble(bytes))
            },
        }
    }
}

/// Decoding undoes encoding: the bytes that a message is encoded as decode
/// to that message again, whatever its channel, data bytes and payload.
pub proof fn lemma_decode_encode(message: MessageView)
    ensures
        spec_decode(spec_encode(message)) == Ok::<MessageView, DecodeError>(message),
{
    let bytes = spec_encode(message);
    match message {
        MessageView::NoteOff(channel, _, _)
        | MessageView::NoteOn(channel, _, _)
        | MessageView::PolyphonicAftertouch(channel, _, _)
        | MessageView::ControlOrModeChange(channel, _, _)
        | MessageView::ProgramChange(channel, _)
        | MessageView::Aftertouch(channel, _)
        | MessageView::PitchBendChange(channel, _, _) => {
            lemma_channel_round_trip(channel);
        },
        MessageView::SystemExclusive(payload) => {
            assert(bytes.subrange(1, bytes.len() - 1) =~= payload);
        },
        _ => {},
    }
}

/// Encoding gives back what decoding read. Where `bytes` decode to a
/// message, the message is encoded as the status byte and the bytes that the
/// status asks for, as they stand in `bytes`; a system-exclusive message is
/// encoded as all of `bytes`, with the closing byte in place of the last
/// byte, whatever that was. So a system-exclusive message that does end with
/// the closing byte is encoded as `bytes` itself.
pub proof fn lemma_encode_decode(bytes: Seq<u8>, message: MessageView)
    requires
        spec_decode(bytes) == Ok::<MessageView, DecodeError>(message),
    ensures
        trailing_len(bytes[0]) is Some,
        1 + trailing_len(bytes[0])->Some_0 <= bytes.len(),
        bytes[0] != SYSTEM_EXCLUSIVE ==> spec_encode(message) == bytes.take(
            1 + trailing_len(bytes[0])->Some_0,
        ),
        bytes[0] == SYSTEM_EXCLUSIVE ==> spec_encode(message) == bytes.drop_last().push(
            END_OF_EXCLUSIVE,
        ),
        bytes[0] == SYSTEM_EXCLUSIVE && bytes.last() == END_OF_EXCLUSIVE ==> spec_encode(message)
            == bytes,
{
    let status = bytes[0];
    if status == SYSTEM_EXCLUSIVE {
        assert(spec_encode(message) =~= bytes.drop_last().push(END_OF_EXCLUSIVE));
        assert(bytes.drop_last().push(bytes.last()) =~= bytes);
    } else {
        lemma_index_round_trip(status % 16);
        assert(spec_encode(message) =~= bytes.take(1 + trailing_len(status)->Some_0));
    }
}

} // verus!
