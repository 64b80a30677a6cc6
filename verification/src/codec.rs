//! The codec: decoding bytes into a message and encoding a message as bytes.

use vstd::prelude::*;

use crate::channel::Channel;
use crate::error::DecodeError;
use crate::message::{Message, MessageView};
use crate::status::{
    ACTIVE_SENSING, AFTERTOUCH, CONTINUE, CONTROL_OR_MODE_CHANGE, END_OF_EXCLUSIVE, NOTE_OFF,
    NOTE_ON, PITCH_BEND_CHANGE, POLYPHONIC_AFTERTOUCH, PROGRAM_CHANGE, SONG_POSITION_POINTER,
    SONG_SELECT, START, STOP, SYSTEM_EXCLUSIVE, SYSTEM_RESET, TIMING_CLOCK, TUNE_REQUEST,
};
use crate::wire::{is_complete, spec_decode, spec_encode};

verus! {

/// The view of a decoding result: that of the message, or the error itself.
pub open spec fn result_view(result: Result<Message, DecodeError>) -> Result<
    MessageView,
    DecodeError,
> {
    match result {
        Ok(message) => Ok(message@),
        Err(error) => Err(error),
    }
}

/// The data byte at `position` of a message whose status byte asks for
/// `expected` bytes after it, or the error that says how many are there.
fn data_byte(bytes: &[u8], position: usize, expected: usize) -> (result: Result<u8, DecodeError>)
    requires
        bytes@.len() >= 1,
    ensures
        position < bytes@.len() ==> result == Ok::<u8, DecodeError>(bytes@[position as int]),
        position >= bytes@.len() ==> result == Err::<u8, DecodeError>(
            DecodeError::MissingDataByte(expected, (bytes@.len() - 1) as usize),
        ),
{
    if position < bytes.len() {
        Ok(bytes[position])
    } else {
        Err(DecodeError::MissingDataByte(expected, bytes.len() - 1))
    }
}

/// The high nibble of a status byte, which selects the category.
fn high_nibble(status: u8) -> (nibble: u8)
    ensures
        nibble == status / 16,
{
    assert(status >> 4 == status / 16) by (bit_vector);
    status >> 4
}

impl<'a> Message<'a> {
    /// Decodes the message that `bytes` holds.
    ///
    /// `bytes` is to span exactly one message; the decoder does not look for
    /// the end of a message in a longer stream. The status byte decides how
    /// many bytes are read after it, and further bytes are ignored. A
    /// system-exclusive message is taken to end with the last byte of
    /// `bytes`: that byte is dropped as the closing byte without a look at
    /// its value, and the payload is the part of `bytes` between the first
    /// byte and the last, borrowed and not copied.
    ///
    /// # Errors
    ///
    /// - `EmptyInput` where `bytes` is empty.
    /// - `InvalidStatusByte`, with the first byte, where no message starts
    ///   with it: a byte below 0x80, or one of 0xF1, 0xF4, 0xF5, 0xF7, 0xF9
    ///   and 0xFD.
    /// - `MissingDataByte` where fewer bytes follow the status byte than it
    ///   asks for, with both counts. A system-exclusive message asks for its
    ///   closing byte.
    pub fn decode(bytes: &'a [u8]) -> (result: Result<Message<'a>, DecodeError>)
        ensures
            result_view(result) == spec_decode(bytes@),
            result is Ok <==> is_complete(bytes@),
    {
        if bytes.len() == 0 {
            return Err(DecodeError::EmptyInput);
        }
        let status: u8 = bytes[0];
        match high_nibble(status) {
            0x8 => {
                let key: u8 = data_byte(bytes, 1, 2)?;
                let velocity: u8 = data_byte(bytes, 2, 2)?;
                Ok(Message::NoteOff(Channel::from_index(status - NOTE_OFF), key, velocity))
            },
            0x9 => {
                let key: u8 = data_byte(bytes, 1, 2)?;
                let velocity: u8 = data_byte(bytes, 2, 2)?;
                Ok(Message::NoteOn(Channel::from_index(status - NOTE_ON), key, velocity))
            },
            0xA => {
                let key: u8 = data_byte(bytes, 1, 2)?;
                let pressure: u8 = data_byte(bytes, 2, 2)?;
                Ok(
                    Message::PolyphonicAftertouch(
                        Channel::from_index(status - POLYPHONIC_AFTERTOUCH),
                        key,
                        pressure,
                    ),
                )
            },
            0xB => {
                let controller: u8 = data_byte(bytes, 1, 2)?;
                let value: u8 = data_byte(bytes, 2, 2)?;
                Ok(
                    Message::ControlOrModeChange(
                        Channel::from_index(status - CONTROL_OR_MODE_CHANGE),
                        controller,
                        value,
                    ),
                )
            },
            0xC => {
                let program: u8 = data_byte(bytes, 1, 1)?;
                Ok(Message::ProgramChange(Channel::from_index(status - PROGRAM_CHANGE), program))
            },
            0xD => {
                let pressure: u8 = data_byte(bytes, 1, 1)?;
                Ok(Message::Aftertouch(Channel::from_index(status - AFTERTOUCH), pressure))
            },
            0xE => {
                let low: u8 = data_byte(bytes, 1, 2)?;
                let high: u8 = data_byte(bytes, 2, 2)?;
                Ok(
                    Message::PitchBendChange(
                        Channel::from_index(status - PITCH_BEND_CHANGE),
                        low,
                        high,
                    ),
                )
            },
            0xF => match status {
                SYSTEM_EXCLUSIVE => {
                    let end: usize = bytes.len() - 1;
                    if end < 1 {
                        Err(DecodeError::MissingDataByte(1, 0))
                    } else {
                        Ok(Message::SystemExclusive(&bytes[1..end]))
                    }
                },
                SONG_POSITION_POINTER => {
                    let low: u8 = data_byte(bytes, 1, 2)?;
                    let high: u8 = data_byte(bytes, 2, 2)?;
                    Ok(Message::SongPositionPointer(low, high))
                },
                SONG_SELECT => {
                    let song: u8 = data_byte(bytes, 1, 1)?;
                    Ok(Message::SongSelect(song))
                },
                TUNE_REQUEST => Ok(Message::TuneRequest),
                TIMING_CLOCK => Ok(Message::TimingClock),
                START => Ok(Message::Start),
                CONTINUE => Ok(Message::Continue),
                STOP => Ok(Message::Stop),
                ACTIVE_SENSING => Ok(Message::ActiveSensing),
                SYSTEM_RESET => Ok(Message::SystemReset),
                _ => Err(DecodeError::InvalidStatusByte(status)),
            },
            _ => Err(DecodeError::InvalidStatusByte(status)),
        }
    }

    /// Encodes the message as the bytes that stand for it on the wire.
    ///
    /// Never fails. Data bytes are written as they are, also where they are
    /// 128 or more. The payload of a system-exclusive message is framed anew:
    /// the opening byte goes before it and the closing byte after it,
    /// whatever the payload holds.
    pub fn encode(&self) -> (bytes: Vec<u8>)
        ensures
            bytes@ == spec_encode(self@),
    {
        match *self {
            Message::NoteOff(channel, key, velocity) => {
                vec![NOTE_OFF + channel.to_index(), key, velocity]
            },
            Message::NoteOn(channel, key, velocity) => {
                vec![NOTE_ON + channel.to_index(), key, velocity]
            },
            Message::PolyphonicAftertouch(channel, key, pressure) => {
                vec![POLYPHONIC_AFTERTOUCH + channel.to_index(), key, pressure]
            },
            Message::ControlOrModeChange(channel, controller, value) => {
                vec![CONTROL_OR_MODE_CHANGE + channel.to_index(), controller, value]
            },
            Message::ProgramChange(channel, program) => {
                vec![PROGRAM_CHANGE + channel.to_index(), program]
            },
            Message::Aftertouch(channel, pressure) => {
                vec![AFTERTOUCH + channel.to_index(), pressure]
            },
            Message::PitchBendChange(channel, low, high) => {
                vec![PITCH_BEND_CHANGE + channel.to_index(), low, high]
            },
            Message::SystemExclusive(payload) => {
                let mut bytes: Vec<u8> = Vec::new();
                bytes.push(SYSTEM_EXCLUSIVE);
                bytes.extend_from_slice(payload);
                bytes.push(END_OF_EXCLUSIVE);
                bytes
            },
            Message::SongPositionPointer(low, high) => vec![SONG_POSITION_POINTER, low, high],
            Message::SongSelect(song) => vec![SONG_SELECT, song],
            Message::TuneRequest => vec![TUNE_REQUEST],
            Message::TimingClock => vec![TIMING_CLOCK],
            Message::Start => vec![START],
            Message::Continue => vec![CONTINUE],
            Message::Stop => vec![STOP],
            Message::ActiveSensing => vec![ACTIVE_SENSING],
            Message::SystemReset => vec![SYSTEM_RESET],
        }
    }
}

impl<'a> From<Message<'a>> for Vec<u8> {
    /// Encodes the message, as [`Message::encode`] does.
    fn from(message: Message<'a>) -> (bytes: Vec<u8>)
        ensures
            bytes@ == spec_encode(message@),
    {
        message.encode()
    }
}


impl<'a> vstd::std_specs::convert::FromSpecImpl<Message<'a>> for Vec<u8> {
    /// A vector is known by its view alone, so there is no vector to name
    /// here: what `from` returns is stated by its own `ensures`.
    open spec fn obeys_from_spec() -> bool {
        false
    }

    open spec fn from_spec(message: Message<'a>) -> Vec<u8> {
        arbitrary()
    }
}

} // verus!
