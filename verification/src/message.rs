//! Messages and their model in contracts.

use vstd::prelude::*;

use crate::channel::Channel;

verus! {


/// A MIDI message.
///
/// A channel-voice message carries its channel and one or two data bytes, a
/// system message carries its data bytes alone. Data bytes are meant to stay
/// below 128; neither direction of the codec checks that.
///
/// The payload of a system-exclusive message is borrowed from the buffer it
/// was decoded from, so the message lives no longer than that buffer.
#[derive(Debug, Clone, Copy, PartialEq, Eq)]
pub enum Message<'a> {
    /// Key and release velocity.
    NoteOff(Channel, u8, u8),
    /// Key and attack velocity.
    NoteOn(Channel, u8, u8),
    /// Key and pressure.
    PolyphonicAftertouch(Channel, u8, u8),
    /// Controller and value.
    ControlOrModeChange(Channel, u8, u8),
    /// Program.
    ProgramChange(Channel, u8),
    /// Pressure.
    Aftertouch(Channel, u8),
    /// Low and high seven bits of the bend.
    PitchBendChange(Channel, u8, u8),
    /// The payload, without the bytes that open and close the message.
    SystemExclusive(&'a [u8]),
    /// Low and high seven bits of the position.
    SongPositionPointer(u8, u8),
    /// Song.
    SongSelect(u8),
    TuneRequest,
    TimingClock,
    Start,
    Continue,
    Stop,
    ActiveSensing,
    SystemReset,
}

/// What a [`Message`] is in contracts: the same variants, with the
/// system-exclusive payload as a sequence of bytes.
pub enum MessageView {
    NoteOff(Channel, u8, u8),
    NoteOn(Channel, u8, u8),
    PolyphonicAftertouch(Channel, u8, u8),
    ControlOrModeChange(Channel, u8, u8),
    ProgramChange(Channel, u8),
    Aftertouch(Channel, u8),
    PitchBendChange(Channel, u8, u8),
    SystemExclusive(Seq<u8>),
    SongPositionPointer(u8, u8),
    SongSelect(u8),
    TuneRequest,
    TimingClock,
    Start,
    Continue,
    Stop,
    ActiveSensing,
    SystemReset,
}

impl<'a> View for Message<'a> {
    type V = MessageView;

    open spec fn view(&self) -> MessageView {
        match *self {
            Message::NoteOff(channel, key, velocity) => MessageView::NoteOff(
                channel,
                key,
                velocity,
            ),
            Message::NoteOn(channel, key, velocity) => MessageView::NoteOn(channel, key, velocity),
            Message::PolyphonicAftertouch(channel, key, pressure) => {
                MessageView::PolyphonicAftertouch(channel, key, pressure)
            },
            Message::ControlOrModeChange(channel, controller, value) => {
                MessageView::ControlOrModeChange(channel, controller, value)
            },
            Message::ProgramChange(channel, program) => MessageView::ProgramChange(
                channel,
                program,
            ),
            Message::Aftertouch(channel, pressure) => MessageView::Aftertouch(channel, pressure),
            Message::PitchBendChange(channel, low, high) => MessageView::PitchBendChange(
                channel,
                low,
                high,
            ),
            Message::SystemExclusive(payload) => MessageView::SystemExclusive(payload@),
            Message::SongPositionPointer(low, high) => MessageView::SongPositionPointer(low, high),
            Message::SongSelect(song) => MessageView::SongSelect(song),
            Message::TuneRequest => MessageView::TuneRequest,
            Message::TimingClock => MessageView::TimingClock,
            Message::Start => MessageView::Start,
            Message::Continue => MessageView::Continue,
            Message::Stop => MessageView::Stop,
            Message::ActiveSensing => MessageView::ActiveSensing,
            Message::SystemReset => MessageView::SystemReset,
        }
    }
}

/// A message is known by its view: two messages with the same view are the
/// same message.
pub proof fn lemma_view_injective(a: Message, b: Message)
    requires
        a@ == b@,
    ensures
        a == b,
{
    match (a, b) {
        (Message::SystemExclusive(p), Message::SystemExclusive(q)) => {
            assert(p =~= q);
        },
        _ => {},
    }
}

} // verus!
