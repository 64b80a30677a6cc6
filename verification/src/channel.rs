//! The sixteen MIDI channels.

use vstd::prelude::*;

verus! {

/// A MIDI channel.
///
/// Musicians count channels from 1 to 16; on the wire a channel is the low
/// nibble of a status byte, its index, counted from 0 to 15. The index of a
/// channel is always one less than its number.
#[derive(Debug, Clone, Copy, PartialEq, Eq, Structural)]
pub enum Channel {
    Channel1,
    Channel2,
    Channel3,
    Channel4,
    Channel5,
    Channel6,
    Channel7,
    Channel8,
    Channel9,
    Channel10,
    Channel11,
    Channel12,
    Channel13,
    Channel14,
    Channel15,
    Channel16,
}

impl Channel {
    /// The number of the channel as musicians count it, from 1 to 16.
    pub open spec fn number(&self) -> int {
        match *self {
            Channel::Channel1 => 1,
            Channel::Channel2 => 2,
            Channel::Channel3 => 3,
            Channel::Channel4 => 4,
            Channel::Channel5 => 5,
            Channel::Channel6 => 6,
            Channel::Channel7 => 7,
            Channel::Channel8 => 8,
            Channel::Channel9 => 9,
            Channel::Channel10 => 10,
            Channel::Channel11 => 11,
            Channel::Channel12 => 12,
            Channel::Channel13 => 13,
            Channel::Channel14 => 14,
            Channel::Channel15 => 15,
            Channel::Channel16 => 16,
        }
    }

    /// The index of the channel on the wire, from 0 to 15.
    pub open spec fn index(&self) -> u8 {
        (self.number() - 1) as u8
    }

    /// The channel that `from_index` gives for `i`: the one whose index is
    /// `i`, or the highest channel where `i` is above 15.
    pub open spec fn spec_from_index(i: u8) -> Channel {
        match i {
            0 => Channel::Channel1,
            1 => Channel::Channel2,
            2 => Channel::Channel3,
            3 => Channel::Channel4,
            4 => Channel::Channel5,
            5 => Channel::Channel6,
            6 => Channel::Channel7,
            7 => Channel::Channel8,
            8 => Channel::Channel9,
            9 => Channel::Channel10,
            10 => Channel::Channel11,
            11 => Channel::Channel12,
            12 => Channel::Channel13,
            13 => Channel::Channel14,
            14 => Channel::Channel15,
            _ => Channel::Channel16,
        }
    }

    /// The channel with index `i`.
    ///
    /// Only the indices 0 to 15 name a channel. A larger index saturates: it
    /// gives `Channel16`, the channel with the largest index. The conversion
    /// therefore never fails, which lets `Channel` implement `From<u8>`, and
    /// it keeps the order of indices. The decoder only ever passes the low
    /// nibble of a status byte, which is in range.
    #[verifier::when_used_as_spec(spec_from_index)]
    pub fn from_index(i: u8) -> (c: Channel)
        ensures
            c == Channel::spec_from_index(i),
            i <= 15 ==> c.index() == i,
            i > 15 ==> c == Channel::Channel16,
    {
        match i {
            0 => Channel::Channel1,
            1 => Channel::Channel2,
            2 => Channel::Channel3,
            3 => Channel::Channel4,
            4 => Channel::Channel5,
            5 => Channel::Channel6,
            6 => Channel::Channel7,
            7 => Channel::Channel8,
            8 => Channel::Channel9,
            9 => Channel::Channel10,
            10 => Channel::Channel11,
            11 => Channel::Channel12,
            12 => Channel::Channel13,
            13 => Channel::Channel14,
            14 => Channel::Channel15,
            _ => Channel::Channel16,
        }
    }

    /// The index of the channel, from 0 to 15.
    #[verifier::when_used_as_spec(index)]
    pub fn to_index(&self) -> (i: u8)
        ensures
            i == self.index(),
            i <= 15,
            i + 1 == self.number(),
    {
        match self {
            Channel::Channel1 => 0,
            Channel::Channel2 => 1,
            Channel::Channel3 => 2,
            Channel::Channel4 => 3,
            Channel::Channel5 => 4,
            Channel::Channel6 => 5,
            Channel::Channel7 => 6,
            Channel::Channel8 => 7,
            Channel::Channel9 => 8,
            Channel::Channel10 => 9,
            Channel::Channel11 => 10,
            Channel::Channel12 => 11,
            Channel::Channel13 => 12,
            Channel::Channel14 => 13,
            Channel::Channel15 => 14,
            Channel::Channel16 => 15,
        }
    }
}

impl From<u8> for Channel {
    /// The channel with index `i`, as [`Channel::from_index`] gives it.
    fn from(i: u8) -> (c: Channel) {
        Channel::from_index(i)
    }
}

impl vstd::std_specs::convert::FromSpecImpl<u8> for Channel {
    open spec fn obeys_from_spec() -> bool {
        true
    }

    open spec fn from_spec(i: u8) -> Channel {
        Channel::spec_from_index(i)
    }
}

impl From<&Channel> for u8 {
    /// The index of the channel, as [`Channel::to_index`] gives it.
    fn from(channel: &Channel) -> (i: u8) {
        channel.to_index()
    }
}

impl vstd::std_specs::convert::FromSpecImpl<&Channel> for u8 {
    open spec fn obeys_from_spec() -> bool {
        true
    }

    open spec fn from_spec(channel: &Channel) -> u8 {
        channel.index()
    }
}

impl AsRef<Channel> for Channel {
    /// The channel itself.
    fn as_ref(&self) -> (channel: &Channel)
        ensures
            *channel == *self,
    {
        self
    }
}

/// Every index from 0 to 15 names a channel, and that channel has this
/// index: converting an index to a channel and back gives the index again.
pub proof fn lemma_index_round_trip(i: u8)
    requires
        i <= 15,
    ensures
        Channel::spec_from_index(i).index() == i,
{
}

/// Every channel has an index from 0 to 15, one less than its number, and is
/// the channel that this index names: converting a channel to its index and
/// back gives the channel again.
pub proof fn lemma_channel_round_trip(channel: Channel)
    ensures
        channel.index() <= 15,
        channel.index() + 1 == channel.number(),
        Channel::spec_from_index(channel.index()) == channel,
{
}

} // verus!
