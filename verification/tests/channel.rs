use midi_codec::Channel;

const ALL: [Channel; 16] = [
    Channel::Channel1,
    Channel::Channel2,
    Channel::Channel3,
    Channel::Channel4,
    Channel::Channel5,
    Channel::Channel6,
    Channel::Channel7,
    Channel::Channel8,
    Channel::Channel9,
    Channel::Channel10,
    Channel::Channel11,
    Channel::Channel12,
    Channel::Channel13,
    Channel::Channel14,
    Channel::Channel15,
    Channel::Channel16,
];

#[test]
fn from_index_maps_each_index_to_its_channel() {
    for (i, channel) in ALL.iter().enumerate() {
        assert_eq!(Channel::from_index(i as u8), *channel);
    }
}

#[test]
fn to_index_is_one_less_than_the_channel_number() {
    assert_eq!(Channel::Channel1.to_index(), 0);
    assert_eq!(Channel::Channel6.to_index(), 5);
    assert_eq!(Channel::Channel10.to_index(), 9);
    assert_eq!(Channel::Channel16.to_index(), 15);
    for (i, channel) in ALL.iter().enumerate() {
        assert_eq!(channel.to_index(), i as u8);
    }
}

#[test]
fn index_round_trip() {
    for i in 0u8..=15 {
        assert_eq!(Channel::from_index(i).to_index(), i);
    }
}

#[test]
fn channel_round_trip() {
    for channel in ALL {
        assert_eq!(Channel::from_index(channel.to_index()), channel);
    }
}

#[test]
fn from_index_saturates_above_fifteen() {
    assert_eq!(Channel::from_index(15), Channel::Channel16);
    assert_eq!(Channel::from_index(16), Channel::Channel16);
    assert_eq!(Channel::from_index(17), Channel::Channel16);
    assert_eq!(Channel::from_index(128), Channel::Channel16);
    assert_eq!(Channel::from_index(255), Channel::Channel16);
    for i in 16u8..=255 {
        assert_eq!(Channel::from_index(i).to_index(), 15);
    }
}

#[test]
fn distinct_channels_have_distinct_indices() {
    for a in ALL {
        for b in ALL {
            assert_eq!(a == b, a.to_index() == b.to_index());
        }
    }
}

#[test]
fn channel_from_u8() {
    assert_eq!(Channel::from(0u8), Channel::Channel1);
    assert_eq!(Channel::from(3u8), Channel::Channel4);
    assert_eq!(Channel::from(15u8), Channel::Channel16);
    assert_eq!(Channel::from(200u8), Channel::Channel16);
    let channel: Channel = 9u8.into();
    assert_eq!(channel, Channel::Channel10);
}

#[test]
fn u8_from_channel_reference() {
    let channel = Channel::Channel12;
    let index: u8 = (&channel).into();
    assert_eq!(index, 11);
    assert_eq!(u8::from(&Channel::Channel1), 0);
    assert_eq!(u8::from(&Channel::Channel16), 15);
}

#[test]
fn as_ref_gives_the_channel_itself() {
    let channel = Channel::Channel7;
    let same: &Channel = channel.as_ref();
    assert_eq!(*same, Channel::Channel7);
    assert!(std::ptr::eq(same, &channel));
}
