use greywater::echo::{EchoChannel, ECHO_CAPACITY};

#[test]
fn produce_then_consume_returns_the_timestamp() {
    let mut channel = EchoChannel::new();
    assert!(channel.produce(1234));
    assert_eq!(channel.consume(), Some(1234));
    assert_eq!(channel.consume(), None);
    assert_eq!(channel.len(), 0);
}

#[test]
fn two_produces_come_back_in_order() {
    let mut channel = EchoChannel::new();
    assert!(channel.produce(100));
    assert!(channel.produce(250));
    assert_eq!(channel.consume(), Some(100));
    assert_eq!(channel.consume(), Some(250));
    assert_eq!(channel.consume(), None);
}

#[test]
fn third_produce_on_full_channel_is_dropped() {
    let mut channel = EchoChannel::new();
    assert!(channel.produce(10));
    assert!(channel.produce(20));
    assert_eq!(channel.len(), ECHO_CAPACITY);
    assert!(!channel.produce(30));
    assert_eq!(channel.len(), ECHO_CAPACITY);
    assert_eq!(channel.consume(), Some(10));
    assert_eq!(channel.consume(), Some(20));
    assert_eq!(channel.consume(), None);
}

#[test]
fn room_frees_after_consume() {
    let mut channel = EchoChannel::new();
    assert!(channel.produce(1));
    assert!(channel.produce(2));
    assert_eq!(channel.consume(), Some(1));
    assert!(channel.produce(3));
    assert_eq!(channel.consume(), Some(2));
    assert_eq!(channel.consume(), Some(3));
}

#[test]
fn consume_on_empty_channel_is_none() {
    let mut channel = EchoChannel::new();
    assert_eq!(channel.consume(), None);
    assert_eq!(channel.len(), 0);
}

#[test]
fn drain_empties_and_counts() {
    let mut channel = EchoChannel::new();
    assert_eq!(channel.drain(), 0);
    channel.produce(7);
    channel.produce(8);
    channel.produce(9);
    assert_eq!(channel.drain(), 2);
    assert_eq!(channel.len(), 0);
    assert_eq!(channel.consume(), None);
}

#[test]
fn two_channels_do_not_share_timestamps() {
    let mut clear = EchoChannel::new();
    let mut reactor = EchoChannel::new();
    clear.produce(1_000);
    reactor.produce(5_000);
    clear.produce(1_580);
    reactor.produce(6_160);
    assert_eq!(clear.consume(), Some(1_000));
    assert_eq!(reactor.consume(), Some(5_000));
    assert_eq!(clear.consume(), Some(1_580));
    assert_eq!(reactor.consume(), Some(6_160));
    assert_eq!(clear.consume(), None);
    assert_eq!(reactor.consume(), None);
}
