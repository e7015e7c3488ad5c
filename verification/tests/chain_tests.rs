use onchain_map::chain::SeedChannel;

#[test]
fn a_fresh_channel_holds_the_sentinel() {
    let channel = SeedChannel::new();
    assert_eq!(channel.read(), 0);
}

#[test]
fn last_write_wins() {
    let mut channel = SeedChannel::new();
    channel.write(5);
    channel.write(9);
    assert_eq!(channel.read(), 9);
}

#[test]
fn reads_do_not_consume_the_value() {
    let mut channel = SeedChannel::new();
    channel.write(123);
    assert_eq!(channel.read(), 123);
    assert_eq!(channel.read(), 123);
}

#[test]
fn zero_can_be_written_back() {
    let mut channel = SeedChannel::new();
    channel.write(7);
    channel.write(0);
    assert_eq!(channel.read(), 0);
}
