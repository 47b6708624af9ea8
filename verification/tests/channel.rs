use mock_data::channel::{
    Channel, Channels, FORCE_RANGE, FORCE_SEED, LINEAR_RANGE, LINEAR_SEED, STRING_RANGE,
    STRING_SEED,
};

#[test]
fn usual_channels_keep_their_seeds_and_ranges() {
    let channels = Channels::default();
    assert_eq!((FORCE_SEED, FORCE_RANGE), (15, 10));
    assert_eq!((LINEAR_SEED, LINEAR_RANGE), (12, 6));
    assert_eq!((STRING_SEED, STRING_RANGE), (10, 8));
    assert_eq!((channels.force.seed(), channels.force.range()), (15, 10));
    assert_eq!((channels.linear.seed(), channels.linear.range()), (12, 6));
    assert_eq!((channels.string.seed(), channels.string.range()), (10, 8));
}

#[test]
fn usual_channels_have_their_bounds() {
    let channels = Channels::default();
    assert_eq!((channels.force.low(), channels.force.high()), (5, 25));
    assert_eq!((channels.linear.low(), channels.linear.high()), (6, 18));
    assert_eq!((channels.string.low(), channels.string.high()), (2, 18));
}

#[test]
fn channel_must_fit_its_type() {
    assert!(Channel::new(15, 10).is_some());
    assert!(Channel::new(10, 10).is_some());
    assert!(Channel::new(0, 0).is_some());
    assert!(Channel::new(65535, 0).is_some());
    assert!(Channel::new(32767, 32767).is_some());
    assert!(Channel::new(9, 10).is_none());
    assert!(Channel::new(0, 1).is_none());
    assert!(Channel::new(65535, 1).is_none());
    assert!(Channel::new(32768, 32768).is_none());
    assert!(Channel::new(40000, 30000).is_none());
}

#[test]
fn new_channel_has_the_bounds_asked_for() {
    let channel = Channel::new(100, 30).unwrap();
    assert_eq!(channel.seed(), 100);
    assert_eq!(channel.range(), 30);
    assert_eq!(channel.low(), 70);
    assert_eq!(channel.high(), 130);
    let widest = Channel::new(32767, 32767).unwrap();
    assert_eq!(widest.low(), 0);
    assert_eq!(widest.high(), 65534);
}

#[test]
fn force_lies_between_five_and_twenty_five() {
    let channels = Channels::default();
    let mut rng = rand::rng();
    for _ in 0..2000 {
        let force = channels.force.sample(&mut rng);
        assert!(5 <= force && force <= 25);
    }
}

#[test]
fn samples_lie_within_the_bounds() {
    let mut rng = rand::rng();
    for (seed, range) in [(12u16, 6u16), (10, 8), (1000, 1), (32767, 32767), (65535, 0)] {
        let channel = Channel::new(seed, range).unwrap();
        for _ in 0..500 {
            let value = channel.sample(&mut rng);
            assert!(seed - range <= value && value <= seed + range);
        }
    }
}

#[test]
fn channel_without_range_gives_its_seed() {
    let channel = Channel::new(321, 0).unwrap();
    let mut rng = rand::rng();
    for _ in 0..50 {
        assert_eq!(channel.sample(&mut rng), 321);
    }
}

#[test]
fn samples_vary() {
    let channel = Channel::new(15, 10).unwrap();
    let mut rng = rand::rng();
    let mut seen_above_low = false;
    let mut seen_below_high = false;
    for _ in 0..400 {
        let value = channel.sample(&mut rng);
        if value > channel.low() {
            seen_above_low = true;
        }
        if value < channel.high() {
            seen_below_high = true;
        }
    }
    assert!(seen_above_low);
    assert!(seen_below_high);
}
