//! The integer channels of a reading: each is drawn from the closed interval
//! of width `range` on either side of `seed`.

use vstd::prelude::*;

verus! {

/// Seed of the force channel.
pub const FORCE_SEED: u16 = 15;

/// Range of the force channel.
pub const FORCE_RANGE: u16 = 10;

/// Seed of the linear channel.
pub const LINEAR_SEED: u16 = 12;

/// Range of the linear channel.
pub const LINEAR_RANGE: u16 = 6;

/// Seed of the string channel.
pub const STRING_SEED: u16 = 10;

/// Range of the string channel.
pub const STRING_RANGE: u16 = 8;

#[verifier::external_type_specification]
#[verifier::external_body]
pub struct ExThreadRng(rand::rngs::ThreadRng);

/// `rand::Rng::random_range` on a `ThreadRng`, with the inclusive range
/// `low..=high` of `u16`.
///
/// The call panics on an empty range, which `requires` leaves out. What it
/// returns lies in the range; which value of the range it is depends on the
/// generator, and nothing is said of that.
#[verifier::external_body]
fn draw(rng: &mut rand::rngs::ThreadRng, low: u16, high: u16) -> (value: u16)
    requires
        low <= high,
    ensures
        low <= value <= high,
{
    rand::Rng::random_range(rng, low..=high)
}

/// One integer channel: its values lie at most `range` away from `seed`.
#[derive(Clone, Copy, Debug)]
pub struct Channel {
    seed: u16,
    range: u16,
}

/// Whether an interval of `range` on either side of `seed` fits the channel's
/// integer type at both ends.
pub open spec fn fits(seed: u16, range: u16) -> bool {
    range <= seed && seed + range <= u16::MAX
}

impl Channel {
    #[verifier::type_invariant]
    spec fn inv(&self) -> bool {
        fits(self.seed, self.range)
    }

    /// The centre of the interval.
    pub closed spec fn spec_seed(&self) -> u16 {
        self.seed
    }

    /// Half the width of the interval.
    pub closed spec fn spec_range(&self) -> u16 {
        self.range
    }

    /// The least value of the channel.
    pub open spec fn spec_low(&self) -> int {
        self.spec_seed() - self.spec_range()
    }

    /// The greatest value of the channel.
    pub open spec fn spec_high(&self) -> int {
        self.spec_seed() + self.spec_range()
    }

    /// Whether `value` is one that the channel can take.
    pub open spec fn admits(&self, value: int) -> bool {
        self.spec_low() <= value <= self.spec_high()
    }

    /// The channel around `seed` with the given `range`, or `None` when the
    /// interval would reach below zero or above the largest `u16`.
    pub fn new(seed: u16, range: u16) -> (channel: Option<Channel>)
        ensures
            channel is Some <==> fits(seed, range),
            channel is Some ==> channel->0.spec_seed() == seed && channel->0.spec_range()
                == range,
    {
        if range <= seed && seed <= u16::MAX - range {
            Some(Channel { seed, range })
        } else {
            None
        }
    }

    /// The centre of the interval.
    #[verifier::when_used_as_spec(spec_seed)]
    pub fn seed(&self) -> (seed: u16)
        ensures
            seed == self.spec_seed(),
    {
        self.seed
    }

    /// Half the width of the interval.
    #[verifier::when_used_as_spec(spec_range)]
    pub fn range(&self) -> (range: u16)
        ensures
            range == self.spec_range(),
    {
        self.range
    }

    /// The least value of the channel.
    pub fn low(&self) -> (low: u16)
        ensures
            low == self.spec_low(),
            fits(self.spec_seed(), self.spec_range()),
    {
        proof {
            use_type_invariant(self);
        }
        self.seed - self.range
    }

    /// The greatest value of the channel.
    pub fn high(&self) -> (high: u16)
        ensures
            high == self.spec_high(),
            fits(self.spec_seed(), self.spec_range()),
    {
        proof {
            use_type_invariant(self);
        }
        self.seed + self.range
    }

    /// Draws one value of the channel from `rng`.
    pub fn sample(&self, rng: &mut rand::rngs::ThreadRng) -> (value: u16)
        ensures
            self.admits(value as int),
    {
        let low = self.low();
        let high = self.high();
        draw(rng, low, high)
    }
}

/// The three integer channels of a reading.
#[derive(Clone, Copy, Debug)]
pub struct Channels {
    pub force: Channel,
    pub linear: Channel,
    pub string: Channel,
}

impl Default for Channels {
    /// The channels with their usual seeds and ranges.
    fn default() -> (channels: Channels)
        ensures
            channels.force.spec_seed() == FORCE_SEED,
            channels.force.spec_range() == FORCE_RANGE,
            channels.linear.spec_seed() == LINEAR_SEED,
            channels.linear.spec_range() == LINEAR_RANGE,
            channels.string.spec_seed() == STRING_SEED,
            channels.string.spec_range() == STRING_RANGE,
    {
        Channels {
            force: Channel { seed: FORCE_SEED, range: FORCE_RANGE },
            linear: Channel { seed: LINEAR_SEED, range: LINEAR_RANGE },
            string: Channel { seed: STRING_SEED, range: STRING_RANGE },
        }
    }
}

} // verus!
