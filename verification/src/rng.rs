use vstd::prelude::*;

verus! {

/// The multiplier of the linear congruential generator behind [`Rng`].
pub const LCG_MULTIPLIER: u64 = 6364136223846793005;

/// The increment of the linear congruential generator behind [`Rng`].
pub const LCG_INCREMENT: u64 = 1442695040888963407;

/// The state of an [`Rng`] after one step from `state`.
pub open spec fn lcg_step(state: u64) -> u64 {
    state.wrapping_mul(LCG_MULTIPLIER).wrapping_add(LCG_INCREMENT)
}

/// `min + value % (max_inclusive - min + 1)`, or `min` when the range is
/// empty or a single value.
pub open spec fn pick_in_range(min: usize, max_inclusive: usize, value: usize) -> usize {
    if max_inclusive <= min {
        min
    } else {
        (min + value % ((max_inclusive - min + 1) as usize)) as usize
    }
}

/// A small linear congruential generator; the same seed gives the same
/// numbers on every run.
pub struct Rng {
    state: u64,
}

impl View for Rng {
    type V = u64;

    closed spec fn view(&self) -> u64 {
        self.state
    }
}

impl Rng {
    /// A generator seeded with `seed`; a zero seed is taken as one.
    pub fn new(seed: u64) -> (rng: Self)
        ensures
            rng@ == if seed == 0 {
                1
            } else {
                seed
            },
    {
        Rng { state: if seed < 1 { 1 } else { seed } }
    }

    /// Steps the generator and returns the high half of its new state.
    pub fn next_u32(&mut self) -> (value: u32)
        ensures
            final(self)@ == lcg_step(old(self)@),
            value == (final(self)@ >> 32u64) as u32,
    {
        self.state = self.state.wrapping_mul(LCG_MULTIPLIER).wrapping_add(LCG_INCREMENT);
        (self.state >> 32u64) as u32
    }

    /// A number from `min` to `max_inclusive`, both included; `min` when
    /// `max_inclusive <= min`, without stepping the generator.
    pub fn range_usize(&mut self, min: usize, max_inclusive: usize) -> (value: usize)
        requires
            max_inclusive - min < usize::MAX,
        ensures
            max_inclusive <= min ==> value == min && final(self)@ == old(self)@,
            min < max_inclusive ==> final(self)@ == lcg_step(old(self)@) && value == pick_in_range(
                min,
                max_inclusive,
                (final(self)@ >> 32u64) as u32 as usize,
            ),
            min <= max_inclusive ==> min <= value <= max_inclusive,
    {
        if max_inclusive <= min {
            min
        } else {
            let drawn = self.next_u32() as usize;
            let span = max_inclusive - min + 1;
            min + drawn % span
        }
    }
}

/// The step that SplitMix64 adds to its state.
pub const SPLITMIX_GAMMA: u64 = 0x9E3779B97F4A7C15;

/// The output of SplitMix64 for the state `z`.
pub open spec fn splitmix_output(z: u64) -> u64 {
    let a = (z ^ (z >> 30u64)).wrapping_mul(0xBF58476D1CE4E5B9);
    let b = (a ^ (a >> 27u64)).wrapping_mul(0x94D049BB133111EB);
    b ^ (b >> 31u64)
}

/// The SplitMix64 generator; the same seed gives the same numbers on every
/// run.
pub struct SplitMix64 {
    state: u64,
}

impl View for SplitMix64 {
    type V = u64;

    closed spec fn view(&self) -> u64 {
        self.state
    }
}

impl SplitMix64 {
    pub fn new(seed: u64) -> (rng: Self)
        ensures
            rng@ == seed,
    {
        SplitMix64 { state: seed }
    }

    /// Adds the gamma to the state and returns the mixed state.
    pub fn next_u64(&mut self) -> (value: u64)
        ensures
            final(self)@ == old(self)@.wrapping_add(SPLITMIX_GAMMA),
            value == splitmix_output(final(self)@),
    {
        self.state = self.state.wrapping_add(SPLITMIX_GAMMA);
        let mut z = self.state;
        z = (z ^ (z >> 30u64)).wrapping_mul(0xBF58476D1CE4E5B9);
        z = (z ^ (z >> 27u64)).wrapping_mul(0x94D049BB133111EB);
        z ^ (z >> 31u64)
    }

    /// A number from `minimum` to `maximum`, both included; `minimum` when
    /// `maximum <= minimum`, without stepping the generator.
    pub fn range_usize(&mut self, minimum: usize, maximum: usize) -> (value: usize)
        requires
            maximum - minimum < usize::MAX,
        ensures
            maximum <= minimum ==> value == minimum && final(self)@ == old(self)@,
            minimum < maximum ==> final(self)@ == old(self)@.wrapping_add(SPLITMIX_GAMMA)
                && value == pick_in_range(
                minimum,
                maximum,
                splitmix_output(final(self)@) as usize,
            ),
            minimum <= maximum ==> minimum <= value <= maximum,
    {
        if minimum >= maximum {
            return minimum;
        }
        let drawn = self.next_u64() as usize;
        let span = maximum - minimum + 1;
        minimum + drawn % span
    }
}

} // verus!
