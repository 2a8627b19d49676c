use ascii_3d::rng::{Rng, SplitMix64};

#[test]
fn lcg_steps_from_its_seed() {
    let mut rng = Rng::new(1);
    assert_eq!(rng.next_u32(), 1817669548);
    assert_eq!(rng.next_u32(), 2187888307);
}

#[test]
fn zero_seed_counts_as_one() {
    let mut zero = Rng::new(0);
    let mut one = Rng::new(1);
    assert_eq!(zero.next_u32(), one.next_u32());
}

#[test]
fn same_seed_gives_the_same_numbers() {
    let mut a = Rng::new(42);
    let mut b = Rng::new(42);
    for _ in 0..16 {
        assert_eq!(a.next_u32(), b.next_u32());
    }
    let mut c = SplitMix64::new(7);
    let mut d = SplitMix64::new(7);
    for _ in 0..16 {
        assert_eq!(c.next_u64(), d.next_u64());
    }
}

#[test]
fn ranges_stay_inside_their_bounds() {
    let mut rng = Rng::new(3);
    let mut mix = SplitMix64::new(3);
    for _ in 0..200 {
        let value = rng.range_usize(5, 9);
        assert!((5..=9).contains(&value));
        let value = mix.range_usize(10, 12);
        assert!((10..=12).contains(&value));
    }
}

#[test]
fn empty_ranges_give_their_minimum() {
    let mut rng = Rng::new(3);
    assert_eq!(rng.range_usize(8, 2), 8);
    assert_eq!(rng.range_usize(4, 4), 4);
    let mut mix = SplitMix64::new(3);
    assert_eq!(mix.range_usize(8, 2), 8);
}

#[test]
fn splitmix_matches_the_reference_sequence() {
    let mut mix = SplitMix64::new(0);
    assert_eq!(mix.next_u64(), 0xe220a8397b1dcdaf);
    assert_eq!(mix.next_u64(), 0x6e789e6aa1b965f4);
    let mut mix = SplitMix64::new(0);
    assert_eq!(mix.range_usize(10, 15), 11);
}
