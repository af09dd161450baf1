use tanks::effects::{fan_indices, Rng, Wreckage, WRECKAGE_BUDGET};

#[test]
fn rng_seed_forces_low_bit() {
    assert_eq!(Rng::new(0).state(), 1);
    assert_eq!(Rng::new(42).state(), 43);
    assert_eq!(Rng::new(7).state(), 7);
}

#[test]
fn rng_xorshift_sequence() {
    let mut rng = Rng::new(0);
    assert_eq!(rng.next_u32(), 270369);
    assert_eq!(rng.next_u32(), 67634689);
    assert_eq!(rng.next_u32(), 2647435461);
    assert_eq!(rng.state(), 2647435461);
}

#[test]
fn rng_same_seed_same_sequence() {
    let mut a = Rng::new(0x9E37_79B9);
    let mut b = Rng::new(0x9E37_79B9);
    for _ in 0..100 {
        assert_eq!(a.next_u32(), b.next_u32());
    }
}

#[test]
fn rng_never_reaches_zero() {
    let mut rng = Rng::new(0);
    for _ in 0..10_000 {
        assert_ne!(rng.next_u32(), 0);
    }
}

#[test]
fn rng_u24_is_top_bits() {
    let mut rng = Rng::new(0);
    assert_eq!(rng.next_u24(), 1056);
    assert_eq!(rng.next_u24(), 264198);
    assert_eq!(rng.next_u24(), 10341544);
    let mut other = Rng::new(123);
    for _ in 0..1000 {
        assert!(other.next_u24() < (1 << 24));
    }
}

#[test]
fn wreckage_starts_empty() {
    let w = Wreckage::new();
    assert_eq!(w.len(), 0);
    assert!(w.items().is_empty());
    assert_eq!(Wreckage::default().len(), 0);
}

#[test]
fn wreckage_keeps_all_within_budget() {
    let mut w = Wreckage::new();
    for e in 0..WRECKAGE_BUDGET as u64 {
        assert!(w.add(e).is_empty());
    }
    assert_eq!(w.len(), WRECKAGE_BUDGET);
    assert_eq!(w.items(), (0..WRECKAGE_BUDGET as u64).collect::<Vec<_>>());
}

#[test]
fn wreckage_recycles_oldest_first() {
    let mut w = Wreckage::new();
    for e in 0..600u64 {
        w.add(e);
    }
    assert_eq!(w.add(600), vec![0]);
    assert_eq!(w.add(601), vec![1]);
    assert_eq!(w.len(), 600);
    let items = w.items();
    assert_eq!(items[0], 2);
    assert_eq!(*items.last().unwrap(), 601);
}

#[test]
fn wreckage_holds_newest_pieces_after_many_adds() {
    let mut w = Wreckage::new();
    let mut evicted = Vec::new();
    for e in 0..2000u64 {
        evicted.extend(w.add(e));
    }
    assert_eq!(w.items(), (1400..2000u64).collect::<Vec<_>>());
    assert_eq!(evicted, (0..1400u64).collect::<Vec<_>>());
}

#[test]
fn fan_of_seven_sides() {
    let idx = fan_indices(7);
    assert_eq!(idx.len(), 21);
    assert_eq!(&idx[0..3], &[0, 1, 2]);
    assert_eq!(&idx[3..6], &[0, 2, 3]);
    assert_eq!(&idx[18..21], &[0, 7, 1]);
}

#[test]
fn fan_of_star_wraps_to_first_tip() {
    let idx = fan_indices(14);
    assert_eq!(idx.len(), 42);
    assert_eq!(&idx[39..42], &[0, 14, 1]);
    assert!(idx.iter().all(|&i| i <= 14));
}

#[test]
fn fan_of_nothing_is_empty() {
    assert!(fan_indices(0).is_empty());
}

#[test]
fn fan_of_one_rim_vertex() {
    assert_eq!(fan_indices(1), vec![0, 1, 1]);
}

#[test]
fn blast_seeds_advance_by_stride() {
    assert_eq!(tanks::effects::advance_seed(0), 2_654_435_761);
    assert_eq!(tanks::effects::advance_seed(2_000_000_000), 359_468_465);
    assert_eq!(tanks::effects::advance_seed(u32::MAX), 2_654_435_760);
}
