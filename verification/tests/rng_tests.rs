use gold_lace::rng::Rng;

#[test]
fn new_forces_odd_state() {
    assert_eq!(Rng::new(0).0, 1);
    assert_eq!(Rng::new(42).0, 43);
    assert_eq!(Rng::new(43).0, 43);
}

#[test]
fn seeds_differing_in_low_bit_give_same_stream() {
    let mut a = Rng::new(42);
    let mut b = Rng::new(43);
    for _ in 0..16 {
        assert_eq!(a.next_u32(), b.next_u32());
    }
}

#[test]
fn next_u32_follows_xorshift() {
    let mut r = Rng::new(1);
    assert_eq!(r.next_u32(), 0);
    assert_eq!(r.0, 1082269761);
    assert_eq!(r.next_u32(), 268452102);
    assert_eq!(r.0, 1152992998833853505);
    assert_eq!(r.next_u32(), 2602468399);
    assert_eq!(r.0, 11177516664432764457);
}

#[test]
fn range_reduces_next_word() {
    let mut r = Rng::new(42);
    let got: Vec<u32> = (0..5).map(|_| r.range(100)).collect();
    assert_eq!(got, vec![10, 87, 87, 85, 19]);
}

#[test]
fn range_stays_below_bound() {
    let mut r = Rng::new(987654321);
    for n in 1..200u32 {
        assert!(r.range(n) < n);
    }
}

#[test]
fn state_never_reaches_zero() {
    let mut r = Rng::new(0);
    for _ in 0..10_000 {
        r.next_u32();
        assert_ne!(r.0, 0);
    }
}

#[test]
fn distinct_states_step_apart() {
    let mut seen = std::collections::HashSet::new();
    for x in 1..2000u64 {
        let mut r = Rng(x);
        r.next_u32();
        assert!(seen.insert(r.0));
    }
}
