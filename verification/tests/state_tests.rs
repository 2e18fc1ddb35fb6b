use gold_lace::state::{profile_index, State, PROFILE_N};

fn built(seed: u64) -> State {
    let mut s = State::new(seed);
    s.build();
    s
}

#[test]
fn new_state_is_unbuilt_embossing() {
    let s = State::new(42);
    assert_eq!(s.rng.0, 43);
    assert!(!s.shape.ribbons && !s.shape.rhombuses && !s.shape.mesh);
    assert_eq!(s.style_name(), "Embossing");
    assert_eq!(s.tail.sw1, 0);
}

#[test]
fn build_seed_42_draws() {
    let s = built(42);
    assert_eq!((s.shape.minc, s.shape.maxc), (3, 10));
    assert!(s.shape.mesh && !s.shape.ribbons && !s.shape.rhombuses);
    assert_eq!(s.style_name(), "Mesh");
    assert!(s.shape.flip_u && s.shape.flip_v);
    assert!(!s.shape.invert_first && !s.shape.phase_perturb);
    assert!(!s.shape.blend_uv && s.shape.stripe_radius_blend);
    assert_eq!(s.shape.h_amp, (15237, 22176, 27281, 13567));
    assert_eq!(s.shape.h_phase, (12893, 9905, 5630, 11139));
    assert_eq!((s.profile.f3eac, s.profile.f3ea4, s.profile.f3ea8), (24, 9, 13689));
    assert!(s.profile.f3eb0);
    assert_eq!(s.profile.f3eb4, 3438897478);
    assert_eq!(s.profile.f3fb4, (false, 90));
    assert_eq!(s.profile.f3fb8, 51);
    assert_eq!(s.blend.f3ecc, 5);
    assert_eq!(s.blend.f3f14, 11);
    assert_eq!(s.wave.f3ee4, (false, 52));
    assert_eq!(s.wave.f3f1c, (true, 99));
    assert_eq!((s.wave.f3eec, s.wave.f3f20, s.wave.f3ef0, s.wave.f3f24), (18, 74, 98, 36));
    assert_eq!((s.wave.f3ef4, s.wave.f3f28), (42, 84));
    assert_eq!((s.wave.f3ef8, s.wave.f3f2c), (8, 13));
    assert_eq!((s.wave.f3efc, s.wave.f3f30), (15, 12));
    assert_eq!(s.wave.f3f3c, 36);
    assert_eq!(s.first.f3f40, (true, 69));
    assert_eq!(s.first.f3f44, (false, 54));
    assert_eq!(s.first.f3f58, 20);
    assert_eq!(s.first.f3f5c, 0);
    assert_eq!(s.tail.f3f60, Some(6));
    assert_eq!(s.tail.f3f64, 89);
    assert_eq!(s.tail.f3f68, None);
    assert_eq!((s.tail.f3f6c, s.tail.f3f70, s.tail.f3f74), (21, 58, 73));
    assert_eq!((s.tail.coord_mode, s.tail.sw1, s.tail.sw2, s.tail.sw3), (3, 4, 9, 3));
    assert_eq!((s.tail.late_sel, s.tail.quad_preset), (3, 4));
    assert_eq!(s.rng.0, 3607009453527476712);
}

#[test]
fn build_seed_123456789_skips_stripe_draw() {
    let s = built(123456789);
    assert!(s.shape.ribbons);
    assert_eq!(s.style_name(), "Ribbons");
    assert!(s.shape.blend_uv);
    assert_eq!(s.profile.f3fb4, (true, 49));
    assert_eq!((s.wave.f3eec, s.wave.f3f20, s.wave.f3ef0, s.wave.f3f24), (16, 45, 5, 82));
    assert_eq!(s.tail.f3f60, None);
    assert_eq!(s.tail.f3f64, 72);
    assert_eq!(s.tail.f3f68, Some(36));
    assert_eq!((s.tail.f3f6c, s.tail.f3f70, s.tail.f3f74), (43, 81, 14));
    assert_eq!((s.tail.coord_mode, s.tail.sw1, s.tail.sw2, s.tail.sw3), (0, 5, 4, 7));
    assert_eq!((s.tail.late_sel, s.tail.quad_preset), (2, 0));
    assert_eq!(s.rng.0, 15042927903987972154);
}

#[test]
fn build_other_seeds() {
    let s = built(7);
    assert_eq!(s.style_name(), "Embossing");
    assert_eq!((s.tail.coord_mode, s.tail.sw1, s.tail.sw2, s.tail.sw3), (0, 5, 9, 9));
    assert_eq!((s.tail.late_sel, s.tail.quad_preset), (1, 0));
    let r = built(1);
    assert_eq!((r.shape.minc, r.shape.maxc), (2, 10));
    assert_eq!(r.style_name(), "Mesh");
    assert_eq!(r.tail.f3f60, Some(4));
    assert_eq!(r.tail.f3f68, None);
    assert_eq!(r.rng.0, 977355301866012349);
}

#[test]
fn build_is_determined_by_seed() {
    for seed in [0u64, 1, 2, 99, 1 << 40, u64::MAX] {
        let a = built(seed);
        let b = built(seed);
        assert_eq!(format!("{:?}", a), format!("{:?}", b));
        let c = built(seed ^ 1);
        assert_eq!(format!("{:?}", a), format!("{:?}", c));
    }
}

#[test]
fn built_selectors_in_range() {
    for seed in 0..500u64 {
        let s = built(seed * 7919 + 3);
        let styles = [s.shape.ribbons, s.shape.rhombuses, s.shape.mesh];
        assert!(styles.iter().filter(|&&b| b).count() <= 1);
        assert!((0..4).contains(&s.tail.coord_mode));
        assert!((0..9).contains(&s.tail.sw1));
        assert!((0..10).contains(&s.tail.sw2));
        assert!((0..10).contains(&s.tail.sw3));
        assert!((0..6).contains(&s.tail.late_sel));
        assert!(s.tail.quad_preset < 6);
        assert!((2..5).contains(&s.shape.minc));
        assert!((8..13).contains(&s.shape.maxc));
    }
}

#[test]
fn ri_and_rb_draw_from_generator() {
    let mut s = State::new(42);
    assert_eq!(s.ri(100), 10);
    assert_eq!(s.ri(0), 0);
    let mut t = State::new(1);
    assert!(!t.rb());
}

#[test]
fn profile_index_clamps() {
    assert_eq!(profile_index(-5), 0);
    assert_eq!(profile_index(0), 0);
    assert_eq!(profile_index(1234), 1234);
    assert_eq!(profile_index(3998), 3998);
    assert_eq!(profile_index(3999), 3998);
    assert_eq!(profile_index(100_000), PROFILE_N - 2);
}
