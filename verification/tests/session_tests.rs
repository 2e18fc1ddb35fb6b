use gold_lace::clock::{index_from_seed, random_index, seed_from_nanos, seed_now};
use gold_lace::color::Node;
use gold_lace::palette::{Palette, PAL_N};
use gold_lace::session::{Action, App, Key};
use gold_lace::state::State;

fn pal(name: &str) -> Palette {
    Palette {
        name: name.to_string(),
        phase: 0,
        nodes: vec![Node { pos: 0, r: 1, g: 2, b: 3 }],
        dense: vec![0; PAL_N],
    }
}

fn app(n: usize) -> App {
    let pals = (0..n).map(|i| pal(&format!("P{}", i))).collect();
    App::new(640, 480, pals)
}

fn built(seed: u64) -> State {
    let mut s = State::new(seed);
    s.build();
    s
}

fn same(a: &State, b: &State) -> bool {
    format!("{:?}", a) == format!("{:?}", b)
}

#[test]
fn new_app_has_one_pattern() {
    let a = app(3);
    assert_eq!(a.width(), 640);
    assert_eq!(a.height(), 480);
    assert_eq!(a.patterns().len(), 1);
    assert_eq!(a.pattern_idx(), 0);
    assert!(same(&a.state(), &a.patterns()[0]));
    assert!(a.pal_idx() < 3);
    assert!(!a.paused());
    assert_eq!(a.palettes().len(), 3);
}

#[test]
fn seeded_patterns_and_history_walk() {
    let mut a = app(2);
    a.new_pattern_seeded(10);
    a.new_pattern_seeded(20);
    assert_eq!(a.patterns().len(), 3);
    assert_eq!(a.pattern_idx(), 2);
    assert!(same(&a.state(), &built(20)));
    assert!(a.prev_pattern());
    assert!(same(&a.state(), &built(10)));
    assert!(a.prev_pattern());
    assert_eq!(a.pattern_idx(), 0);
    assert!(!a.prev_pattern());
    assert_eq!(a.pattern_idx(), 0);
    assert!(a.next_pattern_seeded(99));
    assert!(same(&a.state(), &built(10)));
    assert!(a.next_pattern_seeded(99));
    assert!(same(&a.state(), &built(20)));
    assert!(!a.next_pattern_seeded(30));
    assert_eq!(a.patterns().len(), 4);
    assert!(same(&a.state(), &built(30)));
}

#[test]
fn new_pattern_drops_forward_history() {
    let mut a = app(1);
    a.new_pattern_seeded(1);
    a.new_pattern_seeded(2);
    a.new_pattern_seeded(3);
    assert_eq!(a.patterns().len(), 4);
    a.prev_pattern();
    a.prev_pattern();
    assert_eq!(a.pattern_idx(), 1);
    a.new_pattern_seeded(5);
    assert_eq!(a.patterns().len(), 3);
    assert_eq!(a.pattern_idx(), 2);
    assert!(same(&a.patterns()[1], &built(1)));
    assert!(same(&a.state(), &built(5)));
}

#[test]
fn back_then_forward_restores_pattern() {
    let mut a = app(1);
    a.new_pattern_seeded(8);
    let before = a.state();
    assert!(a.prev_pattern());
    assert!(a.next_pattern());
    assert!(same(&a.state(), &before));
    assert_eq!(a.patterns().len(), 2);
}

#[test]
fn next_pattern_at_end_makes_new_one() {
    let mut a = app(1);
    assert!(!a.next_pattern());
    assert_eq!(a.patterns().len(), 2);
    assert_eq!(a.pattern_idx(), 1);
    a.new_pattern();
    assert_eq!(a.patterns().len(), 3);
}

#[test]
fn palette_ring_steps() {
    let mut a = app(3);
    let start = a.pal_idx();
    a.next_palette();
    assert_eq!(a.pal_idx(), (start + 1) % 3);
    a.prev_palette();
    assert_eq!(a.pal_idx(), start);
    a.prev_palette();
    assert_eq!(a.pal_idx(), (start + 2) % 3);
    for _ in 0..3 {
        a.next_palette();
    }
    assert_eq!(a.pal_idx(), (start + 2) % 3);
    assert_eq!(a.current_palette().name, format!("P{}", a.pal_idx()));
}

#[test]
fn random_palette_skips_current() {
    let mut a = app(4);
    while a.pal_idx() != 1 {
        a.next_palette();
    }
    a.random_palette_with(0);
    assert_eq!(a.pal_idx(), 0);
    a.random_palette_with(0);
    assert_eq!(a.pal_idx(), 1);
    a.random_palette_with(1);
    assert_eq!(a.pal_idx(), 2);
    a.random_palette_with(2);
    assert_eq!(a.pal_idx(), 3);
    for _ in 0..20 {
        let before = a.pal_idx();
        a.random_palette();
        assert_ne!(a.pal_idx(), before);
        assert!(a.pal_idx() < 4);
    }
}

#[test]
fn random_palette_single_stays() {
    let mut a = app(1);
    a.random_palette();
    assert_eq!(a.pal_idx(), 0);
    a.random_palette_with(5);
    assert_eq!(a.pal_idx(), 0);
}

#[test]
fn resize_clamps_and_reports_change() {
    let mut a = app(1);
    assert!(!a.resize(640, 480));
    assert!(a.resize(0, 0));
    assert_eq!((a.width(), a.height()), (1, 1));
    assert!(!a.resize(1, 0));
    assert!(a.resize(800, 600));
    assert!(!a.resize(800, 600));
    assert_eq!((a.width(), a.height()), (800, 600));
}

#[test]
fn toggle_pause_flips() {
    let mut a = app(1);
    a.toggle_pause();
    assert!(a.paused());
    a.toggle_pause();
    assert!(!a.paused());
}

#[test]
fn index_from_seed_is_seed_mod_len() {
    assert_eq!(index_from_seed(10, 0), 0);
    assert_eq!(index_from_seed(10, 3), 1);
    assert_eq!(index_from_seed(46, 46), 0);
    assert_eq!(index_from_seed(47, 46), 1);
}

#[test]
fn random_index_in_range() {
    assert_eq!(random_index(0), 0);
    for n in 1..50 {
        assert!(random_index(n) < n);
    }
    let _ = seed_now();
}

#[test]
fn seed_from_clock_reading() {
    assert_eq!(seed_from_nanos(None), 1_000_000_000);
    assert_eq!(seed_from_nanos(Some(42)), 42);
    assert_eq!(seed_from_nanos(Some((1u128 << 64) + 7)), 7);
}

#[test]
fn prev_at_oldest_keeps_shown_pattern() {
    let mut a = app(2);
    let before = a.state();
    assert!(!a.prev_pattern());
    assert!(same(&a.state(), &before));
    assert!(same(&a.state(), &a.patterns()[a.pattern_idx()]));
}

#[test]
fn quit_keys_quit_even_when_held() {
    let mut a = app(3);
    let before = (a.pal_idx(), a.pattern_idx(), a.paused());
    assert_eq!(a.handle_key_seeded(Key::Q, false, false, 5, 0), Action::Quit);
    assert_eq!(a.handle_key_seeded(Key::Escape, false, true, 5, 0), Action::Quit);
    assert_eq!((a.pal_idx(), a.pattern_idx(), a.paused()), before);
    assert_eq!(a.patterns().len(), 1);
}

#[test]
fn held_keys_do_nothing_else() {
    let mut a = app(3);
    for key in [Key::Space, Key::N, Key::P, Key::R, Key::LeftBracket, Key::RightBracket, Key::F] {
        assert_eq!(a.handle_key_seeded(key, false, true, 5, 0), Action::Nothing);
    }
    assert_eq!(a.patterns().len(), 1);
    assert!(!a.paused());
}

#[test]
fn space_and_n_walk_the_history() {
    let mut a = app(2);
    assert_eq!(a.handle_key_seeded(Key::Space, false, false, 10, 0), Action::PatternForward(false));
    assert!(same(&a.state(), &built(10)));
    assert_eq!(a.handle_key_seeded(Key::N, false, false, 20, 0), Action::PatternNew);
    assert_eq!(a.patterns().len(), 3);
    assert!(same(&a.state(), &built(20)));
    assert_eq!(a.handle_key_seeded(Key::Space, true, false, 0, 0), Action::PatternBack(true));
    assert!(same(&a.state(), &built(10)));
    assert_eq!(a.handle_key_seeded(Key::Space, false, false, 77, 0), Action::PatternForward(true));
    assert!(same(&a.state(), &built(20)));
    assert_eq!(a.handle_key_seeded(Key::Space, true, false, 0, 0), Action::PatternBack(true));
    assert_eq!(a.handle_key_seeded(Key::Space, true, false, 0, 0), Action::PatternBack(true));
    assert_eq!(a.pattern_idx(), 0);
    assert_eq!(a.handle_key_seeded(Key::Space, true, false, 0, 0), Action::PatternBack(false));
    assert_eq!(a.pattern_idx(), 0);
}

#[test]
fn palette_and_pause_keys() {
    let mut a = app(4);
    let start = a.pal_idx();
    assert_eq!(a.handle_key_seeded(Key::RightBracket, false, false, 0, 0), Action::PaletteStep);
    assert_eq!(a.pal_idx(), (start + 1) % 4);
    assert_eq!(a.handle_key_seeded(Key::LeftBracket, false, false, 0, 0), Action::PaletteStep);
    assert_eq!(a.pal_idx(), start);
    assert_eq!(a.handle_key_seeded(Key::R, false, false, 0, 2), Action::PaletteRandom);
    assert_eq!(a.pal_idx(), if 2 >= start { 3 } else { 2 });
    assert_eq!(a.handle_key_seeded(Key::P, false, false, 0, 0), Action::PauseToggled);
    assert!(a.paused());
    assert_eq!(a.handle_key_seeded(Key::F, false, false, 0, 0), Action::ToggleFullscreen);
    assert_eq!(a.handle_key_seeded(Key::Other, false, false, 0, 0), Action::Nothing);
    assert!(a.paused());
    assert_eq!(a.patterns().len(), 1);
}

#[test]
fn clock_keys_keep_the_rules() {
    let mut a = app(3);
    let before = a.pal_idx();
    assert_eq!(a.handle_key(Key::R, false, false), Action::PaletteRandom);
    assert_ne!(a.pal_idx(), before);
    assert_eq!(a.handle_key(Key::N, false, false), Action::PatternNew);
    assert_eq!(a.patterns().len(), 2);
    assert_eq!(a.pattern_idx(), 1);
    assert_eq!(a.handle_key(Key::Space, true, false), Action::PatternBack(true));
    assert_eq!(a.handle_key(Key::Space, false, false), Action::PatternForward(true));
}
