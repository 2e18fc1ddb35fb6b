use vstd::prelude::*;

use crate::clock::{index_from_seed, random_index, read_clock, seed_index, seed_now, ClockSeed};
use crate::palette::Palette;
use crate::state::{built_state, State};

verus! {

/// The palette index after stepping forward on a ring of `n` palettes.
pub open spec fn palette_after(i: int, n: int) -> int {
    (i + 1) % n
}

/// The palette index after stepping backward on a ring of `n` palettes.
pub open spec fn palette_before(i: int, n: int) -> int {
    (i + n - 1) % n
}

/// The palette index that a random pick `k` in `0..n - 1` selects while
/// palette `cur` is shown: every index but `cur`, in order.
pub open spec fn palette_skipping(cur: int, k: int) -> int {
    if k >= cur {
        k + 1
    } else {
        k
    }
}

/// How many patterns of the history survive when a new one is made while
/// pattern `idx` of `len` is shown: those up to and including the shown one.
pub open spec fn kept_patterns(idx: int, len: int) -> int {
    if idx + 1 < len {
        idx + 1
    } else {
        len
    }
}

/// The render size after a resize request: each side at least 1.
pub open spec fn clamped(x: usize) -> usize {
    if x >= 1 {
        x
    } else {
        1
    }
}

/// `b` shows the same size, palettes, palette and pause state as `a`.
pub open spec fn same_view(a: App, b: App) -> bool {
    &&& b.width_spec() == a.width_spec()
    &&& b.height_spec() == a.height_spec()
    &&& b.palettes_spec() == a.palettes_spec()
    &&& b.pal_idx_spec() == a.pal_idx_spec()
    &&& b.paused_spec() == a.paused_spec()
}

/// `b` is `a` after making the pattern of `seed`: the patterns after the
/// shown one are dropped, and the new pattern is appended and shown.
pub open spec fn made_pattern(a: App, b: App, seed: u64) -> bool {
    &&& same_view(a, b)
    &&& b.state_spec() == built_state(seed | 1u64)
    &&& b.patterns_spec() == a.patterns_spec().take(
        kept_patterns(a.pattern_idx_spec(), a.patterns_spec().len() as int),
    ).push(built_state(seed | 1u64))
    &&& b.pattern_idx_spec() == b.patterns_spec().len() - 1
}

/// `b` is `a` after a step forward: to the next pattern of the history
/// (`moved`), or, at its end, to a new pattern made from `seed`.
pub open spec fn stepped_forward(a: App, b: App, moved: bool, seed: u64) -> bool {
    &&& moved == (a.pattern_idx_spec() + 1 < a.patterns_spec().len())
    &&& moved ==> {
        &&& same_view(a, b)
        &&& b.patterns_spec() == a.patterns_spec()
        &&& b.pattern_idx_spec() == a.pattern_idx_spec() + 1
        &&& b.state_spec() == a.patterns_spec()[a.pattern_idx_spec() + 1]
    }
    &&& !moved ==> made_pattern(a, b, seed)
}

/// `b` is `a` after a step back: to the previous pattern of the history
/// (`moved`), or unchanged at the oldest one.
pub open spec fn stepped_back(a: App, b: App, moved: bool) -> bool {
    &&& moved == (a.pattern_idx_spec() > 0)
    &&& same_view(a, b)
    &&& b.patterns_spec() == a.patterns_spec()
    &&& b.pattern_idx_spec() == (if moved {
        a.pattern_idx_spec() - 1
    } else {
        a.pattern_idx_spec()
    })
    &&& b.state_spec() == (if moved {
        a.patterns_spec()[a.pattern_idx_spec() - 1]
    } else {
        a.state_spec()
    })
}

/// What the viewer invariant gives callers: there is a palette and the shown
/// palette index lies on the ring, there is a pattern history and the shown
/// index lies in it, and the shown pattern is the history's entry there.
pub open spec fn consistent(a: App) -> bool {
    &&& a.palettes_spec().len() > 0
    &&& 0 <= a.pal_idx_spec() < a.palettes_spec().len()
    &&& a.patterns_spec().len() > 0
    &&& 0 <= a.pattern_idx_spec() < a.patterns_spec().len()
    &&& a.state_spec() == a.patterns_spec()[a.pattern_idx_spec()]
}

/// `b` is `a` showing palette `i` instead, all else unchanged.
pub open spec fn showing_palette(a: App, b: App, i: int) -> bool {
    &&& b.width_spec() == a.width_spec()
    &&& b.height_spec() == a.height_spec()
    &&& b.palettes_spec() == a.palettes_spec()
    &&& b.pal_idx_spec() == i
    &&& b.state_spec() == a.state_spec()
    &&& b.patterns_spec() == a.patterns_spec()
    &&& b.pattern_idx_spec() == a.pattern_idx_spec()
    &&& b.paused_spec() == a.paused_spec()
}

/// `b` is `a` after a resize request to `w` by `h`: the clamped size is
/// taken, and `changed` tells whether it differs from the old size.
pub open spec fn resized(a: App, b: App, w: usize, h: usize, changed: bool) -> bool {
    &&& changed == !(a.width_spec() == clamped(w) && a.height_spec() == clamped(h))
    &&& b.width_spec() == clamped(w)
    &&& b.height_spec() == clamped(h)
    &&& b.palettes_spec() == a.palettes_spec()
    &&& b.pal_idx_spec() == a.pal_idx_spec()
    &&& b.state_spec() == a.state_spec()
    &&& b.patterns_spec() == a.patterns_spec()
    &&& b.pattern_idx_spec() == a.pattern_idx_spec()
    &&& b.paused_spec() == a.paused_spec()
}

/// `b` is `a` with palette scrolling paused or resumed, all else unchanged.
pub open spec fn pause_toggled(a: App, b: App) -> bool {
    &&& b.width_spec() == a.width_spec()
    &&& b.height_spec() == a.height_spec()
    &&& b.palettes_spec() == a.palettes_spec()
    &&& b.pal_idx_spec() == a.pal_idx_spec()
    &&& b.state_spec() == a.state_spec()
    &&& b.patterns_spec() == a.patterns_spec()
    &&& b.pattern_idx_spec() == a.pattern_idx_spec()
    &&& b.paused_spec() == !a.paused_spec()
}

/// `b` holds the same latest clock reading as `a`.
pub open spec fn same_reading(a: App, b: App) -> bool {
    &&& b.clock_seed_spec() == a.clock_seed_spec()
    &&& b.readings_spec() == a.readings_spec()
}

/// `b` holds a fresh clock reading: the one after the latest reading of `a`.
pub open spec fn read_next(a: App, b: App) -> bool {
    b.readings_spec() == a.readings_spec() + 1
}

/// Whether a key press in state `a` reads the clock: a first press of `N`,
/// of `Space` without `Shift` at the end of the history, or of `R` with more
/// than one palette.
pub open spec fn key_reads_clock(a: App, key: Key, shift: bool, repeat: bool) -> bool {
    &&& !repeat
    &&& {
        ||| key == Key::N
        ||| key == Key::Space && !shift && a.pattern_idx_spec() + 1 >= a.patterns_spec().len()
        ||| key == Key::R && a.palettes_spec().len() > 1
    }
}

/// A key that the viewer reads; every other key is `Other`.
#[derive(Clone, Copy, Debug, PartialEq, Eq, Structural)]
pub enum Key {
    Space,
    N,
    P,
    R,
    LeftBracket,
    RightBracket,
    F,
    Q,
    Escape,
    Other,
}

/// What the surrounding program does after a key: quit, toggle fullscreen,
/// show the new pattern (after a step forward, with whether it moved within
/// the history; after a step back, with whether it moved; or a freshly made
/// one), show the new palette (stepped or random), note the pause toggle, or
/// nothing.
#[derive(Clone, Copy, Debug, PartialEq, Eq, Structural)]
pub enum Action {
    Quit,
    ToggleFullscreen,
    PatternForward(bool),
    PatternBack(bool),
    PatternNew,
    PaletteStep,
    PaletteRandom,
    PauseToggled,
    Nothing,
}

/// `b` and `action` are `a` and the action after a key press: `Q` and `Esc`
/// quit, held down or not; a held-down (repeated) key does nothing else.
/// On a first press, `Space` steps forward (making the pattern of `seed` at
/// the end of the history), `Shift` + `Space` steps back, `N` makes the
/// pattern of `seed`, `P` toggles the pause, `R` shows the palette that
/// `pick` selects among the others, `[` and `]` step through the palette
/// ring, `F` asks for fullscreen to be toggled, and other keys do nothing.
pub open spec fn key_step(
    a: App,
    b: App,
    key: Key,
    shift: bool,
    repeat: bool,
    seed: u64,
    pick: usize,
    action: Action,
) -> bool {
    let n = a.palettes_spec().len() as int;
    let cur = a.pal_idx_spec();
    if key == Key::Q || key == Key::Escape {
        action == Action::Quit && b == a
    } else if repeat {
        action == Action::Nothing && b == a
    } else {
        match key {
            Key::Space => if shift {
                let moved = a.pattern_idx_spec() > 0;
                action == Action::PatternBack(moved) && stepped_back(a, b, moved)
            } else {
                let moved = a.pattern_idx_spec() + 1 < a.patterns_spec().len();
                action == Action::PatternForward(moved) && stepped_forward(a, b, moved, seed)
            },
            Key::N => action == Action::PatternNew && made_pattern(a, b, seed),
            Key::P => action == Action::PauseToggled && pause_toggled(a, b),
            Key::R => action == Action::PaletteRandom && showing_palette(
                a,
                b,
                if n > 1 {
                    palette_skipping(cur, pick as int)
                } else {
                    cur
                },
            ),
            Key::LeftBracket => action == Action::PaletteStep && showing_palette(
                a,
                b,
                palette_before(cur, n),
            ),
            Key::RightBracket => action == Action::PaletteStep && showing_palette(
                a,
                b,
                palette_after(cur, n),
            ),
            Key::F => action == Action::ToggleFullscreen && b == a,
            _ => action == Action::Nothing && b == a,
        }
    }
}

/// The viewer's discrete state: render size, the palette ring and the
/// shown palette, the shown pattern and the history of generated patterns,
/// and whether palette scrolling is paused.
pub struct App {
    w: usize,
    h: usize,
    palettes: Vec<Palette>,
    pal_idx: usize,
    state: State,
    patterns: Vec<State>,
    pattern_idx: usize,
    paused: bool,
    reading: ClockSeed,
}

impl App {
    /// Width of the render target.
    pub closed spec fn width_spec(&self) -> usize {
        self.w
    }

    /// Height of the render target.
    pub closed spec fn height_spec(&self) -> usize {
        self.h
    }

    /// The palette ring.
    pub closed spec fn palettes_spec(&self) -> Seq<Palette> {
        self.palettes@
    }

    /// Index of the shown palette.
    pub closed spec fn pal_idx_spec(&self) -> int {
        self.pal_idx as int
    }

    /// The shown pattern.
    pub closed spec fn state_spec(&self) -> State {
        self.state
    }

    /// The generated patterns, oldest first.
    pub closed spec fn patterns_spec(&self) -> Seq<State> {
        self.patterns@
    }

    /// Index of the shown pattern in the history.
    pub closed spec fn pattern_idx_spec(&self) -> int {
        self.pattern_idx as int
    }

    /// Whether palette scrolling is paused.
    pub closed spec fn paused_spec(&self) -> bool {
        self.paused
    }

    /// The seed of the latest clock reading.
    pub closed spec fn clock_seed_spec(&self) -> u64 {
        self.reading.value()
    }

    /// The number of the latest clock reading (the first pattern's is 0).
    pub closed spec fn readings_spec(&self) -> nat {
        self.reading.reading()
    }

    /// The viewer invariant: there is a palette and it is shown, there is a
    /// pattern history, and the shown pattern is the history's current one.
    pub closed spec fn wf(&self) -> bool {
        &&& self.palettes.len() > 0
        &&& self.pal_idx < self.palettes.len()
        &&& self.patterns.len() > 0
        &&& self.pattern_idx < self.patterns.len()
        &&& self.state == self.patterns@[self.pattern_idx as int]
    }

    /// A viewer of the given size over the given palettes: a clock-chosen
    /// palette and one clock-seeded pattern in the history.
    pub fn new(w: usize, h: usize, palettes: Vec<Palette>) -> (app: App)
        requires
            palettes.len() > 0,
        ensures
            app.wf(),
            consistent(app),
            app.width_spec() == w,
            app.height_spec() == h,
            app.palettes_spec() == palettes@,
            app.patterns_spec().len() == 1,
            app.pattern_idx_spec() == 0,
            exists|seed: u64| app.state_spec() == built_state(#[trigger] (seed | 1u64)),
            app.readings_spec() == 0,
            app.state_spec() == built_state(app.clock_seed_spec() | 1u64),
            !app.paused_spec(),
    {
        let pal_idx = random_index(palettes.len());
        let state = State::new(seed_now());
        let reading = read_clock(Ghost(0));
        let seed = reading.get();
        let mut app = App {
            w,
            h,
            palettes,
            pal_idx,
            state,
            patterns: Vec::new(),
            pattern_idx: 0,
            paused: false,
            reading,
        };
        app.make_pattern(seed);
        app
    }

    /// Makes the pattern of `seed` and shows it, dropping the patterns after
    /// the shown one; the history may still be empty.
    fn make_pattern(&mut self, seed: u64)
        requires
            old(self).palettes.len() > 0,
            old(self).pal_idx < old(self).palettes.len(),
            (old(self).patterns.len() == 0 && old(self).pattern_idx == 0) || old(self).pattern_idx
                < old(self).patterns.len(),
        ensures
            final(self).wf(),
            consistent(*final(self)),
            made_pattern(*old(self), *final(self), seed),
            same_reading(*old(self), *final(self)),
    {
        assert(self.pattern_idx < self.patterns.len() || self.patterns.len() == 0);
        if self.pattern_idx + 1 < self.patterns.len() {
            self.patterns.truncate(self.pattern_idx + 1);
        }
        let mut st = State::new(seed);
        st.build();
        self.state = st;
        self.patterns.push(st);
        self.pattern_idx = self.patterns.len() - 1;
        assert(self.patterns@ =~= old(self).patterns@.take(
            kept_patterns(old(self).pattern_idx as int, old(self).patterns.len() as int),
        ).push(built_state(seed | 1u64)));
    }

    /// Makes a new pattern from `seed`, drops the patterns after the shown
    /// one, and appends the new pattern to the history and shows it.
    pub fn new_pattern_seeded(&mut self, seed: u64)
        requires
            old(self).wf(),
        ensures
            final(self).wf(),
            consistent(*final(self)),
            made_pattern(*old(self), *final(self), seed),
            same_reading(*old(self), *final(self)),
    {
        self.make_pattern(seed);
    }

    /// Makes a new clock-seeded pattern (see `new_pattern_seeded`).
    pub fn new_pattern(&mut self)
        requires
            old(self).wf(),
        ensures
            final(self).wf(),
            consistent(*final(self)),
            exists|seed: u64| made_pattern(*old(self), *final(self), seed),
            read_next(*old(self), *final(self)),
            made_pattern(*old(self), *final(self), final(self).clock_seed_spec()),
    {
        let reading = read_clock(Ghost(self.reading.reading() + 1));
        let seed = reading.get();
        self.new_pattern_seeded(seed);
        self.reading = reading;
        assert(made_pattern(*old(self), *self, seed));
    }

    /// Shows the next pattern of the history, or, at its end, makes a new
    /// pattern from `seed`. Returns whether it moved within the history.
    pub fn next_pattern_seeded(&mut self, seed: u64) -> (moved: bool)
        requires
            old(self).wf(),
        ensures
            final(self).wf(),
            consistent(*final(self)),
            stepped_forward(*old(self), *final(self), moved, seed),
            same_reading(*old(self), *final(self)),
    {
        if self.pattern_idx + 1 < self.patterns.len() {
            self.pattern_idx = self.pattern_idx + 1;
            self.state = self.patterns[self.pattern_idx];
            true
        } else {
            self.new_pattern_seeded(seed);
            assert(old(self).patterns_spec().take(old(self).patterns_spec().len() as int) =~= old(
                self,
            ).patterns_spec());
            false
        }
    }

    /// Shows the next pattern of the history, or, at its end, makes a new
    /// clock-seeded pattern. Returns whether it moved within the history.
    pub fn next_pattern(&mut self) -> (moved: bool)
        requires
            old(self).wf(),
        ensures
            final(self).wf(),
            consistent(*final(self)),
            exists|seed: u64| stepped_forward(*old(self), *final(self), moved, seed),
            moved ==> same_reading(*old(self), *final(self)),
            !moved ==> read_next(*old(self), *final(self)),
            stepped_forward(*old(self), *final(self), moved, final(self).clock_seed_spec()),
    {
        if self.pattern_idx + 1 < self.patterns.len() {
            self.next_pattern_seeded(0)
        } else {
            let reading = read_clock(Ghost(self.reading.reading() + 1));
            let seed = reading.get();
            let moved = self.next_pattern_seeded(seed);
            self.reading = reading;
            assert(stepped_forward(*old(self), *self, moved, seed));
            moved
        }
    }

    /// Shows the previous pattern of the history; at the oldest pattern
    /// nothing changes. Returns whether it moved.
    pub fn prev_pattern(&mut self) -> (moved: bool)
        requires
            old(self).wf(),
        ensures
            final(self).wf(),
            consistent(*final(self)),
            stepped_back(*old(self), *final(self), moved),
            same_reading(*old(self), *final(self)),
    {
        if self.pattern_idx > 0 {
            self.pattern_idx = self.pattern_idx - 1;
            self.state = self.patterns[self.pattern_idx];
            true
        } else {
            false
        }
    }

    /// Takes a new render size, each side clamped to at least 1. Returns
    /// whether the size changed.
    pub fn resize(&mut self, w: usize, h: usize) -> (changed: bool)
        ensures
            resized(*old(self), *final(self), w, h, changed),
            final(self).width_spec() == (if w == 0 { 1 } else { w }),
            final(self).height_spec() == (if h == 0 { 1 } else { h }),
            changed == (final(self).width_spec() != old(self).width_spec()
                || final(self).height_spec() != old(self).height_spec()),
            same_reading(*old(self), *final(self)),
    {
        let w = if w > 1 {
            w
        } else {
            1
        };
        let h = if h > 1 {
            h
        } else {
            1
        };
        if self.w == w && self.h == h {
            return false;
        }
        self.w = w;
        self.h = h;
        true
    }

    /// The shown palette.
    pub fn current_palette(&self) -> (p: &Palette)
        requires
            self.wf(),
        ensures
            *p == self.palettes_spec()[self.pal_idx_spec()],
    {
        &self.palettes[self.pal_idx]
    }

    /// Shows the previous palette of the ring.
    pub fn prev_palette(&mut self)
        requires
            old(self).wf(),
        ensures
            final(self).wf(),
            consistent(*final(self)),
            showing_palette(
                *old(self),
                *final(self),
                palette_before(old(self).pal_idx_spec(), old(self).palettes_spec().len() as int),
            ),
            same_reading(*old(self), *final(self)),
    {
        let n = self.palettes.len();
        let i = self.pal_idx;
        let j = if i == 0 {
            n - 1
        } else {
            i - 1
        };
        assert(j == (i + n - 1) % (n as int)) by (nonlinear_arith)
            requires
                i < n,
                j == (if i == 0 { n - 1 } else { i - 1 }),
        ;
        self.pal_idx = j;
    }

    /// Shows the next palette of the ring.
    pub fn next_palette(&mut self)
        requires
            old(self).wf(),
        ensures
            final(self).wf(),
            consistent(*final(self)),
            showing_palette(
                *old(self),
                *final(self),
                palette_after(old(self).pal_idx_spec(), old(self).palettes_spec().len() as int),
            ),
            same_reading(*old(self), *final(self)),
    {
        self.pal_idx = (self.pal_idx + 1) % self.palettes.len();
    }

    /// Shows the palette that the pick `k` (in `0..n - 1`) selects among the
    /// palettes other than the shown one; with a single palette nothing
    /// changes.
    pub fn random_palette_with(&mut self, k: usize)
        requires
            old(self).wf(),
            old(self).palettes_spec().len() > 1 ==> k < old(self).palettes_spec().len() - 1,
        ensures
            final(self).wf(),
            consistent(*final(self)),
            old(self).palettes_spec().len() > 1 ==> showing_palette(
                *old(self),
                *final(self),
                palette_skipping(old(self).pal_idx_spec(), k as int),
            ),
            old(self).palettes_spec().len() <= 1 ==> showing_palette(
                *old(self),
                *final(self),
                old(self).pal_idx_spec(),
            ),
            same_reading(*old(self), *final(self)),
    {
        let len = self.palettes.len();
        if len > 1 {
            let mut idx = k;
            if idx >= self.pal_idx {
                idx = idx + 1;
            }
            self.pal_idx = idx;
        }
    }

    /// Shows a clock-chosen palette other than the shown one (when there is
    /// more than one).
    pub fn random_palette(&mut self)
        requires
            old(self).wf(),
        ensures
            final(self).wf(),
            consistent(*final(self)),
            old(self).palettes_spec().len() > 1 ==> exists|k: int|
                0 <= k < old(self).palettes_spec().len() - 1 && showing_palette(
                    *old(self),
                    *final(self),
                    #[trigger] palette_skipping(old(self).pal_idx_spec(), k),
                ),
            old(self).palettes_spec().len() > 1 ==> final(self).pal_idx_spec()
                != old(self).pal_idx_spec(),
            old(self).palettes_spec().len() <= 1 ==> showing_palette(
                *old(self),
                *final(self),
                old(self).pal_idx_spec(),
            ),
            old(self).palettes_spec().len() > 1 ==> read_next(*old(self), *final(self)),
            old(self).palettes_spec().len() > 1 ==> showing_palette(
                *old(self),
                *final(self),
                palette_skipping(
                    old(self).pal_idx_spec(),
                    seed_index(
                        final(self).clock_seed_spec(),
                        (old(self).palettes_spec().len() - 1) as usize,
                    ),
                ),
            ),
            old(self).palettes_spec().len() <= 1 ==> same_reading(*old(self), *final(self)),
    {
        let len = self.palettes.len();
        if len > 1 {
            let reading = read_clock(Ghost(self.reading.reading() + 1));
            let k = index_from_seed(reading.get(), len - 1);
            self.random_palette_with(k);
            self.reading = reading;
        }
    }

    /// Pauses or resumes palette scrolling.
    pub fn toggle_pause(&mut self)
        ensures
            final(self).paused_spec() == !old(self).paused_spec(),
            final(self).width_spec() == old(self).width_spec(),
            final(self).height_spec() == old(self).height_spec(),
            final(self).palettes_spec() == old(self).palettes_spec(),
            final(self).pal_idx_spec() == old(self).pal_idx_spec(),
            final(self).state_spec() == old(self).state_spec(),
            final(self).patterns_spec() == old(self).patterns_spec(),
            final(self).pattern_idx_spec() == old(self).pattern_idx_spec(),
            same_reading(*old(self), *final(self)),
    {
        self.paused = !self.paused;
    }

    /// Handles one key press (see `key_step`), with `seed` for a pattern
    /// that the key makes and `pick` for a random palette.
    pub fn handle_key_seeded(
        &mut self,
        key: Key,
        shift: bool,
        repeat: bool,
        seed: u64,
        pick: usize,
    ) -> (action: Action)
        requires
            old(self).wf(),
            old(self).palettes_spec().len() > 1 ==> pick < old(self).palettes_spec().len() - 1,
        ensures
            final(self).wf(),
            consistent(*final(self)),
            key_step(*old(self), *final(self), key, shift, repeat, seed, pick, action),
            same_reading(*old(self), *final(self)),
    {
        proof {
            lemma_wf_consistent(*self);
        }
        if key == Key::Q || key == Key::Escape {
            return Action::Quit;
        }
        if repeat {
            return Action::Nothing;
        }
        match key {
            Key::Space => {
                if shift {
                    Action::PatternBack(self.prev_pattern())
                } else {
                    Action::PatternForward(self.next_pattern_seeded(seed))
                }
            },
            Key::N => {
                self.new_pattern_seeded(seed);
                Action::PatternNew
            },
            Key::P => {
                self.toggle_pause();
                Action::PauseToggled
            },
            Key::R => {
                self.random_palette_with(pick);
                Action::PaletteRandom
            },
            Key::LeftBracket => {
                self.prev_palette();
                Action::PaletteStep
            },
            Key::RightBracket => {
                self.next_palette();
                Action::PaletteStep
            },
            Key::F => Action::ToggleFullscreen,
            _ => Action::Nothing,
        }
    }

    /// Handles one key press (see `key_step`); a pattern that the key makes
    /// is seeded from the clock, and a random palette is picked from it.
    pub fn handle_key(&mut self, key: Key, shift: bool, repeat: bool) -> (action: Action)
        requires
            old(self).wf(),
        ensures
            final(self).wf(),
            consistent(*final(self)),
            exists|seed: u64, pick: usize|
                (old(self).palettes_spec().len() > 1 ==> pick < old(self).palettes_spec().len()
                    - 1) && #[trigger] key_step(
                    *old(self),
                    *final(self),
                    key,
                    shift,
                    repeat,
                    seed,
                    pick,
                    action,
                ),
            key_reads_clock(*old(self), key, shift, repeat) ==> read_next(*old(self), *final(self)),
            !key_reads_clock(*old(self), key, shift, repeat) ==> same_reading(
                *old(self),
                *final(self),
            ),
            key_step(
                *old(self),
                *final(self),
                key,
                shift,
                repeat,
                final(self).clock_seed_spec(),
                seed_index(
                    final(self).clock_seed_spec(),
                    (old(self).palettes_spec().len() - 1) as usize,
                ) as usize,
                action,
            ),
    {
        let len = self.palettes.len();
        let makes = !repeat && (key == Key::N || (key == Key::Space && !shift
            && self.pattern_idx + 1 >= self.patterns.len()));
        let picks = !repeat && key == Key::R && len > 1;
        if makes || picks {
            let reading = read_clock(Ghost(self.reading.reading() + 1));
            let seed = reading.get();
            let pick = index_from_seed(seed, len - 1);
            let action = self.handle_key_seeded(key, shift, repeat, seed, pick);
            self.reading = reading;
            assert(key_step(*old(self), *self, key, shift, repeat, seed, pick, action));
            action
        } else {
            let seed = self.reading.get();
            let pick = index_from_seed(seed, len - 1);
            let action = self.handle_key_seeded(key, shift, repeat, seed, pick);
            assert(key_step(*old(self), *self, key, shift, repeat, seed, pick, action));
            action
        }
    }

    /// Width of the render target.
    pub fn width(&self) -> (w: usize)
        ensures
            w == self.width_spec(),
    {
        self.w
    }

    /// Height of the render target.
    pub fn height(&self) -> (h: usize)
        ensures
            h == self.height_spec(),
    {
        self.h
    }

    /// The palette ring.
    pub fn palettes(&self) -> (p: &Vec<Palette>)
        ensures
            p@ == self.palettes_spec(),
    {
        &self.palettes
    }

    /// Index of the shown palette.
    pub fn pal_idx(&self) -> (i: usize)
        ensures
            i == self.pal_idx_spec(),
    {
        self.pal_idx
    }

    /// The shown pattern.
    pub fn state(&self) -> (s: State)
        ensures
            s == self.state_spec(),
    {
        self.state
    }

    /// The generated patterns, oldest first.
    pub fn patterns(&self) -> (p: &Vec<State>)
        ensures
            p@ == self.patterns_spec(),
    {
        &self.patterns
    }

    /// Index of the shown pattern in the history.
    pub fn pattern_idx(&self) -> (i: usize)
        ensures
            i == self.pattern_idx_spec(),
    {
        self.pattern_idx
    }

    /// Whether palette scrolling is paused.
    pub fn paused(&self) -> (b: bool)
        ensures
            b == self.paused_spec(),
    {
        self.paused
    }
}

/// A viewer that keeps its invariant is consistent (see `consistent`).
pub proof fn lemma_wf_consistent(a: App)
    requires
        a.wf(),
    ensures
        consistent(a),
{
}

/// A resize reports a change exactly when the new size differs from the
/// old one in width or in height, whichever side it is; the new sides are the
/// requested ones, with 0 taken as 1.
pub proof fn lemma_resize_reports_change(
    a: App,
    b: App,
    w: usize,
    h: usize,
    changed: bool,
)
    requires
        resized(a, b, w, h, changed),
    ensures
        b.width_spec() == (if w == 0 { 1 } else { w }),
        b.height_spec() == (if h == 0 { 1 } else { h }),
        changed <==> (b.width_spec() != a.width_spec() || b.height_spec() != a.height_spec()),
        b.width_spec() == a.width_spec() && b.height_spec() != a.height_spec() ==> changed,
        b.width_spec() != a.width_spec() && b.height_spec() == a.height_spec() ==> changed,
{
}

/// Stepping back and then forward returns to the pattern that was shown,
/// with the same history.
pub proof fn lemma_back_then_forward(a: App, b: App, c: App, moved: bool, seed: u64)
    requires
        a.wf(),
        b.wf(),
        c.wf(),
        stepped_back(a, b, true),
        stepped_forward(b, c, moved, seed),
    ensures
        moved,
        c.state_spec() == a.state_spec(),
        c.patterns_spec() == a.patterns_spec(),
        c.pattern_idx_spec() == a.pattern_idx_spec(),
        same_view(a, c),
{
}

/// Stepping forward within the history and then back returns to the
/// pattern that was shown, with the same history.
pub proof fn lemma_forward_then_back(a: App, b: App, c: App, moved: bool, seed: u64)
    requires
        a.wf(),
        b.wf(),
        c.wf(),
        stepped_forward(a, b, true, seed),
        stepped_back(b, c, moved),
    ensures
        moved,
        c.state_spec() == a.state_spec(),
        c.patterns_spec() == a.patterns_spec(),
        c.pattern_idx_spec() == a.pattern_idx_spec(),
        same_view(a, c),
{
}

/// Making a pattern while an older one is shown drops the newer ones: the
/// history then ends with the shown pattern and the new one.
pub proof fn lemma_new_pattern_drops_forward(a: App, b: App, seed: u64)
    requires
        a.wf(),
        made_pattern(a, b, seed),
    ensures
        b.patterns_spec().len() == a.pattern_idx_spec() + 2,
        b.patterns_spec().take(a.pattern_idx_spec() + 1) == a.patterns_spec().take(
            a.pattern_idx_spec() + 1,
        ),
        b.patterns_spec()[a.pattern_idx_spec()] == a.state_spec(),
        b.state_spec() == built_state(seed | 1u64),
        b.pattern_idx_spec() == a.pattern_idx_spec() + 1,
{
    assert(b.patterns_spec().take(a.pattern_idx_spec() + 1) =~= a.patterns_spec().take(
        a.pattern_idx_spec() + 1,
    ));
}

/// Stepping the palette ring forward and back (or back and forward)
/// returns to the same palette, and both steps stay on the ring.
pub proof fn lemma_palette_steps_undo(i: int, n: int)
    requires
        0 <= i < n,
    ensures
        0 <= palette_after(i, n) < n,
        0 <= palette_before(i, n) < n,
        palette_before(palette_after(i, n), n) == i,
        palette_after(palette_before(i, n), n) == i,
{
    if i + 1 < n {
        assert(palette_after(i, n) == i + 1) by (nonlinear_arith)
            requires
                0 <= i,
                i + 1 < n,
        ;
    } else {
        assert(palette_after(i, n) == 0) by (nonlinear_arith)
            requires
                i + 1 == n,
                n > 0,
        ;
    }
    if i > 0 {
        assert(palette_before(i, n) == i - 1) by (nonlinear_arith)
            requires
                0 < i < n,
        ;
    } else {
        assert(palette_before(i, n) == n - 1) by (nonlinear_arith)
            requires
                i == 0,
                0 < n,
        ;
    }
    let j = palette_after(i, n);
    if j > 0 {
        assert(palette_before(j, n) == j - 1) by (nonlinear_arith)
            requires
                0 < j < n,
        ;
    } else {
        assert(palette_before(j, n) == n - 1) by (nonlinear_arith)
            requires
                j == 0,
                0 < n,
        ;
    }
    let k = palette_before(i, n);
    if k + 1 < n {
        assert(palette_after(k, n) == k + 1) by (nonlinear_arith)
            requires
                0 <= k,
                k + 1 < n,
        ;
    } else {
        assert(palette_after(k, n) == 0) by (nonlinear_arith)
            requires
                k + 1 == n,
                n > 0,
        ;
    }
}

/// Some pick in `0..n - 1` lands on palette `j` while `cur` is shown.
pub open spec fn pick_reaches(cur: int, n: int, j: int) -> bool {
    exists|k: int| 0 <= k < n - 1 && #[trigger] palette_skipping(cur, k) == j
}

/// A random palette pick in `0..n - 1` always lands on another palette of
/// the ring, and every other palette is the landing place of some pick.
pub proof fn lemma_random_palette_picks(cur: int, n: int)
    requires
        0 <= cur < n,
        n > 1,
    ensures
        forall|k: int|
            0 <= k < n - 1 ==> 0 <= #[trigger] palette_skipping(cur, k) < n && palette_skipping(
                cur,
                k,
            ) != cur,
        forall|j: int| 0 <= j < n && j != cur ==> #[trigger] pick_reaches(cur, n, j),
{
    assert forall|j: int| 0 <= j < n && j != cur implies #[trigger] pick_reaches(cur, n, j) by {
        if j < cur {
            assert(palette_skipping(cur, j) == j);
        } else {
            assert(palette_skipping(cur, j - 1) == j);
        }
    }
}

/// Asking twice for the same size changes nothing the second time.
pub proof fn lemma_resize_idempotent(
    a: App,
    b: App,
    c: App,
    w: usize,
    h: usize,
    first: bool,
    second: bool,
)
    requires
        resized(a, b, w, h, first),
        resized(b, c, w, h, second),
    ensures
        !second,
        c.width_spec() == b.width_spec(),
        c.height_spec() == b.height_spec(),
{
}

} // verus!
