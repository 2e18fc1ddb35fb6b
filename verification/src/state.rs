use vstd::prelude::*;

use crate::rng::{advance, high_word, output, xorshift, Rng};

verus! {

/// The `k`-th draw of a generator started in state `s0`, reduced modulo `n`.
#[verifier::opaque]
pub open spec fn pick(s0: u64, k: nat, n: u32) -> u32 {
    output(s0, k) % n
}

/// The `k`-th draw of a generator started in state `s0`, read as a coin
/// (its lowest bit).
#[verifier::opaque]
pub open spec fn coin(s0: u64, k: nat) -> bool {
    output(s0, k) & 1u32 != 0u32
}

/// The next word of a generator known to be `k` steps past `s0`.
fn next_word(rng: &mut Rng, Ghost(s0): Ghost<u64>, Ghost(k): Ghost<nat>) -> (w: u32)
    requires
        old(rng).0 == advance(s0, k),
    ensures
        final(rng).0 == advance(s0, k + 1),
        w == output(s0, k),
{
    proof {
        crate::rng::lemma_advance_step(s0, k);
    }
    rng.next_u32()
}

/// The next draw, modulo `n`, of a generator known to be `k` steps past `s0`.
fn next_pick(rng: &mut Rng, Ghost(s0): Ghost<u64>, Ghost(k): Ghost<nat>, n: u32) -> (r: u32)
    requires
        old(rng).0 == advance(s0, k),
        n > 0,
    ensures
        final(rng).0 == advance(s0, k + 1),
        r == pick(s0, k, n),
        r < n,
{
    reveal(pick);
    proof {
        crate::rng::lemma_advance_step(s0, k);
    }
    rng.range(n)
}

/// The next coin of a generator known to be `k` steps past `s0`.
fn next_coin(rng: &mut Rng, Ghost(s0): Ghost<u64>, Ghost(k): Ghost<nat>) -> (b: bool)
    requires
        old(rng).0 == advance(s0, k),
    ensures
        final(rng).0 == advance(s0, k + 1),
        b == coin(s0, k),
{
    reveal(coin);
    proof {
        crate::rng::lemma_advance_step(s0, k);
    }
    rng.next_u32() & 1u32 != 0
}

/// Complexity bounds, style, coordinate flags and harmonic draws of a
/// pattern (its first seventeen draws).
#[derive(Clone, Copy, Debug)]
pub struct Shape {
    /// Lower complexity bound, in `2..5`.
    pub minc: u32,
    /// Upper complexity bound, in `8..13`.
    pub maxc: u32,
    pub ribbons: bool,
    pub rhombuses: bool,
    pub mesh: bool,
    pub flip_u: bool,
    pub flip_v: bool,
    pub invert_first: bool,
    pub phase_perturb: bool,
    pub blend_uv: bool,
    pub stripe_radius_blend: bool,
    /// Draws in `0..32768` behind the four signed harmonic amplitudes.
    pub h_amp: (u32, u32, u32, u32),
    /// Draws in `0..32768` behind the four signed harmonic phases.
    pub h_phase: (u32, u32, u32, u32),
}

/// The shape drawn by a generator started in state `s0`.
pub open spec fn shape_of(s0: u64) -> Shape {
    let style = pick(s0, 2, 4);
    Shape {
        minc: (2 + pick(s0, 0, 3)) as u32,
        maxc: (8 + pick(s0, 1, 5)) as u32,
        ribbons: style == 1,
        rhombuses: style == 2,
        mesh: style == 3,
        flip_u: coin(s0, 3),
        flip_v: coin(s0, 4),
        invert_first: coin(s0, 5),
        phase_perturb: coin(s0, 6),
        blend_uv: pick(s0, 7, 7) == 0,
        stripe_radius_blend: pick(s0, 8, 3) == 0,
        h_amp: (pick(s0, 9, 32768), pick(s0, 11, 32768), pick(s0, 13, 32768), pick(s0, 15, 32768)),
        h_phase: (
            pick(s0, 10, 32768),
            pick(s0, 12, 32768),
            pick(s0, 14, 32768),
            pick(s0, 16, 32768),
        ),
    }
}

/// Twice the complexity span of a shape: the bound of the draws that
/// depend on the span.
pub open spec fn span2_of(sh: Shape) -> u32 {
    (2 * (sh.maxc - sh.minc)) as u32
}

/// Draws the shape from a generator in state `s0`.
fn draw_shape(rng: &mut Rng, Ghost(s0): Ghost<u64>) -> (sh: Shape)
    requires
        old(rng).0 == advance(s0, 0),
    ensures
        final(rng).0 == advance(s0, 17),
        sh == shape_of(s0),
        2 <= sh.minc < 5,
        8 <= sh.maxc < 13,
{
    let minc = 2 + next_pick(rng, Ghost(s0), Ghost(0), 3);
    let maxc = 8 + next_pick(rng, Ghost(s0), Ghost(1), 5);
    let style = next_pick(rng, Ghost(s0), Ghost(2), 4);
    let flip_u = next_coin(rng, Ghost(s0), Ghost(3));
    let flip_v = next_coin(rng, Ghost(s0), Ghost(4));
    let invert_first = next_coin(rng, Ghost(s0), Ghost(5));
    let phase_perturb = next_coin(rng, Ghost(s0), Ghost(6));
    let blend_uv = next_pick(rng, Ghost(s0), Ghost(7), 7) == 0;
    let stripe_radius_blend = next_pick(rng, Ghost(s0), Ghost(8), 3) == 0;
    let a0 = next_pick(rng, Ghost(s0), Ghost(9), 32768);
    let p0 = next_pick(rng, Ghost(s0), Ghost(10), 32768);
    let a1 = next_pick(rng, Ghost(s0), Ghost(11), 32768);
    let p1 = next_pick(rng, Ghost(s0), Ghost(12), 32768);
    let a2 = next_pick(rng, Ghost(s0), Ghost(13), 32768);
    let p2 = next_pick(rng, Ghost(s0), Ghost(14), 32768);
    let a3 = next_pick(rng, Ghost(s0), Ghost(15), 32768);
    let p3 = next_pick(rng, Ghost(s0), Ghost(16), 32768);
    Shape {
        minc,
        maxc,
        ribbons: style == 1,
        rhombuses: style == 2,
        mesh: style == 3,
        flip_u,
        flip_v,
        invert_first,
        phase_perturb,
        blend_uv,
        stripe_radius_blend,
        h_amp: (a0, a1, a2, a3),
        h_phase: (p0, p1, p2, p3),
    }
}

/// Draws behind the profile curve coefficients.
#[derive(Clone, Copy, Debug)]
pub struct ProfileDraws {
    /// Percent draw behind the profile contrast.
    pub f3eac: u32,
    /// Percent draw behind the harmonic frequency multiplier.
    pub f3ea4: u32,
    /// Draw in `0..32768` behind the signed value whose sign turns the
    /// harmonic phases on.
    pub f3ea8: u32,
    /// Whether the harmonic falloff exponent is the steep one.
    pub f3eb0: bool,
    /// Full 32-bit word behind the profile amplitude scale.
    pub f3eb4: u32,
    /// Band coin and percent draw of the ribbon threshold.
    pub f3fb4: (bool, u32),
    /// Percent draw behind the ribbon stripe frequency.
    pub f3fb8: u32,
}

/// The `ProfileDraws` drawn by a generator started in state `s0`.
pub open spec fn profile_draws_of(s0: u64) -> ProfileDraws {
    ProfileDraws {
        f3eac: pick(s0, 17, 100),
        f3ea4: pick(s0, 18, 100),
        f3ea8: pick(s0, 19, 32768),
        f3eb0: coin(s0, 20),
        f3eb4: output(s0, 21),
        f3fb4: (coin(s0, 22), pick(s0, 23, 100)),
        f3fb8: pick(s0, 24, 100),
    }
}

/// Draws the profile draws from a generator known to be 17 steps past `s0`.
fn draw_profile(rng: &mut Rng, Ghost(s0): Ghost<u64>) -> (r: ProfileDraws)
    requires
        old(rng).0 == advance(s0, 17),
    ensures
        final(rng).0 == advance(s0, 25),
        r == profile_draws_of(s0),
{
    let f3eac = next_pick(rng, Ghost(s0), Ghost(17), 100);
    let f3ea4 = next_pick(rng, Ghost(s0), Ghost(18), 100);
    let f3ea8 = next_pick(rng, Ghost(s0), Ghost(19), 32768);
    let f3eb0 = next_coin(rng, Ghost(s0), Ghost(20));
    let f3eb4 = next_word(rng, Ghost(s0), Ghost(21));
    let f3fb4_0 = next_coin(rng, Ghost(s0), Ghost(22));
    let f3fb4_1 = next_pick(rng, Ghost(s0), Ghost(23), 100);
    let f3fb4 = (f3fb4_0, f3fb4_1);
    let f3fb8 = next_pick(rng, Ghost(s0), Ghost(24), 100);
    ProfileDraws {
        f3eac,
        f3ea4,
        f3ea8,
        f3eb0,
        f3eb4,
        f3fb4,
        f3fb8,
    }
}

/// Percent draws (each in `0..100`) behind the late blend coefficient, the
/// warp supports and the first coefficients of the second and third switch
/// banks.
#[derive(Clone, Copy, Debug)]
pub struct BlendBank {
    pub f3ecc: u32,
    pub f3ed0: u32,
    pub f3ed4: u32,
    pub f3ed8: u32,
    pub f3f0c: u32,
    pub f3edc: u32,
    pub f3f10: u32,
    pub f3ee0: u32,
    pub f3f14: u32,
}

/// The `BlendBank` drawn by a generator started in state `s0`.
pub open spec fn blend_bank_of(s0: u64) -> BlendBank {
    BlendBank {
        f3ecc: pick(s0, 25, 100),
        f3ed0: pick(s0, 26, 100),
        f3ed4: pick(s0, 27, 100),
        f3ed8: pick(s0, 28, 100),
        f3f0c: pick(s0, 29, 100),
        f3edc: pick(s0, 30, 100),
        f3f10: pick(s0, 31, 100),
        f3ee0: pick(s0, 32, 100),
        f3f14: pick(s0, 33, 100),
    }
}

/// Draws the blend bank from a generator known to be 25 steps past `s0`.
fn draw_blend_bank(rng: &mut Rng, Ghost(s0): Ghost<u64>) -> (r: BlendBank)
    requires
        old(rng).0 == advance(s0, 25),
    ensures
        final(rng).0 == advance(s0, 34),
        r == blend_bank_of(s0),
{
    let f3ecc = next_pick(rng, Ghost(s0), Ghost(25), 100);
    let f3ed0 = next_pick(rng, Ghost(s0), Ghost(26), 100);
    let f3ed4 = next_pick(rng, Ghost(s0), Ghost(27), 100);
    let f3ed8 = next_pick(rng, Ghost(s0), Ghost(28), 100);
    let f3f0c = next_pick(rng, Ghost(s0), Ghost(29), 100);
    let f3edc = next_pick(rng, Ghost(s0), Ghost(30), 100);
    let f3f10 = next_pick(rng, Ghost(s0), Ghost(31), 100);
    let f3ee0 = next_pick(rng, Ghost(s0), Ghost(32), 100);
    let f3f14 = next_pick(rng, Ghost(s0), Ghost(33), 100);
    BlendBank {
        f3ecc,
        f3ed0,
        f3ed4,
        f3ed8,
        f3f0c,
        f3edc,
        f3f10,
        f3ee0,
        f3f14,
    }
}

/// Draws behind the wave coefficients of the second and third switch banks;
/// unmarked fields are percent draws in `0..100`.
#[derive(Clone, Copy, Debug)]
pub struct WaveBank {
    /// Narrow-or-wide coin and percent draw.
    pub f3ee4: (bool, u32),
    pub f3f18: (bool, u32),
    pub f3ee8: (bool, u32),
    pub f3f1c: (bool, u32),
    /// Percent draws behind the mid-range coefficients of the second and
    /// third switch banks.
    pub f3eec: u32,
    pub f3f20: u32,
    pub f3ef0: u32,
    pub f3f24: u32,
    pub f3ef4: u32,
    pub f3f28: u32,
    /// Draw in `0..2 * span`.
    pub f3ef8: u32,
    pub f3f2c: u32,
    /// Draw in `0..20`.
    pub f3efc: u32,
    pub f3f30: u32,
    pub f3f00: u32,
    pub f3f34: u32,
    pub f3f04: u32,
    pub f3f38: u32,
    pub f3f08: u32,
    pub f3f3c: u32,
}

/// The `WaveBank` drawn by a generator started in state `s0`.
pub open spec fn wave_bank_of(s0: u64, span2: u32) -> WaveBank {
    WaveBank {
        f3ee4: (coin(s0, 34), pick(s0, 35, 100)),
        f3f18: (coin(s0, 36), pick(s0, 37, 100)),
        f3ee8: (coin(s0, 38), pick(s0, 39, 100)),
        f3f1c: (coin(s0, 40), pick(s0, 41, 100)),
        f3eec: pick(s0, 42, 100),
        f3f20: pick(s0, 43, 100),
        f3ef0: pick(s0, 44, 100),
        f3f24: pick(s0, 45, 100),
        f3ef4: pick(s0, 46, 100),
        f3f28: pick(s0, 47, 100),
        f3ef8: pick(s0, 48, span2),
        f3f2c: pick(s0, 49, span2),
        f3efc: pick(s0, 50, 20),
        f3f30: pick(s0, 51, 20),
        f3f00: pick(s0, 52, 100),
        f3f34: pick(s0, 53, 100),
        f3f04: pick(s0, 54, 100),
        f3f38: pick(s0, 55, 100),
        f3f08: pick(s0, 56, 100),
        f3f3c: pick(s0, 57, 100),
    }
}

/// Draws the wave bank from a generator known to be 34 steps past `s0`.
fn draw_wave_bank(rng: &mut Rng, Ghost(s0): Ghost<u64>, span2: u32) -> (r: WaveBank)
    requires
        old(rng).0 == advance(s0, 34),
        span2 > 0,
    ensures
        final(rng).0 == advance(s0, 58),
        r == wave_bank_of(s0, span2),
{
    let f3ee4_0 = next_coin(rng, Ghost(s0), Ghost(34));
    let f3ee4_1 = next_pick(rng, Ghost(s0), Ghost(35), 100);
    let f3ee4 = (f3ee4_0, f3ee4_1);
    let f3f18_0 = next_coin(rng, Ghost(s0), Ghost(36));
    let f3f18_1 = next_pick(rng, Ghost(s0), Ghost(37), 100);
    let f3f18 = (f3f18_0, f3f18_1);
    let f3ee8_0 = next_coin(rng, Ghost(s0), Ghost(38));
    let f3ee8_1 = next_pick(rng, Ghost(s0), Ghost(39), 100);
    let f3ee8 = (f3ee8_0, f3ee8_1);
    let f3f1c_0 = next_coin(rng, Ghost(s0), Ghost(40));
    let f3f1c_1 = next_pick(rng, Ghost(s0), Ghost(41), 100);
    let f3f1c = (f3f1c_0, f3f1c_1);
    let f3eec = next_pick(rng, Ghost(s0), Ghost(42), 100);
    let f3f20 = next_pick(rng, Ghost(s0), Ghost(43), 100);
    let f3ef0 = next_pick(rng, Ghost(s0), Ghost(44), 100);
    let f3f24 = next_pick(rng, Ghost(s0), Ghost(45), 100);
    let f3ef4 = next_pick(rng, Ghost(s0), Ghost(46), 100);
    let f3f28 = next_pick(rng, Ghost(s0), Ghost(47), 100);
    let f3ef8 = next_pick(rng, Ghost(s0), Ghost(48), span2);
    let f3f2c = next_pick(rng, Ghost(s0), Ghost(49), span2);
    let f3efc = next_pick(rng, Ghost(s0), Ghost(50), 20);
    let f3f30 = next_pick(rng, Ghost(s0), Ghost(51), 20);
    let f3f00 = next_pick(rng, Ghost(s0), Ghost(52), 100);
    let f3f34 = next_pick(rng, Ghost(s0), Ghost(53), 100);
    let f3f04 = next_pick(rng, Ghost(s0), Ghost(54), 100);
    let f3f38 = next_pick(rng, Ghost(s0), Ghost(55), 100);
    let f3f08 = next_pick(rng, Ghost(s0), Ghost(56), 100);
    let f3f3c = next_pick(rng, Ghost(s0), Ghost(57), 100);
    WaveBank {
        f3ee4,
        f3f18,
        f3ee8,
        f3f1c,
        f3eec,
        f3f20,
        f3ef0,
        f3f24,
        f3ef4,
        f3f28,
        f3ef8,
        f3f2c,
        f3efc,
        f3f30,
        f3f00,
        f3f34,
        f3f04,
        f3f38,
        f3f08,
        f3f3c,
    }
}

/// Draws behind the first-switch coefficients; unmarked fields are percent
/// draws in `0..100`.
#[derive(Clone, Copy, Debug)]
pub struct FirstBank {
    /// Sign coin and percent draw.
    pub f3f40: (bool, u32),
    pub f3f44: (bool, u32),
    pub f3f48: u32,
    pub f3f4c: u32,
    pub f3f50: u32,
    pub f3f54: u32,
    pub f3f58: u32,
    /// Index into the four angle factors.
    pub f3f5c: u32,
}

/// The `FirstBank` drawn by a generator started in state `s0`.
pub open spec fn first_bank_of(s0: u64) -> FirstBank {
    FirstBank {
        f3f40: (coin(s0, 58), pick(s0, 59, 100)),
        f3f44: (coin(s0, 60), pick(s0, 61, 100)),
        f3f48: pick(s0, 62, 100),
        f3f4c: pick(s0, 63, 100),
        f3f50: pick(s0, 64, 100),
        f3f54: pick(s0, 65, 100),
        f3f58: pick(s0, 66, 100),
        f3f5c: pick(s0, 67, 4),
    }
}

/// Draws the first-switch bank from a generator known to be 58 steps past `s0`.
fn draw_first_bank(rng: &mut Rng, Ghost(s0): Ghost<u64>) -> (r: FirstBank)
    requires
        old(rng).0 == advance(s0, 58),
    ensures
        final(rng).0 == advance(s0, 68),
        r == first_bank_of(s0),
{
    let f3f40_0 = next_coin(rng, Ghost(s0), Ghost(58));
    let f3f40_1 = next_pick(rng, Ghost(s0), Ghost(59), 100);
    let f3f40 = (f3f40_0, f3f40_1);
    let f3f44_0 = next_coin(rng, Ghost(s0), Ghost(60));
    let f3f44_1 = next_pick(rng, Ghost(s0), Ghost(61), 100);
    let f3f44 = (f3f44_0, f3f44_1);
    let f3f48 = next_pick(rng, Ghost(s0), Ghost(62), 100);
    let f3f4c = next_pick(rng, Ghost(s0), Ghost(63), 100);
    let f3f50 = next_pick(rng, Ghost(s0), Ghost(64), 100);
    let f3f54 = next_pick(rng, Ghost(s0), Ghost(65), 100);
    let f3f58 = next_pick(rng, Ghost(s0), Ghost(66), 100);
    let f3f5c = next_pick(rng, Ghost(s0), Ghost(67), 4);
    FirstBank {
        f3f40,
        f3f44,
        f3f48,
        f3f4c,
        f3f50,
        f3f54,
        f3f58,
        f3f5c,
    }
}
/// Position of the draw behind `f3f64`: after the stripe coin, and after the
/// stripe draw when the coin did not rule stripes out.
pub open spec fn after_stripe_pos(s0: u64) -> nat {
    if coin(s0, 68) {
        69
    } else {
        70
    }
}

/// Position of the draw behind `f3f6c`: after the `f3f68` coin, and after
/// its percent draw when the coin did not fix the value.
pub open spec fn tail_pos(s0: u64) -> nat {
    let g = after_stripe_pos(s0) + 1;
    if coin(s0, g) {
        g + 1
    } else {
        g + 2
    }
}

/// Number of generator steps that building a pattern takes.
pub open spec fn build_len(s0: u64) -> nat {
    tail_pos(s0) + 9
}

/// Stripe, perturbation and support draws, then the warp, switch and late
/// selectors and the quadratic preset (the last draws of a pattern).
#[derive(Clone, Copy, Debug)]
pub struct Tail {
    /// No angular stripes, or a stripe draw in `0..2 * span`.
    pub f3f60: Option<u32>,
    pub f3f64: u32,
    /// The fixed value, or a percent draw.
    pub f3f68: Option<u32>,
    pub f3f6c: u32,
    pub f3f70: u32,
    pub f3f74: u32,
    pub coord_mode: i32,
    pub sw1: i32,
    pub sw2: i32,
    pub sw3: i32,
    pub late_sel: i32,
    /// Which of the six quadratic warp presets is used.
    pub quad_preset: u32,
}

/// The tail drawn by a generator started in state `s0`.
pub open spec fn tail_of(s0: u64, span2: u32) -> Tail {
    let a = after_stripe_pos(s0);
    let t = tail_pos(s0);
    Tail {
        f3f60: if coin(s0, 68) {
            None
        } else {
            Some(pick(s0, 69, span2))
        },
        f3f64: pick(s0, a, 100),
        f3f68: if coin(s0, a + 1) {
            None
        } else {
            Some(pick(s0, a + 2, 100))
        },
        f3f6c: pick(s0, t, 100),
        f3f70: pick(s0, t + 1, 100),
        f3f74: pick(s0, t + 2, 100),
        coord_mode: pick(s0, t + 3, 4) as i32,
        sw1: pick(s0, t + 4, 9) as i32,
        sw2: pick(s0, t + 5, 10) as i32,
        sw3: pick(s0, t + 6, 10) as i32,
        late_sel: pick(s0, t + 7, 6) as i32,
        quad_preset: pick(s0, t + 8, 6),
    }
}

/// Draws the tail from a generator known to be 68 steps past `s0`.
fn draw_tail(rng: &mut Rng, Ghost(s0): Ghost<u64>, span2: u32) -> (r: Tail)
    requires
        old(rng).0 == advance(s0, 68),
        span2 > 0,
    ensures
        final(rng).0 == advance(s0, build_len(s0)),
        r == tail_of(s0, span2),
{
    let f3f60 = if next_coin(rng, Ghost(s0), Ghost(68)) {
        None
    } else {
        Some(next_pick(rng, Ghost(s0), Ghost(69), span2))
    };
    let ghost a = after_stripe_pos(s0);
    let f3f64 = next_pick(rng, Ghost(s0), Ghost(a), 100);
    let f3f68 = if next_coin(rng, Ghost(s0), Ghost(a + 1)) {
        None
    } else {
        Some(next_pick(rng, Ghost(s0), Ghost(a + 2), 100))
    };
    let ghost t = tail_pos(s0);
    let f3f6c = next_pick(rng, Ghost(s0), Ghost(t), 100);
    let f3f70 = next_pick(rng, Ghost(s0), Ghost(t + 1), 100);
    let f3f74 = next_pick(rng, Ghost(s0), Ghost(t + 2), 100);
    let coord_mode = next_pick(rng, Ghost(s0), Ghost(t + 3), 4);
    let sw1 = next_pick(rng, Ghost(s0), Ghost(t + 4), 9);
    let sw2 = next_pick(rng, Ghost(s0), Ghost(t + 5), 10);
    let sw3 = next_pick(rng, Ghost(s0), Ghost(t + 6), 10);
    let late_sel = next_pick(rng, Ghost(s0), Ghost(t + 7), 6);
    let quad_preset = next_pick(rng, Ghost(s0), Ghost(t + 8), 6);
    Tail {
        f3f60,
        f3f64,
        f3f68,
        f3f6c,
        f3f70,
        f3f74,
        coord_mode: coord_mode as i32,
        sw1: sw1 as i32,
        sw2: sw2 as i32,
        sw3: sw3 as i32,
        late_sel: late_sel as i32,
        quad_preset,
    }
}

/// The discrete part of a pattern: its generator, and the draws that decide
/// its style, its switches and every real coefficient (a field named after a
/// coefficient holds the draw that determines it). The real coefficients and
/// the profile curve are computed from these draws outside this crate.
#[derive(Clone, Copy, Debug)]
pub struct State {
    pub rng: Rng,
    pub shape: Shape,
    pub profile: ProfileDraws,
    pub blend: BlendBank,
    pub wave: WaveBank,
    pub first: FirstBank,
    pub tail: Tail,
}

/// The pattern that building from generator state `s0` gives: draw by draw,
/// in the order the builder takes them.
pub open spec fn built_state(s0: u64) -> State {
    let sh = shape_of(s0);
    State {
        rng: Rng(advance(s0, build_len(s0))),
        shape: sh,
        profile: profile_draws_of(s0),
        blend: blend_bank_of(s0),
        wave: wave_bank_of(s0, span2_of(sh)),
        first: first_bank_of(s0),
        tail: tail_of(s0, span2_of(sh)),
    }
}

/// A pattern state with all other fields unchanged but the generator.
pub open spec fn with_rng(s: State, rng: Rng) -> State {
    State { rng, ..s }
}

/// The name of a pattern's style family.
pub open spec fn style_name_of(s: State) -> Seq<char> {
    if s.shape.ribbons {
        "Ribbons"@
    } else if s.shape.rhombuses {
        "Rhombuses"@
    } else if s.shape.mesh {
        "Mesh"@
    } else {
        "Embossing"@
    }
}

/// The not yet built pattern of a generator seeded with `seed`: the
/// Embossing style, every flag off, and every selector and draw zero (so the
/// complexity bounds are their least values, 2 and 8).
pub open spec fn fresh_state(seed: u64) -> State {
    State {
        rng: Rng(seed | 1u64),
        shape: Shape {
            minc: 2,
            maxc: 8,
            ribbons: false,
            rhombuses: false,
            mesh: false,
            flip_u: false,
            flip_v: false,
            invert_first: false,
            phase_perturb: false,
            blend_uv: false,
            stripe_radius_blend: false,
            h_amp: (0, 0, 0, 0),
            h_phase: (0, 0, 0, 0),
        },
        profile: ProfileDraws {
            f3eac: 0,
            f3ea4: 0,
            f3ea8: 0,
            f3eb0: false,
            f3eb4: 0,
            f3fb4: (false, 0),
            f3fb8: 0,
        },
        blend: BlendBank {
            f3ecc: 0,
            f3ed0: 0,
            f3ed4: 0,
            f3ed8: 0,
            f3f0c: 0,
            f3edc: 0,
            f3f10: 0,
            f3ee0: 0,
            f3f14: 0,
        },
        wave: WaveBank {
            f3ee4: (false, 0),
            f3f18: (false, 0),
            f3ee8: (false, 0),
            f3f1c: (false, 0),
            f3eec: 0,
            f3f20: 0,
            f3ef0: 0,
            f3f24: 0,
            f3ef4: 0,
            f3f28: 0,
            f3ef8: 0,
            f3f2c: 0,
            f3efc: 0,
            f3f30: 0,
            f3f00: 0,
            f3f34: 0,
            f3f04: 0,
            f3f38: 0,
            f3f08: 0,
            f3f3c: 0,
        },
        first: FirstBank {
            f3f40: (false, 0),
            f3f44: (false, 0),
            f3f48: 0,
            f3f4c: 0,
            f3f50: 0,
            f3f54: 0,
            f3f58: 0,
            f3f5c: 0,
        },
        tail: Tail {
            f3f60: None,
            f3f64: 0,
            f3f68: None,
            f3f6c: 0,
            f3f70: 0,
            f3f74: 0,
            coord_mode: 0,
            sw1: 0,
            sw2: 0,
            sw3: 0,
            late_sel: 0,
            quad_preset: 0,
        },
    }
}

impl State {
    /// A fresh, not yet built pattern whose generator is seeded with `seed`
    /// (see `fresh_state`).
    pub fn new(seed: u64) -> (s: State)
        ensures
            s == fresh_state(seed),
    {
        State {
            rng: Rng::new(seed),
            shape: Shape {
                minc: 2,
                maxc: 8,
                ribbons: false,
                rhombuses: false,
                mesh: false,
                flip_u: false,
                flip_v: false,
                invert_first: false,
                phase_perturb: false,
                blend_uv: false,
                stripe_radius_blend: false,
                h_amp: (0, 0, 0, 0),
                h_phase: (0, 0, 0, 0),
            },
            profile: ProfileDraws {
                f3eac: 0,
                f3ea4: 0,
                f3ea8: 0,
                f3eb0: false,
                f3eb4: 0,
                f3fb4: (false, 0),
                f3fb8: 0,
            },
            blend: BlendBank {
                f3ecc: 0,
                f3ed0: 0,
                f3ed4: 0,
                f3ed8: 0,
                f3f0c: 0,
                f3edc: 0,
                f3f10: 0,
                f3ee0: 0,
                f3f14: 0,
            },
            wave: WaveBank {
                f3ee4: (false, 0),
                f3f18: (false, 0),
                f3ee8: (false, 0),
                f3f1c: (false, 0),
                f3eec: 0,
                f3f20: 0,
                f3ef0: 0,
                f3f24: 0,
                f3ef4: 0,
                f3f28: 0,
                f3ef8: 0,
                f3f2c: 0,
                f3efc: 0,
                f3f30: 0,
                f3f00: 0,
                f3f34: 0,
                f3f04: 0,
                f3f38: 0,
                f3f08: 0,
                f3f3c: 0,
            },
            first: FirstBank {
                f3f40: (false, 0),
                f3f44: (false, 0),
                f3f48: 0,
                f3f4c: 0,
                f3f50: 0,
                f3f54: 0,
                f3f58: 0,
                f3f5c: 0,
            },
            tail: Tail {
                f3f60: None,
                f3f64: 0,
                f3f68: None,
                f3f6c: 0,
                f3f70: 0,
                f3f74: 0,
                coord_mode: 0,
                sw1: 0,
                sw2: 0,
                sw3: 0,
                late_sel: 0,
                quad_preset: 0,
            },
        }
    }

    /// A draw in `0..max(n, 1)`.
    pub fn ri(&mut self, n: u32) -> (r: u32)
        ensures
            *final(self) == with_rng(*old(self), Rng(xorshift(old(self).rng.0))),
            r == high_word(old(self).rng.0) % (if n == 0 { 1 } else { n }),
    {
        let m = if n > 1 {
            n
        } else {
            1
        };
        self.rng.range(m)
    }

    /// A coin: the lowest bit of the next draw.
    pub fn rb(&mut self) -> (b: bool)
        ensures
            *final(self) == with_rng(*old(self), Rng(xorshift(old(self).rng.0))),
            b == (high_word(old(self).rng.0) & 1u32 != 0u32),
    {
        self.rng.next_u32() & 1u32 != 0
    }

    /// Draws a new pattern from the generator: the complexity bounds, the
    /// style, the coordinate flags and harmonics, the profile, switch-bank
    /// and first-switch draws, the stripe and support draws, and the warp,
    /// switch and late selectors with the quadratic preset, in that order.
    /// Every field is overwritten; the result depends only on the generator
    /// state.
    pub fn build(&mut self)
        ensures
            *final(self) == built_state(old(self).rng.0),
    {
        let ghost s0 = self.rng.0;
        let mut rng = self.rng;
        proof {
            crate::rng::lemma_advance_step(s0, 0);
        }
        let shape = draw_shape(&mut rng, Ghost(s0));
        let spanc = if shape.maxc - shape.minc > 1 {
            shape.maxc - shape.minc
        } else {
            1
        };
        let span2 = 2 * spanc;
        assert(span2 == span2_of(shape));
        let profile = draw_profile(&mut rng, Ghost(s0));
        let blend = draw_blend_bank(&mut rng, Ghost(s0));
        let wave = draw_wave_bank(&mut rng, Ghost(s0), span2);
        let first = draw_first_bank(&mut rng, Ghost(s0));
        let tail = draw_tail(&mut rng, Ghost(s0), span2);
        *self = State { rng, shape, profile, blend, wave, first, tail };
    }

    /// The name of the pattern's style family.
    pub fn style_name(&self) -> (name: &'static str)
        ensures
            name@ == style_name_of(*self),
    {
        if self.shape.ribbons {
            "Ribbons"
        } else if self.shape.rhombuses {
            "Rhombuses"
        } else if self.shape.mesh {
            "Mesh"
        } else {
            "Embossing"
        }
    }
}

/// Number of samples of a pattern's profile curve.
pub const PROFILE_N: usize = 4000;

/// The base sample of a profile lookup at an already rounded coordinate:
/// the coordinate clamped to `0..=PROFILE_N - 2`, so that the sample after
/// it exists too.
pub fn profile_index(i: isize) -> (k: usize)
    ensures
        k == (if i < 0 {
            0
        } else if i > PROFILE_N - 2 {
            PROFILE_N - 2
        } else {
            i as int
        }),
        k + 1 < PROFILE_N,
{
    if i < 0 {
        0
    } else if i > 3998 {
        3998
    } else {
        i as usize
    }
}

/// A built pattern has exactly one style family, and its warp, switch and
/// late selectors and its quadratic preset lie in their ranges (`0..4`,
/// `0..9`, `0..10`, `0..10`, `0..6`, `0..6`).
pub proof fn lemma_built_selectors(s0: u64)
    ensures
        ({
            let b = built_state(s0);
            &&& !(b.shape.ribbons && b.shape.rhombuses)
            &&& !(b.shape.ribbons && b.shape.mesh)
            &&& !(b.shape.rhombuses && b.shape.mesh)
            &&& 0 <= b.tail.coord_mode < 4
            &&& 0 <= b.tail.sw1 < 9
            &&& 0 <= b.tail.sw2 < 10
            &&& 0 <= b.tail.sw3 < 10
            &&& 0 <= b.tail.late_sel < 6
            &&& b.tail.quad_preset < 6
            &&& 2 <= b.shape.minc < 5
            &&& 8 <= b.shape.maxc < 13
            &&& 8 <= span2_of(b.shape) <= 20
        }),
{
    reveal(pick);
}

/// The style family of a built pattern follows the third word `d` that the
/// generator hands out, modulo 4: Ribbons exactly when `d` is 1, Rhombuses
/// exactly when it is 2, Mesh exactly when it is 3, and Embossing (no style
/// flag) when it is 0.
pub proof fn lemma_style_follows_draw(s0: u64)
    ensures
        ({
            let b = built_state(s0);
            let d = output(s0, 2) % 4;
            &&& b.shape.ribbons <==> d == 1
            &&& b.shape.rhombuses <==> d == 2
            &&& b.shape.mesh <==> d == 3
            &&& (d == 0 <==> !b.shape.ribbons && !b.shape.rhombuses && !b.shape.mesh)
            &&& style_name_of(b) == (if d == 1 {
                "Ribbons"@
            } else if d == 2 {
                "Rhombuses"@
            } else if d == 3 {
                "Mesh"@
            } else {
                "Embossing"@
            })
        }),
{
    reveal(pick);
}

/// The third word handed out from state `s`, from the two states after it.
proof fn lemma_third_word(s: u64, x1: u64, x2: u64, w: u32)
    requires
        xorshift(s) == x1,
        xorshift(x1) == x2,
        (xorshift(x2) >> 32u64) as u32 == w,
    ensures
        output(s, 2) == w,
{
    reveal_with_fuel(advance, 3);
}

/// Every style family is built from some seed: seeds 6, 2, 4 and 0 (generator
/// states 7, 3, 5 and 1) give Embossing, Ribbons, Rhombuses and Mesh.
pub proof fn lemma_every_style_reached()
    ensures
        output(7, 2) % 4 == 0,
        output(3, 2) % 4 == 1,
        output(5, 2) % 4 == 2,
        output(1, 2) % 4 == 3,
        built_state(7).shape == shape_of(7) && !built_state(7).shape.ribbons
            && !built_state(7).shape.rhombuses && !built_state(7).shape.mesh,
        built_state(3).shape.ribbons,
        built_state(5).shape.rhombuses,
        built_state(1).shape.mesh,
{
    assert(xorshift(7u64) == 7575888327u64) by (bit_vector);
    assert(xorshift(7575888327u64) == 8070950887952051652u64) by (bit_vector);
    assert((xorshift(8070950887952051652u64) >> 32u64) as u32 == 3243777984u32) by (bit_vector);
    lemma_third_word(7u64, 7575888327u64, 8070950887952051652u64, 3243777984u32);
    assert(xorshift(3u64) == 3246809283u64) by (bit_vector);
    assert(xorshift(3246809283u64) == 3458978961873255618u64) by (bit_vector);
    assert((xorshift(3458978961873255618u64) >> 32u64) as u32 == 2904755573u32) by (bit_vector);
    lemma_third_word(3u64, 3246809283u64, 3458978961873255618u64, 2904755573u32);
    assert(xorshift(5u64) == 5411348805u64) by (bit_vector);
    assert(xorshift(5411348805u64) == 5764964994168997191u64) by (bit_vector);
    assert((xorshift(5764964994168997191u64) >> 32u64) as u32 == 4150630042u32) by (bit_vector);
    lemma_third_word(5u64, 5411348805u64, 5764964994168997191u64, 4150630042u32);
    assert(xorshift(1u64) == 1082269761u64) by (bit_vector);
    assert(xorshift(1082269761u64) == 1152992998833853505u64) by (bit_vector);
    assert((xorshift(1152992998833853505u64) >> 32u64) as u32 == 2602468399u32) by (bit_vector);
    lemma_third_word(1u64, 1082269761u64, 1152992998833853505u64, 2602468399u32);
    lemma_style_follows_draw(7);
    lemma_style_follows_draw(3);
    lemma_style_follows_draw(5);
    lemma_style_follows_draw(1);
}

/// A built pattern depends only on the seed without its lowest bit: seeds
/// that differ only there give the same pattern.
pub proof fn lemma_pattern_ignores_seed_low_bit(seed: u64)
    ensures
        built_state(seed | 1u64) == built_state((seed ^ 1u64) | 1u64),
{
    crate::rng::lemma_seed_low_bit_ignored(seed);
}

/// Building a pattern takes between 80 and 82 draws: 80 that are always
/// taken and two that depend on earlier coins.
pub proof fn lemma_build_len(s0: u64)
    ensures
        80 <= build_len(s0) <= 82,
{
}

} // verus!
