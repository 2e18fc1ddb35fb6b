use vstd::prelude::*;

verus! {

/// One step of the 64-bit xorshift generator (shifts 13, 7, 17).
pub open spec fn xorshift(x: u64) -> u64 {
    let a = x ^ (x << 13u64);
    let b = a ^ (a >> 7u64);
    b ^ (b << 17u64)
}

/// The generator state after `k` steps from `x`.
#[verifier::opaque]
pub open spec fn advance(x: u64, k: nat) -> u64
    decreases k,
{
    if k == 0 {
        x
    } else {
        xorshift(advance(x, (k - 1) as nat))
    }
}

/// The 32-bit word that a step from state `x` hands out: the high half of the
/// new state.
pub open spec fn high_word(x: u64) -> u32 {
    (xorshift(x) >> 32u64) as u32
}

/// The `k`-th word (0-based) handed out by a generator that starts in state `x`.
pub open spec fn output(x: u64, k: nat) -> u32 {
    high_word(advance(x, k))
}

/// Xorshift pseudo random number generator over a 64-bit state.
#[derive(Clone, Copy, Debug)]
pub struct Rng(pub u64);

impl Rng {
    /// A generator seeded with `seed`; the lowest bit is forced on so that the
    /// state is never zero.
    pub fn new(seed: u64) -> (r: Rng)
        ensures
            r.0 == seed | 1u64,
            r.0 != 0,
            r.0 % 2 == 1,
    {
        let s = seed | 1u64;
        assert(s != 0 && s % 2 == 1) by (bit_vector)
            requires
                s == seed | 1u64,
        ;
        Rng(s)
    }

    /// Advances the state by one xorshift step and returns its high 32 bits.
    pub fn next_u32(&mut self) -> (r: u32)
        ensures
            final(self).0 == xorshift(old(self).0),
            r == high_word(old(self).0),
    {
        let x0 = self.0;
        let a = x0 ^ (x0 << 13u64);
        let b = a ^ (a >> 7u64);
        let c = b ^ (b << 17u64);
        self.0 = c;
        (c >> 32u64) as u32
    }

    /// A word in `0..n`: the next word modulo `n`.
    pub fn range(&mut self, n: u32) -> (r: u32)
        requires
            n > 0,
        ensures
            final(self).0 == xorshift(old(self).0),
            r == high_word(old(self).0) % n,
            r < n,
    {
        self.next_u32() % n
    }
}

/// A xorshift step never reaches zero from a nonzero state, so a seeded
/// generator never gets stuck handing out zeros.
pub proof fn lemma_xorshift_nonzero(x: u64)
    requires
        x != 0,
    ensures
        xorshift(x) != 0,
{
    let a = x ^ (x << 13u64);
    let b = a ^ (a >> 7u64);
    let c = b ^ (b << 17u64);
    assert(a != 0) by (bit_vector)
        requires
            x != 0,
            a == x ^ (x << 13u64),
    ;
    assert(b != 0) by (bit_vector)
        requires
            a != 0,
            b == a ^ (a >> 7u64),
    ;
    assert(c != 0) by (bit_vector)
        requires
            b != 0,
            c == b ^ (b << 17u64),
    ;
}

/// One more step after `k` steps.
pub proof fn lemma_advance_step(x: u64, k: nat)
    ensures
        advance(x, k + 1) == xorshift(advance(x, k)),
        advance(x, 0) == x,
{
    reveal(advance);
}

/// Any number of steps from a nonzero state keeps the state nonzero.
pub proof fn lemma_advance_nonzero(x: u64, k: nat)
    requires
        x != 0,
    ensures
        advance(x, k) != 0,
    decreases k,
{
    reveal(advance);
    if k > 0 {
        lemma_advance_nonzero(x, (k - 1) as nat);
        lemma_xorshift_nonzero(advance(x, (k - 1) as nat));
    }
}

/// Distinct states step to distinct states: the generator walks a
/// permutation of its states and never merges two streams.
pub proof fn lemma_xorshift_injective(x: u64, y: u64)
    requires
        xorshift(x) == xorshift(y),
    ensures
        x == y,
{
    let ax = x ^ (x << 13u64);
    let bx = ax ^ (ax >> 7u64);
    let ay = y ^ (y << 13u64);
    let by = ay ^ (ay >> 7u64);
    assert(bx == by) by (bit_vector)
        requires
            bx ^ (bx << 17u64) == by ^ (by << 17u64),
    ;
    assert(ax == ay) by (bit_vector)
        requires
            ax ^ (ax >> 7u64) == ay ^ (ay >> 7u64),
    ;
    assert(x == y) by (bit_vector)
        requires
            x ^ (x << 13u64) == y ^ (y << 13u64),
    ;
}

/// Seeds that differ only in their lowest bit give the same generator.
pub proof fn lemma_seed_low_bit_ignored(seed: u64)
    ensures
        seed | 1u64 == (seed ^ 1u64) | 1u64,
{
    assert(seed | 1u64 == (seed ^ 1u64) | 1u64) by (bit_vector);
}

} // verus!
