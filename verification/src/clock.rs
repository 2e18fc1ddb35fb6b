use vstd::prelude::*;

verus! {

#[verifier::external_type_specification]
#[verifier::external_body]
pub struct ExSystemTime(std::time::SystemTime);

#[verifier::external_type_specification]
#[verifier::external_body]
pub struct ExSystemTimeError(std::time::SystemTimeError);

/// `std::time::SystemTime::now`: reads the system clock. Nothing is stated
/// of the result, which depends on the time of the call.
#[verifier::external_body]
fn clock_now() -> std::time::SystemTime {
    std::time::SystemTime::now()
}

/// `std::time::SystemTime::duration_since`, measured from the Unix epoch:
/// an error when the clock reads earlier than the epoch. Nothing is stated:
/// `SystemTime` is opaque here, and the reading depends on the clock.
#[verifier::external_body]
fn since_unix_epoch(t: &std::time::SystemTime) -> Result<
    std::time::Duration,
    std::time::SystemTimeError,
> {
    t.duration_since(std::time::UNIX_EPOCH)
}

/// `std::time::Duration::as_nanos`: the whole nanoseconds of a duration.
/// `Duration` is opaque here, so no clause ties the result to the duration.
#[verifier::external_body]
fn duration_nanos(d: &std::time::Duration) -> u128 {
    d.as_nanos()
}

/// The seed that a clock reading gives: the nanoseconds since the Unix
/// epoch truncated to 64 bits, or one second's worth (1,000,000,000) when
/// the clock read earlier than the epoch (`None`).
pub fn seed_from_nanos(nanos: Option<u128>) -> (s: u64)
    ensures
        s == (match nanos {
            Some(n) => n as u64,
            None => 1_000_000_000u64,
        }),
{
    match nanos {
        Some(n) => n as u64,
        None => 1_000_000_000u64,
    }
}

/// A seed from the clock: the reading since the Unix epoch turned into a
/// seed by `seed_from_nanos`. Which value comes back depends on the time of
/// the call.
pub fn seed_now() -> u64 {
    let now = clock_now();
    let nanos = match since_unix_epoch(&now) {
        Ok(d) => Some(duration_nanos(&d)),
        Err(_) => None,
    };
    seed_from_nanos(nanos)
}

/// A seed read from the clock, numbered by the reading it came from. Only
/// `read_clock` makes one, so a value of this type is always an actual
/// clock reading, and its number tells which reading it was.
pub struct ClockSeed {
    seed: u64,
    reading: Ghost<nat>,
}

impl ClockSeed {
    /// The seed that the reading gave.
    pub closed spec fn value(&self) -> u64 {
        self.seed
    }

    /// The number of the reading.
    pub closed spec fn reading(&self) -> nat {
        self.reading@
    }

    /// The seed that the reading gave.
    pub fn get(&self) -> (s: u64)
        ensures
            s == self.value(),
    {
        self.seed
    }
}

/// Reads the clock (as `seed_now` does) and numbers the reading `reading`.
pub fn read_clock(Ghost(reading): Ghost<nat>) -> (c: ClockSeed)
    ensures
        c.reading() == reading,
{
    ClockSeed { seed: seed_now(), reading: Ghost(reading) }
}

/// The index in `0..len` that a seed selects: the seed (as a machine word)
/// modulo `len`; 0 for an empty range.
pub open spec fn seed_index(seed: u64, len: usize) -> int {
    if len == 0 {
        0
    } else {
        ((seed as usize) % len) as int
    }
}

/// The index in `0..len` that a seed selects (see `seed_index`).
pub fn index_from_seed(seed: u64, len: usize) -> (i: usize)
    ensures
        i == seed_index(seed, len),
        len == 0 ==> i == 0,
        len > 0 ==> i == (seed as usize) % len,
        len > 0 ==> i < len,
{
    if len == 0 {
        0
    } else {
        (seed as usize) % len
    }
}

/// A clock-seeded index in `0..len`: the index that a seed read from the
/// clock selects; 0 for an empty range. Which index depends on the time of
/// the call.
pub fn random_index(len: usize) -> (i: usize)
    ensures
        exists|seed: u64| i == #[trigger] seed_index(seed, len),
        len == 0 ==> i == 0,
        len > 0 ==> i < len,
{
    if len == 0 {
        assert(seed_index(0, len) == 0);
        0
    } else {
        index_from_seed(seed_now(), len)
    }
}

} // verus!
