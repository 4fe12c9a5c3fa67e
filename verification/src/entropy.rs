//! The random source of the machine and the clock that seeds it.
//!
//! The calls that leave the library are here, and nothing is proved of
//! them. None promises anything about what it returns, since a random byte
//! and the time of day can be anything.

use vstd::prelude::*;
use rand::rngs::StdRng;
use rand::{Rng, SeedableRng};
use std::time::{Duration, SystemTime, SystemTimeError, UNIX_EPOCH};

verus! {

/// `rand::rngs::StdRng`, the generator that the machine draws from. Its
/// state is hidden from the proofs.
#[verifier::external_type_specification]
#[verifier::external_body]
pub struct ExStdRng(StdRng);

/// `std::time::SystemTime`, a reading of the wall clock.
#[verifier::external_type_specification]
#[verifier::external_body]
pub struct ExSystemTime(SystemTime);

/// `std::time::SystemTimeError`, returned when a reading lies before the
/// moment it is measured from.
#[verifier::external_type_specification]
#[verifier::external_body]
pub struct ExSystemTimeError(SystemTimeError);

/// `SeedableRng::seed_from_u64` on `StdRng`: a generator built from a 64-bit
/// seed. Accepts every seed.
#[verifier::external_body]
pub(crate) fn rng_from_seed(seed: u64) -> StdRng {
    StdRng::seed_from_u64(seed)
}

/// `Rng::random::<u8>` on `StdRng`: the next byte of the generator. Claims
/// that the call returns without a panic, and nothing about the byte.
#[verifier::external_body]
pub(crate) fn rng_next_byte(rng: &mut StdRng) -> u8
    no_unwind
{
    rng.random::<u8>()
}

/// `SystemTime::now`: the current reading of the wall clock.
#[verifier::external_body]
pub(crate) fn system_time_now() -> SystemTime {
    SystemTime::now()
}

/// `SystemTime::duration_since` with `UNIX_EPOCH`: how long after the start
/// of 1970 the reading was taken, or an error for a reading before it.
#[verifier::external_body]
pub(crate) fn since_unix_epoch(reading: &SystemTime) -> Result<Duration, SystemTimeError> {
    reading.duration_since(UNIX_EPOCH)
}

/// `Duration::as_nanos`: the whole duration in nanoseconds.
#[verifier::external_body]
pub(crate) fn duration_nanos(duration: &Duration) -> u128 {
    duration.as_nanos()
}

/// A seed taken from the wall clock. Nothing is promised of it, since the
/// clock decides; [`seed_from_elapsed`] says which seed each reading gives.
pub(crate) fn clock_seed() -> u64 {
    let reading = system_time_now();
    let elapsed: Option<u128> = match since_unix_epoch(&reading) {
        Ok(elapsed) => Some(duration_nanos(&elapsed)),
        Err(_) => None,
    };
    seed_from_elapsed(elapsed)
}

/// The seed that a clock reading stands for: the low 64 bits of the
/// nanoseconds since the start of 1970, and zero for a reading before it.
pub open spec fn seed_of_elapsed(nanos: Option<u128>) -> u64 {
    match nanos {
        Some(nanos) => (nanos % 0x1_0000_0000_0000_0000) as u64,
        None => 0,
    }
}

/// Turns a clock reading into a seed. `nanos` is the time since the start
/// of 1970 in nanoseconds, or `None` where the clock reads earlier.
pub fn seed_from_elapsed(nanos: Option<u128>) -> (seed: u64)
    ensures
        seed == seed_of_elapsed(nanos),
{
    match nanos {
        Some(nanos) => {
            assert(nanos as u64 == nanos % 0x1_0000_0000_0000_0000) by (bit_vector);
            #[verifier::truncate]
            (nanos as u64)
        },
        None => 0,
    }
}

} // verus!
