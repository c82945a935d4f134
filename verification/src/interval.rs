//! How often a session reports its worker's counters: an interval drawn at
//! random once per session, so that sessions do not all report at once.
use vstd::prelude::*;
use rand::SeedableRng;
use crate::worker::SessionError;

verus! {

/// The shortest report interval, in seconds.
pub const REPORT_INTERVAL_MIN_SECS: u64 = 1;

/// Every report interval is shorter than this many seconds.
pub const REPORT_INTERVAL_LIMIT_SECS: u64 = 360;

#[verifier::external_type_specification]
#[verifier::external_body]
pub struct ExChaCha20Rng(rand_chacha::ChaCha20Rng);

#[verifier::external_type_specification]
#[verifier::external_body]
pub struct ExRandError(rand::Error);

/// Calls `rand_chacha::ChaCha20Rng::from_rng` (`rand_core::SeedableRng`) on
/// `rand::rngs::OsRng`, which seeds the generator from the operating system's
/// randomness. When the operating system gives none, the error comes back in
/// `Err` (rand_core's `OsRng::try_fill_bytes` returns it); nothing else is
/// claimed, neither when that happens nor of the generator.
#[verifier::external_body]
fn seeded_rng() -> Result<rand_chacha::ChaCha20Rng, rand::Error> {
    rand_chacha::ChaCha20Rng::from_rng(rand::rngs::OsRng)
}

/// Calls `rand::Rng::gen_range` with the range `low..high`. The claim, as
/// rand documents it: the number drawn lies in that range. `gen_range` panics
/// on an empty range, which `requires` leaves out. Which number comes out
/// depends on the generator's state and is not stated.
#[verifier::external_body]
fn sample_range(rng: &mut rand_chacha::ChaCha20Rng, low: u64, high: u64) -> (r: u64)
    requires
        low < high,
    ensures
        low <= r < high,
{
    rand::Rng::gen_range(rng, low..high)
}

/// Draws a session's report interval, in seconds, from a freshly seeded
/// generator; fails when the operating system gives no randomness to seed it.
pub fn report_interval_secs() -> (r: Result<u64, SessionError>)
    ensures
        r matches Ok(secs) ==> REPORT_INTERVAL_MIN_SECS <= secs < REPORT_INTERVAL_LIMIT_SECS,
        r matches Err(e) ==> e == SessionError::NoRandomness,
{
    match seeded_rng() {
        Ok(rng) => {
            let mut rng = rng;
            Ok(sample_range(&mut rng, REPORT_INTERVAL_MIN_SECS, REPORT_INTERVAL_LIMIT_SECS))
        },
        Err(_) => Err(SessionError::NoRandomness),
    }
}

} // verus!
