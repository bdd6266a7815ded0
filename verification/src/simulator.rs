use vstd::prelude::*;
use vstd::string::StringExecFns;
use crate::error::FetchError;

verus! {

/// What one simulated fetch resolves to for a given error-chance draw: a
/// draw of 0 is a network failure with the fixed diagnostic, a draw of 1 is
/// a server failure with status code 500, and every draw from 2 through 9
/// succeeds, handing the payload back unchanged.
pub open spec fn outcome_matches<T>(data: T, chance: u64, r: Result<T, FetchError>) -> bool {
    &&& chance == 0 ==> (r matches Err(e) && e matches FetchError::NetworkError(msg)
        && msg@ == "Connection failed"@)
    &&& chance == 1 ==> (r matches Err(e) && e matches FetchError::ServerError(code)
        && code == 500u16)
    &&& 2 <= chance ==> r == Ok::<T, FetchError>(data)
}

/// Turns an error-chance draw into the outcome of one simulated fetch.
/// Success returns the payload unchanged; neither failure carries it.
pub fn outcome_for_draw<T>(data: T, chance: u64) -> (r: Result<T, FetchError>)
    requires
        chance < 10,
    ensures
        outcome_matches(data, chance, r),
{
    if chance == 0 {
        Err(FetchError::NetworkError(String::from_str("Connection failed")))
    } else if chance == 1 {
        Err(FetchError::ServerError(500))
    } else {
        Ok(data)
    }
}

/// Relies on rand's `random_range` over the inclusive range `min..=max`: it
/// returns a value within the given bounds, and panics only on an empty
/// range, which the precondition rules out.
#[verifier::external_body]
fn draw_in_range(min: u64, max: u64) -> (r: u64)
    requires
        min <= max,
    ensures
        min <= r <= max,
{
    rand::random_range(min..=max)
}

/// Draws the simulated delay for one fetch, uniformly within the inclusive
/// range. An empty range is rejected before any draw is made.
pub fn draw_delay(min_delay_ms: u64, max_delay_ms: u64) -> (r: Option<u64>)
    ensures
        min_delay_ms > max_delay_ms ==> r is None,
        min_delay_ms <= max_delay_ms ==> (r matches Some(d) && min_delay_ms <= d
            <= max_delay_ms),
{
    if min_delay_ms > max_delay_ms {
        None
    } else {
        Some(draw_in_range(min_delay_ms, max_delay_ms))
    }
}

/// Draws the error-chance value for one fetch: an integer in `[0, 10)`.
pub fn draw_error_chance() -> (r: u64)
    ensures
        r < 10,
{
    draw_in_range(0, 9)
}

/// Runs the randomized part of one simulated fetch: draws the error chance
/// and resolves the outcome. Whatever the draw, success hands the payload
/// back unchanged and a failure is one of the two fixed errors.
pub fn simulate_outcome<T>(data: T) -> (r: Result<T, FetchError>)
    ensures
        exists|chance: u64| chance < 10 && outcome_matches(data, chance, r),
        r matches Ok(d) ==> d == data,
        r matches Err(e) ==> ((e matches FetchError::NetworkError(msg) && msg@
            == "Connection failed"@) || (e matches FetchError::ServerError(code) && code
            == 500u16)),
{
    let chance = draw_error_chance();
    let r = outcome_for_draw(data, chance);
    proof {
        assert(chance < 10 && outcome_matches(data, chance, r));
    }
    r
}

/// The simulator is a pure function of its payload and its injected draw:
/// two runs that see the same payload and the same error-chance draw
/// resolve the same way — same success value, or failures that render to
/// the same diagnostic.
pub proof fn lemma_outcome_deterministic<T>(
    data: T,
    chance: u64,
    r1: Result<T, FetchError>,
    r2: Result<T, FetchError>,
)
    requires
        chance < 10,
        outcome_matches(data, chance, r1),
        outcome_matches(data, chance, r2),
    ensures
        r1 is Ok <==> r2 is Ok,
        r1 matches Ok(d1) ==> (r2 matches Ok(d2) && d1 == d2),
        r1 matches Err(e1) ==> (r2 matches Err(e2) && e1.message_spec() == e2.message_spec()),
{
}

/// Which error kind comes out is decided by the error-chance draw alone:
/// a draw of 0 always yields a network error, a draw of 1 always a server
/// error, and every other admissible draw always succeeds with the
/// original payload.
pub proof fn lemma_error_kind_distribution<T>(data: T, chance: u64, r: Result<T, FetchError>)
    requires
        chance < 10,
        outcome_matches(data, chance, r),
    ensures
        chance == 0 ==> (r matches Err(e) && e is NetworkError),
        chance == 1 ==> (r matches Err(e) && e is ServerError),
        2 <= chance ==> r == Ok::<T, FetchError>(data),
{
}

} // verus!
