//! The circuit breaker state as reported to JavaScript callers.

use vstd::prelude::*;

verus! {

/// The state of a circuit breaker.
#[derive(Debug, Clone, Copy, PartialEq, Eq, Structural)]
pub enum CbState {
    Closed,
    Open,
    HalfOpen,
}

/// The name of a breaker state; a client without a breaker reports closed.
pub open spec fn state_name(s: Option<CbState>) -> Seq<char> {
    match s {
        Some(CbState::Closed) | None => "closed"@,
        Some(CbState::Open) => "open"@,
        Some(CbState::HalfOpen) => "half-open"@,
    }
}

/// The name of a breaker state: "closed", "open" or "half-open".
pub fn circuit_breaker_state_name(s: Option<CbState>) -> (r: &'static str)
    ensures
        r@ == state_name(s),
{
    match s {
        Some(CbState::Closed) | None => "closed",
        Some(CbState::Open) => "open",
        Some(CbState::HalfOpen) => "half-open",
    }
}

} // verus!
