//! Route-uniqueness resolution: deterministic, bounded probing of a
//! suggested route, appending one hyphen per collision.
//!
//! The decision is a step function from the probe state and the number of
//! rows that already hold the candidate route to what happens next, so the
//! same rule serves any store that can count routes.

use vstd::prelude::*;
use vstd::string::*;

use crate::errors::{ErrorTypes, PerseError};

verus! {

/// How many candidates are probed before resolution gives up.
pub const MAX_ROUTE_ATTEMPTS: u64 = 10;

/// The candidate probed after `k` collisions: the seed followed by `k`
/// hyphens.
pub open spec fn probe(seed: Seq<char>, k: nat) -> Seq<char>
    decreases k,
{
    if k == 0 {
        seed
    } else {
        probe(seed, (k - 1) as nat).push('-')
    }
}

/// The probe state: the current candidate and how many collisions came
/// before it.
pub struct RouteProbe {
    pub candidate: String,
    pub attempts: u64,
}

/// What a probe step decides.
pub enum RouteStep {
    /// The candidate is free: use it.
    Found(String),
    /// The candidate is taken: probe the next one.
    Next(RouteProbe),
    /// The candidate is taken and the budget is spent.
    Exhausted,
}

impl RouteProbe {
    /// The state is the `attempts`-th candidate for `seed`, within budget.
    pub open spec fn follows(&self, seed: Seq<char>) -> bool {
        &&& self.attempts < MAX_ROUTE_ATTEMPTS
        &&& self.candidate@ == probe(seed, self.attempts as nat)
    }

    /// Starts probing at the suggested route itself.
    pub fn new(seed: &str) -> (r: RouteProbe)
        ensures
            r.follows(seed@),
            r.attempts == 0,
    {
        RouteProbe { candidate: String::from_str(seed), attempts: 0 }
    }

    /// Decides from `count`, the number of rows holding the candidate:
    /// none means the candidate is found; otherwise the next candidate is
    /// probed, unless this was the last one the budget allows.
    pub fn step(self, count: i64) -> (r: RouteStep)
        ensures
            count == 0 ==> (r matches RouteStep::Found(route) && route@ == self.candidate@),
            count != 0 && self.attempts + 1 >= MAX_ROUTE_ATTEMPTS ==> r is Exhausted,
            count != 0 && self.attempts + 1 < MAX_ROUTE_ATTEMPTS ==> (r matches RouteStep::Next(p)
                && p.attempts == self.attempts + 1 && p.candidate@ == self.candidate@.push('-')),
    {
        if count == 0 {
            return RouteStep::Found(self.candidate);
        }
        if self.attempts >= MAX_ROUTE_ATTEMPTS - 1 {
            return RouteStep::Exhausted;
        }
        let attempts = self.attempts + 1;
        let mut candidate = self.candidate;
        candidate.append("-");
        proof {
            reveal_strlit("-");
        }
        assert(candidate@ == self.candidate@.push('-'));
        RouteStep::Next(RouteProbe { candidate, attempts })
    }
}

/// The error reported when every candidate within the budget is taken.
pub fn route_exhausted_error() -> (r: PerseError)
    ensures
        r.error_type == ErrorTypes::InternalError,
{
    PerseError::new(ErrorTypes::InternalError, "Failed to determine a unique route for the requested URL")
}

} // verus!
