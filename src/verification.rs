use vstd::prelude::*;

verus! {

/// What a single stub reports when its call-count expectation is checked.
#[derive(Clone, Copy, Debug, PartialEq, Eq, Structural)]
pub struct VerificationReport {
    /// Position of the stub in the registry, in registration order.
    pub position: usize,
    /// How many requests the stub has answered.
    pub n_matched_requests: u64,
    /// The fewest calls the stub expects.
    pub expected_min: u64,
    /// The most calls the stub expects, if bounded.
    pub expected_max: Option<u64>,
}

impl VerificationReport {
    /// The expectation holds: the number of calls lies in the expected range.
    pub open spec fn satisfied(self) -> bool {
        self.expected_min <= self.n_matched_requests && match self.expected_max {
            Some(max) => self.n_matched_requests <= max,
            None => true,
        }
    }

    pub fn is_satisfied(&self) -> (r: bool)
        ensures
            r == self.satisfied(),
    {
        self.expected_min <= self.n_matched_requests && match self.expected_max {
            Some(max) => self.n_matched_requests <= max,
            None => true,
        }
    }
}

/// The outcome of checking every stub of a registry.
#[derive(Debug)]
pub enum VerificationOutcome {
    /// Every stub's expectation holds.
    Success,
    /// The reports of the stubs whose expectation does not hold, in
    /// registration order; never empty.
    Failure(Vec<VerificationReport>),
}

} // verus!
