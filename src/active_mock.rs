use vstd::prelude::*;

use crate::request::{Mock, Request, ResponseTemplate};
use crate::verification::VerificationReport;

verus! {

/// A registered stub: its specification, how often it was called, and
/// whether it still takes part in matching.
#[derive(Clone, Debug)]
pub struct ActiveMock {
    pub specification: Mock,
    pub n_matched_requests: u64,
    pub position: usize,
    pub active: bool,
}

impl ActiveMock {
    /// The stub takes this request: it is active and its matcher accepts it.
    pub open spec fn accepts(self, request: Request) -> bool {
        self.active && self.specification.matcher.accepts(request)
    }

    /// The report of this stub's expectation, which does not depend on
    /// whether it is active.
    pub open spec fn report(self) -> VerificationReport {
        VerificationReport {
            position: self.position,
            n_matched_requests: self.n_matched_requests,
            expected_min: self.specification.expected_min,
            expected_max: self.specification.expected_max,
        }
    }

    /// The stub after one more call; the count stops at its largest value.
    pub open spec fn called(self) -> ActiveMock {
        ActiveMock {
            n_matched_requests: if self.n_matched_requests < u64::MAX {
                (self.n_matched_requests + 1) as u64
            } else {
                self.n_matched_requests
            },
            ..self
        }
    }

    /// The stub taken out of matching.
    pub open spec fn deactivated(self) -> ActiveMock {
        ActiveMock { active: false, ..self }
    }

    pub fn new(specification: Mock, position: usize) -> (r: ActiveMock)
        ensures
            r.specification == specification,
            r.position == position,
            r.n_matched_requests == 0,
            r.active,
    {
        ActiveMock { specification, n_matched_requests: 0, position, active: true }
    }

    pub fn matches(&self, request: &Request) -> (r: bool)
        ensures
            r == self.accepts(*request),
    {
        self.active && self.specification.matcher.matches(request)
    }

    /// Records one call and hands out the template to answer it with.
    pub fn response_template(&mut self) -> (r: &ResponseTemplate)
        ensures
            *final(self) == old(self).called(),
            *r == old(self).specification.response,
    {
        if self.n_matched_requests < u64::MAX {
            self.n_matched_requests = self.n_matched_requests + 1;
        }
        &self.specification.response
    }

    pub fn deactivate(&mut self)
        ensures
            *final(self) == old(self).deactivated(),
    {
        self.active = false;
    }

    pub fn verify(&self) -> (r: VerificationReport)
        ensures
            r == self.report(),
    {
        VerificationReport {
            position: self.position,
            n_matched_requests: self.n_matched_requests,
            expected_min: self.specification.expected_min,
            expected_max: self.specification.expected_max,
        }
    }
}

} // verus!
