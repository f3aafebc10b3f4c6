use vstd::prelude::*;

use crate::active_mock::ActiveMock;
use crate::request::{not_found_response, not_found_status_spec, Mock, Request, Response};
use crate::verification::{VerificationOutcome, VerificationReport};

verus! {

/// The reports of every stub, in registration order.
pub open spec fn reports_of(records: Seq<ActiveMock>) -> Seq<VerificationReport> {
    records.map_values(|m: ActiveMock| m.report())
}

/// The reports of the stubs whose expectation does not hold, in registration
/// order.
pub open spec fn failing_reports(records: Seq<ActiveMock>) -> Seq<VerificationReport> {
    reports_of(records).filter(|r: VerificationReport| !r.satisfied())
}

/// `i` is the first stub, in registration order, that takes the request.
pub open spec fn is_first_match(records: Seq<ActiveMock>, request: Request, i: int) -> bool {
    &&& 0 <= i < records.len()
    &&& records[i].accepts(request)
    &&& forall|j: int| 0 <= j < i ==> !(#[trigger] records[j].accepts(request))
}

/// Some stub takes the request.
pub open spec fn has_match(records: Seq<ActiveMock>, request: Request) -> bool {
    exists|i: int| 0 <= i < records.len() && #[trigger] records[i].accepts(request)
}

/// The reasons why a handle does not lead to a stub.
#[derive(Clone, Copy, Debug, PartialEq, Eq, Structural)]
pub enum MockIdError {
    /// The registry was reset after the handle was issued.
    Stale,
    /// The handle's position holds no stub (it was issued by another registry).
    UnknownIndex,
}

/// A handle on a stub: its position, and the registry's generation when it
/// was registered.
#[derive(Clone, Copy, Debug)]
pub struct MockId {
    index: usize,
    generation: u64,
}

impl MockId {
    pub closed spec fn spec_index(self) -> nat {
        self.index as nat
    }

    pub closed spec fn spec_generation(self) -> nat {
        self.generation as nat
    }

    pub fn index(&self) -> (r: usize)
        ensures
            r == self.spec_index(),
    {
        self.index
    }

    pub fn generation(&self) -> (r: u64)
        ensures
            r == self.spec_generation(),
    {
        self.generation
    }
}

/// The stubs registered since the last reset, in registration order, and
/// how many resets there were.
pub struct ActiveMockSet {
    mocks: Vec<ActiveMock>,
    generation: u64,
}

impl ActiveMockSet {
    pub closed spec fn records(&self) -> Seq<ActiveMock> {
        self.mocks@
    }

    pub closed spec fn spec_generation(&self) -> nat {
        self.generation as nat
    }

    /// Each stub knows its own position.
    pub open spec fn wf(&self) -> bool {
        forall|i: int| 0 <= i < self.records().len() ==> (#[trigger] self.records()[i]).position == i
    }

    /// Where a handle leads in this registry.
    pub open spec fn resolution(&self, id: MockId) -> Result<int, MockIdError> {
        if id.spec_generation() != self.spec_generation() {
            Err(MockIdError::Stale)
        } else if id.spec_index() >= self.records().len() {
            Err(MockIdError::UnknownIndex)
        } else {
            Ok(id.spec_index() as int)
        }
    }

    pub fn new() -> (r: ActiveMockSet)
        ensures
            r.wf(),
            r.records().len() == 0,
            r.spec_generation() == 0,
    {
        ActiveMockSet { mocks: Vec::new(), generation: 0 }
    }

    /// Answers a request with the first active stub that matches it, in
    /// registration order, and records the call on that stub; later stubs
    /// are not consulted. With no such stub the answer is "not found" and
    /// nothing changes. The second part of the result is the delay, in
    /// milliseconds, to wait before the response is sent.
    pub fn handle_request(&mut self, request: &Request) -> (r: (Response, Option<u64>))
        requires
            old(self).wf(),
        ensures
            final(self).wf(),
            final(self).spec_generation() == old(self).spec_generation(),
            has_match(old(self).records(), *request) ==> exists|i: int|
                #[trigger] is_first_match(old(self).records(), *request, i) && {
                    let template = old(self).records()[i].specification.response;
                    &&& final(self).records() == old(self).records().update(
                        i,
                        old(self).records()[i].called(),
                    )
                    &&& r.0.status == template.status
                    &&& r.0.body@ == template.body@
                    &&& r.1 == template.delay_ms
                },
            !has_match(old(self).records(), *request) ==> {
                &&& final(self).records() == old(self).records()
                &&& r.0.status == not_found_status_spec()
                &&& r.0.body@.len() == 0
                &&& r.1 is None
            },
    {
        let n = self.mocks.len();
        let mut i: usize = 0;
        while i < n
            invariant
                old(self).wf(),
                n == self.mocks.len(),
                self.mocks@ == old(self).mocks@,
                self.generation == old(self).generation,
                i <= n,
                forall|j: int| 0 <= j < i ==> !(#[trigger] self.mocks@[j].accepts(*request)),
            decreases n - i,
        {
            if self.mocks[i].matches(request) {
                let template = self.mocks[i].response_template();
                let response = template.generate_response();
                let delay = template.delay();
                assert(is_first_match(old(self).records(), *request, i as int));
                return (response, delay);
            }
            i = i + 1;
        }
        (not_found_response(), None)
    }

    /// Appends a stub and returns the handle on it; handles issued earlier
    /// stay valid.
    pub fn register(&mut self, mock: Mock) -> (r: MockId)
        requires
            old(self).wf(),
            old(self).records().len() < usize::MAX,
        ensures
            final(self).wf(),
            final(self).spec_generation() == old(self).spec_generation(),
            final(self).records() == old(self).records().push(
                (ActiveMock {
                    specification: mock,
                    n_matched_requests: 0,
                    position: old(self).records().len() as usize,
                    active: true,
                }),
            ),
            r.spec_index() == old(self).records().len(),
            r.spec_generation() == old(self).spec_generation(),
    {
        let n_registered_mocks = self.mocks.len();
        let active_mock = ActiveMock::new(mock, n_registered_mocks);
        self.mocks.push(active_mock);
        MockId { index: n_registered_mocks, generation: self.generation }
    }

    /// Drops every stub and starts a new generation: every handle issued so
    /// far is stale from now on.
    pub fn reset(&mut self)
        requires
            old(self).spec_generation() < u64::MAX,
        ensures
            final(self).wf(),
            final(self).records().len() == 0,
            final(self).spec_generation() == old(self).spec_generation() + 1,
    {
        self.mocks = Vec::new();
        self.generation = self.generation + 1;
    }

    /// The position a handle leads to, or why it leads nowhere.
    pub fn resolve(&self, id: MockId) -> (r: Result<usize, MockIdError>)
        ensures
            match r {
                Ok(i) => self.resolution(id) == Ok::<int, MockIdError>(i as int),
                Err(e) => self.resolution(id) == Err::<int, MockIdError>(e),
            },
    {
        if id.generation != self.generation {
            Err(MockIdError::Stale)
        } else if id.index >= self.mocks.len() {
            Err(MockIdError::UnknownIndex)
        } else {
            Ok(id.index)
        }
    }

    /// Takes a stub out of matching for good; it is still verified.
    pub fn deactivate(&mut self, mock_id: MockId) -> (r: Result<(), MockIdError>)
        requires
            old(self).wf(),
        ensures
            final(self).wf(),
            final(self).spec_generation() == old(self).spec_generation(),
            match old(self).resolution(mock_id) {
                Ok(i) => {
                    &&& r is Ok
                    &&& final(self).records() == old(self).records().update(
                        i,
                        old(self).records()[i].deactivated(),
                    )
                },
                Err(e) => {
                    &&& r == Err::<(), MockIdError>(e)
                    &&& final(self).records() == old(self).records()
                },
            },
    {
        let i = self.resolve(mock_id)?;
        self.mocks[i].deactivate();
        Ok(())
    }

    /// Checks the expectations of every stub, active or not.
    pub fn verify_all(&self) -> (r: VerificationOutcome)
        ensures
            match r {
                VerificationOutcome::Success => failing_reports(self.records()).len() == 0,
                VerificationOutcome::Failure(failed) => {
                    &&& failed@ == failing_reports(self.records())
                    &&& failed@.len() > 0
                },
            },
    {
        let mut failed: Vec<VerificationReport> = Vec::new();
        let mut i: usize = 0;
        while i < self.mocks.len()
            invariant
                i <= self.mocks@.len(),
                failed@ == failing_reports(self.mocks@.take(i as int)),
            decreases self.mocks@.len() - i,
        {
            let report = self.mocks[i].verify();
            if !report.is_satisfied() {
                failed.push(report);
            }
            proof {
                let prefix = self.mocks@.take(i + 1);
                assert(prefix.drop_last() =~= self.mocks@.take(i as int));
                assert(reports_of(prefix).drop_last() =~= reports_of(self.mocks@.take(i as int)));
                assert(reports_of(prefix).last() == report);
                reveal_with_fuel(Seq::filter, 1);
            }
            i = i + 1;
        }
        assert(self.mocks@.take(i as int) =~= self.mocks@);
        if failed.len() == 0 {
            VerificationOutcome::Success
        } else {
            VerificationOutcome::Failure(failed)
        }
    }

    /// Checks the expectation of the stub a handle leads to.
    pub fn verify(&self, mock_id: MockId) -> (r: Result<VerificationReport, MockIdError>)
        ensures
            match self.resolution(mock_id) {
                Ok(i) => r == Ok::<VerificationReport, MockIdError>(self.records()[i].report()),
                Err(e) => r == Err::<VerificationReport, MockIdError>(e),
            },
    {
        let i = self.resolve(mock_id)?;
        Ok(self.mocks[i].verify())
    }

    pub fn generation(&self) -> (r: u64)
        ensures
            r == self.spec_generation(),
    {
        self.generation
    }

    pub fn len(&self) -> (r: usize)
        ensures
            r == self.records().len(),
    {
        self.mocks.len()
    }
}

/// Every element that a filter keeps comes from the filtered sequence.
proof fn lemma_filter_from_source<A>(s: Seq<A>, pred: spec_fn(A) -> bool)
    ensures
        forall|k: int| 0 <= k < s.filter(pred).len() ==> s.contains(#[trigger] s.filter(pred)[k]),
    decreases s.len(),
{
    reveal_with_fuel(Seq::filter, 1);
    if s.len() > 0 {
        let rest = s.drop_last();
        lemma_filter_from_source(rest, pred);
        assert forall|k: int| 0 <= k < s.filter(pred).len() implies s.contains(
            #[trigger] s.filter(pred)[k],
        ) by {
            let x = s.filter(pred)[k];
            if k < rest.filter(pred).len() {
                assert(rest.filter(pred)[k] == x);
                assert(rest.contains(x));
                let j = choose|j: int| 0 <= j < rest.len() && rest[j] == x;
                assert(s[j] == x);
            } else {
                assert(s[s.len() - 1] == x);
            }
        }
    }
}

/// First match wins: when stub `i` takes the request and no earlier stub
/// does, `i` is the one and only first match, whatever later stubs accept;
/// so `handle_request` answers with stub `i`'s template and counts the call
/// on it.
pub proof fn lemma_first_match_wins(records: Seq<ActiveMock>, request: Request, i: int)
    requires
        0 <= i < records.len(),
        records[i].accepts(request),
        forall|j: int| 0 <= j < i ==> !(#[trigger] records[j].accepts(request)),
    ensures
        has_match(records, request),
        is_first_match(records, request, i),
        forall|k: int| #[trigger] is_first_match(records, request, k) ==> k == i,
{
    assert forall|k: int| #[trigger] is_first_match(records, request, k) implies k == i by {
        if k < i {
            assert(!records[k].accepts(request));
        } else if k > i {
            assert(!records[i].accepts(request));
        }
    }
}

/// A deactivated stub takes no request any more, and deactivating it leaves
/// every report, and so what `verify_all` returns, unchanged.
pub proof fn lemma_deactivated_still_verified(records: Seq<ActiveMock>, i: int)
    requires
        0 <= i < records.len(),
    ensures
        forall|request: Request|
            !(#[trigger] records.update(i, records[i].deactivated())[i].accepts(request)),
        forall|request: Request|
            !(#[trigger] records.update(i, records[i].deactivated())[i].called().accepts(request)),
        reports_of(records.update(i, records[i].deactivated())) == reports_of(records),
        failing_reports(records.update(i, records[i].deactivated())) == failing_reports(records),
{
    let after = records.update(i, records[i].deactivated());
    assert(reports_of(after) =~= reports_of(records));
}

/// A handle stops resolving once its registry has moved on to a later
/// generation: it is refused as stale, whatever now stands at its position.
pub proof fn lemma_stale_after_reset(before: ActiveMockSet, after: ActiveMockSet, id: MockId)
    requires
        id.spec_generation() <= before.spec_generation(),
        after.spec_generation() == before.spec_generation() + 1,
    ensures
        after.resolution(id) == Err::<int, MockIdError>(MockIdError::Stale),
{
}

/// `verify_all` succeeds exactly when every stub, active or not, is
/// satisfied; otherwise it reports exactly the stubs that are not, each once
/// per stub and in registration order.
pub proof fn lemma_verify_all_outcome(records: Seq<ActiveMock>)
    ensures
        failing_reports(records).len() == 0 <==> forall|i: int|
            0 <= i < records.len() ==> (#[trigger] records[i].report()).satisfied(),
        forall|k: int|
            0 <= k < failing_reports(records).len() ==> {
                &&& !(#[trigger] failing_reports(records)[k]).satisfied()
                &&& exists|i: int|
                    0 <= i < records.len() && failing_reports(records)[k] == records[i].report()
            },
        forall|i: int|
            0 <= i < records.len() && !records[i].report().satisfied() ==> failing_reports(
                records,
            ).contains(#[trigger] records[i].report()),
{
    let reports = reports_of(records);
    let pred = |r: VerificationReport| !r.satisfied();
    broadcast use vstd::seq_lib::group_filter_ensures;
    lemma_filter_from_source(reports, pred);
    assert forall|i: int|
        0 <= i < records.len() && !records[i].report().satisfied() implies failing_reports(
            records,
        ).contains(#[trigger] records[i].report()) by {
        assert(reports[i] == records[i].report());
        reports.lemma_filter_contains(pred, i);
    }
    assert forall|k: int| 0 <= k < failing_reports(records).len() implies exists|i: int|
        0 <= i < records.len() && #[trigger] failing_reports(records)[k] == records[i].report() by {
        assert(reports.contains(reports.filter(pred)[k]));
    }
    if failing_reports(records).len() == 0 {
        assert forall|i: int| 0 <= i < records.len() implies (
        #[trigger] records[i].report()).satisfied() by {
            if !records[i].report().satisfied() {
                assert(failing_reports(records).contains(records[i].report()));
            }
        }
    } else {
        let x = failing_reports(records)[0];
        assert(reports.contains(reports.filter(pred)[0]));
        let i = choose|i: int| 0 <= i < records.len() && x == records[i].report();
        assert(!records[i].report().satisfied());
    }
}

} // verus!
