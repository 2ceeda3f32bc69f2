use vstd::prelude::*;

use crate::enumerator::{classify, CursorState, NextOutcome, ResultCursor};
use crate::error::{ErrorKind, WinfetchError};
use crate::session::{
    after_steps, after_teardown, empty_ledger, failure_kind, query_steps, reversed,
    LedgerView, Resource, ResourceLedger, Step,
};

verus! {

/// How many steps establish the session and start the query.
pub const HANDSHAKE_STEPS: usize = 5;

/// Where a query run stands.
#[derive(Clone, Copy, Debug, PartialEq, Eq, Structural)]
pub enum Stage {
    /// The given number of handshake steps have succeeded.
    Handshake(usize),
    /// Waiting for the next record.
    AwaitRecord,
    /// Reading the fields of a record; the given number are read.
    Reading(usize),
    /// All records were read and everything was released.
    Complete,
    /// A step failed and everything was released.
    Stopped,
}

/// What the caller is to do next.
#[derive(Clone, Copy, Debug, PartialEq, Eq, Structural)]
pub enum Action {
    /// Make the call of this step, then report its outcome.
    Perform(Step),
    /// Read the field of this index of the current record, then report.
    ReadField(usize),
    /// Nothing: the run is over.
    Finished,
}

/// What a report asks of the caller: the resources to release now, in this
/// order, and the error to return where the run stopped.
pub struct Report {
    pub releases: Vec<Resource>,
    pub error: Option<WinfetchError>,
}

/// The resources held once the session is up and the query runs.
pub open spec fn session_held() -> Seq<Resource> {
    seq![Resource::Context, Resource::Locator, Resource::Connection, Resource::Enumerator]
}

/// The resources held after `k` handshake steps succeeded.
pub open spec fn handshake_held(k: int) -> Seq<Resource> {
    if k <= 0 {
        Seq::empty()
    } else if k == 1 {
        seq![Resource::Context]
    } else if k == 2 {
        seq![Resource::Context, Resource::Locator]
    } else if k <= 4 {
        seq![Resource::Context, Resource::Locator, Resource::Connection]
    } else {
        session_held()
    }
}

/// The resources held at each stage.
pub open spec fn held_in(stage: Stage) -> Seq<Resource> {
    match stage {
        Stage::Handshake(k) => handshake_held(k as int),
        Stage::AwaitRecord => session_held(),
        Stage::Reading(_) => session_held().push(Resource::Record),
        Stage::Complete | Stage::Stopped => Seq::empty(),
    }
}

/// What is to be done at each stage.
pub open spec fn action_of(stage: Stage) -> Action {
    match stage {
        Stage::Handshake(k) => Action::Perform(query_steps()[k as int]),
        Stage::AwaitRecord => Action::Perform(Step::NextRecord),
        Stage::Reading(i) => Action::ReadField(i),
        Stage::Complete | Stage::Stopped => Action::Finished,
    }
}

/// The releases once a record's last field was read: the record, and where
/// only one record is wanted, the rest of the session after it.
pub open spec fn record_done_releases(first_only: bool) -> Seq<Resource> {
    if first_only {
        reversed(session_held().push(Resource::Record))
    } else {
        seq![Resource::Record]
    }
}

/// The stage after a record's last field was read.
pub open spec fn record_done_stage(first_only: bool) -> Stage {
    if first_only {
        Stage::Complete
    } else {
        Stage::AwaitRecord
    }
}

/// What a run holds after `k` handshake steps is what the ledger holds after
/// the first `k` steps of a query succeeded: the run acquires in step order.
pub proof fn lemma_handshake_follows_steps(k: nat)
    requires
        k <= HANDSHAKE_STEPS,
    ensures
        handshake_held(k as int) == after_steps(empty_ledger(), query_steps().take(k as int)).held,
    decreases k,
{
    if k > 0 {
        lemma_handshake_follows_steps((k - 1) as nat);
        let s = query_steps().take(k as int);
        assert(s.drop_last() =~= query_steps().take(k - 1));
        assert(s.last() == query_steps()[k - 1]);
        if k == 1 {
            assert(handshake_held(1) =~= handshake_held(0).push(Resource::Context));
        } else if k == 2 {
            assert(handshake_held(2) =~= handshake_held(1).push(Resource::Locator));
        } else if k == 3 {
            assert(handshake_held(3) =~= handshake_held(2).push(Resource::Connection));
        } else if k == 5 {
            assert(handshake_held(5) =~= handshake_held(4).push(Resource::Enumerator));
        }
    }
}

/// A query from session handshake to teardown, as a machine: it says which
/// step to take, takes in each outcome, and says what to release and when,
/// so that whatever fails, all that was acquired is released once.
pub struct QueryRun {
    ledger: ResourceLedger,
    cursor: ResultCursor,
    fields: usize,
    first_only: bool,
    stage: Stage,
}

impl QueryRun {
    pub closed spec fn stage(&self) -> Stage {
        self.stage
    }

    pub closed spec fn ledger(&self) -> LedgerView {
        self.ledger@
    }

    pub closed spec fn fields(&self) -> nat {
        self.fields as nat
    }

    pub closed spec fn first_only(&self) -> bool {
        self.first_only
    }

    pub closed spec fn records(&self) -> nat {
        self.cursor@.yielded
    }

    pub closed spec fn wf(&self) -> bool {
        &&& self.ledger.wf()
        &&& self.ledger@.held == held_in(self.stage)
        &&& self.cursor@.state == CursorState::Open || self.stage == Stage::Complete || self.stage
            == Stage::Stopped
        &&& (self.stage matches Stage::Handshake(k) ==> k < HANDSHAKE_STEPS)
        &&& (self.stage matches Stage::Reading(i) ==> i < self.fields)
    }

    /// Whether the counters have room for the next report.
    pub closed spec fn has_room(&self) -> bool {
        self.ledger@.acquired + 2 <= u64::MAX && self.cursor@.yielded < u64::MAX
    }

    /// A run that reads `fields` fields of each record, of the first record
    /// only where `first_only`.
    pub fn new(fields: usize, first_only: bool) -> (q: QueryRun)
        ensures
            q.wf(),
            q.has_room(),
            q.stage() == Stage::Handshake(0),
            q.ledger() == (LedgerView { held: Seq::empty(), acquired: 0, released: 0 }),
            q.fields() == fields,
            q.first_only() == first_only,
            q.records() == 0,
    {
        QueryRun {
            ledger: ResourceLedger::new(),
            cursor: ResultCursor::new(),
            fields,
            first_only,
            stage: Stage::Handshake(0),
        }
    }

    pub fn next_action(&self) -> (a: Action)
        requires
            self.wf(),
        ensures
            a == action_of(self.stage()),
    {
        match self.stage {
            Stage::Handshake(k) => {
                let s = if k == 0 {
                    Step::InitializeContext
                } else if k == 1 {
                    Step::CreateLocator
                } else if k == 2 {
                    Step::ConnectNamespace
                } else if k == 3 {
                    Step::NegotiateSecurity
                } else {
                    Step::ExecuteQuery
                };
                Action::Perform(s)
            },
            Stage::AwaitRecord => Action::Perform(Step::NextRecord),
            Stage::Reading(i) => Action::ReadField(i),
            Stage::Complete | Stage::Stopped => Action::Finished,
        }
    }

    /// Whether the counters have room for the next report; where they have
    /// none, the run cannot go on.
    pub fn room(&self) -> (b: bool)
        ensures
            b == self.has_room(),
    {
        self.ledger.acquired() <= u64::MAX - 2 && self.cursor.yielded() < u64::MAX
    }

    pub fn current_stage(&self) -> (s: Stage)
        ensures
            s == self.stage(),
    {
        self.stage
    }

    /// Gives up the run where it stands: everything held is released,
    /// innermost first, and the run stops with an enumeration error.
    pub fn abandon(&mut self) -> (r: Report)
        requires
            old(self).wf(),
        ensures
            final(self).wf(),
            final(self).stage() == Stage::Stopped,
            final(self).ledger() == after_teardown(old(self).ledger()),
            final(self).ledger().acquired == final(self).ledger().released,
            r.releases@ == reversed(old(self).ledger().held),
            r.error matches Some(e) && e.0 == ErrorKind::Enumeration,
    {
        self.stop(Step::NextRecord)
    }

    pub fn is_finished(&self) -> (b: bool)
        ensures
            b == (self.stage() == Stage::Complete || self.stage() == Stage::Stopped),
    {
        match self.stage {
            Stage::Complete | Stage::Stopped => true,
            _ => false,
        }
    }

    pub fn acquired(&self) -> (n: u64)
        ensures
            n == self.ledger().acquired,
    {
        self.ledger.acquired()
    }

    pub fn released(&self) -> (n: u64)
        ensures
            n == self.ledger().released,
    {
        self.ledger.released()
    }

    fn stop(&mut self, step: Step) -> (r: Report)
        requires
            old(self).ledger.wf(),
        ensures
            final(self).ledger.wf(),
            final(self).ledger@ == after_teardown(old(self).ledger@),
            final(self).stage == Stage::Stopped,
            final(self).cursor == old(self).cursor,
            final(self).fields == old(self).fields,
            final(self).first_only == old(self).first_only,
            r.releases@ == reversed(old(self).ledger@.held),
            r.error matches Some(e) && e.0 == failure_kind(step),
    {
        let (releases, e) = self.ledger.abort(step);
        self.stage = Stage::Stopped;
        Report { releases, error: Some(e) }
    }

    /// The record's fields are read: release it, and end the run where only
    /// one record is wanted.
    fn finish_record(&mut self, mut releases: Vec<Resource>) -> (r: Report)
        requires
            old(self).ledger.wf(),
            old(self).ledger@.held == session_held().push(Resource::Record),
            old(self).cursor@.state == CursorState::Open,
        ensures
            final(self).wf(),
            final(self).stage == record_done_stage(old(self).first_only),
            final(self).ledger@.acquired == old(self).ledger@.acquired,
            final(self).cursor == old(self).cursor,
            final(self).fields == old(self).fields,
            final(self).first_only == old(self).first_only,
            r.releases@ == releases@ + record_done_releases(old(self).first_only),
            r.error is None,
    {
        if self.first_only {
            let ghost before = releases@;
            let mut rest = self.ledger.teardown();
            releases.append(&mut rest);
            self.stage = Stage::Complete;
            assert(releases@ =~= before + record_done_releases(true));
        } else {
            let ghost before = releases@;
            let r = self.ledger.release_last();
            releases.push(r.unwrap());
            self.stage = Stage::AwaitRecord;
            assert(self.ledger@.held =~= session_held());
            assert(releases@ =~= before + record_done_releases(false));
        }
        Report { releases, error: None }
    }

    /// Takes in whether the step of `next_action` succeeded: a handshake step,
    /// or the read of a field (whose value the caller has taken by now).
    pub fn report(&mut self, ok: bool) -> (r: Report)
        requires
            old(self).wf(),
            old(self).has_room(),
            old(self).stage() matches Stage::Handshake(_) || old(self).stage() matches Stage::Reading(_),
        ensures
            final(self).wf(),
            final(self).fields() == old(self).fields(),
            final(self).first_only() == old(self).first_only(),
            final(self).records() == old(self).records(),
            final(self).ledger().acquired <= old(self).ledger().acquired + 1,
            !ok ==> final(self).stage() == Stage::Stopped,
            !ok ==> r.releases@ == reversed(old(self).ledger().held),
            !ok ==> (r.error matches Some(e) && e.0 == failure_kind(
                match action_of(old(self).stage()) {
                    Action::Perform(s) => s,
                    _ => Step::ReadProperty,
                },
            )),
            ok ==> r.error is None,
            ok ==> (old(self).stage() matches Stage::Handshake(k) ==> r.releases@.len() == 0
                && final(self).stage() == (if k + 1 == HANDSHAKE_STEPS {
                Stage::AwaitRecord
            } else {
                Stage::Handshake((k + 1) as usize)
            })),
            ok ==> (old(self).stage() matches Stage::Reading(i) ==> (if i + 1 < old(self).fields() {
                r.releases@ == seq![Resource::Value] && final(self).stage() == Stage::Reading(
                    (i + 1) as usize,
                )
            } else {
                r.releases@ == seq![Resource::Value] + record_done_releases(old(self).first_only())
                    && final(self).stage() == record_done_stage(old(self).first_only())
            })),
            final(self).stage() == Stage::Complete || final(self).stage() == Stage::Stopped
                ==> final(self).ledger().acquired == final(self).ledger().released,
    {
        match self.stage {
            Stage::Handshake(k) => {
                let step = if k == 0 {
                    Step::InitializeContext
                } else if k == 1 {
                    Step::CreateLocator
                } else if k == 2 {
                    Step::ConnectNamespace
                } else if k == 3 {
                    Step::NegotiateSecurity
                } else {
                    Step::ExecuteQuery
                };
                assert(step == query_steps()[k as int]);
                if !ok {
                    return self.stop(step);
                }
                self.ledger.succeeded(step);
                self.stage = if k + 1 == HANDSHAKE_STEPS {
                    Stage::AwaitRecord
                } else {
                    Stage::Handshake(k + 1)
                };
                assert(self.ledger@.held =~= held_in(self.stage));
                Report { releases: Vec::new(), error: None }
            },
            Stage::Reading(i) => {
                if !ok {
                    return self.stop(Step::ReadProperty);
                }
                self.ledger.succeeded(Step::ReadProperty);
                let v = self.ledger.release_last();
                let mut releases: Vec<Resource> = Vec::new();
                releases.push(v.unwrap());
                assert(self.ledger@.held =~= session_held().push(Resource::Record));
                if i + 1 < self.fields {
                    self.stage = Stage::Reading(i + 1);
                    Report { releases, error: None }
                } else {
                    self.finish_record(releases)
                }
            },
            _ => {
                Report { releases: Vec::new(), error: None }
            },
        }
    }

    /// Takes in what an advance of the enumerator reported: `status`, and
    /// how many records it handed out (one was asked for).
    pub fn report_next(&mut self, status: i32, returned: u32) -> (r: Report)
        requires
            old(self).wf(),
            old(self).has_room(),
            old(self).stage() == Stage::AwaitRecord,
        ensures
            final(self).wf(),
            final(self).fields() == old(self).fields(),
            final(self).first_only() == old(self).first_only(),
            final(self).ledger().acquired <= old(self).ledger().acquired + 1,
            classify(status, returned) == NextOutcome::Record ==> final(self).records()
                == old(self).records() + 1 && r.error is None && (if old(self).fields() > 0 {
                r.releases@.len() == 0 && final(self).stage() == Stage::Reading(0)
            } else {
                r.releases@ == record_done_releases(old(self).first_only()) && final(self).stage()
                    == record_done_stage(old(self).first_only())
            }),
            classify(status, returned) == NextOutcome::EndOfResults ==> final(self).records()
                == old(self).records() && r.error is None && r.releases@ == reversed(session_held())
                && final(self).stage() == Stage::Complete,
            classify(status, returned) == NextOutcome::Failed ==> final(self).records()
                == old(self).records() && (r.error matches Some(e) && e.0 == ErrorKind::Enumeration)
                && r.releases@ == reversed(session_held()) && final(self).stage() == Stage::Stopped,
            final(self).stage() == Stage::Complete || final(self).stage() == Stage::Stopped
                ==> final(self).ledger().acquired == final(self).ledger().released,
    {
        match self.cursor.advance(status, returned) {
            NextOutcome::Record => {
                self.ledger.succeeded(Step::NextRecord);
                if self.fields > 0 {
                    self.stage = Stage::Reading(0);
                    assert(self.ledger@.held =~= held_in(self.stage));
                    Report { releases: Vec::new(), error: None }
                } else {
                    assert(self.ledger@.held =~= session_held().push(Resource::Record));
                    self.finish_record(Vec::new())
                }
            },
            NextOutcome::EndOfResults => {
                let releases = self.ledger.teardown();
                self.stage = Stage::Complete;
                Report { releases, error: None }
            },
            NextOutcome::Failed => self.stop(Step::NextRecord),
        }
    }
}

} // verus!
