use vstd::prelude::*;

use crate::error::{ErrorKind, WinfetchError};

verus! {

/// The resources a query acquires, from the shared subsystem context down to
/// a decoded field value.
#[derive(Clone, Copy, Debug, PartialEq, Eq, Structural)]
pub enum Resource {
    Context,
    Locator,
    Connection,
    Enumerator,
    Record,
    Value,
}

/// The steps of one query, in the order they are taken.
#[derive(Clone, Copy, Debug, PartialEq, Eq, Structural)]
pub enum Step {
    InitializeContext,
    CreateLocator,
    ConnectNamespace,
    NegotiateSecurity,
    ExecuteQuery,
    NextRecord,
    ReadProperty,
}

/// The resource that a successful step leaves to be released, if any.
pub open spec fn acquired_by(step: Step) -> Option<Resource> {
    match step {
        Step::InitializeContext => Some(Resource::Context),
        Step::CreateLocator => Some(Resource::Locator),
        Step::ConnectNamespace => Some(Resource::Connection),
        Step::NegotiateSecurity => None,
        Step::ExecuteQuery => Some(Resource::Enumerator),
        Step::NextRecord => Some(Resource::Record),
        Step::ReadProperty => Some(Resource::Value),
    }
}

/// The kind of error that a failure of `step` is reported as.
pub open spec fn failure_kind(step: Step) -> ErrorKind {
    match step {
        Step::InitializeContext | Step::CreateLocator | Step::ConnectNamespace
        | Step::NegotiateSecurity => ErrorKind::Connection,
        Step::ExecuteQuery => ErrorKind::Query,
        Step::NextRecord => ErrorKind::Enumeration,
        Step::ReadProperty => ErrorKind::PropertyMissing,
    }
}

/// The steps of a query that reads one field of one record.
pub open spec fn query_steps() -> Seq<Step> {
    seq![
        Step::InitializeContext,
        Step::CreateLocator,
        Step::ConnectNamespace,
        Step::NegotiateSecurity,
        Step::ExecuteQuery,
        Step::NextRecord,
        Step::ReadProperty,
    ]
}

/// The mathematical state of a ledger: what is held, innermost last, and how
/// many acquisitions and releases it has counted.
pub struct LedgerView {
    pub held: Seq<Resource>,
    pub acquired: nat,
    pub released: nat,
}

/// The resources held by a query in progress, in the order of acquisition.
/// Every acquisition is recorded here, and every release goes through here,
/// so that whatever step fails, everything held is released once, innermost
/// first.
pub struct ResourceLedger {
    held: Vec<Resource>,
    acquired: u64,
    released: u64,
}

pub open spec fn empty_ledger() -> LedgerView {
    LedgerView { held: Seq::empty(), acquired: 0, released: 0 }
}

/// The ledger after `step` succeeded.
pub open spec fn after_success(l: LedgerView, step: Step) -> LedgerView {
    match acquired_by(step) {
        Some(r) => LedgerView { held: l.held.push(r), acquired: l.acquired + 1, released: l.released },
        None => l,
    }
}

/// The ledger after all that it holds was released.
pub open spec fn after_teardown(l: LedgerView) -> LedgerView {
    LedgerView { held: Seq::empty(), acquired: l.acquired, released: l.released + l.held.len() }
}

/// The ledger after each of `steps` succeeded in turn.
pub open spec fn after_steps(l: LedgerView, steps: Seq<Step>) -> LedgerView
    decreases steps.len(),
{
    if steps.len() == 0 {
        l
    } else {
        after_success(after_steps(l, steps.drop_last()), steps.last())
    }
}

/// `s` in reverse order.
pub open spec fn reversed<T>(s: Seq<T>) -> Seq<T> {
    Seq::new(s.len(), |i: int| s[s.len() - 1 - i])
}

impl View for ResourceLedger {
    type V = LedgerView;

    closed spec fn view(&self) -> LedgerView {
        LedgerView { held: self.held@, acquired: self.acquired as nat, released: self.released as nat }
    }
}

impl ResourceLedger {
    /// Acquisitions balance releases and what is still held.
    pub open spec fn wf(&self) -> bool {
        self@.acquired == self@.released + self@.held.len()
    }

    pub fn new() -> (l: ResourceLedger)
        ensures
            l.wf(),
            l@ == empty_ledger(),
    {
        ResourceLedger { held: Vec::new(), acquired: 0, released: 0 }
    }

    /// Records that `step` succeeded, and the resource it acquired.
    pub fn succeeded(&mut self, step: Step)
        requires
            old(self).wf(),
            old(self)@.acquired < u64::MAX,
        ensures
            final(self).wf(),
            final(self)@ == after_success(old(self)@, step),
    {
        let r = match step {
            Step::InitializeContext => Some(Resource::Context),
            Step::CreateLocator => Some(Resource::Locator),
            Step::ConnectNamespace => Some(Resource::Connection),
            Step::NegotiateSecurity => None,
            Step::ExecuteQuery => Some(Resource::Enumerator),
            Step::NextRecord => Some(Resource::Record),
            Step::ReadProperty => Some(Resource::Value),
        };
        if let Some(r) = r {
            self.held.push(r);
            self.acquired = self.acquired + 1;
        }
    }

    /// Releases the resource acquired last, if any, and says which it was.
    pub fn release_last(&mut self) -> (r: Option<Resource>)
        requires
            old(self).wf(),
        ensures
            final(self).wf(),
            old(self)@.held.len() == 0 ==> r is None && final(self)@ == old(self)@,
            old(self)@.held.len() > 0 ==> r == Some(old(self)@.held.last()) && final(self)@
                == (LedgerView {
                held: old(self)@.held.drop_last(),
                acquired: old(self)@.acquired,
                released: old(self)@.released + 1,
            }),
    {
        let r = self.held.pop();
        if r.is_some() {
            self.released = self.released + 1;
        }
        r
    }

    /// Releases everything held and returns it in the order of release:
    /// the reverse of the order of acquisition.
    pub fn teardown(&mut self) -> (r: Vec<Resource>)
        requires
            old(self).wf(),
        ensures
            final(self).wf(),
            final(self)@ == after_teardown(old(self)@),
            r@ == reversed(old(self)@.held),
    {
        let mut r: Vec<Resource> = Vec::new();
        let ghost h = self.held@;
        while self.held.len() > 0
            invariant
                self.wf(),
                self.held@.len() <= h.len(),
                self.held@ == h.subrange(0, self.held@.len() as int),
                self.acquired == old(self).acquired,
                self.released == old(self).released + (h.len() - self.held@.len()),
                h == old(self).held@,
                r@ == reversed(h).subrange(0, h.len() - self.held@.len()),
            decreases self.held.len(),
        {
            let x = self.held.pop().unwrap();
            self.released = self.released + 1;
            r.push(x);
            assert(self.held@ =~= h.subrange(0, self.held@.len() as int));
            assert(r@ =~= reversed(h).subrange(0, h.len() - self.held@.len()));
        }
        assert(r@ =~= reversed(h));
        assert(self.held@ =~= Seq::<Resource>::empty());
        r
    }

    /// A failure of `step`: releases everything held, innermost first, and
    /// gives the releases in order together with the error to report.
    pub fn abort(&mut self, step: Step) -> (r: (Vec<Resource>, WinfetchError))
        requires
            old(self).wf(),
        ensures
            final(self).wf(),
            final(self)@ == after_teardown(old(self)@),
            r.0@ == reversed(old(self)@.held),
            r.1.0 == failure_kind(step),
    {
        let releases = self.teardown();
        let e = match step {
            Step::InitializeContext => WinfetchError::new(ErrorKind::Connection, "failed to initialize the subsystem context"),
            Step::CreateLocator => WinfetchError::new(ErrorKind::Connection, "failed to create the locator"),
            Step::ConnectNamespace => WinfetchError::new(ErrorKind::Connection, "failed to connect to the namespace"),
            Step::NegotiateSecurity => WinfetchError::new(ErrorKind::Connection, "failed to set the security level"),
            Step::ExecuteQuery => WinfetchError::new(ErrorKind::Query, "failed to execute the query"),
            Step::NextRecord => WinfetchError::new(ErrorKind::Enumeration, "failed to advance the enumeration"),
            Step::ReadProperty => WinfetchError::new(ErrorKind::PropertyMissing, "failed to read a property of the record"),
        };
        (releases, e)
    }

    pub fn acquired(&self) -> (n: u64)
        ensures
            n == self@.acquired,
    {
        self.acquired
    }

    pub fn released(&self) -> (n: u64)
        ensures
            n == self@.released,
    {
        self.released
    }

    pub fn held(&self) -> (n: usize)
        ensures
            n == self@.held.len(),
    {
        self.held.len()
    }
}

proof fn lemma_steps_balance(steps: Seq<Step>)
    ensures
        after_steps(empty_ledger(), steps).acquired == after_steps(empty_ledger(), steps).held.len(),
        after_steps(empty_ledger(), steps).released == 0,
    decreases steps.len(),
{
    if steps.len() > 0 {
        lemma_steps_balance(steps.drop_last());
    }
}

/// Whichever step of a query fails, after the teardown that follows every
/// resource acquired by the steps before it has been released exactly once:
/// releases equal acquisitions and nothing is held.
pub proof fn lemma_failure_releases_everything(failed_at: nat)
    requires
        failed_at < query_steps().len(),
    ensures
        ({
            let l = after_teardown(after_steps(empty_ledger(), query_steps().take(failed_at as int)));
            l.released == l.acquired && l.held.len() == 0
        }),
{
    lemma_steps_balance(query_steps().take(failed_at as int));
}

} // verus!
