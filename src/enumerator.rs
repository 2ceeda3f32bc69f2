use vstd::prelude::*;

verus! {

/// Status of an advance that returned what was asked for.
pub const WBEM_S_NO_ERROR: i32 = 0;

/// Status of an advance that returned fewer records than asked for: the end.
pub const WBEM_S_FALSE: i32 = 1;

/// What one advance of a forward-only enumerator gave.
#[derive(Clone, Copy, Debug, PartialEq, Eq, Structural)]
pub enum NextOutcome {
    /// One more record, now owned by the caller.
    Record,
    /// No more records: the end, which is no error.
    EndOfResults,
    /// The advance itself failed.
    Failed,
}

/// Where an enumeration stands.
#[derive(Clone, Copy, Debug, PartialEq, Eq, Structural)]
pub enum CursorState {
    Open,
    Ended,
    Failed,
}

/// What an advance that reported `status` and handed out `returned` records
/// (one was asked for) means.
pub open spec fn classify(status: i32, returned: u32) -> NextOutcome {
    if status == WBEM_S_FALSE || (status == WBEM_S_NO_ERROR && returned == 0) {
        NextOutcome::EndOfResults
    } else if status == WBEM_S_NO_ERROR {
        NextOutcome::Record
    } else {
        NextOutcome::Failed
    }
}

/// The state of an enumeration: how many records it yielded, and whether it
/// is still open.
pub struct CursorView {
    pub yielded: nat,
    pub state: CursorState,
}

/// The cursor after one advance that reported `status` and `returned`.
pub open spec fn after_advance(c: CursorView, status: i32, returned: u32) -> CursorView {
    if c.state != CursorState::Open {
        c
    } else {
        match classify(status, returned) {
            NextOutcome::Record => CursorView { yielded: c.yielded + 1, state: CursorState::Open },
            NextOutcome::EndOfResults => CursorView { yielded: c.yielded, state: CursorState::Ended },
            NextOutcome::Failed => CursorView { yielded: c.yielded, state: CursorState::Failed },
        }
    }
}

/// The cursor after advances that reported each of `events` in turn.
pub open spec fn after_advances(c: CursorView, events: Seq<(i32, u32)>) -> CursorView
    decreases events.len(),
{
    if events.len() == 0 {
        c
    } else {
        let e = events.last();
        after_advance(after_advances(c, events.drop_last()), e.0, e.1)
    }
}

/// The statuses that a result set of `n` records produces: `n` records, one
/// at a time, then the end.
pub open spec fn result_set_events(n: nat) -> Seq<(i32, u32)> {
    Seq::new(n, |i: int| (WBEM_S_NO_ERROR, 1u32)).push((WBEM_S_FALSE, 0u32))
}

/// The bookkeeping of a forward-only, non-restartable enumeration: it
/// counts the records handed out and, once it has ended or failed, stays so.
pub struct ResultCursor {
    yielded: u64,
    state: CursorState,
}

impl View for ResultCursor {
    type V = CursorView;

    closed spec fn view(&self) -> CursorView {
        CursorView { yielded: self.yielded as nat, state: self.state }
    }
}

impl ResultCursor {
    pub fn new() -> (c: ResultCursor)
        ensures
            c@ == (CursorView { yielded: 0, state: CursorState::Open }),
    {
        ResultCursor { yielded: 0, state: CursorState::Open }
    }

    /// Takes in the outcome of one advance. An advance after the end or a
    /// failure changes nothing and is reported as what ended the enumeration.
    pub fn advance(&mut self, status: i32, returned: u32) -> (r: NextOutcome)
        requires
            old(self)@.yielded < u64::MAX,
        ensures
            final(self)@ == after_advance(old(self)@, status, returned),
            old(self)@.state == CursorState::Open ==> r == classify(status, returned),
            old(self)@.state == CursorState::Ended ==> r == NextOutcome::EndOfResults,
            old(self)@.state == CursorState::Failed ==> r == NextOutcome::Failed,
    {
        match self.state {
            CursorState::Ended => NextOutcome::EndOfResults,
            CursorState::Failed => NextOutcome::Failed,
            CursorState::Open => {
                if status == WBEM_S_FALSE || (status == WBEM_S_NO_ERROR && returned == 0) {
                    self.state = CursorState::Ended;
                    NextOutcome::EndOfResults
                } else if status == WBEM_S_NO_ERROR {
                    self.yielded = self.yielded + 1;
                    NextOutcome::Record
                } else {
                    self.state = CursorState::Failed;
                    NextOutcome::Failed
                }
            },
        }
    }

    pub fn yielded(&self) -> (n: u64)
        ensures
            n == self@.yielded,
    {
        self.yielded
    }

    pub fn state(&self) -> (s: CursorState)
        ensures
            s == self@.state,
    {
        self.state
    }
}

proof fn lemma_records_only(n: nat)
    ensures
        after_advances(
            CursorView { yielded: 0, state: CursorState::Open },
            Seq::new(n, |i: int| (WBEM_S_NO_ERROR, 1u32)),
        ) == (CursorView { yielded: n, state: CursorState::Open }),
    decreases n,
{
    let s = Seq::new(n, |i: int| (WBEM_S_NO_ERROR, 1u32));
    if n > 0 {
        lemma_records_only((n - 1) as nat);
        assert(s.drop_last() =~= Seq::new((n - 1) as nat, |i: int| (WBEM_S_NO_ERROR, 1u32)));
    }
}

/// A result set of `n` records yields exactly `n` records and then the end,
/// with no error; for `n == 0`, no record at all.
pub proof fn lemma_result_set_of_n(n: nat)
    ensures
        after_advances(CursorView { yielded: 0, state: CursorState::Open }, result_set_events(n))
            == (CursorView { yielded: n, state: CursorState::Ended }),
{
    let s = result_set_events(n);
    lemma_records_only(n);
    assert(s.drop_last() =~= Seq::new(n, |i: int| (WBEM_S_NO_ERROR, 1u32)));
}

/// How many of `events` hand out a record.
pub open spec fn record_events(events: Seq<(i32, u32)>) -> nat
    decreases events.len(),
{
    if events.len() == 0 {
        0
    } else {
        record_events(events.drop_last()) + if classify(events.last().0, events.last().1)
            == NextOutcome::Record {
            1nat
        } else {
            0nat
        }
    }
}

/// Whatever the statuses, an enumeration never yields more records than the
/// advances that handed one out.
pub proof fn lemma_never_more_than_handed_out(events: Seq<(i32, u32)>)
    ensures
        after_advances(CursorView { yielded: 0, state: CursorState::Open }, events).yielded
            <= record_events(events),
    decreases events.len(),
{
    if events.len() > 0 {
        lemma_never_more_than_handed_out(events.drop_last());
    }
}

} // verus!
