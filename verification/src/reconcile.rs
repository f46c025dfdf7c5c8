//! The reconciliation engine for the auto-open registry.  At startup
//! every registered container is validated and opened, failing fast on
//! the first record that cannot be opened.  At shutdown every
//! registered container is closed, re-attempting all not-yet-closed
//! records until each one has succeeded; the driver runs that loop in a
//! short shutdown window.

use vstd::prelude::*;

verus! {

use crate::errors::SecureContainerErr;
use crate::lifecycle::Action;
use crate::lifecycle::CloseFlow;
use crate::lifecycle::Event;
use crate::lifecycle::OpenFlow;
use crate::lifecycle::close_transition;
use crate::lifecycle::open_transition;
use crate::requests::Close;
use crate::requests::Open;

/// Every record carries at least the four fields an operation needs.
pub open spec fn usable_records(records: Seq<Seq<Seq<char>>>) -> bool {
    forall|k: int| 0 <= k < records.len() ==> (#[trigger] records[k]).len() >= 4
}

/// The open request a registry record describes.
pub open spec fn record_open_request(rec: Seq<Seq<char>>, req: Open) -> bool {
    req.mount_point@ == rec[0] && req.path@ == rec[1] && req.namespace@ == rec[2] && req.id@
        == rec[3]
}

/// The close request a registry record describes.
pub open spec fn record_close_request(rec: Seq<Seq<char>>, req: Close) -> bool {
    req.mount_point@ == rec[0] && req.namespace@ == rec[2]
}

/// The state of the startup reconciliation: the records still to open,
/// the one currently opening, and the open in flight for it.
pub enum ReconcileOpen {
    Running { records: Vec<Vec<String>>, idx: usize, inner: OpenFlow },
    Done,
    Failed { error: SecureContainerErr },
}

impl ReconcileOpen {
    /// Whether the reconciliation is still running.
    pub open spec fn in_progress(self) -> bool {
        self is Running
    }

    /// The current record exists and every record is usable.
    pub open spec fn wf(self) -> bool {
        match self {
            ReconcileOpen::Running { records, idx, inner } => idx < records.deep_view().len()
                && usable_records(records.deep_view()) && inner.in_progress(),
            _ => true,
        }
    }

    /// The event kind the state is waiting on.
    pub open spec fn accepts(self, e: Event) -> bool {
        match self {
            ReconcileOpen::Running { inner, .. } => inner.accepts(e),
            _ => false,
        }
    }

    /// Feeds the outcome of the pending action.  The first record whose
    /// open fails aborts the whole reconciliation with its error.
    pub fn step(self, event: Event) -> (r: (ReconcileOpen, Option<Action>))
        requires
            self.wf(),
            self.accepts(event),
        ensures
            r.0.wf(),
            reconcile_open_transition(self, event, r.0, r.1),
    {
        match (self, event) {
            (ReconcileOpen::Running { records, idx, inner }, e) => {
                let n = records.len();
                let ghost inner0 = inner;
                let (inner2, act) = inner.step(e);
                proof {
                    assert(open_transition(inner0, e, inner2, act));
                }
                match inner2 {
                    OpenFlow::Failed { error } => (ReconcileOpen::Failed { error }, None),
                    OpenFlow::Done => {
                        if idx + 1 == n {
                            (ReconcileOpen::Done, None)
                        } else {
                            let (next, action) = open_record(&records, idx + 1);
                            (
                                ReconcileOpen::Running { records, idx: idx + 1, inner: next },
                                Some(action),
                            )
                        }
                    },
                    other => (ReconcileOpen::Running { records, idx, inner: other }, act),
                }
            },
            // excluded by the precondition
            _ => (ReconcileOpen::Done, None),
        }
    }
}

/// Begins the startup reconciliation over the given registry records:
/// an empty registry is already done, otherwise the first record's
/// open starts.
pub fn auto_open(records: Vec<Vec<String>>) -> (r: (ReconcileOpen, Option<Action>))
    requires
        usable_records(records.deep_view()),
    ensures
        r.0.wf(),
        records.deep_view().len() == 0 ==> r.0 == ReconcileOpen::Done && r.1 is None,
        records.deep_view().len() > 0 ==> reconcile_open_at(records, 0, r.0, r.1),
{
    if records.len() == 0 {
        (ReconcileOpen::Done, None)
    } else {
        let (inner, action) = open_record(&records, 0);
        (ReconcileOpen::Running { records, idx: 0, inner }, Some(action))
    }
}

/// A fresh open flow for record `idx`, with its first action.
fn open_record(records: &Vec<Vec<String>>, idx: usize) -> (r: (OpenFlow, Action))
    requires
        idx < records.deep_view().len(),
        usable_records(records.deep_view()),
    ensures
        r.0 matches OpenFlow::Validating { req } && record_open_request(
            records.deep_view()[idx as int],
            req,
        ),
        r.1 matches Action::ProbeEnv { mount_point: Some(mp), path: Some(p) } && mp@
            == records.deep_view()[idx as int][0] && p@ == records.deep_view()[idx as int][1],
{
    let rec = &records[idx];
    proof {
        assert(rec.deep_view() == records.deep_view()[idx as int]);
        assert(rec.deep_view()[0] == rec@[0]@);
        assert(rec.deep_view()[1] == rec@[1]@);
        assert(rec.deep_view()[2] == rec@[2]@);
        assert(rec.deep_view()[3] == rec@[3]@);
    }
    let req = Open {
        mount_point: rec[0].clone(),
        path: rec[1].clone(),
        namespace: rec[2].clone(),
        id: rec[3].clone(),
    };
    OpenFlow::start(req)
}

/// A running reconciliation stands at record `idx` with a fresh open.
pub open spec fn reconcile_open_at(
    records: Vec<Vec<String>>,
    idx: int,
    t: ReconcileOpen,
    a: Option<Action>,
) -> bool {
    (t matches ReconcileOpen::Running { records: r2, idx: i2, inner } && r2 == records && i2
        == idx && (inner matches OpenFlow::Validating { req } && record_open_request(
        records.deep_view()[idx],
        req,
    ))) && (a matches Some(Action::ProbeEnv { mount_point: Some(mp), path: Some(p) }) && mp@
        == records.deep_view()[idx][0] && p@ == records.deep_view()[idx][1])
}

/// How the startup reconciliation wraps each outcome of the open in
/// flight: a failure is the reconciliation's failure (fail fast), a
/// finished open moves to the next record or completes the run, and
/// anything else keeps the current open going.
pub open spec fn reconcile_open_glue(
    records: Vec<Vec<String>>,
    idx: int,
    ti: OpenFlow,
    ai: Option<Action>,
    t: ReconcileOpen,
    a: Option<Action>,
) -> bool {
    match ti {
        OpenFlow::Failed { error } => t == (ReconcileOpen::Failed { error }) && a is None,
        OpenFlow::Done => {
            if idx + 1 == records.deep_view().len() {
                t == ReconcileOpen::Done && a is None
            } else {
                reconcile_open_at(records, idx + 1, t, a)
            }
        },
        _ => t == (ReconcileOpen::Running { records, idx: idx as usize, inner: ti }) && a == ai,
    }
}

/// The transition relation of the startup reconciliation.
pub open spec fn reconcile_open_transition(
    s: ReconcileOpen,
    e: Event,
    t: ReconcileOpen,
    a: Option<Action>,
) -> bool {
    match s {
        ReconcileOpen::Running { records, idx, inner } => exists|ti: OpenFlow, ai: Option<Action>|
            #[trigger] open_transition(inner, e, ti, ai) && reconcile_open_glue(
                records,
                idx as int,
                ti,
                ai,
                t,
                a,
            ),
        _ => false,
    }
}

/// The first not-yet-closed record at or after `from`.
pub open spec fn first_unclosed_from(closed: Seq<bool>, from: int) -> Option<int>
    decreases closed.len() - from,
{
    if from < 0 || from >= closed.len() {
        None
    } else if !closed[from] {
        Some(from)
    } else {
        first_unclosed_from(closed, from + 1)
    }
}

/// The next not-yet-closed record, searching from `from` and wrapping
/// around to the front.
pub open spec fn next_unclosed(closed: Seq<bool>, from: int) -> Option<int> {
    match first_unclosed_from(closed, from) {
        Some(j) => Some(j),
        None => first_unclosed_from(closed, 0),
    }
}

proof fn lemma_first_unclosed_finds(closed: Seq<bool>, from: int, w: int)
    requires
        0 <= from <= w < closed.len(),
        !closed[w],
    ensures
        first_unclosed_from(closed, from) is Some,
    decreases w - from,
{
    if from < w && closed[from] {
        lemma_first_unclosed_finds(closed, from + 1, w);
    }
}

proof fn lemma_first_unclosed_sound(closed: Seq<bool>, from: int)
    ensures
        first_unclosed_from(closed, from) matches Some(j) ==> from <= j < closed.len()
            && !closed[j],
    decreases closed.len() - from,
{
    if 0 <= from < closed.len() && closed[from] {
        lemma_first_unclosed_sound(closed, from + 1);
    }
}

/// Finds the next not-yet-closed record, wrapping around.
fn find_next_unclosed(closed: &Vec<bool>, from: usize) -> (r: Option<usize>)
    requires
        from <= closed@.len(),
    ensures
        match r {
            Some(j) => Some(j as int) == next_unclosed(closed@, from as int),
            None => next_unclosed(closed@, from as int) is None,
        },
{
    let n = closed.len();
    let mut j: usize = from;
    while j < n
        invariant
            from <= j <= n,
            n == closed@.len(),
            first_unclosed_from(closed@, from as int) == first_unclosed_from(closed@, j as int),
        decreases n - j,
    {
        if !closed[j] {
            return Some(j);
        }
        j = j + 1;
    }
    let mut k: usize = 0;
    while k < n
        invariant
            0 <= k <= n,
            n == closed@.len(),
            first_unclosed_from(closed@, from as int) is None,
            first_unclosed_from(closed@, 0) == first_unclosed_from(closed@, k as int),
        decreases n - k,
    {
        if !closed[k] {
            return Some(k);
        }
        k = k + 1;
    }
    None
}

/// The state of the shutdown reconciliation: which records are already
/// closed, the record whose close is in flight, and that close.
pub enum AutoCloseFlow {
    Running { records: Vec<Vec<String>>, closed: Vec<bool>, idx: usize, inner: CloseFlow },
    Done,
}

impl AutoCloseFlow {
    /// Whether the reconciliation is still running.
    pub open spec fn in_progress(self) -> bool {
        self is Running
    }

    /// The bookkeeping invariant: one closed flag per record, the
    /// current record exists and is not yet closed, and every record is
    /// usable.
    pub open spec fn wf(self) -> bool {
        match self {
            AutoCloseFlow::Running { records, closed, idx, inner } => closed@.len()
                == records.deep_view().len() && idx < records.deep_view().len() && !closed@[
                idx as int
            ] && usable_records(records.deep_view()) && inner.in_progress(),
            _ => true,
        }
    }

    /// The event kind the state is waiting on.
    pub open spec fn accepts(self, e: Event) -> bool {
        match self {
            AutoCloseFlow::Running { inner, .. } => inner.accepts(e),
            _ => false,
        }
    }

    /// Feeds the outcome of the pending action.  A finished close marks
    /// its record; a failed close leaves the record unclosed and moves
    /// on, so it will be re-attempted; the run completes only when
    /// every record is closed.
    pub fn step(self, event: Event) -> (r: (AutoCloseFlow, Option<Action>))
        requires
            self.wf(),
            self.accepts(event),
        ensures
            r.0.wf(),
            auto_close_transition(self, event, r.0, r.1),
    {
        match (self, event) {
            (AutoCloseFlow::Running { records, closed, idx, inner }, e) => {
                let n = closed.len();
                let ghost inner0 = inner;
                let (inner2, act) = inner.step(e);
                proof {
                    assert(close_transition(inner0, e, inner2, act));
                }
                match inner2 {
                    CloseFlow::Done => {
                        let mut closed2 = closed;
                        closed2.set(idx, true);
                        proof {
                            lemma_first_unclosed_sound(closed2@, idx as int + 1);
                            lemma_first_unclosed_sound(closed2@, 0);
                        }
                        match find_next_unclosed(&closed2, idx + 1) {
                            None => (AutoCloseFlow::Done, None),
                            Some(j) => {
                                let (next, action) = close_record(&records, j);
                                (
                                    AutoCloseFlow::Running {
                                        records,
                                        closed: closed2,
                                        idx: j,
                                        inner: next,
                                    },
                                    Some(action),
                                )
                            },
                        }
                    },
                    CloseFlow::Failed { error: _ } => {
                        proof {
                            lemma_first_unclosed_finds(closed@, 0, idx as int);
                            lemma_first_unclosed_sound(closed@, idx as int + 1);
                            lemma_first_unclosed_sound(closed@, 0);
                        }
                        match find_next_unclosed(&closed, idx + 1) {
                            None => {
                                // unreachable: the current record is still unclosed
                                (AutoCloseFlow::Done, None)
                            },
                            Some(j) => {
                                let (next, action) = close_record(&records, j);
                                (
                                    AutoCloseFlow::Running { records, closed, idx: j, inner: next },
                                    Some(action),
                                )
                            },
                        }
                    },
                    other => (
                        AutoCloseFlow::Running { records, closed, idx, inner: other },
                        act,
                    ),
                }
            },
            // excluded by the precondition
            _ => (AutoCloseFlow::Done, None),
        }
    }
}

/// A fresh close flow for record `idx`, with its first action.
fn close_record(records: &Vec<Vec<String>>, idx: usize) -> (r: (CloseFlow, Action))
    requires
        idx < records.deep_view().len(),
        usable_records(records.deep_view()),
    ensures
        r.0 matches CloseFlow::Validating { req } && record_close_request(
            records.deep_view()[idx as int],
            req,
        ),
        r.1 matches Action::ProbeEnv { mount_point: Some(mp), path: None } && mp@
            == records.deep_view()[idx as int][0],
{
    let rec = &records[idx];
    proof {
        assert(rec.deep_view() == records.deep_view()[idx as int]);
        assert(rec.deep_view()[0] == rec@[0]@);
        assert(rec.deep_view()[2] == rec@[2]@);
    }
    let req = Close { mount_point: rec[0].clone(), namespace: rec[2].clone() };
    CloseFlow::start(req)
}

/// A running shutdown reconciliation stands at record `idx` with a
/// fresh close.
pub open spec fn auto_close_at(
    records: Vec<Vec<String>>,
    closed: Seq<bool>,
    idx: int,
    t: AutoCloseFlow,
    a: Option<Action>,
) -> bool {
    (t matches AutoCloseFlow::Running { records: r2, closed: c2, idx: i2, inner } && r2 == records
        && c2@ == closed && i2 == idx && (inner matches CloseFlow::Validating { req }
        && record_close_request(records.deep_view()[idx], req))) && (a matches Some(
        Action::ProbeEnv { mount_point: Some(mp), path: None },
    ) && mp@ == records.deep_view()[idx][0])
}

/// How the shutdown reconciliation wraps each outcome of the close in
/// flight: success marks the record and moves to the next unclosed one
/// (or completes the run), failure leaves the record unclosed and moves
/// on so it is re-attempted, and anything else keeps the close going.
pub open spec fn auto_close_glue(
    records: Vec<Vec<String>>,
    closed: Vec<bool>,
    idx: int,
    ti: CloseFlow,
    ai: Option<Action>,
    t: AutoCloseFlow,
    a: Option<Action>,
) -> bool {
    match ti {
        CloseFlow::Done => {
            let closed2 = closed@.update(idx, true);
            match next_unclosed(closed2, idx + 1) {
                None => t == AutoCloseFlow::Done && a is None,
                Some(j) => auto_close_at(records, closed2, j, t, a),
            }
        },
        CloseFlow::Failed { .. } => {
            match next_unclosed(closed@, idx + 1) {
                None => t == AutoCloseFlow::Done && a is None,
                Some(j) => auto_close_at(records, closed@, j, t, a),
            }
        },
        _ => t == (AutoCloseFlow::Running { records, closed, idx: idx as usize, inner: ti }) && a
            == ai,
    }
}

/// The transition relation of the shutdown reconciliation.
pub open spec fn auto_close_transition(
    s: AutoCloseFlow,
    e: Event,
    t: AutoCloseFlow,
    a: Option<Action>,
) -> bool {
    match s {
        AutoCloseFlow::Running { records, closed, idx, inner } => exists|
            ti: CloseFlow,
            ai: Option<Action>,
        |
            #[trigger] close_transition(inner, e, ti, ai) && auto_close_glue(
                records,
                closed,
                idx as int,
                ti,
                ai,
                t,
                a,
            ),
        _ => false,
    }
}

/// Begins the shutdown reconciliation over the given registry records:
/// an empty registry is already done, otherwise the first record's
/// close starts.
pub fn auto_close(records: Vec<Vec<String>>) -> (r: (AutoCloseFlow, Option<Action>))
    requires
        usable_records(records.deep_view()),
    ensures
        r.0.wf(),
        records.deep_view().len() == 0 ==> r.0 == AutoCloseFlow::Done && r.1 is None,
        records.deep_view().len() > 0 ==> auto_close_at(
            records,
            Seq::new(records.deep_view().len(), |k: int| false),
            0,
            r.0,
            r.1,
        ),
{
    let n = records.len();
    if n == 0 {
        (AutoCloseFlow::Done, None)
    } else {
        let mut closed: Vec<bool> = Vec::new();
        let mut i: usize = 0;
        while i < n
            invariant
                0 <= i <= n,
                closed@.len() == i,
                forall|k: int| 0 <= k < i ==> !closed@[k],
            decreases n - i,
        {
            closed.push(false);
            i = i + 1;
        }
        proof {
            assert(closed@ =~= Seq::new(records.deep_view().len(), |k: int| false));
        }
        let (inner, action) = close_record(&records, 0);
        (
            AutoCloseFlow::Running { records, closed, idx: 0, inner },
            Some(action),
        )
    }
}

} // verus!
