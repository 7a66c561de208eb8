//! Per-hart lifecycle state and the pending boot request.
use vstd::prelude::*;

verus! {

/// Lifecycle state of a hart, as defined by the hart-state-management extension.
#[derive(Clone, Copy, Debug, PartialEq, Eq, Structural)]
pub enum HartState {
    Started,
    Stopped,
    StartPending,
    StopPending,
    Suspended,
    SuspendPending,
    ResumePending,
}

/// Where a hart enters supervisor mode, and the single word handed to it there.
#[derive(Clone, Copy, Debug, PartialEq, Eq, Structural)]
pub struct Supervisor {
    pub start_addr: usize,
    pub opaque: usize,
}

/// Mathematical value of a [`HsmCell`]: its state and the payload it holds.
pub struct HsmModel<T> {
    pub state: HartState,
    pub payload: Option<T>,
}

impl<T> HsmModel<T> {
    /// A payload is held exactly while a start is pending.
    pub open spec fn wf(self) -> bool {
        (self.payload is Some) <==> (self.state == HartState::StartPending)
    }
}

/// The value of a cell after `prepare(v)`.
pub open spec fn prepare_model<T>(m: HsmModel<T>, v: T) -> HsmModel<T> {
    HsmModel { state: HartState::StartPending, payload: Some(v) }
}

/// The cell value and the result of `start` on a cell whose value is `m`.
pub open spec fn start_model<T>(m: HsmModel<T>) -> (HsmModel<T>, Result<T, HartState>) {
    if m.state == HartState::StartPending && m.payload is Some {
        (HsmModel { state: HartState::Started, payload: None }, Ok(m.payload->Some_0))
    } else {
        (m, Err(m.state))
    }
}

/// The value of a cell after the hart has been told to stop.
pub open spec fn stop_model<T>(m: HsmModel<T>) -> HsmModel<T> {
    HsmModel { state: HartState::Stopped, payload: None }
}


/// `start` succeeds exactly on a cell whose state is `StartPending`, which
/// only `prepare` produces; once a `start` has run, successful or not, the
/// next `start` fails. So of two `start`s in a row with no `prepare` between
/// them, at most the first succeeds, and right after a `prepare` the first
/// succeeds and the second fails.
pub proof fn law_start_needs_prepare<T>(m: HsmModel<T>, v: T)
    requires
        m.wf(),
    ensures
        start_model(m).1 is Ok <==> m.state == HartState::StartPending,
        start_model(start_model(m).0).1 is Err,
        start_model(prepare_model(m, v)).1 == Ok::<T, HartState>(v),
        start_model(start_model(prepare_model(m, v)).0).1 == Err::<T, HartState>(HartState::Started),
{
}

/// Of two `prepare`s in a row the second wins: the following `start`
/// returns its payload.
pub proof fn law_last_prepare_wins<T>(m: HsmModel<T>, first: T, second: T)
    ensures
        start_model(prepare_model(prepare_model(m, first), second)).1 == Ok::<T, HartState>(second),
{
}


/// An operation on a hart's lifecycle cell.
pub enum HsmOp<T> {
    Prepare(T),
    Start,
}

/// The cell value after one operation.
pub open spec fn apply_op<T>(m: HsmModel<T>, op: HsmOp<T>) -> HsmModel<T> {
    match op {
        HsmOp::Prepare(v) => prepare_model(m, v),
        HsmOp::Start => start_model(m).0,
    }
}

/// The cell value after the operations `ops`, in order.
pub open spec fn run_ops<T>(m: HsmModel<T>, ops: Seq<HsmOp<T>>) -> HsmModel<T>
    decreases ops.len(),
{
    if ops.len() == 0 {
        m
    } else {
        apply_op(run_ops(m, ops.drop_last()), ops.last())
    }
}

proof fn lemma_run_wf<T>(m: HsmModel<T>, ops: Seq<HsmOp<T>>)
    requires
        m.wf(),
    ensures
        run_ops(m, ops).wf(),
    decreases ops.len(),
{
    if ops.len() > 0 {
        lemma_run_wf(m, ops.drop_last());
    }
}

/// In any sequence of `prepare` and `start` calls, the `start` at position
/// `i` succeeds exactly when the operation just before it is a `prepare`
/// (for the first operation: when the cell starts out `StartPending`).
pub proof fn law_start_succeeds_after_prepare<T>(m: HsmModel<T>, ops: Seq<HsmOp<T>>, i: int)
    requires
        m.wf(),
        0 <= i < ops.len(),
    ensures
        start_model(run_ops(m, ops.take(i))).1 is Ok <==> (if i == 0 {
            m.state == HartState::StartPending
        } else {
            ops[i - 1] is Prepare
        }),
{
    if i > 0 {
        let before = ops.take(i);
        assert(before.drop_last() =~= ops.take(i - 1));
        lemma_run_wf(m, ops.take(i - 1));
    } else {
        assert(ops.take(0) =~= Seq::<HsmOp<T>>::empty());
    }
}

/// Lifecycle state of one hart together with its pending boot payload.
///
/// The payload is present exactly while the state is `StartPending`; it is
/// handed out once, by the `start` that moves the hart to `Started`.
pub struct HsmCell<T> {
    status: HartState,
    inner: Option<T>,
}

impl<T> View for HsmCell<T> {
    type V = HsmModel<T>;

    closed spec fn view(&self) -> HsmModel<T> {
        HsmModel { state: self.status, payload: self.inner }
    }
}

impl<T> HsmCell<T> {
    #[verifier::type_invariant]
    spec fn inv(self) -> bool {
        self@.wf()
    }

    /// A stopped hart with nothing to boot.
    pub fn new() -> (r: Self)
        ensures
            r@.state == HartState::Stopped,
            r@.payload is None,
    {
        HsmCell { status: HartState::Stopped, inner: None }
    }

    /// The current lifecycle state.
    pub fn state(&self) -> (r: HartState)
        ensures
            r == self@.state,
    {
        self.status
    }

    /// Consumes a pending boot request: from `StartPending` the hart moves to
    /// `Started` and the payload is returned; in any other state nothing
    /// changes and the current state is reported as the error.
    pub fn start(&mut self) -> (r: Result<T, HartState>)
        ensures
            (final(self)@, r) == start_model(old(self)@),
            r is Ok <==> old(self)@.state == HartState::StartPending,
    {
        proof {
            use_type_invariant(&*self);
        }
        if self.status == HartState::StartPending {
            let mut old_cell = HsmCell { status: HartState::Started, inner: None };
            std::mem::swap(self, &mut old_cell);
            proof {
                use_type_invariant(&old_cell);
            }
            let HsmCell { status: _, inner } = old_cell;
            match inner {
                Some(v) => Ok(v),
                None => Err(HartState::StartPending),
            }
        } else {
            Err(self.status)
        }
    }

    /// Records a boot request; a payload that was still pending is replaced.
    pub fn prepare(&mut self, v: T)
        ensures
            final(self)@ == prepare_model(old(self)@, v),
    {
        *self = HsmCell { status: HartState::StartPending, inner: Some(v) };
    }

    /// Moves the hart to `Stopped`, dropping any pending payload.
    pub fn stop(&mut self)
        ensures
            final(self)@ == stop_model(old(self)@),
    {
        *self = HsmCell { status: HartState::Stopped, inner: None };
    }
}

} // verus!
