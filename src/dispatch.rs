use vstd::prelude::*;
use crate::state::ConnectionCore;

verus! {

/// How a failed send is classified.
#[derive(PartialEq, Eq, Structural, Clone, Copy, Debug)]
pub enum FailureKind {
    /// The transport was severed.
    Dropped,
    /// No response within the response timeout.
    Timeout,
    /// Any other failure that the session reported.
    Upstream,
}

/// What a dispatch does after its send failed.
#[derive(PartialEq, Eq, Structural, Clone, Copy, Debug)]
pub enum DispatchAction {
    /// Return the failure to the caller as it is.
    Finish,
    /// Reconnect, then send the same request once more on the fresh session.
    ReconnectAndResend,
}

/// Only a dropped connection on the first send leads to a reconnect; every
/// other failure, and any failure of the resend, is returned as it is.
pub open spec fn failure_action(resent: bool, kind: FailureKind) -> DispatchAction {
    if kind == FailureKind::Dropped && !resent {
        DispatchAction::ReconnectAndResend
    } else {
        DispatchAction::Finish
    }
}

/// The guarded state after a dispatch handled one failure: it is touched only
/// when the dispatch reconnects.
pub open spec fn core_after_failure<S>(core: ConnectionCore<S>, resent: bool, kind: FailureKind) -> ConnectionCore<S> {
    if failure_action(resent, kind) == DispatchAction::ReconnectAndResend {
        core.begin_result().0
    } else {
        core
    }
}

/// Classifies a failed send: a timeout first, then a severed transport, and
/// anything else as an upstream failure.
pub fn classify_failure(timed_out: bool, dropped: bool) -> (r: FailureKind)
    ensures
        timed_out ==> r == FailureKind::Timeout,
        !timed_out && dropped ==> r == FailureKind::Dropped,
        !timed_out && !dropped ==> r == FailureKind::Upstream,
{
    if timed_out {
        FailureKind::Timeout
    } else if dropped {
        FailureKind::Dropped
    } else {
        FailureKind::Upstream
    }
}

/// The decisions of one dispatch of a single command.
pub struct Dispatch {
    resent: bool,
}

impl Dispatch {
    /// Whether the request was already sent again after a reconnect.
    pub closed spec fn resent(&self) -> bool {
        self.resent
    }

    pub fn new() -> (r: Self)
        ensures
            !r.resent(),
    {
        Dispatch { resent: false }
    }

    /// Records a failed send and says what to do next.
    pub fn on_failure(&mut self, kind: FailureKind) -> (r: DispatchAction)
        ensures
            r == failure_action(old(self).resent(), kind),
            final(self).resent() == (old(self).resent() || r == DispatchAction::ReconnectAndResend),
    {
        if !self.resent && kind == FailureKind::Dropped {
            self.resent = true;
            DispatchAction::ReconnectAndResend
        } else {
            DispatchAction::Finish
        }
    }
}

/// What a batch dispatch does after its send failed.
#[derive(PartialEq, Eq, Structural, Clone, Copy, Debug)]
pub enum BatchAction {
    /// Return the failure to the caller as it is.
    Finish,
    /// Reconnect, then send this whole range of commands again.
    Resend { offset: usize, count: usize },
}

/// The batch counterpart of `failure_action`: a reconnect always resends the
/// whole range.
pub open spec fn batch_failure_action(offset: usize, count: usize, resent: bool, kind: FailureKind) -> BatchAction {
    if failure_action(resent, kind) == DispatchAction::ReconnectAndResend {
        BatchAction::Resend { offset, count }
    } else {
        BatchAction::Finish
    }
}

/// The decisions of one dispatch of the commands `[offset, offset + count)`
/// of a batch. A resend always covers the whole range, never a part of it.
pub struct BatchDispatch {
    offset: usize,
    count: usize,
    run: Dispatch,
}

impl BatchDispatch {
    pub closed spec fn offset(&self) -> usize {
        self.offset
    }

    pub closed spec fn count(&self) -> usize {
        self.count
    }

    pub closed spec fn resent(&self) -> bool {
        self.run.resent()
    }

    pub fn new(offset: usize, count: usize) -> (r: Self)
        ensures
            r.offset() == offset,
            r.count() == count,
            !r.resent(),
    {
        BatchDispatch { offset, count, run: Dispatch::new() }
    }

    /// Records a failed send of the range and says what to do next.
    pub fn on_failure(&mut self, kind: FailureKind) -> (r: BatchAction)
        ensures
            r == batch_failure_action(old(self).offset(), old(self).count(), old(self).resent(), kind),
            final(self).offset() == old(self).offset(),
            final(self).count() == old(self).count(),
            failure_action(old(self).resent(), kind) == DispatchAction::Finish ==> r == BatchAction::Finish
                && final(self).resent() == old(self).resent(),
            failure_action(old(self).resent(), kind) == DispatchAction::ReconnectAndResend ==> r == (BatchAction::Resend {
                offset: old(self).offset(),
                count: old(self).count(),
            }) && final(self).resent(),
    {
        match self.run.on_failure(kind) {
            DispatchAction::Finish => BatchAction::Finish,
            DispatchAction::ReconnectAndResend => BatchAction::Resend { offset: self.offset, count: self.count },
        }
    }
}

/// Within one dispatch, a dropped connection on the first send leads to
/// exactly one reconnect and one resend, and a second failure of any kind,
/// a dropped connection included, is returned without another reconnect.
pub proof fn lemma_single_resend(first: FailureKind, second: FailureKind)
    ensures
        first == FailureKind::Dropped ==> failure_action(false, first) == DispatchAction::ReconnectAndResend,
        failure_action(false, first) == DispatchAction::ReconnectAndResend ==> failure_action(true, second)
            == DispatchAction::Finish,
{
}

/// A batch that loses its connection on the first send resends exactly the
/// requested range `[offset, offset + count)` once, and a failure of that
/// resend is returned without another reconnect.
pub proof fn lemma_batch_resends_whole_range(offset: usize, count: usize, second: FailureKind)
    ensures
        batch_failure_action(offset, count, false, FailureKind::Dropped) == (BatchAction::Resend { offset, count }),
        batch_failure_action(offset, count, true, second) == BatchAction::Finish,
{
}

/// A timeout never reconnects and leaves the guarded state as it was.
pub proof fn lemma_timeout_is_inert<S>(core: ConnectionCore<S>, resent: bool)
    ensures
        failure_action(resent, FailureKind::Timeout) == DispatchAction::Finish,
        core_after_failure(core, resent, FailureKind::Timeout) == core,
{
}

} // verus!
