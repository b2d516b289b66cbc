use resilient_conn::dispatch::{
    classify_failure, BatchAction, BatchDispatch, Dispatch, DispatchAction, FailureKind,
};
use resilient_conn::retry::{AttemptRun, AttemptStep};
use resilient_conn::state::{ConnectionCore, ReconnectStart, SessionStep};

#[test]
fn two_failures_then_success_waits_thirty_ms() {
    let mut run = AttemptRun::new(vec![10, 20]);
    let outcomes = [false, false, true];
    let mut waited: u64 = 0;
    let mut connected = false;
    for ok in outcomes {
        if ok {
            connected = true;
            break;
        }
        match run.on_attempt_failed() {
            AttemptStep::Retry { delay_ms } => waited += delay_ms,
            AttemptStep::GiveUp => break,
        }
    }
    assert!(connected);
    assert!(waited >= 30);
    assert_eq!(waited, 30);
    assert!(!run.is_exhausted());
}

#[test]
fn all_attempts_fail_after_every_delay() {
    let mut run = AttemptRun::new(vec![5, 6, 7]);
    assert_eq!(run.on_attempt_failed(), AttemptStep::Retry { delay_ms: 5 });
    assert_eq!(run.on_attempt_failed(), AttemptStep::Retry { delay_ms: 6 });
    assert_eq!(run.on_attempt_failed(), AttemptStep::Retry { delay_ms: 7 });
    assert!(!run.is_exhausted());
    assert_eq!(run.on_attempt_failed(), AttemptStep::GiveUp);
    assert!(run.is_exhausted());
}

#[test]
fn no_delays_gives_up_and_disconnects() {
    let mut core: ConnectionCore<u32> = ConnectionCore::connected(1, 0);
    assert_eq!(core.begin_reconnect(), ReconnectStart::Spawn);
    let mut run = AttemptRun::new(Vec::new());
    assert_eq!(run.on_attempt_failed(), AttemptStep::GiveUp);
    core.finish_reconnect(None);
    assert_eq!(core.session_step(), SessionStep::Lost);
    assert_eq!(core.session_step(), SessionStep::Lost);
}

#[test]
fn dropped_connection_resends_once() {
    let mut d = Dispatch::new();
    assert_eq!(d.on_failure(FailureKind::Dropped), DispatchAction::ReconnectAndResend);
    assert_eq!(d.on_failure(FailureKind::Dropped), DispatchAction::Finish);
}

#[test]
fn timeout_and_upstream_are_returned() {
    let mut d = Dispatch::new();
    assert_eq!(d.on_failure(FailureKind::Timeout), DispatchAction::Finish);
    assert_eq!(d.on_failure(FailureKind::Upstream), DispatchAction::Finish);
    // the dispatch may still reconnect once on a later drop
    assert_eq!(d.on_failure(FailureKind::Dropped), DispatchAction::ReconnectAndResend);
}

#[test]
fn timeout_leaves_state_alone() {
    let core: ConnectionCore<u32> = ConnectionCore::connected(4, 2);
    let mut d = Dispatch::new();
    let action = d.on_failure(FailureKind::Timeout);
    assert_eq!(action, DispatchAction::Finish);
    assert_eq!(core.session_step(), SessionStep::Ready);
    assert_eq!(core.session(), Some(&4));
    assert_eq!(core.current_database(), 2);
}

#[test]
fn batch_resends_whole_range() {
    let mut b = BatchDispatch::new(2, 3);
    assert_eq!(b.on_failure(FailureKind::Dropped), BatchAction::Resend { offset: 2, count: 3 });
    assert_eq!(b.on_failure(FailureKind::Dropped), BatchAction::Finish);
    let mut c = BatchDispatch::new(0, 4);
    assert_eq!(c.on_failure(FailureKind::Upstream), BatchAction::Finish);
}

#[test]
fn classification_order() {
    assert_eq!(classify_failure(true, true), FailureKind::Timeout);
    assert_eq!(classify_failure(true, false), FailureKind::Timeout);
    assert_eq!(classify_failure(false, true), FailureKind::Dropped);
    assert_eq!(classify_failure(false, false), FailureKind::Upstream);
}
