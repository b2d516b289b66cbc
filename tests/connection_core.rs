use resilient_conn::state::{ConnectionCore, ReconnectStart, SessionStep};

#[test]
fn fresh_core_hands_out_its_session() {
    let core: ConnectionCore<u32> = ConnectionCore::connected(7, 3);
    assert_eq!(core.session_step(), SessionStep::Ready);
    assert_eq!(core.session(), Some(&7));
    assert!(core.signal_available());
    assert!(!core.is_reconnecting());
}

#[test]
fn current_database_is_index_or_sentinel() {
    let mut core: ConnectionCore<u32> = ConnectionCore::connected(1, 5);
    assert_eq!(core.current_database(), 5);
    assert_eq!(core.begin_reconnect(), ReconnectStart::Spawn);
    assert_eq!(core.current_database(), -1);
    core.finish_reconnect(Some((2, 9)));
    assert_eq!(core.current_database(), 9);
    assert_eq!(core.begin_reconnect(), ReconnectStart::Spawn);
    core.finish_reconnect(None);
    assert_eq!(core.current_database(), -1);
}

#[test]
fn begin_reconnect_resets_signal() {
    let mut core: ConnectionCore<u32> = ConnectionCore::connected(1, 0);
    assert_eq!(core.begin_reconnect(), ReconnectStart::Spawn);
    assert!(core.is_reconnecting());
    assert!(!core.signal_available());
    assert_eq!(core.session_step(), SessionStep::Wait);
    assert_eq!(core.session(), None);
}

#[test]
fn two_racing_callers_launch_one_attempt() {
    let mut core: ConnectionCore<u32> = ConnectionCore::connected(1, 0);
    let mut spawned = 0;
    // both callers saw their send fail on the severed transport
    for _ in 0..2 {
        if core.begin_reconnect() == ReconnectStart::Spawn {
            spawned += 1;
        }
    }
    assert_eq!(spawned, 1);
    assert_eq!(core.session_step(), SessionStep::Wait);
    core.finish_reconnect(Some((2, 0)));
    assert!(core.signal_available());
    // both callers look again and get the fresh session
    assert_eq!(core.session_step(), SessionStep::Ready);
    assert_eq!(core.session(), Some(&2));
    assert_eq!(core.session_step(), SessionStep::Ready);
}

#[test]
fn many_callers_launch_one_attempt() {
    let mut core: ConnectionCore<u32> = ConnectionCore::connected(1, 0);
    let starts: Vec<ReconnectStart> = (0..50).map(|_| core.begin_reconnect()).collect();
    assert_eq!(starts.iter().filter(|s| **s == ReconnectStart::Spawn).count(), 1);
    assert_eq!(starts[0], ReconnectStart::Spawn);
}

#[test]
fn failed_attempt_disconnects_for_good() {
    let mut core: ConnectionCore<u32> = ConnectionCore::connected(1, 0);
    assert_eq!(core.begin_reconnect(), ReconnectStart::Spawn);
    core.finish_reconnect(None);
    assert!(core.signal_available());
    assert_eq!(core.session_step(), SessionStep::Lost);
    assert_eq!(core.session(), None);
    // a later dropped-connection report launches nothing
    assert_eq!(core.begin_reconnect(), ReconnectStart::Join);
    assert_eq!(core.session_step(), SessionStep::Lost);
}
