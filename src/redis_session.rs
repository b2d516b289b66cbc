use vstd::prelude::*;
use redis::aio::MultiplexedConnection;
use redis::RedisError;
use crate::dispatch::{classify_failure, FailureKind};
use crate::state::{ConnectionCore, ConnectionState, SessionStep};

verus! {

#[verifier::external_type_specification]
#[verifier::external_body]
pub struct ExRedisError(redis::RedisError);

#[verifier::external_type_specification]
#[verifier::external_body]
pub struct ExMultiplexedConnection(redis::aio::MultiplexedConnection);

/// Relies on redis's `RedisError::is_connection_dropped`: whether the error is
/// an I/O error that means the transport was severed.
pub assume_specification[ redis::RedisError::is_connection_dropped ](e: &redis::RedisError) -> bool;

/// Relies on redis's `MultiplexedConnection` clone: another handle over the
/// same multiplexed transport.
pub assume_specification[ <redis::aio::MultiplexedConnection as Clone>::clone ](
    c: &redis::aio::MultiplexedConnection,
) -> redis::aio::MultiplexedConnection;

/// Relies on redis's `ConnectionLike::get_db` for a multiplexed connection:
/// the database index that the connection selected.
#[verifier::external_body]
fn selected_db(c: &MultiplexedConnection) -> (r: i64) {
    redis::aio::ConnectionLike::get_db(c)
}

/// Relies on redis's `From<std::io::Error>` for `RedisError`: the error that
/// reports a lost connection, an I/O error of kind broken pipe.
#[verifier::external_body]
fn broken_pipe_error() -> (r: RedisError) {
    let io_error: std::io::Error = std::io::ErrorKind::BrokenPipe.into();
    io_error.into()
}

/// A session lookup on the guarded state.
pub enum SessionLookup {
    /// A handle on the live session.
    Ready(MultiplexedConnection),
    /// A reconnection is under way: wait on the signal and look again.
    Wait,
    /// The connection is lost for good.
    Lost(RedisError),
}

/// The guarded state of a manager whose first session is `c`.
pub fn connected_core(c: MultiplexedConnection) -> (r: ConnectionCore<MultiplexedConnection>)
    ensures
        r.wf(),
        r.signal(),
        r.state() matches ConnectionState::Connected { session, .. } && session == c,
{
    let db = selected_db(&c);
    ConnectionCore::connected(c, db)
}

/// One step of session acquisition: a handle when `Connected`, a wait when
/// `Reconnecting`, the lost-connection error when `Disconnected`.
pub fn lookup_session(core: &ConnectionCore<MultiplexedConnection>) -> (r: SessionLookup)
    ensures
        core.step_spec() == SessionStep::Ready <==> r is Ready,
        core.step_spec() == SessionStep::Wait <==> r is Wait,
        core.step_spec() == SessionStep::Lost <==> r is Lost,
{
    match core.session() {
        Some(c) => SessionLookup::Ready(c.clone()),
        None => if core.is_reconnecting() {
            SessionLookup::Wait
        } else {
            SessionLookup::Lost(broken_pipe_error())
        },
    }
}

/// Commits what the reconnection attempt produced: the new session, or
/// `Disconnected` when it failed; the signal is set either way.
pub fn commit_attempt(
    core: &mut ConnectionCore<MultiplexedConnection>,
    result: Result<MultiplexedConnection, RedisError>,
)
    requires
        old(core).wf(),
        old(core).state() is Reconnecting,
    ensures
        final(core).wf(),
        final(core).signal(),
        final(core).in_flight() == 0,
        result is Ok ==> (final(core).state() matches ConnectionState::Connected { session, .. } && session
            == result->Ok_0),
        result is Err ==> final(core).state() is Disconnected,
{
    match result {
        Ok(c) => {
            let db = selected_db(&c);
            core.finish_reconnect(Some((c, db)));
        },
        Err(_) => core.finish_reconnect(None),
    }
}

/// Classifies a failed send; a timeout is known to the caller, which ran the
/// send under the response timeout.
pub fn classify_send_error(e: &RedisError, timed_out: bool) -> (r: FailureKind)
    ensures
        timed_out <==> r == FailureKind::Timeout,
{
    let dropped = e.is_connection_dropped();
    classify_failure(timed_out, dropped)
}

} // verus!
