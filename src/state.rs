use vstd::prelude::*;

verus! {

/// The variant of the shared connection state.
pub enum ConnectionState<S> {
    /// A live session, with the database index it has selected.
    Connected { session: S, db: i64 },
    /// A reconnection attempt is under way.
    Reconnecting,
    /// The last reconnection attempt exhausted its retries; terminal.
    Disconnected,
}

/// What a caller asking for a session must do next.
#[derive(PartialEq, Eq, Structural, Clone, Copy, Debug)]
pub enum SessionStep {
    /// The state is `Connected`: use its session.
    Ready,
    /// The state is `Reconnecting`: release the lock, wait on the
    /// availability signal, then ask again.
    Wait,
    /// The state is `Disconnected`: fail with a lost connection.
    Lost,
}

/// What the caller that observed a dropped connection must do next.
#[derive(PartialEq, Eq, Structural, Clone, Copy, Debug)]
pub enum ReconnectStart {
    /// This caller moved the state to `Reconnecting`: it launches the
    /// connection-attempt procedure as an independent task, then asks for a
    /// session.
    Spawn,
    /// Another caller already started reconnecting, or the state is terminal:
    /// launch nothing and ask for a session.
    Join,
}

/// The connection state guarded by the manager's lock, with a model of the
/// availability signal and of the reconnection attempts in flight.
pub struct ConnectionCore<S> {
    state: ConnectionState<S>,
    signal_set: bool,
    attempts_in_flight: u64,
}

impl<S> ConnectionCore<S> {
    pub closed spec fn state(&self) -> ConnectionState<S> {
        self.state
    }

    pub closed spec fn signal(&self) -> bool {
        self.signal_set
    }

    pub closed spec fn in_flight(&self) -> nat {
        self.attempts_in_flight as nat
    }

    /// The signal is set exactly when no reconnection is under way, and exactly
    /// one attempt is in flight while the state is `Reconnecting`, none otherwise.
    pub open spec fn wf(&self) -> bool {
        &&& self.signal() == !(self.state() is Reconnecting)
        &&& self.in_flight() == (if self.state() is Reconnecting { 1nat } else { 0nat })
    }

    /// The core and the answer after one caller reports a dropped connection.
    pub closed spec fn begin_result(&self) -> (Self, ReconnectStart) {
        match self.state {
            ConnectionState::Connected { .. } => (
                ConnectionCore { state: ConnectionState::Reconnecting, signal_set: false, attempts_in_flight: 1 },
                ReconnectStart::Spawn,
            ),
            _ => (*self, ReconnectStart::Join),
        }
    }

    /// The core after the reconnection attempt commits its outcome.
    pub closed spec fn finish_result(&self, outcome: Option<(S, i64)>) -> Self {
        ConnectionCore {
            state: match outcome {
                Some((session, db)) => ConnectionState::Connected { session, db },
                None => ConnectionState::Disconnected,
            },
            signal_set: true,
            attempts_in_flight: 0,
        }
    }

    pub open spec fn step_spec(&self) -> SessionStep {
        match self.state() {
            ConnectionState::Connected { .. } => SessionStep::Ready,
            ConnectionState::Reconnecting => SessionStep::Wait,
            ConnectionState::Disconnected => SessionStep::Lost,
        }
    }

    /// A manager is only ever built already connected, with its signal set.
    pub fn connected(session: S, db: i64) -> (r: Self)
        ensures
            r.wf(),
            r.state() == (ConnectionState::Connected { session, db }),
            r.signal(),
            r.in_flight() == 0,
    {
        ConnectionCore { state: ConnectionState::Connected { session, db }, signal_set: true, attempts_in_flight: 0 }
    }

    /// Where a caller asking for a session stands: ready on `Connected`, wait on
    /// `Reconnecting`, fail at once on `Disconnected`. Nothing changes.
    pub fn session_step(&self) -> (r: SessionStep)
        ensures
            r == self.step_spec(),
    {
        match &self.state {
            ConnectionState::Connected { .. } => SessionStep::Ready,
            ConnectionState::Reconnecting => SessionStep::Wait,
            ConnectionState::Disconnected => SessionStep::Lost,
        }
    }

    /// The live session, when the state is `Connected`.
    pub fn session(&self) -> (r: Option<&S>)
        ensures
            match self.state() {
                ConnectionState::Connected { session, .. } => r == Some(&session),
                _ => r is None,
            },
    {
        match &self.state {
            ConnectionState::Connected { session, .. } => Some(session),
            _ => None,
        }
    }

    /// The selected database index when `Connected`, else `-1`, meaning that no
    /// connection is active. Never waits.
    pub fn current_database(&self) -> (r: i64)
        ensures
            r == match self.state() {
                ConnectionState::Connected { db, .. } => db as int,
                _ => -1int,
            },
    {
        match &self.state {
            ConnectionState::Connected { db, .. } => *db,
            _ => -1,
        }
    }

    /// Whether the availability signal is set: waiters may go on.
    pub fn signal_available(&self) -> (r: bool)
        ensures
            r == self.signal(),
    {
        self.signal_set
    }

    pub fn is_reconnecting(&self) -> (r: bool)
        ensures
            r == self.state() is Reconnecting,
    {
        matches!(self.state, ConnectionState::Reconnecting)
    }

    /// Called by a caller that saw its send fail with a dropped connection.
    /// Only on `Connected` does it move the state to `Reconnecting`, reset the
    /// signal and hand the caller the one reconnection attempt to launch; on
    /// any other state nothing changes and no attempt is launched.
    pub fn begin_reconnect(&mut self) -> (r: ReconnectStart)
        requires
            old(self).wf(),
        ensures
            (*final(self), r) == old(self).begin_result(),
            final(self).wf(),
            old(self).state() is Connected ==> {
                &&& r == ReconnectStart::Spawn
                &&& final(self).state() is Reconnecting
                &&& !final(self).signal()
                &&& final(self).in_flight() == 1
            },
            !(old(self).state() is Connected) ==> {
                &&& r == ReconnectStart::Join
                &&& *final(self) == *old(self)
            },
    {
        match self.state {
            ConnectionState::Connected { .. } => {
                self.state = ConnectionState::Reconnecting;
                self.signal_set = false;
                self.attempts_in_flight = 1;
                ReconnectStart::Spawn
            },
            _ => ReconnectStart::Join,
        }
    }

    /// Called by the reconnection attempt when it ends: commits the new
    /// session, or `Disconnected` when the retries were exhausted, and sets the
    /// signal so that every waiter looks again.
    pub fn finish_reconnect(&mut self, outcome: Option<(S, i64)>)
        requires
            old(self).wf(),
            old(self).state() is Reconnecting,
        ensures
            *final(self) == old(self).finish_result(outcome),
            final(self).wf(),
            final(self).signal(),
            final(self).in_flight() == 0,
            final(self).state() == match outcome {
                Some((session, db)) => ConnectionState::Connected { session, db },
                None => ConnectionState::Disconnected,
            },
    {
        self.state = match outcome {
            Some((session, db)) => ConnectionState::Connected { session, db },
            None => ConnectionState::Disconnected,
        };
        self.signal_set = true;
        self.attempts_in_flight = 0;
    }
}

/// One event on the guarded state: a caller reports a dropped connection, or
/// the reconnection attempt commits its outcome.
pub enum CoreEvent<S> {
    DropObserved,
    AttemptEnded(Option<(S, i64)>),
}

/// The core after one event. An attempt can only end while one is in flight,
/// so an `AttemptEnded` on another state leaves the core as it is.
pub open spec fn apply_event<S>(c: ConnectionCore<S>, e: CoreEvent<S>) -> ConnectionCore<S> {
    match e {
        CoreEvent::DropObserved => c.begin_result().0,
        CoreEvent::AttemptEnded(outcome) => if c.state() is Reconnecting {
            c.finish_result(outcome)
        } else {
            c
        },
    }
}

/// The core after a sequence of events, in order.
pub open spec fn run_events<S>(c: ConnectionCore<S>, es: Seq<CoreEvent<S>>) -> ConnectionCore<S>
    decreases es.len(),
{
    if es.len() == 0 {
        c
    } else {
        apply_event(run_events(c, es.drop_last()), es.last())
    }
}

/// The core, and how many callers were told to launch an attempt, after `n`
/// callers in turn report the same dropped connection.
pub open spec fn drop_wave<S>(c: ConnectionCore<S>, n: nat) -> (ConnectionCore<S>, nat)
    decreases n,
{
    if n == 0 {
        (c, 0)
    } else {
        let (c1, spawned) = drop_wave(c, (n - 1) as nat);
        let (c2, start) = c1.begin_result();
        (c2, spawned + if start == ReconnectStart::Spawn { 1nat } else { 0nat })
    }
}

proof fn lemma_begin_result<S>(c: ConnectionCore<S>)
    requires
        c.wf(),
    ensures
        c.begin_result().0.wf(),
        c.state() is Connected ==> c.begin_result().1 == ReconnectStart::Spawn
            && c.begin_result().0.state() is Reconnecting,
        !(c.state() is Connected) ==> c.begin_result() == (c, ReconnectStart::Join),
{
}

/// Whatever the interleaving of dropped-connection reports and attempt
/// outcomes, at most one reconnection attempt is in flight at any time.
pub proof fn lemma_at_most_one_attempt<S>(c: ConnectionCore<S>, es: Seq<CoreEvent<S>>)
    requires
        c.wf(),
    ensures
        run_events(c, es).wf(),
        run_events(c, es).in_flight() <= 1,
    decreases es.len(),
{
    if es.len() > 0 {
        lemma_at_most_one_attempt(c, es.drop_last());
        let prev = run_events(c, es.drop_last());
        lemma_begin_result(prev);
    }
}

/// However many callers observe the same dropped connection, exactly one of
/// them launches a reconnection attempt when the state was `Connected`, and
/// none otherwise.
pub proof fn lemma_drop_wave_spawns_once<S>(c: ConnectionCore<S>, n: nat)
    requires
        c.wf(),
    ensures
        drop_wave(c, n).0.wf(),
        drop_wave(c, n).1 == (if n > 0 && c.state() is Connected { 1nat } else { 0nat }),
        n > 0 && c.state() is Connected ==> drop_wave(c, n).0.state() is Reconnecting,
        !(c.state() is Connected) ==> drop_wave(c, n).0 == c,
    decreases n,
{
    if n > 0 {
        lemma_drop_wave_spawns_once(c, (n - 1) as nat);
        lemma_begin_result(drop_wave(c, (n - 1) as nat).0);
    }
}

/// A freshly built manager hands out its session before any failure: it is
/// neither reconnecting nor disconnected.
pub proof fn lemma_fresh_core_ready<S>(session: S, db: i64, c: ConnectionCore<S>)
    requires
        c.state() == (ConnectionState::Connected { session, db }),
        c.wf(),
    ensures
        c.step_spec() == SessionStep::Ready,
        c.signal(),
{
}

/// When the attempt ends with its retries exhausted the state becomes
/// `Disconnected` and the signal is set: every waiter wakes to a lost
/// connection, and from then on every dropped-connection report launches no
/// attempt and every event leaves the core as it is.
pub proof fn lemma_exhaustion_is_terminal<S>(c: ConnectionCore<S>, es: Seq<CoreEvent<S>>)
    requires
        c.wf(),
        c.state() is Reconnecting,
    ensures
        c.finish_result(None).state() is Disconnected,
        c.finish_result(None).signal(),
        c.finish_result(None).step_spec() == SessionStep::Lost,
        c.finish_result(None).begin_result() == (c.finish_result(None), ReconnectStart::Join),
        run_events(c.finish_result(None), es) == c.finish_result(None),
    decreases es.len(),
{
    if es.len() > 0 {
        lemma_exhaustion_is_terminal(c, es.drop_last());
    }
}

} // verus!
