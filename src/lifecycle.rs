use vstd::prelude::*;

verus! {

/// Where the service stands in its life. Startup runs through the stages
/// from `LoadingSettings` to `Binding` in that order; then the service is
/// `Listening`, `Draining` once a termination signal arrived, and finally
/// `Stopped`, which nothing leaves.
#[derive(Clone, Copy, Debug, PartialEq, Eq, Structural)]
pub enum Phase {
    LoadingSettings,
    InitTelemetry,
    ConnectingDb,
    Migrating,
    Binding,
    Listening,
    Draining,
    Stopped,
}

/// What the driver of the lifecycle reports back.
#[derive(Clone, Copy, Debug, PartialEq, Eq, Structural)]
pub enum Event {
    /// The work of the current phase completed: a startup stage succeeded,
    /// serving ended, or the drain finished.
    Done,
    /// The work of the current phase failed.
    Failed,
    /// A termination signal arrived.
    TermSignal,
}

/// What the driver does next.
#[derive(Clone, Copy, Debug, PartialEq, Eq, Structural)]
pub enum Action {
    LoadSettings,
    InitTelemetry,
    ConnectDb,
    Migrate,
    Bind,
    /// Accept and dispatch requests until told to stop.
    Serve,
    /// Stop accepting connections and let the requests in flight finish.
    Drain,
    /// Go on with the work under way (a drain that a further signal
    /// interrupted).
    Continue,
    /// Exit normally.
    Exit,
    /// Exit reporting a fatal failure.
    Abort,
}

impl Phase {
    /// One of the startup stages, before the listener serves.
    pub open spec fn is_starting(self) -> bool {
        match self {
            Phase::LoadingSettings | Phase::InitTelemetry | Phase::ConnectingDb
            | Phase::Migrating | Phase::Binding => true,
            _ => false,
        }
    }

    /// Whether new connections are accepted in this phase.
    pub open spec fn accepts(self) -> bool {
        self == Phase::Listening
    }

    /// How many startup stages come before this phase.
    pub open spec fn rank(self) -> nat {
        match self {
            Phase::LoadingSettings => 0,
            Phase::InitTelemetry => 1,
            Phase::ConnectingDb => 2,
            Phase::Migrating => 3,
            Phase::Binding => 4,
            _ => 5,
        }
    }
}

/// The phase after a completed startup stage, and the action that begins it.
pub open spec fn advance(p: Phase) -> (Phase, Action) {
    match p {
        Phase::LoadingSettings => (Phase::InitTelemetry, Action::InitTelemetry),
        Phase::InitTelemetry => (Phase::ConnectingDb, Action::ConnectDb),
        Phase::ConnectingDb => (Phase::Migrating, Action::Migrate),
        Phase::Migrating => (Phase::Binding, Action::Bind),
        _ => (Phase::Listening, Action::Serve),
    }
}

/// The transition table. A failure is fatal in every phase, and so is
/// serving that ends without a termination signal; a signal stops a service
/// that does not serve yet, and makes a serving one drain. Only a completed
/// drain stops it cleanly. Once stopped, there is nothing left but to exit.
pub open spec fn step(p: Phase, e: Event) -> (Phase, Action) {
    match p {
        Phase::Stopped => (Phase::Stopped, Action::Exit),
        Phase::Listening => match e {
            Event::Done => (Phase::Stopped, Action::Abort),
            Event::Failed => (Phase::Stopped, Action::Abort),
            Event::TermSignal => (Phase::Draining, Action::Drain),
        },
        Phase::Draining => match e {
            Event::Done => (Phase::Stopped, Action::Exit),
            Event::Failed => (Phase::Stopped, Action::Abort),
            Event::TermSignal => (Phase::Draining, Action::Continue),
        },
        _ => match e {
            Event::Done => advance(p),
            Event::Failed => (Phase::Stopped, Action::Abort),
            Event::TermSignal => (Phase::Stopped, Action::Exit),
        },
    }
}

/// The phase reached from `p` after the events `evs`, in order.
pub open spec fn run(p: Phase, evs: Seq<Event>) -> Phase
    decreases evs.len(),
{
    if evs.len() == 0 {
        p
    } else {
        run(step(p, evs[0]).0, evs.drop_first())
    }
}

/// The first phase of a process, and the action that begins it.
pub fn start() -> (r: (Phase, Action))
    ensures
        r == (Phase::LoadingSettings, Action::LoadSettings),
{
    (Phase::LoadingSettings, Action::LoadSettings)
}

/// The next phase after `event`, and what to do in it.
pub fn next(phase: Phase, event: Event) -> (r: (Phase, Action))
    ensures
        r == step(phase, event),
{
    match phase {
        Phase::Stopped => (Phase::Stopped, Action::Exit),
        Phase::Listening => match event {
            Event::Done => (Phase::Stopped, Action::Abort),
            Event::Failed => (Phase::Stopped, Action::Abort),
            Event::TermSignal => (Phase::Draining, Action::Drain),
        },
        Phase::Draining => match event {
            Event::Done => (Phase::Stopped, Action::Exit),
            Event::Failed => (Phase::Stopped, Action::Abort),
            Event::TermSignal => (Phase::Draining, Action::Continue),
        },
        _ => match event {
            Event::Done => match phase {
                Phase::LoadingSettings => (Phase::InitTelemetry, Action::InitTelemetry),
                Phase::InitTelemetry => (Phase::ConnectingDb, Action::ConnectDb),
                Phase::ConnectingDb => (Phase::Migrating, Action::Migrate),
                Phase::Migrating => (Phase::Binding, Action::Bind),
                _ => (Phase::Listening, Action::Serve),
            },
            Event::Failed => (Phase::Stopped, Action::Abort),
            Event::TermSignal => (Phase::Stopped, Action::Exit),
        },
    }
}

/// Nothing leaves `Stopped`.
pub proof fn lemma_stopped_is_terminal(evs: Seq<Event>)
    ensures
        run(Phase::Stopped, evs) == Phase::Stopped,
    decreases evs.len(),
{
    if evs.len() > 0 {
        lemma_stopped_is_terminal(evs.drop_first());
    }
}

/// A startup stage that fails stops the process for good: it never gets to
/// listen.
pub proof fn lemma_startup_failure_is_fatal(p: Phase, evs: Seq<Event>)
    requires
        p.is_starting(),
    ensures
        step(p, Event::Failed) == (Phase::Stopped, Action::Abort),
        run(step(p, Event::Failed).0, evs) == Phase::Stopped,
{
    lemma_stopped_is_terminal(evs);
}

/// The service listens only after every startup stage, in order, has
/// completed: the first five events from the first phase are all `Done`.
pub proof fn lemma_listening_needs_every_stage(evs: Seq<Event>)
    requires
        run(Phase::LoadingSettings, evs) == Phase::Listening,
    ensures
        evs.len() >= 5,
        forall|i: int| 0 <= i < 5 ==> evs[i] == Event::Done,
{
    lemma_stages_in_order(Phase::LoadingSettings, evs);
}

proof fn lemma_stages_in_order(p: Phase, evs: Seq<Event>)
    requires
        p.is_starting(),
        run(p, evs) == Phase::Listening,
    ensures
        evs.len() >= 5 - p.rank(),
        forall|i: int| 0 <= i < 5 - p.rank() ==> evs[i] == Event::Done,
    decreases evs.len(),
{
    if evs.len() == 0 {
    } else {
        let q = step(p, evs[0]).0;
        let rest = evs.drop_first();
        if evs[0] != Event::Done {
            lemma_stopped_is_terminal(rest);
        } else if q.is_starting() {
            lemma_stages_in_order(q, rest);
            assert forall|i: int| 0 <= i < 5 - p.rank() implies evs[i] == Event::Done by {
                if i > 0 {
                    assert(evs[i] == rest[i - 1]);
                }
            }
        }
    }
}

/// From `Draining` or `Stopped`, whatever happens, the service never
/// accepts a connection again.
proof fn lemma_closed_stays_closed(p: Phase, evs: Seq<Event>)
    requires
        p == Phase::Draining || p == Phase::Stopped,
    ensures
        run(p, evs) == Phase::Draining || run(p, evs) == Phase::Stopped,
    decreases evs.len(),
{
    if evs.len() > 0 {
        lemma_closed_stays_closed(step(p, evs[0]).0, evs.drop_first());
    }
}

/// After a termination signal, in any phase, no new connection is accepted,
/// whatever happens next. A serving service drains rather than stopping.
pub proof fn lemma_no_accept_after_signal(p: Phase, evs: Seq<Event>)
    ensures
        !run(step(p, Event::TermSignal).0, evs).accepts(),
        p == Phase::Listening ==> step(p, Event::TermSignal) == (Phase::Draining, Action::Drain),
{
    let q = step(p, Event::TermSignal).0;
    if q == Phase::Draining || q == Phase::Stopped {
        lemma_closed_stays_closed(q, evs);
    }
}

/// Draining is entered only from `Listening`, on a termination signal.
pub proof fn lemma_drain_entered_once(p: Phase, e: Event)
    ensures
        step(p, e).0 == Phase::Draining && p != Phase::Draining ==> p == Phase::Listening && e
            == Event::TermSignal,
{
}

/// A service that has served stops cleanly only through a completed drain:
/// leaving `Listening` or `Draining` for a clean exit takes a drain's end.
pub proof fn lemma_clean_stop_only_after_drain(p: Phase, e: Event)
    requires
        p == Phase::Listening || p == Phase::Draining,
        step(p, e) == (Phase::Stopped, Action::Exit),
    ensures
        p == Phase::Draining,
        e == Event::Done,
{
}

/// A drain is never cut short: until the drain reports completion or a
/// failure, the service stays `Draining`, further signals included.
pub proof fn lemma_drain_runs_to_completion(evs: Seq<Event>)
    requires
        forall|i: int| 0 <= i < evs.len() ==> evs[i] == Event::TermSignal,
    ensures
        run(Phase::Draining, evs) == Phase::Draining,
    decreases evs.len(),
{
    if evs.len() > 0 {
        lemma_drain_runs_to_completion(evs.drop_first());
    }
}

} // verus!
