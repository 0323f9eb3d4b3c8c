//! The order of the steps that take a site from nothing to serving.
//!
//! The program around this crate does the work that reaches outside the
//! process: it reads the configuration, finds the application's routes and
//! binds the socket. After each piece of work it reports what came of it
//! as an [`Event`]; [`step`] answers with the state the site is in now and
//! the [`Action`] to perform next. A site is starting until the socket is
//! bound and serving from then on; a failure while starting ends it.

use vstd::prelude::*;
use crate::config::{ConfigurationError, ServerOptions, SiteAddr};
use crate::router::{build_router, Route, Router};

verus! {

/// The status a process ends with after a failed start.
pub const FAILURE_EXIT_CODE: i32 = 101;

/// Why a site did not start.
#[derive(Clone, Copy, Debug, PartialEq, Eq)]
pub enum StartupError {
    /// No configuration could be had.
    Configuration(ConfigurationError),
    /// The socket could not be bound.
    Bind,
}

/// How far a site has come.
#[derive(Clone, Debug, PartialEq, Eq)]
pub enum State {
    /// Nothing is known yet.
    AwaitingConfiguration,
    /// The configuration is read; the routes are being looked for.
    AwaitingRoutes(ServerOptions),
    /// The dispatch table stands; the socket is being bound.
    AwaitingBind(Router),
    /// Requests are answered through this dispatch table.
    Serving(Router),
    /// The start failed.
    Failed(StartupError),
}

/// What came of the last piece of outside work.
#[derive(Clone, Debug, PartialEq, Eq)]
pub enum Event {
    ConfigurationLoaded(ServerOptions),
    ConfigurationFailed(ConfigurationError),
    RoutesDiscovered(Vec<Route>),
    Bound,
    BindFailed,
}

/// The outside work to do next.
#[derive(Clone, Copy, Debug, PartialEq, Eq)]
pub enum Action {
    /// Read the configuration.
    LoadConfiguration,
    /// Find the routes of the application.
    DiscoverRoutes,
    /// Bind a listening socket at this address.
    Bind(SiteAddr),
    /// Accept connections and answer requests, for good.
    Serve,
    /// Report the error and end the process.
    Abort(StartupError),
    /// Nothing: the event has no meaning in this state.
    Ignore,
}

/// The state and the action that follow `event` in `state`.
pub open spec fn next(state: State, event: Event) -> (State, Action) {
    match (state, event) {
        (State::AwaitingConfiguration, Event::ConfigurationLoaded(options)) => (
            State::AwaitingRoutes(options),
            Action::DiscoverRoutes,
        ),
        (State::AwaitingConfiguration, Event::ConfigurationFailed(reason)) => (
            State::Failed(StartupError::Configuration(reason)),
            Action::Abort(StartupError::Configuration(reason)),
        ),
        (State::AwaitingRoutes(options), Event::RoutesDiscovered(routes)) => (
            State::AwaitingBind(Router { options, routes }),
            Action::Bind(options.site_addr),
        ),
        (State::AwaitingBind(router), Event::Bound) => (State::Serving(router), Action::Serve),
        (State::AwaitingBind(router), Event::BindFailed) => (
            State::Failed(StartupError::Bind),
            Action::Abort(StartupError::Bind),
        ),
        (state, _) => (state, Action::Ignore),
    }
}

/// The state a site is in after `events`, taken in order from `state`.
pub open spec fn run(state: State, events: Seq<Event>) -> State
    decreases events.len(),
{
    if events.len() == 0 {
        state
    } else {
        run(next(state, events[0]).0, events.subrange(1, events.len() as int))
    }
}

/// The actions that `events` call for, taken in order from `state`.
pub open spec fn actions(state: State, events: Seq<Event>) -> Seq<Action>
    decreases events.len(),
{
    if events.len() == 0 {
        Seq::empty()
    } else {
        seq![next(state, events[0]).1] + actions(
            next(state, events[0]).0,
            events.subrange(1, events.len() as int),
        )
    }
}

impl State {
    /// Whether the site is still starting.
    pub open spec fn starting(self) -> bool {
        self is AwaitingConfiguration || self is AwaitingRoutes || self is AwaitingBind
    }

    /// Whether the site answers requests.
    pub open spec fn serving(self) -> bool {
        self is Serving
    }

    /// Decides whether the site answers requests.
    pub fn is_serving(&self) -> (r: bool)
        ensures
            r == self.serving(),
    {
        match self {
            State::Serving(_) => true,
            _ => false,
        }
    }

    /// The dispatch table of a site that answers requests.
    pub fn router(&self) -> (r: Option<&Router>)
        ensures
            match *self {
                State::Serving(router) => r == Some(&router),
                _ => r.is_none(),
            },
    {
        match self {
            State::Serving(router) => Some(router),
            _ => None,
        }
    }
}

impl StartupError {
    /// The status the process ends with: never zero.
    pub fn exit_code(&self) -> (code: i32)
        ensures
            code == FAILURE_EXIT_CODE,
            code != 0,
    {
        FAILURE_EXIT_CODE
    }
}

/// Where every site begins: nothing is known, and the configuration is to be read.
pub fn start() -> (r: (State, Action))
    ensures
        r == (State::AwaitingConfiguration, Action::LoadConfiguration),
{
    (State::AwaitingConfiguration, Action::LoadConfiguration)
}

/// Takes the site from `state` over `event` to its next state, and says what to do next.
pub fn step(state: State, event: Event) -> (r: (State, Action))
    ensures
        r == next(state, event),
{
    match state {
        State::AwaitingConfiguration => match event {
            Event::ConfigurationLoaded(options) => (
                State::AwaitingRoutes(options),
                Action::DiscoverRoutes,
            ),
            Event::ConfigurationFailed(reason) => (
                State::Failed(StartupError::Configuration(reason)),
                Action::Abort(StartupError::Configuration(reason)),
            ),
            _ => (State::AwaitingConfiguration, Action::Ignore),
        },
        State::AwaitingRoutes(options) => match event {
            Event::RoutesDiscovered(routes) => {
                let addr: SiteAddr = options.site_addr();
                (State::AwaitingBind(build_router(options, routes)), Action::Bind(addr))
            },
            _ => (State::AwaitingRoutes(options), Action::Ignore),
        },
        State::AwaitingBind(router) => match event {
            Event::Bound => (State::Serving(router), Action::Serve),
            Event::BindFailed => (
                State::Failed(StartupError::Bind),
                Action::Abort(StartupError::Bind),
            ),
            _ => (State::AwaitingBind(router), Action::Ignore),
        },
        State::Serving(router) => (State::Serving(router), Action::Ignore),
        State::Failed(error) => (State::Failed(error), Action::Ignore),
    }
}

/// A site that serves goes on serving, through the same dispatch table,
/// whatever is reported to it, and is asked for no further work.
pub proof fn serving_is_for_good(router: Router, events: Seq<Event>)
    ensures
        run(State::Serving(router), events) == State::Serving(router),
        forall|k: int| 0 <= k < events.len() ==> actions(State::Serving(router), events)[k]
            == Action::Ignore,
        actions(State::Serving(router), events).len() == events.len(),
    decreases events.len(),
{
    if events.len() > 0 {
        serving_is_for_good(router, events.subrange(1, events.len() as int));
    }
}

/// A failed start stays failed whatever is reported afterwards, and asks
/// for no further work: nothing is bound and nothing is served.
pub proof fn failure_is_final(error: StartupError, events: Seq<Event>)
    ensures
        run(State::Failed(error), events) == State::Failed(error),
        forall|k: int| 0 <= k < events.len() ==> actions(State::Failed(error), events)[k]
            == Action::Ignore,
        actions(State::Failed(error), events).len() == events.len(),
    decreases events.len(),
{
    if events.len() > 0 {
        failure_is_final(error, events.subrange(1, events.len() as int));
    }
}

/// Without a configuration the site aborts at once and never starts in
/// part: whatever is reported afterwards, it is not serving and the only
/// action asked for is the abort.
pub proof fn no_start_without_configuration(reason: ConfigurationError, events: Seq<Event>)
    ensures
        next(State::AwaitingConfiguration, Event::ConfigurationFailed(reason)).1 == Action::Abort(
            StartupError::Configuration(reason),
        ),
        !run(
            State::AwaitingConfiguration,
            seq![Event::ConfigurationFailed(reason)] + events,
        ).serving(),
        forall|k: int| 1 <= k <= events.len() ==> actions(
            State::AwaitingConfiguration,
            seq![Event::ConfigurationFailed(reason)] + events,
        )[k] == Action::Ignore,
{
    let all = seq![Event::ConfigurationFailed(reason)] + events;
    assert(all.subrange(1, all.len() as int) =~= events);
    failure_is_final(StartupError::Configuration(reason), events);
}

/// A start that meets no failure serves with exactly the configuration
/// that was loaded and the routes that were found, and binds the address
/// that the configuration names.
pub proof fn start_keeps_configuration(options: ServerOptions, routes: Vec<Route>)
    ensures
        actions(
            State::AwaitingConfiguration,
            seq![Event::ConfigurationLoaded(options), Event::RoutesDiscovered(routes), Event::Bound],
        ) == seq![Action::DiscoverRoutes, Action::Bind(options.site_addr), Action::Serve],
        run(
            State::AwaitingConfiguration,
            seq![Event::ConfigurationLoaded(options), Event::RoutesDiscovered(routes), Event::Bound],
        ) == State::Serving(Router { options, routes }),
{
    let e0 = Event::ConfigurationLoaded(options);
    let e1 = Event::RoutesDiscovered(routes);
    let e2 = Event::Bound;
    let all = seq![e0, e1, e2];
    let s1 = State::AwaitingRoutes(options);
    let s2 = State::AwaitingBind(Router { options, routes });
    let s3 = State::Serving(Router { options, routes });
    assert(all.subrange(1, 3) =~= seq![e1, e2]);
    assert(seq![e1, e2].subrange(1, 2) =~= seq![e2]);
    assert(seq![e2].subrange(1, 1) =~= Seq::<Event>::empty());
    assert(run(s3, Seq::<Event>::empty()) == s3);
    assert(run(s2, seq![e2]) == s3);
    assert(run(s1, seq![e1, e2]) == s3);
    assert(actions(s3, Seq::<Event>::empty()) =~= Seq::<Action>::empty());
    assert(actions(s2, seq![e2]) =~= seq![Action::Serve]);
    assert(actions(s1, seq![e1, e2]) =~= seq![Action::Bind(options.site_addr), Action::Serve]);
    assert(actions(State::AwaitingConfiguration, all) =~= seq![
        Action::DiscoverRoutes,
        Action::Bind(options.site_addr),
        Action::Serve,
    ]);
}

/// Whether `events` hold the reports that `state` rests on: the
/// configuration and the routes it carries, and the bound socket if it serves.
pub open spec fn rests_on(state: State, events: Seq<Event>) -> bool {
    match state {
        State::AwaitingConfiguration => true,
        State::AwaitingRoutes(options) => events.contains(Event::ConfigurationLoaded(options)),
        State::AwaitingBind(router) => {
            &&& events.contains(Event::ConfigurationLoaded(router.options))
            &&& events.contains(Event::RoutesDiscovered(router.routes))
        },
        State::Serving(router) => {
            &&& events.contains(Event::ConfigurationLoaded(router.options))
            &&& events.contains(Event::RoutesDiscovered(router.routes))
            &&& events.contains(Event::Bound)
        },
        State::Failed(_) => true,
    }
}

/// One more report keeps a state resting on what was reported.
pub proof fn step_rests_on_reports(state: State, seen: Seq<Event>, event: Event)
    requires
        rests_on(state, seen),
    ensures
        rests_on(next(state, event).0, seen.push(event)),
{
    let all = seen.push(event);
    assert(all[seen.len() as int] == event);
    assert forall|e: Event| seen.contains(e) implies all.contains(e) by {
        let i = choose|i: int| 0 <= i < seen.len() && seen[i] == e;
        assert(all[i] == e);
    }
}

/// Any further reports keep a state resting on what was reported.
pub proof fn run_rests_on_reports(state: State, seen: Seq<Event>, events: Seq<Event>)
    requires
        rests_on(state, seen),
    ensures
        rests_on(run(state, events), seen + events),
    decreases events.len(),
{
    if events.len() == 0 {
        assert(seen + events =~= seen);
    } else {
        let rest = events.subrange(1, events.len() as int);
        step_rests_on_reports(state, seen, events[0]);
        run_rests_on_reports(next(state, events[0]).0, seen.push(events[0]), rest);
        assert(seen.push(events[0]) + rest =~= seen + events);
    }
}

/// Nothing starts in part: after any reports whatever, a site serves only
/// if its configuration was loaded, its routes were found and its socket
/// was bound, and then it serves with exactly that configuration and those
/// routes.
pub proof fn serving_needs_a_full_start(events: Seq<Event>)
    ensures
        rests_on(run(State::AwaitingConfiguration, events), events),
        forall|router: Router|
            run(State::AwaitingConfiguration, events) == State::Serving(router) ==> {
                &&& events.contains(Event::ConfigurationLoaded(router.options))
                &&& events.contains(Event::RoutesDiscovered(router.routes))
                &&& events.contains(Event::Bound)
            },
{
    run_rests_on_reports(State::AwaitingConfiguration, Seq::empty(), events);
    assert(Seq::<Event>::empty() + events =~= events);
}

/// A site never goes back: from a state that is not starting, no report
/// leads to one that is.
pub proof fn never_back_to_starting(state: State, event: Event)
    requires
        !state.starting(),
    ensures
        !next(state, event).0.starting(),
        next(state, event).0 == state,
{
}

} // verus!
