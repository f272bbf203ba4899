//! The course of one `GET /users` request.
//!
//! A request works on the one store connection that all requests share. It
//! waits until the connection is its own, sends the query, reads the
//! results, gives the connection back and only then turns rows into
//! records. [`step`] decides what comes next; the caller does it and
//! reports back what happened.

use vstd::prelude::*;
use vstd::string::*;
use crate::handlers::{
    get_users, listing_response, Outcome, OutcomeView, Response, ResponseView, USERS_QUERY,
};
use crate::store::{ColumnView, Row};

verus! {

/// How far a request has come.
#[derive(Debug, Clone, PartialEq, Eq)]
pub enum Phase {
    /// Nothing was done yet.
    Idle,
    /// The request waits for the connection.
    Acquiring,
    /// The connection is the request's own and the query is under way.
    Querying,
    /// The store took the query and the results are being read.
    Fetching,
    /// The store's part is over, the connection is to be given back.
    Releasing(Outcome),
    /// The request was answered.
    Done,
}

/// The mathematical value of a [`Phase`].
pub enum PhaseView {
    Idle,
    Acquiring,
    Querying,
    Fetching,
    Releasing(OutcomeView),
    Done,
}

impl View for Phase {
    type V = PhaseView;

    open spec fn view(&self) -> PhaseView {
        match self {
            Phase::Idle => PhaseView::Idle,
            Phase::Acquiring => PhaseView::Acquiring,
            Phase::Querying => PhaseView::Querying,
            Phase::Fetching => PhaseView::Fetching,
            Phase::Releasing(outcome) => PhaseView::Releasing(outcome@),
            Phase::Done => PhaseView::Done,
        }
    }
}

/// What happened outside since the last step.
#[derive(Debug, Clone, PartialEq, Eq)]
pub enum Event {
    /// A request for the listing came in.
    Requested,
    /// The connection was handed to this request.
    Acquired,
    /// The store executed the query.
    QueryAccepted,
    /// The store did not execute the query.
    QueryRejected,
    /// The results were read: the result sets, each with its rows in order.
    Fetched(Vec<Vec<Row>>),
    /// Reading the results failed.
    FetchFailed,
    /// The connection was given back.
    Released,
}

/// The mathematical value of an [`Event`].
pub enum EventView {
    Requested,
    Acquired,
    QueryAccepted,
    QueryRejected,
    Fetched(Seq<Seq<Seq<ColumnView>>>),
    FetchFailed,
    Released,
}

impl View for Event {
    type V = EventView;

    open spec fn view(&self) -> EventView {
        match self {
            Event::Requested => EventView::Requested,
            Event::Acquired => EventView::Acquired,
            Event::QueryAccepted => EventView::QueryAccepted,
            Event::QueryRejected => EventView::QueryRejected,
            Event::Fetched(sets) => EventView::Fetched(sets.deep_view()),
            Event::FetchFailed => EventView::FetchFailed,
            Event::Released => EventView::Released,
        }
    }
}

/// What the caller is to do next.
#[derive(Debug, Clone, PartialEq, Eq)]
pub enum Action {
    /// Wait for the connection and take it.
    Acquire,
    /// Send this query on the connection.
    Query(String),
    /// Read all results of the query.
    Fetch,
    /// Give the connection back.
    Release,
    /// Send this answer.
    Respond(Response),
}

/// The mathematical value of an [`Action`].
pub enum ActionView {
    Acquire,
    Query(Seq<char>),
    Fetch,
    Release,
    Respond(ResponseView),
}

impl View for Action {
    type V = ActionView;

    open spec fn view(&self) -> ActionView {
        match self {
            Action::Acquire => ActionView::Acquire,
            Action::Query(text) => ActionView::Query(text@),
            Action::Fetch => ActionView::Fetch,
            Action::Release => ActionView::Release,
            Action::Respond(response) => ActionView::Respond(response@),
        }
    }
}

impl DeepView for Action {
    type V = ActionView;

    open spec fn deep_view(&self) -> ActionView {
        self@
    }
}

/// The phase after `event` and the action that it calls for. An event that
/// the phase does not wait for changes nothing and calls for nothing.
pub open spec fn next(phase: PhaseView, event: EventView) -> (PhaseView, Option<ActionView>) {
    match (phase, event) {
        (PhaseView::Idle, EventView::Requested) => (
            PhaseView::Acquiring,
            Some(ActionView::Acquire),
        ),
        (PhaseView::Acquiring, EventView::Acquired) => (
            PhaseView::Querying,
            Some(ActionView::Query(USERS_QUERY@)),
        ),
        (PhaseView::Querying, EventView::QueryAccepted) => (
            PhaseView::Fetching,
            Some(ActionView::Fetch),
        ),
        (PhaseView::Querying, EventView::QueryRejected) => (
            PhaseView::Releasing(OutcomeView::QueryFailed),
            Some(ActionView::Release),
        ),
        (PhaseView::Fetching, EventView::Fetched(sets)) => (
            PhaseView::Releasing(OutcomeView::Rows(sets)),
            Some(ActionView::Release),
        ),
        (PhaseView::Fetching, EventView::FetchFailed) => (
            PhaseView::Releasing(OutcomeView::FetchFailed),
            Some(ActionView::Release),
        ),
        (PhaseView::Releasing(outcome), EventView::Released) => (
            PhaseView::Done,
            Some(ActionView::Respond(listing_response(outcome))),
        ),
        _ => (phase, None),
    }
}

/// Takes a request one step further: from the phase it is in and what
/// happened, to the phase it is in now and what to do next.
pub fn step(phase: Phase, event: Event) -> (r: (Phase, Option<Action>))
    ensures
        (r.0@, r.1.deep_view()) == next(phase@, event@),
{
    match (phase, event) {
        (Phase::Idle, Event::Requested) => (Phase::Acquiring, Some(Action::Acquire)),
        (Phase::Acquiring, Event::Acquired) => (
            Phase::Querying,
            Some(Action::Query(String::from_str(USERS_QUERY))),
        ),
        (Phase::Querying, Event::QueryAccepted) => (Phase::Fetching, Some(Action::Fetch)),
        (Phase::Querying, Event::QueryRejected) => (
            Phase::Releasing(Outcome::QueryFailed),
            Some(Action::Release),
        ),
        (Phase::Fetching, Event::Fetched(sets)) => (
            Phase::Releasing(Outcome::Rows(sets)),
            Some(Action::Release),
        ),
        (Phase::Fetching, Event::FetchFailed) => (
            Phase::Releasing(Outcome::FetchFailed),
            Some(Action::Release),
        ),
        (Phase::Releasing(outcome), Event::Released) => (
            Phase::Done,
            Some(Action::Respond(get_users(&outcome))),
        ),
        (phase, _) => (phase, None),
    }
}

/// The request has the connection for itself.
pub open spec fn holds_connection(phase: PhaseView) -> bool {
    phase is Querying || phase is Fetching || phase is Releasing
}

/// The action works on the connection.
pub open spec fn uses_connection(action: ActionView) -> bool {
    action is Query || action is Fetch
}

/// How far a phase is from the start.
pub open spec fn rank(phase: PhaseView) -> int {
    match phase {
        PhaseView::Idle => 0,
        PhaseView::Acquiring => 1,
        PhaseView::Querying => 2,
        PhaseView::Fetching => 3,
        PhaseView::Releasing(_) => 4,
        PhaseView::Done => 5,
    }
}

/// The place of an action in the course of a request.
pub open spec fn place(action: ActionView) -> int {
    match action {
        ActionView::Acquire => 1,
        ActionView::Query(_) => 2,
        ActionView::Fetch => 3,
        ActionView::Release => 4,
        ActionView::Respond(_) => 5,
    }
}

/// The phase that a run of events ends in, and the actions that it called
/// for, in order.
#[verifier::opaque]
pub open spec fn run(phase: PhaseView, events: Seq<EventView>) -> (PhaseView, Seq<ActionView>)
    decreases events.len(),
{
    if events.len() == 0 {
        (phase, Seq::empty())
    } else {
        let (mid, action) = next(phase, events.first());
        let (last, rest) = run(mid, events.drop_first());
        match action {
            Some(a) => (last, seq![a] + rest),
            None => (last, rest),
        }
    }
}

/// The events of a request that meets nothing unexpected, by what the store
/// does with the query.
pub open spec fn events_of(outcome: OutcomeView) -> Seq<EventView> {
    match outcome {
        OutcomeView::QueryFailed => seq![
            EventView::Requested,
            EventView::Acquired,
            EventView::QueryRejected,
            EventView::Released,
        ],
        OutcomeView::FetchFailed => seq![
            EventView::Requested,
            EventView::Acquired,
            EventView::QueryAccepted,
            EventView::FetchFailed,
            EventView::Released,
        ],
        OutcomeView::Rows(sets) => seq![
            EventView::Requested,
            EventView::Acquired,
            EventView::QueryAccepted,
            EventView::Fetched(sets),
            EventView::Released,
        ],
    }
}

/// The actions of a request that meets nothing unexpected.
pub open spec fn actions_of(outcome: OutcomeView) -> Seq<ActionView> {
    if outcome is QueryFailed {
        seq![
            ActionView::Acquire,
            ActionView::Query(USERS_QUERY@),
            ActionView::Release,
            ActionView::Respond(listing_response(outcome)),
        ]
    } else {
        seq![
            ActionView::Acquire,
            ActionView::Query(USERS_QUERY@),
            ActionView::Fetch,
            ActionView::Release,
            ActionView::Respond(listing_response(outcome)),
        ]
    }
}

/// A run that begins with `event` is the step for it, then the run of the
/// rest.
proof fn lemma_run_first(phase: PhaseView, event: EventView, rest: Seq<EventView>)
    ensures
        run(phase, seq![event] + rest) == (
            run(next(phase, event).0, rest).0,
            match next(phase, event).1 {
                Some(action) => seq![action] + run(next(phase, event).0, rest).1,
                None => run(next(phase, event).0, rest).1,
            },
        ),
{
    reveal(run);
    let events = seq![event] + rest;
    assert(events.drop_first() =~= rest);
}

/// A run of no events stays where it is and calls for nothing.
proof fn lemma_run_nothing(phase: PhaseView)
    ensures
        run(phase, Seq::empty()) == (phase, Seq::<ActionView>::empty()),
{
    reveal(run);
}

/// A request runs from start to end in one pass: it takes the connection,
/// sends the one query, reads the results unless the query was refused,
/// gives the connection back and answers as [`get_users`] does for what the
/// store did.
pub proof fn law_request_runs_through(outcome: OutcomeView)
    ensures
        run(PhaseView::Idle, events_of(outcome)) == (PhaseView::Done, actions_of(outcome)),
{
    let none = Seq::<EventView>::empty();
    let released = seq![EventView::Released] + none;
    let held = PhaseView::Releasing(outcome);
    lemma_run_nothing(PhaseView::Done);
    lemma_run_first(held, EventView::Released, none);
    match outcome {
        OutcomeView::QueryFailed => {
            let e2 = seq![EventView::QueryRejected] + released;
            let e1 = seq![EventView::Acquired] + e2;
            let e0 = seq![EventView::Requested] + e1;
            lemma_run_first(PhaseView::Querying, EventView::QueryRejected, released);
            lemma_run_first(PhaseView::Acquiring, EventView::Acquired, e2);
            lemma_run_first(PhaseView::Idle, EventView::Requested, e1);
            assert(e0 =~= events_of(outcome));
        },
        OutcomeView::FetchFailed => {
            let e3 = seq![EventView::FetchFailed] + released;
            let e2 = seq![EventView::QueryAccepted] + e3;
            let e1 = seq![EventView::Acquired] + e2;
            let e0 = seq![EventView::Requested] + e1;
            lemma_run_first(PhaseView::Fetching, EventView::FetchFailed, released);
            lemma_run_first(PhaseView::Querying, EventView::QueryAccepted, e3);
            lemma_run_first(PhaseView::Acquiring, EventView::Acquired, e2);
            lemma_run_first(PhaseView::Idle, EventView::Requested, e1);
            assert(e0 =~= events_of(outcome));
        },
        OutcomeView::Rows(sets) => {
            let e3 = seq![EventView::Fetched(sets)] + released;
            let e2 = seq![EventView::QueryAccepted] + e3;
            let e1 = seq![EventView::Acquired] + e2;
            let e0 = seq![EventView::Requested] + e1;
            lemma_run_first(PhaseView::Fetching, EventView::Fetched(sets), released);
            lemma_run_first(PhaseView::Querying, EventView::QueryAccepted, e3);
            lemma_run_first(PhaseView::Acquiring, EventView::Acquired, e2);
            lemma_run_first(PhaseView::Idle, EventView::Requested, e1);
            assert(e0 =~= events_of(outcome));
        },
    }
}

/// Every step that does anything takes the request further, and the action
/// that it calls for is the one that belongs to the new phase.
pub proof fn law_steps_advance(phase: PhaseView, event: EventView)
    ensures
        match next(phase, event).1 {
            Some(action) => rank(phase) < rank(next(phase, event).0) && place(action) == rank(
                next(phase, event).0,
            ),
            None => next(phase, event).0 == phase,
        },
{
}

/// Whatever events arrive, in whatever order, a request does each thing at
/// most once and in the order of a single cycle: take the connection,
/// query, read, give back, answer.
pub proof fn law_single_cycle(phase: PhaseView, events: Seq<EventView>)
    ensures
        rank(phase) <= rank(run(phase, events).0),
        forall|i: int|
            0 <= i < run(phase, events).1.len() ==> rank(phase) < place(
                #[trigger] run(phase, events).1[i],
            ) <= rank(run(phase, events).0),
        forall|i: int, j: int|
            0 <= i < j < run(phase, events).1.len() ==> place(#[trigger] run(phase, events).1[i])
                < place(#[trigger] run(phase, events).1[j]),
    decreases events.len(),
{
    reveal(run);
    if events.len() > 0 {
        let mid = next(phase, events.first()).0;
        law_steps_advance(phase, events.first());
        law_single_cycle(mid, events.drop_first());
    }
}

/// A request works on the connection only while it has it for itself, and
/// answers only after it gave it back. It comes by the connection only by
/// being handed it, and parts with it only by giving it back.
pub proof fn law_connection_discipline(phase: PhaseView, event: EventView)
    ensures
        next(phase, event).1 matches Some(action) && uses_connection(action) ==> holds_connection(
            next(phase, event).0,
        ),
        next(phase, event).1 matches Some(ActionView::Respond(_)) ==> holds_connection(phase)
            && !holds_connection(next(phase, event).0),
        !holds_connection(phase) && holds_connection(next(phase, event).0) <==> phase is Acquiring
            && event is Acquired,
        holds_connection(phase) && !holds_connection(next(phase, event).0) <==> phase is Releasing
            && event is Released,
{
}

/// At most one of the requests has the connection.
pub open spec fn exclusive(requests: Seq<PhaseView>) -> bool {
    forall|i: int, j: int|
        0 <= i < requests.len() && 0 <= j < requests.len() && holds_connection(
            #[trigger] requests[i],
        ) && holds_connection(#[trigger] requests[j]) ==> i == j
}

/// None of the requests has the connection.
pub open spec fn free(requests: Seq<PhaseView>) -> bool {
    forall|i: int| 0 <= i < requests.len() ==> !holds_connection(#[trigger] requests[i])
}

/// `event` can reach request `i` now: the connection is handed out only
/// while no request has it.
pub open spec fn can_happen(requests: Seq<PhaseView>, i: int, event: EventView) -> bool {
    &&& 0 <= i < requests.len()
    &&& event is Acquired ==> free(requests)
}

/// The requests after `event` reached request `i`.
pub open spec fn after(requests: Seq<PhaseView>, i: int, event: EventView) -> Seq<PhaseView> {
    requests.update(i, next(requests[i], event).0)
}

/// Requests that have not begun share the connection without conflict.
pub proof fn law_idle_is_exclusive(requests: Seq<PhaseView>)
    requires
        forall|i: int| 0 <= i < requests.len() ==> #[trigger] requests[i] is Idle,
    ensures
        exclusive(requests),
        free(requests),
{
}

/// Where the connection is handed out only while no request has it, the
/// requests never have it two at a time, however their steps are mixed;
/// and a request that is told to query or to read is the only one that has
/// the connection then.
pub proof fn law_one_request_at_a_time(requests: Seq<PhaseView>, i: int, event: EventView)
    requires
        exclusive(requests),
        can_happen(requests, i, event),
    ensures
        exclusive(after(requests, i, event)),
        next(requests[i], event).1 matches Some(action) && uses_connection(action) ==> forall|
            j: int,
        |
            0 <= j < requests.len() && j != i ==> !holds_connection(
                #[trigger] after(requests, i, event)[j],
            ),
{
    law_connection_discipline(requests[i], event);
}

/// Every event of `schedule`, each with the request that it reaches, can
/// happen when its turn comes.
pub open spec fn admissible(requests: Seq<PhaseView>, schedule: Seq<(int, EventView)>) -> bool
    decreases schedule.len(),
{
    schedule.len() == 0 || {
        &&& can_happen(requests, schedule[0].0, schedule[0].1)
        &&& admissible(after(requests, schedule[0].0, schedule[0].1), schedule.drop_first())
    }
}

/// The requests after all events of `schedule` reached them in order.
pub open spec fn after_all(requests: Seq<PhaseView>, schedule: Seq<(int, EventView)>) -> Seq<
    PhaseView,
>
    decreases schedule.len(),
{
    if schedule.len() == 0 {
        requests
    } else {
        after_all(after(requests, schedule[0].0, schedule[0].1), schedule.drop_first())
    }
}

/// Where the connection is handed out only while no request has it, no mix
/// of the steps of any number of requests brings two of them to have it at
/// once.
pub proof fn law_requests_take_turns(requests: Seq<PhaseView>, schedule: Seq<(int, EventView)>)
    requires
        exclusive(requests),
        admissible(requests, schedule),
    ensures
        exclusive(after_all(requests, schedule)),
    decreases schedule.len(),
{
    if schedule.len() > 0 {
        law_one_request_at_a_time(requests, schedule[0].0, schedule[0].1);
        law_requests_take_turns(
            after(requests, schedule[0].0, schedule[0].1),
            schedule.drop_first(),
        );
    }
}

} // verus!
