//! One run of the menu, as a state machine.
//!
//! A run fetches the queue, presents it, and dismisses what was picked. The
//! three outside calls are made by the driver; after each of them the driver
//! reports the outcome as an [`Event`], and [`step`] answers with the next
//! [`State`] and the [`Action`] to perform.

use crate::notification::{views, Notification, NotificationView};
use crate::ordering::{order, stable_ordering};
use crate::presenter::{
    display_lines, is_first_shown_as, lemma_resolved_is_fetched, menu_style, menu_style_spec,
    render_all, resolve, resolved_id, texts, MenuStyle, MenuStyleView,
};
use vstd::prelude::*;

verus! {

/// Exit code of a run that dismissed a notification or was cancelled.
pub const EXIT_SUCCESS: i32 = 0;

/// Exit code of a run in which a call to the daemon failed.
pub const EXIT_FAILURE: i32 = 1;

/// Where a run stands.
#[derive(Debug, PartialEq, Eq)]
pub enum State {
    /// Nothing has happened yet.
    Start,
    /// The queue has been asked for.
    Fetching,
    /// The menu is open on the queue, held here in the order fetched.
    Presenting { queue: Vec<Notification> },
    /// The daemon has been asked to close the notification `id`.
    Dismissing { id: u32 },
    /// The run is over and did what it was asked.
    Done,
    /// The run is over because a call to the daemon failed. No call is
    /// tried again.
    Failed,
}

/// What the driver reports.
#[derive(Debug, PartialEq, Eq)]
pub enum Event {
    /// The program was started.
    Launched,
    /// The daemon answered with its queue.
    Fetched { queue: Vec<Notification> },
    /// The queue could not be had: a transport error, described by `error`.
    FetchFailed { error: String },
    /// The user picked a line of the menu.
    Selected { line: String },
    /// The menu was closed without a pick.
    Cancelled,
    /// The daemon closed the notification.
    Dismissed,
    /// The notification could not be closed: a transport error, described
    /// by `error`.
    DismissFailed { error: String },
}

/// What the driver is to do next.
#[derive(Debug, PartialEq, Eq)]
pub enum Action {
    /// Ask the daemon for its queue.
    Fetch,
    /// Open the menu on these lines, in this order and in this style.
    Present { lines: Vec<String>, style: MenuStyle },
    /// Ask the daemon to close the notification `id`.
    Dismiss { id: u32 },
    /// End the process with this code, after reporting the error, if there
    /// is one, to the user.
    Exit { code: i32, error: Option<String> },
}

/// The mathematical value of a [`State`].
pub ghost enum StateView {
    Start,
    Fetching,
    Presenting { queue: Seq<NotificationView> },
    Dismissing { id: u32 },
    Done,
    Failed,
}

/// The mathematical value of an [`Event`].
pub ghost enum EventView {
    Launched,
    Fetched { queue: Seq<NotificationView> },
    FetchFailed { error: Seq<char> },
    Selected { line: Seq<char> },
    Cancelled,
    Dismissed,
    DismissFailed { error: Seq<char> },
}

/// The mathematical value of an [`Action`].
pub ghost enum ActionView {
    Fetch,
    Present { lines: Seq<Seq<char>>, style: MenuStyleView },
    Dismiss { id: u32 },
    Exit { code: i32, error: Option<Seq<char>> },
}

impl View for State {
    type V = StateView;

    open spec fn view(&self) -> StateView {
        match *self {
            State::Start => StateView::Start,
            State::Fetching => StateView::Fetching,
            State::Presenting { queue } => StateView::Presenting { queue: views(queue@) },
            State::Dismissing { id } => StateView::Dismissing { id },
            State::Done => StateView::Done,
            State::Failed => StateView::Failed,
        }
    }
}

impl View for Event {
    type V = EventView;

    open spec fn view(&self) -> EventView {
        match *self {
            Event::Launched => EventView::Launched,
            Event::Fetched { queue } => EventView::Fetched { queue: views(queue@) },
            Event::FetchFailed { error } => EventView::FetchFailed { error: error@ },
            Event::Selected { line } => EventView::Selected { line: line@ },
            Event::Cancelled => EventView::Cancelled,
            Event::Dismissed => EventView::Dismissed,
            Event::DismissFailed { error } => EventView::DismissFailed { error: error@ },
        }
    }
}

impl View for Action {
    type V = ActionView;

    open spec fn view(&self) -> ActionView {
        match *self {
            Action::Fetch => ActionView::Fetch,
            Action::Present { lines, style } => ActionView::Present {
                lines: texts(lines@),
                style: style@,
            },
            Action::Dismiss { id } => ActionView::Dismiss { id },
            Action::Exit { code, error } => ActionView::Exit {
                code,
                error: match error {
                    Some(error) => Some(error@),
                    None => None,
                },
            },
        }
    }
}

/// The exit of a run that did what it was asked: success, and nothing to
/// report.
pub open spec fn exit_done() -> ActionView {
    ActionView::Exit { code: EXIT_SUCCESS, error: None }
}

/// The exit of a run in which a call to the daemon failed: failure, and the
/// error to report.
pub open spec fn exit_failed(error: Seq<char>) -> ActionView {
    ActionView::Exit { code: EXIT_FAILURE, error: Some(error) }
}

/// The transition that `event` causes in `state`, or `None` where the state
/// does not await that event.
pub open spec fn step_spec(state: StateView, event: EventView) -> Option<(StateView, ActionView)> {
    match (state, event) {
        (StateView::Start, EventView::Launched) => Some(
            (StateView::Fetching, ActionView::Fetch),
        ),
        (StateView::Fetching, EventView::Fetched { queue }) => Some(
            (
                StateView::Presenting { queue },
                ActionView::Present {
                    lines: render_all(stable_ordering(queue)),
                    style: menu_style_spec(),
                },
            ),
        ),
        (StateView::Fetching, EventView::FetchFailed { error }) => Some(
            (StateView::Failed, exit_failed(error)),
        ),
        (StateView::Presenting { queue }, EventView::Selected { line }) => match resolved_id(
            queue,
            line,
        ) {
            Some(id) => Some((StateView::Dismissing { id }, ActionView::Dismiss { id })),
            None => Some((StateView::Done, exit_done())),
        },
        (StateView::Presenting { .. }, EventView::Cancelled) => Some(
            (StateView::Done, exit_done()),
        ),
        (StateView::Dismissing { .. }, EventView::Dismissed) => Some(
            (StateView::Done, exit_done()),
        ),
        (StateView::Dismissing { .. }, EventView::DismissFailed { error }) => Some(
            (StateView::Failed, exit_failed(error)),
        ),
        _ => None,
    }
}

/// The view of what [`step`] returns.
pub open spec fn transition_view(t: Option<(State, Action)>) -> Option<(StateView, ActionView)> {
    match t {
        Some((next, action)) => Some((next@, action@)),
        None => None,
    }
}

/// Copies the queue, record by record.
fn copy_queue(queue: &Vec<Notification>) -> (copy: Vec<Notification>)
    ensures
        copy@ == queue@,
{
    let mut copy: Vec<Notification> = Vec::new();
    let mut i: usize = 0;
    while i < queue.len()
        invariant
            i <= queue.len(),
            copy@ == queue@.take(i as int),
        decreases queue.len() - i,
    {
        copy.push(queue[i].clone());
        i += 1;
        proof {
            assert(copy@ =~= queue@.take(i as int));
        }
    }
    proof {
        assert(queue@.take(queue@.len() as int) =~= queue@);
    }
    copy
}

/// The exit of a run that did what it was asked.
fn succeed() -> (action: Action)
    ensures
        action@ == exit_done(),
{
    Action::Exit { code: EXIT_SUCCESS, error: None }
}

/// The exit of a run in which a call to the daemon failed with `error`.
fn fail(error: String) -> (action: Action)
    ensures
        action@ == exit_failed(error@),
{
    Action::Exit { code: EXIT_FAILURE, error: Some(error) }
}

/// Advances the run by one event.
///
/// Returns the next state and the action that the driver is to perform, or
/// `None` where `state` does not await `event`: the run then has no next
/// step.
pub fn step(state: State, event: Event) -> (transition: Option<(State, Action)>)
    ensures
        transition_view(transition) == step_spec(state@, event@),
{
    match state {
        State::Start => match event {
            Event::Launched => Some((State::Fetching, Action::Fetch)),
            _ => None,
        },
        State::Fetching => match event {
            Event::Fetched { queue } => {
                let ordered = order(copy_queue(&queue));
                let lines = display_lines(&ordered);
                Some((State::Presenting { queue }, Action::Present { lines, style: menu_style() }))
            },
            Event::FetchFailed { error } => Some((State::Failed, fail(error))),
            _ => None,
        },
        State::Presenting { queue } => match event {
            Event::Selected { line } => match resolve(&queue, &line) {
                Some(i) => {
                    let id = queue[i].id;
                    Some((State::Dismissing { id }, Action::Dismiss { id }))
                },
                None => Some((State::Done, succeed())),
            },
            Event::Cancelled => Some((State::Done, succeed())),
            _ => None,
        },
        State::Dismissing { id } => match event {
            Event::Dismissed => Some((State::Done, succeed())),
            Event::DismissFailed { error } => Some((State::Failed, fail(error))),
            _ => None,
        },
        State::Done => None,
        State::Failed => None,
    }
}

/// The actions that a run issues, in order, when the driver reports
/// `events` one after the other from `state` on. The run ends with the last
/// event, or before it at the first event that the state reached does not
/// await.
pub open spec fn run_actions(state: StateView, events: Seq<EventView>) -> Seq<ActionView>
    decreases events.len(),
{
    if events.len() == 0 {
        Seq::empty()
    } else {
        match step_spec(state, events[0]) {
            Some((next, action)) => seq![action] + run_actions(next, events.drop_first()),
            None => Seq::empty(),
        }
    }
}

/// `Done` and `Failed` are terminal: no event leads out of them.
pub proof fn lemma_terminal_states(event: EventView)
    ensures
        step_spec(StateView::Done, event) is None,
        step_spec(StateView::Failed, event) is None,
{
}

/// A run exits exactly when it reaches a terminal state: with success and
/// nothing to report where that state is `Done`, with failure and the error
/// of the failed call where it is `Failed`.
pub proof fn lemma_exit_is_terminal(state: StateView, event: EventView)
    ensures
        step_spec(state, event) matches Some((next, action)) ==> {
            &&& action is Exit <==> next is Done || next is Failed
            &&& next is Done ==> action == exit_done()
            &&& next is Failed ==> action->code == EXIT_FAILURE && action->error is Some
        },
        EXIT_SUCCESS == 0,
        EXIT_FAILURE != 0,
{
}

/// A run that has reached a terminal state issues nothing more.
pub proof fn lemma_nothing_after_exit(state: StateView, events: Seq<EventView>)
    requires
        state is Done || state is Failed,
    ensures
        run_actions(state, events) == Seq::<ActionView>::empty(),
{
    if events.len() > 0 {
        lemma_terminal_states(events[0]);
    }
}

/// Cancellation is a no-op: when the menu is closed without a pick, the run
/// exits with success, and whatever is reported afterwards, nothing is
/// dismissed.
pub proof fn lemma_cancellation_dismisses_nothing(
    queue: Seq<NotificationView>,
    later: Seq<EventView>,
)
    ensures
        step_spec(StateView::Presenting { queue }, EventView::Cancelled) == Some(
            (StateView::Done, exit_done()),
        ),
        run_actions(StateView::Presenting { queue }, seq![EventView::Cancelled] + later)
            == seq![exit_done()],
        exit_done()->code == 0,
{
    let events = seq![EventView::Cancelled] + later;
    assert(events[0] == EventView::Cancelled);
    lemma_nothing_after_exit(StateView::Done, events.drop_first());
    assert(seq![exit_done()] + Seq::<ActionView>::empty() =~= seq![exit_done()]);
}

/// A pick that stands for nothing is as good as none: the run exits with
/// success, and whatever is reported afterwards, nothing is dismissed.
pub proof fn lemma_unknown_pick_dismisses_nothing(
    queue: Seq<NotificationView>,
    line: Seq<char>,
    later: Seq<EventView>,
)
    requires
        resolved_id(queue, line) is None,
    ensures
        run_actions(
            StateView::Presenting { queue },
            seq![EventView::Selected { line }] + later,
        ) == seq![exit_done()],
{
    let events = seq![EventView::Selected { line }] + later;
    assert(events[0] == EventView::Selected { line });
    lemma_nothing_after_exit(StateView::Done, events.drop_first());
    assert(seq![exit_done()] + Seq::<ActionView>::empty() =~= seq![exit_done()]);
}

/// A fetch failure short-circuits the run: it reports the error and exits
/// with failure, and whatever is reported afterwards, the menu is never
/// opened and nothing is dismissed.
pub proof fn lemma_fetch_failure_ends_run(error: Seq<char>, later: Seq<EventView>)
    ensures
        step_spec(StateView::Fetching, EventView::FetchFailed { error }) == Some(
            (StateView::Failed, exit_failed(error)),
        ),
        run_actions(
            StateView::Start,
            seq![EventView::Launched, EventView::FetchFailed { error }] + later,
        ) == seq![ActionView::Fetch, exit_failed(error)],
        exit_failed(error)->code != 0,
{
    let events = seq![EventView::Launched, EventView::FetchFailed { error }] + later;
    let after_launch = events.drop_first();
    assert(events[0] == EventView::Launched);
    assert(after_launch[0] == EventView::FetchFailed { error });
    lemma_nothing_after_exit(StateView::Failed, after_launch.drop_first());
    assert(run_actions(StateView::Fetching, after_launch) =~= seq![exit_failed(error)]);
    assert(run_actions(StateView::Start, events) =~= seq![ActionView::Fetch, exit_failed(error)]);
}

/// A failed dismissal fails the run: it reports the error and exits with
/// failure, and issues nothing more.
pub proof fn lemma_dismiss_failure_ends_run(id: u32, error: Seq<char>, later: Seq<EventView>)
    ensures
        run_actions(
            StateView::Dismissing { id },
            seq![EventView::DismissFailed { error }] + later,
        ) == seq![exit_failed(error)],
        exit_failed(error)->code != 0,
{
    let events = seq![EventView::DismissFailed { error }] + later;
    assert(events[0] == EventView::DismissFailed { error });
    lemma_nothing_after_exit(StateView::Failed, events.drop_first());
    assert(seq![exit_failed(error)] + Seq::<ActionView>::empty() =~= seq![exit_failed(error)]);
}

/// Every action answers one event.
pub proof fn lemma_run_length(state: StateView, events: Seq<EventView>)
    ensures
        run_actions(state, events).len() <= events.len(),
    decreases events.len(),
{
    if events.len() > 0 {
        match step_spec(state, events[0]) {
            Some((next, action)) => {
                lemma_run_length(next, events.drop_first());
            },
            None => {},
        }
    }
}

/// From `Dismissing` on, a run issues at most its exit.
proof fn lemma_run_from_dismissing(id: u32, events: Seq<EventView>)
    ensures
        ({
            let actions = run_actions(StateView::Dismissing { id }, events);
            actions.len() <= 1 && (actions.len() == 1 ==> actions[0] is Exit)
        }),
{
    if events.len() > 0 {
        match step_spec(StateView::Dismissing { id }, events[0]) {
            Some((next, action)) => {
                lemma_nothing_after_exit(next, events.drop_first());
            },
            None => {},
        }
    }
}

/// From `Presenting` on, a run exits, or dismisses what the picked line
/// resolves to and then at most exits.
proof fn lemma_run_from_presenting(queue: Seq<NotificationView>, events: Seq<EventView>)
    ensures
        ({
            let actions = run_actions(StateView::Presenting { queue }, events);
            &&& actions.len() <= 2
            &&& actions.len() == 2 ==> actions[1] is Exit
            &&& actions.len() >= 1 ==> actions[0] is Exit || actions[0] is Dismiss
            &&& actions.len() == 2 ==> actions[0] is Dismiss
            &&& actions.len() >= 1 && actions[0] is Dismiss ==> events[0] is Selected
                && resolved_id(queue, events[0]->line) == Some(actions[0]->id)
        }),
{
    if events.len() > 0 {
        match step_spec(StateView::Presenting { queue }, events[0]) {
            Some((next, action)) => {
                if next is Dismissing {
                    lemma_run_from_dismissing(next->id, events.drop_first());
                } else {
                    lemma_nothing_after_exit(next, events.drop_first());
                }
            },
            None => {},
        }
    }
}

/// From `Fetching` on, a run exits, or opens the menu on the listing of the
/// queue that was fetched and goes on from `Presenting`.
proof fn lemma_run_from_fetching(events: Seq<EventView>)
    ensures
        ({
            let actions = run_actions(StateView::Fetching, events);
            &&& actions.len() <= 3
            &&& actions.len() >= 1 ==> actions[0] is Exit || actions[0] is Present
            &&& actions.len() >= 2 ==> actions[0] is Present
            &&& actions.len() >= 1 && actions[0] is Present ==> events[0] is Fetched
                && actions[0]->lines == render_all(stable_ordering(events[0]->queue))
                && actions[0]->style == menu_style_spec()
            &&& actions.len() >= 2 ==> actions[1] is Exit || actions[1] is Dismiss
            &&& actions.len() >= 2 && actions[1] is Dismiss ==> events[0] is Fetched
                && events[1] is Selected && resolved_id(events[0]->queue, events[1]->line)
                == Some(actions[1]->id)
            &&& actions.len() == 3 ==> actions[1] is Dismiss && actions[2] is Exit
        }),
{
    if events.len() > 0 {
        match step_spec(StateView::Fetching, events[0]) {
            Some((next, action)) => {
                if next is Presenting {
                    lemma_run_from_presenting(next->queue, events.drop_first());
                } else {
                    lemma_nothing_after_exit(next, events.drop_first());
                }
            },
            None => {},
        }
    }
}

/// A run is linear: it fetches once, opens the menu at most once, on the
/// listing of the queue that was fetched, dismisses at most one
/// notification, and issues nothing after its exit.
pub proof fn lemma_run_is_linear(events: Seq<EventView>)
    ensures
        ({
            let actions = run_actions(StateView::Start, events);
            &&& actions.len() <= 4
            &&& forall|k: int| 0 <= k < actions.len() ==> (actions[k] is Fetch <==> k == 0)
            &&& forall|k: int| 0 <= k < actions.len() && actions[k] is Present ==> k == 1
            &&& forall|k: int| 0 <= k < actions.len() && actions[k] is Dismiss ==> k == 2
            &&& forall|k: int|
                0 <= k < actions.len() && actions[k] is Exit ==> k == actions.len() - 1
            &&& actions.len() >= 3 ==> actions[1] is Present
            &&& actions.len() == 4 ==> actions[2] is Dismiss
        }),
{
    if events.len() > 0 {
        match step_spec(StateView::Start, events[0]) {
            Some((next, action)) => {
                lemma_run_from_fetching(events.drop_first());
            },
            None => {},
        }
    }
}

/// The menu shows the listing of what was fetched: a run opens the menu
/// only on the display lines of the fetched queue in its listing order, and
/// only in the one style.
pub proof fn lemma_menu_shows_the_listing(events: Seq<EventView>, k: int)
    requires
        0 <= k < run_actions(StateView::Start, events).len(),
        run_actions(StateView::Start, events)[k] is Present,
    ensures
        events.len() >= 2,
        events[1] is Fetched,
        run_actions(StateView::Start, events)[k]->lines == render_all(
            stable_ordering(events[1]->queue),
        ),
        run_actions(StateView::Start, events)[k]->style == menu_style_spec(),
{
    lemma_run_is_linear(events);
    lemma_run_length(StateView::Start, events);
    lemma_run_from_fetching(events.drop_first());
}

/// Only what was picked is dismissed: a run asks the daemon to close a
/// notification only after the user picked a line, and then the one that
/// the line resolves to in the queue that was fetched: the first
/// notification of that queue, at `first`, that is shown as the line.
pub proof fn lemma_dismisses_only_the_picked(events: Seq<EventView>, k: int) -> (first: int)
    requires
        0 <= k < run_actions(StateView::Start, events).len(),
        run_actions(StateView::Start, events)[k] is Dismiss,
    ensures
        events.len() >= 3,
        events[1] is Fetched,
        events[2] is Selected,
        resolved_id(events[1]->queue, events[2]->line) == Some(
            run_actions(StateView::Start, events)[k]->id,
        ),
        is_first_shown_as(events[1]->queue, events[2]->line, first),
        events[1]->queue[first].id == run_actions(StateView::Start, events)[k]->id,
{
    lemma_run_is_linear(events);
    lemma_run_length(StateView::Start, events);
    lemma_run_from_fetching(events.drop_first());
    assert(events.drop_first()[1] == events[2]);
    lemma_resolved_is_fetched(events[1]->queue, events[2]->line)
}

} // verus!
