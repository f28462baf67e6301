pub mod command_bar;
pub mod commands;
pub mod console;
pub mod mode;
pub mod size;

use vstd::prelude::*;
use crate::actions::{ActionView, AppAction, HandlerKind};
use crate::errors::DispatchError;
use crate::state::{AppState, CommandStatus, StateView};

verus! {

/// One concern of the state, as a function from state and action to the
/// next state.
#[derive(Clone, Copy, Debug, PartialEq, Eq, Structural)]
pub enum Reducer {
    SizeSet,
    ModeSet,
    ConsolePush,
    CommandBarPush,
    CommandBarSet,
    CommandBarEnqueueCmd,
    /// Gives a queued command its first status: `Invalid` if the flag is set,
    /// `Running` if not.
    CommandCreate(bool),
    /// What the registered command does when its run is over.
    Handler(HandlerKind),
    /// Closes the life of the command with this identifier.
    CommandEnd(u128),
}

/// A reducer's result, seen as the state it stands for.
pub open spec fn result_view(r: Result<AppState, DispatchError>) -> Result<
    StateView,
    DispatchError,
> {
    match r {
        Ok(n) => Ok(n@),
        Err(e) => Err(e),
    }
}

impl Reducer {
    /// What this reducer makes of a state and an action.
    pub open spec fn apply_spec(self, s: StateView, a: ActionView) -> Result<
        StateView,
        DispatchError,
    > {
        match self {
            Reducer::SizeSet => size::set_spec(s, a),
            Reducer::ModeSet => mode::set_spec(s, a),
            Reducer::ConsolePush => console::push_spec(s, a),
            Reducer::CommandBarPush => command_bar::push_spec(s, a),
            Reducer::CommandBarSet => command_bar::set_spec(s, a),
            Reducer::CommandBarEnqueueCmd => command_bar::enqueue_cmd_spec(s, a),
            Reducer::CommandCreate(invalid) => commands::create_spec(invalid, s, a),
            Reducer::Handler(kind) => commands::handler_spec(kind, s, a),
            Reducer::CommandEnd(uuid) => commands::end_spec(uuid, s, a),
        }
    }

    /// Applies this reducer to a state.
    pub fn apply(&self, state: AppState, action: &AppAction) -> (r: Result<
        AppState,
        DispatchError,
    >)
        ensures
            result_view(r) == self.apply_spec(state@, action@),
    {
        match *self {
            Reducer::SizeSet => size::set(state, action),
            Reducer::ModeSet => mode::set(state, action),
            Reducer::ConsolePush => console::push(state, action),
            Reducer::CommandBarPush => command_bar::push(state, action),
            Reducer::CommandBarSet => command_bar::set(state, action),
            Reducer::CommandBarEnqueueCmd => command_bar::enqueue_cmd(state, action),
            Reducer::CommandCreate(invalid) => commands::create(invalid, state, action),
            Reducer::Handler(kind) => commands::handler(kind, state, action),
            Reducer::CommandEnd(uuid) => commands::end(uuid, state, action),
        }
    }
}

/// The reducers that an action calls for, in the order in which they run.
/// An action that concerns no part of the state calls for none.
pub open spec fn reducers_for(a: ActionView) -> Seq<Reducer> {
    match a {
        ActionView::ResizeApp(_) => seq![Reducer::SizeSet],
        ActionView::SetMode(_) => seq![Reducer::ModeSet],
        ActionView::ConsolePush(_) => seq![Reducer::ConsolePush],
        ActionView::CommandBarPush(_) => seq![Reducer::CommandBarPush],
        ActionView::CommandBarSet(_) => seq![Reducer::CommandBarSet],
        ActionView::CommandBarEnqueueCmd(_) => seq![Reducer::CommandBarEnqueueCmd],
        ActionView::CommandCreate(_) => seq![Reducer::CommandCreate(false)],
        ActionView::CommandInvalid(_) => seq![Reducer::CommandCreate(true)],
        ActionView::CommandRun { func, uuid, failed } => seq![
            Reducer::Handler(func),
            Reducer::CommandEnd(uuid),
        ],
        ActionView::CommandConsume(_) => seq![],
        ActionView::Keyboard(_) => seq![],
        ActionView::Error(_) => seq![],
    }
}

/// Selects the reducers that an action calls for.
pub fn select(action: &AppAction) -> (r: Vec<Reducer>)
    ensures
        r@ == reducers_for(action@),
{
    let mut out: Vec<Reducer> = Vec::new();
    match action {
        AppAction::ResizeApp(_) => out.push(Reducer::SizeSet),
        AppAction::SetMode(_) => out.push(Reducer::ModeSet),
        AppAction::ConsolePush(_) => out.push(Reducer::ConsolePush),
        AppAction::CommandBarPush(_) => out.push(Reducer::CommandBarPush),
        AppAction::CommandBarSet(_) => out.push(Reducer::CommandBarSet),
        AppAction::CommandBarEnqueueCmd(_) => out.push(Reducer::CommandBarEnqueueCmd),
        AppAction::CommandCreate(_) => out.push(Reducer::CommandCreate(false)),
        AppAction::CommandInvalid(_) => out.push(Reducer::CommandCreate(true)),
        AppAction::CommandRun { func, uuid, failed } => {
            out.push(Reducer::Handler(*func));
            out.push(Reducer::CommandEnd(*uuid));
        },
        AppAction::CommandConsume(_) => {},
        AppAction::Keyboard(_) => {},
        AppAction::Error(_) => {},
    }
    assert(out@ =~= reducers_for(action@));
    out
}

/// The reducers applied one after the other, each to the state that the one
/// before it gave. The first refusal ends the run and is the result.
pub open spec fn fold_spec(rs: Seq<Reducer>, s: StateView, a: ActionView) -> Result<
    StateView,
    DispatchError,
>
    decreases rs.len(),
{
    if rs.len() == 0 {
        Ok(s)
    } else {
        match rs[0].apply_spec(s, a) {
            Ok(n) => fold_spec(rs.drop_first(), n, a),
            Err(e) => Err(e),
        }
    }
}

/// Applies the reducers in their order to the state.
pub fn combined_reducer(reducers: &Vec<Reducer>, state: AppState, action: &AppAction) -> (r:
    Result<AppState, DispatchError>)
    ensures
        result_view(r) == fold_spec(reducers@, state@, action@),
{
    let mut cur = state;
    let mut i: usize = 0;
    assert(reducers@.skip(0) == reducers@);
    while i < reducers.len()
        invariant
            i <= reducers.len(),
            fold_spec(reducers@, state@, action@) == fold_spec(
                reducers@.skip(i as int),
                cur@,
                action@,
            ),
        decreases reducers.len() - i,
    {
        assert(reducers@.skip(i as int).drop_first() == reducers@.skip(i + 1));
        assert(reducers@.skip(i as int)[0] == reducers@[i as int]);
        match reducers[i].apply(cur, action) {
            Ok(n) => {
                cur = n;
            },
            Err(e) => {
                return Err(e);
            },
        }
        i += 1;
    }
    Ok(cur)
}

/// The state that follows `s` when `a` is reduced, or the reason why `a` is
/// refused in `s`.
pub open spec fn transition(s: StateView, a: ActionView) -> Result<StateView, DispatchError> {
    match a {
        ActionView::ResizeApp(r) => Ok(StateView { size: r, ..s }),
        ActionView::SetMode(m) => Ok(StateView { mode: m, ..s }),
        ActionView::ConsolePush(t) => Ok(StateView { console: s.console + t, ..s }),
        ActionView::CommandBarPush(c) => Ok(StateView { command: s.command.push(c), ..s }),
        ActionView::CommandBarSet(t) => Ok(StateView { command: t, ..s }),
        ActionView::CommandBarEnqueueCmd(id) => if s.queue.contains_key(id) {
            Err(DispatchError::AlreadyQueued(id))
        } else {
            Ok(StateView { queue: s.queue.insert(id, s.command), command: Seq::empty(), ..s })
        },
        ActionView::CommandCreate(id) => if !s.queue.contains_key(id) {
            Err(DispatchError::NotQueued(id))
        } else if s.status.contains_key(id) {
            Err(DispatchError::AlreadyStarted(id))
        } else {
            Ok(StateView { status: s.status.insert(id, CommandStatus::Running), ..s })
        },
        ActionView::CommandInvalid(id) => if !s.queue.contains_key(id) {
            Err(DispatchError::NotQueued(id))
        } else if s.status.contains_key(id) {
            Err(DispatchError::AlreadyStarted(id))
        } else {
            Ok(
                StateView {
                    status: s.status.insert(id, CommandStatus::Invalid),
                    console: s.console + commands::invalid_line(s.queue[id]),
                    ..s
                },
            )
        },
        ActionView::CommandRun { func, uuid, failed } => if !s.queue.contains_key(uuid) {
            Err(DispatchError::NotQueued(uuid))
        } else if !(s.status.contains_key(uuid) && s.status[uuid] == CommandStatus::Running) {
            Err(DispatchError::NotRunning(uuid))
        } else {
            Ok(
                StateView {
                    status: s.status.insert(
                        uuid,
                        if failed {
                            CommandStatus::Failed
                        } else {
                            CommandStatus::Ended
                        },
                    ),
                    console: s.console + closing_text(func, failed, s.queue[uuid]),
                    ..s
                },
            )
        },
        ActionView::CommandConsume(_) => Ok(s),
        ActionView::Keyboard(_) => Ok(s),
        ActionView::Error(_) => Ok(s),
    }
}

/// What the end of a run adds to the console: a closing line where the
/// command reports, and nothing where it is silent.
pub open spec fn closing_text(func: HandlerKind, failed: bool, text: Seq<char>) -> Seq<char> {
    match func {
        HandlerKind::Silent => Seq::empty(),
        HandlerKind::Report => if failed {
            commands::failed_line(text)
        } else {
            commands::done_line(text)
        },
    }
}

/// Running the reducers that an action calls for gives the transition of
/// that action.
pub proof fn lemma_fold_is_transition(s: StateView, a: ActionView)
    ensures
        fold_spec(reducers_for(a), s, a) == transition(s, a),
{
    let rs = reducers_for(a);
    reveal_with_fuel(fold_spec, 3);
    match a {
        ActionView::CommandRun { func, uuid, failed } => {
            assert(rs.drop_first() =~= seq![Reducer::CommandEnd(uuid)]);
            assert(rs.drop_first().drop_first() =~= Seq::<Reducer>::empty());
            match rs[0].apply_spec(s, a) {
                Ok(n) => {
                    assert(n.queue == s.queue);
                    assert(n.status == s.status);
                    assert(n.console =~= s.console + closing_text(func, failed, s.queue[uuid]));
                    match fold_spec(rs, s, a) {
                        Ok(m) => {
                            assert(m =~= transition(s, a)->Ok_0);
                        },
                        Err(_) => {},
                    }
                },
                Err(_) => {},
            }
        },
        ActionView::CommandConsume(_) => {},
        ActionView::Keyboard(_) => {},
        ActionView::Error(_) => {},
        _ => {
            assert(rs.drop_first() =~= Seq::<Reducer>::empty());
        },
    }
}

impl AppState {
    /// Gives the state that follows this one when `action` is reduced, or
    /// the reason why the action is refused. This state is left as it is.
    pub fn reduce(&mut self, action: AppAction) -> (r: Result<AppState, DispatchError>)
        ensures
            final(self)@ == old(self)@,
            result_view(r) == transition(old(self)@, action@),
    {
        let reducers = select(&action);
        proof {
            lemma_fold_is_transition(self@, action@);
        }
        combined_reducer(&reducers, self.clone(), &action)
    }
}

} // verus!
