use vstd::prelude::*;
use crate::actions::{ActionView, AppAction};
use crate::errors::DispatchError;
use crate::state::{AppState, StateView};

verus! {

/// A command-bar push appends its character to the command bar; any other
/// action changes nothing.
pub open spec fn push_spec(s: StateView, a: ActionView) -> Result<StateView, DispatchError> {
    match a {
        ActionView::CommandBarPush(c) => Ok(StateView { command: s.command.push(c), ..s }),
        _ => Ok(s),
    }
}

/// Reduces a command-bar push.
pub fn push(state: AppState, action: &AppAction) -> (r: Result<AppState, DispatchError>)
    ensures
        r is Ok,
        Ok::<StateView, DispatchError>(r->Ok_0@) == push_spec(state@, action@),
{
    proof {
        use_type_invariant(&state);
    }
    match action {
        AppAction::CommandBarPush(c) => {
            let AppState { size, mode, console_txt, command, tabs, cmd_str_queue, cmd_status } =
                state;
            let mut command = command;
            command.push(*c);
            Ok(AppState { size, mode, console_txt, command, tabs, cmd_str_queue, cmd_status })
        },
        _ => Ok(state),
    }
}

/// A command-bar set replaces the content of the command bar; any other
/// action changes nothing.
pub open spec fn set_spec(s: StateView, a: ActionView) -> Result<StateView, DispatchError> {
    match a {
        ActionView::CommandBarSet(t) => Ok(StateView { command: t, ..s }),
        _ => Ok(s),
    }
}

/// Reduces a command-bar set.
pub fn set(state: AppState, action: &AppAction) -> (r: Result<AppState, DispatchError>)
    ensures
        r is Ok,
        Ok::<StateView, DispatchError>(r->Ok_0@) == set_spec(state@, action@),
{
    proof {
        use_type_invariant(&state);
    }
    match action {
        AppAction::CommandBarSet(t) => {
            let AppState { size, mode, console_txt, command, tabs, cmd_str_queue, cmd_status } =
                state;
            Ok(
                AppState {
                    size,
                    mode,
                    console_txt,
                    command: t.clone(),
                    tabs,
                    cmd_str_queue,
                    cmd_status,
                },
            )
        },
        _ => Ok(state),
    }
}

/// An enqueue moves the content of the command bar into the queue, under the
/// identifier that the action brings, and leaves the bar empty. It is refused
/// when a command is queued under that identifier already. Any other action
/// changes nothing.
pub open spec fn enqueue_cmd_spec(s: StateView, a: ActionView) -> Result<
    StateView,
    DispatchError,
> {
    match a {
        ActionView::CommandBarEnqueueCmd(id) => if s.queue.contains_key(id) {
            Err(DispatchError::AlreadyQueued(id))
        } else {
            Ok(StateView { queue: s.queue.insert(id, s.command), command: Seq::empty(), ..s })
        },
        _ => Ok(s),
    }
}

/// Reduces an enqueue.
pub fn enqueue_cmd(state: AppState, action: &AppAction) -> (r: Result<AppState, DispatchError>)
    ensures
        match r {
            Ok(n) => Ok::<StateView, DispatchError>(n@) == enqueue_cmd_spec(state@, action@),
            Err(e) => Err::<StateView, DispatchError>(e) == enqueue_cmd_spec(state@, action@),
        },
{
    proof {
        use_type_invariant(&state);
    }
    match action {
        AppAction::CommandBarEnqueueCmd(id) => {
            if state.cmd_str_queue.contains_key(id) {
                return Err(DispatchError::AlreadyQueued(*id));
            }
            let AppState { size, mode, console_txt, command, tabs, cmd_str_queue, cmd_status } =
                state;
            let mut cmd_str_queue = cmd_str_queue;
            let ghost before = cmd_str_queue@;
            cmd_str_queue.insert(*id, command);
            assert(cmd_str_queue@.map_values(|s: String| s@) =~= before.map_values(
                |s: String| s@,
            ).insert(*id, command@));
            Ok(
                AppState {
                    size,
                    mode,
                    console_txt,
                    command: String::new(),
                    tabs,
                    cmd_str_queue,
                    cmd_status,
                },
            )
        },
        _ => Ok(state),
    }
}

} // verus!
