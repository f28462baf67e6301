use vstd::prelude::*;
use vstd::string::StringExecFns;
use crate::actions::{ActionView, AppAction, HandlerKind};
use crate::errors::DispatchError;
use crate::state::{AppState, CommandStatus, StateView};

verus! {

/// The console line that tells of a command whose name is not registered.
pub open spec fn invalid_line(text: Seq<char>) -> Seq<char> {
    "{fg=red [invalid] } "@ + text + "\n"@
}

/// The console line that tells of a command whose run has ended.
pub open spec fn done_line(text: Seq<char>) -> Seq<char> {
    "{fg=green [done] } "@ + text + "\n"@
}

/// The console line that tells of a command whose run went wrong.
pub open spec fn failed_line(text: Seq<char>) -> Seq<char> {
    "{fg=red [failed] } "@ + text + "\n"@
}

/// Builds a console line from its tag and the command text.
fn tagged_line(tag: &str, text: &str) -> (r: String)
    ensures
        r@ == tag@ + text@ + "\n"@,
{
    let mut line = tag.to_owned();
    line.append(text);
    line.append("\n");
    line
}

/// The command that the action names gets its first status: `Running`, or
/// `Invalid` when `invalid` is set, and then the console also gets a line
/// that tells so. The action is refused when nothing is queued under the
/// identifier, or when the command has a status already. An action that
/// names no command to take up changes nothing.
pub open spec fn create_spec(invalid: bool, s: StateView, a: ActionView) -> Result<
    StateView,
    DispatchError,
> {
    match a {
        ActionView::CommandCreate(id) => record_spec(invalid, s, id),
        ActionView::CommandInvalid(id) => record_spec(invalid, s, id),
        _ => Ok(s),
    }
}

/// The first status of the command `id`: see `create_spec`.
pub open spec fn record_spec(invalid: bool, s: StateView, id: u128) -> Result<
    StateView,
    DispatchError,
> {
    if !s.queue.contains_key(id) {
        Err(DispatchError::NotQueued(id))
    } else if s.status.contains_key(id) {
        Err(DispatchError::AlreadyStarted(id))
    } else if invalid {
        Ok(
            StateView {
                status: s.status.insert(id, CommandStatus::Invalid),
                console: s.console + invalid_line(s.queue[id]),
                ..s
            },
        )
    } else {
        Ok(StateView { status: s.status.insert(id, CommandStatus::Running), ..s })
    }
}

fn record(invalid: bool, state: AppState, id: u128) -> (r: Result<AppState, DispatchError>)
    ensures
        match r {
            Ok(n) => Ok::<StateView, DispatchError>(n@) == record_spec(invalid, state@, id),
            Err(e) => Err::<StateView, DispatchError>(e) == record_spec(invalid, state@, id),
        },
{
    proof {
        use_type_invariant(&state);
    }
    if state.cmd_status.contains_key(&id) {
        return Err(DispatchError::AlreadyStarted(id));
    }
    let line = match state.cmd_str_queue.get(&id) {
        None => {
            return Err(DispatchError::NotQueued(id));
        },
        Some(text) => if invalid {
            tagged_line("{fg=red [invalid] } ", text.as_str())
        } else {
            String::new()
        },
    };
    let AppState { size, mode, console_txt, command, tabs, cmd_str_queue, cmd_status } = state;
    let mut cmd_status = cmd_status;
    let mut console_txt = console_txt;
    if invalid {
        cmd_status.insert(id, CommandStatus::Invalid);
        console_txt.append(line.as_str());
    } else {
        cmd_status.insert(id, CommandStatus::Running);
    }
    Ok(AppState { size, mode, console_txt, command, tabs, cmd_str_queue, cmd_status })
}

/// Gives the command that the action names its first status.
pub fn create(invalid: bool, state: AppState, action: &AppAction) -> (r: Result<
    AppState,
    DispatchError,
>)
    ensures
        match r {
            Ok(n) => Ok::<StateView, DispatchError>(n@) == create_spec(invalid, state@, action@),
            Err(e) => Err::<StateView, DispatchError>(e) == create_spec(invalid, state@, action@),
        },
{
    match action {
        AppAction::CommandCreate(id) => record(invalid, state, *id),
        AppAction::CommandInvalid(id) => record(invalid, state, *id),
        _ => Ok(state),
    }
}

/// What a registered command does when its run is over. `Report` writes a
/// closing line for the command to the console and is refused when nothing
/// is queued under the identifier; `Silent` changes nothing. An action that
/// ends no run changes nothing.
pub open spec fn handler_spec(kind: HandlerKind, s: StateView, a: ActionView) -> Result<
    StateView,
    DispatchError,
> {
    match a {
        ActionView::CommandRun { func, uuid, failed } => match kind {
            HandlerKind::Silent => Ok(s),
            HandlerKind::Report => if !s.queue.contains_key(uuid) {
                Err(DispatchError::NotQueued(uuid))
            } else if failed {
                Ok(StateView { console: s.console + failed_line(s.queue[uuid]), ..s })
            } else {
                Ok(StateView { console: s.console + done_line(s.queue[uuid]), ..s })
            },
        },
        _ => Ok(s),
    }
}

/// Does what a registered command of this kind does when its run is over.
pub fn handler(kind: HandlerKind, state: AppState, action: &AppAction) -> (r: Result<
    AppState,
    DispatchError,
>)
    ensures
        match r {
            Ok(n) => Ok::<StateView, DispatchError>(n@) == handler_spec(kind, state@, action@),
            Err(e) => Err::<StateView, DispatchError>(e) == handler_spec(kind, state@, action@),
        },
{
    proof {
        use_type_invariant(&state);
    }
    match action {
        AppAction::CommandRun { func, uuid, failed } => match kind {
            HandlerKind::Silent => Ok(state),
            HandlerKind::Report => {
                let line = match state.cmd_str_queue.get(uuid) {
                    None => {
                        return Err(DispatchError::NotQueued(*uuid));
                    },
                    Some(text) => if *failed {
                        tagged_line("{fg=red [failed] } ", text.as_str())
                    } else {
                        tagged_line("{fg=green [done] } ", text.as_str())
                    },
                };
                let AppState {
                    size,
                    mode,
                    console_txt,
                    command,
                    tabs,
                    cmd_str_queue,
                    cmd_status,
                } = state;
                let mut console_txt = console_txt;
                console_txt.append(line.as_str());
                Ok(AppState { size, mode, console_txt, command, tabs, cmd_str_queue, cmd_status })
            },
        },
        _ => Ok(state),
    }
}

/// The run of the command `uuid` is over: its status becomes `Failed` when
/// the action says that the run failed, and `Ended` otherwise. It is refused
/// when nothing is queued under `uuid`, or when no worker runs the command.
pub open spec fn end_spec(uuid: u128, s: StateView, a: ActionView) -> Result<
    StateView,
    DispatchError,
> {
    if !s.queue.contains_key(uuid) {
        Err(DispatchError::NotQueued(uuid))
    } else if !(s.status.contains_key(uuid) && s.status[uuid] == CommandStatus::Running) {
        Err(DispatchError::NotRunning(uuid))
    } else {
        Ok(StateView { status: s.status.insert(uuid, end_status(a)), ..s })
    }
}

/// The status that an action gives to the run it ends.
pub open spec fn end_status(a: ActionView) -> CommandStatus {
    match a {
        ActionView::CommandRun { func, uuid, failed } => if failed {
            CommandStatus::Failed
        } else {
            CommandStatus::Ended
        },
        _ => CommandStatus::Ended,
    }
}

/// Closes the life of the command `uuid`.
pub fn end(uuid: u128, state: AppState, action: &AppAction) -> (r: Result<
    AppState,
    DispatchError,
>)
    ensures
        match r {
            Ok(n) => Ok::<StateView, DispatchError>(n@) == end_spec(uuid, state@, action@),
            Err(e) => Err::<StateView, DispatchError>(e) == end_spec(uuid, state@, action@),
        },
{
    proof {
        use_type_invariant(&state);
    }
    if !state.cmd_str_queue.contains_key(&uuid) {
        return Err(DispatchError::NotQueued(uuid));
    }
    match state.cmd_status.get(&uuid) {
        Some(CommandStatus::Running) => {},
        _ => {
            return Err(DispatchError::NotRunning(uuid));
        },
    }
    let status = match action {
        AppAction::CommandRun { func, uuid, failed } => if *failed {
            CommandStatus::Failed
        } else {
            CommandStatus::Ended
        },
        _ => CommandStatus::Ended,
    };
    let AppState { size, mode, console_txt, command, tabs, cmd_str_queue, cmd_status } = state;
    let mut cmd_status = cmd_status;
    cmd_status.insert(uuid, status);
    Ok(AppState { size, mode, console_txt, command, tabs, cmd_str_queue, cmd_status })
}

} // verus!
