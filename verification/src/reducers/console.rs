use vstd::prelude::*;
use vstd::string::StringExecFns;
use crate::actions::{ActionView, AppAction};
use crate::errors::DispatchError;
use crate::state::{AppState, StateView};

verus! {

/// A console push appends its text to the console buffer; any other action
/// changes nothing.
pub open spec fn push_spec(s: StateView, a: ActionView) -> Result<StateView, DispatchError> {
    match a {
        ActionView::ConsolePush(t) => Ok(StateView { console: s.console + t, ..s }),
        _ => Ok(s),
    }
}

/// Reduces a console push.
pub fn push(state: AppState, action: &AppAction) -> (r: Result<AppState, DispatchError>)
    ensures
        r is Ok,
        Ok::<StateView, DispatchError>(r->Ok_0@) == push_spec(state@, action@),
{
    proof {
        use_type_invariant(&state);
    }
    match action {
        AppAction::ConsolePush(t) => {
            let AppState { size, mode, console_txt, command, tabs, cmd_str_queue, cmd_status } =
                state;
            let mut console_txt = console_txt;
            console_txt.append(t.as_str());
            Ok(AppState { size, mode, console_txt, command, tabs, cmd_str_queue, cmd_status })
        },
        _ => Ok(state),
    }
}

} // verus!
