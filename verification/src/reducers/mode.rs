use vstd::prelude::*;
use crate::actions::{ActionView, AppAction};
use crate::errors::DispatchError;
use crate::state::{AppState, StateView};

verus! {

/// A mode change replaces the mode; any other action changes nothing.
pub open spec fn set_spec(s: StateView, a: ActionView) -> Result<StateView, DispatchError> {
    match a {
        ActionView::SetMode(m) => Ok(StateView { mode: m, ..s }),
        _ => Ok(s),
    }
}

/// Reduces a mode change.
pub fn set(state: AppState, action: &AppAction) -> (r: Result<AppState, DispatchError>)
    ensures
        r is Ok,
        Ok::<StateView, DispatchError>(r->Ok_0@) == set_spec(state@, action@),
{
    proof {
        use_type_invariant(&state);
    }
    let mut state = state;
    match action {
        AppAction::SetMode(m) => {
            state.mode = m.clone();
        },
        _ => {},
    }
    Ok(state)
}

} // verus!
