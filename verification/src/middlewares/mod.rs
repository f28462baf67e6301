pub mod command;

use vstd::prelude::*;
use crate::actions::{ActionView, AppAction};
use crate::events::{Effect, EffectView};

verus! {

/// What an `Interception` stands for.
pub struct PlanView {
    pub effects: Seq<EffectView>,
    pub nested: Seq<ActionView>,
}

impl PlanView {
    /// The plan of a middleware that lets the action pass and does nothing.
    pub open spec fn pass() -> PlanView {
        PlanView { effects: Seq::empty(), nested: Seq::empty() }
    }
}

/// What a middleware wants done when it meets an action: work for the
/// surroundings, and further actions to dispatch before the action itself
/// reaches the reducers.
#[derive(Debug)]
pub struct Interception {
    pub effects: Vec<Effect>,
    pub nested: Vec<AppAction>,
}

impl View for Interception {
    type V = PlanView;

    open spec fn view(&self) -> PlanView {
        PlanView { effects: self.effects.deep_view(), nested: self.nested.deep_view() }
    }
}

impl Interception {
    /// The plan that lets the action pass and does nothing.
    pub fn pass() -> (r: Interception)
        ensures
            r@ == PlanView::pass(),
    {
        let r = Interception { effects: Vec::new(), nested: Vec::new() };
        assert(r.effects.deep_view() =~= Seq::<EffectView>::empty());
        assert(r.nested.deep_view() =~= Seq::<ActionView>::empty());
        r
    }
}

} // verus!
