pub mod loops;
pub mod routing;

use vstd::prelude::*;
use crate::actions::{ActionView, AppAction, HandlerKind};
use crate::errors::DispatchError;
use crate::events::{Effect, EffectView};
use crate::middlewares::command::{intercept_spec, CommandMiddleWare};
use crate::middlewares::PlanView;
use crate::reducers::{result_view, transition};
use crate::state::{AppState, Lifecycle, StateView};

verus! {

/// A middleware of the chain.
#[derive(Debug)]
pub enum Middleware {
    Command(CommandMiddleWare),
}

/// What a `Middleware` stands for.
pub enum MiddlewareView {
    /// The command middleware, with the commands registered with it.
    Command(Map<Seq<char>, HandlerKind>),
}

impl View for Middleware {
    type V = MiddlewareView;

    open spec fn view(&self) -> MiddlewareView {
        match self {
            Middleware::Command(mw) => MiddlewareView::Command(mw.handler@),
        }
    }
}

impl DeepView for Middleware {
    type V = MiddlewareView;

    open spec fn deep_view(&self) -> MiddlewareView {
        self@
    }
}

impl MiddlewareView {
    /// What this middleware wants done when it meets `a` in state `s`.
    pub open spec fn intercept(self, s: StateView, a: ActionView) -> PlanView {
        match self {
            MiddlewareView::Command(reg) => intercept_spec(reg, s, a),
        }
    }
}

/// A state together with what was asked of the surroundings on the way to it.
pub struct Progress {
    pub state: StateView,
    pub effects: Seq<EffectView>,
}

/// The dispatch of an action that a middleware has added. If it is reduced,
/// the subscribers are told; if it is refused, that is made known and the
/// state stays. Such an action gives a command its first status, and no
/// middleware acts on it: it goes to the reducers at once. No middleware
/// adds an action that is refused, so the state never stays.
pub open spec fn nested_spec(s: StateView, n: ActionView) -> Progress {
    match transition(s, n) {
        Ok(next) => Progress { state: next, effects: seq![EffectView::Notify(next)] },
        Err(e) => Progress { state: s, effects: seq![EffectView::Report(e)] },
    }
}

/// The dispatch of the actions that a middleware has added, in their order.
pub open spec fn nested_all_spec(s: StateView, ns: Seq<ActionView>) -> Progress
    decreases ns.len(),
{
    if ns.len() == 0 {
        Progress { state: s, effects: Seq::empty() }
    } else {
        let first = nested_spec(s, ns[0]);
        let rest = nested_all_spec(first.state, ns.drop_first());
        Progress { state: rest.state, effects: first.effects + rest.effects }
    }
}

/// An action's way through the chain: each middleware, in the order of the
/// chain, meets the action in the state that the ones before it have left,
/// has its effects noted and its added actions dispatched.
pub open spec fn chain_spec(chain: Seq<MiddlewareView>, s: StateView, a: ActionView) -> Progress
    decreases chain.len(),
{
    if chain.len() == 0 {
        Progress { state: s, effects: Seq::empty() }
    } else {
        let plan = chain[0].intercept(s, a);
        let added = nested_all_spec(s, plan.nested);
        let rest = chain_spec(chain.drop_first(), added.state, a);
        Progress { state: rest.state, effects: plan.effects + added.effects + rest.effects }
    }
}

/// How a dispatch ends.
pub struct Outcome {
    /// The state of the store after the dispatch.
    pub state: StateView,
    /// The state that the action led to, or why it was refused.
    pub result: Result<StateView, DispatchError>,
    /// What the dispatch asks of its surroundings, in order.
    pub effects: Seq<EffectView>,
}

/// The dispatch of `a` in state `s`: the action goes through the chain and
/// then to the reducers. If they reduce it, the subscribers are told once,
/// after everything else. If they refuse it, nothing is added to what the
/// chain has done.
pub open spec fn dispatch_spec(chain: Seq<MiddlewareView>, s: StateView, a: ActionView)
    -> Outcome {
    let passed = chain_spec(chain, s, a);
    match transition(passed.state, a) {
        Ok(next) => Outcome {
            state: next,
            result: Ok(next),
            effects: passed.effects.push(EffectView::Notify(next)),
        },
        Err(e) => Outcome { state: passed.state, result: Err(e), effects: passed.effects },
    }
}

/// What a `Store` stands for.
pub struct StoreView {
    pub state: StateView,
    pub chain: Seq<MiddlewareView>,
}

/// The owner of the state and of the middleware chain.
#[derive(Debug)]
pub struct Store {
    pub(crate) state: AppState,
    pub(crate) middlewares: Vec<Middleware>,
}

impl View for Store {
    type V = StoreView;

    open(crate) spec fn view(&self) -> StoreView {
        StoreView { state: self.state@, chain: self.middlewares.deep_view() }
    }
}

impl Store {
    /// A store in the initial state, with the given chain.
    pub fn new(middlewares: Vec<Middleware>) -> (r: Store)
        ensures
            r@.state == StateView::initial(),
            r@.chain == middlewares.deep_view(),
    {
        Store { state: AppState::default(), middlewares }
    }

    /// A copy of the state as it is now.
    pub fn get_state(&self) -> (r: AppState)
        ensures
            r@ == self@.state,
    {
        self.state.clone()
    }

    /// Forgets the command `id` if its life is over, and says whether it
    /// did. A command that is queued or running stays.
    pub fn evict(&mut self, id: u128) -> (evicted: bool)
        ensures
            final(self)@.chain == old(self)@.chain,
            final(self)@.state == old(self)@.state.evict(id),
            evicted == old(self)@.state.is_settled(id),
    {
        let evicted = match self.state.lifecycle(id) {
            Lifecycle::Invalid | Lifecycle::Ended | Lifecycle::Failed => true,
            _ => false,
        };
        self.state = self.state.clone().evict(id);
        evicted
    }

    /// Dispatches the actions that a middleware has added.
    fn dispatch_nested(&mut self, nested: &Vec<AppAction>, effects: &mut Vec<Effect>)
        ensures
            final(self)@.chain == old(self)@.chain,
            final(self)@.state == nested_all_spec(old(self)@.state, nested.deep_view()).state,
            final(effects).deep_view() == old(effects).deep_view() + nested_all_spec(
                old(self)@.state,
                nested.deep_view(),
            ).effects,
    {
        let mut i: usize = 0;
        assert(nested.deep_view().skip(0) == nested.deep_view());
        while i < nested.len()
            invariant
                i <= nested.len(),
                self@.chain == old(self)@.chain,
                nested_all_spec(old(self)@.state, nested.deep_view()).state == nested_all_spec(
                    self@.state,
                    nested.deep_view().skip(i as int),
                ).state,
                old(effects).deep_view() + nested_all_spec(
                    old(self)@.state,
                    nested.deep_view(),
                ).effects == effects.deep_view() + nested_all_spec(
                    self@.state,
                    nested.deep_view().skip(i as int),
                ).effects,
            decreases nested.len() - i,
        {
            let ghost rest = nested.deep_view().skip(i as int);
            assert(rest.drop_first() == nested.deep_view().skip(i + 1));
            assert(rest[0] == nested[i as int]@);
            match self.state.reduce(nested[i].clone()) {
                Ok(next) => {
                    effects.push(Effect::Notify(next.clone()));
                    self.state = next;
                },
                Err(e) => {
                    effects.push(Effect::Report(e));
                },
            }
            i += 1;
        }
    }

    /// Takes the action through the chain.
    fn dispatch_chain(&mut self, action: &AppAction, effects: &mut Vec<Effect>)
        ensures
            final(self)@.chain == old(self)@.chain,
            final(self)@.state == chain_spec(old(self)@.chain, old(self)@.state, action@).state,
            final(effects).deep_view() == old(effects).deep_view() + chain_spec(
                old(self)@.chain,
                old(self)@.state,
                action@,
            ).effects,
    {
        let mut i: usize = 0;
        assert(self@.chain.skip(0) == self@.chain);
        while i < self.middlewares.len()
            invariant
                i <= self.middlewares.len(),
                self@.chain == old(self)@.chain,
                self@.chain.len() == self.middlewares.len(),
                chain_spec(old(self)@.chain, old(self)@.state, action@).state == chain_spec(
                    self@.chain.skip(i as int),
                    self@.state,
                    action@,
                ).state,
                old(effects).deep_view() + chain_spec(
                    old(self)@.chain,
                    old(self)@.state,
                    action@,
                ).effects == effects.deep_view() + chain_spec(
                    self@.chain.skip(i as int),
                    self@.state,
                    action@,
                ).effects,
            decreases self.middlewares.len() - i,
        {
            let ghost rest = self@.chain.skip(i as int);
            assert(rest.drop_first() == self@.chain.skip(i + 1));
            assert(rest[0] == self.middlewares[i as int]@);
            let plan = match &self.middlewares[i] {
                Middleware::Command(mw) => mw.dispatch(&self.state, action),
            };
            let mut planned = plan.effects;
            effects.append(&mut planned);
            self.dispatch_nested(&plan.nested, effects);
            i += 1;
        }
    }

    /// Dispatches an action: it goes through the middleware chain and then
    /// to the reducers. Returns the state that the action led to, or why it
    /// was refused, and what the dispatch asks of its surroundings. The
    /// subscribers are to be told once for every `Notify` among the effects.
    pub fn dispatch(&mut self, action: AppAction) -> (r: (
        Result<AppState, DispatchError>,
        Vec<Effect>,
    ))
        ensures
            final(self)@.chain == old(self)@.chain,
            final(self)@.state == dispatch_spec(old(self)@.chain, old(self)@.state, action@).state,
            result_view(r.0) == dispatch_spec(old(self)@.chain, old(self)@.state, action@).result,
            r.1.deep_view() == dispatch_spec(old(self)@.chain, old(self)@.state, action@).effects,
    {
        let mut effects: Vec<Effect> = Vec::new();
        assert(effects.deep_view() =~= Seq::<EffectView>::empty());
        self.dispatch_chain(&action, &mut effects);
        match self.state.reduce(action) {
            Ok(next) => {
                effects.push(Effect::Notify(next.clone()));
                self.state = next.clone();
                (Ok(next), effects)
            },
            Err(e) => (Err(e), effects),
        }
    }
}

} // verus!
