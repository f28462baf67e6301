use vstd::prelude::*;
use crate::actions::{ActionView, AppAction, HandlerKind};
use crate::events::{Effect, EffectView, Event, EventView};
use crate::ident::random_identifier;
use crate::keyboard::key_event_spec;
use crate::state::{AppState, StateView};
use crate::store::{dispatch_spec, Middleware, MiddlewareView, Progress, Store};
use crate::text::{command_name, split_command};

verus! {

/// What the command called `name` does when its run is over: what the first
/// middleware of the chain says that has the name registered, and nothing
/// when none has.
pub open spec fn handler_in(chain: Seq<MiddlewareView>, name: Seq<char>) -> HandlerKind
    decreases chain.len(),
{
    if chain.len() == 0 {
        HandlerKind::Silent
    } else {
        match chain[0] {
            MiddlewareView::Command(reg) => if reg.contains_key(name) {
                reg[name]
            } else {
                handler_in(chain.drop_first(), name)
            },
        }
    }
}

/// What the command queued under `id` does when its run is over.
pub open spec fn handler_for(chain: Seq<MiddlewareView>, s: StateView, id: u128) -> HandlerKind {
    if s.queue.contains_key(id) {
        handler_in(chain, command_name(s.queue[id]))
    } else {
        HandlerKind::Silent
    }
}

/// What a `Routed` stands for.
pub struct RoutedView {
    pub actions: Seq<ActionView>,
    pub exit: bool,
}

/// What an event means to the dispatch loop: actions to dispatch, in order,
/// and whether the loops are to end.
#[derive(Debug)]
pub struct Routed {
    pub actions: Vec<AppAction>,
    pub exit: bool,
}

impl View for Routed {
    type V = RoutedView;

    open spec fn view(&self) -> RoutedView {
        RoutedView { actions: self.actions.deep_view(), exit: self.exit }
    }
}

/// What an event means to the dispatch loop.
///
/// A key press is dispatched after the actions it asks for. Any other action
/// is dispatched as it is. A queued command is taken up. Text from a worker
/// goes to the console. A worker that is done ends the run of its command.
/// A state to draw is none of this loop's business. `Exit` ends the loops,
/// and so does a key press that asks for it.
pub open spec fn route_spec(chain: Seq<MiddlewareView>, s: StateView, e: EventView, fresh: u128)
    -> RoutedView {
    match e {
        EventView::Dispatch(a) => match a {
            ActionView::Keyboard(k) => RoutedView {
                actions: key_event_spec(s, k, fresh).actions.push(a),
                exit: key_event_spec(s, k, fresh).exit,
            },
            _ => RoutedView { actions: seq![a], exit: false },
        },
        EventView::CommandQueued(id) => RoutedView {
            actions: seq![ActionView::CommandConsume(id)],
            exit: false,
        },
        EventView::ConsolePush(t) => RoutedView {
            actions: seq![ActionView::ConsolePush(t)],
            exit: false,
        },
        EventView::CommandEnded { id, failed } => RoutedView {
            actions: seq![
                ActionView::CommandRun { func: handler_for(chain, s, id), uuid: id, failed },
            ],
            exit: false,
        },
        EventView::Render(_) => RoutedView { actions: Seq::empty(), exit: false },
        EventView::Exit => RoutedView { actions: Seq::empty(), exit: true },
    }
}

/// A dispatch as the loop makes it: a refusal is made known, and the loop
/// goes on.
pub open spec fn settle_spec(chain: Seq<MiddlewareView>, s: StateView, a: ActionView) -> Progress {
    let o = dispatch_spec(chain, s, a);
    Progress {
        state: o.state,
        effects: match o.result {
            Ok(_) => o.effects,
            Err(e) => o.effects.push(EffectView::Report(e)),
        },
    }
}

/// The dispatch of a batch of actions, one after the other, each in the
/// state that the one before it has left.
pub open spec fn settle_all_spec(chain: Seq<MiddlewareView>, s: StateView, actions: Seq<ActionView>)
    -> Progress
    decreases actions.len(),
{
    if actions.len() == 0 {
        Progress { state: s, effects: Seq::empty() }
    } else {
        let first = settle_spec(chain, s, actions[0]);
        let rest = settle_all_spec(chain, first.state, actions.drop_first());
        Progress { state: rest.state, effects: first.effects + rest.effects }
    }
}

/// What a `LoopStep` stands for.
pub struct LoopStepView {
    pub effects: Seq<EffectView>,
    pub stop: bool,
}

/// What the dispatch loop does with an event: what it asks of its
/// surroundings, and whether it ends.
#[derive(Debug)]
pub struct LoopStep {
    pub effects: Vec<Effect>,
    pub stop: bool,
}

impl View for LoopStep {
    type V = LoopStepView;

    open spec fn view(&self) -> LoopStepView {
        LoopStepView { effects: self.effects.deep_view(), stop: self.stop }
    }
}

/// One turn of the dispatch loop: the actions that the event means are
/// dispatched; if the event ends the loops, the render loop is told after
/// everything else.
pub open spec fn handle_spec(chain: Seq<MiddlewareView>, s: StateView, e: EventView, fresh: u128)
    -> (Progress, bool) {
    let routed = route_spec(chain, s, e, fresh);
    let done = settle_all_spec(chain, s, routed.actions);
    (
        Progress {
            state: done.state,
            effects: if routed.exit {
                done.effects.push(EffectView::Quit)
            } else {
                done.effects
            },
        },
        routed.exit,
    )
}

/// The command that an event is about, if it is about one.
pub open spec fn about_spec(e: EventView) -> Option<u128> {
    match e {
        EventView::CommandQueued(id) => Some(id),
        EventView::CommandEnded { id, failed } => Some(id),
        _ => None,
    }
}

/// One turn of the dispatch loop with what follows it: the command that the
/// event was about is forgotten if its life is over by then.
pub open spec fn turn_spec(chain: Seq<MiddlewareView>, s: StateView, e: EventView, fresh: u128)
    -> (Progress, bool) {
    let handled = handle_spec(chain, s, e, fresh);
    (
        Progress {
            state: match about_spec(e) {
                Some(id) => handled.0.state.evict(id),
                None => handled.0.state,
            },
            effects: handled.0.effects,
        },
        handled.1,
    )
}

/// The command that an event is about, if it is about one.
pub fn about(event: &Event) -> (r: Option<u128>)
    ensures
        r == about_spec(event@),
{
    match event {
        Event::CommandQueued(id) => Some(*id),
        Event::CommandEnded { id, failed } => Some(*id),
        _ => None,
    }
}

impl Store {
    /// What the command called `name` does when its run is over.
    fn handler_named(&self, name: &str) -> (r: HandlerKind)
        ensures
            r == handler_in(self@.chain, name@),
    {
        let mut i: usize = 0;
        assert(self@.chain.skip(0) == self@.chain);
        while i < self.middlewares.len()
            invariant
                i <= self.middlewares.len(),
                self@.chain.len() == self.middlewares.len(),
                handler_in(self@.chain, name@) == handler_in(self@.chain.skip(i as int), name@),
            decreases self.middlewares.len() - i,
        {
            let ghost rest = self@.chain.skip(i as int);
            assert(rest.drop_first() == self@.chain.skip(i + 1));
            assert(rest[0] == self.middlewares[i as int]@);
            match &self.middlewares[i] {
                Middleware::Command(mw) => {
                    match mw.handler.get(name) {
                        Some(kind) => {
                            return kind;
                        },
                        None => {},
                    }
                },
            }
            i += 1;
        }
        HandlerKind::Silent
    }

    /// What the command queued under `id` does when its run is over.
    pub fn handler_for(&self, id: u128) -> (r: HandlerKind)
        ensures
            r == handler_for(self@.chain, self@.state, id),
    {
        match self.state.queued_text(id) {
            None => HandlerKind::Silent,
            Some(text) => {
                let (name, _tail) = split_command(text);
                self.handler_named(name.as_str())
            },
        }
    }

    /// Says what an event means to the dispatch loop. A command that the
    /// event issues is queued under `fresh`.
    pub fn route(&self, event: Event, fresh: u128) -> (r: Routed)
        ensures
            r@ == route_spec(self@.chain, self@.state, event@, fresh),
    {
        let mut actions: Vec<AppAction> = Vec::new();
        assert(actions.deep_view() =~= Seq::<ActionView>::empty());
        let mut exit = false;
        match event {
            Event::Dispatch(a) => {
                match a {
                    AppAction::Keyboard(k) => {
                        let plan = self.state.key_event_handler(k, fresh);
                        actions = plan.actions;
                        exit = plan.exit;
                        let ghost before = actions.deep_view();
                        actions.push(AppAction::Keyboard(k));
                        assert(actions.deep_view() =~= before.push(ActionView::Keyboard(k)));
                    },
                    _ => {
                        let ghost v = a@;
                        actions.push(a);
                        assert(actions.deep_view() =~= seq![v]);
                    },
                }
            },
            Event::CommandQueued(id) => {
                actions.push(AppAction::CommandConsume(id));
                assert(actions.deep_view() =~= seq![ActionView::CommandConsume(id)]);
            },
            Event::ConsolePush(t) => {
                let ghost v = t@;
                actions.push(AppAction::ConsolePush(t));
                assert(actions.deep_view() =~= seq![ActionView::ConsolePush(v)]);
            },
            Event::CommandEnded { id, failed } => {
                let func = self.handler_for(id);
                actions.push(AppAction::CommandRun { func, uuid: id, failed });
                assert(actions.deep_view() =~= seq![
                    ActionView::CommandRun { func, uuid: id, failed },
                ]);
            },
            Event::Render(_) => {},
            Event::Exit => {
                exit = true;
            },
        }
        Routed { actions, exit }
    }

    /// Dispatches a batch of actions in their order. A refusal is made known
    /// among the effects and does not stop the batch.
    pub fn dispatch_all(&mut self, actions: &Vec<AppAction>) -> (r: Vec<Effect>)
        ensures
            final(self)@.chain == old(self)@.chain,
            final(self)@.state == settle_all_spec(
                old(self)@.chain,
                old(self)@.state,
                actions.deep_view(),
            ).state,
            r.deep_view() == settle_all_spec(
                old(self)@.chain,
                old(self)@.state,
                actions.deep_view(),
            ).effects,
    {
        let mut out: Vec<Effect> = Vec::new();
        assert(out.deep_view() =~= Seq::<EffectView>::empty());
        assert(actions.deep_view().skip(0) == actions.deep_view());
        let mut i: usize = 0;
        while i < actions.len()
            invariant
                i <= actions.len(),
                self@.chain == old(self)@.chain,
                settle_all_spec(old(self)@.chain, old(self)@.state, actions.deep_view()).state
                    == settle_all_spec(
                    self@.chain,
                    self@.state,
                    actions.deep_view().skip(i as int),
                ).state,
                settle_all_spec(old(self)@.chain, old(self)@.state, actions.deep_view()).effects
                    == out.deep_view() + settle_all_spec(
                    self@.chain,
                    self@.state,
                    actions.deep_view().skip(i as int),
                ).effects,
            decreases actions.len() - i,
        {
            let ghost rest = actions.deep_view().skip(i as int);
            assert(rest.drop_first() == actions.deep_view().skip(i + 1));
            assert(rest[0] == actions[i as int]@);
            let (result, effects) = self.dispatch(actions[i].clone());
            let mut effects = effects;
            match result {
                Ok(_) => {},
                Err(e) => {
                    effects.push(Effect::Report(e));
                },
            }
            out.append(&mut effects);
            i += 1;
        }
        out
    }

    /// One turn of the dispatch loop, for an event from the channel. A
    /// command that the event issues is queued under `fresh`.
    pub fn handle(&mut self, event: Event, fresh: u128) -> (r: LoopStep)
        ensures
            final(self)@.chain == old(self)@.chain,
            final(self)@.state == handle_spec(
                old(self)@.chain,
                old(self)@.state,
                event@,
                fresh,
            ).0.state,
            r@.effects == handle_spec(old(self)@.chain, old(self)@.state, event@, fresh).0.effects,
            r@.stop == handle_spec(old(self)@.chain, old(self)@.state, event@, fresh).1,
    {
        let routed = self.route(event, fresh);
        let mut effects = self.dispatch_all(&routed.actions);
        if routed.exit {
            effects.push(Effect::Quit);
        }
        LoopStep { effects, stop: routed.exit }
    }

    /// One turn of the dispatch loop with what follows it: the event is
    /// handled, and the command that it was about is forgotten if its life
    /// is over by then. A command that the event issues is queued under
    /// `fresh`.
    pub fn turn(&mut self, event: Event, fresh: u128) -> (r: LoopStep)
        ensures
            final(self)@.chain == old(self)@.chain,
            final(self)@.state == turn_spec(
                old(self)@.chain,
                old(self)@.state,
                event@,
                fresh,
            ).0.state,
            r@.effects == turn_spec(old(self)@.chain, old(self)@.state, event@, fresh).0.effects,
            r@.stop == turn_spec(old(self)@.chain, old(self)@.state, event@, fresh).1,
    {
        let subject = about(&event);
        let step = self.handle(event, fresh);
        match subject {
            Some(id) => {
                self.evict(id);
            },
            None => {},
        }
        step
    }

    /// One turn of the dispatch loop, for an event from the channel. A
    /// command that the event issues is queued under a newly minted
    /// identifier; whichever that is, the turn is the one that `turn` makes
    /// with it.
    pub fn on_event(&mut self, event: Event) -> (r: LoopStep)
        ensures
            final(self)@.chain == old(self)@.chain,
            exists|fresh: u128|
                {
                    &&& final(self)@.state == (#[trigger] turn_spec(
                        old(self)@.chain,
                        old(self)@.state,
                        event@,
                        fresh,
                    )).0.state
                    &&& r@.effects == turn_spec(
                        old(self)@.chain,
                        old(self)@.state,
                        event@,
                        fresh,
                    ).0.effects
                    &&& r@.stop == turn_spec(
                        old(self)@.chain,
                        old(self)@.state,
                        event@,
                        fresh,
                    ).1
                },
    {
        let fresh = random_identifier();
        self.turn(event, fresh)
    }
}

/// What the render loop does with an event.
#[derive(Debug)]
pub enum RenderStep {
    /// Draw this state.
    Draw(AppState),
    /// Nothing: the event is not for this loop.
    Skip,
    /// End the loop.
    Stop,
}

/// Says what the render loop does with an event: it draws the state that a
/// `Render` brings, ends on `Exit`, and passes over anything else.
pub fn render_step(event: Event) -> (r: RenderStep)
    ensures
        match event {
            Event::Render(s) => r matches RenderStep::Draw(d) && d@ == s@,
            Event::Exit => r is Stop,
            _ => r is Skip,
        },
{
    match event {
        Event::Render(s) => RenderStep::Draw(s),
        Event::Exit => RenderStep::Stop,
        _ => RenderStep::Skip,
    }
}

} // verus!
