use vstd::prelude::*;
use crate::actions::{ActionView, AppAction, HandlerKind};
use crate::errors::DispatchError;
use crate::events::{Effect, EffectView, Event, EventView};
use crate::middlewares::{Interception, PlanView};
use crate::registry::CommandHandler;
use crate::state::{AppState, Lifecycle, StateView};
use crate::text::{command_name, lemma_split_on_first, split_command, split_on, split_words};

verus! {

/// The middleware that takes queued commands up.
#[derive(Debug)]
pub struct CommandMiddleWare {
    pub handler: CommandHandler,
}

/// The worker that a command line asks for: it runs the first word of the
/// line, with the other words as arguments.
pub open spec fn spawn_spec(id: u128, cmd_str: Seq<char>) -> EffectView {
    EffectView::Spawn {
        id,
        program: split_on(cmd_str, ' ')[0],
        args: split_on(cmd_str, ' ').drop_first(),
    }
}

impl CommandHandler {
    /// Says which worker to start for the command line `cmd_str`.
    pub fn spawn(&self, id: u128, cmd_str: &str) -> (r: Effect)
        ensures
            r@ == spawn_spec(id, cmd_str@),
    {
        proof {
            lemma_split_on_first(cmd_str@, ' ');
        }
        let mut words = split_words(cmd_str);
        let ghost all = words.deep_view();
        let program = words.remove(0);
        assert(words.deep_view() =~= all.drop_first());
        assert(program@ == all[0]);
        Effect::Spawn { id, program, args: words }
    }
}

/// What the command middleware wants done when it meets `a` in state `s`.
///
/// When a command is about to be queued, the dispatch loop is told to take
/// it up. When a command is taken up that is queued and was not taken up
/// before, it is started if its name is registered, and marked invalid if
/// not. Taking up a command that is not queued, or was taken up before,
/// is made known and does nothing else.
pub open spec fn intercept_spec(reg: Map<Seq<char>, HandlerKind>, s: StateView, a: ActionView)
    -> PlanView {
    match a {
        ActionView::CommandBarEnqueueCmd(id) => if s.queue.contains_key(id) {
            PlanView::pass()
        } else {
            PlanView {
                effects: seq![EffectView::Send(EventView::CommandQueued(id))],
                nested: Seq::empty(),
            }
        },
        ActionView::CommandConsume(id) => match s.lifecycle(id) {
            Lifecycle::Unknown => PlanView {
                effects: seq![EffectView::Report(DispatchError::NotQueued(id))],
                nested: Seq::empty(),
            },
            Lifecycle::Queued => if reg.contains_key(command_name(s.queue[id])) {
                PlanView {
                    effects: seq![spawn_spec(id, s.queue[id])],
                    nested: seq![ActionView::CommandCreate(id)],
                }
            } else {
                PlanView { effects: Seq::empty(), nested: seq![ActionView::CommandInvalid(id)] }
            },
            _ => PlanView {
                effects: seq![EffectView::Report(DispatchError::AlreadyStarted(id))],
                nested: Seq::empty(),
            },
        },
        _ => PlanView::pass(),
    }
}

impl CommandMiddleWare {
    /// Says what is to be done when `action` is dispatched in `state`. The
    /// action itself always goes on to the reducers.
    pub fn dispatch(&self, state: &AppState, action: &AppAction) -> (r: Interception)
        ensures
            r@ == intercept_spec(self.handler@, state@, action@),
    {
        let mut plan = Interception::pass();
        match action {
            AppAction::CommandBarEnqueueCmd(id) => {
                if state.queued_text(*id).is_none() {
                    plan.effects.push(Effect::Send(Event::CommandQueued(*id)));
                    assert(plan.effects.deep_view() =~= seq![
                        EffectView::Send(EventView::CommandQueued(*id)),
                    ]);
                }
            },
            AppAction::CommandConsume(id) => {
                match state.lifecycle(*id) {
                    Lifecycle::Unknown => {
                        plan.effects.push(Effect::Report(DispatchError::NotQueued(*id)));
                        assert(plan.effects.deep_view() =~= seq![
                            EffectView::Report(DispatchError::NotQueued(*id)),
                        ]);
                    },
                    Lifecycle::Queued => {
                        let command = match state.queued_text(*id) {
                            Some(c) => c,
                            None => "",
                        };
                        let (name, _tail) = split_command(command);
                        if self.handler.contains_key(name.as_str()) {
                            plan.effects.push(self.handler.spawn(*id, command));
                            plan.nested.push(AppAction::CommandCreate(*id));
                            assert(plan.effects.deep_view() =~= seq![spawn_spec(*id, command@)]);
                            assert(plan.nested.deep_view() =~= seq![
                                ActionView::CommandCreate(*id),
                            ]);
                        } else {
                            plan.nested.push(AppAction::CommandInvalid(*id));
                            assert(plan.nested.deep_view() =~= seq![
                                ActionView::CommandInvalid(*id),
                            ]);
                        }
                    },
                    _ => {
                        plan.effects.push(Effect::Report(DispatchError::AlreadyStarted(*id)));
                        assert(plan.effects.deep_view() =~= seq![
                            EffectView::Report(DispatchError::AlreadyStarted(*id)),
                        ]);
                    },
                }
            },
            _ => {},
        }
        plan
    }
}

} // verus!
