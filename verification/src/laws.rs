use vstd::prelude::*;
use crate::actions::{ActionView, HandlerKind};
use crate::errors::DispatchError;
use crate::events::{EffectView, EventView};
use crate::reducers::{reducers_for, transition};
use crate::state::{Lifecycle, StateView};
use crate::store::routing::{
    handle_spec, handler_for, settle_all_spec, settle_spec, turn_spec,
};
use crate::store::{chain_spec, dispatch_spec, nested_all_spec, nested_spec, MiddlewareView};
use crate::text::command_name;

verus! {

/// Reducing an action keeps the state well formed: a command that has a
/// status was queued.
pub proof fn law_transition_keeps_wf(s: StateView, a: ActionView)
    requires
        s.wf(),
    ensures
        transition(s, a) matches Ok(next) ==> next.wf(),
{
}

/// Forgetting a command keeps the state well formed, leaves nothing of the
/// command behind if its life was over, and touches no other command.
pub proof fn law_evict(s: StateView, id: u128, other: u128)
    requires
        s.wf(),
        other != id,
    ensures
        s.evict(id).wf(),
        s.is_settled(id) ==> s.evict(id).lifecycle(id) == Lifecycle::Unknown,
        !s.is_settled(id) ==> s.evict(id) == s,
        s.evict(id).lifecycle(other) == s.lifecycle(other),
        s.evict(id).queue.contains_key(other) ==> s.evict(id).queue[other] == s.queue[other],
{
}

/// The actions that a middleware adds leave the state well formed.
pub proof fn lemma_nested_keeps_wf(s: StateView, ns: Seq<ActionView>)
    requires
        s.wf(),
    ensures
        nested_all_spec(s, ns).state.wf(),
    decreases ns.len(),
{
    if ns.len() > 0 {
        law_transition_keeps_wf(s, ns[0]);
        lemma_nested_keeps_wf(nested_spec(s, ns[0]).state, ns.drop_first());
    }
}

/// An action's way through the chain leaves the state well formed.
pub proof fn lemma_chain_keeps_wf(chain: Seq<MiddlewareView>, s: StateView, a: ActionView)
    requires
        s.wf(),
    ensures
        chain_spec(chain, s, a).state.wf(),
    decreases chain.len(),
{
    if chain.len() > 0 {
        let plan = chain[0].intercept(s, a);
        lemma_nested_keeps_wf(s, plan.nested);
        lemma_chain_keeps_wf(chain.drop_first(), nested_all_spec(s, plan.nested).state, a);
    }
}

/// A dispatch keeps the state well formed, whatever the chain and the action.
pub proof fn law_dispatch_keeps_wf(chain: Seq<MiddlewareView>, s: StateView, a: ActionView)
    requires
        s.wf(),
    ensures
        dispatch_spec(chain, s, a).state.wf(),
{
    lemma_chain_keeps_wf(chain, s, a);
    law_transition_keeps_wf(chain_spec(chain, s, a).state, a);
}

/// Only taking a command up makes the chain change the state, and only that
/// and queuing a command make it ask anything of its surroundings.
pub proof fn lemma_chain_passes(chain: Seq<MiddlewareView>, s: StateView, a: ActionView)
    requires
        !(a is CommandConsume),
    ensures
        chain_spec(chain, s, a).state == s,
        !(a is CommandBarEnqueueCmd) ==> chain_spec(chain, s, a).effects == Seq::<
            EffectView,
        >::empty(),
    decreases chain.len(),
{
    if chain.len() > 0 {
        lemma_chain_passes(chain.drop_first(), s, a);
        let plan = chain[0].intercept(s, a);
        assert(plan.nested == Seq::<ActionView>::empty());
        if !(a is CommandBarEnqueueCmd) {
            assert(chain_spec(chain, s, a).effects =~= Seq::<EffectView>::empty());
        }
    }
}

/// An action that is refused leaves the state as it was: nothing of it is
/// applied, by no reducer and by no middleware.
pub proof fn law_refusal_changes_nothing(chain: Seq<MiddlewareView>, s: StateView, a: ActionView)
    ensures
        dispatch_spec(chain, s, a).result is Err ==> dispatch_spec(chain, s, a).state == s,
{
    if !(a is CommandConsume) {
        lemma_chain_passes(chain, s, a);
    }
}

/// Dispatching a batch is dispatching its first part and then, in the state
/// that this has left, the rest: however a sequence of actions is cut into
/// batches, the state it leads to and the effects it asks for are the same.
pub proof fn law_batch_split(
    chain: Seq<MiddlewareView>,
    s: StateView,
    a: Seq<ActionView>,
    b: Seq<ActionView>,
)
    ensures
        settle_all_spec(chain, s, a + b).state == settle_all_spec(
            chain,
            settle_all_spec(chain, s, a).state,
            b,
        ).state,
        settle_all_spec(chain, s, a + b).effects == settle_all_spec(chain, s, a).effects
            + settle_all_spec(chain, settle_all_spec(chain, s, a).state, b).effects,
    decreases a.len(),
{
    if a.len() == 0 {
        assert(a + b == b);
        assert(settle_all_spec(chain, s, a).effects + settle_all_spec(chain, s, b).effects
            =~= settle_all_spec(chain, s, b).effects);
    } else {
        let first = settle_spec(chain, s, a[0]);
        assert((a + b)[0] == a[0]);
        assert((a + b).drop_first() == a.drop_first() + b);
        law_batch_split(chain, first.state, a.drop_first(), b);
        let ra = settle_all_spec(chain, first.state, a.drop_first());
        let rb = settle_all_spec(chain, ra.state, b);
        assert(first.effects + (ra.effects + rb.effects) =~= (first.effects + ra.effects)
            + rb.effects);
    }
}

/// A batch of one action is the dispatch of that action.
pub proof fn law_batch_of_one(chain: Seq<MiddlewareView>, s: StateView, a: ActionView)
    ensures
        settle_all_spec(chain, s, seq![a]).state == settle_spec(chain, s, a).state,
        settle_all_spec(chain, s, seq![a]).effects == settle_spec(chain, s, a).effects,
{
    reveal_with_fuel(settle_all_spec, 2);
    assert(seq![a].drop_first() =~= Seq::<ActionView>::empty());
    assert(settle_spec(chain, s, a).effects + Seq::<EffectView>::empty() =~= settle_spec(
        chain,
        s,
        a,
    ).effects);
}

/// An action that no reducer is concerned with is reduced to the state it
/// met, and its dispatch still goes through: the subscribers are told once,
/// after what the chain has done. Where no middleware acts on the action
/// either, the state stays as it was and that one notice is all.
pub proof fn law_unmatched_action(chain: Seq<MiddlewareView>, s: StateView, a: ActionView)
    requires
        reducers_for(a).len() == 0,
    ensures
        transition(s, a) == Ok::<StateView, DispatchError>(s),
        dispatch_spec(chain, s, a).result == Ok::<StateView, DispatchError>(
            chain_spec(chain, s, a).state,
        ),
        dispatch_spec(chain, s, a).state == chain_spec(chain, s, a).state,
        dispatch_spec(chain, s, a).effects == chain_spec(chain, s, a).effects.push(
            EffectView::Notify(chain_spec(chain, s, a).state),
        ),
        !(a is CommandConsume) ==> dispatch_spec(chain, s, a).state == s && dispatch_spec(
            chain,
            s,
            a,
        ).effects == seq![EffectView::Notify(s)],
{
    if !(a is CommandConsume) {
        lemma_chain_passes(chain, s, a);
        assert(Seq::<EffectView>::empty().push(EffectView::Notify(s)) =~= seq![
            EffectView::Notify(s),
        ]);
    }
}

/// The actions that push these texts to the console, in their order.
pub open spec fn console_pushes(payloads: Seq<Seq<char>>) -> Seq<ActionView> {
    Seq::new(payloads.len(), |i: int| ActionView::ConsolePush(payloads[i]))
}

/// After a run of console pushes the console holds what it held before and
/// then the texts that were pushed, in the order of their dispatch. Nothing
/// else of the state has changed.
pub proof fn law_console_concatenates(
    chain: Seq<MiddlewareView>,
    s: StateView,
    payloads: Seq<Seq<char>>,
)
    ensures
        settle_all_spec(chain, s, console_pushes(payloads)).state == (StateView {
            console: s.console + payloads.flatten(),
            ..s
        }),
    decreases payloads.len(),
{
    let actions = console_pushes(payloads);
    if payloads.len() == 0 {
        assert(s.console + payloads.flatten() =~= s.console);
    } else {
        lemma_chain_passes(chain, s, actions[0]);
        let next = settle_spec(chain, s, actions[0]).state;
        assert(next == StateView { console: s.console + payloads[0], ..s });
        assert(actions.drop_first() =~= console_pushes(payloads.drop_first()));
        law_console_concatenates(chain, next, payloads.drop_first());
        assert((s.console + payloads[0]) + payloads.drop_first().flatten() =~= s.console
            + payloads.flatten());
    }
}

/// Dispatching the same resize twice leaves the state that dispatching it
/// once leaves.
pub proof fn law_resize_idempotent(chain: Seq<MiddlewareView>, s: StateView, a: ActionView)
    requires
        a is ResizeApp,
    ensures
        settle_all_spec(chain, s, seq![a, a]).state == settle_spec(chain, s, a).state,
{
    reveal_with_fuel(settle_all_spec, 3);
    let once = settle_spec(chain, s, a).state;
    lemma_chain_passes(chain, s, a);
    lemma_chain_passes(chain, once, a);
    assert(seq![a, a].drop_first() =~= seq![a]);
    assert(seq![a].drop_first() =~= Seq::<ActionView>::empty());
}

/// How many workers the effects ask to start.
pub open spec fn spawn_count(effects: Seq<EffectView>) -> nat
    decreases effects.len(),
{
    if effects.len() == 0 {
        0
    } else {
        spawn_count(effects.drop_last()) + if effects.last() is Spawn {
            1nat
        } else {
            0nat
        }
    }
}

/// The workers that two runs of effects ask for are those of the one and
/// those of the other.
pub proof fn lemma_spawn_count_add(a: Seq<EffectView>, b: Seq<EffectView>)
    ensures
        spawn_count(a + b) == spawn_count(a) + spawn_count(b),
    decreases b.len(),
{
    if b.len() == 0 {
        assert(a + b == a);
    } else {
        assert((a + b).drop_last() == a + b.drop_last());
        lemma_spawn_count_add(a, b.drop_last());
    }
}

/// A command that was taken up is not started again: the chain leaves the
/// state as it was and asks for no worker.
pub proof fn lemma_chain_started(chain: Seq<MiddlewareView>, s: StateView, id: u128)
    requires
        s.lifecycle(id) != Lifecycle::Queued,
    ensures
        chain_spec(chain, s, ActionView::CommandConsume(id)).state == s,
        spawn_count(chain_spec(chain, s, ActionView::CommandConsume(id)).effects) == 0,
    decreases chain.len(),
{
    let a = ActionView::CommandConsume(id);
    if chain.len() > 0 {
        lemma_chain_started(chain.drop_first(), s, id);
        let plan = chain[0].intercept(s, a);
        assert(plan.nested == Seq::<ActionView>::empty());
        let rest = chain_spec(chain.drop_first(), s, a);
        assert(plan.effects.len() == 1 && plan.effects[0] is Report);
        assert(plan.effects.drop_last() =~= Seq::<EffectView>::empty());
        assert(spawn_count(plan.effects) == 0) by {
            reveal_with_fuel(spawn_count, 2);
        }
        assert(plan.effects + Seq::<EffectView>::empty() =~= plan.effects);
        lemma_spawn_count_add(plan.effects, rest.effects);
    }
}

/// The life of a command. Queued under an identifier that is not in use,
/// it is `Queued`. Taken up, it is `Running` and exactly one worker is asked
/// for, if the first middleware of the chain has its name registered; if
/// that middleware has not, it is `Invalid`, no worker is asked for, and
/// that is where it stays: the end of a run is refused for it. Where the
/// chain is empty nothing takes the command up, and it stays `Queued`. A
/// running command whose run ends well is `Ended`, and `Failed` if the run
/// went wrong.
pub proof fn law_command_lifecycle(
    chain: Seq<MiddlewareView>,
    s: StateView,
    id: u128,
    func: HandlerKind,
    failed: bool,
)
    requires
        s.wf(),
        !s.queue.contains_key(id),
    ensures
        ({
            let queued = dispatch_spec(chain, s, ActionView::CommandBarEnqueueCmd(id));
            let taken = dispatch_spec(chain, queued.state, ActionView::CommandConsume(id));
            let over = dispatch_spec(
                chain,
                taken.state,
                ActionView::CommandRun { func, uuid: id, failed },
            );
            let recognized = chain.len() >= 1 && (chain[0] matches MiddlewareView::Command(reg)
                && reg.contains_key(command_name(s.command)));
            let unrecognized = chain.len() >= 1 && !recognized;
            &&& s.lifecycle(id) == Lifecycle::Unknown
            &&& queued.result is Ok
            &&& queued.state.lifecycle(id) == Lifecycle::Queued
            &&& queued.state.queue[id] == s.command
            &&& spawn_count(queued.effects) == 0
            &&& taken.result is Ok
            &&& recognized ==> taken.state.lifecycle(id) == Lifecycle::Running && spawn_count(
                taken.effects,
            ) == 1
            &&& unrecognized ==> taken.state.lifecycle(id) == Lifecycle::Invalid && spawn_count(
                taken.effects,
            ) == 0
            &&& chain.len() == 0 ==> taken.state.lifecycle(id) == Lifecycle::Queued && spawn_count(
                taken.effects,
            ) == 0
            &&& recognized && !failed ==> over.result is Ok && over.state.lifecycle(id)
                == Lifecycle::Ended
            &&& recognized && failed ==> over.result is Ok && over.state.lifecycle(id)
                == Lifecycle::Failed
            &&& !recognized ==> over.result == Err::<StateView, DispatchError>(
                DispatchError::NotRunning(id),
            ) && over.state == taken.state
            &&& spawn_count(over.effects) == 0
        }),
{
    let enqueue = ActionView::CommandBarEnqueueCmd(id);
    let consume = ActionView::CommandConsume(id);
    let run = ActionView::CommandRun { func, uuid: id, failed };
    // Queuing.
    lemma_chain_passes(chain, s, enqueue);
    let queued = dispatch_spec(chain, s, enqueue);
    lemma_enqueue_effects(chain, s, id);
    assert(spawn_count(queued.effects) == 0) by {
        let e = chain_spec(chain, s, enqueue).effects;
        assert(queued.effects.drop_last() == e);
    }
    let q = queued.state;
    assert(q.queue[id] == s.command);
    assert(q.lifecycle(id) == Lifecycle::Queued);
    if chain.len() == 0 {
        let taken = dispatch_spec(chain, q, consume);
        assert(taken.state == q);
        assert(spawn_count(taken.effects) == 0) by {
            reveal_with_fuel(spawn_count, 2);
            assert(taken.effects.drop_last() =~= Seq::<EffectView>::empty());
        }
        let over = dispatch_spec(chain, q, run);
        assert(spawn_count(over.effects) == 0) by {
            reveal_with_fuel(spawn_count, 2);
        }
    } else {
        // Taking up: the first middleware acts, the others find the command started.
        let plan = chain[0].intercept(q, consume);
        let added = nested_all_spec(q, plan.nested);
        reveal_with_fuel(nested_all_spec, 2);
        assert(plan.nested.drop_first() =~= Seq::<ActionView>::empty());
        assert(added.state.lifecycle(id) != Lifecycle::Queued);
        lemma_chain_started(chain.drop_first(), added.state, id);
        let rest = chain_spec(chain.drop_first(), added.state, consume);
        let taken = dispatch_spec(chain, q, consume);
        assert(taken.state == added.state);
        let through = chain_spec(chain, q, consume).effects;
        assert(through == plan.effects + added.effects + rest.effects);
        lemma_spawn_count_add(plan.effects + added.effects, rest.effects);
        lemma_spawn_count_add(plan.effects, added.effects);
        assert(spawn_count(added.effects) == 0) by {
            reveal_with_fuel(spawn_count, 2);
            assert(added.effects.len() == 1);
            assert(added.effects.drop_last() =~= Seq::<EffectView>::empty());
        }
        assert(spawn_count(plan.effects) == plan.effects.len()) by {
            reveal_with_fuel(spawn_count, 2);
            if plan.effects.len() == 1 {
                assert(plan.effects.drop_last() =~= Seq::<EffectView>::empty());
            }
        }
        assert(spawn_count(taken.effects) == spawn_count(through)) by {
            assert(taken.effects.drop_last() == through);
        }
        // The end of the run.
        lemma_chain_passes(chain, taken.state, run);
        let over = dispatch_spec(chain, taken.state, run);
        assert(spawn_count(over.effects) == 0) by {
            reveal_with_fuel(spawn_count, 2);
            if over.result is Ok {
                assert(over.effects.drop_last() =~= Seq::<EffectView>::empty());
            }
        }
    }
}

/// Queuing a command asks for no worker, and tells the dispatch loop to
/// take the command up, once for each middleware of the chain.
pub proof fn lemma_enqueue_effects(chain: Seq<MiddlewareView>, s: StateView, id: u128)
    requires
        !s.queue.contains_key(id),
    ensures
        spawn_count(chain_spec(chain, s, ActionView::CommandBarEnqueueCmd(id)).effects) == 0,
        chain_spec(chain, s, ActionView::CommandBarEnqueueCmd(id)).effects == Seq::new(
            chain.len(),
            |i: int| EffectView::Send(EventView::CommandQueued(id)),
        ),
    decreases chain.len(),
{
    let a = ActionView::CommandBarEnqueueCmd(id);
    if chain.len() > 0 {
        lemma_enqueue_effects(chain.drop_first(), s, id);
        let plan = chain[0].intercept(s, a);
        let rest = chain_spec(chain.drop_first(), s, a);
        assert(plan.nested == Seq::<ActionView>::empty());
        assert(plan.effects + Seq::<EffectView>::empty() =~= plan.effects);
        assert(spawn_count(plan.effects) == 0) by {
            reveal_with_fuel(spawn_count, 2);
            assert(plan.effects.drop_last() =~= Seq::<EffectView>::empty());
        }
        lemma_spawn_count_add(plan.effects, rest.effects);
        assert(chain_spec(chain, s, a).effects =~= Seq::new(
            chain.len(),
            |i: int| EffectView::Send(EventView::CommandQueued(id)),
        ));
    } else {
        assert(chain_spec(chain, s, a).effects =~= Seq::new(
            chain.len(),
            |i: int| EffectView::Send(EventView::CommandQueued(id)),
        ));
    }
}

/// An action that a middleware adds is dispatched like any other: no
/// middleware acts on a command's first status, so going through the chain
/// adds nothing to reducing it, telling the subscribers, or making the
/// refusal known.
pub proof fn law_added_action_is_dispatched(
    chain: Seq<MiddlewareView>,
    s: StateView,
    a: ActionView,
)
    requires
        a is CommandCreate || a is CommandInvalid,
    ensures
        nested_spec(s, a).state == settle_spec(chain, s, a).state,
        nested_spec(s, a).effects == settle_spec(chain, s, a).effects,
{
    lemma_chain_passes(chain, s, a);
    let o = dispatch_spec(chain, s, a);
    match transition(s, a) {
        Ok(next) => {
            assert(o.effects =~= seq![EffectView::Notify(next)]);
        },
        Err(e) => {
            assert(o.effects.push(EffectView::Report(e)) =~= seq![EffectView::Report(e)]);
        },
    }
}

/// Every action that a middleware adds gives a command its first status.
pub proof fn law_added_actions(m: MiddlewareView, s: StateView, a: ActionView, i: int)
    requires
        0 <= i < m.intercept(s, a).nested.len(),
    ensures
        m.intercept(s, a).nested[i] is CommandCreate || m.intercept(s, a).nested[i]
            is CommandInvalid,
{
}

/// What a worker sends reaches the state through the dispatch loop: text
/// that it has read is added to the console and changes nothing else, and
/// the word that it is done closes the life of its command, which is then
/// `Ended`, or `Failed` if the run went wrong.
pub proof fn law_worker_events_settle(
    chain: Seq<MiddlewareView>,
    s: StateView,
    id: u128,
    text: Seq<char>,
    failed: bool,
    fresh: u128,
)
    requires
        s.wf(),
        s.lifecycle(id) == Lifecycle::Running,
    ensures
        handle_spec(chain, s, EventView::ConsolePush(text), fresh).0.state == (StateView {
            console: s.console + text,
            ..s
        }),
        !handle_spec(chain, s, EventView::ConsolePush(text), fresh).1,
        handle_spec(chain, s, EventView::CommandEnded { id, failed }, fresh).0.state.lifecycle(id)
            == if failed {
            Lifecycle::Failed
        } else {
            Lifecycle::Ended
        },
        !handle_spec(chain, s, EventView::CommandEnded { id, failed }, fresh).1,
{
    reveal_with_fuel(settle_all_spec, 2);
    let push = ActionView::ConsolePush(text);
    lemma_chain_passes(chain, s, push);
    assert(seq![push].drop_first() =~= Seq::<ActionView>::empty());
    let run = ActionView::CommandRun { func: handler_for(chain, s, id), uuid: id, failed };
    lemma_chain_passes(chain, s, run);
    assert(seq![run].drop_first() =~= Seq::<ActionView>::empty());
}

/// An action that a middleware adds is never refused. A middleware adds at
/// most one action, and only for a command that is queued and has no
/// status, which is all that giving a command its first status asks for. So
/// the dispatch of an added action always reduces it and tells the
/// subscribers, and no dispatch goes on after a refusal of one.
pub proof fn law_added_actions_are_reduced(m: MiddlewareView, s: StateView, a: ActionView)
    ensures
        m.intercept(s, a).nested.len() <= 1,
        forall|i: int|
            0 <= i < m.intercept(s, a).nested.len() ==> transition(
                s,
                #[trigger] m.intercept(s, a).nested[i],
            ) is Ok,
        nested_all_spec(s, m.intercept(s, a).nested).effects.len() == m.intercept(
            s,
            a,
        ).nested.len(),
        forall|i: int|
            0 <= i < nested_all_spec(s, m.intercept(s, a).nested).effects.len()
                ==> #[trigger] nested_all_spec(s, m.intercept(s, a).nested).effects[i] is Notify,
{
    let nested = m.intercept(s, a).nested;
    reveal_with_fuel(nested_all_spec, 2);
    if nested.len() == 1 {
        assert(nested.drop_first() =~= Seq::<ActionView>::empty());
        assert(transition(s, nested[0]) is Ok);
    }
}

/// A turn about a command whose life is then over forgets the command, and
/// asks of the surroundings what the dispatches of the turn ask: the
/// subscribers are told of the last status before it is forgotten.
pub proof fn law_turn_forgets_settled(
    chain: Seq<MiddlewareView>,
    s: StateView,
    id: u128,
    failed: bool,
    fresh: u128,
)
    requires
        s.wf(),
        s.lifecycle(id) == Lifecycle::Running,
    ensures
        turn_spec(chain, s, EventView::CommandEnded { id, failed }, fresh).0.state.lifecycle(id)
            == Lifecycle::Unknown,
        turn_spec(chain, s, EventView::CommandEnded { id, failed }, fresh).0.state.wf(),
        turn_spec(chain, s, EventView::CommandEnded { id, failed }, fresh).0.effects
            == handle_spec(chain, s, EventView::CommandEnded { id, failed }, fresh).0.effects,
        handle_spec(chain, s, EventView::CommandEnded { id, failed }, fresh).0.effects.last()
            == EffectView::Notify(
            handle_spec(chain, s, EventView::CommandEnded { id, failed }, fresh).0.state,
        ),
{
    law_worker_events_settle(chain, s, id, Seq::empty(), failed, fresh);
    reveal_with_fuel(settle_all_spec, 2);
    let run = ActionView::CommandRun { func: handler_for(chain, s, id), uuid: id, failed };
    lemma_chain_passes(chain, s, run);
    assert(seq![run].drop_first() =~= Seq::<ActionView>::empty());
    let after = handle_spec(chain, s, EventView::CommandEnded { id, failed }, fresh).0;
    law_dispatch_keeps_wf(chain, s, run);
    let o = dispatch_spec(chain, s, run);
    assert(o.effects =~= seq![EffectView::Notify(o.state)]);
    assert(after.effects =~= o.effects);
}

} // verus!
