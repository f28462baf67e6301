use vstd::prelude::*;
use crate::actions::{ActionView, AppAction};
use crate::errors::DispatchError;
use crate::state::{AppState, StateView};

verus! {

/// What an `Event` stands for.
pub enum EventView {
    Dispatch(ActionView),
    Render(StateView),
    Exit,
    CommandQueued(u128),
    ConsolePush(Seq<char>),
    CommandEnded { id: u128, failed: bool },
}

/// A message on one of the two channels: to the dispatch loop, or from it
/// to the render loop.
#[derive(Debug)]
pub enum Event {
    /// Ask the dispatch loop to dispatch the action.
    Dispatch(AppAction),
    /// Ask the render loop to draw this state.
    Render(AppState),
    /// Ask both loops to end.
    Exit,
    /// A command has been queued under this identifier and waits to be
    /// taken up.
    CommandQueued(u128),
    /// A worker has read this text from its command.
    ConsolePush(String),
    /// A worker is done: the output of its command has ended, or the command
    /// could not be started or read.
    CommandEnded { id: u128, failed: bool },
}

impl View for Event {
    type V = EventView;

    open spec fn view(&self) -> EventView {
        match self {
            Event::Dispatch(a) => EventView::Dispatch(a@),
            Event::Render(s) => EventView::Render(s@),
            Event::Exit => EventView::Exit,
            Event::CommandQueued(id) => EventView::CommandQueued(*id),
            Event::ConsolePush(t) => EventView::ConsolePush(t@),
            Event::CommandEnded { id, failed } => EventView::CommandEnded {
                id: *id,
                failed: *failed,
            },
        }
    }
}

impl DeepView for Event {
    type V = EventView;

    open spec fn deep_view(&self) -> EventView {
        self@
    }
}

/// What an `Effect` stands for.
pub enum EffectView {
    Send(EventView),
    Spawn { id: u128, program: Seq<char>, args: Seq<Seq<char>> },
    Notify(StateView),
    Report(DispatchError),
    Quit,
}

/// Work that a dispatch asks of its surroundings.
#[derive(Debug)]
pub enum Effect {
    /// Put the event on the channel to the dispatch loop.
    Send(Event),
    /// Start a worker that runs `program` with `args` for the command `id`.
    Spawn { id: u128, program: String, args: Vec<String> },
    /// Tell the subscribers that a dispatch went through; this is the state
    /// after it.
    Notify(AppState),
    /// Make it known that an action was not acted on.
    Report(DispatchError),
    /// Ask the render loop to end.
    Quit,
}

impl View for Effect {
    type V = EffectView;

    open spec fn view(&self) -> EffectView {
        match self {
            Effect::Send(e) => EffectView::Send(e@),
            Effect::Spawn { id, program, args } => EffectView::Spawn {
                id: *id,
                program: program@,
                args: args.deep_view(),
            },
            Effect::Notify(s) => EffectView::Notify(s@),
            Effect::Report(e) => EffectView::Report(*e),
            Effect::Quit => EffectView::Quit,
        }
    }
}

impl DeepView for Effect {
    type V = EffectView;

    open spec fn deep_view(&self) -> EffectView {
        self@
    }
}

} // verus!
