use vstd::prelude::*;
use std::collections::HashMap;
use crate::actions::{Mode, ModeView};
use crate::geometry::Rect;

verus! {

/// How far a started command has come.
#[derive(Clone, Copy, Debug, PartialEq, Eq, Structural)]
pub enum CommandStatus {
    /// A worker runs it.
    Running,
    /// Its name is not registered; nothing was started.
    Invalid,
    /// Its run is over.
    Ended,
    /// Its run is over, and went wrong: the process did not start, or its
    /// output could not be read.
    Failed,
}

/// Where a command identifier stands in its life.
#[derive(Clone, Copy, Debug, PartialEq, Eq, Structural)]
pub enum Lifecycle {
    /// Nothing is queued under the identifier.
    Unknown,
    /// A command text is queued under it and nothing has been started.
    Queued,
    Running,
    Invalid,
    Ended,
    Failed,
}

/// What a `TopTabs` stands for.
#[verifier::ext_equal]
pub struct TabsView {
    pub titles: Seq<Seq<char>>,
    pub selection: usize,
}

/// The titles of the tab bar and the tab that is shown.
#[derive(Debug)]
pub struct TopTabs {
    pub titles: Vec<String>,
    pub selection: usize,
}

impl View for TopTabs {
    type V = TabsView;

    open spec fn view(&self) -> TabsView {
        TabsView { titles: self.titles.deep_view(), selection: self.selection }
    }
}

/// Copies a list of texts.
pub fn clone_texts(v: &Vec<String>) -> (r: Vec<String>)
    ensures
        r.deep_view() == v.deep_view(),
{
    let mut out: Vec<String> = Vec::new();
    let mut i: usize = 0;
    while i < v.len()
        invariant
            i <= v.len(),
            out.len() == i,
            forall|j: int| 0 <= j < i ==> out[j]@ == v[j]@,
        decreases v.len() - i,
    {
        out.push(v[i].clone());
        i += 1;
    }
    assert(out.deep_view() =~= v.deep_view());
    out
}

impl Clone for TopTabs {
    fn clone(&self) -> (r: TopTabs)
        ensures
            r@ == self@,
    {
        TopTabs { titles: clone_texts(&self.titles), selection: self.selection }
    }
}

/// What an `AppState` stands for.
#[verifier::ext_equal]
pub struct StateView {
    pub size: Rect,
    pub mode: ModeView,
    pub console: Seq<char>,
    pub command: Seq<char>,
    pub tabs: TabsView,
    /// The command texts, by the identifier each was queued under.
    pub queue: Map<u128, Seq<char>>,
    /// How far each command has come that was taken up.
    pub status: Map<u128, CommandStatus>,
}

impl StateView {
    /// Every command that has a status was queued.
    pub open spec fn wf(self) -> bool {
        self.status.dom().subset_of(self.queue.dom())
    }

    /// Whether the life of the command is over: it was found invalid, or
    /// its run has ended, well or not.
    pub open spec fn is_settled(self, id: u128) -> bool {
        self.lifecycle(id) == Lifecycle::Invalid || self.lifecycle(id) == Lifecycle::Ended
            || self.lifecycle(id) == Lifecycle::Failed
    }

    /// The state without what it holds of the command `id`, if the life of
    /// that command is over; the state as it is, if not.
    pub open spec fn evict(self, id: u128) -> StateView {
        if self.is_settled(id) {
            StateView { queue: self.queue.remove(id), status: self.status.remove(id), ..self }
        } else {
            self
        }
    }

    /// Where `id` stands in its life.
    pub open spec fn lifecycle(self, id: u128) -> Lifecycle {
        if !self.queue.contains_key(id) {
            Lifecycle::Unknown
        } else if !self.status.contains_key(id) {
            Lifecycle::Queued
        } else {
            match self.status[id] {
                CommandStatus::Running => Lifecycle::Running,
                CommandStatus::Invalid => Lifecycle::Invalid,
                CommandStatus::Ended => Lifecycle::Ended,
                CommandStatus::Failed => Lifecycle::Failed,
            }
        }
    }
}

/// The whole state of the dashboard.
#[derive(Debug)]
pub struct AppState {
    pub(crate) size: Rect,
    pub(crate) mode: Mode,
    pub(crate) console_txt: String,
    pub(crate) command: String,
    pub(crate) tabs: TopTabs,
    pub(crate) cmd_str_queue: HashMap<u128, String>,
    pub(crate) cmd_status: HashMap<u128, CommandStatus>,
}

impl View for AppState {
    type V = StateView;

    open(crate) spec fn view(&self) -> StateView {
        StateView {
            size: self.size,
            mode: self.mode@,
            console: self.console_txt@,
            command: self.command@,
            tabs: self.tabs@,
            queue: self.cmd_str_queue@.map_values(|s: String| s@),
            status: self.cmd_status@,
        }
    }
}

impl AppState {
    /// Every state is well formed.
    #[verifier::type_invariant]
    pub(crate) open(crate) spec fn inv(&self) -> bool {
        self@.wf()
    }
}

impl Default for AppState {
    /// The state before anything was dispatched: an empty terminal in
    /// normal mode, with the two tabs of the dashboard and no command.
    fn default() -> (s: AppState)
        ensures
            s@ == StateView::initial(),
    {
        let mut titles: Vec<String> = Vec::new();
        titles.push("CMD".to_owned());
        titles.push("Poloniex".to_owned());
        assert(titles.deep_view() =~= seq!["CMD"@, "Poloniex"@]);
        let queue: HashMap<u128, String> = HashMap::new();
        assert(queue@.map_values(|s: String| s@) =~= Map::<u128, Seq<char>>::empty());
        AppState {
            size: Rect::zero(),
            mode: Mode::normal(),
            console_txt: String::new(),
            command: String::new(),
            tabs: TopTabs { titles, selection: 0 },
            cmd_str_queue: queue,
            cmd_status: HashMap::new(),
        }
    }
}

impl StateView {
    /// The state before anything was dispatched.
    pub open spec fn initial() -> StateView {
        StateView {
            size: Rect { x: 0, y: 0, width: 0, height: 0 },
            mode: ModeView::normal(),
            console: Seq::empty(),
            command: Seq::empty(),
            tabs: TabsView { titles: seq!["CMD"@, "Poloniex"@], selection: 0 },
            queue: Map::empty(),
            status: Map::empty(),
        }
    }
}

impl Clone for AppState {
    fn clone(&self) -> (r: AppState)
        ensures
            r@ == self@,
    {
        proof {
            use_type_invariant(self);
        }
        AppState {
            size: self.size,
            mode: self.mode.clone(),
            console_txt: self.console_txt.clone(),
            command: self.command.clone(),
            tabs: self.tabs.clone(),
            cmd_str_queue: self.cmd_str_queue.clone(),
            cmd_status: self.cmd_status.clone(),
        }
    }
}

impl AppState {
    /// The size of the terminal.
    pub fn size(&self) -> (r: Rect)
        ensures
            r == self@.size,
    {
        self.size
    }

    /// The mode of the user interface.
    pub fn mode(&self) -> (r: &Mode)
        ensures
            r@ == self@.mode,
    {
        &self.mode
    }

    /// The text of the console.
    pub fn console_txt(&self) -> (r: &str)
        ensures
            r@ == self@.console,
    {
        self.console_txt.as_str()
    }

    /// The text of the command bar.
    pub fn command(&self) -> (r: &str)
        ensures
            r@ == self@.command,
    {
        self.command.as_str()
    }

    /// The tab bar.
    pub fn tabs(&self) -> (r: &TopTabs)
        ensures
            r@ == self@.tabs,
    {
        &self.tabs
    }

    /// The command text queued under `id`, if there is one.
    pub fn queued_text(&self, id: u128) -> (r: Option<&str>)
        ensures
            match r {
                Some(t) => self@.queue.contains_key(id) && t@ == self@.queue[id],
                None => !self@.queue.contains_key(id),
            },
    {
        match self.cmd_str_queue.get(&id) {
            Some(t) => Some(t.as_str()),
            None => None,
        }
    }

    /// The status recorded for `id`, if the command was taken up.
    pub fn status_of(&self, id: u128) -> (r: Option<CommandStatus>)
        ensures
            match r {
                Some(st) => self@.status.contains_key(id) && st == self@.status[id],
                None => !self@.status.contains_key(id),
            },
    {
        match self.cmd_status.get(&id) {
            Some(st) => Some(*st),
            None => None,
        }
    }

    /// Where `id` stands in its life. A state is always well formed: a
    /// command that has a status was queued.
    pub fn lifecycle(&self, id: u128) -> (r: Lifecycle)
        ensures
            r == self@.lifecycle(id),
            self@.wf(),
    {
        proof {
            use_type_invariant(self);
        }
        if !self.cmd_str_queue.contains_key(&id) {
            return Lifecycle::Unknown;
        }
        match self.cmd_status.get(&id) {
            None => Lifecycle::Queued,
            Some(CommandStatus::Running) => Lifecycle::Running,
            Some(CommandStatus::Invalid) => Lifecycle::Invalid,
            Some(CommandStatus::Ended) => Lifecycle::Ended,
            Some(CommandStatus::Failed) => Lifecycle::Failed,
        }
    }

    /// Forgets the command `id` if its life is over, and changes nothing
    /// if it is not: a command that is queued or running stays.
    pub fn evict(self, id: u128) -> (r: AppState)
        ensures
            r@ == self@.evict(id),
    {
        proof {
            use_type_invariant(&self);
        }
        match self.lifecycle(id) {
            Lifecycle::Invalid | Lifecycle::Ended | Lifecycle::Failed => {},
            _ => {
                return self;
            },
        }
        let AppState { size, mode, console_txt, command, tabs, cmd_str_queue, cmd_status } = self;
        let mut cmd_str_queue = cmd_str_queue;
        let mut cmd_status = cmd_status;
        let ghost before = cmd_str_queue@;
        cmd_str_queue.remove(&id);
        cmd_status.remove(&id);
        assert(cmd_str_queue@.map_values(|s: String| s@) =~= before.map_values(
            |s: String| s@,
        ).remove(id));
        AppState { size, mode, console_txt, command, tabs, cmd_str_queue, cmd_status }
    }
}

} // verus!
