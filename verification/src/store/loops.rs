use vstd::prelude::*;
use crate::geometry::Rect;
use crate::state::{TabsView, TopTabs};

verus! {

/// What an `App` stands for.
#[verifier::ext_equal]
pub struct AppView {
    pub size: Rect,
    pub tabs: TabsView,
}

impl AppView {
    /// The frame before anything has happened: no size yet, and the two tabs
    /// of the dashboard with the first one shown.
    pub open spec fn initial() -> AppView {
        AppView {
            size: Rect { x: 0, y: 0, width: 0, height: 0 },
            tabs: TabsView { titles: seq!["CMD"@, "Poloniex"@], selection: 0 },
        }
    }

    /// The frame after an action: a resize replaces the size, and an insert
    /// changes nothing.
    pub open spec fn after(self, action: AppAction) -> AppView {
        match action {
            AppAction::Insert(_) => self,
            AppAction::ResizeApp(size) => AppView { size, ..self },
        }
    }
}

/// The frame of the dashboard: the size of the terminal and the tab bar.
#[derive(Debug)]
pub struct App {
    pub size: Rect,
    pub tabs: TopTabs,
}

impl View for App {
    type V = AppView;

    open spec fn view(&self) -> AppView {
        AppView { size: self.size, tabs: self.tabs@ }
    }
}

/// A change of the frame.
#[derive(Clone, Copy, Debug)]
pub enum AppAction {
    Insert(&'static str),
    ResizeApp(Rect),
}

impl App {
    /// The frame before anything has happened.
    pub fn new() -> (r: App)
        ensures
            r@ == AppView::initial(),
    {
        let mut titles: Vec<String> = Vec::new();
        titles.push("CMD".to_owned());
        titles.push("Poloniex".to_owned());
        assert(titles.deep_view() =~= seq!["CMD"@, "Poloniex"@]);
        App { size: Rect::zero(), tabs: TopTabs { titles, selection: 0 } }
    }

    /// Applies an action to the frame and returns a copy of the frame as it
    /// is then. No action is refused.
    pub fn reduce(&mut self, action: AppAction) -> (r: Result<App, String>)
        ensures
            final(self)@ == old(self)@.after(action),
            r matches Ok(app) && app@ == final(self)@,
    {
        match action {
            AppAction::Insert(_name) => {},
            AppAction::ResizeApp(size) => {
                self.size = size;
            },
        }
        Ok(self.clone())
    }
}

impl Clone for App {
    fn clone(&self) -> (r: App)
        ensures
            r@ == self@,
    {
        App { size: self.size, tabs: self.tabs.clone() }
    }
}

impl Default for App {
    fn default() -> (r: App)
        ensures
            r@ == AppView::initial(),
    {
        App::new()
    }
}

} // verus!
