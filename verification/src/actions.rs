use vstd::prelude::*;
use crate::geometry::Rect;
use crate::text::str_eq;

verus! {

/// What a `Mode` stands for: its name and the symbol shown for it.
pub struct ModeView {
    pub name: Seq<char>,
    pub symbol: Seq<char>,
}

impl ModeView {
    /// The mode in which keys are commands of their own.
    pub open spec fn normal() -> ModeView {
        ModeView { name: "normal"@, symbol: "N"@ }
    }

    /// The mode in which keys edit the command bar.
    pub open spec fn command() -> ModeView {
        ModeView { name: "command"@, symbol: ":"@ }
    }
}

/// A mode of the user interface.
#[derive(Debug)]
pub struct Mode {
    pub name: String,
    pub symbol: String,
}

impl View for Mode {
    type V = ModeView;

    open spec fn view(&self) -> ModeView {
        ModeView { name: self.name@, symbol: self.symbol@ }
    }
}

impl Clone for Mode {
    fn clone(&self) -> (r: Mode)
        ensures
            r@ == self@,
    {
        Mode { name: self.name.clone(), symbol: self.symbol.clone() }
    }
}

impl Mode {
    /// The mode in which keys are commands of their own.
    pub fn normal() -> (m: Mode)
        ensures
            m@ == ModeView::normal(),
    {
        Mode { name: "normal".to_owned(), symbol: "N".to_owned() }
    }

    /// The mode in which keys edit the command bar.
    pub fn command() -> (m: Mode)
        ensures
            m@ == ModeView::command(),
    {
        Mode { name: "command".to_owned(), symbol: ":".to_owned() }
    }

    /// Whether this is the mode in which keys edit the command bar.
    pub fn is_command(&self) -> (b: bool)
        ensures
            b == (self@.name == "command"@),
    {
        str_eq(self.name.as_str(), "command")
    }
}

/// A key press, as the input backend reports it.
#[derive(Clone, Copy, Debug, PartialEq, Eq, Structural)]
pub enum Key {
    Backspace,
    Left,
    Right,
    Up,
    Down,
    Home,
    End,
    PageUp,
    PageDown,
    BackTab,
    Delete,
    Insert,
    F(u8),
    Char(char),
    Alt(char),
    Ctrl(char),
    Null,
    Esc,
}

/// What a registered command does to the state when its run has ended.
#[derive(Clone, Copy, Debug, PartialEq, Eq, Structural)]
pub enum HandlerKind {
    /// Nothing.
    Silent,
    /// It writes a closing line for the command to the console.
    Report,
}

/// What an `AppAction` stands for.
pub enum ActionView {
    ResizeApp(Rect),
    SetMode(ModeView),
    ConsolePush(Seq<char>),
    CommandBarPush(char),
    CommandBarSet(Seq<char>),
    CommandBarEnqueueCmd(u128),
    CommandConsume(u128),
    CommandCreate(u128),
    CommandInvalid(u128),
    CommandRun { func: HandlerKind, uuid: u128, failed: bool },
    Keyboard(Key),
    Error(Seq<char>),
}

/// An intended change of the state. Commands are named by the 128-bit value
/// of the identifier they were queued under.
#[derive(Debug)]
pub enum AppAction {
    /// The terminal has this size now.
    ResizeApp(Rect),
    SetMode(Mode),
    /// Text for the end of the console buffer.
    ConsolePush(String),
    /// A character for the end of the command bar.
    CommandBarPush(char),
    /// A new content for the command bar.
    CommandBarSet(String),
    /// Queue the text of the command bar under this identifier.
    CommandBarEnqueueCmd(u128),
    /// Take the queued command up: start it, or find it invalid.
    CommandConsume(u128),
    /// The queued command has been started.
    CommandCreate(u128),
    /// The queued command names nothing that is registered.
    CommandInvalid(u128),
    /// The run of a started command is over; `failed` tells how it went.
    CommandRun { func: HandlerKind, uuid: u128, failed: bool },
    Keyboard(Key),
    Error(String),
}

impl View for AppAction {
    type V = ActionView;

    open spec fn view(&self) -> ActionView {
        match self {
            AppAction::ResizeApp(r) => ActionView::ResizeApp(*r),
            AppAction::SetMode(m) => ActionView::SetMode(m@),
            AppAction::ConsolePush(s) => ActionView::ConsolePush(s@),
            AppAction::CommandBarPush(c) => ActionView::CommandBarPush(*c),
            AppAction::CommandBarSet(s) => ActionView::CommandBarSet(s@),
            AppAction::CommandBarEnqueueCmd(id) => ActionView::CommandBarEnqueueCmd(*id),
            AppAction::CommandConsume(id) => ActionView::CommandConsume(*id),
            AppAction::CommandCreate(id) => ActionView::CommandCreate(*id),
            AppAction::CommandInvalid(id) => ActionView::CommandInvalid(*id),
            AppAction::CommandRun { func, uuid, failed } => ActionView::CommandRun {
                func: *func,
                uuid: *uuid,
                failed: *failed,
            },
            AppAction::Keyboard(k) => ActionView::Keyboard(*k),
            AppAction::Error(s) => ActionView::Error(s@),
        }
    }
}

impl DeepView for AppAction {
    type V = ActionView;

    open spec fn deep_view(&self) -> ActionView {
        self@
    }
}

impl Clone for AppAction {
    fn clone(&self) -> (r: AppAction)
        ensures
            r@ == self@,
    {
        match self {
            AppAction::ResizeApp(r) => AppAction::ResizeApp(*r),
            AppAction::SetMode(m) => AppAction::SetMode(m.clone()),
            AppAction::ConsolePush(s) => AppAction::ConsolePush(s.clone()),
            AppAction::CommandBarPush(c) => AppAction::CommandBarPush(*c),
            AppAction::CommandBarSet(s) => AppAction::CommandBarSet(s.clone()),
            AppAction::CommandBarEnqueueCmd(id) => AppAction::CommandBarEnqueueCmd(*id),
            AppAction::CommandConsume(id) => AppAction::CommandConsume(*id),
            AppAction::CommandCreate(id) => AppAction::CommandCreate(*id),
            AppAction::CommandInvalid(id) => AppAction::CommandInvalid(*id),
            AppAction::CommandRun { func, uuid, failed } => AppAction::CommandRun {
                func: *func,
                uuid: *uuid,
                failed: *failed,
            },
            AppAction::Keyboard(k) => AppAction::Keyboard(*k),
            AppAction::Error(s) => AppAction::Error(s.clone()),
        }
    }
}

} // verus!
