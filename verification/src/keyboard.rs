use vstd::prelude::*;
use vstd::string::StringExecFns;
use crate::actions::{ActionView, AppAction, Key, Mode, ModeView};
use crate::state::{AppState, StateView};
use crate::text::str_eq;

verus! {

/// What a `KeyPlan` stands for.
pub struct KeyPlanView {
    pub actions: Seq<ActionView>,
    pub exit: bool,
}

/// What a key press asks for: actions to dispatch, in order, and whether the
/// dashboard is to end.
#[derive(Debug)]
pub struct KeyPlan {
    pub actions: Vec<AppAction>,
    pub exit: bool,
}

impl View for KeyPlan {
    type V = KeyPlanView;

    open spec fn view(&self) -> KeyPlanView {
        KeyPlanView { actions: self.actions.deep_view(), exit: self.exit }
    }
}

/// The console line that tells of a command that was issued.
pub open spec fn issued_line(cmd: Seq<char>) -> Seq<char> {
    "{fg=green [command] } "@ + cmd + "\n"@
}

/// The command that the command bar holds: what stands after its first
/// character, the prompt.
pub open spec fn entered_command(bar: Seq<char>) -> Seq<char> {
    if bar.len() >= 1 {
        bar.skip(1)
    } else {
        Seq::empty()
    }
}

/// The prompt of the command bar: its first character.
pub open spec fn prompt(bar: Seq<char>) -> Seq<char> {
    if bar.len() >= 1 {
        bar.take(1)
    } else {
        Seq::empty()
    }
}

/// What a key asks for while the command bar is edited.
///
/// Escape goes back to normal mode. Backspace does so when the bar holds the
/// bare prompt `:`, and takes the last character off the bar otherwise. A
/// line feed issues the command that the bar holds, and the bar goes back to
/// its prompt: `q` ends the dashboard; any other command is announced on the
/// console and queued under `fresh`. Any other character is added to the
/// bar. Other keys ask for nothing.
pub open spec fn command_key_spec(s: StateView, evt: Key, fresh: u128) -> KeyPlanView {
    match evt {
        Key::Esc => KeyPlanView {
            actions: seq![ActionView::SetMode(ModeView::normal())],
            exit: false,
        },
        Key::Backspace => if s.command == ":"@ {
            KeyPlanView { actions: seq![ActionView::SetMode(ModeView::normal())], exit: false }
        } else if s.command.len() == 0 {
            KeyPlanView { actions: Seq::empty(), exit: false }
        } else {
            KeyPlanView {
                actions: seq![ActionView::CommandBarSet(s.command.drop_last())],
                exit: false,
            }
        },
        Key::Char(c) => if c == '\n' {
            if entered_command(s.command) == "q"@ {
                KeyPlanView {
                    actions: seq![ActionView::CommandBarSet(prompt(s.command))],
                    exit: true,
                }
            } else {
                KeyPlanView {
                    actions: seq![
                        ActionView::ConsolePush(issued_line(entered_command(s.command))),
                        ActionView::CommandBarSet(entered_command(s.command)),
                        ActionView::CommandBarEnqueueCmd(fresh),
                        ActionView::CommandBarSet(prompt(s.command)),
                    ],
                    exit: false,
                }
            }
        } else {
            KeyPlanView { actions: seq![ActionView::CommandBarPush(c)], exit: false }
        },
        _ => KeyPlanView { actions: Seq::empty(), exit: false },
    }
}

/// What a key asks for in normal mode: a colon opens the command bar with
/// its prompt, and no other key asks for anything.
pub open spec fn normal_key_spec(evt: Key) -> KeyPlanView {
    match evt {
        Key::Char(c) => if c == ':' {
            KeyPlanView {
                actions: seq![
                    ActionView::SetMode(ModeView::command()),
                    ActionView::CommandBarSet(":"@),
                ],
                exit: false,
            }
        } else {
            KeyPlanView { actions: Seq::empty(), exit: false }
        },
        _ => KeyPlanView { actions: Seq::empty(), exit: false },
    }
}

/// What a key asks for in state `s`.
pub open spec fn key_event_spec(s: StateView, evt: Key, fresh: u128) -> KeyPlanView {
    if s.mode.name == "command"@ {
        command_key_spec(s, evt, fresh)
    } else {
        normal_key_spec(evt)
    }
}

fn plan_of(actions: Vec<AppAction>) -> (r: KeyPlan)
    ensures
        r.actions == actions,
        !r.exit,
{
    KeyPlan { actions, exit: false }
}

impl AppState {
    /// Says what a key asks for while the command bar is edited. A command
    /// that the key issues is queued under `fresh`.
    pub fn command_key_handler(&self, evt: Key, fresh: u128) -> (r: KeyPlan)
        ensures
            r@ == command_key_spec(self@, evt, fresh),
    {
        let mut actions: Vec<AppAction> = Vec::new();
        assert(actions.deep_view() =~= Seq::<ActionView>::empty());
        match evt {
            Key::Esc => {
                actions.push(AppAction::SetMode(Mode::normal()));
                assert(actions.deep_view() =~= seq![ActionView::SetMode(ModeView::normal())]);
            },
            Key::Backspace => {
                let bar = self.command();
                if str_eq(bar, ":") {
                    actions.push(AppAction::SetMode(Mode::normal()));
                    assert(actions.deep_view() =~= seq![ActionView::SetMode(ModeView::normal())]);
                } else {
                    let n = bar.unicode_len();
                    if n > 0 {
                        let shorter = bar.substring_char(0, n - 1).to_owned();
                        assert(shorter@ == bar@.drop_last());
                        actions.push(AppAction::CommandBarSet(shorter));
                        assert(actions.deep_view() =~= seq![
                            ActionView::CommandBarSet(bar@.drop_last()),
                        ]);
                    }
                }
            },
            Key::Char(c) => {
                if c == '\n' {
                    let bar = self.command();
                    let n = bar.unicode_len();
                    let (mark, cmd) = if n >= 1 {
                        (bar.substring_char(0, 1), bar.substring_char(1, n))
                    } else {
                        ("", "")
                    };
                    proof {
                        reveal_strlit("");
                    }
                    assert(cmd@ =~= entered_command(bar@));
                    assert(mark@ =~= prompt(bar@));
                    if str_eq(cmd, "q") {
                        actions.push(AppAction::CommandBarSet(mark.to_owned()));
                        assert(actions.deep_view() =~= seq![
                            ActionView::CommandBarSet(prompt(bar@)),
                        ]);
                        return KeyPlan { actions, exit: true };
                    }
                    let mut line = "{fg=green [command] } ".to_owned();
                    line.append(cmd);
                    line.append("\n");
                    actions.push(AppAction::ConsolePush(line));
                    actions.push(AppAction::CommandBarSet(cmd.to_owned()));
                    actions.push(AppAction::CommandBarEnqueueCmd(fresh));
                    actions.push(AppAction::CommandBarSet(mark.to_owned()));
                    assert(actions.deep_view() =~= seq![
                        ActionView::ConsolePush(issued_line(entered_command(bar@))),
                        ActionView::CommandBarSet(entered_command(bar@)),
                        ActionView::CommandBarEnqueueCmd(fresh),
                        ActionView::CommandBarSet(prompt(bar@)),
                    ]);
                } else {
                    actions.push(AppAction::CommandBarPush(c));
                    assert(actions.deep_view() =~= seq![ActionView::CommandBarPush(c)]);
                }
            },
            _ => {},
        }
        plan_of(actions)
    }

    /// Says what a key asks for in this state: in command mode it edits the
    /// command bar, and in any other mode only a colon does anything.
    pub fn key_event_handler(&self, evt: Key, fresh: u128) -> (r: KeyPlan)
        ensures
            r@ == key_event_spec(self@, evt, fresh),
    {
        if self.mode().is_command() {
            return self.command_key_handler(evt, fresh);
        }
        let mut actions: Vec<AppAction> = Vec::new();
        assert(actions.deep_view() =~= Seq::<ActionView>::empty());
        match evt {
            Key::Char(c) => {
                if c == ':' {
                    actions.push(AppAction::SetMode(Mode::command()));
                    actions.push(AppAction::CommandBarSet(":".to_owned()));
                    assert(actions.deep_view() =~= seq![
                        ActionView::SetMode(ModeView::command()),
                        ActionView::CommandBarSet(":"@),
                    ]);
                }
            },
            _ => {},
        }
        plan_of(actions)
    }
}

} // verus!
