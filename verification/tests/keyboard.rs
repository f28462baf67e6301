use termboard::actions::{AppAction, Key, Mode};
use termboard::state::AppState;

fn state(mode: Mode, bar: &str) -> AppState {
    let mut s = AppState::default();
    s = s.reduce(AppAction::SetMode(mode)).unwrap();
    s.reduce(AppAction::CommandBarSet(bar.to_string())).unwrap()
}

#[test]
fn escape_goes_back_to_normal_mode() {
    let plan = state(Mode::command(), ":ls").command_key_handler(Key::Esc, 1);
    assert!(!plan.exit);
    assert_eq!(plan.actions.len(), 1);
    assert!(matches!(&plan.actions[0], AppAction::SetMode(m) if m.name == "normal" && m.symbol == "N"));
}

#[test]
fn backspace_on_the_bare_prompt_leaves_command_mode() {
    let plan = state(Mode::command(), ":").command_key_handler(Key::Backspace, 1);
    assert!(!plan.exit);
    assert_eq!(plan.actions.len(), 1);
    assert!(matches!(&plan.actions[0], AppAction::SetMode(m) if m.name == "normal"));
}

#[test]
fn backspace_takes_the_last_character_off() {
    let plan = state(Mode::command(), ":lé").command_key_handler(Key::Backspace, 1);
    assert_eq!(plan.actions.len(), 1);
    assert!(matches!(&plan.actions[0], AppAction::CommandBarSet(t) if t == ":l"));
    let plan = state(Mode::command(), "").command_key_handler(Key::Backspace, 1);
    assert!(plan.actions.is_empty());
    assert!(!plan.exit);
}

#[test]
fn line_feed_with_q_asks_for_the_end() {
    let plan = state(Mode::command(), ":q").command_key_handler(Key::Char('\n'), 1);
    assert!(plan.exit);
    assert_eq!(plan.actions.len(), 1);
    assert!(matches!(&plan.actions[0], AppAction::CommandBarSet(t) if t == ":"));
}

#[test]
fn line_feed_issues_the_command() {
    let plan = state(Mode::command(), ":echo hello").command_key_handler(Key::Char('\n'), 42);
    assert!(!plan.exit);
    assert_eq!(plan.actions.len(), 4);
    assert!(
        matches!(&plan.actions[0], AppAction::ConsolePush(t) if t == "{fg=green [command] } echo hello\n")
    );
    assert!(matches!(&plan.actions[1], AppAction::CommandBarSet(t) if t == "echo hello"));
    assert!(matches!(plan.actions[2], AppAction::CommandBarEnqueueCmd(42)));
    assert!(matches!(&plan.actions[3], AppAction::CommandBarSet(t) if t == ":"));
}

#[test]
fn line_feed_on_an_empty_bar_issues_the_empty_command() {
    let plan = state(Mode::command(), "").command_key_handler(Key::Char('\n'), 42);
    assert!(!plan.exit);
    assert_eq!(plan.actions.len(), 4);
    assert!(matches!(&plan.actions[0], AppAction::ConsolePush(t) if t == "{fg=green [command] } \n"));
    assert!(matches!(&plan.actions[1], AppAction::CommandBarSet(t) if t.is_empty()));
    assert!(matches!(&plan.actions[3], AppAction::CommandBarSet(t) if t.is_empty()));
}

#[test]
fn a_character_is_added_to_the_bar() {
    let plan = state(Mode::command(), ":l").command_key_handler(Key::Char('s'), 1);
    assert_eq!(plan.actions.len(), 1);
    assert!(matches!(plan.actions[0], AppAction::CommandBarPush('s')));
}

#[test]
fn other_keys_ask_for_nothing_in_command_mode() {
    for key in [Key::Left, Key::F(1), Key::Ctrl('c'), Key::Alt('x'), Key::Null, Key::Delete] {
        let plan = state(Mode::command(), ":l").command_key_handler(key, 1);
        assert!(plan.actions.is_empty());
        assert!(!plan.exit);
    }
}

#[test]
fn colon_opens_the_command_bar_in_normal_mode() {
    let plan = state(Mode::normal(), "").key_event_handler(Key::Char(':'), 1);
    assert!(!plan.exit);
    assert_eq!(plan.actions.len(), 2);
    assert!(matches!(&plan.actions[0], AppAction::SetMode(m) if m.name == "command" && m.symbol == ":"));
    assert!(matches!(&plan.actions[1], AppAction::CommandBarSet(t) if t == ":"));
}

#[test]
fn other_keys_ask_for_nothing_in_normal_mode() {
    for key in [Key::Char('q'), Key::Char('\n'), Key::Esc, Key::Backspace, Key::Up] {
        let plan = state(Mode::normal(), ":q").key_event_handler(key, 1);
        assert!(plan.actions.is_empty());
        assert!(!plan.exit);
    }
}

#[test]
fn key_event_handler_edits_the_bar_in_command_mode() {
    let plan = state(Mode::command(), ":").key_event_handler(Key::Char(':'), 1);
    assert_eq!(plan.actions.len(), 1);
    assert!(matches!(plan.actions[0], AppAction::CommandBarPush(':')));
}
