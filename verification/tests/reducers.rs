use termboard::actions::{AppAction, HandlerKind, Key, Mode};
use termboard::errors::DispatchError;
use termboard::geometry::Rect;
use termboard::reducers::{combined_reducer, select, Reducer};
use termboard::state::{AppState, CommandStatus, Lifecycle};

fn reduced(state: &AppState, action: AppAction) -> AppState {
    let mut copy = state.clone();
    copy.reduce(action).unwrap()
}

fn queued(text: &str, id: u128) -> AppState {
    let s = AppState::default();
    let s = reduced(&s, AppAction::CommandBarSet(text.to_string()));
    reduced(&s, AppAction::CommandBarEnqueueCmd(id))
}

#[test]
fn initial_state_is_empty_and_normal() {
    let s = AppState::default();
    assert_eq!(s.size(), Rect { x: 0, y: 0, width: 0, height: 0 });
    assert_eq!(s.mode().name, "normal");
    assert_eq!(s.mode().symbol, "N");
    assert_eq!(s.console_txt(), "");
    assert_eq!(s.command(), "");
    assert_eq!(s.tabs().titles, vec!["CMD", "Poloniex"]);
    assert_eq!(s.tabs().selection, 0);
    assert_eq!(s.lifecycle(1), Lifecycle::Unknown);
}

#[test]
fn resize_replaces_the_size() {
    let s = AppState::default();
    let r = Rect { x: 1, y: 2, width: 80, height: 24 };
    let n = reduced(&s, AppAction::ResizeApp(r));
    assert_eq!(n.size(), r);
    assert_eq!(n.console_txt(), "");
}

#[test]
fn resize_twice_is_resize_once() {
    let s = AppState::default();
    let r = Rect { x: 0, y: 0, width: 120, height: 40 };
    let once = reduced(&s, AppAction::ResizeApp(r));
    let twice = reduced(&once, AppAction::ResizeApp(r));
    assert_eq!(once.size(), twice.size());
    assert_eq!(once.console_txt(), twice.console_txt());
    assert_eq!(once.command(), twice.command());
    assert_eq!(once.mode().name, twice.mode().name);
}

#[test]
fn reduce_leaves_the_receiver_as_it_was() {
    let mut s = AppState::default();
    let n = s.reduce(AppAction::ConsolePush("x".to_string())).unwrap();
    assert_eq!(s.console_txt(), "");
    assert_eq!(n.console_txt(), "x");
}

#[test]
fn set_mode_replaces_the_mode() {
    let s = AppState::default();
    let n = reduced(&s, AppAction::SetMode(Mode::command()));
    assert_eq!(n.mode().name, "command");
    assert_eq!(n.mode().symbol, ":");
    assert!(n.mode().is_command());
    assert!(!s.mode().is_command());
}

#[test]
fn console_push_appends_in_order() {
    let s = AppState::default();
    let s = reduced(&s, AppAction::ConsolePush("one\n".to_string()));
    let s = reduced(&s, AppAction::ConsolePush("two\n".to_string()));
    let s = reduced(&s, AppAction::ConsolePush("".to_string()));
    let s = reduced(&s, AppAction::ConsolePush("three".to_string()));
    assert_eq!(s.console_txt(), "one\ntwo\nthree");
}

#[test]
fn command_bar_push_and_set() {
    let s = AppState::default();
    let s = reduced(&s, AppAction::CommandBarSet(":".to_string()));
    let s = reduced(&s, AppAction::CommandBarPush('l'));
    let s = reduced(&s, AppAction::CommandBarPush('s'));
    assert_eq!(s.command(), ":ls");
    let s = reduced(&s, AppAction::CommandBarSet("x".to_string()));
    assert_eq!(s.command(), "x");
}

#[test]
fn enqueue_moves_the_bar_into_the_queue() {
    let s = queued("echo hello", 7);
    assert_eq!(s.queued_text(7), Some("echo hello"));
    assert_eq!(s.command(), "");
    assert_eq!(s.lifecycle(7), Lifecycle::Queued);
    assert_eq!(s.status_of(7), None);
    assert_eq!(s.queued_text(8), None);
}

#[test]
fn enqueue_under_a_used_identifier_is_refused() {
    let mut s = queued("echo hello", 7);
    let r = s.reduce(AppAction::CommandBarEnqueueCmd(7));
    assert_eq!(r.unwrap_err(), DispatchError::AlreadyQueued(7));
    assert_eq!(s.queued_text(7), Some("echo hello"));
}

#[test]
fn create_marks_a_queued_command_running() {
    let s = queued("echo hello", 7);
    let n = reduced(&s, AppAction::CommandCreate(7));
    assert_eq!(n.status_of(7), Some(CommandStatus::Running));
    assert_eq!(n.lifecycle(7), Lifecycle::Running);
    assert_eq!(n.console_txt(), "");
}

#[test]
fn create_without_queue_entry_is_refused() {
    let mut s = AppState::default();
    let r = s.reduce(AppAction::CommandCreate(9));
    assert_eq!(r.unwrap_err(), DispatchError::NotQueued(9));
    let r = s.reduce(AppAction::CommandInvalid(9));
    assert_eq!(r.unwrap_err(), DispatchError::NotQueued(9));
}

#[test]
fn create_twice_is_refused() {
    let s = queued("echo hello", 7);
    let mut n = reduced(&s, AppAction::CommandCreate(7));
    assert_eq!(
        n.reduce(AppAction::CommandCreate(7)).unwrap_err(),
        DispatchError::AlreadyStarted(7)
    );
    assert_eq!(
        n.reduce(AppAction::CommandInvalid(7)).unwrap_err(),
        DispatchError::AlreadyStarted(7)
    );
}

#[test]
fn invalid_marks_the_command_and_tells_the_console() {
    let s = queued("nosuchbinary --flag", 2);
    let n = reduced(&s, AppAction::CommandInvalid(2));
    assert_eq!(n.status_of(2), Some(CommandStatus::Invalid));
    assert_eq!(n.lifecycle(2), Lifecycle::Invalid);
    assert_eq!(n.console_txt(), "{fg=red [invalid] } nosuchbinary --flag\n");
}

#[test]
fn run_ends_a_running_command() {
    let s = queued("echo hello", 7);
    let s = reduced(&s, AppAction::CommandCreate(7));
    let n = reduced(&s, AppAction::CommandRun { func: HandlerKind::Silent, uuid: 7, failed: false });
    assert_eq!(n.status_of(7), Some(CommandStatus::Ended));
    assert_eq!(n.lifecycle(7), Lifecycle::Ended);
    assert_eq!(n.console_txt(), "");
}

#[test]
fn run_with_report_writes_a_closing_line() {
    let s = queued("echo hello", 7);
    let s = reduced(&s, AppAction::CommandCreate(7));
    let n = reduced(&s, AppAction::CommandRun { func: HandlerKind::Report, uuid: 7, failed: false });
    assert_eq!(n.status_of(7), Some(CommandStatus::Ended));
    assert_eq!(n.console_txt(), "{fg=green [done] } echo hello\n");
}

#[test]
fn run_that_failed_is_recorded_as_failed() {
    let s = queued("echo hello", 7);
    let s = reduced(&s, AppAction::CommandCreate(7));
    let n = reduced(&s, AppAction::CommandRun { func: HandlerKind::Report, uuid: 7, failed: true });
    assert_eq!(n.status_of(7), Some(CommandStatus::Failed));
    assert_eq!(n.lifecycle(7), Lifecycle::Failed);
    assert_eq!(n.console_txt(), "{fg=red [failed] } echo hello\n");
}

#[test]
fn run_of_a_command_that_is_not_running_is_refused() {
    let mut s = queued("echo hello", 7);
    let run = AppAction::CommandRun { func: HandlerKind::Report, uuid: 7, failed: false };
    assert_eq!(s.reduce(run.clone()).unwrap_err(), DispatchError::NotRunning(7));
    let mut ended = reduced(&reduced(&s, AppAction::CommandCreate(7)), run.clone());
    assert_eq!(ended.reduce(run.clone()).unwrap_err(), DispatchError::NotRunning(7));
    let mut invalid = reduced(&s, AppAction::CommandInvalid(7));
    assert_eq!(invalid.reduce(run).unwrap_err(), DispatchError::NotRunning(7));
}

#[test]
fn run_of_an_unknown_command_is_refused() {
    let mut s = AppState::default();
    let silent = AppAction::CommandRun { func: HandlerKind::Silent, uuid: 3, failed: false };
    let report = AppAction::CommandRun { func: HandlerKind::Report, uuid: 3, failed: false };
    assert_eq!(s.reduce(silent).unwrap_err(), DispatchError::NotQueued(3));
    assert_eq!(s.reduce(report).unwrap_err(), DispatchError::NotQueued(3));
}

#[test]
fn actions_without_reducer_change_nothing() {
    let s = queued("echo hello", 7);
    let s = reduced(&s, AppAction::ConsolePush("kept".to_string()));
    for action in [
        AppAction::CommandConsume(7),
        AppAction::CommandConsume(99),
        AppAction::Keyboard(Key::Char('x')),
        AppAction::Error("boom".to_string()),
    ] {
        assert!(select(&action).is_empty());
        let n = reduced(&s, action);
        assert_eq!(n.console_txt(), "kept");
        assert_eq!(n.command(), "");
        assert_eq!(n.size(), s.size());
        assert_eq!(n.mode().name, "normal");
        assert_eq!(n.queued_text(7), Some("echo hello"));
        assert_eq!(n.status_of(7), None);
    }
}

#[test]
fn select_picks_one_reducer_per_concern() {
    assert_eq!(select(&AppAction::ResizeApp(Rect::zero())), vec![Reducer::SizeSet]);
    assert_eq!(select(&AppAction::SetMode(Mode::normal())), vec![Reducer::ModeSet]);
    assert_eq!(select(&AppAction::ConsolePush(String::new())), vec![Reducer::ConsolePush]);
    assert_eq!(select(&AppAction::CommandBarPush('a')), vec![Reducer::CommandBarPush]);
    assert_eq!(select(&AppAction::CommandBarSet(String::new())), vec![Reducer::CommandBarSet]);
    assert_eq!(select(&AppAction::CommandBarEnqueueCmd(1)), vec![Reducer::CommandBarEnqueueCmd]);
    assert_eq!(select(&AppAction::CommandCreate(1)), vec![Reducer::CommandCreate(false)]);
    assert_eq!(select(&AppAction::CommandInvalid(1)), vec![Reducer::CommandCreate(true)]);
}

#[test]
fn select_picks_two_reducers_for_a_run() {
    let run = AppAction::CommandRun { func: HandlerKind::Report, uuid: 5, failed: false };
    assert_eq!(
        select(&run),
        vec![Reducer::Handler(HandlerKind::Report), Reducer::CommandEnd(5)]
    );
}

#[test]
fn combined_reducer_folds_left_to_right() {
    let s = queued("echo hello", 7);
    let s = reduced(&s, AppAction::CommandCreate(7));
    let run = AppAction::CommandRun { func: HandlerKind::Report, uuid: 7, failed: false };
    let n = combined_reducer(
        &vec![Reducer::Handler(HandlerKind::Report), Reducer::CommandEnd(7)],
        s.clone(),
        &run,
    )
    .unwrap();
    assert_eq!(n.console_txt(), "{fg=green [done] } echo hello\n");
    assert_eq!(n.status_of(7), Some(CommandStatus::Ended));
    let twice = combined_reducer(
        &vec![Reducer::CommandEnd(7), Reducer::CommandEnd(7)],
        s.clone(),
        &run,
    );
    assert_eq!(twice.unwrap_err(), DispatchError::NotRunning(7));
    let none = combined_reducer(&vec![], s, &run).unwrap();
    assert_eq!(none.status_of(7), Some(CommandStatus::Running));
}

#[test]
fn foreign_actions_pass_through_a_reducer() {
    let s = queued("echo hello", 7);
    let n = Reducer::SizeSet.apply(s.clone(), &AppAction::ConsolePush("x".to_string())).unwrap();
    assert_eq!(n.console_txt(), "");
    let n = Reducer::CommandCreate(false).apply(s, &AppAction::ResizeApp(Rect::zero())).unwrap();
    assert_eq!(n.status_of(7), None);
}

#[test]
fn error_messages_name_the_identifier() {
    let id = 0xa1a2a3a4b1b2c1c2d1d2d3d4d5d6d7d8u128;
    assert_eq!(
        DispatchError::NotQueued(id).message(),
        "no command is queued under a1a2a3a4-b1b2-c1c2-d1d2-d3d4d5d6d7d8"
    );
    assert_eq!(
        DispatchError::AlreadyQueued(id).message(),
        "a command is already queued under a1a2a3a4-b1b2-c1c2-d1d2-d3d4d5d6d7d8"
    );
    assert_eq!(
        DispatchError::AlreadyStarted(1).message(),
        "the command was taken up before: 00000000-0000-0000-0000-000000000001"
    );
    assert_eq!(
        DispatchError::NotRunning(0).message(),
        "no worker runs the command 00000000-0000-0000-0000-000000000000"
    );
    assert_eq!(DispatchError::NotRunning(5).identifier(), 5);
    assert_eq!(DispatchError::NotRunning(5).message_with("five"), "no worker runs the command five");
}
