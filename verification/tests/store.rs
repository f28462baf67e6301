use termboard::actions::{AppAction, HandlerKind, Key};
use termboard::errors::DispatchError;
use termboard::events::{Effect, Event};
use termboard::geometry::Rect;
use termboard::middlewares::command::CommandMiddleWare;
use termboard::registry::CommandHandler;
use termboard::state::{CommandStatus, Lifecycle};
use termboard::store::{Middleware, Store};

fn store() -> Store {
    Store::new(vec![Middleware::Command(CommandMiddleWare { handler: CommandHandler::default() })])
}

fn notices(effects: &[Effect]) -> usize {
    effects.iter().filter(|e| matches!(e, Effect::Notify(_))).count()
}

fn spawns(effects: &[Effect]) -> usize {
    effects.iter().filter(|e| matches!(e, Effect::Spawn { .. })).count()
}

#[test]
fn new_store_holds_the_initial_state() {
    let s = store();
    let state = s.get_state();
    assert_eq!(state.console_txt(), "");
    assert_eq!(state.command(), "");
    assert_eq!(state.mode().name, "normal");
    assert_eq!(state.size(), Rect::zero());
}

#[test]
fn dispatch_returns_the_new_state_and_one_notice() {
    let mut s = store();
    let (result, effects) = s.dispatch(AppAction::ConsolePush("hi".to_string()));
    assert_eq!(result.unwrap().console_txt(), "hi");
    assert_eq!(s.get_state().console_txt(), "hi");
    assert_eq!(effects.len(), 1);
    match &effects[0] {
        Effect::Notify(state) => assert_eq!(state.console_txt(), "hi"),
        other => panic!("unexpected effect {:?}", other),
    }
}

#[test]
fn unmatched_action_leaves_state_and_notifies_once() {
    let mut s = store();
    s.dispatch(AppAction::ConsolePush("kept".to_string()));
    s.dispatch(AppAction::CommandBarSet(":x".to_string()));
    for action in [AppAction::Keyboard(Key::Esc), AppAction::Error("e".to_string())] {
        let before = s.get_state();
        let (result, effects) = s.dispatch(action);
        let after = result.unwrap();
        assert_eq!(after.console_txt(), before.console_txt());
        assert_eq!(after.command(), before.command());
        assert_eq!(after.size(), before.size());
        assert_eq!(after.mode().name, before.mode().name);
        assert_eq!(effects.len(), 1);
        assert_eq!(notices(&effects), 1);
        assert_eq!(s.get_state().console_txt(), "kept");
    }
}

#[test]
fn refused_action_changes_nothing_and_notifies_nobody() {
    let mut s = store();
    s.dispatch(AppAction::ConsolePush("kept".to_string()));
    let (result, effects) = s.dispatch(AppAction::CommandCreate(4));
    assert_eq!(result.unwrap_err(), DispatchError::NotQueued(4));
    assert!(effects.is_empty());
    assert_eq!(s.get_state().console_txt(), "kept");
    assert_eq!(s.get_state().lifecycle(4), Lifecycle::Unknown);
}

#[test]
fn enqueue_tells_the_loop_to_take_the_command_up() {
    let mut s = store();
    s.dispatch(AppAction::CommandBarSet("echo hello".to_string()));
    let (result, effects) = s.dispatch(AppAction::CommandBarEnqueueCmd(11));
    assert!(result.is_ok());
    assert_eq!(effects.len(), 2);
    assert!(matches!(effects[0], Effect::Send(Event::CommandQueued(11))));
    assert!(matches!(effects[1], Effect::Notify(_)));
    assert_eq!(s.get_state().lifecycle(11), Lifecycle::Queued);
}

#[test]
fn enqueue_under_a_used_identifier_sends_nothing() {
    let mut s = store();
    s.dispatch(AppAction::CommandBarSet("echo hello".to_string()));
    s.dispatch(AppAction::CommandBarEnqueueCmd(11));
    s.dispatch(AppAction::CommandBarSet("echo again".to_string()));
    let (result, effects) = s.dispatch(AppAction::CommandBarEnqueueCmd(11));
    assert_eq!(result.unwrap_err(), DispatchError::AlreadyQueued(11));
    assert!(effects.is_empty());
    assert_eq!(s.get_state().queued_text(11), Some("echo hello"));
    assert_eq!(s.get_state().command(), "echo again");
}

#[test]
fn consume_of_a_registered_command_asks_for_one_worker() {
    let mut s = store();
    s.dispatch(AppAction::CommandBarSet("echo hello world".to_string()));
    s.dispatch(AppAction::CommandBarEnqueueCmd(11));
    let (result, effects) = s.dispatch(AppAction::CommandConsume(11));
    assert!(result.is_ok());
    assert_eq!(effects.len(), 3);
    match &effects[0] {
        Effect::Spawn { id, program, args } => {
            assert_eq!(*id, 11);
            assert_eq!(program, "echo");
            assert_eq!(args, &vec!["hello".to_string(), "world".to_string()]);
        }
        other => panic!("unexpected effect {:?}", other),
    }
    assert!(matches!(effects[1], Effect::Notify(_)));
    assert!(matches!(effects[2], Effect::Notify(_)));
    assert_eq!(spawns(&effects), 1);
    assert_eq!(s.get_state().status_of(11), Some(CommandStatus::Running));
}

#[test]
fn consume_of_an_unregistered_command_marks_it_invalid() {
    let mut s = store();
    s.dispatch(AppAction::CommandBarSet("nosuchbinary --flag".to_string()));
    s.dispatch(AppAction::CommandBarEnqueueCmd(12));
    let (result, effects) = s.dispatch(AppAction::CommandConsume(12));
    assert!(result.is_ok());
    assert_eq!(spawns(&effects), 0);
    assert_eq!(notices(&effects), 2);
    assert_eq!(effects.len(), 2);
    assert_eq!(s.get_state().status_of(12), Some(CommandStatus::Invalid));
    assert_eq!(s.get_state().console_txt(), "{fg=red [invalid] } nosuchbinary --flag\n");
}

#[test]
fn consume_of_an_unknown_identifier_is_made_known() {
    let mut s = store();
    let (result, effects) = s.dispatch(AppAction::CommandConsume(13));
    assert!(result.is_ok());
    assert_eq!(effects.len(), 2);
    assert!(matches!(effects[0], Effect::Report(DispatchError::NotQueued(13))));
    assert!(matches!(effects[1], Effect::Notify(_)));
    assert_eq!(s.get_state().lifecycle(13), Lifecycle::Unknown);
}

#[test]
fn consume_twice_starts_the_command_once() {
    let mut s = store();
    s.dispatch(AppAction::CommandBarSet("echo hello".to_string()));
    s.dispatch(AppAction::CommandBarEnqueueCmd(11));
    s.dispatch(AppAction::CommandConsume(11));
    let (result, effects) = s.dispatch(AppAction::CommandConsume(11));
    assert!(result.is_ok());
    assert_eq!(spawns(&effects), 0);
    assert!(matches!(effects[0], Effect::Report(DispatchError::AlreadyStarted(11))));
    assert_eq!(s.get_state().status_of(11), Some(CommandStatus::Running));
}

#[test]
fn chain_runs_in_registration_order() {
    let mut first = CommandHandler::new();
    first.register("ls", HandlerKind::Silent);
    let mut second = CommandHandler::new();
    second.register("echo", HandlerKind::Report);
    let mut s = Store::new(vec![
        Middleware::Command(CommandMiddleWare { handler: first }),
        Middleware::Command(CommandMiddleWare { handler: second }),
    ]);
    s.dispatch(AppAction::CommandBarSet("echo hello".to_string()));
    let (_, effects) = s.dispatch(AppAction::CommandBarEnqueueCmd(1));
    assert_eq!(effects.len(), 3);
    assert!(matches!(effects[0], Effect::Send(Event::CommandQueued(1))));
    assert!(matches!(effects[1], Effect::Send(Event::CommandQueued(1))));
    let (_, effects) = s.dispatch(AppAction::CommandConsume(1));
    assert_eq!(spawns(&effects), 0);
    assert_eq!(s.get_state().status_of(1), Some(CommandStatus::Invalid));
    assert!(matches!(effects[0], Effect::Notify(_)));
    assert!(matches!(effects[1], Effect::Report(DispatchError::AlreadyStarted(1))));
    assert!(matches!(effects[2], Effect::Notify(_)));
    assert_eq!(s.handler_for(1), HandlerKind::Report);
}

#[test]
fn empty_chain_only_reduces() {
    let mut s = Store::new(vec![]);
    s.dispatch(AppAction::CommandBarSet("echo hello".to_string()));
    let (_, effects) = s.dispatch(AppAction::CommandBarEnqueueCmd(1));
    assert_eq!(effects.len(), 1);
    let (_, effects) = s.dispatch(AppAction::CommandConsume(1));
    assert_eq!(effects.len(), 1);
    assert_eq!(s.get_state().lifecycle(1), Lifecycle::Queued);
}

#[test]
fn batch_equals_one_at_a_time() {
    let actions = vec![
        AppAction::ResizeApp(Rect { x: 0, y: 0, width: 80, height: 24 }),
        AppAction::CommandBarSet("echo hello".to_string()),
        AppAction::CommandBarEnqueueCmd(1),
        AppAction::CommandCreate(99),
        AppAction::CommandConsume(1),
        AppAction::ConsolePush("hello\n".to_string()),
        AppAction::CommandRun { func: HandlerKind::Report, uuid: 1, failed: false },
        AppAction::Keyboard(Key::Char('z')),
    ];
    let mut batched = store();
    let all = batched.dispatch_all(&actions);
    let mut split = store();
    let mut parts = split.dispatch_all(&actions[..3].to_vec());
    parts.extend(split.dispatch_all(&actions[3..].to_vec()));
    let mut single = store();
    let mut singles = 0;
    for a in &actions {
        let (result, effects) = single.dispatch(a.clone());
        singles += effects.len();
        if result.is_err() {
            singles += 1;
        }
    }
    assert_eq!(all.len(), parts.len());
    assert_eq!(all.len(), singles);
    for s in [&split, &single] {
        assert_eq!(s.get_state().console_txt(), batched.get_state().console_txt());
        assert_eq!(s.get_state().size(), batched.get_state().size());
        assert_eq!(s.get_state().status_of(1), batched.get_state().status_of(1));
        assert_eq!(s.get_state().command(), batched.get_state().command());
    }
    assert_eq!(batched.get_state().console_txt(), "hello\n{fg=green [done] } echo hello\n");
    assert_eq!(batched.get_state().status_of(1), Some(CommandStatus::Ended));
    assert_eq!(
        all.iter().filter(|e| matches!(e, Effect::Report(DispatchError::NotQueued(99)))).count(),
        1
    );
}

#[test]
fn console_holds_the_payloads_in_dispatch_order() {
    let payloads = ["a\n", "", "b", "c\n\n", "d"];
    let mut s = store();
    s.dispatch(AppAction::ConsolePush("start:".to_string()));
    let actions: Vec<AppAction> =
        payloads.iter().map(|p| AppAction::ConsolePush(p.to_string())).collect();
    let effects = s.dispatch_all(&actions);
    assert_eq!(s.get_state().console_txt(), format!("start:{}", payloads.concat()));
    assert_eq!(effects.len(), payloads.len());
    assert_eq!(notices(&effects), payloads.len());
}

#[test]
fn resize_dispatched_twice_equals_once() {
    let r = Rect { x: 3, y: 4, width: 100, height: 30 };
    let mut once = store();
    once.dispatch(AppAction::ResizeApp(r));
    let mut twice = store();
    twice.dispatch(AppAction::ResizeApp(r));
    twice.dispatch(AppAction::ResizeApp(r));
    assert_eq!(once.get_state().size(), r);
    assert_eq!(twice.get_state().size(), r);
    assert_eq!(once.get_state().console_txt(), twice.get_state().console_txt());
    assert_eq!(once.get_state().command(), twice.get_state().command());
}

#[test]
fn registry_lookup_and_override() {
    let mut reg = CommandHandler::new();
    assert!(!reg.contains_key("echo"));
    assert_eq!(reg.get("echo"), None);
    reg.register("echo", HandlerKind::Silent);
    reg.register("ls", HandlerKind::Report);
    assert_eq!(reg.get("echo"), Some(HandlerKind::Silent));
    reg.register("echo", HandlerKind::Report);
    assert_eq!(reg.get("echo"), Some(HandlerKind::Report));
    assert_eq!(reg.get("ls"), Some(HandlerKind::Report));
    assert!(!reg.contains_key(""));
    assert!(!reg.contains_key("ech"));
    let copy = reg.clone();
    assert_eq!(copy.get("echo"), Some(HandlerKind::Report));
}

#[test]
fn default_registry_knows_echo() {
    let reg = CommandHandler::default();
    assert_eq!(reg.get("echo"), Some(HandlerKind::Report));
    assert!(!reg.contains_key("nosuchbinary"));
}

#[test]
fn spawn_takes_the_first_word_as_program() {
    let reg = CommandHandler::default();
    match reg.spawn(5, "echo") {
        Effect::Spawn { id, program, args } => {
            assert_eq!(id, 5);
            assert_eq!(program, "echo");
            assert!(args.is_empty());
        }
        other => panic!("unexpected effect {:?}", other),
    }
    match reg.spawn(6, "grep  -n x") {
        Effect::Spawn { id, program, args } => {
            assert_eq!(id, 6);
            assert_eq!(program, "grep");
            assert_eq!(args, vec!["", "-n", "x"]);
        }
        other => panic!("unexpected effect {:?}", other),
    }
}
