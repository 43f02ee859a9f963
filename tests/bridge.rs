use cg_local_app::config::{Opts, DEFAULT_BIND};
use cg_local_app::controller::{ControllerAction, Phase, State};
use cg_local_app::listener::{denial_message, Admission, Listener, ListenerAction};
use cg_local_app::messages::{
    ConnectedMessage, ConnectedNotification, ListenMessage, WorkerMessage, WorkerNotification,
};
use cg_local_app::presentation::{headless_reply, next_screen, Screen};
use cg_local_app::protocol::{write_int, ServerMessage};
use cg_local_app::session::{Inbound, Session, SessionErrorKind};
use cg_local_app::watcher::{read_outcome, touches_target, FsEvent, FsEventKind};

fn parse(frame: &str) -> serde_json::Value {
    serde_json::from_str(frame).expect("frame is JSON")
}

fn admitted_session() -> (Session, ServerMessage) {
    let mut listener = Listener::new();
    match listener.on_connection() {
        ListenerAction::Serve(permit) => Session::open(permit),
        _ => panic!("a fresh listener admits its first connection"),
    }
}

fn syncing_state(download: bool) -> State {
    let mut s = State::new();
    s.handle_notification(ConnectedNotification::Details { title: "Foo".to_string(), question_id: 42 });
    s.handle_message(WorkerMessage::Start { download }, false);
    s
}

#[test]
fn update_code_frame_keeps_code() {
    let (mut session, _) = admitted_session();
    let step = session.on_command(Some(ConnectedMessage::UpdateCode { code: "X".to_string(), play: true }));
    assert!(!step.exit);
    let reply = step.reply.expect("a frame");
    let frame = reply.to_frame();
    assert_eq!(frame, "{\"action\":\"update-code\",\"payload\":{\"code\":\"X\",\"play\":true}}");
    let v = parse(&frame);
    assert_eq!(v["action"], "update-code");
    assert_eq!(v["payload"]["code"].as_str().unwrap().as_bytes(), b"X");
    assert_eq!(v["payload"]["play"], true);
}

#[test]
fn update_code_frame_escapes_code() {
    let code = "fn main() {\n    println!(\"hi\\\\\");\n}\té";
    let frame = ServerMessage::UpdateCode { code: code.to_string(), play: false }.to_frame();
    assert_ne!(frame.contains(code), true);
    let v = parse(&frame);
    assert_eq!(v["payload"]["code"].as_str().unwrap(), code);
    assert_eq!(v["payload"]["play"], false);
}

#[test]
fn frames_of_every_variant() {
    assert_eq!(ServerMessage::SendDetails.to_frame(), "{\"action\":\"send-details\"}");
    assert_eq!(ServerMessage::AppReady.to_frame(), "{\"action\":\"app-ready\"}");
    assert_eq!(ServerMessage::AlreadyConnected.to_frame(), "{\"action\":\"already-connected\"}");
    assert_eq!(ServerMessage::SendCode.to_frame(), "{\"action\":\"send-code\"}");
    assert_eq!(
        ServerMessage::Details { title: "Foo".to_string(), question_id: 42 }.to_frame(),
        "{\"action\":\"details\",\"payload\":{\"title\":\"Foo\",\"questionId\":42}}"
    );
    assert_eq!(
        ServerMessage::Code { code: "a\"b".to_string() }.to_frame(),
        "{\"action\":\"code\",\"payload\":{\"code\":\"a\\\"b\"}}"
    );
    assert_eq!(
        ServerMessage::SetReadOnly { state: true }.to_frame(),
        "{\"action\":\"set-read-only\",\"payload\":{\"state\":true}}"
    );
    assert_eq!(
        ServerMessage::Error { message: "unexpected message".to_string() }.to_frame(),
        "{\"action\":\"error\",\"payload\":{\"message\":\"unexpected message\"}}"
    );
}

#[test]
fn integers_in_frames() {
    assert_eq!(write_int(0), "0");
    assert_eq!(write_int(7), "7");
    assert_eq!(write_int(42), "42");
    assert_eq!(write_int(-305), "-305");
    assert_eq!(write_int(i32::MAX), "2147483647");
    assert_eq!(write_int(i32::MIN), "-2147483648");
    let frame = ServerMessage::Details { title: String::new(), question_id: -12 }.to_frame();
    assert_eq!(parse(&frame)["payload"]["questionId"], -12);
}

#[test]
fn handshake_then_details() {
    let (mut session, first) = admitted_session();
    assert_eq!(first, ServerMessage::SendDetails);
    assert_eq!(first.to_frame(), "{\"action\":\"send-details\"}");
    let mut controller = State::new();
    assert_eq!(controller.phase(), Phase::Idle);

    let step = session.on_inbound(Inbound::Frame(ServerMessage::Details {
        title: "Foo".to_string(),
        question_id: 42,
    }));
    assert!(step.reply.is_none());
    assert!(!step.exit);
    let n = step.notification.expect("a notification");
    assert_eq!(n, ConnectedNotification::Details { title: "Foo".to_string(), question_id: 42 });
    assert_eq!(controller.phase(), Phase::Idle);

    let actions = controller.handle_notification(n);
    assert_eq!(controller.phase(), Phase::Ready);
    assert_eq!(
        actions,
        vec![ControllerAction::Notify(WorkerNotification::Details {
            title: "Foo".to_string(),
            question_id: 42
        })]
    );
}

#[test]
fn details_again_keeps_phase() {
    let mut s = syncing_state(false);
    let actions = s.handle_notification(ConnectedNotification::Details { title: "Bar".to_string(), question_id: 1 });
    assert_eq!(s.phase(), Phase::Syncing);
    assert_eq!(actions.len(), 1);
}

#[test]
fn download_once() {
    let mut s = syncing_state(true);
    assert!(s.download_pending());
    let first = s.handle_notification(ConnectedNotification::Code { code: "print(1)".to_string() });
    assert_eq!(first, vec![ControllerAction::WriteTarget { code: "print(1)".to_string() }]);
    assert!(!s.download_pending());
    let second = s.handle_notification(ConnectedNotification::Code { code: "print(2)".to_string() });
    assert!(second.is_empty());
    assert_eq!(s.phase(), Phase::Syncing);
}

#[test]
fn code_without_download_is_discarded() {
    let mut s = syncing_state(false);
    assert!(s.handle_notification(ConnectedNotification::Code { code: "x".to_string() }).is_empty());
    let mut idle = State::new();
    assert!(idle.handle_notification(ConnectedNotification::Code { code: "x".to_string() }).is_empty());
}

#[test]
fn start_sends_app_ready() {
    let mut s = State::new();
    let actions = s.handle_message(WorkerMessage::Start { download: false }, true);
    assert_eq!(
        actions,
        vec![
            ControllerAction::ToSession(ConnectedMessage::AppReady),
            ControllerAction::Notify(WorkerNotification::Initialized)
        ]
    );
    assert_eq!(s.phase(), Phase::Syncing);
    assert!(!s.download_pending());
}

#[test]
fn stop_while_ready() {
    let mut s = State::new();
    s.handle_notification(ConnectedNotification::Details { title: "Foo".to_string(), question_id: 42 });
    assert_eq!(s.phase(), Phase::Ready);
    for _ in 0..2 {
        let actions = s.handle_message(WorkerMessage::Stop, false);
        assert_eq!(actions, vec![ControllerAction::Notify(WorkerNotification::Stopped)]);
        assert_eq!(s.phase(), Phase::Ready);
        assert!(!s.download_pending());
    }
}

#[test]
fn stop_clears_pending_download() {
    let mut s = syncing_state(true);
    let actions = s.handle_message(WorkerMessage::Stop, false);
    assert_eq!(actions, vec![ControllerAction::Notify(WorkerNotification::Stopped)]);
    assert_eq!(s.phase(), Phase::Ready);
    assert!(!s.download_pending());
    assert!(s.handle_notification(ConnectedNotification::Code { code: "y".to_string() }).is_empty());
}

#[test]
fn file_change_outside_sync_sends_nothing() {
    let mut idle = State::new();
    assert!(idle.handle_message(WorkerMessage::FileChanged { code: "a".to_string() }, true).is_empty());
    let mut ready = State::new();
    ready.handle_notification(ConnectedNotification::Details { title: "Foo".to_string(), question_id: 42 });
    assert!(ready.handle_message(WorkerMessage::FileChanged { code: "a".to_string() }, true).is_empty());
    ready.handle_message(WorkerMessage::Start { download: false }, false);
    ready.handle_message(WorkerMessage::Stop, false);
    assert!(ready.handle_message(WorkerMessage::FileChanged { code: "a".to_string() }, true).is_empty());
}

#[test]
fn file_change_while_syncing_uses_play_flag() {
    let mut s = syncing_state(false);
    let actions = s.handle_message(WorkerMessage::FileChanged { code: "a".to_string() }, true);
    assert_eq!(
        actions,
        vec![ControllerAction::ToSession(ConnectedMessage::UpdateCode { code: "a".to_string(), play: true })]
    );
    let actions = s.handle_message(WorkerMessage::FileChanged { code: "b".to_string() }, false);
    assert_eq!(
        actions,
        vec![ControllerAction::ToSession(ConnectedMessage::UpdateCode { code: "b".to_string(), play: false })]
    );
}

#[test]
fn watch_error_changes_nothing() {
    let mut s = syncing_state(true);
    assert!(s.handle_message(WorkerMessage::WatchError { error: "denied".to_string() }, false).is_empty());
    assert!(s.download_pending());
    assert_eq!(s.phase(), Phase::Syncing);
}

#[test]
fn shutdown_cascade() {
    let mut s = syncing_state(true);
    let actions = s.handle_message(WorkerMessage::Terminate, false);
    assert_eq!(
        actions,
        vec![
            ControllerAction::ToSession(ConnectedMessage::Terminate),
            ControllerAction::ToListener(ListenMessage::Terminate),
            ControllerAction::Notify(WorkerNotification::Terminate)
        ]
    );
    assert!(s.is_terminated());
    assert!(s.handle_message(WorkerMessage::FileChanged { code: "a".to_string() }, true).is_empty());
    assert!(s.handle_notification(ConnectedNotification::Code { code: "b".to_string() }).is_empty());
    assert!(s.handle_message(WorkerMessage::Start { download: true }, true).is_empty());
    assert!(s.is_terminated());

    let (mut session, _) = admitted_session();
    let step = session.on_command(Some(ConnectedMessage::Terminate));
    assert!(step.exit && step.reply.is_none() && step.notification.is_none());
    assert!(!session.running());

    let mut listener = Listener::new();
    assert!(matches!(listener.on_control(Some(ListenMessage::Terminate)), ListenerAction::Stop));
    assert!(!listener.is_accepting());
    assert_eq!(next_screen(Screen::Running, &WorkerNotification::Terminate), Screen::Closed);
}

#[test]
fn admission_race() {
    let mut listener = Listener::new();
    let (mut first, hello) = match listener.on_connection() {
        ListenerAction::Serve(permit) => Session::open(permit),
        _ => panic!("first connection must be admitted"),
    };
    assert_eq!(hello, ServerMessage::SendDetails);
    assert!(first.running());

    assert!(matches!(listener.on_connection(), ListenerAction::Deny));
    assert_eq!(denial_message(), ServerMessage::AlreadyConnected);
    assert_eq!(denial_message().to_frame(), "{\"action\":\"already-connected\"}");
    assert!(listener.is_accepting());

    let step = first.on_command(Some(ConnectedMessage::AppReady));
    assert_eq!(step.reply, Some(ServerMessage::AppReady));
    assert!(matches!(listener.on_connection(), ListenerAction::Deny));

    let step = first.on_inbound(Inbound::Closed);
    assert!(step.exit);
    assert!(!first.running());
    assert!(matches!(listener.on_connection(), ListenerAction::Serve(_)));
}

#[test]
fn permit_released_on_terminate() {
    let mut listener = Listener::new();
    let (mut session, _) = match listener.on_connection() {
        ListenerAction::Serve(permit) => Session::open(permit),
        _ => panic!("first connection must be admitted"),
    };
    assert!(matches!(listener.on_connection(), ListenerAction::Deny));
    session.on_command(Some(ConnectedMessage::Terminate));
    let second = listener.on_connection();
    assert!(matches!(second, ListenerAction::Serve(_)));
    assert!(matches!(listener.on_connection(), ListenerAction::Deny));
}

#[test]
fn admission_decisions() {
    let mut listener = Listener::new();
    assert!(matches!(listener.decide(Admission::NoCapacity), ListenerAction::Deny));
    assert!(listener.is_accepting());
    assert!(matches!(listener.decide(Admission::Shutdown), ListenerAction::Stop));
    assert!(!listener.is_accepting());
    let mut other = Listener::new();
    assert!(matches!(other.on_accept_error(), ListenerAction::Stop));
    let mut closed = Listener::new();
    assert!(matches!(closed.on_control(None), ListenerAction::Stop));
}

#[test]
fn unexpected_and_malformed_frames() {
    let (mut session, _) = admitted_session();
    let step = session.on_inbound(Inbound::Frame(ServerMessage::AppReady));
    assert_eq!(step.reply, Some(ServerMessage::Error { message: "unexpected message".to_string() }));
    assert!(step.notification.is_none() && !step.exit);
    let step = session.on_inbound(Inbound::Malformed { reason: "expected value at line 1 column 1".to_string() });
    assert_eq!(
        step.reply,
        Some(ServerMessage::Error { message: "expected value at line 1 column 1".to_string() })
    );
    assert!(!step.exit);
    let step = session.on_inbound(Inbound::Frame(ServerMessage::Code { code: "c".to_string() }));
    assert_eq!(step.notification, Some(ConnectedNotification::Code { code: "c".to_string() }));
    let step = session.on_inbound(Inbound::NonText);
    assert!(step.reply.is_none() && step.notification.is_none() && !step.exit);
    assert!(session.running());
    let step = session.on_inbound(Inbound::Closed);
    assert!(step.exit);
    assert!(!session.running());
}

#[test]
fn session_commands() {
    let (mut session, _) = admitted_session();
    assert_eq!(session.on_command(Some(ConnectedMessage::SendCode)).reply, Some(ServerMessage::SendCode));
    let step = session.on_command(None);
    assert!(step.exit && step.reply.is_none());
}

#[test]
fn benign_session_errors() {
    assert!(SessionErrorKind::ConnectionClosed.is_benign());
    assert!(SessionErrorKind::Protocol.is_benign());
    assert!(SessionErrorKind::Utf8.is_benign());
    assert!(!SessionErrorKind::Other.is_benign());
}

#[test]
fn watcher_matches_target_only() {
    let target = "/home/u/main.rs".to_string();
    let hit = FsEvent { kind: FsEventKind::Modified, paths: vec!["/home/u/x.rs".to_string(), target.clone()] };
    assert!(touches_target(&hit, &target));
    let created = FsEvent { kind: FsEventKind::Created, paths: vec![target.clone()] };
    assert!(touches_target(&created, &target));
    let other = FsEvent { kind: FsEventKind::Modified, paths: vec!["/home/u/main.rs~".to_string()] };
    assert!(!touches_target(&other, &target));
    let removed = FsEvent { kind: FsEventKind::Other, paths: vec![target.clone()] };
    assert!(!touches_target(&removed, &target));
    let empty = FsEvent { kind: FsEventKind::Modified, paths: vec![] };
    assert!(!touches_target(&empty, &target));
}

#[test]
fn read_outcomes() {
    assert_eq!(read_outcome(Ok("x".to_string())), WorkerMessage::FileChanged { code: "x".to_string() });
    assert_eq!(read_outcome(Err("gone".to_string())), WorkerMessage::WatchError { error: "gone".to_string() });
}

#[test]
fn presentation_replies() {
    let details = WorkerNotification::Details { title: "Foo".to_string(), question_id: 42 };
    assert_eq!(headless_reply(&details, true), Some(WorkerMessage::Start { download: true }));
    assert_eq!(headless_reply(&details, false), Some(WorkerMessage::Start { download: false }));
    assert_eq!(headless_reply(&WorkerNotification::Initialized, true), None);
    assert_eq!(next_screen(Screen::Waiting, &details), Screen::Question);
    assert_eq!(next_screen(Screen::Question, &WorkerNotification::Initialized), Screen::Running);
    assert_eq!(next_screen(Screen::Running, &WorkerNotification::Stopped), Screen::Question);
}

#[test]
fn options_play_switch() {
    let mut o = Opts {
        bind: DEFAULT_BIND.to_string(),
        target: "main.rs".to_string(),
        download: false,
        play: false,
        no_gui: true,
    };
    o.set_play(true);
    assert!(o.play);
    assert_eq!(o.bind, "127.0.0.1:53135");
}
