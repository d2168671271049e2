use goxlr_utility_ui::dialog::{show_error, show_option, DialogCommand, DialogStep, Launch};
use goxlr_utility_ui::json::{JsonNumber, JsonValue};
use goxlr_utility_ui::monitor::{Monitor, MonitorEvent, MonitorState, Signal};
use goxlr_utility_ui::preflight::{Preflight, PreflightAction, PreflightEvent};
use goxlr_utility_ui::status::{Endpoint, Platform, PreflightError};

const EXE: &str = "/usr/bin/goxlr-utility-ui";

fn obj(members: Vec<(&str, JsonValue)>) -> JsonValue {
    JsonValue::Object(members.into_iter().map(|(k, v)| (k.to_string(), v)).collect())
}

fn status(active_path: Option<&str>) -> JsonValue {
    let http = obj(vec![
        ("bind_address", JsonValue::String("0.0.0.0".to_string())),
        ("port", JsonValue::Number(JsonNumber::Unsigned(14564))),
    ]);
    let mut config = vec![("http_settings", http)];
    if let Some(p) = active_path {
        config.push(("activation", obj(vec![("active_path", JsonValue::String(p.to_string()))])));
    }
    obj(vec![("Status", obj(vec![("config", obj(config))]))])
}

fn step(p: Preflight, e: PreflightEvent) -> (Preflight, PreflightAction) {
    assert!(p.accepts(&e));
    p.step(e)
}

fn connected() -> Preflight {
    let p = Preflight::new(EXE.to_string(), Platform::Unix);
    let (p, a) = step(p, PreflightEvent::Connected);
    match a {
        PreflightAction::Request(t) => assert_eq!(t, "\"GetStatus\""),
        other => panic!("unexpected {:?}", other),
    }
    p
}

fn localhost() -> Endpoint {
    Endpoint { host: "localhost".to_string(), port: 14564 }
}

#[test]
fn unreachable_daemon_fails() {
    let p = Preflight::new(EXE.to_string(), Platform::Unix);
    let (p, a) = step(p, PreflightEvent::ConnectFailed);
    assert!(matches!(a, PreflightAction::Finish(Err(PreflightError::DaemonUnavailable))));
    assert!(p.is_finished());
}

#[test]
fn registered_launcher_skips_consent() {
    let (p, a) = step(connected(), PreflightEvent::Reply(status(Some("'/usr/bin/goxlr-utility-ui'"))));
    match a {
        PreflightAction::Finish(Ok(e)) => assert_eq!(e, localhost()),
        other => panic!("unexpected {:?}", other),
    }
    assert!(p.is_finished());
}

#[test]
fn old_daemon_skips_consent() {
    let (_, a) = step(connected(), PreflightEvent::Reply(status(None)));
    match a {
        PreflightAction::Finish(Ok(e)) => assert_eq!(e.address(), "localhost:14564"),
        other => panic!("unexpected {:?}", other),
    }
}

#[test]
fn other_launcher_asks_then_registers() {
    let (p, a) = step(connected(), PreflightEvent::Reply(status(Some("'/opt/other'"))));
    assert!(matches!(a, PreflightAction::AskConsent));
    assert!(!p.is_finished());
    let (p, a) = step(p, PreflightEvent::Consent(true));
    match a {
        PreflightAction::Request(t) => assert_eq!(
            t,
            r#"{ "Daemon": { "SetActivatorPath": "'/usr/bin/goxlr-utility-ui'"  } }"#
        ),
        other => panic!("unexpected {:?}", other),
    }
    let (p, a) = step(p, PreflightEvent::Reply(JsonValue::Null));
    match a {
        PreflightAction::Finish(Ok(e)) => assert_eq!(e, localhost()),
        other => panic!("unexpected {:?}", other),
    }
    assert!(p.is_finished());
}

#[test]
fn registration_without_reply_still_resolves() {
    let (p, _) = step(connected(), PreflightEvent::Reply(status(Some("'/opt/other'"))));
    let (p, _) = step(p, PreflightEvent::Consent(true));
    let (_, a) = step(p, PreflightEvent::NoReply);
    assert!(matches!(a, PreflightAction::Finish(Ok(_))));
}

#[test]
fn refused_consent_fails() {
    let (p, _) = step(connected(), PreflightEvent::Reply(status(Some("'/opt/other'"))));
    let (p, a) = step(p, PreflightEvent::Consent(false));
    assert!(matches!(a, PreflightAction::Finish(Err(PreflightError::ConsentDenied))));
    assert!(p.is_finished());
}

#[test]
fn no_status_reply_fails() {
    let (_, a) = step(connected(), PreflightEvent::NoReply);
    assert!(matches!(a, PreflightAction::Finish(Err(PreflightError::NoStatus))));
}

#[test]
fn bad_status_fails_with_its_field() {
    let (_, a) = step(connected(), PreflightEvent::Reply(obj(vec![("Status", obj(vec![]))])));
    assert!(matches!(a, PreflightAction::Finish(Err(PreflightError::ConfigMissing))));
    let (_, a) = step(connected(), PreflightEvent::Reply(obj(vec![])));
    assert!(matches!(a, PreflightAction::Finish(Err(PreflightError::StatusMissing))));
}

#[test]
fn unexpected_events_are_refused() {
    let p = Preflight::new(EXE.to_string(), Platform::Unix);
    assert!(!p.accepts(&PreflightEvent::NoReply));
    assert!(!p.accepts(&PreflightEvent::Consent(true)));
    let (p, _) = p.step(PreflightEvent::ConnectFailed);
    assert!(!p.accepts(&PreflightEvent::Connected));
}

fn run(events: &[MonitorEvent]) -> Vec<Signal> {
    let mut m = Monitor::new(&localhost());
    let mut out = Vec::new();
    for e in events {
        out.extend(m.step(*e));
    }
    out
}

fn count(signals: &[Signal], s: &Signal) -> usize {
    signals.iter().filter(|x| *x == s).count()
}

#[test]
fn monitor_addresses() {
    let m = Monitor::new(&localhost());
    assert_eq!(m.ws_address(), "ws://localhost:14564/api/websocket");
    assert_eq!(m.http_address(), "http://localhost:14564/");
    assert_eq!(m.current_state(), MonitorState::Connecting);
}

#[test]
fn monitor_ready_then_stop_on_close() {
    let out = run(&[
        MonitorEvent::Connected,
        MonitorEvent::Message,
        MonitorEvent::Message,
        MonitorEvent::Close,
        MonitorEvent::Message,
        MonitorEvent::Close,
    ]);
    assert_eq!(
        out,
        vec![Signal::Ready("http://localhost:14564/".to_string()), Signal::Stop]
    );
}

#[test]
fn monitor_stop_on_read_error() {
    let out = run(&[MonitorEvent::Connected, MonitorEvent::ReadFailed, MonitorEvent::ReadFailed]);
    assert_eq!(count(&out, &Signal::Stop), 1);
    assert_eq!(out.len(), 2);
}

#[test]
fn monitor_connect_failure_hides_and_stops() {
    let out = run(&[MonitorEvent::ConnectFailed, MonitorEvent::Connected]);
    assert_eq!(out, vec![Signal::Hide, Signal::Stop]);
}

#[test]
fn monitor_single_ready() {
    let out = run(&[MonitorEvent::Connected, MonitorEvent::Connected, MonitorEvent::Close]);
    assert_eq!(out.iter().filter(|s| matches!(s, Signal::Ready(_))).count(), 1);
    assert_eq!(count(&out, &Signal::Stop), 1);
}

#[test]
fn monitor_ready_after_early_messages() {
    let out = run(&[MonitorEvent::Message, MonitorEvent::Connected, MonitorEvent::Close]);
    assert_eq!(
        out,
        vec![Signal::Ready("http://localhost:14564/".to_string()), Signal::Stop]
    );
}

#[test]
fn monitor_open_stream_emits_no_stop() {
    let out = run(&[MonitorEvent::Connected, MonitorEvent::Message]);
    assert_eq!(count(&out, &Signal::Stop), 0);
}

fn cmd(program: &str, args: &[&str]) -> DialogCommand {
    DialogCommand { program: program.to_string(), args: args.iter().map(|a| a.to_string()).collect() }
}

#[test]
fn error_dialog_falls_back_to_zenity() {
    let (t, m) = ("Title".to_string(), "Body".to_string());
    assert_eq!(
        show_error(&t, &m, &vec![]),
        DialogStep::Run(cmd("kdialog", &["--title", "Title", "--error", "Body"]))
    );
    assert_eq!(
        show_error(&t, &m, &vec![Launch::NotStarted]),
        DialogStep::Run(cmd("zenity", &["--title", "Title", "--error", "--text", "Body"]))
    );
    assert_eq!(show_error(&t, &m, &vec![Launch::Exited(false)]), DialogStep::Done(Ok(())));
    assert_eq!(
        show_error(&t, &m, &vec![Launch::NotStarted, Launch::NotStarted]),
        DialogStep::Done(Ok(()))
    );
}

#[test]
fn question_dialog_answers() {
    let (t, m) = ("T".to_string(), "Use this?".to_string());
    assert_eq!(
        show_option(&t, &m, &vec![]),
        DialogStep::Run(cmd("kdialog", &["--title", "T", "--yesno", "Use this?"]))
    );
    assert_eq!(show_option(&t, &m, &vec![Launch::Exited(true)]), DialogStep::Done(Ok(())));
    assert_eq!(show_option(&t, &m, &vec![Launch::Exited(false)]), DialogStep::Done(Err(())));
    assert_eq!(
        show_option(&t, &m, &vec![Launch::NotStarted]),
        DialogStep::Run(cmd("zenity", &["--title", "T", "--question", "--text", "Use this?"]))
    );
    assert_eq!(
        show_option(&t, &m, &vec![Launch::NotStarted, Launch::Exited(true)]),
        DialogStep::Done(Ok(()))
    );
    assert_eq!(
        show_option(&t, &m, &vec![Launch::NotStarted, Launch::NotStarted]),
        DialogStep::Done(Err(()))
    );
}
