use goxlr_utility_ui::cli::{manage_command, parse_mode, with_activator, ManageError, Mode};
use goxlr_utility_ui::json::{JsonNumber, JsonValue};
use goxlr_utility_ui::status::Platform;

fn args(a: &[&str]) -> Vec<String> {
    a.iter().map(|s| s.to_string()).collect()
}

fn obj(members: Vec<(&str, JsonValue)>) -> JsonValue {
    JsonValue::Object(members.into_iter().map(|(k, v)| (k.to_string(), v)).collect())
}

#[test]
fn modes_from_arguments() {
    assert_eq!(parse_mode(&args(&["ui", "--install"])), Mode::Install);
    assert_eq!(parse_mode(&args(&["ui", "--remove"])), Mode::Remove);
    assert_eq!(parse_mode(&args(&["ui"])), Mode::Run);
    assert_eq!(parse_mode(&args(&["ui", "--other"])), Mode::Run);
    assert_eq!(parse_mode(&args(&["ui", "--install", "x"])), Mode::Run);
    assert_eq!(parse_mode(&args(&[])), Mode::Run);
}

fn supporting() -> JsonValue {
    obj(vec![(
        "Status",
        obj(vec![("config", obj(vec![("activation", obj(vec![("active_path", JsonValue::Null)]))]))]),
    )])
}

#[test]
fn install_and_remove_commands() {
    let exe = "/usr/bin/ui".to_string();
    assert_eq!(
        manage_command(true, Some(&supporting()), &exe, Platform::Unix),
        Ok(r#"{ "Daemon": { "SetActivatorPath": "'/usr/bin/ui'"  } }"#.to_string())
    );
    assert_eq!(
        manage_command(false, Some(&supporting()), &exe, Platform::Unix),
        Ok(r#"{ "Daemon": { "SetActivatorPath": null  } }"#.to_string())
    );
}

#[test]
fn old_running_daemon_refuses() {
    let exe = "/usr/bin/ui".to_string();
    let r = manage_command(true, Some(&obj(vec![])), &exe, Platform::Unix);
    assert_eq!(r, Err(ManageError::DaemonRunning(true)));
    assert_eq!(
        r.unwrap_err().message(),
        "Unable to Install, Please stop the GoXLR Utility first."
    );
    let r = manage_command(false, None, &exe, Platform::Unix);
    assert_eq!(
        r.unwrap_err().message(),
        "Unable to Remove, Please stop the GoXLR Utility first."
    );
}

#[test]
fn settings_get_activator() {
    let exe = "/usr/bin/ui".to_string();
    let settings = obj(vec![
        ("show_tray_icon", JsonValue::Bool(true)),
        ("activate", JsonValue::Null),
        ("port", JsonValue::Number(JsonNumber::Unsigned(1))),
    ]);
    let out = with_activator(settings, true, &exe, Platform::Unix).unwrap();
    assert_eq!(
        out,
        obj(vec![
            ("show_tray_icon", JsonValue::Bool(true)),
            ("activate", JsonValue::String("'/usr/bin/ui'".to_string())),
            ("port", JsonValue::Number(JsonNumber::Unsigned(1))),
        ])
    );
}

#[test]
fn settings_lose_activator() {
    let exe = "/usr/bin/ui".to_string();
    let settings = obj(vec![("x", JsonValue::Null)]);
    let out = with_activator(settings, false, &exe, Platform::Unix).unwrap();
    assert_eq!(out, obj(vec![("x", JsonValue::Null), ("activate", JsonValue::Null)]));
}

#[test]
fn null_settings_become_an_object() {
    let exe = r"C:\ui.exe".to_string();
    let out = with_activator(JsonValue::Null, true, &exe, Platform::Windows).unwrap();
    assert_eq!(out, obj(vec![("activate", JsonValue::String(r#""C:\ui.exe""#.to_string()))]));
}

#[test]
fn other_settings_are_refused() {
    let exe = "/a".to_string();
    assert_eq!(with_activator(JsonValue::Bool(true), true, &exe, Platform::Unix), None);
    assert_eq!(with_activator(JsonValue::Array(vec![]), false, &exe, Platform::Unix), None);
}

#[test]
fn settings_keep_distinct_names() {
    let exe = "/b".to_string();
    let settings = obj(vec![("activate", JsonValue::String("'/a'".to_string())), ("y", JsonValue::Null)]);
    let out = with_activator(settings, true, &exe, Platform::Unix).unwrap();
    match out {
        JsonValue::Object(members) => {
            assert_eq!(members.iter().filter(|(k, _)| k == "activate").count(), 1);
            assert_eq!(members[0].1, JsonValue::String("'/b'".to_string()));
        }
        other => panic!("unexpected {:?}", other),
    }
}
