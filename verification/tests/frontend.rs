use bytes::BytesMut;
use serde_json::Value;
use xrl::diagnostics::{LineCodec, LineError};
use xrl::frontend::{handle_notification, handle_request, unknown_method, NotificationAction, RequestAction};
use xrl::protocol::{
    deserialize_operation_type, deserialize_styles, Alert, AvailableLanguages, AvailablePlugins,
    AvailableThemes, ConfigChanged, ConfigChanges, FindStatus, LanguageChanged, MeasureWidth,
    MeasureWidthInner, ModifySelection, NotificationKind, OperationType, Plugin, PluginStarted,
    PluginStoped, Query, ReplaceStatus, ScrollTo, Status, Style, StyleDef, StylesError,
    UpdateCmds, ViewId, XiNotification,
};
use xrl::{ClientError, ServerError};

#[test]
fn every_kind_of_notification_has_its_method() {
    let kinds = [
        (NotificationKind::Update, "update"),
        (NotificationKind::ScrollTo, "scroll_to"),
        (NotificationKind::DefStyle, "def_style"),
        (NotificationKind::AvailablePlugins, "available_plugins"),
        (NotificationKind::UpdateCmds, "update_cmds"),
        (NotificationKind::PluginStarted, "plugin_started"),
        (NotificationKind::PluginStoped, "plugin_stoped"),
        (NotificationKind::ConfigChanged, "config_changed"),
        (NotificationKind::ThemeChanged, "theme_changed"),
        (NotificationKind::Alert, "alert"),
        (NotificationKind::AvailableThemes, "available_themes"),
        (NotificationKind::FindStatus, "find_status"),
        (NotificationKind::ReplaceStatus, "replace_status"),
        (NotificationKind::AvailableLanguages, "available_languages"),
        (NotificationKind::LanguageChanged, "language_changed"),
    ];
    for (kind, method) in kinds {
        assert_eq!(kind.method(), method);
        assert_eq!(NotificationKind::of(method), Some(kind));
        // a number describes no notification of any kind
        match handle_notification(method, &Value::from(1)) {
            NotificationAction::Invalid(k) => assert_eq!(k, kind),
            _ => panic!("{} was not refused", method),
        }
    }
}

fn parse(text: &str) -> Value {
    serde_json::from_str(text).unwrap()
}

fn delivered(method: &str, params: &str) -> XiNotification {
    match handle_notification(method, &parse(params)) {
        NotificationAction::Deliver(note) => note,
        NotificationAction::Invalid(kind) => panic!("invalid {:?}: {}", kind, params),
        NotificationAction::Unknown => panic!("unknown {}", method),
    }
}

#[test]
fn notifications_are_read_from_their_parameters() {
    let cases: Vec<(&str, &str, XiNotification)> = vec![
        (
            "scroll_to",
            r#"{"col":18,"line":2,"view_id":"view-id-1"}"#,
            XiNotification::ScrollTo(ScrollTo { line: 2, column: 18, view_id: ViewId(1) }),
        ),
        (
            "def_style",
            r#"{"id":2,"fg_color":4278190080}"#,
            XiNotification::DefStyle(Style { id: 2, fg_color: Some(0xff000000), ..Style::default() }),
        ),
        (
            "available_plugins",
            r#"{"view_id":"view-id-1","plugins":[{"name":"syntect","running":true}]}"#,
            XiNotification::AvailablePlugins(AvailablePlugins {
                view_id: ViewId(1),
                plugins: vec![Plugin { name: "syntect".into(), running: true }],
            }),
        ),
        (
            "update_cmds",
            r#"{"view_id":"view-id-1","plugin":"syntect","cmds":["a","b"]}"#,
            XiNotification::UpdateCmds(UpdateCmds {
                cmds: vec!["a".into(), "b".into()],
                plugin: "syntect".into(),
                view_id: ViewId(1),
            }),
        ),
        (
            "plugin_started",
            r#"{"view_id":"view-id-2","plugin":"syntect"}"#,
            XiNotification::PluginStarted(PluginStarted { view_id: ViewId(2), plugin: "syntect".into() }),
        ),
        (
            "plugin_stoped",
            r#"{"view_id":"view-id-2","plugin":"syntect"}"#,
            XiNotification::PluginStoped(PluginStoped { view_id: ViewId(2), plugin: "syntect".into() }),
        ),
        (
            "config_changed",
            r#"{"view_id":"view-id-1","changes":{"font_face":"mono","font_size":12,"plugin_search_path":[],"tab_size":null,"translate_tabs_to_spaces":true}}"#,
            XiNotification::ConfigChanged(ConfigChanged {
                view_id: ViewId(1),
                changes: ConfigChanges {
                    font_face: Some("mono".into()),
                    font_size: Some(12),
                    line_ending: None,
                    plugin_search_path: Some(vec![]),
                    tab_size: None,
                    translate_tabs_to_spaces: Some(true),
                },
            }),
        ),
        ("alert", r#"{"msg":"hello"}"#, XiNotification::Alert(Alert { msg: "hello".into() })),
        (
            "available_themes",
            r#"{"themes":["InspiredGitHub","base16-ocean.dark"]}"#,
            XiNotification::AvailableThemes(AvailableThemes {
                themes: vec!["InspiredGitHub".into(), "base16-ocean.dark".into()],
            }),
        ),
        (
            "find_status",
            r#"{"view_id":"view-id-1","queries":[{"id":1,"chars":"a","case_sensitive":false,"is_regex":null,"matches":2,"lines":[1,5]}]}"#,
            XiNotification::FindStatus(FindStatus {
                view_id: ViewId(1),
                queries: vec![Query {
                    id: 1,
                    chars: Some("a".into()),
                    case_sensitive: Some(false),
                    is_regex: None,
                    whole_words: None,
                    matches: 2,
                    lines: vec![1, 5],
                }],
            }),
        ),
        (
            "replace_status",
            r#"{"view_id":"view-id-1","status":{"chars":"b","preserve_case":false}}"#,
            XiNotification::ReplaceStatus(ReplaceStatus {
                view_id: ViewId(1),
                status: Status { chars: "b".into(), preserve_case: Some(false) },
            }),
        ),
        (
            "available_languages",
            r#"{"languages":["Rust","C"]}"#,
            XiNotification::AvailableLanguages(AvailableLanguages {
                languages: vec!["Rust".into(), "C".into()],
            }),
        ),
        (
            "language_changed",
            r#"{"view_id":"view-id-1","language_id":"Rust"}"#,
            XiNotification::LanguageChanged(LanguageChanged { view_id: ViewId(1), language_id: "Rust".into() }),
        ),
    ];
    for (method, params, expected) in cases {
        let note = delivered(method, params);
        assert_eq!(note, expected);
        assert_eq!(note.kind().method(), method);
    }
    let update = delivered("update", r#"{"view_id":"view-id-1","update":{"ops":[{"op":"ins","n":1,"lines":[{"text":"x"}]}],"pristine":true}}"#);
    assert_eq!(update.kind(), NotificationKind::Update);
    match delivered("theme_changed", r#"{"name":"InspiredGitHub","theme":{}}"#) {
        XiNotification::ThemeChanged(theme) => {
            assert_eq!(theme.name, "InspiredGitHub");
            assert_eq!(theme.theme, Default::default());
        }
        other => panic!("{:?}", other),
    }
    match delivered("theme_changed", r#"{"name":"t","theme":{"caret":{"r":1,"g":2,"b":3,"a":4}}}"#) {
        XiNotification::ThemeChanged(theme) => {
            let caret = theme.theme.caret.unwrap();
            assert_eq!((caret.r, caret.g, caret.b, caret.a), (1, 2, 3, 4));
        }
        other => panic!("{:?}", other),
    }
}

#[test]
fn notifications_with_bad_parameters_are_refused() {
    let cases = [
        ("update", r#"{"view_id":"view-id-1"}"#),
        ("scroll_to", r#"{"col":18,"line":2}"#),
        ("def_style", r#"{"fg_color":1}"#),
        ("available_plugins", r#"{"view_id":"view-id-1","plugins":[{"name":"syntect"}]}"#),
        ("update_cmds", r#"{"view_id":"view-id-1","plugin":"syntect","cmds":[1]}"#),
        ("plugin_started", r#"{"view_id":"view-id-2"}"#),
        ("plugin_stoped", r#"{"plugin":"syntect"}"#),
        ("config_changed", r#"{"view_id":"view-id-1","changes":{"font_size":"12"}}"#),
        ("config_changed", r#"{"view_id":"view-id-1","changes":[]}"#),
        ("theme_changed", r#"{"name":"t"}"#),
        ("theme_changed", r#"{"name":"t","theme":{"caret":1}}"#),
        ("alert", r#"{"msg":1}"#),
        ("available_themes", r#"{"themes":"a"}"#),
        ("find_status", r#"{"view_id":"view-id-1","queries":[{"id":1,"matches":2}]}"#),
        ("replace_status", r#"{"view_id":"view-id-1","status":{}}"#),
        ("available_languages", r#"{}"#),
        ("language_changed", r#"{"view_id":"view-id-1","language_id":null}"#),
    ];
    for (method, params) in cases {
        assert!(
            matches!(handle_notification(method, &parse(params)), NotificationAction::Invalid(_)),
            "{} {}",
            method,
            params
        );
    }
}

#[test]
fn an_unknown_notification_is_dropped() {
    for method in ["", "Update", "update ", "measure_width", "plugin_stopped"] {
        assert_eq!(NotificationKind::of(method), None);
        assert!(matches!(handle_notification(method, &Value::Null), NotificationAction::Unknown));
    }
}

#[test]
fn an_unknown_request_is_answered_with_an_error() {
    match handle_request("measure_width", &parse(r#"[{"id":3,"strings":["a","bc"]},{"id":0,"strings":[]}]"#)) {
        RequestAction::MeasureWidth(request) => assert_eq!(
            request,
            MeasureWidth(vec![
                MeasureWidthInner { id: 3, strings: vec!["a".into(), "bc".into()] },
                MeasureWidthInner { id: 0, strings: vec![] },
            ])
        ),
        RequestAction::Reject(_) => panic!("rejected"),
    }
    match handle_request("measure_width", &Value::from(3)) {
        RequestAction::Reject(error) => assert_eq!(error, Value::from("invalid measure_width message")),
        RequestAction::MeasureWidth(_) => panic!("accepted"),
    }
    match handle_request("measure", &Value::Null) {
        RequestAction::Reject(error) => assert_eq!(error, Value::from("unknown method \"measure\"")),
        RequestAction::MeasureWidth(_) => panic!("accepted"),
    }
    assert_eq!(unknown_method(""), Value::from("unknown method \"\""));
}

#[test]
fn diagnostic_lines_are_text() {
    let mut buf = BytesMut::from(&b"first\nsec\xffond\n\nlast"[..]);
    assert_eq!(LineCodec.decode(&mut buf), Ok(Some("first".to_string())));
    assert_eq!(LineCodec.decode(&mut buf), Err(LineError::InvalidString));
    assert_eq!(LineCodec.decode(&mut buf), Ok(Some(String::new())));
    assert_eq!(LineCodec.decode(&mut buf), Ok(None));
    assert_eq!(&buf[..], b"last");
    let mut buf = BytesMut::from("h\u{e9}llo \u{1F600}\n".as_bytes());
    assert_eq!(LineCodec.decode(&mut buf), Ok(Some("h\u{e9}llo \u{1F600}".to_string())));
}

#[test]
fn styles_come_in_triples() {
    assert_eq!(deserialize_styles(&vec![]), Ok(vec![]));
    assert_eq!(
        deserialize_styles(&vec![0, 4, 1, -2, 3, 7]),
        Ok(vec![
            StyleDef { offset: 0, length: 4, style_id: 1 },
            StyleDef { offset: -2, length: 3, style_id: 7 },
        ])
    );
    assert_eq!(
        deserialize_styles(&vec![1, -1, -2]),
        Ok(vec![StyleDef { offset: 1, length: u64::MAX, style_id: u64::MAX - 1 }])
    );
    assert_eq!(deserialize_styles(&vec![1, 2]), Err(StylesError::NotTriples(2)));
    assert_eq!(deserialize_styles(&vec![1, 2, 3, 4]), Err(StylesError::NotTriples(4)));
}

#[test]
fn operation_types_have_wire_names() {
    assert_eq!(deserialize_operation_type("copy"), Some(OperationType::Copy));
    assert_eq!(deserialize_operation_type("skip"), Some(OperationType::Skip));
    assert_eq!(deserialize_operation_type("invalidate"), Some(OperationType::Invalidate));
    assert_eq!(deserialize_operation_type("update"), Some(OperationType::Update));
    assert_eq!(deserialize_operation_type("ins"), Some(OperationType::Insert));
    assert_eq!(deserialize_operation_type("insert"), None);
    assert_eq!(deserialize_operation_type(""), None);
    assert_eq!(ModifySelection::Untouched.name(), "none");
    assert_eq!(ModifySelection::Replace.name(), "set");
    assert_eq!(ModifySelection::Add.name(), "add");
    assert_eq!(ModifySelection::AddRemoveCurrent.name(), "add_remove_current");
}

fn bad_json() -> serde_json::Error {
    serde_json::from_str::<Value>("[1,").unwrap_err()
}

#[test]
fn client_errors_say_what_went_wrong() {
    assert_eq!(ClientError::NotifyFailed.message(), "Failed to send a notification");
    assert_eq!(ClientError::NotifyFailed.description(), "Failed to send a notification");
    assert_eq!(
        ClientError::RequestFailed.message(),
        "Failed to send a request, or receive its response"
    );
    assert_eq!(
        ClientError::RequestFailed.description(),
        "Failed to send a request or receive its response"
    );
    let returned = ClientError::ErrorReturned(Value::from("no"));
    assert_eq!(returned.message(), "The core returned an error: String(\"no\")");
    assert_eq!(returned.description(), "The core answered with an error");
    let failed = ClientError::from(bad_json());
    assert!(matches!(failed, ClientError::SerializeFailed(_)));
    assert_eq!(
        failed.message(),
        format!("failed to serialize a message: {}", bad_json())
    );
    assert_eq!(failed.description(), "Failed to serialize message");
    let spawn = ClientError::from(std::io::Error::new(std::io::ErrorKind::NotFound, "no xi-core"));
    assert!(matches!(spawn, ClientError::CoreSpawnFailed(_)));
    assert_eq!(spawn.message(), "Failed to spawn xi-core due to error: no xi-core");
    assert_eq!(spawn.description(), "Failed to spawn xi-core");
}

#[test]
fn server_errors_say_what_went_wrong() {
    let unknown = ServerError::UnknownMethod("m".to_string());
    assert_eq!(unknown.message(), "Unkown method m");
    assert_eq!(unknown.description(), "Unkown method");
    let other = ServerError::from("boom");
    assert!(matches!(other, ServerError::Other(_)));
    assert_eq!(other.message(), "Unkown error: boom");
    assert_eq!(other.description(), "Unknown error");
    assert_eq!(ServerError::from("boom".to_string()).message(), "Unkown error: boom");
    let failed = ServerError::from(bad_json());
    assert_eq!(
        failed.message(),
        format!(
            "Failed to deserialize the parameters of a request or notification: {}",
            bad_json()
        )
    );
    assert_eq!(
        failed.description(),
        "Failed to deserialize the parameters of a request or notification"
    );
}
