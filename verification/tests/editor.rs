use serde_json::Value;
use xrl::api::{CacheError, Editor, StyleCache, View, ViewList, ViewPort};
use xrl::protocol::{
    default_bg_color, default_italic, default_underline, default_weight, Alert,
    AvailableLanguages, AvailablePlugins, AvailableThemes, ConfigChanged, ConfigChanges,
    FindStatus, LanguageChanged, Line, Message, Notification, Operation, OperationType, Plugin,
    PluginStarted, PluginStoped, ReplaceStatus, Request, Response, ScrollTo, Status, Style,
    Update, UpdateNotification, ViewId, XiNotification,
};

fn style(id: u64) -> Style {
    Style { id, fg_color: Some(id as u32), ..Style::default() }
}

#[test]
fn style_cache_stores_by_id() {
    let mut cache = StyleCache::default();
    assert_eq!(cache.get(1), None);
    cache.insert(1, style(1));
    cache.insert(2, style(2));
    cache.insert(1, style(10));
    assert_eq!(cache.get(1), Some(&style(10)));
    let mut all = cache.styles();
    all.sort_by_key(|e| e.0);
    assert_eq!(all, vec![(1, style(10)), (2, style(2))]);
    cache.remove(1);
    cache.remove(7);
    assert_eq!(cache.get(1), None);
    assert_eq!(cache.styles(), vec![(2, style(2))]);
}

#[test]
fn viewport_follows_the_scroll() {
    let mut port = ViewPort::default();
    port.resize(10, 5);
    assert_eq!((port.width, port.height), (10, 5));
    let to = |line, column| ScrollTo { line, column, view_id: ViewId(0) };
    port.scroll_to(to(4, 9));
    assert_eq!((port.vertical_offset, port.horizontal_offset), (0, 0));
    port.scroll_to(to(5, 10));
    assert_eq!((port.vertical_offset, port.horizontal_offset), (1, 1));
    port.scroll_to(to(100, 200));
    assert_eq!((port.vertical_offset, port.horizontal_offset), (96, 191));
    port.scroll_to(to(50, 20));
    assert_eq!((port.vertical_offset, port.horizontal_offset), (50, 20));
    port.scroll_to(to(52, 25));
    assert_eq!((port.vertical_offset, port.horizontal_offset), (50, 20));
    port.resize(0, 0);
    port.scroll_to(to(u64::MAX, u64::MAX));
    assert_eq!((port.vertical_offset, port.horizontal_offset), (0, 0));
    port.scroll_to(to(7, 8));
    assert_eq!((port.vertical_offset, port.horizontal_offset), (8, 9));
}

#[test]
fn view_list_keeps_order_and_goes_round() {
    let mut list = ViewList::default();
    assert!(list.is_empty());
    assert_eq!(list.get_current_id(), None);
    assert_eq!(list.get_current_index(), None);
    list.next();
    list.prev();
    assert_eq!(list.get_current_id(), None);

    for n in [5usize, 3, 8] {
        list.add(ViewId(n), View::new(ViewId(n)));
        assert_eq!(list.get_current_id(), Some(ViewId(n)));
    }
    assert_eq!(list.len(), 3);
    assert_eq!(list.keys(), vec![ViewId(5), ViewId(3), ViewId(8)]);
    assert_eq!(list.get_all().iter().map(|v| v.id).collect::<Vec<_>>(), vec![ViewId(5), ViewId(3), ViewId(8)]);
    assert_eq!(list.get_current_index(), Some(2));
    list.next();
    assert_eq!(list.get_current_id(), Some(ViewId(5)));
    list.next();
    assert_eq!(list.get_current_id(), Some(ViewId(3)));
    list.prev();
    assert_eq!(list.get_current_id(), Some(ViewId(5)));
    list.prev();
    assert_eq!(list.get_current_id(), Some(ViewId(8)));
    list.prev();
    assert_eq!(list.get_current_id(), Some(ViewId(3)));

    // adding under an id that is there keeps the place
    let mut again = View::new(ViewId(5));
    again.language = Some("rust".to_string());
    list.add(ViewId(5), again);
    assert_eq!(list.len(), 3);
    assert_eq!(list.keys(), vec![ViewId(5), ViewId(3), ViewId(8)]);
    assert_eq!(list.get_current_index(), Some(0));
    assert_eq!(list.get(&ViewId(5)).unwrap().language, Some("rust".to_string()));
    assert_eq!(list.get_index(1).map(|v| v.id), Some(ViewId(3)));
    assert!(list.get_index(3).is_none());
    assert!(list.get(&ViewId(4)).is_none());

    list.get_mut(&ViewId(3)).unwrap().plugins.push("p".to_string());
    assert_eq!(list.get(&ViewId(3)).unwrap().plugins, vec!["p".to_string()]);
    list.get_current_mut().unwrap().language = None;
    assert_eq!(list.get_current().unwrap().language, None);
    assert!(list.get_mut(&ViewId(4)).is_none());
}

fn insert_one(view: usize, text: &str) -> XiNotification {
    XiNotification::Update(UpdateNotification {
        view_id: ViewId(view),
        update: Update {
            rev: None,
            operations: vec![Operation {
                operation_type: OperationType::Insert,
                nb_lines: 1,
                line_num: None,
                lines: vec![Line { text: text.to_string(), cursor: vec![], styles: vec![], line_num: Some(1) }],
            }],
            annotations: vec![],
            pristine: true,
        },
    })
}

#[test]
fn the_editor_learns_from_notifications() {
    let mut editor = Editor::default();
    editor.new_view(ViewId(1));
    editor.new_view(ViewId(2));

    editor.xi_notification(insert_one(1, "hello\n")).unwrap();
    assert_eq!(editor.views.get(&ViewId(1)).unwrap().cache.lines()[0].text, "hello");
    assert_eq!(editor.views.get(&ViewId(2)).unwrap().cache.height(), 0);
    // a view that is not there: nothing happens
    editor.xi_notification(insert_one(9, "lost")).unwrap();
    assert_eq!(editor.views.len(), 2);
    // an update that does not fit
    let bad = XiNotification::Update(UpdateNotification {
        view_id: ViewId(1),
        update: Update {
            rev: None,
            operations: vec![Operation { operation_type: OperationType::Copy, nb_lines: 2, line_num: None, lines: vec![] }],
            annotations: vec![],
            pristine: true,
        },
    });
    assert_eq!(editor.xi_notification(bad), Err(CacheError::Overrun));
    assert_eq!(editor.views.get(&ViewId(1)).unwrap().cache.lines()[0].text, "hello");

    editor.xi_notification(XiNotification::DefStyle(style(3))).unwrap();
    assert_eq!(editor.styles.get(3), Some(&style(3)));

    let plugins = vec![Plugin { name: "syntect".to_string(), running: true }];
    editor
        .xi_notification(XiNotification::AvailablePlugins(AvailablePlugins {
            view_id: ViewId(1),
            plugins: plugins.clone(),
        }))
        .unwrap();
    assert_eq!(editor.plugins, plugins);
    editor
        .xi_notification(XiNotification::AvailableThemes(AvailableThemes { themes: vec!["t".to_string()] }))
        .unwrap();
    assert_eq!(editor.themes, vec!["t".to_string()]);
    editor
        .xi_notification(XiNotification::AvailableLanguages(AvailableLanguages {
            languages: vec!["Rust".to_string()],
        }))
        .unwrap();
    assert_eq!(editor.languages, vec!["Rust".to_string()]);

    let changes = ConfigChanges {
        font_face: None,
        font_size: Some(12),
        line_ending: None,
        plugin_search_path: None,
        tab_size: Some(4),
        translate_tabs_to_spaces: Some(true),
    };
    editor
        .xi_notification(XiNotification::ConfigChanged(ConfigChanged { view_id: ViewId(2), changes: changes.clone() }))
        .unwrap();
    assert_eq!(editor.views.get(&ViewId(2)).unwrap().config, Some(changes));
    assert_eq!(editor.views.get(&ViewId(1)).unwrap().config, None);

    editor
        .xi_notification(XiNotification::LanguageChanged(LanguageChanged {
            view_id: ViewId(1),
            language_id: "Rust".to_string(),
        }))
        .unwrap();
    assert_eq!(editor.views.get(&ViewId(1)).unwrap().language, Some("Rust".to_string()));

    for name in ["a", "b", "a", "c"] {
        editor
            .xi_notification(XiNotification::PluginStarted(PluginStarted {
                view_id: ViewId(1),
                plugin: name.to_string(),
            }))
            .unwrap();
    }
    editor
        .xi_notification(XiNotification::PluginStoped(PluginStoped { view_id: ViewId(1), plugin: "a".to_string() }))
        .unwrap();
    assert_eq!(editor.views.get(&ViewId(1)).unwrap().plugins, vec!["b".to_string(), "c".to_string()]);

    let find = FindStatus { view_id: ViewId(1), queries: vec![] };
    editor.xi_notification(XiNotification::FindStatus(find.clone())).unwrap();
    assert_eq!(editor.views.get(&ViewId(1)).unwrap().find_status, Some(find));
    let status = Status { chars: "x".to_string(), preserve_case: Some(false) };
    editor
        .xi_notification(XiNotification::ReplaceStatus(ReplaceStatus { view_id: ViewId(2), status: status.clone() }))
        .unwrap();
    assert_eq!(editor.views.get(&ViewId(2)).unwrap().replace_status, Some(status));

    // a scroll moves the current view, whatever view it names
    editor.views.get_mut(&ViewId(2)).unwrap().viewport.resize(10, 10);
    editor
        .xi_notification(XiNotification::ScrollTo(ScrollTo { line: 30, column: 0, view_id: ViewId(1) }))
        .unwrap();
    assert_eq!(editor.views.get(&ViewId(2)).unwrap().viewport.vertical_offset, 21);
    assert_eq!(editor.views.get(&ViewId(1)).unwrap().viewport.vertical_offset, 0);

    editor.xi_notification(XiNotification::Alert(Alert { msg: "hi".to_string() })).unwrap();
    assert_eq!(editor.views.len(), 2);
}

#[test]
fn the_editor_opens_the_view_that_a_response_names() {
    let mut editor = Editor::default();
    assert!(editor.render_lines().is_none());
    assert!(editor.render_chars().is_none());
    let new_view = Request { id: 7, method: "new_view".to_string(), params: Value::Null };
    let other = Request { id: 8, method: "other".to_string(), params: Value::Null };
    editor.xi_message(Message::Request(new_view.clone())).unwrap();
    editor.xi_message(Message::Request(other.clone())).unwrap();
    assert_eq!(editor.requests, vec![new_view, other]);

    let names = |n: u64| serde_json::from_str::<Value>(&format!("{{\"view_id\":{}}}", n)).unwrap();
    // not the answer to a request for a view
    editor.xi_message(Message::Response(Response { id: 8, result: Ok(names(1)) })).unwrap();
    editor.xi_message(Message::Response(Response { id: 9, result: Ok(names(1)) })).unwrap();
    // an error, and a result that names no view
    editor.xi_message(Message::Response(Response { id: 7, result: Err(names(1)) })).unwrap();
    editor
        .xi_message(Message::Response(Response { id: 7, result: Ok(Value::from("view-id-1")) }))
        .unwrap();
    assert!(editor.views.is_empty());

    editor.xi_message(Message::Response(Response { id: 7, result: Ok(names(4)) })).unwrap();
    assert_eq!(editor.views.keys(), vec![ViewId(4)]);
    assert_eq!(editor.views.get_current_id(), Some(ViewId(4)));
    assert_eq!(editor.render_lines().unwrap().len(), 0);
}

#[test]
fn the_editor_reads_notification_frames() {
    let mut editor = Editor::default();
    editor.new_view(ViewId(4));
    let frame = |method: &str, params: &str| {
        Message::Notification(Notification {
            method: method.to_string(),
            params: serde_json::from_str(params).unwrap(),
        })
    };
    editor
        .xi_message(frame(
            "update",
            r#"{"view_id":"view-id-4","update":{"pristine":true,"ops":[{"op":"invalidate","n":2},{"op":"ins","n":1,"lines":[{"text":"third\n","ln":3}]}]}}"#,
        ))
        .unwrap();
    let cache = &editor.views.get(&ViewId(4)).unwrap().cache;
    assert_eq!((cache.before(), cache.lines().len(), cache.after()), (2, 1, 0));
    assert_eq!(cache.lines()[0].text, "third");

    let refused = editor.xi_message(frame(
        "update",
        r#"{"view_id":"view-id-4","update":{"pristine":true,"ops":[{"op":"copy","n":4}]}}"#,
    ));
    assert_eq!(refused, Err(CacheError::Overrun));
    assert_eq!(editor.views.get(&ViewId(4)).unwrap().cache.height(), 3);

    editor.xi_message(frame("language_changed", r#"{"view_id":"view-id-4","language_id":"Rust"}"#)).unwrap();
    assert_eq!(editor.views.get(&ViewId(4)).unwrap().language, Some("Rust".to_string()));
    editor.xi_message(frame("def_style", r#"{"id":9,"weight":700}"#)).unwrap();
    assert_eq!(editor.styles.get(9).unwrap().weight, Some(700));
    editor.xi_message(frame("theme_changed", r#"{"name":"dark","theme":{}}"#)).unwrap();
    assert_eq!(editor.theme.as_ref().unwrap().name, "dark");

    // frames that cannot be read change nothing
    editor.xi_message(frame("language_changed", r#"{"view_id":"view-id-4"}"#)).unwrap();
    editor.xi_message(frame("no_such_method", r#"{"view_id":"view-id-4","language_id":"C"}"#)).unwrap();
    assert_eq!(editor.views.get(&ViewId(4)).unwrap().language, Some("Rust".to_string()));
}

#[test]
fn the_editor_renders_the_current_view() {
    let mut editor = Editor::default();
    editor.new_view(ViewId(1));
    editor.xi_notification(insert_one(1, "hello")).unwrap();
    editor.with(None).unwrap().viewport.resize(80, 24);
    editor.with(Some(ViewId(1))).unwrap().viewport.horizontal_offset = 3;
    assert!(editor.with(Some(ViewId(2))).is_none());
    let lines = editor.render_lines().unwrap();
    assert_eq!(lines.len(), 1);
    assert_eq!(lines[0].text, "lo");
    assert_eq!(lines[0].line_num, Some(1));
    let chars = editor.render_chars().unwrap();
    assert_eq!(chars[0].iter().map(|c| c.character).collect::<String>(), "lo");
}

#[test]
fn styles_fall_back_to_their_defaults() {
    assert_eq!(default_bg_color(), 0);
    assert_eq!(default_weight(), 400);
    assert!(!default_italic());
    assert!(!default_underline());
    let plain = Style::default();
    assert_eq!(
        (plain.background(), plain.font_weight(), plain.is_italic(), plain.is_underlined()),
        (0, 400, false, false)
    );
    let loud = Style {
        id: 1,
        fg_color: None,
        bg_color: Some(7),
        weight: Some(700),
        italic: Some(true),
        underline: Some(true),
    };
    assert_eq!(
        (loud.background(), loud.font_weight(), loud.is_italic(), loud.is_underlined()),
        (7, 700, true, true)
    );
}
