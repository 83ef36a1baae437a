use serde_json::Value;
use xrl::client::{
    client_started, edit, find, find_next, find_prev, get_edit_params, highlight_find, insert,
    new_view, notify, request, resize, save, scroll, set_language, set_theme, simple_edit,
    ActiveRequest, RequestData,
};
use xrl::protocol::{Message, Notification, ViewId};
use xrl::test_client::{ResponseCheck, Verdict};
use xrl::XiLocation;

fn parse(text: &str) -> Value {
    serde_json::from_str(text).unwrap()
}

fn frame(note: Notification) -> String {
    String::from_utf8(Message::Notification(note).to_vec().unwrap()).unwrap()
}

#[test]
fn view_ids_have_a_wire_form() {
    assert_eq!(ViewId(0).wire(), "view-id-0");
    assert_eq!(ViewId(7).wire(), "view-id-7");
    assert_eq!(ViewId(10).wire(), "view-id-10");
    assert_eq!(ViewId(1234567890).wire(), "view-id-1234567890");
    assert_eq!(ViewId(usize::MAX).wire(), format!("view-id-{}", usize::MAX));
    assert_eq!(ViewId(12).to_value(), Value::from("view-id-12"));
    for n in [0usize, 1, 9, 10, 99, 100, 101, 65535, usize::MAX] {
        assert_eq!(ViewId::parse(&ViewId(n).wire()), Some(ViewId(n)));
    }
}

#[test]
fn edit_parameters_name_method_and_view() {
    assert_eq!(
        get_edit_params(ViewId(1), "move_left", None),
        parse(r#"{"method":"move_left","view_id":"view-id-1","params":[]}"#)
    );
    assert_eq!(
        get_edit_params(ViewId(2), "insert", Some(parse(r#"{"chars":"a"}"#))),
        parse(r#"{"method":"insert","view_id":"view-id-2","params":{"chars":"a"}}"#)
    );
}

#[test]
fn calls_are_framed_as_the_core_expects() {
    assert_eq!(
        frame(notify("m", parse("[1]"))),
        r#"{"method":"m","params":[1]}"#
    );
    assert_eq!(
        frame(simple_edit(ViewId(1), "move_right")),
        r#"{"method":"edit","params":{"method":"move_right","view_id":"view-id-1"}}"#
    );
    assert_eq!(
        frame(edit(ViewId(1), "scroll", parse("[0,2]"))),
        r#"{"method":"edit","params":{"method":"scroll","params":[0,2],"view_id":"view-id-1"}}"#
    );
    assert_eq!(
        frame(scroll(ViewId(3), 21, 80)),
        r#"{"method":"edit","params":{"method":"scroll","params":[21,80],"view_id":"view-id-3"}}"#
    );
    assert_eq!(
        frame(resize(ViewId(3), 800, 600)),
        r#"{"method":"edit","params":{"method":"resize","params":{"height":600,"width":800},"view_id":"view-id-3"}}"#
    );
    assert_eq!(
        frame(insert(ViewId(1), "data")),
        r#"{"method":"edit","params":{"method":"insert","params":{"chars":"data"},"view_id":"view-id-1"}}"#
    );
    assert_eq!(
        frame(find(ViewId(1), "needle", true, false, true)),
        r#"{"method":"edit","params":{"method":"find","params":{"case_sensitive":true,"chars":"needle","regex":false,"whole_words":true},"view_id":"view-id-1"}}"#
    );
    assert_eq!(
        frame(find_next(ViewId(1), true, false)),
        r#"{"method":"edit","params":{"method":"find_next","params":{"modify_selection":false,"wrap_around":true},"view_id":"view-id-1"}}"#
    );
    assert_eq!(
        frame(find_prev(ViewId(1), false, true, false)),
        r#"{"method":"edit","params":{"method":"find_prev","params":{"allow_same":true,"modify_selection":false,"wrap_around":false},"view_id":"view-id-1"}}"#
    );
    assert_eq!(
        frame(highlight_find(ViewId(1), true)),
        r#"{"method":"edit","params":{"method":"highlight_find","params":{"visible":true},"view_id":"view-id-1"}}"#
    );
    assert_eq!(
        frame(set_theme("InspiredGitHub")),
        r#"{"method":"set_theme","params":{"theme_name":"InspiredGitHub"}}"#
    );
    assert_eq!(
        frame(set_language(ViewId(1), "Rust")),
        r#"{"method":"set_language","params":{"language_id":"Rust","view_id":"view-id-1"}}"#
    );
    assert_eq!(
        frame(save(ViewId(1), "/tmp/a b.txt")),
        r#"{"method":"save","params":{"file_path":"/tmp/a b.txt","view_id":"view-id-1"}}"#
    );
    assert_eq!(frame(client_started(None, None)), r#"{"method":"client_started","params":{}}"#);
    assert_eq!(
        frame(client_started(Some("/conf"), None)),
        r#"{"method":"client_started","params":{"config_dir":"/conf"}}"#
    );
    assert_eq!(
        frame(client_started(None, Some("/extras"))),
        r#"{"method":"client_started","params":{"client_extras_dir":"/extras"}}"#
    );
    assert_eq!(
        frame(client_started(Some("/conf"), Some("/extras"))),
        r#"{"method":"client_started","params":{"client_extras_dir":"/extras","config_dir":"/conf"}}"#
    );
}

#[test]
fn requests_wait_for_their_id() {
    let r = request("m", parse("{}"));
    assert_eq!((r.id, r.method.as_str(), r.params.clone()), (0, "m", parse("{}")));
    let r = new_view(None);
    assert_eq!((r.id, r.method.as_str(), r.params.clone()), (0, "new_view", parse("{}")));
    let r = new_view(Some("Cargo.toml"));
    assert_eq!(r.params, parse(r#"{"file_path":"Cargo.toml"}"#));
    let active = ActiveRequest {
        id: 3,
        data: RequestData::NewView { file_path: Some("Cargo.toml".to_string()) },
    };
    assert_eq!(active.clone(), active);
    assert_ne!(XiLocation::Embeded, XiLocation::Path { cmd: "xi-core".to_string() });
}

#[test]
fn a_wait_gives_up_at_its_limit() {
    let mut check = ResponseCheck::new(true, None);
    assert_eq!((check.max_reqs, check.try_counter), (5, 1));
    for _ in 0..4 {
        assert!(!check.gave_up());
        assert_eq!(check.took(false, false), Verdict::ReadOn);
    }
    assert!(check.gave_up());

    let mut check = ResponseCheck::new(true, Some(10));
    assert_eq!(check.took(false, true), Verdict::Found);
    assert_eq!(check.try_counter, 1);
    assert_eq!(check.took(true, true), Verdict::CoreError);
    assert_eq!(check.took(true, false), Verdict::CoreError);

    let mut check = ResponseCheck::new(false, Some(2));
    assert_eq!(check.took(true, false), Verdict::ReadOn);
    assert!(!check.gave_up());
    assert_eq!(check.took(true, true), Verdict::Found);
    check.try_counter = usize::MAX;
    assert_eq!(check.took(false, false), Verdict::ReadOn);
    assert_eq!(check.try_counter, usize::MAX);
}
