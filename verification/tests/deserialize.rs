use serde_json::Value;
use xrl::protocol::{
    Annotation, Line, Operation, OperationType, Position, ScrollTo, Style, StyleDef, Update,
    UpdateNotification, ViewId,
};

fn parse(text: &str) -> Value {
    serde_json::from_str(text).unwrap()
}

fn line(text: &str, cursor: Vec<u64>) -> Line {
    Line { cursor, styles: vec![], text: text.to_owned(), line_num: None }
}

#[test]
fn deserialize_operation_from_value() {
    let value = parse(r#"{"n": 12, "op": "ins"}"#);
    let operation = Operation {
        operation_type: OperationType::Insert,
        nb_lines: 12,
        line_num: None,
        lines: vec![],
    };
    let deserialized = Operation::from_value(&value);
    assert_eq!(deserialized.unwrap(), operation);

    let value = parse(
        r#"{"lines":[{"cursor":[0],"styles":[],"text":"foo"},{"styles":[],"text":""}],"n":60,"op":"invalidate"}"#,
    );
    let operation = Operation {
        operation_type: OperationType::Invalidate,
        nb_lines: 60,
        line_num: None,
        lines: vec![line("foo", vec![0]), line("", vec![])],
    };
    let deserialized = Operation::from_value(&value);
    assert_eq!(deserialized.unwrap(), operation);
}

#[test]
fn deserialize_operation() {
    let s = r#"{"n": 12, "op": "ins"}"#;
    let operation = Operation {
        operation_type: OperationType::Insert,
        nb_lines: 12,
        line_num: None,
        lines: vec![],
    };
    let deserialized = Operation::from_value(&parse(s));
    assert_eq!(deserialized.unwrap(), operation);

    let s = r#"{"lines":[{"cursor":[0],"styles":[],"text":"foo"},{"styles":[],"text":""}],"n":60,"op":"invalidate"}"#;
    let operation = Operation {
        operation_type: OperationType::Invalidate,
        nb_lines: 60,
        line_num: None,
        lines: vec![line("foo", vec![0]), line("", vec![])],
    };
    let deserialized = Operation::from_value(&parse(s));
    assert_eq!(deserialized.unwrap(), operation);
}

#[test]
fn position_deserialize_ok() {
    let s = r#"[12, 1]"#;
    let deserialized = Position::from_value(&parse(s));
    assert_eq!(deserialized.unwrap(), Position(12, 1));
}

#[test]
fn scroll_to_deserialize_ok() {
    let s = r#"{"col":18,"line":0,"view_id":"view-id-1"}"#;
    let deserialized = ScrollTo::from_value(&parse(s));
    let scroll_to = ScrollTo { line: 0, column: 18, view_id: ViewId::parse("view-id-1").unwrap() };
    assert_eq!(deserialized.unwrap(), scroll_to);
    assert_eq!(scroll_to.view_id, ViewId(1));
}

#[test]
fn deserialize_update() {
    let s = r#"{"update":{"ops":[{"n":60,"op":"invalidate"},{"lines":[{"cursor":[0],"styles":[],"text":"Bar"},{"styles":[],"text":"Foo"}],"n":12,"op":"ins"}],"pristine":true},"view_id":"view-id-1"}"#;
    let update = Update {
        operations: vec![
            Operation {
                operation_type: OperationType::Invalidate,
                nb_lines: 60,
                line_num: None,
                lines: vec![],
            },
            Operation {
                operation_type: OperationType::Insert,
                nb_lines: 12,
                line_num: None,
                lines: vec![line("Bar", vec![0]), line("Foo", vec![])],
            },
        ],
        annotations: vec![],
        pristine: true,
        rev: None,
    };
    let expected = UpdateNotification { update, view_id: ViewId(1) };
    let deserialized = UpdateNotification::from_value(&parse(s));
    assert_eq!(deserialized.unwrap(), expected);
}

#[test]
fn view_ids_are_read_from_their_wire_form() {
    assert_eq!(ViewId::parse("view-id-0"), Some(ViewId(0)));
    assert_eq!(ViewId::parse("view-id-007"), Some(ViewId(7)));
    assert_eq!(ViewId::parse("view-id-1234567890"), Some(ViewId(1234567890)));
    assert_eq!(ViewId::parse(&format!("view-id-{}", usize::MAX)), Some(ViewId(usize::MAX)));
    assert_eq!(ViewId::parse(&format!("view-id-{}0", usize::MAX)), None);
    assert_eq!(ViewId::parse("view-id-18446744073709551616"), None);
    for bad in ["", "view-id-", "view-id", "view-id-1a", "view-id--1", "View-id-1", "view-id-1 ", "view-id-١", "1"] {
        assert_eq!(ViewId::parse(bad), None, "{:?}", bad);
    }
    assert_eq!(ViewId::from_value(&parse("\"view-id-12\"")), Some(ViewId(12)));
    assert_eq!(ViewId::from_value(&parse("12")), Some(ViewId(12)));
    assert_eq!(ViewId::from_value(&parse("-1")), None);
    assert_eq!(ViewId::from_value(&parse("1.0")), None);
    assert_eq!(ViewId::from_value(&parse("\"12\"")), None);
    assert_eq!(ViewId::from_value(&parse("null")), None);
}

#[test]
fn lines_are_read_with_their_styles_and_numbers() {
    let s = r#"{"text":"fn main() {\n","cursor":[3,9],"styles":[0,2,5,1,4,6],"ln":17}"#;
    let expected = Line {
        text: "fn main() {\n".to_owned(),
        cursor: vec![3, 9],
        styles: vec![
            StyleDef { offset: 0, length: 2, style_id: 5 },
            StyleDef { offset: 1, length: 4, style_id: 6 },
        ],
        line_num: Some(17),
    };
    assert_eq!(Line::from_value(&parse(s)), Some(expected));
    assert_eq!(Line::from_value(&parse("{}")), Some(Line::default()));
    assert_eq!(Line::from_value(&parse(r#"{"ln":null}"#)), Some(Line::default()));
    for bad in [
        "[]",
        "null",
        r#""text""#,
        r#"{"text":1}"#,
        r#"{"text":null}"#,
        r#"{"cursor":[-1]}"#,
        r#"{"cursor":3}"#,
        r#"{"styles":[1,2]}"#,
        r#"{"styles":[1,2,"3"]}"#,
        r#"{"styles":[1,2,1.5]}"#,
        r#"{"ln":"1"}"#,
        r#"{"ln":-1}"#,
    ] {
        assert_eq!(Line::from_value(&parse(bad)), None, "{}", bad);
    }
}

#[test]
fn operations_are_read_by_their_wire_names() {
    let names = [
        ("copy", OperationType::Copy),
        ("skip", OperationType::Skip),
        ("invalidate", OperationType::Invalidate),
        ("update", OperationType::Update),
        ("ins", OperationType::Insert),
    ];
    for (name, ty) in names {
        let s = format!(r#"{{"op":"{}","n":3,"ln":9}}"#, name);
        assert_eq!(
            Operation::from_value(&parse(&s)),
            Some(Operation { operation_type: ty, nb_lines: 3, line_num: Some(9), lines: vec![] })
        );
    }
    for bad in [
        r#"{"op":"insert","n":3}"#,
        r#"{"op":"copy"}"#,
        r#"{"n":3}"#,
        r#"{"op":"copy","n":-3}"#,
        r#"{"op":"copy","n":3,"lines":{}}"#,
        r#"{"op":"copy","n":3,"lines":[1]}"#,
        r#"{"op":"copy","n":3,"ln":true}"#,
        r#"["copy",3]"#,
    ] {
        assert_eq!(Operation::from_value(&parse(bad)), None, "{}", bad);
    }
}

#[test]
fn updates_are_read_with_their_annotations() {
    let s = r#"{"rev":5,"ops":[{"op":"copy","n":1}],"pristine":false,
        "annotations":[{"type":"selection","ranges":[[0,1,2,3],[4,5,6,7]],"payloads":{"a":[1]},"n":2}]}"#;
    let expected = Update {
        rev: Some(5),
        operations: vec![Operation {
            operation_type: OperationType::Copy,
            nb_lines: 1,
            line_num: None,
            lines: vec![],
        }],
        annotations: vec![Annotation {
            ty: "selection".to_owned(),
            ranges: vec![[0, 1, 2, 3], [4, 5, 6, 7]],
            payloads: parse(r#"{"a":[1]}"#),
            n: 2,
        }],
        pristine: false,
    };
    assert_eq!(Update::from_value(&parse(s)), Some(expected));
    for bad in [
        r#"{"ops":[]}"#,
        r#"{"pristine":true}"#,
        r#"{"ops":[{}],"pristine":true}"#,
        r#"{"ops":[],"pristine":1}"#,
        r#"{"ops":[],"pristine":true,"rev":"1"}"#,
        r#"{"ops":[],"pristine":true,"annotations":[{"type":"x","ranges":[[1,2,3]],"payloads":null,"n":1}]}"#,
        r#"{"ops":[],"pristine":true,"annotations":[{"type":"x","ranges":[],"n":1}]}"#,
        r#"{"ops":[],"pristine":true,"annotations":[{"ranges":[],"payloads":null,"n":1}]}"#,
        r#"{"ops":[],"pristine":true,"annotations":{}}"#,
    ] {
        assert_eq!(Update::from_value(&parse(bad)), None, "{}", bad);
    }
    assert!(Update::from_value(&parse(r#"{"ops":[],"pristine":true,"rev":null}"#)).is_some());
    assert_eq!(
        UpdateNotification::from_value(&parse(r#"{"update":{"ops":[],"pristine":true}}"#)),
        None
    );
    assert_eq!(UpdateNotification::from_value(&parse(r#"{"view_id":"view-id-1"}"#)), None);
}

#[test]
fn styles_and_positions_are_read() {
    let s = r#"{"id":3,"fg_color":4294967295,"weight":700,"italic":true,"underline":null}"#;
    let expected = Style {
        id: 3,
        fg_color: Some(u32::MAX),
        bg_color: None,
        weight: Some(700),
        italic: Some(true),
        underline: None,
    };
    assert_eq!(Style::from_value(&parse(s)), Some(expected));
    for bad in [
        r#"{}"#,
        r#"{"id":"3"}"#,
        r#"{"id":3,"fg_color":4294967296}"#,
        r#"{"id":3,"italic":1}"#,
        r#"{"id":3,"weight":-1}"#,
    ] {
        assert_eq!(Style::from_value(&parse(bad)), None, "{}", bad);
    }
    for bad in ["[1]", "[1,2,3]", "[1,-2]", "{}", "[\"1\",2]"] {
        assert_eq!(Position::from_value(&parse(bad)), None, "{}", bad);
    }
    for bad in [
        r#"{"line":0,"view_id":"view-id-1"}"#,
        r#"{"col":18,"line":0}"#,
        r#"{"col":18,"line":0,"view_id":"view-1"}"#,
        r#"{"col":18,"line":-1,"view_id":"view-id-1"}"#,
    ] {
        assert_eq!(ScrollTo::from_value(&parse(bad)), None, "{}", bad);
    }
}
