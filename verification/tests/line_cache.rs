use xrl::api::{CacheError, LineCache};
use xrl::protocol::{Line, Operation, OperationType, Update};

fn line(text: &str, num: u64) -> Line {
    Line { text: text.to_string(), cursor: vec![], styles: vec![], line_num: Some(num) }
}

fn op(ty: OperationType, n: u64) -> Operation {
    Operation { operation_type: ty, nb_lines: n, line_num: None, lines: vec![] }
}

fn insert(lines: Vec<Line>) -> Operation {
    Operation {
        operation_type: OperationType::Insert,
        nb_lines: lines.len() as u64,
        line_num: None,
        lines,
    }
}

fn update(operations: Vec<Operation>) -> Update {
    Update { rev: None, operations, annotations: vec![], pristine: true }
}

fn five_lines() -> LineCache {
    let mut cache = LineCache::new();
    let lines = vec![
        line("line1", 1),
        line("line2", 2),
        line("line3", 3),
        line("line4", 4),
        line("line5", 5),
    ];
    cache.update(update(vec![insert(lines)])).unwrap();
    cache
}

// This test simulates a simple edit operation on a LineCache.
#[test]
fn test_cache_edit() {
    let mut cache = five_lines();
    assert_eq!(cache.before(), 0);
    assert_eq!(cache.after(), 0);

    let upd = update(vec![
        op(OperationType::Copy, 1),
        insert(vec![line("new_line2", 2), line("new_line3", 3)]),
        op(OperationType::Skip, 2),
        op(OperationType::Copy, 2),
    ]);

    cache.update(upd).unwrap();

    assert_eq!(
        cache.lines(),
        &vec![
            line("line1", 1),
            line("new_line2", 2),
            line("new_line3", 3),
            line("line4", 4),
            line("line5", 5),
        ]
    );
    assert_eq!(cache.height(), 5);
}

#[test]
fn copy_past_the_end_is_refused() {
    let mut cache = five_lines();
    let r = cache.update(update(vec![op(OperationType::Copy, 6)]));
    assert_eq!(r, Err(CacheError::Overrun));
    assert_eq!(cache.lines().len(), 5);
    assert_eq!(cache.height(), 5);
}

fn unnumbered(text: &str) -> Line {
    Line { text: text.to_string(), cursor: vec![], styles: vec![], line_num: None }
}

fn copy_to(n: u64, ln: u64) -> Operation {
    Operation { operation_type: OperationType::Copy, nb_lines: n, line_num: Some(ln), lines: vec![] }
}

fn texts(cache: &LineCache) -> Vec<String> {
    cache.lines().iter().map(|l| l.text.clone()).collect()
}

fn nums(cache: &LineCache) -> Vec<Option<u64>> {
    cache.lines().iter().map(|l| l.line_num).collect()
}

/// before = 3, five lines, after = 2.
fn windowed() -> LineCache {
    let mut cache = LineCache::new();
    let lines = vec![
        line("line1", 4),
        line("line2", 5),
        unnumbered("line2 goes on"),
        line("line3", 6),
        line("line4", 7),
    ];
    cache
        .update(update(vec![op(OperationType::Invalidate, 3), insert(lines), op(OperationType::Invalidate, 2)]))
        .unwrap();
    cache
}

#[test]
fn a_new_cache_is_empty_of_everything() {
    let cache = LineCache::new();
    assert_eq!((cache.before(), cache.lines().len(), cache.after()), (0, 0, 0));
    assert_eq!(cache.height(), 0);
    assert_eq!(cache.width(), 0);
    assert!(!cache.is_empty());
    assert!(cache.annotations().is_empty());
    assert_eq!(cache.get_line(0), None);
}

#[test]
fn invalidate_counts_before_then_after() {
    let cache = windowed();
    assert_eq!((cache.before(), cache.lines().len(), cache.after()), (3, 5, 2));
    assert_eq!(cache.height(), 10);
}

#[test]
fn insert_strips_one_trailing_newline() {
    let mut cache = LineCache::new();
    cache
        .update(update(vec![insert(vec![unnumbered("a\n"), unnumbered("b\n\n"), unnumbered("c"), unnumbered("\n")])]))
        .unwrap();
    assert_eq!(texts(&cache), vec!["a", "b\n", "c", ""]);
}

#[test]
fn trim_new_line_takes_one_line_break() {
    let mut s = String::from("ab\n");
    xrl::api::trim_new_line(&mut s);
    assert_eq!(s, "ab");
    xrl::api::trim_new_line(&mut s);
    assert_eq!(s, "ab");
    let mut s = String::from("é\n\n");
    xrl::api::trim_new_line(&mut s);
    assert_eq!(s, "é\n");
    let mut s = String::new();
    xrl::api::trim_new_line(&mut s);
    assert_eq!(s, "");
}

#[test]
fn copy_crosses_the_three_regions() {
    let mut cache = windowed();
    cache.update(update(vec![op(OperationType::Copy, 10)])).unwrap();
    assert_eq!((cache.before(), cache.lines().len(), cache.after()), (3, 5, 2));
    assert_eq!(texts(&cache), vec!["line1", "line2", "line2 goes on", "line3", "line4"]);

    // two unknown lines, the rest skipped
    cache.update(update(vec![op(OperationType::Copy, 2), op(OperationType::Skip, 8)])).unwrap();
    assert_eq!((cache.before(), cache.lines().len(), cache.after()), (2, 0, 0));
}

#[test]
fn copy_of_unknown_lines_after_known_ones_counts_after() {
    let mut cache = windowed();
    let ops = vec![
        op(OperationType::Skip, 3),
        op(OperationType::Copy, 1),
        op(OperationType::Skip, 4),
        op(OperationType::Copy, 2),
    ];
    cache.update(update(ops)).unwrap();
    assert_eq!((cache.before(), cache.lines().len(), cache.after()), (0, 1, 2));
    assert_eq!(texts(&cache), vec!["line1"]);
}

#[test]
fn copy_renumbers_by_the_first_numbered_line() {
    let mut cache = windowed();
    // skip the unknown lines and "line1", then copy from "line2" on as line 9
    let ops = vec![op(OperationType::Skip, 4), copy_to(4, 9), op(OperationType::Skip, 2)];
    cache.update(update(ops)).unwrap();
    assert_eq!(texts(&cache), vec!["line2", "line2 goes on", "line3", "line4"]);
    assert_eq!(nums(&cache), vec![Some(9), None, Some(10), Some(11)]);

    // a copy that starts with a continuation line takes the first number that follows
    let mut cache = windowed();
    let ops = vec![op(OperationType::Skip, 5), copy_to(2, 2), op(OperationType::Skip, 3)];
    cache.update(update(ops)).unwrap();
    assert_eq!(nums(&cache), vec![None, Some(2)]);

    // without numbered lines nothing is renumbered
    let mut cache = windowed();
    let ops = vec![op(OperationType::Skip, 5), copy_to(1, 2), op(OperationType::Skip, 4)];
    cache.update(update(ops)).unwrap();
    assert_eq!(nums(&cache), vec![None]);

    // the shift wraps
    let mut cache = windowed();
    let ops = vec![op(OperationType::Skip, 3), copy_to(2, 0), op(OperationType::Skip, 5)];
    cache.update(update(ops)).unwrap();
    assert_eq!(nums(&cache), vec![Some(0), Some(1)]);
    let mut cache = windowed();
    let ops = vec![op(OperationType::Skip, 4), copy_to(3, 3), op(OperationType::Skip, 3)];
    cache.update(update(ops)).unwrap();
    assert_eq!(nums(&cache), vec![Some(3), None, Some(4)]);
}

#[test]
fn update_keeps_text_and_number() {
    let mut cache = windowed();
    let supplied = vec![
        Line { text: "ignored".into(), cursor: vec![1, 2], styles: vec![], line_num: Some(99) },
        Line {
            text: "".into(),
            cursor: vec![],
            styles: vec![xrl::protocol::StyleDef { offset: 0, length: 2, style_id: 4 }],
            line_num: None,
        },
    ];
    let ops = vec![
        op(OperationType::Copy, 3),
        Operation { operation_type: OperationType::Update, nb_lines: 2, line_num: None, lines: supplied },
        op(OperationType::Copy, 5),
    ];
    cache.update(update(ops)).unwrap();
    assert_eq!((cache.before(), cache.lines().len(), cache.after()), (3, 5, 2));
    let lines = cache.lines();
    assert_eq!(lines[0].text, "line1");
    assert_eq!(lines[0].line_num, Some(4));
    assert_eq!(lines[0].cursor, vec![1, 2]);
    assert_eq!(lines[1].text, "line2");
    assert_eq!(lines[1].styles, vec![xrl::protocol::StyleDef { offset: 0, length: 2, style_id: 4 }]);
    assert_eq!(lines[2].text, "line2 goes on");
}

#[test]
fn overruns_are_refused_and_leave_the_cache() {
    let mut cache = windowed();
    let bad: Vec<Vec<Operation>> = vec![
        vec![op(OperationType::Copy, 11)],
        vec![op(OperationType::Copy, 10), op(OperationType::Copy, 1)],
        vec![op(OperationType::Skip, 11)],
        vec![op(OperationType::Skip, 4), op(OperationType::Skip, 7)],
        // an update outside of the window: before it, across its end, after it
        vec![Operation { operation_type: OperationType::Update, nb_lines: 1, line_num: None, lines: vec![unnumbered("")] }],
        vec![
            op(OperationType::Skip, 7),
            Operation { operation_type: OperationType::Update, nb_lines: 2, line_num: None, lines: vec![unnumbered(""), unnumbered("")] },
        ],
        vec![
            op(OperationType::Skip, 8),
            Operation { operation_type: OperationType::Update, nb_lines: 1, line_num: None, lines: vec![unnumbered("")] },
        ],
    ];
    for ops in bad {
        assert_eq!(cache.update(update(ops)), Err(CacheError::Overrun));
        assert_eq!((cache.before(), cache.lines().len(), cache.after()), (3, 5, 2));
        assert_eq!(texts(&cache), vec!["line1", "line2", "line2 goes on", "line3", "line4"]);
    }
}

#[test]
fn wrong_line_counts_are_refused() {
    let mut cache = windowed();
    let short = Operation { operation_type: OperationType::Insert, nb_lines: 2, line_num: None, lines: vec![unnumbered("x")] };
    assert_eq!(cache.update(update(vec![short])), Err(CacheError::LineCountMismatch));
    let long = Operation { operation_type: OperationType::Update, nb_lines: 1, line_num: None, lines: vec![unnumbered("x"), unnumbered("y")] };
    assert_eq!(
        cache.update(update(vec![op(OperationType::Skip, 3), long])),
        Err(CacheError::LineCountMismatch)
    );
    assert_eq!(cache.height(), 10);
}

#[test]
fn a_document_beyond_counting_is_refused() {
    let mut cache = LineCache::new();
    let ops = vec![op(OperationType::Invalidate, u64::MAX), op(OperationType::Invalidate, 1)];
    assert_eq!(cache.update(update(ops)), Err(CacheError::HeightOverflow));
    let ops = vec![op(OperationType::Invalidate, u64::MAX), insert(vec![unnumbered("x")])];
    assert_eq!(cache.update(update(ops)), Err(CacheError::HeightOverflow));
    cache.update(update(vec![op(OperationType::Invalidate, u64::MAX)])).unwrap();
    assert_eq!(cache.height(), u64::MAX);
    assert_eq!(
        cache.update(update(vec![op(OperationType::Invalidate, 1), op(OperationType::Copy, u64::MAX)])),
        Err(CacheError::HeightOverflow)
    );
}

#[test]
fn height_is_the_sum_of_what_the_operations_add() {
    let mut cache = windowed();
    let ops = vec![
        op(OperationType::Copy, 4),
        op(OperationType::Skip, 2),
        insert(vec![unnumbered("n1"), unnumbered("n2"), unnumbered("n3")]),
        op(OperationType::Invalidate, 7),
        op(OperationType::Copy, 4),
    ];
    cache.update(update(ops)).unwrap();
    assert_eq!(cache.height(), 4 + 3 + 7 + 4);
    assert_eq!((cache.before(), cache.lines().len(), cache.after()), (3, 6, 9));
}

#[test]
fn annotations_come_with_the_update() {
    let mut cache = LineCache::new();
    let note = xrl::protocol::Annotation {
        ty: "selection".into(),
        ranges: vec![[0, 0, 0, 1]],
        payloads: serde_json::Value::Null,
        n: 1,
    };
    let upd = Update {
        rev: Some(3),
        operations: vec![insert(vec![unnumbered("x")])],
        annotations: vec![note.clone()],
        pristine: false,
    };
    cache.update(upd).unwrap();
    assert_eq!(cache.annotations(), &vec![note.clone()]);
    let refused = Update {
        rev: None,
        operations: vec![op(OperationType::Copy, 2)],
        annotations: vec![],
        pristine: false,
    };
    assert!(cache.update(refused).is_err());
    assert_eq!(cache.annotations(), &vec![note]);
}

#[test]
fn is_empty_means_one_line_without_text() {
    let mut cache = LineCache::new();
    cache.update(update(vec![insert(vec![unnumbered("")])])).unwrap();
    assert!(cache.is_empty());
    cache.update(update(vec![insert(vec![unnumbered("x")])])).unwrap();
    assert!(!cache.is_empty());
    cache.update(update(vec![insert(vec![unnumbered("")]), op(OperationType::Invalidate, 1)])).unwrap();
    assert!(!cache.is_empty());
    cache.update(update(vec![insert(vec![unnumbered(""), unnumbered("")])])).unwrap();
    assert!(!cache.is_empty());
}

#[test]
fn get_line_and_width_look_into_the_window() {
    let cache = windowed();
    assert_eq!(cache.get_line(2), None);
    assert_eq!(cache.get_line(3).map(|l| l.text.as_str()), Some("line1"));
    assert_eq!(cache.get_line(7).map(|l| l.text.as_str()), Some("line4"));
    assert_eq!(cache.get_line(8), None);
    assert_eq!(cache.width(), "line2 goes on".len());
    let mut cache = LineCache::new();
    cache.update(update(vec![insert(vec![unnumbered("é")])])).unwrap();
    assert_eq!(cache.width(), 2);
}

#[test]
fn get_missing_lists_what_is_not_in_the_window() {
    let cache = windowed();
    assert_eq!(cache.get_missing(0, 10), vec![(0, 3), (8, 10)]);
    assert_eq!(cache.get_missing(0, 100), vec![(0, 3), (8, 10)]);
    assert_eq!(cache.get_missing(1, 2), vec![(1, 2)]);
    assert_eq!(cache.get_missing(2, 5), vec![(2, 3)]);
    assert_eq!(cache.get_missing(3, 8), vec![]);
    assert_eq!(cache.get_missing(4, 9), vec![(8, 9)]);
    assert_eq!(cache.get_missing(9, 10), vec![(9, 10)]);
    let mut cache = LineCache::new();
    cache.update(update(vec![op(OperationType::Invalidate, 6)])).unwrap();
    assert_eq!(cache.get_missing(2, 5), vec![(2, 5)]);
}
