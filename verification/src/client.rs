//! The calls that a front-end makes on the editor core, as frames.
//!
//! Each function builds the notification or the parameters of one call.
//! Sending the frame and waiting for its outcome is left to the caller.

use serde_json::Value;
use vstd::prelude::*;
use vstd::string::StringExecFns;
use crate::json::{
    array, from_bool, from_string, from_u64, object, spec_distinct_names, spec_json, spec_jsons,
    spec_members, spec_object, Json, JsonNumber,
};
use crate::protocol::message::{Message, MessageView, Notification, Request};
use crate::protocol::view_id::{spec_wire, ViewId};

verus! {

/// What a request that is under way asked for.
#[derive(Clone, Debug, PartialEq)]
pub enum RequestData {
    /// A new view, of the file at `file_path` or of an empty buffer.
    NewView { file_path: Option<String> },
}

/// A request that was sent to the core and waits for its response.
#[derive(Clone, Debug, PartialEq)]
pub struct ActiveRequest {
    pub id: usize,
    pub data: RequestData,
}

/// The JSON string of a text.
pub open spec fn spec_string(text: Seq<char>) -> Json {
    Json::String(text)
}

/// The JSON number of a count.
pub open spec fn spec_count(n: u64) -> Json {
    Json::Number(JsonNumber::PosInt(n))
}

/// The JSON string that names a view.
pub open spec fn spec_view(view_id: ViewId) -> Json {
    Json::String(spec_wire(view_id))
}

/// The object with the given members.
pub open spec fn spec_record(members: Seq<(Seq<char>, Json)>) -> Json {
    Json::Object(spec_object(members))
}

/// The notification with the given method and parameters.
pub open spec fn spec_notify(method: Seq<char>, params: Json) -> MessageView {
    MessageView::Notification { method, params }
}

/// The edit notification that tells the view `view_id` to do `method`
/// with `params`.
pub open spec fn spec_edit(view_id: ViewId, method: Seq<char>, params: Json) -> MessageView {
    spec_notify(
        "edit"@,
        spec_record(
            seq![
                ("view_id"@, spec_view(view_id)),
                ("method"@, spec_string(method)),
                ("params"@, params),
            ],
        ),
    )
}

/// The member names that stand together in one object differ.
proof fn lemma_names()
    ensures
        "view_id"@ != "method"@,
        "view_id"@ != "params"@,
        "method"@ != "params"@,
        "config_dir"@ != "client_extras_dir"@,
        "language_id"@ != "view_id"@,
        "width"@ != "height"@,
        "file_path"@ != "view_id"@,
        "chars"@ != "case_sensitive"@,
        "chars"@ != "regex"@,
        "chars"@ != "whole_words"@,
        "case_sensitive"@ != "regex"@,
        "case_sensitive"@ != "whole_words"@,
        "regex"@ != "whole_words"@,
        "wrap_around"@ != "allow_same"@,
        "wrap_around"@ != "modify_selection"@,
        "allow_same"@ != "modify_selection"@,
{
    reveal_strlit("view_id");
    reveal_strlit("method");
    reveal_strlit("params");
    reveal_strlit("config_dir");
    reveal_strlit("client_extras_dir");
    reveal_strlit("language_id");
    reveal_strlit("width");
    reveal_strlit("height");
    reveal_strlit("file_path");
    reveal_strlit("chars");
    reveal_strlit("case_sensitive");
    reveal_strlit("regex");
    reveal_strlit("whole_words");
    reveal_strlit("wrap_around");
    reveal_strlit("allow_same");
    reveal_strlit("modify_selection");
    assert("view_id"@.len() == 7);
    assert("method"@.len() == 6 && "method"@[0] == 'm');
    assert("params"@.len() == 6 && "params"@[0] == 'p');
    assert("config_dir"@.len() == 10);
    assert("client_extras_dir"@.len() == 17);
    assert("language_id"@.len() == 11);
    assert("width"@.len() == 5);
    assert("height"@.len() == 6);
    assert("file_path"@.len() == 9);
    assert("chars"@.len() == 5 && "chars"@[0] == 'c');
    assert("case_sensitive"@.len() == 14);
    assert("regex"@.len() == 5 && "regex"@[0] == 'r');
    assert("whole_words"@.len() == 11);
    assert("wrap_around"@.len() == 11);
    assert("allow_same"@.len() == 10);
    assert("modify_selection"@.len() == 16);
}

/// A list of one member.
fn one(name: &str, value: Value) -> (r: Vec<(String, Value)>)
    ensures
        spec_members(r@) == seq![(name@, spec_json(value))],
{
    let mut members: Vec<(String, Value)> = Vec::new();
    members.push((name.to_owned(), value));
    assert(spec_members(members@) =~= seq![(name@, spec_json(value))]);
    members
}

/// A list of two members.
fn two(first: &str, a: Value, second: &str, b: Value) -> (r: Vec<(String, Value)>)
    ensures
        spec_members(r@) == seq![(first@, spec_json(a)), (second@, spec_json(b))],
{
    let mut members: Vec<(String, Value)> = Vec::new();
    members.push((first.to_owned(), a));
    members.push((second.to_owned(), b));
    assert(spec_members(members@) =~= seq![(first@, spec_json(a)), (second@, spec_json(b))]);
    members
}

/// A list of three members.
fn three(first: &str, a: Value, second: &str, b: Value, third: &str, c: Value) -> (r: Vec<
    (String, Value),
>)
    ensures
        spec_members(r@) == seq![
            (first@, spec_json(a)),
            (second@, spec_json(b)),
            (third@, spec_json(c)),
        ],
{
    let mut members: Vec<(String, Value)> = Vec::new();
    members.push((first.to_owned(), a));
    members.push((second.to_owned(), b));
    members.push((third.to_owned(), c));
    assert(spec_members(members@) =~= seq![
        (first@, spec_json(a)),
        (second@, spec_json(b)),
        (third@, spec_json(c)),
    ]);
    members
}

/// Builds a notification.
pub fn notify(method: &str, params: Value) -> (r: Notification)
    ensures
        r@ == spec_notify(method@, spec_json(params)),
{
    Notification { method: method.to_owned(), params }
}

/// Builds a request. The id is a place holder: the endpoint gives the
/// request its id when it sends it.
pub fn request(method: &str, params: Value) -> (r: Request)
    ensures
        r.id == 0,
        r.method@ == method@,
        r.params == params,
{
    Request { id: 0, method: method.to_owned(), params }
}

/// The parameters that an edit method is given: those named, or an empty
/// list.
pub open spec fn spec_given(params: Option<Value>) -> Json {
    match params {
        Some(given) => spec_json(given),
        None => Json::Array(Seq::empty()),
    }
}

/// The parameters of an edit call: the method that the view is to carry
/// out, the view, and the parameters of the method, an empty list where
/// there are none.
pub fn get_edit_params(view_id: ViewId, method: &str, params: Option<Value>) -> (r: Value)
    ensures
        spec_json(r) == spec_record(
            seq![
                ("method"@, spec_string(method@)),
                ("view_id"@, spec_view(view_id)),
                ("params"@, spec_given(params)),
            ],
        ),
{
    proof {
        lemma_names();
    }
    let params_value: Value = match params {
        Some(given) => given,
        None => {
            let none: Vec<Value> = Vec::new();
            assert(spec_jsons(none@) =~= Seq::<Json>::empty());
            array(none)
        },
    };
    let ghost given = spec_json(params_value);
    let members = three(
        "method",
        from_string(method.to_owned()),
        "view_id",
        view_id.to_value(),
        "params",
        params_value,
    );
    assert(given == spec_given(params));
    object(members)
}

/// Tells a view to carry out an edit method that takes no parameters.
pub fn simple_edit(view_id: ViewId, method: &str) -> (r: Notification)
    ensures
        r@ == spec_notify(
            "edit"@,
            spec_record(seq![("view_id"@, spec_view(view_id)), ("method"@, spec_string(method@))]),
        ),
{
    proof {
        lemma_names();
    }
    notify(
        "edit",
        object(two("view_id", view_id.to_value(), "method", from_string(method.to_owned()))),
    )
}

/// Tells a view to carry out an edit method with parameters.
pub fn edit(view_id: ViewId, method: &str, params: Value) -> (r: Notification)
    ensures
        r@ == spec_edit(view_id, method@, spec_json(params)),
{
    proof {
        lemma_names();
    }
    notify(
        "edit",
        object(
            three(
                "view_id",
                view_id.to_value(),
                "method",
                from_string(method.to_owned()),
                "params",
                params,
            ),
        ),
    )
}

/// Tells the core that the client is there, and where its configuration
/// and its extras are, as far as it has any. This is the first call of a
/// client.
pub fn client_started(conf: Option<&str>, extras: Option<&str>) -> (r: Notification)
    ensures
        r@ == spec_notify(
            "client_started"@,
            spec_record(
                (match conf {
                    Some(path) => seq![("config_dir"@, spec_string(path@))],
                    None => Seq::empty(),
                }) + (match extras {
                    Some(path) => seq![("client_extras_dir"@, spec_string(path@))],
                    None => Seq::empty(),
                }),
            ),
        ),
{
    proof {
        lemma_names();
    }
    let members: Vec<(String, Value)> = match (conf, extras) {
        (Some(conf), Some(extras)) => two(
            "config_dir",
            from_string(conf.to_owned()),
            "client_extras_dir",
            from_string(extras.to_owned()),
        ),
        (Some(conf), None) => one("config_dir", from_string(conf.to_owned())),
        (None, Some(extras)) => one("client_extras_dir", from_string(extras.to_owned())),
        (None, None) => Vec::new(),
    };
    assert(spec_members(members@) =~= (match conf {
        Some(path) => seq![("config_dir"@, spec_string(path@))],
        None => Seq::empty(),
    }) + (match extras {
        Some(path) => seq![("client_extras_dir"@, spec_string(path@))],
        None => Seq::empty(),
    }));
    notify("client_started", object(members))
}

/// The request for a new view, of the file at `file_path` or of an empty
/// buffer.
pub fn new_view(file_path: Option<&str>) -> (r: Request)
    ensures
        r.id == 0,
        r.method@ == "new_view"@,
        spec_json(r.params) == spec_record(
            match file_path {
                Some(path) => seq![("file_path"@, spec_string(path@))],
                None => Seq::empty(),
            },
        ),
{
    let mut members: Vec<(String, Value)> = Vec::new();
    assert(spec_members(members@) =~= Seq::empty());
    if let Some(path) = file_path {
        members = one("file_path", from_string(path.to_owned()));
    }
    request("new_view", object(members))
}

/// Sets the theme of the editor.
pub fn set_theme(theme: &str) -> (r: Notification)
    ensures
        r@ == spec_notify(
            "set_theme"@,
            spec_record(seq![("theme_name"@, spec_string(theme@))]),
        ),
{
    notify("set_theme", object(one("theme_name", from_string(theme.to_owned()))))
}

/// Sets the language of a view.
pub fn set_language(view_id: ViewId, lang: &str) -> (r: Notification)
    ensures
        r@ == spec_notify(
            "set_language"@,
            spec_record(seq![("language_id"@, spec_string(lang@)), ("view_id"@, spec_view(view_id))]),
        ),
{
    proof {
        lemma_names();
    }
    notify(
        "set_language",
        object(two("language_id", from_string(lang.to_owned()), "view_id", view_id.to_value())),
    )
}

/// Tells the core which lines of a view are on screen: from the line
/// `first` up to the line `last`.
pub fn scroll(view_id: ViewId, first: u64, last: u64) -> (r: Notification)
    ensures
        r@ == spec_edit(view_id, "scroll"@, Json::Array(seq![spec_count(first), spec_count(last)])),
{
    let mut lines: Vec<Value> = Vec::new();
    lines.push(from_u64(first));
    lines.push(from_u64(last));
    assert(spec_jsons(lines@) =~= seq![spec_count(first), spec_count(last)]);
    edit(view_id, "scroll", array(lines))
}

/// Tells the core the size of the window of a view.
pub fn resize(view_id: ViewId, width: u64, height: u64) -> (r: Notification)
    ensures
        r@ == spec_edit(
            view_id,
            "resize"@,
            spec_record(seq![("width"@, spec_count(width)), ("height"@, spec_count(height))]),
        ),
{
    proof {
        lemma_names();
    }
    edit(view_id, "resize", object(two("width", from_u64(width), "height", from_u64(height))))
}

/// Saves a view to the file at `file_path`.
pub fn save(view_id: ViewId, file_path: &str) -> (r: Notification)
    ensures
        r@ == spec_notify(
            "save"@,
            spec_record(
                seq![("file_path"@, spec_string(file_path@)), ("view_id"@, spec_view(view_id))],
            ),
        ),
{
    proof {
        lemma_names();
    }
    notify(
        "save",
        object(two("file_path", from_string(file_path.to_owned()), "view_id", view_id.to_value())),
    )
}

/// Searches a view for `query`.
pub fn find(view_id: ViewId, query: &str, case: bool, regex: bool, words: bool) -> (r: Notification)
    ensures
        r@ == spec_edit(
            view_id,
            "find"@,
            spec_record(
                seq![
                    ("chars"@, spec_string(query@)),
                    ("case_sensitive"@, Json::Bool(case)),
                    ("regex"@, Json::Bool(regex)),
                    ("whole_words"@, Json::Bool(words)),
                ],
            ),
        ),
{
    proof {
        lemma_names();
    }
    let mut members = three(
        "chars",
        from_string(query.to_owned()),
        "case_sensitive",
        from_bool(case),
        "regex",
        from_bool(regex),
    );
    let ghost before = members@;
    members.push(("whole_words".to_owned(), from_bool(words)));
    assert(spec_members(members@) =~= spec_members(before).push(
        ("whole_words"@, Json::Bool(words)),
    ));
    assert(spec_members(members@) =~= seq![
        ("chars"@, spec_string(query@)),
        ("case_sensitive"@, Json::Bool(case)),
        ("regex"@, Json::Bool(regex)),
        ("whole_words"@, Json::Bool(words)),
    ]);
    edit(view_id, "find", object(members))
}

/// Moves to the next match of the search.
pub fn find_next(view_id: ViewId, wrap_around: bool, modify_selection: bool) -> (r: Notification)
    ensures
        r@ == spec_edit(
            view_id,
            "find_next"@,
            spec_record(
                seq![
                    ("wrap_around"@, Json::Bool(wrap_around)),
                    ("modify_selection"@, Json::Bool(modify_selection)),
                ],
            ),
        ),
{
    proof {
        lemma_names();
    }
    edit(
        view_id,
        "find_next",
        object(
            two("wrap_around", from_bool(wrap_around), "modify_selection", from_bool(modify_selection)),
        ),
    )
}

/// Moves to the previous match of the search.
pub fn find_prev(
    view_id: ViewId,
    wrap_around: bool,
    allow_same: bool,
    modify_selection: bool,
) -> (r: Notification)
    ensures
        r@ == spec_edit(
            view_id,
            "find_prev"@,
            spec_record(
                seq![
                    ("wrap_around"@, Json::Bool(wrap_around)),
                    ("allow_same"@, Json::Bool(allow_same)),
                    ("modify_selection"@, Json::Bool(modify_selection)),
                ],
            ),
        ),
{
    proof {
        lemma_names();
    }
    edit(
        view_id,
        "find_prev",
        object(
            three(
                "wrap_around",
                from_bool(wrap_around),
                "allow_same",
                from_bool(allow_same),
                "modify_selection",
                from_bool(modify_selection),
            ),
        ),
    )
}

/// Shows or hides the matches of the search.
pub fn highlight_find(view_id: ViewId, visible: bool) -> (r: Notification)
    ensures
        r@ == spec_edit(
            view_id,
            "highlight_find"@,
            spec_record(seq![("visible"@, Json::Bool(visible))]),
        ),
{
    edit(view_id, "highlight_find", object(one("visible", from_bool(visible))))
}

/// Types `data` into a view.
pub fn insert(view_id: ViewId, data: &str) -> (r: Notification)
    ensures
        r@ == spec_notify(
            "edit"@,
            spec_record(
                seq![
                    ("method"@, spec_string("insert"@)),
                    ("view_id"@, spec_view(view_id)),
                    ("params"@, spec_record(seq![("chars"@, spec_string(data@))])),
                ],
            ),
        ),
{
    let chars = object(one("chars", from_string(data.to_owned())));
    notify("edit", get_edit_params(view_id, "insert", Some(chars)))
}

} // verus!
