//! Request bodies, built as JSON trees. Text sent to the service travels in
//! its rich-text document form: one paragraph holding one text node.
use vstd::prelude::*;
use crate::client::CreateIssueData;
use crate::json::JsonValue;

verus! {

/// A string value with these characters.
pub open spec fn is_str(j: JsonValue, s: Seq<char>) -> bool {
    j matches JsonValue::Str(x) && x@ == s
}

/// Member `i` of the member list is named `key`.
pub open spec fn named(ms: Seq<(String, JsonValue)>, i: int, key: Seq<char>) -> bool {
    0 <= i < ms.len() && ms[i].0@ == key
}

/// An object with the single member `key` holding the string `s`.
pub open spec fn is_single_text(j: JsonValue, key: Seq<char>, s: Seq<char>) -> bool {
    j matches JsonValue::Object(ms) && ms@.len() == 1 && named(ms@, 0, key) && is_str(ms@[0].1, s)
}

/// An array with a single element.
pub open spec fn single_element(j: JsonValue) -> Option<JsonValue> {
    match j {
        JsonValue::Array(v) => if v@.len() == 1 { Some(v@[0]) } else { None },
        _ => None,
    }
}

/// `{"type": "text", "text": text}`.
pub open spec fn is_text_node(j: JsonValue, text: Seq<char>) -> bool {
    j matches JsonValue::Object(ms) && ms@.len() == 2 && named(ms@, 0, "type"@) && is_str(ms@[0].1, "text"@)
        && named(ms@, 1, "text"@) && is_str(ms@[1].1, text)
}

/// `{"type": "paragraph", "content": [text node]}`.
pub open spec fn is_paragraph(j: JsonValue, text: Seq<char>) -> bool {
    match j {
        JsonValue::Object(ms) => {
            &&& ms@.len() == 2
            &&& named(ms@, 0, "type"@) && is_str(ms@[0].1, "paragraph"@)
            &&& named(ms@, 1, "content"@)
            &&& match single_element(ms@[1].1) {
                Some(n) => is_text_node(n, text),
                None => false,
            }
        },
        _ => false,
    }
}

/// `{"type": "doc", "version": 1, "content": [paragraph]}`.
pub open spec fn is_document(j: JsonValue, text: Seq<char>) -> bool {
    match j {
        JsonValue::Object(ms) => {
            &&& ms@.len() == 3
            &&& named(ms@, 0, "type"@) && is_str(ms@[0].1, "doc"@)
            &&& named(ms@, 1, "version"@)
            &&& ms@[1].1 matches JsonValue::Number(n) && n@ == "1"@
            &&& named(ms@, 2, "content"@)
            &&& match single_element(ms@[2].1) {
                Some(p) => is_paragraph(p, text),
                None => false,
            }
        },
        _ => false,
    }
}

/// An object with the single member `key`.
pub open spec fn only_member(j: JsonValue, key: Seq<char>) -> Option<JsonValue> {
    match j {
        JsonValue::Object(ms) => if ms@.len() == 1 && named(ms@, 0, key) { Some(ms@[0].1) } else { None },
        _ => None,
    }
}

fn string_member(key: &str, value: String) -> (r: (String, JsonValue))
    ensures
        r.0@ == key@,
        is_str(r.1, value@),
{
    (String::from_str(key), JsonValue::Str(value))
}

fn single_array(item: JsonValue) -> (r: JsonValue)
    ensures
        single_element(r) == Some(item),
{
    let mut v: Vec<JsonValue> = Vec::new();
    v.push(item);
    JsonValue::Array(v)
}

fn single_text_object(key: &str, value: String) -> (r: JsonValue)
    ensures
        is_single_text(r, key@, value@),
{
    let mut ms: Vec<(String, JsonValue)> = Vec::new();
    ms.push(string_member(key, value));
    JsonValue::Object(ms)
}

/// The rich-text document holding `text` as one paragraph.
pub fn text_document(text: String) -> (r: JsonValue)
    ensures
        is_document(r, text@),
{
    let mut node: Vec<(String, JsonValue)> = Vec::new();
    node.push(string_member("type", String::from_str("text")));
    node.push(string_member("text", text));
    let mut para: Vec<(String, JsonValue)> = Vec::new();
    para.push(string_member("type", String::from_str("paragraph")));
    para.push((String::from_str("content"), single_array(JsonValue::Object(node))));
    let mut doc: Vec<(String, JsonValue)> = Vec::new();
    doc.push(string_member("type", String::from_str("doc")));
    doc.push((String::from_str("version"), JsonValue::Number(String::from_str("1"))));
    doc.push((String::from_str("content"), single_array(JsonValue::Object(para))));
    JsonValue::Object(doc)
}

/// The `fields` object of a new issue: project, summary and issue type, then
/// description, assignee and priority for those that are given, in that order.
pub open spec fn is_create_fields(j: JsonValue, d: CreateIssueData) -> bool {
    let nd: int = if d.description is Some { 1 } else { 0 };
    let na: int = if d.assignee is Some { 1 } else { 0 };
    let np: int = if d.priority is Some { 1 } else { 0 };
    j matches JsonValue::Object(ms) && {
        &&& ms@.len() == 3 + nd + na + np
        &&& named(ms@, 0, "project"@) && is_single_text(ms@[0].1, "key"@, d.project_key@)
        &&& named(ms@, 1, "summary"@) && is_str(ms@[1].1, d.summary@)
        &&& named(ms@, 2, "issuetype"@) && is_single_text(ms@[2].1, "name"@, d.issue_type@)
        &&& d.description matches Some(t) ==> named(ms@, 3, "description"@) && is_document(ms@[3].1, t@)
        &&& d.assignee matches Some(a) ==> named(ms@, 3 + nd, "assignee"@) && is_single_text(
            ms@[3 + nd].1,
            "accountId"@,
            a@,
        )
        &&& d.priority matches Some(p) ==> named(ms@, 3 + nd + na, "priority"@) && is_single_text(
            ms@[3 + nd + na].1,
            "name"@,
            p@,
        )
    }
}

/// The body that creates an issue: `{"fields": ...}`.
pub fn create_issue_body(data: CreateIssueData) -> (r: JsonValue)
    ensures
        r matches JsonValue::Object(ms) && ms@.len() == 1 && named(ms@, 0, "fields"@)
            && is_create_fields(ms@[0].1, data),
{
    let ghost d = data;
    let mut fs: Vec<(String, JsonValue)> = Vec::new();
    fs.push((String::from_str("project"), single_text_object("key", data.project_key)));
    fs.push(string_member("summary", data.summary));
    fs.push((String::from_str("issuetype"), single_text_object("name", data.issue_type)));
    match data.description {
        Some(t) => {
            fs.push((String::from_str("description"), text_document(t)));
        },
        None => {},
    }
    let ghost after_description = fs@;
    match data.assignee {
        Some(a) => {
            fs.push((String::from_str("assignee"), single_text_object("accountId", a)));
        },
        None => {},
    }
    let ghost after_assignee = fs@;
    match data.priority {
        Some(p) => {
            fs.push((String::from_str("priority"), single_text_object("name", p)));
        },
        None => {},
    }
    let fields = JsonValue::Object(fs);
    assert(is_create_fields(fields, d));
    let mut body: Vec<(String, JsonValue)> = Vec::new();
    body.push((String::from_str("fields"), fields));
    JsonValue::Object(body)
}

/// The body that executes transition `id`, with an optional comment:
/// `{"transition": {"id": id}}`, plus `{"update": {"comment": [{"add":
/// {"body": document}}]}}` when there is a comment.
pub open spec fn is_transition_body(j: JsonValue, id: Seq<char>, comment: Option<String>) -> bool {
    match j {
        JsonValue::Object(ms) => {
            &&& named(ms@, 0, "transition"@) && is_single_text(ms@[0].1, "id"@, id)
            &&& match comment {
                None => ms@.len() == 1,
                Some(c) => {
                    &&& ms@.len() == 2
                    &&& named(ms@, 1, "update"@)
                    &&& match only_member(ms@[1].1, "comment"@) {
                        Some(list) => match single_element(list) {
                            Some(entry) => match only_member(entry, "add"@) {
                                Some(add) => match only_member(add, "body"@) {
                                    Some(doc) => is_document(doc, c@),
                                    None => false,
                                },
                                None => false,
                            },
                            None => false,
                        },
                        None => false,
                    }
                },
            }
        },
        _ => false,
    }
}

pub fn transition_body(transition_id: &str, comment: Option<String>) -> (r: JsonValue)
    ensures
        is_transition_body(r, transition_id@, comment),
{
    let ghost c = comment;
    let mut ms: Vec<(String, JsonValue)> = Vec::new();
    ms.push((String::from_str("transition"), single_text_object("id", String::from_str(transition_id))));
    match comment {
        Some(text) => {
            let mut body: Vec<(String, JsonValue)> = Vec::new();
            body.push((String::from_str("body"), text_document(text)));
            let mut add: Vec<(String, JsonValue)> = Vec::new();
            add.push((String::from_str("add"), JsonValue::Object(body)));
            let mut update: Vec<(String, JsonValue)> = Vec::new();
            update.push((String::from_str("comment"), single_array(JsonValue::Object(add))));
            ms.push((String::from_str("update"), JsonValue::Object(update)));
        },
        None => {},
    }
    JsonValue::Object(ms)
}

/// The body that adds a comment: `{"body": document}`.
pub fn comment_body(text: String) -> (r: JsonValue)
    ensures
        r matches JsonValue::Object(ms) && ms@.len() == 1 && named(ms@, 0, "body"@) && is_document(
            ms@[0].1,
            text@,
        ),
{
    let mut ms: Vec<(String, JsonValue)> = Vec::new();
    ms.push((String::from_str("body"), text_document(text)));
    JsonValue::Object(ms)
}

} // verus!
