//! Mapping of the service's JSON answers onto the domain entities. Required
//! fields that are missing fail with a parse error naming them; optional ones
//! fall back to defaults; one bad entry of a batch is dropped, not fatal.
use vstd::prelude::*;
use crate::adf::{member_text, nodes_parts, join_lines, texts, extract_text_from_adf, join_with_newlines};
use crate::error::LazyJiraError;
use crate::json::JsonValue;
use crate::models::{Comment, CommentView, Priority, Status, StatusCategory, StatusView, Ticket, TicketView, Transition, TransitionView, User, UserView};
use crate::text::str_eq;
use crate::time::{Timestamp, formatted_instant, rfc3339_instant, parse_formatted_instant, parse_rfc3339_instant};

verus! {

/// The service's timestamp format, with a numeric offset.
pub const OFFSET_FORMAT: &'static str = "%Y-%m-%dT%H:%M:%S%.3f%z";

/// The same format without an offset.
pub const LOCAL_FORMAT: &'static str = "%Y-%m-%dT%H:%M:%S%.3f";

/// What a parse produced, with entities seen through their views and errors
/// through their text.
pub open spec fn outcome<T: View>(r: Result<T, LazyJiraError>) -> Result<T::V, Seq<char>> {
    match r {
        Ok(v) => Ok(v@),
        Err(e) => Err(e.detail_spec()),
    }
}

/// The instant a timestamp denotes: the offset format first, then the format
/// without offset, then relaxed RFC 3339.
pub open spec fn instant_of(s: Seq<char>) -> Option<i64> {
    match formatted_instant(s, OFFSET_FORMAT@) {
        Some(m) => Some(m),
        None => match formatted_instant(s, LOCAL_FORMAT@) {
            Some(m) => Some(m),
            None => rfc3339_instant(s),
        },
    }
}

/// The timestamp in member `name`, or the message of the failure.
pub open spec fn datetime_spec(j: JsonValue, name: Seq<char>) -> Result<Timestamp, Seq<char>> {
    match member_text(j, name) {
        None => Err("Missing '"@ + name + "' field"@),
        Some(s) => match instant_of(s) {
            Some(m) => Ok(Timestamp { millis: m }),
            None => Err("Failed to parse "@ + name + " datetime '"@ + s + "'"@),
        },
    }
}

pub open spec fn category_of_key(k: Seq<char>) -> Option<StatusCategory> {
    if k == "new"@ {
        Some(StatusCategory::ToDo)
    } else if k == "indeterminate"@ {
        Some(StatusCategory::InProgress)
    } else if k == "done"@ {
        Some(StatusCategory::Done)
    } else {
        None
    }
}

/// The text of `statusCategory.key` of a status object.
pub open spec fn category_key(status: JsonValue) -> Option<Seq<char>> {
    match status.field("statusCategory"@) {
        Some(sc) => member_text(sc, "key"@),
        None => None,
    }
}

pub open spec fn status_spec(fields: JsonValue) -> Result<StatusView, Seq<char>> {
    match fields.field("status"@) {
        None => Err("Missing 'status' field"@),
        Some(st) => match member_text(st, "id"@) {
            None => Err("Missing status 'id' field"@),
            Some(id) => match member_text(st, "name"@) {
                None => Err("Missing status 'name' field"@),
                Some(name) => match category_key(st) {
                    None => Err("Missing 'statusCategory.key' field"@),
                    Some(k) => match category_of_key(k) {
                        Some(c) => Ok(StatusView { id, name, category: c }),
                        None => Err("Unknown status category: "@ + k),
                    },
                },
            },
        },
    }
}

pub open spec fn priority_named(n: Seq<char>) -> Option<Priority> {
    if n == "Lowest"@ {
        Some(Priority::Lowest)
    } else if n == "Low"@ {
        Some(Priority::Low)
    } else if n == "Medium"@ {
        Some(Priority::Medium)
    } else if n == "High"@ {
        Some(Priority::High)
    } else if n == "Highest"@ {
        Some(Priority::Highest)
    } else if n == "Critical"@ {
        Some(Priority::Critical)
    } else {
        None
    }
}

/// The numeric-id lookup table used when the name is not recognized.
pub open spec fn priority_by_id(id: Seq<char>) -> Priority {
    if id == "1"@ {
        Priority::Lowest
    } else if id == "2"@ {
        Priority::Low
    } else if id == "4"@ {
        Priority::High
    } else if id == "5"@ {
        Priority::Highest
    } else {
        Priority::Medium
    }
}

/// Absent: Medium; named: that level; otherwise the id table, then Medium.
pub open spec fn priority_spec(fields: JsonValue) -> Priority {
    match fields.field("priority"@) {
        None => Priority::Medium,
        Some(p) => {
            let name = match member_text(p, "name"@) {
                Some(n) => n,
                None => "Medium"@,
            };
            match priority_named(name) {
                Some(level) => level,
                None => priority_by_id(
                    match member_text(p, "id"@) {
                        Some(i) => i,
                        None => "3"@,
                    },
                ),
            }
        },
    }
}

/// A user object: an account id is required, the display name defaults to
/// "Unknown", the email address is optional.
pub open spec fn user_spec(u: JsonValue) -> Option<UserView> {
    match member_text(u, "accountId"@) {
        None => None,
        Some(account_id) => Some(
            UserView {
                account_id,
                display_name: match member_text(u, "displayName"@) {
                    Some(d) => d,
                    None => "Unknown"@,
                },
                email_address: member_text(u, "emailAddress"@),
            },
        ),
    }
}

pub open spec fn assignee_spec(fields: JsonValue) -> Result<Option<UserView>, Seq<char>> {
    match fields.field("assignee"@) {
        None => Ok(None),
        Some(a) => {
            if a is Null {
                Ok(None)
            } else {
                match user_spec(a) {
                    Some(u) => Ok(Some(u)),
                    None => Err("Missing assignee 'accountId' field"@),
                }
            }
        },
    }
}

/// The `name` of object `key`: the two messages say which part is missing.
pub open spec fn named_spec(fields: JsonValue, key: Seq<char>) -> Result<Seq<char>, Seq<char>> {
    match fields.field(key) {
        None => Err("Missing '"@ + key + "' field"@),
        Some(o) => match member_text(o, "name"@) {
            Some(n) => Ok(n),
            None => Err("Missing "@ + key + " 'name' field"@),
        },
    }
}

pub open spec fn project_key_spec(fields: JsonValue) -> Result<Seq<char>, Seq<char>> {
    match fields.field("project"@) {
        None => Err("Missing 'project' field"@),
        Some(o) => match member_text(o, "key"@) {
            Some(n) => Ok(n),
            None => Err("Missing project 'key' field"@),
        },
    }
}

/// The pieces of text of a rich-text value's `content`, when it is an array.
pub open spec fn doc_parts(doc: JsonValue) -> Seq<Seq<char>> {
    match doc.field("content"@) {
        Some(JsonValue::Array(nodes)) => nodes_parts(nodes@),
        _ => Seq::empty(),
    }
}

/// Absent, null, without content or with no text: nothing; otherwise the
/// flattened text.
pub open spec fn description_spec(fields: JsonValue) -> Option<Seq<char>> {
    match fields.field("description"@) {
        None => None,
        Some(d) => {
            if d is Null || doc_parts(d).len() == 0 {
                None
            } else {
                Some(join_lines(doc_parts(d)))
            }
        },
    }
}

pub open spec fn issue_spec(j: JsonValue) -> Result<TicketView, Seq<char>> {
    match member_text(j, "key"@) {
        None => Err("Missing 'key' field"@),
        Some(key) => match member_text(j, "id"@) {
            None => Err("Missing 'id' field"@),
            Some(id) => match j.field("fields"@) {
                None => Err("Missing 'fields' object"@),
                Some(f) => match member_text(f, "summary"@) {
                    None => Err("Missing 'summary' field"@),
                    Some(summary) => match status_spec(f) {
                        Err(m) => Err(m),
                        Ok(status) => match assignee_spec(f) {
                            Err(m) => Err(m),
                            Ok(assignee) => match named_spec(f, "issuetype"@) {
                                Err(m) => Err(m),
                                Ok(issue_type) => match project_key_spec(f) {
                                    Err(m) => Err(m),
                                    Ok(project_key) => match datetime_spec(f, "created"@) {
                                        Err(m) => Err(m),
                                        Ok(created) => match datetime_spec(f, "updated"@) {
                                            Err(m) => Err(m),
                                            Ok(updated) => Ok(
                                                TicketView {
                                                    id,
                                                    key,
                                                    summary,
                                                    status,
                                                    assignee,
                                                    priority: priority_spec(f),
                                                    issue_type,
                                                    project_key,
                                                    description: description_spec(f),
                                                    created,
                                                    updated,
                                                },
                                            ),
                                        },
                                    },
                                },
                            },
                        },
                    },
                },
            },
        },
    }
}

/// Parsing an issue keeps the status category its `statusCategory.key`
/// names: "new" gives to-do, "indeterminate" in progress and "done" done.
pub proof fn lemma_category_follows_key(j: JsonValue)
    requires
        issue_spec(j) is Ok,
    ensures
        ({
            let status = j.field("fields"@)->0.field("status"@)->0;
            let category = issue_spec(j)->Ok_0.status.category;
            &&& category_key(status) == Some("new"@) ==> category == StatusCategory::ToDo
            &&& category_key(status) == Some("indeterminate"@) ==> category == StatusCategory::InProgress
            &&& category_key(status) == Some("done"@) ==> category == StatusCategory::Done
        }),
{
    let f = j.field("fields"@)->0;
    assert(j.field("fields"@) is Some);
    assert(status_spec(f) is Ok);
    assert(issue_spec(j)->Ok_0.status == status_spec(f)->Ok_0);
    let st = f.field("status"@)->0;
    assert(status_spec(f)->Ok_0.category == category_of_key(category_key(st)->0)->0);
    reveal_strlit("new");
    reveal_strlit("indeterminate");
    reveal_strlit("done");
    assert("indeterminate"@ != "new"@) by {
        assert("indeterminate"@[0] != "new"@[0]);
    }
    assert("done"@ != "new"@) by {
        assert("done"@[0] != "new"@[0]);
    }
    assert("done"@ != "indeterminate"@) by {
        assert("done"@[0] != "indeterminate"@[0]);
    }
}

/// The string member `key` of `j`.
pub fn member_str<'a>(j: &'a JsonValue, key: &str) -> (r: Option<&'a str>)
    ensures
        r matches Some(s) ==> member_text(*j, key@) == Some(s@),
        r is None ==> member_text(*j, key@) is None,
{
    match j.get(key) {
        Some(v) => v.as_str(),
        None => None,
    }
}

/// A parse error carrying `msg`.
fn parse_error(msg: String) -> (r: LazyJiraError)
    ensures
        r == LazyJiraError::Parse(msg),
{
    LazyJiraError::Parse(msg)
}

/// Reads the instant of a timestamp text, trying the three accepted forms.
pub fn parse_instant(s: &str) -> (r: Option<i64>)
    ensures
        r == instant_of(s@),
{
    match parse_formatted_instant(s, OFFSET_FORMAT) {
        Some(m) => Some(m),
        None => match parse_formatted_instant(s, LOCAL_FORMAT) {
            Some(m) => Some(m),
            None => parse_rfc3339_instant(s),
        },
    }
}

/// Reads the timestamp in member `field_name` of `j`.
pub fn parse_datetime(j: &JsonValue, field_name: &str) -> (r: Result<Timestamp, LazyJiraError>)
    ensures
        r matches Err(e) ==> e is Parse,
        r matches Ok(t) ==> datetime_spec(*j, field_name@) == Ok::<Timestamp, Seq<char>>(t),
        r matches Err(e) ==> datetime_spec(*j, field_name@) == Err::<Timestamp, Seq<char>>(
            e.detail_spec(),
        ),
{
    match member_str(j, field_name) {
        None => Err(
            parse_error(
                String::from_str("Missing '").concat(field_name).concat("' field"),
            ),
        ),
        Some(s) => match parse_instant(s) {
            Some(m) => Ok(Timestamp { millis: m }),
            None => Err(
                parse_error(
                    String::from_str("Failed to parse ").concat(field_name).concat(
                        " datetime '",
                    ).concat(s).concat("'"),
                ),
            ),
        },
    }
}

/// Maps a status-category key onto the closed classification.
pub fn status_category_from_key(k: &str) -> (r: Option<StatusCategory>)
    ensures
        r == category_of_key(k@),
{
    if str_eq(k, "new") {
        Some(StatusCategory::ToDo)
    } else if str_eq(k, "indeterminate") {
        Some(StatusCategory::InProgress)
    } else if str_eq(k, "done") {
        Some(StatusCategory::Done)
    } else {
        None
    }
}

fn parse_status(fields: &JsonValue) -> (r: Result<Status, LazyJiraError>)
    ensures
        r matches Err(e) ==> e is Parse,
        outcome(r) == status_spec(*fields),
{
    let st = match fields.get("status") {
        Some(st) => st,
        None => {
            return Err(parse_error(String::from_str("Missing 'status' field")));
        },
    };
    let id = match member_str(st, "id") {
        Some(s) => String::from_str(s),
        None => {
            return Err(parse_error(String::from_str("Missing status 'id' field")));
        },
    };
    let name = match member_str(st, "name") {
        Some(s) => String::from_str(s),
        None => {
            return Err(parse_error(String::from_str("Missing status 'name' field")));
        },
    };
    let key = match st.get("statusCategory") {
        Some(sc) => member_str(sc, "key"),
        None => None,
    };
    let key = match key {
        Some(k) => k,
        None => {
            return Err(parse_error(String::from_str("Missing 'statusCategory.key' field")));
        },
    };
    match status_category_from_key(key) {
        Some(category) => Ok(Status { id, name, category }),
        None => Err(parse_error(String::from_str("Unknown status category: ").concat(key))),
    }
}

/// Maps a priority name onto its level.
pub fn priority_from_name(n: &str) -> (r: Option<Priority>)
    ensures
        r == priority_named(n@),
{
    if str_eq(n, "Lowest") {
        Some(Priority::Lowest)
    } else if str_eq(n, "Low") {
        Some(Priority::Low)
    } else if str_eq(n, "Medium") {
        Some(Priority::Medium)
    } else if str_eq(n, "High") {
        Some(Priority::High)
    } else if str_eq(n, "Highest") {
        Some(Priority::Highest)
    } else if str_eq(n, "Critical") {
        Some(Priority::Critical)
    } else {
        None
    }
}

/// Maps a priority id onto its level, Medium when unknown.
pub fn priority_from_id(id: &str) -> (r: Priority)
    ensures
        r == priority_by_id(id@),
{
    if str_eq(id, "1") {
        Priority::Lowest
    } else if str_eq(id, "2") {
        Priority::Low
    } else if str_eq(id, "4") {
        Priority::High
    } else if str_eq(id, "5") {
        Priority::Highest
    } else {
        Priority::Medium
    }
}

fn parse_priority(fields: &JsonValue) -> (r: Priority)
    ensures
        r == priority_spec(*fields),
{
    match fields.get("priority") {
        None => Priority::Medium,
        Some(p) => {
            let name = match member_str(p, "name") {
                Some(n) => n,
                None => "Medium",
            };
            match priority_from_name(name) {
                Some(level) => level,
                None => {
                    let id = match member_str(p, "id") {
                        Some(i) => i,
                        None => "3",
                    };
                    priority_from_id(id)
                },
            }
        },
    }
}

/// Reads a user object; nothing when it has no account id.
pub fn parse_user(u: &JsonValue) -> (r: Option<User>)
    ensures
        r matches Some(x) ==> user_spec(*u) == Some(x@),
        r is None ==> user_spec(*u) is None,
{
    let account_id = match member_str(u, "accountId") {
        Some(s) => String::from_str(s),
        None => {
            return None;
        },
    };
    let display_name = match member_str(u, "displayName") {
        Some(s) => String::from_str(s),
        None => String::from_str("Unknown"),
    };
    let email_address = match member_str(u, "emailAddress") {
        Some(s) => Some(String::from_str(s)),
        None => None,
    };
    Some(User { account_id, display_name, email_address })
}

fn parse_assignee(fields: &JsonValue) -> (r: Result<Option<User>, LazyJiraError>)
    ensures
        r matches Err(e) ==> e is Parse,
        r matches Ok(u) ==> assignee_spec(*fields) == Ok::<Option<UserView>, Seq<char>>(
            crate::models::opt_user_view(u),
        ),
        r matches Err(e) ==> assignee_spec(*fields) == Err::<Option<UserView>, Seq<char>>(
            e.detail_spec(),
        ),
{
    match fields.get("assignee") {
        None => Ok(None),
        Some(a) => {
            if a.is_null() {
                Ok(None)
            } else {
                match parse_user(a) {
                    Some(u) => Ok(Some(u)),
                    None => Err(parse_error(String::from_str("Missing assignee 'accountId' field"))),
                }
            }
        },
    }
}

/// Reads the `name` of object `key` (the issue type).
fn parse_named(fields: &JsonValue, key: &str) -> (r: Result<String, LazyJiraError>)
    ensures
        r matches Err(e) ==> e is Parse,
        outcome(r) == named_spec(*fields, key@),
{
    match fields.get(key) {
        None => Err(parse_error(String::from_str("Missing '").concat(key).concat("' field"))),
        Some(o) => match member_str(o, "name") {
            Some(n) => Ok(String::from_str(n)),
            None => Err(parse_error(String::from_str("Missing ").concat(key).concat(" 'name' field"))),
        },
    }
}

fn parse_issue_type(fields: &JsonValue) -> (r: Result<String, LazyJiraError>)
    ensures
        r matches Err(e) ==> e is Parse,
        outcome(r) == named_spec(*fields, "issuetype"@),
{
    parse_named(fields, "issuetype")
}

fn parse_project_key(fields: &JsonValue) -> (r: Result<String, LazyJiraError>)
    ensures
        r matches Err(e) ==> e is Parse,
        outcome(r) == project_key_spec(*fields),
{
    match fields.get("project") {
        None => Err(parse_error(String::from_str("Missing 'project' field"))),
        Some(o) => match member_str(o, "key") {
            Some(n) => Ok(String::from_str(n)),
            None => Err(parse_error(String::from_str("Missing project 'key' field"))),
        },
    }
}

/// The flattened text of a rich-text value's `content` array.
fn doc_text_parts(doc: &JsonValue) -> (r: Vec<String>)
    ensures
        texts(r@) == doc_parts(*doc),
{
    let mut parts: Vec<String> = Vec::new();
    match doc.get("content") {
        Some(c) => match c {
            JsonValue::Array(nodes) => {
                extract_text_from_adf(nodes, &mut parts);
                assert(texts(parts@) =~= doc_parts(*doc));
            },
            _ => {
                assert(texts(parts@) =~= doc_parts(*doc));
            },
        },
        None => {
            assert(texts(parts@) =~= doc_parts(*doc));
        },
    }
    parts
}

fn parse_description(fields: &JsonValue) -> (r: Option<String>)
    ensures
        crate::text::opt_view(r) == description_spec(*fields),
{
    match fields.get("description") {
        None => None,
        Some(d) => {
            if d.is_null() {
                return None;
            }
            let parts = doc_text_parts(d);
            if parts.len() == 0 {
                None
            } else {
                Some(join_with_newlines(&parts))
            }
        },
    }
}

/// Reads an issue: identity, summary, status, issue type, project key and
/// both timestamps are required; priority, assignee and description are not.
pub fn parse_issue(json: &JsonValue) -> (r: Result<Ticket, LazyJiraError>)
    ensures
        r matches Err(e) ==> e is Parse,
        outcome(r) == issue_spec(*json),
{
    let key = match member_str(json, "key") {
        Some(s) => String::from_str(s),
        None => {
            return Err(parse_error(String::from_str("Missing 'key' field")));
        },
    };
    let id = match member_str(json, "id") {
        Some(s) => String::from_str(s),
        None => {
            return Err(parse_error(String::from_str("Missing 'id' field")));
        },
    };
    let fields = match json.get("fields") {
        Some(f) => f,
        None => {
            return Err(parse_error(String::from_str("Missing 'fields' object")));
        },
    };
    let summary = match member_str(fields, "summary") {
        Some(s) => String::from_str(s),
        None => {
            return Err(parse_error(String::from_str("Missing 'summary' field")));
        },
    };
    let status = match parse_status(fields) {
        Ok(s) => s,
        Err(e) => {
            return Err(e);
        },
    };
    let priority = parse_priority(fields);
    let assignee = match parse_assignee(fields) {
        Ok(a) => a,
        Err(e) => {
            return Err(e);
        },
    };
    let issue_type = match parse_issue_type(fields) {
        Ok(t) => t,
        Err(e) => {
            return Err(e);
        },
    };
    let project_key = match parse_project_key(fields) {
        Ok(k) => k,
        Err(e) => {
            return Err(e);
        },
    };
    let description = parse_description(fields);
    let created = match parse_datetime(fields, "created") {
        Ok(t) => t,
        Err(e) => {
            return Err(e);
        },
    };
    let updated = match parse_datetime(fields, "updated") {
        Ok(t) => t,
        Err(e) => {
            return Err(e);
        },
    };
    Ok(
        Ticket {
            id,
            key,
            summary,
            status,
            assignee,
            priority,
            issue_type,
            project_key,
            description,
            created,
            updated,
        },
    )
}


/// A comment entry: id, author with account id and a readable `created` are
/// required; the body is the flattened text of its `body` document.
pub open spec fn comment_spec(e: JsonValue) -> Option<CommentView> {
    match member_text(e, "id"@) {
        None => None,
        Some(id) => match e.field("author"@) {
            None => None,
            Some(a) => match user_spec(a) {
                None => None,
                Some(author) => match datetime_spec(e, "created"@) {
                    Err(_) => None,
                    Ok(created) => Some(
                        CommentView {
                            id,
                            author,
                            body: match e.field("body"@) {
                                Some(b) => join_lines(doc_parts(b)),
                                None => Seq::empty(),
                            },
                            created,
                            updated: match member_text(e, "updated"@) {
                                Some(_) => match datetime_spec(e, "updated"@) {
                                    Ok(t) => Some(t),
                                    Err(_) => None,
                                },
                                None => None,
                            },
                        },
                    ),
                },
            },
        },
    }
}

/// The comments of the well-formed entries, in order; the others are dropped.
pub open spec fn comments_spec(entries: Seq<JsonValue>) -> Seq<CommentView>
    decreases entries.len(),
{
    if entries.len() == 0 {
        Seq::empty()
    } else {
        let rest = comments_spec(entries.drop_last());
        match comment_spec(entries.last()) {
            Some(c) => rest.push(c),
            None => rest,
        }
    }
}

/// The entries of a comments answer: a bare array, or an object whose
/// `comments` member is one.
pub open spec fn comments_source(j: JsonValue) -> Option<Seq<JsonValue>> {
    match j {
        JsonValue::Array(v) => Some(v@),
        _ => match j.field("comments"@) {
            Some(c) => c.elements(),
            None => None,
        },
    }
}

pub open spec fn comments_error(j: JsonValue) -> Seq<char> {
    match j.field("comments"@) {
        Some(_) => "'comments' field is not an array"@,
        None => "Missing 'comments' array in response"@,
    }
}

pub open spec fn comment_views(v: Seq<Comment>) -> Seq<CommentView> {
    v.map_values(|c: Comment| c@)
}

/// Reads one comment entry; nothing when it is malformed.
pub fn parse_comment(e: &JsonValue) -> (r: Option<Comment>)
    ensures
        r matches Some(c) ==> comment_spec(*e) == Some(c@),
        r is None ==> comment_spec(*e) is None,
{
    let id = match member_str(e, "id") {
        Some(s) => String::from_str(s),
        None => {
            return None;
        },
    };
    let author = match e.get("author") {
        Some(a) => match parse_user(a) {
            Some(u) => u,
            None => {
                return None;
            },
        },
        None => {
            return None;
        },
    };
    let body = match e.get("body") {
        Some(b) => {
            let parts = doc_text_parts(b);
            join_with_newlines(&parts)
        },
        None => String::new(),
    };
    let created = match parse_datetime(e, "created") {
        Ok(t) => t,
        Err(_) => {
            return None;
        },
    };
    let updated = match member_str(e, "updated") {
        Some(_) => match parse_datetime(e, "updated") {
            Ok(t) => Some(t),
            Err(_) => None,
        },
        None => None,
    };
    Some(Comment { id, author, body, created, updated })
}

/// Reads a comments answer. Either historical shape is accepted; a malformed
/// entry is skipped, the others are kept in order.
pub fn parse_comments(json: &JsonValue) -> (r: Result<Vec<Comment>, LazyJiraError>)
    ensures
        r is Ok <==> comments_source(*json) is Some,
        r matches Ok(v) ==> comment_views(v@) == comments_spec(comments_source(*json)->0),
        r matches Err(e) ==> e is Parse && e.detail_spec()
            == comments_error(*json),
{
    let entries = match json {
        JsonValue::Array(v) => v,
        _ => match json.get("comments") {
            Some(c) => match c.as_array() {
                Some(v) => v,
                None => {
                    return Err(parse_error(String::from_str("'comments' field is not an array")));
                },
            },
            None => {
                return Err(parse_error(String::from_str("Missing 'comments' array in response")));
            },
        },
    };
    let mut comments: Vec<Comment> = Vec::new();
    let mut i: usize = 0;
    while i < entries.len()
        invariant
            0 <= i <= entries@.len(),
            comment_views(comments@) == comments_spec(entries@.subrange(0, i as int)),
        decreases entries@.len() - i,
    {
        assert(entries@.subrange(0, i + 1).drop_last() =~= entries@.subrange(0, i as int));
        match parse_comment(&entries[i]) {
            Some(c) => {
                comments.push(c);
                assert(comment_views(comments@) =~= comments_spec(entries@.subrange(0, i + 1)));
            },
            None => {},
        }
        i = i + 1;
    }
    assert(entries@.subrange(0, entries@.len() as int) =~= entries@);
    Ok(comments)
}

/// The tickets of the well-formed entries, in order; the others are dropped.
pub open spec fn issues_spec(entries: Seq<JsonValue>) -> Seq<TicketView>
    decreases entries.len(),
{
    if entries.len() == 0 {
        Seq::empty()
    } else {
        let rest = issues_spec(entries.drop_last());
        match issue_spec(entries.last()) {
            Ok(t) => rest.push(t),
            Err(_) => rest,
        }
    }
}

pub open spec fn ticket_views(v: Seq<Ticket>) -> Seq<TicketView> {
    v.map_values(|t: Ticket| t@)
}

/// The issue entries of a search page: `issues`, or `values` when there is no
/// `issues` member.
pub open spec fn issues_source(j: JsonValue) -> Option<Seq<JsonValue>> {
    match j.field("issues"@) {
        Some(v) => v.elements(),
        None => match j.field("values"@) {
            Some(v) => v.elements(),
            None => None,
        },
    }
}

/// The unsigned number in member `key`, or `default`.
pub open spec fn count_or(j: JsonValue, key: Seq<char>, default: u64) -> u64 {
    match j.field(key) {
        Some(v) => match v.unsigned() {
            Some(n) => n,
            None => default,
        },
        None => default,
    }
}

/// Reads the unsigned number in member `key`, or `default`.
pub fn count_member(j: &JsonValue, key: &str, default: u64) -> (r: u64)
    ensures
        r == count_or(*j, key@, default),
{
    match j.get(key) {
        Some(v) => match v.as_u64() {
            Some(n) => n,
            None => default,
        },
        None => default,
    }
}

/// Reads the well-formed issues among `entries`, in order.
pub fn parse_issue_entries(entries: &Vec<JsonValue>) -> (r: Vec<Ticket>)
    ensures
        ticket_views(r@) == issues_spec(entries@),
{
    let mut tickets: Vec<Ticket> = Vec::new();
    let mut i: usize = 0;
    while i < entries.len()
        invariant
            0 <= i <= entries@.len(),
            ticket_views(tickets@) == issues_spec(entries@.subrange(0, i as int)),
        decreases entries@.len() - i,
    {
        assert(entries@.subrange(0, i + 1).drop_last() =~= entries@.subrange(0, i as int));
        match parse_issue(&entries[i]) {
            Ok(t) => {
                tickets.push(t);
                assert(ticket_views(tickets@) =~= issues_spec(entries@.subrange(0, i + 1)));
            },
            Err(_) => {},
        }
        i = i + 1;
    }
    assert(entries@.subrange(0, entries@.len() as int) =~= entries@);
    tickets
}

/// Reads a page of search results: `(start_at, max_results, total, issues)`.
/// Counts that are absent default to 0, 50 and 0; an entry that does not parse
/// is dropped and the rest of the page is kept.
pub fn parse_search_results(json: &JsonValue) -> (r: Result<(usize, usize, usize, Vec<Ticket>), LazyJiraError>)
    ensures
        r is Ok <==> issues_source(*json) is Some,
        r matches Ok(page) ==> {
            &&& page.0 == count_or(*json, "startAt"@, 0) as usize
            &&& page.1 == count_or(*json, "maxResults"@, 50) as usize
            &&& page.2 == count_or(*json, "total"@, 0) as usize
            &&& ticket_views(page.3@) == issues_spec(issues_source(*json)->0)
        },
        r matches Err(e) ==> e is Parse,
{
    let start_at = count_member(json, "startAt", 0) as usize;
    let max_results = count_member(json, "maxResults", 50) as usize;
    let total = count_member(json, "total", 0) as usize;
    let entries = match json.get("issues") {
        Some(v) => v.as_array(),
        None => match json.get("values") {
            Some(v) => v.as_array(),
            None => None,
        },
    };
    match entries {
        Some(entries) => Ok((start_at, max_results, total, parse_issue_entries(entries))),
        None => Err(parse_error(String::from_str("Missing 'issues' or 'values' array"))),
    }
}

/// The identifier of an entry of the newer search answer: its `id` member, or
/// the entry itself when it is a string.
pub open spec fn entry_id(e: JsonValue) -> Option<Seq<char>> {
    match member_text(e, "id"@) {
        Some(id) => Some(id),
        None => e.text(),
    }
}

pub open spec fn ids_spec(entries: Seq<JsonValue>) -> Seq<Seq<char>>
    decreases entries.len(),
{
    if entries.len() == 0 {
        Seq::empty()
    } else {
        let rest = ids_spec(entries.drop_last());
        match entry_id(entries.last()) {
            Some(id) => rest.push(id),
            None => rest,
        }
    }
}

/// The entries of the newer search answer: `values`, or `issues` when there
/// is no `values` member.
pub open spec fn ids_source(j: JsonValue) -> Option<Seq<JsonValue>> {
    match j.field("values"@) {
        Some(v) => v.elements(),
        None => match j.field("issues"@) {
            Some(v) => v.elements(),
            None => None,
        },
    }
}

/// Reads the issue identifiers of a search answer that lists identifiers
/// only; entries without one are skipped.
pub fn parse_issue_ids(json: &JsonValue) -> (r: Result<Vec<String>, LazyJiraError>)
    ensures
        r is Ok <==> ids_source(*json) is Some,
        r matches Ok(ids) ==> texts(ids@) == ids_spec(ids_source(*json)->0),
        r matches Err(e) ==> e is Parse,
{
    let entries = match json.get("values") {
        Some(v) => v.as_array(),
        None => match json.get("issues") {
            Some(v) => v.as_array(),
            None => None,
        },
    };
    let entries = match entries {
        Some(e) => e,
        None => {
            return Err(
                parse_error(
                    String::from_str("Missing 'values' or 'issues' array in search/jql response"),
                ),
            );
        },
    };
    let mut ids: Vec<String> = Vec::new();
    let mut i: usize = 0;
    while i < entries.len()
        invariant
            0 <= i <= entries@.len(),
            texts(ids@) == ids_spec(entries@.subrange(0, i as int)),
        decreases entries@.len() - i,
    {
        assert(entries@.subrange(0, i + 1).drop_last() =~= entries@.subrange(0, i as int));
        let e = &entries[i];
        let id = match member_str(e, "id") {
            Some(s) => Some(s),
            None => e.as_str(),
        };
        match id {
            Some(s) => {
                ids.push(String::from_str(s));
                assert(texts(ids@) =~= ids_spec(entries@.subrange(0, i + 1)));
            },
            None => {},
        }
        i = i + 1;
    }
    assert(entries@.subrange(0, entries@.len() as int) =~= entries@);
    Ok(ids)
}

/// A transition entry: id and name are required; the destination defaults to
/// "Unknown".
pub open spec fn transition_spec(e: JsonValue) -> Result<TransitionView, Seq<char>> {
    match member_text(e, "id"@) {
        None => Err("Missing transition 'id'"@),
        Some(id) => match member_text(e, "name"@) {
            None => Err("Missing transition 'name'"@),
            Some(name) => Ok(
                TransitionView {
                    id,
                    name,
                    to_status: match e.field("to"@) {
                        Some(t) => match member_text(t, "name"@) {
                            Some(n) => n,
                            None => "Unknown"@,
                        },
                        None => "Unknown"@,
                    },
                },
            ),
        },
    }
}

/// All transitions, or the message of the first entry that fails.
pub open spec fn transitions_spec(entries: Seq<JsonValue>) -> Result<Seq<TransitionView>, Seq<char>>
    decreases entries.len(),
{
    if entries.len() == 0 {
        Ok(Seq::empty())
    } else {
        match transitions_spec(entries.drop_last()) {
            Err(m) => Err(m),
            Ok(rest) => match transition_spec(entries.last()) {
                Ok(t) => Ok(rest.push(t)),
                Err(m) => Err(m),
            },
        }
    }
}

pub open spec fn transition_views(v: Seq<Transition>) -> Seq<TransitionView> {
    v.map_values(|t: Transition| t@)
}

/// The transitions of an answer, or the message of the failure.
pub open spec fn transitions_answer(j: JsonValue) -> Result<Seq<TransitionView>, Seq<char>> {
    match j.field("transitions"@) {
        Some(v) => match v.elements() {
            Some(entries) => transitions_spec(entries),
            None => Err("Missing 'transitions' array"@),
        },
        None => Err("Missing 'transitions' array"@),
    }
}

/// Once a prefix of the entries fails, every longer prefix fails the same way.
proof fn lemma_failure_persists(entries: Seq<JsonValue>, k: int)
    requires
        0 <= k <= entries.len(),
        transitions_spec(entries.subrange(0, k)) is Err,
    ensures
        transitions_spec(entries) == transitions_spec(entries.subrange(0, k)),
    decreases entries.len() - k,
{
    if k < entries.len() {
        assert(entries.subrange(0, k + 1).drop_last() =~= entries.subrange(0, k));
        lemma_failure_persists(entries, k + 1);
    } else {
        assert(entries.subrange(0, k) =~= entries);
    }
}

fn parse_transition(e: &JsonValue) -> (r: Result<Transition, LazyJiraError>)
    ensures
        r matches Err(e) ==> e is Parse,
        outcome(r) == transition_spec(*e),
{
    let id = match member_str(e, "id") {
        Some(s) => String::from_str(s),
        None => {
            return Err(parse_error(String::from_str("Missing transition 'id'")));
        },
    };
    let name = match member_str(e, "name") {
        Some(s) => String::from_str(s),
        None => {
            return Err(parse_error(String::from_str("Missing transition 'name'")));
        },
    };
    let to_status = match e.get("to") {
        Some(t) => match member_str(t, "name") {
            Some(n) => String::from_str(n),
            None => String::from_str("Unknown"),
        },
        None => String::from_str("Unknown"),
    };
    Ok(Transition { id, name, to_status })
}

/// Reads the transitions available for an issue; a malformed entry fails the
/// whole answer.
pub fn parse_transitions(json: &JsonValue) -> (r: Result<Vec<Transition>, LazyJiraError>)
    ensures
        r matches Err(e) ==> e is Parse && transitions_answer(*json) == Err::<
            Seq<TransitionView>,
            Seq<char>,
        >(e.detail_spec()),
        r matches Ok(v) ==> transitions_answer(*json) == Ok::<Seq<TransitionView>, Seq<char>>(
            transition_views(v@),
        ),
{
    let entries = match json.get("transitions") {
        Some(v) => match v.as_array() {
            Some(e) => e,
            None => {
                return Err(parse_error(String::from_str("Missing 'transitions' array")));
            },
        },
        None => {
            return Err(parse_error(String::from_str("Missing 'transitions' array")));
        },
    };
    let mut out: Vec<Transition> = Vec::new();
    let mut i: usize = 0;
    assert(transition_views(out@) =~= Seq::<TransitionView>::empty());
    assert(entries@.subrange(0, 0) =~= Seq::<JsonValue>::empty());
    while i < entries.len()
        invariant
            0 <= i <= entries@.len(),
            transitions_answer(*json) == transitions_spec(entries@),
            transitions_spec(entries@.subrange(0, i as int)) == Ok::<Seq<TransitionView>, Seq<char>>(
                transition_views(out@),
            ),
        decreases entries@.len() - i,
    {
        assert(entries@.subrange(0, i + 1).drop_last() =~= entries@.subrange(0, i as int));
        match parse_transition(&entries[i]) {
            Ok(t) => {
                let ghost old_views = transition_views(out@);
                assert(entries@.subrange(0, i + 1).last() == entries@[i as int]);
                out.push(t);
                assert(transition_views(out@) =~= old_views.push(t@));
            },
            Err(e) => {
                proof {
                    lemma_failure_persists(entries@, i + 1);
                }
                return Err(e);
            },
        }
        i = i + 1;
    }
    assert(entries@.subrange(0, entries@.len() as int) =~= entries@);
    Ok(out)
}

} // verus!
