//! The todo record: building one from untrusted JSON text, and partial
//! updates from JSON text, with the field rules stated exactly.
//!
//! Creation demands a string `title`; `order` is an optional numeric hint
//! (held as an integer; a number that is not an integral `i64` is accepted
//! but left unset); `completed` starts `false`; the identifier is a fresh
//! UUID and `url` is the base URL with the identifier appended.
//!
//! Updates overwrite only the fields the payload mentions. A non-string
//! `title` or a non-boolean `completed` is rejected outright rather than
//! accepted blindly — a deliberate tightening over trusting those fields —
//! while a present `order` of any non-numeric kind silently clears the hint.

use vstd::prelude::*;
use vstd::string::StringExecFns;
use crate::render::{decimal_int, push_decimal_u64};
use crate::json::{
    JsonField, doc_fields, field_view, json_as_flag, json_as_int, json_as_text, json_find,
    json_is_number, parse_json, parsed_doc,
};

verus! {

/// Where a created todo points back at itself: base URL plus identifier.
pub const DEFAULT_BASE_URL: &'static str = "http://localhost:3000/";

/// A single task record.
pub struct Todo {
    /// Non-empty in intent, required at creation, mutable.
    pub title: String,
    /// Optional client-side sort hint; absent means unset, not zero.
    pub order: Option<i64>,
    /// Whether the task is done; always present once the todo exists.
    pub completed: bool,
    /// Server-generated identifier, immutable.
    pub id: String,
    /// Self-referential locator derived from the identifier, immutable.
    pub url: String,
}

/// The mathematical value of a todo.
pub struct TodoView {
    pub title: Seq<char>,
    pub order: Option<int>,
    pub completed: bool,
    pub id: Seq<char>,
    pub url: Seq<char>,
}

impl View for Todo {
    type V = TodoView;

    open spec fn view(&self) -> TodoView {
        TodoView {
            title: self.title@,
            order: match self.order {
                Some(n) => Some(n as int),
                None => None,
            },
            completed: self.completed,
            id: self.id@,
            url: self.url@,
        }
    }
}

/// Why a request against the store or a payload was refused.
#[derive(Debug)]
pub enum TodoError {
    /// The text was not well-formed JSON; carries the diagnostic.
    Parse(String),
    /// The JSON was well-formed but broke a field rule; carries the reason.
    Validation(String),
    /// No todo with the requested identifier exists.
    NotFound,
}

/// The mathematical value of an error.
pub enum TodoErrorView {
    Parse(Seq<char>),
    Validation(Seq<char>),
    NotFound,
}

impl View for TodoError {
    type V = TodoErrorView;

    open spec fn view(&self) -> TodoErrorView {
        match self {
            TodoError::Parse(m) => TodoErrorView::Parse(m@),
            TodoError::Validation(m) => TodoErrorView::Validation(m@),
            TodoError::NotFound => TodoErrorView::NotFound,
        }
    }
}

/// The message each error carries.
pub open spec fn error_message(e: TodoErrorView) -> Seq<char> {
    match e {
        TodoErrorView::Parse(m) => m,
        TodoErrorView::Validation(m) => m,
        TodoErrorView::NotFound => "not found"@,
    }
}

impl TodoError {
    /// The human-readable reason, as the HTTP layer surfaces it.
    pub fn message(&self) -> (r: String)
        ensures
            r@ == error_message(self@),
    {
        match self {
            TodoError::Parse(m) => m.clone(),
            TodoError::Validation(m) => m.clone(),
            TodoError::NotFound => String::from_str("not found"),
        }
    }
}

/// The full parse diagnostic: a fixed prefix, then the parser's code text,
/// line and column in the shape `SyntaxError(code, line, column)`.
pub open spec fn parse_error_text(e: (Seq<char>, int, int)) -> Seq<char> {
    "Failed to parse JSON: SyntaxError("@ + e.0 + ", "@ + decimal_int(e.1) + ", "@ + decimal_int(
        e.2,
    ) + ")"@
}

/// Builds the parse diagnostic exactly as `parse_error_text` states it.
fn parse_error_message(code: String, line: u64, col: u64) -> (r: String)
    ensures
        r@ == parse_error_text((code@, line as int, col as int)),
{
    let mut m = String::from_str("Failed to parse JSON: SyntaxError(");
    m.append(code.as_str());
    m.append(", ");
    push_decimal_u64(&mut m, line);
    m.append(", ");
    push_decimal_u64(&mut m, col);
    m.append(")");
    assert(m@ =~= parse_error_text((code@, line as int, col as int)));
    m
}

/// How building a todo from the text `s` turns out: `Ok` when the text is
/// well-formed JSON whose `title` is a string and whose `order`, if present,
/// is a number; otherwise exactly one of the three refusals, checked in the
/// order parse, `title` present, `title` a string, `order` a number.
pub open spec fn create_check(s: Seq<char>) -> Result<(), TodoErrorView> {
    match parsed_doc(s) {
        Err(detail) => Err(TodoErrorView::Parse(parse_error_text(detail))),
        Ok(fields) => if !fields.contains_key("title"@) {
            Err(TodoErrorView::Validation("title is required"@))
        } else if !(fields["title"@] is Text) {
            Err(TodoErrorView::Validation("title must be a string"@))
        } else if fields.contains_key("order"@) && !(fields["order"@] is Num) {
            Err(TodoErrorView::Validation("order must be a number"@))
        } else {
            Ok(())
        },
    }
}

/// The title a successful creation copies verbatim from the payload.
pub open spec fn payload_title(s: Seq<char>) -> Seq<char> {
    parsed_doc(s)->Ok_0["title"@]->Text_0
}

/// The order hint a successful creation takes: the payload's integral value
/// when `order` is present and holds one, unset otherwise.
pub open spec fn payload_order(s: Seq<char>) -> Option<int> {
    let fields = parsed_doc(s)->Ok_0;
    if fields.contains_key("order"@) {
        match fields["order"@] {
            JsonField::Num(n) => n,
            _ => None,
        }
    } else {
        None
    }
}

/// How updating a todo from the text `s` turns out: the text must be
/// well-formed JSON, a `title` it mentions must be a string, and a
/// `completed` it mentions must be a boolean.
pub open spec fn update_check(s: Seq<char>) -> Result<(), TodoErrorView> {
    match parsed_doc(s) {
        Err(detail) => Err(TodoErrorView::Parse(parse_error_text(detail))),
        Ok(fields) => if fields.contains_key("title"@) && !(fields["title"@] is Text) {
            Err(TodoErrorView::Validation("title must be a string"@))
        } else if fields.contains_key("completed"@) && !(fields["completed"@] is Flag) {
            Err(TodoErrorView::Validation("completed must be a boolean"@))
        } else {
            Ok(())
        },
    }
}

/// The todo after a successful update from the text `s`: fields the payload
/// mentions are overwritten, the others kept; a mentioned `order` that holds
/// no integral number clears the hint; identifier and URL never change.
pub open spec fn apply_update(t: TodoView, s: Seq<char>) -> TodoView {
    let fields = parsed_doc(s)->Ok_0;
    TodoView {
        title: if fields.contains_key("title"@) {
            fields["title"@]->Text_0
        } else {
            t.title
        },
        order: if fields.contains_key("order"@) {
            match fields["order"@] {
                JsonField::Num(n) => n,
                _ => None,
            }
        } else {
            t.order
        },
        completed: if fields.contains_key("completed"@) {
            fields["completed"@]->Flag_0
        } else {
            t.completed
        },
        id: t.id,
        url: t.url,
    }
}

/// Relies on `uuid::Uuid::new_v4` and its `Display`: a fresh version-4
/// identifier rendered in the 36-character hyphenated form. The draw is
/// random, so nothing relates one call to another.
#[verifier::external_body]
fn fresh_id() -> (r: String)
    ensures
        r@.len() == 36,
{
    uuid::Uuid::new_v4().to_string()
}

impl Todo {
    /// An independent copy with the same value.
    pub fn duplicate(&self) -> (t: Todo)
        ensures
            t@ == self@,
    {
        Todo {
            title: self.title.clone(),
            order: self.order,
            completed: self.completed,
            id: self.id.clone(),
            url: self.url.clone(),
        }
    }

    /// Builds a todo from JSON text, a base URL, and an already-chosen
    /// identifier: the deterministic part of creation. The result is pinned
    /// exactly: refusals follow `create_check`, and a success copies the
    /// payload's title and order hint, starts not completed, and points its
    /// URL at the base followed by the identifier.
    pub fn from_json_parts(unparsed_json: &str, base_url: &str, id: String) -> (r: Result<
        Todo,
        TodoError,
    >)
        ensures
            (r is Ok) == (create_check(unparsed_json@) is Ok),
            r matches Err(e) ==> e@ == create_check(unparsed_json@)->Err_0,
            r matches Ok(t) ==> {
                &&& t@.title == payload_title(unparsed_json@)
                &&& t@.order == payload_order(unparsed_json@)
                &&& t@.completed == false
                &&& t@.id == id@
                &&& t@.url == base_url@ + id@
            },
    {
        let doc = match parse_json(unparsed_json) {
            Err((code, line, col)) => {
                return Err(TodoError::Parse(parse_error_message(code, line, col)));
            },
            Ok(doc) => doc,
        };
        let title = match json_find(&doc, "title") {
            None => {
                return Err(TodoError::Validation(String::from_str("title is required")));
            },
            Some(v) => match json_as_text(v) {
                None => {
                    return Err(TodoError::Validation(String::from_str("title must be a string")));
                },
                Some(t) => t,
            },
        };
        let order = match json_find(&doc, "order") {
            None => None,
            Some(v) => {
                if !json_is_number(v) {
                    return Err(TodoError::Validation(String::from_str("order must be a number")));
                }
                json_as_int(v)
            },
        };
        let url = String::from_str(base_url).concat(id.as_str());
        Ok(Todo { title, order, completed: false, id, url })
    }

    /// Builds a todo from JSON text alone: draws a fresh identifier and uses
    /// the default base URL. Success and failure follow `create_check`; the
    /// identifier is 36 characters long, whatever was drawn.
    pub fn from_json_text(unparsed_json: &str) -> (r: Result<Todo, TodoError>)
        ensures
            (r is Ok) == (create_check(unparsed_json@) is Ok),
            r matches Err(e) ==> e@ == create_check(unparsed_json@)->Err_0,
            r matches Ok(t) ==> {
                &&& t@.title == payload_title(unparsed_json@)
                &&& t@.order == payload_order(unparsed_json@)
                &&& t@.completed == false
                &&& t@.id.len() == 36
                &&& t@.url == DEFAULT_BASE_URL@ + t@.id
            },
    {
        let id = fresh_id();
        Todo::from_json_parts(unparsed_json, DEFAULT_BASE_URL, id)
    }

    /// Builds a todo from JSON text, reporting a refusal as its message
    /// alone.
    pub fn new_from_json_str(unparsed_json: &str) -> (r: Result<Todo, String>)
        ensures
            (r is Ok) == (create_check(unparsed_json@) is Ok),
            r matches Err(m) ==> m@ == error_message(create_check(unparsed_json@)->Err_0),
            r matches Ok(t) ==> {
                &&& t@.title == payload_title(unparsed_json@)
                &&& t@.order == payload_order(unparsed_json@)
                &&& t@.completed == false
                &&& t@.id.len() == 36
                &&& t@.url == DEFAULT_BASE_URL@ + t@.id
            },
    {
        match Todo::from_json_text(unparsed_json) {
            Ok(t) => Ok(t),
            Err(e) => Err(e.message()),
        }
    }

    /// Overwrites the fields the payload mentions, leaving the rest alone.
    /// On any refusal — ill-formed text, a non-string `title`, a non-boolean
    /// `completed` — the todo is left exactly as it was.
    pub fn apply_json_update(&mut self, unparsed_json: &str) -> (r: Result<(), TodoError>)
        ensures
            (r is Ok) == (update_check(unparsed_json@) is Ok),
            r matches Err(e) ==> e@ == update_check(unparsed_json@)->Err_0 && *final(self) == *old(
                self,
            ),
            r is Ok ==> final(self)@ == apply_update(old(self)@, unparsed_json@),
    {
        let doc = match parse_json(unparsed_json) {
            Err((code, line, col)) => {
                return Err(TodoError::Parse(parse_error_message(code, line, col)));
            },
            Ok(doc) => doc,
        };
        let new_title: Option<String> = match json_find(&doc, "title") {
            None => None,
            Some(v) => match json_as_text(v) {
                None => {
                    return Err(TodoError::Validation(String::from_str("title must be a string")));
                },
                Some(t) => Some(t),
            },
        };
        let new_completed: Option<bool> = match json_find(&doc, "completed") {
            None => None,
            Some(v) => match json_as_flag(v) {
                None => {
                    return Err(
                        TodoError::Validation(String::from_str("completed must be a boolean")),
                    );
                },
                Some(b) => Some(b),
            },
        };
        match json_find(&doc, "order") {
            None => {},
            Some(v) => {
                self.order = json_as_int(v);
            },
        }
        match new_title {
            None => {},
            Some(t) => {
                self.title = t;
            },
        }
        match new_completed {
            None => {},
            Some(b) => {
                self.completed = b;
            },
        }
        Ok(())
    }

    /// Overwrites the fields the payload mentions, reporting a refusal as
    /// its message alone; on a refusal the todo is left exactly as it was.
    pub fn update_from_json_str(&mut self, unparsed_json: &str) -> (r: Result<(), String>)
        ensures
            (r is Ok) == (update_check(unparsed_json@) is Ok),
            r matches Err(m) ==> m@ == error_message(update_check(unparsed_json@)->Err_0)
                && *final(self) == *old(self),
            r is Ok ==> final(self)@ == apply_update(old(self)@, unparsed_json@),
    {
        match self.apply_json_update(unparsed_json) {
            Ok(()) => Ok(()),
            Err(e) => Err(e.message()),
        }
    }
}

} // verus!
