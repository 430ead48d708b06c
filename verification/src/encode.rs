//! JSON serialization of todos, with the output text pinned exactly: each
//! todo becomes an object with the fields `title`, `order` (`null` when
//! unset), `completed`, `id` and `url`, and a listing becomes the array of
//! those objects in store order.

use vstd::prelude::*;
use vstd::string::StringExecFns;
use crate::render::{decimal_int, escaped, push_decimal_i64, push_escaped};
use crate::todo::{Todo, TodoView};

verus! {

/// The `order` field's rendering: the number, or `null` when unset.
pub open spec fn order_json(o: Option<int>) -> Seq<char> {
    match o {
        Some(n) => decimal_int(n),
        None => "null"@,
    }
}

/// The `completed` field's rendering.
pub open spec fn bool_json(b: bool) -> Seq<char> {
    if b {
        "true"@
    } else {
        "false"@
    }
}

/// The JSON object text for one todo.
pub open spec fn todo_json(t: TodoView) -> Seq<char> {
    "{\"title\":\""@ + escaped(t.title) + "\",\"order\":"@ + order_json(t.order)
        + ",\"completed\":"@ + bool_json(t.completed) + ",\"id\":\""@ + escaped(t.id)
        + "\",\"url\":\""@ + escaped(t.url) + "\"}"@
}

/// The elements of a listing, comma-separated, in order.
pub open spec fn todos_json_inner(s: Seq<TodoView>) -> Seq<char>
    decreases s.len(),
{
    if s.len() == 0 {
        Seq::empty()
    } else if s.len() == 1 {
        todo_json(s[0])
    } else {
        todos_json_inner(s.drop_last()) + ","@ + todo_json(s.last())
    }
}

/// The JSON array text for a listing.
pub open spec fn todos_json(s: Seq<TodoView>) -> Seq<char> {
    "["@ + todos_json_inner(s) + "]"@
}

impl Todo {
    /// The JSON object text for this todo, exactly as `todo_json` states it.
    pub fn to_json_string(&self) -> (r: String)
        ensures
            r@ == todo_json(self@),
    {
        let mut out = String::new();
        out.append("{\"title\":\"");
        push_escaped(&mut out, self.title.as_str());
        out.append("\",\"order\":");
        match self.order {
            Some(n) => push_decimal_i64(&mut out, n),
            None => out.append("null"),
        }
        out.append(",\"completed\":");
        if self.completed {
            out.append("true");
        } else {
            out.append("false");
        }
        out.append(",\"id\":\"");
        push_escaped(&mut out, self.id.as_str());
        out.append("\",\"url\":\"");
        push_escaped(&mut out, self.url.as_str());
        out.append("\"}");
        assert(out@ =~= todo_json(self@));
        out
    }
}

/// The JSON array text for a listing, exactly as `todos_json` states it.
pub fn encode_todos(todos: &Vec<Todo>) -> (r: String)
    ensures
        r@ == todos_json(todos@.map_values(|t: Todo| t@)),
{
    let ghost s = todos@.map_values(|t: Todo| t@);
    let mut out = String::new();
    out.append("[");
    let n = todos.len();
    let mut i: usize = 0;
    assert(todos_json_inner(s.take(0)) =~= Seq::<char>::empty());
    assert(out@ =~= "["@ + todos_json_inner(s.take(0)));
    while i < n
        invariant
            n == todos@.len(),
            s == todos@.map_values(|t: Todo| t@),
            i <= n,
            out@ == "["@ + todos_json_inner(s.take(i as int)),
        decreases n - i,
    {
        let ghost prefix = out@;
        if i > 0 {
            out.append(",");
        }
        let piece = todos[i].to_json_string();
        out.append(piece.as_str());
        proof {
            assert(s.take(i + 1).drop_last() =~= s.take(i as int));
            assert(s.take(i + 1).last() == s[i as int]);
            if i == 0 {
                assert(s.take(1).len() == 1);
                assert(out@ =~= "["@ + todos_json_inner(s.take(1)));
            } else {
                assert(out@ =~= "["@ + todos_json_inner(s.take(i + 1)));
            }
        }
        i = i + 1;
    }
    assert(s.take(n as int) =~= s);
    out.append("]");
    assert(out@ =~= todos_json(s));
    out
}

} // verus!
