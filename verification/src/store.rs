//! The in-memory todo collection: an ordered sequence, insertion order
//! preserved, addressed by identifier with a linear scan.
//!
//! The store is the single owner of its todos; exclusive access goes through
//! `&mut self`, so an embedding that shares the store across request handlers
//! wraps it in one reader/writer lock and holds the lock for the duration of
//! each call.

use vstd::prelude::*;
use vstd::string::StringExecFns;
use crate::todo::{
    Todo, TodoError, TodoErrorView, TodoView, apply_update, create_check, payload_order,
    payload_title, update_check, DEFAULT_BASE_URL,
};

verus! {

/// Whether some todo in `s` carries the identifier `id`.
pub open spec fn has_id(s: Seq<TodoView>, id: Seq<char>) -> bool {
    exists|i: int| 0 <= i < s.len() && s[i].id == id
}

/// Whether position `i` holds the first todo in `s` carrying `id`.
pub open spec fn found_at(s: Seq<TodoView>, id: Seq<char>, i: int) -> bool {
    &&& 0 <= i < s.len()
    &&& s[i].id == id
    &&& forall|j: int| 0 <= j < i ==> s[j].id != id
}

/// Keeping a todo when `id` is removed: its identifier differs.
pub open spec fn keeps(id: Seq<char>) -> spec_fn(TodoView) -> bool {
    |t: TodoView| t.id != id
}

/// `s` without the todos carrying `id`, order kept.
pub open spec fn remove_id(s: Seq<TodoView>, id: Seq<char>) -> Seq<TodoView> {
    s.filter(keeps(id))
}

/// No two live todos share an identifier.
pub open spec fn unique_ids(s: Seq<TodoView>) -> bool {
    forall|i: int, j: int| 0 <= i < j < s.len() ==> s[i].id != s[j].id
}

/// The ordered, in-memory collection of todos.
pub struct TodoStore {
    items: Vec<Todo>,
}

impl View for TodoStore {
    type V = Seq<TodoView>;

    closed spec fn view(&self) -> Seq<TodoView> {
        self.items@.map_values(|t: Todo| t@)
    }
}

impl TodoStore {
    /// An empty store, as the process starts with.
    pub fn new() -> (r: TodoStore)
        ensures
            r@ == Seq::<TodoView>::empty(),
    {
        let items: Vec<Todo> = Vec::new();
        assert(items@.map_values(|t: Todo| t@) =~= Seq::<TodoView>::empty());
        TodoStore { items }
    }

    /// How many todos are live.
    pub fn len(&self) -> (r: usize)
        ensures
            r == self@.len(),
    {
        self.items.len()
    }

    /// A view of all todos in insertion order. Never fails.
    pub fn list(&self) -> (r: &Vec<Todo>)
        ensures
            r@.map_values(|t: Todo| t@) == self@,
    {
        &self.items
    }

    /// The first todo carrying `id`, or `None` when no todo does.
    pub fn get(&self, id: &str) -> (r: Option<&Todo>)
        ensures
            match r {
                Some(t) => exists|i: int| #[trigger] found_at(self@, id@, i) && t@ == self@[i],
                None => !has_id(self@, id@),
            },
    {
        let target = String::from_str(id);
        let n = self.items.len();
        let mut i: usize = 0;
        while i < n
            invariant
                n == self@.len(),
                i <= n,
                target@ == id@,
                forall|j: int| 0 <= j < i ==> self@[j].id != id@,
            decreases n - i,
        {
            if self.items[i].id == target {
                assert(found_at(self@, id@, i as int));
                return Some(&self.items[i]);
            }
            i = i + 1;
        }
        None
    }

    /// Appends an already-built todo at the end. Never fails; the caller
    /// keeps insertion order by construction.
    pub fn create(&mut self, todo: Todo)
        ensures
            final(self)@ == old(self)@.push(todo@),
    {
        let ghost before = self@;
        let ghost tv = todo@;
        self.items.push(todo);
        assert(self.items@.map_values(|t: Todo| t@) =~= before.push(tv));
    }

    /// Builds a todo from JSON text and appends it: what serving a creation
    /// request does. A refusal follows `create_check` and leaves the store
    /// exactly as it was; a success appends the returned todo at the end.
    pub fn create_from_json(&mut self, unparsed_json: &str) -> (r: Result<Todo, TodoError>)
        ensures
            (r is Ok) == (create_check(unparsed_json@) is Ok),
            r matches Err(e) ==> e@ == create_check(unparsed_json@)->Err_0 && final(self)@ == old(
                self,
            )@,
            r matches Ok(t) ==> {
                &&& t@.title == payload_title(unparsed_json@)
                &&& t@.order == payload_order(unparsed_json@)
                &&& t@.completed == false
                &&& t@.id.len() == 36
                &&& t@.url == DEFAULT_BASE_URL@ + t@.id
                &&& final(self)@ == old(self)@.push(t@)
            },
    {
        match Todo::from_json_text(unparsed_json) {
            Err(e) => Err(e),
            Ok(t) => {
                self.create(t.duplicate());
                Ok(t)
            },
        }
    }

    /// Updates the first todo carrying `id` from JSON text: what serving an
    /// update request does. With no such todo it fails with `NotFound`; a
    /// payload refusal follows `update_check`; either way the store is left
    /// as it was. On success the stored todo is overwritten as
    /// `apply_update` says and a copy of it is returned.
    pub fn update(&mut self, id: &str, unparsed_json: &str) -> (r: Result<Todo, TodoError>)
        ensures
            !has_id(old(self)@, id@) ==> (r matches Err(e) && e@ == TodoErrorView::NotFound
                && final(self)@ == old(self)@),
            has_id(old(self)@, id@) ==> (r is Ok) == (update_check(unparsed_json@) is Ok),
            has_id(old(self)@, id@) ==> (r matches Err(e) ==> e@ == update_check(
                unparsed_json@,
            )->Err_0 && final(self)@ == old(self)@),
            r matches Ok(t) ==> exists|i: int|
                {
                    &&& #[trigger] found_at(old(self)@, id@, i)
                    &&& t@ == apply_update(old(self)@[i], unparsed_json@)
                    &&& final(self)@ == old(self)@.update(i, t@)
                },
    {
        let target = String::from_str(id);
        let n = self.items.len();
        let mut i: usize = 0;
        while i < n
            invariant
                n == self@.len(),
                i <= n,
                target@ == id@,
                self.items@ == old(self).items@,
                self@ == old(self)@,
                forall|j: int| 0 <= j < i ==> self@[j].id != id@,
            decreases n - i,
        {
            if self.items[i].id == target {
                assert(found_at(old(self)@, id@, i as int));
                let ghost before = self@;
                let todo = &mut self.items[i];
                match todo.apply_json_update(unparsed_json) {
                    Err(e) => {
                        proof {
                            assert(self.items@ =~= old(self).items@);
                        }
                        return Err(e);
                    },
                    Ok(()) => {
                        let copy = self.items[i].duplicate();
                        assert(self.items@.map_values(|t: Todo| t@) =~= before.update(
                            i as int,
                            copy@,
                        ));
                        return Ok(copy);
                    },
                }
            }
            i = i + 1;
        }
        Err(TodoError::NotFound)
    }

    /// Removes every todo carrying `id`; with unique identifiers that is the
    /// one match, and a missing identifier is a silent no-op, matching
    /// idempotent-DELETE semantics.
    pub fn delete(&mut self, id: &str)
        ensures
            final(self)@ == remove_id(old(self)@, id@),
    {
        let target = String::from_str(id);
        let n = self.items.len();
        let mut kept: Vec<Todo> = Vec::new();
        let mut i: usize = 0;
        proof {
            reveal(Seq::filter);
            assert(self@.take(0) =~= Seq::<TodoView>::empty());
            assert(kept@.map_values(|t: Todo| t@) =~= Seq::<TodoView>::empty());
        }
        while i < n
            invariant
                n == self@.len(),
                i <= n,
                target@ == id@,
                self@ == old(self)@,
                kept@.map_values(|t: Todo| t@) == remove_id(self@.take(i as int), id@),
            decreases n - i,
        {
            proof {
                lemma_remove_id_take_step(self@, id@, i as int);
            }
            let ghost kept_before = kept@.map_values(|t: Todo| t@);
            if !(self.items[i].id == target) {
                let copy = self.items[i].duplicate();
                kept.push(copy);
                assert(kept@.map_values(|t: Todo| t@) =~= kept_before.push(self@[i as int]));
            }
            i = i + 1;
        }
        proof {
            assert(self@.take(n as int) =~= self@);
        }
        self.items = kept;
    }

    /// Removes all todos. Always succeeds, on an empty store too.
    pub fn clear(&mut self)
        ensures
            final(self)@ == Seq::<TodoView>::empty(),
    {
        self.items.clear();
        assert(self.items@.map_values(|t: Todo| t@) =~= Seq::<TodoView>::empty());
    }
}

/// One step of `remove_id` along a prefix: extending the prefix by one todo
/// keeps it when the identifier differs and drops it when it matches.
proof fn lemma_remove_id_take_step(s: Seq<TodoView>, id: Seq<char>, i: int)
    requires
        0 <= i < s.len(),
    ensures
        s[i].id != id ==> remove_id(s.take(i + 1), id) == remove_id(s.take(i), id).push(s[i]),
        s[i].id == id ==> remove_id(s.take(i + 1), id) == remove_id(s.take(i), id),
{
    let p = keeps(id);
    assert(s.take(i + 1) =~= s.take(i) + seq![s[i]]);
    Seq::filter_distributes_over_add(s.take(i), seq![s[i]], p);
    reveal(Seq::filter);
    assert(seq![s[i]].drop_last() =~= Seq::<TodoView>::empty());
    assert(seq![s[i]].last() == s[i]);
    assert(Seq::<TodoView>::empty().filter(p) =~= Seq::<TodoView>::empty());
    if p(s[i]) {
        assert(seq![s[i]].filter(p) =~= seq![s[i]]);
        assert(remove_id(s.take(i), id) + seq![s[i]] =~= remove_id(s.take(i), id).push(s[i]));
    } else {
        assert(seq![s[i]].filter(p) =~= Seq::<TodoView>::empty());
        assert(remove_id(s.take(i), id) + Seq::<TodoView>::empty() =~= remove_id(s.take(i), id));
    }
}

/// A sequence every element of which the predicate keeps filters to itself.
proof fn lemma_filter_keeps_all(s: Seq<TodoView>, p: spec_fn(TodoView) -> bool)
    requires
        forall|i: int| 0 <= i < s.len() ==> p(#[trigger] s[i]),
    ensures
        s.filter(p) == s,
    decreases s.len(),
{
    reveal(Seq::filter);
    if s.len() > 0 {
        assert(forall|i: int|
            0 <= i < s.drop_last().len() ==> p(#[trigger] s.drop_last()[i]));
        lemma_filter_keeps_all(s.drop_last(), p);
        assert(p(s.last()));
        assert(s.drop_last().push(s.last()) =~= s);
    }
}

/// Removing an identifier keeps exactly the todos that do not carry it.
pub proof fn lemma_remove_id_members(s: Seq<TodoView>, id: Seq<char>)
    ensures
        forall|t: TodoView| #[trigger] remove_id(s, id).contains(t) <==> s.contains(t) && t.id != id,
{
    let p = keeps(id);
    assert forall|t: TodoView| #[trigger] remove_id(s, id).contains(t) <==> s.contains(t) && t.id
        != id by {
        if remove_id(s, id).contains(t) {
            s.lemma_filter_contains_rev(p, t);
            let k = choose|k: int| 0 <= k < s.filter(p).len() && s.filter(p)[k] == t;
            s.lemma_filter_pred(p, k);
        }
        if s.contains(t) && t.id != id {
            let k = choose|k: int| 0 <= k < s.len() && s[k] == t;
            s.lemma_filter_contains(p, k);
        }
    }
}

/// Deleting an identifier is idempotent: once every carrier of it is gone, a
/// second removal changes nothing, so two deletions in a row both succeed
/// and the collection after the second equals the collection after the
/// first.
pub proof fn lemma_delete_idempotent(s: Seq<TodoView>, id: Seq<char>)
    ensures
        remove_id(remove_id(s, id), id) == remove_id(s, id),
{
    let p = keeps(id);
    assert forall|i: int| 0 <= i < s.filter(p).len() implies p(#[trigger] s.filter(p)[i]) by {
        s.lemma_filter_pred(p, i);
    }
    lemma_filter_keeps_all(s.filter(p), p);
}

/// Appending a todo whose identifier is not yet live preserves uniqueness of
/// identifiers: the invariant creation relies on, a freshly drawn identifier
/// being new.
pub proof fn lemma_create_preserves_unique_ids(s: Seq<TodoView>, t: TodoView)
    requires
        unique_ids(s),
        !has_id(s, t.id),
    ensures
        unique_ids(s.push(t)),
{
    assert forall|i: int, j: int| 0 <= i < j < s.push(t).len() implies s.push(t)[i].id != s.push(
        t,
    )[j].id by {
        if j == s.len() {
            assert(s[i].id != t.id);
        }
    }
}

} // verus!
