use vstd::prelude::*;

use crate::messages::ToDosMsg;
use crate::text::is_blank;
use crate::text::is_ws;
use crate::text::trim;
use crate::text::trimmed;

verus! {

/// A single list entry: identity, text, and completion status.
#[derive(Debug, Clone, PartialEq)]
pub struct ToDo {
    pub id: usize,
    pub text: String,
    pub completed: bool,
}

impl ToDo {
    /// A stored entry's text is non-empty and carries no leading or
    /// trailing white space.
    pub open spec fn wf(self) -> bool {
        &&& self.text@.len() > 0
        &&& !is_ws(self.text@.first())
        &&& !is_ws(self.text@.last())
    }
}

/// The store: the entry list, the uncommitted input buffer, and the next
/// identifier to hand out.
pub struct ToDosModel {
    pub todos: Vec<ToDo>,
    pub new_todo_text: String,
    pub next_id: usize,
}

impl ToDosModel {
    /// The store's invariant: every entry is well formed, identifiers are
    /// pairwise distinct, and all sit below the next identifier.
    pub open spec fn wf(self) -> bool {
        &&& forall|i: int| 0 <= i < self.todos@.len() ==> (#[trigger] self.todos@[i]).wf()
        &&& forall|i: int|
            0 <= i < self.todos@.len() ==> (#[trigger] self.todos@[i]).id < self.next_id
        &&& forall|i: int, j: int|
            0 <= i < j < self.todos@.len() ==> (#[trigger] self.todos@[i]).id != (
            #[trigger] self.todos@[j]).id
    }

    /// Whether some entry carries the given identifier.
    pub open spec fn has_id(self, id: usize) -> bool {
        exists|i: int| 0 <= i < self.todos@.len() && (#[trigger] self.todos@[i]).id == id
    }

    /// An empty store: no entries, an empty input buffer, identifiers
    /// starting at zero.
    pub fn new() -> (model: Self)
        ensures
            model.wf(),
            model.ids_consecutive(),
            model.todos@.len() == 0,
            model.new_todo_text@.len() == 0,
            model.next_id == 0,
    {
        Self { todos: Vec::new(), new_todo_text: String::new(), next_id: 0 }
    }

    /// A store built of additions alone numbers its entries 0, 1, 2, ... in
    /// order and hands out the list length as the next identifier.
    pub open spec fn ids_consecutive(self) -> bool {
        &&& self.next_id == self.todos@.len()
        &&& forall|i: int| 0 <= i < self.todos@.len() ==> (#[trigger] self.todos@[i]).id == i
    }

    /// Replace the uncommitted input buffer; the entries and the counter
    /// stay as they were.  Always reports a change so the view re-renders.
    pub fn update_new_todo_text(&mut self, new_todo_text: String) -> (changed: bool)
        ensures
            pending_text_set(*old(self), new_todo_text@, *final(self)),
            old(self).wf() ==> final(self).wf(),
            old(self).ids_consecutive() ==> final(self).ids_consecutive(),
            changed,
    {
        self.new_todo_text = new_todo_text;
        true
    }

    /// Commit `text` as a new entry.  A blank text (empty after trimming)
    /// changes nothing; otherwise the trimmed text is appended under the
    /// next identifier, the counter advances, and the input buffer is
    /// cleared.  Always reports a change so the view re-renders.
    pub fn add_todo(&mut self, text: String) -> (changed: bool)
        requires
            old(self).next_id < usize::MAX,
        ensures
            todo_added(*old(self), text@, *final(self)),
            old(self).wf() ==> final(self).wf(),
            changed,
    {
        let t = trim(text.as_str());
        let t_len = t.as_str().unicode_len();
        if t_len > 0 {
            let item = ToDo { id: self.next_id, text: t, completed: false };
            self.todos.push(item);
            self.next_id = self.next_id + 1;
            self.new_todo_text = String::new();
        }
        true
    }

    /// Flip the completion flag of the entry with identifier `id`; with no
    /// such entry the store is left as it was.  Always reports a change so
    /// the view re-renders.
    pub fn toggle_todo(&mut self, id: usize) -> (changed: bool)
        requires
            old(self).wf(),
        ensures
            todo_toggled(*old(self), id, *final(self)),
            final(self).wf(),
            old(self).ids_consecutive() ==> final(self).ids_consecutive(),
            changed,
    {
        let n = self.todos.len();
        let mut k: usize = 0;
        while k < n
            invariant
                k <= n,
                n == self.todos@.len(),
                *self == *old(self),
                old(self).wf(),
                forall|j: int| 0 <= j < k ==> (#[trigger] self.todos@[j]).id != id,
            decreases n - k,
        {
            if self.todos[k].id == id {
                let t = self.todos.remove(k);
                let flipped = ToDo { id: t.id, text: t.text, completed: !t.completed };
                self.todos.insert(k, flipped);
                proof {
                    assert(self.todos@ =~= old(self).todos@.update(k as int, flipped));
                    assert forall|i: int|
                        0 <= i < old(self).todos@.len() && (#[trigger] old(
                            self,
                        ).todos@[i]).id == id implies i == k by {
                        if i != k {
                            assert(old(self).todos@[i].id != old(self).todos@[k as int].id);
                        }
                    }
                }
                return true;
            }
            k = k + 1;
        }
        true
    }

    /// Delete the entry with identifier `id`, keeping the rest in their
    /// relative order; with no such entry the store is left as it was.
    /// Always reports a change so the view re-renders.
    pub fn remove_todo(&mut self, id: usize) -> (changed: bool)
        requires
            old(self).wf(),
        ensures
            todo_removed(*old(self), id, *final(self)),
            final(self).wf(),
            changed,
    {
        let n = self.todos.len();
        let mut k: usize = 0;
        while k < n
            invariant
                k <= n,
                n == self.todos@.len(),
                *self == *old(self),
                old(self).wf(),
                forall|j: int| 0 <= j < k ==> (#[trigger] self.todos@[j]).id != id,
            decreases n - k,
        {
            if self.todos[k].id == id {
                self.todos.remove(k);
                proof {
                    lemma_without_id_first_match(old(self).todos@, id, k as int);
                    assert forall|i: int| 0 <= i < self.todos@.len() implies (
                    #[trigger] self.todos@[i]) == old(self).todos@[
                        if i < k {
                            i
                        } else {
                            i + 1
                        }
                    ] by {
                        assert(self.todos@ == old(self).todos@.remove(k as int));
                    }
                }
                return true;
            }
            k = k + 1;
        }
        proof {
            lemma_without_id_no_match(self.todos@, id);
        }
        true
    }

    /// Apply one intent to the store: the dispatch the view layer feeds.
    /// The store after the call stands in the [`step`] relation to the
    /// store before it; the result says whether a re-render is needed,
    /// which is always.
    pub fn handle_message(&mut self, msg: ToDosMsg) -> (changed: bool)
        requires
            old(self).wf(),
            msg is AddToDo ==> old(self).next_id < usize::MAX,
        ensures
            step(*old(self), msg, *final(self)),
            final(self).wf(),
            changed,
    {
        match msg {
            ToDosMsg::UpdateToDo(text) => self.update_new_todo_text(text),
            ToDosMsg::AddToDo(text) => self.add_todo(text),
            ToDosMsg::ToggleToDo(id) => self.toggle_todo(id),
            ToDosMsg::RemoveToDo(id) => self.remove_todo(id),
        }
    }
}

/// Relation of one applied intent: which of the four transitions the store
/// takes for each message.
pub open spec fn step(pre: ToDosModel, msg: ToDosMsg, post: ToDosModel) -> bool {
    match msg {
        ToDosMsg::UpdateToDo(text) => pending_text_set(pre, text@, post),
        ToDosMsg::AddToDo(text) => todo_added(pre, text@, post),
        ToDosMsg::ToggleToDo(id) => todo_toggled(pre, id, post),
        ToDosMsg::RemoveToDo(id) => todo_removed(pre, id, post),
    }
}

/// Relation of `UpdateToDo`: the buffer takes the given text; entries and
/// counter are untouched.
pub open spec fn pending_text_set(pre: ToDosModel, text: Seq<char>, post: ToDosModel) -> bool {
    &&& post.new_todo_text@ == text
    &&& post.todos == pre.todos
    &&& post.next_id == pre.next_id
}

/// Relation of `AddToDo`: a blank text leaves the store as it was; a
/// non-blank text appends one entry holding the trimmed text under the old
/// counter value, advances the counter, and clears the buffer.
pub open spec fn todo_added(pre: ToDosModel, text: Seq<char>, post: ToDosModel) -> bool {
    if trimmed(text).len() == 0 {
        post == pre
    } else {
        &&& post.todos@.len() == pre.todos@.len() + 1
        &&& forall|i: int| 0 <= i < pre.todos@.len() ==> post.todos@[i] == pre.todos@[i]
        &&& post.todos@.last().id == pre.next_id
        &&& post.todos@.last().text@ == trimmed(text)
        &&& !post.todos@.last().completed
        &&& post.next_id == pre.next_id + 1
        &&& post.new_todo_text@.len() == 0
    }
}

/// The entry sequence with every entry carrying `id` taken out; the rest
/// keep their relative order.
pub open spec fn without_id(s: Seq<ToDo>, id: usize) -> Seq<ToDo>
    decreases s.len(),
{
    if s.len() == 0 {
        Seq::empty()
    } else if s.last().id == id {
        without_id(s.drop_last(), id)
    } else {
        without_id(s.drop_last(), id).push(s.last())
    }
}

/// Relation of `RemoveToDo`: the entries carrying the given identifier are
/// taken out, the rest keep their relative order, and the buffer and the
/// counter are untouched.  With no matching entry the store is exactly as
/// it was.
pub open spec fn todo_removed(pre: ToDosModel, id: usize, post: ToDosModel) -> bool {
    &&& post.todos@ == without_id(pre.todos@, id)
    &&& post.new_todo_text == pre.new_todo_text
    &&& post.next_id == pre.next_id
    &&& !pre.has_id(id) ==> post == pre
}

/// With no entry carrying `id`, taking the matches out changes nothing.
pub proof fn lemma_without_id_no_match(s: Seq<ToDo>, id: usize)
    requires
        forall|j: int| 0 <= j < s.len() ==> (#[trigger] s[j]).id != id,
    ensures
        without_id(s, id) == s,
    decreases s.len(),
{
    if s.len() > 0 {
        lemma_without_id_no_match(s.drop_last(), id);
    }
    assert(without_id(s, id) =~= s);
}

/// With pairwise distinct identifiers and a first match at position `k`,
/// taking the matches out deletes exactly the entry at `k`.
pub proof fn lemma_without_id_first_match(s: Seq<ToDo>, id: usize, k: int)
    requires
        0 <= k < s.len(),
        s[k].id == id,
        forall|j: int| 0 <= j < k ==> (#[trigger] s[j]).id != id,
        forall|i: int, j: int|
            0 <= i < j < s.len() ==> (#[trigger] s[i]).id != (#[trigger] s[j]).id,
    ensures
        without_id(s, id) == s.remove(k),
    decreases s.len(),
{
    if k == s.len() - 1 {
        lemma_without_id_no_match(s.drop_last(), id);
    } else {
        assert(s[k].id != s[s.len() - 1].id);
        lemma_without_id_first_match(s.drop_last(), id, k);
    }
    assert(without_id(s, id) =~= s.remove(k));
}

/// Relation of `ToggleToDo`: every entry carrying the given identifier has
/// its completion flag flipped and keeps its identifier and text; every
/// other entry, the buffer and the counter are untouched.  With no matching
/// entry the store is exactly as it was.
pub open spec fn todo_toggled(pre: ToDosModel, id: usize, post: ToDosModel) -> bool {
    &&& post.todos@.len() == pre.todos@.len()
    &&& forall|i: int|
        0 <= i < pre.todos@.len() && (#[trigger] pre.todos@[i]).id != id ==> post.todos@[i]
            == pre.todos@[i]
    &&& forall|i: int|
        0 <= i < pre.todos@.len() && (#[trigger] pre.todos@[i]).id == id ==> {
            &&& post.todos@[i].id == pre.todos@[i].id
            &&& post.todos@[i].text == pre.todos@[i].text
            &&& post.todos@[i].completed == !pre.todos@[i].completed
        }
    &&& post.new_todo_text == pre.new_todo_text
    &&& post.next_id == pre.next_id
    &&& !pre.has_id(id) ==> post == pre
}

/// Law: starting from consecutive numbering, each addition of a non-blank
/// text appends exactly one entry whose identifier is the old length, so a
/// run of additions numbers its entries 0, 1, 2, ... in call order; a
/// blank text adds nothing and consumes no identifier.
pub proof fn lemma_added_keeps_ids_consecutive(pre: ToDosModel, text: Seq<char>, post: ToDosModel)
    requires
        pre.ids_consecutive(),
        todo_added(pre, text, post),
    ensures
        post.ids_consecutive(),
        !is_blank(text) ==> post.todos@.len() == pre.todos@.len() + 1 && post.todos@.last().id
            == pre.todos@.len(),
        is_blank(text) ==> post == pre,
{
}

/// Law: toggling the same identifier twice restores the store's entries,
/// and the buffer and the counter are untouched throughout.
pub proof fn lemma_toggle_twice_restores(
    pre: ToDosModel,
    id: usize,
    mid: ToDosModel,
    post: ToDosModel,
)
    requires
        todo_toggled(pre, id, mid),
        todo_toggled(mid, id, post),
    ensures
        post.todos@ == pre.todos@,
        post.new_todo_text == pre.new_todo_text,
        post.next_id == pre.next_id,
{
    assert forall|i: int| 0 <= i < pre.todos@.len() implies post.todos@[i] == pre.todos@[i] by {
        if pre.todos@[i].id == id {
            assert(mid.todos@[i].id == id);
        } else {
            assert(mid.todos@[i] == pre.todos@[i]);
        }
    }
    assert(post.todos@ =~= pre.todos@);
}

/// Law: in a well-formed store, removal takes out exactly the one entry
/// carrying the identifier and keeps the rest in their relative order;
/// with no such entry the store is exactly as it was.
pub proof fn lemma_removed_exactly_one(pre: ToDosModel, id: usize, post: ToDosModel)
    requires
        pre.wf(),
        todo_removed(pre, id, post),
    ensures
        pre.has_id(id) ==> exists|k: int|
            0 <= k < pre.todos@.len() && (#[trigger] pre.todos@[k]).id == id && post.todos@
                == pre.todos@.remove(k),
        !pre.has_id(id) ==> post == pre,
{
    if pre.has_id(id) {
        let k = choose|k: int| 0 <= k < pre.todos@.len() && (#[trigger] pre.todos@[k]).id == id;
        assert forall|j: int| 0 <= j < k implies (#[trigger] pre.todos@[j]).id != id by {
            assert(pre.todos@[j].id != pre.todos@[k].id);
        }
        lemma_without_id_first_match(pre.todos@, id, k);
    }
}

} // verus!
