use vstd::prelude::*;

use crate::item_id::ItemId;
use crate::todo_item::TodoItem;
use crate::todo_list::{
    empty_vector, has_id, ids_unique, is_first_match, lemma_removal_index_of_match,
    lemma_removal_index_of_miss, lemma_remove_keeps_ids_unique, removal_index, same_relative_order,
    vector_get, vector_items, vector_len, vector_push_back, vector_remove,
};

verus! {

/// The whole state: the items in display order and the pending input.
pub struct AppData {
    pub list: im::Vector<TodoItem>,
    /// The text typed for the next item.
    pub added_text: String,
}

/// `after` is `before` with one item appended: made from the pending text,
/// not done, not being edited, carrying `id`, which no item of `before`
/// carries; the pending text is cleared.
pub open spec fn is_add_of(before: AppData, after: AppData, id: ItemId) -> bool {
    &&& !has_id(before.items(), id)
    &&& after.items() == before.items().push(
        TodoItem { done: false, currently_edited: false, text: before.added_text, id },
    )
    &&& after.added_text@ == Seq::<char>::empty()
}

/// An add appends exactly one item, the one described, and keeps the
/// identifiers unique.
pub proof fn lemma_add_appends_one(before: AppData, after: AppData, id: ItemId)
    requires
        is_add_of(before, after, id),
    ensures
        after.items().len() == before.items().len() + 1,
        after.items().last().id == id,
        after.items().last().text == before.added_text,
        !after.items().last().done,
        !after.items().last().currently_edited,
        after.items().subrange(0, before.items().len() as int) == before.items(),
        has_id(after.items(), id),
        before.wf() ==> after.wf(),
{
    let s = before.items();
    let t = after.items();
    assert(t.subrange(0, s.len() as int) =~= s);
    assert(t[s.len() as int].id == id);
    if before.wf() {
        assert forall|i: int, j: int|
            0 <= i < t.len() && 0 <= j < t.len() && i != j implies t[i].id != t[j].id by {
            if i == s.len() {
                assert(s[j].id == t[j].id);
            } else if j == s.len() {
                assert(s[i].id == t[i].id);
            }
        }
    }
}

/// An add leaves the items that were there in the order they had.
pub proof fn lemma_add_keeps_order(before: AppData, after: AppData, id: ItemId)
    requires
        is_add_of(before, after, id),
        before.wf(),
    ensures
        same_relative_order(before.items(), after.items()),
{
    lemma_add_appends_one(before, after, id);
    let s = before.items();
    let t = after.items();
    assert forall|i1: int, j1: int, i2: int, j2: int|
        0 <= i1 < s.len() && 0 <= j1 < s.len() && 0 <= i2 < t.len() && 0 <= j2 < t.len()
            && s[i1].id == t[i2].id && s[j1].id == t[j2].id implies (i1 < j1 <==> i2 < j2) by {
        assert(i2 < s.len()) by {
            if i2 == s.len() {
                assert(s[i1].id == id);
            }
        }
        assert(j2 < s.len()) by {
            if j2 == s.len() {
                assert(s[j1].id == id);
            }
        }
        assert(t[i2] == s[i2]);
        assert(t[j2] == s[j2]);
    }
}

impl AppData {
    pub open spec fn items(&self) -> Seq<TodoItem> {
        vector_items(self.list)
    }

    /// No two items share an identifier.
    pub open spec fn wf(&self) -> bool {
        ids_unique(self.items())
    }

    /// The state at start: no items, no pending text.
    pub fn new() -> (r: AppData)
        ensures
            r.items() == Seq::<TodoItem>::empty(),
            r.added_text@ == Seq::<char>::empty(),
            r.wf(),
    {
        AppData { list: empty_vector(), added_text: String::new() }
    }

    /// Whether some item carries `id`.
    pub fn contains_id(&self, id: &ItemId) -> (r: bool)
        ensures
            r == has_id(self.items(), *id),
    {
        let n = vector_len(&self.list);
        let mut idx: usize = 0;
        while idx < n
            invariant
                n == self.items().len(),
                idx <= n,
                forall|j: int| 0 <= j < idx ==> self.items()[j].id != *id,
            decreases n - idx,
        {
            if let Some(item) = vector_get(&self.list, idx) {
                if item.id == *id {
                    return true;
                }
            }
            idx += 1;
        }
        false
    }

    /// The number of items.
    pub fn len(&self) -> (r: usize)
        ensures
            r == self.items().len(),
    {
        vector_len(&self.list)
    }

    /// The item at position `i`, front first, if there is one.
    pub fn get(&self, i: usize) -> (r: Option<&TodoItem>)
        ensures
            i < self.items().len() ==> r == Some(&self.items()[i as int]),
            i >= self.items().len() ==> r.is_none(),
    {
        vector_get(&self.list, i)
    }

    /// Appends an item made from the pending text and carrying `id`, then
    /// clears the pending text; where some item already carries `id`, changes
    /// nothing. Returns whether the item was added.
    pub fn add_todo_with_id(&mut self, id: ItemId) -> (r: bool)
        ensures
            r == !has_id(old(self).items(), id),
            r ==> is_add_of(*old(self), *final(self), id),
            !r ==> *final(self) == *old(self),
            old(self).wf() ==> final(self).wf(),
    {
        if self.contains_id(&id) {
            return false;
        }
        let item = TodoItem::new(self.added_text.clone(), id);
        vector_push_back(&mut self.list, item);
        self.added_text = String::new();
        proof {
            lemma_add_appends_one(*old(self), *self, id);
        }
        true
    }

    /// Appends an item made from the pending text, with a fresh random
    /// identifier, and clears the pending text. Only where the identifier
    /// drawn is already carried by an item does nothing change; on an empty
    /// list the item is always added.
    pub fn add_todo(&mut self)
        ensures
            (exists|id: ItemId| id.is_random_v4() && is_add_of(*old(self), *final(self), id))
                || (exists|id: ItemId|
                id.is_random_v4() && has_id(old(self).items(), id) && *final(self) == *old(
                    self,
                )),
            old(self).items().len() == 0 ==> exists|id: ItemId|
                id.is_random_v4() && is_add_of(*old(self), *final(self), id),
            old(self).wf() ==> final(self).wf(),
    {
        let id = ItemId::random();
        let _ = self.add_todo_with_id(id);
    }

    /// Removes the first item that carries `id`; where none does, removes the
    /// front item. The pending text is kept.
    pub fn delete_todo(&mut self, id: &ItemId)
        requires
            old(self).items().len() > 0,
        ensures
            final(self).items() == old(self).items().remove(removal_index(old(self).items(), *id)),
            final(self).added_text == old(self).added_text,
            has_id(old(self).items(), *id) ==> old(self).items()[removal_index(
                old(self).items(),
                *id,
            )].id == *id,
            !has_id(old(self).items(), *id) ==> final(self).items() == old(self).items().subrange(
                1,
                old(self).items().len() as int,
            ),
            final(self).items().len() == old(self).items().len() - 1,
            old(self).wf() ==> final(self).wf(),
    {
        let n = vector_len(&self.list);
        let mut target: usize = 0;
        let mut found = false;
        let mut idx: usize = 0;
        while idx < n && !found
            invariant
                n == self.items().len(),
                idx <= n,
                found ==> is_first_match(self.items(), *id, target as int),
                !found ==> target == 0,
                !found ==> forall|j: int| 0 <= j < idx ==> self.items()[j].id != *id,
            decreases n - idx,
        {
            if let Some(item) = vector_get(&self.list, idx) {
                if item.id == *id {
                    target = idx;
                    found = true;
                }
            }
            idx += 1;
        }
        proof {
            let s = self.items();
            if found {
                lemma_removal_index_of_match(s, *id, target as int);
            } else {
                lemma_removal_index_of_miss(s, *id);
            }
            if ids_unique(s) {
                lemma_remove_keeps_ids_unique(s, target as int);
            }
        }
        vector_remove(&mut self.list, target);
    }
}

} // verus!
