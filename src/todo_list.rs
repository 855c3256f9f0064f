use vstd::prelude::*;

use crate::item_id::ItemId;
use crate::todo_item::TodoItem;

verus! {

#[verifier::external_type_specification]
#[verifier::external_body]
#[verifier::reject_recursive_types(A)]
pub struct ExVector<A>(im::Vector<A>);

/// The items that an `im::Vector` holds, front to back.
pub uninterp spec fn vector_items(v: im::Vector<TodoItem>) -> Seq<TodoItem>;

/// Whether some item of `s` carries `id`.
pub open spec fn has_id(s: Seq<TodoItem>, id: ItemId) -> bool {
    exists|i: int| 0 <= i < s.len() && s[i].id == id
}

/// No two items of `s` carry the same identifier.
pub open spec fn ids_unique(s: Seq<TodoItem>) -> bool {
    forall|i: int, j: int|
        0 <= i < s.len() && 0 <= j < s.len() && i != j ==> s[i].id != s[j].id
}

/// `k` is the first position of `s` whose item carries `id`.
pub open spec fn is_first_match(s: Seq<TodoItem>, id: ItemId, k: int) -> bool {
    &&& 0 <= k < s.len()
    &&& s[k].id == id
    &&& forall|j: int| 0 <= j < k ==> s[j].id != id
}

/// The position that a delete of `id` takes out: the first item that carries
/// `id`, or the front when none does.
pub open spec fn removal_index(s: Seq<TodoItem>, id: ItemId) -> int {
    if exists|k: int| is_first_match(s, id, k) {
        choose|k: int| is_first_match(s, id, k)
    } else {
        0
    }
}

/// At most one position is the first to carry `id`.
pub proof fn lemma_first_match_unique(s: Seq<TodoItem>, id: ItemId, a: int, b: int)
    requires
        is_first_match(s, id, a),
        is_first_match(s, id, b),
    ensures
        a == b,
{
    if a < b {
        assert(s[a].id == id);
    } else if b < a {
        assert(s[b].id == id);
    }
}

/// The first position that carries `id` is the one a delete takes out.
pub proof fn lemma_removal_index_of_match(s: Seq<TodoItem>, id: ItemId, k: int)
    requires
        is_first_match(s, id, k),
    ensures
        removal_index(s, id) == k,
{
    let c = choose|c: int| is_first_match(s, id, c);
    lemma_first_match_unique(s, id, c, k);
}

/// With no item carrying `id`, a delete takes out the front.
pub proof fn lemma_removal_index_of_miss(s: Seq<TodoItem>, id: ItemId)
    requires
        !has_id(s, id),
    ensures
        removal_index(s, id) == 0,
{
    assert forall|k: int| !is_first_match(s, id, k) by {
        if is_first_match(s, id, k) {
            assert(s[k].id == id);
        }
    }
}

/// Every two items found in both `a` and `b`, matched by identifier, stand in
/// the same order in both.
pub open spec fn same_relative_order(a: Seq<TodoItem>, b: Seq<TodoItem>) -> bool {
    forall|i1: int, j1: int, i2: int, j2: int|
        #![trigger a[i1], a[j1], b[i2], b[j2]]
        0 <= i1 < a.len() && 0 <= j1 < a.len() && 0 <= i2 < b.len() && 0 <= j2 < b.len()
            && a[i1].id == b[i2].id && a[j1].id == b[j2].id ==> (i1 < j1 <==> i2 < j2)
}

/// Taking out any one item keeps the identifiers unique.
pub proof fn lemma_remove_keeps_ids_unique(s: Seq<TodoItem>, k: int)
    requires
        ids_unique(s),
        0 <= k < s.len(),
    ensures
        ids_unique(s.remove(k)),
{
    let r = s.remove(k);
    assert forall|i: int, j: int|
        0 <= i < r.len() && 0 <= j < r.len() && i != j implies r[i].id != r[j].id by {
        let si = if i < k { i } else { i + 1 };
        let sj = if j < k { j } else { j + 1 };
        assert(r[i] == s[si]);
        assert(r[j] == s[sj]);
    }
}

/// Deleting an identifier that is in the list takes out exactly the item that
/// carries it: one item fewer, none left with that identifier, the others
/// kept, and the identifiers still unique.
pub proof fn lemma_delete_existing(s: Seq<TodoItem>, id: ItemId)
    requires
        ids_unique(s),
        has_id(s, id),
    ensures
        ({
            let k = removal_index(s, id);
            let r = s.remove(k);
            &&& 0 <= k < s.len()
            &&& s[k].id == id
            &&& r.len() == s.len() - 1
            &&& !has_id(r, id)
            &&& ids_unique(r)
        }),
{
    let w = choose|w: int| 0 <= w < s.len() && s[w].id == id;
    assert(is_first_match(s, id, w)) by {
        assert forall|j: int| 0 <= j < w implies s[j].id != id by {
            assert(s[j].id != s[w].id);
        }
    }
    lemma_removal_index_of_match(s, id, w);
    let r = s.remove(w);
    assert forall|i: int| 0 <= i < r.len() implies r[i].id != id by {
        if i < w {
            assert(r[i] == s[i]);
        } else {
            assert(r[i] == s[i + 1]);
        }
    }
    lemma_remove_keeps_ids_unique(s, w);
}

/// Deleting an identifier that no item carries takes out the front item.
pub proof fn lemma_delete_missing(s: Seq<TodoItem>, id: ItemId)
    requires
        !has_id(s, id),
        s.len() > 0,
    ensures
        removal_index(s, id) == 0,
        s.remove(removal_index(s, id)) == s.subrange(1, s.len() as int),
{
    lemma_removal_index_of_miss(s, id);
    assert(s.remove(0) =~= s.subrange(1, s.len() as int));
}

/// A delete leaves the items that remain in the order they had.
pub proof fn lemma_delete_keeps_order(s: Seq<TodoItem>, id: ItemId)
    requires
        ids_unique(s),
        s.len() > 0,
    ensures
        same_relative_order(s, s.remove(removal_index(s, id))),
{
    let k = if has_id(s, id) {
        lemma_delete_existing(s, id);
        removal_index(s, id)
    } else {
        lemma_removal_index_of_miss(s, id);
        0
    };
    let r = s.remove(k);
    assert forall|i1: int, j1: int, i2: int, j2: int|
        0 <= i1 < s.len() && 0 <= j1 < s.len() && 0 <= i2 < r.len() && 0 <= j2 < r.len()
            && s[i1].id == r[i2].id && s[j1].id == r[j2].id implies (i1 < j1 <==> i2 < j2) by {
        let g1 = if i2 < k { i2 } else { i2 + 1 };
        let g2 = if j2 < k { j2 } else { j2 + 1 };
        assert(r[i2] == s[g1]);
        assert(r[j2] == s[g2]);
        assert(i1 == g1);
        assert(j1 == g2);
    }
}

/// Relies on im::Vector::new: an empty vector.
#[verifier::external_body]
pub(crate) fn empty_vector() -> (r: im::Vector<TodoItem>)
    ensures
        vector_items(r) == Seq::<TodoItem>::empty(),
{
    im::Vector::new()
}

/// Relies on im::Vector::len: the number of items held.
#[verifier::external_body]
pub(crate) fn vector_len(v: &im::Vector<TodoItem>) -> (r: usize)
    ensures
        r == vector_items(*v).len(),
{
    v.len()
}

/// Relies on im::Vector::get: the item at `i`, which exists below the length.
#[verifier::external_body]
pub(crate) fn vector_get(v: &im::Vector<TodoItem>, i: usize) -> (r: Option<&TodoItem>)
    ensures
        i < vector_items(*v).len() ==> r == Some(&vector_items(*v)[i as int]),
        i >= vector_items(*v).len() ==> r.is_none(),
{
    v.get(i)
}

/// Relies on im::Vector::push_back: the item goes to the back.
#[verifier::external_body]
pub(crate) fn vector_push_back(v: &mut im::Vector<TodoItem>, item: TodoItem)
    ensures
        vector_items(*final(v)) == vector_items(*old(v)).push(item),
{
    v.push_back(item)
}

/// Relies on im::Vector::remove: takes out and returns the item at `i`, which
/// must be below the length (the call panics otherwise).
#[verifier::external_body]
pub(crate) fn vector_remove(v: &mut im::Vector<TodoItem>, i: usize) -> (r: TodoItem)
    requires
        i < vector_items(*old(v)).len(),
    ensures
        r == vector_items(*old(v))[i as int],
        vector_items(*final(v)) == vector_items(*old(v)).remove(i as int),
{
    v.remove(i)
}

} // verus!
