//! Laws relating the storage operations to one another, proved over the
//! sequence model that the operations' contracts speak of.

use vstd::prelude::*;
use crate::domain::BookModel;
use crate::store::{
    books_wf, contains_id, index_of_id, inserted, lemma_remove_id_absent, remove_id, spec_get,
    spec_list,
};

verus! {

/// A lookup right after a creation returns the created record: the new record
/// stands first and no other record holds its identifier.
pub proof fn lemma_get_after_create(s: Seq<BookModel>, b: BookModel)
    requires
        books_wf(s),
    ensures
        spec_get(inserted(s, b), b.id) == Some(b),
{
    let t = inserted(s, b);
    let r = remove_id(s, b.id);
    assert(t[0] == b);
    lemma_remove_id_absent(s, b.id);
    assert forall|i: int| 1 <= i < t.len() implies t[i].id != b.id by {
        assert(t[i] == r[i - 1]);
        if r[i - 1].id == b.id {
            assert(contains_id(r, b.id));
        }
    }
    assert(contains_id(t, b.id));
    let j = index_of_id(t, b.id);
    assert(0 <= j < t.len() && t[j].id == b.id);
    assert(j == 0);
}

/// A creation whose identifier is fresh removes nothing: the new record is
/// put in front of the collection, which grows by exactly one.
pub proof fn lemma_create_fresh_grows(s: Seq<BookModel>, b: BookModel)
    requires
        !contains_id(s, b.id),
    ensures
        inserted(s, b) == seq![b] + s,
        inserted(s, b).len() == s.len() + 1,
        inserted(s, b)[0] == b,
{
    assert(inserted(s, b) =~= seq![b] + s);
}

/// A lookup of an identifier that no record holds fails.
pub proof fn lemma_get_absent(s: Seq<BookModel>, id: u128)
    requires
        !contains_id(s, id),
    ensures
        spec_get(s, id) is None,
{
}

/// A lookup right after a delete of the same identifier fails: the delete is
/// visibly effective.
pub proof fn lemma_get_after_delete(s: Seq<BookModel>, id: u128)
    requires
        books_wf(s),
    ensures
        spec_get(remove_id(s, id), id) is None,
{
    lemma_remove_id_absent(s, id);
}

/// A first page large enough for the whole collection returns it entire, in
/// stored order: most recently created first.
pub proof fn lemma_list_first_page_all(s: Seq<BookModel>, limit: int)
    requires
        s.len() <= limit,
    ensures
        spec_list(s, 0, limit) == s,
{
    assert(spec_list(s, 0, limit) =~= s);
}

} // verus!
