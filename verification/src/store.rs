//! The in-memory implementation of the storage port, verified against a
//! sequence model: the records' models ordered most recently created first.
//!
//! The production deployment speaks to a relational store instead; this
//! implementation backs the application service wherever no database is
//! wired in, and pins down the meaning of every port operation.

use vstd::prelude::*;
use crate::domain::{apply_update, merged_book, Book, BookModel, CreateBook, UpdateBook};
use crate::error::AppError;

verus! {

/// The model of a stored collection of records.
pub open spec fn view_of(books: Seq<Book>) -> Seq<BookModel> {
    books.map_values(|b: Book| b@)
}

/// Whether some record holds the identifier.
pub open spec fn contains_id(s: Seq<BookModel>, id: u128) -> bool {
    exists|i: int| 0 <= i < s.len() && s[i].id == id
}

/// The position of the record holding the identifier; meaningful only where
/// `contains_id` holds and identifiers are unique.
pub open spec fn index_of_id(s: Seq<BookModel>, id: u128) -> int {
    choose|i: int| 0 <= i < s.len() && s[i].id == id
}

/// The record holding the identifier, if any.
pub open spec fn spec_get(s: Seq<BookModel>, id: u128) -> Option<BookModel> {
    if contains_id(s, id) {
        Some(s[index_of_id(s, id)])
    } else {
        None
    }
}

/// The collection without the record holding the identifier; unchanged where
/// none does.
pub open spec fn remove_id(s: Seq<BookModel>, id: u128) -> Seq<BookModel> {
    if contains_id(s, id) {
        s.remove(index_of_id(s, id))
    } else {
        s
    }
}

/// The collection after a creation: the new record stands first, and any
/// record that held the same identifier is gone.
pub open spec fn inserted(s: Seq<BookModel>, b: BookModel) -> Seq<BookModel> {
    seq![b] + remove_id(s, b.id)
}

/// No two records share an identifier.
pub open spec fn unique_ids(s: Seq<BookModel>) -> bool {
    forall|i: int, j: int| 0 <= i < j < s.len() ==> s[i].id != s[j].id
}

/// The collection invariant: identifiers are unique and every record is
/// well formed.
pub open spec fn books_wf(s: Seq<BookModel>) -> bool {
    &&& unique_ids(s)
    &&& forall|i: int| 0 <= i < s.len() ==> (#[trigger] s[i]).wf()
}

/// The page a list operation returns: up to `limit` records starting at
/// `offset`, empty where the offset exceeds the record count.
pub open spec fn spec_list(s: Seq<BookModel>, offset: int, limit: int) -> Seq<BookModel>
    recommends
        offset >= 0,
        limit >= 0,
{
    let start = if offset <= s.len() {
        offset
    } else {
        s.len() as int
    };
    let end = if offset + limit <= s.len() {
        offset + limit
    } else {
        s.len() as int
    };
    s.subrange(start, end)
}

/// What a successful update guarantees: the record with the identifier, and
/// only it, is replaced in place; present fields take the given values,
/// absent fields keep the stored ones, the creation timestamp is kept, and
/// the update timestamp never moves backwards.
pub open spec fn updated_ok(
    s0: Seq<BookModel>,
    id: u128,
    data: UpdateBook,
    b: BookModel,
    s1: Seq<BookModel>,
) -> bool {
    let i = index_of_id(s0, id);
    &&& contains_id(s0, id)
    &&& b.id == id
    &&& b.title == (match data.title {
        Some(t) => t@,
        None => s0[i].title,
    })
    &&& b.author == (match data.author {
        Some(a) => a@,
        None => s0[i].author,
    })
    &&& b.created_at == s0[i].created_at
    &&& b.updated_at >= s0[i].updated_at
    &&& s1 == s0.update(i, b)
}

/// With unique identifiers, any position holding an identifier is the one
/// `index_of_id` picks.
pub proof fn lemma_index_of_id(s: Seq<BookModel>, id: u128, i: int)
    requires
        unique_ids(s),
        0 <= i < s.len(),
        s[i].id == id,
    ensures
        contains_id(s, id),
        index_of_id(s, id) == i,
{
    assert(contains_id(s, id));
    let j = index_of_id(s, id);
    assert(0 <= j < s.len() && s[j].id == id);
    if i < j {
        assert(s[i].id != s[j].id);
    }
    if j < i {
        assert(s[j].id != s[i].id);
    }
}

/// Removing a position keeps identifiers unique.
pub proof fn lemma_remove_keeps_unique(s: Seq<BookModel>, k: int)
    requires
        unique_ids(s),
        0 <= k < s.len(),
    ensures
        unique_ids(s.remove(k)),
{
    let r = s.remove(k);
    assert forall|i: int, j: int| 0 <= i < j < r.len() implies r[i].id != r[j].id by {
        let pi: int = if i < k { i } else { i + 1 };
        let pj: int = if j < k { j } else { j + 1 };
        assert(r[i] == s[pi]);
        assert(r[j] == s[pj]);
        assert(s[pi].id != s[pj].id);
    }
}

/// With unique identifiers, the identifier is gone after its removal.
pub proof fn lemma_remove_id_absent(s: Seq<BookModel>, id: u128)
    requires
        unique_ids(s),
    ensures
        !contains_id(remove_id(s, id), id),
{
    if contains_id(s, id) {
        let k = index_of_id(s, id);
        assert(0 <= k < s.len() && s[k].id == id);
        let r = s.remove(k);
        if contains_id(r, id) {
            let m = choose|m: int| 0 <= m < r.len() && r[m].id == id;
            if m < k {
                assert(r[m] == s[m]);
                assert(s[m].id != s[k].id);
            } else {
                assert(r[m] == s[m + 1]);
                assert(s[k].id != s[m + 1].id);
            }
        }
    }
}

/// Relies on uuid::Uuid::new_v4, read out with as_u128: a fresh random
/// 128-bit identifier drawn from the operating system's random source.
/// Nothing is assumed of the value.
#[verifier::external_body]
fn fresh_id() -> (r: u128) {
    uuid::Uuid::new_v4().as_u128()
}

/// Relies on time::OffsetDateTime::now_utc, read out with
/// unix_timestamp_nanos: the current time as nanoseconds since the Unix
/// epoch. Nothing is assumed of the value.
#[verifier::external_body]
fn now_nanos() -> (r: i128) {
    time::OffsetDateTime::now_utc().unix_timestamp_nanos()
}

/// The in-memory storage port: records held most recently created first.
pub struct MemoryRepo {
    books: Vec<Book>,
}

impl View for MemoryRepo {
    type V = Seq<BookModel>;

    closed spec fn view(&self) -> Seq<BookModel> {
        view_of(self.books@)
    }
}

impl MemoryRepo {
    /// The store invariant.
    pub open spec fn inv(&self) -> bool {
        books_wf(self@)
    }

    /// An empty store.
    pub fn new() -> (s: MemoryRepo)
        ensures
            s.inv(),
            s@ == Seq::<BookModel>::empty(),
    {
        let s = MemoryRepo { books: Vec::new() };
        proof {
            assert(s@ =~= Seq::<BookModel>::empty());
        }
        s
    }

    /// The position of the record holding the identifier, if any.
    fn find_index(&self, id: u128) -> (r: Option<usize>)
        ensures
            match r {
                Some(i) => i < self@.len() && self@[i as int].id == id,
                None => !contains_id(self@, id),
            },
    {
        let n = self.books.len();
        let mut i: usize = 0;
        while i < n
            invariant
                n == self.books@.len(),
                0 <= i <= n,
                forall|j: int| 0 <= j < i ==> self@[j].id != id,
            decreases n - i,
        {
            if self.books[i].id == id {
                return Some(i);
            }
            i += 1;
        }
        None
    }

    /// Looks a record up by identifier; the missing-resource error where none
    /// holds it.
    pub fn get(&self, id: u128) -> (r: Result<Book, AppError>)
        requires
            self.inv(),
        ensures
            match r {
                Ok(b) => spec_get(self@, id) == Some(b@),
                Err(e) => e == AppError::NotFound && spec_get(self@, id) is None,
            },
    {
        match self.find_index(id) {
            Some(i) => {
                proof {
                    lemma_index_of_id(self@, id, i as int);
                }
                Ok(self.books[i].clone())
            },
            None => Err(AppError::NotFound),
        }
    }

    /// Persists a new record built from the given identifier and timestamp:
    /// it stands first, and any record that held the identifier is gone.
    pub fn create_with(&mut self, data: CreateBook, id: u128, now: i128) -> (b: Book)
        requires
            old(self).inv(),
        ensures
            final(self).inv(),
            b@.id == id,
            b@.title == data.title@,
            b@.author == data.author@,
            b@.created_at == now as int,
            b@.updated_at == now as int,
            final(self)@ == inserted(old(self)@, b@),
    {
        let ghost s0 = self@;
        match self.find_index(id) {
            Some(i) => {
                proof {
                    lemma_index_of_id(s0, id, i as int);
                    lemma_remove_keeps_unique(s0, i as int);
                    lemma_remove_id_absent(s0, id);
                }
                let _ = self.books.remove(i);
                proof {
                    assert(self@ =~= s0.remove(i as int));
                }
            },
            None => {},
        }
        let ghost s1 = self@;
        proof {
            assert(s1 == remove_id(s0, id));
            assert(!contains_id(s1, id)) by {
                lemma_remove_id_absent(s0, id);
            }
        }
        let b = Book { id, title: data.title, author: data.author, created_at: now, updated_at: now };
        let r = b.clone();
        self.books.insert(0, b);
        proof {
            assert(self@ =~= seq![r@] + s1);
            let t = self@;
            assert forall|i: int, j: int| 0 <= i < j < t.len() implies t[i].id != t[j].id by {
                if i == 0 {
                    assert(t[j] == s1[j - 1]);
                    assert(s1[j - 1].id != id) by {
                        if s1[j - 1].id == id {
                            assert(contains_id(s1, id));
                        }
                    }
                } else {
                    assert(t[i] == s1[i - 1]);
                    assert(t[j] == s1[j - 1]);
                }
            }
        }
        r
    }

    /// Creates a record: generates a fresh identifier, stamps both timestamps
    /// with one reading of the clock, persists it, and returns the persisted
    /// form. Never fails; content rules are the application service's job.
    pub fn create(&mut self, data: CreateBook) -> (r: Result<Book, AppError>)
        requires
            old(self).inv(),
        ensures
            final(self).inv(),
            r is Ok,
            (r matches Ok(b) ==> {
                &&& b@.title == data.title@
                &&& b@.author == data.author@
                &&& b@.created_at == b@.updated_at
                &&& final(self)@ == inserted(old(self)@, b@)
            }),
    {
        let id = fresh_id();
        let now = now_nanos();
        let b = self.create_with(data, id, now);
        Ok(b)
    }

    /// Returns the requested page: up to `limit` records starting at
    /// `offset`, in stored order (most recently created first); empty where
    /// the offset exceeds the record count.
    pub fn list(&self, offset: usize, limit: usize) -> (r: Vec<Book>)
        requires
            self.inv(),
        ensures
            view_of(r@) == spec_list(self@, offset as int, limit as int),
    {
        let n = self.books.len();
        let start = if offset < n {
            offset
        } else {
            n
        };
        let room = n - start;
        let count = if limit < room {
            limit
        } else {
            room
        };
        let end = start + count;
        let mut out: Vec<Book> = Vec::new();
        proof {
            assert(view_of(out@) =~= self@.subrange(start as int, start as int));
        }
        let mut i = start;
        while i < end
            invariant
                start <= i <= end <= n,
                n == self.books@.len(),
                view_of(out@) == self@.subrange(start as int, i as int),
            decreases end - i,
        {
            let ghost prev = out@;
            let c = self.books[i].clone();
            let ghost cv = c@;
            out.push(c);
            proof {
                assert(self@.len() == n);
                assert(cv == self@[i as int]);
                assert(view_of(prev).len() == prev.len());
                assert(prev.len() == i - start);
                assert forall|k: int| 0 <= k < out@.len() implies view_of(out@)[k] == self@.subrange(
                    start as int,
                    i as int + 1,
                )[k] by {
                    if k < prev.len() {
                        assert(view_of(out@)[k] == view_of(prev)[k]);
                        assert(view_of(prev)[k] == self@.subrange(start as int, i as int)[k]);
                        assert(self@.subrange(start as int, i as int)[k] == self@[start + k]);
                        assert(self@.subrange(start as int, i as int + 1)[k] == self@[start + k]);
                    } else {
                        assert(k == i - start);
                        assert(view_of(out@)[k] == cv);
                        assert(self@.subrange(start as int, i as int + 1)[k] == self@[i as int]);
                    }
                }
                assert(view_of(out@) =~= self@.subrange(start as int, i as int + 1));
            }
            i += 1;
        }
        proof {
            assert(self@.subrange(start as int, end as int) =~= spec_list(
                self@,
                offset as int,
                limit as int,
            ));
        }
        out
    }

    /// Replaces only the fields present in the update over the stored record
    /// with that identifier, stamping the given time; the missing-resource
    /// error, and no write at all, where none holds it.
    pub fn update_with(&mut self, id: u128, data: UpdateBook, now: i128) -> (r: Result<
        Book,
        AppError,
    >)
        requires
            old(self).inv(),
        ensures
            final(self).inv(),
            match r {
                Ok(b) => {
                    &&& contains_id(old(self)@, id)
                    &&& b@ == merged_book(
                        old(self)@[index_of_id(old(self)@, id)],
                        data,
                        now as int,
                    )
                    &&& final(self)@ == old(self)@.update(index_of_id(old(self)@, id), b@)
                },
                Err(e) => {
                    &&& e == AppError::NotFound
                    &&& !contains_id(old(self)@, id)
                    &&& final(self)@ == old(self)@
                },
            },
    {
        let ghost s0 = self@;
        match self.find_index(id) {
            Some(i) => {
                proof {
                    lemma_index_of_id(s0, id, i as int);
                }
                let merged = apply_update(&self.books[i], data, now);
                let r = merged.clone();
                let _ = self.books.remove(i);
                self.books.insert(i, merged);
                proof {
                    assert(self@ =~= s0.update(i as int, r@));
                    let t = self@;
                    assert forall|p: int, q: int| 0 <= p < q < t.len() implies t[p].id != t[q].id by {
                        assert(s0[p].id != s0[q].id);
                        assert(r@.id == s0[i as int].id);
                    }
                    assert forall|p: int| 0 <= p < t.len() implies (#[trigger] t[p]).wf() by {
                        assert(s0[p].wf());
                    }
                }
                Ok(r)
            },
            None => Err(AppError::NotFound),
        }
    }

    /// Replaces only the fields present in the update, stamping the current
    /// time; the update timestamp never moves backwards.
    pub fn update(&mut self, id: u128, data: UpdateBook) -> (r: Result<Book, AppError>)
        requires
            old(self).inv(),
        ensures
            final(self).inv(),
            match r {
                Ok(b) => updated_ok(old(self)@, id, data, b@, final(self)@),
                Err(e) => {
                    &&& e == AppError::NotFound
                    &&& !contains_id(old(self)@, id)
                    &&& final(self)@ == old(self)@
                },
            },
    {
        let now = now_nanos();
        self.update_with(id, data, now)
    }

    /// The number of stored records.
    pub fn count(&self) -> (n: usize)
        ensures
            n == self@.len(),
    {
        proof {
            assert(self@.len() == self.books@.len());
        }
        self.books.len()
    }

    /// Removes the record with the identifier; the missing-resource error
    /// where none holds it.
    pub fn delete(&mut self, id: u128) -> (r: Result<(), AppError>)
        requires
            old(self).inv(),
        ensures
            final(self).inv(),
            match r {
                Ok(()) => contains_id(old(self)@, id) && final(self)@ == remove_id(old(self)@, id),
                Err(e) => {
                    &&& e == AppError::NotFound
                    &&& !contains_id(old(self)@, id)
                    &&& final(self)@ == old(self)@
                },
            },
    {
        let ghost s0 = self@;
        match self.find_index(id) {
            Some(i) => {
                proof {
                    lemma_index_of_id(s0, id, i as int);
                    lemma_remove_keeps_unique(s0, i as int);
                }
                let _ = self.books.remove(i);
                proof {
                    assert(self@ =~= s0.remove(i as int));
                }
                Ok(())
            },
            None => Err(AppError::NotFound),
        }
    }
}

} // verus!
