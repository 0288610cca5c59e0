//! The book entity, its input shapes, and the partial-update merge rule.

use vstd::prelude::*;

verus! {

/// Mathematical model of a persisted book record. Timestamps are
/// nanoseconds since the Unix epoch.
#[verifier::ext_equal]
pub ghost struct BookModel {
    pub id: u128,
    pub title: Seq<char>,
    pub author: Seq<char>,
    pub created_at: int,
    pub updated_at: int,
}

impl BookModel {
    /// A record's update timestamp never sits before its creation timestamp.
    pub open spec fn wf(self) -> bool {
        self.updated_at >= self.created_at
    }
}

/// A book record: a server-generated identifier, the content fields, and the
/// creation and last-update timestamps (nanoseconds since the Unix epoch).
#[derive(Debug, PartialEq, Eq)]
pub struct Book {
    pub id: u128,
    pub title: String,
    pub author: String,
    pub created_at: i128,
    pub updated_at: i128,
}

impl View for Book {
    type V = BookModel;

    open spec fn view(&self) -> BookModel {
        BookModel {
            id: self.id,
            title: self.title@,
            author: self.author@,
            created_at: self.created_at as int,
            updated_at: self.updated_at as int,
        }
    }
}

impl Clone for Book {
    fn clone(&self) -> (r: Book)
        ensures
            r@ == self@,
    {
        Book {
            id: self.id,
            title: self.title.clone(),
            author: self.author.clone(),
            created_at: self.created_at,
            updated_at: self.updated_at,
        }
    }
}

/// Input shape for creating a book; unvalidated until the service checks it.
#[derive(Debug, Clone)]
pub struct CreateBook {
    pub title: String,
    pub author: String,
}

/// Input shape for a partial update: a field present means "replace", a field
/// absent means "leave unchanged".
#[derive(Debug, Clone)]
pub struct UpdateBook {
    pub title: Option<String>,
    pub author: Option<String>,
}

impl Default for UpdateBook {
    /// The empty update: no field is replaced.
    fn default() -> (d: UpdateBook)
        ensures
            d.title is None,
            d.author is None,
    {
        UpdateBook { title: None, author: None }
    }
}

/// The record that results from merging a partial update over an existing
/// one: present fields replace the stored values, absent fields are kept, the
/// creation timestamp is immutable, and the update timestamp advances to
/// `now` but never moves backwards.
pub open spec fn merged_book(prev: BookModel, data: UpdateBook, now: int) -> BookModel {
    BookModel {
        id: prev.id,
        title: match data.title {
            Some(t) => t@,
            None => prev.title,
        },
        author: match data.author {
            Some(a) => a@,
            None => prev.author,
        },
        created_at: prev.created_at,
        updated_at: if now >= prev.updated_at {
            now
        } else {
            prev.updated_at
        },
    }
}

/// Merges a partial update over an existing record, per `merged_book`.
pub fn apply_update(existing: &Book, data: UpdateBook, now: i128) -> (b: Book)
    ensures
        b@ == merged_book(existing@, data, now as int),
        b@.updated_at >= existing@.updated_at,
        existing@.wf() ==> b@.wf(),
{
    let title = match data.title {
        Some(t) => t,
        None => existing.title.clone(),
    };
    let author = match data.author {
        Some(a) => a,
        None => existing.author.clone(),
    };
    let updated_at = if now >= existing.updated_at {
        now
    } else {
        existing.updated_at
    };
    Book { id: existing.id, title, author, created_at: existing.created_at, updated_at }
}

/// Optional query parameters of the list operation, before defaults apply.
pub struct ListParams {
    pub offset: Option<i64>,
    pub limit: Option<i64>,
}

/// The offset used when the query names none.
pub const DEFAULT_OFFSET: i64 = 0;

/// The page size used when the query names none.
pub const DEFAULT_LIMIT: i64 = 20;

impl ListParams {
    /// The requested offset, or the default where none was given.
    pub fn offset_or_default(&self) -> (r: i64)
        ensures
            r == (match self.offset {
                Some(o) => o,
                None => DEFAULT_OFFSET,
            }),
    {
        match self.offset {
            Some(o) => o,
            None => DEFAULT_OFFSET,
        }
    }

    /// The requested page size, or the default where none was given.
    pub fn limit_or_default(&self) -> (r: i64)
        ensures
            r == (match self.limit {
                Some(l) => l,
                None => DEFAULT_LIMIT,
            }),
    {
        match self.limit {
            Some(l) => l,
            None => DEFAULT_LIMIT,
        }
    }
}

} // verus!
