//! The application service: enforces the business rules and the paging
//! bounds, then delegates to the storage port.

use vstd::prelude::*;
use crate::domain::{Book, BookModel, CreateBook, UpdateBook};
use crate::error::AppError;
use crate::store::{
    contains_id, inserted, remove_id, spec_get, spec_list, updated_ok, view_of, MemoryRepo,
};
use crate::validate::{
    author_error_reason, author_valid, title_error_reason, title_valid, validate_author,
    validate_title,
};

verus! {

/// The smallest page size a caller can obtain.
pub const LIMIT_MIN: i64 = 1;

/// The largest page size a caller can obtain.
pub const LIMIT_MAX: i64 = 100;

/// The page size actually queried: the requested one clamped into
/// [LIMIT_MIN, LIMIT_MAX].
pub open spec fn spec_clamp_limit(limit: i64) -> i64 {
    if limit < LIMIT_MIN {
        LIMIT_MIN
    } else if limit > LIMIT_MAX {
        LIMIT_MAX
    } else {
        limit
    }
}

/// The offset actually queried: a negative request becomes zero.
pub open spec fn spec_clamp_offset(offset: i64) -> i64 {
    if offset < 0 {
        0
    } else {
        offset
    }
}

/// Clamps a requested page size into the allowed range.
pub fn clamp_limit(limit: i64) -> (r: i64)
    ensures
        r == spec_clamp_limit(limit),
        LIMIT_MIN <= r <= LIMIT_MAX,
{
    if limit < LIMIT_MIN {
        LIMIT_MIN
    } else if limit > LIMIT_MAX {
        LIMIT_MAX
    } else {
        limit
    }
}

/// Clamps a requested offset to be non-negative.
pub fn clamp_offset(offset: i64) -> (r: i64)
    ensures
        r == spec_clamp_offset(offset),
        r >= 0,
{
    if offset < 0 {
        0
    } else {
        offset
    }
}

/// Every field present in a partial update passes its business rule.
pub open spec fn update_title_ok(data: UpdateBook) -> bool {
    match data.title {
        Some(t) => title_valid(t@),
        None => true,
    }
}

/// Every author field present in a partial update passes its business rule.
pub open spec fn update_author_ok(data: UpdateBook) -> bool {
    match data.author {
        Some(a) => author_valid(a@),
        None => true,
    }
}

/// The reason a partial update is rejected: the title's rule is reported
/// before the author's.
pub open spec fn update_reject_reason(data: UpdateBook) -> Seq<char> {
    if !update_title_ok(data) {
        title_error_reason(
            match data.title {
                Some(t) => t@,
                None => Seq::<char>::empty(),
            },
        )
    } else {
        author_error_reason(
            match data.author {
                Some(a) => a@,
                None => Seq::<char>::empty(),
            },
        )
    }
}

/// The application service over the storage port.
pub struct BookService {
    repo: MemoryRepo,
}

impl View for BookService {
    type V = Seq<BookModel>;

    closed spec fn view(&self) -> Seq<BookModel> {
        self.repo@
    }
}

impl BookService {
    /// The service invariant: the wrapped store's own.
    pub closed spec fn inv(&self) -> bool {
        self.repo.inv()
    }

    /// Wraps a storage port.
    pub fn new(repo: MemoryRepo) -> (s: BookService)
        requires
            repo.inv(),
        ensures
            s.inv(),
            s@ == repo@,
    {
        BookService { repo }
    }

    /// Validates the input, then creates the record. On a validation failure
    /// nothing is persisted; on valid input creation always succeeds and the
    /// two timestamps of the returned record are equal.
    pub fn create(&mut self, data: CreateBook) -> (r: Result<Book, AppError>)
        requires
            old(self).inv(),
        ensures
            final(self).inv(),
            title_valid(data.title@) && author_valid(data.author@) ==> r is Ok,
            (r matches Ok(b) ==> {
                &&& title_valid(data.title@) && author_valid(data.author@)
                &&& b@.title == data.title@
                &&& b@.author == data.author@
                &&& b@.created_at == b@.updated_at
                &&& final(self)@ == inserted(old(self)@, b@)
            }),
            !title_valid(data.title@) ==> {
                &&& (r matches Err(e) && e matches AppError::Validation(m) && m@
                    == title_error_reason(data.title@))
                &&& final(self)@ == old(self)@
            },
            title_valid(data.title@) && !author_valid(data.author@) ==> {
                &&& (r matches Err(e) && e matches AppError::Validation(m) && m@
                    == author_error_reason(data.author@))
                &&& final(self)@ == old(self)@
            },
    {
        match validate_title(data.title.as_str()) {
            Err(e) => {
                return Err(e);
            },
            Ok(()) => {},
        }
        match validate_author(data.author.as_str()) {
            Err(e) => {
                return Err(e);
            },
            Ok(()) => {},
        }
        self.repo.create(data)
    }

    /// Pure delegation: the record with the identifier, or the
    /// missing-resource error.
    pub fn get(&self, id: u128) -> (r: Result<Book, AppError>)
        requires
            self.inv(),
        ensures
            match r {
                Ok(b) => spec_get(self@, id) == Some(b@),
                Err(e) => e == AppError::NotFound && spec_get(self@, id) is None,
            },
    {
        self.repo.get(id)
    }

    /// Clamps the paging request, then returns the page. Never fails: an
    /// offset beyond the record count yields an empty page.
    pub fn list(&self, offset: i64, limit: i64) -> (r: Result<Vec<Book>, AppError>)
        requires
            self.inv(),
        ensures
            r is Ok,
            (r matches Ok(v) ==> view_of(v@) == spec_list(
                self@,
                spec_clamp_offset(offset) as int,
                spec_clamp_limit(limit) as int,
            )),
    {
        let l = clamp_limit(limit);
        let o = clamp_offset(offset);
        let l_us: usize = l as usize;
        let n = self.repo.count();
        let o_us: usize = if (o as u64) >= (n as u64) {
            n
        } else {
            o as usize
        };
        let page = self.repo.list(o_us, l_us);
        proof {
            assert(spec_list(self@, o_us as int, l_us as int) =~= spec_list(
                self@,
                spec_clamp_offset(offset) as int,
                spec_clamp_limit(limit) as int,
            ));
        }
        Ok(page)
    }

    /// Validates the fields present in the input, then merges them over the
    /// stored record. Absent fields are never checked nor changed; on a
    /// validation failure, and on a missing identifier, nothing is written.
    pub fn update(&mut self, id: u128, data: UpdateBook) -> (r: Result<Book, AppError>)
        requires
            old(self).inv(),
        ensures
            final(self).inv(),
            update_title_ok(data) && update_author_ok(data) ==> (match r {
                Ok(b) => updated_ok(old(self)@, id, data, b@, final(self)@),
                Err(e) => {
                    &&& e == AppError::NotFound
                    &&& !contains_id(old(self)@, id)
                    &&& final(self)@ == old(self)@
                },
            }),
            !(update_title_ok(data) && update_author_ok(data)) ==> {
                &&& (r matches Err(e) && e matches AppError::Validation(m) && m@
                    == update_reject_reason(data))
                &&& final(self)@ == old(self)@
            },
    {
        match &data.title {
            Some(t) => {
                match validate_title(t.as_str()) {
                    Err(e) => {
                        return Err(e);
                    },
                    Ok(()) => {},
                }
            },
            None => {},
        }
        match &data.author {
            Some(a) => {
                match validate_author(a.as_str()) {
                    Err(e) => {
                        return Err(e);
                    },
                    Ok(()) => {},
                }
            },
            None => {},
        }
        self.repo.update(id, data)
    }

    /// Pure delegation: removes the record with the identifier, or fails with
    /// the missing-resource error where none holds it.
    pub fn delete(&mut self, id: u128) -> (r: Result<(), AppError>)
        requires
            old(self).inv(),
        ensures
            final(self).inv(),
            match r {
                Ok(()) => contains_id(old(self)@, id) && final(self)@ == remove_id(old(self)@, id),
                Err(e) => {
                    &&& e == AppError::NotFound
                    &&& !contains_id(old(self)@, id)
                    &&& final(self)@ == old(self)@
                },
            },
    {
        self.repo.delete(id)
    }
}

} // verus!
