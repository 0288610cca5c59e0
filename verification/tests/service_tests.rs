use bookstore::domain::{CreateBook, UpdateBook};
use bookstore::error::AppError;
use bookstore::service::BookService;
use bookstore::store::MemoryRepo;

fn svc() -> BookService {
    BookService::new(MemoryRepo::new())
}

#[test]
fn create_validates() {
    let mut s = svc();
    let err = s.create(CreateBook { title: "".into(), author: "A".into() }).unwrap_err();
    matches!(err, AppError::Validation(_));
    let ok = s.create(CreateBook { title: "Title".into(), author: "Auth".into() }).unwrap();
    assert_eq!(ok.title, "Title");
}

#[test]
fn crud_flow() {
    let mut s = svc();
    let b = s.create(CreateBook { title: "T1".into(), author: "A1".into() }).unwrap();
    let fetched = s.get(b.id).unwrap();
    assert_eq!(b, fetched);
    let updated = s.update(b.id, UpdateBook { title: Some("T2".into()), author: None }).unwrap();
    assert_eq!(updated.title, "T2");
    s.delete(b.id).unwrap();
    assert!(matches!(s.get(b.id), Err(AppError::NotFound)));
}

#[test]
fn create_sets_equal_timestamps() {
    let mut s = svc();
    let b = s.create(CreateBook { title: "A Title".into(), author: "An Author".into() }).unwrap();
    assert_eq!(b.created_at, b.updated_at);
    assert_eq!(b.title, "A Title");
    assert_eq!(b.author, "An Author");
}

#[test]
fn create_rejects_blank_title_and_persists_nothing() {
    let mut s = svc();
    let err = s.create(CreateBook { title: "  \t\n ".into(), author: "A".into() }).unwrap_err();
    match err {
        AppError::Validation(m) => assert_eq!(m, "title cannot be empty"),
        other => panic!("expected a validation error, got {:?}", other),
    }
    assert_eq!(s.list(0, 100).unwrap().len(), 0);
}

#[test]
fn create_rejects_overlong_title() {
    let mut s = svc();
    let ok_title: String = "x".repeat(200);
    assert!(s.create(CreateBook { title: ok_title, author: "A".into() }).is_ok());
    let long_title: String = "x".repeat(201);
    let err = s.create(CreateBook { title: long_title, author: "A".into() }).unwrap_err();
    match err {
        AppError::Validation(m) => assert_eq!(m, "title too long"),
        other => panic!("expected a validation error, got {:?}", other),
    }
}

#[test]
fn create_rejects_bad_author() {
    let mut s = svc();
    let err = s.create(CreateBook { title: "T".into(), author: "   ".into() }).unwrap_err();
    match err {
        AppError::Validation(m) => assert_eq!(m, "author cannot be empty"),
        other => panic!("expected a validation error, got {:?}", other),
    }
    let ok_author: String = "a".repeat(100);
    assert!(s.create(CreateBook { title: "T".into(), author: ok_author }).is_ok());
    let long_author: String = "a".repeat(101);
    let err = s.create(CreateBook { title: "T".into(), author: long_author }).unwrap_err();
    match err {
        AppError::Validation(m) => assert_eq!(m, "author too long"),
        other => panic!("expected a validation error, got {:?}", other),
    }
    assert_eq!(s.list(0, 100).unwrap().len(), 1);
}

#[test]
fn get_unknown_id_fails() {
    let s = svc();
    assert!(matches!(s.get(42), Err(AppError::NotFound)));
}

#[test]
fn update_title_only_keeps_author() {
    let mut s = svc();
    let b = s.create(CreateBook { title: "Old".into(), author: "Same".into() }).unwrap();
    let u = s.update(b.id, UpdateBook { title: Some("New".into()), author: None }).unwrap();
    assert_eq!(u.id, b.id);
    assert_eq!(u.title, "New");
    assert_eq!(u.author, "Same");
    assert_eq!(u.created_at, b.created_at);
    assert!(u.updated_at >= b.updated_at);
}

#[test]
fn update_validates_present_fields_only() {
    let mut s = svc();
    let b = s.create(CreateBook { title: "T".into(), author: "A".into() }).unwrap();
    let err = s.update(b.id, UpdateBook { title: Some("  ".into()), author: None }).unwrap_err();
    match err {
        AppError::Validation(m) => assert_eq!(m, "title cannot be empty"),
        other => panic!("expected a validation error, got {:?}", other),
    }
    // absent fields are never checked: a no-op update succeeds
    let u = s.update(b.id, UpdateBook::default()).unwrap();
    assert_eq!(u.title, "T");
    assert_eq!(u.author, "A");
}

#[test]
fn update_unknown_id_fails_without_write() {
    let mut s = svc();
    s.create(CreateBook { title: "T".into(), author: "A".into() }).unwrap();
    let err = s.update(999, UpdateBook { title: Some("X".into()), author: None }).unwrap_err();
    assert!(matches!(err, AppError::NotFound));
    let all = s.list(0, 100).unwrap();
    assert_eq!(all.len(), 1);
    assert_eq!(all[0].title, "T");
}

#[test]
fn delete_then_get_fails() {
    let mut s = svc();
    let b = s.create(CreateBook { title: "T".into(), author: "A".into() }).unwrap();
    s.delete(b.id).unwrap();
    assert!(matches!(s.get(b.id), Err(AppError::NotFound)));
    assert!(matches!(s.delete(b.id), Err(AppError::NotFound)));
}

#[test]
fn delete_unknown_id_fails() {
    let mut s = svc();
    assert!(matches!(s.delete(5), Err(AppError::NotFound)));
}

#[test]
fn list_returns_newest_first() {
    let mut s = svc();
    let b1 = s.create(CreateBook { title: "One".into(), author: "A".into() }).unwrap();
    let b2 = s.create(CreateBook { title: "Two".into(), author: "A".into() }).unwrap();
    let b3 = s.create(CreateBook { title: "Three".into(), author: "A".into() }).unwrap();
    let page = s.list(0, 20).unwrap();
    assert_eq!(page.len(), 3);
    assert_eq!(page[0].id, b3.id);
    assert_eq!(page[1].id, b2.id);
    assert_eq!(page[2].id, b1.id);
    assert!(page[0].created_at >= page[1].created_at);
    assert!(page[1].created_at >= page[2].created_at);
}

#[test]
fn list_clamps_paging() {
    let mut s = svc();
    for i in 0..3 {
        let title = format!("B{}", i);
        s.create(CreateBook { title, author: "A".into() }).unwrap();
    }
    // limit clamped up to 1
    assert_eq!(s.list(0, 0).unwrap().len(), 1);
    assert_eq!(s.list(0, -9).unwrap().len(), 1);
    // limit clamped down to 100
    assert_eq!(s.list(0, 100000).unwrap().len(), 3);
    // negative offset clamped to 0
    assert_eq!(s.list(-4, 20).unwrap().len(), 3);
    // offset beyond the record count yields an empty page, not an error
    assert_eq!(s.list(50, 20).unwrap().len(), 0);
    // offset skips the newest records
    let tail = s.list(1, 20).unwrap();
    assert_eq!(tail.len(), 2);
}

#[test]
fn distinct_identifiers_are_generated() {
    let mut s = svc();
    let a = s.create(CreateBook { title: "T".into(), author: "A".into() }).unwrap();
    let b = s.create(CreateBook { title: "T".into(), author: "A".into() }).unwrap();
    assert_ne!(a.id, b.id);
}

#[test]
fn scenario_full_lifecycle() {
    let mut s = svc();
    let b = s.create(CreateBook { title: "Dune".into(), author: "Herbert".into() }).unwrap();
    assert_eq!(b.created_at, b.updated_at);
    let u = s.update(b.id, UpdateBook { title: Some("Dune Messiah".into()), author: None }).unwrap();
    assert_eq!(u.title, "Dune Messiah");
    assert_eq!(u.author, "Herbert");
    assert!(u.updated_at > u.created_at);
    s.delete(b.id).unwrap();
    let err = s.get(b.id).unwrap_err();
    assert!(matches!(err, AppError::NotFound));
    assert_eq!(err.status_code(), 404);
    assert_eq!(err.message(), "not found");
}
