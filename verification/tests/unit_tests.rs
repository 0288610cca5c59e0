use bookstore::config::Config;
use bookstore::domain::{Book, ListParams, UpdateBook, apply_update};
use bookstore::error::AppError;
use bookstore::service::{clamp_limit, clamp_offset};
use bookstore::validate::{validate_author, validate_title};

#[test]
fn error_status_codes() {
    assert_eq!(AppError::NotFound.status_code(), 404);
    assert_eq!(AppError::Validation("r".into()).status_code(), 422);
    assert_eq!(AppError::Db("d".into()).status_code(), 502);
}

#[test]
fn error_messages() {
    assert_eq!(AppError::NotFound.message(), "not found");
    assert_eq!(AppError::Validation("title too long".into()).message(), "validation error: title too long");
    assert_eq!(AppError::Db("boom".into()).message(), "database error: boom");
}

#[test]
fn storage_errors_are_classified() {
    assert_eq!(AppError::from_storage(true, "row not found".into()), AppError::NotFound);
    assert_eq!(AppError::from_storage(false, "boom".into()), AppError::Db("boom".into()));
}

#[test]
fn delete_outcome_follows_affected_rows() {
    assert_eq!(bookstore::error::delete_outcome(0), Err(AppError::NotFound));
    assert_eq!(bookstore::error::delete_outcome(1), Ok(()));
}

#[test]
fn validation_rules() {
    assert!(validate_title("Dune").is_ok());
    assert!(validate_title("").is_err());
    assert!(validate_title(" \u{a0} ").is_err());
    assert!(validate_title(&"t".repeat(200)).is_ok());
    assert!(validate_title(&"t".repeat(201)).is_err());
    assert!(validate_author("Herbert").is_ok());
    assert!(validate_author("\t").is_err());
    assert!(validate_author(&"a".repeat(100)).is_ok());
    assert!(validate_author(&"a".repeat(101)).is_err());
}

#[test]
fn clamping_rules() {
    assert_eq!(clamp_limit(0), 1);
    assert_eq!(clamp_limit(-3), 1);
    assert_eq!(clamp_limit(1), 1);
    assert_eq!(clamp_limit(20), 20);
    assert_eq!(clamp_limit(100), 100);
    assert_eq!(clamp_limit(101), 100);
    assert_eq!(clamp_offset(-1), 0);
    assert_eq!(clamp_offset(0), 0);
    assert_eq!(clamp_offset(7), 7);
}

#[test]
fn list_params_defaults() {
    let p = ListParams { offset: None, limit: None };
    assert_eq!(p.offset_or_default(), 0);
    assert_eq!(p.limit_or_default(), 20);
    let q = ListParams { offset: Some(3), limit: Some(50) };
    assert_eq!(q.offset_or_default(), 3);
    assert_eq!(q.limit_or_default(), 50);
}

#[test]
fn config_port_defaults() {
    let c = Config::new("postgres://localhost/db".into(), None);
    assert_eq!(c.port, 8080);
    let c = Config::new("postgres://localhost/db".into(), Some(3000));
    assert_eq!(c.port, 3000);
}

#[test]
fn merge_preserves_absent_fields() {
    let existing = Book {
        id: 9,
        title: "Old".into(),
        author: "Kept".into(),
        created_at: 100,
        updated_at: 150,
    };
    let merged = apply_update(&existing, UpdateBook { title: Some("New".into()), author: None }, 200);
    assert_eq!(merged.id, 9);
    assert_eq!(merged.title, "New");
    assert_eq!(merged.author, "Kept");
    assert_eq!(merged.created_at, 100);
    assert_eq!(merged.updated_at, 200);
    // the update timestamp never moves backwards, even if the clock does
    let merged = apply_update(&existing, UpdateBook::default(), 120);
    assert_eq!(merged.updated_at, 150);
}
