pub mod config;
pub mod domain;
pub mod error;
pub mod laws;
pub mod service;
pub mod store;
pub mod validate;
