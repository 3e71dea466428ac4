//! Normalization and idempotent import of loosely typed package-metadata
//! records into a relational store model.
//!
//! The crate has two halves. The record normalizer (`raw`, `deserializers`,
//! `models`) turns an untyped key/value record into a well-typed
//! `RemotePackage`, applying tolerant coercions for upstream type drift.
//! The import engine (`repository`) consumes normalized records and builds
//! a deduplicated store: packages keyed by their natural key, maintainers
//! keyed by contact, and package-maintainer links, all inside one in-memory
//! state that a caller persists atomically.

pub mod deserializers;
pub mod json;
pub mod models;
pub mod raw;
pub mod repository;
pub mod text;
