//! Core of a declarative, selector-driven catalog extractor.
//!
//! The crate holds the pieces shared by every source-specific adapter: an
//! extraction rule engine that turns a parsed document into typed entities, a
//! lazy resumable page iterator backed by a fetch callback, a URL
//! classification router, an isolated script-evaluation facility, and a
//! capability/tag registry with a set-filter query. Transport, per-source
//! markup shapes and registration glue are the caller's business.

pub mod dom;
pub mod engine;
pub mod error;
pub mod models;
pub mod pages;
pub mod pattern;
pub mod registry;
pub mod routing;
pub mod sandbox;
