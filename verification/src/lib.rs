//! The rules of a link-shortening redirect service.
//!
//! The service loads a table of short codes once, and then answers two kinds
//! of request: a count of the table, and a redirect for a short code. Every
//! successful redirect is reported, on a best-effort basis, to a page-view
//! collector.
//!
//! This crate holds what the service decides: what the table maps a code to,
//! which reply a request gets, and what the report to the collector looks
//! like. Sockets, the clock and the file system belong to the program that
//! links the crate.

pub mod analytics;
pub mod config;
pub mod handlers;
pub mod response;
pub mod store;
pub mod text;
