//! A GraphQL endpoint over HTTP: one route serves an interactive playground
//! page, one executes GraphQL operations against a schema, and every other
//! request is answered with 404.
//!
//! The library decides and renders; it performs no I/O. A transport hands it
//! the head of a request, collects the body when asked to, and sends what the
//! library returns.

pub mod config;
pub mod envelope;
pub mod error;
pub mod handler;
pub mod json;
pub mod message;
pub mod page;
pub mod route;
pub mod text;

