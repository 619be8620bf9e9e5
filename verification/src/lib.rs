//! A multi-source request-parameter binding engine.
//!
//! A record type declares, field by field, where its value comes from in an
//! inbound request: a path segment, a header, the query string, a JSON body,
//! a form-encoded body, or the ambient request context.  From such a
//! declaration the library compiles an immutable [`plan::BindingPlan`]: the
//! fields grouped by origin, the groups ordered by a fixed priority.  At
//! request time [`engine::bind`] runs the plan against read-only views of the
//! request and yields a populated record or a typed rejection.

pub mod classify;
pub mod coerce;
pub mod ctype;
pub mod engine;
pub mod json;
pub mod laws;
pub mod lookup;
pub mod mapping;
pub mod plan;
pub mod schema;
pub mod strutil;
pub mod types;
pub mod urlenc;
