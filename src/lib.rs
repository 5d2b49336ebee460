//! A fluent SQL statement builder with verified rendering.
//!
//! A [`Sqlite3Builder`] collects the clauses of one SELECT, INSERT, UPDATE or DELETE
//! statement and renders them as SQL text; [`esc`] and [`quote`] make string literals safe
//! to embed in raw fragments.

pub mod escape;
pub mod laws;
pub mod model;

mod builder;
mod render;

pub use builder::Sqlite3Builder;
pub use escape::{esc, quote};
pub use model::BuildError;
