//! Typed builders for `ALTER TABLE ... DELETE` and `ALTER TABLE ... UPDATE`
//! mutation statements, with the values to bind to their `?` placeholders.
pub mod delete;
pub mod query;
pub mod text;
pub mod update;
