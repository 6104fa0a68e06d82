//! Strongly-typed configuration from layered sources — in-code defaults,
//! structured documents, environment variables — built around three pieces:
//! a batch error accumulator keyed by dotted field paths, the partial-value
//! contract (construct empty, merge right-biased, resolve or report), and a
//! schema-driven generator that emits law-abiding implementations of that
//! contract. Resolution never stops at the first bad field: it hands back
//! either the fully-populated value or one report of everything missing.

pub mod acc;
pub mod env;
pub mod generator;
pub mod laws;
pub mod layer;
pub mod parse;
pub mod path;
pub mod pipeline;
pub mod sample;
pub mod schema;

pub use acc::{
    CompleteError, FieldError, FieldsAcc, FieldsErrorBunch, MissingFieldError, MultipleFieldsError,
    ResultExt,
};
pub use layer::{HasLayer, Layer};
pub use path::WithPath;
