//! Rules for renaming one file system entry, and the steps of carrying a
//! rename out.
//!
//! A [`RenameCommand`] makes a new base name out of an old one: a fixed name,
//! a numbered name, find and replace, added or trimmed text, another
//! extension, another letter case, or full-width and half-width characters.
//! A [`RenameJob`] leads one rename from the request to its
//! [`RenameResult`]. It never touches the file system itself: it tells its
//! driver what to look up or to do, and decides by the answers.
//!
//! Contracts speak of texts as sequences of characters. What the `regex`
//! crate and the case mapping of the standard library compute is not defined
//! here; it goes by the names declared in [`pattern`] and [`casing`].

pub mod casing;
pub mod command;
pub mod decimal;
pub mod job;
pub mod name;
pub mod outcome;
pub mod pattern;
pub mod replace;
pub mod text;
pub mod width;

pub use command::{CaseMode, EvaluationError, Position, RenameCommand, WidthMode};
pub use job::{Action, Event, RenameJob};
pub use name::{decompose, join_name_ext, DecomposedName};
pub use outcome::{RenameError, RenameResult};
pub use width::{to_hankaku, to_zenkaku};
