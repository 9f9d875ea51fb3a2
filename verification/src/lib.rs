//! Metadata reconciliation and relationship resolution for a media library.
//!
//! The crate turns partial metadata edits into per-field mutations, and derives
//! the books and series of an author from the free-text fields of the media a
//! user is allowed to see.

pub mod data;
pub mod error;
pub mod finder;
pub mod input;
pub mod object;
pub mod resolver;
pub mod store;
pub mod text;
