//! The entities that queries hand out.

pub mod author;
pub mod media;
