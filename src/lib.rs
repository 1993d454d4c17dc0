//! A blog's posts and tags over an index-based document store: the query
//! builder, the record codec, the mapping of store outcomes to responses,
//! the tag requests' checks of their parent post, and the schema plans.

pub mod error;
pub mod expr;
pub mod migrate;
pub mod misc;
pub mod post;
pub mod selector;
pub mod tag;
pub mod value;
