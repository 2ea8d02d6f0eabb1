//! Nutrition summaries for packaged food.
//!
//! The crate turns the JSON document that a food-product database returns
//! for a product code into a small HTML fragment with the per-serving
//! nutrition facts, and holds the rules by which an upload handler accepts
//! or turns away the fields of a multipart request.

pub mod json;
pub mod facts;
pub mod upload;
