//! Serialization of CSS tokens and values.
pub mod escape;
pub mod serializer;
pub mod token;
pub mod css;
pub mod reading;
pub mod laws;
