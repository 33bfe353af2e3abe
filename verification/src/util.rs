//! Texts and URIs as header values.

pub mod json;
pub mod uri;
pub mod value_string;
