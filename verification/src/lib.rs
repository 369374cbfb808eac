//! Conversion of structured text between JSON, TOML, YAML, RON, XML and
//! URL-encoded form data, through one generic document value.

pub mod bridge;
pub mod codec;
pub mod convert;
pub mod error;
pub mod form;
pub mod format;
pub mod laws;
pub mod tree;
pub mod value;
pub mod window;
