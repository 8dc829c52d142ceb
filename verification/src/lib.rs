//! A declarative validation engine for JSON documents.
//!
//! A caller hands over a parsed document and, for each field name, an ordered
//! list of rules. The engine answers with the fields that broke a rule, each
//! with the messages of the rules it broke, in the order of the rules.
pub mod json;
pub mod laws;
pub mod number;
pub mod pattern;
pub mod text;
pub mod validate;
pub mod validator;
