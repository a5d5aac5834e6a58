//! Turns an API description and a provider configuration into the model of an
//! infrastructure provider: one attribute model per configured resource, and the
//! set of artifacts to render from it.

pub mod builder;
pub mod config;
pub mod document;
pub mod emit;
pub mod json;
pub mod model;
pub mod normalize;
pub mod source;
pub mod text;
pub mod types;
