//! An API description in a form common to every schema dialect.

use vstd::prelude::*;

verus! {

/// Primitive schema kinds shared by every dialect.
#[derive(Clone, Copy, Debug, PartialEq, Eq, Structural)]
pub enum Primitive {
    String,
    Integer,
    Number,
    Boolean,
}

/// A default value as written in a schema.
#[derive(Clone, Debug, PartialEq, Eq)]
pub enum DefaultValue {
    Bool(bool),
    /// A number, as its decimal text.
    Number(String),
    Text(String),
}

/// The shape of a schema as the document states it, before references are resolved.
#[derive(Debug, PartialEq, Eq)]
pub enum SchemaShape {
    /// A reference to the named component.
    Ref(String),
    /// A primitive with its optional format.
    Primitive(Primitive, Option<String>),
    Array(Box<Schema>),
    /// Properties in declaration order, and the names of the required ones.
    Object(Vec<(String, Schema)>, Vec<String>),
    Enum(Vec<String>),
    /// `allOf`: the members are merged into one object.
    AllOf(Vec<Schema>),
    /// `oneOf` / `anyOf`: one of the candidates applies.
    OneOf(Vec<Schema>),
}

/// A schema of the document, in a form common to every dialect.
#[derive(Debug, PartialEq, Eq)]
pub struct Schema {
    pub shape: SchemaShape,
    pub nullable: bool,
    pub read_only: bool,
    pub description: String,
    pub default: Option<DefaultValue>,
}

/// One operation of a path item: its HTTP method in upper case, and its bodies.
#[derive(Debug, PartialEq, Eq)]
pub struct Operation {
    pub method: String,
    pub request_body: Option<Schema>,
    pub response_body: Option<Schema>,
}

/// A path of the API with its operations.
#[derive(Debug, PartialEq, Eq)]
pub struct PathItem {
    pub path: String,
    pub operations: Vec<Operation>,
}

/// An API description, whatever dialect it was written in: its paths and its
/// named schema components.
#[derive(Debug, PartialEq, Eq)]
pub struct ApiDocument {
    pub paths: Vec<PathItem>,
    pub components: Vec<(String, Schema)>,
}

} // verus!
