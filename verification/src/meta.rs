//! The schema data model: field descriptors, nested sections, and typed
//! default values.  Descriptors are built once, at schema-registration time,
//! and are only read while formatting.

use vstd::prelude::*;

verus! {

/// A typed literal default value attached to a schema field.
pub enum Expr {
    /// A boolean literal.
    Bool(bool),
    /// An integer literal.
    Integer(i64),
    /// A string literal.
    Str(String),
    /// A sequence of literals.
    Array(Vec<Expr>),
}

/// Whether a field is a leaf value or a nested section.
pub enum FieldKind {
    /// A leaf field: an optional value with an optional default expression
    /// and an optional environment-variable binding.
    Leaf { optional: bool, env: Option<String>, default: Option<Expr> },
    /// A nested section holding its own schema.
    Nested { meta: Meta },
}

/// Metadata for one configuration field: its name, its documentation lines,
/// and whether it is a leaf or a nested section.
pub struct Field {
    pub name: String,
    pub doc: Vec<String>,
    pub kind: FieldKind,
}

/// The static description of a configuration structure: documentation for
/// the structure itself and an ordered list of its fields.
pub struct Meta {
    pub doc: Vec<String>,
    pub fields: Vec<Field>,
}

/// The mathematical view of a list of documentation lines.
pub open spec fn doc_view(doc: Seq<String>) -> Seq<Seq<char>> {
    doc.map_values(|s: String| s@)
}

} // verus!
