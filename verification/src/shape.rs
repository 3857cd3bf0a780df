//! The generation-time description of a type: its name, its generics and,
//! for a record type, the shape of its fields.

use vstd::prelude::*;
use vstd::string::StringExecFns;

verus! {

/// One named field of a record type: the field's name and the source text of
/// its declared type.
pub struct NamedField {
    pub name: String,
    pub ty: String,
}

/// The shape of a record type's fields.
pub enum Shape {
    /// No fields at all (a unit struct).
    Unit,
    /// An ordered sequence of unnamed fields, each given by the source text
    /// of its declared type.
    Positional(Vec<String>),
    /// An ordered sequence of named fields.
    Named(Vec<NamedField>),
}

/// What kind of type a definition describes: a record type with one of the
/// three shapes, or a sum type (several alternative variants), for which no
/// implementation can be generated.
pub enum TypeData {
    Record(Shape),
    Sum,
}

/// A type definition as the generator sees it: the type's name, its generic
/// parameter lists as they appear in an `impl` header, an optional `where`
/// clause, and the field data.
pub struct TypeDef {
    /// The type's name.
    pub name: String,
    /// The generic parameter list for the `impl` header, brackets included
    /// (for example `<T: Clone>`), or the empty string.
    pub impl_generics: String,
    /// The generic argument list that follows the type's name (for example
    /// `<T>`), or the empty string.
    pub ty_generics: String,
    /// The `where` clause, `where` keyword included, or the empty string.
    pub where_clause: String,
    /// The fields, or the marker that this is a sum type.
    pub data: TypeData,
}

/// The one error the generator can report: the annotated type is not a
/// record type.
#[derive(Debug)]
pub enum DeriveError {
    UnsupportedShape,
}

impl DeriveError {
    /// The diagnostic text for this error.
    pub fn message(&self) -> (r: String)
        ensures
            r@ == unsupported_shape_message(),
    {
        String::from_str("only structs can derive `Empty`")
    }
}

/// The diagnostic text reported when generation is attempted on a sum type.
pub open spec fn unsupported_shape_message() -> Seq<char> {
    "only structs can derive `Empty`"@
}

} // verus!
