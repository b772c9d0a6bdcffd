//! The shape of a derive input, as the generator reads it.
use vstd::prelude::*;

verus! {

/// The shape of a field's type, as far as the generator looks into it.
pub enum TypeKind {
    /// A raw pointer type, `*const T` or `*mut T`.
    Ptr,
    /// A path type such as `std::rc::Rc<T>`, with the identifier of its last
    /// segment, if the path has any segment.
    Path(Option<String>),
    /// Any other type.
    Other,
}

/// A named field of the input struct.
pub struct Field {
    /// The field's identifier, as written (a raw identifier keeps its `r#`).
    pub ident: String,
    /// The source text of the field's type.
    pub ty: String,
    /// The shape of the field's type.
    pub kind: TypeKind,
}

/// The fields of a struct.
pub enum Fields {
    /// Fields with names, in declaration order.
    Named(Vec<Field>),
    /// Tuple-struct fields.
    Unnamed,
    /// A unit struct.
    Unit,
}

/// The data an item declares.
pub enum Data {
    /// A struct with its fields.
    Struct(Fields),
    /// An enum.
    Enum,
    /// A union.
    Union,
}

/// The item a derive is applied to.
pub struct DeriveInput {
    /// The item's identifier, as written.
    pub ident: String,
    /// What the item declares.
    pub data: Data,
}

} // verus!
