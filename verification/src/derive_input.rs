//! The items that the derives read: a struct's fields or an enum's variants,
//! with their attributes and, for fields, the shape of their type.
use vstd::prelude::*;

use crate::meta::AttributeInput;

verus! {

/// The generic arguments of a path segment.
pub enum PathArguments {
    /// `Segment`
    Bare,
    /// `Segment<A, B, ..>`, with the number of arguments.
    AngleBracketed(usize),
    /// `Segment(A, B) -> C`
    Parenthesized,
}

/// One segment of a type path, such as `Option<Pubkey>` in
/// `std::option::Option<Pubkey>`.
pub struct TypeSegment {
    pub ident: String,
    pub arguments: PathArguments,
}

/// The type of a field.
pub enum FieldType {
    /// A path such as `Pubkey` or `std::option::Option<Pubkey>`.
    Path(Vec<TypeSegment>),
    /// Any other type: a reference, a tuple, an array, ...
    Other,
}

/// A named field.
pub struct NamedField {
    pub ident: String,
    pub attrs: Vec<AttributeInput>,
    pub ty: FieldType,
}

/// The fields of a struct or of an enum variant.
pub enum FieldsInput {
    /// `{ a: A, b: B }`
    Named(Vec<NamedField>),
    /// `(A, B)`
    Unnamed,
    /// No fields.
    Unit,
}

/// A variant of an enum.
pub struct VariantInput {
    pub ident: String,
    pub attrs: Vec<AttributeInput>,
    pub fields: FieldsInput,
}

/// The body of the item that a derive is applied to.
pub enum DataInput {
    Struct(FieldsInput),
    Enum(Vec<VariantInput>),
    Union,
}

/// Why a derive refuses its input.
#[derive(Clone, Copy, Debug, PartialEq, Eq, Structural)]
pub enum DeriveError {
    /// `ToAccountMetas` applied to an enum or a union.
    OnlyStructs,
    /// `ToAccountMetas` applied to a struct without named fields.
    OnlyNamedFields,
    /// `Instructions` applied to a struct or a union.
    OnlyEnums,
    /// `Instructions` applied to an enum with a tuple variant.
    UnnamedFields,
}

} // verus!
