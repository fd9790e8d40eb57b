//! The definition of a type as the generator reads it: names, field lists and
//! generics, each piece of syntax held as its text.

use vstd::prelude::*;

verus! {

/// One field of a variant.
#[derive(Debug, Clone, PartialEq, Eq)]
pub struct Field {
    /// The field's name, if it has one.
    pub ident: Option<String>,
    /// The field's type.
    pub ty: String,
}

/// The fields of a variant.
#[derive(Debug, Clone, PartialEq, Eq)]
pub enum Fields {
    /// Fields with names, between braces.
    Named(Vec<Field>),
    /// Fields by position, between parentheses.
    Unnamed(Vec<Field>),
    /// No field list at all.
    Unit,
}

/// One variant of an enum.
#[derive(Debug, Clone, PartialEq, Eq)]
pub struct Variant {
    pub ident: String,
    pub fields: Fields,
}

/// A generic type parameter with the bounds written beside it.
#[derive(Debug, Clone, PartialEq, Eq)]
pub struct TypeParam {
    pub ident: String,
    pub bounds: Vec<String>,
}

/// One generic parameter.
#[derive(Debug, Clone, PartialEq, Eq)]
pub enum GenericParam {
    Type(TypeParam),
    /// A lifetime parameter, as its text.
    Lifetime(String),
    /// A const parameter, as its text.
    Const(String),
}

/// One predicate of a where clause.
#[derive(Debug, Clone, PartialEq, Eq)]
pub struct WherePredicate {
    /// The identifier that the predicate bounds, where it bounds a type that
    /// is written as one plain identifier; `None` for every other predicate.
    pub bounded_ident: Option<String>,
    /// The bounds that the predicate states.
    pub bounds: Vec<String>,
}

/// The generics of a definition: its parameters and the predicates of its
/// where clause, both in source order.
#[derive(Debug, Clone, PartialEq, Eq)]
pub struct Generics {
    pub params: Vec<GenericParam>,
    pub predicates: Vec<WherePredicate>,
}

/// What a definition declares.
#[derive(Debug, Clone, PartialEq, Eq)]
pub enum Data {
    Enum(Vec<Variant>),
    Struct,
    Union,
}

/// A type definition handed to the generator.
#[derive(Debug, Clone, PartialEq, Eq)]
pub struct DeriveInput {
    pub ident: String,
    pub generics: Generics,
    pub data: Data,
}

} // verus!
