use crate::ident::{Ident, Lifetime};
use crate::ty::Type;
use vstd::prelude::*;

verus! {

/// A path such as `std::vec::Vec<T>`.
#[derive(Debug, PartialEq, Eq)]
pub struct Path {
    /// Whether the path starts with `::`.
    pub global: bool,
    pub path: Vec<PathSegment>,
}

#[derive(Debug, PartialEq, Eq)]
pub struct PathSegment {
    pub ident: Ident,
    pub args: PathArguments,
}

/// The generic arguments of one path segment.
#[derive(Debug, PartialEq, Eq)]
pub enum PathArguments {
    /// A segment without arguments.
    Absent,
    /// `<'a, T>`
    AngleBracketed(Vec<GenericArgument>),
    /// `(A, B) -> C`
    Parenthesized { inputs: Vec<Type>, output: Option<Type> },
}

#[derive(Debug, PartialEq, Eq)]
pub enum GenericArgument {
    Type(Type),
    Lifetime(Lifetime),
}

} // verus!
