//! A parsed type expression, before it is lowered into a type.

use crate::ident::{Ident, Lifetime};
use vstd::prelude::*;

verus! {

/// A type as it was written.
#[derive(Debug, PartialEq, Eq)]
pub enum TypeExpr {
    /// A named path; `qualified` where it has a prefix such as `<T as Trait>`.
    Path { qualified: bool, path: PathExpr },
    /// `&'a T` or `&'a mut T`
    Reference { lifetime: Option<Lifetime>, mutable: bool, elem: Box<TypeExpr> },
    /// `dyn A + B`
    TraitObject { bounds: Vec<BoundExpr> },
    /// A parenthesized list of types; `trailing` where a separator follows
    /// the last element.
    Tuple { elems: Vec<TypeExpr>, trailing: bool },
    /// Any other shape: an array, a slice, a function pointer, `impl Trait`
    /// and the like.
    Other,
}

#[derive(Debug, PartialEq, Eq)]
pub struct PathExpr {
    /// Whether the path starts with `::`.
    pub leading_colon: bool,
    pub segments: Vec<SegmentExpr>,
}

#[derive(Debug, PartialEq, Eq)]
pub struct SegmentExpr {
    pub ident: Ident,
    pub arguments: ArgumentsExpr,
}

#[derive(Debug, PartialEq, Eq)]
pub enum ArgumentsExpr {
    /// A segment without arguments.
    Absent,
    /// `<'a, T>`
    AngleBracketed(Vec<ArgumentExpr>),
    /// `(A, B) -> C`
    Parenthesized { inputs: Vec<TypeExpr>, output: Option<Box<TypeExpr>> },
}

#[derive(Debug, PartialEq, Eq)]
pub enum ArgumentExpr {
    Lifetime(Lifetime),
    Type(TypeExpr),
    /// A const expression, an associated type binding or a constraint.
    Other,
}

#[derive(Debug, PartialEq, Eq)]
pub enum BoundExpr {
    /// `for<'a> Trait<'a>`
    Trait { lifetimes: Vec<Lifetime>, path: PathExpr },
    Lifetime(Lifetime),
    /// A bound with a modifier such as `?Sized`, or of another form.
    Other,
}

impl PathExpr {
    /// The identifier that the path consists of: it has one, where it has no
    /// leading `::`, a single segment, and no arguments on it.
    pub open spec fn ident_of(self) -> Option<Seq<char>> {
        if !self.leading_colon && self.segments@.len() == 1
            && self.segments@[0].arguments is Absent {
            Some(self.segments@[0].ident@)
        } else {
            None
        }
    }

    /// The identifier that the path consists of, if it is a single one.
    pub fn get_ident(&self) -> (ident: Option<&Ident>)
        ensures
            match ident {
                Some(ident) => self.ident_of() == Some(ident@),
                None => self.ident_of() is None,
            },
    {
        if !self.leading_colon && self.segments.len() == 1 {
            match &self.segments[0].arguments {
                ArgumentsExpr::Absent => Some(&self.segments[0].ident),
                _ => None,
            }
        } else {
            None
        }
    }
}

} // verus!
