//! A model of Rust type expressions: lowering of parsed type syntax into the
//! model, structural accessors on it, and synthesis of a printable name with
//! the generic parameters and constraints that a type depends on.

pub mod clone;
pub mod data;
pub mod error;
pub mod function;
pub mod generics;
pub mod ident;
pub mod laws;
pub mod lower;
pub mod model;
pub mod path;
pub mod print;
pub mod seqs;
pub mod syntax;
pub mod synth;
pub mod token;
pub mod ty;
pub mod view;

pub use data::{Accessor, Data, Field, Fields, Variant};
pub use error::TypeError;
pub use function::{Function, Receiver, Signature};
pub use generics::{
    ConstParam, GenericConstraint, GenericParam, Generics, LifetimeDef, PredicateType, TraitBound,
    TypeParam, TypeParamBound,
};
pub use ident::{Ident, Lifetime};
pub use lower::syn_to_type_param_bounds;
pub use path::{GenericArgument, Path, PathArguments, PathSegment};
pub use syntax::{ArgumentExpr, ArgumentsExpr, BoundExpr, PathExpr, SegmentExpr, TypeExpr};
pub use token::Token;
pub use ty::{Type, TypeNode};
