use crate::ty::Type;
use vstd::prelude::*;

verus! {

/// How a function takes the value that it is called on.
#[derive(Clone, Copy, Debug, PartialEq, Eq)]
pub enum Receiver {
    NoSelf,
    SelfByValue,
    SelfByReference,
    SelfByReferenceMut,
}

/// What a function takes and what it returns.
#[derive(Debug, PartialEq, Eq)]
pub struct Signature {
    pub receiver: Receiver,
    pub inputs: Vec<Type>,
    pub output: Type,
}

/// A function by its name, with the type that it belongs to, if any.
#[derive(Debug, PartialEq, Eq)]
pub struct Function {
    pub parent: Option<Type>,
    pub name: String,
    pub sig: Signature,
}

} // verus!
