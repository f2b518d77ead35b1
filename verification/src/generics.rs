use crate::ident::{Ident, Lifetime};
use crate::model::GenericParamModel;
use crate::path::Path;
use crate::ty::Type;
use vstd::prelude::*;

verus! {

/// A generic type parameter, such as `T`.
#[derive(Debug, PartialEq, Eq)]
pub struct TypeParam {
    pub ident: Ident,
}

impl View for TypeParam {
    type V = Seq<char>;

    open spec fn view(&self) -> Seq<char> {
        self.ident@
    }
}

impl Clone for TypeParam {
    fn clone(&self) -> (copy: TypeParam)
        ensures
            copy@ == self@,
    {
        TypeParam { ident: self.ident.clone() }
    }
}

/// A generic const parameter, such as `N` in `const N: usize`.
#[derive(Debug, PartialEq, Eq)]
pub struct ConstParam {
    pub ident: Ident,
}

/// A generic parameter of a declaration.
#[derive(Debug, PartialEq, Eq)]
pub enum GenericParam {
    Type(TypeParam),
    Lifetime(Lifetime),
    Const(ConstParam),
}

impl View for GenericParam {
    type V = GenericParamModel;

    open spec fn view(&self) -> GenericParamModel {
        match *self {
            GenericParam::Type(param) => GenericParamModel::Type(param@),
            GenericParam::Lifetime(lifetime) => GenericParamModel::Lifetime(lifetime@),
            GenericParam::Const(param) => GenericParamModel::Const(param.ident@),
        }
    }
}

impl Clone for GenericParam {
    fn clone(&self) -> (copy: GenericParam)
        ensures
            copy@ == self@,
    {
        match self {
            GenericParam::Type(param) => GenericParam::Type(param.clone()),
            GenericParam::Lifetime(lifetime) => GenericParam::Lifetime(lifetime.clone()),
            GenericParam::Const(param) => GenericParam::Const(
                ConstParam { ident: param.ident.clone() },
            ),
        }
    }
}

/// The models of a sequence of generic parameters.
pub open spec fn params_model(params: Seq<GenericParam>) -> Seq<GenericParamModel> {
    Seq::new(params.len(), |i: int| params[i]@)
}

pub fn clone_params(params: &Vec<GenericParam>) -> (copy: Vec<GenericParam>)
    ensures
        params_model(copy@) == params_model(params@),
{
    let mut copy: Vec<GenericParam> = Vec::new();
    let mut i: usize = 0;
    while i < params.len()
        invariant
            i <= params.len(),
            copy.len() == i,
            forall|j: int| 0 <= j < i ==> copy[j]@ == params[j]@,
        decreases params.len() - i,
    {
        copy.push(params[i].clone());
        i += 1;
    }
    copy
}

/// A trait bound, such as `for<'a> Trait<'a>`.
#[derive(Debug, PartialEq, Eq)]
pub struct TraitBound {
    pub lifetimes: Vec<Lifetime>,
    pub path: Path,
}

/// One bound on a type: a trait or a lifetime.
#[derive(Debug, PartialEq, Eq)]
pub enum TypeParamBound {
    Trait(TraitBound),
    Lifetime(Lifetime),
}

/// A constraint `Type: Bound + Bound`.
#[derive(Debug, PartialEq, Eq)]
pub struct PredicateType {
    pub bounded: Type,
    pub bounds: Vec<TypeParamBound>,
}

/// A constraint `'a: 'b + 'c`.
#[derive(Debug, PartialEq, Eq)]
pub struct LifetimeDef {
    pub lifetime: Lifetime,
    pub bounds: Vec<Lifetime>,
}

/// A constraint that a declaration puts on its generic parameters.
#[derive(Debug, PartialEq, Eq)]
pub enum GenericConstraint {
    Type(PredicateType),
    Lifetime(LifetimeDef),
}

/// The generic parameters of a declaration and the constraints on them.
#[derive(Debug, PartialEq, Eq)]
pub struct Generics {
    pub params: Vec<GenericParam>,
    pub constraints: Vec<GenericConstraint>,
}

} // verus!
