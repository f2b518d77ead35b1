//! Synthesis: the name of a type, with the generic parameters and the
//! constraints that the type depends on. A generic parameter has an empty
//! name and is handed up in the parameter list instead.

use crate::clone::clone_constraints;
use crate::error::TypeError;
use crate::generics::{clone_params, params_model, GenericConstraint, GenericParam};
use crate::model::{ConstraintModel, GenericParamModel, TypeModel};
use crate::print::{bound_tokens, lifetime_tokens, path_tokens, push_lifetime};
use crate::seqs::{
    concat, join, lemma_concat_push, lemma_join_push, lemma_sequence_empty, lemma_sequence_push,
    sequence,
};
use crate::token::{push_joined, push_tokens, tokens_model, Token, TokenModel};
use crate::ty::{Type, TypeNode};
use crate::view::{bounds_model, constraints_model, types_model};
use vstd::prelude::*;

verus! {

/// The name of a type. A path is named by its printed form, a trait object
/// with one bound by `dyn` and the printed form of the bound. A type has no
/// name where it is not determined yet, is a dereference marker, is a trait
/// object with another number of bounds than one, or is a tuple or a borrow
/// of a type without a name.
pub open spec fn name_tokens(ty: TypeModel) -> Option<Seq<TokenModel>>
    decreases ty,
{
    match ty {
        TypeModel::Infer => None,
        TypeModel::Tuple(types) => match sequence(name_options(types)) {
            Some(names) => Some(seq![TokenModel::Paren(join(names, TokenModel::Comma))]),
            None => None,
        },
        TypeModel::PrimitiveStr => Some(seq![TokenModel::Str]),
        TypeModel::Reference { lifetime, inner } => match name_tokens(*inner) {
            Some(name) => Some(seq![TokenModel::And] + lifetime_tokens(lifetime) + name),
            None => None,
        },
        TypeModel::ReferenceMut { lifetime, inner } => match name_tokens(*inner) {
            Some(name) => Some(
                seq![TokenModel::And, TokenModel::Mut] + lifetime_tokens(lifetime) + name,
            ),
            None => None,
        },
        TypeModel::Dereference(_) => None,
        TypeModel::TraitObject(bounds) => {
            if bounds.len() == 1 {
                Some(seq![TokenModel::Dyn] + bound_tokens(bounds[0]))
            } else {
                None
            }
        },
        TypeModel::DataStructure { name, .. } => Some(seq![TokenModel::Ident(name)]),
        TypeModel::Path(path) => Some(path_tokens(path)),
        TypeModel::TypeParam(_) => Some(Seq::empty()),
    }
}

/// The name of each type, or nothing for one that has none.
pub open spec fn name_options(types: Seq<TypeModel>) -> Seq<Option<Seq<TokenModel>>>
    decreases types,
{
    Seq::new(
        types.len(),
        |i: int|
            if 0 <= i < types.len() {
                name_tokens(types[i])
            } else {
                arbitrary()
            },
    )
}

/// The generic parameters that a type depends on, one for each occurrence.
pub open spec fn generic_params(ty: TypeModel) -> Seq<GenericParamModel>
    decreases ty,
{
    match ty {
        TypeModel::Tuple(types) => concat(params_of(types)),
        TypeModel::Reference { inner, .. } => generic_params(*inner),
        TypeModel::ReferenceMut { inner, .. } => generic_params(*inner),
        TypeModel::DataStructure { generics, .. } => generics.params,
        TypeModel::TypeParam(name) => seq![GenericParamModel::Type(name)],
        _ => Seq::empty(),
    }
}

pub open spec fn params_of(types: Seq<TypeModel>) -> Seq<Seq<GenericParamModel>>
    decreases types,
{
    Seq::new(
        types.len(),
        |i: int|
            if 0 <= i < types.len() {
                generic_params(types[i])
            } else {
                arbitrary()
            },
    )
}

/// The constraints that a type depends on.
pub open spec fn generic_constraints(ty: TypeModel) -> Seq<ConstraintModel>
    decreases ty,
{
    match ty {
        TypeModel::Tuple(types) => concat(constraints_of(types)),
        TypeModel::Reference { inner, .. } => generic_constraints(*inner),
        TypeModel::ReferenceMut { inner, .. } => generic_constraints(*inner),
        TypeModel::DataStructure { generics, .. } => generics.constraints,
        _ => Seq::empty(),
    }
}

pub open spec fn constraints_of(types: Seq<TypeModel>) -> Seq<Seq<ConstraintModel>>
    decreases types,
{
    Seq::new(
        types.len(),
        |i: int|
            if 0 <= i < types.len() {
                generic_constraints(types[i])
            } else {
                arbitrary()
            },
    )
}

/// The name of the type behind any references, for a tuple, `str`, a data
/// structure or a path.
pub open spec fn base_name_tokens(ty: TypeModel) -> Option<Seq<TokenModel>>
    decreases ty,
{
    match ty {
        TypeModel::Reference { inner, .. } => base_name_tokens(*inner),
        TypeModel::ReferenceMut { inner, .. } => base_name_tokens(*inner),
        TypeModel::Tuple(_) => name_tokens(ty),
        TypeModel::PrimitiveStr => name_tokens(ty),
        TypeModel::DataStructure { .. } => name_tokens(ty),
        TypeModel::Path(_) => name_tokens(ty),
        _ => None,
    }
}

impl Type {
    /// The name of the type, the generic parameters that it depends on and
    /// the constraints that it depends on. Parameters and constraints come in
    /// the order of the type's parts, once for each occurrence.
    pub fn name_and_generics(&self) -> (result: Result<
        (Vec<Token>, Vec<GenericParam>, Vec<GenericConstraint>),
        TypeError,
    >)
        ensures
            match name_tokens(self@) {
                Some(name) => result matches Ok(out) && tokens_model(out.0@) == name
                    && params_model(out.1@) == generic_params(self@) && constraints_model(out.2@)
                    == generic_constraints(self@),
                None => result matches Err(TypeError::Unsupported),
            },
        decreases self,
    {
        self.0.name_and_generics()
    }

    /// The name of the type behind any references. Only a tuple, `str`, a
    /// data structure and a path have one.
    pub fn get_name(&self) -> (result: Result<Vec<Token>, TypeError>)
        ensures
            match base_name_tokens(self@) {
                Some(name) => result matches Ok(tokens) && tokens_model(tokens@) == name,
                None => result matches Err(TypeError::Unsupported),
            },
    {
        self.0.get_name()
    }
}

impl TypeNode {
    /// The name of the type behind any references.
    pub fn get_name(&self) -> (result: Result<Vec<Token>, TypeError>)
        ensures
            match base_name_tokens(self@) {
                Some(name) => result matches Ok(tokens) && tokens_model(tokens@) == name,
                None => result matches Err(TypeError::Unsupported),
            },
        decreases self,
    {
        match self {
            TypeNode::Reference { inner, .. } => TypeNode::get_name(inner),
            TypeNode::ReferenceMut { inner, .. } => TypeNode::get_name(inner),
            TypeNode::Tuple(_) | TypeNode::PrimitiveStr | TypeNode::DataStructure { .. }
            | TypeNode::Path(_) => match self.name_and_generics() {
                Ok(out) => Ok(out.0),
                Err(e) => Err(e),
            },
            _ => Err(TypeError::Unsupported),
        }
    }

    /// The name of the type, with the generic parameters and the constraints
    /// that it depends on.
    pub fn name_and_generics(&self) -> (result: Result<
        (Vec<Token>, Vec<GenericParam>, Vec<GenericConstraint>),
        TypeError,
    >)
        ensures
            match name_tokens(self@) {
                Some(name) => result matches Ok(out) && tokens_model(out.0@) == name
                    && params_model(out.1@) == generic_params(self@) && constraints_model(out.2@)
                    == generic_constraints(self@),
                None => result matches Err(TypeError::Unsupported),
            },
        decreases self,
    {
        match self {
            TypeNode::Infer => Err(TypeError::Unsupported),
            TypeNode::Tuple(types) => match joined_names(types) {
                Ok(out) => {
                    let mut name: Vec<Token> = Vec::new();
                    name.push(Token::Paren(out.0));
                    Ok((name, out.1, out.2))
                },
                Err(e) => Err(e),
            },
            TypeNode::PrimitiveStr => {
                let mut name: Vec<Token> = Vec::new();
                name.push(Token::Str);
                Ok((name, no_params(), no_constraints()))
            },
            TypeNode::Reference { lifetime, inner } => match TypeNode::name_and_generics(inner) {
                Ok(out) => {
                    let mut name: Vec<Token> = Vec::new();
                    name.push(Token::And);
                    push_lifetime(&mut name, lifetime);
                    push_tokens(&mut name, out.0);
                    Ok((name, out.1, out.2))
                },
                Err(e) => Err(e),
            },
            TypeNode::ReferenceMut { lifetime, inner } => match TypeNode::name_and_generics(
                inner,
            ) {
                Ok(out) => {
                    let mut name: Vec<Token> = Vec::new();
                    name.push(Token::And);
                    name.push(Token::Mut);
                    push_lifetime(&mut name, lifetime);
                    push_tokens(&mut name, out.0);
                    Ok((name, out.1, out.2))
                },
                Err(e) => Err(e),
            },
            TypeNode::Dereference(_) => Err(TypeError::Unsupported),
            TypeNode::TraitObject(bounds) => {
                if bounds.len() != 1 {
                    return Err(TypeError::Unsupported);
                }
                assert(bounds_model(bounds@)[0] == bounds[0]@);
                let mut name: Vec<Token> = Vec::new();
                name.push(Token::Dyn);
                push_tokens(&mut name, bounds[0].to_tokens());
                Ok((name, no_params(), no_constraints()))
            },
            TypeNode::DataStructure { name, generics, .. } => {
                let mut tokens: Vec<Token> = Vec::new();
                tokens.push(Token::Ident(name.clone()));
                assert(crate::view::generics_model(*generics).params == params_model(
                    generics.params@,
                ));
                Ok(
                    (
                        tokens,
                        clone_params(&generics.params),
                        clone_constraints(&generics.constraints),
                    ),
                )
            },
            TypeNode::Path(path) => Ok((path.to_tokens(), no_params(), no_constraints())),
            TypeNode::TypeParam(param) => {
                let name: Vec<Token> = Vec::new();
                let mut params: Vec<GenericParam> = Vec::new();
                params.push(GenericParam::Type(param.clone()));
                Ok((name, params, no_constraints()))
            },
        }
    }
}

fn no_params() -> (params: Vec<GenericParam>)
    ensures
        params_model(params@) == Seq::<GenericParamModel>::empty(),
{
    let params: Vec<GenericParam> = Vec::new();
    params
}

fn no_constraints() -> (constraints: Vec<GenericConstraint>)
    ensures
        constraints_model(constraints@) == Seq::<ConstraintModel>::empty(),
{
    let constraints: Vec<GenericConstraint> = Vec::new();
    constraints
}

fn push_params(params: &mut Vec<GenericParam>, more: Vec<GenericParam>)
    ensures
        params_model(final(params)@) == params_model(old(params)@) + params_model(more@),
{
    let mut more = more;
    params.append(&mut more);
}

fn push_constraints(constraints: &mut Vec<GenericConstraint>, more: Vec<GenericConstraint>)
    ensures
        constraints_model(final(constraints)@) == constraints_model(old(constraints)@)
            + constraints_model(more@),
{
    let mut more = more;
    constraints.append(&mut more);
}

/// The names of the types with commas between them, and the parameters and
/// constraints of all of them, one type after the other.
fn joined_names(types: &Vec<Type>) -> (result: Result<
    (Vec<Token>, Vec<GenericParam>, Vec<GenericConstraint>),
    TypeError,
>)
    ensures
        match sequence(name_options(types_model(types@))) {
            Some(names) => result matches Ok(out) && tokens_model(out.0@) == join(
                names,
                TokenModel::Comma,
            ) && params_model(out.1@) == concat(params_of(types_model(types@)))
                && constraints_model(out.2@) == concat(constraints_of(types_model(types@))),
            None => result matches Err(TypeError::Unsupported),
        },
    decreases types,
{
    let ghost models = types_model(types@);
    let mut name: Vec<Token> = Vec::new();
    let mut params = no_params();
    let mut constraints = no_constraints();
    proof {
        lemma_sequence_empty(name_options(models.take(0)));
    }
    let mut i: usize = 0;
    while i < types.len()
        invariant
            i <= types.len(),
            models == types_model(types@),
            sequence(name_options(models.take(i as int))) is Some,
            tokens_model(name@) == join(
                sequence(name_options(models.take(i as int))).unwrap(),
                TokenModel::Comma,
            ),
            params_model(params@) == concat(params_of(models.take(i as int))),
            constraints_model(constraints@) == concat(constraints_of(models.take(i as int))),
        decreases types.len() - i,
    {
        let ghost before = models.take(i as int);
        let ghost after = models.take(i + 1);
        proof {
            assert(name_options(after) =~= name_options(before).push(name_tokens(models[i as int])));
            lemma_sequence_push(name_options(before), name_tokens(models[i as int]));
            assert(params_of(after) =~= params_of(before).push(generic_params(models[i as int])));
            lemma_concat_push(params_of(before), generic_params(models[i as int]));
            assert(constraints_of(after) =~= constraints_of(before).push(
                generic_constraints(models[i as int]),
            ));
            lemma_concat_push(constraints_of(before), generic_constraints(models[i as int]));
        }
        match types[i].name_and_generics() {
            Ok(out) => {
                proof {
                    lemma_join_push(
                        sequence(name_options(before)).unwrap(),
                        name_tokens(models[i as int]).unwrap(),
                        TokenModel::Comma,
                    );
                }
                push_joined(&mut name, out.0, i == 0, Token::Comma);
                push_params(&mut params, out.1);
                push_constraints(&mut constraints, out.2);
            },
            Err(e) => {
                assert(name_options(models)[i as int] is None);
                return Err(e);
            },
        }
        i += 1;
    }
    assert(models.take(types.len() as int) =~= models);
    Ok((name, params, constraints))
}

} // verus!
