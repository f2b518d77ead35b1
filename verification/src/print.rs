//! The printed form of a type, of a path and of a bound: the tokens that
//! each is written with, all its parts in full. Everything has one. It is
//! what a path and a bound are named by, and what the arguments of a path
//! are printed with.

use crate::generics::TypeParamBound;
use crate::ident::{lifetime_model, lifetimes_model, Lifetime};
use crate::model::{
    ArgumentsModel, BoundModel, GenericArgumentModel, PathModel, SegmentModel, TypeModel,
};
use crate::path::{GenericArgument, Path, PathArguments, PathSegment};
use crate::seqs::{join, lemma_join_push};
use crate::token::{push_joined, push_token, push_tokens, tokens_model, Token, TokenModel};
use crate::ty::{Type, TypeNode};
use crate::view::{
    arguments_model, bounds_model, generic_arguments_model, segment_model, segments_model,
    types_model,
};
use vstd::prelude::*;

verus! {

/// The tokens of a lifetime that may be absent.
pub open spec fn lifetime_tokens(lifetime: Option<Seq<char>>) -> Seq<TokenModel> {
    match lifetime {
        Some(name) => seq![TokenModel::Lifetime(name)],
        None => Seq::empty(),
    }
}

/// Each lifetime as a token sequence of its own.
pub open spec fn lifetime_parts(lifetimes: Seq<Seq<char>>) -> Seq<Seq<TokenModel>> {
    Seq::new(lifetimes.len(), |i: int| seq![TokenModel::Lifetime(lifetimes[i])])
}

/// `for<'a, 'b>` before a trait bound; nothing where it binds no lifetime.
pub open spec fn binder_tokens(lifetimes: Seq<Seq<char>>) -> Seq<TokenModel> {
    if lifetimes.len() == 0 {
        Seq::empty()
    } else {
        seq![TokenModel::For, TokenModel::Lt] + join(lifetime_parts(lifetimes), TokenModel::Comma)
            + seq![TokenModel::Gt]
    }
}

/// What a type is printed with.
///
/// - A type that is not determined yet: `_`.
/// - A tuple: its elements between parentheses, with commas between them.
/// - The string slice: `str`.
/// - A borrow: `&`, for an exclusive one `mut`, the lifetime if it has one,
///   then the referent.
/// - A dereference marker: `*`, then the type under it.
/// - A trait object: `dyn`, then all its bounds with `+` between them.
/// - A data structure: its identifier.
/// - A path: the path.
/// - A generic parameter: its identifier.
pub open spec fn type_tokens(ty: TypeModel) -> Seq<TokenModel>
    decreases ty,
{
    match ty {
        TypeModel::Infer => seq![TokenModel::Underscore],
        TypeModel::Tuple(types) => seq![
            TokenModel::Paren(join(type_parts(types), TokenModel::Comma)),
        ],
        TypeModel::PrimitiveStr => seq![TokenModel::Str],
        TypeModel::Reference { lifetime, inner } => seq![TokenModel::And] + lifetime_tokens(
            lifetime,
        ) + type_tokens(*inner),
        TypeModel::ReferenceMut { lifetime, inner } => seq![TokenModel::And, TokenModel::Mut]
            + lifetime_tokens(lifetime) + type_tokens(*inner),
        TypeModel::Dereference(inner) => seq![TokenModel::Star] + type_tokens(*inner),
        TypeModel::TraitObject(bounds) => seq![TokenModel::Dyn] + join(
            bound_parts(bounds),
            TokenModel::Plus,
        ),
        TypeModel::DataStructure { name, .. } => seq![TokenModel::Ident(name)],
        TypeModel::Path(path) => path_tokens(path),
        TypeModel::TypeParam(name) => seq![TokenModel::Ident(name)],
    }
}

/// The printed form of each type.
pub open spec fn type_parts(types: Seq<TypeModel>) -> Seq<Seq<TokenModel>>
    decreases types,
{
    Seq::new(
        types.len(),
        |i: int|
            if 0 <= i < types.len() {
                type_tokens(types[i])
            } else {
                arbitrary()
            },
    )
}

/// What a bound is printed with: a trait by its path, after the lifetimes
/// that it binds; a lifetime by itself.
pub open spec fn bound_tokens(bound: BoundModel) -> Seq<TokenModel>
    decreases bound,
{
    match bound {
        BoundModel::Trait { lifetimes, path } => binder_tokens(lifetimes) + path_tokens(path),
        BoundModel::Lifetime(lifetime) => seq![TokenModel::Lifetime(lifetime)],
    }
}

/// The printed form of each bound.
pub open spec fn bound_parts(bounds: Seq<BoundModel>) -> Seq<Seq<TokenModel>>
    decreases bounds,
{
    Seq::new(
        bounds.len(),
        |i: int|
            if 0 <= i < bounds.len() {
                bound_tokens(bounds[i])
            } else {
                arbitrary()
            },
    )
}

/// What a path is printed with: its segments with `::` between them, after
/// a leading `::` where it is global. Each segment is its identifier and
/// then its arguments.
pub open spec fn path_tokens(path: PathModel) -> Seq<TokenModel>
    decreases path,
{
    (if path.global {
        seq![TokenModel::PathSep]
    } else {
        Seq::empty()
    }) + join(segment_parts(path.segments), TokenModel::PathSep)
}

pub open spec fn segment_tokens(segment: SegmentModel) -> Seq<TokenModel>
    decreases segment,
{
    seq![TokenModel::Ident(segment.ident)] + arguments_tokens(segment.args)
}

pub open spec fn segment_parts(segments: Seq<SegmentModel>) -> Seq<Seq<TokenModel>>
    decreases segments,
{
    Seq::new(
        segments.len(),
        |i: int|
            if 0 <= i < segments.len() {
                segment_tokens(segments[i])
            } else {
                arbitrary()
            },
    )
}

/// `->` and the printed form of the output, where there is one.
pub open spec fn output_tokens(output: Option<Box<TypeModel>>) -> Seq<TokenModel>
    decreases output,
{
    match output {
        Some(ty) => seq![TokenModel::Arrow] + type_tokens(*ty),
        None => Seq::empty(),
    }
}

/// What the arguments of a segment are printed with: between `<` and `>`
/// with commas between them, or the inputs between parentheses and then the
/// output. Each type among them is printed in full.
pub open spec fn arguments_tokens(args: ArgumentsModel) -> Seq<TokenModel>
    decreases args,
{
    match args {
        ArgumentsModel::Absent => Seq::empty(),
        ArgumentsModel::AngleBracketed(args) => seq![TokenModel::Lt] + join(
            argument_parts(args),
            TokenModel::Comma,
        ) + seq![TokenModel::Gt],
        ArgumentsModel::Parenthesized { inputs, output } => seq![
            TokenModel::Paren(join(type_parts(inputs), TokenModel::Comma)),
        ] + output_tokens(output),
    }
}

/// What one argument is printed with: a type by its printed form, a
/// lifetime by itself.
pub open spec fn argument_tokens(arg: GenericArgumentModel) -> Seq<TokenModel>
    decreases arg,
{
    match arg {
        GenericArgumentModel::Type(ty) => type_tokens(ty),
        GenericArgumentModel::Lifetime(lifetime) => seq![TokenModel::Lifetime(lifetime)],
    }
}

pub open spec fn argument_parts(args: Seq<GenericArgumentModel>) -> Seq<Seq<TokenModel>>
    decreases args,
{
    Seq::new(
        args.len(),
        |i: int|
            if 0 <= i < args.len() {
                argument_tokens(args[i])
            } else {
                arbitrary()
            },
    )
}

/// Puts the lifetime, if there is one, at the end of `tokens`.
pub fn push_lifetime(tokens: &mut Vec<Token>, lifetime: &Option<Lifetime>)
    ensures
        tokens_model(final(tokens)@) == tokens_model(old(tokens)@) + lifetime_tokens(
            lifetime_model(*lifetime),
        ),
{
    match lifetime {
        Some(lifetime) => {
            push_token(tokens, Token::Lifetime(lifetime.clone()));
        },
        None => {},
    }
}

fn binder(lifetimes: &Vec<Lifetime>) -> (tokens: Vec<Token>)
    ensures
        tokens_model(tokens@) == binder_tokens(lifetimes_model(lifetimes@)),
{
    let mut tokens: Vec<Token> = Vec::new();
    let ghost models = lifetimes_model(lifetimes@);
    if lifetimes.len() == 0 {
        return tokens;
    }
    let mut joined: Vec<Token> = Vec::new();
    let mut i: usize = 0;
    while i < lifetimes.len()
        invariant
            i <= lifetimes.len(),
            models == lifetimes_model(lifetimes@),
            tokens_model(joined@) == join(
                lifetime_parts(models.take(i as int)),
                TokenModel::Comma,
            ),
        decreases lifetimes.len() - i,
    {
        let mut part: Vec<Token> = Vec::new();
        part.push(Token::Lifetime(lifetimes[i].clone()));
        proof {
            let before = lifetime_parts(models.take(i as int));
            let one = seq![TokenModel::Lifetime(models[i as int])];
            assert(lifetime_parts(models.take(i + 1)) =~= before.push(one));
            lemma_join_push(before, one, TokenModel::Comma);
        }
        push_joined(&mut joined, part, i == 0, Token::Comma);
        i += 1;
    }
    assert(models.take(lifetimes.len() as int) =~= models);
    tokens.push(Token::For);
    tokens.push(Token::Lt);
    push_tokens(&mut tokens, joined);
    push_token(&mut tokens, Token::Gt);
    tokens
}

impl Type {
    /// What the type is printed with, all its parts in full.
    pub fn to_tokens(&self) -> (tokens: Vec<Token>)
        ensures
            tokens_model(tokens@) == type_tokens(self@),
        decreases self,
    {
        self.0.to_tokens()
    }
}

impl TypeNode {
    /// What the type is printed with, all its parts in full.
    pub fn to_tokens(&self) -> (tokens: Vec<Token>)
        ensures
            tokens_model(tokens@) == type_tokens(self@),
        decreases self,
    {
        let mut tokens: Vec<Token> = Vec::new();
        match self {
            TypeNode::Infer => {
                tokens.push(Token::Underscore);
            },
            TypeNode::Tuple(types) => {
                tokens.push(Token::Paren(joined_types(types)));
            },
            TypeNode::PrimitiveStr => {
                tokens.push(Token::Str);
            },
            TypeNode::Reference { lifetime, inner } => {
                tokens.push(Token::And);
                push_lifetime(&mut tokens, lifetime);
                push_tokens(&mut tokens, TypeNode::to_tokens(inner));
            },
            TypeNode::ReferenceMut { lifetime, inner } => {
                tokens.push(Token::And);
                tokens.push(Token::Mut);
                push_lifetime(&mut tokens, lifetime);
                push_tokens(&mut tokens, TypeNode::to_tokens(inner));
            },
            TypeNode::Dereference(inner) => {
                tokens.push(Token::Star);
                push_tokens(&mut tokens, TypeNode::to_tokens(inner));
            },
            TypeNode::TraitObject(bounds) => {
                tokens.push(Token::Dyn);
                push_tokens(&mut tokens, joined_bounds(bounds));
            },
            TypeNode::DataStructure { name, .. } => {
                tokens.push(Token::Ident(name.clone()));
            },
            TypeNode::Path(path) => {
                push_tokens(&mut tokens, path.to_tokens());
            },
            TypeNode::TypeParam(param) => {
                tokens.push(Token::Ident(param.ident.clone()));
            },
        }
        tokens
    }
}

/// The printed forms of the types with commas between them.
fn joined_types(types: &Vec<Type>) -> (tokens: Vec<Token>)
    ensures
        tokens_model(tokens@) == join(type_parts(types_model(types@)), TokenModel::Comma),
    decreases types,
{
    let ghost models = types_model(types@);
    let mut tokens: Vec<Token> = Vec::new();
    let mut i: usize = 0;
    while i < types.len()
        invariant
            i <= types.len(),
            models == types_model(types@),
            tokens_model(tokens@) == join(type_parts(models.take(i as int)), TokenModel::Comma),
        decreases types.len() - i,
    {
        let part = types[i].to_tokens();
        proof {
            let before = type_parts(models.take(i as int));
            assert(type_parts(models.take(i + 1)) =~= before.push(type_tokens(models[i as int])));
            lemma_join_push(before, type_tokens(models[i as int]), TokenModel::Comma);
        }
        push_joined(&mut tokens, part, i == 0, Token::Comma);
        i += 1;
    }
    assert(models.take(types.len() as int) =~= models);
    tokens
}

/// The printed forms of the bounds with `+` between them.
fn joined_bounds(bounds: &Vec<TypeParamBound>) -> (tokens: Vec<Token>)
    ensures
        tokens_model(tokens@) == join(bound_parts(bounds_model(bounds@)), TokenModel::Plus),
    decreases bounds,
{
    let ghost models = bounds_model(bounds@);
    let mut tokens: Vec<Token> = Vec::new();
    let mut i: usize = 0;
    while i < bounds.len()
        invariant
            i <= bounds.len(),
            models == bounds_model(bounds@),
            tokens_model(tokens@) == join(bound_parts(models.take(i as int)), TokenModel::Plus),
        decreases bounds.len() - i,
    {
        let part = bounds[i].to_tokens();
        proof {
            let before = bound_parts(models.take(i as int));
            assert(bound_parts(models.take(i + 1)) =~= before.push(
                bound_tokens(models[i as int]),
            ));
            lemma_join_push(before, bound_tokens(models[i as int]), TokenModel::Plus);
        }
        push_joined(&mut tokens, part, i == 0, Token::Plus);
        i += 1;
    }
    assert(models.take(bounds.len() as int) =~= models);
    tokens
}

impl TypeParamBound {
    /// What the bound is printed with.
    pub fn to_tokens(&self) -> (tokens: Vec<Token>)
        ensures
            tokens_model(tokens@) == bound_tokens(self@),
        decreases self,
    {
        match self {
            TypeParamBound::Trait(bound) => {
                let mut tokens = binder(&bound.lifetimes);
                push_tokens(&mut tokens, bound.path.to_tokens());
                tokens
            },
            TypeParamBound::Lifetime(lifetime) => {
                let mut tokens: Vec<Token> = Vec::new();
                tokens.push(Token::Lifetime(lifetime.clone()));
                tokens
            },
        }
    }
}

impl Path {
    /// What the path is printed with.
    pub fn to_tokens(&self) -> (tokens: Vec<Token>)
        ensures
            tokens_model(tokens@) == path_tokens(self@),
        decreases self,
    {
        let ghost models = segments_model(self.path@);
        let mut joined: Vec<Token> = Vec::new();
        let mut i: usize = 0;
        while i < self.path.len()
            invariant
                i <= self.path.len(),
                models == segments_model(self.path@),
                tokens_model(joined@) == join(
                    segment_parts(models.take(i as int)),
                    TokenModel::PathSep,
                ),
            decreases self.path.len() - i,
        {
            let part = segment_to_tokens(&self.path[i]);
            proof {
                let before = segment_parts(models.take(i as int));
                assert(segment_parts(models.take(i + 1)) =~= before.push(
                    segment_tokens(models[i as int]),
                ));
                lemma_join_push(before, segment_tokens(models[i as int]), TokenModel::PathSep);
            }
            push_joined(&mut joined, part, i == 0, Token::PathSep);
            i += 1;
        }
        assert(models.take(self.path.len() as int) =~= models);
        let mut tokens: Vec<Token> = Vec::new();
        if self.global {
            tokens.push(Token::PathSep);
        }
        push_tokens(&mut tokens, joined);
        tokens
    }
}

fn segment_to_tokens(segment: &PathSegment) -> (tokens: Vec<Token>)
    ensures
        tokens_model(tokens@) == segment_tokens(segment_model(*segment)),
    decreases segment,
{
    let mut tokens: Vec<Token> = Vec::new();
    tokens.push(Token::Ident(segment.ident.clone()));
    push_tokens(&mut tokens, arguments_to_tokens(&segment.args));
    tokens
}

fn arguments_to_tokens(args: &PathArguments) -> (tokens: Vec<Token>)
    ensures
        tokens_model(tokens@) == arguments_tokens(arguments_model(*args)),
    decreases args,
{
    let mut tokens: Vec<Token> = Vec::new();
    match args {
        PathArguments::Absent => {},
        PathArguments::AngleBracketed(list) => {
            tokens.push(Token::Lt);
            push_tokens(&mut tokens, joined_arguments(list));
            push_token(&mut tokens, Token::Gt);
        },
        PathArguments::Parenthesized { inputs, output } => {
            tokens.push(Token::Paren(joined_types(inputs)));
            match output {
                Some(ty) => {
                    push_token(&mut tokens, Token::Arrow);
                    push_tokens(&mut tokens, ty.to_tokens());
                },
                None => {},
            }
        },
    }
    tokens
}

/// The printed forms of the arguments with commas between them.
fn joined_arguments(args: &Vec<GenericArgument>) -> (tokens: Vec<Token>)
    ensures
        tokens_model(tokens@) == join(
            argument_parts(generic_arguments_model(args@)),
            TokenModel::Comma,
        ),
    decreases args,
{
    let ghost models = generic_arguments_model(args@);
    let mut tokens: Vec<Token> = Vec::new();
    let mut i: usize = 0;
    while i < args.len()
        invariant
            i <= args.len(),
            models == generic_arguments_model(args@),
            tokens_model(tokens@) == join(
                argument_parts(models.take(i as int)),
                TokenModel::Comma,
            ),
        decreases args.len() - i,
    {
        let part = match &args[i] {
            GenericArgument::Type(ty) => ty.to_tokens(),
            GenericArgument::Lifetime(lifetime) => {
                let mut part: Vec<Token> = Vec::new();
                part.push(Token::Lifetime(lifetime.clone()));
                part
            },
        };
        proof {
            let before = argument_parts(models.take(i as int));
            assert(argument_parts(models.take(i + 1)) =~= before.push(
                argument_tokens(models[i as int]),
            ));
            lemma_join_push(before, argument_tokens(models[i as int]), TokenModel::Comma);
        }
        push_joined(&mut tokens, part, i == 0, Token::Comma);
        i += 1;
    }
    assert(models.take(args.len() as int) =~= models);
    tokens
}

} // verus!
