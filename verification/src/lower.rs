//! Lowering of a parsed type expression into a type. An identifier that
//! names a generic type parameter in scope becomes that parameter; every
//! other path is lowered part by part.

use crate::error::TypeError;
use crate::generics::{params_model, GenericParam, TraitBound, TypeParam, TypeParamBound};
use crate::ident::{clone_lifetime, clone_lifetimes, lifetime_model, lifetimes_model, Ident};
use crate::model::{
    ArgumentsModel, BoundModel, GenericArgumentModel, GenericParamModel, PathModel, SegmentModel,
    TypeModel,
};
use crate::path::{GenericArgument, Path, PathArguments, PathSegment};
use crate::syntax::{ArgumentExpr, ArgumentsExpr, BoundExpr, PathExpr, SegmentExpr, TypeExpr};
use crate::ty::{Type, TypeNode};
use crate::view::{
    arguments_model, bound_model, bounds_model, generic_argument_model, generic_arguments_model,
    segment_model, segments_model, type_model, types_model,
};
use vstd::prelude::*;

verus! {

/// Whether `name` is a generic type parameter among `params`.
pub open spec fn binds_type(params: Seq<GenericParamModel>, name: Seq<char>) -> bool {
    exists|i: int| 0 <= i < params.len() && params[i] == GenericParamModel::Type(name)
}

/// Whether the path is a bare identifier that names a type parameter in scope.
pub open spec fn names_type_param(path: PathExpr, params: Seq<GenericParamModel>) -> bool {
    path.ident_of() matches Some(name) && binds_type(params, name)
}

/// The type that an expression stands for, where its shape is handled.
pub open spec fn lower_type(expr: TypeExpr, params: Seq<GenericParamModel>) -> Option<TypeModel>
    decreases expr,
{
    match expr {
        TypeExpr::Path { qualified, path } => {
            if qualified {
                None
            } else if names_type_param(path, params) {
                Some(TypeModel::TypeParam(path.ident_of().unwrap()))
            } else {
                match lower_path(path, params) {
                    Some(path) => Some(TypeModel::Path(path)),
                    None => None,
                }
            }
        },
        TypeExpr::Reference { lifetime, mutable, elem } => match lower_type(*elem, params) {
            Some(inner) => Some(
                if mutable {
                    TypeModel::ReferenceMut {
                        lifetime: lifetime_model(lifetime),
                        inner: Box::new(inner),
                    }
                } else {
                    TypeModel::Reference {
                        lifetime: lifetime_model(lifetime),
                        inner: Box::new(inner),
                    }
                },
            ),
            None => None,
        },
        TypeExpr::TraitObject { bounds } => match lower_bounds(bounds@, params) {
            Some(bounds) => Some(TypeModel::TraitObject(bounds)),
            None => None,
        },
        TypeExpr::Tuple { elems, trailing } => {
            if elems@.len() == 0 {
                Some(TypeModel::unit())
            } else if elems@.len() == 1 && !trailing {
                lower_type(elems@[0], params)
            } else {
                match lower_types(elems@, params) {
                    Some(types) => Some(TypeModel::Tuple(types)),
                    None => None,
                }
            }
        },
        TypeExpr::Other => None,
    }
}

/// The types that the expressions stand for, where each of them is handled.
pub open spec fn lower_types(exprs: Seq<TypeExpr>, params: Seq<GenericParamModel>) -> Option<
    Seq<TypeModel>,
>
    decreases exprs,
{
    if forall|i: int|
        #![trigger exprs[i]]
        0 <= i < exprs.len() ==> lower_type(exprs[i], params) is Some {
        Some(
            Seq::new(
                exprs.len(),
                |i: int|
                    if 0 <= i < exprs.len() {
                        lower_type(exprs[i], params).unwrap()
                    } else {
                        arbitrary()
                    },
            ),
        )
    } else {
        None
    }
}

pub open spec fn lower_output(output: Option<Box<TypeExpr>>, params: Seq<GenericParamModel>)
    -> Option<Option<Box<TypeModel>>>
    decreases output,
{
    match output {
        Some(expr) => match lower_type(*expr, params) {
            Some(ty) => Some(Some(Box::new(ty))),
            None => None,
        },
        None => Some(None),
    }
}

pub open spec fn lower_argument(arg: ArgumentExpr, params: Seq<GenericParamModel>) -> Option<
    GenericArgumentModel,
>
    decreases arg,
{
    match arg {
        ArgumentExpr::Lifetime(lifetime) => Some(GenericArgumentModel::Lifetime(lifetime@)),
        ArgumentExpr::Type(expr) => match lower_type(expr, params) {
            Some(ty) => Some(GenericArgumentModel::Type(ty)),
            None => None,
        },
        ArgumentExpr::Other => None,
    }
}

pub open spec fn lower_argument_seq(args: Seq<ArgumentExpr>, params: Seq<GenericParamModel>)
    -> Option<Seq<GenericArgumentModel>>
    decreases args,
{
    if forall|i: int|
        #![trigger args[i]]
        0 <= i < args.len() ==> lower_argument(args[i], params) is Some {
        Some(
            Seq::new(
                args.len(),
                |i: int|
                    if 0 <= i < args.len() {
                        lower_argument(args[i], params).unwrap()
                    } else {
                        arbitrary()
                    },
            ),
        )
    } else {
        None
    }
}

pub open spec fn lower_arguments(args: ArgumentsExpr, params: Seq<GenericParamModel>) -> Option<
    ArgumentsModel,
>
    decreases args,
{
    match args {
        ArgumentsExpr::Absent => Some(ArgumentsModel::Absent),
        ArgumentsExpr::AngleBracketed(args) => match lower_argument_seq(args@, params) {
            Some(args) => Some(ArgumentsModel::AngleBracketed(args)),
            None => None,
        },
        ArgumentsExpr::Parenthesized { inputs, output } => match (
            lower_types(inputs@, params),
            lower_output(output, params),
        ) {
            (Some(inputs), Some(output)) => Some(ArgumentsModel::Parenthesized { inputs, output }),
            _ => None,
        },
    }
}

pub open spec fn lower_segment(segment: SegmentExpr, params: Seq<GenericParamModel>) -> Option<
    SegmentModel,
>
    decreases segment,
{
    match lower_arguments(segment.arguments, params) {
        Some(args) => Some(SegmentModel { ident: segment.ident@, args }),
        None => None,
    }
}

pub open spec fn lower_segments(segments: Seq<SegmentExpr>, params: Seq<GenericParamModel>)
    -> Option<Seq<SegmentModel>>
    decreases segments,
{
    if forall|i: int|
        #![trigger segments[i]]
        0 <= i < segments.len() ==> lower_segment(segments[i], params) is Some {
        Some(
            Seq::new(
                segments.len(),
                |i: int|
                    if 0 <= i < segments.len() {
                        lower_segment(segments[i], params).unwrap()
                    } else {
                        arbitrary()
                    },
            ),
        )
    } else {
        None
    }
}

/// The path that a written path stands for: the same segments, with the
/// types among their arguments lowered.
pub open spec fn lower_path(path: PathExpr, params: Seq<GenericParamModel>) -> Option<PathModel>
    decreases path,
{
    match lower_segments(path.segments@, params) {
        Some(segments) => Some(PathModel { global: path.leading_colon, segments }),
        None => None,
    }
}

pub open spec fn lower_bound(bound: BoundExpr, params: Seq<GenericParamModel>) -> Option<
    BoundModel,
>
    decreases bound,
{
    match bound {
        BoundExpr::Trait { lifetimes, path } => match lower_path(path, params) {
            Some(path) => Some(BoundModel::Trait { lifetimes: lifetimes_model(lifetimes@), path }),
            None => None,
        },
        BoundExpr::Lifetime(lifetime) => Some(BoundModel::Lifetime(lifetime@)),
        BoundExpr::Other => None,
    }
}

/// The bounds that the written bounds stand for, all of them and in order.
pub open spec fn lower_bounds(bounds: Seq<BoundExpr>, params: Seq<GenericParamModel>) -> Option<
    Seq<BoundModel>,
>
    decreases bounds,
{
    if forall|i: int|
        #![trigger bounds[i]]
        0 <= i < bounds.len() ==> lower_bound(bounds[i], params) is Some {
        Some(
            Seq::new(
                bounds.len(),
                |i: int|
                    if 0 <= i < bounds.len() {
                        lower_bound(bounds[i], params).unwrap()
                    } else {
                        arbitrary()
                    },
            ),
        )
    } else {
        None
    }
}

/// Whether `ident` is a generic type parameter among `params`.
pub fn in_scope(params: &[GenericParam], ident: &Ident) -> (found: bool)
    ensures
        found == binds_type(params_model(params@), ident@),
{
    let mut i: usize = 0;
    while i < params.len()
        invariant
            i <= params.len(),
            forall|j: int|
                0 <= j < i ==> params_model(params@)[j] != GenericParamModel::Type(ident@),
        decreases params.len() - i,
    {
        match &params[i] {
            GenericParam::Type(param) => {
                if param.ident.same(ident) {
                    assert(params_model(params@)[i as int] == GenericParamModel::Type(ident@));
                    return true;
                }
            },
            _ => {},
        }
        i += 1;
    }
    false
}

impl Type {
    /// Lowers a parsed type expression, with the generic parameters that are
    /// in scope. A shape that is not handled is refused as unsupported.
    pub fn syn_to_type(ty: &TypeExpr, params: &[GenericParam]) -> (result: Result<Type, TypeError>)
        ensures
            match lower_type(*ty, params_model(params@)) {
                Some(model) => result matches Ok(lowered) && lowered@ == model,
                None => result matches Err(TypeError::Unsupported),
            },
        decreases ty,
    {
        match ty {
            TypeExpr::Path { qualified, path } => {
                if *qualified {
                    return Err(TypeError::Unsupported);
                }
                match path.get_ident() {
                    Some(ident) => {
                        if in_scope(params, ident) {
                            return Ok(Type(TypeNode::TypeParam(TypeParam { ident: ident.clone() })));
                        }
                    },
                    None => {},
                }
                match Path::syn_to_path(path, params) {
                    Ok(path) => Ok(Type(TypeNode::Path(path))),
                    Err(e) => Err(e),
                }
            },
            TypeExpr::Reference { lifetime, mutable, elem } => {
                match Type::syn_to_type(elem, params) {
                    Ok(inner) => {
                        let lifetime = clone_lifetime(lifetime);
                        let inner = Box::new(inner.0);
                        if *mutable {
                            Ok(Type(TypeNode::ReferenceMut { lifetime, inner }))
                        } else {
                            Ok(Type(TypeNode::Reference { lifetime, inner }))
                        }
                    },
                    Err(e) => Err(e),
                }
            },
            TypeExpr::TraitObject { bounds } => {
                match syn_to_type_param_bounds(bounds, params) {
                    Ok(bounds) => Ok(Type(TypeNode::TraitObject(bounds))),
                    Err(e) => Err(e),
                }
            },
            TypeExpr::Tuple { elems, trailing } => {
                if elems.len() == 0 {
                    Ok(Type::unit())
                } else if elems.len() == 1 && !*trailing {
                    // No tuple: the parentheses only group.
                    Type::syn_to_type(&elems[0], params)
                } else {
                    match syn_to_types(elems, params) {
                        Ok(types) => Ok(Type(TypeNode::Tuple(types))),
                        Err(e) => Err(e),
                    }
                }
            },
            TypeExpr::Other => Err(TypeError::Unsupported),
        }
    }
}

/// Lowers each of the expressions, in order.
pub fn syn_to_types(exprs: &Vec<TypeExpr>, params: &[GenericParam]) -> (result: Result<
    Vec<Type>,
    TypeError,
>)
    ensures
        match lower_types(exprs@, params_model(params@)) {
            Some(models) => result matches Ok(types) && types_model(types@) == models,
            None => result matches Err(TypeError::Unsupported),
        },
    decreases exprs,
{
    let mut types: Vec<Type> = Vec::new();
    let mut i: usize = 0;
    while i < exprs.len()
        invariant
            i <= exprs.len(),
            types.len() == i,
            forall|j: int|
                0 <= j < i ==> lower_type(exprs[j], params_model(params@)) == Some(
                    type_model(types[j]),
                ),
        decreases exprs.len() - i,
    {
        match Type::syn_to_type(&exprs[i], params) {
            Ok(ty) => {
                types.push(ty);
            },
            Err(e) => {
                return Err(e);
            },
        }
        i += 1;
    }
    Ok(types)
}

/// Lowers the arguments between angle brackets, in order.
fn syn_to_argument_seq(args: &Vec<ArgumentExpr>, params: &[GenericParam]) -> (result: Result<
    Vec<GenericArgument>,
    TypeError,
>)
    ensures
        match lower_argument_seq(args@, params_model(params@)) {
            Some(models) => result matches Ok(lowered) && generic_arguments_model(lowered@)
                == models,
            None => result matches Err(TypeError::Unsupported),
        },
    decreases args,
{
    let mut lowered: Vec<GenericArgument> = Vec::new();
    let mut i: usize = 0;
    while i < args.len()
        invariant
            i <= args.len(),
            lowered.len() == i,
            forall|j: int|
                0 <= j < i ==> lower_argument(args[j], params_model(params@)) == Some(
                    generic_argument_model(lowered[j]),
                ),
        decreases args.len() - i,
    {
        match &args[i] {
            ArgumentExpr::Lifetime(lifetime) => {
                lowered.push(GenericArgument::Lifetime(lifetime.clone()));
            },
            ArgumentExpr::Type(expr) => match Type::syn_to_type(expr, params) {
                Ok(ty) => {
                    lowered.push(GenericArgument::Type(ty));
                },
                Err(e) => {
                    return Err(e);
                },
            },
            ArgumentExpr::Other => {
                return Err(TypeError::Unsupported);
            },
        }
        i += 1;
    }
    Ok(lowered)
}

/// Lowers the arguments of one path segment.
fn syn_to_arguments(args: &ArgumentsExpr, params: &[GenericParam]) -> (result: Result<
    PathArguments,
    TypeError,
>)
    ensures
        match lower_arguments(*args, params_model(params@)) {
            Some(model) => result matches Ok(lowered) && arguments_model(lowered) == model,
            None => result matches Err(TypeError::Unsupported),
        },
    decreases args,
{
    match args {
        ArgumentsExpr::Absent => Ok(PathArguments::Absent),
        ArgumentsExpr::AngleBracketed(args) => match syn_to_argument_seq(args, params) {
            Ok(lowered) => Ok(PathArguments::AngleBracketed(lowered)),
            Err(e) => Err(e),
        },
        ArgumentsExpr::Parenthesized { inputs, output } => {
            let inputs = match syn_to_types(inputs, params) {
                Ok(inputs) => inputs,
                Err(e) => {
                    return Err(e);
                },
            };
            let output = match output {
                Some(expr) => match Type::syn_to_type(expr, params) {
                    Ok(ty) => Some(ty),
                    Err(e) => {
                        return Err(e);
                    },
                },
                None => None,
            };
            Ok(PathArguments::Parenthesized { inputs, output })
        },
    }
}

impl Path {
    /// Lowers a written path: the same segments, with the types among their
    /// arguments lowered against the parameters in scope.
    pub fn syn_to_path(path: &PathExpr, params: &[GenericParam]) -> (result: Result<
        Path,
        TypeError,
    >)
        ensures
            match lower_path(*path, params_model(params@)) {
                Some(model) => result matches Ok(lowered) && lowered@ == model,
                None => result matches Err(TypeError::Unsupported),
            },
        decreases path,
    {
        let mut segments: Vec<PathSegment> = Vec::new();
        let mut i: usize = 0;
        while i < path.segments.len()
            invariant
                i <= path.segments.len(),
                segments.len() == i,
                forall|j: int|
                    0 <= j < i ==> lower_segment(path.segments[j], params_model(params@)) == Some(
                        segment_model(segments[j]),
                    ),
            decreases path.segments.len() - i,
        {
            let segment = &path.segments[i];
            match syn_to_arguments(&segment.arguments, params) {
                Ok(args) => {
                    segments.push(PathSegment { ident: segment.ident.clone(), args });
                },
                Err(e) => {
                    return Err(e);
                },
            }
            i += 1;
        }
        assert(segments_model(segments@) =~= lower_segments(
            path.segments@,
            params_model(params@),
        ).unwrap());
        Ok(Path { global: path.leading_colon, path: segments })
    }
}

/// Lowers the bounds of a trait object or of a type parameter, all of them
/// and in order.
pub fn syn_to_type_param_bounds(bounds: &Vec<BoundExpr>, params: &[GenericParam]) -> (result:
    Result<Vec<TypeParamBound>, TypeError>)
    ensures
        match lower_bounds(bounds@, params_model(params@)) {
            Some(models) => result matches Ok(lowered) && bounds_model(lowered@) == models,
            None => result matches Err(TypeError::Unsupported),
        },
    decreases bounds,
{
    let mut lowered: Vec<TypeParamBound> = Vec::new();
    let mut i: usize = 0;
    while i < bounds.len()
        invariant
            i <= bounds.len(),
            lowered.len() == i,
            forall|j: int|
                0 <= j < i ==> lower_bound(bounds[j], params_model(params@)) == Some(
                    bound_model(lowered[j]),
                ),
        decreases bounds.len() - i,
    {
        match &bounds[i] {
            BoundExpr::Trait { lifetimes, path } => match Path::syn_to_path(path, params) {
                Ok(path) => {
                    lowered.push(
                        TypeParamBound::Trait(
                            TraitBound { lifetimes: clone_lifetimes(lifetimes), path },
                        ),
                    );
                },
                Err(e) => {
                    return Err(e);
                },
            },
            BoundExpr::Lifetime(lifetime) => {
                lowered.push(TypeParamBound::Lifetime(lifetime.clone()));
            },
            BoundExpr::Other => {
                return Err(TypeError::Unsupported);
            },
        }
        i += 1;
    }
    Ok(lowered)
}

} // verus!
