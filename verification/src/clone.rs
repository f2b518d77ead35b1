//! Deep copies of types and of what they hold. A copy has the model of the
//! value that it was made from.

use crate::data::{Data, Field, Fields, Variant};
use crate::generics::{
    clone_params, GenericConstraint, Generics, LifetimeDef, PredicateType, TraitBound,
    TypeParamBound,
};
use crate::ident::{clone_lifetime, clone_lifetimes};
use crate::path::{GenericArgument, Path, PathArguments, PathSegment};
use crate::ty::{Type, TypeNode};
use crate::view::{
    arguments_model, bound_model, bounds_model, constraint_model, constraints_model, data_model,
    field_seq_model, fields_model, generic_argument_model, generic_arguments_model,
    generics_model, node_model, path_model, segment_model, segments_model,
    type_model, types_model, variants_model,
};
use vstd::prelude::*;

verus! {

pub fn clone_type(ty: &Type) -> (copy: Type)
    ensures
        type_model(copy) == type_model(*ty),
    decreases ty,
{
    Type(clone_node(&ty.0))
}

pub fn clone_node(node: &TypeNode) -> (copy: TypeNode)
    ensures
        node_model(copy) == node_model(*node),
    decreases node,
{
    match node {
        TypeNode::Infer => TypeNode::Infer,
        TypeNode::Tuple(types) => TypeNode::Tuple(clone_types(types)),
        TypeNode::PrimitiveStr => TypeNode::PrimitiveStr,
        TypeNode::Reference { lifetime, inner } => TypeNode::Reference {
            lifetime: clone_lifetime(lifetime),
            inner: Box::new(clone_node(inner)),
        },
        TypeNode::ReferenceMut { lifetime, inner } => TypeNode::ReferenceMut {
            lifetime: clone_lifetime(lifetime),
            inner: Box::new(clone_node(inner)),
        },
        TypeNode::Dereference(inner) => TypeNode::Dereference(Box::new(clone_node(inner))),
        TypeNode::TraitObject(bounds) => TypeNode::TraitObject(clone_bounds(bounds)),
        TypeNode::DataStructure { name, generics, data } => TypeNode::DataStructure {
            name: name.clone(),
            generics: clone_generics(generics),
            data: clone_data(data),
        },
        TypeNode::Path(path) => TypeNode::Path(clone_path(path)),
        TypeNode::TypeParam(param) => TypeNode::TypeParam(param.clone()),
    }
}

pub fn clone_types(types: &Vec<Type>) -> (copy: Vec<Type>)
    ensures
        types_model(copy@) == types_model(types@),
    decreases types,
{
    let mut copy: Vec<Type> = Vec::new();
    let mut i: usize = 0;
    while i < types.len()
        invariant
            i <= types.len(),
            copy.len() == i,
            forall|j: int| 0 <= j < i ==> type_model(copy[j]) == type_model(types[j]),
        decreases types.len() - i,
    {
        copy.push(clone_type(&types[i]));
        i += 1;
    }
    copy
}

pub fn clone_bound(bound: &TypeParamBound) -> (copy: TypeParamBound)
    ensures
        bound_model(copy) == bound_model(*bound),
    decreases bound,
{
    match bound {
        TypeParamBound::Trait(bound) => TypeParamBound::Trait(
            TraitBound {
                lifetimes: clone_lifetimes(&bound.lifetimes),
                path: clone_path(&bound.path),
            },
        ),
        TypeParamBound::Lifetime(lifetime) => TypeParamBound::Lifetime(lifetime.clone()),
    }
}

pub fn clone_bounds(bounds: &Vec<TypeParamBound>) -> (copy: Vec<TypeParamBound>)
    ensures
        bounds_model(copy@) == bounds_model(bounds@),
    decreases bounds,
{
    let mut copy: Vec<TypeParamBound> = Vec::new();
    let mut i: usize = 0;
    while i < bounds.len()
        invariant
            i <= bounds.len(),
            copy.len() == i,
            forall|j: int| 0 <= j < i ==> bound_model(copy[j]) == bound_model(bounds[j]),
        decreases bounds.len() - i,
    {
        copy.push(clone_bound(&bounds[i]));
        i += 1;
    }
    copy
}

pub fn clone_path(path: &Path) -> (copy: Path)
    ensures
        path_model(copy) == path_model(*path),
    decreases path,
{
    Path { global: path.global, path: clone_segments(&path.path) }
}

pub fn clone_segments(segments: &Vec<PathSegment>) -> (copy: Vec<PathSegment>)
    ensures
        segments_model(copy@) == segments_model(segments@),
    decreases segments,
{
    let mut copy: Vec<PathSegment> = Vec::new();
    let mut i: usize = 0;
    while i < segments.len()
        invariant
            i <= segments.len(),
            copy.len() == i,
            forall|j: int| 0 <= j < i ==> segment_model(copy[j]) == segment_model(segments[j]),
        decreases segments.len() - i,
    {
        let segment = &segments[i];
        copy.push(
            PathSegment { ident: segment.ident.clone(), args: clone_arguments(&segment.args) },
        );
        i += 1;
    }
    copy
}

pub fn clone_arguments(args: &PathArguments) -> (copy: PathArguments)
    ensures
        arguments_model(copy) == arguments_model(*args),
    decreases args,
{
    match args {
        PathArguments::Absent => PathArguments::Absent,
        PathArguments::AngleBracketed(args) => PathArguments::AngleBracketed(
            clone_generic_arguments(args),
        ),
        PathArguments::Parenthesized { inputs, output } => {
            let output_copy = match output {
                Some(ty) => Some(clone_type(ty)),
                None => None,
            };
            PathArguments::Parenthesized { inputs: clone_types(inputs), output: output_copy }
        },
    }
}

pub fn clone_generic_arguments(args: &Vec<GenericArgument>) -> (copy: Vec<GenericArgument>)
    ensures
        generic_arguments_model(copy@) == generic_arguments_model(args@),
    decreases args,
{
    let mut copy: Vec<GenericArgument> = Vec::new();
    let mut i: usize = 0;
    while i < args.len()
        invariant
            i <= args.len(),
            copy.len() == i,
            forall|j: int|
                0 <= j < i ==> generic_argument_model(copy[j]) == generic_argument_model(args[j]),
        decreases args.len() - i,
    {
        let arg = match &args[i] {
            GenericArgument::Type(ty) => GenericArgument::Type(clone_type(ty)),
            GenericArgument::Lifetime(lifetime) => GenericArgument::Lifetime(lifetime.clone()),
        };
        copy.push(arg);
        i += 1;
    }
    copy
}

pub fn clone_constraints(constraints: &Vec<GenericConstraint>) -> (copy: Vec<GenericConstraint>)
    ensures
        constraints_model(copy@) == constraints_model(constraints@),
    decreases constraints,
{
    let mut copy: Vec<GenericConstraint> = Vec::new();
    let mut i: usize = 0;
    while i < constraints.len()
        invariant
            i <= constraints.len(),
            copy.len() == i,
            forall|j: int|
                0 <= j < i ==> constraint_model(copy[j]) == constraint_model(constraints[j]),
        decreases constraints.len() - i,
    {
        let constraint = match &constraints[i] {
            GenericConstraint::Type(predicate) => GenericConstraint::Type(
                PredicateType {
                    bounded: clone_type(&predicate.bounded),
                    bounds: clone_bounds(&predicate.bounds),
                },
            ),
            GenericConstraint::Lifetime(def) => GenericConstraint::Lifetime(
                LifetimeDef {
                    lifetime: def.lifetime.clone(),
                    bounds: clone_lifetimes(&def.bounds),
                },
            ),
        };
        copy.push(constraint);
        i += 1;
    }
    copy
}

pub fn clone_generics(generics: &Generics) -> (copy: Generics)
    ensures
        generics_model(copy) == generics_model(*generics),
    decreases generics,
{
    Generics {
        params: clone_params(&generics.params),
        constraints: clone_constraints(&generics.constraints),
    }
}

pub fn clone_field_seq(fields: &Vec<Field<Type>>) -> (copy: Vec<Field<Type>>)
    ensures
        field_seq_model(copy@) == field_seq_model(fields@),
    decreases fields,
{
    let mut copy: Vec<Field<Type>> = Vec::new();
    let mut i: usize = 0;
    while i < fields.len()
        invariant
            i <= fields.len(),
            copy.len() == i,
            forall|j: int|
                0 <= j < i ==> crate::view::field_model(copy[j]) == crate::view::field_model(
                    fields[j],
                ),
        decreases fields.len() - i,
    {
        let field = &fields[i];
        copy.push(Field { accessor: field.accessor.clone(), element: clone_type(&field.element) });
        i += 1;
    }
    copy
}

pub fn clone_fields(fields: &Fields<Type>) -> (copy: Fields<Type>)
    ensures
        fields_model(copy) == fields_model(*fields),
    decreases fields,
{
    match fields {
        Fields::Unit => Fields::Unit,
        Fields::Tuple(fields) => Fields::Tuple(clone_field_seq(fields)),
        Fields::Named(fields) => Fields::Named(clone_field_seq(fields)),
    }
}

pub fn clone_variants(variants: &Vec<Variant<Type>>) -> (copy: Vec<Variant<Type>>)
    ensures
        variants_model(copy@) == variants_model(variants@),
    decreases variants,
{
    let mut copy: Vec<Variant<Type>> = Vec::new();
    let mut i: usize = 0;
    while i < variants.len()
        invariant
            i <= variants.len(),
            copy.len() == i,
            forall|j: int|
                0 <= j < i ==> crate::view::variant_model(copy[j]) == crate::view::variant_model(
                    variants[j],
                ),
        decreases variants.len() - i,
    {
        let variant = &variants[i];
        copy.push(
            Variant { ident: variant.ident.clone(), fields: clone_fields(&variant.fields) },
        );
        i += 1;
    }
    copy
}

pub fn clone_data(data: &Data<Type>) -> (copy: Data<Type>)
    ensures
        data_model(copy) == data_model(*data),
    decreases data,
{
    match data {
        Data::Struct(fields) => Data::Struct(clone_fields(fields)),
        Data::Enum(variants) => Data::Enum(clone_variants(variants)),
    }
}

impl Clone for Type {
    fn clone(&self) -> (copy: Type)
        ensures
            copy@ == self@,
    {
        clone_type(self)
    }
}

impl Clone for TypeNode {
    fn clone(&self) -> (copy: TypeNode)
        ensures
            copy@ == self@,
    {
        clone_node(self)
    }
}

impl Clone for TypeParamBound {
    fn clone(&self) -> (copy: TypeParamBound)
        ensures
            copy@ == self@,
    {
        clone_bound(self)
    }
}

impl Clone for Path {
    fn clone(&self) -> (copy: Path)
        ensures
            copy@ == self@,
    {
        clone_path(self)
    }
}

impl Clone for Generics {
    fn clone(&self) -> (copy: Generics)
        ensures
            copy@ == self@,
    {
        clone_generics(self)
    }
}

impl Clone for Data<Type> {
    fn clone(&self) -> (copy: Data<Type>)
        ensures
            copy@ == self@,
    {
        clone_data(self)
    }
}

} // verus!
