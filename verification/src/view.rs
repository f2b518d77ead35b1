//! The model of each value: what a type, a path, a bound, a constraint or a
//! field structure is, whatever storage backs it. The contracts of the
//! library speak of these.

use crate::data::{Data, Field, Fields, Variant};
use crate::generics::{params_model, GenericConstraint, Generics, TypeParamBound};
use crate::ident::{lifetime_model, lifetimes_model};
use crate::model::{
    ArgumentsModel, BoundModel, ConstraintModel, DataModel, FieldModel, FieldsModel,
    GenericArgumentModel, GenericsModel, PathModel, SegmentModel, TypeModel, VariantModel,
};
use crate::path::{GenericArgument, Path, PathArguments, PathSegment};
use crate::ty::{Type, TypeNode};
use vstd::prelude::*;

verus! {

/// What a type is.
pub open spec fn type_model(ty: Type) -> TypeModel
    decreases ty,
{
    node_model(ty.0)
}

/// What the node of a type is.
pub open spec fn node_model(node: TypeNode) -> TypeModel
    decreases node,
{
    match node {
        TypeNode::Infer => TypeModel::Infer,
        TypeNode::Tuple(types) => TypeModel::Tuple(types_model(types@)),
        TypeNode::PrimitiveStr => TypeModel::PrimitiveStr,
        TypeNode::Reference { lifetime, inner } => TypeModel::Reference {
            lifetime: lifetime_model(lifetime),
            inner: Box::new(node_model(*inner)),
        },
        TypeNode::ReferenceMut { lifetime, inner } => TypeModel::ReferenceMut {
            lifetime: lifetime_model(lifetime),
            inner: Box::new(node_model(*inner)),
        },
        TypeNode::Dereference(inner) => TypeModel::Dereference(Box::new(node_model(*inner))),
        TypeNode::TraitObject(bounds) => TypeModel::TraitObject(bounds_model(bounds@)),
        TypeNode::DataStructure { name, generics, data } => TypeModel::DataStructure {
            name: name@,
            generics: generics_model(generics),
            data: data_model(data),
        },
        TypeNode::Path(path) => TypeModel::Path(path_model(path)),
        TypeNode::TypeParam(param) => TypeModel::TypeParam(param@),
    }
}

/// What each of the types is, in order.
pub open spec fn types_model(types: Seq<Type>) -> Seq<TypeModel>
    decreases types,
{
    Seq::new(
        types.len(),
        |i: int|
            if 0 <= i < types.len() {
                type_model(types[i])
            } else {
                arbitrary()
            },
    )
}

/// What a bound is.
pub open spec fn bound_model(bound: TypeParamBound) -> BoundModel
    decreases bound,
{
    match bound {
        TypeParamBound::Trait(bound) => BoundModel::Trait {
            lifetimes: lifetimes_model(bound.lifetimes@),
            path: path_model(bound.path),
        },
        TypeParamBound::Lifetime(lifetime) => BoundModel::Lifetime(lifetime@),
    }
}

pub open spec fn bounds_model(bounds: Seq<TypeParamBound>) -> Seq<BoundModel>
    decreases bounds,
{
    Seq::new(
        bounds.len(),
        |i: int|
            if 0 <= i < bounds.len() {
                bound_model(bounds[i])
            } else {
                arbitrary()
            },
    )
}

/// What a path is.
pub open spec fn path_model(path: Path) -> PathModel
    decreases path,
{
    PathModel { global: path.global, segments: segments_model(path.path@) }
}

pub open spec fn segment_model(segment: PathSegment) -> SegmentModel
    decreases segment,
{
    SegmentModel { ident: segment.ident@, args: arguments_model(segment.args) }
}

pub open spec fn segments_model(segments: Seq<PathSegment>) -> Seq<SegmentModel>
    decreases segments,
{
    Seq::new(
        segments.len(),
        |i: int|
            if 0 <= i < segments.len() {
                segment_model(segments[i])
            } else {
                arbitrary()
            },
    )
}

pub open spec fn output_model(output: Option<Type>) -> Option<Box<TypeModel>>
    decreases output,
{
    match output {
        Some(ty) => Some(Box::new(type_model(ty))),
        None => None,
    }
}

pub open spec fn arguments_model(args: PathArguments) -> ArgumentsModel
    decreases args,
{
    match args {
        PathArguments::Absent => ArgumentsModel::Absent,
        PathArguments::AngleBracketed(args) => ArgumentsModel::AngleBracketed(
            generic_arguments_model(args@),
        ),
        PathArguments::Parenthesized { inputs, output } => ArgumentsModel::Parenthesized {
            inputs: types_model(inputs@),
            output: output_model(output),
        },
    }
}

pub open spec fn generic_argument_model(arg: GenericArgument) -> GenericArgumentModel
    decreases arg,
{
    match arg {
        GenericArgument::Type(ty) => GenericArgumentModel::Type(type_model(ty)),
        GenericArgument::Lifetime(lifetime) => GenericArgumentModel::Lifetime(lifetime@),
    }
}

pub open spec fn generic_arguments_model(args: Seq<GenericArgument>) -> Seq<GenericArgumentModel>
    decreases args,
{
    Seq::new(
        args.len(),
        |i: int|
            if 0 <= i < args.len() {
                generic_argument_model(args[i])
            } else {
                arbitrary()
            },
    )
}

/// What a constraint is.
pub open spec fn constraint_model(constraint: GenericConstraint) -> ConstraintModel
    decreases constraint,
{
    match constraint {
        GenericConstraint::Type(predicate) => ConstraintModel::Type {
            bounded: type_model(predicate.bounded),
            bounds: bounds_model(predicate.bounds@),
        },
        GenericConstraint::Lifetime(def) => ConstraintModel::Lifetime {
            lifetime: def.lifetime@,
            outlived: lifetimes_model(def.bounds@),
        },
    }
}

pub open spec fn constraints_model(constraints: Seq<GenericConstraint>) -> Seq<ConstraintModel>
    decreases constraints,
{
    Seq::new(
        constraints.len(),
        |i: int|
            if 0 <= i < constraints.len() {
                constraint_model(constraints[i])
            } else {
                arbitrary()
            },
    )
}

/// What the generics of a declaration are.
pub open spec fn generics_model(generics: Generics) -> GenericsModel
    decreases generics,
{
    GenericsModel {
        params: params_model(generics.params@),
        constraints: constraints_model(generics.constraints@),
    }
}

pub open spec fn field_model(field: Field<Type>) -> FieldModel
    decreases field,
{
    FieldModel { accessor: field.accessor@, element: type_model(field.element) }
}

pub open spec fn field_seq_model(fields: Seq<Field<Type>>) -> Seq<FieldModel>
    decreases fields,
{
    Seq::new(
        fields.len(),
        |i: int|
            if 0 <= i < fields.len() {
                field_model(fields[i])
            } else {
                arbitrary()
            },
    )
}

pub open spec fn fields_model(fields: Fields<Type>) -> FieldsModel
    decreases fields,
{
    match fields {
        Fields::Unit => FieldsModel::Unit,
        Fields::Tuple(fields) => FieldsModel::Tuple(field_seq_model(fields@)),
        Fields::Named(fields) => FieldsModel::Named(field_seq_model(fields@)),
    }
}

pub open spec fn variant_model(variant: Variant<Type>) -> VariantModel
    decreases variant,
{
    VariantModel { ident: variant.ident@, fields: fields_model(variant.fields) }
}

pub open spec fn variants_model(variants: Seq<Variant<Type>>) -> Seq<VariantModel>
    decreases variants,
{
    Seq::new(
        variants.len(),
        |i: int|
            if 0 <= i < variants.len() {
                variant_model(variants[i])
            } else {
                arbitrary()
            },
    )
}

/// What the fields of a data structure are.
pub open spec fn data_model(data: Data<Type>) -> DataModel
    decreases data,
{
    match data {
        Data::Struct(fields) => DataModel::Struct(fields_model(fields)),
        Data::Enum(variants) => DataModel::Enum(variants_model(variants@)),
    }
}

impl View for Type {
    type V = TypeModel;

    open spec fn view(&self) -> TypeModel {
        type_model(*self)
    }
}

impl View for TypeNode {
    type V = TypeModel;

    open spec fn view(&self) -> TypeModel {
        node_model(*self)
    }
}

impl View for TypeParamBound {
    type V = BoundModel;

    open spec fn view(&self) -> BoundModel {
        bound_model(*self)
    }
}

impl View for Path {
    type V = PathModel;

    open spec fn view(&self) -> PathModel {
        path_model(*self)
    }
}

impl View for GenericConstraint {
    type V = ConstraintModel;

    open spec fn view(&self) -> ConstraintModel {
        constraint_model(*self)
    }
}

impl View for Generics {
    type V = GenericsModel;

    open spec fn view(&self) -> GenericsModel {
        generics_model(*self)
    }
}

impl View for Data<Type> {
    type V = DataModel;

    open spec fn view(&self) -> DataModel {
        data_model(*self)
    }
}

} // verus!
