//! What holds of lowering, of the accessors and of synthesis, for all inputs.

use crate::lower::{
    binds_type, lower_argument_seq, lower_arguments, lower_bound, lower_bounds, lower_path,
    lower_type, lower_types,
};
use crate::model::{
    ArgumentsModel, BoundModel, ConstraintModel, FieldsModel, GenericArgumentModel,
    GenericParamModel, PathModel, SegmentModel, TypeModel,
};
use crate::print::{
    argument_parts, bound_parts, bound_tokens, path_tokens, segment_parts, segment_tokens,
    type_parts, type_tokens,
};
use crate::seqs::{concat, join, sequence};
use crate::syntax::{ArgumentExpr, ArgumentsExpr, BoundExpr, PathExpr, TypeExpr};
use crate::synth::{
    generic_constraints, generic_params, name_options, name_tokens, params_of,
};
use crate::token::TokenModel;
use vstd::prelude::*;

verus! {

/// An empty pair of parentheses lowers to the unit type, with or without a
/// trailing separator and whatever is in scope.
pub proof fn law_unit_collapse(expr: TypeExpr, params: Seq<GenericParamModel>)
    requires
        expr matches TypeExpr::Tuple { elems, .. } && elems@.len() == 0,
    ensures
        lower_type(expr, params) == Some(TypeModel::unit()),
        lower_type(expr, params) == Some(TypeModel::Tuple(Seq::empty())),
{
}

/// Parentheses around one element without a trailing separator only group:
/// the expression lowers to what the element lowers to.
pub proof fn law_parentheses_group(expr: TypeExpr, params: Seq<GenericParamModel>)
    requires
        expr matches TypeExpr::Tuple { elems, trailing } && elems@.len() == 1 && !trailing,
    ensures
        expr matches TypeExpr::Tuple { elems, .. } && lower_type(expr, params) == lower_type(
            elems@[0],
            params,
        ),
{
}

/// A tuple of one element comes only from a written tuple with a trailing
/// separator, or from what a single element in parentheses lowers to.
pub proof fn law_one_tuple_is_written(expr: TypeExpr, params: Seq<GenericParamModel>)
    requires
        expr matches TypeExpr::Tuple { elems, .. } && elems@.len() == 1,
        lower_type(expr, params) matches Some(TypeModel::Tuple(types)) && types.len() == 1,
    ensures
        expr matches TypeExpr::Tuple { elems, trailing } && (trailing || lower_type(
            elems@[0],
            params,
        ) == lower_type(expr, params)),
{
}

/// Taking a reference and then dereferencing gives the type back.
pub proof fn law_reference_round_trip(ty: TypeModel)
    ensures
        ty.reference().dereference() == ty,
        ty.reference_mut().dereference() == ty,
{
}

/// Dereferencing drops the lifetime of the borrow: the referent comes back
/// whatever lifetime the borrow had.
pub proof fn law_dereference_drops_lifetime(
    ty: TypeModel,
    lifetime: Option<Seq<char>>,
    mutable: bool,
)
    ensures
        ty.borrowed(lifetime, mutable).dereference() == ty,
{
}

/// A bare identifier that names a generic type parameter in scope lowers to
/// that parameter.
pub proof fn law_type_param_binds(expr: TypeExpr, params: Seq<GenericParamModel>, name: Seq<char>)
    requires
        expr matches TypeExpr::Path { qualified, path } && !qualified && path.ident_of() == Some(
            name,
        ),
        binds_type(params, name),
    ensures
        lower_type(expr, params) == Some(TypeModel::TypeParam(name)),
{
}

/// A generic parameter has an empty name, and depends on itself and on no
/// constraint.
pub proof fn law_type_param_synthesis(name: Seq<char>)
    ensures
        name_tokens(TypeModel::TypeParam(name)) == Some(Seq::<TokenModel>::empty()),
        generic_params(TypeModel::TypeParam(name)) == seq![GenericParamModel::Type(name)],
        generic_constraints(TypeModel::TypeParam(name)) == Seq::<ConstraintModel>::empty(),
{
}

/// Whether `ty` is the parameter `name` under any number of layers, each
/// of them a borrow or a tuple of one element.
pub open spec fn wraps_param(ty: TypeModel, name: Seq<char>) -> bool
    decreases ty,
{
    match ty {
        TypeModel::TypeParam(param) => param == name,
        TypeModel::Reference { inner, .. } => wraps_param(*inner, name),
        TypeModel::ReferenceMut { inner, .. } => wraps_param(*inner, name),
        TypeModel::Tuple(types) => types.len() == 1 && wraps_param(types[0], name),
        _ => false,
    }
}

/// A generic parameter under any number of borrows and tuples of one element
/// still has a name, and the type depends on that one parameter and on no
/// constraint.
pub proof fn law_param_propagates(ty: TypeModel, name: Seq<char>)
    requires
        wraps_param(ty, name),
    ensures
        name_tokens(ty) is Some,
        generic_params(ty) == seq![GenericParamModel::Type(name)],
        generic_constraints(ty) == Seq::<ConstraintModel>::empty(),
    decreases ty,
{
    match ty {
        TypeModel::Reference { inner, .. } => {
            law_param_propagates(*inner, name);
        },
        TypeModel::ReferenceMut { inner, .. } => {
            law_param_propagates(*inner, name);
        },
        TypeModel::Tuple(types) => {
            law_param_propagates(types[0], name);
            assert(sequence(name_options(types)) is Some);
            assert(concat(params_of(types)) =~= generic_params(types[0])) by {
                assert(concat(params_of(types).drop_last()) =~= Seq::empty());
            }
            let constraints = crate::synth::constraints_of(types);
            assert(concat(constraints) =~= generic_constraints(types[0])) by {
                assert(concat(constraints.drop_last()) =~= Seq::empty());
            }
        },
        _ => {},
    }
}

/// In a tuple each of whose elements is a generic parameter under such
/// layers, the parameters come once for each element and in order, also
/// where two elements name the same one.
pub proof fn law_params_per_occurrence(types: Seq<TypeModel>, names: Seq<Seq<char>>)
    requires
        names.len() == types.len(),
        forall|i: int| 0 <= i < types.len() ==> wraps_param(#[trigger] types[i], names[i]),
    ensures
        name_tokens(TypeModel::Tuple(types)) is Some,
        generic_params(TypeModel::Tuple(types)) == Seq::new(
            names.len(),
            |i: int| GenericParamModel::Type(names[i]),
        ),
    decreases types.len(),
{
    let expected = Seq::new(names.len(), |i: int| GenericParamModel::Type(names[i]));
    assert forall|i: int| 0 <= i < types.len() implies (#[trigger] name_options(types)[i])
        is Some by {
        law_param_propagates(types[i], names[i]);
    }
    assert forall|i: int| 0 <= i < types.len() implies #[trigger] params_of(types)[i] == seq![
        expected[i],
    ] by {
        law_param_propagates(types[i], names[i]);
    }
    lemma_concat_singletons(params_of(types), expected);
}

/// Parts of one element each, one after the other, are those elements.
proof fn lemma_concat_singletons<A>(parts: Seq<Seq<A>>, elements: Seq<A>)
    requires
        parts.len() == elements.len(),
        forall|i: int| 0 <= i < parts.len() ==> #[trigger] parts[i] == seq![elements[i]],
    ensures
        concat(parts) == elements,
    decreases parts.len(),
{
    if parts.len() == 0 {
    } else {
        lemma_concat_singletons(parts.drop_last(), elements.drop_last());
    }
}

/// A trait object with exactly one bound is named `dyn` and then the
/// printed form of the bound, whatever the bound holds; with no bound or
/// with several it has no name. It depends on no parameter and on no
/// constraint.
pub proof fn law_trait_object_arity(bounds: Seq<BoundModel>)
    ensures
        bounds.len() == 1 ==> name_tokens(TypeModel::TraitObject(bounds)) == Some(
            seq![TokenModel::Dyn] + bound_tokens(bounds[0]),
        ),
        bounds.len() != 1 ==> name_tokens(TypeModel::TraitObject(bounds)) is None,
        generic_params(TypeModel::TraitObject(bounds)) == Seq::<GenericParamModel>::empty(),
        generic_constraints(TypeModel::TraitObject(bounds)) == Seq::<ConstraintModel>::empty(),
{
}

/// Every path has a name: its printed form, with its arguments in it. It
/// hands up no parameter and no constraint.
pub proof fn law_path_is_named(path: PathModel)
    ensures
        name_tokens(TypeModel::Path(path)) == Some(path_tokens(path)),
        generic_params(TypeModel::Path(path)) == Seq::<GenericParamModel>::empty(),
        generic_constraints(TypeModel::Path(path)) == Seq::<ConstraintModel>::empty(),
{
}

/// What a written path or a written trait object with exactly one bound
/// lowers to always has a name, whatever the arguments hold.
pub proof fn law_lowered_path_or_single_bound_is_named(
    expr: TypeExpr,
    params: Seq<GenericParamModel>,
)
    requires
        lower_type(expr, params) is Some,
        expr is Path || (expr matches TypeExpr::TraitObject { bounds } && bounds@.len() == 1),
    ensures
        name_tokens(lower_type(expr, params).unwrap()) is Some,
{
    match expr {
        TypeExpr::TraitObject { bounds } => {
            assert(lower_bounds(bounds@, params).unwrap().len() == 1);
        },
        _ => {},
    }
}

/// A generic parameter among the arguments of a path is printed by its
/// identifier: `Vec<T>` is printed `Vec`, `<`, `T`, `>`.
pub proof fn law_argument_keeps_param(ident: Seq<char>, param: Seq<char>)
    ensures
        path_tokens(
            PathModel {
                global: false,
                segments: seq![
                    SegmentModel {
                        ident,
                        args: ArgumentsModel::AngleBracketed(
                            seq![GenericArgumentModel::Type(TypeModel::TypeParam(param))],
                        ),
                    },
                ],
            },
        ) == seq![
            TokenModel::Ident(ident),
            TokenModel::Lt,
            TokenModel::Ident(param),
            TokenModel::Gt,
        ],
{
    let arg = GenericArgumentModel::Type(TypeModel::TypeParam(param));
    let segment = SegmentModel { ident, args: ArgumentsModel::AngleBracketed(seq![arg]) };
    let path = PathModel { global: false, segments: seq![segment] };
    assert(join(segment_parts(path.segments), TokenModel::PathSep) == segment_tokens(segment));
}

/// Whether the type is made of tuples and borrows over types that are no
/// generic parameter, no undetermined type, no dereference marker and no
/// trait object with another number of bounds than one.
pub open spec fn holds_no_param(ty: TypeModel) -> bool
    decreases ty,
{
    match ty {
        TypeModel::Tuple(types) => forall|i: int|
            #![trigger types[i]]
            0 <= i < types.len() ==> holds_no_param(types[i]),
        TypeModel::Reference { inner, .. } => holds_no_param(*inner),
        TypeModel::ReferenceMut { inner, .. } => holds_no_param(*inner),
        TypeModel::TraitObject(bounds) => bounds.len() == 1,
        TypeModel::PrimitiveStr => true,
        TypeModel::DataStructure { .. } => true,
        TypeModel::Path(_) => true,
        _ => false,
    }
}

/// Where nothing is handed up or left out, the name of a type is its
/// printed form.
pub proof fn law_name_is_printed_form(ty: TypeModel)
    requires
        holds_no_param(ty),
    ensures
        name_tokens(ty) == Some(type_tokens(ty)),
    decreases ty,
{
    match ty {
        TypeModel::Tuple(types) => {
            assert forall|i: int| 0 <= i < types.len() implies #[trigger] name_options(types)[i]
                == Some(type_parts(types)[i]) by {
                law_name_is_printed_form(types[i]);
            }
            assert(sequence(name_options(types)).unwrap() =~= type_parts(types));
        },
        TypeModel::Reference { inner, .. } => {
            law_name_is_printed_form(*inner);
        },
        TypeModel::ReferenceMut { inner, .. } => {
            law_name_is_printed_form(*inner);
        },
        TypeModel::TraitObject(bounds) => {
            assert(join(bound_parts(bounds), TokenModel::Plus) == bound_tokens(bounds[0]));
        },
        _ => {},
    }
}

/// The fields of a borrowed data structure are the structure's own fields,
/// each borrowed in the same way and for the same lifetime.
pub proof fn law_borrowed_data(ty: TypeModel, lifetime: Option<Seq<char>>, mutable: bool)
    requires
        ty is DataStructure,
    ensures
        ty.borrowed(lifetime, mutable).data() matches Ok(fields) && fields == (ty->data).borrowed(
            lifetime,
            mutable,
        ),
{
    assert(ty.data() matches Ok(data) && data == ty->data);
}

/// Behind any number of borrows the fields take on each borrow in turn, the
/// innermost first; what has no fields has none behind a borrow either.
pub proof fn law_borrow_propagates(ty: TypeModel, lifetime: Option<Seq<char>>, mutable: bool)
    ensures
        ty.data() is Err ==> ty.borrowed(lifetime, mutable).data() == ty.data(),
        ty.data() matches Ok(data) ==> (ty.borrowed(lifetime, mutable).data() matches Ok(fields)
            && fields == data.borrowed(lifetime, mutable)),
{
}

/// Borrowing the fields of a structure keeps their number and how each is
/// reached, and borrows the type of each.
pub proof fn law_borrowed_field(
    fields: FieldsModel,
    lifetime: Option<Seq<char>>,
    mutable: bool,
    i: int,
)
    requires
        0 <= i < fields.fields().len(),
    ensures
        fields.borrowed(lifetime, mutable).fields().len() == fields.fields().len(),
        fields.borrowed(lifetime, mutable).fields()[i].accessor == fields.fields()[i].accessor,
        fields.borrowed(lifetime, mutable).fields()[i].element == fields.fields()[i].element.borrowed(
            lifetime,
            mutable,
        ),
{
}

/// Lowering never gives a type that is not determined, nor a dereference
/// marker.
pub proof fn law_lowering_is_determined(expr: TypeExpr, params: Seq<GenericParamModel>)
    ensures
        !(lower_type(expr, params) matches Some(TypeModel::Infer)),
        !(lower_type(expr, params) matches Some(TypeModel::Dereference(_))),
    decreases expr,
{
    match expr {
        TypeExpr::Tuple { elems, trailing } => {
            if elems@.len() == 1 && !trailing {
                law_lowering_is_determined(elems@[0], params);
            }
        },
        _ => {},
    }
}

/// Whether every generic parameter that occurs in the type, at any depth
/// but for the fields of a data structure, is a type parameter among
/// `params`.
pub open spec fn type_in_scope(ty: TypeModel, params: Seq<GenericParamModel>) -> bool
    decreases ty,
{
    match ty {
        TypeModel::Tuple(types) => forall|i: int|
            #![trigger types[i]]
            0 <= i < types.len() ==> type_in_scope(types[i], params),
        TypeModel::Reference { inner, .. } => type_in_scope(*inner, params),
        TypeModel::ReferenceMut { inner, .. } => type_in_scope(*inner, params),
        TypeModel::Dereference(inner) => type_in_scope(*inner, params),
        TypeModel::TraitObject(bounds) => forall|i: int|
            #![trigger bounds[i]]
            0 <= i < bounds.len() ==> bound_in_scope(bounds[i], params),
        TypeModel::Path(path) => path_in_scope(path, params),
        TypeModel::TypeParam(name) => binds_type(params, name),
        _ => true,
    }
}

pub open spec fn bound_in_scope(bound: BoundModel, params: Seq<GenericParamModel>) -> bool
    decreases bound,
{
    match bound {
        BoundModel::Trait { path, .. } => path_in_scope(path, params),
        BoundModel::Lifetime(_) => true,
    }
}

pub open spec fn path_in_scope(path: PathModel, params: Seq<GenericParamModel>) -> bool
    decreases path,
{
    forall|i: int|
        #![trigger path.segments[i]]
        0 <= i < path.segments.len() ==> arguments_in_scope(path.segments[i].args, params)
}

pub open spec fn arguments_in_scope(args: ArgumentsModel, params: Seq<GenericParamModel>) -> bool
    decreases args,
{
    match args {
        ArgumentsModel::Absent => true,
        ArgumentsModel::AngleBracketed(args) => forall|i: int|
            #![trigger args[i]]
            0 <= i < args.len() ==> (args[i] matches GenericArgumentModel::Type(ty)
                ==> type_in_scope(ty, params)),
        ArgumentsModel::Parenthesized { inputs, output } => {
            &&& forall|i: int|
                #![trigger inputs[i]]
                0 <= i < inputs.len() ==> type_in_scope(inputs[i], params)
            &&& output matches Some(ty) ==> type_in_scope(*ty, params)
        },
    }
}

/// Lowering gives a generic parameter only for a name that is a type
/// parameter in scope: every parameter in a lowered type is one of `params`.
pub proof fn law_lowered_params_in_scope(expr: TypeExpr, params: Seq<GenericParamModel>)
    requires
        lower_type(expr, params) is Some,
    ensures
        type_in_scope(lower_type(expr, params).unwrap(), params),
    decreases expr,
{
    match expr {
        TypeExpr::Path { qualified, path } => {
            if !crate::lower::names_type_param(path, params) {
                lemma_lowered_path_in_scope(path, params);
            }
        },
        TypeExpr::Reference { elem, .. } => {
            law_lowered_params_in_scope(*elem, params);
        },
        TypeExpr::TraitObject { bounds } => {
            let lowered = lower_bounds(bounds@, params).unwrap();
            assert forall|i: int| 0 <= i < lowered.len() implies bound_in_scope(
                #[trigger] lowered[i],
                params,
            ) by {
                lemma_lowered_bound_in_scope(bounds@[i], params);
            }
        },
        TypeExpr::Tuple { elems, trailing } => {
            if elems@.len() == 0 {
            } else if elems@.len() == 1 && !trailing {
                law_lowered_params_in_scope(elems@[0], params);
            } else {
                lemma_lowered_types_in_scope(elems@, params);
            }
        },
        TypeExpr::Other => {},
    }
}

proof fn lemma_lowered_types_in_scope(exprs: Seq<TypeExpr>, params: Seq<GenericParamModel>)
    requires
        lower_types(exprs, params) is Some,
    ensures
        forall|i: int|
            #![trigger lower_types(exprs, params).unwrap()[i]]
            0 <= i < exprs.len() ==> type_in_scope(lower_types(exprs, params).unwrap()[i], params),
    decreases exprs,
{
    let lowered = lower_types(exprs, params).unwrap();
    assert forall|i: int| 0 <= i < exprs.len() implies type_in_scope(
        #[trigger] lowered[i],
        params,
    ) by {
        law_lowered_params_in_scope(exprs[i], params);
    }
}

proof fn lemma_lowered_bound_in_scope(bound: BoundExpr, params: Seq<GenericParamModel>)
    requires
        lower_bound(bound, params) is Some,
    ensures
        bound_in_scope(lower_bound(bound, params).unwrap(), params),
    decreases bound,
{
    match bound {
        BoundExpr::Trait { path, .. } => {
            lemma_lowered_path_in_scope(path, params);
        },
        _ => {},
    }
}

proof fn lemma_lowered_path_in_scope(path: PathExpr, params: Seq<GenericParamModel>)
    requires
        lower_path(path, params) is Some,
    ensures
        path_in_scope(lower_path(path, params).unwrap(), params),
    decreases path,
{
    let lowered = lower_path(path, params).unwrap();
    assert forall|i: int| 0 <= i < lowered.segments.len() implies arguments_in_scope(
        (#[trigger] lowered.segments[i]).args,
        params,
    ) by {
        let segment = path.segments@[i];
        lemma_lowered_arguments_in_scope(segment.arguments, params);
    }
}

proof fn lemma_lowered_arguments_in_scope(args: ArgumentsExpr, params: Seq<GenericParamModel>)
    requires
        lower_arguments(args, params) is Some,
    ensures
        arguments_in_scope(lower_arguments(args, params).unwrap(), params),
    decreases args,
{
    match args {
        ArgumentsExpr::Absent => {},
        ArgumentsExpr::AngleBracketed(list) => {
            let lowered = lower_argument_seq(list@, params).unwrap();
            assert forall|i: int| 0 <= i < lowered.len() implies ((
            #[trigger] lowered[i]) matches GenericArgumentModel::Type(ty) ==> type_in_scope(
                ty,
                params,
            )) by {
                match list@[i] {
                    ArgumentExpr::Type(expr) => {
                        law_lowered_params_in_scope(expr, params);
                    },
                    _ => {},
                }
            }
        },
        ArgumentsExpr::Parenthesized { inputs, output } => {
            lemma_lowered_types_in_scope(inputs@, params);
            match output {
                Some(expr) => {
                    law_lowered_params_in_scope(*expr, params);
                },
                None => {},
            }
        },
    }
}

} // verus!
