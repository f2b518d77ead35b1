use crate::clone::{clone_data, clone_node, clone_type};
use crate::data::{Data, Field, Fields, Variant};
use crate::error::TypeError;
use crate::function::{Function, Signature};
use crate::generics::{Generics, TypeParam, TypeParamBound};
use crate::ident::{clone_lifetime, lifetime_model, Ident, Lifetime};
use crate::model::{borrowed_fields, TypeModel};
use crate::path::Path;
use crate::view::{
    field_model, field_seq_model, fields_model, type_model, types_model,
    variant_model, variants_model,
};
use vstd::prelude::*;

verus! {

/// A type. Every operation on it gives a new value.
#[derive(Debug, PartialEq, Eq)]
pub struct Type(pub TypeNode);

/// What a type is made of.
#[derive(Debug, PartialEq, Eq)]
pub enum TypeNode {
    /// A type that is not determined yet.
    Infer,
    /// A tuple; with no elements, the unit type.
    Tuple(Vec<Type>),
    /// The string slice `str`.
    PrimitiveStr,
    /// A shared borrow.
    Reference { lifetime: Option<Lifetime>, inner: Box<TypeNode> },
    /// An exclusive borrow.
    ReferenceMut { lifetime: Option<Lifetime>, inner: Box<TypeNode> },
    /// One level of reference taken off a type that is no reference.
    Dereference(Box<TypeNode>),
    /// A trait object with its bounds in order.
    TraitObject(Vec<TypeParamBound>),
    /// A struct or an enum with its own generics and its fields.
    DataStructure { name: Ident, generics: Generics, data: Data<Type> },
    /// A named type that is no generic parameter in scope.
    Path(Path),
    /// A generic parameter of the enclosing declaration.
    TypeParam(TypeParam),
}

impl Type {
    /// The tuple without elements.
    pub fn unit() -> (ty: Type)
        ensures
            ty@ == TypeModel::unit(),
    {
        let types: Vec<Type> = Vec::new();
        assert(types_model(types@) =~= Seq::empty());
        Type(TypeNode::Tuple(types))
    }

    /// The tuple of the given types, whatever their number.
    pub fn tuple(types: &[Type]) -> (ty: Type)
        ensures
            ty@ == TypeModel::Tuple(types_model(types@)),
    {
        let mut elements: Vec<Type> = Vec::new();
        let mut i: usize = 0;
        while i < types.len()
            invariant
                i <= types.len(),
                elements.len() == i,
                forall|j: int| 0 <= j < i ==> type_model(elements[j]) == type_model(types[j]),
            decreases types.len() - i,
        {
            elements.push(clone_type(&types[i]));
            i += 1;
        }
        assert(types_model(elements@) =~= types_model(types@));
        Type(TypeNode::Tuple(elements))
    }

    /// The string slice `str`.
    pub fn primitive_str() -> (ty: Type)
        ensures
            ty@ == TypeModel::PrimitiveStr,
    {
        Type(TypeNode::PrimitiveStr)
    }

    /// A shared borrow of the type, with no lifetime set.
    pub fn reference(&self) -> (ty: Type)
        ensures
            ty@ == self@.reference(),
    {
        Type(TypeNode::Reference { lifetime: None, inner: Box::new(clone_node(&self.0)) })
    }

    /// An exclusive borrow of the type, with no lifetime set.
    pub fn reference_mut(&self) -> (ty: Type)
        ensures
            ty@ == self@.reference_mut(),
    {
        Type(TypeNode::ReferenceMut { lifetime: None, inner: Box::new(clone_node(&self.0)) })
    }

    /// The referent of a borrow, whatever its lifetime; any other type under
    /// a dereference marker.
    pub fn dereference(&self) -> (ty: Type)
        ensures
            ty@ == self@.dereference(),
    {
        match &self.0 {
            TypeNode::Reference { inner, .. } => Type(clone_node(inner)),
            TypeNode::ReferenceMut { inner, .. } => Type(clone_node(inner)),
            other => Type(TypeNode::Dereference(Box::new(clone_node(other)))),
        }
    }

    /// The function `name` with the signature `sig`, on this type. Whether
    /// the type has such a function is not looked into.
    pub fn get_function(&self, name: &str, sig: Signature) -> (function: Function)
        ensures
            function.parent matches Some(parent) && parent@ == self@,
            function.name@ == name@,
            function.sig == sig,
    {
        Function { parent: Some(clone_type(self)), name: name.to_owned(), sig }
    }

    /// The fields of a data structure. Behind a borrow, each field is
    /// borrowed in the same way and for the same lifetime. Any other type is
    /// refused.
    pub fn data(&self) -> (result: Result<Data<Type>, TypeError>)
        ensures
            match self@.data() {
                Ok(model) => result matches Ok(data) && data@ == model,
                Err(e) => result matches Err(refused) && refused == e,
            },
    {
        self.0.data()
    }

    /// The element of a tuple at `index`. A type that is no tuple is refused,
    /// and so is an index that the tuple does not have.
    pub fn get_tuple_type(&self, index: usize) -> (result: Result<Type, TypeError>)
        ensures
            match self@.tuple_type(index as int) {
                Ok(model) => result matches Ok(ty) && ty@ == model,
                Err(e) => result matches Err(refused) && refused == e,
            },
    {
        match &self.0 {
            TypeNode::Tuple(types) => {
                if index < types.len() {
                    Ok(clone_type(&types[index]))
                } else {
                    Err(TypeError::PreconditionViolation)
                }
            },
            _ => Err(TypeError::PreconditionViolation),
        }
    }
}

impl TypeNode {
    /// The fields of a data structure, borrowed as the structure is.
    pub fn data(&self) -> (result: Result<Data<Type>, TypeError>)
        ensures
            match self@.data() {
                Ok(model) => result matches Ok(data) && data@ == model,
                Err(e) => result matches Err(refused) && refused == e,
            },
        decreases self,
    {
        match self {
            TypeNode::DataStructure { data, .. } => {
                Ok(clone_data(data))
            },
            TypeNode::Reference { lifetime, inner } => match TypeNode::data(inner) {
                Ok(data) => Ok(borrow_data(&data, lifetime, false)),
                Err(e) => Err(e),
            },
            TypeNode::ReferenceMut { lifetime, inner } => match TypeNode::data(inner) {
                Ok(data) => Ok(borrow_data(&data, lifetime, true)),
                Err(e) => Err(e),
            },
            _ => Err(TypeError::PreconditionViolation),
        }
    }
}

/// A borrow of `ty`: exclusive where `mutable`, shared otherwise.
fn borrow_type(ty: &Type, lifetime: &Option<Lifetime>, mutable: bool) -> (borrowed: Type)
    ensures
        borrowed@ == ty@.borrowed(lifetime_model(*lifetime), mutable),
{
    let inner = Box::new(clone_node(&ty.0));
    let lifetime = clone_lifetime(lifetime);
    if mutable {
        Type(TypeNode::ReferenceMut { lifetime, inner })
    } else {
        Type(TypeNode::Reference { lifetime, inner })
    }
}

fn borrow_field_seq(fields: &Vec<Field<Type>>, lifetime: &Option<Lifetime>, mutable: bool) -> (
    borrowed: Vec<Field<Type>>)
    ensures
        field_seq_model(borrowed@) == borrowed_fields(
            field_seq_model(fields@),
            lifetime_model(*lifetime),
            mutable,
        ),
{
    let mut borrowed: Vec<Field<Type>> = Vec::new();
    let mut i: usize = 0;
    while i < fields.len()
        invariant
            i <= fields.len(),
            borrowed.len() == i,
            forall|j: int|
                0 <= j < i ==> field_model(borrowed[j]) == field_model(fields[j]).borrowed(
                    lifetime_model(*lifetime),
                    mutable,
                ),
        decreases fields.len() - i,
    {
        let field = &fields[i];
        borrowed.push(
            Field {
                accessor: field.accessor.clone(),
                element: borrow_type(&field.element, lifetime, mutable),
            },
        );
        i += 1;
    }
    borrowed
}

fn borrow_fields(fields: &Fields<Type>, lifetime: &Option<Lifetime>, mutable: bool) -> (borrowed:
    Fields<Type>)
    ensures
        fields_model(borrowed) == fields_model(*fields).borrowed(
            lifetime_model(*lifetime),
            mutable,
        ),
{
    match fields {
        Fields::Unit => Fields::Unit,
        Fields::Tuple(fields) => Fields::Tuple(borrow_field_seq(fields, lifetime, mutable)),
        Fields::Named(fields) => Fields::Named(borrow_field_seq(fields, lifetime, mutable)),
    }
}

/// The same structure, the type of each field borrowed.
fn borrow_data(data: &Data<Type>, lifetime: &Option<Lifetime>, mutable: bool) -> (borrowed: Data<
    Type,
>)
    ensures
        borrowed@ == data@.borrowed(lifetime_model(*lifetime), mutable),
{
    match data {
        Data::Struct(fields) => Data::Struct(borrow_fields(fields, lifetime, mutable)),
        Data::Enum(variants) => {
            let mut borrowed: Vec<Variant<Type>> = Vec::new();
            let mut i: usize = 0;
            while i < variants.len()
                invariant
                    i <= variants.len(),
                    borrowed.len() == i,
                    forall|j: int|
                        0 <= j < i ==> variant_model(borrowed[j]) == variant_model(
                            variants[j],
                        ).borrowed(lifetime_model(*lifetime), mutable),
                decreases variants.len() - i,
            {
                let variant = &variants[i];
                borrowed.push(
                    Variant {
                        ident: variant.ident.clone(),
                        fields: borrow_fields(&variant.fields, lifetime, mutable),
                    },
                );
                i += 1;
            }
            assert(variants_model(borrowed@) =~= Seq::new(
                variants_model(variants@).len(),
                |i: int|
                    variants_model(variants@)[i].borrowed(lifetime_model(*lifetime), mutable),
            ));
            Data::Enum(borrowed)
        },
    }
}

} // verus!
