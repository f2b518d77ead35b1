//! Types and their parts as mathematical values, and the operations on types
//! stated over them.

use crate::error::TypeError;
use vstd::prelude::*;

verus! {

/// What a type is, as a mathematical value.
pub enum TypeModel {
    /// A type that is not determined yet.
    Infer,
    /// A tuple; with no elements, the unit type.
    Tuple(Seq<TypeModel>),
    /// The string slice `str`.
    PrimitiveStr,
    /// A shared borrow.
    Reference { lifetime: Option<Seq<char>>, inner: Box<TypeModel> },
    /// An exclusive borrow.
    ReferenceMut { lifetime: Option<Seq<char>>, inner: Box<TypeModel> },
    /// One level of reference taken off a type that is no reference.
    Dereference(Box<TypeModel>),
    /// A trait object with its bounds in order.
    TraitObject(Seq<BoundModel>),
    /// A struct or an enum with its own generics and its fields.
    DataStructure { name: Seq<char>, generics: GenericsModel, data: DataModel },
    /// A named type that is no generic parameter in scope.
    Path(PathModel),
    /// A generic parameter of the enclosing declaration.
    TypeParam(Seq<char>),
}

/// A bound: a trait, with the lifetimes that it binds, or a lifetime.
pub enum BoundModel {
    Trait { lifetimes: Seq<Seq<char>>, path: PathModel },
    Lifetime(Seq<char>),
}

/// A path: its segments, after a leading `::` where it is global.
pub struct PathModel {
    pub global: bool,
    pub segments: Seq<SegmentModel>,
}

pub struct SegmentModel {
    pub ident: Seq<char>,
    pub args: ArgumentsModel,
}

pub enum ArgumentsModel {
    /// A segment without arguments.
    Absent,
    AngleBracketed(Seq<GenericArgumentModel>),
    Parenthesized { inputs: Seq<TypeModel>, output: Option<Box<TypeModel>> },
}

pub enum GenericArgumentModel {
    Type(TypeModel),
    Lifetime(Seq<char>),
}

/// A generic parameter, by its name.
pub enum GenericParamModel {
    Type(Seq<char>),
    Lifetime(Seq<char>),
    Const(Seq<char>),
}

/// A constraint on a type or on a lifetime.
pub enum ConstraintModel {
    Type { bounded: TypeModel, bounds: Seq<BoundModel> },
    Lifetime { lifetime: Seq<char>, outlived: Seq<Seq<char>> },
}

/// The generic parameters of a declaration and the constraints on them.
pub struct GenericsModel {
    pub params: Seq<GenericParamModel>,
    pub constraints: Seq<ConstraintModel>,
}

pub enum AccessorModel {
    Name(Seq<char>),
    Index(int),
}

/// A field: how it is reached, and its type.
pub struct FieldModel {
    pub accessor: AccessorModel,
    pub element: TypeModel,
}

pub enum FieldsModel {
    Unit,
    Tuple(Seq<FieldModel>),
    Named(Seq<FieldModel>),
}

pub struct VariantModel {
    pub ident: Seq<char>,
    pub fields: FieldsModel,
}

/// The fields of a struct, or the variants of an enum with theirs.
pub enum DataModel {
    Struct(FieldsModel),
    Enum(Seq<VariantModel>),
}

impl TypeModel {
    /// The tuple without elements.
    pub open spec fn unit() -> TypeModel {
        TypeModel::Tuple(Seq::empty())
    }

    /// A shared borrow of the type, with no lifetime set.
    pub open spec fn reference(self) -> TypeModel {
        TypeModel::Reference { lifetime: None, inner: Box::new(self) }
    }

    /// An exclusive borrow of the type, with no lifetime set.
    pub open spec fn reference_mut(self) -> TypeModel {
        TypeModel::ReferenceMut { lifetime: None, inner: Box::new(self) }
    }

    /// A borrow of the type: exclusive where `mutable`, shared otherwise.
    pub open spec fn borrowed(self, lifetime: Option<Seq<char>>, mutable: bool) -> TypeModel {
        if mutable {
            TypeModel::ReferenceMut { lifetime, inner: Box::new(self) }
        } else {
            TypeModel::Reference { lifetime, inner: Box::new(self) }
        }
    }

    /// The referent of a borrow, whatever its lifetime; any other type under
    /// a dereference marker.
    pub open spec fn dereference(self) -> TypeModel {
        match self {
            TypeModel::Reference { inner, .. } => *inner,
            TypeModel::ReferenceMut { inner, .. } => *inner,
            other => TypeModel::Dereference(Box::new(other)),
        }
    }
}

impl TypeModel {
    /// The fields of a data structure. Behind a borrow, each field is
    /// borrowed in the same way and for the same lifetime. No other type has
    /// fields.
    pub open spec fn data(self) -> Result<DataModel, TypeError>
        decreases self,
    {
        match self {
            TypeModel::DataStructure { data, .. } => Ok(data),
            TypeModel::Reference { lifetime, inner } => match inner.data() {
                Ok(data) => Ok(data.borrowed(lifetime, false)),
                Err(e) => Err(e),
            },
            TypeModel::ReferenceMut { lifetime, inner } => match inner.data() {
                Ok(data) => Ok(data.borrowed(lifetime, true)),
                Err(e) => Err(e),
            },
            _ => Err(TypeError::PreconditionViolation),
        }
    }

    /// The element of a tuple at `index`.
    pub open spec fn tuple_type(self, index: int) -> Result<TypeModel, TypeError> {
        match self {
            TypeModel::Tuple(types) => if 0 <= index < types.len() {
                Ok(types[index])
            } else {
                Err(TypeError::PreconditionViolation)
            },
            _ => Err(TypeError::PreconditionViolation),
        }
    }
}

impl FieldModel {
    pub open spec fn borrowed(self, lifetime: Option<Seq<char>>, mutable: bool) -> FieldModel {
        FieldModel { accessor: self.accessor, element: self.element.borrowed(lifetime, mutable) }
    }
}

/// The same fields, the type of each borrowed.
pub open spec fn borrowed_fields(
    fields: Seq<FieldModel>,
    lifetime: Option<Seq<char>>,
    mutable: bool,
) -> Seq<FieldModel> {
    Seq::new(fields.len(), |i: int| fields[i].borrowed(lifetime, mutable))
}

impl FieldsModel {
    /// The fields in order; none for a unit.
    pub open spec fn fields(self) -> Seq<FieldModel> {
        match self {
            FieldsModel::Unit => Seq::empty(),
            FieldsModel::Tuple(fields) => fields,
            FieldsModel::Named(fields) => fields,
        }
    }

    pub open spec fn borrowed(self, lifetime: Option<Seq<char>>, mutable: bool) -> FieldsModel {
        match self {
            FieldsModel::Unit => FieldsModel::Unit,
            FieldsModel::Tuple(fields) => FieldsModel::Tuple(
                borrowed_fields(fields, lifetime, mutable),
            ),
            FieldsModel::Named(fields) => FieldsModel::Named(
                borrowed_fields(fields, lifetime, mutable),
            ),
        }
    }
}

impl VariantModel {
    pub open spec fn borrowed(self, lifetime: Option<Seq<char>>, mutable: bool) -> VariantModel {
        VariantModel { ident: self.ident, fields: self.fields.borrowed(lifetime, mutable) }
    }
}

impl DataModel {
    /// The same structure, the type of each field borrowed.
    pub open spec fn borrowed(self, lifetime: Option<Seq<char>>, mutable: bool) -> DataModel {
        match self {
            DataModel::Struct(fields) => DataModel::Struct(fields.borrowed(lifetime, mutable)),
            DataModel::Enum(variants) => DataModel::Enum(
                Seq::new(variants.len(), |i: int| variants[i].borrowed(lifetime, mutable)),
            ),
        }
    }
}

} // verus!
