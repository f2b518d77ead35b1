use crate::ident::Ident;
use crate::model::AccessorModel;
use vstd::prelude::*;

verus! {

/// How a field is reached: by its name, or by its position.
#[derive(Debug, PartialEq, Eq)]
pub enum Accessor {
    Name(Ident),
    Index(usize),
}

impl View for Accessor {
    type V = AccessorModel;

    open spec fn view(&self) -> AccessorModel {
        match *self {
            Accessor::Name(ident) => AccessorModel::Name(ident@),
            Accessor::Index(index) => AccessorModel::Index(index as int),
        }
    }
}

impl Clone for Accessor {
    fn clone(&self) -> (copy: Accessor)
        ensures
            copy@ == self@,
    {
        match self {
            Accessor::Name(ident) => Accessor::Name(ident.clone()),
            Accessor::Index(index) => Accessor::Index(*index),
        }
    }
}

/// One field of a struct or of a variant, with what it holds.
#[derive(Debug, PartialEq, Eq)]
pub struct Field<T> {
    pub accessor: Accessor,
    pub element: T,
}

/// The fields of a struct or of a variant.
#[derive(Debug, PartialEq, Eq)]
pub enum Fields<T> {
    Unit,
    Tuple(Vec<Field<T>>),
    Named(Vec<Field<T>>),
}

/// One variant of an enum.
#[derive(Debug, PartialEq, Eq)]
pub struct Variant<T> {
    pub ident: Ident,
    pub fields: Fields<T>,
}

/// The fields of a data structure.
#[derive(Debug, PartialEq, Eq)]
pub enum Data<T> {
    Struct(Fields<T>),
    Enum(Vec<Variant<T>>),
}

} // verus!
