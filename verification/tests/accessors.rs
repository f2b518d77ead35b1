use type_model::{
    Accessor, Data, Field, Fields, Function, GenericParam, Generics, Ident, Lifetime, Receiver,
    Signature, Type, TypeError, TypeNode, TypeParam, Variant,
};

fn ident(name: &str) -> Ident {
    Ident::new(name)
}

fn lifetime(name: &str) -> Lifetime {
    Lifetime { ident: ident(name) }
}

fn type_param(name: &str) -> Type {
    Type(TypeNode::TypeParam(TypeParam { ident: ident(name) }))
}

fn named(name: &str, element: Type) -> Field<Type> {
    Field { accessor: Accessor::Name(ident(name)), element }
}

fn indexed(index: usize, element: Type) -> Field<Type> {
    Field { accessor: Accessor::Index(index), element }
}

fn structure(data: Data<Type>) -> Type {
    Type(TypeNode::DataStructure {
        name: ident("Shape"),
        generics: Generics {
            params: vec![GenericParam::Type(TypeParam { ident: ident("T") })],
            constraints: vec![],
        },
        data,
    })
}

fn pair() -> Data<Type> {
    Data::Struct(Fields::Named(vec![
        named("first", type_param("T")),
        named("second", Type::primitive_str().reference()),
    ]))
}

fn choice() -> Data<Type> {
    Data::Enum(vec![
        Variant { ident: ident("Empty"), fields: Fields::Unit },
        Variant { ident: ident("One"), fields: Fields::Tuple(vec![indexed(0, type_param("T"))]) },
        Variant {
            ident: ident("Two"),
            fields: Fields::Named(vec![named("a", Type::unit()), named("b", Type::primitive_str())]),
        },
    ])
}

fn borrowed(lifetime: Option<Lifetime>, inner: Type) -> Type {
    Type(TypeNode::Reference { lifetime, inner: Box::new(inner.0) })
}

fn borrowed_mut(lifetime: Option<Lifetime>, inner: Type) -> Type {
    Type(TypeNode::ReferenceMut { lifetime, inner: Box::new(inner.0) })
}

#[test]
fn unit_is_the_empty_tuple() {
    assert_eq!(Type::unit(), Type(TypeNode::Tuple(vec![])));
    assert_eq!(Type::unit(), Type::tuple(&[]));
}

#[test]
fn tuple_keeps_its_elements_whatever_their_number() {
    assert_eq!(
        Type::tuple(&[Type::primitive_str()]),
        Type(TypeNode::Tuple(vec![Type::primitive_str()]))
    );
    assert_eq!(
        Type::tuple(&[type_param("T"), Type::unit(), type_param("T")]),
        Type(TypeNode::Tuple(vec![type_param("T"), Type(TypeNode::Tuple(vec![])), type_param("T")]))
    );
}

#[test]
fn primitive_str_is_the_string_slice() {
    assert_eq!(Type::primitive_str(), Type(TypeNode::PrimitiveStr));
}

#[test]
fn reference_wraps_without_lifetime() {
    assert_eq!(
        type_param("T").reference(),
        Type(TypeNode::Reference {
            lifetime: None,
            inner: Box::new(TypeNode::TypeParam(TypeParam { ident: ident("T") })),
        })
    );
    assert_eq!(
        type_param("T").reference_mut(),
        Type(TypeNode::ReferenceMut {
            lifetime: None,
            inner: Box::new(TypeNode::TypeParam(TypeParam { ident: ident("T") })),
        })
    );
}

#[test]
fn reference_then_dereference_gives_the_type_back() {
    let types = vec![
        Type::unit(),
        Type::primitive_str(),
        type_param("T"),
        structure(pair()),
        Type::primitive_str().reference(),
        Type::primitive_str().dereference(),
        Type(TypeNode::Infer),
    ];
    for ty in &types {
        assert_eq!(&ty.reference().dereference(), ty);
        assert_eq!(&ty.reference_mut().dereference(), ty);
    }
}

#[test]
fn dereference_drops_the_lifetime() {
    let ty = borrowed(Some(lifetime("a")), Type::primitive_str());
    assert_eq!(ty.dereference(), Type::primitive_str());
    let ty = borrowed_mut(Some(lifetime("a")), type_param("T"));
    assert_eq!(ty.dereference(), type_param("T"));
}

#[test]
fn dereference_strips_one_level_only() {
    let twice = Type::primitive_str().reference().reference();
    assert_eq!(twice.dereference(), Type::primitive_str().reference());
}

#[test]
fn dereference_of_no_reference_is_marked() {
    assert_eq!(
        type_param("T").dereference(),
        Type(TypeNode::Dereference(Box::new(TypeNode::TypeParam(TypeParam { ident: ident("T") }))))
    );
    assert_eq!(
        Type::unit().dereference().dereference(),
        Type(TypeNode::Dereference(Box::new(TypeNode::Dereference(Box::new(TypeNode::Tuple(
            vec![]
        ))))))
    );
}

#[test]
fn get_function_binds_the_type_as_parent() {
    let sig = Signature {
        receiver: Receiver::SelfByReference,
        inputs: vec![type_param("T")],
        output: Type::unit(),
    };
    let function = Type::primitive_str().get_function("len", sig);
    assert_eq!(
        function,
        Function {
            parent: Some(Type::primitive_str()),
            name: String::from("len"),
            sig: Signature {
                receiver: Receiver::SelfByReference,
                inputs: vec![type_param("T")],
                output: Type::unit(),
            },
        }
    );
}

#[test]
fn data_of_a_structure_is_its_fields() {
    assert_eq!(structure(pair()).data(), Ok(pair()));
    assert_eq!(structure(choice()).data(), Ok(choice()));
    assert_eq!(structure(Data::Struct(Fields::Unit)).data(), Ok(Data::Struct(Fields::Unit)));
}

#[test]
fn data_behind_a_reference_borrows_each_field() {
    let ty = borrowed(Some(lifetime("a")), structure(pair()));
    assert_eq!(
        ty.data(),
        Ok(Data::Struct(Fields::Named(vec![
            named("first", borrowed(Some(lifetime("a")), type_param("T"))),
            named("second", borrowed(Some(lifetime("a")), Type::primitive_str().reference())),
        ])))
    );
    assert_eq!(
        structure(pair()).reference().data(),
        Ok(Data::Struct(Fields::Named(vec![
            named("first", type_param("T").reference()),
            named("second", Type::primitive_str().reference().reference()),
        ])))
    );
}

#[test]
fn data_behind_a_mutable_reference_borrows_each_field_mutably() {
    let ty = borrowed_mut(Some(lifetime("a")), structure(choice()));
    assert_eq!(
        ty.data(),
        Ok(Data::Enum(vec![
            Variant { ident: ident("Empty"), fields: Fields::Unit },
            Variant {
                ident: ident("One"),
                fields: Fields::Tuple(vec![indexed(
                    0,
                    borrowed_mut(Some(lifetime("a")), type_param("T"))
                )]),
            },
            Variant {
                ident: ident("Two"),
                fields: Fields::Named(vec![
                    named("a", borrowed_mut(Some(lifetime("a")), Type::unit())),
                    named("b", borrowed_mut(Some(lifetime("a")), Type::primitive_str())),
                ]),
            },
        ]))
    );
}

#[test]
fn data_behind_several_references_borrows_inside_out() {
    let single =
        Data::Struct(Fields::Tuple(vec![indexed(0, Type::primitive_str())]));
    let ty = borrowed(Some(lifetime("a")), borrowed_mut(None, structure(single)));
    assert_eq!(
        ty.data(),
        Ok(Data::Struct(Fields::Tuple(vec![indexed(
            0,
            borrowed(Some(lifetime("a")), borrowed_mut(None, Type::primitive_str()))
        )])))
    );
}

#[test]
fn data_of_what_has_no_fields_is_refused() {
    assert_eq!(Type::primitive_str().data(), Err(TypeError::PreconditionViolation));
    assert_eq!(Type::unit().data(), Err(TypeError::PreconditionViolation));
    assert_eq!(type_param("T").data(), Err(TypeError::PreconditionViolation));
    assert_eq!(Type(TypeNode::Infer).data(), Err(TypeError::PreconditionViolation));
    assert_eq!(Type(TypeNode::TraitObject(vec![])).data(), Err(TypeError::PreconditionViolation));
    assert_eq!(Type::primitive_str().reference().data(), Err(TypeError::PreconditionViolation));
    assert_eq!(structure(pair()).dereference().data(), Err(TypeError::PreconditionViolation));
}

#[test]
fn get_tuple_type_gives_the_element() {
    let ty = Type::tuple(&[type_param("T"), Type::primitive_str(), Type::unit()]);
    assert_eq!(ty.get_tuple_type(0), Ok(type_param("T")));
    assert_eq!(ty.get_tuple_type(1), Ok(Type::primitive_str()));
    assert_eq!(ty.get_tuple_type(2), Ok(Type::unit()));
}

#[test]
fn get_tuple_type_refuses_an_index_out_of_range() {
    let ty = Type::tuple(&[type_param("T"), Type::primitive_str()]);
    assert_eq!(ty.get_tuple_type(2), Err(TypeError::PreconditionViolation));
    assert_eq!(ty.get_tuple_type(usize::MAX), Err(TypeError::PreconditionViolation));
    assert_eq!(Type::unit().get_tuple_type(0), Err(TypeError::PreconditionViolation));
}

#[test]
fn get_tuple_type_refuses_what_is_no_tuple() {
    assert_eq!(Type::primitive_str().get_tuple_type(0), Err(TypeError::PreconditionViolation));
    assert_eq!(
        Type::tuple(&[Type::unit()]).reference().get_tuple_type(0),
        Err(TypeError::PreconditionViolation)
    );
}

#[test]
fn errors_are_told_apart() {
    assert_ne!(TypeError::PreconditionViolation, TypeError::Unsupported);
    assert_eq!(TypeError::PreconditionViolation.message(), "invalid use");
    assert_eq!(TypeError::Unsupported.message(), "not yet implemented");
}

#[test]
fn clones_are_equal_to_what_they_were_made_from() {
    let ty = Type::tuple(&[structure(choice()).reference(), type_param("T")]);
    assert_eq!(ty.clone(), ty);
    assert_eq!(choice().clone(), choice());
}
