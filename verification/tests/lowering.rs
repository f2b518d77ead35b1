use type_model::{
    ArgumentExpr, ArgumentsExpr, BoundExpr, ConstParam, GenericArgument, GenericParam, Ident,
    Lifetime, Path, PathArguments, PathExpr, PathSegment, SegmentExpr, Token, TraitBound, Type,
    TypeError, TypeExpr, TypeNode, TypeParam, TypeParamBound,
};

fn ident(name: &str) -> Ident {
    Ident::new(name)
}

fn lifetime(name: &str) -> Lifetime {
    Lifetime { ident: ident(name) }
}

fn segment(name: &str) -> SegmentExpr {
    SegmentExpr { ident: ident(name), arguments: ArgumentsExpr::Absent }
}

fn bare(name: &str) -> TypeExpr {
    TypeExpr::Path {
        qualified: false,
        path: PathExpr { leading_colon: false, segments: vec![segment(name)] },
    }
}

fn type_param(name: &str) -> Type {
    Type(TypeNode::TypeParam(TypeParam { ident: ident(name) }))
}

fn plain_path(name: &str) -> Path {
    Path { global: false, path: vec![PathSegment { ident: ident(name), args: PathArguments::Absent }] }
}

fn scope(names: &[&str]) -> Vec<GenericParam> {
    names.iter().map(|name| GenericParam::Type(TypeParam { ident: ident(name) })).collect()
}

#[test]
fn empty_group_lowers_to_unit() {
    let expr = TypeExpr::Tuple { elems: vec![], trailing: false };
    assert_eq!(Type::syn_to_type(&expr, &[]), Ok(Type::unit()));
    assert_eq!(Type::syn_to_type(&expr, &scope(&["T"])), Ok(Type(TypeNode::Tuple(vec![]))));
}

#[test]
fn empty_group_with_trailing_separator_lowers_to_unit() {
    let expr = TypeExpr::Tuple { elems: vec![], trailing: true };
    assert_eq!(Type::syn_to_type(&expr, &[]), Ok(Type::unit()));
}

#[test]
fn parenthesized_parameter_is_no_tuple() {
    let expr = TypeExpr::Tuple { elems: vec![bare("T")], trailing: false };
    let lowered = Type::syn_to_type(&expr, &scope(&["T"]));
    assert_eq!(lowered, Ok(type_param("T")));
    assert_ne!(lowered, Ok(Type(TypeNode::Tuple(vec![type_param("T")]))));
}

#[test]
fn parentheses_lower_to_what_the_element_lowers_to() {
    let params = scope(&["T"]);
    let element = TypeExpr::Reference { lifetime: None, mutable: true, elem: Box::new(bare("u8")) };
    let direct = Type::syn_to_type(&element, &params);
    let grouped = Type::syn_to_type(
        &TypeExpr::Tuple {
            elems: vec![TypeExpr::Reference {
                lifetime: None,
                mutable: true,
                elem: Box::new(bare("u8")),
            }],
            trailing: false,
        },
        &params,
    );
    assert_eq!(grouped, direct);
    let nested = TypeExpr::Tuple {
        elems: vec![TypeExpr::Tuple { elems: vec![bare("T")], trailing: false }],
        trailing: false,
    };
    assert_eq!(Type::syn_to_type(&nested, &params), Ok(type_param("T")));
}

#[test]
fn single_element_with_trailing_separator_is_a_tuple() {
    let expr = TypeExpr::Tuple { elems: vec![bare("T")], trailing: true };
    assert_eq!(
        Type::syn_to_type(&expr, &scope(&["T"])),
        Ok(Type(TypeNode::Tuple(vec![type_param("T")])))
    );
}

#[test]
fn several_elements_lower_to_a_tuple_in_order() {
    let expr = TypeExpr::Tuple { elems: vec![bare("T"), bare("u8"), bare("U")], trailing: false };
    assert_eq!(
        Type::syn_to_type(&expr, &scope(&["T", "U"])),
        Ok(Type(TypeNode::Tuple(vec![
            type_param("T"),
            Type(TypeNode::Path(plain_path("u8"))),
            type_param("U"),
        ])))
    );
}

#[test]
fn identifier_in_scope_lowers_to_type_param() {
    assert_eq!(Type::syn_to_type(&bare("T"), &scope(&["S", "T"])), Ok(type_param("T")));
}

#[test]
fn identifier_out_of_scope_lowers_to_path() {
    assert_eq!(
        Type::syn_to_type(&bare("T"), &scope(&["U"])),
        Ok(Type(TypeNode::Path(plain_path("T"))))
    );
    assert_eq!(Type::syn_to_type(&bare("T"), &[]), Ok(Type(TypeNode::Path(plain_path("T")))));
}

#[test]
fn lifetime_and_const_parameters_do_not_bind_a_type() {
    let params = vec![
        GenericParam::Lifetime(lifetime("T")),
        GenericParam::Const(ConstParam { ident: ident("T") }),
    ];
    assert_eq!(Type::syn_to_type(&bare("T"), &params), Ok(Type(TypeNode::Path(plain_path("T")))));
}

#[test]
fn longer_path_is_no_type_param() {
    let expr = TypeExpr::Path {
        qualified: false,
        path: PathExpr { leading_colon: false, segments: vec![segment("T"), segment("Item")] },
    };
    let expected = Path {
        global: false,
        path: vec![
            PathSegment { ident: ident("T"), args: PathArguments::Absent },
            PathSegment { ident: ident("Item"), args: PathArguments::Absent },
        ],
    };
    assert_eq!(Type::syn_to_type(&expr, &scope(&["T"])), Ok(Type(TypeNode::Path(expected))));
}

#[test]
fn global_path_is_no_type_param() {
    let expr = TypeExpr::Path {
        qualified: false,
        path: PathExpr { leading_colon: true, segments: vec![segment("T")] },
    };
    let expected =
        Path { global: true, path: vec![PathSegment { ident: ident("T"), args: PathArguments::Absent }] };
    assert_eq!(Type::syn_to_type(&expr, &scope(&["T"])), Ok(Type(TypeNode::Path(expected))));
}

#[test]
fn get_ident_needs_a_single_plain_segment() {
    let plain = PathExpr { leading_colon: false, segments: vec![segment("T")] };
    assert_eq!(plain.get_ident(), Some(&ident("T")));
    let global = PathExpr { leading_colon: true, segments: vec![segment("T")] };
    assert_eq!(global.get_ident(), None);
    let long = PathExpr { leading_colon: false, segments: vec![segment("a"), segment("b")] };
    assert_eq!(long.get_ident(), None);
    let empty = PathExpr { leading_colon: false, segments: vec![] };
    assert_eq!(empty.get_ident(), None);
    let with_arguments = PathExpr {
        leading_colon: false,
        segments: vec![SegmentExpr {
            ident: ident("T"),
            arguments: ArgumentsExpr::AngleBracketed(vec![]),
        }],
    };
    assert_eq!(with_arguments.get_ident(), None);
}

#[test]
fn qualified_path_is_unsupported() {
    let expr = TypeExpr::Path {
        qualified: true,
        path: PathExpr { leading_colon: false, segments: vec![segment("T")] },
    };
    assert_eq!(Type::syn_to_type(&expr, &scope(&["T"])), Err(TypeError::Unsupported));
}

#[test]
fn other_shapes_are_unsupported() {
    assert_eq!(Type::syn_to_type(&TypeExpr::Other, &[]), Err(TypeError::Unsupported));
    let inside = TypeExpr::Tuple { elems: vec![bare("u8"), TypeExpr::Other], trailing: false };
    assert_eq!(Type::syn_to_type(&inside, &[]), Err(TypeError::Unsupported));
    let behind = TypeExpr::Reference { lifetime: None, mutable: false, elem: Box::new(TypeExpr::Other) };
    assert_eq!(Type::syn_to_type(&behind, &[]), Err(TypeError::Unsupported));
}

#[test]
fn reference_with_lifetime_to_parameter() {
    let expr = TypeExpr::Reference {
        lifetime: Some(lifetime("a")),
        mutable: false,
        elem: Box::new(bare("T")),
    };
    assert_eq!(
        Type::syn_to_type(&expr, &scope(&["T"])),
        Ok(Type(TypeNode::Reference {
            lifetime: Some(lifetime("a")),
            inner: Box::new(TypeNode::TypeParam(TypeParam { ident: ident("T") })),
        }))
    );
}

#[test]
fn lowered_reference_to_parameter_is_named_by_marker_and_lifetime() {
    let expr = TypeExpr::Reference {
        lifetime: Some(lifetime("a")),
        mutable: false,
        elem: Box::new(bare("T")),
    };
    let params = scope(&["T"]);
    let lowered = Type::syn_to_type(&expr, &params).unwrap();
    assert_eq!(
        lowered.name_and_generics(),
        Ok((vec![Token::And, Token::Lifetime(lifetime("a"))], scope(&["T"]), vec![]))
    );
}

#[test]
fn mutable_reference_without_lifetime() {
    let expr = TypeExpr::Reference { lifetime: None, mutable: true, elem: Box::new(bare("str")) };
    assert_eq!(
        Type::syn_to_type(&expr, &[]),
        Ok(Type(TypeNode::ReferenceMut {
            lifetime: None,
            inner: Box::new(TypeNode::Path(plain_path("str"))),
        }))
    );
}

#[test]
fn trait_object_keeps_all_bounds_in_order() {
    let expr = TypeExpr::TraitObject {
        bounds: vec![
            BoundExpr::Trait {
                lifetimes: vec![],
                path: PathExpr { leading_colon: false, segments: vec![segment("Trait1")] },
            },
            BoundExpr::Trait {
                lifetimes: vec![],
                path: PathExpr { leading_colon: false, segments: vec![segment("Trait2")] },
            },
        ],
    };
    let lowered = Type::syn_to_type(&expr, &[]);
    assert_eq!(
        lowered,
        Ok(Type(TypeNode::TraitObject(vec![
            TypeParamBound::Trait(TraitBound { lifetimes: vec![], path: plain_path("Trait1") }),
            TypeParamBound::Trait(TraitBound { lifetimes: vec![], path: plain_path("Trait2") }),
        ])))
    );
    assert_eq!(lowered.unwrap().name_and_generics(), Err(TypeError::Unsupported));
}

#[test]
fn bounds_lower_lifetimes_and_binders() {
    let bounds = vec![
        BoundExpr::Lifetime(lifetime("a")),
        BoundExpr::Trait {
            lifetimes: vec![lifetime("b")],
            path: PathExpr { leading_colon: false, segments: vec![segment("Trait")] },
        },
    ];
    assert_eq!(
        type_model::syn_to_type_param_bounds(&bounds, &[]),
        Ok(vec![
            TypeParamBound::Lifetime(lifetime("a")),
            TypeParamBound::Trait(TraitBound {
                lifetimes: vec![lifetime("b")],
                path: plain_path("Trait"),
            }),
        ])
    );
}

#[test]
fn unsupported_bound_is_refused() {
    let bounds = vec![BoundExpr::Lifetime(lifetime("a")), BoundExpr::Other];
    assert_eq!(type_model::syn_to_type_param_bounds(&bounds, &[]), Err(TypeError::Unsupported));
    let expr = TypeExpr::TraitObject { bounds: vec![BoundExpr::Other] };
    assert_eq!(Type::syn_to_type(&expr, &[]), Err(TypeError::Unsupported));
}

#[test]
fn path_arguments_are_lowered_against_the_scope() {
    let expr = TypeExpr::Path {
        qualified: false,
        path: PathExpr {
            leading_colon: true,
            segments: vec![
                segment("std"),
                SegmentExpr {
                    ident: ident("Cow"),
                    arguments: ArgumentsExpr::AngleBracketed(vec![
                        ArgumentExpr::Lifetime(lifetime("a")),
                        ArgumentExpr::Type(bare("T")),
                        ArgumentExpr::Type(bare("U")),
                    ]),
                },
            ],
        },
    };
    let expected = Path {
        global: true,
        path: vec![
            PathSegment { ident: ident("std"), args: PathArguments::Absent },
            PathSegment {
                ident: ident("Cow"),
                args: PathArguments::AngleBracketed(vec![
                    GenericArgument::Lifetime(lifetime("a")),
                    GenericArgument::Type(type_param("T")),
                    GenericArgument::Type(Type(TypeNode::Path(plain_path("U")))),
                ]),
            },
        ],
    };
    assert_eq!(Type::syn_to_type(&expr, &scope(&["T"])), Ok(Type(TypeNode::Path(expected))));
}

#[test]
fn parenthesized_arguments_are_lowered() {
    let path = PathExpr {
        leading_colon: false,
        segments: vec![SegmentExpr {
            ident: ident("Fn"),
            arguments: ArgumentsExpr::Parenthesized {
                inputs: vec![bare("T"), bare("u8")],
                output: Some(Box::new(bare("T"))),
            },
        }],
    };
    let expected = Path {
        global: false,
        path: vec![PathSegment {
            ident: ident("Fn"),
            args: PathArguments::Parenthesized {
                inputs: vec![type_param("T"), Type(TypeNode::Path(plain_path("u8")))],
                output: Some(type_param("T")),
            },
        }],
    };
    assert_eq!(Path::syn_to_path(&path, &scope(&["T"])), Ok(expected));
    let without_output = PathExpr {
        leading_colon: false,
        segments: vec![SegmentExpr {
            ident: ident("Fn"),
            arguments: ArgumentsExpr::Parenthesized { inputs: vec![], output: None },
        }],
    };
    assert_eq!(
        Path::syn_to_path(&without_output, &[]),
        Ok(Path {
            global: false,
            path: vec![PathSegment {
                ident: ident("Fn"),
                args: PathArguments::Parenthesized { inputs: vec![], output: None },
            }],
        })
    );
}

#[test]
fn unsupported_argument_is_refused() {
    let path = PathExpr {
        leading_colon: false,
        segments: vec![SegmentExpr {
            ident: ident("Array"),
            arguments: ArgumentsExpr::AngleBracketed(vec![
                ArgumentExpr::Type(bare("T")),
                ArgumentExpr::Other,
            ]),
        }],
    };
    assert_eq!(Path::syn_to_path(&path, &scope(&["T"])), Err(TypeError::Unsupported));
    let nested = PathExpr {
        leading_colon: false,
        segments: vec![SegmentExpr {
            ident: ident("Vec"),
            arguments: ArgumentsExpr::AngleBracketed(vec![ArgumentExpr::Type(TypeExpr::Other)]),
        }],
    };
    assert_eq!(Path::syn_to_path(&nested, &[]), Err(TypeError::Unsupported));
    let output = PathExpr {
        leading_colon: false,
        segments: vec![SegmentExpr {
            ident: ident("Fn"),
            arguments: ArgumentsExpr::Parenthesized {
                inputs: vec![],
                output: Some(Box::new(TypeExpr::Other)),
            },
        }],
    };
    assert_eq!(Path::syn_to_path(&output, &[]), Err(TypeError::Unsupported));
}

#[test]
fn identifiers_compare_by_text() {
    assert!(ident("T").same(&ident("T")));
    assert!(!ident("T").same(&ident("t")));
    assert!(!ident("T").same(&ident("")));
    assert_eq!(ident("name").clone(), ident("name"));
    assert_eq!(ident("name").name, "name");
}
