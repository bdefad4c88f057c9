use strict_builder::annotation::{parse_each, trim_quotes};
use strict_builder::collect::{combine_errors, extract_fields, parse_fields};
use strict_builder::decl::{
    Annotation, AnnotationArgs, DeclBody, FieldDescriptor, GenericArgument, PathArguments,
    PathSegment, Token, TypeDeclaration, TypeExpr, TypeShape,
};
use strict_builder::diag::{Diagnostic, ErrorKind, FieldError, Part};
use strict_builder::field::{parse_field, Field};
use strict_builder::shape::extract_wrapped_type;

fn s(text: &str) -> String {
    text.to_string()
}

fn list(tokens: Vec<Token>) -> Annotation {
    Annotation { leading_colon: false, path: vec![s("builder")], args: AnnotationArgs::List { tokens } }
}

fn record(fields: Vec<FieldDescriptor>) -> TypeDeclaration {
    TypeDeclaration { name: s("Player"), body: DeclBody::Record { fields } }
}

fn annotated(name: &str, ty: TypeExpr, annotation: Annotation) -> FieldDescriptor {
    FieldDescriptor { name: Some(s(name)), ty, annotations: vec![annotation] }
}

#[test]
fn wrapper_with_one_type_argument_matches() {
    let ty = TypeExpr::wrapper("Option", TypeExpr::plain("u8"));
    let inner = extract_wrapped_type(&ty, "Option");
    assert_eq!(inner, Some(&TypeExpr::plain("u8")));
    assert_eq!(ty.text, "Option<u8>");
}

#[test]
fn wrapper_of_other_name_does_not_match() {
    let ty = TypeExpr::wrapper("Option", TypeExpr::plain("u8"));
    assert_eq!(extract_wrapped_type(&ty, "Vec"), None);
}

#[test]
fn nested_wrapper_hands_out_the_whole_inner_type() {
    let inner = TypeExpr::wrapper("Vec", TypeExpr::plain("String"));
    let ty = TypeExpr::wrapper("Option", TypeExpr::wrapper("Vec", TypeExpr::plain("String")));
    assert_eq!(extract_wrapped_type(&ty, "Option"), Some(&inner));
    assert_eq!(ty.text, "Option<Vec<String>>");
}

#[test]
fn plain_type_does_not_match() {
    assert_eq!(extract_wrapped_type(&TypeExpr::plain("Vec"), "Vec"), None);
}

#[test]
fn two_arguments_do_not_match() {
    let ty = TypeExpr {
        text: s("Vec<u8, u8>"),
        shape: TypeShape::Path {
            qualified: false,
            segments: vec![PathSegment {
                ident: s("Vec"),
                arguments: PathArguments::AngleBracketed {
                    args: vec![
                        GenericArgument::Type(TypeExpr::plain("u8")),
                        GenericArgument::Type(TypeExpr::plain("u8")),
                    ],
                },
            }],
        },
    };
    assert_eq!(extract_wrapped_type(&ty, "Vec"), None);
}

#[test]
fn argument_that_is_no_type_does_not_match() {
    let ty = TypeExpr {
        text: s("Vec<'a>"),
        shape: TypeShape::Path {
            qualified: false,
            segments: vec![PathSegment {
                ident: s("Vec"),
                arguments: PathArguments::AngleBracketed { args: vec![GenericArgument::Other] },
            }],
        },
    };
    assert_eq!(extract_wrapped_type(&ty, "Vec"), None);
}

#[test]
fn only_the_first_segment_is_compared() {
    let ty = TypeExpr {
        text: s("std::vec::Vec<u8>"),
        shape: TypeShape::Path {
            qualified: false,
            segments: vec![
                PathSegment { ident: s("std"), arguments: PathArguments::Absent },
                PathSegment { ident: s("vec"), arguments: PathArguments::Absent },
                PathSegment {
                    ident: s("Vec"),
                    arguments: PathArguments::AngleBracketed {
                        args: vec![GenericArgument::Type(TypeExpr::plain("u8"))],
                    },
                },
            ],
        },
    };
    assert_eq!(extract_wrapped_type(&ty, "Vec"), None);
    assert_eq!(extract_wrapped_type(&ty, "std"), None);
}

#[test]
fn other_shapes_do_not_match() {
    let reference = TypeExpr { text: s("&str"), shape: TypeShape::Other };
    assert_eq!(extract_wrapped_type(&reference, "Vec"), None);
    let qualified = TypeExpr {
        text: s("<Vec<u8> as IntoIterator>::Item"),
        shape: TypeShape::Path {
            qualified: true,
            segments: vec![PathSegment {
                ident: s("Vec"),
                arguments: PathArguments::AngleBracketed {
                    args: vec![GenericArgument::Type(TypeExpr::plain("u8"))],
                },
            }],
        },
    };
    assert_eq!(extract_wrapped_type(&qualified, "Vec"), None);
    let empty = TypeExpr {
        text: s(""),
        shape: TypeShape::Path { qualified: false, segments: vec![] },
    };
    assert_eq!(extract_wrapped_type(&empty, "Vec"), None);
    let parenthesized = TypeExpr {
        text: s("Fn(u8)"),
        shape: TypeShape::Path {
            qualified: false,
            segments: vec![PathSegment { ident: s("Fn"), arguments: PathArguments::Parenthesized }],
        },
    };
    assert_eq!(extract_wrapped_type(&parenthesized, "Fn"), None);
}

#[test]
fn quotes_are_stripped_at_both_ends() {
    assert_eq!(trim_quotes("\"friend\""), "friend");
    assert_eq!(trim_quotes("friend"), "friend");
    assert_eq!(trim_quotes("\"\"a\"b\"\"\""), "a\"b");
    assert_eq!(trim_quotes("\"\""), "");
    assert_eq!(trim_quotes("\""), "");
    assert_eq!(trim_quotes(""), "");
    assert_eq!(trim_quotes("\"\u{e9}t\u{e9}\""), "\u{e9}t\u{e9}");
}

#[test]
fn no_annotation_names_no_element_method() {
    assert_eq!(parse_each(&vec![]), Ok(None));
}

#[test]
fn each_annotation_names_the_element_method() {
    assert_eq!(parse_each(&vec![Annotation::each("friend")]), Ok(Some(s("friend"))));
}

#[test]
fn annotation_of_other_path_is_a_fault() {
    let other = Annotation {
        leading_colon: false,
        path: vec![s("serde")],
        args: AnnotationArgs::List {
            tokens: vec![Token::Ident(s("each")), Token::Punct('='), Token::Literal(s("\"x\""))],
        },
    };
    let expected = FieldError {
        kind: ErrorKind::Annotation,
        part: Part::Attribute,
        message: s("expected #[builder(...)] attribute"),
    };
    assert_eq!(parse_each(&vec![other]), Err(expected));
    let long = Annotation {
        leading_colon: false,
        path: vec![s("builder"), s("each")],
        args: AnnotationArgs::Absent,
    };
    assert_eq!(parse_each(&vec![long]).unwrap_err().part, Part::Attribute);
    let rooted = Annotation {
        leading_colon: true,
        path: vec![s("builder")],
        args: AnnotationArgs::List { tokens: vec![] },
    };
    assert_eq!(parse_each(&vec![rooted]).unwrap_err().part, Part::Attribute);
}

#[test]
fn builder_without_argument_list_is_a_fault() {
    let expected = FieldError {
        kind: ErrorKind::Annotation,
        part: Part::Arguments,
        message: s("expected #[builder(...)] attribute"),
    };
    let bare = Annotation { leading_colon: false, path: vec![s("builder")], args: AnnotationArgs::Absent };
    assert_eq!(parse_each(&vec![bare]), Err(expected));
    let valued =
        Annotation { leading_colon: false, path: vec![s("builder")], args: AnnotationArgs::NameValue };
    assert_eq!(parse_each(&vec![valued]).unwrap_err().message, "expected #[builder(...)] attribute");
}

#[test]
fn each_of_the_three_tokens_is_checked() {
    let expected = FieldError {
        kind: ErrorKind::Annotation,
        part: Part::Arguments,
        message: s("expected builder(each = \"...\")"),
    };
    let lit = || Token::Literal(s("\"x\""));
    let cases = vec![
        vec![],
        vec![Token::Ident(s("each"))],
        vec![Token::Ident(s("each")), Token::Punct('=')],
        vec![Token::Ident(s("eac")), Token::Punct('='), lit()],
        vec![Token::Punct('='), Token::Punct('='), lit()],
        vec![Token::Ident(s("each")), Token::Punct(':'), lit()],
        vec![Token::Ident(s("each")), Token::Ident(s("each")), lit()],
        vec![Token::Ident(s("each")), Token::Punct('='), Token::Ident(s("x"))],
        vec![Token::Ident(s("each")), Token::Punct('='), Token::Group],
        vec![Token::Ident(s("each")), Token::Punct('='), Token::Literal(s("5"))],
        vec![Token::Ident(s("each")), Token::Punct('='), Token::Literal(s("\""))],
    ];
    for tokens in cases {
        assert_eq!(parse_each(&vec![list(tokens)]), Err(expected.duplicate()));
    }
}

#[test]
fn tokens_after_the_literal_are_ignored() {
    let tokens = vec![
        Token::Ident(s("each")),
        Token::Punct('='),
        Token::Literal(s("\"friend\"")),
        Token::Punct(','),
        Token::Ident(s("rest")),
    ];
    assert_eq!(parse_each(&vec![list(tokens)]), Ok(Some(s("friend"))));
}

#[test]
fn annotations_after_the_first_are_ignored() {
    let other = Annotation { leading_colon: false, path: vec![s("doc")], args: AnnotationArgs::NameValue };
    assert_eq!(parse_each(&vec![Annotation::each("friend"), other]), Ok(Some(s("friend"))));
    let other = Annotation { leading_colon: false, path: vec![s("doc")], args: AnnotationArgs::NameValue };
    assert!(parse_each(&vec![other, Annotation::each("friend")]).is_err());
}

#[test]
fn field_without_wrapper_is_required() {
    let f = FieldDescriptor::named("age", TypeExpr::plain("u8"));
    let ty = TypeExpr::plain("u8");
    let name = s("age");
    assert_eq!(parse_field(&f), Ok(Field::Required { ident: &name, ty: &ty }));
    assert_eq!(Field::parse_repeated(&f), Ok(None));
    assert_eq!(Field::parse_optional(&f), Ok(None));
    assert_eq!(Field::parse_required(&f), Ok(Field::Required { ident: &name, ty: &ty }));
}

#[test]
fn sequence_without_annotation_is_required() {
    let f = FieldDescriptor::named("friends", TypeExpr::wrapper("Vec", TypeExpr::plain("String")));
    let ty = TypeExpr::wrapper("Vec", TypeExpr::plain("String"));
    let name = s("friends");
    assert_eq!(parse_field(&f), Ok(Field::Required { ident: &name, ty: &ty }));
}

#[test]
fn option_is_optional() {
    let f = FieldDescriptor::named(
        "siblings",
        TypeExpr::wrapper("Option", TypeExpr::wrapper("Vec", TypeExpr::plain("String"))),
    );
    let inner = TypeExpr::wrapper("Vec", TypeExpr::plain("String"));
    let name = s("siblings");
    assert_eq!(parse_field(&f), Ok(Field::Optional { ident: &name, ty: &inner }));
}

#[test]
fn annotated_sequence_is_repeatable() {
    let f = FieldDescriptor::repeated(
        "friends",
        TypeExpr::wrapper("Vec", TypeExpr::plain("String")),
        "friend",
    );
    let inner = TypeExpr::plain("String");
    let name = s("friends");
    let expected = Field::Repeatable { ident: &name, ty: &inner, each_ident: s("friend") };
    assert_eq!(parse_field(&f), Ok(expected));
    let found = parse_field(&f).unwrap();
    assert_eq!(found.ident(), "friends");
    assert_eq!(found.value_type().text, "String");
}

#[test]
fn each_on_a_type_that_is_no_sequence_is_a_fault() {
    let expected = FieldError {
        kind: ErrorKind::Shape,
        part: Part::Field,
        message: s("expected sequence wrapper for repeated field friends"),
    };
    let plain = FieldDescriptor::repeated("friends", TypeExpr::plain("String"), "friend");
    assert_eq!(parse_field(&plain), Err(expected.duplicate()));
    let option = FieldDescriptor::repeated(
        "friends",
        TypeExpr::wrapper("Option", TypeExpr::plain("String")),
        "friend",
    );
    assert_eq!(parse_field(&option), Err(expected));
}

#[test]
fn malformed_annotation_is_a_fault_whatever_the_type() {
    let f = annotated(
        "friends",
        TypeExpr::wrapper("Option", TypeExpr::plain("String")),
        list(vec![Token::Ident(s("every"))]),
    );
    let error = parse_field(&f).unwrap_err();
    assert_eq!(error.kind, ErrorKind::Annotation);
    assert_eq!(error.message, "expected builder(each = \"...\")");
}

#[test]
fn positional_field_is_a_fault() {
    let f = FieldDescriptor { name: None, ty: TypeExpr::plain("u8"), annotations: vec![] };
    let expected = FieldError {
        kind: ErrorKind::Structure,
        part: Part::Field,
        message: s("Expected named field"),
    };
    assert_eq!(parse_field(&f), Err(expected.duplicate()));
    assert_eq!(Field::parse_repeated(&f), Err(expected.duplicate()));
    assert_eq!(Field::parse_optional(&f), Err(expected.duplicate()));
    assert_eq!(Field::parse_required(&f), Err(expected));
}

#[test]
fn enum_and_union_are_rejected() {
    let e = TypeDeclaration { name: s("E"), body: DeclBody::Enum };
    let expected = Diagnostic {
        field: None,
        error: FieldError {
            kind: ErrorKind::Structure,
            part: Part::Declaration,
            message: s("Expected Struct found Enum"),
        },
    };
    assert_eq!(extract_fields(&e), Err(expected));
    let u = TypeDeclaration { name: s("U"), body: DeclBody::Union };
    let diags = parse_fields(&u).unwrap_err();
    assert_eq!(diags.len(), 1);
    assert_eq!(diags[0].field, None);
    assert_eq!(diags[0].error.message, "Expected Struct found Union");
}

#[test]
fn first_positional_field_ends_extraction() {
    let decl = record(vec![
        FieldDescriptor::repeated("a", TypeExpr::plain("u8"), "x"),
        FieldDescriptor { name: None, ty: TypeExpr::plain("u8"), annotations: vec![] },
        FieldDescriptor { name: None, ty: TypeExpr::plain("u8"), annotations: vec![] },
    ]);
    let diags = parse_fields(&decl).unwrap_err();
    assert_eq!(diags.len(), 1);
    assert_eq!(diags[0].field, Some(1));
    assert_eq!(diags[0].error.kind, ErrorKind::Structure);
    assert_eq!(diags[0].error.message, "Expected named field");
}

#[test]
fn record_hands_out_its_fields() {
    let decl = record(vec![FieldDescriptor::named("age", TypeExpr::plain("u8"))]);
    let fields = extract_fields(&decl).unwrap();
    assert_eq!(fields.len(), 1);
    assert_eq!(fields[0].name, Some(s("age")));
    let empty = record(vec![]);
    assert_eq!(parse_fields(&empty), Ok(vec![]));
}

#[test]
fn two_malformed_fields_give_two_diagnostics() {
    let decl = record(vec![
        FieldDescriptor::named("name", TypeExpr::plain("String")),
        FieldDescriptor::repeated("friends", TypeExpr::plain("String"), "friend"),
        FieldDescriptor::named("age", TypeExpr::plain("u8")),
        annotated(
            "siblings",
            TypeExpr::wrapper("Vec", TypeExpr::plain("String")),
            list(vec![Token::Ident(s("every"))]),
        ),
    ]);
    let diags = parse_fields(&decl).unwrap_err();
    assert_eq!(diags.len(), 2);
    assert_eq!(diags[0].field, Some(1));
    assert_eq!(diags[0].error.kind, ErrorKind::Shape);
    assert_eq!(diags[0].error.message, "expected sequence wrapper for repeated field friends");
    assert_eq!(diags[1].field, Some(3));
    assert_eq!(diags[1].error.kind, ErrorKind::Annotation);
    assert_eq!(diags[1].error.message, "expected builder(each = \"...\")");
}

#[test]
fn faults_are_gathered_with_their_positions() {
    let name = s("a");
    let ty = TypeExpr::plain("u8");
    let fault = |m: &str| FieldError { kind: ErrorKind::Shape, part: Part::Field, message: s(m) };
    let results = vec![
        Err(fault("first")),
        Ok(Field::Required { ident: &name, ty: &ty }),
        Err(fault("second")),
    ];
    let diags = combine_errors(&results).unwrap();
    assert_eq!(
        diags,
        vec![
            Diagnostic { field: Some(0), error: fault("first") },
            Diagnostic { field: Some(2), error: fault("second") },
        ]
    );
    let fine = vec![Ok(Field::Required { ident: &name, ty: &ty })];
    assert_eq!(combine_errors(&fine), None);
    assert_eq!(combine_errors(&vec![]), None);
}

#[test]
fn classifications_keep_declaration_order() {
    let decl = record(vec![
        FieldDescriptor::named("name", TypeExpr::plain("String")),
        FieldDescriptor::repeated(
            "friends",
            TypeExpr::wrapper("Vec", TypeExpr::plain("String")),
            "friend",
        ),
        FieldDescriptor::named("nick", TypeExpr::wrapper("Option", TypeExpr::plain("String"))),
    ]);
    let fields = parse_fields(&decl).unwrap();
    let names: Vec<&str> = fields.iter().map(|f| f.ident().as_str()).collect();
    assert_eq!(names, vec!["name", "friends", "nick"]);
    assert!(matches!(fields[0], Field::Required { .. }));
    assert!(matches!(fields[1], Field::Repeatable { .. }));
    assert!(matches!(fields[2], Field::Optional { .. }));
}
