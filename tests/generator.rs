use error_handling::declaration::{
    AttrArgs, Attribute, DeclBody, Field, TypeDeclaration, Variant, VariantFields,
};
use error_handling::diagnostic::DiagnosticKind;
use error_handling::emitter::generate_string_from_impls;
use error_handling::validator::{find_from_field, get_stringfrom_context, Annotation};

fn attr(name: &str, args: AttrArgs) -> Attribute {
    Attribute { name: name.to_string(), args }
}

fn stringfrom(tokens: &str) -> Attribute {
    attr("stringfrom", AttrArgs::List(tokens.to_string()))
}

fn field(ty: &str) -> Field {
    Field { ty: ty.to_string(), attrs: vec![] }
}

fn from_field(ty: &str) -> Field {
    Field { ty: ty.to_string(), attrs: vec![attr("from", AttrArgs::Word)] }
}

fn tuple_variant(name: &str, attrs: Vec<Attribute>, fields: Vec<Field>) -> Variant {
    Variant { name: name.to_string(), attrs, fields: VariantFields::Unnamed(fields) }
}

fn enum_decl(name: &str, variants: Vec<Variant>) -> TypeDeclaration {
    TypeDeclaration { name: name.to_string(), body: DeclBody::Enum(variants) }
}

#[test]
fn test_stringfrom_macro_parsing() {
    let parsed = enum_decl(
        "TestError",
        vec![
            tuple_variant(
                "SomeVariant",
                vec![stringfrom("\"some error\"")],
                vec![field("String"), from_field("SomeError")],
            ),
            tuple_variant("RegularVariant", vec![], vec![field("String")]),
        ],
    );
    let result = generate_string_from_impls(&parsed);

    assert!(result.is_ok());
    let generated_str = result.unwrap();

    println!("Generated code: {}", generated_str);

    assert!(generated_str.contains("impl From < SomeError > for TestError"));
    assert!(generated_str.contains("TestError :: SomeVariant"));
}

#[test]
fn test_stringfrom_attribute_parsing() {
    let parsed = enum_decl(
        "TestError",
        vec![tuple_variant(
            "TestVariant",
            vec![stringfrom("\"my custom error\"")],
            vec![field("String"), from_field("MyCustomError")],
        )],
    );
    if let DeclBody::Enum(variants) = &parsed.body {
        let variant = &variants[0];
        let result = get_stringfrom_context(&variant.attrs);

        assert!(result.is_ok());
        let context_opt = result.unwrap();
        assert!(context_opt.is_some());

        if let Some(Annotation::Context(context)) = context_opt {
            assert_eq!(context, "my custom error");
        } else {
            panic!("expected a context annotation");
        }
    }
}

#[test]
fn test_macro_error_handling() {
    let parsed = TypeDeclaration { name: "NotAnEnum".to_string(), body: DeclBody::Struct };
    let result = generate_string_from_impls(&parsed);

    assert!(result.is_err());
    let error = result.unwrap_err();
    assert!(error.to_string().contains("StringFrom can only be derived for enums"));
}

#[test]
fn test_stringfrom_with_from_attribute() {
    let parsed = enum_decl(
        "TestError",
        vec![tuple_variant(
            "MyError",
            vec![stringfrom("\"context for the error\"")],
            vec![field("String"), from_field("SourceError")],
        )],
    );
    let result = generate_string_from_impls(&parsed);

    assert!(result.is_ok());
    let generated_str = result.unwrap();

    println!("Generated code: {}", generated_str);

    assert!(generated_str.contains("impl From < SourceError > for TestError"));
    assert!(generated_str
        .contains("TestError :: MyError (format ! (\"context for the error: {}\" , err) , err)"));
}

#[test]
fn context_mode_emits_whole_impl() {
    let decl = enum_decl(
        "AppError",
        vec![tuple_variant(
            "Wrapped",
            vec![stringfrom("\"use case error\"")],
            vec![field("String"), from_field("InnerError")],
        )],
    );
    assert_eq!(
        generate_string_from_impls(&decl).unwrap(),
        "impl From < InnerError > for AppError { fn from (err : InnerError) -> Self { \
         AppError :: Wrapped (format ! (\"use case error: {}\" , err) , err) } }"
    );
}

#[test]
fn type_mode_stores_text_and_skips_plain_variants() {
    let decl = enum_decl(
        "ApiError",
        vec![
            tuple_variant("BadRequest", vec![], vec![field("String")]),
            tuple_variant("Upstream", vec![stringfrom("UseCaseError")], vec![field("String")]),
        ],
    );
    assert_eq!(
        generate_string_from_impls(&decl).unwrap(),
        "impl From < UseCaseError > for ApiError { fn from (err : UseCaseError) -> Self { \
         ApiError :: Upstream (err . to_string ()) } }"
    );
}

#[test]
fn two_source_fields_are_ambiguous() {
    let decl = enum_decl(
        "AppError",
        vec![tuple_variant(
            "Twice",
            vec![stringfrom("\"ctx\"")],
            vec![from_field("A"), from_field("B")],
        )],
    );
    let err = generate_string_from_impls(&decl).unwrap_err();
    assert_eq!(err.kind, DiagnosticKind::AmbiguousSourceField);
    assert_eq!(err.location, "Twice");
    assert_eq!(err.message, "Only one field can have the `#[from]` attribute.");
}

#[test]
fn no_source_field_is_missing() {
    let decl = enum_decl(
        "AppError",
        vec![tuple_variant("Bare", vec![stringfrom("\"ctx\"")], vec![field("String")])],
    );
    let err = generate_string_from_impls(&decl).unwrap_err();
    assert_eq!(err.kind, DiagnosticKind::MissingSourceField);
    assert_eq!(err.location, "Bare");
    assert_eq!(err.to_string(), "A field with the `#[from]` attribute is required.");
}

#[test]
fn type_mode_needs_a_text_field() {
    let decl = enum_decl(
        "AppError",
        vec![tuple_variant("Code", vec![stringfrom("UseCaseError")], vec![field("u32")])],
    );
    let err = generate_string_from_impls(&decl).unwrap_err();
    assert_eq!(err.kind, DiagnosticKind::WrongFieldType);
    assert_eq!(err.location, "Code");

    let two = enum_decl(
        "AppError",
        vec![tuple_variant(
            "Pair",
            vec![stringfrom("UseCaseError")],
            vec![field("String"), field("String")],
        )],
    );
    assert_eq!(generate_string_from_impls(&two).unwrap_err().kind, DiagnosticKind::WrongFieldType);
}

#[test]
fn type_mode_accepts_full_string_path() {
    let decl = enum_decl(
        "AppError",
        vec![tuple_variant(
            "Upstream",
            vec![stringfrom("Inner")],
            vec![field("std :: string :: String")],
        )],
    );
    assert!(generate_string_from_impls(&decl).is_ok());
}

#[test]
fn malformed_annotation_argument() {
    let decl = enum_decl(
        "AppError",
        vec![tuple_variant("Odd", vec![stringfrom("1 +")], vec![from_field("Inner")])],
    );
    let err = generate_string_from_impls(&decl).unwrap_err();
    assert_eq!(err.kind, DiagnosticKind::MalformedAnnotation);
    assert_eq!(err.location, "Odd");
}

#[test]
fn annotated_struct_like_variant_is_malformed() {
    let decl = enum_decl(
        "AppError",
        vec![
            Variant {
                name: "Named".to_string(),
                attrs: vec![stringfrom("\"ctx\"")],
                fields: VariantFields::Named(vec![from_field("Inner")]),
            },
            Variant {
                name: "Unit".to_string(),
                attrs: vec![stringfrom("\"ctx\"")],
                fields: VariantFields::Unit,
            },
        ],
    );
    let err = generate_string_from_impls(&decl).unwrap_err();
    assert_eq!(err.kind, DiagnosticKind::MalformedAnnotation);
    assert_eq!(err.location, "Named");
    assert_eq!(err.message, "stringfrom with context can only be used with tuple variants");

    let unit = enum_decl(
        "AppError",
        vec![Variant {
            name: "Unit".to_string(),
            attrs: vec![stringfrom("\"ctx\"")],
            fields: VariantFields::Unit,
        }],
    );
    let err = generate_string_from_impls(&unit).unwrap_err();
    assert_eq!(err.location, "Unit");
    assert_eq!(err.message, "stringfrom with context can only be used with tuple variants");
}

#[test]
fn union_is_not_an_enum() {
    let decl = TypeDeclaration { name: "Raw".to_string(), body: DeclBody::Union };
    let err = generate_string_from_impls(&decl).unwrap_err();
    assert_eq!(err.kind, DiagnosticKind::NotAUnion);
    assert_eq!(err.location, "Raw");
}

#[test]
fn empty_enum_and_plain_variants_emit_nothing() {
    assert_eq!(generate_string_from_impls(&enum_decl("E", vec![])).unwrap(), "");
    let plain = enum_decl(
        "E",
        vec![
            tuple_variant("A", vec![], vec![field("String")]),
            Variant { name: "B".to_string(), attrs: vec![], fields: VariantFields::Unit },
        ],
    );
    assert_eq!(generate_string_from_impls(&plain).unwrap(), "");
}

#[test]
fn impls_follow_variant_order() {
    let decl = enum_decl(
        "E",
        vec![
            tuple_variant("First", vec![stringfrom("A")], vec![field("String")]),
            tuple_variant("Plain", vec![], vec![field("String")]),
            tuple_variant("Second", vec![stringfrom("\"b\"")], vec![from_field("B")]),
        ],
    );
    assert_eq!(
        generate_string_from_impls(&decl).unwrap(),
        "impl From < A > for E { fn from (err : A) -> Self { E :: First (err . to_string ()) } } \
         impl From < B > for E { fn from (err : B) -> Self { E :: Second (err) } }"
    );
}

#[test]
fn same_source_type_twice_is_emitted_twice() {
    let decl = enum_decl(
        "E",
        vec![
            tuple_variant("One", vec![stringfrom("A")], vec![field("String")]),
            tuple_variant("Two", vec![stringfrom("A")], vec![field("String")]),
        ],
    );
    let code = generate_string_from_impls(&decl).unwrap();
    assert_eq!(code.matches("impl From < A > for E").count(), 2);
}

#[test]
fn generation_is_repeatable() {
    let decl = enum_decl(
        "AppError",
        vec![
            tuple_variant(
                "Wrapped",
                vec![stringfrom("\"use case error\"")],
                vec![field("String"), from_field("InnerError"), field("String")],
            ),
            tuple_variant("Upstream", vec![stringfrom("Up")], vec![field("String")]),
        ],
    );
    let first = generate_string_from_impls(&decl).unwrap();
    let second = generate_string_from_impls(&decl).unwrap();
    assert_eq!(first, second);
    assert!(first.contains(
        "let text = format ! (\"use case error: {}\" , err) ; \
         AppError :: Wrapped (text . clone () , err , text . clone ())"
    ));
}

#[test]
fn source_field_before_formatted_field_binds_text_first() {
    let decl = enum_decl(
        "E",
        vec![tuple_variant(
            "V",
            vec![stringfrom("\"ctx\"")],
            vec![from_field("T"), field("String")],
        )],
    );
    assert_eq!(
        generate_string_from_impls(&decl).unwrap(),
        "impl From < T > for E { fn from (err : T) -> Self { \
         let text = format ! (\"ctx: {}\" , err) ; E :: V (err , text . clone ()) } }"
    );
}

#[test]
fn braces_in_context_are_taken_literally() {
    let decl = enum_decl(
        "E",
        vec![tuple_variant(
            "V",
            vec![stringfrom("\"a{b}\"")],
            vec![field("String"), from_field("T")],
        )],
    );
    let code = generate_string_from_impls(&decl).unwrap();
    assert!(code.contains("E :: V (format ! (\"a{{b}}: {}\" , err) , err)"));
}

#[test]
fn bare_or_name_value_stringfrom_is_malformed() {
    for args in [AttrArgs::Word, AttrArgs::NameValue("\"x\"".to_string())] {
        let decl = enum_decl(
            "E",
            vec![tuple_variant("V", vec![attr("stringfrom", args)], vec![field("String")])],
        );
        let err = generate_string_from_impls(&decl).unwrap_err();
        assert_eq!(err.kind, DiagnosticKind::MalformedAnnotation);
        assert_eq!(err.location, "V");
        assert_eq!(err.message, "stringfrom expects a string literal or a type in parentheses");
    }
    let attrs = vec![stringfrom("42")];
    assert_eq!(get_stringfrom_context(&attrs).unwrap_err(), DiagnosticKind::MalformedAnnotation);
}

#[test]
fn text_field_type_ignores_spacing() {
    for ty in ["String", "std::string::String", ":: alloc :: string :: String", "alloc::string::String"] {
        let decl = enum_decl(
            "E",
            vec![tuple_variant("V", vec![stringfrom("Inner")], vec![field(ty)])],
        );
        assert!(generate_string_from_impls(&decl).is_ok(), "{}", ty);
    }
}

#[test]
fn context_is_unescaped_then_quoted_again() {
    let decl = enum_decl(
        "E",
        vec![tuple_variant(
            "Quoted",
            vec![stringfrom("\"say \\\"hi\\\"\"")],
            vec![field("String"), from_field("Inner")],
        )],
    );
    let code = generate_string_from_impls(&decl).unwrap();
    assert!(code.contains("format ! (\"say \\\"hi\\\": {}\" , err)"));

    let attrs = vec![stringfrom("\"tab\\there\"")];
    match get_stringfrom_context(&attrs) {
        Ok(Some(Annotation::Context(c))) => assert_eq!(c, "tab\there"),
        other => panic!("unexpected {:?}", other),
    }
}

#[test]
fn source_type_is_kept_as_written() {
    let attrs = vec![stringfrom("std::io::Error")];
    match get_stringfrom_context(&attrs) {
        Ok(Some(Annotation::SourceType(t))) => assert_eq!(t, "std::io::Error"),
        other => panic!("unexpected {:?}", other),
    }
    let generic = vec![stringfrom("Vec<u8>")];
    match get_stringfrom_context(&generic) {
        Ok(Some(Annotation::SourceType(t))) => assert_eq!(t, "Vec<u8>"),
        other => panic!("unexpected {:?}", other),
    }
}

#[test]
fn first_list_annotation_is_used() {
    let attrs = vec![
        attr("doc", AttrArgs::NameValue("\"text\"".to_string())),
        stringfrom("\"first\""),
        stringfrom("\"second\""),
    ];
    match get_stringfrom_context(&attrs) {
        Ok(Some(Annotation::Context(c))) => assert_eq!(c, "first"),
        other => panic!("unexpected {:?}", other),
    }
    let none = vec![attr("doc", AttrArgs::Word)];
    assert!(matches!(get_stringfrom_context(&none), Ok(None)));
}

#[test]
fn from_field_lookup() {
    let fields = vec![field("String"), from_field("Inner"), field("u8")];
    let (ty, index) = find_from_field(&fields).unwrap();
    assert_eq!(ty, "Inner");
    assert_eq!(index, 1);
    assert_eq!(find_from_field(&vec![field("String")]).unwrap_err(), DiagnosticKind::MissingSourceField);
    assert_eq!(
        find_from_field(&vec![from_field("A"), field("S"), from_field("B")]).unwrap_err(),
        DiagnosticKind::AmbiguousSourceField
    );
}
