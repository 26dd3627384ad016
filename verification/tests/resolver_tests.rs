use enum_discriminant::definition::Attribute;
use enum_discriminant::definition::EnumDefinition;
use enum_discriminant::error::Error;
use enum_discriminant::repr::ReprType;
use enum_discriminant::resolver::find_repr_type;
use enum_discriminant::resolver::get_repr_args;
use enum_discriminant::resolver::get_repr_type;
use enum_discriminant::resolver::is_representation;
use enum_discriminant::resolver::recognize;
use enum_discriminant::token::Token;
use enum_discriminant::token::TokenKind;
use proc_macro2::TokenStream;

fn stream(source: &str) -> TokenStream {
    source.parse::<TokenStream>().unwrap()
}

fn token(kind: TokenKind, text: &str) -> Token {
    Token { kind, text: text.to_string() }
}

fn attribute(outer: bool, name: Option<&str>, arguments: Option<&str>) -> Attribute {
    Attribute {
        outer,
        name: name.map(|n| n.to_string()),
        arguments: arguments.map(stream),
    }
}

fn item_with(attributes: Vec<Attribute>) -> EnumDefinition {
    EnumDefinition {
        name: "MyEnum".to_string(),
        attributes,
        variants: Vec::new(),
        tokens: stream("enum MyEnum { }"),
    }
}

const ALL: [(&str, ReprType); 12] = [
    ("u8", ReprType::U8),
    ("u16", ReprType::U16),
    ("u32", ReprType::U32),
    ("u64", ReprType::U64),
    ("u128", ReprType::U128),
    ("usize", ReprType::Usize),
    ("i8", ReprType::I8),
    ("i16", ReprType::I16),
    ("i32", ReprType::I32),
    ("i64", ReprType::I64),
    ("i128", ReprType::I128),
    ("isize", ReprType::Isize),
];

#[test]
fn every_type_is_found_by_its_name() {
    for (name, repr) in ALL {
        assert_eq!(Some(repr), ReprType::from_name(name));
        assert_eq!(name, repr.name());
        assert_eq!(Some(repr), get_repr_type(&stream(name)).ok());
    }
}

#[test]
fn other_names_name_no_type() {
    for name in ["", "u", "u7", "U8", "u8 ", " u8", "i256", "C", "int", "u88", "f32", "bool"] {
        assert_eq!(None, ReprType::from_name(name));
    }
}

#[test]
fn only_identifiers_name_a_type() {
    assert_eq!(Some(ReprType::U8), recognize(&token(TokenKind::Ident, "u8")));
    assert_eq!(None, recognize(&token(TokenKind::Literal, "u8")));
    assert_eq!(None, recognize(&token(TokenKind::Group, "u8")));
    assert_eq!(None, recognize(&token(TokenKind::Punct, "u8")));
    assert_eq!(None, recognize(&token(TokenKind::JointPunct, "u8")));
    assert_eq!(None, recognize(&token(TokenKind::Ident, "C")));
}

#[test]
fn the_first_type_named_is_taken() {
    let tokens = vec![
        token(TokenKind::Ident, "C"),
        token(TokenKind::Punct, ","),
        token(TokenKind::Ident, "u32"),
        token(TokenKind::Punct, ","),
        token(TokenKind::Ident, "i8"),
    ];
    assert_eq!(Some(ReprType::U32), find_repr_type(&tokens));
    assert_eq!(None, find_repr_type(&tokens[..2].to_vec()));
    assert_eq!(None, find_repr_type(&Vec::new()));
}

#[test]
fn configuration_is_read_from_a_token_stream() {
    assert_eq!(Some(ReprType::U32), get_repr_type(&stream("C, u32")).ok());
    assert_eq!(Some(ReprType::U8), get_repr_type(&stream("u8, u32")).ok());
    assert_eq!(Some(ReprType::I64), get_repr_type(&stream("packed i64")).ok());
    assert_eq!(Some(ReprType::U16), get_repr_type(&stream("align(4), u16")).ok());
}

#[test]
fn a_type_inside_a_group_or_a_literal_is_not_configuration() {
    assert!(get_repr_type(&stream("align(u8)")).is_err());
    assert!(get_repr_type(&stream("(u8)")).is_err());
    assert!(get_repr_type(&stream("\"u8\"")).is_err());
    assert!(get_repr_type(&stream("8")).is_err());
    assert!(get_repr_type(&stream("r#u8")).is_err());
}

#[test]
fn missing_representation_type_holds_the_configuration() {
    for source in ["", "C", "C, packed", "U8"] {
        match get_repr_type(&stream(source)) {
            Err(Error::MissingRepresentationType { arguments }) => {
                assert_eq!(stream(source).to_string(), arguments.to_string());
            }
            other => panic!("unexpected outcome {:?}", other),
        }
    }
}

#[test]
fn messages_show_how_to_use_the_macros() {
    let missing_type = Error::MissingRepresentationType { arguments: stream("C") };
    assert_eq!(
        "Valid enum representation type expected as argument to the discriminant macro, e.g., #[discriminant(u8)]",
        missing_type.message()
    );
    let missing_annotation = Error::MissingRepresentationAnnotation {
        macro_name: "IntoDiscriminant".to_string(),
        item: stream("enum E { A }"),
    };
    assert_eq!(
        "When deriving IntoDiscriminant on an enum, you also need to specify representation type with #[repr()] or #[discriminant()]",
        missing_annotation.message()
    );
}

#[test]
fn an_error_renders_as_a_compile_error_invocation() {
    let error = Error::MissingRepresentationAnnotation {
        macro_name: "FromDiscriminant".to_string(),
        item: stream("enum E { A }"),
    };
    let rendered = error.to_compile_error();
    let expected = stream(
        ":: core :: compile_error ! { \"When deriving FromDiscriminant on an enum, you also need to specify representation type with #[repr()] or #[discriminant()]\" }",
    );
    assert_eq!(expected.to_string(), rendered.to_string());
    assert_eq!(8, rendered.into_iter().count());

    let error = Error::MissingRepresentationType { arguments: stream("C") };
    let rendered: Vec<String> = error
        .to_compile_error()
        .into_iter()
        .map(|tree| tree.to_string())
        .collect();
    assert_eq!(
        vec![":", ":", "core", ":", ":", "compile_error", "!"],
        rendered[..7].to_vec()
    );
    assert!(rendered[7].contains("#[discriminant(u8)]"));
}

#[test]
fn representation_attributes_are_told_apart() {
    assert!(is_representation(&attribute(true, Some("repr"), Some("u8"))));
    assert!(is_representation(&attribute(true, Some("discriminant"), Some("u8"))));
    assert!(is_representation(&attribute(true, Some("repr"), Some(""))));
    assert!(!is_representation(&attribute(false, Some("repr"), Some("u8"))));
    assert!(!is_representation(&attribute(true, Some("repr"), None)));
    assert!(!is_representation(&attribute(true, Some("derive"), Some("u8"))));
    assert!(!is_representation(&attribute(true, Some("Repr"), Some("u8"))));
    assert!(!is_representation(&attribute(true, None, Some("u8"))));
}

#[test]
fn the_first_representation_attribute_gives_the_arguments() {
    let item = item_with(vec![
        attribute(true, Some("derive"), Some("Debug, PartialEq")),
        attribute(true, Some("repr"), None),
        attribute(false, Some("repr"), Some("u64")),
        attribute(true, Some("doc"), None),
        attribute(true, Some("repr"), Some("C, u8")),
        attribute(true, Some("discriminant"), Some("u16")),
    ]);
    let arguments = get_repr_args("IntoDiscriminant", &item).unwrap();
    assert_eq!(stream("C, u8").to_string(), arguments.to_string());
    assert_eq!(Some(ReprType::U8), get_repr_type(&arguments).ok());

    let item = item_with(vec![
        attribute(true, Some("discriminant"), Some("i16")),
        attribute(true, Some("repr"), Some("u8")),
    ]);
    let arguments = get_repr_args("IntoDiscriminant", &item).unwrap();
    assert_eq!("i16", arguments.to_string());
}

#[test]
fn missing_representation_annotation_names_the_macro() {
    for attributes in [
        Vec::new(),
        vec![attribute(true, Some("derive"), Some("Debug"))],
        vec![attribute(true, Some("repr"), None), attribute(false, Some("repr"), Some("u8"))],
    ] {
        match get_repr_args("FromDiscriminant", &item_with(attributes)) {
            Err(Error::MissingRepresentationAnnotation { macro_name, item }) => {
                assert_eq!("FromDiscriminant", macro_name);
                assert_eq!(stream("enum MyEnum { }").to_string(), item.to_string());
            }
            other => panic!("unexpected outcome {:?}", other),
        }
    }
}
