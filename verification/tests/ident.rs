use pallet_abstractions::ident::MAX_BREAKS;
use pallet_abstractions::{fetch_ident, parse_type_ref, GenError, PathSegment, TypeRef, TypeShape};

fn named(name: &str) -> TypeRef {
    TypeRef {
        source: name.to_string(),
        shape: TypeShape::Path {
            leading_colon: false,
            segments: vec![PathSegment { ident: name.to_string(), bare: true }],
        },
    }
}

fn malformed(syntax: &str) -> GenError {
    GenError::MalformedTypeReference { syntax: syntax.to_string() }
}

fn fetch_from_text(source: &str) -> Result<String, GenError> {
    fetch_ident(&parse_type_ref(source)?)
}

#[test]
fn simple_name_is_returned_unchanged() {
    assert_eq!(fetch_ident(&named("Foo")), Ok("Foo".to_string()));
    assert_eq!(fetch_ident(&named("runtimeCall_2")), Ok("runtimeCall_2".to_string()));
    assert_eq!(fetch_ident(&named("BALANCE")), Ok("BALANCE".to_string()));
}

#[test]
fn name_comes_from_the_segment_not_from_the_source() {
    let ty = TypeRef {
        source: " Foo ".to_string(),
        shape: TypeShape::Path {
            leading_colon: false,
            segments: vec![PathSegment { ident: "Foo".to_string(), bare: true }],
        },
    };
    assert_eq!(fetch_ident(&ty), Ok("Foo".to_string()));
}

#[test]
fn parsed_simple_name_is_returned_unchanged() {
    let ty = parse_type_ref("Balance").unwrap();
    assert_eq!(ty, named("Balance"));
    assert_eq!(fetch_ident(&ty), Ok("Balance".to_string()));
    assert_eq!(fetch_from_text("RuntimeCall"), Ok("RuntimeCall".to_string()));
    assert_eq!(fetch_from_text("u128"), Ok("u128".to_string()));
}

#[test]
fn parser_reports_what_it_read_not_what_it_was_given() {
    let ty = parse_type_ref("  Balance\n").unwrap();
    assert_eq!(ty.source, "  Balance\n");
    assert_eq!(
        ty.shape,
        TypeShape::Path {
            leading_colon: false,
            segments: vec![PathSegment { ident: "Balance".to_string(), bare: true }],
        }
    );
    assert_eq!(fetch_ident(&ty), Ok("Balance".to_string()));
}

#[test]
fn generic_type_is_malformed() {
    let ty = parse_type_ref("Vec<Foo>").unwrap();
    assert_eq!(
        ty.shape,
        TypeShape::Path {
            leading_colon: false,
            segments: vec![PathSegment { ident: "Vec".to_string(), bare: false }],
        }
    );
    assert_eq!(fetch_ident(&ty), Err(malformed("Vec<Foo>")));
}

#[test]
fn parenthesized_arguments_are_malformed() {
    let ty = TypeRef {
        source: "Fn(u8) -> u8".to_string(),
        shape: TypeShape::Path {
            leading_colon: false,
            segments: vec![PathSegment { ident: "Fn".to_string(), bare: false }],
        },
    };
    assert_eq!(fetch_ident(&ty), Err(malformed("Fn(u8) -> u8")));
    assert_eq!(fetch_from_text("Fn(u8) -> u8"), Err(malformed("Fn(u8) -> u8")));
}

#[test]
fn reference_is_malformed() {
    let ty = parse_type_ref("&Foo").unwrap();
    assert_eq!(ty.shape, TypeShape::Other);
    assert_eq!(fetch_ident(&ty), Err(malformed("&Foo")));
    assert_eq!(fetch_from_text("&'static mut Foo"), Err(malformed("&'static mut Foo")));
    assert_eq!(fetch_from_text("*const Foo"), Err(malformed("*const Foo")));
}

#[test]
fn tuple_array_and_function_types_are_malformed() {
    for source in ["(Foo, Bar)", "()", "[Foo; 3]", "[Foo]", "fn(Foo) -> Bar", "(Foo)", "!", "_", "dyn Foo", "impl Foo"] {
        assert_eq!(parse_type_ref(source).unwrap().shape, TypeShape::Other, "{}", source);
        assert_eq!(fetch_from_text(source), Err(malformed(source)), "{}", source);
    }
}

#[test]
fn longer_paths_are_malformed() {
    let ty = parse_type_ref("a::Foo").unwrap();
    assert_eq!(
        ty.shape,
        TypeShape::Path {
            leading_colon: false,
            segments: vec![
                PathSegment { ident: "a".to_string(), bare: true },
                PathSegment { ident: "Foo".to_string(), bare: true },
            ],
        }
    );
    assert_eq!(fetch_ident(&ty), Err(malformed("a::Foo")));
}

#[test]
fn leading_colon_is_malformed() {
    let ty = parse_type_ref("::Foo").unwrap();
    assert_eq!(
        ty.shape,
        TypeShape::Path {
            leading_colon: true,
            segments: vec![PathSegment { ident: "Foo".to_string(), bare: true }],
        }
    );
    assert_eq!(fetch_ident(&ty), Err(malformed("::Foo")));
}

#[test]
fn qualified_paths_are_malformed() {
    assert_eq!(fetch_from_text("<T as Config>::Balance"), Err(malformed("<T as Config>::Balance")));
    assert_eq!(fetch_from_text("<T>::Balance"), Err(malformed("<T>::Balance")));
}

#[test]
fn empty_path_is_malformed() {
    let ty = TypeRef {
        source: "".to_string(),
        shape: TypeShape::Path { leading_colon: false, segments: vec![] },
    };
    assert_eq!(fetch_ident(&ty), Err(malformed("")));
}

#[test]
fn text_that_is_no_type_is_malformed() {
    for source in ["", "Vec<", "Foo Bar", "1 + 2", "Foo,", "struct", "\"Foo\""] {
        assert_eq!(parse_type_ref(source), Err(malformed(source)), "{}", source);
    }
}

#[test]
fn name_is_read_whatever_its_length() {
    let long = "a".repeat(100_000);
    assert_eq!(fetch_from_text(&long), Ok(long.clone()));
    let mixed = "Runtime_Call_0123456789".repeat(50);
    assert_eq!(fetch_from_text(&mixed), Ok(mixed.clone()));
}

#[test]
fn text_with_too_many_breaks_is_malformed_unread() {
    let mut most = " ".repeat(MAX_BREAKS);
    most.push_str("Foo");
    assert_eq!(fetch_from_text(&most), Ok("Foo".to_string()));
    let mut more = " ".repeat(MAX_BREAKS + 1);
    more.push_str("Foo");
    assert_eq!(parse_type_ref(&more), Err(malformed(&more)));
    let path = "a::".repeat(MAX_BREAKS / 2) + "Foo";
    assert!(parse_type_ref(&path).is_ok());
    let longer = "a::".repeat(MAX_BREAKS / 2 + 1) + "Foo";
    assert_eq!(parse_type_ref(&longer), Err(malformed(&longer)));
}

#[test]
fn bytes_outside_ascii_count_as_breaks() {
    let name = "é".repeat(MAX_BREAKS / 2);
    assert_eq!(fetch_from_text(&name), Ok(name.clone()));
    let longer = "é".repeat(MAX_BREAKS / 2 + 1);
    assert_eq!(parse_type_ref(&longer), Err(malformed(&longer)));
}

#[test]
fn deepest_nesting_is_read() {
    let mut source = "&".repeat(MAX_BREAKS);
    source.push('T');
    assert_eq!(parse_type_ref(&source).unwrap().shape, TypeShape::Other);
    let mut tuples = "(".repeat(MAX_BREAKS / 2);
    tuples.push_str(&")".repeat(MAX_BREAKS / 2));
    assert_eq!(parse_type_ref(&tuples).unwrap().shape, TypeShape::Other);
    let mut arrays = "[".repeat(MAX_BREAKS / 2);
    arrays.push('T');
    arrays.push_str(&"]".repeat(MAX_BREAKS / 2));
    assert_eq!(parse_type_ref(&arrays).unwrap().shape, TypeShape::Other);
    let mut generics = "A<".repeat(MAX_BREAKS / 2);
    generics.push('T');
    generics.push_str(&">".repeat(MAX_BREAKS / 2));
    assert_eq!(
        parse_type_ref(&generics).unwrap().shape,
        TypeShape::Path {
            leading_colon: false,
            segments: vec![PathSegment { ident: "A".to_string(), bare: false }],
        }
    );
    let mut deeper = "&".repeat(MAX_BREAKS + 1);
    deeper.push('T');
    assert_eq!(parse_type_ref(&deeper), Err(malformed(&deeper)));
}

#[test]
fn messages_reproduce_the_offending_text() {
    assert_eq!(malformed("Vec<Foo>").message(), "Wrong type received: Vec<Foo>");
    assert_eq!(
        GenError::MissingRequiredSlot { contract: "AssetsConfig".to_string(), slot: "AssetId".to_string() }
            .message(),
        "Missing required slot: AssetsConfig::AssetId"
    );
    assert_eq!(
        GenError::UnknownContract { name: "StakingConfig".to_string() }.message(),
        "Unknown contract: StakingConfig"
    );
    assert_eq!(malformed("").message(), "Wrong type received: ");
}

#[test]
fn errors_are_cloned_whole() {
    let error = GenError::MissingRequiredSlot { contract: "XcmConfig".to_string(), slot: "Trader".to_string() };
    assert_eq!(error.clone(), error);
    assert_eq!(malformed("&T").clone(), malformed("&T"));
}
