use pallet_abstractions::{
    generate_apis, generate_apis_from_text, parse_area_arg, wire_area, ApiWiring, Area, AreaArg,
    GenError, PathSegment, TypeRef, TypeShape,
};

fn named(name: &str) -> TypeRef {
    TypeRef {
        source: name.to_string(),
        shape: TypeShape::Path {
            leading_colon: false,
            segments: vec![PathSegment { ident: name.to_string(), bare: true }],
        },
    }
}

fn arg(area: &str, name: &str) -> AreaArg {
    AreaArg { area: area.to_string(), ty: named(name) }
}

fn wiring(area: Area, key: &str) -> ApiWiring {
    ApiWiring { area, key: key.to_string() }
}

fn text(area: &str, source: &str) -> (String, String) {
    (area.to_string(), source.to_string())
}

#[test]
fn every_area_has_its_name() {
    assert_eq!(Area::from_name("assets"), Some(Area::Assets));
    assert_eq!(Area::from_name("benchmark"), Some(Area::Benchmark));
    assert_eq!(Area::from_name("consensus"), Some(Area::Consensus));
    assert_eq!(Area::from_name("evm"), Some(Area::Evm));
    assert_eq!(Area::from_name("system"), Some(Area::System));
    assert_eq!(Area::from_name("tanssi"), Some(Area::Tanssi));
    assert_eq!(Area::from_name("Assets"), None);
    assert_eq!(Area::from_name("governance"), None);
    assert_eq!(Area::from_name(""), None);
}

#[test]
fn two_areas_give_two_wirings() {
    let out = generate_apis(&vec![arg("assets", "Foo"), arg("system", "Bar")]);
    assert_eq!(out, Ok(vec![wiring(Area::Assets, "Foo"), wiring(Area::System, "Bar")]));
}

#[test]
fn order_of_arguments_is_order_of_wirings() {
    let out = generate_apis(&vec![arg("system", "Bar"), arg("assets", "Foo")]);
    assert_eq!(out, Ok(vec![wiring(Area::System, "Bar"), wiring(Area::Assets, "Foo")]));
}

#[test]
fn two_areas_from_text() {
    let out = generate_apis_from_text(&vec![text("assets", "Foo"), text("system", "Bar")]);
    assert_eq!(out, Ok(vec![wiring(Area::Assets, "Foo"), wiring(Area::System, "Bar")]));
}

#[test]
fn no_arguments_give_no_wirings() {
    assert_eq!(generate_apis(&vec![]), Ok(vec![]));
    assert_eq!(generate_apis_from_text(&vec![]), Ok(vec![]));
}

#[test]
fn all_areas_are_wired_once() {
    let args = vec![
        arg("assets", "A"),
        arg("benchmark", "B"),
        arg("consensus", "C"),
        arg("evm", "D"),
        arg("system", "E"),
        arg("tanssi", "F"),
    ];
    let out = generate_apis(&args).unwrap();
    assert_eq!(out.len(), 6);
    for area in [Area::Assets, Area::Benchmark, Area::Consensus, Area::Evm, Area::System, Area::Tanssi] {
        assert_eq!(out.iter().filter(|w| w.area == area).count(), 1);
    }
    let only = generate_apis(&vec![arg("evm", "D")]).unwrap();
    assert_eq!(only, vec![wiring(Area::Evm, "D")]);
    assert_eq!(only.iter().filter(|w| w.area == Area::Assets).count(), 0);
}

#[test]
fn generic_argument_fails_the_whole_generation() {
    let out = generate_apis_from_text(&vec![text("assets", "Foo"), text("system", "Vec<Foo>"), text("evm", "Bar")]);
    assert_eq!(out, Err(GenError::MalformedTypeReference { syntax: "Vec<Foo>".to_string() }));
    let alone = generate_apis_from_text(&vec![text("assets", "Vec<Foo>")]);
    assert_eq!(alone, Err(GenError::MalformedTypeReference { syntax: "Vec<Foo>".to_string() }));
}

#[test]
fn unknown_area_fails_the_whole_generation() {
    let out = generate_apis(&vec![arg("assets", "Foo"), arg("staking", "Bar")]);
    assert_eq!(out, Err(GenError::UnknownContract { name: "staking".to_string() }));
}

#[test]
fn first_failure_is_reported() {
    let out = generate_apis_from_text(&vec![text("staking", "Foo"), text("assets", "&Foo")]);
    assert_eq!(out, Err(GenError::UnknownContract { name: "staking".to_string() }));
    let out = generate_apis_from_text(&vec![text("assets", "&Foo"), text("staking", "Foo")]);
    assert_eq!(out, Err(GenError::MalformedTypeReference { syntax: "&Foo".to_string() }));
}

#[test]
fn area_is_looked_up_before_the_type_is_read() {
    let bad = AreaArg { area: "staking".to_string(), ty: TypeRef { source: "&T".to_string(), shape: TypeShape::Other } };
    assert_eq!(wire_area(&bad), Err(GenError::UnknownContract { name: "staking".to_string() }));
}

#[test]
fn one_argument_is_wired() {
    assert_eq!(wire_area(&arg("tanssi", "Registrar")), Ok(wiring(Area::Tanssi, "Registrar")));
    let other = AreaArg { area: "evm".to_string(), ty: TypeRef { source: "(A, B)".to_string(), shape: TypeShape::Other } };
    assert_eq!(wire_area(&other), Err(GenError::MalformedTypeReference { syntax: "(A, B)".to_string() }));
}

#[test]
fn argument_is_read_from_text() {
    assert_eq!(parse_area_arg("assets", "Foo"), Ok(arg("assets", "Foo")));
    assert_eq!(
        parse_area_arg("assets", "Vec<"),
        Err(GenError::MalformedTypeReference { syntax: "Vec<".to_string() })
    );
    let unknown = parse_area_arg("staking", "Foo").unwrap();
    assert_eq!(unknown.area, "staking");
}

#[test]
fn text_that_is_no_type_fails_before_the_area_is_looked_up() {
    let out = generate_apis_from_text(&vec![text("staking", "Vec<")]);
    assert_eq!(out, Err(GenError::MalformedTypeReference { syntax: "Vec<".to_string() }));
}

#[test]
fn api_generation_is_repeatable() {
    let args = vec![text("assets", "Foo"), text("system", "Bar")];
    assert_eq!(generate_apis_from_text(&args), generate_apis_from_text(&args));
}
