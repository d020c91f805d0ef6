use enum_matcher::decl::{PayloadShape, RawDecl, RawVariant};
use enum_matcher::names::{default_matcher_name, snake_case};
use enum_matcher::parse::{parse, ParseError};

fn variant(name: &str, shape: PayloadShape) -> RawVariant {
    RawVariant {
        name: name.to_string(),
        builder_override: None,
        shape,
    }
}

fn two_variant_union() -> RawDecl {
    RawDecl {
        visibility: "pub".to_string(),
        name: "State".to_string(),
        matcher_override: None,
        has_generics: false,
        variants: vec![
            variant("A", PayloadShape::Tuple(vec!["i32".to_string()])),
            variant("B", PayloadShape::Unit),
        ],
    }
}

#[test]
fn snake_case_is_exact() {
    assert_eq!(snake_case("A"), "a");
    assert_eq!(snake_case("LoggedIn"), "logged_in");
    assert_eq!(snake_case("Count2Down"), "count2_down");
    assert_eq!(snake_case("already_lower"), "already_lower");
}

#[test]
fn matcher_name_is_exact() {
    assert_eq!(default_matcher_name("State"), "StateMatcher");
    assert_eq!(default_matcher_name("Login"), "LoginMatcher");
}

#[test]
fn two_variant_union_end_to_end() {
    let code = enum_matcher::derive(&two_variant_union()).expect("well-formed declaration");
    assert!(code.contains("pub struct StateMatcher<Shared: ::druid::Data> {"));
    assert!(code.contains(
        "pub fn a(mut self, widget: impl ::druid::Widget<(Shared, i32)> + 'static) -> Self {"
    ));
    assert!(code.contains(
        "pub fn b(mut self, widget: impl ::druid::Widget<(Shared, ())> + 'static) -> Self {"
    ));
    assert!(code.contains("pub fn matcher<Shared: ::druid::Data>() -> StateMatcher<Shared> {"));
    assert!(code.contains("State::A(p0) => match &mut self.a {"));
    assert!(code.contains("State::B => match &mut self.b {"));
    assert!(code.contains("*data = (d.0, State::A(d.1));"));
    assert!(code.contains("(State::A(_old_p0), State::A(p0)) => match &mut self.a {"));
    assert!(code.contains("(State::B, State::B) => match &mut self.b {"));
    assert!(code.contains("ctx.children_changed();"));
    assert!(code.contains("discriminant_: Option<::std::mem::Discriminant<State>>,"));
}

#[test]
fn dispatcher_name_override_is_used_verbatim() {
    let mut raw = two_variant_union();
    raw.matcher_override = Some("Foo".to_string());
    let code = enum_matcher::derive(&raw).expect("well-formed declaration");
    assert!(code.contains("pub struct Foo<Shared: ::druid::Data> {"));
    assert!(code.contains("pub fn matcher<Shared: ::druid::Data>() -> Foo<Shared> {"));
    assert!(!code.contains("StateMatcher"));
}

#[test]
fn builder_override_is_used_verbatim() {
    let mut raw = two_variant_union();
    raw.variants[0].builder_override = Some("first".to_string());
    let code = enum_matcher::derive(&raw).expect("well-formed declaration");
    assert!(code.contains(
        "pub fn first(mut self, widget: impl ::druid::Widget<(Shared, i32)> + 'static) -> Self {"
    ));
    assert!(!code.contains("pub fn a(mut self"));
}

#[test]
fn tuple_payload_setter_matches_shape() {
    let raw = RawDecl {
        visibility: String::new(),
        name: "Event".to_string(),
        matcher_override: None,
        has_generics: false,
        variants: vec![variant(
            "Pair",
            PayloadShape::Tuple(vec!["i32".to_string(), "String".to_string()]),
        )],
    };
    let code = enum_matcher::derive(&raw).expect("well-formed declaration");
    assert!(code.contains(
        "pub fn pair(mut self, widget: impl ::druid::Widget<(Shared, (i32, String))> + 'static) -> Self {"
    ));
    assert!(code.contains("Event::Pair(p0, p1) => match &mut self.pair {"));
    assert!(code.contains("let mut d = (data.0.clone(), (p0.clone(), p1.clone()));"));
    assert!(code.contains("*data = (d.0, Event::Pair(d.1.0, d.1.1));"));
    // no visibility on the declaration: the struct keyword opens the line
    assert!(code.contains("\nstruct EventMatcher<Shared: ::druid::Data> {"));
}

#[test]
fn empty_tuple_payload_behaves_like_unit_type() {
    let raw = RawDecl {
        visibility: "pub".to_string(),
        name: "Flag".to_string(),
        matcher_override: None,
        has_generics: false,
        variants: vec![variant("On", PayloadShape::Tuple(vec![]))],
    };
    let code = enum_matcher::derive(&raw).expect("well-formed declaration");
    assert!(code.contains(
        "pub fn on(mut self, widget: impl ::druid::Widget<(Shared, ())> + 'static) -> Self {"
    ));
    assert!(code.contains("Flag::On() => match &mut self.on {"));
}

#[test]
fn synthesis_is_idempotent() {
    let raw = two_variant_union();
    let first = enum_matcher::derive(&raw).expect("well-formed declaration");
    let second = enum_matcher::derive(&raw).expect("well-formed declaration");
    assert_eq!(first, second);
}

#[test]
fn named_fields_are_rejected() {
    let mut raw = two_variant_union();
    raw.variants.push(variant("Bad", PayloadShape::Named));
    let err = enum_matcher::derive(&raw).expect_err("named fields must be rejected");
    match &err {
        ParseError::NamedFieldsNotSupported { variant } => assert_eq!(variant, "Bad"),
        other => panic!("unexpected error: {}", other.message()),
    }
    assert_eq!(
        err.message(),
        "variant `Bad` has named fields, which are not supported"
    );
}

#[test]
fn generics_are_rejected() {
    let mut raw = two_variant_union();
    raw.has_generics = true;
    let err = enum_matcher::derive(&raw).expect_err("generics must be rejected");
    assert!(matches!(err, ParseError::GenericsNotSupported));
    assert_eq!(
        err.message(),
        "generic parameters on the union are not supported"
    );
}

#[test]
fn invalid_builder_override_is_rejected() {
    let mut raw = two_variant_union();
    raw.variants[1].builder_override = Some("9lives".to_string());
    let err = enum_matcher::derive(&raw).expect_err("a numeric-headed override must be rejected");
    match &err {
        ParseError::InvalidBuilderOverride { variant, name } => {
            assert_eq!(variant, "B");
            assert_eq!(name, "9lives");
        }
        other => panic!("unexpected error: {}", other.message()),
    }
}

#[test]
fn invalid_union_name_is_rejected() {
    let mut raw = two_variant_union();
    raw.name = "not a name".to_string();
    let err = enum_matcher::derive(&raw).expect_err("a union name with spaces must be rejected");
    match &err {
        ParseError::InvalidUnionName { name } => assert_eq!(name, "not a name"),
        other => panic!("unexpected error: {}", other.message()),
    }
}

#[test]
fn invalid_matcher_override_is_rejected() {
    let mut raw = two_variant_union();
    raw.matcher_override = Some("_".to_string());
    let err = enum_matcher::derive(&raw).expect_err("a lone underscore must be rejected");
    assert!(matches!(err, ParseError::InvalidMatcherOverride { .. }));
}

#[test]
fn first_offending_variant_decides_the_error() {
    let mut raw = two_variant_union();
    raw.variants.insert(0, variant("Worse", PayloadShape::Named));
    raw.variants.push(variant("Bad", PayloadShape::Named));
    let err = parse(&raw).expect_err("named fields must be rejected");
    match &err {
        ParseError::NamedFieldsNotSupported { variant } => assert_eq!(variant, "Worse"),
        other => panic!("unexpected error: {}", other.message()),
    }
}

#[test]
fn parse_resolves_all_names() {
    let decl = parse(&two_variant_union()).expect("well-formed declaration");
    assert_eq!(decl.enum_name, "State");
    assert_eq!(decl.matcher_name, "StateMatcher");
    assert_eq!(decl.variants.len(), 2);
    assert_eq!(decl.variants[0].builder_name, "a");
    assert_eq!(decl.variants[1].builder_name, "b");
}
