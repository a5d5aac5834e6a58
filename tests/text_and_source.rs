use provider_codegen::document::DefaultValue;
use provider_codegen::source::{format_for_extension, format_of_lowercase, OASFormat, OASVersion, OASVersionedSpec, SpecError};
use provider_codegen::text::{occurs, split_segments, templates_match, to_pascal_case, to_snake_case};
use provider_codegen::types::{default_literal_of, go_string_literal, AttributeType, BaseType};

#[test]
fn extensions_choose_the_format() {
    assert_eq!(format_for_extension(Some("yaml")), Ok(OASFormat::YAML));
    assert_eq!(format_for_extension(Some("JSON")), Ok(OASFormat::JSON));
    assert_eq!(format_for_extension(Some("YaMl")), Ok(OASFormat::YAML));
    assert_eq!(format_for_extension(Some("yml")), Err(SpecError::UnsupportedExtension("yml".to_string())));
    assert_eq!(format_for_extension(Some("TXT")), Err(SpecError::UnsupportedExtension("txt".to_string())));
    assert_eq!(format_for_extension(None), Err(SpecError::UnsupportedExtension(String::new())));
    assert_eq!(format_of_lowercase("json"), Ok(OASFormat::JSON));
    assert_eq!(format_of_lowercase("JSON"), Err(SpecError::UnsupportedExtension("JSON".to_string())));
}

const V30: &str = r#"{"openapi": "3.0.3", "info": {"title": "t", "version": "1"}, "paths": {}}"#;

#[test]
fn parse_picks_the_dialect() {
    match OASVersionedSpec::parse(V30, OASFormat::JSON, OASVersion::V3_0) {
        Ok(OASVersionedSpec::V3_0(_)) => {}
        other => panic!("unexpected: {:?}", other.is_ok()),
    }
    let yaml = "openapi: 3.0.3\ninfo:\n  title: t\n  version: '1'\npaths: {}\n";
    assert!(matches!(OASVersionedSpec::parse(yaml, OASFormat::YAML, OASVersion::V3_0), Ok(OASVersionedSpec::V3_0(_))));
}

#[test]
fn malformed_text_names_the_dialect() {
    match OASVersionedSpec::parse("{not json", OASFormat::JSON, OASVersion::V3_1) {
        Err(SpecError::Malformed(OASVersion::V3_1, m)) => assert!(!m.is_empty()),
        _ => panic!("expected a malformed error"),
    }
    assert!(matches!(
        OASVersionedSpec::parse("[1, 2]", OASFormat::YAML, OASVersion::V2_0),
        Err(SpecError::Malformed(OASVersion::V2_0, _))
    ));
}

#[test]
fn paths_split_at_slashes() {
    assert_eq!(split_segments("attributes/id"), vec!["attributes".to_string(), "id".to_string()]);
    assert_eq!(split_segments("id"), vec!["id".to_string()]);
    assert_eq!(split_segments("/a/"), vec!["".to_string(), "a".to_string(), "".to_string()]);
    assert_eq!(split_segments(""), vec!["".to_string()]);
}

#[test]
fn templates_match_any_parameter_name() {
    assert!(templates_match("/pets/{id}", "/pets/{petId}"));
    assert!(templates_match("/pets", "/pets"));
    assert!(!templates_match("/pets/{id}", "/pets/7"));
    assert!(!templates_match("/pets", "/pets/{id}"));
    assert!(!templates_match("/pets", "/dogs"));
}

#[test]
fn naming_conventions() {
    assert_eq!(to_snake_case("User-Group"), "user_group");
    assert_eq!(to_snake_case("pet"), "pet");
    assert_eq!(to_pascal_case("user_group"), "UserGroup");
    assert_eq!(to_pascal_case("res one"), "ResOne");
    assert_eq!(to_pascal_case("a__b"), "AB");
    assert_eq!(to_pascal_case(""), "");
}

#[test]
fn substring_search() {
    assert!(occurs("token", "api_token"));
    assert!(occurs("", "x"));
    assert!(!occurs("secret", "secre"));
    assert!(!occurs("pass", "name"));
}

#[test]
fn go_literals() {
    assert_eq!(go_string_literal("plain"), "\"plain\"");
    assert_eq!(go_string_literal("a\\b\n\"c\"\t"), "\"a\\\\b\\n\\\"c\\\"\\t\"");
    let b = AttributeType { list_depth: 0, base: BaseType::Bool };
    let i = AttributeType { list_depth: 0, base: BaseType::Int64 };
    let s = AttributeType { list_depth: 0, base: BaseType::String };
    let l = AttributeType { list_depth: 1, base: BaseType::String };
    assert_eq!(default_literal_of(&DefaultValue::Bool(true), b), Some("true".to_string()));
    assert_eq!(default_literal_of(&DefaultValue::Bool(false), b), Some("false".to_string()));
    assert_eq!(default_literal_of(&DefaultValue::Number("42".to_string()), i), Some("42".to_string()));
    assert_eq!(default_literal_of(&DefaultValue::Text("hi".to_string()), s), Some("\"hi\"".to_string()));
    assert_eq!(default_literal_of(&DefaultValue::Text("hi".to_string()), l), None);
    assert_eq!(default_literal_of(&DefaultValue::Bool(true), s), None);
    assert_eq!(default_literal_of(&DefaultValue::Number("1".to_string()), b), None);
}
