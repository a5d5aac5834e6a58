use provider_codegen::config::{
    RestApiProviderConfiguration, RestApiProviderConfigurationGlobal,
    RestApiProviderConfigurationResources, RestApiProviderConfigurationResourcesExtraValue,
};
use provider_codegen::document::{
    ApiDocument, DefaultValue, Operation, PathItem, Primitive, Schema, SchemaShape,
};
use provider_codegen::emit::{generate, ArtifactKind};
use provider_codegen::model::ResourceModel;
use provider_codegen::normalize::{normalize, NodeKind, NormalizeError};
use provider_codegen::types::{attribute_type, BaseType};

fn schema(shape: SchemaShape) -> Schema {
    Schema { shape, nullable: false, read_only: false, description: String::new(), default: None }
}

fn prim(p: Primitive) -> Schema {
    schema(SchemaShape::Primitive(p, None))
}

fn reference(name: &str) -> Schema {
    schema(SchemaShape::Ref(name.to_string()))
}

fn object(props: Vec<(&str, Schema)>, required: &[&str]) -> Schema {
    schema(SchemaShape::Object(
        props.into_iter().map(|(n, s)| (n.to_string(), s)).collect(),
        required.iter().map(|s| s.to_string()).collect(),
    ))
}

fn op(method: &str, request: Option<Schema>, response: Option<Schema>) -> Operation {
    Operation { method: method.to_string(), request_body: request, response_body: response }
}

fn path(p: &str, operations: Vec<Operation>) -> PathItem {
    PathItem { path: p.to_string(), operations }
}

fn resource(p: &str) -> RestApiProviderConfigurationResourcesExtraValue {
    RestApiProviderConfigurationResourcesExtraValue::builder().path(p.to_string()).build().unwrap()
}

fn config(entries: Vec<(&str, RestApiProviderConfigurationResourcesExtraValue)>) -> RestApiProviderConfiguration {
    RestApiProviderConfiguration {
        global: None,
        resources: Some(RestApiProviderConfigurationResources {
            generate_data_source: true,
            generate_resource: true,
            extra: entries.into_iter().map(|(n, v)| (n.to_string(), v)).collect(),
        }),
    }
}

fn pets_document() -> ApiDocument {
    let mut id = prim(Primitive::Integer);
    id.read_only = true;
    let pet = object(vec![("name", prim(Primitive::String)), ("id", id)], &["name"]);
    ApiDocument {
        paths: vec![
            path("/pets", vec![op("POST", Some(reference("Pet")), Some(reference("Pet")))]),
            path("/pets/{id}", vec![op("GET", None, Some(reference("Pet")))]),
        ],
        components: vec![("Pet".to_string(), pet)],
    }
}

fn names(m: &ResourceModel) -> Vec<String> {
    m.attributes.iter().map(|a| a.name.clone()).collect()
}

#[test]
fn pets_end_to_end() {
    let g = generate(&pets_document(), &config(vec![("pet", resource("/pets"))])).unwrap();
    assert_eq!(g.report.models.len(), 1);
    assert!(g.report.unresolved.is_empty());
    let m = &g.report.models[0];
    assert_eq!(m.name, "pet");
    assert_eq!(names(m), vec!["name".to_string(), "id".to_string()]);
    let name = &m.attributes[0];
    assert!(name.required && !name.computed);
    assert_eq!(name.attr_type.base, BaseType::String);
    let id = &m.attributes[1];
    assert!(id.computed && !id.required);
    assert_eq!(id.attr_type.base, BaseType::Int64);
    assert_eq!(m.create.method, "POST");
    assert_eq!(m.create.path, "/pets");
    assert_eq!(m.read.method, "GET");
    assert_eq!(m.read.path, "/pets/{id}");
    assert_eq!(m.update.method, "PUT");
    assert_eq!(m.destroy.method, "DELETE");
    assert_eq!(m.destroy.path, "/pets/{id}");
    assert_eq!(m.id_attribute, vec!["id".to_string()]);
}

#[test]
fn artifacts_are_named_from_resources() {
    let g = generate(&pets_document(), &config(vec![("pet", resource("/pets"))])).unwrap();
    let paths: Vec<&str> = g.artifacts.iter().map(|a| a.path.as_str()).collect();
    assert_eq!(
        paths,
        vec!["Makefile", "go.mod", "main.go", "internal/provider/provider.go", "internal/provider/pet.go"]
    );
    assert_eq!(g.artifacts[4].kind, ArtifactKind::Resource(0));
    assert_eq!(g.artifacts[0].kind, ArtifactKind::BuildFile);
}

#[test]
fn running_twice_gives_the_same_result() {
    let doc = pets_document();
    let cfg = config(vec![("pet", resource("/pets")), ("user_group", resource("/groups"))]);
    let a = generate(&doc, &cfg).unwrap();
    let b = generate(&doc, &cfg).unwrap();
    assert_eq!(a, b);
}

#[test]
fn unknown_path_is_reported_and_skipped() {
    let cfg = config(vec![("ghost", resource("/ghosts")), ("pet", resource("/pets"))]);
    let g = generate(&pets_document(), &cfg).unwrap();
    assert_eq!(g.report.unresolved, vec!["ghost".to_string()]);
    assert_eq!(g.report.models.len(), 1);
    let alone = generate(&pets_document(), &config(vec![("pet", resource("/pets"))])).unwrap();
    assert_eq!(g.report.models[0], alone.report.models[0]);
    assert_eq!(g.artifacts.len(), 5);
}

#[test]
fn order_is_request_then_response() {
    let doc = ApiDocument {
        paths: vec![
            path("/things", vec![op(
                "POST",
                Some(object(vec![("b", prim(Primitive::String)), ("a", prim(Primitive::String))], &[])),
                None,
            )]),
            path("/things/{thingId}", vec![op(
                "GET",
                None,
                Some(object(
                    vec![("a", prim(Primitive::String)), ("c", prim(Primitive::String)), ("b", prim(Primitive::String))],
                    &[],
                )),
            )]),
        ],
        components: vec![],
    };
    let g = generate(&doc, &config(vec![("thing", resource("/things"))])).unwrap();
    let m = &g.report.models[0];
    assert_eq!(names(m), vec!["b".to_string(), "a".to_string(), "c".to_string()]);
    assert!(!m.attributes[0].computed);
    assert!(m.attributes[2].computed);
}

#[test]
fn cyclic_schemas_normalize_to_a_finite_arena() {
    let a = object(vec![("b", reference("B"))], &[]);
    let b = object(vec![("a", reference("A"))], &[]);
    let doc = ApiDocument {
        paths: vec![path("/a", vec![op("POST", Some(reference("A")), None)])],
        components: vec![("A".to_string(), a), ("B".to_string(), b)],
    };
    let ns = normalize(&doc).unwrap();
    assert_eq!(ns.nodes.len(), 5);
    for node in ns.nodes.iter() {
        if let NodeKind::Reference(x) = node.kind {
            assert!(x < 2);
        }
    }
    let t = attribute_type(&ns.nodes, 0, ns.nodes.len());
    assert_eq!(t.base, BaseType::Dynamic);
    let g = generate(&doc, &config(vec![("a", resource("/a"))])).unwrap();
    assert_eq!(names(&g.report.models[0]), vec!["b".to_string()]);
    assert_eq!(g.report.models[0].attributes[0].attr_type.base, BaseType::Dynamic);
}

#[test]
fn dangling_reference_fails() {
    let doc = ApiDocument {
        paths: vec![path("/a", vec![op("POST", Some(reference("Missing")), None)])],
        components: vec![],
    };
    assert_eq!(normalize(&doc), Err(NormalizeError::DanglingReference("Missing".to_string())));
    let r = generate(&doc, &config(vec![]));
    assert_eq!(r, Err(NormalizeError::DanglingReference("Missing".to_string())));
}

#[test]
fn nullable_reference_differs_only_in_required() {
    let mut nullable = reference("Tag");
    nullable.nullable = true;
    let body = object(vec![("first", reference("Tag")), ("second", nullable)], &["first", "second"]);
    let doc = ApiDocument {
        paths: vec![path("/items", vec![op("POST", Some(body), None)])],
        components: vec![("Tag".to_string(), prim(Primitive::String))],
    };
    let g = generate(&doc, &config(vec![("item", resource("/items"))])).unwrap();
    let attrs = &g.report.models[0].attributes;
    assert!(attrs[0].required);
    assert!(!attrs[1].required);
    assert_eq!(attrs[0].attr_type, attrs[1].attr_type);
    assert_eq!(attrs[0].attr_type.base, BaseType::String);
    assert_eq!(attrs[0].computed, attrs[1].computed);
}

#[test]
fn identifier_path_keeps_its_segments() {
    let ov = RestApiProviderConfigurationResourcesExtraValue::builder()
        .path("/pets".to_string())
        .id_attribute(Some("attributes/id".to_string()))
        .build()
        .unwrap();
    let g = generate(&pets_document(), &config(vec![("pet", ov)])).unwrap();
    assert_eq!(g.report.models[0].id_attribute, vec!["attributes".to_string(), "id".to_string()]);
}

#[test]
fn global_policy_and_overrides_choose_methods() {
    let mut global = RestApiProviderConfigurationGlobal::default();
    global.update_method = "PATCH".to_string();
    global.id_attribute = Some("uuid".to_string());
    let create = provider_codegen::config::RestApiProviderConfigurationResourcesExtraValueCreate {
        method: Some("PUT".to_string()),
        path: Some("/pets/new".to_string()),
    };
    let ov = RestApiProviderConfigurationResourcesExtraValue::builder()
        .path("/pets".to_string())
        .create(Some(create))
        .build()
        .unwrap();
    let mut cfg = config(vec![("pet", ov)]);
    cfg.global = Some(global);
    let g = generate(&pets_document(), &cfg).unwrap();
    let m = &g.report.models[0];
    assert_eq!(m.create.method, "PUT");
    assert_eq!(m.create.path, "/pets/new");
    assert_eq!(m.update.method, "PATCH");
    assert_eq!(m.read.method, "GET");
    assert_eq!(m.id_attribute, vec!["uuid".to_string()]);
    // No operation is found for create any more, so only the read response counts.
    assert!(m.attributes.iter().all(|a| a.computed));
}

#[test]
fn flags_defaults_and_secrets() {
    let mut size = prim(Primitive::Integer);
    size.default = Some(DefaultValue::Number("3".to_string()));
    let mut label = prim(Primitive::String);
    label.default = Some(DefaultValue::Text("a \"b\"".to_string()));
    let mut tags = schema(SchemaShape::Array(Box::new(prim(Primitive::String))));
    tags.default = Some(DefaultValue::Text("x".to_string()));
    let body = object(
        vec![("size", size), ("label", label), ("tags", tags), ("api_token", prim(Primitive::String))],
        &["size", "api_token"],
    );
    let doc = ApiDocument {
        paths: vec![path("/boxes", vec![op("POST", Some(body), None)])],
        components: vec![],
    };
    let ov = RestApiProviderConfigurationResourcesExtraValue::builder()
        .path("/boxes".to_string())
        .force_new(vec!["size".to_string(), "nowhere".to_string()])
        .ignore_changes_to(vec!["label".to_string(), "elsewhere".to_string()])
        .build()
        .unwrap();
    let g = generate(&doc, &config(vec![("box", ov)])).unwrap();
    let m = &g.report.models[0];
    let size = &m.attributes[0];
    assert!(!size.required);
    assert_eq!(size.default, Some("3".to_string()));
    assert!(size.force_new && !size.ignore_changes);
    let label = &m.attributes[1];
    assert_eq!(label.default, Some("\"a \\\"b\\\"\"".to_string()));
    assert!(label.ignore_changes && !label.force_new);
    let tags = &m.attributes[2];
    assert_eq!(tags.attr_type.list_depth, 1);
    assert_eq!(tags.default, None);
    assert!(tags.default_dropped);
    let token = &m.attributes[3];
    assert!(token.sensitive && token.required);
    assert!(!size.sensitive);
    assert_eq!(m.unmatched_fields, vec!["nowhere".to_string(), "elsewhere".to_string()]);
}

#[test]
fn scalar_objects_and_enums_map_to_their_types() {
    let nested = object(vec![("inner", point())], &[]);
    let body = object(
        vec![
            ("point", point()),
            ("nested", nested),
            ("color", schema(SchemaShape::Enum(vec!["red".to_string(), "blue".to_string()]))),
            ("choice", schema(SchemaShape::OneOf(vec![prim(Primitive::String), prim(Primitive::Integer)]))),
        ],
        &[],
    );
    let doc = ApiDocument {
        paths: vec![path("/shapes", vec![op("POST", Some(body), None)])],
        components: vec![],
    };
    let g = generate(&doc, &config(vec![("shape", resource("/shapes"))])).unwrap();
    let attrs = &g.report.models[0].attributes;
    assert!(matches!(attrs[0].attr_type.base, BaseType::Object(_)));
    assert_eq!(attrs[1].attr_type.base, BaseType::Dynamic);
    assert!(matches!(attrs[2].attr_type.base, BaseType::Enum(_)));
    assert_eq!(attrs[3].attr_type.base, BaseType::Dynamic);
}

fn point() -> Schema {
    object(vec![("x", prim(Primitive::Number)), ("y", prim(Primitive::Boolean))], &[])
}

#[test]
fn all_of_members_are_merged() {
    let base = object(vec![("id", prim(Primitive::Integer)), ("name", prim(Primitive::Integer))], &["id"]);
    let extra = object(vec![("name", prim(Primitive::String)), ("tag", prim(Primitive::String))], &["name"]);
    let pet = schema(SchemaShape::AllOf(vec![reference("Base"), extra]));
    let doc = ApiDocument {
        paths: vec![path("/pets", vec![op("POST", Some(reference("Pet")), None)])],
        components: vec![("Base".to_string(), base), ("Pet".to_string(), pet)],
    };
    let ns = normalize(&doc).unwrap();
    assert!(ns.nodes.iter().any(|n| matches!(&n.kind, NodeKind::AllOf(ms, ps) if ms.len() == 2 && ps.len() == 3)));
    let g = generate(&doc, &config(vec![("pet", resource("/pets"))])).unwrap();
    let m = &g.report.models[0];
    assert_eq!(names(m), vec!["id".to_string(), "name".to_string(), "tag".to_string()]);
    assert!(m.attributes[0].required);
    assert!(m.attributes[1].required);
    assert_eq!(m.attributes[1].attr_type.base, BaseType::String);
    assert!(!m.attributes[2].required);
}

#[test]
fn duplicate_resource_names_are_reported() {
    let cfg = config(vec![("pet", resource("/pets")), ("pet", resource("/pets"))]);
    let g = generate(&pets_document(), &cfg).unwrap();
    assert_eq!(g.report.models.len(), 1);
    assert_eq!(g.report.unresolved, vec!["pet".to_string()]);
    assert_eq!(g.artifacts.len(), 5);
    assert!(g.report.models[0].attributes[0].optional() == false);
}
