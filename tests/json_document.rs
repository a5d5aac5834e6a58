use provider_codegen::document::{DefaultValue, Primitive, SchemaShape};
use provider_codegen::json::{api_document, schema, JsonValue};
use provider_codegen::source::OASVersion;
use provider_codegen::types::{attribute_kind_of, AttributeType, BaseType};

fn text(s: &str) -> JsonValue {
    JsonValue::Text(s.to_string())
}

fn obj(entries: Vec<(&str, JsonValue)>) -> JsonValue {
    JsonValue::Object(entries.into_iter().map(|(k, v)| (k.to_string(), v)).collect())
}

fn typed(t: &str) -> JsonValue {
    obj(vec![("type", text(t))])
}

fn pet_schema() -> JsonValue {
    obj(vec![
        ("type", text("object")),
        ("required", JsonValue::Array(vec![text("name")])),
        ("properties", obj(vec![
            ("name", typed("string")),
            ("id", obj(vec![("type", text("integer")), ("readOnly", JsonValue::Bool(true))])),
        ])),
    ])
}

fn body(schema: JsonValue) -> JsonValue {
    obj(vec![("content", obj(vec![("application/json", obj(vec![("schema", schema)]))]))])
}

fn reference(to: &str) -> JsonValue {
    obj(vec![("$ref", text(to))])
}

#[test]
fn v3_document_keeps_order_and_follows_references() {
    let root = obj(vec![
        ("paths", obj(vec![
            ("/pets", obj(vec![
                ("post", obj(vec![
                    ("requestBody", reference("#/components/requestBodies/PetBody")),
                    ("responses", obj(vec![("201", body(reference("#/components/schemas/Pet")))])),
                ])),
                ("get", obj(vec![("responses", obj(vec![("default", body(typed("string")))]))])),
            ])),
        ])),
        ("components", obj(vec![
            ("schemas", obj(vec![("Pet", pet_schema())])),
            ("requestBodies", obj(vec![("PetBody", body(reference("#/components/schemas/Pet")))])),
        ])),
    ]);
    let doc = api_document(&root, OASVersion::V3_0);
    assert_eq!(doc.components.len(), 1);
    assert_eq!(doc.components[0].0, "Pet");
    match &doc.components[0].1.shape {
        SchemaShape::Object(props, required) => {
            let names: Vec<&str> = props.iter().map(|(n, _)| n.as_str()).collect();
            assert_eq!(names, vec!["name", "id"]);
            assert!(props[1].1.read_only);
            assert_eq!(required, &vec!["name".to_string()]);
        }
        other => panic!("unexpected shape {:?}", other),
    }
    assert_eq!(doc.paths.len(), 1);
    let ops = &doc.paths[0].operations;
    let methods: Vec<&str> = ops.iter().map(|o| o.method.as_str()).collect();
    assert_eq!(methods, vec!["GET", "POST"]);
    let post = &ops[1];
    assert!(matches!(&post.request_body.as_ref().unwrap().shape, SchemaShape::Ref(n) if n == "Pet"));
    assert!(matches!(&post.response_body.as_ref().unwrap().shape, SchemaShape::Ref(n) if n == "Pet"));
    assert!(ops[0].request_body.is_none());
    assert!(matches!(ops[0].response_body.as_ref().unwrap().shape, SchemaShape::Primitive(Primitive::String, None)));
}

#[test]
fn v2_document_reads_body_parameters_and_definitions() {
    let root = obj(vec![
        ("definitions", obj(vec![("Pet", pet_schema())])),
        ("paths", obj(vec![(
            "/pets",
            obj(vec![(
                "post",
                obj(vec![
                    ("parameters", JsonValue::Array(vec![
                        obj(vec![("in", text("query")), ("name", text("q"))]),
                        obj(vec![("in", text("body")), ("schema", reference("#/definitions/Pet"))]),
                    ])),
                    ("responses", obj(vec![("200", obj(vec![("schema", reference("#/definitions/Pet"))]))])),
                ]),
            )]),
        )])),
    ]);
    let doc = api_document(&root, OASVersion::V2_0);
    assert_eq!(doc.components[0].0, "Pet");
    let post = &doc.paths[0].operations[0];
    assert_eq!(post.method, "POST");
    assert!(matches!(&post.request_body.as_ref().unwrap().shape, SchemaShape::Ref(n) if n == "Pet"));
    assert!(post.response_body.is_some());
    let v3 = api_document(&root, OASVersion::V3_1);
    assert!(v3.components.is_empty());
}

#[test]
fn schema_flags_and_shapes() {
    let s = schema(&obj(vec![
        ("type", JsonValue::Array(vec![text("null"), text("integer")])),
        ("format", text("int64")),
        ("default", JsonValue::Number("7".to_string())),
        ("description", text("count")),
    ]));
    assert!(s.nullable);
    assert_eq!(s.shape, SchemaShape::Primitive(Primitive::Integer, Some("int64".to_string())));
    assert_eq!(s.default, Some(DefaultValue::Number("7".to_string())));
    assert_eq!(s.description, "count");
    let n = schema(&obj(vec![("type", text("string")), ("nullable", JsonValue::Bool(true))]));
    assert!(n.nullable);
    let x = schema(&obj(vec![("type", text("string")), ("x-nullable", JsonValue::Bool(true))]));
    assert!(x.nullable);
    let e = schema(&obj(vec![("enum", JsonValue::Array(vec![text("a"), JsonValue::Number("2".to_string()), JsonValue::Null]))]));
    assert_eq!(e.shape, SchemaShape::Enum(vec!["a".to_string(), "2".to_string()]));
    let a = schema(&obj(vec![("type", text("array")), ("items", typed("boolean"))]));
    match a.shape {
        SchemaShape::Array(item) => assert_eq!(item.shape, SchemaShape::Primitive(Primitive::Boolean, None)),
        other => panic!("unexpected shape {:?}", other),
    }
    let all = schema(&obj(vec![("allOf", JsonValue::Array(vec![reference("#/components/schemas/A"), typed("object")]))]));
    assert!(matches!(all.shape, SchemaShape::AllOf(ref ms) if ms.len() == 2));
    let any = schema(&obj(vec![("anyOf", JsonValue::Array(vec![typed("string")]))]));
    assert!(matches!(any.shape, SchemaShape::OneOf(ref ms) if ms.len() == 1));
    let plain = schema(&JsonValue::Null);
    assert_eq!(plain.shape, SchemaShape::Primitive(Primitive::String, None));
    let implicit = schema(&obj(vec![("properties", obj(vec![("b", typed("string")), ("a", typed("string"))]))]));
    match implicit.shape {
        SchemaShape::Object(props, _) => assert_eq!(props[0].0, "b"),
        other => panic!("unexpected shape {:?}", other),
    }
}

#[test]
fn attribute_kinds() {
    let t = |d: usize, b: BaseType| AttributeType { list_depth: d, base: b };
    assert_eq!(attribute_kind_of(t(1, BaseType::Int64)), "ListAttribute");
    assert_eq!(attribute_kind_of(t(0, BaseType::Int64)), "Int64Attribute");
    assert_eq!(attribute_kind_of(t(0, BaseType::Float64)), "Float64Attribute");
    assert_eq!(attribute_kind_of(t(0, BaseType::Bool)), "BoolAttribute");
    assert_eq!(attribute_kind_of(t(0, BaseType::Object(3))), "ObjectAttribute");
    assert_eq!(attribute_kind_of(t(0, BaseType::Dynamic)), "StringAttribute");
    assert_eq!(attribute_kind_of(t(0, BaseType::Enum(1))), "StringAttribute");
}
