use seedframe::json::{Json, Number};
use seedframe::schema::{
    build_parameters_schema, default_extractor_serializer, last_segment, normalize, process_json_value,
    tool_declaration,
};
use seedframe::tools::ToolArg;

fn text(s: &str) -> Json {
    Json::Text(s.to_string())
}

fn object(members: Vec<(&str, Json)>) -> Json {
    Json::Object(members.into_iter().map(|(k, v)| (k.to_string(), v)).collect())
}

fn number(n: u64) -> Json {
    Json::Number(Number::PosInt(n))
}

#[test]
fn normalize_strips_generator_keys_that_hold_text_or_numbers() {
    let schema = object(vec![
        ("$schema", text("http://json-schema.org/draft-07/schema#")),
        ("title", text("uint32")),
        ("type", text("integer")),
        ("format", text("uint32")),
        ("minimum", Json::Number(Number::Float("0.0".to_string()))),
    ]);
    assert_eq!(normalize(schema), object(vec![("type", text("integer"))]));
}

#[test]
fn normalize_keeps_generator_keys_that_hold_something_else() {
    let schema = object(vec![("title", object(vec![("type", text("string"))])), ("format", Json::Null)]);
    assert_eq!(normalize(schema.clone()), schema);
}

#[test]
fn normalize_renames_one_of_and_closes_objects_at_every_depth() {
    let schema = object(vec![
        ("type", text("object")),
        (
            "properties",
            object(vec![(
                "kind",
                object(vec![
                    ("title", text("Kind")),
                    ("oneOf", Json::Array(vec![object(vec![("format", text("x")), ("properties", object(vec![]))])])),
                ]),
            )]),
        ),
    ]);
    let expected = object(vec![
        ("type", text("object")),
        (
            "properties",
            object(vec![(
                "kind",
                object(vec![(
                    "anyOf",
                    Json::Array(vec![object(vec![
                        ("properties", object(vec![])),
                        ("additionalProperties", Json::Bool(false)),
                    ])]),
                )]),
            )]),
        ),
        ("additionalProperties", Json::Bool(false)),
    ]);
    assert_eq!(normalize(schema), expected);
}

#[test]
fn normalize_replaces_an_any_of_that_stands_beside_a_one_of() {
    let schema = object(vec![("anyOf", number(1)), ("oneOf", number(2)), ("additionalProperties", Json::Bool(true)), ("properties", Json::Null)]);
    assert_eq!(
        normalize(schema),
        object(vec![("anyOf", number(2)), ("additionalProperties", Json::Bool(false)), ("properties", Json::Null)])
    );
}

#[test]
fn process_json_value_rewrites_in_place() {
    let mut schema = Json::Array(vec![object(vec![("title", text("t"))]), text("title")]);
    process_json_value(&mut schema);
    assert_eq!(schema, Json::Array(vec![object(vec![]), text("title")]));
}

#[test]
fn a_tool_arg_gets_its_description_and_loses_the_generator_keys() {
    let generated = object(vec![
        ("$schema", object(vec![])),
        ("title", Json::Bool(true)),
        ("format", Json::Null),
        ("type", text("string")),
    ]);
    let arg = ToolArg::new("lang", "language to tell the joke in", generated);
    assert_eq!(arg.name(), "lang");
    assert_eq!(arg.description(), "language to tell the joke in");
    assert_eq!(
        arg.schema(),
        &object(vec![("type", text("string")), ("description", text("language to tell the joke in"))])
    );
}

#[test]
fn parameters_schema_requires_every_parameter() {
    let a = ToolArg::new("a", "first", object(vec![("type", text("integer")), ("minimum", Json::Bool(false))]));
    let b = ToolArg::new("b", "second", text("anything"));
    let schema = build_parameters_schema(&[a, b]);
    assert_eq!(
        schema,
        object(vec![
            ("type", text("object")),
            (
                "properties",
                object(vec![
                    ("a", object(vec![("type", text("integer")), ("description", text("first"))])),
                    ("b", text("anything")),
                ])
            ),
            ("required", Json::Array(vec![text("a"), text("b")])),
            ("additionalProperties", Json::Bool(false)),
        ])
    );
}

#[test]
fn a_later_parameter_replaces_an_earlier_one_of_the_same_name() {
    let first = ToolArg::new("a", "first", text("one"));
    let second = ToolArg::new("a", "second", text("two"));
    let schema = build_parameters_schema(&[first, second]);
    assert_eq!(schema.get("properties"), Some(&object(vec![("a", text("two"))])));
    assert_eq!(schema.get("required"), Some(&Json::Array(vec![text("a"), text("a")])));
}

#[test]
fn a_tool_is_declared_as_a_strict_function() {
    let declaration = tool_declaration("tell_joke", "Tells jokes", &[]);
    assert_eq!(
        declaration,
        object(vec![
            ("type", text("function")),
            (
                "function",
                object(vec![
                    ("name", text("tell_joke")),
                    ("strict", Json::Bool(true)),
                    ("description", text("Tells jokes")),
                    (
                        "parameters",
                        object(vec![
                            ("type", text("object")),
                            ("properties", object(vec![])),
                            ("required", Json::Array(vec![])),
                            ("additionalProperties", Json::Bool(false)),
                        ])
                    ),
                ])
            ),
        ])
    );
}

#[test]
fn last_segment_is_what_stands_behind_the_last_double_colon() {
    assert_eq!(last_segment("app::people::Person"), "Person");
    assert_eq!(last_segment("Person"), "Person");
    assert_eq!(last_segment(""), "");
    assert_eq!(last_segment("a::"), "");
    assert_eq!(last_segment("a:b"), "a:b");
    assert_eq!(last_segment("alloc::vec::Vec<alloc::string::String>"), "String>");
    assert_eq!(last_segment("::"), "");
    assert_eq!(last_segment("é::ü"), "ü");
}

#[test]
fn an_extraction_target_is_declared_under_the_name_of_its_type() {
    let generated = object(vec![
        ("$schema", text("s")),
        ("title", text("Person")),
        ("type", text("object")),
        ("properties", object(vec![("age", object(vec![("format", text("uint8")), ("minimum", number(0))]))])),
    ]);
    assert_eq!(
        default_extractor_serializer(generated, "app::Person"),
        object(vec![
            ("type", text("json_schema")),
            (
                "json_schema",
                object(vec![
                    ("name", text("Person")),
                    ("strict", Json::Bool(true)),
                    (
                        "schema",
                        object(vec![
                            ("type", text("object")),
                            ("properties", object(vec![("age", object(vec![]))])),
                            ("additionalProperties", Json::Bool(false)),
                        ])
                    ),
                ])
            ),
        ])
    );
}
