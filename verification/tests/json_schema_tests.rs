use adpt::json_schema::{
    arg_kind, expected_args, parameter_source, ArgKind, ArgSpec, JsonSchema,
    JsonSchemaPropertyContents, ParameterSource, RegularJsonSchemaPropertyContents, SchemaError,
    UnionJsonSchemaPropertyContents,
};

fn regular(name: &str, schema_type: &str, description: &str) -> (String, JsonSchemaPropertyContents) {
    (
        name.to_string(),
        JsonSchemaPropertyContents::Regular(RegularJsonSchemaPropertyContents {
            type_: schema_type.to_string(),
            description: description.to_string(),
        }),
    )
}

fn union(name: &str) -> (String, JsonSchemaPropertyContents) {
    (
        name.to_string(),
        JsonSchemaPropertyContents::Union(UnionJsonSchemaPropertyContents { one_of: Vec::new() }),
    )
}

#[test]
fn schema_types_have_their_kinds() {
    assert_eq!(arg_kind("integer"), Some(ArgKind::Integer));
    assert_eq!(arg_kind("string"), Some(ArgKind::Text));
    assert_eq!(arg_kind("boolean"), Some(ArgKind::Boolean));
    assert_eq!(arg_kind("number"), Some(ArgKind::Number));
    assert_eq!(arg_kind("array"), None);
    assert_eq!(arg_kind("Integer"), None);
    assert_eq!(arg_kind(""), None);
}

#[test]
fn every_property_becomes_an_argument() {
    let schema = JsonSchema {
        properties: vec![
            regular("epochs", "integer", "How many epochs"),
            regular("name", "string", "Name of the run"),
            regular("shuffle", "boolean", ""),
            regular("rate", "number", "Learning rate"),
            union("dataset"),
        ],
        required: vec!["epochs".to_string(), "rate".to_string()],
    };
    let arg = |name: &str, required, help: Option<&str>, kind| ArgSpec {
        name: name.to_string(),
        required,
        help: help.map(|h| h.to_string()),
        kind,
    };
    assert_eq!(
        expected_args(&schema),
        Ok(vec![
            arg("epochs", true, Some("How many epochs"), ArgKind::Integer),
            arg("name", false, Some("Name of the run"), ArgKind::Text),
            arg("shuffle", false, Some(""), ArgKind::Boolean),
            arg("rate", true, Some("Learning rate"), ArgKind::Number),
            arg("dataset", true, None, ArgKind::Json),
        ])
    );
}

#[test]
fn an_empty_schema_has_no_arguments() {
    let schema = JsonSchema { properties: Vec::new(), required: vec!["ghost".to_string()] };
    assert_eq!(expected_args(&schema), Ok(Vec::new()));
}

#[test]
fn the_first_unknown_type_is_reported() {
    let schema = JsonSchema {
        properties: vec![
            regular("a", "integer", ""),
            regular("b", "array", ""),
            regular("c", "object", ""),
        ],
        required: Vec::new(),
    };
    assert_eq!(
        expected_args(&schema),
        Err(SchemaError::UnknownType { schema_type: "array".to_string() })
    );
}

#[test]
fn parameters_come_from_the_file_first() {
    assert_eq!(parameter_source(true, "train"), ParameterSource::File);
    assert_eq!(parameter_source(true, ""), ParameterSource::File);
    assert_eq!(parameter_source(false, ""), ParameterSource::Empty);
    assert_eq!(parameter_source(false, "train"), ParameterSource::Arguments);
}
