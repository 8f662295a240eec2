//! The JSON schema of a recipe's inputs, and the command-line arguments
//! that follow from it.

use crate::text::{is_listed, listed, same_text};
use vstd::prelude::*;

verus! {

/// An object schema: its properties by name, in the order they are kept,
/// and the names of those that must be given.
#[derive(Debug)]
pub struct JsonSchema {
    pub properties: Vec<(String, JsonSchemaPropertyContents)>,
    pub required: Vec<String>,
}

/// What a schema says of one property.
#[derive(Debug)]
pub enum JsonSchemaPropertyContents {
    Regular(RegularJsonSchemaPropertyContents),
    Union(UnionJsonSchemaPropertyContents),
}

/// A property that is one of several objects.
#[derive(Debug)]
pub struct UnionJsonSchemaPropertyContents {
    pub one_of: Vec<JsonSchema>,
}

/// A property of a plain type.
#[derive(Debug, Clone)]
pub struct RegularJsonSchemaPropertyContents {
    pub type_: String,
    pub description: String,
}

/// How the value of a command-line argument is read.
#[derive(Clone, Copy, Debug, PartialEq, Eq, Structural)]
pub enum ArgKind {
    /// A 64-bit signed integer.
    Integer,
    /// Any text.
    Text,
    /// `true` or `false`.
    Boolean,
    /// A floating-point number.
    Number,
    /// Text that holds a JSON document.
    Json,
}

/// One `--name value` argument that a recipe takes.
#[derive(Debug, Clone, PartialEq, Eq)]
pub struct ArgSpec {
    pub name: String,
    pub required: bool,
    pub help: Option<String>,
    pub kind: ArgKind,
}

/// Why a schema cannot be turned into arguments.
#[derive(Debug, Clone, PartialEq, Eq)]
pub enum SchemaError {
    /// A property has a type that is none of `integer`, `string`, `boolean`
    /// and `number`.
    UnknownType { schema_type: String },
}

/// The kind of argument for a schema type, if the type is known.
pub open spec fn kind_of_type(schema_type: Seq<char>) -> Option<ArgKind> {
    if schema_type == "integer"@ {
        Some(ArgKind::Integer)
    } else if schema_type == "string"@ {
        Some(ArgKind::Text)
    } else if schema_type == "boolean"@ {
        Some(ArgKind::Boolean)
    } else if schema_type == "number"@ {
        Some(ArgKind::Number)
    } else {
        None
    }
}

/// The kind of argument for a schema type, if the type is known.
pub fn arg_kind(schema_type: &str) -> (kind: Option<ArgKind>)
    ensures
        kind == kind_of_type(schema_type@),
{
    if same_text(schema_type, "integer") {
        Some(ArgKind::Integer)
    } else if same_text(schema_type, "string") {
        Some(ArgKind::Text)
    } else if same_text(schema_type, "boolean") {
        Some(ArgKind::Boolean)
    } else if same_text(schema_type, "number") {
        Some(ArgKind::Number)
    } else {
        None
    }
}

/// Whether a property can be turned into an argument: a union always can, a
/// regular property when its type is known.
pub open spec fn has_arg(contents: JsonSchemaPropertyContents) -> bool {
    match contents {
        JsonSchemaPropertyContents::Regular(regular) => kind_of_type(regular.type_@) is Some,
        JsonSchemaPropertyContents::Union(_) => true,
    }
}

/// Whether `spec` is the argument for the property `name` with `contents`
/// in a schema that requires `required`.
///
/// A regular property is read by its type, is required when the schema
/// lists it, and is explained by its description. A union is always
/// required, is read as JSON text, and has no explanation.
pub open spec fn is_arg_for(
    spec: ArgSpec,
    name: String,
    contents: JsonSchemaPropertyContents,
    required: Seq<String>,
) -> bool {
    &&& spec.name@ == name@
    &&& match contents {
        JsonSchemaPropertyContents::Regular(regular) => {
            &&& kind_of_type(regular.type_@) == Some(spec.kind)
            &&& spec.required == listed(required, name@)
            &&& spec.help matches Some(help)
            &&& help@ == regular.description@
        },
        JsonSchemaPropertyContents::Union(_) => {
            &&& spec.kind == ArgKind::Json
            &&& spec.required
            &&& spec.help is None
        },
    }
}

/// The arguments that a recipe takes, one per property of its schema and in
/// the same order; or the type of the first property whose type is unknown.
pub fn expected_args(schema: &JsonSchema) -> (r: Result<Vec<ArgSpec>, SchemaError>)
    ensures
        match r {
            Ok(specs) => {
                &&& specs@.len() == schema.properties@.len()
                &&& forall|index: int|
                    0 <= index < specs@.len() ==> is_arg_for(
                        #[trigger] specs@[index],
                        schema.properties@[index].0,
                        schema.properties@[index].1,
                        schema.required@,
                    )
            },
            Err(SchemaError::UnknownType { schema_type }) => exists|index: int|
                {
                    &&& 0 <= index < schema.properties@.len()
                    &&& !has_arg(#[trigger] schema.properties@[index].1)
                    &&& schema.properties@[index].1 matches JsonSchemaPropertyContents::Regular(
                        regular,
                    )
                    &&& schema_type@ == regular.type_@
                    &&& forall|earlier: int|
                        0 <= earlier < index ==> has_arg(#[trigger] schema.properties@[earlier].1)
                },
        },
        r is Ok <==> forall|index: int|
            0 <= index < schema.properties@.len() ==> has_arg(
                #[trigger] schema.properties@[index].1,
            ),
{
    let mut specs: Vec<ArgSpec> = Vec::new();
    let mut index: usize = 0;
    while index < schema.properties.len()
        invariant
            index <= schema.properties@.len(),
            specs@.len() == index,
            forall|earlier: int|
                0 <= earlier < index ==> is_arg_for(
                    #[trigger] specs@[earlier],
                    schema.properties@[earlier].0,
                    schema.properties@[earlier].1,
                    schema.required@,
                ),
            forall|earlier: int|
                0 <= earlier < index ==> has_arg(#[trigger] schema.properties@[earlier].1),
        decreases schema.properties@.len() - index,
    {
        let name: &String = &schema.properties[index].0;
        let spec = match &schema.properties[index].1 {
            JsonSchemaPropertyContents::Regular(regular) => {
                match arg_kind(regular.type_.as_str()) {
                    None => {
                        assert(!has_arg(schema.properties@[index as int].1));
                        return Err(SchemaError::UnknownType { schema_type: regular.type_.clone() });
                    },
                    Some(kind) => ArgSpec {
                        name: name.clone(),
                        required: is_listed(schema.required.as_slice(), name.as_str()),
                        help: Some(regular.description.clone()),
                        kind,
                    },
                }
            },
            JsonSchemaPropertyContents::Union(_) => ArgSpec {
                name: name.clone(),
                required: true,
                help: None,
                kind: ArgKind::Json,
            },
        };
        assert(is_arg_for(
            spec,
            schema.properties@[index as int].0,
            schema.properties@[index as int].1,
            schema.required@,
        ));
        specs.push(spec);
        index += 1;
    }
    Ok(specs)
}

/// Where the parameters of a run come from.
#[derive(Clone, Copy, Debug, PartialEq, Eq, Structural)]
pub enum ParameterSource {
    /// From the file that was named.
    File,
    /// There are none.
    Empty,
    /// From the arguments after `--`, read by the recipe's schema.
    Arguments,
}

/// Decides where the parameters of a run come from: from the parameters
/// file where one was named; else, for a recipe without a name, there are
/// none; else from the arguments.
pub fn parameter_source(has_parameters_file: bool, recipe: &str) -> (source: ParameterSource)
    ensures
        source == if has_parameters_file {
            ParameterSource::File
        } else if recipe@.len() == 0 {
            ParameterSource::Empty
        } else {
            ParameterSource::Arguments
        },
{
    if has_parameters_file {
        ParameterSource::File
    } else if recipe.is_empty() {
        ParameterSource::Empty
    } else {
        ParameterSource::Arguments
    }
}

} // verus!
