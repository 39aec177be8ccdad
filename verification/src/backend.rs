use vstd::prelude::*;

verus! {

#[verifier::external_type_specification]
#[verifier::external_body]
pub struct ExJsonValue(serde_json::Value);

#[verifier::external_type_specification]
#[verifier::external_body]
pub struct ExValidator(jsonschema::Validator);

/// What deserializing a text through the YAML parser into the generic JSON
/// value model yields: the normalized value, or the parser's error message.
/// The parse depends on the text alone.
pub uninterp spec fn yaml_normal(text: Seq<char>) -> Result<serde_json::Value, Seq<char>>;

/// What parsing a text as JSON yields: the parsed value, or the parser's
/// error message. The parse depends on the text alone.
pub uninterp spec fn json_parsed(text: Seq<char>) -> Result<serde_json::Value, Seq<char>>;

/// Whether a parsed JSON value compiles into a usable schema. With resource
/// resolution disabled the compiler consults nothing but the value itself.
pub uninterp spec fn schema_compiles(schema: serde_json::Value) -> bool;

/// The evaluator's findings for one document under one compiled schema, in
/// its traversal order: for each violated rule, the failure description, the
/// path into the document instance, and the path into the schema. The
/// evaluator is side-effect-free, so the list depends on the schema and the
/// document alone; the root path comes back as the empty string.
pub uninterp spec fn eval_findings(schema: jsonschema::Validator, doc: serde_json::Value) -> Seq<
    (Seq<char>, Seq<char>, Seq<char>),
>;

/// Relies on `serde_yaml::from_str` deserializing into `serde_json::Value`:
/// well-formed YAML becomes the canonical generic value, anything else the
/// parser's error message.
#[verifier::external_body]
pub(crate) fn normalize_raw(text: &str) -> (r: Result<serde_json::Value, String>)
    ensures
        r is Ok <==> yaml_normal(text@) is Ok,
        r matches Ok(w) ==> yaml_normal(text@) matches Ok(v) && w == v,
        r matches Err(s) ==> yaml_normal(text@) matches Err(m) && s@ == m,
{
    match serde_yaml::from_str::<serde_json::Value>(text) {
        Ok(v) => Ok(v),
        Err(e) => Err(e.to_string()),
    }
}

/// Relies on `serde_json::from_str`: well-formed JSON becomes a value,
/// anything else the parser's error message.
#[verifier::external_body]
pub(crate) fn parse_json_raw(text: &str) -> (r: Result<serde_json::Value, String>)
    ensures
        r is Ok <==> json_parsed(text@) is Ok,
        r matches Ok(w) ==> json_parsed(text@) matches Ok(v) && w == v,
        r matches Err(s) ==> json_parsed(text@) matches Err(m) && s@ == m,
{
    match serde_json::from_str::<serde_json::Value>(text) {
        Ok(v) => Ok(v),
        Err(e) => Err(e.to_string()),
    }
}

/// Relies on `jsonschema::validator_for`: a structurally valid JSON Schema
/// compiles into an evaluator, anything else yields an error message.
#[verifier::external_body]
pub(crate) fn compile_raw(schema: &serde_json::Value) -> (r: Result<
    jsonschema::Validator,
    String,
>)
    ensures
        r is Ok <==> schema_compiles(*schema),
{
    match jsonschema::validator_for(schema) {
        Ok(v) => Ok(v),
        Err(e) => Err(e.to_string()),
    }
}

/// Relies on `Validator::iter_errors` and the accessors of its errors: each
/// finding is handed out as its rendered description and its two paths.
#[verifier::external_body]
pub(crate) fn evaluate_raw(schema: &jsonschema::Validator, doc: &serde_json::Value) -> (r: Vec<
    (String, String, String),
>)
    ensures
        r.deep_view() == eval_findings(*schema, *doc),
{
    schema.iter_errors(doc).map(
        |e| (e.to_string(), e.instance_path().as_str().to_string(), e.schema_path().as_str().to_string()),
    ).collect()
}

} // verus!
