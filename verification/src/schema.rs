use crate::backend;
use crate::errors::ErrorModel;
use crate::errors::ValidatorError;
use vstd::prelude::*;

verus! {

/// A JSON Schema compiled once and then evaluated against any number of
/// documents. It is never mutated after construction, so it may be shared
/// read-only across concurrent evaluations.
#[derive(Debug)]
pub struct CompiledSchema {
    pub raw: jsonschema::Validator,
}

/// The proactive existence check on a schema or directory path. The caller
/// looks the path up on disk and hands the answer in; a missing path becomes
/// the specific not-found error rather than a generic read failure.
pub fn ensure_path_exists(path: &str, exists: bool) -> (r: Result<(), ValidatorError>)
    ensures
        r is Ok <==> exists,
        !exists ==> (r matches Err(e) && e@ == (ErrorModel::NotFound { path: path@ })),
{
    if exists {
        Ok(())
    } else {
        Err(ValidatorError::NotFound { path: path.to_owned() })
    }
}

/// Parses a schema file's text as JSON and compiles it into a reusable
/// schema. `path` names the file the text came from, for error messages
/// alone. Malformed JSON is reported as a parse failure of the schema body;
/// JSON that is no usable schema as a compile failure.
pub fn compile_schema(path: &str, text: &str) -> (r: Result<CompiledSchema, ValidatorError>)
    ensures
        r is Ok <==> (backend::json_parsed(text@) matches Ok(v) && backend::schema_compiles(v)),
        r matches Err(e) ==> match backend::json_parsed(text@) {
            Ok(_) => e@ matches ErrorModel::SchemaCompile { .. },
            Err(m) => e@ == (ErrorModel::SchemaParse { path: path@, cause: m }),
        },
{
    match backend::parse_json_raw(text) {
        Ok(v) => match backend::compile_raw(&v) {
            Ok(raw) => Ok(CompiledSchema { raw }),
            Err(message) => Err(ValidatorError::SchemaCompile { message }),
        },
        Err(cause) => Err(ValidatorError::SchemaParse { path: path.to_owned(), cause }),
    }
}

} // verus!
