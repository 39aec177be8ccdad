use vstd::prelude::*;
use vstd::string::StringExecFns;

verus! {

/// The mathematical shape of a `ValidatorError`: each variant with its
/// textual fields as character sequences.
pub enum ErrorModel {
    NotFound { path: Seq<char> },
    Io { path: Seq<char>, cause: Seq<char> },
    Parse { origin: Option<Seq<char>>, cause: Seq<char> },
    SchemaParse { path: Seq<char>, cause: Seq<char> },
    SchemaCompile { message: Seq<char> },
}

/// Everything that can go wrong while loading a schema or validating a
/// document. A document that merely fails its schema is not an error: that
/// case is reported as a non-empty outcome instead.
#[derive(Debug)]
pub enum ValidatorError {
    /// The schema or directory path does not exist on disk.
    NotFound { path: String },
    /// The file exists but could not be opened or read.
    Io { path: String, cause: String },
    /// The document text is not well-formed YAML; `origin` names the file it
    /// came from, or is `None` for in-memory text.
    Parse { origin: Option<String>, cause: String },
    /// The schema file is not well-formed JSON.
    SchemaParse { path: String, cause: String },
    /// The schema parsed as JSON but is not a usable JSON Schema.
    SchemaCompile { message: String },
}

impl View for ValidatorError {
    type V = ErrorModel;

    open spec fn view(&self) -> ErrorModel {
        match self {
            ValidatorError::NotFound { path } => ErrorModel::NotFound { path: path@ },
            ValidatorError::Io { path, cause } => ErrorModel::Io { path: path@, cause: cause@ },
            ValidatorError::Parse { origin, cause } => ErrorModel::Parse {
                origin: origin.deep_view(),
                cause: cause@,
            },
            ValidatorError::SchemaParse { path, cause } => ErrorModel::SchemaParse {
                path: path@,
                cause: cause@,
            },
            ValidatorError::SchemaCompile { message } => ErrorModel::SchemaCompile {
                message: message@,
            },
        }
    }
}

/// The message that `ValidatorError::render` produces for each error.
pub open spec fn error_text(e: ErrorModel) -> Seq<char> {
    match e {
        ErrorModel::NotFound { path } => "path does not exist: \""@ + path + "\""@,
        ErrorModel::Io { path, cause } => "failed to open file \""@ + path + "\": "@ + cause,
        ErrorModel::Parse { origin: Some(p), cause } => "failed to parse YAML \""@ + p + "\": "@
            + cause,
        ErrorModel::Parse { origin: None, cause } => "failed to parse YAML: "@ + cause,
        ErrorModel::SchemaParse { path, cause } => "failed to load JSON schema \""@ + path
            + "\": "@ + cause,
        ErrorModel::SchemaCompile { message } => "schema validation error: "@ + message,
    }
}

impl ValidatorError {
    /// The human-readable message for this error.
    pub fn render(&self) -> (r: String)
        ensures
            r@ == error_text(self@),
    {
        match self {
            ValidatorError::NotFound { path } => {
                let mut out = "path does not exist: \"".to_owned();
                out.append(path.as_str());
                out.append("\"");
                out
            }
            ValidatorError::Io { path, cause } => {
                let mut out = "failed to open file \"".to_owned();
                out.append(path.as_str());
                out.append("\": ");
                out.append(cause.as_str());
                out
            }
            ValidatorError::Parse { origin: Some(p), cause } => {
                let mut out = "failed to parse YAML \"".to_owned();
                out.append(p.as_str());
                out.append("\": ");
                out.append(cause.as_str());
                out
            }
            ValidatorError::Parse { origin: None, cause } => {
                let mut out = "failed to parse YAML: ".to_owned();
                out.append(cause.as_str());
                out
            }
            ValidatorError::SchemaParse { path, cause } => {
                let mut out = "failed to load JSON schema \"".to_owned();
                out.append(path.as_str());
                out.append("\": ");
                out.append(cause.as_str());
                out
            }
            ValidatorError::SchemaCompile { message } => {
                let mut out = "schema validation error: ".to_owned();
                out.append(message.as_str());
                out
            }
        }
    }
}

} // verus!
