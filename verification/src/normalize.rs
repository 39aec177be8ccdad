use crate::backend;
use crate::errors::ErrorModel;
use crate::errors::ValidatorError;
use vstd::prelude::*;

verus! {

/// Converts YAML (or JSON, which the YAML grammar subsumes) source text into
/// the canonical generic value tree. `origin` names the file the text came
/// from, or is `None` for in-memory text; it is carried only for error
/// messages and never affects parsing.
pub fn parse_yaml_str(contents: &str, origin: Option<&str>) -> (r: Result<
    serde_json::Value,
    ValidatorError,
>)
    ensures
        r is Ok <==> backend::yaml_normal(contents@) is Ok,
        r matches Ok(v) ==> (backend::yaml_normal(contents@) matches Ok(w) && v == w),
        r matches Err(e) ==> (backend::yaml_normal(contents@) matches Err(m) && e@ == (
        ErrorModel::Parse { origin: origin.deep_view(), cause: m })),
{
    match backend::normalize_raw(contents) {
        Ok(v) => Ok(v),
        Err(cause) => Err(
            ValidatorError::Parse {
                origin: match origin {
                    Some(p) => Some(p.to_owned()),
                    None => None,
                },
                cause,
            },
        ),
    }
}

} // verus!
