use crate::backend;
use crate::schema::CompiledSchema;
use vstd::prelude::*;
use vstd::string::StringExecFns;

verus! {

/// A pointer rendered for people: the root path shows as `/`, never as the
/// empty string; every other path shows as it is.
pub open spec fn render_path(p: Seq<char>) -> Seq<char> {
    if p.len() == 0 {
        "/"@
    } else {
        p
    }
}

/// The fixed message format for one violation: the failure description, then
/// the path into the document instance, then the path into the schema.
pub open spec fn violation_text(kind: Seq<char>, instance: Seq<char>, schema: Seq<char>) -> Seq<
    char,
> {
    kind + " at "@ + render_path(instance) + " (schema: "@ + render_path(schema) + ")"@
}

/// Every finding of the evaluator for one document, formatted, in the
/// evaluator's traversal order.
pub open spec fn outcome_spec(schema: jsonschema::Validator, doc: serde_json::Value) -> Seq<
    Seq<char>,
> {
    backend::eval_findings(schema, doc).map_values(
        |f: (Seq<char>, Seq<char>, Seq<char>)| violation_text(f.0, f.1, f.2),
    )
}

/// Renders one traversal pointer, turning the evaluator's empty root pointer
/// into `/`.
pub fn format_pointer(pointer: &str) -> (r: String)
    ensures
        r@ == render_path(pointer@),
{
    if pointer.is_empty() {
        "/".to_owned()
    } else {
        pointer.to_owned()
    }
}

/// Builds the message for one violation out of its three parts.
pub fn format_violation(kind: &str, instance: &str, schema: &str) -> (r: String)
    ensures
        r@ == violation_text(kind@, instance@, schema@),
{
    let mut out = kind.to_owned();
    out.append(" at ");
    let ip = format_pointer(instance);
    out.append(ip.as_str());
    out.append(" (schema: ");
    let sp = format_pointer(schema);
    out.append(sp.as_str());
    out.append(")");
    out
}

/// Runs the compiled schema over one normalized document. An invalid
/// document is the expected path here: it yields a non-empty outcome, never
/// an error.
pub fn collect_errors(schema: &CompiledSchema, doc: &serde_json::Value) -> (r: Vec<String>)
    ensures
        r.deep_view() == outcome_spec(schema.raw, *doc),
{
    let raw = backend::evaluate_raw(&schema.raw, doc);
    let mut out: Vec<String> = Vec::new();
    let mut i: usize = 0;
    while i < raw.len()
        invariant
            i <= raw.len(),
            raw.deep_view() == backend::eval_findings(schema.raw, *doc),
            out@.len() == i as int,
            forall|j: int|
                0 <= j < i as int ==> (#[trigger] out@[j])@ == outcome_spec(
                    schema.raw,
                    *doc,
                )[j],
        decreases raw.len() - i,
    {
        let t = &raw[i];
        assert(raw.deep_view()[i as int] == (t.0@, t.1@, t.2@));
        let msg = format_violation(t.0.as_str(), t.1.as_str(), t.2.as_str());
        proof {
            assert(outcome_spec(schema.raw, *doc)[i as int] == violation_text(t.0@, t.1@, t.2@));
        }
        out.push(msg);
        i += 1;
    }
    proof {
        assert(outcome_spec(schema.raw, *doc).len() == raw.deep_view().len());
        assert forall|j: int| 0 <= j < out@.len() implies out.deep_view()[j] == outcome_spec(
            schema.raw,
            *doc,
        )[j] by {
            assert(out.deep_view()[j] == out@[j]@);
        }
        assert(out.deep_view() =~= outcome_spec(schema.raw, *doc));
    }
    out
}

} // verus!
