use crate::backend;
use crate::batch::FileInputModel;
use crate::batch::eligible_name;
use crate::batch::item_outcome;
use crate::errors::ErrorModel;
use crate::errors::error_text;
use crate::evaluate::outcome_spec;
use crate::evaluate::render_path;
use crate::evaluate::violation_text;
use vstd::prelude::*;

verus! {

/// A document the evaluator finds nothing wrong with yields an empty
/// outcome: the formatting step invents no entries of its own.
pub proof fn lemma_valid_document_empty_outcome(
    schema: jsonschema::Validator,
    doc: serde_json::Value,
)
    requires
        backend::eval_findings(schema, doc).len() == 0,
    ensures
        outcome_spec(schema, doc).len() == 0,
{
}

/// A document violating exactly one constraint yields exactly one entry,
/// and that entry is the formatted text of the one finding, its instance
/// path rendered inside the message.
pub proof fn lemma_single_violation(schema: jsonschema::Validator, doc: serde_json::Value)
    requires
        backend::eval_findings(schema, doc).len() == 1,
    ensures
        outcome_spec(schema, doc).len() == 1,
        outcome_spec(schema, doc)[0] == violation_text(
            backend::eval_findings(schema, doc)[0].0,
            backend::eval_findings(schema, doc)[0].1,
            backend::eval_findings(schema, doc)[0].2,
        ),
{
}

/// Evaluation is idempotent: two outcomes of the same compiled schema and
/// the same document are identical, entry for entry.
pub proof fn lemma_evaluate_idempotent(
    schema: jsonschema::Validator,
    doc: serde_json::Value,
    r1: Seq<Seq<char>>,
    r2: Seq<Seq<char>>,
)
    requires
        r1 == outcome_spec(schema, doc),
        r2 == outcome_spec(schema, doc),
    ensures
        r1 == r2,
{
}

/// Root-path rendering: the empty root pointer renders as `/`, and a
/// rendered path is never the empty string.
pub proof fn lemma_root_path_rendering(p: Seq<char>)
    ensures
        p.len() == 0 ==> render_path(p) == "/"@,
        render_path(p).len() != 0,
{
    reveal_strlit("/");
}

/// Scanning is complete: the eligible file names and the ineligible ones
/// together account for every file found, so a directory holding N eligible
/// files among any others yields a batch of exactly N entries.
pub proof fn lemma_scan_completeness(names: Seq<Seq<char>>)
    ensures
        names.filter(|n: Seq<char>| eligible_name(n)).len() + names.filter(
            |n: Seq<char>| !eligible_name(n),
        ).len() == names.len(),
    decreases names.len(),
{
    reveal(Seq::filter);
    if names.len() != 0 {
        lemma_scan_completeness(names.drop_last());
    }
}

/// Per-file isolation: in one batch, a well-formed valid document keeps its
/// empty outcome, and an unparseable sibling gets exactly one synthetic
/// entry, the parse error's message, whatever else the batch holds.
pub proof fn lemma_batch_isolation(
    schema: jsonschema::Validator,
    good_path: Seq<char>,
    good_text: Seq<char>,
    bad_path: Seq<char>,
    bad_text: Seq<char>,
)
    requires
        backend::yaml_normal(good_text) matches Ok(v) && backend::eval_findings(schema, v).len()
            == 0,
        backend::yaml_normal(bad_text) is Err,
    ensures
        item_outcome(schema, good_path, FileInputModel::Content(good_text)).len() == 0,
        item_outcome(schema, bad_path, FileInputModel::Content(bad_text)) =~= seq![
            error_text(
                ErrorModel::Parse {
                    origin: Some(bad_path),
                    cause: backend::yaml_normal(bad_text)->Err_0,
                },
            ),
        ],
{
}

} // verus!
