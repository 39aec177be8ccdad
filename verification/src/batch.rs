use crate::backend;
use crate::errors::ErrorModel;
use crate::errors::ValidatorError;
use crate::errors::error_text;
use crate::evaluate::collect_errors;
use crate::evaluate::outcome_spec;
use crate::normalize::parse_yaml_str;
use crate::schema::CompiledSchema;
use vstd::prelude::*;

verus! {

/// What the caller found when it tried to read one discovered file: the
/// file's text, or the message of the read failure.
pub enum FileInput {
    Content(String),
    Unreadable(String),
}

/// The mathematical shape of a `FileInput`.
pub enum FileInputModel {
    Content(Seq<char>),
    Unreadable(Seq<char>),
}

impl View for FileInput {
    type V = FileInputModel;

    open spec fn view(&self) -> FileInputModel {
        match self {
            FileInput::Content(text) => FileInputModel::Content(text@),
            FileInput::Unreadable(cause) => FileInputModel::Unreadable(cause@),
        }
    }
}

/// One discovered file handed to the batch: its path rendered as text, and
/// what reading it gave.
pub struct BatchItem {
    pub path: String,
    pub input: FileInput,
}

/// One file's row in the batch result: the file's path and its outcome.
pub struct FileReport {
    pub path: String,
    pub outcome: Vec<String>,
}

/// The outcome owed to one file: a read failure or a parse failure becomes
/// that file's single synthetic entry, and never anything more; readable,
/// well-formed content gets the evaluator's formatted findings.
pub open spec fn item_outcome(
    schema: jsonschema::Validator,
    path: Seq<char>,
    input: FileInputModel,
) -> Seq<Seq<char>> {
    match input {
        FileInputModel::Unreadable(cause) => seq![error_text(ErrorModel::Io { path, cause })],
        FileInputModel::Content(text) => match backend::yaml_normal(text) {
            Ok(v) => outcome_spec(schema, v),
            Err(m) => seq![
                error_text(ErrorModel::Parse { origin: Some(path), cause: m }),
            ],
        },
    }
}

/// Whether a file name takes part in a batch: its extension, after a
/// non-empty stem and a dot, is exactly `yml` or `yaml`, case-sensitively.
pub open spec fn eligible_name(s: Seq<char>) -> bool {
    (s.len() >= 5 && s[s.len() - 4] == '.' && s[s.len() - 3] == 'y' && s[s.len() - 2] == 'm'
        && s[s.len() - 1] == 'l') || (s.len() >= 6 && s[s.len() - 5] == '.' && s[s.len() - 4] == 'y'
        && s[s.len() - 3] == 'a' && s[s.len() - 2] == 'm' && s[s.len() - 1] == 'l')
}

/// Decides whether a discovered file's name makes it eligible for the batch.
pub fn eligible_file_name(name: &str) -> (r: bool)
    ensures
        r == eligible_name(name@),
{
    let n = name.unicode_len();
    if n >= 5 && name.get_char(n - 4) == '.' && name.get_char(n - 3) == 'y' && name.get_char(
        n - 2,
    ) == 'm' && name.get_char(n - 1) == 'l' {
        return true;
    }
    if n >= 6 && name.get_char(n - 5) == '.' && name.get_char(n - 4) == 'y' && name.get_char(
        n - 3,
    ) == 'a' && name.get_char(n - 2) == 'm' && name.get_char(n - 1) == 'l' {
        return true;
    }
    false
}

/// Keeps exactly the discovered files whose names are eligible, in the order
/// given: the scan filter of the batch. Each entry is a file's path beside
/// its bare name.
pub fn filter_eligible_files(files: &Vec<(String, String)>) -> (r: Vec<(String, String)>)
    ensures
        r.deep_view() == files.deep_view().filter(
            |f: (Seq<char>, Seq<char>)| eligible_name(f.1),
        ),
{
    let ghost pred = (|f: (Seq<char>, Seq<char>)| eligible_name(f.1));
    let mut out: Vec<(String, String)> = Vec::new();
    let mut i: usize = 0;
    while i < files.len()
        invariant
            i <= files.len(),
            out.deep_view() =~= files.deep_view().take(i as int).filter(pred),
            pred == (|f: (Seq<char>, Seq<char>)| eligible_name(f.1)),
        decreases files.len() - i,
    {
        let keep = eligible_file_name(files[i].1.as_str());
        proof {
            let dv = files.deep_view();
            let prev = dv.take(i as int);
            let cur = dv.take(i as int + 1);
            assert(cur.drop_last() =~= prev);
            assert(cur.last() == dv[i as int]);
            assert(dv[i as int] == (files@[i as int].0@, files@[i as int].1@));
            reveal(Seq::filter);
            assert(cur.filter(pred) == if pred(dv[i as int]) {
                prev.filter(pred).push(dv[i as int])
            } else {
                prev.filter(pred)
            });
        }
        if keep {
            let path = files[i].0.clone();
            let name = files[i].1.clone();
            out.push((path, name));
            assert(out.deep_view() =~= files.deep_view().take(i as int + 1).filter(pred));
        }
        i += 1;
    }
    proof {
        assert(files.deep_view().take(files@.len() as int) =~= files.deep_view());
    }
    out
}

/// Validates one document given as text against an already compiled schema:
/// the single-document entry point, shared between inline text and file
/// content.
pub fn validate_rule_text(schema: &CompiledSchema, text: &str, origin: Option<&str>) -> (r: Result<
    Vec<String>,
    ValidatorError,
>)
    ensures
        backend::yaml_normal(text@) matches Ok(v) ==> (r matches Ok(out) && out.deep_view()
            == outcome_spec(schema.raw, v)),
        backend::yaml_normal(text@) matches Err(m) ==> (r matches Err(e) && e@ == (
        ErrorModel::Parse { origin: origin.deep_view(), cause: m })),
{
    match parse_yaml_str(text, origin) {
        Ok(v) => Ok(collect_errors(schema, &v)),
        Err(e) => Err(e),
    }
}

/// Validates one discovered file, folding any per-file failure into that
/// file's own single-entry outcome, so one bad file never aborts the batch.
pub fn validate_item(schema: &CompiledSchema, item: &BatchItem) -> (r: FileReport)
    ensures
        r.path@ == item.path@,
        r.outcome.deep_view() == item_outcome(schema.raw, item.path@, item.input@),
{
    match &item.input {
        FileInput::Content(text) => match validate_rule_text(
            schema,
            text.as_str(),
            Some(item.path.as_str()),
        ) {
            Ok(outcome) => FileReport { path: item.path.clone(), outcome },
            Err(e) => {
                let mut outcome: Vec<String> = Vec::new();
                outcome.push(e.render());
                proof {
                    assert(outcome.deep_view() =~= item_outcome(
                        schema.raw,
                        item.path@,
                        item.input@,
                    ));
                }
                FileReport { path: item.path.clone(), outcome }
            },
        },
        FileInput::Unreadable(cause) => {
            let err = ValidatorError::Io { path: item.path.clone(), cause: cause.clone() };
            let mut outcome: Vec<String> = Vec::new();
            outcome.push(err.render());
            proof {
                assert(outcome.deep_view() =~= item_outcome(schema.raw, item.path@, item.input@));
            }
            FileReport { path: item.path.clone(), outcome }
        },
    }
}

/// Validates every discovered file against the one shared schema: one report
/// per file, in the order given, each file's outcome depending on that file
/// alone.
pub fn validate_batch(schema: &CompiledSchema, items: &Vec<BatchItem>) -> (r: Vec<FileReport>)
    ensures
        r@.len() == items@.len(),
        forall|j: int|
            0 <= j < items@.len() ==> (#[trigger] r@[j]).path@ == items@[j].path@
                && r@[j].outcome.deep_view() == item_outcome(
                schema.raw,
                items@[j].path@,
                items@[j].input@,
            ),
{
    let mut out: Vec<FileReport> = Vec::new();
    let mut i: usize = 0;
    while i < items.len()
        invariant
            i <= items.len(),
            out@.len() == i as int,
            forall|j: int|
                0 <= j < i as int ==> (#[trigger] out@[j]).path@ == items@[j].path@
                    && out@[j].outcome.deep_view() == item_outcome(
                    schema.raw,
                    items@[j].path@,
                    items@[j].input@,
                ),
        decreases items.len() - i,
    {
        let report = validate_item(schema, &items[i]);
        out.push(report);
        i += 1;
    }
    out
}

} // verus!
