use psr_validator::batch::eligible_file_name;
use psr_validator::batch::filter_eligible_files;
use psr_validator::batch::validate_batch;
use psr_validator::batch::validate_item;
use psr_validator::batch::validate_rule_text;
use psr_validator::batch::BatchItem;
use psr_validator::batch::FileInput;
use psr_validator::errors::ValidatorError;
use psr_validator::evaluate::collect_errors;
use psr_validator::evaluate::format_pointer;
use psr_validator::evaluate::format_violation;
use psr_validator::normalize::parse_yaml_str;
use psr_validator::schema::compile_schema;
use psr_validator::schema::ensure_path_exists;
use psr_validator::schema::CompiledSchema;

const NAME_SCHEMA: &str =
    "{\"type\":\"object\",\"required\":[\"name\"],\"properties\":{\"name\":{\"type\":\"string\"}}}";

fn name_schema() -> CompiledSchema {
    compile_schema("schema.json", NAME_SCHEMA).expect("schema should compile")
}

#[test]
fn valid_document_yields_empty_outcome() {
    let schema = name_schema();
    let outcome = validate_rule_text(&schema, "name: \"ok\"", None).expect("should parse");
    assert!(outcome.is_empty());
}

#[test]
fn type_mismatch_reports_instance_path() {
    let schema = name_schema();
    let outcome = validate_rule_text(&schema, "name: 42", None).expect("should parse");
    assert_eq!(outcome.len(), 1);
    assert!(outcome[0].contains(" at /name "));
    assert!(outcome[0].contains("string"));
}

#[test]
fn root_violation_renders_slash() {
    let schema = compile_schema("schema.json", "{\"type\":\"object\"}").unwrap();
    let outcome = validate_rule_text(&schema, "42", None).unwrap();
    assert_eq!(outcome.len(), 1);
    assert!(outcome[0].contains(" at / ("));
    assert!(!outcome[0].contains(" at  ("));
}

#[test]
fn evaluate_twice_is_identical() {
    let schema = name_schema();
    let doc = parse_yaml_str("name: 42", None).unwrap();
    let first = collect_errors(&schema, &doc);
    let second = collect_errors(&schema, &doc);
    assert_eq!(first, second);
    assert_eq!(first.len(), 1);
}

#[test]
fn missing_field_reports_root_path() {
    let schema = name_schema();
    let outcome = validate_rule_text(&schema, "other: 1", None).unwrap();
    assert_eq!(outcome.len(), 1);
    assert!(outcome[0].contains(" at / ("));
}

#[test]
fn format_pointer_root_is_slash() {
    assert_eq!(format_pointer("").as_str(), "/");
    assert_eq!(format_pointer("/name").as_str(), "/name");
}

#[test]
fn format_violation_embeds_all_parts() {
    let msg = format_violation("boom", "", "/type");
    assert_eq!(msg.as_str(), "boom at / (schema: /type)");
    let msg2 = format_violation("bad", "/a/0", "/items");
    assert_eq!(msg2.as_str(), "bad at /a/0 (schema: /items)");
}

#[test]
fn eligible_extensions_are_exact() {
    assert!(eligible_file_name("a.yml"));
    assert!(eligible_file_name("rule.yaml"));
    assert!(eligible_file_name("dir.tar.yml"));
    assert!(!eligible_file_name("a.YAML"));
    assert!(!eligible_file_name("a.json"));
    assert!(!eligible_file_name(".yml"));
    assert!(!eligible_file_name(".yaml"));
    assert!(!eligible_file_name("yml"));
    assert!(!eligible_file_name(""));
}

#[test]
fn scan_keeps_exactly_the_eligible_files() {
    let found = vec![
        (String::from("d/a.yaml"), String::from("a.yaml")),
        (String::from("d/readme.md"), String::from("readme.md")),
        (String::from("d/b.yml"), String::from("b.yml")),
        (String::from("d/.yml"), String::from(".yml")),
    ];
    let kept = filter_eligible_files(&found);
    assert_eq!(kept.len(), 2);
    assert_eq!(kept[0].0.as_str(), "d/a.yaml");
    assert_eq!(kept[1].0.as_str(), "d/b.yml");
}

#[test]
fn batch_reports_every_file_once() {
    let schema = name_schema();
    let items = vec![
        BatchItem {
            path: String::from("a.yaml"),
            input: FileInput::Content(String::from("name: \"ok\"")),
        },
        BatchItem {
            path: String::from("b.yml"),
            input: FileInput::Content(String::from("other: 1")),
        },
    ];
    let reports = validate_batch(&schema, &items);
    assert_eq!(reports.len(), 2);
    assert_eq!(reports[0].path.as_str(), "a.yaml");
    assert!(reports[0].outcome.is_empty());
    assert_eq!(reports[1].path.as_str(), "b.yml");
    assert_eq!(reports[1].outcome.len(), 1);
    assert!(reports[1].outcome[0].contains(" at / ("));
}

#[test]
fn batch_isolates_bad_files() {
    let schema = name_schema();
    let items = vec![
        BatchItem {
            path: String::from("bad.yaml"),
            input: FileInput::Content(String::from("name: [unclosed")),
        },
        BatchItem {
            path: String::from("good.yaml"),
            input: FileInput::Content(String::from("name: \"ok\"")),
        },
    ];
    let reports = validate_batch(&schema, &items);
    assert_eq!(reports.len(), 2);
    assert_eq!(reports[0].outcome.len(), 1);
    assert!(reports[0].outcome[0].starts_with("failed to parse YAML \"bad.yaml\": "));
    assert!(reports[1].outcome.is_empty());
}

#[test]
fn unreadable_file_gets_synthetic_entry() {
    let schema = name_schema();
    let item = BatchItem {
        path: String::from("gone.yaml"),
        input: FileInput::Unreadable(String::from("permission denied")),
    };
    let report = validate_item(&schema, &item);
    assert_eq!(report.path.as_str(), "gone.yaml");
    assert_eq!(report.outcome.len(), 1);
    assert_eq!(
        report.outcome[0].as_str(),
        "failed to open file \"gone.yaml\": permission denied"
    );
}

#[test]
fn missing_path_is_reported_before_any_reading() {
    let missing = ensure_path_exists("no/such/schema.json", false);
    match missing {
        Err(e) => assert_eq!(
            e.render().as_str(),
            "path does not exist: \"no/such/schema.json\""
        ),
        Ok(()) => panic!("a missing path must be refused"),
    }
    assert!(ensure_path_exists("schema.json", true).is_ok());
}

#[test]
fn malformed_schema_json_is_a_parse_failure() {
    let err = compile_schema("s.json", "{\"type\":").unwrap_err();
    let msg = err.render();
    assert!(msg.starts_with("failed to load JSON schema \"s.json\": "));
}

#[test]
fn unusable_schema_is_a_compile_failure() {
    let err = compile_schema("s.json", "{\"type\": 12}").unwrap_err();
    let msg = err.render();
    assert!(msg.starts_with("schema validation error: "));
}

#[test]
fn malformed_yaml_is_a_parse_failure() {
    let err = parse_yaml_str("a: [", Some("doc.yaml")).unwrap_err();
    let msg = err.render();
    assert!(msg.starts_with("failed to parse YAML \"doc.yaml\": "));
    let err2 = parse_yaml_str("a: [", None).unwrap_err();
    assert!(err2.render().starts_with("failed to parse YAML: "));
}

#[test]
fn error_variants_render_their_fields() {
    let io = ValidatorError::Io {
        path: String::from("p"),
        cause: String::from("c"),
    };
    assert_eq!(io.render().as_str(), "failed to open file \"p\": c");
    let compile = ValidatorError::SchemaCompile {
        message: String::from("m"),
    };
    assert_eq!(compile.render().as_str(), "schema validation error: m");
    let not_found = ValidatorError::NotFound {
        path: String::from("p"),
    };
    assert_eq!(not_found.render().as_str(), "path does not exist: \"p\"");
}

#[test]
fn json_documents_normalize_like_yaml() {
    let schema = name_schema();
    let outcome = validate_rule_text(&schema, "{\"name\": \"ok\"}", None).unwrap();
    assert!(outcome.is_empty());
    let outcome2 = validate_rule_text(&schema, "{\"name\": 42}", None).unwrap();
    assert_eq!(outcome2.len(), 1);
}
