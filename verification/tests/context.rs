use tera_cli::context::{
    add_environment, add_parameters, add_source, add_sources, assemble_context, merge_document,
    split_parameter,
};
use tera_cli::error::RunError;
use tera_cli::json::Format;
use tera_cli::source::Source;

fn strings(items: &[&str]) -> Vec<String> {
    items.iter().map(|s| s.to_string()).collect()
}

fn pairs(items: &[(&str, &str)]) -> Vec<(String, String)> {
    items.iter().map(|(k, v)| (k.to_string(), v.to_string())).collect()
}

fn file(path: &str, text: &str) -> Source {
    Source { path: path.to_string(), content: Ok(text.to_string()) }
}

fn unreadable(path: &str, why: &str) -> Source {
    Source { path: path.to_string(), content: Err(why.to_string()) }
}

fn json(text: &str) -> serde_json::Value {
    serde_json::from_str(text).unwrap()
}

fn entries(context: &tera::Context) -> serde_json::Value {
    context.as_json().unwrap()
}

#[test]
fn split_parameter_divides_at_the_first_equals() {
    assert_eq!(split_parameter("name=World"), ("name".to_string(), Some("World".to_string())));
}

#[test]
fn split_parameter_keeps_later_equals_in_the_value() {
    assert_eq!(split_parameter("a=b=c"), ("a".to_string(), Some("b=c".to_string())));
    assert_eq!(split_parameter("a=="), ("a".to_string(), Some("=".to_string())));
}

#[test]
fn split_parameter_without_equals_is_a_flag() {
    assert_eq!(split_parameter("verbose"), ("verbose".to_string(), None));
}

#[test]
fn split_parameter_accepts_empty_key_and_empty_value() {
    assert_eq!(split_parameter("key="), ("key".to_string(), Some(String::new())));
    assert_eq!(split_parameter("=value"), (String::new(), Some("value".to_string())));
    assert_eq!(split_parameter("="), (String::new(), Some(String::new())));
    assert_eq!(split_parameter(""), (String::new(), None));
}

#[test]
fn split_parameter_counts_characters_not_bytes() {
    assert_eq!(
        split_parameter("gr\u{fc}\u{df}e=sch\u{f6}n=gut"),
        ("gr\u{fc}\u{df}e".to_string(), Some("sch\u{f6}n=gut".to_string()))
    );
    assert_eq!(split_parameter("\u{1f600}"), ("\u{1f600}".to_string(), None));
}

#[test]
fn add_parameters_sets_text_and_flags() {
    let mut context = tera::Context::new();
    add_parameters(&mut context, &strings(&["name=World", "debug", "path=a=b"]));
    assert_eq!(entries(&context), json(r#"{"name": "World", "debug": true, "path": "a=b"}"#));
}

#[test]
fn add_parameters_keeps_existing_entries() {
    let mut context = tera::Context::new();
    context.insert("kept", &7);
    context.insert("name", &"before");
    add_parameters(&mut context, &strings(&["name=after"]));
    assert_eq!(entries(&context), json(r#"{"kept": 7, "name": "after"}"#));
}

#[test]
fn add_parameters_with_no_parameters_changes_nothing() {
    let mut context = tera::Context::new();
    context.insert("kept", &7);
    add_parameters(&mut context, &Vec::new());
    assert_eq!(entries(&context), json(r#"{"kept": 7}"#));
}

#[test]
fn later_parameter_with_the_same_key_wins() {
    let mut context = tera::Context::new();
    add_parameters(&mut context, &strings(&["a=1", "b=x", "a=2"]));
    assert_eq!(entries(&context), json(r#"{"a": "2", "b": "x"}"#));
}

#[test]
fn later_flag_replaces_earlier_text_and_back() {
    let mut context = tera::Context::new();
    add_parameters(&mut context, &strings(&["a=1", "a"]));
    assert_eq!(entries(&context), json(r#"{"a": true}"#));
    add_parameters(&mut context, &strings(&["a=text"]));
    assert_eq!(entries(&context), json(r#"{"a": "text"}"#));
}

#[test]
fn parameter_values_stay_text() {
    let mut context = tera::Context::new();
    add_parameters(&mut context, &strings(&["n=42", "b=true", "o={}"]));
    assert_eq!(entries(&context), json(r#"{"n": "42", "b": "true", "o": "{}"}"#));
}

#[test]
fn add_environment_puts_variables_under_env() {
    let mut context = tera::Context::new();
    add_environment(&mut context, &pairs(&[("HOME", "/root"), ("LANG", "C")]));
    assert_eq!(entries(&context), json(r#"{"env": {"HOME": "/root", "LANG": "C"}}"#));
}

#[test]
fn add_environment_without_variables_is_an_empty_mapping() {
    let mut context = tera::Context::new();
    add_environment(&mut context, &Vec::new());
    assert_eq!(entries(&context), json(r#"{"env": {}}"#));
}

#[test]
fn add_environment_keeps_the_later_of_two_equal_names() {
    let mut context = tera::Context::new();
    add_environment(&mut context, &pairs(&[("A", "1"), ("B", "2"), ("A", "3")]));
    assert_eq!(entries(&context), json(r#"{"env": {"A": "3", "B": "2"}}"#));
}

#[test]
fn environment_is_never_flattened() {
    let context = assemble_context(
        &pairs(&[("HOME", "/root"), ("name", "from-env")]),
        &Vec::new(),
        &Vec::new(),
        &Vec::new(),
    )
    .unwrap();
    let all = entries(&context);
    let object = all.as_object().unwrap();
    assert_eq!(object.len(), 1);
    assert!(object.contains_key("env"));
    assert!(!object.contains_key("HOME"));
    assert!(!object.contains_key("name"));
}

#[test]
fn env_key_can_be_overridden_by_a_parameter() {
    let context = assemble_context(
        &pairs(&[("HOME", "/root")]),
        &strings(&["env=mine"]),
        &Vec::new(),
        &Vec::new(),
    )
    .unwrap();
    assert_eq!(entries(&context), json(r#"{"env": "mine"}"#));
}

#[test]
fn env_key_can_be_overridden_by_a_document() {
    let context = assemble_context(
        &pairs(&[("HOME", "/root")]),
        &Vec::new(),
        &vec![file("p.json", r#"{"env": {"HOME": "elsewhere"}}"#)],
        &Vec::new(),
    )
    .unwrap();
    assert_eq!(entries(&context), json(r#"{"env": {"HOME": "elsewhere"}}"#));
}

#[test]
fn merge_document_sets_each_top_level_key() {
    let mut context = tera::Context::new();
    context.insert("a", &"old");
    context.insert("kept", &true);
    let merged = merge_document(&mut context, json(r#"{"a": 1, "b": [1, 2], "c": {"d": null}}"#));
    assert!(merged);
    assert_eq!(
        entries(&context),
        json(r#"{"a": 1, "b": [1, 2], "c": {"d": null}, "kept": true}"#)
    );
}

#[test]
fn merge_document_with_an_empty_object_changes_nothing() {
    let mut context = tera::Context::new();
    context.insert("kept", &true);
    assert!(merge_document(&mut context, json("{}")));
    assert_eq!(entries(&context), json(r#"{"kept": true}"#));
}

#[test]
fn merge_document_refuses_what_is_no_object() {
    for text in ["[1, 2]", "\"text\"", "42", "true", "null", "1.5"] {
        let mut context = tera::Context::new();
        context.insert("kept", &true);
        assert!(!merge_document(&mut context, json(text)));
        assert_eq!(entries(&context), json(r#"{"kept": true}"#));
    }
}

#[test]
fn add_source_merges_a_json_file() {
    let mut context = tera::Context::new();
    context.insert("a", &"old");
    let result = add_source(&mut context, Format::Json, &file("p.json", r#"{"a": 2, "b": "x"}"#));
    assert!(result.is_ok());
    assert_eq!(entries(&context), json(r#"{"a": 2, "b": "x"}"#));
}

#[test]
fn add_source_merges_a_yaml_file() {
    let mut context = tera::Context::new();
    context.insert("a", &"old");
    let result = add_source(
        &mut context,
        Format::Yaml,
        &file("p.yaml", "a: 2\nb: x\nlist:\n  - 1\n  - two\nnested:\n  deep: true\n"),
    );
    assert!(result.is_ok());
    assert_eq!(
        entries(&context),
        json(r#"{"a": 2, "b": "x", "list": [1, "two"], "nested": {"deep": true}}"#)
    );
}

#[test]
fn add_source_reports_an_unreadable_file_with_its_reason() {
    let mut context = tera::Context::new();
    context.insert("kept", &true);
    let result = add_source(
        &mut context,
        Format::Json,
        &unreadable("missing.json", "No such file or directory (os error 2)"),
    );
    match result {
        Err(RunError::ParameterFile { path, reason }) => {
            assert_eq!(path, "missing.json");
            assert_eq!(reason, "No such file or directory (os error 2)");
        }
        other => panic!("unexpected result: {:?}", other),
    }
    assert_eq!(entries(&context), json(r#"{"kept": true}"#));
}

#[test]
fn add_source_reports_malformed_json_by_path() {
    let mut context = tera::Context::new();
    context.insert("kept", &true);
    let result = add_source(&mut context, Format::Json, &file("bad.json", "{\"a\": "));
    match result {
        Err(RunError::ParameterFile { path, reason }) => {
            assert_eq!(path, "bad.json");
            assert!(!reason.is_empty());
        }
        other => panic!("unexpected result: {:?}", other),
    }
    assert_eq!(entries(&context), json(r#"{"kept": true}"#));
}

#[test]
fn add_source_reports_malformed_yaml_by_path() {
    let mut context = tera::Context::new();
    let result = add_source(&mut context, Format::Yaml, &file("bad.yaml", "a: [1, 2"));
    match result {
        Err(RunError::ParameterFile { path, reason }) => {
            assert_eq!(path, "bad.yaml");
            assert!(!reason.is_empty());
        }
        other => panic!("unexpected result: {:?}", other),
    }
    assert_eq!(entries(&context), json("{}"));
}

#[test]
fn add_source_refuses_a_json_document_that_is_no_object() {
    for text in ["[1, 2]", "\"text\"", "42", "null"] {
        let mut context = tera::Context::new();
        context.insert("kept", &true);
        let result = add_source(&mut context, Format::Json, &file("list.json", text));
        match result {
            Err(RunError::ParameterFile { path, reason }) => {
                assert_eq!(path, "list.json");
                assert_eq!(reason, "the top level of the document is not a key-value mapping");
            }
            other => panic!("unexpected result: {:?}", other),
        }
        assert_eq!(entries(&context), json(r#"{"kept": true}"#));
    }
}

#[test]
fn add_source_refuses_a_yaml_document_that_is_no_mapping() {
    for text in ["- 1\n- 2\n", "just text", "42"] {
        let mut context = tera::Context::new();
        let result = add_source(&mut context, Format::Yaml, &file("list.yaml", text));
        match result {
            Err(RunError::ParameterFile { path, reason }) => {
                assert_eq!(path, "list.yaml");
                assert_eq!(reason, "the top level of the document is not a key-value mapping");
            }
            other => panic!("unexpected result: {:?}", other),
        }
        assert_eq!(entries(&context), json("{}"));
    }
}

#[test]
fn add_sources_lets_the_later_file_win() {
    let mut context = tera::Context::new();
    let result = add_sources(
        &mut context,
        Format::Json,
        &vec![
            file("one.json", r#"{"a": 1, "b": 1}"#),
            file("two.json", r#"{"b": 2, "c": 2}"#),
            file("three.json", r#"{"c": 3}"#),
        ],
    );
    assert!(result.is_ok());
    assert_eq!(entries(&context), json(r#"{"a": 1, "b": 2, "c": 3}"#));
}

#[test]
fn add_sources_stops_at_the_first_unusable_file() {
    let mut context = tera::Context::new();
    let result = add_sources(
        &mut context,
        Format::Json,
        &vec![
            file("one.json", r#"{"a": 1}"#),
            file("two.json", "[]"),
            unreadable("three.json", "gone"),
            file("four.json", r#"{"d": 4}"#),
        ],
    );
    match result {
        Err(RunError::ParameterFile { path, .. }) => assert_eq!(path, "two.json"),
        other => panic!("unexpected result: {:?}", other),
    }
    assert_eq!(entries(&context), json(r#"{"a": 1}"#));
}

#[test]
fn add_sources_with_no_files_changes_nothing() {
    let mut context = tera::Context::new();
    context.insert("kept", &true);
    assert!(add_sources(&mut context, Format::Yaml, &Vec::new()).is_ok());
    assert_eq!(entries(&context), json(r#"{"kept": true}"#));
}

#[test]
fn yaml_overrides_json() {
    let context = assemble_context(
        &Vec::new(),
        &Vec::new(),
        &vec![file("p.json", r#"{"a": 1}"#)],
        &vec![file("p.yaml", "a: 2")],
    )
    .unwrap();
    assert_eq!(entries(&context), json(r#"{"a": 2, "env": {}}"#));
}

#[test]
fn json_file_overrides_parameter() {
    let context = assemble_context(
        &Vec::new(),
        &strings(&["a=1"]),
        &vec![file("p.json", r#"{"a": 2}"#)],
        &Vec::new(),
    )
    .unwrap();
    assert_eq!(entries(&context), json(r#"{"a": 2, "env": {}}"#));
}

#[test]
fn yaml_file_overrides_parameter() {
    let context = assemble_context(
        &Vec::new(),
        &strings(&["a=1"]),
        &Vec::new(),
        &vec![file("p.yaml", "a: two")],
    )
    .unwrap();
    assert_eq!(entries(&context), json(r#"{"a": "two", "env": {}}"#));
}

#[test]
fn assemble_context_layers_all_sources_in_order() {
    let context = assemble_context(
        &pairs(&[("USER", "me")]),
        &strings(&["p=param", "j=param", "y=param", "flag"]),
        &vec![
            file("one.json", r#"{"j": "json-one", "y": "json-one", "both": 1}"#),
            file("two.json", r#"{"both": 2}"#),
        ],
        &vec![file("one.yaml", "y: yaml-one\nlast: 1\n"), file("two.yaml", "last: 2\n")],
    )
    .unwrap();
    assert_eq!(
        entries(&context),
        json(
            r#"{"env": {"USER": "me"}, "p": "param", "j": "json-one", "y": "yaml-one",
                "flag": true, "both": 2, "last": 2}"#
        )
    );
}

#[test]
fn assemble_context_without_sources_holds_only_env() {
    let context = assemble_context(&Vec::new(), &Vec::new(), &Vec::new(), &Vec::new()).unwrap();
    assert_eq!(entries(&context), json(r#"{"env": {}}"#));
}

#[test]
fn assemble_context_reports_a_json_failure_before_a_yaml_failure() {
    let result = assemble_context(
        &Vec::new(),
        &Vec::new(),
        &vec![file("good.json", "{}"), file("bad.json", "not json")],
        &vec![unreadable("bad.yaml", "gone")],
    );
    match result {
        Err(RunError::ParameterFile { path, .. }) => assert_eq!(path, "bad.json"),
        other => panic!("unexpected result: {:?}", other),
    }
}

#[test]
fn assemble_context_reports_a_yaml_failure() {
    let result = assemble_context(
        &Vec::new(),
        &Vec::new(),
        &vec![file("good.json", "{}")],
        &vec![file("good.yaml", "a: 1"), unreadable("bad.yaml", "gone")],
    );
    match result {
        Err(RunError::ParameterFile { path, reason }) => {
            assert_eq!(path, "bad.yaml");
            assert_eq!(reason, "gone");
        }
        other => panic!("unexpected result: {:?}", other),
    }
}

#[test]
fn assembling_twice_gives_the_same_context() {
    let environment = pairs(&[("A", "1")]);
    let parameters = strings(&["x=1", "y"]);
    let json_files = vec![file("p.json", r#"{"x": [1, 2, 3]}"#)];
    let yaml_files = vec![file("p.yaml", "z: 1.5")];
    let first = assemble_context(&environment, &parameters, &json_files, &yaml_files).unwrap();
    let second = assemble_context(&environment, &parameters, &json_files, &yaml_files).unwrap();
    assert_eq!(first, second);
}
