use tera_cli::error::{EngineError, RunError};
use tera_cli::report::{outcome_of, report, Outcome, Stream, FAILURE_STATUS};

fn failed(error: RunError) -> (Stream, String, i32) {
    let report = report(&Outcome::Failed(error));
    (report.stream, report.text, report.status)
}

#[test]
fn failure_status_is_one_hundred() {
    assert_eq!(FAILURE_STATUS, 100);
}

#[test]
fn rendered_text_is_followed_by_a_newline() {
    let report = report(&Outcome::Rendered("text".to_string()));
    assert_eq!(report.stream, Stream::Stdout);
    assert_eq!(report.text, "text\n");
    assert_eq!(report.status, 0);
}

#[test]
fn rendered_text_that_ends_in_a_newline_gets_another() {
    let report = report(&Outcome::Rendered("line\n".to_string()));
    assert_eq!(report.text, "line\n\n");
}

#[test]
fn empty_rendered_text_is_one_newline() {
    let report = report(&Outcome::Rendered(String::new()));
    assert_eq!(report.text, "\n");
    assert_eq!(report.status, 0);
}

#[test]
fn usage_error_message_is_the_message() {
    let error = RunError::Usage { message: "bad flag".to_string() };
    assert_eq!(error.message(), "bad flag");
    assert_eq!(failed(error), (Stream::Stderr, "Error: bad flag\n".to_string(), 100));
}

#[test]
fn parameter_file_error_names_the_path() {
    let error = RunError::ParameterFile {
        path: "dir/p.json".to_string(),
        reason: "expected value at line 1 column 1".to_string(),
    };
    assert_eq!(
        error.message(),
        "Loading parameters from 'dir/p.json' fails because: expected value at line 1 column 1"
    );
    assert_eq!(
        failed(error),
        (
            Stream::Stderr,
            "Error: Loading parameters from 'dir/p.json' fails because: expected value at line 1 column 1\n"
                .to_string(),
            100
        )
    );
}

#[test]
fn template_load_error_names_the_path() {
    let error =
        RunError::TemplateLoad { path: "page.txt".to_string(), reason: "gone".to_string() };
    assert_eq!(error.message(), "Loading template 'page.txt' fails because: gone");
    assert_eq!(
        failed(error),
        (
            Stream::Stderr,
            "Error: Loading template 'page.txt' fails because: gone\n".to_string(),
            100
        )
    );
}

#[test]
fn render_error_prefers_the_cause() {
    let error = RunError::Render {
        path: "page.txt".to_string(),
        error: EngineError::Caused {
            message: "Failed to render 'main'".to_string(),
            cause: "Variable `name` not found".to_string(),
        },
    };
    assert_eq!(
        error.message(),
        "Rendering 'page.txt' fails because: Variable `name` not found"
    );
    assert_eq!(
        failed(error),
        (
            Stream::Stderr,
            "Error: Rendering 'page.txt' fails because: Variable `name` not found\n".to_string(),
            100
        )
    );
}

#[test]
fn render_error_without_cause_gives_the_message() {
    let error = RunError::Render {
        path: "page.txt".to_string(),
        error: EngineError::Plain { message: "Template 'main' not found".to_string() },
    };
    assert_eq!(error.message(), "Rendering 'page.txt' failure: Template 'main' not found");
    assert_eq!(
        failed(error),
        (
            Stream::Stderr,
            "Error: Rendering 'page.txt' failure: Template 'main' not found\n".to_string(),
            100
        )
    );
}

#[test]
fn engine_error_specific_text() {
    let caused = EngineError::Caused { message: "top".to_string(), cause: "below".to_string() };
    assert_eq!(caused.specific(), "below");
    let plain = EngineError::Plain { message: "only".to_string() };
    assert_eq!(plain.specific(), "only");
}

#[test]
fn outcome_of_success_is_rendered() {
    match outcome_of(Ok("text".to_string())) {
        Outcome::Rendered(text) => assert_eq!(text, "text"),
        other => panic!("unexpected outcome: {:?}", other),
    }
}

#[test]
fn outcome_of_failure_is_failed() {
    match outcome_of(Err(RunError::Usage { message: "m".to_string() })) {
        Outcome::Failed(RunError::Usage { message }) => assert_eq!(message, "m"),
        other => panic!("unexpected outcome: {:?}", other),
    }
}

#[test]
fn every_failure_has_the_same_status() {
    let errors = vec![
        RunError::Usage { message: "m".to_string() },
        RunError::ParameterFile { path: "p".to_string(), reason: "r".to_string() },
        RunError::TemplateLoad { path: "p".to_string(), reason: "r".to_string() },
        RunError::Render {
            path: "p".to_string(),
            error: EngineError::Plain { message: "m".to_string() },
        },
    ];
    for error in errors {
        let (stream, text, status) = failed(error);
        assert_eq!(stream, Stream::Stderr);
        assert!(text.starts_with("Error: "));
        assert!(text.ends_with('\n'));
        assert_eq!(status, 100);
    }
}
