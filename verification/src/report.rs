//! Reporting: what a finished run writes, where, and the status it exits
//! with.

use crate::error::{RunError, RunErrorView};
use vstd::prelude::*;
use vstd::string::StringExecFns;

verus! {

/// The exit status of every run that fails, whatever the failure.
pub const FAILURE_STATUS: i32 = 100;

/// How a run ended.
#[derive(Debug)]
pub enum Outcome {
    /// The template was rendered to this text.
    Rendered(String),
    /// The command line asked for this text (help) and for nothing else.
    Notice(String),
    /// The run failed.
    Failed(RunError),
}

/// An `Outcome` by the text it carries.
pub enum OutcomeView {
    Rendered(Seq<char>),
    Notice(Seq<char>),
    Failed(RunErrorView),
}

impl View for Outcome {
    type V = OutcomeView;

    open spec fn view(&self) -> OutcomeView {
        match self {
            Outcome::Rendered(text) => OutcomeView::Rendered(text@),
            Outcome::Notice(text) => OutcomeView::Notice(text@),
            Outcome::Failed(error) => OutcomeView::Failed(error@),
        }
    }
}

/// The two streams a run writes to.
#[derive(Clone, Copy, Debug, PartialEq, Eq)]
pub enum Stream {
    Stdout,
    Stderr,
}

/// What a run leaves behind: `text` written to `stream`, and the exit
/// status.
#[derive(Debug)]
pub struct Report {
    pub stream: Stream,
    pub text: String,
    pub status: i32,
}

/// A `Report` by the text it carries.
pub struct ReportView {
    pub stream: Stream,
    pub text: Seq<char>,
    pub status: int,
}

impl View for Report {
    type V = ReportView;

    open spec fn view(&self) -> ReportView {
        ReportView { stream: self.stream, text: self.text@, status: self.status as int }
    }
}

/// The report of an outcome. Rendered text goes to standard output, followed
/// by a newline, with status 0; so does text that the command line asked
/// for. A failure goes to standard error as one line, `Error: ` and the
/// failure's message, with status 100; nothing is written to standard output
/// then.
pub open spec fn report_of(outcome: OutcomeView) -> ReportView {
    match outcome {
        OutcomeView::Rendered(text) => ReportView {
            stream: Stream::Stdout,
            text: text + "\n"@,
            status: 0,
        },
        OutcomeView::Notice(text) => ReportView {
            stream: Stream::Stdout,
            text: text + "\n"@,
            status: 0,
        },
        OutcomeView::Failed(error) => ReportView {
            stream: Stream::Stderr,
            text: "Error: "@ + error.message() + "\n"@,
            status: FAILURE_STATUS as int,
        },
    }
}

/// The outcome of a run that got as far as rendering.
pub fn outcome_of(result: Result<String, RunError>) -> (r: Outcome)
    ensures
        r@ == match result {
            Ok(text) => OutcomeView::Rendered(text@),
            Err(error) => OutcomeView::Failed(error@),
        },
{
    match result {
        Ok(text) => Outcome::Rendered(text),
        Err(error) => Outcome::Failed(error),
    }
}

/// Decides what to write, where, and the exit status.
pub fn report(outcome: &Outcome) -> (r: Report)
    ensures
        r@ == report_of(outcome@),
{
    match outcome {
        Outcome::Rendered(text) => {
            let mut line = text.clone();
            line.append("\n");
            Report { stream: Stream::Stdout, text: line, status: 0 }
        },
        Outcome::Notice(text) => {
            let mut line = text.clone();
            line.append("\n");
            Report { stream: Stream::Stdout, text: line, status: 0 }
        },
        Outcome::Failed(error) => {
            let mut line = String::from_str("Error: ");
            line.append(error.message().as_str());
            line.append("\n");
            Report { stream: Stream::Stderr, text: line, status: FAILURE_STATUS }
        },
    }
}

/// `needle` stands somewhere in `text`.
pub open spec fn occurs(text: Seq<char>, needle: Seq<char>) -> bool {
    exists|at: int|
        0 <= at && at + needle.len() <= text.len() && #[trigger] text.subrange(
            at,
            at + needle.len(),
        ) == needle
}

/// Every failure, whatever its kind, is reported in the same way: one line
/// on standard error, `Error: ` and the failure's message, with status 100.
/// Nothing goes to standard output.
pub proof fn law_failure_report(error: RunErrorView)
    ensures
        report_of(OutcomeView::Failed(error)).stream == Stream::Stderr,
        report_of(OutcomeView::Failed(error)).status == 100,
        report_of(OutcomeView::Failed(error)).text == "Error: "@ + error.message() + "\n"@,
{
}

/// The report of a failure that concerns a file names the file's path, be it
/// a parameter file or the template.
pub proof fn law_file_failure_names_path(error: RunErrorView, path: Seq<char>)
    requires
        match error {
            RunErrorView::Usage { .. } => false,
            RunErrorView::ParameterFile { path: named, .. } => named == path,
            RunErrorView::TemplateLoad { path: named, .. } => named == path,
            RunErrorView::Render { path: named, .. } => named == path,
        },
    ensures
        occurs(error.message(), path),
        occurs(report_of(OutcomeView::Failed(error)).text, path),
{
    let lead = match error {
        RunErrorView::ParameterFile { .. } => "Loading parameters from '"@,
        RunErrorView::TemplateLoad { .. } => "Loading template '"@,
        _ => "Rendering '"@,
    };
    let message = error.message();
    let within: int = lead.len() as int;
    assert(message.subrange(within, within + path.len()) == path);
    let text = report_of(OutcomeView::Failed(error)).text;
    let at: int = ("Error: "@.len() + lead.len()) as int;
    assert(text.subrange(at, at + path.len()) == path);
}

} // verus!
