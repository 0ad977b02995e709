//! The ways a run can fail, and the one line that reports each.

use vstd::prelude::*;
use vstd::string::StringExecFns;

verus! {

/// What the template engine reported: a message of its own, and under it,
/// where the engine gave one, the cause that led to it.
#[derive(Debug)]
pub enum EngineError {
    Plain { message: String },
    Caused { message: String, cause: String },
}

/// An `EngineError` by the text it carries.
pub enum EngineErrorView {
    Plain { message: Seq<char> },
    Caused { message: Seq<char>, cause: Seq<char> },
}

impl View for EngineError {
    type V = EngineErrorView;

    open spec fn view(&self) -> EngineErrorView {
        match self {
            EngineError::Plain { message } => EngineErrorView::Plain { message: message@ },
            EngineError::Caused { message, cause } => EngineErrorView::Caused {
                message: message@,
                cause: cause@,
            },
        }
    }
}

impl EngineErrorView {
    /// The most specific text at hand: the cause where there is one, else the
    /// message.
    pub open spec fn specific(self) -> Seq<char> {
        match self {
            EngineErrorView::Plain { message } => message,
            EngineErrorView::Caused { cause, .. } => cause,
        }
    }
}

impl EngineError {
    /// The most specific text at hand: the cause where there is one, else the
    /// message.
    pub fn specific(&self) -> (r: String)
        ensures
            r@ == self@.specific(),
    {
        match self {
            EngineError::Plain { message } => message.clone(),
            EngineError::Caused { cause, .. } => cause.clone(),
        }
    }
}

/// Why a run ended without rendered text.
#[derive(Debug)]
pub enum RunError {
    /// The command line does not fit the declared options.
    Usage { message: String },
    /// A parameter file is missing, unreadable, malformed, or holds something
    /// other than a key-value mapping at its top level.
    ParameterFile { path: String, reason: String },
    /// The template file is missing, unreadable, or does not parse.
    TemplateLoad { path: String, reason: String },
    /// The template parsed, and evaluating it against the context failed.
    Render { path: String, error: EngineError },
}

/// A `RunError` by the text it carries.
pub enum RunErrorView {
    Usage { message: Seq<char> },
    ParameterFile { path: Seq<char>, reason: Seq<char> },
    TemplateLoad { path: Seq<char>, reason: Seq<char> },
    Render { path: Seq<char>, error: EngineErrorView },
}

impl View for RunError {
    type V = RunErrorView;

    open spec fn view(&self) -> RunErrorView {
        match self {
            RunError::Usage { message } => RunErrorView::Usage { message: message@ },
            RunError::ParameterFile { path, reason } => RunErrorView::ParameterFile {
                path: path@,
                reason: reason@,
            },
            RunError::TemplateLoad { path, reason } => RunErrorView::TemplateLoad {
                path: path@,
                reason: reason@,
            },
            RunError::Render { path, error } => RunErrorView::Render { path: path@, error: error@ },
        }
    }
}

impl RunErrorView {
    /// The line that describes the failure. A failure that concerns a file
    /// names the file's path between single quotes; a render failure then
    /// gives the engine's underlying cause where it reported one, and its own
    /// message where it did not.
    pub open spec fn message(self) -> Seq<char> {
        match self {
            RunErrorView::Usage { message } => message,
            RunErrorView::ParameterFile { path, reason } => "Loading parameters from '"@ + path
                + "' fails because: "@ + reason,
            RunErrorView::TemplateLoad { path, reason } => "Loading template '"@ + path
                + "' fails because: "@ + reason,
            RunErrorView::Render { path, error } => match error {
                EngineErrorView::Caused { cause, .. } => "Rendering '"@ + path
                    + "' fails because: "@ + cause,
                EngineErrorView::Plain { message } => "Rendering '"@ + path + "' failure: "@
                    + message,
            },
        }
    }
}

impl RunError {
    /// The line that describes the failure.
    pub fn message(&self) -> (r: String)
        ensures
            r@ == self@.message(),
    {
        match self {
            RunError::Usage { message } => message.clone(),
            RunError::ParameterFile { path, reason } => quoted(
                "Loading parameters from '",
                path.as_str(),
                "' fails because: ",
                reason.as_str(),
            ),
            RunError::TemplateLoad { path, reason } => quoted(
                "Loading template '",
                path.as_str(),
                "' fails because: ",
                reason.as_str(),
            ),
            RunError::Render { path, error } => match error {
                EngineError::Caused { cause, .. } => quoted(
                    "Rendering '",
                    path.as_str(),
                    "' fails because: ",
                    cause.as_str(),
                ),
                EngineError::Plain { message } => quoted(
                    "Rendering '",
                    path.as_str(),
                    "' failure: ",
                    message.as_str(),
                ),
            },
        }
    }
}

/// The four pieces in a row.
fn quoted(lead: &str, path: &str, link: &str, detail: &str) -> (r: String)
    ensures
        r@ == lead@ + path@ + link@ + detail@,
{
    let mut text = String::from_str(lead);
    text.append(path);
    text.append(link);
    text.append(detail);
    text
}

} // verus!
