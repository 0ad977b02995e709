//! Rendering: what is handed to the template engine, and what becomes of
//! what the engine hands back.
//!
//! The engine itself is not called from this library. It can panic on what
//! it parses and evaluates, and its result can depend on more than the
//! template and the context (a built-in function reads the clock), so the
//! call is made by the program around the library. `prepare_run` says
//! exactly what the engine is given, and `conclude` says exactly what each
//! thing it can hand back comes to.

use crate::context::{assemble_context, assembly, context_entries, Layer};
use crate::error::{EngineError, EngineErrorView, RunError, RunErrorView};
use crate::source::{Source, SourceView};
use vstd::prelude::*;

verus! {

/// What the engine is given: the text of the template that was asked for by
/// `path`, and the context to evaluate it against.
#[derive(Debug)]
pub struct Job {
    pub path: String,
    pub text: String,
    pub context: tera::Context,
}

/// A `Job` by the text it carries and the entries of its context.
pub struct JobView {
    pub path: Seq<char>,
    pub text: Seq<char>,
    pub entries: Layer,
}

impl View for Job {
    type V = JobView;

    open spec fn view(&self) -> JobView {
        JobView { path: self.path@, text: self.text@, entries: context_entries(self.context) }
    }
}

/// What the engine made of a template's text.
#[derive(Debug)]
pub enum Rendering {
    /// The text that the template evaluates to.
    Done(String),
    /// The engine does not accept the text as a template.
    Unparsed(EngineError),
    /// The engine accepts the text and cannot evaluate it.
    Unevaluated(EngineError),
}

/// A `Rendering` by the text it carries.
pub enum RenderingView {
    Done(Seq<char>),
    Unparsed(EngineErrorView),
    Unevaluated(EngineErrorView),
}

impl View for Rendering {
    type V = RenderingView;

    open spec fn view(&self) -> RenderingView {
        match self {
            Rendering::Done(text) => RenderingView::Done(text@),
            Rendering::Unparsed(error) => RenderingView::Unparsed(error@),
            Rendering::Unevaluated(error) => RenderingView::Unevaluated(error@),
        }
    }
}

/// What preparing a run comes to: the failure of the first parameter file
/// that cannot be used; else the load failure of a template that could not
/// be read, with the description that came with it; else the job for the
/// engine, which is the template's path and text as they were given and the
/// assembled context.
pub open spec fn preparation(
    environment: Seq<(Seq<char>, Seq<char>)>,
    parameters: Seq<Seq<char>>,
    json: Seq<SourceView>,
    yaml: Seq<SourceView>,
    template: SourceView,
) -> Result<JobView, RunErrorView> {
    match assembly(environment, parameters, json, yaml) {
        Err(failure) => Err(failure),
        Ok(entries) => match template.content {
            Err(why) => Err(RunErrorView::TemplateLoad { path: template.path, reason: why }),
            Ok(text) => Ok(JobView { path: template.path, text, entries }),
        },
    }
}

/// Prepares a run from its inputs: assembles the context, then takes the
/// template's text. A parameter file that cannot be used ends the run before
/// the template is looked at. The result depends on the five arguments
/// alone.
pub fn prepare_run(
    environment: &Vec<(String, String)>,
    parameters: &Vec<String>,
    json: &Vec<Source>,
    yaml: &Vec<Source>,
    template: &Source,
) -> (r: Result<Job, RunError>)
    ensures
        match preparation(
            environment.deep_view(),
            parameters.deep_view(),
            json.deep_view(),
            yaml.deep_view(),
            template@,
        ) {
            Ok(prepared) => r matches Ok(job) && job@ == prepared,
            Err(failure) => r matches Err(error) && error@ == failure,
        },
{
    match assemble_context(environment, parameters, json, yaml) {
        Err(error) => Err(error),
        Ok(context) => match &template.content {
            Err(why) => Err(
                RunError::TemplateLoad { path: template.path.clone(), reason: why.clone() },
            ),
            Ok(text) => Ok(Job { path: template.path.clone(), text: text.clone(), context }),
        },
    }
}

/// What a rendering of the template at `path` comes to. Text stays as it is.
/// A template that does not parse is a load failure, with the most specific
/// of the engine's words as its reason. A template that cannot be evaluated
/// is a render failure that keeps all the engine reported, so that its
/// message can prefer the underlying cause.
pub open spec fn conclusion(path: Seq<char>, rendering: RenderingView) -> Result<
    Seq<char>,
    RunErrorView,
> {
    match rendering {
        RenderingView::Done(text) => Ok(text),
        RenderingView::Unparsed(error) => Err(
            RunErrorView::TemplateLoad { path, reason: error.specific() },
        ),
        RenderingView::Unevaluated(error) => Err(RunErrorView::Render { path, error }),
    }
}

/// Turns what the engine made of the template at `path` into the result of
/// the run.
pub fn conclude(path: &str, rendering: Rendering) -> (r: Result<String, RunError>)
    ensures
        match conclusion(path@, rendering@) {
            Ok(text) => r matches Ok(rendered) && rendered@ == text,
            Err(failure) => r matches Err(error) && error@ == failure,
        },
{
    match rendering {
        Rendering::Done(text) => Ok(text),
        Rendering::Unparsed(error) => Err(
            RunError::TemplateLoad { path: path.to_owned(), reason: error.specific() },
        ),
        Rendering::Unevaluated(error) => Err(RunError::Render { path: path.to_owned(), error }),
    }
}

/// What a run comes to, given what the engine makes of the prepared job.
/// Where preparing fails the engine is not asked, and the failure stands.
pub open spec fn run_result(
    environment: Seq<(Seq<char>, Seq<char>)>,
    parameters: Seq<Seq<char>>,
    json: Seq<SourceView>,
    yaml: Seq<SourceView>,
    template: SourceView,
    rendering: RenderingView,
) -> Result<Seq<char>, RunErrorView> {
    match preparation(environment, parameters, json, yaml, template) {
        Err(failure) => Err(failure),
        Ok(job) => conclusion(job.path, rendering),
    }
}

/// The result of a run by the text it carries.
pub open spec fn result_view(result: Result<String, RunError>) -> Result<Seq<char>, RunErrorView> {
    match result {
        Ok(text) => Ok(text@),
        Err(error) => Err(error@),
    }
}

/// One run from its inputs: prepares the job, hands it to `engine`, and
/// concludes from what the engine hands back. Where preparing fails the
/// engine is not called and the failure is the result. Otherwise the engine
/// is called once, on the text and the context of the prepared job, and the
/// result is what `conclude` makes of what it hands back.
///
/// The engine is a parameter because the template engine can panic: the
/// caller decides how a panic is turned into a `Rendering`. It has to take
/// every text and every context.
pub fn run_app<F: FnOnce(&str, &tera::Context) -> Rendering>(
    environment: &Vec<(String, String)>,
    parameters: &Vec<String>,
    json: &Vec<Source>,
    yaml: &Vec<Source>,
    template: &Source,
    engine: F,
) -> (r: Result<String, RunError>)
    requires
        forall|text: &str, context: &tera::Context| engine.requires((text, context)),
    ensures
        match preparation(
            environment.deep_view(),
            parameters.deep_view(),
            json.deep_view(),
            yaml.deep_view(),
            template@,
        ) {
            Err(failure) => r matches Err(error) && error@ == failure,
            Ok(job) => exists|text: &str, context: &tera::Context, rendering: Rendering|
                {
                    &&& text@ == job.text
                    &&& context_entries(*context) == job.entries
                    &&& #[trigger] engine.ensures((text, context), rendering)
                    &&& result_view(r) == conclusion(job.path, rendering@)
                },
        },
{
    match prepare_run(environment, parameters, json, yaml, template) {
        Err(error) => Err(error),
        Ok(job) => {
            let text = job.text.as_str();
            let rendering = engine(text, &job.context);
            let ghost made = rendering;
            let r = conclude(job.path.as_str(), rendering);
            assert(engine.ensures((text, &job.context), made));
            r
        },
    }
}

/// Two runs on the same inputs come to the same result, text for text and
/// failure for failure, if the engine makes the same of the job in both.
/// Nothing else enters: the job is determined by the inputs, and where
/// preparing fails the result does not depend on the engine at all.
pub proof fn law_run_is_determined(
    environment: Seq<(Seq<char>, Seq<char>)>,
    parameters: Seq<Seq<char>>,
    json: Seq<SourceView>,
    yaml: Seq<SourceView>,
    template: SourceView,
    first: RenderingView,
    second: RenderingView,
)
    requires
        preparation(environment, parameters, json, yaml, template) is Ok ==> first == second,
    ensures
        run_result(environment, parameters, json, yaml, template, first) == run_result(
            environment,
            parameters,
            json,
            yaml,
            template,
            second,
        ),
{
}

} // verus!
