//! The command line: the options that the program declares, and the record
//! that a command line comes to.
//!
//! Parsing is clap's. The declared options are plain data of this library;
//! one trusted wrapper turns them into a `clap::App`, runs clap on the
//! arguments and hands back the values that each option was given.

use crate::error::{RunError, RunErrorView};
use vstd::prelude::*;

verus! {

/// What the program says of itself in its help text.
#[derive(Debug)]
pub struct Program {
    pub name: String,
    pub version: String,
    pub authors: String,
    pub about: String,
}

/// A `Program` by the text it carries.
pub struct ProgramView {
    pub name: Seq<char>,
    pub version: Seq<char>,
    pub authors: Seq<char>,
    pub about: Seq<char>,
}

impl View for Program {
    type V = ProgramView;

    open spec fn view(&self) -> ProgramView {
        ProgramView {
            name: self.name@,
            version: self.version@,
            authors: self.authors@,
            about: self.about@,
        }
    }
}

/// One declared option. Every option takes a value; it is given as
/// `--long VALUE` or `-s VALUE`.
#[derive(Debug)]
pub struct OptionSpec {
    /// The name under which the option's values are found after parsing.
    pub name: String,
    /// The short form, one character, without the dash.
    pub short: String,
    /// The long form, without the dashes.
    pub long: String,
    /// How the value is called in the usage text.
    pub value_name: String,
    pub help: String,
    /// The command line must give the option.
    pub required: bool,
    /// The command line may give the option more than once.
    pub repeatable: bool,
}

/// An `OptionSpec` by the text it carries.
pub struct OptionSpecView {
    pub name: Seq<char>,
    pub short: Seq<char>,
    pub long: Seq<char>,
    pub value_name: Seq<char>,
    pub help: Seq<char>,
    pub required: bool,
    pub repeatable: bool,
}

impl View for OptionSpec {
    type V = OptionSpecView;

    open spec fn view(&self) -> OptionSpecView {
        OptionSpecView {
            name: self.name@,
            short: self.short@,
            long: self.long@,
            value_name: self.value_name@,
            help: self.help@,
            required: self.required,
            repeatable: self.repeatable,
        }
    }
}

impl DeepView for OptionSpec {
    type V = OptionSpecView;

    open spec fn deep_view(&self) -> OptionSpecView {
        self@
    }
}

/// What a command line asks for.
#[derive(Debug)]
pub struct Options {
    /// The path of the template file.
    pub template: String,
    /// The parameters, `key=value` or bare `key`, in the order given.
    pub params: Vec<String>,
    /// The paths of the JSON parameter files, in the order given.
    pub json: Vec<String>,
    /// The paths of the YAML parameter files, in the order given.
    pub yaml: Vec<String>,
}

/// An `Options` by the text it carries.
pub struct OptionsView {
    pub template: Seq<char>,
    pub params: Seq<Seq<char>>,
    pub json: Seq<Seq<char>>,
    pub yaml: Seq<Seq<char>>,
}

impl View for Options {
    type V = OptionsView;

    open spec fn view(&self) -> OptionsView {
        OptionsView {
            template: self.template@,
            params: self.params.deep_view(),
            json: self.json.deep_view(),
            yaml: self.yaml.deep_view(),
        }
    }
}

/// What parsing a command line gives where it does not fail.
#[derive(Debug)]
pub enum Parsed {
    /// A run with these options.
    Run(Options),
    /// The command line asked for this text (help) and for nothing else.
    Notice(String),
}

/// A `Parsed` by the text it carries.
pub enum ParsedView {
    Run(OptionsView),
    Notice(Seq<char>),
}

impl View for Parsed {
    type V = ParsedView;

    open spec fn view(&self) -> ParsedView {
        match self {
            Parsed::Run(options) => ParsedView::Run(options@),
            Parsed::Notice(text) => ParsedView::Notice(text@),
        }
    }
}

/// An option with the long form of its name.
pub open spec fn declared(
    name: Seq<char>,
    short: Seq<char>,
    value_name: Seq<char>,
    help: Seq<char>,
    required: bool,
    repeatable: bool,
) -> OptionSpecView {
    OptionSpecView { name, short, long: name, value_name, help, required, repeatable }
}

/// The options that the program declares: `template`, required and given
/// once; `param`, `json` and `yaml`, each optional and repeatable.
pub open spec fn declared_options() -> Seq<OptionSpecView> {
    seq![
        declared("template"@, "t"@, "FILE"@, "Template file to use"@, true, false),
        declared(
            "param"@,
            "p"@,
            "param"@,
            "Sets a parameter for the template in a key=value format"@,
            false,
            true,
        ),
        declared("json"@, "j"@, "FILE"@, "Loads parameters from a json file"@, false, true),
        declared("yaml"@, "y"@, "FILE"@, "Loads parameters from a yaml file"@, false, true),
    ]
}

/// `clap::Error`, why clap did not accept a command line, taken as opaque.
#[verifier::external_type_specification]
#[verifier::external_body]
pub struct ExClapError(clap::Error);

/// What clap makes of a command line. Where it accepts the line: what it
/// finds for each option, in the order of the options, that is the option's
/// values in the order given, or `None` for an option that the line does
/// not give. Where it does not accept the line: whether it holds the line
/// to be wrong (`true`), or was only asked for its help text (`false`).
pub uninterp spec fn clap_verdict(
    program: ProgramView,
    options: Seq<OptionSpecView>,
    arguments: Seq<Seq<char>>,
) -> Result<Seq<Option<Seq<Seq<char>>>>, bool>;

/// Trusted: builds a `clap::App` with one value-taking `clap::Arg` for each
/// option and without clap's own version flag (clap would write the version
/// line to standard output itself), runs `App::get_matches_from_safe` on the
/// arguments (the first of which is the program's own name) and reads what
/// was found for each option with `ArgMatches::values_of_lossy`. A refusal
/// comes with what `clap::Error::use_stderr` says of it: `false` exactly
/// where clap was asked for its help text. What clap finds, and whether it
/// holds a line to be wrong, depend on the program, the options and the
/// arguments alone. It is called with the declared options only.
#[verifier::external_body]
fn clap_parse(program: &Program, options: &Vec<OptionSpec>, arguments: &Vec<String>) -> (r: Result<
    Vec<Option<Vec<String>>>,
    (bool, clap::Error),
>)
    requires
        options.deep_view() == declared_options(),
    ensures
        clap_verdict(program@, options.deep_view(), arguments.deep_view()) == match r {
            Ok(values) => Ok(values.deep_view()),
            Err(refusal) => Err(refusal.0),
        },
{
    let declared: Vec<clap::Arg> = options.iter().map(
        |o| clap::Arg::with_name(&o.name).short(&o.short).long(&o.long).value_name(&o.value_name)
            .help(&o.help).required(o.required).multiple(o.repeatable),
    ).collect();
    let matches = clap::App::new(&*program.name).version(&*program.version)
        .author(&*program.authors).about(&*program.about).args(&declared)
        .setting(clap::AppSettings::DisableVersion).get_matches_from_safe(arguments)
        .map_err(|e| (e.use_stderr(), e))?;
    Ok(options.iter().map(|o| matches.values_of_lossy(&o.name)).collect())
}

/// Trusted: the `message` of a `clap::Error`. Nothing is claimed of it; clap
/// colours it where standard error is a terminal.
#[verifier::external_body]
fn clap_message(error: &clap::Error) -> (r: String) {
    error.message.clone()
}

/// One declared option.
fn option(
    name: &str,
    short: &str,
    value_name: &str,
    help: &str,
    required: bool,
    repeatable: bool,
) -> (r: OptionSpec)
    ensures
        r@ == declared(name@, short@, value_name@, help@, required, repeatable),
{
    OptionSpec {
        name: name.to_owned(),
        short: short.to_owned(),
        long: name.to_owned(),
        value_name: value_name.to_owned(),
        help: help.to_owned(),
        required,
        repeatable,
    }
}

/// The options that the program declares.
pub fn option_schema() -> (r: Vec<OptionSpec>)
    ensures
        r.deep_view() == declared_options(),
{
    let mut schema: Vec<OptionSpec> = Vec::new();
    schema.push(option("template", "t", "FILE", "Template file to use", true, false));
    schema.push(
        option(
            "param",
            "p",
            "param",
            "Sets a parameter for the template in a key=value format",
            false,
            true,
        ),
    );
    schema.push(option("json", "j", "FILE", "Loads parameters from a json file", false, true));
    schema.push(option("yaml", "y", "FILE", "Loads parameters from a yaml file", false, true));
    assert(schema.deep_view() =~= declared_options());
    schema
}

/// The values of an option, none where the command line does not give it.
pub open spec fn given(values: Option<Seq<Seq<char>>>) -> Seq<Seq<char>> {
    match values {
        Some(values) => values,
        None => Seq::empty(),
    }
}

/// The options that what was found for `template`, `param`, `json` and
/// `yaml`, in this order, comes to: `None` unless there is an entry for each
/// of these four options and exactly one value for `template`.
pub open spec fn selection(values: Seq<Option<Seq<Seq<char>>>>) -> Option<OptionsView> {
    if values.len() == 4 && given(values[0]).len() == 1 {
        Some(
            OptionsView {
                template: given(values[0])[0],
                params: given(values[1]),
                json: given(values[2]),
                yaml: given(values[3]),
            },
        )
    } else {
        None
    }
}

/// What is said of values that do not come to options.
pub open spec fn no_single_template() -> Seq<char> {
    "the command line does not name exactly one template"@
}

/// The values of an option, none where the command line does not give it.
fn take_given(values: Option<Vec<String>>) -> (r: Vec<String>)
    ensures
        r.deep_view() == given(values.deep_view()),
{
    match values {
        Some(values) => values,
        None => {
            let none: Vec<String> = Vec::new();
            assert(none.deep_view() == Seq::<Seq<char>>::empty());
            none
        },
    }
}

/// Makes the options record from what was found for the declared options,
/// in the order of their declaration.
pub fn select_options(values: Vec<Option<Vec<String>>>) -> (r: Result<Options, RunError>)
    ensures
        match selection(values.deep_view()) {
            Some(options) => r matches Ok(selected) && selected@ == options,
            None => r matches Err(error) && error@ == (RunErrorView::Usage {
                message: no_single_template(),
            }),
        },
{
    let ghost found = values.deep_view();
    let mut values = values;
    if values.len() == 4 {
        let yaml = values.pop().unwrap();
        let json = values.pop().unwrap();
        let params = values.pop().unwrap();
        let templates = values.pop().unwrap();
        assert(yaml.deep_view() == found[3]);
        assert(json.deep_view() == found[2]);
        assert(params.deep_view() == found[1]);
        assert(templates.deep_view() == found[0]);
        let mut templates = take_given(templates);
        if templates.len() == 1 {
            let template = templates.pop().unwrap();
            assert(template@ == given(found[0])[0]);
            return Ok(
                Options {
                    template,
                    params: take_given(params),
                    json: take_given(json),
                    yaml: take_given(yaml),
                },
            );
        }
    }
    Err(
        RunError::Usage {
            message: "the command line does not name exactly one template".to_owned(),
        },
    )
}

/// What a command line that clap does not accept comes to: a usage error
/// with clap's message where clap holds the line to be wrong, and a notice
/// with clap's help text where that is all the line asked for.
pub open spec fn refusal(failed: bool, message: Seq<char>) -> Result<ParsedView, RunErrorView> {
    if failed {
        Err(RunErrorView::Usage { message })
    } else {
        Ok(ParsedView::Notice(message))
    }
}

/// Turns clap's refusal of a command line into the result of parsing it.
/// `failed` says whether clap holds the command line to be wrong.
pub fn refuse(failed: bool, message: String) -> (r: Result<Parsed, RunError>)
    ensures
        match refusal(failed, message@) {
            Ok(parsed) => r matches Ok(notice) && notice@ == parsed,
            Err(failure) => r matches Err(error) && error@ == failure,
        },
{
    if failed {
        Err(RunError::Usage { message })
    } else {
        Ok(Parsed::Notice(message))
    }
}

/// Parses a command line, the program's own name first. Where clap accepts
/// it, the result is the options that its values come to. Where clap holds
/// it to be wrong, the result is a usage error with clap's message; a flag
/// that is not declared, `--version` among them, is such a case. Where the
/// line only asks for help, the result is a notice with clap's help text.
pub fn command_line(program: &Program, arguments: &Vec<String>) -> (r: Result<Parsed, RunError>)
    ensures
        match clap_verdict(program@, declared_options(), arguments.deep_view()) {
            Ok(values) => match selection(values) {
                Some(options) => r matches Ok(Parsed::Run(selected)) && selected@ == options,
                None => r matches Err(error) && error@ == (RunErrorView::Usage {
                    message: no_single_template(),
                }),
            },
            Err(failed) => if failed {
                r matches Err(error) && error@ is Usage
            } else {
                r matches Ok(parsed) && parsed@ is Notice
            },
        },
{
    let schema = option_schema();
    match clap_parse(program, &schema, arguments) {
        Ok(values) => match select_options(values) {
            Ok(options) => Ok(Parsed::Run(options)),
            Err(error) => Err(error),
        },
        Err(refused) => {
            let message = clap_message(&refused.1);
            refuse(refused.0, message)
        },
    }
}

} // verus!
