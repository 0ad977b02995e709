//! Context assembly: the rules by which environment variables, command-line
//! parameters and parameter files become the one key-value context that a
//! template is rendered against.
//!
//! The context is a `tera::Context`, which the verifier cannot look into.
//! `context_entries` names what it holds, and the two trusted items below
//! (`Context::new`, `Context::insert`) say how those calls change it.
//! Everything else in this file is proved from them.

use crate::error::{RunError, RunErrorView};
use crate::json::{
    decode, decoding, document_layer, entry_views, holds_entries, json_view, value_from_flag,
    value_from_text, value_object_entries, variables, variables_value, Format, Json,
};
use crate::source::{Source, SourceView};
use vstd::prelude::*;
use vstd::string::StrSliceExecFns;

verus! {

/// `tera::Context`, the engine's key-value context, taken as opaque.
#[verifier::external_type_specification]
#[verifier::external_body]
pub struct ExContext(tera::Context);

/// A set of key-value entries: what a context holds, and what each source
/// contributes to it.
pub type Layer = Map<Seq<char>, Json>;

/// The entries that a context holds.
pub uninterp spec fn context_entries(context: tera::Context) -> Map<Seq<char>, Json>;

/// Trusted: `tera::Context::new` gives a context without entries.
pub assume_specification[ tera::Context::new ]() -> (r: tera::Context)
    ensures
        context_entries(r) == Layer::empty(),
;

/// Trusted: `tera::Context::insert` with a `serde_json::Value`. The context
/// then holds the value's tree under `key`, in place of whatever it held
/// there, and all its other entries as before.
#[verifier::external_body]
fn context_insert(context: &mut tera::Context, key: &str, value: &serde_json::Value)
    ensures
        context_entries(*final(context)) == context_entries(*old(context)).insert(
            key@,
            json_view(*value),
        ),
{
    context.insert(key, value);
}

/// The key under which the environment variables stand.
pub open spec fn environment_key() -> Seq<char> {
    "env"@
}

/// `base` with each layer laid over it in turn: where a key occurs more than
/// once, the entry of the last layer that has it stays.
pub open spec fn overlay(base: Layer, layers: Seq<Layer>) -> Layer
    decreases layers.len(),
{
    if layers.len() == 0 {
        base
    } else {
        overlay(base, layers.drop_last()).union_prefer_right(layers.last())
    }
}

/// The key that a parameter sets: what stands before its first `=`, or all of
/// it where it has none.
pub open spec fn parameter_key(parameter: Seq<char>) -> Seq<char> {
    match parameter.index_of_first('=') {
        Some(at) => parameter.subrange(0, at),
        None => parameter,
    }
}

/// The value that a parameter sets: the text that follows its first `=`,
/// taken as it is, or `true` where it has none.
pub open spec fn parameter_value(parameter: Seq<char>) -> Json {
    match parameter.index_of_first('=') {
        Some(at) => Json::Text(parameter.subrange(at + 1, parameter.len() as int)),
        None => Json::Bool(true),
    }
}

/// The single entry that a parameter contributes.
pub open spec fn parameter_layer(parameter: Seq<char>) -> Layer {
    Map::empty().insert(parameter_key(parameter), parameter_value(parameter))
}

/// The layers of a list of parameters, in the order given.
pub open spec fn parameter_layers(parameters: Seq<Seq<char>>) -> Seq<Layer> {
    Seq::new(parameters.len(), |i: int| parameter_layer(parameters[i]))
}

/// The single entry that the environment contributes: all variables
/// together, as one mapping under `env`.
pub open spec fn environment_layer(environment: Seq<(Seq<char>, Seq<char>)>) -> Layer {
    Map::empty().insert(environment_key(), Json::Object(variables(environment)))
}

/// The entries that a parameter file contributes: `None` where it could not
/// be read, does not decode, or holds anything but a key-value mapping.
pub open spec fn source_layer(format: Format, source: SourceView) -> Option<Layer> {
    match source.content {
        Ok(text) => document_layer(format, text),
        Err(_) => None,
    }
}

/// The layers of a list of parameter files, in the order given. It is meant
/// for lists in which every file contributes one.
pub open spec fn source_layers(format: Format, sources: Seq<SourceView>) -> Seq<Layer> {
    Seq::new(sources.len(), |i: int| source_layer(format, sources[i]).unwrap())
}

/// The position of the first file in the list that contributes no layer.
pub open spec fn first_unusable(format: Format, sources: Seq<SourceView>) -> Option<int> {
    Seq::new(sources.len(), |i: int| source_layer(format, sources[i]) is None).index_of_first(true)
}

/// What `first_unusable` picks: the file at that position contributes no
/// layer and every file before it contributes one; where it picks none,
/// every file of the list contributes one.
pub proof fn lemma_first_unusable(format: Format, sources: Seq<SourceView>)
    ensures
        match first_unusable(format, sources) {
            Some(at) => {
                &&& 0 <= at < sources.len()
                &&& source_layer(format, sources[at]) is None
                &&& forall|before: int|
                    0 <= before < at ==> source_layer(format, #[trigger] sources[before]) is Some
            },
            None => forall|at: int|
                0 <= at < sources.len() ==> source_layer(format, #[trigger] sources[at]) is Some,
        },
{
    let unusable = Seq::new(sources.len(), |i: int| source_layer(format, sources[i]) is None);
    unusable.index_of_first_ensures(true);
    match first_unusable(format, sources) {
        Some(at) => {
            assert(unusable[at]);
            assert forall|before: int| 0 <= before < at implies source_layer(
                format,
                #[trigger] sources[before],
            ) is Some by {
                assert(!unusable[before]);
            }
        },
        None => {
            assert forall|at: int| 0 <= at < sources.len() implies source_layer(
                format,
                #[trigger] sources[at],
            ) is Some by {
                assert(unusable[at] == (source_layer(format, sources[at]) is None));
                assert(!unusable.contains(true));
            }
        },
    }
}

/// What is said of a top-level value that is no key-value mapping.
pub open spec fn not_a_mapping() -> Seq<char> {
    "the top level of the document is not a key-value mapping"@
}

/// The failure that a parameter file which contributes no layer is reported
/// with: a parameter-file error that names the file's path. For a file that
/// could not be read the reason is the description that came with it, for
/// text that does not decode it is the decoder's description, and for a
/// document of the wrong shape it says so.
pub open spec fn source_failure(format: Format, source: SourceView) -> RunErrorView {
    RunErrorView::ParameterFile {
        path: source.path,
        reason: match source.content {
            Err(why) => why,
            Ok(text) => match decoding(format, text) {
                Err(why) => why,
                Ok(_) => not_a_mapping(),
            },
        },
    }
}

/// What assembly comes to: the entries of the finished context, or the
/// failure of the parameter file that stops it. JSON files are looked at
/// before YAML files, each kind in the order given.
pub open spec fn assembly(
    environment: Seq<(Seq<char>, Seq<char>)>,
    parameters: Seq<Seq<char>>,
    json: Seq<SourceView>,
    yaml: Seq<SourceView>,
) -> Result<Layer, RunErrorView> {
    match first_unusable(Format::Json, json) {
        Some(at) => Err(source_failure(Format::Json, json[at])),
        None => match first_unusable(Format::Yaml, yaml) {
            Some(at) => Err(source_failure(Format::Yaml, yaml[at])),
            None => Ok(
                layered(
                    environment,
                    parameters,
                    source_layers(Format::Json, json),
                    source_layers(Format::Yaml, yaml),
                ),
            ),
        },
    }
}

/// The context that the four kinds of source give together. Precedence rises
/// from left to right: the environment, then the parameters, then the JSON
/// documents, then the YAML documents, and within each kind from first to
/// last.
pub open spec fn layered(
    environment: Seq<(Seq<char>, Seq<char>)>,
    parameters: Seq<Seq<char>>,
    json: Seq<Layer>,
    yaml: Seq<Layer>,
) -> Layer {
    overlay(
        Map::empty(),
        seq![environment_layer(environment)] + parameter_layers(parameters) + json + yaml,
    )
}

/// Laying `first` and then `second` over a base is laying their
/// concatenation over it.
pub proof fn lemma_overlay_concat(base: Layer, first: Seq<Layer>, second: Seq<Layer>)
    ensures
        overlay(overlay(base, first), second) == overlay(base, first + second),
    decreases second.len(),
{
    if second.len() == 0 {
        assert(first + second == first);
    } else {
        lemma_overlay_concat(base, first, second.drop_last());
        assert((first + second).drop_last() == first + second.drop_last());
        assert((first + second).last() == second.last());
    }
}

/// Laying a single layer over a base.
pub proof fn lemma_overlay_one(base: Layer, layer: Layer)
    ensures
        overlay(base, seq![layer]) == base.union_prefer_right(layer),
{
    assert(seq![layer].drop_last() == Seq::<Layer>::empty());
    assert(overlay(base, seq![layer].drop_last()) == base);
}

/// Divides a parameter at its first `=` into key and value. A parameter
/// without `=` is all key and has no value.
pub fn split_parameter(parameter: &str) -> (r: (String, Option<String>))
    ensures
        r.0@ == parameter_key(parameter@),
        match r.1 {
            Some(text) => parameter_value(parameter@) == Json::Text(text@),
            None => parameter_value(parameter@) == Json::Bool(true),
        },
        r.1 is Some <==> parameter@.contains('='),
{
    let length = parameter.unicode_len();
    let mut position: usize = 0;
    for c in it: parameter.chars()
        invariant
            it.seq() == parameter@,
            length == parameter@.len(),
            position == it.index(),
            forall|j: int| 0 <= j < position ==> parameter@[j] != '=',
    {
        if c == '=' {
            proof {
                parameter@.index_of_first_ensures('=');
            }
            let key = parameter.substring_char(0, position);
            let value = parameter.substring_char(position + 1, length);
            return (key.to_owned(), Some(value.to_owned()));
        }
        position = position + 1;
    }
    proof {
        parameter@.index_of_first_ensures('=');
    }
    (parameter.to_owned(), None)
}

/// Sets the entry that one parameter denotes.
fn add_parameter(context: &mut tera::Context, parameter: &str)
    ensures
        context_entries(*final(context)) == context_entries(*old(context)).union_prefer_right(
            parameter_layer(parameter@),
        ),
{
    let (key, value) = split_parameter(parameter);
    let value = match value {
        Some(text) => value_from_text(text.as_str()),
        None => value_from_flag(true),
    };
    context_insert(context, key.as_str(), &value);
    assert(context_entries(*old(context)).insert(
        parameter_key(parameter@),
        parameter_value(parameter@),
    ) == context_entries(*old(context)).union_prefer_right(parameter_layer(parameter@)));
}

/// Sets one entry for each parameter, in the order given, so that of two
/// parameters with one key the later stays. `key=value` sets `key` to the
/// text `value`; a bare `key` sets it to `true`.
pub fn add_parameters(context: &mut tera::Context, parameters: &Vec<String>)
    ensures
        context_entries(*final(context)) == overlay(
            context_entries(*old(context)),
            parameter_layers(parameters.deep_view()),
        ),
{
    let ghost all = parameter_layers(parameters.deep_view());
    for i in 0..parameters.len()
        invariant
            all == parameter_layers(parameters.deep_view()),
            context_entries(*context) == overlay(context_entries(*old(context)), all.take(i as int)),
    {
        add_parameter(context, parameters[i].as_str());
        proof {
            assert(all.take(i + 1).drop_last() == all.take(i as int));
            assert(all.take(i + 1).last() == parameter_layer(parameters[i as int]@));
        }
    }
    proof {
        assert(all.take(parameters.len() as int) == all);
    }
}

/// Sets `env` to one mapping from each variable's name to its value. The
/// variables never become entries of the context themselves.
pub fn add_environment(context: &mut tera::Context, environment: &Vec<(String, String)>)
    ensures
        context_entries(*final(context)) == context_entries(*old(context)).union_prefer_right(
            environment_layer(environment.deep_view()),
        ),
{
    let value = variables_value(environment);
    context_insert(context, "env", &value);
    assert(context_entries(*old(context)).insert(
        environment_key(),
        Json::Object(variables(environment.deep_view())),
    ) == context_entries(*old(context)).union_prefer_right(
        environment_layer(environment.deep_view()),
    ));
}

/// The entries of `object` whose keys are among the first `count` of
/// `entries`.
spec fn listed(object: Layer, entries: Seq<(Seq<char>, Json)>, count: int) -> Layer {
    Map::new(
        |key: Seq<char>| exists|j: int| 0 <= j < count && #[trigger] entries[j].0 == key,
        |key: Seq<char>| object[key],
    )
}

/// Merges a decoded document into the context, entry by entry: each of its
/// top-level keys is set to its value, in place of what the context held
/// there. Only a key-value mapping can be merged; for any other value the
/// context stays as it is and the result is `false`.
pub fn merge_document(context: &mut tera::Context, document: serde_json::Value) -> (merged: bool)
    ensures
        merged <==> json_view(document) is Object,
        merged ==> context_entries(*final(context)) == context_entries(
            *old(context),
        ).union_prefer_right(json_view(document)->Object_0),
        !merged ==> context_entries(*final(context)) == context_entries(*old(context)),
{
    let ghost object = json_view(document)->Object_0;
    match value_object_entries(document) {
        None => false,
        Some(entries) => {
            let ghost views = entry_views(entries@);
            for i in 0..entries.len()
                invariant
                    views == entry_views(entries@),
                    holds_entries(object, views),
                    context_entries(*context) == context_entries(*old(context)).union_prefer_right(
                        listed(object, views, i as int),
                    ),
            {
                let ghost before = context_entries(*context);
                context_insert(context, entries[i].0.as_str(), &entries[i].1);
                proof {
                    let key = views[i as int].0;
                    assert(object.contains_key(key) && object[key] == views[i as int].1);
                    assert(listed(object, views, i + 1) =~= listed(object, views, i as int).insert(
                        key,
                        object[key],
                    ));
                    assert(before.insert(key, object[key]) =~= context_entries(
                        *old(context),
                    ).union_prefer_right(listed(object, views, i + 1)));
                }
            }
            proof {
                assert(listed(object, views, entries.len() as int) =~= object);
            }
            true
        },
    }
}

/// Merges one parameter file into the context. A file that contributes no
/// layer leaves the context as it is and is reported by its path, with the
/// reason that `source_failure` gives.
pub fn add_source(context: &mut tera::Context, format: Format, source: &Source) -> (r: Result<
    (),
    RunError,
>)
    ensures
        match source_layer(format, source@) {
            Some(layer) => r is Ok && context_entries(*final(context)) == context_entries(
                *old(context),
            ).union_prefer_right(layer),
            None => context_entries(*final(context)) == context_entries(*old(context)) && (
            r matches Err(error) && error@ == source_failure(format, source@)),
        },
{
    match &source.content {
        Err(why) => Err(RunError::ParameterFile { path: source.path.clone(), reason: why.clone() }),
        Ok(text) => match decode(format, text.as_str()) {
            Err(reason) => Err(RunError::ParameterFile { path: source.path.clone(), reason }),
            Ok(document) => {
                if merge_document(context, document) {
                    Ok(())
                } else {
                    Err(
                        RunError::ParameterFile {
                            path: source.path.clone(),
                            reason: "the top level of the document is not a key-value mapping".to_owned(),
                        },
                    )
                }
            },
        },
    }
}

/// Merges parameter files into the context in the order given, so that of
/// two files with one key the later stays. The first file that contributes
/// no layer ends the work: the files before it are merged, and it is
/// reported by its path.
pub fn add_sources(context: &mut tera::Context, format: Format, sources: &Vec<Source>) -> (r:
    Result<(), RunError>)
    ensures
        match first_unusable(format, sources.deep_view()) {
            None => r is Ok && context_entries(*final(context)) == overlay(
                context_entries(*old(context)),
                source_layers(format, sources.deep_view()),
            ),
            Some(at) => 0 <= at < sources.len() && context_entries(*final(context)) == overlay(
                context_entries(*old(context)),
                source_layers(format, sources.deep_view().take(at)),
            ) && (r matches Err(error) && error@ == source_failure(format, sources[at]@)),
        },
{
    let ghost all = sources.deep_view();
    let ghost unusable = Seq::new(all.len(), |i: int| source_layer(format, all[i]) is None);
    for i in 0..sources.len()
        invariant
            all == sources.deep_view(),
            unusable == Seq::new(all.len(), |i: int| source_layer(format, all[i]) is None),
            forall|j: int| 0 <= j < i ==> !unusable[j],
            context_entries(*context) == overlay(
                context_entries(*old(context)),
                source_layers(format, all.take(i as int)),
            ),
    {
        match add_source(context, format, &sources[i]) {
            Err(error) => {
                proof {
                    assert(all[i as int] == sources[i as int]@);
                    assert(unusable[i as int]);
                    unusable.index_of_first_ensures(true);
                }
                return Err(error);
            },
            Ok(()) => {
                proof {
                    assert(all[i as int] == sources[i as int]@);
                    let now = source_layers(format, all.take(i + 1));
                    assert(now.drop_last() == source_layers(format, all.take(i as int)));
                    assert(now.last() == source_layer(format, all[i as int]).unwrap());
                }
            },
        }
    }
    proof {
        assert(all.take(sources.len() as int) == all);
        unusable.index_of_first_ensures(true);
    }
    Ok(())
}

/// Builds the context of a run. Sources are laid over one another in rising
/// precedence: the environment (as one mapping under `env`), the parameters
/// in the order given, the JSON files in the order given, the YAML files in
/// the order given. The first parameter file that cannot be used ends the
/// work and is reported by its path. The result depends on the four
/// arguments alone.
pub fn assemble_context(
    environment: &Vec<(String, String)>,
    parameters: &Vec<String>,
    json: &Vec<Source>,
    yaml: &Vec<Source>,
) -> (r: Result<tera::Context, RunError>)
    ensures
        match assembly(
            environment.deep_view(),
            parameters.deep_view(),
            json.deep_view(),
            yaml.deep_view(),
        ) {
            Ok(entries) => r matches Ok(context) && context_entries(context) == entries,
            Err(failure) => r matches Err(error) && error@ == failure,
        },
{
    let mut context = tera::Context::new();
    add_environment(&mut context, environment);
    add_parameters(&mut context, parameters);
    match add_sources(&mut context, Format::Json, json) {
        Err(error) => {
            return Err(error);
        },
        Ok(()) => {},
    }
    match add_sources(&mut context, Format::Yaml, yaml) {
        Err(error) => {
            return Err(error);
        },
        Ok(()) => {},
    }
    proof {
        let base = Map::<Seq<char>, Json>::empty();
        let e = seq![environment_layer(environment.deep_view())];
        let p = parameter_layers(parameters.deep_view());
        let j = source_layers(Format::Json, json.deep_view());
        let y = source_layers(Format::Yaml, yaml.deep_view());
        lemma_overlay_one(base, e[0]);
        lemma_overlay_concat(base, e, p);
        lemma_overlay_concat(base, e + p, j);
        lemma_overlay_concat(base, e + p + j, y);
    }
    Ok(context)
}

} // verus!
