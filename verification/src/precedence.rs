//! Precedence: which source's entry a key of the assembled context has.
//!
//! The assembled context is `layered(environment, parameters, json, yaml)`:
//! the environment's single entry, then one entry for each parameter, then
//! the entries of each JSON document, then those of each YAML document, each
//! laid over what came before. The laws below say what that means key by key.

use crate::context::{
    environment_key, environment_layer, layered, overlay, parameter_key, parameter_layer,
    parameter_layers, parameter_value, Layer,
};
use crate::json::{variables, Json};
use vstd::prelude::*;

verus! {

/// A key has the entry of the last layer that holds it.
pub proof fn lemma_last_layer_wins(base: Layer, layers: Seq<Layer>, at: int, key: Seq<char>)
    requires
        0 <= at < layers.len(),
        layers[at].contains_key(key),
        forall|later: int| at < later < layers.len() ==> !layers[later].contains_key(key),
    ensures
        overlay(base, layers).contains_key(key),
        overlay(base, layers)[key] == layers[at][key],
    decreases layers.len(),
{
    if at < layers.len() - 1 {
        assert(!layers.last().contains_key(key));
        lemma_last_layer_wins(base, layers.drop_last(), at, key);
    }
}

/// A key that no layer holds is as it is in the base.
pub proof fn lemma_untouched_key(base: Layer, layers: Seq<Layer>, key: Seq<char>)
    requires
        forall|at: int| 0 <= at < layers.len() ==> !layers[at].contains_key(key),
    ensures
        overlay(base, layers).contains_key(key) == base.contains_key(key),
        base.contains_key(key) ==> overlay(base, layers)[key] == base[key],
    decreases layers.len(),
{
    if layers.len() > 0 {
        assert(!layers.last().contains_key(key));
        lemma_untouched_key(base, layers.drop_last(), key);
    }
}

/// No layer loses a key, and none invents one: the keys of an overlay are
/// the keys of the base and of the layers together.
pub proof fn lemma_overlay_keys(base: Layer, layers: Seq<Layer>, key: Seq<char>)
    ensures
        overlay(base, layers).contains_key(key) <==> base.contains_key(key) || exists|at: int|
            0 <= at < layers.len() && (#[trigger] layers[at]).contains_key(key),
    decreases layers.len(),
{
    if layers.len() > 0 {
        let front = layers.drop_last();
        lemma_overlay_keys(base, front, key);
        if exists|at: int| 0 <= at < front.len() && (#[trigger] front[at]).contains_key(key) {
            let at = choose|at: int| 0 <= at < front.len() && (#[trigger] front[at]).contains_key(
                key,
            );
            assert(layers[at].contains_key(key));
        }
        if layers.last().contains_key(key) {
            assert(layers[layers.len() - 1].contains_key(key));
        }
        if exists|at: int| 0 <= at < layers.len() && (#[trigger] layers[at]).contains_key(key) {
            let at = choose|at: int|
                0 <= at < layers.len() && (#[trigger] layers[at]).contains_key(key);
            if at < front.len() {
                assert(front[at].contains_key(key));
            }
        }
    }
}

/// A parameter `key=value` sets `key` to the text `value`: the key is what
/// stands before the first `=`, and the value is all that follows it, any
/// further `=` included.
pub proof fn law_parameter_with_value(parameter: Seq<char>, at: int)
    requires
        0 <= at < parameter.len(),
        parameter[at] == '=',
        forall|before: int| 0 <= before < at ==> parameter[before] != '=',
    ensures
        parameter_key(parameter) == parameter.subrange(0, at),
        parameter_value(parameter) == Json::Text(parameter.subrange(at + 1, parameter.len() as int)),
{
    parameter.index_of_first_ensures('=');
}

/// A parameter without `=` sets the key that it is to `true`.
pub proof fn law_bare_parameter(parameter: Seq<char>)
    requires
        !parameter.contains('='),
    ensures
        parameter_key(parameter) == parameter,
        parameter_value(parameter) == Json::Bool(true),
{
    parameter.index_of_first_ensures('=');
}

/// No parameter of the list sets `key`.
pub open spec fn unset_by_parameters(parameters: Seq<Seq<char>>, key: Seq<char>) -> bool {
    forall|at: int| 0 <= at < parameters.len() ==> parameter_key(#[trigger] parameters[at]) != key
}

/// No document of the list holds `key`.
pub open spec fn unset_by_documents(documents: Seq<Layer>, key: Seq<char>) -> bool {
    forall|at: int| 0 <= at < documents.len() ==> !(#[trigger] documents[at]).contains_key(key)
}

/// The assembled context holds, under a parameter's key, that parameter's
/// value, unless a later parameter or a document sets the key.
pub proof fn law_parameter_in_context(
    environment: Seq<(Seq<char>, Seq<char>)>,
    parameters: Seq<Seq<char>>,
    json: Seq<Layer>,
    yaml: Seq<Layer>,
    at: int,
)
    requires
        0 <= at < parameters.len(),
        forall|later: int|
            at < later < parameters.len() ==> parameter_key(#[trigger] parameters[later])
                != parameter_key(parameters[at]),
        unset_by_documents(json, parameter_key(parameters[at])),
        unset_by_documents(yaml, parameter_key(parameters[at])),
    ensures
        layered(environment, parameters, json, yaml).contains_key(parameter_key(parameters[at])),
        layered(environment, parameters, json, yaml)[parameter_key(parameters[at])]
            == parameter_value(parameters[at]),
{
    let key = parameter_key(parameters[at]);
    let before = seq![environment_layer(environment)] + parameter_layers(parameters);
    let layers = before + json + yaml;
    assert(layers[1 + at] == parameter_layer(parameters[at]));
    assert forall|later: int| 1 + at < later < layers.len() implies !layers[later].contains_key(
        key,
    ) by {
        if later < before.len() {
            assert(layers[later] == parameter_layer(parameters[later - 1]));
        } else if later < before.len() + json.len() {
            assert(layers[later] == json[later - before.len()]);
        } else {
            assert(layers[later] == yaml[later - before.len() - json.len()]);
        }
    }
    lemma_last_layer_wins(Map::empty(), layers, 1 + at, key);
}

/// Of two parameters with one key the later stays: where no parameter after
/// it and no document sets the key, the assembled context holds the later
/// parameter's value.
pub proof fn law_later_parameter_wins(
    environment: Seq<(Seq<char>, Seq<char>)>,
    parameters: Seq<Seq<char>>,
    json: Seq<Layer>,
    yaml: Seq<Layer>,
    earlier: int,
    later: int,
)
    requires
        0 <= earlier < later < parameters.len(),
        parameter_key(parameters[earlier]) == parameter_key(parameters[later]),
        forall|after: int|
            later < after < parameters.len() ==> parameter_key(#[trigger] parameters[after])
                != parameter_key(parameters[later]),
        unset_by_documents(json, parameter_key(parameters[later])),
        unset_by_documents(yaml, parameter_key(parameters[later])),
    ensures
        layered(environment, parameters, json, yaml)[parameter_key(parameters[earlier])]
            == parameter_value(parameters[later]),
{
    law_parameter_in_context(environment, parameters, json, yaml, later);
}

/// YAML is above everything else: a key that a YAML document holds has the
/// entry of the last YAML document that holds it, whatever the JSON
/// documents, the parameters and the environment say.
pub proof fn law_yaml_overrides_all(
    environment: Seq<(Seq<char>, Seq<char>)>,
    parameters: Seq<Seq<char>>,
    json: Seq<Layer>,
    yaml: Seq<Layer>,
    at: int,
    key: Seq<char>,
)
    requires
        0 <= at < yaml.len(),
        yaml[at].contains_key(key),
        forall|later: int| at < later < yaml.len() ==> !(#[trigger] yaml[later]).contains_key(key),
    ensures
        layered(environment, parameters, json, yaml).contains_key(key),
        layered(environment, parameters, json, yaml)[key] == yaml[at][key],
{
    let before = seq![environment_layer(environment)] + parameter_layers(parameters) + json;
    let layers = before + yaml;
    assert(layers[before.len() + at] == yaml[at]);
    assert forall|later: int| before.len() + at < later < layers.len() implies !layers[later].contains_key(
        key,
    ) by {
        assert(layers[later] == yaml[later - before.len()]);
    }
    lemma_last_layer_wins(Map::empty(), layers, before.len() + at, key);
}

/// Files are above parameters: a key that a JSON document holds, and no YAML
/// document, has the entry of the last JSON document that holds it,
/// whatever the parameters and the environment say.
pub proof fn law_json_overrides_parameters(
    environment: Seq<(Seq<char>, Seq<char>)>,
    parameters: Seq<Seq<char>>,
    json: Seq<Layer>,
    yaml: Seq<Layer>,
    at: int,
    key: Seq<char>,
)
    requires
        0 <= at < json.len(),
        json[at].contains_key(key),
        forall|later: int| at < later < json.len() ==> !(#[trigger] json[later]).contains_key(key),
        unset_by_documents(yaml, key),
    ensures
        layered(environment, parameters, json, yaml).contains_key(key),
        layered(environment, parameters, json, yaml)[key] == json[at][key],
{
    let before = seq![environment_layer(environment)] + parameter_layers(parameters);
    let layers = before + json + yaml;
    assert(layers[before.len() + at] == json[at]);
    assert forall|later: int| before.len() + at < later < layers.len() implies !layers[later].contains_key(
        key,
    ) by {
        if later < before.len() + json.len() {
            assert(layers[later] == json[later - before.len()]);
        } else {
            assert(layers[later] == yaml[later - before.len() - json.len()]);
        }
    }
    lemma_last_layer_wins(Map::empty(), layers, before.len() + at, key);
}

/// The environment stands under `env`, as one mapping from each variable's
/// name to its value, unless a parameter or a document sets `env`.
pub proof fn law_environment_under_env(
    environment: Seq<(Seq<char>, Seq<char>)>,
    parameters: Seq<Seq<char>>,
    json: Seq<Layer>,
    yaml: Seq<Layer>,
)
    requires
        unset_by_parameters(parameters, environment_key()),
        unset_by_documents(json, environment_key()),
        unset_by_documents(yaml, environment_key()),
    ensures
        layered(environment, parameters, json, yaml).contains_key(environment_key()),
        layered(environment, parameters, json, yaml)[environment_key()] == Json::Object(
            variables(environment),
        ),
{
    let key = environment_key();
    let before = seq![environment_layer(environment)] + parameter_layers(parameters);
    let layers = before + json + yaml;
    assert(layers[0] == environment_layer(environment));
    assert forall|later: int| 0 < later < layers.len() implies !layers[later].contains_key(
        key,
    ) by {
        if later < before.len() {
            assert(layers[later] == parameter_layer(parameters[later - 1]));
        } else if later < before.len() + json.len() {
            assert(layers[later] == json[later - before.len()]);
        } else {
            assert(layers[later] == yaml[later - before.len() - json.len()]);
        }
    }
    lemma_last_layer_wins(Map::empty(), layers, 0, key);
}

/// The environment is never spread over the top level: a key other than
/// `env` that no parameter and no document sets is not in the assembled
/// context, whatever variables the environment holds.
pub proof fn law_environment_not_flattened(
    environment: Seq<(Seq<char>, Seq<char>)>,
    parameters: Seq<Seq<char>>,
    json: Seq<Layer>,
    yaml: Seq<Layer>,
    key: Seq<char>,
)
    requires
        key != environment_key(),
        unset_by_parameters(parameters, key),
        unset_by_documents(json, key),
        unset_by_documents(yaml, key),
    ensures
        !layered(environment, parameters, json, yaml).contains_key(key),
{
    let before = seq![environment_layer(environment)] + parameter_layers(parameters);
    let layers = before + json + yaml;
    assert forall|at: int| 0 <= at < layers.len() implies !layers[at].contains_key(key) by {
        if at == 0 {
            assert(layers[at] == environment_layer(environment));
        } else if at < before.len() {
            assert(layers[at] == parameter_layer(parameters[at - 1]));
        } else if at < before.len() + json.len() {
            assert(layers[at] == json[at - before.len()]);
        } else {
            assert(layers[at] == yaml[at - before.len() - json.len()]);
        }
    }
    lemma_untouched_key(Map::empty(), layers, key);
}

} // verus!
