//! Structured values: the mathematical model of a value tree, the decoders
//! that produce such trees from JSON and YAML text, and the few operations on
//! `serde_json::Value` that context assembly needs.
//!
//! `serde_json::Value` is opaque to the verifier. Every function here that
//! touches one is a thin trusted wrapper; its doc comment names the outside
//! function it calls and says what is taken on trust.

use vstd::prelude::*;

verus! {

/// A structured value as a mathematical tree.
pub enum Json {
    Null,
    Bool(bool),
    /// A number, held as the decimal text that denotes it.
    Number(Seq<char>),
    Text(Seq<char>),
    List(Seq<Json>),
    Object(Map<Seq<char>, Json>),
}

/// The two document formats that parameter files come in.
#[derive(Clone, Copy, Debug, PartialEq, Eq)]
pub enum Format {
    Json,
    Yaml,
}

/// `serde_json::Value`, a decoded value tree, taken as opaque.
#[verifier::external_type_specification]
#[verifier::external_body]
pub struct ExValue(serde_json::Value);

/// `serde_json::Error`, why JSON text did not decode, taken as opaque.
#[verifier::external_type_specification]
#[verifier::external_body]
pub struct ExJsonError(serde_json::Error);

/// `serde_yaml::Error`, why YAML text did not decode, taken as opaque.
#[verifier::external_type_specification]
#[verifier::external_body]
pub struct ExYamlError(serde_yaml::Error);

/// The tree that a `serde_json::Value` holds.
pub uninterp spec fn json_view(value: serde_json::Value) -> Json;

/// What a `serde_json::Error` says: its `Display` text.
pub uninterp spec fn json_error_text(error: serde_json::Error) -> Seq<char>;

/// What a `serde_yaml::Error` says: its `Display` text.
pub uninterp spec fn yaml_error_text(error: serde_yaml::Error) -> Seq<char>;

/// What JSON text decodes to: the tree of the one JSON document that the
/// text is, or what the decoder says is wrong with the text.
pub uninterp spec fn json_decoding(text: Seq<char>) -> Result<Json, Seq<char>>;

/// What YAML text decodes to: the tree of the one YAML document that the
/// text is, or what the decoder says is wrong with the text.
pub uninterp spec fn yaml_decoding(text: Seq<char>) -> Result<Json, Seq<char>>;

/// What `text` decodes to in the given format.
pub open spec fn decoding(format: Format, text: Seq<char>) -> Result<Json, Seq<char>> {
    match format {
        Format::Json => json_decoding(text),
        Format::Yaml => yaml_decoding(text),
    }
}

/// The key-value entries of the document that `text` holds: `None` where the
/// text does not decode, or decodes to anything but an object.
pub open spec fn document_layer(format: Format, text: Seq<char>) -> Option<Map<Seq<char>, Json>> {
    match decoding(format, text) {
        Ok(Json::Object(entries)) => Some(entries),
        _ => None,
    }
}

/// The entries of an exec entry list, by key text and value tree.
pub open spec fn entry_views(entries: Seq<(String, serde_json::Value)>) -> Seq<(Seq<char>, Json)> {
    Seq::new(entries.len(), |i: int| (entries[i].0@, json_view(entries[i].1)))
}

/// Trusted: `serde_json::from_str` at `serde_json::Value`. Where the text is
/// one JSON document the value holds its tree; where it is not, the error
/// says what `json_decoding` gives. Both depend on the text alone.
#[verifier::external_body]
fn decode_json(text: &str) -> (r: Result<serde_json::Value, serde_json::Error>)
    ensures
        json_decoding(text@) == match r {
            Ok(value) => Ok(json_view(value)),
            Err(error) => Err(json_error_text(error)),
        },
{
    serde_json::from_str::<serde_json::Value>(text)
}

/// Trusted: `serde_yaml::from_str` at `serde_json::Value`. Where the text is
/// one YAML document that a value tree can hold, the value holds its tree;
/// where it is not, the error says what `yaml_decoding` gives. Both depend
/// on the text alone.
#[verifier::external_body]
fn decode_yaml(text: &str) -> (r: Result<serde_json::Value, serde_yaml::Error>)
    ensures
        yaml_decoding(text@) == match r {
            Ok(value) => Ok(json_view(value)),
            Err(error) => Err(yaml_error_text(error)),
        },
{
    serde_yaml::from_str::<serde_json::Value>(text)
}

/// Trusted: the `Display` text of a `serde_json::Error`.
#[verifier::external_body]
fn json_error_words(error: &serde_json::Error) -> (r: String)
    ensures
        r@ == json_error_text(*error),
{
    error.to_string()
}

/// Trusted: the `Display` text of a `serde_yaml::Error`.
#[verifier::external_body]
fn yaml_error_words(error: &serde_yaml::Error) -> (r: String)
    ensures
        r@ == yaml_error_text(*error),
{
    error.to_string()
}

/// Trusted: `Value::String` holds the text it was made from.
#[verifier::external_body]
pub(crate) fn value_from_text(text: &str) -> (r: serde_json::Value)
    ensures
        json_view(r) == Json::Text(text@),
{
    serde_json::Value::String(text.to_owned())
}

/// Trusted: `Value::Bool` holds the flag it was made from.
#[verifier::external_body]
pub(crate) fn value_from_flag(flag: bool) -> (r: serde_json::Value)
    ensures
        json_view(r) == Json::Bool(flag),
{
    serde_json::Value::Bool(flag)
}

/// Trusted: `Value::Object` over `serde_json::Map::new()` is the object with
/// no entries.
#[verifier::external_body]
fn value_empty_object() -> (r: serde_json::Value)
    ensures
        json_view(r) == Json::Object(Map::empty()),
{
    serde_json::Value::Object(serde_json::Map::new())
}

/// Trusted: `serde_json::Map::insert` on the map inside an object adds the
/// entry, replacing the value of a key that is already present; a value that
/// is no object is left as it is.
#[verifier::external_body]
fn value_object_insert(object: &mut serde_json::Value, key: &str, value: serde_json::Value)
    ensures
        json_view(*old(object)) matches Json::Object(entries) ==> json_view(*final(object))
            == Json::Object(entries.insert(key@, json_view(value))),
        !(json_view(*old(object)) is Object) ==> json_view(*final(object)) == json_view(
            *old(object),
        ),
{
    if let serde_json::Value::Object(map) = object {
        map.insert(key.to_owned(), value);
    }
}

/// Trusted: matching on `Value::Object` and walking the map with
/// `serde_json::Map::into_iter`. An object hands out each of its entries, and
/// nothing but its entries; any other value gives `None`. Nothing is claimed
/// of the order.
#[verifier::external_body]
pub(crate) fn value_object_entries(value: serde_json::Value) -> (r: Option<
    Vec<(String, serde_json::Value)>,
>)
    ensures
        r is Some <==> json_view(value) is Object,
        r matches Some(entries) ==> holds_entries(
            json_view(value)->Object_0,
            entry_views(entries@),
        ),
{
    match value {
        serde_json::Value::Object(map) => Some(map.into_iter().collect()),
        _ => None,
    }
}

/// The map that a list of name-value pairs denotes: each pair in turn sets
/// its name to its value as text, so of two pairs with one name the later
/// stays.
pub open spec fn variables(pairs: Seq<(Seq<char>, Seq<char>)>) -> Map<Seq<char>, Json>
    decreases pairs.len(),
{
    if pairs.len() == 0 {
        Map::empty()
    } else {
        variables(pairs.drop_last()).insert(pairs.last().0, Json::Text(pairs.last().1))
    }
}

/// A name has the value of the last pair that sets it. In a list without a
/// name that occurs twice every pair is such a pair, so that the mapping
/// does not depend on the order of the list.
pub proof fn lemma_variables_last_wins(pairs: Seq<(Seq<char>, Seq<char>)>, at: int)
    requires
        0 <= at < pairs.len(),
        forall|later: int| at < later < pairs.len() ==> (#[trigger] pairs[later]).0 != pairs[at].0,
    ensures
        variables(pairs).contains_key(pairs[at].0),
        variables(pairs)[pairs[at].0] == Json::Text(pairs[at].1),
    decreases pairs.len(),
{
    if at < pairs.len() - 1 {
        assert(pairs.last().0 != pairs[at].0);
        lemma_variables_last_wins(pairs.drop_last(), at);
    }
}

/// The names of the mapping are the names of the pairs, and no others.
pub proof fn lemma_variables_names(pairs: Seq<(Seq<char>, Seq<char>)>, name: Seq<char>)
    ensures
        variables(pairs).contains_key(name) <==> exists|at: int|
            0 <= at < pairs.len() && (#[trigger] pairs[at]).0 == name,
    decreases pairs.len(),
{
    if pairs.len() > 0 {
        let front = pairs.drop_last();
        lemma_variables_names(front, name);
        if exists|at: int| 0 <= at < front.len() && (#[trigger] front[at]).0 == name {
            let at = choose|at: int| 0 <= at < front.len() && (#[trigger] front[at]).0 == name;
            assert(pairs[at].0 == name);
        }
        if pairs.last().0 == name {
            assert(pairs[pairs.len() - 1].0 == name);
        }
        if exists|at: int| 0 <= at < pairs.len() && (#[trigger] pairs[at]).0 == name {
            let at = choose|at: int| 0 <= at < pairs.len() && (#[trigger] pairs[at]).0 == name;
            if at < front.len() {
                assert(front[at].0 == name);
            }
        }
    }
}

/// An object that maps each name of `pairs` to its value as text.
pub fn variables_value(pairs: &Vec<(String, String)>) -> (r: serde_json::Value)
    ensures
        json_view(r) == Json::Object(variables(pairs.deep_view())),
{
    let mut object = value_empty_object();
    let ghost all = pairs.deep_view();
    for i in 0..pairs.len()
        invariant
            all == pairs.deep_view(),
            json_view(object) == Json::Object(variables(all.take(i as int))),
    {
        let value = value_from_text(pairs[i].1.as_str());
        value_object_insert(&mut object, pairs[i].0.as_str(), value);
        proof {
            assert(all.take(i + 1).drop_last() == all.take(i as int));
            assert(all.take(i + 1).last() == (pairs[i as int].0@, pairs[i as int].1@));
        }
    }
    proof {
        assert(all.take(pairs.len() as int) == all);
    }
    object
}

/// Decodes `text` as one document of the given format. The error is the
/// decoder's own description of what is wrong with the text.
pub fn decode(format: Format, text: &str) -> (r: Result<serde_json::Value, String>)
    ensures
        decoding(format, text@) == match r {
            Ok(value) => Ok::<Json, Seq<char>>(json_view(value)),
            Err(why) => Err(why@),
        },
{
    match format {
        Format::Json => match decode_json(text) {
            Ok(value) => Ok(value),
            Err(error) => Err(json_error_words(&error)),
        },
        Format::Yaml => match decode_yaml(text) {
            Ok(value) => Ok(value),
            Err(error) => Err(yaml_error_words(&error)),
        },
    }
}

/// `entries` lists exactly what `object` holds: every listed pair is an entry
/// of the object, and every key of the object is listed.
pub open spec fn holds_entries(object: Map<Seq<char>, Json>, entries: Seq<(Seq<char>, Json)>) -> bool {
    &&& forall|i: int|
        0 <= i < entries.len() ==> object.contains_key(#[trigger] entries[i].0)
            && object[entries[i].0] == entries[i].1
    &&& forall|key: Seq<char>| #[trigger]
        object.contains_key(key) ==> exists|i: int|
            0 <= i < entries.len() && #[trigger] entries[i].0 == key
}

} // verus!
