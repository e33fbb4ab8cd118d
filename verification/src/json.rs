//! Reading strings out of JSON text.

use serde_json::Value;
use vstd::prelude::*;

verus! {

/// serde_json's `Value`, a parsed JSON value. Nothing is known of what is
/// inside one but through [`json_strings`].
#[verifier::external_type_specification]
#[verifier::external_body]
pub struct ExValue(serde_json::Value);

/// serde_json's `Error`: why a text could not be parsed. It is only carried.
#[verifier::external_type_specification]
#[verifier::external_body]
pub struct ExJsonError(serde_json::Error);

/// The strings inside a JSON value, each under the path that leads to it: the
/// keys of the nested objects that one goes through, outermost first. The
/// empty path leads to the value itself, so it is in the map exactly when the
/// value is a JSON string. Arrays, numbers, booleans and null hold no string
/// that a path of keys reaches.
pub uninterp spec fn json_strings(value: Value) -> Map<Seq<Seq<char>>, Seq<char>>;

/// The strings inside the JSON document that a text holds (see
/// [`json_strings`]), or `None` where the text is not one JSON document.
pub uninterp spec fn document_strings(text: Seq<char>) -> Option<Map<Seq<Seq<char>>, Seq<char>>>;

/// Of the strings of an object, those under one key, each by the rest of its
/// path.
pub open spec fn under(strings: Map<Seq<Seq<char>>, Seq<char>>, key: Seq<char>) -> Map<
    Seq<Seq<char>>,
    Seq<char>,
> {
    Map::new(
        |path: Seq<Seq<char>>| strings.contains_key(seq![key] + path),
        |path: Seq<Seq<char>>| strings[seq![key] + path],
    )
}

/// The string that a path leads to, if it leads to one.
pub open spec fn string_at(strings: Map<Seq<Seq<char>>, Seq<char>>, path: Seq<Seq<char>>) -> Option<
    Seq<char>,
> {
    if strings.contains_key(path) {
        Some(strings[path])
    } else {
        None
    }
}

/// `serde_json::from_str`, at the type `Value`: parses a text as one JSON
/// document. It gives the document where the text is JSON and an error where
/// it is not; which of the two, and the strings in the document, is what
/// [`document_strings`] names.
#[verifier::external_body]
pub(crate) fn parse(text: &str) -> (parsed: Result<Value, serde_json::Error>)
    ensures
        match parsed {
            Ok(value) => document_strings(text@) == Some(json_strings(value)),
            Err(_) => document_strings(text@) is None,
        },
{
    serde_json::from_str(text)
}

/// The `Index` impl of serde_json's `Value`, for a string key: the member
/// under that key where the value is an object that has it, and JSON null in
/// every other case. What comes back therefore holds the strings that the
/// value holds under the key, and no others.
#[verifier::external_body]
pub(crate) fn member<'a>(value: &'a Value, key: &str) -> (inner: &'a Value)
    ensures
        json_strings(*inner) == under(json_strings(*value), key@),
{
    &value[key]
}

/// `Value::as_str`: the text of a value that is a JSON string, and `None` for
/// any other value.
#[verifier::external_body]
pub(crate) fn as_text<'a>(value: &'a Value) -> (text: Option<&'a str>)
    ensures
        match text {
            Some(found) => string_at(json_strings(*value), Seq::empty()) == Some(found@),
            None => string_at(json_strings(*value), Seq::empty()) is None,
        },
{
    value.as_str()
}

/// Follows a path of keys into a value and reads the string found there.
pub(crate) fn text_at<'a>(value: &'a Value, path: &[&str]) -> (text: Option<&'a str>)
    ensures
        match text {
            Some(found) => string_at(json_strings(*value), path.deep_view()) == Some(found@),
            None => string_at(json_strings(*value), path.deep_view()) is None,
        },
{
    let mut inner = value;
    let mut i: usize = 0;
    while i < path.len()
        invariant
            i <= path.len(),
            forall|rest: Seq<Seq<char>>|
                string_at(json_strings(*inner), rest) == string_at(
                    json_strings(*value),
                    #[trigger] (path.deep_view().take(i as int) + rest),
                ),
        decreases path.len() - i,
    {
        let ghost outer = json_strings(*inner);
        inner = member(inner, path[i]);
        proof {
            assert forall|rest: Seq<Seq<char>>|
                string_at(json_strings(*inner), rest) == string_at(
                    json_strings(*value),
                    #[trigger] (path.deep_view().take(i + 1) + rest),
                ) by {
                let key = path.deep_view()[i as int];
                assert(path.deep_view().take(i + 1) + rest =~= path.deep_view().take(i as int) + (
                seq![key] + rest));
                assert(string_at(outer, seq![key] + rest) == string_at(
                    json_strings(*value),
                    path.deep_view().take(i as int) + (seq![key] + rest),
                ));
            }
        }
        i = i + 1;
    }
    proof {
        assert(path.deep_view().take(i as int) + Seq::<Seq<char>>::empty() =~= path.deep_view());
    }
    as_text(inner)
}

} // verus!
