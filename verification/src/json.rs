//! Reading replies and writing string literals with `serde_json`.
//!
//! Parsing and escaping are `serde_json`'s work. What this module adds is the
//! walk from a reply's text to the one string that a stage is looking for.

use vstd::prelude::*;

verus! {

/// `serde_json::Value`, a JSON value in memory. Nothing inside it is visible
/// to proofs; [`strings_in`] names the part that this library reads.
#[verifier::external_type_specification]
#[verifier::external_body]
pub struct ExValue(serde_json::Value);

/// `serde_json::Error`, the report of a text that is not JSON.
#[verifier::external_type_specification]
#[verifier::external_body]
pub struct ExError(serde_json::Error);

/// The strings that a JSON value holds, each under the sequence of object
/// keys that leads to it. A value that is itself a string holds it under the
/// empty sequence; an object holds, under `key` followed by `rest`, what its
/// member `key` holds under `rest`; any other value holds nothing.
pub uninterp spec fn strings_in(value: serde_json::Value) -> Map<Seq<Seq<char>>, Seq<char>>;

/// What `serde_json::from_str` makes of a text: `None` where it reports an
/// error, and otherwise the strings that the parsed value holds.
pub uninterp spec fn document_strings(text: Seq<char>) -> Option<Map<Seq<Seq<char>>, Seq<char>>>;

/// The JSON string literal that `serde_json` writes for a text: the text
/// between double quotes, with the characters escaped that JSON wants escaped.
pub uninterp spec fn json_string_literal(text: Seq<char>) -> Seq<char>;

/// The path that starts with `key` and goes on with `rest`.
pub open spec fn under(key: Seq<char>, rest: Seq<Seq<char>>) -> Seq<Seq<char>> {
    seq![key] + rest
}

/// What `strings` holds under the paths that start with `key`, with the key
/// taken off each path.
pub open spec fn below(strings: Map<Seq<Seq<char>>, Seq<char>>, key: Seq<char>) -> Map<
    Seq<Seq<char>>,
    Seq<char>,
> {
    Map::new(
        |rest: Seq<Seq<char>>| strings.contains_key(under(key, rest)),
        |rest: Seq<Seq<char>>| strings[under(key, rest)],
    )
}

/// What looking for a string in a JSON text came to.
#[derive(Debug, PartialEq, Eq)]
pub enum Lookup {
    /// The text is not JSON.
    Malformed,
    /// The text is JSON and holds no string at the place looked at: a key on
    /// the way is missing, or what stands there is no string.
    Absent,
    /// The string that stands there.
    Found(String),
}

/// A lookup as contracts see it.
pub enum LookupView {
    Malformed,
    Absent,
    Found(Seq<char>),
}

impl View for Lookup {
    type V = LookupView;

    open spec fn view(&self) -> LookupView {
        match self {
            Lookup::Malformed => LookupView::Malformed,
            Lookup::Absent => LookupView::Absent,
            Lookup::Found(text) => LookupView::Found(text@),
        }
    }
}

/// What looking under a path of object keys in a JSON text comes to.
pub open spec fn lookup_at(text: Seq<char>, path: Seq<Seq<char>>) -> LookupView {
    match document_strings(text) {
        Some(strings) => if strings.contains_key(path) {
            LookupView::Found(strings[path])
        } else {
            LookupView::Absent
        },
        None => LookupView::Malformed,
    }
}

/// The keys of a path, as contracts see them.
pub open spec fn path_keys(path: Seq<&str>) -> Seq<Seq<char>> {
    Seq::new(path.len(), |i: int| path[i]@)
}

/// Calls `serde_json::from_str` for a `serde_json::Value`. Trusted: the
/// outcome is the one that [`document_strings`] names for this text, an error
/// where it is `None` and otherwise a value holding exactly those strings.
#[verifier::external_body]
fn parse_document(text: &str) -> (outcome: Result<serde_json::Value, serde_json::Error>)
    ensures
        match outcome {
            Ok(value) => document_strings(text@) == Some(strings_in(value)),
            Err(_) => document_strings(text@) is None,
        },
{
    serde_json::from_str::<serde_json::Value>(text)
}

/// Calls `serde_json::Value::get` with a string key. Trusted: where it finds
/// a member, the member holds what the value holds below the key; where it
/// finds none, because the value is no object or has no such key, the value
/// holds nothing below the key.
#[verifier::external_body]
fn member<'a>(value: &'a serde_json::Value, key: &str) -> (found: Option<&'a serde_json::Value>)
    ensures
        match found {
            Some(inner) => strings_in(*inner) == below(strings_in(*value), key@),
            None => below(strings_in(*value), key@) == Map::<Seq<Seq<char>>, Seq<char>>::empty(),
        },
{
    value.get(key)
}

/// Calls `serde_json::Value::as_str`. Trusted: it returns the text exactly
/// where the value is a string, which is where the value holds a string under
/// the empty path.
#[verifier::external_body]
fn string_value<'a>(value: &'a serde_json::Value) -> (found: Option<&'a str>)
    ensures
        match found {
            Some(text) => strings_in(*value).contains_key(Seq::empty())
                && strings_in(*value)[Seq::empty()] == text@,
            None => !strings_in(*value).contains_key(Seq::empty()),
        },
{
    value.as_str()
}

/// Calls `to_string` on a `serde_json::Value::String`, which writes the value
/// as compact JSON. Trusted: the result is the literal that
/// [`json_string_literal`] names for the text.
#[verifier::external_body]
pub(crate) fn quote(text: &str) -> (literal: String)
    ensures
        literal@ == json_string_literal(text@),
{
    serde_json::Value::String(text.to_owned()).to_string()
}

/// What `strings` holds under the paths that start with `prefix`, with the
/// prefix taken off each path.
spec fn beneath(strings: Map<Seq<Seq<char>>, Seq<char>>, prefix: Seq<Seq<char>>) -> Map<
    Seq<Seq<char>>,
    Seq<char>,
> {
    Map::new(
        |rest: Seq<Seq<char>>| strings.contains_key(prefix + rest),
        |rest: Seq<Seq<char>>| strings[prefix + rest],
    )
}

/// Going below one more key is going beneath a prefix that is one key longer.
proof fn lemma_below_beneath(
    strings: Map<Seq<Seq<char>>, Seq<char>>,
    prefix: Seq<Seq<char>>,
    key: Seq<char>,
)
    ensures
        below(beneath(strings, prefix), key) == beneath(strings, prefix.push(key)),
{
    assert forall|rest: Seq<Seq<char>>| prefix + under(key, rest) == prefix.push(key) + rest by {}
}

/// Parses `text` as JSON and follows `path` through nested objects, one key
/// at a time, to the string at the end of the path.
pub fn look_up(text: &str, path: &Vec<&str>) -> (found: Lookup)
    ensures
        found@ == lookup_at(text@, path_keys(path@)),
{
    let ghost keys = path_keys(path@);
    match parse_document(text) {
        Err(_) => Lookup::Malformed,
        Ok(document) => {
            let ghost strings = strings_in(document);
            let mut current: &serde_json::Value = &document;
            let mut depth: usize = 0;
            assert(strings_in(*current) =~= beneath(strings, keys.take(0))) by {
                assert forall|rest: Seq<Seq<char>>| keys.take(0) + rest == rest by {}
            }
            while depth < path.len()
                invariant
                    depth <= path.len(),
                    keys == path_keys(path@),
                    document_strings(text@) == Some(strings),
                    strings_in(*current) == beneath(strings, keys.take(depth as int)),
                decreases path.len() - depth,
            {
                let ghost prefix = keys.take(depth as int);
                let ghost key = keys[depth as int];
                proof {
                    lemma_below_beneath(strings, prefix, key);
                    assert(prefix.push(key) =~= keys.take(depth as int + 1));
                }
                match member(current, path[depth]) {
                    Some(inner) => {
                        current = inner;
                    },
                    None => {
                        let ghost tail = keys.skip(depth as int + 1);
                        assert(keys.take(depth as int + 1) + tail =~= keys);
                        assert(!beneath(strings, keys.take(depth as int + 1)).contains_key(tail));
                        return Lookup::Absent;
                    },
                }
                depth += 1;
            }
            assert(keys.take(depth as int) =~= keys);
            match string_value(current) {
                Some(text) => Lookup::Found(text.to_owned()),
                None => Lookup::Absent,
            }
        },
    }
}

} // verus!
