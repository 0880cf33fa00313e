//! The string-keyed input maps that truths are executed with, modelled by
//! their content: `HashMap<String, String>` viewed as a map from key text to
//! value text.
use std::collections::HashMap;
use vstd::prelude::*;
use crate::text::{nonblank, nonblank_text, opt_text};

verus! {

/// A string-keyed map viewed by the text of its keys. Two `String` keys
/// with the same text are one key of a `HashMap`.
pub open spec fn text_keyed<V>(m: Map<String, V>) -> Map<Seq<char>, V> {
    Map::new(
        |k: Seq<char>| exists|s: String| #[trigger] m.contains_key(s) && s@ == k,
        |k: Seq<char>| m[choose|s: String| #[trigger] m.contains_key(s) && s@ == k],
    )
}

/// The content of an input map: key text to value text.
pub open spec fn input_model(m: HashMap<String, String>) -> Map<Seq<char>, Seq<char>> {
    text_keyed(m@).map_values(|v: String| v@)
}

/// The content of an empty input map.
pub open spec fn no_inputs() -> Map<Seq<char>, Seq<char>> {
    Map::empty()
}

/// The value stored under `k`, if any.
pub open spec fn lookup(m: Map<Seq<char>, Seq<char>>, k: Seq<char>) -> Option<Seq<char>> {
    if m.contains_key(k) {
        Some(m[k])
    } else {
        None
    }
}

/// The trimmed value stored under `k` when it is not blank: what
/// `optional_input` and `optional_string` read.
pub open spec fn present(m: Map<Seq<char>, Seq<char>>, k: Seq<char>) -> Option<Seq<char>> {
    nonblank(lookup(m, k))
}

/// `HashMap::get` with a `&str` key: the value under the key with the same
/// text, if any.
#[verifier::external_body]
pub(crate) fn map_get<'a, V>(m: &'a HashMap<String, V>, key: &str) -> (r: Option<&'a V>)
    ensures
        match r {
            Some(v) => text_keyed(m@).contains_key(key@) && text_keyed(m@)[key@] == *v,
            None => !text_keyed(m@).contains_key(key@),
        },
{
    m.get(key)
}

/// `HashMap::insert`: afterwards the key's text maps to the value.
#[verifier::external_body]
pub(crate) fn map_insert<V>(m: &mut HashMap<String, V>, key: String, value: V)
    ensures
        text_keyed(final(m)@) == text_keyed(old(m)@).insert(key@, value),
{
    m.insert(key, value);
}

/// `HashMap::remove` with a `&str` key: afterwards no key has its text.
#[verifier::external_body]
pub(crate) fn map_remove<V>(m: &mut HashMap<String, V>, key: &str)
    ensures
        text_keyed(final(m)@) == text_keyed(old(m)@).remove(key@),
{
    m.remove(key);
}

/// An empty string-keyed map.
pub fn empty_map<V>() -> (r: HashMap<String, V>)
    ensures
        text_keyed(r@) == Map::<Seq<char>, V>::empty(),
{
    let r = HashMap::new();
    assert(text_keyed(r@) =~= Map::<Seq<char>, V>::empty());
    r
}

/// The value text under `key`, if any.
pub fn input_get<'a>(inputs: &'a HashMap<String, String>, key: &str) -> (r: Option<&'a String>)
    ensures
        match r {
            Some(v) => lookup(input_model(*inputs), key@) == Some(v@),
            None => lookup(input_model(*inputs), key@) is None,
        },
{
    map_get(inputs, key)
}

/// Stores the value under the key; afterwards the key's text maps to the
/// value's text.
pub fn input_insert(inputs: &mut HashMap<String, String>, key: String, value: String)
    ensures
        input_model(*final(inputs)) == input_model(*old(inputs)).insert(key@, value@),
{
    let ghost k = key@;
    let ghost v = value@;
    map_insert(inputs, key, value);
    assert(input_model(*inputs) =~= input_model(*old(inputs)).insert(k, v));
}

/// An empty input map.
pub fn empty_inputs() -> (r: HashMap<String, String>)
    ensures
        input_model(r) == no_inputs(),
{
    let r = empty_map();
    assert(input_model(r) =~= no_inputs());
    r
}

/// `HashMap::iter`, each pair cloned. The order in which a `HashMap` is
/// walked is not stated: only that every entry comes out once.
#[verifier::external_body]
pub(crate) fn input_entries(inputs: &HashMap<String, String>) -> (r: Vec<(String, String)>)
    ensures
        r@.len() == input_model(*inputs).dom().len(),
        forall|i: int|
            0 <= i < r@.len() ==> lookup(input_model(*inputs), (#[trigger] r@[i]).0@) == Some(
                r@[i].1@,
            ),
        forall|k: Seq<char>|
            input_model(*inputs).contains_key(k) ==> exists|i: int|
                0 <= i < r@.len() && (#[trigger] r@[i]).0@ == k,
        forall|i: int, j: int|
            0 <= i < r@.len() && 0 <= j < r@.len() && i != j ==> (#[trigger] r@[i]).0@ != (
            #[trigger] r@[j]).0@,
{
    let mut out = Vec::new();
    for (k, v) in inputs.iter() {
        out.push((k.clone(), v.clone()));
    }
    out
}

/// The trimmed value under `key` when it is present and not blank.
pub fn present_value(inputs: &HashMap<String, String>, key: &str) -> (r: Option<String>)
    ensures
        opt_text(r) == present(input_model(*inputs), key@),
{
    match input_get(inputs, key) {
        Some(v) => nonblank_text(Some(v.as_str())),
        None => None,
    }
}

} // verus!
