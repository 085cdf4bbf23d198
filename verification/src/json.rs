//! Reading single values out of JSON texts.

use vstd::prelude::*;

verus! {

/// The string at a JSON pointer of a JSON text.
pub uninterp spec fn json_text(text: Seq<char>, pointer: Seq<char>) -> Option<Seq<char>>;

/// The unsigned number at a JSON pointer of a JSON text.
pub uninterp spec fn json_number(text: Seq<char>, pointer: Seq<char>) -> Option<u64>;

/// The boolean at a JSON pointer of a JSON text.
pub uninterp spec fn json_flag(text: Seq<char>, pointer: Seq<char>) -> Option<bool>;

/// Whether anything stands at a JSON pointer of a JSON text.
pub uninterp spec fn json_present(text: Seq<char>, pointer: Seq<char>) -> bool;

/// The length of the list at a JSON pointer of a JSON text.
pub uninterp spec fn json_length(text: Seq<char>, pointer: Seq<char>) -> Option<nat>;

/// `serde_json::Value::pointer` and `as_str` on a text parsed by `serde_json::from_str`: the string
/// at the pointer. There is none where the text is not JSON, where nothing stands at the pointer,
/// and where something else does.
#[verifier::external_body]
pub(crate) fn json_text_at(text: &str, pointer: &str) -> (r: Option<String>)
    ensures
        match r {
            Some(s) => json_text(text@, pointer@) == Some(s@),
            None => json_text(text@, pointer@) is None,
        },
{
    let value = serde_json::from_str::<serde_json::Value>(text).ok()?;
    value.pointer(pointer)?.as_str().map(String::from)
}

/// `serde_json::Value::pointer` and `as_u64` on a text parsed by `serde_json::from_str`: the
/// unsigned number at the pointer, if one stands there.
#[verifier::external_body]
pub(crate) fn json_number_at(text: &str, pointer: &str) -> (r: Option<u64>)
    ensures
        r == json_number(text@, pointer@),
{
    let value = serde_json::from_str::<serde_json::Value>(text).ok()?;
    value.pointer(pointer)?.as_u64()
}

/// `serde_json::Value::pointer` and `as_bool` on a text parsed by `serde_json::from_str`: the
/// boolean at the pointer, if one stands there.
#[verifier::external_body]
pub(crate) fn json_flag_at(text: &str, pointer: &str) -> (r: Option<bool>)
    ensures
        r == json_flag(text@, pointer@),
{
    let value = serde_json::from_str::<serde_json::Value>(text).ok()?;
    value.pointer(pointer)?.as_bool()
}

/// `serde_json::Value::pointer` on a text parsed by `serde_json::from_str`: whether there is a value
/// at the pointer.
#[verifier::external_body]
pub(crate) fn json_has(text: &str, pointer: &str) -> (r: bool)
    ensures
        r == json_present(text@, pointer@),
{
    match serde_json::from_str::<serde_json::Value>(text) {
        Ok(value) => value.pointer(pointer).is_some(),
        Err(_) => false,
    }
}

/// `serde_json::Value::pointer` and `as_array` on a text parsed by `serde_json::from_str`: how many
/// elements the list at the pointer has, if a list stands there.
#[verifier::external_body]
pub(crate) fn json_length_at(text: &str, pointer: &str) -> (r: Option<u64>)
    ensures
        match r {
            Some(n) => json_length(text@, pointer@) == Some(n as nat),
            None => json_length(text@, pointer@) is None,
        },
{
    let value = serde_json::from_str::<serde_json::Value>(text).ok()?;
    value.pointer(pointer)?.as_array().map(|list| list.len() as u64)
}

/// A key that a JSON pointer names as it is.
pub open spec fn plain_key(k: Seq<char>) -> bool {
    forall|i: int| 0 <= i < k.len() ==> (#[trigger] k[i]) != '/' && k[i] != '~'
}

/// The keys of an object, that of a text value or that of a number.
pub open spec fn key_at(
    texts: Seq<(String, Option<String>)>,
    numbers: Seq<(String, u64)>,
    i: int,
) -> Seq<char> {
    if i < texts.len() {
        texts[i].0@
    } else {
        numbers[i - texts.len()].0@
    }
}

/// The keys of an object are plain, and no two of them are the same.
pub open spec fn plain_keys(texts: Seq<(String, Option<String>)>, numbers: Seq<(String, u64)>) -> bool {
    let n = texts.len() + numbers.len();
    &&& forall|i: int| 0 <= i < n ==> plain_key(#[trigger] key_at(texts, numbers, i))
    &&& forall|i: int, j: int|
        0 <= i < j < n ==> #[trigger] key_at(texts, numbers, i) != #[trigger] key_at(
            texts,
            numbers,
            j,
        )
}

/// `serde_json::Value::to_string` on an object: a JSON text that gives every value back at its key.
/// A text that is missing is written as null, where no string is found. In which order the keys come
/// is not said.
#[verifier::external_body]
pub(crate) fn json_object(texts: &Vec<(String, Option<String>)>, numbers: &Vec<(String, u64)>) -> (r:
    String)
    requires
        plain_keys(texts@, numbers@),
    ensures
        forall|i: int|
            0 <= i < texts@.len() ==> json_text(r@, "/"@ + (#[trigger] texts@[i]).0@) == match texts@[i].1 {
                Some(t) => Some(t@),
                None => None,
            },
        forall|i: int|
            0 <= i < numbers@.len() ==> json_number(r@, "/"@ + (#[trigger] numbers@[i]).0@) == Some(
                numbers@[i].1,
            ),
{
    let mut map = serde_json::Map::new();
    map.extend(texts.iter().map(|(k, v)| (k.clone(), serde_json::Value::from(v.clone()))));
    map.extend(numbers.iter().map(|(k, n)| (k.clone(), serde_json::Value::from(*n))));
    serde_json::Value::Object(map).to_string()
}

/// A text that may be missing, with what stands for it then.
pub open spec fn text_or(t: Option<Seq<char>>, other: Seq<char>) -> Seq<char> {
    match t {
        Some(s) => s,
        None => other,
    }
}

/// The string at a pointer, or another one where there is none.
pub fn json_text_or(text: &str, pointer: &str, other: &str) -> (r: String)
    ensures
        r@ == text_or(json_text(text@, pointer@), other@),
{
    match json_text_at(text, pointer) {
        Some(s) => s,
        None => other.to_owned(),
    }
}

} // verus!
