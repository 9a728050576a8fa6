//! The library's own JSON tree, the call that parses text into it, and the
//! lookups that the response decoders use (`value.get(key)`, `as_str`,
//! `as_bool`, the numeric readings of `json_id`, `json_u32`, ...).
use vstd::prelude::*;
use crate::numtext::{parse_u64_spec, parse_u32_spec, parse_i64_spec, parse_u64_text, parse_u32_text, parse_i64_text};
use crate::text::{blank, is_blank, str_eq, trim, trim_str};

verus! {

#[derive(Clone, Debug, PartialEq, Eq)]
/// A JSON number, held through the readings the decoders make of it: its
/// printed form (`Number::to_string`), `as_i64`, `as_u64`, and `as_f64`
/// cast to `i64`.
pub struct JsonNumber {
    pub text: String,
    pub as_i64: Option<i64>,
    pub as_u64: Option<u64>,
    pub as_f64_as_i64: Option<i64>,
}

/// An object member: a key and its value.
#[derive(Debug, PartialEq, Eq)]
pub struct JsonMember {
    pub key: String,
    pub value: Json,
}

/// A JSON value. An object keeps its members in the order the parser hands
/// them out, each key once.
#[derive(Debug, PartialEq, Eq)]
pub enum Json {
    Null,
    Bool(bool),
    Number(JsonNumber),
    Text(String),
    Array(Vec<Json>),
    Object(Vec<JsonMember>),
}

/// What `serde_json::from_str::<serde_json::Value>` makes of a text: the
/// parsed tree, or `None` where the text is not JSON.
pub uninterp spec fn parsed_json(text: Seq<char>) -> Option<Json>;

#[verifier::external_type_specification]
#[verifier::external_body]
pub struct ExJsonValue(serde_json::Value);

/// Parses a text with `serde_json::from_str::<serde_json::Value>` and hands
/// the tree over as the library's `Json`. Claimed: the result depends on the
/// text alone; and a text that parses as a bare string holds at least that
/// string's characters and its two quotes (JSON writes a string between
/// quotes, each of its characters taking one or more characters of the
/// text); and a blank text (white space only, or nothing) does not parse,
/// since JSON needs a value and takes no other character for white space
/// than space, tab, line feed and carriage return. Nothing else is said of
/// the tree's shape.
#[verifier::external_body]
pub fn parse_json(text: &str) -> (r: Option<Json>)
    ensures
        r == parsed_json(text@),
        r matches Some(Json::Text(t)) ==> t@.len() + 2 <= text@.len(),
        is_blank(text@) ==> r is None,
{
    serde_json::from_str::<serde_json::Value>(text).ok().map(json_from_value)
}

/// Carries a `serde_json::Value` over into the library's `Json`, variant by
/// variant, reading each number through `Number::to_string`, `as_i64`,
/// `as_u64` and `as_f64`. It makes no claim; `parse_json` names its result.
#[verifier::external_body]
fn json_from_value(value: serde_json::Value) -> Json {
    match value {
        serde_json::Value::Null => Json::Null,
        serde_json::Value::Bool(flag) => Json::Bool(flag),
        serde_json::Value::Number(n) => Json::Number(JsonNumber {
            text: n.to_string(),
            as_i64: n.as_i64(),
            as_u64: n.as_u64(),
            as_f64_as_i64: n.as_f64().map(|f| f as i64),
        }),
        serde_json::Value::String(text) => Json::Text(text),
        serde_json::Value::Array(items) => Json::Array(items.into_iter().map(json_from_value).collect()),
        serde_json::Value::Object(map) => Json::Object(map.into_iter().map(|(key, value)| JsonMember { key, value: json_from_value(value) }).collect()),
    }
}

/// What `serde_json` writes for a value in its compact form
/// (`Value::to_string`), the value carried over from the library's `Json`.
pub uninterp spec fn written_json(v: Json) -> Seq<char>;

/// Carries the library's `Json` over into a `serde_json::Value`, variant by
/// variant; a number goes over by its printed form. It makes no claim;
/// `write_json` names its result.
#[verifier::external_body]
fn json_to_value(v: &Json) -> serde_json::Value {
    match v {
        Json::Null => serde_json::Value::Null,
        Json::Bool(flag) => serde_json::Value::Bool(*flag),
        Json::Number(n) => n.text.parse::<serde_json::Number>().map_or(serde_json::Value::Null, serde_json::Value::Number),
        Json::Text(text) => serde_json::Value::String(text.clone()),
        Json::Array(items) => serde_json::Value::Array(items.iter().map(json_to_value).collect()),
        Json::Object(ms) => serde_json::Value::Object(ms.iter().map(|m| (m.key.clone(), json_to_value(&m.value))).collect()),
    }
}

/// Writes a value in JSON's compact form with `serde_json` (the `Display`
/// of `serde_json::Value`). Claimed: the text depends on the value alone.
#[verifier::external_body]
pub(crate) fn write_json(v: &Json) -> (r: String)
    ensures
        r@ == written_json(*v),
{
    json_to_value(v).to_string()
}

/// The value of the first member with the given key.
pub open spec fn members_get(ms: Seq<JsonMember>, key: Seq<char>) -> Option<Json>
    decreases ms.len(),
{
    if ms.len() == 0 {
        None
    } else if ms[0].key@ == key {
        Some(ms[0].value)
    } else {
        members_get(ms.drop_first(), key)
    }
}

/// `value.get(key)`: the member of an object, `None` for any other value.
pub open spec fn get(v: Json, key: Seq<char>) -> Option<Json> {
    match v {
        Json::Object(ms) => members_get(ms@, key),
        _ => None,
    }
}

/// `opt.and_then(|v| v.get(key))`.
pub open spec fn get_in(v: Option<Json>, key: Seq<char>) -> Option<Json> {
    match v {
        Some(x) => get(x, key),
        None => None,
    }
}

/// The JSON value behind an optional reference.
pub open spec fn deref_opt(r: Option<&Json>) -> Option<Json> {
    match r {
        Some(x) => Some(*x),
        None => None,
    }
}

/// The characters of an optional string.
pub open spec fn opt_view(s: Option<String>) -> Option<Seq<char>> {
    match s {
        Some(x) => Some(x@),
        None => None,
    }
}

/// The characters of a string, or the empty text (`unwrap_or_default`).
pub open spec fn view_or_empty(s: Option<Seq<char>>) -> Seq<char> {
    match s {
        Some(x) => x,
        None => Seq::empty(),
    }
}

/// `json_string`: the text of a string value.
pub open spec fn json_text(v: Option<Json>) -> Option<Seq<char>> {
    match v {
        Some(Json::Text(s)) => Some(s@),
        _ => None,
    }
}

/// `Value::as_bool`.
pub open spec fn json_as_bool(v: Option<Json>) -> Option<bool> {
    match v {
        Some(Json::Bool(b)) => Some(b),
        _ => None,
    }
}

/// `json_id`: a non-empty string, or a number in its printed form.
pub open spec fn json_id_spec(v: Option<Json>) -> Option<Seq<char>> {
    match v {
        Some(Json::Text(s)) => if s@.len() > 0 {
            Some(s@)
        } else {
            None
        },
        Some(Json::Number(n)) => Some(n.text@),
        _ => None,
    }
}

/// `json_i64`: an integer number, a float number cast to `i64`, or a
/// string that parses as an `i64`.
pub open spec fn json_i64_spec(v: Option<Json>) -> Option<i64> {
    match v {
        Some(Json::Number(n)) => match n.as_i64 {
            Some(i) => Some(i),
            None => n.as_f64_as_i64,
        },
        Some(Json::Text(s)) => parse_i64_spec(s@),
        _ => None,
    }
}

/// `json_u32`: a non-negative integer number cut to its low 32 bits, or a
/// string that parses as a `u32`.
pub open spec fn json_u32_spec(v: Option<Json>) -> Option<u32> {
    match v {
        Some(Json::Number(n)) => match n.as_u64 {
            Some(u) => Some(u as u32),
            None => None,
        },
        Some(Json::Text(s)) => parse_u32_spec(s@),
        _ => None,
    }
}

/// `json_u64`: a non-negative integer number, or a string that parses as a
/// `u64`.
pub open spec fn json_u64_spec(v: Option<Json>) -> Option<u64> {
    match v {
        Some(Json::Number(n)) => n.as_u64,
        Some(Json::Text(s)) => parse_u64_spec(s@),
        _ => None,
    }
}

/// `json_bool`: a boolean, a number read as "not zero", or one of the
/// strings `true`, `1`, `false`, `0`.
pub open spec fn json_bool_spec(v: Option<Json>) -> Option<bool> {
    match v {
        Some(Json::Bool(b)) => Some(b),
        Some(Json::Number(n)) => Some(
            match n.as_i64 {
                Some(i) => i != 0,
                None => false,
            },
        ),
        Some(Json::Text(s)) => if s@ == "true"@ || s@ == "1"@ {
            Some(true)
        } else if s@ == "false"@ || s@ == "0"@ {
            Some(false)
        } else {
            None
        },
        _ => None,
    }
}

/// The elements of an array value; nothing for any other value.
pub open spec fn array_items(v: Option<Json>) -> Seq<Json> {
    match v {
        Some(Json::Array(items)) => items@,
        _ => Seq::empty(),
    }
}

/// A result with its success value and its error message taken by view.
pub open spec fn view_result<T: View>(r: Result<T, String>) -> Result<T::V, Seq<char>> {
    match r {
        Ok(t) => Ok(t@),
        Err(e) => Err(e@),
    }
}

/// A result carrying a list, each element and the error message taken by
/// view.
pub open spec fn seq_view_result<T: View>(r: Result<Vec<T>, String>) -> Result<Seq<T::V>, Seq<char>> {
    match r {
        Ok(v) => Ok(v@.map_values(|x: T| x@)),
        Err(e) => Err(e@),
    }
}

/// The first of two optional texts that is present.
pub open spec fn or_text(a: Option<Seq<char>>, b: Option<Seq<char>>) -> Option<Seq<char>> {
    match a {
        Some(x) => Some(x),
        None => b,
    }
}

/// A result carrying a JSON value, with its error message taken by view.
pub open spec fn json_result(r: Result<Json, String>) -> Result<Json, Seq<char>> {
    match r {
        Ok(t) => Ok(t),
        Err(e) => Err(e@),
    }
}

/// The message an API error body carries: its `error` string, trimmed, when
/// that is not empty; the fallback otherwise.
pub open spec fn error_message(v: Json, fallback: Seq<char>) -> Seq<char> {
    match json_text(get(v, "error"@)) {
        Some(e) => if trim(e).len() > 0 {
            trim(e)
        } else {
            fallback
        },
        None => fallback,
    }
}

/// The error message of a body that may not have parsed.
pub open spec fn error_from_parsed(parsed: Option<Json>, fallback: Seq<char>) -> Seq<char> {
    match parsed {
        Some(v) => error_message(v, fallback),
        None => fallback,
    }
}

/// The body's `success` flag is `true`.
pub open spec fn is_success(v: Json) -> bool {
    json_as_bool(get(v, "success"@)) == Some(true)
}

proof fn lemma_members_get_step(ms: Seq<JsonMember>, i: int, key: Seq<char>)
    requires
        0 <= i < ms.len(),
        ms[i].key@ != key,
    ensures
        members_get(ms.subrange(i, ms.len() as int), key) == members_get(
            ms.subrange(i + 1, ms.len() as int),
            key,
        ),
{
    assert(ms.subrange(i, ms.len() as int).drop_first() =~= ms.subrange(i + 1, ms.len() as int));
}

/// `value.get(key)`.
pub fn json_get<'a>(v: &'a Json, key: &str) -> (r: Option<&'a Json>)
    ensures
        deref_opt(r) == get(*v, key@),
{
    match v {
        Json::Object(members) => {
            let n = members.len();
            let mut i: usize = 0;
            assert(members@.subrange(0, n as int) =~= members@);
            while i < n
                invariant
                    n == members@.len(),
                    i <= n,
                    get(*v, key@) == members_get(members@, key@),
                    members_get(members@, key@) == members_get(
                        members@.subrange(i as int, n as int),
                        key@,
                    ),
                decreases n - i,
            {
                if str_eq(members[i].key.as_str(), key) {
                    assert(members@.subrange(i as int, n as int)[0] == members@[i as int]);
                    return Some(&members[i].value);
                }
                proof {
                    lemma_members_get_step(members@, i as int, key@);
                }
                i = i + 1;
            }
            None
        },
        _ => None,
    }
}

/// `opt.and_then(|v| v.get(key))`.
pub fn json_get_in<'a>(v: Option<&'a Json>, key: &str) -> (r: Option<&'a Json>)
    ensures
        deref_opt(r) == get_in(deref_opt(v), key@),
{
    match v {
        Some(x) => json_get(x, key),
        None => None,
    }
}

/// `json_string`: the text of a string value.
pub fn json_string(v: Option<&Json>) -> (r: Option<String>)
    ensures
        opt_view(r) == json_text(deref_opt(v)),
{
    match v {
        Some(Json::Text(s)) => Some(s.clone()),
        _ => None,
    }
}

/// `json_string(..).unwrap_or_default()`.
pub fn json_string_or_empty(v: Option<&Json>) -> (r: String)
    ensures
        r@ == view_or_empty(json_text(deref_opt(v))),
{
    match v {
        Some(Json::Text(s)) => s.clone(),
        _ => String::new(),
    }
}

/// `Value::as_bool`.
pub fn json_bool_value(v: Option<&Json>) -> (r: Option<bool>)
    ensures
        r == json_as_bool(deref_opt(v)),
{
    match v {
        Some(Json::Bool(b)) => Some(*b),
        _ => None,
    }
}

/// `json_id`.
pub fn json_id(v: Option<&Json>) -> (r: Option<String>)
    ensures
        opt_view(r) == json_id_spec(deref_opt(v)),
{
    match v {
        Some(Json::Text(s)) => {
            if s.as_str().unicode_len() > 0 {
                Some(s.clone())
            } else {
                None
            }
        },
        Some(Json::Number(n)) => Some(n.text.clone()),
        _ => None,
    }
}

/// `json_i64`.
pub fn json_i64(v: Option<&Json>) -> (r: Option<i64>)
    ensures
        r == json_i64_spec(deref_opt(v)),
{
    match v {
        Some(Json::Number(n)) => match n.as_i64 {
            Some(i) => Some(i),
            None => n.as_f64_as_i64,
        },
        Some(Json::Text(s)) => parse_i64_text(s.as_str()),
        _ => None,
    }
}

/// `json_u32`.
pub fn json_u32(v: Option<&Json>) -> (r: Option<u32>)
    ensures
        r == json_u32_spec(deref_opt(v)),
{
    match v {
        Some(Json::Number(n)) => match n.as_u64 {
            Some(u) => Some(u as u32),
            None => None,
        },
        Some(Json::Text(s)) => parse_u32_text(s.as_str()),
        _ => None,
    }
}

/// `json_u64`.
pub fn json_u64(v: Option<&Json>) -> (r: Option<u64>)
    ensures
        r == json_u64_spec(deref_opt(v)),
{
    match v {
        Some(Json::Number(n)) => n.as_u64,
        Some(Json::Text(s)) => parse_u64_text(s.as_str()),
        _ => None,
    }
}

/// `json_bool`.
pub fn json_bool(v: Option<&Json>) -> (r: Option<bool>)
    ensures
        r == json_bool_spec(deref_opt(v)),
{
    match v {
        Some(Json::Bool(b)) => Some(*b),
        Some(Json::Number(n)) => Some(
            match n.as_i64 {
                Some(i) => i != 0,
                None => false,
            },
        ),
        Some(Json::Text(s)) => {
            if str_eq(s.as_str(), "true") || str_eq(s.as_str(), "1") {
                Some(true)
            } else if str_eq(s.as_str(), "false") || str_eq(s.as_str(), "0") {
                Some(false)
            } else {
                None
            }
        },
        _ => None,
    }
}

/// `json_error_message`: the trimmed `error` string of a body, or the
/// fallback when there is none or it is blank.
pub fn json_error_message(v: &Json, fallback: &str) -> (r: String)
    ensures
        r@ == error_message(*v, fallback@),
{
    match json_string(json_get(v, "error")) {
        Some(e) => {
            let t = trim_str(e.as_str());
            if t.as_str().unicode_len() > 0 {
                t
            } else {
                String::from_str(fallback)
            }
        },
        None => String::from_str(fallback),
    }
}

/// The error message of a body that may not have parsed.
pub fn error_from_body(parsed: &Option<Json>, fallback: &str) -> (r: String)
    ensures
        r@ == error_from_parsed(*parsed, fallback@),
{
    match parsed {
        Some(v) => json_error_message(v, fallback),
        None => String::from_str(fallback),
    }
}

/// Whether a body's `success` flag is `true`.
pub fn success_flag(v: &Json) -> (r: bool)
    ensures
        r == is_success(*v),
{
    match json_bool_value(json_get(v, "success")) {
        Some(b) => b,
        None => false,
    }
}


/// The text of a monetary amount or other fractional number as the API
/// sent it: a number's printed form, or a string; nothing for any other
/// value. Reading it as a number is left to the caller.
pub open spec fn amount_text(v: Option<Json>) -> Option<Seq<char>> {
    match v {
        Some(Json::Number(n)) => Some(n.text@),
        Some(Json::Text(t)) => Some(t@),
        _ => None,
    }
}

pub fn json_amount(v: Option<&Json>) -> (r: Option<String>)
    ensures
        opt_view(r) == amount_text(deref_opt(v)),
{
    match v {
        Some(Json::Number(n)) => Some(n.text.clone()),
        Some(Json::Text(t)) => Some(t.clone()),
        _ => None,
    }
}

/// Removes and hands back the value of an object's member.
pub fn take_member(v: Json, key: &str) -> (r: Option<Json>)
    ensures
        r == get(v, key@),
{
    let ghost gv = v;
    match v {
        Json::Object(mut members) => {
            let ghost all = members@;
            assert(get(gv, key@) == members_get(all, key@));
            let n = members.len();
            let mut i: usize = 0;
            assert(all.subrange(0, n as int) =~= all);
            while i < n
                invariant
                    n == members@.len(),
                    members@ == all,
                    i <= n,
                    get(gv, key@) == members_get(all, key@),
                    gv == v,
                    members_get(all, key@) == members_get(
                        all.subrange(i as int, n as int),
                        key@,
                    ),
                decreases n - i,
            {
                if str_eq(members[i].key.as_str(), key) {
                    assert(all.subrange(i as int, n as int)[0] == all[i as int]);
                    assert(members_get(all, key@) == Some(all[i as int].value));
                    let m = members.remove(i);
                    assert(m == all[i as int]);
                    assert(get(gv, key@) == Some(m.value));
                    return Some(m.value);
                }
                proof {
                    assert(all.subrange(i as int, n as int).drop_first() =~= all.subrange(
                        i + 1,
                        n as int,
                    ));
                }
                i = i + 1;
            }
            None
        },
        _ => None,
    }
}



/// A request's error as shown: the fallback in place of a blank message.
pub fn error_or_fallback(error: String, fallback: &str) -> (r: String)
    ensures
        r@ == (if is_blank(error@) {
            fallback@
        } else {
            error@
        }),
{
    if blank(error.as_str()) {
        String::from_str(fallback)
    } else {
        error
    }
}

/// A request's error as shown: the fallback in place of an empty message.
pub fn error_or_fallback_if_empty(error: String, fallback: &str) -> (r: String)
    ensures
        r@ == (if error@.len() == 0 {
            fallback@
        } else {
            error@
        }),
{
    if error.as_str().unicode_len() == 0 {
        String::from_str(fallback)
    } else {
        error
    }
}


/// `json_display`: a string or a number as written, nothing for `null` or a
/// missing value, and any other value in JSON's compact form.
pub open spec fn display_text(v: Option<Json>) -> Seq<char> {
    match v {
        Some(Json::Text(t)) => t@,
        Some(Json::Number(n)) => n.text@,
        Some(Json::Null) => Seq::empty(),
        None => Seq::empty(),
        Some(other) => written_json(other),
    }
}

pub fn json_display(v: Option<&Json>) -> (r: String)
    ensures
        r@ == display_text(deref_opt(v)),
{
    match v {
        Some(Json::Text(t)) => t.clone(),
        Some(Json::Number(n)) => n.text.clone(),
        Some(Json::Null) => String::new(),
        None => String::new(),
        Some(other) => write_json(other),
    }
}

} // verus!
