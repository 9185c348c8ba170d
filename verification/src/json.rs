//! JSON documents. `serde_json::Value` holds them; `Json` says what one holds.

use crate::ids::Uuid;
use vstd::prelude::*;

verus! {

#[verifier::external_type_specification]
#[verifier::external_body]
pub struct ExValue(serde_json::Value);

#[verifier::external_type_specification]
#[verifier::external_body]
pub struct ExJsonError(serde_json::Error);

/// What a JSON document holds. `Float` is a number that is not held as an
/// integer, by its bit pattern.
pub enum Json {
    Null,
    Bool(bool),
    Int(int),
    Float(u64),
    Str(Seq<char>),
    Array(Seq<Json>),
    Object(Map<Seq<char>, Json>),
}

/// What `v` holds.
pub uninterp spec fn json_of(v: serde_json::Value) -> Json;

/// The compact text of a document, its object keys in ascending order.
pub uninterp spec fn json_text(j: Json) -> Seq<char>;

/// The document that a text reads as.
pub uninterp spec fn json_read(text: Seq<char>) -> Option<Json>;

/// Whether `j` nests at most `n` arrays and objects inside each other, and no
/// object in it has the key that `serde_json` keeps for itself.
pub open spec fn readable(j: Json, n: nat) -> bool
    decreases n,
{
    match j {
        Json::Array(s) => n > 0 && forall|i: int| 0 <= i < s.len() ==> readable(#[trigger] s[i], (n - 1) as nat),
        Json::Object(m) => n > 0 && !m.contains_key("$serde_json::private::RawValue"@)
            && forall|k: Seq<char>| #[trigger] m.contains_key(k) ==> readable(m[k], (n - 1) as nat),
        _ => true,
    }
}

/// The most arrays and objects inside each other that a text is read with.
pub const MAX_NESTING: usize = 127;

/// Whether `text` reads as an object with the fields of `j`, where `j` is an
/// object that can be read back: the same keys, and the same null, boolean,
/// integer and string fields.
pub open spec fn reads_back(text: Seq<char>, j: Json) -> bool {
    j matches Json::Object(m) ==> readable(j, MAX_NESTING as nat) ==> {
        &&& json_read(text) matches Some(Json::Object(r))
        &&& r.dom() == m.dom()
        &&& forall|k: Seq<char>| #[trigger]
            m.contains_key(k) && (m[k] is Null || m[k] is Bool || m[k] is Int || m[k] is Str) ==> r[k] == m[k]
    }
}

/// `serde_json::Value::Object` with an empty map.
#[verifier::external_body]
pub(crate) fn object() -> (v: serde_json::Value)
    ensures
        json_of(v) == Json::Object(Map::empty()),
{
    serde_json::Value::Object(serde_json::Map::new())
}

/// `IndexMut` of `serde_json::Value` with a string: sets one key of an object.
#[verifier::external_body]
pub(crate) fn put(object: &mut serde_json::Value, key: &str, value: serde_json::Value)
    requires
        json_of(*old(object)) is Object,
    ensures
        json_of(*final(object)) == Json::Object(json_of(*old(object))->Object_0.insert(key@, json_of(value))),
{
    object[key] = value;
}

/// `Display` of `serde_json::Value`: the compact text, which is one line. Where the
/// document is not nested too deeply, `serde_json::from_str` reads an object back
/// with the same keys, and with the same null, boolean, integer and string fields.
#[verifier::external_body]
pub(crate) fn text(v: &serde_json::Value) -> (s: String)
    ensures
        s@ == json_text(json_of(*v)),
        !s@.contains('\n'),
        reads_back(s@, json_of(*v)),
{
    v.to_string()
}

/// The text of a document, indented, its object keys in ascending order.
pub uninterp spec fn json_pretty(j: Json) -> Seq<char>;

/// `serde_json::to_string_pretty` of a `Value`, which does not fail: every key is a
/// string, and the text is written to memory.
#[verifier::external_body]
pub(crate) fn pretty(v: &serde_json::Value) -> (r: Result<String, serde_json::Error>)
    ensures
        match r {
            Ok(s) => s@ == json_pretty(json_of(*v)),
            Err(_) => false,
        },
{
    serde_json::to_string_pretty(v)
}

/// `serde_json::from_str` to a `Value`.
#[verifier::external_body]
pub(crate) fn read(s: &str) -> (r: Result<serde_json::Value, serde_json::Error>)
    ensures
        match r {
            Ok(v) => json_read(s@) == Some(json_of(v)),
            Err(_) => json_read(s@) is None,
        },
{
    serde_json::from_str(s)
}

/// `serde_json::Value::get` with a string: a field of an object.
#[verifier::external_body]
pub(crate) fn field<'a>(v: &'a serde_json::Value, key: &str) -> (r: Option<&'a serde_json::Value>)
    ensures
        match json_of(*v) {
            Json::Object(m) => match r {
                Some(x) => m.contains_key(key@) && json_of(*x) == m[key@],
                None => !m.contains_key(key@),
            },
            _ => r is None,
        },
{
    v.get(key)
}

/// `serde_json::Value::as_i64`.
#[verifier::external_body]
pub(crate) fn as_i64(v: &serde_json::Value) -> (r: Option<i64>)
    ensures
        r == (match json_of(*v) {
            Json::Int(n) => if i64::MIN <= n <= i64::MAX { Some(n as i64) } else { None },
            _ => None,
        }),
{
    v.as_i64()
}

/// `serde_json::Value::as_str`.
#[verifier::external_body]
pub(crate) fn as_str(v: &serde_json::Value) -> (r: Option<&str>)
    ensures
        match json_of(*v) {
            Json::Str(s) => r matches Some(x) && x@ == s,
            _ => r is None,
        },
{
    v.as_str()
}

/// The string in the field `key`, if `j` is an object with one there.
pub open spec fn str_field(j: Json, key: Seq<char>) -> Option<Seq<char>> {
    match j {
        Json::Object(m) => if m.contains_key(key) {
            match m[key] {
                Json::Str(s) => Some(s),
                _ => None,
            }
        } else {
            None
        },
        _ => None,
    }
}

/// The string in the field `key`.
pub(crate) fn text_field<'a>(v: &'a serde_json::Value, key: &str) -> (r: Option<&'a str>)
    ensures
        match r {
            Some(s) => str_field(json_of(*v), key@) == Some(s@),
            None => str_field(json_of(*v), key@) is None,
        },
        match json_of(*v) {
            Json::Object(m) => if m.contains_key(key@) && m[key@] is Str {
                r matches Some(s) && m[key@] == Json::Str(s@)
            } else {
                r is None
            },
            _ => r is None,
        },
{
    match field(v, key) {
        Some(f) => as_str(f),
        None => None,
    }
}

/// `serde_json::Value::as_u64`.
#[verifier::external_body]
pub(crate) fn as_u64(v: &serde_json::Value) -> (r: Option<u64>)
    ensures
        r == (match json_of(*v) {
            Json::Int(n) => if 0 <= n <= u64::MAX { Some(n as u64) } else { None },
            _ => None,
        }),
{
    v.as_u64()
}

/// The number in the field `key`, if `j` is an object with one there that fits.
pub open spec fn u64_field(j: Json, key: Seq<char>) -> Option<u64> {
    match j {
        Json::Object(m) => if m.contains_key(key) {
            match m[key] {
                Json::Int(n) => if 0 <= n <= u64::MAX { Some(n as u64) } else { None },
                _ => None,
            }
        } else {
            None
        },
        _ => None,
    }
}

/// The number in the field `key`.
pub(crate) fn count_field(v: &serde_json::Value, key: &str) -> (r: Option<u64>)
    ensures
        r == u64_field(json_of(*v), key@),
        match json_of(*v) {
            Json::Object(m) => if m.contains_key(key@) && (m[key@] matches Json::Int(n) && 0 <= n <= u64::MAX) {
                r matches Some(n) && m[key@] == Json::Int(n as int)
            } else {
                r is None
            },
            _ => r is None,
        },
{
    match field(v, key) {
        Some(f) => as_u64(f),
        None => None,
    }
}

/// `serde_json::Value::Null`.
#[verifier::external_body]
pub(crate) fn null() -> (v: serde_json::Value)
    ensures
        json_of(v) == Json::Null,
{
    serde_json::Value::Null
}

/// `serde_json::Value` from a `bool`.
#[verifier::external_body]
pub(crate) fn boolean(b: bool) -> (v: serde_json::Value)
    ensures
        json_of(v) == Json::Bool(b),
{
    serde_json::Value::from(b)
}

/// `serde_json::Value` from a `u64`.
#[verifier::external_body]
pub(crate) fn count(n: u64) -> (v: serde_json::Value)
    ensures
        json_of(v) == Json::Int(n as int),
{
    serde_json::Value::from(n)
}

/// `serde_json::Value` from a `Vec` of values.
#[verifier::external_body]
pub(crate) fn array(items: Vec<serde_json::Value>) -> (v: serde_json::Value)
    ensures
        json_of(v) == Json::Array(items@.map_values(|x: serde_json::Value| json_of(x))),
{
    serde_json::Value::from(items)
}

/// `Clone` of `serde_json::Value`: a value that holds the same.
pub assume_specification[ <serde_json::Value as Clone>::clone ](v: &serde_json::Value) -> (r: serde_json::Value)
    ensures
        json_of(r) == json_of(*v),
;

/// `serde_json::Value` from an `i64`.
#[verifier::external_body]
pub(crate) fn number(n: i64) -> (v: serde_json::Value)
    ensures
        json_of(v) == Json::Int(n as int),
{
    serde_json::Value::from(n)
}

/// `serde_json::Value` from a `&str`.
#[verifier::external_body]
pub(crate) fn string(s: &str) -> (v: serde_json::Value)
    ensures
        json_of(v) == Json::Str(s@),
{
    serde_json::Value::from(s)
}

/// `object` with one more key.
pub(crate) fn with(object: serde_json::Value, key: &str, value: serde_json::Value) -> (v: serde_json::Value)
    requires
        json_of(object) is Object,
    ensures
        json_of(v) == Json::Object(json_of(object)->Object_0.insert(key@, json_of(value))),
{
    let mut v = object;
    put(&mut v, key, value);
    v
}

/// A string, or null.
pub open spec fn opt_str_json(s: Option<String>) -> Json {
    match s {
        Some(x) => Json::Str(x@),
        None => Json::Null,
    }
}

/// A string, or null.
pub(crate) fn opt_string(s: &Option<String>) -> (v: serde_json::Value)
    ensures
        json_of(v) == opt_str_json(*s),
        s matches Some(x) ==> json_of(v) == Json::Str(x@),
        s is None ==> json_of(v) == Json::Null,
{
    match s {
        Some(x) => string(x.as_str()),
        None => null(),
    }
}

/// A UUID's hyphenated form.
pub(crate) fn uuid(u: &Uuid) -> (v: serde_json::Value)
    ensures
        json_of(v) == Json::Str(u.text()),
{
    let s = u.to_text();
    string(s.as_str())
}

/// A UUID's hyphenated form, or null.
pub open spec fn opt_uuid_json(u: Option<Uuid>) -> Json {
    match u {
        Some(x) => Json::Str(x.text()),
        None => Json::Null,
    }
}

/// A UUID's hyphenated form, or null.
pub(crate) fn opt_uuid(u: &Option<Uuid>) -> (v: serde_json::Value)
    ensures
        json_of(v) == opt_uuid_json(*u),
        u matches Some(x) ==> json_of(v) == Json::Str(x.text()),
        u is None ==> json_of(v) == Json::Null,
{
    match u {
        Some(x) => uuid(x),
        None => null(),
    }
}

/// A number, or null.
pub open spec fn opt_int_json(n: Option<int>) -> Json {
    match n {
        Some(x) => Json::Int(x),
        None => Json::Null,
    }
}

/// A number, or null.
pub(crate) fn opt_number(n: &Option<i64>) -> (v: serde_json::Value)
    ensures
        json_of(v) == opt_int_json(
            match *n {
                Some(x) => Some(x as int),
                None => None,
            },
        ),
        n matches Some(x) ==> json_of(v) == Json::Int(*x as int),
        n is None ==> json_of(v) == Json::Null,
{
    match n {
        Some(x) => number(*x),
        None => null(),
    }
}

/// A number, or null.
pub(crate) fn opt_small_number(n: &Option<i32>) -> (v: serde_json::Value)
    ensures
        json_of(v) == opt_int_json(
            match *n {
                Some(x) => Some(x as int),
                None => None,
            },
        ),
        n matches Some(x) ==> json_of(v) == Json::Int(*x as int),
        n is None ==> json_of(v) == Json::Null,
{
    match n {
        Some(x) => number(*x as i64),
        None => null(),
    }
}

} // verus!
