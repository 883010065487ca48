//! The crate's trusted boundary: declarations and thin wrappers around the
//! outside crates (serde_json, chrono, url) and the few std functions vstd
//! leaves unspecified. Everything here is believed, not proved; each item's
//! doc comment names exactly what it relies on.

use vstd::prelude::*;

verus! {

#[verifier::external_type_specification]
#[verifier::external_body]
pub struct ExValue(serde_json::Value);

// THE CONTENT MODEL OF A JSON VALUE
//
// A parsed value is opaque; what it holds is given a mathematical model,
// and every accessor wrapper states its result against that model. The
// model is the only assumption tying the opaque document to the verified
// decoders.

/// The content of a JSON document. Object fields are listed in the map's
/// iteration order (sorted by key); a number carries the literal text it
/// is stored under in the arbitrary-precision representation.
pub enum JsonModel {
    Null,
    Bool(bool),
    NumText(Seq<char>),
    Text(Seq<char>),
    Arr(Seq<JsonModel>),
    Obj(Seq<(Seq<char>, JsonModel)>),
}

/// The fields of an object value, empty for any other value.
pub open spec fn fields_of(m: JsonModel) -> Seq<(Seq<char>, JsonModel)> {
    match m {
        JsonModel::Obj(fs) => fs,
        _ => Seq::empty(),
    }
}

/// The elements of an array value, empty for any other value.
pub open spec fn elems_of(m: JsonModel) -> Seq<JsonModel> {
    match m {
        JsonModel::Arr(es) => es,
        _ => Seq::empty(),
    }
}

/// The first binding of a key in a field list.
pub open spec fn assoc_lookup(fs: Seq<(Seq<char>, JsonModel)>, key: Seq<char>) -> Option<
    JsonModel,
>
    decreases fs.len(),
{
    if fs.len() == 0 {
        None
    } else if fs[0].0 == key {
        Some(fs[0].1)
    } else {
        assoc_lookup(fs.drop_first(), key)
    }
}

/// The field of an object under a key, `None` for other values or a
/// missing key.
pub open spec fn field_of(m: JsonModel, key: Seq<char>) -> Option<JsonModel> {
    match m {
        JsonModel::Obj(fs) => assoc_lookup(fs, key),
        _ => None,
    }
}

pub open spec fn text_of(m: JsonModel) -> Option<Seq<char>> {
    match m {
        JsonModel::Text(t) => Some(t),
        _ => None,
    }
}

pub open spec fn num_text_of(m: JsonModel) -> Option<Seq<char>> {
    match m {
        JsonModel::NumText(t) => Some(t),
        _ => None,
    }
}

pub open spec fn bool_of(m: JsonModel) -> Option<bool> {
    match m {
        JsonModel::Bool(b) => Some(b),
        _ => None,
    }
}

/// The `i64` an integer literal denotes: an optional minus sign, then
/// digits to the end of the text, with the value inside the machine range.
pub open spec fn int_literal(t: Seq<char>) -> Option<i64> {
    let neg = t.len() > 0 && t[0] == '-';
    let start: int = if neg {
        1
    } else {
        0
    };
    if start < t.len() && crate::decimal::digit_run_end(t, start) == t.len() {
        let v = crate::decimal::digits_val(t.subrange(start, t.len() as int));
        let sv = if neg {
            -v
        } else {
            v
        };
        if i64::MIN <= sv <= i64::MAX {
            Some(sv as i64)
        } else {
            None
        }
    } else {
        None
    }
}

/// The `i64` a number value denotes, `None` for non-integer literals,
/// out-of-range values and non-numbers.
pub open spec fn int_of_model(m: JsonModel) -> Option<i64> {
    match num_text_of(m) {
        Some(t) => int_literal(t),
        None => None,
    }
}

// Readings of an object's field, the forms the decoders use.

pub open spec fn obj_int(m: JsonModel, key: Seq<char>) -> Option<i64> {
    match field_of(m, key) {
        Some(f) => int_of_model(f),
        None => None,
    }
}

pub open spec fn obj_text(m: JsonModel, key: Seq<char>) -> Option<Seq<char>> {
    match field_of(m, key) {
        Some(f) => text_of(f),
        None => None,
    }
}

pub open spec fn obj_num_text(m: JsonModel, key: Seq<char>) -> Option<Seq<char>> {
    match field_of(m, key) {
        Some(f) => num_text_of(f),
        None => None,
    }
}

pub open spec fn obj_bool(m: JsonModel, key: Seq<char>) -> Option<bool> {
    match field_of(m, key) {
        Some(f) => bool_of(f),
        None => None,
    }
}

pub open spec fn obj_int_or0(m: JsonModel, key: Seq<char>) -> i64 {
    match obj_int(m, key) {
        Some(x) => x,
        None => 0,
    }
}

pub open spec fn obj_text_or_empty(m: JsonModel, key: Seq<char>) -> Seq<char> {
    match obj_text(m, key) {
        Some(t) => t,
        None => Seq::empty(),
    }
}

pub open spec fn obj_bool_or_false(m: JsonModel, key: Seq<char>) -> bool {
    match obj_bool(m, key) {
        Some(b) => b,
        None => false,
    }
}

/// The content of a parsed JSON value. A pure function of the value.
pub uninterp spec fn json_model(v: serde_json::Value) -> JsonModel;

/// The document a JSON text parses to, `None` where the text is not valid
/// JSON. A function of the text alone.
pub uninterp spec fn json_of_text(s: Seq<char>) -> Option<JsonModel>;

/// Relies on serde_json::from_str: `Some` exactly when the text is valid
/// JSON, carrying its document.
#[verifier::external_body]
pub(crate) fn json_parse(s: &str) -> (r: Option<serde_json::Value>)
    ensures
        match r {
            Some(v) => json_of_text(s@) == Some(json_model(v)),
            None => json_of_text(s@) is None,
        },
{
    serde_json::from_str(s).ok()
}

/// Relies on serde_json::Value::get with a string key: the field of an
/// object, `None` on other values or a missing key.
#[verifier::external_body]
pub(crate) fn json_get_field<'a>(v: &'a serde_json::Value, key: &str) -> (r: Option<
    &'a serde_json::Value,
>)
    ensures
        match r {
            Some(f) => field_of(json_model(*v), key@) == Some(json_model(*f)),
            None => field_of(json_model(*v), key@) is None,
        },
{
    v.get(key)
}

/// Relies on serde_json::Value::get with an index: the element of an array,
/// `None` on other values or out of range.
#[verifier::external_body]
pub(crate) fn json_get_index<'a>(v: &'a serde_json::Value, i: usize) -> (r: Option<
    &'a serde_json::Value,
>)
    ensures
        match r {
            Some(f) => json_model(*v) is Arr && i < elems_of(json_model(*v)).len() && elems_of(
                json_model(*v),
            )[i as int] == json_model(*f),
            None => !(json_model(*v) is Arr && i < elems_of(json_model(*v)).len()),
        },
{
    v.get(i)
}

/// Relies on serde_json::Value::as_array: the length of an array value.
#[verifier::external_body]
pub(crate) fn json_array_len(v: &serde_json::Value) -> (r: Option<usize>)
    ensures
        match r {
            Some(n) => json_model(*v) is Arr && n == elems_of(json_model(*v)).len(),
            None => !(json_model(*v) is Arr),
        },
{
    v.as_array().map(|a| a.len())
}

/// Relies on serde_json::Value::as_object: the number of keys of an object
/// value.
#[verifier::external_body]
pub(crate) fn json_object_len(v: &serde_json::Value) -> (r: Option<usize>)
    ensures
        match r {
            Some(n) => json_model(*v) is Obj && n == fields_of(json_model(*v)).len(),
            None => !(json_model(*v) is Obj),
        },
{
    v.as_object().map(|m| m.len())
}

/// Relies on serde_json::Value::as_object and Map::keys: the first key of an
/// object value, in the map's iteration order.
#[verifier::external_body]
pub(crate) fn json_first_key(v: &serde_json::Value) -> (r: Option<String>)
    ensures
        match r {
            Some(k) => json_model(*v) is Obj && fields_of(json_model(*v)).len() > 0 && k@
                == fields_of(json_model(*v))[0].0,
            None => !(json_model(*v) is Obj && fields_of(json_model(*v)).len() > 0),
        },
{
    v.as_object().and_then(|m| m.keys().next().cloned())
}

/// Relies on serde_json::Value::as_i64 (under the arbitrary-precision
/// representation it parses the stored literal): the value of an integer
/// literal that fits in an `i64`.
#[verifier::external_body]
pub(crate) fn json_as_i64(v: &serde_json::Value) -> (r: Option<i64>)
    ensures
        r == int_of_model(json_model(*v)),
{
    v.as_i64()
}

/// Relies on serde_json::Value::as_bool: the value of a boolean.
#[verifier::external_body]
pub(crate) fn json_as_bool(v: &serde_json::Value) -> (r: Option<bool>)
    ensures
        r == bool_of(json_model(*v)),
{
    v.as_bool()
}

/// Relies on serde_json::Value::as_str (str::to_owned): the text of a string
/// value.
#[verifier::external_body]
pub(crate) fn json_as_string(v: &serde_json::Value) -> (r: Option<String>)
    ensures
        match r {
            Some(s) => text_of(json_model(*v)) == Some(s@),
            None => text_of(json_model(*v)) is None,
        },
{
    v.as_str().map(|s| s.to_owned())
}

/// Relies on serde_json::Value::as_number and Number::as_str (the crate is
/// built with its arbitrary-precision representation): the literal text the
/// number is stored under — the parsed text, up to the crate's
/// normalization of exponent signs.
#[verifier::external_body]
pub(crate) fn json_number_text(v: &serde_json::Value) -> (r: Option<String>)
    ensures
        match r {
            Some(t) => num_text_of(json_model(*v)) == Some(t@),
            None => num_text_of(json_model(*v)) is None,
        },
{
    v.as_number().map(|n| n.as_str().to_owned())
}

/// The epoch milliseconds an RFC 3339 timestamp denotes, `None` where the
/// text is not one. A function of the text alone.
pub uninterp spec fn rfc3339_millis_of(s: Seq<char>) -> Option<i64>;

/// Relies on chrono::DateTime::parse_from_rfc3339 and
/// chrono::DateTime::timestamp_millis: parse an RFC 3339 timestamp and
/// return the epoch milliseconds it denotes.
#[verifier::external_body]
pub(crate) fn parse_rfc3339_millis(s: &str) -> (r: Option<i64>)
    ensures
        r == rfc3339_millis_of(s@),
{
    chrono::DateTime::parse_from_rfc3339(s).ok().map(|t| t.timestamp_millis())
}

/// The normal form a URL text parses to, `None` where it is not a valid
/// URL. A function of the text alone.
pub uninterp spec fn url_normalized(s: Seq<char>) -> Option<Seq<char>>;

/// Relies on url::Url::parse and its Display form: parse a URL and return
/// its normalized text.
#[verifier::external_body]
pub(crate) fn parse_url_normalized(s: &str) -> (r: Option<String>)
    ensures
        match r {
            Some(t) => url_normalized(s@) == Some(t@),
            None => url_normalized(s@) is None,
        },
{
    url::Url::parse(s).ok().map(|u| u.to_string())
}

} // verus!
