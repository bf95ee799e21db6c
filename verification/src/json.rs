use vstd::prelude::*;

verus! {

/// A JSON value as `serde_json` represents it; opaque here, carried through.
#[verifier::external_type_specification]
#[verifier::external_body]
pub struct ExJsonValue(serde_json::Value);

/// Whether `serde_json::from_str::<serde_json::Value>` accepts `text`.
pub uninterp spec fn json_parses(text: Seq<char>) -> bool;

/// The value that `serde_json::from_str::<serde_json::Value>` gives for `text`
/// when it accepts it.
pub uninterp spec fn json_value(text: Seq<char>) -> serde_json::Value;

/// Whether `v` is a JSON object (`Value::is_object`).
pub uninterp spec fn json_is_object(v: serde_json::Value) -> bool;

/// The string stored under `key` when `v` is an object with a string there
/// (`Value::get`, then the `String` variant).
pub uninterp spec fn json_member_str(v: serde_json::Value, key: Seq<char>) -> Option<Seq<char>>;

/// The integer stored under `key` when `v` is an object with an integer in
/// the range of `i64` there (`Value::get`, then `Value::as_i64`).
pub uninterp spec fn json_member_i64(v: serde_json::Value, key: Seq<char>) -> Option<i64>;

/// The items, in order, of the array stored under `key` when `v` is an
/// object with an array there (`Map::remove` on the object, then the
/// `Array` variant).
pub uninterp spec fn json_member_array(v: serde_json::Value, key: Seq<char>) -> Option<Seq<serde_json::Value>>;

/// Parses `text` as JSON: `serde_json::from_str::<serde_json::Value>(text).ok()`.
/// Trusted: `Some` exactly when the parser accepts `text`, holding the value
/// it gives for that text.
#[verifier::external_body]
fn parse_value(text: &str) -> (r: Option<serde_json::Value>)
    ensures
        r is Some <==> json_parses(text@),
        r matches Some(v) ==> v == json_value(text@),
{
    serde_json::from_str::<serde_json::Value>(text).ok()
}

/// Whether `v` is a JSON object: `Value::is_object`. Trusted: the result is
/// `json_is_object(v)`.
#[verifier::external_body]
fn value_is_object(v: &serde_json::Value) -> (r: bool)
    ensures
        r == json_is_object(*v),
{
    v.is_object()
}

/// The string member `key` of `v`: `Value::get`, then the `String` variant.
/// Trusted: the result is `json_member_str(v, key)`.
#[verifier::external_body]
fn value_member_str(v: &serde_json::Value, key: &str) -> (r: Option<String>)
    ensures
        r.deep_view() == json_member_str(*v, key@),
{
    match v.get(key) {
        Some(serde_json::Value::String(s)) => Some(s.clone()),
        _ => None,
    }
}

/// The integer member `key` of `v`: `Value::get`, then `Value::as_i64`.
/// Trusted: the result is `json_member_i64(v, key)`.
#[verifier::external_body]
fn value_member_i64(v: &serde_json::Value, key: &str) -> (r: Option<i64>)
    ensures
        r == json_member_i64(*v, key@),
{
    match v.get(key) {
        Some(m) => m.as_i64(),
        None => None,
    }
}

/// Takes the array member `key` out of `v`: `Map::remove` on the `Object`
/// variant, then the `Array` variant. Trusted: `None` exactly when
/// `json_member_array(v, key)` is, else its items in order.
#[verifier::external_body]
fn value_into_member_array(v: serde_json::Value, key: &str) -> (r: Option<Vec<serde_json::Value>>)
    ensures
        r is None ==> json_member_array(v, key@) is None,
        r matches Some(items) ==> json_member_array(v, key@) == Some(items@),
{
    match v {
        serde_json::Value::Object(mut map) => match map.remove(key) {
            Some(serde_json::Value::Array(items)) => Some(items),
            _ => None,
        },
        _ => None,
    }
}

/// The string member `key` of the JSON argument `v`, which must be a string
/// when `v` is an object; the empty string when `v` is not an object.
/// `None` when `v` is an object without a string under `key`, the case in
/// which no string can be read and the caller gives up.
pub fn get_string_from_map(v: &serde_json::Value, key: &str) -> (r: Option<String>)
    ensures
        !json_is_object(*v) ==> r.deep_view() == Some(Seq::<char>::empty()),
        json_is_object(*v) ==> r.deep_view() == json_member_str(*v, key@),
{
    if !value_is_object(v) {
        return Some(String::new());
    }
    value_member_str(v, key)
}

/// A parsed JSON document, together with the text it was parsed from.
pub struct JsonDoc {
    value: serde_json::Value,
    source: Ghost<Seq<char>>,
}

impl View for JsonDoc {
    type V = Seq<char>;

    /// The text this document was parsed from.
    closed spec fn view(&self) -> Seq<char> {
        self.source@
    }
}

impl JsonDoc {
    /// The stored value is the one the parser gives for the source text.
    #[verifier::type_invariant]
    spec fn parsed_from_source(self) -> bool {
        self.value == json_value(self.source@)
    }

    /// The parsed value.
    pub closed spec fn value(self) -> serde_json::Value {
        self.value
    }

    /// Parses `text`; `None` when it is not JSON.
    pub fn parse(text: &str) -> (r: Option<JsonDoc>)
        ensures
            r is Some <==> json_parses(text@),
            r matches Some(d) ==> d@ == text@ && d.value() == json_value(text@),
    {
        match parse_value(text) {
            Some(value) => Some(JsonDoc { value, source: Ghost(text@) }),
            None => None,
        }
    }

    /// The string member `key` of this document.
    pub fn member_str(&self, key: &str) -> (r: Option<String>)
        ensures
            r.deep_view() == json_member_str(self.value(), key@),
    {
        value_member_str(&self.value, key)
    }

    /// The integer member `key` of this document.
    pub fn member_i64(&self, key: &str) -> (r: Option<i64>)
        ensures
            r == json_member_i64(self.value(), key@),
    {
        value_member_i64(&self.value, key)
    }

    /// Takes the array member `key` out of this document.
    pub fn into_member_array(self, key: &str) -> (r: Option<Vec<serde_json::Value>>)
        ensures
            r is None ==> json_member_array(self.value(), key@) is None,
            r matches Some(items) ==> json_member_array(self.value(), key@) == Some(items@),
    {
        let JsonDoc { value, source: _ } = self;
        value_into_member_array(value, key)
    }
}

} // verus!
