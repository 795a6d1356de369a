//! The JSON values that claim-request messages travel in, as serde_json
//! represents them, and the mathematical model the library reasons over.
use vstd::prelude::*;

verus! {

/// A JSON value as a mathematical object. A number is kept as its decimal
/// text, and an object as a finite map from keys to values.
pub enum JsonModel {
    Null,
    Bool(bool),
    Number(Seq<char>),
    Str(Seq<char>),
    Array(Seq<JsonModel>),
    Object(Map<Seq<char>, JsonModel>),
}

#[verifier::external_type_specification]
#[verifier::external_body]
pub struct ExValue(serde_json::Value);

#[verifier::external_type_specification]
#[verifier::external_body]
#[verifier::reject_recursive_types(K)]
#[verifier::reject_recursive_types(V)]
pub struct ExObject<K, V>(serde_json::Map<K, V>);

#[verifier::external_type_specification]
#[verifier::external_body]
pub struct ExError(serde_json::Error);

/// What a serde_json value holds.
pub uninterp spec fn json_model(v: serde_json::Value) -> JsonModel;

/// The entries a serde_json object map holds.
pub uninterp spec fn object_entries(m: serde_json::Map<String, serde_json::Value>) -> Map<
    Seq<char>,
    JsonModel,
>;

/// The value serde_json reads from a text, or `None` where the text is not
/// one JSON value.
pub uninterp spec fn parsed_json(s: Seq<char>) -> Option<JsonModel>;

pub open spec fn is_ascii_digit(c: char) -> bool {
    '0' <= c <= '9'
}

pub open spec fn digit_char(d: nat) -> char {
    if d == 0 {
        '0'
    } else if d == 1 {
        '1'
    } else if d == 2 {
        '2'
    } else if d == 3 {
        '3'
    } else if d == 4 {
        '4'
    } else if d == 5 {
        '5'
    } else if d == 6 {
        '6'
    } else if d == 7 {
        '7'
    } else if d == 8 {
        '8'
    } else {
        '9'
    }
}

/// The value of a string of decimal digits.
pub open spec fn digits_value(t: Seq<char>) -> nat
    decreases t.len(),
{
    if t.len() == 0 {
        0
    } else {
        digits_value(t.drop_last()) * 10 + (t.last() as nat - '0' as nat) as nat
    }
}

/// The decimal text of `n`: its digits, without leading zeros.
pub open spec fn decimal_text(n: nat) -> Seq<char>
    decreases n,
{
    if n < 10 {
        seq![digit_char(n)]
    } else {
        decimal_text(n / 10).push(digit_char(n % 10))
    }
}

/// What std's `u64::from_str` makes of a text: an optional `+` followed by
/// one or more decimal digits whose value fits in a `u64`.
pub open spec fn u64_from_text(t: Seq<char>) -> Option<u64> {
    let d = if t.len() > 0 && t[0] == '+' {
        t.drop_first()
    } else {
        t
    };
    if d.len() > 0 && (forall|i: int| 0 <= i < d.len() ==> is_ascii_digit(#[trigger] d[i]))
        && digits_value(d) <= u64::MAX {
        Some(digits_value(d) as u64)
    } else {
        None
    }
}

/// The value `v` holds under `key` when `v` is an object with that key.
pub open spec fn model_get(v: JsonModel, key: Seq<char>) -> Option<JsonModel> {
    match v {
        JsonModel::Object(m) => if m.contains_key(key) {
            Some(m[key])
        } else {
            None
        },
        _ => None,
    }
}

/// Relies on `serde_json::from_str` reading a whole text as one
/// `serde_json::Value`; the value read depends on the text alone.
#[verifier::external_body]
pub fn parse_value(s: &str) -> (r: Result<serde_json::Value, serde_json::Error>)
    ensures
        match r {
            Ok(v) => parsed_json(s@) == Some(json_model(v)),
            Err(_) => parsed_json(s@) is None,
        },
{
    serde_json::from_str::<serde_json::Value>(s)
}

/// Relies on `serde_json::Value::get` with a string index: the entry under
/// that key of an object, `None` for a missing key or a value of another kind.
#[verifier::external_body]
pub fn get_field<'a>(v: &'a serde_json::Value, key: &str) -> (r: Option<&'a serde_json::Value>)
    ensures
        match r {
            Some(x) => model_get(json_model(*v), key@) == Some(json_model(*x)),
            None => model_get(json_model(*v), key@) is None,
        },
{
    v.get(key)
}

/// Relies on `serde_json::Value::as_str`: the text of a string value.
pub assume_specification[ serde_json::Value::as_str ](v: &serde_json::Value) -> (r: Option<&str>)
    ensures
        match json_model(*v) {
            JsonModel::Str(s) => r is Some && r->Some_0@ == s,
            _ => r is None,
        },
;

/// Relies on `serde_json::Value::as_u64`, which with arbitrary precision
/// numbers reads the number's text with `u64::from_str`.
pub assume_specification[ serde_json::Value::as_u64 ](v: &serde_json::Value) -> (r: Option<u64>)
    ensures
        r == match json_model(*v) {
            JsonModel::Number(t) => u64_from_text(t),
            _ => None,
        },
;

/// Relies on `serde_json::Value::is_null`.
pub assume_specification[ serde_json::Value::is_null ](v: &serde_json::Value) -> (r: bool)
    ensures
        r == (json_model(*v) == JsonModel::Null),
;

/// Relies on `serde_json::Value::is_object`.
pub assume_specification[ serde_json::Value::is_object ](v: &serde_json::Value) -> (r: bool)
    ensures
        r == (json_model(*v) is Object),
;

/// Relies on the derived `Clone` of `serde_json::Value`: a deep copy.
pub assume_specification[ <serde_json::Value as Clone>::clone ](v: &serde_json::Value) -> (r: serde_json::Value)
    ensures
        json_model(r) == json_model(*v),
;

/// Relies on `serde_json::Map::new`: an empty object map.
pub assume_specification[ serde_json::Map::<String, serde_json::Value>::new ]() -> (r: serde_json::Map<String, serde_json::Value>)
    ensures
        object_entries(r) =~= Map::empty(),
;

/// Relies on `serde_json::Map::insert`: the key now maps to the value.
pub assume_specification[ serde_json::Map::<String, serde_json::Value>::insert ](
    m: &mut serde_json::Map<String, serde_json::Value>,
    k: String,
    v: serde_json::Value,
) -> (r: Option<serde_json::Value>)
    ensures
        object_entries(*final(m)) == object_entries(*old(m)).insert(k@, json_model(v)),
;

/// Relies on `From<Map<String, Value>>` for `serde_json::Value`: an object.
pub assume_specification[ <serde_json::Value as From<serde_json::Map<String, serde_json::Value>>>::from ](
    m: serde_json::Map<String, serde_json::Value>,
) -> (r: serde_json::Value)
    ensures
        json_model(r) == JsonModel::Object(object_entries(m)),
;

/// Relies on `From<String>` for `serde_json::Value`: a string value.
pub assume_specification[ <serde_json::Value as From<String>>::from ](s: String) -> (r: serde_json::Value)
    ensures
        json_model(r) == JsonModel::Str(s@),
;

/// Relies on `From<u64>` for `serde_json::Value`, which with arbitrary
/// precision numbers keeps the decimal text that `itoa` writes.
pub assume_specification[ <serde_json::Value as From<u64>>::from ](n: u64) -> (r: serde_json::Value)
    ensures
        json_model(r) == JsonModel::Number(decimal_text(n as nat)),
;

/// Relies on `From<()>` for `serde_json::Value`: null.
pub assume_specification[ <serde_json::Value as From<()>>::from ](u: ()) -> (r: serde_json::Value)
    ensures
        json_model(r) == JsonModel::Null,
;

proof fn lemma_digit_char(d: nat)
    requires
        d < 10,
    ensures
        is_ascii_digit(digit_char(d)),
        digit_char(d) as nat - '0' as nat == d,
{
}

proof fn lemma_decimal_text_digits(n: nat)
    ensures
        decimal_text(n).len() > 0,
        forall|i: int| 0 <= i < decimal_text(n).len() ==> is_ascii_digit(#[trigger] decimal_text(n)[i]),
        digits_value(decimal_text(n)) == n,
    decreases n,
{
    let t = decimal_text(n);
    if n < 10 {
        assert(t.drop_last() =~= Seq::<char>::empty());
        lemma_digit_char(n);
        assert(digits_value(t) == digits_value(t.drop_last()) * 10 + (t.last() as nat - '0' as nat) as nat);
    } else {
        lemma_digit_char(n % 10);
        assert(t.last() == digit_char(n % 10));
        assert(digits_value(t) == digits_value(t.drop_last()) * 10 + (t.last() as nat - '0' as nat) as nat);
        assert(n == (n / 10) * 10 + n % 10);
        lemma_decimal_text_digits(n / 10);
        assert(t.drop_last() =~= decimal_text(n / 10));
        assert forall|i: int| 0 <= i < t.len() implies is_ascii_digit(#[trigger] t[i]) by {
            if i < t.len() - 1 {
                assert(t[i] == decimal_text(n / 10)[i]);
            }
        }
    }
}

/// The decimal text of a `u64` reads back as the same `u64`.
pub proof fn lemma_u64_text_round_trip(n: u64)
    ensures
        u64_from_text(decimal_text(n as nat)) == Some(n),
{
    lemma_decimal_text_digits(n as nat);
}

} // verus!
