//! JSON values: what they hold, reading them from text, taking them apart, building them and
//! writing them out.
use serde_json::Value;
use vstd::prelude::*;

verus! {

/// What a JSON value holds.
pub enum Json {
    /// `null`.
    Null,
    /// `true` or `false`.
    Bool(bool),
    /// A number that is an integer.
    Integer(int),
    /// Any other number, by the text it is written as.
    Fraction(Seq<char>),
    /// A string.
    Text(Seq<char>),
    /// An array.
    List(Seq<Json>),
    /// An object.
    Object(Map<Seq<char>, Json>),
}

impl Json {
    /// The value under `key` of an object: `Null` where there is none, or where this is no
    /// object.
    pub open spec fn field(self, key: Seq<char>) -> Json {
        match self {
            Json::Object(m) => if m.dom().contains(key) {
                m[key]
            } else {
                Json::Null
            },
            _ => Json::Null,
        }
    }

    /// The string, if this is one.
    pub open spec fn text(self) -> Option<Seq<char>> {
        match self {
            Json::Text(s) => Some(s),
            _ => None,
        }
    }

    /// The string, or `default` if this is none.
    pub open spec fn text_or(self, default: Seq<char>) -> Seq<char> {
        match self {
            Json::Text(s) => s,
            _ => default,
        }
    }

    /// The number, if this is an integer that fits in 64 bits without a sign.
    pub open spec fn unsigned(self) -> Option<u64> {
        match self {
            Json::Integer(n) => if 0 <= n <= u64::MAX {
                Some(n as u64)
            } else {
                None
            },
            _ => None,
        }
    }

    /// The number, if this is an integer that fits in 64 bits with a sign.
    pub open spec fn signed(self) -> Option<i64> {
        match self {
            Json::Integer(n) => if i64::MIN <= n <= i64::MAX {
                Some(n as i64)
            } else {
                None
            },
            _ => None,
        }
    }

    /// The items of an array; none where this is no array.
    pub open spec fn items(self) -> Seq<Json> {
        match self {
            Json::List(s) => s,
            _ => Seq::empty(),
        }
    }

    /// The object with no members.
    pub open spec fn empty_object() -> Json {
        Json::Object(Map::empty())
    }

    /// The object with `value` under `key`, and its other members as they are.
    pub open spec fn with(self, key: Seq<char>, value: Json) -> Json {
        match self {
            Json::Object(m) => Json::Object(m.insert(key, value)),
            _ => self,
        }
    }

    /// Whether the value, nested at most `depth` deep, has only numbers that are integers of 64
    /// bits.
    pub open spec fn is_exact(self, depth: nat) -> bool
        decreases depth,
    {
        match self {
            Json::Integer(n) => i64::MIN <= n <= u64::MAX,
            Json::Fraction(_) => false,
            Json::List(s) => depth > 0 && forall|i: int|
                0 <= i < s.len() ==> (#[trigger] s[i]).is_exact((depth - 1) as nat),
            Json::Object(m) => depth > 0 && forall|k: Seq<char>| #[trigger]
                m.dom().contains(k) ==> m[k].is_exact((depth - 1) as nat),
            _ => true,
        }
    }
}

/// An object stays exact with one more exact member.
pub proof fn lemma_with_is_exact(object: Json, key: Seq<char>, value: Json, depth: nat)
    requires
        object is Object,
        depth > 0,
        object.is_exact(depth),
        value.is_exact((depth - 1) as nat),
    ensures
        object.with(key, value) is Object,
        object.with(key, value).is_exact(depth),
{
}

/// serde_json's value, carried as it is.
#[verifier::external_type_specification]
#[verifier::external_body]
pub struct ExValue(serde_json::Value);

/// What serde_json's value holds.
pub uninterp spec fn json_of(v: Value) -> Json;

/// What serde_json reads from a text: the value, or the message that says why there is none.
pub uninterp spec fn json_read(text: Seq<char>) -> Result<Json, Seq<char>>;

/// Whether serde_json reads the value from the text.
pub open spec fn reads_as(text: Seq<char>, value: Json) -> bool {
    json_read(text) == Ok::<Json, Seq<char>>(value)
}

/// What serde_json writes for a value on one line.
pub uninterp spec fn json_compact(value: Json) -> Seq<char>;

/// What serde_json writes for a value over several lines.
pub uninterp spec fn json_pretty(value: Json) -> Seq<char>;

/// `serde_json::from_str` to a `Value`, with its error as `to_string` gives it.
#[verifier::external_body]
fn value_from_str(text: &str) -> (r: Result<Value, String>)
    ensures
        match r {
            Ok(v) => json_read(text@) == Ok::<Json, Seq<char>>(json_of(v)),
            Err(e) => json_read(text@) == Err::<Json, Seq<char>>(e@),
        },
{
    serde_json::from_str(text).map_err(|e| e.to_string())
}

/// `serde_json::Value`'s index by a string: the member, or `Null`.
#[verifier::external_body]
fn value_index<'a>(v: &'a Value, key: &str) -> (r: &'a Value)
    ensures
        json_of(*r) == json_of(*v).field(key@),
{
    &v[key]
}

/// `serde_json::Value::as_str`: the string, if it is one.
#[verifier::external_body]
fn value_as_str(v: &Value) -> (r: Option<&str>)
    ensures
        match r {
            Some(s) => json_of(*v) == Json::Text(s@),
            None => !(json_of(*v) is Text),
        },
{
    v.as_str()
}

/// `serde_json::Value::as_u64`: the number, if it is an integer from 0 to 2^64 - 1.
#[verifier::external_body]
fn value_as_u64(v: &Value) -> (r: Option<u64>)
    ensures
        r == json_of(*v).unsigned(),
{
    v.as_u64()
}

/// `serde_json::Value::as_i64`: the number, if it is an integer from -2^63 to 2^63 - 1.
#[verifier::external_body]
fn value_as_i64(v: &Value) -> (r: Option<i64>)
    ensures
        r == json_of(*v).signed(),
{
    v.as_i64()
}

/// `serde_json::Value::as_array`: the items, if it is an array.
#[verifier::external_body]
fn value_as_array(v: &Value) -> (r: Option<&Vec<Value>>)
    ensures
        match r {
            Some(items) => json_of(*v) == Json::List(items@.map_values(|i: Value| json_of(i))),
            None => !(json_of(*v) is List),
        },
{
    v.as_array()
}

/// `serde_json::Value::clone`: a value that holds the same.
#[verifier::external_body]
fn value_clone(v: &Value) -> (r: Value)
    ensures
        json_of(r) == json_of(*v),
{
    v.clone()
}

/// `serde_json::Value::String`: a string.
#[verifier::external_body]
fn value_string(s: &str) -> (r: Value)
    ensures
        json_of(r) == Json::Text(s@),
{
    Value::String(s.to_string())
}

/// `serde_json::Value::Bool`: a boolean.
#[verifier::external_body]
fn value_bool(b: bool) -> (r: Value)
    ensures
        json_of(r) == Json::Bool(b),
{
    Value::Bool(b)
}

/// `serde_json::Value::from(i64)`: a number.
#[verifier::external_body]
fn value_i64(n: i64) -> (r: Value)
    ensures
        json_of(r) == Json::Integer(n as int),
{
    Value::from(n)
}

/// `serde_json::Value::Array`: an array.
#[verifier::external_body]
fn value_array(items: Vec<Value>) -> (r: Value)
    ensures
        json_of(r) == Json::List(items@.map_values(|i: Value| json_of(i))),
{
    Value::Array(items)
}

/// `serde_json::Value::Object` of `serde_json::Map::new`: an object with no members.
#[verifier::external_body]
fn value_object() -> (r: Value)
    ensures
        json_of(r) == Json::empty_object(),
{
    Value::Object(serde_json::Map::new())
}

/// `serde_json::Map::insert` on the members of an object, found with `as_object_mut`: puts a
/// value under a key, in place of the one that was there; does nothing to any other value.
#[verifier::external_body]
fn value_insert(v: &mut Value, key: &str, item: Value)
    ensures
        json_of(*final(v)) == json_of(*old(v)).with(key@, json_of(item)),
{
    v.as_object_mut().map(|members| members.insert(key.to_string(), item));
}

/// `serde_json::Value::to_string`: the value on one line. A text of a value that has no numbers
/// but integers, and is nested less deep than serde_json reads, reads back as the value.
#[verifier::external_body]
fn value_to_string(v: &Value) -> (r: String)
    ensures
        r@ == json_compact(json_of(*v)),
        json_of(*v).is_exact(100) ==> reads_as(r@, json_of(*v)),
{
    v.to_string()
}

/// `serde_json::to_string_pretty` of a `Value`, which cannot fail: the value over several lines.
/// A text of a value that has no numbers but integers, and is nested less deep than serde_json
/// reads, reads back as the value.
#[verifier::external_body]
fn value_to_string_pretty(v: &Value) -> (r: String)
    ensures
        r@ == json_pretty(json_of(*v)),
        json_of(*v).is_exact(100) ==> reads_as(r@, json_of(*v)),
{
    serde_json::to_string_pretty(v).expect("a value is always written")
}

/// A JSON value.
pub struct JsonValue {
    value: Value,
}

impl View for JsonValue {
    type V = Json;

    closed spec fn view(&self) -> Json {
        json_of(self.value)
    }
}

impl JsonValue {
    /// The value that a text holds, or the message that says why it holds none.
    pub fn parse(text: &str) -> (r: Result<JsonValue, String>)
        ensures
            match r {
                Ok(v) => json_read(text@) == Ok::<Json, Seq<char>>(v@),
                Err(e) => json_read(text@) == Err::<Json, Seq<char>>(e@),
            },
    {
        match value_from_str(text) {
            Ok(value) => Ok(JsonValue { value }),
            Err(e) => Err(e),
        }
    }

    /// The value that a text holds, or an object with no members where it holds none.
    pub fn parse_or_empty(text: &str) -> (r: JsonValue)
        ensures
            r@ == read_or_empty(text@),
    {
        match value_from_str(text) {
            Ok(value) => JsonValue { value },
            Err(_) => JsonValue::object(),
        }
    }

    /// A string.
    pub fn text(s: &str) -> (r: JsonValue)
        ensures
            r@ == Json::Text(s@),
    {
        JsonValue { value: value_string(s) }
    }

    /// A boolean.
    pub fn boolean(b: bool) -> (r: JsonValue)
        ensures
            r@ == Json::Bool(b),
    {
        JsonValue { value: value_bool(b) }
    }

    /// A number.
    pub fn integer(n: i64) -> (r: JsonValue)
        ensures
            r@ == Json::Integer(n as int),
    {
        JsonValue { value: value_i64(n) }
    }

    /// An array.
    pub fn list(items: &Vec<JsonValue>) -> (r: JsonValue)
        ensures
            r@ == Json::List(items@.map_values(|i: JsonValue| i@)),
    {
        let mut values: Vec<Value> = Vec::new();
        let mut n: usize = 0;
        while n < items.len()
            invariant
                n <= items@.len(),
                values@.len() == n,
                forall|k: int| 0 <= k < n ==> json_of(#[trigger] values@[k]) == items@[k]@,
            decreases items@.len() - n,
        {
            values.push(value_clone(&items[n].value));
            n = n + 1;
        }
        assert(values@.map_values(|i: Value| json_of(i)) =~= items@.map_values(
            |i: JsonValue| i@,
        ));
        JsonValue { value: value_array(values) }
    }

    /// An object with no members.
    pub fn object() -> (r: JsonValue)
        ensures
            r@ == Json::empty_object(),
    {
        JsonValue { value: value_object() }
    }

    /// Puts a value under a key of this object.
    pub fn insert(&mut self, key: &str, item: JsonValue)
        ensures
            final(self)@ == old(self)@.with(key@, item@),
    {
        value_insert(&mut self.value, key, item.value);
    }

    /// The same value once more.
    pub fn copy(&self) -> (r: JsonValue)
        ensures
            r@ == self@,
    {
        JsonValue { value: value_clone(&self.value) }
    }

    /// The value under `key` of this object: `null` where there is none, or where this is no
    /// object.
    pub fn field(&self, key: &str) -> (r: JsonValue)
        ensures
            r@ == self@.field(key@),
    {
        JsonValue { value: value_clone(value_index(&self.value, key)) }
    }

    /// The string, if this is one.
    pub fn as_text(&self) -> (r: Option<String>)
        ensures
            match r {
                Some(s) => self@.text() == Some(s@),
                None => self@.text() is None,
            },
    {
        match value_as_str(&self.value) {
            Some(s) => Some(s.to_owned()),
            None => None,
        }
    }

    /// The string, or `default` if this is none.
    pub fn text_or(&self, default: &str) -> (r: String)
        ensures
            r@ == self@.text_or(default@),
    {
        match value_as_str(&self.value) {
            Some(s) => s.to_owned(),
            None => default.to_owned(),
        }
    }

    /// The number, if this is an integer that fits in 64 bits without a sign.
    pub fn as_unsigned(&self) -> (r: Option<u64>)
        ensures
            r == self@.unsigned(),
    {
        value_as_u64(&self.value)
    }

    /// The number, if this is an integer that fits in 64 bits with a sign.
    pub fn as_signed(&self) -> (r: Option<i64>)
        ensures
            r == self@.signed(),
    {
        value_as_i64(&self.value)
    }

    /// The items of this array; none where this is no array.
    pub fn items(&self) -> (r: Vec<JsonValue>)
        ensures
            r@.map_values(|i: JsonValue| i@) == self@.items(),
    {
        let mut out: Vec<JsonValue> = Vec::new();
        match value_as_array(&self.value) {
            Some(items) => {
                let mut n: usize = 0;
                while n < items.len()
                    invariant
                        n <= items@.len(),
                        out@.len() == n,
                        forall|k: int| 0 <= k < n ==> (#[trigger] out@[k])@ == json_of(items@[k]),
                    decreases items@.len() - n,
                {
                    out.push(JsonValue { value: value_clone(&items[n]) });
                    n = n + 1;
                }
                assert(out@.map_values(|i: JsonValue| i@) =~= items@.map_values(
                    |i: Value| json_of(i),
                ));
            },
            None => {
                assert(out@.map_values(|i: JsonValue| i@) =~= Seq::empty());
            },
        }
        out
    }

    /// The value on one line.
    pub fn render(&self) -> (r: String)
        ensures
            r@ == json_compact(self@),
            self@.is_exact(100) ==> reads_as(r@, self@),
    {
        value_to_string(&self.value)
    }

    /// The value over several lines.
    pub fn render_pretty(&self) -> (r: String)
        ensures
            r@ == json_pretty(self@),
            self@.is_exact(100) ==> reads_as(r@, self@),
    {
        value_to_string_pretty(&self.value)
    }
}

/// The value that a text holds, or an object with no members where it holds none.
pub open spec fn read_or_empty(text: Seq<char>) -> Json {
    match json_read(text) {
        Ok(v) => v,
        Err(_) => Json::empty_object(),
    }
}

} // verus!
