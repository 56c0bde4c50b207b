//! JSON values as plain data, and the two calls into `serde_json` that turn
//! text into such a value and back.

use crate::text::str_eq;
use serde_json::Value;
use vstd::prelude::*;

verus! {

/// A JSON number: what fits an unsigned or a signed 64-bit integer is held
/// as one; any other number is held by its text.
#[derive(Debug)]
pub enum JsonNumber {
    PosInt(u64),
    /// Always below zero.
    NegInt(i64),
    Float(String),
}

/// A JSON value. An object is the list of its fields in order; a lookup
/// takes the first field of the name.
#[derive(Debug)]
pub enum Json {
    Null,
    Bool(bool),
    Number(JsonNumber),
    String(String),
    Array(Vec<Json>),
    Object(Vec<(String, Json)>),
}

pub enum JsonNumberView {
    PosInt(u64),
    NegInt(i64),
    Float(Seq<char>),
}

/// The mathematical value of a [`Json`].
pub enum JsonView {
    Null,
    Bool(bool),
    Number(JsonNumberView),
    Text(Seq<char>),
    Array(Seq<JsonView>),
    Object(Seq<(Seq<char>, JsonView)>),
}

impl View for JsonNumber {
    type V = JsonNumberView;

    open spec fn view(&self) -> JsonNumberView {
        match self {
            JsonNumber::PosInt(u) => JsonNumberView::PosInt(*u),
            JsonNumber::NegInt(i) => JsonNumberView::NegInt(*i),
            JsonNumber::Float(t) => JsonNumberView::Float(t@),
        }
    }
}

/// The mathematical value of `j`.
pub open spec fn json_view(j: Json) -> JsonView
    decreases j,
{
    match j {
        Json::Null => JsonView::Null,
        Json::Bool(b) => JsonView::Bool(b),
        Json::Number(n) => JsonView::Number(n@),
        Json::String(s) => JsonView::Text(s@),
        Json::Array(items) => JsonView::Array(
            Seq::new(
                items@.len(),
                |i: int|
                    if 0 <= i < items@.len() {
                        json_view(items@[i])
                    } else {
                        JsonView::Null
                    },
            ),
        ),
        Json::Object(fields) => JsonView::Object(
            Seq::new(
                fields@.len(),
                |i: int|
                    if 0 <= i < fields@.len() {
                        (fields@[i].0@, json_view(fields@[i].1))
                    } else {
                        (Seq::empty(), JsonView::Null)
                    },
            ),
        ),
    }
}

impl View for Json {
    type V = JsonView;

    open spec fn view(&self) -> JsonView {
        json_view(*self)
    }
}

impl DeepView for Json {
    type V = JsonView;

    open spec fn deep_view(&self) -> JsonView {
        self@
    }
}

/// The value of the first field named `key`, from index `from` on.
pub open spec fn field_from(fields: Seq<(Seq<char>, JsonView)>, key: Seq<char>, from: int) -> Option<
    JsonView,
>
    decreases fields.len() - from,
{
    if from < 0 || from >= fields.len() {
        None
    } else if fields[from].0 == key {
        Some(fields[from].1)
    } else {
        field_from(fields, key, from + 1)
    }
}

impl JsonView {
    /// The field `key` of an object; `None` for anything else.
    pub open spec fn get(self, key: Seq<char>) -> Option<JsonView> {
        match self {
            JsonView::Object(fields) => field_from(fields, key, 0),
            _ => None,
        }
    }

    pub open spec fn as_text(self) -> Option<Seq<char>> {
        match self {
            JsonView::Text(t) => Some(t),
            _ => None,
        }
    }

    pub open spec fn as_u64(self) -> Option<u64> {
        match self {
            JsonView::Number(JsonNumberView::PosInt(u)) => Some(u),
            _ => None,
        }
    }

    /// The number as a signed integer, where it is an integer that fits.
    pub open spec fn as_i64(self) -> Option<i64> {
        match self {
            JsonView::Number(JsonNumberView::PosInt(u)) => if u <= i64::MAX {
                Some(u as i64)
            } else {
                None
            },
            JsonView::Number(JsonNumberView::NegInt(i)) => Some(i),
            _ => None,
        }
    }

    pub open spec fn as_bool(self) -> Option<bool> {
        match self {
            JsonView::Bool(b) => Some(b),
            _ => None,
        }
    }

    pub open spec fn as_array(self) -> Option<Seq<JsonView>> {
        match self {
            JsonView::Array(items) => Some(items),
            _ => None,
        }
    }

    /// How many fields an object lists; `None` for anything else.
    pub open spec fn field_count(self) -> Option<nat> {
        match self {
            JsonView::Object(fields) => Some(fields.len()),
            _ => None,
        }
    }
}

/// The field `key` of a value that may be missing.
pub open spec fn get_in(v: Option<JsonView>, key: Seq<char>) -> Option<JsonView> {
    match v {
        Some(j) => j.get(key),
        None => None,
    }
}

/// The text in the field `key` of a value that may be missing.
pub open spec fn text_in(v: Option<JsonView>, key: Seq<char>) -> Option<Seq<char>> {
    match get_in(v, key) {
        Some(j) => j.as_text(),
        None => None,
    }
}

/// The unsigned integer in the field `key` of a value that may be missing.
pub open spec fn u64_in(v: Option<JsonView>, key: Seq<char>) -> Option<u64> {
    match get_in(v, key) {
        Some(j) => j.as_u64(),
        None => None,
    }
}

/// The boolean in the field `key` of a value that may be missing.
pub open spec fn bool_in(v: Option<JsonView>, key: Seq<char>) -> Option<bool> {
    match get_in(v, key) {
        Some(j) => j.as_bool(),
        None => None,
    }
}

/// The array in the field `key` of a value that may be missing.
pub open spec fn array_in(v: Option<JsonView>, key: Seq<char>) -> Option<Seq<JsonView>> {
    match get_in(v, key) {
        Some(j) => j.as_array(),
        None => None,
    }
}

/// The view of an object, field by field, and of an array, item by item.
pub proof fn lemma_view_unfold(j: Json)
    ensures
        j matches Json::Object(fields) ==> (j@ matches JsonView::Object(f) && f.len()
            == fields@.len() && forall|i: int|
            0 <= i < fields@.len() ==> f[i] == (fields@[i].0@, fields@[i].1@)),
        j matches Json::Array(items) ==> (j@ matches JsonView::Array(a) && a.len() == items@.len()
            && forall|i: int| 0 <= i < items@.len() ==> a[i] == items@[i]@),
{
    match j {
        Json::Object(fields) => {
            assert(j@->Object_0.len() == fields@.len());
            assert forall|i: int| 0 <= i < fields@.len() implies j@->Object_0[i] == (
                fields@[i].0@,
                fields@[i].1@,
            ) by {}
        },
        Json::Array(items) => {
            assert(j@->Array_0.len() == items@.len());
            assert forall|i: int| 0 <= i < items@.len() implies j@->Array_0[i] == items@[i]@ by {}
        },
        _ => {},
    }
}

impl Clone for JsonNumber {
    fn clone(&self) -> (r: Self)
        ensures
            r == *self,
    {
        match self {
            JsonNumber::PosInt(u) => JsonNumber::PosInt(*u),
            JsonNumber::NegInt(i) => JsonNumber::NegInt(*i),
            JsonNumber::Float(t) => JsonNumber::Float(t.clone()),
        }
    }
}

impl Clone for Json {
    fn clone(&self) -> (r: Self)
        ensures
            r@ == self@,
        decreases self,
    {
        match self {
            Json::Null => Json::Null,
            Json::Bool(b) => Json::Bool(*b),
            Json::Number(n) => Json::Number(n.clone()),
            Json::String(s) => Json::String(s.clone()),
            Json::Array(items) => {
                let mut out: Vec<Json> = Vec::new();
                let mut i: usize = 0;
                while i < items.len()
                    invariant
                        i <= items.len(),
                        out.len() == i,
                        self matches Json::Array(v) && v == items,
                        forall|k: int| 0 <= k < i ==> out@[k]@ == items@[k]@,
                    decreases items.len() - i,
                {
                    out.push(items[i].clone());
                    i += 1;
                }
                let r = Json::Array(out);
                assert(r@->Array_0 =~= self@->Array_0);
                r
            },
            Json::Object(fields) => {
                let mut out: Vec<(String, Json)> = Vec::new();
                let mut i: usize = 0;
                while i < fields.len()
                    invariant
                        i <= fields.len(),
                        out.len() == i,
                        self matches Json::Object(v) && v == fields,
                        forall|k: int|
                            0 <= k < i ==> out@[k].0@ == fields@[k].0@ && out@[k].1@
                                == fields@[k].1@,
                    decreases fields.len() - i,
                {
                    out.push((fields[i].0.clone(), fields[i].1.clone()));
                    i += 1;
                }
                let r = Json::Object(out);
                assert(r@->Object_0 =~= self@->Object_0);
                r
            },
        }
    }
}

impl Json {
    /// The field `key` of an object; `None` for a missing field and for
    /// anything that is no object.
    pub fn get(&self, key: &str) -> (r: Option<&Json>)
        ensures
            r.deep_view() == self@.get(key@),
    {
        match self {
            Json::Object(fields) => {
                let mut i: usize = 0;
                while i < fields.len()
                    invariant
                        i <= fields.len(),
                        self matches Json::Object(v) && v == fields,
                        field_from(self@->Object_0, key@, 0) == field_from(
                            self@->Object_0,
                            key@,
                            i as int,
                        ),
                    decreases fields.len() - i,
                {
                    if str_eq(fields[i].0.as_str(), key) {
                        return Some(&fields[i].1);
                    }
                    i += 1;
                }
                None
            },
            _ => None,
        }
    }

    /// Reads one JSON value from a text; `None` where the text is no JSON value.
    pub fn parse(text: &str) -> (r: Option<Json>)
        ensures
            r.deep_view() == parsed_json(text@),
    {
        parse_json(text)
    }

    /// The value as compact JSON text.
    pub fn to_text(&self) -> (r: String)
        ensures
            r@ == json_text(self@),
    {
        write_json(self)
    }

    pub fn as_str(&self) -> (r: Option<&str>)
        ensures
            r.deep_view() == self@.as_text(),
    {
        match self {
            Json::String(s) => Some(s.as_str()),
            _ => None,
        }
    }

    pub fn as_u64(&self) -> (r: Option<u64>)
        ensures
            r == self@.as_u64(),
    {
        match self {
            Json::Number(JsonNumber::PosInt(u)) => Some(*u),
            _ => None,
        }
    }

    pub fn as_i64(&self) -> (r: Option<i64>)
        ensures
            r == self@.as_i64(),
    {
        match self {
            Json::Number(JsonNumber::PosInt(u)) => if *u <= 0x7fff_ffff_ffff_ffff {
                Some(*u as i64)
            } else {
                None
            },
            Json::Number(JsonNumber::NegInt(i)) => Some(*i),
            _ => None,
        }
    }

    pub fn as_bool(&self) -> (r: Option<bool>)
        ensures
            r == self@.as_bool(),
    {
        match self {
            Json::Bool(b) => Some(*b),
            _ => None,
        }
    }

    pub fn as_array(&self) -> (r: Option<&Vec<Json>>)
        ensures
            r.deep_view() == self@.as_array(),
    {
        match self {
            Json::Array(items) => {
                assert(items.deep_view() =~= self@->Array_0);
                Some(items)
            },
            _ => None,
        }
    }

    pub fn is_object(&self) -> (r: bool)
        ensures
            r == self@.field_count().is_some(),
    {
        match self {
            Json::Object(_) => true,
            _ => false,
        }
    }

    /// How many fields an object lists; `None` for anything else.
    pub fn field_count(&self) -> (r: Option<usize>)
        ensures
            r.is_some() == self@.field_count().is_some(),
            r matches Some(n) ==> self@.field_count() == Some(n as nat),
    {
        match self {
            Json::Object(fields) => Some(fields.len()),
            _ => None,
        }
    }
}

/// The field `key` of a value that may be missing.
pub fn get_in_exec<'a>(v: Option<&'a Json>, key: &str) -> (r: Option<&'a Json>)
    ensures
        r.deep_view() == get_in(v.deep_view(), key@),
{
    match v {
        Some(j) => j.get(key),
        None => None,
    }
}

/// A copy of the text in the field `key` of a value that may be missing.
pub fn text_in_exec(v: Option<&Json>, key: &str) -> (r: Option<String>)
    ensures
        r.deep_view() == text_in(v.deep_view(), key@),
{
    match get_in_exec(v, key) {
        Some(j) => match j.as_str() {
            Some(s) => Some(s.to_owned()),
            None => None,
        },
        None => None,
    }
}

/// The unsigned integer in the field `key` of a value that may be missing.
pub fn u64_in_exec(v: Option<&Json>, key: &str) -> (r: Option<u64>)
    ensures
        r == u64_in(v.deep_view(), key@),
{
    match get_in_exec(v, key) {
        Some(j) => j.as_u64(),
        None => None,
    }
}

/// The boolean in the field `key` of a value that may be missing.
pub fn bool_in_exec(v: Option<&Json>, key: &str) -> (r: Option<bool>)
    ensures
        r == bool_in(v.deep_view(), key@),
{
    match get_in_exec(v, key) {
        Some(j) => j.as_bool(),
        None => None,
    }
}

/// The array in the field `key` of a value that may be missing.
pub fn array_in_exec<'a>(v: Option<&'a Json>, key: &str) -> (r: Option<&'a Vec<Json>>)
    ensures
        r.deep_view() == array_in(v.deep_view(), key@),
{
    match get_in_exec(v, key) {
        Some(j) => j.as_array(),
        None => None,
    }
}

// ---------------------------------------------------------------------------
// serde_json
// ---------------------------------------------------------------------------

#[verifier::external_type_specification]
#[verifier::external_body]
pub struct ExValue(serde_json::Value);

#[verifier::external_type_specification]
#[verifier::external_body]
pub struct ExNumber(serde_json::Number);

/// What `serde_json::from_str` makes of a text: the value it denotes, or
/// `None` where the text is no single JSON value.
pub uninterp spec fn parsed_json(text: Seq<char>) -> Option<JsonView>;

/// The compact text that `serde_json` writes for a value.
pub uninterp spec fn json_text(value: JsonView) -> Seq<char>;

/// The plain form of a `serde_json::Number`.
///
/// Trusted: asks `Number::as_u64` and `Number::as_i64` which kind of number
/// it is; one that is neither is kept as the text that `Number` displays.
#[verifier::external_body]
fn from_number(n: &serde_json::Number) -> (out: JsonNumber) {
    match (n.as_u64(), n.as_i64()) {
        (Some(u), _) => JsonNumber::PosInt(u),
        (None, Some(i)) => JsonNumber::NegInt(i),
        (None, None) => JsonNumber::Float(n.to_string()),
    }
}

/// The plain form of a `serde_json::Value`.
///
/// Trusted: tells the variants of `serde_json::Value` apart and moves their
/// contents over; an object's fields come in the order in which its map
/// yields them.
#[verifier::external_body]
fn from_value(v: &Value) -> (out: Json) {
    match v {
        Value::Null => Json::Null,
        Value::Bool(b) => Json::Bool(*b),
        Value::Number(n) => Json::Number(from_number(n)),
        Value::String(s) => Json::String(s.clone()),
        Value::Array(a) => Json::Array(a.iter().map(from_value).collect()),
        Value::Object(m) => Json::Object(m.iter().map(|(k, v)| (k.clone(), from_value(v))).collect()),
    }
}

/// The `serde_json::Value` of a plain value.
///
/// Trusted: the inverse of [`from_value`]; a number held by its text is read
/// back by `serde_json::from_str`. A text that `serde_json::from_str` does
/// not take becomes `null`: no value that was parsed holds such a text, only
/// one that a caller built by hand can.
#[verifier::external_body]
fn to_value(j: &Json) -> (out: Value) {
    match j {
        Json::Null => Value::Null,
        Json::Bool(b) => Value::Bool(*b),
        Json::Number(JsonNumber::PosInt(u)) => Value::from(*u),
        Json::Number(JsonNumber::NegInt(i)) => Value::from(*i),
        Json::Number(JsonNumber::Float(t)) => serde_json::from_str(t).unwrap_or_default(),
        Json::String(s) => Value::String(s.clone()),
        Json::Array(a) => Value::Array(a.iter().map(to_value).collect()),
        Json::Object(m) => Value::Object(m.iter().map(|(k, v)| (k.clone(), to_value(v))).collect()),
    }
}

/// Reads one JSON value from a text.
///
/// Trusted: the body is `serde_json::from_str` into a `serde_json::Value`,
/// whose result depends on the text alone; the contract names it.
#[verifier::external_body]
pub(crate) fn parse_json(text: &str) -> (r: Option<Json>)
    ensures
        r.deep_view() == parsed_json(text@),
{
    match serde_json::from_str::<Value>(text) {
        Ok(v) => Some(from_value(&v)),
        Err(_) => None,
    }
}

/// Writes a value as compact JSON text.
///
/// Trusted: the body is `serde_json::Value::to_string`, whose result depends
/// on the value alone; the contract names it.
#[verifier::external_body]
pub(crate) fn write_json(value: &Json) -> (r: String)
    ensures
        r@ == json_text(value@),
{
    to_value(value).to_string()
}

} // verus!
