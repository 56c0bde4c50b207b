//! Reading the fields of a JSON object by name and kind.
//!
//! Each reader answers `None` where the field breaks the schema. A reader of
//! an optional field answers `Some(None)` where the field is missing or null.

use crate::json::{Json, JsonNumberView, JsonView};
use vstd::prelude::*;

verus! {

pub open spec fn req_text(j: JsonView, key: Seq<char>) -> Option<Seq<char>> {
    match j.get(key) {
        Some(JsonView::Text(t)) => Some(t),
        _ => None,
    }
}

pub open spec fn opt_text(j: JsonView, key: Seq<char>) -> Option<Option<Seq<char>>> {
    match j.get(key) {
        None => Some(None),
        Some(JsonView::Null) => Some(None),
        Some(JsonView::Text(t)) => Some(Some(t)),
        _ => None,
    }
}

pub open spec fn req_u64(j: JsonView, key: Seq<char>) -> Option<u64> {
    match j.get(key) {
        Some(v) => v.as_u64(),
        None => None,
    }
}

pub open spec fn opt_u64(j: JsonView, key: Seq<char>) -> Option<Option<u64>> {
    match j.get(key) {
        None => Some(None),
        Some(JsonView::Null) => Some(None),
        Some(JsonView::Number(JsonNumberView::PosInt(u))) => Some(Some(u)),
        _ => None,
    }
}

pub open spec fn req_u32(j: JsonView, key: Seq<char>) -> Option<u32> {
    match req_u64(j, key) {
        Some(u) => if u <= u32::MAX {
            Some(u as u32)
        } else {
            None
        },
        None => None,
    }
}

pub open spec fn opt_i32(j: JsonView, key: Seq<char>) -> Option<Option<i32>> {
    match j.get(key) {
        None => Some(None),
        Some(JsonView::Null) => Some(None),
        Some(v) => match v.as_i64() {
            Some(i) => if i32::MIN <= i <= i32::MAX {
                Some(Some(i as i32))
            } else {
                None
            },
            None => None,
        },
    }
}

pub open spec fn req_bool(j: JsonView, key: Seq<char>) -> Option<bool> {
    match j.get(key) {
        Some(v) => v.as_bool(),
        None => None,
    }
}

pub open spec fn opt_bool(j: JsonView, key: Seq<char>) -> Option<Option<bool>> {
    match j.get(key) {
        None => Some(None),
        Some(JsonView::Null) => Some(None),
        Some(JsonView::Bool(b)) => Some(Some(b)),
        _ => None,
    }
}

/// Any value, null too, as long as the field is there.
pub open spec fn req_json(j: JsonView, key: Seq<char>) -> Option<JsonView> {
    j.get(key)
}

/// Any value; a missing field and null count as none.
pub open spec fn opt_json(j: JsonView, key: Seq<char>) -> Option<JsonView> {
    match j.get(key) {
        None => None,
        Some(JsonView::Null) => None,
        Some(v) => Some(v),
    }
}

/// The items as texts, where every one of them is a text.
pub open spec fn all_texts(items: Seq<JsonView>) -> Option<Seq<Seq<char>>> {
    if forall|i: int| 0 <= i < items.len() ==> (#[trigger] items[i]).as_text() is Some {
        Some(Seq::new(items.len(), |i: int| items[i].as_text().unwrap()))
    } else {
        None
    }
}

pub open spec fn opt_text_list(j: JsonView, key: Seq<char>) -> Option<Option<Seq<Seq<char>>>> {
    match j.get(key) {
        None => Some(None),
        Some(JsonView::Null) => Some(None),
        Some(JsonView::Array(items)) => match all_texts(items) {
            Some(t) => Some(Some(t)),
            None => None,
        },
        _ => None,
    }
}

pub open spec fn opt_json_list(j: JsonView, key: Seq<char>) -> Option<Option<Seq<JsonView>>> {
    match j.get(key) {
        None => Some(None),
        Some(JsonView::Null) => Some(None),
        Some(JsonView::Array(items)) => Some(Some(items)),
        _ => None,
    }
}

/// The fields as pairs of texts, where every value is a text.
pub open spec fn all_text_fields(fields: Seq<(Seq<char>, JsonView)>) -> Option<
    Seq<(Seq<char>, Seq<char>)>,
> {
    if forall|i: int| 0 <= i < fields.len() ==> (#[trigger] fields[i]).1.as_text() is Some {
        Some(Seq::new(fields.len(), |i: int| (fields[i].0, fields[i].1.as_text().unwrap())))
    } else {
        None
    }
}

pub open spec fn opt_text_map(j: JsonView, key: Seq<char>) -> Option<
    Option<Seq<(Seq<char>, Seq<char>)>>,
> {
    match j.get(key) {
        None => Some(None),
        Some(JsonView::Null) => Some(None),
        Some(JsonView::Object(fields)) => match all_text_fields(fields) {
            Some(t) => Some(Some(t)),
            None => None,
        },
        _ => None,
    }
}

pub fn req_text_exec(j: &Json, key: &str) -> (r: Option<String>)
    ensures
        r.deep_view() == req_text(j@, key@),
{
    match j.get(key) {
        Some(Json::String(s)) => Some(s.clone()),
        _ => None,
    }
}

pub fn opt_text_exec(j: &Json, key: &str) -> (r: Option<Option<String>>)
    ensures
        r.deep_view() == opt_text(j@, key@),
{
    match j.get(key) {
        None => Some(None),
        Some(Json::Null) => Some(None),
        Some(Json::String(s)) => Some(Some(s.clone())),
        _ => None,
    }
}

pub fn req_u64_exec(j: &Json, key: &str) -> (r: Option<u64>)
    ensures
        r == req_u64(j@, key@),
{
    match j.get(key) {
        Some(v) => v.as_u64(),
        None => None,
    }
}

pub fn opt_u64_exec(j: &Json, key: &str) -> (r: Option<Option<u64>>)
    ensures
        r == opt_u64(j@, key@),
{
    match j.get(key) {
        None => Some(None),
        Some(Json::Null) => Some(None),
        Some(v) => match v.as_u64() {
            Some(u) => Some(Some(u)),
            None => None,
        },
    }
}

pub fn req_u32_exec(j: &Json, key: &str) -> (r: Option<u32>)
    ensures
        r == req_u32(j@, key@),
{
    match req_u64_exec(j, key) {
        Some(u) => if u <= 0xffff_ffff {
            Some(u as u32)
        } else {
            None
        },
        None => None,
    }
}

pub fn opt_i32_exec(j: &Json, key: &str) -> (r: Option<Option<i32>>)
    ensures
        r == opt_i32(j@, key@),
{
    match j.get(key) {
        None => Some(None),
        Some(Json::Null) => Some(None),
        Some(v) => match v.as_i64() {
            Some(i) => if -0x8000_0000 <= i && i <= 0x7fff_ffff {
                Some(Some(i as i32))
            } else {
                None
            },
            None => None,
        },
    }
}

pub fn req_bool_exec(j: &Json, key: &str) -> (r: Option<bool>)
    ensures
        r == req_bool(j@, key@),
{
    match j.get(key) {
        Some(v) => v.as_bool(),
        None => None,
    }
}

pub fn opt_bool_exec(j: &Json, key: &str) -> (r: Option<Option<bool>>)
    ensures
        r == opt_bool(j@, key@),
{
    match j.get(key) {
        None => Some(None),
        Some(Json::Null) => Some(None),
        Some(Json::Bool(b)) => Some(Some(*b)),
        _ => None,
    }
}

pub fn req_json_exec(j: &Json, key: &str) -> (r: Option<Json>)
    ensures
        r.deep_view() == req_json(j@, key@),
{
    match j.get(key) {
        Some(v) => Some(v.clone()),
        None => None,
    }
}

pub fn opt_json_exec(j: &Json, key: &str) -> (r: Option<Json>)
    ensures
        r.deep_view() == opt_json(j@, key@),
{
    match j.get(key) {
        None => None,
        Some(Json::Null) => None,
        Some(v) => Some(v.clone()),
    }
}

pub fn all_texts_exec(items: &Vec<Json>) -> (r: Option<Vec<String>>)
    ensures
        r.deep_view() == all_texts(items.deep_view()),
{
    let mut out: Vec<String> = Vec::new();
    let mut i: usize = 0;
    while i < items.len()
        invariant
            i <= items.len(),
            out.len() == i,
            forall|k: int| 0 <= k < i ==> items@[k]@.as_text() == Some(#[trigger] out@[k]@),
        decreases items.len() - i,
    {
        match items[i].as_str() {
            Some(s) => {
                out.push(s.to_owned());
            },
            None => {
                assert(items.deep_view()[i as int].as_text() is None);
                return None;
            },
        }
        i += 1;
    }
    proof {
        let views = items.deep_view();
        assert forall|k: int| 0 <= k < views.len() implies (#[trigger] views[k]).as_text() is Some by {
            assert(items@[k]@.as_text() == Some(out@[k]@));
        }
        assert(out.deep_view() =~= all_texts(views).unwrap());
    }
    Some(out)
}

pub fn opt_text_list_exec(j: &Json, key: &str) -> (r: Option<Option<Vec<String>>>)
    ensures
        r.deep_view() == opt_text_list(j@, key@),
{
    match j.get(key) {
        None => Some(None),
        Some(Json::Null) => Some(None),
        Some(v) => match v.as_array() {
            Some(items) => match all_texts_exec(items) {
                Some(t) => Some(Some(t)),
                None => None,
            },
            None => None,
        },
    }
}

pub fn clone_json_list(items: &Vec<Json>) -> (out: Vec<Json>)
    ensures
        out.deep_view() == items.deep_view(),
{
    let mut out: Vec<Json> = Vec::new();
    let mut i: usize = 0;
    while i < items.len()
        invariant
            i <= items.len(),
            out.len() == i,
            forall|k: int| 0 <= k < i ==> out@[k]@ == items@[k]@,
        decreases items.len() - i,
    {
        out.push(items[i].clone());
        i += 1;
    }
    assert(out.deep_view() =~= items.deep_view());
    out
}

pub fn opt_json_list_exec(j: &Json, key: &str) -> (r: Option<Option<Vec<Json>>>)
    ensures
        r.deep_view() == opt_json_list(j@, key@),
{
    match j.get(key) {
        None => Some(None),
        Some(Json::Null) => Some(None),
        Some(v) => match v.as_array() {
            Some(items) => Some(Some(clone_json_list(items))),
            None => None,
        },
    }
}

pub fn opt_text_map_exec(j: &Json, key: &str) -> (r: Option<Option<Vec<(String, String)>>>)
    ensures
        r.deep_view() == opt_text_map(j@, key@),
{
    match j.get(key) {
        None => Some(None),
        Some(v) => match v {
            Json::Null => Some(None),
            Json::Object(fields) => {
                proof {
                    crate::json::lemma_view_unfold(*v);
                }
                let mut out: Vec<(String, String)> = Vec::new();
                let mut i: usize = 0;
                while i < fields.len()
                    invariant
                        i <= fields.len(),
                        out.len() == i,
                        j@.get(key@) == Some(v@),
                        v@ matches JsonView::Object(f) && f.len() == fields@.len() && forall|k: int|
                            0 <= k < fields@.len() ==> f[k] == (fields@[k].0@, fields@[k].1@),
                        forall|k: int|
                            0 <= k < i ==> fields@[k].1@.as_text() == Some((#[trigger] out@[k]).1@)
                                && out@[k].0@ == fields@[k].0@,
                    decreases fields.len() - i,
                {
                    match fields[i].1.as_str() {
                        Some(s) => {
                            out.push((fields[i].0.clone(), s.to_owned()));
                        },
                        None => {
                            assert(v@->Object_0[i as int].1.as_text() is None);
                            return None;
                        },
                    }
                    i += 1;
                }
                proof {
                    let f = v@->Object_0;
                    assert forall|k: int| 0 <= k < f.len() implies (#[trigger] f[k]).1.as_text() is Some by {
                        assert(fields@[k].1@.as_text() == Some(out@[k].1@));
                    }
                    assert(out.deep_view() =~= all_text_fields(f).unwrap());
                }
                Some(Some(out))
            },
            _ => None,
        },
    }
}

} // verus!
