//! Requests: the typed per-method argument records and the request
//! envelope, with their exact serializations.
//!
//! Every record states, per field, the key it serializes under; an absent
//! optional field contributes no entry at all — never a `null` — since the
//! server tells "missing" and "null" apart.

use vstd::prelude::*;
use vstd::string::StringExecFns;

use crate::json::{
    entry_reps_of, json_text, lemma_rep_of_arr, lemma_rep_of_obj, rep_of, reps_of, to_text,
    JsonRep, JsonValue,
};
use crate::types::{Id, IdleMode, Priority, RatioMode};

verus! {

/// Marker for types that can stand in a request's field list.
pub trait ArgumentFields {

}

impl ArgumentFields for TorrentGetField {

}

// ---------------------------------------------------------------------------
// Spec building blocks for object entries.
// ---------------------------------------------------------------------------
/// One `key: value` entry when the value is present; nothing when absent.
pub open spec fn opt_entry(key: Seq<char>, v: Option<JsonRep>) -> Seq<(Seq<char>, JsonRep)> {
    match v {
        Some(x) => seq![(key, x)],
        None => Seq::empty(),
    }
}

pub open spec fn opt_str_rep(o: Option<String>) -> Option<JsonRep> {
    match o {
        Some(s) => Some(JsonRep::Str(s@)),
        None => None,
    }
}

pub open spec fn opt_bool_rep(o: Option<bool>) -> Option<JsonRep> {
    match o {
        Some(b) => Some(JsonRep::Bool(b)),
        None => None,
    }
}

pub open spec fn opt_i32_rep(o: Option<i32>) -> Option<JsonRep> {
    match o {
        Some(i) => Some(JsonRep::Int(i as int)),
        None => None,
    }
}

pub open spec fn opt_i64_rep(o: Option<i64>) -> Option<JsonRep> {
    match o {
        Some(i) => Some(JsonRep::Int(i as int)),
        None => None,
    }
}

pub open spec fn opt_u16_rep(o: Option<u16>) -> Option<JsonRep> {
    match o {
        Some(i) => Some(JsonRep::Int(i as int)),
        None => None,
    }
}

pub open spec fn opt_usize_rep(o: Option<usize>) -> Option<JsonRep> {
    match o {
        Some(i) => Some(JsonRep::Int(i as int)),
        None => None,
    }
}

pub open spec fn opt_priority_rep(o: Option<Priority>) -> Option<JsonRep> {
    match o {
        Some(p) => Some(JsonRep::Int(p.spec_wire())),
        None => None,
    }
}

pub open spec fn opt_idle_mode_rep(o: Option<IdleMode>) -> Option<JsonRep> {
    match o {
        Some(m) => Some(JsonRep::Int(m.spec_wire())),
        None => None,
    }
}

pub open spec fn opt_ratio_mode_rep(o: Option<RatioMode>) -> Option<JsonRep> {
    match o {
        Some(m) => Some(JsonRep::Int(m.spec_wire())),
        None => None,
    }
}

/// An identifier on the wire: a bare number or a bare string.
pub open spec fn id_rep(id: Id) -> JsonRep {
    match id {
        Id::Id(n) => JsonRep::Int(n as int),
        Id::Hash(s) => JsonRep::Str(s@),
    }
}

pub open spec fn id_reps(v: Seq<Id>) -> Seq<JsonRep> {
    Seq::new(v.len(), |i: int| id_rep(v[i]))
}

/// Encodes one identifier to its wire form: a bare number or a bare string.
pub fn id_to_json(id: &Id) -> (r: JsonValue)
    ensures
        rep_of(r) == id_rep(*id),
{
    match id {
        Id::Id(n) => JsonValue::Int(*n as i128),
        Id::Hash(s) => JsonValue::Str(s.clone()),
    }
}

pub open spec fn i32_reps(v: Seq<i32>) -> Seq<JsonRep> {
    Seq::new(v.len(), |i: int| JsonRep::Int(v[i] as int))
}

pub open spec fn usize_reps(v: Seq<usize>) -> Seq<JsonRep> {
    Seq::new(v.len(), |i: int| JsonRep::Int(v[i] as int))
}

pub open spec fn str_reps(v: Seq<String>) -> Seq<JsonRep> {
    Seq::new(v.len(), |i: int| JsonRep::Str(v[i]@))
}

pub open spec fn field_reps(v: Seq<TorrentGetField>) -> Seq<JsonRep> {
    Seq::new(v.len(), |i: int| JsonRep::Str(v[i].spec_str()))
}

pub open spec fn opt_id_vec_rep(o: Option<Vec<Id>>) -> Option<JsonRep> {
    match o {
        Some(v) => Some(JsonRep::Arr(id_reps(v@))),
        None => None,
    }
}

pub open spec fn opt_i32_vec_rep(o: Option<Vec<i32>>) -> Option<JsonRep> {
    match o {
        Some(v) => Some(JsonRep::Arr(i32_reps(v@))),
        None => None,
    }
}

pub open spec fn opt_usize_vec_rep(o: Option<Vec<usize>>) -> Option<JsonRep> {
    match o {
        Some(v) => Some(JsonRep::Arr(usize_reps(v@))),
        None => None,
    }
}

pub open spec fn opt_str_vec_rep(o: Option<Vec<String>>) -> Option<JsonRep> {
    match o {
        Some(v) => Some(JsonRep::Arr(str_reps(v@))),
        None => None,
    }
}

pub open spec fn opt_field_vec_rep(o: Option<Vec<TorrentGetField>>) -> Option<JsonRep> {
    match o {
        Some(v) => Some(JsonRep::Arr(field_reps(v@))),
        None => None,
    }
}

pub open spec fn opt_tracker_list_rep(o: Option<TrackerList>) -> Option<JsonRep> {
    match o {
        Some(t) => Some(JsonRep::Str(t.spec_joined())),
        None => None,
    }
}

// ---------------------------------------------------------------------------
// Array builders.
// ---------------------------------------------------------------------------
fn id_vec_to_json(ids: &Vec<Id>) -> (r: JsonValue)
    ensures
        rep_of(r) == JsonRep::Arr(id_reps(ids@)),
{
    let mut items: Vec<JsonValue> = Vec::new();
    let mut i: usize = 0;
    proof {
        assert(reps_of(items@) =~= id_reps(ids@.take(0)));
    }
    while i < ids.len()
        invariant
            i <= ids.len(),
            items@.len() == i,
            reps_of(items@) == id_reps(ids@.take(i as int)),
        decreases ids.len() - i,
    {
        let ghost items0 = items@;
        match &ids[i] {
            Id::Id(n) => items.push(JsonValue::Int(*n as i128)),
            Id::Hash(s) => items.push(JsonValue::Str(s.clone())),
        }
        i = i + 1;
        proof {
            let ghost a = reps_of(items@);
            let ghost b = id_reps(ids@.take(i as int));
            assert forall|j: int| 0 <= j < a.len() implies a[j] == b[j] by {
                if j < i - 1 {
                    assert(reps_of(items0)[j] == id_reps(ids@.take(i - 1))[j]);
                }
                assert(a[j] == rep_of(items@[j]));
                assert(b[j] == id_rep(ids@[j]));
            }
            assert(a =~= b);
        }
    }
    proof {
        assert(ids@.take(ids@.len() as int) =~= ids@);
        lemma_rep_of_arr(items);
    }
    JsonValue::Arr(items)
}

fn i32_vec_to_json(v: &Vec<i32>) -> (r: JsonValue)
    ensures
        rep_of(r) == JsonRep::Arr(i32_reps(v@)),
{
    let mut items: Vec<JsonValue> = Vec::new();
    let mut i: usize = 0;
    proof {
        assert(reps_of(items@) =~= i32_reps(v@.take(0)));
    }
    while i < v.len()
        invariant
            i <= v.len(),
            items@.len() == i,
            reps_of(items@) == i32_reps(v@.take(i as int)),
        decreases v.len() - i,
    {
        let ghost items0 = items@;
        items.push(JsonValue::Int(v[i] as i128));
        i = i + 1;
        proof {
            let ghost a = reps_of(items@);
            let ghost b = i32_reps(v@.take(i as int));
            assert forall|j: int| 0 <= j < a.len() implies a[j] == b[j] by {
                if j < i - 1 {
                    assert(reps_of(items0)[j] == i32_reps(v@.take(i - 1))[j]);
                }
                assert(a[j] == rep_of(items@[j]));
                assert(b[j] == JsonRep::Int(v@[j] as int));
            }
            assert(a =~= b);
        }
    }
    proof {
        assert(v@.take(v@.len() as int) =~= v@);
        lemma_rep_of_arr(items);
    }
    JsonValue::Arr(items)
}

fn usize_vec_to_json(v: &Vec<usize>) -> (r: JsonValue)
    ensures
        rep_of(r) == JsonRep::Arr(usize_reps(v@)),
{
    let mut items: Vec<JsonValue> = Vec::new();
    let mut i: usize = 0;
    proof {
        assert(reps_of(items@) =~= usize_reps(v@.take(0)));
    }
    while i < v.len()
        invariant
            i <= v.len(),
            items@.len() == i,
            reps_of(items@) == usize_reps(v@.take(i as int)),
        decreases v.len() - i,
    {
        let ghost items0 = items@;
        items.push(JsonValue::Int(v[i] as i128));
        i = i + 1;
        proof {
            let ghost a = reps_of(items@);
            let ghost b = usize_reps(v@.take(i as int));
            assert forall|j: int| 0 <= j < a.len() implies a[j] == b[j] by {
                if j < i - 1 {
                    assert(reps_of(items0)[j] == usize_reps(v@.take(i - 1))[j]);
                }
                assert(a[j] == rep_of(items@[j]));
                assert(b[j] == JsonRep::Int(v@[j] as int));
            }
            assert(a =~= b);
        }
    }
    proof {
        assert(v@.take(v@.len() as int) =~= v@);
        lemma_rep_of_arr(items);
    }
    JsonValue::Arr(items)
}

fn string_vec_to_json(v: &Vec<String>) -> (r: JsonValue)
    ensures
        rep_of(r) == JsonRep::Arr(str_reps(v@)),
{
    let mut items: Vec<JsonValue> = Vec::new();
    let mut i: usize = 0;
    proof {
        assert(reps_of(items@) =~= str_reps(v@.take(0)));
    }
    while i < v.len()
        invariant
            i <= v.len(),
            items@.len() == i,
            reps_of(items@) == str_reps(v@.take(i as int)),
        decreases v.len() - i,
    {
        let ghost items0 = items@;
        items.push(JsonValue::Str(v[i].clone()));
        i = i + 1;
        proof {
            let ghost a = reps_of(items@);
            let ghost b = str_reps(v@.take(i as int));
            assert forall|j: int| 0 <= j < a.len() implies a[j] == b[j] by {
                if j < i - 1 {
                    assert(reps_of(items0)[j] == str_reps(v@.take(i - 1))[j]);
                }
                assert(a[j] == rep_of(items@[j]));
                assert(b[j] == JsonRep::Str(v@[j]@));
            }
            assert(a =~= b);
        }
    }
    proof {
        assert(v@.take(v@.len() as int) =~= v@);
        lemma_rep_of_arr(items);
    }
    JsonValue::Arr(items)
}

fn field_vec_to_json(v: &Vec<TorrentGetField>) -> (r: JsonValue)
    ensures
        rep_of(r) == JsonRep::Arr(field_reps(v@)),
{
    let mut items: Vec<JsonValue> = Vec::new();
    let mut i: usize = 0;
    proof {
        assert(reps_of(items@) =~= field_reps(v@.take(0)));
    }
    while i < v.len()
        invariant
            i <= v.len(),
            items@.len() == i,
            reps_of(items@) == field_reps(v@.take(i as int)),
        decreases v.len() - i,
    {
        let ghost items0 = items@;
        items.push(JsonValue::Str(v[i].as_str().to_owned()));
        i = i + 1;
        proof {
            let ghost a = reps_of(items@);
            let ghost b = field_reps(v@.take(i as int));
            assert forall|j: int| 0 <= j < a.len() implies a[j] == b[j] by {
                if j < i - 1 {
                    assert(reps_of(items0)[j] == field_reps(v@.take(i - 1))[j]);
                }
                assert(a[j] == rep_of(items@[j]));
                assert(b[j] == JsonRep::Str(v@[j].spec_str()));
            }
            assert(a =~= b);
        }
    }
    proof {
        assert(v@.take(v@.len() as int) =~= v@);
        lemma_rep_of_arr(items);
    }
    JsonValue::Arr(items)
}

// ---------------------------------------------------------------------------
// Entry builders, one per optional field kind.
// ---------------------------------------------------------------------------
/// Appends the entry for an optional String field, or nothing.
fn push_opt_string(es: &mut Vec<(String, JsonValue)>, key: &str, v: &Option<String>)
    ensures
        entry_reps_of(final(es)@) == entry_reps_of(old(es)@) + opt_entry(key@, opt_str_rep(*v)),
{
    match v {
        Some(x) => es.push((key.to_owned(), JsonValue::Str(x.clone()))),
        None => (),
    }
    proof {
        let ghost a = entry_reps_of(es@);
        let ghost b = entry_reps_of(old(es)@) + opt_entry(key@, opt_str_rep(*v));
        assert(a.len() == b.len());
        assert forall|j: int| 0 <= j < a.len() implies a[j] == b[j] by {
            if j < old(es)@.len() {
                assert(entry_reps_of(old(es)@)[j] == (old(es)@[j].0@, rep_of(old(es)@[j].1)));
            }
            assert(a[j] == (es@[j].0@, rep_of(es@[j].1)));
        }
        assert(a =~= b);
    }
}

/// Appends the entry for an optional bool field, or nothing.
fn push_opt_bool(es: &mut Vec<(String, JsonValue)>, key: &str, v: &Option<bool>)
    ensures
        entry_reps_of(final(es)@) == entry_reps_of(old(es)@) + opt_entry(key@, opt_bool_rep(*v)),
{
    match v {
        Some(x) => es.push((key.to_owned(), JsonValue::Bool(*x))),
        None => (),
    }
    proof {
        let ghost a = entry_reps_of(es@);
        let ghost b = entry_reps_of(old(es)@) + opt_entry(key@, opt_bool_rep(*v));
        assert(a.len() == b.len());
        assert forall|j: int| 0 <= j < a.len() implies a[j] == b[j] by {
            if j < old(es)@.len() {
                assert(entry_reps_of(old(es)@)[j] == (old(es)@[j].0@, rep_of(old(es)@[j].1)));
            }
            assert(a[j] == (es@[j].0@, rep_of(es@[j].1)));
        }
        assert(a =~= b);
    }
}

/// Appends the entry for an optional i32 field, or nothing.
fn push_opt_i32(es: &mut Vec<(String, JsonValue)>, key: &str, v: &Option<i32>)
    ensures
        entry_reps_of(final(es)@) == entry_reps_of(old(es)@) + opt_entry(key@, opt_i32_rep(*v)),
{
    match v {
        Some(x) => es.push((key.to_owned(), JsonValue::Int(*x as i128))),
        None => (),
    }
    proof {
        let ghost a = entry_reps_of(es@);
        let ghost b = entry_reps_of(old(es)@) + opt_entry(key@, opt_i32_rep(*v));
        assert(a.len() == b.len());
        assert forall|j: int| 0 <= j < a.len() implies a[j] == b[j] by {
            if j < old(es)@.len() {
                assert(entry_reps_of(old(es)@)[j] == (old(es)@[j].0@, rep_of(old(es)@[j].1)));
            }
            assert(a[j] == (es@[j].0@, rep_of(es@[j].1)));
        }
        assert(a =~= b);
    }
}

/// Appends the entry for an optional i64 field, or nothing.
fn push_opt_i64(es: &mut Vec<(String, JsonValue)>, key: &str, v: &Option<i64>)
    ensures
        entry_reps_of(final(es)@) == entry_reps_of(old(es)@) + opt_entry(key@, opt_i64_rep(*v)),
{
    match v {
        Some(x) => es.push((key.to_owned(), JsonValue::Int(*x as i128))),
        None => (),
    }
    proof {
        let ghost a = entry_reps_of(es@);
        let ghost b = entry_reps_of(old(es)@) + opt_entry(key@, opt_i64_rep(*v));
        assert(a.len() == b.len());
        assert forall|j: int| 0 <= j < a.len() implies a[j] == b[j] by {
            if j < old(es)@.len() {
                assert(entry_reps_of(old(es)@)[j] == (old(es)@[j].0@, rep_of(old(es)@[j].1)));
            }
            assert(a[j] == (es@[j].0@, rep_of(es@[j].1)));
        }
        assert(a =~= b);
    }
}

/// Appends the entry for an optional u16 field, or nothing.
fn push_opt_u16(es: &mut Vec<(String, JsonValue)>, key: &str, v: &Option<u16>)
    ensures
        entry_reps_of(final(es)@) == entry_reps_of(old(es)@) + opt_entry(key@, opt_u16_rep(*v)),
{
    match v {
        Some(x) => es.push((key.to_owned(), JsonValue::Int(*x as i128))),
        None => (),
    }
    proof {
        let ghost a = entry_reps_of(es@);
        let ghost b = entry_reps_of(old(es)@) + opt_entry(key@, opt_u16_rep(*v));
        assert(a.len() == b.len());
        assert forall|j: int| 0 <= j < a.len() implies a[j] == b[j] by {
            if j < old(es)@.len() {
                assert(entry_reps_of(old(es)@)[j] == (old(es)@[j].0@, rep_of(old(es)@[j].1)));
            }
            assert(a[j] == (es@[j].0@, rep_of(es@[j].1)));
        }
        assert(a =~= b);
    }
}

/// Appends the entry for an optional usize field, or nothing.
fn push_opt_usize(es: &mut Vec<(String, JsonValue)>, key: &str, v: &Option<usize>)
    ensures
        entry_reps_of(final(es)@) == entry_reps_of(old(es)@) + opt_entry(key@, opt_usize_rep(*v)),
{
    match v {
        Some(x) => es.push((key.to_owned(), JsonValue::Int(*x as i128))),
        None => (),
    }
    proof {
        let ghost a = entry_reps_of(es@);
        let ghost b = entry_reps_of(old(es)@) + opt_entry(key@, opt_usize_rep(*v));
        assert(a.len() == b.len());
        assert forall|j: int| 0 <= j < a.len() implies a[j] == b[j] by {
            if j < old(es)@.len() {
                assert(entry_reps_of(old(es)@)[j] == (old(es)@[j].0@, rep_of(old(es)@[j].1)));
            }
            assert(a[j] == (es@[j].0@, rep_of(es@[j].1)));
        }
        assert(a =~= b);
    }
}

/// Appends the entry for an optional Priority field, or nothing.
fn push_opt_priority(es: &mut Vec<(String, JsonValue)>, key: &str, v: &Option<Priority>)
    ensures
        entry_reps_of(final(es)@) == entry_reps_of(old(es)@) + opt_entry(key@, opt_priority_rep(*v)),
{
    match v {
        Some(x) => es.push((key.to_owned(), JsonValue::Int(x.to_wire() as i128))),
        None => (),
    }
    proof {
        let ghost a = entry_reps_of(es@);
        let ghost b = entry_reps_of(old(es)@) + opt_entry(key@, opt_priority_rep(*v));
        assert(a.len() == b.len());
        assert forall|j: int| 0 <= j < a.len() implies a[j] == b[j] by {
            if j < old(es)@.len() {
                assert(entry_reps_of(old(es)@)[j] == (old(es)@[j].0@, rep_of(old(es)@[j].1)));
            }
            assert(a[j] == (es@[j].0@, rep_of(es@[j].1)));
        }
        assert(a =~= b);
    }
}

/// Appends the entry for an optional IdleMode field, or nothing.
fn push_opt_idlemode(es: &mut Vec<(String, JsonValue)>, key: &str, v: &Option<IdleMode>)
    ensures
        entry_reps_of(final(es)@) == entry_reps_of(old(es)@) + opt_entry(key@, opt_idle_mode_rep(*v)),
{
    match v {
        Some(x) => es.push((key.to_owned(), JsonValue::Int(x.to_wire() as i128))),
        None => (),
    }
    proof {
        let ghost a = entry_reps_of(es@);
        let ghost b = entry_reps_of(old(es)@) + opt_entry(key@, opt_idle_mode_rep(*v));
        assert(a.len() == b.len());
        assert forall|j: int| 0 <= j < a.len() implies a[j] == b[j] by {
            if j < old(es)@.len() {
                assert(entry_reps_of(old(es)@)[j] == (old(es)@[j].0@, rep_of(old(es)@[j].1)));
            }
            assert(a[j] == (es@[j].0@, rep_of(es@[j].1)));
        }
        assert(a =~= b);
    }
}

/// Appends the entry for an optional RatioMode field, or nothing.
fn push_opt_ratiomode(es: &mut Vec<(String, JsonValue)>, key: &str, v: &Option<RatioMode>)
    ensures
        entry_reps_of(final(es)@) == entry_reps_of(old(es)@) + opt_entry(key@, opt_ratio_mode_rep(*v)),
{
    match v {
        Some(x) => es.push((key.to_owned(), JsonValue::Int(x.to_wire() as i128))),
        None => (),
    }
    proof {
        let ghost a = entry_reps_of(es@);
        let ghost b = entry_reps_of(old(es)@) + opt_entry(key@, opt_ratio_mode_rep(*v));
        assert(a.len() == b.len());
        assert forall|j: int| 0 <= j < a.len() implies a[j] == b[j] by {
            if j < old(es)@.len() {
                assert(entry_reps_of(old(es)@)[j] == (old(es)@[j].0@, rep_of(old(es)@[j].1)));
            }
            assert(a[j] == (es@[j].0@, rep_of(es@[j].1)));
        }
        assert(a =~= b);
    }
}

/// Appends the entry for an optional Vec<i32> field, or nothing.
fn push_opt_i32vec(es: &mut Vec<(String, JsonValue)>, key: &str, v: &Option<Vec<i32>>)
    ensures
        entry_reps_of(final(es)@) == entry_reps_of(old(es)@) + opt_entry(key@, opt_i32_vec_rep(*v)),
{
    match v {
        Some(x) => es.push((key.to_owned(), i32_vec_to_json(x))),
        None => (),
    }
    proof {
        let ghost a = entry_reps_of(es@);
        let ghost b = entry_reps_of(old(es)@) + opt_entry(key@, opt_i32_vec_rep(*v));
        assert(a.len() == b.len());
        assert forall|j: int| 0 <= j < a.len() implies a[j] == b[j] by {
            if j < old(es)@.len() {
                assert(entry_reps_of(old(es)@)[j] == (old(es)@[j].0@, rep_of(old(es)@[j].1)));
            }
            assert(a[j] == (es@[j].0@, rep_of(es@[j].1)));
        }
        assert(a =~= b);
    }
}

/// Appends the entry for an optional Vec<usize> field, or nothing.
fn push_opt_usizevec(es: &mut Vec<(String, JsonValue)>, key: &str, v: &Option<Vec<usize>>)
    ensures
        entry_reps_of(final(es)@) == entry_reps_of(old(es)@) + opt_entry(key@, opt_usize_vec_rep(*v)),
{
    match v {
        Some(x) => es.push((key.to_owned(), usize_vec_to_json(x))),
        None => (),
    }
    proof {
        let ghost a = entry_reps_of(es@);
        let ghost b = entry_reps_of(old(es)@) + opt_entry(key@, opt_usize_vec_rep(*v));
        assert(a.len() == b.len());
        assert forall|j: int| 0 <= j < a.len() implies a[j] == b[j] by {
            if j < old(es)@.len() {
                assert(entry_reps_of(old(es)@)[j] == (old(es)@[j].0@, rep_of(old(es)@[j].1)));
            }
            assert(a[j] == (es@[j].0@, rep_of(es@[j].1)));
        }
        assert(a =~= b);
    }
}

/// Appends the entry for an optional Vec<String> field, or nothing.
fn push_opt_strvec(es: &mut Vec<(String, JsonValue)>, key: &str, v: &Option<Vec<String>>)
    ensures
        entry_reps_of(final(es)@) == entry_reps_of(old(es)@) + opt_entry(key@, opt_str_vec_rep(*v)),
{
    match v {
        Some(x) => es.push((key.to_owned(), string_vec_to_json(x))),
        None => (),
    }
    proof {
        let ghost a = entry_reps_of(es@);
        let ghost b = entry_reps_of(old(es)@) + opt_entry(key@, opt_str_vec_rep(*v));
        assert(a.len() == b.len());
        assert forall|j: int| 0 <= j < a.len() implies a[j] == b[j] by {
            if j < old(es)@.len() {
                assert(entry_reps_of(old(es)@)[j] == (old(es)@[j].0@, rep_of(old(es)@[j].1)));
            }
            assert(a[j] == (es@[j].0@, rep_of(es@[j].1)));
        }
        assert(a =~= b);
    }
}

/// Appends the entry for an optional Vec<Id> field, or nothing.
fn push_opt_idvec(es: &mut Vec<(String, JsonValue)>, key: &str, v: &Option<Vec<Id>>)
    ensures
        entry_reps_of(final(es)@) == entry_reps_of(old(es)@) + opt_entry(key@, opt_id_vec_rep(*v)),
{
    match v {
        Some(x) => es.push((key.to_owned(), id_vec_to_json(x))),
        None => (),
    }
    proof {
        let ghost a = entry_reps_of(es@);
        let ghost b = entry_reps_of(old(es)@) + opt_entry(key@, opt_id_vec_rep(*v));
        assert(a.len() == b.len());
        assert forall|j: int| 0 <= j < a.len() implies a[j] == b[j] by {
            if j < old(es)@.len() {
                assert(entry_reps_of(old(es)@)[j] == (old(es)@[j].0@, rep_of(old(es)@[j].1)));
            }
            assert(a[j] == (es@[j].0@, rep_of(es@[j].1)));
        }
        assert(a =~= b);
    }
}

/// Appends the entry for an optional TrackerList field, or nothing.
fn push_opt_trackerlist(es: &mut Vec<(String, JsonValue)>, key: &str, v: &Option<TrackerList>)
    ensures
        entry_reps_of(final(es)@) == entry_reps_of(old(es)@) + opt_entry(key@, opt_tracker_list_rep(*v)),
{
    match v {
        Some(x) => es.push((key.to_owned(), x.to_json())),
        None => (),
    }
    proof {
        let ghost a = entry_reps_of(es@);
        let ghost b = entry_reps_of(old(es)@) + opt_entry(key@, opt_tracker_list_rep(*v));
        assert(a.len() == b.len());
        assert forall|j: int| 0 <= j < a.len() implies a[j] == b[j] by {
            if j < old(es)@.len() {
                assert(entry_reps_of(old(es)@)[j] == (old(es)@[j].0@, rep_of(old(es)@[j].1)));
            }
            assert(a[j] == (es@[j].0@, rep_of(es@[j].1)));
        }
        assert(a =~= b);
    }
}

// ---------------------------------------------------------------------------
// Field and method names.
// ---------------------------------------------------------------------------
/// One torrent field a `torrent-get` request may ask for.
#[derive(Debug, Clone, Copy, PartialEq, Eq, Structural)]
pub enum TorrentGetField {
    ActivityDate,
    AddedDate,
    Availability,
    BandwidthPriority,
    Comment,
    CorruptEver,
    Creator,
    DateCreated,
    DesiredAvailable,
    DoneDate,
    DownloadDir,
    DownloadedEver,
    DownloadLimit,
    DownloadLimited,
    EditDate,
    Error,
    ErrorString,
    Eta,
    EtaIdle,
    FileCount,
    FileStats,
    Files,
    Group,
    HashString,
    HaveUnchecked,
    HaveValid,
    HonorsSessionLimits,
    Id,
    IsFinished,
    IsPrivate,
    IsStalled,
    Labels,
    LeftUntilDone,
    MagnetLink,
    ManualAnnounceTime,
    MaxConnectedPeers,
    MetadataPercentComplete,
    Name,
    PeerLimit,
    Peers,
    PeersConnected,
    PeersFrom,
    PeersGettingFromUs,
    PeersSendingToUs,
    PercentComplete,
    PercentDone,
    Pieces,
    PieceCount,
    PieceSize,
    Priorities,
    PrimaryMimeType,
    QueuePosition,
    RateDownload,
    RateUpload,
    RecheckProgress,
    SecondsDownloading,
    SecondsSeeding,
    SeedIdleLimit,
    SeedIdleMode,
    SeedRatioLimit,
    SeedRatioMode,
    SequentialDownload,
    SizeWhenDone,
    StartDate,
    Status,
    TorrentFile,
    TotalSize,
    Trackers,
    TrackerList,
    TrackerStats,
    UploadRatio,
    UploadedEver,
    UploadLimit,
    UploadLimited,
    Wanted,
    Webseeds,
    WebseedsSendingToUs,
}

impl TorrentGetField {
    /// The protocol name of this torrentgetfield.
    pub open spec fn spec_str(self) -> Seq<char> {
        match self {
            TorrentGetField::ActivityDate => "activityDate"@,
            TorrentGetField::AddedDate => "addedDate"@,
            TorrentGetField::Availability => "availability"@,
            TorrentGetField::BandwidthPriority => "bandwidthPriority"@,
            TorrentGetField::Comment => "comment"@,
            TorrentGetField::CorruptEver => "corruptEver"@,
            TorrentGetField::Creator => "creator"@,
            TorrentGetField::DateCreated => "dateCreated"@,
            TorrentGetField::DesiredAvailable => "desiredAvailable"@,
            TorrentGetField::DoneDate => "doneDate"@,
            TorrentGetField::DownloadDir => "downloadDir"@,
            TorrentGetField::DownloadedEver => "downloadedEver"@,
            TorrentGetField::DownloadLimit => "downloadLimit"@,
            TorrentGetField::DownloadLimited => "downloadLimited"@,
            TorrentGetField::EditDate => "editDate"@,
            TorrentGetField::Error => "error"@,
            TorrentGetField::ErrorString => "errorString"@,
            TorrentGetField::Eta => "eta"@,
            TorrentGetField::EtaIdle => "etaIdle"@,
            TorrentGetField::FileCount => "file-count"@,
            TorrentGetField::FileStats => "fileStats"@,
            TorrentGetField::Files => "files"@,
            TorrentGetField::Group => "group"@,
            TorrentGetField::HashString => "hashString"@,
            TorrentGetField::HaveUnchecked => "haveUnchecked"@,
            TorrentGetField::HaveValid => "haveValid"@,
            TorrentGetField::HonorsSessionLimits => "honorsSessionLimits"@,
            TorrentGetField::Id => "id"@,
            TorrentGetField::IsFinished => "isFinished"@,
            TorrentGetField::IsPrivate => "isPrivate"@,
            TorrentGetField::IsStalled => "isStalled"@,
            TorrentGetField::Labels => "labels"@,
            TorrentGetField::LeftUntilDone => "leftUntilDone"@,
            TorrentGetField::MagnetLink => "magnetLink"@,
            TorrentGetField::ManualAnnounceTime => "manualAnnounceTime"@,
            TorrentGetField::MaxConnectedPeers => "maxConnectedPeers"@,
            TorrentGetField::MetadataPercentComplete => "metadataPercentComplete"@,
            TorrentGetField::Name => "name"@,
            TorrentGetField::PeerLimit => "peer-limit"@,
            TorrentGetField::Peers => "peers"@,
            TorrentGetField::PeersConnected => "peersConnected"@,
            TorrentGetField::PeersFrom => "peersFrom"@,
            TorrentGetField::PeersGettingFromUs => "peersGettingFromUs"@,
            TorrentGetField::PeersSendingToUs => "peersSendingToUs"@,
            TorrentGetField::PercentComplete => "percentComplete"@,
            TorrentGetField::PercentDone => "percentDone"@,
            TorrentGetField::Pieces => "pieces"@,
            TorrentGetField::PieceCount => "pieceCount"@,
            TorrentGetField::PieceSize => "pieceSize"@,
            TorrentGetField::Priorities => "priorities"@,
            TorrentGetField::PrimaryMimeType => "primary-mime-type"@,
            TorrentGetField::QueuePosition => "queuePosition"@,
            TorrentGetField::RateDownload => "rateDownload"@,
            TorrentGetField::RateUpload => "rateUpload"@,
            TorrentGetField::RecheckProgress => "recheckProgress"@,
            TorrentGetField::SecondsDownloading => "secondsDownloading"@,
            TorrentGetField::SecondsSeeding => "secondsSeeding"@,
            TorrentGetField::SeedIdleLimit => "seedIdleLimit"@,
            TorrentGetField::SeedIdleMode => "seedIdleMode"@,
            TorrentGetField::SeedRatioLimit => "seedRatioLimit"@,
            TorrentGetField::SeedRatioMode => "seedRatioMode"@,
            TorrentGetField::SequentialDownload => "sequentialDownload"@,
            TorrentGetField::SizeWhenDone => "sizeWhenDone"@,
            TorrentGetField::StartDate => "startDate"@,
            TorrentGetField::Status => "status"@,
            TorrentGetField::TorrentFile => "torrentFile"@,
            TorrentGetField::TotalSize => "totalSize"@,
            TorrentGetField::Trackers => "trackers"@,
            TorrentGetField::TrackerList => "trackerList"@,
            TorrentGetField::TrackerStats => "trackerStats"@,
            TorrentGetField::UploadRatio => "uploadRatio"@,
            TorrentGetField::UploadedEver => "uploadedEver"@,
            TorrentGetField::UploadLimit => "uploadLimit"@,
            TorrentGetField::UploadLimited => "uploadLimited"@,
            TorrentGetField::Wanted => "wanted"@,
            TorrentGetField::Webseeds => "webseeds"@,
            TorrentGetField::WebseedsSendingToUs => "webseedsSendingToUs"@,
        }
    }

    /// The protocol name of this value.
    pub fn as_str(&self) -> (r: &'static str)
        ensures
            r@ == self.spec_str(),
    {
        match self {
            TorrentGetField::ActivityDate => "activityDate",
            TorrentGetField::AddedDate => "addedDate",
            TorrentGetField::Availability => "availability",
            TorrentGetField::BandwidthPriority => "bandwidthPriority",
            TorrentGetField::Comment => "comment",
            TorrentGetField::CorruptEver => "corruptEver",
            TorrentGetField::Creator => "creator",
            TorrentGetField::DateCreated => "dateCreated",
            TorrentGetField::DesiredAvailable => "desiredAvailable",
            TorrentGetField::DoneDate => "doneDate",
            TorrentGetField::DownloadDir => "downloadDir",
            TorrentGetField::DownloadedEver => "downloadedEver",
            TorrentGetField::DownloadLimit => "downloadLimit",
            TorrentGetField::DownloadLimited => "downloadLimited",
            TorrentGetField::EditDate => "editDate",
            TorrentGetField::Error => "error",
            TorrentGetField::ErrorString => "errorString",
            TorrentGetField::Eta => "eta",
            TorrentGetField::EtaIdle => "etaIdle",
            TorrentGetField::FileCount => "file-count",
            TorrentGetField::FileStats => "fileStats",
            TorrentGetField::Files => "files",
            TorrentGetField::Group => "group",
            TorrentGetField::HashString => "hashString",
            TorrentGetField::HaveUnchecked => "haveUnchecked",
            TorrentGetField::HaveValid => "haveValid",
            TorrentGetField::HonorsSessionLimits => "honorsSessionLimits",
            TorrentGetField::Id => "id",
            TorrentGetField::IsFinished => "isFinished",
            TorrentGetField::IsPrivate => "isPrivate",
            TorrentGetField::IsStalled => "isStalled",
            TorrentGetField::Labels => "labels",
            TorrentGetField::LeftUntilDone => "leftUntilDone",
            TorrentGetField::MagnetLink => "magnetLink",
            TorrentGetField::ManualAnnounceTime => "manualAnnounceTime",
            TorrentGetField::MaxConnectedPeers => "maxConnectedPeers",
            TorrentGetField::MetadataPercentComplete => "metadataPercentComplete",
            TorrentGetField::Name => "name",
            TorrentGetField::PeerLimit => "peer-limit",
            TorrentGetField::Peers => "peers",
            TorrentGetField::PeersConnected => "peersConnected",
            TorrentGetField::PeersFrom => "peersFrom",
            TorrentGetField::PeersGettingFromUs => "peersGettingFromUs",
            TorrentGetField::PeersSendingToUs => "peersSendingToUs",
            TorrentGetField::PercentComplete => "percentComplete",
            TorrentGetField::PercentDone => "percentDone",
            TorrentGetField::Pieces => "pieces",
            TorrentGetField::PieceCount => "pieceCount",
            TorrentGetField::PieceSize => "pieceSize",
            TorrentGetField::Priorities => "priorities",
            TorrentGetField::PrimaryMimeType => "primary-mime-type",
            TorrentGetField::QueuePosition => "queuePosition",
            TorrentGetField::RateDownload => "rateDownload",
            TorrentGetField::RateUpload => "rateUpload",
            TorrentGetField::RecheckProgress => "recheckProgress",
            TorrentGetField::SecondsDownloading => "secondsDownloading",
            TorrentGetField::SecondsSeeding => "secondsSeeding",
            TorrentGetField::SeedIdleLimit => "seedIdleLimit",
            TorrentGetField::SeedIdleMode => "seedIdleMode",
            TorrentGetField::SeedRatioLimit => "seedRatioLimit",
            TorrentGetField::SeedRatioMode => "seedRatioMode",
            TorrentGetField::SequentialDownload => "sequentialDownload",
            TorrentGetField::SizeWhenDone => "sizeWhenDone",
            TorrentGetField::StartDate => "startDate",
            TorrentGetField::Status => "status",
            TorrentGetField::TorrentFile => "torrentFile",
            TorrentGetField::TotalSize => "totalSize",
            TorrentGetField::Trackers => "trackers",
            TorrentGetField::TrackerList => "trackerList",
            TorrentGetField::TrackerStats => "trackerStats",
            TorrentGetField::UploadRatio => "uploadRatio",
            TorrentGetField::UploadedEver => "uploadedEver",
            TorrentGetField::UploadLimit => "uploadLimit",
            TorrentGetField::UploadLimited => "uploadLimited",
            TorrentGetField::Wanted => "wanted",
            TorrentGetField::Webseeds => "webseeds",
            TorrentGetField::WebseedsSendingToUs => "webseedsSendingToUs",
        }
    }

    /// Every field, in the order requests list them.
    pub open spec fn spec_all() -> Seq<TorrentGetField> {
        seq![
            TorrentGetField::ActivityDate,
            TorrentGetField::AddedDate,
            TorrentGetField::Availability,
            TorrentGetField::BandwidthPriority,
            TorrentGetField::Comment,
            TorrentGetField::CorruptEver,
            TorrentGetField::Creator,
            TorrentGetField::DateCreated,
            TorrentGetField::DesiredAvailable,
            TorrentGetField::DoneDate,
            TorrentGetField::DownloadDir,
            TorrentGetField::DownloadedEver,
            TorrentGetField::DownloadLimit,
            TorrentGetField::DownloadLimited,
            TorrentGetField::EditDate,
            TorrentGetField::Error,
            TorrentGetField::ErrorString,
            TorrentGetField::Eta,
            TorrentGetField::EtaIdle,
            TorrentGetField::FileCount,
            TorrentGetField::FileStats,
            TorrentGetField::Files,
            TorrentGetField::Group,
            TorrentGetField::HashString,
            TorrentGetField::HaveUnchecked,
            TorrentGetField::HaveValid,
            TorrentGetField::HonorsSessionLimits,
            TorrentGetField::Id,
            TorrentGetField::IsFinished,
            TorrentGetField::IsPrivate,
            TorrentGetField::IsStalled,
            TorrentGetField::Labels,
            TorrentGetField::LeftUntilDone,
            TorrentGetField::MagnetLink,
            TorrentGetField::ManualAnnounceTime,
            TorrentGetField::MaxConnectedPeers,
            TorrentGetField::MetadataPercentComplete,
            TorrentGetField::Name,
            TorrentGetField::PeerLimit,
            TorrentGetField::Peers,
            TorrentGetField::PeersConnected,
            TorrentGetField::PeersFrom,
            TorrentGetField::PeersGettingFromUs,
            TorrentGetField::PeersSendingToUs,
            TorrentGetField::PercentComplete,
            TorrentGetField::PercentDone,
            TorrentGetField::Pieces,
            TorrentGetField::PieceCount,
            TorrentGetField::PieceSize,
            TorrentGetField::Priorities,
            TorrentGetField::PrimaryMimeType,
            TorrentGetField::QueuePosition,
            TorrentGetField::RateDownload,
            TorrentGetField::RateUpload,
            TorrentGetField::RecheckProgress,
            TorrentGetField::SecondsDownloading,
            TorrentGetField::SecondsSeeding,
            TorrentGetField::SeedIdleLimit,
            TorrentGetField::SeedIdleMode,
            TorrentGetField::SeedRatioLimit,
            TorrentGetField::SeedRatioMode,
            TorrentGetField::SequentialDownload,
            TorrentGetField::SizeWhenDone,
            TorrentGetField::StartDate,
            TorrentGetField::Status,
            TorrentGetField::TorrentFile,
            TorrentGetField::TotalSize,
            TorrentGetField::Trackers,
            TorrentGetField::TrackerList,
            TorrentGetField::TrackerStats,
            TorrentGetField::UploadRatio,
            TorrentGetField::UploadedEver,
            TorrentGetField::UploadLimit,
            TorrentGetField::UploadLimited,
            TorrentGetField::Wanted,
            TorrentGetField::Webseeds,
            TorrentGetField::WebseedsSendingToUs,
        ]
    }

    /// Every field, in the order requests list them.
    #[verifier::rlimit(100)]
    pub fn all() -> (r: Vec<TorrentGetField>)
        ensures
            r@ == TorrentGetField::spec_all(),
    {
        let mut r: Vec<TorrentGetField> = Vec::new();
        r.push(TorrentGetField::ActivityDate);
        r.push(TorrentGetField::AddedDate);
        r.push(TorrentGetField::Availability);
        r.push(TorrentGetField::BandwidthPriority);
        r.push(TorrentGetField::Comment);
        r.push(TorrentGetField::CorruptEver);
        r.push(TorrentGetField::Creator);
        r.push(TorrentGetField::DateCreated);
        r.push(TorrentGetField::DesiredAvailable);
        r.push(TorrentGetField::DoneDate);
        r.push(TorrentGetField::DownloadDir);
        r.push(TorrentGetField::DownloadedEver);
        r.push(TorrentGetField::DownloadLimit);
        r.push(TorrentGetField::DownloadLimited);
        r.push(TorrentGetField::EditDate);
        r.push(TorrentGetField::Error);
        r.push(TorrentGetField::ErrorString);
        r.push(TorrentGetField::Eta);
        r.push(TorrentGetField::EtaIdle);
        r.push(TorrentGetField::FileCount);
        r.push(TorrentGetField::FileStats);
        r.push(TorrentGetField::Files);
        r.push(TorrentGetField::Group);
        r.push(TorrentGetField::HashString);
        r.push(TorrentGetField::HaveUnchecked);
        r.push(TorrentGetField::HaveValid);
        r.push(TorrentGetField::HonorsSessionLimits);
        r.push(TorrentGetField::Id);
        r.push(TorrentGetField::IsFinished);
        r.push(TorrentGetField::IsPrivate);
        r.push(TorrentGetField::IsStalled);
        r.push(TorrentGetField::Labels);
        r.push(TorrentGetField::LeftUntilDone);
        r.push(TorrentGetField::MagnetLink);
        r.push(TorrentGetField::ManualAnnounceTime);
        r.push(TorrentGetField::MaxConnectedPeers);
        r.push(TorrentGetField::MetadataPercentComplete);
        r.push(TorrentGetField::Name);
        r.push(TorrentGetField::PeerLimit);
        r.push(TorrentGetField::Peers);
        r.push(TorrentGetField::PeersConnected);
        r.push(TorrentGetField::PeersFrom);
        r.push(TorrentGetField::PeersGettingFromUs);
        r.push(TorrentGetField::PeersSendingToUs);
        r.push(TorrentGetField::PercentComplete);
        r.push(TorrentGetField::PercentDone);
        r.push(TorrentGetField::Pieces);
        r.push(TorrentGetField::PieceCount);
        r.push(TorrentGetField::PieceSize);
        r.push(TorrentGetField::Priorities);
        r.push(TorrentGetField::PrimaryMimeType);
        r.push(TorrentGetField::QueuePosition);
        r.push(TorrentGetField::RateDownload);
        r.push(TorrentGetField::RateUpload);
        r.push(TorrentGetField::RecheckProgress);
        r.push(TorrentGetField::SecondsDownloading);
        r.push(TorrentGetField::SecondsSeeding);
        r.push(TorrentGetField::SeedIdleLimit);
        r.push(TorrentGetField::SeedIdleMode);
        r.push(TorrentGetField::SeedRatioLimit);
        r.push(TorrentGetField::SeedRatioMode);
        r.push(TorrentGetField::SequentialDownload);
        r.push(TorrentGetField::SizeWhenDone);
        r.push(TorrentGetField::StartDate);
        r.push(TorrentGetField::Status);
        r.push(TorrentGetField::TorrentFile);
        r.push(TorrentGetField::TotalSize);
        r.push(TorrentGetField::Trackers);
        r.push(TorrentGetField::TrackerList);
        r.push(TorrentGetField::TrackerStats);
        r.push(TorrentGetField::UploadRatio);
        r.push(TorrentGetField::UploadedEver);
        r.push(TorrentGetField::UploadLimit);
        r.push(TorrentGetField::UploadLimited);
        r.push(TorrentGetField::Wanted);
        r.push(TorrentGetField::Webseeds);
        r.push(TorrentGetField::WebseedsSendingToUs);
        proof {
            assert(r@ =~= TorrentGetField::spec_all());
        }
        r
    }
}

/// One of the torrent lifecycle actions.
#[derive(Debug, Clone, Copy, PartialEq, Eq, Structural)]
pub enum TorrentAction {
    Start,
    Stop,
    StartNow,
    Verify,
    Reannounce,
}

impl TorrentAction {
    /// The protocol name of this torrentaction.
    pub open spec fn spec_str(self) -> Seq<char> {
        match self {
            TorrentAction::Start => "torrent-start"@,
            TorrentAction::Stop => "torrent-stop"@,
            TorrentAction::StartNow => "torrent-start-now"@,
            TorrentAction::Verify => "torrent-verify"@,
            TorrentAction::Reannounce => "torrent-reannounce"@,
        }
    }

    /// The protocol name of this value.
    pub fn as_str(&self) -> (r: &'static str)
        ensures
            r@ == self.spec_str(),
    {
        match self {
            TorrentAction::Start => "torrent-start",
            TorrentAction::Stop => "torrent-stop",
            TorrentAction::StartNow => "torrent-start-now",
            TorrentAction::Verify => "torrent-verify",
            TorrentAction::Reannounce => "torrent-reannounce",
        }
    }

    /// The protocol name of this action, as an owned string.
    pub fn to_str(&self) -> (r: String)
        ensures
            r@ == self.spec_str(),
    {
        self.as_str().to_owned()
    }
}

/// The remote operation a request names.
#[derive(Debug, Clone, Copy)]
pub enum Method {
    SessionSet,
    SessionGet,
    SessionStats,
    SessionClose,
    BlocklistUpdate,
    FreeSpace,
    PortTest,
    TorrentGet,
    TorrentSet,
    TorrentRemove,
    TorrentAdd,
    TorrentAction(TorrentAction),
    TorrentSetLocation,
    TorrentRenamePath,
    QueueMoveUp,
    QueueMoveDown,
    QueueMoveTop,
    QueueMoveBottom,
}

impl Method {
    /// The protocol name of this method.
    pub open spec fn spec_str(self) -> Seq<char> {
        match self {
            Method::SessionSet => "session-set"@,
            Method::SessionGet => "session-get"@,
            Method::SessionStats => "session-stats"@,
            Method::SessionClose => "session-close"@,
            Method::BlocklistUpdate => "blocklist-update"@,
            Method::FreeSpace => "free-space"@,
            Method::PortTest => "port-test"@,
            Method::TorrentGet => "torrent-get"@,
            Method::TorrentSet => "torrent-set"@,
            Method::TorrentRemove => "torrent-remove"@,
            Method::TorrentAdd => "torrent-add"@,
            Method::TorrentSetLocation => "torrent-set-location"@,
            Method::TorrentRenamePath => "torrent-rename-path"@,
            Method::QueueMoveUp => "queue-move-up"@,
            Method::QueueMoveDown => "queue-move-down"@,
            Method::QueueMoveTop => "queue-move-top"@,
            Method::QueueMoveBottom => "queue-move-bottom"@,
            Method::TorrentAction(a) => a.spec_str(),
        }
    }

    /// The protocol name of this method.
    pub fn as_str(&self) -> (r: &'static str)
        ensures
            r@ == self.spec_str(),
    {
        match self {
            Method::SessionSet => "session-set",
            Method::SessionGet => "session-get",
            Method::SessionStats => "session-stats",
            Method::SessionClose => "session-close",
            Method::BlocklistUpdate => "blocklist-update",
            Method::FreeSpace => "free-space",
            Method::PortTest => "port-test",
            Method::TorrentGet => "torrent-get",
            Method::TorrentSet => "torrent-set",
            Method::TorrentRemove => "torrent-remove",
            Method::TorrentAdd => "torrent-add",
            Method::TorrentSetLocation => "torrent-set-location",
            Method::TorrentRenamePath => "torrent-rename-path",
            Method::QueueMoveUp => "queue-move-up",
            Method::QueueMoveDown => "queue-move-down",
            Method::QueueMoveTop => "queue-move-top",
            Method::QueueMoveBottom => "queue-move-bottom",
            Method::TorrentAction(a) => a.as_str(),
        }
    }
}

// ---------------------------------------------------------------------------
// Tracker lists.
// ---------------------------------------------------------------------------
/// The character sequences of a list of strings.
pub open spec fn str_views(v: Seq<String>) -> Seq<Seq<char>> {
    Seq::new(v.len(), |i: int| v[i]@)
}

/// The lines `v[i..]`, joined with a newline between neighbours.
pub open spec fn joined_from(v: Seq<Seq<char>>, i: int) -> Seq<char>
    decreases v.len() - i,
{
    if i < 0 || i >= v.len() {
        Seq::empty()
    } else {
        v[i] + (if i + 1 < v.len() {
            seq!['\n']
        } else {
            Seq::empty()
        }) + joined_from(v, i + 1)
    }
}

/// Announce URLs, with an empty element between tiers.  On the wire this is
/// one string: the URLs joined by newlines.
#[derive(Debug, Clone)]
pub struct TrackerList(pub Vec<String>);

impl Default for TrackerList {
    /// An empty list.
    fn default() -> (r: TrackerList)
        ensures
            r.0@.len() == 0,
    {
        TrackerList(Vec::new())
    }
}

fn append_joined(list: &Vec<String>, i: usize, out: &mut String)
    requires
        i <= list.len(),
    ensures
        final(out)@ == old(out)@ + joined_from(str_views(list@), i as int),
    decreases list@.len() - i,
{
    if i < list.len() {
        out.append(list[i].as_str());
        if i + 1 < list.len() {
            out.append("\n");
            proof {
                reveal_strlit("\n");
                assert(("\n")@ =~= seq!['\n']);
            }
        }
        append_joined(list, i + 1, out);
        proof {
            assert(out@ =~= old(out)@ + joined_from(str_views(list@), i as int));
        }
    } else {
        proof {
            assert(out@ =~= old(out)@ + joined_from(str_views(list@), i as int));
        }
    }
}

impl TrackerList {
    /// The single wire string: the URLs joined by newlines.
    pub open spec fn spec_joined(self) -> Seq<char> {
        joined_from(str_views(self.0@), 0)
    }

    /// Builds the wire string for this list.
    pub fn to_json(&self) -> (r: JsonValue)
        ensures
            rep_of(r) == JsonRep::Str(self.spec_joined()),
    {
        let mut s = String::new();
        append_joined(&self.0, 0, &mut s);
        JsonValue::Str(s)
    }
}

// ---------------------------------------------------------------------------
// Argument records.
// ---------------------------------------------------------------------------
/// Arguments of `free-space`.
#[derive(Debug, Clone)]
pub struct FreeSpaceArgs {
    pub path: String,
}

impl FreeSpaceArgs {
    /// The key/value entries this value serializes to.
    pub closed spec fn spec_entries(self) -> Seq<(Seq<char>, JsonRep)> {
        seq![("path"@, JsonRep::Str(self.path@))]
    }

    /// The document this value serializes to.
    pub closed spec fn spec_json(self) -> JsonRep {
        JsonRep::Obj(self.spec_entries())
    }

    /// Builds the document.
    pub fn to_json(&self) -> (r: JsonValue)
        ensures
            rep_of(r) == self.spec_json(),
    {
        let mut es: Vec<(String, JsonValue)> = Vec::new();
        es.push(("path".to_owned(), JsonValue::Str(self.path.clone())));
        proof {
            assert(entry_reps_of(es@) =~= self.spec_entries());
            lemma_rep_of_obj(es);
        }
        JsonValue::Obj(es)
    }
}

/// Arguments of the queue-move methods.
#[derive(Debug, Clone)]
pub struct QueueMoveArgs {
    pub ids: Vec<Id>,
}

impl QueueMoveArgs {
    /// The key/value entries this value serializes to.
    pub closed spec fn spec_entries(self) -> Seq<(Seq<char>, JsonRep)> {
        seq![("ids"@, JsonRep::Arr(id_reps(self.ids@)))]
    }

    /// The document this value serializes to.
    pub closed spec fn spec_json(self) -> JsonRep {
        JsonRep::Obj(self.spec_entries())
    }

    /// Builds the document.
    pub fn to_json(&self) -> (r: JsonValue)
        ensures
            rep_of(r) == self.spec_json(),
    {
        let mut es: Vec<(String, JsonValue)> = Vec::new();
        es.push(("ids".to_owned(), id_vec_to_json(&self.ids)));
        proof {
            assert(entry_reps_of(es@) =~= self.spec_entries());
            lemma_rep_of_obj(es);
        }
        JsonValue::Obj(es)
    }
}

/// Arguments of `torrent-get`.
#[derive(Debug, Clone)]
pub struct TorrentGetArgs {
    pub(crate) fields: Option<Vec<TorrentGetField>>,
    pub(crate) ids: Option<Vec<Id>>,
}

impl Default for TorrentGetArgs {
    /// Asks for every field of every torrent.
    fn default() -> (r: TorrentGetArgs)
        ensures
            r.spec_fields() matches Some(f) && f@ == TorrentGetField::spec_all(),
            r.spec_ids() is None,
    {
        TorrentGetArgs { fields: Some(TorrentGetField::all()), ids: None }
    }
}

impl TorrentGetArgs {
    /// The fields asked for; `None` stands for all of them.
    pub closed spec fn spec_fields(self) -> Option<Vec<TorrentGetField>> {
        self.fields
    }

    /// The torrents asked about; `None` stands for all of them.
    pub closed spec fn spec_ids(self) -> Option<Vec<Id>> {
        self.ids
    }

    /// The key/value entries this value serializes to.
    pub closed spec fn spec_entries(self) -> Seq<(Seq<char>, JsonRep)> {
        opt_entry("fields"@, opt_field_vec_rep(self.fields)) + opt_entry(
            "ids"@,
            opt_id_vec_rep(self.ids),
        )
    }

    /// The document this value serializes to.
    pub closed spec fn spec_json(self) -> JsonRep {
        JsonRep::Obj(self.spec_entries())
    }

    /// Builds the document, omitting absent fields.
    pub fn to_json(&self) -> (r: JsonValue)
        ensures
            rep_of(r) == self.spec_json(),
    {
        let mut es: Vec<(String, JsonValue)> = Vec::new();
        let ghost mut acc: Seq<(Seq<char>, JsonRep)> = Seq::empty();
        let ghost es0 = es@;
        let ghost acc0 = acc;
        match &self.fields {
            Some(x) => es.push(("fields".to_owned(), field_vec_to_json(x))),
            None => (),
        }
        proof {
            acc = opt_entry("fields"@, opt_field_vec_rep(self.fields));
            let ghost a = entry_reps_of(es@);
            assert(a.len() == acc.len());
            assert forall|j: int| 0 <= j < a.len() implies a[j] == acc[j] by {
                if j < es0.len() {
                    assert(entry_reps_of(es0)[j] == acc0[j]);
                }
                assert(a[j] == (es@[j].0@, rep_of(es@[j].1)));
            }
            assert(a =~= acc);
        }
        let ghost es1 = es@;
        let ghost acc1 = acc;
        match &self.ids {
            Some(x) => es.push(("ids".to_owned(), id_vec_to_json(x))),
            None => (),
        }
        proof {
            acc = acc + opt_entry("ids"@, opt_id_vec_rep(self.ids));
            let ghost a = entry_reps_of(es@);
            assert(a.len() == acc.len());
            assert forall|j: int| 0 <= j < a.len() implies a[j] == acc[j] by {
                if j < es1.len() {
                    assert(entry_reps_of(es1)[j] == acc1[j]);
                }
                assert(a[j] == (es@[j].0@, rep_of(es@[j].1)));
            }
            assert(a =~= acc);
        }
        proof {
            lemma_rep_of_obj(es);
        }
        JsonValue::Obj(es)
    }
}

/// Arguments of the torrent action methods.
#[derive(Debug, Clone)]
pub struct TorrentActionArgs {
    pub ids: Vec<Id>,
}

impl TorrentActionArgs {
    /// The key/value entries this value serializes to.
    pub closed spec fn spec_entries(self) -> Seq<(Seq<char>, JsonRep)> {
        seq![("ids"@, JsonRep::Arr(id_reps(self.ids@)))]
    }

    /// The document this value serializes to.
    pub closed spec fn spec_json(self) -> JsonRep {
        JsonRep::Obj(self.spec_entries())
    }

    /// Builds the document.
    pub fn to_json(&self) -> (r: JsonValue)
        ensures
            rep_of(r) == self.spec_json(),
    {
        let mut es: Vec<(String, JsonValue)> = Vec::new();
        es.push(("ids".to_owned(), id_vec_to_json(&self.ids)));
        proof {
            assert(entry_reps_of(es@) =~= self.spec_entries());
            lemma_rep_of_obj(es);
        }
        JsonValue::Obj(es)
    }
}

/// Arguments of `torrent-remove`.
#[derive(Debug, Clone)]
pub struct TorrentRemoveArgs {
    pub ids: Vec<Id>,
    pub delete_local_data: bool,
}

impl TorrentRemoveArgs {
    /// The key/value entries this value serializes to.
    pub closed spec fn spec_entries(self) -> Seq<(Seq<char>, JsonRep)> {
        seq![
            ("ids"@, JsonRep::Arr(id_reps(self.ids@))),
            ("delete-local-data"@, JsonRep::Bool(self.delete_local_data)),
        ]
    }

    /// The document this value serializes to.
    pub closed spec fn spec_json(self) -> JsonRep {
        JsonRep::Obj(self.spec_entries())
    }

    /// Builds the document.
    pub fn to_json(&self) -> (r: JsonValue)
        ensures
            rep_of(r) == self.spec_json(),
    {
        let mut es: Vec<(String, JsonValue)> = Vec::new();
        es.push(("ids".to_owned(), id_vec_to_json(&self.ids)));
        es.push(("delete-local-data".to_owned(), JsonValue::Bool(self.delete_local_data)));
        proof {
            assert(entry_reps_of(es@) =~= self.spec_entries());
            lemma_rep_of_obj(es);
        }
        JsonValue::Obj(es)
    }
}

/// Arguments of `torrent-set-location`.
#[derive(Debug, Clone)]
pub struct TorrentSetLocationArgs {
    pub ids: Vec<Id>,
    pub location: String,
    pub move_from: Option<bool>,
}

impl TorrentSetLocationArgs {
    /// The key/value entries this value serializes to.
    pub closed spec fn spec_entries(self) -> Seq<(Seq<char>, JsonRep)> {
        seq![
            ("ids"@, JsonRep::Arr(id_reps(self.ids@))),
            ("location"@, JsonRep::Str(self.location@)),
        ] + opt_entry("move"@, opt_bool_rep(self.move_from))
    }

    /// The document this value serializes to.
    pub closed spec fn spec_json(self) -> JsonRep {
        JsonRep::Obj(self.spec_entries())
    }

    /// Builds the document, omitting an absent `move`.
    pub fn to_json(&self) -> (r: JsonValue)
        ensures
            rep_of(r) == self.spec_json(),
    {
        let mut es: Vec<(String, JsonValue)> = Vec::new();
        es.push(("ids".to_owned(), id_vec_to_json(&self.ids)));
        es.push(("location".to_owned(), JsonValue::Str(self.location.clone())));
        match &self.move_from {
            Some(x) => es.push(("move".to_owned(), JsonValue::Bool(*x))),
            None => (),
        }
        proof {
            assert(entry_reps_of(es@) =~= self.spec_entries());
            lemma_rep_of_obj(es);
        }
        JsonValue::Obj(es)
    }
}

/// Arguments of `torrent-rename-path`.
#[derive(Debug, Clone)]
pub struct TorrentRenamePathArgs {
    pub ids: Vec<Id>,
    pub path: String,
    pub name: String,
}

impl TorrentRenamePathArgs {
    /// The key/value entries this value serializes to.
    pub closed spec fn spec_entries(self) -> Seq<(Seq<char>, JsonRep)> {
        seq![
            ("ids"@, JsonRep::Arr(id_reps(self.ids@))),
            ("path"@, JsonRep::Str(self.path@)),
            ("name"@, JsonRep::Str(self.name@)),
        ]
    }

    /// The document this value serializes to.
    pub closed spec fn spec_json(self) -> JsonRep {
        JsonRep::Obj(self.spec_entries())
    }

    /// Builds the document.
    pub fn to_json(&self) -> (r: JsonValue)
        ensures
            rep_of(r) == self.spec_json(),
    {
        let mut es: Vec<(String, JsonValue)> = Vec::new();
        es.push(("ids".to_owned(), id_vec_to_json(&self.ids)));
        es.push(("path".to_owned(), JsonValue::Str(self.path.clone())));
        es.push(("name".to_owned(), JsonValue::Str(self.name.clone())));
        proof {
            assert(entry_reps_of(es@) =~= self.spec_entries());
            lemma_rep_of_obj(es);
        }
        JsonValue::Obj(es)
    }
}

/// Arguments of `session-set`.  Only present fields are sent.
#[derive(Debug, Clone)]
pub struct SessionSetArgs {
    pub alt_speed_down: Option<i32>,
    pub alt_speed_enabled: Option<bool>,
    pub alt_speed_time_begin: Option<i32>,
    pub alt_speed_time_day: Option<i32>,
    pub alt_speed_time_enabled: Option<bool>,
    pub alt_speed_time_end: Option<i32>,
    pub alt_speed_up: Option<i32>,
    pub blocklist_enabled: Option<bool>,
    pub blocklist_url: Option<String>,
    pub cache_size_mb: Option<i32>,
    pub default_trackers: Option<String>,
    pub dht_enabled: Option<bool>,
    pub download_dir: Option<String>,
    pub download_dir_free_space: Option<i32>,
    pub download_queue_enabled: Option<bool>,
    pub download_queue_size: Option<i32>,
    pub encryption: Option<String>,
    pub idle_seeding_limit_enabled: Option<bool>,
    pub idle_seeding_limit: Option<i32>,
    pub incomplete_dir_enabled: Option<bool>,
    pub incomplete_dir: Option<String>,
    pub lpd_enabled: Option<bool>,
    pub peer_limit_global: Option<i32>,
    pub peer_limit_per_torrent: Option<i32>,
    pub peer_port_random_on_start: Option<bool>,
    pub peer_port: Option<i32>,
    pub pex_enabled: Option<bool>,
    pub port_forwarding_enabled: Option<bool>,
    pub queue_stalled_enabled: Option<bool>,
    pub queue_stalled_minutes: Option<i32>,
    pub rename_partial_files: Option<bool>,
    pub script_torrent_added_enabled: Option<bool>,
    pub script_torrent_added_filename: Option<String>,
    pub script_torrent_done_enabled: Option<bool>,
    pub script_torrent_done_filename: Option<String>,
    pub script_torrent_done_seeding_enabled: Option<bool>,
    pub script_torrent_done_seeding_filename: Option<String>,
    pub seed_queue_enabled: Option<bool>,
    pub seed_queue_size: Option<i32>,
    pub seed_ratio_limited: Option<bool>,
    pub speed_limit_down_enabled: Option<bool>,
    pub speed_limit_down: Option<i32>,
    pub speed_limit_up_enabled: Option<bool>,
    pub speed_limit_up: Option<i32>,
    pub start_added_torrents: Option<bool>,
    pub trash_original_torrent_files: Option<bool>,
    pub utp_enabled: Option<bool>,
}

impl Default for SessionSetArgs {
    /// A value with every field absent: nothing is serialized.
    fn default() -> (r: SessionSetArgs)
        ensures
            r.alt_speed_down is None,
            r.alt_speed_enabled is None,
            r.alt_speed_time_begin is None,
            r.alt_speed_time_day is None,
            r.alt_speed_time_enabled is None,
            r.alt_speed_time_end is None,
            r.alt_speed_up is None,
            r.blocklist_enabled is None,
            r.blocklist_url is None,
            r.cache_size_mb is None,
            r.default_trackers is None,
            r.dht_enabled is None,
            r.download_dir is None,
            r.download_dir_free_space is None,
            r.download_queue_enabled is None,
            r.download_queue_size is None,
            r.encryption is None,
            r.idle_seeding_limit_enabled is None,
            r.idle_seeding_limit is None,
            r.incomplete_dir_enabled is None,
            r.incomplete_dir is None,
            r.lpd_enabled is None,
            r.peer_limit_global is None,
            r.peer_limit_per_torrent is None,
            r.peer_port_random_on_start is None,
            r.peer_port is None,
            r.pex_enabled is None,
            r.port_forwarding_enabled is None,
            r.queue_stalled_enabled is None,
            r.queue_stalled_minutes is None,
            r.rename_partial_files is None,
            r.script_torrent_added_enabled is None,
            r.script_torrent_added_filename is None,
            r.script_torrent_done_enabled is None,
            r.script_torrent_done_filename is None,
            r.script_torrent_done_seeding_enabled is None,
            r.script_torrent_done_seeding_filename is None,
            r.seed_queue_enabled is None,
            r.seed_queue_size is None,
            r.seed_ratio_limited is None,
            r.speed_limit_down_enabled is None,
            r.speed_limit_down is None,
            r.speed_limit_up_enabled is None,
            r.speed_limit_up is None,
            r.start_added_torrents is None,
            r.trash_original_torrent_files is None,
            r.utp_enabled is None,
    {
        SessionSetArgs {
            alt_speed_down: None,
            alt_speed_enabled: None,
            alt_speed_time_begin: None,
            alt_speed_time_day: None,
            alt_speed_time_enabled: None,
            alt_speed_time_end: None,
            alt_speed_up: None,
            blocklist_enabled: None,
            blocklist_url: None,
            cache_size_mb: None,
            default_trackers: None,
            dht_enabled: None,
            download_dir: None,
            download_dir_free_space: None,
            download_queue_enabled: None,
            download_queue_size: None,
            encryption: None,
            idle_seeding_limit_enabled: None,
            idle_seeding_limit: None,
            incomplete_dir_enabled: None,
            incomplete_dir: None,
            lpd_enabled: None,
            peer_limit_global: None,
            peer_limit_per_torrent: None,
            peer_port_random_on_start: None,
            peer_port: None,
            pex_enabled: None,
            port_forwarding_enabled: None,
            queue_stalled_enabled: None,
            queue_stalled_minutes: None,
            rename_partial_files: None,
            script_torrent_added_enabled: None,
            script_torrent_added_filename: None,
            script_torrent_done_enabled: None,
            script_torrent_done_filename: None,
            script_torrent_done_seeding_enabled: None,
            script_torrent_done_seeding_filename: None,
            seed_queue_enabled: None,
            seed_queue_size: None,
            seed_ratio_limited: None,
            speed_limit_down_enabled: None,
            speed_limit_down: None,
            speed_limit_up_enabled: None,
            speed_limit_up: None,
            start_added_torrents: None,
            trash_original_torrent_files: None,
            utp_enabled: None,
        }
    }
}

impl SessionSetArgs {
    /// The entries of the `alt_speed_down` through `blocklist_enabled` fields.
    pub open spec fn spec_entries_a(self) -> Seq<(Seq<char>, JsonRep)> {
        opt_entry("alt-speed-down"@, opt_i32_rep(self.alt_speed_down)) + opt_entry("alt-speed-enabled"@, opt_bool_rep(self.alt_speed_enabled)) + opt_entry("alt-speed-time-begin"@, opt_i32_rep(self.alt_speed_time_begin)) + opt_entry("alt-speed-time-day"@, opt_i32_rep(self.alt_speed_time_day)) + opt_entry("alt-speed-time-enabled"@, opt_bool_rep(self.alt_speed_time_enabled)) + opt_entry("alt-speed-time-end"@, opt_i32_rep(self.alt_speed_time_end)) + opt_entry("alt-speed-up"@, opt_i32_rep(self.alt_speed_up)) + opt_entry("blocklist-enabled"@, opt_bool_rep(self.blocklist_enabled))
    }

    /// The entries of the `blocklist_url` through `download_queue_size` fields.
    pub open spec fn spec_entries_b(self) -> Seq<(Seq<char>, JsonRep)> {
        opt_entry("blocklist-url"@, opt_str_rep(self.blocklist_url)) + opt_entry("cache-size-mb"@, opt_i32_rep(self.cache_size_mb)) + opt_entry("default-trackers"@, opt_str_rep(self.default_trackers)) + opt_entry("dht-enabled"@, opt_bool_rep(self.dht_enabled)) + opt_entry("download-dir"@, opt_str_rep(self.download_dir)) + opt_entry("download-dir-free-space"@, opt_i32_rep(self.download_dir_free_space)) + opt_entry("download-queue-enabled"@, opt_bool_rep(self.download_queue_enabled)) + opt_entry("download-queue-size"@, opt_i32_rep(self.download_queue_size))
    }

    /// The entries of the `encryption` through `peer_limit_per_torrent` fields.
    pub open spec fn spec_entries_c(self) -> Seq<(Seq<char>, JsonRep)> {
        opt_entry("encryption"@, opt_str_rep(self.encryption)) + opt_entry("idle-seeding-limit-enabled"@, opt_bool_rep(self.idle_seeding_limit_enabled)) + opt_entry("idle-seeding-limit"@, opt_i32_rep(self.idle_seeding_limit)) + opt_entry("incomplete-dir-enabled"@, opt_bool_rep(self.incomplete_dir_enabled)) + opt_entry("incomplete-dir"@, opt_str_rep(self.incomplete_dir)) + opt_entry("lpd-enabled"@, opt_bool_rep(self.lpd_enabled)) + opt_entry("peer-limit-global"@, opt_i32_rep(self.peer_limit_global)) + opt_entry("peer-limit-per-torrent"@, opt_i32_rep(self.peer_limit_per_torrent))
    }

    /// The entries of the `peer_port_random_on_start` through `script_torrent_added_enabled` fields.
    pub open spec fn spec_entries_d(self) -> Seq<(Seq<char>, JsonRep)> {
        opt_entry("peer-port-random-on-start"@, opt_bool_rep(self.peer_port_random_on_start)) + opt_entry("peer-port"@, opt_i32_rep(self.peer_port)) + opt_entry("pex-enabled"@, opt_bool_rep(self.pex_enabled)) + opt_entry("port-forwarding-enabled"@, opt_bool_rep(self.port_forwarding_enabled)) + opt_entry("queue-stalled-enabled"@, opt_bool_rep(self.queue_stalled_enabled)) + opt_entry("queue-stalled-minutes"@, opt_i32_rep(self.queue_stalled_minutes)) + opt_entry("rename-partial-files"@, opt_bool_rep(self.rename_partial_files)) + opt_entry("script-torrent-added-enabled"@, opt_bool_rep(self.script_torrent_added_enabled))
    }

    /// The entries of the `script_torrent_added_filename` through `seed_ratio_limited` fields.
    pub open spec fn spec_entries_e(self) -> Seq<(Seq<char>, JsonRep)> {
        opt_entry("script-torrent-added-filename"@, opt_str_rep(self.script_torrent_added_filename)) + opt_entry("script-torrent-done-enabled"@, opt_bool_rep(self.script_torrent_done_enabled)) + opt_entry("script-torrent-done-filename"@, opt_str_rep(self.script_torrent_done_filename)) + opt_entry("script-torrent-done-seeding-enabled"@, opt_bool_rep(self.script_torrent_done_seeding_enabled)) + opt_entry("script-torrent-done-seeding-filename"@, opt_str_rep(self.script_torrent_done_seeding_filename)) + opt_entry("seed-queue-enabled"@, opt_bool_rep(self.seed_queue_enabled)) + opt_entry("seed-queue-size"@, opt_i32_rep(self.seed_queue_size)) + opt_entry("seedRatioLimited"@, opt_bool_rep(self.seed_ratio_limited))
    }

    /// The entries of the `speed_limit_down_enabled` through `utp_enabled` fields.
    pub open spec fn spec_entries_f(self) -> Seq<(Seq<char>, JsonRep)> {
        opt_entry("speed-limit-down-enabled"@, opt_bool_rep(self.speed_limit_down_enabled)) + opt_entry("speed-limit-down"@, opt_i32_rep(self.speed_limit_down)) + opt_entry("speed-limit-up-enabled"@, opt_bool_rep(self.speed_limit_up_enabled)) + opt_entry("speed-limit-up"@, opt_i32_rep(self.speed_limit_up)) + opt_entry("start-added-torrents"@, opt_bool_rep(self.start_added_torrents)) + opt_entry("trash-original-torrent-files"@, opt_bool_rep(self.trash_original_torrent_files)) + opt_entry("utp-enabled"@, opt_bool_rep(self.utp_enabled))
    }

    /// The key/value entries this value serializes to: one per present
    /// field, in declaration order; absent fields are omitted entirely.
    pub open spec fn spec_entries(self) -> Seq<(Seq<char>, JsonRep)> {
        self.spec_entries_a() + self.spec_entries_b() + self.spec_entries_c() + self.spec_entries_d() + self.spec_entries_e() + self.spec_entries_f()
    }

    /// The document this value serializes to.
    pub open spec fn spec_json(self) -> JsonRep {
        JsonRep::Obj(self.spec_entries())
    }

    fn push_entries_a(&self, es: &mut Vec<(String, JsonValue)>)
        ensures
            entry_reps_of(final(es)@) == entry_reps_of(old(es)@) + self.spec_entries_a(),
    {
        push_opt_i32(es, "alt-speed-down", &self.alt_speed_down);
        push_opt_bool(es, "alt-speed-enabled", &self.alt_speed_enabled);
        push_opt_i32(es, "alt-speed-time-begin", &self.alt_speed_time_begin);
        push_opt_i32(es, "alt-speed-time-day", &self.alt_speed_time_day);
        push_opt_bool(es, "alt-speed-time-enabled", &self.alt_speed_time_enabled);
        push_opt_i32(es, "alt-speed-time-end", &self.alt_speed_time_end);
        push_opt_i32(es, "alt-speed-up", &self.alt_speed_up);
        push_opt_bool(es, "blocklist-enabled", &self.blocklist_enabled);
        proof {
            assert(entry_reps_of(es@) =~= entry_reps_of(old(es)@) + self.spec_entries_a());
        }
    }

    fn push_entries_b(&self, es: &mut Vec<(String, JsonValue)>)
        ensures
            entry_reps_of(final(es)@) == entry_reps_of(old(es)@) + self.spec_entries_b(),
    {
        push_opt_string(es, "blocklist-url", &self.blocklist_url);
        push_opt_i32(es, "cache-size-mb", &self.cache_size_mb);
        push_opt_string(es, "default-trackers", &self.default_trackers);
        push_opt_bool(es, "dht-enabled", &self.dht_enabled);
        push_opt_string(es, "download-dir", &self.download_dir);
        push_opt_i32(es, "download-dir-free-space", &self.download_dir_free_space);
        push_opt_bool(es, "download-queue-enabled", &self.download_queue_enabled);
        push_opt_i32(es, "download-queue-size", &self.download_queue_size);
        proof {
            assert(entry_reps_of(es@) =~= entry_reps_of(old(es)@) + self.spec_entries_b());
        }
    }

    fn push_entries_c(&self, es: &mut Vec<(String, JsonValue)>)
        ensures
            entry_reps_of(final(es)@) == entry_reps_of(old(es)@) + self.spec_entries_c(),
    {
        push_opt_string(es, "encryption", &self.encryption);
        push_opt_bool(es, "idle-seeding-limit-enabled", &self.idle_seeding_limit_enabled);
        push_opt_i32(es, "idle-seeding-limit", &self.idle_seeding_limit);
        push_opt_bool(es, "incomplete-dir-enabled", &self.incomplete_dir_enabled);
        push_opt_string(es, "incomplete-dir", &self.incomplete_dir);
        push_opt_bool(es, "lpd-enabled", &self.lpd_enabled);
        push_opt_i32(es, "peer-limit-global", &self.peer_limit_global);
        push_opt_i32(es, "peer-limit-per-torrent", &self.peer_limit_per_torrent);
        proof {
            assert(entry_reps_of(es@) =~= entry_reps_of(old(es)@) + self.spec_entries_c());
        }
    }

    fn push_entries_d(&self, es: &mut Vec<(String, JsonValue)>)
        ensures
            entry_reps_of(final(es)@) == entry_reps_of(old(es)@) + self.spec_entries_d(),
    {
        push_opt_bool(es, "peer-port-random-on-start", &self.peer_port_random_on_start);
        push_opt_i32(es, "peer-port", &self.peer_port);
        push_opt_bool(es, "pex-enabled", &self.pex_enabled);
        push_opt_bool(es, "port-forwarding-enabled", &self.port_forwarding_enabled);
        push_opt_bool(es, "queue-stalled-enabled", &self.queue_stalled_enabled);
        push_opt_i32(es, "queue-stalled-minutes", &self.queue_stalled_minutes);
        push_opt_bool(es, "rename-partial-files", &self.rename_partial_files);
        push_opt_bool(es, "script-torrent-added-enabled", &self.script_torrent_added_enabled);
        proof {
            assert(entry_reps_of(es@) =~= entry_reps_of(old(es)@) + self.spec_entries_d());
        }
    }

    fn push_entries_e(&self, es: &mut Vec<(String, JsonValue)>)
        ensures
            entry_reps_of(final(es)@) == entry_reps_of(old(es)@) + self.spec_entries_e(),
    {
        push_opt_string(es, "script-torrent-added-filename", &self.script_torrent_added_filename);
        push_opt_bool(es, "script-torrent-done-enabled", &self.script_torrent_done_enabled);
        push_opt_string(es, "script-torrent-done-filename", &self.script_torrent_done_filename);
        push_opt_bool(es, "script-torrent-done-seeding-enabled", &self.script_torrent_done_seeding_enabled);
        push_opt_string(es, "script-torrent-done-seeding-filename", &self.script_torrent_done_seeding_filename);
        push_opt_bool(es, "seed-queue-enabled", &self.seed_queue_enabled);
        push_opt_i32(es, "seed-queue-size", &self.seed_queue_size);
        push_opt_bool(es, "seedRatioLimited", &self.seed_ratio_limited);
        proof {
            assert(entry_reps_of(es@) =~= entry_reps_of(old(es)@) + self.spec_entries_e());
        }
    }

    fn push_entries_f(&self, es: &mut Vec<(String, JsonValue)>)
        ensures
            entry_reps_of(final(es)@) == entry_reps_of(old(es)@) + self.spec_entries_f(),
    {
        push_opt_bool(es, "speed-limit-down-enabled", &self.speed_limit_down_enabled);
        push_opt_i32(es, "speed-limit-down", &self.speed_limit_down);
        push_opt_bool(es, "speed-limit-up-enabled", &self.speed_limit_up_enabled);
        push_opt_i32(es, "speed-limit-up", &self.speed_limit_up);
        push_opt_bool(es, "start-added-torrents", &self.start_added_torrents);
        push_opt_bool(es, "trash-original-torrent-files", &self.trash_original_torrent_files);
        push_opt_bool(es, "utp-enabled", &self.utp_enabled);
        proof {
            assert(entry_reps_of(es@) =~= entry_reps_of(old(es)@) + self.spec_entries_f());
        }
    }

    /// Builds the document, omitting absent fields.
    pub fn to_json(&self) -> (r: JsonValue)
        ensures
            rep_of(r) == self.spec_json(),
    {
        let mut es: Vec<(String, JsonValue)> = Vec::new();
        self.push_entries_a(&mut es);
        self.push_entries_b(&mut es);
        self.push_entries_c(&mut es);
        self.push_entries_d(&mut es);
        self.push_entries_e(&mut es);
        self.push_entries_f(&mut es);
        proof {
            assert(entry_reps_of(es@) =~= self.spec_entries());
            lemma_rep_of_obj(es);
        }
        JsonValue::Obj(es)
    }
}

/// Arguments of `torrent-add`.  Either `filename` or `metainfo` must be
/// present for the server to act.  Only present fields are sent.
#[derive(Debug, Clone)]
pub struct TorrentAddArgs {
    pub cookies: Option<String>,
    pub download_dir: Option<String>,
    pub filename: Option<String>,
    pub metainfo: Option<String>,
    pub paused: Option<bool>,
    pub peer_limit: Option<i64>,
    pub bandwidth_priority: Option<Priority>,
    pub files_wanted: Option<Vec<i32>>,
    pub files_unwanted: Option<Vec<i32>>,
    pub priority_high: Option<Vec<i32>>,
    pub priority_low: Option<Vec<i32>>,
    pub priority_normal: Option<Vec<i32>>,
    pub labels: Option<Vec<String>>,
}

impl Default for TorrentAddArgs {
    /// A value with every field absent: nothing is serialized.
    fn default() -> (r: TorrentAddArgs)
        ensures
            r.cookies is None,
            r.download_dir is None,
            r.filename is None,
            r.metainfo is None,
            r.paused is None,
            r.peer_limit is None,
            r.bandwidth_priority is None,
            r.files_wanted is None,
            r.files_unwanted is None,
            r.priority_high is None,
            r.priority_low is None,
            r.priority_normal is None,
            r.labels is None,
    {
        TorrentAddArgs {
            cookies: None,
            download_dir: None,
            filename: None,
            metainfo: None,
            paused: None,
            peer_limit: None,
            bandwidth_priority: None,
            files_wanted: None,
            files_unwanted: None,
            priority_high: None,
            priority_low: None,
            priority_normal: None,
            labels: None,
        }
    }
}

impl TorrentAddArgs {
    /// The entries of the `cookies` through `files_wanted` fields.
    pub open spec fn spec_entries_a(self) -> Seq<(Seq<char>, JsonRep)> {
        opt_entry("cookies"@, opt_str_rep(self.cookies)) + opt_entry("download-dir"@, opt_str_rep(self.download_dir)) + opt_entry("filename"@, opt_str_rep(self.filename)) + opt_entry("metainfo"@, opt_str_rep(self.metainfo)) + opt_entry("paused"@, opt_bool_rep(self.paused)) + opt_entry("peer-limit"@, opt_i64_rep(self.peer_limit)) + opt_entry("bandwidthPriority"@, opt_priority_rep(self.bandwidth_priority)) + opt_entry("files-wanted"@, opt_i32_vec_rep(self.files_wanted))
    }

    /// The entries of the `files_unwanted` through `labels` fields.
    pub open spec fn spec_entries_b(self) -> Seq<(Seq<char>, JsonRep)> {
        opt_entry("files-unwanted"@, opt_i32_vec_rep(self.files_unwanted)) + opt_entry("priority-high"@, opt_i32_vec_rep(self.priority_high)) + opt_entry("priority-low"@, opt_i32_vec_rep(self.priority_low)) + opt_entry("priority-normal"@, opt_i32_vec_rep(self.priority_normal)) + opt_entry("labels"@, opt_str_vec_rep(self.labels))
    }

    /// The key/value entries this value serializes to: one per present
    /// field, in declaration order; absent fields are omitted entirely.
    pub open spec fn spec_entries(self) -> Seq<(Seq<char>, JsonRep)> {
        self.spec_entries_a() + self.spec_entries_b()
    }

    /// The document this value serializes to.
    pub open spec fn spec_json(self) -> JsonRep {
        JsonRep::Obj(self.spec_entries())
    }

    fn push_entries_a(&self, es: &mut Vec<(String, JsonValue)>)
        ensures
            entry_reps_of(final(es)@) == entry_reps_of(old(es)@) + self.spec_entries_a(),
    {
        push_opt_string(es, "cookies", &self.cookies);
        push_opt_string(es, "download-dir", &self.download_dir);
        push_opt_string(es, "filename", &self.filename);
        push_opt_string(es, "metainfo", &self.metainfo);
        push_opt_bool(es, "paused", &self.paused);
        push_opt_i64(es, "peer-limit", &self.peer_limit);
        push_opt_priority(es, "bandwidthPriority", &self.bandwidth_priority);
        push_opt_i32vec(es, "files-wanted", &self.files_wanted);
        proof {
            assert(entry_reps_of(es@) =~= entry_reps_of(old(es)@) + self.spec_entries_a());
        }
    }

    fn push_entries_b(&self, es: &mut Vec<(String, JsonValue)>)
        ensures
            entry_reps_of(final(es)@) == entry_reps_of(old(es)@) + self.spec_entries_b(),
    {
        push_opt_i32vec(es, "files-unwanted", &self.files_unwanted);
        push_opt_i32vec(es, "priority-high", &self.priority_high);
        push_opt_i32vec(es, "priority-low", &self.priority_low);
        push_opt_i32vec(es, "priority-normal", &self.priority_normal);
        push_opt_strvec(es, "labels", &self.labels);
        proof {
            assert(entry_reps_of(es@) =~= entry_reps_of(old(es)@) + self.spec_entries_b());
        }
    }

    /// Builds the document, omitting absent fields.
    pub fn to_json(&self) -> (r: JsonValue)
        ensures
            rep_of(r) == self.spec_json(),
    {
        let mut es: Vec<(String, JsonValue)> = Vec::new();
        self.push_entries_a(&mut es);
        self.push_entries_b(&mut es);
        proof {
            assert(entry_reps_of(es@) =~= self.spec_entries());
            lemma_rep_of_obj(es);
        }
        JsonValue::Obj(es)
    }
}

/// Arguments of `torrent-set`.  Only present fields are sent; the target
/// `ids` are filled in by [`RpcRequest::torrent_set`].
#[derive(Debug, Clone)]
pub struct TorrentSetArgs {
    pub bandwidth_priority: Option<Priority>,
    pub download_limit: Option<usize>,
    pub download_limited: Option<bool>,
    pub files_wanted: Option<Vec<usize>>,
    pub files_unwanted: Option<Vec<usize>>,
    pub group: Option<String>,
    pub honors_session_limits: Option<bool>,
    /// Filled in by [`RpcRequest::torrent_set`]; what is set here is
    /// overwritten there.
    pub ids: Option<Vec<Id>>,
    pub labels: Option<Vec<String>>,
    pub location: Option<String>,
    pub peer_limit: Option<u16>,
    pub priority_high: Option<Vec<usize>>,
    pub priority_low: Option<Vec<usize>>,
    pub priority_normal: Option<Vec<usize>>,
    pub queue_position: Option<usize>,
    pub seed_idle_limit: Option<u16>,
    pub seed_idle_mode: Option<IdleMode>,
    pub seed_ratio_mode: Option<RatioMode>,
    pub sequential_download: Option<bool>,
    pub tracker_add: Option<Vec<String>>,
    pub tracker_list: Option<TrackerList>,
    pub tracker_remove: Option<Vec<String>>,
    pub tracker_replace: Option<Vec<String>>,
    pub upload_limit: Option<usize>,
    pub upload_limited: Option<bool>,
}

impl Default for TorrentSetArgs {
    /// A value with every field absent: nothing is serialized.
    fn default() -> (r: TorrentSetArgs)
        ensures
            r.bandwidth_priority is None,
            r.download_limit is None,
            r.download_limited is None,
            r.files_wanted is None,
            r.files_unwanted is None,
            r.group is None,
            r.honors_session_limits is None,
            r.ids is None,
            r.labels is None,
            r.location is None,
            r.peer_limit is None,
            r.priority_high is None,
            r.priority_low is None,
            r.priority_normal is None,
            r.queue_position is None,
            r.seed_idle_limit is None,
            r.seed_idle_mode is None,
            r.seed_ratio_mode is None,
            r.sequential_download is None,
            r.tracker_add is None,
            r.tracker_list is None,
            r.tracker_remove is None,
            r.tracker_replace is None,
            r.upload_limit is None,
            r.upload_limited is None,
    {
        TorrentSetArgs {
            bandwidth_priority: None,
            download_limit: None,
            download_limited: None,
            files_wanted: None,
            files_unwanted: None,
            group: None,
            honors_session_limits: None,
            ids: None,
            labels: None,
            location: None,
            peer_limit: None,
            priority_high: None,
            priority_low: None,
            priority_normal: None,
            queue_position: None,
            seed_idle_limit: None,
            seed_idle_mode: None,
            seed_ratio_mode: None,
            sequential_download: None,
            tracker_add: None,
            tracker_list: None,
            tracker_remove: None,
            tracker_replace: None,
            upload_limit: None,
            upload_limited: None,
        }
    }
}

impl TorrentSetArgs {
    /// A value with every field absent, like [`TorrentSetArgs::default`].
    pub fn new() -> (r: Self)
        ensures
            r.bandwidth_priority is None,
            r.download_limit is None,
            r.download_limited is None,
            r.files_wanted is None,
            r.files_unwanted is None,
            r.group is None,
            r.honors_session_limits is None,
            r.ids is None,
            r.labels is None,
            r.location is None,
            r.peer_limit is None,
            r.priority_high is None,
            r.priority_low is None,
            r.priority_normal is None,
            r.queue_position is None,
            r.seed_idle_limit is None,
            r.seed_idle_mode is None,
            r.seed_ratio_mode is None,
            r.sequential_download is None,
            r.tracker_add is None,
            r.tracker_list is None,
            r.tracker_remove is None,
            r.tracker_replace is None,
            r.upload_limit is None,
            r.upload_limited is None,
    {
        Self::default()
    }

    /// The entries of the `bandwidth_priority` through `ids` fields.
    pub open spec fn spec_entries_a(self) -> Seq<(Seq<char>, JsonRep)> {
        opt_entry("bandwidthPriority"@, opt_priority_rep(self.bandwidth_priority)) + opt_entry("downloadLimit"@, opt_usize_rep(self.download_limit)) + opt_entry("downloadLimited"@, opt_bool_rep(self.download_limited)) + opt_entry("files-wanted"@, opt_usize_vec_rep(self.files_wanted)) + opt_entry("files-unwanted"@, opt_usize_vec_rep(self.files_unwanted)) + opt_entry("group"@, opt_str_rep(self.group)) + opt_entry("honorsSessionLimits"@, opt_bool_rep(self.honors_session_limits)) + opt_entry("ids"@, opt_id_vec_rep(self.ids))
    }

    /// The entries of the `labels` through `seed_idle_limit` fields.
    pub open spec fn spec_entries_b(self) -> Seq<(Seq<char>, JsonRep)> {
        opt_entry("labels"@, opt_str_vec_rep(self.labels)) + opt_entry("location"@, opt_str_rep(self.location)) + opt_entry("peer-limit"@, opt_u16_rep(self.peer_limit)) + opt_entry("priority-high"@, opt_usize_vec_rep(self.priority_high)) + opt_entry("priority-low"@, opt_usize_vec_rep(self.priority_low)) + opt_entry("priority-normal"@, opt_usize_vec_rep(self.priority_normal)) + opt_entry("queuePosition"@, opt_usize_rep(self.queue_position)) + opt_entry("seedIdleLimit"@, opt_u16_rep(self.seed_idle_limit))
    }

    /// The entries of the `seed_idle_mode` through `upload_limit` fields.
    pub open spec fn spec_entries_c(self) -> Seq<(Seq<char>, JsonRep)> {
        opt_entry("seedIdleMode"@, opt_idle_mode_rep(self.seed_idle_mode)) + opt_entry("seedRatioMode"@, opt_ratio_mode_rep(self.seed_ratio_mode)) + opt_entry("sequentialDownload"@, opt_bool_rep(self.sequential_download)) + opt_entry("trackerAdd"@, opt_str_vec_rep(self.tracker_add)) + opt_entry("trackerList"@, opt_tracker_list_rep(self.tracker_list)) + opt_entry("trackerRemove"@, opt_str_vec_rep(self.tracker_remove)) + opt_entry("trackerReplace"@, opt_str_vec_rep(self.tracker_replace)) + opt_entry("uploadLimit"@, opt_usize_rep(self.upload_limit))
    }

    /// The entries of the `upload_limited` through `upload_limited` fields.
    pub open spec fn spec_entries_d(self) -> Seq<(Seq<char>, JsonRep)> {
        opt_entry("uploadLimited"@, opt_bool_rep(self.upload_limited))
    }

    /// The key/value entries this value serializes to: one per present
    /// field, in declaration order; absent fields are omitted entirely.
    pub open spec fn spec_entries(self) -> Seq<(Seq<char>, JsonRep)> {
        self.spec_entries_a() + self.spec_entries_b() + self.spec_entries_c() + self.spec_entries_d()
    }

    /// The document this value serializes to.
    pub open spec fn spec_json(self) -> JsonRep {
        JsonRep::Obj(self.spec_entries())
    }

    fn push_entries_a(&self, es: &mut Vec<(String, JsonValue)>)
        ensures
            entry_reps_of(final(es)@) == entry_reps_of(old(es)@) + self.spec_entries_a(),
    {
        push_opt_priority(es, "bandwidthPriority", &self.bandwidth_priority);
        push_opt_usize(es, "downloadLimit", &self.download_limit);
        push_opt_bool(es, "downloadLimited", &self.download_limited);
        push_opt_usizevec(es, "files-wanted", &self.files_wanted);
        push_opt_usizevec(es, "files-unwanted", &self.files_unwanted);
        push_opt_string(es, "group", &self.group);
        push_opt_bool(es, "honorsSessionLimits", &self.honors_session_limits);
        push_opt_idvec(es, "ids", &self.ids);
        proof {
            assert(entry_reps_of(es@) =~= entry_reps_of(old(es)@) + self.spec_entries_a());
        }
    }

    fn push_entries_b(&self, es: &mut Vec<(String, JsonValue)>)
        ensures
            entry_reps_of(final(es)@) == entry_reps_of(old(es)@) + self.spec_entries_b(),
    {
        push_opt_strvec(es, "labels", &self.labels);
        push_opt_string(es, "location", &self.location);
        push_opt_u16(es, "peer-limit", &self.peer_limit);
        push_opt_usizevec(es, "priority-high", &self.priority_high);
        push_opt_usizevec(es, "priority-low", &self.priority_low);
        push_opt_usizevec(es, "priority-normal", &self.priority_normal);
        push_opt_usize(es, "queuePosition", &self.queue_position);
        push_opt_u16(es, "seedIdleLimit", &self.seed_idle_limit);
        proof {
            assert(entry_reps_of(es@) =~= entry_reps_of(old(es)@) + self.spec_entries_b());
        }
    }

    fn push_entries_c(&self, es: &mut Vec<(String, JsonValue)>)
        ensures
            entry_reps_of(final(es)@) == entry_reps_of(old(es)@) + self.spec_entries_c(),
    {
        push_opt_idlemode(es, "seedIdleMode", &self.seed_idle_mode);
        push_opt_ratiomode(es, "seedRatioMode", &self.seed_ratio_mode);
        push_opt_bool(es, "sequentialDownload", &self.sequential_download);
        push_opt_strvec(es, "trackerAdd", &self.tracker_add);
        push_opt_trackerlist(es, "trackerList", &self.tracker_list);
        push_opt_strvec(es, "trackerRemove", &self.tracker_remove);
        push_opt_strvec(es, "trackerReplace", &self.tracker_replace);
        push_opt_usize(es, "uploadLimit", &self.upload_limit);
        proof {
            assert(entry_reps_of(es@) =~= entry_reps_of(old(es)@) + self.spec_entries_c());
        }
    }

    fn push_entries_d(&self, es: &mut Vec<(String, JsonValue)>)
        ensures
            entry_reps_of(final(es)@) == entry_reps_of(old(es)@) + self.spec_entries_d(),
    {
        push_opt_bool(es, "uploadLimited", &self.upload_limited);
        proof {
            assert(entry_reps_of(es@) =~= entry_reps_of(old(es)@) + self.spec_entries_d());
        }
    }

    /// Builds the document, omitting absent fields.
    pub fn to_json(&self) -> (r: JsonValue)
        ensures
            rep_of(r) == self.spec_json(),
    {
        let mut es: Vec<(String, JsonValue)> = Vec::new();
        self.push_entries_a(&mut es);
        self.push_entries_b(&mut es);
        self.push_entries_c(&mut es);
        self.push_entries_d(&mut es);
        proof {
            assert(entry_reps_of(es@) =~= self.spec_entries());
            lemma_rep_of_obj(es);
        }
        JsonValue::Obj(es)
    }

    pub fn bandwidth_priority(self, bandwidth_priority: Priority) -> (r: Self)
        ensures
            r.bandwidth_priority == Some(bandwidth_priority),
            r.download_limit == self.download_limit,
            r.download_limited == self.download_limited,
            r.files_wanted == self.files_wanted,
            r.files_unwanted == self.files_unwanted,
            r.group == self.group,
            r.honors_session_limits == self.honors_session_limits,
            r.ids == self.ids,
            r.labels == self.labels,
            r.location == self.location,
            r.peer_limit == self.peer_limit,
            r.priority_high == self.priority_high,
            r.priority_low == self.priority_low,
            r.priority_normal == self.priority_normal,
            r.queue_position == self.queue_position,
            r.seed_idle_limit == self.seed_idle_limit,
            r.seed_idle_mode == self.seed_idle_mode,
            r.seed_ratio_mode == self.seed_ratio_mode,
            r.sequential_download == self.sequential_download,
            r.tracker_add == self.tracker_add,
            r.tracker_list == self.tracker_list,
            r.tracker_remove == self.tracker_remove,
            r.tracker_replace == self.tracker_replace,
            r.upload_limit == self.upload_limit,
            r.upload_limited == self.upload_limited,
    {
        Self { bandwidth_priority: Some(bandwidth_priority), ..self }
    }

    pub fn download_limit(self, download_limit: usize) -> (r: Self)
        ensures
            r.download_limit == Some(download_limit),
            r.bandwidth_priority == self.bandwidth_priority,
            r.download_limited == self.download_limited,
            r.files_wanted == self.files_wanted,
            r.files_unwanted == self.files_unwanted,
            r.group == self.group,
            r.honors_session_limits == self.honors_session_limits,
            r.ids == self.ids,
            r.labels == self.labels,
            r.location == self.location,
            r.peer_limit == self.peer_limit,
            r.priority_high == self.priority_high,
            r.priority_low == self.priority_low,
            r.priority_normal == self.priority_normal,
            r.queue_position == self.queue_position,
            r.seed_idle_limit == self.seed_idle_limit,
            r.seed_idle_mode == self.seed_idle_mode,
            r.seed_ratio_mode == self.seed_ratio_mode,
            r.sequential_download == self.sequential_download,
            r.tracker_add == self.tracker_add,
            r.tracker_list == self.tracker_list,
            r.tracker_remove == self.tracker_remove,
            r.tracker_replace == self.tracker_replace,
            r.upload_limit == self.upload_limit,
            r.upload_limited == self.upload_limited,
    {
        Self { download_limit: Some(download_limit), ..self }
    }

    pub fn download_limited(self, download_limited: bool) -> (r: Self)
        ensures
            r.download_limited == Some(download_limited),
            r.bandwidth_priority == self.bandwidth_priority,
            r.download_limit == self.download_limit,
            r.files_wanted == self.files_wanted,
            r.files_unwanted == self.files_unwanted,
            r.group == self.group,
            r.honors_session_limits == self.honors_session_limits,
            r.ids == self.ids,
            r.labels == self.labels,
            r.location == self.location,
            r.peer_limit == self.peer_limit,
            r.priority_high == self.priority_high,
            r.priority_low == self.priority_low,
            r.priority_normal == self.priority_normal,
            r.queue_position == self.queue_position,
            r.seed_idle_limit == self.seed_idle_limit,
            r.seed_idle_mode == self.seed_idle_mode,
            r.seed_ratio_mode == self.seed_ratio_mode,
            r.sequential_download == self.sequential_download,
            r.tracker_add == self.tracker_add,
            r.tracker_list == self.tracker_list,
            r.tracker_remove == self.tracker_remove,
            r.tracker_replace == self.tracker_replace,
            r.upload_limit == self.upload_limit,
            r.upload_limited == self.upload_limited,
    {
        Self { download_limited: Some(download_limited), ..self }
    }

    pub fn files_wanted(self, files_wanted: Vec<usize>) -> (r: Self)
        ensures
            r.files_wanted == Some(files_wanted),
            r.bandwidth_priority == self.bandwidth_priority,
            r.download_limit == self.download_limit,
            r.download_limited == self.download_limited,
            r.files_unwanted == self.files_unwanted,
            r.group == self.group,
            r.honors_session_limits == self.honors_session_limits,
            r.ids == self.ids,
            r.labels == self.labels,
            r.location == self.location,
            r.peer_limit == self.peer_limit,
            r.priority_high == self.priority_high,
            r.priority_low == self.priority_low,
            r.priority_normal == self.priority_normal,
            r.queue_position == self.queue_position,
            r.seed_idle_limit == self.seed_idle_limit,
            r.seed_idle_mode == self.seed_idle_mode,
            r.seed_ratio_mode == self.seed_ratio_mode,
            r.sequential_download == self.sequential_download,
            r.tracker_add == self.tracker_add,
            r.tracker_list == self.tracker_list,
            r.tracker_remove == self.tracker_remove,
            r.tracker_replace == self.tracker_replace,
            r.upload_limit == self.upload_limit,
            r.upload_limited == self.upload_limited,
    {
        Self { files_wanted: Some(files_wanted), ..self }
    }

    pub fn files_unwanted(self, files_unwanted: Vec<usize>) -> (r: Self)
        ensures
            r.files_unwanted == Some(files_unwanted),
            r.bandwidth_priority == self.bandwidth_priority,
            r.download_limit == self.download_limit,
            r.download_limited == self.download_limited,
            r.files_wanted == self.files_wanted,
            r.group == self.group,
            r.honors_session_limits == self.honors_session_limits,
            r.ids == self.ids,
            r.labels == self.labels,
            r.location == self.location,
            r.peer_limit == self.peer_limit,
            r.priority_high == self.priority_high,
            r.priority_low == self.priority_low,
            r.priority_normal == self.priority_normal,
            r.queue_position == self.queue_position,
            r.seed_idle_limit == self.seed_idle_limit,
            r.seed_idle_mode == self.seed_idle_mode,
            r.seed_ratio_mode == self.seed_ratio_mode,
            r.sequential_download == self.sequential_download,
            r.tracker_add == self.tracker_add,
            r.tracker_list == self.tracker_list,
            r.tracker_remove == self.tracker_remove,
            r.tracker_replace == self.tracker_replace,
            r.upload_limit == self.upload_limit,
            r.upload_limited == self.upload_limited,
    {
        Self { files_unwanted: Some(files_unwanted), ..self }
    }

    pub fn group(self, group: String) -> (r: Self)
        ensures
            r.group == Some(group),
            r.bandwidth_priority == self.bandwidth_priority,
            r.download_limit == self.download_limit,
            r.download_limited == self.download_limited,
            r.files_wanted == self.files_wanted,
            r.files_unwanted == self.files_unwanted,
            r.honors_session_limits == self.honors_session_limits,
            r.ids == self.ids,
            r.labels == self.labels,
            r.location == self.location,
            r.peer_limit == self.peer_limit,
            r.priority_high == self.priority_high,
            r.priority_low == self.priority_low,
            r.priority_normal == self.priority_normal,
            r.queue_position == self.queue_position,
            r.seed_idle_limit == self.seed_idle_limit,
            r.seed_idle_mode == self.seed_idle_mode,
            r.seed_ratio_mode == self.seed_ratio_mode,
            r.sequential_download == self.sequential_download,
            r.tracker_add == self.tracker_add,
            r.tracker_list == self.tracker_list,
            r.tracker_remove == self.tracker_remove,
            r.tracker_replace == self.tracker_replace,
            r.upload_limit == self.upload_limit,
            r.upload_limited == self.upload_limited,
    {
        Self { group: Some(group), ..self }
    }

    pub fn honors_session_limits(self, honors_session_limits: bool) -> (r: Self)
        ensures
            r.honors_session_limits == Some(honors_session_limits),
            r.bandwidth_priority == self.bandwidth_priority,
            r.download_limit == self.download_limit,
            r.download_limited == self.download_limited,
            r.files_wanted == self.files_wanted,
            r.files_unwanted == self.files_unwanted,
            r.group == self.group,
            r.ids == self.ids,
            r.labels == self.labels,
            r.location == self.location,
            r.peer_limit == self.peer_limit,
            r.priority_high == self.priority_high,
            r.priority_low == self.priority_low,
            r.priority_normal == self.priority_normal,
            r.queue_position == self.queue_position,
            r.seed_idle_limit == self.seed_idle_limit,
            r.seed_idle_mode == self.seed_idle_mode,
            r.seed_ratio_mode == self.seed_ratio_mode,
            r.sequential_download == self.sequential_download,
            r.tracker_add == self.tracker_add,
            r.tracker_list == self.tracker_list,
            r.tracker_remove == self.tracker_remove,
            r.tracker_replace == self.tracker_replace,
            r.upload_limit == self.upload_limit,
            r.upload_limited == self.upload_limited,
    {
        Self { honors_session_limits: Some(honors_session_limits), ..self }
    }

    pub fn labels(self, labels: Vec<String>) -> (r: Self)
        ensures
            r.labels == Some(labels),
            r.bandwidth_priority == self.bandwidth_priority,
            r.download_limit == self.download_limit,
            r.download_limited == self.download_limited,
            r.files_wanted == self.files_wanted,
            r.files_unwanted == self.files_unwanted,
            r.group == self.group,
            r.honors_session_limits == self.honors_session_limits,
            r.ids == self.ids,
            r.location == self.location,
            r.peer_limit == self.peer_limit,
            r.priority_high == self.priority_high,
            r.priority_low == self.priority_low,
            r.priority_normal == self.priority_normal,
            r.queue_position == self.queue_position,
            r.seed_idle_limit == self.seed_idle_limit,
            r.seed_idle_mode == self.seed_idle_mode,
            r.seed_ratio_mode == self.seed_ratio_mode,
            r.sequential_download == self.sequential_download,
            r.tracker_add == self.tracker_add,
            r.tracker_list == self.tracker_list,
            r.tracker_remove == self.tracker_remove,
            r.tracker_replace == self.tracker_replace,
            r.upload_limit == self.upload_limit,
            r.upload_limited == self.upload_limited,
    {
        Self { labels: Some(labels), ..self }
    }

    pub fn location(self, location: String) -> (r: Self)
        ensures
            r.location == Some(location),
            r.bandwidth_priority == self.bandwidth_priority,
            r.download_limit == self.download_limit,
            r.download_limited == self.download_limited,
            r.files_wanted == self.files_wanted,
            r.files_unwanted == self.files_unwanted,
            r.group == self.group,
            r.honors_session_limits == self.honors_session_limits,
            r.ids == self.ids,
            r.labels == self.labels,
            r.peer_limit == self.peer_limit,
            r.priority_high == self.priority_high,
            r.priority_low == self.priority_low,
            r.priority_normal == self.priority_normal,
            r.queue_position == self.queue_position,
            r.seed_idle_limit == self.seed_idle_limit,
            r.seed_idle_mode == self.seed_idle_mode,
            r.seed_ratio_mode == self.seed_ratio_mode,
            r.sequential_download == self.sequential_download,
            r.tracker_add == self.tracker_add,
            r.tracker_list == self.tracker_list,
            r.tracker_remove == self.tracker_remove,
            r.tracker_replace == self.tracker_replace,
            r.upload_limit == self.upload_limit,
            r.upload_limited == self.upload_limited,
    {
        Self { location: Some(location), ..self }
    }

    pub fn peer_limit(self, peer_limit: u16) -> (r: Self)
        ensures
            r.peer_limit == Some(peer_limit),
            r.bandwidth_priority == self.bandwidth_priority,
            r.download_limit == self.download_limit,
            r.download_limited == self.download_limited,
            r.files_wanted == self.files_wanted,
            r.files_unwanted == self.files_unwanted,
            r.group == self.group,
            r.honors_session_limits == self.honors_session_limits,
            r.ids == self.ids,
            r.labels == self.labels,
            r.location == self.location,
            r.priority_high == self.priority_high,
            r.priority_low == self.priority_low,
            r.priority_normal == self.priority_normal,
            r.queue_position == self.queue_position,
            r.seed_idle_limit == self.seed_idle_limit,
            r.seed_idle_mode == self.seed_idle_mode,
            r.seed_ratio_mode == self.seed_ratio_mode,
            r.sequential_download == self.sequential_download,
            r.tracker_add == self.tracker_add,
            r.tracker_list == self.tracker_list,
            r.tracker_remove == self.tracker_remove,
            r.tracker_replace == self.tracker_replace,
            r.upload_limit == self.upload_limit,
            r.upload_limited == self.upload_limited,
    {
        Self { peer_limit: Some(peer_limit), ..self }
    }

    pub fn priority_high(self, priority_high: Vec<usize>) -> (r: Self)
        ensures
            r.priority_high == Some(priority_high),
            r.bandwidth_priority == self.bandwidth_priority,
            r.download_limit == self.download_limit,
            r.download_limited == self.download_limited,
            r.files_wanted == self.files_wanted,
            r.files_unwanted == self.files_unwanted,
            r.group == self.group,
            r.honors_session_limits == self.honors_session_limits,
            r.ids == self.ids,
            r.labels == self.labels,
            r.location == self.location,
            r.peer_limit == self.peer_limit,
            r.priority_low == self.priority_low,
            r.priority_normal == self.priority_normal,
            r.queue_position == self.queue_position,
            r.seed_idle_limit == self.seed_idle_limit,
            r.seed_idle_mode == self.seed_idle_mode,
            r.seed_ratio_mode == self.seed_ratio_mode,
            r.sequential_download == self.sequential_download,
            r.tracker_add == self.tracker_add,
            r.tracker_list == self.tracker_list,
            r.tracker_remove == self.tracker_remove,
            r.tracker_replace == self.tracker_replace,
            r.upload_limit == self.upload_limit,
            r.upload_limited == self.upload_limited,
    {
        Self { priority_high: Some(priority_high), ..self }
    }

    pub fn priority_low(self, priority_low: Vec<usize>) -> (r: Self)
        ensures
            r.priority_low == Some(priority_low),
            r.bandwidth_priority == self.bandwidth_priority,
            r.download_limit == self.download_limit,
            r.download_limited == self.download_limited,
            r.files_wanted == self.files_wanted,
            r.files_unwanted == self.files_unwanted,
            r.group == self.group,
            r.honors_session_limits == self.honors_session_limits,
            r.ids == self.ids,
            r.labels == self.labels,
            r.location == self.location,
            r.peer_limit == self.peer_limit,
            r.priority_high == self.priority_high,
            r.priority_normal == self.priority_normal,
            r.queue_position == self.queue_position,
            r.seed_idle_limit == self.seed_idle_limit,
            r.seed_idle_mode == self.seed_idle_mode,
            r.seed_ratio_mode == self.seed_ratio_mode,
            r.sequential_download == self.sequential_download,
            r.tracker_add == self.tracker_add,
            r.tracker_list == self.tracker_list,
            r.tracker_remove == self.tracker_remove,
            r.tracker_replace == self.tracker_replace,
            r.upload_limit == self.upload_limit,
            r.upload_limited == self.upload_limited,
    {
        Self { priority_low: Some(priority_low), ..self }
    }

    pub fn priority_normal(self, priority_normal: Vec<usize>) -> (r: Self)
        ensures
            r.priority_normal == Some(priority_normal),
            r.bandwidth_priority == self.bandwidth_priority,
            r.download_limit == self.download_limit,
            r.download_limited == self.download_limited,
            r.files_wanted == self.files_wanted,
            r.files_unwanted == self.files_unwanted,
            r.group == self.group,
            r.honors_session_limits == self.honors_session_limits,
            r.ids == self.ids,
            r.labels == self.labels,
            r.location == self.location,
            r.peer_limit == self.peer_limit,
            r.priority_high == self.priority_high,
            r.priority_low == self.priority_low,
            r.queue_position == self.queue_position,
            r.seed_idle_limit == self.seed_idle_limit,
            r.seed_idle_mode == self.seed_idle_mode,
            r.seed_ratio_mode == self.seed_ratio_mode,
            r.sequential_download == self.sequential_download,
            r.tracker_add == self.tracker_add,
            r.tracker_list == self.tracker_list,
            r.tracker_remove == self.tracker_remove,
            r.tracker_replace == self.tracker_replace,
            r.upload_limit == self.upload_limit,
            r.upload_limited == self.upload_limited,
    {
        Self { priority_normal: Some(priority_normal), ..self }
    }

    pub fn queue_position(self, queue_position: usize) -> (r: Self)
        ensures
            r.queue_position == Some(queue_position),
            r.bandwidth_priority == self.bandwidth_priority,
            r.download_limit == self.download_limit,
            r.download_limited == self.download_limited,
            r.files_wanted == self.files_wanted,
            r.files_unwanted == self.files_unwanted,
            r.group == self.group,
            r.honors_session_limits == self.honors_session_limits,
            r.ids == self.ids,
            r.labels == self.labels,
            r.location == self.location,
            r.peer_limit == self.peer_limit,
            r.priority_high == self.priority_high,
            r.priority_low == self.priority_low,
            r.priority_normal == self.priority_normal,
            r.seed_idle_limit == self.seed_idle_limit,
            r.seed_idle_mode == self.seed_idle_mode,
            r.seed_ratio_mode == self.seed_ratio_mode,
            r.sequential_download == self.sequential_download,
            r.tracker_add == self.tracker_add,
            r.tracker_list == self.tracker_list,
            r.tracker_remove == self.tracker_remove,
            r.tracker_replace == self.tracker_replace,
            r.upload_limit == self.upload_limit,
            r.upload_limited == self.upload_limited,
    {
        Self { queue_position: Some(queue_position), ..self }
    }

    pub fn seed_idle_limit(self, seed_idle_limit: u16) -> (r: Self)
        ensures
            r.seed_idle_limit == Some(seed_idle_limit),
            r.bandwidth_priority == self.bandwidth_priority,
            r.download_limit == self.download_limit,
            r.download_limited == self.download_limited,
            r.files_wanted == self.files_wanted,
            r.files_unwanted == self.files_unwanted,
            r.group == self.group,
            r.honors_session_limits == self.honors_session_limits,
            r.ids == self.ids,
            r.labels == self.labels,
            r.location == self.location,
            r.peer_limit == self.peer_limit,
            r.priority_high == self.priority_high,
            r.priority_low == self.priority_low,
            r.priority_normal == self.priority_normal,
            r.queue_position == self.queue_position,
            r.seed_idle_mode == self.seed_idle_mode,
            r.seed_ratio_mode == self.seed_ratio_mode,
            r.sequential_download == self.sequential_download,
            r.tracker_add == self.tracker_add,
            r.tracker_list == self.tracker_list,
            r.tracker_remove == self.tracker_remove,
            r.tracker_replace == self.tracker_replace,
            r.upload_limit == self.upload_limit,
            r.upload_limited == self.upload_limited,
    {
        Self { seed_idle_limit: Some(seed_idle_limit), ..self }
    }

    pub fn seed_idle_mode(self, seed_idle_mode: IdleMode) -> (r: Self)
        ensures
            r.seed_idle_mode == Some(seed_idle_mode),
            r.bandwidth_priority == self.bandwidth_priority,
            r.download_limit == self.download_limit,
            r.download_limited == self.download_limited,
            r.files_wanted == self.files_wanted,
            r.files_unwanted == self.files_unwanted,
            r.group == self.group,
            r.honors_session_limits == self.honors_session_limits,
            r.ids == self.ids,
            r.labels == self.labels,
            r.location == self.location,
            r.peer_limit == self.peer_limit,
            r.priority_high == self.priority_high,
            r.priority_low == self.priority_low,
            r.priority_normal == self.priority_normal,
            r.queue_position == self.queue_position,
            r.seed_idle_limit == self.seed_idle_limit,
            r.seed_ratio_mode == self.seed_ratio_mode,
            r.sequential_download == self.sequential_download,
            r.tracker_add == self.tracker_add,
            r.tracker_list == self.tracker_list,
            r.tracker_remove == self.tracker_remove,
            r.tracker_replace == self.tracker_replace,
            r.upload_limit == self.upload_limit,
            r.upload_limited == self.upload_limited,
    {
        Self { seed_idle_mode: Some(seed_idle_mode), ..self }
    }

    pub fn seed_ratio_mode(self, seed_ratio_mode: RatioMode) -> (r: Self)
        ensures
            r.seed_ratio_mode == Some(seed_ratio_mode),
            r.bandwidth_priority == self.bandwidth_priority,
            r.download_limit == self.download_limit,
            r.download_limited == self.download_limited,
            r.files_wanted == self.files_wanted,
            r.files_unwanted == self.files_unwanted,
            r.group == self.group,
            r.honors_session_limits == self.honors_session_limits,
            r.ids == self.ids,
            r.labels == self.labels,
            r.location == self.location,
            r.peer_limit == self.peer_limit,
            r.priority_high == self.priority_high,
            r.priority_low == self.priority_low,
            r.priority_normal == self.priority_normal,
            r.queue_position == self.queue_position,
            r.seed_idle_limit == self.seed_idle_limit,
            r.seed_idle_mode == self.seed_idle_mode,
            r.sequential_download == self.sequential_download,
            r.tracker_add == self.tracker_add,
            r.tracker_list == self.tracker_list,
            r.tracker_remove == self.tracker_remove,
            r.tracker_replace == self.tracker_replace,
            r.upload_limit == self.upload_limit,
            r.upload_limited == self.upload_limited,
    {
        Self { seed_ratio_mode: Some(seed_ratio_mode), ..self }
    }

    pub fn sequential_download(self, sequential_download: bool) -> (r: Self)
        ensures
            r.sequential_download == Some(sequential_download),
            r.bandwidth_priority == self.bandwidth_priority,
            r.download_limit == self.download_limit,
            r.download_limited == self.download_limited,
            r.files_wanted == self.files_wanted,
            r.files_unwanted == self.files_unwanted,
            r.group == self.group,
            r.honors_session_limits == self.honors_session_limits,
            r.ids == self.ids,
            r.labels == self.labels,
            r.location == self.location,
            r.peer_limit == self.peer_limit,
            r.priority_high == self.priority_high,
            r.priority_low == self.priority_low,
            r.priority_normal == self.priority_normal,
            r.queue_position == self.queue_position,
            r.seed_idle_limit == self.seed_idle_limit,
            r.seed_idle_mode == self.seed_idle_mode,
            r.seed_ratio_mode == self.seed_ratio_mode,
            r.tracker_add == self.tracker_add,
            r.tracker_list == self.tracker_list,
            r.tracker_remove == self.tracker_remove,
            r.tracker_replace == self.tracker_replace,
            r.upload_limit == self.upload_limit,
            r.upload_limited == self.upload_limited,
    {
        Self { sequential_download: Some(sequential_download), ..self }
    }

    pub fn tracker_add(self, tracker_add: Vec<String>) -> (r: Self)
        ensures
            r.tracker_add == Some(tracker_add),
            r.bandwidth_priority == self.bandwidth_priority,
            r.download_limit == self.download_limit,
            r.download_limited == self.download_limited,
            r.files_wanted == self.files_wanted,
            r.files_unwanted == self.files_unwanted,
            r.group == self.group,
            r.honors_session_limits == self.honors_session_limits,
            r.ids == self.ids,
            r.labels == self.labels,
            r.location == self.location,
            r.peer_limit == self.peer_limit,
            r.priority_high == self.priority_high,
            r.priority_low == self.priority_low,
            r.priority_normal == self.priority_normal,
            r.queue_position == self.queue_position,
            r.seed_idle_limit == self.seed_idle_limit,
            r.seed_idle_mode == self.seed_idle_mode,
            r.seed_ratio_mode == self.seed_ratio_mode,
            r.sequential_download == self.sequential_download,
            r.tracker_list == self.tracker_list,
            r.tracker_remove == self.tracker_remove,
            r.tracker_replace == self.tracker_replace,
            r.upload_limit == self.upload_limit,
            r.upload_limited == self.upload_limited,
    {
        Self { tracker_add: Some(tracker_add), ..self }
    }

    pub fn tracker_list(self, tracker_list: TrackerList) -> (r: Self)
        ensures
            r.tracker_list == Some(tracker_list),
            r.bandwidth_priority == self.bandwidth_priority,
            r.download_limit == self.download_limit,
            r.download_limited == self.download_limited,
            r.files_wanted == self.files_wanted,
            r.files_unwanted == self.files_unwanted,
            r.group == self.group,
            r.honors_session_limits == self.honors_session_limits,
            r.ids == self.ids,
            r.labels == self.labels,
            r.location == self.location,
            r.peer_limit == self.peer_limit,
            r.priority_high == self.priority_high,
            r.priority_low == self.priority_low,
            r.priority_normal == self.priority_normal,
            r.queue_position == self.queue_position,
            r.seed_idle_limit == self.seed_idle_limit,
            r.seed_idle_mode == self.seed_idle_mode,
            r.seed_ratio_mode == self.seed_ratio_mode,
            r.sequential_download == self.sequential_download,
            r.tracker_add == self.tracker_add,
            r.tracker_remove == self.tracker_remove,
            r.tracker_replace == self.tracker_replace,
            r.upload_limit == self.upload_limit,
            r.upload_limited == self.upload_limited,
    {
        Self { tracker_list: Some(tracker_list), ..self }
    }

    pub fn tracker_remove(self, tracker_remove: Vec<String>) -> (r: Self)
        ensures
            r.tracker_remove == Some(tracker_remove),
            r.bandwidth_priority == self.bandwidth_priority,
            r.download_limit == self.download_limit,
            r.download_limited == self.download_limited,
            r.files_wanted == self.files_wanted,
            r.files_unwanted == self.files_unwanted,
            r.group == self.group,
            r.honors_session_limits == self.honors_session_limits,
            r.ids == self.ids,
            r.labels == self.labels,
            r.location == self.location,
            r.peer_limit == self.peer_limit,
            r.priority_high == self.priority_high,
            r.priority_low == self.priority_low,
            r.priority_normal == self.priority_normal,
            r.queue_position == self.queue_position,
            r.seed_idle_limit == self.seed_idle_limit,
            r.seed_idle_mode == self.seed_idle_mode,
            r.seed_ratio_mode == self.seed_ratio_mode,
            r.sequential_download == self.sequential_download,
            r.tracker_add == self.tracker_add,
            r.tracker_list == self.tracker_list,
            r.tracker_replace == self.tracker_replace,
            r.upload_limit == self.upload_limit,
            r.upload_limited == self.upload_limited,
    {
        Self { tracker_remove: Some(tracker_remove), ..self }
    }

    pub fn tracker_replace(self, tracker_replace: Vec<String>) -> (r: Self)
        ensures
            r.tracker_replace == Some(tracker_replace),
            r.bandwidth_priority == self.bandwidth_priority,
            r.download_limit == self.download_limit,
            r.download_limited == self.download_limited,
            r.files_wanted == self.files_wanted,
            r.files_unwanted == self.files_unwanted,
            r.group == self.group,
            r.honors_session_limits == self.honors_session_limits,
            r.ids == self.ids,
            r.labels == self.labels,
            r.location == self.location,
            r.peer_limit == self.peer_limit,
            r.priority_high == self.priority_high,
            r.priority_low == self.priority_low,
            r.priority_normal == self.priority_normal,
            r.queue_position == self.queue_position,
            r.seed_idle_limit == self.seed_idle_limit,
            r.seed_idle_mode == self.seed_idle_mode,
            r.seed_ratio_mode == self.seed_ratio_mode,
            r.sequential_download == self.sequential_download,
            r.tracker_add == self.tracker_add,
            r.tracker_list == self.tracker_list,
            r.tracker_remove == self.tracker_remove,
            r.upload_limit == self.upload_limit,
            r.upload_limited == self.upload_limited,
    {
        Self { tracker_replace: Some(tracker_replace), ..self }
    }

    pub fn upload_limit(self, upload_limit: usize) -> (r: Self)
        ensures
            r.upload_limit == Some(upload_limit),
            r.bandwidth_priority == self.bandwidth_priority,
            r.download_limit == self.download_limit,
            r.download_limited == self.download_limited,
            r.files_wanted == self.files_wanted,
            r.files_unwanted == self.files_unwanted,
            r.group == self.group,
            r.honors_session_limits == self.honors_session_limits,
            r.ids == self.ids,
            r.labels == self.labels,
            r.location == self.location,
            r.peer_limit == self.peer_limit,
            r.priority_high == self.priority_high,
            r.priority_low == self.priority_low,
            r.priority_normal == self.priority_normal,
            r.queue_position == self.queue_position,
            r.seed_idle_limit == self.seed_idle_limit,
            r.seed_idle_mode == self.seed_idle_mode,
            r.seed_ratio_mode == self.seed_ratio_mode,
            r.sequential_download == self.sequential_download,
            r.tracker_add == self.tracker_add,
            r.tracker_list == self.tracker_list,
            r.tracker_remove == self.tracker_remove,
            r.tracker_replace == self.tracker_replace,
            r.upload_limited == self.upload_limited,
    {
        Self { upload_limit: Some(upload_limit), ..self }
    }

    pub fn upload_limited(self, upload_limited: bool) -> (r: Self)
        ensures
            r.upload_limited == Some(upload_limited),
            r.bandwidth_priority == self.bandwidth_priority,
            r.download_limit == self.download_limit,
            r.download_limited == self.download_limited,
            r.files_wanted == self.files_wanted,
            r.files_unwanted == self.files_unwanted,
            r.group == self.group,
            r.honors_session_limits == self.honors_session_limits,
            r.ids == self.ids,
            r.labels == self.labels,
            r.location == self.location,
            r.peer_limit == self.peer_limit,
            r.priority_high == self.priority_high,
            r.priority_low == self.priority_low,
            r.priority_normal == self.priority_normal,
            r.queue_position == self.queue_position,
            r.seed_idle_limit == self.seed_idle_limit,
            r.seed_idle_mode == self.seed_idle_mode,
            r.seed_ratio_mode == self.seed_ratio_mode,
            r.sequential_download == self.sequential_download,
            r.tracker_add == self.tracker_add,
            r.tracker_list == self.tracker_list,
            r.tracker_remove == self.tracker_remove,
            r.tracker_replace == self.tracker_replace,
            r.upload_limit == self.upload_limit,
    {
        Self { upload_limited: Some(upload_limited), ..self }
    }
}

// ---------------------------------------------------------------------------
// The request envelope.
// ---------------------------------------------------------------------------
/// The method-specific argument document of a request.
#[derive(Debug, Clone)]
pub enum Args {
    FreeSpace(FreeSpaceArgs),
    SessionSet(SessionSetArgs),
    QueueMove(QueueMoveArgs),
    TorrentGet(TorrentGetArgs),
    TorrentAction(TorrentActionArgs),
    TorrentRemove(TorrentRemoveArgs),
    TorrentAdd(TorrentAddArgs),
    TorrentSet(TorrentSetArgs),
    TorrentSetLocation(TorrentSetLocationArgs),
    TorrentRenamePath(TorrentRenamePathArgs),
}

impl Args {
    /// The document this value serializes to.
    pub closed spec fn spec_json(self) -> JsonRep {
        match self {
            Args::FreeSpace(a) => a.spec_json(),
            Args::SessionSet(a) => a.spec_json(),
            Args::QueueMove(a) => a.spec_json(),
            Args::TorrentGet(a) => a.spec_json(),
            Args::TorrentAction(a) => a.spec_json(),
            Args::TorrentRemove(a) => a.spec_json(),
            Args::TorrentAdd(a) => a.spec_json(),
            Args::TorrentSet(a) => a.spec_json(),
            Args::TorrentSetLocation(a) => a.spec_json(),
            Args::TorrentRenamePath(a) => a.spec_json(),
        }
    }

    /// Builds the document.
    pub fn to_json(&self) -> (r: JsonValue)
        ensures
            rep_of(r) == self.spec_json(),
    {
        match self {
            Args::FreeSpace(a) => a.to_json(),
            Args::SessionSet(a) => a.to_json(),
            Args::QueueMove(a) => a.to_json(),
            Args::TorrentGet(a) => a.to_json(),
            Args::TorrentAction(a) => a.to_json(),
            Args::TorrentRemove(a) => a.to_json(),
            Args::TorrentAdd(a) => a.to_json(),
            Args::TorrentSet(a) => a.to_json(),
            Args::TorrentSetLocation(a) => a.to_json(),
            Args::TorrentRenamePath(a) => a.to_json(),
        }
    }
}

/// One request: the method name and, for methods that take any, the
/// arguments.  Absent arguments are omitted from the serialized document.
#[derive(Debug)]
pub struct RpcRequest {
    pub(crate) method: Method,
    pub(crate) arguments: Option<Args>,
}

impl RpcRequest {
    /// The method named.
    pub closed spec fn spec_method(&self) -> Method {
        self.method
    }

    /// The arguments carried.
    pub closed spec fn spec_arguments(&self) -> Option<Args> {
        self.arguments
    }

    /// The document this request serializes to.
    pub closed spec fn spec_json(&self) -> JsonRep {
        JsonRep::Obj(
            seq![("method"@, JsonRep::Str(self.method.spec_str()))] + (match self.arguments {
                Some(a) => seq![("arguments"@, a.spec_json())],
                None => Seq::empty(),
            }),
        )
    }

    /// Builds the request document.
    pub fn to_json(&self) -> (r: JsonValue)
        ensures
            rep_of(r) == self.spec_json(),
    {
        let mut es: Vec<(String, JsonValue)> = Vec::new();
        es.push(("method".to_owned(), JsonValue::Str(self.method.as_str().to_owned())));
        match &self.arguments {
            Some(a) => es.push(("arguments".to_owned(), a.to_json())),
            None => (),
        }
        proof {
            assert(entry_reps_of(es@) =~= self.spec_json()->Obj_0);
            lemma_rep_of_obj(es);
        }
        JsonValue::Obj(es)
    }

    /// Serializes the request to its wire body.
    pub fn encode(&self) -> (r: String)
        ensures
            r@ == json_text(self.spec_json()),
    {
        let v = self.to_json();
        to_text(&v)
    }

    pub fn session_set(args: SessionSetArgs) -> (r: RpcRequest)
        ensures
            r.spec_method() == Method::SessionSet,
            r.spec_arguments() == Some(Args::SessionSet(args)),
    {
        RpcRequest { method: Method::SessionSet, arguments: Some(Args::SessionSet(args)) }
    }

    pub fn session_get() -> (r: RpcRequest)
        ensures
            r.spec_method() == Method::SessionGet,
            r.spec_arguments() is None,
    {
        RpcRequest { method: Method::SessionGet, arguments: None }
    }

    pub fn session_stats() -> (r: RpcRequest)
        ensures
            r.spec_method() == Method::SessionStats,
            r.spec_arguments() is None,
    {
        RpcRequest { method: Method::SessionStats, arguments: None }
    }

    pub fn session_close() -> (r: RpcRequest)
        ensures
            r.spec_method() == Method::SessionClose,
            r.spec_arguments() is None,
    {
        RpcRequest { method: Method::SessionClose, arguments: None }
    }

    pub fn blocklist_update() -> (r: RpcRequest)
        ensures
            r.spec_method() == Method::BlocklistUpdate,
            r.spec_arguments() is None,
    {
        RpcRequest { method: Method::BlocklistUpdate, arguments: None }
    }

    pub fn free_space(path: String) -> (r: RpcRequest)
        ensures
            r.spec_method() == Method::FreeSpace,
            r.spec_arguments() matches Some(Args::FreeSpace(a)) && a.path == path,
    {
        RpcRequest {
            method: Method::FreeSpace,
            arguments: Some(Args::FreeSpace(FreeSpaceArgs { path })),
        }
    }

    pub fn port_test() -> (r: RpcRequest)
        ensures
            r.spec_method() == Method::PortTest,
            r.spec_arguments() is None,
    {
        RpcRequest { method: Method::PortTest, arguments: None }
    }

    pub fn queue_move_top(ids: Vec<Id>) -> (r: RpcRequest)
        ensures
            r.spec_method() == Method::QueueMoveTop,
            r.spec_arguments() matches Some(Args::QueueMove(a)) && a.ids == ids,
    {
        RpcRequest {
            method: Method::QueueMoveTop,
            arguments: Some(Args::QueueMove(QueueMoveArgs { ids })),
        }
    }

    pub fn queue_move_up(ids: Vec<Id>) -> (r: RpcRequest)
        ensures
            r.spec_method() == Method::QueueMoveUp,
            r.spec_arguments() matches Some(Args::QueueMove(a)) && a.ids == ids,
    {
        RpcRequest {
            method: Method::QueueMoveUp,
            arguments: Some(Args::QueueMove(QueueMoveArgs { ids })),
        }
    }

    pub fn queue_move_down(ids: Vec<Id>) -> (r: RpcRequest)
        ensures
            r.spec_method() == Method::QueueMoveDown,
            r.spec_arguments() matches Some(Args::QueueMove(a)) && a.ids == ids,
    {
        RpcRequest {
            method: Method::QueueMoveDown,
            arguments: Some(Args::QueueMove(QueueMoveArgs { ids })),
        }
    }

    pub fn queue_move_bottom(ids: Vec<Id>) -> (r: RpcRequest)
        ensures
            r.spec_method() == Method::QueueMoveBottom,
            r.spec_arguments() matches Some(Args::QueueMove(a)) && a.ids == ids,
    {
        RpcRequest {
            method: Method::QueueMoveBottom,
            arguments: Some(Args::QueueMove(QueueMoveArgs { ids })),
        }
    }

    /// `fields` of `None` asks for every field; `ids` of `None` asks about
    /// every torrent.
    pub fn torrent_get(fields: Option<Vec<TorrentGetField>>, ids: Option<Vec<Id>>) -> (r:
        RpcRequest)
        ensures
            r.spec_method() == Method::TorrentGet,
            r.spec_arguments() matches Some(Args::TorrentGet(a)) && a.spec_ids() == ids && (
            match fields {
                Some(f) => a.spec_fields() == Some(f),
                None => a.spec_fields() matches Some(g) && g@ == TorrentGetField::spec_all(),
            }),
    {
        let fields = match fields {
            Some(f) => f,
            None => TorrentGetField::all(),
        };
        RpcRequest {
            method: Method::TorrentGet,
            arguments: Some(Args::TorrentGet(TorrentGetArgs { fields: Some(fields), ids })),
        }
    }

    /// Targets `ids`, or every torrent when `ids` is `None`.
    pub fn torrent_set(args: TorrentSetArgs, ids: Option<Vec<Id>>) -> (r: RpcRequest)
        ensures
            r.spec_method() == Method::TorrentSet,
            r.spec_arguments() matches Some(Args::TorrentSet(a)) && a == (TorrentSetArgs {
                ids,
                ..args
            }),
    {
        let mut args = args;
        args.ids = ids;
        RpcRequest { method: Method::TorrentSet, arguments: Some(Args::TorrentSet(args)) }
    }

    pub fn torrent_remove(ids: Vec<Id>, delete_local_data: bool) -> (r: RpcRequest)
        ensures
            r.spec_method() == Method::TorrentRemove,
            r.spec_arguments() matches Some(Args::TorrentRemove(a)) && a.ids == ids
                && a.delete_local_data == delete_local_data,
    {
        RpcRequest {
            method: Method::TorrentRemove,
            arguments: Some(Args::TorrentRemove(TorrentRemoveArgs { ids, delete_local_data })),
        }
    }

    pub fn torrent_add(add: TorrentAddArgs) -> (r: RpcRequest)
        ensures
            r.spec_method() == Method::TorrentAdd,
            r.spec_arguments() == Some(Args::TorrentAdd(add)),
    {
        RpcRequest { method: Method::TorrentAdd, arguments: Some(Args::TorrentAdd(add)) }
    }

    pub fn torrent_action(action: TorrentAction, ids: Vec<Id>) -> (r: RpcRequest)
        ensures
            r.spec_method() == Method::TorrentAction(action),
            r.spec_arguments() matches Some(Args::TorrentAction(a)) && a.ids == ids,
    {
        RpcRequest {
            method: Method::TorrentAction(action),
            arguments: Some(Args::TorrentAction(TorrentActionArgs { ids })),
        }
    }

    pub fn torrent_set_location(ids: Vec<Id>, location: String, move_from: Option<bool>) -> (r:
        RpcRequest)
        ensures
            r.spec_method() == Method::TorrentSetLocation,
            r.spec_arguments() matches Some(Args::TorrentSetLocation(a)) && a.ids == ids
                && a.location == location && a.move_from == move_from,
    {
        RpcRequest {
            method: Method::TorrentSetLocation,
            arguments: Some(
                Args::TorrentSetLocation(TorrentSetLocationArgs { ids, location, move_from }),
            ),
        }
    }

    pub fn torrent_rename_path(ids: Vec<Id>, path: String, name: String) -> (r: RpcRequest)
        ensures
            r.spec_method() == Method::TorrentRenamePath,
            r.spec_arguments() matches Some(Args::TorrentRenamePath(a)) && a.ids == ids && a.path
                == path && a.name == name,
    {
        RpcRequest {
            method: Method::TorrentRenamePath,
            arguments: Some(Args::TorrentRenamePath(TorrentRenamePathArgs { ids, path, name })),
        }
    }
}

} // verus!
