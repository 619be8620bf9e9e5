//! The trusted boundary to the JSON codec, and the verified coercion of
//! decoded JSON values into field values.
//!
//! The body bytes are parsed once, into the top-level entries of a JSON
//! object; each entry's value is an opaque document value, read only
//! through the typed accessors below.  What a document value holds is
//! named by uninterpreted functions: the same value always reads the same
//! way, and the coercion logic over those readings is verified.

use crate::coerce::{spec_zero, zero_val};
use crate::types::{FieldVal, FieldValV, ScalarTag, ScalarVal, ScalarValV, TypeDesc, opt_str_view};
use vstd::prelude::*;

verus! {

/// sonic_rs's JSON document value, declared so that it can stand in
/// signatures; it is opaque to verification.
#[verifier::external_type_specification]
#[verifier::external_body]
pub struct ExValue(sonic_rs::Value);

/// What parsing bytes as a JSON object yields: the top-level entries as a
/// map from key to document value, or nothing where the bytes are not a
/// JSON object.  The result is a function of the bytes alone.
pub uninterp spec fn spec_json_obj(b: Seq<u8>) -> Option<Map<Seq<char>, sonic_rs::Value>>;

/// The integer a document value reads as, where it is a number that fits.
pub uninterp spec fn spec_value_i64(v: sonic_rs::Value) -> Option<i64>;

/// The unsigned integer a document value reads as, where it fits.
pub uninterp spec fn spec_value_u64(v: sonic_rs::Value) -> Option<u64>;

/// The boolean a document value reads as, where it is one.
pub uninterp spec fn spec_value_bool(v: sonic_rs::Value) -> Option<bool>;

/// The string a document value reads as, where it is one.
pub uninterp spec fn spec_value_str(v: sonic_rs::Value) -> Option<Seq<char>>;

/// The elements a document value holds, where it is an array.
pub uninterp spec fn spec_value_items(v: sonic_rs::Value) -> Option<Seq<sonic_rs::Value>>;

/// Relies on `sonic_rs::from_slice` with a string-keyed map target: the
/// top-level entries of a JSON object.  The pairs come in no promised
/// order; each key appears once and carries the entry the map names.
#[verifier::external_body]
pub fn json_object(b: &[u8]) -> (r: Result<Vec<(String, sonic_rs::Value)>, String>)
    ensures
        r is Ok <==> spec_json_obj(b@) is Some,
        r is Ok ==> ({
            let m = spec_json_obj(b@)->0;
            let ps = r->Ok_0@;
            &&& forall|i: int|
                0 <= i < ps.len() ==> m.contains_key(#[trigger] ps[i].0@) && ps[i].1 == m[ps[i].0@]
            &&& forall|k: Seq<char>|
                m.contains_key(k) ==> exists|i: int| 0 <= i < ps.len() && #[trigger] ps[i].0@ == k
            &&& forall|i: int, j: int| 0 <= i < j < ps.len() ==> ps[i].0@ != ps[j].0@
        }),
{
    match sonic_rs::from_slice::<std::collections::HashMap<String, sonic_rs::Value>>(b) {
        Ok(m) => Ok(m.into_iter().collect()),
        Err(e) => Err(e.to_string()),
    }
}

/// Relies on `sonic_rs::JsonValueTrait::as_i64`: the number as an `i64`,
/// where the value is an integer that fits.
#[verifier::external_body]
pub fn value_i64(v: &sonic_rs::Value) -> (r: Option<i64>)
    ensures
        r == spec_value_i64(*v),
{
    sonic_rs::JsonValueTrait::as_i64(v)
}

/// Relies on `sonic_rs::JsonValueTrait::as_u64`: the number as a `u64`,
/// where the value is a non-negative integer that fits.
#[verifier::external_body]
pub fn value_u64(v: &sonic_rs::Value) -> (r: Option<u64>)
    ensures
        r == spec_value_u64(*v),
{
    sonic_rs::JsonValueTrait::as_u64(v)
}

/// Relies on `sonic_rs::JsonValueTrait::as_bool`: the boolean the value
/// holds, where it is one.
#[verifier::external_body]
pub fn value_bool(v: &sonic_rs::Value) -> (r: Option<bool>)
    ensures
        r == spec_value_bool(*v),
{
    sonic_rs::JsonValueTrait::as_bool(v)
}

/// Relies on `sonic_rs::JsonValueTrait::as_str`: the string the value
/// holds, where it is one.
#[verifier::external_body]
pub fn value_str(v: &sonic_rs::Value) -> (r: Option<String>)
    ensures
        opt_str_view(r) == spec_value_str(*v),
{
    sonic_rs::JsonValueTrait::as_str(v).map(|s| s.to_string())
}

/// Relies on `sonic_rs::JsonContainerTrait::as_array`: the elements of an
/// array value, in order.
#[verifier::external_body]
pub fn value_items(v: &sonic_rs::Value) -> (r: Option<Vec<sonic_rs::Value>>)
    ensures
        r is Some <==> spec_value_items(*v) is Some,
        r is Some ==> r->0@ == spec_value_items(*v)->0,
{
    sonic_rs::JsonContainerTrait::as_array(v).map(|a| a.iter().cloned().collect())
}

/// What reading a document value as a scalar of type `tag` yields.
pub open spec fn spec_json_scalar(tag: ScalarTag, v: sonic_rs::Value) -> Option<ScalarValV> {
    match tag {
        ScalarTag::I64 => match spec_value_i64(v) {
            Some(n) => Some(ScalarValV::I64(n)),
            None => None,
        },
        ScalarTag::U64 => match spec_value_u64(v) {
            Some(n) => Some(ScalarValV::U64(n)),
            None => None,
        },
        ScalarTag::Bool => match spec_value_bool(v) {
            Some(b) => Some(ScalarValV::Bool(b)),
            None => None,
        },
        ScalarTag::Str => match spec_value_str(v) {
            Some(s) => Some(ScalarValV::Str(s)),
            None => None,
        },
    }
}

/// Reads a document value as a scalar of type `tag`.
pub fn json_scalar(tag: ScalarTag, v: &sonic_rs::Value) -> (r: Option<ScalarVal>)
    ensures
        r is Some <==> spec_json_scalar(tag, *v) is Some,
        r is Some ==> r->0@ == spec_json_scalar(tag, *v)->0,
{
    match tag {
        ScalarTag::I64 => match value_i64(v) {
            Some(n) => Some(ScalarVal::I64(n)),
            None => None,
        },
        ScalarTag::U64 => match value_u64(v) {
            Some(n) => Some(ScalarVal::U64(n)),
            None => None,
        },
        ScalarTag::Bool => match value_bool(v) {
            Some(b) => Some(ScalarVal::Bool(b)),
            None => None,
        },
        ScalarTag::Str => match value_str(v) {
            Some(s) => Some(ScalarVal::Str(s)),
            None => None,
        },
    }
}

/// A JSON list item's value: the scalar read from the element, or the zero
/// value where the element does not read as one.
pub open spec fn spec_json_item_or_zero(tag: ScalarTag, v: sonic_rs::Value) -> ScalarValV {
    match spec_json_scalar(tag, v) {
        Some(x) => x,
        None => spec_zero(tag),
    }
}

/// What reading an array's elements as scalars yields: each element read,
/// unreadable elements becoming the zero value; the length is kept.
pub open spec fn spec_json_list(tag: ScalarTag, items: Seq<sonic_rs::Value>) -> Seq<ScalarValV> {
    items.map_values(|v: sonic_rs::Value| spec_json_item_or_zero(tag, v))
}

/// Reads an array's elements as scalars, substituting the zero value for
/// unreadable elements.
pub fn json_list(tag: ScalarTag, items: &Vec<sonic_rs::Value>) -> (r: Vec<ScalarVal>)
    ensures
        r@.map_values(|v: ScalarVal| v@) == spec_json_list(tag, items@),
{
    let ghost target = spec_json_list(tag, items@);
    let mut out: Vec<ScalarVal> = Vec::new();
    let mut i: usize = 0;
    proof {
        assert(out@.map_values(|v: ScalarVal| v@) =~= target.take(0));
    }
    while i < items.len()
        invariant
            i <= items.len(),
            target == spec_json_list(tag, items@),
            target.len() == items@.len(),
            out@.map_values(|v: ScalarVal| v@) == target.take(i as int),
        decreases items.len() - i,
    {
        proof {
            assert(target[i as int] == spec_json_item_or_zero(tag, items@[i as int]));
        }
        let x = match json_scalar(tag, &items[i]) {
            Some(x) => x,
            None => zero_val(tag),
        };
        let ghost outv_old = out@.map_values(|v: ScalarVal| v@);
        out.push(x);
        proof {
            assert(out@.map_values(|v: ScalarVal| v@) =~= outv_old.push(x@));
            assert(target.take(i + 1) =~= target.take(i as int).push(target[i as int]));
        }
        i = i + 1;
    }
    proof {
        assert(target.take(items@.len() as int) =~= target);
    }
    out
}

/// What applying one present JSON entry to a field of declared type `ty`
/// yields, `cur` being the field's current value: a plain scalar takes the
/// read value or keeps `cur`; an optional scalar becomes `Some(read)` or
/// `None`; a list takes the read array or keeps `cur`; an optional list
/// becomes `Some` of the read array or `None`.
pub open spec fn spec_apply_json(ty: TypeDesc, v: sonic_rs::Value, cur: FieldValV) -> FieldValV {
    match ty {
        TypeDesc::Scalar(t) => match spec_json_scalar(t, v) {
            Some(x) => FieldValV::Scalar(x),
            None => cur,
        },
        TypeDesc::Opt(t) => FieldValV::OptScalar(spec_json_scalar(t, v)),
        TypeDesc::List(t) => match spec_value_items(v) {
            Some(items) => FieldValV::List(spec_json_list(t, items)),
            None => cur,
        },
        TypeDesc::OptList(t) => match spec_value_items(v) {
            Some(items) => FieldValV::OptList(Some(spec_json_list(t, items))),
            None => FieldValV::OptList(None),
        },
    }
}

/// Applies one present JSON entry to a field, with the semantics of
/// [`spec_apply_json`].
pub fn apply_json(ty: TypeDesc, v: &sonic_rs::Value, cur: FieldVal) -> (r: FieldVal)
    ensures
        r@ == spec_apply_json(ty, *v, cur@),
{
    match ty {
        TypeDesc::Scalar(t) => {
            match json_scalar(t, v) {
                Some(x) => FieldVal::Scalar(x),
                None => cur,
            }
        },
        TypeDesc::Opt(t) => FieldVal::OptScalar(json_scalar(t, v)),
        TypeDesc::List(t) => {
            match value_items(v) {
                Some(items) => FieldVal::List(json_list(t, &items)),
                None => cur,
            }
        },
        TypeDesc::OptList(t) => {
            match value_items(v) {
                Some(items) => FieldVal::OptList(Some(json_list(t, &items))),
                None => FieldVal::OptList(None),
            }
        },
    }
}

} // verus!
