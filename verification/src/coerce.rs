//! The type coercion layer: zero values, default field values, scalar
//! parsing, list splitting, and the best-effort application of one raw
//! string to a field, as path and header decoding use it.
//!
//! Parse failure is recoverable by design: a plain scalar keeps its current
//! value, an optional field becomes `None`, a list item becomes the scalar's
//! zero value.  Absence is handled by the caller, which simply does not
//! apply anything.

use crate::strutil::{
    parse_bool, parse_i64, parse_u64, spec_parse_bool, spec_parse_i64, spec_parse_u64,
    spec_split_commas, split_commas,
};
use crate::types::{FieldVal, FieldValV, ScalarTag, ScalarVal, ScalarValV, TypeDesc};
use vstd::prelude::*;

verus! {

/// The zero value of a scalar type.
pub open spec fn spec_zero(tag: ScalarTag) -> ScalarValV {
    match tag {
        ScalarTag::I64 => ScalarValV::I64(0),
        ScalarTag::U64 => ScalarValV::U64(0),
        ScalarTag::Bool => ScalarValV::Bool(false),
        ScalarTag::Str => ScalarValV::Str(Seq::<char>::empty()),
    }
}

/// Builds the zero value of a scalar type.
pub fn zero_val(tag: ScalarTag) -> (r: ScalarVal)
    ensures
        r@ == spec_zero(tag),
{
    match tag {
        ScalarTag::I64 => ScalarVal::I64(0),
        ScalarTag::U64 => ScalarVal::U64(0),
        ScalarTag::Bool => ScalarVal::Bool(false),
        ScalarTag::Str => ScalarVal::Str(String::new()),
    }
}

/// The default value of a declared field type: zero for a plain scalar,
/// `None` for optional shapes, the empty list for a list.
pub open spec fn spec_default_val(ty: TypeDesc) -> FieldValV {
    match ty {
        TypeDesc::Scalar(t) => FieldValV::Scalar(spec_zero(t)),
        TypeDesc::Opt(_) => FieldValV::OptScalar(None),
        TypeDesc::List(_) => FieldValV::List(Seq::<ScalarValV>::empty()),
        TypeDesc::OptList(_) => FieldValV::OptList(None),
    }
}

/// Builds the default value of a declared field type.
pub fn default_val(ty: TypeDesc) -> (r: FieldVal)
    ensures
        r@ == spec_default_val(ty),
{
    match ty {
        TypeDesc::Scalar(t) => FieldVal::Scalar(zero_val(t)),
        TypeDesc::Opt(_) => FieldVal::OptScalar(None),
        TypeDesc::List(_) => {
            let r = FieldVal::List(Vec::new());
            proof {
                assert(Seq::<ScalarVal>::empty().map_values(|v: ScalarVal| v@)
                    =~= Seq::<ScalarValV>::empty());
            }
            r
        },
        TypeDesc::OptList(_) => FieldVal::OptList(None),
    }
}

/// What parsing a raw string as a scalar of type `tag` yields.  A string
/// scalar always parses to itself.
pub open spec fn spec_parse_scalar(tag: ScalarTag, s: Seq<char>) -> Option<ScalarValV> {
    match tag {
        ScalarTag::I64 => match spec_parse_i64(s) {
            Some(n) => Some(ScalarValV::I64(n)),
            None => None,
        },
        ScalarTag::U64 => match spec_parse_u64(s) {
            Some(n) => Some(ScalarValV::U64(n)),
            None => None,
        },
        ScalarTag::Bool => match spec_parse_bool(s) {
            Some(b) => Some(ScalarValV::Bool(b)),
            None => None,
        },
        ScalarTag::Str => Some(ScalarValV::Str(s)),
    }
}

/// Parses a raw string as a scalar of type `tag`.
pub fn parse_scalar(tag: ScalarTag, s: &str) -> (r: Option<ScalarVal>)
    ensures
        r is Some <==> spec_parse_scalar(tag, s@) is Some,
        r is Some ==> r->0@ == spec_parse_scalar(tag, s@)->0,
{
    match tag {
        ScalarTag::I64 => match parse_i64(s) {
            Some(n) => Some(ScalarVal::I64(n)),
            None => None,
        },
        ScalarTag::U64 => match parse_u64(s) {
            Some(n) => Some(ScalarVal::U64(n)),
            None => None,
        },
        ScalarTag::Bool => match parse_bool(s) {
            Some(b) => Some(ScalarVal::Bool(b)),
            None => None,
        },
        ScalarTag::Str => Some(ScalarVal::Str(s.to_owned())),
    }
}

/// A list item's value: the parsed scalar, or the zero value where the item
/// does not parse.
pub open spec fn spec_item_or_zero(tag: ScalarTag, s: Seq<char>) -> ScalarValV {
    match spec_parse_scalar(tag, s) {
        Some(v) => v,
        None => spec_zero(tag),
    }
}

/// Parses one list item, substituting the zero value on failure.
pub fn parse_item_or_zero(tag: ScalarTag, s: &str) -> (r: ScalarVal)
    ensures
        r@ == spec_item_or_zero(tag, s@),
{
    match parse_scalar(tag, s) {
        Some(v) => v,
        None => zero_val(tag),
    }
}

/// What decoding a raw string as a list yields: the string split on commas,
/// each piece parsed, unparsable items becoming the zero value.  The list
/// length always equals the number of pieces.
pub open spec fn spec_parse_list(tag: ScalarTag, s: Seq<char>) -> Seq<ScalarValV> {
    spec_split_commas(s).map_values(|p: Seq<char>| spec_item_or_zero(tag, p))
}

/// Decodes a raw string as a list of scalars.
pub fn parse_list(tag: ScalarTag, s: &str) -> (r: Vec<ScalarVal>)
    ensures
        r@.map_values(|v: ScalarVal| v@) == spec_parse_list(tag, s@),
{
    let pieces = split_commas(s);
    let mut out: Vec<ScalarVal> = Vec::new();
    let ghost target = spec_parse_list(tag, s@);
    let mut i: usize = 0;
    proof {
        assert(out@.map_values(|v: ScalarVal| v@) =~= target.take(0));
    }
    while i < pieces.len()
        invariant
            i <= pieces.len(),
            pieces@.map_values(|t: String| t@) == spec_split_commas(s@),
            target == spec_parse_list(tag, s@),
            target.len() == pieces@.len(),
            out@.map_values(|v: ScalarVal| v@) == target.take(i as int),
        decreases pieces.len() - i,
    {
        let v = parse_item_or_zero(tag, pieces[i].as_str());
        proof {
            assert(pieces@.map_values(|t: String| t@)[i as int] == pieces@[i as int]@);
            assert(target[i as int] == spec_item_or_zero(tag, pieces@[i as int]@));
        }
        let ghost outv_old = out@.map_values(|v: ScalarVal| v@);
        out.push(v);
        proof {
            assert(out@.map_values(|v: ScalarVal| v@) =~= outv_old.push(v@));
            assert(target.take(i + 1) =~= target.take(i as int).push(target[i as int]));
        }
        i = i + 1;
    }
    proof {
        assert(target.take(pieces@.len() as int) =~= target);
    }
    out
}

/// What applying one present raw value to a field of declared type `ty`
/// yields, `cur` being the field's current value:
/// a plain scalar takes the parsed value, or keeps `cur` on parse failure;
/// an optional scalar becomes `Some(parsed)` or `None` on failure; a list
/// becomes the split-and-parsed items; an optional list becomes `Some` of
/// them.
pub open spec fn spec_apply_raw(ty: TypeDesc, raw: Seq<char>, cur: FieldValV) -> FieldValV {
    match ty {
        TypeDesc::Scalar(t) => match spec_parse_scalar(t, raw) {
            Some(v) => FieldValV::Scalar(v),
            None => cur,
        },
        TypeDesc::Opt(t) => FieldValV::OptScalar(spec_parse_scalar(t, raw)),
        TypeDesc::List(t) => FieldValV::List(spec_parse_list(t, raw)),
        TypeDesc::OptList(t) => FieldValV::OptList(Some(spec_parse_list(t, raw))),
    }
}

/// Applies one present raw value to a field, with the best-effort semantics
/// of [`spec_apply_raw`].
pub fn apply_raw(ty: TypeDesc, raw: &str, cur: FieldVal) -> (r: FieldVal)
    ensures
        r@ == spec_apply_raw(ty, raw@, cur@),
{
    match ty {
        TypeDesc::Scalar(t) => {
            match parse_scalar(t, raw) {
                Some(v) => FieldVal::Scalar(v),
                None => cur,
            }
        },
        TypeDesc::Opt(t) => {
            let p = parse_scalar(t, raw);
            FieldVal::OptScalar(p)
        },
        TypeDesc::List(t) => FieldVal::List(parse_list(t, raw)),
        TypeDesc::OptList(t) => FieldVal::OptList(Some(parse_list(t, raw))),
    }
}

} // verus!
