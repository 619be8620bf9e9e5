//! Lookup in the request's key-value views: case-insensitive first match
//! for headers, exact first match for decoded query and form pairs.

use crate::strutil::{eq_ignore_case, spec_eq_ci, str_eq};
use vstd::prelude::*;

verus! {

/// The first value whose key equals `key` ASCII-case-insensitively, as
/// header lookup works.
pub open spec fn spec_header_get(hs: Seq<(Seq<char>, Seq<char>)>, key: Seq<char>) -> Option<
    Seq<char>,
>
    decreases hs.len(),
{
    if hs.len() == 0 {
        None
    } else if spec_eq_ci(hs[0].0, key) {
        Some(hs[0].1)
    } else {
        spec_header_get(hs.skip(1), key)
    }
}

/// Looks a key up in the header view, case-insensitively, first match wins.
pub fn header_get<'a>(hs: &'a Vec<(String, String)>, key: &str) -> (r: Option<&'a String>)
    ensures
        (match r {
            Some(v) => Some(v@),
            None => None,
        }) == spec_header_get(crate::types::pairs_view(hs@), key@),
{
    let ghost hsv = crate::types::pairs_view(hs@);
    let mut i: usize = 0;
    proof {
        assert(hsv.skip(0) =~= hsv);
    }
    while i < hs.len()
        invariant
            i <= hs.len(),
            hsv == crate::types::pairs_view(hs@),
            hsv.len() == hs@.len(),
            spec_header_get(hsv, key@) == spec_header_get(hsv.skip(i as int), key@),
        decreases hs.len() - i,
    {
        proof {
            assert(hsv[i as int] == (hs@[i as int].0@, hs@[i as int].1@));
            assert(hsv.skip(i as int)[0] == hsv[i as int]);
            assert(hsv.skip(i as int).skip(1) =~= hsv.skip(i + 1));
        }
        if eq_ignore_case(hs[i].0.as_str(), key) {
            return Some(&hs[i].1);
        }
        i = i + 1;
    }
    proof {
        assert(hsv.skip(hs@.len() as int).len() == 0);
    }
    None
}

/// The first value whose key equals `key` exactly, as decoded query and
/// form pairs are consulted.
pub open spec fn spec_pairs_get(ps: Seq<(Seq<char>, Seq<char>)>, key: Seq<char>) -> Option<
    Seq<char>,
>
    decreases ps.len(),
{
    if ps.len() == 0 {
        None
    } else if ps[0].0 == key {
        Some(ps[0].1)
    } else {
        spec_pairs_get(ps.skip(1), key)
    }
}

/// Looks a key up in decoded pairs, exact match, first match wins.
pub fn pairs_get<'a>(ps: &'a Vec<(String, String)>, key: &str) -> (r: Option<&'a String>)
    ensures
        (match r {
            Some(v) => Some(v@),
            None => None,
        }) == spec_pairs_get(crate::types::pairs_view(ps@), key@),
{
    let ghost psv = crate::types::pairs_view(ps@);
    let mut i: usize = 0;
    proof {
        assert(psv.skip(0) =~= psv);
    }
    while i < ps.len()
        invariant
            i <= ps.len(),
            psv == crate::types::pairs_view(ps@),
            psv.len() == ps@.len(),
            spec_pairs_get(psv, key@) == spec_pairs_get(psv.skip(i as int), key@),
        decreases ps.len() - i,
    {
        proof {
            assert(psv[i as int] == (ps@[i as int].0@, ps@[i as int].1@));
            assert(psv.skip(i as int)[0] == psv[i as int]);
            assert(psv.skip(i as int).skip(1) =~= psv.skip(i + 1));
        }
        if str_eq(ps[i].0.as_str(), key) {
            return Some(&ps[i].1);
        }
        i = i + 1;
    }
    proof {
        assert(psv.skip(ps@.len() as int).len() == 0);
    }
    None
}

} // verus!
