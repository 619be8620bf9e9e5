//! Content-type inspection: the `content-type` header is parsed by the
//! mime crate behind one trusted wrapper; the comparison against the
//! expected type, subtype or suffix is verified code.

use crate::lookup::{header_get, spec_header_get};
use crate::strutil::str_eq;
use crate::types::{opt_str_view, pairs_view};
use vstd::prelude::*;

verus! {

/// What parsing a media-type string yields: its type, subtype and optional
/// suffix, or nothing where the string is not a media type.  The result is
/// a function of the string alone.
pub uninterp spec fn spec_mime_parts(s: Seq<char>) -> Option<
    (Seq<char>, Seq<char>, Option<Seq<char>>),
>;

/// Relies on `mime::Mime::from_str` and its `type_`, `subtype` and
/// `suffix` accessors: the parsed essence of a media-type string.  The
/// parse lowercases the essence, so the parts come back in lower case.
#[verifier::external_body]
fn mime_parts(s: &str) -> (r: Option<(String, String, Option<String>)>)
    ensures
        r is Some <==> spec_mime_parts(s@) is Some,
        r is Some ==> ({
            let q = r->0;
            let p = spec_mime_parts(s@)->0;
            &&& q.0@ == p.0
            &&& q.1@ == p.1
            &&& opt_str_view(q.2) == p.2
        }),
{
    match s.parse::<mime::Mime>() {
        Ok(m) => Some(
            (
                m.type_().as_str().to_string(),
                m.subtype().as_str().to_string(),
                m.suffix().map(|n| n.as_str().to_string()),
            ),
        ),
        Err(_) => None,
    }
}

/// Whether the request's `content-type` header names the given type and
/// subtype, or carries the subtype as a suffix (as `image/svg+xml` carries
/// `xml`).  A missing or unparsable header never matches.
pub open spec fn spec_content_type_matches(
    hs: Seq<(Seq<char>, Seq<char>)>,
    ty: Seq<char>,
    subtype: Seq<char>,
) -> bool {
    match spec_header_get(hs, "content-type"@) {
        None => false,
        Some(ct) => match spec_mime_parts(ct) {
            None => false,
            Some(p) => (p.0 == ty && p.1 == subtype) || p.2 == Some(subtype),
        },
    }
}

/// Checks the request's `content-type` header against a type and subtype.
pub fn content_type_matches(headers: &Vec<(String, String)>, ty: &str, subtype: &str) -> (r: bool)
    ensures
        r == spec_content_type_matches(pairs_view(headers@), ty@, subtype@),
{
    let ct = match header_get(headers, "content-type") {
        None => {
            return false;
        },
        Some(ct) => ct,
    };
    match mime_parts(ct.as_str()) {
        None => false,
        Some(p) => {
            if str_eq(p.0.as_str(), ty) && str_eq(p.1.as_str(), subtype) {
                true
            } else {
                match &p.2 {
                    Some(sfx) => str_eq(sfx.as_str(), subtype),
                    None => false,
                }
            }
        },
    }
}

} // verus!
