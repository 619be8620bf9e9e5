//! The trusted boundary to the form/url-encoded codec.  Query strings and
//! form bodies are decoded into key-value string pairs here; everything
//! done with the pairs is verified code.

use vstd::prelude::*;

verus! {

/// What decoding url-encoded bytes yields: the key-value pairs in document
/// order, or nothing where the codec rejects the input.  The result is a
/// function of the bytes alone.
pub uninterp spec fn spec_urlencoded(b: Seq<u8>) -> Option<Seq<(Seq<char>, Seq<char>)>>;

/// Relies on `serde_urlencoded::from_bytes` with a pair-vector target,
/// which its documentation shows decoding `a=1&b=2` into the pairs in
/// document order.
#[verifier::external_body]
pub fn urlencoded_pairs(b: &[u8]) -> (r: Result<Vec<(String, String)>, String>)
    ensures
        r is Ok <==> spec_urlencoded(b@) is Some,
        r is Ok ==> crate::types::pairs_view(r->Ok_0@) == spec_urlencoded(b@)->0,
{
    match serde_urlencoded::from_bytes::<Vec<(String, String)>>(b) {
        Ok(ps) => Ok(ps),
        Err(e) => Err(e.to_string()),
    }
}

} // verus!
