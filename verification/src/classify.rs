//! The type classifier: the shape of a declared field type, and the
//! structural unwrapping that path- and header-sourced fields receive.
//!
//! Only structural origins unwrap `Option` and `Vec` wrappers to discover
//! the innermost scalar: their raw values arrive as flat strings.  Other
//! origins hand the full declared type to the codec, which understands the
//! composite shapes natively.

use crate::types::{OriginTag, ScalarTag, TypeDesc};
use vstd::prelude::*;

verus! {

/// Whether the declared type's outermost wrapper is `Option`.
pub open spec fn spec_is_option_type(ty: TypeDesc) -> bool {
    match ty {
        TypeDesc::Opt(_) => true,
        TypeDesc::OptList(_) => true,
        _ => false,
    }
}

/// Whether the declared type's outermost wrapper is `Option`.
pub fn is_option_type(ty: &TypeDesc) -> (r: bool)
    ensures
        r == spec_is_option_type(*ty),
{
    match ty {
        TypeDesc::Opt(_) => true,
        TypeDesc::OptList(_) => true,
        _ => false,
    }
}

/// Whether the declared type's outermost wrapper is `Vec`.
pub open spec fn spec_is_vec_type(ty: TypeDesc) -> bool {
    match ty {
        TypeDesc::List(_) => true,
        _ => false,
    }
}

/// Whether the declared type's outermost wrapper is `Vec`.
pub fn is_vec_type(ty: &TypeDesc) -> (r: bool)
    ensures
        r == spec_is_vec_type(*ty),
{
    match ty {
        TypeDesc::List(_) => true,
        _ => false,
    }
}

/// The type inside an outermost `Option`, if there is one.
pub open spec fn spec_option_inner_type(ty: TypeDesc) -> Option<TypeDesc> {
    match ty {
        TypeDesc::Opt(t) => Some(TypeDesc::Scalar(t)),
        TypeDesc::OptList(t) => Some(TypeDesc::List(t)),
        _ => None,
    }
}

/// The type inside an outermost `Option`, if there is one.
pub fn get_option_inner_type(ty: &TypeDesc) -> (r: Option<TypeDesc>)
    ensures
        r == spec_option_inner_type(*ty),
{
    match ty {
        TypeDesc::Opt(t) => Some(TypeDesc::Scalar(*t)),
        TypeDesc::OptList(t) => Some(TypeDesc::List(*t)),
        _ => None,
    }
}

/// The type inside an outermost `Vec`, if there is one.
pub open spec fn spec_vec_inner_type(ty: TypeDesc) -> Option<TypeDesc> {
    match ty {
        TypeDesc::List(t) => Some(TypeDesc::Scalar(t)),
        _ => None,
    }
}

/// The type inside an outermost `Vec`, if there is one.
pub fn get_vec_inner_type(ty: &TypeDesc) -> (r: Option<TypeDesc>)
    ensures
        r == spec_vec_inner_type(*ty),
{
    match ty {
        TypeDesc::List(t) => Some(TypeDesc::Scalar(*t)),
        _ => None,
    }
}

/// The innermost scalar type of a declared type.
pub open spec fn spec_scalar_of(ty: TypeDesc) -> ScalarTag {
    match ty {
        TypeDesc::Scalar(t) => t,
        TypeDesc::Opt(t) => t,
        TypeDesc::List(t) => t,
        TypeDesc::OptList(t) => t,
    }
}

/// The innermost scalar type of a declared type.
pub fn scalar_of(ty: &TypeDesc) -> (r: ScalarTag)
    ensures
        r == spec_scalar_of(*ty),
{
    match ty {
        TypeDesc::Scalar(t) => *t,
        TypeDesc::Opt(t) => *t,
        TypeDesc::List(t) => *t,
        TypeDesc::OptList(t) => *t,
    }
}

/// Whether fields of this origin receive flat strings and unwrap their
/// declared type structurally: path and header fields do.
pub open spec fn spec_is_structural(o: OriginTag) -> bool {
    o == OriginTag::Path || o == OriginTag::Header
}

/// Whether fields of this origin unwrap their declared type structurally.
pub fn is_structural(o: OriginTag) -> (r: bool)
    ensures
        r == spec_is_structural(o),
{
    match o {
        OriginTag::Path => true,
        OriginTag::Header => true,
        _ => false,
    }
}

/// The classification of a declared type under an origin:
/// `(is_option, is_vec, innermost scalar)`.  A structural origin unwraps
/// the composite wrappers; any other origin reports no unwrapping and the
/// innermost scalar only for the codec's use.
pub open spec fn spec_composite_type(structural: bool, ty: TypeDesc) -> (bool, bool, ScalarTag) {
    if structural {
        match ty {
            TypeDesc::Scalar(t) => (false, false, t),
            TypeDesc::Opt(t) => (true, false, t),
            TypeDesc::List(t) => (false, true, t),
            TypeDesc::OptList(t) => (true, true, t),
        }
    } else {
        (false, false, spec_scalar_of(ty))
    }
}

/// Classifies a declared type under an origin.
pub fn composite_type(structural: bool, ty: &TypeDesc) -> (r: (bool, bool, ScalarTag))
    ensures
        r == spec_composite_type(structural, *ty),
{
    if structural {
        match ty {
            TypeDesc::Scalar(t) => (false, false, *t),
            TypeDesc::Opt(t) => (true, false, *t),
            TypeDesc::List(t) => (false, true, *t),
            TypeDesc::OptList(t) => (true, true, *t),
        }
    } else {
        (false, false, scalar_of(ty))
    }
}

} // verus!
