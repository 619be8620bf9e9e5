//! The schema builder and the origin validator.
//!
//! The builder resolves each declared field to a [`FieldFormat`]: it scans
//! the field's origin annotations in the fixed priority order (path,
//! context, header, query, JSON body, form body), lets the first usable one
//! win, falls back to the record's default origin, applies the generic
//! rename, and classifies the declared type.  The validator then rejects
//! any field whose resolved origin is body-exclusive and differs from the
//! record's default origin.

use crate::classify::{composite_type, is_structural, spec_composite_type, spec_is_structural};
use crate::strutil::str_eq;
use crate::types::{
    AnnArg, AnnArgV, AnnotationV, DefaultAnn, DefaultAnnV, FieldDecl, FieldDeclV, FieldFormat,
    FieldFormatV, OriginTag, RecordDecl, RecordDeclV, Rejection, RejectionV, opt_str_view,
};
use vstd::prelude::*;

verus! {

/// The origin a recognized annotation word names, if any.
pub open spec fn spec_origin_of_word(w: Seq<char>) -> Option<OriginTag> {
    if w == "path"@ {
        Some(OriginTag::Path)
    } else if w == "context"@ {
        Some(OriginTag::Context)
    } else if w == "header"@ {
        Some(OriginTag::Header)
    } else if w == "query"@ {
        Some(OriginTag::Query)
    } else if w == "json"@ {
        Some(OriginTag::JsonBody)
    } else if w == "form"@ {
        Some(OriginTag::FormBody)
    } else {
        None
    }
}

/// Maps a recognized annotation word to its origin.
pub fn origin_of_word(w: &str) -> (r: Option<OriginTag>)
    ensures
        r == spec_origin_of_word(w@),
{
    if str_eq(w, "path") {
        Some(OriginTag::Path)
    } else if str_eq(w, "context") {
        Some(OriginTag::Context)
    } else if str_eq(w, "header") {
        Some(OriginTag::Header)
    } else if str_eq(w, "query") {
        Some(OriginTag::Query)
    } else if str_eq(w, "json") {
        Some(OriginTag::JsonBody)
    } else if str_eq(w, "form") {
        Some(OriginTag::FormBody)
    } else {
        None
    }
}

/// Checks a declared origin word against the recognized set.
pub fn validate_format(lit: &str) -> (r: Result<OriginTag, Rejection>)
    ensures
        r is Ok <==> spec_origin_of_word(lit@) is Some,
        r is Ok ==> Some(r->Ok_0) == spec_origin_of_word(lit@),
        r is Err ==> r->Err_0@ == RejectionV::UnsupportedOrigin(lit@),
{
    match origin_of_word(lit) {
        Some(o) => Ok(o),
        None => Err(Rejection::UnsupportedOrigin(lit.to_owned())),
    }
}

/// What the record's default-origin declaration resolves to: JSON body
/// where nothing or a bare declaration stands, the named origin where the
/// word is recognized, and an `UnsupportedOrigin` rejection otherwise.
pub open spec fn spec_default_format(d: Option<DefaultAnnV>) -> Result<OriginTag, RejectionV> {
    match d {
        None => Ok(OriginTag::JsonBody),
        Some(DefaultAnnV::Bare) => Ok(OriginTag::JsonBody),
        Some(DefaultAnnV::Word(w)) => match spec_origin_of_word(w) {
            Some(o) => Ok(o),
            None => Err(RejectionV::UnsupportedOrigin(w)),
        },
        Some(DefaultAnnV::Malformed(t)) => Err(RejectionV::UnsupportedOrigin(t)),
    }
}

/// Resolves the record's default-origin declaration.
pub fn get_default_format(rec: &RecordDecl) -> (r: Result<OriginTag, Rejection>)
    ensures
        r is Ok <==> spec_default_format(rec@.default_ann) is Ok,
        r is Ok ==> Ok::<OriginTag, RejectionV>(r->Ok_0) == spec_default_format(rec@.default_ann),
        r is Err ==> r->Err_0@ == spec_default_format(rec@.default_ann)->Err_0,
{
    match &rec.default_ann {
        None => Ok(OriginTag::JsonBody),
        Some(DefaultAnn::Bare) => Ok(OriginTag::JsonBody),
        Some(DefaultAnn::Word(w)) => validate_format(w.as_str()),
        Some(DefaultAnn::Malformed(t)) => Err(Rejection::UnsupportedOrigin(t.clone())),
    }
}

/// The lookup key one annotation argument contributes: the field's own name
/// for a bare annotation, the literal or rename for the keyed shapes,
/// nothing for an unusable argument.
pub open spec fn spec_ann_key(field_name: Seq<char>, arg: AnnArgV) -> Option<Seq<char>> {
    match arg {
        AnnArgV::Bare => Some(field_name),
        AnnArgV::Key(s) => Some(s),
        AnnArgV::Rename(s) => Some(s),
        AnnArgV::Other => None,
    }
}

/// The lookup key the first usable annotation of origin `o` contributes,
/// scanning the field's annotations in declaration order.
pub open spec fn spec_attr_key(anns: Seq<AnnotationV>, name: Seq<char>, o: OriginTag) -> Option<
    Seq<char>,
>
    decreases anns.len(),
{
    if anns.len() == 0 {
        None
    } else if spec_origin_of_word(anns[0].word) == Some(o) && spec_ann_key(name, anns[0].arg)
        is Some {
        spec_ann_key(name, anns[0].arg)
    } else {
        spec_attr_key(anns.skip(1), name, o)
    }
}

/// Finds the lookup key the field's first usable annotation of origin `o`
/// sets, if any.
pub fn get_attr_field_name(field: &FieldDecl, o: OriginTag) -> (r: Option<String>)
    ensures
        opt_str_view(r) == spec_attr_key(field@.anns, field@.name, o),
{
    let ghost annsv = field@.anns;
    let mut i: usize = 0;
    proof {
        assert(annsv.skip(0) =~= annsv);
    }
    while i < field.anns.len()
        invariant
            i <= field.anns.len(),
            annsv == field@.anns,
            annsv.len() == field.anns@.len(),
            spec_attr_key(annsv, field@.name, o) == spec_attr_key(
                annsv.skip(i as int),
                field@.name,
                o,
            ),
        decreases field.anns.len() - i,
    {
        proof {
            assert(annsv[i as int] == field.anns@[i as int]@);
            assert(annsv.skip(i as int)[0] == annsv[i as int]);
            assert(annsv.skip(i as int).skip(1) =~= annsv.skip(i + 1));
        }
        let ann = &field.anns[i];
        let matches_origin: bool = match origin_of_word(ann.word.as_str()) {
            Some(o2) => o2 == o,
            None => false,
        };
        if matches_origin {
            match &ann.arg {
                AnnArg::Bare => {
                    return Some(field.name.clone());
                },
                AnnArg::Key(s) => {
                    return Some(s.clone());
                },
                AnnArg::Rename(s) => {
                    return Some(s.clone());
                },
                AnnArg::Other => {},
            }
        }
        i = i + 1;
    }
    proof {
        assert(annsv.skip(field.anns@.len() as int).len() == 0);
    }
    None
}

/// The resolved origin and pre-rename lookup key of a field: the first
/// origin in priority order with a usable annotation wins; with none, the
/// record's default origin and the field's own name.
pub open spec fn spec_resolved(default: OriginTag, f: FieldDeclV) -> (OriginTag, Seq<char>) {
    if spec_attr_key(f.anns, f.name, OriginTag::Path) is Some {
        (OriginTag::Path, spec_attr_key(f.anns, f.name, OriginTag::Path)->0)
    } else if spec_attr_key(f.anns, f.name, OriginTag::Context) is Some {
        (OriginTag::Context, spec_attr_key(f.anns, f.name, OriginTag::Context)->0)
    } else if spec_attr_key(f.anns, f.name, OriginTag::Header) is Some {
        (OriginTag::Header, spec_attr_key(f.anns, f.name, OriginTag::Header)->0)
    } else if spec_attr_key(f.anns, f.name, OriginTag::Query) is Some {
        (OriginTag::Query, spec_attr_key(f.anns, f.name, OriginTag::Query)->0)
    } else if spec_attr_key(f.anns, f.name, OriginTag::JsonBody) is Some {
        (OriginTag::JsonBody, spec_attr_key(f.anns, f.name, OriginTag::JsonBody)->0)
    } else if spec_attr_key(f.anns, f.name, OriginTag::FormBody) is Some {
        (OriginTag::FormBody, spec_attr_key(f.anns, f.name, OriginTag::FormBody)->0)
    } else {
        (default, f.name)
    }
}

/// The full resolution of one field: origin and key from the priority scan,
/// the generic rename overriding the key where present, and the declared
/// type classified under the resolved origin.
pub open spec fn spec_resolve_field(default: OriginTag, f: FieldDeclV) -> FieldFormatV {
    let o = spec_resolved(default, f).0;
    let k = spec_resolved(default, f).1;
    let key = match f.generic_rename {
        Some(r) => r,
        None => k,
    };
    let c = spec_composite_type(spec_is_structural(o), f.ty);
    FieldFormatV {
        name: f.name,
        ty: f.ty,
        format: o,
        serde: f.generic_rename,
        rename: key,
        is_option: c.0,
        is_vec: c.1,
        scalar: c.2,
    }
}

/// Resolves one declared field to its descriptor.
pub fn get_field_name(default: OriginTag, field: &FieldDecl) -> (r: FieldFormat)
    ensures
        r@ == spec_resolve_field(default, field@),
{
    let scanned: (OriginTag, String) = if let Some(k) = get_attr_field_name(
        field,
        OriginTag::Path,
    ) {
        (OriginTag::Path, k)
    } else if let Some(k) = get_attr_field_name(field, OriginTag::Context) {
        (OriginTag::Context, k)
    } else if let Some(k) = get_attr_field_name(field, OriginTag::Header) {
        (OriginTag::Header, k)
    } else if let Some(k) = get_attr_field_name(field, OriginTag::Query) {
        (OriginTag::Query, k)
    } else if let Some(k) = get_attr_field_name(field, OriginTag::JsonBody) {
        (OriginTag::JsonBody, k)
    } else if let Some(k) = get_attr_field_name(field, OriginTag::FormBody) {
        (OriginTag::FormBody, k)
    } else {
        (default, field.name.clone())
    };
    let o = scanned.0;
    let key: String = match &field.generic_rename {
        Some(r) => r.clone(),
        None => scanned.1,
    };
    let c = composite_type(is_structural(o), &field.ty);
    FieldFormat {
        name: field.name.clone(),
        ty: field.ty,
        format: o,
        serde: field.generic_rename.clone(),
        rename: key,
        is_option: c.0,
        is_vec: c.1,
        scalar: c.2,
    }
}

/// Whether an origin is always available, independent of the body format:
/// path, context, header and query are; the two body origins are not.
pub open spec fn spec_always_available(o: OriginTag) -> bool {
    o == OriginTag::Path || o == OriginTag::Context || o == OriginTag::Header || o
        == OriginTag::Query
}

/// Whether an origin is always available, independent of the body format.
pub fn origin_always_available(o: OriginTag) -> (r: bool)
    ensures
        r == spec_always_available(o),
{
    match o {
        OriginTag::Path => true,
        OriginTag::Context => true,
        OriginTag::Header => true,
        OriginTag::Query => true,
        _ => false,
    }
}

/// Whether a resolved field conflicts with the record's default origin: its
/// origin is body-exclusive and differs from the default.
pub open spec fn spec_field_conflict(default: OriginTag, ff: FieldFormatV) -> bool {
    !spec_always_available(ff.format) && ff.format != default
}

/// What validating a resolved schema yields: the first conflicting field's
/// rejection, or success.
pub open spec fn spec_validate(default: OriginTag, ffs: Seq<FieldFormatV>) -> Result<
    (),
    RejectionV,
>
    decreases ffs.len(),
{
    if ffs.len() == 0 {
        Ok(())
    } else if spec_field_conflict(default, ffs[0]) {
        Err(
            RejectionV::ConflictingFieldOrigin {
                field: ffs[0].name,
                declared_default: default,
                field_origin: ffs[0].format,
            },
        )
    } else {
        spec_validate(default, ffs.skip(1))
    }
}

/// Validates a resolved schema against the record's default origin.
pub fn validate_origins(default: OriginTag, ffs: &Vec<FieldFormat>) -> (r: Result<(), Rejection>)
    ensures
        r is Ok <==> spec_validate(default, ffs@.map_values(|f: FieldFormat| f@)) is Ok,
        r is Err ==> r->Err_0@ == spec_validate(
            default,
            ffs@.map_values(|f: FieldFormat| f@),
        )->Err_0,
{
    let ghost ffsv = ffs@.map_values(|f: FieldFormat| f@);
    let mut i: usize = 0;
    proof {
        assert(ffsv.skip(0) =~= ffsv);
    }
    while i < ffs.len()
        invariant
            i <= ffs.len(),
            ffsv == ffs@.map_values(|f: FieldFormat| f@),
            ffsv.len() == ffs@.len(),
            spec_validate(default, ffsv) == spec_validate(default, ffsv.skip(i as int)),
        decreases ffs.len() - i,
    {
        proof {
            assert(ffsv[i as int] == ffs@[i as int]@);
            assert(ffsv.skip(i as int)[0] == ffsv[i as int]);
            assert(ffsv.skip(i as int).skip(1) =~= ffsv.skip(i + 1));
        }
        let ff = &ffs[i];
        if !origin_always_available(ff.format) && !(ff.format == default) {
            return Err(
                Rejection::ConflictingFieldOrigin {
                    field: ff.name.clone(),
                    declared_default: default,
                    field_origin: ff.format,
                },
            );
        }
        i = i + 1;
    }
    proof {
        assert(ffsv.skip(ffs@.len() as int).len() == 0);
    }
    Ok(())
}

/// The resolved descriptors of all fields, in declaration order.
pub open spec fn spec_build_fields(default: OriginTag, fs: Seq<FieldDeclV>) -> Seq<FieldFormatV> {
    fs.map_values(|f: FieldDeclV| spec_resolve_field(default, f))
}

/// What building the schema of a record yields: its default origin and the
/// validated field descriptors, or the first rejection.
pub open spec fn spec_schema(rec: RecordDeclV) -> Result<
    (OriginTag, Seq<FieldFormatV>),
    RejectionV,
> {
    match spec_default_format(rec.default_ann) {
        Err(e) => Err(e),
        Ok(d) => match spec_validate(d, spec_build_fields(d, rec.fields)) {
            Err(e) => Err(e),
            Ok(u) => Ok((d, spec_build_fields(d, rec.fields))),
        },
    }
}

/// Builds and validates the schema of a record declaration.
pub fn build_schema(rec: &RecordDecl) -> (r: Result<(OriginTag, Vec<FieldFormat>), Rejection>)
    ensures
        r is Ok <==> spec_schema(rec@) is Ok,
        r is Ok ==> r->Ok_0.0 == spec_schema(rec@)->Ok_0.0,
        r is Ok ==> r->Ok_0.1@.map_values(|f: FieldFormat| f@) == spec_schema(rec@)->Ok_0.1,
        r is Err ==> r->Err_0@ == spec_schema(rec@)->Err_0,
{
    let d = match get_default_format(rec) {
        Ok(d) => d,
        Err(e) => {
            return Err(e);
        },
    };
    let ghost target = spec_build_fields(d, rec@.fields);
    let mut out: Vec<FieldFormat> = Vec::new();
    let mut i: usize = 0;
    proof {
        assert(out@.map_values(|f: FieldFormat| f@) =~= target.take(0));
    }
    while i < rec.fields.len()
        invariant
            i <= rec.fields.len(),
            target == spec_build_fields(d, rec@.fields),
            target.len() == rec.fields@.len(),
            out@.map_values(|f: FieldFormat| f@) == target.take(i as int),
        decreases rec.fields.len() - i,
    {
        proof {
            assert(rec@.fields[i as int] == rec.fields@[i as int]@);
            assert(target[i as int] == spec_resolve_field(d, rec@.fields[i as int]));
        }
        let ff = get_field_name(d, &rec.fields[i]);
        let ghost outv_old = out@.map_values(|f: FieldFormat| f@);
        out.push(ff);
        proof {
            assert(out@.map_values(|f: FieldFormat| f@) =~= outv_old.push(ff@));
            assert(target.take(i + 1) =~= target.take(i as int).push(target[i as int]));
        }
        i = i + 1;
    }
    proof {
        assert(target.take(rec.fields@.len() as int) =~= target);
    }
    match validate_origins(d, &out) {
        Ok(u) => Ok((d, out)),
        Err(e) => Err(e),
    }
}

} // verus!
