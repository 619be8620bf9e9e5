//! Laws of the binding engine, stated and proved over the specification
//! functions that the executable functions' contracts use.

use crate::coerce::{
    spec_apply_raw, spec_default_val, spec_item_or_zero, spec_parse_list, spec_parse_scalar,
};
use crate::engine::spec_run_query;
use crate::plan::{spec_compile, spec_fields_of, spec_group_entry, spec_groups};
use crate::schema::{
    spec_attr_key, spec_build_fields, spec_default_format, spec_field_conflict, spec_origin_of_word,
    spec_resolve_field, spec_schema, spec_validate,
};
use crate::strutil::spec_split_commas;
use crate::types::{
    AnnotationV, FieldDeclV, FieldFormatV, FieldValV, OriginTag, RecordDeclV, RejectionV,
    ScalarTag, TypeDesc,
};
use vstd::prelude::*;

verus! {

/// A field with no recognized origin annotation contributes no lookup key
/// for any origin.
proof fn lemma_attr_key_none(anns: Seq<AnnotationV>, name: Seq<char>, o: OriginTag)
    requires
        forall|i: int| 0 <= i < anns.len() ==> spec_origin_of_word(#[trigger] anns[i].word) is None,
    ensures
        spec_attr_key(anns, name, o) is None,
    decreases anns.len(),
{
    if anns.len() > 0 {
        assert(spec_origin_of_word(anns[0].word) is None);
        assert(forall|i: int|
            0 <= i < anns.skip(1).len() ==> spec_origin_of_word(
                #[trigger] anns.skip(1)[i].word,
            ) is None);
        lemma_attr_key_none(anns.skip(1), name, o);
    }
}

/// A field with no explicit origin annotation and no generic rename
/// resolves to the record's declared default origin, and its lookup key is
/// its declared name.
pub proof fn lemma_default_origin(d: OriginTag, f: FieldDeclV)
    requires
        forall|i: int|
            0 <= i < f.anns.len() ==> spec_origin_of_word(#[trigger] f.anns[i].word) is None,
        f.generic_rename is None,
    ensures
        spec_resolve_field(d, f).format == d,
        spec_resolve_field(d, f).rename == f.name,
{
    lemma_attr_key_none(f.anns, f.name, OriginTag::Path);
    lemma_attr_key_none(f.anns, f.name, OriginTag::Context);
    lemma_attr_key_none(f.anns, f.name, OriginTag::Header);
    lemma_attr_key_none(f.anns, f.name, OriginTag::Query);
    lemma_attr_key_none(f.anns, f.name, OriginTag::JsonBody);
    lemma_attr_key_none(f.anns, f.name, OriginTag::FormBody);
}

/// Whatever origin wins the scan, an annotation without an argument
/// contributes the field's own name as the key.
proof fn lemma_attr_key_bare(anns: Seq<AnnotationV>, name: Seq<char>, o: OriginTag)
    requires
        forall|i: int| 0 <= i < anns.len() ==> #[trigger] anns[i].arg is Bare,
    ensures
        spec_attr_key(anns, name, o) is None || spec_attr_key(anns, name, o) == Some(name),
    decreases anns.len(),
{
    if anns.len() > 0 {
        assert(anns[0].arg is Bare);
        assert(forall|i: int|
            0 <= i < anns.skip(1).len() ==> #[trigger] anns.skip(1)[i].arg is Bare);
        lemma_attr_key_bare(anns.skip(1), name, o);
    }
}

/// A field whose explicit origin annotations carry no key and no rename,
/// and which has no generic rename, keeps its declared name as lookup key,
/// whichever origin wins.
pub proof fn lemma_bare_annotation_key(d: OriginTag, f: FieldDeclV)
    requires
        forall|i: int| 0 <= i < f.anns.len() ==> #[trigger] f.anns[i].arg is Bare,
        f.generic_rename is None,
    ensures
        spec_resolve_field(d, f).rename == f.name,
{
    lemma_attr_key_bare(f.anns, f.name, OriginTag::Path);
    lemma_attr_key_bare(f.anns, f.name, OriginTag::Context);
    lemma_attr_key_bare(f.anns, f.name, OriginTag::Header);
    lemma_attr_key_bare(f.anns, f.name, OriginTag::Query);
    lemma_attr_key_bare(f.anns, f.name, OriginTag::JsonBody);
    lemma_attr_key_bare(f.anns, f.name, OriginTag::FormBody);
}

/// An optional field's coercion: a present raw value that parses becomes
/// `Some(parsed)`, a present raw value that does not parse becomes `None`,
/// and the field's default — what an absent raw value leaves in place —
/// is `None` as well.
pub proof fn lemma_option_coercion(t: ScalarTag, raw: Seq<char>, cur: FieldValV)
    ensures
        spec_parse_scalar(t, raw) is Some ==> spec_apply_raw(TypeDesc::Opt(t), raw, cur)
            == FieldValV::OptScalar(Some(spec_parse_scalar(t, raw)->0)),
        spec_parse_scalar(t, raw) is None ==> spec_apply_raw(TypeDesc::Opt(t), raw, cur)
            == FieldValV::OptScalar(None),
        spec_default_val(TypeDesc::Opt(t)) == FieldValV::OptScalar(None),
{
}

/// A list field's coercion: the raw value splits on commas, every piece
/// yields exactly one item, an unparsable piece yields the scalar's zero
/// value, and the list length equals the number of pieces.  An optional
/// list becomes `Some` of the same items.
pub proof fn lemma_list_coercion(t: ScalarTag, raw: Seq<char>, cur: FieldValV)
    ensures
        spec_parse_list(t, raw).len() == spec_split_commas(raw).len(),
        forall|i: int|
            0 <= i < spec_split_commas(raw).len() ==> spec_parse_list(t, raw)[i]
                == spec_item_or_zero(t, #[trigger] spec_split_commas(raw)[i]),
        spec_apply_raw(TypeDesc::List(t), raw, cur) == FieldValV::List(spec_parse_list(t, raw)),
        spec_apply_raw(TypeDesc::OptList(t), raw, cur) == FieldValV::OptList(
            Some(spec_parse_list(t, raw)),
        ),
{
}

/// A schema holding a conflicting field is rejected.
proof fn lemma_validate_err(d: OriginTag, ffs: Seq<FieldFormatV>, k: int)
    requires
        0 <= k < ffs.len(),
        spec_field_conflict(d, ffs[k]),
    ensures
        spec_validate(d, ffs) is Err,
        spec_validate(d, ffs)->Err_0 is ConflictingFieldOrigin,
    decreases ffs.len(),
{
    if !spec_field_conflict(d, ffs[0]) {
        assert(k >= 1);
        assert(ffs.skip(1)[k - 1] == ffs[k]);
        lemma_validate_err(d, ffs.skip(1), k - 1);
    }
}

/// A record whose fields mix the JSON body origin and the form body origin
/// cannot be compiled: schema construction fails with a conflicting-field
/// rejection, whatever the record's default origin is.
pub proof fn lemma_mixed_body_origins(rec: RecordDeclV, i: int, j: int)
    requires
        spec_default_format(rec.default_ann) is Ok,
        ({
            let d = spec_default_format(rec.default_ann)->Ok_0;
            let ffs = spec_build_fields(d, rec.fields);
            &&& 0 <= i < ffs.len()
            &&& 0 <= j < ffs.len()
            &&& ffs[i].format == OriginTag::JsonBody
            &&& ffs[j].format == OriginTag::FormBody
        }),
    ensures
        spec_compile(rec) is Err,
        spec_compile(rec)->Err_0 is ConflictingFieldOrigin,
{
    let d = spec_default_format(rec.default_ann)->Ok_0;
    let ffs = spec_build_fields(d, rec.fields);
    if d == OriginTag::JsonBody {
        assert(spec_field_conflict(d, ffs[j]));
        lemma_validate_err(d, ffs, j);
    } else {
        assert(spec_field_conflict(d, ffs[i]));
        lemma_validate_err(d, ffs, i);
    }
    assert(spec_schema(rec) is Err);
}

/// An origin with a non-empty group has a field resolved to it.
proof fn lemma_fields_of_nonempty(ffs: Seq<FieldFormatV>, o: OriginTag)
    requires
        spec_fields_of(ffs, o).len() > 0,
    ensures
        exists|k: int| 0 <= k < ffs.len() && #[trigger] ffs[k].format == o,
    decreases ffs.len(),
{
    if ffs.len() > 0 {
        if ffs.last().format == o {
            assert(ffs[ffs.len() - 1].format == o);
        } else {
            lemma_fields_of_nonempty(ffs.drop_last(), o);
            let k = choose|k: int|
                0 <= k < ffs.drop_last().len() && #[trigger] ffs.drop_last()[k].format == o;
            assert(ffs[k].format == o);
        }
    }
}

/// A schema that validates has no conflicting field.
proof fn lemma_validate_ok(d: OriginTag, ffs: Seq<FieldFormatV>, k: int)
    requires
        spec_validate(d, ffs) is Ok,
        0 <= k < ffs.len(),
    ensures
        !spec_field_conflict(d, ffs[k]),
    decreases ffs.len(),
{
    if k > 0 {
        assert(ffs.skip(1)[k - 1] == ffs[k]);
        lemma_validate_ok(d, ffs.skip(1), k - 1);
    }
}

/// Every group of a plan holds the fields of its own origin, and holds at
/// least one.
proof fn lemma_group_shape(ffs: Seq<FieldFormatV>, i: int)
    requires
        0 <= i < spec_groups(ffs).len(),
    ensures
        spec_groups(ffs)[i].fields == spec_fields_of(ffs, spec_groups(ffs)[i].origin),
        spec_fields_of(ffs, spec_groups(ffs)[i].origin).len() > 0,
{
    let e1 = spec_group_entry(ffs, OriginTag::Path);
    let e2 = spec_group_entry(ffs, OriginTag::Context);
    let e3 = spec_group_entry(ffs, OriginTag::Header);
    let e4 = spec_group_entry(ffs, OriginTag::Query);
    let e5 = spec_group_entry(ffs, OriginTag::JsonBody);
    let e6 = spec_group_entry(ffs, OriginTag::FormBody);
    assert(spec_groups(ffs) == e1 + e2 + e3 + e4 + e5 + e6);
    let g = spec_groups(ffs)[i];
    if i < e1.len() {
        assert(g == e1[i]);
    } else if i < e1.len() + e2.len() {
        assert(g == e2[i - e1.len()]);
    } else if i < e1.len() + e2.len() + e3.len() {
        assert(g == e3[i - e1.len() - e2.len()]);
    } else if i < e1.len() + e2.len() + e3.len() + e4.len() {
        assert(g == e4[i - e1.len() - e2.len() - e3.len()]);
    } else if i < e1.len() + e2.len() + e3.len() + e4.len() + e5.len() {
        assert(g == e5[i - e1.len() - e2.len() - e3.len() - e4.len()]);
    } else {
        assert(g == e6[i - e1.len() - e2.len() - e3.len() - e4.len() - e5.len()]);
    }
}

/// A compiled plan never holds both body groups: at most one body-decoding
/// pass can execute per request, whatever the record declared.
pub proof fn lemma_single_body_pass(rec: RecordDeclV, i: int, j: int)
    requires
        spec_compile(rec) is Ok,
        ({
            let groups = spec_compile(rec)->Ok_0.groups;
            0 <= i < groups.len() && 0 <= j < groups.len()
        }),
    ensures
        !(spec_compile(rec)->Ok_0.groups[i].origin == OriginTag::JsonBody && spec_compile(
            rec,
        )->Ok_0.groups[j].origin == OriginTag::FormBody),
{
    let d = spec_schema(rec)->Ok_0.0;
    let ffs = spec_schema(rec)->Ok_0.1;
    let groups = spec_compile(rec)->Ok_0.groups;
    if groups[i].origin == OriginTag::JsonBody && groups[j].origin == OriginTag::FormBody {
        lemma_group_shape(ffs, i);
        lemma_group_shape(ffs, j);
        lemma_fields_of_nonempty(ffs, OriginTag::JsonBody);
        lemma_fields_of_nonempty(ffs, OriginTag::FormBody);
        let ki = choose|k: int| 0 <= k < ffs.len() && #[trigger] ffs[k].format
            == OriginTag::JsonBody;
        let kj = choose|k: int| 0 <= k < ffs.len() && #[trigger] ffs[k].format
            == OriginTag::FormBody;
        assert(spec_validate(d, ffs) is Ok);
        lemma_validate_ok(d, ffs, ki);
        lemma_validate_ok(d, ffs, kj);
    }
}

/// A request without a query string leaves every query-sourced field at
/// its zero-initialized value and raises no error: the query group is a
/// no-op on the record.
pub proof fn lemma_absent_query(
    fields: Seq<FieldFormatV>,
    rec: Seq<(Seq<char>, FieldValV)>,
)
    ensures
        spec_run_query(fields, None, rec) == rec,
{
}

} // verus!
