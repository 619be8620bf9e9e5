//! The execution engine: runs a compiled binding plan against the request
//! views, group by group in plan order, against a fresh default-initialized
//! record.
//!
//! Path and header groups parse flat strings field by field, best-effort.
//! The query group decodes the query string as url-encoded pairs; an absent
//! or undecodable query string is a no-op.  The JSON and form body groups
//! demand the matching content type and decode the body once; a decode
//! failure aborts the whole binding.  The context group copies ambient
//! values by scalar type.

use crate::coerce::{apply_raw, default_val, spec_apply_raw, spec_default_val};
use crate::ctype::{content_type_matches, spec_content_type_matches};
use crate::json::{apply_json, json_object, spec_apply_json, spec_json_obj};
use crate::lookup::{header_get, pairs_get, spec_header_get, spec_pairs_get};
use crate::strutil::str_eq;
use crate::types::{
    BindingPlan, BindingPlanV, BodyKind, FieldFormat, FieldFormatV, FieldVal, FieldValV,
    FormatGroup, FormatGroupV, OriginTag, Record, RecordV, Rejection, RejectionV, RequestViews,
    RequestViewsV, ScalarTag, ScalarVal, ScalarValV, TypeDesc, pairs_view,
};
use crate::urlenc::{spec_urlencoded, urlencoded_pairs};
use vstd::prelude::*;

verus! {

// ------------------------------------------------------------------
// The record and its operations
// ------------------------------------------------------------------

/// The default-initialized entries of one group's fields.
pub open spec fn spec_group_defaults(fields: Seq<FieldFormatV>) -> Seq<(Seq<char>, FieldValV)> {
    fields.map_values(|f: FieldFormatV| (f.name, spec_default_val(f.ty)))
}

/// The default-initialized record of a plan: each group's entries, in plan
/// order.
pub open spec fn spec_plan_defaults(groups: Seq<FormatGroupV>) -> Seq<(Seq<char>, FieldValV)>
    decreases groups.len(),
{
    if groups.len() == 0 {
        Seq::<(Seq<char>, FieldValV)>::empty()
    } else {
        spec_plan_defaults(groups.drop_last()) + spec_group_defaults(groups.last().fields)
    }
}

/// Builds the fresh default-initialized record of a plan.
pub fn record_defaults(plan: &BindingPlan) -> (r: Record)
    ensures
        r@.fields == spec_plan_defaults(plan@.groups),
{
    let ghost groupsv = plan@.groups;
    let mut fields: Vec<(String, FieldVal)> = Vec::new();
    let mut i: usize = 0;
    proof {
        assert(crate::types::rec_pairs_view(fields@) =~= spec_plan_defaults(
            groupsv.take(0),
        ));
    }
    while i < plan.groups.len()
        invariant
            i <= plan.groups.len(),
            groupsv == plan@.groups,
            groupsv.len() == plan.groups@.len(),
            crate::types::rec_pairs_view(fields@) == spec_plan_defaults(
                groupsv.take(i as int),
            ),
        decreases plan.groups.len() - i,
    {
        let g = &plan.groups[i];
        let ghost gfv = groupsv[i as int].fields;
        let mut j: usize = 0;
        proof {
            assert(groupsv[i as int] == plan.groups@[i as int]@);
            assert(spec_group_defaults(gfv).take(0) =~= Seq::<(Seq<char>, FieldValV)>::empty());
            assert(crate::types::rec_pairs_view(fields@) =~= spec_plan_defaults(
                groupsv.take(i as int),
            ) + spec_group_defaults(gfv).take(0));
        }
        while j < g.fields.len()
            invariant
                j <= g.fields.len(),
                groupsv == plan@.groups,
                gfv == groupsv[i as int].fields,
                0 <= i < groupsv.len(),
                gfv.len() == g.fields@.len(),
                gfv == g.fields@.map_values(|f: FieldFormat| f@),
                crate::types::rec_pairs_view(fields@) == spec_plan_defaults(
                    groupsv.take(i as int),
                ) + spec_group_defaults(gfv).take(j as int),
            decreases g.fields.len() - j,
        {
            proof {
                assert(gfv[j as int] == g.fields@[j as int]@);
                assert(spec_group_defaults(gfv)[j as int] == (gfv[j as int].name,
                spec_default_val(gfv[j as int].ty)));
            }
            let f = &g.fields[j];
            let v = default_val(f.ty);
            let ghost before = crate::types::rec_pairs_view(fields@);
            fields.push((f.name.clone(), v));
            proof {
                assert(crate::types::rec_pairs_view(fields@) =~= before.push(
                    (gfv[j as int].name, spec_default_val(gfv[j as int].ty)),
                ));
                assert(spec_group_defaults(gfv).take(j + 1) =~= spec_group_defaults(gfv).take(
                    j as int,
                ).push(spec_group_defaults(gfv)[j as int]));
                assert(spec_plan_defaults(groupsv.take(i as int)) + spec_group_defaults(
                    gfv,
                ).take(j + 1) =~= (spec_plan_defaults(groupsv.take(i as int))
                    + spec_group_defaults(gfv).take(j as int)).push(
                    spec_group_defaults(gfv)[j as int],
                ));
            }
            j = j + 1;
        }
        proof {
            assert(spec_group_defaults(gfv).take(g.fields@.len() as int) =~= spec_group_defaults(
                gfv,
            ));
            assert(groupsv.take(i + 1).drop_last() =~= groupsv.take(i as int));
            assert(groupsv.take(i + 1).last() == groupsv[i as int]);
        }
        i = i + 1;
    }
    proof {
        assert(groupsv.take(plan.groups@.len() as int) =~= groupsv);
    }
    Record { fields }
}

/// The first value stored under `name`, if any.
pub open spec fn spec_get_pairs(ps: Seq<(Seq<char>, FieldValV)>, name: Seq<char>) -> Option<
    FieldValV,
>
    decreases ps.len(),
{
    if ps.len() == 0 {
        None
    } else if ps[0].0 == name {
        Some(ps[0].1)
    } else {
        spec_get_pairs(ps.skip(1), name)
    }
}

/// Reads a field of the record by name, first match.
pub fn record_get<'a>(rec: &'a Record, name: &str) -> (r: Option<&'a FieldVal>)
    ensures
        (match r {
            Some(v) => Some(v@),
            None => None,
        }) == spec_get_pairs(rec@.fields, name@),
{
    let ghost psv = rec@.fields;
    let mut i: usize = 0;
    proof {
        assert(psv.skip(0) =~= psv);
    }
    while i < rec.fields.len()
        invariant
            i <= rec.fields.len(),
            psv == rec@.fields,
            psv.len() == rec.fields@.len(),
            spec_get_pairs(psv, name@) == spec_get_pairs(psv.skip(i as int), name@),
        decreases rec.fields.len() - i,
    {
        proof {
            assert(psv[i as int] == (rec.fields@[i as int].0@, rec.fields@[i as int].1@));
            assert(psv.skip(i as int)[0] == psv[i as int]);
            assert(psv.skip(i as int).skip(1) =~= psv.skip(i + 1));
        }
        if str_eq(rec.fields[i].0.as_str(), name) {
            return Some(&rec.fields[i].1);
        }
        i = i + 1;
    }
    proof {
        assert(psv.skip(rec.fields@.len() as int).len() == 0);
    }
    None
}

/// The record with the first field named `name` set to `val`; a record
/// without such a field is unchanged.
pub open spec fn spec_set_pairs(
    ps: Seq<(Seq<char>, FieldValV)>,
    name: Seq<char>,
    val: FieldValV,
) -> Seq<(Seq<char>, FieldValV)>
    decreases ps.len(),
{
    if ps.len() == 0 {
        ps
    } else if ps[0].0 == name {
        seq![(ps[0].0, val)] + ps.skip(1)
    } else {
        seq![ps[0]] + spec_set_pairs(ps.skip(1), name, val)
    }
}

/// Sets the first field named `name` to `val`.
pub fn record_set(rec: Record, name: &str, val: FieldVal) -> (r: Record)
    ensures
        r@.fields == spec_set_pairs(rec@.fields, name@, val@),
{
    let ghost origv = rec@.fields;
    let mut fields = rec.fields;
    let mut i: usize = 0;
    proof {
        assert(origv.skip(0) =~= origv);
        assert(origv.take(0) + spec_set_pairs(origv.skip(0), name@, val@) =~= spec_set_pairs(
            origv,
            name@,
            val@,
        ));
    }
    while i < fields.len()
        invariant
            i <= fields.len(),
            origv == rec@.fields,
            origv == crate::types::rec_pairs_view(fields@),
            origv.len() == fields@.len(),
            spec_set_pairs(origv, name@, val@) == origv.take(i as int) + spec_set_pairs(
                origv.skip(i as int),
                name@,
                val@,
            ),
        decreases fields.len() - i,
    {
        proof {
            assert(origv[i as int] == (fields@[i as int].0@, fields@[i as int].1@));
            assert(origv.skip(i as int)[0] == origv[i as int]);
            assert(origv.skip(i as int).skip(1) =~= origv.skip(i + 1));
        }
        if str_eq(fields[i].0.as_str(), name) {
            let k = fields[i].0.clone();
            let ghost valv = val@;
            fields[i] = (k, val);
            proof {
                assert(spec_set_pairs(origv.skip(i as int), name@, valv) == seq![
                    (origv[i as int].0, valv),
                ] + origv.skip(i + 1));
                assert(crate::types::rec_pairs_view(fields@) =~= origv.take(
                    i as int,
                ) + spec_set_pairs(origv.skip(i as int), name@, valv));
            }
            return Record { fields };
        }
        proof {
            assert(origv.take(i + 1) =~= origv.take(i as int).push(origv[i as int]));
            assert(origv.take(i as int) + (seq![origv[i as int]] + spec_set_pairs(
                origv.skip(i + 1),
                name@,
                val@,
            )) =~= origv.take(i + 1) + spec_set_pairs(origv.skip(i + 1), name@, val@));
        }
        i = i + 1;
    }
    proof {
        assert(origv.skip(fields@.len() as int).len() == 0);
        assert(origv.take(fields@.len() as int) =~= origv);
        assert(origv.take(fields@.len() as int) + spec_set_pairs(
            origv.skip(fields@.len() as int),
            name@,
            val@,
        ) =~= origv);
    }
    Record { fields }
}

// ------------------------------------------------------------------
// Applying one raw value to one field of the record
// ------------------------------------------------------------------

/// The record after a raw string is applied to field `f`: its current
/// value coerced per [`spec_apply_raw`]; a record without the field is
/// unchanged.
pub open spec fn spec_apply_to_field(
    f: FieldFormatV,
    raw: Seq<char>,
    rec: Seq<(Seq<char>, FieldValV)>,
) -> Seq<(Seq<char>, FieldValV)> {
    match spec_get_pairs(rec, f.name) {
        None => rec,
        Some(cur) => spec_set_pairs(rec, f.name, spec_apply_raw(f.ty, raw, cur)),
    }
}

/// Applies one raw string to field `f` of the record.
fn apply_to_field(f: &FieldFormat, raw: &str, rec: Record) -> (r: Record)
    ensures
        r@.fields == spec_apply_to_field(f@, raw@, rec@.fields),
{
    let cur: FieldVal = match record_get(&rec, f.name.as_str()) {
        None => {
            return rec;
        },
        Some(c) => c.clone(),
    };
    let v = apply_raw(f.ty, raw, cur);
    record_set(rec, f.name.as_str(), v)
}


// ------------------------------------------------------------------
// Path group
// ------------------------------------------------------------------

/// The first field of the group whose lookup key is `key`, if any.
pub open spec fn spec_field_for_key(fields: Seq<FieldFormatV>, key: Seq<char>) -> Option<
    FieldFormatV,
>
    decreases fields.len(),
{
    if fields.len() == 0 {
        None
    } else if fields[0].rename == key {
        Some(fields[0])
    } else {
        spec_field_for_key(fields.skip(1), key)
    }
}

/// Finds the first field of the group whose lookup key is `key`.
fn field_for_key<'a>(fields: &'a Vec<FieldFormat>, key: &str) -> (r: Option<&'a FieldFormat>)
    ensures
        (match r {
            Some(f) => Some(f@),
            None => None,
        }) == spec_field_for_key(fields@.map_values(|f: FieldFormat| f@), key@),
{
    let ghost fsv = fields@.map_values(|f: FieldFormat| f@);
    let mut i: usize = 0;
    proof {
        assert(fsv.skip(0) =~= fsv);
    }
    while i < fields.len()
        invariant
            i <= fields.len(),
            fsv == fields@.map_values(|f: FieldFormat| f@),
            fsv.len() == fields@.len(),
            spec_field_for_key(fsv, key@) == spec_field_for_key(fsv.skip(i as int), key@),
        decreases fields.len() - i,
    {
        proof {
            assert(fsv[i as int] == fields@[i as int]@);
            assert(fsv.skip(i as int)[0] == fsv[i as int]);
            assert(fsv.skip(i as int).skip(1) =~= fsv.skip(i + 1));
        }
        if str_eq(fields[i].rename.as_str(), key) {
            return Some(&fields[i]);
        }
        i = i + 1;
    }
    proof {
        assert(fsv.skip(fields@.len() as int).len() == 0);
    }
    None
}

/// The record after one path parameter is consumed: the first field whose
/// lookup key matches the parameter's name takes its value; a parameter no
/// field asks for is ignored.
pub open spec fn spec_path_param(
    fields: Seq<FieldFormatV>,
    p: (Seq<char>, Seq<char>),
    rec: Seq<(Seq<char>, FieldValV)>,
) -> Seq<(Seq<char>, FieldValV)> {
    match spec_field_for_key(fields, p.0) {
        None => rec,
        Some(f) => spec_apply_to_field(f, p.1, rec),
    }
}

/// The record after the path group runs: the path parameters are consumed
/// in order, a later parameter of the same name overwriting an earlier one.
pub open spec fn spec_run_path(
    fields: Seq<FieldFormatV>,
    params: Seq<(Seq<char>, Seq<char>)>,
    rec: Seq<(Seq<char>, FieldValV)>,
) -> Seq<(Seq<char>, FieldValV)>
    decreases params.len(),
{
    if params.len() == 0 {
        rec
    } else {
        spec_path_param(fields, params.last(), spec_run_path(fields, params.drop_last(), rec))
    }
}

/// Runs the path group: looks each path parameter up among the group's
/// lookup keys and applies it, best-effort.
pub fn run_path_group(
    fields: &Vec<FieldFormat>,
    params: &Vec<(String, String)>,
    rec: Record,
) -> (r: Record)
    ensures
        r@.fields == spec_run_path(
            fields@.map_values(|f: FieldFormat| f@),
            pairs_view(params@),
            rec@.fields,
        ),
{
    let ghost fsv = fields@.map_values(|f: FieldFormat| f@);
    let ghost psv = pairs_view(params@);
    let ghost rec0 = rec@.fields;
    let mut cur = rec;
    let mut i: usize = 0;
    proof {
        assert(psv.take(0).len() == 0);
    }
    while i < params.len()
        invariant
            i <= params.len(),
            fsv == fields@.map_values(|f: FieldFormat| f@),
            psv == pairs_view(params@),
            psv.len() == params@.len(),
            cur@.fields == spec_run_path(fsv, psv.take(i as int), rec0),
        decreases params.len() - i,
    {
        proof {
            assert(psv[i as int] == (params@[i as int].0@, params@[i as int].1@));
            assert(psv.take(i + 1).drop_last() =~= psv.take(i as int));
            assert(psv.take(i + 1).last() == psv[i as int]);
        }
        let p = &params[i];
        match field_for_key(fields, p.0.as_str()) {
            None => {},
            Some(f) => {
                cur = apply_to_field(f, p.1.as_str(), cur);
            },
        }
        i = i + 1;
    }
    proof {
        assert(psv.take(params@.len() as int) =~= psv);
    }
    cur
}

// ------------------------------------------------------------------
// Header group
// ------------------------------------------------------------------

/// The record after the header group runs: each field in declaration order
/// takes the first header matching its lookup key case-insensitively, where
/// one is present.
pub open spec fn spec_run_header(
    fields: Seq<FieldFormatV>,
    hs: Seq<(Seq<char>, Seq<char>)>,
    rec: Seq<(Seq<char>, FieldValV)>,
) -> Seq<(Seq<char>, FieldValV)>
    decreases fields.len(),
{
    if fields.len() == 0 {
        rec
    } else {
        let prev = spec_run_header(fields.drop_last(), hs, rec);
        match spec_header_get(hs, fields.last().rename) {
            None => prev,
            Some(raw) => spec_apply_to_field(fields.last(), raw, prev),
        }
    }
}

/// Runs the header group.
pub fn run_header_group(
    fields: &Vec<FieldFormat>,
    headers: &Vec<(String, String)>,
    rec: Record,
) -> (r: Record)
    ensures
        r@.fields == spec_run_header(
            fields@.map_values(|f: FieldFormat| f@),
            pairs_view(headers@),
            rec@.fields,
        ),
{
    let ghost fsv = fields@.map_values(|f: FieldFormat| f@);
    let ghost hv = pairs_view(headers@);
    let ghost rec0 = rec@.fields;
    let mut cur = rec;
    let mut i: usize = 0;
    proof {
        assert(fsv.take(0).len() == 0);
    }
    while i < fields.len()
        invariant
            i <= fields.len(),
            fsv == fields@.map_values(|f: FieldFormat| f@),
            hv == pairs_view(headers@),
            fsv.len() == fields@.len(),
            cur@.fields == spec_run_header(fsv.take(i as int), hv, rec0),
        decreases fields.len() - i,
    {
        proof {
            assert(fsv[i as int] == fields@[i as int]@);
            assert(fsv.take(i + 1).drop_last() =~= fsv.take(i as int));
            assert(fsv.take(i + 1).last() == fsv[i as int]);
        }
        let f = &fields[i];
        match header_get(headers, f.rename.as_str()) {
            None => {},
            Some(raw) => {
                let raw_owned = raw.clone();
                cur = apply_to_field(f, raw_owned.as_str(), cur);
            },
        }
        i = i + 1;
    }
    proof {
        assert(fsv.take(fields@.len() as int) =~= fsv);
    }
    cur
}

// ------------------------------------------------------------------
// Decoded pairs (query string and form body)
// ------------------------------------------------------------------

/// The record after one field takes its value from decoded pairs: the
/// first pair matching the lookup key exactly, where one is present.
pub open spec fn spec_pairs_field(
    ps: Seq<(Seq<char>, Seq<char>)>,
    f: FieldFormatV,
    rec: Seq<(Seq<char>, FieldValV)>,
) -> Seq<(Seq<char>, FieldValV)> {
    match spec_pairs_get(ps, f.rename) {
        None => rec,
        Some(raw) => spec_apply_to_field(f, raw, rec),
    }
}

/// The record after every field of the group takes its value from decoded
/// pairs, in declaration order.
pub open spec fn spec_apply_pairs(
    fields: Seq<FieldFormatV>,
    ps: Seq<(Seq<char>, Seq<char>)>,
    rec: Seq<(Seq<char>, FieldValV)>,
) -> Seq<(Seq<char>, FieldValV)>
    decreases fields.len(),
{
    if fields.len() == 0 {
        rec
    } else {
        spec_pairs_field(ps, fields.last(), spec_apply_pairs(fields.drop_last(), ps, rec))
    }
}

/// Applies decoded pairs to every field of the group.
fn apply_pairs_fields(
    fields: &Vec<FieldFormat>,
    ps: &Vec<(String, String)>,
    rec: Record,
) -> (r: Record)
    ensures
        r@.fields == spec_apply_pairs(
            fields@.map_values(|f: FieldFormat| f@),
            pairs_view(ps@),
            rec@.fields,
        ),
{
    let ghost fsv = fields@.map_values(|f: FieldFormat| f@);
    let ghost pv = pairs_view(ps@);
    let ghost rec0 = rec@.fields;
    let mut cur = rec;
    let mut i: usize = 0;
    proof {
        assert(fsv.take(0).len() == 0);
    }
    while i < fields.len()
        invariant
            i <= fields.len(),
            fsv == fields@.map_values(|f: FieldFormat| f@),
            pv == pairs_view(ps@),
            fsv.len() == fields@.len(),
            cur@.fields == spec_apply_pairs(fsv.take(i as int), pv, rec0),
        decreases fields.len() - i,
    {
        proof {
            assert(fsv[i as int] == fields@[i as int]@);
            assert(fsv.take(i + 1).drop_last() =~= fsv.take(i as int));
            assert(fsv.take(i + 1).last() == fsv[i as int]);
        }
        let f = &fields[i];
        match pairs_get(ps, f.rename.as_str()) {
            None => {},
            Some(raw) => {
                let raw_owned = raw.clone();
                cur = apply_to_field(f, raw_owned.as_str(), cur);
            },
        }
        i = i + 1;
    }
    proof {
        assert(fsv.take(fields@.len() as int) =~= fsv);
    }
    cur
}

/// The record after the query group runs: an absent query string is a
/// no-op; a query string the codec rejects is a no-op as well; otherwise
/// every field of the group takes its value from the decoded pairs.
pub open spec fn spec_run_query(
    fields: Seq<FieldFormatV>,
    q: Option<Seq<char>>,
    rec: Seq<(Seq<char>, FieldValV)>,
) -> Seq<(Seq<char>, FieldValV)> {
    match q {
        None => rec,
        Some(qs) => match spec_urlencoded(vstd::utf8::encode_utf8(qs)) {
            None => rec,
            Some(ps) => spec_apply_pairs(fields, ps, rec),
        },
    }
}

/// Runs the query group.
pub fn run_query_group(
    fields: &Vec<FieldFormat>,
    query: &Option<String>,
    rec: Record,
) -> (r: Record)
    ensures
        r@.fields == spec_run_query(
            fields@.map_values(|f: FieldFormat| f@),
            crate::types::opt_str_view(*query),
            rec@.fields,
        ),
{
    match query {
        None => rec,
        Some(q) => {
            match urlencoded_pairs(q.as_str().as_bytes()) {
                Err(m) => rec,
                Ok(ps) => apply_pairs_fields(fields, &ps, rec),
            }
        },
    }
}

// ------------------------------------------------------------------
// JSON body group
// ------------------------------------------------------------------

/// Finds the entry of a decoded JSON object by key; `m` is the map the
/// pairs were read from.
fn jpairs_get<'a>(
    ps: &'a Vec<(String, sonic_rs::Value)>,
    key: &str,
    Ghost(m): Ghost<Map<Seq<char>, sonic_rs::Value>>,
) -> (r: Option<&'a sonic_rs::Value>)
    requires
        forall|i: int|
            0 <= i < ps@.len() ==> m.contains_key(#[trigger] ps@[i].0@) && ps@[i].1 == m[ps@[i].0@],
        forall|k: Seq<char>|
            m.contains_key(k) ==> exists|i: int| 0 <= i < ps@.len() && #[trigger] ps@[i].0@ == k,
    ensures
        r is Some <==> m.contains_key(key@),
        r is Some ==> *r->0 == m[key@],
{
    let mut i: usize = 0;
    while i < ps.len()
        invariant
            i <= ps.len(),
            forall|j: int| 0 <= j < i ==> #[trigger] ps@[j].0@ != key@,
            forall|j: int|
                0 <= j < ps@.len() ==> m.contains_key(#[trigger] ps@[j].0@) && ps@[j].1
                    == m[ps@[j].0@],
            forall|k: Seq<char>|
                m.contains_key(k) ==> exists|j: int| 0 <= j < ps@.len() && #[trigger] ps@[j].0@
                    == k,
        decreases ps.len() - i,
    {
        if str_eq(ps[i].0.as_str(), key) {
            return Some(&ps[i].1);
        }
        i = i + 1;
    }
    proof {
        if m.contains_key(key@) {
            let j = choose|j: int| 0 <= j < ps@.len() && ps@[j].0@ == key@;
            assert(ps@[j].0@ != key@);
        }
    }
    None
}

/// The record after one field takes its value from the decoded JSON
/// object: the entry under its lookup key, where the object has one.
pub open spec fn spec_json_field(
    m: Map<Seq<char>, sonic_rs::Value>,
    f: FieldFormatV,
    rec: Seq<(Seq<char>, FieldValV)>,
) -> Seq<(Seq<char>, FieldValV)> {
    if m.contains_key(f.rename) {
        match spec_get_pairs(rec, f.name) {
            None => rec,
            Some(cur) => spec_set_pairs(rec, f.name, spec_apply_json(f.ty, m[f.rename], cur)),
        }
    } else {
        rec
    }
}

/// The record after every field of the group takes its value from the
/// decoded JSON object, in declaration order.
pub open spec fn spec_apply_json_fields(
    fields: Seq<FieldFormatV>,
    m: Map<Seq<char>, sonic_rs::Value>,
    rec: Seq<(Seq<char>, FieldValV)>,
) -> Seq<(Seq<char>, FieldValV)>
    decreases fields.len(),
{
    if fields.len() == 0 {
        rec
    } else {
        spec_json_field(m, fields.last(), spec_apply_json_fields(fields.drop_last(), m, rec))
    }
}

/// What running the JSON body group yields: a content type other than
/// `application/json` (or `+json`) is a content-type mismatch; a body that
/// is not a JSON object is a JSON decode error; otherwise each field takes
/// its entry from the object.
pub open spec fn spec_run_json(
    fields: Seq<FieldFormatV>,
    hs: Seq<(Seq<char>, Seq<char>)>,
    body: Seq<u8>,
    rec: Seq<(Seq<char>, FieldValV)>,
) -> Result<Seq<(Seq<char>, FieldValV)>, RejectionV> {
    if !spec_content_type_matches(hs, "application"@, "json"@) {
        Err(RejectionV::ContentTypeMismatch)
    } else {
        match spec_json_obj(body) {
            None => Err(RejectionV::BodyDecodeError(BodyKind::Json)),
            Some(m) => Ok(spec_apply_json_fields(fields, m, rec)),
        }
    }
}

/// Runs the JSON body group.
pub fn run_json_group(
    fields: &Vec<FieldFormat>,
    headers: &Vec<(String, String)>,
    body: &Vec<u8>,
    rec: Record,
) -> (r: Result<Record, Rejection>)
    ensures
        ({
            let s = spec_run_json(
                fields@.map_values(|f: FieldFormat| f@),
                pairs_view(headers@),
                body@,
                rec@.fields,
            );
            &&& r is Ok <==> s is Ok
            &&& r is Ok ==> r->Ok_0@.fields == s->Ok_0
            &&& r is Err ==> r->Err_0@ == s->Err_0
        }),
{
    if !content_type_matches(headers, "application", "json") {
        return Err(Rejection::ContentTypeMismatch);
    }
    let ps = match json_object(body.as_slice()) {
        Err(msg) => {
            return Err(Rejection::BodyDecodeError(BodyKind::Json, msg));
        },
        Ok(ps) => ps,
    };
    let ghost m = spec_json_obj(body@)->0;
    let ghost fsv = fields@.map_values(|f: FieldFormat| f@);
    let ghost rec0 = rec@.fields;
    let mut cur = rec;
    let mut i: usize = 0;
    proof {
        assert(fsv.take(0).len() == 0);
    }
    while i < fields.len()
        invariant
            i <= fields.len(),
            fsv == fields@.map_values(|f: FieldFormat| f@),
            fsv.len() == fields@.len(),
            forall|j: int|
                0 <= j < ps@.len() ==> m.contains_key(#[trigger] ps@[j].0@) && ps@[j].1
                    == m[ps@[j].0@],
            forall|k: Seq<char>|
                m.contains_key(k) ==> exists|j: int| 0 <= j < ps@.len() && #[trigger] ps@[j].0@
                    == k,
            cur@.fields == spec_apply_json_fields(fsv.take(i as int), m, rec0),
        decreases fields.len() - i,
    {
        proof {
            assert(fsv[i as int] == fields@[i as int]@);
            assert(fsv.take(i + 1).drop_last() =~= fsv.take(i as int));
            assert(fsv.take(i + 1).last() == fsv[i as int]);
        }
        let f = &fields[i];
        match jpairs_get(&ps, f.rename.as_str(), Ghost(m)) {
            None => {},
            Some(v) => {
                let cur_val: FieldVal = match record_get(&cur, f.name.as_str()) {
                    None => {
                        proof {
                            assert(spec_json_field(m, fsv[i as int], cur@.fields) == cur@.fields);
                        }
                        i = i + 1;
                        continue;
                    },
                    Some(c) => c.clone(),
                };
                let nv = apply_json(f.ty, v, cur_val);
                cur = record_set(cur, f.name.as_str(), nv);
            },
        }
        i = i + 1;
    }
    proof {
        assert(fsv.take(fields@.len() as int) =~= fsv);
    }
    Ok(cur)
}

// ------------------------------------------------------------------
// Form body group
// ------------------------------------------------------------------

/// What running the form body group yields: a content type other than
/// `application/x-www-form-urlencoded` (or a `+x-www-form-urlencoded`
/// suffix) is a content-type mismatch; a body the codec rejects is a form
/// decode error; otherwise each field takes its value from the decoded
/// pairs.
pub open spec fn spec_run_form(
    fields: Seq<FieldFormatV>,
    hs: Seq<(Seq<char>, Seq<char>)>,
    body: Seq<u8>,
    rec: Seq<(Seq<char>, FieldValV)>,
) -> Result<Seq<(Seq<char>, FieldValV)>, RejectionV> {
    if !spec_content_type_matches(hs, "application"@, "x-www-form-urlencoded"@) {
        Err(RejectionV::ContentTypeMismatch)
    } else {
        match spec_urlencoded(body) {
            None => Err(RejectionV::BodyDecodeError(BodyKind::Form)),
            Some(ps) => Ok(spec_apply_pairs(fields, ps, rec)),
        }
    }
}

/// Runs the form body group.
pub fn run_form_group(
    fields: &Vec<FieldFormat>,
    headers: &Vec<(String, String)>,
    body: &Vec<u8>,
    rec: Record,
) -> (r: Result<Record, Rejection>)
    ensures
        ({
            let s = spec_run_form(
                fields@.map_values(|f: FieldFormat| f@),
                pairs_view(headers@),
                body@,
                rec@.fields,
            );
            &&& r is Ok <==> s is Ok
            &&& r is Ok ==> r->Ok_0@.fields == s->Ok_0
            &&& r is Err ==> r->Err_0@ == s->Err_0
        }),
{
    if !content_type_matches(headers, "application", "x-www-form-urlencoded") {
        return Err(Rejection::ContentTypeMismatch);
    }
    match urlencoded_pairs(body.as_slice()) {
        Err(msg) => Err(Rejection::BodyDecodeError(BodyKind::Form, msg)),
        Ok(ps) => Ok(apply_pairs_fields(fields, &ps, rec)),
    }
}

// ------------------------------------------------------------------
// Context group
// ------------------------------------------------------------------

/// The scalar type of a context value.
pub open spec fn spec_tag_of(v: ScalarValV) -> ScalarTag {
    match v {
        ScalarValV::I64(_) => ScalarTag::I64,
        ScalarValV::U64(_) => ScalarTag::U64,
        ScalarValV::Bool(_) => ScalarTag::Bool,
        ScalarValV::Str(_) => ScalarTag::Str,
    }
}

/// The first context value of scalar type `t`, if any: the context bag is
/// consulted by type, not by name.
pub open spec fn spec_ctx_get(ctx: Seq<ScalarValV>, t: ScalarTag) -> Option<ScalarValV>
    decreases ctx.len(),
{
    if ctx.len() == 0 {
        None
    } else if spec_tag_of(ctx[0]) == t {
        Some(ctx[0])
    } else {
        spec_ctx_get(ctx.skip(1), t)
    }
}

/// The scalar type of a context value.
fn tag_of(v: &ScalarVal) -> (r: ScalarTag)
    ensures
        r == spec_tag_of(v@),
{
    match v {
        ScalarVal::I64(_) => ScalarTag::I64,
        ScalarVal::U64(_) => ScalarTag::U64,
        ScalarVal::Bool(_) => ScalarTag::Bool,
        ScalarVal::Str(_) => ScalarTag::Str,
    }
}

/// Finds the first context value of scalar type `t`.
fn ctx_get<'a>(ctx: &'a Vec<ScalarVal>, t: ScalarTag) -> (r: Option<&'a ScalarVal>)
    ensures
        (match r {
            Some(v) => Some(v@),
            None => None,
        }) == spec_ctx_get(crate::types::scalars_view(ctx@), t),
{
    let ghost cv = crate::types::scalars_view(ctx@);
    let mut i: usize = 0;
    proof {
        assert(cv.skip(0) =~= cv);
    }
    while i < ctx.len()
        invariant
            i <= ctx.len(),
            cv == crate::types::scalars_view(ctx@),
            cv.len() == ctx@.len(),
            spec_ctx_get(cv, t) == spec_ctx_get(cv.skip(i as int), t),
        decreases ctx.len() - i,
    {
        proof {
            assert(cv[i as int] == ctx@[i as int]@);
            assert(cv.skip(i as int)[0] == cv[i as int]);
            assert(cv.skip(i as int).skip(1) =~= cv.skip(i + 1));
        }
        if tag_of(&ctx[i]) == t {
            return Some(&ctx[i]);
        }
        i = i + 1;
    }
    proof {
        assert(cv.skip(ctx@.len() as int).len() == 0);
    }
    None
}

/// The record after one field takes its value from the context bag: a
/// plain-scalar field copies the first context value of its scalar type;
/// fields of other shapes, and fields whose type has no context value, are
/// left as they are.
pub open spec fn spec_ctx_field(
    ctx: Seq<ScalarValV>,
    f: FieldFormatV,
    rec: Seq<(Seq<char>, FieldValV)>,
) -> Seq<(Seq<char>, FieldValV)> {
    match f.ty {
        TypeDesc::Scalar(t) => match spec_ctx_get(ctx, t) {
            Some(v) => spec_set_pairs(rec, f.name, FieldValV::Scalar(v)),
            None => rec,
        },
        _ => rec,
    }
}

/// The record after the context group runs, field by field in declaration
/// order.
pub open spec fn spec_run_context(
    fields: Seq<FieldFormatV>,
    ctx: Seq<ScalarValV>,
    rec: Seq<(Seq<char>, FieldValV)>,
) -> Seq<(Seq<char>, FieldValV)>
    decreases fields.len(),
{
    if fields.len() == 0 {
        rec
    } else {
        spec_ctx_field(ctx, fields.last(), spec_run_context(fields.drop_last(), ctx, rec))
    }
}

/// Runs the context group.
pub fn run_context_group(fields: &Vec<FieldFormat>, ctx: &Vec<ScalarVal>, rec: Record) -> (r:
    Record)
    ensures
        r@.fields == spec_run_context(
            fields@.map_values(|f: FieldFormat| f@),
            crate::types::scalars_view(ctx@),
            rec@.fields,
        ),
{
    let ghost fsv = fields@.map_values(|f: FieldFormat| f@);
    let ghost cv = crate::types::scalars_view(ctx@);
    let ghost rec0 = rec@.fields;
    let mut cur = rec;
    let mut i: usize = 0;
    proof {
        assert(fsv.take(0).len() == 0);
    }
    while i < fields.len()
        invariant
            i <= fields.len(),
            fsv == fields@.map_values(|f: FieldFormat| f@),
            cv == crate::types::scalars_view(ctx@),
            fsv.len() == fields@.len(),
            cur@.fields == spec_run_context(fsv.take(i as int), cv, rec0),
        decreases fields.len() - i,
    {
        proof {
            assert(fsv[i as int] == fields@[i as int]@);
            assert(fsv.take(i + 1).drop_last() =~= fsv.take(i as int));
            assert(fsv.take(i + 1).last() == fsv[i as int]);
        }
        let f = &fields[i];
        match f.ty {
            TypeDesc::Scalar(t) => {
                match ctx_get(ctx, t) {
                    Some(v) => {
                        let copied = v.clone();
                        cur = record_set(cur, f.name.as_str(), FieldVal::Scalar(copied));
                    },
                    None => {},
                }
            },
            _ => {},
        }
        i = i + 1;
    }
    proof {
        assert(fsv.take(fields@.len() as int) =~= fsv);
    }
    cur
}

// ------------------------------------------------------------------
// The whole plan
// ------------------------------------------------------------------

/// What running one group against the request yields.
pub open spec fn spec_run_group(
    g: FormatGroupV,
    req: RequestViewsV,
    rec: Seq<(Seq<char>, FieldValV)>,
) -> Result<Seq<(Seq<char>, FieldValV)>, RejectionV> {
    match g.origin {
        OriginTag::Path => Ok(spec_run_path(g.fields, req.path_params, rec)),
        OriginTag::Context => Ok(spec_run_context(g.fields, req.context, rec)),
        OriginTag::Header => Ok(spec_run_header(g.fields, req.headers, rec)),
        OriginTag::Query => Ok(spec_run_query(g.fields, req.query, rec)),
        OriginTag::JsonBody => spec_run_json(g.fields, req.headers, req.body, rec),
        OriginTag::FormBody => spec_run_form(g.fields, req.headers, req.body, rec),
    }
}

/// Runs one group against the request.
fn run_group(g: &FormatGroup, req: &RequestViews, rec: Record) -> (r: Result<Record, Rejection>)
    ensures
        ({
            let s = spec_run_group(g@, req@, rec@.fields);
            &&& r is Ok <==> s is Ok
            &&& r is Ok ==> r->Ok_0@.fields == s->Ok_0
            &&& r is Err ==> r->Err_0@ == s->Err_0
        }),
{
    match g.origin {
        OriginTag::Path => Ok(run_path_group(&g.fields, &req.path_params, rec)),
        OriginTag::Context => Ok(run_context_group(&g.fields, &req.context, rec)),
        OriginTag::Header => Ok(run_header_group(&g.fields, &req.headers, rec)),
        OriginTag::Query => Ok(run_query_group(&g.fields, &req.query, rec)),
        OriginTag::JsonBody => run_json_group(&g.fields, &req.headers, &req.body, rec),
        OriginTag::FormBody => run_form_group(&g.fields, &req.headers, &req.body, rec),
    }
}

/// What running a sequence of groups yields, strictly in order, each
/// transition unconditional, the first rejection aborting the rest.
pub open spec fn spec_bind_groups(
    groups: Seq<FormatGroupV>,
    req: RequestViewsV,
    rec: Seq<(Seq<char>, FieldValV)>,
) -> Result<Seq<(Seq<char>, FieldValV)>, RejectionV>
    decreases groups.len(),
{
    if groups.len() == 0 {
        Ok(rec)
    } else {
        match spec_run_group(groups[0], req, rec) {
            Err(e) => Err(e),
            Ok(rec2) => spec_bind_groups(groups.skip(1), req, rec2),
        }
    }
}

/// What binding a request against a compiled plan yields: the plan's
/// groups run in order against the fresh default-initialized record.
pub open spec fn spec_bind(plan: BindingPlanV, req: RequestViewsV) -> Result<
    Seq<(Seq<char>, FieldValV)>,
    RejectionV,
> {
    spec_bind_groups(plan.groups, req, spec_plan_defaults(plan.groups))
}

/// Binds a request against a compiled plan: allocates a fresh
/// default-initialized record and runs each group in plan order.  The plan
/// is only read; nothing is shared between executions.
pub fn bind(plan: &BindingPlan, req: &RequestViews) -> (r: Result<Record, Rejection>)
    ensures
        r is Ok <==> spec_bind(plan@, req@) is Ok,
        r is Ok ==> r->Ok_0@.fields == spec_bind(plan@, req@)->Ok_0,
        r is Err ==> r->Err_0@ == spec_bind(plan@, req@)->Err_0,
{
    let ghost groupsv = plan@.groups;
    let mut cur = record_defaults(plan);
    let mut i: usize = 0;
    proof {
        assert(groupsv.skip(0) =~= groupsv);
    }
    while i < plan.groups.len()
        invariant
            i <= plan.groups.len(),
            groupsv == plan@.groups,
            groupsv.len() == plan.groups@.len(),
            spec_bind(plan@, req@) == spec_bind_groups(groupsv.skip(i as int), req@, cur@.fields),
        decreases plan.groups.len() - i,
    {
        proof {
            assert(groupsv[i as int] == plan.groups@[i as int]@);
            assert(groupsv.skip(i as int)[0] == groupsv[i as int]);
            assert(groupsv.skip(i as int).skip(1) =~= groupsv.skip(i + 1));
        }
        let g = &plan.groups[i];
        cur = match run_group(g, req, cur) {
            Ok(rec2) => rec2,
            Err(e) => {
                return Err(e);
            },
        };
        i = i + 1;
    }
    proof {
        assert(groupsv.skip(plan.groups@.len() as int).len() == 0);
    }
    Ok(cur)
}

/// Re-runs one compiled plan against two requests: each binding is its own
/// execution against its own fresh record, and each result is exactly what
/// binding that request alone yields.
pub fn bind_two(plan: &BindingPlan, req1: &RequestViews, req2: &RequestViews) -> (r: (
    Result<Record, Rejection>,
    Result<Record, Rejection>,
))
    ensures
        r.0 is Ok <==> spec_bind(plan@, req1@) is Ok,
        r.0 is Ok ==> r.0->Ok_0@.fields == spec_bind(plan@, req1@)->Ok_0,
        r.0 is Err ==> r.0->Err_0@ == spec_bind(plan@, req1@)->Err_0,
        r.1 is Ok <==> spec_bind(plan@, req2@) is Ok,
        r.1 is Ok ==> r.1->Ok_0@.fields == spec_bind(plan@, req2@)->Ok_0,
        r.1 is Err ==> r.1->Err_0@ == spec_bind(plan@, req2@)->Err_0,
{
    let a = bind(plan, req1);
    let b = bind(plan, req2);
    (a, b)
}

} // verus!

