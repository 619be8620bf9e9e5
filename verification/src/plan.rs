//! The binding plan compiler: groups the validated field descriptors by
//! origin and orders the groups by the canonical priority — path, context,
//! header, query, then JSON body or form body.  A group is emitted only for
//! an origin that has at least one field; order within a group is
//! declaration order.  Compilation never touches request data.

use crate::schema::{build_schema, spec_schema};
use crate::types::{
    BindingPlan, BindingPlanV, FieldFormat, FieldFormatV, FormatGroup, FormatGroupV, OriginTag,
    RecordDecl, RecordDeclV, Rejection, RejectionV,
};
use vstd::prelude::*;

verus! {

/// The fields resolved to origin `o`, in declaration order.
pub open spec fn spec_fields_of(ffs: Seq<FieldFormatV>, o: OriginTag) -> Seq<FieldFormatV>
    decreases ffs.len(),
{
    if ffs.len() == 0 {
        Seq::<FieldFormatV>::empty()
    } else {
        let rest = spec_fields_of(ffs.drop_last(), o);
        if ffs.last().format == o {
            rest.push(ffs.last())
        } else {
            rest
        }
    }
}

/// Collects the fields resolved to origin `o`, in declaration order.
pub fn fields_of(ffs: &Vec<FieldFormat>, o: OriginTag) -> (r: Vec<FieldFormat>)
    ensures
        r@.map_values(|f: FieldFormat| f@) == spec_fields_of(
            ffs@.map_values(|f: FieldFormat| f@),
            o,
        ),
{
    let ghost ffsv = ffs@.map_values(|f: FieldFormat| f@);
    let mut out: Vec<FieldFormat> = Vec::new();
    let mut i: usize = 0;
    proof {
        assert(ffsv.take(0) =~= Seq::<FieldFormatV>::empty());
        assert(out@.map_values(|f: FieldFormat| f@) =~= spec_fields_of(ffsv.take(0), o));
    }
    while i < ffs.len()
        invariant
            i <= ffs.len(),
            ffsv == ffs@.map_values(|f: FieldFormat| f@),
            ffsv.len() == ffs@.len(),
            out@.map_values(|f: FieldFormat| f@) == spec_fields_of(ffsv.take(i as int), o),
        decreases ffs.len() - i,
    {
        proof {
            assert(ffsv[i as int] == ffs@[i as int]@);
            assert(ffsv.take(i + 1).drop_last() =~= ffsv.take(i as int));
            assert(ffsv.take(i + 1).last() == ffsv[i as int]);
        }
        let f = &ffs[i];
        if f.format == o {
            let ghost outv_old = out@.map_values(|g: FieldFormat| g@);
            let cl = f.clone();
            out.push(cl);
            proof {
                assert(out@.map_values(|g: FieldFormat| g@) =~= outv_old.push(f@));
            }
        }
        i = i + 1;
    }
    proof {
        assert(ffsv.take(ffs@.len() as int) =~= ffsv);
    }
    out
}

/// The group an origin contributes to the plan: one group holding its
/// fields where it has any, nothing otherwise.
pub open spec fn spec_group_entry(ffs: Seq<FieldFormatV>, o: OriginTag) -> Seq<FormatGroupV> {
    let g = spec_fields_of(ffs, o);
    if g.len() > 0 {
        seq![FormatGroupV { origin: o, fields: g }]
    } else {
        Seq::<FormatGroupV>::empty()
    }
}

/// The plan's groups: each origin's entry, in canonical priority order.
pub open spec fn spec_groups(ffs: Seq<FieldFormatV>) -> Seq<FormatGroupV> {
    spec_group_entry(ffs, OriginTag::Path) + spec_group_entry(ffs, OriginTag::Context)
        + spec_group_entry(ffs, OriginTag::Header) + spec_group_entry(ffs, OriginTag::Query)
        + spec_group_entry(ffs, OriginTag::JsonBody) + spec_group_entry(ffs, OriginTag::FormBody)
}

/// Whether the schema has a JSON body group.
pub open spec fn spec_has_json(ffs: Seq<FieldFormatV>) -> bool {
    spec_fields_of(ffs, OriginTag::JsonBody).len() > 0
}

/// What compiling a record declaration yields: the immutable binding plan,
/// or the schema-time rejection.
pub open spec fn spec_compile(rec: RecordDeclV) -> Result<BindingPlanV, RejectionV> {
    match spec_schema(rec) {
        Err(e) => Err(e),
        Ok(s) => Ok(
            BindingPlanV {
                target_type: rec.name,
                groups: spec_groups(s.1),
                has_json_group: spec_has_json(s.1),
            },
        ),
    }
}

/// Groups validated field descriptors into the plan's ordered groups.
pub fn group_by_origin(ffs: &Vec<FieldFormat>) -> (r: Vec<FormatGroup>)
    ensures
        r@.map_values(|g: FormatGroup| g@) == spec_groups(ffs@.map_values(|f: FieldFormat| f@)),
{
    let ghost ffsv = ffs@.map_values(|f: FieldFormat| f@);
    let mut groups: Vec<FormatGroup> = Vec::new();
    let gp = fields_of(ffs, OriginTag::Path);
    if gp.len() > 0 {
        groups.push(FormatGroup { origin: OriginTag::Path, fields: gp });
    }
    let gc = fields_of(ffs, OriginTag::Context);
    if gc.len() > 0 {
        groups.push(FormatGroup { origin: OriginTag::Context, fields: gc });
    }
    let gh = fields_of(ffs, OriginTag::Header);
    if gh.len() > 0 {
        groups.push(FormatGroup { origin: OriginTag::Header, fields: gh });
    }
    let gq = fields_of(ffs, OriginTag::Query);
    if gq.len() > 0 {
        groups.push(FormatGroup { origin: OriginTag::Query, fields: gq });
    }
    let gj = fields_of(ffs, OriginTag::JsonBody);
    if gj.len() > 0 {
        groups.push(FormatGroup { origin: OriginTag::JsonBody, fields: gj });
    }
    let gf = fields_of(ffs, OriginTag::FormBody);
    if gf.len() > 0 {
        groups.push(FormatGroup { origin: OriginTag::FormBody, fields: gf });
    }
    proof {
        assert(groups@.map_values(|g: FormatGroup| g@) =~~= spec_groups(ffsv));
    }
    groups
}

/// Compiles a record declaration into its binding plan: schema building,
/// origin validation, then grouping.  The plan is immutable and safe to
/// share across any number of concurrent executions.
pub fn compile(rec: &RecordDecl) -> (r: Result<BindingPlan, Rejection>)
    ensures
        r is Ok <==> spec_compile(rec@) is Ok,
        r is Ok ==> r->Ok_0@ == spec_compile(rec@)->Ok_0,
        r is Err ==> r->Err_0@ == spec_compile(rec@)->Err_0,
{
    let s = match build_schema(rec) {
        Ok(s) => s,
        Err(e) => {
            return Err(e);
        },
    };
    let ffs = s.1;
    let gj = fields_of(&ffs, OriginTag::JsonBody);
    let has_json = gj.len() > 0;
    let groups = group_by_origin(&ffs);
    Ok(BindingPlan { target_type: rec.name.clone(), groups, has_json_group: has_json })
}

} // verus!
