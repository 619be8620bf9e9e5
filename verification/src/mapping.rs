//! A concrete bound record: the declaration of `TestParam`, its compiled
//! plan, and the verified extraction of its typed fields from a bound
//! record.

use crate::engine::{bind, spec_bind, spec_get_pairs};
use crate::plan::{compile, spec_compile};
use crate::types::{
    AnnArg, Annotation, DefaultAnn, FieldDecl, FieldValV, Record, RecordDecl, RecordDeclV,
    Rejection, RejectionV, RequestViews, ScalarTag, ScalarVal, ScalarValV, TypeDesc,
};
use vstd::prelude::*;

verus! {

/// A record bound from several origins at once: its body fields from a
/// JSON body, `id` from the query string, `token` and `ids` from headers,
/// and the rest from path parameters.
#[derive(Debug, PartialEq)]
pub struct TestParam {
    pub token: Option<i64>,
    pub user_id: i64,
    pub id: i64,
    pub uid: i64,
    pub pid: Option<i64>,
    pub cid: String,
    pub ids: Vec<i64>,
    pub items: Option<Vec<i64>>,
    pub cids: Vec<i64>,
}

/// The mathematical view of a [`TestParam`].
pub ghost struct TestParamV {
    pub token: Option<i64>,
    pub user_id: i64,
    pub id: i64,
    pub uid: i64,
    pub pid: Option<i64>,
    pub cid: Seq<char>,
    pub ids: Seq<i64>,
    pub items: Option<Seq<i64>>,
    pub cids: Seq<i64>,
}

impl View for TestParam {
    type V = TestParamV;

    open spec fn view(&self) -> TestParamV {
        TestParamV {
            token: self.token,
            user_id: self.user_id,
            id: self.id,
            uid: self.uid,
            pid: self.pid,
            cid: self.cid@,
            ids: self.ids@,
            items: match &self.items {
                Some(v) => Some(v@),
                None => None,
            },
            cids: self.cids@,
        }
    }
}

impl Default for TestParam {
    /// The zero-initialized record: `None` for the optional fields, zero,
    /// the empty string and empty lists for the rest.
    fn default() -> (r: Self)
        ensures
            r@.token is None,
            r@.user_id == 0,
            r@.id == 0,
            r@.uid == 0,
            r@.pid is None,
            r@.cid.len() == 0,
            r@.ids.len() == 0,
            r@.items is None,
            r@.cids.len() == 0,
    {
        TestParam {
            token: None,
            user_id: 0,
            id: 0,
            uid: 0,
            pid: None,
            cid: String::new(),
            ids: Vec::new(),
            items: None,
            cids: Vec::new(),
        }
    }
}

/// One field declaration carrying a single bare origin annotation.
fn bare_field(name: &str, ty: TypeDesc, word: &str) -> (r: FieldDecl)
    ensures
        r@.name == name@,
        r@.ty == ty,
        r@.anns.len() == 1,
        r@.anns[0].word == word@,
        r@.anns[0].arg is Bare,
        r@.generic_rename is None,
{
    let mut anns: Vec<Annotation> = Vec::new();
    anns.push(Annotation { word: word.to_owned(), arg: AnnArg::Bare });
    let r = FieldDecl { name: name.to_owned(), ty, anns, generic_rename: None };
    proof {
        assert(r@.anns =~= seq![r.anns@[0]@]);
    }
    r
}

/// The declaration `TestParam` is bound from: default origin `json`;
/// `token` and `ids` from headers; `user_id` from the JSON body, renamed
/// to `user_id2`; `uid` from the JSON body; `id` from the query string;
/// `pid`, `cid`, `cids` and `items` from path parameters.
pub fn test_param_decl() -> (r: RecordDecl)
    ensures
        r@.name == "TestParam"@,
        r@.default_ann == Some(crate::types::DefaultAnnV::Word("json"@)),
        r@.fields.len() == 9,
        ({
            let fs = r@.fields;
            &&& fs[0].name == "token"@ && fs[0].ty == TypeDesc::Opt(ScalarTag::I64) && fs[0].anns
                =~= seq![crate::types::AnnotationV { word: "header"@, arg: crate::types::AnnArgV::Bare }]
                && fs[0].generic_rename is None
            &&& fs[1].name == "ids"@ && fs[1].ty == TypeDesc::List(ScalarTag::I64) && fs[1].anns
                =~= seq![crate::types::AnnotationV { word: "header"@, arg: crate::types::AnnArgV::Bare }]
                && fs[1].generic_rename is None
            &&& fs[2].name == "user_id"@ && fs[2].ty == TypeDesc::Scalar(ScalarTag::I64)
                && fs[2].anns =~= seq![
                crate::types::AnnotationV { word: "json"@, arg: crate::types::AnnArgV::Bare },
            ] && fs[2].generic_rename == Some("user_id2"@)
            &&& fs[3].name == "uid"@ && fs[3].ty == TypeDesc::Scalar(ScalarTag::I64) && fs[3].anns
                =~= seq![crate::types::AnnotationV { word: "json"@, arg: crate::types::AnnArgV::Bare }]
                && fs[3].generic_rename is None
            &&& fs[4].name == "id"@ && fs[4].ty == TypeDesc::Scalar(ScalarTag::I64) && fs[4].anns
                =~= seq![crate::types::AnnotationV { word: "query"@, arg: crate::types::AnnArgV::Bare }]
                && fs[4].generic_rename is None
            &&& fs[5].name == "pid"@ && fs[5].ty == TypeDesc::Opt(ScalarTag::I64) && fs[5].anns
                =~= seq![crate::types::AnnotationV { word: "path"@, arg: crate::types::AnnArgV::Bare }]
                && fs[5].generic_rename is None
            &&& fs[6].name == "cid"@ && fs[6].ty == TypeDesc::Scalar(ScalarTag::Str) && fs[6].anns
                =~= seq![crate::types::AnnotationV { word: "path"@, arg: crate::types::AnnArgV::Bare }]
                && fs[6].generic_rename is None
            &&& fs[7].name == "cids"@ && fs[7].ty == TypeDesc::List(ScalarTag::I64) && fs[7].anns
                =~= seq![crate::types::AnnotationV { word: "path"@, arg: crate::types::AnnArgV::Bare }]
                && fs[7].generic_rename is None
            &&& fs[8].name == "items"@ && fs[8].ty == TypeDesc::OptList(ScalarTag::I64)
                && fs[8].anns =~= seq![
                crate::types::AnnotationV { word: "path"@, arg: crate::types::AnnArgV::Bare },
            ] && fs[8].generic_rename is None
        }),
{
    let mut fields: Vec<FieldDecl> = Vec::new();
    fields.push(bare_field("token", TypeDesc::Opt(ScalarTag::I64), "header"));
    fields.push(bare_field("ids", TypeDesc::List(ScalarTag::I64), "header"));
    let mut user_id = bare_field("user_id", TypeDesc::Scalar(ScalarTag::I64), "json");
    user_id.generic_rename = Some("user_id2".to_owned());
    fields.push(user_id);
    fields.push(bare_field("uid", TypeDesc::Scalar(ScalarTag::I64), "json"));
    fields.push(bare_field("id", TypeDesc::Scalar(ScalarTag::I64), "query"));
    fields.push(bare_field("pid", TypeDesc::Opt(ScalarTag::I64), "path"));
    fields.push(bare_field("cid", TypeDesc::Scalar(ScalarTag::Str), "path"));
    fields.push(bare_field("cids", TypeDesc::List(ScalarTag::I64), "path"));
    fields.push(bare_field("items", TypeDesc::OptList(ScalarTag::I64), "path"));
    RecordDecl {
        name: "TestParam".to_owned(),
        default_ann: Some(DefaultAnn::Word("json".to_owned())),
        fields,
    }
}

/// The `i64` a stored scalar field holds; anything else reads as zero.
pub open spec fn spec_ext_i64(ps: Seq<(Seq<char>, FieldValV)>, name: Seq<char>) -> i64 {
    match spec_get_pairs(ps, name) {
        Some(FieldValV::Scalar(ScalarValV::I64(n))) => n,
        _ => 0,
    }
}

/// The optional `i64` a stored optional field holds.
pub open spec fn spec_ext_opt_i64(ps: Seq<(Seq<char>, FieldValV)>, name: Seq<char>) -> Option<
    i64,
> {
    match spec_get_pairs(ps, name) {
        Some(FieldValV::OptScalar(Some(ScalarValV::I64(n)))) => Some(n),
        _ => None,
    }
}

/// The string a stored scalar field holds; anything else reads as empty.
pub open spec fn spec_ext_str(ps: Seq<(Seq<char>, FieldValV)>, name: Seq<char>) -> Seq<char> {
    match spec_get_pairs(ps, name) {
        Some(FieldValV::Scalar(ScalarValV::Str(s))) => s,
        _ => Seq::<char>::empty(),
    }
}

/// One stored item as an `i64`; anything else reads as zero.
pub open spec fn spec_item_i64(v: ScalarValV) -> i64 {
    match v {
        ScalarValV::I64(n) => n,
        _ => 0,
    }
}

/// The `i64` items a stored list field holds.
pub open spec fn spec_ext_vec_i64(ps: Seq<(Seq<char>, FieldValV)>, name: Seq<char>) -> Seq<i64> {
    match spec_get_pairs(ps, name) {
        Some(FieldValV::List(vs)) => vs.map_values(|v: ScalarValV| spec_item_i64(v)),
        _ => Seq::<i64>::empty(),
    }
}

/// The optional `i64` items a stored optional list field holds.
pub open spec fn spec_ext_opt_vec_i64(
    ps: Seq<(Seq<char>, FieldValV)>,
    name: Seq<char>,
) -> Option<Seq<i64>> {
    match spec_get_pairs(ps, name) {
        Some(FieldValV::OptList(Some(vs))) => Some(vs.map_values(|v: ScalarValV| spec_item_i64(v))),
        _ => None,
    }
}

/// The typed fields of `TestParam`, read out of a bound record.
pub open spec fn spec_extract(ps: Seq<(Seq<char>, FieldValV)>) -> TestParamV {
    TestParamV {
        token: spec_ext_opt_i64(ps, "token"@),
        user_id: spec_ext_i64(ps, "user_id"@),
        id: spec_ext_i64(ps, "id"@),
        uid: spec_ext_i64(ps, "uid"@),
        pid: spec_ext_opt_i64(ps, "pid"@),
        cid: spec_ext_str(ps, "cid"@),
        ids: spec_ext_vec_i64(ps, "ids"@),
        items: spec_ext_opt_vec_i64(ps, "items"@),
        cids: spec_ext_vec_i64(ps, "cids"@),
    }
}

/// Reads stored items out as `i64` values.
fn items_i64(vs: &Vec<ScalarVal>) -> (r: Vec<i64>)
    ensures
        r@ == crate::types::scalars_view(vs@).map_values(|v: ScalarValV| spec_item_i64(v)),
{
    let ghost target = crate::types::scalars_view(vs@).map_values(
        |v: ScalarValV| spec_item_i64(v),
    );
    let mut out: Vec<i64> = Vec::new();
    let mut i: usize = 0;
    proof {
        assert(out@ =~= target.take(0));
    }
    while i < vs.len()
        invariant
            i <= vs.len(),
            target == crate::types::scalars_view(vs@).map_values(|v: ScalarValV| spec_item_i64(v)),
            target.len() == vs@.len(),
            out@ == target.take(i as int),
        decreases vs.len() - i,
    {
        proof {
            assert(crate::types::scalars_view(vs@)[i as int] == vs@[i as int]@);
            assert(target[i as int] == spec_item_i64(vs@[i as int]@));
        }
        let n: i64 = match &vs[i] {
            ScalarVal::I64(n) => *n,
            _ => 0,
        };
        out.push(n);
        proof {
            assert(target.take(i + 1) =~= target.take(i as int).push(target[i as int]));
        }
        i = i + 1;
    }
    proof {
        assert(target.take(vs@.len() as int) =~= target);
    }
    out
}

/// Reads one `i64` field out of a bound record.
fn ext_i64(rec: &Record, name: &str) -> (r: i64)
    ensures
        r == spec_ext_i64(rec@.fields, name@),
{
    match crate::engine::record_get(rec, name) {
        Some(v) => match v {
            crate::types::FieldVal::Scalar(ScalarVal::I64(n)) => *n,
            _ => 0,
        },
        None => 0,
    }
}

/// Reads one optional `i64` field out of a bound record.
fn ext_opt_i64(rec: &Record, name: &str) -> (r: Option<i64>)
    ensures
        r == spec_ext_opt_i64(rec@.fields, name@),
{
    match crate::engine::record_get(rec, name) {
        Some(v) => match v {
            crate::types::FieldVal::OptScalar(Some(ScalarVal::I64(n))) => Some(*n),
            _ => None,
        },
        None => None,
    }
}

/// Reads one string field out of a bound record.
fn ext_str(rec: &Record, name: &str) -> (r: String)
    ensures
        r@ == spec_ext_str(rec@.fields, name@),
{
    match crate::engine::record_get(rec, name) {
        Some(v) => match v {
            crate::types::FieldVal::Scalar(ScalarVal::Str(s)) => s.clone(),
            _ => String::new(),
        },
        None => String::new(),
    }
}

/// Reads one `i64` list field out of a bound record.
fn ext_vec_i64(rec: &Record, name: &str) -> (r: Vec<i64>)
    ensures
        r@ == spec_ext_vec_i64(rec@.fields, name@),
{
    match crate::engine::record_get(rec, name) {
        Some(v) => match v {
            crate::types::FieldVal::List(vs) => items_i64(vs),
            _ => Vec::new(),
        },
        None => Vec::new(),
    }
}

/// Reads one optional `i64` list field out of a bound record.
fn ext_opt_vec_i64(rec: &Record, name: &str) -> (r: Option<Vec<i64>>)
    ensures
        (match r {
            Some(v) => Some(v@),
            None => None,
        }) == spec_ext_opt_vec_i64(rec@.fields, name@),
{
    match crate::engine::record_get(rec, name) {
        Some(v) => match v {
            crate::types::FieldVal::OptList(Some(vs)) => Some(items_i64(vs)),
            _ => None,
        },
        None => None,
    }
}

/// What binding a request into a `TestParam` yields: the declaration's
/// plan compiled, the request bound against it, and the typed fields read
/// out of the bound record; a schema-time or request-time rejection passes
/// through.
pub open spec fn spec_from_views(
    decl: RecordDeclV,
    req: crate::types::RequestViewsV,
) -> Result<TestParamV, RejectionV> {
    match spec_compile(decl) {
        Err(e) => Err(e),
        Ok(p) => match spec_bind(p, req) {
            Err(e) => Err(e),
            Ok(ps) => Ok(spec_extract(ps)),
        },
    }
}

impl TestParam {
    /// Compiles the `TestParam` plan and binds one request against it.
    pub fn from_views(req: &RequestViews) -> (r: Result<TestParam, Rejection>)
        ensures
            ({
                let decl = test_param_decl_spec();
                let s = spec_from_views(decl, req@);
                &&& r is Ok <==> s is Ok
                &&& r is Ok ==> r->Ok_0@ == s->Ok_0
                &&& r is Err ==> r->Err_0@ == s->Err_0
            }),
    {
        let decl = test_param_decl();
        proof {
            assert(decl@.fields =~= test_param_decl_spec().fields);
            assert(decl@ == test_param_decl_spec());
        }
        let plan = match compile(&decl) {
            Err(e) => {
                return Err(e);
            },
            Ok(p) => p,
        };
        let rec = match bind(&plan, req) {
            Err(e) => {
                return Err(e);
            },
            Ok(rec) => rec,
        };
        Ok(
            TestParam {
                token: ext_opt_i64(&rec, "token"),
                user_id: ext_i64(&rec, "user_id"),
                id: ext_i64(&rec, "id"),
                uid: ext_i64(&rec, "uid"),
                pid: ext_opt_i64(&rec, "pid"),
                cid: ext_str(&rec, "cid"),
                ids: ext_vec_i64(&rec, "ids"),
                items: ext_opt_vec_i64(&rec, "items"),
                cids: ext_vec_i64(&rec, "cids"),
            },
        )
    }
}

/// The view of the declaration [`test_param_decl`] builds.
pub open spec fn test_param_decl_spec() -> RecordDeclV {
    RecordDeclV {
        name: "TestParam"@,
        default_ann: Some(crate::types::DefaultAnnV::Word("json"@)),
        fields: seq![
            field_decl_view("token"@, TypeDesc::Opt(ScalarTag::I64), "header"@, None),
            field_decl_view("ids"@, TypeDesc::List(ScalarTag::I64), "header"@, None),
            field_decl_view(
                "user_id"@,
                TypeDesc::Scalar(ScalarTag::I64),
                "json"@,
                Some("user_id2"@),
            ),
            field_decl_view("uid"@, TypeDesc::Scalar(ScalarTag::I64), "json"@, None),
            field_decl_view("id"@, TypeDesc::Scalar(ScalarTag::I64), "query"@, None),
            field_decl_view("pid"@, TypeDesc::Opt(ScalarTag::I64), "path"@, None),
            field_decl_view("cid"@, TypeDesc::Scalar(ScalarTag::Str), "path"@, None),
            field_decl_view("cids"@, TypeDesc::List(ScalarTag::I64), "path"@, None),
            field_decl_view("items"@, TypeDesc::OptList(ScalarTag::I64), "path"@, None),
        ],
    }
}

/// A field declaration view with one bare origin annotation.
pub open spec fn field_decl_view(
    name: Seq<char>,
    ty: TypeDesc,
    word: Seq<char>,
    rename: Option<Seq<char>>,
) -> crate::types::FieldDeclV {
    crate::types::FieldDeclV {
        name,
        ty,
        anns: seq![crate::types::AnnotationV { word, arg: crate::types::AnnArgV::Bare }],
        generic_rename: rename,
    }
}

} // verus!
