use params_bind::engine::{bind, bind_two, record_get};
use params_bind::mapping::TestParam;
use params_bind::plan::compile;
use params_bind::types::{
    AnnArg, Annotation, BodyKind, DefaultAnn, FieldDecl, FieldVal, OriginTag, RecordDecl,
    Rejection, RequestViews, ScalarTag, ScalarVal, TypeDesc,
};

fn field(name: &str, ty: TypeDesc, anns: Vec<Annotation>, rename: Option<&str>) -> FieldDecl {
    FieldDecl {
        name: name.to_string(),
        ty,
        anns,
        generic_rename: rename.map(|s| s.to_string()),
    }
}

fn ann(word: &str) -> Annotation {
    Annotation { word: word.to_string(), arg: AnnArg::Bare }
}

fn record(default: &str, fields: Vec<FieldDecl>) -> RecordDecl {
    RecordDecl {
        name: "R".to_string(),
        default_ann: Some(DefaultAnn::Word(default.to_string())),
        fields,
    }
}

fn request() -> RequestViews {
    RequestViews {
        headers: vec![],
        query: None,
        path_params: vec![],
        body: vec![],
        context: vec![],
    }
}

fn pairs(ps: &[(&str, &str)]) -> Vec<(String, String)> {
    ps.iter().map(|(k, v)| (k.to_string(), v.to_string())).collect()
}

#[test]
fn json_and_path_fields_bind_together() {
    // content-type application/json, body {"user_id": 7}, path pid=42:
    // user_id becomes 7 and pid becomes Some(42).
    let rec = record(
        "json",
        vec![
            field("user_id", TypeDesc::Scalar(ScalarTag::I64), vec![ann("json")], None),
            field("pid", TypeDesc::Opt(ScalarTag::I64), vec![ann("path")], None),
        ],
    );
    let plan = compile(&rec).unwrap();
    let mut req = request();
    req.headers = pairs(&[("content-type", "application/json")]);
    req.body = b"{\"user_id\": 7}".to_vec();
    req.path_params = pairs(&[("pid", "42")]);
    let out = bind(&plan, &req).unwrap();
    assert_eq!(record_get(&out, "user_id"), Some(&FieldVal::Scalar(ScalarVal::I64(7))));
    assert_eq!(record_get(&out, "pid"), Some(&FieldVal::OptScalar(Some(ScalarVal::I64(42)))));
}

#[test]
fn absent_query_string_is_a_no_op() {
    let rec = record(
        "json",
        vec![field("id", TypeDesc::Scalar(ScalarTag::I64), vec![ann("query")], None)],
    );
    let plan = compile(&rec).unwrap();
    let req = request();
    let out = bind(&plan, &req).unwrap();
    assert_eq!(record_get(&out, "id"), Some(&FieldVal::Scalar(ScalarVal::I64(0))));
}

#[test]
fn query_string_binds_fields() {
    let rec = record(
        "json",
        vec![
            field("id", TypeDesc::Scalar(ScalarTag::I64), vec![ann("query")], None),
            field("name", TypeDesc::Scalar(ScalarTag::Str), vec![ann("query")], None),
        ],
    );
    let plan = compile(&rec).unwrap();
    let mut req = request();
    req.query = Some("id=11&name=bob".to_string());
    let out = bind(&plan, &req).unwrap();
    assert_eq!(record_get(&out, "id"), Some(&FieldVal::Scalar(ScalarVal::I64(11))));
    assert_eq!(
        record_get(&out, "name"),
        Some(&FieldVal::Scalar(ScalarVal::Str("bob".to_string())))
    );
}

#[test]
fn optional_field_semantics_from_headers() {
    // present-and-parsable -> Some, present-but-unparsable -> None,
    // absent -> None.
    let rec = record(
        "json",
        vec![field("token", TypeDesc::Opt(ScalarTag::I64), vec![ann("header")], None)],
    );
    let plan = compile(&rec).unwrap();

    let mut req = request();
    req.headers = pairs(&[("token", "99")]);
    let out = bind(&plan, &req).unwrap();
    assert_eq!(record_get(&out, "token"), Some(&FieldVal::OptScalar(Some(ScalarVal::I64(99)))));

    let mut req2 = request();
    req2.headers = pairs(&[("token", "ninety-nine")]);
    let out2 = bind(&plan, &req2).unwrap();
    assert_eq!(record_get(&out2, "token"), Some(&FieldVal::OptScalar(None)));

    let req3 = request();
    let out3 = bind(&plan, &req3).unwrap();
    assert_eq!(record_get(&out3, "token"), Some(&FieldVal::OptScalar(None)));
}

#[test]
fn list_items_keep_length_and_zero_failed_items() {
    // "1,2,x,4" with integer items yields [1, 2, 0, 4].
    let rec = record(
        "json",
        vec![
            field("cids", TypeDesc::List(ScalarTag::I64), vec![ann("path")], None),
            field("ids", TypeDesc::List(ScalarTag::I64), vec![ann("header")], None),
            field("items", TypeDesc::OptList(ScalarTag::I64), vec![ann("path")], None),
        ],
    );
    let plan = compile(&rec).unwrap();
    let mut req = request();
    req.path_params = pairs(&[("cids", "1,2,x,4"), ("items", "1,2,x,4")]);
    req.headers = pairs(&[("ids", "1,2,x,4")]);
    let out = bind(&plan, &req).unwrap();
    let expect = vec![
        ScalarVal::I64(1),
        ScalarVal::I64(2),
        ScalarVal::I64(0),
        ScalarVal::I64(4),
    ];
    assert_eq!(record_get(&out, "cids"), Some(&FieldVal::List(expect.clone())));
    assert_eq!(record_get(&out, "ids"), Some(&FieldVal::List(expect.clone())));
    assert_eq!(record_get(&out, "items"), Some(&FieldVal::OptList(Some(expect))));
}

#[test]
fn path_parse_failure_keeps_the_default() {
    let rec = record(
        "json",
        vec![field("pid", TypeDesc::Scalar(ScalarTag::I64), vec![ann("path")], None)],
    );
    let plan = compile(&rec).unwrap();
    let mut req = request();
    req.path_params = pairs(&[("pid", "oops")]);
    let out = bind(&plan, &req).unwrap();
    assert_eq!(record_get(&out, "pid"), Some(&FieldVal::Scalar(ScalarVal::I64(0))));
}

#[test]
fn later_path_parameter_overwrites_earlier() {
    let rec = record(
        "json",
        vec![field("pid", TypeDesc::Scalar(ScalarTag::I64), vec![ann("path")], None)],
    );
    let plan = compile(&rec).unwrap();
    let mut req = request();
    req.path_params = pairs(&[("pid", "1"), ("pid", "2")]);
    let out = bind(&plan, &req).unwrap();
    assert_eq!(record_get(&out, "pid"), Some(&FieldVal::Scalar(ScalarVal::I64(2))));
}

#[test]
fn json_group_demands_json_content_type() {
    let rec = record(
        "json",
        vec![field("user_id", TypeDesc::Scalar(ScalarTag::I64), vec![ann("json")], None)],
    );
    let plan = compile(&rec).unwrap();
    let mut req = request();
    req.headers = pairs(&[("content-type", "text/plain")]);
    req.body = b"{\"user_id\": 7}".to_vec();
    assert!(matches!(bind(&plan, &req), Err(Rejection::ContentTypeMismatch)));
}

#[test]
fn malformed_json_body_is_fatal() {
    let rec = record(
        "json",
        vec![field("user_id", TypeDesc::Scalar(ScalarTag::I64), vec![ann("json")], None)],
    );
    let plan = compile(&rec).unwrap();
    let mut req = request();
    req.headers = pairs(&[("content-type", "application/json")]);
    req.body = b"{not json".to_vec();
    assert!(matches!(bind(&plan, &req), Err(Rejection::BodyDecodeError(BodyKind::Json, _))));
}

#[test]
fn missing_json_key_keeps_the_default() {
    let rec = record(
        "json",
        vec![
            field("user_id", TypeDesc::Scalar(ScalarTag::I64), vec![ann("json")], None),
            field("nick", TypeDesc::Opt(ScalarTag::Str), vec![ann("json")], None),
        ],
    );
    let plan = compile(&rec).unwrap();
    let mut req = request();
    req.headers = pairs(&[("content-type", "application/json")]);
    req.body = b"{}".to_vec();
    let out = bind(&plan, &req).unwrap();
    assert_eq!(record_get(&out, "user_id"), Some(&FieldVal::Scalar(ScalarVal::I64(0))));
    assert_eq!(record_get(&out, "nick"), Some(&FieldVal::OptScalar(None)));
}

#[test]
fn json_arrays_bind_list_fields() {
    let rec = record(
        "json",
        vec![
            field("ns", TypeDesc::List(ScalarTag::I64), vec![ann("json")], None),
            field("flag", TypeDesc::Scalar(ScalarTag::Bool), vec![ann("json")], None),
            field("name", TypeDesc::Scalar(ScalarTag::Str), vec![ann("json")], None),
        ],
    );
    let plan = compile(&rec).unwrap();
    let mut req = request();
    req.headers = pairs(&[("content-type", "application/json")]);
    req.body = b"{\"ns\": [1, \"x\", 3], \"flag\": true, \"name\": \"ada\"}".to_vec();
    let out = bind(&plan, &req).unwrap();
    assert_eq!(
        record_get(&out, "ns"),
        Some(&FieldVal::List(vec![
            ScalarVal::I64(1),
            ScalarVal::I64(0),
            ScalarVal::I64(3)
        ]))
    );
    assert_eq!(record_get(&out, "flag"), Some(&FieldVal::Scalar(ScalarVal::Bool(true))));
    assert_eq!(
        record_get(&out, "name"),
        Some(&FieldVal::Scalar(ScalarVal::Str("ada".to_string())))
    );
}

#[test]
fn form_body_binds_fields() {
    let rec = record(
        "form",
        vec![field("uid", TypeDesc::Scalar(ScalarTag::I64), vec![], None)],
    );
    let plan = compile(&rec).unwrap();
    let mut req = request();
    req.headers = pairs(&[("content-type", "application/x-www-form-urlencoded")]);
    req.body = b"uid=5".to_vec();
    let out = bind(&plan, &req).unwrap();
    assert_eq!(record_get(&out, "uid"), Some(&FieldVal::Scalar(ScalarVal::I64(5))));
}

#[test]
fn form_group_demands_form_content_type() {
    let rec = record(
        "form",
        vec![field("uid", TypeDesc::Scalar(ScalarTag::I64), vec![], None)],
    );
    let plan = compile(&rec).unwrap();
    let mut req = request();
    req.headers = pairs(&[("content-type", "application/json")]);
    req.body = b"uid=5".to_vec();
    assert!(matches!(bind(&plan, &req), Err(Rejection::ContentTypeMismatch)));
}

#[test]
fn unreadable_form_key_leaves_the_default() {
    // the pair codec decodes bytes lossily, so a garbled key simply fails
    // to match any field and the field keeps its default
    let rec = record(
        "form",
        vec![field("uid", TypeDesc::Scalar(ScalarTag::I64), vec![], None)],
    );
    let plan = compile(&rec).unwrap();
    let mut req = request();
    req.headers = pairs(&[("content-type", "application/x-www-form-urlencoded")]);
    req.body = vec![0xff, 0xfe, b'=', b'1'];
    let out = bind(&plan, &req).unwrap();
    assert_eq!(record_get(&out, "uid"), Some(&FieldVal::Scalar(ScalarVal::I64(0))));
}

#[test]
fn context_values_are_copied_by_type() {
    let rec = record(
        "json",
        vec![
            field("n", TypeDesc::Scalar(ScalarTag::I64), vec![ann("context")], None),
            field("s", TypeDesc::Scalar(ScalarTag::Str), vec![ann("context")], None),
        ],
    );
    let plan = compile(&rec).unwrap();
    let mut req = request();
    req.context = vec![ScalarVal::I64(5), ScalarVal::Str("env".to_string())];
    let out = bind(&plan, &req).unwrap();
    assert_eq!(record_get(&out, "n"), Some(&FieldVal::Scalar(ScalarVal::I64(5))));
    assert_eq!(record_get(&out, "s"), Some(&FieldVal::Scalar(ScalarVal::Str("env".to_string()))));
}

#[test]
fn one_plan_serves_two_requests_independently() {
    let rec = record(
        "json",
        vec![
            field("user_id", TypeDesc::Scalar(ScalarTag::I64), vec![ann("json")], None),
            field("pid", TypeDesc::Opt(ScalarTag::I64), vec![ann("path")], None),
        ],
    );
    let plan = compile(&rec).unwrap();
    let mut req1 = request();
    req1.headers = pairs(&[("content-type", "application/json")]);
    req1.body = b"{\"user_id\": 1}".to_vec();
    req1.path_params = pairs(&[("pid", "10")]);
    let mut req2 = request();
    req2.headers = pairs(&[("content-type", "application/json")]);
    req2.body = b"{\"user_id\": 2}".to_vec();
    req2.path_params = pairs(&[("pid", "20")]);
    let (a, b) = bind_two(&plan, &req1, &req2);
    let a = a.unwrap();
    let b = b.unwrap();
    assert_eq!(record_get(&a, "user_id"), Some(&FieldVal::Scalar(ScalarVal::I64(1))));
    assert_eq!(record_get(&a, "pid"), Some(&FieldVal::OptScalar(Some(ScalarVal::I64(10)))));
    assert_eq!(record_get(&b, "user_id"), Some(&FieldVal::Scalar(ScalarVal::I64(2))));
    assert_eq!(record_get(&b, "pid"), Some(&FieldVal::OptScalar(Some(ScalarVal::I64(20)))));
    // and re-binding the first request gives the same record again
    let a2 = bind(&plan, &req1).unwrap();
    assert_eq!(a2, a);
}

#[test]
fn test_param_binds_every_origin() {
    let req = RequestViews {
        headers: pairs(&[
            ("content-type", "application/json"),
            ("Token", "99"),
            ("ids", "1,2,3"),
        ]),
        query: Some("id=11".to_string()),
        path_params: pairs(&[
            ("pid", "42"),
            ("cid", "hello"),
            ("cids", "1,2,x,4"),
            ("items", "7,8"),
        ]),
        body: b"{\"user_id2\": 7, \"uid\": 3}".to_vec(),
        context: vec![],
    };
    let p = TestParam::from_views(&req).unwrap();
    assert_eq!(p.token, Some(99));
    assert_eq!(p.user_id, 7);
    assert_eq!(p.id, 11);
    assert_eq!(p.uid, 3);
    assert_eq!(p.pid, Some(42));
    assert_eq!(p.cid, "hello");
    assert_eq!(p.ids, vec![1, 2, 3]);
    assert_eq!(p.items, Some(vec![7, 8]));
    assert_eq!(p.cids, vec![1, 2, 0, 4]);
}

#[test]
fn test_param_default_is_zero_initialized() {
    let p = TestParam::default();
    assert_eq!(p.token, None);
    assert_eq!(p.user_id, 0);
    assert_eq!(p.id, 0);
    assert_eq!(p.uid, 0);
    assert_eq!(p.pid, None);
    assert_eq!(p.cid, "");
    assert!(p.ids.is_empty());
    assert_eq!(p.items, None);
    assert!(p.cids.is_empty());
}

#[test]
fn json_wrong_type_is_best_effort() {
    // a present entry of the wrong JSON type: a plain scalar keeps its
    // default, an optional scalar becomes None
    let rec = record(
        "json",
        vec![
            field("user_id", TypeDesc::Scalar(ScalarTag::I64), vec![ann("json")], None),
            field("nick", TypeDesc::Opt(ScalarTag::Str), vec![ann("json")], None),
        ],
    );
    let plan = compile(&rec).unwrap();
    let mut req = request();
    req.headers = pairs(&[("content-type", "application/json")]);
    req.body = b"{\"user_id\": \"seven\", \"nick\": 4}".to_vec();
    let out = bind(&plan, &req).unwrap();
    assert_eq!(record_get(&out, "user_id"), Some(&FieldVal::Scalar(ScalarVal::I64(0))));
    assert_eq!(record_get(&out, "nick"), Some(&FieldVal::OptScalar(None)));
}

#[test]
fn unparsable_query_value_keeps_the_default() {
    let rec = record(
        "json",
        vec![field("id", TypeDesc::Scalar(ScalarTag::I64), vec![ann("query")], None)],
    );
    let plan = compile(&rec).unwrap();
    let mut req = request();
    req.query = Some("id=eleven".to_string());
    let out = bind(&plan, &req).unwrap();
    assert_eq!(record_get(&out, "id"), Some(&FieldVal::Scalar(ScalarVal::I64(0))));
}
