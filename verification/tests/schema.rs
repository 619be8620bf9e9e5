use params_bind::classify::{
    composite_type, get_option_inner_type, get_vec_inner_type, is_option_type, is_vec_type,
    scalar_of,
};
use params_bind::plan::compile;
use params_bind::schema::{build_schema, get_default_format, validate_format};
use params_bind::types::{
    AnnArg, Annotation, DefaultAnn, FieldDecl, OriginTag, RecordDecl, Rejection, ScalarTag,
    TypeDesc,
};

fn field(name: &str, ty: TypeDesc, anns: Vec<Annotation>, rename: Option<&str>) -> FieldDecl {
    FieldDecl {
        name: name.to_string(),
        ty,
        anns,
        generic_rename: rename.map(|s| s.to_string()),
    }
}

fn ann(word: &str, arg: AnnArg) -> Annotation {
    Annotation { word: word.to_string(), arg }
}

fn record(default: Option<DefaultAnn>, fields: Vec<FieldDecl>) -> RecordDecl {
    RecordDecl { name: "MyStruct".to_string(), default_ann: default, fields }
}

#[test]
fn test_expand_params_bind() {
    let rec = record(
        Some(DefaultAnn::Word("json".to_string())),
        vec![
            field(
                "id",
                TypeDesc::Scalar(ScalarTag::U64),
                vec![ann("path", AnnArg::Rename("id1".to_string()))],
                None,
            ),
            field(
                "q",
                TypeDesc::Scalar(ScalarTag::Str),
                vec![ann("path", AnnArg::Key("q1".to_string()))],
                None,
            ),
            field(
                "name",
                TypeDesc::Scalar(ScalarTag::Str),
                vec![ann("path", AnnArg::Rename("name1".to_string()))],
                None,
            ),
            field("text", TypeDesc::Scalar(ScalarTag::Str), vec![ann("query", AnnArg::Bare)], None),
            field("sex", TypeDesc::Scalar(ScalarTag::Str), vec![ann("json", AnnArg::Bare)], None),
            field("age", TypeDesc::Scalar(ScalarTag::U64), vec![ann("json", AnnArg::Bare)], None),
            field("idcard", TypeDesc::Scalar(ScalarTag::Str), vec![], None),
        ],
    );
    let plan = compile(&rec).unwrap();
    assert_eq!(plan.target_type, "MyStruct");
    assert!(plan.has_json_group);
    // path, query, json groups in priority order
    assert_eq!(plan.groups.len(), 3);
    assert_eq!(plan.groups[0].origin, OriginTag::Path);
    let keys: Vec<&str> = plan.groups[0].fields.iter().map(|f| f.rename.as_str()).collect();
    assert_eq!(keys, vec!["id1", "q1", "name1"]);
    assert_eq!(plan.groups[1].origin, OriginTag::Query);
    assert_eq!(plan.groups[2].origin, OriginTag::JsonBody);
    let json_names: Vec<&str> = plan.groups[2].fields.iter().map(|f| f.name.as_str()).collect();
    assert_eq!(json_names, vec!["sex", "age", "idcard"]);
}

#[test]
fn test_expand_params_mapping() {
    // A record mixing a `form` field under a `json` default: the validator
    // rejects the schema.
    let rec = record(
        Some(DefaultAnn::Word("json".to_string())),
        vec![
            field(
                "token",
                TypeDesc::Opt(ScalarTag::I64),
                vec![ann("header", AnnArg::Bare)],
                Some("token"),
            ),
            field("ids", TypeDesc::List(ScalarTag::I64), vec![ann("header", AnnArg::Bare)], None),
            field(
                "user_id",
                TypeDesc::Scalar(ScalarTag::I64),
                vec![ann("json", AnnArg::Bare)],
                Some("user_id2"),
            ),
            field("id", TypeDesc::Scalar(ScalarTag::I64), vec![ann("query", AnnArg::Bare)], None),
            field("uid", TypeDesc::Scalar(ScalarTag::I64), vec![ann("form", AnnArg::Bare)], None),
            field("pid", TypeDesc::Opt(ScalarTag::I64), vec![ann("path", AnnArg::Bare)], None),
            field("cid", TypeDesc::Scalar(ScalarTag::Str), vec![ann("path", AnnArg::Bare)], None),
            field("cids", TypeDesc::List(ScalarTag::I64), vec![ann("path", AnnArg::Bare)], None),
            field("items", TypeDesc::OptList(ScalarTag::I64), vec![ann("path", AnnArg::Bare)], None),
        ],
    );
    let err = compile(&rec).unwrap_err();
    match err {
        Rejection::ConflictingFieldOrigin { field, declared_default, field_origin } => {
            assert_eq!(field, "uid");
            assert_eq!(declared_default, OriginTag::JsonBody);
            assert_eq!(field_origin, OriginTag::FormBody);
        },
        other => panic!("unexpected rejection: {:?}", other),
    }
}

#[test]
fn default_origin_fallback_resolves_field() {
    // No origin annotation at all: the field takes the declared default and
    // its own name as lookup key.
    let rec = record(
        Some(DefaultAnn::Word("header".to_string())),
        vec![field("count", TypeDesc::Scalar(ScalarTag::U64), vec![], None)],
    );
    let (d, ffs) = build_schema(&rec).unwrap();
    assert_eq!(d, OriginTag::Header);
    assert_eq!(ffs.len(), 1);
    assert_eq!(ffs[0].format, OriginTag::Header);
    assert_eq!(ffs[0].rename, "count");
}

#[test]
fn missing_declaration_defaults_to_json() {
    let rec = record(None, vec![field("a", TypeDesc::Scalar(ScalarTag::I64), vec![], None)]);
    let (d, _) = build_schema(&rec).unwrap();
    assert_eq!(d, OriginTag::JsonBody);
    let rec2 = record(
        Some(DefaultAnn::Bare),
        vec![field("a", TypeDesc::Scalar(ScalarTag::I64), vec![], None)],
    );
    let (d2, _) = build_schema(&rec2).unwrap();
    assert_eq!(d2, OriginTag::JsonBody);
}

#[test]
fn unsupported_origin_word_is_rejected() {
    let rec = record(Some(DefaultAnn::Word("cookie".to_string())), vec![]);
    match compile(&rec).unwrap_err() {
        Rejection::UnsupportedOrigin(w) => assert_eq!(w, "cookie"),
        other => panic!("unexpected rejection: {:?}", other),
    }
    let rec2 = record(Some(DefaultAnn::Malformed("42".to_string())), vec![]);
    match compile(&rec2).unwrap_err() {
        Rejection::UnsupportedOrigin(w) => assert_eq!(w, "42"),
        other => panic!("unexpected rejection: {:?}", other),
    }
}

#[test]
fn validate_format_recognizes_the_origin_words() {
    assert_eq!(validate_format("path").unwrap(), OriginTag::Path);
    assert_eq!(validate_format("context").unwrap(), OriginTag::Context);
    assert_eq!(validate_format("header").unwrap(), OriginTag::Header);
    assert_eq!(validate_format("query").unwrap(), OriginTag::Query);
    assert_eq!(validate_format("json").unwrap(), OriginTag::JsonBody);
    assert_eq!(validate_format("form").unwrap(), OriginTag::FormBody);
    assert!(validate_format("body").is_err());
}

#[test]
fn annotation_priority_scan_prefers_path() {
    // A field carrying both a json and a path annotation resolves to path:
    // the priority order decides, not declaration order.
    let rec = record(
        Some(DefaultAnn::Word("json".to_string())),
        vec![field(
            "x",
            TypeDesc::Scalar(ScalarTag::I64),
            vec![ann("json", AnnArg::Bare), ann("path", AnnArg::Bare)],
            None,
        )],
    );
    let (_, ffs) = build_schema(&rec).unwrap();
    assert_eq!(ffs[0].format, OriginTag::Path);
}

#[test]
fn generic_rename_overrides_annotation_key() {
    let rec = record(
        Some(DefaultAnn::Word("json".to_string())),
        vec![field(
            "x",
            TypeDesc::Scalar(ScalarTag::I64),
            vec![ann("json", AnnArg::Key("from_ann".to_string()))],
            Some("from_generic"),
        )],
    );
    let (_, ffs) = build_schema(&rec).unwrap();
    assert_eq!(ffs[0].rename, "from_generic");
}

#[test]
fn explicit_origin_without_rename_keeps_field_name() {
    let rec = record(
        Some(DefaultAnn::Word("json".to_string())),
        vec![field("token", TypeDesc::Opt(ScalarTag::I64), vec![ann("header", AnnArg::Bare)], None)],
    );
    let (_, ffs) = build_schema(&rec).unwrap();
    assert_eq!(ffs[0].rename, "token");
    assert_eq!(ffs[0].format, OriginTag::Header);
}

#[test]
fn unusable_annotation_argument_is_skipped() {
    // The first json annotation has an unusable argument; the second, bare
    // one wins and contributes the field's own name.
    let rec = record(
        Some(DefaultAnn::Word("json".to_string())),
        vec![field(
            "x",
            TypeDesc::Scalar(ScalarTag::I64),
            vec![ann("json", AnnArg::Other), ann("json", AnnArg::Bare)],
            None,
        )],
    );
    let (_, ffs) = build_schema(&rec).unwrap();
    assert_eq!(ffs[0].format, OriginTag::JsonBody);
    assert_eq!(ffs[0].rename, "x");
}

#[test]
fn always_available_origins_pass_validation() {
    // path, context, header and query fields are compatible with any body
    // default; a form default with such fields compiles.
    let rec = record(
        Some(DefaultAnn::Word("form".to_string())),
        vec![
            field("a", TypeDesc::Scalar(ScalarTag::I64), vec![ann("path", AnnArg::Bare)], None),
            field("b", TypeDesc::Scalar(ScalarTag::I64), vec![ann("header", AnnArg::Bare)], None),
            field("c", TypeDesc::Scalar(ScalarTag::I64), vec![ann("query", AnnArg::Bare)], None),
            field("d", TypeDesc::Scalar(ScalarTag::I64), vec![ann("context", AnnArg::Bare)], None),
            field("e", TypeDesc::Scalar(ScalarTag::I64), vec![], None),
        ],
    );
    let plan = compile(&rec).unwrap();
    assert!(!plan.has_json_group);
    let origins: Vec<OriginTag> = plan.groups.iter().map(|g| g.origin).collect();
    assert_eq!(
        origins,
        vec![
            OriginTag::Path,
            OriginTag::Context,
            OriginTag::Header,
            OriginTag::Query,
            OriginTag::FormBody
        ]
    );
}

#[test]
fn structural_unwrapping_only_for_path_and_header() {
    let rec = record(
        Some(DefaultAnn::Word("json".to_string())),
        vec![
            field("a", TypeDesc::OptList(ScalarTag::I64), vec![ann("path", AnnArg::Bare)], None),
            field("b", TypeDesc::Opt(ScalarTag::I64), vec![ann("header", AnnArg::Bare)], None),
            field("c", TypeDesc::OptList(ScalarTag::I64), vec![ann("query", AnnArg::Bare)], None),
        ],
    );
    let (_, ffs) = build_schema(&rec).unwrap();
    assert!(ffs[0].is_option && ffs[0].is_vec);
    assert!(ffs[1].is_option && !ffs[1].is_vec);
    assert!(!ffs[2].is_option && !ffs[2].is_vec);
    assert_eq!(ffs[2].scalar, ScalarTag::I64);
}

#[test]
fn default_format_reads_the_declaration_shapes() {
    let rec = record(Some(DefaultAnn::Word("query".to_string())), vec![]);
    assert_eq!(get_default_format(&rec).unwrap(), OriginTag::Query);
}

#[test]
fn classifier_shapes() {
    let opt_list = TypeDesc::OptList(ScalarTag::I64);
    assert!(is_option_type(&opt_list));
    assert!(!is_vec_type(&opt_list));
    assert_eq!(get_option_inner_type(&opt_list), Some(TypeDesc::List(ScalarTag::I64)));
    assert_eq!(get_vec_inner_type(&TypeDesc::List(ScalarTag::U64)), Some(TypeDesc::Scalar(ScalarTag::U64)));
    assert_eq!(get_vec_inner_type(&opt_list), None);
    assert_eq!(scalar_of(&opt_list), ScalarTag::I64);
    // structural origins unwrap; codec origins do not
    assert_eq!(composite_type(true, &opt_list), (true, true, ScalarTag::I64));
    assert_eq!(composite_type(false, &opt_list), (false, false, ScalarTag::I64));
    assert_eq!(composite_type(true, &TypeDesc::Opt(ScalarTag::Str)), (true, false, ScalarTag::Str));
    assert_eq!(composite_type(true, &TypeDesc::Scalar(ScalarTag::Bool)), (false, false, ScalarTag::Bool));
}
