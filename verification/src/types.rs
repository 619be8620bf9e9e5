//! The data model: origins, scalar types, declared field types, runtime
//! values, and their mathematical views.

use vstd::prelude::*;

verus! {

/// The part of an inbound request a field's value is extracted from.
#[derive(Clone, Copy, Debug, PartialEq, Eq, Structural)]
pub enum OriginTag {
    /// A path segment, filled in by the router.
    Path,
    /// The ambient request context, a typed value bag.
    Context,
    /// A request header.
    Header,
    /// The query string of the request URI.
    Query,
    /// The request body, decoded as JSON.
    JsonBody,
    /// The request body, decoded as form url-encoding.
    FormBody,
}

/// The scalar types a field can be coerced to.
#[derive(Clone, Copy, Debug, PartialEq, Eq, Structural)]
pub enum ScalarTag {
    I64,
    U64,
    Bool,
    Str,
}

/// A field's declared type: a scalar, possibly wrapped in `Option`, `Vec`,
/// or `Option<Vec<..>>`.
#[derive(Clone, Copy, Debug, PartialEq, Eq, Structural)]
pub enum TypeDesc {
    /// `T`
    Scalar(ScalarTag),
    /// `Option<T>`
    Opt(ScalarTag),
    /// `Vec<T>`
    List(ScalarTag),
    /// `Option<Vec<T>>`
    OptList(ScalarTag),
}

/// A runtime scalar value.
#[derive(Debug, PartialEq)]
pub enum ScalarVal {
    I64(i64),
    U64(u64),
    Bool(bool),
    Str(String),
}

/// The mathematical view of a [`ScalarVal`].
pub ghost enum ScalarValV {
    I64(i64),
    U64(u64),
    Bool(bool),
    Str(Seq<char>),
}

impl Clone for ScalarVal {
    /// A clone is equal to the original.
    fn clone(&self) -> (r: Self)
        ensures
            r == *self,
    {
        match self {
            ScalarVal::I64(n) => ScalarVal::I64(*n),
            ScalarVal::U64(n) => ScalarVal::U64(*n),
            ScalarVal::Bool(b) => ScalarVal::Bool(*b),
            ScalarVal::Str(s) => ScalarVal::Str(s.clone()),
        }
    }
}

impl View for ScalarVal {
    type V = ScalarValV;

    open spec fn view(&self) -> ScalarValV {
        match self {
            ScalarVal::I64(n) => ScalarValV::I64(*n),
            ScalarVal::U64(n) => ScalarValV::U64(*n),
            ScalarVal::Bool(b) => ScalarValV::Bool(*b),
            ScalarVal::Str(s) => ScalarValV::Str(s@),
        }
    }
}

/// A populated field value, shaped as its declared type.
#[derive(Debug, PartialEq)]
pub enum FieldVal {
    Scalar(ScalarVal),
    OptScalar(Option<ScalarVal>),
    List(Vec<ScalarVal>),
    OptList(Option<Vec<ScalarVal>>),
}

/// The mathematical view of a [`FieldVal`].
pub ghost enum FieldValV {
    Scalar(ScalarValV),
    OptScalar(Option<ScalarValV>),
    List(Seq<ScalarValV>),
    OptList(Option<Seq<ScalarValV>>),
}

/// Clones a vector of scalar values, element by element.
fn clone_scalars(vs: &Vec<ScalarVal>) -> (r: Vec<ScalarVal>)
    ensures
        r@ == vs@,
{
    let mut out: Vec<ScalarVal> = Vec::new();
    let mut i: usize = 0;
    while i < vs.len()
        invariant
            i <= vs.len(),
            out@ == vs@.take(i as int),
        decreases vs.len() - i,
    {
        let c = vs[i].clone();
        out.push(c);
        proof {
            assert(vs@.take(i + 1) =~= vs@.take(i as int).push(vs@[i as int]));
        }
        i = i + 1;
    }
    proof {
        assert(vs@.take(vs@.len() as int) =~= vs@);
    }
    out
}

impl Clone for FieldVal {
    /// A clone carries the same view as the original.
    fn clone(&self) -> (r: Self)
        ensures
            r@ == self@,
    {
        match self {
            FieldVal::Scalar(v) => FieldVal::Scalar(v.clone()),
            FieldVal::OptScalar(o) => FieldVal::OptScalar(
                match o {
                    Some(v) => Some(v.clone()),
                    None => None,
                },
            ),
            FieldVal::List(vs) => FieldVal::List(clone_scalars(vs)),
            FieldVal::OptList(o) => FieldVal::OptList(
                match o {
                    Some(vs) => Some(clone_scalars(vs)),
                    None => None,
                },
            ),
        }
    }
}

impl View for FieldVal {
    type V = FieldValV;

    open spec fn view(&self) -> FieldValV {
        match self {
            FieldVal::Scalar(v) => FieldValV::Scalar(v@),
            FieldVal::OptScalar(o) => FieldValV::OptScalar(match o {
                Some(v) => Some(v@),
                None => None,
            }),
            FieldVal::List(vs) => FieldValV::List(vs@.map_values(|v: ScalarVal| v@)),
            FieldVal::OptList(o) => FieldValV::OptList(match o {
                Some(vs) => Some(vs@.map_values(|v: ScalarVal| v@)),
                None => None,
            }),
        }
    }
}

/// The view of an optional owned string.
pub open spec fn opt_str_view(o: Option<String>) -> Option<Seq<char>> {
    match o {
        Some(s) => Some(s@),
        None => None,
    }
}

/// The view of a sequence of owned string pairs.
pub open spec fn pairs_view(ps: Seq<(String, String)>) -> Seq<(Seq<char>, Seq<char>)> {
    ps.map_values(|p: (String, String)| (p.0@, p.1@))
}

/// The view of a record's stored fields.
pub open spec fn rec_pairs_view(ps: Seq<(String, FieldVal)>) -> Seq<(Seq<char>, FieldValV)> {
    ps.map_values(|p: (String, FieldVal)| (p.0@, p.1@))
}

/// The view of a sequence of scalar values.
pub open spec fn scalars_view(vs: Seq<ScalarVal>) -> Seq<ScalarValV> {
    vs.map_values(|v: ScalarVal| v@)
}

/// The argument of one origin annotation on a field.
#[derive(Clone, Debug, PartialEq)]
pub enum AnnArg {
    /// `origin` with no argument: the field's own name is the lookup key.
    Bare,
    /// `origin("key")`: the literal sets the lookup key.
    Key(String),
    /// `origin(rename = "key")` or `origin(rename("key"))`.
    Rename(String),
    /// A recognized origin word whose argument has none of the shapes above;
    /// such an annotation is skipped by the scan.
    Other,
}

/// The mathematical view of an [`AnnArg`].
pub ghost enum AnnArgV {
    Bare,
    Key(Seq<char>),
    Rename(Seq<char>),
    Other,
}

impl View for AnnArg {
    type V = AnnArgV;

    open spec fn view(&self) -> AnnArgV {
        match self {
            AnnArg::Bare => AnnArgV::Bare,
            AnnArg::Key(s) => AnnArgV::Key(s@),
            AnnArg::Rename(s) => AnnArgV::Rename(s@),
            AnnArg::Other => AnnArgV::Other,
        }
    }
}

/// One annotation on a field: an attribute word and its argument.
#[derive(Clone, Debug, PartialEq)]
pub struct Annotation {
    pub word: String,
    pub arg: AnnArg,
}

/// The mathematical view of an [`Annotation`].
pub ghost struct AnnotationV {
    pub word: Seq<char>,
    pub arg: AnnArgV,
}

impl View for Annotation {
    type V = AnnotationV;

    open spec fn view(&self) -> AnnotationV {
        AnnotationV { word: self.word@, arg: self.arg@ }
    }
}

/// The record-level default-origin declaration.
#[derive(Clone, Debug, PartialEq)]
pub enum DefaultAnn {
    /// `default` with no argument: the built-in default origin applies.
    Bare,
    /// `default("origin")`, `default = "origin"`, `default(format = "origin")`
    /// or `default(format("origin"))`: all carry one origin word.
    Word(String),
    /// A declaration whose literal could not be read; the carried text is
    /// whatever stood in its place.
    Malformed(String),
}

/// The mathematical view of a [`DefaultAnn`].
pub ghost enum DefaultAnnV {
    Bare,
    Word(Seq<char>),
    Malformed(Seq<char>),
}

impl View for DefaultAnn {
    type V = DefaultAnnV;

    open spec fn view(&self) -> DefaultAnnV {
        match self {
            DefaultAnn::Bare => DefaultAnnV::Bare,
            DefaultAnn::Word(s) => DefaultAnnV::Word(s@),
            DefaultAnn::Malformed(s) => DefaultAnnV::Malformed(s@),
        }
    }
}

/// One declared field of a record: its name, its declared type, its origin
/// annotations in declaration order, and the companion generic rename, if
/// any, which always takes precedence over an origin annotation's own key.
#[derive(Clone, Debug, PartialEq)]
pub struct FieldDecl {
    pub name: String,
    pub ty: TypeDesc,
    pub anns: Vec<Annotation>,
    pub generic_rename: Option<String>,
}

/// The mathematical view of a [`FieldDecl`].
pub ghost struct FieldDeclV {
    pub name: Seq<char>,
    pub ty: TypeDesc,
    pub anns: Seq<AnnotationV>,
    pub generic_rename: Option<Seq<char>>,
}

impl View for FieldDecl {
    type V = FieldDeclV;

    open spec fn view(&self) -> FieldDeclV {
        FieldDeclV {
            name: self.name@,
            ty: self.ty,
            anns: self.anns@.map_values(|a: Annotation| a@),
            generic_rename: match &self.generic_rename {
                Some(s) => Some(s@),
                None => None,
            },
        }
    }
}

/// A record declaration: the target type's name, its default-origin
/// declaration, and its fields in declaration order.
#[derive(Clone, Debug, PartialEq)]
pub struct RecordDecl {
    pub name: String,
    pub default_ann: Option<DefaultAnn>,
    pub fields: Vec<FieldDecl>,
}

/// The mathematical view of a [`RecordDecl`].
pub ghost struct RecordDeclV {
    pub name: Seq<char>,
    pub default_ann: Option<DefaultAnnV>,
    pub fields: Seq<FieldDeclV>,
}

impl View for RecordDecl {
    type V = RecordDeclV;

    open spec fn view(&self) -> RecordDeclV {
        RecordDeclV {
            name: self.name@,
            default_ann: match &self.default_ann {
                Some(d) => Some(d@),
                None => None,
            },
            fields: self.fields@.map_values(|f: FieldDecl| f@),
        }
    }
}

/// The static descriptor of one bound field, produced by the schema builder:
/// name, declared type, resolved origin, lookup key, and shape.
#[derive(Debug, PartialEq)]
pub struct FieldFormat {
    /// The field's declared name.
    pub name: String,
    /// The field's declared type.
    pub ty: TypeDesc,
    /// The resolved origin.
    pub format: OriginTag,
    /// The generic rename annotation carried through for the body codec, if any.
    pub serde: Option<String>,
    /// The lookup key within the origin's data.
    pub rename: String,
    /// Whether a structural origin unwrapped an `Option`.
    pub is_option: bool,
    /// Whether a structural origin unwrapped a `Vec`.
    pub is_vec: bool,
    /// The innermost scalar type.
    pub scalar: ScalarTag,
}

/// The mathematical view of a [`FieldFormat`].
pub ghost struct FieldFormatV {
    pub name: Seq<char>,
    pub ty: TypeDesc,
    pub format: OriginTag,
    pub serde: Option<Seq<char>>,
    pub rename: Seq<char>,
    pub is_option: bool,
    pub is_vec: bool,
    pub scalar: ScalarTag,
}

impl Clone for FieldFormat {
    /// A clone is equal to the original.
    fn clone(&self) -> (r: Self)
        ensures
            r == *self,
    {
        FieldFormat {
            name: self.name.clone(),
            ty: self.ty,
            format: self.format,
            serde: match &self.serde {
                Some(s) => Some(s.clone()),
                None => None,
            },
            rename: self.rename.clone(),
            is_option: self.is_option,
            is_vec: self.is_vec,
            scalar: self.scalar,
        }
    }
}

impl View for FieldFormat {
    type V = FieldFormatV;

    open spec fn view(&self) -> FieldFormatV {
        FieldFormatV {
            name: self.name@,
            ty: self.ty,
            format: self.format,
            serde: match &self.serde {
                Some(s) => Some(s@),
                None => None,
            },
            rename: self.rename@,
            is_option: self.is_option,
            is_vec: self.is_vec,
            scalar: self.scalar,
        }
    }
}

/// The fields of one origin, in declaration order.
#[derive(Clone, Debug, PartialEq)]
pub struct FormatGroup {
    pub origin: OriginTag,
    pub fields: Vec<FieldFormat>,
}

/// The mathematical view of a [`FormatGroup`].
pub ghost struct FormatGroupV {
    pub origin: OriginTag,
    pub fields: Seq<FieldFormatV>,
}

impl View for FormatGroup {
    type V = FormatGroupV;

    open spec fn view(&self) -> FormatGroupV {
        FormatGroupV { origin: self.origin, fields: self.fields@.map_values(|f: FieldFormat| f@) }
    }
}

/// The compiled, immutable plan for one record type: its non-empty origin
/// groups in canonical priority order.
#[derive(Clone, Debug, PartialEq)]
pub struct BindingPlan {
    /// The name of the record type the plan was compiled for.
    pub target_type: String,
    /// The origin groups, in canonical priority order.
    pub groups: Vec<FormatGroup>,
    /// Whether a JSON body group is present.
    pub has_json_group: bool,
}

/// The mathematical view of a [`BindingPlan`].
pub ghost struct BindingPlanV {
    pub target_type: Seq<char>,
    pub groups: Seq<FormatGroupV>,
    pub has_json_group: bool,
}

impl View for BindingPlan {
    type V = BindingPlanV;

    open spec fn view(&self) -> BindingPlanV {
        BindingPlanV {
            target_type: self.target_type@,
            groups: self.groups@.map_values(|g: FormatGroup| g@),
            has_json_group: self.has_json_group,
        }
    }
}

/// Which body codec a decode error came from.
#[derive(Clone, Copy, Debug, PartialEq, Eq, Structural)]
pub enum BodyKind {
    Json,
    Form,
}

/// A typed rejection: why a schema could not be compiled, or a request could
/// not be bound.
#[derive(Clone, Debug, PartialEq)]
pub enum Rejection {
    /// An origin word outside the recognized set, found at schema time.
    UnsupportedOrigin(String),
    /// A field picked a body-exclusive origin different from the record's
    /// declared default origin.
    ConflictingFieldOrigin { field: String, declared_default: OriginTag, field_origin: OriginTag },
    /// The request body could not be decoded; the string carries the
    /// underlying codec message.
    BodyDecodeError(BodyKind, String),
    /// A body group expected a content type the request lacks.
    ContentTypeMismatch,
}

/// The mathematical view of a [`Rejection`].  The underlying codec message of
/// a body decode error is not modeled.
pub ghost enum RejectionV {
    UnsupportedOrigin(Seq<char>),
    ConflictingFieldOrigin { field: Seq<char>, declared_default: OriginTag, field_origin: OriginTag },
    BodyDecodeError(BodyKind),
    ContentTypeMismatch,
}

impl View for Rejection {
    type V = RejectionV;

    open spec fn view(&self) -> RejectionV {
        match self {
            Rejection::UnsupportedOrigin(s) => RejectionV::UnsupportedOrigin(s@),
            Rejection::ConflictingFieldOrigin { field, declared_default, field_origin } => {
                RejectionV::ConflictingFieldOrigin {
                    field: field@,
                    declared_default: *declared_default,
                    field_origin: *field_origin,
                }
            },
            Rejection::BodyDecodeError(k, _) => RejectionV::BodyDecodeError(*k),
            Rejection::ContentTypeMismatch => RejectionV::ContentTypeMismatch,
        }
    }
}

/// A populated record: one value per bound field, keyed by field name, in
/// plan order.
#[derive(Clone, Debug, PartialEq)]
pub struct Record {
    pub fields: Vec<(String, FieldVal)>,
}

/// The mathematical view of a [`Record`].
pub ghost struct RecordV {
    pub fields: Seq<(Seq<char>, FieldValV)>,
}

impl View for Record {
    type V = RecordV;

    open spec fn view(&self) -> RecordV {
        RecordV { fields: rec_pairs_view(self.fields@) }
    }
}

/// The read-only views of an inbound request that binding consumes.
#[derive(Clone, Debug, PartialEq)]
pub struct RequestViews {
    /// The headers, an ordered multi-map with case-insensitive lookup.
    pub headers: Vec<(String, String)>,
    /// The raw query string, if the URI has one.
    pub query: Option<String>,
    /// The path parameters, filled in by the router.
    pub path_params: Vec<(String, String)>,
    /// The body bytes, read to completion.
    pub body: Vec<u8>,
    /// The ambient context values, looked up by scalar type.
    pub context: Vec<ScalarVal>,
}

/// The mathematical view of [`RequestViews`].
pub ghost struct RequestViewsV {
    pub headers: Seq<(Seq<char>, Seq<char>)>,
    pub query: Option<Seq<char>>,
    pub path_params: Seq<(Seq<char>, Seq<char>)>,
    pub body: Seq<u8>,
    pub context: Seq<ScalarValV>,
}

impl View for RequestViews {
    type V = RequestViewsV;

    open spec fn view(&self) -> RequestViewsV {
        RequestViewsV {
            headers: pairs_view(self.headers@),
            query: match &self.query {
                Some(q) => Some(q@),
                None => None,
            },
            path_params: pairs_view(self.path_params@),
            body: self.body@,
            context: scalars_view(self.context@),
        }
    }
}

} // verus!
