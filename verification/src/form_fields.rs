//! What the form derive decides for each field: its HTML name and label, how
//! it renders, how it is deserialised, what it submits as, and whether it is a
//! file upload. Field types are described by their shape (the last path
//! segment and that of the first generic argument); the derive reads the
//! shape from the syntax and writes the code these decisions call for.

use vstd::prelude::*;

use crate::form_attrs::{text_view, FormAttrs};
use crate::names::{html_name_of_parts, humanize_label, humanized, to_pascal_html_name};
use crate::text::{find_char, split_all, str_eq, to_owned};

verus! {

/// The shape of a field's type.
pub struct TypeShape {
    /// The last segment of a path type (`Option` in `std::option::Option<T>`),
    /// `None` for other types.
    pub last: Option<String>,
    /// The last segment of the first generic type argument, if any.
    pub arg: Option<String>,
    /// The type is `()`.
    pub is_unit: bool,
}

/// The shape's last segment as text.
pub open spec fn last_of(t: TypeShape) -> Option<Seq<char>> {
    text_view(t.last)
}

/// The shape's generic argument as text.
pub open spec fn arg_of(t: TypeShape) -> Option<Seq<char>> {
    text_view(t.arg)
}

/// The integer type names that forms read from text.
pub open spec fn is_int_name(s: Seq<char>) -> bool {
    s == "i64"@ || s == "u64"@ || s == "i32"@ || s == "u32"@ || s == "isize"@ || s == "usize"@
}

fn is_int_name_exec(s: &str) -> (r: bool)
    ensures
        r == is_int_name(s@),
{
    str_eq(s, "i64") || str_eq(s, "u64") || str_eq(s, "i32") || str_eq(s, "u32") || str_eq(s, "isize") || str_eq(
        s,
        "usize",
    )
}

/// Whether an optional text equals `lit`.
fn opt_is(o: &Option<String>, lit: &str) -> (r: bool)
    ensures
        r == (text_view(*o) == Some(lit@)),
{
    match o {
        Some(s) => str_eq(s.as_str(), lit),
        None => false,
    }
}

/// `Option<_>`.
pub open spec fn is_option(t: TypeShape) -> bool {
    last_of(t) == Some("Option"@)
}

/// An integer type.
pub open spec fn is_integer(t: TypeShape) -> bool {
    match last_of(t) {
        Some(l) => is_int_name(l),
        None => false,
    }
}

/// Whether the shape is `Option<_>`.
pub fn shape_is_option(t: &TypeShape) -> (r: bool)
    ensures
        r == is_option(*t),
{
    opt_is(&t.last, "Option")
}

/// Whether the shape is an integer type.
pub fn shape_is_integer(t: &TypeShape) -> (r: bool)
    ensures
        r == is_integer(*t),
{
    match &t.last {
        Some(l) => is_int_name_exec(l.as_str()),
        None => false,
    }
}

/// `Option` of an integer.
pub open spec fn is_option_integer(t: TypeShape) -> bool {
    is_option(t) && match arg_of(t) {
        Some(a) => is_int_name(a),
        None => false,
    }
}

/// `Vec` of an integer.
pub open spec fn is_vec_integer(t: TypeShape) -> bool {
    last_of(t) == Some("Vec"@) && match arg_of(t) {
        Some(a) => is_int_name(a),
        None => false,
    }
}

/// `Vec<String>`.
pub open spec fn is_vec_string(t: TypeShape) -> bool {
    last_of(t) == Some("Vec"@) && arg_of(t) == Some("String"@)
}

/// `bool`.
pub open spec fn is_bool(t: TypeShape) -> bool {
    last_of(t) == Some("bool"@)
}

/// `String` or `Vec<_>`: empty by default.
pub open spec fn is_defaultable(t: TypeShape) -> bool {
    last_of(t) == Some("String"@) || last_of(t) == Some("Vec"@)
}

/// How a field takes uploaded files.
#[derive(Debug, Clone, Copy, PartialEq, Eq, Structural)]
pub enum UploadKind {
    NoUpload,
    /// `Upload`.
    One,
    /// `Option<Upload>`.
    Optional,
    /// `Vec<Upload>`.
    Many,
}

/// The upload kind of a type shape.
pub open spec fn upload_of(t: TypeShape) -> UploadKind {
    if last_of(t) == Some("Upload"@) {
        UploadKind::One
    } else if last_of(t) == Some("Option"@) && arg_of(t) == Some("Upload"@) {
        UploadKind::Optional
    } else if last_of(t) == Some("Vec"@) && arg_of(t) == Some("Upload"@) {
        UploadKind::Many
    } else {
        UploadKind::NoUpload
    }
}

/// Classify a field type as an upload.
pub fn classify_upload(t: &TypeShape) -> (r: UploadKind)
    ensures
        r == upload_of(*t),
{
    if opt_is(&t.last, "Upload") {
        UploadKind::One
    } else if opt_is(&t.last, "Option") && opt_is(&t.arg, "Upload") {
        UploadKind::Optional
    } else if opt_is(&t.last, "Vec") && opt_is(&t.arg, "Upload") {
        UploadKind::Many
    } else {
        UploadKind::NoUpload
    }
}

/// The last segment of a path written with `::` separators.
pub open spec fn last_segment(path: Seq<char>) -> Seq<char>
    decreases path.len(),
{
    if find_char(path, ':') < 0 {
        path
    } else {
        proof {
            crate::text::lemma_find_char(path, ':');
        }
        last_segment(path.skip(find_char(path, ':') + 1))
    }
}

/// The last segment of a path.
pub fn last_segment_of(path: &str) -> (r: String)
    ensures
        r@ == last_segment(path@),
{
    let v = crate::text::chars_of(path);
    let mut start: usize = 0;
    proof {
        assert(v@.skip(0) == v@);
    }
    while start < v.len()
        invariant
            start <= v.len(),
            last_segment(v@.skip(start as int)) == last_segment(path@),
            v@ == path@,
        decreases v.len() - start,
    {
        let rest = crate::text::sub_vec(&v, start, v.len());
        assert(rest@ == v@.skip(start as int));
        match crate::text::find(&rest, ':') {
            Some(p) => {
                proof {
                    crate::text::lemma_find_char(rest@, ':');
                    assert(rest@.skip(p + 1) == v@.skip(start + p + 1));
                }
                start = start + p + 1;
            },
            None => {
                return crate::text::string_of(&rest);
            },
        }
    }
    proof {
        assert(v@.skip(start as int) =~= Seq::<char>::empty());
        crate::text::lemma_find_char(Seq::<char>::empty(), ':');
    }
    String::new()
}

/// How a field renders.
#[derive(Debug, Clone, Copy, PartialEq, Eq, Structural)]
pub enum RenderKind {
    /// A nested form kind rendered by its own type.
    Kind,
    /// The foreign-key picker wired to the field's route.
    ForeignKey,
    /// The many-to-many picker wired to the field's route.
    ManyToMany,
    /// The widget's own renderer.
    Widget,
}

/// A reader of submitted form text for one field type.
#[derive(Debug, Clone, Copy, PartialEq, Eq, Structural)]
pub enum SerdeReader {
    /// An empty text is `None`.
    EmptyStrAsNone,
    /// An empty text is zero.
    EmptyStrAsI64,
    /// Repeated values as integers.
    FormVecI64,
    /// Repeated values as strings.
    FormVecString,
    /// A checkbox: present means `true`.
    FormCheckboxBool,
}

impl SerdeReader {
    /// The path of the reader function the generated code names.
    pub fn path(&self) -> (r: &'static str)
        ensures
            *self == SerdeReader::EmptyStrAsNone ==> r@ == "::lariv_rs::html_form::empty_str_as_none"@,
            *self == SerdeReader::EmptyStrAsI64 ==> r@ == "::lariv_rs::html_form::empty_str_as_i64"@,
            *self == SerdeReader::FormVecI64 ==> r@ == "::lariv_rs::html_form::form_vec_i64"@,
            *self == SerdeReader::FormVecString ==> r@ == "::lariv_rs::html_form::form_vec_string"@,
            *self == SerdeReader::FormCheckboxBool ==> r@ == "::lariv_rs::html_form::form_checkbox_bool"@,
    {
        match self {
            SerdeReader::EmptyStrAsNone => "::lariv_rs::html_form::empty_str_as_none",
            SerdeReader::EmptyStrAsI64 => "::lariv_rs::html_form::empty_str_as_i64",
            SerdeReader::FormVecI64 => "::lariv_rs::html_form::form_vec_i64",
            SerdeReader::FormVecString => "::lariv_rs::html_form::form_vec_string",
            SerdeReader::FormCheckboxBool => "::lariv_rs::html_form::form_checkbox_bool",
        }
    }
}

/// How a field is deserialised.
#[derive(Debug, Clone, Copy, PartialEq, Eq, Structural)]
pub enum SerdePlan {
    /// Not read from the submitted form.
    Skip,
    /// Renamed to the HTML name with the Rust name as alias; `default` when the
    /// form may omit it; `with` the reader of the submitted text, if special.
    Read { default: bool, with: Option<SerdeReader> },
}

/// What a field submits as.
#[derive(Debug, Clone, Copy, PartialEq, Eq, Structural)]
pub enum SubmitKind {
    /// One uploaded file.
    UploadedFile,
    /// An optional uploaded file.
    OptionalUploadedFile,
    /// Uploaded files.
    UploadedFiles,
    /// The nested kind's own submit type.
    KindSubmit,
    /// The declared type.
    Declared,
}

/// Everything the derive decides for one field.
pub struct FieldPlan {
    pub html_name: String,
    pub label: String,
    pub is_kind: bool,
    pub upload: UploadKind,
    pub skip_deser: bool,
    pub multiple: bool,
    pub render: RenderKind,
    pub serde: SerdePlan,
    pub submit: SubmitKind,
}

/// The deserialisation of a field that is read.
pub open spec fn serde_of(skip: bool, t: TypeShape) -> SerdePlan {
    if skip {
        SerdePlan::Skip
    } else if is_option(t) {
        SerdePlan::Read {
            default: true,
            with: if is_option_integer(t) { Some(SerdeReader::EmptyStrAsNone) } else { None },
        }
    } else if is_integer(t) {
        SerdePlan::Read { default: true, with: Some(SerdeReader::EmptyStrAsI64) }
    } else if is_vec_integer(t) {
        SerdePlan::Read { default: true, with: Some(SerdeReader::FormVecI64) }
    } else if is_vec_string(t) {
        SerdePlan::Read { default: true, with: Some(SerdeReader::FormVecString) }
    } else if is_bool(t) {
        SerdePlan::Read { default: true, with: Some(SerdeReader::FormCheckboxBool) }
    } else {
        SerdePlan::Read { default: is_defaultable(t), with: None }
    }
}

fn serde_plan(skip: bool, t: &TypeShape) -> (r: SerdePlan)
    ensures
        r == serde_of(skip, *t),
{
    let option = opt_is(&t.last, "Option");
    let integer = match &t.last {
        Some(l) => is_int_name_exec(l.as_str()),
        None => false,
    };
    let arg_int = match &t.arg {
        Some(a) => is_int_name_exec(a.as_str()),
        None => false,
    };
    let vec = opt_is(&t.last, "Vec");
    if skip {
        SerdePlan::Skip
    } else if option {
        SerdePlan::Read {
            default: true,
            with: if arg_int { Some(SerdeReader::EmptyStrAsNone) } else { None },
        }
    } else if integer {
        SerdePlan::Read { default: true, with: Some(SerdeReader::EmptyStrAsI64) }
    } else if vec && arg_int {
        SerdePlan::Read { default: true, with: Some(SerdeReader::FormVecI64) }
    } else if vec && opt_is(&t.arg, "String") {
        SerdePlan::Read { default: true, with: Some(SerdeReader::FormVecString) }
    } else if opt_is(&t.last, "bool") {
        SerdePlan::Read { default: true, with: Some(SerdeReader::FormCheckboxBool) }
    } else {
        SerdePlan::Read { default: opt_is(&t.last, "String") || vec, with: None }
    }
}

/// The submit type of a field.
pub open spec fn submit_of(upload: UploadKind, is_kind: bool) -> SubmitKind {
    match upload {
        UploadKind::One => SubmitKind::UploadedFile,
        UploadKind::Optional => SubmitKind::OptionalUploadedFile,
        UploadKind::Many => SubmitKind::UploadedFiles,
        UploadKind::NoUpload => if is_kind { SubmitKind::KindSubmit } else { SubmitKind::Declared },
    }
}

/// The renderer of a field.
pub open spec fn render_of(is_kind: bool, has_route: bool, widget_last: Seq<char>) -> RenderKind {
    if is_kind {
        RenderKind::Kind
    } else if has_route && widget_last == "ForeignKey"@ {
        RenderKind::ForeignKey
    } else if has_route && widget_last == "ManyToMany"@ {
        RenderKind::ManyToMany
    } else {
        RenderKind::Widget
    }
}

/// The message when a field names no widget.
pub const MISSING_WIDGET: &'static str = "#[form(widget = ...)] is required on every field";

/// The field's HTML name: the one given, else the PascalCase of its Rust name.
pub open spec fn html_name_spec(rust_name: Seq<char>, form: FormAttrs) -> Seq<char> {
    match text_view(form.name) {
        Some(n) => n,
        None => html_name_of_parts(split_all(rust_name, '_')),
    }
}

/// `plan` is what the derive decides for a field named `rust_name` with
/// options `form`, widget path `widget` and type shape `t`.
pub open spec fn plan_matches(plan: FieldPlan, rust_name: Seq<char>, form: FormAttrs, widget: Seq<char>, t: TypeShape) -> bool {
    let html = html_name_spec(rust_name, form);
    let is_kind = last_segment(widget) == "Kind"@;
    let is_section = last_segment(widget) == "Section"@;
    let upload = upload_of(t);
    let skip = t.is_unit || is_section || form.skip_deser || upload != UploadKind::NoUpload || is_kind;
    &&& plan.html_name@ == html
    &&& plan.label@ == match text_view(form.label) {
        Some(l) => l,
        None => humanized(html),
    }
    &&& plan.is_kind == is_kind
    &&& plan.upload == upload
    &&& plan.skip_deser == skip
    &&& plan.multiple == (form.multiple || upload == UploadKind::Many)
    &&& plan.render == render_of(is_kind, form.route is Some, last_segment(widget))
    &&& plan.serde == serde_of(skip, t)
    &&& plan.submit == submit_of(upload, is_kind)
}

/// Decide a field: it must name a widget.
pub fn prepare_field(rust_name: &str, form: &FormAttrs, t: &TypeShape) -> (r: Result<FieldPlan, &'static str>)
    ensures
        match r {
            Ok(plan) => form.widget matches Some(w) && plan_matches(plan, rust_name@, *form, w@, *t),
            Err(m) => form.widget is None && m@ == MISSING_WIDGET@,
        },
{
    let widget = match &form.widget {
        Some(w) => w,
        None => {
            return Err(MISSING_WIDGET);
        },
    };
    let html_name = match &form.name {
        Some(n) => n.clone(),
        None => to_pascal_html_name(rust_name),
    };
    let label = match &form.label {
        Some(l) => l.clone(),
        None => humanize_label(html_name.as_str()),
    };
    let last = last_segment_of(widget.as_str());
    let is_kind = str_eq(last.as_str(), "Kind");
    let is_section = str_eq(last.as_str(), "Section");
    let upload = classify_upload(t);
    let skip_deser = t.is_unit || is_section || form.skip_deser || !matches!(upload, UploadKind::NoUpload) || is_kind;
    let multiple = form.multiple || matches!(upload, UploadKind::Many);
    let render = if is_kind {
        RenderKind::Kind
    } else if form.route.is_some() && str_eq(last.as_str(), "ForeignKey") {
        RenderKind::ForeignKey
    } else if form.route.is_some() && str_eq(last.as_str(), "ManyToMany") {
        RenderKind::ManyToMany
    } else {
        RenderKind::Widget
    };
    let serde = serde_plan(skip_deser, t);
    let submit = match upload {
        UploadKind::One => SubmitKind::UploadedFile,
        UploadKind::Optional => SubmitKind::OptionalUploadedFile,
        UploadKind::Many => SubmitKind::UploadedFiles,
        UploadKind::NoUpload => if is_kind { SubmitKind::KindSubmit } else { SubmitKind::Declared },
    };
    Ok(FieldPlan { html_name, label, is_kind, upload, skip_deser, multiple, render, serde, submit })
}

/// The HTML names of the single-file fields and of the multi-file fields, in order.
pub open spec fn file_names(plans: Seq<FieldPlan>) -> (Seq<Seq<char>>, Seq<Seq<char>>)
    decreases plans.len(),
{
    if plans.len() == 0 {
        (Seq::empty(), Seq::empty())
    } else {
        let (ones, manys) = file_names(plans.drop_last());
        let p = plans.last();
        match p.upload {
            UploadKind::One | UploadKind::Optional => (ones.push(p.html_name@), manys),
            UploadKind::Many => (ones, manys.push(p.html_name@)),
            UploadKind::NoUpload => (ones, manys),
        }
    }
}

/// Collect the upload fields' names.
pub fn collect_file_names(plans: &Vec<FieldPlan>) -> (r: (Vec<String>, Vec<String>))
    ensures
        (r.0@.map_values(|s: String| s@), r.1@.map_values(|s: String| s@)) == file_names(plans@),
{
    let mut ones: Vec<String> = Vec::new();
    let mut manys: Vec<String> = Vec::new();
    let mut i: usize = 0;
    assert(ones@.map_values(|s: String| s@) =~= Seq::<Seq<char>>::empty());
    assert(manys@.map_values(|s: String| s@) =~= Seq::<Seq<char>>::empty());
    assert(plans@.take(0) =~= Seq::<FieldPlan>::empty());
    while i < plans.len()
        invariant
            i <= plans.len(),
            (ones@.map_values(|s: String| s@), manys@.map_values(|s: String| s@)) == file_names(plans@.take(i as int)),
        decreases plans.len() - i,
    {
        let p = &plans[i];
        proof {
            assert(plans@.take(i + 1).drop_last() == plans@.take(i as int));
            assert(plans@.take(i + 1).last() == *p);
        }
        let ghost o0 = ones@.map_values(|s: String| s@);
        let ghost m0 = manys@.map_values(|s: String| s@);
        match p.upload {
            UploadKind::One | UploadKind::Optional => {
                ones.push(p.html_name.clone());
                assert(ones@.map_values(|s: String| s@) =~= o0.push(p.html_name@));
            },
            UploadKind::Many => {
                manys.push(p.html_name.clone());
                assert(manys@.map_values(|s: String| s@) =~= m0.push(p.html_name@));
            },
            UploadKind::NoUpload => {},
        }
        i = i + 1;
    }
    assert(plans@.take(plans.len() as int) == plans@);
    (ones, manys)
}

/// The tag of a form kind (enum) when none is given.
pub const DEFAULT_KIND_TAG: &'static str = "Kind";

/// The client model name of a kind tag: the tag with its first character
/// lower-cased (`kind` for an empty tag).
pub open spec fn kind_model_spec(tag: Seq<char>) -> Seq<char> {
    if tag.len() == 0 {
        "kind"@
    } else {
        crate::trigram::lowered(seq![tag[0]]) + tag.drop_first()
    }
}

/// The tag of a form kind and its client model name.
pub fn kind_tag_and_model(tag: Option<&str>) -> (r: (String, String))
    ensures
        r.0@ == match tag {
            Some(t) => t@,
            None => DEFAULT_KIND_TAG@,
        },
        r.1@ == kind_model_spec(r.0@),
{
    let t = match tag {
        Some(t) => to_owned(t),
        None => to_owned(DEFAULT_KIND_TAG),
    };
    let v = crate::text::chars_of(t.as_str());
    if v.len() == 0 {
        return (t, to_owned("kind"));
    }
    let mut first = String::new();
    crate::text::push_char(&mut first, v[0]);
    assert(first@ == seq![v@[0]]);
    let mut model = crate::trigram::lowercase_of(first.as_str());
    let ghost head = model@;
    let mut i: usize = 1;
    while i < v.len()
        invariant
            1 <= i <= v.len(),
            model@ == head + v@.subrange(1, i as int),
        decreases v.len() - i,
    {
        crate::text::push_char(&mut model, v[i]);
        assert(v@.subrange(1, i + 1) == v@.subrange(1, i as int).push(v@[i as int]));
        i = i + 1;
    }
    assert(v@.subrange(1, v.len() as int) == v@.drop_first());
    (t, model)
}

} // verus!
