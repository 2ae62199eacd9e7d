//! The Rust code that `#[html_form]` writes from its field decisions: the
//! `FieldSpec` literal of each field and the `assemble_submit` body of a
//! struct form, as source text.

use vstd::prelude::*;

use crate::form_attrs::{hint_view, text_view, FormAttrs, HintSource};
use crate::attrs::{insert_sorted, HtmlAttrs};
use crate::form_fields::{
    is_integer, is_option, kind_model_spec, shape_is_integer, shape_is_option, kind_tag_and_model, FieldPlan, RenderKind, SerdePlan, SerdeReader, SubmitKind,
    TypeShape, UploadKind, DEFAULT_KIND_TAG,
};
use crate::names::{to_rust_variant_name, variant_of_parts};
use crate::route_codegen::{push_str_lit, str_lit};
use crate::text::{decimal, push_decimal, push_str, split_all, to_owned};

verus! {

// ---------------------------------------------------------------------------
// FieldSpec literals
// ---------------------------------------------------------------------------

/// `true` or `false`.
pub open spec fn bool_text(b: bool) -> Seq<char> {
    if b {
        "true"@
    } else {
        "false"@
    }
}

/// An optional string option: `Some("…")` or `None`.
pub open spec fn opt_str_text(o: Option<Seq<char>>) -> Seq<char> {
    match o {
        Some(s) => "::core::option::Option::Some("@ + str_lit(s) + ")"@,
        None => "::core::option::Option::None"@,
    }
}

/// The hint: a literal is quoted, a path is written as it is.
pub open spec fn hint_text(h: Option<(bool, Seq<char>)>) -> Seq<char> {
    match h {
        Some((true, s)) => "::core::option::Option::Some("@ + str_lit(s) + ")"@,
        Some((false, p)) => "::core::option::Option::Some("@ + p + ")"@,
        None => "::core::option::Option::None"@,
    }
}

/// The text-area rows, a `u32` literal.
pub open spec fn rows_text(rows: Option<u32>) -> Seq<char> {
    match rows {
        Some(n) => "::core::option::Option::Some("@ + decimal(n as nat) + "u32)"@,
        None => "::core::option::Option::None"@,
    }
}

/// The text of an optional route, empty where there is none.
pub open spec fn route_text(o: Option<Seq<char>>) -> Seq<char> {
    match o {
        Some(r) => r,
        None => seq![],
    }
}

/// The renderer of a field: the nested kind's, the foreign-key or
/// many-to-many picker bound to the field's route, or the widget's own.
pub open spec fn render_text(render: RenderKind, route: Seq<char>, widget: Seq<char>, ty: Seq<char>) -> Seq<char> {
    match render {
        RenderKind::Kind => "|ctx, field| ::lariv_rs::html_form::render_kind::<"@ + ty + ">(ctx, field)"@,
        RenderKind::ForeignKey => "|ctx, field| {\n        let default_url = "@ + route
            + ".url();\n        let url = ctx.url_of(field.spec);\n        let url = if url.is_empty() { default_url.as_str() } else { url };\n        let display_key = field.spec.display_key.unwrap_or(field.name);\n        let ph = field.spec.placeholder.unwrap_or(\"Select...\");\n        ::lariv_rs::components::input_foreign_key(::lariv_rs::components::InputForeignKey { label: field.label, name: field.name, value: field.value, display: ctx.display_of(display_key), placeholder: ph, url, uid: field.spec.swap_key.unwrap_or(\"\"), required: field.required, ..Default::default() })\n    }"@,
        RenderKind::ManyToMany => "|ctx, field| {\n        let default_url = "@ + route
            + ".url();\n        let url = ctx.url_of(field.spec);\n        let url = if url.is_empty() { default_url.as_str() } else { url };\n        let ph = field.spec.placeholder.unwrap_or(\"Select...\");\n        let attrs = match field.spec.swap_key { Some(id) => ::lariv_rs::components::HtmlAttrs::new().set(\"id\", id), None => ::lariv_rs::components::HtmlAttrs::new() };\n        ::lariv_rs::components::input_many_to_many(::lariv_rs::components::InputManyToMany { label: field.label, name: field.name, items: ctx.m2m_of(field.name), placeholder: ph, url, attrs, ..Default::default() })\n    }"@,
        RenderKind::Widget => "<"@ + widget + " as ::lariv_rs::html_form::FormWidget>::render"@,
    }
}

/// The `FieldSpec` literal of a field decided as `plan`, with options `form`,
/// widget path `widget` and declared type `ty`.
pub open spec fn field_spec_text_spec(plan: FieldPlan, form: FormAttrs, widget: Seq<char>, ty: Seq<char>) -> Seq<char> {
    "::lariv_rs::html_form::FieldSpec {\n    name: "@ + str_lit(plan.html_name@) + ",\n    label: "@
        + str_lit(plan.label@) + ",\n    required: "@ + bool_text(form.required) + ",\n    row: "@
        + opt_str_text(text_view(form.row)) + ",\n    when: "@ + opt_str_text(text_view(form.when))
        + ",\n    required_unless: "@ + opt_str_text(text_view(form.required_unless)) + ",\n    model: "@
        + opt_str_text(text_view(form.model)) + ",\n    show: "@ + opt_str_text(text_view(form.show))
        + ",\n    url: "@ + opt_str_text(text_view(form.url)) + ",\n    swap_key: "@
        + opt_str_text(text_view(form.swap_key)) + ",\n    display_key: "@
        + opt_str_text(text_view(form.display)) + ",\n    error_key: "@ + opt_str_text(text_view(form.error))
        + ",\n    choices_key: "@ + opt_str_text(text_view(form.choices)) + ",\n    placeholder: "@
        + opt_str_text(text_view(form.placeholder)) + ",\n    hint: "@ + hint_text(hint_view(form.hint))
        + ",\n    rows: "@ + rows_text(form.rows) + ",\n    multiple: "@ + bool_text(plan.multiple)
        + ",\n    accept: "@ + opt_str_text(text_view(form.accept)) + ",\n    render: "@
        + render_text(plan.render, route_text(text_view(form.route)), widget, ty) + ",\n}"@
}

fn push_bool(out: &mut String, b: bool)
    ensures
        final(out)@ == old(out)@ + bool_text(b),
{
    if b {
        push_str(out, "true");
    } else {
        push_str(out, "false");
    }
}

fn push_opt_str(out: &mut String, o: &Option<String>)
    ensures
        final(out)@ == old(out)@ + opt_str_text(text_view(*o)),
{
    match o {
        Some(s) => {
            push_str(out, "::core::option::Option::Some(");
            push_str_lit(out, s.as_str());
            push_str(out, ")");
        },
        None => push_str(out, "::core::option::Option::None"),
    }
}

fn push_hint(out: &mut String, h: &Option<HintSource>)
    ensures
        final(out)@ == old(out)@ + hint_text(hint_view(*h)),
{
    match h {
        Some(HintSource::Lit(s)) => {
            push_str(out, "::core::option::Option::Some(");
            push_str_lit(out, s.as_str());
            push_str(out, ")");
        },
        Some(HintSource::Path(p)) => {
            push_str(out, "::core::option::Option::Some(");
            push_str(out, p.as_str());
            push_str(out, ")");
        },
        None => push_str(out, "::core::option::Option::None"),
    }
}

fn push_rows(out: &mut String, rows: Option<u32>)
    ensures
        final(out)@ == old(out)@ + rows_text(rows),
{
    match rows {
        Some(n) => {
            push_str(out, "::core::option::Option::Some(");
            push_decimal(out, n as u64);
            push_str(out, "u32)");
        },
        None => push_str(out, "::core::option::Option::None"),
    }
}

fn push_render(out: &mut String, render: RenderKind, route: &Option<String>, widget: &str, ty: &str)
    ensures
        final(out)@ == old(out)@ + render_text(render, route_text(text_view(*route)), widget@, ty@),
{
    let ghost start = out@;
    let r: &str = match route {
        Some(r) => r.as_str(),
        None => "",
    };
    proof {
        if route is None {
            reveal_strlit("");
        }
    }
    assert(r@ == route_text(text_view(*route)));
    match render {
        RenderKind::Kind => {
            push_str(out, "|ctx, field| ::lariv_rs::html_form::render_kind::<");
            push_str(out, ty);
            push_str(out, ">(ctx, field)");
        },
        RenderKind::ForeignKey => {
            push_str(out, "|ctx, field| {\n        let default_url = ");
            push_str(out, r);
            push_str(out, ".url();\n        let url = ctx.url_of(field.spec);\n        let url = if url.is_empty() { default_url.as_str() } else { url };\n        let display_key = field.spec.display_key.unwrap_or(field.name);\n        let ph = field.spec.placeholder.unwrap_or(\"Select...\");\n        ::lariv_rs::components::input_foreign_key(::lariv_rs::components::InputForeignKey { label: field.label, name: field.name, value: field.value, display: ctx.display_of(display_key), placeholder: ph, url, uid: field.spec.swap_key.unwrap_or(\"\"), required: field.required, ..Default::default() })\n    }");
        },
        RenderKind::ManyToMany => {
            push_str(out, "|ctx, field| {\n        let default_url = ");
            push_str(out, r);
            push_str(out, ".url();\n        let url = ctx.url_of(field.spec);\n        let url = if url.is_empty() { default_url.as_str() } else { url };\n        let ph = field.spec.placeholder.unwrap_or(\"Select...\");\n        let attrs = match field.spec.swap_key { Some(id) => ::lariv_rs::components::HtmlAttrs::new().set(\"id\", id), None => ::lariv_rs::components::HtmlAttrs::new() };\n        ::lariv_rs::components::input_many_to_many(::lariv_rs::components::InputManyToMany { label: field.label, name: field.name, items: ctx.m2m_of(field.name), placeholder: ph, url, attrs, ..Default::default() })\n    }");
        },
        RenderKind::Widget => {
            push_str(out, "<");
            push_str(out, widget);
            push_str(out, " as ::lariv_rs::html_form::FormWidget>::render");
        },
    }
    assert(out@ =~= start + render_text(render, route_text(text_view(*route)), widget@, ty@));
}

/// The `FieldSpec` literal `#[html_form]` writes for a field decided as
/// `plan`, with options `form`, widget path `widget` and declared type `ty`.
pub fn field_spec_text(plan: &FieldPlan, form: &FormAttrs, widget: &str, ty: &str) -> (r: String)
    ensures
        r@ == field_spec_text_spec(*plan, *form, widget@, ty@),
{
    let mut out = to_owned("::lariv_rs::html_form::FieldSpec {\n    name: ");
    push_str_lit(&mut out, plan.html_name.as_str());
    push_str(&mut out, ",\n    label: ");
    push_str_lit(&mut out, plan.label.as_str());
    push_str(&mut out, ",\n    required: ");
    push_bool(&mut out, form.required);
    push_str(&mut out, ",\n    row: ");
    push_opt_str(&mut out, &form.row);
    push_str(&mut out, ",\n    when: ");
    push_opt_str(&mut out, &form.when);
    push_str(&mut out, ",\n    required_unless: ");
    push_opt_str(&mut out, &form.required_unless);
    push_str(&mut out, ",\n    model: ");
    push_opt_str(&mut out, &form.model);
    push_str(&mut out, ",\n    show: ");
    push_opt_str(&mut out, &form.show);
    push_str(&mut out, ",\n    url: ");
    push_opt_str(&mut out, &form.url);
    push_str(&mut out, ",\n    swap_key: ");
    push_opt_str(&mut out, &form.swap_key);
    push_str(&mut out, ",\n    display_key: ");
    push_opt_str(&mut out, &form.display);
    push_str(&mut out, ",\n    error_key: ");
    push_opt_str(&mut out, &form.error);
    push_str(&mut out, ",\n    choices_key: ");
    push_opt_str(&mut out, &form.choices);
    push_str(&mut out, ",\n    placeholder: ");
    push_opt_str(&mut out, &form.placeholder);
    push_str(&mut out, ",\n    hint: ");
    push_hint(&mut out, &form.hint);
    push_str(&mut out, ",\n    rows: ");
    push_rows(&mut out, form.rows);
    push_str(&mut out, ",\n    multiple: ");
    push_bool(&mut out, plan.multiple);
    push_str(&mut out, ",\n    accept: ");
    push_opt_str(&mut out, &form.accept);
    push_str(&mut out, ",\n    render: ");
    push_render(&mut out, plan.render, &form.route, widget, ty);
    push_str(&mut out, ",\n}");
    out
}

// ---------------------------------------------------------------------------
// assemble_submit of a struct form
// ---------------------------------------------------------------------------

/// A field as the derive sees it: its Rust name, visibility (`pub ` or
/// empty), declared type and widget path as written, its form options, its
/// other attributes as written, and what was decided for it.
pub struct PreparedField {
    pub rust_name: String,
    pub vis: String,
    pub ty: String,
    pub widget: String,
    pub form: FormAttrs,
    pub extra_attrs: Vec<String>,
    pub shape: TypeShape,
    pub plan: FieldPlan,
}

/// The path of a reader of submitted text.
pub open spec fn reader_path_text(r: SerdeReader) -> Seq<char> {
    match r {
        SerdeReader::EmptyStrAsNone => "::lariv_rs::html_form::empty_str_as_none"@,
        SerdeReader::EmptyStrAsI64 => "::lariv_rs::html_form::empty_str_as_i64"@,
        SerdeReader::FormVecI64 => "::lariv_rs::html_form::form_vec_i64"@,
        SerdeReader::FormVecString => "::lariv_rs::html_form::form_vec_string"@,
        SerdeReader::FormCheckboxBool => "::lariv_rs::html_form::form_checkbox_bool"@,
    }
}

/// The `#[serde(...)]` arguments of a field: `skip`, or renamed to its HTML
/// name with its Rust name as alias, `default` and the reader where decided.
pub open spec fn serde_attrs_text(f: PreparedField) -> Seq<char> {
    match f.plan.serde {
        SerdePlan::Skip => "skip"@,
        SerdePlan::Read { default, with } => "rename = "@ + str_lit(f.plan.html_name@) + ", alias = "@
            + str_lit(f.rust_name@) + (if default {
            ", default"@
        } else {
            seq![]
        }) + match with {
            Some(r) => ", deserialize_with = "@ + str_lit(reader_path_text(r)),
            None => seq![],
        },
    }
}

/// The pieces of the `assemble_submit` body that have one entry per field.
#[derive(Debug, Clone, Copy, PartialEq, Eq, Structural)]
pub enum SubmitPart {
    /// The fields of the `__Wire` struct read from the submitted text.
    WireFields,
    /// `&wire.name, ` for each wire field.
    WireRefs,
    /// The field initialisers of the submitted value.
    Assigns,
}

/// Whether a field is read through `__Wire`: not an upload, and either a
/// nested kind (its discriminant) or deserialised.
pub open spec fn on_wire(f: PreparedField) -> bool {
    f.plan.upload == UploadKind::NoUpload && (f.plan.is_kind || !f.plan.skip_deser)
}

/// How the submitted value gets a field.
pub open spec fn assign_text(f: PreparedField) -> Seq<char> {
    let n = f.rust_name@;
    let h = str_lit(f.plan.html_name@);
    let t = f.ty@;
    match f.plan.upload {
        UploadKind::One => n + ": parts.files.remove("@ + h
            + ").ok_or_else(|| ::lariv_rs::html_form::FormError::Validation(::std::format!(\"{} is required\", "@ + h
            + ")))?, "@,
        UploadKind::Optional => n + ": parts.files.remove("@ + h + "), "@,
        UploadKind::Many => n + ": parts.file_lists.remove("@ + h + ").unwrap_or_default(), "@,
        UploadKind::NoUpload => if f.plan.is_kind {
            n + ": { let tag = <"@ + t
                + " as ::lariv_rs::html_form::HtmlKind>::kind_tag(); let mut kind_parts = ::lariv_rs::html_form::MultipartParts { text: ::lariv_rs::html_form::UrlencodedFields::default(), files: ::std::collections::HashMap::new(), file_lists: ::std::collections::HashMap::new() }; let disc = parts.text.get_first(tag).map(|s| s.to_string()).filter(|s| !s.is_empty()).unwrap_or_else(|| wire."@
                + n + ".clone()); if !disc.is_empty() { kind_parts.text.push(tag, disc); } for n in <"@ + t
                + " as ::lariv_rs::html_form::HtmlForm>::file_field_names() { if let Some(file) = parts.files.remove(*n) { kind_parts.files.insert((*n).to_string(), file); } } for n in <"@
                + t
                + " as ::lariv_rs::html_form::HtmlForm>::multi_file_field_names() { if let Some(list) = parts.file_lists.remove(*n) { kind_parts.file_lists.insert((*n).to_string(), list); } } <"@
                + t + " as ::lariv_rs::html_form::HtmlForm>::assemble_submit(kind_parts)? }, "@
        } else if f.plan.skip_deser {
            n + ": ::core::default::Default::default(), "@
        } else {
            n + ": wire."@ + n + ", "@
        },
    }
}

/// One field's entry in `part`.
pub open spec fn submit_item_text(f: PreparedField, part: SubmitPart) -> Seq<char> {
    match part {
        SubmitPart::WireFields => if !on_wire(f) {
            seq![]
        } else if f.plan.is_kind {
            "    #[serde(rename = "@ + str_lit(f.plan.html_name@) + ", alias = "@ + str_lit(f.rust_name@)
                + ", default)]\n    "@ + f.rust_name@ + ": ::std::string::String,\n"@
        } else {
            "    #[serde("@ + serde_attrs_text(f) + ")]\n    "@ + f.rust_name@ + ": "@ + f.ty@ + ",\n"@
        },
        SubmitPart::WireRefs => if on_wire(f) {
            "&wire."@ + f.rust_name@ + ", "@
        } else {
            seq![]
        },
        SubmitPart::Assigns => assign_text(f),
    }
}

/// Every field's entry in `part`, in order.
pub open spec fn submit_list_text(fs: Seq<PreparedField>, part: SubmitPart) -> Seq<char>
    decreases fs.len(),
{
    if fs.len() == 0 {
        seq![]
    } else {
        submit_list_text(fs.drop_last(), part) + submit_item_text(fs.last(), part)
    }
}

/// The `assemble_submit` body of a struct form: the wire struct of the text
/// fields read, then the submitted value built field by field, named
/// `submit_name` where the form has a separate submit type, else `Self`.
pub open spec fn struct_submit_spec(fs: Seq<PreparedField>, submit_name: Option<Seq<char>>) -> Seq<char> {
    "#[derive(::serde::Deserialize)]\nstruct __Wire {\n"@ + submit_list_text(fs, SubmitPart::WireFields)
        + "}\nlet wire: __Wire = parts.text.deserialize()?;\nlet _ = ("@ + submit_list_text(fs, SubmitPart::WireRefs)
        + ");\nOk("@ + match submit_name {
        Some(n) => n,
        None => "Self"@,
    } + " { "@ + submit_list_text(fs, SubmitPart::Assigns) + "})"@
}

fn push_reader_path(out: &mut String, r: SerdeReader)
    ensures
        final(out)@ == old(out)@ + str_lit(reader_path_text(r)),
{
    match r {
        SerdeReader::EmptyStrAsNone => push_str_lit(out, "::lariv_rs::html_form::empty_str_as_none"),
        SerdeReader::EmptyStrAsI64 => push_str_lit(out, "::lariv_rs::html_form::empty_str_as_i64"),
        SerdeReader::FormVecI64 => push_str_lit(out, "::lariv_rs::html_form::form_vec_i64"),
        SerdeReader::FormVecString => push_str_lit(out, "::lariv_rs::html_form::form_vec_string"),
        SerdeReader::FormCheckboxBool => push_str_lit(out, "::lariv_rs::html_form::form_checkbox_bool"),
    }
}

fn push_serde_attrs(out: &mut String, f: &PreparedField)
    ensures
        final(out)@ == old(out)@ + serde_attrs_text(*f),
{
    let ghost start = out@;
    match f.plan.serde {
        SerdePlan::Skip => push_str(out, "skip"),
        SerdePlan::Read { default, with } => {
            push_str(out, "rename = ");
            push_str_lit(out, f.plan.html_name.as_str());
            push_str(out, ", alias = ");
            push_str_lit(out, f.rust_name.as_str());
            let ghost mid = out@;
            if default {
                push_str(out, ", default");
            }
            assert(out@ =~= mid + (if default { ", default"@ } else { seq![] }));
            let ghost mid2 = out@;
            match with {
                Some(r) => {
                    push_str(out, ", deserialize_with = ");
                    push_reader_path(out, r);
                },
                None => {},
            }
            assert(out@ =~= mid2 + match with {
                Some(r) => ", deserialize_with = "@ + str_lit(reader_path_text(r)),
                None => seq![],
            });
        },
    }
    assert(out@ =~= start + serde_attrs_text(*f));
}

fn push_assign(out: &mut String, f: &PreparedField)
    ensures
        final(out)@ == old(out)@ + assign_text(*f),
{
    let ghost start = out@;
    let n = f.rust_name.as_str();
    let h = f.plan.html_name.as_str();
    let t = f.ty.as_str();
    match f.plan.upload {
        UploadKind::One => {
            push_str(out, n);
            push_str(out, ": parts.files.remove(");
            push_str_lit(out, h);
            push_str(out, ").ok_or_else(|| ::lariv_rs::html_form::FormError::Validation(::std::format!(\"{} is required\", ");
            push_str_lit(out, h);
            push_str(out, ")))?, ");
        },
        UploadKind::Optional => {
            push_str(out, n);
            push_str(out, ": parts.files.remove(");
            push_str_lit(out, h);
            push_str(out, "), ");
        },
        UploadKind::Many => {
            push_str(out, n);
            push_str(out, ": parts.file_lists.remove(");
            push_str_lit(out, h);
            push_str(out, ").unwrap_or_default(), ");
        },
        UploadKind::NoUpload => {
            if f.plan.is_kind {
                push_str(out, n);
                push_str(out, ": { let tag = <");
                push_str(out, t);
                push_str(out, " as ::lariv_rs::html_form::HtmlKind>::kind_tag(); let mut kind_parts = ::lariv_rs::html_form::MultipartParts { text: ::lariv_rs::html_form::UrlencodedFields::default(), files: ::std::collections::HashMap::new(), file_lists: ::std::collections::HashMap::new() }; let disc = parts.text.get_first(tag).map(|s| s.to_string()).filter(|s| !s.is_empty()).unwrap_or_else(|| wire.");
                push_str(out, n);
                push_str(out, ".clone()); if !disc.is_empty() { kind_parts.text.push(tag, disc); } for n in <");
                push_str(out, t);
                push_str(out, " as ::lariv_rs::html_form::HtmlForm>::file_field_names() { if let Some(file) = parts.files.remove(*n) { kind_parts.files.insert((*n).to_string(), file); } } for n in <");
                push_str(out, t);
                push_str(out, " as ::lariv_rs::html_form::HtmlForm>::multi_file_field_names() { if let Some(list) = parts.file_lists.remove(*n) { kind_parts.file_lists.insert((*n).to_string(), list); } } <");
                push_str(out, t);
                push_str(out, " as ::lariv_rs::html_form::HtmlForm>::assemble_submit(kind_parts)? }, ");
            } else if f.plan.skip_deser {
                push_str(out, n);
                push_str(out, ": ::core::default::Default::default(), ");
            } else {
                push_str(out, n);
                push_str(out, ": wire.");
                push_str(out, n);
                push_str(out, ", ");
            }
        },
    }
    assert(out@ =~= start + assign_text(*f));
}

fn push_submit_item(out: &mut String, f: &PreparedField, part: SubmitPart)
    ensures
        final(out)@ == old(out)@ + submit_item_text(*f, part),
{
    let ghost start = out@;
    let wire = f.plan.upload == UploadKind::NoUpload && (f.plan.is_kind || !f.plan.skip_deser);
    match part {
        SubmitPart::WireFields => {
            if !wire {
            } else if f.plan.is_kind {
                push_str(out, "    #[serde(rename = ");
                push_str_lit(out, f.plan.html_name.as_str());
                push_str(out, ", alias = ");
                push_str_lit(out, f.rust_name.as_str());
                push_str(out, ", default)]\n    ");
                push_str(out, f.rust_name.as_str());
                push_str(out, ": ::std::string::String,\n");
            } else {
                push_str(out, "    #[serde(");
                push_serde_attrs(out, f);
                push_str(out, ")]\n    ");
                push_str(out, f.rust_name.as_str());
                push_str(out, ": ");
                push_str(out, f.ty.as_str());
                push_str(out, ",\n");
            }
        },
        SubmitPart::WireRefs => {
            if wire {
                push_str(out, "&wire.");
                push_str(out, f.rust_name.as_str());
                push_str(out, ", ");
            }
        },
        SubmitPart::Assigns => push_assign(out, f),
    }
    assert(out@ =~= start + submit_item_text(*f, part));
}

fn push_submit_list(out: &mut String, fs: &Vec<PreparedField>, part: SubmitPart)
    ensures
        final(out)@ == old(out)@ + submit_list_text(fs@, part),
{
    let ghost start = out@;
    let mut i: usize = 0;
    while i < fs.len()
        invariant
            i <= fs.len(),
            out@ == start + submit_list_text(fs@.take(i as int), part),
        decreases fs.len() - i,
    {
        assert(fs@.take(i + 1).drop_last() =~= fs@.take(i as int));
        assert(fs@.take(i + 1).last() == fs@[i as int]);
        push_submit_item(out, &fs[i], part);
        assert(out@ =~= start + submit_list_text(fs@.take(i + 1), part));
        i = i + 1;
    }
    assert(fs@.take(fs.len() as int) =~= fs@);
}

/// The `assemble_submit` body `#[html_form]` writes for a struct form with
/// fields `fs`; `submit_name` is its separate submit type, if it has one.
pub fn struct_submit_text(fs: &Vec<PreparedField>, submit_name: Option<&str>) -> (r: String)
    ensures
        r@ == struct_submit_spec(
            fs@,
            match submit_name {
                Some(n) => Some(n@),
                None => None,
            },
        ),
{
    let mut out = to_owned("#[derive(::serde::Deserialize)]\nstruct __Wire {\n");
    push_submit_list(&mut out, fs, SubmitPart::WireFields);
    push_str(&mut out, "}\nlet wire: __Wire = parts.text.deserialize()?;\nlet _ = (");
    push_submit_list(&mut out, fs, SubmitPart::WireRefs);
    push_str(&mut out, ");\nOk(");
    match submit_name {
        Some(n) => push_str(&mut out, n),
        None => push_str(&mut out, "Self"),
    }
    push_str(&mut out, " { ");
    push_submit_list(&mut out, fs, SubmitPart::Assigns);
    push_str(&mut out, "})");
    out
}

// ---------------------------------------------------------------------------
// The struct form
// ---------------------------------------------------------------------------

/// A struct form as the derive reads it: name, visibility, generics as
/// declared and as split for an impl (`impl_generics`, `ty_generics`, the
/// `where` clause), its attributes other than `derive`, and its fields.
pub struct StructFormSource {
    pub name: String,
    pub vis: String,
    pub generics: String,
    pub impl_generics: String,
    pub ty_generics: String,
    pub where_clause: String,
    pub attrs: Vec<String>,
    pub fields: Vec<PreparedField>,
}

/// Attributes as written, one per line.
pub open spec fn attr_lines_text(attrs: Seq<String>, indent: Seq<char>) -> Seq<char>
    decreases attrs.len(),
{
    if attrs.len() == 0 {
        seq![]
    } else {
        attr_lines_text(attrs.drop_last(), indent) + indent + attrs.last()@ + "\n"@
    }
}

/// The field's type in the submit struct.
pub open spec fn submit_ty_text(f: PreparedField) -> Seq<char> {
    match f.plan.submit {
        SubmitKind::UploadedFile => "::lariv_rs::html_form::UploadedFile"@,
        SubmitKind::OptionalUploadedFile => "::core::option::Option<::lariv_rs::html_form::UploadedFile>"@,
        SubmitKind::UploadedFiles => "::std::vec::Vec<::lariv_rs::html_form::UploadedFile>"@,
        SubmitKind::KindSubmit => "<"@ + f.ty@ + " as ::lariv_rs::html_form::HtmlForm>::Submit"@,
        SubmitKind::Declared => f.ty@,
    }
}

/// The enum variant named after a snake_case name.
pub open spec fn variant_text(snake: Seq<char>) -> Seq<char> {
    variant_of_parts(split_all(snake, '_'))
}

/// A text option, or the field's HTML name where it is not set.
pub open spec fn or_html(o: Option<Seq<char>>, html: Seq<char>) -> Seq<char> {
    match o {
        Some(s) => s,
        None => html,
    }
}

/// The pieces of a struct form that have one entry per field.
#[derive(Debug, Clone, Copy, PartialEq, Eq, Structural)]
pub enum FieldPart {
    /// The field in the form struct, with its `#[serde(...)]`.
    OutFields,
    /// The field in the submit struct.
    SubmitFields,
    /// The field's variant of the field-key enum (nested kinds have none).
    KeyVariants,
    /// Its `html_name` match arm.
    HtmlArms,
    /// Its `display_key` match arm.
    DisplayArms,
    /// Its `choices_key` match arm.
    ChoicesArms,
    /// Its `FieldSpec` literal.
    Specs,
    /// Its HTML name if it takes one file.
    FileOnes,
    /// Its HTML name if it takes many files.
    FileManys,
    /// The field in a variant of the form enum, with its `#[serde(...)]`.
    VariantDefs,
    /// The field in a variant of the submit enum.
    VariantSubmits,
    /// How a variant's submitted value gets the field.
    VariantAssigns,
    /// The field's default in the default variant.
    DefaultInits,
}

/// One field's entry in `part`.
pub open spec fn field_item_text(f: PreparedField, part: FieldPart) -> Seq<char> {
    let html = f.plan.html_name@;
    let v = variant_text(f.rust_name@);
    match part {
        FieldPart::OutFields => attr_lines_text(f.extra_attrs@, "    "@) + "    #[serde("@ + serde_attrs_text(f)
            + ")]\n    "@ + f.vis@ + f.rust_name@ + ": "@ + f.ty@ + ",\n"@,
        FieldPart::SubmitFields => "    "@ + f.vis@ + f.rust_name@ + ": "@ + submit_ty_text(f) + ",\n"@,
        FieldPart::KeyVariants => if f.plan.is_kind {
            seq![]
        } else {
            "    "@ + v + ",\n"@
        },
        FieldPart::HtmlArms => if f.plan.is_kind {
            seq![]
        } else {
            "            Self::"@ + v + " => "@ + str_lit(html) + ",\n"@
        },
        FieldPart::DisplayArms => if f.plan.is_kind {
            seq![]
        } else {
            "            Self::"@ + v + " => "@ + str_lit(or_html(text_view(f.form.display), html)) + ",\n"@
        },
        FieldPart::ChoicesArms => if f.plan.is_kind {
            seq![]
        } else {
            "            Self::"@ + v + " => "@ + str_lit(or_html(text_view(f.form.choices), html)) + ",\n"@
        },
        FieldPart::Specs => field_spec_text_spec(f.plan, f.form, f.widget@, f.ty@) + ",\n"@,
        FieldPart::FileOnes => if f.plan.upload == UploadKind::One || f.plan.upload == UploadKind::Optional {
            str_lit(html) + ", "@
        } else {
            seq![]
        },
        FieldPart::FileManys => if f.plan.upload == UploadKind::Many {
            str_lit(html) + ", "@
        } else {
            seq![]
        },
        FieldPart::VariantDefs => "        #[serde("@ + serde_attrs_text(f) + ")] "@ + f.vis@ + f.rust_name@ + ": "@ + f.ty@
            + ",\n"@,
        FieldPart::VariantSubmits => f.vis@ + f.rust_name@ + ": "@ + submit_ty_text(f) + ", "@,
        FieldPart::VariantAssigns => variant_assign_text(f),
        FieldPart::DefaultInits => f.rust_name@ + ": ::core::default::Default::default(), "@,
    }
}

/// How a variant's submitted value gets a field: files as in a struct form,
/// text read from the submitted text (an option or an integer parsed, empty
/// text as none or zero; other types as the text itself).
pub open spec fn variant_assign_text(f: PreparedField) -> Seq<char> {
    let n = f.rust_name@;
    let h = str_lit(f.plan.html_name@);
    if f.plan.upload != UploadKind::NoUpload {
        assign_text(f)
    } else if is_option(f.shape) {
        n + ": parts.text.get_first("@ + h
            + ").and_then(|s| { let s = s.trim(); if s.is_empty() { None } else { Some(s.to_string()) } }).and_then(|s| s.parse().ok()), "@
    } else if is_integer(f.shape) {
        n + ": parts.text.get_first("@ + h
            + ").map(|s| s.trim()).filter(|s| !s.is_empty()).and_then(|s| s.parse().ok()).unwrap_or(0), "@
    } else {
        n + ": parts.text.get_first("@ + h + ").map(|s| s.to_string()).unwrap_or_default(), "@
    }
}

/// Every field's entry in `part`, in order.
pub open spec fn field_list_text(fs: Seq<PreparedField>, part: FieldPart) -> Seq<char>
    decreases fs.len(),
{
    if fs.len() == 0 {
        seq![]
    } else {
        field_list_text(fs.drop_last(), part) + field_item_text(fs.last(), part)
    }
}

/// The flags the fields' `when` and `required_unless` options name, each once,
/// in ascending order (as name/name entries).
pub open spec fn flag_set(fs: Seq<PreparedField>) -> Seq<(Seq<char>, Seq<char>)>
    decreases fs.len(),
{
    if fs.len() == 0 {
        seq![]
    } else {
        let prev = flag_set(fs.drop_last());
        let a = match text_view(fs.last().form.when) {
            Some(w) => insert_sorted(prev, w, w),
            None => prev,
        };
        match text_view(fs.last().form.required_unless) {
            Some(u) => insert_sorted(a, u, u),
            None => a,
        }
    }
}

/// The flag-key enum's variants (`arms == false`) or `as_str` arms.
pub open spec fn flag_list_text(es: Seq<(Seq<char>, Seq<char>)>, arms: bool) -> Seq<char>
    decreases es.len(),
{
    if es.len() == 0 {
        seq![]
    } else {
        flag_list_text(es.drop_last(), arms) + if arms {
            "            Self::"@ + variant_text(es.last().0) + " => "@ + str_lit(es.last().0) + ",\n"@
        } else {
            "    "@ + variant_text(es.last().0) + ",\n"@
        }
    }
}

/// The flag-key enum of a form and its `FormFlagKey` impl; an empty enum
/// where no field names a flag.
pub open spec fn flag_enum_text(name: Seq<char>, es: Seq<(Seq<char>, Seq<char>)>) -> Seq<char> {
    if es.len() == 0 {
        "#[derive(Debug, Clone, Copy)]\npub enum "@ + name
            + "Flag {}\nimpl ::lariv_rs::html_form::FormFlagKey for "@ + name
            + "Flag {\n    fn as_str(self) -> &'static str {\n        match self {}\n    }\n}\n"@
    } else {
        "#[derive(Debug, Clone, Copy, PartialEq, Eq, Hash)]\npub enum "@ + name + "Flag {\n"@
            + flag_list_text(es, false) + "}\nimpl ::lariv_rs::html_form::FormFlagKey for "@ + name
            + "Flag {\n    fn as_str(self) -> &'static str {\n        match self {\n"@ + flag_list_text(es, true)
            + "        }\n    }\n}\n"@
    }
}

/// Whether a form needs a separate submit type: a field takes files or is a
/// nested kind.
pub open spec fn needs_submit(fs: Seq<PreparedField>) -> bool {
    exists|i: int| 0 <= i < fs.len() && (#[trigger] fs[i].plan.upload != UploadKind::NoUpload || fs[i].plan.is_kind)
}

/// The derives of the form struct.
pub open spec fn derives_text(default: bool, no_debug: bool) -> Seq<char> {
    (if no_debug {
        seq![]
    } else {
        "::core::fmt::Debug, "@
    }) + "::serde::Deserialize"@ + (if default {
        ", ::core::default::Default"@
    } else {
        seq![]
    })
}

/// Everything `#[html_form]` writes for a struct form `src` with the options
/// `default` and `no_debug`: the struct with its serde attributes, the submit
/// struct where one is needed, the field-key and flag-key enums with their
/// impls, and the `HtmlForm` impl.
pub open spec fn struct_form_spec(src: StructFormSource, default: bool, no_debug: bool) -> Seq<char> {
    let n = src.name@;
    let fs = src.fields@;
    let sub = needs_submit(fs);
    attr_lines_text(src.attrs@, ""@) + "#[derive("@ + derives_text(default, no_debug) + ")]\n"@ + src.vis@
        + "struct "@ + n + src.generics@ + " {\n"@ + field_list_text(fs, FieldPart::OutFields) + "}\n"@ + (if sub {
        "#[derive(Debug)]\n"@ + src.vis@ + "struct "@ + n + "Submit {\n"@ + field_list_text(fs, FieldPart::SubmitFields)
            + "}\n"@
    } else {
        seq![]
    }) + "#[derive(Debug, Clone, Copy, PartialEq, Eq, Hash)]\n#[allow(non_camel_case_types)]\npub enum "@ + n
        + "Field {\n"@ + field_list_text(fs, FieldPart::KeyVariants) + "}\nimpl ::lariv_rs::html_form::FormFieldKey for "@
        + n + "Field {\n    fn html_name(self) -> &'static str {\n        match self {\n"@
        + field_list_text(fs, FieldPart::HtmlArms)
        + "        }\n    }\n    fn display_key(self) -> &'static str {\n        match self {\n"@
        + field_list_text(fs, FieldPart::DisplayArms)
        + "        }\n    }\n    fn choices_key(self) -> &'static str {\n        match self {\n"@
        + field_list_text(fs, FieldPart::ChoicesArms) + "        }\n    }\n}\n"@ + flag_enum_text(n, flag_set(fs))
        + "impl"@ + src.impl_generics@ + " ::lariv_rs::html_form::HtmlForm for "@ + n + src.ty_generics@ + " "@
        + src.where_clause@ + " {\n    type Field = "@ + n + "Field;\n    type Flag = "@ + n + "Flag;\n    type Submit = "@
        + (if sub {
        n + "Submit"@
    } else {
        "Self"@
    }) + ";\n    fn field_specs() -> &'static [::lariv_rs::html_form::FieldSpec] {\n        &["@
        + field_list_text(fs, FieldPart::Specs)
        + "]\n    }\n    fn file_field_names() -> &'static [&'static str] {\n        &["@
        + field_list_text(fs, FieldPart::FileOnes)
        + "]\n    }\n    fn multi_file_field_names() -> &'static [&'static str] {\n        &["@
        + field_list_text(fs, FieldPart::FileManys)
        + "]\n    }\n    fn assemble_submit(mut parts: ::lariv_rs::html_form::MultipartParts) -> ::core::result::Result<Self::Submit, ::lariv_rs::html_form::FormError> {\n"@
        + struct_submit_spec(fs, if sub {
        Some(n + "Submit"@)
    } else {
        None
    }) + "\n    }\n}\n"@
}

fn push_attr_lines(out: &mut String, attrs: &Vec<String>, indent: &str)
    ensures
        final(out)@ == old(out)@ + attr_lines_text(attrs@, indent@),
{
    let ghost start = out@;
    let mut i: usize = 0;
    while i < attrs.len()
        invariant
            i <= attrs.len(),
            out@ == start + attr_lines_text(attrs@.take(i as int), indent@),
        decreases attrs.len() - i,
    {
        assert(attrs@.take(i + 1).drop_last() =~= attrs@.take(i as int));
        assert(attrs@.take(i + 1).last() == attrs@[i as int]);
        push_str(out, indent);
        push_str(out, attrs[i].as_str());
        push_str(out, "\n");
        assert(out@ =~= start + attr_lines_text(attrs@.take(i + 1), indent@));
        i = i + 1;
    }
    assert(attrs@.take(attrs.len() as int) =~= attrs@);
}

fn push_submit_ty(out: &mut String, f: &PreparedField)
    ensures
        final(out)@ == old(out)@ + submit_ty_text(*f),
{
    let ghost start = out@;
    match f.plan.submit {
        SubmitKind::UploadedFile => push_str(out, "::lariv_rs::html_form::UploadedFile"),
        SubmitKind::OptionalUploadedFile => push_str(out, "::core::option::Option<::lariv_rs::html_form::UploadedFile>"),
        SubmitKind::UploadedFiles => push_str(out, "::std::vec::Vec<::lariv_rs::html_form::UploadedFile>"),
        SubmitKind::KindSubmit => {
            push_str(out, "<");
            push_str(out, f.ty.as_str());
            push_str(out, " as ::lariv_rs::html_form::HtmlForm>::Submit");
        },
        SubmitKind::Declared => push_str(out, f.ty.as_str()),
    }
    assert(out@ =~= start + submit_ty_text(*f));
}

fn push_variant_assign(out: &mut String, f: &PreparedField)
    ensures
        final(out)@ == old(out)@ + variant_assign_text(*f),
{
    let ghost start = out@;
    let n = f.rust_name.as_str();
    let h = f.plan.html_name.as_str();
    if f.plan.upload != UploadKind::NoUpload {
        push_assign(out, f);
    } else if shape_is_option(&f.shape) {
        push_str(out, n);
        push_str(out, ": parts.text.get_first(");
        push_str_lit(out, h);
        push_str(out, ").and_then(|s| { let s = s.trim(); if s.is_empty() { None } else { Some(s.to_string()) } }).and_then(|s| s.parse().ok()), ");
    } else if shape_is_integer(&f.shape) {
        push_str(out, n);
        push_str(out, ": parts.text.get_first(");
        push_str_lit(out, h);
        push_str(out, ").map(|s| s.trim()).filter(|s| !s.is_empty()).and_then(|s| s.parse().ok()).unwrap_or(0), ");
    } else {
        push_str(out, n);
        push_str(out, ": parts.text.get_first(");
        push_str_lit(out, h);
        push_str(out, ").map(|s| s.to_string()).unwrap_or_default(), ");
    }
    assert(out@ =~= start + variant_assign_text(*f));
}

fn push_variant_field_item(out: &mut String, f: &PreparedField, part: FieldPart)
    requires
        part == FieldPart::VariantDefs || part == FieldPart::VariantSubmits || part == FieldPart::VariantAssigns
            || part == FieldPart::DefaultInits,
    ensures
        final(out)@ == old(out)@ + field_item_text(*f, part),
{
    let ghost start = out@;
    match part {
        FieldPart::VariantDefs => {
            push_str(out, "        #[serde(");
            push_serde_attrs(out, f);
            push_str(out, ")] ");
            push_str(out, f.vis.as_str());
            push_str(out, f.rust_name.as_str());
            push_str(out, ": ");
            push_str(out, f.ty.as_str());
            push_str(out, ",\n");
        },
        FieldPart::VariantSubmits => {
            push_str(out, f.vis.as_str());
            push_str(out, f.rust_name.as_str());
            push_str(out, ": ");
            push_submit_ty(out, f);
            push_str(out, ", ");
        },
        FieldPart::VariantAssigns => push_variant_assign(out, f),
        FieldPart::DefaultInits => {
            push_str(out, f.rust_name.as_str());
            push_str(out, ": ::core::default::Default::default(), ");
        },
        _ => {},
    }
    assert(out@ =~= start + field_item_text(*f, part));
}

fn push_field_item(out: &mut String, f: &PreparedField, part: FieldPart)
    ensures
        final(out)@ == old(out)@ + field_item_text(*f, part),
{
    let ghost start = out@;
    let html = f.plan.html_name.as_str();
    let v = to_rust_variant_name(f.rust_name.as_str());
    match part {
        FieldPart::OutFields => {
            push_attr_lines(out, &f.extra_attrs, "    ");
            push_str(out, "    #[serde(");
            push_serde_attrs(out, f);
            push_str(out, ")]\n    ");
            push_str(out, f.vis.as_str());
            push_str(out, f.rust_name.as_str());
            push_str(out, ": ");
            push_str(out, f.ty.as_str());
            push_str(out, ",\n");
        },
        FieldPart::SubmitFields => {
            push_str(out, "    ");
            push_str(out, f.vis.as_str());
            push_str(out, f.rust_name.as_str());
            push_str(out, ": ");
            push_submit_ty(out, f);
            push_str(out, ",\n");
        },
        FieldPart::KeyVariants => {
            if !f.plan.is_kind {
                push_str(out, "    ");
                push_str(out, v.as_str());
                push_str(out, ",\n");
            }
        },
        FieldPart::HtmlArms => {
            if !f.plan.is_kind {
                push_str(out, "            Self::");
                push_str(out, v.as_str());
                push_str(out, " => ");
                push_str_lit(out, html);
                push_str(out, ",\n");
            }
        },
        FieldPart::DisplayArms => {
            if !f.plan.is_kind {
                let d = match &f.form.display {
                    Some(d) => d.as_str(),
                    None => html,
                };
                push_str(out, "            Self::");
                push_str(out, v.as_str());
                push_str(out, " => ");
                push_str_lit(out, d);
                push_str(out, ",\n");
            }
        },
        FieldPart::ChoicesArms => {
            if !f.plan.is_kind {
                let c = match &f.form.choices {
                    Some(c) => c.as_str(),
                    None => html,
                };
                push_str(out, "            Self::");
                push_str(out, v.as_str());
                push_str(out, " => ");
                push_str_lit(out, c);
                push_str(out, ",\n");
            }
        },
        FieldPart::Specs => {
            let t = field_spec_text(&f.plan, &f.form, f.widget.as_str(), f.ty.as_str());
            push_str(out, t.as_str());
            push_str(out, ",\n");
        },
        FieldPart::FileOnes => {
            if f.plan.upload == UploadKind::One || f.plan.upload == UploadKind::Optional {
                push_str_lit(out, html);
                push_str(out, ", ");
            }
        },
        FieldPart::FileManys => {
            if f.plan.upload == UploadKind::Many {
                push_str_lit(out, html);
                push_str(out, ", ");
            }
        },
        _ => push_variant_field_item(out, f, part),
    }
    assert(out@ =~= start + field_item_text(*f, part));
}

fn push_field_list(out: &mut String, fs: &Vec<PreparedField>, part: FieldPart)
    ensures
        final(out)@ == old(out)@ + field_list_text(fs@, part),
{
    let ghost start = out@;
    let mut i: usize = 0;
    while i < fs.len()
        invariant
            i <= fs.len(),
            out@ == start + field_list_text(fs@.take(i as int), part),
        decreases fs.len() - i,
    {
        assert(fs@.take(i + 1).drop_last() =~= fs@.take(i as int));
        assert(fs@.take(i + 1).last() == fs@[i as int]);
        push_field_item(out, &fs[i], part);
        assert(out@ =~= start + field_list_text(fs@.take(i + 1), part));
        i = i + 1;
    }
    assert(fs@.take(fs.len() as int) =~= fs@);
}

/// The distinct flags of the fields, in ascending order.
fn flag_entries(fs: &Vec<PreparedField>) -> (r: HtmlAttrs)
    ensures
        r@ == flag_set(fs@),
{
    let mut a = HtmlAttrs::new();
    let mut i: usize = 0;
    while i < fs.len()
        invariant
            i <= fs.len(),
            a@ == flag_set(fs@.take(i as int)),
        decreases fs.len() - i,
    {
        assert(fs@.take(i + 1).drop_last() =~= fs@.take(i as int));
        assert(fs@.take(i + 1).last() == fs@[i as int]);
        match &fs[i].form.when {
            Some(w) => {
                a = a.set(w.as_str(), w.as_str());
            },
            None => {},
        }
        match &fs[i].form.required_unless {
            Some(u) => {
                a = a.set(u.as_str(), u.as_str());
            },
            None => {},
        }
        i = i + 1;
    }
    assert(fs@.take(fs.len() as int) =~= fs@);
    a
}

fn push_flag_list(out: &mut String, a: &HtmlAttrs, arms: bool)
    ensures
        final(out)@ == old(out)@ + flag_list_text(a@, arms),
{
    let ghost start = out@;
    let mut i: usize = 0;
    while i < a.len()
        invariant
            i <= a@.len(),
            out@ == start + flag_list_text(a@.take(i as int), arms),
        decreases a@.len() - i,
    {
        assert(a@.take(i + 1).drop_last() =~= a@.take(i as int));
        assert(a@.take(i + 1).last() == a@[i as int]);
        let (k, _) = a.entry(i);
        let v = to_rust_variant_name(k);
        if arms {
            push_str(out, "            Self::");
            push_str(out, v.as_str());
            push_str(out, " => ");
            push_str_lit(out, k);
            push_str(out, ",\n");
        } else {
            push_str(out, "    ");
            push_str(out, v.as_str());
            push_str(out, ",\n");
        }
        assert(out@ =~= start + flag_list_text(a@.take(i + 1), arms));
        i = i + 1;
    }
    assert(a@.take(a@.len() as int) =~= a@);
}

fn push_flag_enum(out: &mut String, name: &str, fs: &Vec<PreparedField>)
    ensures
        final(out)@ == old(out)@ + flag_enum_text(name@, flag_set(fs@)),
{
    let ghost start = out@;
    let a = flag_entries(fs);
    if a.len() == 0 {
        push_str(out, "#[derive(Debug, Clone, Copy)]\npub enum ");
        push_str(out, name);
        push_str(out, "Flag {}\nimpl ::lariv_rs::html_form::FormFlagKey for ");
        push_str(out, name);
        push_str(out, "Flag {\n    fn as_str(self) -> &'static str {\n        match self {}\n    }\n}\n");
    } else {
        push_str(out, "#[derive(Debug, Clone, Copy, PartialEq, Eq, Hash)]\npub enum ");
        push_str(out, name);
        push_str(out, "Flag {\n");
        push_flag_list(out, &a, false);
        push_str(out, "}\nimpl ::lariv_rs::html_form::FormFlagKey for ");
        push_str(out, name);
        push_str(out, "Flag {\n    fn as_str(self) -> &'static str {\n        match self {\n");
        push_flag_list(out, &a, true);
        push_str(out, "        }\n    }\n}\n");
    }
    assert(out@ =~= start + flag_enum_text(name@, flag_set(fs@)));
}

fn needs_submit_exec(fs: &Vec<PreparedField>) -> (r: bool)
    ensures
        r == needs_submit(fs@),
{
    let mut i: usize = 0;
    while i < fs.len()
        invariant
            i <= fs.len(),
            forall|j: int| 0 <= j < i ==> !(#[trigger] fs@[j].plan.upload != UploadKind::NoUpload || fs@[j].plan.is_kind),
        decreases fs.len() - i,
    {
        if fs[i].plan.upload != UploadKind::NoUpload || fs[i].plan.is_kind {
            return true;
        }
        i = i + 1;
    }
    false
}

fn push_derives(out: &mut String, default: bool, no_debug: bool)
    ensures
        final(out)@ == old(out)@ + derives_text(default, no_debug),
{
    let ghost start = out@;
    if !no_debug {
        push_str(out, "::core::fmt::Debug, ");
    }
    push_str(out, "::serde::Deserialize");
    if default {
        push_str(out, ", ::core::default::Default");
    }
    assert(out@ =~= start + derives_text(default, no_debug));
}

/// The source text `#[html_form]` writes for the struct form `src` with the
/// options `default` and `no_debug`.
pub fn struct_form_text(src: &StructFormSource, default: bool, no_debug: bool) -> (r: String)
    ensures
        r@ == struct_form_spec(*src, default, no_debug),
{
    let ghost fs = src.fields@;
    let n = src.name.as_str();
    let sub = needs_submit_exec(&src.fields);
    let mut sn = to_owned(n);
    push_str(&mut sn, "Submit");
    let mut out = String::new();
    push_attr_lines(&mut out, &src.attrs, "");
    push_str(&mut out, "#[derive(");
    push_derives(&mut out, default, no_debug);
    push_str(&mut out, ")]\n");
    push_str(&mut out, src.vis.as_str());
    push_str(&mut out, "struct ");
    push_str(&mut out, n);
    push_str(&mut out, src.generics.as_str());
    push_str(&mut out, " {\n");
    push_field_list(&mut out, &src.fields, FieldPart::OutFields);
    push_str(&mut out, "}\n");
    let ghost before_submit = out@;
    if sub {
        push_str(&mut out, "#[derive(Debug)]\n");
        push_str(&mut out, src.vis.as_str());
        push_str(&mut out, "struct ");
        push_str(&mut out, n);
        push_str(&mut out, "Submit {\n");
        push_field_list(&mut out, &src.fields, FieldPart::SubmitFields);
        push_str(&mut out, "}\n");
    }
    assert(out@ =~= before_submit + (if sub {
        "#[derive(Debug)]\n"@ + src.vis@ + "struct "@ + n@ + "Submit {\n"@ + field_list_text(fs, FieldPart::SubmitFields)
            + "}\n"@
    } else {
        seq![]
    }));
    push_str(&mut out, "#[derive(Debug, Clone, Copy, PartialEq, Eq, Hash)]\n#[allow(non_camel_case_types)]\npub enum ");
    push_str(&mut out, n);
    push_str(&mut out, "Field {\n");
    push_field_list(&mut out, &src.fields, FieldPart::KeyVariants);
    push_str(&mut out, "}\nimpl ::lariv_rs::html_form::FormFieldKey for ");
    push_str(&mut out, n);
    push_str(&mut out, "Field {\n    fn html_name(self) -> &'static str {\n        match self {\n");
    push_field_list(&mut out, &src.fields, FieldPart::HtmlArms);
    push_str(&mut out, "        }\n    }\n    fn display_key(self) -> &'static str {\n        match self {\n");
    push_field_list(&mut out, &src.fields, FieldPart::DisplayArms);
    push_str(&mut out, "        }\n    }\n    fn choices_key(self) -> &'static str {\n        match self {\n");
    push_field_list(&mut out, &src.fields, FieldPart::ChoicesArms);
    push_str(&mut out, "        }\n    }\n}\n");
    push_flag_enum(&mut out, n, &src.fields);
    push_str(&mut out, "impl");
    push_str(&mut out, src.impl_generics.as_str());
    push_str(&mut out, " ::lariv_rs::html_form::HtmlForm for ");
    push_str(&mut out, n);
    push_str(&mut out, src.ty_generics.as_str());
    push_str(&mut out, " ");
    push_str(&mut out, src.where_clause.as_str());
    push_str(&mut out, " {\n    type Field = ");
    push_str(&mut out, n);
    push_str(&mut out, "Field;\n    type Flag = ");
    push_str(&mut out, n);
    push_str(&mut out, "Flag;\n    type Submit = ");
    let ghost before_ty = out@;
    if sub {
        push_str(&mut out, sn.as_str());
    } else {
        push_str(&mut out, "Self");
    }
    assert(out@ == before_ty + (if sub { n@ + "Submit"@ } else { "Self"@ }));
    push_str(&mut out, ";\n    fn field_specs() -> &'static [::lariv_rs::html_form::FieldSpec] {\n        &[");
    push_field_list(&mut out, &src.fields, FieldPart::Specs);
    push_str(&mut out, "]\n    }\n    fn file_field_names() -> &'static [&'static str] {\n        &[");
    push_field_list(&mut out, &src.fields, FieldPart::FileOnes);
    push_str(&mut out, "]\n    }\n    fn multi_file_field_names() -> &'static [&'static str] {\n        &[");
    push_field_list(&mut out, &src.fields, FieldPart::FileManys);
    push_str(&mut out, "]\n    }\n    fn assemble_submit(mut parts: ::lariv_rs::html_form::MultipartParts) -> ::core::result::Result<Self::Submit, ::lariv_rs::html_form::FormError> {\n");
    let body = if sub {
        struct_submit_text(&src.fields, Some(sn.as_str()))
    } else {
        struct_submit_text(&src.fields, None)
    };
    assert(body@ == struct_submit_spec(fs, if sub { Some(n@ + "Submit"@) } else { None }));
    push_str(&mut out, body.as_str());
    push_str(&mut out, "\n    }\n}\n");
    assert(out@ =~= struct_form_spec(*src, default, no_debug));
    out
}

// ---------------------------------------------------------------------------
// The enum form (a form kind)
// ---------------------------------------------------------------------------

/// The fields of an enum variant.
pub enum VariantShape {
    Unit,
    Named(Vec<PreparedField>),
    /// A tuple variant, which form kinds do not support.
    Tuple,
}

/// A variant of a form kind: its name, its `#[form(label = ...)]` and fields.
pub struct VariantSource {
    pub name: String,
    pub label: Option<String>,
    pub shape: VariantShape,
}

/// A form kind (enum form) as the derive reads it: name, visibility, its
/// attributes other than `derive`, and its variants.
pub struct EnumFormSource {
    pub name: String,
    pub vis: String,
    pub attrs: Vec<String>,
    pub variants: Vec<VariantSource>,
}

/// Why an enum cannot be a form kind.
#[derive(Debug, Clone, Copy, PartialEq, Eq, Structural)]
pub enum EnumFormError {
    /// A variant has unnamed fields.
    TupleVariant,
    /// The enum has no variant.
    NoVariants,
}

impl EnumFormError {
    pub open spec fn message_text(self) -> Seq<char> {
        match self {
            EnumFormError::TupleVariant => "html_form enums do not support tuple variants"@,
            EnumFormError::NoVariants => "html_form enum needs at least one variant"@,
        }
    }

    /// The compile error the derive reports.
    pub fn message(&self) -> (r: &'static str)
        ensures
            r@ == self.message_text(),
    {
        match self {
            EnumFormError::TupleVariant => "html_form enums do not support tuple variants",
            EnumFormError::NoVariants => "html_form enum needs at least one variant",
        }
    }
}

/// The pieces of a form kind with one entry per variant.
#[derive(Debug, Clone, Copy, PartialEq, Eq, Structural)]
pub enum VariantPart {
    /// The variant in the form enum.
    Defs,
    /// The variant in the submit enum.
    Submits,
    /// Its `KindVariantSpec`.
    Specs,
    /// Its `assemble_submit` match arm.
    Arms,
    /// The entries of its fields in a field-wise part.
    Fields(FieldPart),
}

/// The fields of a variant shape (none but for named fields).
pub open spec fn shape_fields(sh: VariantShape) -> Seq<PreparedField> {
    match sh {
        VariantShape::Named(fs) => fs@,
        _ => seq![],
    }
}

/// One variant's entry in `part`; `name` is the enum's name.
pub open spec fn variant_item_text(v: VariantSource, part: VariantPart, name: Seq<char>) -> Seq<char> {
    let vn = v.name@;
    let named = v.shape is Named;
    let fs = shape_fields(v.shape);
    match part {
        VariantPart::Defs => if named {
            "    "@ + vn + " {\n"@ + field_list_text(fs, FieldPart::VariantDefs) + "    },\n"@
        } else {
            "    "@ + vn + ",\n"@
        },
        VariantPart::Submits => if named {
            "    "@ + vn + " { "@ + field_list_text(fs, FieldPart::VariantSubmits) + "},\n"@
        } else {
            "    "@ + vn + ",\n"@
        },
        VariantPart::Specs => "            ::lariv_rs::html_form::KindVariantSpec { value: "@ + str_lit(vn) + ", label: "@
            + str_lit(or_html(text_view(v.label), vn)) + ", fields: &["@ + field_list_text(fs, FieldPart::Specs)
            + "] },\n"@,
        VariantPart::Arms => "            "@ + str_lit(vn) + " => Ok("@ + name + "Submit::"@ + vn + (if named {
            " { "@ + field_list_text(fs, FieldPart::VariantAssigns) + "}"@
        } else {
            seq![]
        }) + "),\n"@,
        VariantPart::Fields(fp) => field_list_text(fs, fp),
    }
}

/// Every variant's entry in `part`, in order.
pub open spec fn variant_list_text(vs: Seq<VariantSource>, part: VariantPart, name: Seq<char>) -> Seq<char>
    decreases vs.len(),
{
    if vs.len() == 0 {
        seq![]
    } else {
        variant_list_text(vs.drop_last(), part, name) + variant_item_text(vs.last(), part, name)
    }
}

/// The default value of a form kind: its first variant, fields defaulted.
pub open spec fn default_expr_text(v: VariantSource) -> Seq<char> {
    "Self::"@ + v.name@ + if v.shape is Named {
        " { "@ + field_list_text(shape_fields(v.shape), FieldPart::DefaultInits) + "}"@
    } else {
        seq![]
    }
}

/// The field-key enum of a form kind (the fields of all its variants).
pub open spec fn kind_key_enum_text(vs: Seq<VariantSource>, name: Seq<char>) -> Seq<char> {
    "#[derive(Debug, Clone, Copy, PartialEq, Eq, Hash)]\n#[allow(non_camel_case_types)]\npub enum "@ + name + "Field {\n"@
        + variant_list_text(vs, VariantPart::Fields(FieldPart::KeyVariants), name)
        + "}\nimpl ::lariv_rs::html_form::FormFieldKey for "@ + name
        + "Field {\n    fn html_name(self) -> &'static str {\n        match self {\n"@
        + variant_list_text(vs, VariantPart::Fields(FieldPart::HtmlArms), name)
        + "        }\n    }\n    fn display_key(self) -> &'static str {\n        match self {\n"@
        + variant_list_text(vs, VariantPart::Fields(FieldPart::DisplayArms), name)
        + "        }\n    }\n    fn choices_key(self) -> &'static str {\n        match self {\n"@
        + variant_list_text(vs, VariantPart::Fields(FieldPart::ChoicesArms), name) + "        }\n    }\n}\n"@
}

/// The `HtmlForm` impl of a form kind whose discriminant is `t` (a literal).
pub open spec fn kind_form_impl_text(vs: Seq<VariantSource>, name: Seq<char>, t: Seq<char>) -> Seq<char> {
    "impl ::lariv_rs::html_form::HtmlForm for "@ + name + " {\n    type Field = "@ + name
        + "Field;\n    type Flag = ::lariv_rs::html_form::NoFormFlags;\n    type Submit = "@ + name
        + "Submit;\n    fn field_specs() -> &'static [::lariv_rs::html_form::FieldSpec] {\n        &[]\n    }\n    fn file_field_names() -> &'static [&'static str] {\n        &["@
        + variant_list_text(vs, VariantPart::Fields(FieldPart::FileOnes), name)
        + "]\n    }\n    fn multi_file_field_names() -> &'static [&'static str] {\n        &["@
        + variant_list_text(vs, VariantPart::Fields(FieldPart::FileManys), name)
        + "]\n    }\n    fn assemble_submit(mut parts: ::lariv_rs::html_form::MultipartParts) -> ::core::result::Result<Self::Submit, ::lariv_rs::html_form::FormError> {\n        let value = parts.text.get_first("@
        + t + ").unwrap_or(\"\").to_string();\n        match value.as_str() {\n"@
        + variant_list_text(vs, VariantPart::Arms, name)
        + "            other => Err(::lariv_rs::html_form::FormError::Validation(::std::format!(\"unknown {}: {other}\", "@
        + t
        + "))),\n        }\n    }\n    fn render_inputs(ctx: &::lariv_rs::html_form::FormCtx<'_>) -> ::maud::Markup {\n        let field = ::lariv_rs::html_form::FieldRender { name: "@
        + t + ", label: \"\", value: ctx.value_of("@ + t
        + "), required: false, spec: &::lariv_rs::html_form::FieldSpec { name: "@ + t
        + ", label: \"\", required: false, row: None, when: None, required_unless: None, model: None, show: None, url: None, swap_key: None, display_key: None, error_key: None, choices_key: None, placeholder: None, hint: None, rows: None, multiple: false, accept: None, render: |_, _| ::maud::Markup::default() } };\n        ::lariv_rs::html_form::render_kind::<Self>(ctx, &field)\n    }\n}\n"@
}

/// Whether some variant is a tuple variant.
pub open spec fn has_tuple_variant(vs: Seq<VariantSource>) -> bool {
    exists|i: int| 0 <= i < vs.len() && #[trigger] vs[i].shape is Tuple
}

/// Everything `#[html_form]` writes for the form kind `src` with options
/// `default`, `no_debug` and `tag` (default `Kind`): the serde-tagged form
/// enum, its `Default` where asked, the field-key enum, the submit enum, the
/// `HtmlForm` impl and the `HtmlKind` impl; or why `src` cannot be one.
pub open spec fn enum_form_spec(src: EnumFormSource, default: bool, no_debug: bool, tag: Option<Seq<char>>) -> Result<
    Seq<char>,
    EnumFormError,
> {
    let vs = src.variants@;
    let n = src.name@;
    let tg = match tag {
        Some(t) => t,
        None => DEFAULT_KIND_TAG@,
    };
    let t = str_lit(tg);
    if has_tuple_variant(vs) {
        Err(EnumFormError::TupleVariant)
    } else if vs.len() == 0 {
        Err(EnumFormError::NoVariants)
    } else {
        Ok(
            attr_lines_text(src.attrs@, ""@) + "#[derive("@ + derives_text(false, no_debug) + ")]\n#[serde(tag = "@ + t
                + ")]\n"@ + src.vis@ + "enum "@ + n + " {\n"@ + variant_list_text(vs, VariantPart::Defs, n) + "}\n"@
                + (if default {
                "impl ::core::default::Default for "@ + n + " {\n    fn default() -> Self {\n        "@
                    + default_expr_text(vs[0]) + "\n    }\n}\n"@
            } else {
                seq![]
            }) + kind_key_enum_text(vs, n) + "#[derive(Debug)]\n"@ + src.vis@ + "enum "@ + n + "Submit {\n"@
                + variant_list_text(vs, VariantPart::Submits, n) + "}\n"@ + kind_form_impl_text(vs, n, t)
                + "impl ::lariv_rs::html_form::HtmlKind for "@ + n + " {\n    fn kind_tag() -> &'static str { "@ + t
                + " }\n    fn kind_model() -> &'static str { "@ + str_lit(kind_model_spec(tg))
                + " }\n    fn variants() -> &'static [::lariv_rs::html_form::KindVariantSpec] {\n        &[\n"@
                + variant_list_text(vs, VariantPart::Specs, n) + "        ]\n    }\n}\n"@,
        )
    }
}

fn variant_def(v: &VariantSource) -> (r: String)
    ensures
        r@ == variant_item_text(*v, VariantPart::Defs, seq![]),
{
    let mut s = to_owned("    ");
    push_str(&mut s, v.name.as_str());
    match &v.shape {
        VariantShape::Named(fs) => {
            push_str(&mut s, " {\n");
            push_field_list(&mut s, fs, FieldPart::VariantDefs);
            push_str(&mut s, "    },\n");
        },
        _ => push_str(&mut s, ",\n"),
    }
    s
}

fn variant_submit(v: &VariantSource) -> (r: String)
    ensures
        r@ == variant_item_text(*v, VariantPart::Submits, seq![]),
{
    let mut s = to_owned("    ");
    push_str(&mut s, v.name.as_str());
    match &v.shape {
        VariantShape::Named(fs) => {
            push_str(&mut s, " { ");
            push_field_list(&mut s, fs, FieldPart::VariantSubmits);
            push_str(&mut s, "},\n");
        },
        _ => push_str(&mut s, ",\n"),
    }
    s
}

fn variant_spec(v: &VariantSource) -> (r: String)
    ensures
        r@ == variant_item_text(*v, VariantPart::Specs, seq![]),
{
    let vn = v.name.as_str();
    let mut s = to_owned("            ::lariv_rs::html_form::KindVariantSpec { value: ");
    push_str_lit(&mut s, vn);
    push_str(&mut s, ", label: ");
    let l = match &v.label {
        Some(l) => l.as_str(),
        None => vn,
    };
    push_str_lit(&mut s, l);
    push_str(&mut s, ", fields: &[");
    let ghost mid = s@;
    match &v.shape {
        VariantShape::Named(fs) => push_field_list(&mut s, fs, FieldPart::Specs),
        _ => {
            assert(s@ =~= mid + field_list_text(shape_fields(v.shape), FieldPart::Specs));
        },
    }
    push_str(&mut s, "] },\n");
    s
}

fn variant_arm(v: &VariantSource, name: &str) -> (r: String)
    ensures
        r@ == variant_item_text(*v, VariantPart::Arms, name@),
{
    let vn = v.name.as_str();
    let mut s = to_owned("            ");
    push_str_lit(&mut s, vn);
    push_str(&mut s, " => Ok(");
    push_str(&mut s, name);
    push_str(&mut s, "Submit::");
    push_str(&mut s, vn);
    let ghost mid = s@;
    match &v.shape {
        VariantShape::Named(fs) => {
            push_str(&mut s, " { ");
            push_field_list(&mut s, fs, FieldPart::VariantAssigns);
            push_str(&mut s, "}");
        },
        _ => {},
    }
    assert(s@ =~= mid + (if v.shape is Named {
        " { "@ + field_list_text(shape_fields(v.shape), FieldPart::VariantAssigns) + "}"@
    } else {
        seq![]
    }));
    push_str(&mut s, "),\n");
    s
}

fn push_variant_item(out: &mut String, v: &VariantSource, part: VariantPart, name: &str)
    ensures
        final(out)@ == old(out)@ + variant_item_text(*v, part, name@),
{
    let ghost start = out@;
    match part {
        VariantPart::Defs => {
            let t = variant_def(v);
            push_str(out, t.as_str());
        },
        VariantPart::Submits => {
            let t = variant_submit(v);
            push_str(out, t.as_str());
        },
        VariantPart::Specs => {
            let t = variant_spec(v);
            push_str(out, t.as_str());
        },
        VariantPart::Arms => {
            let t = variant_arm(v, name);
            push_str(out, t.as_str());
        },
        VariantPart::Fields(fp) => {
            match &v.shape {
                VariantShape::Named(fs) => push_field_list(out, fs, fp),
                _ => {
                    assert(out@ =~= start + field_list_text(shape_fields(v.shape), fp));
                },
            }
        },
    }
}

fn push_variant_list(out: &mut String, vs: &Vec<VariantSource>, part: VariantPart, name: &str)
    ensures
        final(out)@ == old(out)@ + variant_list_text(vs@, part, name@),
{
    let ghost start = out@;
    let mut i: usize = 0;
    while i < vs.len()
        invariant
            i <= vs.len(),
            out@ == start + variant_list_text(vs@.take(i as int), part, name@),
        decreases vs.len() - i,
    {
        assert(vs@.take(i + 1).drop_last() =~= vs@.take(i as int));
        assert(vs@.take(i + 1).last() == vs@[i as int]);
        push_variant_item(out, &vs[i], part, name);
        assert(out@ =~= start + variant_list_text(vs@.take(i + 1), part, name@));
        i = i + 1;
    }
    assert(vs@.take(vs.len() as int) =~= vs@);
}

fn push_default_expr(out: &mut String, v: &VariantSource)
    ensures
        final(out)@ == old(out)@ + default_expr_text(*v),
{
    let ghost start = out@;
    push_str(out, "Self::");
    push_str(out, v.name.as_str());
    match &v.shape {
        VariantShape::Named(fs) => {
            push_str(out, " { ");
            push_field_list(out, fs, FieldPart::DefaultInits);
            push_str(out, "}");
        },
        _ => {},
    }
    assert(out@ =~= start + default_expr_text(*v));
}

fn push_kind_key_enum(out: &mut String, vs: &Vec<VariantSource>, name: &str)
    ensures
        final(out)@ == old(out)@ + kind_key_enum_text(vs@, name@),
{
    let ghost start = out@;
    push_str(out, "#[derive(Debug, Clone, Copy, PartialEq, Eq, Hash)]\n#[allow(non_camel_case_types)]\npub enum ");
    push_str(out, name);
    push_str(out, "Field {\n");
    push_variant_list(out, vs, VariantPart::Fields(FieldPart::KeyVariants), name);
    push_str(out, "}\nimpl ::lariv_rs::html_form::FormFieldKey for ");
    push_str(out, name);
    push_str(out, "Field {\n    fn html_name(self) -> &'static str {\n        match self {\n");
    push_variant_list(out, vs, VariantPart::Fields(FieldPart::HtmlArms), name);
    push_str(out, "        }\n    }\n    fn display_key(self) -> &'static str {\n        match self {\n");
    push_variant_list(out, vs, VariantPart::Fields(FieldPart::DisplayArms), name);
    push_str(out, "        }\n    }\n    fn choices_key(self) -> &'static str {\n        match self {\n");
    push_variant_list(out, vs, VariantPart::Fields(FieldPart::ChoicesArms), name);
    push_str(out, "        }\n    }\n}\n");
    assert(out@ =~= start + kind_key_enum_text(vs@, name@));
}

fn kind_form_impl(vs: &Vec<VariantSource>, name: &str, t: &str) -> (r: String)
    ensures
        r@ == kind_form_impl_text(vs@, name@, t@),
{
    let mut s = to_owned("impl ::lariv_rs::html_form::HtmlForm for ");
    let out = &mut s;
    push_str(out, name);
    push_str(out, " {\n    type Field = ");
    push_str(out, name);
    push_str(out, "Field;\n    type Flag = ::lariv_rs::html_form::NoFormFlags;\n    type Submit = ");
    push_str(out, name);
    push_str(out, "Submit;\n    fn field_specs() -> &'static [::lariv_rs::html_form::FieldSpec] {\n        &[]\n    }\n    fn file_field_names() -> &'static [&'static str] {\n        &[");
    push_variant_list(out, vs, VariantPart::Fields(FieldPart::FileOnes), name);
    push_str(out, "]\n    }\n    fn multi_file_field_names() -> &'static [&'static str] {\n        &[");
    push_variant_list(out, vs, VariantPart::Fields(FieldPart::FileManys), name);
    push_str(out, "]\n    }\n    fn assemble_submit(mut parts: ::lariv_rs::html_form::MultipartParts) -> ::core::result::Result<Self::Submit, ::lariv_rs::html_form::FormError> {\n        let value = parts.text.get_first(");
    push_str(out, t);
    push_str(out, ").unwrap_or(\"\").to_string();\n        match value.as_str() {\n");
    push_variant_list(out, vs, VariantPart::Arms, name);
    push_str(out, "            other => Err(::lariv_rs::html_form::FormError::Validation(::std::format!(\"unknown {}: {other}\", ");
    push_str(out, t);
    push_str(out, "))),\n        }\n    }\n    fn render_inputs(ctx: &::lariv_rs::html_form::FormCtx<'_>) -> ::maud::Markup {\n        let field = ::lariv_rs::html_form::FieldRender { name: ");
    push_str(out, t);
    push_str(out, ", label: \"\", value: ctx.value_of(");
    push_str(out, t);
    push_str(out, "), required: false, spec: &::lariv_rs::html_form::FieldSpec { name: ");
    push_str(out, t);
    push_str(out, ", label: \"\", required: false, row: None, when: None, required_unless: None, model: None, show: None, url: None, swap_key: None, display_key: None, error_key: None, choices_key: None, placeholder: None, hint: None, rows: None, multiple: false, accept: None, render: |_, _| ::maud::Markup::default() } };\n        ::lariv_rs::html_form::render_kind::<Self>(ctx, &field)\n    }\n}\n");
    s
}

fn has_tuple_exec(vs: &Vec<VariantSource>) -> (r: bool)
    ensures
        r == has_tuple_variant(vs@),
{
    let mut i: usize = 0;
    while i < vs.len()
        invariant
            i <= vs.len(),
            forall|j: int| 0 <= j < i ==> !(#[trigger] vs@[j].shape is Tuple),
        decreases vs.len() - i,
    {
        match &vs[i].shape {
            VariantShape::Tuple => {
                return true;
            },
            _ => {},
        }
        i = i + 1;
    }
    false
}

/// The source text `#[html_form]` writes for the form kind `src` with the
/// options `default`, `no_debug` and `tag`, or why `src` cannot be a form kind.
pub fn enum_form_text(src: &EnumFormSource, default: bool, no_debug: bool, tag: Option<&str>) -> (r: Result<
    String,
    EnumFormError,
>)
    ensures
        match r {
            Ok(t) => enum_form_spec(
                *src,
                default,
                no_debug,
                match tag {
                    Some(t) => Some(t@),
                    None => None,
                },
            ) == Ok::<Seq<char>, EnumFormError>(t@),
            Err(e) => enum_form_spec(
                *src,
                default,
                no_debug,
                match tag {
                    Some(t) => Some(t@),
                    None => None,
                },
            ) == Err::<Seq<char>, EnumFormError>(e),
        },
{
    if has_tuple_exec(&src.variants) {
        return Err(EnumFormError::TupleVariant);
    }
    if src.variants.len() == 0 {
        return Err(EnumFormError::NoVariants);
    }
    let ghost vs = src.variants@;
    let n = src.name.as_str();
    let (tg, model) = kind_tag_and_model(tag);
    let mut t = String::new();
    push_str_lit(&mut t, tg.as_str());
    assert(t@ =~= str_lit(tg@));
    let mut out = String::new();
    push_attr_lines(&mut out, &src.attrs, "");
    push_str(&mut out, "#[derive(");
    push_derives(&mut out, false, no_debug);
    push_str(&mut out, ")]\n#[serde(tag = ");
    push_str(&mut out, t.as_str());
    push_str(&mut out, ")]\n");
    push_str(&mut out, src.vis.as_str());
    push_str(&mut out, "enum ");
    push_str(&mut out, n);
    push_str(&mut out, " {\n");
    push_variant_list(&mut out, &src.variants, VariantPart::Defs, n);
    push_str(&mut out, "}\n");
    let ghost before_default = out@;
    if default {
        push_str(&mut out, "impl ::core::default::Default for ");
        push_str(&mut out, n);
        push_str(&mut out, " {\n    fn default() -> Self {\n        ");
        push_default_expr(&mut out, &src.variants[0]);
        push_str(&mut out, "\n    }\n}\n");
    }
    assert(out@ =~= before_default + (if default {
        "impl ::core::default::Default for "@ + n@ + " {\n    fn default() -> Self {\n        "@ + default_expr_text(vs[0])
            + "\n    }\n}\n"@
    } else {
        seq![]
    }));
    push_kind_key_enum(&mut out, &src.variants, n);
    push_str(&mut out, "#[derive(Debug)]\n");
    push_str(&mut out, src.vis.as_str());
    push_str(&mut out, "enum ");
    push_str(&mut out, n);
    push_str(&mut out, "Submit {\n");
    push_variant_list(&mut out, &src.variants, VariantPart::Submits, n);
    push_str(&mut out, "}\n");
    let fi = kind_form_impl(&src.variants, n, t.as_str());
    push_str(&mut out, fi.as_str());
    push_str(&mut out, "impl ::lariv_rs::html_form::HtmlKind for ");
    push_str(&mut out, n);
    push_str(&mut out, " {\n    fn kind_tag() -> &'static str { ");
    push_str(&mut out, t.as_str());
    push_str(&mut out, " }\n    fn kind_model() -> &'static str { ");
    push_str_lit(&mut out, model.as_str());
    push_str(&mut out, " }\n    fn variants() -> &'static [::lariv_rs::html_form::KindVariantSpec] {\n        &[\n");
    push_variant_list(&mut out, &src.variants, VariantPart::Specs, n);
    push_str(&mut out, "        ]\n    }\n}\n");
    assert(out@ =~= enum_form_spec(
        *src,
        default,
        no_debug,
        match tag {
            Some(t) => Some(t@),
            None => None,
        },
    )->Ok_0);
    Ok(out)
}

} // verus!
