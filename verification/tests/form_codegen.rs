use lariv_rs::form_attrs::{form_attrs_default, HintSource};
use lariv_rs::form_codegen::{
    enum_form_text, field_spec_text, struct_form_text, struct_submit_text, EnumFormError, EnumFormSource, PreparedField,
    StructFormSource, VariantShape, VariantSource,
};
use lariv_rs::form_fields::{FieldPlan, RenderKind, SerdePlan, SerdeReader, SubmitKind, TypeShape, UploadKind};

fn plan(html: &str, upload: UploadKind, is_kind: bool, skip: bool, serde: SerdePlan, render: RenderKind) -> FieldPlan {
    FieldPlan {
        html_name: html.to_string(),
        label: html.to_string(),
        is_kind,
        upload,
        skip_deser: skip,
        multiple: upload == UploadKind::Many,
        render,
        serde,
        submit: SubmitKind::Declared,
    }
}

#[test]
fn field_spec_literal_lists_every_option() {
    let p = plan("Name", UploadKind::NoUpload, false, false, SerdePlan::Read { default: false, with: None }, RenderKind::Widget);
    let mut f = form_attrs_default();
    f.required = true;
    f.placeholder = Some("Your \"name\"".to_string());
    f.rows = Some(4);
    f.hint = Some(HintSource::Path("crate::HINT".to_string()));
    let t = field_spec_text(&p, &f, "widgets::Text", "String");
    let expected = "::lariv_rs::html_form::FieldSpec {\n    name: \"Name\",\n    label: \"Name\",\n    required: true,\n    row: ::core::option::Option::None,\n    when: ::core::option::Option::None,\n    required_unless: ::core::option::Option::None,\n    model: ::core::option::Option::None,\n    show: ::core::option::Option::None,\n    url: ::core::option::Option::None,\n    swap_key: ::core::option::Option::None,\n    display_key: ::core::option::Option::None,\n    error_key: ::core::option::Option::None,\n    choices_key: ::core::option::Option::None,\n    placeholder: ::core::option::Option::Some(\"Your \\\"name\\\"\"),\n    hint: ::core::option::Option::Some(crate::HINT),\n    rows: ::core::option::Option::Some(4u32),\n    multiple: false,\n    accept: ::core::option::Option::None,\n    render: <widgets::Text as ::lariv_rs::html_form::FormWidget>::render,\n}";
    assert_eq!(t, expected);
}

#[test]
fn field_spec_foreign_key_renders_through_its_route() {
    let p = plan("UserID", UploadKind::NoUpload, false, false, SerdePlan::Read { default: true, with: Some(SerdeReader::EmptyStrAsI64) }, RenderKind::ForeignKey);
    let mut f = form_attrs_default();
    f.route = Some("UserPicker".to_string());
    let t = field_spec_text(&p, &f, "ForeignKey", "i64");
    assert!(t.contains("render: |ctx, field| {\n        let default_url = UserPicker.url();\n"));
    assert!(t.contains("::lariv_rs::components::input_foreign_key("));
    let k = plan("Kind", UploadKind::NoUpload, true, true, SerdePlan::Skip, RenderKind::Kind);
    let t = field_spec_text(&k, &form_attrs_default(), "Kind", "Shape");
    assert!(t.ends_with("render: |ctx, field| ::lariv_rs::html_form::render_kind::<Shape>(ctx, field),\n}"));
}

fn field(rust: &str, ty: &str, p: FieldPlan) -> PreparedField {
    PreparedField {
        rust_name: rust.to_string(),
        vis: "pub ".to_string(),
        ty: ty.to_string(),
        widget: "widgets::Text".to_string(),
        form: form_attrs_default(),
        extra_attrs: vec![],
        shape: TypeShape { last: Some(ty.to_string()), arg: None, is_unit: false },
        plan: p,
    }
}

#[test]
fn struct_submit_reads_text_fields_and_takes_files() {
    let fs = vec![
        field("title", "String", plan("Title", UploadKind::NoUpload, false, false, SerdePlan::Read { default: false, with: None }, RenderKind::Widget)),
        field("count", "i64", plan("Count", UploadKind::NoUpload, false, false, SerdePlan::Read { default: true, with: Some(SerdeReader::EmptyStrAsI64) }, RenderKind::Widget)),
        field("photo", "Upload", plan("Photo", UploadKind::One, false, true, SerdePlan::Skip, RenderKind::Widget)),
        field("section", "()", plan("Section", UploadKind::NoUpload, false, true, SerdePlan::Skip, RenderKind::Widget)),
    ];
    let t = struct_submit_text(&fs, Some("NoteSubmit"));
    let expected = "#[derive(::serde::Deserialize)]\nstruct __Wire {\n    #[serde(rename = \"Title\", alias = \"title\")]\n    title: String,\n    #[serde(rename = \"Count\", alias = \"count\", default, deserialize_with = \"::lariv_rs::html_form::empty_str_as_i64\")]\n    count: i64,\n}\nlet wire: __Wire = parts.text.deserialize()?;\nlet _ = (&wire.title, &wire.count, );\nOk(NoteSubmit { title: wire.title, count: wire.count, photo: parts.files.remove(\"Photo\").ok_or_else(|| ::lariv_rs::html_form::FormError::Validation(::std::format!(\"{} is required\", \"Photo\")))?, section: ::core::default::Default::default(), })";
    assert_eq!(t, expected);
    let plain = struct_submit_text(&fs[..1].iter().map(|f| field(&f.rust_name, &f.ty, plan("Title", UploadKind::NoUpload, false, false, SerdePlan::Read { default: false, with: None }, RenderKind::Widget))).collect(), None);
    assert!(plain.ends_with("Ok(Self { title: wire.title, })"));
}

#[test]
fn struct_submit_kind_field_reads_its_discriminant() {
    let fs = vec![field("shape", "Shape", plan("Shape", UploadKind::NoUpload, true, true, SerdePlan::Skip, RenderKind::Kind))];
    let t = struct_submit_text(&fs, Some("FSubmit"));
    assert!(t.contains("    #[serde(rename = \"Shape\", alias = \"shape\", default)]\n    shape: ::std::string::String,\n"));
    assert!(t.contains("unwrap_or_else(|| wire.shape.clone())"));
    assert!(t.contains("<Shape as ::lariv_rs::html_form::HtmlForm>::assemble_submit(kind_parts)? }, "));
}

fn text_plan(html: &str) -> FieldPlan {
    plan(html, UploadKind::NoUpload, false, false, SerdePlan::Read { default: false, with: None }, RenderKind::Widget)
}

#[test]
fn struct_form_writes_struct_enums_and_impl() {
    let mut title = field("first_name", "String", text_plan("FirstName"));
    title.form.when = Some("has_name".to_string());
    title.form.display = Some("name_display".to_string());
    title.extra_attrs = vec!["#[doc = \"x\"]".to_string()];
    let mut note = field("note", "String", text_plan("Note"));
    note.form.required_unless = Some("alpha".to_string());
    note.form.when = Some("has_name".to_string());
    let src = StructFormSource {
        name: "Person".to_string(),
        vis: "pub ".to_string(),
        generics: String::new(),
        impl_generics: String::new(),
        ty_generics: String::new(),
        where_clause: String::new(),
        attrs: vec!["#[allow(dead_code)]".to_string()],
        fields: vec![title, note],
    };
    let t = struct_form_text(&src, true, false);
    assert!(t.starts_with("#[allow(dead_code)]\n#[derive(::core::fmt::Debug, ::serde::Deserialize, ::core::default::Default)]\npub struct Person {\n    #[doc = \"x\"]\n    #[serde(rename = \"FirstName\", alias = \"first_name\")]\n    pub first_name: String,\n"));
    assert!(!t.contains("PersonSubmit"));
    assert!(t.contains("pub enum PersonField {\n    FirstName,\n    Note,\n}\n"));
    assert!(t.contains("            Self::FirstName => \"name_display\",\n            Self::Note => \"Note\",\n"));
    assert!(t.contains("pub enum PersonFlag {\n    Alpha,\n    HasName,\n}\n"));
    assert!(t.contains("            Self::Alpha => \"alpha\",\n            Self::HasName => \"has_name\",\n"));
    assert!(t.contains("    type Submit = Self;\n"));
    assert!(t.contains("fn file_field_names() -> &'static [&'static str] {\n        &[]\n    }"));
    assert!(t.ends_with("Ok(Self { first_name: wire.first_name, note: wire.note, })\n    }\n}\n"));
}

#[test]
fn struct_form_without_flags_has_empty_flag_enum_and_submit_for_files() {
    let src = StructFormSource {
        name: "Upload".to_string(),
        vis: String::new(),
        generics: String::new(),
        impl_generics: String::new(),
        ty_generics: String::new(),
        where_clause: String::new(),
        attrs: vec![],
        fields: vec![PreparedField {
            vis: String::new(),
            ..field("doc", "Upload", FieldPlan { submit: SubmitKind::UploadedFile, ..plan("Doc", UploadKind::One, false, true, SerdePlan::Skip, RenderKind::Widget) })
        }],
    };
    let t = struct_form_text(&src, false, true);
    assert!(t.starts_with("#[derive(::serde::Deserialize)]\nstruct Upload {\n    #[serde(skip)]\n    doc: Upload,\n}\n#[derive(Debug)]\nstruct UploadSubmit {\n    doc: ::lariv_rs::html_form::UploadedFile,\n}\n"));
    assert!(t.contains("pub enum UploadFlag {}\n"));
    assert!(t.contains("    type Submit = UploadSubmit;\n"));
    assert!(t.contains("fn file_field_names() -> &'static [&'static str] {\n        &[\"Doc\", ]\n    }"));
}

fn kind_src(variants: Vec<VariantSource>) -> EnumFormSource {
    EnumFormSource { name: "Shape".to_string(), vis: "pub ".to_string(), attrs: vec![], variants }
}

#[test]
fn enum_form_writes_tagged_enum_and_kind_impls() {
    let mut count = field("sides", "i64", plan("Sides", UploadKind::NoUpload, false, false, SerdePlan::Read { default: true, with: Some(SerdeReader::EmptyStrAsI64) }, RenderKind::Widget));
    count.shape = TypeShape { last: Some("i64".to_string()), arg: None, is_unit: false };
    let src = kind_src(vec![
        VariantSource { name: "Circle".to_string(), label: Some("Round".to_string()), shape: VariantShape::Unit },
        VariantSource { name: "Polygon".to_string(), label: None, shape: VariantShape::Named(vec![count]) },
    ]);
    let t = enum_form_text(&src, true, false, Some("ShapeKind")).ok().unwrap();
    assert!(t.starts_with("#[derive(::core::fmt::Debug, ::serde::Deserialize)]\n#[serde(tag = \"ShapeKind\")]\npub enum Shape {\n    Circle,\n    Polygon {\n        #[serde(rename = \"Sides\", alias = \"sides\", default, deserialize_with = \"::lariv_rs::html_form::empty_str_as_i64\")] pub sides: i64,\n    },\n}\n"));
    assert!(t.contains("impl ::core::default::Default for Shape {\n    fn default() -> Self {\n        Self::Circle\n    }\n}\n"));
    assert!(t.contains("            \"Circle\" => Ok(ShapeSubmit::Circle),\n"));
    assert!(t.contains("            \"Polygon\" => Ok(ShapeSubmit::Polygon { sides: parts.text.get_first(\"Sides\").map(|s| s.trim()).filter(|s| !s.is_empty()).and_then(|s| s.parse().ok()).unwrap_or(0), }),\n"));
    assert!(t.contains("fn kind_model() -> &'static str { \"shapeKind\" }"));
    assert!(t.contains("::lariv_rs::html_form::KindVariantSpec { value: \"Circle\", label: \"Round\", fields: &[] },\n"));
}

#[test]
fn enum_form_refuses_tuple_and_empty_enums() {
    let src = kind_src(vec![VariantSource { name: "P".to_string(), label: None, shape: VariantShape::Tuple }]);
    assert_eq!(enum_form_text(&src, false, false, None).err(), Some(EnumFormError::TupleVariant));
    assert_eq!(enum_form_text(&kind_src(vec![]), false, false, None).err(), Some(EnumFormError::NoVariants));
    assert_eq!(EnumFormError::NoVariants.message(), "html_form enum needs at least one variant");
    let ok = enum_form_text(&kind_src(vec![VariantSource { name: "A".to_string(), label: None, shape: VariantShape::Unit }]), false, false, None).ok().unwrap();
    assert!(ok.contains("#[serde(tag = \"Kind\")]"));
    assert!(ok.contains("fn kind_model() -> &'static str { \"kind\" }"));
}
