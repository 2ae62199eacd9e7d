//! Foreign-key and many-to-many pickers: a typeahead box plus a button that
//! opens the selection table in a modal, wired together with Alpine.

use vstd::prelude::*;

use crate::attrs::{render_entries, HtmlAttrs};
use crate::html::{escape_html, icon, icon_spec, push_escaped_html};
use crate::htmx::{HTMX_SWAP_BODY_MODAL, HTMX_TARGET_BODY_MODAL};
use crate::json::{json_str, json_string_of};
use crate::swap::{no_attrs, with_attr, Attrs};
use crate::text::{escape_attr_seq, has_char, push_char, push_escaped_attr, push_str, to_owned};

verus! {

/// Prefix of the id of a foreign-key picker's results dropdown.
pub const FK_DROPDOWN_ID_PREFIX: &'static str = "fk-dropdown-";

/// Piece 0 of the Alpine component of the foreign-key picker.
pub const FK_JS_0: &'static str = "{\n            value: ";

/// Piece 1 of the Alpine component of the foreign-key picker.
pub const FK_JS_1: &'static str = ",\n            display: ";

/// Piece 2 of the Alpine component of the foreign-key picker.
pub const FK_JS_2: &'static str = ",\n            query: ";

/// Piece 3 of the Alpine component of the foreign-key picker.
pub const FK_JS_3: &'static str = ",\n            placeholder: ";

/// Piece 4 of the Alpine component of the foreign-key picker.
pub const FK_JS_4: &'static str = ",\n            fieldName: ";

/// Piece 5 of the Alpine component of the foreign-key picker.
pub const FK_JS_5: &'static str = ",\n            open: false,\n            pendingCreate: false,\n            hasCreate: false,\n            isVisible() { return true },\n            visibleCount() { return 99 },\n            init() {\n                this.$nextTick(() => {\n                    const results = this.$refs.results\n                    if (!results || typeof MutationObserver === 'undefined') {\n                        return\n                    }\n                    new MutationObserver(() => this.relocateCreate()).observe(results, {\n                        childList: true,\n                        subtree: true,\n                    })\n                })\n            },\n            applySelect(detail) {\n                if (!detail || detail.name !== ";

/// Piece 6 of the Alpine component of the foreign-key picker.
pub const FK_JS_6: &'static str = ") {\n                    return\n                }\n                this.value = detail.value\n                this.display = detail.display ? String(detail.display) : ''\n                this.query = this.display\n                this.open = false\n                this.pendingCreate = false\n            },\n            clear() {\n                this.value = ''\n                this.display = ''\n                this.query = ''\n                this.open = false\n                this.pendingCreate = false\n            },\n            closeOutside() {\n                this.open = false\n                this.query = this.display || ''\n            },\n            createButton() {\n                const results = this.$refs.results\n                return results ? results.querySelector('.fk-modal-host button') : null\n            },\n            relocateCreate() {\n                const results = this.$refs.results\n                if (results) {\n                    results.querySelectorAll('form').forEach((f) => f.remove())\n                    results.querySelectorAll('details.dropdown').forEach((d) => d.remove())\n                }\n                const btn = this.createButton()\n                this.hasCreate = !!btn\n                if (!btn) {\n                    return\n                }\n                const raw = btn.getAttribute('hx-get') || ''\n                try {\n                    const u = new URL(raw, window.location.href)\n                    if (this.query && String(this.query).trim()) {\n                        u.searchParams.set('Name', String(this.query).trim())\n                    }\n                    if (this.fieldName) {\n                        u.searchParams.set('target_input', this.fieldName)\n                    }\n                    btn.setAttribute('hx-get', u.pathname + u.search + u.hash)\n                } catch (e) {}\n                if (window.htmx) {\n                    window.htmx.process(btn)\n                }\n            },\n            openCreate() {\n                this.relocateCreate()\n                const btn = this.createButton()\n                if (!btn) {\n                    return\n                }\n                this.pendingCreate = true\n                this.open = false\n                btn.click()\n            },\n            onCreated(detail) {\n                if (!detail) {\n                    return\n                }\n                const name = detail.name || (this.pendingCreate ? this.fieldName : '')\n                if (!name || name !== this.fieldName) {\n                    return\n                }\n                this.applySelect({\n                    name: this.fieldName,\n                    value: detail.value,\n                    display: detail.display,\n                })\n                document.querySelectorAll('dialog.fk-modal-container').forEach((d) => {\n                    if (d.querySelector('.fk-picker-results')) {\n                        return\n                    }\n                    if (d.querySelector('.data-table-container')) {\n                        d.remove()\n                    }\n                })\n            }\n        }";

/// Piece 0 of the Alpine component of the many-to-many picker.
pub const M2M_JS_0: &'static str = "{\n\t\titems: ";

/// Piece 1 of the Alpine component of the many-to-many picker.
pub const M2M_JS_1: &'static str = ",\n\t\tplaceholder: ";

/// Piece 2 of the Alpine component of the many-to-many picker.
pub const M2M_JS_2: &'static str = ",\n\t\tsyncStore() {\n\t\t\tif (typeof Alpine === 'undefined') {\n\t\t\t\treturn\n\t\t\t}\n\t\t\tif (!Alpine.store('m2mSelections')) {\n\t\t\t\tAlpine.store('m2mSelections', {})\n\t\t\t}\n\t\t\tAlpine.store('m2mSelections')[";

/// Piece 3 of the Alpine component of the many-to-many picker.
pub const M2M_JS_3: &'static str = "] = this.items\n\t\t},\n\t\thasItem(value) {\n\t\t\tvalue = String(value)\n\t\t\treturn this.items.some(item => item.Key === value)\n\t\t},\n\t\taddItem(detail) {\n\t\t\tconst value = String(detail.value)\n\t\t\tif (this.hasItem(value)) {\n\t\t\t\treturn\n\t\t\t}\n\t\t\tconst display = detail.display ? String(detail.display) : value\n\t\t\tconst color = detail.color || detail.Color || ''\n\t\t\tconst item = { Key: value, Value: display }\n\t\t\tif (color) {\n\t\t\t\titem.Color = String(color)\n\t\t\t}\n\t\t\tthis.items = [...this.items, item]\n\t\t\tthis.syncStore()\n\t\t},\n\t\tcontrastText(hex) {\n\t\t\tconst h = String(hex || '').replace('#', '')\n\t\t\tif (h.length !== 6) {\n\t\t\t\treturn '#ffffff'\n\t\t\t}\n\t\t\tconst toLin = (c) => c <= 0.04045 ? c / 12.92 : Math.pow((c + 0.055) / 1.055, 2.4)\n\t\t\tconst r = toLin(parseInt(h.slice(0, 2), 16) / 255)\n\t\t\tconst g = toLin(parseInt(h.slice(2, 4), 16) / 255)\n\t\t\tconst b = toLin(parseInt(h.slice(4, 6), 16) / 255)\n\t\t\tconst L = 0.2126 * r + 0.7152 * g + 0.0722 * b\n\t\t\treturn L > 0.179 ? '#111827' : '#ffffff'\n\t\t},\n\t\tremoveItem(detail) {\n\t\t\tconst value = String(detail.value)\n\t\t\tthis.items = this.items.filter(item => item.Key !== value)\n\t\t\tthis.syncStore()\n\t\t},\n\t\teventHandler(ev) {\n\t\t\tif (ev.detail.name === ";

/// Piece 4 of the Alpine component of the many-to-many picker.
pub const M2M_JS_4: &'static str = ") {\n\t\t\t\tif (!this.hasItem(ev.detail.value)) {\n\t\t\t\t\tthis.addItem(ev.detail)\n\t\t\t\t} else {\n\t\t\t\t\tthis.removeItem(ev.detail)\n\t\t\t\t}\n\t\t\t}\n\t\t},\n\t\tonCreated(detail) {\n\t\t\tif (!detail || detail.name !== ";

/// Piece 5 of the Alpine component of the many-to-many picker.
pub const M2M_JS_5: &'static str = ") {\n\t\t\t\treturn\n\t\t\t}\n\t\t\tthis.addItem(detail)\n\t\t\tdocument.querySelectorAll('dialog.fk-modal-container').forEach((d) => {\n\t\t\t\tif (d.querySelector('.fk-picker-results')) {\n\t\t\t\t\treturn\n\t\t\t\t}\n\t\t\t\tif (d.querySelector('.data-table-container')) {\n\t\t\t\t\td.remove()\n\t\t\t\t}\n\t\t\t})\n\t\t}\n\t}";

/// The typeahead search box of a foreign-key picker.
pub open spec fn fk_search_attrs_spec(search_id: Seq<char>, search_key: Seq<char>, dropdown_id: Seq<char>, url: Seq<char>, dropdown_target: Seq<char>) -> Attrs {
    with_attr(with_attr(with_attr(with_attr(with_attr(with_attr(with_attr(with_attr(with_attr(with_attr(with_attr(with_attr(with_attr(with_attr(with_attr(with_attr(with_attr(with_attr(with_attr(with_attr(with_attr(with_attr(with_attr(with_attr(no_attrs(), "id"@, search_id), "type"@, "search"@), "class"@, "input input-bordered join-item flex-1 min-w-0"@), "form"@, "fk-picker-search"@), "name"@, search_key), "x-model"@, "query"@), ":placeholder"@, "placeholder"@), "autocomplete"@, "off"@), "autocorrect"@, "off"@), "spellcheck"@, "false"@), "role"@, "combobox"@), "aria-autocomplete"@, "list"@), "aria-controls"@, dropdown_id), ":aria-expanded"@, "open"@), "hx-get"@, url), "hx-trigger"@, "input changed delay:300ms[this.value.trim() !== '']"@), "hx-target"@, dropdown_target), "hx-swap"@, "innerHTML"@), "hx-push-url"@, "false"@), "hx-sync"@, "this:replace"@), "@input"@, "open = query.trim() !== ''; pendingCreate = false"@), "hx-on::after:swap"@, "var d=window.Alpine&&Alpine.$data(this.closest('[x-data]'));if(d&&d.relocateCreate){d.relocateCreate();d.open=true}"@), "@keydown.enter.prevent"@, ""@), "@keydown.escape"@, "open = false; query = display || ''"@)
}

/// Build the attributes above.
fn fk_search_attrs(search_id: &str, search_key: &str, dropdown_id: &str, url: &str, dropdown_target: &str) -> (r: HtmlAttrs)
    ensures
        r@ == fk_search_attrs_spec(search_id@, search_key@, dropdown_id@, url@, dropdown_target@),
{
    HtmlAttrs::new()
        .set("id", search_id)
        .set("type", "search")
        .set("class", "input input-bordered join-item flex-1 min-w-0")
        .set("form", "fk-picker-search")
        .set("name", search_key)
        .set("x-model", "query")
        .set(":placeholder", "placeholder")
        .set("autocomplete", "off")
        .set("autocorrect", "off")
        .set("spellcheck", "false")
        .set("role", "combobox")
        .set("aria-autocomplete", "list")
        .set("aria-controls", dropdown_id)
        .set(":aria-expanded", "open")
        .set("hx-get", url)
        .set("hx-trigger", "input changed delay:300ms[this.value.trim() !== '']")
        .set("hx-target", dropdown_target)
        .set("hx-swap", "innerHTML")
        .set("hx-push-url", "false")
        .set("hx-sync", "this:replace")
        .set("@input", "open = query.trim() !== ''; pendingCreate = false")
        .set("hx-on::after:swap", "var d=window.Alpine&&Alpine.$data(this.closest('[x-data]'));if(d&&d.relocateCreate){d.relocateCreate();d.open=true}")
        .set("@keydown.enter.prevent", "")
        .set("@keydown.escape", "open = false; query = display || ''")
}

/// The button that opens the selection table in a modal.
pub open spec fn fk_table_button_attrs_spec(url: Seq<char>, search_include: Seq<char>) -> Attrs {
    with_attr(with_attr(with_attr(with_attr(with_attr(with_attr(with_attr(with_attr(with_attr(no_attrs(), "type"@, "button"@), "class"@, "btn btn-square join-item"@), "hx-get"@, url), "hx-target"@, HTMX_TARGET_BODY_MODAL@), "hx-swap"@, HTMX_SWAP_BODY_MODAL@), "hx-push-url"@, "false"@), "hx-include"@, search_include), "@click"@, "open = false; pendingCreate = false"@), "aria-label"@, "Open selection table"@)
}

/// Build the attributes above.
fn fk_table_button_attrs(url: &str, search_include: &str) -> (r: HtmlAttrs)
    ensures
        r@ == fk_table_button_attrs_spec(url@, search_include@),
{
    HtmlAttrs::new()
        .set("type", "button")
        .set("class", "btn btn-square join-item")
        .set("hx-get", url)
        .set("hx-target", HTMX_TARGET_BODY_MODAL)
        .set("hx-swap", HTMX_SWAP_BODY_MODAL)
        .set("hx-push-url", "false")
        .set("hx-include", search_include)
        .set("@click", "open = false; pendingCreate = false")
        .set("aria-label", "Open selection table")
}

/// The dropdown that receives search results.
pub open spec fn fk_results_attrs_spec(dropdown_id: Seq<char>) -> Attrs {
    with_attr(with_attr(with_attr(no_attrs(), "id"@, dropdown_id), "class"@, "fk-picker-results overflow-auto min-h-0 [&_thead]:hidden [&_.text-xl]:hidden [&_select.select]:hidden [&_details.dropdown]:hidden [&_.join]:hidden [&_.flex.justify-between.items-center.my-2]:hidden [&_.table-container]:border-0 [&_.table-container]:rounded-none"@), "x-ref"@, "results"@)
}

/// Build the attributes above.
fn fk_results_attrs(dropdown_id: &str) -> (r: HtmlAttrs)
    ensures
        r@ == fk_results_attrs_spec(dropdown_id@),
{
    HtmlAttrs::new()
        .set("id", dropdown_id)
        .set("class", "fk-picker-results overflow-auto min-h-0 [&_thead]:hidden [&_.text-xl]:hidden [&_select.select]:hidden [&_details.dropdown]:hidden [&_.join]:hidden [&_.flex.justify-between.items-center.my-2]:hidden [&_.table-container]:border-0 [&_.table-container]:rounded-none")
        .set("x-ref", "results")
}

/// The panel around the results, shown while open.
pub open spec fn fk_panel_attrs_spec() -> Attrs {
    with_attr(with_attr(with_attr(no_attrs(), "class"@, "absolute left-0 right-0 z-50 mt-1 max-h-72 flex flex-col overflow-hidden rounded-box border border-base-300 bg-base-100 shadow"@), "x-show"@, "open"@), "x-cloak"@, ""@)
}

/// Build the attributes above.
fn fk_panel_attrs() -> (r: HtmlAttrs)
    ensures
        r@ == fk_panel_attrs_spec(),
{
    HtmlAttrs::new()
        .set("class", "absolute left-0 right-0 z-50 mt-1 max-h-72 flex flex-col overflow-hidden rounded-box border border-base-300 bg-base-100 shadow")
        .set("x-show", "open")
        .set("x-cloak", "")
}

/// A character kept in an element id: ASCII letters, digits, `-`, `_`; others become `-`.
pub open spec fn id_char(c: char) -> char {
    if crate::text::is_ascii_alnum(c) || c == '-' || c == '_' { c } else { '-' }
}

/// The id of a picker's results dropdown: the prefix and the sanitised `uid`
/// (or `name` when `uid` is empty).
pub open spec fn fk_dropdown_id_spec(uid: Seq<char>, name: Seq<char>) -> Seq<char> {
    FK_DROPDOWN_ID_PREFIX@ + (if uid.len() > 0 { uid } else { name }).map_values(|c: char| id_char(c))
}

/// The id of a picker's results dropdown.
pub fn fk_dropdown_id(uid: &str, name: &str) -> (r: String)
    ensures
        r@ == fk_dropdown_id_spec(uid@, name@),
{
    let raw = if !uid.is_empty() { uid } else { name };
    let v = crate::text::chars_of(raw);
    let mut out = to_owned(FK_DROPDOWN_ID_PREFIX);
    let mut i: usize = 0;
    while i < v.len()
        invariant
            i <= v.len(),
            v@ == (if uid@.len() > 0 { uid@ } else { name@ }),
            out@ == FK_DROPDOWN_ID_PREFIX@ + v@.take(i as int).map_values(|c: char| id_char(c)),
        decreases v.len() - i,
    {
        let c = v[i];
        let keep = ('a' <= c && c <= 'z') || ('A' <= c && c <= 'Z') || ('0' <= c && c <= '9') || c == '-' || c == '_';
        push_char(&mut out, if keep { c } else { '-' });
        assert(v@.take(i + 1).map_values(|c: char| id_char(c)) == v@.take(i as int).map_values(|c: char| id_char(c)).push(id_char(c)));
        i = i + 1;
    }
    assert(v@.take(v@.len() as int) == v@);
    out
}

/// `url` with `target_input=<name>` appended (after `&` when it already has a
/// query, else `?`) when `name` is non-empty.
pub open spec fn with_target_input(url: Seq<char>, name: Seq<char>) -> Seq<char> {
    if name.len() == 0 {
        url
    } else {
        url + (if has_char(url, '?') { seq!['&'] } else { seq!['?'] }) + "target_input="@ + name
    }
}

/// The picker URL for a named field.
fn target_input_url(url: &str, name: &str) -> (r: String)
    ensures
        r@ == with_target_input(url@, name@),
{
    let mut out = to_owned(url);
    if !name.is_empty() {
        let uv = crate::text::chars_of(url);
        if crate::text::contains_char(&uv, '?') {
            push_char(&mut out, '&');
        } else {
            push_char(&mut out, '?');
        }
        push_str(&mut out, "target_input=");
        push_str(&mut out, name);
    }
    out
}

/// The Alpine component of a foreign-key picker, with its four values as JSON.
pub open spec fn fk_alpine_spec(value: Seq<char>, display: Seq<char>, placeholder: Seq<char>, name: Seq<char>) -> Seq<char> {
    FK_JS_0@ + json_string_of(value) + FK_JS_1@ + json_string_of(display) + FK_JS_2@ + json_string_of(display) + FK_JS_3@
        + json_string_of(placeholder) + FK_JS_4@ + json_string_of(name) + FK_JS_5@ + json_string_of(name) + FK_JS_6@
}

/// Build the Alpine component of a foreign-key picker.
fn fk_alpine_data(value: &str, display: &str, placeholder: &str, name: &str) -> (r: String)
    ensures
        r@ == fk_alpine_spec(value@, display@, placeholder@, name@),
{
    let vj = json_str(value);
    let dj = json_str(display);
    let pj = json_str(placeholder);
    let nj = json_str(name);
    let mut out = to_owned(FK_JS_0);
    push_str(&mut out, vj.as_str());
    push_str(&mut out, FK_JS_1);
    push_str(&mut out, dj.as_str());
    push_str(&mut out, FK_JS_2);
    push_str(&mut out, dj.as_str());
    push_str(&mut out, FK_JS_3);
    push_str(&mut out, pj.as_str());
    push_str(&mut out, FK_JS_4);
    push_str(&mut out, nj.as_str());
    push_str(&mut out, FK_JS_5);
    push_str(&mut out, nj.as_str());
    push_str(&mut out, FK_JS_6);
    out
}

/// Foreign-key picker: searchable combobox plus a button that opens the selection table.
pub struct InputForeignKey<'a> {
    pub label: &'a str,
    pub name: &'a str,
    pub value: &'a str,
    pub display: &'a str,
    pub placeholder: &'a str,
    pub url: &'a str,
    /// Optional region id for the widget root.
    pub uid: &'a str,
    /// Query parameter of the typeahead search. Default `Name`.
    pub search_key: &'a str,
    pub required: bool,
    pub hidden: bool,
    pub classes: &'a str,
    pub attrs: HtmlAttrs,
}

impl Default for InputForeignKey<'_> {
    fn default() -> (r: Self)
        ensures
            r.label@ == ""@,
            r.name@ == ""@,
            r.value@ == ""@,
            r.display@ == ""@,
            r.placeholder@ == "Select..."@,
            r.url@ == ""@,
            r.uid@ == ""@,
            r.search_key@ == "Name"@,
            !r.required,
            !r.hidden,
            r.classes@ == ""@,
            r.attrs@ == Seq::<(Seq<char>, Seq<char>)>::empty(),
    {
        InputForeignKey {
            label: "",
            name: "",
            value: "",
            display: "",
            placeholder: "Select...",
            url: "",
            uid: "",
            search_key: "Name",
            required: false,
            hidden: false,
            classes: "",
            attrs: HtmlAttrs::new(),
        }
    }
}

/// The clear button (shown for optional pickers while a value is set).
pub const FK_CLEAR_BUTTON: &'static str = "<button type=\"button\" class=\"btn btn-ghost btn-square join-item\" @click.stop=\"clear()\" x-show=\"value\" aria-label=\"Clear selection\">";

/// The footer button that creates a new record from the typed query.
pub const FK_CREATE_FOOTER: &'static str = "<button type=\"button\" class=\"btn btn-ghost btn-sm w-full justify-start rounded-none shrink-0 border-t border-base-300\" x-ref=\"createFooter\" x-show=\"hasCreate\" x-cloak @click.stop=\"openCreate()\">Create New…</button>";

/// The opening `<div>` of a picker, carrying its Alpine component.
pub open spec fn fk_open_spec(uid: Seq<char>, classes: Seq<char>, alpine: Seq<char>) -> Seq<char> {
    "<div"@ + (if uid.len() == 0 { seq![] } else { " id=\""@ + escape_attr_seq(uid) + "\""@ })
        + " class=\"my-1 relative w-full "@ + escape_attr_seq(classes) + "\" x-data=\""@ + escape_attr_seq(alpine)
        + "\" @fk-select.window=\"applySelect($event.detail)\" @lariv-fk-created.window=\"onCreated($event.detail)\" @click.outside=\"closeOutside()\">"@
}

/// Build the opening `<div>` of a picker.
fn fk_open(uid: &str, classes: &str, alpine: &str) -> (r: String)
    ensures
        r@ == fk_open_spec(uid@, classes@, alpine@),
{
    let mut out = to_owned("<div");
    if !uid.is_empty() {
        push_str(&mut out, " id=\"");
        push_escaped_attr(&mut out, uid);
        push_str(&mut out, "\"");
    } else {
        assert("<div"@ + Seq::<char>::empty() == "<div"@);
    }
    push_str(&mut out, " class=\"my-1 relative w-full ");
    push_escaped_attr(&mut out, classes);
    push_str(&mut out, "\" x-data=\"");
    push_escaped_attr(&mut out, alpine);
    push_str(
        &mut out,
        "\" @fk-select.window=\"applySelect($event.detail)\" @lariv-fk-created.window=\"onCreated($event.detail)\" @click.outside=\"closeOutside()\">",
    );
    out
}

/// The label block of a picker: hidden value input, search box, table button, clear button.
pub open spec fn fk_label_spec(
    label: Seq<char>,
    name: Seq<char>,
    required: bool,
    attrs: Attrs,
    search: Attrs,
    table_button: Attrs,
) -> Seq<char> {
    "<label class=\"label text-sm font-bold flex flex-col items-start gap-1 w-full\">"@ + escape_html(label)
        + "<input type=\"hidden\" name=\""@ + escape_attr_seq(name) + "\" :value=\"value\""@
        + crate::input::required_text(required) + render_entries(attrs) + ">"@ + "<div class=\"join w-full\">"@
        + "<input"@ + render_entries(search) + ">"@ + "<button"@ + render_entries(table_button) + ">"@
        + icon_spec("table-cells"@, ""@, Seq::empty()) + "</button>"@ + (if !required {
        FK_CLEAR_BUTTON@ + icon_spec("x-mark"@, ""@, Seq::empty()) + "</button>"@
    } else {
        seq![]
    }) + "</div>"@ + "</label>"@
}

/// Build the label block of a picker.
fn fk_label(label: &str, name: &str, required: bool, attrs: &HtmlAttrs, search: &HtmlAttrs, table_button: &HtmlAttrs) -> (r: String)
    ensures
        r@ == fk_label_spec(label@, name@, required, attrs@, search@, table_button@),
{
    let mut out = to_owned("<label class=\"label text-sm font-bold flex flex-col items-start gap-1 w-full\">");
    push_escaped_html(&mut out, label);
    push_str(&mut out, "<input type=\"hidden\" name=\"");
    push_escaped_attr(&mut out, name);
    push_str(&mut out, "\" :value=\"value\"");
    if required {
        push_str(&mut out, " required");
    }
    let a = attrs.as_string();
    push_str(&mut out, a.as_str());
    push_str(&mut out, ">");
    push_str(&mut out, "<div class=\"join w-full\">");
    push_str(&mut out, "<input");
    let s = search.as_string();
    push_str(&mut out, s.as_str());
    push_str(&mut out, ">");
    push_str(&mut out, "<button");
    let b = table_button.as_string();
    push_str(&mut out, b.as_str());
    push_str(&mut out, ">");
    let i1 = icon("table-cells", "");
    push_str(&mut out, i1.as_str());
    push_str(&mut out, "</button>");
    let ghost mid = out@;
    if !required {
        push_str(&mut out, FK_CLEAR_BUTTON);
        let i2 = icon("x-mark", "");
        push_str(&mut out, i2.as_str());
        push_str(&mut out, "</button>");
    } else {
        assert(mid + Seq::<char>::empty() == mid);
    }
    push_str(&mut out, "</div>");
    push_str(&mut out, "</label>");
    out
}

/// The results panel of a picker.
pub open spec fn fk_tail_spec(dropdown_id: Seq<char>) -> Seq<char> {
    "<div"@ + render_entries(fk_panel_attrs_spec()) + ">"@ + "<div"@ + render_entries(fk_results_attrs_spec(dropdown_id))
        + "></div>"@ + FK_CREATE_FOOTER@ + "</div>"@ + "</div>"@
}

/// Build the results panel of a picker.
fn fk_tail(dropdown_id: &str) -> (r: String)
    ensures
        r@ == fk_tail_spec(dropdown_id@),
{
    let panel = fk_panel_attrs();
    let results = fk_results_attrs(dropdown_id);
    let mut out = to_owned("<div");
    let p = panel.as_string();
    push_str(&mut out, p.as_str());
    push_str(&mut out, ">");
    push_str(&mut out, "<div");
    let r = results.as_string();
    push_str(&mut out, r.as_str());
    push_str(&mut out, "></div>");
    push_str(&mut out, FK_CREATE_FOOTER);
    push_str(&mut out, "</div>");
    push_str(&mut out, "</div>");
    out
}

/// `s`, or `default` when `s` is empty.
pub open spec fn or_default(s: Seq<char>, default: Seq<char>) -> Seq<char> {
    if s.len() == 0 { default } else { s }
}

/// The HTML of a foreign-key picker.
pub open spec fn input_foreign_key_spec(
    label: Seq<char>,
    name: Seq<char>,
    value: Seq<char>,
    display: Seq<char>,
    placeholder: Seq<char>,
    url: Seq<char>,
    uid: Seq<char>,
    search_key: Seq<char>,
    required: bool,
    hidden: bool,
    classes: Seq<char>,
    attrs: Attrs,
) -> Seq<char> {
    if hidden {
        "<div class=\""@ + escape_html(crate::input::spaced("my-1 hidden"@, classes)) + "\">"@
            + "<input type=\"hidden\" name=\""@ + escape_attr_seq(name) + "\" value=\""@ + escape_attr_seq(value) + "\""@
            + render_entries(attrs) + ">"@ + "</div>"@
    } else {
        let u = with_target_input(url, name);
        let did = fk_dropdown_id_spec(uid, name);
        let sid = did + "-q"@;
        fk_open_spec(uid, classes, fk_alpine_spec(value, display, or_default(placeholder, "Select..."@), name))
            + fk_label_spec(
            label,
            name,
            required,
            attrs,
            fk_search_attrs_spec(sid, or_default(search_key, "Name"@), did, u, seq!['#'] + did),
            fk_table_button_attrs_spec(u, seq!['#'] + sid),
        ) + fk_tail_spec(did)
    }
}

/// Render a foreign-key picker: typeahead search box, table-open button, HTMX modal.
pub fn input_foreign_key(opts: &InputForeignKey) -> (r: String)
    ensures
        r@ == input_foreign_key_spec(
            opts.label@,
            opts.name@,
            opts.value@,
            opts.display@,
            opts.placeholder@,
            opts.url@,
            opts.uid@,
            opts.search_key@,
            opts.required,
            opts.hidden,
            opts.classes@,
            opts.attrs@,
        ),
{
    if opts.hidden {
        let mut wrap = to_owned("my-1 hidden ");
        push_str(&mut wrap, opts.classes);
        let mut out = to_owned("<div class=\"");
        push_escaped_html(&mut out, wrap.as_str());
        push_str(&mut out, "\">");
        push_str(&mut out, "<input type=\"hidden\" name=\"");
        push_escaped_attr(&mut out, opts.name);
        push_str(&mut out, "\" value=\"");
        push_escaped_attr(&mut out, opts.value);
        push_str(&mut out, "\"");
        let a = opts.attrs.as_string();
        push_str(&mut out, a.as_str());
        push_str(&mut out, ">");
        push_str(&mut out, "</div>");
        assert(wrap@ == crate::input::spaced("my-1 hidden"@, opts.classes@)) by {
            reveal_strlit("my-1 hidden ");
            reveal_strlit("my-1 hidden");
        }
        return out;
    }
    let placeholder = if opts.placeholder.is_empty() { "Select..." } else { opts.placeholder };
    let search_key = if opts.search_key.is_empty() { "Name" } else { opts.search_key };
    let url = target_input_url(opts.url, opts.name);
    let dropdown_id = fk_dropdown_id(opts.uid, opts.name);
    let mut search_id = to_owned(dropdown_id.as_str());
    push_str(&mut search_id, "-q");
    let alpine = fk_alpine_data(opts.value, opts.display, placeholder, opts.name);
    let mut dropdown_target = to_owned("#");
    push_str(&mut dropdown_target, dropdown_id.as_str());
    let mut search_include = to_owned("#");
    push_str(&mut search_include, search_id.as_str());
    proof {
        reveal_strlit("#");
        assert(dropdown_target@ == seq!['#'] + dropdown_id@);
        assert(search_include@ == seq!['#'] + search_id@);
        assert(search_id@ == dropdown_id@ + "-q"@);
        assert(placeholder@ == or_default(opts.placeholder@, "Select..."@));
        assert(search_key@ == or_default(opts.search_key@, "Name"@));
    }
    let search = fk_search_attrs(search_id.as_str(), search_key, dropdown_id.as_str(), url.as_str(), dropdown_target.as_str());
    let table_button = fk_table_button_attrs(url.as_str(), search_include.as_str());
    let mut out = fk_open(opts.uid, opts.classes, alpine.as_str());
    let l = fk_label(opts.label, opts.name, opts.required, &opts.attrs, &search, &table_button);
    push_str(&mut out, l.as_str());
    let t = fk_tail(dropdown_id.as_str());
    push_str(&mut out, t.as_str());
    assert(out@ == fk_open_spec(opts.uid@, opts.classes@, alpine@) + l@ + t@);
    out
}

// ---------------------------------------------------------------------------
// Many-to-many
// ---------------------------------------------------------------------------

/// A selected chip of a many-to-many picker.
#[derive(Debug, Clone, PartialEq, Eq)]
pub struct ManyToManyItem {
    pub key: String,
    pub value: String,
    pub color: Option<String>,
}

impl ManyToManyItem {
    /// A chip without a color.
    pub fn new(key: &str, value: &str) -> (r: Self)
        ensures
            r.key@ == key@,
            r.value@ == value@,
            r.color is None,
    {
        ManyToManyItem { key: to_owned(key), value: to_owned(value), color: None }
    }

    /// The chip with `color` (none when `color` is empty).
    pub fn with_color(self, color: &str) -> (r: Self)
        ensures
            r.key == self.key,
            r.value == self.value,
            match r.color {
                Some(c) => color@.len() > 0 && c@ == color@,
                None => color@.len() == 0,
            },
    {
        let mut item = self;
        item.color = if color.is_empty() { None } else { Some(to_owned(color)) };
        item
    }
}

/// The JSON of one chip: `{"Key":…,"Value":…}` and `"Color"` when set.
pub open spec fn item_json(it: ManyToManyItem) -> Seq<char> {
    "{\"Key\":"@ + json_string_of(it.key@) + ",\"Value\":"@ + json_string_of(it.value@) + (match it.color {
        Some(c) => ",\"Color\":"@ + json_string_of(c@),
        None => seq![],
    }) + "}"@
}

/// The JSON array of the chips.
pub open spec fn items_json_spec(items: Seq<ManyToManyItem>) -> Seq<char> {
    seq!['['] + items_json_members(items) + seq![']']
}

/// The chips' JSON, comma-separated.
pub open spec fn items_json_members(items: Seq<ManyToManyItem>) -> Seq<char>
    decreases items.len(),
{
    if items.len() == 0 {
        seq![]
    } else if items.len() == 1 {
        item_json(items[0])
    } else {
        items_json_members(items.drop_last()) + seq![','] + item_json(items.last())
    }
}

/// Append the JSON of one chip.
fn push_item_json(out: &mut String, it: &ManyToManyItem)
    ensures
        final(out)@ == old(out)@ + item_json(*it),
{
    push_str(out, "{\"Key\":");
    let k = json_str(it.key.as_str());
    push_str(out, k.as_str());
    push_str(out, ",\"Value\":");
    let v = json_str(it.value.as_str());
    push_str(out, v.as_str());
    let ghost mid = out@;
    match &it.color {
        Some(c) => {
            push_str(out, ",\"Color\":");
            let cj = json_str(c.as_str());
            push_str(out, cj.as_str());
        },
        None => {
            assert(mid + Seq::<char>::empty() == mid);
        },
    }
    push_str(out, "}");
}

/// The JSON array of the chips (as serde_json writes the serialised items).
pub fn items_json(items: &[ManyToManyItem]) -> (r: String)
    ensures
        r@ == items_json_spec(items@),
{
    let mut out = String::new();
    push_char(&mut out, '[');
    let mut i: usize = 0;
    while i < items.len()
        invariant
            i <= items@.len(),
            out@ == seq!['['] + items_json_members(items@.take(i as int)),
        decreases items@.len() - i,
    {
        let ghost before = out@;
        if i > 0 {
            push_char(&mut out, ',');
        }
        push_item_json(&mut out, &items[i]);
        proof {
            assert(items@.take(i + 1).drop_last() == items@.take(i as int));
            assert(items@.take(i + 1).last() == items@[i as int]);
            if i == 0 {
                assert(items@.take(0) =~= Seq::<ManyToManyItem>::empty());
                assert(before == seq!['[']);
            }
        }
        i = i + 1;
    }
    push_char(&mut out, ']');
    assert(items@.take(items@.len() as int) == items@);
    out
}

/// Many-to-many picker that opens a multi-select modal.
pub struct InputManyToMany<'a> {
    pub label: &'a str,
    pub name: &'a str,
    pub items: &'a [ManyToManyItem],
    pub placeholder: &'a str,
    pub url: &'a str,
    pub required: bool,
    pub classes: &'a str,
    pub attrs: HtmlAttrs,
}

impl Default for InputManyToMany<'_> {
    fn default() -> (r: Self)
        ensures
            r.label@ == ""@,
            r.name@ == ""@,
            r.items@.len() == 0,
            r.placeholder@ == "Select..."@,
            r.url@ == ""@,
            !r.required,
            r.classes@ == ""@,
            r.attrs@ == Seq::<(Seq<char>, Seq<char>)>::empty(),
    {
        InputManyToMany {
            label: "",
            name: "",
            items: &[],
            placeholder: "Select...",
            url: "",
            required: false,
            classes: "",
            attrs: HtmlAttrs::new(),
        }
    }
}

/// The Alpine component of a many-to-many picker.
pub open spec fn m2m_alpine_spec(items: Seq<char>, placeholder: Seq<char>, name: Seq<char>) -> Seq<char> {
    M2M_JS_0@ + items + M2M_JS_1@ + json_string_of(placeholder) + M2M_JS_2@ + json_string_of(name) + M2M_JS_3@
        + json_string_of(name) + M2M_JS_4@ + json_string_of(name) + M2M_JS_5@
}

/// The opening of a chip.
pub const M2M_CHIP_OPEN: &'static str = "<div class=\"flex items-center gap-1 rounded-lg pl-2 pr-1 py-1\" :class=\"item.Color ? 'border-0 font-medium' : 'bg-base-200'\" :style=\"item.Color ? { backgroundColor: item.Color, color: contrastText(item.Color) } : {}\" @click=\"$event.stopPropagation()\">";

/// The remove button of a chip.
pub const M2M_REMOVE_BUTTON: &'static str = "<button type=\"button\" class=\"btn btn-ghost btn-square btn-xs shrink-0\" :class=\"item.Color && 'text-current hover:bg-black/10'\" @click.stop=\"removeItem({ value: item.Key })\" aria-label=\"Remove\">";

/// The HTML of a many-to-many picker.
pub open spec fn input_many_to_many_spec(
    label: Seq<char>,
    name: Seq<char>,
    items: Seq<ManyToManyItem>,
    placeholder: Seq<char>,
    url: Seq<char>,
    classes: Seq<char>,
    attrs: Attrs,
) -> Seq<char> {
    let alpine = m2m_alpine_spec(items_json_spec(items), or_default(placeholder, "Select..."@), name);
    "<div class=\"my-1 relative "@ + escape_attr_seq(classes) + "\" x-data=\""@ + escape_attr_seq(alpine)
        + "\" x-init=\"syncStore()\" @fk-multi-select.window=\"eventHandler($event)\" @lariv-fk-created.window=\"onCreated($event.detail)\""@
        + render_entries(attrs) + ">"@ + "<div class=\"flex flex-col items-start gap-1\">"@ + (if label.len() > 0 {
        "<label class=\"label text-sm font-bold\">"@ + escape_html(label) + "</label>"@
    } else {
        seq![]
    })
        + "<div class=\"input input-bordered w-full min-h-12 h-auto flex flex-wrap items-center gap-2 cursor-pointer\" :class=\"items.length ? '' : 'opacity-50'\" hx-get=\""@
        + escape_attr_seq(with_target_input(url, name)) + "\" hx-target=\""@ + HTMX_TARGET_BODY_MODAL@ + "\" hx-swap=\""@
        + HTMX_SWAP_BODY_MODAL@ + "\" hx-push-url=\"false\">"@
        + "<span x-show=\"items.length === 0\" x-text=\"placeholder\"></span>"@
        + "<template x-for=\"item in items\" x-bind:key=\"item.Key\">"@ + M2M_CHIP_OPEN@
        + "<input type=\"hidden\" name=\""@ + escape_attr_seq(name) + "\" :value=\"item.Key\">"@
        + "<span class=\"text-sm flex-1 min-w-0 truncate\" x-text=\"item.Value\"></span>"@ + M2M_REMOVE_BUTTON@
        + icon_spec("x-mark"@, ""@, Seq::empty()) + "</button>"@ + "</div>"@ + "</template>"@ + "</div>"@ + "</div>"@
        + "</div>"@
}

/// Build the Alpine component of a many-to-many picker.
fn m2m_alpine_data(items: &str, placeholder: &str, name: &str) -> (r: String)
    ensures
        r@ == m2m_alpine_spec(items@, placeholder@, name@),
{
    let pj = json_str(placeholder);
    let nj = json_str(name);
    let mut out = to_owned(M2M_JS_0);
    push_str(&mut out, items);
    push_str(&mut out, M2M_JS_1);
    push_str(&mut out, pj.as_str());
    push_str(&mut out, M2M_JS_2);
    push_str(&mut out, nj.as_str());
    push_str(&mut out, M2M_JS_3);
    push_str(&mut out, nj.as_str());
    push_str(&mut out, M2M_JS_4);
    push_str(&mut out, nj.as_str());
    push_str(&mut out, M2M_JS_5);
    out
}

/// Render a many-to-many chip picker with its HTMX modal opener.
pub fn input_many_to_many(opts: &InputManyToMany) -> (r: String)
    ensures
        r@ == input_many_to_many_spec(opts.label@, opts.name@, opts.items@, opts.placeholder@, opts.url@, opts.classes@, opts.attrs@),
{
    let placeholder = if opts.placeholder.is_empty() { "Select..." } else { opts.placeholder };
    let url = target_input_url(opts.url, opts.name);
    let ij = items_json(opts.items);
    let alpine = m2m_alpine_data(ij.as_str(), placeholder, opts.name);
    let mut out = to_owned("<div class=\"my-1 relative ");
    push_escaped_attr(&mut out, opts.classes);
    push_str(&mut out, "\" x-data=\"");
    push_escaped_attr(&mut out, alpine.as_str());
    push_str(
        &mut out,
        "\" x-init=\"syncStore()\" @fk-multi-select.window=\"eventHandler($event)\" @lariv-fk-created.window=\"onCreated($event.detail)\"",
    );
    let a = opts.attrs.as_string();
    push_str(&mut out, a.as_str());
    push_str(&mut out, ">");
    push_str(&mut out, "<div class=\"flex flex-col items-start gap-1\">");
    let ghost mid = out@;
    if !opts.label.is_empty() {
        push_str(&mut out, "<label class=\"label text-sm font-bold\">");
        push_escaped_html(&mut out, opts.label);
        push_str(&mut out, "</label>");
    } else {
        assert(mid + Seq::<char>::empty() == mid);
    }
    push_str(
        &mut out,
        "<div class=\"input input-bordered w-full min-h-12 h-auto flex flex-wrap items-center gap-2 cursor-pointer\" :class=\"items.length ? '' : 'opacity-50'\" hx-get=\"",
    );
    push_escaped_attr(&mut out, url.as_str());
    push_str(&mut out, "\" hx-target=\"");
    push_str(&mut out, HTMX_TARGET_BODY_MODAL);
    push_str(&mut out, "\" hx-swap=\"");
    push_str(&mut out, HTMX_SWAP_BODY_MODAL);
    push_str(&mut out, "\" hx-push-url=\"false\">");
    push_str(&mut out, "<span x-show=\"items.length === 0\" x-text=\"placeholder\"></span>");
    push_str(&mut out, "<template x-for=\"item in items\" x-bind:key=\"item.Key\">");
    push_str(&mut out, M2M_CHIP_OPEN);
    push_str(&mut out, "<input type=\"hidden\" name=\"");
    push_escaped_attr(&mut out, opts.name);
    push_str(&mut out, "\" :value=\"item.Key\">");
    push_str(&mut out, "<span class=\"text-sm flex-1 min-w-0 truncate\" x-text=\"item.Value\"></span>");
    push_str(&mut out, M2M_REMOVE_BUTTON);
    let x = icon("x-mark", "");
    push_str(&mut out, x.as_str());
    push_str(&mut out, "</button>");
    push_str(&mut out, "</div>");
    push_str(&mut out, "</template>");
    push_str(&mut out, "</div>");
    push_str(&mut out, "</div>");
    push_str(&mut out, "</div>");
    out
}

} // verus!
