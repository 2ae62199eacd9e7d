//! Code editor input: a hidden textarea that submits the value, and an editor
//! mounted over it on the client.

use vstd::prelude::*;

use crate::attrs::{render_entries, HtmlAttrs};
use crate::container::opt_view;
use crate::html::{escape_html, push_escaped_html};
use crate::label::{label_hint, label_hint_spec};
use crate::text::{decimal, escape_attr_seq, push_decimal, push_escaped_attr, push_str, to_owned};

verus! {

/// Code editor input options.
pub struct CodeEditorInput<'a> {
    pub label: &'a str,
    pub name: &'a str,
    pub value: &'a str,
    /// `id` on the backing textarea (for external buttons / labels).
    pub id: &'a str,
    /// Language mode key (`plaintext`, `javascript`, `markdown`, ...). Default `plaintext`.
    pub language: &'a str,
    /// Visible height in text rows (the editor scrolls past it).
    pub rows: u32,
    /// Optional CSS max-height (e.g. `"24rem"`). Defaults to the rows height.
    pub max_height: &'a str,
    pub required: bool,
    pub classes: &'a str,
    pub attrs: HtmlAttrs,
    pub hint: Option<&'a str>,
}

impl Default for CodeEditorInput<'_> {
    fn default() -> (r: Self)
        ensures
            r.label@ == ""@,
            r.name@ == ""@,
            r.value@ == ""@,
            r.id@ == ""@,
            r.language@ == "plaintext"@,
            r.rows == 12,
            r.max_height@ == ""@,
            !r.required,
            r.classes@ == ""@,
            r.attrs@ == Seq::<(Seq<char>, Seq<char>)>::empty(),
            r.hint is None,
    {
        CodeEditorInput {
            label: "",
            name: "",
            value: "",
            id: "",
            language: "plaintext",
            rows: 12,
            max_height: "",
            required: false,
            classes: "",
            attrs: HtmlAttrs::new(),
            hint: None,
        }
    }
}

/// Module script that defines the client-side editor mount once.
pub const CODE_EDITOR_BOOTSTRAP: &'static str = "\n<script type=\"module\">\nif (!window.LarivCodeEditor) {\n  const views = new WeakMap();\n  async function languageExtensions(lang) {\n    if (lang === \"javascript\") {\n      const { javascript } = await import(\"https://esm.sh/@codemirror/lang-javascript@6\");\n      return [javascript()];\n    }\n    if (lang === \"markdown\") {\n      const { markdown } = await import(\"https://esm.sh/@codemirror/lang-markdown@6\");\n      return [markdown()];\n    }\n    return [];\n  }\n  window.LarivCodeEditor = {\n    async mount(root) {\n      if (!root || views.get(root)) return;\n      const ta = root.querySelector(\"textarea[data-code-editor-input]\");\n      const host = root.querySelector(\"[data-code-editor-host]\");\n      if (!ta || !host) return;\n      // Claim the slot before await so concurrent Alpine inits do not double-mount.\n      views.set(root, { destroy() {} });\n      try {\n        // Pin codemirror@6.0.2 — bare `codemirror@6` on esm.sh resolves to legacy CM5 (6.65.x).\n        const [cm, viewMod, stateMod] = await Promise.all([\n          import(\"https://esm.sh/codemirror@6.0.2\"),\n          import(\"https://esm.sh/@codemirror/view@6\"),\n          import(\"https://esm.sh/@codemirror/state@6\"),\n        ]);\n        const { basicSetup } = cm;\n        const { EditorView } = viewMod;\n        const { EditorState } = stateMod;\n        if (!EditorView || !EditorState || !basicSetup) {\n          throw new Error(\n            \"CodeMirror 6 modules missing exports (EditorView/EditorState/basicSetup)\",\n          );\n        }\n        const rows = Number(root.dataset.rows || \"12\");\n        const lang = root.dataset.language || \"plaintext\";\n        const langExt = await languageExtensions(lang);\n        const rowHeight = `${Math.max(rows, 4) * 1.5}rem`;\n        const maxHeight = root.dataset.maxHeight || rowHeight;\n        const sync = EditorView.updateListener.of((v) => {\n          if (v.docChanged) {\n            ta.value = v.state.doc.toString();\n          }\n        });\n        root.style.height = rowHeight;\n        root.style.maxHeight = maxHeight;\n        host.style.height = \"100%\";\n        host.style.maxHeight = \"100%\";\n        host.replaceChildren();\n        const view = new EditorView({\n          parent: host,\n          state: EditorState.create({\n            doc: ta.value,\n            extensions: [\n              basicSetup,\n              ...langExt,\n              sync,\n              EditorView.theme({\n                \"&\": {\n                  width: \"100%\",\n                  maxWidth: \"100%\",\n                  height: \"100%\",\n                  maxHeight: \"100%\",\n                  border: \"1px solid color-mix(in oklab, CanvasText 20%, transparent)\",\n                  borderRadius: \"0.5rem\",\n                  fontSize: \"0.875rem\",\n                },\n                \"&.cm-focused\": {\n                  outline: \"2px solid color-mix(in oklab, CanvasText 35%, transparent)\",\n                },\n                \".cm-scroller\": {\n                  width: \"100%\",\n                  height: \"100%\",\n                  overflow: \"auto\",\n                  fontFamily: \"Roboto Mono, ui-monospace, SFMono-Regular, Menlo, monospace\",\n                  lineHeight: \"1.5\",\n                },\n                \".cm-content\": {\n                  width: \"100%\",\n                },\n              }),\n            ],\n          }),\n        });\n        views.set(root, view);\n        const applyText = (text) => {\n          const next = text == null ? ta.value : String(text);\n          ta.value = next;\n          view.dispatch({\n            changes: { from: 0, to: view.state.doc.length, insert: next },\n          });\n        };\n        root.addEventListener(\"code-editor:set\", (e) => {\n          applyText(e.detail && e.detail.value != null ? e.detail.value : ta.value);\n        });\n        ta.addEventListener(\"change\", () => {\n          if (ta.value !== view.state.doc.toString()) applyText(ta.value);\n        });\n      } catch (err) {\n        views.delete(root);\n        console.error(\"LarivCodeEditor.mount failed\", err);\n      }\n    },\n  };\n  window.dispatchEvent(new Event(\"lariv-code-editor-ready\"));\n}\n</script>\n";

/// The `x-init` script: wait for the mount function, then mount on this element.
pub const CODE_EDITOR_MOUNT: &'static str = "(async () => { if (!window.LarivCodeEditor) { await new Promise((r) => { const done = () => { if (window.LarivCodeEditor) r(); }; window.addEventListener('lariv-code-editor-ready', done, { once: true }); done(); const id = setInterval(() => { if (window.LarivCodeEditor) { clearInterval(id); r(); } }, 20); }); } await window.LarivCodeEditor.mount($el); })()";

/// The language used: `plaintext` when none is given.
pub open spec fn editor_language(language: Seq<char>) -> Seq<char> {
    if language.len() == 0 { "plaintext"@ } else { language }
}

/// The rows used: 12 when none are given.
pub open spec fn editor_rows(rows: u32) -> nat {
    if rows == 0 { 12 } else { rows as nat }
}

/// ` {name}="{value}"` for a non-empty value, else nothing.
pub open spec fn opt_attr_spec(name: Seq<char>, value: Seq<char>) -> Seq<char> {
    if value.len() == 0 {
        seq![]
    } else {
        seq![' '] + name + "=\""@ + escape_attr_seq(value) + "\""@
    }
}

/// The editor block: root element, hidden textarea and editor host.
pub open spec fn editor_spec(
    classes: Seq<char>,
    language: Seq<char>,
    rows: nat,
    max_height: Seq<char>,
    name: Seq<char>,
    id: Seq<char>,
    required: bool,
    attrs: Seq<(Seq<char>, Seq<char>)>,
    value: Seq<char>,
) -> Seq<char> {
    "<div class=\"code-editor-input my-1 w-full max-w-full overflow-hidden "@ + escape_attr_seq(classes)
        + "\" data-code-editor-root data-language=\""@ + escape_attr_seq(language) + "\" data-rows=\""@ + decimal(rows)
        + "\""@ + opt_attr_spec("data-max-height"@, max_height) + " x-data x-init=\""@ + escape_attr_seq(
        CODE_EDITOR_MOUNT@,
    ) + "\">"@ + "<textarea name=\""@ + escape_attr_seq(name) + "\""@ + opt_attr_spec("id"@, id) + " rows=\""@
        + decimal(rows) + "\" class=\"hidden\" data-code-editor-input"@ + (if required {
        " required"@
    } else {
        seq![]
    }) + render_entries(attrs) + ">"@ + escape_html(value) + "</textarea>"@
        + "<div data-code-editor-host class=\"h-full max-h-full w-full max-w-full overflow-hidden font-mono text-sm\"></div>"@
        + "</div>"@
}

fn push_opt_attr(out: &mut String, name: &str, value: &str)
    ensures
        final(out)@ == old(out)@ + opt_attr_spec(name@, value@),
{
    if value.is_empty() {
        assert(old(out)@ + Seq::<char>::empty() == old(out)@);
    } else {
        push_str(out, " ");
        push_str(out, name);
        push_str(out, "=\"");
        push_escaped_attr(out, value);
        push_str(out, "\"");
        assert(" "@ == seq![' ']) by {
            reveal_strlit(" ");
        }
    }
}

fn editor(opts: &CodeEditorInput) -> (r: String)
    ensures
        r@ == editor_spec(
            opts.classes@,
            editor_language(opts.language@),
            editor_rows(opts.rows),
            opts.max_height@,
            opts.name@,
            opts.id@,
            opts.required,
            opts.attrs@,
            opts.value@,
        ),
{
    let language = if opts.language.is_empty() { "plaintext" } else { opts.language };
    let rows: u32 = if opts.rows == 0 { 12 } else { opts.rows };
    let mut out = to_owned("<div class=\"code-editor-input my-1 w-full max-w-full overflow-hidden ");
    push_escaped_attr(&mut out, opts.classes);
    push_str(&mut out, "\" data-code-editor-root data-language=\"");
    push_escaped_attr(&mut out, language);
    push_str(&mut out, "\" data-rows=\"");
    push_decimal(&mut out, rows as u64);
    push_str(&mut out, "\"");
    push_opt_attr(&mut out, "data-max-height", opts.max_height);
    push_str(&mut out, " x-data x-init=\"");
    push_escaped_attr(&mut out, CODE_EDITOR_MOUNT);
    push_str(&mut out, "\">");
    push_str(&mut out, "<textarea name=\"");
    push_escaped_attr(&mut out, opts.name);
    push_str(&mut out, "\"");
    push_opt_attr(&mut out, "id", opts.id);
    push_str(&mut out, " rows=\"");
    push_decimal(&mut out, rows as u64);
    push_str(&mut out, "\" class=\"hidden\" data-code-editor-input");
    let ghost s0 = out@;
    if opts.required {
        push_str(&mut out, " required");
    } else {
        assert(s0 + Seq::<char>::empty() == s0);
    }
    let a = opts.attrs.as_string();
    push_str(&mut out, a.as_str());
    push_str(&mut out, ">");
    push_escaped_html(&mut out, opts.value);
    push_str(&mut out, "</textarea>");
    push_str(
        &mut out,
        "<div data-code-editor-host class=\"h-full max-h-full w-full max-w-full overflow-hidden font-mono text-sm\"></div>",
    );
    push_str(&mut out, "</div>");
    out
}

/// The whole input: the bootstrap script, then the editor, labelled when a
/// label or hint is given.
pub open spec fn code_editor_spec(label: Seq<char>, hint: Option<Seq<char>>, editor: Seq<char>) -> Seq<char> {
    CODE_EDITOR_BOOTSTRAP@ + (if label.len() == 0 && hint is None {
        editor
    } else {
        label_hint_spec(label, hint, editor)
    })
}

/// Render a code editor with a hidden form textarea.
pub fn code_editor_input(opts: CodeEditorInput) -> (r: String)
    ensures
        r@ == code_editor_spec(
            opts.label@,
            opt_view(opts.hint),
            editor_spec(
                opts.classes@,
                editor_language(opts.language@),
                editor_rows(opts.rows),
                opts.max_height@,
                opts.name@,
                opts.id@,
                opts.required,
                opts.attrs@,
                opts.value@,
            ),
        ),
{
    let e = editor(&opts);
    let mut out = to_owned(CODE_EDITOR_BOOTSTRAP);
    if opts.label.is_empty() && opts.hint.is_none() {
        push_str(&mut out, e.as_str());
    } else {
        let l = label_hint(opts.label, opts.hint, e.as_str());
        push_str(&mut out, l.as_str());
    }
    out
}

} // verus!
