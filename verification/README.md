# lariv_rs

Server-rendered UI building blocks for HTMX + Alpine applications, written in
Verus: every component renders its HTML as a `String` whose exact text is
stated in the component's `ensures` clause, over spec functions on `Seq<char>`.

Layout:

- `src/` — the verified library.
  - `text.rs`, `html.rs`, `attrs.rs`: escaping, decimal text, sorted HTML
    attribute maps.
  - `button.rs`, `input.rs`, `picker.rs`, `form.rs`, `field.rs`, `label.rs`,
    `container.rs`, `detail.rs`, `modal.rs`, `timeline.rs`, `table.rs`,
    `table_view.rs`, `menu.rs`, `breadcrumbs.rs`, `layout.rs`, `shell.rs`,
    `code_editor.rs`, `meets.rs`, `hitl.rs`, `delete_confirmation.rs`: the
    components.
  - `swap.rs`, `htmx.rs`, `route.rs`, `nav_origin.rs`: HTMX targets, typed
    routes and the dashboard-origin query flag.
  - `paths.rs`, `plugin_routes.rs`: route path templates and the route
    declaration language.
  - `form_attrs.rs`, `form_fields.rs`, `names.rs`, `main_args.rs`: the rules
    behind the form and `main` attribute macros.
  - `route_codegen.rs`, `form_codegen.rs`: the Rust source text that the
    route declaration macro and the form attribute macro write.
  - `length.rs`, `datetime.rs`, `markdown.rs`, `trigram.rs`, `json.rs`:
    length units, dates in a time zone, Markdown to HTML, text search
    plans, JSON strings.
  - `apps.rs`, `command.rs`, `slots.rs`, `capability.rs`, `config.rs`:
    application registries and configuration.
  - `laws.rs`: properties that relate several functions.
- `tests/` — tests run against the compiled library.
- `app/` — the binary: command line, configuration file, HTTP server and
  the request-scoped dashboard flag.
