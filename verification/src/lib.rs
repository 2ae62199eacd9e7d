//! Verified core of the Lariv web framework.
//!
//! The components render HTML as text with exact contracts: attribute maps,
//! HTMX swap and navigation helpers, buttons, inputs (with the length input and
//! its millimetre conversions), pickers, tables with sorting and pagination,
//! menus, breadcrumbs, layouts and document shells, markdown rendering and
//! display fields. Around them stand the route path and form attribute rules of
//! the derive macros and the source text those macros write, the app catalog, command and slot registries,
//! configuration, datetime helpers over chrono, trigram search plans and the
//! vendor bundle cache keys. `laws` states what holds across calls.

pub mod apps;
pub mod attrs;
pub mod breadcrumbs;
pub mod button;
pub mod code_editor;
pub mod capability;
pub mod command;
pub mod config;
pub mod container;
pub mod datetime;
pub mod delete_confirmation;
pub mod detail;
pub mod field;
pub mod form;
pub mod form_attrs;
pub mod form_codegen;
pub mod form_fields;
pub mod hitl;
pub mod html;
pub mod htmx;
pub mod input;
pub mod json;
pub mod label;
pub mod layout;
pub mod length;
pub mod main_args;
pub mod laws;
pub mod markdown;
pub mod meets;
pub mod menu;
pub mod modal;
pub mod names;
pub mod nav_origin;
pub mod paths;
pub mod plugin_routes;
pub mod picker;
pub mod route;
pub mod route_codegen;
pub mod shell;
pub mod slots;
pub mod swap;
pub mod table;
pub mod table_view;
pub mod text;
pub mod timeline;
pub mod trigram;
pub mod vendor;
