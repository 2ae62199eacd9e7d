//! Markdown rendered from raw text: parsed with pulldown-cmark and written
//! with utility classes by the library.

use lariv_rs::markdown::render_markdown;

#[test]
fn headings_and_lists_use_tailwind_classes() {
    let html = render_markdown("# Title\n\nA paragraph.\n\n- item\n\n1. one\n");
    assert!(html.contains("text-2xl font-bold"), "{html}");
    assert!(html.contains("list-disc"), "{html}");
    assert!(html.contains("list-decimal"), "{html}");
    assert!(html.contains("<p class=\"my-2"), "{html}");
}

#[test]
fn inline_code_and_links_are_styled() {
    let html = render_markdown("See [`code`](https://example.com) here.");
    assert!(html.contains("font-mono"), "{html}");
    assert!(html.contains("link link-primary"), "{html}");
    assert!(html.contains("href=\"https://example.com\""), "{html}");
    assert!(html.contains("target=\"_blank\""), "{html}");
}

#[test]
fn tables_use_daisyui_table_classes() {
    let html = render_markdown("| a | b |\n| --- | --- |\n| 1 | 2 |\n");
    assert!(html.contains("table table-zebra"), "{html}");
    assert!(html.contains("<th class=\""), "{html}");
}

#[test]
fn html_in_markdown_is_escaped() {
    let html = render_markdown("Hello <script>alert(1)</script>");
    assert!(html.contains("&lt;script&gt;"), "{html}");
    assert!(!html.contains("<script>"), "{html}");
}
