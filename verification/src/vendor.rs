//! Cache-busting for the vendor bundles (`/bundle.css`, `/bundle.js`): the
//! FNV-1a hash of a bundle versions its URL and is its ETag.

use vstd::prelude::*;

use crate::text::{hex_fixed, push_hex_fixed, push_str};

use crate::html::{escape_html, push_escaped_html};

verus! {

/// FNV-1a 64-bit offset basis.
pub const FNV_OFFSET: u64 = 0xcbf29ce484222325;

/// FNV-1a 64-bit prime.
pub const FNV_PRIME: u64 = 0x100000001b3;

/// `Cache-Control` of a versioned bundle.
pub const BUNDLE_CACHE_CONTROL: &'static str = "public, max-age=31536000, immutable";

/// `Content-Type` of the CSS bundle.
pub const CSS_CONTENT_TYPE: &'static str = "text/css; charset=utf-8";

/// `Content-Type` of the JS bundle.
pub const JS_CONTENT_TYPE: &'static str = "text/javascript; charset=utf-8";

/// HTMX configuration written into the document head.
pub const HTMX_CONFIG_META: &'static str = "<meta name=\"htmx-config\" content='{\"defaultSwap\":\"outerHTML\",\"noSwap\":[204,304,\"5xx\"]}'>";

/// FNV-1a over `bytes`: xor each byte in, then multiply by the prime (mod 2^64).
pub open spec fn fnv1a_spec(bytes: Seq<u8>) -> u64
    decreases bytes.len(),
{
    if bytes.len() == 0 {
        FNV_OFFSET
    } else {
        (fnv1a_spec(bytes.drop_last()) ^ (bytes.last() as u64)).wrapping_mul(FNV_PRIME)
    }
}

/// The 64-bit FNV-1a hash of the UTF-8 bytes of `s`.
pub fn fnv1a_64(s: &str) -> (r: u64)
    ensures
        r == fnv1a_spec(vstd::utf8::encode_utf8(s@)),
{
    let bytes = s.as_bytes();
    let mut hash: u64 = FNV_OFFSET;
    let mut i: usize = 0;
    while i < bytes.len()
        invariant
            i <= bytes@.len(),
            bytes@ == vstd::utf8::encode_utf8(s@),
            hash == fnv1a_spec(bytes@.take(i as int)),
        decreases bytes@.len() - i,
    {
        assert(bytes@.take(i + 1).drop_last() == bytes@.take(i as int));
        hash = (hash ^ (bytes[i] as u64)).wrapping_mul(FNV_PRIME);
        i = i + 1;
    }
    assert(bytes@.take(bytes@.len() as int) == bytes@);
    hash
}

/// `{path}?v={hash as 16 lower-case hex digits}`.
pub open spec fn versioned_href_spec(path: Seq<char>, hash: u64) -> Seq<char> {
    path + "?v="@ + hex_fixed(hash as nat, 16)
}

/// A cache-busting URL for an asset whose content hashes to `hash`.
pub fn versioned_href(path: &str, hash: u64) -> (r: String)
    ensures
        r@ == versioned_href_spec(path@, hash),
{
    let mut out = String::new();
    push_str(&mut out, path);
    push_str(&mut out, "?v=");
    push_hex_fixed(&mut out, hash, 16);
    assert(Seq::<char>::empty() + path@ == path@);
    out
}

/// Cache-busting stylesheet URL (`/bundle.css?v=…`) for the CSS bundle `css`.
pub fn bundle_css_href(css: &str) -> (r: String)
    ensures
        r@ == versioned_href_spec("/bundle.css"@, fnv1a_spec(vstd::utf8::encode_utf8(css@))),
{
    versioned_href("/bundle.css", fnv1a_64(css))
}

/// Cache-busting script URL (`/bundle.js?v=…`) for the JS bundle `js`.
pub fn bundle_js_href(js: &str) -> (r: String)
    ensures
        r@ == versioned_href_spec("/bundle.js"@, fnv1a_spec(vstd::utf8::encode_utf8(js@))),
{
    versioned_href("/bundle.js", fnv1a_64(js))
}

/// The quoted ETag of an asset whose content hashes to `hash`.
pub open spec fn etag_spec(hash: u64) -> Seq<char> {
    seq!['"'] + hex_fixed(hash as nat, 16) + seq!['"']
}

/// The ETag header value for a hash.
pub fn etag(hash: u64) -> (r: String)
    ensures
        r@ == etag_spec(hash),
{
    let mut out = String::new();
    crate::text::push_char(&mut out, '"');
    push_hex_fixed(&mut out, hash, 16);
    crate::text::push_char(&mut out, '"');
    out
}

/// The bundles a document links: the CSS bundle, the JS bundle and the
/// Tailwind theme that stays inline.
pub struct VendorBundles<'a> {
    pub css: &'a str,
    pub js: &'a str,
    pub theme_css: &'a str,
}

/// Head tags: HTMX config, the hashed CSS and JS links, and the inline theme.
pub open spec fn vendor_head_spec(css: Seq<char>, js: Seq<char>, theme_css: Seq<char>) -> Seq<char> {
    HTMX_CONFIG_META@ + "<link rel=\"stylesheet\" href=\""@ + escape_html(
        versioned_href_spec("/bundle.css"@, fnv1a_spec(vstd::utf8::encode_utf8(css))),
    ) + "\"><style type=\"text/tailwindcss\">"@ + theme_css + "</style><script src=\""@ + escape_html(
        versioned_href_spec("/bundle.js"@, fnv1a_spec(vstd::utf8::encode_utf8(js))),
    ) + "\" defer></script>"@
}

/// Render the head tags for `bundles`.
pub fn vendor_head(bundles: &VendorBundles) -> (r: String)
    ensures
        r@ == vendor_head_spec(bundles.css@, bundles.js@, bundles.theme_css@),
{
    let css_href = bundle_css_href(bundles.css);
    let js_href = bundle_js_href(bundles.js);
    let mut out = crate::text::to_owned(HTMX_CONFIG_META);
    push_str(&mut out, "<link rel=\"stylesheet\" href=\"");
    push_escaped_html(&mut out, css_href.as_str());
    push_str(&mut out, "\"><style type=\"text/tailwindcss\">");
    push_str(&mut out, bundles.theme_css);
    push_str(&mut out, "</style><script src=\"");
    push_escaped_html(&mut out, js_href.as_str());
    push_str(&mut out, "\" defer></script>");
    out
}

/// The charting runtime `js` in a script that skips it when `ApexCharts` is
/// already defined.
pub fn apexcharts_script(js: &str) -> (r: String)
    ensures
        r@ == "<script>if(typeof ApexCharts==='undefined'){"@ + js@ + "}</script>"@,
{
    let mut out = crate::text::to_owned("<script>if(typeof ApexCharts==='undefined'){");
    push_str(&mut out, js);
    push_str(&mut out, "}</script>");
    out
}

} // verus!
