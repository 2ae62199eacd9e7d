//! Meeting media components: local capture controls and preview, and the
//! remote participant stage, for the relay client and the WebRTC client. Each
//! renders the client module script it is given, then its mount element.

use vstd::prelude::*;

use crate::code_editor::opt_attr_spec;
use crate::text::{decimal, escape_attr_seq, push_char, push_decimal, push_escaped_attr, push_str, to_owned};

verus! {

/// The text of the `mount_kind` call script, before the kind.
pub const MOUNT_PREFIX: &'static str = "(async () => { if (!window.LarivMeets) { await new Promise((r) => { const done = () => { if (window.LarivMeets) r(); }; window.addEventListener('lariv-meets-ready', done, { once: true }); done(); const id = setInterval(() => { if (window.LarivMeets) { clearInterval(id); r(); } }, 20); }); } await window.LarivMeets.";

/// The text of the mount script after the kind.
pub const MOUNT_SUFFIX: &'static str = "($el); })()";

/// The script that waits for the client and calls its `kind` mount on this element.
pub open spec fn mount_script(kind: Seq<char>) -> Seq<char> {
    MOUNT_PREFIX@ + kind + MOUNT_SUFFIX@
}

/// The client module script.
pub open spec fn script_spec(js: Seq<char>) -> Seq<char> {
    "<script type=\"module\">"@ + js + "</script>"@
}

/// The decimal text of a signed integer.
pub open spec fn int_text(n: int) -> Seq<char> {
    if n < 0 {
        seq!['-'] + decimal((-n) as nat)
    } else {
        decimal(n as nat)
    }
}

fn push_i64(out: &mut String, n: i64)
    ensures
        final(out)@ == old(out)@ + int_text(n as int),
{
    if n < 0 {
        push_char(out, '-');
        let m: u64 = if n == i64::MIN {
            9223372036854775808u64
        } else {
            (-n) as u64
        };
        push_decimal(out, m);
    } else {
        push_decimal(out, n as u64);
    }
}

fn push_mount(out: &mut String, kind: &str)
    ensures
        final(out)@ == old(out)@ + escape_attr_seq(mount_script(kind@)),
{
    let mut s = to_owned(MOUNT_PREFIX);
    push_str(&mut s, kind);
    push_str(&mut s, MOUNT_SUFFIX);
    push_escaped_attr(out, s.as_str());
}

fn push_opt_attr(out: &mut String, name: &str, value: &str)
    ensures
        final(out)@ == old(out)@ + opt_attr_spec(name@, value@),
{
    if value.is_empty() {
        assert(old(out)@ + Seq::<char>::empty() == old(out)@);
    } else {
        push_char(out, ' ');
        push_str(out, name);
        push_str(out, "=\"");
        push_escaped_attr(out, value);
        push_str(out, "\"");
    }
}

/// The camera and microphone pickers and the mute buttons.
pub const DEVICE_CONTROLS: &'static str = "<label class=\"form-control\"><span class=\"label-text\">Camera</span><select data-video-device class=\"select select-bordered select-sm\"></select></label><label class=\"form-control\"><span class=\"label-text\">Microphone</span><select data-audio-device class=\"select select-bordered select-sm\"></select></label><button type=\"button\" class=\"btn btn-sm btn-outline\" data-mute-audio>Mute mic</button><button type=\"button\" class=\"btn btn-sm btn-outline\" data-mute-video>Stop camera</button>";

/// The screen share button.
pub const SHARE_BUTTON: &'static str = "<button type=\"button\" class=\"btn btn-sm btn-outline\" data-share-screen>Share screen</button>";

/// The local preview video.
pub const LOCAL_PREVIEW: &'static str = "<video data-local-preview class=\"w-full max-w-md rounded-lg bg-base-300 aspect-video object-cover\" playsinline muted autoplay></video>";

/// The controls row, with the share button when `share`.
pub open spec fn controls_spec(share: bool) -> Seq<char> {
    "<div class=\"flex flex-wrap gap-2 items-end\">"@ + DEVICE_CONTROLS@ + (if share {
        SHARE_BUTTON@
    } else {
        seq![]
    }) + "</div>"@
}

fn push_controls(out: &mut String, share: bool)
    ensures
        final(out)@ == old(out)@ + controls_spec(share),
{
    push_str(out, "<div class=\"flex flex-wrap gap-2 items-end\">");
    push_str(out, DEVICE_CONTROLS);
    let ghost s0 = out@;
    if share {
        push_str(out, SHARE_BUTTON);
    } else {
        assert(s0 + Seq::<char>::empty() == s0);
    }
    push_str(out, "</div>");
}

/// The ` data-preview-only` flag.
pub open spec fn preview_flag(preview_only: bool) -> Seq<char> {
    if preview_only {
        " data-preview-only"@
    } else {
        seq![]
    }
}

fn push_preview_flag(out: &mut String, preview_only: bool)
    ensures
        final(out)@ == old(out)@ + preview_flag(preview_only),
{
    if preview_only {
        push_str(out, " data-preview-only");
    } else {
        assert(old(out)@ + Seq::<char>::empty() == old(out)@);
    }
}

/// Local capture controls and preview (relay client).
pub struct MeetsMediaSource<'a> {
    pub room_code: &'a str,
    pub preview_only: bool,
    pub show_screen_share: bool,
    pub relay_url: &'a str,
    pub moq_jwt: &'a str,
    pub joined_user_id: i64,
}

impl<'a> MeetsMediaSource<'a> {
    /// Screen sharing is offered when asked for, and whenever the source publishes.
    pub fn show_screen_share(&self) -> (r: bool)
        ensures
            r == (self.show_screen_share || !self.preview_only),
    {
        self.show_screen_share || !self.preview_only
    }
}

/// The relay-client capture block.
pub open spec fn meets_media_source_spec(opts: MeetsMediaSource, js: Seq<char>) -> Seq<char> {
    script_spec(js) + "<div class=\"meets-source flex flex-col gap-3\" data-meets-source data-room-code=\""@
        + escape_attr_seq(opts.room_code@) + "\" data-relay-url=\""@ + escape_attr_seq(opts.relay_url@)
        + "\" data-joined-user-id=\""@ + int_text(opts.joined_user_id as int) + "\""@ + opt_attr_spec(
        "data-moq-jwt"@,
        opts.moq_jwt@,
    ) + preview_flag(opts.preview_only) + " x-data x-init=\""@ + escape_attr_seq(mount_script("mountSource"@))
        + "\">"@ + LOCAL_PREVIEW@ + "<p data-media-error class=\"text-sm text-error hidden\"></p>"@ + controls_spec(
        opts.show_screen_share || !opts.preview_only,
    ) + "</div>"@
}

/// Device picker, local preview, mute and screen share, with `client_js` as the client module.
pub fn meets_media_source(opts: MeetsMediaSource, client_js: &str) -> (r: String)
    ensures
        r@ == meets_media_source_spec(opts, client_js@),
{
    let mut out = to_owned("<script type=\"module\">");
    push_str(&mut out, client_js);
    push_str(&mut out, "</script>");
    push_str(&mut out, "<div class=\"meets-source flex flex-col gap-3\" data-meets-source data-room-code=\"");
    push_escaped_attr(&mut out, opts.room_code);
    push_str(&mut out, "\" data-relay-url=\"");
    push_escaped_attr(&mut out, opts.relay_url);
    push_str(&mut out, "\" data-joined-user-id=\"");
    push_i64(&mut out, opts.joined_user_id);
    push_str(&mut out, "\"");
    push_opt_attr(&mut out, "data-moq-jwt", opts.moq_jwt);
    push_preview_flag(&mut out, opts.preview_only);
    push_str(&mut out, " x-data x-init=\"");
    push_mount(&mut out, "mountSource");
    push_str(&mut out, "\">");
    push_str(&mut out, LOCAL_PREVIEW);
    push_str(&mut out, "<p data-media-error class=\"text-sm text-error hidden\"></p>");
    let share = opts.show_screen_share();
    push_controls(&mut out, share);
    push_str(&mut out, "</div>");
    out
}

/// Remote participant stage of the relay client (id `meets-room-media`).
pub struct MeetsVideoStage<'a> {
    pub room_code: &'a str,
    pub relay_url: &'a str,
    pub moq_jwt: &'a str,
    pub joined_user_id: i64,
}

/// The relay-client stage.
pub open spec fn meets_video_stage_spec(opts: MeetsVideoStage, js: Seq<char>) -> Seq<char> {
    script_spec(js)
        + "<div id=\"meets-room-media\" class=\"meets-stage grid grid-cols-1 sm:grid-cols-2 gap-3 min-h-48\" data-meets-stage data-room-code=\""@
        + escape_attr_seq(opts.room_code@) + "\" data-relay-url=\""@ + escape_attr_seq(opts.relay_url@)
        + "\" data-joined-user-id=\""@ + int_text(opts.joined_user_id as int) + "\""@ + opt_attr_spec(
        "data-moq-jwt"@,
        opts.moq_jwt@,
    ) + " x-data x-init=\""@ + escape_attr_seq(mount_script("mountStage"@))
        + "\"><div data-remote-grid class=\"contents\"></div></div>"@
}

/// Render the remote stream grid, with `client_js` as the client module. HTMX
/// must never morph this node.
pub fn meets_video_stage(opts: MeetsVideoStage, client_js: &str) -> (r: String)
    ensures
        r@ == meets_video_stage_spec(opts, client_js@),
{
    let mut out = to_owned("<script type=\"module\">");
    push_str(&mut out, client_js);
    push_str(&mut out, "</script>");
    push_str(
        &mut out,
        "<div id=\"meets-room-media\" class=\"meets-stage grid grid-cols-1 sm:grid-cols-2 gap-3 min-h-48\" data-meets-stage data-room-code=\"",
    );
    push_escaped_attr(&mut out, opts.room_code);
    push_str(&mut out, "\" data-relay-url=\"");
    push_escaped_attr(&mut out, opts.relay_url);
    push_str(&mut out, "\" data-joined-user-id=\"");
    push_i64(&mut out, opts.joined_user_id);
    push_str(&mut out, "\"");
    push_opt_attr(&mut out, "data-moq-jwt", opts.moq_jwt);
    push_str(&mut out, " x-data x-init=\"");
    push_mount(&mut out, "mountStage");
    push_str(&mut out, "\"><div data-remote-grid class=\"contents\"></div></div>");
    out
}

/// Local capture controls and preview (WebRTC client).
pub struct WebrtcMediaSource<'a> {
    pub room_code: &'a str,
    pub preview_only: bool,
    pub signaling_url: &'a str,
    pub joined_user_id: i64,
    pub ice_servers_json: &'a str,
}

/// The WebRTC capture block.
pub open spec fn webrtc_media_source_spec(opts: WebrtcMediaSource, js: Seq<char>) -> Seq<char> {
    script_spec(js) + "<div class=\"meets-source flex flex-col gap-3\" data-webrtc-source data-room-code=\""@
        + escape_attr_seq(opts.room_code@) + "\" data-signaling-url=\""@ + escape_attr_seq(opts.signaling_url@)
        + "\" data-joined-user-id=\""@ + int_text(opts.joined_user_id as int) + "\" data-ice-servers=\""@
        + escape_attr_seq(opts.ice_servers_json@) + "\""@ + preview_flag(opts.preview_only) + " x-data x-init=\""@
        + escape_attr_seq(mount_script("mountSource"@)) + "\">"@ + LOCAL_PREVIEW@ + controls_spec(!opts.preview_only)
        + "</div>"@
}

/// Device picker, local preview, mute and screen share for the WebRTC client.
pub fn webrtc_media_source(opts: WebrtcMediaSource, client_js: &str) -> (r: String)
    ensures
        r@ == webrtc_media_source_spec(opts, client_js@),
{
    let mut out = to_owned("<script type=\"module\">");
    push_str(&mut out, client_js);
    push_str(&mut out, "</script>");
    push_str(&mut out, "<div class=\"meets-source flex flex-col gap-3\" data-webrtc-source data-room-code=\"");
    push_escaped_attr(&mut out, opts.room_code);
    push_str(&mut out, "\" data-signaling-url=\"");
    push_escaped_attr(&mut out, opts.signaling_url);
    push_str(&mut out, "\" data-joined-user-id=\"");
    push_i64(&mut out, opts.joined_user_id);
    push_str(&mut out, "\" data-ice-servers=\"");
    push_escaped_attr(&mut out, opts.ice_servers_json);
    push_str(&mut out, "\"");
    push_preview_flag(&mut out, opts.preview_only);
    push_str(&mut out, " x-data x-init=\"");
    push_mount(&mut out, "mountSource");
    push_str(&mut out, "\">");
    push_str(&mut out, LOCAL_PREVIEW);
    push_controls(&mut out, !opts.preview_only);
    push_str(&mut out, "</div>");
    out
}

/// The codec order used when none is given.
pub const VIDEO_CODEC_PRIORITY_JSON: &'static str = "[\"AV1\",\"H265\",\"VP9\",\"VP8\",\"H264\"]";

/// Remote participant stage of the WebRTC client (id `meets-room-media`).
pub struct WebrtcVideoStage<'a> {
    pub room_code: &'a str,
    pub signaling_url: &'a str,
    pub joined_user_id: i64,
    pub ice_servers_json: &'a str,
    pub video_codec_priority_json: &'a str,
}

/// The WebRTC stage.
pub open spec fn webrtc_video_stage_spec(opts: WebrtcVideoStage, js: Seq<char>) -> Seq<char> {
    let codecs = if opts.video_codec_priority_json@.len() == 0 {
        VIDEO_CODEC_PRIORITY_JSON@
    } else {
        opts.video_codec_priority_json@
    };
    script_spec(js)
        + "<div id=\"meets-room-media\" class=\"meets-stage grid grid-cols-1 sm:grid-cols-2 gap-3 min-h-48\" data-webrtc-stage data-room-code=\""@
        + escape_attr_seq(opts.room_code@) + "\" data-signaling-url=\""@ + escape_attr_seq(opts.signaling_url@)
        + "\" data-joined-user-id=\""@ + int_text(opts.joined_user_id as int) + "\" data-ice-servers=\""@
        + escape_attr_seq(opts.ice_servers_json@) + "\" data-video-codecs=\""@ + escape_attr_seq(codecs)
        + "\" x-data x-init=\""@ + escape_attr_seq(mount_script("mountStage"@))
        + "\"><div data-remote-grid class=\"contents\"></div></div>"@
}

/// Render the WebRTC remote stream grid. HTMX must never morph this node.
pub fn webrtc_video_stage(opts: WebrtcVideoStage, client_js: &str) -> (r: String)
    ensures
        r@ == webrtc_video_stage_spec(opts, client_js@),
{
    let mut out = to_owned("<script type=\"module\">");
    push_str(&mut out, client_js);
    push_str(&mut out, "</script>");
    push_str(
        &mut out,
        "<div id=\"meets-room-media\" class=\"meets-stage grid grid-cols-1 sm:grid-cols-2 gap-3 min-h-48\" data-webrtc-stage data-room-code=\"",
    );
    push_escaped_attr(&mut out, opts.room_code);
    push_str(&mut out, "\" data-signaling-url=\"");
    push_escaped_attr(&mut out, opts.signaling_url);
    push_str(&mut out, "\" data-joined-user-id=\"");
    push_i64(&mut out, opts.joined_user_id);
    push_str(&mut out, "\" data-ice-servers=\"");
    push_escaped_attr(&mut out, opts.ice_servers_json);
    push_str(&mut out, "\" data-video-codecs=\"");
    let codecs = if opts.video_codec_priority_json.is_empty() {
        VIDEO_CODEC_PRIORITY_JSON
    } else {
        opts.video_codec_priority_json
    };
    push_escaped_attr(&mut out, codecs);
    push_str(&mut out, "\" x-data x-init=\"");
    push_mount(&mut out, "mountStage");
    push_str(&mut out, "\"><div data-remote-grid class=\"contents\"></div></div>");
    out
}

} // verus!
