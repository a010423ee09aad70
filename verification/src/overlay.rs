//! What the overlay window shows: its page, and the scripts that drive it.

use vstd::prelude::*;

use crate::base64::{base64_encode, decoded, encoded, law_decode_inverts_encode};
use crate::config::{AppConfig, ConfigView};
use crate::cursor::{law_reading_inverts_decimal, parsed_i32, IntFault};
use crate::json::{js_string, json_string, law_literal_is_self_delimiting};
use crate::text::{
    decimal, digits_value, is_digit, law_decimal_reads_as_the_number, lemma_decimal, push_decimal,
    push_signed_decimal, signed_decimal,
};

verus! {

/// The page from its start to the veil's opacity.
pub const PAGE_TO_VEIL: &'static str = r#"<!DOCTYPE html>
<html>
<head>
<meta charset="utf-8">
<style>
* { margin: 0; padding: 0; box-sizing: border-box; }
html, body { width: 100vw; height: 100vh; overflow: hidden; background: transparent; cursor: none; }
#veil {
  position: fixed;
  inset: 0;
  background: rgba(0, 0, 0, "#;

/// From there to the cutout's width.
pub const PAGE_TO_WIDTH: &'static str = r#");
  pointer-events: none;
}
#cutout {
  position: fixed;
  left: 50%;
  top: 50%;
  width: "#;

/// From there to the cutout's height.
pub const PAGE_TO_HEIGHT: &'static str = r#"px;
  height: "#;

/// From there to the opacity of the cutout's shadow.
pub const PAGE_TO_SHADOW: &'static str = r#"px;
  transform: translate(-50%, -50%);
  background: transparent;
  border-radius: 9999px;
  box-shadow: 0 0 0 99999px rgba(0, 0, 0, "#;

/// From there to the hotkey in the hint.
pub const PAGE_TO_HINT: &'static str = r#");
  outline: 2px solid rgba(255,255,255,0.18);
  pointer-events: none;
}
.hint { position: fixed; bottom: 24px; left: 50%; transform: translateX(-50%);
  color: rgba(255,255,255,0.56); font-family: sans-serif; font-size: 13px; pointer-events: none; user-select: none;
  text-shadow: 0 1px 10px rgba(0,0,0,0.85); }
</style>
</head>
<body>
<div id="veil"></div>
<div id="cutout"></div>
<div class="hint" id="hint">Press "#;

/// From there to the mode that the script starts in.
pub const PAGE_TO_MODE: &'static str = r#" to dismiss</div>
<script>
const hint = document.getElementById('hint');
const veil = document.getElementById('veil');
const cutout = document.getElementById('cutout');
const scale = window.devicePixelRatio || 1;
let mouseX = window.innerWidth / 2;
let mouseY = window.innerHeight / 2;
let mode = '"#;

/// From there to the spotlight's radius.
pub const PAGE_TO_SPOTLIGHT: &'static str = r#"';
let spotlight = "#;

/// From there to the opacity.
pub const PAGE_TO_OPACITY: &'static str = r#";
let opacity = "#;

/// The rest of the page.
pub const PAGE_END: &'static str = r#";
function resize() { draw(); }
function draw() {
  if (mode === 'full') {
    veil.style.display = 'block';
    const fullOpacity = opacity >= 0.99 ? 1 : opacity;
    veil.style.background = 'rgba(0,0,0,' + fullOpacity + ')';
    cutout.style.display = 'none';
    return;
  }
  veil.style.display = 'none';
  cutout.style.display = 'block';
  cutout.style.boxShadow = '0 0 0 99999px rgba(0,0,0,' + opacity + ')';
  if (mode === 'window') {
    const width = Math.max(180, spotlight * 2.4);
    const height = Math.max(120, spotlight * 1.5);
    cutout.style.width = width + 'px';
    cutout.style.height = height + 'px';
    cutout.style.left = (mouseX / scale) + 'px';
    cutout.style.top = (mouseY / scale) + 'px';
    cutout.style.transform = 'translate(-50%, -50%)';
    cutout.style.borderRadius = '24px';
    return;
  }
  cutout.style.width = (spotlight * 2) + 'px';
  cutout.style.height = (spotlight * 2) + 'px';
  cutout.style.left = (mouseX / scale) + 'px';
  cutout.style.top = (mouseY / scale) + 'px';
  cutout.style.transform = 'translate(-50%, -50%)';
  cutout.style.borderRadius = '9999px';
}
window.__OWN_VIEW_setCursor = (x, y) => {
  mouseX = x;
  mouseY = y;
  if (mode !== 'full') draw();
};
window.__OWN_VIEW_setConfig = (nextMode, nextSpotlight, nextOpacity, nextHotkey) => {
  mode = nextMode;
  spotlight = nextSpotlight;
  opacity = nextOpacity;
  hint.textContent = `Press ${nextHotkey} to dismiss`;
  draw();
};
window.addEventListener('resize', resize);
resize();
draw();
</script>
</body>
</html>"#;

/// The overlay's page for the given settings. Hotkey and mode stand in it as
/// they are.
pub open spec fn overlay_html(config: ConfigView) -> Seq<char> {
    let opacity = config.overlay_opacity;
    let radius = decimal(config.spotlight_radius as nat);
    PAGE_TO_VEIL@ + opacity + PAGE_TO_WIDTH@ + radius + PAGE_TO_HEIGHT@ + radius + PAGE_TO_SHADOW@
        + opacity + PAGE_TO_HINT@ + config.hotkey + PAGE_TO_MODE@ + config.mode
        + PAGE_TO_SPOTLIGHT@ + radius + PAGE_TO_OPACITY@ + opacity + PAGE_END@
}

/// The overlay's page for the given settings.
pub fn generate_overlay_html(config: &AppConfig) -> (html: String)
    ensures
        html@ == overlay_html(config@),
{
    let mut html = PAGE_TO_VEIL.to_owned();
    html.append(config.overlay_opacity.as_str());
    html.append(PAGE_TO_WIDTH);
    push_decimal(&mut html, config.spotlight_radius as u64);
    html.append(PAGE_TO_HEIGHT);
    push_decimal(&mut html, config.spotlight_radius as u64);
    html.append(PAGE_TO_SHADOW);
    html.append(config.overlay_opacity.as_str());
    html.append(PAGE_TO_HINT);
    html.append(config.hotkey.as_str());
    html.append(PAGE_TO_MODE);
    html.append(config.mode.as_str());
    html.append(PAGE_TO_SPOTLIGHT);
    push_decimal(&mut html, config.spotlight_radius as u64);
    html.append(PAGE_TO_OPACITY);
    html.append(config.overlay_opacity.as_str());
    html.append(PAGE_END);
    html
}

/// A page as a data URL: its UTF-8 bytes in Base64.
pub open spec fn data_url(html: Seq<char>) -> Seq<char> {
    "data:text/html;base64,"@ + encoded(vstd::utf8::encode_utf8(html))
}

/// The data URL of a page.
pub fn make_data_url(html: &str) -> (url: String)
    ensures
        url@ == data_url(html@),
{
    let mut url = "data:text/html;base64,".to_owned();
    url.append(base64_encode(html.as_bytes()).as_str());
    url
}

/// The script that hands new settings to the overlay's page.
pub open spec fn config_script(config: ConfigView) -> Seq<char> {
    "window.__OWN_VIEW_setConfig("@ + json_string(config.mode) + ", "@ + decimal(
        config.spotlight_radius as nat,
    ) + ", "@ + config.overlay_opacity + ", "@ + json_string(config.hotkey) + ");"@
}

/// The script that moves the cutout to the pointer.
pub open spec fn cursor_script(x: i32, y: i32) -> Seq<char> {
    "window.__OWN_VIEW_setCursor("@ + signed_decimal(x as int) + ", "@ + signed_decimal(y as int)
        + ");"@
}

/// Builds the script that hands over new settings.
fn overlay_config_script(config: &AppConfig) -> (script: String)
    ensures
        script@ == config_script(config@),
{
    let mut script = "window.__OWN_VIEW_setConfig(".to_owned();
    script.append(js_string(config.mode.as_str()).as_str());
    script.append(", ");
    push_decimal(&mut script, config.spotlight_radius as u64);
    script.append(", ");
    script.append(config.overlay_opacity.as_str());
    script.append(", ");
    script.append(js_string(config.hotkey.as_str()).as_str());
    script.append(");");
    script
}

/// Builds the script that moves the cutout.
fn overlay_cursor_script(x: i32, y: i32) -> (script: String)
    ensures
        script@ == cursor_script(x, y),
{
    let mut script = "window.__OWN_VIEW_setCursor(".to_owned();
    push_signed_decimal(&mut script, x);
    script.append(", ");
    push_signed_decimal(&mut script, y);
    script.append(");");
    script
}

/// The script to run in the overlay window after the settings changed, if the
/// window is open.
pub fn push_overlay_config(overlay_open: bool, config: &AppConfig) -> (script: Option<String>)
    ensures
        script is Some <==> overlay_open,
        script matches Some(text) ==> text@ == config_script(config@),
{
    if overlay_open {
        Some(overlay_config_script(config))
    } else {
        None
    }
}

/// The script to run in the overlay window after the pointer moved, if the
/// window is open.
pub fn push_overlay_cursor(overlay_open: bool, x: i32, y: i32) -> (script: Option<String>)
    ensures
        script is Some <==> overlay_open,
        script matches Some(text) ==> text@ == cursor_script(x, y),
{
    if overlay_open {
        Some(overlay_cursor_script(x, y))
    } else {
        None
    }
}

/// One turn of following the pointer: the script to run in the overlay window,
/// if the position could be read and the window is open.
pub fn follow_cursor(
    overlay_open: bool,
    position: Result<(i32, i32), String>,
) -> (script: Option<String>)
    ensures
        script is Some <==> position is Ok && overlay_open,
        script matches Some(text) ==> text@ == cursor_script(
            (position->Ok_0).0,
            (position->Ok_0).1,
        ),
{
    match position {
        Ok(at) => push_overlay_cursor(overlay_open, at.0, at.1),
        Err(_) => None,
    }
}

/// The data URL of a page holds the page: what stands behind its prefix decodes
/// to the page's bytes, and these to the page.
pub proof fn law_data_url_holds_the_page(html: Seq<char>)
    ensures
        data_url(html).take("data:text/html;base64,"@.len() as int) == "data:text/html;base64,"@,
        ({
            let bytes = decoded(data_url(html).skip("data:text/html;base64,"@.len() as int));
            vstd::utf8::valid_utf8(bytes) && vstd::utf8::decode_utf8(bytes) == html
        }),
{
    let prefix = "data:text/html;base64,"@;
    let bytes = vstd::utf8::encode_utf8(html);
    assert(data_url(html).take(prefix.len() as int) =~= prefix);
    assert(data_url(html).skip(prefix.len() as int) =~= encoded(bytes));
    law_decode_inverts_encode(bytes);
    vstd::utf8::encode_utf8_valid_utf8(html);
    vstd::utf8::encode_utf8_decode_utf8(html);
}

/// The text that stands before the first occurrence of `c` is determined.
proof fn lemma_cut_at(c: char, a: Seq<char>, b: Seq<char>, x: Seq<char>, y: Seq<char>)
    requires
        !a.contains(c),
        !b.contains(c),
        a + (seq![c] + x) == b + (seq![c] + y),
    ensures
        a == b,
        x == y,
{
    let (l, r) = (a + (seq![c] + x), b + (seq![c] + y));
    if a.len() < b.len() {
        assert(l[a.len() as int] == c);
        assert(r[a.len() as int] == b[a.len() as int]);
    } else if b.len() < a.len() {
        assert(r[b.len() as int] == c);
        assert(l[b.len() as int] == a[b.len() as int]);
    }
    assert(a =~= l.take(a.len() as int));
    assert(b =~= r.take(a.len() as int));
    assert(x =~= l.skip(a.len() as int + 1));
    assert(y =~= r.skip(a.len() as int + 1));
}

/// Decimal texts hold no comma and no parenthesis, and tell numbers apart.
proof fn lemma_signed_decimal(n: int, m: int)
    ensures
        !signed_decimal(n).contains(','),
        !signed_decimal(n).contains(')'),
        signed_decimal(n) == signed_decimal(m) ==> n == m,
{
    lemma_signed_decimal_chars(n);
    lemma_signed_decimal_chars(m);
    if signed_decimal(n) == signed_decimal(m) {
        let (dn, dm) = (decimal(magnitude(n)), decimal(magnitude(m)));
        assert(n < 0 ==> signed_decimal(n).skip(1) =~= dn);
        assert(m < 0 ==> signed_decimal(m).skip(1) =~= dm);
    }
}

spec fn magnitude(n: int) -> nat {
    (if n < 0 { -n } else { n }) as nat
}

proof fn lemma_signed_decimal_chars(n: int)
    ensures
        !signed_decimal(n).contains(','),
        !signed_decimal(n).contains(')'),
        signed_decimal(n).len() > 0,
        n >= 0 ==> signed_decimal(n)[0] != '-',
        digits_value(decimal(magnitude(n))) == magnitude(n),
{
    let digits = decimal(magnitude(n));
    lemma_decimal(magnitude(n));
    assert(is_digit(digits[0]));
    assert forall|i: int| 0 <= i < signed_decimal(n).len() implies (#[trigger] signed_decimal(n)[i]
        == '-' || is_digit(signed_decimal(n)[i])) by {
        if n < 0 && i > 0 {
            assert(signed_decimal(n)[i] == digits[i - 1]);
        }
    }
}

/// What stands behind the opacity in a settings script.
spec fn behind_opacity(config: ConfigView) -> Seq<char> {
    seq![' '] + (json_string(config.hotkey) + ");"@)
}

/// What stands behind the radius in a settings script.
spec fn behind_radius(config: ConfigView) -> Seq<char> {
    seq![' '] + (config.overlay_opacity + (seq![','] + behind_opacity(config)))
}

/// What stands behind the mode in a settings script.
spec fn behind_mode(config: ConfigView) -> Seq<char> {
    seq![',', ' '] + (decimal(config.spotlight_radius as nat) + (seq![','] + behind_radius(config)))
}

proof fn lemma_config_script_parts(config: ConfigView)
    ensures
        config_script(config) == "window.__OWN_VIEW_setConfig("@ + (json_string(config.mode)
            + behind_mode(config)),
{
    reveal_strlit(", ");
    assert(", "@ =~= seq![',', ' ']);
    assert(config_script(config) =~= "window.__OWN_VIEW_setConfig("@ + (json_string(config.mode)
        + behind_mode(config)));
}

/// Texts that begin alike and are the same end alike.
proof fn lemma_same_rest(head: Seq<char>, x: Seq<char>, y: Seq<char>)
    requires
        head + x == head + y,
    ensures
        x == y,
{
    assert((head + x).skip(head.len() as int) =~= x);
    assert((head + y).skip(head.len() as int) =~= y);
}

proof fn lemma_mode_is_determined(a: ConfigView, b: ConfigView)
    requires
        config_script(a) == config_script(b),
    ensures
        a.mode == b.mode,
        behind_mode(a) == behind_mode(b),
{
    lemma_config_script_parts(a);
    lemma_config_script_parts(b);
    lemma_same_rest(
        "window.__OWN_VIEW_setConfig("@,
        json_string(a.mode) + behind_mode(a),
        json_string(b.mode) + behind_mode(b),
    );
    law_literal_is_self_delimiting(a.mode, b.mode, behind_mode(a), behind_mode(b));
}

proof fn lemma_radius_is_determined(a: ConfigView, b: ConfigView)
    requires
        behind_mode(a) == behind_mode(b),
    ensures
        a.spotlight_radius == b.spotlight_radius,
        behind_radius(a) == behind_radius(b),
{
    let (ra, rb) = (decimal(a.spotlight_radius as nat), decimal(b.spotlight_radius as nat));
    lemma_same_rest(
        seq![',', ' '],
        ra + (seq![','] + behind_radius(a)),
        rb + (seq![','] + behind_radius(b)),
    );
    lemma_signed_decimal(a.spotlight_radius as int, b.spotlight_radius as int);
    lemma_signed_decimal(b.spotlight_radius as int, a.spotlight_radius as int);
    lemma_cut_at(',', ra, rb, behind_radius(a), behind_radius(b));
}

proof fn lemma_opacity_is_determined(a: ConfigView, b: ConfigView)
    requires
        behind_radius(a) == behind_radius(b),
        !a.overlay_opacity.contains(','),
        !b.overlay_opacity.contains(','),
    ensures
        a.overlay_opacity == b.overlay_opacity,
        behind_opacity(a) == behind_opacity(b),
{
    let (oa, ob) = (a.overlay_opacity, b.overlay_opacity);
    lemma_same_rest(
        seq![' '],
        oa + (seq![','] + behind_opacity(a)),
        ob + (seq![','] + behind_opacity(b)),
    );
    lemma_cut_at(',', oa, ob, behind_opacity(a), behind_opacity(b));
}

proof fn lemma_hotkey_is_determined(a: ConfigView, b: ConfigView)
    requires
        behind_opacity(a) == behind_opacity(b),
    ensures
        a.hotkey == b.hotkey,
{
    lemma_same_rest(
        seq![' '],
        json_string(a.hotkey) + ");"@,
        json_string(b.hotkey) + ");"@,
    );
    law_literal_is_self_delimiting(a.hotkey, b.hotkey, ");"@, ");"@);
}

/// A settings script says one thing: two scripts that are the same hand over the
/// same mode, radius, opacity and hotkey, whatever the texts hold, as long as
/// the opacity is written without a comma, as a number is.
pub proof fn law_config_script_is_unambiguous(a: ConfigView, b: ConfigView)
    requires
        config_script(a) == config_script(b),
        !a.overlay_opacity.contains(','),
        !b.overlay_opacity.contains(','),
    ensures
        a.mode == b.mode,
        a.spotlight_radius == b.spotlight_radius,
        a.overlay_opacity == b.overlay_opacity,
        a.hotkey == b.hotkey,
{
    lemma_mode_is_determined(a, b);
    lemma_radius_is_determined(a, b);
    lemma_opacity_is_determined(a, b);
    lemma_hotkey_is_determined(a, b);
}

/// A pointer script says one thing: two scripts that are the same move to the
/// same point.
pub proof fn law_cursor_script_is_unambiguous(ax: i32, ay: i32, bx: i32, by: i32)
    requires
        cursor_script(ax, ay) == cursor_script(bx, by),
    ensures
        ax == bx,
        ay == by,
{
    reveal_strlit(", ");
    reveal_strlit(");");
    let head = "window.__OWN_VIEW_setCursor("@;
    let (tax, tay) = (signed_decimal(ax as int), signed_decimal(ay as int));
    let (tbx, tby) = (signed_decimal(bx as int), signed_decimal(by as int));
    let (a2, b2) = (tay + (seq![')'] + seq![';']), tby + (seq![')'] + seq![';']));
    let (a1, b1) = (tax + (seq![','] + (seq![' '] + a2)), tbx + (seq![','] + (seq![' '] + b2)));
    assert(cursor_script(ax, ay).skip(head.len() as int) =~= a1);
    assert(cursor_script(bx, by).skip(head.len() as int) =~= b1);
    lemma_signed_decimal(ax as int, bx as int);
    lemma_signed_decimal(bx as int, ax as int);
    lemma_signed_decimal(ay as int, by as int);
    lemma_signed_decimal(by as int, ay as int);
    lemma_cut_at(',', tax, tbx, seq![' '] + a2, seq![' '] + b2);
    assert((seq![' '] + a2).skip(1) =~= a2);
    assert((seq![' '] + b2).skip(1) =~= b2);
    lemma_cut_at(')', tay, tby, seq![';'], seq![';']);
}

/// A text that begins with two parts begins with the first, and holds the second
/// behind it.
proof fn lemma_prefix(whole: Seq<char>, first: Seq<char>, second: Seq<char>)
    requires
        whole.len() >= (first + second).len(),
        whole.take((first + second).len() as int) == first + second,
    ensures
        whole.take(first.len() as int) == first,
        whole.subrange(first.len() as int, (first.len() + second.len()) as int) == second,
{
    let both = whole.take((first + second).len() as int);
    assert(whole.take(first.len() as int) =~= both.take(first.len() as int));
    assert(both.take(first.len() as int) =~= first);
    assert(whole.subrange(first.len() as int, (first.len() + second.len()) as int)
        =~= both.subrange(first.len() as int, both.len() as int));
    assert(both.subrange(first.len() as int, both.len() as int) =~= second);
}

/// The page shows the settings: between its fixed parts stand exactly the opacity, the
/// radius, the hotkey and the mode, each in its place, and the radius is a decimal number
/// without needless zeros.
pub proof fn law_page_shows_each_setting(config: ConfigView)
    ensures
        ({
            let html = overlay_html(config);
            let o = config.overlay_opacity;
            let r = decimal(config.spotlight_radius as nat);
            let a1 = PAGE_TO_VEIL@.len() as int;
            let a2 = a1 + o.len() as int;
            let a3 = a2 + PAGE_TO_WIDTH@.len() as int;
            let a4 = a3 + r.len() as int;
            let a5 = a4 + PAGE_TO_HEIGHT@.len() as int;
            let a6 = a5 + r.len() as int;
            let a7 = a6 + PAGE_TO_SHADOW@.len() as int;
            let a8 = a7 + o.len() as int;
            let a9 = a8 + PAGE_TO_HINT@.len() as int;
            let a10 = a9 + config.hotkey.len() as int;
            let a11 = a10 + PAGE_TO_MODE@.len() as int;
            let a12 = a11 + config.mode.len() as int;
            let a13 = a12 + PAGE_TO_SPOTLIGHT@.len() as int;
            let a14 = a13 + r.len() as int;
            let a15 = a14 + PAGE_TO_OPACITY@.len() as int;
            let a16 = a15 + o.len() as int;
            let a17 = a16 + PAGE_END@.len() as int;
            &&& html.len() == a17
            &&& forall|i: int| 0 <= i < r.len() ==> is_digit(#[trigger] r[i])
            &&& digits_value(r) == config.spotlight_radius
            &&& r.len() > 1 ==> r[0] != '0'
            &&& html.subrange(0, a1) == PAGE_TO_VEIL@
            &&& html.subrange(a1, a2) == o
            &&& html.subrange(a2, a3) == PAGE_TO_WIDTH@
            &&& html.subrange(a3, a4) == r
            &&& html.subrange(a4, a5) == PAGE_TO_HEIGHT@
            &&& html.subrange(a5, a6) == r
            &&& html.subrange(a6, a7) == PAGE_TO_SHADOW@
            &&& html.subrange(a7, a8) == o
            &&& html.subrange(a8, a9) == PAGE_TO_HINT@
            &&& html.subrange(a9, a10) == config.hotkey
            &&& html.subrange(a10, a11) == PAGE_TO_MODE@
            &&& html.subrange(a11, a12) == config.mode
            &&& html.subrange(a12, a13) == PAGE_TO_SPOTLIGHT@
            &&& html.subrange(a13, a14) == r
            &&& html.subrange(a14, a15) == PAGE_TO_OPACITY@
            &&& html.subrange(a15, a16) == o
            &&& html.subrange(a16, a17) == PAGE_END@
        }),
{
    let html = overlay_html(config);
    let o = config.overlay_opacity;
    let r = decimal(config.spotlight_radius as nat);
    law_decimal_reads_as_the_number(config.spotlight_radius as nat);
    lemma_decimal(config.spotlight_radius as nat);
    let s1 = PAGE_TO_VEIL@;
    let s2 = s1 + o;
    let s3 = s2 + PAGE_TO_WIDTH@;
    let s4 = s3 + r;
    let s5 = s4 + PAGE_TO_HEIGHT@;
    let s6 = s5 + r;
    let s7 = s6 + PAGE_TO_SHADOW@;
    let s8 = s7 + o;
    let s9 = s8 + PAGE_TO_HINT@;
    let s10 = s9 + config.hotkey;
    let s11 = s10 + PAGE_TO_MODE@;
    let s12 = s11 + config.mode;
    let s13 = s12 + PAGE_TO_SPOTLIGHT@;
    let s14 = s13 + r;
    let s15 = s14 + PAGE_TO_OPACITY@;
    let s16 = s15 + o;
    let s17 = s16 + PAGE_END@;
    assert(html == s17);
    assert(html.take(html.len() as int) =~= html);
    lemma_prefix(html, s16, PAGE_END@);
    lemma_prefix(html, s15, o);
    lemma_prefix(html, s14, PAGE_TO_OPACITY@);
    lemma_prefix(html, s13, r);
    lemma_prefix(html, s12, PAGE_TO_SPOTLIGHT@);
    lemma_prefix(html, s11, config.mode);
    lemma_prefix(html, s10, PAGE_TO_MODE@);
    lemma_prefix(html, s9, config.hotkey);
    lemma_prefix(html, s8, PAGE_TO_HINT@);
    lemma_prefix(html, s7, o);
    lemma_prefix(html, s6, PAGE_TO_SHADOW@);
    lemma_prefix(html, s5, r);
    lemma_prefix(html, s4, PAGE_TO_HEIGHT@);
    lemma_prefix(html, s3, r);
    lemma_prefix(html, s2, PAGE_TO_WIDTH@);
    lemma_prefix(html, s1, o);
    assert(html.subrange(0, s1.len() as int) =~= html.take(s1.len() as int));
}

/// Pages of settings that differ in one setting that the page shows are different.
pub proof fn law_page_tells_settings_apart(a: ConfigView, b: ConfigView)
    requires
        overlay_html(a) == overlay_html(b),
    ensures
        a.spotlight_radius == b.spotlight_radius && a.overlay_opacity == b.overlay_opacity
            && a.hotkey == b.hotkey ==> a.mode == b.mode,
        a.spotlight_radius == b.spotlight_radius && a.overlay_opacity == b.overlay_opacity && a.mode
            == b.mode ==> a.hotkey == b.hotkey,
        a.spotlight_radius == b.spotlight_radius && a.hotkey == b.hotkey && a.mode == b.mode
            ==> a.overlay_opacity == b.overlay_opacity,
        a.overlay_opacity == b.overlay_opacity && a.hotkey == b.hotkey && a.mode == b.mode
            ==> a.spotlight_radius == b.spotlight_radius,
{
    law_page_shows_each_setting(a);
    law_page_shows_each_setting(b);
}

/// The arguments of a settings script are the settings: the mode's literal, the radius as
/// a decimal number without needless zeros, the opacity and the hotkey's literal. The
/// radius ends at `comma`.
pub proof fn law_config_script_hands_over_the_settings(config: ConfigView) -> (comma: int)
    ensures
        ({
            let script = config_script(config);
            let head = "window.__OWN_VIEW_setConfig("@;
            let mode = json_string(config.mode);
            let start = (head.len() + mode.len() + 2) as int;
            let radius = script.subrange(start, comma);
            let behind = (comma + 2 + config.overlay_opacity.len()) as int;
            &&& start < comma < behind + 2 <= script.len()
            &&& script.take(head.len() as int) == head
            &&& script.subrange(head.len() as int, start - 2) == mode
            &&& script.subrange(start - 2, start) == ", "@
            &&& forall|i: int| 0 <= i < radius.len() ==> is_digit(#[trigger] radius[i])
            &&& digits_value(radius) == config.spotlight_radius
            &&& radius.len() > 1 ==> radius[0] != '0'
            &&& script.subrange(comma, comma + 2) == ", "@
            &&& script.subrange(comma + 2, behind) == config.overlay_opacity
            &&& script.subrange(behind, behind + 2) == ", "@
            &&& script.skip(behind + 2) == json_string(config.hotkey) + ");"@
        }),
{
    reveal_strlit(", ");
    let script = config_script(config);
    let r = decimal(config.spotlight_radius as nat);
    law_decimal_reads_as_the_number(config.spotlight_radius as nat);
    lemma_decimal(config.spotlight_radius as nat);
    let s1 = "window.__OWN_VIEW_setConfig("@;
    let s2 = s1 + json_string(config.mode);
    let s3 = s2 + ", "@;
    let s4 = s3 + r;
    let s5 = s4 + ", "@;
    let s6 = s5 + config.overlay_opacity;
    let s7 = s6 + ", "@;
    let s8 = s7 + json_string(config.hotkey);
    let s9 = s8 + ");"@;
    assert(script == s9);
    assert(script.take(script.len() as int) =~= script);
    lemma_prefix(script, s8, ");"@);
    lemma_prefix(script, s7, json_string(config.hotkey));
    lemma_prefix(script, s6, ", "@);
    lemma_prefix(script, s5, config.overlay_opacity);
    lemma_prefix(script, s4, ", "@);
    lemma_prefix(script, s3, r);
    lemma_prefix(script, s2, ", "@);
    lemma_prefix(script, s1, json_string(config.mode));
    assert(script =~= s7 + (json_string(config.hotkey) + ");"@));
    assert(script.skip(s7.len() as int) =~= json_string(config.hotkey) + ");"@);
    s4.len() as int
}

/// The arguments of a pointer script are the point: the text before `comma` reads as `x`,
/// the text behind it as `y`.
pub proof fn law_cursor_script_names_the_point(x: i32, y: i32) -> (comma: int)
    ensures
        ({
            let script = cursor_script(x, y);
            let head = "window.__OWN_VIEW_setCursor("@;
            let first = script.subrange(head.len() as int, comma);
            let second = script.subrange(comma + 2, script.len() - 2);
            &&& head.len() < comma < script.len() - 4
            &&& script.take(head.len() as int) == head
            &&& parsed_i32(first) == Ok::<i32, IntFault>(x)
            &&& first == signed_decimal(x as int)
            &&& script.subrange(comma, comma + 2) == ", "@
            &&& parsed_i32(second) == Ok::<i32, IntFault>(y)
            &&& second == signed_decimal(y as int)
            &&& script.skip(script.len() - 2) == ");"@
        }),
{
    reveal_strlit(", ");
    reveal_strlit(");");
    let script = cursor_script(x, y);
    law_reading_inverts_decimal(x);
    law_reading_inverts_decimal(y);
    lemma_signed_decimal_chars(x as int);
    lemma_signed_decimal_chars(y as int);
    let s1 = "window.__OWN_VIEW_setCursor("@;
    let s2 = s1 + signed_decimal(x as int);
    let s3 = s2 + ", "@;
    let s4 = s3 + signed_decimal(y as int);
    let s5 = s4 + ");"@;
    assert(script == s5);
    assert(script.take(script.len() as int) =~= script);
    lemma_prefix(script, s4, ");"@);
    lemma_prefix(script, s3, signed_decimal(y as int));
    lemma_prefix(script, s2, ", "@);
    lemma_prefix(script, s1, signed_decimal(x as int));
    assert(script.skip(s4.len() as int) =~= ");"@);
    s2.len() as int
}

/// A data URL is the prefix and the Base64 text of the page's bytes, and nothing else.
pub proof fn law_data_url_is_prefix_and_encoding(html: Seq<char>)
    ensures
        data_url(html).len() == 22 + encoded(vstd::utf8::encode_utf8(html)).len(),
        data_url(html).take(22) == "data:text/html;base64,"@,
        data_url(html).skip(22) == encoded(vstd::utf8::encode_utf8(html)),
{
    reveal_strlit("data:text/html;base64,");
    let prefix = "data:text/html;base64,"@;
    assert(prefix.len() == 22);
    assert(data_url(html).take(22) =~= prefix);
    assert(data_url(html).skip(22) =~= encoded(vstd::utf8::encode_utf8(html)));
}

} // verus!
