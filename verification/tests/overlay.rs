use own_view::base64::base64_encode;
use own_view::config::AppConfig;
use own_view::overlay::{
    follow_cursor, generate_overlay_html, make_data_url, push_overlay_config, push_overlay_cursor,
};
use own_view::text::{char_vec, push_decimal, push_signed_decimal, same_text};

fn page(opacity: &str, spotlight: u32, hotkey: &str, mode: &str) -> String {
    format!(
        r#"<!DOCTYPE html>
<html>
<head>
<meta charset="utf-8">
<style>
* {{ margin: 0; padding: 0; box-sizing: border-box; }}
html, body {{ width: 100vw; height: 100vh; overflow: hidden; background: transparent; cursor: none; }}
#veil {{
  position: fixed;
  inset: 0;
  background: rgba(0, 0, 0, {opacity});
  pointer-events: none;
}}
#cutout {{
  position: fixed;
  left: 50%;
  top: 50%;
  width: {spotlight}px;
  height: {spotlight}px;
  transform: translate(-50%, -50%);
  background: transparent;
  border-radius: 9999px;
  box-shadow: 0 0 0 99999px rgba(0, 0, 0, {opacity});
  outline: 2px solid rgba(255,255,255,0.18);
  pointer-events: none;
}}
.hint {{ position: fixed; bottom: 24px; left: 50%; transform: translateX(-50%);
  color: rgba(255,255,255,0.56); font-family: sans-serif; font-size: 13px; pointer-events: none; user-select: none;
  text-shadow: 0 1px 10px rgba(0,0,0,0.85); }}
</style>
</head>
<body>
<div id="veil"></div>
<div id="cutout"></div>
<div class="hint" id="hint">Press {hotkey} to dismiss</div>
<script>
const hint = document.getElementById('hint');
const veil = document.getElementById('veil');
const cutout = document.getElementById('cutout');
const scale = window.devicePixelRatio || 1;
let mouseX = window.innerWidth / 2;
let mouseY = window.innerHeight / 2;
let mode = '{mode}';
let spotlight = {spotlight};
let opacity = {opacity};
function resize() {{ draw(); }}
function draw() {{
  if (mode === 'full') {{
    veil.style.display = 'block';
    const fullOpacity = opacity >= 0.99 ? 1 : opacity;
    veil.style.background = 'rgba(0,0,0,' + fullOpacity + ')';
    cutout.style.display = 'none';
    return;
  }}
  veil.style.display = 'none';
  cutout.style.display = 'block';
  cutout.style.boxShadow = '0 0 0 99999px rgba(0,0,0,' + opacity + ')';
  if (mode === 'window') {{
    const width = Math.max(180, spotlight * 2.4);
    const height = Math.max(120, spotlight * 1.5);
    cutout.style.width = width + 'px';
    cutout.style.height = height + 'px';
    cutout.style.left = (mouseX / scale) + 'px';
    cutout.style.top = (mouseY / scale) + 'px';
    cutout.style.transform = 'translate(-50%, -50%)';
    cutout.style.borderRadius = '24px';
    return;
  }}
  cutout.style.width = (spotlight * 2) + 'px';
  cutout.style.height = (spotlight * 2) + 'px';
  cutout.style.left = (mouseX / scale) + 'px';
  cutout.style.top = (mouseY / scale) + 'px';
  cutout.style.transform = 'translate(-50%, -50%)';
  cutout.style.borderRadius = '9999px';
}}
window.__OWN_VIEW_setCursor = (x, y) => {{
  mouseX = x;
  mouseY = y;
  if (mode !== 'full') draw();
}};
window.__OWN_VIEW_setConfig = (nextMode, nextSpotlight, nextOpacity, nextHotkey) => {{
  mode = nextMode;
  spotlight = nextSpotlight;
  opacity = nextOpacity;
  hint.textContent = `Press ${{nextHotkey}} to dismiss`;
  draw();
}};
window.addEventListener('resize', resize);
resize();
draw();
</script>
</body>
</html>"#
    )
}

fn config(hotkey: &str, spotlight_radius: u32, mode: &str, opacity: f64) -> AppConfig {
    AppConfig {
        hotkey: hotkey.to_string(),
        blur_radius: 0,
        spotlight_radius,
        mode: mode.to_string(),
        auto_start: false,
        overlay_opacity: opacity.to_string(),
    }
}

#[test]
fn page_of_the_default_settings() {
    assert_eq!(
        generate_overlay_html(&AppConfig::default()),
        page("0.88", 150, "ctrl+alt+p", "spotlight")
    );
}

#[test]
fn page_carries_each_setting() {
    for (hotkey, radius, mode, opacity) in vec![
        ("alt+o", 0, "full", 1.0),
        ("", u32::MAX, "", 0.5),
        ("<b>&'\"", 10, "it's", 0.333),
    ] {
        assert_eq!(
            generate_overlay_html(&config(hotkey, radius, mode, opacity)),
            page(&opacity.to_string(), radius, hotkey, mode)
        );
    }
}

#[test]
fn data_url_holds_the_page_in_base64() {
    assert_eq!(make_data_url(""), "data:text/html;base64,");
    assert_eq!(make_data_url("<p>hi</p>"), "data:text/html;base64,PHA+aGk8L3A+");
    assert_eq!(make_data_url("é"), "data:text/html;base64,w6k=");
    let html = generate_overlay_html(&AppConfig::default());
    let url = make_data_url(&html);
    assert_eq!(url, format!("data:text/html;base64,{}", base64_encode(html.as_bytes())));
}

#[test]
fn settings_script_quotes_its_texts() {
    assert_eq!(
        push_overlay_config(true, &config("ctrl+\\", 150, "\");//", 0.88)),
        Some("window.__OWN_VIEW_setConfig(\"\\\");//\", 150, 0.88, \"ctrl+\\\\\");".to_string())
    );
    assert_eq!(push_overlay_config(false, &AppConfig::default()), None);
}

#[test]
fn settings_scripts_tell_settings_apart() {
    let base = push_overlay_config(true, &config("a", 1, "b", 1.0));
    assert_ne!(base, push_overlay_config(true, &config("b", 1, "b", 1.0)));
    assert_ne!(base, push_overlay_config(true, &config("a", 11, "b", 1.0)));
    assert_ne!(base, push_overlay_config(true, &config("a", 1, "b\", 1", 1.0)));
    assert_ne!(base, push_overlay_config(true, &config("a", 1, "b", 0.1)));
}

#[test]
fn pointer_script_names_the_point() {
    assert_eq!(
        push_overlay_cursor(true, 12, -34),
        Some("window.__OWN_VIEW_setCursor(12, -34);".to_string())
    );
    assert_eq!(
        push_overlay_cursor(true, i32::MIN, i32::MAX),
        Some("window.__OWN_VIEW_setCursor(-2147483648, 2147483647);".to_string())
    );
    assert_eq!(push_overlay_cursor(false, 1, 2), None);
}

#[test]
fn pointer_is_followed_while_it_can_be_read() {
    assert_eq!(
        follow_cursor(true, Ok((0, 5))),
        Some("window.__OWN_VIEW_setCursor(0, 5);".to_string())
    );
    assert_eq!(follow_cursor(true, Err("lost".to_string())), None);
    assert_eq!(follow_cursor(false, Ok((0, 5))), None);
}

#[test]
fn numbers_are_written_in_decimal() {
    for n in vec![0u64, 9, 10, 19, 100, 4294967295, u64::MAX] {
        let mut text = "n=".to_string();
        push_decimal(&mut text, n);
        assert_eq!(text, format!("n={}", n));
    }
    for n in vec![0i32, -1, -10, 77, i32::MAX, i32::MIN] {
        let mut text = String::new();
        push_signed_decimal(&mut text, n);
        assert_eq!(text, n.to_string());
    }
}

#[test]
fn texts_are_taken_by_their_characters() {
    assert!(same_text("größe", "größe"));
    assert!(!same_text("open", "Open"));
    assert_eq!(char_vec("aé\u{1f600}"), vec!['a', 'é', '\u{1f600}']);
}
