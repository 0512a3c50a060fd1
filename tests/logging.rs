use b2b::logging::{clock_text, log_line, role_tag, ts};
use b2b::roles::{color_str, log_format_str, role_label_str, role_str, ColorChoice, LogFormat, RoleKind};

#[test]
fn clock_text_pads_fields() {
    assert_eq!(clock_text(1, 2, 3, 4), "01:02:03.004Z");
    assert_eq!(clock_text(23, 59, 59, 999), "23:59:59.999Z");
    assert_eq!(clock_text(10, 0, 45, 50), "10:00:45.050Z");
}

#[test]
fn ts_has_clock_shape() {
    let t = ts();
    let b = t.as_bytes();
    assert_eq!(b.len(), 13);
    assert_eq!(b[2], b':');
    assert_eq!(b[5], b':');
    assert_eq!(b[8], b'.');
    assert_eq!(b[12], b'Z');
}

#[test]
fn plain_role_tags() {
    assert_eq!(role_tag("orchestrator", false), "[ORCH]");
    assert_eq!(role_tag("Source", false), "[SRC ]");
    assert_eq!(role_tag("MIXER", false), "[MIX ]");
    assert_eq!(role_tag("sink", false), "[SINK]");
    assert_eq!(role_tag("other", false), "[b2b]");
}

#[test]
fn colored_role_tags() {
    assert_eq!(role_tag("orchestrator", true), "\u{1b}[33m[ORCH]\u{1b}[39m");
    assert_eq!(role_tag("source", true), "\u{1b}[32m[SRC ]\u{1b}[39m");
    assert_eq!(role_tag("mixer", true), "\u{1b}[35m[MIX ]\u{1b}[39m");
    assert_eq!(role_tag("Sink", true), "\u{1b}[34m[SINK]\u{1b}[39m");
    assert_eq!(role_tag("x", true), "[b2b]");
}

#[test]
fn log_lines() {
    assert_eq!(log_line("01:02:03.004Z", "[SINK]", "hello", false), "[01:02:03.004Z] [SINK] hello");
    assert_eq!(
        log_line("01:02:03.004Z", "[SINK]", "hello", true),
        "\u{1b}[2m[01:02:03.004Z]\u{1b}[0m \u{1b}[1m[SINK]\u{1b}[0m hello"
    );
}

#[test]
fn role_and_option_names() {
    assert_eq!(role_str(RoleKind::Orchestrator), "orchestrator");
    assert_eq!(role_str(RoleKind::Source), "source");
    assert_eq!(role_str(RoleKind::Sink), "sink");
    assert_eq!(role_str(RoleKind::Mixer), "mixer");
    assert_eq!(role_label_str(RoleKind::Mixer), "Mixer");
    assert_eq!(log_format_str(LogFormat::Text), "text");
    assert_eq!(color_str(ColorChoice::Auto), "auto");
    assert_eq!(color_str(ColorChoice::Always), "always");
}
