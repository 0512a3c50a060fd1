use vstd::prelude::*;

use owo_colors::OwoColorize;

use crate::text::{decimal, decimal_text};

verus! {

#[verifier::external_type_specification]
#[verifier::external_body]
pub struct ExOffsetDateTime(time::OffsetDateTime);

/// Relies on time::OffsetDateTime::now_utc: the current date and time in UTC.
/// Nothing is known of which moment it returns.
pub assume_specification[ time::OffsetDateTime::now_utc ]() -> time::OffsetDateTime;

/// Relies on time::OffsetDateTime::hour: the hour, always in `0..24`.
pub assume_specification[ time::OffsetDateTime::hour ](dt: time::OffsetDateTime) -> (r: u8)
    ensures
        r < 24,
;

/// Relies on time::OffsetDateTime::minute: the minute, always in `0..60`.
pub assume_specification[ time::OffsetDateTime::minute ](dt: time::OffsetDateTime) -> (r: u8)
    ensures
        r < 60,
;

/// Relies on time::OffsetDateTime::second: the second, always in `0..60`.
pub assume_specification[ time::OffsetDateTime::second ](dt: time::OffsetDateTime) -> (r: u8)
    ensures
        r < 60,
;

/// Relies on time::OffsetDateTime::millisecond: the milliseconds within the
/// second, always in `0..1000`.
pub assume_specification[ time::OffsetDateTime::millisecond ](dt: time::OffsetDateTime) -> (r: u16)
    ensures
        r < 1000,
;

/// `s` between the ANSI code selecting a foreground color and the code
/// restoring the default foreground.
pub open spec fn ansi_fg(code: Seq<char>, s: Seq<char>) -> Seq<char> {
    "\u{1b}["@ + code + "m"@ + s + "\u{1b}[39m"@
}

/// `s` between the ANSI code of a text style and the code resetting all
/// styles.
pub open spec fn ansi_style(code: Seq<char>, s: Seq<char>) -> Seq<char> {
    "\u{1b}["@ + code + "m"@ + s + "\u{1b}[0m"@
}

/// Relies on owo_colors::OwoColorize::yellow, displayed: the text between
/// the codes for a yellow and for the default foreground.
#[verifier::external_body]
fn yellow_text(s: &str) -> (r: String)
    ensures
        r@ == ansi_fg("33"@, s@),
{
    s.yellow().to_string()
}

/// Relies on owo_colors::OwoColorize::green, displayed: the text between the
/// codes for a green and for the default foreground.
#[verifier::external_body]
fn green_text(s: &str) -> (r: String)
    ensures
        r@ == ansi_fg("32"@, s@),
{
    s.green().to_string()
}

/// Relies on owo_colors::OwoColorize::blue, displayed: the text between the
/// codes for a blue and for the default foreground.
#[verifier::external_body]
fn blue_text(s: &str) -> (r: String)
    ensures
        r@ == ansi_fg("34"@, s@),
{
    s.blue().to_string()
}

/// Relies on owo_colors::OwoColorize::magenta, displayed: the text between
/// the codes for a magenta and for the default foreground.
#[verifier::external_body]
fn magenta_text(s: &str) -> (r: String)
    ensures
        r@ == ansi_fg("35"@, s@),
{
    s.magenta().to_string()
}

/// Relies on owo_colors::OwoColorize::bold, displayed: the text between the
/// bold code and the reset code.
#[verifier::external_body]
fn bold_text(s: &str) -> (r: String)
    ensures
        r@ == ansi_style("1"@, s@),
{
    s.bold().to_string()
}

/// Relies on owo_colors::OwoColorize::dimmed, displayed: the text between
/// the dim code and the reset code.
#[verifier::external_body]
fn dimmed_text(s: &str) -> (r: String)
    ensures
        r@ == ansi_style("2"@, s@),
{
    s.dimmed().to_string()
}

/// Decimal notation of `n` on at least two digits.
pub open spec fn pad2(n: nat) -> Seq<char> {
    if n < 10 {
        seq!['0'] + decimal(n)
    } else {
        decimal(n)
    }
}

/// Decimal notation of `n` on at least three digits.
pub open spec fn pad3(n: nat) -> Seq<char> {
    if n < 10 {
        seq!['0', '0'] + decimal(n)
    } else if n < 100 {
        seq!['0'] + decimal(n)
    } else {
        decimal(n)
    }
}

/// A UTC time of day as `HH:MM:SS.mmmZ`.
pub open spec fn clock(h: nat, m: nat, s: nat, ms: nat) -> Seq<char> {
    pad2(h) + seq![':'] + pad2(m) + seq![':'] + pad2(s) + seq!['.'] + pad3(ms) + seq!['Z']
}

fn push_padded(out: &mut String, n: u64, width: u64)
    requires
        width == 2 || width == 3,
    ensures
        width == 2 ==> final(out)@ == old(out)@ + pad2(n as nat),
        width == 3 ==> final(out)@ == old(out)@ + pad3(n as nat),
{
    proof {
        reveal_strlit("0");
        reveal_strlit("00");
    }
    if n < 10 {
        if width == 3 {
            out.append("00");
        } else {
            out.append("0");
        }
    } else if n < 100 && width == 3 {
        out.append("0");
    }
    let d = decimal_text(n);
    out.append(d.as_str());
    proof {
        if width == 2 {
            assert(out@ =~= old(out)@ + pad2(n as nat));
        } else {
            assert(out@ =~= old(out)@ + pad3(n as nat));
        }
    }
}

/// A UTC time of day as `HH:MM:SS.mmmZ`.
pub fn clock_text(h: u8, m: u8, s: u8, ms: u16) -> (r: String)
    ensures
        r@ == clock(h as nat, m as nat, s as nat, ms as nat),
{
    proof {
        reveal_strlit(":");
        reveal_strlit(".");
        reveal_strlit("Z");
    }
    let mut out = String::new();
    push_padded(&mut out, h as u64, 2);
    out.append(":");
    push_padded(&mut out, m as u64, 2);
    out.append(":");
    push_padded(&mut out, s as u64, 2);
    out.append(".");
    push_padded(&mut out, ms as u64, 3);
    out.append("Z");
    proof {
        assert(out@ =~= clock(h as nat, m as nat, s as nat, ms as nat));
    }
    out
}

/// The current UTC time of day as `HH:MM:SS.mmmZ`.
pub fn ts() -> (r: String)
    ensures
        exists|h: nat, m: nat, s: nat, ms: nat|
            h < 24 && m < 60 && s < 60 && ms < 1000 && r@ == #[trigger] clock(h, m, s, ms),
{
    let now = time::OffsetDateTime::now_utc();
    let h = now.hour();
    let m = now.minute();
    let s = now.second();
    let ms = now.millisecond();
    let r = clock_text(h, m, s, ms);
    assert(r@ == clock(h as nat, m as nat, s as nat, ms as nat));
    r
}

/// `c` with an ASCII upper-case letter turned into lower case.
pub open spec fn lower_char(c: char) -> char {
    if 'A' <= c && c <= 'Z' {
        ((c as u32) + 32) as char
    } else {
        c
    }
}

/// `s` with its ASCII upper-case letters turned into lower case.
pub open spec fn ascii_lower(s: Seq<char>) -> Seq<char> {
    s.map_values(|c: char| lower_char(c))
}

fn to_lower_char(c: char) -> (r: char)
    ensures
        r == lower_char(c),
{
    if 'A' <= c && c <= 'Z' {
        let b = c as u8;
        assert(b == c as u32);
        ((b + 32) as char)
    } else {
        c
    }
}

/// Whether `s`, with ASCII letters folded to lower case, equals `lower`.
fn lower_equals(s: &str, lower: &str) -> (r: bool)
    ensures
        r == (ascii_lower(s@) == lower@),
{
    let n = s.unicode_len();
    if n != lower.unicode_len() {
        assert(ascii_lower(s@).len() != lower@.len());
        return false;
    }
    let mut i: usize = 0;
    while i < n
        invariant
            n == s@.len(),
            n == lower@.len(),
            i <= n,
            forall|j: int| 0 <= j < i ==> lower_char(#[trigger] s@[j]) == lower@[j],
        decreases n - i,
    {
        if to_lower_char(s.get_char(i)) != lower.get_char(i) {
            assert(ascii_lower(s@)[i as int] != lower@[i as int]);
            return false;
        }
        i = i + 1;
    }
    assert(ascii_lower(s@) =~= lower@);
    true
}

/// The tag of a role, chosen by its name with ASCII case ignored, before any
/// coloring: `[ORCH]`, `[SRC ]`, `[MIX ]`, `[SINK]`, or `[b2b]` for any other
/// name.
pub open spec fn plain_tag(role: Seq<char>) -> Seq<char> {
    if ascii_lower(role) == "orchestrator"@ {
        "[ORCH]"@
    } else if ascii_lower(role) == "source"@ {
        "[SRC ]"@
    } else if ascii_lower(role) == "mixer"@ {
        "[MIX ]"@
    } else if ascii_lower(role) == "sink"@ {
        "[SINK]"@
    } else {
        "[b2b]"@
    }
}

/// The tag of a role as it appears in log lines: the plain tag, colored when
/// `color` is set (orchestrator yellow, source green, mixer magenta, sink
/// blue; an unknown role is never colored).
pub open spec fn role_tag_text(role: Seq<char>, color: bool) -> Seq<char> {
    if !color {
        plain_tag(role)
    } else if ascii_lower(role) == "orchestrator"@ {
        ansi_fg("33"@, "[ORCH]"@)
    } else if ascii_lower(role) == "source"@ {
        ansi_fg("32"@, "[SRC ]"@)
    } else if ascii_lower(role) == "mixer"@ {
        ansi_fg("35"@, "[MIX ]"@)
    } else if ascii_lower(role) == "sink"@ {
        ansi_fg("34"@, "[SINK]"@)
    } else {
        "[b2b]"@
    }
}

/// The tag of a role as it appears in log lines (see `role_tag_text`).
pub fn role_tag(role: &str, color: bool) -> (r: String)
    ensures
        r@ == role_tag_text(role@, color),
{
    if lower_equals(role, "orchestrator") {
        if color {
            yellow_text("[ORCH]")
        } else {
            String::from_str("[ORCH]")
        }
    } else if lower_equals(role, "source") {
        if color {
            green_text("[SRC ]")
        } else {
            String::from_str("[SRC ]")
        }
    } else if lower_equals(role, "mixer") {
        if color {
            magenta_text("[MIX ]")
        } else {
            String::from_str("[MIX ]")
        }
    } else if lower_equals(role, "sink") {
        if color {
            blue_text("[SINK]")
        } else {
            String::from_str("[SINK]")
        }
    } else {
        String::from_str("[b2b]")
    }
}

/// A log line: the time stamp in brackets, the tag and the message, with the
/// stamp dimmed and the tag bold when `color` is set.
pub open spec fn log_line_text(t: Seq<char>, tag: Seq<char>, msg: Seq<char>, color: bool) -> Seq<char> {
    if color {
        ansi_style("2"@, "["@ + t + "]"@) + " "@ + ansi_style("1"@, tag) + " "@ + msg
    } else {
        "["@ + t + "] "@ + tag + " "@ + msg
    }
}

/// A log line (see `log_line_text`).
pub fn log_line(t: &str, tag: &str, msg: &str, color: bool) -> (r: String)
    ensures
        r@ == log_line_text(t@, tag@, msg@, color),
{
    if color {
        let mut stamp = String::from_str("[");
        stamp.append(t);
        stamp.append("]");
        let mut out = dimmed_text(stamp.as_str());
        out.append(" ");
        let b = bold_text(tag);
        out.append(b.as_str());
        out.append(" ");
        out.append(msg);
        out
    } else {
        let mut out = String::from_str("[");
        out.append(t);
        out.append("] ");
        out.append(tag);
        out.append(" ");
        out.append(msg);
        out
    }
}

} // verus!
