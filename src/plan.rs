use vstd::prelude::*;

use crate::roles::{
    color_name, color_str, log_format_name, log_format_str, role_name, role_str, ColorChoice,
    LogFormat, RoleKind,
};
use crate::text::{decimal, decimal_text, matches_at, same_text};

verus! {

/// A value of the topology declaration, as far as the orchestrator reads it.
#[derive(Debug, Clone, PartialEq)]
pub enum PlanValue {
    Text(String),
    Integer(i64),
    /// A floating-point value, carried as its text with three decimals.
    Decimal(String),
    /// A value of any other type (a table, a list, a boolean, a date).
    Other,
}

/// One `key = value` line of a section of the declaration's `topology` table.
#[derive(Debug, Clone, PartialEq)]
pub struct PlanEntry {
    pub section: String,
    pub key: String,
    pub value: PlanValue,
}

/// The resolved description of which roles to start, and with what
/// parameters.
#[derive(Debug, Clone, PartialEq, Default)]
pub struct PlanTopology {
    pub source_target: Option<String>,
    pub source_audio_file: Option<String>,
    pub source_preroll_ms: Option<u32>,
    pub mixer_bind: Option<String>,
    pub mixer_target: Option<String>,
    pub mixer_dtmf_seq: Option<String>,
    pub mixer_dtmf_period_ms: Option<u32>,
    /// Gain of the inbound leg, as text with three decimals.
    pub mixer_gain_in: Option<String>,
    /// Gain of the DTMF tones, as text with three decimals.
    pub mixer_gain_dtmf: Option<String>,
    pub sink_bind: Option<String>,
    pub sink_aplay_cmd: Option<String>,
    pub sink_buffer_min_ms: Option<u32>,
    pub sink_buffer_max_ms: Option<u32>,
    pub sink_buffer_mode: Option<String>,
    pub sink_jbuf_min_ms: Option<u32>,
    pub sink_jbuf_max_ms: Option<u32>,
    pub sink_jbuf_type: Option<String>,
}

/// The text of an optional string slice.
pub open spec fn opt_str(o: Option<&str>) -> Option<Seq<char>> {
    match o {
        Some(s) => Some(s@),
        None => None,
    }
}

/// The texts of a sequence of strings.
pub open spec fn texts(v: Seq<String>) -> Seq<Seq<char>> {
    v.map_values(|s: String| s@)
}

/// The text of an optional string.
pub open spec fn opt_text(o: Option<String>) -> Option<Seq<char>> {
    match o {
        Some(s) => Some(s@),
        None => None,
    }
}

/// The value of the first entry of `doc` under `section` and `key`.
pub open spec fn lookup(doc: Seq<PlanEntry>, section: Seq<char>, key: Seq<char>) -> Option<PlanValue>
    decreases doc.len(),
{
    if doc.len() == 0 {
        None
    } else if doc[0].section@ == section && doc[0].key@ == key {
        Some(doc[0].value)
    } else {
        lookup(doc.drop_first(), section, key)
    }
}

/// The text under `section` and `key`, when it is text.
pub open spec fn text_at(doc: Seq<PlanEntry>, section: Seq<char>, key: Seq<char>) -> Option<Seq<char>> {
    match lookup(doc, section, key) {
        Some(PlanValue::Text(s)) => Some(s@),
        _ => None,
    }
}

/// The integer under `section` and `key`, when it is an integer, truncated to
/// 32 bits.
pub open spec fn u32_at(doc: Seq<PlanEntry>, section: Seq<char>, key: Seq<char>) -> Option<u32> {
    match lookup(doc, section, key) {
        Some(PlanValue::Integer(v)) => Some(v as u32),
        _ => None,
    }
}

/// The decimal text under `section` and `key`, when it is a floating-point
/// value.
pub open spec fn decimal_at(doc: Seq<PlanEntry>, section: Seq<char>, key: Seq<char>) -> Option<Seq<char>> {
    match lookup(doc, section, key) {
        Some(PlanValue::Decimal(s)) => Some(s@),
        _ => None,
    }
}

/// `s` with every occurrence of `p`, scanned from the left and without
/// overlap, replaced by `r`.
pub open spec fn replace_all(s: Seq<char>, p: Seq<char>, r: Seq<char>) -> Seq<char>
    decreases s.len(),
{
    if s.len() == 0 {
        s
    } else if 0 < p.len() <= s.len() && s.subrange(0, p.len() as int) == p {
        r + replace_all(s.subrange(p.len() as int, s.len() as int), p, r)
    } else {
        seq![s[0]] + replace_all(s.drop_first(), p, r)
    }
}

/// An address value with the local-host placeholders replaced by `ip`, when
/// the local address is known.
pub open spec fn with_host(v: Option<Seq<char>>, ip: Option<Seq<char>>) -> Option<Seq<char>> {
    match (v, ip) {
        (Some(s), Some(a)) => Some(replace_all(replace_all(s, "YOUR_HOST_IP"@, a), "YOUR_IP"@, a)),
        _ => v,
    }
}

/// Finds the first entry under `section` and `key`.
fn find_value<'a>(doc: &'a Vec<PlanEntry>, section: &str, key: &str) -> (r: Option<&'a PlanValue>)
    ensures
        match lookup(doc@, section@, key@) {
            Some(v) => r == Some(&v),
            None => r is None,
        },
{
    let mut i: usize = 0;
    proof {
        assert(doc@.subrange(0, doc@.len() as int) =~= doc@);
    }
    while i < doc.len()
        invariant
            i <= doc@.len(),
            lookup(doc@, section@, key@) == lookup(doc@.subrange(i as int, doc@.len() as int), section@, key@),
        decreases doc.len() - i,
    {
        let ghost rest = doc@.subrange(i as int, doc@.len() as int);
        if same_text(doc[i].section.as_str(), section) && same_text(doc[i].key.as_str(), key) {
            return Some(&doc[i].value);
        }
        proof {
            assert(rest.drop_first() =~= doc@.subrange(i + 1, doc@.len() as int));
        }
        i = i + 1;
    }
    None
}

/// The text under `section` and `key`, when it is text.
pub fn text_value(doc: &Vec<PlanEntry>, section: &str, key: &str) -> (r: Option<String>)
    ensures
        opt_text(r) == text_at(doc@, section@, key@),
{
    match find_value(doc, section, key) {
        Some(PlanValue::Text(s)) => Some(s.clone()),
        _ => None,
    }
}

/// The integer under `section` and `key`, when it is an integer, truncated to
/// 32 bits.
pub fn u32_value(doc: &Vec<PlanEntry>, section: &str, key: &str) -> (r: Option<u32>)
    ensures
        r == u32_at(doc@, section@, key@),
{
    match find_value(doc, section, key) {
        Some(PlanValue::Integer(v)) => Some(#[verifier::truncate] (*v as u32)),
        _ => None,
    }
}

/// The decimal text under `section` and `key`, when it is a floating-point
/// value.
pub fn decimal_value(doc: &Vec<PlanEntry>, section: &str, key: &str) -> (r: Option<String>)
    ensures
        opt_text(r) == decimal_at(doc@, section@, key@),
{
    match find_value(doc, section, key) {
        Some(PlanValue::Decimal(s)) => Some(s.clone()),
        _ => None,
    }
}

/// `s` with every occurrence of `pat` replaced by `rep`.
pub fn replace_text(s: &str, pat: &str, rep: &str) -> (r: String)
    ensures
        r@ == replace_all(s@, pat@, rep@),
{
    let n = s.unicode_len();
    let m = pat.unicode_len();
    let mut out = String::new();
    let mut i: usize = 0;
    proof {
        assert(s@.subrange(0, n as int) =~= s@);
        assert(out@ + replace_all(s@, pat@, rep@) =~= replace_all(s@, pat@, rep@));
    }
    while i < n
        invariant
            n == s@.len(),
            m == pat@.len(),
            i <= n,
            out@ + replace_all(s@.subrange(i as int, n as int), pat@, rep@) == replace_all(s@, pat@, rep@),
        decreases n - i,
    {
        let ghost rest = s@.subrange(i as int, n as int);
        if m > 0 && m <= n - i && matches_at(s, pat, i) {
            proof {
                assert(rest.subrange(0, m as int) =~= s@.subrange(i as int, i + m));
                assert(rest.subrange(m as int, rest.len() as int) =~= s@.subrange(i + m, n as int));
                assert(out@ + rep@ + replace_all(s@.subrange(i + m, n as int), pat@, rep@) =~= out@ + (
                rep@ + replace_all(s@.subrange(i + m, n as int), pat@, rep@)));
            }
            out.append(rep);
            i = i + m;
        } else {
            proof {
                if m > 0 && m <= n - i {
                    assert(rest.subrange(0, m as int) =~= s@.subrange(i as int, i + m));
                }
                assert(rest.drop_first() =~= s@.subrange(i + 1, n as int));
            }
            let c = s.substring_char(i, i + 1);
            proof {
                assert(c@ =~= seq![rest[0]]);
                assert(out@ + c@ + replace_all(s@.subrange(i + 1, n as int), pat@, rep@) =~= out@ + (
                seq![rest[0]] + replace_all(rest.drop_first(), pat@, rep@)));
            }
            out.append(c);
            i = i + 1;
        }
    }
    proof {
        assert(s@.subrange(n as int, n as int) =~= Seq::<char>::empty());
        assert(out@ + Seq::<char>::empty() =~= out@);
    }
    out
}

/// Replaces the local-host placeholders of an address value by `ip`.
pub fn resolve_host(v: Option<String>, ip: Option<&str>) -> (r: Option<String>)
    ensures
        opt_text(r) == with_host(opt_text(v), opt_str(ip)),
{
    match (v, ip) {
        (Some(s), Some(a)) => {
            let once = replace_text(s.as_str(), "YOUR_HOST_IP", a);
            Some(replace_text(once.as_str(), "YOUR_IP", a))
        },
        (v, _) => v,
    }
}

/// Reads the topology from the entries of the declaration's `topology` table.
/// Address values (the source's and the mixer's targets, the mixer's and the
/// sink's bind addresses) have their local-host placeholders `YOUR_HOST_IP`
/// and `YOUR_IP` replaced by `host_ip` when it is known. A key that is missing,
/// or holds a value of another type, leaves its field empty.
pub fn load_plan(doc: &Vec<PlanEntry>, host_ip: Option<&str>) -> (t: PlanTopology)
    ensures
        opt_text(t.source_target) == with_host(text_at(doc@, "source"@, "sip_target"@), opt_str(host_ip)),
        opt_text(t.source_audio_file) == text_at(doc@, "source"@, "audio_file"@),
        t.source_preroll_ms == u32_at(doc@, "source"@, "preroll_ms"@),
        opt_text(t.mixer_bind) == with_host(text_at(doc@, "mixer"@, "sip_bind"@), opt_str(host_ip)),
        opt_text(t.mixer_target) == with_host(text_at(doc@, "mixer"@, "sip_target"@), opt_str(host_ip)),
        opt_text(t.mixer_dtmf_seq) == text_at(doc@, "mixer"@, "dtmf_seq"@),
        t.mixer_dtmf_period_ms == u32_at(doc@, "mixer"@, "dtmf_period_ms"@),
        opt_text(t.mixer_gain_in) == decimal_at(doc@, "mixer"@, "mix_gain_in"@),
        opt_text(t.mixer_gain_dtmf) == decimal_at(doc@, "mixer"@, "mix_gain_dtmf"@),
        opt_text(t.sink_bind) == with_host(text_at(doc@, "sink"@, "sip_bind"@), opt_str(host_ip)),
        opt_text(t.sink_aplay_cmd) == text_at(doc@, "sink"@, "aplay_cmd"@),
        t.sink_buffer_min_ms == u32_at(doc@, "sink"@, "buffer_min_ms"@),
        t.sink_buffer_max_ms == u32_at(doc@, "sink"@, "buffer_max_ms"@),
        opt_text(t.sink_buffer_mode) == text_at(doc@, "sink"@, "buffer_mode"@),
        t.sink_jbuf_min_ms == u32_at(doc@, "sink"@, "jbuf_min_ms"@),
        t.sink_jbuf_max_ms == u32_at(doc@, "sink"@, "jbuf_max_ms"@),
        opt_text(t.sink_jbuf_type) == text_at(doc@, "sink"@, "jbuf_type"@),
{
    PlanTopology {
        source_target: resolve_host(text_value(doc, "source", "sip_target"), host_ip),
        source_audio_file: text_value(doc, "source", "audio_file"),
        source_preroll_ms: u32_value(doc, "source", "preroll_ms"),
        mixer_bind: resolve_host(text_value(doc, "mixer", "sip_bind"), host_ip),
        mixer_target: resolve_host(text_value(doc, "mixer", "sip_target"), host_ip),
        mixer_dtmf_seq: text_value(doc, "mixer", "dtmf_seq"),
        mixer_dtmf_period_ms: u32_value(doc, "mixer", "dtmf_period_ms"),
        mixer_gain_in: decimal_value(doc, "mixer", "mix_gain_in"),
        mixer_gain_dtmf: decimal_value(doc, "mixer", "mix_gain_dtmf"),
        sink_bind: resolve_host(text_value(doc, "sink", "sip_bind"), host_ip),
        sink_aplay_cmd: text_value(doc, "sink", "aplay_cmd"),
        sink_buffer_min_ms: u32_value(doc, "sink", "buffer_min_ms"),
        sink_buffer_max_ms: u32_value(doc, "sink", "buffer_max_ms"),
        sink_buffer_mode: text_value(doc, "sink", "buffer_mode"),
        sink_jbuf_min_ms: u32_value(doc, "sink", "jbuf_min_ms"),
        sink_jbuf_max_ms: u32_value(doc, "sink", "jbuf_max_ms"),
        sink_jbuf_type: text_value(doc, "sink", "jbuf_type"),
    }
}

/// `flag` and the value, when there is a value.
pub open spec fn opt_pair(flag: Seq<char>, v: Option<Seq<char>>) -> Seq<Seq<char>> {
    match v {
        Some(x) => seq![flag, x],
        None => seq![],
    }
}

/// `flag` and the value in decimal, when there is a value.
pub open spec fn num_pair(flag: Seq<char>, v: Option<u32>) -> Seq<Seq<char>> {
    match v {
        Some(x) => seq![flag, decimal(x as nat)],
        None => seq![],
    }
}

/// Both flags with their values in decimal, when both values are given.
pub open spec fn range_pair(f1: Seq<char>, a: Option<u32>, f2: Seq<char>, b: Option<u32>) -> Seq<
    Seq<char>,
> {
    match (a, b) {
        (Some(x), Some(y)) => seq![f1, decimal(x as nat), f2, decimal(y as nat)],
        _ => seq![],
    }
}

/// Role-specific arguments of the sink, which is declared by its bind address.
pub open spec fn sink_arg_list(t: PlanTopology) -> Option<Seq<Seq<char>>> {
    match opt_text(t.sink_bind) {
        Some(bind) => Some(seq!["--sip-bind"@, bind] + opt_pair("--aplay-cmd"@, opt_text(t.sink_aplay_cmd))
            + range_pair("--sink-buffer-min-ms"@, t.sink_buffer_min_ms, "--sink-buffer-max-ms"@, t.sink_buffer_max_ms)
            + opt_pair("--sink-buffer-mode"@, opt_text(t.sink_buffer_mode)) + range_pair(
            "--sink-jbuf-min-ms"@,
            t.sink_jbuf_min_ms,
            "--sink-jbuf-max-ms"@,
            t.sink_jbuf_max_ms,
        ) + opt_pair("--sink-jbuf-type"@, opt_text(t.sink_jbuf_type))),
        None => None,
    }
}

/// Role-specific arguments of the mixer, which is declared by its bind address
/// and its target.
pub open spec fn mixer_arg_list(t: PlanTopology) -> Option<Seq<Seq<char>>> {
    match (opt_text(t.mixer_bind), opt_text(t.mixer_target)) {
        (Some(bind), Some(target)) => Some(seq!["--sip-bind"@, bind, "--target"@, target] + opt_pair(
            "--dtmf-seq"@,
            opt_text(t.mixer_dtmf_seq),
        ) + num_pair("--dtmf-period-ms"@, t.mixer_dtmf_period_ms) + opt_pair(
            "--mix-gain-in"@,
            opt_text(t.mixer_gain_in),
        ) + opt_pair("--mix-gain-dtmf"@, opt_text(t.mixer_gain_dtmf))),
        _ => None,
    }
}

/// Role-specific arguments of the source, which is declared by its target.
pub open spec fn source_arg_list(t: PlanTopology) -> Option<Seq<Seq<char>>> {
    match opt_text(t.source_target) {
        Some(target) => Some(seq!["--target"@, target] + opt_pair("--audio-file"@, opt_text(t.source_audio_file))),
        None => None,
    }
}

fn push_text(v: &mut Vec<String>, s: &str)
    ensures
        texts(final(v)@) == texts(old(v)@).push(s@),
{
    v.push(String::from_str(s));
    proof {
        assert(texts(v@) =~= texts(old(v)@).push(s@));
    }
}

fn push_opt(v: &mut Vec<String>, flag: &str, val: &Option<String>)
    ensures
        texts(final(v)@) == texts(old(v)@) + opt_pair(flag@, opt_text(*val)),
{
    match val {
        Some(x) => {
            push_text(v, flag);
            push_text(v, x.as_str());
            proof {
                assert(texts(v@) =~= texts(old(v)@) + opt_pair(flag@, opt_text(*val)));
            }
        },
        None => {
            assert(texts(v@) =~= texts(old(v)@) + opt_pair(flag@, opt_text(*val)));
        },
    }
}

fn push_num(v: &mut Vec<String>, flag: &str, val: Option<u32>)
    ensures
        texts(final(v)@) == texts(old(v)@) + num_pair(flag@, val),
{
    match val {
        Some(x) => {
            push_text(v, flag);
            let d = decimal_text(x as u64);
            push_text(v, d.as_str());
            proof {
                assert(texts(v@) =~= texts(old(v)@) + num_pair(flag@, val));
            }
        },
        None => {
            assert(texts(v@) =~= texts(old(v)@) + num_pair(flag@, val));
        },
    }
}

fn push_range(v: &mut Vec<String>, f1: &str, a: Option<u32>, f2: &str, b: Option<u32>)
    ensures
        texts(final(v)@) == texts(old(v)@) + range_pair(f1@, a, f2@, b),
{
    match (a, b) {
        (Some(x), Some(y)) => {
            push_num(v, f1, a);
            push_num(v, f2, b);
            proof {
                assert(texts(v@) =~= texts(old(v)@) + range_pair(f1@, a, f2@, b));
            }
        },
        _ => {
            assert(texts(v@) =~= texts(old(v)@) + range_pair(f1@, a, f2@, b));
        },
    }
}

/// Role-specific arguments of the sink, or `None` when no sink is declared.
pub fn sink_stage_args(t: &PlanTopology) -> (r: Option<Vec<String>>)
    ensures
        match r {
            Some(v) => sink_arg_list(*t) == Some(texts(v@)),
            None => sink_arg_list(*t) is None,
        },
{
    match &t.sink_bind {
        None => None,
        Some(bind) => {
            let mut v: Vec<String> = Vec::new();
            push_text(&mut v, "--sip-bind");
            push_text(&mut v, bind.as_str());
            push_opt(&mut v, "--aplay-cmd", &t.sink_aplay_cmd);
            push_range(
                &mut v,
                "--sink-buffer-min-ms",
                t.sink_buffer_min_ms,
                "--sink-buffer-max-ms",
                t.sink_buffer_max_ms,
            );
            push_opt(&mut v, "--sink-buffer-mode", &t.sink_buffer_mode);
            push_range(
                &mut v,
                "--sink-jbuf-min-ms",
                t.sink_jbuf_min_ms,
                "--sink-jbuf-max-ms",
                t.sink_jbuf_max_ms,
            );
            push_opt(&mut v, "--sink-jbuf-type", &t.sink_jbuf_type);
            proof {
                assert(texts(v@) =~= sink_arg_list(*t).unwrap());
            }
            Some(v)
        },
    }
}

/// Role-specific arguments of the mixer, or `None` when no mixer is declared.
pub fn mixer_stage_args(t: &PlanTopology) -> (r: Option<Vec<String>>)
    ensures
        match r {
            Some(v) => mixer_arg_list(*t) == Some(texts(v@)),
            None => mixer_arg_list(*t) is None,
        },
{
    match (&t.mixer_bind, &t.mixer_target) {
        (Some(bind), Some(target)) => {
            let mut v: Vec<String> = Vec::new();
            push_text(&mut v, "--sip-bind");
            push_text(&mut v, bind.as_str());
            push_text(&mut v, "--target");
            push_text(&mut v, target.as_str());
            push_opt(&mut v, "--dtmf-seq", &t.mixer_dtmf_seq);
            push_num(&mut v, "--dtmf-period-ms", t.mixer_dtmf_period_ms);
            push_opt(&mut v, "--mix-gain-in", &t.mixer_gain_in);
            push_opt(&mut v, "--mix-gain-dtmf", &t.mixer_gain_dtmf);
            proof {
                assert(texts(v@) =~= mixer_arg_list(*t).unwrap());
            }
            Some(v)
        },
        _ => None,
    }
}

/// Role-specific arguments of the source, or `None` when no source is
/// declared.
pub fn source_stage_args(t: &PlanTopology) -> (r: Option<Vec<String>>)
    ensures
        match r {
            Some(v) => source_arg_list(*t) == Some(texts(v@)),
            None => source_arg_list(*t) is None,
        },
{
    match &t.source_target {
        None => None,
        Some(target) => {
            let mut v: Vec<String> = Vec::new();
            push_text(&mut v, "--target");
            push_text(&mut v, target.as_str());
            push_opt(&mut v, "--audio-file", &t.source_audio_file);
            proof {
                assert(texts(v@) =~= source_arg_list(*t).unwrap());
            }
            Some(v)
        },
    }
}

/// One step of the launch sequence: the role to spawn, its role-specific
/// arguments, and whether the orchestrator waits for its readiness line before
/// the next spawn.
#[derive(Debug, Clone, PartialEq)]
pub struct Stage {
    pub role: RoleKind,
    pub args: Vec<String>,
    pub await_ready: bool,
}

/// Model of a stage.
pub open spec fn stage_view(s: Stage) -> (RoleKind, Seq<Seq<char>>, bool) {
    (s.role, texts(s.args@), s.await_ready)
}

/// The launch sequence of a topology, fixed by data dependency: the sink
/// first, the mixer (which dials the sink) next, the source (which dials
/// whichever endpoint accepts calls) last. Sink and mixer are waited for.
pub open spec fn stage_plan(t: PlanTopology) -> Seq<(RoleKind, Seq<Seq<char>>, bool)> {
    (match sink_arg_list(t) {
        Some(a) => seq![(RoleKind::Sink, a, true)],
        None => seq![],
    }) + (match mixer_arg_list(t) {
        Some(a) => seq![(RoleKind::Mixer, a, true)],
        None => seq![],
    }) + (match source_arg_list(t) {
        Some(a) => seq![(RoleKind::Source, a, false)],
        None => seq![],
    })
}

/// Position of a role in the launch order.
pub open spec fn launch_rank(r: RoleKind) -> int {
    match r {
        RoleKind::Sink => 0,
        RoleKind::Mixer => 1,
        RoleKind::Source => 2,
        RoleKind::Orchestrator => 3,
    }
}

/// The launch sequence of a topology (see `stage_plan`).
pub fn launch_plan(t: &PlanTopology) -> (r: Vec<Stage>)
    ensures
        r@.map_values(|s: Stage| stage_view(s)) == stage_plan(*t),
{
    let mut r: Vec<Stage> = Vec::new();
    if let Some(a) = sink_stage_args(t) {
        r.push(Stage { role: RoleKind::Sink, args: a, await_ready: true });
    }
    let ghost after_sink = r@;
    if let Some(a) = mixer_stage_args(t) {
        r.push(Stage { role: RoleKind::Mixer, args: a, await_ready: true });
    }
    let ghost after_mixer = r@;
    if let Some(a) = source_stage_args(t) {
        r.push(Stage { role: RoleKind::Source, args: a, await_ready: false });
    }
    proof {
        let sa = match sink_arg_list(*t) {
            Some(a) => seq![(RoleKind::Sink, a, true)],
            None => seq![],
        };
        let ma = match mixer_arg_list(*t) {
            Some(a) => seq![(RoleKind::Mixer, a, true)],
            None => seq![],
        };
        assert(after_sink.map_values(|s: Stage| stage_view(s)) =~= sa);
        assert(after_mixer.map_values(|s: Stage| stage_view(s)) =~= sa + ma);
        assert(r@.map_values(|s: Stage| stage_view(s)) =~= stage_plan(*t));
    }
    r
}

/// The sink is launched before the mixer, the mixer before the source, and
/// every stage but the source's is gated on its readiness line.
pub proof fn lemma_launch_order(t: PlanTopology)
    ensures
        forall|i: int, j: int|
            0 <= i < j < stage_plan(t).len() ==> launch_rank(#[trigger] stage_plan(t)[i].0) < launch_rank(
                #[trigger] stage_plan(t)[j].0,
            ),
        forall|i: int|
            0 <= i < stage_plan(t).len() ==> (#[trigger] stage_plan(t)[i].2 <==> stage_plan(t)[i].0
                != RoleKind::Source),
{
    let p = stage_plan(t);
    assert forall|i: int, j: int|
        0 <= i < j < p.len() implies launch_rank(#[trigger] p[i].0) < launch_rank(#[trigger] p[j].0) by {
        assert(0 <= launch_rank(p[i].0) <= 2);
    }
}

/// Where the launcher stands: how many stages were spawned, and whether it
/// still waits for the readiness of the last one.
#[derive(Debug, Clone, Copy, PartialEq, Eq, Structural)]
pub struct LaunchState {
    pub next: usize,
    pub awaiting: bool,
}

/// What the orchestrator does next while launching.
#[derive(Debug, Clone, Copy, PartialEq, Eq, Structural)]
pub enum LaunchAction {
    /// Spawn the stage at this index.
    Spawn(usize),
    /// Run the readiness gate for the stage at this index.
    AwaitReady(usize),
    /// Every stage is launched: monitor the children.
    Supervise,
}

/// The launcher before any spawn.
pub open spec fn launch_start() -> LaunchState {
    LaunchState { next: 0, awaiting: false }
}

/// One step of the launcher, given for each stage whether it is waited for,
/// and whether the readiness gate of the last spawned stage was passed (every
/// expected role reported, or the wait timed out).
pub open spec fn launch_step_spec(awaits: Seq<bool>, st: LaunchState, gate_passed: bool) -> (
    LaunchState,
    LaunchAction,
) {
    if st.awaiting && !gate_passed && st.next > 0 {
        (st, LaunchAction::AwaitReady((st.next - 1) as usize))
    } else if st.next < awaits.len() {
        (
            LaunchState { next: (st.next + 1) as usize, awaiting: awaits[st.next as int] },
            LaunchAction::Spawn(st.next),
        )
    } else {
        (LaunchState { next: st.next, awaiting: false }, LaunchAction::Supervise)
    }
}

/// The launcher before any spawn.
pub fn launch_begin() -> (r: LaunchState)
    ensures
        r == launch_start(),
{
    LaunchState { next: 0, awaiting: false }
}

/// One step of the launcher (see `launch_step_spec`).
pub fn launch_step(plan: &Vec<Stage>, st: LaunchState, gate_passed: bool) -> (r: (LaunchState, LaunchAction))
    ensures
        r == launch_step_spec(plan@.map_values(|s: Stage| s.await_ready), st, gate_passed),
{
    if st.awaiting && !gate_passed && st.next > 0 {
        (st, LaunchAction::AwaitReady(st.next - 1))
    } else if st.next < plan.len() {
        (LaunchState { next: st.next + 1, awaiting: plan[st.next].await_ready }, LaunchAction::Spawn(st.next))
    } else {
        (LaunchState { next: st.next, awaiting: false }, LaunchAction::Supervise)
    }
}

/// No stage is spawned while the launcher waits for the readiness of a gated
/// stage: until that gate is passed, the only action is to keep waiting. And
/// spawning a gated stage always puts the launcher into that wait.
pub proof fn lemma_no_spawn_before_ready(awaits: Seq<bool>, st: LaunchState, gate_passed: bool)
    ensures
        st.awaiting && st.next > 0 && !gate_passed ==> launch_step_spec(awaits, st, gate_passed)
            == (st, LaunchAction::AwaitReady((st.next - 1) as usize)),
        (!st.awaiting || gate_passed) && st.next < awaits.len() ==> launch_step_spec(
            awaits,
            st,
            gate_passed,
        ).1 == LaunchAction::Spawn(st.next) && launch_step_spec(awaits, st, gate_passed).0 == (
        LaunchState { next: (st.next + 1) as usize, awaiting: awaits[st.next as int] }),
{
}

/// The actions of the launcher from state `st` when the readiness gate
/// reports `gates[0]`, `gates[1]`, ... at its successive steps.
pub open spec fn launch_trace(awaits: Seq<bool>, st: LaunchState, gates: Seq<bool>) -> Seq<LaunchAction>
    decreases gates.len(),
{
    if gates.len() == 0 {
        seq![]
    } else {
        let (next, a) = launch_step_spec(awaits, st, gates[0]);
        seq![a] + launch_trace(awaits, next, gates.drop_first())
    }
}

/// What holds of every launcher state reached from the start.
pub open spec fn launch_inv(awaits: Seq<bool>, st: LaunchState) -> bool {
    &&& awaits.len() < usize::MAX
    &&& st.next <= awaits.len()
    &&& st.awaiting ==> st.next > 0
    &&& (st.next > 0 && st.next < awaits.len() && awaits[st.next - 1]) ==> st.awaiting
}

proof fn lemma_trace_from(awaits: Seq<bool>, st: LaunchState, gates: Seq<bool>)
    requires
        launch_inv(awaits, st),
    ensures
        launch_trace(awaits, st, gates).len() == gates.len(),
        forall|p: int|
            0 <= p < launch_trace(awaits, st, gates).len() && (#[trigger] launch_trace(
                awaits,
                st,
                gates,
            )[p]) is Spawn ==> st.next <= launch_trace(awaits, st, gates)[p]->Spawn_0 < awaits.len(),
        forall|p: int, q: int|
            0 <= p < q < launch_trace(awaits, st, gates).len() && (#[trigger] launch_trace(
                awaits,
                st,
                gates,
            )[p]) is Spawn && (#[trigger] launch_trace(awaits, st, gates)[q]) is Spawn
                ==> launch_trace(awaits, st, gates)[p]->Spawn_0 < launch_trace(awaits, st, gates)[q]->Spawn_0,
        forall|q: int|
            0 <= q < launch_trace(awaits, st, gates).len() && (#[trigger] launch_trace(
                awaits,
                st,
                gates,
            )[q]) is Spawn && launch_trace(awaits, st, gates)[q]->Spawn_0 > 0 && awaits[launch_trace(
                awaits,
                st,
                gates,
            )[q]->Spawn_0 - 1] ==> gates[q],
    decreases gates.len(),
{
    let tr = launch_trace(awaits, st, gates);
    if gates.len() > 0 {
        let (next, a) = launch_step_spec(awaits, st, gates[0]);
        let rest = gates.drop_first();
        lemma_trace_from(awaits, next, rest);
        let sub = launch_trace(awaits, next, rest);
        assert(tr == seq![a] + sub);
        assert forall|p: int| 0 <= p < tr.len() && (#[trigger] tr[p]) is Spawn implies st.next
            <= tr[p]->Spawn_0 < awaits.len() by {
            if p > 0 {
                assert(tr[p] == sub[p - 1]);
            }
        }
        assert forall|p: int, q: int|
            0 <= p < q < tr.len() && (#[trigger] tr[p]) is Spawn && (#[trigger] tr[q]) is Spawn implies tr[p]->Spawn_0
            < tr[q]->Spawn_0 by {
            assert(tr[q] == sub[q - 1]);
            if p > 0 {
                assert(tr[p] == sub[p - 1]);
            }
        }
        assert forall|q: int|
            0 <= q < tr.len() && (#[trigger] tr[q]) is Spawn && tr[q]->Spawn_0 > 0 && awaits[tr[q]->Spawn_0
                - 1] implies gates[q] by {
            if q > 0 {
                assert(tr[q] == sub[q - 1]);
                assert(q - 1 < rest.len());
                assert(rest[q - 1] == gates[q]);
            }
        }
    }
}

/// The launcher, started on the launch sequence of a topology and whatever
/// the readiness gate reports at each step, spawns stages in launch order
/// (sink before mixer before source, each at most once), and spawns a stage
/// after a gated one (the sink, the mixer) only at a step where that gate was
/// passed: by a readiness line, or by the timeout.
pub proof fn lemma_launch_sequence(t: PlanTopology, gates: Seq<bool>)
    ensures
        ({
            let plan = stage_plan(t);
            let awaits = plan.map_values(|s: (RoleKind, Seq<Seq<char>>, bool)| s.2);
            let tr = launch_trace(awaits, launch_start(), gates);
            &&& forall|p: int|
                0 <= p < tr.len() && (#[trigger] tr[p]) is Spawn ==> tr[p]->Spawn_0 < plan.len()
            &&& forall|p: int, q: int|
                0 <= p < q < tr.len() && (#[trigger] tr[p]) is Spawn && (#[trigger] tr[q]) is Spawn
                    ==> launch_rank(plan[tr[p]->Spawn_0 as int].0) < launch_rank(
                    plan[tr[q]->Spawn_0 as int].0,
                )
            &&& forall|q: int|
                0 <= q < tr.len() && (#[trigger] tr[q]) is Spawn && tr[q]->Spawn_0 > 0 && plan[tr[q]->Spawn_0
                    - 1].0 != RoleKind::Source ==> gates[q]
        }),
{
    let plan = stage_plan(t);
    let awaits = plan.map_values(|s: (RoleKind, Seq<Seq<char>>, bool)| s.2);
    let tr = launch_trace(awaits, launch_start(), gates);
    lemma_launch_order(t);
    assert(plan.len() <= 3);
    lemma_trace_from(awaits, launch_start(), gates);
    assert forall|p: int, q: int|
        0 <= p < q < tr.len() && (#[trigger] tr[p]) is Spawn && (#[trigger] tr[q]) is Spawn implies launch_rank(
        plan[tr[p]->Spawn_0 as int].0,
    ) < launch_rank(plan[tr[q]->Spawn_0 as int].0) by {
        let i = tr[p]->Spawn_0 as int;
        let j = tr[q]->Spawn_0 as int;
        assert(launch_rank(plan[i].0) < launch_rank(plan[j].0));
    }
    assert forall|q: int|
        0 <= q < tr.len() && (#[trigger] tr[q]) is Spawn && tr[q]->Spawn_0 > 0 && plan[tr[q]->Spawn_0
            - 1].0 != RoleKind::Source implies gates[q] by {
        let j = tr[q]->Spawn_0 as int;
        assert(plan[j - 1].2);
        assert(awaits[j - 1]);
    }
}

/// The full argument list of a child: its role, the shared output options,
/// then its role-specific arguments.
pub open spec fn child_arg_list(
    role: RoleKind,
    format: LogFormat,
    color: ColorChoice,
    extra: Seq<Seq<char>>,
) -> Seq<Seq<char>> {
    seq![
        "--role"@,
        role_name(role),
        "--log-format"@,
        log_format_name(format),
        "--color"@,
        color_name(color),
    ] + extra
}

/// The full argument list of a child (see `child_arg_list`).
pub fn child_args(role: RoleKind, format: LogFormat, color: ColorChoice, extra: &Vec<String>) -> (r:
    Vec<String>)
    ensures
        texts(r@) == child_arg_list(role, format, color, texts(extra@)),
{
    let mut v: Vec<String> = Vec::new();
    push_text(&mut v, "--role");
    push_text(&mut v, role_str(role));
    push_text(&mut v, "--log-format");
    push_text(&mut v, log_format_str(format));
    push_text(&mut v, "--color");
    push_text(&mut v, color_str(color));
    let mut i: usize = 0;
    let ghost head = texts(v@);
    while i < extra.len()
        invariant
            i <= extra@.len(),
            head == seq![
                "--role"@,
                role_name(role),
                "--log-format"@,
                log_format_name(format),
                "--color"@,
                color_name(color),
            ],
            texts(v@) == head + texts(extra@).take(i as int),
        decreases extra.len() - i,
    {
        push_text(&mut v, extra[i].as_str());
        proof {
            assert(texts(extra@).take(i + 1) =~= texts(extra@).take(i as int).push(extra@[i as int]@));
            assert(texts(v@) =~= head + texts(extra@).take(i + 1));
        }
        i = i + 1;
    }
    proof {
        assert(texts(extra@).take(i as int) =~= texts(extra@));
    }
    v
}

/// Words joined by single spaces.
pub open spec fn join_words(ws: Seq<Seq<char>>) -> Seq<char>
    decreases ws.len(),
{
    if ws.len() == 0 {
        Seq::empty()
    } else if ws.len() == 1 {
        ws[0]
    } else {
        join_words(ws.drop_last()) + " "@ + ws.last()
    }
}

/// The line a dry run reports for one stage: the executable followed by the
/// exact argument list the stage's child is spawned with.
pub open spec fn dry_run_line(
    exe: Seq<char>,
    format: LogFormat,
    color: ColorChoice,
    stage: (RoleKind, Seq<Seq<char>>, bool),
) -> Seq<char> {
    "dry-run: "@ + exe + " "@ + join_words(child_arg_list(stage.0, format, color, stage.1))
}

/// The command lines a dry run reports: one per stage of the launch
/// sequence, in launch order.
pub open spec fn dry_run_plan(t: PlanTopology, exe: Seq<char>, format: LogFormat, color: ColorChoice) -> Seq<
    Seq<char>,
> {
    stage_plan(t).map_values(|st: (RoleKind, Seq<Seq<char>>, bool)| dry_run_line(exe, format, color, st))
}

/// The words of `words` joined by single spaces.
pub fn join_text(words: &Vec<String>) -> (r: String)
    ensures
        r@ == join_words(texts(words@)),
{
    let mut out = String::new();
    let mut i: usize = 0;
    while i < words.len()
        invariant
            i <= words@.len(),
            out@ == join_words(texts(words@).take(i as int)),
        decreases words.len() - i,
    {
        proof {
            assert(texts(words@).take(i + 1).drop_last() =~= texts(words@).take(i as int));
        }
        if i > 0 {
            out.append(" ");
        } else {
            assert(out@ =~= Seq::<char>::empty());
        }
        out.append(words[i].as_str());
        proof {
            if i == 0 {
                assert(out@ =~= texts(words@).take(1)[0]);
            }
        }
        i = i + 1;
    }
    proof {
        assert(texts(words@).take(i as int) =~= texts(words@));
    }
    out
}

/// The command lines a dry run reports (see `dry_run_plan`).
pub fn dry_run_lines(t: &PlanTopology, exe: &str, format: LogFormat, color: ColorChoice) -> (r: Vec<
    String,
>)
    ensures
        texts(r@) == dry_run_plan(*t, exe@, format, color),
{
    let stages = launch_plan(t);
    let ghost plan = stage_plan(*t);
    let mut r: Vec<String> = Vec::new();
    let mut i: usize = 0;
    proof {
        assert(stages@.len() == plan.len());
    }
    while i < stages.len()
        invariant
            i <= stages@.len(),
            stages@.map_values(|s: Stage| stage_view(s)) == plan,
            plan == stage_plan(*t),
            texts(r@) == dry_run_plan(*t, exe@, format, color).take(i as int),
        decreases stages.len() - i,
    {
        let argv = child_args(stages[i].role, format, color, &stages[i].args);
        let joined = join_text(&argv);
        let mut line = String::from_str("dry-run: ");
        line.append(exe);
        line.append(" ");
        line.append(joined.as_str());
        proof {
            assert(stage_view(stages@[i as int]) == plan[i as int]);
            assert(line@ =~= dry_run_line(exe@, format, color, plan[i as int]));
        }
        push_text(&mut r, line.as_str());
        proof {
            assert(texts(r@) =~= dry_run_plan(*t, exe@, format, color).take(i + 1));
        }
        i = i + 1;
    }
    proof {
        assert(dry_run_plan(*t, exe@, format, color).take(i as int) =~= dry_run_plan(
            *t,
            exe@,
            format,
            color,
        ));
    }
    r
}

} // verus!
