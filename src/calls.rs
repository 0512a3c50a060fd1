use vstd::prelude::*;

use crate::events::EventKind;
use crate::text::{contains, contains_text, decimal, decimal_text, has_prefix, starts_with};

verus! {

/// Largest backlog, in milliseconds, that the source keeps queued.
pub const MAX_BACKLOG_MS: u32 = 500;

/// Most frames the source queues in one top-up round before it yields.
pub const MAX_TOP_UP_FRAMES: u32 = 51;

/// Samples in one 20 ms frame at 8 kHz.
pub const FRAME_SAMPLES: usize = 160;

/// Frames of silence the source sends when it has no audio file (5 s).
pub const SILENCE_FRAMES: usize = 250;

/// How long a role waits for its call to be established before it gives up.
pub const CALL_SETUP_MS: u64 = 10000;

/// Sizing policy of the sink's audio buffer.
#[derive(Debug, Clone, Copy, PartialEq, Eq, Structural)]
pub enum BufferMode {
    Fixed,
    Adaptive,
}

/// Jitter-buffer type of the sink.
#[derive(Debug, Clone, Copy, PartialEq, Eq, Structural)]
pub enum JbufType {
    Off,
    Fixed,
    Adaptive,
}

/// Configuration value of a buffer mode.
pub open spec fn buffer_mode_name(m: BufferMode) -> Seq<char> {
    match m {
        BufferMode::Fixed => "fixed"@,
        BufferMode::Adaptive => "adaptive"@,
    }
}

/// Configuration value of a jitter-buffer type.
pub open spec fn jbuf_type_name(j: JbufType) -> Seq<char> {
    match j {
        JbufType::Off => "off"@,
        JbufType::Fixed => "fixed"@,
        JbufType::Adaptive => "adaptive"@,
    }
}

/// Engine configuration of the sink: codec modules, the listen address,
/// automatic call acceptance, and the buffer settings.
pub open spec fn sink_config(
    sip: Seq<char>,
    bmin: u32,
    bmax: u32,
    mode: BufferMode,
    jtype: JbufType,
    jmin: u32,
    jmax: u32,
) -> Seq<char> {
    "module\t\tg711\nmodule\t\tl16\nsip_listen\t"@ + sip + "\ncall_accept\tyes\naudio_buffer\t"@
        + decimal(bmin as nat) + "-"@ + decimal(bmax as nat) + "\naudio_buffer_mode\t"@
        + buffer_mode_name(mode) + "\naudio_jitter_buffer_type\t"@ + jbuf_type_name(jtype)
        + "\naudio_jitter_buffer_ms\t"@ + decimal(jmin as nat) + "-"@ + decimal(jmax as nat) + "\n"@
}

/// Engine configuration of the sink (see `sink_config`).
pub fn sink_config_text(
    sip: &str,
    bmin: u32,
    bmax: u32,
    mode: BufferMode,
    jtype: JbufType,
    jmin: u32,
    jmax: u32,
) -> (r: String)
    ensures
        r@ == sink_config(sip@, bmin, bmax, mode, jtype, jmin, jmax),
{
    let mut s = String::from_str("module\t\tg711\nmodule\t\tl16\nsip_listen\t");
    s.append(sip);
    s.append("\ncall_accept\tyes\naudio_buffer\t");
    let d = decimal_text(bmin as u64);
    s.append(d.as_str());
    s.append("-");
    let d = decimal_text(bmax as u64);
    s.append(d.as_str());
    s.append("\naudio_buffer_mode\t");
    s.append(
        match mode {
            BufferMode::Fixed => "fixed",
            BufferMode::Adaptive => "adaptive",
        },
    );
    s.append("\naudio_jitter_buffer_type\t");
    s.append(
        match jtype {
            JbufType::Off => "off",
            JbufType::Fixed => "fixed",
            JbufType::Adaptive => "adaptive",
        },
    );
    s.append("\naudio_jitter_buffer_ms\t");
    let d = decimal_text(jmin as u64);
    s.append(d.as_str());
    s.append("-");
    let d = decimal_text(jmax as u64);
    s.append(d.as_str());
    s.append("\n");
    s
}

/// Engine configuration of the mixer: codec modules, the listen address,
/// automatic call acceptance, and the mixing audio player.
pub open spec fn mixer_config(sip: Seq<char>) -> Seq<char> {
    "module\t\tg711\nmodule\t\tl16\nsip_listen\t"@ + sip
        + "\ncall_accept\tyes\naudio_player\tb2b_mix,inbound\n"@
}

/// Engine configuration of the mixer (see `mixer_config`).
pub fn mixer_config_text(sip: &str) -> (r: String)
    ensures
        r@ == mixer_config(sip@),
{
    let mut s = String::from_str("module\t\tg711\nmodule\t\tl16\nsip_listen\t");
    s.append(sip);
    s.append("\ncall_accept\tyes\naudio_player\tb2b_mix,inbound\n");
    s
}

/// Engine configuration of the source: the codec modules only.
pub fn source_config_text() -> (r: String)
    ensures
        r@ == "module\tg711\nmodule\tl16\n"@,
{
    String::from_str("module\tg711\nmodule\tl16\n")
}

/// The SIP address of the sink leg as it appears in event texts: the target
/// without a leading `sip:`.
pub open spec fn leg_label(target: Seq<char>) -> Seq<char> {
    if has_prefix(target, "sip:"@) {
        target.subrange(4, target.len() as int)
    } else {
        target
    }
}

/// The label of the sink leg (see `leg_label`).
pub fn sink_leg_label(target: &str) -> (r: String)
    ensures
        r@ == leg_label(target@),
{
    if starts_with(target, "sip:") {
        proof {
            reveal_strlit("sip:");
        }
        let n = target.unicode_len();
        String::from_str(target.substring_char(4, n))
    } else {
        String::from_str(target)
    }
}

/// Whether an event is of a call kind whose engine name contains `pat`. The
/// fixed kinds are not call events.
pub open spec fn call_kind_has(k: EventKind, pat: Seq<char>) -> bool {
    match k {
        EventKind::Other(s) => contains(s@, pat),
        _ => false,
    }
}

fn kind_has(k: &EventKind, pat: &str) -> (r: bool)
    ensures
        r == call_kind_has(*k, pat@),
{
    match k {
        EventKind::Other(s) => contains_text(s.as_str(), pat),
        _ => false,
    }
}

/// Call milestones a role reacts to.
#[derive(Debug, Clone, Copy, PartialEq, Eq, Structural)]
pub enum CallMilestone {
    Incoming,
    LocalSdp,
    RemoteSdp,
    Ringing,
    RtpEstablished,
    Established,
    Closed,
    Unrelated,
}

/// The milestone of a call event by its kind alone, checked in this order:
/// local SDP, remote SDP, progress, RTP established, established, closed,
/// incoming.
pub open spec fn kind_milestone(k: EventKind) -> CallMilestone {
    if call_kind_has(k, "CALL_LOCAL_SDP"@) {
        CallMilestone::LocalSdp
    } else if call_kind_has(k, "CALL_REMOTE_SDP"@) {
        CallMilestone::RemoteSdp
    } else if call_kind_has(k, "CALL_PROGRESS"@) {
        CallMilestone::Ringing
    } else if call_kind_has(k, "CALL_RTPESTAB"@) {
        CallMilestone::RtpEstablished
    } else if call_kind_has(k, "CALL_ESTABLISHED"@) {
        CallMilestone::Established
    } else if call_kind_has(k, "CALL_CLOSED"@) {
        CallMilestone::Closed
    } else if call_kind_has(k, "CALL_INCOMING"@) {
        CallMilestone::Incoming
    } else {
        CallMilestone::Unrelated
    }
}

/// The milestone of a call event as the source reads it: by its kind, except
/// that an event other than an SDP exchange whose text carries `180 Ringing`
/// counts as ringing.
pub open spec fn milestone(k: EventKind, text: Seq<char>) -> CallMilestone {
    let m = kind_milestone(k);
    if m == CallMilestone::LocalSdp || m == CallMilestone::RemoteSdp {
        m
    } else if contains(text, "180 Ringing"@) {
        CallMilestone::Ringing
    } else {
        m
    }
}

/// The milestone of a call event by its kind alone (see `kind_milestone`).
pub fn event_milestone(k: &EventKind) -> (r: CallMilestone)
    ensures
        r == kind_milestone(*k),
{
    if kind_has(k, "CALL_LOCAL_SDP") {
        CallMilestone::LocalSdp
    } else if kind_has(k, "CALL_REMOTE_SDP") {
        CallMilestone::RemoteSdp
    } else if kind_has(k, "CALL_PROGRESS") {
        CallMilestone::Ringing
    } else if kind_has(k, "CALL_RTPESTAB") {
        CallMilestone::RtpEstablished
    } else if kind_has(k, "CALL_ESTABLISHED") {
        CallMilestone::Established
    } else if kind_has(k, "CALL_CLOSED") {
        CallMilestone::Closed
    } else if kind_has(k, "CALL_INCOMING") {
        CallMilestone::Incoming
    } else {
        CallMilestone::Unrelated
    }
}

/// The milestone of a call event as the source reads it (see `milestone`).
pub fn call_milestone(k: &EventKind, text: &str) -> (r: CallMilestone)
    ensures
        r == milestone(*k, text@),
{
    let m = event_milestone(k);
    match m {
        CallMilestone::LocalSdp | CallMilestone::RemoteSdp => m,
        _ => {
            if contains_text(text, "180 Ringing") {
                CallMilestone::Ringing
            } else {
                m
            }
        },
    }
}

/// What a role waiting for its call learns from an event.
#[derive(Debug, Clone, Copy, PartialEq, Eq, Structural)]
pub enum SetupSignal {
    /// Nothing decisive.
    Pending,
    /// The awaited call is established: the role may announce readiness.
    Up,
    /// The awaited call closed before it was established.
    Failed,
}

/// What the mixer learns from an event, and whether the event concerns its
/// leg towards the sink.
pub open spec fn mixer_signal(
    k: EventKind,
    text: Seq<char>,
    label: Seq<char>,
    reported: bool,
) -> (bool, SetupSignal, bool) {
    let sink_leg = label.len() > 0 && contains(text, label);
    let m = kind_milestone(k);
    if m == CallMilestone::Established && sink_leg && !reported {
        (sink_leg, SetupSignal::Up, true)
    } else if m == CallMilestone::Closed && sink_leg {
        (sink_leg, SetupSignal::Failed, reported)
    } else {
        (sink_leg, SetupSignal::Pending, reported)
    }
}

/// Mixer readiness: the mixer is ready once its outbound leg to the sink is
/// established, which it reports once; a close of that leg is a failure. The
/// event is classified by its kind alone, whatever its text says.
/// Returns whether the event is on the sink leg, the signal, and whether the
/// establishment has now been reported.
pub fn mixer_event(k: &EventKind, text: &str, label: &str, reported: bool) -> (r: (
    bool,
    SetupSignal,
    bool,
))
    ensures
        r == mixer_signal(*k, text@, label@, reported),
{
    let sink_leg = label.unicode_len() > 0 && contains_text(text, label);
    let m = event_milestone(k);
    match m {
        CallMilestone::Established => {
            if sink_leg && !reported {
                (sink_leg, SetupSignal::Up, true)
            } else {
                (sink_leg, SetupSignal::Pending, reported)
            }
        },
        CallMilestone::Closed => {
            if sink_leg {
                (sink_leg, SetupSignal::Failed, reported)
            } else {
                (sink_leg, SetupSignal::Pending, reported)
            }
        },
        _ => (sink_leg, SetupSignal::Pending, reported),
    }
}

/// What the source learns from an event about its outbound call.
pub open spec fn source_signal(k: EventKind, text: Seq<char>) -> SetupSignal {
    let m = milestone(k, text);
    if m == CallMilestone::Established {
        SetupSignal::Up
    } else if m == CallMilestone::Closed {
        SetupSignal::Failed
    } else {
        SetupSignal::Pending
    }
}

/// What the source learns from an event (see `source_signal`).
pub fn source_event(k: &EventKind, text: &str) -> (r: SetupSignal)
    ensures
        r == source_signal(*k, text@),
{
    match call_milestone(k, text) {
        CallMilestone::Established => SetupSignal::Up,
        CallMilestone::Closed => SetupSignal::Failed,
        _ => SetupSignal::Pending,
    }
}

/// Number of frames the source queues before it enables sending: the
/// prebuffer divided by the packet time, and at least one.
pub fn prebuffer_frames(prebuffer_ms: u32, ptime_ms: u32) -> (r: usize)
    requires
        ptime_ms > 0,
    ensures
        prebuffer_ms / ptime_ms == 0 ==> r == 1,
        prebuffer_ms / ptime_ms > 0 ==> r == prebuffer_ms / ptime_ms,
{
    let q = prebuffer_ms / ptime_ms;
    if q == 0 {
        1
    } else {
        q as usize
    }
}

/// The backlog the source keeps queued: its prebuffer, but at most
/// `MAX_BACKLOG_MS`.
pub fn backlog_target_ms(prebuffer_ms: u32) -> (r: u32)
    ensures
        r == if prebuffer_ms < MAX_BACKLOG_MS {
            prebuffer_ms
        } else {
            MAX_BACKLOG_MS
        },
{
    if prebuffer_ms < MAX_BACKLOG_MS {
        prebuffer_ms
    } else {
        MAX_BACKLOG_MS
    }
}

/// Whether the source queues one more frame in this top-up round: the backlog
/// is below target and fewer than `MAX_TOP_UP_FRAMES` were queued so far.
pub fn top_up_more(backlog_ms: u32, target_ms: u32, queued: u32) -> (r: bool)
    ensures
        r == (backlog_ms < target_ms && queued < MAX_TOP_UP_FRAMES),
{
    backlog_ms < target_ms && queued < MAX_TOP_UP_FRAMES
}

/// The index of the frame after `idx`, going round to the first after the
/// last.
pub fn next_frame(idx: usize, count: usize) -> (r: usize)
    requires
        count > 0,
        idx < count,
    ensures
        r == if idx + 1 == count {
            0
        } else {
            idx + 1
        },
{
    if idx + 1 == count {
        0
    } else {
        idx + 1
    }
}

/// Five seconds of silence as 20 ms frames at 8 kHz.
pub fn silence_frames() -> (r: Vec<Vec<i16>>)
    ensures
        r@.len() == SILENCE_FRAMES,
        forall|i: int| 0 <= i < r@.len() ==> #[trigger] r@[i]@ == Seq::new(FRAME_SAMPLES as nat, |j: int| 0i16),
{
    let mut frame: Vec<i16> = Vec::new();
    while frame.len() < FRAME_SAMPLES
        invariant
            frame@.len() <= FRAME_SAMPLES,
            forall|j: int| 0 <= j < frame@.len() ==> frame@[j] == 0i16,
        decreases FRAME_SAMPLES - frame@.len(),
    {
        frame.push(0i16);
    }
    assert(frame@ =~= Seq::new(FRAME_SAMPLES as nat, |j: int| 0i16));
    let mut r: Vec<Vec<i16>> = Vec::new();
    while r.len() < SILENCE_FRAMES
        invariant
            r@.len() <= SILENCE_FRAMES,
            frame@ == Seq::new(FRAME_SAMPLES as nat, |j: int| 0i16),
            forall|i: int| 0 <= i < r@.len() ==> #[trigger] r@[i]@ == Seq::new(FRAME_SAMPLES as nat, |j: int| 0i16),
        decreases SILENCE_FRAMES - r@.len(),
    {
        r.push(frame.clone());
    }
    r
}

/// Growth of a sample counter since the last report, and that growth in
/// 20 ms frames at 8 kHz. A counter that went backwards counts as no growth.
pub fn sample_growth(now: u64, last: u64) -> (r: (u64, u64))
    ensures
        r.0 == if now >= last {
            (now - last) as u64
        } else {
            0
        },
        r.1 == r.0 / 160,
{
    let delta = if now >= last {
        now - last
    } else {
        0
    };
    (delta, delta / 160)
}

} // verus!
