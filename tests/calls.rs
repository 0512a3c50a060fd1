use b2b::calls::{
    backlog_target_ms, call_milestone, event_milestone, mixer_config_text, mixer_event, next_frame,
    prebuffer_frames, sample_growth, silence_frames, sink_config_text, sink_leg_label,
    source_config_text, source_event, top_up_more, BufferMode, CallMilestone, JbufType,
    SetupSignal,
};
use b2b::events::EventKind;

fn call(name: &str) -> EventKind {
    EventKind::Other(name.to_string())
}

#[test]
fn sink_config_is_exact() {
    assert_eq!(
        sink_config_text("0.0.0.0:5062", 20, 160, BufferMode::Adaptive, JbufType::Fixed, 40, 200),
        "module\t\tg711\nmodule\t\tl16\nsip_listen\t0.0.0.0:5062\ncall_accept\tyes\n\
         audio_buffer\t20-160\naudio_buffer_mode\tadaptive\naudio_jitter_buffer_type\tfixed\n\
         audio_jitter_buffer_ms\t40-200\n"
    );
}

#[test]
fn mixer_and_source_configs() {
    assert_eq!(
        mixer_config_text("0.0.0.0:5063"),
        "module\t\tg711\nmodule\t\tl16\nsip_listen\t0.0.0.0:5063\ncall_accept\tyes\n\
         audio_player\tb2b_mix,inbound\n"
    );
    assert_eq!(source_config_text(), "module\tg711\nmodule\tl16\n");
}

#[test]
fn leg_label_strips_scheme() {
    assert_eq!(sink_leg_label("sip:10.0.0.1:5062"), "10.0.0.1:5062");
    assert_eq!(sink_leg_label("10.0.0.1:5062"), "10.0.0.1:5062");
    assert_eq!(sink_leg_label("sip:"), "");
}

#[test]
fn milestones_of_call_events() {
    assert_eq!(call_milestone(&call("CALL_LOCAL_SDP"), ""), CallMilestone::LocalSdp);
    assert_eq!(call_milestone(&call("CALL_REMOTE_SDP"), ""), CallMilestone::RemoteSdp);
    assert_eq!(call_milestone(&call("CALL_PROGRESS"), ""), CallMilestone::Ringing);
    assert_eq!(call_milestone(&EventKind::Module, "SIP/2.0 180 Ringing"), CallMilestone::Ringing);
    assert_eq!(call_milestone(&call("CALL_RTPESTAB"), ""), CallMilestone::RtpEstablished);
    assert_eq!(call_milestone(&call("CALL_ESTABLISHED"), ""), CallMilestone::Established);
    assert_eq!(call_milestone(&call("CALL_CLOSED"), "bye"), CallMilestone::Closed);
    assert_eq!(call_milestone(&call("CALL_INCOMING"), ""), CallMilestone::Incoming);
    assert_eq!(call_milestone(&EventKind::Exit, ""), CallMilestone::Unrelated);
}

#[test]
fn source_learns_setup_result() {
    assert_eq!(source_event(&call("CALL_ESTABLISHED"), "x"), SetupSignal::Up);
    assert_eq!(source_event(&call("CALL_CLOSED"), "486 Busy"), SetupSignal::Failed);
    assert_eq!(source_event(&call("CALL_RINGING"), ""), SetupSignal::Pending);
}

#[test]
fn mixer_reports_sink_leg_once() {
    let label = "10.0.0.1:5062";
    let est = call("CALL_ESTABLISHED");
    assert_eq!(
        mixer_event(&est, "sip:10.0.0.1:5062", label, false),
        (true, SetupSignal::Up, true)
    );
    assert_eq!(
        mixer_event(&est, "sip:10.0.0.1:5062", label, true),
        (true, SetupSignal::Pending, true)
    );
    assert_eq!(
        mixer_event(&est, "sip:10.0.0.9:5060", label, false),
        (false, SetupSignal::Pending, false)
    );
    assert_eq!(
        mixer_event(&call("CALL_CLOSED"), "10.0.0.1:5062 gone", label, true),
        (true, SetupSignal::Failed, true)
    );
    assert_eq!(mixer_event(&est, "anything", "", false), (false, SetupSignal::Pending, false));
}

#[test]
fn source_pacing_numbers() {
    assert_eq!(prebuffer_frames(1000, 20), 50);
    assert_eq!(prebuffer_frames(10, 20), 1);
    assert_eq!(backlog_target_ms(1000), 500);
    assert_eq!(backlog_target_ms(300), 300);
    assert!(top_up_more(100, 500, 0));
    assert!(top_up_more(100, 500, 50));
    assert!(!top_up_more(100, 500, 51));
    assert!(!top_up_more(500, 500, 0));
    assert_eq!(next_frame(0, 3), 1);
    assert_eq!(next_frame(2, 3), 0);
}

#[test]
fn silence_is_five_seconds() {
    let s = silence_frames();
    assert_eq!(s.len(), 250);
    assert!(s.iter().all(|f| f.len() == 160 && f.iter().all(|x| *x == 0)));
}

#[test]
fn growth_since_last_report() {
    assert_eq!(sample_growth(1600, 0), (1600, 10));
    assert_eq!(sample_growth(100, 200), (0, 0));
    assert_eq!(sample_growth(500, 100), (400, 2));
}

#[test]
fn mixer_ignores_ringing_text_on_established_and_closed() {
    let label = "10.0.0.1:5062";
    let text = "10.0.0.1:5062 after 180 Ringing";
    assert_eq!(
        mixer_event(&call("CALL_ESTABLISHED"), text, label, false),
        (true, SetupSignal::Up, true)
    );
    assert_eq!(
        mixer_event(&call("CALL_CLOSED"), text, label, false),
        (true, SetupSignal::Failed, false)
    );
    assert_eq!(event_milestone(&call("CALL_ESTABLISHED")), CallMilestone::Established);
    assert_eq!(call_milestone(&call("CALL_ESTABLISHED"), text), CallMilestone::Ringing);
}
