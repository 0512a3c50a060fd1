use b2b::plan::{
    child_args, dry_run_lines, launch_begin, launch_plan, launch_step, load_plan,
    mixer_stage_args, replace_text, sink_stage_args, source_stage_args, LaunchAction, PlanEntry,
    PlanTopology, PlanValue,
};
use b2b::roles::{ColorChoice, LogFormat, RoleKind};

fn text(section: &str, key: &str, v: &str) -> PlanEntry {
    PlanEntry { section: section.into(), key: key.into(), value: PlanValue::Text(v.into()) }
}

fn integer(section: &str, key: &str, v: i64) -> PlanEntry {
    PlanEntry { section: section.into(), key: key.into(), value: PlanValue::Integer(v) }
}

fn full_doc() -> Vec<PlanEntry> {
    vec![
        text("source", "sip_target", "sip:YOUR_HOST_IP:5063"),
        text("source", "audio_file", "a.mp3"),
        integer("source", "preroll_ms", 120),
        text("mixer", "sip_bind", "YOUR_IP:5063"),
        text("mixer", "sip_target", "sip:YOUR_IP:5062"),
        text("mixer", "dtmf_seq", "123#"),
        integer("mixer", "dtmf_period_ms", 2000),
        PlanEntry {
            section: "mixer".into(),
            key: "mix_gain_in".into(),
            value: PlanValue::Decimal("0.500".into()),
        },
        text("sink", "sip_bind", "0.0.0.0:5062"),
        text("sink", "aplay_cmd", "aplay -q"),
        integer("sink", "buffer_min_ms", 20),
        integer("sink", "buffer_max_ms", 160),
        text("sink", "jbuf_type", "fixed"),
    ]
}

#[test]
fn load_plan_reads_fields_and_resolves_host() {
    let t = load_plan(&full_doc(), Some("10.0.0.7"));
    assert_eq!(t.source_target.as_deref(), Some("sip:10.0.0.7:5063"));
    assert_eq!(t.source_audio_file.as_deref(), Some("a.mp3"));
    assert_eq!(t.source_preroll_ms, Some(120));
    assert_eq!(t.mixer_bind.as_deref(), Some("10.0.0.7:5063"));
    assert_eq!(t.mixer_target.as_deref(), Some("sip:10.0.0.7:5062"));
    assert_eq!(t.mixer_dtmf_seq.as_deref(), Some("123#"));
    assert_eq!(t.mixer_dtmf_period_ms, Some(2000));
    assert_eq!(t.mixer_gain_in.as_deref(), Some("0.500"));
    assert_eq!(t.mixer_gain_dtmf, None);
    assert_eq!(t.sink_bind.as_deref(), Some("0.0.0.0:5062"));
    assert_eq!(t.sink_buffer_min_ms, Some(20));
    assert_eq!(t.sink_buffer_mode, None);
    assert_eq!(t.sink_jbuf_type.as_deref(), Some("fixed"));
}

#[test]
fn load_plan_keeps_placeholders_without_host() {
    let t = load_plan(&full_doc(), None);
    assert_eq!(t.source_target.as_deref(), Some("sip:YOUR_HOST_IP:5063"));
    assert_eq!(t.mixer_bind.as_deref(), Some("YOUR_IP:5063"));
}

#[test]
fn load_plan_ignores_wrong_types_and_uses_first_entry() {
    let doc = vec![
        integer("sink", "sip_bind", 5),
        text("sink", "buffer_min_ms", "20"),
        text("source", "sip_target", "first"),
        text("source", "sip_target", "second"),
        integer("mixer", "dtmf_period_ms", 4294967297),
        PlanEntry { section: "sink".into(), key: "jbuf_type".into(), value: PlanValue::Other },
    ];
    let t = load_plan(&doc, Some("1.1.1.1"));
    assert_eq!(t.sink_bind, None);
    assert_eq!(t.sink_buffer_min_ms, None);
    assert_eq!(t.source_target.as_deref(), Some("first"));
    assert_eq!(t.mixer_dtmf_period_ms, Some(1));
    assert_eq!(t.sink_jbuf_type, None);
    assert_eq!(load_plan(&vec![], None), PlanTopology::default());
}

#[test]
fn replace_text_replaces_every_occurrence() {
    assert_eq!(replace_text("aXbXXc", "X", "yy"), "ayybyyyyc");
    assert_eq!(replace_text("aaa", "aa", "b"), "ba");
    assert_eq!(replace_text("abc", "", "z"), "abc");
    assert_eq!(replace_text("", "a", "z"), "");
}

#[test]
fn sink_args_are_complete() {
    let t = load_plan(&full_doc(), None);
    assert_eq!(
        sink_stage_args(&t).unwrap(),
        vec![
            "--sip-bind",
            "0.0.0.0:5062",
            "--aplay-cmd",
            "aplay -q",
            "--sink-buffer-min-ms",
            "20",
            "--sink-buffer-max-ms",
            "160",
            "--sink-jbuf-type",
            "fixed"
        ]
    );
}

#[test]
fn mixer_and_source_args() {
    let t = load_plan(&full_doc(), Some("10.0.0.7"));
    assert_eq!(
        mixer_stage_args(&t).unwrap(),
        vec![
            "--sip-bind",
            "10.0.0.7:5063",
            "--target",
            "sip:10.0.0.7:5062",
            "--dtmf-seq",
            "123#",
            "--dtmf-period-ms",
            "2000",
            "--mix-gain-in",
            "0.500"
        ]
    );
    assert_eq!(
        source_stage_args(&t).unwrap(),
        vec!["--target", "sip:10.0.0.7:5063", "--audio-file", "a.mp3"]
    );
    let mut half = t.clone();
    half.mixer_target = None;
    assert_eq!(mixer_stage_args(&half), None);
}

#[test]
fn launch_order_is_sink_mixer_source() {
    let t = load_plan(&full_doc(), None);
    let plan = launch_plan(&t);
    let roles: Vec<RoleKind> = plan.iter().map(|s| s.role).collect();
    assert_eq!(roles, vec![RoleKind::Sink, RoleKind::Mixer, RoleKind::Source]);
    let gated: Vec<bool> = plan.iter().map(|s| s.await_ready).collect();
    assert_eq!(gated, vec![true, true, false]);
}

#[test]
fn mixer_is_not_spawned_before_sink_gate_passes() {
    let t = load_plan(&full_doc(), None);
    let plan = launch_plan(&t);
    let mut st = launch_begin();
    let mut log = Vec::new();
    let mut gate_passed = false;
    let mut waits = 0;
    loop {
        let (next, action) = launch_step(&plan, st, gate_passed);
        st = next;
        log.push(action);
        match action {
            LaunchAction::Spawn(_) => gate_passed = false,
            LaunchAction::AwaitReady(_) => {
                // The readiness line arrives on the third poll.
                waits += 1;
                gate_passed = waits % 3 == 0;
            }
            LaunchAction::Supervise => break,
        }
    }
    let spawns: Vec<usize> = log
        .iter()
        .enumerate()
        .filter(|(_, a)| matches!(a, LaunchAction::Spawn(_)))
        .map(|(i, _)| i)
        .collect();
    assert_eq!(log[spawns[0]], LaunchAction::Spawn(0));
    assert_eq!(log[spawns[1]], LaunchAction::Spawn(1));
    assert_eq!(log[spawns[2]], LaunchAction::Spawn(2));
    // The sink gate is awaited between the two spawns.
    assert!(log[spawns[0] + 1..spawns[1]]
        .iter()
        .all(|a| *a == LaunchAction::AwaitReady(0)));
    assert_eq!(spawns[1] - spawns[0], 4);
    assert_eq!(log.last(), Some(&LaunchAction::Supervise));
}

#[test]
fn only_declared_roles_are_launched() {
    let mut t = PlanTopology::default();
    t.source_target = Some("sip:1.2.3.4".into());
    let plan = launch_plan(&t);
    assert_eq!(plan.len(), 1);
    assert_eq!(plan[0].role, RoleKind::Source);
    assert!(!plan[0].await_ready);
    assert!(launch_plan(&PlanTopology::default()).is_empty());
}

#[test]
fn child_args_prefix_role_and_output_options() {
    let extra = vec!["--target".to_string(), "sip:x".to_string()];
    assert_eq!(
        child_args(RoleKind::Mixer, LogFormat::Json, ColorChoice::Never, &extra),
        vec!["--role", "mixer", "--log-format", "json", "--color", "never", "--target", "sip:x"]
    );
}

#[test]
fn dry_run_lines_show_each_command() {
    let t = load_plan(&full_doc(), Some("10.0.0.7"));
    assert_eq!(
        dry_run_lines(&t, "b2b", LogFormat::Text, ColorChoice::Auto),
        vec![
            "dry-run: b2b --role sink --log-format text --color auto --sip-bind 0.0.0.0:5062 \
             --aplay-cmd aplay -q --sink-buffer-min-ms 20 --sink-buffer-max-ms 160 \
             --sink-jbuf-type fixed",
            "dry-run: b2b --role mixer --log-format text --color auto --sip-bind 10.0.0.7:5063 \
             --target sip:10.0.0.7:5062 --dtmf-seq 123# --dtmf-period-ms 2000 --mix-gain-in 0.500",
            "dry-run: b2b --role source --log-format text --color auto \
             --target sip:10.0.0.7:5063 --audio-file a.mp3",
        ]
    );
    assert!(dry_run_lines(&PlanTopology::default(), "b2b", LogFormat::Json, ColorChoice::Never)
        .is_empty());
}

#[test]
fn dry_run_line_matches_spawned_arguments() {
    let mut t = PlanTopology::default();
    t.sink_bind = Some("b".into());
    t.sink_buffer_mode = Some("m".into());
    let lines = dry_run_lines(&t, "x", LogFormat::Json, ColorChoice::Never);
    let stage = &launch_plan(&t)[0];
    let argv = child_args(stage.role, LogFormat::Json, ColorChoice::Never, &stage.args);
    assert_eq!(lines, vec![format!("dry-run: x {}", argv.join(" "))]);
    assert_eq!(
        lines[0],
        "dry-run: x --role sink --log-format json --color never --sip-bind b --sink-buffer-mode m"
    );
}
