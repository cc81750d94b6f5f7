use scrysynth::sequencer::{
    run_steps_inline, sequencer_writes, RecordingCSetSink, SequencerPattern, SEQUENCER_STEP_COUNT,
};

fn pattern_with(steps: &[(bool, f64)]) -> SequencerPattern {
    let mut p = SequencerPattern::new();
    for (i, (gate, cv)) in steps.iter().enumerate() {
        p.gate[i] = *gate;
        p.cv[i] = cv.to_bits();
    }
    p
}

fn sent_value(v: u64) -> f32 {
    f64::from_bits(v) as f32
}

#[test]
fn run_steps_inline_emits_one_c_set_per_gate_and_cv_pair_over_16_steps() {
    let mut sink = RecordingCSetSink::new();
    let pattern = pattern_with(&[
        (true, 0.1),
        (false, 0.2),
        (true, 0.3),
        (false, 0.4),
        (true, 0.5),
        (false, 0.6),
        (true, 0.7),
        (false, 0.8),
        (true, 0.9),
        (false, 1.0),
        (true, -0.1),
        (false, -0.2),
        (true, -0.3),
        (false, -0.4),
        (true, -0.5),
        (false, -0.6),
    ]);
    let gate_bus = 1024;
    let cv_bus = 1025;
    run_steps_inline(&mut sink, gate_bus, cv_bus, &pattern, 16);
    let sent = sink.writes();
    assert_eq!(sent.len(), 32, "16 gate + 16 cv = 32 /c_set writes");
    for step in 0..16 {
        let gate_write = &sent[step * 2];
        let cv_write = &sent[step * 2 + 1];
        assert_eq!(gate_write.0, gate_bus, "gate bus on step {step}");
        assert!(
            (sent_value(gate_write.1) - if pattern.gate[step] { 1.0 } else { 0.0 }).abs() < 1e-6,
            "gate value on step {step}"
        );
        assert_eq!(cv_write.0, cv_bus, "cv bus on step {step}");
        assert!(
            (sent_value(cv_write.1) - f64::from_bits(pattern.cv[step]) as f32).abs() < 1e-6,
            "cv value on step {step}"
        );
    }
}

#[test]
fn run_steps_inline_wraps_step_index_past_15() {
    let mut sink = RecordingCSetSink::new();
    let mut pattern = SequencerPattern::new();
    pattern.gate[0] = true;
    pattern.gate[1] = false;
    pattern.cv[0] = 0.42f64.to_bits();
    pattern.cv[1] = (-0.5f64).to_bits();
    run_steps_inline(&mut sink, 100, 101, &pattern, 18);
    let sent = sink.writes();
    assert_eq!(sent.len(), 36);
    assert!((sent_value(sent[32].1) - 1.0).abs() < 1e-6, "wrapped step 16 gate mirrors step 0");
    assert!((sent_value(sent[33].1) - 0.42).abs() < 1e-6, "wrapped step 16 cv mirrors step 0");
}

#[test]
fn recording_sink_default_is_empty() {
    let sink = RecordingCSetSink::new();
    assert!(sink.writes().is_empty());
}

#[test]
fn sequencer_writes_match_pattern_lanes() {
    let pattern = pattern_with(&[(true, 0.25), (false, 0.5)]);
    let writes = sequencer_writes(7, 8, &pattern, 2);
    assert_eq!(
        writes,
        vec![(7, 1.0f64.to_bits()), (8, 0.25f64.to_bits()), (7, 0), (8, 0.5f64.to_bits())]
    );
    let empty = SequencerPattern::new();
    assert_eq!(empty.gate.len(), SEQUENCER_STEP_COUNT);
    assert!(empty.cv.iter().all(|v| *v == 0));
}
