use metro_core::{Direction, Draw, Gate, GateMode, MaskU8, Note, Position, Sequencer, Stage, StageMode};

fn skip_all(seq: &mut Sequencer) {
    for i in 0..8 {
        seq.config().stage(i).unwrap().skipped = true;
    }
}

#[test]
fn new_sequencer_defaults() {
    let mut seq = Sequencer::new();
    let state = seq.state(0);
    assert_eq!(Note::C, state.note);
    assert_eq!(Gate::Open, state.gate);
    assert_eq!(Position { stage: 0, pulse: 0, dir: Direction::Forward }, state.pos);
    assert_eq!(Gate::Closed, seq.state(51).gate);
    assert_eq!(Gate::Open, seq.state(50).gate);
    let stages = seq.config().stages().to_vec();
    assert_eq!(8, stages.len());
    for stage in stages {
        assert_eq!(Stage::default(), stage);
    }
}

#[test]
fn stage_out_of_range_is_none() {
    let mut seq = Sequencer::new();
    assert!(seq.config().stage(8).is_none());
    assert!(seq.config().stage(7).is_some());
}

#[test]
fn stage_has_pulses() {
    let mut stage = Stage::default();
    assert!(stage.has_pulses());
    stage.pulse_count = 0;
    assert!(!stage.has_pulses());
    stage.pulse_count = 2;
    stage.skipped = true;
    assert!(!stage.has_pulses());
}

#[test]
fn mask_follows_stages() {
    let mut seq = Sequencer::new();
    seq.config().stage(1).unwrap().skipped = true;
    seq.config().stage(4).unwrap().pulse_count = 0;
    assert_eq!(MaskU8(0b_1110_1101), seq.config().has_pulses_mask());
    assert!(seq.config().has_pulses());
    skip_all(&mut seq);
    assert_eq!(MaskU8(0), seq.config().has_pulses_mask());
    assert!(!seq.config().has_pulses());
}

#[test]
fn step_walks_pulses_then_stages() {
    let mut seq = Sequencer::new();
    seq.config().stage(0).unwrap().pulse_count = 3;
    seq.config().stage(1).unwrap().note = Note::E;
    seq.step();
    assert_eq!(Position { stage: 0, pulse: 1, dir: Direction::Forward }, seq.state(0).pos);
    seq.step();
    assert_eq!(Position { stage: 0, pulse: 2, dir: Direction::Forward }, seq.state(0).pos);
    seq.step();
    let state = seq.state(0);
    assert_eq!(Position { stage: 1, pulse: 0, dir: Direction::Forward }, state.pos);
    assert_eq!(Note::E, state.note);
    for _ in 0..7 {
        seq.step();
    }
    assert_eq!(0, seq.state(0).pos.stage);
}

#[test]
fn step_leaves_stage_without_pulses() {
    let mut seq = Sequencer::new();
    seq.config().stage(0).unwrap().pulse_count = 0;
    seq.step();
    assert_eq!(1, seq.state(0).pos.stage);
}

#[test]
fn step_skips_skipped_stages() {
    let mut seq = Sequencer::new();
    seq.config().stage(1).unwrap().skipped = true;
    seq.config().stage(2).unwrap().skipped = true;
    seq.step();
    assert_eq!(3, seq.state(0).pos.stage);
}

#[test]
fn step_uses_stage_mode() {
    let mut seq = Sequencer::new();
    seq.config().set_stage_mode(StageMode::Reverse);
    seq.step();
    let pos = seq.state(0).pos;
    assert_eq!(7, pos.stage);
    assert_eq!(Direction::Reverse, pos.dir);
    seq.config().set_stage_mode(StageMode::Random);
    seq.config().set_draw(Draw { first: 0, second: 0 });
    seq.step();
    assert_eq!(0, seq.state(0).pos.stage);
}

#[test]
fn state_is_repeatable() {
    let mut seq = Sequencer::new();
    seq.config().stage(0).unwrap().gate_mode = GateMode::Single;
    seq.config().stage(0).unwrap().pulse_count = 2;
    seq.step();
    for elapsed in [0u32, 25, 50, 75] {
        let first = seq.state(elapsed);
        let second = seq.state(elapsed);
        assert_eq!(first, second);
    }
}

#[test]
fn idle_steps_keep_position() {
    let mut seq = Sequencer::new();
    seq.config().stage(0).unwrap().pulse_count = 4;
    seq.step();
    seq.step();
    let before = seq.state(0).pos;
    skip_all(&mut seq);
    for _ in 0..100 {
        seq.step();
        assert_eq!(before, seq.state(0).pos);
    }
    assert_eq!(Position { stage: 0, pulse: 2, dir: Direction::Forward }, before);
}

#[test]
fn last_pulse_flag_runs_past_the_count() {
    // Sustain stays open on the nominal last pulse, even once its window has passed.
    let mut seq = Sequencer::new();
    seq.config().set_gate_time_ms(10);
    seq.config().stage(0).unwrap().gate_mode = GateMode::Sustain;
    seq.config().stage(0).unwrap().pulse_count = 2;
    seq.step();
    assert_eq!(1, seq.state(0).pos.pulse);
    assert_eq!(Gate::Open, seq.state(1000).gate);
    // Lowering the count under the playhead raises the flag.
    seq.config().stage(0).unwrap().pulse_count = 1;
    assert_eq!(Gate::Closed, seq.state(11).gate);
    assert_eq!(Gate::Open, seq.state(10).gate);
}

#[test]
fn gate_time_setting() {
    let mut seq = Sequencer::new();
    seq.config().set_gate_time_ms(200);
    assert_eq!(Gate::Open, seq.state(200).gate);
    assert_eq!(Gate::Closed, seq.state(201).gate);
}

#[test]
fn direction_invert() {
    assert_eq!(Direction::Reverse, Direction::Forward.invert());
    assert_eq!(Direction::Forward, Direction::Reverse.invert());
}
