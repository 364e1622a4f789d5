use metro_core::{Gate, GateMode, LEVEL_MAX};

#[test]
fn repeat_opens_within_gate_time() {
    assert_eq!(Gate::Open, GateMode::Repeat.gate(50, 0, false, false));
    assert_eq!(Gate::Open, GateMode::Repeat.gate(50, 50, false, true));
    assert_eq!(Gate::Closed, GateMode::Repeat.gate(50, 51, true, false));
}

#[test]
fn single_opens_on_first_pulse_only() {
    assert_eq!(Gate::Open, GateMode::Single.gate(50, 10, true, false));
    assert_eq!(Gate::Closed, GateMode::Single.gate(50, 10, false, false));
    assert_eq!(Gate::Closed, GateMode::Single.gate(50, 60, true, false));
}

#[test]
fn sustain_closes_only_after_last_pulse_window() {
    for elapsed in [0u32, 50, 51, 1000, u32::MAX] {
        assert_eq!(Gate::Open, GateMode::Sustain.gate(50, elapsed, false, false));
        assert_eq!(Gate::Open, GateMode::Sustain.gate(50, elapsed, true, false));
    }
    assert_eq!(Gate::Open, GateMode::Sustain.gate(50, 50, false, true));
    assert_eq!(Gate::Closed, GateMode::Sustain.gate(50, 51, false, true));
}

#[test]
fn silent_never_opens() {
    assert_eq!(Gate::Closed, GateMode::Silent.gate(50, 0, true, false));
    assert_eq!(Gate::Closed, GateMode::Silent.gate(u32::MAX, 0, true, true));
}

#[test]
fn gate_mode_from_level() {
    assert_eq!(GateMode::Repeat, GateMode::from_level(0));
    assert_eq!(GateMode::Repeat, GateMode::from_level(LEVEL_MAX / 4 - 1));
    assert_eq!(GateMode::Sustain, GateMode::from_level(LEVEL_MAX / 4));
    assert_eq!(GateMode::Sustain, GateMode::from_level(LEVEL_MAX / 2 - 1));
    assert_eq!(GateMode::Single, GateMode::from_level(LEVEL_MAX / 2));
    assert_eq!(GateMode::Single, GateMode::from_level(LEVEL_MAX / 4 * 3 - 1));
    assert_eq!(GateMode::Silent, GateMode::from_level(LEVEL_MAX / 4 * 3));
    assert_eq!(GateMode::Silent, GateMode::from_level(LEVEL_MAX));
}
