use vstd::prelude::*;

use crate::gate::{Gate, GateMode};
use crate::mask::MaskU8;
use crate::note::Note;
use crate::stage_mode::{Draw, StageMode};

verus! {

/// Number of stages in the ring.
pub const N: usize = 8;

/// Direction of travel around the ring.
#[derive(Debug, Clone, Copy, PartialEq, Eq, Structural)]
pub enum Direction {
    Forward,
    Reverse,
}

impl Direction {
    pub fn invert(self) -> (r: Self)
        ensures
            r != self,
    {
        match self {
            Self::Forward => Self::Reverse,
            Self::Reverse => Self::Forward,
        }
    }
}

/// The playhead: a stage, a pulse within it, and the direction of travel.
#[derive(Debug, Clone, Copy, PartialEq, Eq, Structural)]
pub struct Position {
    pub stage: u8,
    pub pulse: u8,
    pub dir: Direction,
}

/// One slot of the ring.
#[derive(Debug, Clone, Copy, PartialEq, Eq, Structural)]
pub struct Stage {
    pub note: Note,
    pub pulse_count: u8,
    pub gate_mode: GateMode,
    pub skipped: bool,
}

impl Stage {
    pub open spec fn default_spec() -> Stage {
        Stage { note: Note::C, pulse_count: 1, gate_mode: GateMode::Repeat, skipped: false }
    }

    pub open spec fn has_pulses_spec(self) -> bool {
        self.pulse_count > 0 && !self.skipped
    }

    pub fn default() -> (r: Stage)
        ensures
            r == Self::default_spec(),
    {
        Stage { note: Note::C, pulse_count: 1, gate_mode: GateMode::Repeat, skipped: false }
    }

    pub fn has_pulses(&self) -> (r: bool)
        ensures
            r == self.has_pulses_spec(),
    {
        self.pulse_count > 0 && !self.skipped
    }
}

/// The bits of the stages among `0..n` that have pulses.
pub open spec fn active_bits(stages: Seq<Stage>, n: int) -> u8
    decreases n,
{
    if n <= 0 {
        0
    } else if stages[n - 1].has_pulses_spec() {
        active_bits(stages, n - 1) | (1u8 << ((n - 1) as u8))
    } else {
        active_bits(stages, n - 1)
    }
}

/// What a `Config` holds.
pub struct ConfigView {
    pub stages: Seq<Stage>,
    pub stage_mode: StageMode,
    pub gate_time_ms: u32,
    pub draw: Draw,
}

impl ConfigView {
    pub open spec fn has_pulses(self) -> bool {
        exists|i: int| 0 <= i < N && #[trigger] self.stages[i].has_pulses_spec()
    }

    /// The set of stages that have pulses.
    pub open spec fn mask(self) -> MaskU8 {
        MaskU8(active_bits(self.stages, N as int))
    }
}

/// The stages, the traversal mode, the open window and the random samples.
#[derive(Debug, Clone, Copy)]
pub struct Config {
    stages: [Stage; N],
    stage_mode: StageMode,
    gate_time_ms: u32,
    draw: Draw,
}

impl View for Config {
    type V = ConfigView;

    closed spec fn view(&self) -> ConfigView {
        ConfigView {
            stages: self.stages@,
            stage_mode: self.stage_mode,
            gate_time_ms: self.gate_time_ms,
            draw: self.draw,
        }
    }
}

proof fn lemma_set_bit(m: u8, i: u8, j: u8)
    by (bit_vector)
    requires
        i < 8,
        j < 8,
    ensures
        ((m | (1u8 << i)) & (1u8 << j) != 0) == (i == j || m & (1u8 << j) != 0),
        0u8 & (1u8 << j) == 0,
{
}

/// Bit `j` of `active_bits(stages, n)` is set exactly when `j < n` and stage
/// `j` has pulses.
proof fn lemma_active_bits(stages: Seq<Stage>, n: int)
    requires
        0 <= n <= N,
        stages.len() == N,
    ensures
        forall|j: int|
            0 <= j < N ==> (#[trigger] MaskU8(active_bits(stages, n)).has(j) <==> (j < n
                && stages[j].has_pulses_spec())),
    decreases n,
{
    if n > 0 {
        lemma_active_bits(stages, n - 1);
    }
    assert forall|j: int| 0 <= j < N implies (#[trigger] MaskU8(active_bits(stages, n)).has(j) <==> (
    j < n && stages[j].has_pulses_spec())) by {
        if n == 0 {
            lemma_set_bit(0, 0, j as u8);
        } else {
            let m = active_bits(stages, n - 1);
            lemma_set_bit(m, (n - 1) as u8, j as u8);
            assert(MaskU8(m).has(j) <==> (j < n - 1 && stages[j].has_pulses_spec()));
            if stages[n - 1].has_pulses_spec() {
                assert(active_bits(stages, n) == m | (1u8 << ((n - 1) as u8)));
            } else {
                assert(active_bits(stages, n) == m);
            }
        }
    }
}

impl Config {
    /// Every stage at its default, traversal forward, an open window of 50 ms and
    /// both random samples at full scale.
    pub open spec fn new_spec() -> ConfigView {
        ConfigView {
            stages: Seq::new(N as nat, |i: int| Stage::default_spec()),
            stage_mode: StageMode::Forward,
            gate_time_ms: 50,
            draw: Draw::full_spec(),
        }
    }

    pub fn new() -> (r: Self)
        ensures
            r@ == Self::new_spec(),
    {
        let stages = [Stage::default();N];
        assert(stages@ =~= Self::new_spec().stages);
        Self {
            stages,
            stage_mode: StageMode::Forward,
            gate_time_ms: 50,
            draw: Draw::full(),
        }
    }

    /// The stage at `index`, to read or change in place; `None` past the last stage.
    pub fn stage(&mut self, index: usize) -> (r: Option<&mut Stage>)
        ensures
            index < N ==> r is Some && *r->Some_0 == old(self)@.stages[index as int]
                && final(self)@ == (ConfigView {
                stages: old(self)@.stages.update(index as int, *final(r->Some_0)),
                ..old(self)@
            }),
            index >= N ==> r is None && final(self)@ == old(self)@,
    {
        if index < N {
            Some(&mut self.stages[index])
        } else {
            None
        }
    }

    pub fn stages(&self) -> (r: &[Stage])
        ensures
            r@ == self@.stages,
    {
        &self.stages
    }

    /// Some stage has pulses.
    pub fn has_pulses(&self) -> (r: bool)
        ensures
            r == self@.has_pulses(),
    {
        let mut i: usize = 0;
        while i < N
            invariant
                i <= N,
                self.stages@.len() == N,
                forall|j: int| 0 <= j < i ==> !(#[trigger] self.stages@[j]).has_pulses_spec(),
            decreases N - i,
        {
            if self.stages[i].has_pulses() {
                assert(self@.stages[i as int].has_pulses_spec());
                return true;
            }
            i = i + 1;
        }
        false
    }

    /// The set of stages that have pulses.
    pub fn has_pulses_mask(&self) -> (r: MaskU8)
        ensures
            r == self@.mask(),
            forall|i: int| 0 <= i < N ==> (#[trigger] r.has(i) <==> self@.stages[i].has_pulses_spec()),
    {
        let mut mask: u8 = 0;
        let mut i: usize = 0;
        while i < N
            invariant
                i <= N,
                self.stages@.len() == N,
                mask == active_bits(self.stages@, i as int),
            decreases N - i,
        {
            if self.stages[i].has_pulses() {
                mask = mask | (1u8 << (i as u8));
            }
            i = i + 1;
        }
        proof {
            lemma_active_bits(self.stages@, N as int);
        }
        MaskU8(mask)
    }

    pub fn set_gate_time_ms(&mut self, gate_time_ms: u32)
        ensures
            final(self)@ == (ConfigView { gate_time_ms, ..old(self)@ }),
    {
        self.gate_time_ms = gate_time_ms
    }

    pub fn set_stage_mode(&mut self, stage_mode: StageMode)
        ensures
            final(self)@ == (ConfigView { stage_mode, ..old(self)@ }),
    {
        self.stage_mode = stage_mode
    }

    /// Hands in the random samples that the next steps read.
    pub fn set_draw(&mut self, draw: Draw)
        ensures
            final(self)@ == (ConfigView { draw, ..old(self)@ }),
    {
        self.draw = draw
    }
}


/// The output of the sequencer at one moment.
#[derive(Debug, Clone, Copy, PartialEq, Eq, Structural)]
pub struct State {
    pub note: Note,
    pub gate: Gate,
    pub pos: Position,
}

/// What a `Sequencer` holds.
pub struct SequencerView {
    pub config: ConfigView,
    pub pos: Position,
}

impl SequencerView {
    /// The position after one step.
    pub open spec fn step_spec(self) -> Position {
        if !self.config.has_pulses() {
            self.pos
        } else {
            let st = self.config.stages[self.pos.stage as int];
            if self.pos.pulse + 1 < st.pulse_count && !st.skipped {
                Position { pulse: (self.pos.pulse + 1) as u8, ..self.pos }
            } else {
                self.config.stage_mode.next_spec(self.config.mask(), self.pos, self.config.draw)
            }
        }
    }

    /// The sequencer after `n` steps with no change to its configuration.
    pub open spec fn steps(self, n: nat) -> SequencerView
        decreases n,
    {
        if n == 0 {
            self
        } else {
            SequencerView { pos: self.step_spec(), ..self }.steps((n - 1) as nat)
        }
    }

    /// The output `elapsed` milliseconds after the last step. The first-pulse
    /// flag is `pulse == 0`; the last-pulse flag is `pulse > pulse_count - 1`,
    /// which holds only once the pulse has run past the stage's count.
    pub open spec fn state_spec(self, elapsed: u32) -> State {
        let st = self.config.stages[self.pos.stage as int];
        State {
            note: st.note,
            gate: st.gate_mode.gate_spec(
                self.config.gate_time_ms,
                elapsed,
                self.pos.pulse == 0,
                self.pos.pulse > st.pulse_count - 1,
            ),
            pos: self.pos,
        }
    }
}

/// Stepping a sequencer none of whose stages has pulses leaves it as it is,
/// however many steps are taken.
pub proof fn lemma_idle_steps(s: SequencerView, n: nat)
    requires
        !s.config.has_pulses(),
    ensures
        s.steps(n) == s,
    decreases n,
{
    if n > 0 {
        assert(SequencerView { pos: s.step_spec(), ..s } == s);
        lemma_idle_steps(s, (n - 1) as nat);
    }
}

/// A position whose stage lies on the ring.
#[derive(Debug, Clone, Copy)]
struct Playhead {
    pos: Position,
}

impl Playhead {
    #[verifier::type_invariant]
    spec fn inv(self) -> bool {
        self.pos.stage < N
    }

    fn get(&self) -> (r: Position)
        ensures
            r == self.pos,
            r.stage < N,
    {
        proof {
            use_type_invariant(self);
        }
        self.pos
    }
}

/// The configuration and the playhead.
#[derive(Debug, Clone, Copy)]
pub struct Sequencer {
    config: Config,
    head: Playhead,
}

impl View for Sequencer {
    type V = SequencerView;

    closed spec fn view(&self) -> SequencerView {
        SequencerView { config: self.config@, pos: self.head.pos }
    }
}

impl Sequencer {
    pub fn new() -> (r: Sequencer)
        ensures
            r@.config == Config::new_spec(),
            r@.pos == (Position { stage: 0, pulse: 0, dir: Direction::Forward }),
    {
        Self {
            head: Playhead { pos: Position { stage: 0, pulse: 0, dir: Direction::Forward } },
            config: Config::new(),
        }
    }

    /// The configuration, to change in place.
    pub fn config(&mut self) -> (r: &mut Config)
        ensures
            (*r)@ == old(self)@.config,
            final(self)@ == (SequencerView { config: (*final(r))@, pos: old(self)@.pos }),
    {
        &mut self.config
    }

    /// The output `last_beat_ms` milliseconds after the last step.
    pub fn state(&self, last_beat_ms: u32) -> (r: State)
        ensures
            r == self@.state_spec(last_beat_ms),
            r.pos.stage < N,
    {
        let pos = self.head.get();
        let current_stage = self.stage(pos);
        let last_pulse = (pos.pulse as u16) + 1 > current_stage.pulse_count as u16;
        let gate = current_stage.gate_mode.gate(
            self.config.gate_time_ms,
            last_beat_ms,
            pos.pulse == 0,
            last_pulse,
        );
        State { gate, note: current_stage.note, pos }
    }

    /// Advances the playhead: to the next pulse of the stage while it has one
    /// and is not skipped, else to the next stage that the traversal mode picks.
    /// Does nothing when no stage has pulses.
    pub fn step(&mut self)
        ensures
            final(self)@ == (SequencerView { pos: old(self)@.step_spec(), ..old(self)@ }),
    {
        if !self.config.has_pulses() {
            return;
        }
        let pos = self.head.get();
        let current_stage = *self.stage(pos);
        if (pos.pulse as u16) + 1 < current_stage.pulse_count as u16 && !current_stage.skipped {
            self.head = Playhead { pos: Position { stage: pos.stage, pulse: pos.pulse + 1, dir: pos.dir } };
        } else {
            self.head = Playhead { pos: self.next_stage_pos(pos) };
        }
    }

    fn next_stage_pos(&self, pos: Position) -> (r: Position)
        requires
            pos.stage < N,
        ensures
            r == self@.config.stage_mode.next_spec(self@.config.mask(), pos, self@.config.draw),
            r.stage < N,
    {
        self.config.stage_mode.next_stage_with(self.config.has_pulses_mask(), pos, self.config.draw)
    }

    fn stage(&self, pos: Position) -> (r: &Stage)
        requires
            pos.stage < N,
        ensures
            *r == self@.config.stages[pos.stage as int],
    {
        &self.config.stages[pos.stage as usize]
    }
}

} // verus!
