use vstd::prelude::*;

use crate::mask::MaskU8;
use crate::sequencer::{Direction, Position};
use crate::LEVEL_MAX;

verus! {

/// The traversal algorithm that picks the next stage.
#[derive(Debug, Clone, Copy, PartialEq, Eq, Structural)]
pub enum StageMode {
    Forward,
    Reverse,
    PingPong,
    Brownian,
    Random,
}

/// Two random samples handed in by the host, each a level in `0..=LEVEL_MAX`
/// (a larger value counts as `LEVEL_MAX`). `Brownian` reads both, `Random`
/// reads the first.
#[derive(Debug, Clone, Copy, PartialEq, Eq, Structural)]
pub struct Draw {
    pub first: u32,
    pub second: u32,
}

impl Draw {
    pub open spec fn full_spec() -> Draw {
        Draw { first: LEVEL_MAX, second: LEVEL_MAX }
    }

    /// Both samples at full scale.
    pub fn full() -> (r: Draw)
        ensures
            r == Self::full_spec(),
    {
        Draw { first: LEVEL_MAX, second: LEVEL_MAX }
    }
}

/// A sample lies above one half.
pub open spec fn above_half(sample: u32) -> bool {
    sample > LEVEL_MAX / 2
}

/// The stage that a sample aims at: the sample, clamped to full scale, taken
/// onto `0..=7` and rounded half up.
pub open spec fn random_target(sample: u32) -> int {
    let s = if sample > LEVEL_MAX { LEVEL_MAX as int } else { sample as int };
    (s * 7 + LEVEL_MAX / 2) / (LEVEL_MAX as int)
}

pub open spec fn at(stage: u8, dir: Direction) -> Position {
    Position { stage, pulse: 0, dir }
}

/// The next active stage above, wrapping round to the lowest; in place when
/// no stage is active.
pub open spec fn forward_spec(mask: MaskU8, pos: Position) -> Position {
    match mask.above(pos.stage as int) {
        Some(p) => at(p, Direction::Forward),
        None => match mask.lowest_spec() {
            Some(p) => at(p, Direction::Forward),
            None => at(pos.stage, Direction::Forward),
        },
    }
}

/// The next active stage below, wrapping round to the highest; in place when
/// no stage is active.
pub open spec fn reverse_spec(mask: MaskU8, pos: Position) -> Position {
    match mask.below(pos.stage as int) {
        Some(p) => at(p, Direction::Reverse),
        None => match mask.highest_spec() {
            Some(p) => at(p, Direction::Reverse),
            None => at(pos.stage, Direction::Reverse),
        },
    }
}

/// On in the current direction; at the end of the active stages, back the
/// other way with the direction turned; in place when there is no other
/// active stage.
pub open spec fn ping_pong_spec(mask: MaskU8, pos: Position) -> Position {
    let lower = mask.below(pos.stage as int);
    let higher = mask.above(pos.stage as int);
    match pos.dir {
        Direction::Forward => match (higher, lower) {
            (Some(p), _) => at(p, Direction::Forward),
            (None, Some(p)) => at(p, Direction::Reverse),
            (None, None) => at(pos.stage, pos.dir),
        },
        Direction::Reverse => match (lower, higher) {
            (Some(p), _) => at(p, Direction::Reverse),
            (None, Some(p)) => at(p, Direction::Forward),
            (None, None) => at(pos.stage, pos.dir),
        },
    }
}

/// A first sample above one half steps forward; else a second sample above
/// one half stays on the stage; else it steps in reverse.
pub open spec fn brownian_spec(mask: MaskU8, pos: Position, draw: Draw) -> Position {
    if above_half(draw.first) {
        forward_spec(mask, pos)
    } else if above_half(draw.second) {
        at(pos.stage, pos.dir)
    } else {
        reverse_spec(mask, pos)
    }
}

/// The active stage nearest to the target that the first sample picks, the
/// lower of two at equal distance; in place when no stage is active.
pub open spec fn random_spec(mask: MaskU8, pos: Position, draw: Draw) -> Position {
    let t = random_target(draw.first);
    if mask.has(t) {
        at(t as u8, pos.dir)
    } else {
        match (mask.below(t), mask.above(t)) {
            (Some(l), Some(h)) => if t - l <= h - t {
                at(l, pos.dir)
            } else {
                at(h, pos.dir)
            },
            (Some(l), None) => at(l, pos.dir),
            (None, Some(h)) => at(h, pos.dir),
            (None, None) => at(pos.stage, pos.dir),
        }
    }
}

impl StageMode {
    pub open spec fn next_spec(self, mask: MaskU8, pos: Position, draw: Draw) -> Position {
        match self {
            StageMode::Forward => forward_spec(mask, pos),
            StageMode::Reverse => reverse_spec(mask, pos),
            StageMode::PingPong => ping_pong_spec(mask, pos),
            StageMode::Brownian => brownian_spec(mask, pos, draw),
            StageMode::Random => random_spec(mask, pos, draw),
        }
    }

    /// The next position, with both random samples at full scale.
    pub fn next_stage(self, stage_mask: MaskU8, pos: Position) -> (r: Position)
        requires
            pos.stage < 8,
        ensures
            r == self.next_spec(stage_mask, pos, Draw::full_spec()),
    {
        self.next_stage_with(stage_mask, pos, Draw::full())
    }

    /// The next position, reading the random samples from `draw`.
    pub fn next_stage_with(self, stage_mask: MaskU8, pos: Position, draw: Draw) -> (r: Position)
        requires
            pos.stage < 8,
        ensures
            r == self.next_spec(stage_mask, pos, draw),
            r.stage < 8,
            r.pulse == 0,
            !stage_mask.is_empty_spec() && self != StageMode::Brownian ==> stage_mask.has(
                r.stage as int,
            ),
    {
        proof {
            let p = pos.stage as int;
            stage_mask.lemma_above(p);
            stage_mask.lemma_above(-1);
            stage_mask.lemma_below(p);
            stage_mask.lemma_below(8);
            let t = random_target(draw.first);
            if 0 <= t <= 7 {
                stage_mask.lemma_above(t);
                stage_mask.lemma_below(t);
            }
        }
        match self {
            Self::Forward => Self::forward(stage_mask, pos),
            Self::Reverse => Self::reverse(stage_mask, pos),
            Self::PingPong => Self::ping_pong(stage_mask, pos),
            Self::Brownian => Self::brownian(stage_mask, pos, draw),
            Self::Random => Self::random(stage_mask, pos, draw),
        }
    }

    fn random(stage_mask: MaskU8, pos: Position, draw: Draw) -> (r: Position)
        requires
            pos.stage < 8,
        ensures
            r == random_spec(stage_mask, pos, draw),
            r.stage < 8,
            0 <= random_target(draw.first) <= 7,
    {
        let sample: u32 = if draw.first > LEVEL_MAX { LEVEL_MAX } else { draw.first };
        assert(sample * 7 <= LEVEL_MAX * 7) by (nonlinear_arith)
            requires
                sample <= LEVEL_MAX,
        ;
        let idx: u32 = (sample * 7 + LEVEL_MAX / 2) / LEVEL_MAX;
        assert(idx <= 7) by (nonlinear_arith)
            requires
                idx == (sample * 7 + LEVEL_MAX / 2) / (LEVEL_MAX as int),
                sample * 7 <= LEVEL_MAX * 7,
        ;
        let idx: u8 = idx as u8;
        if stage_mask.is_set(idx) {
            return Position { stage: idx, pulse: 0, dir: pos.dir };
        }
        let lower = stage_mask.next_lower(idx);
        let higher = stage_mask.next_higher(idx);
        match (lower, higher) {
            (Some(l), Some(h)) => {
                if idx - l <= h - idx {
                    Position { stage: l, pulse: 0, dir: pos.dir }
                } else {
                    Position { stage: h, pulse: 0, dir: pos.dir }
                }
            },
            (Some(i), None) | (None, Some(i)) => Position { stage: i, pulse: 0, dir: pos.dir },
            (None, None) => Position { stage: pos.stage, pulse: 0, dir: pos.dir },
        }
    }

    fn brownian(stage_mask: MaskU8, pos: Position, draw: Draw) -> (r: Position)
        requires
            pos.stage < 8,
        ensures
            r == brownian_spec(stage_mask, pos, draw),
            r.stage < 8,
    {
        if draw.first > LEVEL_MAX / 2 {
            Self::forward(stage_mask, pos)
        } else if draw.second > LEVEL_MAX / 2 {
            Position { stage: pos.stage, pulse: 0, dir: pos.dir }
        } else {
            Self::reverse(stage_mask, pos)
        }
    }

    fn ping_pong(stage_mask: MaskU8, pos: Position) -> (r: Position)
        requires
            pos.stage < 8,
        ensures
            r == ping_pong_spec(stage_mask, pos),
            r.stage < 8,
    {
        let lower = stage_mask.next_lower(pos.stage);
        let higher = stage_mask.next_higher(pos.stage);
        match (pos.dir, lower, higher) {
            (Direction::Forward, Some(p), None) => Position { stage: p, pulse: 0, dir: Direction::Reverse },
            (Direction::Reverse, None, Some(p)) => Position { stage: p, pulse: 0, dir: Direction::Forward },
            (Direction::Forward, _, Some(p)) => Position { stage: p, pulse: 0, dir: Direction::Forward },
            (Direction::Reverse, Some(p), _) => Position { stage: p, pulse: 0, dir: Direction::Reverse },
            _ => Position { stage: pos.stage, pulse: 0, dir: pos.dir },
        }
    }

    fn reverse(stage_mask: MaskU8, pos: Position) -> (r: Position)
        requires
            pos.stage < 8,
        ensures
            r == reverse_spec(stage_mask, pos),
            r.stage < 8,
    {
        match stage_mask.next_lower(pos.stage) {
            Some(p) => Position { stage: p, pulse: 0, dir: Direction::Reverse },
            None => match stage_mask.highest() {
                Some(p) => Position { stage: p, pulse: 0, dir: Direction::Reverse },
                None => Position { stage: pos.stage, pulse: 0, dir: Direction::Reverse },
            },
        }
    }

    fn forward(stage_mask: MaskU8, pos: Position) -> (r: Position)
        requires
            pos.stage < 8,
        ensures
            r == forward_spec(stage_mask, pos),
            r.stage < 8,
    {
        match stage_mask.next_higher(pos.stage) {
            Some(p) => Position { stage: p, pulse: 0, dir: Direction::Forward },
            None => match stage_mask.lowest() {
                Some(p) => Position { stage: p, pulse: 0, dir: Direction::Forward },
                None => Position { stage: pos.stage, pulse: 0, dir: Direction::Forward },
            },
        }
    }
}

/// A forward step followed by a reverse step lands on the highest active
/// stage at or below the starting stage, or, when there is none, on the
/// highest active stage of all; so from an active stage it comes back to
/// where it started. With no active stage both steps stay in place.
pub proof fn lemma_forward_then_reverse(mask: MaskU8, pos: Position, draw: Draw)
    requires
        pos.stage < 8,
    ensures
        ({
            let back = StageMode::Reverse.next_spec(
                mask,
                StageMode::Forward.next_spec(mask, pos, draw),
                draw,
            );
            &&& back.stage == match mask.below(pos.stage + 1) {
                Some(s) => s,
                None => match mask.highest_spec() {
                    Some(h) => h,
                    None => pos.stage,
                },
            }
            &&& mask.has(pos.stage as int) ==> back.stage == pos.stage
            &&& back.dir == Direction::Reverse
            &&& back.pulse == 0
        }),
{
    let p = pos.stage as int;
    mask.lemma_above(p);
    mask.lemma_above(-1);
    mask.lemma_below(p + 1);
    mask.lemma_below(8);
    let fwd = forward_spec(mask, pos);
    assert(fwd.stage < 8);
    mask.lemma_below(fwd.stage as int);
    if mask.has(p) {
        assert(mask.below(p + 1) == Some(p as u8));
    }
}

} // verus!
