//! Control core of an eight-stage step sequencer: stage traversal over a
//! bitmask of active stages, gate evaluation and scale quantization.

pub mod gate;
pub mod mask;
pub mod note;
pub mod scale;
pub mod sequencer;
pub mod stage_mode;

pub use gate::{Gate, GateMode};
pub use mask::MaskU8;
pub use note::Note;
pub use scale::Scale;
pub use sequencer::{Config, Direction, Position, Sequencer, Stage, State};
pub use stage_mode::{Draw, StageMode};

use vstd::prelude::*;

verus! {

/// Full scale of a control level: a level `l` in `0..=LEVEL_MAX` stands for
/// the fraction `l / LEVEL_MAX` of its range.
pub const LEVEL_MAX: u32 = 65536;

} // verus!
