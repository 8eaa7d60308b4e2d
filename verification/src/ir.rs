//! The emitted intermediate representation: ordered sequences of
//! single-assignment instructions.
//!
//! Each instruction defines exactly one value, named by its position in the
//! sequence (`_0`, `_1`, ...); operands reference earlier instructions by that
//! name, so a well-formed sequence is free of forward references. Noise
//! references are resolved during emission: an instruction carries the octave
//! parameters of the generator it samples, never a registry key.

use vstd::prelude::*;
use crate::schema::{FloatBits32, FloatBits64};

verus! {

/// Which of the two recognized rarity-mapping tables a weird-scaled sampler
/// uses. The table named `type_1` selects [`RarityMapper::Type1`]; every other
/// name selects [`RarityMapper::Type2`].
#[derive(Debug, Clone, Copy, PartialEq, Eq)]
pub enum RarityMapper {
    Type1,
    Type2,
}

/// The node kinds that are deliberately unimplemented in this generation
/// mode. An instruction emitted for one of them is tagged with its kind, so a
/// placeholder result stays observably distinguishable from a full one.
#[derive(Debug, Clone, Copy, PartialEq, Eq)]
pub enum StubKind {
    Interpolated,
    FlatCache,
    Cache2D,
    CacheOnce,
    CacheAllInCell,
    BlendDensity,
    BlendAlpha,
    BlendOffset,
    Spline,
}

/// One single-assignment instruction. The value it defines is named by the
/// instruction's position in its sequence; `usize` operand fields are such
/// names. Scalar parameters are IEEE 754 bit patterns.
#[derive(Debug, Clone, PartialEq, Eq)]
pub enum Instr {
    /// Bind a literal value.
    Constant { value: FloatBits64 },
    /// `|x|`.
    Abs { input: usize },
    /// `x * x`.
    Square { input: usize },
    /// `x * x * x`.
    Cube { input: usize },
    /// `x / 2` when the sign bit of `x` is set, else `x`.
    HalfNegative { input: usize },
    /// `x / 4` when the sign bit of `x` is set, else `x`.
    QuarterNegative { input: usize },
    /// Clamp `x` to `[-1, 1]` as `t`, then `t*t/2 - t*t*t/24`.
    Squeeze { input: usize },
    /// `1 / x`.
    Invert { input: usize },
    Add { argument1: usize, argument2: usize },
    Mul { argument1: usize, argument2: usize },
    Min { argument1: usize, argument2: usize },
    Max { argument1: usize, argument2: usize },
    /// Sample the octave-noise generator at
    /// `position * (xz_scale, y_scale, xz_scale)`.
    Noise {
        first_octave: i32,
        amplitudes: Vec<FloatBits64>,
        xz_scale: FloatBits64,
        y_scale: FloatBits64,
    },
    /// As [`Instr::Noise`], with the three shift operands added to the scaled
    /// position component-wise before sampling.
    ShiftedNoise {
        first_octave: i32,
        amplitudes: Vec<FloatBits64>,
        xz_scale: FloatBits64,
        y_scale: FloatBits64,
        shift_x: usize,
        shift_y: usize,
        shift_z: usize,
    },
    /// Sample at `(x/4, 0, z/4)` and multiply the sample by 4.
    ShiftA { first_octave: i32, amplitudes: Vec<FloatBits64> },
    /// Sample at `(z/4, x/4, 0)` and multiply the sample by 4.
    ShiftB { first_octave: i32, amplitudes: Vec<FloatBits64> },
    /// Sample at `position / 4` and multiply the sample by 4.
    Shift { first_octave: i32, amplitudes: Vec<FloatBits64> },
    /// Select a scale from the input value by the rarity-mapping table, sample
    /// at `position / scale`, then take `|sample| * scale`.
    WeirdScaledSampler {
        rarity_value_mapper: RarityMapper,
        first_octave: i32,
        amplitudes: Vec<FloatBits64>,
        input: usize,
    },
    /// `when_in_range` when `min_inclusive <= input < max_exclusive`, else
    /// `when_out_of_range`. Both operands are unconditionally evaluated.
    RangeChoice {
        input: usize,
        min_inclusive: FloatBits64,
        max_exclusive: FloatBits64,
        when_in_range: usize,
        when_out_of_range: usize,
    },
    /// Bound the input to `[min, max]`.
    Clamp { input: usize, min: FloatBits64, max: FloatBits64 },
    /// Linear ramp of the vertical coordinate, clamped to `[from_y, to_y]` and
    /// renormalized between `from_value` and `to_value`.
    ///
    /// A degenerate range with `from_y == to_y` is emitted unchanged and
    /// divides by zero at evaluation time; guarding it silently could mask an
    /// authoring mistake in content, so the compiler deliberately does not.
    YClampedGradient {
        from_y: i32,
        to_y: i32,
        from_value: FloatBits64,
        to_value: FloatBits64,
    },
    /// Call the legacy blended-noise sampler at the current position.
    OldBlendedNoise {
        xz_scale: FloatBits32,
        y_scale: FloatBits32,
        xz_factor: FloatBits32,
        y_factor: FloatBits32,
        smear_scale_multiplier: FloatBits32,
    },
    /// Call the parameterless end-islands sampler at the current position.
    EndIslands,
    /// Placeholder for an unimplemented node kind: pass the operand through
    /// unchanged, tagged with the kind.
    StubPassThrough { kind: StubKind, input: usize },
    /// Placeholder for an unimplemented node kind with no operand: bind a
    /// literal zero, tagged with the kind.
    StubZero { kind: StubKind },
}

/// The mathematical value of an [`Instr`]: identical, with the amplitude
/// vector abstracted to a sequence and operand names widened to `int`.
pub enum InstrV {
    Constant { value: FloatBits64 },
    Abs { input: int },
    Square { input: int },
    Cube { input: int },
    HalfNegative { input: int },
    QuarterNegative { input: int },
    Squeeze { input: int },
    Invert { input: int },
    Add { argument1: int, argument2: int },
    Mul { argument1: int, argument2: int },
    Min { argument1: int, argument2: int },
    Max { argument1: int, argument2: int },
    Noise {
        first_octave: i32,
        amplitudes: Seq<FloatBits64>,
        xz_scale: FloatBits64,
        y_scale: FloatBits64,
    },
    ShiftedNoise {
        first_octave: i32,
        amplitudes: Seq<FloatBits64>,
        xz_scale: FloatBits64,
        y_scale: FloatBits64,
        shift_x: int,
        shift_y: int,
        shift_z: int,
    },
    ShiftA { first_octave: i32, amplitudes: Seq<FloatBits64> },
    ShiftB { first_octave: i32, amplitudes: Seq<FloatBits64> },
    Shift { first_octave: i32, amplitudes: Seq<FloatBits64> },
    WeirdScaledSampler {
        rarity_value_mapper: RarityMapper,
        first_octave: i32,
        amplitudes: Seq<FloatBits64>,
        input: int,
    },
    RangeChoice {
        input: int,
        min_inclusive: FloatBits64,
        max_exclusive: FloatBits64,
        when_in_range: int,
        when_out_of_range: int,
    },
    Clamp { input: int, min: FloatBits64, max: FloatBits64 },
    YClampedGradient {
        from_y: i32,
        to_y: i32,
        from_value: FloatBits64,
        to_value: FloatBits64,
    },
    OldBlendedNoise {
        xz_scale: FloatBits32,
        y_scale: FloatBits32,
        xz_factor: FloatBits32,
        y_factor: FloatBits32,
        smear_scale_multiplier: FloatBits32,
    },
    EndIslands,
    StubPassThrough { kind: StubKind, input: int },
    StubZero { kind: StubKind },
}

impl View for Instr {
    type V = InstrV;

    open spec fn view(&self) -> InstrV {
        match self {
            Instr::Constant { value } => InstrV::Constant { value: *value },
            Instr::Abs { input } => InstrV::Abs { input: *input as int },
            Instr::Square { input } => InstrV::Square { input: *input as int },
            Instr::Cube { input } => InstrV::Cube { input: *input as int },
            Instr::HalfNegative { input } => InstrV::HalfNegative { input: *input as int },
            Instr::QuarterNegative { input } => InstrV::QuarterNegative { input: *input as int },
            Instr::Squeeze { input } => InstrV::Squeeze { input: *input as int },
            Instr::Invert { input } => InstrV::Invert { input: *input as int },
            Instr::Add { argument1, argument2 } => InstrV::Add {
                argument1: *argument1 as int,
                argument2: *argument2 as int,
            },
            Instr::Mul { argument1, argument2 } => InstrV::Mul {
                argument1: *argument1 as int,
                argument2: *argument2 as int,
            },
            Instr::Min { argument1, argument2 } => InstrV::Min {
                argument1: *argument1 as int,
                argument2: *argument2 as int,
            },
            Instr::Max { argument1, argument2 } => InstrV::Max {
                argument1: *argument1 as int,
                argument2: *argument2 as int,
            },
            Instr::Noise { first_octave, amplitudes, xz_scale, y_scale } => InstrV::Noise {
                first_octave: *first_octave,
                amplitudes: amplitudes@,
                xz_scale: *xz_scale,
                y_scale: *y_scale,
            },
            Instr::ShiftedNoise {
                first_octave,
                amplitudes,
                xz_scale,
                y_scale,
                shift_x,
                shift_y,
                shift_z,
            } => InstrV::ShiftedNoise {
                first_octave: *first_octave,
                amplitudes: amplitudes@,
                xz_scale: *xz_scale,
                y_scale: *y_scale,
                shift_x: *shift_x as int,
                shift_y: *shift_y as int,
                shift_z: *shift_z as int,
            },
            Instr::ShiftA { first_octave, amplitudes } => InstrV::ShiftA {
                first_octave: *first_octave,
                amplitudes: amplitudes@,
            },
            Instr::ShiftB { first_octave, amplitudes } => InstrV::ShiftB {
                first_octave: *first_octave,
                amplitudes: amplitudes@,
            },
            Instr::Shift { first_octave, amplitudes } => InstrV::Shift {
                first_octave: *first_octave,
                amplitudes: amplitudes@,
            },
            Instr::WeirdScaledSampler { rarity_value_mapper, first_octave, amplitudes, input } => {
                InstrV::WeirdScaledSampler {
                    rarity_value_mapper: *rarity_value_mapper,
                    first_octave: *first_octave,
                    amplitudes: amplitudes@,
                    input: *input as int,
                }
            },
            Instr::RangeChoice {
                input,
                min_inclusive,
                max_exclusive,
                when_in_range,
                when_out_of_range,
            } => InstrV::RangeChoice {
                input: *input as int,
                min_inclusive: *min_inclusive,
                max_exclusive: *max_exclusive,
                when_in_range: *when_in_range as int,
                when_out_of_range: *when_out_of_range as int,
            },
            Instr::Clamp { input, min, max } => InstrV::Clamp {
                input: *input as int,
                min: *min,
                max: *max,
            },
            Instr::YClampedGradient { from_y, to_y, from_value, to_value } => {
                InstrV::YClampedGradient {
                    from_y: *from_y,
                    to_y: *to_y,
                    from_value: *from_value,
                    to_value: *to_value,
                }
            },
            Instr::OldBlendedNoise {
                xz_scale,
                y_scale,
                xz_factor,
                y_factor,
                smear_scale_multiplier,
            } => InstrV::OldBlendedNoise {
                xz_scale: *xz_scale,
                y_scale: *y_scale,
                xz_factor: *xz_factor,
                y_factor: *y_factor,
                smear_scale_multiplier: *smear_scale_multiplier,
            },
            Instr::EndIslands => InstrV::EndIslands,
            Instr::StubPassThrough { kind, input } => InstrV::StubPassThrough {
                kind: *kind,
                input: *input as int,
            },
            Instr::StubZero { kind } => InstrV::StubZero { kind: *kind },
        }
    }
}

/// The abstract value of an instruction sequence.
pub open spec fn view_instrs(instrs: Seq<Instr>) -> Seq<InstrV> {
    instrs.map_values(|i: Instr| i@)
}

/// Appending an instruction appends its abstract value.
pub broadcast proof fn lemma_view_instrs_push(instrs: Seq<Instr>, instr: Instr)
    ensures
        #[trigger] view_instrs(instrs.push(instr)) == view_instrs(instrs).push(instr@),
{
    assert(view_instrs(instrs.push(instr)) =~= view_instrs(instrs).push(instr@));
}

/// Whether every operand name of `instr` references an instruction strictly
/// before position `at`.
pub open spec fn instr_refs_below(instr: InstrV, at: int) -> bool {
    match instr {
        InstrV::Constant { .. } => true,
        InstrV::Abs { input } => 0 <= input < at,
        InstrV::Square { input } => 0 <= input < at,
        InstrV::Cube { input } => 0 <= input < at,
        InstrV::HalfNegative { input } => 0 <= input < at,
        InstrV::QuarterNegative { input } => 0 <= input < at,
        InstrV::Squeeze { input } => 0 <= input < at,
        InstrV::Invert { input } => 0 <= input < at,
        InstrV::Add { argument1, argument2 } => 0 <= argument1 < at && 0 <= argument2 < at,
        InstrV::Mul { argument1, argument2 } => 0 <= argument1 < at && 0 <= argument2 < at,
        InstrV::Min { argument1, argument2 } => 0 <= argument1 < at && 0 <= argument2 < at,
        InstrV::Max { argument1, argument2 } => 0 <= argument1 < at && 0 <= argument2 < at,
        InstrV::Noise { .. } => true,
        InstrV::ShiftedNoise { shift_x, shift_y, shift_z, .. } => {
            0 <= shift_x < at && 0 <= shift_y < at && 0 <= shift_z < at
        },
        InstrV::ShiftA { .. } => true,
        InstrV::ShiftB { .. } => true,
        InstrV::Shift { .. } => true,
        InstrV::WeirdScaledSampler { input, .. } => 0 <= input < at,
        InstrV::RangeChoice { input, when_in_range, when_out_of_range, .. } => {
            0 <= input < at && 0 <= when_in_range < at && 0 <= when_out_of_range < at
        },
        InstrV::Clamp { input, .. } => 0 <= input < at,
        InstrV::YClampedGradient { .. } => true,
        InstrV::OldBlendedNoise { .. } => true,
        InstrV::EndIslands => true,
        InstrV::StubPassThrough { input, .. } => 0 <= input < at,
        InstrV::StubZero { .. } => true,
    }
}

/// Single-assignment well-formedness of an instruction sequence: each
/// instruction references only instructions before it, so the order is
/// topologically valid and free of forward references.
pub open spec fn instrs_wf(instrs: Seq<InstrV>) -> bool {
    forall|i: int| 0 <= i < instrs.len() ==> instr_refs_below(#[trigger] instrs[i], i)
}

/// Appending an instruction whose operands all reference the existing part
/// of a well-formed sequence keeps the sequence well-formed.
pub broadcast proof fn lemma_instrs_wf_push(instrs: Seq<InstrV>, instr: InstrV)
    ensures
        instrs_wf(instrs) && instr_refs_below(instr, instrs.len() as int) ==> #[trigger] instrs_wf(
            instrs.push(instr),
        ),
{
    if instrs_wf(instrs) && instr_refs_below(instr, instrs.len() as int) {
        assert forall|i: int| 0 <= i < instrs.push(instr).len() implies instr_refs_below(
            #[trigger] instrs.push(instr)[i],
            i,
        ) by {
            if i < instrs.len() {
                assert(instrs.push(instr)[i] == instrs[i]);
            } else {
                assert(instrs.push(instr)[i] == instr);
            }
        }
    }
}

/// A compiled procedure: the ordered instruction list of one top-level
/// density function, plus the name of the instruction holding its final
/// value.
#[derive(Debug, Clone, PartialEq, Eq)]
pub struct Procedure {
    pub instructions: Vec<Instr>,
    pub output: usize,
}

/// The mathematical value of a [`Procedure`].
pub struct ProcedureV {
    pub instructions: Seq<InstrV>,
    pub output: int,
}

impl View for Procedure {
    type V = ProcedureV;

    open spec fn view(&self) -> ProcedureV {
        ProcedureV { instructions: view_instrs(self.instructions@), output: self.output as int }
    }
}

impl Procedure {
    /// Well-formedness: the instruction list is single-assignment and the
    /// output name references its last instruction.
    pub open spec fn wf(&self) -> bool {
        &&& instrs_wf(self@.instructions)
        &&& self@.instructions.len() > 0
        &&& self@.output == self@.instructions.len() - 1
    }
}

/// Why a compilation was aborted. Every error is fatal to the enclosing
/// top-level compilation: no partial instruction list is produced.
#[derive(Debug, Clone, PartialEq, Eq)]
pub enum CompileError {
    /// An expression references an octave-noise generator absent from the
    /// noise registry. Carries the offending key; the conventional content
    /// path the definition was expected at is [`CompileError::noise_content_path`].
    NoiseNotFound { key: String },
    /// An expression references a density function absent from the
    /// density-function registry. Carries the offending key.
    DensityFunctionNotFound { key: String },
    /// The tree reaches the `Beardifier` sentinel, which must never appear in
    /// data-driven content.
    IllegalSentinelReference,
    /// Resolving a reference re-entered a definition that is still being
    /// compiled: the registry's definitions are cyclic, and expanding them
    /// would never terminate. Carries the first key found to re-enter itself.
    CyclicReference { key: String },
    /// The tree holds a `FindTopSurface` node, for which no emission exists
    /// in this generation mode.
    FindTopSurfaceUnsupported,
}

/// The conventional content path at which a noise definition named `key` is
/// expected.
pub open spec fn spec_noise_content_path(key: Seq<char>) -> Seq<char> {
    "data/minecraft/worldgen/noise/"@ + key + ".json"@
}

impl CompileError {
    /// The conventional content path at which the missing noise definition
    /// was expected.
    pub fn noise_content_path(key: &str) -> (r: String)
        ensures
            r@ == spec_noise_content_path(key@),
    {
        let mut path = String::from_str("data/minecraft/worldgen/noise/");
        path.append(key);
        path.append(".json");
        path
    }
}

} // verus!
