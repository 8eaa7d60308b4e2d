//! Data model for world-generation content: density-function expression
//! trees, octave-noise descriptors, generation settings and the name-keyed
//! registries that hold them.
//!
//! Scalar parameters that the source format stores as floating-point numbers
//! are carried here as IEEE 754 bit patterns (`u64` for double precision,
//! `u32` for single precision): the compiler never performs floating-point
//! arithmetic itself, it only moves these values into emitted instructions.
//! Name-keyed registries are association vectors of `(key, value)` pairs with
//! unique keys; insertion order carries no meaning.

use vstd::prelude::*;

verus! {

/// Bit pattern of an IEEE 754 double-precision (64-bit) value.
pub type FloatBits64 = u64;

/// Bit pattern of an IEEE 754 single-precision (32-bit) value.
pub type FloatBits32 = u32;

/// A reference-or-value expression node: either a textual reference into the
/// density-function registry, an inline numeric literal, or a fully-specified
/// operator node.
///
/// Every `Id` must resolve to a registry entry at code-generation time; a
/// dangling reference is a hard error, never a silent default.
#[derive(Debug, PartialEq, Eq)]
pub enum DensityFunction {
    Id(String),
    Constant(FloatBits64),
    Impl(Box<DensityFunctionImpl>),
}

/// The closed, tagged set of operator kinds of the expression language.
///
/// Operands are either nested [`DensityFunction`] trees, scalar parameters, or
/// string references into the noise registry.
#[derive(Debug, PartialEq, Eq)]
pub enum DensityFunctionImpl {
    Interpolated { argument: Box<DensityFunction> },
    FlatCache { argument: Box<DensityFunction> },
    Cache2D { argument: Box<DensityFunction> },
    CacheOnce { argument: Box<DensityFunction> },
    CacheAllInCell { argument: Box<DensityFunction> },
    Abs { argument: Box<DensityFunction> },
    Square { argument: Box<DensityFunction> },
    Cube { argument: Box<DensityFunction> },
    HalfNegative { argument: Box<DensityFunction> },
    QuarterNegative { argument: Box<DensityFunction> },
    Squeeze { argument: Box<DensityFunction> },
    Invert { argument: Box<DensityFunction> },
    Add { argument1: Box<DensityFunction>, argument2: Box<DensityFunction> },
    Mul { argument1: Box<DensityFunction>, argument2: Box<DensityFunction> },
    Min { argument1: Box<DensityFunction>, argument2: Box<DensityFunction> },
    Max { argument1: Box<DensityFunction>, argument2: Box<DensityFunction> },
    BlendAlpha,
    BlendOffset,
    BlendDensity { argument: Box<DensityFunction> },
    Beardifier,
    OldBlendedNoise {
        xz_scale: FloatBits32,
        y_scale: FloatBits32,
        xz_factor: FloatBits32,
        y_factor: FloatBits32,
        smear_scale_multiplier: FloatBits32,
    },
    Noise { noise: String, xz_scale: FloatBits64, y_scale: FloatBits64 },
    EndIslands,
    WeirdScaledSampler {
        rarity_value_mapper: String,
        noise: String,
        input: Box<DensityFunction>,
    },
    ShiftedNoise {
        noise: String,
        xz_scale: FloatBits64,
        y_scale: FloatBits64,
        shift_x: Box<DensityFunction>,
        shift_y: Box<DensityFunction>,
        shift_z: Box<DensityFunction>,
    },
    RangeChoice {
        input: Box<DensityFunction>,
        min_inclusive: FloatBits64,
        max_exclusive: FloatBits64,
        when_in_range: Box<DensityFunction>,
        when_out_of_range: Box<DensityFunction>,
    },
    ShiftA { argument: String },
    ShiftB { argument: String },
    Shift { argument: String },
    Clamp { input: Box<DensityFunction>, min: FloatBits64, max: FloatBits64 },
    Spline { spline: Spline },
    Constant { argument: FloatBits64 },
    YClampedGradient {
        from_y: i32,
        to_y: i32,
        from_value: FloatBits64,
        to_value: FloatBits64,
    },
    FindTopSurface {
        density: Box<DensityFunction>,
        upper_bound: Box<DensityFunction>,
        lower_bound: i32,
        cell_height: i32,
    },
}

/// Identifies one octave-band noise generator: a starting frequency exponent
/// and an ordered sequence of per-octave amplitudes.
#[derive(Debug, PartialEq, Eq)]
pub struct Noise {
    pub first_octave: i32,
    pub amplitudes: Vec<FloatBits64>,
}

/// A piecewise curve: either a constant, or control points over a coordinate
/// tree, each point carrying a location, a derivative and a nested value.
#[derive(Debug, PartialEq, Eq)]
pub enum Spline {
    Const(FloatBits32),
    SplineImpl { coordinate: Box<DensityFunction>, points: Vec<SplinePoint> },
}

/// One control point of a [`Spline`].
#[derive(Debug, PartialEq, Eq)]
pub struct SplinePoint {
    pub location: FloatBits32,
    pub value: Box<Spline>,
    pub derivative: FloatBits32,
}

/// The four name-keyed registries of loaded world-generation content.
///
/// Registries are built once at load time and read-only afterwards; the
/// compiler takes a borrow and never mutates them. Keys are namespaced
/// identifiers; within one registry keys are unique and order carries no
/// meaning.
#[derive(Debug, PartialEq, Eq)]
pub struct WorldGen {
    pub density_function: Vec<(String, DensityFunction)>,
    pub noise: Vec<(String, Noise)>,
    pub noise_settings: Vec<(String, NoiseSettings)>,
    pub world_preset: Vec<(String, WorldPreset)>,
}

/// A named set of dimensions.
#[derive(Debug, PartialEq, Eq)]
pub struct WorldPreset {
    pub dimensions: Vec<(String, Dimension)>,
}

/// One dimension: its type name and the generator that shapes it.
#[derive(Debug, PartialEq, Eq)]
pub struct Dimension {
    pub dimension_type: String,
    pub generator: Generator,
}

/// How a dimension's terrain is generated.
#[derive(Debug, PartialEq, Eq)]
pub enum Generator {
    Flat { settings: FlatGeneratorSettings },
    Noise { settings: NoiseGeneratorSettings, biome_source: NoiseGeneratorBiomeSource },
    Debug,
}

/// Settings of the flat generator.
#[derive(Debug, PartialEq, Eq)]
pub struct FlatGeneratorSettings {
    pub layers: Vec<FlatGeneratorLayer>,
    pub biome: String,
    pub lakes: Option<bool>,
    pub features: Option<bool>,
    pub structure_overrides: Option<Vec<String>>,
}

/// One layer of the flat generator: a height and a block name.
#[derive(Debug, PartialEq, Eq)]
pub struct FlatGeneratorLayer {
    pub height: i32,
    pub block: String,
}

/// Where the noise generator takes its biomes from.
#[derive(Debug, PartialEq, Eq)]
pub enum NoiseGeneratorBiomeSource {
    CheckerBoard { biomes: Vec<String>, scale: i32 },
    Fixed { biome: String },
    MultiNoise(MultiNoiseSource),
    TheEnd,
}

/// A multi-noise biome source: a named preset or an inline biome list.
#[derive(Debug, PartialEq, Eq)]
pub enum MultiNoiseSource {
    Preset { preset: String },
    Inline { biomes: Vec<Biome> },
}

/// A biome with the climate parameters it is placed at.
#[derive(Debug, PartialEq, Eq)]
pub struct Biome {
    pub biome: String,
    pub parameters: BiomeParameters,
}

/// The climate parameter point or range of one biome.
#[derive(Debug, PartialEq, Eq)]
pub struct BiomeParameters {
    pub temperature: BiomeParameter,
    pub continentalness: BiomeParameter,
    pub depth: BiomeParameter,
    pub erosion: BiomeParameter,
    pub humidity: BiomeParameter,
    pub offset: BiomeParameter,
    pub weirdness: BiomeParameter,
}

/// One climate parameter, written in the source format as an object, a
/// two-element tuple, or a bare number. The shapes are disambiguated in that
/// order, most specific first.
#[derive(Debug, PartialEq, Eq)]
pub enum BiomeParameter {
    Object { min: FloatBits32, max: FloatBits32 },
    Tuple(FloatBits32, FloatBits32),
    Single(FloatBits32),
}

/// Noise generator settings: a reference into the noise-settings registry or
/// an inline definition. A bare string is a reference; an object is inline.
#[derive(Debug, PartialEq, Eq)]
pub enum NoiseGeneratorSettings {
    Id(String),
    Inline(Box<NoiseSettings>),
}

/// The full set of named density-function routes plus physical parameters and
/// the surface-rule tree of one noise-settings document.
#[derive(Debug, PartialEq, Eq)]
pub struct NoiseSettings {
    pub sea_level: i32,
    pub default_block: BlockState,
    pub default_fluid: BlockState,
    pub disable_mob_generation: bool,
    pub ore_veins_enabled: bool,
    pub aquifers_enabled: bool,
    pub legacy_random_source: bool,
    pub spawn_target: Vec<BiomeParameters>,
    pub noise: NoiseParams,
    pub noise_router: NoiseRouter,
    pub surface_rule: SurfaceRule,
}

/// Vertical extent and cell sizing of generated noise.
#[derive(Debug, PartialEq, Eq)]
pub struct NoiseParams {
    pub min_y: i32,
    pub height: i32,
    pub size_horizontal: u8,
    pub size_vertical: u8,
}

/// The named top-level density functions ("routes") of one noise-settings
/// document, each an independent compilation entry point.
#[derive(Debug, PartialEq, Eq)]
pub struct NoiseRouter {
    pub initial_density_without_jaggedness: DensityFunction,
    pub final_density: DensityFunction,
    pub barrier: DensityFunction,
    pub fluid_level_floodedness: DensityFunction,
    pub fluid_level_spread: DensityFunction,
    pub lava: DensityFunction,
    pub vein_toggle: DensityFunction,
    pub vein_ridged: DensityFunction,
    pub vein_gap: DensityFunction,
    pub temperature: DensityFunction,
    pub vegetation: DensityFunction,
    pub continents: DensityFunction,
    pub erosion: DensityFunction,
    pub depth: DensityFunction,
    pub ridges: DensityFunction,
}

/// A block-placement rule tree.
#[derive(Debug, PartialEq, Eq)]
pub enum SurfaceRule {
    BandLands,
    Block { result_state: BlockState },
    Condition { if_true: SurfaceCondition, then_run: Box<SurfaceRule> },
    Sequence { sequence: Vec<SurfaceRule> },
}

/// A condition guarding a [`SurfaceRule`].
#[derive(Debug, PartialEq, Eq)]
pub enum SurfaceCondition {
    AbovePreliminarySurface,
    Biome { biome_is: Vec<String> },
    Hole,
    NoiseThreshold { max_threshold: FloatBits64, min_threshold: FloatBits64, noise: String },
    Not { invert: Box<SurfaceCondition> },
    Steep,
    StoneDepth {
        surface_type: SurfaceType,
        offset: i32,
        add_surface_depth: bool,
        secondary_depth_range: i32,
    },
    Temperature,
    VerticalGradient {
        random_name: String,
        true_at_and_below: VerticalAnchor,
        false_at_and_above: VerticalAnchor,
    },
    Water { offset: i32, surface_depth_multiplier: i32, add_stone_depth: bool },
    YAbove { anchor: VerticalAnchor, surface_depth_multiplier: i32, add_stone_depth: bool },
}

/// Which face of a stone layer a depth test measures from.
#[derive(Debug, PartialEq, Eq)]
pub enum SurfaceType {
    Floor,
    Ceiling,
}

/// A vertical position, anchored absolutely or relative to the world's
/// bottom or top.
#[derive(Debug, PartialEq, Eq)]
pub enum VerticalAnchor {
    Absolute { absolute: i32 },
    AboveBottom { above_bottom: i32 },
    BelowTop { below_top: i32 },
}

/// A block: its name and optional property map.
#[derive(Debug, PartialEq, Eq)]
pub struct BlockState {
    pub name: String,
    pub properties: Option<Vec<(String, String)>>,
}

/// Whether the keys of an association vector are pairwise distinct.
pub open spec fn keys_unique<T>(entries: Seq<(String, T)>) -> bool {
    forall|i: int, j: int|
        0 <= i < j < entries.len() ==> #[trigger] entries[i].0@ != #[trigger] entries[j].0@
}

impl WorldGen {
    /// Registry well-formedness: within each registry, keys are unique.
    pub open spec fn well_formed(&self) -> bool {
        &&& keys_unique(self.density_function@)
        &&& keys_unique(self.noise@)
        &&& keys_unique(self.noise_settings@)
        &&& keys_unique(self.world_preset@)
    }
}

} // verus!
