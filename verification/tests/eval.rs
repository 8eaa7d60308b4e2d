//! Numeric tests: compiled procedures are interpreted by a small reference
//! evaluator and checked against the documented per-kind semantics.
//!
//! External samplers (octave noise, legacy blended noise, end islands) are
//! outside the compiler; the evaluator stands in for them with a sampler that
//! returns 1.0 everywhere, which makes the surrounding arithmetic of each
//! instruction observable.

use densityfn::ir::{Instr, Procedure};
use densityfn::schema::{DensityFunction, DensityFunctionImpl, WorldGen};

const STAND_IN_SAMPLE: f64 = 1.0;

fn eval(p: &Procedure, pos: (f64, f64, f64)) -> f64 {
    let mut values: Vec<f64> = Vec::with_capacity(p.instructions.len());
    for instr in &p.instructions {
        let v = match instr {
            Instr::Constant { value } => f64::from_bits(*value),
            Instr::Abs { input } => values[*input].abs(),
            Instr::Square { input } => values[*input] * values[*input],
            Instr::Cube { input } => values[*input] * values[*input] * values[*input],
            Instr::HalfNegative { input } => {
                let x = values[*input];
                if x.is_sign_negative() { x / 2.0 } else { x }
            }
            Instr::QuarterNegative { input } => {
                let x = values[*input];
                if x.is_sign_negative() { x / 4.0 } else { x }
            }
            Instr::Squeeze { input } => {
                let t = values[*input].clamp(-1.0, 1.0);
                t * t / 2.0 - t * t * t / 24.0
            }
            Instr::Invert { input } => 1.0 / values[*input],
            Instr::Add { argument1, argument2 } => values[*argument1] + values[*argument2],
            Instr::Mul { argument1, argument2 } => values[*argument1] * values[*argument2],
            Instr::Min { argument1, argument2 } => values[*argument1].min(values[*argument2]),
            Instr::Max { argument1, argument2 } => values[*argument1].max(values[*argument2]),
            Instr::Noise { .. } => STAND_IN_SAMPLE,
            Instr::ShiftedNoise { .. } => STAND_IN_SAMPLE,
            Instr::ShiftA { .. } => STAND_IN_SAMPLE * 4.0,
            Instr::ShiftB { .. } => STAND_IN_SAMPLE * 4.0,
            Instr::Shift { .. } => STAND_IN_SAMPLE * 4.0,
            Instr::WeirdScaledSampler { rarity_value_mapper, input, .. } => {
                let v = values[*input];
                let scale = match rarity_value_mapper {
                    densityfn::ir::RarityMapper::Type1 => {
                        if v < -0.5 {
                            0.75
                        } else if v < 0.0 {
                            1.0
                        } else if v < 0.5 {
                            1.5
                        } else {
                            2.0
                        }
                    }
                    densityfn::ir::RarityMapper::Type2 => {
                        if v < -0.75 {
                            0.5
                        } else if v < -0.5 {
                            0.75
                        } else if v < 0.5 {
                            1.0
                        } else if v < 0.75 {
                            2.0
                        } else {
                            3.0
                        }
                    }
                };
                STAND_IN_SAMPLE.abs() * scale
            }
            Instr::RangeChoice { input, min_inclusive, max_exclusive, when_in_range, when_out_of_range } => {
                let v = values[*input];
                if f64::from_bits(*min_inclusive) <= v && v < f64::from_bits(*max_exclusive) {
                    values[*when_in_range]
                } else {
                    values[*when_out_of_range]
                }
            }
            Instr::Clamp { input, min, max } => {
                values[*input].clamp(f64::from_bits(*min), f64::from_bits(*max))
            }
            Instr::YClampedGradient { from_y, to_y, from_value, to_value } => {
                let from_y = *from_y as f64;
                let to_y = *to_y as f64;
                let from_value = f64::from_bits(*from_value);
                let to_value = f64::from_bits(*to_value);
                from_value + (to_value - from_value) * ((pos.1.clamp(from_y, to_y) - from_y) / (to_y - from_y))
            }
            Instr::OldBlendedNoise { .. } => STAND_IN_SAMPLE,
            Instr::EndIslands => STAND_IN_SAMPLE,
            Instr::StubPassThrough { input, .. } => values[*input],
            Instr::StubZero { .. } => 0.0,
        };
        values.push(v);
    }
    values[p.output]
}

fn empty_worldgen() -> WorldGen {
    WorldGen {
        density_function: Vec::new(),
        noise: Vec::new(),
        noise_settings: Vec::new(),
        world_preset: Vec::new(),
    }
}

fn constant(v: f64) -> DensityFunction {
    DensityFunction::Constant(v.to_bits())
}

fn node(n: DensityFunctionImpl) -> DensityFunction {
    DensityFunction::Impl(Box::new(n))
}

fn compile_eval(tree: &DensityFunction, pos: (f64, f64, f64)) -> f64 {
    eval(&tree.to_function(&empty_worldgen()).unwrap(), pos)
}

fn unary(make: fn(Box<DensityFunction>) -> DensityFunctionImpl, v: f64) -> f64 {
    compile_eval(&node(make(Box::new(constant(v)))), (0.0, 0.0, 0.0))
}

#[test]
fn constant_evaluates_to_itself_at_any_coordinate() {
    for v in [0.0, -0.0, 1.5, -2.25, 1e100, f64::MIN_POSITIVE] {
        for pos in [(0.0, 0.0, 0.0), (1.0, -64.0, 1e6)] {
            assert_eq!(compile_eval(&constant(v), pos).to_bits(), v.to_bits());
        }
    }
}

#[test]
fn add_of_constants_is_exact() {
    for (v1, v2) in [(0.1, 0.2), (1e-30, 1e30), (-5.5, 5.5)] {
        let tree = node(DensityFunctionImpl::Add {
            argument1: Box::new(constant(v1)),
            argument2: Box::new(constant(v2)),
        });
        let got = compile_eval(&tree, (3.0, 2.0, 1.0));
        assert_eq!(got.to_bits(), (v1 + v2).to_bits());
    }
}

#[test]
fn range_choice_includes_lower_bound_excludes_upper() {
    let choice = |input: f64| {
        node(DensityFunctionImpl::RangeChoice {
            input: Box::new(constant(input)),
            min_inclusive: (-1.0f64).to_bits(),
            max_exclusive: 2.0f64.to_bits(),
            when_in_range: Box::new(constant(10.0)),
            when_out_of_range: Box::new(constant(20.0)),
        })
    };
    assert_eq!(compile_eval(&choice(-1.0), (0.0, 0.0, 0.0)), 10.0);
    assert_eq!(compile_eval(&choice(2.0), (0.0, 0.0, 0.0)), 20.0);
    assert_eq!(compile_eval(&choice(0.0), (0.0, 0.0, 0.0)), 10.0);
    assert_eq!(compile_eval(&choice(-1.0001), (0.0, 0.0, 0.0)), 20.0);
}

fn weird_scale(mapper: &str, input: f64) -> f64 {
    let mut wg = empty_worldgen();
    wg.noise.push((
        String::from("minecraft:cave"),
        densityfn::schema::Noise { first_octave: -7, amplitudes: vec![1.0f64.to_bits()] },
    ));
    let tree = node(DensityFunctionImpl::WeirdScaledSampler {
        rarity_value_mapper: String::from(mapper),
        noise: String::from("minecraft:cave"),
        input: Box::new(constant(input)),
    });
    eval(&tree.to_function(&wg).unwrap(), (0.0, 0.0, 0.0))
}

#[test]
fn weird_scaled_sampler_type_1_table() {
    let inputs = [-1.0, -0.5, 0.0, 0.5, 1.0];
    let expected = [0.75, 1.0, 1.5, 2.0, 2.0];
    for (v, want) in inputs.iter().zip(expected.iter()) {
        assert_eq!(weird_scale("type_1", *v), *want);
    }
}

#[test]
fn weird_scaled_sampler_other_table() {
    let inputs = [-1.0, -0.5, 0.0, 0.5, 1.0];
    let expected = [0.5, 1.0, 1.0, 2.0, 3.0];
    for (v, want) in inputs.iter().zip(expected.iter()) {
        assert_eq!(weird_scale("type_2", *v), *want);
        assert_eq!(weird_scale("unknown_table", *v), *want);
    }
}

#[test]
fn unary_transforms_follow_closed_forms() {
    assert_eq!(unary(|argument| DensityFunctionImpl::Abs { argument }, -3.0), 3.0);
    assert_eq!(unary(|argument| DensityFunctionImpl::Square { argument }, -3.0), 9.0);
    assert_eq!(unary(|argument| DensityFunctionImpl::Cube { argument }, -3.0), -27.0);
    assert_eq!(unary(|argument| DensityFunctionImpl::Invert { argument }, 4.0), 0.25);
    let t: f64 = 0.5;
    assert_eq!(
        unary(|argument| DensityFunctionImpl::Squeeze { argument }, 0.5),
        t * t / 2.0 - t * t * t / 24.0
    );
    // values beyond [-1, 1] are clamped before the polynomial
    assert_eq!(
        unary(|argument| DensityFunctionImpl::Squeeze { argument }, 7.0),
        1.0 / 2.0 - 1.0 / 24.0
    );
}

#[test]
fn half_negative_uses_the_sign_bit() {
    assert_eq!(unary(|argument| DensityFunctionImpl::HalfNegative { argument }, -8.0), -4.0);
    assert_eq!(unary(|argument| DensityFunctionImpl::HalfNegative { argument }, 8.0), 8.0);
    // negative zero routes to the negative branch
    let z = unary(|argument| DensityFunctionImpl::HalfNegative { argument }, -0.0);
    assert_eq!(z.to_bits(), (-0.0f64).to_bits());
    assert_eq!(unary(|argument| DensityFunctionImpl::QuarterNegative { argument }, -8.0), -2.0);
    assert_eq!(unary(|argument| DensityFunctionImpl::QuarterNegative { argument }, 8.0), 8.0);
}

#[test]
fn binary_combinators_follow_std_semantics() {
    let bin = |make: fn(Box<DensityFunction>, Box<DensityFunction>) -> DensityFunctionImpl,
               v1: f64,
               v2: f64| {
        compile_eval(
            &node(make(Box::new(constant(v1)), Box::new(constant(v2)))),
            (0.0, 0.0, 0.0),
        )
    };
    assert_eq!(
        bin(|argument1, argument2| DensityFunctionImpl::Mul { argument1, argument2 }, 3.0, -2.0),
        -6.0
    );
    assert_eq!(
        bin(|argument1, argument2| DensityFunctionImpl::Min { argument1, argument2 }, 3.0, -2.0),
        -2.0
    );
    assert_eq!(
        bin(|argument1, argument2| DensityFunctionImpl::Max { argument1, argument2 }, 3.0, -2.0),
        3.0
    );
}

#[test]
fn clamp_bounds_its_input() {
    let clamp = |v: f64| {
        node(DensityFunctionImpl::Clamp {
            input: Box::new(constant(v)),
            min: (-1.0f64).to_bits(),
            max: 1.0f64.to_bits(),
        })
    };
    assert_eq!(compile_eval(&clamp(5.0), (0.0, 0.0, 0.0)), 1.0);
    assert_eq!(compile_eval(&clamp(-5.0), (0.0, 0.0, 0.0)), -1.0);
    assert_eq!(compile_eval(&clamp(0.25), (0.0, 0.0, 0.0)), 0.25);
}

#[test]
fn y_clamped_gradient_ramps_with_height() {
    let tree = node(DensityFunctionImpl::YClampedGradient {
        from_y: 0,
        to_y: 10,
        from_value: 0.0f64.to_bits(),
        to_value: 1.0f64.to_bits(),
    });
    let p = tree.to_function(&empty_worldgen()).unwrap();
    assert_eq!(eval(&p, (0.0, 5.0, 0.0)), 0.5);
    assert_eq!(eval(&p, (0.0, -3.0, 0.0)), 0.0);
    assert_eq!(eval(&p, (0.0, 25.0, 0.0)), 1.0);
}

#[test]
fn stubs_evaluate_as_documented_placeholders() {
    // pass-through stubs hand their operand through unchanged
    assert_eq!(unary(|argument| DensityFunctionImpl::Interpolated { argument }, 6.5), 6.5);
    assert_eq!(unary(|argument| DensityFunctionImpl::BlendDensity { argument }, 6.5), 6.5);
    // operand-less stubs bind a literal zero
    assert_eq!(compile_eval(&node(DensityFunctionImpl::BlendAlpha), (0.0, 0.0, 0.0)), 0.0);
    assert_eq!(compile_eval(&node(DensityFunctionImpl::BlendOffset), (0.0, 0.0, 0.0)), 0.0);
}
