//! Structural tests of compilation: emitted instruction lists, registry
//! resolution, failure modes and determinism.

use densityfn::ir::{CompileError, Instr, Procedure, RarityMapper, StubKind};
use densityfn::schema::{DensityFunction, DensityFunctionImpl, Noise, WorldGen};

fn empty_worldgen() -> WorldGen {
    WorldGen {
        density_function: Vec::new(),
        noise: Vec::new(),
        noise_settings: Vec::new(),
        world_preset: Vec::new(),
    }
}

fn constant(v: f64) -> DensityFunction {
    DensityFunction::Constant(v.to_bits())
}

fn node(n: DensityFunctionImpl) -> DensityFunction {
    DensityFunction::Impl(Box::new(n))
}

fn compile(tree: &DensityFunction) -> Result<Procedure, CompileError> {
    tree.to_function(&empty_worldgen())
}

#[test]
fn constant_compiles_to_single_instruction() {
    let p = compile(&constant(5.25)).unwrap();
    assert_eq!(p.instructions, vec![Instr::Constant { value: 5.25f64.to_bits() }]);
    assert_eq!(p.output, 0);
}

#[test]
fn constant_node_form_compiles_like_bare_constant() {
    let bare = compile(&constant(-3.5)).unwrap();
    let explicit = compile(&node(DensityFunctionImpl::Constant {
        argument: (-3.5f64).to_bits(),
    }))
    .unwrap();
    assert_eq!(bare, explicit);
}

#[test]
fn add_of_constants_emits_children_then_parent() {
    let tree = node(DensityFunctionImpl::Add {
        argument1: Box::new(constant(1.0)),
        argument2: Box::new(constant(2.0)),
    });
    let p = compile(&tree).unwrap();
    assert_eq!(
        p.instructions,
        vec![
            Instr::Constant { value: 1.0f64.to_bits() },
            Instr::Constant { value: 2.0f64.to_bits() },
            Instr::Add { argument1: 0, argument2: 1 },
        ]
    );
    assert_eq!(p.output, 2);
}

#[test]
fn missing_density_function_reports_exact_key() {
    let tree = DensityFunction::Id(String::from("minecraft:absent"));
    let err = compile(&tree).unwrap_err();
    assert_eq!(
        err,
        CompileError::DensityFunctionNotFound { key: String::from("minecraft:absent") }
    );
}

#[test]
fn missing_noise_reports_exact_key() {
    let tree = node(DensityFunctionImpl::Noise {
        noise: String::from("minecraft:missing"),
        xz_scale: 1.0f64.to_bits(),
        y_scale: 1.0f64.to_bits(),
    });
    let err = compile(&tree).unwrap_err();
    assert_eq!(err, CompileError::NoiseNotFound { key: String::from("minecraft:missing") });
}

#[test]
fn noise_content_path_is_conventional() {
    assert_eq!(
        CompileError::noise_content_path("cave"),
        "data/minecraft/worldgen/noise/cave.json"
    );
}

#[test]
fn compiling_twice_is_deterministic() {
    let mut wg = empty_worldgen();
    wg.density_function
        .push((String::from("minecraft:one"), constant(1.0)));
    let tree = node(DensityFunctionImpl::Mul {
        argument1: Box::new(DensityFunction::Id(String::from("minecraft:one"))),
        argument2: Box::new(constant(4.0)),
    });
    let p1 = tree.to_function(&wg).unwrap();
    let p2 = tree.to_function(&wg).unwrap();
    assert_eq!(p1, p2);
}

#[test]
fn beardifier_fails_with_sentinel_error() {
    let tree = node(DensityFunctionImpl::Add {
        argument1: Box::new(constant(1.0)),
        argument2: Box::new(node(DensityFunctionImpl::Beardifier)),
    });
    let err = compile(&tree).unwrap_err();
    assert_eq!(err, CompileError::IllegalSentinelReference);
}

#[test]
fn beardifier_nested_deep_still_fails() {
    let tree = node(DensityFunctionImpl::Abs {
        argument: Box::new(node(DensityFunctionImpl::Clamp {
            input: Box::new(node(DensityFunctionImpl::Beardifier)),
            min: 0.0f64.to_bits(),
            max: 1.0f64.to_bits(),
        })),
    });
    assert_eq!(compile(&tree).unwrap_err(), CompileError::IllegalSentinelReference);
}

fn assert_pass_through_stub(make: fn(Box<DensityFunction>) -> DensityFunctionImpl, kind: StubKind) {
    let tree = node(make(Box::new(constant(7.0))));
    let p = compile(&tree).unwrap();
    assert_eq!(
        p.instructions,
        vec![
            Instr::Constant { value: 7.0f64.to_bits() },
            Instr::StubPassThrough { kind, input: 0 },
        ]
    );
    assert_eq!(p.output, 1);
}

#[test]
fn interpolated_is_tagged_unimplemented() {
    assert_pass_through_stub(
        |argument| DensityFunctionImpl::Interpolated { argument },
        StubKind::Interpolated,
    );
}

#[test]
fn flat_cache_is_tagged_unimplemented() {
    assert_pass_through_stub(
        |argument| DensityFunctionImpl::FlatCache { argument },
        StubKind::FlatCache,
    );
}

#[test]
fn cache_2d_is_tagged_unimplemented() {
    assert_pass_through_stub(
        |argument| DensityFunctionImpl::Cache2D { argument },
        StubKind::Cache2D,
    );
}

#[test]
fn cache_once_is_tagged_unimplemented() {
    assert_pass_through_stub(
        |argument| DensityFunctionImpl::CacheOnce { argument },
        StubKind::CacheOnce,
    );
}

#[test]
fn cache_all_in_cell_is_tagged_unimplemented() {
    assert_pass_through_stub(
        |argument| DensityFunctionImpl::CacheAllInCell { argument },
        StubKind::CacheAllInCell,
    );
}

#[test]
fn blend_density_is_tagged_unimplemented() {
    assert_pass_through_stub(
        |argument| DensityFunctionImpl::BlendDensity { argument },
        StubKind::BlendDensity,
    );
}

#[test]
fn blend_alpha_is_tagged_unimplemented() {
    let p = compile(&node(DensityFunctionImpl::BlendAlpha)).unwrap();
    assert_eq!(p.instructions, vec![Instr::StubZero { kind: StubKind::BlendAlpha }]);
    assert_eq!(p.output, 0);
}

#[test]
fn blend_offset_is_tagged_unimplemented() {
    let p = compile(&node(DensityFunctionImpl::BlendOffset)).unwrap();
    assert_eq!(p.instructions, vec![Instr::StubZero { kind: StubKind::BlendOffset }]);
    assert_eq!(p.output, 0);
}

#[test]
fn spline_is_tagged_unimplemented() {
    let p = compile(&node(DensityFunctionImpl::Spline {
        spline: densityfn::schema::Spline::Const(0.5f32.to_bits()),
    }))
    .unwrap();
    assert_eq!(p.instructions, vec![Instr::StubZero { kind: StubKind::Spline }]);
    assert_eq!(p.output, 0);
}

#[test]
fn find_top_surface_fails_loudly() {
    let tree = node(DensityFunctionImpl::FindTopSurface {
        density: Box::new(constant(0.0)),
        upper_bound: Box::new(constant(1.0)),
        lower_bound: 0,
        cell_height: 4,
    });
    assert_eq!(compile(&tree).unwrap_err(), CompileError::FindTopSurfaceUnsupported);
}

#[test]
fn id_resolution_inlines_referenced_tree() {
    let mut wg = empty_worldgen();
    wg.density_function
        .push((String::from("minecraft:one"), constant(1.0)));
    let tree = DensityFunction::Id(String::from("minecraft:one"));
    let p = tree.to_function(&wg).unwrap();
    assert_eq!(p.instructions, vec![Instr::Constant { value: 1.0f64.to_bits() }]);
    assert_eq!(p.output, 0);
}

#[test]
fn shared_reference_is_recompiled_without_dedup() {
    let mut wg = empty_worldgen();
    wg.density_function
        .push((String::from("minecraft:one"), constant(1.0)));
    let tree = node(DensityFunctionImpl::Add {
        argument1: Box::new(DensityFunction::Id(String::from("minecraft:one"))),
        argument2: Box::new(DensityFunction::Id(String::from("minecraft:one"))),
    });
    let p = tree.to_function(&wg).unwrap();
    assert_eq!(
        p.instructions,
        vec![
            Instr::Constant { value: 1.0f64.to_bits() },
            Instr::Constant { value: 1.0f64.to_bits() },
            Instr::Add { argument1: 0, argument2: 1 },
        ]
    );
}

#[test]
fn self_cycle_is_detected() {
    let mut wg = empty_worldgen();
    wg.density_function.push((
        String::from("minecraft:loop"),
        DensityFunction::Id(String::from("minecraft:loop")),
    ));
    let tree = DensityFunction::Id(String::from("minecraft:loop"));
    assert_eq!(
        tree.to_function(&wg).unwrap_err(),
        CompileError::CyclicReference { key: String::from("minecraft:loop") }
    );
}

#[test]
fn mutual_cycle_reports_reentered_key() {
    let mut wg = empty_worldgen();
    wg.density_function.push((
        String::from("minecraft:a"),
        DensityFunction::Id(String::from("minecraft:b")),
    ));
    wg.density_function.push((
        String::from("minecraft:b"),
        DensityFunction::Id(String::from("minecraft:a")),
    ));
    let tree = DensityFunction::Id(String::from("minecraft:a"));
    assert_eq!(
        tree.to_function(&wg).unwrap_err(),
        CompileError::CyclicReference { key: String::from("minecraft:a") }
    );
}

fn worldgen_with_cave_noise() -> WorldGen {
    let mut wg = empty_worldgen();
    wg.noise.push((
        String::from("minecraft:cave"),
        Noise { first_octave: -7, amplitudes: vec![1.0f64.to_bits(), 0.5f64.to_bits()] },
    ));
    wg
}

#[test]
fn noise_resolution_inlines_octave_parameters() {
    let wg = worldgen_with_cave_noise();
    let tree = node(DensityFunctionImpl::Noise {
        noise: String::from("minecraft:cave"),
        xz_scale: 0.25f64.to_bits(),
        y_scale: 0.5f64.to_bits(),
    });
    let p = tree.to_function(&wg).unwrap();
    assert_eq!(
        p.instructions,
        vec![Instr::Noise {
            first_octave: -7,
            amplitudes: vec![1.0f64.to_bits(), 0.5f64.to_bits()],
            xz_scale: 0.25f64.to_bits(),
            y_scale: 0.5f64.to_bits(),
        }]
    );
}

#[test]
fn weird_scaled_sampler_selects_mapper_table_by_name() {
    let wg = worldgen_with_cave_noise();
    for (name, expected) in [
        ("type_1", RarityMapper::Type1),
        ("type_2", RarityMapper::Type2),
        ("anything_else", RarityMapper::Type2),
    ] {
        let tree = node(DensityFunctionImpl::WeirdScaledSampler {
            rarity_value_mapper: String::from(name),
            noise: String::from("minecraft:cave"),
            input: Box::new(constant(0.0)),
        });
        let p = tree.to_function(&wg).unwrap();
        match &p.instructions[1] {
            Instr::WeirdScaledSampler { rarity_value_mapper, input, .. } => {
                assert_eq!(*rarity_value_mapper, expected);
                assert_eq!(*input, 0);
            }
            other => panic!("expected a weird-scaled sampler instruction, got {:?}", other),
        }
    }
}

#[test]
fn shift_helpers_emit_distinct_instructions() {
    let wg = worldgen_with_cave_noise();
    let amplitudes = vec![1.0f64.to_bits(), 0.5f64.to_bits()];
    let a = node(DensityFunctionImpl::ShiftA { argument: String::from("minecraft:cave") })
        .to_function(&wg)
        .unwrap();
    assert_eq!(
        a.instructions,
        vec![Instr::ShiftA { first_octave: -7, amplitudes: amplitudes.clone() }]
    );
    let b = node(DensityFunctionImpl::ShiftB { argument: String::from("minecraft:cave") })
        .to_function(&wg)
        .unwrap();
    assert_eq!(
        b.instructions,
        vec![Instr::ShiftB { first_octave: -7, amplitudes: amplitudes.clone() }]
    );
    let s = node(DensityFunctionImpl::Shift { argument: String::from("minecraft:cave") })
        .to_function(&wg)
        .unwrap();
    assert_eq!(s.instructions, vec![Instr::Shift { first_octave: -7, amplitudes }]);
}

#[test]
fn shifted_noise_emits_shifts_in_order() {
    let wg = worldgen_with_cave_noise();
    let tree = node(DensityFunctionImpl::ShiftedNoise {
        noise: String::from("minecraft:cave"),
        xz_scale: 1.0f64.to_bits(),
        y_scale: 1.0f64.to_bits(),
        shift_x: Box::new(constant(1.0)),
        shift_y: Box::new(constant(2.0)),
        shift_z: Box::new(constant(3.0)),
    });
    let p = tree.to_function(&wg).unwrap();
    assert_eq!(p.instructions.len(), 4);
    assert_eq!(p.instructions[0], Instr::Constant { value: 1.0f64.to_bits() });
    assert_eq!(p.instructions[1], Instr::Constant { value: 2.0f64.to_bits() });
    assert_eq!(p.instructions[2], Instr::Constant { value: 3.0f64.to_bits() });
    match &p.instructions[3] {
        Instr::ShiftedNoise { shift_x, shift_y, shift_z, first_octave, .. } => {
            assert_eq!((*shift_x, *shift_y, *shift_z), (0, 1, 2));
            assert_eq!(*first_octave, -7);
        }
        other => panic!("expected a shifted-noise instruction, got {:?}", other),
    }
}

#[test]
fn range_choice_emits_both_branches_unconditionally() {
    let tree = node(DensityFunctionImpl::RangeChoice {
        input: Box::new(constant(0.0)),
        min_inclusive: 0.0f64.to_bits(),
        max_exclusive: 1.0f64.to_bits(),
        when_in_range: Box::new(constant(10.0)),
        when_out_of_range: Box::new(constant(20.0)),
    });
    let p = compile(&tree).unwrap();
    assert_eq!(
        p.instructions,
        vec![
            Instr::Constant { value: 0.0f64.to_bits() },
            Instr::Constant { value: 10.0f64.to_bits() },
            Instr::Constant { value: 20.0f64.to_bits() },
            Instr::RangeChoice {
                input: 0,
                min_inclusive: 0.0f64.to_bits(),
                max_exclusive: 1.0f64.to_bits(),
                when_in_range: 1,
                when_out_of_range: 2,
            },
        ]
    );
}

#[test]
fn old_blended_noise_carries_all_five_parameters() {
    let tree = node(DensityFunctionImpl::OldBlendedNoise {
        xz_scale: 0.25f32.to_bits(),
        y_scale: 0.125f32.to_bits(),
        xz_factor: 80.0f32.to_bits(),
        y_factor: 160.0f32.to_bits(),
        smear_scale_multiplier: 8.0f32.to_bits(),
    });
    let p = compile(&tree).unwrap();
    assert_eq!(
        p.instructions,
        vec![Instr::OldBlendedNoise {
            xz_scale: 0.25f32.to_bits(),
            y_scale: 0.125f32.to_bits(),
            xz_factor: 80.0f32.to_bits(),
            y_factor: 160.0f32.to_bits(),
            smear_scale_multiplier: 8.0f32.to_bits(),
        }]
    );
}

#[test]
fn end_islands_compiles_to_sampler_call() {
    let p = compile(&node(DensityFunctionImpl::EndIslands)).unwrap();
    assert_eq!(p.instructions, vec![Instr::EndIslands]);
}

#[test]
fn resolver_returns_stored_definitions() {
    let mut wg = worldgen_with_cave_noise();
    wg.density_function
        .push((String::from("minecraft:one"), constant(1.0)));
    assert_eq!(
        wg.resolve_density_function(&String::from("minecraft:one")).unwrap(),
        &constant(1.0)
    );
    assert_eq!(
        wg.resolve_noise(&String::from("minecraft:cave")).unwrap(),
        &Noise { first_octave: -7, amplitudes: vec![1.0f64.to_bits(), 0.5f64.to_bits()] }
    );
    assert_eq!(
        wg.resolve_noise(&String::from("minecraft:absent")).unwrap_err(),
        CompileError::NoiseNotFound { key: String::from("minecraft:absent") }
    );
}

#[test]
fn missing_reference_nested_in_larger_tree_still_aborts() {
    let tree = node(DensityFunctionImpl::Mul {
        argument1: Box::new(constant(2.0)),
        argument2: Box::new(node(DensityFunctionImpl::Abs {
            argument: Box::new(DensityFunction::Id(String::from("minecraft:gone"))),
        })),
    });
    assert_eq!(
        compile(&tree).unwrap_err(),
        CompileError::DensityFunctionNotFound { key: String::from("minecraft:gone") }
    );
}

#[test]
fn id_chains_resolve_through_the_registry() {
    let mut wg = empty_worldgen();
    wg.density_function.push((
        String::from("minecraft:outer"),
        DensityFunction::Id(String::from("minecraft:inner")),
    ));
    wg.density_function
        .push((String::from("minecraft:inner"), constant(9.0)));
    let p = DensityFunction::Id(String::from("minecraft:outer"))
        .to_function(&wg)
        .unwrap();
    assert_eq!(p.instructions, vec![Instr::Constant { value: 9.0f64.to_bits() }]);
}

#[test]
fn operand_errors_take_precedence_over_noise_lookup() {
    // the operand is emitted before the noise reference is resolved, so its
    // failure is the one reported
    let tree = node(DensityFunctionImpl::WeirdScaledSampler {
        rarity_value_mapper: String::from("type_1"),
        noise: String::from("minecraft:missing"),
        input: Box::new(node(DensityFunctionImpl::Beardifier)),
    });
    assert_eq!(compile(&tree).unwrap_err(), CompileError::IllegalSentinelReference);
}
