//! Proved laws of the code-generation engine: well-formedness of everything
//! it emits, an exact characterization of when compilation succeeds, and how
//! the sentinel and missing references abort it.

use vstd::prelude::*;
use crate::schema::{DensityFunction, DensityFunctionImpl, FloatBits64, WorldGen};
use crate::ir::{
    instrs_wf, lemma_instrs_wf_push, CompileError, InstrV, ProcedureV, StubKind,
};
use crate::registry::{avail_keys, lemma_avail_decreases, lookup};
use crate::codegen::{spec_codegen, spec_codegen_impl, spec_to_function};

verus! {

/// Whether the emitted part of this tree holds the `Beardifier` sentinel.
///
/// Operands of a `Spline` node are not emitted (the node is a placeholder),
/// so they are not scanned either.
pub open spec fn contains_sentinel(tree: DensityFunction) -> bool
    decreases tree,
{
    match tree {
        DensityFunction::Id(_) => false,
        DensityFunction::Constant(_) => false,
        DensityFunction::Impl(node) => contains_sentinel_impl(*node),
    }
}

/// See [`contains_sentinel`].
pub open spec fn contains_sentinel_impl(node: DensityFunctionImpl) -> bool
    decreases node,
{
    match node {
        DensityFunctionImpl::Interpolated { argument } => contains_sentinel(*argument),
        DensityFunctionImpl::FlatCache { argument } => contains_sentinel(*argument),
        DensityFunctionImpl::Cache2D { argument } => contains_sentinel(*argument),
        DensityFunctionImpl::CacheOnce { argument } => contains_sentinel(*argument),
        DensityFunctionImpl::CacheAllInCell { argument } => contains_sentinel(*argument),
        DensityFunctionImpl::Abs { argument } => contains_sentinel(*argument),
        DensityFunctionImpl::Square { argument } => contains_sentinel(*argument),
        DensityFunctionImpl::Cube { argument } => contains_sentinel(*argument),
        DensityFunctionImpl::HalfNegative { argument } => contains_sentinel(*argument),
        DensityFunctionImpl::QuarterNegative { argument } => contains_sentinel(*argument),
        DensityFunctionImpl::Squeeze { argument } => contains_sentinel(*argument),
        DensityFunctionImpl::Invert { argument } => contains_sentinel(*argument),
        DensityFunctionImpl::Add { argument1, argument2 } => contains_sentinel(*argument1)
            || contains_sentinel(*argument2),
        DensityFunctionImpl::Mul { argument1, argument2 } => contains_sentinel(*argument1)
            || contains_sentinel(*argument2),
        DensityFunctionImpl::Min { argument1, argument2 } => contains_sentinel(*argument1)
            || contains_sentinel(*argument2),
        DensityFunctionImpl::Max { argument1, argument2 } => contains_sentinel(*argument1)
            || contains_sentinel(*argument2),
        DensityFunctionImpl::BlendAlpha => false,
        DensityFunctionImpl::BlendOffset => false,
        DensityFunctionImpl::BlendDensity { argument } => contains_sentinel(*argument),
        DensityFunctionImpl::Beardifier => true,
        DensityFunctionImpl::OldBlendedNoise { .. } => false,
        DensityFunctionImpl::Noise { .. } => false,
        DensityFunctionImpl::EndIslands => false,
        DensityFunctionImpl::WeirdScaledSampler { input, .. } => contains_sentinel(*input),
        DensityFunctionImpl::ShiftedNoise { shift_x, shift_y, shift_z, .. } => contains_sentinel(
            *shift_x,
        ) || contains_sentinel(*shift_y) || contains_sentinel(*shift_z),
        DensityFunctionImpl::RangeChoice { input, when_in_range, when_out_of_range, .. } => {
            contains_sentinel(*input) || contains_sentinel(*when_in_range) || contains_sentinel(
                *when_out_of_range,
            )
        },
        DensityFunctionImpl::ShiftA { .. } => false,
        DensityFunctionImpl::ShiftB { .. } => false,
        DensityFunctionImpl::Shift { .. } => false,
        DensityFunctionImpl::Clamp { input, .. } => contains_sentinel(*input),
        DensityFunctionImpl::Spline { .. } => false,
        DensityFunctionImpl::Constant { .. } => false,
        DensityFunctionImpl::YClampedGradient { .. } => false,
        DensityFunctionImpl::FindTopSurface { density, upper_bound, .. } => contains_sentinel(
            *density,
        ) || contains_sentinel(*upper_bound),
    }
}

/// Whether emitting this tree consults no registry and reaches no node that
/// is rejected outright: no `Id` reference, no noise-sampling node, and no
/// `FindTopSurface`. On such a tree the sentinel is the only thing that can
/// abort emission.
pub open spec fn reference_free(tree: DensityFunction) -> bool
    decreases tree,
{
    match tree {
        DensityFunction::Id(_) => false,
        DensityFunction::Constant(_) => true,
        DensityFunction::Impl(node) => reference_free_impl(*node),
    }
}

/// See [`reference_free`].
pub open spec fn reference_free_impl(node: DensityFunctionImpl) -> bool
    decreases node,
{
    match node {
        DensityFunctionImpl::Interpolated { argument } => reference_free(*argument),
        DensityFunctionImpl::FlatCache { argument } => reference_free(*argument),
        DensityFunctionImpl::Cache2D { argument } => reference_free(*argument),
        DensityFunctionImpl::CacheOnce { argument } => reference_free(*argument),
        DensityFunctionImpl::CacheAllInCell { argument } => reference_free(*argument),
        DensityFunctionImpl::Abs { argument } => reference_free(*argument),
        DensityFunctionImpl::Square { argument } => reference_free(*argument),
        DensityFunctionImpl::Cube { argument } => reference_free(*argument),
        DensityFunctionImpl::HalfNegative { argument } => reference_free(*argument),
        DensityFunctionImpl::QuarterNegative { argument } => reference_free(*argument),
        DensityFunctionImpl::Squeeze { argument } => reference_free(*argument),
        DensityFunctionImpl::Invert { argument } => reference_free(*argument),
        DensityFunctionImpl::Add { argument1, argument2 } => reference_free(*argument1)
            && reference_free(*argument2),
        DensityFunctionImpl::Mul { argument1, argument2 } => reference_free(*argument1)
            && reference_free(*argument2),
        DensityFunctionImpl::Min { argument1, argument2 } => reference_free(*argument1)
            && reference_free(*argument2),
        DensityFunctionImpl::Max { argument1, argument2 } => reference_free(*argument1)
            && reference_free(*argument2),
        DensityFunctionImpl::BlendAlpha => true,
        DensityFunctionImpl::BlendOffset => true,
        DensityFunctionImpl::BlendDensity { argument } => reference_free(*argument),
        DensityFunctionImpl::Beardifier => true,
        DensityFunctionImpl::OldBlendedNoise { .. } => true,
        DensityFunctionImpl::Noise { .. } => false,
        DensityFunctionImpl::EndIslands => true,
        DensityFunctionImpl::WeirdScaledSampler { .. } => false,
        DensityFunctionImpl::ShiftedNoise { .. } => false,
        DensityFunctionImpl::RangeChoice { input, when_in_range, when_out_of_range, .. } => {
            reference_free(*input) && reference_free(*when_in_range) && reference_free(
                *when_out_of_range,
            )
        },
        DensityFunctionImpl::ShiftA { .. } => false,
        DensityFunctionImpl::ShiftB { .. } => false,
        DensityFunctionImpl::Shift { .. } => false,
        DensityFunctionImpl::Clamp { input, .. } => reference_free(*input),
        DensityFunctionImpl::Spline { .. } => true,
        DensityFunctionImpl::Constant { .. } => true,
        DensityFunctionImpl::YClampedGradient { .. } => true,
        DensityFunctionImpl::FindTopSurface { .. } => false,
    }
}

/// When emission succeeds: every reference in the expanded tree resolves, no
/// expansion re-enters a definition still in flight, and neither the sentinel
/// nor an unsupported node is reached.
pub open spec fn compiles_clean(ctx: WorldGen, stack: Seq<Seq<char>>, tree: DensityFunction) -> bool
    decreases avail_keys(ctx.density_function@, stack).len(), tree,
{
    match tree {
        DensityFunction::Id(name) => {
            if stack.contains(name@) {
                false
            } else {
                match lookup(ctx.density_function@, name@) {
                    Option::None => false,
                    Option::Some(resolved) => {
                        proof {
                            lemma_avail_decreases(ctx.density_function@, stack, name@);
                        }
                        compiles_clean(ctx, stack.push(name@), resolved)
                    },
                }
            }
        },
        DensityFunction::Constant(_) => true,
        DensityFunction::Impl(node) => compiles_clean_impl(ctx, stack, *node),
    }
}

/// See [`compiles_clean`].
pub open spec fn compiles_clean_impl(
    ctx: WorldGen,
    stack: Seq<Seq<char>>,
    node: DensityFunctionImpl,
) -> bool
    decreases avail_keys(ctx.density_function@, stack).len(), node,
{
    match node {
        DensityFunctionImpl::Interpolated { argument } => compiles_clean(ctx, stack, *argument),
        DensityFunctionImpl::FlatCache { argument } => compiles_clean(ctx, stack, *argument),
        DensityFunctionImpl::Cache2D { argument } => compiles_clean(ctx, stack, *argument),
        DensityFunctionImpl::CacheOnce { argument } => compiles_clean(ctx, stack, *argument),
        DensityFunctionImpl::CacheAllInCell { argument } => compiles_clean(ctx, stack, *argument),
        DensityFunctionImpl::Abs { argument } => compiles_clean(ctx, stack, *argument),
        DensityFunctionImpl::Square { argument } => compiles_clean(ctx, stack, *argument),
        DensityFunctionImpl::Cube { argument } => compiles_clean(ctx, stack, *argument),
        DensityFunctionImpl::HalfNegative { argument } => compiles_clean(ctx, stack, *argument),
        DensityFunctionImpl::QuarterNegative { argument } => compiles_clean(ctx, stack, *argument),
        DensityFunctionImpl::Squeeze { argument } => compiles_clean(ctx, stack, *argument),
        DensityFunctionImpl::Invert { argument } => compiles_clean(ctx, stack, *argument),
        DensityFunctionImpl::Add { argument1, argument2 } => compiles_clean(ctx, stack, *argument1)
            && compiles_clean(ctx, stack, *argument2),
        DensityFunctionImpl::Mul { argument1, argument2 } => compiles_clean(ctx, stack, *argument1)
            && compiles_clean(ctx, stack, *argument2),
        DensityFunctionImpl::Min { argument1, argument2 } => compiles_clean(ctx, stack, *argument1)
            && compiles_clean(ctx, stack, *argument2),
        DensityFunctionImpl::Max { argument1, argument2 } => compiles_clean(ctx, stack, *argument1)
            && compiles_clean(ctx, stack, *argument2),
        DensityFunctionImpl::BlendAlpha => true,
        DensityFunctionImpl::BlendOffset => true,
        DensityFunctionImpl::BlendDensity { argument } => compiles_clean(ctx, stack, *argument),
        DensityFunctionImpl::Beardifier => false,
        DensityFunctionImpl::OldBlendedNoise { .. } => true,
        DensityFunctionImpl::Noise { noise, .. } => lookup(ctx.noise@, noise@) is Some,
        DensityFunctionImpl::EndIslands => true,
        DensityFunctionImpl::WeirdScaledSampler { noise, input, .. } => compiles_clean(
            ctx,
            stack,
            *input,
        ) && lookup(ctx.noise@, noise@) is Some,
        DensityFunctionImpl::ShiftedNoise { noise, shift_x, shift_y, shift_z, .. } => {
            compiles_clean(ctx, stack, *shift_x) && compiles_clean(ctx, stack, *shift_y)
                && compiles_clean(ctx, stack, *shift_z) && lookup(ctx.noise@, noise@) is Some
        },
        DensityFunctionImpl::RangeChoice { input, when_in_range, when_out_of_range, .. } => {
            compiles_clean(ctx, stack, *input) && compiles_clean(ctx, stack, *when_in_range)
                && compiles_clean(ctx, stack, *when_out_of_range)
        },
        DensityFunctionImpl::ShiftA { argument } => lookup(ctx.noise@, argument@) is Some,
        DensityFunctionImpl::ShiftB { argument } => lookup(ctx.noise@, argument@) is Some,
        DensityFunctionImpl::Shift { argument } => lookup(ctx.noise@, argument@) is Some,
        DensityFunctionImpl::Clamp { input, .. } => compiles_clean(ctx, stack, *input),
        DensityFunctionImpl::Spline { .. } => true,
        DensityFunctionImpl::Constant { .. } => true,
        DensityFunctionImpl::YClampedGradient { .. } => true,
        DensityFunctionImpl::FindTopSurface { .. } => false,
    }
}

/// The inductive facts of emission, proved together over the recursion:
///
/// - a successful emission strictly extends the list, returns the name of
///   the last instruction, and preserves single-assignment well-formedness;
/// - emission succeeds exactly on clean trees ([`compiles_clean`]);
/// - a tree whose emitted part holds the sentinel never succeeds;
/// - on a [`reference_free`] tree the only possible error is
///   [`CompileError::IllegalSentinelReference`].
pub proof fn lemma_codegen_props(
    ctx: WorldGen,
    stack: Seq<Seq<char>>,
    tree: DensityFunction,
    out: Seq<InstrV>,
)
    ensures
        match spec_codegen(ctx, stack, tree, out) {
            Ok(r) => out.len() < r.0.len() && r.1 == r.0.len() - 1 && (instrs_wf(out)
                ==> instrs_wf(r.0)),
            Err(_) => true,
        },
        (spec_codegen(ctx, stack, tree, out) is Ok) <==> compiles_clean(ctx, stack, tree),
        contains_sentinel(tree) ==> spec_codegen(ctx, stack, tree, out) is Err,
        reference_free(tree) && spec_codegen(ctx, stack, tree, out) is Err ==> spec_codegen(
            ctx,
            stack,
            tree,
            out,
        ) == Err::<(Seq<InstrV>, int), CompileError>(CompileError::IllegalSentinelReference),
    decreases avail_keys(ctx.density_function@, stack).len(), tree,
{
    broadcast use lemma_instrs_wf_push;

    match tree {
        DensityFunction::Id(name) => {
            if !stack.contains(name@) {
                match lookup(ctx.density_function@, name@) {
                    Option::None => {},
                    Option::Some(resolved) => {
                        lemma_avail_decreases(ctx.density_function@, stack, name@);
                        lemma_codegen_props(ctx, stack.push(name@), resolved, out);
                    },
                }
            }
        },
        DensityFunction::Constant(_) => {},
        DensityFunction::Impl(node) => {
            lemma_codegen_props_impl(ctx, stack, *node, out);
        },
    }
}

/// See [`lemma_codegen_props`].
pub proof fn lemma_codegen_props_impl(
    ctx: WorldGen,
    stack: Seq<Seq<char>>,
    node: DensityFunctionImpl,
    out: Seq<InstrV>,
)
    ensures
        match spec_codegen_impl(ctx, stack, node, out) {
            Ok(r) => out.len() < r.0.len() && r.1 == r.0.len() - 1 && (instrs_wf(out)
                ==> instrs_wf(r.0)),
            Err(_) => true,
        },
        (spec_codegen_impl(ctx, stack, node, out) is Ok) <==> compiles_clean_impl(
            ctx,
            stack,
            node,
        ),
        contains_sentinel_impl(node) ==> spec_codegen_impl(ctx, stack, node, out) is Err,
        reference_free_impl(node) && spec_codegen_impl(ctx, stack, node, out) is Err
            ==> spec_codegen_impl(ctx, stack, node, out) == Err::<
            (Seq<InstrV>, int),
            CompileError,
        >(CompileError::IllegalSentinelReference),
    decreases avail_keys(ctx.density_function@, stack).len(), node,
{
    broadcast use lemma_instrs_wf_push;

    match node {
        DensityFunctionImpl::Interpolated { argument } => {
            lemma_codegen_props(ctx, stack, *argument, out);
        },
        DensityFunctionImpl::FlatCache { argument } => {
            lemma_codegen_props(ctx, stack, *argument, out);
        },
        DensityFunctionImpl::Cache2D { argument } => {
            lemma_codegen_props(ctx, stack, *argument, out);
        },
        DensityFunctionImpl::CacheOnce { argument } => {
            lemma_codegen_props(ctx, stack, *argument, out);
        },
        DensityFunctionImpl::CacheAllInCell { argument } => {
            lemma_codegen_props(ctx, stack, *argument, out);
        },
        DensityFunctionImpl::Abs { argument } => {
            lemma_codegen_props(ctx, stack, *argument, out);
        },
        DensityFunctionImpl::Square { argument } => {
            lemma_codegen_props(ctx, stack, *argument, out);
        },
        DensityFunctionImpl::Cube { argument } => {
            lemma_codegen_props(ctx, stack, *argument, out);
        },
        DensityFunctionImpl::HalfNegative { argument } => {
            lemma_codegen_props(ctx, stack, *argument, out);
        },
        DensityFunctionImpl::QuarterNegative { argument } => {
            lemma_codegen_props(ctx, stack, *argument, out);
        },
        DensityFunctionImpl::Squeeze { argument } => {
            lemma_codegen_props(ctx, stack, *argument, out);
        },
        DensityFunctionImpl::Invert { argument } => {
            lemma_codegen_props(ctx, stack, *argument, out);
        },
        DensityFunctionImpl::Add { argument1, argument2 } => {
            lemma_codegen_props(ctx, stack, *argument1, out);
            match spec_codegen(ctx, stack, *argument1, out) {
                Ok(r1) => {
                    lemma_codegen_props(ctx, stack, *argument2, r1.0);
                },
                Err(_) => {},
            }
        },
        DensityFunctionImpl::Mul { argument1, argument2 } => {
            lemma_codegen_props(ctx, stack, *argument1, out);
            match spec_codegen(ctx, stack, *argument1, out) {
                Ok(r1) => {
                    lemma_codegen_props(ctx, stack, *argument2, r1.0);
                },
                Err(_) => {},
            }
        },
        DensityFunctionImpl::Min { argument1, argument2 } => {
            lemma_codegen_props(ctx, stack, *argument1, out);
            match spec_codegen(ctx, stack, *argument1, out) {
                Ok(r1) => {
                    lemma_codegen_props(ctx, stack, *argument2, r1.0);
                },
                Err(_) => {},
            }
        },
        DensityFunctionImpl::Max { argument1, argument2 } => {
            lemma_codegen_props(ctx, stack, *argument1, out);
            match spec_codegen(ctx, stack, *argument1, out) {
                Ok(r1) => {
                    lemma_codegen_props(ctx, stack, *argument2, r1.0);
                },
                Err(_) => {},
            }
        },
        DensityFunctionImpl::BlendAlpha => {},
        DensityFunctionImpl::BlendOffset => {},
        DensityFunctionImpl::BlendDensity { argument } => {
            lemma_codegen_props(ctx, stack, *argument, out);
        },
        DensityFunctionImpl::Beardifier => {},
        DensityFunctionImpl::OldBlendedNoise { .. } => {},
        DensityFunctionImpl::Noise { .. } => {},
        DensityFunctionImpl::EndIslands => {},
        DensityFunctionImpl::WeirdScaledSampler { input, .. } => {
            lemma_codegen_props(ctx, stack, *input, out);
        },
        DensityFunctionImpl::ShiftedNoise { shift_x, shift_y, shift_z, .. } => {
            lemma_codegen_props(ctx, stack, *shift_x, out);
            match spec_codegen(ctx, stack, *shift_x, out) {
                Ok(r1) => {
                    lemma_codegen_props(ctx, stack, *shift_y, r1.0);
                    match spec_codegen(ctx, stack, *shift_y, r1.0) {
                        Ok(r2) => {
                            lemma_codegen_props(ctx, stack, *shift_z, r2.0);
                        },
                        Err(_) => {},
                    }
                },
                Err(_) => {},
            }
        },
        DensityFunctionImpl::RangeChoice { input, when_in_range, when_out_of_range, .. } => {
            lemma_codegen_props(ctx, stack, *input, out);
            match spec_codegen(ctx, stack, *input, out) {
                Ok(r1) => {
                    lemma_codegen_props(ctx, stack, *when_in_range, r1.0);
                    match spec_codegen(ctx, stack, *when_in_range, r1.0) {
                        Ok(r2) => {
                            lemma_codegen_props(ctx, stack, *when_out_of_range, r2.0);
                        },
                        Err(_) => {},
                    }
                },
                Err(_) => {},
            }
        },
        DensityFunctionImpl::ShiftA { .. } => {},
        DensityFunctionImpl::ShiftB { .. } => {},
        DensityFunctionImpl::Shift { .. } => {},
        DensityFunctionImpl::Clamp { input, .. } => {
            lemma_codegen_props(ctx, stack, *input, out);
        },
        DensityFunctionImpl::Spline { .. } => {},
        DensityFunctionImpl::Constant { .. } => {},
        DensityFunctionImpl::YClampedGradient { .. } => {},
        DensityFunctionImpl::FindTopSurface { .. } => {},
    }
}

/// Compilation of a top-level tree succeeds exactly when the tree is clean:
/// every reference in its expansion resolves, no definition re-enters itself,
/// and neither the sentinel nor an unsupported node is reached.
pub proof fn lemma_compile_success(ctx: WorldGen, tree: DensityFunction)
    ensures
        (spec_to_function(ctx, tree) is Ok) <==> compiles_clean(ctx, Seq::empty(), tree),
{
    lemma_codegen_props(ctx, Seq::empty(), tree, Seq::empty());
}

/// Everything a successful compilation returns is well formed: the
/// instruction list is single-assignment with no forward reference, it is
/// non-empty, and the output name is its last instruction.
pub proof fn lemma_compile_wf(ctx: WorldGen, tree: DensityFunction)
    ensures
        match spec_to_function(ctx, tree) {
            Ok(p) => instrs_wf(p.instructions) && p.instructions.len() > 0 && p.output
                == p.instructions.len() - 1,
            Err(_) => true,
        },
{
    lemma_codegen_props(ctx, Seq::empty(), tree, Seq::empty());
}

/// Compiling a bare constant yields exactly one instruction binding that
/// literal, and the procedure's output is that instruction.
pub proof fn lemma_constant_compiles(ctx: WorldGen, tree: DensityFunction, value: FloatBits64)
    requires
        tree == DensityFunction::Constant(value),
    ensures
        spec_to_function(ctx, tree) == Ok::<ProcedureV, CompileError>(
            ProcedureV { instructions: seq![InstrV::Constant { value }], output: 0 },
        ),
{
    assert(Seq::<InstrV>::empty().push(InstrV::Constant { value }) =~= seq![
        InstrV::Constant { value },
    ]);
}

/// Compiling an addition of two constants yields exactly the two literal
/// bindings, in operand order, followed by one addition of those two names;
/// the output is the addition.
pub proof fn lemma_add_of_constants(
    ctx: WorldGen,
    tree: DensityFunction,
    v1: FloatBits64,
    v2: FloatBits64,
)
    requires
        tree matches DensityFunction::Impl(node) && (*node) matches DensityFunctionImpl::Add {
            argument1,
            argument2,
        } && *argument1 == DensityFunction::Constant(v1) && *argument2
            == DensityFunction::Constant(v2),
    ensures
        spec_to_function(ctx, tree) == Ok::<ProcedureV, CompileError>(
            ProcedureV {
                instructions: seq![
                    InstrV::Constant { value: v1 },
                    InstrV::Constant { value: v2 },
                    InstrV::Add { argument1: 0, argument2: 1 },
                ],
                output: 2,
            },
        ),
{
    reveal_with_fuel(spec_codegen, 3);
    let instrs = Seq::<InstrV>::empty().push(InstrV::Constant { value: v1 }).push(
        InstrV::Constant { value: v2 },
    ).push(InstrV::Add { argument1: 0, argument2: 1 });
    assert(instrs =~= seq![
        InstrV::Constant { value: v1 },
        InstrV::Constant { value: v2 },
        InstrV::Add { argument1: 0, argument2: 1 },
    ]);
}

/// Resolving an `Id` that names no density-function registry entry fails
/// with `DensityFunctionNotFound` carrying that exact key; no instruction
/// list is produced.
pub proof fn lemma_missing_reference(ctx: WorldGen, tree: DensityFunction)
    requires
        tree is Id,
        lookup(ctx.density_function@, tree->Id_0@) is None,
    ensures
        spec_to_function(ctx, tree) == Err::<ProcedureV, CompileError>(
            CompileError::DensityFunctionNotFound { key: tree->Id_0 },
        ),
{
}

/// A noise-sampling node whose generator name is absent from the noise
/// registry fails with `NoiseNotFound` carrying that exact key, the error
/// kind that tells a missing noise from a missing density function.
pub proof fn lemma_missing_noise(ctx: WorldGen, tree: DensityFunction)
    requires
        tree matches DensityFunction::Impl(node) && (*node) matches DensityFunctionImpl::Noise {
            noise,
            ..
        } && lookup(ctx.noise@, noise@) is None,
    ensures
        spec_to_function(ctx, tree) == Err::<ProcedureV, CompileError>(
            CompileError::NoiseNotFound { key: (*tree->Impl_0)->Noise_noise },
        ),
{
    reveal_with_fuel(spec_codegen, 2);
    reveal_with_fuel(spec_codegen_impl, 2);
}

/// Compilation is deterministic: two compilations of the same tree over the
/// same registries return the same result, instruction for instruction and
/// name for name.
pub proof fn lemma_compile_deterministic(
    ctx: WorldGen,
    tree: DensityFunction,
    r1: Result<ProcedureV, CompileError>,
    r2: Result<ProcedureV, CompileError>,
)
    requires
        r1 == spec_to_function(ctx, tree),
        r2 == spec_to_function(ctx, tree),
    ensures
        r1 == r2,
{
}

/// A tree whose emitted part holds the `Beardifier` sentinel never compiles:
/// the result is an error, so no instruction list is produced.
pub proof fn lemma_sentinel_aborts(ctx: WorldGen, tree: DensityFunction)
    requires
        contains_sentinel(tree),
    ensures
        spec_to_function(ctx, tree) is Err,
{
    lemma_codegen_props(ctx, Seq::empty(), tree, Seq::empty());
}

/// On a tree that consults no registry, the sentinel aborts compilation with
/// exactly `IllegalSentinelReference`. (With a dangling or cyclic reference
/// in the same tree, whichever is reached first reports its own error; both
/// still abort.)
pub proof fn lemma_sentinel_error_kind(ctx: WorldGen, tree: DensityFunction)
    requires
        contains_sentinel(tree),
        reference_free(tree),
    ensures
        spec_to_function(ctx, tree) == Err::<ProcedureV, CompileError>(
            CompileError::IllegalSentinelReference,
        ),
{
    lemma_codegen_props(ctx, Seq::empty(), tree, Seq::empty());
}

/// A weird-scaled sampler bakes its mapping table into the emitted
/// instruction by name: the mapper named `type_1` selects the first table,
/// every other name the second. The emitted instruction follows the
/// operand's instructions and carries the operand's name and the resolved
/// octave parameters.
pub proof fn lemma_rarity_mapper_choice(
    ctx: WorldGen,
    tree: DensityFunction,
    inner: ProcedureV,
)
    requires
        tree matches DensityFunction::Impl(node) && (*node) matches
            DensityFunctionImpl::WeirdScaledSampler { noise, .. } && lookup(
            ctx.noise@,
            noise@,
        ) is Some,
        spec_to_function(
            ctx,
            *(tree->Impl_0)->WeirdScaledSampler_input,
        ) == Ok::<ProcedureV, CompileError>(inner),
    ensures
        ({
            let node = *tree->Impl_0;
            let n = lookup(ctx.noise@, node->WeirdScaledSampler_noise@)->Some_0;
            spec_to_function(ctx, tree) == Ok::<ProcedureV, CompileError>(
                ProcedureV {
                    instructions: inner.instructions.push(
                        InstrV::WeirdScaledSampler {
                            rarity_value_mapper: if node->WeirdScaledSampler_rarity_value_mapper@
                                == "type_1"@ {
                                crate::ir::RarityMapper::Type1
                            } else {
                                crate::ir::RarityMapper::Type2
                            },
                            first_octave: n.first_octave,
                            amplitudes: n.amplitudes@,
                            input: inner.output,
                        },
                    ),
                    output: inner.instructions.len() as int,
                },
            )
        }),
{
    reveal_with_fuel(spec_codegen, 2);
    reveal_with_fuel(spec_codegen_impl, 2);
}

/// The unimplemented node kinds that pass one operand through, and the tag
/// each carries in emitted output.
pub open spec fn stub_wrapper_kind(node: DensityFunctionImpl) -> Option<(StubKind, DensityFunction)> {
    match node {
        DensityFunctionImpl::Interpolated { argument } => Option::Some(
            (StubKind::Interpolated, *argument),
        ),
        DensityFunctionImpl::FlatCache { argument } => Option::Some(
            (StubKind::FlatCache, *argument),
        ),
        DensityFunctionImpl::Cache2D { argument } => Option::Some((StubKind::Cache2D, *argument)),
        DensityFunctionImpl::CacheOnce { argument } => Option::Some(
            (StubKind::CacheOnce, *argument),
        ),
        DensityFunctionImpl::CacheAllInCell { argument } => Option::Some(
            (StubKind::CacheAllInCell, *argument),
        ),
        DensityFunctionImpl::BlendDensity { argument } => Option::Some(
            (StubKind::BlendDensity, *argument),
        ),
        _ => Option::None,
    }
}

/// Every pass-through stub node is individually tagged in emitted output:
/// compiling it emits its operand's instructions unchanged, then one
/// `StubPassThrough` carrying the node's own kind and the operand's name,
/// and that tagged instruction is the procedure's output.
pub proof fn lemma_stub_pass_through_tagged(
    ctx: WorldGen,
    tree: DensityFunction,
    kind: StubKind,
    operand: DensityFunction,
    inner: ProcedureV,
)
    requires
        tree matches DensityFunction::Impl(node) && stub_wrapper_kind(*node) == Option::Some(
            (kind, operand),
        ),
        spec_to_function(ctx, operand) == Ok::<ProcedureV, CompileError>(inner),
    ensures
        spec_to_function(ctx, tree) == Ok::<ProcedureV, CompileError>(
            ProcedureV {
                instructions: inner.instructions.push(
                    InstrV::StubPassThrough { kind, input: inner.output },
                ),
                output: inner.instructions.len() as int,
            },
        ),
{
    reveal_with_fuel(spec_codegen, 2);
    reveal_with_fuel(spec_codegen_impl, 2);
}

/// Every stub node without an operand is individually tagged in emitted
/// output: compiling it alone yields exactly one `StubZero` instruction
/// carrying the node's own kind, and that instruction is the output.
pub proof fn lemma_stub_zero_tagged(ctx: WorldGen, tree: DensityFunction, kind: StubKind)
    requires
        tree matches DensityFunction::Impl(node) && match kind {
            StubKind::BlendAlpha => *node == DensityFunctionImpl::BlendAlpha,
            StubKind::BlendOffset => *node == DensityFunctionImpl::BlendOffset,
            StubKind::Spline => (*node) matches DensityFunctionImpl::Spline { .. },
            _ => false,
        },
    ensures
        spec_to_function(ctx, tree) == Ok::<ProcedureV, CompileError>(
            ProcedureV { instructions: seq![InstrV::StubZero { kind }], output: 0 },
        ),
{
    reveal_with_fuel(spec_codegen, 2);
    reveal_with_fuel(spec_codegen_impl, 2);
    assert(Seq::<InstrV>::empty().push(InstrV::StubZero { kind }) =~= seq![
        InstrV::StubZero { kind },
    ]);
}

} // verus!
