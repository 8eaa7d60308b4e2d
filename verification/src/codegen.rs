//! The code-generation engine: structural recursion over a density-function
//! tree, emitting one single-assignment instruction per operator node.
//!
//! Children are always emitted before their parent, so the produced order is
//! topologically valid and free of forward references. Fresh names are the
//! positions of the emitted instructions; the engine performs no
//! common-subexpression elimination and no memoization, so a subtree reachable
//! twice is emitted twice, each copy under its own name.
//!
//! Reference resolution keeps the set of definitions currently being expanded;
//! re-entering one is reported as a cyclic reference instead of diverging.
//! Every failure aborts the whole top-level compilation: no partial
//! instruction list is ever returned.
//!
//! The functions [`spec_codegen`] and [`spec_codegen_impl`] are the complete
//! mathematical model of emission; the executable engine returns exactly what
//! they describe, which also makes compilation deterministic.

use vstd::prelude::*;
use vstd::string::StringExecFns;
use crate::schema::{DensityFunction, DensityFunctionImpl, FloatBits64, WorldGen};
use crate::ir::{
    lemma_view_instrs_push, view_instrs, CompileError, Instr, InstrV, Procedure, ProcedureV,
    RarityMapper, StubKind,
};
use crate::registry::{avail_keys, lemma_avail_decreases, lookup};

verus! {

/// The keys of an in-flight resolution stack.
pub open spec fn stack_view(stack: Seq<String>) -> Seq<Seq<char>> {
    stack.map_values(|s: String| s@)
}

/// Pushing a key onto the stack pushes its key sequence onto the view.
pub broadcast proof fn lemma_stack_view_push(stack: Seq<String>, name: String)
    ensures
        #[trigger] stack_view(stack.push(name)) == stack_view(stack).push(name@),
{
    assert(stack_view(stack.push(name)) =~= stack_view(stack).push(name@));
}

/// What emitting `tree` into the instruction list `out` returns: either the
/// extended list and the name holding the tree's value, or the error that
/// aborts the compilation. `stack` holds the keys of the definitions whose
/// expansion is in flight.
pub open spec fn spec_codegen(
    ctx: WorldGen,
    stack: Seq<Seq<char>>,
    tree: DensityFunction,
    out: Seq<InstrV>,
) -> Result<(Seq<InstrV>, int), CompileError>
    decreases avail_keys(ctx.density_function@, stack).len(), tree,
{
    match tree {
        DensityFunction::Id(name) => {
            if stack.contains(name@) {
                Err(CompileError::CyclicReference { key: name })
            } else {
                match lookup(ctx.density_function@, name@) {
                    Option::None => Err(CompileError::DensityFunctionNotFound { key: name }),
                    Option::Some(resolved) => {
                        proof {
                            lemma_avail_decreases(ctx.density_function@, stack, name@);
                        }
                        spec_codegen(ctx, stack.push(name@), resolved, out)
                    },
                }
            }
        },
        DensityFunction::Constant(value) => Ok(
            (out.push(InstrV::Constant { value }), out.len() as int),
        ),
        DensityFunction::Impl(node) => spec_codegen_impl(ctx, stack, *node, out),
    }
}

/// What emitting one operator node returns; see [`spec_codegen`].
pub open spec fn spec_codegen_impl(
    ctx: WorldGen,
    stack: Seq<Seq<char>>,
    node: DensityFunctionImpl,
    out: Seq<InstrV>,
) -> Result<(Seq<InstrV>, int), CompileError>
    decreases avail_keys(ctx.density_function@, stack).len(), node,
{
    match node {
        DensityFunctionImpl::Interpolated { argument } => {
            match spec_codegen(ctx, stack, *argument, out) {
                Err(e) => Err(e),
                Ok((out1, a)) => Ok(
                    (
                        out1.push(
                            InstrV::StubPassThrough { kind: StubKind::Interpolated, input: a },
                        ),
                        out1.len() as int,
                    ),
                ),
            }
        },
        DensityFunctionImpl::FlatCache { argument } => {
            match spec_codegen(ctx, stack, *argument, out) {
                Err(e) => Err(e),
                Ok((out1, a)) => Ok(
                    (
                        out1.push(InstrV::StubPassThrough { kind: StubKind::FlatCache, input: a }),
                        out1.len() as int,
                    ),
                ),
            }
        },
        DensityFunctionImpl::Cache2D { argument } => {
            match spec_codegen(ctx, stack, *argument, out) {
                Err(e) => Err(e),
                Ok((out1, a)) => Ok(
                    (
                        out1.push(InstrV::StubPassThrough { kind: StubKind::Cache2D, input: a }),
                        out1.len() as int,
                    ),
                ),
            }
        },
        DensityFunctionImpl::CacheOnce { argument } => {
            match spec_codegen(ctx, stack, *argument, out) {
                Err(e) => Err(e),
                Ok((out1, a)) => Ok(
                    (
                        out1.push(InstrV::StubPassThrough { kind: StubKind::CacheOnce, input: a }),
                        out1.len() as int,
                    ),
                ),
            }
        },
        DensityFunctionImpl::CacheAllInCell { argument } => {
            match spec_codegen(ctx, stack, *argument, out) {
                Err(e) => Err(e),
                Ok((out1, a)) => Ok(
                    (
                        out1.push(
                            InstrV::StubPassThrough { kind: StubKind::CacheAllInCell, input: a },
                        ),
                        out1.len() as int,
                    ),
                ),
            }
        },
        DensityFunctionImpl::Abs { argument } => {
            match spec_codegen(ctx, stack, *argument, out) {
                Err(e) => Err(e),
                Ok((out1, a)) => Ok(
                    (out1.push(InstrV::Abs { input: a }), out1.len() as int),
                ),
            }
        },
        DensityFunctionImpl::Square { argument } => {
            match spec_codegen(ctx, stack, *argument, out) {
                Err(e) => Err(e),
                Ok((out1, a)) => Ok(
                    (out1.push(InstrV::Square { input: a }), out1.len() as int),
                ),
            }
        },
        DensityFunctionImpl::Cube { argument } => {
            match spec_codegen(ctx, stack, *argument, out) {
                Err(e) => Err(e),
                Ok((out1, a)) => Ok(
                    (out1.push(InstrV::Cube { input: a }), out1.len() as int),
                ),
            }
        },
        DensityFunctionImpl::HalfNegative { argument } => {
            match spec_codegen(ctx, stack, *argument, out) {
                Err(e) => Err(e),
                Ok((out1, a)) => Ok(
                    (out1.push(InstrV::HalfNegative { input: a }), out1.len() as int),
                ),
            }
        },
        DensityFunctionImpl::QuarterNegative { argument } => {
            match spec_codegen(ctx, stack, *argument, out) {
                Err(e) => Err(e),
                Ok((out1, a)) => Ok(
                    (out1.push(InstrV::QuarterNegative { input: a }), out1.len() as int),
                ),
            }
        },
        DensityFunctionImpl::Squeeze { argument } => {
            match spec_codegen(ctx, stack, *argument, out) {
                Err(e) => Err(e),
                Ok((out1, a)) => Ok(
                    (out1.push(InstrV::Squeeze { input: a }), out1.len() as int),
                ),
            }
        },
        DensityFunctionImpl::Invert { argument } => {
            match spec_codegen(ctx, stack, *argument, out) {
                Err(e) => Err(e),
                Ok((out1, a)) => Ok(
                    (out1.push(InstrV::Invert { input: a }), out1.len() as int),
                ),
            }
        },
        DensityFunctionImpl::Add { argument1, argument2 } => {
            match spec_codegen(ctx, stack, *argument1, out) {
                Err(e) => Err(e),
                Ok((out1, a1)) => match spec_codegen(ctx, stack, *argument2, out1) {
                    Err(e) => Err(e),
                    Ok((out2, a2)) => Ok(
                        (
                            out2.push(InstrV::Add { argument1: a1, argument2: a2 }),
                            out2.len() as int,
                        ),
                    ),
                },
            }
        },
        DensityFunctionImpl::Mul { argument1, argument2 } => {
            match spec_codegen(ctx, stack, *argument1, out) {
                Err(e) => Err(e),
                Ok((out1, a1)) => match spec_codegen(ctx, stack, *argument2, out1) {
                    Err(e) => Err(e),
                    Ok((out2, a2)) => Ok(
                        (
                            out2.push(InstrV::Mul { argument1: a1, argument2: a2 }),
                            out2.len() as int,
                        ),
                    ),
                },
            }
        },
        DensityFunctionImpl::Min { argument1, argument2 } => {
            match spec_codegen(ctx, stack, *argument1, out) {
                Err(e) => Err(e),
                Ok((out1, a1)) => match spec_codegen(ctx, stack, *argument2, out1) {
                    Err(e) => Err(e),
                    Ok((out2, a2)) => Ok(
                        (
                            out2.push(InstrV::Min { argument1: a1, argument2: a2 }),
                            out2.len() as int,
                        ),
                    ),
                },
            }
        },
        DensityFunctionImpl::Max { argument1, argument2 } => {
            match spec_codegen(ctx, stack, *argument1, out) {
                Err(e) => Err(e),
                Ok((out1, a1)) => match spec_codegen(ctx, stack, *argument2, out1) {
                    Err(e) => Err(e),
                    Ok((out2, a2)) => Ok(
                        (
                            out2.push(InstrV::Max { argument1: a1, argument2: a2 }),
                            out2.len() as int,
                        ),
                    ),
                },
            }
        },
        DensityFunctionImpl::BlendAlpha => Ok(
            (out.push(InstrV::StubZero { kind: StubKind::BlendAlpha }), out.len() as int),
        ),
        DensityFunctionImpl::BlendOffset => Ok(
            (out.push(InstrV::StubZero { kind: StubKind::BlendOffset }), out.len() as int),
        ),
        DensityFunctionImpl::BlendDensity { argument } => {
            match spec_codegen(ctx, stack, *argument, out) {
                Err(e) => Err(e),
                Ok((out1, a)) => Ok(
                    (
                        out1.push(
                            InstrV::StubPassThrough { kind: StubKind::BlendDensity, input: a },
                        ),
                        out1.len() as int,
                    ),
                ),
            }
        },
        DensityFunctionImpl::Beardifier => Err(CompileError::IllegalSentinelReference),
        DensityFunctionImpl::OldBlendedNoise {
            xz_scale,
            y_scale,
            xz_factor,
            y_factor,
            smear_scale_multiplier,
        } => Ok(
            (
                out.push(
                    InstrV::OldBlendedNoise {
                        xz_scale,
                        y_scale,
                        xz_factor,
                        y_factor,
                        smear_scale_multiplier,
                    },
                ),
                out.len() as int,
            ),
        ),
        DensityFunctionImpl::Noise { noise, xz_scale, y_scale } => {
            match lookup(ctx.noise@, noise@) {
                Option::None => Err(CompileError::NoiseNotFound { key: noise }),
                Option::Some(n) => Ok(
                    (
                        out.push(
                            InstrV::Noise {
                                first_octave: n.first_octave,
                                amplitudes: n.amplitudes@,
                                xz_scale,
                                y_scale,
                            },
                        ),
                        out.len() as int,
                    ),
                ),
            }
        },
        DensityFunctionImpl::EndIslands => Ok(
            (out.push(InstrV::EndIslands), out.len() as int),
        ),
        DensityFunctionImpl::WeirdScaledSampler { rarity_value_mapper, noise, input } => {
            match spec_codegen(ctx, stack, *input, out) {
                Err(e) => Err(e),
                Ok((out1, a)) => match lookup(ctx.noise@, noise@) {
                    Option::None => Err(CompileError::NoiseNotFound { key: noise }),
                    Option::Some(n) => Ok(
                        (
                            out1.push(
                                InstrV::WeirdScaledSampler {
                                    rarity_value_mapper: if rarity_value_mapper@ == "type_1"@ {
                                        RarityMapper::Type1
                                    } else {
                                        RarityMapper::Type2
                                    },
                                    first_octave: n.first_octave,
                                    amplitudes: n.amplitudes@,
                                    input: a,
                                },
                            ),
                            out1.len() as int,
                        ),
                    ),
                },
            }
        },
        DensityFunctionImpl::ShiftedNoise { noise, xz_scale, y_scale, shift_x, shift_y, shift_z } => {
            match spec_codegen(ctx, stack, *shift_x, out) {
                Err(e) => Err(e),
                Ok((out1, x)) => match spec_codegen(ctx, stack, *shift_y, out1) {
                    Err(e) => Err(e),
                    Ok((out2, y)) => match spec_codegen(ctx, stack, *shift_z, out2) {
                        Err(e) => Err(e),
                        Ok((out3, z)) => match lookup(ctx.noise@, noise@) {
                            Option::None => Err(CompileError::NoiseNotFound { key: noise }),
                            Option::Some(n) => Ok(
                                (
                                    out3.push(
                                        InstrV::ShiftedNoise {
                                            first_octave: n.first_octave,
                                            amplitudes: n.amplitudes@,
                                            xz_scale,
                                            y_scale,
                                            shift_x: x,
                                            shift_y: y,
                                            shift_z: z,
                                        },
                                    ),
                                    out3.len() as int,
                                ),
                            ),
                        },
                    },
                },
            }
        },
        DensityFunctionImpl::RangeChoice {
            input,
            min_inclusive,
            max_exclusive,
            when_in_range,
            when_out_of_range,
        } => {
            match spec_codegen(ctx, stack, *input, out) {
                Err(e) => Err(e),
                Ok((out1, a)) => match spec_codegen(ctx, stack, *when_in_range, out1) {
                    Err(e) => Err(e),
                    Ok((out2, t)) => match spec_codegen(ctx, stack, *when_out_of_range, out2) {
                        Err(e) => Err(e),
                        Ok((out3, f)) => Ok(
                            (
                                out3.push(
                                    InstrV::RangeChoice {
                                        input: a,
                                        min_inclusive,
                                        max_exclusive,
                                        when_in_range: t,
                                        when_out_of_range: f,
                                    },
                                ),
                                out3.len() as int,
                            ),
                        ),
                    },
                },
            }
        },
        DensityFunctionImpl::ShiftA { argument } => {
            match lookup(ctx.noise@, argument@) {
                Option::None => Err(CompileError::NoiseNotFound { key: argument }),
                Option::Some(n) => Ok(
                    (
                        out.push(
                            InstrV::ShiftA { first_octave: n.first_octave, amplitudes: n.amplitudes@ },
                        ),
                        out.len() as int,
                    ),
                ),
            }
        },
        DensityFunctionImpl::ShiftB { argument } => {
            match lookup(ctx.noise@, argument@) {
                Option::None => Err(CompileError::NoiseNotFound { key: argument }),
                Option::Some(n) => Ok(
                    (
                        out.push(
                            InstrV::ShiftB { first_octave: n.first_octave, amplitudes: n.amplitudes@ },
                        ),
                        out.len() as int,
                    ),
                ),
            }
        },
        DensityFunctionImpl::Shift { argument } => {
            match lookup(ctx.noise@, argument@) {
                Option::None => Err(CompileError::NoiseNotFound { key: argument }),
                Option::Some(n) => Ok(
                    (
                        out.push(
                            InstrV::Shift { first_octave: n.first_octave, amplitudes: n.amplitudes@ },
                        ),
                        out.len() as int,
                    ),
                ),
            }
        },
        DensityFunctionImpl::Clamp { input, min, max } => {
            match spec_codegen(ctx, stack, *input, out) {
                Err(e) => Err(e),
                Ok((out1, a)) => Ok(
                    (out1.push(InstrV::Clamp { input: a, min, max }), out1.len() as int),
                ),
            }
        },
        DensityFunctionImpl::Spline { .. } => Ok(
            (out.push(InstrV::StubZero { kind: StubKind::Spline }), out.len() as int),
        ),
        DensityFunctionImpl::Constant { argument } => Ok(
            (out.push(InstrV::Constant { value: argument }), out.len() as int),
        ),
        DensityFunctionImpl::YClampedGradient { from_y, to_y, from_value, to_value } => Ok(
            (
                out.push(InstrV::YClampedGradient { from_y, to_y, from_value, to_value }),
                out.len() as int,
            ),
        ),
        DensityFunctionImpl::FindTopSurface { .. } => Err(CompileError::FindTopSurfaceUnsupported),
    }
}

/// What compiling `tree` as a top-level entry point returns.
pub open spec fn spec_to_function(ctx: WorldGen, tree: DensityFunction) -> Result<
    ProcedureV,
    CompileError,
> {
    match spec_codegen(ctx, Seq::empty(), tree, Seq::empty()) {
        Ok((instrs, name)) => Ok(ProcedureV { instructions: instrs, output: name }),
        Err(e) => Err(e),
    }
}

/// Whether `name` is a key of the in-flight resolution stack.
fn stack_contains(stack: &Vec<String>, name: &String) -> (r: bool)
    ensures
        r == stack_view(stack@).contains(name@),
{
    let n = stack.len();
    let mut i: usize = 0;
    while i < n
        invariant
            i <= n,
            n == stack@.len(),
            forall|j: int| 0 <= j < i ==> #[trigger] stack@[j]@ != name@,
        decreases n - i,
    {
        if stack[i] == *name {
            proof {
                assert(stack_view(stack@)[i as int] == name@);
            }
            return true;
        }
        i += 1;
    }
    proof {
        assert forall|j: int| 0 <= j < stack_view(stack@).len() implies #[trigger] stack_view(
            stack@,
        )[j] != name@ by {
            assert(stack_view(stack@)[j] == stack@[j]@);
        }
    }
    false
}

/// A copy of the stack with one more key on top.
fn push_key(stack: &Vec<String>, name: &String) -> (r: Vec<String>)
    ensures
        r@ == stack@.push(*name),
{
    let n = stack.len();
    let mut r: Vec<String> = Vec::new();
    let mut i: usize = 0;
    while i < n
        invariant
            i <= n,
            n == stack@.len(),
            r@.len() == i,
            forall|j: int| 0 <= j < i ==> #[trigger] r@[j] == stack@[j],
        decreases n - i,
    {
        r.push(stack[i].clone());
        i += 1;
    }
    r.push(name.clone());
    proof {
        assert(r@ =~= stack@.push(*name));
    }
    r
}

/// An owned copy of an amplitude vector.
fn clone_amplitudes(v: &Vec<FloatBits64>) -> (r: Vec<FloatBits64>)
    ensures
        r@ == v@,
{
    let n = v.len();
    let mut r: Vec<FloatBits64> = Vec::new();
    let mut i: usize = 0;
    while i < n
        invariant
            i <= n,
            n == v@.len(),
            r@.len() == i,
            forall|j: int| 0 <= j < i ==> #[trigger] r@[j] == v@[j],
        decreases n - i,
    {
        r.push(v[i]);
        i += 1;
    }
    proof {
        assert(r@ =~= v@);
    }
    r
}

/// Whether a rarity-mapper name selects the first mapping table.
fn is_type_1_mapper(mapper: &String) -> (r: bool)
    ensures
        r == (mapper@ == "type_1"@),
{
    let reference = String::from_str("type_1");
    *mapper == reference
}

impl DensityFunction {
    /// Emit one literal-binding instruction and return its fresh name.
    pub fn codegen_constant(value: FloatBits64, out: &mut Vec<Instr>) -> (name: usize)
        ensures
            view_instrs(final(out)@) == view_instrs(old(out)@).push(InstrV::Constant { value }),
            name as int == view_instrs(old(out)@).len(),
    {
        broadcast use lemma_view_instrs_push;

        let name = out.len();
        out.push(Instr::Constant { value });
        name
    }

    /// Emit the instructions computing this tree into `out` and return the
    /// name of the instruction holding its value: exactly what
    /// [`spec_codegen`] describes, including every failure.
    pub fn codegen(
        &self,
        ctx: &WorldGen,
        stack: &Vec<String>,
        out: &mut Vec<Instr>,
    ) -> (r: Result<usize, CompileError>)
        ensures
            match r {
                Ok(name) => spec_codegen(
                    *ctx,
                    stack_view(stack@),
                    *self,
                    view_instrs(old(out)@),
                ) == Ok::<(Seq<InstrV>, int), CompileError>(
                    (view_instrs(final(out)@), name as int),
                ),
                Err(e) => spec_codegen(
                    *ctx,
                    stack_view(stack@),
                    *self,
                    view_instrs(old(out)@),
                ) == Err::<(Seq<InstrV>, int), CompileError>(e),
            },
        decreases avail_keys(ctx.density_function@, stack_view(stack@)).len(), *self,
    {
        broadcast use lemma_view_instrs_push, lemma_stack_view_push;

        match self {
            DensityFunction::Id(name) => {
                if stack_contains(stack, name) {
                    Err(CompileError::CyclicReference { key: name.clone() })
                } else {
                    match ctx.resolve_density_function(name) {
                        Err(e) => Err(e),
                        Ok(resolved) => {
                            let stack2 = push_key(stack, name);
                            proof {
                                lemma_avail_decreases(
                                    ctx.density_function@,
                                    stack_view(stack@),
                                    name@,
                                );
                            }
                            resolved.codegen(ctx, &stack2, out)
                        },
                    }
                }
            },
            DensityFunction::Constant(value) => Ok(Self::codegen_constant(*value, out)),
            DensityFunction::Impl(node) => node.codegen(ctx, stack, out),
        }
    }

    /// Compile this tree as a top-level entry point: an ordered instruction
    /// list plus the name of the instruction holding the final value, or the
    /// error that aborted the compilation. Returns exactly what
    /// [`spec_to_function`] describes; in particular two compilations of the
    /// same tree over the same registries return the same procedure.
    pub fn to_function(&self, ctx: &WorldGen) -> (r: Result<Procedure, CompileError>)
        ensures
            match r {
                Ok(p) => spec_to_function(*ctx, *self) == Ok::<ProcedureV, CompileError>(p@)
                    && p.wf(),
                Err(e) => spec_to_function(*ctx, *self) == Err::<ProcedureV, CompileError>(e),
            },
    {
        let stack: Vec<String> = Vec::new();
        let mut out: Vec<Instr> = Vec::new();
        proof {
            assert(stack_view(stack@) =~= Seq::<Seq<char>>::empty());
            assert(view_instrs(out@) =~= Seq::<InstrV>::empty());
            crate::laws::lemma_compile_wf(*ctx, *self);
        }
        match self.codegen(ctx, &stack, &mut out) {
            Ok(name) => Ok(Procedure { instructions: out, output: name }),
            Err(e) => Err(e),
        }
    }
}

impl DensityFunctionImpl {
    /// Emit the instructions computing one operator node; see
    /// [`DensityFunction::codegen`].
    pub fn codegen(
        &self,
        ctx: &WorldGen,
        stack: &Vec<String>,
        out: &mut Vec<Instr>,
    ) -> (r: Result<usize, CompileError>)
        ensures
            match r {
                Ok(name) => spec_codegen_impl(
                    *ctx,
                    stack_view(stack@),
                    *self,
                    view_instrs(old(out)@),
                ) == Ok::<(Seq<InstrV>, int), CompileError>(
                    (view_instrs(final(out)@), name as int),
                ),
                Err(e) => spec_codegen_impl(
                    *ctx,
                    stack_view(stack@),
                    *self,
                    view_instrs(old(out)@),
                ) == Err::<(Seq<InstrV>, int), CompileError>(e),
            },
        decreases avail_keys(ctx.density_function@, stack_view(stack@)).len(), *self,
    {
        broadcast use lemma_view_instrs_push;

        match self {
            DensityFunctionImpl::Interpolated { argument } => {
                let a = match argument.codegen(ctx, stack, out) {
                    Ok(a) => a,
                    Err(e) => {
                        return Err(e);
                    },
                };
                let name = out.len();
                out.push(Instr::StubPassThrough { kind: StubKind::Interpolated, input: a });
                Ok(name)
            },
            DensityFunctionImpl::FlatCache { argument } => {
                let a = match argument.codegen(ctx, stack, out) {
                    Ok(a) => a,
                    Err(e) => {
                        return Err(e);
                    },
                };
                let name = out.len();
                out.push(Instr::StubPassThrough { kind: StubKind::FlatCache, input: a });
                Ok(name)
            },
            DensityFunctionImpl::Cache2D { argument } => {
                let a = match argument.codegen(ctx, stack, out) {
                    Ok(a) => a,
                    Err(e) => {
                        return Err(e);
                    },
                };
                let name = out.len();
                out.push(Instr::StubPassThrough { kind: StubKind::Cache2D, input: a });
                Ok(name)
            },
            DensityFunctionImpl::CacheOnce { argument } => {
                let a = match argument.codegen(ctx, stack, out) {
                    Ok(a) => a,
                    Err(e) => {
                        return Err(e);
                    },
                };
                let name = out.len();
                out.push(Instr::StubPassThrough { kind: StubKind::CacheOnce, input: a });
                Ok(name)
            },
            DensityFunctionImpl::CacheAllInCell { argument } => {
                let a = match argument.codegen(ctx, stack, out) {
                    Ok(a) => a,
                    Err(e) => {
                        return Err(e);
                    },
                };
                let name = out.len();
                out.push(Instr::StubPassThrough { kind: StubKind::CacheAllInCell, input: a });
                Ok(name)
            },
            DensityFunctionImpl::Abs { argument } => {
                let a = match argument.codegen(ctx, stack, out) {
                    Ok(a) => a,
                    Err(e) => {
                        return Err(e);
                    },
                };
                let name = out.len();
                out.push(Instr::Abs { input: a });
                Ok(name)
            },
            DensityFunctionImpl::Square { argument } => {
                let a = match argument.codegen(ctx, stack, out) {
                    Ok(a) => a,
                    Err(e) => {
                        return Err(e);
                    },
                };
                let name = out.len();
                out.push(Instr::Square { input: a });
                Ok(name)
            },
            DensityFunctionImpl::Cube { argument } => {
                let a = match argument.codegen(ctx, stack, out) {
                    Ok(a) => a,
                    Err(e) => {
                        return Err(e);
                    },
                };
                let name = out.len();
                out.push(Instr::Cube { input: a });
                Ok(name)
            },
            DensityFunctionImpl::HalfNegative { argument } => {
                let a = match argument.codegen(ctx, stack, out) {
                    Ok(a) => a,
                    Err(e) => {
                        return Err(e);
                    },
                };
                let name = out.len();
                out.push(Instr::HalfNegative { input: a });
                Ok(name)
            },
            DensityFunctionImpl::QuarterNegative { argument } => {
                let a = match argument.codegen(ctx, stack, out) {
                    Ok(a) => a,
                    Err(e) => {
                        return Err(e);
                    },
                };
                let name = out.len();
                out.push(Instr::QuarterNegative { input: a });
                Ok(name)
            },
            DensityFunctionImpl::Squeeze { argument } => {
                let a = match argument.codegen(ctx, stack, out) {
                    Ok(a) => a,
                    Err(e) => {
                        return Err(e);
                    },
                };
                let name = out.len();
                out.push(Instr::Squeeze { input: a });
                Ok(name)
            },
            DensityFunctionImpl::Invert { argument } => {
                let a = match argument.codegen(ctx, stack, out) {
                    Ok(a) => a,
                    Err(e) => {
                        return Err(e);
                    },
                };
                let name = out.len();
                out.push(Instr::Invert { input: a });
                Ok(name)
            },
            DensityFunctionImpl::Add { argument1, argument2 } => {
                let a1 = match argument1.codegen(ctx, stack, out) {
                    Ok(a) => a,
                    Err(e) => {
                        return Err(e);
                    },
                };
                let a2 = match argument2.codegen(ctx, stack, out) {
                    Ok(a) => a,
                    Err(e) => {
                        return Err(e);
                    },
                };
                let name = out.len();
                out.push(Instr::Add { argument1: a1, argument2: a2 });
                Ok(name)
            },
            DensityFunctionImpl::Mul { argument1, argument2 } => {
                let a1 = match argument1.codegen(ctx, stack, out) {
                    Ok(a) => a,
                    Err(e) => {
                        return Err(e);
                    },
                };
                let a2 = match argument2.codegen(ctx, stack, out) {
                    Ok(a) => a,
                    Err(e) => {
                        return Err(e);
                    },
                };
                let name = out.len();
                out.push(Instr::Mul { argument1: a1, argument2: a2 });
                Ok(name)
            },
            DensityFunctionImpl::Min { argument1, argument2 } => {
                let a1 = match argument1.codegen(ctx, stack, out) {
                    Ok(a) => a,
                    Err(e) => {
                        return Err(e);
                    },
                };
                let a2 = match argument2.codegen(ctx, stack, out) {
                    Ok(a) => a,
                    Err(e) => {
                        return Err(e);
                    },
                };
                let name = out.len();
                out.push(Instr::Min { argument1: a1, argument2: a2 });
                Ok(name)
            },
            DensityFunctionImpl::Max { argument1, argument2 } => {
                let a1 = match argument1.codegen(ctx, stack, out) {
                    Ok(a) => a,
                    Err(e) => {
                        return Err(e);
                    },
                };
                let a2 = match argument2.codegen(ctx, stack, out) {
                    Ok(a) => a,
                    Err(e) => {
                        return Err(e);
                    },
                };
                let name = out.len();
                out.push(Instr::Max { argument1: a1, argument2: a2 });
                Ok(name)
            },
            DensityFunctionImpl::BlendAlpha => {
                let name = out.len();
                out.push(Instr::StubZero { kind: StubKind::BlendAlpha });
                Ok(name)
            },
            DensityFunctionImpl::BlendOffset => {
                let name = out.len();
                out.push(Instr::StubZero { kind: StubKind::BlendOffset });
                Ok(name)
            },
            DensityFunctionImpl::BlendDensity { argument } => {
                let a = match argument.codegen(ctx, stack, out) {
                    Ok(a) => a,
                    Err(e) => {
                        return Err(e);
                    },
                };
                let name = out.len();
                out.push(Instr::StubPassThrough { kind: StubKind::BlendDensity, input: a });
                Ok(name)
            },
            DensityFunctionImpl::Beardifier => Err(CompileError::IllegalSentinelReference),
            DensityFunctionImpl::OldBlendedNoise {
                xz_scale,
                y_scale,
                xz_factor,
                y_factor,
                smear_scale_multiplier,
            } => {
                let name = out.len();
                out.push(
                    Instr::OldBlendedNoise {
                        xz_scale: *xz_scale,
                        y_scale: *y_scale,
                        xz_factor: *xz_factor,
                        y_factor: *y_factor,
                        smear_scale_multiplier: *smear_scale_multiplier,
                    },
                );
                Ok(name)
            },
            DensityFunctionImpl::Noise { noise, xz_scale, y_scale } => {
                let n = match ctx.resolve_noise(noise) {
                    Ok(n) => n,
                    Err(e) => {
                        return Err(e);
                    },
                };
                let name = out.len();
                out.push(
                    Instr::Noise {
                        first_octave: n.first_octave,
                        amplitudes: clone_amplitudes(&n.amplitudes),
                        xz_scale: *xz_scale,
                        y_scale: *y_scale,
                    },
                );
                Ok(name)
            },
            DensityFunctionImpl::EndIslands => {
                let name = out.len();
                out.push(Instr::EndIslands);
                Ok(name)
            },
            DensityFunctionImpl::WeirdScaledSampler { rarity_value_mapper, noise, input } => {
                let a = match input.codegen(ctx, stack, out) {
                    Ok(a) => a,
                    Err(e) => {
                        return Err(e);
                    },
                };
                let n = match ctx.resolve_noise(noise) {
                    Ok(n) => n,
                    Err(e) => {
                        return Err(e);
                    },
                };
                let mapper = if is_type_1_mapper(rarity_value_mapper) {
                    RarityMapper::Type1
                } else {
                    RarityMapper::Type2
                };
                let name = out.len();
                out.push(
                    Instr::WeirdScaledSampler {
                        rarity_value_mapper: mapper,
                        first_octave: n.first_octave,
                        amplitudes: clone_amplitudes(&n.amplitudes),
                        input: a,
                    },
                );
                Ok(name)
            },
            DensityFunctionImpl::ShiftedNoise {
                noise,
                xz_scale,
                y_scale,
                shift_x,
                shift_y,
                shift_z,
            } => {
                let x = match shift_x.codegen(ctx, stack, out) {
                    Ok(a) => a,
                    Err(e) => {
                        return Err(e);
                    },
                };
                let y = match shift_y.codegen(ctx, stack, out) {
                    Ok(a) => a,
                    Err(e) => {
                        return Err(e);
                    },
                };
                let z = match shift_z.codegen(ctx, stack, out) {
                    Ok(a) => a,
                    Err(e) => {
                        return Err(e);
                    },
                };
                let n = match ctx.resolve_noise(noise) {
                    Ok(n) => n,
                    Err(e) => {
                        return Err(e);
                    },
                };
                let name = out.len();
                out.push(
                    Instr::ShiftedNoise {
                        first_octave: n.first_octave,
                        amplitudes: clone_amplitudes(&n.amplitudes),
                        xz_scale: *xz_scale,
                        y_scale: *y_scale,
                        shift_x: x,
                        shift_y: y,
                        shift_z: z,
                    },
                );
                Ok(name)
            },
            DensityFunctionImpl::RangeChoice {
                input,
                min_inclusive,
                max_exclusive,
                when_in_range,
                when_out_of_range,
            } => {
                let a = match input.codegen(ctx, stack, out) {
                    Ok(a) => a,
                    Err(e) => {
                        return Err(e);
                    },
                };
                let t = match when_in_range.codegen(ctx, stack, out) {
                    Ok(a) => a,
                    Err(e) => {
                        return Err(e);
                    },
                };
                let f = match when_out_of_range.codegen(ctx, stack, out) {
                    Ok(a) => a,
                    Err(e) => {
                        return Err(e);
                    },
                };
                let name = out.len();
                out.push(
                    Instr::RangeChoice {
                        input: a,
                        min_inclusive: *min_inclusive,
                        max_exclusive: *max_exclusive,
                        when_in_range: t,
                        when_out_of_range: f,
                    },
                );
                Ok(name)
            },
            DensityFunctionImpl::ShiftA { argument } => {
                let n = match ctx.resolve_noise(argument) {
                    Ok(n) => n,
                    Err(e) => {
                        return Err(e);
                    },
                };
                let name = out.len();
                out.push(
                    Instr::ShiftA {
                        first_octave: n.first_octave,
                        amplitudes: clone_amplitudes(&n.amplitudes),
                    },
                );
                Ok(name)
            },
            DensityFunctionImpl::ShiftB { argument } => {
                let n = match ctx.resolve_noise(argument) {
                    Ok(n) => n,
                    Err(e) => {
                        return Err(e);
                    },
                };
                let name = out.len();
                out.push(
                    Instr::ShiftB {
                        first_octave: n.first_octave,
                        amplitudes: clone_amplitudes(&n.amplitudes),
                    },
                );
                Ok(name)
            },
            DensityFunctionImpl::Shift { argument } => {
                let n = match ctx.resolve_noise(argument) {
                    Ok(n) => n,
                    Err(e) => {
                        return Err(e);
                    },
                };
                let name = out.len();
                out.push(
                    Instr::Shift {
                        first_octave: n.first_octave,
                        amplitudes: clone_amplitudes(&n.amplitudes),
                    },
                );
                Ok(name)
            },
            DensityFunctionImpl::Clamp { input, min, max } => {
                let a = match input.codegen(ctx, stack, out) {
                    Ok(a) => a,
                    Err(e) => {
                        return Err(e);
                    },
                };
                let name = out.len();
                out.push(Instr::Clamp { input: a, min: *min, max: *max });
                Ok(name)
            },
            DensityFunctionImpl::Spline { .. } => {
                let name = out.len();
                out.push(Instr::StubZero { kind: StubKind::Spline });
                Ok(name)
            },
            DensityFunctionImpl::Constant { argument } => Ok(
                DensityFunction::codegen_constant(*argument, out),
            ),
            DensityFunctionImpl::YClampedGradient { from_y, to_y, from_value, to_value } => {
                let name = out.len();
                out.push(
                    Instr::YClampedGradient {
                        from_y: *from_y,
                        to_y: *to_y,
                        from_value: *from_value,
                        to_value: *to_value,
                    },
                );
                Ok(name)
            },
            DensityFunctionImpl::FindTopSurface { .. } => Err(
                CompileError::FindTopSurfaceUnsupported,
            ),
        }
    }
}

} // verus!
