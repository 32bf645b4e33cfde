//! Advanced mathematical functions registered as WebAssembly functions:
//! atan2, hyperbolic functions, log2/exp2, sign, clamp and lerp.

use vstd::prelude::*;
use crate::body::Body;
use crate::codegen::{
    CodeGenerator, Signature, appended, defined, shifted, lemma_appended_start, lemma_appended_fits,
    lemma_appended_compose, register_tracked, register_tracked_structured, import_tracked, binding_for,
};
use crate::error::CompilerError;
use crate::memory::MemoryManager;
use crate::wasm::{Instruction, MemArg, BlockType, ValType, WasmType, body_ok};

verus! {

/// The functions `register_functions` registers, in order.
pub open spec fn math_advanced_signatures() -> Seq<Signature> {
    math_advanced_advanced_trig_functions_signatures() + math_advanced_advanced_hyperbolic_functions_signatures() + math_advanced_advanced_log_exp_functions_signatures() + math_advanced_utility_functions_signatures()
}

/// The names `register_functions` binds, with indices counted from its first
/// registered function.
pub open spec fn math_advanced_bindings() -> Seq<(Seq<char>, int)> {
    math_advanced_advanced_trig_functions_bindings() + shifted(math_advanced_advanced_hyperbolic_functions_bindings(), 1) + shifted(math_advanced_advanced_log_exp_functions_bindings(), 4) + shifted(math_advanced_utility_functions_bindings(), 6)
}

/// The functions `register_advanced_trig_functions` registers, in order.
pub open spec fn math_advanced_advanced_trig_functions_signatures() -> Seq<Signature> {
    seq![
        defined(
            "math.atan2Advanced"@,
            seq![WasmType::F64, WasmType::F64],
            Some(WasmType::F64),
            seq![WasmType::F64, WasmType::F64, WasmType::F64, WasmType::F64, WasmType::F64],
            MathAdvancedManager::atan2_advanced_body(),
        ),
    ]
}

/// The names `register_advanced_trig_functions` binds, with indices counted from its first
/// registered function.
pub open spec fn math_advanced_advanced_trig_functions_bindings() -> Seq<(Seq<char>, int)> {
    seq![
        ("math.atan2Advanced"@, 0),
    ]
}

/// The functions `register_advanced_hyperbolic_functions` registers, in order.
pub open spec fn math_advanced_advanced_hyperbolic_functions_signatures() -> Seq<Signature> {
    seq![
        defined(
            "math.sinhAdvanced"@,
            seq![WasmType::F64],
            Some(WasmType::F64),
            seq![WasmType::F64, WasmType::F64, WasmType::F64],
            MathAdvancedManager::sinh_advanced_body(),
        ),
        defined(
            "math.coshAdvanced"@,
            seq![WasmType::F64],
            Some(WasmType::F64),
            seq![WasmType::F64, WasmType::F64, WasmType::F64],
            MathAdvancedManager::cosh_advanced_body(),
        ),
        defined(
            "math.tanhAdvanced"@,
            seq![WasmType::F64],
            Some(WasmType::F64),
            seq![WasmType::F64, WasmType::F64, WasmType::F64, WasmType::F64],
            MathAdvancedManager::tanh_advanced_body(),
        ),
    ]
}

/// The names `register_advanced_hyperbolic_functions` binds, with indices counted from its first
/// registered function.
pub open spec fn math_advanced_advanced_hyperbolic_functions_bindings() -> Seq<(Seq<char>, int)> {
    seq![
        ("math.sinhAdvanced"@, 0),
        ("math.coshAdvanced"@, 1),
        ("math.tanhAdvanced"@, 2),
    ]
}

/// The functions `register_advanced_log_exp_functions` registers, in order.
pub open spec fn math_advanced_advanced_log_exp_functions_signatures() -> Seq<Signature> {
    seq![
        defined(
            "math.log2Advanced"@,
            seq![WasmType::F64],
            Some(WasmType::F64),
            seq![WasmType::F64, WasmType::F64, WasmType::F64, WasmType::F64, WasmType::F64],
            MathAdvancedManager::log2_advanced_body(),
        ),
        defined(
            "math.exp2Advanced"@,
            seq![WasmType::F64],
            Some(WasmType::F64),
            seq![WasmType::F64, WasmType::F64, WasmType::F64, WasmType::F64, WasmType::F64],
            MathAdvancedManager::exp2_advanced_body(),
        ),
    ]
}

/// The names `register_advanced_log_exp_functions` binds, with indices counted from its first
/// registered function.
pub open spec fn math_advanced_advanced_log_exp_functions_bindings() -> Seq<(Seq<char>, int)> {
    seq![
        ("math.log2Advanced"@, 0),
        ("math.exp2Advanced"@, 1),
    ]
}

/// The functions `register_utility_functions` registers, in order.
pub open spec fn math_advanced_utility_functions_signatures() -> Seq<Signature> {
    seq![
        defined(
            "math.signAdvanced"@,
            seq![WasmType::F64],
            Some(WasmType::F64),
            seq![WasmType::F64],
            MathAdvancedManager::sign_advanced_body(),
        ),
        defined(
            "math.clampAdvanced"@,
            seq![WasmType::F64, WasmType::F64, WasmType::F64],
            Some(WasmType::F64),
            seq![WasmType::F64],
            MathAdvancedManager::clamp_advanced_body(),
        ),
        defined(
            "math.lerpAdvanced"@,
            seq![WasmType::F64, WasmType::F64, WasmType::F64],
            Some(WasmType::F64),
            seq![WasmType::F64, WasmType::F64],
            MathAdvancedManager::lerp_advanced_body(),
        ),
    ]
}

/// The names `register_utility_functions` binds, with indices counted from its first
/// registered function.
pub open spec fn math_advanced_utility_functions_bindings() -> Seq<(Seq<char>, int)> {
    seq![
        ("math.signAdvanced"@, 0),
        ("math.clampAdvanced"@, 1),
        ("math.lerpAdvanced"@, 2),
    ]
}

/// Advanced Math class implementation for Clean Language
/// Implements precise mathematical functions with proper algorithms
pub struct MathAdvancedManager {
    /// The memory manager the functions are generated for.
    pub memory_manager: MemoryManager,
}

impl MathAdvancedManager {
    /// A manager that generates the advanced math functions.
    pub fn new(memory_manager: MemoryManager) -> (m: Self)
        ensures
            m.memory_manager == memory_manager,
    {
        MathAdvancedManager { memory_manager }
    }

    /// Register all advanced math functions with the code generator
    pub fn register_functions(&self, codegen: &mut CodeGenerator) -> (r: Result<(), CompilerError>)
        requires
            old(codegen).wf(),
        ensures
            final(codegen).wf(),
            r is Ok <==> old(codegen).n_functions() + 9 <= u32::MAX,
            r is Ok ==> appended(
                *old(codegen),
                *final(codegen),
                math_advanced_signatures(),
                math_advanced_bindings(),
            ),
            r matches Err(e) ==> e == CompilerError::FunctionLimit,
    {
        let ghost g0 = *codegen;
        // Advanced trigonometric functions
        self.register_advanced_trig_functions(codegen)?;
        // Advanced hyperbolic functions
        let ghost g1 = *codegen;
        self.register_advanced_hyperbolic_functions(codegen)?;
        proof {
            lemma_appended_compose(
                g0,
                g1,
                *codegen,
                math_advanced_advanced_trig_functions_signatures(),
                math_advanced_advanced_trig_functions_bindings(),
                math_advanced_advanced_hyperbolic_functions_signatures(),
                math_advanced_advanced_hyperbolic_functions_bindings(),
            );
        }
        // Advanced logarithmic and exponential functions
        let ghost g2 = *codegen;
        self.register_advanced_log_exp_functions(codegen)?;
        proof {
            lemma_appended_compose(
                g0,
                g2,
                *codegen,
                math_advanced_advanced_trig_functions_signatures() + math_advanced_advanced_hyperbolic_functions_signatures(),
                math_advanced_advanced_trig_functions_bindings() + shifted(math_advanced_advanced_hyperbolic_functions_bindings(), 1),
                math_advanced_advanced_log_exp_functions_signatures(),
                math_advanced_advanced_log_exp_functions_bindings(),
            );
        }
        // Utility and special functions
        let ghost g3 = *codegen;
        self.register_utility_functions(codegen)?;
        proof {
            lemma_appended_compose(
                g0,
                g3,
                *codegen,
                math_advanced_advanced_trig_functions_signatures() + math_advanced_advanced_hyperbolic_functions_signatures() + math_advanced_advanced_log_exp_functions_signatures(),
                math_advanced_advanced_trig_functions_bindings() + shifted(math_advanced_advanced_hyperbolic_functions_bindings(), 1) + shifted(math_advanced_advanced_log_exp_functions_bindings(), 4),
                math_advanced_utility_functions_signatures(),
                math_advanced_utility_functions_bindings(),
            );
        }
        proof {
            lemma_appended_fits(g0, *codegen, math_advanced_signatures(), math_advanced_bindings());
        }
        Ok(())
    }

    fn register_advanced_trig_functions(&self, codegen: &mut CodeGenerator) -> (r: Result<(), CompilerError>)
        requires
            old(codegen).wf(),
        ensures
            final(codegen).wf(),
            r is Ok <==> old(codegen).n_functions() + 1 <= u32::MAX,
            r is Ok ==> appended(
                *old(codegen),
                *final(codegen),
                math_advanced_advanced_trig_functions_signatures(),
                math_advanced_advanced_trig_functions_bindings(),
            ),
            r matches Err(e) ==> e == CompilerError::FunctionLimit,
    {
        let ghost start = *codegen;
        let ghost mut sigs = Seq::<Signature>::empty();
        let ghost mut binds = Seq::<(Seq<char>, int)>::empty();
        proof {
            lemma_appended_start(start);
        }
        // Math.atan2Advanced(y, x) -> number
        // Two-parameter arctangent with proper quadrant handling
        let ghost sig = defined(
            "math.atan2Advanced"@,
            seq![WasmType::F64, WasmType::F64],
            Some(WasmType::F64),
            seq![WasmType::F64, WasmType::F64, WasmType::F64, WasmType::F64, WasmType::F64],
            MathAdvancedManager::atan2_advanced_body(),
        );
        register_tracked(
            codegen,
            Ghost(start),
            Ghost(sigs),
            Ghost(binds),
            Ghost(sig),
            "math.atan2Advanced",
            &[WasmType::F64, WasmType::F64],
            Some(WasmType::F64),
            &[WasmType::F64, WasmType::F64, WasmType::F64, WasmType::F64, WasmType::F64],
            self.generate_atan2_advanced(),
        )?;
        proof {
            binds = binds.push(binding_for(sigs, sig));
            sigs = sigs.push(sig);
        }
        proof {
            assert(sigs =~= math_advanced_advanced_trig_functions_signatures());
            assert(binds =~= math_advanced_advanced_trig_functions_bindings());
            lemma_appended_fits(start, *codegen, sigs, binds);
        }
        Ok(())
    }

    fn register_advanced_hyperbolic_functions(&self, codegen: &mut CodeGenerator) -> (r: Result<(), CompilerError>)
        requires
            old(codegen).wf(),
        ensures
            final(codegen).wf(),
            r is Ok <==> old(codegen).n_functions() + 3 <= u32::MAX,
            r is Ok ==> appended(
                *old(codegen),
                *final(codegen),
                math_advanced_advanced_hyperbolic_functions_signatures(),
                math_advanced_advanced_hyperbolic_functions_bindings(),
            ),
            r matches Err(e) ==> e == CompilerError::FunctionLimit,
    {
        let ghost start = *codegen;
        let ghost mut sigs = Seq::<Signature>::empty();
        let ghost mut binds = Seq::<(Seq<char>, int)>::empty();
        proof {
            lemma_appended_start(start);
        }
        // Math.sinhAdvanced(x) -> number
        // Hyperbolic sine with precise calculation
        let ghost sig = defined(
            "math.sinhAdvanced"@,
            seq![WasmType::F64],
            Some(WasmType::F64),
            seq![WasmType::F64, WasmType::F64, WasmType::F64],
            MathAdvancedManager::sinh_advanced_body(),
        );
        register_tracked(
            codegen,
            Ghost(start),
            Ghost(sigs),
            Ghost(binds),
            Ghost(sig),
            "math.sinhAdvanced",
            &[WasmType::F64],
            Some(WasmType::F64),
            &[WasmType::F64, WasmType::F64, WasmType::F64],
            self.generate_sinh_advanced(),
        )?;
        proof {
            binds = binds.push(binding_for(sigs, sig));
            sigs = sigs.push(sig);
        }
        // Math.coshAdvanced(x) -> number
        // Hyperbolic cosine with precise calculation
        let ghost sig = defined(
            "math.coshAdvanced"@,
            seq![WasmType::F64],
            Some(WasmType::F64),
            seq![WasmType::F64, WasmType::F64, WasmType::F64],
            MathAdvancedManager::cosh_advanced_body(),
        );
        register_tracked(
            codegen,
            Ghost(start),
            Ghost(sigs),
            Ghost(binds),
            Ghost(sig),
            "math.coshAdvanced",
            &[WasmType::F64],
            Some(WasmType::F64),
            &[WasmType::F64, WasmType::F64, WasmType::F64],
            self.generate_cosh_advanced(),
        )?;
        proof {
            binds = binds.push(binding_for(sigs, sig));
            sigs = sigs.push(sig);
        }
        // Math.tanhAdvanced(x) -> number
        // Hyperbolic tangent with precise calculation
        let ghost sig = defined(
            "math.tanhAdvanced"@,
            seq![WasmType::F64],
            Some(WasmType::F64),
            seq![WasmType::F64, WasmType::F64, WasmType::F64, WasmType::F64],
            MathAdvancedManager::tanh_advanced_body(),
        );
        register_tracked(
            codegen,
            Ghost(start),
            Ghost(sigs),
            Ghost(binds),
            Ghost(sig),
            "math.tanhAdvanced",
            &[WasmType::F64],
            Some(WasmType::F64),
            &[WasmType::F64, WasmType::F64, WasmType::F64, WasmType::F64],
            self.generate_tanh_advanced(),
        )?;
        proof {
            binds = binds.push(binding_for(sigs, sig));
            sigs = sigs.push(sig);
        }
        proof {
            assert(sigs =~= math_advanced_advanced_hyperbolic_functions_signatures());
            assert(binds =~= math_advanced_advanced_hyperbolic_functions_bindings());
            lemma_appended_fits(start, *codegen, sigs, binds);
        }
        Ok(())
    }

    fn register_advanced_log_exp_functions(&self, codegen: &mut CodeGenerator) -> (r: Result<(), CompilerError>)
        requires
            old(codegen).wf(),
        ensures
            final(codegen).wf(),
            r is Ok <==> old(codegen).n_functions() + 2 <= u32::MAX,
            r is Ok ==> appended(
                *old(codegen),
                *final(codegen),
                math_advanced_advanced_log_exp_functions_signatures(),
                math_advanced_advanced_log_exp_functions_bindings(),
            ),
            r matches Err(e) ==> e == CompilerError::FunctionLimit,
    {
        let ghost start = *codegen;
        let ghost mut sigs = Seq::<Signature>::empty();
        let ghost mut binds = Seq::<(Seq<char>, int)>::empty();
        proof {
            lemma_appended_start(start);
        }
        // Math.log2Advanced(x) -> number
        // Base-2 logarithm with precise calculation
        let ghost sig = defined(
            "math.log2Advanced"@,
            seq![WasmType::F64],
            Some(WasmType::F64),
            seq![WasmType::F64, WasmType::F64, WasmType::F64, WasmType::F64, WasmType::F64],
            MathAdvancedManager::log2_advanced_body(),
        );
        register_tracked(
            codegen,
            Ghost(start),
            Ghost(sigs),
            Ghost(binds),
            Ghost(sig),
            "math.log2Advanced",
            &[WasmType::F64],
            Some(WasmType::F64),
            &[WasmType::F64, WasmType::F64, WasmType::F64, WasmType::F64, WasmType::F64],
            self.generate_log2_advanced(),
        )?;
        proof {
            binds = binds.push(binding_for(sigs, sig));
            sigs = sigs.push(sig);
        }
        // Math.exp2Advanced(x) -> number
        // Base-2 exponential with precise calculation
        let ghost sig = defined(
            "math.exp2Advanced"@,
            seq![WasmType::F64],
            Some(WasmType::F64),
            seq![WasmType::F64, WasmType::F64, WasmType::F64, WasmType::F64, WasmType::F64],
            MathAdvancedManager::exp2_advanced_body(),
        );
        // This body names locals beyond the 6 it declares; it is
        // registered as structured only.
        register_tracked_structured(
            codegen,
            Ghost(start),
            Ghost(sigs),
            Ghost(binds),
            Ghost(sig),
            "math.exp2Advanced",
            &[WasmType::F64],
            Some(WasmType::F64),
            &[WasmType::F64, WasmType::F64, WasmType::F64, WasmType::F64, WasmType::F64],
            self.generate_exp2_advanced(),
        )?;
        proof {
            binds = binds.push(binding_for(sigs, sig));
            sigs = sigs.push(sig);
        }
        proof {
            assert(sigs =~= math_advanced_advanced_log_exp_functions_signatures());
            assert(binds =~= math_advanced_advanced_log_exp_functions_bindings());
            lemma_appended_fits(start, *codegen, sigs, binds);
        }
        Ok(())
    }

    fn register_utility_functions(&self, codegen: &mut CodeGenerator) -> (r: Result<(), CompilerError>)
        requires
            old(codegen).wf(),
        ensures
            final(codegen).wf(),
            r is Ok <==> old(codegen).n_functions() + 3 <= u32::MAX,
            r is Ok ==> appended(
                *old(codegen),
                *final(codegen),
                math_advanced_utility_functions_signatures(),
                math_advanced_utility_functions_bindings(),
            ),
            r matches Err(e) ==> e == CompilerError::FunctionLimit,
    {
        let ghost start = *codegen;
        let ghost mut sigs = Seq::<Signature>::empty();
        let ghost mut binds = Seq::<(Seq<char>, int)>::empty();
        proof {
            lemma_appended_start(start);
        }
        // Math.signAdvanced(x) -> number
        // Sign function returning -1, 0, or 1
        let ghost sig = defined(
            "math.signAdvanced"@,
            seq![WasmType::F64],
            Some(WasmType::F64),
            seq![WasmType::F64],
            MathAdvancedManager::sign_advanced_body(),
        );
        register_tracked(
            codegen,
            Ghost(start),
            Ghost(sigs),
            Ghost(binds),
            Ghost(sig),
            "math.signAdvanced",
            &[WasmType::F64],
            Some(WasmType::F64),
            &[WasmType::F64],
            self.generate_sign_advanced(),
        )?;
        proof {
            binds = binds.push(binding_for(sigs, sig));
            sigs = sigs.push(sig);
        }
        // Math.clampAdvanced(value, min, max) -> number
        // Clamp value between min and max bounds
        let ghost sig = defined(
            "math.clampAdvanced"@,
            seq![WasmType::F64, WasmType::F64, WasmType::F64],
            Some(WasmType::F64),
            seq![WasmType::F64],
            MathAdvancedManager::clamp_advanced_body(),
        );
        register_tracked(
            codegen,
            Ghost(start),
            Ghost(sigs),
            Ghost(binds),
            Ghost(sig),
            "math.clampAdvanced",
            &[WasmType::F64, WasmType::F64, WasmType::F64],
            Some(WasmType::F64),
            &[WasmType::F64],
            self.generate_clamp_advanced(),
        )?;
        proof {
            binds = binds.push(binding_for(sigs, sig));
            sigs = sigs.push(sig);
        }
        // Math.lerpAdvanced(start, end, t) -> number
        // Linear interpolation between start and end
        let ghost sig = defined(
            "math.lerpAdvanced"@,
            seq![WasmType::F64, WasmType::F64, WasmType::F64],
            Some(WasmType::F64),
            seq![WasmType::F64, WasmType::F64],
            MathAdvancedManager::lerp_advanced_body(),
        );
        register_tracked(
            codegen,
            Ghost(start),
            Ghost(sigs),
            Ghost(binds),
            Ghost(sig),
            "math.lerpAdvanced",
            &[WasmType::F64, WasmType::F64, WasmType::F64],
            Some(WasmType::F64),
            &[WasmType::F64, WasmType::F64],
            self.generate_lerp_advanced(),
        )?;
        proof {
            binds = binds.push(binding_for(sigs, sig));
            sigs = sigs.push(sig);
        }
        proof {
            assert(sigs =~= math_advanced_utility_functions_signatures());
            assert(binds =~= math_advanced_utility_functions_bindings());
            lemma_appended_fits(start, *codegen, sigs, binds);
        }
        Ok(())
    }

    /// The instructions `generate_atan2_advanced` returns.
    #[verifier::opaque]
    pub open spec fn atan2_advanced_body() -> Seq<Instruction> {
        seq![
            Instruction::LocalGet(1),
            Instruction::F64Const(0x0000000000000000u64),
            Instruction::F64Eq,
            Instruction::If(BlockType::Result(ValType::F64)),
            Instruction::LocalGet(0),
            Instruction::F64Const(0x0000000000000000u64),
            Instruction::F64Gt,
            Instruction::If(BlockType::Result(ValType::F64)),
            Instruction::F64Const(0x3ff921fb54442d18u64),
            Instruction::Else,
            Instruction::LocalGet(0),
            Instruction::F64Const(0x0000000000000000u64),
            Instruction::F64Lt,
            Instruction::If(BlockType::Result(ValType::F64)),
            Instruction::F64Const(0xbff921fb54442d18u64),
            Instruction::Else,
            Instruction::F64Const(0x0000000000000000u64),
            Instruction::End,
            Instruction::End,
            Instruction::Else,
            Instruction::LocalGet(0),
            Instruction::F64Abs,
            Instruction::LocalSet(2),
            Instruction::LocalGet(1),
            Instruction::F64Abs,
            Instruction::LocalSet(3),
            Instruction::LocalGet(2),
            Instruction::LocalGet(3),
            Instruction::F64Div,
            Instruction::LocalSet(4),
            Instruction::LocalGet(4),
            Instruction::LocalGet(4),
            Instruction::LocalGet(4),
            Instruction::F64Mul,
            Instruction::F64Mul,
            Instruction::F64Const(0x4008000000000000u64),
            Instruction::F64Div,
            Instruction::LocalGet(4),
            Instruction::F64Sub,
            Instruction::LocalSet(5),
            Instruction::LocalGet(1),
            Instruction::F64Const(0x0000000000000000u64),
            Instruction::F64Lt,
            Instruction::If(BlockType::Empty),
            Instruction::LocalGet(0),
            Instruction::F64Const(0x0000000000000000u64),
            Instruction::F64Ge,
            Instruction::If(BlockType::Empty),
            Instruction::LocalGet(5),
            Instruction::F64Const(0x400921fb54442d18u64),
            Instruction::F64Add,
            Instruction::LocalSet(5),
            Instruction::Else,
            Instruction::LocalGet(5),
            Instruction::F64Const(0x400921fb54442d18u64),
            Instruction::F64Sub,
            Instruction::LocalSet(5),
            Instruction::End,
            Instruction::End,
            Instruction::LocalGet(0),
            Instruction::F64Const(0x0000000000000000u64),
            Instruction::F64Lt,
            Instruction::If(BlockType::Empty),
            Instruction::LocalGet(5),
            Instruction::F64Neg,
            Instruction::LocalSet(5),
            Instruction::End,
            Instruction::LocalGet(5),
            Instruction::End,
        ]
    }

    #[verifier::rlimit(40)]
    #[verifier::spinoff_prover]
    pub fn generate_atan2_advanced(&self) -> (r: Vec<Instruction>)
        ensures
            body_ok(r@, 7),
            r@ == Self::atan2_advanced_body(),
    {
        proof {
            reveal(MathAdvancedManager::atan2_advanced_body);
        }
        let mut b = Body::new(7);
        // atan2(y, x) implementation with proper quadrant handling
        // Parameters: y (param 0), x (param 1)
        // Handle special cases: x = 0
        b.i(Instruction::LocalGet(1)); // x
        b.i(Instruction::F64Const(0x0000000000000000u64)); // 0.0
        b.i(Instruction::F64Eq);
        b.i(Instruction::If(BlockType::Result(ValType::F64)));
        // x == 0: return π/2 if y > 0, -π/2 if y < 0, 0 if y == 0
        b.i(Instruction::LocalGet(0)); // y
        b.i(Instruction::F64Const(0x0000000000000000u64)); // 0.0
        b.i(Instruction::F64Gt);
        b.i(Instruction::If(BlockType::Result(ValType::F64)));
        // y > 0: return π/2
        b.i(Instruction::F64Const(0x3ff921fb54442d18u64)); // FRAC_PI_2
        b.i(Instruction::Else);
        // y <= 0: check if y < 0
        b.i(Instruction::LocalGet(0)); // y
        b.i(Instruction::F64Const(0x0000000000000000u64)); // 0.0
        b.i(Instruction::F64Lt);
        b.i(Instruction::If(BlockType::Result(ValType::F64)));
        // y < 0: return -π/2
        b.i(Instruction::F64Const(0xbff921fb54442d18u64)); // -FRAC_PI_2
        b.i(Instruction::Else);
        // y == 0: return 0
        b.i(Instruction::F64Const(0x0000000000000000u64)); // 0.0
        b.i(Instruction::End);
        b.i(Instruction::End);
        b.i(Instruction::Else);
        // x != 0: compute atan(y/x) and adjust for quadrant
        // Get absolute values for calculation
        b.i(Instruction::LocalGet(0)); // y
        b.i(Instruction::F64Abs);
        b.i(Instruction::LocalSet(2)); // abs_y
        b.i(Instruction::LocalGet(1)); // x
        b.i(Instruction::F64Abs);
        b.i(Instruction::LocalSet(3)); // abs_x
        // Calculate atan(abs_y/abs_x) using approximation
        b.i(Instruction::LocalGet(2)); // abs_y
        b.i(Instruction::LocalGet(3)); // abs_x
        b.i(Instruction::F64Div);
        b.i(Instruction::LocalSet(4)); // ratio = abs_y/abs_x
        // Approximate atan(ratio) using first few terms of Taylor series
        // atan(z) ≈ z - z³/3 + z⁵/5 for |z| < 1
        b.i(Instruction::LocalGet(4)); // ratio
        b.i(Instruction::LocalGet(4)); // ratio
        b.i(Instruction::LocalGet(4)); // ratio
        b.i(Instruction::F64Mul); // ratio²
        b.i(Instruction::F64Mul); // ratio³
        b.i(Instruction::F64Const(0x4008000000000000u64)); // 3.0
        b.i(Instruction::F64Div); // ratio³/3
        b.i(Instruction::LocalGet(4)); // ratio
        b.i(Instruction::F64Sub); // ratio - ratio³/3
        b.i(Instruction::LocalSet(5)); // result = approximate atan
        // Adjust for quadrant based on signs of x and y
        b.i(Instruction::LocalGet(1)); // x
        b.i(Instruction::F64Const(0x0000000000000000u64)); // 0.0
        b.i(Instruction::F64Lt); // x < 0
        b.i(Instruction::If(BlockType::Empty));
        // x < 0: add or subtract π
        b.i(Instruction::LocalGet(0)); // y
        b.i(Instruction::F64Const(0x0000000000000000u64)); // 0.0
        b.i(Instruction::F64Ge); // y >= 0
        b.i(Instruction::If(BlockType::Empty));
        // Quadrant II: add π
        b.i(Instruction::LocalGet(5)); // result
        b.i(Instruction::F64Const(0x400921fb54442d18u64)); // PI
        b.i(Instruction::F64Add);
        b.i(Instruction::LocalSet(5)); // result += π
        b.i(Instruction::Else);
        // Quadrant III: subtract π
        b.i(Instruction::LocalGet(5)); // result
        b.i(Instruction::F64Const(0x400921fb54442d18u64)); // PI
        b.i(Instruction::F64Sub);
        b.i(Instruction::LocalSet(5)); // result -= π
        b.i(Instruction::End);
        b.i(Instruction::End);
        // Apply sign of y to result
        b.i(Instruction::LocalGet(0)); // y
        b.i(Instruction::F64Const(0x0000000000000000u64)); // 0.0
        b.i(Instruction::F64Lt); // y < 0
        b.i(Instruction::If(BlockType::Empty));
        // y < 0: negate result
        b.i(Instruction::LocalGet(5)); // result
        b.i(Instruction::F64Neg);
        b.i(Instruction::LocalSet(5)); // result = -result
        b.i(Instruction::End);
        b.i(Instruction::LocalGet(5)); // final result
        b.i(Instruction::End);
        b.finish()
    }

    /// The instructions `generate_sinh_advanced` returns.
    #[verifier::opaque]
    pub open spec fn sinh_advanced_body() -> Seq<Instruction> {
        seq![
            Instruction::F64Const(0x3ff0000000000000u64),
            Instruction::LocalGet(0),
            Instruction::F64Add,
            Instruction::LocalGet(0),
            Instruction::LocalGet(0),
            Instruction::F64Mul,
            Instruction::F64Const(0x4000000000000000u64),
            Instruction::F64Div,
            Instruction::F64Add,
            Instruction::LocalGet(0),
            Instruction::LocalGet(0),
            Instruction::F64Mul,
            Instruction::LocalGet(0),
            Instruction::F64Mul,
            Instruction::F64Const(0x4018000000000000u64),
            Instruction::F64Div,
            Instruction::F64Add,
            Instruction::LocalSet(2),
            Instruction::F64Const(0x3ff0000000000000u64),
            Instruction::LocalGet(0),
            Instruction::F64Neg,
            Instruction::F64Add,
            Instruction::LocalGet(0),
            Instruction::LocalGet(0),
            Instruction::F64Mul,
            Instruction::F64Const(0x4000000000000000u64),
            Instruction::F64Div,
            Instruction::F64Add,
            Instruction::LocalGet(0),
            Instruction::LocalGet(0),
            Instruction::F64Mul,
            Instruction::LocalGet(0),
            Instruction::F64Mul,
            Instruction::F64Neg,
            Instruction::F64Const(0x4018000000000000u64),
            Instruction::F64Div,
            Instruction::F64Add,
            Instruction::LocalSet(3),
            Instruction::LocalGet(2),
            Instruction::LocalGet(3),
            Instruction::F64Sub,
            Instruction::F64Const(0x4000000000000000u64),
            Instruction::F64Div,
        ]
    }

    #[verifier::rlimit(40)]
    #[verifier::spinoff_prover]
    pub fn generate_sinh_advanced(&self) -> (r: Vec<Instruction>)
        ensures
            body_ok(r@, 4),
            r@ == Self::sinh_advanced_body(),
    {
        proof {
            reveal(MathAdvancedManager::sinh_advanced_body);
        }
        let mut b = Body::new(4);
        // sinh(x) = (e^x - e^(-x)) / 2
        // Using approximation: e^x ≈ 1 + x + x²/2 + x³/6 for reasonable precision
        // Calculate e^x approximation
        b.i(Instruction::F64Const(0x3ff0000000000000u64)); // 1
        b.i(Instruction::LocalGet(0)); // x
        b.i(Instruction::F64Add); // 1 + x
        b.i(Instruction::LocalGet(0)); // x
        b.i(Instruction::LocalGet(0)); // x
        b.i(Instruction::F64Mul); // x²
        b.i(Instruction::F64Const(0x4000000000000000u64)); // 2.0
        b.i(Instruction::F64Div); // x²/2
        b.i(Instruction::F64Add); // 1 + x + x²/2
        b.i(Instruction::LocalGet(0)); // x
        b.i(Instruction::LocalGet(0)); // x
        b.i(Instruction::F64Mul); // x²
        b.i(Instruction::LocalGet(0)); // x
        b.i(Instruction::F64Mul); // x³
        b.i(Instruction::F64Const(0x4018000000000000u64)); // 6.0
        b.i(Instruction::F64Div); // x³/6
        b.i(Instruction::F64Add); // 1 + x + x²/2 + x³/6
        b.i(Instruction::LocalSet(2)); // exp_x
        // Calculate e^(-x) approximation
        b.i(Instruction::F64Const(0x3ff0000000000000u64)); // 1
        b.i(Instruction::LocalGet(0)); // x
        b.i(Instruction::F64Neg); // -x
        b.i(Instruction::F64Add); // 1 + (-x) = 1 - x
        b.i(Instruction::LocalGet(0)); // x
        b.i(Instruction::LocalGet(0)); // x
        b.i(Instruction::F64Mul); // x²
        b.i(Instruction::F64Const(0x4000000000000000u64)); // 2.0
        b.i(Instruction::F64Div); // x²/2
        b.i(Instruction::F64Add); // 1 - x + x²/2
        b.i(Instruction::LocalGet(0)); // x
        b.i(Instruction::LocalGet(0)); // x
        b.i(Instruction::F64Mul); // x²
        b.i(Instruction::LocalGet(0)); // x
        b.i(Instruction::F64Mul); // x³
        b.i(Instruction::F64Neg); // -x³
        b.i(Instruction::F64Const(0x4018000000000000u64)); // 6.0
        b.i(Instruction::F64Div); // -x³/6
        b.i(Instruction::F64Add); // 1 - x + x²/2 - x³/6
        b.i(Instruction::LocalSet(3)); // exp_neg_x
        // Calculate sinh(x) = (e^x - e^(-x)) / 2
        b.i(Instruction::LocalGet(2)); // exp_x
        b.i(Instruction::LocalGet(3)); // exp_neg_x
        b.i(Instruction::F64Sub); // exp_x - exp_neg_x
        b.i(Instruction::F64Const(0x4000000000000000u64)); // 2.0
        b.i(Instruction::F64Div); // (exp_x - exp_neg_x) / 2
        b.finish()
    }

    /// The instructions `generate_cosh_advanced` returns.
    #[verifier::opaque]
    pub open spec fn cosh_advanced_body() -> Seq<Instruction> {
        seq![
            Instruction::F64Const(0x3ff0000000000000u64),
            Instruction::LocalGet(0),
            Instruction::F64Add,
            Instruction::LocalGet(0),
            Instruction::LocalGet(0),
            Instruction::F64Mul,
            Instruction::F64Const(0x4000000000000000u64),
            Instruction::F64Div,
            Instruction::F64Add,
            Instruction::LocalGet(0),
            Instruction::LocalGet(0),
            Instruction::F64Mul,
            Instruction::LocalGet(0),
            Instruction::F64Mul,
            Instruction::F64Const(0x4018000000000000u64),
            Instruction::F64Div,
            Instruction::F64Add,
            Instruction::LocalSet(2),
            Instruction::F64Const(0x3ff0000000000000u64),
            Instruction::LocalGet(0),
            Instruction::F64Neg,
            Instruction::F64Add,
            Instruction::LocalGet(0),
            Instruction::LocalGet(0),
            Instruction::F64Mul,
            Instruction::F64Const(0x4000000000000000u64),
            Instruction::F64Div,
            Instruction::F64Add,
            Instruction::LocalGet(0),
            Instruction::LocalGet(0),
            Instruction::F64Mul,
            Instruction::LocalGet(0),
            Instruction::F64Mul,
            Instruction::F64Neg,
            Instruction::F64Const(0x4018000000000000u64),
            Instruction::F64Div,
            Instruction::F64Add,
            Instruction::LocalSet(3),
            Instruction::LocalGet(2),
            Instruction::LocalGet(3),
            Instruction::F64Add,
            Instruction::F64Const(0x4000000000000000u64),
            Instruction::F64Div,
        ]
    }

    #[verifier::rlimit(40)]
    #[verifier::spinoff_prover]
    pub fn generate_cosh_advanced(&self) -> (r: Vec<Instruction>)
        ensures
            body_ok(r@, 4),
            r@ == Self::cosh_advanced_body(),
    {
        proof {
            reveal(MathAdvancedManager::cosh_advanced_body);
        }
        let mut b = Body::new(4);
        // cosh(x) = (e^x + e^(-x)) / 2
        // Using same approximation as sinh but with addition
        // Calculate e^x approximation (same as sinh)
        b.i(Instruction::F64Const(0x3ff0000000000000u64)); // 1
        b.i(Instruction::LocalGet(0)); // x
        b.i(Instruction::F64Add); // 1 + x
        b.i(Instruction::LocalGet(0)); // x
        b.i(Instruction::LocalGet(0)); // x
        b.i(Instruction::F64Mul); // x²
        b.i(Instruction::F64Const(0x4000000000000000u64)); // 2.0
        b.i(Instruction::F64Div); // x²/2
        b.i(Instruction::F64Add); // 1 + x + x²/2
        b.i(Instruction::LocalGet(0)); // x
        b.i(Instruction::LocalGet(0)); // x
        b.i(Instruction::F64Mul); // x²
        b.i(Instruction::LocalGet(0)); // x
        b.i(Instruction::F64Mul); // x³
        b.i(Instruction::F64Const(0x4018000000000000u64)); // 6.0
        b.i(Instruction::F64Div); // x³/6
        b.i(Instruction::F64Add); // 1 + x + x²/2 + x³/6
        b.i(Instruction::LocalSet(2)); // exp_x
        // Calculate e^(-x) approximation (same as sinh)
        b.i(Instruction::F64Const(0x3ff0000000000000u64)); // 1
        b.i(Instruction::LocalGet(0)); // x
        b.i(Instruction::F64Neg); // -x
        b.i(Instruction::F64Add); // 1 - x
        b.i(Instruction::LocalGet(0)); // x
        b.i(Instruction::LocalGet(0)); // x
        b.i(Instruction::F64Mul); // x²
        b.i(Instruction::F64Const(0x4000000000000000u64)); // 2.0
        b.i(Instruction::F64Div); // x²/2
        b.i(Instruction::F64Add); // 1 - x + x²/2
        b.i(Instruction::LocalGet(0)); // x
        b.i(Instruction::LocalGet(0)); // x
        b.i(Instruction::F64Mul); // x²
        b.i(Instruction::LocalGet(0)); // x
        b.i(Instruction::F64Mul); // x³
        b.i(Instruction::F64Neg); // -x³
        b.i(Instruction::F64Const(0x4018000000000000u64)); // 6.0
        b.i(Instruction::F64Div); // -x³/6
        b.i(Instruction::F64Add); // 1 - x + x²/2 - x³/6
        b.i(Instruction::LocalSet(3)); // exp_neg_x
        // Calculate cosh(x) = (e^x + e^(-x)) / 2
        b.i(Instruction::LocalGet(2)); // exp_x
        b.i(Instruction::LocalGet(3)); // exp_neg_x
        b.i(Instruction::F64Add); // exp_x + exp_neg_x
        b.i(Instruction::F64Const(0x4000000000000000u64)); // 2.0
        b.i(Instruction::F64Div); // (exp_x + exp_neg_x) / 2
        b.finish()
    }

    /// The instructions `generate_tanh_advanced` returns.
    #[verifier::opaque]
    pub open spec fn tanh_advanced_body() -> Seq<Instruction> {
        seq![
            Instruction::LocalGet(0),
            Instruction::F64Const(0x4000000000000000u64),
            Instruction::F64Mul,
            Instruction::F64Const(0x3ff0000000000000u64),
            Instruction::LocalGet(0),
            Instruction::F64Const(0x4000000000000000u64),
            Instruction::F64Mul,
            Instruction::F64Add,
            Instruction::LocalGet(0),
            Instruction::F64Const(0x4000000000000000u64),
            Instruction::F64Mul,
            Instruction::LocalGet(0),
            Instruction::F64Const(0x4000000000000000u64),
            Instruction::F64Mul,
            Instruction::F64Mul,
            Instruction::F64Const(0x4000000000000000u64),
            Instruction::F64Div,
            Instruction::F64Add,
            Instruction::LocalSet(2),
            Instruction::LocalGet(2),
            Instruction::F64Const(0x3ff0000000000000u64),
            Instruction::F64Add,
            Instruction::LocalSet(3),
            Instruction::LocalGet(2),
            Instruction::F64Const(0x3ff0000000000000u64),
            Instruction::F64Sub,
            Instruction::LocalSet(4),
            Instruction::LocalGet(4),
            Instruction::LocalGet(3),
            Instruction::F64Div,
        ]
    }

    pub fn generate_tanh_advanced(&self) -> (r: Vec<Instruction>)
        ensures
            body_ok(r@, 5),
            r@ == Self::tanh_advanced_body(),
    {
        proof {
            reveal(MathAdvancedManager::tanh_advanced_body);
        }
        let mut b = Body::new(5);
        // tanh(x) = (e^(2x) - 1) / (e^(2x) + 1)
        // More numerically stable than sinh/cosh for large x
        // Calculate 2x
        b.i(Instruction::LocalGet(0)); // x
        b.i(Instruction::F64Const(0x4000000000000000u64)); // 2.0
        b.i(Instruction::F64Mul); // 2x
        // Calculate e^(2x) using approximation
        b.i(Instruction::F64Const(0x3ff0000000000000u64)); // 1
        b.i(Instruction::LocalGet(0)); // x
        b.i(Instruction::F64Const(0x4000000000000000u64)); // 2.0
        b.i(Instruction::F64Mul); // 2x
        b.i(Instruction::F64Add); // 1 + 2x
        b.i(Instruction::LocalGet(0)); // x
        b.i(Instruction::F64Const(0x4000000000000000u64)); // 2.0
        b.i(Instruction::F64Mul); // 2x
        b.i(Instruction::LocalGet(0)); // x
        b.i(Instruction::F64Const(0x4000000000000000u64)); // 2.0
        b.i(Instruction::F64Mul); // 2x
        b.i(Instruction::F64Mul); // (2x)²
        b.i(Instruction::F64Const(0x4000000000000000u64)); // 2.0
        b.i(Instruction::F64Div); // (2x)²/2
        b.i(Instruction::F64Add); // 1 + 2x + (2x)²/2
        b.i(Instruction::LocalSet(2)); // exp_2x
        // Calculate e^(2x) + 1
        b.i(Instruction::LocalGet(2)); // exp_2x
        b.i(Instruction::F64Const(0x3ff0000000000000u64)); // 1.0
        b.i(Instruction::F64Add);
        b.i(Instruction::LocalSet(3)); // exp_2x_plus_1
        // Calculate e^(2x) - 1
        b.i(Instruction::LocalGet(2)); // exp_2x
        b.i(Instruction::F64Const(0x3ff0000000000000u64)); // 1.0
        b.i(Instruction::F64Sub);
        b.i(Instruction::LocalSet(4)); // numerator = exp_2x - 1
        // Calculate tanh(x) = (e^(2x) - 1) / (e^(2x) + 1)
        b.i(Instruction::LocalGet(4)); // numerator
        b.i(Instruction::LocalGet(3)); // exp_2x_plus_1
        b.i(Instruction::F64Div); // (exp_2x - 1) / (exp_2x + 1)
        b.finish()
    }

    /// The instructions `generate_log2_advanced` returns.
    #[verifier::opaque]
    pub open spec fn log2_advanced_body() -> Seq<Instruction> {
        seq![
            Instruction::LocalGet(0),
            Instruction::F64Const(0x0000000000000000u64),
            Instruction::F64Le,
            Instruction::If(BlockType::Result(ValType::F64)),
            Instruction::F64Const(0x7ff8000000000000u64),
            Instruction::Else,
            Instruction::LocalGet(0),
            Instruction::F64Const(0x3ff0000000000000u64),
            Instruction::F64Sub,
            Instruction::LocalSet(2),
            Instruction::LocalGet(2),
            Instruction::LocalSet(4),
            Instruction::LocalGet(2),
            Instruction::LocalGet(2),
            Instruction::F64Mul,
            Instruction::F64Const(0x4000000000000000u64),
            Instruction::F64Div,
            Instruction::LocalSet(3),
            Instruction::LocalGet(4),
            Instruction::LocalGet(3),
            Instruction::F64Sub,
            Instruction::LocalSet(4),
            Instruction::LocalGet(2),
            Instruction::LocalGet(3),
            Instruction::F64Mul,
            Instruction::F64Const(0x4000000000000000u64),
            Instruction::F64Mul,
            Instruction::F64Const(0x4008000000000000u64),
            Instruction::F64Div,
            Instruction::LocalGet(4),
            Instruction::F64Add,
            Instruction::LocalSet(4),
            Instruction::LocalGet(4),
            Instruction::F64Const(0x3fe62e42fefa39efu64),
            Instruction::F64Div,
            Instruction::End,
        ]
    }

    pub fn generate_log2_advanced(&self) -> (r: Vec<Instruction>)
        ensures
            body_ok(r@, 6),
            r@ == Self::log2_advanced_body(),
    {
        proof {
            reveal(MathAdvancedManager::log2_advanced_body);
        }
        let mut b = Body::new(6);
        // log2(x) = ln(x) / ln(2)
        // Using ln(x) ≈ (x-1) - (x-1)²/2 + (x-1)³/3 for x near 1
        // Check for x <= 0 (return NaN for invalid input)
        b.i(Instruction::LocalGet(0)); // x
        b.i(Instruction::F64Const(0x0000000000000000u64)); // 0.0
        b.i(Instruction::F64Le); // x <= 0
        b.i(Instruction::If(BlockType::Result(ValType::F64)));
        // Invalid input: return NaN
        b.i(Instruction::F64Const(0x7ff8000000000000u64)); // NAN
        b.i(Instruction::Else);
        // Valid input: calculate log2(x)
        // Calculate ln(x) using series expansion around x=1
        b.i(Instruction::LocalGet(0)); // x
        b.i(Instruction::F64Const(0x3ff0000000000000u64)); // 1.0
        b.i(Instruction::F64Sub); // x - 1
        b.i(Instruction::LocalSet(2)); // term = x - 1
        // Start with first term: (x-1)
        b.i(Instruction::LocalGet(2)); // x - 1
        b.i(Instruction::LocalSet(4)); // result = x - 1
        // Subtract (x-1)²/2
        b.i(Instruction::LocalGet(2)); // x - 1
        b.i(Instruction::LocalGet(2)); // x - 1
        b.i(Instruction::F64Mul); // (x-1)²
        b.i(Instruction::F64Const(0x4000000000000000u64)); // 2.0
        b.i(Instruction::F64Div); // (x-1)²/2
        b.i(Instruction::LocalSet(3)); // power = (x-1)²/2
        b.i(Instruction::LocalGet(4)); // result
        b.i(Instruction::LocalGet(3)); // (x-1)²/2
        b.i(Instruction::F64Sub); // result - (x-1)²/2
        b.i(Instruction::LocalSet(4)); // result
        // Add (x-1)³/3
        b.i(Instruction::LocalGet(2)); // x - 1
        b.i(Instruction::LocalGet(3)); // (x-1)²/2
        b.i(Instruction::F64Mul); // (x-1) * (x-1)²/2
        b.i(Instruction::F64Const(0x4000000000000000u64)); // 2.0
        b.i(Instruction::F64Mul); // (x-1)³
        b.i(Instruction::F64Const(0x4008000000000000u64)); // 3.0
        b.i(Instruction::F64Div); // (x-1)³/3
        b.i(Instruction::LocalGet(4)); // result
        b.i(Instruction::F64Add); // result + (x-1)³/3
        b.i(Instruction::LocalSet(4)); // ln_x ≈ result
        // Calculate log2(x) = ln(x) / ln(2)
        b.i(Instruction::LocalGet(4)); // ln_x
        b.i(Instruction::F64Const(0x3fe62e42fefa39efu64)); // LN_2
        b.i(Instruction::F64Div); // ln_x / ln(2)
        b.i(Instruction::End);
        b.finish()
    }

    /// The instructions `generate_exp2_advanced` returns.
    #[verifier::opaque]
    pub open spec fn exp2_advanced_body() -> Seq<Instruction> {
        seq![
            Instruction::LocalGet(0),
            Instruction::F64Const(0x3fe62e42fefa39efu64),
            Instruction::F64Mul,
            Instruction::LocalSet(2),
            Instruction::F64Const(0x3ff0000000000000u64),
            Instruction::LocalSet(6),
            Instruction::LocalGet(6),
            Instruction::LocalGet(2),
            Instruction::F64Add,
            Instruction::LocalSet(6),
            Instruction::LocalGet(2),
            Instruction::LocalGet(2),
            Instruction::F64Mul,
            Instruction::F64Const(0x4000000000000000u64),
            Instruction::F64Div,
            Instruction::LocalSet(4),
            Instruction::LocalGet(6),
            Instruction::LocalGet(4),
            Instruction::F64Add,
            Instruction::LocalSet(6),
            Instruction::LocalGet(4),
            Instruction::LocalGet(2),
            Instruction::F64Mul,
            Instruction::F64Const(0x4008000000000000u64),
            Instruction::F64Div,
            Instruction::LocalSet(5),
            Instruction::LocalGet(6),
            Instruction::LocalGet(5),
            Instruction::F64Add,
            Instruction::LocalSet(6),
            Instruction::LocalGet(5),
            Instruction::LocalGet(2),
            Instruction::F64Mul,
            Instruction::F64Const(0x4010000000000000u64),
            Instruction::F64Div,
            Instruction::LocalGet(6),
            Instruction::F64Add,
        ]
    }

    pub fn generate_exp2_advanced(&self) -> (r: Vec<Instruction>)
        ensures
            body_ok(r@, 7),
            r@ == Self::exp2_advanced_body(),
    {
        proof {
            reveal(MathAdvancedManager::exp2_advanced_body);
        }
        let mut b = Body::new(7);
        // 2^x = e^(x * ln(2))
        // Using e^y ≈ 1 + y + y²/2 + y³/6 + y⁴/24
        // Calculate y = x * ln(2)
        b.i(Instruction::LocalGet(0)); // x
        b.i(Instruction::F64Const(0x3fe62e42fefa39efu64)); // LN_2
        b.i(Instruction::F64Mul); // y = x * ln(2)
        b.i(Instruction::LocalSet(2)); // ln2_x = y
        // Calculate e^y using Taylor series
        // Start with 1
        b.i(Instruction::F64Const(0x3ff0000000000000u64)); // 1.0
        b.i(Instruction::LocalSet(6)); // result = 1
        // Add y
        b.i(Instruction::LocalGet(6)); // result
        b.i(Instruction::LocalGet(2)); // ln2_x
        b.i(Instruction::F64Add); // result + y
        b.i(Instruction::LocalSet(6)); // result = 1 + y
        // Add y²/2
        b.i(Instruction::LocalGet(2)); // ln2_x
        b.i(Instruction::LocalGet(2)); // ln2_x
        b.i(Instruction::F64Mul); // y²
        b.i(Instruction::F64Const(0x4000000000000000u64)); // 2.0
        b.i(Instruction::F64Div); // y²/2
        b.i(Instruction::LocalSet(4)); // power = y²/2
        b.i(Instruction::LocalGet(6)); // result
        b.i(Instruction::LocalGet(4)); // y²/2
        b.i(Instruction::F64Add); // result + y²/2
        b.i(Instruction::LocalSet(6)); // result = 1 + y + y²/2
        // Add y³/6
        b.i(Instruction::LocalGet(4)); // y²/2
        b.i(Instruction::LocalGet(2)); // ln2_x
        b.i(Instruction::F64Mul); // y³/2
        b.i(Instruction::F64Const(0x4008000000000000u64)); // 3.0
        b.i(Instruction::F64Div); // y³/6
        b.i(Instruction::LocalSet(5)); // term = y³/6
        b.i(Instruction::LocalGet(6)); // result
        b.i(Instruction::LocalGet(5)); // y³/6
        b.i(Instruction::F64Add); // result + y³/6
        b.i(Instruction::LocalSet(6)); // result = 1 + y + y²/2 + y³/6
        // Add y⁴/24
        b.i(Instruction::LocalGet(5)); // y³/6
        b.i(Instruction::LocalGet(2)); // ln2_x
        b.i(Instruction::F64Mul); // y⁴/6
        b.i(Instruction::F64Const(0x4010000000000000u64)); // 4.0
        b.i(Instruction::F64Div); // y⁴/24
        b.i(Instruction::LocalGet(6)); // result
        b.i(Instruction::F64Add); // result + y⁴/24
        b.finish()
    }

    /// The instructions `generate_sign_advanced` returns.
    #[verifier::opaque]
    pub open spec fn sign_advanced_body() -> Seq<Instruction> {
        seq![
            Instruction::LocalGet(0),
            Instruction::F64Const(0x0000000000000000u64),
            Instruction::F64Eq,
            Instruction::If(BlockType::Result(ValType::F64)),
            Instruction::F64Const(0x0000000000000000u64),
            Instruction::Else,
            Instruction::LocalGet(0),
            Instruction::F64Const(0x0000000000000000u64),
            Instruction::F64Gt,
            Instruction::If(BlockType::Result(ValType::F64)),
            Instruction::F64Const(0x3ff0000000000000u64),
            Instruction::Else,
            Instruction::F64Const(0xbff0000000000000u64),
            Instruction::End,
            Instruction::End,
        ]
    }

    pub fn generate_sign_advanced(&self) -> (r: Vec<Instruction>)
        ensures
            body_ok(r@, 2),
            r@ == Self::sign_advanced_body(),
    {
        proof {
            reveal(MathAdvancedManager::sign_advanced_body);
        }
        let mut b = Body::new(2);
        // sign(x) returns -1 for x < 0, 0 for x = 0, 1 for x > 0
        // Check if x is zero
        b.i(Instruction::LocalGet(0)); // x
        b.i(Instruction::F64Const(0x0000000000000000u64)); // 0.0
        b.i(Instruction::F64Eq); // x == 0
        b.i(Instruction::If(BlockType::Result(ValType::F64)));
        // x == 0: return 0
        b.i(Instruction::F64Const(0x0000000000000000u64)); // 0.0
        b.i(Instruction::Else);
        // x != 0: check sign
        b.i(Instruction::LocalGet(0)); // x
        b.i(Instruction::F64Const(0x0000000000000000u64)); // 0.0
        b.i(Instruction::F64Gt); // x > 0
        b.i(Instruction::If(BlockType::Result(ValType::F64)));
        // x > 0: return 1
        b.i(Instruction::F64Const(0x3ff0000000000000u64)); // 1.0
        b.i(Instruction::Else);
        // x < 0: return -1
        b.i(Instruction::F64Const(0xbff0000000000000u64)); // -1.0
        b.i(Instruction::End);
        b.i(Instruction::End);
        b.finish()
    }

    /// The instructions `generate_clamp_advanced` returns.
    #[verifier::opaque]
    pub open spec fn clamp_advanced_body() -> Seq<Instruction> {
        seq![
            Instruction::LocalGet(0),
            Instruction::LocalGet(2),
            Instruction::F64Min,
            Instruction::LocalSet(3),
            Instruction::LocalGet(1),
            Instruction::LocalGet(3),
            Instruction::F64Max,
        ]
    }

    pub fn generate_clamp_advanced(&self) -> (r: Vec<Instruction>)
        ensures
            body_ok(r@, 4),
            r@ == Self::clamp_advanced_body(),
    {
        proof {
            reveal(MathAdvancedManager::clamp_advanced_body);
        }
        let mut b = Body::new(4);
        // clamp(value, min, max) = max(min, min(value, max))
        // First clamp to maximum: min(value, max)
        b.i(Instruction::LocalGet(0)); // value
        b.i(Instruction::LocalGet(2)); // max
        b.i(Instruction::F64Min); // min(value, max)
        b.i(Instruction::LocalSet(3)); // temp_result
        // Then clamp to minimum: max(min, temp_result)
        b.i(Instruction::LocalGet(1)); // min
        b.i(Instruction::LocalGet(3)); // temp_result
        b.i(Instruction::F64Max); // max(min, temp_result)
        b.finish()
    }

    /// The instructions `generate_lerp_advanced` returns.
    #[verifier::opaque]
    pub open spec fn lerp_advanced_body() -> Seq<Instruction> {
        seq![
            Instruction::LocalGet(1),
            Instruction::LocalGet(0),
            Instruction::F64Sub,
            Instruction::LocalSet(3),
            Instruction::LocalGet(2),
            Instruction::LocalGet(3),
            Instruction::F64Mul,
            Instruction::LocalSet(4),
            Instruction::LocalGet(0),
            Instruction::LocalGet(4),
            Instruction::F64Add,
        ]
    }

    pub fn generate_lerp_advanced(&self) -> (r: Vec<Instruction>)
        ensures
            body_ok(r@, 5),
            r@ == Self::lerp_advanced_body(),
    {
        proof {
            reveal(MathAdvancedManager::lerp_advanced_body);
        }
        let mut b = Body::new(5);
        // lerp(start, end, t) = start + t * (end - start)
        // Calculate end - start
        b.i(Instruction::LocalGet(1)); // end
        b.i(Instruction::LocalGet(0)); // start
        b.i(Instruction::F64Sub); // end - start
        b.i(Instruction::LocalSet(3)); // difference
        // Calculate t * (end - start)
        b.i(Instruction::LocalGet(2)); // t
        b.i(Instruction::LocalGet(3)); // difference
        b.i(Instruction::F64Mul); // t * (end - start)
        b.i(Instruction::LocalSet(4)); // scaled_diff
        // Calculate start + t * (end - start)
        b.i(Instruction::LocalGet(0)); // start
        b.i(Instruction::LocalGet(4)); // scaled_diff
        b.i(Instruction::F64Add); // start + t * (end - start)
        b.finish()
    }

}

} // verus!
