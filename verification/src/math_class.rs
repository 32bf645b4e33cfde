//! The `Math` class: numeric functions registered as WebAssembly
//! functions, aliases for the host-provided transcendental functions, and
//! the constants pi, e and tau.

use vstd::prelude::*;
use crate::body::Body;
use crate::codegen::{
    CodeGenerator, Signature, appended, grew, bound, defined, aliased, shifted,
    lemma_appended_start, lemma_appended_fits, lemma_appended_compose, lemma_grew_compose,
    lookup, lemma_aliased_push, lemma_aliased_concat, lemma_aliased_lookup_other, lemma_lookup_concat,
    lemma_lookup_bound_absent, lemma_lookup_bound_found, register_tracked, alias_tracked,
    alias_if_present, binding_for,
};
use crate::error::CompilerError;
use crate::wasm::{Instruction, MemArg, BlockType, ValType, WasmType, body_ok};

verus! {

/// The functions `register_core_functions` registers, in order.
pub open spec fn core_functions_signatures() -> Seq<Signature> {
    seq![
        defined(
            "math.sqrt"@,
            seq![WasmType::F64],
            Some(WasmType::F64),
            seq![],
            MathClass::sqrt_impl_instructions_body(),
        ),
        defined(
            "math.abs"@,
            seq![WasmType::F64],
            Some(WasmType::F64),
            seq![],
            MathClass::abs_impl_instructions_body(),
        ),
        defined(
            "math.abs.i32"@,
            seq![WasmType::I32],
            Some(WasmType::I32),
            seq![],
            MathClass::math_abs_i32_instructions_body(),
        ),
        defined(
            "math.max"@,
            seq![WasmType::F64, WasmType::F64],
            Some(WasmType::F64),
            seq![],
            MathClass::max_impl_instructions_body(),
        ),
        defined(
            "math.min"@,
            seq![WasmType::F64, WasmType::F64],
            Some(WasmType::F64),
            seq![],
            MathClass::min_impl_instructions_body(),
        ),
    ]
}

/// The names `register_core_functions` binds, with indices counted from its first
/// registered function.
pub open spec fn core_functions_bindings() -> Seq<(Seq<char>, int)> {
    seq![
        ("math.sqrt"@, 0),
        ("math_sqrt"@, 0),
        ("math.abs"@, 1),
        ("math.abs.i32"@, 2),
        ("math.max"@, 3),
        ("math.min"@, 4),
    ]
}

/// The functions `register_rounding_functions` registers, in order.
pub open spec fn rounding_functions_signatures() -> Seq<Signature> {
    seq![
        defined(
            "math.floor"@,
            seq![WasmType::F64],
            Some(WasmType::F64),
            seq![],
            MathClass::math_floor_instructions_body(),
        ),
        defined(
            "math.ceil"@,
            seq![WasmType::F64],
            Some(WasmType::F64),
            seq![],
            MathClass::math_ceil_instructions_body(),
        ),
        defined(
            "math.round"@,
            seq![WasmType::F64],
            Some(WasmType::F64),
            seq![],
            MathClass::math_round_instructions_body(),
        ),
        defined(
            "math.trunc"@,
            seq![WasmType::F64],
            Some(WasmType::F64),
            seq![],
            MathClass::math_trunc_instructions_body(),
        ),
        defined(
            "math.sign"@,
            seq![WasmType::F64],
            Some(WasmType::F64),
            seq![],
            MathClass::sign_body(),
        ),
    ]
}

/// The names `register_rounding_functions` binds, with indices counted from its first
/// registered function.
pub open spec fn rounding_functions_bindings() -> Seq<(Seq<char>, int)> {
    seq![
        ("math.floor"@, 0),
        ("math.ceil"@, 1),
        ("math.round"@, 2),
        ("math.trunc"@, 3),
        ("math_trunc"@, 3),
        ("math.sign"@, 4),
    ]
}

/// The functions `register_constants` registers, in order.
pub open spec fn constants_signatures() -> Seq<Signature> {
    seq![
        defined(
            "math.pi"@,
            seq![],
            Some(WasmType::F64),
            seq![],
            MathClass::pi_impl_instructions_body(),
        ),
        defined(
            "math.e"@,
            seq![],
            Some(WasmType::F64),
            seq![],
            MathClass::e_impl_instructions_body(),
        ),
        defined(
            "math.tau"@,
            seq![],
            Some(WasmType::F64),
            seq![],
            MathClass::tau_impl_instructions_body(),
        ),
    ]
}

/// The names `register_constants` binds, with indices counted from its first
/// registered function.
pub open spec fn constants_bindings() -> Seq<(Seq<char>, int)> {
    seq![
        ("math.pi"@, 0),
        ("math_pi"@, 0),
        ("math.e"@, 1),
        ("math.tau"@, 2),
    ]
}

/// The aliases `register_trig_functions` adds, each `(target, alias)`; an alias is bound
/// only where its target resolves.
pub open spec fn trig_functions_aliases() -> Seq<(Seq<char>, Seq<char>)> {
    seq![
        ("math_sin"@, "math.sin"@),
        ("math_cos"@, "math.cos"@),
        ("math_tan"@, "math.tan"@),
        ("math_asin"@, "math.asin"@),
        ("math_acos"@, "math.acos"@),
        ("math_atan"@, "math.atan"@),
        ("math_atan2"@, "math.atan2"@),
    ]
}

/// The aliases `register_log_exp_functions` adds, each `(target, alias)`; an alias is bound
/// only where its target resolves.
pub open spec fn log_exp_functions_aliases() -> Seq<(Seq<char>, Seq<char>)> {
    seq![
        ("math_ln"@, "math.ln"@),
        ("math_log10"@, "math.log10"@),
        ("math_log2"@, "math.log2"@),
        ("math_exp"@, "math.exp"@),
        ("math_exp2"@, "math.exp2"@),
        ("math_pow"@, "math.pow"@),
    ]
}

/// The aliases `register_hyperbolic_functions` adds, each `(target, alias)`; an alias is bound
/// only where its target resolves.
pub open spec fn hyperbolic_functions_aliases() -> Seq<(Seq<char>, Seq<char>)> {
    seq![
        ("math_sinh"@, "math.sinh"@),
        ("math_cosh"@, "math.cosh"@),
        ("math_tanh"@, "math.tanh"@),
    ]
}

/// The functions the core and rounding stages register, in order.
pub open spec fn math_first_signatures() -> Seq<Signature> {
    core_functions_signatures() + rounding_functions_signatures()
}

/// The names the core and rounding stages bind, counted from their first
/// registered function.
pub open spec fn math_first_bindings() -> Seq<(Seq<char>, int)> {
    core_functions_bindings() + shifted(rounding_functions_bindings(), 5)
}

/// The aliases to host imports, in the order they are tried.
pub open spec fn math_host_aliases() -> Seq<(Seq<char>, Seq<char>)> {
    trig_functions_aliases() + log_exp_functions_aliases() + hyperbolic_functions_aliases()
}

/// `new` is `old` after registering the Math class: the core and
/// rounding functions with their underscore aliases, an alias for each
/// host import that resolves, then the constants.
pub open spec fn math_registered(old: CodeGenerator, new: CodeGenerator) -> bool {
    let n0 = old.n_functions() as int;
    let names = aliased(old.names() + bound(math_first_bindings(), n0), math_host_aliases());
    &&& grew(old, new, math_first_signatures() + constants_signatures())
    &&& new.names() == names + bound(constants_bindings(), n0 + 10)
}

/// The underscore names stay aliases of their dotted names: after
/// registering the Math class, `math_sqrt`, `math_trunc` and `math_pi`
/// resolve to the same functions as `math.sqrt`, `math.trunc` and
/// `math.pi`, the first, ninth and eleventh functions registered.
pub proof fn lemma_math_underscore_aliases(old: CodeGenerator, new: CodeGenerator)
    requires
        math_registered(old, new),
    ensures
        new.index_of("math_sqrt"@) == new.index_of("math.sqrt"@),
        new.index_of("math.sqrt"@) == Some(old.n_functions() as u32),
        new.index_of("math_trunc"@) == new.index_of("math.trunc"@),
        new.index_of("math.trunc"@) == Some((old.n_functions() + 8) as u32),
        new.index_of("math_pi"@) == new.index_of("math.pi"@),
        new.index_of("math.pi"@) == Some((old.n_functions() + 10) as u32),
{
    reveal_strlit("math.abs");
    reveal_strlit("math.abs.i32");
    reveal_strlit("math.acos");
    reveal_strlit("math.asin");
    reveal_strlit("math.atan");
    reveal_strlit("math.atan2");
    reveal_strlit("math.ceil");
    reveal_strlit("math.cos");
    reveal_strlit("math.cosh");
    reveal_strlit("math.e");
    reveal_strlit("math.exp");
    reveal_strlit("math.exp2");
    reveal_strlit("math.floor");
    reveal_strlit("math.ln");
    reveal_strlit("math.log10");
    reveal_strlit("math.log2");
    reveal_strlit("math.max");
    reveal_strlit("math.min");
    reveal_strlit("math.pi");
    reveal_strlit("math.pow");
    reveal_strlit("math.round");
    reveal_strlit("math.sign");
    reveal_strlit("math.sin");
    reveal_strlit("math.sinh");
    reveal_strlit("math.sqrt");
    reveal_strlit("math.tan");
    reveal_strlit("math.tanh");
    reveal_strlit("math.tau");
    reveal_strlit("math.trunc");
    reveal_strlit("math_acos");
    reveal_strlit("math_asin");
    reveal_strlit("math_atan");
    reveal_strlit("math_atan2");
    reveal_strlit("math_cos");
    reveal_strlit("math_cosh");
    reveal_strlit("math_exp");
    reveal_strlit("math_exp2");
    reveal_strlit("math_ln");
    reveal_strlit("math_log10");
    reveal_strlit("math_log2");
    reveal_strlit("math_pi");
    reveal_strlit("math_pow");
    reveal_strlit("math_sin");
    reveal_strlit("math_sinh");
    reveal_strlit("math_sqrt");
    reveal_strlit("math_tan");
    reveal_strlit("math_tanh");
    reveal_strlit("math_trunc");
    let n0 = old.n_functions() as int;
    let fb = math_first_bindings();
    let first = old.names() + bound(fb, n0);
    let pairs = math_host_aliases();
    let cb = constants_bindings();
    assert(fb.len() == 12);
    assert(pairs.len() == 16);
    assert(cb.len() == 4);
    // The names whose resolution the law speaks of, and where the first
    // two stages bind them.
    assert(fb[0] == ("math.sqrt"@, 0int));
    assert(fb[1] == ("math_sqrt"@, 0int));
    assert(fb[9] == ("math.trunc"@, 8int));
    assert(fb[10] == ("math_trunc"@, 8int));
    assert forall|key: Seq<char>|
        key == "math.sqrt"@ || key == "math_sqrt"@ || key == "math.trunc"@ || key == "math_trunc"@
            implies #[trigger] lookup(new.names(), key) == lookup(first, key) by {
        assert forall|j: int| 0 <= j < pairs.len() implies (#[trigger] pairs[j]).1 != key by {
            if pairs[j].1 == key {
                assert(pairs[j].1.len() == key.len());
                assert(pairs[j].1[4] == key[4]);
                assert(pairs[j].1[5] == key[5]);
                assert(pairs[j].1[6] == key[6]);
            }
        }
        lemma_aliased_lookup_other(first, pairs, key);
        assert forall|j: int| 0 <= j < cb.len() implies (#[trigger] cb[j]).0 != key by {
            if cb[j].0 == key {
                assert(cb[j].0.len() == key.len());
            }
        }
        lemma_lookup_bound_absent(cb, n0 + 10, key);
        lemma_lookup_concat(aliased(first, pairs), bound(cb, n0 + 10), key);
    }
    assert forall|k: int| 0 < k < fb.len() implies (#[trigger] fb[k]).0 != "math.sqrt"@ by {
        if fb[k].0 == "math.sqrt"@ {
            assert(fb[k].0.len() == "math.sqrt"@.len());
            assert(fb[k].0[4] == "math.sqrt"@[4]);
            assert(fb[k].0[5] == "math.sqrt"@[5]);
            assert(fb[k].0[6] == "math.sqrt"@[6]);
        }
    }
    assert forall|k: int| 1 < k < fb.len() implies (#[trigger] fb[k]).0 != "math_sqrt"@ by {
        if fb[k].0 == "math_sqrt"@ {
            assert(fb[k].0.len() == "math_sqrt"@.len());
            assert(fb[k].0[4] == "math_sqrt"@[4]);
            assert(fb[k].0[5] == "math_sqrt"@[5]);
            assert(fb[k].0[6] == "math_sqrt"@[6]);
        }
    }
    assert forall|k: int| 9 < k < fb.len() implies (#[trigger] fb[k]).0 != "math.trunc"@ by {
        if fb[k].0 == "math.trunc"@ {
            assert(fb[k].0.len() == "math.trunc"@.len());
            assert(fb[k].0[4] == "math.trunc"@[4]);
            assert(fb[k].0[5] == "math.trunc"@[5]);
            assert(fb[k].0[6] == "math.trunc"@[6]);
        }
    }
    assert forall|k: int| 10 < k < fb.len() implies (#[trigger] fb[k]).0 != "math_trunc"@ by {
        if fb[k].0 == "math_trunc"@ {
            assert(fb[k].0.len() == "math_trunc"@.len());
            assert(fb[k].0[4] == "math_trunc"@[4]);
            assert(fb[k].0[5] == "math_trunc"@[5]);
            assert(fb[k].0[6] == "math_trunc"@[6]);
        }
    }
    lemma_lookup_bound_found(fb, n0, "math.sqrt"@, 0);
    lemma_lookup_bound_found(fb, n0, "math_sqrt"@, 1);
    lemma_lookup_bound_found(fb, n0, "math.trunc"@, 9);
    lemma_lookup_bound_found(fb, n0, "math_trunc"@, 10);
    lemma_lookup_concat(old.names(), bound(fb, n0), "math.sqrt"@);
    lemma_lookup_concat(old.names(), bound(fb, n0), "math_sqrt"@);
    lemma_lookup_concat(old.names(), bound(fb, n0), "math.trunc"@);
    lemma_lookup_concat(old.names(), bound(fb, n0), "math_trunc"@);
    assert(lookup(new.names(), "math.sqrt"@) == lookup(first, "math.sqrt"@));
    assert(lookup(new.names(), "math_sqrt"@) == lookup(first, "math_sqrt"@));
    assert(lookup(new.names(), "math.trunc"@) == lookup(first, "math.trunc"@));
    assert(lookup(new.names(), "math_trunc"@) == lookup(first, "math_trunc"@));
    // `math.pi` and `math_pi` are bound by the constants stage.
    assert(cb[0] == ("math.pi"@, 0int));
    assert(cb[1] == ("math_pi"@, 0int));
    assert forall|key: Seq<char>, j: int|
        (key == "math.pi"@ && j == 0 || key == "math_pi"@ && j == 1) implies #[trigger] lookup(
        new.names(),
        key,
    ) == Some((n0 + 10 + cb[j].1) as u32) && #[trigger] cb[j].0 == key by {
        assert forall|k: int| j < k < cb.len() implies (#[trigger] cb[k]).0 != key by {
            if cb[k].0 == key {
                assert(cb[k].0.len() == key.len());
                assert(cb[k].0[4] == key[4]);
            }
        }
        lemma_lookup_bound_found(cb, n0 + 10, key, j);
        lemma_lookup_concat(aliased(first, pairs), bound(cb, n0 + 10), key);
    }
    assert(lookup(new.names(), "math.pi"@) == Some((n0 + 10 + cb[0].1) as u32) && cb[0].0
        == "math.pi"@);
    assert(lookup(new.names(), "math_pi"@) == Some((n0 + 10 + cb[1].1) as u32) && cb[1].0
        == "math_pi"@);
}

/// Math class implementation for Clean Language
/// Provides comprehensive mathematical operations as static methods
pub struct MathClass;

impl Default for MathClass {
    fn default() -> (r: Self)
        ensures
            r == MathClass,
    {
        Self::new()
    }
}

impl MathClass {
    /// The Math class.
    pub fn new() -> (r: Self)
        ensures
            r == MathClass,
    {
        MathClass
    }

    /// Register all Math class methods as static functions
    pub fn register_functions(&self, codegen: &mut CodeGenerator) -> (r: Result<(), CompilerError>)
        requires
            old(codegen).wf(),
        ensures
            final(codegen).wf(),
            r is Ok <==> old(codegen).n_functions() + 13 <= u32::MAX,
            r is Ok ==> math_registered(*old(codegen), *final(codegen)),
            r matches Err(e) ==> e == CompilerError::FunctionLimit,
    {
        let ghost g0 = *codegen;
        // Core mathematical functions (basic arithmetic handled by operators)
        self.register_core_functions(codegen)?;
        let ghost g1 = *codegen;
        // Rounding and precision functions
        self.register_rounding_functions(codegen)?;
        let ghost g2 = *codegen;
        proof {
            lemma_appended_compose(
                g0,
                g1,
                g2,
                core_functions_signatures(),
                core_functions_bindings(),
                rounding_functions_signatures(),
                rounding_functions_bindings(),
            );
        }
        // Trigonometric functions
        self.register_trig_functions(codegen)?;
        let ghost g3 = *codegen;
        // Logarithmic and exponential functions
        self.register_log_exp_functions(codegen)?;
        let ghost g4 = *codegen;
        // Hyperbolic functions
        self.register_hyperbolic_functions(codegen)?;
        let ghost g5 = *codegen;
        proof {
            lemma_aliased_concat(g2.names(), trig_functions_aliases(), log_exp_functions_aliases());
            lemma_aliased_concat(
                g2.names(),
                trig_functions_aliases() + log_exp_functions_aliases(),
                hyperbolic_functions_aliases(),
            );
        }
        // Mathematical constants
        self.register_constants(codegen)?;
        proof {
            assert(grew(g0, g2, math_first_signatures()));
            assert(grew(g0, g5, math_first_signatures()));
            lemma_grew_compose(g0, g5, *codegen, math_first_signatures(), constants_signatures());
            lemma_appended_fits(g5, *codegen, constants_signatures(), constants_bindings());
        }
        Ok(())
    }

    fn register_core_functions(&self, codegen: &mut CodeGenerator) -> (r: Result<(), CompilerError>)
        requires
            old(codegen).wf(),
        ensures
            final(codegen).wf(),
            r is Ok <==> old(codegen).n_functions() + 5 <= u32::MAX,
            r is Ok ==> appended(
                *old(codegen),
                *final(codegen),
                core_functions_signatures(),
                core_functions_bindings(),
            ),
            r matches Err(e) ==> e == CompilerError::FunctionLimit,
    {
        let ghost start = *codegen;
        let ghost mut sigs = Seq::<Signature>::empty();
        let ghost mut binds = Seq::<(Seq<char>, int)>::empty();
        proof {
            lemma_appended_start(start);
        }
        let ghost sig = defined(
            "math.sqrt"@,
            seq![WasmType::F64],
            Some(WasmType::F64),
            seq![],
            MathClass::sqrt_impl_instructions_body(),
        );
        let sqrt_index = register_tracked(
            codegen,
            Ghost(start),
            Ghost(sigs),
            Ghost(binds),
            Ghost(sig),
            "math.sqrt",
            &[WasmType::F64],
            Some(WasmType::F64),
            &[],
            Self::sqrt_impl_instructions(),
        )?;
        proof {
            binds = binds.push(binding_for(sigs, sig));
            sigs = sigs.push(sig);
        }
        alias_tracked(codegen, Ghost(start), Ghost(sigs), Ghost(binds), "math_sqrt", sqrt_index);
        proof {
            binds = binds.push(("math_sqrt"@, 0));
        }
        let ghost sig = defined(
            "math.abs"@,
            seq![WasmType::F64],
            Some(WasmType::F64),
            seq![],
            MathClass::abs_impl_instructions_body(),
        );
        register_tracked(
            codegen,
            Ghost(start),
            Ghost(sigs),
            Ghost(binds),
            Ghost(sig),
            "math.abs",
            &[WasmType::F64],
            Some(WasmType::F64),
            &[],
            Self::abs_impl_instructions(),
        )?;
        proof {
            binds = binds.push(binding_for(sigs, sig));
            sigs = sigs.push(sig);
        }
        // Math.abs(integer x) -> integer (I32 version)
        let ghost sig = defined(
            "math.abs.i32"@,
            seq![WasmType::I32],
            Some(WasmType::I32),
            seq![],
            MathClass::math_abs_i32_instructions_body(),
        );
        register_tracked(
            codegen,
            Ghost(start),
            Ghost(sigs),
            Ghost(binds),
            Ghost(sig),
            "math.abs.i32",
            &[WasmType::I32],
            Some(WasmType::I32),
            &[],
            Self::math_abs_i32_instructions(),
        )?;
        proof {
            binds = binds.push(binding_for(sigs, sig));
            sigs = sigs.push(sig);
        }
        let ghost sig = defined(
            "math.max"@,
            seq![WasmType::F64, WasmType::F64],
            Some(WasmType::F64),
            seq![],
            MathClass::max_impl_instructions_body(),
        );
        register_tracked(
            codegen,
            Ghost(start),
            Ghost(sigs),
            Ghost(binds),
            Ghost(sig),
            "math.max",
            &[WasmType::F64, WasmType::F64],
            Some(WasmType::F64),
            &[],
            Self::max_impl_instructions(),
        )?;
        proof {
            binds = binds.push(binding_for(sigs, sig));
            sigs = sigs.push(sig);
        }
        let ghost sig = defined(
            "math.min"@,
            seq![WasmType::F64, WasmType::F64],
            Some(WasmType::F64),
            seq![],
            MathClass::min_impl_instructions_body(),
        );
        register_tracked(
            codegen,
            Ghost(start),
            Ghost(sigs),
            Ghost(binds),
            Ghost(sig),
            "math.min",
            &[WasmType::F64, WasmType::F64],
            Some(WasmType::F64),
            &[],
            Self::min_impl_instructions(),
        )?;
        proof {
            binds = binds.push(binding_for(sigs, sig));
            sigs = sigs.push(sig);
        }
        proof {
            assert(sigs =~= core_functions_signatures());
            assert(binds =~= core_functions_bindings());
            lemma_appended_fits(start, *codegen, sigs, binds);
        }
        Ok(())
    }

    fn register_rounding_functions(&self, codegen: &mut CodeGenerator) -> (r: Result<(), CompilerError>)
        requires
            old(codegen).wf(),
        ensures
            final(codegen).wf(),
            r is Ok <==> old(codegen).n_functions() + 5 <= u32::MAX,
            r is Ok ==> appended(
                *old(codegen),
                *final(codegen),
                rounding_functions_signatures(),
                rounding_functions_bindings(),
            ),
            r matches Err(e) ==> e == CompilerError::FunctionLimit,
    {
        let ghost start = *codegen;
        let ghost mut sigs = Seq::<Signature>::empty();
        let ghost mut binds = Seq::<(Seq<char>, int)>::empty();
        proof {
            lemma_appended_start(start);
        }
        // Math.floor(number x) -> number
        let ghost sig = defined(
            "math.floor"@,
            seq![WasmType::F64],
            Some(WasmType::F64),
            seq![],
            MathClass::math_floor_instructions_body(),
        );
        register_tracked(
            codegen,
            Ghost(start),
            Ghost(sigs),
            Ghost(binds),
            Ghost(sig),
            "math.floor",
            &[WasmType::F64],
            Some(WasmType::F64),
            &[],
            Self::math_floor_instructions(),
        )?;
        proof {
            binds = binds.push(binding_for(sigs, sig));
            sigs = sigs.push(sig);
        }
        // Math.ceil(number x) -> number
        let ghost sig = defined(
            "math.ceil"@,
            seq![WasmType::F64],
            Some(WasmType::F64),
            seq![],
            MathClass::math_ceil_instructions_body(),
        );
        register_tracked(
            codegen,
            Ghost(start),
            Ghost(sigs),
            Ghost(binds),
            Ghost(sig),
            "math.ceil",
            &[WasmType::F64],
            Some(WasmType::F64),
            &[],
            Self::math_ceil_instructions(),
        )?;
        proof {
            binds = binds.push(binding_for(sigs, sig));
            sigs = sigs.push(sig);
        }
        // Math.round(number x) -> number
        let ghost sig = defined(
            "math.round"@,
            seq![WasmType::F64],
            Some(WasmType::F64),
            seq![],
            MathClass::math_round_instructions_body(),
        );
        register_tracked(
            codegen,
            Ghost(start),
            Ghost(sigs),
            Ghost(binds),
            Ghost(sig),
            "math.round",
            &[WasmType::F64],
            Some(WasmType::F64),
            &[],
            Self::math_round_instructions(),
        )?;
        proof {
            binds = binds.push(binding_for(sigs, sig));
            sigs = sigs.push(sig);
        }
        // Math.trunc(number x) -> number
        let ghost sig = defined(
            "math.trunc"@,
            seq![WasmType::F64],
            Some(WasmType::F64),
            seq![],
            MathClass::math_trunc_instructions_body(),
        );
        let trunc_index = register_tracked(
            codegen,
            Ghost(start),
            Ghost(sigs),
            Ghost(binds),
            Ghost(sig),
            "math.trunc",
            &[WasmType::F64],
            Some(WasmType::F64),
            &[],
            Self::math_trunc_instructions(),
        )?;
        proof {
            binds = binds.push(binding_for(sigs, sig));
            sigs = sigs.push(sig);
        }
        alias_tracked(codegen, Ghost(start), Ghost(sigs), Ghost(binds), "math_trunc", trunc_index);
        proof {
            binds = binds.push(("math_trunc"@, 3));
        }
        // Math.sign(number x) -> number
        let ghost sig = defined(
            "math.sign"@,
            seq![WasmType::F64],
            Some(WasmType::F64),
            seq![],
            MathClass::sign_body(),
        );
        register_tracked(
            codegen,
            Ghost(start),
            Ghost(sigs),
            Ghost(binds),
            Ghost(sig),
            "math.sign",
            &[WasmType::F64],
            Some(WasmType::F64),
            &[],
            self.generate_sign(),
        )?;
        proof {
            binds = binds.push(binding_for(sigs, sig));
            sigs = sigs.push(sig);
        }
        proof {
            assert(sigs =~= rounding_functions_signatures());
            assert(binds =~= rounding_functions_bindings());
            lemma_appended_fits(start, *codegen, sigs, binds);
        }
        Ok(())
    }

    fn register_constants(&self, codegen: &mut CodeGenerator) -> (r: Result<(), CompilerError>)
        requires
            old(codegen).wf(),
        ensures
            final(codegen).wf(),
            r is Ok <==> old(codegen).n_functions() + 3 <= u32::MAX,
            r is Ok ==> appended(
                *old(codegen),
                *final(codegen),
                constants_signatures(),
                constants_bindings(),
            ),
            r matches Err(e) ==> e == CompilerError::FunctionLimit,
    {
        let ghost start = *codegen;
        let ghost mut sigs = Seq::<Signature>::empty();
        let ghost mut binds = Seq::<(Seq<char>, int)>::empty();
        proof {
            lemma_appended_start(start);
        }
        let ghost sig = defined(
            "math.pi"@,
            seq![],
            Some(WasmType::F64),
            seq![],
            MathClass::pi_impl_instructions_body(),
        );
        let pi_index = register_tracked(
            codegen,
            Ghost(start),
            Ghost(sigs),
            Ghost(binds),
            Ghost(sig),
            "math.pi",
            &[],
            Some(WasmType::F64),
            &[],
            Self::pi_impl_instructions(),
        )?;
        proof {
            binds = binds.push(binding_for(sigs, sig));
            sigs = sigs.push(sig);
        }
        alias_tracked(codegen, Ghost(start), Ghost(sigs), Ghost(binds), "math_pi", pi_index);
        proof {
            binds = binds.push(("math_pi"@, 0));
        }
        let ghost sig = defined(
            "math.e"@,
            seq![],
            Some(WasmType::F64),
            seq![],
            MathClass::e_impl_instructions_body(),
        );
        register_tracked(
            codegen,
            Ghost(start),
            Ghost(sigs),
            Ghost(binds),
            Ghost(sig),
            "math.e",
            &[],
            Some(WasmType::F64),
            &[],
            Self::e_impl_instructions(),
        )?;
        proof {
            binds = binds.push(binding_for(sigs, sig));
            sigs = sigs.push(sig);
        }
        let ghost sig = defined(
            "math.tau"@,
            seq![],
            Some(WasmType::F64),
            seq![],
            MathClass::tau_impl_instructions_body(),
        );
        register_tracked(
            codegen,
            Ghost(start),
            Ghost(sigs),
            Ghost(binds),
            Ghost(sig),
            "math.tau",
            &[],
            Some(WasmType::F64),
            &[],
            Self::tau_impl_instructions(),
        )?;
        proof {
            binds = binds.push(binding_for(sigs, sig));
            sigs = sigs.push(sig);
        }
        proof {
            assert(sigs =~= constants_signatures());
            assert(binds =~= constants_bindings());
            lemma_appended_fits(start, *codegen, sigs, binds);
        }
        Ok(())
    }

    fn register_trig_functions(&self, codegen: &mut CodeGenerator) -> (r: Result<(), CompilerError>)
        requires
            old(codegen).wf(),
        ensures
            final(codegen).wf(),
            r is Ok,
            final(codegen).functions() == old(codegen).functions(),
            final(codegen).names() == aliased(old(codegen).names(), trig_functions_aliases()),
    {
        let ghost n0 = codegen.names();
        let ghost mut done = Seq::<(Seq<char>, Seq<char>)>::empty();
        // Math.sin(number x) -> number - alias to imported math_sin
        alias_if_present(codegen, "math_sin", "math.sin");
        proof {
            lemma_aliased_push(n0, done, ("math_sin"@, "math.sin"@));
            done = done.push(("math_sin"@, "math.sin"@));
        }
        // Math.cos(number x) -> number - alias to imported math_cos
        alias_if_present(codegen, "math_cos", "math.cos");
        proof {
            lemma_aliased_push(n0, done, ("math_cos"@, "math.cos"@));
            done = done.push(("math_cos"@, "math.cos"@));
        }
        // Math.tan(number x) -> number - alias to imported math_tan
        alias_if_present(codegen, "math_tan", "math.tan");
        proof {
            lemma_aliased_push(n0, done, ("math_tan"@, "math.tan"@));
            done = done.push(("math_tan"@, "math.tan"@));
        }
        // Math.asin(number x) -> number - alias to imported math_asin
        alias_if_present(codegen, "math_asin", "math.asin");
        proof {
            lemma_aliased_push(n0, done, ("math_asin"@, "math.asin"@));
            done = done.push(("math_asin"@, "math.asin"@));
        }
        // Math.acos(number x) -> number - alias to imported math_acos
        alias_if_present(codegen, "math_acos", "math.acos");
        proof {
            lemma_aliased_push(n0, done, ("math_acos"@, "math.acos"@));
            done = done.push(("math_acos"@, "math.acos"@));
        }
        // Math.atan(number x) -> number - alias to imported math_atan
        alias_if_present(codegen, "math_atan", "math.atan");
        proof {
            lemma_aliased_push(n0, done, ("math_atan"@, "math.atan"@));
            done = done.push(("math_atan"@, "math.atan"@));
        }
        // Math.atan2(number y, number x) -> number - alias to imported math_atan2
        alias_if_present(codegen, "math_atan2", "math.atan2");
        proof {
            lemma_aliased_push(n0, done, ("math_atan2"@, "math.atan2"@));
            done = done.push(("math_atan2"@, "math.atan2"@));
        }
        proof {
            assert(done =~= trig_functions_aliases());
        }
        Ok(())
    }

    fn register_log_exp_functions(&self, codegen: &mut CodeGenerator) -> (r: Result<(), CompilerError>)
        requires
            old(codegen).wf(),
        ensures
            final(codegen).wf(),
            r is Ok,
            final(codegen).functions() == old(codegen).functions(),
            final(codegen).names() == aliased(old(codegen).names(), log_exp_functions_aliases()),
    {
        let ghost n0 = codegen.names();
        let ghost mut done = Seq::<(Seq<char>, Seq<char>)>::empty();
        // Math.ln(number x) -> number - alias to imported math_ln
        alias_if_present(codegen, "math_ln", "math.ln");
        proof {
            lemma_aliased_push(n0, done, ("math_ln"@, "math.ln"@));
            done = done.push(("math_ln"@, "math.ln"@));
        }
        // Math.log10(number x) -> number - alias to imported math_log10
        alias_if_present(codegen, "math_log10", "math.log10");
        proof {
            lemma_aliased_push(n0, done, ("math_log10"@, "math.log10"@));
            done = done.push(("math_log10"@, "math.log10"@));
        }
        // Math.log2(number x) -> number - alias to imported math_log2
        alias_if_present(codegen, "math_log2", "math.log2");
        proof {
            lemma_aliased_push(n0, done, ("math_log2"@, "math.log2"@));
            done = done.push(("math_log2"@, "math.log2"@));
        }
        // Math.exp(number x) -> number - alias to imported math_exp
        alias_if_present(codegen, "math_exp", "math.exp");
        proof {
            lemma_aliased_push(n0, done, ("math_exp"@, "math.exp"@));
            done = done.push(("math_exp"@, "math.exp"@));
        }
        // Math.exp2(number x) -> number - alias to imported math_exp2
        alias_if_present(codegen, "math_exp2", "math.exp2");
        proof {
            lemma_aliased_push(n0, done, ("math_exp2"@, "math.exp2"@));
            done = done.push(("math_exp2"@, "math.exp2"@));
        }
        // Math.pow(number base, number exponent) -> number - alias to imported math_pow
        alias_if_present(codegen, "math_pow", "math.pow");
        proof {
            lemma_aliased_push(n0, done, ("math_pow"@, "math.pow"@));
            done = done.push(("math_pow"@, "math.pow"@));
        }
        proof {
            assert(done =~= log_exp_functions_aliases());
        }
        Ok(())
    }

    fn register_hyperbolic_functions(&self, codegen: &mut CodeGenerator) -> (r: Result<(), CompilerError>)
        requires
            old(codegen).wf(),
        ensures
            final(codegen).wf(),
            r is Ok,
            final(codegen).functions() == old(codegen).functions(),
            final(codegen).names() == aliased(old(codegen).names(), hyperbolic_functions_aliases()),
    {
        let ghost n0 = codegen.names();
        let ghost mut done = Seq::<(Seq<char>, Seq<char>)>::empty();
        // Math.sinh(number x) -> number - alias to imported math_sinh
        alias_if_present(codegen, "math_sinh", "math.sinh");
        proof {
            lemma_aliased_push(n0, done, ("math_sinh"@, "math.sinh"@));
            done = done.push(("math_sinh"@, "math.sinh"@));
        }
        // Math.cosh(number x) -> number - alias to imported math_cosh
        alias_if_present(codegen, "math_cosh", "math.cosh");
        proof {
            lemma_aliased_push(n0, done, ("math_cosh"@, "math.cosh"@));
            done = done.push(("math_cosh"@, "math.cosh"@));
        }
        // Math.tanh(number x) -> number - alias to imported math_tanh
        alias_if_present(codegen, "math_tanh", "math.tanh");
        proof {
            lemma_aliased_push(n0, done, ("math_tanh"@, "math.tanh"@));
            done = done.push(("math_tanh"@, "math.tanh"@));
        }
        proof {
            assert(done =~= hyperbolic_functions_aliases());
        }
        Ok(())
    }

    /// The instructions `generate_sign` returns.
    #[verifier::opaque]
    pub open spec fn sign_body() -> Seq<Instruction> {
        seq![
            Instruction::LocalGet(0),
            Instruction::LocalGet(0),
            Instruction::F64Ne,
            Instruction::If(BlockType::Result(ValType::F64)),
            Instruction::F64Const(0x7ff8000000000000u64),
            Instruction::Else,
            Instruction::LocalGet(0),
            Instruction::F64Const(0x0000000000000000u64),
            Instruction::F64Eq,
            Instruction::If(BlockType::Result(ValType::F64)),
            Instruction::F64Const(0x0000000000000000u64),
            Instruction::Else,
            Instruction::LocalGet(0),
            Instruction::F64Const(0x0000000000000000u64),
            Instruction::F64Gt,
            Instruction::If(BlockType::Result(ValType::F64)),
            Instruction::F64Const(0x3ff0000000000000u64),
            Instruction::Else,
            Instruction::F64Const(0xbff0000000000000u64),
            Instruction::End,
            Instruction::End,
            Instruction::End,
        ]
    }

    fn generate_sign(&self) -> (r: Vec<Instruction>)
        ensures
            body_ok(r@, 1),
            r@ == Self::sign_body(),
    {
        proof {
            reveal(MathClass::sign_body);
        }
        let mut b = Body::new(1);
        // Math.sign(x): returns -1 if x < 0, 0 if x == 0, 1 if x > 0, NaN if x is NaN
        // Check for NaN first
        b.i(Instruction::LocalGet(0)); // x
        b.i(Instruction::LocalGet(0)); // x
        b.i(Instruction::F64Ne); // x != x (true only for NaN)
        b.i(Instruction::If(BlockType::Result(ValType::F64)));
        b.i(Instruction::F64Const(0x7ff8000000000000u64)); // Return NaN for NaN input
        b.i(Instruction::Else);
        // Check if x == 0 (including -0)
        b.i(Instruction::LocalGet(0)); // x
        b.i(Instruction::F64Const(0x0000000000000000u64)); // 0.0
        b.i(Instruction::F64Eq);
        b.i(Instruction::If(BlockType::Result(ValType::F64)));
        b.i(Instruction::F64Const(0x0000000000000000u64)); // Return 0 for zero
        b.i(Instruction::Else);
        // Check if x > 0
        b.i(Instruction::LocalGet(0)); // x
        b.i(Instruction::F64Const(0x0000000000000000u64)); // 0.0
        b.i(Instruction::F64Gt);
        b.i(Instruction::If(BlockType::Result(ValType::F64)));
        b.i(Instruction::F64Const(0x3ff0000000000000u64)); // Return 1 for positive
        b.i(Instruction::Else);
        b.i(Instruction::F64Const(0xbff0000000000000u64)); // Return -1 for negative
        b.i(Instruction::End);
        b.i(Instruction::End);
        b.i(Instruction::End);
        b.finish()
    }

    /// The instructions `sqrt_impl_instructions` returns.
    #[verifier::opaque]
    pub open spec fn sqrt_impl_instructions_body() -> Seq<Instruction> {
        seq![
            Instruction::LocalGet(0),
            Instruction::F64Sqrt,
        ]
    }

    /// The body `sqrt_impl` names, shared by the functions registered with it.
    fn sqrt_impl_instructions() -> (r: Vec<Instruction>)
        ensures
            body_ok(r@, 1),
            r@ == Self::sqrt_impl_instructions_body(),
    {
        proof {
            reveal(MathClass::sqrt_impl_instructions_body);
        }
        let mut b = Body::new(1);
        b.i(Instruction::LocalGet(0));
        b.i(Instruction::F64Sqrt);
        b.finish()
    }
    /// The instructions `abs_impl_instructions` returns.
    #[verifier::opaque]
    pub open spec fn abs_impl_instructions_body() -> Seq<Instruction> {
        seq![
            Instruction::LocalGet(0),
            Instruction::F64Abs,
        ]
    }

    /// The body `abs_impl` names, shared by the functions registered with it.
    fn abs_impl_instructions() -> (r: Vec<Instruction>)
        ensures
            body_ok(r@, 1),
            r@ == Self::abs_impl_instructions_body(),
    {
        proof {
            reveal(MathClass::abs_impl_instructions_body);
        }
        let mut b = Body::new(1);
        b.i(Instruction::LocalGet(0));
        b.i(Instruction::F64Abs);
        b.finish()
    }
    /// The instructions `math_abs_i32_instructions` returns.
    #[verifier::opaque]
    pub open spec fn math_abs_i32_instructions_body() -> Seq<Instruction> {
        seq![
            Instruction::LocalGet(0),
            Instruction::F64ConvertI32S,
            Instruction::F64Abs,
            Instruction::I32TruncF64S,
        ]
    }

    /// The body of `math.abs.i32`.
    fn math_abs_i32_instructions() -> (r: Vec<Instruction>)
        ensures
            body_ok(r@, 1),
            r@ == Self::math_abs_i32_instructions_body(),
    {
        proof {
            reveal(MathClass::math_abs_i32_instructions_body);
        }
        let mut b = Body::new(1);
        b.i(Instruction::LocalGet(0));
        b.i(Instruction::F64ConvertI32S);
        b.i(Instruction::F64Abs);
        b.i(Instruction::I32TruncF64S);
        b.finish()
    }
    /// The instructions `max_impl_instructions` returns.
    #[verifier::opaque]
    pub open spec fn max_impl_instructions_body() -> Seq<Instruction> {
        seq![
            Instruction::LocalGet(0),
            Instruction::LocalGet(1),
            Instruction::F64Max,
        ]
    }

    /// The body `max_impl` names, shared by the functions registered with it.
    fn max_impl_instructions() -> (r: Vec<Instruction>)
        ensures
            body_ok(r@, 2),
            r@ == Self::max_impl_instructions_body(),
    {
        proof {
            reveal(MathClass::max_impl_instructions_body);
        }
        let mut b = Body::new(2);
        b.i(Instruction::LocalGet(0));
        b.i(Instruction::LocalGet(1));
        b.i(Instruction::F64Max);
        b.finish()
    }
    /// The instructions `min_impl_instructions` returns.
    #[verifier::opaque]
    pub open spec fn min_impl_instructions_body() -> Seq<Instruction> {
        seq![
            Instruction::LocalGet(0),
            Instruction::LocalGet(1),
            Instruction::F64Min,
        ]
    }

    /// The body `min_impl` names, shared by the functions registered with it.
    fn min_impl_instructions() -> (r: Vec<Instruction>)
        ensures
            body_ok(r@, 2),
            r@ == Self::min_impl_instructions_body(),
    {
        proof {
            reveal(MathClass::min_impl_instructions_body);
        }
        let mut b = Body::new(2);
        b.i(Instruction::LocalGet(0));
        b.i(Instruction::LocalGet(1));
        b.i(Instruction::F64Min);
        b.finish()
    }
    /// The instructions `math_floor_instructions` returns.
    #[verifier::opaque]
    pub open spec fn math_floor_instructions_body() -> Seq<Instruction> {
        seq![
            Instruction::LocalGet(0),
            Instruction::F64Floor,
        ]
    }

    /// The body of `math.floor`.
    fn math_floor_instructions() -> (r: Vec<Instruction>)
        ensures
            body_ok(r@, 1),
            r@ == Self::math_floor_instructions_body(),
    {
        proof {
            reveal(MathClass::math_floor_instructions_body);
        }
        let mut b = Body::new(1);
        b.i(Instruction::LocalGet(0));
        b.i(Instruction::F64Floor);
        b.finish()
    }
    /// The instructions `math_ceil_instructions` returns.
    #[verifier::opaque]
    pub open spec fn math_ceil_instructions_body() -> Seq<Instruction> {
        seq![
            Instruction::LocalGet(0),
            Instruction::F64Ceil,
        ]
    }

    /// The body of `math.ceil`.
    fn math_ceil_instructions() -> (r: Vec<Instruction>)
        ensures
            body_ok(r@, 1),
            r@ == Self::math_ceil_instructions_body(),
    {
        proof {
            reveal(MathClass::math_ceil_instructions_body);
        }
        let mut b = Body::new(1);
        b.i(Instruction::LocalGet(0));
        b.i(Instruction::F64Ceil);
        b.finish()
    }
    /// The instructions `math_round_instructions` returns.
    #[verifier::opaque]
    pub open spec fn math_round_instructions_body() -> Seq<Instruction> {
        seq![
            Instruction::LocalGet(0),
            Instruction::F64Nearest,
        ]
    }

    /// The body of `math.round`.
    fn math_round_instructions() -> (r: Vec<Instruction>)
        ensures
            body_ok(r@, 1),
            r@ == Self::math_round_instructions_body(),
    {
        proof {
            reveal(MathClass::math_round_instructions_body);
        }
        let mut b = Body::new(1);
        b.i(Instruction::LocalGet(0));
        b.i(Instruction::F64Nearest);
        b.finish()
    }
    /// The instructions `math_trunc_instructions` returns.
    #[verifier::opaque]
    pub open spec fn math_trunc_instructions_body() -> Seq<Instruction> {
        seq![
            Instruction::LocalGet(0),
            Instruction::F64Trunc,
        ]
    }

    /// The body of `math.trunc`.
    fn math_trunc_instructions() -> (r: Vec<Instruction>)
        ensures
            body_ok(r@, 1),
            r@ == Self::math_trunc_instructions_body(),
    {
        proof {
            reveal(MathClass::math_trunc_instructions_body);
        }
        let mut b = Body::new(1);
        b.i(Instruction::LocalGet(0));
        b.i(Instruction::F64Trunc);
        b.finish()
    }
    /// The instructions `pi_impl_instructions` returns.
    #[verifier::opaque]
    pub open spec fn pi_impl_instructions_body() -> Seq<Instruction> {
        seq![
            Instruction::F64Const(0x400921fb54442d18u64),
        ]
    }

    /// The body `pi_impl` names, shared by the functions registered with it.
    fn pi_impl_instructions() -> (r: Vec<Instruction>)
        ensures
            body_ok(r@, 0),
            r@ == Self::pi_impl_instructions_body(),
    {
        proof {
            reveal(MathClass::pi_impl_instructions_body);
        }
        let mut b = Body::new(0);
        b.i(Instruction::F64Const(0x400921fb54442d18u64)); // PI
        b.finish()
    }
    /// The instructions `e_impl_instructions` returns.
    #[verifier::opaque]
    pub open spec fn e_impl_instructions_body() -> Seq<Instruction> {
        seq![
            Instruction::F64Const(0x4005bf0a8b145769u64),
        ]
    }

    /// The body `e_impl` names, shared by the functions registered with it.
    fn e_impl_instructions() -> (r: Vec<Instruction>)
        ensures
            body_ok(r@, 0),
            r@ == Self::e_impl_instructions_body(),
    {
        proof {
            reveal(MathClass::e_impl_instructions_body);
        }
        let mut b = Body::new(0);
        b.i(Instruction::F64Const(0x4005bf0a8b145769u64)); // E
        b.finish()
    }
    /// The instructions `tau_impl_instructions` returns.
    #[verifier::opaque]
    pub open spec fn tau_impl_instructions_body() -> Seq<Instruction> {
        seq![
            Instruction::F64Const(0x401921fb54442d18u64),
        ]
    }

    /// The body `tau_impl` names, shared by the functions registered with it.
    fn tau_impl_instructions() -> (r: Vec<Instruction>)
        ensures
            body_ok(r@, 0),
            r@ == Self::tau_impl_instructions_body(),
    {
        proof {
            reveal(MathClass::tau_impl_instructions_body);
        }
        let mut b = Body::new(0);
        b.i(Instruction::F64Const(0x401921fb54442d18u64)); // TAU
        b.finish()
    }
}

} // verus!
