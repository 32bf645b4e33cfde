//! Method-style functions: `value.method()` forms of length, definedness,
//! emptiness, assertion, conversion and clamping functions, registered for
//! each value type.

use vstd::prelude::*;
use crate::body::Body;
use crate::codegen::{
    CodeGenerator, Signature, appended, defined, own_bindings, shifted, lemma_appended_start,
    lemma_appended_fits, lemma_appended_compose, register_tracked, register_tracked_structured,
    binding_for,
};
use crate::error::CompilerError;
use crate::memory::MemoryManager;
use crate::wasm::{Instruction, MemArg, BlockType, ValType, WasmType, body_ok};

verus! {

/// The value types that get method-style functions, in registration order.
pub open spec fn method_type_names() -> Seq<Seq<char>> {
    seq!["integer"@, "number"@, "string"@, "boolean"@, "value"@]
}

/// A per-type method: the suffix of its name, its parameters, result and
/// body.
pub type MethodShape = (Seq<char>, Seq<WasmType>, Option<WasmType>, Seq<Instruction>);

/// The functions registered for the first `n` value types, each type with
/// every method of `methods`, in order.
pub open spec fn per_type_signatures(methods: Seq<MethodShape>, n: int) -> Seq<Signature> {
    Seq::new(
        (n * methods.len()) as nat,
        |k: int|
            defined(
                method_type_names()[k / methods.len() as int] + methods[k % methods.len() as int].0,
                methods[k % methods.len() as int].1,
                methods[k % methods.len() as int].2,
                Seq::empty(),
                methods[k % methods.len() as int].3,
            ),
    )
}

/// Length, definedness and emptiness checks.
pub open spec fn utility_methods() -> Seq<MethodShape> {
    seq![
        (".length"@, seq![WasmType::I32], Some(WasmType::I32), MethodStyleManager::value_length_body()),
        (".isDefined"@, seq![WasmType::I32], Some(WasmType::I32), MethodStyleManager::value_is_defined_body()),
        (".isNotDefined"@, seq![WasmType::I32], Some(WasmType::I32), MethodStyleManager::value_is_not_defined_body()),
        (".isEmpty"@, seq![WasmType::I32], Some(WasmType::I32), MethodStyleManager::value_is_empty_body()),
        (".isNotEmpty"@, seq![WasmType::I32], Some(WasmType::I32), MethodStyleManager::value_is_not_empty_body()),
    ]
}

/// Assertions.
pub open spec fn validation_methods() -> Seq<MethodShape> {
    seq![
        (".mustBeTrue"@, seq![WasmType::I32, WasmType::I32], None, MethodStyleManager::must_be_true_body()),
        (".mustBeFalse"@, seq![WasmType::I32, WasmType::I32], None, MethodStyleManager::must_be_false_body()),
        (".mustBeEqual"@, seq![WasmType::I32, WasmType::I32], None, MethodStyleManager::must_be_equal_body()),
        (".mustNotBeEqual"@, seq![WasmType::I32, WasmType::I32], None, MethodStyleManager::must_not_be_equal_body()),
    ]
}

/// Conversions.
pub open spec fn conversion_methods() -> Seq<MethodShape> {
    seq![
        (".toString"@, seq![WasmType::I32], Some(WasmType::I32), MethodStyleManager::value_to_string_body()),
        (".toInteger"@, seq![WasmType::I32], Some(WasmType::I32), MethodStyleManager::value_to_integer_body()),
        (".toNumber"@, seq![WasmType::I32], Some(WasmType::F64), MethodStyleManager::value_to_number_from_ptr_body()),
        (".toBoolean"@, seq![WasmType::I32], Some(WasmType::I32), MethodStyleManager::value_to_boolean_body()),
    ]
}

/// The functions `register_utility_methods` registers, in order.
pub open spec fn utility_methods_signatures() -> Seq<Signature> {
    per_type_signatures(utility_methods(), 5)
}

/// The functions `register_validation_methods` registers, in order.
pub open spec fn validation_methods_signatures() -> Seq<Signature> {
    per_type_signatures(validation_methods(), 5)
}

/// The functions `register_conversion_methods` registers, in order: the
/// conversions of every type, then `number.toNumber` on an f64.
pub open spec fn conversion_methods_signatures() -> Seq<Signature> {
    per_type_signatures(conversion_methods(), 5).push(
        defined(
            "number.toNumber"@,
            seq![WasmType::F64],
            Some(WasmType::F64),
            seq![],
            MethodStyleManager::value_to_number_body(),
        ),
    )
}

/// The functions `register_boundary_methods` registers, in order.
pub open spec fn boundary_methods_signatures() -> Seq<Signature> {
    seq![
        defined(
            "integer.keepBetween"@,
            seq![WasmType::I32, WasmType::I32, WasmType::I32],
            Some(WasmType::I32),
            seq![],
            MethodStyleManager::integer_keep_between_body(),
        ),
        defined(
            "number.keepBetween"@,
            seq![WasmType::F64, WasmType::F64, WasmType::F64],
            Some(WasmType::F64),
            seq![],
            MethodStyleManager::number_keep_between_body(),
        ),
    ]
}

/// The functions `register_functions` registers, in order.
pub open spec fn method_style_signatures() -> Seq<Signature> {
    utility_methods_signatures() + validation_methods_signatures() + conversion_methods_signatures()
        + boundary_methods_signatures()
}

/// Method-style syntax implementation for Clean Language
/// Enables value.method() calls instead of only function(value) calls
pub struct MethodStyleManager {
    /// The memory manager the functions are generated for.
    pub memory_manager: MemoryManager,
}

impl MethodStyleManager {
    /// A manager that generates the method-style functions.
    pub fn new(memory_manager: MemoryManager) -> (m: Self)
        ensures
            m.memory_manager == memory_manager,
    {
        MethodStyleManager { memory_manager }
    }

    /// Register all method-style functions as stdlib functions
    pub fn register_functions(&self, codegen: &mut CodeGenerator) -> (r: Result<(), CompilerError>)
        requires
            old(codegen).wf(),
        ensures
            final(codegen).wf(),
            r is Ok <==> old(codegen).n_functions() + 68 <= u32::MAX,
            r is Ok ==> appended(
                *old(codegen),
                *final(codegen),
                method_style_signatures(),
                own_bindings(method_style_signatures()),
            ),
            r matches Err(e) ==> e == CompilerError::FunctionLimit,
    {
        let ghost g0 = *codegen;
        self.register_utility_methods(codegen)?;
        let ghost g1 = *codegen;
        self.register_validation_methods(codegen)?;
        let ghost g2 = *codegen;
        proof {
            lemma_appended_compose(
                g0,
                g1,
                g2,
                utility_methods_signatures(),
                own_bindings(utility_methods_signatures()),
                validation_methods_signatures(),
                own_bindings(validation_methods_signatures()),
            );
        }
        self.register_conversion_methods(codegen)?;
        let ghost g3 = *codegen;
        let ghost s12 = utility_methods_signatures() + validation_methods_signatures();
        proof {
            assert(own_bindings(utility_methods_signatures()) + shifted(
                own_bindings(validation_methods_signatures()),
                25,
            ) =~= own_bindings(s12));
            lemma_appended_compose(
                g0,
                g2,
                g3,
                s12,
                own_bindings(s12),
                conversion_methods_signatures(),
                own_bindings(conversion_methods_signatures()),
            );
        }
        self.register_boundary_methods(codegen)?;
        let ghost s123 = s12 + conversion_methods_signatures();
        proof {
            assert(own_bindings(s12) + shifted(own_bindings(conversion_methods_signatures()), 45)
                =~= own_bindings(s123));
            lemma_appended_compose(
                g0,
                g3,
                *codegen,
                s123,
                own_bindings(s123),
                boundary_methods_signatures(),
                own_bindings(boundary_methods_signatures()),
            );
            assert(own_bindings(s123) + shifted(own_bindings(boundary_methods_signatures()), 66)
                =~= own_bindings(method_style_signatures()));
            lemma_appended_fits(
                g0,
                *codegen,
                method_style_signatures(),
                own_bindings(method_style_signatures()),
            );
        }
        Ok(())
    }

    /// Register utility functions that work on any value
    #[verifier::spinoff_prover]
    #[verifier::rlimit(30)]
    fn register_utility_methods(&self, codegen: &mut CodeGenerator) -> (r: Result<(), CompilerError>)
        requires
            old(codegen).wf(),
        ensures
            final(codegen).wf(),
            r is Ok <==> old(codegen).n_functions() + 25 <= u32::MAX,
            r is Ok ==> appended(
                *old(codegen),
                *final(codegen),
                utility_methods_signatures(),
                own_bindings(utility_methods_signatures()),
            ),
            r matches Err(e) ==> e == CompilerError::FunctionLimit,
    {
        // Register the methods for all types
        let types = ["integer", "number", "string", "boolean", "value"];
        let ghost start = *codegen;
        let ghost mut sigs = Seq::<Signature>::empty();
        let ghost mut binds = Seq::<(Seq<char>, int)>::empty();
        proof {
            lemma_appended_start(start);
            assert(sigs =~= per_type_signatures(utility_methods(), 0));
        }
        let mut i: usize = 0;
        while i < 5
            invariant
                i <= 5,
                types@.map_values(|t: &str| t@) == method_type_names(),
                codegen.wf(),
                appended(start, *codegen, sigs, binds),
                start == *old(codegen),
                sigs == per_type_signatures(utility_methods(), i as int),
                binds == own_bindings(sigs),
            decreases 5 - i,
        {
            let kind = types[i];
            proof {
                assert(kind@ == method_type_names()[i as int]);
            }
            let ghost before = sigs;
            assert(utility_methods().len() == 5);
            assert(sigs.len() == i * 5);
                // Length methods for strings and lists
                let name = String::from_str(kind).concat(".length");
                let ghost sig = defined(name@, seq![WasmType::I32], Some(WasmType::I32), seq![], MethodStyleManager::value_length_body());
                // This body names local 1, beyond the parameter it declares; it is
                // registered as structured only.
                register_tracked_structured(
                    codegen,
                    Ghost(start),
                    Ghost(sigs),
                    Ghost(binds),
                    Ghost(sig),
                    name.as_str(),
                    &[WasmType::I32],
                    Some(WasmType::I32),
                    &[],
                    self.generate_value_length(),
                )?;
                proof {
                    binds = binds.push(binding_for(sigs, sig));
                    sigs = sigs.push(sig);
                }
                // Check if value is defined (not null/undefined)
                let name = String::from_str(kind).concat(".isDefined");
                let ghost sig = defined(name@, seq![WasmType::I32], Some(WasmType::I32), seq![], MethodStyleManager::value_is_defined_body());
                register_tracked(
                    codegen,
                    Ghost(start),
                    Ghost(sigs),
                    Ghost(binds),
                    Ghost(sig),
                    name.as_str(),
                    &[WasmType::I32],
                    Some(WasmType::I32),
                    &[],
                    self.generate_value_is_defined(),
                )?;
                proof {
                    binds = binds.push(binding_for(sigs, sig));
                    sigs = sigs.push(sig);
                }
                let name = String::from_str(kind).concat(".isNotDefined");
                let ghost sig = defined(name@, seq![WasmType::I32], Some(WasmType::I32), seq![], MethodStyleManager::value_is_not_defined_body());
                register_tracked(
                    codegen,
                    Ghost(start),
                    Ghost(sigs),
                    Ghost(binds),
                    Ghost(sig),
                    name.as_str(),
                    &[WasmType::I32],
                    Some(WasmType::I32),
                    &[],
                    self.generate_value_is_not_defined(),
                )?;
                proof {
                    binds = binds.push(binding_for(sigs, sig));
                    sigs = sigs.push(sig);
                }
                // Check if value is empty
                let name = String::from_str(kind).concat(".isEmpty");
                let ghost sig = defined(name@, seq![WasmType::I32], Some(WasmType::I32), seq![], MethodStyleManager::value_is_empty_body());
                register_tracked(
                    codegen,
                    Ghost(start),
                    Ghost(sigs),
                    Ghost(binds),
                    Ghost(sig),
                    name.as_str(),
                    &[WasmType::I32],
                    Some(WasmType::I32),
                    &[],
                    self.generate_value_is_empty(),
                )?;
                proof {
                    binds = binds.push(binding_for(sigs, sig));
                    sigs = sigs.push(sig);
                }
                let name = String::from_str(kind).concat(".isNotEmpty");
                let ghost sig = defined(name@, seq![WasmType::I32], Some(WasmType::I32), seq![], MethodStyleManager::value_is_not_empty_body());
                register_tracked(
                    codegen,
                    Ghost(start),
                    Ghost(sigs),
                    Ghost(binds),
                    Ghost(sig),
                    name.as_str(),
                    &[WasmType::I32],
                    Some(WasmType::I32),
                    &[],
                    self.generate_value_is_not_empty(),
                )?;
                proof {
                    binds = binds.push(binding_for(sigs, sig));
                    sigs = sigs.push(sig);
                }
            proof {
                assert(sigs =~= per_type_signatures(utility_methods(), i + 1));
                assert(binds =~= own_bindings(sigs));
            }
            i = i + 1;
        }
        proof {
            lemma_appended_fits(start, *codegen, sigs, binds);
        }
        Ok(())
    }

    /// Register validation methods for assertions
    #[verifier::spinoff_prover]
    #[verifier::rlimit(30)]
    fn register_validation_methods(&self, codegen: &mut CodeGenerator) -> (r: Result<(), CompilerError>)
        requires
            old(codegen).wf(),
        ensures
            final(codegen).wf(),
            r is Ok <==> old(codegen).n_functions() + 20 <= u32::MAX,
            r is Ok ==> appended(
                *old(codegen),
                *final(codegen),
                validation_methods_signatures(),
                own_bindings(validation_methods_signatures()),
            ),
            r matches Err(e) ==> e == CompilerError::FunctionLimit,
    {
        // Register the methods for all types
        let types = ["integer", "number", "string", "boolean", "value"];
        let ghost start = *codegen;
        let ghost mut sigs = Seq::<Signature>::empty();
        let ghost mut binds = Seq::<(Seq<char>, int)>::empty();
        proof {
            lemma_appended_start(start);
            assert(sigs =~= per_type_signatures(validation_methods(), 0));
        }
        let mut i: usize = 0;
        while i < 5
            invariant
                i <= 5,
                types@.map_values(|t: &str| t@) == method_type_names(),
                codegen.wf(),
                appended(start, *codegen, sigs, binds),
                start == *old(codegen),
                sigs == per_type_signatures(validation_methods(), i as int),
                binds == own_bindings(sigs),
            decreases 5 - i,
        {
            let kind = types[i];
            proof {
                assert(kind@ == method_type_names()[i as int]);
            }
            let ghost before = sigs;
            assert(validation_methods().len() == 4);
            assert(sigs.len() == i * 4);
                // Assert that condition is true
                let name = String::from_str(kind).concat(".mustBeTrue");
                let ghost sig = defined(name@, seq![WasmType::I32, WasmType::I32], None, seq![], MethodStyleManager::must_be_true_body());
                register_tracked(
                    codegen,
                    Ghost(start),
                    Ghost(sigs),
                    Ghost(binds),
                    Ghost(sig),
                    name.as_str(),
                    &[WasmType::I32, WasmType::I32],
                    None,
                    &[],
                    self.generate_must_be_true(),
                )?;
                proof {
                    binds = binds.push(binding_for(sigs, sig));
                    sigs = sigs.push(sig);
                }
                // Assert that condition is false
                let name = String::from_str(kind).concat(".mustBeFalse");
                let ghost sig = defined(name@, seq![WasmType::I32, WasmType::I32], None, seq![], MethodStyleManager::must_be_false_body());
                register_tracked(
                    codegen,
                    Ghost(start),
                    Ghost(sigs),
                    Ghost(binds),
                    Ghost(sig),
                    name.as_str(),
                    &[WasmType::I32, WasmType::I32],
                    None,
                    &[],
                    self.generate_must_be_false(),
                )?;
                proof {
                    binds = binds.push(binding_for(sigs, sig));
                    sigs = sigs.push(sig);
                }
                // Assert that two values are equal
                let name = String::from_str(kind).concat(".mustBeEqual");
                let ghost sig = defined(name@, seq![WasmType::I32, WasmType::I32], None, seq![], MethodStyleManager::must_be_equal_body());
                register_tracked(
                    codegen,
                    Ghost(start),
                    Ghost(sigs),
                    Ghost(binds),
                    Ghost(sig),
                    name.as_str(),
                    &[WasmType::I32, WasmType::I32],
                    None,
                    &[],
                    self.generate_must_be_equal(),
                )?;
                proof {
                    binds = binds.push(binding_for(sigs, sig));
                    sigs = sigs.push(sig);
                }
                // Assert that two values are not equal
                let name = String::from_str(kind).concat(".mustNotBeEqual");
                let ghost sig = defined(name@, seq![WasmType::I32, WasmType::I32], None, seq![], MethodStyleManager::must_not_be_equal_body());
                register_tracked(
                    codegen,
                    Ghost(start),
                    Ghost(sigs),
                    Ghost(binds),
                    Ghost(sig),
                    name.as_str(),
                    &[WasmType::I32, WasmType::I32],
                    None,
                    &[],
                    self.generate_must_not_be_equal(),
                )?;
                proof {
                    binds = binds.push(binding_for(sigs, sig));
                    sigs = sigs.push(sig);
                }
            proof {
                assert(sigs =~= per_type_signatures(validation_methods(), i + 1));
                assert(binds =~= own_bindings(sigs));
            }
            i = i + 1;
        }
        proof {
            lemma_appended_fits(start, *codegen, sigs, binds);
        }
        Ok(())
    }

    /// Register type conversion methods
    #[verifier::spinoff_prover]
    #[verifier::rlimit(30)]
    fn register_conversion_methods(&self, codegen: &mut CodeGenerator) -> (r: Result<(), CompilerError>)
        requires
            old(codegen).wf(),
        ensures
            final(codegen).wf(),
            r is Ok <==> old(codegen).n_functions() + 21 <= u32::MAX,
            r is Ok ==> appended(
                *old(codegen),
                *final(codegen),
                conversion_methods_signatures(),
                own_bindings(conversion_methods_signatures()),
            ),
            r matches Err(e) ==> e == CompilerError::FunctionLimit,
    {
        // Register the methods for all types
        let types = ["integer", "number", "string", "boolean", "value"];
        let ghost start = *codegen;
        let ghost mut sigs = Seq::<Signature>::empty();
        let ghost mut binds = Seq::<(Seq<char>, int)>::empty();
        proof {
            lemma_appended_start(start);
            assert(sigs =~= per_type_signatures(conversion_methods(), 0));
        }
        let mut i: usize = 0;
        while i < 5
            invariant
                i <= 5,
                types@.map_values(|t: &str| t@) == method_type_names(),
                codegen.wf(),
                appended(start, *codegen, sigs, binds),
                start == *old(codegen),
                sigs == per_type_signatures(conversion_methods(), i as int),
                binds == own_bindings(sigs),
            decreases 5 - i,
        {
            let kind = types[i];
            proof {
                assert(kind@ == method_type_names()[i as int]);
            }
            let ghost before = sigs;
            assert(conversion_methods().len() == 4);
            assert(sigs.len() == i * 4);
                // String conversion
                let name = String::from_str(kind).concat(".toString");
                let ghost sig = defined(name@, seq![WasmType::I32], Some(WasmType::I32), seq![], MethodStyleManager::value_to_string_body());
                register_tracked(
                    codegen,
                    Ghost(start),
                    Ghost(sigs),
                    Ghost(binds),
                    Ghost(sig),
                    name.as_str(),
                    &[WasmType::I32],
                    Some(WasmType::I32),
                    &[],
                    self.generate_value_to_string(),
                )?;
                proof {
                    binds = binds.push(binding_for(sigs, sig));
                    sigs = sigs.push(sig);
                }
                // Integer conversion
                let name = String::from_str(kind).concat(".toInteger");
                let ghost sig = defined(name@, seq![WasmType::I32], Some(WasmType::I32), seq![], MethodStyleManager::value_to_integer_body());
                register_tracked(
                    codegen,
                    Ghost(start),
                    Ghost(sigs),
                    Ghost(binds),
                    Ghost(sig),
                    name.as_str(),
                    &[WasmType::I32],
                    Some(WasmType::I32),
                    &[],
                    self.generate_value_to_integer(),
                )?;
                proof {
                    binds = binds.push(binding_for(sigs, sig));
                    sigs = sigs.push(sig);
                }
                // Number conversion - handle both I32 and F64 inputs
                let name = String::from_str(kind).concat(".toNumber");
                let ghost sig = defined(name@, seq![WasmType::I32], Some(WasmType::F64), seq![], MethodStyleManager::value_to_number_from_ptr_body());
                register_tracked(
                    codegen,
                    Ghost(start),
                    Ghost(sigs),
                    Ghost(binds),
                    Ghost(sig),
                    name.as_str(),
                    &[WasmType::I32],
                    Some(WasmType::F64),
                    &[],
                    self.generate_value_to_number_from_ptr(),
                )?;
                proof {
                    binds = binds.push(binding_for(sigs, sig));
                    sigs = sigs.push(sig);
                }
                // Boolean conversion
                let name = String::from_str(kind).concat(".toBoolean");
                let ghost sig = defined(name@, seq![WasmType::I32], Some(WasmType::I32), seq![], MethodStyleManager::value_to_boolean_body());
                register_tracked(
                    codegen,
                    Ghost(start),
                    Ghost(sigs),
                    Ghost(binds),
                    Ghost(sig),
                    name.as_str(),
                    &[WasmType::I32],
                    Some(WasmType::I32),
                    &[],
                    self.generate_value_to_boolean(),
                )?;
                proof {
                    binds = binds.push(binding_for(sigs, sig));
                    sigs = sigs.push(sig);
                }
            proof {
                assert(sigs =~= per_type_signatures(conversion_methods(), i + 1));
                assert(binds =~= own_bindings(sigs));
            }
            i = i + 1;
        }
        // Special case for number.toNumber that takes F64 directly
        let ghost sig = defined("number.toNumber"@, seq![WasmType::F64], Some(WasmType::F64), seq![], MethodStyleManager::value_to_number_body());
        register_tracked(
            codegen,
            Ghost(start),
            Ghost(sigs),
            Ghost(binds),
            Ghost(sig),
            "number.toNumber",
            &[WasmType::F64],
            Some(WasmType::F64),
            &[],
            self.generate_value_to_number(),
        )?;
        proof {
            binds = binds.push(binding_for(sigs, sig));
            sigs = sigs.push(sig);
            assert(sigs =~= conversion_methods_signatures());
            assert(binds =~= own_bindings(sigs));
        }
        proof {
            lemma_appended_fits(start, *codegen, sigs, binds);
        }
        Ok(())
    }

    /// Register boundary/range methods
    fn register_boundary_methods(&self, codegen: &mut CodeGenerator) -> (r: Result<(), CompilerError>)
        requires
            old(codegen).wf(),
        ensures
            final(codegen).wf(),
            r is Ok <==> old(codegen).n_functions() + 2 <= u32::MAX,
            r is Ok ==> appended(
                *old(codegen),
                *final(codegen),
                boundary_methods_signatures(),
                own_bindings(boundary_methods_signatures()),
            ),
            r matches Err(e) ==> e == CompilerError::FunctionLimit,
    {
        let ghost start = *codegen;
        let ghost mut sigs = Seq::<Signature>::empty();
        let ghost mut binds = Seq::<(Seq<char>, int)>::empty();
        proof {
            lemma_appended_start(start);
        }
        // Keep integer value within bounds
        let ghost sig = defined(
            "integer.keepBetween"@,
            seq![WasmType::I32, WasmType::I32, WasmType::I32],
            Some(WasmType::I32),
            seq![],
            MethodStyleManager::integer_keep_between_body(),
        );
        // This body names local 3, beyond the three parameters it declares;
        // it is registered as structured only.
        register_tracked_structured(
            codegen,
            Ghost(start),
            Ghost(sigs),
            Ghost(binds),
            Ghost(sig),
            "integer.keepBetween",
            &[WasmType::I32, WasmType::I32, WasmType::I32],
            Some(WasmType::I32),
            &[],
            self.generate_integer_keep_between(),
        )?;
        proof {
            binds = binds.push(binding_for(sigs, sig));
            sigs = sigs.push(sig);
        }
        // Keep number value within bounds
        let ghost sig = defined(
            "number.keepBetween"@,
            seq![WasmType::F64, WasmType::F64, WasmType::F64],
            Some(WasmType::F64),
            seq![],
            MethodStyleManager::number_keep_between_body(),
        );
        // This body names local 3, beyond the three parameters it declares;
        // it is registered as structured only.
        register_tracked_structured(
            codegen,
            Ghost(start),
            Ghost(sigs),
            Ghost(binds),
            Ghost(sig),
            "number.keepBetween",
            &[WasmType::F64, WasmType::F64, WasmType::F64],
            Some(WasmType::F64),
            &[],
            self.generate_number_keep_between(),
        )?;
        proof {
            binds = binds.push(binding_for(sigs, sig));
            sigs = sigs.push(sig);
            assert(sigs =~= boundary_methods_signatures());
            assert(binds =~= own_bindings(sigs));
            lemma_appended_fits(start, *codegen, sigs, binds);
        }
        Ok(())
    }

    /// The instructions `generate_value_length` returns.
    #[verifier::opaque]
    pub open spec fn value_length_body() -> Seq<Instruction> {
        seq![
            Instruction::LocalGet(0),
            Instruction::I32Load(MemArg { offset: 8, align: 2, memory_index: 0 }),
            Instruction::LocalSet(1),
            Instruction::LocalGet(1),
            Instruction::I32Const(3),
            Instruction::I32Eq,
            Instruction::If(BlockType::Result(ValType::I32)),
            Instruction::LocalGet(0),
            Instruction::I32Load(MemArg { offset: 0, align: 2, memory_index: 0 }),
            Instruction::Else,
            Instruction::LocalGet(1),
            Instruction::I32Const(4),
            Instruction::I32Eq,
            Instruction::If(BlockType::Result(ValType::I32)),
            Instruction::LocalGet(0),
            Instruction::I32Load(MemArg { offset: 0, align: 2, memory_index: 0 }),
            Instruction::Else,
            Instruction::I32Const(1),
            Instruction::End,
            Instruction::End,
        ]
    }

    /// Generate WASM for value.length() method
    fn generate_value_length(&self) -> (r: Vec<Instruction>)
        ensures
            body_ok(r@, 2),
            r@ == Self::value_length_body(),
    {
        proof {
            reveal(MethodStyleManager::value_length_body);
        }
        let mut b = Body::new(2);
        // Parameters: value_ptr (0)
        // Returns: length of value
        // Load type ID from value header
        b.i(Instruction::LocalGet(0)); // value_ptr
        b.i(Instruction::I32Load(MemArg { offset: 8, align: 2, memory_index: 0 })); // Type ID at offset 8
        b.i(Instruction::LocalSet(1)); // type_id
        // Check if it's a string (type ID 3)
        b.i(Instruction::LocalGet(1));
        b.i(Instruction::I32Const(3)); // String type ID
        b.i(Instruction::I32Eq);
        b.i(Instruction::If(BlockType::Result(ValType::I32)));
        // String length - load from string header
        b.i(Instruction::LocalGet(0));
        b.i(Instruction::I32Load(MemArg { offset: 0, align: 2, memory_index: 0 }));
        b.i(Instruction::Else);
        // Check if it's a list (type ID 4)
        b.i(Instruction::LocalGet(1));
        b.i(Instruction::I32Const(4)); // List type ID
        b.i(Instruction::I32Eq);
        b.i(Instruction::If(BlockType::Result(ValType::I32)));
        // List length - load from list header
        b.i(Instruction::LocalGet(0));
        b.i(Instruction::I32Load(MemArg { offset: 0, align: 2, memory_index: 0 }));
        b.i(Instruction::Else);
        // Default - return 1 for simple values
        b.i(Instruction::I32Const(1));
        b.i(Instruction::End);
        b.i(Instruction::End);
        b.finish()
    }

    /// The instructions `generate_value_is_defined` returns.
    #[verifier::opaque]
    pub open spec fn value_is_defined_body() -> Seq<Instruction> {
        seq![
            Instruction::LocalGet(0),
            Instruction::I32Const(0),
            Instruction::I32Ne,
        ]
    }

    /// Generate WASM for value.isDefined() method
    fn generate_value_is_defined(&self) -> (r: Vec<Instruction>)
        ensures
            body_ok(r@, 1),
            r@ == Self::value_is_defined_body(),
    {
        proof {
            reveal(MethodStyleManager::value_is_defined_body);
        }
        let mut b = Body::new(1);
        // Parameters: value_ptr (0)
        // Returns: 1 if defined (not null), 0 if null
        b.i(Instruction::LocalGet(0));
        b.i(Instruction::I32Const(0));
        b.i(Instruction::I32Ne);
        b.finish()
    }

    /// The instructions `generate_value_is_not_defined` returns.
    #[verifier::opaque]
    pub open spec fn value_is_not_defined_body() -> Seq<Instruction> {
        seq![
            Instruction::LocalGet(0),
            Instruction::I32Eqz,
        ]
    }

    /// Generate WASM for value.isNotDefined() method
    fn generate_value_is_not_defined(&self) -> (r: Vec<Instruction>)
        ensures
            body_ok(r@, 1),
            r@ == Self::value_is_not_defined_body(),
    {
        proof {
            reveal(MethodStyleManager::value_is_not_defined_body);
        }
        let mut b = Body::new(1);
        // Parameters: value_ptr (0)
        // Returns: 1 if null, 0 if defined
        b.i(Instruction::LocalGet(0));
        b.i(Instruction::I32Eqz);
        b.finish()
    }

    /// The instructions `generate_value_is_empty` returns.
    #[verifier::opaque]
    pub open spec fn value_is_empty_body() -> Seq<Instruction> {
        seq![
            Instruction::LocalGet(0),
            Instruction::I32Eqz,
            Instruction::If(BlockType::Result(ValType::I32)),
            Instruction::I32Const(1),
            Instruction::Else,
            Instruction::LocalGet(0),
            Instruction::Call(Self::value_length_function_index()),
            Instruction::I32Eqz,
            Instruction::End,
        ]
    }

    /// Generate WASM for value.isEmpty() method
    fn generate_value_is_empty(&self) -> (r: Vec<Instruction>)
        ensures
            body_ok(r@, 1),
            r@ == Self::value_is_empty_body(),
    {
        proof {
            reveal(MethodStyleManager::value_is_empty_body);
        }
        let mut b = Body::new(1);
        // Parameters: value_ptr (0)
        // Returns: 1 if empty, 0 if not empty
        // Check if pointer is null
        b.i(Instruction::LocalGet(0));
        b.i(Instruction::I32Eqz);
        b.i(Instruction::If(BlockType::Result(ValType::I32)));
        b.i(Instruction::I32Const(1)); // Null is empty
        b.i(Instruction::Else);
        // Call length and check if 0
        b.i(Instruction::LocalGet(0));
        b.i(Instruction::Call(self.get_value_length_function_index()));
        b.i(Instruction::I32Eqz);
        b.i(Instruction::End);
        b.finish()
    }

    /// The instructions `generate_value_is_not_empty` returns.
    #[verifier::opaque]
    pub open spec fn value_is_not_empty_body() -> Seq<Instruction> {
        seq![
            Instruction::LocalGet(0),
            Instruction::I32Eqz,
            Instruction::If(BlockType::Result(ValType::I32)),
            Instruction::I32Const(0),
            Instruction::Else,
            Instruction::LocalGet(0),
            Instruction::Call(Self::value_length_function_index()),
            Instruction::I32Const(0),
            Instruction::I32GtU,
            Instruction::End,
        ]
    }

    /// Generate WASM for value.isNotEmpty() method
    fn generate_value_is_not_empty(&self) -> (r: Vec<Instruction>)
        ensures
            body_ok(r@, 1),
            r@ == Self::value_is_not_empty_body(),
    {
        proof {
            reveal(MethodStyleManager::value_is_not_empty_body);
        }
        let mut b = Body::new(1);
        // Parameters: value_ptr (0)
        // Returns: 1 if not empty, 0 if empty
        // Check if pointer is null
        b.i(Instruction::LocalGet(0));
        b.i(Instruction::I32Eqz);
        b.i(Instruction::If(BlockType::Result(ValType::I32)));
        b.i(Instruction::I32Const(0)); // Null is empty, so not-empty is false
        b.i(Instruction::Else);
        // Call length and check if > 0
        b.i(Instruction::LocalGet(0));
        b.i(Instruction::Call(self.get_value_length_function_index()));
        b.i(Instruction::I32Const(0));
        b.i(Instruction::I32GtU);
        b.i(Instruction::End);
        b.finish()
    }

    /// The instructions `generate_must_be_true` returns.
    #[verifier::opaque]
    pub open spec fn must_be_true_body() -> Seq<Instruction> {
        seq![
            Instruction::LocalGet(1),
            Instruction::I32Eqz,
            Instruction::If(BlockType::Empty),
            Instruction::Unreachable,
            Instruction::End,
        ]
    }

    /// Generate WASM for value.mustBeTrue() method
    fn generate_must_be_true(&self) -> (r: Vec<Instruction>)
        ensures
            body_ok(r@, 2),
            r@ == Self::must_be_true_body(),
    {
        proof {
            reveal(MethodStyleManager::must_be_true_body);
        }
        let mut b = Body::new(2);
        // Parameters: value_ptr (0), condition (1)
        // Asserts that condition is true
        b.i(Instruction::LocalGet(1)); // condition
        b.i(Instruction::I32Eqz);
        b.i(Instruction::If(BlockType::Empty));
        // Condition is false - trigger error
        // For now, just return (in production would throw exception)
        b.i(Instruction::Unreachable);
        b.i(Instruction::End);
        b.finish()
    }

    /// The instructions `generate_must_be_false` returns.
    #[verifier::opaque]
    pub open spec fn must_be_false_body() -> Seq<Instruction> {
        seq![
            Instruction::LocalGet(1),
            Instruction::If(BlockType::Empty),
            Instruction::Unreachable,
            Instruction::End,
        ]
    }

    /// Generate WASM for value.mustBeFalse() method
    fn generate_must_be_false(&self) -> (r: Vec<Instruction>)
        ensures
            body_ok(r@, 2),
            r@ == Self::must_be_false_body(),
    {
        proof {
            reveal(MethodStyleManager::must_be_false_body);
        }
        let mut b = Body::new(2);
        // Parameters: value_ptr (0), condition (1)
        // Asserts that condition is false
        b.i(Instruction::LocalGet(1)); // condition
        b.i(Instruction::If(BlockType::Empty));
        // Condition is true - trigger error
        b.i(Instruction::Unreachable);
        b.i(Instruction::End);
        b.finish()
    }

    /// The instructions `generate_must_be_equal` returns.
    #[verifier::opaque]
    pub open spec fn must_be_equal_body() -> Seq<Instruction> {
        seq![
            Instruction::LocalGet(0),
            Instruction::LocalGet(1),
            Instruction::I32Ne,
            Instruction::If(BlockType::Empty),
            Instruction::Unreachable,
            Instruction::End,
        ]
    }

    /// Generate WASM for value.mustBeEqual() method
    fn generate_must_be_equal(&self) -> (r: Vec<Instruction>)
        ensures
            body_ok(r@, 2),
            r@ == Self::must_be_equal_body(),
    {
        proof {
            reveal(MethodStyleManager::must_be_equal_body);
        }
        let mut b = Body::new(2);
        // Parameters: value1_ptr (0), value2_ptr (1)
        // Asserts that values are equal
        b.i(Instruction::LocalGet(0));
        b.i(Instruction::LocalGet(1));
        b.i(Instruction::I32Ne);
        b.i(Instruction::If(BlockType::Empty));
        // Values are not equal - trigger error
        b.i(Instruction::Unreachable);
        b.i(Instruction::End);
        b.finish()
    }

    /// The instructions `generate_must_not_be_equal` returns.
    #[verifier::opaque]
    pub open spec fn must_not_be_equal_body() -> Seq<Instruction> {
        seq![
            Instruction::LocalGet(0),
            Instruction::LocalGet(1),
            Instruction::I32Eq,
            Instruction::If(BlockType::Empty),
            Instruction::Unreachable,
            Instruction::End,
        ]
    }

    /// Generate WASM for value.mustNotBeEqual() method
    fn generate_must_not_be_equal(&self) -> (r: Vec<Instruction>)
        ensures
            body_ok(r@, 2),
            r@ == Self::must_not_be_equal_body(),
    {
        proof {
            reveal(MethodStyleManager::must_not_be_equal_body);
        }
        let mut b = Body::new(2);
        // Parameters: value1_ptr (0), value2_ptr (1)
        // Asserts that values are not equal
        b.i(Instruction::LocalGet(0));
        b.i(Instruction::LocalGet(1));
        b.i(Instruction::I32Eq);
        b.i(Instruction::If(BlockType::Empty));
        // Values are equal - trigger error
        b.i(Instruction::Unreachable);
        b.i(Instruction::End);
        b.finish()
    }

    /// The instructions `generate_value_to_string` returns.
    #[verifier::opaque]
    pub open spec fn value_to_string_body() -> Seq<Instruction> {
        seq![
            Instruction::LocalGet(0),
            Instruction::Call(Self::to_string_function_index()),
        ]
    }

    /// Generate WASM for value.toString() method
    fn generate_value_to_string(&self) -> (r: Vec<Instruction>)
        ensures
            body_ok(r@, 1),
            r@ == Self::value_to_string_body(),
    {
        proof {
            reveal(MethodStyleManager::value_to_string_body);
        }
        let mut b = Body::new(1);
        // Parameters: value_ptr (0)
        // Returns: string pointer
        // For now, return a simple string representation
        // In production, would check type and convert appropriately
        b.i(Instruction::LocalGet(0));
        b.i(Instruction::Call(self.get_to_string_function_index()));
        b.finish()
    }

    /// The instructions `generate_value_to_integer` returns.
    #[verifier::opaque]
    pub open spec fn value_to_integer_body() -> Seq<Instruction> {
        seq![
            Instruction::LocalGet(0),
            Instruction::I32Load(MemArg { offset: 0, align: 2, memory_index: 0 }),
        ]
    }

    /// Generate WASM for value.toInteger() method
    fn generate_value_to_integer(&self) -> (r: Vec<Instruction>)
        ensures
            body_ok(r@, 1),
            r@ == Self::value_to_integer_body(),
    {
        proof {
            reveal(MethodStyleManager::value_to_integer_body);
        }
        let mut b = Body::new(1);
        // Parameters: value_ptr (0)
        // Returns: integer value
        // Load value assuming it's stored as i32
        b.i(Instruction::LocalGet(0));
        b.i(Instruction::I32Load(MemArg { offset: 0, align: 2, memory_index: 0 }));
        b.finish()
    }

    /// The instructions `generate_value_to_number` returns.
    #[verifier::opaque]
    pub open spec fn value_to_number_body() -> Seq<Instruction> {
        seq![
            Instruction::LocalGet(0),
        ]
    }

    /// Generate WASM for value.toNumber() method
    fn generate_value_to_number(&self) -> (r: Vec<Instruction>)
        ensures
            body_ok(r@, 1),
            r@ == Self::value_to_number_body(),
    {
        proof {
            reveal(MethodStyleManager::value_to_number_body);
        }
        let mut b = Body::new(1);
        // Parameters: value (f64)
        // Returns: number value (same as input for numbers)
        b.i(Instruction::LocalGet(0));
        b.finish()
    }

    /// The instructions `generate_value_to_number_from_ptr` returns.
    #[verifier::opaque]
    pub open spec fn value_to_number_from_ptr_body() -> Seq<Instruction> {
        seq![
            Instruction::LocalGet(0),
            Instruction::I32Load(MemArg { offset: 0, align: 2, memory_index: 0 }),
            Instruction::F64ConvertI32S,
        ]
    }

    /// Generate WASM for value.toNumber() method from pointer
    fn generate_value_to_number_from_ptr(&self) -> (r: Vec<Instruction>)
        ensures
            body_ok(r@, 1),
            r@ == Self::value_to_number_from_ptr_body(),
    {
        proof {
            reveal(MethodStyleManager::value_to_number_from_ptr_body);
        }
        let mut b = Body::new(1);
        // Parameters: value_ptr (0)
        // Returns: number value (f64)
        // Load value from pointer and convert to f64
        b.i(Instruction::LocalGet(0));
        b.i(Instruction::I32Load(MemArg { offset: 0, align: 2, memory_index: 0 }));
        b.i(Instruction::F64ConvertI32S); // Convert i32 to f64
        b.finish()
    }

    /// The instructions `generate_value_to_boolean` returns.
    #[verifier::opaque]
    pub open spec fn value_to_boolean_body() -> Seq<Instruction> {
        seq![
            Instruction::LocalGet(0),
            Instruction::I32Load(MemArg { offset: 0, align: 2, memory_index: 0 }),
            Instruction::I32Const(0),
            Instruction::I32Ne,
        ]
    }

    /// Generate WASM for value.toBoolean() method
    fn generate_value_to_boolean(&self) -> (r: Vec<Instruction>)
        ensures
            body_ok(r@, 1),
            r@ == Self::value_to_boolean_body(),
    {
        proof {
            reveal(MethodStyleManager::value_to_boolean_body);
        }
        let mut b = Body::new(1);
        // Parameters: value_ptr (0)
        // Returns: boolean value (1 or 0)
        // Convert value to boolean
        b.i(Instruction::LocalGet(0));
        b.i(Instruction::I32Load(MemArg { offset: 0, align: 2, memory_index: 0 }));
        b.i(Instruction::I32Const(0));
        b.i(Instruction::I32Ne); // 0 = false, non-zero = true
        b.finish()
    }

    /// The instructions `generate_integer_keep_between` returns.
    #[verifier::opaque]
    pub open spec fn integer_keep_between_body() -> Seq<Instruction> {
        seq![
            Instruction::LocalGet(0),
            Instruction::LocalGet(1),
            Instruction::LocalGet(0),
            Instruction::LocalGet(1),
            Instruction::I32LtS,
            Instruction::Select,
            Instruction::LocalGet(2),
            Instruction::LocalTee(3),
            Instruction::LocalGet(3),
            Instruction::I32GtS,
            Instruction::Select,
        ]
    }

    /// Generate WASM for integer.keepBetween() method
    fn generate_integer_keep_between(&self) -> (r: Vec<Instruction>)
        ensures
            body_ok(r@, 4),
            r@ == Self::integer_keep_between_body(),
    {
        proof {
            reveal(MethodStyleManager::integer_keep_between_body);
        }
        let mut b = Body::new(4);
        // Parameters: value (0), min (1), max (2)
        // Returns: clamped value
        // Clamp to minimum
        b.i(Instruction::LocalGet(0)); // value
        b.i(Instruction::LocalGet(1)); // min
        b.i(Instruction::LocalGet(0)); // value
        b.i(Instruction::LocalGet(1)); // min
        b.i(Instruction::I32LtS); // value < min
        b.i(Instruction::Select); // Choose min if value < min, else value
        // Clamp to maximum
        b.i(Instruction::LocalGet(2)); // max
        b.i(Instruction::LocalTee(3)); // Store in local 3, keep on stack
        b.i(Instruction::LocalGet(3)); // max again
        b.i(Instruction::I32GtS); // clamped_value > max
        b.i(Instruction::Select); // Choose max if > max, else clamped_value
        b.finish()
    }

    /// The instructions `generate_number_keep_between` returns.
    #[verifier::opaque]
    pub open spec fn number_keep_between_body() -> Seq<Instruction> {
        seq![
            Instruction::LocalGet(0),
            Instruction::LocalGet(1),
            Instruction::LocalGet(0),
            Instruction::LocalGet(1),
            Instruction::F64Lt,
            Instruction::Select,
            Instruction::LocalGet(2),
            Instruction::LocalTee(3),
            Instruction::LocalGet(3),
            Instruction::F64Gt,
            Instruction::Select,
        ]
    }

    /// Generate WASM for number.keepBetween() method
    fn generate_number_keep_between(&self) -> (r: Vec<Instruction>)
        ensures
            body_ok(r@, 4),
            r@ == Self::number_keep_between_body(),
    {
        proof {
            reveal(MethodStyleManager::number_keep_between_body);
        }
        let mut b = Body::new(4);
        // Parameters: value (0), min (1), max (2)
        // Returns: clamped value
        // Clamp to minimum
        b.i(Instruction::LocalGet(0)); // value
        b.i(Instruction::LocalGet(1)); // min
        b.i(Instruction::LocalGet(0)); // value
        b.i(Instruction::LocalGet(1)); // min
        b.i(Instruction::F64Lt); // value < min
        b.i(Instruction::Select); // Choose min if value < min, else value
        // Clamp to maximum
        b.i(Instruction::LocalGet(2)); // max
        b.i(Instruction::LocalTee(3)); // Store in local 3, keep on stack
        b.i(Instruction::LocalGet(3)); // max again
        b.i(Instruction::F64Gt); // clamped_value > max
        b.i(Instruction::Select); // Choose max if > max, else clamped_value
        b.finish()
    }

    /// The index the length helper is called at.
    pub open spec fn value_length_function_index() -> u32 {
        400
    }

    /// The index the to-string helper is called at.
    pub open spec fn to_string_function_index() -> u32 {
        401
    }

    /// The index the length helper is called at.
    fn get_value_length_function_index(&self) -> (idx: u32)
        ensures
            idx == Self::value_length_function_index(),
    {
        400
    }

    /// The index the to-string helper is called at.
    fn get_to_string_function_index(&self) -> (idx: u32)
        ensures
            idx == Self::to_string_function_index(),
    {
        401
    }
}

} // verus!
