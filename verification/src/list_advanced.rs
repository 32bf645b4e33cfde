//! Advanced list operations registered as WebAssembly functions: map,
//! filter, reduce, for-each, first/last access, fill and range.

use vstd::prelude::*;
use crate::body::Body;
use crate::codegen::{
    CodeGenerator, Signature, appended, defined, shifted, lemma_appended_start, lemma_appended_fits,
    lemma_appended_compose, register_tracked, import_tracked, binding_for,
};
use crate::error::CompilerError;
use crate::memory::MemoryManager;
use crate::wasm::{Instruction, MemArg, BlockType, ValType, WasmType, body_ok};

verus! {

/// The functions `register_functions` registers, in order.
pub open spec fn list_advanced_signatures() -> Seq<Signature> {
    list_advanced_map_functions_signatures() + list_advanced_filter_functions_signatures() + list_advanced_reduce_functions_signatures() + list_advanced_foreach_functions_signatures() + list_advanced_access_functions_signatures() + list_advanced_utility_functions_signatures()
}

/// The names `register_functions` binds, with indices counted from its first
/// registered function.
pub open spec fn list_advanced_bindings() -> Seq<(Seq<char>, int)> {
    list_advanced_map_functions_bindings() + shifted(list_advanced_filter_functions_bindings(), 1) + shifted(list_advanced_reduce_functions_bindings(), 2) + shifted(list_advanced_foreach_functions_bindings(), 3) + shifted(list_advanced_access_functions_bindings(), 4) + shifted(list_advanced_utility_functions_bindings(), 6)
}

/// The functions `register_map_functions` registers, in order.
pub open spec fn list_advanced_map_functions_signatures() -> Seq<Signature> {
    seq![
        defined(
            "list.mapAdvanced"@,
            seq![WasmType::I32, WasmType::I32],
            Some(WasmType::I32),
            seq![WasmType::I32, WasmType::I32, WasmType::I32, WasmType::I32, WasmType::I32, WasmType::I32],
            ListAdvancedManager::map_advanced_body(),
        ),
    ]
}

/// The names `register_map_functions` binds, with indices counted from its first
/// registered function.
pub open spec fn list_advanced_map_functions_bindings() -> Seq<(Seq<char>, int)> {
    seq![
        ("list.mapAdvanced"@, 0),
    ]
}

/// The functions `register_filter_functions` registers, in order.
pub open spec fn list_advanced_filter_functions_signatures() -> Seq<Signature> {
    seq![
        defined(
            "list.filterAdvanced"@,
            seq![WasmType::I32, WasmType::I32],
            Some(WasmType::I32),
            seq![WasmType::I32, WasmType::I32, WasmType::I32, WasmType::I32, WasmType::I32, WasmType::I32],
            ListAdvancedManager::filter_advanced_body(),
        ),
    ]
}

/// The names `register_filter_functions` binds, with indices counted from its first
/// registered function.
pub open spec fn list_advanced_filter_functions_bindings() -> Seq<(Seq<char>, int)> {
    seq![
        ("list.filterAdvanced"@, 0),
    ]
}

/// The functions `register_reduce_functions` registers, in order.
pub open spec fn list_advanced_reduce_functions_signatures() -> Seq<Signature> {
    seq![
        defined(
            "list.reduceAdvanced"@,
            seq![WasmType::I32, WasmType::I32, WasmType::I32],
            Some(WasmType::I32),
            seq![WasmType::I32, WasmType::I32, WasmType::I32, WasmType::I32, WasmType::I32],
            ListAdvancedManager::reduce_advanced_body(),
        ),
    ]
}

/// The names `register_reduce_functions` binds, with indices counted from its first
/// registered function.
pub open spec fn list_advanced_reduce_functions_bindings() -> Seq<(Seq<char>, int)> {
    seq![
        ("list.reduceAdvanced"@, 0),
    ]
}

/// The functions `register_foreach_functions` registers, in order.
pub open spec fn list_advanced_foreach_functions_signatures() -> Seq<Signature> {
    seq![
        defined(
            "list.forEachAdvanced"@,
            seq![WasmType::I32, WasmType::I32],
            None,
            seq![WasmType::I32, WasmType::I32, WasmType::I32],
            ListAdvancedManager::foreach_advanced_body(),
        ),
    ]
}

/// The names `register_foreach_functions` binds, with indices counted from its first
/// registered function.
pub open spec fn list_advanced_foreach_functions_bindings() -> Seq<(Seq<char>, int)> {
    seq![
        ("list.forEachAdvanced"@, 0),
    ]
}

/// The functions `register_access_functions` registers, in order.
pub open spec fn list_advanced_access_functions_signatures() -> Seq<Signature> {
    seq![
        defined(
            "list.firstAdvanced"@,
            seq![WasmType::I32],
            Some(WasmType::I32),
            seq![WasmType::I32],
            ListAdvancedManager::first_advanced_body(),
        ),
        defined(
            "list.lastAdvanced"@,
            seq![WasmType::I32],
            Some(WasmType::I32),
            seq![WasmType::I32, WasmType::I32],
            ListAdvancedManager::last_advanced_body(),
        ),
    ]
}

/// The names `register_access_functions` binds, with indices counted from its first
/// registered function.
pub open spec fn list_advanced_access_functions_bindings() -> Seq<(Seq<char>, int)> {
    seq![
        ("list.firstAdvanced"@, 0),
        ("list.lastAdvanced"@, 1),
    ]
}

/// The functions `register_utility_functions` registers, in order.
pub open spec fn list_advanced_utility_functions_signatures() -> Seq<Signature> {
    seq![
        defined(
            "list.fillAdvanced"@,
            seq![WasmType::I32, WasmType::I32, WasmType::I32, WasmType::I32],
            Some(WasmType::I32),
            seq![WasmType::I32, WasmType::I32, WasmType::I32],
            ListAdvancedManager::fill_advanced_body(),
        ),
        defined(
            "list.rangeAdvanced"@,
            seq![WasmType::I32, WasmType::I32, WasmType::I32],
            Some(WasmType::I32),
            seq![WasmType::I32, WasmType::I32, WasmType::I32, WasmType::I32, WasmType::I32],
            ListAdvancedManager::range_advanced_body(),
        ),
    ]
}

/// The names `register_utility_functions` binds, with indices counted from its first
/// registered function.
pub open spec fn list_advanced_utility_functions_bindings() -> Seq<(Seq<char>, int)> {
    seq![
        ("list.fillAdvanced"@, 0),
        ("list.rangeAdvanced"@, 1),
    ]
}

/// Advanced List class implementation for Clean Language
/// Implements missing functional methods: map(), filter(), reduce(), forEach(), first(), last(), fill(), range()
pub struct ListAdvancedManager {
    /// The memory manager the functions are generated for.
    pub memory_manager: MemoryManager,
}

impl ListAdvancedManager {
    /// A manager that generates the advanced list functions.
    pub fn new(memory_manager: MemoryManager) -> (m: Self)
        ensures
            m.memory_manager == memory_manager,
    {
        ListAdvancedManager { memory_manager }
    }

    /// Register all advanced list functions with the code generator
    pub fn register_functions(&self, codegen: &mut CodeGenerator) -> (r: Result<(), CompilerError>)
        requires
            old(codegen).wf(),
        ensures
            final(codegen).wf(),
            r is Ok <==> old(codegen).n_functions() + 8 <= u32::MAX,
            r is Ok ==> appended(
                *old(codegen),
                *final(codegen),
                list_advanced_signatures(),
                list_advanced_bindings(),
            ),
            r matches Err(e) ==> e == CompilerError::FunctionLimit,
    {
        let ghost g0 = *codegen;
        // Functional methods
        self.register_map_functions(codegen)?;
        let ghost g1 = *codegen;
        self.register_filter_functions(codegen)?;
        proof {
            lemma_appended_compose(
                g0,
                g1,
                *codegen,
                list_advanced_map_functions_signatures(),
                list_advanced_map_functions_bindings(),
                list_advanced_filter_functions_signatures(),
                list_advanced_filter_functions_bindings(),
            );
        }
        let ghost g2 = *codegen;
        self.register_reduce_functions(codegen)?;
        proof {
            lemma_appended_compose(
                g0,
                g2,
                *codegen,
                list_advanced_map_functions_signatures() + list_advanced_filter_functions_signatures(),
                list_advanced_map_functions_bindings() + shifted(list_advanced_filter_functions_bindings(), 1),
                list_advanced_reduce_functions_signatures(),
                list_advanced_reduce_functions_bindings(),
            );
        }
        let ghost g3 = *codegen;
        self.register_foreach_functions(codegen)?;
        proof {
            lemma_appended_compose(
                g0,
                g3,
                *codegen,
                list_advanced_map_functions_signatures() + list_advanced_filter_functions_signatures() + list_advanced_reduce_functions_signatures(),
                list_advanced_map_functions_bindings() + shifted(list_advanced_filter_functions_bindings(), 1) + shifted(list_advanced_reduce_functions_bindings(), 2),
                list_advanced_foreach_functions_signatures(),
                list_advanced_foreach_functions_bindings(),
            );
        }
        // Access methods
        let ghost g4 = *codegen;
        self.register_access_functions(codegen)?;
        proof {
            lemma_appended_compose(
                g0,
                g4,
                *codegen,
                list_advanced_map_functions_signatures() + list_advanced_filter_functions_signatures() + list_advanced_reduce_functions_signatures() + list_advanced_foreach_functions_signatures(),
                list_advanced_map_functions_bindings() + shifted(list_advanced_filter_functions_bindings(), 1) + shifted(list_advanced_reduce_functions_bindings(), 2) + shifted(list_advanced_foreach_functions_bindings(), 3),
                list_advanced_access_functions_signatures(),
                list_advanced_access_functions_bindings(),
            );
        }
        // Utility methods
        let ghost g5 = *codegen;
        self.register_utility_functions(codegen)?;
        proof {
            lemma_appended_compose(
                g0,
                g5,
                *codegen,
                list_advanced_map_functions_signatures() + list_advanced_filter_functions_signatures() + list_advanced_reduce_functions_signatures() + list_advanced_foreach_functions_signatures() + list_advanced_access_functions_signatures(),
                list_advanced_map_functions_bindings() + shifted(list_advanced_filter_functions_bindings(), 1) + shifted(list_advanced_reduce_functions_bindings(), 2) + shifted(list_advanced_foreach_functions_bindings(), 3) + shifted(list_advanced_access_functions_bindings(), 4),
                list_advanced_utility_functions_signatures(),
                list_advanced_utility_functions_bindings(),
            );
        }
        proof {
            lemma_appended_fits(g0, *codegen, list_advanced_signatures(), list_advanced_bindings());
        }
        Ok(())
    }

    fn register_map_functions(&self, codegen: &mut CodeGenerator) -> (r: Result<(), CompilerError>)
        requires
            old(codegen).wf(),
        ensures
            final(codegen).wf(),
            r is Ok <==> old(codegen).n_functions() + 1 <= u32::MAX,
            r is Ok ==> appended(
                *old(codegen),
                *final(codegen),
                list_advanced_map_functions_signatures(),
                list_advanced_map_functions_bindings(),
            ),
            r matches Err(e) ==> e == CompilerError::FunctionLimit,
    {
        let ghost start = *codegen;
        let ghost mut sigs = Seq::<Signature>::empty();
        let ghost mut binds = Seq::<(Seq<char>, int)>::empty();
        proof {
            lemma_appended_start(start);
        }
        // list.mapAdvanced(list_ptr, function_ptr) -> list
        // Apply a function to each element and return new list with results
        let ghost sig = defined(
            "list.mapAdvanced"@,
            seq![WasmType::I32, WasmType::I32],
            Some(WasmType::I32),
            seq![WasmType::I32, WasmType::I32, WasmType::I32, WasmType::I32, WasmType::I32, WasmType::I32],
            ListAdvancedManager::map_advanced_body(),
        );
        register_tracked(
            codegen,
            Ghost(start),
            Ghost(sigs),
            Ghost(binds),
            Ghost(sig),
            "list.mapAdvanced",
            &[WasmType::I32, WasmType::I32],
            Some(WasmType::I32),
            &[WasmType::I32, WasmType::I32, WasmType::I32, WasmType::I32, WasmType::I32, WasmType::I32],
            self.generate_map_advanced(),
        )?;
        proof {
            binds = binds.push(binding_for(sigs, sig));
            sigs = sigs.push(sig);
        }
        proof {
            assert(sigs =~= list_advanced_map_functions_signatures());
            assert(binds =~= list_advanced_map_functions_bindings());
            lemma_appended_fits(start, *codegen, sigs, binds);
        }
        Ok(())
    }

    fn register_filter_functions(&self, codegen: &mut CodeGenerator) -> (r: Result<(), CompilerError>)
        requires
            old(codegen).wf(),
        ensures
            final(codegen).wf(),
            r is Ok <==> old(codegen).n_functions() + 1 <= u32::MAX,
            r is Ok ==> appended(
                *old(codegen),
                *final(codegen),
                list_advanced_filter_functions_signatures(),
                list_advanced_filter_functions_bindings(),
            ),
            r matches Err(e) ==> e == CompilerError::FunctionLimit,
    {
        let ghost start = *codegen;
        let ghost mut sigs = Seq::<Signature>::empty();
        let ghost mut binds = Seq::<(Seq<char>, int)>::empty();
        proof {
            lemma_appended_start(start);
        }
        // list.filterAdvanced(list_ptr, predicate_function_ptr) -> list
        // Filter elements based on predicate function
        let ghost sig = defined(
            "list.filterAdvanced"@,
            seq![WasmType::I32, WasmType::I32],
            Some(WasmType::I32),
            seq![WasmType::I32, WasmType::I32, WasmType::I32, WasmType::I32, WasmType::I32, WasmType::I32],
            ListAdvancedManager::filter_advanced_body(),
        );
        register_tracked(
            codegen,
            Ghost(start),
            Ghost(sigs),
            Ghost(binds),
            Ghost(sig),
            "list.filterAdvanced",
            &[WasmType::I32, WasmType::I32],
            Some(WasmType::I32),
            &[WasmType::I32, WasmType::I32, WasmType::I32, WasmType::I32, WasmType::I32, WasmType::I32],
            self.generate_filter_advanced(),
        )?;
        proof {
            binds = binds.push(binding_for(sigs, sig));
            sigs = sigs.push(sig);
        }
        proof {
            assert(sigs =~= list_advanced_filter_functions_signatures());
            assert(binds =~= list_advanced_filter_functions_bindings());
            lemma_appended_fits(start, *codegen, sigs, binds);
        }
        Ok(())
    }

    fn register_reduce_functions(&self, codegen: &mut CodeGenerator) -> (r: Result<(), CompilerError>)
        requires
            old(codegen).wf(),
        ensures
            final(codegen).wf(),
            r is Ok <==> old(codegen).n_functions() + 1 <= u32::MAX,
            r is Ok ==> appended(
                *old(codegen),
                *final(codegen),
                list_advanced_reduce_functions_signatures(),
                list_advanced_reduce_functions_bindings(),
            ),
            r matches Err(e) ==> e == CompilerError::FunctionLimit,
    {
        let ghost start = *codegen;
        let ghost mut sigs = Seq::<Signature>::empty();
        let ghost mut binds = Seq::<(Seq<char>, int)>::empty();
        proof {
            lemma_appended_start(start);
        }
        // list.reduceAdvanced(list_ptr, accumulator_function_ptr, initial_value) -> value
        // Reduce list to single value using accumulator function
        let ghost sig = defined(
            "list.reduceAdvanced"@,
            seq![WasmType::I32, WasmType::I32, WasmType::I32],
            Some(WasmType::I32),
            seq![WasmType::I32, WasmType::I32, WasmType::I32, WasmType::I32, WasmType::I32],
            ListAdvancedManager::reduce_advanced_body(),
        );
        register_tracked(
            codegen,
            Ghost(start),
            Ghost(sigs),
            Ghost(binds),
            Ghost(sig),
            "list.reduceAdvanced",
            &[WasmType::I32, WasmType::I32, WasmType::I32],
            Some(WasmType::I32),
            &[WasmType::I32, WasmType::I32, WasmType::I32, WasmType::I32, WasmType::I32],
            self.generate_reduce_advanced(),
        )?;
        proof {
            binds = binds.push(binding_for(sigs, sig));
            sigs = sigs.push(sig);
        }
        proof {
            assert(sigs =~= list_advanced_reduce_functions_signatures());
            assert(binds =~= list_advanced_reduce_functions_bindings());
            lemma_appended_fits(start, *codegen, sigs, binds);
        }
        Ok(())
    }

    fn register_foreach_functions(&self, codegen: &mut CodeGenerator) -> (r: Result<(), CompilerError>)
        requires
            old(codegen).wf(),
        ensures
            final(codegen).wf(),
            r is Ok <==> old(codegen).n_functions() + 1 <= u32::MAX,
            r is Ok ==> appended(
                *old(codegen),
                *final(codegen),
                list_advanced_foreach_functions_signatures(),
                list_advanced_foreach_functions_bindings(),
            ),
            r matches Err(e) ==> e == CompilerError::FunctionLimit,
    {
        let ghost start = *codegen;
        let ghost mut sigs = Seq::<Signature>::empty();
        let ghost mut binds = Seq::<(Seq<char>, int)>::empty();
        proof {
            lemma_appended_start(start);
        }
        // list.forEachAdvanced(list_ptr, action_function_ptr) -> void
        // Execute action function for each element
        let ghost sig = defined(
            "list.forEachAdvanced"@,
            seq![WasmType::I32, WasmType::I32],
            None,
            seq![WasmType::I32, WasmType::I32, WasmType::I32],
            ListAdvancedManager::foreach_advanced_body(),
        );
        register_tracked(
            codegen,
            Ghost(start),
            Ghost(sigs),
            Ghost(binds),
            Ghost(sig),
            "list.forEachAdvanced",
            &[WasmType::I32, WasmType::I32],
            None,
            &[WasmType::I32, WasmType::I32, WasmType::I32],
            self.generate_foreach_advanced(),
        )?;
        proof {
            binds = binds.push(binding_for(sigs, sig));
            sigs = sigs.push(sig);
        }
        proof {
            assert(sigs =~= list_advanced_foreach_functions_signatures());
            assert(binds =~= list_advanced_foreach_functions_bindings());
            lemma_appended_fits(start, *codegen, sigs, binds);
        }
        Ok(())
    }

    fn register_access_functions(&self, codegen: &mut CodeGenerator) -> (r: Result<(), CompilerError>)
        requires
            old(codegen).wf(),
        ensures
            final(codegen).wf(),
            r is Ok <==> old(codegen).n_functions() + 2 <= u32::MAX,
            r is Ok ==> appended(
                *old(codegen),
                *final(codegen),
                list_advanced_access_functions_signatures(),
                list_advanced_access_functions_bindings(),
            ),
            r matches Err(e) ==> e == CompilerError::FunctionLimit,
    {
        let ghost start = *codegen;
        let ghost mut sigs = Seq::<Signature>::empty();
        let ghost mut binds = Seq::<(Seq<char>, int)>::empty();
        proof {
            lemma_appended_start(start);
        }
        // list.firstAdvanced(list_ptr) -> value
        // Get first element of list (or 0 if empty)
        let ghost sig = defined(
            "list.firstAdvanced"@,
            seq![WasmType::I32],
            Some(WasmType::I32),
            seq![WasmType::I32],
            ListAdvancedManager::first_advanced_body(),
        );
        register_tracked(
            codegen,
            Ghost(start),
            Ghost(sigs),
            Ghost(binds),
            Ghost(sig),
            "list.firstAdvanced",
            &[WasmType::I32],
            Some(WasmType::I32),
            &[WasmType::I32],
            self.generate_first_advanced(),
        )?;
        proof {
            binds = binds.push(binding_for(sigs, sig));
            sigs = sigs.push(sig);
        }
        // list.lastAdvanced(list_ptr) -> value
        // Get last element of list (or 0 if empty)
        let ghost sig = defined(
            "list.lastAdvanced"@,
            seq![WasmType::I32],
            Some(WasmType::I32),
            seq![WasmType::I32, WasmType::I32],
            ListAdvancedManager::last_advanced_body(),
        );
        register_tracked(
            codegen,
            Ghost(start),
            Ghost(sigs),
            Ghost(binds),
            Ghost(sig),
            "list.lastAdvanced",
            &[WasmType::I32],
            Some(WasmType::I32),
            &[WasmType::I32, WasmType::I32],
            self.generate_last_advanced(),
        )?;
        proof {
            binds = binds.push(binding_for(sigs, sig));
            sigs = sigs.push(sig);
        }
        proof {
            assert(sigs =~= list_advanced_access_functions_signatures());
            assert(binds =~= list_advanced_access_functions_bindings());
            lemma_appended_fits(start, *codegen, sigs, binds);
        }
        Ok(())
    }

    fn register_utility_functions(&self, codegen: &mut CodeGenerator) -> (r: Result<(), CompilerError>)
        requires
            old(codegen).wf(),
        ensures
            final(codegen).wf(),
            r is Ok <==> old(codegen).n_functions() + 2 <= u32::MAX,
            r is Ok ==> appended(
                *old(codegen),
                *final(codegen),
                list_advanced_utility_functions_signatures(),
                list_advanced_utility_functions_bindings(),
            ),
            r matches Err(e) ==> e == CompilerError::FunctionLimit,
    {
        let ghost start = *codegen;
        let ghost mut sigs = Seq::<Signature>::empty();
        let ghost mut binds = Seq::<(Seq<char>, int)>::empty();
        proof {
            lemma_appended_start(start);
        }
        // list.fillAdvanced(list_ptr, value, start_index, end_index) -> list
        // Fill list elements with value from start to end index
        let ghost sig = defined(
            "list.fillAdvanced"@,
            seq![WasmType::I32, WasmType::I32, WasmType::I32, WasmType::I32],
            Some(WasmType::I32),
            seq![WasmType::I32, WasmType::I32, WasmType::I32],
            ListAdvancedManager::fill_advanced_body(),
        );
        register_tracked(
            codegen,
            Ghost(start),
            Ghost(sigs),
            Ghost(binds),
            Ghost(sig),
            "list.fillAdvanced",
            &[WasmType::I32, WasmType::I32, WasmType::I32, WasmType::I32],
            Some(WasmType::I32),
            &[WasmType::I32, WasmType::I32, WasmType::I32],
            self.generate_fill_advanced(),
        )?;
        proof {
            binds = binds.push(binding_for(sigs, sig));
            sigs = sigs.push(sig);
        }
        // list.rangeAdvanced(start, end, step) -> list
        // Create list with integer range from start to end with step
        let ghost sig = defined(
            "list.rangeAdvanced"@,
            seq![WasmType::I32, WasmType::I32, WasmType::I32],
            Some(WasmType::I32),
            seq![WasmType::I32, WasmType::I32, WasmType::I32, WasmType::I32, WasmType::I32],
            ListAdvancedManager::range_advanced_body(),
        );
        register_tracked(
            codegen,
            Ghost(start),
            Ghost(sigs),
            Ghost(binds),
            Ghost(sig),
            "list.rangeAdvanced",
            &[WasmType::I32, WasmType::I32, WasmType::I32],
            Some(WasmType::I32),
            &[WasmType::I32, WasmType::I32, WasmType::I32, WasmType::I32, WasmType::I32],
            self.generate_range_advanced(),
        )?;
        proof {
            binds = binds.push(binding_for(sigs, sig));
            sigs = sigs.push(sig);
        }
        proof {
            assert(sigs =~= list_advanced_utility_functions_signatures());
            assert(binds =~= list_advanced_utility_functions_bindings());
            lemma_appended_fits(start, *codegen, sigs, binds);
        }
        Ok(())
    }

    /// The instructions `generate_map_advanced` returns.
    #[verifier::opaque]
    pub open spec fn map_advanced_body() -> Seq<Instruction> {
        seq![
            Instruction::LocalGet(0),
            Instruction::I32Load(MemArg { offset: 0, align: 2, memory_index: 0 }),
            Instruction::LocalSet(3),
            Instruction::I32Const(4),
            Instruction::I32Const(16),
            Instruction::LocalGet(3),
            Instruction::I32Const(4),
            Instruction::I32Mul,
            Instruction::I32Add,
            Instruction::Call(7),
            Instruction::LocalSet(2),
            Instruction::LocalGet(2),
            Instruction::LocalGet(3),
            Instruction::I32Store(MemArg { offset: 0, align: 2, memory_index: 0 }),
            Instruction::LocalGet(2),
            Instruction::LocalGet(3),
            Instruction::I32Store(MemArg { offset: 4, align: 2, memory_index: 0 }),
            Instruction::LocalGet(2),
            Instruction::I32Const(1),
            Instruction::I32Store(MemArg { offset: 8, align: 2, memory_index: 0 }),
            Instruction::I32Const(0),
            Instruction::LocalSet(4),
            Instruction::Loop(BlockType::Empty),
            Instruction::LocalGet(4),
            Instruction::LocalGet(3),
            Instruction::I32LtU,
            Instruction::If(BlockType::Empty),
            Instruction::LocalGet(0),
            Instruction::I32Const(16),
            Instruction::I32Add,
            Instruction::LocalGet(4),
            Instruction::I32Const(4),
            Instruction::I32Mul,
            Instruction::I32Add,
            Instruction::I32Load(MemArg { offset: 0, align: 2, memory_index: 0 }),
            Instruction::LocalSet(5),
            Instruction::LocalGet(5),
            Instruction::I32Const(1),
            Instruction::I32Add,
            Instruction::LocalSet(6),
            Instruction::LocalGet(2),
            Instruction::I32Const(16),
            Instruction::I32Add,
            Instruction::LocalGet(4),
            Instruction::I32Const(4),
            Instruction::I32Mul,
            Instruction::I32Add,
            Instruction::LocalGet(6),
            Instruction::I32Store(MemArg { offset: 0, align: 2, memory_index: 0 }),
            Instruction::LocalGet(4),
            Instruction::I32Const(1),
            Instruction::I32Add,
            Instruction::LocalSet(4),
            Instruction::Br(1),
            Instruction::End,
            Instruction::End,
            Instruction::LocalGet(2),
        ]
    }

    #[verifier::rlimit(40)]
    #[verifier::spinoff_prover]
    pub fn generate_map_advanced(&self) -> (r: Vec<Instruction>)
        ensures
            body_ok(r@, 8),
            r@ == Self::map_advanced_body(),
    {
        proof {
            reveal(ListAdvancedManager::map_advanced_body);
        }
        let mut b = Body::new(8);
        // Get list size
        b.i(Instruction::LocalGet(0)); // list_ptr
        b.i(Instruction::I32Load(MemArg { offset: 0, align: 2, memory_index: 0 }));
        b.i(Instruction::LocalSet(3)); // list_size
        // Create result list with same size
        // Allocate the result list with mem_alloc(type_id, size) (import index 7)
        b.i(Instruction::I32Const(4)); // list type
        b.i(Instruction::I32Const(16)); // list header size
        b.i(Instruction::LocalGet(3)); // list_size
        b.i(Instruction::I32Const(4)); // element size
        b.i(Instruction::I32Mul);
        b.i(Instruction::I32Add); // total size = 16 + (size * 4)
        b.i(Instruction::Call(7));
        b.i(Instruction::LocalSet(2)); // result_list
        // Initialize result list header
        b.i(Instruction::LocalGet(2)); // result_list
        b.i(Instruction::LocalGet(3)); // list_size
        b.i(Instruction::I32Store(MemArg { offset: 0, align: 2, memory_index: 0 })); // size
        b.i(Instruction::LocalGet(2)); // result_list
        b.i(Instruction::LocalGet(3)); // list_size (also capacity)
        b.i(Instruction::I32Store(MemArg { offset: 4, align: 2, memory_index: 0 })); // capacity
        b.i(Instruction::LocalGet(2)); // result_list
        b.i(Instruction::I32Const(1)); // type_id for integer
        b.i(Instruction::I32Store(MemArg { offset: 8, align: 2, memory_index: 0 })); // type_id
        // Initialize loop counter
        b.i(Instruction::I32Const(0));
        b.i(Instruction::LocalSet(4)); // i = 0
        // Loop through each element
        b.i(Instruction::Loop(BlockType::Empty));
        // Check loop condition: i < list_size
        b.i(Instruction::LocalGet(4)); // i
        b.i(Instruction::LocalGet(3)); // list_size
        b.i(Instruction::I32LtU);
        b.i(Instruction::If(BlockType::Empty));
        // Get element at index i
        b.i(Instruction::LocalGet(0)); // list_ptr
        b.i(Instruction::I32Const(16)); // offset to data
        b.i(Instruction::I32Add);
        b.i(Instruction::LocalGet(4)); // i
        b.i(Instruction::I32Const(4)); // element size
        b.i(Instruction::I32Mul);
        b.i(Instruction::I32Add); // element address
        b.i(Instruction::I32Load(MemArg { offset: 0, align: 2, memory_index: 0 }));
        b.i(Instruction::LocalSet(5)); // element
        // Apply mapping function (simplified - just return element + 1)
        // In full implementation, would use CallIndirect to call function_ptr
        b.i(Instruction::LocalGet(5)); // element
        b.i(Instruction::I32Const(1));
        b.i(Instruction::I32Add);
        b.i(Instruction::LocalSet(6)); // mapped_value
        // Store mapped value in result list at index i
        b.i(Instruction::LocalGet(2)); // result_list
        b.i(Instruction::I32Const(16)); // offset to data
        b.i(Instruction::I32Add);
        b.i(Instruction::LocalGet(4)); // i
        b.i(Instruction::I32Const(4)); // element size
        b.i(Instruction::I32Mul);
        b.i(Instruction::I32Add); // target address
        b.i(Instruction::LocalGet(6)); // mapped_value
        b.i(Instruction::I32Store(MemArg { offset: 0, align: 2, memory_index: 0 }));
        // Increment counter
        b.i(Instruction::LocalGet(4)); // i
        b.i(Instruction::I32Const(1));
        b.i(Instruction::I32Add);
        b.i(Instruction::LocalSet(4)); // i++
        // Continue loop
        b.i(Instruction::Br(1));
        b.i(Instruction::End);
        b.i(Instruction::End);
        // Return result list pointer
        b.i(Instruction::LocalGet(2)); // result_list
        b.finish()
    }

    /// The instructions `generate_filter_advanced` returns.
    #[verifier::opaque]
    pub open spec fn filter_advanced_body() -> Seq<Instruction> {
        seq![
            Instruction::LocalGet(0),
            Instruction::I32Load(MemArg { offset: 0, align: 2, memory_index: 0 }),
            Instruction::LocalSet(3),
            Instruction::I32Const(4),
            Instruction::I32Const(16),
            Instruction::LocalGet(3),
            Instruction::I32Const(4),
            Instruction::I32Mul,
            Instruction::I32Add,
            Instruction::Call(7),
            Instruction::LocalSet(2),
            Instruction::LocalGet(2),
            Instruction::I32Const(0),
            Instruction::I32Store(MemArg { offset: 0, align: 2, memory_index: 0 }),
            Instruction::LocalGet(2),
            Instruction::LocalGet(3),
            Instruction::I32Store(MemArg { offset: 4, align: 2, memory_index: 0 }),
            Instruction::LocalGet(2),
            Instruction::I32Const(1),
            Instruction::I32Store(MemArg { offset: 8, align: 2, memory_index: 0 }),
            Instruction::I32Const(0),
            Instruction::LocalSet(4),
            Instruction::I32Const(0),
            Instruction::LocalSet(7),
            Instruction::Loop(BlockType::Empty),
            Instruction::LocalGet(4),
            Instruction::LocalGet(3),
            Instruction::I32LtU,
            Instruction::If(BlockType::Empty),
            Instruction::LocalGet(0),
            Instruction::I32Const(16),
            Instruction::I32Add,
            Instruction::LocalGet(4),
            Instruction::I32Const(4),
            Instruction::I32Mul,
            Instruction::I32Add,
            Instruction::I32Load(MemArg { offset: 0, align: 2, memory_index: 0 }),
            Instruction::LocalSet(5),
            Instruction::LocalGet(5),
            Instruction::I32Const(2),
            Instruction::I32RemU,
            Instruction::I32Const(0),
            Instruction::I32Eq,
            Instruction::LocalSet(6),
            Instruction::LocalGet(6),
            Instruction::If(BlockType::Empty),
            Instruction::LocalGet(2),
            Instruction::I32Const(16),
            Instruction::I32Add,
            Instruction::LocalGet(7),
            Instruction::I32Const(4),
            Instruction::I32Mul,
            Instruction::I32Add,
            Instruction::LocalGet(5),
            Instruction::I32Store(MemArg { offset: 0, align: 2, memory_index: 0 }),
            Instruction::LocalGet(7),
            Instruction::I32Const(1),
            Instruction::I32Add,
            Instruction::LocalSet(7),
            Instruction::End,
            Instruction::LocalGet(4),
            Instruction::I32Const(1),
            Instruction::I32Add,
            Instruction::LocalSet(4),
            Instruction::Br(1),
            Instruction::End,
            Instruction::End,
            Instruction::LocalGet(2),
            Instruction::LocalGet(7),
            Instruction::I32Store(MemArg { offset: 0, align: 2, memory_index: 0 }),
            Instruction::LocalGet(2),
        ]
    }

    #[verifier::rlimit(40)]
    #[verifier::spinoff_prover]
    pub fn generate_filter_advanced(&self) -> (r: Vec<Instruction>)
        ensures
            body_ok(r@, 8),
            r@ == Self::filter_advanced_body(),
    {
        proof {
            reveal(ListAdvancedManager::filter_advanced_body);
        }
        let mut b = Body::new(8);
        // Get list size
        b.i(Instruction::LocalGet(0)); // list_ptr
        b.i(Instruction::I32Load(MemArg { offset: 0, align: 2, memory_index: 0 }));
        b.i(Instruction::LocalSet(3)); // list_size
        // Create result list (initially same size, will adjust)
        // Allocate the result list with room for every element, with
        // mem_alloc(type_id, size) (import index 7)
        b.i(Instruction::I32Const(4)); // list type
        b.i(Instruction::I32Const(16)); // list header size
        b.i(Instruction::LocalGet(3)); // list_size
        b.i(Instruction::I32Const(4)); // element size
        b.i(Instruction::I32Mul);
        b.i(Instruction::I32Add);
        b.i(Instruction::Call(7));
        b.i(Instruction::LocalSet(2)); // result_list
        // Initialize result list header
        b.i(Instruction::LocalGet(2)); // result_list
        b.i(Instruction::I32Const(0)); // initially 0 elements
        b.i(Instruction::I32Store(MemArg { offset: 0, align: 2, memory_index: 0 })); // size
        b.i(Instruction::LocalGet(2)); // result_list
        b.i(Instruction::LocalGet(3)); // original capacity
        b.i(Instruction::I32Store(MemArg { offset: 4, align: 2, memory_index: 0 })); // capacity
        b.i(Instruction::LocalGet(2)); // result_list
        b.i(Instruction::I32Const(1)); // type_id for integer
        b.i(Instruction::I32Store(MemArg { offset: 8, align: 2, memory_index: 0 })); // type_id
        // Initialize counters
        b.i(Instruction::I32Const(0));
        b.i(Instruction::LocalSet(4)); // i = 0
        b.i(Instruction::I32Const(0));
        b.i(Instruction::LocalSet(7)); // filtered_count = 0
        // Loop through each element
        b.i(Instruction::Loop(BlockType::Empty));
        // Check loop condition: i < list_size
        b.i(Instruction::LocalGet(4)); // i
        b.i(Instruction::LocalGet(3)); // list_size
        b.i(Instruction::I32LtU);
        b.i(Instruction::If(BlockType::Empty));
        // Get element at index i
        b.i(Instruction::LocalGet(0)); // list_ptr
        b.i(Instruction::I32Const(16)); // offset to data
        b.i(Instruction::I32Add);
        b.i(Instruction::LocalGet(4)); // i
        b.i(Instruction::I32Const(4)); // element size
        b.i(Instruction::I32Mul);
        b.i(Instruction::I32Add); // element address
        b.i(Instruction::I32Load(MemArg { offset: 0, align: 2, memory_index: 0 }));
        b.i(Instruction::LocalSet(5)); // element
        // Apply predicate function (simplified - filter even numbers)
        // In full implementation, would use CallIndirect to call predicate_ptr
        b.i(Instruction::LocalGet(5)); // element
        b.i(Instruction::I32Const(2));
        b.i(Instruction::I32RemU); // element % 2
        b.i(Instruction::I32Const(0));
        b.i(Instruction::I32Eq); // element % 2 == 0 (even)
        b.i(Instruction::LocalSet(6)); // predicate_result
        // If predicate is true, add element to result
        b.i(Instruction::LocalGet(6)); // predicate_result
        b.i(Instruction::If(BlockType::Empty));
        // Store element in result list at filtered_count index
        b.i(Instruction::LocalGet(2)); // result_list
        b.i(Instruction::I32Const(16)); // offset to data
        b.i(Instruction::I32Add);
        b.i(Instruction::LocalGet(7)); // filtered_count
        b.i(Instruction::I32Const(4)); // element size
        b.i(Instruction::I32Mul);
        b.i(Instruction::I32Add); // target address
        b.i(Instruction::LocalGet(5)); // element
        b.i(Instruction::I32Store(MemArg { offset: 0, align: 2, memory_index: 0 }));
        // Increment filtered count
        b.i(Instruction::LocalGet(7)); // filtered_count
        b.i(Instruction::I32Const(1));
        b.i(Instruction::I32Add);
        b.i(Instruction::LocalSet(7)); // filtered_count++
        b.i(Instruction::End);
        // Increment loop counter
        b.i(Instruction::LocalGet(4)); // i
        b.i(Instruction::I32Const(1));
        b.i(Instruction::I32Add);
        b.i(Instruction::LocalSet(4)); // i++
        // Continue loop
        b.i(Instruction::Br(1));
        b.i(Instruction::End);
        b.i(Instruction::End);
        // Update result list size with filtered count
        b.i(Instruction::LocalGet(2)); // result_list
        b.i(Instruction::LocalGet(7)); // filtered_count
        b.i(Instruction::I32Store(MemArg { offset: 0, align: 2, memory_index: 0 })); // size
        // Return result list pointer
        b.i(Instruction::LocalGet(2)); // result_list
        b.finish()
    }

    /// The instructions `generate_reduce_advanced` returns.
    #[verifier::opaque]
    pub open spec fn reduce_advanced_body() -> Seq<Instruction> {
        seq![
            Instruction::LocalGet(0),
            Instruction::I32Load(MemArg { offset: 0, align: 2, memory_index: 0 }),
            Instruction::LocalSet(4),
            Instruction::LocalGet(2),
            Instruction::LocalSet(3),
            Instruction::I32Const(0),
            Instruction::LocalSet(5),
            Instruction::Loop(BlockType::Empty),
            Instruction::LocalGet(5),
            Instruction::LocalGet(4),
            Instruction::I32LtU,
            Instruction::If(BlockType::Empty),
            Instruction::LocalGet(0),
            Instruction::I32Const(16),
            Instruction::I32Add,
            Instruction::LocalGet(5),
            Instruction::I32Const(4),
            Instruction::I32Mul,
            Instruction::I32Add,
            Instruction::I32Load(MemArg { offset: 0, align: 2, memory_index: 0 }),
            Instruction::LocalSet(6),
            Instruction::LocalGet(3),
            Instruction::LocalGet(6),
            Instruction::I32Add,
            Instruction::LocalSet(7),
            Instruction::LocalGet(7),
            Instruction::LocalSet(3),
            Instruction::LocalGet(5),
            Instruction::I32Const(1),
            Instruction::I32Add,
            Instruction::LocalSet(5),
            Instruction::Br(1),
            Instruction::End,
            Instruction::End,
            Instruction::LocalGet(3),
        ]
    }

    pub fn generate_reduce_advanced(&self) -> (r: Vec<Instruction>)
        ensures
            body_ok(r@, 8),
            r@ == Self::reduce_advanced_body(),
    {
        proof {
            reveal(ListAdvancedManager::reduce_advanced_body);
        }
        let mut b = Body::new(8);
        // Get list size
        b.i(Instruction::LocalGet(0)); // list_ptr
        b.i(Instruction::I32Load(MemArg { offset: 0, align: 2, memory_index: 0 }));
        b.i(Instruction::LocalSet(4)); // list_size
        // Initialize accumulator with initial value
        b.i(Instruction::LocalGet(2)); // initial_value
        b.i(Instruction::LocalSet(3)); // accumulator
        // Initialize loop counter
        b.i(Instruction::I32Const(0));
        b.i(Instruction::LocalSet(5)); // i = 0
        // Loop through each element
        b.i(Instruction::Loop(BlockType::Empty));
        // Check loop condition: i < list_size
        b.i(Instruction::LocalGet(5)); // i
        b.i(Instruction::LocalGet(4)); // list_size
        b.i(Instruction::I32LtU);
        b.i(Instruction::If(BlockType::Empty));
        // Get element at index i
        b.i(Instruction::LocalGet(0)); // list_ptr
        b.i(Instruction::I32Const(16)); // offset to data
        b.i(Instruction::I32Add);
        b.i(Instruction::LocalGet(5)); // i
        b.i(Instruction::I32Const(4)); // element size
        b.i(Instruction::I32Mul);
        b.i(Instruction::I32Add); // element address
        b.i(Instruction::I32Load(MemArg { offset: 0, align: 2, memory_index: 0 }));
        b.i(Instruction::LocalSet(6)); // element
        // Apply accumulator function (simplified - sum elements)
        // In full implementation, would use CallIndirect to call accumulator_ptr
        b.i(Instruction::LocalGet(3)); // accumulator
        b.i(Instruction::LocalGet(6)); // element
        b.i(Instruction::I32Add);
        b.i(Instruction::LocalSet(7)); // new_accumulator
        // Update accumulator
        b.i(Instruction::LocalGet(7)); // new_accumulator
        b.i(Instruction::LocalSet(3)); // accumulator = new_accumulator
        // Increment counter
        b.i(Instruction::LocalGet(5)); // i
        b.i(Instruction::I32Const(1));
        b.i(Instruction::I32Add);
        b.i(Instruction::LocalSet(5)); // i++
        // Continue loop
        b.i(Instruction::Br(1));
        b.i(Instruction::End);
        b.i(Instruction::End);
        // Return final accumulator value
        b.i(Instruction::LocalGet(3)); // accumulator
        b.finish()
    }

    /// The instructions `generate_foreach_advanced` returns.
    #[verifier::opaque]
    pub open spec fn foreach_advanced_body() -> Seq<Instruction> {
        seq![
            Instruction::LocalGet(0),
            Instruction::I32Load(MemArg { offset: 0, align: 2, memory_index: 0 }),
            Instruction::LocalSet(2),
            Instruction::I32Const(0),
            Instruction::LocalSet(3),
            Instruction::Loop(BlockType::Empty),
            Instruction::LocalGet(3),
            Instruction::LocalGet(2),
            Instruction::I32LtU,
            Instruction::If(BlockType::Empty),
            Instruction::LocalGet(0),
            Instruction::I32Const(16),
            Instruction::I32Add,
            Instruction::LocalGet(3),
            Instruction::I32Const(4),
            Instruction::I32Mul,
            Instruction::I32Add,
            Instruction::I32Load(MemArg { offset: 0, align: 2, memory_index: 0 }),
            Instruction::LocalSet(4),
            Instruction::LocalGet(4),
            Instruction::Drop,
            Instruction::LocalGet(3),
            Instruction::I32Const(1),
            Instruction::I32Add,
            Instruction::LocalSet(3),
            Instruction::Br(1),
            Instruction::End,
            Instruction::End,
        ]
    }

    pub fn generate_foreach_advanced(&self) -> (r: Vec<Instruction>)
        ensures
            body_ok(r@, 5),
            r@ == Self::foreach_advanced_body(),
    {
        proof {
            reveal(ListAdvancedManager::foreach_advanced_body);
        }
        let mut b = Body::new(5);
        // Get list size
        b.i(Instruction::LocalGet(0)); // list_ptr
        b.i(Instruction::I32Load(MemArg { offset: 0, align: 2, memory_index: 0 }));
        b.i(Instruction::LocalSet(2)); // list_size
        // Initialize loop counter
        b.i(Instruction::I32Const(0));
        b.i(Instruction::LocalSet(3)); // i = 0
        // Loop through each element
        b.i(Instruction::Loop(BlockType::Empty));
        // Check loop condition: i < list_size
        b.i(Instruction::LocalGet(3)); // i
        b.i(Instruction::LocalGet(2)); // list_size
        b.i(Instruction::I32LtU);
        b.i(Instruction::If(BlockType::Empty));
        // Get element at index i
        b.i(Instruction::LocalGet(0)); // list_ptr
        b.i(Instruction::I32Const(16)); // offset to data
        b.i(Instruction::I32Add);
        b.i(Instruction::LocalGet(3)); // i
        b.i(Instruction::I32Const(4)); // element size
        b.i(Instruction::I32Mul);
        b.i(Instruction::I32Add); // element address
        b.i(Instruction::I32Load(MemArg { offset: 0, align: 2, memory_index: 0 }));
        b.i(Instruction::LocalSet(4)); // element
        // Execute action function on element (simplified - no operation)
        // In full implementation, would use CallIndirect to call action_ptr
        // For now, just consume the element value
        b.i(Instruction::LocalGet(4)); // element
        b.i(Instruction::Drop); // consume element (action performed)
        // Increment counter
        b.i(Instruction::LocalGet(3)); // i
        b.i(Instruction::I32Const(1));
        b.i(Instruction::I32Add);
        b.i(Instruction::LocalSet(3)); // i++
        // Continue loop
        b.i(Instruction::Br(1));
        b.i(Instruction::End);
        b.i(Instruction::End);
        b.finish()
    }

    /// The instructions `generate_first_advanced` returns.
    #[verifier::opaque]
    pub open spec fn first_advanced_body() -> Seq<Instruction> {
        seq![
            Instruction::LocalGet(0),
            Instruction::I32Load(MemArg { offset: 0, align: 2, memory_index: 0 }),
            Instruction::LocalSet(1),
            Instruction::LocalGet(1),
            Instruction::I32Const(0),
            Instruction::I32Eq,
            Instruction::If(BlockType::Result(ValType::I32)),
            Instruction::I32Const(0),
            Instruction::Else,
            Instruction::LocalGet(0),
            Instruction::I32Const(16),
            Instruction::I32Add,
            Instruction::I32Load(MemArg { offset: 0, align: 2, memory_index: 0 }),
            Instruction::End,
        ]
    }

    pub fn generate_first_advanced(&self) -> (r: Vec<Instruction>)
        ensures
            body_ok(r@, 2),
            r@ == Self::first_advanced_body(),
    {
        proof {
            reveal(ListAdvancedManager::first_advanced_body);
        }
        let mut b = Body::new(2);
        // Get list size
        b.i(Instruction::LocalGet(0)); // list_ptr
        b.i(Instruction::I32Load(MemArg { offset: 0, align: 2, memory_index: 0 }));
        b.i(Instruction::LocalSet(1)); // list_size
        // Check if list is empty
        b.i(Instruction::LocalGet(1)); // list_size
        b.i(Instruction::I32Const(0));
        b.i(Instruction::I32Eq);
        b.i(Instruction::If(BlockType::Result(ValType::I32)));
        // List is empty, return 0
        b.i(Instruction::I32Const(0));
        b.i(Instruction::Else);
        // List has elements, get first element
        b.i(Instruction::LocalGet(0)); // list_ptr
        b.i(Instruction::I32Const(16)); // offset to data
        b.i(Instruction::I32Add); // first element address
        b.i(Instruction::I32Load(MemArg { offset: 0, align: 2, memory_index: 0 })); // load first element
        b.i(Instruction::End);
        b.finish()
    }

    /// The instructions `generate_last_advanced` returns.
    #[verifier::opaque]
    pub open spec fn last_advanced_body() -> Seq<Instruction> {
        seq![
            Instruction::LocalGet(0),
            Instruction::I32Load(MemArg { offset: 0, align: 2, memory_index: 0 }),
            Instruction::LocalSet(1),
            Instruction::LocalGet(1),
            Instruction::I32Const(0),
            Instruction::I32Eq,
            Instruction::If(BlockType::Result(ValType::I32)),
            Instruction::I32Const(0),
            Instruction::Else,
            Instruction::LocalGet(1),
            Instruction::I32Const(1),
            Instruction::I32Sub,
            Instruction::LocalSet(2),
            Instruction::LocalGet(0),
            Instruction::I32Const(16),
            Instruction::I32Add,
            Instruction::LocalGet(2),
            Instruction::I32Const(4),
            Instruction::I32Mul,
            Instruction::I32Add,
            Instruction::I32Load(MemArg { offset: 0, align: 2, memory_index: 0 }),
            Instruction::End,
        ]
    }

    pub fn generate_last_advanced(&self) -> (r: Vec<Instruction>)
        ensures
            body_ok(r@, 3),
            r@ == Self::last_advanced_body(),
    {
        proof {
            reveal(ListAdvancedManager::last_advanced_body);
        }
        let mut b = Body::new(3);
        // Get list size
        b.i(Instruction::LocalGet(0)); // list_ptr
        b.i(Instruction::I32Load(MemArg { offset: 0, align: 2, memory_index: 0 }));
        b.i(Instruction::LocalSet(1)); // list_size
        // Check if list is empty
        b.i(Instruction::LocalGet(1)); // list_size
        b.i(Instruction::I32Const(0));
        b.i(Instruction::I32Eq);
        b.i(Instruction::If(BlockType::Result(ValType::I32)));
        // List is empty, return 0
        b.i(Instruction::I32Const(0));
        b.i(Instruction::Else);
        // List has elements, calculate last index
        b.i(Instruction::LocalGet(1)); // list_size
        b.i(Instruction::I32Const(1));
        b.i(Instruction::I32Sub);
        b.i(Instruction::LocalSet(2)); // last_index = size - 1
        // Get last element
        b.i(Instruction::LocalGet(0)); // list_ptr
        b.i(Instruction::I32Const(16)); // offset to data
        b.i(Instruction::I32Add);
        b.i(Instruction::LocalGet(2)); // last_index
        b.i(Instruction::I32Const(4)); // element size
        b.i(Instruction::I32Mul);
        b.i(Instruction::I32Add); // last element address
        b.i(Instruction::I32Load(MemArg { offset: 0, align: 2, memory_index: 0 })); // load last element
        b.i(Instruction::End);
        b.finish()
    }

    /// The instructions `generate_fill_advanced` returns.
    #[verifier::opaque]
    pub open spec fn fill_advanced_body() -> Seq<Instruction> {
        seq![
            Instruction::LocalGet(0),
            Instruction::I32Load(MemArg { offset: 0, align: 2, memory_index: 0 }),
            Instruction::LocalSet(4),
            Instruction::LocalGet(2),
            Instruction::LocalSet(5),
            Instruction::Block(BlockType::Empty),
            Instruction::Loop(BlockType::Empty),
            Instruction::LocalGet(5),
            Instruction::LocalGet(3),
            Instruction::I32LtU,
            Instruction::LocalGet(5),
            Instruction::LocalGet(4),
            Instruction::I32LtU,
            Instruction::I32And,
            Instruction::I32Eqz,
            Instruction::BrIf(1),
            Instruction::LocalGet(0),
            Instruction::I32Const(16),
            Instruction::I32Add,
            Instruction::LocalGet(5),
            Instruction::I32Const(4),
            Instruction::I32Mul,
            Instruction::I32Add,
            Instruction::LocalSet(6),
            Instruction::LocalGet(6),
            Instruction::LocalGet(1),
            Instruction::I32Store(MemArg { offset: 0, align: 2, memory_index: 0 }),
            Instruction::LocalGet(5),
            Instruction::I32Const(1),
            Instruction::I32Add,
            Instruction::LocalSet(5),
            Instruction::Br(0),
            Instruction::End,
            Instruction::End,
            Instruction::LocalGet(0),
        ]
    }

    pub fn generate_fill_advanced(&self) -> (r: Vec<Instruction>)
        ensures
            body_ok(r@, 7),
            r@ == Self::fill_advanced_body(),
    {
        proof {
            reveal(ListAdvancedManager::fill_advanced_body);
        }
        let mut b = Body::new(7);
        // Parameters: list_ptr (0), value (1), start_index (2), end_index (3)
        // Locals: list_size (4), i (5), element_ptr (6)
        // Sets the elements from start_index up to end_index (clamped to the list) to value
        b.i(Instruction::LocalGet(0));
        b.i(Instruction::I32Load(MemArg { offset: 0, align: 2, memory_index: 0 }));
        b.i(Instruction::LocalSet(4));
        b.i(Instruction::LocalGet(2));
        b.i(Instruction::LocalSet(5));
        b.i(Instruction::Block(BlockType::Empty));
        b.i(Instruction::Loop(BlockType::Empty));
        // stop unless i < end_index and i < list_size
        b.i(Instruction::LocalGet(5));
        b.i(Instruction::LocalGet(3));
        b.i(Instruction::I32LtU);
        b.i(Instruction::LocalGet(5));
        b.i(Instruction::LocalGet(4));
        b.i(Instruction::I32LtU);
        b.i(Instruction::I32And);
        b.i(Instruction::I32Eqz);
        b.i(Instruction::BrIf(1));
        b.i(Instruction::LocalGet(0));
        b.i(Instruction::I32Const(16));
        b.i(Instruction::I32Add);
        b.i(Instruction::LocalGet(5));
        b.i(Instruction::I32Const(4));
        b.i(Instruction::I32Mul);
        b.i(Instruction::I32Add);
        b.i(Instruction::LocalSet(6));
        b.i(Instruction::LocalGet(6));
        b.i(Instruction::LocalGet(1));
        b.i(Instruction::I32Store(MemArg { offset: 0, align: 2, memory_index: 0 }));
        b.i(Instruction::LocalGet(5));
        b.i(Instruction::I32Const(1));
        b.i(Instruction::I32Add);
        b.i(Instruction::LocalSet(5));
        b.i(Instruction::Br(0));
        b.i(Instruction::End);
        b.i(Instruction::End);
        b.i(Instruction::LocalGet(0));
        b.finish()
    }

    /// The instructions `generate_range_advanced` returns.
    #[verifier::opaque]
    pub open spec fn range_advanced_body() -> Seq<Instruction> {
        seq![
            Instruction::I32Const(0),
            Instruction::LocalSet(3),
            Instruction::LocalGet(1),
            Instruction::LocalGet(0),
            Instruction::I32GtS,
            Instruction::LocalGet(2),
            Instruction::I32Const(0),
            Instruction::I32GtS,
            Instruction::I32And,
            Instruction::If(BlockType::Empty),
            Instruction::LocalGet(1),
            Instruction::LocalGet(0),
            Instruction::I32Sub,
            Instruction::LocalGet(2),
            Instruction::I32Add,
            Instruction::I32Const(1),
            Instruction::I32Sub,
            Instruction::LocalGet(2),
            Instruction::I32DivU,
            Instruction::LocalSet(3),
            Instruction::End,
            Instruction::I32Const(4),
            Instruction::I32Const(16),
            Instruction::LocalGet(3),
            Instruction::I32Const(4),
            Instruction::I32Mul,
            Instruction::I32Add,
            Instruction::Call(7),
            Instruction::LocalSet(4),
            Instruction::LocalGet(4),
            Instruction::LocalGet(3),
            Instruction::I32Store(MemArg { offset: 0, align: 2, memory_index: 0 }),
            Instruction::LocalGet(4),
            Instruction::LocalGet(3),
            Instruction::I32Store(MemArg { offset: 4, align: 2, memory_index: 0 }),
            Instruction::LocalGet(4),
            Instruction::I32Const(1),
            Instruction::I32Store(MemArg { offset: 8, align: 2, memory_index: 0 }),
            Instruction::LocalGet(4),
            Instruction::I32Const(0),
            Instruction::I32Store(MemArg { offset: 12, align: 2, memory_index: 0 }),
            Instruction::I32Const(0),
            Instruction::LocalSet(5),
            Instruction::LocalGet(0),
            Instruction::LocalSet(6),
            Instruction::Block(BlockType::Empty),
            Instruction::Loop(BlockType::Empty),
            Instruction::LocalGet(5),
            Instruction::LocalGet(3),
            Instruction::I32GeU,
            Instruction::BrIf(1),
            Instruction::LocalGet(4),
            Instruction::I32Const(16),
            Instruction::I32Add,
            Instruction::LocalGet(5),
            Instruction::I32Const(4),
            Instruction::I32Mul,
            Instruction::I32Add,
            Instruction::LocalSet(7),
            Instruction::LocalGet(7),
            Instruction::LocalGet(6),
            Instruction::I32Store(MemArg { offset: 0, align: 2, memory_index: 0 }),
            Instruction::LocalGet(6),
            Instruction::LocalGet(2),
            Instruction::I32Add,
            Instruction::LocalSet(6),
            Instruction::LocalGet(5),
            Instruction::I32Const(1),
            Instruction::I32Add,
            Instruction::LocalSet(5),
            Instruction::Br(0),
            Instruction::End,
            Instruction::End,
            Instruction::LocalGet(4),
        ]
    }

    #[verifier::rlimit(40)]
    #[verifier::spinoff_prover]
    pub fn generate_range_advanced(&self) -> (r: Vec<Instruction>)
        ensures
            body_ok(r@, 8),
            r@ == Self::range_advanced_body(),
    {
        proof {
            reveal(ListAdvancedManager::range_advanced_body);
        }
        let mut b = Body::new(8);
        // Parameters: start (0), end (1), step (2)
        // Locals: list_size (3), list_ptr (4), i (5), current_value (6), element_ptr (7)
        // Returns: a new list start, start + step, ... below end (empty unless
        // start < end and step > 0)
        b.i(Instruction::I32Const(0));
        b.i(Instruction::LocalSet(3));
        b.i(Instruction::LocalGet(1));
        b.i(Instruction::LocalGet(0));
        b.i(Instruction::I32GtS);
        b.i(Instruction::LocalGet(2));
        b.i(Instruction::I32Const(0));
        b.i(Instruction::I32GtS);
        b.i(Instruction::I32And);
        b.i(Instruction::If(BlockType::Empty));
        // list_size = ((end - start) + step - 1) / step
        b.i(Instruction::LocalGet(1));
        b.i(Instruction::LocalGet(0));
        b.i(Instruction::I32Sub);
        b.i(Instruction::LocalGet(2));
        b.i(Instruction::I32Add);
        b.i(Instruction::I32Const(1));
        b.i(Instruction::I32Sub);
        b.i(Instruction::LocalGet(2));
        b.i(Instruction::I32DivU);
        b.i(Instruction::LocalSet(3));
        b.i(Instruction::End);
        // Allocate the list with mem_alloc(type_id, size) (import index 7)
        b.i(Instruction::I32Const(4));
        b.i(Instruction::I32Const(16));
        b.i(Instruction::LocalGet(3));
        b.i(Instruction::I32Const(4));
        b.i(Instruction::I32Mul);
        b.i(Instruction::I32Add);
        b.i(Instruction::Call(7));
        b.i(Instruction::LocalSet(4));
        // header: size, capacity, element type (integer), no behaviour flags
        b.i(Instruction::LocalGet(4));
        b.i(Instruction::LocalGet(3));
        b.i(Instruction::I32Store(MemArg { offset: 0, align: 2, memory_index: 0 }));
        b.i(Instruction::LocalGet(4));
        b.i(Instruction::LocalGet(3));
        b.i(Instruction::I32Store(MemArg { offset: 4, align: 2, memory_index: 0 }));
        b.i(Instruction::LocalGet(4));
        b.i(Instruction::I32Const(1));
        b.i(Instruction::I32Store(MemArg { offset: 8, align: 2, memory_index: 0 }));
        b.i(Instruction::LocalGet(4));
        b.i(Instruction::I32Const(0));
        b.i(Instruction::I32Store(MemArg { offset: 12, align: 2, memory_index: 0 }));
        b.i(Instruction::I32Const(0));
        b.i(Instruction::LocalSet(5));
        b.i(Instruction::LocalGet(0));
        b.i(Instruction::LocalSet(6));
        b.i(Instruction::Block(BlockType::Empty));
        b.i(Instruction::Loop(BlockType::Empty));
        b.i(Instruction::LocalGet(5));
        b.i(Instruction::LocalGet(3));
        b.i(Instruction::I32GeU);
        b.i(Instruction::BrIf(1));
        b.i(Instruction::LocalGet(4));
        b.i(Instruction::I32Const(16));
        b.i(Instruction::I32Add);
        b.i(Instruction::LocalGet(5));
        b.i(Instruction::I32Const(4));
        b.i(Instruction::I32Mul);
        b.i(Instruction::I32Add);
        b.i(Instruction::LocalSet(7));
        b.i(Instruction::LocalGet(7));
        b.i(Instruction::LocalGet(6));
        b.i(Instruction::I32Store(MemArg { offset: 0, align: 2, memory_index: 0 }));
        b.i(Instruction::LocalGet(6));
        b.i(Instruction::LocalGet(2));
        b.i(Instruction::I32Add);
        b.i(Instruction::LocalSet(6));
        b.i(Instruction::LocalGet(5));
        b.i(Instruction::I32Const(1));
        b.i(Instruction::I32Add);
        b.i(Instruction::LocalSet(5));
        b.i(Instruction::Br(0));
        b.i(Instruction::End);
        b.i(Instruction::End);
        b.i(Instruction::LocalGet(4));
        b.finish()
    }

}

} // verus!
