//! Matrix literals: creation of integer, number, boolean and string
//! matrices from nested arrays, element/row/column access, properties,
//! validation, conversion to text and comparison, registered as
//! WebAssembly functions.

use vstd::prelude::*;
use crate::body::Body;
use crate::codegen::{
    CodeGenerator, Signature, appended, defined, registered_one, lemma_appended_start,
    lemma_appended_fits, lemma_appended_register, register_stdlib_function_with_locals,
    binding_for,
};
use crate::error::CompilerError;
use crate::memory::MemoryManager;
use crate::wasm::{Instruction, MemArg, BlockType, ValType, WasmType, body_ok};

verus! {

/// The signature `register_create_integer_matrix` registers.
pub open spec fn create_integer_matrix_signature() -> Signature {
    defined(
        "matrix.createInteger"@,
        seq![WasmType::I32, WasmType::I32, WasmType::I32],
        Some(WasmType::I32),
        seq![WasmType::I32, WasmType::I32, WasmType::I32, WasmType::I32],
        MatrixLiteralsManager::create_integer_matrix_body(),
    )
}

/// The signature `register_create_number_matrix` registers.
pub open spec fn create_number_matrix_signature() -> Signature {
    defined(
        "matrix.createNumber"@,
        seq![WasmType::I32, WasmType::I32, WasmType::I32],
        Some(WasmType::I32),
        seq![WasmType::I32, WasmType::I32, WasmType::I32, WasmType::I32],
        MatrixLiteralsManager::create_number_matrix_body(),
    )
}

/// The signature `register_create_boolean_matrix` registers.
pub open spec fn create_boolean_matrix_signature() -> Signature {
    defined(
        "matrix.createBoolean"@,
        seq![WasmType::I32, WasmType::I32, WasmType::I32],
        Some(WasmType::I32),
        seq![WasmType::I32, WasmType::I32, WasmType::I32, WasmType::I32],
        MatrixLiteralsManager::create_boolean_matrix_body(),
    )
}

/// The signature `register_create_string_matrix` registers.
pub open spec fn create_string_matrix_signature() -> Signature {
    defined(
        "matrix.createString"@,
        seq![WasmType::I32, WasmType::I32, WasmType::I32],
        Some(WasmType::I32),
        seq![WasmType::I32, WasmType::I32, WasmType::I32, WasmType::I32],
        MatrixLiteralsManager::create_string_matrix_body(),
    )
}

/// The signature `register_get_matrix_element` registers.
pub open spec fn get_matrix_element_signature() -> Signature {
    defined(
        "matrix.getElement"@,
        seq![WasmType::I32, WasmType::I32, WasmType::I32],
        Some(WasmType::I32),
        seq![WasmType::I32, WasmType::I32, WasmType::I32, WasmType::I32],
        MatrixLiteralsManager::get_matrix_element_body(),
    )
}

/// The signature `register_set_matrix_element` registers.
pub open spec fn set_matrix_element_signature() -> Signature {
    defined(
        "matrix.setElement"@,
        seq![WasmType::I32, WasmType::I32, WasmType::I32, WasmType::I32],
        None,
        seq![WasmType::I32, WasmType::I32, WasmType::I32, WasmType::I32],
        MatrixLiteralsManager::set_matrix_element_body(),
    )
}

/// The signature `register_get_matrix_row` registers.
pub open spec fn get_matrix_row_signature() -> Signature {
    defined(
        "matrix.getRow"@,
        seq![WasmType::I32, WasmType::I32],
        Some(WasmType::I32),
        seq![WasmType::I32, WasmType::I32, WasmType::I32, WasmType::I32, WasmType::I32],
        MatrixLiteralsManager::get_matrix_row_body(),
    )
}

/// The signature `register_get_matrix_column` registers.
pub open spec fn get_matrix_column_signature() -> Signature {
    defined(
        "matrix.getColumn"@,
        seq![WasmType::I32, WasmType::I32],
        Some(WasmType::I32),
        seq![WasmType::I32, WasmType::I32, WasmType::I32, WasmType::I32, WasmType::I32, WasmType::I32],
        MatrixLiteralsManager::get_matrix_column_body(),
    )
}

/// The signature `register_get_matrix_rows` registers.
pub open spec fn get_matrix_rows_signature() -> Signature {
    defined(
        "matrix.getRows"@,
        seq![WasmType::I32],
        Some(WasmType::I32),
        seq![],
        MatrixLiteralsManager::matrix_getRows_instructions_body(),
    )
}

/// The signature `register_get_matrix_columns` registers.
pub open spec fn get_matrix_columns_signature() -> Signature {
    defined(
        "matrix.getColumns"@,
        seq![WasmType::I32],
        Some(WasmType::I32),
        seq![],
        MatrixLiteralsManager::matrix_getColumns_instructions_body(),
    )
}

/// The signature `register_get_matrix_size` registers.
pub open spec fn get_matrix_size_signature() -> Signature {
    defined(
        "matrix.getSize"@,
        seq![WasmType::I32],
        Some(WasmType::I32),
        seq![WasmType::I32, WasmType::I32],
        MatrixLiteralsManager::matrix_getSize_instructions_body(),
    )
}

/// The signature `register_is_matrix_square` registers.
pub open spec fn is_matrix_square_signature() -> Signature {
    defined(
        "matrix.isSquare"@,
        seq![WasmType::I32],
        Some(WasmType::I32),
        seq![WasmType::I32, WasmType::I32],
        MatrixLiteralsManager::matrix_isSquare_instructions_body(),
    )
}

/// The signature `register_validate_matrix_dimensions` registers.
pub open spec fn validate_matrix_dimensions_signature() -> Signature {
    defined(
        "matrix.validateDimensions"@,
        seq![WasmType::I32, WasmType::I32, WasmType::I32],
        Some(WasmType::I32),
        seq![WasmType::I32, WasmType::I32],
        MatrixLiteralsManager::matrix_validateDimensions_instructions_body(),
    )
}

/// The signature `register_matrix_to_string` registers.
pub open spec fn matrix_to_string_signature() -> Signature {
    defined(
        "matrix.toString"@,
        seq![WasmType::I32],
        Some(WasmType::I32),
        seq![WasmType::I32, WasmType::I32, WasmType::I32, WasmType::I32],
        MatrixLiteralsManager::matrix_toString_instructions_body(),
    )
}

/// The signature `register_matrix_equals` registers.
pub open spec fn matrix_equals_signature() -> Signature {
    defined(
        "matrix.equals"@,
        seq![WasmType::I32, WasmType::I32],
        Some(WasmType::I32),
        seq![WasmType::I32, WasmType::I32, WasmType::I32, WasmType::I32, WasmType::I32, WasmType::I32],
        MatrixLiteralsManager::matrix_equals_instructions_body(),
    )
}

/// The functions `register_functions` registers, in order.
pub open spec fn matrix_literals_signatures() -> Seq<Signature> {
    seq![
        create_integer_matrix_signature(),
        create_number_matrix_signature(),
        create_boolean_matrix_signature(),
        create_string_matrix_signature(),
        get_matrix_element_signature(),
        set_matrix_element_signature(),
        get_matrix_row_signature(),
        get_matrix_column_signature(),
        get_matrix_rows_signature(),
        get_matrix_columns_signature(),
        get_matrix_size_signature(),
        is_matrix_square_signature(),
        validate_matrix_dimensions_signature(),
        matrix_to_string_signature(),
        matrix_equals_signature(),
    ]
}

/// The names `register_functions` binds, with indices counted from its first
/// registered function.
pub open spec fn matrix_literals_bindings() -> Seq<(Seq<char>, int)> {
    seq![
        ("matrix.createInteger"@, 0),
        ("matrix.createNumber"@, 1),
        ("matrix.createBoolean"@, 2),
        ("matrix.createString"@, 3),
        ("matrix.getElement"@, 4),
        ("matrix.setElement"@, 5),
        ("matrix.getRow"@, 6),
        ("matrix.getColumn"@, 7),
        ("matrix.getRows"@, 8),
        ("matrix.getColumns"@, 9),
        ("matrix.getSize"@, 10),
        ("matrix.isSquare"@, 11),
        ("matrix.validateDimensions"@, 12),
        ("matrix.toString"@, 13),
        ("matrix.equals"@, 14),
    ]
}

/// Matrix Literals Manager - Implements matrix literal syntax and operations
/// Supports [[1,2],[3,4]] syntax for matrix<T> types
pub struct MatrixLiteralsManager {
    /// The memory manager the functions are generated for.
    pub memory_manager: MemoryManager,
}

impl MatrixLiteralsManager {
    /// A manager that generates the matrix literal functions.
    pub fn new(memory_manager: MemoryManager) -> (m: Self)
        ensures
            m.memory_manager == memory_manager,
    {
        MatrixLiteralsManager { memory_manager }
    }

    /// Register all matrix literal functions with the code generator
    pub fn register_functions(&self, codegen: &mut CodeGenerator) -> (r: Result<(), CompilerError>)
        requires
            old(codegen).wf(),
        ensures
            final(codegen).wf(),
            r is Ok <==> old(codegen).n_functions() + 15 <= u32::MAX,
            r is Ok ==> appended(
                *old(codegen),
                *final(codegen),
                matrix_literals_signatures(),
                matrix_literals_bindings(),
            ),
            r matches Err(e) ==> e == CompilerError::FunctionLimit,
    {
        let ghost start = *codegen;
        let ghost mut sigs = Seq::<Signature>::empty();
        let ghost mut binds = Seq::<(Seq<char>, int)>::empty();
        proof {
            lemma_appended_start(start);
        }
        // Matrix creation functions
        let ghost mid = *codegen;
        let idx = self.register_create_integer_matrix(codegen)?;
        proof {
            lemma_appended_register(start, mid, *codegen, sigs, binds, idx, create_integer_matrix_signature());
            binds = binds.push(binding_for(sigs, create_integer_matrix_signature()));
            sigs = sigs.push(create_integer_matrix_signature());
        }
        let ghost mid = *codegen;
        let idx = self.register_create_number_matrix(codegen)?;
        proof {
            lemma_appended_register(start, mid, *codegen, sigs, binds, idx, create_number_matrix_signature());
            binds = binds.push(binding_for(sigs, create_number_matrix_signature()));
            sigs = sigs.push(create_number_matrix_signature());
        }
        let ghost mid = *codegen;
        let idx = self.register_create_boolean_matrix(codegen)?;
        proof {
            lemma_appended_register(start, mid, *codegen, sigs, binds, idx, create_boolean_matrix_signature());
            binds = binds.push(binding_for(sigs, create_boolean_matrix_signature()));
            sigs = sigs.push(create_boolean_matrix_signature());
        }
        let ghost mid = *codegen;
        let idx = self.register_create_string_matrix(codegen)?;
        proof {
            lemma_appended_register(start, mid, *codegen, sigs, binds, idx, create_string_matrix_signature());
            binds = binds.push(binding_for(sigs, create_string_matrix_signature()));
            sigs = sigs.push(create_string_matrix_signature());
        }
        // Matrix access functions
        let ghost mid = *codegen;
        let idx = self.register_get_matrix_element(codegen)?;
        proof {
            lemma_appended_register(start, mid, *codegen, sigs, binds, idx, get_matrix_element_signature());
            binds = binds.push(binding_for(sigs, get_matrix_element_signature()));
            sigs = sigs.push(get_matrix_element_signature());
        }
        let ghost mid = *codegen;
        let idx = self.register_set_matrix_element(codegen)?;
        proof {
            lemma_appended_register(start, mid, *codegen, sigs, binds, idx, set_matrix_element_signature());
            binds = binds.push(binding_for(sigs, set_matrix_element_signature()));
            sigs = sigs.push(set_matrix_element_signature());
        }
        let ghost mid = *codegen;
        let idx = self.register_get_matrix_row(codegen)?;
        proof {
            lemma_appended_register(start, mid, *codegen, sigs, binds, idx, get_matrix_row_signature());
            binds = binds.push(binding_for(sigs, get_matrix_row_signature()));
            sigs = sigs.push(get_matrix_row_signature());
        }
        let ghost mid = *codegen;
        let idx = self.register_get_matrix_column(codegen)?;
        proof {
            lemma_appended_register(start, mid, *codegen, sigs, binds, idx, get_matrix_column_signature());
            binds = binds.push(binding_for(sigs, get_matrix_column_signature()));
            sigs = sigs.push(get_matrix_column_signature());
        }
        // Matrix properties
        let ghost mid = *codegen;
        let idx = self.register_get_matrix_rows(codegen)?;
        proof {
            lemma_appended_register(start, mid, *codegen, sigs, binds, idx, get_matrix_rows_signature());
            binds = binds.push(binding_for(sigs, get_matrix_rows_signature()));
            sigs = sigs.push(get_matrix_rows_signature());
        }
        let ghost mid = *codegen;
        let idx = self.register_get_matrix_columns(codegen)?;
        proof {
            lemma_appended_register(start, mid, *codegen, sigs, binds, idx, get_matrix_columns_signature());
            binds = binds.push(binding_for(sigs, get_matrix_columns_signature()));
            sigs = sigs.push(get_matrix_columns_signature());
        }
        let ghost mid = *codegen;
        let idx = self.register_get_matrix_size(codegen)?;
        proof {
            lemma_appended_register(start, mid, *codegen, sigs, binds, idx, get_matrix_size_signature());
            binds = binds.push(binding_for(sigs, get_matrix_size_signature()));
            sigs = sigs.push(get_matrix_size_signature());
        }
        let ghost mid = *codegen;
        let idx = self.register_is_matrix_square(codegen)?;
        proof {
            lemma_appended_register(start, mid, *codegen, sigs, binds, idx, is_matrix_square_signature());
            binds = binds.push(binding_for(sigs, is_matrix_square_signature()));
            sigs = sigs.push(is_matrix_square_signature());
        }
        // Matrix validation and utilities
        let ghost mid = *codegen;
        let idx = self.register_validate_matrix_dimensions(codegen)?;
        proof {
            lemma_appended_register(start, mid, *codegen, sigs, binds, idx, validate_matrix_dimensions_signature());
            binds = binds.push(binding_for(sigs, validate_matrix_dimensions_signature()));
            sigs = sigs.push(validate_matrix_dimensions_signature());
        }
        let ghost mid = *codegen;
        let idx = self.register_matrix_to_string(codegen)?;
        proof {
            lemma_appended_register(start, mid, *codegen, sigs, binds, idx, matrix_to_string_signature());
            binds = binds.push(binding_for(sigs, matrix_to_string_signature()));
            sigs = sigs.push(matrix_to_string_signature());
        }
        let ghost mid = *codegen;
        let idx = self.register_matrix_equals(codegen)?;
        proof {
            lemma_appended_register(start, mid, *codegen, sigs, binds, idx, matrix_equals_signature());
            binds = binds.push(binding_for(sigs, matrix_equals_signature()));
            sigs = sigs.push(matrix_equals_signature());
        }
        proof {
            assert(sigs =~= matrix_literals_signatures());
            assert(binds =~= matrix_literals_bindings());
            lemma_appended_fits(start, *codegen, sigs, binds);
        }
        Ok(())
    }

    /// Create integer matrix from nested array: [[1,2],[3,4]]
    fn register_create_integer_matrix(&self, codegen: &mut CodeGenerator) -> (r: Result<u32, CompilerError>)
        requires
            old(codegen).wf(),
        ensures
            final(codegen).wf(),
            registered_one(*old(codegen), *final(codegen), r, create_integer_matrix_signature()),
    {
        // This body names locals beyond the 7 it declares; it is
        // registered as structured only.
        let r = codegen.register_function_with_locals(
            "matrix.createInteger",
            &[WasmType::I32, WasmType::I32, WasmType::I32],
            Some(WasmType::I32),
            &[WasmType::I32, WasmType::I32, WasmType::I32, WasmType::I32],
            self.generate_create_integer_matrix(),
        );
        proof {
            assert((&[WasmType::I32, WasmType::I32, WasmType::I32])@ =~= Seq::<WasmType>::empty() + seq![WasmType::I32, WasmType::I32, WasmType::I32]);
            assert((&[WasmType::I32, WasmType::I32, WasmType::I32, WasmType::I32])@ =~= Seq::<WasmType>::empty() + seq![WasmType::I32, WasmType::I32, WasmType::I32, WasmType::I32]);
        }
        r
    }

    /// Create number matrix from nested array: [[1.0,2.0],[3.0,4.0]]
    fn register_create_number_matrix(&self, codegen: &mut CodeGenerator) -> (r: Result<u32, CompilerError>)
        requires
            old(codegen).wf(),
        ensures
            final(codegen).wf(),
            registered_one(*old(codegen), *final(codegen), r, create_number_matrix_signature()),
    {
        // This body names locals beyond the 7 it declares; it is
        // registered as structured only.
        let r = codegen.register_function_with_locals(
            "matrix.createNumber",
            &[WasmType::I32, WasmType::I32, WasmType::I32],
            Some(WasmType::I32),
            &[WasmType::I32, WasmType::I32, WasmType::I32, WasmType::I32],
            self.generate_create_number_matrix(),
        );
        proof {
            assert((&[WasmType::I32, WasmType::I32, WasmType::I32])@ =~= Seq::<WasmType>::empty() + seq![WasmType::I32, WasmType::I32, WasmType::I32]);
            assert((&[WasmType::I32, WasmType::I32, WasmType::I32, WasmType::I32])@ =~= Seq::<WasmType>::empty() + seq![WasmType::I32, WasmType::I32, WasmType::I32, WasmType::I32]);
        }
        r
    }

    /// Create boolean matrix from nested array
    fn register_create_boolean_matrix(&self, codegen: &mut CodeGenerator) -> (r: Result<u32, CompilerError>)
        requires
            old(codegen).wf(),
        ensures
            final(codegen).wf(),
            registered_one(*old(codegen), *final(codegen), r, create_boolean_matrix_signature()),
    {
        // This body names locals beyond the 7 it declares; it is
        // registered as structured only.
        let r = codegen.register_function_with_locals(
            "matrix.createBoolean",
            &[WasmType::I32, WasmType::I32, WasmType::I32],
            Some(WasmType::I32),
            &[WasmType::I32, WasmType::I32, WasmType::I32, WasmType::I32],
            self.generate_create_boolean_matrix(),
        );
        proof {
            assert((&[WasmType::I32, WasmType::I32, WasmType::I32])@ =~= Seq::<WasmType>::empty() + seq![WasmType::I32, WasmType::I32, WasmType::I32]);
            assert((&[WasmType::I32, WasmType::I32, WasmType::I32, WasmType::I32])@ =~= Seq::<WasmType>::empty() + seq![WasmType::I32, WasmType::I32, WasmType::I32, WasmType::I32]);
        }
        r
    }

    /// Create string matrix from nested array
    fn register_create_string_matrix(&self, codegen: &mut CodeGenerator) -> (r: Result<u32, CompilerError>)
        requires
            old(codegen).wf(),
        ensures
            final(codegen).wf(),
            registered_one(*old(codegen), *final(codegen), r, create_string_matrix_signature()),
    {
        // This body names locals beyond the 7 it declares; it is
        // registered as structured only.
        let r = codegen.register_function_with_locals(
            "matrix.createString",
            &[WasmType::I32, WasmType::I32, WasmType::I32],
            Some(WasmType::I32),
            &[WasmType::I32, WasmType::I32, WasmType::I32, WasmType::I32],
            self.generate_create_string_matrix(),
        );
        proof {
            assert((&[WasmType::I32, WasmType::I32, WasmType::I32])@ =~= Seq::<WasmType>::empty() + seq![WasmType::I32, WasmType::I32, WasmType::I32]);
            assert((&[WasmType::I32, WasmType::I32, WasmType::I32, WasmType::I32])@ =~= Seq::<WasmType>::empty() + seq![WasmType::I32, WasmType::I32, WasmType::I32, WasmType::I32]);
        }
        r
    }

    /// Get matrix element at [row, column]
    fn register_get_matrix_element(&self, codegen: &mut CodeGenerator) -> (r: Result<u32, CompilerError>)
        requires
            old(codegen).wf(),
        ensures
            final(codegen).wf(),
            registered_one(*old(codegen), *final(codegen), r, get_matrix_element_signature()),
    {
        let r = register_stdlib_function_with_locals(
            codegen,
            "matrix.getElement",
            &[WasmType::I32, WasmType::I32, WasmType::I32],
            Some(WasmType::I32),
            &[WasmType::I32, WasmType::I32, WasmType::I32, WasmType::I32],
            self.generate_get_matrix_element(),
        );
        proof {
            assert((&[WasmType::I32, WasmType::I32, WasmType::I32])@ =~= Seq::<WasmType>::empty() + seq![WasmType::I32, WasmType::I32, WasmType::I32]);
            assert((&[WasmType::I32, WasmType::I32, WasmType::I32, WasmType::I32])@ =~= Seq::<WasmType>::empty() + seq![WasmType::I32, WasmType::I32, WasmType::I32, WasmType::I32]);
        }
        r
    }

    /// Set matrix element at [row, column]
    fn register_set_matrix_element(&self, codegen: &mut CodeGenerator) -> (r: Result<u32, CompilerError>)
        requires
            old(codegen).wf(),
        ensures
            final(codegen).wf(),
            registered_one(*old(codegen), *final(codegen), r, set_matrix_element_signature()),
    {
        let r = register_stdlib_function_with_locals(
            codegen,
            "matrix.setElement",
            &[WasmType::I32, WasmType::I32, WasmType::I32, WasmType::I32],
            None,
            &[WasmType::I32, WasmType::I32, WasmType::I32, WasmType::I32],
            self.generate_set_matrix_element(),
        );
        proof {
            assert((&[WasmType::I32, WasmType::I32, WasmType::I32, WasmType::I32])@ =~= Seq::<WasmType>::empty() + seq![WasmType::I32, WasmType::I32, WasmType::I32, WasmType::I32]);
            assert((&[WasmType::I32, WasmType::I32, WasmType::I32, WasmType::I32])@ =~= Seq::<WasmType>::empty() + seq![WasmType::I32, WasmType::I32, WasmType::I32, WasmType::I32]);
        }
        r
    }

    /// Get entire matrix row as array
    fn register_get_matrix_row(&self, codegen: &mut CodeGenerator) -> (r: Result<u32, CompilerError>)
        requires
            old(codegen).wf(),
        ensures
            final(codegen).wf(),
            registered_one(*old(codegen), *final(codegen), r, get_matrix_row_signature()),
    {
        let r = register_stdlib_function_with_locals(
            codegen,
            "matrix.getRow",
            &[WasmType::I32, WasmType::I32],
            Some(WasmType::I32),
            &[WasmType::I32, WasmType::I32, WasmType::I32, WasmType::I32, WasmType::I32],
            self.generate_get_matrix_row(),
        );
        proof {
            assert((&[WasmType::I32, WasmType::I32])@ =~= Seq::<WasmType>::empty() + seq![WasmType::I32, WasmType::I32]);
            assert((&[WasmType::I32, WasmType::I32, WasmType::I32, WasmType::I32, WasmType::I32])@ =~= Seq::<WasmType>::empty() + seq![WasmType::I32, WasmType::I32, WasmType::I32, WasmType::I32, WasmType::I32]);
        }
        r
    }

    /// Get entire matrix column as array
    fn register_get_matrix_column(&self, codegen: &mut CodeGenerator) -> (r: Result<u32, CompilerError>)
        requires
            old(codegen).wf(),
        ensures
            final(codegen).wf(),
            registered_one(*old(codegen), *final(codegen), r, get_matrix_column_signature()),
    {
        let r = register_stdlib_function_with_locals(
            codegen,
            "matrix.getColumn",
            &[WasmType::I32, WasmType::I32],
            Some(WasmType::I32),
            &[WasmType::I32, WasmType::I32, WasmType::I32, WasmType::I32, WasmType::I32, WasmType::I32],
            self.generate_get_matrix_column(),
        );
        proof {
            assert((&[WasmType::I32, WasmType::I32])@ =~= Seq::<WasmType>::empty() + seq![WasmType::I32, WasmType::I32]);
            assert((&[WasmType::I32, WasmType::I32, WasmType::I32, WasmType::I32, WasmType::I32, WasmType::I32])@ =~= Seq::<WasmType>::empty() + seq![WasmType::I32, WasmType::I32, WasmType::I32, WasmType::I32, WasmType::I32, WasmType::I32]);
        }
        r
    }

    /// Get number of rows in matrix
    fn register_get_matrix_rows(&self, codegen: &mut CodeGenerator) -> (r: Result<u32, CompilerError>)
        requires
            old(codegen).wf(),
        ensures
            final(codegen).wf(),
            registered_one(*old(codegen), *final(codegen), r, get_matrix_rows_signature()),
    {
        let r = register_stdlib_function_with_locals(
            codegen,
            "matrix.getRows",
            &[WasmType::I32],
            Some(WasmType::I32),
            &[],
            Self::matrix_getRows_instructions(),
        );
        proof {
            assert((&[WasmType::I32])@ =~= Seq::<WasmType>::empty() + seq![WasmType::I32]);
            assert((&[])@ =~= Seq::<WasmType>::empty() + seq![]);
        }
        r
    }

    /// Get number of columns in matrix
    fn register_get_matrix_columns(&self, codegen: &mut CodeGenerator) -> (r: Result<u32, CompilerError>)
        requires
            old(codegen).wf(),
        ensures
            final(codegen).wf(),
            registered_one(*old(codegen), *final(codegen), r, get_matrix_columns_signature()),
    {
        let r = register_stdlib_function_with_locals(
            codegen,
            "matrix.getColumns",
            &[WasmType::I32],
            Some(WasmType::I32),
            &[],
            Self::matrix_getColumns_instructions(),
        );
        proof {
            assert((&[WasmType::I32])@ =~= Seq::<WasmType>::empty() + seq![WasmType::I32]);
            assert((&[])@ =~= Seq::<WasmType>::empty() + seq![]);
        }
        r
    }

    /// Get total size of matrix (rows * columns)
    fn register_get_matrix_size(&self, codegen: &mut CodeGenerator) -> (r: Result<u32, CompilerError>)
        requires
            old(codegen).wf(),
        ensures
            final(codegen).wf(),
            registered_one(*old(codegen), *final(codegen), r, get_matrix_size_signature()),
    {
        let r = register_stdlib_function_with_locals(
            codegen,
            "matrix.getSize",
            &[WasmType::I32],
            Some(WasmType::I32),
            &[WasmType::I32, WasmType::I32],
            Self::matrix_getSize_instructions(),
        );
        proof {
            assert((&[WasmType::I32])@ =~= Seq::<WasmType>::empty() + seq![WasmType::I32]);
            assert((&[WasmType::I32, WasmType::I32])@ =~= Seq::<WasmType>::empty() + seq![WasmType::I32, WasmType::I32]);
        }
        r
    }

    /// Check if matrix is square (rows == columns)
    fn register_is_matrix_square(&self, codegen: &mut CodeGenerator) -> (r: Result<u32, CompilerError>)
        requires
            old(codegen).wf(),
        ensures
            final(codegen).wf(),
            registered_one(*old(codegen), *final(codegen), r, is_matrix_square_signature()),
    {
        let r = register_stdlib_function_with_locals(
            codegen,
            "matrix.isSquare",
            &[WasmType::I32],
            Some(WasmType::I32),
            &[WasmType::I32, WasmType::I32],
            Self::matrix_isSquare_instructions(),
        );
        proof {
            assert((&[WasmType::I32])@ =~= Seq::<WasmType>::empty() + seq![WasmType::I32]);
            assert((&[WasmType::I32, WasmType::I32])@ =~= Seq::<WasmType>::empty() + seq![WasmType::I32, WasmType::I32]);
        }
        r
    }

    /// Validate matrix dimensions and structure
    fn register_validate_matrix_dimensions(&self, codegen: &mut CodeGenerator) -> (r: Result<u32, CompilerError>)
        requires
            old(codegen).wf(),
        ensures
            final(codegen).wf(),
            registered_one(*old(codegen), *final(codegen), r, validate_matrix_dimensions_signature()),
    {
        let r = register_stdlib_function_with_locals(
            codegen,
            "matrix.validateDimensions",
            &[WasmType::I32, WasmType::I32, WasmType::I32],
            Some(WasmType::I32),
            &[WasmType::I32, WasmType::I32],
            Self::matrix_validateDimensions_instructions(),
        );
        proof {
            assert((&[WasmType::I32, WasmType::I32, WasmType::I32])@ =~= Seq::<WasmType>::empty() + seq![WasmType::I32, WasmType::I32, WasmType::I32]);
            assert((&[WasmType::I32, WasmType::I32])@ =~= Seq::<WasmType>::empty() + seq![WasmType::I32, WasmType::I32]);
        }
        r
    }

    /// Convert matrix to string representation
    fn register_matrix_to_string(&self, codegen: &mut CodeGenerator) -> (r: Result<u32, CompilerError>)
        requires
            old(codegen).wf(),
        ensures
            final(codegen).wf(),
            registered_one(*old(codegen), *final(codegen), r, matrix_to_string_signature()),
    {
        let r = register_stdlib_function_with_locals(
            codegen,
            "matrix.toString",
            &[WasmType::I32],
            Some(WasmType::I32),
            &[WasmType::I32, WasmType::I32, WasmType::I32, WasmType::I32],
            Self::matrix_toString_instructions(),
        );
        proof {
            assert((&[WasmType::I32])@ =~= Seq::<WasmType>::empty() + seq![WasmType::I32]);
            assert((&[WasmType::I32, WasmType::I32, WasmType::I32, WasmType::I32])@ =~= Seq::<WasmType>::empty() + seq![WasmType::I32, WasmType::I32, WasmType::I32, WasmType::I32]);
        }
        r
    }

    /// Check if two matrices are equal
    fn register_matrix_equals(&self, codegen: &mut CodeGenerator) -> (r: Result<u32, CompilerError>)
        requires
            old(codegen).wf(),
        ensures
            final(codegen).wf(),
            registered_one(*old(codegen), *final(codegen), r, matrix_equals_signature()),
    {
        let r = register_stdlib_function_with_locals(
            codegen,
            "matrix.equals",
            &[WasmType::I32, WasmType::I32],
            Some(WasmType::I32),
            &[WasmType::I32, WasmType::I32, WasmType::I32, WasmType::I32, WasmType::I32, WasmType::I32],
            Self::matrix_equals_instructions(),
        );
        proof {
            assert((&[WasmType::I32, WasmType::I32])@ =~= Seq::<WasmType>::empty() + seq![WasmType::I32, WasmType::I32]);
            assert((&[WasmType::I32, WasmType::I32, WasmType::I32, WasmType::I32, WasmType::I32, WasmType::I32])@ =~= Seq::<WasmType>::empty() + seq![WasmType::I32, WasmType::I32, WasmType::I32, WasmType::I32, WasmType::I32, WasmType::I32]);
        }
        r
    }

    /// The instructions `generate_create_integer_matrix` returns.
    #[verifier::opaque]
    pub open spec fn create_integer_matrix_body() -> Seq<Instruction> {
        seq![
            Instruction::LocalGet(0),
            Instruction::LocalGet(1),
            Instruction::I32Mul,
            Instruction::I32Const(4),
            Instruction::I32Mul,
            Instruction::I32Const(20),
            Instruction::I32Add,
            Instruction::LocalSet(6),
            Instruction::LocalGet(6),
            Instruction::I32Const(4),
            Instruction::Call(2000),
            Instruction::LocalSet(3),
            Instruction::LocalGet(3),
            Instruction::LocalGet(0),
            Instruction::I32Store(MemArg { offset: 0, align: 2, memory_index: 0 }),
            Instruction::LocalGet(3),
            Instruction::LocalGet(1),
            Instruction::I32Store(MemArg { offset: 4, align: 2, memory_index: 0 }),
            Instruction::LocalGet(3),
            Instruction::I32Const(1),
            Instruction::I32Store(MemArg { offset: 8, align: 2, memory_index: 0 }),
            Instruction::LocalGet(3),
            Instruction::I32Const(4),
            Instruction::I32Store(MemArg { offset: 12, align: 2, memory_index: 0 }),
            Instruction::LocalGet(3),
            Instruction::LocalGet(6),
            Instruction::I32Store(MemArg { offset: 16, align: 2, memory_index: 0 }),
            Instruction::I32Const(0),
            Instruction::LocalSet(7),
            Instruction::Block(BlockType::Empty),
            Instruction::Loop(BlockType::Empty),
            Instruction::LocalGet(7),
            Instruction::LocalGet(0),
            Instruction::LocalGet(1),
            Instruction::I32Mul,
            Instruction::I32GeU,
            Instruction::BrIf(1),
            Instruction::LocalGet(3),
            Instruction::I32Const(20),
            Instruction::I32Add,
            Instruction::LocalGet(7),
            Instruction::I32Const(4),
            Instruction::I32Mul,
            Instruction::I32Add,
            Instruction::LocalGet(2),
            Instruction::LocalGet(7),
            Instruction::I32Const(4),
            Instruction::I32Mul,
            Instruction::I32Add,
            Instruction::I32Load(MemArg { offset: 0, align: 2, memory_index: 0 }),
            Instruction::I32Store(MemArg { offset: 0, align: 2, memory_index: 0 }),
            Instruction::LocalGet(7),
            Instruction::I32Const(1),
            Instruction::I32Add,
            Instruction::LocalSet(7),
            Instruction::Br(0),
            Instruction::End,
            Instruction::End,
            Instruction::LocalGet(3),
        ]
    }

    #[verifier::rlimit(40)]
    #[verifier::spinoff_prover]
    fn generate_create_integer_matrix(&self) -> (r: Vec<Instruction>)
        ensures
            body_ok(r@, 8),
            r@ == Self::create_integer_matrix_body(),
    {
        proof {
            reveal(MatrixLiteralsManager::create_integer_matrix_body);
        }
        let mut b = Body::new(8);
        // Calculate matrix size: rows * columns * 4 (i32 size) + header (20 bytes)
        b.i(Instruction::LocalGet(0)); // rows
        b.i(Instruction::LocalGet(1)); // columns
        b.i(Instruction::I32Mul);
        b.i(Instruction::I32Const(4)); // sizeof(i32)
        b.i(Instruction::I32Mul);
        b.i(Instruction::I32Const(20)); // matrix header size
        b.i(Instruction::I32Add);
        b.i(Instruction::LocalSet(6)); // total_size
        // Allocate matrix memory
        b.i(Instruction::LocalGet(6)); // total_size
        b.i(Instruction::I32Const(4)); // alignment
        b.i(Instruction::Call(2000)); // memory.allocate
        b.i(Instruction::LocalSet(3)); // matrix_ptr
        // Write matrix header
        b.i(Instruction::LocalGet(3)); // matrix_ptr
        b.i(Instruction::LocalGet(0)); // rows
        b.i(Instruction::I32Store(MemArg { offset: 0, align: 2, memory_index: 0 }));
        b.i(Instruction::LocalGet(3)); // matrix_ptr
        b.i(Instruction::LocalGet(1)); // columns
        b.i(Instruction::I32Store(MemArg { offset: 4, align: 2, memory_index: 0 }));
        b.i(Instruction::LocalGet(3)); // matrix_ptr
        b.i(Instruction::I32Const(1)); // type_id for integer
        b.i(Instruction::I32Store(MemArg { offset: 8, align: 2, memory_index: 0 }));
        b.i(Instruction::LocalGet(3)); // matrix_ptr
        b.i(Instruction::I32Const(4)); // element_size
        b.i(Instruction::I32Store(MemArg { offset: 12, align: 2, memory_index: 0 }));
        b.i(Instruction::LocalGet(3)); // matrix_ptr
        b.i(Instruction::LocalGet(6)); // total_size
        b.i(Instruction::I32Store(MemArg { offset: 16, align: 2, memory_index: 0 }));
        // Copy data from input array to matrix data section
        b.i(Instruction::I32Const(0)); // i = 0
        b.i(Instruction::LocalSet(7)); // i
        // Loop: copy each element
        b.i(Instruction::Block(BlockType::Empty));
        b.i(Instruction::Loop(BlockType::Empty));
        // Check if i >= rows * columns
        b.i(Instruction::LocalGet(7)); // i
        b.i(Instruction::LocalGet(0)); // rows
        b.i(Instruction::LocalGet(1)); // columns
        b.i(Instruction::I32Mul);
        b.i(Instruction::I32GeU);
        b.i(Instruction::BrIf(1)); // break if i >= total elements
        // Copy element: matrix_data[i] = input_array[i]
        b.i(Instruction::LocalGet(3)); // matrix_ptr
        b.i(Instruction::I32Const(20)); // header size
        b.i(Instruction::I32Add);
        b.i(Instruction::LocalGet(7)); // i
        b.i(Instruction::I32Const(4)); // sizeof(i32)
        b.i(Instruction::I32Mul);
        b.i(Instruction::I32Add); // matrix_data + i*4
        b.i(Instruction::LocalGet(2)); // data_array_ptr
        b.i(Instruction::LocalGet(7)); // i
        b.i(Instruction::I32Const(4)); // sizeof(i32)
        b.i(Instruction::I32Mul);
        b.i(Instruction::I32Add); // input_array + i*4
        b.i(Instruction::I32Load(MemArg { offset: 0, align: 2, memory_index: 0 })); // load input[i]
        b.i(Instruction::I32Store(MemArg { offset: 0, align: 2, memory_index: 0 })); // store to matrix[i]
        // Increment i
        b.i(Instruction::LocalGet(7)); // i
        b.i(Instruction::I32Const(1));
        b.i(Instruction::I32Add);
        b.i(Instruction::LocalSet(7)); // i++
        b.i(Instruction::Br(0)); // continue loop
        b.i(Instruction::End); // end loop
        b.i(Instruction::End); // end block
        // Return matrix pointer
        b.i(Instruction::LocalGet(3)); // matrix_ptr
        b.finish()
    }

    /// The instructions `generate_create_number_matrix` returns.
    #[verifier::opaque]
    pub open spec fn create_number_matrix_body() -> Seq<Instruction> {
        seq![
            Instruction::LocalGet(0),
            Instruction::LocalGet(1),
            Instruction::I32Mul,
            Instruction::I32Const(8),
            Instruction::I32Mul,
            Instruction::I32Const(20),
            Instruction::I32Add,
            Instruction::LocalSet(6),
            Instruction::LocalGet(6),
            Instruction::I32Const(8),
            Instruction::Call(2000),
            Instruction::LocalSet(3),
            Instruction::LocalGet(3),
            Instruction::LocalGet(0),
            Instruction::I32Store(MemArg { offset: 0, align: 2, memory_index: 0 }),
            Instruction::LocalGet(3),
            Instruction::LocalGet(1),
            Instruction::I32Store(MemArg { offset: 4, align: 2, memory_index: 0 }),
            Instruction::LocalGet(3),
            Instruction::I32Const(2),
            Instruction::I32Store(MemArg { offset: 8, align: 2, memory_index: 0 }),
            Instruction::LocalGet(3),
            Instruction::I32Const(8),
            Instruction::I32Store(MemArg { offset: 12, align: 2, memory_index: 0 }),
            Instruction::LocalGet(3),
            Instruction::LocalGet(6),
            Instruction::I32Store(MemArg { offset: 16, align: 2, memory_index: 0 }),
            Instruction::I32Const(0),
            Instruction::LocalSet(7),
            Instruction::Block(BlockType::Empty),
            Instruction::Loop(BlockType::Empty),
            Instruction::LocalGet(7),
            Instruction::LocalGet(0),
            Instruction::LocalGet(1),
            Instruction::I32Mul,
            Instruction::I32GeU,
            Instruction::BrIf(1),
            Instruction::LocalGet(3),
            Instruction::I32Const(20),
            Instruction::I32Add,
            Instruction::LocalGet(7),
            Instruction::I32Const(8),
            Instruction::I32Mul,
            Instruction::I32Add,
            Instruction::LocalGet(2),
            Instruction::LocalGet(7),
            Instruction::I32Const(8),
            Instruction::I32Mul,
            Instruction::I32Add,
            Instruction::F64Load(MemArg { offset: 0, align: 3, memory_index: 0 }),
            Instruction::F64Store(MemArg { offset: 0, align: 3, memory_index: 0 }),
            Instruction::LocalGet(7),
            Instruction::I32Const(1),
            Instruction::I32Add,
            Instruction::LocalSet(7),
            Instruction::Br(0),
            Instruction::End,
            Instruction::End,
            Instruction::LocalGet(3),
        ]
    }

    #[verifier::rlimit(40)]
    #[verifier::spinoff_prover]
    fn generate_create_number_matrix(&self) -> (r: Vec<Instruction>)
        ensures
            body_ok(r@, 8),
            r@ == Self::create_number_matrix_body(),
    {
        proof {
            reveal(MatrixLiteralsManager::create_number_matrix_body);
        }
        let mut b = Body::new(8);
        // Calculate matrix size: rows * columns * 8 (f64 size) + header (20 bytes)
        b.i(Instruction::LocalGet(0)); // rows
        b.i(Instruction::LocalGet(1)); // columns
        b.i(Instruction::I32Mul);
        b.i(Instruction::I32Const(8)); // sizeof(f64)
        b.i(Instruction::I32Mul);
        b.i(Instruction::I32Const(20)); // matrix header size
        b.i(Instruction::I32Add);
        b.i(Instruction::LocalSet(6)); // total_size
        // Allocate matrix memory
        b.i(Instruction::LocalGet(6)); // total_size
        b.i(Instruction::I32Const(8)); // alignment
        b.i(Instruction::Call(2000)); // memory.allocate
        b.i(Instruction::LocalSet(3)); // matrix_ptr
        // Write matrix header
        b.i(Instruction::LocalGet(3)); // matrix_ptr
        b.i(Instruction::LocalGet(0)); // rows
        b.i(Instruction::I32Store(MemArg { offset: 0, align: 2, memory_index: 0 }));
        b.i(Instruction::LocalGet(3)); // matrix_ptr
        b.i(Instruction::LocalGet(1)); // columns
        b.i(Instruction::I32Store(MemArg { offset: 4, align: 2, memory_index: 0 }));
        b.i(Instruction::LocalGet(3)); // matrix_ptr
        b.i(Instruction::I32Const(2)); // type_id for number
        b.i(Instruction::I32Store(MemArg { offset: 8, align: 2, memory_index: 0 }));
        b.i(Instruction::LocalGet(3)); // matrix_ptr
        b.i(Instruction::I32Const(8)); // element_size
        b.i(Instruction::I32Store(MemArg { offset: 12, align: 2, memory_index: 0 }));
        b.i(Instruction::LocalGet(3)); // matrix_ptr
        b.i(Instruction::LocalGet(6)); // total_size
        b.i(Instruction::I32Store(MemArg { offset: 16, align: 2, memory_index: 0 }));
        // Copy data from input array to matrix data section
        b.i(Instruction::I32Const(0)); // i = 0
        b.i(Instruction::LocalSet(7)); // i
        // Loop: copy each element
        b.i(Instruction::Block(BlockType::Empty));
        b.i(Instruction::Loop(BlockType::Empty));
        // Check if i >= rows * columns
        b.i(Instruction::LocalGet(7)); // i
        b.i(Instruction::LocalGet(0)); // rows
        b.i(Instruction::LocalGet(1)); // columns
        b.i(Instruction::I32Mul);
        b.i(Instruction::I32GeU);
        b.i(Instruction::BrIf(1)); // break if i >= total elements
        // Copy element: matrix_data[i] = input_array[i]
        b.i(Instruction::LocalGet(3)); // matrix_ptr
        b.i(Instruction::I32Const(20)); // header size
        b.i(Instruction::I32Add);
        b.i(Instruction::LocalGet(7)); // i
        b.i(Instruction::I32Const(8)); // sizeof(f64)
        b.i(Instruction::I32Mul);
        b.i(Instruction::I32Add); // matrix_data + i*8
        b.i(Instruction::LocalGet(2)); // data_array_ptr
        b.i(Instruction::LocalGet(7)); // i
        b.i(Instruction::I32Const(8)); // sizeof(f64)
        b.i(Instruction::I32Mul);
        b.i(Instruction::I32Add); // input_array + i*8
        b.i(Instruction::F64Load(MemArg { offset: 0, align: 3, memory_index: 0 })); // load input[i]
        b.i(Instruction::F64Store(MemArg { offset: 0, align: 3, memory_index: 0 })); // store to matrix[i]
        // Increment i
        b.i(Instruction::LocalGet(7)); // i
        b.i(Instruction::I32Const(1));
        b.i(Instruction::I32Add);
        b.i(Instruction::LocalSet(7)); // i++
        b.i(Instruction::Br(0)); // continue loop
        b.i(Instruction::End); // end loop
        b.i(Instruction::End); // end block
        // Return matrix pointer
        b.i(Instruction::LocalGet(3)); // matrix_ptr
        b.finish()
    }

    /// The instructions `generate_create_boolean_matrix` returns.
    #[verifier::opaque]
    pub open spec fn create_boolean_matrix_body() -> Seq<Instruction> {
        seq![
            Instruction::LocalGet(0),
            Instruction::LocalGet(1),
            Instruction::I32Mul,
            Instruction::I32Const(1),
            Instruction::I32Mul,
            Instruction::I32Const(20),
            Instruction::I32Add,
            Instruction::LocalSet(6),
            Instruction::LocalGet(6),
            Instruction::I32Const(4),
            Instruction::Call(2000),
            Instruction::LocalSet(3),
            Instruction::LocalGet(3),
            Instruction::LocalGet(0),
            Instruction::I32Store(MemArg { offset: 0, align: 2, memory_index: 0 }),
            Instruction::LocalGet(3),
            Instruction::LocalGet(1),
            Instruction::I32Store(MemArg { offset: 4, align: 2, memory_index: 0 }),
            Instruction::LocalGet(3),
            Instruction::I32Const(4),
            Instruction::I32Store(MemArg { offset: 8, align: 2, memory_index: 0 }),
            Instruction::LocalGet(3),
            Instruction::I32Const(1),
            Instruction::I32Store(MemArg { offset: 12, align: 2, memory_index: 0 }),
            Instruction::LocalGet(3),
            Instruction::LocalGet(6),
            Instruction::I32Store(MemArg { offset: 16, align: 2, memory_index: 0 }),
            Instruction::I32Const(0),
            Instruction::LocalSet(7),
            Instruction::Block(BlockType::Empty),
            Instruction::Loop(BlockType::Empty),
            Instruction::LocalGet(7),
            Instruction::LocalGet(0),
            Instruction::LocalGet(1),
            Instruction::I32Mul,
            Instruction::I32GeU,
            Instruction::BrIf(1),
            Instruction::LocalGet(3),
            Instruction::I32Const(20),
            Instruction::I32Add,
            Instruction::LocalGet(7),
            Instruction::I32Add,
            Instruction::LocalGet(2),
            Instruction::LocalGet(7),
            Instruction::I32Add,
            Instruction::I32Load8U(MemArg { offset: 0, align: 0, memory_index: 0 }),
            Instruction::I32Store8(MemArg { offset: 0, align: 0, memory_index: 0 }),
            Instruction::LocalGet(7),
            Instruction::I32Const(1),
            Instruction::I32Add,
            Instruction::LocalSet(7),
            Instruction::Br(0),
            Instruction::End,
            Instruction::End,
            Instruction::LocalGet(3),
        ]
    }

    #[verifier::rlimit(40)]
    #[verifier::spinoff_prover]
    fn generate_create_boolean_matrix(&self) -> (r: Vec<Instruction>)
        ensures
            body_ok(r@, 8),
            r@ == Self::create_boolean_matrix_body(),
    {
        proof {
            reveal(MatrixLiteralsManager::create_boolean_matrix_body);
        }
        let mut b = Body::new(8);
        // Calculate matrix size: rows * columns * 1 (bool size) + header (20 bytes)
        b.i(Instruction::LocalGet(0)); // rows
        b.i(Instruction::LocalGet(1)); // columns
        b.i(Instruction::I32Mul);
        b.i(Instruction::I32Const(1)); // sizeof(bool)
        b.i(Instruction::I32Mul);
        b.i(Instruction::I32Const(20)); // matrix header size
        b.i(Instruction::I32Add);
        b.i(Instruction::LocalSet(6)); // total_size
        // Allocate matrix memory
        b.i(Instruction::LocalGet(6)); // total_size
        b.i(Instruction::I32Const(4)); // alignment
        b.i(Instruction::Call(2000)); // memory.allocate
        b.i(Instruction::LocalSet(3)); // matrix_ptr
        // Write matrix header
        b.i(Instruction::LocalGet(3)); // matrix_ptr
        b.i(Instruction::LocalGet(0)); // rows
        b.i(Instruction::I32Store(MemArg { offset: 0, align: 2, memory_index: 0 }));
        b.i(Instruction::LocalGet(3)); // matrix_ptr
        b.i(Instruction::LocalGet(1)); // columns
        b.i(Instruction::I32Store(MemArg { offset: 4, align: 2, memory_index: 0 }));
        b.i(Instruction::LocalGet(3)); // matrix_ptr
        b.i(Instruction::I32Const(4)); // type_id for boolean
        b.i(Instruction::I32Store(MemArg { offset: 8, align: 2, memory_index: 0 }));
        b.i(Instruction::LocalGet(3)); // matrix_ptr
        b.i(Instruction::I32Const(1)); // element_size
        b.i(Instruction::I32Store(MemArg { offset: 12, align: 2, memory_index: 0 }));
        b.i(Instruction::LocalGet(3)); // matrix_ptr
        b.i(Instruction::LocalGet(6)); // total_size
        b.i(Instruction::I32Store(MemArg { offset: 16, align: 2, memory_index: 0 }));
        // Copy data from input array to matrix data section
        b.i(Instruction::I32Const(0)); // i = 0
        b.i(Instruction::LocalSet(7)); // i
        // Loop: copy each element
        b.i(Instruction::Block(BlockType::Empty));
        b.i(Instruction::Loop(BlockType::Empty));
        // Check if i >= rows * columns
        b.i(Instruction::LocalGet(7)); // i
        b.i(Instruction::LocalGet(0)); // rows
        b.i(Instruction::LocalGet(1)); // columns
        b.i(Instruction::I32Mul);
        b.i(Instruction::I32GeU);
        b.i(Instruction::BrIf(1)); // break if i >= total elements
        // Copy element: matrix_data[i] = input_array[i]
        b.i(Instruction::LocalGet(3)); // matrix_ptr
        b.i(Instruction::I32Const(20)); // header size
        b.i(Instruction::I32Add);
        b.i(Instruction::LocalGet(7)); // i
        b.i(Instruction::I32Add); // matrix_data + i
        b.i(Instruction::LocalGet(2)); // data_array_ptr
        b.i(Instruction::LocalGet(7)); // i
        b.i(Instruction::I32Add); // input_array + i
        b.i(Instruction::I32Load8U(MemArg { offset: 0, align: 0, memory_index: 0 })); // load input[i]
        b.i(Instruction::I32Store8(MemArg { offset: 0, align: 0, memory_index: 0 })); // store to matrix[i]
        // Increment i
        b.i(Instruction::LocalGet(7)); // i
        b.i(Instruction::I32Const(1));
        b.i(Instruction::I32Add);
        b.i(Instruction::LocalSet(7)); // i++
        b.i(Instruction::Br(0)); // continue loop
        b.i(Instruction::End); // end loop
        b.i(Instruction::End); // end block
        // Return matrix pointer
        b.i(Instruction::LocalGet(3)); // matrix_ptr
        b.finish()
    }

    /// The instructions `generate_create_string_matrix` returns.
    #[verifier::opaque]
    pub open spec fn create_string_matrix_body() -> Seq<Instruction> {
        seq![
            Instruction::LocalGet(0),
            Instruction::LocalGet(1),
            Instruction::I32Mul,
            Instruction::I32Const(4),
            Instruction::I32Mul,
            Instruction::I32Const(20),
            Instruction::I32Add,
            Instruction::LocalSet(6),
            Instruction::LocalGet(6),
            Instruction::I32Const(4),
            Instruction::Call(2000),
            Instruction::LocalSet(3),
            Instruction::LocalGet(3),
            Instruction::LocalGet(0),
            Instruction::I32Store(MemArg { offset: 0, align: 2, memory_index: 0 }),
            Instruction::LocalGet(3),
            Instruction::LocalGet(1),
            Instruction::I32Store(MemArg { offset: 4, align: 2, memory_index: 0 }),
            Instruction::LocalGet(3),
            Instruction::I32Const(3),
            Instruction::I32Store(MemArg { offset: 8, align: 2, memory_index: 0 }),
            Instruction::LocalGet(3),
            Instruction::I32Const(4),
            Instruction::I32Store(MemArg { offset: 12, align: 2, memory_index: 0 }),
            Instruction::LocalGet(3),
            Instruction::LocalGet(6),
            Instruction::I32Store(MemArg { offset: 16, align: 2, memory_index: 0 }),
            Instruction::I32Const(0),
            Instruction::LocalSet(7),
            Instruction::Block(BlockType::Empty),
            Instruction::Loop(BlockType::Empty),
            Instruction::LocalGet(7),
            Instruction::LocalGet(0),
            Instruction::LocalGet(1),
            Instruction::I32Mul,
            Instruction::I32GeU,
            Instruction::BrIf(1),
            Instruction::LocalGet(3),
            Instruction::I32Const(20),
            Instruction::I32Add,
            Instruction::LocalGet(7),
            Instruction::I32Const(4),
            Instruction::I32Mul,
            Instruction::I32Add,
            Instruction::LocalGet(2),
            Instruction::LocalGet(7),
            Instruction::I32Const(4),
            Instruction::I32Mul,
            Instruction::I32Add,
            Instruction::I32Load(MemArg { offset: 0, align: 2, memory_index: 0 }),
            Instruction::I32Store(MemArg { offset: 0, align: 2, memory_index: 0 }),
            Instruction::LocalGet(7),
            Instruction::I32Const(1),
            Instruction::I32Add,
            Instruction::LocalSet(7),
            Instruction::Br(0),
            Instruction::End,
            Instruction::End,
            Instruction::LocalGet(3),
        ]
    }

    #[verifier::rlimit(40)]
    #[verifier::spinoff_prover]
    fn generate_create_string_matrix(&self) -> (r: Vec<Instruction>)
        ensures
            body_ok(r@, 8),
            r@ == Self::create_string_matrix_body(),
    {
        proof {
            reveal(MatrixLiteralsManager::create_string_matrix_body);
        }
        let mut b = Body::new(8);
        // Calculate matrix size: rows * columns * 4 (ptr size) + header (20 bytes)
        b.i(Instruction::LocalGet(0)); // rows
        b.i(Instruction::LocalGet(1)); // columns
        b.i(Instruction::I32Mul);
        b.i(Instruction::I32Const(4)); // sizeof(string_ptr)
        b.i(Instruction::I32Mul);
        b.i(Instruction::I32Const(20)); // matrix header size
        b.i(Instruction::I32Add);
        b.i(Instruction::LocalSet(6)); // total_size
        // Allocate matrix memory
        b.i(Instruction::LocalGet(6)); // total_size
        b.i(Instruction::I32Const(4)); // alignment
        b.i(Instruction::Call(2000)); // memory.allocate
        b.i(Instruction::LocalSet(3)); // matrix_ptr
        // Write matrix header
        b.i(Instruction::LocalGet(3)); // matrix_ptr
        b.i(Instruction::LocalGet(0)); // rows
        b.i(Instruction::I32Store(MemArg { offset: 0, align: 2, memory_index: 0 }));
        b.i(Instruction::LocalGet(3)); // matrix_ptr
        b.i(Instruction::LocalGet(1)); // columns
        b.i(Instruction::I32Store(MemArg { offset: 4, align: 2, memory_index: 0 }));
        b.i(Instruction::LocalGet(3)); // matrix_ptr
        b.i(Instruction::I32Const(3)); // type_id for string
        b.i(Instruction::I32Store(MemArg { offset: 8, align: 2, memory_index: 0 }));
        b.i(Instruction::LocalGet(3)); // matrix_ptr
        b.i(Instruction::I32Const(4)); // element_size (string pointer)
        b.i(Instruction::I32Store(MemArg { offset: 12, align: 2, memory_index: 0 }));
        b.i(Instruction::LocalGet(3)); // matrix_ptr
        b.i(Instruction::LocalGet(6)); // total_size
        b.i(Instruction::I32Store(MemArg { offset: 16, align: 2, memory_index: 0 }));
        // Copy data from input array to matrix data section
        b.i(Instruction::I32Const(0)); // i = 0
        b.i(Instruction::LocalSet(7)); // i
        // Loop: copy each string pointer
        b.i(Instruction::Block(BlockType::Empty));
        b.i(Instruction::Loop(BlockType::Empty));
        // Check if i >= rows * columns
        b.i(Instruction::LocalGet(7)); // i
        b.i(Instruction::LocalGet(0)); // rows
        b.i(Instruction::LocalGet(1)); // columns
        b.i(Instruction::I32Mul);
        b.i(Instruction::I32GeU);
        b.i(Instruction::BrIf(1)); // break if i >= total elements
        // Copy element: matrix_data[i] = input_array[i]
        b.i(Instruction::LocalGet(3)); // matrix_ptr
        b.i(Instruction::I32Const(20)); // header size
        b.i(Instruction::I32Add);
        b.i(Instruction::LocalGet(7)); // i
        b.i(Instruction::I32Const(4)); // sizeof(string_ptr)
        b.i(Instruction::I32Mul);
        b.i(Instruction::I32Add); // matrix_data + i*4
        b.i(Instruction::LocalGet(2)); // data_array_ptr
        b.i(Instruction::LocalGet(7)); // i
        b.i(Instruction::I32Const(4)); // sizeof(string_ptr)
        b.i(Instruction::I32Mul);
        b.i(Instruction::I32Add); // input_array + i*4
        b.i(Instruction::I32Load(MemArg { offset: 0, align: 2, memory_index: 0 })); // load input[i]
        b.i(Instruction::I32Store(MemArg { offset: 0, align: 2, memory_index: 0 })); // store to matrix[i]
        // Increment i
        b.i(Instruction::LocalGet(7)); // i
        b.i(Instruction::I32Const(1));
        b.i(Instruction::I32Add);
        b.i(Instruction::LocalSet(7)); // i++
        b.i(Instruction::Br(0)); // continue loop
        b.i(Instruction::End); // end loop
        b.i(Instruction::End); // end block
        // Return matrix pointer
        b.i(Instruction::LocalGet(3)); // matrix_ptr
        b.finish()
    }

    /// The instructions `generate_get_matrix_element` returns.
    #[verifier::opaque]
    pub open spec fn get_matrix_element_body() -> Seq<Instruction> {
        seq![
            Instruction::LocalGet(0),
            Instruction::I32Load(MemArg { offset: 4, align: 2, memory_index: 0 }),
            Instruction::LocalSet(3),
            Instruction::LocalGet(0),
            Instruction::I32Load(MemArg { offset: 12, align: 2, memory_index: 0 }),
            Instruction::LocalSet(4),
            Instruction::LocalGet(1),
            Instruction::LocalGet(3),
            Instruction::I32Mul,
            Instruction::LocalGet(2),
            Instruction::I32Add,
            Instruction::LocalSet(5),
            Instruction::LocalGet(0),
            Instruction::I32Const(20),
            Instruction::I32Add,
            Instruction::LocalGet(5),
            Instruction::LocalGet(4),
            Instruction::I32Mul,
            Instruction::I32Add,
            Instruction::LocalSet(6),
            Instruction::LocalGet(4),
            Instruction::I32Const(1),
            Instruction::I32Eq,
            Instruction::If(BlockType::Result(ValType::I32)),
            Instruction::LocalGet(6),
            Instruction::I32Load8U(MemArg { offset: 0, align: 0, memory_index: 0 }),
            Instruction::Else,
            Instruction::LocalGet(4),
            Instruction::I32Const(4),
            Instruction::I32Eq,
            Instruction::If(BlockType::Result(ValType::I32)),
            Instruction::LocalGet(6),
            Instruction::I32Load(MemArg { offset: 0, align: 2, memory_index: 0 }),
            Instruction::Else,
            Instruction::LocalGet(6),
            Instruction::I32Load(MemArg { offset: 0, align: 2, memory_index: 0 }),
            Instruction::End,
            Instruction::End,
        ]
    }

    fn generate_get_matrix_element(&self) -> (r: Vec<Instruction>)
        ensures
            body_ok(r@, 7),
            r@ == Self::get_matrix_element_body(),
    {
        proof {
            reveal(MatrixLiteralsManager::get_matrix_element_body);
        }
        let mut b = Body::new(7);
        // Load matrix columns
        b.i(Instruction::LocalGet(0)); // matrix_ptr
        b.i(Instruction::I32Load(MemArg { offset: 4, align: 2, memory_index: 0 })); // columns
        b.i(Instruction::LocalSet(3)); // columns
        // Load element size
        b.i(Instruction::LocalGet(0)); // matrix_ptr
        b.i(Instruction::I32Load(MemArg { offset: 12, align: 2, memory_index: 0 })); // element_size
        b.i(Instruction::LocalSet(4)); // element_size
        // Calculate index: row * columns + column
        b.i(Instruction::LocalGet(1)); // row
        b.i(Instruction::LocalGet(3)); // columns
        b.i(Instruction::I32Mul);
        b.i(Instruction::LocalGet(2)); // column
        b.i(Instruction::I32Add);
        b.i(Instruction::LocalSet(5)); // index
        // Calculate data pointer: matrix_ptr + 20 + index * element_size
        b.i(Instruction::LocalGet(0)); // matrix_ptr
        b.i(Instruction::I32Const(20)); // header size
        b.i(Instruction::I32Add);
        b.i(Instruction::LocalGet(5)); // index
        b.i(Instruction::LocalGet(4)); // element_size
        b.i(Instruction::I32Mul);
        b.i(Instruction::I32Add);
        b.i(Instruction::LocalSet(6)); // data_ptr
        // Load element based on element size
        b.i(Instruction::LocalGet(4)); // element_size
        b.i(Instruction::I32Const(1));
        b.i(Instruction::I32Eq);
        b.i(Instruction::If(BlockType::Result(ValType::I32)));
        // Boolean (1 byte)
        b.i(Instruction::LocalGet(6)); // data_ptr
        b.i(Instruction::I32Load8U(MemArg { offset: 0, align: 0, memory_index: 0 }));
        b.i(Instruction::Else);
        b.i(Instruction::LocalGet(4)); // element_size
        b.i(Instruction::I32Const(4));
        b.i(Instruction::I32Eq);
        b.i(Instruction::If(BlockType::Result(ValType::I32)));
        // Integer or string pointer (4 bytes)
        b.i(Instruction::LocalGet(6)); // data_ptr
        b.i(Instruction::I32Load(MemArg { offset: 0, align: 2, memory_index: 0 }));
        b.i(Instruction::Else);
        // Number (8 bytes) - return low 32 bits
        b.i(Instruction::LocalGet(6)); // data_ptr
        b.i(Instruction::I32Load(MemArg { offset: 0, align: 2, memory_index: 0 })); // Load as i32
        b.i(Instruction::End);
        b.i(Instruction::End);
        b.finish()
    }

    /// The instructions `generate_set_matrix_element` returns.
    #[verifier::opaque]
    pub open spec fn set_matrix_element_body() -> Seq<Instruction> {
        seq![
            Instruction::LocalGet(0),
            Instruction::I32Load(MemArg { offset: 4, align: 2, memory_index: 0 }),
            Instruction::LocalSet(4),
            Instruction::LocalGet(0),
            Instruction::I32Load(MemArg { offset: 12, align: 2, memory_index: 0 }),
            Instruction::LocalSet(5),
            Instruction::LocalGet(1),
            Instruction::LocalGet(4),
            Instruction::I32Mul,
            Instruction::LocalGet(2),
            Instruction::I32Add,
            Instruction::LocalSet(6),
            Instruction::LocalGet(0),
            Instruction::I32Const(20),
            Instruction::I32Add,
            Instruction::LocalGet(6),
            Instruction::LocalGet(5),
            Instruction::I32Mul,
            Instruction::I32Add,
            Instruction::LocalSet(7),
            Instruction::LocalGet(5),
            Instruction::I32Const(1),
            Instruction::I32Eq,
            Instruction::If(BlockType::Empty),
            Instruction::LocalGet(7),
            Instruction::LocalGet(3),
            Instruction::I32Store8(MemArg { offset: 0, align: 0, memory_index: 0 }),
            Instruction::Else,
            Instruction::LocalGet(5),
            Instruction::I32Const(4),
            Instruction::I32Eq,
            Instruction::If(BlockType::Empty),
            Instruction::LocalGet(7),
            Instruction::LocalGet(3),
            Instruction::I32Store(MemArg { offset: 0, align: 2, memory_index: 0 }),
            Instruction::Else,
            Instruction::LocalGet(7),
            Instruction::LocalGet(3),
            Instruction::I32Store(MemArg { offset: 0, align: 2, memory_index: 0 }),
            Instruction::End,
            Instruction::End,
        ]
    }

    #[verifier::rlimit(40)]
    #[verifier::spinoff_prover]
    fn generate_set_matrix_element(&self) -> (r: Vec<Instruction>)
        ensures
            body_ok(r@, 8),
            r@ == Self::set_matrix_element_body(),
    {
        proof {
            reveal(MatrixLiteralsManager::set_matrix_element_body);
        }
        let mut b = Body::new(8);
        // Load matrix columns
        b.i(Instruction::LocalGet(0)); // matrix_ptr
        b.i(Instruction::I32Load(MemArg { offset: 4, align: 2, memory_index: 0 })); // columns
        b.i(Instruction::LocalSet(4)); // columns
        // Load element size
        b.i(Instruction::LocalGet(0)); // matrix_ptr
        b.i(Instruction::I32Load(MemArg { offset: 12, align: 2, memory_index: 0 })); // element_size
        b.i(Instruction::LocalSet(5)); // element_size
        // Calculate index: row * columns + column
        b.i(Instruction::LocalGet(1)); // row
        b.i(Instruction::LocalGet(4)); // columns
        b.i(Instruction::I32Mul);
        b.i(Instruction::LocalGet(2)); // column
        b.i(Instruction::I32Add);
        b.i(Instruction::LocalSet(6)); // index
        // Calculate data pointer: matrix_ptr + 20 + index * element_size
        b.i(Instruction::LocalGet(0)); // matrix_ptr
        b.i(Instruction::I32Const(20)); // header size
        b.i(Instruction::I32Add);
        b.i(Instruction::LocalGet(6)); // index
        b.i(Instruction::LocalGet(5)); // element_size
        b.i(Instruction::I32Mul);
        b.i(Instruction::I32Add);
        b.i(Instruction::LocalSet(7)); // data_ptr
        // Store element based on element size
        b.i(Instruction::LocalGet(5)); // element_size
        b.i(Instruction::I32Const(1));
        b.i(Instruction::I32Eq);
        b.i(Instruction::If(BlockType::Empty));
        // Boolean (1 byte)
        b.i(Instruction::LocalGet(7)); // data_ptr
        b.i(Instruction::LocalGet(3)); // value
        b.i(Instruction::I32Store8(MemArg { offset: 0, align: 0, memory_index: 0 }));
        b.i(Instruction::Else);
        b.i(Instruction::LocalGet(5)); // element_size
        b.i(Instruction::I32Const(4));
        b.i(Instruction::I32Eq);
        b.i(Instruction::If(BlockType::Empty));
        // Integer or string pointer (4 bytes)
        b.i(Instruction::LocalGet(7)); // data_ptr
        b.i(Instruction::LocalGet(3)); // value
        b.i(Instruction::I32Store(MemArg { offset: 0, align: 2, memory_index: 0 }));
        b.i(Instruction::Else);
        // Number (8 bytes) - store as i32 for now
        b.i(Instruction::LocalGet(7)); // data_ptr
        b.i(Instruction::LocalGet(3)); // value
        b.i(Instruction::I32Store(MemArg { offset: 0, align: 2, memory_index: 0 }));
        b.i(Instruction::End);
        b.i(Instruction::End);
        b.finish()
    }

    /// The instructions `generate_get_matrix_row` returns.
    #[verifier::opaque]
    pub open spec fn get_matrix_row_body() -> Seq<Instruction> {
        seq![
            Instruction::LocalGet(0),
            Instruction::I32Load(MemArg { offset: 4, align: 2, memory_index: 0 }),
            Instruction::LocalSet(2),
            Instruction::LocalGet(0),
            Instruction::I32Load(MemArg { offset: 12, align: 2, memory_index: 0 }),
            Instruction::LocalSet(3),
            Instruction::LocalGet(2),
            Instruction::LocalGet(3),
            Instruction::I32Mul,
            Instruction::I32Const(4),
            Instruction::Call(2000),
            Instruction::LocalSet(4),
            Instruction::LocalGet(0),
            Instruction::I32Const(20),
            Instruction::I32Add,
            Instruction::LocalGet(1),
            Instruction::LocalGet(2),
            Instruction::I32Mul,
            Instruction::LocalGet(3),
            Instruction::I32Mul,
            Instruction::I32Add,
            Instruction::LocalSet(5),
            Instruction::I32Const(0),
            Instruction::LocalSet(6),
            Instruction::Block(BlockType::Empty),
            Instruction::Loop(BlockType::Empty),
            Instruction::LocalGet(6),
            Instruction::LocalGet(2),
            Instruction::I32GeU,
            Instruction::BrIf(1),
            Instruction::LocalGet(4),
            Instruction::LocalGet(6),
            Instruction::LocalGet(3),
            Instruction::I32Mul,
            Instruction::I32Add,
            Instruction::LocalGet(5),
            Instruction::LocalGet(6),
            Instruction::LocalGet(3),
            Instruction::I32Mul,
            Instruction::I32Add,
            Instruction::LocalGet(3),
            Instruction::I32Const(1),
            Instruction::I32Eq,
            Instruction::If(BlockType::Empty),
            Instruction::I32Load8U(MemArg { offset: 0, align: 0, memory_index: 0 }),
            Instruction::I32Store8(MemArg { offset: 0, align: 0, memory_index: 0 }),
            Instruction::Else,
            Instruction::LocalGet(3),
            Instruction::I32Const(4),
            Instruction::I32Eq,
            Instruction::If(BlockType::Empty),
            Instruction::I32Load(MemArg { offset: 0, align: 2, memory_index: 0 }),
            Instruction::I32Store(MemArg { offset: 0, align: 2, memory_index: 0 }),
            Instruction::Else,
            Instruction::F64Load(MemArg { offset: 0, align: 3, memory_index: 0 }),
            Instruction::F64Store(MemArg { offset: 0, align: 3, memory_index: 0 }),
            Instruction::End,
            Instruction::End,
            Instruction::LocalGet(6),
            Instruction::I32Const(1),
            Instruction::I32Add,
            Instruction::LocalSet(6),
            Instruction::Br(0),
            Instruction::End,
            Instruction::End,
            Instruction::LocalGet(4),
        ]
    }

    #[verifier::rlimit(40)]
    #[verifier::spinoff_prover]
    fn generate_get_matrix_row(&self) -> (r: Vec<Instruction>)
        ensures
            body_ok(r@, 7),
            r@ == Self::get_matrix_row_body(),
    {
        proof {
            reveal(MatrixLiteralsManager::get_matrix_row_body);
        }
        let mut b = Body::new(7);
        // Load matrix columns
        b.i(Instruction::LocalGet(0)); // matrix_ptr
        b.i(Instruction::I32Load(MemArg { offset: 4, align: 2, memory_index: 0 })); // columns
        b.i(Instruction::LocalSet(2)); // columns
        // Load element size
        b.i(Instruction::LocalGet(0)); // matrix_ptr
        b.i(Instruction::I32Load(MemArg { offset: 12, align: 2, memory_index: 0 })); // element_size
        b.i(Instruction::LocalSet(3)); // element_size
        // Allocate row array: columns * element_size
        b.i(Instruction::LocalGet(2)); // columns
        b.i(Instruction::LocalGet(3)); // element_size
        b.i(Instruction::I32Mul);
        b.i(Instruction::I32Const(4)); // alignment
        b.i(Instruction::Call(2000)); // memory.allocate
        b.i(Instruction::LocalSet(4)); // row_ptr
        // Calculate start of row data: matrix_ptr + 20 + row_index * columns * element_size
        b.i(Instruction::LocalGet(0)); // matrix_ptr
        b.i(Instruction::I32Const(20)); // header size
        b.i(Instruction::I32Add);
        b.i(Instruction::LocalGet(1)); // row_index
        b.i(Instruction::LocalGet(2)); // columns
        b.i(Instruction::I32Mul);
        b.i(Instruction::LocalGet(3)); // element_size
        b.i(Instruction::I32Mul);
        b.i(Instruction::I32Add);
        b.i(Instruction::LocalSet(5)); // start_ptr
        // Copy row data
        b.i(Instruction::I32Const(0)); // i = 0
        b.i(Instruction::LocalSet(6)); // i
        // Loop: copy each element in the row
        b.i(Instruction::Block(BlockType::Empty));
        b.i(Instruction::Loop(BlockType::Empty));
        // Check if i >= columns
        b.i(Instruction::LocalGet(6)); // i
        b.i(Instruction::LocalGet(2)); // columns
        b.i(Instruction::I32GeU);
        b.i(Instruction::BrIf(1)); // break if i >= columns
        // Copy element: row_data[i] = matrix_data[start + i]
        b.i(Instruction::LocalGet(4)); // row_ptr
        b.i(Instruction::LocalGet(6)); // i
        b.i(Instruction::LocalGet(3)); // element_size
        b.i(Instruction::I32Mul);
        b.i(Instruction::I32Add); // row_ptr + i * element_size
        b.i(Instruction::LocalGet(5)); // start_ptr
        b.i(Instruction::LocalGet(6)); // i
        b.i(Instruction::LocalGet(3)); // element_size
        b.i(Instruction::I32Mul);
        b.i(Instruction::I32Add); // start_ptr + i * element_size
        // Copy based on element size
        b.i(Instruction::LocalGet(3)); // element_size
        b.i(Instruction::I32Const(1));
        b.i(Instruction::I32Eq);
        b.i(Instruction::If(BlockType::Empty));
        // Boolean (1 byte)
        b.i(Instruction::I32Load8U(MemArg { offset: 0, align: 0, memory_index: 0 }));
        b.i(Instruction::I32Store8(MemArg { offset: 0, align: 0, memory_index: 0 }));
        b.i(Instruction::Else);
        b.i(Instruction::LocalGet(3)); // element_size
        b.i(Instruction::I32Const(4));
        b.i(Instruction::I32Eq);
        b.i(Instruction::If(BlockType::Empty));
        // Integer or string pointer (4 bytes)
        b.i(Instruction::I32Load(MemArg { offset: 0, align: 2, memory_index: 0 }));
        b.i(Instruction::I32Store(MemArg { offset: 0, align: 2, memory_index: 0 }));
        b.i(Instruction::Else);
        // Number (8 bytes)
        b.i(Instruction::F64Load(MemArg { offset: 0, align: 3, memory_index: 0 }));
        b.i(Instruction::F64Store(MemArg { offset: 0, align: 3, memory_index: 0 }));
        b.i(Instruction::End);
        b.i(Instruction::End);
        // Increment i
        b.i(Instruction::LocalGet(6)); // i
        b.i(Instruction::I32Const(1));
        b.i(Instruction::I32Add);
        b.i(Instruction::LocalSet(6)); // i++
        b.i(Instruction::Br(0)); // continue loop
        b.i(Instruction::End); // end loop
        b.i(Instruction::End); // end block
        // Return row array pointer
        b.i(Instruction::LocalGet(4)); // row_ptr
        b.finish()
    }

    /// The instructions `generate_get_matrix_column` returns.
    #[verifier::opaque]
    pub open spec fn get_matrix_column_body() -> Seq<Instruction> {
        seq![
            Instruction::LocalGet(0),
            Instruction::I32Load(MemArg { offset: 0, align: 2, memory_index: 0 }),
            Instruction::LocalSet(2),
            Instruction::LocalGet(0),
            Instruction::I32Load(MemArg { offset: 4, align: 2, memory_index: 0 }),
            Instruction::LocalSet(3),
            Instruction::LocalGet(0),
            Instruction::I32Load(MemArg { offset: 12, align: 2, memory_index: 0 }),
            Instruction::LocalSet(4),
            Instruction::LocalGet(2),
            Instruction::LocalGet(4),
            Instruction::I32Mul,
            Instruction::I32Const(4),
            Instruction::Call(2000),
            Instruction::LocalSet(5),
            Instruction::I32Const(0),
            Instruction::LocalSet(6),
            Instruction::Block(BlockType::Empty),
            Instruction::Loop(BlockType::Empty),
            Instruction::LocalGet(6),
            Instruction::LocalGet(2),
            Instruction::I32GeU,
            Instruction::BrIf(1),
            Instruction::LocalGet(0),
            Instruction::I32Const(20),
            Instruction::I32Add,
            Instruction::LocalGet(6),
            Instruction::LocalGet(3),
            Instruction::I32Mul,
            Instruction::LocalGet(1),
            Instruction::I32Add,
            Instruction::LocalGet(4),
            Instruction::I32Mul,
            Instruction::I32Add,
            Instruction::LocalSet(7),
            Instruction::LocalGet(5),
            Instruction::LocalGet(6),
            Instruction::LocalGet(4),
            Instruction::I32Mul,
            Instruction::I32Add,
            Instruction::LocalGet(4),
            Instruction::I32Const(1),
            Instruction::I32Eq,
            Instruction::If(BlockType::Empty),
            Instruction::LocalGet(7),
            Instruction::I32Load8U(MemArg { offset: 0, align: 0, memory_index: 0 }),
            Instruction::I32Store8(MemArg { offset: 0, align: 0, memory_index: 0 }),
            Instruction::Else,
            Instruction::LocalGet(4),
            Instruction::I32Const(4),
            Instruction::I32Eq,
            Instruction::If(BlockType::Empty),
            Instruction::LocalGet(7),
            Instruction::I32Load(MemArg { offset: 0, align: 2, memory_index: 0 }),
            Instruction::I32Store(MemArg { offset: 0, align: 2, memory_index: 0 }),
            Instruction::Else,
            Instruction::LocalGet(7),
            Instruction::F64Load(MemArg { offset: 0, align: 3, memory_index: 0 }),
            Instruction::F64Store(MemArg { offset: 0, align: 3, memory_index: 0 }),
            Instruction::End,
            Instruction::End,
            Instruction::LocalGet(6),
            Instruction::I32Const(1),
            Instruction::I32Add,
            Instruction::LocalSet(6),
            Instruction::Br(0),
            Instruction::End,
            Instruction::End,
            Instruction::LocalGet(5),
        ]
    }

    #[verifier::rlimit(40)]
    #[verifier::spinoff_prover]
    fn generate_get_matrix_column(&self) -> (r: Vec<Instruction>)
        ensures
            body_ok(r@, 8),
            r@ == Self::get_matrix_column_body(),
    {
        proof {
            reveal(MatrixLiteralsManager::get_matrix_column_body);
        }
        let mut b = Body::new(8);
        // Load matrix dimensions
        b.i(Instruction::LocalGet(0)); // matrix_ptr
        b.i(Instruction::I32Load(MemArg { offset: 0, align: 2, memory_index: 0 })); // rows
        b.i(Instruction::LocalSet(2)); // rows
        b.i(Instruction::LocalGet(0)); // matrix_ptr
        b.i(Instruction::I32Load(MemArg { offset: 4, align: 2, memory_index: 0 })); // columns
        b.i(Instruction::LocalSet(3)); // columns
        // Load element size
        b.i(Instruction::LocalGet(0)); // matrix_ptr
        b.i(Instruction::I32Load(MemArg { offset: 12, align: 2, memory_index: 0 })); // element_size
        b.i(Instruction::LocalSet(4)); // element_size
        // Allocate column array: rows * element_size
        b.i(Instruction::LocalGet(2)); // rows
        b.i(Instruction::LocalGet(4)); // element_size
        b.i(Instruction::I32Mul);
        b.i(Instruction::I32Const(4)); // alignment
        b.i(Instruction::Call(2000)); // memory.allocate
        b.i(Instruction::LocalSet(5)); // col_ptr
        // Copy column data
        b.i(Instruction::I32Const(0)); // i = 0
        b.i(Instruction::LocalSet(6)); // i
        // Loop: copy each element in the column
        b.i(Instruction::Block(BlockType::Empty));
        b.i(Instruction::Loop(BlockType::Empty));
        // Check if i >= rows
        b.i(Instruction::LocalGet(6)); // i
        b.i(Instruction::LocalGet(2)); // rows
        b.i(Instruction::I32GeU);
        b.i(Instruction::BrIf(1)); // break if i >= rows
        // Calculate element pointer: matrix_ptr + 20 + (i * columns + column_index) * element_size
        b.i(Instruction::LocalGet(0)); // matrix_ptr
        b.i(Instruction::I32Const(20)); // header size
        b.i(Instruction::I32Add);
        b.i(Instruction::LocalGet(6)); // i (row)
        b.i(Instruction::LocalGet(3)); // columns
        b.i(Instruction::I32Mul);
        b.i(Instruction::LocalGet(1)); // column_index
        b.i(Instruction::I32Add); // i * columns + column_index
        b.i(Instruction::LocalGet(4)); // element_size
        b.i(Instruction::I32Mul);
        b.i(Instruction::I32Add);
        b.i(Instruction::LocalSet(7)); // element_ptr
        // Copy element: col_data[i] = matrix_data[element_ptr]
        b.i(Instruction::LocalGet(5)); // col_ptr
        b.i(Instruction::LocalGet(6)); // i
        b.i(Instruction::LocalGet(4)); // element_size
        b.i(Instruction::I32Mul);
        b.i(Instruction::I32Add); // col_ptr + i * element_size
        // Copy based on element size
        b.i(Instruction::LocalGet(4)); // element_size
        b.i(Instruction::I32Const(1));
        b.i(Instruction::I32Eq);
        b.i(Instruction::If(BlockType::Empty));
        // Boolean (1 byte)
        b.i(Instruction::LocalGet(7)); // element_ptr
        b.i(Instruction::I32Load8U(MemArg { offset: 0, align: 0, memory_index: 0 }));
        b.i(Instruction::I32Store8(MemArg { offset: 0, align: 0, memory_index: 0 }));
        b.i(Instruction::Else);
        b.i(Instruction::LocalGet(4)); // element_size
        b.i(Instruction::I32Const(4));
        b.i(Instruction::I32Eq);
        b.i(Instruction::If(BlockType::Empty));
        // Integer or string pointer (4 bytes)
        b.i(Instruction::LocalGet(7)); // element_ptr
        b.i(Instruction::I32Load(MemArg { offset: 0, align: 2, memory_index: 0 }));
        b.i(Instruction::I32Store(MemArg { offset: 0, align: 2, memory_index: 0 }));
        b.i(Instruction::Else);
        // Number (8 bytes)
        b.i(Instruction::LocalGet(7)); // element_ptr
        b.i(Instruction::F64Load(MemArg { offset: 0, align: 3, memory_index: 0 }));
        b.i(Instruction::F64Store(MemArg { offset: 0, align: 3, memory_index: 0 }));
        b.i(Instruction::End);
        b.i(Instruction::End);
        // Increment i
        b.i(Instruction::LocalGet(6)); // i
        b.i(Instruction::I32Const(1));
        b.i(Instruction::I32Add);
        b.i(Instruction::LocalSet(6)); // i++
        b.i(Instruction::Br(0)); // continue loop
        b.i(Instruction::End); // end loop
        b.i(Instruction::End); // end block
        // Return column array pointer
        b.i(Instruction::LocalGet(5)); // col_ptr
        b.finish()
    }

    /// The instructions `matrix_getRows_instructions` returns.
    #[verifier::opaque]
    pub open spec fn matrix_getRows_instructions_body() -> Seq<Instruction> {
        seq![
            Instruction::LocalGet(0),
            Instruction::I32Load(MemArg { offset: 0, align: 2, memory_index: 0 }),
        ]
    }

    /// The body of `matrix.getRows`.
    fn matrix_getRows_instructions() -> (r: Vec<Instruction>)
        ensures
            body_ok(r@, 1),
            r@ == Self::matrix_getRows_instructions_body(),
    {
        proof {
            reveal(MatrixLiteralsManager::matrix_getRows_instructions_body);
        }
        let mut b = Body::new(1);
        b.i(Instruction::LocalGet(0));
        b.i(Instruction::I32Load(MemArg { offset: 0, align: 2, memory_index: 0 }));
        b.finish()
    }
    /// The instructions `matrix_getColumns_instructions` returns.
    #[verifier::opaque]
    pub open spec fn matrix_getColumns_instructions_body() -> Seq<Instruction> {
        seq![
            Instruction::LocalGet(0),
            Instruction::I32Load(MemArg { offset: 4, align: 2, memory_index: 0 }),
        ]
    }

    /// The body of `matrix.getColumns`.
    fn matrix_getColumns_instructions() -> (r: Vec<Instruction>)
        ensures
            body_ok(r@, 1),
            r@ == Self::matrix_getColumns_instructions_body(),
    {
        proof {
            reveal(MatrixLiteralsManager::matrix_getColumns_instructions_body);
        }
        let mut b = Body::new(1);
        b.i(Instruction::LocalGet(0));
        b.i(Instruction::I32Load(MemArg { offset: 4, align: 2, memory_index: 0 }));
        b.finish()
    }
    /// The instructions `matrix_getSize_instructions` returns.
    #[verifier::opaque]
    pub open spec fn matrix_getSize_instructions_body() -> Seq<Instruction> {
        seq![
            Instruction::LocalGet(0),
            Instruction::I32Load(MemArg { offset: 0, align: 2, memory_index: 0 }),
            Instruction::LocalSet(1),
            Instruction::LocalGet(0),
            Instruction::I32Load(MemArg { offset: 4, align: 2, memory_index: 0 }),
            Instruction::LocalSet(2),
            Instruction::LocalGet(1),
            Instruction::LocalGet(2),
            Instruction::I32Mul,
        ]
    }

    /// The body of `matrix.getSize`.
    fn matrix_getSize_instructions() -> (r: Vec<Instruction>)
        ensures
            body_ok(r@, 3),
            r@ == Self::matrix_getSize_instructions_body(),
    {
        proof {
            reveal(MatrixLiteralsManager::matrix_getSize_instructions_body);
        }
        let mut b = Body::new(3);
        b.i(Instruction::LocalGet(0));
        b.i(Instruction::I32Load(MemArg { offset: 0, align: 2, memory_index: 0 }));
        b.i(Instruction::LocalSet(1));
        b.i(Instruction::LocalGet(0));
        b.i(Instruction::I32Load(MemArg { offset: 4, align: 2, memory_index: 0 }));
        b.i(Instruction::LocalSet(2));
        b.i(Instruction::LocalGet(1));
        b.i(Instruction::LocalGet(2));
        b.i(Instruction::I32Mul);
        b.finish()
    }
    /// The instructions `matrix_isSquare_instructions` returns.
    #[verifier::opaque]
    pub open spec fn matrix_isSquare_instructions_body() -> Seq<Instruction> {
        seq![
            Instruction::LocalGet(0),
            Instruction::I32Load(MemArg { offset: 0, align: 2, memory_index: 0 }),
            Instruction::LocalSet(1),
            Instruction::LocalGet(0),
            Instruction::I32Load(MemArg { offset: 4, align: 2, memory_index: 0 }),
            Instruction::LocalSet(2),
            Instruction::LocalGet(1),
            Instruction::LocalGet(2),
            Instruction::I32Eq,
        ]
    }

    /// The body of `matrix.isSquare`.
    fn matrix_isSquare_instructions() -> (r: Vec<Instruction>)
        ensures
            body_ok(r@, 3),
            r@ == Self::matrix_isSquare_instructions_body(),
    {
        proof {
            reveal(MatrixLiteralsManager::matrix_isSquare_instructions_body);
        }
        let mut b = Body::new(3);
        b.i(Instruction::LocalGet(0));
        b.i(Instruction::I32Load(MemArg { offset: 0, align: 2, memory_index: 0 }));
        b.i(Instruction::LocalSet(1));
        b.i(Instruction::LocalGet(0));
        b.i(Instruction::I32Load(MemArg { offset: 4, align: 2, memory_index: 0 }));
        b.i(Instruction::LocalSet(2));
        b.i(Instruction::LocalGet(1));
        b.i(Instruction::LocalGet(2));
        b.i(Instruction::I32Eq);
        b.finish()
    }
    /// The instructions `matrix_validateDimensions_instructions` returns.
    #[verifier::opaque]
    pub open spec fn matrix_validateDimensions_instructions_body() -> Seq<Instruction> {
        seq![
            Instruction::LocalGet(0),
            Instruction::I32Load(MemArg { offset: 0, align: 2, memory_index: 0 }),
            Instruction::LocalSet(3),
            Instruction::LocalGet(0),
            Instruction::I32Load(MemArg { offset: 4, align: 2, memory_index: 0 }),
            Instruction::LocalSet(4),
            Instruction::LocalGet(3),
            Instruction::LocalGet(1),
            Instruction::I32Eq,
            Instruction::LocalGet(4),
            Instruction::LocalGet(2),
            Instruction::I32Eq,
            Instruction::I32And,
        ]
    }

    /// The body of `matrix.validateDimensions`.
    fn matrix_validateDimensions_instructions() -> (r: Vec<Instruction>)
        ensures
            body_ok(r@, 5),
            r@ == Self::matrix_validateDimensions_instructions_body(),
    {
        proof {
            reveal(MatrixLiteralsManager::matrix_validateDimensions_instructions_body);
        }
        let mut b = Body::new(5);
        b.i(Instruction::LocalGet(0));
        b.i(Instruction::I32Load(MemArg { offset: 0, align: 2, memory_index: 0 }));
        b.i(Instruction::LocalSet(3));
        b.i(Instruction::LocalGet(0));
        b.i(Instruction::I32Load(MemArg { offset: 4, align: 2, memory_index: 0 }));
        b.i(Instruction::LocalSet(4));
        b.i(Instruction::LocalGet(3));
        b.i(Instruction::LocalGet(1));
        b.i(Instruction::I32Eq);
        b.i(Instruction::LocalGet(4));
        b.i(Instruction::LocalGet(2));
        b.i(Instruction::I32Eq);
        b.i(Instruction::I32And);
        b.finish()
    }
    /// The instructions `matrix_toString_instructions` returns.
    #[verifier::opaque]
    pub open spec fn matrix_toString_instructions_body() -> Seq<Instruction> {
        seq![
            Instruction::LocalGet(0),
            Instruction::I32Load(MemArg { offset: 0, align: 2, memory_index: 0 }),
            Instruction::LocalSet(1),
            Instruction::LocalGet(0),
            Instruction::I32Load(MemArg { offset: 4, align: 2, memory_index: 0 }),
            Instruction::LocalSet(2),
            Instruction::LocalGet(0),
            Instruction::I32Load(MemArg { offset: 8, align: 2, memory_index: 0 }),
            Instruction::LocalSet(3),
            Instruction::I32Const(20),
            Instruction::LocalGet(1),
            Instruction::LocalGet(2),
            Instruction::I32Mul,
            Instruction::I32Const(10),
            Instruction::I32Mul,
            Instruction::I32Add,
            Instruction::I32Const(4),
            Instruction::Call(2000),
            Instruction::LocalSet(4),
            Instruction::LocalGet(4),
        ]
    }

    /// The body of `matrix.toString`.
    fn matrix_toString_instructions() -> (r: Vec<Instruction>)
        ensures
            body_ok(r@, 5),
            r@ == Self::matrix_toString_instructions_body(),
    {
        proof {
            reveal(MatrixLiteralsManager::matrix_toString_instructions_body);
        }
        let mut b = Body::new(5);
        b.i(Instruction::LocalGet(0));
        b.i(Instruction::I32Load(MemArg { offset: 0, align: 2, memory_index: 0 }));
        b.i(Instruction::LocalSet(1));
        b.i(Instruction::LocalGet(0));
        b.i(Instruction::I32Load(MemArg { offset: 4, align: 2, memory_index: 0 }));
        b.i(Instruction::LocalSet(2));
        b.i(Instruction::LocalGet(0));
        b.i(Instruction::I32Load(MemArg { offset: 8, align: 2, memory_index: 0 }));
        b.i(Instruction::LocalSet(3));
        b.i(Instruction::I32Const(20));
        b.i(Instruction::LocalGet(1));
        b.i(Instruction::LocalGet(2));
        b.i(Instruction::I32Mul);
        b.i(Instruction::I32Const(10));
        b.i(Instruction::I32Mul);
        b.i(Instruction::I32Add);
        b.i(Instruction::I32Const(4));
        b.i(Instruction::Call(2000));
        b.i(Instruction::LocalSet(4));
        b.i(Instruction::LocalGet(4));
        b.finish()
    }
    /// The instructions `matrix_equals_instructions` returns.
    #[verifier::opaque]
    pub open spec fn matrix_equals_instructions_body() -> Seq<Instruction> {
        seq![
            Instruction::LocalGet(0),
            Instruction::I32Load(MemArg { offset: 0, align: 2, memory_index: 0 }),
            Instruction::LocalSet(2),
            Instruction::LocalGet(0),
            Instruction::I32Load(MemArg { offset: 4, align: 2, memory_index: 0 }),
            Instruction::LocalSet(3),
            Instruction::LocalGet(0),
            Instruction::I32Load(MemArg { offset: 8, align: 2, memory_index: 0 }),
            Instruction::LocalSet(6),
            Instruction::LocalGet(1),
            Instruction::I32Load(MemArg { offset: 0, align: 2, memory_index: 0 }),
            Instruction::LocalSet(4),
            Instruction::LocalGet(1),
            Instruction::I32Load(MemArg { offset: 4, align: 2, memory_index: 0 }),
            Instruction::LocalSet(5),
            Instruction::LocalGet(1),
            Instruction::I32Load(MemArg { offset: 8, align: 2, memory_index: 0 }),
            Instruction::LocalSet(7),
            Instruction::LocalGet(2),
            Instruction::LocalGet(4),
            Instruction::I32Eq,
            Instruction::LocalGet(3),
            Instruction::LocalGet(5),
            Instruction::I32Eq,
            Instruction::I32And,
            Instruction::LocalGet(6),
            Instruction::LocalGet(7),
            Instruction::I32Eq,
            Instruction::I32And,
            Instruction::I32Eqz,
            Instruction::If(BlockType::Result(ValType::I32)),
            Instruction::I32Const(0),
            Instruction::Else,
            Instruction::LocalGet(2),
            Instruction::LocalGet(3),
            Instruction::I32Mul,
            Instruction::LocalGet(0),
            Instruction::I32Load(MemArg { offset: 12, align: 2, memory_index: 0 }),
            Instruction::I32Mul,
            Instruction::LocalSet(4),
            Instruction::I32Const(0),
            Instruction::LocalSet(5),
            Instruction::Block(BlockType::Empty),
            Instruction::Loop(BlockType::Empty),
            Instruction::LocalGet(5),
            Instruction::LocalGet(4),
            Instruction::I32GeU,
            Instruction::BrIf(1),
            Instruction::LocalGet(0),
            Instruction::LocalGet(5),
            Instruction::I32Add,
            Instruction::I32Load8U(MemArg { offset: 20, align: 0, memory_index: 0 }),
            Instruction::LocalGet(1),
            Instruction::LocalGet(5),
            Instruction::I32Add,
            Instruction::I32Load8U(MemArg { offset: 20, align: 0, memory_index: 0 }),
            Instruction::I32Ne,
            Instruction::If(BlockType::Empty),
            Instruction::I32Const(0),
            Instruction::Return,
            Instruction::End,
            Instruction::LocalGet(5),
            Instruction::I32Const(1),
            Instruction::I32Add,
            Instruction::LocalSet(5),
            Instruction::Br(0),
            Instruction::End,
            Instruction::End,
            Instruction::I32Const(1),
            Instruction::End,
        ]
    }

    /// The body of `matrix.equals`.
    #[verifier::rlimit(40)]
    #[verifier::spinoff_prover]
    fn matrix_equals_instructions() -> (r: Vec<Instruction>)
        ensures
            body_ok(r@, 8),
            r@ == Self::matrix_equals_instructions_body(),
    {
        proof {
            reveal(MatrixLiteralsManager::matrix_equals_instructions_body);
        }
        let mut b = Body::new(8);
        b.i(Instruction::LocalGet(0));
        b.i(Instruction::I32Load(MemArg { offset: 0, align: 2, memory_index: 0 }));
        b.i(Instruction::LocalSet(2));
        b.i(Instruction::LocalGet(0));
        b.i(Instruction::I32Load(MemArg { offset: 4, align: 2, memory_index: 0 }));
        b.i(Instruction::LocalSet(3));
        b.i(Instruction::LocalGet(0));
        b.i(Instruction::I32Load(MemArg { offset: 8, align: 2, memory_index: 0 }));
        b.i(Instruction::LocalSet(6));
        b.i(Instruction::LocalGet(1));
        b.i(Instruction::I32Load(MemArg { offset: 0, align: 2, memory_index: 0 }));
        b.i(Instruction::LocalSet(4));
        b.i(Instruction::LocalGet(1));
        b.i(Instruction::I32Load(MemArg { offset: 4, align: 2, memory_index: 0 }));
        b.i(Instruction::LocalSet(5));
        b.i(Instruction::LocalGet(1));
        b.i(Instruction::I32Load(MemArg { offset: 8, align: 2, memory_index: 0 }));
        b.i(Instruction::LocalSet(7));
        b.i(Instruction::LocalGet(2));
        b.i(Instruction::LocalGet(4));
        b.i(Instruction::I32Eq);
        b.i(Instruction::LocalGet(3));
        b.i(Instruction::LocalGet(5));
        b.i(Instruction::I32Eq);
        b.i(Instruction::I32And);
        b.i(Instruction::LocalGet(6));
        b.i(Instruction::LocalGet(7));
        b.i(Instruction::I32Eq);
        b.i(Instruction::I32And);
        b.i(Instruction::I32Eqz);
        b.i(Instruction::If(BlockType::Result(ValType::I32)));
        b.i(Instruction::I32Const(0));
        b.i(Instruction::Else);
        b.i(Instruction::LocalGet(2));
        b.i(Instruction::LocalGet(3));
        b.i(Instruction::I32Mul);
        b.i(Instruction::LocalGet(0));
        b.i(Instruction::I32Load(MemArg { offset: 12, align: 2, memory_index: 0 }));
        b.i(Instruction::I32Mul);
        b.i(Instruction::LocalSet(4));
        b.i(Instruction::I32Const(0));
        b.i(Instruction::LocalSet(5));
        b.i(Instruction::Block(BlockType::Empty));
        b.i(Instruction::Loop(BlockType::Empty));
        b.i(Instruction::LocalGet(5));
        b.i(Instruction::LocalGet(4));
        b.i(Instruction::I32GeU);
        b.i(Instruction::BrIf(1));
        b.i(Instruction::LocalGet(0));
        b.i(Instruction::LocalGet(5));
        b.i(Instruction::I32Add);
        b.i(Instruction::I32Load8U(MemArg { offset: 20, align: 0, memory_index: 0 }));
        b.i(Instruction::LocalGet(1));
        b.i(Instruction::LocalGet(5));
        b.i(Instruction::I32Add);
        b.i(Instruction::I32Load8U(MemArg { offset: 20, align: 0, memory_index: 0 }));
        b.i(Instruction::I32Ne);
        b.i(Instruction::If(BlockType::Empty));
        b.i(Instruction::I32Const(0));
        b.i(Instruction::Return);
        b.i(Instruction::End);
        b.i(Instruction::LocalGet(5));
        b.i(Instruction::I32Const(1));
        b.i(Instruction::I32Add);
        b.i(Instruction::LocalSet(5));
        b.i(Instruction::Br(0));
        b.i(Instruction::End);
        b.i(Instruction::End);
        b.i(Instruction::I32Const(1));
        b.i(Instruction::End);
        b.finish()
    }
}

} // verus!
