//! Matrix operations registered as WebAssembly functions: creation,
//! element access, addition, multiplication and transposition.

use vstd::prelude::*;
use crate::body::Body;
use crate::codegen::{
    CodeGenerator, Signature, appended, defined, lemma_appended_start, lemma_appended_fits,
    register_tracked, binding_for,
};
use crate::error::CompilerError;
use crate::wasm::{Instruction, MemArg, BlockType, ValType, WasmType, body_ok};

verus! {

/// The functions `register_functions` registers, in order.
pub open spec fn matrix_ops_signatures() -> Seq<Signature> {
    seq![
        defined(
            "matrix.create"@,
            seq![WasmType::I32, WasmType::I32],
            Some(WasmType::I32),
            seq![WasmType::I32, WasmType::I32, WasmType::I32, WasmType::I32, WasmType::I32],
            MatrixOperations::matrix_create_body(),
        ),
        defined(
            "matrix.get"@,
            seq![WasmType::I32, WasmType::I32, WasmType::I32],
            Some(WasmType::F64),
            seq![],
            MatrixOperations::matrix_get_body(),
        ),
        defined(
            "matrix.set"@,
            seq![WasmType::I32, WasmType::I32, WasmType::I32, WasmType::F64],
            Some(WasmType::I32),
            seq![],
            MatrixOperations::matrix_set_body(),
        ),
        defined(
            "matrix.add"@,
            seq![WasmType::I32, WasmType::I32, WasmType::I32],
            Some(WasmType::I32),
            seq![WasmType::I32, WasmType::I32, WasmType::I32, WasmType::I32],
            MatrixOperations::matrix_add_body(),
        ),
        defined(
            "matrix.multiply"@,
            seq![WasmType::I32, WasmType::I32, WasmType::I32],
            Some(WasmType::I32),
            seq![WasmType::I32, WasmType::I32, WasmType::I32, WasmType::I32, WasmType::I32, WasmType::I32, WasmType::F64, WasmType::I32],
            MatrixOperations::matrix_multiply_body(),
        ),
        defined(
            "matrix.transpose"@,
            seq![WasmType::I32, WasmType::I32],
            Some(WasmType::I32),
            seq![WasmType::I32, WasmType::I32, WasmType::I32, WasmType::I32],
            MatrixOperations::matrix_transpose_body(),
        ),
    ]
}

/// The names `register_functions` binds, with indices counted from its first
/// registered function.
pub open spec fn matrix_ops_bindings() -> Seq<(Seq<char>, int)> {
    seq![
        ("matrix.create"@, 0),
        ("matrix.get"@, 1),
        ("matrix.set"@, 2),
        ("matrix.add"@, 3),
        ("matrix.multiply"@, 4),
        ("matrix.transpose"@, 5),
    ]
}

/// Simplified matrix operations for Clean Language
pub struct MatrixOperations;

impl Default for MatrixOperations {
    fn default() -> (r: Self)
        ensures
            r == MatrixOperations,
    {
        Self::new()
    }
}

impl MatrixOperations {
    /// The MatrixOperations registrar.
    pub fn new() -> (r: Self)
        ensures
            r == MatrixOperations,
    {
        MatrixOperations
    }

    /// Register the matrix operations.
    pub fn register_functions(&self, codegen: &mut CodeGenerator) -> (r: Result<(), CompilerError>)
        requires
            old(codegen).wf(),
        ensures
            final(codegen).wf(),
            r is Ok <==> old(codegen).n_functions() + 6 <= u32::MAX,
            r is Ok ==> appended(
                *old(codegen),
                *final(codegen),
                matrix_ops_signatures(),
                matrix_ops_bindings(),
            ),
            r matches Err(e) ==> e == CompilerError::FunctionLimit,
    {
        let ghost start = *codegen;
        let ghost mut sigs = Seq::<Signature>::empty();
        let ghost mut binds = Seq::<(Seq<char>, int)>::empty();
        proof {
            lemma_appended_start(start);
        }
        // Basic matrix creation - uses locals: rows(i32), cols(i32), matrix_ptr(i32), total_elements(i32), counter(i32)
        let ghost sig = defined(
            "matrix.create"@,
            seq![WasmType::I32, WasmType::I32],
            Some(WasmType::I32),
            seq![WasmType::I32, WasmType::I32, WasmType::I32, WasmType::I32, WasmType::I32],
            MatrixOperations::matrix_create_body(),
        );
        register_tracked(
            codegen,
            Ghost(start),
            Ghost(sigs),
            Ghost(binds),
            Ghost(sig),
            "matrix.create",
            &[WasmType::I32, WasmType::I32],
            Some(WasmType::I32),
            &[WasmType::I32, WasmType::I32, WasmType::I32, WasmType::I32, WasmType::I32],
            self.generate_matrix_create(),
        )?;
        proof {
            binds = binds.push(binding_for(sigs, sig));
            sigs = sigs.push(sig);
        }
        // Matrix element access
        let ghost sig = defined(
            "matrix.get"@,
            seq![WasmType::I32, WasmType::I32, WasmType::I32],
            Some(WasmType::F64),
            seq![],
            MatrixOperations::matrix_get_body(),
        );
        register_tracked(
            codegen,
            Ghost(start),
            Ghost(sigs),
            Ghost(binds),
            Ghost(sig),
            "matrix.get",
            &[WasmType::I32, WasmType::I32, WasmType::I32],
            Some(WasmType::F64),
            &[],
            self.generate_matrix_get(),
        )?;
        proof {
            binds = binds.push(binding_for(sigs, sig));
            sigs = sigs.push(sig);
        }
        let ghost sig = defined(
            "matrix.set"@,
            seq![WasmType::I32, WasmType::I32, WasmType::I32, WasmType::F64],
            Some(WasmType::I32),
            seq![],
            MatrixOperations::matrix_set_body(),
        );
        register_tracked(
            codegen,
            Ghost(start),
            Ghost(sigs),
            Ghost(binds),
            Ghost(sig),
            "matrix.set",
            &[WasmType::I32, WasmType::I32, WasmType::I32, WasmType::F64],
            Some(WasmType::I32),
            &[],
            self.generate_matrix_set(),
        )?;
        proof {
            binds = binds.push(binding_for(sigs, sig));
            sigs = sigs.push(sig);
        }
        // Matrix addition
        // Matrix addition - uses additional locals: rows(i32), cols(i32), total_elements(i32), counter(i32)
        let ghost sig = defined(
            "matrix.add"@,
            seq![WasmType::I32, WasmType::I32, WasmType::I32],
            Some(WasmType::I32),
            seq![WasmType::I32, WasmType::I32, WasmType::I32, WasmType::I32],
            MatrixOperations::matrix_add_body(),
        );
        register_tracked(
            codegen,
            Ghost(start),
            Ghost(sigs),
            Ghost(binds),
            Ghost(sig),
            "matrix.add",
            &[WasmType::I32, WasmType::I32, WasmType::I32],
            Some(WasmType::I32),
            &[WasmType::I32, WasmType::I32, WasmType::I32, WasmType::I32],
            self.generate_matrix_add(),
        )?;
        proof {
            binds = binds.push(binding_for(sigs, sig));
            sigs = sigs.push(sig);
        }
        // Matrix multiplication - uses locals: rows_a(i32), cols_a(i32), rows_b(i32), cols_b(i32), i(i32), j(i32), sum(f64), k(i32)
        let ghost sig = defined(
            "matrix.multiply"@,
            seq![WasmType::I32, WasmType::I32, WasmType::I32],
            Some(WasmType::I32),
            seq![WasmType::I32, WasmType::I32, WasmType::I32, WasmType::I32, WasmType::I32, WasmType::I32, WasmType::F64, WasmType::I32],
            MatrixOperations::matrix_multiply_body(),
        );
        register_tracked(
            codegen,
            Ghost(start),
            Ghost(sigs),
            Ghost(binds),
            Ghost(sig),
            "matrix.multiply",
            &[WasmType::I32, WasmType::I32, WasmType::I32],
            Some(WasmType::I32),
            &[WasmType::I32, WasmType::I32, WasmType::I32, WasmType::I32, WasmType::I32, WasmType::I32, WasmType::F64, WasmType::I32],
            self.generate_matrix_multiply(),
        )?;
        proof {
            binds = binds.push(binding_for(sigs, sig));
            sigs = sigs.push(sig);
        }
        // Matrix transpose - uses locals: rows(i32), cols(i32), i(i32), j(i32)
        let ghost sig = defined(
            "matrix.transpose"@,
            seq![WasmType::I32, WasmType::I32],
            Some(WasmType::I32),
            seq![WasmType::I32, WasmType::I32, WasmType::I32, WasmType::I32],
            MatrixOperations::matrix_transpose_body(),
        );
        register_tracked(
            codegen,
            Ghost(start),
            Ghost(sigs),
            Ghost(binds),
            Ghost(sig),
            "matrix.transpose",
            &[WasmType::I32, WasmType::I32],
            Some(WasmType::I32),
            &[WasmType::I32, WasmType::I32, WasmType::I32, WasmType::I32],
            self.generate_matrix_transpose(),
        )?;
        proof {
            binds = binds.push(binding_for(sigs, sig));
            sigs = sigs.push(sig);
        }
        proof {
            assert(sigs =~= matrix_ops_signatures());
            assert(binds =~= matrix_ops_bindings());
            lemma_appended_fits(start, *codegen, sigs, binds);
        }
        Ok(())
    }

    /// The instructions `generate_matrix_create` returns.
    #[verifier::opaque]
    pub open spec fn matrix_create_body() -> Seq<Instruction> {
        seq![
            Instruction::LocalGet(0),
            Instruction::LocalSet(2),
            Instruction::LocalGet(1),
            Instruction::LocalSet(3),
            Instruction::LocalGet(2),
            Instruction::LocalGet(3),
            Instruction::I32Mul,
            Instruction::LocalSet(5),
            Instruction::I32Const(5),
            Instruction::I32Const(12),
            Instruction::LocalGet(5),
            Instruction::I32Const(8),
            Instruction::I32Mul,
            Instruction::I32Add,
            Instruction::Call(7),
            Instruction::LocalSet(4),
            Instruction::LocalGet(4),
            Instruction::LocalGet(2),
            Instruction::I32Store(MemArg { offset: 0, align: 2, memory_index: 0 }),
            Instruction::LocalGet(4),
            Instruction::LocalGet(3),
            Instruction::I32Store(MemArg { offset: 4, align: 2, memory_index: 0 }),
            Instruction::LocalGet(4),
            Instruction::LocalGet(5),
            Instruction::I32Store(MemArg { offset: 8, align: 2, memory_index: 0 }),
            Instruction::I32Const(0),
            Instruction::LocalSet(6),
            Instruction::Block(BlockType::Empty),
            Instruction::Loop(BlockType::Empty),
            Instruction::LocalGet(6),
            Instruction::LocalGet(5),
            Instruction::I32GeS,
            Instruction::BrIf(1),
            Instruction::LocalGet(4),
            Instruction::I32Const(12),
            Instruction::I32Add,
            Instruction::LocalGet(6),
            Instruction::I32Const(8),
            Instruction::I32Mul,
            Instruction::I32Add,
            Instruction::F64Const(0x0000000000000000u64),
            Instruction::F64Store(MemArg { offset: 0, align: 3, memory_index: 0 }),
            Instruction::LocalGet(6),
            Instruction::I32Const(1),
            Instruction::I32Add,
            Instruction::LocalSet(6),
            Instruction::Br(0),
            Instruction::End,
            Instruction::End,
            Instruction::LocalGet(4),
        ]
    }

    #[verifier::rlimit(40)]
    #[verifier::spinoff_prover]
    fn generate_matrix_create(&self) -> (r: Vec<Instruction>)
        ensures
            body_ok(r@, 7),
            r@ == Self::matrix_create_body(),
    {
        proof {
            reveal(MatrixOperations::matrix_create_body);
        }
        let mut b = Body::new(7);
        // Full matrix creation implementation
        // Creates a new matrix with specified dimensions, in memory of its own
        // Parameters: rows, cols
        // Returns: matrix pointer
        // Save parameters in locals first
        b.i(Instruction::LocalGet(0)); // rows
        b.i(Instruction::LocalSet(2)); // save rows
        b.i(Instruction::LocalGet(1)); // cols
        b.i(Instruction::LocalSet(3)); // save cols
        // Calculate total memory needed: header (12 bytes) + data (rows * cols * 8 bytes per f64)
        b.i(Instruction::LocalGet(2)); // rows
        b.i(Instruction::LocalGet(3)); // cols
        b.i(Instruction::I32Mul); // total elements
        b.i(Instruction::LocalSet(5)); // save total elements
        // Allocate the matrix with mem_alloc(type_id, size) (import index 7)
        b.i(Instruction::I32Const(5)); // type_id = 5 (matrix)
        b.i(Instruction::I32Const(12)); // header size
        b.i(Instruction::LocalGet(5)); // total elements
        b.i(Instruction::I32Const(8)); // sizeof(f64)
        b.i(Instruction::I32Mul);
        b.i(Instruction::I32Add); // 12 + total * 8
        b.i(Instruction::Call(7)); // mem_alloc
        b.i(Instruction::LocalSet(4)); // save matrix pointer
        // Store dimensions in header
        // matrix[0] = rows
        b.i(Instruction::LocalGet(4)); // matrix_ptr
        b.i(Instruction::LocalGet(2)); // rows
        b.i(Instruction::I32Store(MemArg { offset: 0, align: 2, memory_index: 0 }));
        // matrix[1] = cols
        b.i(Instruction::LocalGet(4)); // matrix_ptr
        b.i(Instruction::LocalGet(3)); // cols
        b.i(Instruction::I32Store(MemArg { offset: 4, align: 2, memory_index: 0 }));
        // matrix[2] = capacity (total elements)
        b.i(Instruction::LocalGet(4)); // matrix_ptr
        b.i(Instruction::LocalGet(5)); // total elements
        b.i(Instruction::I32Store(MemArg { offset: 8, align: 2, memory_index: 0 }));
        // Initialize all matrix elements to 0.0
        b.i(Instruction::I32Const(0));
        b.i(Instruction::LocalSet(6)); // counter = 0
        // Initialization loop
        b.i(Instruction::Block(BlockType::Empty));
        b.i(Instruction::Loop(BlockType::Empty));
        // Check if counter >= total_elements (exit condition)
        b.i(Instruction::LocalGet(6)); // counter
        b.i(Instruction::LocalGet(5)); // total_elements
        b.i(Instruction::I32GeS);
        b.i(Instruction::BrIf(1)); // break out of loop if done
        // Store 0.0 at matrix[header + counter * 8]
        b.i(Instruction::LocalGet(4)); // matrix_ptr
        b.i(Instruction::I32Const(12)); // header size
        b.i(Instruction::I32Add);
        b.i(Instruction::LocalGet(6)); // counter
        b.i(Instruction::I32Const(8)); // sizeof(f64)
        b.i(Instruction::I32Mul);
        b.i(Instruction::I32Add); // element address
        b.i(Instruction::F64Const(0x0000000000000000u64)); // zero value
        b.i(Instruction::F64Store(MemArg { offset: 0, align: 3, memory_index: 0 }));
        // Increment counter
        b.i(Instruction::LocalGet(6));
        b.i(Instruction::I32Const(1));
        b.i(Instruction::I32Add);
        b.i(Instruction::LocalSet(6));
        // Continue loop
        b.i(Instruction::Br(0));
        b.i(Instruction::End);
        b.i(Instruction::End);
        // Return matrix pointer
        b.i(Instruction::LocalGet(4));
        b.finish()
    }

    /// The instructions `generate_matrix_get` returns.
    #[verifier::opaque]
    pub open spec fn matrix_get_body() -> Seq<Instruction> {
        seq![
            Instruction::LocalGet(0),
            Instruction::I32Const(12),
            Instruction::I32Add,
            Instruction::LocalGet(1),
            Instruction::LocalGet(0),
            Instruction::I32Load(MemArg { offset: 4, align: 2, memory_index: 0 }),
            Instruction::I32Mul,
            Instruction::LocalGet(2),
            Instruction::I32Add,
            Instruction::I32Const(8),
            Instruction::I32Mul,
            Instruction::I32Add,
            Instruction::F64Load(MemArg { offset: 0, align: 3, memory_index: 0 }),
        ]
    }

    fn generate_matrix_get(&self) -> (r: Vec<Instruction>)
        ensures
            body_ok(r@, 3),
            r@ == Self::matrix_get_body(),
    {
        proof {
            reveal(MatrixOperations::matrix_get_body);
        }
        let mut b = Body::new(3);
        // Calculate element address: matrix_ptr + header_size + (row * cols + col) * sizeof(f64)
        b.i(Instruction::LocalGet(0)); // matrix ptr
        b.i(Instruction::I32Const(12)); // header size (rows, cols, capacity)
        b.i(Instruction::I32Add); // matrix ptr + header_size
        // Calculate offset: (row * cols + col) * 8, cols read from the header
        b.i(Instruction::LocalGet(1)); // row
        b.i(Instruction::LocalGet(0)); // matrix ptr
        b.i(Instruction::I32Load(MemArg { offset: 4, align: 2, memory_index: 0 })); // cols
        b.i(Instruction::I32Mul); // row * cols
        b.i(Instruction::LocalGet(2)); // col
        b.i(Instruction::I32Add); // row * cols + col
        b.i(Instruction::I32Const(8)); // sizeof(f64)
        b.i(Instruction::I32Mul); // offset in bytes
        b.i(Instruction::I32Add); // final address
        b.i(Instruction::F64Load(MemArg { offset: 0, align: 3, memory_index: 0 }));
        b.finish()
    }

    /// The instructions `generate_matrix_set` returns.
    #[verifier::opaque]
    pub open spec fn matrix_set_body() -> Seq<Instruction> {
        seq![
            Instruction::LocalGet(0),
            Instruction::I32Const(12),
            Instruction::I32Add,
            Instruction::LocalGet(1),
            Instruction::LocalGet(0),
            Instruction::I32Load(MemArg { offset: 4, align: 2, memory_index: 0 }),
            Instruction::I32Mul,
            Instruction::LocalGet(2),
            Instruction::I32Add,
            Instruction::I32Const(8),
            Instruction::I32Mul,
            Instruction::I32Add,
            Instruction::LocalGet(3),
            Instruction::F64Store(MemArg { offset: 0, align: 3, memory_index: 0 }),
            Instruction::I32Const(1),
        ]
    }

    fn generate_matrix_set(&self) -> (r: Vec<Instruction>)
        ensures
            body_ok(r@, 4),
            r@ == Self::matrix_set_body(),
    {
        proof {
            reveal(MatrixOperations::matrix_set_body);
        }
        let mut b = Body::new(4);
        // Calculate element address: matrix_ptr + header_size + (row * cols + col) * sizeof(f64)
        b.i(Instruction::LocalGet(0)); // matrix ptr
        b.i(Instruction::I32Const(12)); // header size (rows, cols, capacity)
        b.i(Instruction::I32Add); // matrix ptr + header_size
        // Calculate offset: (row * cols + col) * 8, cols read from the header
        b.i(Instruction::LocalGet(1)); // row
        b.i(Instruction::LocalGet(0)); // matrix ptr
        b.i(Instruction::I32Load(MemArg { offset: 4, align: 2, memory_index: 0 })); // cols
        b.i(Instruction::I32Mul); // row * cols
        b.i(Instruction::LocalGet(2)); // col
        b.i(Instruction::I32Add); // row * cols + col
        b.i(Instruction::I32Const(8)); // sizeof(f64)
        b.i(Instruction::I32Mul); // offset in bytes
        b.i(Instruction::I32Add); // final address
        b.i(Instruction::LocalGet(3)); // value to store (f64)
        b.i(Instruction::F64Store(MemArg { offset: 0, align: 3, memory_index: 0 }));
        b.i(Instruction::I32Const(1)); // Return success indicator
        b.finish()
    }

    /// The instructions `generate_matrix_add` returns.
    #[verifier::opaque]
    pub open spec fn matrix_add_body() -> Seq<Instruction> {
        seq![
            Instruction::LocalGet(0),
            Instruction::I32Load(MemArg { offset: 0, align: 2, memory_index: 0 }),
            Instruction::LocalSet(3),
            Instruction::LocalGet(0),
            Instruction::I32Load(MemArg { offset: 4, align: 2, memory_index: 0 }),
            Instruction::LocalSet(4),
            Instruction::LocalGet(1),
            Instruction::I32Load(MemArg { offset: 0, align: 2, memory_index: 0 }),
            Instruction::LocalGet(3),
            Instruction::I32Eq,
            Instruction::LocalGet(1),
            Instruction::I32Load(MemArg { offset: 4, align: 2, memory_index: 0 }),
            Instruction::LocalGet(4),
            Instruction::I32Eq,
            Instruction::I32And,
            Instruction::If(BlockType::Result(ValType::I32)),
            Instruction::LocalGet(2),
            Instruction::LocalGet(3),
            Instruction::I32Store(MemArg { offset: 0, align: 2, memory_index: 0 }),
            Instruction::LocalGet(2),
            Instruction::LocalGet(4),
            Instruction::I32Store(MemArg { offset: 4, align: 2, memory_index: 0 }),
            Instruction::LocalGet(3),
            Instruction::LocalGet(4),
            Instruction::I32Mul,
            Instruction::LocalSet(5),
            Instruction::I32Const(0),
            Instruction::LocalSet(6),
            Instruction::Block(BlockType::Empty),
            Instruction::Loop(BlockType::Empty),
            Instruction::LocalGet(6),
            Instruction::LocalGet(5),
            Instruction::I32GeS,
            Instruction::BrIf(1),
            Instruction::LocalGet(6),
            Instruction::I32Const(8),
            Instruction::I32Mul,
            Instruction::LocalGet(2),
            Instruction::I32Const(12),
            Instruction::I32Add,
            Instruction::LocalGet(6),
            Instruction::I32Const(8),
            Instruction::I32Mul,
            Instruction::I32Add,
            Instruction::LocalGet(0),
            Instruction::I32Const(12),
            Instruction::I32Add,
            Instruction::LocalGet(6),
            Instruction::I32Const(8),
            Instruction::I32Mul,
            Instruction::I32Add,
            Instruction::F64Load(MemArg { offset: 0, align: 3, memory_index: 0 }),
            Instruction::LocalGet(1),
            Instruction::I32Const(12),
            Instruction::I32Add,
            Instruction::LocalGet(6),
            Instruction::I32Const(8),
            Instruction::I32Mul,
            Instruction::I32Add,
            Instruction::F64Load(MemArg { offset: 0, align: 3, memory_index: 0 }),
            Instruction::F64Add,
            Instruction::F64Store(MemArg { offset: 0, align: 3, memory_index: 0 }),
            Instruction::LocalGet(6),
            Instruction::I32Const(1),
            Instruction::I32Add,
            Instruction::LocalSet(6),
            Instruction::Br(0),
            Instruction::End,
            Instruction::End,
            Instruction::I32Const(1),
            Instruction::Else,
            Instruction::I32Const(0),
            Instruction::End,
        ]
    }

    #[verifier::rlimit(40)]
    #[verifier::spinoff_prover]
    fn generate_matrix_add(&self) -> (r: Vec<Instruction>)
        ensures
            body_ok(r@, 7),
            r@ == Self::matrix_add_body(),
    {
        proof {
            reveal(MatrixOperations::matrix_add_body);
        }
        let mut b = Body::new(7);
        b.i(Instruction::LocalGet(0)); // matrix_a_ptr
        b.i(Instruction::I32Load(MemArg { offset: 0, align: 2, memory_index: 0 }));
        b.i(Instruction::LocalSet(3)); // rows
        b.i(Instruction::LocalGet(0)); // matrix_a_ptr
        b.i(Instruction::I32Load(MemArg { offset: 4, align: 2, memory_index: 0 }));
        b.i(Instruction::LocalSet(4)); // cols
        // Verify matrix B has same dimensions
        b.i(Instruction::LocalGet(1)); // matrix_b_ptr
        b.i(Instruction::I32Load(MemArg { offset: 0, align: 2, memory_index: 0 }));
        b.i(Instruction::LocalGet(3)); // rows_a
        b.i(Instruction::I32Eq);
        b.i(Instruction::LocalGet(1)); // matrix_b_ptr
        b.i(Instruction::I32Load(MemArg { offset: 4, align: 2, memory_index: 0 }));
        b.i(Instruction::LocalGet(4)); // cols_a
        b.i(Instruction::I32Eq);
        b.i(Instruction::I32And); // Both dimensions must match
        b.i(Instruction::If(BlockType::Result(ValType::I32)));
        // Dimensions match - perform addition
        // Set result matrix dimensions
        b.i(Instruction::LocalGet(2)); // result_ptr
        b.i(Instruction::LocalGet(3)); // rows
        b.i(Instruction::I32Store(MemArg { offset: 0, align: 2, memory_index: 0 }));
        b.i(Instruction::LocalGet(2)); // result_ptr
        b.i(Instruction::LocalGet(4)); // cols
        b.i(Instruction::I32Store(MemArg { offset: 4, align: 2, memory_index: 0 }));
        // Calculate total elements and initialize counter
        b.i(Instruction::LocalGet(3)); // rows
        b.i(Instruction::LocalGet(4)); // cols
        b.i(Instruction::I32Mul);
        b.i(Instruction::LocalSet(5)); // total_elements
        b.i(Instruction::I32Const(0));
        b.i(Instruction::LocalSet(6)); // counter = 0
        // Element-by-element addition loop using simpler control flow
        b.i(Instruction::Block(BlockType::Empty));
        b.i(Instruction::Loop(BlockType::Empty));
        // Check if counter >= total_elements (exit condition)
        b.i(Instruction::LocalGet(6)); // counter
        b.i(Instruction::LocalGet(5)); // total_elements
        b.i(Instruction::I32GeS);
        b.i(Instruction::BrIf(1)); // break out of loop if done
        // Calculate element address offset
        b.i(Instruction::LocalGet(6)); // counter
        b.i(Instruction::I32Const(8)); // sizeof(f64)
        b.i(Instruction::I32Mul); // element_offset
        // Store result: result[i] = a[i] + b[i]
        // Calculate result address
        b.i(Instruction::LocalGet(2)); // result_ptr
        b.i(Instruction::I32Const(12)); // header size
        b.i(Instruction::I32Add);
        b.i(Instruction::LocalGet(6)); // counter
        b.i(Instruction::I32Const(8)); // sizeof(f64)
        b.i(Instruction::I32Mul);
        b.i(Instruction::I32Add); // result element address
        // Load a[i]
        b.i(Instruction::LocalGet(0)); // matrix_a_ptr
        b.i(Instruction::I32Const(12)); // header size
        b.i(Instruction::I32Add);
        b.i(Instruction::LocalGet(6)); // counter
        b.i(Instruction::I32Const(8)); // sizeof(f64)
        b.i(Instruction::I32Mul);
        b.i(Instruction::I32Add);
        b.i(Instruction::F64Load(MemArg { offset: 0, align: 3, memory_index: 0 }));
        // Load b[i]
        b.i(Instruction::LocalGet(1)); // matrix_b_ptr
        b.i(Instruction::I32Const(12)); // header size
        b.i(Instruction::I32Add);
        b.i(Instruction::LocalGet(6)); // counter
        b.i(Instruction::I32Const(8)); // sizeof(f64)
        b.i(Instruction::I32Mul);
        b.i(Instruction::I32Add);
        b.i(Instruction::F64Load(MemArg { offset: 0, align: 3, memory_index: 0 }));
        // Add a[i] + b[i]
        b.i(Instruction::F64Add);
        // Store result[i] = a[i] + b[i]
        b.i(Instruction::F64Store(MemArg { offset: 0, align: 3, memory_index: 0 }));
        // Increment counter
        b.i(Instruction::LocalGet(6));
        b.i(Instruction::I32Const(1));
        b.i(Instruction::I32Add);
        b.i(Instruction::LocalSet(6));
        // Continue loop
        b.i(Instruction::Br(0));
        b.i(Instruction::End); // End loop
        b.i(Instruction::End); // End block
        // Return success
        b.i(Instruction::I32Const(1));
        b.i(Instruction::Else);
        // Dimensions don't match - return failure
        b.i(Instruction::I32Const(0));
        b.i(Instruction::End);
        b.finish()
    }

    /// The instructions `generate_matrix_multiply` returns.
    #[verifier::opaque]
    pub open spec fn matrix_multiply_body() -> Seq<Instruction> {
        let s = Self::matrix_multiply_part_1(Seq::<Instruction>::empty());
        Self::matrix_multiply_part_2(s)
    }

    fn generate_matrix_multiply(&self) -> (r: Vec<Instruction>)
        ensures
            body_ok(r@, 11),
            r@ == Self::matrix_multiply_body(),
    {
        let mut b = Body::new(11);
        Self::generate_matrix_multiply_1(&mut b);
        Self::generate_matrix_multiply_2(&mut b);
        proof {
            reveal(MatrixOperations::matrix_multiply_body);
        }
        b.finish()
    }

    /// Part 1 of `matrix_multiply_body`, after `s`.
    #[verifier::opaque]
    pub open spec fn matrix_multiply_part_1(s: Seq<Instruction>) -> Seq<Instruction> {
        s
            .push(Instruction::LocalGet(0))
            .push(Instruction::I32Load(MemArg { offset: 0, align: 2, memory_index: 0 }))
            .push(Instruction::LocalSet(3))
            .push(Instruction::LocalGet(0))
            .push(Instruction::I32Load(MemArg { offset: 4, align: 2, memory_index: 0 }))
            .push(Instruction::LocalSet(4))
            .push(Instruction::LocalGet(1))
            .push(Instruction::I32Load(MemArg { offset: 0, align: 2, memory_index: 0 }))
            .push(Instruction::LocalSet(5))
            .push(Instruction::LocalGet(1))
            .push(Instruction::I32Load(MemArg { offset: 4, align: 2, memory_index: 0 }))
            .push(Instruction::LocalSet(6))
            .push(Instruction::LocalGet(4))
            .push(Instruction::LocalGet(5))
            .push(Instruction::I32Eq)
            .push(Instruction::If(BlockType::Result(ValType::I32)))
            .push(Instruction::LocalGet(2))
            .push(Instruction::LocalGet(3))
            .push(Instruction::I32Store(MemArg { offset: 0, align: 2, memory_index: 0 }))
            .push(Instruction::LocalGet(2))
            .push(Instruction::LocalGet(6))
            .push(Instruction::I32Store(MemArg { offset: 4, align: 2, memory_index: 0 }))
            .push(Instruction::I32Const(0))
            .push(Instruction::LocalSet(7))
            .push(Instruction::Block(BlockType::Empty))
            .push(Instruction::Loop(BlockType::Empty))
            .push(Instruction::LocalGet(7))
            .push(Instruction::LocalGet(3))
            .push(Instruction::I32GeS)
            .push(Instruction::BrIf(1))
            .push(Instruction::I32Const(0))
            .push(Instruction::LocalSet(8))
            .push(Instruction::Block(BlockType::Empty))
            .push(Instruction::Loop(BlockType::Empty))
            .push(Instruction::LocalGet(8))
            .push(Instruction::LocalGet(6))
            .push(Instruction::I32GeS)
            .push(Instruction::BrIf(1))
            .push(Instruction::F64Const(0x0000000000000000u64))
            .push(Instruction::LocalSet(9))
            .push(Instruction::I32Const(0))
            .push(Instruction::LocalSet(10))
            .push(Instruction::Block(BlockType::Empty))
            .push(Instruction::Loop(BlockType::Empty))
            .push(Instruction::LocalGet(10))
            .push(Instruction::LocalGet(4))
            .push(Instruction::I32GeS)
            .push(Instruction::BrIf(1))
            .push(Instruction::LocalGet(0))
            .push(Instruction::I32Const(12))
            .push(Instruction::I32Add)
            .push(Instruction::LocalGet(7))
            .push(Instruction::LocalGet(4))
            .push(Instruction::I32Mul)
            .push(Instruction::LocalGet(10))
            .push(Instruction::I32Add)
            .push(Instruction::I32Const(8))
            .push(Instruction::I32Mul)
            .push(Instruction::I32Add)
            .push(Instruction::F64Load(MemArg { offset: 0, align: 3, memory_index: 0 }))
            .push(Instruction::LocalGet(1))
            .push(Instruction::I32Const(12))
            .push(Instruction::I32Add)
            .push(Instruction::LocalGet(10))
            .push(Instruction::LocalGet(6))
            .push(Instruction::I32Mul)
            .push(Instruction::LocalGet(8))
            .push(Instruction::I32Add)
            .push(Instruction::I32Const(8))
            .push(Instruction::I32Mul)
            .push(Instruction::I32Add)
            .push(Instruction::F64Load(MemArg { offset: 0, align: 3, memory_index: 0 }))
            .push(Instruction::F64Mul)
            .push(Instruction::LocalGet(9))
            .push(Instruction::F64Add)
            .push(Instruction::LocalSet(9))
            .push(Instruction::LocalGet(10))
            .push(Instruction::I32Const(1))
            .push(Instruction::I32Add)
            .push(Instruction::LocalSet(10))
            .push(Instruction::Br(0))
            .push(Instruction::End)
            .push(Instruction::End)
            .push(Instruction::LocalGet(2))
            .push(Instruction::I32Const(12))
            .push(Instruction::I32Add)
            .push(Instruction::LocalGet(7))
            .push(Instruction::LocalGet(6))
            .push(Instruction::I32Mul)
            .push(Instruction::LocalGet(8))
    }

    /// Part 1 of `generate_matrix_multiply`.
    #[verifier::rlimit(40)]
    #[verifier::spinoff_prover]
    fn generate_matrix_multiply_1(b: &mut Body)
        requires
            old(b).wf(),
            old(b).open_blocks() == 0,
            old(b).n_locals() == 11,
        ensures
            final(b).wf(),
            final(b).open_blocks() == 5,
            final(b).n_locals() == 11,
            final(b).instrs() == Self::matrix_multiply_part_1(old(b).instrs()),
    {
        proof {
            reveal(MatrixOperations::matrix_multiply_part_1);
        }
        b.i(Instruction::LocalGet(0)); // matrix_a_ptr
        b.i(Instruction::I32Load(MemArg { offset: 0, align: 2, memory_index: 0 }));
        b.i(Instruction::LocalSet(3)); // rows_a
        b.i(Instruction::LocalGet(0)); // matrix_a_ptr
        b.i(Instruction::I32Load(MemArg { offset: 4, align: 2, memory_index: 0 }));
        b.i(Instruction::LocalSet(4)); // cols_a
        // Load dimensions from matrix B
        b.i(Instruction::LocalGet(1)); // matrix_b_ptr
        b.i(Instruction::I32Load(MemArg { offset: 0, align: 2, memory_index: 0 }));
        b.i(Instruction::LocalSet(5)); // rows_b
        b.i(Instruction::LocalGet(1)); // matrix_b_ptr
        b.i(Instruction::I32Load(MemArg { offset: 4, align: 2, memory_index: 0 }));
        b.i(Instruction::LocalSet(6)); // cols_b
        // Check if multiplication is valid (cols_a == rows_b)
        b.i(Instruction::LocalGet(4)); // cols_a
        b.i(Instruction::LocalGet(5)); // rows_b
        b.i(Instruction::I32Eq);
        b.i(Instruction::If(BlockType::Result(ValType::I32)));
        // Dimensions are compatible - perform multiplication
        // Set result matrix dimensions (rows_a x cols_b)
        b.i(Instruction::LocalGet(2)); // result_ptr
        b.i(Instruction::LocalGet(3)); // rows_a
        b.i(Instruction::I32Store(MemArg { offset: 0, align: 2, memory_index: 0 }));
        b.i(Instruction::LocalGet(2)); // result_ptr
        b.i(Instruction::LocalGet(6)); // cols_b
        b.i(Instruction::I32Store(MemArg { offset: 4, align: 2, memory_index: 0 }));
        // Initialize row counter i = 0
        b.i(Instruction::I32Const(0));
        b.i(Instruction::LocalSet(7)); // i (row counter)
        // Outer loop: for each row i in result matrix
        b.i(Instruction::Block(BlockType::Empty));
        b.i(Instruction::Loop(BlockType::Empty));
        // Check if i >= rows_a (exit condition)
        b.i(Instruction::LocalGet(7)); // i
        b.i(Instruction::LocalGet(3)); // rows_a
        b.i(Instruction::I32GeS);
        b.i(Instruction::BrIf(1)); // break out of outer loop
        // Initialize column counter j = 0
        b.i(Instruction::I32Const(0));
        b.i(Instruction::LocalSet(8)); // j (column counter)
        // Inner loop: for each column j in result matrix
        b.i(Instruction::Block(BlockType::Empty));
        b.i(Instruction::Loop(BlockType::Empty));
        // Check if j >= cols_b (exit condition)
        b.i(Instruction::LocalGet(8)); // j
        b.i(Instruction::LocalGet(6)); // cols_b
        b.i(Instruction::I32GeS);
        b.i(Instruction::BrIf(1)); // break out of inner loop
        // Initialize sum = 0.0 for dot product
        b.i(Instruction::F64Const(0x0000000000000000u64)); // 0.0
        b.i(Instruction::LocalSet(9)); // sum (f64 local)
        // Initialize k = 0 for dot product loop
        b.i(Instruction::I32Const(0));
        b.i(Instruction::LocalSet(10)); // k (dot product counter)
        // Dot product loop: sum += A[i][k] * B[k][j]
        b.i(Instruction::Block(BlockType::Empty));
        b.i(Instruction::Loop(BlockType::Empty));
        // Check if k >= cols_a (exit condition)
        b.i(Instruction::LocalGet(10)); // k
        b.i(Instruction::LocalGet(4)); // cols_a
        b.i(Instruction::I32GeS);
        b.i(Instruction::BrIf(1)); // break out of dot product loop
        // Load A[i][k]
        b.i(Instruction::LocalGet(0)); // matrix_a_ptr
        b.i(Instruction::I32Const(12)); // header size
        b.i(Instruction::I32Add);
        b.i(Instruction::LocalGet(7)); // i
        b.i(Instruction::LocalGet(4)); // cols_a
        b.i(Instruction::I32Mul);
        b.i(Instruction::LocalGet(10)); // k
        b.i(Instruction::I32Add); // i * cols_a + k
        b.i(Instruction::I32Const(8)); // sizeof(f64)
        b.i(Instruction::I32Mul);
        b.i(Instruction::I32Add);
        b.i(Instruction::F64Load(MemArg { offset: 0, align: 3, memory_index: 0 }));
        // Load B[k][j]
        b.i(Instruction::LocalGet(1)); // matrix_b_ptr
        b.i(Instruction::I32Const(12)); // header size
        b.i(Instruction::I32Add);
        b.i(Instruction::LocalGet(10)); // k
        b.i(Instruction::LocalGet(6)); // cols_b
        b.i(Instruction::I32Mul);
        b.i(Instruction::LocalGet(8)); // j
        b.i(Instruction::I32Add); // k * cols_b + j
        b.i(Instruction::I32Const(8)); // sizeof(f64)
        b.i(Instruction::I32Mul);
        b.i(Instruction::I32Add);
        b.i(Instruction::F64Load(MemArg { offset: 0, align: 3, memory_index: 0 }));
        // Multiply A[i][k] * B[k][j]
        b.i(Instruction::F64Mul);
        // Add to sum
        b.i(Instruction::LocalGet(9)); // current sum
        b.i(Instruction::F64Add);
        b.i(Instruction::LocalSet(9)); // update sum
        // Increment k
        b.i(Instruction::LocalGet(10));
        b.i(Instruction::I32Const(1));
        b.i(Instruction::I32Add);
        b.i(Instruction::LocalSet(10));
        b.i(Instruction::Br(0)); // continue dot product loop
        b.i(Instruction::End);
        b.i(Instruction::End);
        // Store result[i][j] = sum
        b.i(Instruction::LocalGet(2)); // result_ptr
        b.i(Instruction::I32Const(12)); // header size
        b.i(Instruction::I32Add);
        b.i(Instruction::LocalGet(7)); // i
        b.i(Instruction::LocalGet(6)); // cols_b
        b.i(Instruction::I32Mul);
        b.i(Instruction::LocalGet(8)); // j
    }

    /// Part 2 of `matrix_multiply_body`, after `s`.
    #[verifier::opaque]
    pub open spec fn matrix_multiply_part_2(s: Seq<Instruction>) -> Seq<Instruction> {
        s
            .push(Instruction::I32Add)
            .push(Instruction::I32Const(8))
            .push(Instruction::I32Mul)
            .push(Instruction::I32Add)
            .push(Instruction::LocalGet(9))
            .push(Instruction::F64Store(MemArg { offset: 0, align: 3, memory_index: 0 }))
            .push(Instruction::LocalGet(8))
            .push(Instruction::I32Const(1))
            .push(Instruction::I32Add)
            .push(Instruction::LocalSet(8))
            .push(Instruction::Br(0))
            .push(Instruction::End)
            .push(Instruction::End)
            .push(Instruction::LocalGet(7))
            .push(Instruction::I32Const(1))
            .push(Instruction::I32Add)
            .push(Instruction::LocalSet(7))
            .push(Instruction::Br(0))
            .push(Instruction::End)
            .push(Instruction::End)
            .push(Instruction::I32Const(1))
            .push(Instruction::Else)
            .push(Instruction::I32Const(0))
            .push(Instruction::End)
    }

    /// Part 2 of `generate_matrix_multiply`.
    fn generate_matrix_multiply_2(b: &mut Body)
        requires
            old(b).wf(),
            old(b).open_blocks() == 5,
            old(b).n_locals() == 11,
        ensures
            final(b).wf(),
            final(b).open_blocks() == 0,
            final(b).n_locals() == 11,
            final(b).instrs() == Self::matrix_multiply_part_2(old(b).instrs()),
    {
        proof {
            reveal(MatrixOperations::matrix_multiply_part_2);
        }
        b.i(Instruction::I32Add); // i * cols_b + j
        b.i(Instruction::I32Const(8)); // sizeof(f64)
        b.i(Instruction::I32Mul);
        b.i(Instruction::I32Add);
        b.i(Instruction::LocalGet(9)); // sum
        b.i(Instruction::F64Store(MemArg { offset: 0, align: 3, memory_index: 0 }));
        // Increment j
        b.i(Instruction::LocalGet(8));
        b.i(Instruction::I32Const(1));
        b.i(Instruction::I32Add);
        b.i(Instruction::LocalSet(8));
        b.i(Instruction::Br(0)); // continue inner loop
        b.i(Instruction::End);
        b.i(Instruction::End);
        // Increment i
        b.i(Instruction::LocalGet(7));
        b.i(Instruction::I32Const(1));
        b.i(Instruction::I32Add);
        b.i(Instruction::LocalSet(7));
        b.i(Instruction::Br(0)); // continue outer loop
        b.i(Instruction::End);
        b.i(Instruction::End);
        // Return success
        b.i(Instruction::I32Const(1));
        b.i(Instruction::Else);
        // Dimensions are incompatible - return failure
        b.i(Instruction::I32Const(0));
        b.i(Instruction::End);
    }

    /// The instructions `generate_matrix_transpose` returns.
    #[verifier::opaque]
    pub open spec fn matrix_transpose_body() -> Seq<Instruction> {
        seq![
            Instruction::LocalGet(0),
            Instruction::I32Load(MemArg { offset: 0, align: 2, memory_index: 0 }),
            Instruction::LocalSet(2),
            Instruction::LocalGet(0),
            Instruction::I32Load(MemArg { offset: 4, align: 2, memory_index: 0 }),
            Instruction::LocalSet(3),
            Instruction::LocalGet(1),
            Instruction::LocalGet(3),
            Instruction::I32Store(MemArg { offset: 0, align: 2, memory_index: 0 }),
            Instruction::LocalGet(1),
            Instruction::LocalGet(2),
            Instruction::I32Store(MemArg { offset: 4, align: 2, memory_index: 0 }),
            Instruction::I32Const(0),
            Instruction::LocalSet(4),
            Instruction::Block(BlockType::Empty),
            Instruction::Loop(BlockType::Empty),
            Instruction::LocalGet(4),
            Instruction::LocalGet(2),
            Instruction::I32GeS,
            Instruction::BrIf(1),
            Instruction::I32Const(0),
            Instruction::LocalSet(5),
            Instruction::Block(BlockType::Empty),
            Instruction::Loop(BlockType::Empty),
            Instruction::LocalGet(5),
            Instruction::LocalGet(3),
            Instruction::I32GeS,
            Instruction::BrIf(1),
            Instruction::LocalGet(1),
            Instruction::I32Const(12),
            Instruction::I32Add,
            Instruction::LocalGet(5),
            Instruction::LocalGet(2),
            Instruction::I32Mul,
            Instruction::LocalGet(4),
            Instruction::I32Add,
            Instruction::I32Const(8),
            Instruction::I32Mul,
            Instruction::I32Add,
            Instruction::LocalGet(0),
            Instruction::I32Const(12),
            Instruction::I32Add,
            Instruction::LocalGet(4),
            Instruction::LocalGet(3),
            Instruction::I32Mul,
            Instruction::LocalGet(5),
            Instruction::I32Add,
            Instruction::I32Const(8),
            Instruction::I32Mul,
            Instruction::I32Add,
            Instruction::F64Load(MemArg { offset: 0, align: 3, memory_index: 0 }),
            Instruction::F64Store(MemArg { offset: 0, align: 3, memory_index: 0 }),
            Instruction::LocalGet(5),
            Instruction::I32Const(1),
            Instruction::I32Add,
            Instruction::LocalSet(5),
            Instruction::Br(0),
            Instruction::End,
            Instruction::End,
            Instruction::LocalGet(4),
            Instruction::I32Const(1),
            Instruction::I32Add,
            Instruction::LocalSet(4),
            Instruction::Br(0),
            Instruction::End,
            Instruction::End,
            Instruction::LocalGet(1),
        ]
    }

    #[verifier::rlimit(40)]
    #[verifier::spinoff_prover]
    fn generate_matrix_transpose(&self) -> (r: Vec<Instruction>)
        ensures
            body_ok(r@, 6),
            r@ == Self::matrix_transpose_body(),
    {
        proof {
            reveal(MatrixOperations::matrix_transpose_body);
        }
        let mut b = Body::new(6);
        b.i(Instruction::LocalGet(0)); // matrix_ptr
        b.i(Instruction::I32Load(MemArg { offset: 0, align: 2, memory_index: 0 }));
        b.i(Instruction::LocalSet(2)); // rows
        b.i(Instruction::LocalGet(0)); // matrix_ptr
        b.i(Instruction::I32Load(MemArg { offset: 4, align: 2, memory_index: 0 }));
        b.i(Instruction::LocalSet(3)); // cols
        // Set result matrix dimensions (transposed: cols become rows, rows become cols)
        b.i(Instruction::LocalGet(1)); // result_ptr
        b.i(Instruction::LocalGet(3)); // cols (becomes rows in transposed matrix)
        b.i(Instruction::I32Store(MemArg { offset: 0, align: 2, memory_index: 0 }));
        b.i(Instruction::LocalGet(1)); // result_ptr
        b.i(Instruction::LocalGet(2)); // rows (becomes cols in transposed matrix)
        b.i(Instruction::I32Store(MemArg { offset: 4, align: 2, memory_index: 0 }));
        // Initialize row counter i = 0
        b.i(Instruction::I32Const(0));
        b.i(Instruction::LocalSet(4)); // i (row counter)
        // Outer loop: for each row i in original matrix
        b.i(Instruction::Block(BlockType::Empty));
        b.i(Instruction::Loop(BlockType::Empty));
        // Check if i >= rows (exit condition)
        b.i(Instruction::LocalGet(4)); // i
        b.i(Instruction::LocalGet(2)); // rows
        b.i(Instruction::I32GeS);
        b.i(Instruction::BrIf(1)); // break out of outer loop
        // Initialize column counter j = 0
        b.i(Instruction::I32Const(0));
        b.i(Instruction::LocalSet(5)); // j (column counter)
        // Inner loop: for each column j in original matrix
        b.i(Instruction::Block(BlockType::Empty));
        b.i(Instruction::Loop(BlockType::Empty));
        // Check if j >= cols (exit condition)
        b.i(Instruction::LocalGet(5)); // j
        b.i(Instruction::LocalGet(3)); // cols
        b.i(Instruction::I32GeS);
        b.i(Instruction::BrIf(1)); // break out of inner loop
        // Calculate result address first: result[j][i] (transposed position)
        b.i(Instruction::LocalGet(1)); // result_ptr
        b.i(Instruction::I32Const(12)); // header size
        b.i(Instruction::I32Add);
        b.i(Instruction::LocalGet(5)); // j (becomes row in transposed)
        b.i(Instruction::LocalGet(2)); // rows (becomes cols in transposed)
        b.i(Instruction::I32Mul);
        b.i(Instruction::LocalGet(4)); // i (becomes col in transposed)
        b.i(Instruction::I32Add); // j * rows + i
        b.i(Instruction::I32Const(8)); // sizeof(f64)
        b.i(Instruction::I32Mul);
        b.i(Instruction::I32Add); // result address on stack
        // Load original[i][j] value
        b.i(Instruction::LocalGet(0)); // matrix_ptr
        b.i(Instruction::I32Const(12)); // header size
        b.i(Instruction::I32Add);
        b.i(Instruction::LocalGet(4)); // i
        b.i(Instruction::LocalGet(3)); // cols
        b.i(Instruction::I32Mul);
        b.i(Instruction::LocalGet(5)); // j
        b.i(Instruction::I32Add); // i * cols + j
        b.i(Instruction::I32Const(8)); // sizeof(f64)
        b.i(Instruction::I32Mul);
        b.i(Instruction::I32Add);
        b.i(Instruction::F64Load(MemArg { offset: 0, align: 3, memory_index: 0 }));
        // Stack now has: [result_address_i32, value_f64] - correct for F64Store
        b.i(Instruction::F64Store(MemArg { offset: 0, align: 3, memory_index: 0 }));
        // Increment j
        b.i(Instruction::LocalGet(5));
        b.i(Instruction::I32Const(1));
        b.i(Instruction::I32Add);
        b.i(Instruction::LocalSet(5));
        b.i(Instruction::Br(0)); // continue inner loop
        b.i(Instruction::End);
        b.i(Instruction::End);
        // Increment i
        b.i(Instruction::LocalGet(4));
        b.i(Instruction::I32Const(1));
        b.i(Instruction::I32Add);
        b.i(Instruction::LocalSet(4));
        b.i(Instruction::Br(0)); // continue outer loop
        b.i(Instruction::End);
        b.i(Instruction::End);
        // Return result pointer
        b.i(Instruction::LocalGet(1));
        b.finish()
    }

}

} // verus!
