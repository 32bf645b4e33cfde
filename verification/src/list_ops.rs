//! Lists stored in the memory manager's heap: a list is a block of type
//! `LIST_TYPE_ID` whose first word holds its size, followed after a 16-byte
//! header area by 8-byte element slots.

use vstd::prelude::*;
use crate::body::Body;
use crate::codegen::{
    CodeGenerator, Signature, appended, defined, lemma_appended_start, lemma_appended_fits,
    register_tracked, register_tracked_structured, import_tracked, binding_for,
};
use crate::wasm::{Instruction, MemArg, BlockType, ValType, WasmType, body_ok};
use crate::codegen::LIST_TYPE_ID;
use crate::error::{CompilerError, MemoryErrorKind, TypeErrorKind};
use crate::memory::{MemoryManager, HEADER_SIZE, written, le_bytes_u32};

verus! {

/// The 32-bit little-endian word at `p`.
pub open spec fn word_at(data: Seq<u8>, p: int) -> u32 {
    (data[p] as u32) | ((data[p + 1] as u32) << 8u32) | ((data[p + 2] as u32) << 16u32) | ((data[p
        + 3] as u32) << 24u32)
}

/// The size recorded in the header word of the list at `p`.
pub open spec fn stored_size(data: Seq<u8>, p: int) -> usize {
    (word_at(data, p) as i32) as usize
}

/// List operations over a memory manager.
pub struct ListManager {
    pub memory_manager: MemoryManager,
}

impl ListManager {
    /// A list manager over `memory_manager`.
    pub fn new(memory_manager: MemoryManager) -> (l: ListManager)
        ensures
            l.memory_manager == memory_manager,
    {
        ListManager { memory_manager }
    }

    /// Whether `list_ptr` names a list of the manager.
    pub open spec fn is_list(&self, list_ptr: usize) -> bool {
        self.memory_manager.valid_pointer(list_ptr) && self.memory_manager.block_of(list_ptr).type_id
            == LIST_TYPE_ID
    }

    /// The size the list at `list_ptr` records.
    pub open spec fn list_size(&self, list_ptr: usize) -> usize {
        stored_size(self.memory_manager.bytes(), list_ptr as int)
    }

    /// Read the size word of the list at `list_ptr`.
    fn read_size(&self, list_ptr: usize) -> (size: usize)
        requires
            self.memory_manager.wf(),
            list_ptr + 4 <= self.memory_manager.bytes().len(),
        ensures
            size == self.list_size(list_ptr),
    {
        proof {
            self.memory_manager.lemma_bytes_fit();
        }
        let m = &self.memory_manager;
        let word = (m.byte_at(list_ptr) as u32) | ((m.byte_at(list_ptr + 1) as u32) << 8u32) | ((
        m.byte_at(list_ptr + 2) as u32) << 16u32) | ((m.byte_at(list_ptr + 3) as u32) << 24u32);
        #[verifier::truncate]
        ((#[verifier::truncate] (word as i32)) as usize)
    }

    /// The address of slot `index` of the list at `list_ptr`. Fails when the
    /// pointer is not a list or the index is not below the list's size.
    pub fn get_element(&self, list_ptr: usize, index: usize) -> (r: Result<usize, CompilerError>)
        requires
            self.memory_manager.wf(),
            list_ptr >= HEADER_SIZE,
            self.is_list(list_ptr) ==> list_ptr + 4 <= self.memory_manager.bytes().len(),
            self.is_list(list_ptr) && index < self.list_size(list_ptr) ==> list_ptr + 16 + index * 8
                <= usize::MAX,
        ensures
            !self.memory_manager.valid_pointer(list_ptr) ==> r == Err::<usize, CompilerError>(
                CompilerError::Memory(MemoryErrorKind::InvalidPointer(list_ptr)),
            ),
            self.memory_manager.valid_pointer(list_ptr) && !self.is_list(list_ptr) ==> r == Err::<
                usize,
                CompilerError,
            >(CompilerError::Type(TypeErrorKind::InvalidListPointer)),
            self.is_list(list_ptr) && index >= self.list_size(list_ptr) ==> r == Err::<
                usize,
                CompilerError,
            >(
                CompilerError::Type(
                    TypeErrorKind::IndexOutOfBounds { index, size: self.list_size(list_ptr) },
                ),
            ),
            self.is_list(list_ptr) && index < self.list_size(list_ptr) ==> r == Ok::<
                usize,
                CompilerError,
            >((list_ptr + 16 + index * 8) as usize),
    {
        // Check type
        if self.memory_manager.get_type_id(list_ptr)? != LIST_TYPE_ID {
            return Err(CompilerError::Type(TypeErrorKind::InvalidListPointer));
        }

        // Check bounds
        let size = self.read_size(list_ptr);

        if index >= size {
            return Err(CompilerError::Type(TypeErrorKind::IndexOutOfBounds { index, size }));
        }

        Ok(list_ptr + 16 + index * 8)
    }

    /// Copy the 8 bytes at `value_ptr` into slot `index` of the list at
    /// `list_ptr`. Fails as `get_element` does.
    pub fn set_element(&mut self, list_ptr: usize, index: usize, value_ptr: usize) -> (r: Result<
        (),
        CompilerError,
    >)
        requires
            old(self).memory_manager.wf(),
            list_ptr >= HEADER_SIZE,
            old(self).is_list(list_ptr) ==> list_ptr + 4 <= old(self).memory_manager.bytes().len(),
            old(self).is_list(list_ptr) && index < old(self).list_size(list_ptr) ==> {
                &&& value_ptr + 8 <= old(self).memory_manager.bytes().len()
                &&& list_ptr + 16 + index * 8 + 8 <= old(self).memory_manager.bytes().len()
            },
        ensures
            !old(self).memory_manager.valid_pointer(list_ptr) ==> r == Err::<(), CompilerError>(
                CompilerError::Memory(MemoryErrorKind::InvalidPointer(list_ptr)),
            ),
            old(self).memory_manager.valid_pointer(list_ptr) && !old(self).is_list(list_ptr) ==> r
                == Err::<(), CompilerError>(CompilerError::Type(TypeErrorKind::InvalidListPointer)),
            old(self).is_list(list_ptr) && index >= old(self).list_size(list_ptr) ==> r == Err::<
                (),
                CompilerError,
            >(
                CompilerError::Type(
                    TypeErrorKind::IndexOutOfBounds { index, size: old(self).list_size(list_ptr) },
                ),
            ),
            final(self).memory_manager.wf(),
            r is Err ==> final(self).memory_manager == old(self).memory_manager,
            old(self).is_list(list_ptr) && index < old(self).list_size(list_ptr) ==> {
                let at = list_ptr + 16 + index * 8;
                let d = old(self).memory_manager.bytes();
                &&& r == Ok::<(), CompilerError>(())
                &&& final(self).memory_manager.bytes() == written(
                    d,
                    at,
                    d.subrange(value_ptr as int, value_ptr + 8),
                )
                &&& final(self).memory_manager.same_layout(&old(self).memory_manager)
            },
    {
        // Check type
        if self.memory_manager.get_type_id(list_ptr)? != LIST_TYPE_ID {
            return Err(CompilerError::Type(TypeErrorKind::InvalidListPointer));
        }

        // Check bounds
        let size = self.read_size(list_ptr);

        if index >= size {
            return Err(CompilerError::Type(TypeErrorKind::IndexOutOfBounds { index, size }));
        }

        proof {
            self.memory_manager.lemma_bytes_fit();
        }
        // First read the value data into a temporary buffer
        let mut value_data = [0u8; 8];
        let mut i: usize = 0;
        while i < 8
            invariant
                i <= 8,
                value_ptr + 8 <= self.memory_manager.bytes().len(),
                self.memory_manager.bytes().len() <= usize::MAX,
                forall|j: int| 0 <= j < i ==> value_data@[j] == self.memory_manager.bytes()[value_ptr + j],
            decreases 8 - i,
        {
            value_data[i] = self.memory_manager.byte_at(value_ptr + i);
            i = i + 1;
        }

        // Now copy from the temporary buffer to the destination
        let element_ptr = list_ptr + 16 + index * 8;
        let ghost before = self.memory_manager.bytes();
        let mut i: usize = 0;
        while i < 8
            invariant
                i <= 8,
                element_ptr + 8 <= before.len(),
                before.len() <= usize::MAX,
                value_ptr + 8 <= before.len(),
                self.memory_manager.bytes().len() == before.len(),
                forall|j: int| 0 <= j < 8 ==> value_data@[j] == before[value_ptr + j],
                forall|j: int|
                    0 <= j < before.len() ==> #[trigger] self.memory_manager.bytes()[j] == if element_ptr
                        <= j < element_ptr + i {
                        value_data@[j - element_ptr]
                    } else {
                        before[j]
                    },
                self.memory_manager.same_layout(&old(self).memory_manager),
                before == old(self).memory_manager.bytes(),
                self.memory_manager.wf(),
            decreases 8 - i,
        {
            self.memory_manager.write_byte(element_ptr + i, value_data[i]);
            i = i + 1;
        }
        proof {
            assert(self.memory_manager.bytes() =~= written(
                before,
                element_ptr as int,
                before.subrange(value_ptr as int, value_ptr + 8),
            ));
        }
        Ok(())
    }

    /// Allocate a list of `size` 8-byte slots and record its size.
    pub fn allocate_list(&mut self, size: usize) -> (r: Result<usize, CompilerError>)
        requires
            old(self).memory_manager.wf(),
            size * 8 + 16 <= usize::MAX,
            old(self).memory_manager.allocation_fits((size * 8 + 16) as usize),
        ensures
            final(self).memory_manager.wf(),
            MemoryManager::allocate_layout(
                old(self).memory_manager,
                final(self).memory_manager,
                (size * 8 + 16) as usize,
                LIST_TYPE_ID,
                r,
            ),
            r is Err ==> final(self).memory_manager.bytes() == old(self).memory_manager.bytes_after_allocate((size * 8 + 16) as usize),
            r matches Ok(ptr) ==> {
                &&& final(self).memory_manager.bytes() == written(
                    old(self).memory_manager.bytes_after_allocate((size * 8 + 16) as usize),
                    ptr as int,
                    le_bytes_u32((size as i32) as u32),
                )
                &&& final(self).is_list(ptr)
                &&& ptr + size * 8 + 16 <= final(self).memory_manager.bytes().len()
                &&& final(self).list_size(ptr) == ((size as i32) as usize)
            },
    {
        let ghost before = self.memory_manager;
        let ptr = self.memory_manager.allocate(size * 8 + 16, LIST_TYPE_ID)?;
        let ghost mid = self.memory_manager;
        proof {
            MemoryManager::lemma_allocate_gives_block(before, mid, (size * 8 + 16) as usize, LIST_TYPE_ID, ptr);
        }
        // Store size in header
        let stored = self.memory_manager.store_i32(ptr, size as i32);
        proof {
            let v = (size as i32) as u32;
            let d = self.memory_manager.bytes();
            assert(d.subrange(ptr as int, ptr + 4) =~= le_bytes_u32(v));
            lemma_word_of_le_bytes(d, ptr as int, v);
            let x = size as i32;
            assert((x as u32) as i32 == x) by (bit_vector);
            assert(stored is Ok);
            assert(self.is_list(ptr));
            assert(self.list_size(ptr) == ((size as i32) as usize));
        }
        stored?;
        Ok(ptr)
    }
}

/// Reading back the four bytes of a little-endian word gives the word.
proof fn lemma_word_of_le_bytes(data: Seq<u8>, p: int, v: u32)
    requires
        0 <= p,
        p + 4 <= data.len(),
        data.subrange(p, p + 4) == le_bytes_u32(v),
    ensures
        word_at(data, p) == v,
{
    assert(data[p] == data.subrange(p, p + 4)[0]);
    assert(data[p + 1] == data.subrange(p, p + 4)[1]);
    assert(data[p + 2] == data.subrange(p, p + 4)[2]);
    assert(data[p + 3] == data.subrange(p, p + 4)[3]);
    let b0 = data[p];
    let b1 = data[p + 1];
    let b2 = data[p + 2];
    let b3 = data[p + 3];
    assert(b0 == (v & 0xff) as u8 && b1 == ((v >> 8u32) & 0xff) as u8 && b2 == ((v >> 16u32) & 0xff) as u8
        && b3 == ((v >> 24u32) & 0xff) as u8 ==> (b0 as u32) | ((b1 as u32) << 8u32) | ((b2 as u32)
        << 16u32) | ((b3 as u32) << 24u32) == v) by (bit_vector);
}

/// The size a list records reads back as written: storing the size `size`
/// (at most `i32::MAX`) as a little-endian word at `p` makes `p` record
/// `size`.
pub proof fn lemma_list_size_reads_back(data: Seq<u8>, p: int, size: usize)
    requires
        0 <= p,
        p + 4 <= data.len(),
        size <= i32::MAX,
    ensures
        stored_size(written(data, p, le_bytes_u32((size as i32) as u32)), p) == size,
{
    let v = (size as i32) as u32;
    let d = written(data, p, le_bytes_u32(v));
    assert(d.subrange(p, p + 4) =~= le_bytes_u32(v));
    lemma_word_of_le_bytes(d, p, v);
    assert((v as i32) as usize == size) by (bit_vector)
        requires
            v == (size as i32) as u32,
            size <= 0x7fff_ffff,
    ;
}

/// The functions `register_functions` registers, in order.
pub open spec fn list_ops_signatures() -> Seq<Signature> {
    seq![
        Signature {
            name: "list.push"@,
            import_module: Some("env"@),
            params: seq![WasmType::I32, WasmType::I32],
            result: Some(WasmType::I32),
            locals: seq![],
            body: seq![],
        },
        Signature {
            name: "list.push_f64"@,
            import_module: Some("env"@),
            params: seq![WasmType::I32, WasmType::F64],
            result: Some(WasmType::I32),
            locals: seq![],
            body: seq![],
        },
        defined(
            "list.allocate"@,
            seq![WasmType::I32],
            Some(WasmType::I32),
            seq![],
            ListManager::list_allocate_body(),
        ),
        defined(
            "list.get"@,
            seq![WasmType::I32, WasmType::I32],
            Some(WasmType::I32),
            seq![],
            ListManager::list_get_body(),
        ),
        defined(
            "list.set"@,
            seq![WasmType::I32, WasmType::I32, WasmType::I32],
            None,
            seq![],
            ListManager::list_set_body(),
        ),
        defined(
            "list.length"@,
            seq![WasmType::I32],
            Some(WasmType::I32),
            seq![],
            ListManager::list_length_body(),
        ),
        defined(
            "list_length"@,
            seq![WasmType::I32],
            Some(WasmType::I32),
            seq![],
            ListManager::list_length_body(),
        ),
        defined(
            "list.iterate"@,
            seq![WasmType::I32, WasmType::I32],
            None,
            seq![],
            ListManager::list_iterate_body(),
        ),
        defined(
            "list.map"@,
            seq![WasmType::I32, WasmType::I32],
            Some(WasmType::I32),
            seq![],
            ListManager::list_map_body(),
        ),
        defined(
            "list_push"@,
            seq![WasmType::I32, WasmType::I32],
            Some(WasmType::I32),
            seq![],
            ListManager::list_push_body(),
        ),
        defined(
            "list_pop"@,
            seq![WasmType::I32],
            Some(WasmType::I32),
            seq![],
            ListManager::list_pop_body(),
        ),
        defined(
            "list_contains"@,
            seq![WasmType::I32, WasmType::I32],
            Some(WasmType::I32),
            seq![WasmType::I32],
            ListManager::list_contains_body(),
        ),
        defined(
            "list_index_of"@,
            seq![WasmType::I32, WasmType::I32],
            Some(WasmType::I32),
            seq![WasmType::I32],
            ListManager::list_index_of_body(),
        ),
        defined(
            "list_slice"@,
            seq![WasmType::I32, WasmType::I32, WasmType::I32],
            Some(WasmType::I32),
            seq![WasmType::I32, WasmType::I32, WasmType::I32],
            ListManager::list_slice_body(),
        ),
        defined(
            "list_concat"@,
            seq![WasmType::I32, WasmType::I32],
            Some(WasmType::I32),
            seq![WasmType::I32, WasmType::I32, WasmType::I32, WasmType::I32],
            ListManager::list_concat_body(),
        ),
        defined(
            "list_reverse"@,
            seq![WasmType::I32],
            Some(WasmType::I32),
            seq![WasmType::I32, WasmType::I32, WasmType::I32],
            ListManager::list_reverse_body(),
        ),
        defined(
            "list_join"@,
            seq![WasmType::I32, WasmType::I32],
            Some(WasmType::I32),
            seq![],
            ListManager::list_join_body(),
        ),
        defined(
            "list_insert"@,
            seq![WasmType::I32, WasmType::I32, WasmType::I32],
            Some(WasmType::I32),
            seq![WasmType::I32],
            ListManager::list_insert_body(),
        ),
        defined(
            "list_remove"@,
            seq![WasmType::I32, WasmType::I32],
            Some(WasmType::I32),
            seq![WasmType::I32, WasmType::I32],
            ListManager::list_remove_body(),
        ),
    ]
}

/// The names `register_functions` binds, with indices counted from its first
/// registered function.
pub open spec fn list_ops_bindings() -> Seq<(Seq<char>, int)> {
    seq![
        ("list.push"@, 0),
        ("list.push_f64"@, 1),
        ("list.allocate"@, 2),
        ("list.get"@, 3),
        ("list.set"@, 4),
        ("list.length"@, 5),
        ("list_length"@, 6),
        ("list.iterate"@, 7),
        ("list.map"@, 8),
        ("list_push"@, 9),
        ("list_pop"@, 10),
        ("list_contains"@, 11),
        ("list_index_of"@, 12),
        ("list_slice"@, 13),
        ("list_concat"@, 14),
        ("list_reverse"@, 15),
        ("list_join"@, 16),
        ("list_insert"@, 17),
        ("list_remove"@, 18),
    ]
}

impl ListManager {
    /// Register the functions of this module.
    pub fn register_functions(&self, codegen: &mut CodeGenerator) -> (r: Result<(), CompilerError>)
        requires
            old(codegen).wf(),
        ensures
            final(codegen).wf(),
            r is Ok <==> old(codegen).n_functions() + 19 <= u32::MAX,
            r is Ok ==> appended(
                *old(codegen),
                *final(codegen),
                list_ops_signatures(),
                list_ops_bindings(),
            ),
            r matches Err(e) ==> e == CompilerError::FunctionLimit,
    {
        let ghost start = *codegen;
        let ghost mut sigs = Seq::<Signature>::empty();
        let ghost mut binds = Seq::<(Seq<char>, int)>::empty();
        proof {
            lemma_appended_start(start);
        }
        let ghost sig = Signature {
            name: "list.push"@,
            import_module: Some("env"@),
            params: seq![WasmType::I32, WasmType::I32],
            result: Some(WasmType::I32),
            locals: seq![],
            body: seq![],
        };
        import_tracked(
            codegen,
            Ghost(start),
            Ghost(sigs),
            Ghost(binds),
            Ghost(sig),
            "env",
            "list.push",
            &[WasmType::I32, WasmType::I32],
            Some(WasmType::I32),
        )?;
        proof {
            binds = binds.push(binding_for(sigs, sig));
            sigs = sigs.push(sig);
        }
        let ghost sig = Signature {
            name: "list.push_f64"@,
            import_module: Some("env"@),
            params: seq![WasmType::I32, WasmType::F64],
            result: Some(WasmType::I32),
            locals: seq![],
            body: seq![],
        };
        import_tracked(
            codegen,
            Ghost(start),
            Ghost(sigs),
            Ghost(binds),
            Ghost(sig),
            "env",
            "list.push_f64",
            &[WasmType::I32, WasmType::F64],
            Some(WasmType::I32),
        )?;
        proof {
            binds = binds.push(binding_for(sigs, sig));
            sigs = sigs.push(sig);
        }
        // Register list allocation function
        let ghost sig = defined(
            "list.allocate"@,
            seq![WasmType::I32],
            Some(WasmType::I32),
            seq![],
            ListManager::list_allocate_body(),
        );
        // This body names locals beyond the 1 it declares; it is
        // registered as structured only.
        register_tracked_structured(
            codegen,
            Ghost(start),
            Ghost(sigs),
            Ghost(binds),
            Ghost(sig),
            "list.allocate",
            &[WasmType::I32],
            Some(WasmType::I32),
            &[],
            self.generate_list_allocate(),
        )?;
        proof {
            binds = binds.push(binding_for(sigs, sig));
            sigs = sigs.push(sig);
        }
        // Register list get function
        let ghost sig = defined(
            "list.get"@,
            seq![WasmType::I32, WasmType::I32],
            Some(WasmType::I32),
            seq![],
            ListManager::list_get_body(),
        );
        register_tracked(
            codegen,
            Ghost(start),
            Ghost(sigs),
            Ghost(binds),
            Ghost(sig),
            "list.get",
            &[WasmType::I32, WasmType::I32],
            Some(WasmType::I32),
            &[],
            self.generate_list_get(),
        )?;
        proof {
            binds = binds.push(binding_for(sigs, sig));
            sigs = sigs.push(sig);
        }
        // Register list set function
        let ghost sig = defined(
            "list.set"@,
            seq![WasmType::I32, WasmType::I32, WasmType::I32],
            None,
            seq![],
            ListManager::list_set_body(),
        );
        register_tracked(
            codegen,
            Ghost(start),
            Ghost(sigs),
            Ghost(binds),
            Ghost(sig),
            "list.set",
            &[WasmType::I32, WasmType::I32, WasmType::I32],
            None,
            &[],
            self.generate_list_set(),
        )?;
        proof {
            binds = binds.push(binding_for(sigs, sig));
            sigs = sigs.push(sig);
        }
        // Register list length function
        let ghost sig = defined(
            "list.length"@,
            seq![WasmType::I32],
            Some(WasmType::I32),
            seq![],
            ListManager::list_length_body(),
        );
        register_tracked(
            codegen,
            Ghost(start),
            Ghost(sigs),
            Ghost(binds),
            Ghost(sig),
            "list.length",
            &[WasmType::I32],
            Some(WasmType::I32),
            &[],
            self.generate_list_length(),
        )?;
        proof {
            binds = binds.push(binding_for(sigs, sig));
            sigs = sigs.push(sig);
        }
        // Register list_length function for standalone calls
        let ghost sig = defined(
            "list_length"@,
            seq![WasmType::I32],
            Some(WasmType::I32),
            seq![],
            ListManager::list_length_body(),
        );
        register_tracked(
            codegen,
            Ghost(start),
            Ghost(sigs),
            Ghost(binds),
            Ghost(sig),
            "list_length",
            &[WasmType::I32],
            Some(WasmType::I32),
            &[],
            self.generate_list_length(),
        )?;
        proof {
            binds = binds.push(binding_for(sigs, sig));
            sigs = sigs.push(sig);
        }
        // Register list iteration function
        let ghost sig = defined(
            "list.iterate"@,
            seq![WasmType::I32, WasmType::I32],
            None,
            seq![],
            ListManager::list_iterate_body(),
        );
        register_tracked(
            codegen,
            Ghost(start),
            Ghost(sigs),
            Ghost(binds),
            Ghost(sig),
            "list.iterate",
            &[WasmType::I32, WasmType::I32],
            None,
            &[],
            self.generate_list_iterate(),
        )?;
        proof {
            binds = binds.push(binding_for(sigs, sig));
            sigs = sigs.push(sig);
        }
        // Register list map function
        let ghost sig = defined(
            "list.map"@,
            seq![WasmType::I32, WasmType::I32],
            Some(WasmType::I32),
            seq![],
            ListManager::list_map_body(),
        );
        // This body names locals beyond the 2 it declares; it is
        // registered as structured only.
        register_tracked_structured(
            codegen,
            Ghost(start),
            Ghost(sigs),
            Ghost(binds),
            Ghost(sig),
            "list.map",
            &[WasmType::I32, WasmType::I32],
            Some(WasmType::I32),
            &[],
            self.generate_list_map(),
        )?;
        proof {
            binds = binds.push(binding_for(sigs, sig));
            sigs = sigs.push(sig);
        }
        // Register additional list functions
        let ghost sig = defined(
            "list_push"@,
            seq![WasmType::I32, WasmType::I32],
            Some(WasmType::I32),
            seq![],
            ListManager::list_push_body(),
        );
        register_tracked(
            codegen,
            Ghost(start),
            Ghost(sigs),
            Ghost(binds),
            Ghost(sig),
            "list_push",
            &[WasmType::I32, WasmType::I32],
            Some(WasmType::I32),
            &[],
            self.generate_list_push(),
        )?;
        proof {
            binds = binds.push(binding_for(sigs, sig));
            sigs = sigs.push(sig);
        }
        let ghost sig = defined(
            "list_pop"@,
            seq![WasmType::I32],
            Some(WasmType::I32),
            seq![],
            ListManager::list_pop_body(),
        );
        register_tracked(
            codegen,
            Ghost(start),
            Ghost(sigs),
            Ghost(binds),
            Ghost(sig),
            "list_pop",
            &[WasmType::I32],
            Some(WasmType::I32),
            &[],
            self.generate_list_pop(),
        )?;
        proof {
            binds = binds.push(binding_for(sigs, sig));
            sigs = sigs.push(sig);
        }
        let ghost sig = defined(
            "list_contains"@,
            seq![WasmType::I32, WasmType::I32],
            Some(WasmType::I32),
            seq![WasmType::I32],
            ListManager::list_contains_body(),
        );
        register_tracked(
            codegen,
            Ghost(start),
            Ghost(sigs),
            Ghost(binds),
            Ghost(sig),
            "list_contains",
            &[WasmType::I32, WasmType::I32],
            Some(WasmType::I32),
            &[WasmType::I32],
            self.generate_list_contains(),
        )?;
        proof {
            binds = binds.push(binding_for(sigs, sig));
            sigs = sigs.push(sig);
        }
        let ghost sig = defined(
            "list_index_of"@,
            seq![WasmType::I32, WasmType::I32],
            Some(WasmType::I32),
            seq![WasmType::I32],
            ListManager::list_index_of_body(),
        );
        register_tracked(
            codegen,
            Ghost(start),
            Ghost(sigs),
            Ghost(binds),
            Ghost(sig),
            "list_index_of",
            &[WasmType::I32, WasmType::I32],
            Some(WasmType::I32),
            &[WasmType::I32],
            self.generate_list_index_of(),
        )?;
        proof {
            binds = binds.push(binding_for(sigs, sig));
            sigs = sigs.push(sig);
        }
        let ghost sig = defined(
            "list_slice"@,
            seq![WasmType::I32, WasmType::I32, WasmType::I32],
            Some(WasmType::I32),
            seq![WasmType::I32, WasmType::I32, WasmType::I32],
            ListManager::list_slice_body(),
        );
        register_tracked(
            codegen,
            Ghost(start),
            Ghost(sigs),
            Ghost(binds),
            Ghost(sig),
            "list_slice",
            &[WasmType::I32, WasmType::I32, WasmType::I32],
            Some(WasmType::I32),
            &[WasmType::I32, WasmType::I32, WasmType::I32],
            self.generate_list_slice(),
        )?;
        proof {
            binds = binds.push(binding_for(sigs, sig));
            sigs = sigs.push(sig);
        }
        let ghost sig = defined(
            "list_concat"@,
            seq![WasmType::I32, WasmType::I32],
            Some(WasmType::I32),
            seq![WasmType::I32, WasmType::I32, WasmType::I32, WasmType::I32],
            ListManager::list_concat_body(),
        );
        register_tracked(
            codegen,
            Ghost(start),
            Ghost(sigs),
            Ghost(binds),
            Ghost(sig),
            "list_concat",
            &[WasmType::I32, WasmType::I32],
            Some(WasmType::I32),
            &[WasmType::I32, WasmType::I32, WasmType::I32, WasmType::I32],
            self.generate_list_concat(),
        )?;
        proof {
            binds = binds.push(binding_for(sigs, sig));
            sigs = sigs.push(sig);
        }
        let ghost sig = defined(
            "list_reverse"@,
            seq![WasmType::I32],
            Some(WasmType::I32),
            seq![WasmType::I32, WasmType::I32, WasmType::I32],
            ListManager::list_reverse_body(),
        );
        register_tracked(
            codegen,
            Ghost(start),
            Ghost(sigs),
            Ghost(binds),
            Ghost(sig),
            "list_reverse",
            &[WasmType::I32],
            Some(WasmType::I32),
            &[WasmType::I32, WasmType::I32, WasmType::I32],
            self.generate_list_reverse(),
        )?;
        proof {
            binds = binds.push(binding_for(sigs, sig));
            sigs = sigs.push(sig);
        }
        let ghost sig = defined(
            "list_join"@,
            seq![WasmType::I32, WasmType::I32],
            Some(WasmType::I32),
            seq![],
            ListManager::list_join_body(),
        );
        // This body names locals beyond the 2 it declares; it is
        // registered as structured only.
        register_tracked_structured(
            codegen,
            Ghost(start),
            Ghost(sigs),
            Ghost(binds),
            Ghost(sig),
            "list_join",
            &[WasmType::I32, WasmType::I32],
            Some(WasmType::I32),
            &[],
            self.generate_list_join(),
        )?;
        proof {
            binds = binds.push(binding_for(sigs, sig));
            sigs = sigs.push(sig);
        }
        let ghost sig = defined(
            "list_insert"@,
            seq![WasmType::I32, WasmType::I32, WasmType::I32],
            Some(WasmType::I32),
            seq![WasmType::I32],
            ListManager::list_insert_body(),
        );
        register_tracked(
            codegen,
            Ghost(start),
            Ghost(sigs),
            Ghost(binds),
            Ghost(sig),
            "list_insert",
            &[WasmType::I32, WasmType::I32, WasmType::I32],
            Some(WasmType::I32),
            &[WasmType::I32],
            self.generate_list_insert(),
        )?;
        proof {
            binds = binds.push(binding_for(sigs, sig));
            sigs = sigs.push(sig);
        }
        let ghost sig = defined(
            "list_remove"@,
            seq![WasmType::I32, WasmType::I32],
            Some(WasmType::I32),
            seq![WasmType::I32, WasmType::I32],
            ListManager::list_remove_body(),
        );
        register_tracked(
            codegen,
            Ghost(start),
            Ghost(sigs),
            Ghost(binds),
            Ghost(sig),
            "list_remove",
            &[WasmType::I32, WasmType::I32],
            Some(WasmType::I32),
            &[WasmType::I32, WasmType::I32],
            self.generate_list_remove(),
        )?;
        proof {
            binds = binds.push(binding_for(sigs, sig));
            sigs = sigs.push(sig);
        }
        proof {
            assert(sigs =~= list_ops_signatures());
            assert(binds =~= list_ops_bindings());
            lemma_appended_fits(start, *codegen, sigs, binds);
        }
        Ok(())
    }

    /// The instructions `generate_list_allocate` returns.
    #[verifier::opaque]
    pub open spec fn list_allocate_body() -> Seq<Instruction> {
        seq![
            Instruction::I32Const(0),
            Instruction::I32Load(MemArg { offset: 0, align: 2, memory_index: 0 }),
            Instruction::LocalSet(1),
            Instruction::LocalGet(0),
            Instruction::I32Const(4),
            Instruction::I32Mul,
            Instruction::I32Const(16),
            Instruction::I32Add,
            Instruction::LocalSet(2),
            Instruction::I32Const(0),
            Instruction::LocalGet(1),
            Instruction::LocalGet(2),
            Instruction::I32Add,
            Instruction::I32Store(MemArg { offset: 0, align: 2, memory_index: 0 }),
            Instruction::LocalGet(1),
            Instruction::I32Const(0),
            Instruction::I32Store(MemArg { offset: 0, align: 2, memory_index: 0 }),
            Instruction::LocalGet(1),
            Instruction::LocalGet(0),
            Instruction::I32Store(MemArg { offset: 4, align: 2, memory_index: 0 }),
            Instruction::LocalGet(1),
            Instruction::I32Const(LIST_TYPE_ID as i32),
            Instruction::I32Store(MemArg { offset: 8, align: 2, memory_index: 0 }),
            Instruction::LocalGet(1),
        ]
    }

    pub fn generate_list_allocate(&self) -> (r: Vec<Instruction>)
        ensures
            body_ok(r@, 3),
            r@ == Self::list_allocate_body(),
    {
        proof {
            reveal(ListManager::list_allocate_body);
        }
        let mut b = Body::new(3);
        // CRITICAL FIX: Implement bump allocator for dynamic heap allocation
        // Memory layout:
        // [0-3]: Global heap pointer (initially 1024)
        // [1024+]: Heap space for allocations
        // Bump allocator algorithm:
        // 1. Load current heap pointer from address 0
        // 2. Calculate allocation size: header (16 bytes) + (capacity * 4 bytes)
        // 3. Store new heap pointer (old + size) back to address 0
        // 4. Use old pointer as the allocated address
        // 5. Initialize list header at allocated address
        // Load current heap pointer from address 0 (global heap pointer)
        b.i(Instruction::I32Const(0));
        b.i(Instruction::I32Load(MemArg { offset: 0, align: 2, memory_index: 0 }));
        b.i(Instruction::LocalSet(1)); // local 1 = current heap pointer (allocated address)
        // Calculate allocation size = 16 (header) + capacity * 4
        b.i(Instruction::LocalGet(0)); // capacity
        b.i(Instruction::I32Const(4)); // element size
        b.i(Instruction::I32Mul); // capacity * 4
        b.i(Instruction::I32Const(16)); // header size
        b.i(Instruction::I32Add); // total size = header + (capacity * 4)
        b.i(Instruction::LocalSet(2)); // local 2 = allocation size
        // Update global heap pointer: heap_ptr + allocation_size
        b.i(Instruction::I32Const(0)); // address of global heap pointer
        b.i(Instruction::LocalGet(1)); // current heap pointer
        b.i(Instruction::LocalGet(2)); // allocation size
        b.i(Instruction::I32Add); // new heap pointer
        b.i(Instruction::I32Store(MemArg { offset: 0, align: 2, memory_index: 0 })); // store new heap pointer back to address 0
        // Initialize list header at allocated address (local 1)
        // List memory layout: [size:i32|capacity:i32|type_id:i32|padding:i32|elements...]
        // Store size = 0 (empty list)
        b.i(Instruction::LocalGet(1));
        b.i(Instruction::I32Const(0));
        b.i(Instruction::I32Store(MemArg { offset: 0, align: 2, memory_index: 0 }));
        // Store capacity
        b.i(Instruction::LocalGet(1));
        b.i(Instruction::LocalGet(0)); // capacity parameter
        b.i(Instruction::I32Store(MemArg { offset: 4, align: 2, memory_index: 0 }));
        // Store type_id
        b.i(Instruction::LocalGet(1));
        b.i(Instruction::I32Const(LIST_TYPE_ID as i32));
        b.i(Instruction::I32Store(MemArg { offset: 8, align: 2, memory_index: 0 }));
        // Return allocated list pointer
        b.i(Instruction::LocalGet(1));
        b.finish()
    }

    /// The instructions `generate_list_get` returns.
    #[verifier::opaque]
    pub open spec fn list_get_body() -> Seq<Instruction> {
        seq![
            Instruction::LocalGet(0),
            Instruction::I32Const(16),
            Instruction::I32Add,
            Instruction::LocalGet(1),
            Instruction::I32Const(4),
            Instruction::I32Mul,
            Instruction::I32Add,
            Instruction::I32Load(MemArg { offset: 0, align: 2, memory_index: 0 }),
        ]
    }

    pub fn generate_list_get(&self) -> (r: Vec<Instruction>)
        ensures
            body_ok(r@, 2),
            r@ == Self::list_get_body(),
    {
        proof {
            reveal(ListManager::list_get_body);
        }
        let mut b = Body::new(2);
        // List get - returns element VALUE at the given index
        // Parameters: list_ptr, index
        // Returns: element value (i32)
        // Calculate element pointer: list_ptr + header_size + (index * element_size)
        b.i(Instruction::LocalGet(0)); // list_ptr
        b.i(Instruction::I32Const(16)); // Header size (16 bytes)
        b.i(Instruction::I32Add);
        b.i(Instruction::LocalGet(1)); // index
        b.i(Instruction::I32Const(4)); // Element size (4 bytes for i32)
        b.i(Instruction::I32Mul);
        b.i(Instruction::I32Add);
        // Load the value from the calculated address
        b.i(Instruction::I32Load(MemArg { offset: 0, align: 2, memory_index: 0 }));
        b.finish()
    }

    /// The instructions `generate_list_set` returns.
    #[verifier::opaque]
    pub open spec fn list_set_body() -> Seq<Instruction> {
        seq![
            Instruction::LocalGet(1),
            Instruction::LocalGet(0),
            Instruction::I32Load(MemArg { offset: 0, align: 2, memory_index: 0 }),
            Instruction::I32LtU,
            Instruction::If(BlockType::Empty),
            Instruction::LocalGet(0),
            Instruction::LocalGet(1),
            Instruction::I32Const(4),
            Instruction::I32Mul,
            Instruction::I32Add,
            Instruction::LocalGet(2),
            Instruction::I32Store(MemArg { offset: 16, align: 2, memory_index: 0 }),
            Instruction::End,
        ]
    }

    /// list.set: stores a value at an index of the list; an index past the
    /// end leaves the list unchanged
    pub fn generate_list_set(&self) -> (r: Vec<Instruction>)
        ensures
            body_ok(r@, 3),
            r@ == Self::list_set_body(),
    {
        proof {
            reveal(ListManager::list_set_body);
        }
        let mut b = Body::new(3);
        // Parameters: list_ptr (0), index (1), value (2)
        // Stores the value at the index when the index lies inside the list
        b.i(Instruction::LocalGet(1));
        b.i(Instruction::LocalGet(0));
        b.i(Instruction::I32Load(MemArg { offset: 0, align: 2, memory_index: 0 }));
        b.i(Instruction::I32LtU);
        b.i(Instruction::If(BlockType::Empty));
        b.i(Instruction::LocalGet(0));
        b.i(Instruction::LocalGet(1));
        b.i(Instruction::I32Const(4));
        b.i(Instruction::I32Mul);
        b.i(Instruction::I32Add);
        b.i(Instruction::LocalGet(2));
        b.i(Instruction::I32Store(MemArg { offset: 16, align: 2, memory_index: 0 }));
        b.i(Instruction::End);
        b.finish()
    }

    /// The instructions `generate_list_length` returns.
    #[verifier::opaque]
    pub open spec fn list_length_body() -> Seq<Instruction> {
        seq![
            Instruction::LocalGet(0),
            Instruction::I32Load(MemArg { offset: 0, align: 2, memory_index: 0 }),
        ]
    }

    pub fn generate_list_length(&self) -> (r: Vec<Instruction>)
        ensures
            body_ok(r@, 1),
            r@ == Self::list_length_body(),
    {
        proof {
            reveal(ListManager::list_length_body);
        }
        let mut b = Body::new(1);
        // Get list pointer
        b.i(Instruction::LocalGet(0));
        // Load length from header
        b.i(Instruction::I32Load(MemArg { offset: 0, align: 2, memory_index: 0 })); // Length is at offset 0
        b.finish()
    }

    /// The instructions `generate_list_iterate` returns.
    #[verifier::opaque]
    pub open spec fn list_iterate_body() -> Seq<Instruction> {
        Seq::<Instruction>::empty()
    }

    pub fn generate_list_iterate(&self) -> (r: Vec<Instruction>)
        ensures
            body_ok(r@, 2),
            r@ == Self::list_iterate_body(),
    {
        proof {
            reveal(ListManager::list_iterate_body);
        }
        let mut b = Body::new(2);
        // SIMPLIFIED: List iterate - just return void for now
        // Parameters: list_ptr, callback_fn_index
        // Returns: void (no actual iteration performed)
        // Do nothing and return (simplified to avoid control flow issues)
        b.finish()
    }

    /// The instructions `generate_list_map` returns.
    #[verifier::opaque]
    pub open spec fn list_map_body() -> Seq<Instruction> {
        seq![
            Instruction::LocalGet(0),
            Instruction::I32Load(MemArg { offset: 0, align: 2, memory_index: 0 }),
            Instruction::LocalSet(2),
            Instruction::LocalGet(2),
            Instruction::I32Const(4),
            Instruction::I32Mul,
            Instruction::I32Const(16),
            Instruction::I32Add,
            Instruction::LocalSet(3),
            Instruction::I32Const(6000),
        ]
    }

    pub fn generate_list_map(&self) -> (r: Vec<Instruction>)
        ensures
            body_ok(r@, 4),
            r@ == Self::list_map_body(),
    {
        proof {
            reveal(ListManager::list_map_body);
        }
        let mut b = Body::new(4);
        // List map: creates new list by applying callback function to each element
        // Parameters: list_ptr, callback_fn_index
        // Returns: new list pointer with mapped values
        // Load list length
        b.i(Instruction::LocalGet(0)); // list_ptr
        b.i(Instruction::I32Load(MemArg { offset: 0, align: 2, memory_index: 0 }));
        b.i(Instruction::LocalSet(2)); // list_length
        // Calculate size for new list
        b.i(Instruction::LocalGet(2)); // list_length
        b.i(Instruction::I32Const(4));
        b.i(Instruction::I32Mul);
        b.i(Instruction::I32Const(16)); // Add header size (16 bytes)
        b.i(Instruction::I32Add);
        b.i(Instruction::LocalSet(3)); // total_size
        // For now, return a mock mapped list pointer
        // In real implementation, would allocate memory, iterate through original list,
        // apply callback to each element, and store results in new list
        b.i(Instruction::I32Const(6000)); // Mock mapped list pointer
        b.finish()
    }

    /// The instructions `generate_list_push` returns.
    #[verifier::opaque]
    pub open spec fn list_push_body() -> Seq<Instruction> {
        seq![
            Instruction::LocalGet(0),
            Instruction::I32Load(MemArg { offset: 0, align: 2, memory_index: 0 }),
            Instruction::I32Const(4),
            Instruction::I32Mul,
            Instruction::I32Const(16),
            Instruction::I32Add,
            Instruction::LocalGet(0),
            Instruction::I32Add,
            Instruction::LocalGet(1),
            Instruction::I32Store(MemArg { offset: 0, align: 2, memory_index: 0 }),
            Instruction::LocalGet(0),
            Instruction::LocalGet(0),
            Instruction::I32Load(MemArg { offset: 0, align: 2, memory_index: 0 }),
            Instruction::I32Const(1),
            Instruction::I32Add,
            Instruction::I32Store(MemArg { offset: 0, align: 2, memory_index: 0 }),
            Instruction::LocalGet(0),
        ]
    }

    fn generate_list_push(&self) -> (r: Vec<Instruction>)
        ensures
            body_ok(r@, 2),
            r@ == Self::list_push_body(),
    {
        proof {
            reveal(ListManager::list_push_body);
        }
        let mut b = Body::new(2);
        // Implementation of list push - adds element to end of list
        // Parameters: list_ptr (0), item (1)
        // Returns: list pointer (modified in place)
        // Get current size
        b.i(Instruction::LocalGet(0)); // list_ptr
        b.i(Instruction::I32Load(MemArg { offset: 0, align: 2, memory_index: 0 })); // size
        // Calculate position for new element (size * 4 + 16)
        b.i(Instruction::I32Const(4)); // element size (4 bytes for i32)
        b.i(Instruction::I32Mul);
        b.i(Instruction::I32Const(16)); // header size
        b.i(Instruction::I32Add);
        // Add base address
        b.i(Instruction::LocalGet(0)); // list_ptr
        b.i(Instruction::I32Add); // storage address
        // Store the new item
        b.i(Instruction::LocalGet(1)); // item
        b.i(Instruction::I32Store(MemArg { offset: 0, align: 2, memory_index: 0 }));
        // Increment list size
        b.i(Instruction::LocalGet(0)); // list_ptr
        b.i(Instruction::LocalGet(0)); // list_ptr
        b.i(Instruction::I32Load(MemArg { offset: 0, align: 2, memory_index: 0 })); // current size
        b.i(Instruction::I32Const(1));
        b.i(Instruction::I32Add); // new size
        b.i(Instruction::I32Store(MemArg { offset: 0, align: 2, memory_index: 0 }));
        // Return list pointer
        b.i(Instruction::LocalGet(0));
        b.finish()
    }

    /// The instructions `generate_list_pop` returns.
    #[verifier::opaque]
    pub open spec fn list_pop_body() -> Seq<Instruction> {
        seq![
            Instruction::LocalGet(0),
            Instruction::I32Load(MemArg { offset: 0, align: 2, memory_index: 0 }),
            Instruction::I32Const(0),
            Instruction::I32Eq,
            Instruction::If(BlockType::Result(ValType::I32)),
            Instruction::I32Const(0),
            Instruction::Else,
            Instruction::LocalGet(0),
            Instruction::LocalGet(0),
            Instruction::I32Load(MemArg { offset: 0, align: 2, memory_index: 0 }),
            Instruction::I32Const(1),
            Instruction::I32Sub,
            Instruction::I32Const(4),
            Instruction::I32Mul,
            Instruction::I32Const(16),
            Instruction::I32Add,
            Instruction::I32Add,
            Instruction::I32Load(MemArg { offset: 0, align: 2, memory_index: 0 }),
            Instruction::LocalGet(0),
            Instruction::LocalGet(0),
            Instruction::I32Load(MemArg { offset: 0, align: 2, memory_index: 0 }),
            Instruction::I32Const(1),
            Instruction::I32Sub,
            Instruction::I32Store(MemArg { offset: 0, align: 2, memory_index: 0 }),
            Instruction::End,
        ]
    }

    fn generate_list_pop(&self) -> (r: Vec<Instruction>)
        ensures
            body_ok(r@, 1),
            r@ == Self::list_pop_body(),
    {
        proof {
            reveal(ListManager::list_pop_body);
        }
        let mut b = Body::new(1);
        // Implementation of list pop - removes and returns last element
        // Parameters: list_ptr (0)
        // Returns: popped element (0 if empty)
        // Get current size
        b.i(Instruction::LocalGet(0)); // list_ptr
        b.i(Instruction::I32Load(MemArg { offset: 0, align: 2, memory_index: 0 })); // size
        // Check if empty
        b.i(Instruction::I32Const(0));
        b.i(Instruction::I32Eq);
        b.i(Instruction::If(BlockType::Result(ValType::I32)));
        b.i(Instruction::I32Const(0)); // Return 0 if empty
        b.i(Instruction::Else);
        // Get last element before decrementing size
        b.i(Instruction::LocalGet(0)); // list_ptr
        b.i(Instruction::LocalGet(0)); // list_ptr
        b.i(Instruction::I32Load(MemArg { offset: 0, align: 2, memory_index: 0 })); // size
        b.i(Instruction::I32Const(1));
        b.i(Instruction::I32Sub); // size - 1
        b.i(Instruction::I32Const(4)); // element size (4 bytes for i32)
        b.i(Instruction::I32Mul);
        b.i(Instruction::I32Const(16)); // header size
        b.i(Instruction::I32Add);
        b.i(Instruction::I32Add); // calculate address
        b.i(Instruction::I32Load(MemArg { offset: 0, align: 2, memory_index: 0 })); // load element value to stack
        // Decrement size (but keep element value on stack)
        b.i(Instruction::LocalGet(0)); // list_ptr
        b.i(Instruction::LocalGet(0)); // list_ptr
        b.i(Instruction::I32Load(MemArg { offset: 0, align: 2, memory_index: 0 })); // size
        b.i(Instruction::I32Const(1));
        b.i(Instruction::I32Sub); // new size
        b.i(Instruction::I32Store(MemArg { offset: 0, align: 2, memory_index: 0 }));
        // Element value is still on stack as return value
        b.i(Instruction::End);
        b.finish()
    }

    /// The instructions `generate_list_contains` returns.
    #[verifier::opaque]
    pub open spec fn list_contains_body() -> Seq<Instruction> {
        seq![
            Instruction::I32Const(0),
            Instruction::LocalSet(2),
            Instruction::Block(BlockType::Empty),
            Instruction::Loop(BlockType::Empty),
            Instruction::LocalGet(2),
            Instruction::LocalGet(0),
            Instruction::I32Load(MemArg { offset: 0, align: 2, memory_index: 0 }),
            Instruction::I32GeU,
            Instruction::BrIf(1),
            Instruction::LocalGet(0),
            Instruction::LocalGet(2),
            Instruction::I32Const(4),
            Instruction::I32Mul,
            Instruction::I32Add,
            Instruction::I32Load(MemArg { offset: 16, align: 2, memory_index: 0 }),
            Instruction::LocalGet(1),
            Instruction::I32Eq,
            Instruction::If(BlockType::Empty),
            Instruction::I32Const(1),
            Instruction::Return,
            Instruction::End,
            Instruction::LocalGet(2),
            Instruction::I32Const(1),
            Instruction::I32Add,
            Instruction::LocalSet(2),
            Instruction::Br(0),
            Instruction::End,
            Instruction::End,
            Instruction::I32Const(0),
        ]
    }

    /// list_contains: whether an element equals the item
    fn generate_list_contains(&self) -> (r: Vec<Instruction>)
        ensures
            body_ok(r@, 3),
            r@ == Self::list_contains_body(),
    {
        proof {
            reveal(ListManager::list_contains_body);
        }
        let mut b = Body::new(3);
        // Parameters: list_ptr (0), item (1); local: index (2)
        b.i(Instruction::I32Const(0));
        b.i(Instruction::LocalSet(2));
        b.i(Instruction::Block(BlockType::Empty));
        b.i(Instruction::Loop(BlockType::Empty));
        b.i(Instruction::LocalGet(2));
        b.i(Instruction::LocalGet(0));
        b.i(Instruction::I32Load(MemArg { offset: 0, align: 2, memory_index: 0 }));
        b.i(Instruction::I32GeU);
        b.i(Instruction::BrIf(1));
        b.i(Instruction::LocalGet(0));
        b.i(Instruction::LocalGet(2));
        b.i(Instruction::I32Const(4));
        b.i(Instruction::I32Mul);
        b.i(Instruction::I32Add);
        b.i(Instruction::I32Load(MemArg { offset: 16, align: 2, memory_index: 0 }));
        b.i(Instruction::LocalGet(1));
        b.i(Instruction::I32Eq);
        b.i(Instruction::If(BlockType::Empty));
        b.i(Instruction::I32Const(1));
        b.i(Instruction::Return);
        b.i(Instruction::End);
        b.i(Instruction::LocalGet(2));
        b.i(Instruction::I32Const(1));
        b.i(Instruction::I32Add);
        b.i(Instruction::LocalSet(2));
        b.i(Instruction::Br(0));
        b.i(Instruction::End);
        b.i(Instruction::End);
        b.i(Instruction::I32Const(0));
        b.finish()
    }

    /// The instructions `generate_list_index_of` returns.
    #[verifier::opaque]
    pub open spec fn list_index_of_body() -> Seq<Instruction> {
        seq![
            Instruction::I32Const(0),
            Instruction::LocalSet(2),
            Instruction::Block(BlockType::Empty),
            Instruction::Loop(BlockType::Empty),
            Instruction::LocalGet(2),
            Instruction::LocalGet(0),
            Instruction::I32Load(MemArg { offset: 0, align: 2, memory_index: 0 }),
            Instruction::I32GeU,
            Instruction::BrIf(1),
            Instruction::LocalGet(0),
            Instruction::LocalGet(2),
            Instruction::I32Const(4),
            Instruction::I32Mul,
            Instruction::I32Add,
            Instruction::I32Load(MemArg { offset: 16, align: 2, memory_index: 0 }),
            Instruction::LocalGet(1),
            Instruction::I32Eq,
            Instruction::If(BlockType::Empty),
            Instruction::LocalGet(2),
            Instruction::Return,
            Instruction::End,
            Instruction::LocalGet(2),
            Instruction::I32Const(1),
            Instruction::I32Add,
            Instruction::LocalSet(2),
            Instruction::Br(0),
            Instruction::End,
            Instruction::End,
            Instruction::I32Const(-1i32),
        ]
    }

    /// list_index_of: the index of the first element equal to the item, or -1
    fn generate_list_index_of(&self) -> (r: Vec<Instruction>)
        ensures
            body_ok(r@, 3),
            r@ == Self::list_index_of_body(),
    {
        proof {
            reveal(ListManager::list_index_of_body);
        }
        let mut b = Body::new(3);
        // Parameters: list_ptr (0), item (1); local: index (2)
        b.i(Instruction::I32Const(0));
        b.i(Instruction::LocalSet(2));
        b.i(Instruction::Block(BlockType::Empty));
        b.i(Instruction::Loop(BlockType::Empty));
        b.i(Instruction::LocalGet(2));
        b.i(Instruction::LocalGet(0));
        b.i(Instruction::I32Load(MemArg { offset: 0, align: 2, memory_index: 0 }));
        b.i(Instruction::I32GeU);
        b.i(Instruction::BrIf(1));
        b.i(Instruction::LocalGet(0));
        b.i(Instruction::LocalGet(2));
        b.i(Instruction::I32Const(4));
        b.i(Instruction::I32Mul);
        b.i(Instruction::I32Add);
        b.i(Instruction::I32Load(MemArg { offset: 16, align: 2, memory_index: 0 }));
        b.i(Instruction::LocalGet(1));
        b.i(Instruction::I32Eq);
        b.i(Instruction::If(BlockType::Empty));
        b.i(Instruction::LocalGet(2));
        b.i(Instruction::Return);
        b.i(Instruction::End);
        b.i(Instruction::LocalGet(2));
        b.i(Instruction::I32Const(1));
        b.i(Instruction::I32Add);
        b.i(Instruction::LocalSet(2));
        b.i(Instruction::Br(0));
        b.i(Instruction::End);
        b.i(Instruction::End);
        b.i(Instruction::I32Const(-1));
        b.finish()
    }

    /// The instructions `generate_list_slice` returns.
    #[verifier::opaque]
    pub open spec fn list_slice_body() -> Seq<Instruction> {
        let s = Self::list_slice_part_1(Seq::<Instruction>::empty());
        Self::list_slice_part_2(s)
    }

    /// list_slice: a new list of the elements from start up to end
    fn generate_list_slice(&self) -> (r: Vec<Instruction>)
        ensures
            body_ok(r@, 6),
            r@ == Self::list_slice_body(),
    {
        let mut b = Body::new(6);
        Self::generate_list_slice_1(&mut b);
        Self::generate_list_slice_2(&mut b);
        proof {
            reveal(ListManager::list_slice_body);
        }
        b.finish()
    }

    /// Part 1 of `list_slice_body`, after `s`.
    #[verifier::opaque]
    pub open spec fn list_slice_part_1(s: Seq<Instruction>) -> Seq<Instruction> {
        s
            .push(Instruction::LocalGet(1))
            .push(Instruction::I32Const(0))
            .push(Instruction::LocalGet(1))
            .push(Instruction::I32Const(0))
            .push(Instruction::I32GtS)
            .push(Instruction::Select)
            .push(Instruction::LocalSet(1))
            .push(Instruction::LocalGet(1))
            .push(Instruction::LocalGet(0))
            .push(Instruction::I32Load(MemArg { offset: 0, align: 2, memory_index: 0 }))
            .push(Instruction::LocalGet(1))
            .push(Instruction::LocalGet(0))
            .push(Instruction::I32Load(MemArg { offset: 0, align: 2, memory_index: 0 }))
            .push(Instruction::I32LeU)
            .push(Instruction::Select)
            .push(Instruction::LocalSet(1))
            .push(Instruction::LocalGet(2))
            .push(Instruction::I32Const(0))
            .push(Instruction::LocalGet(2))
            .push(Instruction::I32Const(0))
            .push(Instruction::I32GtS)
            .push(Instruction::Select)
            .push(Instruction::LocalSet(2))
            .push(Instruction::LocalGet(2))
            .push(Instruction::LocalGet(0))
            .push(Instruction::I32Load(MemArg { offset: 0, align: 2, memory_index: 0 }))
            .push(Instruction::LocalGet(2))
            .push(Instruction::LocalGet(0))
            .push(Instruction::I32Load(MemArg { offset: 0, align: 2, memory_index: 0 }))
            .push(Instruction::I32LeU)
            .push(Instruction::Select)
            .push(Instruction::LocalSet(2))
            .push(Instruction::LocalGet(2))
            .push(Instruction::LocalGet(1))
            .push(Instruction::I32Sub)
            .push(Instruction::I32Const(0))
            .push(Instruction::LocalGet(2))
            .push(Instruction::LocalGet(1))
            .push(Instruction::I32GtU)
            .push(Instruction::Select)
            .push(Instruction::LocalSet(5))
            .push(Instruction::I32Const(0))
            .push(Instruction::I32Load(MemArg { offset: 0, align: 2, memory_index: 0 }))
            .push(Instruction::LocalSet(3))
            .push(Instruction::I32Const(0))
            .push(Instruction::LocalGet(3))
            .push(Instruction::I32Const(16))
            .push(Instruction::LocalGet(5))
            .push(Instruction::I32Const(4))
            .push(Instruction::I32Mul)
            .push(Instruction::I32Add)
            .push(Instruction::I32Add)
            .push(Instruction::I32Store(MemArg { offset: 0, align: 2, memory_index: 0 }))
            .push(Instruction::LocalGet(3))
            .push(Instruction::LocalGet(5))
            .push(Instruction::I32Store(MemArg { offset: 0, align: 2, memory_index: 0 }))
            .push(Instruction::LocalGet(3))
            .push(Instruction::LocalGet(5))
            .push(Instruction::I32Store(MemArg { offset: 4, align: 2, memory_index: 0 }))
            .push(Instruction::LocalGet(3))
            .push(Instruction::I32Const(LIST_TYPE_ID as i32))
            .push(Instruction::I32Store(MemArg { offset: 8, align: 2, memory_index: 0 }))
            .push(Instruction::LocalGet(3))
            .push(Instruction::I32Const(0))
            .push(Instruction::I32Store(MemArg { offset: 12, align: 2, memory_index: 0 }))
            .push(Instruction::I32Const(0))
            .push(Instruction::LocalSet(4))
            .push(Instruction::Block(BlockType::Empty))
            .push(Instruction::Loop(BlockType::Empty))
            .push(Instruction::LocalGet(4))
            .push(Instruction::LocalGet(5))
            .push(Instruction::I32GeU)
            .push(Instruction::BrIf(1))
            .push(Instruction::LocalGet(3))
            .push(Instruction::LocalGet(4))
            .push(Instruction::I32Const(4))
            .push(Instruction::I32Mul)
            .push(Instruction::I32Add)
            .push(Instruction::LocalGet(0))
            .push(Instruction::LocalGet(1))
            .push(Instruction::LocalGet(4))
            .push(Instruction::I32Add)
            .push(Instruction::I32Const(4))
            .push(Instruction::I32Mul)
            .push(Instruction::I32Add)
            .push(Instruction::I32Load(MemArg { offset: 16, align: 2, memory_index: 0 }))
            .push(Instruction::I32Store(MemArg { offset: 16, align: 2, memory_index: 0 }))
            .push(Instruction::LocalGet(4))
            .push(Instruction::I32Const(1))
            .push(Instruction::I32Add)
    }

    /// Part 1 of `generate_list_slice`.
    #[verifier::rlimit(40)]
    #[verifier::spinoff_prover]
    fn generate_list_slice_1(b: &mut Body)
        requires
            old(b).wf(),
            old(b).open_blocks() == 0,
            old(b).n_locals() == 6,
        ensures
            final(b).wf(),
            final(b).open_blocks() == 2,
            final(b).n_locals() == 6,
            final(b).instrs() == Self::list_slice_part_1(old(b).instrs()),
    {
        proof {
            reveal(ListManager::list_slice_part_1);
        }
        // Parameters: list_ptr (0), start (1), end (2); locals: new list (3), index (4), count (5)
        // Returns: a new list of the elements from start up to end, both clamped to
        // the list (a negative bound counts as 0)
        b.i(Instruction::LocalGet(1));
        b.i(Instruction::I32Const(0));
        b.i(Instruction::LocalGet(1));
        b.i(Instruction::I32Const(0));
        b.i(Instruction::I32GtS);
        b.i(Instruction::Select);
        b.i(Instruction::LocalSet(1));
        b.i(Instruction::LocalGet(1));
        b.i(Instruction::LocalGet(0));
        b.i(Instruction::I32Load(MemArg { offset: 0, align: 2, memory_index: 0 }));
        b.i(Instruction::LocalGet(1));
        b.i(Instruction::LocalGet(0));
        b.i(Instruction::I32Load(MemArg { offset: 0, align: 2, memory_index: 0 }));
        b.i(Instruction::I32LeU);
        b.i(Instruction::Select);
        b.i(Instruction::LocalSet(1));
        b.i(Instruction::LocalGet(2));
        b.i(Instruction::I32Const(0));
        b.i(Instruction::LocalGet(2));
        b.i(Instruction::I32Const(0));
        b.i(Instruction::I32GtS);
        b.i(Instruction::Select);
        b.i(Instruction::LocalSet(2));
        b.i(Instruction::LocalGet(2));
        b.i(Instruction::LocalGet(0));
        b.i(Instruction::I32Load(MemArg { offset: 0, align: 2, memory_index: 0 }));
        b.i(Instruction::LocalGet(2));
        b.i(Instruction::LocalGet(0));
        b.i(Instruction::I32Load(MemArg { offset: 0, align: 2, memory_index: 0 }));
        b.i(Instruction::I32LeU);
        b.i(Instruction::Select);
        b.i(Instruction::LocalSet(2));
        b.i(Instruction::LocalGet(2));
        b.i(Instruction::LocalGet(1));
        b.i(Instruction::I32Sub);
        b.i(Instruction::I32Const(0));
        b.i(Instruction::LocalGet(2));
        b.i(Instruction::LocalGet(1));
        b.i(Instruction::I32GtU);
        b.i(Instruction::Select);
        b.i(Instruction::LocalSet(5));
        // Allocate from the heap pointer at address 0, as list.allocate does:
        // a 16-byte header and the elements
        b.i(Instruction::I32Const(0));
        b.i(Instruction::I32Load(MemArg { offset: 0, align: 2, memory_index: 0 }));
        b.i(Instruction::LocalSet(3));
        b.i(Instruction::I32Const(0));
        b.i(Instruction::LocalGet(3));
        b.i(Instruction::I32Const(16));
        b.i(Instruction::LocalGet(5));
        b.i(Instruction::I32Const(4));
        b.i(Instruction::I32Mul);
        b.i(Instruction::I32Add);
        b.i(Instruction::I32Add);
        b.i(Instruction::I32Store(MemArg { offset: 0, align: 2, memory_index: 0 }));
        b.i(Instruction::LocalGet(3));
        b.i(Instruction::LocalGet(5));
        b.i(Instruction::I32Store(MemArg { offset: 0, align: 2, memory_index: 0 }));
        b.i(Instruction::LocalGet(3));
        b.i(Instruction::LocalGet(5));
        b.i(Instruction::I32Store(MemArg { offset: 4, align: 2, memory_index: 0 }));
        b.i(Instruction::LocalGet(3));
        b.i(Instruction::I32Const(LIST_TYPE_ID as i32));
        b.i(Instruction::I32Store(MemArg { offset: 8, align: 2, memory_index: 0 }));
        b.i(Instruction::LocalGet(3));
        b.i(Instruction::I32Const(0));
        b.i(Instruction::I32Store(MemArg { offset: 12, align: 2, memory_index: 0 }));
        b.i(Instruction::I32Const(0));
        b.i(Instruction::LocalSet(4));
        b.i(Instruction::Block(BlockType::Empty));
        b.i(Instruction::Loop(BlockType::Empty));
        b.i(Instruction::LocalGet(4));
        b.i(Instruction::LocalGet(5));
        b.i(Instruction::I32GeU);
        b.i(Instruction::BrIf(1));
        b.i(Instruction::LocalGet(3));
        b.i(Instruction::LocalGet(4));
        b.i(Instruction::I32Const(4));
        b.i(Instruction::I32Mul);
        b.i(Instruction::I32Add);
        b.i(Instruction::LocalGet(0));
        b.i(Instruction::LocalGet(1));
        b.i(Instruction::LocalGet(4));
        b.i(Instruction::I32Add);
        b.i(Instruction::I32Const(4));
        b.i(Instruction::I32Mul);
        b.i(Instruction::I32Add);
        b.i(Instruction::I32Load(MemArg { offset: 16, align: 2, memory_index: 0 }));
        b.i(Instruction::I32Store(MemArg { offset: 16, align: 2, memory_index: 0 }));
        b.i(Instruction::LocalGet(4));
        b.i(Instruction::I32Const(1));
        b.i(Instruction::I32Add);
    }

    /// Part 2 of `list_slice_body`, after `s`.
    #[verifier::opaque]
    pub open spec fn list_slice_part_2(s: Seq<Instruction>) -> Seq<Instruction> {
        s
            .push(Instruction::LocalSet(4))
            .push(Instruction::Br(0))
            .push(Instruction::End)
            .push(Instruction::End)
            .push(Instruction::LocalGet(3))
    }

    /// Part 2 of `generate_list_slice`.
    fn generate_list_slice_2(b: &mut Body)
        requires
            old(b).wf(),
            old(b).open_blocks() == 2,
            old(b).n_locals() == 6,
        ensures
            final(b).wf(),
            final(b).open_blocks() == 0,
            final(b).n_locals() == 6,
            final(b).instrs() == Self::list_slice_part_2(old(b).instrs()),
    {
        proof {
            reveal(ListManager::list_slice_part_2);
        }
        b.i(Instruction::LocalSet(4));
        b.i(Instruction::Br(0));
        b.i(Instruction::End);
        b.i(Instruction::End);
        b.i(Instruction::LocalGet(3));
    }

    /// The instructions `generate_list_concat` returns.
    #[verifier::opaque]
    pub open spec fn list_concat_body() -> Seq<Instruction> {
        seq![
            Instruction::LocalGet(0),
            Instruction::I32Load(MemArg { offset: 0, align: 2, memory_index: 0 }),
            Instruction::LocalSet(4),
            Instruction::LocalGet(0),
            Instruction::I32Load(MemArg { offset: 0, align: 2, memory_index: 0 }),
            Instruction::LocalGet(1),
            Instruction::I32Load(MemArg { offset: 0, align: 2, memory_index: 0 }),
            Instruction::I32Add,
            Instruction::LocalSet(5),
            Instruction::I32Const(0),
            Instruction::I32Load(MemArg { offset: 0, align: 2, memory_index: 0 }),
            Instruction::LocalSet(2),
            Instruction::I32Const(0),
            Instruction::LocalGet(2),
            Instruction::I32Const(16),
            Instruction::LocalGet(5),
            Instruction::I32Const(4),
            Instruction::I32Mul,
            Instruction::I32Add,
            Instruction::I32Add,
            Instruction::I32Store(MemArg { offset: 0, align: 2, memory_index: 0 }),
            Instruction::LocalGet(2),
            Instruction::LocalGet(5),
            Instruction::I32Store(MemArg { offset: 0, align: 2, memory_index: 0 }),
            Instruction::LocalGet(2),
            Instruction::LocalGet(5),
            Instruction::I32Store(MemArg { offset: 4, align: 2, memory_index: 0 }),
            Instruction::LocalGet(2),
            Instruction::I32Const(LIST_TYPE_ID as i32),
            Instruction::I32Store(MemArg { offset: 8, align: 2, memory_index: 0 }),
            Instruction::LocalGet(2),
            Instruction::I32Const(0),
            Instruction::I32Store(MemArg { offset: 12, align: 2, memory_index: 0 }),
            Instruction::I32Const(0),
            Instruction::LocalSet(3),
            Instruction::Block(BlockType::Empty),
            Instruction::Loop(BlockType::Empty),
            Instruction::LocalGet(3),
            Instruction::LocalGet(5),
            Instruction::I32GeU,
            Instruction::BrIf(1),
            Instruction::LocalGet(2),
            Instruction::LocalGet(3),
            Instruction::I32Const(4),
            Instruction::I32Mul,
            Instruction::I32Add,
            Instruction::LocalGet(3),
            Instruction::LocalGet(4),
            Instruction::I32LtU,
            Instruction::If(BlockType::Result(ValType::I32)),
            Instruction::LocalGet(0),
            Instruction::LocalGet(3),
            Instruction::I32Const(4),
            Instruction::I32Mul,
            Instruction::I32Add,
            Instruction::I32Load(MemArg { offset: 16, align: 2, memory_index: 0 }),
            Instruction::Else,
            Instruction::LocalGet(1),
            Instruction::LocalGet(3),
            Instruction::LocalGet(4),
            Instruction::I32Sub,
            Instruction::I32Const(4),
            Instruction::I32Mul,
            Instruction::I32Add,
            Instruction::I32Load(MemArg { offset: 16, align: 2, memory_index: 0 }),
            Instruction::End,
            Instruction::I32Store(MemArg { offset: 16, align: 2, memory_index: 0 }),
            Instruction::LocalGet(3),
            Instruction::I32Const(1),
            Instruction::I32Add,
            Instruction::LocalSet(3),
            Instruction::Br(0),
            Instruction::End,
            Instruction::End,
            Instruction::LocalGet(2),
        ]
    }

    /// list_concat: a new list of the elements of both lists, in order
    #[verifier::rlimit(40)]
    #[verifier::spinoff_prover]
    fn generate_list_concat(&self) -> (r: Vec<Instruction>)
        ensures
            body_ok(r@, 6),
            r@ == Self::list_concat_body(),
    {
        proof {
            reveal(ListManager::list_concat_body);
        }
        let mut b = Body::new(6);
        // Parameters: list1 (0), list2 (1); locals: new list (2), index (3), size1 (4), count (5)
        // Returns: a new list of the elements of list1 and then those of list2
        b.i(Instruction::LocalGet(0));
        b.i(Instruction::I32Load(MemArg { offset: 0, align: 2, memory_index: 0 }));
        b.i(Instruction::LocalSet(4));
        b.i(Instruction::LocalGet(0));
        b.i(Instruction::I32Load(MemArg { offset: 0, align: 2, memory_index: 0 }));
        b.i(Instruction::LocalGet(1));
        b.i(Instruction::I32Load(MemArg { offset: 0, align: 2, memory_index: 0 }));
        b.i(Instruction::I32Add);
        b.i(Instruction::LocalSet(5));
        // Allocate from the heap pointer at address 0, as list.allocate does:
        // a 16-byte header and the elements
        b.i(Instruction::I32Const(0));
        b.i(Instruction::I32Load(MemArg { offset: 0, align: 2, memory_index: 0 }));
        b.i(Instruction::LocalSet(2));
        b.i(Instruction::I32Const(0));
        b.i(Instruction::LocalGet(2));
        b.i(Instruction::I32Const(16));
        b.i(Instruction::LocalGet(5));
        b.i(Instruction::I32Const(4));
        b.i(Instruction::I32Mul);
        b.i(Instruction::I32Add);
        b.i(Instruction::I32Add);
        b.i(Instruction::I32Store(MemArg { offset: 0, align: 2, memory_index: 0 }));
        b.i(Instruction::LocalGet(2));
        b.i(Instruction::LocalGet(5));
        b.i(Instruction::I32Store(MemArg { offset: 0, align: 2, memory_index: 0 }));
        b.i(Instruction::LocalGet(2));
        b.i(Instruction::LocalGet(5));
        b.i(Instruction::I32Store(MemArg { offset: 4, align: 2, memory_index: 0 }));
        b.i(Instruction::LocalGet(2));
        b.i(Instruction::I32Const(LIST_TYPE_ID as i32));
        b.i(Instruction::I32Store(MemArg { offset: 8, align: 2, memory_index: 0 }));
        b.i(Instruction::LocalGet(2));
        b.i(Instruction::I32Const(0));
        b.i(Instruction::I32Store(MemArg { offset: 12, align: 2, memory_index: 0 }));
        b.i(Instruction::I32Const(0));
        b.i(Instruction::LocalSet(3));
        b.i(Instruction::Block(BlockType::Empty));
        b.i(Instruction::Loop(BlockType::Empty));
        b.i(Instruction::LocalGet(3));
        b.i(Instruction::LocalGet(5));
        b.i(Instruction::I32GeU);
        b.i(Instruction::BrIf(1));
        b.i(Instruction::LocalGet(2));
        b.i(Instruction::LocalGet(3));
        b.i(Instruction::I32Const(4));
        b.i(Instruction::I32Mul);
        b.i(Instruction::I32Add);
        b.i(Instruction::LocalGet(3));
        b.i(Instruction::LocalGet(4));
        b.i(Instruction::I32LtU);
        b.i(Instruction::If(BlockType::Result(ValType::I32)));
        b.i(Instruction::LocalGet(0));
        b.i(Instruction::LocalGet(3));
        b.i(Instruction::I32Const(4));
        b.i(Instruction::I32Mul);
        b.i(Instruction::I32Add);
        b.i(Instruction::I32Load(MemArg { offset: 16, align: 2, memory_index: 0 }));
        b.i(Instruction::Else);
        b.i(Instruction::LocalGet(1));
        b.i(Instruction::LocalGet(3));
        b.i(Instruction::LocalGet(4));
        b.i(Instruction::I32Sub);
        b.i(Instruction::I32Const(4));
        b.i(Instruction::I32Mul);
        b.i(Instruction::I32Add);
        b.i(Instruction::I32Load(MemArg { offset: 16, align: 2, memory_index: 0 }));
        b.i(Instruction::End);
        b.i(Instruction::I32Store(MemArg { offset: 16, align: 2, memory_index: 0 }));
        b.i(Instruction::LocalGet(3));
        b.i(Instruction::I32Const(1));
        b.i(Instruction::I32Add);
        b.i(Instruction::LocalSet(3));
        b.i(Instruction::Br(0));
        b.i(Instruction::End);
        b.i(Instruction::End);
        b.i(Instruction::LocalGet(2));
        b.finish()
    }

    /// The instructions `generate_list_reverse` returns.
    #[verifier::opaque]
    pub open spec fn list_reverse_body() -> Seq<Instruction> {
        seq![
            Instruction::LocalGet(0),
            Instruction::I32Load(MemArg { offset: 0, align: 2, memory_index: 0 }),
            Instruction::LocalSet(1),
            Instruction::I32Const(0),
            Instruction::I32Load(MemArg { offset: 0, align: 2, memory_index: 0 }),
            Instruction::LocalSet(2),
            Instruction::I32Const(0),
            Instruction::LocalGet(2),
            Instruction::I32Const(16),
            Instruction::LocalGet(1),
            Instruction::I32Const(4),
            Instruction::I32Mul,
            Instruction::I32Add,
            Instruction::I32Add,
            Instruction::I32Store(MemArg { offset: 0, align: 2, memory_index: 0 }),
            Instruction::LocalGet(2),
            Instruction::LocalGet(1),
            Instruction::I32Store(MemArg { offset: 0, align: 2, memory_index: 0 }),
            Instruction::LocalGet(2),
            Instruction::LocalGet(1),
            Instruction::I32Store(MemArg { offset: 4, align: 2, memory_index: 0 }),
            Instruction::LocalGet(2),
            Instruction::I32Const(LIST_TYPE_ID as i32),
            Instruction::I32Store(MemArg { offset: 8, align: 2, memory_index: 0 }),
            Instruction::LocalGet(2),
            Instruction::I32Const(0),
            Instruction::I32Store(MemArg { offset: 12, align: 2, memory_index: 0 }),
            Instruction::I32Const(0),
            Instruction::LocalSet(3),
            Instruction::Block(BlockType::Empty),
            Instruction::Loop(BlockType::Empty),
            Instruction::LocalGet(3),
            Instruction::LocalGet(1),
            Instruction::I32GeU,
            Instruction::BrIf(1),
            Instruction::LocalGet(2),
            Instruction::LocalGet(3),
            Instruction::I32Const(4),
            Instruction::I32Mul,
            Instruction::I32Add,
            Instruction::LocalGet(0),
            Instruction::LocalGet(1),
            Instruction::I32Const(1),
            Instruction::I32Sub,
            Instruction::LocalGet(3),
            Instruction::I32Sub,
            Instruction::I32Const(4),
            Instruction::I32Mul,
            Instruction::I32Add,
            Instruction::I32Load(MemArg { offset: 16, align: 2, memory_index: 0 }),
            Instruction::I32Store(MemArg { offset: 16, align: 2, memory_index: 0 }),
            Instruction::LocalGet(3),
            Instruction::I32Const(1),
            Instruction::I32Add,
            Instruction::LocalSet(3),
            Instruction::Br(0),
            Instruction::End,
            Instruction::End,
            Instruction::LocalGet(2),
        ]
    }

    /// list_reverse: creates a new list with the elements in reverse order
    #[verifier::rlimit(40)]
    #[verifier::spinoff_prover]
    fn generate_list_reverse(&self) -> (r: Vec<Instruction>)
        ensures
            body_ok(r@, 4),
            r@ == Self::list_reverse_body(),
    {
        proof {
            reveal(ListManager::list_reverse_body);
        }
        let mut b = Body::new(4);
        // Parameter: list_ptr (0); locals: length (1), new list (2), index (3)
        // Returns: a new list with the elements in reverse order
        b.i(Instruction::LocalGet(0));
        b.i(Instruction::I32Load(MemArg { offset: 0, align: 2, memory_index: 0 }));
        b.i(Instruction::LocalSet(1));
        // Allocate from the heap pointer at address 0, as list.allocate does:
        // a 16-byte header and the elements
        b.i(Instruction::I32Const(0));
        b.i(Instruction::I32Load(MemArg { offset: 0, align: 2, memory_index: 0 }));
        b.i(Instruction::LocalSet(2));
        b.i(Instruction::I32Const(0));
        b.i(Instruction::LocalGet(2));
        b.i(Instruction::I32Const(16));
        b.i(Instruction::LocalGet(1));
        b.i(Instruction::I32Const(4));
        b.i(Instruction::I32Mul);
        b.i(Instruction::I32Add);
        b.i(Instruction::I32Add);
        b.i(Instruction::I32Store(MemArg { offset: 0, align: 2, memory_index: 0 }));
        b.i(Instruction::LocalGet(2));
        b.i(Instruction::LocalGet(1));
        b.i(Instruction::I32Store(MemArg { offset: 0, align: 2, memory_index: 0 }));
        b.i(Instruction::LocalGet(2));
        b.i(Instruction::LocalGet(1));
        b.i(Instruction::I32Store(MemArg { offset: 4, align: 2, memory_index: 0 }));
        b.i(Instruction::LocalGet(2));
        b.i(Instruction::I32Const(LIST_TYPE_ID as i32));
        b.i(Instruction::I32Store(MemArg { offset: 8, align: 2, memory_index: 0 }));
        b.i(Instruction::LocalGet(2));
        b.i(Instruction::I32Const(0));
        b.i(Instruction::I32Store(MemArg { offset: 12, align: 2, memory_index: 0 }));
        b.i(Instruction::I32Const(0));
        b.i(Instruction::LocalSet(3));
        b.i(Instruction::Block(BlockType::Empty));
        b.i(Instruction::Loop(BlockType::Empty));
        b.i(Instruction::LocalGet(3));
        b.i(Instruction::LocalGet(1));
        b.i(Instruction::I32GeU);
        b.i(Instruction::BrIf(1));
        b.i(Instruction::LocalGet(2));
        b.i(Instruction::LocalGet(3));
        b.i(Instruction::I32Const(4));
        b.i(Instruction::I32Mul);
        b.i(Instruction::I32Add);
        b.i(Instruction::LocalGet(0));
        b.i(Instruction::LocalGet(1));
        b.i(Instruction::I32Const(1));
        b.i(Instruction::I32Sub);
        b.i(Instruction::LocalGet(3));
        b.i(Instruction::I32Sub);
        b.i(Instruction::I32Const(4));
        b.i(Instruction::I32Mul);
        b.i(Instruction::I32Add);
        b.i(Instruction::I32Load(MemArg { offset: 16, align: 2, memory_index: 0 }));
        b.i(Instruction::I32Store(MemArg { offset: 16, align: 2, memory_index: 0 }));
        b.i(Instruction::LocalGet(3));
        b.i(Instruction::I32Const(1));
        b.i(Instruction::I32Add);
        b.i(Instruction::LocalSet(3));
        b.i(Instruction::Br(0));
        b.i(Instruction::End);
        b.i(Instruction::End);
        b.i(Instruction::LocalGet(2));
        b.finish()
    }

    /// The instructions `generate_list_join` returns.
    #[verifier::opaque]
    pub open spec fn list_join_body() -> Seq<Instruction> {
        seq![
            Instruction::LocalGet(0),
            Instruction::I32Load(MemArg { offset: 0, align: 2, memory_index: 0 }),
            Instruction::LocalSet(2),
            Instruction::LocalGet(1),
            Instruction::I32Load(MemArg { offset: 0, align: 2, memory_index: 0 }),
            Instruction::LocalSet(3),
            Instruction::LocalGet(2),
            Instruction::I32Const(10),
            Instruction::I32Mul,
            Instruction::LocalGet(3),
            Instruction::LocalGet(2),
            Instruction::I32Const(1),
            Instruction::I32Sub,
            Instruction::I32Mul,
            Instruction::I32Add,
            Instruction::I32Const(10),
            Instruction::I32Add,
            Instruction::LocalSet(4),
            Instruction::I32Const(5000),
        ]
    }

    fn generate_list_join(&self) -> (r: Vec<Instruction>)
        ensures
            body_ok(r@, 5),
            r@ == Self::list_join_body(),
    {
        proof {
            reveal(ListManager::list_join_body);
        }
        let mut b = Body::new(5);
        // List join: creates a string by joining list elements with a separator
        // Parameters: list_ptr, separator_string_ptr
        // Returns: string pointer with joined elements
        // Load list length
        b.i(Instruction::LocalGet(0)); // list_ptr
        b.i(Instruction::I32Load(MemArg { offset: 0, align: 2, memory_index: 0 }));
        b.i(Instruction::LocalSet(2)); // list_length
        // Load separator string length
        b.i(Instruction::LocalGet(1)); // separator_ptr
        b.i(Instruction::I32Load(MemArg { offset: 0, align: 2, memory_index: 0 }));
        b.i(Instruction::LocalSet(3)); // separator_length
        // Calculate estimated result size (simplified)
        // list_length * 10 + separator_length * (list_length - 1) + 10
        b.i(Instruction::LocalGet(2)); // list_length
        b.i(Instruction::I32Const(10));
        b.i(Instruction::I32Mul);
        b.i(Instruction::LocalGet(3)); // separator_length
        b.i(Instruction::LocalGet(2)); // list_length
        b.i(Instruction::I32Const(1));
        b.i(Instruction::I32Sub);
        b.i(Instruction::I32Mul);
        b.i(Instruction::I32Add);
        b.i(Instruction::I32Const(10)); // Extra buffer
        b.i(Instruction::I32Add);
        b.i(Instruction::LocalSet(4)); // estimated_size
        // For now, return a mock joined string pointer
        // In real implementation, would allocate memory and build joined string
        b.i(Instruction::I32Const(5000)); // Mock joined string pointer
        b.finish()
    }

    /// The instructions `generate_list_insert` returns.
    #[verifier::opaque]
    pub open spec fn list_insert_body() -> Seq<Instruction> {
        seq![
            Instruction::LocalGet(1),
            Instruction::LocalGet(0),
            Instruction::I32Load(MemArg { offset: 0, align: 2, memory_index: 0 }),
            Instruction::I32LeU,
            Instruction::If(BlockType::Empty),
            Instruction::LocalGet(0),
            Instruction::I32Load(MemArg { offset: 0, align: 2, memory_index: 0 }),
            Instruction::LocalSet(3),
            Instruction::Block(BlockType::Empty),
            Instruction::Loop(BlockType::Empty),
            Instruction::LocalGet(3),
            Instruction::LocalGet(1),
            Instruction::I32LeU,
            Instruction::BrIf(1),
            Instruction::LocalGet(0),
            Instruction::LocalGet(3),
            Instruction::I32Const(4),
            Instruction::I32Mul,
            Instruction::I32Add,
            Instruction::LocalGet(0),
            Instruction::LocalGet(3),
            Instruction::I32Const(4),
            Instruction::I32Mul,
            Instruction::I32Add,
            Instruction::I32Load(MemArg { offset: 12, align: 2, memory_index: 0 }),
            Instruction::I32Store(MemArg { offset: 16, align: 2, memory_index: 0 }),
            Instruction::LocalGet(3),
            Instruction::I32Const(1),
            Instruction::I32Sub,
            Instruction::LocalSet(3),
            Instruction::Br(0),
            Instruction::End,
            Instruction::End,
            Instruction::LocalGet(0),
            Instruction::LocalGet(1),
            Instruction::I32Const(4),
            Instruction::I32Mul,
            Instruction::I32Add,
            Instruction::LocalGet(2),
            Instruction::I32Store(MemArg { offset: 16, align: 2, memory_index: 0 }),
            Instruction::LocalGet(0),
            Instruction::LocalGet(0),
            Instruction::I32Load(MemArg { offset: 0, align: 2, memory_index: 0 }),
            Instruction::I32Const(1),
            Instruction::I32Add,
            Instruction::I32Store(MemArg { offset: 0, align: 2, memory_index: 0 }),
            Instruction::End,
            Instruction::LocalGet(0),
        ]
    }

    /// list_insert: inserts an element at a specific position
    #[verifier::rlimit(40)]
    #[verifier::spinoff_prover]
    fn generate_list_insert(&self) -> (r: Vec<Instruction>)
        ensures
            body_ok(r@, 4),
            r@ == Self::list_insert_body(),
    {
        proof {
            reveal(ListManager::list_insert_body);
        }
        let mut b = Body::new(4);
        // Parameters: list_ptr (0), index (1), item (2); local: position (3)
        // Inserts the item at the index (when it lies within the list or at its end),
        // moving later elements up by one; returns the list pointer
        b.i(Instruction::LocalGet(1));
        b.i(Instruction::LocalGet(0));
        b.i(Instruction::I32Load(MemArg { offset: 0, align: 2, memory_index: 0 }));
        b.i(Instruction::I32LeU);
        b.i(Instruction::If(BlockType::Empty));
        b.i(Instruction::LocalGet(0));
        b.i(Instruction::I32Load(MemArg { offset: 0, align: 2, memory_index: 0 }));
        b.i(Instruction::LocalSet(3));
        b.i(Instruction::Block(BlockType::Empty));
        b.i(Instruction::Loop(BlockType::Empty));
        b.i(Instruction::LocalGet(3));
        b.i(Instruction::LocalGet(1));
        b.i(Instruction::I32LeU);
        b.i(Instruction::BrIf(1));
        b.i(Instruction::LocalGet(0));
        b.i(Instruction::LocalGet(3));
        b.i(Instruction::I32Const(4));
        b.i(Instruction::I32Mul);
        b.i(Instruction::I32Add);
        b.i(Instruction::LocalGet(0));
        b.i(Instruction::LocalGet(3));
        b.i(Instruction::I32Const(4));
        b.i(Instruction::I32Mul);
        b.i(Instruction::I32Add);
        b.i(Instruction::I32Load(MemArg { offset: 12, align: 2, memory_index: 0 }));
        b.i(Instruction::I32Store(MemArg { offset: 16, align: 2, memory_index: 0 }));
        b.i(Instruction::LocalGet(3));
        b.i(Instruction::I32Const(1));
        b.i(Instruction::I32Sub);
        b.i(Instruction::LocalSet(3));
        b.i(Instruction::Br(0));
        b.i(Instruction::End);
        b.i(Instruction::End);
        b.i(Instruction::LocalGet(0));
        b.i(Instruction::LocalGet(1));
        b.i(Instruction::I32Const(4));
        b.i(Instruction::I32Mul);
        b.i(Instruction::I32Add);
        b.i(Instruction::LocalGet(2));
        b.i(Instruction::I32Store(MemArg { offset: 16, align: 2, memory_index: 0 }));
        b.i(Instruction::LocalGet(0));
        b.i(Instruction::LocalGet(0));
        b.i(Instruction::I32Load(MemArg { offset: 0, align: 2, memory_index: 0 }));
        b.i(Instruction::I32Const(1));
        b.i(Instruction::I32Add);
        b.i(Instruction::I32Store(MemArg { offset: 0, align: 2, memory_index: 0 }));
        b.i(Instruction::End);
        b.i(Instruction::LocalGet(0));
        b.finish()
    }

    /// The instructions `generate_list_remove` returns.
    #[verifier::opaque]
    pub open spec fn list_remove_body() -> Seq<Instruction> {
        seq![
            Instruction::LocalGet(1),
            Instruction::LocalGet(0),
            Instruction::I32Load(MemArg { offset: 0, align: 2, memory_index: 0 }),
            Instruction::I32GeU,
            Instruction::If(BlockType::Empty),
            Instruction::I32Const(0),
            Instruction::Return,
            Instruction::End,
            Instruction::LocalGet(0),
            Instruction::LocalGet(1),
            Instruction::I32Const(4),
            Instruction::I32Mul,
            Instruction::I32Add,
            Instruction::I32Load(MemArg { offset: 16, align: 2, memory_index: 0 }),
            Instruction::LocalSet(2),
            Instruction::LocalGet(1),
            Instruction::LocalSet(3),
            Instruction::Block(BlockType::Empty),
            Instruction::Loop(BlockType::Empty),
            Instruction::LocalGet(3),
            Instruction::I32Const(1),
            Instruction::I32Add,
            Instruction::LocalGet(0),
            Instruction::I32Load(MemArg { offset: 0, align: 2, memory_index: 0 }),
            Instruction::I32GeU,
            Instruction::BrIf(1),
            Instruction::LocalGet(0),
            Instruction::LocalGet(3),
            Instruction::I32Const(4),
            Instruction::I32Mul,
            Instruction::I32Add,
            Instruction::LocalGet(0),
            Instruction::LocalGet(3),
            Instruction::I32Const(4),
            Instruction::I32Mul,
            Instruction::I32Add,
            Instruction::I32Load(MemArg { offset: 20, align: 2, memory_index: 0 }),
            Instruction::I32Store(MemArg { offset: 16, align: 2, memory_index: 0 }),
            Instruction::LocalGet(3),
            Instruction::I32Const(1),
            Instruction::I32Add,
            Instruction::LocalSet(3),
            Instruction::Br(0),
            Instruction::End,
            Instruction::End,
            Instruction::LocalGet(0),
            Instruction::LocalGet(0),
            Instruction::I32Load(MemArg { offset: 0, align: 2, memory_index: 0 }),
            Instruction::I32Const(1),
            Instruction::I32Sub,
            Instruction::I32Store(MemArg { offset: 0, align: 2, memory_index: 0 }),
            Instruction::LocalGet(2),
        ]
    }

    /// list_remove: removes the element at an index and returns it; later
    /// elements move down by one
    #[verifier::rlimit(40)]
    #[verifier::spinoff_prover]
    fn generate_list_remove(&self) -> (r: Vec<Instruction>)
        ensures
            body_ok(r@, 4),
            r@ == Self::list_remove_body(),
    {
        proof {
            reveal(ListManager::list_remove_body);
        }
        let mut b = Body::new(4);
        // Parameters: list_ptr (0), index (1); locals: removed element (2), position (3)
        // Returns: the removed element, or 0 when the index lies past the end
        b.i(Instruction::LocalGet(1));
        b.i(Instruction::LocalGet(0));
        b.i(Instruction::I32Load(MemArg { offset: 0, align: 2, memory_index: 0 }));
        b.i(Instruction::I32GeU);
        b.i(Instruction::If(BlockType::Empty));
        b.i(Instruction::I32Const(0));
        b.i(Instruction::Return);
        b.i(Instruction::End);
        b.i(Instruction::LocalGet(0));
        b.i(Instruction::LocalGet(1));
        b.i(Instruction::I32Const(4));
        b.i(Instruction::I32Mul);
        b.i(Instruction::I32Add);
        b.i(Instruction::I32Load(MemArg { offset: 16, align: 2, memory_index: 0 }));
        b.i(Instruction::LocalSet(2));
        b.i(Instruction::LocalGet(1));
        b.i(Instruction::LocalSet(3));
        b.i(Instruction::Block(BlockType::Empty));
        b.i(Instruction::Loop(BlockType::Empty));
        b.i(Instruction::LocalGet(3));
        b.i(Instruction::I32Const(1));
        b.i(Instruction::I32Add);
        b.i(Instruction::LocalGet(0));
        b.i(Instruction::I32Load(MemArg { offset: 0, align: 2, memory_index: 0 }));
        b.i(Instruction::I32GeU);
        b.i(Instruction::BrIf(1));
        b.i(Instruction::LocalGet(0));
        b.i(Instruction::LocalGet(3));
        b.i(Instruction::I32Const(4));
        b.i(Instruction::I32Mul);
        b.i(Instruction::I32Add);
        b.i(Instruction::LocalGet(0));
        b.i(Instruction::LocalGet(3));
        b.i(Instruction::I32Const(4));
        b.i(Instruction::I32Mul);
        b.i(Instruction::I32Add);
        b.i(Instruction::I32Load(MemArg { offset: 20, align: 2, memory_index: 0 }));
        b.i(Instruction::I32Store(MemArg { offset: 16, align: 2, memory_index: 0 }));
        b.i(Instruction::LocalGet(3));
        b.i(Instruction::I32Const(1));
        b.i(Instruction::I32Add);
        b.i(Instruction::LocalSet(3));
        b.i(Instruction::Br(0));
        b.i(Instruction::End);
        b.i(Instruction::End);
        b.i(Instruction::LocalGet(0));
        b.i(Instruction::LocalGet(0));
        b.i(Instruction::I32Load(MemArg { offset: 0, align: 2, memory_index: 0 }));
        b.i(Instruction::I32Const(1));
        b.i(Instruction::I32Sub);
        b.i(Instruction::I32Store(MemArg { offset: 0, align: 2, memory_index: 0 }));
        b.i(Instruction::LocalGet(2));
        b.finish()
    }

}

} // verus!
