use clean_stdlib::codegen::CodeGenerator;
use clean_stdlib::error::{CompilerError, MemoryErrorKind};
use clean_stdlib::memory::{MemoryManager, HEADER_SIZE, PAGE_SIZE};

#[test]
fn memory_test_memory_allocation() {
    let mut memory = MemoryManager::new(1, Some(10));

    // Test basic allocation
    let ptr = memory.allocate(100, 1).unwrap();
    assert!(ptr >= HEADER_SIZE);
    assert_eq!(memory.get_type_id(ptr).unwrap(), 1);

    // Test retain/release
    memory.retain(ptr).unwrap();
    memory.release(ptr).unwrap();
    memory.release(ptr).unwrap(); // Should deallocate

    // Test allocation after deallocation
    let ptr2 = memory.allocate(100, 1).unwrap();
    assert!(ptr2 >= HEADER_SIZE);
}

#[test]
fn test_memory_bounds() {
    let mut memory = MemoryManager::new(1, Some(1));

    // Test allocation within bounds
    let ptr = memory.allocate(100, 1).unwrap();
    assert!(memory.store_i32(ptr, 42).is_ok());

    // Test allocation beyond bounds
    let result = memory.allocate(PAGE_SIZE + 1, 1);
    assert!(result.is_err());
}

#[test]
fn test_memory_coalescing() {
    let mut memory = MemoryManager::new(1, Some(10));

    // Allocate and free blocks
    let ptr1 = memory.allocate(100, 1).unwrap();
    let ptr2 = memory.allocate(100, 1).unwrap();
    let ptr3 = memory.allocate(100, 1).unwrap();

    memory.release(ptr1).unwrap();
    memory.release(ptr2).unwrap();
    memory.release(ptr3).unwrap();

    // Allocate a larger block that should fit in the coalesced space
    let ptr4 = memory.allocate(200, 1).unwrap();
    assert!(ptr4 >= HEADER_SIZE);
}

#[test]
fn mod_test_memory_allocation() -> Result<(), CompilerError> {
    let mut memory = MemoryManager::new(16, Some(1024));
    assert!(memory.allocate(100, 1).is_ok());
    Ok(())
}

#[test]
fn allocation_is_aligned_and_counted() {
    let mut m = MemoryManager::new(1, Some(4));
    let p = m.allocate(10, 3).unwrap();
    // the first block's header sits at the heap start
    assert_eq!(p, HEADER_SIZE);
    // 10 + 16 rounds up to 32 (the minimum allocation)
    assert_eq!(m.get_heap_start(), 32);
    assert_eq!(m.get_total_allocated(), 32);
    assert_eq!(m.get_type_id(p), Ok(3));
}

#[test]
fn freed_block_is_reused_first_fit() {
    let mut m = MemoryManager::new(1, Some(4));
    let a = m.allocate(100, 1).unwrap();
    let _b = m.allocate(100, 1).unwrap();
    m.release(a).unwrap();
    let c = m.allocate(50, 2).unwrap();
    assert_eq!(c, a);
    assert_eq!(m.get_type_id(c), Ok(2));
}

#[test]
fn retain_then_release_keeps_block() {
    let mut m = MemoryManager::new(1, Some(4));
    let p = m.allocate(40, 5).unwrap();
    let before = m.get_total_allocated();
    m.retain(p).unwrap();
    m.release(p).unwrap();
    assert_eq!(m.get_total_allocated(), before);
    assert_eq!(m.get_type_id(p), Ok(5));
}

#[test]
fn invalid_pointer_errors() {
    let mut m = MemoryManager::new(1, Some(4));
    assert_eq!(
        m.retain(999),
        Err(CompilerError::Memory(MemoryErrorKind::InvalidPointer(999)))
    );
    assert_eq!(
        m.get_type_id(999),
        Err(CompilerError::Memory(MemoryErrorKind::InvalidPointer(999)))
    );
}

#[test]
fn memory_grows_by_pages() {
    let mut m = MemoryManager::new(1, Some(3));
    m.allocate(PAGE_SIZE, 1).unwrap();
    assert_eq!(m.get_current_pages(), 2);
    assert_eq!(m.data.len(), 2 * PAGE_SIZE);
}

#[test]
fn growth_beyond_max_pages_is_refused() {
    let mut m = MemoryManager::new(1, Some(1));
    match m.allocate(PAGE_SIZE, 1) {
        Err(CompilerError::Memory(MemoryErrorKind::ExceedsMaxPages { max, .. })) => assert_eq!(max, 1),
        other => panic!("unexpected {:?}", other),
    }
}

#[test]
fn store_writes_little_endian() {
    let mut m = MemoryManager::new(1, Some(4));
    let p = m.allocate(16, 1).unwrap();
    m.store_i32(p, 0x01020304).unwrap();
    assert_eq!(&m.data[p..p + 4], &[4, 3, 2, 1]);
    m.store_u8(p, 9).unwrap();
    assert_eq!(m.data[p], 9);
    m.store_f64(p, 1.5f64.to_bits()).unwrap();
    assert_eq!(&m.data[p..p + 8], &1.5f64.to_le_bytes());
    // only the pointers `allocate` returned are accepted
    assert_eq!(
        m.store_u8(p + 4, 1),
        Err(CompilerError::Memory(MemoryErrorKind::InvalidPointer(p + 4)))
    );
}

#[test]
fn store_past_the_end_is_out_of_bounds() {
    let mut m = MemoryManager::new(1, Some(1));
    m.allocate(PAGE_SIZE - 32, 1).unwrap();
    // an empty block whose data starts at the very end of memory
    let p = m.allocate(0, 1).unwrap();
    assert_eq!(p, PAGE_SIZE);
    assert_eq!(
        m.store_i32(p, 1),
        Err(CompilerError::Memory(MemoryErrorKind::OutOfBounds))
    );
}

#[test]
fn memory_section_declares_one_memory() {
    let m = MemoryManager::new(2, Some(8));
    let section = m.create_memory_section();
    assert_eq!(section.len(), 1);
    let limits = m.memory_limits();
    assert_eq!(limits.minimum, 2);
    assert_eq!(limits.maximum, Some(8));
}

#[test]
fn memory_functions_registered() {
    let m = MemoryManager::new(1, Some(4));
    let mut g = CodeGenerator::new();
    m.register_functions(&mut g).unwrap();
    assert_eq!(g.get_function_index("memory.allocate"), Some(0));
    assert_eq!(g.get_function_index("memory.retain"), Some(1));
    assert_eq!(g.get_function_index("memory.release"), Some(2));
}

#[test]
fn deallocate_with_references_is_refused() {
    let mut m = MemoryManager::new(1, Some(4));
    let p = m.allocate(24, 1).unwrap();
    assert_eq!(
        m.deallocate(p),
        Err(CompilerError::Memory(MemoryErrorKind::ActiveReferences))
    );
    // the block is still there
    assert_eq!(m.get_type_id(p), Ok(1));
}

#[test]
fn blocks_freed_in_address_order_merge() {
    let mut memory = MemoryManager::new(1, Some(10));
    let ptr1 = memory.allocate(100, 1).unwrap();
    let ptr2 = memory.allocate(100, 1).unwrap();
    let ptr3 = memory.allocate(100, 1).unwrap();
    assert_eq!((ptr1, ptr2, ptr3), (16, 136, 256));
    assert_eq!(memory.get_heap_start(), 360);
    memory.release(ptr1).unwrap();
    memory.release(ptr2).unwrap();
    memory.release(ptr3).unwrap();
    // the three 120-byte blocks form one free block of 360 bytes, which the
    // 216-byte block for 200 bytes reuses from its start
    assert_eq!(memory.allocate(200, 1), Ok(16));
    assert_eq!(memory.get_heap_start(), 360);
}

#[test]
fn blocks_freed_in_reverse_order_merge() {
    let mut memory = MemoryManager::new(1, Some(10));
    let ptr1 = memory.allocate(100, 1).unwrap();
    let ptr2 = memory.allocate(100, 1).unwrap();
    let ptr3 = memory.allocate(100, 1).unwrap();
    memory.release(ptr3).unwrap();
    memory.release(ptr1).unwrap();
    memory.release(ptr2).unwrap();
    assert_eq!(memory.allocate(300, 1), Ok(16));
    assert_eq!(memory.get_heap_start(), 360);
}

#[test]
fn data_ref_is_the_memory() {
    let mut m = MemoryManager::new(1, Some(2));
    let p = m.allocate(3, 1).unwrap();
    assert_eq!(p % 8, 0);
    m.store_u8(p, 7).unwrap();
    assert_eq!(m.data_ref().len(), PAGE_SIZE);
    assert_eq!(m.data_ref()[p], 7);
}
