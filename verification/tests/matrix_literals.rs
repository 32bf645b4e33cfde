use clean_stdlib::codegen::CodeGenerator;
use clean_stdlib::error::CompilerError;
use clean_stdlib::matrix_literals::MatrixLiteralsManager;
use clean_stdlib::memory::MemoryManager;

#[test]
fn test_matrix_literals_manager_creation() {
    let memory_manager = MemoryManager::new(16, Some(1024));
    let _manager = MatrixLiteralsManager::new(memory_manager);
}

#[test]
fn test_register_matrix_functions() -> Result<(), CompilerError> {
    let memory_manager = MemoryManager::new(16, Some(1024));
    let manager = MatrixLiteralsManager::new(memory_manager);
    let mut codegen = CodeGenerator::new();

    manager.register_functions(&mut codegen)?;

    // Verify functions are registered (checking a few key functions)
    assert!(codegen.get_function_index("matrix.createInteger").is_some());
    assert!(codegen.get_function_index("matrix.createNumber").is_some());
    assert!(codegen.get_function_index("matrix.getElement").is_some());
    assert!(codegen.get_function_index("matrix.setElement").is_some());
    assert!(codegen.get_function_index("matrix.getRows").is_some());
    assert!(codegen.get_function_index("matrix.getColumns").is_some());

    Ok(())
}

#[test]
fn test_matrix_creation_functions_exist() -> Result<(), CompilerError> {
    let memory_manager = MemoryManager::new(16, Some(1024));
    let manager = MatrixLiteralsManager::new(memory_manager);
    let mut codegen = CodeGenerator::new();

    manager.register_functions(&mut codegen)?;

    // Test that all creation functions are available
    assert!(codegen.get_function_index("matrix.createInteger").is_some());
    assert!(codegen.get_function_index("matrix.createNumber").is_some());
    assert!(codegen.get_function_index("matrix.createBoolean").is_some());
    assert!(codegen.get_function_index("matrix.createString").is_some());

    Ok(())
}

#[test]
fn test_matrix_access_functions_exist() -> Result<(), CompilerError> {
    let memory_manager = MemoryManager::new(16, Some(1024));
    let manager = MatrixLiteralsManager::new(memory_manager);
    let mut codegen = CodeGenerator::new();

    manager.register_functions(&mut codegen)?;

    // Test that all access functions are available
    assert!(codegen.get_function_index("matrix.getElement").is_some());
    assert!(codegen.get_function_index("matrix.setElement").is_some());
    assert!(codegen.get_function_index("matrix.getRow").is_some());
    assert!(codegen.get_function_index("matrix.getColumn").is_some());

    Ok(())
}

#[test]
fn test_matrix_property_functions_exist() -> Result<(), CompilerError> {
    let memory_manager = MemoryManager::new(16, Some(1024));
    let manager = MatrixLiteralsManager::new(memory_manager);
    let mut codegen = CodeGenerator::new();

    manager.register_functions(&mut codegen)?;

    // Test that all property functions are available
    assert!(codegen.get_function_index("matrix.getRows").is_some());
    assert!(codegen.get_function_index("matrix.getColumns").is_some());
    assert!(codegen.get_function_index("matrix.getSize").is_some());
    assert!(codegen.get_function_index("matrix.isSquare").is_some());

    Ok(())
}

#[test]
fn test_matrix_utility_functions_exist() -> Result<(), CompilerError> {
    let memory_manager = MemoryManager::new(16, Some(1024));
    let manager = MatrixLiteralsManager::new(memory_manager);
    let mut codegen = CodeGenerator::new();

    manager.register_functions(&mut codegen)?;

    // Test that all utility functions are available
    assert!(codegen
        .get_function_index("matrix.validateDimensions")
        .is_some());
    assert!(codegen.get_function_index("matrix.toString").is_some());
    assert!(codegen.get_function_index("matrix.equals").is_some());

    Ok(())
}

#[test]
fn test_matrix_header_layout() {
    // Test that matrix header layout is correctly defined
    // Matrix header: 20 bytes
    // 0-3: rows (i32)
    // 4-7: columns (i32)
    // 8-11: type_id (i32)
    // 12-15: element_size (i32)
    // 16-19: total_size (i32)

    let header_size = 20;
    let rows_offset = 0;
    let columns_offset = 4;
    let type_id_offset = 8;
    let element_size_offset = 12;
    let total_size_offset = 16;

    assert_eq!(header_size, 20);
    assert_eq!(rows_offset, 0);
    assert_eq!(columns_offset, 4);
    assert_eq!(type_id_offset, 8);
    assert_eq!(element_size_offset, 12);
    assert_eq!(total_size_offset, 16);
}

#[test]
fn test_matrix_type_ids() {
    // Test that matrix type IDs match expected values
    let integer_type_id = 1;
    let number_type_id = 2;
    let string_type_id = 3;
    let boolean_type_id = 4;

    assert_eq!(integer_type_id, 1);
    assert_eq!(number_type_id, 2);
    assert_eq!(string_type_id, 3);
    assert_eq!(boolean_type_id, 4);
}

#[test]
fn matrix_literals_register_fifteen_functions_in_order() {
    let manager = MatrixLiteralsManager::new(MemoryManager::new(1, Some(10)));
    let mut g = CodeGenerator::new();
    manager.register_functions(&mut g).unwrap();
    assert_eq!(g.get_next_function_index(), 15);
    assert_eq!(g.get_function_index("matrix.createInteger"), Some(0));
    assert_eq!(g.get_function_index("matrix.getRows"), Some(8));
    assert_eq!(g.get_function_index("matrix.equals"), Some(14));
}
