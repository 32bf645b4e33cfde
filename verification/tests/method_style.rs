use clean_stdlib::codegen::CodeGenerator;
use clean_stdlib::memory::MemoryManager;
use clean_stdlib::method_style::MethodStyleManager;

#[test]
fn test_method_style_manager_creation() {
    let memory_manager = MemoryManager::new(1, Some(10));
    let method_manager = MethodStyleManager::new(memory_manager.clone());

    // Test that manager is created successfully
    assert!(method_manager.memory_manager.data.len() > 0);
}

#[test]
fn method_style_names_per_type() {
    let m = MethodStyleManager::new(MemoryManager::new(1, Some(10)));
    let mut g = CodeGenerator::new();
    m.register_functions(&mut g).unwrap();
    assert_eq!(g.get_next_function_index(), 68);
    assert_eq!(g.get_function_index("integer.length"), Some(0));
    assert_eq!(g.get_function_index("value.isNotEmpty"), Some(24));
    assert_eq!(g.get_function_index("integer.mustBeTrue"), Some(25));
    assert_eq!(g.get_function_index("string.toNumber"), Some(55));
    // the f64 form of number.toNumber is registered last among conversions
    // and shadows the per-type one
    assert_eq!(g.get_function_index("number.toNumber"), Some(65));
    assert_eq!(g.get_function_index("number.keepBetween"), Some(67));
}
