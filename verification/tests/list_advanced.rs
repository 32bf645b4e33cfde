use clean_stdlib::list_advanced::ListAdvancedManager;
use clean_stdlib::memory::MemoryManager;

#[test]
fn test_list_advanced_creation() {
    let memory_manager = MemoryManager::new(16, Some(1024));
    let _manager = ListAdvancedManager::new(memory_manager);
}

#[test]
fn test_map_advanced_generation() {
    let memory_manager = MemoryManager::new(16, Some(1024));
    let manager = ListAdvancedManager::new(memory_manager);
    let instructions = manager.generate_map_advanced();
    assert!(!instructions.is_empty(), "Map instructions should not be empty");
}

#[test]
fn test_filter_advanced_generation() {
    let memory_manager = MemoryManager::new(16, Some(1024));
    let manager = ListAdvancedManager::new(memory_manager);
    let instructions = manager.generate_filter_advanced();
    assert!(!instructions.is_empty(), "Filter instructions should not be empty");
}

#[test]
fn test_reduce_advanced_generation() {
    let memory_manager = MemoryManager::new(16, Some(1024));
    let manager = ListAdvancedManager::new(memory_manager);
    let instructions = manager.generate_reduce_advanced();
    assert!(!instructions.is_empty(), "Reduce instructions should not be empty");
}

#[test]
fn test_foreach_advanced_generation() {
    let memory_manager = MemoryManager::new(16, Some(1024));
    let manager = ListAdvancedManager::new(memory_manager);
    let instructions = manager.generate_foreach_advanced();
    assert!(!instructions.is_empty(), "ForEach instructions should not be empty");
}

#[test]
fn test_first_advanced_generation() {
    let memory_manager = MemoryManager::new(16, Some(1024));
    let manager = ListAdvancedManager::new(memory_manager);
    let instructions = manager.generate_first_advanced();
    assert!(!instructions.is_empty(), "First instructions should not be empty");
}

#[test]
fn test_last_advanced_generation() {
    let memory_manager = MemoryManager::new(16, Some(1024));
    let manager = ListAdvancedManager::new(memory_manager);
    let instructions = manager.generate_last_advanced();
    assert!(!instructions.is_empty(), "Last instructions should not be empty");
}

#[test]
fn test_fill_advanced_generation() {
    let memory_manager = MemoryManager::new(16, Some(1024));
    let manager = ListAdvancedManager::new(memory_manager);
    let instructions = manager.generate_fill_advanced();
    assert!(!instructions.is_empty(), "Fill instructions should not be empty");
}

#[test]
fn test_range_advanced_generation() {
    let memory_manager = MemoryManager::new(16, Some(1024));
    let manager = ListAdvancedManager::new(memory_manager);
    let instructions = manager.generate_range_advanced();
    assert!(!instructions.is_empty(), "Range instructions should not be empty");
}

#[test]
fn list_advanced_registers_eight_functions_in_order() {
    let manager = ListAdvancedManager::new(MemoryManager::new(1, Some(10)));
    let mut g = clean_stdlib::codegen::CodeGenerator::new();
    manager.register_functions(&mut g).unwrap();
    assert_eq!(g.get_next_function_index(), 8);
    assert_eq!(g.get_function_index("list.mapAdvanced"), Some(0));
    assert_eq!(g.get_function_index("list.rangeAdvanced"), Some(7));
}
