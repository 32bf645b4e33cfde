use clean_stdlib::math_advanced::MathAdvancedManager;
use clean_stdlib::memory::MemoryManager;

#[test]
fn test_math_advanced_creation() {
    let memory_manager = MemoryManager::new(16, Some(1024));
    let _manager = MathAdvancedManager::new(memory_manager);
}

#[test]
fn test_atan2_advanced_generation() {
    let memory_manager = MemoryManager::new(16, Some(1024));
    let manager = MathAdvancedManager::new(memory_manager);
    let instructions = manager.generate_atan2_advanced();
    assert!(
        !instructions.is_empty(),
        "Atan2 instructions should not be empty"
    );
}

#[test]
fn test_sinh_advanced_generation() {
    let memory_manager = MemoryManager::new(16, Some(1024));
    let manager = MathAdvancedManager::new(memory_manager);
    let instructions = manager.generate_sinh_advanced();
    assert!(
        !instructions.is_empty(),
        "Sinh instructions should not be empty"
    );
}

#[test]
fn test_cosh_advanced_generation() {
    let memory_manager = MemoryManager::new(16, Some(1024));
    let manager = MathAdvancedManager::new(memory_manager);
    let instructions = manager.generate_cosh_advanced();
    assert!(
        !instructions.is_empty(),
        "Cosh instructions should not be empty"
    );
}

#[test]
fn test_tanh_advanced_generation() {
    let memory_manager = MemoryManager::new(16, Some(1024));
    let manager = MathAdvancedManager::new(memory_manager);
    let instructions = manager.generate_tanh_advanced();
    assert!(
        !instructions.is_empty(),
        "Tanh instructions should not be empty"
    );
}

#[test]
fn test_log2_advanced_generation() {
    let memory_manager = MemoryManager::new(16, Some(1024));
    let manager = MathAdvancedManager::new(memory_manager);
    let instructions = manager.generate_log2_advanced();
    assert!(
        !instructions.is_empty(),
        "Log2 instructions should not be empty"
    );
}

#[test]
fn test_exp2_advanced_generation() {
    let memory_manager = MemoryManager::new(16, Some(1024));
    let manager = MathAdvancedManager::new(memory_manager);
    let instructions = manager.generate_exp2_advanced();
    assert!(
        !instructions.is_empty(),
        "Exp2 instructions should not be empty"
    );
}

#[test]
fn test_sign_advanced_generation() {
    let memory_manager = MemoryManager::new(16, Some(1024));
    let manager = MathAdvancedManager::new(memory_manager);
    let instructions = manager.generate_sign_advanced();
    assert!(
        !instructions.is_empty(),
        "Sign instructions should not be empty"
    );
}

#[test]
fn test_clamp_advanced_generation() {
    let memory_manager = MemoryManager::new(16, Some(1024));
    let manager = MathAdvancedManager::new(memory_manager);
    let instructions = manager.generate_clamp_advanced();
    assert!(
        !instructions.is_empty(),
        "Clamp instructions should not be empty"
    );
}

#[test]
fn test_lerp_advanced_generation() {
    let memory_manager = MemoryManager::new(16, Some(1024));
    let manager = MathAdvancedManager::new(memory_manager);
    let instructions = manager.generate_lerp_advanced();
    assert!(
        !instructions.is_empty(),
        "Lerp instructions should not be empty"
    );
}

#[test]
fn math_advanced_registers_nine_functions() {
    let manager = MathAdvancedManager::new(MemoryManager::new(1, Some(10)));
    let mut g = clean_stdlib::codegen::CodeGenerator::new();
    manager.register_functions(&mut g).unwrap();
    assert_eq!(g.get_next_function_index(), 9);
    assert_eq!(g.get_function_index("math.atan2Advanced"), Some(0));
    assert_eq!(g.get_function_index("math.exp2Advanced"), Some(5));
    assert_eq!(g.get_function_index("math.lerpAdvanced"), Some(8));
}

#[test]
fn exp2_body_names_local_six() {
    // the exp2 body addresses local 6 although it declares locals 0..=5
    let manager = MathAdvancedManager::new(MemoryManager::new(1, Some(10)));
    let body = manager.generate_exp2_advanced();
    assert!(body.contains(&clean_stdlib::wasm::Instruction::LocalSet(6)));
}
