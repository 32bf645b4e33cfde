use clean_stdlib::codegen::{
    register_stdlib_function, register_stdlib_function_with_locals, CodeGenerator, LIST_TYPE_ID,
};
use clean_stdlib::list_class::ListClass;
use clean_stdlib::math_class::MathClass;
use clean_stdlib::matrix_ops::MatrixOperations;
use clean_stdlib::wasm::{Instruction, WasmType};

#[test]
fn indices_are_consecutive_and_names_resolve_to_last_binding() {
    let mut g = CodeGenerator::new();
    assert_eq!(g.get_next_function_index(), 0);
    let a = register_stdlib_function(&mut g, "f", &[WasmType::I32], None, vec![Instruction::LocalGet(0), Instruction::Drop]).unwrap();
    let b = register_stdlib_function_with_locals(&mut g, "g", &[], Some(WasmType::I32), &[WasmType::I32], vec![Instruction::LocalGet(0)]).unwrap();
    assert_eq!((a, b), (0, 1));
    assert_eq!(g.get_next_function_index(), 2);
    assert_eq!(g.get_function_index("f"), Some(0));
    g.add_function_alias("f", 1);
    assert_eq!(g.get_function_index("f"), Some(1));
    assert_eq!(g.get_function_index("missing"), None);
    assert_eq!(g.entries()[1].locals, vec![WasmType::I32]);
}

#[test]
fn list_type_id_is_four() {
    assert_eq!(LIST_TYPE_ID, 4);
}

#[test]
fn list_class_registers_twenty_two_functions() {
    let mut g = CodeGenerator::new();
    ListClass::new().register_functions(&mut g).unwrap();
    assert_eq!(g.get_next_function_index(), 22);
    assert_eq!(g.get_function_index("list.size"), Some(0));
    assert_eq!(g.get_function_index("list.indexOf"), Some(4));
    assert_eq!(g.get_function_index("list.pop"), Some(7));
    assert_eq!(g.get_function_index("list.concat"), Some(13));
    assert_eq!(g.get_function_index("list.toString"), Some(21));
    // list.concat declares five extra i32 locals after its two parameters
    assert_eq!(g.entries()[13].locals.len(), 5);
}

#[test]
fn math_class_registers_with_aliases() {
    let mut g = CodeGenerator::new();
    // host imports the Math class aliases
    g.register_import_function("env", "math_sin", &[WasmType::F64], Some(WasmType::F64)).unwrap();
    g.register_import_function("env", "math_pow", &[WasmType::F64, WasmType::F64], Some(WasmType::F64)).unwrap();
    MathClass::new().register_functions(&mut g).unwrap();
    assert_eq!(g.get_next_function_index(), 2 + 13);
    assert_eq!(g.get_function_index("math.sqrt"), Some(2));
    assert_eq!(g.get_function_index("math_sqrt"), Some(2));
    assert_eq!(g.get_function_index("math_trunc"), Some(10));
    assert_eq!(g.get_function_index("math.sin"), Some(0));
    assert_eq!(g.get_function_index("math.pow"), Some(1));
    // no import, no alias
    assert_eq!(g.get_function_index("math.cos"), None);
    assert_eq!(g.get_function_index("math.pi"), Some(12));
    assert_eq!(g.get_function_index("math_pi"), Some(12));
    // the constant is pi's bit pattern
    assert_eq!(
        g.entries()[12].body,
        vec![Instruction::F64Const(std::f64::consts::PI.to_bits())]
    );
}

#[test]
fn matrix_operations_register_six_functions() {
    let mut g = CodeGenerator::new();
    MatrixOperations::new().register_functions(&mut g).unwrap();
    assert_eq!(g.get_next_function_index(), 6);
    assert_eq!(g.get_function_index("matrix.create"), Some(0));
    assert_eq!(g.get_function_index("matrix.transpose"), Some(5));
    assert_eq!(g.entries()[4].locals.len(), 8);
    assert_eq!(g.entries()[4].locals[6], WasmType::F64);
}
