use clean_stdlib::codegen::CodeGenerator;
use clean_stdlib::json_class::{
    JsonClass, JSON_TAG_ARRAY, JSON_TAG_BOOLEAN, JSON_TAG_INTEGER, JSON_TAG_NULL, JSON_TAG_NUMBER,
    JSON_TAG_OBJECT, JSON_TAG_STRING,
};
use clean_stdlib::wasm::{Instruction, MemArg, WasmType};

#[test]
fn test_json_class_creation() {
    let json = JsonClass::new();
    assert!(std::mem::size_of_val(&json) == 0); // Zero-sized type
}

#[test]
fn test_json_tag_constants() {
    // Verify constants match the literal I32Const values emitted in the WASM instruction
    // generators. If these fail the constants diverge from the runtime representation.
    assert_eq!(JSON_TAG_NULL, 0, "null tag must be 0");
    assert_eq!(JSON_TAG_INTEGER, 1, "integer tag must be 1");
    assert_eq!(
        JSON_TAG_BOOLEAN, 2,
        "boolean tag must be 2 (parser writes I32Const(2))"
    );
    assert_eq!(
        JSON_TAG_NUMBER, 3,
        "number tag must be 3 (parser writes I32Const(3))"
    );
    assert_eq!(
        JSON_TAG_STRING, 4,
        "string tag must be 4 (parser writes I32Const(4))"
    );
    assert_eq!(
        JSON_TAG_ARRAY, 5,
        "array tag must be 5 (parser writes I32Const(5))"
    );
    assert_eq!(
        JSON_TAG_OBJECT, 6,
        "object tag must be 6 (parser writes I32Const(6))"
    );

    // Sanity: all tags distinct and in order
    let tags = [
        JSON_TAG_NULL,
        JSON_TAG_INTEGER,
        JSON_TAG_BOOLEAN,
        JSON_TAG_NUMBER,
        JSON_TAG_STRING,
        JSON_TAG_ARRAY,
        JSON_TAG_OBJECT,
    ];
    for i in 0..tags.len() {
        for j in (i + 1)..tags.len() {
            assert_ne!(tags[i], tags[j], "tag collision at indices {i} and {j}");
        }
    }
}

/// A table with the functions the JSON module looks up.
fn prepared(with_concat: bool) -> CodeGenerator {
    let mut g = CodeGenerator::new();
    g.register_import_function("env", "__malloc", &[WasmType::I32], Some(WasmType::I32))
        .unwrap();
    if with_concat {
        g.register_import_function(
            "env",
            "string.concat",
            &[WasmType::I32, WasmType::I32],
            Some(WasmType::I32),
        )
        .unwrap();
        g.register_import_function("env", "integer.toString", &[WasmType::I32], Some(WasmType::I32))
            .unwrap();
        g.register_import_function("env", "float_to_string", &[WasmType::F64], Some(WasmType::I32))
            .unwrap();
    }
    g
}

#[test]
fn json_registration_with_string_concat() {
    let mut g = prepared(true);
    let n0 = g.get_next_function_index();
    JsonClass::new().register_functions(&mut g).unwrap();
    // parse (7) + stringify (13) + access (4) + json.get (1)
    assert_eq!(g.get_next_function_index(), n0 + 25);
    assert_eq!(g.get_function_index("__json_skip_string"), Some(n0));
    assert_eq!(g.get_function_index("__json_parse_value"), Some(n0 + 2));
    assert_eq!(g.get_function_index("json.textToData"), Some(n0 + 5));
    assert_eq!(g.get_function_index("__json_quote_string"), Some(n0 + 7));
    assert_eq!(g.get_function_index("json.dataToText"), Some(n0 + 18));
    assert_eq!(g.get_function_index("__memcmp_bytes"), Some(n0 + 20));
    assert_eq!(g.get_function_index("__json_get_path"), Some(n0 + 23));
    assert_eq!(g.get_function_index("json.get"), Some(n0 + 24));
    // the canonical aliases
    assert_eq!(g.get_function_index("json.encode"), Some(n0 + 18));
    assert_eq!(g.get_function_index("json.decode"), Some(n0 + 5));
}

#[test]
fn json_registration_without_string_concat() {
    let mut g = prepared(false);
    let n0 = g.get_next_function_index();
    JsonClass::new().register_functions(&mut g).unwrap();
    // parse (7) + access (4) + json.get (1)
    assert_eq!(g.get_next_function_index(), n0 + 12);
    assert_eq!(g.get_function_index("json.dataToText"), None);
    assert_eq!(g.get_function_index("json.encode"), None);
    assert_eq!(g.get_function_index("json.decode"), Some(n0 + 5));
    assert_eq!(g.get_function_index("__memcmp_bytes"), Some(n0 + 7));
    assert_eq!(g.get_function_index("json.get"), Some(n0 + 11));
}

#[test]
fn json_quote_string_body_is_balanced() {
    let mut g = prepared(true);
    let malloc = g.get_function_index("__malloc").unwrap();
    JsonClass::new().register_functions(&mut g).unwrap();
    let idx = g.get_function_index("__json_quote_string").unwrap() as usize;
    let body = &g.entries()[idx].body;
    let mut depth: i64 = 0;
    for ins in body {
        match ins {
            Instruction::Block(_) | Instruction::Loop(_) | Instruction::If(_) => depth += 1,
            Instruction::End => depth -= 1,
            _ => {}
        }
        assert!(depth >= 0);
    }
    assert_eq!(depth, 0);
    // the allocation goes through the given allocator index
    assert!(body.contains(&Instruction::Call(malloc)));
    // the result pointer is returned
    assert_eq!(body.last(), Some(&Instruction::LocalGet(2)));
}

#[test]
fn json_encode_list_allocates_empty_brackets_literal() {
    let mut g = prepared(true);
    let malloc = g.get_function_index("__malloc").unwrap();
    JsonClass::new().register_functions(&mut g).unwrap();
    let idx = g.get_function_index("__json_encode_cln_list").unwrap() as usize;
    let body = &g.entries()[idx].body;
    // "[]" as a length-prefixed string in local 4: 4 + 2 bytes, length 2,
    // then '[' and ']' after the prefix
    let expected = vec![
        Instruction::I32Const(6),
        Instruction::Call(malloc),
        Instruction::LocalSet(4),
        Instruction::LocalGet(4),
        Instruction::I32Const(2),
        Instruction::I32Store(MemArg { offset: 0, align: 2, memory_index: 0 }),
        Instruction::LocalGet(4),
        Instruction::I32Const(91),
        Instruction::I32Store8(MemArg { offset: 4, align: 0, memory_index: 0 }),
        Instruction::LocalGet(4),
        Instruction::I32Const(93),
        Instruction::I32Store8(MemArg { offset: 5, align: 0, memory_index: 0 }),
    ];
    assert!(body.windows(expected.len()).any(|w| w == expected.as_slice()));
}
