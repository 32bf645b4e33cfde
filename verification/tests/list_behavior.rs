use clean_stdlib::codegen::CodeGenerator;
use clean_stdlib::list_behavior::{
    behavior_to_flags, behavior_to_string, flags_to_behavior, parse_behavior_string, ListBehavior,
    ListBehaviorManager, BEHAVIOR_LINE, BEHAVIOR_PILE, BEHAVIOR_UNIQUE,
};
use clean_stdlib::memory::MemoryManager;

#[test]
fn test_behavior_conversion() {
    // Test behavior to flags
    assert_eq!(behavior_to_flags(ListBehavior::Default), 0);
    assert_eq!(behavior_to_flags(ListBehavior::Line), BEHAVIOR_LINE);
    assert_eq!(behavior_to_flags(ListBehavior::Pile), BEHAVIOR_PILE);
    assert_eq!(behavior_to_flags(ListBehavior::Unique), BEHAVIOR_UNIQUE);
    assert_eq!(
        behavior_to_flags(ListBehavior::LineUnique),
        BEHAVIOR_LINE | BEHAVIOR_UNIQUE
    );

    // Test flags to behavior
    assert_eq!(flags_to_behavior(0), ListBehavior::Default);
    assert_eq!(flags_to_behavior(BEHAVIOR_LINE), ListBehavior::Line);
    assert_eq!(flags_to_behavior(BEHAVIOR_PILE), ListBehavior::Pile);
    assert_eq!(flags_to_behavior(BEHAVIOR_UNIQUE), ListBehavior::Unique);
    assert_eq!(
        flags_to_behavior(BEHAVIOR_LINE | BEHAVIOR_UNIQUE),
        ListBehavior::LineUnique
    );
}

#[test]
fn test_behavior_string_parsing() {
    assert_eq!(parse_behavior_string("line"), ListBehavior::Line);
    assert_eq!(parse_behavior_string("pile"), ListBehavior::Pile);
    assert_eq!(parse_behavior_string("unique"), ListBehavior::Unique);
    assert_eq!(
        parse_behavior_string("line-unique"),
        ListBehavior::LineUnique
    );
    assert_eq!(
        parse_behavior_string("lineunique"),
        ListBehavior::LineUnique
    );
    assert_eq!(parse_behavior_string("invalid"), ListBehavior::Default);
}

#[test]
fn test_behavior_to_string() {
    assert_eq!(behavior_to_string(ListBehavior::Default), "default");
    assert_eq!(behavior_to_string(ListBehavior::Line), "line");
    assert_eq!(behavior_to_string(ListBehavior::Pile), "pile");
    assert_eq!(behavior_to_string(ListBehavior::Unique), "unique");
    assert_eq!(behavior_to_string(ListBehavior::LineUnique), "line-unique");
}

const ALL: [ListBehavior; 8] = [
    ListBehavior::Default,
    ListBehavior::Line,
    ListBehavior::Pile,
    ListBehavior::Unique,
    ListBehavior::LinePile,
    ListBehavior::LineUnique,
    ListBehavior::PileUnique,
    ListBehavior::LineUniquePile,
];

#[test]
fn behavior_flags_round_trip() {
    for b in ALL {
        assert_eq!(flags_to_behavior(behavior_to_flags(b)), b);
    }
}

#[test]
fn behavior_name_round_trip() {
    for b in ALL {
        assert_eq!(parse_behavior_string(behavior_to_string(b)), b);
    }
}

#[test]
fn behavior_flag_bits() {
    assert_eq!(behavior_to_flags(ListBehavior::LinePile), BEHAVIOR_LINE | BEHAVIOR_PILE);
    assert_eq!(behavior_to_flags(ListBehavior::PileUnique), BEHAVIOR_PILE | BEHAVIOR_UNIQUE);
    assert_eq!(behavior_to_flags(ListBehavior::LineUniquePile), 7);
    // a combination of flags no behaviour has reads as the default
    assert_eq!(flags_to_behavior(0x10 | BEHAVIOR_PILE), ListBehavior::Default);
}

#[test]
fn list_behavior_manager_registers_nine_functions() {
    let manager = ListBehaviorManager::new(MemoryManager::new(1, Some(10)));
    let mut g = CodeGenerator::new();
    manager.register_functions(&mut g).unwrap();
    assert_eq!(g.get_next_function_index(), 9);
    assert_eq!(g.get_function_index("list.setType"), Some(0));
    assert_eq!(g.get_function_index("list.isNotEmpty"), Some(8));
}
