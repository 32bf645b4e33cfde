//! List behaviours (line = FIFO, pile = LIFO, unique = set) and their
//! encodings as header flags and as strings.

use vstd::prelude::*;
use crate::body::Body;
use crate::codegen::{
    CodeGenerator, Signature, appended, defined, lemma_appended_start, lemma_appended_fits,
    register_tracked, binding_for,
};
use crate::error::CompilerError;
use crate::memory::MemoryManager;
use crate::wasm::{Instruction, MemArg, BlockType, ValType, WasmType, body_ok};

verus! {

/// FIFO queue behaviour flag.
pub const BEHAVIOR_LINE: i32 = 0x01;

/// LIFO stack behaviour flag.
pub const BEHAVIOR_PILE: i32 = 0x02;

/// Unique-elements behaviour flag.
pub const BEHAVIOR_UNIQUE: i32 = 0x04;

/// The behaviour a list was declared with.
#[derive(Clone, Copy, Debug, PartialEq, Eq, Structural)]
pub enum ListBehavior {
    Default,
    Line,
    Pile,
    Unique,
    LinePile,
    LineUnique,
    PileUnique,
    LineUniquePile,
}

/// The flag word stored in a list header for a behaviour.
pub open spec fn spec_behavior_flags(b: ListBehavior) -> i32 {
    match b {
        ListBehavior::Default => 0,
        ListBehavior::Line => 1,
        ListBehavior::Pile => 2,
        ListBehavior::Unique => 4,
        ListBehavior::LinePile => 3,
        ListBehavior::LineUnique => 5,
        ListBehavior::PileUnique => 6,
        ListBehavior::LineUniquePile => 7,
    }
}

/// The behaviour a flag word denotes; words outside 0..=7 denote `Default`.
pub open spec fn spec_flags_behavior(flags: i32) -> ListBehavior {
    if flags == 1 {
        ListBehavior::Line
    } else if flags == 2 {
        ListBehavior::Pile
    } else if flags == 4 {
        ListBehavior::Unique
    } else if flags == 3 {
        ListBehavior::LinePile
    } else if flags == 5 {
        ListBehavior::LineUnique
    } else if flags == 6 {
        ListBehavior::PileUnique
    } else if flags == 7 {
        ListBehavior::LineUniquePile
    } else {
        ListBehavior::Default
    }
}

/// The canonical name of a behaviour.
pub open spec fn spec_behavior_name(b: ListBehavior) -> Seq<char> {
    match b {
        ListBehavior::Default => "default"@,
        ListBehavior::Line => "line"@,
        ListBehavior::Pile => "pile"@,
        ListBehavior::Unique => "unique"@,
        ListBehavior::LinePile => "line-pile"@,
        ListBehavior::LineUnique => "line-unique"@,
        ListBehavior::PileUnique => "pile-unique"@,
        ListBehavior::LineUniquePile => "line-unique-pile"@,
    }
}

/// The behaviour a name denotes: each combined behaviour is accepted with
/// or without hyphens, and any other text denotes `Default`.
pub open spec fn spec_parse_behavior(s: Seq<char>) -> ListBehavior {
    if s == "line"@ {
        ListBehavior::Line
    } else if s == "pile"@ {
        ListBehavior::Pile
    } else if s == "unique"@ {
        ListBehavior::Unique
    } else if s == "line-pile"@ || s == "linepile"@ {
        ListBehavior::LinePile
    } else if s == "line-unique"@ || s == "lineunique"@ {
        ListBehavior::LineUnique
    } else if s == "pile-unique"@ || s == "pileunique"@ {
        ListBehavior::PileUnique
    } else if s == "line-unique-pile"@ || s == "lineuniquepile"@ {
        ListBehavior::LineUniquePile
    } else {
        ListBehavior::Default
    }
}

/// Convert a behaviour to its header flag word.
pub fn behavior_to_flags(behavior: ListBehavior) -> (flags: i32)
    ensures
        flags == spec_behavior_flags(behavior),
{
    assert(1i32 | 2i32 == 3i32 && 1i32 | 4i32 == 5i32 && 2i32 | 4i32 == 6i32 && 1i32 | 2i32 | 4i32
        == 7i32) by (bit_vector);
    match behavior {
        ListBehavior::Default => 0,
        ListBehavior::Line => BEHAVIOR_LINE,
        ListBehavior::Pile => BEHAVIOR_PILE,
        ListBehavior::Unique => BEHAVIOR_UNIQUE,
        ListBehavior::LinePile => BEHAVIOR_LINE | BEHAVIOR_PILE,
        ListBehavior::LineUnique => BEHAVIOR_LINE | BEHAVIOR_UNIQUE,
        ListBehavior::PileUnique => BEHAVIOR_PILE | BEHAVIOR_UNIQUE,
        ListBehavior::LineUniquePile => BEHAVIOR_LINE | BEHAVIOR_PILE | BEHAVIOR_UNIQUE,
    }
}

/// Convert a header flag word to a behaviour.
pub fn flags_to_behavior(flags: i32) -> (behavior: ListBehavior)
    ensures
        behavior == spec_flags_behavior(flags),
{
    assert(1i32 | 2i32 == 3i32 && 1i32 | 4i32 == 5i32 && 2i32 | 4i32 == 6i32 && 1i32 | 2i32 | 4i32
        == 7i32) by (bit_vector);
    if flags == 0 {
        ListBehavior::Default
    } else if flags == BEHAVIOR_LINE {
        ListBehavior::Line
    } else if flags == BEHAVIOR_PILE {
        ListBehavior::Pile
    } else if flags == BEHAVIOR_UNIQUE {
        ListBehavior::Unique
    } else if flags == (BEHAVIOR_LINE | BEHAVIOR_PILE) {
        ListBehavior::LinePile
    } else if flags == (BEHAVIOR_LINE | BEHAVIOR_UNIQUE) {
        ListBehavior::LineUnique
    } else if flags == (BEHAVIOR_PILE | BEHAVIOR_UNIQUE) {
        ListBehavior::PileUnique
    } else if flags == (BEHAVIOR_LINE | BEHAVIOR_PILE | BEHAVIOR_UNIQUE) {
        ListBehavior::LineUniquePile
    } else {
        ListBehavior::Default
    }
}

/// Whether two strings hold the same characters.
fn same_text(a: &str, b: &str) -> (r: bool)
    ensures
        r == (a@ == b@),
{
    let x = String::from_str(a);
    let y = String::from_str(b);
    x == y
}

/// The accepted behaviour names are pairwise distinct.
proof fn lemma_names_distinct()
    ensures
        "default"@ != "line"@,
        "default"@ != "pile"@,
        "default"@ != "unique"@,
        "default"@ != "line-pile"@,
        "default"@ != "linepile"@,
        "default"@ != "line-unique"@,
        "default"@ != "lineunique"@,
        "default"@ != "pile-unique"@,
        "default"@ != "pileunique"@,
        "default"@ != "line-unique-pile"@,
        "default"@ != "lineuniquepile"@,
        "line"@ != "pile"@,
        "line"@ != "unique"@,
        "line"@ != "line-pile"@,
        "line"@ != "linepile"@,
        "line"@ != "line-unique"@,
        "line"@ != "lineunique"@,
        "line"@ != "pile-unique"@,
        "line"@ != "pileunique"@,
        "line"@ != "line-unique-pile"@,
        "line"@ != "lineuniquepile"@,
        "pile"@ != "unique"@,
        "pile"@ != "line-pile"@,
        "pile"@ != "linepile"@,
        "pile"@ != "line-unique"@,
        "pile"@ != "lineunique"@,
        "pile"@ != "pile-unique"@,
        "pile"@ != "pileunique"@,
        "pile"@ != "line-unique-pile"@,
        "pile"@ != "lineuniquepile"@,
        "unique"@ != "line-pile"@,
        "unique"@ != "linepile"@,
        "unique"@ != "line-unique"@,
        "unique"@ != "lineunique"@,
        "unique"@ != "pile-unique"@,
        "unique"@ != "pileunique"@,
        "unique"@ != "line-unique-pile"@,
        "unique"@ != "lineuniquepile"@,
        "line-pile"@ != "linepile"@,
        "line-pile"@ != "line-unique"@,
        "line-pile"@ != "lineunique"@,
        "line-pile"@ != "pile-unique"@,
        "line-pile"@ != "pileunique"@,
        "line-pile"@ != "line-unique-pile"@,
        "line-pile"@ != "lineuniquepile"@,
        "linepile"@ != "line-unique"@,
        "linepile"@ != "lineunique"@,
        "linepile"@ != "pile-unique"@,
        "linepile"@ != "pileunique"@,
        "linepile"@ != "line-unique-pile"@,
        "linepile"@ != "lineuniquepile"@,
        "line-unique"@ != "lineunique"@,
        "line-unique"@ != "pile-unique"@,
        "line-unique"@ != "pileunique"@,
        "line-unique"@ != "line-unique-pile"@,
        "line-unique"@ != "lineuniquepile"@,
        "lineunique"@ != "pile-unique"@,
        "lineunique"@ != "pileunique"@,
        "lineunique"@ != "line-unique-pile"@,
        "lineunique"@ != "lineuniquepile"@,
        "pile-unique"@ != "pileunique"@,
        "pile-unique"@ != "line-unique-pile"@,
        "pile-unique"@ != "lineuniquepile"@,
        "pileunique"@ != "line-unique-pile"@,
        "pileunique"@ != "lineuniquepile"@,
        "line-unique-pile"@ != "lineuniquepile"@,
{
    reveal_strlit("default");
    reveal_strlit("line");
    reveal_strlit("pile");
    reveal_strlit("unique");
    reveal_strlit("line-pile");
    reveal_strlit("linepile");
    reveal_strlit("line-unique");
    reveal_strlit("lineunique");
    reveal_strlit("pile-unique");
    reveal_strlit("pileunique");
    reveal_strlit("line-unique-pile");
    reveal_strlit("lineuniquepile");
    assert("default"@.len() != "line"@.len());
    assert("default"@.len() != "pile"@.len());
    assert("default"@.len() != "unique"@.len());
    assert("default"@.len() != "line-pile"@.len());
    assert("default"@.len() != "linepile"@.len());
    assert("default"@.len() != "line-unique"@.len());
    assert("default"@.len() != "lineunique"@.len());
    assert("default"@.len() != "pile-unique"@.len());
    assert("default"@.len() != "pileunique"@.len());
    assert("default"@.len() != "line-unique-pile"@.len());
    assert("default"@.len() != "lineuniquepile"@.len());
    assert("line"@[0] != "pile"@[0]);
    assert("line"@.len() != "unique"@.len());
    assert("line"@.len() != "line-pile"@.len());
    assert("line"@.len() != "linepile"@.len());
    assert("line"@.len() != "line-unique"@.len());
    assert("line"@.len() != "lineunique"@.len());
    assert("line"@.len() != "pile-unique"@.len());
    assert("line"@.len() != "pileunique"@.len());
    assert("line"@.len() != "line-unique-pile"@.len());
    assert("line"@.len() != "lineuniquepile"@.len());
    assert("pile"@.len() != "unique"@.len());
    assert("pile"@.len() != "line-pile"@.len());
    assert("pile"@.len() != "linepile"@.len());
    assert("pile"@.len() != "line-unique"@.len());
    assert("pile"@.len() != "lineunique"@.len());
    assert("pile"@.len() != "pile-unique"@.len());
    assert("pile"@.len() != "pileunique"@.len());
    assert("pile"@.len() != "line-unique-pile"@.len());
    assert("pile"@.len() != "lineuniquepile"@.len());
    assert("unique"@.len() != "line-pile"@.len());
    assert("unique"@.len() != "linepile"@.len());
    assert("unique"@.len() != "line-unique"@.len());
    assert("unique"@.len() != "lineunique"@.len());
    assert("unique"@.len() != "pile-unique"@.len());
    assert("unique"@.len() != "pileunique"@.len());
    assert("unique"@.len() != "line-unique-pile"@.len());
    assert("unique"@.len() != "lineuniquepile"@.len());
    assert("line-pile"@.len() != "linepile"@.len());
    assert("line-pile"@.len() != "line-unique"@.len());
    assert("line-pile"@.len() != "lineunique"@.len());
    assert("line-pile"@.len() != "pile-unique"@.len());
    assert("line-pile"@.len() != "pileunique"@.len());
    assert("line-pile"@.len() != "line-unique-pile"@.len());
    assert("line-pile"@.len() != "lineuniquepile"@.len());
    assert("linepile"@.len() != "line-unique"@.len());
    assert("linepile"@.len() != "lineunique"@.len());
    assert("linepile"@.len() != "pile-unique"@.len());
    assert("linepile"@.len() != "pileunique"@.len());
    assert("linepile"@.len() != "line-unique-pile"@.len());
    assert("linepile"@.len() != "lineuniquepile"@.len());
    assert("line-unique"@.len() != "lineunique"@.len());
    assert("line-unique"@[0] != "pile-unique"@[0]);
    assert("line-unique"@.len() != "pileunique"@.len());
    assert("line-unique"@.len() != "line-unique-pile"@.len());
    assert("line-unique"@.len() != "lineuniquepile"@.len());
    assert("lineunique"@.len() != "pile-unique"@.len());
    assert("lineunique"@[0] != "pileunique"@[0]);
    assert("lineunique"@.len() != "line-unique-pile"@.len());
    assert("lineunique"@.len() != "lineuniquepile"@.len());
    assert("pile-unique"@.len() != "pileunique"@.len());
    assert("pile-unique"@.len() != "line-unique-pile"@.len());
    assert("pile-unique"@.len() != "lineuniquepile"@.len());
    assert("pileunique"@.len() != "line-unique-pile"@.len());
    assert("pileunique"@.len() != "lineuniquepile"@.len());
    assert("line-unique-pile"@.len() != "lineuniquepile"@.len());
}

/// Parse a behaviour name.
pub fn parse_behavior_string(behavior_str: &str) -> (behavior: ListBehavior)
    ensures
        behavior == spec_parse_behavior(behavior_str@),
{
    proof {
        lemma_names_distinct();
    }
    if same_text(behavior_str, "default") {
        ListBehavior::Default
    } else if same_text(behavior_str, "line") {
        ListBehavior::Line
    } else if same_text(behavior_str, "pile") {
        ListBehavior::Pile
    } else if same_text(behavior_str, "unique") {
        ListBehavior::Unique
    } else if same_text(behavior_str, "line-pile") || same_text(behavior_str, "linepile") {
        ListBehavior::LinePile
    } else if same_text(behavior_str, "line-unique") || same_text(behavior_str, "lineunique") {
        ListBehavior::LineUnique
    } else if same_text(behavior_str, "pile-unique") || same_text(behavior_str, "pileunique") {
        ListBehavior::PileUnique
    } else if same_text(behavior_str, "line-unique-pile") || same_text(
        behavior_str,
        "lineuniquepile",
    ) {
        ListBehavior::LineUniquePile
    } else {
        ListBehavior::Default
    }
}

/// The canonical name of a behaviour.
pub fn behavior_to_string(behavior: ListBehavior) -> (name: &'static str)
    ensures
        name@ == spec_behavior_name(behavior),
{
    match behavior {
        ListBehavior::Default => "default",
        ListBehavior::Line => "line",
        ListBehavior::Pile => "pile",
        ListBehavior::Unique => "unique",
        ListBehavior::LinePile => "line-pile",
        ListBehavior::LineUnique => "line-unique",
        ListBehavior::PileUnique => "pile-unique",
        ListBehavior::LineUniquePile => "line-unique-pile",
    }
}

/// Decoding the flag word of a behaviour gives the behaviour back.
pub proof fn lemma_flags_round_trip(b: ListBehavior)
    ensures
        spec_flags_behavior(spec_behavior_flags(b)) == b,
{
}

/// Every flag word in 0..=7 is the encoding of the behaviour it decodes to;
/// every other word decodes to `Default`.
pub proof fn lemma_behavior_round_trip(flags: i32)
    ensures
        0 <= flags <= 7 ==> spec_behavior_flags(spec_flags_behavior(flags)) == flags,
        !(0 <= flags <= 7) ==> spec_flags_behavior(flags) == ListBehavior::Default,
{
}

/// The flag words of distinct behaviours are distinct bit sets built from the
/// three behaviour bits: line is bit 0, pile bit 1, unique bit 2.
pub proof fn lemma_flags_bits(b: ListBehavior)
    ensures
        0 <= spec_behavior_flags(b) <= 7,
        (spec_behavior_flags(b) & 1 == 1) <==> (b == ListBehavior::Line || b
            == ListBehavior::LinePile || b == ListBehavior::LineUnique || b
            == ListBehavior::LineUniquePile),
        (spec_behavior_flags(b) & 2 == 2) <==> (b == ListBehavior::Pile || b
            == ListBehavior::LinePile || b == ListBehavior::PileUnique || b
            == ListBehavior::LineUniquePile),
        (spec_behavior_flags(b) & 4 == 4) <==> (b == ListBehavior::Unique || b
            == ListBehavior::LineUnique || b == ListBehavior::PileUnique || b
            == ListBehavior::LineUniquePile),
{
    let f = spec_behavior_flags(b);
    assert(f == 0 ==> (f & 1 != 1 && f & 2 != 2 && f & 4 != 4)) by (bit_vector);
    assert(f == 1 ==> (f & 1 == 1 && f & 2 != 2 && f & 4 != 4)) by (bit_vector);
    assert(f == 2 ==> (f & 1 != 1 && f & 2 == 2 && f & 4 != 4)) by (bit_vector);
    assert(f == 3 ==> (f & 1 == 1 && f & 2 == 2 && f & 4 != 4)) by (bit_vector);
    assert(f == 4 ==> (f & 1 != 1 && f & 2 != 2 && f & 4 == 4)) by (bit_vector);
    assert(f == 5 ==> (f & 1 == 1 && f & 2 != 2 && f & 4 == 4)) by (bit_vector);
    assert(f == 6 ==> (f & 1 != 1 && f & 2 == 2 && f & 4 == 4)) by (bit_vector);
    assert(f == 7 ==> (f & 1 == 1 && f & 2 == 2 && f & 4 == 4)) by (bit_vector);
}

/// Parsing the canonical name of a behaviour gives the behaviour back.
pub proof fn lemma_name_round_trip(b: ListBehavior)
    ensures
        spec_parse_behavior(spec_behavior_name(b)) == b,
{
    lemma_names_distinct();
}

/// The functions `register_functions` registers, in order.
pub open spec fn list_behavior_signatures() -> Seq<Signature> {
    seq![
        defined(
            "list.setType"@,
            seq![WasmType::I32, WasmType::I32],
            None,
            seq![WasmType::I32, WasmType::I32],
            ListBehaviorManager::set_type_body(),
        ),
        defined(
            "list.getType"@,
            seq![WasmType::I32],
            Some(WasmType::I32),
            seq![],
            ListBehaviorManager::get_type_body(),
        ),
        defined(
            "list.add"@,
            seq![WasmType::I32, WasmType::I32],
            Some(WasmType::I32),
            seq![WasmType::I32, WasmType::I32],
            ListBehaviorManager::list_add_body(),
        ),
        defined(
            "list.remove"@,
            seq![WasmType::I32],
            Some(WasmType::I32),
            seq![WasmType::I32, WasmType::I32],
            ListBehaviorManager::list_remove_body(),
        ),
        defined(
            "list.peek"@,
            seq![WasmType::I32],
            Some(WasmType::I32),
            seq![WasmType::I32],
            ListBehaviorManager::list_peek_body(),
        ),
        defined(
            "list.contains"@,
            seq![WasmType::I32, WasmType::I32],
            Some(WasmType::I32),
            seq![WasmType::I32, WasmType::I32],
            ListBehaviorManager::list_contains_body(),
        ),
        defined(
            "list.size"@,
            seq![WasmType::I32],
            Some(WasmType::I32),
            seq![],
            ListBehaviorManager::list_size_body(),
        ),
        defined(
            "list.isEmpty"@,
            seq![WasmType::I32],
            Some(WasmType::I32),
            seq![],
            ListBehaviorManager::list_is_empty_body(),
        ),
        defined(
            "list.isNotEmpty"@,
            seq![WasmType::I32],
            Some(WasmType::I32),
            seq![],
            ListBehaviorManager::list_is_not_empty_body(),
        ),
    ]
}

/// The names `register_functions` binds, with indices counted from its first
/// registered function.
pub open spec fn list_behavior_bindings() -> Seq<(Seq<char>, int)> {
    seq![
        ("list.setType"@, 0),
        ("list.getType"@, 1),
        ("list.add"@, 2),
        ("list.remove"@, 3),
        ("list.peek"@, 4),
        ("list.contains"@, 5),
        ("list.size"@, 6),
        ("list.isEmpty"@, 7),
        ("list.isNotEmpty"@, 8),
    ]
}

/// List behavior implementation for Clean Language
/// Handles different list behaviors: line (FIFO), pile (LIFO), unique (set)
///
/// List Header Layout (16 bytes):
/// - Offset 0: Size (i32) - current number of elements
/// - Offset 4: Capacity (i32) - allocated capacity
/// - Offset 8: Type ID (i32) - LIST_TYPE_ID
/// - Offset 12: Behavior (i32) - behavior flags
///   Elements start at offset 16
pub struct ListBehaviorManager {
    /// The memory manager the functions are generated for.
    pub memory_manager: MemoryManager,
}

impl ListBehaviorManager {
    /// A manager that generates the behaviour-aware list functions.
    pub fn new(memory_manager: MemoryManager) -> (m: Self)
        ensures
            m.memory_manager == memory_manager,
    {
        ListBehaviorManager { memory_manager }
    }

    /// Register all list behavior functions as stdlib functions
    pub fn register_functions(&self, codegen: &mut CodeGenerator) -> (r: Result<(), CompilerError>)
        requires
            old(codegen).wf(),
        ensures
            final(codegen).wf(),
            r is Ok <==> old(codegen).n_functions() + 9 <= u32::MAX,
            r is Ok ==> appended(
                *old(codegen),
                *final(codegen),
                list_behavior_signatures(),
                list_behavior_bindings(),
            ),
            r matches Err(e) ==> e == CompilerError::FunctionLimit,
    {
        let ghost start = *codegen;
        let ghost mut sigs = Seq::<Signature>::empty();
        let ghost mut binds = Seq::<(Seq<char>, int)>::empty();
        proof {
            lemma_appended_start(start);
        }
        // Property access: list.type = "behavior"
        let ghost sig = defined(
            "list.setType"@,
            seq![WasmType::I32, WasmType::I32],
            None,
            seq![WasmType::I32, WasmType::I32],
            ListBehaviorManager::set_type_body(),
        );
        register_tracked(
            codegen,
            Ghost(start),
            Ghost(sigs),
            Ghost(binds),
            Ghost(sig),
            "list.setType",
            &[WasmType::I32, WasmType::I32],
            None,
            &[WasmType::I32, WasmType::I32],
            self.generate_set_type(),
        )?;
        proof {
            binds = binds.push(binding_for(sigs, sig));
            sigs = sigs.push(sig);
        }
        // Property access: list.type
        let ghost sig = defined(
            "list.getType"@,
            seq![WasmType::I32],
            Some(WasmType::I32),
            seq![],
            ListBehaviorManager::get_type_body(),
        );
        register_tracked(
            codegen,
            Ghost(start),
            Ghost(sigs),
            Ghost(binds),
            Ghost(sig),
            "list.getType",
            &[WasmType::I32],
            Some(WasmType::I32),
            &[],
            self.generate_get_type(),
        )?;
        proof {
            binds = binds.push(binding_for(sigs, sig));
            sigs = sigs.push(sig);
        }
        // Behavior-aware operations
        let ghost sig = defined(
            "list.add"@,
            seq![WasmType::I32, WasmType::I32],
            Some(WasmType::I32),
            seq![WasmType::I32, WasmType::I32],
            ListBehaviorManager::list_add_body(),
        );
        register_tracked(
            codegen,
            Ghost(start),
            Ghost(sigs),
            Ghost(binds),
            Ghost(sig),
            "list.add",
            &[WasmType::I32, WasmType::I32],
            Some(WasmType::I32),
            &[WasmType::I32, WasmType::I32],
            self.generate_list_add(),
        )?;
        proof {
            binds = binds.push(binding_for(sigs, sig));
            sigs = sigs.push(sig);
        }
        let ghost sig = defined(
            "list.remove"@,
            seq![WasmType::I32],
            Some(WasmType::I32),
            seq![WasmType::I32, WasmType::I32],
            ListBehaviorManager::list_remove_body(),
        );
        register_tracked(
            codegen,
            Ghost(start),
            Ghost(sigs),
            Ghost(binds),
            Ghost(sig),
            "list.remove",
            &[WasmType::I32],
            Some(WasmType::I32),
            &[WasmType::I32, WasmType::I32],
            self.generate_list_remove(),
        )?;
        proof {
            binds = binds.push(binding_for(sigs, sig));
            sigs = sigs.push(sig);
        }
        let ghost sig = defined(
            "list.peek"@,
            seq![WasmType::I32],
            Some(WasmType::I32),
            seq![WasmType::I32],
            ListBehaviorManager::list_peek_body(),
        );
        register_tracked(
            codegen,
            Ghost(start),
            Ghost(sigs),
            Ghost(binds),
            Ghost(sig),
            "list.peek",
            &[WasmType::I32],
            Some(WasmType::I32),
            &[WasmType::I32],
            self.generate_list_peek(),
        )?;
        proof {
            binds = binds.push(binding_for(sigs, sig));
            sigs = sigs.push(sig);
        }
        // Core list operations that respect behavior
        let ghost sig = defined(
            "list.contains"@,
            seq![WasmType::I32, WasmType::I32],
            Some(WasmType::I32),
            seq![WasmType::I32, WasmType::I32],
            ListBehaviorManager::list_contains_body(),
        );
        register_tracked(
            codegen,
            Ghost(start),
            Ghost(sigs),
            Ghost(binds),
            Ghost(sig),
            "list.contains",
            &[WasmType::I32, WasmType::I32],
            Some(WasmType::I32),
            &[WasmType::I32, WasmType::I32],
            self.generate_list_contains(),
        )?;
        proof {
            binds = binds.push(binding_for(sigs, sig));
            sigs = sigs.push(sig);
        }
        let ghost sig = defined(
            "list.size"@,
            seq![WasmType::I32],
            Some(WasmType::I32),
            seq![],
            ListBehaviorManager::list_size_body(),
        );
        register_tracked(
            codegen,
            Ghost(start),
            Ghost(sigs),
            Ghost(binds),
            Ghost(sig),
            "list.size",
            &[WasmType::I32],
            Some(WasmType::I32),
            &[],
            self.generate_list_size(),
        )?;
        proof {
            binds = binds.push(binding_for(sigs, sig));
            sigs = sigs.push(sig);
        }
        let ghost sig = defined(
            "list.isEmpty"@,
            seq![WasmType::I32],
            Some(WasmType::I32),
            seq![],
            ListBehaviorManager::list_is_empty_body(),
        );
        register_tracked(
            codegen,
            Ghost(start),
            Ghost(sigs),
            Ghost(binds),
            Ghost(sig),
            "list.isEmpty",
            &[WasmType::I32],
            Some(WasmType::I32),
            &[],
            self.generate_list_is_empty(),
        )?;
        proof {
            binds = binds.push(binding_for(sigs, sig));
            sigs = sigs.push(sig);
        }
        let ghost sig = defined(
            "list.isNotEmpty"@,
            seq![WasmType::I32],
            Some(WasmType::I32),
            seq![],
            ListBehaviorManager::list_is_not_empty_body(),
        );
        register_tracked(
            codegen,
            Ghost(start),
            Ghost(sigs),
            Ghost(binds),
            Ghost(sig),
            "list.isNotEmpty",
            &[WasmType::I32],
            Some(WasmType::I32),
            &[],
            self.generate_list_is_not_empty(),
        )?;
        proof {
            binds = binds.push(binding_for(sigs, sig));
            sigs = sigs.push(sig);
        }
        proof {
            assert(sigs =~= list_behavior_signatures());
            assert(binds =~= list_behavior_bindings());
            lemma_appended_fits(start, *codegen, sigs, binds);
        }
        Ok(())
    }

    /// The instructions `generate_set_type` returns.
    #[verifier::opaque]
    pub open spec fn set_type_body() -> Seq<Instruction> {
        seq![
            Instruction::LocalGet(1),
            Instruction::I32Load(MemArg { offset: 0, align: 2, memory_index: 0 }),
            Instruction::LocalSet(2),
            Instruction::I32Const(0),
            Instruction::LocalSet(3),
            Instruction::LocalGet(2),
            Instruction::I32Const(0),
            Instruction::I32GtS,
            Instruction::If(BlockType::Empty),
            Instruction::LocalGet(1),
            Instruction::I32Load8U(MemArg { offset: 4, align: 0, memory_index: 0 }),
            Instruction::I32Const(108),
            Instruction::I32Eq,
            Instruction::LocalGet(1),
            Instruction::I32Load8U(MemArg { offset: 4, align: 0, memory_index: 0 }),
            Instruction::I32Const(76),
            Instruction::I32Eq,
            Instruction::I32Or,
            Instruction::If(BlockType::Empty),
            Instruction::LocalGet(3),
            Instruction::I32Const(BEHAVIOR_LINE),
            Instruction::I32Or,
            Instruction::LocalSet(3),
            Instruction::End,
            Instruction::LocalGet(1),
            Instruction::I32Load8U(MemArg { offset: 4, align: 0, memory_index: 0 }),
            Instruction::I32Const(112),
            Instruction::I32Eq,
            Instruction::LocalGet(1),
            Instruction::I32Load8U(MemArg { offset: 4, align: 0, memory_index: 0 }),
            Instruction::I32Const(80),
            Instruction::I32Eq,
            Instruction::I32Or,
            Instruction::If(BlockType::Empty),
            Instruction::LocalGet(3),
            Instruction::I32Const(BEHAVIOR_PILE),
            Instruction::I32Or,
            Instruction::LocalSet(3),
            Instruction::End,
            Instruction::LocalGet(1),
            Instruction::I32Load8U(MemArg { offset: 4, align: 0, memory_index: 0 }),
            Instruction::I32Const(117),
            Instruction::I32Eq,
            Instruction::LocalGet(1),
            Instruction::I32Load8U(MemArg { offset: 4, align: 0, memory_index: 0 }),
            Instruction::I32Const(85),
            Instruction::I32Eq,
            Instruction::I32Or,
            Instruction::If(BlockType::Empty),
            Instruction::LocalGet(3),
            Instruction::I32Const(BEHAVIOR_UNIQUE),
            Instruction::I32Or,
            Instruction::LocalSet(3),
            Instruction::End,
            Instruction::End,
            Instruction::LocalGet(0),
            Instruction::LocalGet(3),
            Instruction::I32Store(MemArg { offset: 12, align: 2, memory_index: 0 }),
        ]
    }

    /// Generate WASM for setting list type property
    /// Note: String parsing for behavior types requires runtime support.
    /// The behavior flags are set based on first character comparison:
    /// - 'l' or 'L' = line (FIFO)
    /// - 'p' or 'P' = pile (LIFO)
    /// - 'u' or 'U' = unique
    /// For full string matching, use the host bridge.
    #[verifier::rlimit(40)]
    #[verifier::spinoff_prover]
    fn generate_set_type(&self) -> (r: Vec<Instruction>)
        ensures
            body_ok(r@, 4),
            r@ == Self::set_type_body(),
    {
        proof {
            reveal(ListBehaviorManager::set_type_body);
        }
        let mut b = Body::new(4);
        // Parameters: list_ptr (0), behavior_string_ptr (1)
        // Local variables: string_length (2), behavior_flags (3)
        // Load string length
        b.i(Instruction::LocalGet(1)); // behavior_string_ptr
        b.i(Instruction::I32Load(MemArg { offset: 0, align: 2, memory_index: 0 }));
        b.i(Instruction::LocalSet(2)); // string_length
        // Initialize behavior flags to 0
        b.i(Instruction::I32Const(0));
        b.i(Instruction::LocalSet(3)); // behavior_flags
        // Check if string is non-empty
        b.i(Instruction::LocalGet(2));
        b.i(Instruction::I32Const(0));
        b.i(Instruction::I32GtS);
        b.i(Instruction::If(BlockType::Empty));
        // NOTE: Removed stray I32Load8U that left value on stack without consuming it.
        // Each character check below loads its own value.
        // Check for 'l' (108) or 'L' (76) - line behavior
        b.i(Instruction::LocalGet(1));
        b.i(Instruction::I32Load8U(MemArg { offset: 4, align: 0, memory_index: 0 }));
        b.i(Instruction::I32Const(108)); // 'l'
        b.i(Instruction::I32Eq);
        b.i(Instruction::LocalGet(1));
        b.i(Instruction::I32Load8U(MemArg { offset: 4, align: 0, memory_index: 0 }));
        b.i(Instruction::I32Const(76)); // 'L'
        b.i(Instruction::I32Eq);
        b.i(Instruction::I32Or);
        b.i(Instruction::If(BlockType::Empty));
        b.i(Instruction::LocalGet(3));
        b.i(Instruction::I32Const(BEHAVIOR_LINE));
        b.i(Instruction::I32Or);
        b.i(Instruction::LocalSet(3));
        b.i(Instruction::End);
        // Check for 'p' (112) or 'P' (80) - pile behavior
        b.i(Instruction::LocalGet(1));
        b.i(Instruction::I32Load8U(MemArg { offset: 4, align: 0, memory_index: 0 }));
        b.i(Instruction::I32Const(112)); // 'p'
        b.i(Instruction::I32Eq);
        b.i(Instruction::LocalGet(1));
        b.i(Instruction::I32Load8U(MemArg { offset: 4, align: 0, memory_index: 0 }));
        b.i(Instruction::I32Const(80)); // 'P'
        b.i(Instruction::I32Eq);
        b.i(Instruction::I32Or);
        b.i(Instruction::If(BlockType::Empty));
        b.i(Instruction::LocalGet(3));
        b.i(Instruction::I32Const(BEHAVIOR_PILE));
        b.i(Instruction::I32Or);
        b.i(Instruction::LocalSet(3));
        b.i(Instruction::End);
        // Check for 'u' (117) or 'U' (85) - unique behavior
        b.i(Instruction::LocalGet(1));
        b.i(Instruction::I32Load8U(MemArg { offset: 4, align: 0, memory_index: 0 }));
        b.i(Instruction::I32Const(117)); // 'u'
        b.i(Instruction::I32Eq);
        b.i(Instruction::LocalGet(1));
        b.i(Instruction::I32Load8U(MemArg { offset: 4, align: 0, memory_index: 0 }));
        b.i(Instruction::I32Const(85)); // 'U'
        b.i(Instruction::I32Eq);
        b.i(Instruction::I32Or);
        b.i(Instruction::If(BlockType::Empty));
        b.i(Instruction::LocalGet(3));
        b.i(Instruction::I32Const(BEHAVIOR_UNIQUE));
        b.i(Instruction::I32Or);
        b.i(Instruction::LocalSet(3));
        b.i(Instruction::End);
        b.i(Instruction::End); // End string non-empty check
        // Store behavior flags in list header at offset 12
        b.i(Instruction::LocalGet(0)); // list_ptr
        b.i(Instruction::LocalGet(3)); // behavior_flags
        b.i(Instruction::I32Store(MemArg { offset: 12, align: 2, memory_index: 0 }));
        b.finish()
    }

    /// The instructions `generate_get_type` returns.
    #[verifier::opaque]
    pub open spec fn get_type_body() -> Seq<Instruction> {
        seq![
            Instruction::LocalGet(0),
            Instruction::I32Load(MemArg { offset: 12, align: 2, memory_index: 0 }),
        ]
    }

    /// Generate WASM for getting list type property
    /// Returns the behavior flags as an integer.
    /// The caller can convert to string using flags_to_behavior() in Rust,
    /// or the host bridge can provide string conversion.
    /// Flags: 0x01 = line, 0x02 = pile, 0x04 = unique
    fn generate_get_type(&self) -> (r: Vec<Instruction>)
        ensures
            body_ok(r@, 1),
            r@ == Self::get_type_body(),
    {
        proof {
            reveal(ListBehaviorManager::get_type_body);
        }
        let mut b = Body::new(1);
        // Parameter: list_ptr (0)
        // Returns: behavior flags (integer)
        // Load behavior flags from list header at offset 12
        b.i(Instruction::LocalGet(0)); // list_ptr
        b.i(Instruction::I32Load(MemArg { offset: 12, align: 2, memory_index: 0 }));
        b.finish()
    }

    /// The instructions `generate_list_add` returns.
    #[verifier::opaque]
    pub open spec fn list_add_body() -> Seq<Instruction> {
        seq![
            Instruction::LocalGet(0),
            Instruction::I32Load(MemArg { offset: 12, align: 2, memory_index: 0 }),
            Instruction::LocalSet(2),
            Instruction::LocalGet(2),
            Instruction::I32Const(BEHAVIOR_UNIQUE),
            Instruction::I32And,
            Instruction::If(BlockType::Empty),
            Instruction::I32Const(0),
            Instruction::LocalSet(3),
            Instruction::Block(BlockType::Empty),
            Instruction::Loop(BlockType::Empty),
            Instruction::LocalGet(3),
            Instruction::LocalGet(0),
            Instruction::I32Load(MemArg { offset: 0, align: 2, memory_index: 0 }),
            Instruction::I32GeU,
            Instruction::BrIf(1),
            Instruction::LocalGet(0),
            Instruction::LocalGet(3),
            Instruction::I32Const(4),
            Instruction::I32Mul,
            Instruction::I32Add,
            Instruction::I32Load(MemArg { offset: 16, align: 2, memory_index: 0 }),
            Instruction::LocalGet(1),
            Instruction::I32Eq,
            Instruction::If(BlockType::Empty),
            Instruction::LocalGet(0),
            Instruction::Return,
            Instruction::End,
            Instruction::LocalGet(3),
            Instruction::I32Const(1),
            Instruction::I32Add,
            Instruction::LocalSet(3),
            Instruction::Br(0),
            Instruction::End,
            Instruction::End,
            Instruction::End,
            Instruction::LocalGet(0),
            Instruction::I32Const(16),
            Instruction::I32Add,
            Instruction::LocalGet(0),
            Instruction::I32Load(MemArg { offset: 0, align: 2, memory_index: 0 }),
            Instruction::I32Const(4),
            Instruction::I32Mul,
            Instruction::I32Add,
            Instruction::LocalGet(1),
            Instruction::I32Store(MemArg { offset: 0, align: 2, memory_index: 0 }),
            Instruction::LocalGet(0),
            Instruction::LocalGet(0),
            Instruction::I32Load(MemArg { offset: 0, align: 2, memory_index: 0 }),
            Instruction::I32Const(1),
            Instruction::I32Add,
            Instruction::I32Store(MemArg { offset: 0, align: 2, memory_index: 0 }),
            Instruction::LocalGet(0),
        ]
    }

    /// Generate WASM for behavior-aware add operation
    /// Adds element to the end of the list, respecting unique behavior: a
    /// unique list that already holds the value is returned unchanged.
    /// List layout: [size:i32, capacity:i32, type_id:i32, behavior:i32, elements...]
    #[verifier::rlimit(40)]
    #[verifier::spinoff_prover]
    fn generate_list_add(&self) -> (r: Vec<Instruction>)
        ensures
            body_ok(r@, 4),
            r@ == Self::list_add_body(),
    {
        proof {
            reveal(ListBehaviorManager::list_add_body);
        }
        let mut b = Body::new(4);
        // Parameters: list_ptr (0), value (1)
        // Locals: behavior_flags (2), index (3)
        // Load behavior flags
        b.i(Instruction::LocalGet(0));
        b.i(Instruction::I32Load(MemArg { offset: 12, align: 2, memory_index: 0 }));
        b.i(Instruction::LocalSet(2)); // behavior_flags
        // Unique behavior: scan the elements for the value
        b.i(Instruction::LocalGet(2));
        b.i(Instruction::I32Const(BEHAVIOR_UNIQUE));
        b.i(Instruction::I32And);
        b.i(Instruction::If(BlockType::Empty));
        b.i(Instruction::I32Const(0));
        b.i(Instruction::LocalSet(3)); // index = 0
        b.i(Instruction::Block(BlockType::Empty));
        b.i(Instruction::Loop(BlockType::Empty));
        // Stop when index >= size
        b.i(Instruction::LocalGet(3));
        b.i(Instruction::LocalGet(0));
        b.i(Instruction::I32Load(MemArg { offset: 0, align: 2, memory_index: 0 }));
        b.i(Instruction::I32GeU);
        b.i(Instruction::BrIf(1));
        // element at list_ptr + 16 + index * 4
        b.i(Instruction::LocalGet(0));
        b.i(Instruction::LocalGet(3));
        b.i(Instruction::I32Const(4));
        b.i(Instruction::I32Mul);
        b.i(Instruction::I32Add);
        b.i(Instruction::I32Load(MemArg { offset: 16, align: 2, memory_index: 0 }));
        b.i(Instruction::LocalGet(1)); // value
        b.i(Instruction::I32Eq);
        // Already present: return the list unchanged
        b.i(Instruction::If(BlockType::Empty));
        b.i(Instruction::LocalGet(0));
        b.i(Instruction::Return);
        b.i(Instruction::End);
        // index = index + 1
        b.i(Instruction::LocalGet(3));
        b.i(Instruction::I32Const(1));
        b.i(Instruction::I32Add);
        b.i(Instruction::LocalSet(3));
        b.i(Instruction::Br(0));
        b.i(Instruction::End); // end loop
        b.i(Instruction::End); // end block
        b.i(Instruction::End); // end unique behavior check
        // Add element to end of list
        // Calculate element position: list_ptr + 16 + (size * 4)
        b.i(Instruction::LocalGet(0)); // list_ptr
        b.i(Instruction::I32Const(16)); // Header size
        b.i(Instruction::I32Add);
        b.i(Instruction::LocalGet(0)); // list_ptr
        b.i(Instruction::I32Load(MemArg { offset: 0, align: 2, memory_index: 0 })); // current size
        b.i(Instruction::I32Const(4)); // Element size (i32)
        b.i(Instruction::I32Mul);
        b.i(Instruction::I32Add); // element_ptr = list_ptr + 16 + (size * 4)
        // Store the value at element_ptr
        b.i(Instruction::LocalGet(1)); // value
        b.i(Instruction::I32Store(MemArg { offset: 0, align: 2, memory_index: 0 }));
        // Increment size
        b.i(Instruction::LocalGet(0)); // list_ptr
        b.i(Instruction::LocalGet(0)); // list_ptr
        b.i(Instruction::I32Load(MemArg { offset: 0, align: 2, memory_index: 0 })); // current size
        b.i(Instruction::I32Const(1));
        b.i(Instruction::I32Add); // size + 1
        b.i(Instruction::I32Store(MemArg { offset: 0, align: 2, memory_index: 0 })); // Store new size
        // Return list pointer
        b.i(Instruction::LocalGet(0));
        b.finish()
    }

    /// The instructions `generate_list_remove` returns.
    #[verifier::opaque]
    pub open spec fn list_remove_body() -> Seq<Instruction> {
        seq![
            Instruction::LocalGet(0),
            Instruction::I32Load(MemArg { offset: 0, align: 2, memory_index: 0 }),
            Instruction::I32Eqz,
            Instruction::If(BlockType::Result(ValType::I32)),
            Instruction::I32Const(0),
            Instruction::Else,
            Instruction::LocalGet(0),
            Instruction::I32Load(MemArg { offset: 12, align: 2, memory_index: 0 }),
            Instruction::LocalSet(1),
            Instruction::LocalGet(1),
            Instruction::I32Const(BEHAVIOR_LINE),
            Instruction::I32And,
            Instruction::If(BlockType::Result(ValType::I32)),
            Instruction::LocalGet(0),
            Instruction::I32Load(MemArg { offset: 16, align: 2, memory_index: 0 }),
            Instruction::LocalSet(1),
            Instruction::I32Const(0),
            Instruction::LocalSet(2),
            Instruction::Block(BlockType::Empty),
            Instruction::Loop(BlockType::Empty),
            Instruction::LocalGet(2),
            Instruction::I32Const(1),
            Instruction::I32Add,
            Instruction::LocalGet(0),
            Instruction::I32Load(MemArg { offset: 0, align: 2, memory_index: 0 }),
            Instruction::I32GeU,
            Instruction::BrIf(1),
            Instruction::LocalGet(0),
            Instruction::LocalGet(2),
            Instruction::I32Const(4),
            Instruction::I32Mul,
            Instruction::I32Add,
            Instruction::LocalGet(0),
            Instruction::LocalGet(2),
            Instruction::I32Const(4),
            Instruction::I32Mul,
            Instruction::I32Add,
            Instruction::I32Load(MemArg { offset: 20, align: 2, memory_index: 0 }),
            Instruction::I32Store(MemArg { offset: 16, align: 2, memory_index: 0 }),
            Instruction::LocalGet(2),
            Instruction::I32Const(1),
            Instruction::I32Add,
            Instruction::LocalSet(2),
            Instruction::Br(0),
            Instruction::End,
            Instruction::End,
            Instruction::LocalGet(0),
            Instruction::LocalGet(0),
            Instruction::I32Load(MemArg { offset: 0, align: 2, memory_index: 0 }),
            Instruction::I32Const(1),
            Instruction::I32Sub,
            Instruction::I32Store(MemArg { offset: 0, align: 2, memory_index: 0 }),
            Instruction::LocalGet(1),
            Instruction::Else,
            Instruction::LocalGet(0),
            Instruction::I32Const(16),
            Instruction::I32Add,
            Instruction::LocalGet(0),
            Instruction::I32Load(MemArg { offset: 0, align: 2, memory_index: 0 }),
            Instruction::I32Const(1),
            Instruction::I32Sub,
            Instruction::I32Const(4),
            Instruction::I32Mul,
            Instruction::I32Add,
            Instruction::I32Load(MemArg { offset: 0, align: 2, memory_index: 0 }),
            Instruction::LocalSet(1),
            Instruction::LocalGet(0),
            Instruction::LocalGet(0),
            Instruction::I32Load(MemArg { offset: 0, align: 2, memory_index: 0 }),
            Instruction::I32Const(1),
            Instruction::I32Sub,
            Instruction::I32Store(MemArg { offset: 0, align: 2, memory_index: 0 }),
            Instruction::LocalGet(1),
            Instruction::End,
            Instruction::End,
        ]
    }

    /// Generate WASM for behavior-aware remove operation
    /// For line (FIFO): removes from the front and shifts the remaining
    /// elements down by one
    /// For pile (LIFO) and default: removes from end (no shift needed)
    /// Uses local 1 for behavior_flags and then the removed value, local 2
    /// for the shift index
    #[verifier::rlimit(40)]
    #[verifier::spinoff_prover]
    fn generate_list_remove(&self) -> (r: Vec<Instruction>)
        ensures
            body_ok(r@, 3),
            r@ == Self::list_remove_body(),
    {
        proof {
            reveal(ListBehaviorManager::list_remove_body);
        }
        let mut b = Body::new(3);
        // Parameter: list_ptr (0)
        // Returns: removed value (0 if empty)
        // Check if list is empty
        b.i(Instruction::LocalGet(0));
        b.i(Instruction::I32Load(MemArg { offset: 0, align: 2, memory_index: 0 }));
        b.i(Instruction::I32Eqz);
        b.i(Instruction::If(BlockType::Result(ValType::I32)));
        b.i(Instruction::I32Const(0)); // Return 0 if empty
        b.i(Instruction::Else);
        // Load behavior flags first
        b.i(Instruction::LocalGet(0));
        b.i(Instruction::I32Load(MemArg { offset: 12, align: 2, memory_index: 0 }));
        b.i(Instruction::LocalSet(1)); // behavior_flags
        // Check for line behavior (FIFO - remove from front)
        b.i(Instruction::LocalGet(1));
        b.i(Instruction::I32Const(BEHAVIOR_LINE));
        b.i(Instruction::I32And);
        b.i(Instruction::If(BlockType::Result(ValType::I32)));
        // FIFO: save the first element (offset 16)
        b.i(Instruction::LocalGet(0));
        b.i(Instruction::I32Load(MemArg { offset: 16, align: 2, memory_index: 0 }));
        b.i(Instruction::LocalSet(1));
        // Shift elements 1..size down by one
        b.i(Instruction::I32Const(0));
        b.i(Instruction::LocalSet(2)); // index = 0
        b.i(Instruction::Block(BlockType::Empty));
        b.i(Instruction::Loop(BlockType::Empty));
        // Stop when index + 1 >= size
        b.i(Instruction::LocalGet(2));
        b.i(Instruction::I32Const(1));
        b.i(Instruction::I32Add);
        b.i(Instruction::LocalGet(0));
        b.i(Instruction::I32Load(MemArg { offset: 0, align: 2, memory_index: 0 }));
        b.i(Instruction::I32GeU);
        b.i(Instruction::BrIf(1));
        // element[index] = element[index + 1]
        b.i(Instruction::LocalGet(0));
        b.i(Instruction::LocalGet(2));
        b.i(Instruction::I32Const(4));
        b.i(Instruction::I32Mul);
        b.i(Instruction::I32Add);
        b.i(Instruction::LocalGet(0));
        b.i(Instruction::LocalGet(2));
        b.i(Instruction::I32Const(4));
        b.i(Instruction::I32Mul);
        b.i(Instruction::I32Add);
        b.i(Instruction::I32Load(MemArg { offset: 20, align: 2, memory_index: 0 }));
        b.i(Instruction::I32Store(MemArg { offset: 16, align: 2, memory_index: 0 }));
        // index = index + 1
        b.i(Instruction::LocalGet(2));
        b.i(Instruction::I32Const(1));
        b.i(Instruction::I32Add);
        b.i(Instruction::LocalSet(2));
        b.i(Instruction::Br(0));
        b.i(Instruction::End); // end loop
        b.i(Instruction::End); // end block
        // Decrement size
        b.i(Instruction::LocalGet(0)); // list_ptr
        b.i(Instruction::LocalGet(0)); // list_ptr
        b.i(Instruction::I32Load(MemArg { offset: 0, align: 2, memory_index: 0 })); // current size
        b.i(Instruction::I32Const(1));
        b.i(Instruction::I32Sub); // size - 1
        b.i(Instruction::I32Store(MemArg { offset: 0, align: 2, memory_index: 0 }));
        // Return saved value
        b.i(Instruction::LocalGet(1));
        b.i(Instruction::Else);
        // LIFO/default: Get last element (at size - 1)
        b.i(Instruction::LocalGet(0)); // list_ptr
        b.i(Instruction::I32Const(16)); // Header size
        b.i(Instruction::I32Add);
        b.i(Instruction::LocalGet(0)); // list_ptr
        b.i(Instruction::I32Load(MemArg { offset: 0, align: 2, memory_index: 0 })); // size
        b.i(Instruction::I32Const(1));
        b.i(Instruction::I32Sub); // size - 1
        b.i(Instruction::I32Const(4)); // Element size (i32 = 4 bytes)
        b.i(Instruction::I32Mul);
        b.i(Instruction::I32Add); // element_ptr = list_ptr + 16 + (size-1)*4
        b.i(Instruction::I32Load(MemArg { offset: 0, align: 2, memory_index: 0 }));
        // Save the value
        b.i(Instruction::LocalSet(1));
        // Decrement size for LIFO
        b.i(Instruction::LocalGet(0)); // list_ptr
        b.i(Instruction::LocalGet(0)); // list_ptr
        b.i(Instruction::I32Load(MemArg { offset: 0, align: 2, memory_index: 0 })); // current size
        b.i(Instruction::I32Const(1));
        b.i(Instruction::I32Sub); // size - 1
        b.i(Instruction::I32Store(MemArg { offset: 0, align: 2, memory_index: 0 }));
        // Return saved value
        b.i(Instruction::LocalGet(1));
        b.i(Instruction::End); // End behavior check
        b.i(Instruction::End); // End empty check
        b.finish()
    }

    /// The instructions `generate_list_peek` returns.
    #[verifier::opaque]
    pub open spec fn list_peek_body() -> Seq<Instruction> {
        seq![
            Instruction::LocalGet(0),
            Instruction::I32Load(MemArg { offset: 0, align: 2, memory_index: 0 }),
            Instruction::I32Eqz,
            Instruction::If(BlockType::Result(ValType::I32)),
            Instruction::I32Const(0),
            Instruction::Else,
            Instruction::LocalGet(0),
            Instruction::I32Load(MemArg { offset: 12, align: 2, memory_index: 0 }),
            Instruction::LocalSet(1),
            Instruction::LocalGet(1),
            Instruction::I32Const(BEHAVIOR_LINE),
            Instruction::I32And,
            Instruction::If(BlockType::Result(ValType::I32)),
            Instruction::LocalGet(0),
            Instruction::I32Load(MemArg { offset: 16, align: 2, memory_index: 0 }),
            Instruction::Else,
            Instruction::LocalGet(0),
            Instruction::I32Const(16),
            Instruction::I32Add,
            Instruction::LocalGet(0),
            Instruction::I32Load(MemArg { offset: 0, align: 2, memory_index: 0 }),
            Instruction::I32Const(1),
            Instruction::I32Sub,
            Instruction::I32Const(4),
            Instruction::I32Mul,
            Instruction::I32Add,
            Instruction::I32Load(MemArg { offset: 0, align: 2, memory_index: 0 }),
            Instruction::End,
            Instruction::End,
        ]
    }

    /// Generate WASM for behavior-aware peek operation
    fn generate_list_peek(&self) -> (r: Vec<Instruction>)
        ensures
            body_ok(r@, 2),
            r@ == Self::list_peek_body(),
    {
        proof {
            reveal(ListBehaviorManager::list_peek_body);
        }
        let mut b = Body::new(2);
        // Parameter: list_ptr (0)
        // Local 1: behavior_flags
        // Returns: next value without removal (0 if empty)
        // Check if list is empty
        b.i(Instruction::LocalGet(0));
        b.i(Instruction::I32Load(MemArg { offset: 0, align: 2, memory_index: 0 }));
        b.i(Instruction::I32Eqz);
        b.i(Instruction::If(BlockType::Result(ValType::I32)));
        b.i(Instruction::I32Const(0)); // Return 0 if empty
        b.i(Instruction::Else);
        // Load behavior flags
        b.i(Instruction::LocalGet(0));
        b.i(Instruction::I32Load(MemArg { offset: 12, align: 2, memory_index: 0 }));
        b.i(Instruction::LocalSet(1)); // behavior_flags
        // Check for line behavior (FIFO - peek at front)
        b.i(Instruction::LocalGet(1));
        b.i(Instruction::I32Const(BEHAVIOR_LINE));
        b.i(Instruction::I32And);
        b.i(Instruction::If(BlockType::Result(ValType::I32)));
        // Get first element at offset 16 (header size)
        b.i(Instruction::LocalGet(0));
        b.i(Instruction::I32Load(MemArg { offset: 16, align: 2, memory_index: 0 })); // Header size - first element
        b.i(Instruction::Else);
        // Default and pile behavior - peek at end (last element)
        // element_ptr = list_ptr + 16 + (size - 1) * 4
        b.i(Instruction::LocalGet(0)); // list_ptr
        b.i(Instruction::I32Const(16)); // Header size
        b.i(Instruction::I32Add);
        b.i(Instruction::LocalGet(0)); // list_ptr
        b.i(Instruction::I32Load(MemArg { offset: 0, align: 2, memory_index: 0 })); // size
        b.i(Instruction::I32Const(1));
        b.i(Instruction::I32Sub); // size - 1
        b.i(Instruction::I32Const(4)); // Element size (i32 = 4 bytes)
        b.i(Instruction::I32Mul);
        b.i(Instruction::I32Add); // element_ptr
        b.i(Instruction::I32Load(MemArg { offset: 0, align: 2, memory_index: 0 }));
        b.i(Instruction::End);
        b.i(Instruction::End);
        b.finish()
    }

    /// The instructions `generate_list_contains` returns.
    #[verifier::opaque]
    pub open spec fn list_contains_body() -> Seq<Instruction> {
        seq![
            Instruction::LocalGet(0),
            Instruction::I32Load(MemArg { offset: 0, align: 2, memory_index: 0 }),
            Instruction::LocalSet(2),
            Instruction::I32Const(0),
            Instruction::LocalSet(3),
            Instruction::Block(BlockType::Result(ValType::I32)),
            Instruction::Loop(BlockType::Empty),
            Instruction::LocalGet(3),
            Instruction::LocalGet(2),
            Instruction::I32GeU,
            Instruction::If(BlockType::Empty),
            Instruction::I32Const(0),
            Instruction::Br(2),
            Instruction::End,
            Instruction::LocalGet(0),
            Instruction::I32Const(16),
            Instruction::I32Add,
            Instruction::LocalGet(3),
            Instruction::I32Const(4),
            Instruction::I32Mul,
            Instruction::I32Add,
            Instruction::I32Load(MemArg { offset: 0, align: 2, memory_index: 0 }),
            Instruction::LocalGet(1),
            Instruction::I32Eq,
            Instruction::If(BlockType::Empty),
            Instruction::I32Const(1),
            Instruction::Br(2),
            Instruction::End,
            Instruction::LocalGet(3),
            Instruction::I32Const(1),
            Instruction::I32Add,
            Instruction::LocalSet(3),
            Instruction::Br(0),
            Instruction::End,
            Instruction::I32Const(0),
            Instruction::End,
        ]
    }

    /// Generate WASM for list.contains operation
    fn generate_list_contains(&self) -> (r: Vec<Instruction>)
        ensures
            body_ok(r@, 4),
            r@ == Self::list_contains_body(),
    {
        proof {
            reveal(ListBehaviorManager::list_contains_body);
        }
        let mut b = Body::new(4);
        // Parameters: list_ptr (0), value (1)
        // Locals: size (2), counter (3)
        // Returns: 1 if found, 0 if not
        // Get size
        b.i(Instruction::LocalGet(0));
        b.i(Instruction::I32Load(MemArg { offset: 0, align: 2, memory_index: 0 }));
        b.i(Instruction::LocalSet(2)); // size
        // Initialize counter to 0 in local 3
        b.i(Instruction::I32Const(0));
        b.i(Instruction::LocalSet(3)); // counter = 0
        // Create a simple block for early exit with return value
        b.i(Instruction::Block(BlockType::Result(ValType::I32)));
        b.i(Instruction::Loop(BlockType::Empty));
        // Check bounds: if counter >= size, exit with 0 (not found)
        b.i(Instruction::LocalGet(3)); // counter
        b.i(Instruction::LocalGet(2)); // size
        b.i(Instruction::I32GeU);
        b.i(Instruction::If(BlockType::Empty));
        b.i(Instruction::I32Const(0)); // Not found
        b.i(Instruction::Br(2)); // Exit block with result 0
        b.i(Instruction::End);
        // Load and compare element
        // element_ptr = list_ptr + 16 + (counter * 4)
        b.i(Instruction::LocalGet(0)); // list_ptr
        b.i(Instruction::I32Const(16)); // header size
        b.i(Instruction::I32Add);
        b.i(Instruction::LocalGet(3)); // counter
        b.i(Instruction::I32Const(4)); // element size (i32 = 4 bytes)
        b.i(Instruction::I32Mul);
        b.i(Instruction::I32Add);
        b.i(Instruction::I32Load(MemArg { offset: 0, align: 2, memory_index: 0 }));
        b.i(Instruction::LocalGet(1)); // search value
        b.i(Instruction::I32Eq);
        b.i(Instruction::If(BlockType::Empty));
        // Found it!
        b.i(Instruction::I32Const(1)); // Found
        b.i(Instruction::Br(2)); // Exit block with result 1
        b.i(Instruction::End);
        // Increment counter and continue
        b.i(Instruction::LocalGet(3));
        b.i(Instruction::I32Const(1));
        b.i(Instruction::I32Add);
        b.i(Instruction::LocalSet(3)); // counter++
        b.i(Instruction::Br(0)); // Continue loop
        b.i(Instruction::End); // End loop
        // Fallback return value for safety (loop should always exit via Br)
        b.i(Instruction::I32Const(0)); // Default to "not found"
        b.i(Instruction::End); // End block (returns the result from Br instructions or default 0)
        b.finish()
    }

    /// The instructions `generate_list_size` returns.
    #[verifier::opaque]
    pub open spec fn list_size_body() -> Seq<Instruction> {
        seq![
            Instruction::LocalGet(0),
            Instruction::I32Load(MemArg { offset: 0, align: 2, memory_index: 0 }),
        ]
    }

    /// Generate WASM for list.size operation
    fn generate_list_size(&self) -> (r: Vec<Instruction>)
        ensures
            body_ok(r@, 1),
            r@ == Self::list_size_body(),
    {
        proof {
            reveal(ListBehaviorManager::list_size_body);
        }
        let mut b = Body::new(1);
        b.i(Instruction::LocalGet(0));
        b.i(Instruction::I32Load(MemArg { offset: 0, align: 2, memory_index: 0 }));
        b.finish()
    }

    /// The instructions `generate_list_is_empty` returns.
    #[verifier::opaque]
    pub open spec fn list_is_empty_body() -> Seq<Instruction> {
        seq![
            Instruction::LocalGet(0),
            Instruction::I32Load(MemArg { offset: 0, align: 2, memory_index: 0 }),
            Instruction::I32Eqz,
        ]
    }

    /// Generate WASM for list.isEmpty operation
    fn generate_list_is_empty(&self) -> (r: Vec<Instruction>)
        ensures
            body_ok(r@, 1),
            r@ == Self::list_is_empty_body(),
    {
        proof {
            reveal(ListBehaviorManager::list_is_empty_body);
        }
        let mut b = Body::new(1);
        b.i(Instruction::LocalGet(0));
        b.i(Instruction::I32Load(MemArg { offset: 0, align: 2, memory_index: 0 }));
        b.i(Instruction::I32Eqz);
        b.finish()
    }

    /// The instructions `generate_list_is_not_empty` returns.
    #[verifier::opaque]
    pub open spec fn list_is_not_empty_body() -> Seq<Instruction> {
        seq![
            Instruction::LocalGet(0),
            Instruction::I32Load(MemArg { offset: 0, align: 2, memory_index: 0 }),
            Instruction::I32Const(0),
            Instruction::I32Ne,
        ]
    }

    /// Generate WASM for list.isNotEmpty operation
    fn generate_list_is_not_empty(&self) -> (r: Vec<Instruction>)
        ensures
            body_ok(r@, 1),
            r@ == Self::list_is_not_empty_body(),
    {
        proof {
            reveal(ListBehaviorManager::list_is_not_empty_body);
        }
        let mut b = Body::new(1);
        b.i(Instruction::LocalGet(0));
        b.i(Instruction::I32Load(MemArg { offset: 0, align: 2, memory_index: 0 }));
        b.i(Instruction::I32Const(0));
        b.i(Instruction::I32Ne);
        b.finish()
    }

}

} // verus!
