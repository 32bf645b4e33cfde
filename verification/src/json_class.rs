//! The JSON module: a pure-WebAssembly parser and stringifier for the
//! Clean Language `json` class, plus the accessors behind bracket and
//! dot-path notation. No host imports are needed.

use vstd::prelude::*;
use crate::body::Body;
use crate::codegen::{
    CodeGenerator, Signature, appended, grew, bound, defined, lookup, aliased, shifted,
    lemma_appended_start, lemma_appended_compose, lemma_appended_fits, lemma_grew_compose, lemma_aliased_push,
    lemma_lookup_concat, lemma_lookup_bound_absent, lemma_lookup_bound_found, lemma_lookup_last,
    lemma_lookup_push,
    register_tracked, alias_if_present, binding_for,
};
use crate::error::CompilerError;
use crate::wasm::{Instruction, MemArg, BlockType, ValType, WasmType, body_ok, lemma_body_ok_more_locals};

verus! {

/// The functions `register_parse_operations` registers, in order, with the bodies it
/// gives them for these helper indices and first index `base`.
pub open spec fn json_parse_signatures(malloc_index: u32, base: u32) -> Seq<Signature> {
    seq![
        defined(
            "__json_skip_string"@,
            seq![WasmType::I32, WasmType::I32, WasmType::I32],
            None,
            seq![WasmType::I32, WasmType::I32],
            JsonClass::skip_string_instructions_body(),
        ),
        defined(
            "__json_parse_string"@,
            seq![WasmType::I32, WasmType::I32, WasmType::I32],
            Some(WasmType::I32),
            seq![WasmType::I32, WasmType::I32, WasmType::I32, WasmType::I32, WasmType::I32],
            JsonClass::parse_string_instructions_body(malloc_index),
        ),
        defined(
            "__json_parse_value"@,
            seq![WasmType::I32, WasmType::I32, WasmType::I32],
            Some(WasmType::I32),
            seq![WasmType::I32, WasmType::I32, WasmType::I32, WasmType::I32, WasmType::I32, WasmType::I32, WasmType::I32, WasmType::I32, WasmType::I32, WasmType::F64, WasmType::F64, WasmType::F64],
            JsonClass::parse_value_instructions_body((base + 3) as u32, (base + 4) as u32, (base + 1) as u32, malloc_index),
        ),
        defined(
            "__json_parse_object"@,
            seq![WasmType::I32, WasmType::I32, WasmType::I32],
            Some(WasmType::I32),
            seq![WasmType::I32, WasmType::I32, WasmType::I32, WasmType::I32, WasmType::I32, WasmType::I32, WasmType::I32, WasmType::I32, WasmType::I32, WasmType::I32, WasmType::F64, WasmType::F64],
            JsonClass::parse_object_instructions_body((base + 2) as u32, base, (base + 1) as u32, malloc_index),
        ),
        defined(
            "__json_parse_array"@,
            seq![WasmType::I32, WasmType::I32, WasmType::I32],
            Some(WasmType::I32),
            seq![WasmType::I32, WasmType::I32, WasmType::I32, WasmType::I32, WasmType::I32, WasmType::I32, WasmType::I32, WasmType::I32, WasmType::I32, WasmType::I32, WasmType::F64, WasmType::F64],
            JsonClass::parse_array_instructions_body((base + 2) as u32, base, (base + 1) as u32, malloc_index),
        ),
        defined(
            "json.textToData"@,
            seq![WasmType::I32],
            Some(WasmType::I32),
            seq![WasmType::I32, WasmType::I32, WasmType::I32],
            JsonClass::text_to_data_instructions_body((base + 2) as u32, malloc_index),
        ),
        defined(
            "json.tryTextToData"@,
            seq![WasmType::I32],
            Some(WasmType::I32),
            seq![WasmType::I32, WasmType::I32, WasmType::I32, WasmType::I32, WasmType::I32, WasmType::I32, WasmType::I32, WasmType::I32],
            JsonClass::try_text_to_data_instructions_body((base + 2) as u32, malloc_index),
        ),
    ]
}

/// The names `register_parse_operations` binds, with indices counted from its first
/// registered function.
pub open spec fn json_parse_bindings() -> Seq<(Seq<char>, int)> {
    seq![
        ("__json_skip_string"@, 0),
        ("__json_parse_string"@, 1),
        ("__json_parse_value"@, 2),
        ("__json_parse_object"@, 3),
        ("__json_parse_array"@, 4),
        ("json.textToData"@, 5),
        ("json.tryTextToData"@, 6),
    ]
}

/// The functions `register_stringify_operations` registers, in order, with the bodies it
/// gives them for these helper indices and first index `base`.
pub open spec fn json_stringify_signatures(malloc_index: u32, string_concat_index: u32, int_to_string_index: u32, float_to_string_index: u32, base: u32) -> Seq<Signature> {
    seq![
        defined(
            "__json_quote_string"@,
            seq![WasmType::I32],
            Some(WasmType::I32),
            seq![WasmType::I32, WasmType::I32, WasmType::I32, WasmType::I32, WasmType::I32, WasmType::I32],
            JsonClass::quote_string_instructions_body(malloc_index),
        ),
        defined(
            "__json_stringify_value"@,
            seq![WasmType::I32],
            Some(WasmType::I32),
            seq![WasmType::I32, WasmType::I32, WasmType::I32, WasmType::I32, WasmType::I32, WasmType::F64],
            JsonClass::stringify_value_instructions_body(malloc_index, int_to_string_index, float_to_string_index, base, (base + 2) as u32, (base + 3) as u32),
        ),
        defined(
            "__json_stringify_array"@,
            seq![WasmType::I32],
            Some(WasmType::I32),
            seq![WasmType::I32, WasmType::I32, WasmType::I32, WasmType::I32, WasmType::I32, WasmType::I32, WasmType::I32],
            JsonClass::stringify_array_instructions_body(malloc_index, string_concat_index, (base + 1) as u32),
        ),
        defined(
            "__json_stringify_object"@,
            seq![WasmType::I32],
            Some(WasmType::I32),
            seq![WasmType::I32, WasmType::I32, WasmType::I32, WasmType::I32, WasmType::I32, WasmType::I32, WasmType::I32, WasmType::I32, WasmType::I32],
            JsonClass::stringify_object_instructions_body(malloc_index, string_concat_index, base, (base + 1) as u32),
        ),
        defined(
            "__json_pretty_stringify_value"@,
            seq![WasmType::I32, WasmType::I32],
            Some(WasmType::I32),
            seq![WasmType::I32, WasmType::I32, WasmType::I32, WasmType::I32, WasmType::F64],
            JsonClass::pretty_stringify_value_instructions_body(malloc_index, int_to_string_index, float_to_string_index, base, (base + 5) as u32, (base + 6) as u32, (base + 2) as u32, (base + 3) as u32),
        ),
        defined(
            "__json_pretty_stringify_array"@,
            seq![WasmType::I32, WasmType::I32],
            Some(WasmType::I32),
            seq![WasmType::I32, WasmType::I32, WasmType::I32, WasmType::I32, WasmType::I32, WasmType::I32, WasmType::I32, WasmType::I32, WasmType::I32],
            JsonClass::pretty_stringify_array_instructions_body(malloc_index, string_concat_index, (base + 4) as u32),
        ),
        defined(
            "__json_pretty_stringify_object"@,
            seq![WasmType::I32, WasmType::I32],
            Some(WasmType::I32),
            seq![WasmType::I32, WasmType::I32, WasmType::I32, WasmType::I32, WasmType::I32, WasmType::I32, WasmType::I32, WasmType::I32, WasmType::I32, WasmType::I32, WasmType::I32],
            JsonClass::pretty_stringify_object_instructions_body(malloc_index, string_concat_index, base, (base + 4) as u32),
        ),
        defined(
            "__json_encode_cln_list"@,
            seq![WasmType::I32, WasmType::I32],
            Some(WasmType::I32),
            seq![WasmType::I32, WasmType::I32, WasmType::I32, WasmType::I32, WasmType::I32, WasmType::I32, WasmType::I32, WasmType::I32, WasmType::F64],
            JsonClass::encode_cln_list_instructions_body(malloc_index, string_concat_index, int_to_string_index, float_to_string_index, base),
        ),
        defined(
            "__json_encode_cln_pairs"@,
            seq![WasmType::I32, WasmType::I32],
            Some(WasmType::I32),
            seq![WasmType::I32, WasmType::I32, WasmType::I32, WasmType::I32, WasmType::I32, WasmType::I32, WasmType::I32, WasmType::I32, WasmType::I32],
            JsonClass::encode_cln_pairs_instructions_body(malloc_index, string_concat_index, int_to_string_index, base),
        ),
        defined(
            "__json_from_cln_list"@,
            seq![WasmType::I32, WasmType::I32],
            Some(WasmType::I32),
            seq![WasmType::I32, WasmType::I32, WasmType::I32, WasmType::I32, WasmType::I32, WasmType::I32, WasmType::I32],
            JsonClass::from_cln_list_instructions_body(malloc_index),
        ),
        defined(
            "__json_from_cln_pairs"@,
            seq![WasmType::I32, WasmType::I32],
            Some(WasmType::I32),
            seq![WasmType::I32, WasmType::I32, WasmType::I32, WasmType::I32, WasmType::I32, WasmType::I32, WasmType::I32, WasmType::I32],
            JsonClass::from_cln_pairs_instructions_body(malloc_index),
        ),
        defined(
            "json.dataToText"@,
            seq![WasmType::I32],
            Some(WasmType::I32),
            seq![],
            JsonClass::data_to_text_instructions_body((base + 1) as u32),
        ),
        defined(
            "json.prettyDataToText"@,
            seq![WasmType::I32],
            Some(WasmType::I32),
            seq![],
            JsonClass::pretty_data_to_text_instructions_body((base + 4) as u32),
        ),
    ]
}

/// The names `register_stringify_operations` binds, with indices counted from its first
/// registered function.
pub open spec fn json_stringify_bindings() -> Seq<(Seq<char>, int)> {
    seq![
        ("__json_quote_string"@, 0),
        ("__json_stringify_value"@, 1),
        ("__json_stringify_array"@, 2),
        ("__json_stringify_object"@, 3),
        ("__json_pretty_stringify_value"@, 4),
        ("__json_pretty_stringify_array"@, 5),
        ("__json_pretty_stringify_object"@, 6),
        ("__json_encode_cln_list"@, 7),
        ("__json_encode_cln_pairs"@, 8),
        ("__json_from_cln_list"@, 9),
        ("__json_from_cln_pairs"@, 10),
        ("json.dataToText"@, 11),
        ("json.prettyDataToText"@, 12),
    ]
}

/// The functions `register_access_operations` registers, in order, with the bodies it
/// gives them for these helper indices.
pub open spec fn json_access_signatures(malloc_index: u32, memcmp_index: u32, field_index: u32, index_index: u32) -> Seq<Signature> {
    seq![
        defined(
            "__memcmp_bytes"@,
            seq![WasmType::I32, WasmType::I32, WasmType::I32, WasmType::I32],
            Some(WasmType::I32),
            seq![WasmType::I32],
            JsonClass::memcmp_bytes_instructions_body(),
        ),
        defined(
            "__json_get_field"@,
            seq![WasmType::I32, WasmType::I32, WasmType::I32],
            Some(WasmType::I32),
            seq![WasmType::I32, WasmType::I32, WasmType::I32, WasmType::I32, WasmType::I32, WasmType::I32, WasmType::I32, WasmType::I32],
            JsonClass::get_field_instructions_body(malloc_index, memcmp_index),
        ),
        defined(
            "__json_get_index"@,
            seq![WasmType::I32, WasmType::I32],
            Some(WasmType::I32),
            seq![WasmType::I32, WasmType::I32, WasmType::I32],
            JsonClass::get_index_instructions_body(malloc_index),
        ),
        defined(
            "__json_get_path"@,
            seq![WasmType::I32, WasmType::I32, WasmType::I32],
            Some(WasmType::I32),
            seq![WasmType::I32, WasmType::I32, WasmType::I32, WasmType::I32, WasmType::I32, WasmType::I32, WasmType::I32, WasmType::I32, WasmType::I32, WasmType::I32],
            JsonClass::get_path_instructions_body(field_index, index_index),
        ),
    ]
}

/// The names `register_access_operations` binds, with indices counted from its first
/// registered function.
pub open spec fn json_access_bindings() -> Seq<(Seq<char>, int)> {
    seq![
        ("__memcmp_bytes"@, 0),
        ("__json_get_field"@, 1),
        ("__json_get_index"@, 2),
        ("__json_get_path"@, 3),
    ]
}

/// The integer-to-string helper the stringify stage calls:
/// `integer.toString` where it resolves, `int_to_string` otherwise.
pub open spec fn json_int_to_string_index(names: Seq<(Seq<char>, u32)>) -> u32 {
    match lookup(names, "integer.toString"@) {
        Some(i) => i,
        None => lookup(names, "int_to_string"@)->0,
    }
}

/// The stringify helpers, with the bodies they get for the helpers `names`
/// resolves and first index `base`, where `string.concat` is available;
/// none otherwise.
pub open spec fn json_stringify_signatures_in(names: Seq<(Seq<char>, u32)>, base: int) -> Seq<
    Signature,
> {
    if lookup(names, "string.concat"@) is Some {
        json_stringify_signatures(
            lookup(names, "__malloc"@)->0,
            lookup(names, "string.concat"@)->0,
            json_int_to_string_index(names),
            lookup(names, "float_to_string"@)->0,
            base as u32,
        )
    } else {
        Seq::empty()
    }
}

/// The accessors with the bodies they get for the allocator at
/// `malloc_index` when registered from index `base` on.
pub open spec fn json_access_signatures_at(malloc_index: u32, base: nat) -> Seq<Signature> {
    json_access_signatures(malloc_index, base as u32, (base + 1) as u32, (base + 2) as u32)
}

/// How many stringify helpers are registered.
pub open spec fn json_stringify_count(has_concat: bool) -> int {
    if has_concat {
        13
    } else {
        0
    }
}

/// The names the stringify stage binds, where `string.concat` is available.
pub open spec fn json_stringify_bindings_if(has_concat: bool) -> Seq<(Seq<char>, int)> {
    if has_concat {
        json_stringify_bindings()
    } else {
        Seq::empty()
    }
}

/// The `json.get` wrapper's signature, calling the path walker and the
/// parser at the given indices.
pub open spec fn json_get_signature(path_index: u32, text_to_data_index: u32) -> Signature {
    defined(
        "json.get"@,
        seq![WasmType::I32, WasmType::I32],
        Some(WasmType::I32),
        seq![WasmType::I32, WasmType::I32, WasmType::I32, WasmType::I32],
        JsonClass::get_wrapper_instructions_body(path_index, text_to_data_index),
    )
}

/// The canonical aliases: `json.encode` for `json.dataToText` and
/// `json.decode` for `json.textToData`.
pub open spec fn json_alias_pairs() -> Seq<(Seq<char>, Seq<char>)> {
    seq![("json.dataToText"@, "json.encode"@), ("json.textToData"@, "json.decode"@)]
}

/// What the stringify stage looks up must resolve where it is used, and
/// its index predictions (up to `next + 6`) must fit.
pub open spec fn stringify_prerequisites(names: Seq<(Seq<char>, u32)>, next: int) -> bool {
    lookup(names, "string.concat"@) is Some ==> {
        &&& lookup(names, "__malloc"@) is Some
        &&& (lookup(names, "integer.toString"@) is Some || lookup(names, "int_to_string"@) is Some)
        &&& lookup(names, "float_to_string"@) is Some
        &&& next + 6 <= u32::MAX
    }
}

/// What registering the JSON module needs of the table it starts from:
/// the allocator is registered, the parse stage's index predictions fit,
/// and, where the stringify stage runs, its prerequisites hold.
pub open spec fn json_prerequisites(names: Seq<(Seq<char>, u32)>, n0: int) -> bool {
    &&& lookup(names, "__malloc"@) is Some
    &&& n0 + 4 <= u32::MAX
    &&& n0 + 7 <= u32::MAX ==> stringify_prerequisites(names, n0 + 7)
}

/// The functions the JSON module registers, in order, before `json.get`,
/// in a table whose names are `names` and that holds `n0` functions.
pub open spec fn json_stage_signatures(names: Seq<(Seq<char>, u32)>, n0: int) -> Seq<Signature> {
    let m = lookup(names, "__malloc"@)->0;
    let k = json_stringify_count(lookup(names, "string.concat"@) is Some);
    json_parse_signatures(m, n0 as u32) + json_stringify_signatures_in(names, n0 + 7)
        + json_access_signatures_at(m, (n0 + 7 + k) as nat)
}

/// The names the JSON module binds before its aliases, counted from its
/// first registered function.
pub open spec fn json_stage_bindings(has_concat: bool) -> Seq<(Seq<char>, int)> {
    json_parse_bindings() + shifted(json_stringify_bindings_if(has_concat), 7) + shifted(
        json_access_bindings(),
        7 + json_stringify_count(has_concat),
    )
}

/// How many functions registering the JSON module adds.
pub open spec fn json_function_count(names: Seq<(Seq<char>, u32)>) -> nat {
    (12 + json_stringify_count(lookup(names, "string.concat"@) is Some)) as nat
}

/// `new` is `old` after registering the JSON module: the parse helpers,
/// the stringify helpers where `string.concat` resolves, the accessors,
/// the canonical aliases where their targets resolve, and `json.get`.
pub open spec fn json_registered(old: CodeGenerator, new: CodeGenerator) -> bool {
    let n0 = old.n_functions() as int;
    let has_concat = old.index_of("string.concat"@) is Some;
    let k = json_stringify_count(has_concat);
    let sigs = json_stage_signatures(old.names(), n0);
    let names = aliased(old.names() + bound(json_stage_bindings(has_concat), n0), json_alias_pairs());
    &&& grew(old, new, sigs.push(json_get_signature((n0 + 10 + k) as u32, (n0 + 5) as u32)))
    &&& new.names() == names.push(("json.get"@, (n0 + 11 + k) as u32))
}

/// The parse stage binds none of the names the later stages look up.
proof fn lemma_json_prerequisites_after_parse(names: Seq<(Seq<char>, u32)>, n0: int)
    ensures
        forall|key: Seq<char>|
            key == "string.concat"@ || key == "__malloc"@ || key == "integer.toString"@ || key
                == "int_to_string"@ || key == "float_to_string"@ ==> #[trigger] lookup(
                names + bound(json_parse_bindings(), n0),
                key,
            ) == lookup(names, key),
{
    reveal_strlit("__json_encode_cln_list");
    reveal_strlit("__json_encode_cln_pairs");
    reveal_strlit("__json_from_cln_list");
    reveal_strlit("__json_from_cln_pairs");
    reveal_strlit("__json_get_field");
    reveal_strlit("__json_get_index");
    reveal_strlit("__json_get_path");
    reveal_strlit("__json_parse_array");
    reveal_strlit("__json_parse_object");
    reveal_strlit("__json_parse_string");
    reveal_strlit("__json_parse_value");
    reveal_strlit("__json_pretty_stringify_array");
    reveal_strlit("__json_pretty_stringify_object");
    reveal_strlit("__json_pretty_stringify_value");
    reveal_strlit("__json_quote_string");
    reveal_strlit("__json_skip_string");
    reveal_strlit("__json_stringify_array");
    reveal_strlit("__json_stringify_object");
    reveal_strlit("__json_stringify_value");
    reveal_strlit("__malloc");
    reveal_strlit("__memcmp_bytes");
    reveal_strlit("float_to_string");
    reveal_strlit("int_to_string");
    reveal_strlit("integer.toString");
    reveal_strlit("json.dataToText");
    reveal_strlit("json.decode");
    reveal_strlit("json.encode");
    reveal_strlit("json.get");
    reveal_strlit("json.prettyDataToText");
    reveal_strlit("json.textToData");
    reveal_strlit("json.tryTextToData");
    reveal_strlit("string.concat");
    let pb = json_parse_bindings();
    assert forall|key: Seq<char>|
        key == "string.concat"@ || key == "__malloc"@ || key == "integer.toString"@ || key
            == "int_to_string"@ || key == "float_to_string"@ implies #[trigger] lookup(
            names + bound(pb, n0),
            key,
        ) == lookup(names, key) by {
        assert forall|j: int| 0 <= j < pb.len() implies (#[trigger] pb[j]).0 != key by {
            if pb[j].0 == key {
                assert(pb[j].0.len() == key.len());
                assert(pb[j].0[0] == key[0]);
            }
        }
        lemma_lookup_bound_absent(pb, n0, key);
        lemma_lookup_concat(names, bound(pb, n0), key);
    }
}

/// Neither the parse nor the stringify stage binds `__malloc`.
proof fn lemma_json_malloc_after_stringify(names: Seq<(Seq<char>, u32)>, n0: int, has_concat: bool)
    ensures
        lookup(
            names + bound(json_parse_bindings() + shifted(json_stringify_bindings_if(has_concat), 7), n0),
            "__malloc"@,
        ) == lookup(names, "__malloc"@),
{
    reveal_strlit("__json_encode_cln_list");
    reveal_strlit("__json_encode_cln_pairs");
    reveal_strlit("__json_from_cln_list");
    reveal_strlit("__json_from_cln_pairs");
    reveal_strlit("__json_get_field");
    reveal_strlit("__json_get_index");
    reveal_strlit("__json_get_path");
    reveal_strlit("__json_parse_array");
    reveal_strlit("__json_parse_object");
    reveal_strlit("__json_parse_string");
    reveal_strlit("__json_parse_value");
    reveal_strlit("__json_pretty_stringify_array");
    reveal_strlit("__json_pretty_stringify_object");
    reveal_strlit("__json_pretty_stringify_value");
    reveal_strlit("__json_quote_string");
    reveal_strlit("__json_skip_string");
    reveal_strlit("__json_stringify_array");
    reveal_strlit("__json_stringify_object");
    reveal_strlit("__json_stringify_value");
    reveal_strlit("__malloc");
    reveal_strlit("__memcmp_bytes");
    reveal_strlit("float_to_string");
    reveal_strlit("int_to_string");
    reveal_strlit("integer.toString");
    reveal_strlit("json.dataToText");
    reveal_strlit("json.decode");
    reveal_strlit("json.encode");
    reveal_strlit("json.get");
    reveal_strlit("json.prettyDataToText");
    reveal_strlit("json.textToData");
    reveal_strlit("json.tryTextToData");
    reveal_strlit("string.concat");
    let b = json_parse_bindings() + shifted(json_stringify_bindings_if(has_concat), 7);
    assert forall|j: int| 0 <= j < b.len() implies (#[trigger] b[j]).0 != "__malloc"@ by {
        if b[j].0 == "__malloc"@ {
            assert(b[j].0.len() == 8);
        }
    }
    lemma_lookup_bound_absent(b, n0, "__malloc"@);
    lemma_lookup_concat(names, bound(b, n0), "__malloc"@);
}

/// After the accessors and aliases, `__json_get_path` resolves to the last
/// function the stages register and `json.textToData` to the sixth.
proof fn lemma_json_lookups_after_aliases(
    g3_names: Seq<(Seq<char>, u32)>,
    names: Seq<(Seq<char>, u32)>,
    n0: int,
    has_concat: bool,
)
    requires
        g3_names == names + bound(json_stage_bindings(has_concat), n0),
    ensures
        lookup(aliased(g3_names, json_alias_pairs()), "__json_get_path"@) == Some(
            (n0 + 10 + json_stringify_count(has_concat)) as u32,
        ),
        lookup(aliased(g3_names, json_alias_pairs()), "json.textToData"@) == Some((n0 + 5) as u32),
{
    reveal_strlit("__json_encode_cln_list");
    reveal_strlit("__json_encode_cln_pairs");
    reveal_strlit("__json_from_cln_list");
    reveal_strlit("__json_from_cln_pairs");
    reveal_strlit("__json_get_field");
    reveal_strlit("__json_get_index");
    reveal_strlit("__json_get_path");
    reveal_strlit("__json_parse_array");
    reveal_strlit("__json_parse_object");
    reveal_strlit("__json_parse_string");
    reveal_strlit("__json_parse_value");
    reveal_strlit("__json_pretty_stringify_array");
    reveal_strlit("__json_pretty_stringify_object");
    reveal_strlit("__json_pretty_stringify_value");
    reveal_strlit("__json_quote_string");
    reveal_strlit("__json_skip_string");
    reveal_strlit("__json_stringify_array");
    reveal_strlit("__json_stringify_object");
    reveal_strlit("__json_stringify_value");
    reveal_strlit("__malloc");
    reveal_strlit("__memcmp_bytes");
    reveal_strlit("float_to_string");
    reveal_strlit("int_to_string");
    reveal_strlit("integer.toString");
    reveal_strlit("json.dataToText");
    reveal_strlit("json.decode");
    reveal_strlit("json.encode");
    reveal_strlit("json.get");
    reveal_strlit("json.prettyDataToText");
    reveal_strlit("json.textToData");
    reveal_strlit("json.tryTextToData");
    reveal_strlit("string.concat");
    let b = json_stage_bindings(has_concat);
    let k = json_stringify_count(has_concat);
    assert(b.len() == 11 + k);
    // `__json_get_path` is the last binding of the stage.
    assert(b[b.len() - 1] == ("__json_get_path"@, 10 + k));
    lemma_lookup_bound_found(b, n0, "__json_get_path"@, b.len() - 1);
    lemma_lookup_concat(names, bound(b, n0), "__json_get_path"@);
    // `json.textToData` is bound by the parse stage and no later binding
    // of the stage shadows it.
    assert(b[5] == ("json.textToData"@, 5int));
    assert forall|j: int| 5 < j < b.len() implies (#[trigger] b[j]).0 != "json.textToData"@ by {
        if b[j].0 == "json.textToData"@ {
            assert(b[j].0.len() == 15);
            assert(b[j].0[0] == 'j');
            assert(b[j].0[5] == 't');
        }
    }
    lemma_lookup_bound_found(b, n0, "json.textToData"@, 5);
    lemma_lookup_concat(names, bound(b, n0), "json.textToData"@);
    // The aliases bind other names.
    let p1 = ("json.dataToText"@, "json.encode"@);
    let p2 = ("json.textToData"@, "json.decode"@);
    lemma_aliased_push(g3_names, Seq::empty(), p1);
    lemma_aliased_push(g3_names, seq![p1], p2);
    assert(Seq::<(Seq<char>, Seq<char>)>::empty().push(p1) =~= seq![p1]);
    assert(seq![p1].push(p2) =~= json_alias_pairs());
    assert(aliased(g3_names, Seq::<(Seq<char>, Seq<char>)>::empty()) == g3_names);
    let a1 = aliased(g3_names, seq![p1]);
    assert("json.encode"@.len() == 11);
    assert("json.decode"@.len() == 11);
    if let Some(i) = lookup(g3_names, p1.0) {
        lemma_lookup_push(g3_names, (p1.1, i), "__json_get_path"@);
        lemma_lookup_push(g3_names, (p1.1, i), "json.textToData"@);
    }
    if let Some(i) = lookup(a1, p2.0) {
        lemma_lookup_push(a1, (p2.1, i), "__json_get_path"@);
        lemma_lookup_push(a1, (p2.1, i), "json.textToData"@);
    }
}

/// After the accessor stage's first three registrations, the field and
/// index accessors resolve to the second and third of them.
proof fn lemma_access_lookups(
    start: CodeGenerator,
    g: CodeGenerator,
    sigs: Seq<Signature>,
    binds: Seq<(Seq<char>, int)>,
)
    requires
        appended(start, g, sigs, binds),
        binds == seq![
            ("__memcmp_bytes"@, 0int),
            ("__json_get_field"@, 1int),
            ("__json_get_index"@, 2int),
        ],
    ensures
        g.index_of("__json_get_field"@) == Some((start.n_functions() + 1) as u32),
        g.index_of("__json_get_index"@) == Some((start.n_functions() + 2) as u32),
{
    reveal_strlit("__json_encode_cln_list");
    reveal_strlit("__json_encode_cln_pairs");
    reveal_strlit("__json_from_cln_list");
    reveal_strlit("__json_from_cln_pairs");
    reveal_strlit("__json_get_field");
    reveal_strlit("__json_get_index");
    reveal_strlit("__json_get_path");
    reveal_strlit("__json_parse_array");
    reveal_strlit("__json_parse_object");
    reveal_strlit("__json_parse_string");
    reveal_strlit("__json_parse_value");
    reveal_strlit("__json_pretty_stringify_array");
    reveal_strlit("__json_pretty_stringify_object");
    reveal_strlit("__json_pretty_stringify_value");
    reveal_strlit("__json_quote_string");
    reveal_strlit("__json_skip_string");
    reveal_strlit("__json_stringify_array");
    reveal_strlit("__json_stringify_object");
    reveal_strlit("__json_stringify_value");
    reveal_strlit("__malloc");
    reveal_strlit("__memcmp_bytes");
    reveal_strlit("float_to_string");
    reveal_strlit("int_to_string");
    reveal_strlit("integer.toString");
    reveal_strlit("json.dataToText");
    reveal_strlit("json.decode");
    reveal_strlit("json.encode");
    reveal_strlit("json.get");
    reveal_strlit("json.prettyDataToText");
    reveal_strlit("json.textToData");
    reveal_strlit("json.tryTextToData");
    reveal_strlit("string.concat");
    let n = start.n_functions() as int;
    assert("__json_get_index"@[11] != "__json_get_field"@[11]);
    lemma_lookup_bound_found(binds, n, "__json_get_field"@, 1);
    lemma_lookup_concat(start.names(), bound(binds, n), "__json_get_field"@);
    lemma_lookup_bound_found(binds, n, "__json_get_index"@, 2);
    lemma_lookup_concat(start.names(), bound(binds, n), "__json_get_index"@);
}

/// The stages, the aliases and `json.get` together are what
/// `json_registered` describes.
proof fn lemma_json_final(
    g0: CodeGenerator,
    g3: CodeGenerator,
    g4: CodeGenerator,
    g5: CodeGenerator,
    has_concat: bool,
)
    requires
        has_concat == (g0.index_of("string.concat"@) is Some),
        appended(
            g0,
            g3,
            json_stage_signatures(g0.names(), g0.n_functions() as int),
            json_stage_bindings(has_concat),
        ),
        g4.functions() == g3.functions(),
        g4.names() == aliased(g3.names(), json_alias_pairs()),
        appended(
            g4,
            g5,
            seq![
                json_get_signature(
                    (g0.n_functions() + 10 + json_stringify_count(has_concat)) as u32,
                    (g0.n_functions() + 5) as u32,
                ),
            ],
            seq![("json.get"@, 0int)],
        ),
    ensures
        json_registered(g0, g5),
{
    let n0 = g0.n_functions() as int;
    let k = json_stringify_count(has_concat);
    let s = json_stage_signatures(g0.names(), n0);
    let gs = json_get_signature((n0 + 10 + k) as u32, (n0 + 5) as u32);
    assert(s.len() == 11 + k);
    assert(grew(g0, g3, s));
    assert(grew(g0, g4, s));
    assert(grew(g4, g5, seq![gs]));
    lemma_grew_compose(g0, g4, g5, s, seq![gs]);
    assert(s + seq![gs] =~= s.push(gs));
    assert(g4.n_functions() == g0.n_functions() + s.len());
    assert(g5.names() == g4.names() + bound(seq![("json.get"@, 0int)], g4.n_functions() as int));
    let names = aliased(g0.names() + bound(json_stage_bindings(has_concat), n0), json_alias_pairs());
    assert(g3.names() == g0.names() + bound(json_stage_bindings(has_concat), n0));
    assert(g4.names() == names);
    assert(grew(g0, g5, s.push(gs)));
    assert(g5.names() =~= names.push(("json.get"@, (n0 + 11 + k) as u32)));
    assert(bound(seq![("json.get"@, 0int)], g4.n_functions() as int) =~= seq![
        ("json.get"@, (n0 + 11 + k) as u32),
    ]);
}

/// The canonical names are aliases: after registering the JSON module,
/// `json.decode` resolves to `json.textToData`, the sixth function
/// registered, and, where `string.concat` resolves, `json.encode` resolves
/// to `json.dataToText`, the nineteenth.
pub proof fn lemma_json_canonical_aliases(old: CodeGenerator, new: CodeGenerator)
    requires
        json_registered(old, new),
    ensures
        new.index_of("json.decode"@) == new.index_of("json.textToData"@),
        new.index_of("json.textToData"@) == Some((old.n_functions() + 5) as u32),
        old.index_of("string.concat"@) is Some ==> {
            &&& new.index_of("json.encode"@) == new.index_of("json.dataToText"@)
            &&& new.index_of("json.dataToText"@) == Some((old.n_functions() + 18) as u32)
        },
{
    reveal_strlit("__json_encode_cln_list");
    reveal_strlit("__json_encode_cln_pairs");
    reveal_strlit("__json_from_cln_list");
    reveal_strlit("__json_from_cln_pairs");
    reveal_strlit("__json_get_field");
    reveal_strlit("__json_get_index");
    reveal_strlit("__json_get_path");
    reveal_strlit("__json_parse_array");
    reveal_strlit("__json_parse_object");
    reveal_strlit("__json_parse_string");
    reveal_strlit("__json_parse_value");
    reveal_strlit("__json_pretty_stringify_array");
    reveal_strlit("__json_pretty_stringify_object");
    reveal_strlit("__json_pretty_stringify_value");
    reveal_strlit("__json_quote_string");
    reveal_strlit("__json_skip_string");
    reveal_strlit("__json_stringify_array");
    reveal_strlit("__json_stringify_object");
    reveal_strlit("__json_stringify_value");
    reveal_strlit("__malloc");
    reveal_strlit("__memcmp_bytes");
    reveal_strlit("float_to_string");
    reveal_strlit("int_to_string");
    reveal_strlit("integer.toString");
    reveal_strlit("json.dataToText");
    reveal_strlit("json.decode");
    reveal_strlit("json.encode");
    reveal_strlit("json.get");
    reveal_strlit("json.prettyDataToText");
    reveal_strlit("json.textToData");
    reveal_strlit("json.tryTextToData");
    reveal_strlit("string.concat");
    reveal_strlit("json.get");
    let n0 = old.n_functions() as int;
    let has_concat = old.index_of("string.concat"@) is Some;
    let b = json_stage_bindings(has_concat);
    let k = json_stringify_count(has_concat);
    let mid = old.names() + bound(b, n0);
    assert(b.len() == 11 + k);
    // `json.textToData` resolves to the parse stage's binding.
    assert(b[5] == ("json.textToData"@, 5int));
    assert forall|j: int| 5 < j < b.len() implies (#[trigger] b[j]).0 != "json.textToData"@ by {
        if b[j].0 == "json.textToData"@ {
            assert(b[j].0.len() == 15);
            assert(b[j].0[0] == 'j');
            assert(b[j].0[5] == 't');
        }
    }
    lemma_lookup_bound_found(b, n0, "json.textToData"@, 5);
    lemma_lookup_concat(old.names(), bound(b, n0), "json.textToData"@);
    // Where the stringify stage ran, `json.dataToText` resolves to its
    // binding there.
    if has_concat {
        assert(b[18] == ("json.dataToText"@, 18int));
        assert forall|j: int| 18 < j < b.len() implies (#[trigger] b[j]).0 != "json.dataToText"@ by {
            if b[j].0 == "json.dataToText"@ {
                assert(b[j].0.len() == 15);
                assert(b[j].0[0] == 'j');
            }
        }
        lemma_lookup_bound_found(b, n0, "json.dataToText"@, 18);
        lemma_lookup_concat(old.names(), bound(b, n0), "json.dataToText"@);
    }
    // The two aliases.
    let p1 = ("json.dataToText"@, "json.encode"@);
    let p2 = ("json.textToData"@, "json.decode"@);
    lemma_aliased_push(mid, Seq::empty(), p1);
    lemma_aliased_push(mid, seq![p1], p2);
    assert(Seq::<(Seq<char>, Seq<char>)>::empty().push(p1) =~= seq![p1]);
    assert(seq![p1].push(p2) =~= json_alias_pairs());
    assert(aliased(mid, Seq::<(Seq<char>, Seq<char>)>::empty()) == mid);
    let a1 = aliased(mid, seq![p1]);
    let a2 = aliased(mid, json_alias_pairs());
    assert("json.encode"@.len() == 11 && "json.decode"@.len() == 11);
    assert("json.encode"@[5] != "json.decode"@[5]);
    if let Some(i) = lookup(mid, p1.0) {
        lemma_lookup_push(mid, (p1.1, i), "json.textToData"@);
        lemma_lookup_push(mid, (p1.1, i), "json.dataToText"@);
        lemma_lookup_push(mid, (p1.1, i), "json.encode"@);
    }
    assert(lookup(a1, "json.textToData"@) == Some((n0 + 5) as u32));
    assert(a2 == a1.push(("json.decode"@, (n0 + 5) as u32)));
    lemma_lookup_push(a1, ("json.decode"@, (n0 + 5) as u32), "json.decode"@);
    lemma_lookup_push(a1, ("json.decode"@, (n0 + 5) as u32), "json.textToData"@);
    lemma_lookup_push(a1, ("json.decode"@, (n0 + 5) as u32), "json.encode"@);
    lemma_lookup_push(a1, ("json.decode"@, (n0 + 5) as u32), "json.dataToText"@);
    // `json.get` is bound last and is none of these names.
    let g = ("json.get"@, (n0 + 11 + k) as u32);
    assert(new.names() == a2.push(g));
    assert("json.get"@.len() == 8);
    lemma_lookup_push(a2, g, "json.decode"@);
    lemma_lookup_push(a2, g, "json.textToData"@);
    lemma_lookup_push(a2, g, "json.encode"@);
    lemma_lookup_push(a2, g, "json.dataToText"@);
}

/// JSON Value Type Tags — 12-byte boxed representation: [i32 tag][payload][padding]
///
/// Layout per tag:
///   0 = null    → [0][0][0]
///   1 = integer → [1][i32_value][0]      (produced by external builders, never by the parser)
///   2 = boolean → [2][i32 0/1][0]        (0 = false, 1 = true)
///   3 = number  → [3][f64_lo][f64_hi]    (full 8-byte f64 at offset 4)
///   4 = string  → [4][str_ptr][0]        (ptr to [i32 len][bytes…])
///   5 = array   → [5][raw_arr_ptr][0]    (ptr to [i32 count][elem0_ptr]…)
///   6 = object  → [6][raw_obj_ptr][0]    (ptr to [i32 count][key0_ptr][val0_ptr]…)
///
/// Compact boolean encoding in object/array slots (stored raw, not as a full box):
///   0 = null (slot value), 1 = false, 2 = true
/// Access helpers (__json_get_field, __json_get_index) box compact values before returning.
pub const JSON_TAG_NULL: i32 = 0;
/// Tag of a boxed integer.
pub const JSON_TAG_INTEGER: i32 = 1;
/// Tag of a boxed boolean.
pub const JSON_TAG_BOOLEAN: i32 = 2;
/// Tag of a boxed number (an f64 at offset 4).
pub const JSON_TAG_NUMBER: i32 = 3;
/// Tag of a boxed string.
pub const JSON_TAG_STRING: i32 = 4;
/// Tag of a boxed array.
pub const JSON_TAG_ARRAY: i32 = 5;
/// Tag of a boxed object.
pub const JSON_TAG_OBJECT: i32 = 6;

/// The byte `.` that separates the segments of a path.
pub const DOT_BYTE: i32 = 46;
/// The byte `0`.
pub const ZERO_BYTE: i32 = 48;
/// The byte `9`.
pub const NINE_BYTE: i32 = 57;
/// The global that holds the bump allocator's heap pointer.
pub const HEAP_PTR_GLOBAL: u32 = 0;
/// Offset of the first element of a native Clean list.
pub const LIST_DATA_OFFSET: u32 = 16;
/// Size of the header of a native Clean pairs map.
pub const PAIRS_HEADER_SIZE: u32 = 8;
/// Size of one entry of a native Clean pairs map.
pub const PAIRS_ENTRY_SIZE: u32 = 8;

/// JSON class implementation for Clean Language
/// Provides JSON operations as static methods using pure WASM
pub struct JsonClass;

impl Default for JsonClass {
    fn default() -> (r: Self)
        ensures
            r == JsonClass,
    {
        Self::new()
    }
}

impl JsonClass {
    /// The JSON class.
    pub fn new() -> (r: Self)
        ensures
            r == JsonClass,
    {
        JsonClass
    }
}

/// The instructions that store each of `bytes` after a 4-byte length
/// prefix of the string whose pointer is in `out_local`.
pub open spec fn const_str_byte_stores(bytes: Seq<u8>, out_local: u32) -> Seq<Instruction>
    decreases bytes.len(),
{
    if bytes.len() == 0 {
        Seq::empty()
    } else {
        const_str_byte_stores(bytes.drop_last(), out_local) + seq![
            Instruction::LocalGet(out_local),
            Instruction::I32Const(bytes.last() as i32),
            Instruction::I32Store8(
                MemArg { offset: (4 + bytes.len() - 1) as u64, align: 0, memory_index: 0 },
            ),
        ]
    }
}

/// The instructions that allocate a length-prefixed string holding `bytes`
/// with the allocator at `malloc_idx` and leave its pointer in `out_local`.
pub open spec fn alloc_const_str_instrs(bytes: Seq<u8>, malloc_idx: u32, out_local: u32) -> Seq<
    Instruction,
> {
    seq![
        Instruction::I32Const((4 + bytes.len()) as i32),
        Instruction::Call(malloc_idx),
        Instruction::LocalSet(out_local),
        Instruction::LocalGet(out_local),
        Instruction::I32Const(bytes.len() as i32),
        Instruction::I32Store(MemArg { offset: 0, align: 2, memory_index: 0 }),
    ] + const_str_byte_stores(bytes, out_local)
}

impl JsonClass {
    /// `s` followed by the instructions that store `byte` at
    /// `result_ptr + out_len + 5` (locals 2 and 4) and advance `out_len`.
    pub open spec fn quoted_byte_after(s: Seq<Instruction>, byte: i32) -> Seq<Instruction> {
        s
            .push(Instruction::LocalGet(2))
            .push(Instruction::LocalGet(4))
            .push(Instruction::I32Add)
            .push(Instruction::I32Const(byte))
            .push(Instruction::I32Store8(MemArg { offset: 5, align: 0, memory_index: 0 }))
            .push(Instruction::LocalGet(4))
            .push(Instruction::I32Const(1))
            .push(Instruction::I32Add)
            .push(Instruction::LocalSet(4))
    }

    /// Store the byte `byte` at `result_ptr + out_len + 5` (locals 2 and 4)
    /// and advance `out_len`.
    fn emit_quoted_byte(b: &mut Body, byte: i32)
        requires
            old(b).wf(),
            old(b).n_locals() > 4,
            old(b).open_blocks() < u32::MAX,
        ensures
            final(b).wf(),
            final(b).open_blocks() == old(b).open_blocks(),
            final(b).n_locals() == old(b).n_locals(),
            final(b).instrs() == Self::quoted_byte_after(old(b).instrs(), byte),
    {
        b.i(Instruction::LocalGet(2));
        b.i(Instruction::LocalGet(4));
        b.i(Instruction::I32Add);
        b.i(Instruction::I32Const(byte));
        b.i(Instruction::I32Store8(MemArg { offset: 5, align: 0, memory_index: 0 }));
        b.i(Instruction::LocalGet(4));
        b.i(Instruction::I32Const(1));
        b.i(Instruction::I32Add);
        b.i(Instruction::LocalSet(4));
    }

    /// `s` followed by the instructions that store the lowercase hex digit
    /// of the nibble of `current_byte` (local 5) at bit offset `shift` after
    /// the output so far, using local 6 as scratch, and advance `out_len`.
    pub open spec fn hex_nibble_after(s: Seq<Instruction>, shift: i32) -> Seq<Instruction> {
        s
            .push(Instruction::LocalGet(5))
            .push(Instruction::I32Const(shift))
            .push(Instruction::I32ShrU)
            .push(Instruction::I32Const(0xF))
            .push(Instruction::I32And)
            .push(Instruction::LocalSet(6))
            .push(Instruction::LocalGet(2))
            .push(Instruction::LocalGet(4))
            .push(Instruction::I32Add)
            .push(Instruction::LocalGet(6))
            .push(Instruction::I32Const(48))
            .push(Instruction::I32Add)
            .push(Instruction::LocalGet(6))
            .push(Instruction::I32Const(10))
            .push(Instruction::I32GeU)
            .push(Instruction::I32Const(39))
            .push(Instruction::I32Mul)
            .push(Instruction::I32Add)
            .push(Instruction::I32Store8(MemArg { offset: 5, align: 0, memory_index: 0 }))
            .push(Instruction::LocalGet(4))
            .push(Instruction::I32Const(1))
            .push(Instruction::I32Add)
            .push(Instruction::LocalSet(4))
    }

    /// Store the lowercase hex digit of the nibble of `current_byte`
    /// (local 5) at bit offset `shift` after the output so far, using local 6
    /// as scratch, and advance `out_len`. The digit is
    /// `nibble + 48 + (nibble >= 10 ? 39 : 0)`.
    fn emit_hex_nibble(b: &mut Body, shift: i32)
        requires
            old(b).wf(),
            old(b).n_locals() > 6,
            old(b).open_blocks() < u32::MAX,
        ensures
            final(b).wf(),
            final(b).open_blocks() == old(b).open_blocks(),
            final(b).n_locals() == old(b).n_locals(),
            final(b).instrs() == Self::hex_nibble_after(old(b).instrs(), shift),
    {
        b.i(Instruction::LocalGet(5));
        b.i(Instruction::I32Const(shift));
        b.i(Instruction::I32ShrU);
        b.i(Instruction::I32Const(0xF));
        b.i(Instruction::I32And);
        b.i(Instruction::LocalSet(6));
        b.i(Instruction::LocalGet(2));
        b.i(Instruction::LocalGet(4));
        b.i(Instruction::I32Add);
        b.i(Instruction::LocalGet(6));
        b.i(Instruction::I32Const(48));
        b.i(Instruction::I32Add);
        b.i(Instruction::LocalGet(6));
        b.i(Instruction::I32Const(10));
        b.i(Instruction::I32GeU);
        b.i(Instruction::I32Const(39));
        b.i(Instruction::I32Mul);
        b.i(Instruction::I32Add);
        b.i(Instruction::I32Store8(MemArg { offset: 5, align: 0, memory_index: 0 }));
        b.i(Instruction::LocalGet(4));
        b.i(Instruction::I32Const(1));
        b.i(Instruction::I32Add);
        b.i(Instruction::LocalSet(4));
    }

    /// Allocate a length-prefixed Clean string of `bytes` length and store the pointer
    /// in `out_local`. After execution the local holds the pointer; the string is
    /// `[i32 len][raw bytes…]`. Used by helpers that emit short literal strings such
    /// as `"["`, `"]"`, `","`, `":"`, `"true"`, `"false"`, `"null"`.
    fn emit_alloc_const_str(b: &mut Body, bytes: &[u8], malloc_idx: u32, out_local: u32)
        requires
            old(b).wf(),
            out_local < old(b).n_locals(),
            old(b).open_blocks() < u32::MAX,
            bytes@.len() + 4 <= i32::MAX,
        ensures
            final(b).wf(),
            final(b).open_blocks() == old(b).open_blocks(),
            final(b).n_locals() == old(b).n_locals(),
            final(b).instrs() == old(b).instrs() + alloc_const_str_instrs(bytes@, malloc_idx, out_local),
    {
        let len = bytes.len() as i32;
        b.i(Instruction::I32Const(4 + len));
        b.i(Instruction::Call(malloc_idx));
        b.i(Instruction::LocalSet(out_local));
        b.i(Instruction::LocalGet(out_local));
        b.i(Instruction::I32Const(len));
        b.i(Instruction::I32Store(MemArg { offset: 0, align: 2, memory_index: 0 }));
        let ghost start = old(b).instrs() + seq![
            Instruction::I32Const((4 + bytes@.len()) as i32),
            Instruction::Call(malloc_idx),
            Instruction::LocalSet(out_local),
            Instruction::LocalGet(out_local),
            Instruction::I32Const(bytes@.len() as i32),
            Instruction::I32Store(MemArg { offset: 0, align: 2, memory_index: 0 }),
        ];
        assert(b.instrs() =~= start + const_str_byte_stores(bytes@.take(0), out_local));
        let mut i: usize = 0;
        while i < bytes.len()
            invariant
                0 <= i <= bytes@.len(),
                bytes@.len() + 4 <= i32::MAX,
                b.wf(),
                b.open_blocks() == old(b).open_blocks(),
                b.open_blocks() < u32::MAX,
                b.n_locals() == old(b).n_locals(),
                out_local < b.n_locals(),
                b.instrs() == start + const_str_byte_stores(bytes@.take(i as int), out_local),
            decreases bytes@.len() - i,
        {
            let byte = bytes[i];
            b.i(Instruction::LocalGet(out_local));
            b.i(Instruction::I32Const(byte as i32));
            b.i(Instruction::I32Store8(MemArg { offset: (4 + i) as u64, align: 0, memory_index: 0 }));
            proof {
                let t = bytes@.take(i + 1);
                assert(t.drop_last() =~= bytes@.take(i as int));
                assert(t.last() == byte);
            }
            i = i + 1;
            assert(b.instrs() =~= start + const_str_byte_stores(bytes@.take(i as int), out_local));
        }
        assert(bytes@.take(bytes@.len() as int) =~= bytes@);
        assert(b.instrs() =~= old(b).instrs() + alloc_const_str_instrs(bytes@, malloc_idx, out_local));
    }

    /// Emit a dispatch on `tag_local` that encodes the raw i32 value in `val_local`
    /// as a JSON-compatible Clean string and leaves the resulting string pointer in
    /// `out_local`. Handles tags `1` (Integer), `2` (Boolean), `4` (String); anything
    /// else falls through to `"null"`. The Number tag (`3`) is f64 and is handled
    /// separately at call sites (see `generate_encode_cln_list_instructions`).
    pub open spec fn encode_primitive_after(
        s: Seq<Instruction>,
        val_local: u32,
        tag_local: u32,
        out_local: u32,
        int_to_string_idx: u32,
        quote_string_idx: u32,
        malloc_idx: u32,
    ) -> Seq<Instruction> {
        ((((s
            .push(Instruction::LocalGet(tag_local))
            .push(Instruction::I32Const(1))
            .push(Instruction::I32Eq)
            .push(Instruction::If(BlockType::Empty))
            .push(Instruction::LocalGet(val_local))
            .push(Instruction::Call(int_to_string_idx))
            .push(Instruction::LocalSet(out_local))
            .push(Instruction::Else)
            .push(Instruction::LocalGet(tag_local))
            .push(Instruction::I32Const(2))
            .push(Instruction::I32Eq)
            .push(Instruction::If(BlockType::Empty))
            .push(Instruction::LocalGet(val_local))
            .push(Instruction::If(BlockType::Empty))
            + alloc_const_str_instrs(seq![116u8, 114u8, 117u8, 101u8], malloc_idx, out_local))
            .push(Instruction::Else)
            + alloc_const_str_instrs(seq![102u8, 97u8, 108u8, 115u8, 101u8], malloc_idx, out_local))
            .push(Instruction::End)
            .push(Instruction::Else)
            .push(Instruction::LocalGet(tag_local))
            .push(Instruction::I32Const(4))
            .push(Instruction::I32Eq)
            .push(Instruction::If(BlockType::Empty))
            .push(Instruction::LocalGet(val_local))
            .push(Instruction::Call(quote_string_idx))
            .push(Instruction::LocalSet(out_local))
            .push(Instruction::Else)
            + alloc_const_str_instrs(seq![110u8, 117u8, 108u8, 108u8], malloc_idx, out_local))
            .push(Instruction::End)
            .push(Instruction::End)
            .push(Instruction::End))
    }

    /// Emit the dispatch `encode_primitive_after` describes: encode the raw
    /// i32 in `val_local` by the tag in `tag_local` and leave the string
    /// pointer in `out_local`.
    fn emit_encode_primitive_i32(
        b: &mut Body,
        val_local: u32,
        tag_local: u32,
        out_local: u32,
        int_to_string_idx: u32,
        quote_string_idx: u32,
        malloc_idx: u32,
    )
        requires
            old(b).wf(),
            val_local < old(b).n_locals(),
            tag_local < old(b).n_locals(),
            out_local < old(b).n_locals(),
            old(b).open_blocks() + 3 < u32::MAX,
        ensures
            final(b).wf(),
            final(b).open_blocks() == old(b).open_blocks(),
            final(b).n_locals() == old(b).n_locals(),
            final(b).instrs() == Self::encode_primitive_after(
                old(b).instrs(),
                val_local,
                tag_local,
                out_local,
                int_to_string_idx,
                quote_string_idx,
                malloc_idx,
            ),
    {
        // if tag == 1 (Integer)
        b.i(Instruction::LocalGet(tag_local));
        b.i(Instruction::I32Const(1));
        b.i(Instruction::I32Eq);
        b.i(Instruction::If(BlockType::Empty));
        b.i(Instruction::LocalGet(val_local));
        b.i(Instruction::Call(int_to_string_idx));
        b.i(Instruction::LocalSet(out_local));
        b.i(Instruction::Else);
        // elif tag == 2 (Boolean)
        b.i(Instruction::LocalGet(tag_local));
        b.i(Instruction::I32Const(2));
        b.i(Instruction::I32Eq);
        b.i(Instruction::If(BlockType::Empty));
        // if val != 0: "true" else "false"
        b.i(Instruction::LocalGet(val_local));
        b.i(Instruction::If(BlockType::Empty));
        Self::emit_alloc_const_str(b, &[116, 114, 117, 101], malloc_idx, out_local); // "true"
        proof {
            assert((&[116, 114, 117, 101])@ =~= seq![116u8, 114u8, 117u8, 101u8]);
        }
        b.i(Instruction::Else);
        Self::emit_alloc_const_str(b, &[102, 97, 108, 115, 101], malloc_idx, out_local); // "false"
        proof {
            assert((&[102, 97, 108, 115, 101])@ =~= seq![102u8, 97u8, 108u8, 115u8, 101u8]);
        }
        b.i(Instruction::End);
        b.i(Instruction::Else);
        // elif tag == 4 (String) — val is a Clean string pointer; quote it for JSON
        b.i(Instruction::LocalGet(tag_local));
        b.i(Instruction::I32Const(4));
        b.i(Instruction::I32Eq);
        b.i(Instruction::If(BlockType::Empty));
        b.i(Instruction::LocalGet(val_local));
        b.i(Instruction::Call(quote_string_idx));
        b.i(Instruction::LocalSet(out_local));
        b.i(Instruction::Else);
        // default — emit "null"
        Self::emit_alloc_const_str(b, &[110, 117, 108, 108], malloc_idx, out_local); // "null"
        proof {
            assert((&[110, 117, 108, 108])@ =~= seq![110u8, 117u8, 108u8, 108u8]);
        }
        b.i(Instruction::End);
        b.i(Instruction::End);
        b.i(Instruction::End);
    }
}

impl JsonClass {
    /// Register JSON functions as pure WASM implementations
    /// Clean Language specification defines:
    /// - json.textToData(text) - Parse JSON text to data structure
    /// - json.tryTextToData(text) - Parse JSON, returns null on error
    /// - json.dataToText(data) - Convert data to JSON text
    /// - json.prettyDataToText(data) - Convert data to formatted JSON text
    /// - __json_get_field(any, key) - Access field by string key (for bracket notation)
    /// - __json_get_index(any, index) - Access element by integer index (for bracket notation)
    pub fn register_functions(&self, codegen: &mut CodeGenerator) -> (r: Result<(), CompilerError>)
        requires
            old(codegen).wf(),
            json_prerequisites(old(codegen).names(), old(codegen).n_functions() as int),
        ensures
            final(codegen).wf(),
            r is Ok <==> old(codegen).n_functions() + json_function_count(old(codegen).names())
                <= u32::MAX,
            r is Ok ==> json_registered(*old(codegen), *final(codegen)),
            r matches Err(e) ==> e == CompilerError::FunctionLimit,
    {
        let ghost g0 = *codegen;
        let ghost n0 = codegen.n_functions() as int;
        let ghost has_concat = g0.index_of("string.concat"@) is Some;
        let ghost k = json_stringify_count(has_concat);
        let ghost m = g0.index_of("__malloc"@)->0;
        proof {
            lemma_json_prerequisites_after_parse(g0.names(), n0);
        }
        self.register_parse_operations(codegen)?;
        let ghost g1 = *codegen;
        self.register_stringify_operations(codegen)?;
        let ghost g2 = *codegen;
        let ghost parse_sigs = json_parse_signatures(m, n0 as u32);
        let ghost stringify_sigs = json_stringify_signatures_in(g0.names(), n0 + 7);
        proof {
            // The parse stage leaves the helpers the stringify stage looks up
            // as they were.
            assert(g1.names() == g0.names() + bound(json_parse_bindings(), n0));
            assert(lookup(g1.names(), "string.concat"@) == lookup(g0.names(), "string.concat"@));
            assert(lookup(g1.names(), "__malloc"@) == lookup(g0.names(), "__malloc"@));
            assert(lookup(g1.names(), "integer.toString"@) == lookup(g0.names(), "integer.toString"@));
            assert(lookup(g1.names(), "int_to_string"@) == lookup(g0.names(), "int_to_string"@));
            assert(lookup(g1.names(), "float_to_string"@) == lookup(g0.names(), "float_to_string"@));
            assert(json_stringify_signatures_in(g1.names(), g1.n_functions() as int) == stringify_sigs);
            assert(stringify_sigs.len() == k);
            lemma_appended_compose(
                g0,
                g1,
                g2,
                parse_sigs,
                json_parse_bindings(),
                stringify_sigs,
                json_stringify_bindings_if(has_concat),
            );
            lemma_json_malloc_after_stringify(g0.names(), n0, has_concat);
        }
        self.register_access_operations(codegen)?;
        let ghost g3 = *codegen;
        proof {
            assert(g2.index_of("__malloc"@) == g0.index_of("__malloc"@));
            assert(g2.n_functions() == n0 + 7 + k);
            lemma_appended_compose(
                g0,
                g2,
                g3,
                parse_sigs + stringify_sigs,
                json_parse_bindings() + shifted(json_stringify_bindings_if(has_concat), 7),
                json_access_signatures_at(m, (n0 + 7 + k) as nat),
                json_access_bindings(),
            );
            assert(parse_sigs + stringify_sigs + json_access_signatures_at(m, (n0 + 7 + k) as nat)
                == json_stage_signatures(g0.names(), n0));
        }
        // Register canonical names as aliases:
        //   json.encode  ≡  json.dataToText
        //   json.decode  ≡  json.textToData
        //   json.get     ≡  __json_get_field (key-based access)
        // The old names remain valid.
        alias_if_present(codegen, "json.dataToText", "json.encode");
        alias_if_present(codegen, "json.textToData", "json.decode");
        let ghost g4 = *codegen;
        proof {
            lemma_aliased_push(g3.names(), Seq::empty(), ("json.dataToText"@, "json.encode"@));
            lemma_aliased_push(g3.names(), seq![("json.dataToText"@, "json.encode"@)], ("json.textToData"@, "json.decode"@));
            assert(seq![("json.dataToText"@, "json.encode"@)].push(("json.textToData"@, "json.decode"@)) =~= json_alias_pairs());
            assert(aliased(g3.names(), Seq::<(Seq<char>, Seq<char>)>::empty()) == g3.names());
            lemma_json_lookups_after_aliases(g3.names(), g0.names(), n0, has_concat);
        }
        // json.get(json_ptr: i32, path_ptr: i32) -> i32
        // Adapts the 2-arg language calling convention to the 3-arg internal
        // __json_get_path(obj_boxed, path_content_ptr, path_len) convention,
        // which walks a dot-separated path through the JSON value. The
        // path_ptr is a Clean Language string (4-byte length prefix + content);
        // this wrapper expands it to (path_ptr + 4, mem[path_ptr]) before the call.
        //
        // When json_ptr is a boxed String (tag=4), the caller passed raw JSON
        // text rather than a pre-decoded object. It is parsed via
        // json.textToData so json.get(raw_json_string, path) works
        // transparently. A boxed Object (tag=6) or any other tag is passed
        // through unchanged.
        //
        // A plugin bridge that provides json.get registers its wrapper after
        // this and overwrites this entry.
        let path = codegen.get_function_index("__json_get_path");
        let text_to_data = codegen.get_function_index("json.textToData");
        if let (Some(path_idx), Some(text_to_data_idx)) = (path, text_to_data) {
            let ghost start = *codegen;
            let ghost mut sigs = Seq::<Signature>::empty();
            let ghost mut binds = Seq::<(Seq<char>, int)>::empty();
            proof {
                lemma_appended_start(start);
            }
            let ghost sig = defined(
                "json.get"@,
                seq![WasmType::I32, WasmType::I32],
                Some(WasmType::I32),
                seq![WasmType::I32, WasmType::I32, WasmType::I32, WasmType::I32],
                JsonClass::get_wrapper_instructions_body(path_idx, text_to_data_idx),
            );
            register_tracked(
                codegen,
                Ghost(start),
                Ghost(sigs),
                Ghost(binds),
                Ghost(sig),
                "json.get",
                &[WasmType::I32, WasmType::I32],
                Some(WasmType::I32),
                &[WasmType::I32, WasmType::I32, WasmType::I32, WasmType::I32],
                Self::generate_get_wrapper_instructions(path_idx, text_to_data_idx),
            )?;
            proof {
                binds = binds.push(binding_for(sigs, sig));
                sigs = sigs.push(sig);
            }
            proof {
                assert(path_idx == (n0 + 10 + k) as u32 && text_to_data_idx == (n0 + 5) as u32);
            assert(sigs =~= seq![json_get_signature((n0 + 10 + k) as u32, (n0 + 5) as u32)]);
                assert(binds =~= seq![("json.get"@, 0int)]);
                lemma_appended_fits(start, *codegen, sigs, binds);
            }
        }
        proof {
            lemma_json_final(g0, g3, g4, *codegen, has_concat);
        }
        Ok(())
    }

    fn register_parse_operations(&self, codegen: &mut CodeGenerator) -> (r: Result<(), CompilerError>)
        requires
            old(codegen).wf(),
            old(codegen).index_of("__malloc"@) is Some,
            old(codegen).n_functions() + 4 <= u32::MAX,
        ensures
            final(codegen).wf(),
            r is Ok <==> old(codegen).n_functions() + 7 <= u32::MAX,
            r is Ok ==> appended(
                *old(codegen),
                *final(codegen),
                json_parse_signatures(
                    old(codegen).index_of("__malloc"@)->0,
                    old(codegen).n_functions() as u32,
                ),
                json_parse_bindings(),
            ),
            r matches Err(e) ==> e == CompilerError::FunctionLimit,
    {
        // Register helper functions and simplify main parser
        // Step 1: Get malloc index (required by all parsing functions)
        let malloc_index = codegen.get_function_index("__malloc").expect(
            "__malloc must be registered before JSON parsing functions",
        );
        // Step 2: Calculate what the function indices will be
        // We need to know these in advance for mutual recursion
        // Get next available function index
        let base_idx = codegen.get_next_function_index();
        let skip_string_idx_predicted = base_idx;  // Will be registered first
        let parse_string_idx_predicted = base_idx + 1;  // Will be registered second
        let value_idx_predicted = base_idx + 2;  // Will be registered third
        let object_idx_predicted = base_idx + 3;  // Will be registered fourth
        let array_idx_predicted = base_idx + 4;  // Will be registered fifth
        let ghost start = *codegen;
        let ghost mut sigs = Seq::<Signature>::empty();
        let ghost mut binds = Seq::<(Seq<char>, int)>::empty();
        proof {
            lemma_appended_start(start);
        }
        // Step 3: Register all helper functions with correct indices
        // __json_skip_string - advance position past a JSON string (escape-aware, no output)
        let ghost sig = defined(
            "__json_skip_string"@,
            seq![WasmType::I32, WasmType::I32, WasmType::I32],
            None,
            seq![WasmType::I32, WasmType::I32],
            JsonClass::skip_string_instructions_body(),
        );
        let skip_string_idx = register_tracked(
            codegen,
            Ghost(start),
            Ghost(sigs),
            Ghost(binds),
            Ghost(sig),
            "__json_skip_string",
            &[WasmType::I32, WasmType::I32, WasmType::I32],
            None,
            &[WasmType::I32, WasmType::I32],
            self.generate_skip_string_instructions(),
        )?;
        proof {
            binds = binds.push(binding_for(sigs, sig));
            sigs = sigs.push(sig);
        }
        assert(skip_string_idx == skip_string_idx_predicted);
        // __json_parse_string - parse a JSON string starting at '"', return Clean Language string ptr
        let ghost sig = defined(
            "__json_parse_string"@,
            seq![WasmType::I32, WasmType::I32, WasmType::I32],
            Some(WasmType::I32),
            seq![WasmType::I32, WasmType::I32, WasmType::I32, WasmType::I32, WasmType::I32],
            JsonClass::parse_string_instructions_body(malloc_index),
        );
        let parse_string_idx = register_tracked(
            codegen,
            Ghost(start),
            Ghost(sigs),
            Ghost(binds),
            Ghost(sig),
            "__json_parse_string",
            &[WasmType::I32, WasmType::I32, WasmType::I32],
            Some(WasmType::I32),
            &[WasmType::I32, WasmType::I32, WasmType::I32, WasmType::I32, WasmType::I32],
            self.generate_parse_string_instructions(malloc_index),
        )?;
        proof {
            binds = binds.push(binding_for(sigs, sig));
            sigs = sigs.push(sig);
        }
        assert(parse_string_idx == parse_string_idx_predicted);
        // __json_parse_value - uses predicted object and array indices
        let ghost sig = defined(
            "__json_parse_value"@,
            seq![WasmType::I32, WasmType::I32, WasmType::I32],
            Some(WasmType::I32),
            seq![WasmType::I32, WasmType::I32, WasmType::I32, WasmType::I32, WasmType::I32, WasmType::I32, WasmType::I32, WasmType::I32, WasmType::I32, WasmType::F64, WasmType::F64, WasmType::F64],
            JsonClass::parse_value_instructions_body(object_idx_predicted, array_idx_predicted, parse_string_idx, malloc_index),
        );
        let value_idx = register_tracked(
            codegen,
            Ghost(start),
            Ghost(sigs),
            Ghost(binds),
            Ghost(sig),
            "__json_parse_value",
            &[WasmType::I32, WasmType::I32, WasmType::I32],
            Some(WasmType::I32),
            &[WasmType::I32, WasmType::I32, WasmType::I32, WasmType::I32, WasmType::I32, WasmType::I32, WasmType::I32, WasmType::I32, WasmType::I32, WasmType::F64, WasmType::F64, WasmType::F64],
            self.generate_parse_value_instructions(object_idx_predicted, array_idx_predicted, parse_string_idx, malloc_index),
        )?;
        proof {
            binds = binds.push(binding_for(sigs, sig));
            sigs = sigs.push(sig);
        }
        // The prediction holds
        assert(value_idx == value_idx_predicted);
        // __json_parse_object - uses actual value_idx
        let ghost sig = defined(
            "__json_parse_object"@,
            seq![WasmType::I32, WasmType::I32, WasmType::I32],
            Some(WasmType::I32),
            seq![WasmType::I32, WasmType::I32, WasmType::I32, WasmType::I32, WasmType::I32, WasmType::I32, WasmType::I32, WasmType::I32, WasmType::I32, WasmType::I32, WasmType::F64, WasmType::F64],
            JsonClass::parse_object_instructions_body(value_idx, skip_string_idx, parse_string_idx, malloc_index),
        );
        let object_idx = register_tracked(
            codegen,
            Ghost(start),
            Ghost(sigs),
            Ghost(binds),
            Ghost(sig),
            "__json_parse_object",
            &[WasmType::I32, WasmType::I32, WasmType::I32],
            Some(WasmType::I32),
            &[WasmType::I32, WasmType::I32, WasmType::I32, WasmType::I32, WasmType::I32, WasmType::I32, WasmType::I32, WasmType::I32, WasmType::I32, WasmType::I32, WasmType::F64, WasmType::F64],
            self.generate_parse_object_instructions(value_idx, skip_string_idx, parse_string_idx, malloc_index),
        )?;
        proof {
            binds = binds.push(binding_for(sigs, sig));
            sigs = sigs.push(sig);
        }
        assert(object_idx == object_idx_predicted);
        // __json_parse_array - uses actual value_idx
        let ghost sig = defined(
            "__json_parse_array"@,
            seq![WasmType::I32, WasmType::I32, WasmType::I32],
            Some(WasmType::I32),
            seq![WasmType::I32, WasmType::I32, WasmType::I32, WasmType::I32, WasmType::I32, WasmType::I32, WasmType::I32, WasmType::I32, WasmType::I32, WasmType::I32, WasmType::F64, WasmType::F64],
            JsonClass::parse_array_instructions_body(value_idx, skip_string_idx, parse_string_idx, malloc_index),
        );
        let array_idx = register_tracked(
            codegen,
            Ghost(start),
            Ghost(sigs),
            Ghost(binds),
            Ghost(sig),
            "__json_parse_array",
            &[WasmType::I32, WasmType::I32, WasmType::I32],
            Some(WasmType::I32),
            &[WasmType::I32, WasmType::I32, WasmType::I32, WasmType::I32, WasmType::I32, WasmType::I32, WasmType::I32, WasmType::I32, WasmType::I32, WasmType::I32, WasmType::F64, WasmType::F64],
            self.generate_parse_array_instructions(value_idx, skip_string_idx, parse_string_idx, malloc_index),
        )?;
        proof {
            binds = binds.push(binding_for(sigs, sig));
            sigs = sigs.push(sig);
        }
        assert(array_idx == array_idx_predicted);
        // Step 4: Register main public API functions using the simplified implementation
        // json.textToData(text: string) -> any
        // Parse JSON text into a data structure
        let ghost sig = defined(
            "json.textToData"@,
            seq![WasmType::I32],
            Some(WasmType::I32),
            seq![WasmType::I32, WasmType::I32, WasmType::I32],
            JsonClass::text_to_data_instructions_body(value_idx, malloc_index),
        );
        register_tracked(
            codegen,
            Ghost(start),
            Ghost(sigs),
            Ghost(binds),
            Ghost(sig),
            "json.textToData",
            &[WasmType::I32],
            Some(WasmType::I32),
            &[WasmType::I32, WasmType::I32, WasmType::I32],
            self.generate_text_to_data_instructions(value_idx, malloc_index),
        )?;
        proof {
            binds = binds.push(binding_for(sigs, sig));
            sigs = sigs.push(sig);
        }
        // json.tryTextToData(text: string) -> any (returns null on error)
        // Parse JSON text, returns null (0) on parse error instead of throwing
        let ghost sig = defined(
            "json.tryTextToData"@,
            seq![WasmType::I32],
            Some(WasmType::I32),
            seq![WasmType::I32, WasmType::I32, WasmType::I32, WasmType::I32, WasmType::I32, WasmType::I32, WasmType::I32, WasmType::I32],
            JsonClass::try_text_to_data_instructions_body(value_idx, malloc_index),
        );
        register_tracked(
            codegen,
            Ghost(start),
            Ghost(sigs),
            Ghost(binds),
            Ghost(sig),
            "json.tryTextToData",
            &[WasmType::I32],
            Some(WasmType::I32),
            &[WasmType::I32, WasmType::I32, WasmType::I32, WasmType::I32, WasmType::I32, WasmType::I32, WasmType::I32, WasmType::I32],
            self.generate_try_text_to_data_instructions(value_idx, malloc_index),
        )?;
        proof {
            binds = binds.push(binding_for(sigs, sig));
            sigs = sigs.push(sig);
        }
        proof {
            assert(sigs =~= json_parse_signatures(malloc_index, base_idx));
            assert(binds =~= json_parse_bindings());
            lemma_appended_fits(start, *codegen, sigs, binds);
        }
        Ok(())
    }

    fn register_stringify_operations(&self, codegen: &mut CodeGenerator) -> (r: Result<
        (),
        CompilerError,
    >)
        requires
            old(codegen).wf(),
            stringify_prerequisites(old(codegen).names(), old(codegen).n_functions() as int),
        ensures
            final(codegen).wf(),
            r is Ok <==> old(codegen).n_functions() + json_stringify_count(
                old(codegen).index_of("string.concat"@) is Some,
            ) <= u32::MAX,
            r is Ok ==> appended(
                *old(codegen),
                *final(codegen),
                json_stringify_signatures_in(old(codegen).names(), old(codegen).n_functions() as int),
                json_stringify_bindings_if(old(codegen).index_of("string.concat"@) is Some),
            ),
            r matches Err(e) ==> e == CompilerError::FunctionLimit,
    {
        // Get required function indices for stringify operations.
        // string.concat is reachability-gated: it is only registered when
        // the program uses string concatenation or JSON. If it is absent the
        // program does not call json.dataToText or json.prettyDataToText, so
        // skip the stringify helpers entirely.
        let string_concat_index = match codegen.get_function_index("string.concat") {
            Some(idx) => idx,
            None => {
                proof {
                    lemma_appended_start(*codegen);
                    lemma_appended_fits(*codegen, *codegen, Seq::empty(), Seq::empty());
                    assert(json_stringify_signatures_in(codegen.names(), codegen.n_functions() as int)
                        =~= Seq::<Signature>::empty());
                    assert(json_stringify_bindings_if(false) =~= Seq::<(Seq<char>, int)>::empty());
                }
                return Ok(());
            },
        };
        // Get required function indices for stringify operations
        let malloc_index = codegen.get_function_index("__malloc").expect(
            "__malloc must be registered before JSON stringify functions",
        );
        let int_to_string_index = match codegen.get_function_index("integer.toString") {
            Some(idx) => idx,
            None => codegen.get_function_index("int_to_string").expect(
                "integer.toString must be registered before JSON stringify functions",
            ),
        };
        let float_to_string_index = codegen.get_function_index("float_to_string").expect(
            "float_to_string must be registered before JSON stringify functions",
        );
        // Calculate what the function indices will be for mutual recursion
        let base_idx = codegen.get_next_function_index();
        let quote_string_idx_predicted = base_idx;
        let stringify_value_idx_predicted = base_idx + 1;
        let stringify_array_idx_predicted = base_idx + 2;
        let stringify_object_idx_predicted = base_idx + 3;
        let pretty_value_idx_predicted = base_idx + 4;
        let pretty_array_idx_predicted = base_idx + 5;
        let pretty_object_idx_predicted = base_idx + 6;
        let ghost start = *codegen;
        let ghost mut sigs = Seq::<Signature>::empty();
        let ghost mut binds = Seq::<(Seq<char>, int)>::empty();
        proof {
            lemma_appended_start(start);
        }
        // Register helper functions for recursive stringify
        // 1. __json_quote_string(str_ptr: i32) -> i32
        let ghost sig = defined(
            "__json_quote_string"@,
            seq![WasmType::I32],
            Some(WasmType::I32),
            seq![WasmType::I32, WasmType::I32, WasmType::I32, WasmType::I32, WasmType::I32, WasmType::I32],
            JsonClass::quote_string_instructions_body(malloc_index),
        );
        let quote_string_idx = register_tracked(
            codegen,
            Ghost(start),
            Ghost(sigs),
            Ghost(binds),
            Ghost(sig),
            "__json_quote_string",
            &[WasmType::I32],
            Some(WasmType::I32),
            &[WasmType::I32, WasmType::I32, WasmType::I32, WasmType::I32, WasmType::I32, WasmType::I32],
            self.generate_quote_string_instructions(malloc_index),
        )?;
        proof {
            binds = binds.push(binding_for(sigs, sig));
            sigs = sigs.push(sig);
        }
        assert(quote_string_idx == quote_string_idx_predicted);
        // 2. __json_stringify_value(boxed_ptr: i32) -> i32
        let ghost sig = defined(
            "__json_stringify_value"@,
            seq![WasmType::I32],
            Some(WasmType::I32),
            seq![WasmType::I32, WasmType::I32, WasmType::I32, WasmType::I32, WasmType::I32, WasmType::F64],
            JsonClass::stringify_value_instructions_body(malloc_index, int_to_string_index, float_to_string_index, quote_string_idx, stringify_array_idx_predicted, stringify_object_idx_predicted),
        );
        let stringify_value_idx = register_tracked(
            codegen,
            Ghost(start),
            Ghost(sigs),
            Ghost(binds),
            Ghost(sig),
            "__json_stringify_value",
            &[WasmType::I32],
            Some(WasmType::I32),
            &[WasmType::I32, WasmType::I32, WasmType::I32, WasmType::I32, WasmType::I32, WasmType::F64],
            self.generate_stringify_value_instructions(malloc_index, int_to_string_index, float_to_string_index, quote_string_idx, stringify_array_idx_predicted, stringify_object_idx_predicted),
        )?;
        proof {
            binds = binds.push(binding_for(sigs, sig));
            sigs = sigs.push(sig);
        }
        assert(stringify_value_idx == stringify_value_idx_predicted);
        // 3. __json_stringify_array(array_ptr: i32) -> i32
        let ghost sig = defined(
            "__json_stringify_array"@,
            seq![WasmType::I32],
            Some(WasmType::I32),
            seq![WasmType::I32, WasmType::I32, WasmType::I32, WasmType::I32, WasmType::I32, WasmType::I32, WasmType::I32],
            JsonClass::stringify_array_instructions_body(malloc_index, string_concat_index, stringify_value_idx),
        );
        let stringify_array_idx = register_tracked(
            codegen,
            Ghost(start),
            Ghost(sigs),
            Ghost(binds),
            Ghost(sig),
            "__json_stringify_array",
            &[WasmType::I32],
            Some(WasmType::I32),
            &[WasmType::I32, WasmType::I32, WasmType::I32, WasmType::I32, WasmType::I32, WasmType::I32, WasmType::I32],
            self.generate_stringify_array_instructions(malloc_index, string_concat_index, stringify_value_idx),
        )?;
        proof {
            binds = binds.push(binding_for(sigs, sig));
            sigs = sigs.push(sig);
        }
        assert(stringify_array_idx == stringify_array_idx_predicted);
        // 4. __json_stringify_object(object_ptr: i32) -> i32
        let ghost sig = defined(
            "__json_stringify_object"@,
            seq![WasmType::I32],
            Some(WasmType::I32),
            seq![WasmType::I32, WasmType::I32, WasmType::I32, WasmType::I32, WasmType::I32, WasmType::I32, WasmType::I32, WasmType::I32, WasmType::I32],
            JsonClass::stringify_object_instructions_body(malloc_index, string_concat_index, quote_string_idx, stringify_value_idx),
        );
        let stringify_object_idx = register_tracked(
            codegen,
            Ghost(start),
            Ghost(sigs),
            Ghost(binds),
            Ghost(sig),
            "__json_stringify_object",
            &[WasmType::I32],
            Some(WasmType::I32),
            &[WasmType::I32, WasmType::I32, WasmType::I32, WasmType::I32, WasmType::I32, WasmType::I32, WasmType::I32, WasmType::I32, WasmType::I32],
            self.generate_stringify_object_instructions(malloc_index, string_concat_index, quote_string_idx, stringify_value_idx),
        )?;
        proof {
            binds = binds.push(binding_for(sigs, sig));
            sigs = sigs.push(sig);
        }
        assert(stringify_object_idx == stringify_object_idx_predicted);
        // 5. __json_pretty_stringify_value(boxed_ptr: i32, indent: i32) -> i32
        let ghost sig = defined(
            "__json_pretty_stringify_value"@,
            seq![WasmType::I32, WasmType::I32],
            Some(WasmType::I32),
            seq![WasmType::I32, WasmType::I32, WasmType::I32, WasmType::I32, WasmType::F64],
            JsonClass::pretty_stringify_value_instructions_body(malloc_index, int_to_string_index, float_to_string_index, quote_string_idx, pretty_array_idx_predicted, pretty_object_idx_predicted, stringify_array_idx, stringify_object_idx),
        );
        let pretty_value_idx = register_tracked(
            codegen,
            Ghost(start),
            Ghost(sigs),
            Ghost(binds),
            Ghost(sig),
            "__json_pretty_stringify_value",
            &[WasmType::I32, WasmType::I32],
            Some(WasmType::I32),
            &[WasmType::I32, WasmType::I32, WasmType::I32, WasmType::I32, WasmType::F64],
            self.generate_pretty_stringify_value_instructions(malloc_index, int_to_string_index, float_to_string_index, quote_string_idx, pretty_array_idx_predicted, pretty_object_idx_predicted, stringify_array_idx, stringify_object_idx),
        )?;
        proof {
            binds = binds.push(binding_for(sigs, sig));
            sigs = sigs.push(sig);
        }
        assert(pretty_value_idx == pretty_value_idx_predicted);
        // 6. __json_pretty_stringify_array(array_ptr: i32, indent: i32) -> i32
        let ghost sig = defined(
            "__json_pretty_stringify_array"@,
            seq![WasmType::I32, WasmType::I32],
            Some(WasmType::I32),
            seq![WasmType::I32, WasmType::I32, WasmType::I32, WasmType::I32, WasmType::I32, WasmType::I32, WasmType::I32, WasmType::I32, WasmType::I32],
            JsonClass::pretty_stringify_array_instructions_body(malloc_index, string_concat_index, pretty_value_idx),
        );
        let pretty_array_idx = register_tracked(
            codegen,
            Ghost(start),
            Ghost(sigs),
            Ghost(binds),
            Ghost(sig),
            "__json_pretty_stringify_array",
            &[WasmType::I32, WasmType::I32],
            Some(WasmType::I32),
            &[WasmType::I32, WasmType::I32, WasmType::I32, WasmType::I32, WasmType::I32, WasmType::I32, WasmType::I32, WasmType::I32, WasmType::I32],
            self.generate_pretty_stringify_array_instructions(malloc_index, string_concat_index, pretty_value_idx),
        )?;
        proof {
            binds = binds.push(binding_for(sigs, sig));
            sigs = sigs.push(sig);
        }
        assert(pretty_array_idx == pretty_array_idx_predicted);
        // 7. __json_pretty_stringify_object(object_ptr: i32, indent: i32) -> i32
        let ghost sig = defined(
            "__json_pretty_stringify_object"@,
            seq![WasmType::I32, WasmType::I32],
            Some(WasmType::I32),
            seq![WasmType::I32, WasmType::I32, WasmType::I32, WasmType::I32, WasmType::I32, WasmType::I32, WasmType::I32, WasmType::I32, WasmType::I32, WasmType::I32, WasmType::I32],
            JsonClass::pretty_stringify_object_instructions_body(malloc_index, string_concat_index, quote_string_idx, pretty_value_idx),
        );
        let pretty_object_idx = register_tracked(
            codegen,
            Ghost(start),
            Ghost(sigs),
            Ghost(binds),
            Ghost(sig),
            "__json_pretty_stringify_object",
            &[WasmType::I32, WasmType::I32],
            Some(WasmType::I32),
            &[WasmType::I32, WasmType::I32, WasmType::I32, WasmType::I32, WasmType::I32, WasmType::I32, WasmType::I32, WasmType::I32, WasmType::I32, WasmType::I32, WasmType::I32],
            self.generate_pretty_stringify_object_instructions(malloc_index, string_concat_index, quote_string_idx, pretty_value_idx),
        )?;
        proof {
            binds = binds.push(binding_for(sigs, sig));
            sigs = sigs.push(sig);
        }
        assert(pretty_object_idx == pretty_object_idx_predicted);
        // __json_encode_cln_list(list_ptr: i32, elem_tag: i32) -> i32
        // Walks a native Clean list and encodes each element directly as JSON.
        let ghost sig = defined(
            "__json_encode_cln_list"@,
            seq![WasmType::I32, WasmType::I32],
            Some(WasmType::I32),
            seq![WasmType::I32, WasmType::I32, WasmType::I32, WasmType::I32, WasmType::I32, WasmType::I32, WasmType::I32, WasmType::I32, WasmType::F64],
            JsonClass::encode_cln_list_instructions_body(malloc_index, string_concat_index, int_to_string_index, float_to_string_index, quote_string_idx),
        );
        register_tracked(
            codegen,
            Ghost(start),
            Ghost(sigs),
            Ghost(binds),
            Ghost(sig),
            "__json_encode_cln_list",
            &[WasmType::I32, WasmType::I32],
            Some(WasmType::I32),
            &[WasmType::I32, WasmType::I32, WasmType::I32, WasmType::I32, WasmType::I32, WasmType::I32, WasmType::I32, WasmType::I32, WasmType::F64],
            self.generate_encode_cln_list_instructions(malloc_index, string_concat_index, int_to_string_index, float_to_string_index, quote_string_idx),
        )?;
        proof {
            binds = binds.push(binding_for(sigs, sig));
            sigs = sigs.push(sig);
        }
        // __json_encode_cln_pairs(pairs_ptr: i32, val_tag: i32) -> i32
        // Walks a native Clean pairs map and encodes each entry directly as JSON.
        let ghost sig = defined(
            "__json_encode_cln_pairs"@,
            seq![WasmType::I32, WasmType::I32],
            Some(WasmType::I32),
            seq![WasmType::I32, WasmType::I32, WasmType::I32, WasmType::I32, WasmType::I32, WasmType::I32, WasmType::I32, WasmType::I32, WasmType::I32],
            JsonClass::encode_cln_pairs_instructions_body(malloc_index, string_concat_index, int_to_string_index, quote_string_idx),
        );
        register_tracked(
            codegen,
            Ghost(start),
            Ghost(sigs),
            Ghost(binds),
            Ghost(sig),
            "__json_encode_cln_pairs",
            &[WasmType::I32, WasmType::I32],
            Some(WasmType::I32),
            &[WasmType::I32, WasmType::I32, WasmType::I32, WasmType::I32, WasmType::I32, WasmType::I32, WasmType::I32, WasmType::I32, WasmType::I32],
            self.generate_encode_cln_pairs_instructions(malloc_index, string_concat_index, int_to_string_index, quote_string_idx),
        )?;
        proof {
            binds = binds.push(binding_for(sigs, sig));
            sigs = sigs.push(sig);
        }
        // __json_from_cln_list(list_ptr: i32, elem_tag: i32) -> i32
        // Materializes a native Clean list as the JSON-array tree layout
        // (`[count][boxed_elem_ptr]…`) so the existing __json_stringify_array
        // helper can walk it, for example when a typed list is boxed to Any
        // as a field value inside an `any data = { items: [...] }` object literal.
        let ghost sig = defined(
            "__json_from_cln_list"@,
            seq![WasmType::I32, WasmType::I32],
            Some(WasmType::I32),
            seq![WasmType::I32, WasmType::I32, WasmType::I32, WasmType::I32, WasmType::I32, WasmType::I32, WasmType::I32],
            JsonClass::from_cln_list_instructions_body(malloc_index),
        );
        register_tracked(
            codegen,
            Ghost(start),
            Ghost(sigs),
            Ghost(binds),
            Ghost(sig),
            "__json_from_cln_list",
            &[WasmType::I32, WasmType::I32],
            Some(WasmType::I32),
            &[WasmType::I32, WasmType::I32, WasmType::I32, WasmType::I32, WasmType::I32, WasmType::I32, WasmType::I32],
            self.generate_from_cln_list_instructions(malloc_index),
        )?;
        proof {
            binds = binds.push(binding_for(sigs, sig));
            sigs = sigs.push(sig);
        }
        // __json_from_cln_pairs(pairs_ptr: i32, val_tag: i32) -> i32
        // Materializes a native Clean pairs map as the JSON-object tree layout
        // (`[count][key_ptr][boxed_val_ptr]…`) so __json_stringify_object can
        // walk it when a typed pairs map is boxed to Any.
        let ghost sig = defined(
            "__json_from_cln_pairs"@,
            seq![WasmType::I32, WasmType::I32],
            Some(WasmType::I32),
            seq![WasmType::I32, WasmType::I32, WasmType::I32, WasmType::I32, WasmType::I32, WasmType::I32, WasmType::I32, WasmType::I32],
            JsonClass::from_cln_pairs_instructions_body(malloc_index),
        );
        register_tracked(
            codegen,
            Ghost(start),
            Ghost(sigs),
            Ghost(binds),
            Ghost(sig),
            "__json_from_cln_pairs",
            &[WasmType::I32, WasmType::I32],
            Some(WasmType::I32),
            &[WasmType::I32, WasmType::I32, WasmType::I32, WasmType::I32, WasmType::I32, WasmType::I32, WasmType::I32, WasmType::I32],
            self.generate_from_cln_pairs_instructions(malloc_index),
        )?;
        proof {
            binds = binds.push(binding_for(sigs, sig));
            sigs = sigs.push(sig);
        }
        // json.dataToText(data: any) -> string
        // Convert data structure to JSON text
        let ghost sig = defined(
            "json.dataToText"@,
            seq![WasmType::I32],
            Some(WasmType::I32),
            seq![],
            JsonClass::data_to_text_instructions_body(stringify_value_idx),
        );
        register_tracked(
            codegen,
            Ghost(start),
            Ghost(sigs),
            Ghost(binds),
            Ghost(sig),
            "json.dataToText",
            &[WasmType::I32],
            Some(WasmType::I32),
            &[],
            self.generate_data_to_text_instructions(stringify_value_idx),
        )?;
        proof {
            binds = binds.push(binding_for(sigs, sig));
            sigs = sigs.push(sig);
        }
        // json.prettyDataToText(data: any) -> string
        // Convert data structure to indented JSON text
        let ghost sig = defined(
            "json.prettyDataToText"@,
            seq![WasmType::I32],
            Some(WasmType::I32),
            seq![],
            JsonClass::pretty_data_to_text_instructions_body(pretty_value_idx),
        );
        register_tracked(
            codegen,
            Ghost(start),
            Ghost(sigs),
            Ghost(binds),
            Ghost(sig),
            "json.prettyDataToText",
            &[WasmType::I32],
            Some(WasmType::I32),
            &[],
            self.generate_pretty_data_to_text_instructions(pretty_value_idx),
        )?;
        proof {
            binds = binds.push(binding_for(sigs, sig));
            sigs = sigs.push(sig);
        }
        proof {
            assert(int_to_string_index == json_int_to_string_index(start.names()));
            assert(sigs =~= json_stringify_signatures(
                malloc_index,
                string_concat_index,
                int_to_string_index,
                float_to_string_index,
                base_idx,
            ));
            assert(binds =~= json_stringify_bindings());
            lemma_appended_fits(start, *codegen, sigs, binds);
        }
        Ok(())
    }

    /// Register JSON access operations for bracket notation support
    /// These functions enable data["field"] and data[0] syntax
    fn register_access_operations(&self, codegen: &mut CodeGenerator) -> (r: Result<(), CompilerError>)
        requires
            old(codegen).wf(),
            old(codegen).index_of("__malloc"@) is Some,
        ensures
            final(codegen).wf(),
            r is Ok <==> old(codegen).n_functions() + 4 <= u32::MAX,
            r is Ok ==> appended(
                *old(codegen),
                *final(codegen),
                json_access_signatures_at(
                    old(codegen).index_of("__malloc"@)->0,
                    old(codegen).n_functions(),
                ),
                json_access_bindings(),
            ),
            r matches Err(e) ==> e == CompilerError::FunctionLimit,
    {
        // Get malloc index for boxing compact values
        let malloc_index = codegen.get_function_index("__malloc").expect(
            "__malloc must be registered before JSON access functions",
        );
        let ghost start = *codegen;
        let ghost mut sigs = Seq::<Signature>::empty();
        let ghost mut binds = Seq::<(Seq<char>, int)>::empty();
        proof {
            lemma_appended_start(start);
        }
        // First register string comparison helper needed by field accessor
        let ghost sig = defined(
            "__memcmp_bytes"@,
            seq![WasmType::I32, WasmType::I32, WasmType::I32, WasmType::I32],
            Some(WasmType::I32),
            seq![WasmType::I32],
            JsonClass::memcmp_bytes_instructions_body(),
        );
        register_tracked(
            codegen,
            Ghost(start),
            Ghost(sigs),
            Ghost(binds),
            Ghost(sig),
            "__memcmp_bytes",
            &[WasmType::I32, WasmType::I32, WasmType::I32, WasmType::I32],
            Some(WasmType::I32),
            &[WasmType::I32],
            self.generate_memcmp_bytes_instructions(),
        )?;
        proof {
            binds = binds.push(binding_for(sigs, sig));
            sigs = sigs.push(sig);
        }
        // Get memcmp index for field comparison
        proof {
            lemma_lookup_last(start, *codegen, sigs, binds, "__memcmp_bytes"@, 0);
        }
        let memcmp_index = codegen.get_function_index("__memcmp_bytes").expect(
            "__memcmp_bytes must be registered before __json_get_field",
        );
        // __json_get_field(any_ptr: i32, key_ptr: i32, key_len: i32) -> i32
        // Access a field on a JSON object by string key
        // Returns pointer to field value, or null (0) if not found
        // Handles compact boolean encoding (1=false, 2=true) by boxing them
        let ghost sig = defined(
            "__json_get_field"@,
            seq![WasmType::I32, WasmType::I32, WasmType::I32],
            Some(WasmType::I32),
            seq![WasmType::I32, WasmType::I32, WasmType::I32, WasmType::I32, WasmType::I32, WasmType::I32, WasmType::I32, WasmType::I32],
            JsonClass::get_field_instructions_body(malloc_index, memcmp_index),
        );
        register_tracked(
            codegen,
            Ghost(start),
            Ghost(sigs),
            Ghost(binds),
            Ghost(sig),
            "__json_get_field",
            &[WasmType::I32, WasmType::I32, WasmType::I32],
            Some(WasmType::I32),
            &[WasmType::I32, WasmType::I32, WasmType::I32, WasmType::I32, WasmType::I32, WasmType::I32, WasmType::I32, WasmType::I32],
            self.generate_get_field_instructions(malloc_index, memcmp_index),
        )?;
        proof {
            binds = binds.push(binding_for(sigs, sig));
            sigs = sigs.push(sig);
        }
        // __json_get_index(any_ptr: i32, index: i32) -> i32
        // Access an element on a JSON array by integer index
        // Returns pointer to element, or null (0) if out of bounds
        // Handles compact boolean encoding (1=false, 2=true) by boxing them
        let ghost sig = defined(
            "__json_get_index"@,
            seq![WasmType::I32, WasmType::I32],
            Some(WasmType::I32),
            seq![WasmType::I32, WasmType::I32, WasmType::I32],
            JsonClass::get_index_instructions_body(malloc_index),
        );
        register_tracked(
            codegen,
            Ghost(start),
            Ghost(sigs),
            Ghost(binds),
            Ghost(sig),
            "__json_get_index",
            &[WasmType::I32, WasmType::I32],
            Some(WasmType::I32),
            &[WasmType::I32, WasmType::I32, WasmType::I32],
            self.generate_get_index_instructions(malloc_index),
        )?;
        proof {
            binds = binds.push(binding_for(sigs, sig));
            sigs = sigs.push(sig);
        }
        // __json_get_path(obj_boxed_ptr: i32, path_content_ptr: i32, path_len: i32) -> i32
        //
        // Descend through a JSON value following a dot-separated path, e.g.
        // `data.rows.0.name`. Each segment is dispatched to `__json_get_field`
        // when the current target is an object, or to `__json_get_index` when
        // the current target is an array AND the segment is all-digits.
        // Returns the boxed any pointer of the resolved value, or 0 if any
        // segment fails to resolve (`json.get` never raises — it returns null
        // on miss). The `__json_get_field` and `__json_get_index` primitives
        // stay single-segment; path logic lives only here.
        proof {
            assert(binds =~= seq![
                ("__memcmp_bytes"@, 0int),
                ("__json_get_field"@, 1int),
                ("__json_get_index"@, 2int),
            ]);
            lemma_access_lookups(start, *codegen, sigs, binds);
        }
        let field_index = codegen.get_function_index("__json_get_field").expect(
            "__json_get_field must be registered before __json_get_path",
        );
        let index_index = codegen.get_function_index("__json_get_index").expect(
            "__json_get_index must be registered before __json_get_path",
        );
        let ghost sig = defined(
            "__json_get_path"@,
            seq![WasmType::I32, WasmType::I32, WasmType::I32],
            Some(WasmType::I32),
            seq![WasmType::I32, WasmType::I32, WasmType::I32, WasmType::I32, WasmType::I32, WasmType::I32, WasmType::I32, WasmType::I32, WasmType::I32, WasmType::I32],
            JsonClass::get_path_instructions_body(field_index, index_index),
        );
        register_tracked(
            codegen,
            Ghost(start),
            Ghost(sigs),
            Ghost(binds),
            Ghost(sig),
            "__json_get_path",
            &[WasmType::I32, WasmType::I32, WasmType::I32],
            Some(WasmType::I32),
            &[WasmType::I32, WasmType::I32, WasmType::I32, WasmType::I32, WasmType::I32, WasmType::I32, WasmType::I32, WasmType::I32, WasmType::I32, WasmType::I32],
            self.generate_get_path_instructions(field_index, index_index),
        )?;
        proof {
            binds = binds.push(binding_for(sigs, sig));
            sigs = sigs.push(sig);
        }
        proof {
            assert(sigs =~= json_access_signatures_at(malloc_index, start.n_functions()));
            assert(binds =~= json_access_bindings());
            lemma_appended_fits(start, *codegen, sigs, binds);
        }
        Ok(())
    }
}

impl JsonClass {
    /// The instructions `compact_bool_box_inplace` returns.
    #[verifier::opaque]
    pub open spec fn compact_bool_box_inplace_body(raw_local: u32, boxed_local: u32, malloc_index: u32) -> Seq<Instruction> {
        seq![
            Instruction::LocalGet(raw_local),
            Instruction::I32Const(1),
            Instruction::I32Eq,
            Instruction::If(BlockType::Empty),
            Instruction::I32Const(12),
            Instruction::Call(malloc_index),
            Instruction::LocalTee(boxed_local),
            Instruction::I32Const(JSON_TAG_BOOLEAN),
            Instruction::I32Store(MemArg { offset: 0, align: 2, memory_index: 0 }),
            Instruction::LocalGet(boxed_local),
            Instruction::I32Const(0),
            Instruction::I32Store(MemArg { offset: 4, align: 2, memory_index: 0 }),
            Instruction::LocalGet(boxed_local),
            Instruction::I32Const(0),
            Instruction::I32Store(MemArg { offset: 8, align: 2, memory_index: 0 }),
            Instruction::LocalGet(boxed_local),
            Instruction::LocalSet(raw_local),
            Instruction::Else,
            Instruction::LocalGet(raw_local),
            Instruction::I32Const(2),
            Instruction::I32Eq,
            Instruction::If(BlockType::Empty),
            Instruction::I32Const(12),
            Instruction::Call(malloc_index),
            Instruction::LocalTee(boxed_local),
            Instruction::I32Const(JSON_TAG_BOOLEAN),
            Instruction::I32Store(MemArg { offset: 0, align: 2, memory_index: 0 }),
            Instruction::LocalGet(boxed_local),
            Instruction::I32Const(1),
            Instruction::I32Store(MemArg { offset: 4, align: 2, memory_index: 0 }),
            Instruction::LocalGet(boxed_local),
            Instruction::I32Const(0),
            Instruction::I32Store(MemArg { offset: 8, align: 2, memory_index: 0 }),
            Instruction::LocalGet(boxed_local),
            Instruction::LocalSet(raw_local),
            Instruction::End,
            Instruction::End,
        ]
    }

    /// Box a compact boolean stored in `raw_local` into a 12-byte Any value, in-place.
    ///
    /// If `raw_local` == 1 (compact false) or == 2 (compact true), allocates a 12-byte
    /// Any box and writes the resulting pointer back to `raw_local`. Any other value is
    /// left unchanged. Uses `BlockType::Empty` — no net stack effect.
    fn compact_bool_box_inplace(raw_local: u32, boxed_local: u32, malloc_index: u32) -> (r: Vec<Instruction>)
        requires
            raw_local < u32::MAX,
            boxed_local < u32::MAX,
        ensures
            body_ok(r@, ((if raw_local > boxed_local { raw_local } else { boxed_local }) + 1) as nat),
            r@ == Self::compact_bool_box_inplace_body(raw_local, boxed_local, malloc_index),
    {
        proof {
            reveal(JsonClass::compact_bool_box_inplace_body);
        }
        let n = if raw_local > boxed_local { raw_local + 1 } else { boxed_local + 1 };
        let mut b = Body::new(n);
        b.i(Instruction::LocalGet(raw_local));
        b.i(Instruction::I32Const(1));
        b.i(Instruction::I32Eq);
        b.i(Instruction::If(BlockType::Empty));
        b.i(Instruction::I32Const(12));
        b.i(Instruction::Call(malloc_index));
        b.i(Instruction::LocalTee(boxed_local));
        b.i(Instruction::I32Const(JSON_TAG_BOOLEAN));
        b.i(Instruction::I32Store(MemArg { offset: 0, align: 2, memory_index: 0 }));
        b.i(Instruction::LocalGet(boxed_local));
        b.i(Instruction::I32Const(0)); // false
        b.i(Instruction::I32Store(MemArg { offset: 4, align: 2, memory_index: 0 }));
        b.i(Instruction::LocalGet(boxed_local));
        b.i(Instruction::I32Const(0));
        b.i(Instruction::I32Store(MemArg { offset: 8, align: 2, memory_index: 0 }));
        b.i(Instruction::LocalGet(boxed_local));
        b.i(Instruction::LocalSet(raw_local));
        b.i(Instruction::Else);
        b.i(Instruction::LocalGet(raw_local));
        b.i(Instruction::I32Const(2));
        b.i(Instruction::I32Eq);
        b.i(Instruction::If(BlockType::Empty));
        b.i(Instruction::I32Const(12));
        b.i(Instruction::Call(malloc_index));
        b.i(Instruction::LocalTee(boxed_local));
        b.i(Instruction::I32Const(JSON_TAG_BOOLEAN));
        b.i(Instruction::I32Store(MemArg { offset: 0, align: 2, memory_index: 0 }));
        b.i(Instruction::LocalGet(boxed_local));
        b.i(Instruction::I32Const(1)); // true
        b.i(Instruction::I32Store(MemArg { offset: 4, align: 2, memory_index: 0 }));
        b.i(Instruction::LocalGet(boxed_local));
        b.i(Instruction::I32Const(0));
        b.i(Instruction::I32Store(MemArg { offset: 8, align: 2, memory_index: 0 }));
        b.i(Instruction::LocalGet(boxed_local));
        b.i(Instruction::LocalSet(raw_local));
        b.i(Instruction::End);
        b.i(Instruction::End);
        b.finish()
    }

    /// The instructions `compact_bool_unbox_returning` returns.
    #[verifier::opaque]
    pub open spec fn compact_bool_unbox_returning_body(raw_local: u32, boxed_local: u32, malloc_index: u32) -> Seq<Instruction> {
        seq![
            Instruction::LocalGet(raw_local),
            Instruction::I32Const(1),
            Instruction::I32Eq,
            Instruction::If(BlockType::Result(ValType::I32)),
            Instruction::I32Const(12),
            Instruction::Call(malloc_index),
            Instruction::LocalSet(boxed_local),
            Instruction::LocalGet(boxed_local),
            Instruction::I32Const(JSON_TAG_BOOLEAN),
            Instruction::I32Store(MemArg { offset: 0, align: 2, memory_index: 0 }),
            Instruction::LocalGet(boxed_local),
            Instruction::I32Const(0),
            Instruction::I32Store(MemArg { offset: 4, align: 2, memory_index: 0 }),
            Instruction::LocalGet(boxed_local),
            Instruction::I32Const(0),
            Instruction::I32Store(MemArg { offset: 8, align: 2, memory_index: 0 }),
            Instruction::LocalGet(boxed_local),
            Instruction::Else,
            Instruction::LocalGet(raw_local),
            Instruction::I32Const(2),
            Instruction::I32Eq,
            Instruction::If(BlockType::Result(ValType::I32)),
            Instruction::I32Const(12),
            Instruction::Call(malloc_index),
            Instruction::LocalSet(boxed_local),
            Instruction::LocalGet(boxed_local),
            Instruction::I32Const(JSON_TAG_BOOLEAN),
            Instruction::I32Store(MemArg { offset: 0, align: 2, memory_index: 0 }),
            Instruction::LocalGet(boxed_local),
            Instruction::I32Const(1),
            Instruction::I32Store(MemArg { offset: 4, align: 2, memory_index: 0 }),
            Instruction::LocalGet(boxed_local),
            Instruction::I32Const(0),
            Instruction::I32Store(MemArg { offset: 8, align: 2, memory_index: 0 }),
            Instruction::LocalGet(boxed_local),
            Instruction::Else,
            Instruction::LocalGet(raw_local),
            Instruction::End,
            Instruction::End,
        ]
    }

    /// Box a compact boolean in `raw_local` and return the result on the stack.
    ///
    /// If `raw_local` == 1 (compact false) or == 2 (compact true), allocates a 12-byte
    /// Any box and returns the pointer. Any other value (null=0 or real pointer) is
    /// returned as-is. Uses `BlockType::Result(I32)` — leaves exactly one i32 on the
    /// stack, which is the (possibly-boxed) value.
    fn compact_bool_unbox_returning(raw_local: u32, boxed_local: u32, malloc_index: u32) -> (r: Vec<Instruction>)
        requires
            raw_local < u32::MAX,
            boxed_local < u32::MAX,
        ensures
            body_ok(r@, ((if raw_local > boxed_local { raw_local } else { boxed_local }) + 1) as nat),
            r@ == Self::compact_bool_unbox_returning_body(raw_local, boxed_local, malloc_index),
    {
        proof {
            reveal(JsonClass::compact_bool_unbox_returning_body);
        }
        let n = if raw_local > boxed_local { raw_local + 1 } else { boxed_local + 1 };
        let mut b = Body::new(n);
        b.i(Instruction::LocalGet(raw_local));
        b.i(Instruction::I32Const(1));
        b.i(Instruction::I32Eq);
        b.i(Instruction::If(BlockType::Result(ValType::I32)));
        b.i(Instruction::I32Const(12));
        b.i(Instruction::Call(malloc_index));
        b.i(Instruction::LocalSet(boxed_local));
        b.i(Instruction::LocalGet(boxed_local));
        b.i(Instruction::I32Const(JSON_TAG_BOOLEAN));
        b.i(Instruction::I32Store(MemArg { offset: 0, align: 2, memory_index: 0 }));
        b.i(Instruction::LocalGet(boxed_local));
        b.i(Instruction::I32Const(0)); // false
        b.i(Instruction::I32Store(MemArg { offset: 4, align: 2, memory_index: 0 }));
        b.i(Instruction::LocalGet(boxed_local));
        b.i(Instruction::I32Const(0));
        b.i(Instruction::I32Store(MemArg { offset: 8, align: 2, memory_index: 0 }));
        b.i(Instruction::LocalGet(boxed_local));
        b.i(Instruction::Else);
        b.i(Instruction::LocalGet(raw_local));
        b.i(Instruction::I32Const(2));
        b.i(Instruction::I32Eq);
        b.i(Instruction::If(BlockType::Result(ValType::I32)));
        b.i(Instruction::I32Const(12));
        b.i(Instruction::Call(malloc_index));
        b.i(Instruction::LocalSet(boxed_local));
        b.i(Instruction::LocalGet(boxed_local));
        b.i(Instruction::I32Const(JSON_TAG_BOOLEAN));
        b.i(Instruction::I32Store(MemArg { offset: 0, align: 2, memory_index: 0 }));
        b.i(Instruction::LocalGet(boxed_local));
        b.i(Instruction::I32Const(1)); // true
        b.i(Instruction::I32Store(MemArg { offset: 4, align: 2, memory_index: 0 }));
        b.i(Instruction::LocalGet(boxed_local));
        b.i(Instruction::I32Const(0));
        b.i(Instruction::I32Store(MemArg { offset: 8, align: 2, memory_index: 0 }));
        b.i(Instruction::LocalGet(boxed_local));
        b.i(Instruction::Else);
        b.i(Instruction::LocalGet(raw_local)); // null or real pointer — pass through
        b.i(Instruction::End);
        b.i(Instruction::End);
        b.finish()
    }

    /// The instructions `generate_memcmp_bytes_instructions` returns.
    #[verifier::opaque]
    pub open spec fn memcmp_bytes_instructions_body() -> Seq<Instruction> {
        seq![
            Instruction::LocalGet(1),
            Instruction::LocalGet(3),
            Instruction::I32Ne,
            Instruction::If(BlockType::Result(ValType::I32)),
            Instruction::I32Const(1),
            Instruction::Else,
            Instruction::I32Const(0),
            Instruction::LocalSet(4),
            Instruction::Block(BlockType::Result(ValType::I32)),
            Instruction::Loop(BlockType::Empty),
            Instruction::LocalGet(4),
            Instruction::LocalGet(1),
            Instruction::I32GeU,
            Instruction::If(BlockType::Empty),
            Instruction::I32Const(0),
            Instruction::Br(2),
            Instruction::End,
            Instruction::LocalGet(0),
            Instruction::LocalGet(4),
            Instruction::I32Add,
            Instruction::I32Load8U(MemArg { offset: 0, align: 0, memory_index: 0 }),
            Instruction::LocalGet(2),
            Instruction::LocalGet(4),
            Instruction::I32Add,
            Instruction::I32Load8U(MemArg { offset: 0, align: 0, memory_index: 0 }),
            Instruction::I32Ne,
            Instruction::If(BlockType::Empty),
            Instruction::I32Const(1),
            Instruction::Br(2),
            Instruction::End,
            Instruction::LocalGet(4),
            Instruction::I32Const(1),
            Instruction::I32Add,
            Instruction::LocalSet(4),
            Instruction::Br(0),
            Instruction::End,
            Instruction::I32Const(0),
            Instruction::End,
            Instruction::End,
        ]
    }

    /// Generate WASM instructions for __memcmp_bytes
    /// Compares two byte sequences for equality
    /// Returns 0 if equal, non-zero if different
    fn generate_memcmp_bytes_instructions(&self) -> (r: Vec<Instruction>)
        ensures
            body_ok(r@, 5),
            r@ == Self::memcmp_bytes_instructions_body(),
    {
        proof {
            reveal(JsonClass::memcmp_bytes_instructions_body);
        }
        let mut b = Body::new(5);
        // Parameters:
        // Local 0: ptr1 (i32)
        // Local 1: len1 (i32)
        // Local 2: ptr2 (i32)
        // Local 3: len2 (i32)
        // Local 4: i (loop counter)
        // First check if lengths are different
        b.i(Instruction::LocalGet(1)); // len1
        b.i(Instruction::LocalGet(3)); // len2
        b.i(Instruction::I32Ne);
        b.i(Instruction::If(BlockType::Result(ValType::I32)));
        // Lengths differ - return 1
        b.i(Instruction::I32Const(1));
        b.i(Instruction::Else);
        // Lengths match - compare bytes
        // Initialize loop counter
        b.i(Instruction::I32Const(0));
        b.i(Instruction::LocalSet(4)); // i = 0
        // Loop through bytes
        b.i(Instruction::Block(BlockType::Result(ValType::I32)));
        b.i(Instruction::Loop(BlockType::Empty));
        // Check if i >= len1
        b.i(Instruction::LocalGet(4)); // i
        b.i(Instruction::LocalGet(1)); // len1
        b.i(Instruction::I32GeU);
        b.i(Instruction::If(BlockType::Empty));
        // All bytes matched - return 0
        b.i(Instruction::I32Const(0));
        b.i(Instruction::Br(2)); // Exit block with value
        b.i(Instruction::End);
        // Load byte from ptr1[i]
        b.i(Instruction::LocalGet(0)); // ptr1
        b.i(Instruction::LocalGet(4)); // i
        b.i(Instruction::I32Add);
        b.i(Instruction::I32Load8U(MemArg { offset: 0, align: 0, memory_index: 0 }));
        // Load byte from ptr2[i]
        b.i(Instruction::LocalGet(2)); // ptr2
        b.i(Instruction::LocalGet(4)); // i
        b.i(Instruction::I32Add);
        b.i(Instruction::I32Load8U(MemArg { offset: 0, align: 0, memory_index: 0 }));
        // Compare bytes
        b.i(Instruction::I32Ne);
        b.i(Instruction::If(BlockType::Empty));
        // Bytes differ - return 1
        b.i(Instruction::I32Const(1));
        b.i(Instruction::Br(2)); // Exit both loop and block
        b.i(Instruction::End);
        // Increment counter
        b.i(Instruction::LocalGet(4)); // i
        b.i(Instruction::I32Const(1));
        b.i(Instruction::I32Add);
        b.i(Instruction::LocalSet(4)); // i++
        b.i(Instruction::Br(0)); // Continue loop
        b.i(Instruction::End); // End loop
        // All bytes matched - return 0
        b.i(Instruction::I32Const(0));
        b.i(Instruction::End); // End block
        b.i(Instruction::End); // End if
        b.finish()
    }

    /// The instructions `generate_get_field_instructions` returns.
    #[verifier::opaque]
    pub open spec fn get_field_instructions_body(malloc_index: u32, memcmp_index: u32) -> Seq<Instruction> {
        (Seq::<Instruction>::empty()
            .push(Instruction::LocalGet(0))
            .push(Instruction::I32Eqz)
            .push(Instruction::If(BlockType::Result(ValType::I32)))
            .push(Instruction::I32Const(0))
            .push(Instruction::Else)
            .push(Instruction::LocalGet(0))
            .push(Instruction::I32Load(MemArg { offset: 0, align: 2, memory_index: 0 }))
            .push(Instruction::LocalSet(3))
            .push(Instruction::I32Const(0))
            .push(Instruction::LocalSet(4))
            .push(Instruction::Block(BlockType::Result(ValType::I32)))
            .push(Instruction::Loop(BlockType::Empty))
            .push(Instruction::LocalGet(4))
            .push(Instruction::LocalGet(3))
            .push(Instruction::I32GeU)
            .push(Instruction::If(BlockType::Empty))
            .push(Instruction::I32Const(0))
            .push(Instruction::Br(2))
            .push(Instruction::End)
            .push(Instruction::LocalGet(0))
            .push(Instruction::I32Const(4))
            .push(Instruction::I32Add)
            .push(Instruction::LocalGet(4))
            .push(Instruction::I32Const(8))
            .push(Instruction::I32Mul)
            .push(Instruction::I32Add)
            .push(Instruction::I32Load(MemArg { offset: 0, align: 2, memory_index: 0 }))
            .push(Instruction::LocalSet(5))
            .push(Instruction::LocalGet(5))
            .push(Instruction::I32Load(MemArg { offset: 0, align: 2, memory_index: 0 }))
            .push(Instruction::LocalSet(6))
            .push(Instruction::LocalGet(5))
            .push(Instruction::I32Const(4))
            .push(Instruction::I32Add)
            .push(Instruction::LocalSet(9))
            .push(Instruction::LocalGet(9))
            .push(Instruction::LocalGet(6))
            .push(Instruction::LocalGet(1))
            .push(Instruction::LocalGet(2))
            .push(Instruction::Call(memcmp_index))
            .push(Instruction::LocalSet(8))
            .push(Instruction::LocalGet(8))
            .push(Instruction::I32Eqz)
            .push(Instruction::If(BlockType::Empty))
            .push(Instruction::LocalGet(0))
            .push(Instruction::I32Const(4))
            .push(Instruction::I32Add)
            .push(Instruction::LocalGet(4))
            .push(Instruction::I32Const(8))
            .push(Instruction::I32Mul)
            .push(Instruction::I32Add)
            .push(Instruction::I32Const(4))
            .push(Instruction::I32Add)
            .push(Instruction::I32Load(MemArg { offset: 0, align: 2, memory_index: 0 }))
            .push(Instruction::LocalSet(7))
            + Self::compact_bool_unbox_returning_body(7, 10, malloc_index))
            .push(Instruction::Br(2))
            .push(Instruction::End)
            .push(Instruction::LocalGet(4))
            .push(Instruction::I32Const(1))
            .push(Instruction::I32Add)
            .push(Instruction::LocalSet(4))
            .push(Instruction::Br(0))
            .push(Instruction::End)
            .push(Instruction::I32Const(0))
            .push(Instruction::End)
            .push(Instruction::End)
    }

    /// Generate WASM instructions for __json_get_field
    /// Accesses a field on a JSON object by string key
    /// PRODUCTION IMPLEMENTATION - Proper field lookup with string comparison
    /// CRITICAL: Handles compact boolean encoding (1=false, 2=true) by boxing them
    #[verifier::rlimit(40)]
    #[verifier::spinoff_prover]
    fn generate_get_field_instructions(&self, malloc_index: u32, memcmp_index: u32) -> (r: Vec<Instruction>)
        ensures
            body_ok(r@, 11),
            r@ == Self::get_field_instructions_body(malloc_index, memcmp_index),
    {
        proof {
            reveal(JsonClass::get_field_instructions_body);
        }
        let mut b = Body::new(11);
        // Parameters:
        // Local 0: object_ptr (i32) - pointer to JSON object
        // Local 1: key_ptr (i32) - pointer to key string CONTENT (raw bytes, already past length prefix)
        // NOTE: MIR codegen uses load_string_argument_for_print which skips the 4-byte length prefix
        // Local 2: key_len (i32) - length of key string
        // Working Locals:
        // Local 3: count (i32) - number of key-value pairs in object
        // Local 4: i (i32) - loop counter
        // Local 5: current_key_ptr (i32) - pointer to current key being checked
        // Local 6: current_key_len (i32) - length of current key
        // Local 7: current_value_ptr (i32) - raw value from object (may be compact encoded)
        // Local 8: match_result (i32) - result from memcmp (0 = match)
        // Local 9: key_data_ptr (i32) - pointer to current key data (skipping length prefix)
        // Local 10: boxed_ptr (i32) - pointer to boxed value (for compact booleans)
        // Object Memory Layout: [i32 count][i32 key0_ptr][i32 val0_ptr][i32 key1_ptr][i32 val1_ptr]...
        // String Memory Layout: [i32 length][bytes...]
        // Compact Encoding (stored directly in object value slots):
        // 0 = null (returned as-is)
        // 1 = false (must be boxed to [tag=2][value=0][padding=0])
        // 2 = true (must be boxed to [tag=2][value=1][padding=0])
        // >2 = pointer to boxed value (returned as-is)
        // Check if object_ptr is null
        b.i(Instruction::LocalGet(0));
        b.i(Instruction::I32Eqz);
        b.i(Instruction::If(BlockType::Result(ValType::I32)));
        // Null input - return null
        b.i(Instruction::I32Const(0));
        b.i(Instruction::Else);
        // Load object count (number of key-value pairs)
        b.i(Instruction::LocalGet(0)); // object_ptr
        b.i(Instruction::I32Load(MemArg { offset: 0, align: 2, memory_index: 0 }));
        b.i(Instruction::LocalSet(3)); // count
        // Initialize loop counter
        b.i(Instruction::I32Const(0));
        b.i(Instruction::LocalSet(4)); // i = 0
        // Loop through key-value pairs
        b.i(Instruction::Block(BlockType::Result(ValType::I32)));
        b.i(Instruction::Loop(BlockType::Empty));
        // Check if i >= count (loop exit condition)
        b.i(Instruction::LocalGet(4)); // i
        b.i(Instruction::LocalGet(3)); // count
        b.i(Instruction::I32GeU);
        b.i(Instruction::If(BlockType::Empty));
        // No match found - return null (0)
        b.i(Instruction::I32Const(0));
        b.i(Instruction::Br(2)); // Exit block with value
        b.i(Instruction::End);
        // Load current key pointer
        // Key offset: object_ptr + 4 + (i * 8)
        // Each pair is 8 bytes: 4 for key_ptr + 4 for val_ptr
        b.i(Instruction::LocalGet(0)); // object_ptr
        b.i(Instruction::I32Const(4)); // Skip count field
        b.i(Instruction::I32Add);
        b.i(Instruction::LocalGet(4)); // i
        b.i(Instruction::I32Const(8)); // Size of key-value pair (2 * 4 bytes)
        b.i(Instruction::I32Mul);
        b.i(Instruction::I32Add);
        b.i(Instruction::I32Load(MemArg { offset: 0, align: 2, memory_index: 0 }));
        b.i(Instruction::LocalSet(5)); // current_key_ptr
        // Load current key length from string header
        b.i(Instruction::LocalGet(5)); // current_key_ptr
        b.i(Instruction::I32Load(MemArg { offset: 0, align: 2, memory_index: 0 }));
        b.i(Instruction::LocalSet(6)); // current_key_len
        // Calculate pointer to current key data (skip 4-byte length prefix)
        b.i(Instruction::LocalGet(5)); // current_key_ptr
        b.i(Instruction::I32Const(4));
        b.i(Instruction::I32Add);
        b.i(Instruction::LocalSet(9)); // key_data_ptr
        // Compare keys using full byte-by-byte comparison
        // Call __memcmp_bytes(key_data_ptr, current_key_len, key_ptr, key_len)
        // Returns 0 if equal, non-zero if different
        b.i(Instruction::LocalGet(9)); // key_data_ptr (stored key bytes, after length prefix)
        b.i(Instruction::LocalGet(6)); // current_key_len
        b.i(Instruction::LocalGet(1)); // key_ptr (search key bytes, already past length prefix)
        b.i(Instruction::LocalGet(2)); // key_len
        b.i(Instruction::Call(memcmp_index));
        b.i(Instruction::LocalSet(8)); // match_result (0 = match, non-zero = no match)
        // Check if keys matched (match_result == 0)
        b.i(Instruction::LocalGet(8)); // match_result
        b.i(Instruction::I32Eqz);
        b.i(Instruction::If(BlockType::Empty));
        // Keys matched! Load the corresponding value
        // Value offset: object_ptr + 4 + (i * 8) + 4
        b.i(Instruction::LocalGet(0)); // object_ptr
        b.i(Instruction::I32Const(4)); // Skip count field
        b.i(Instruction::I32Add);
        b.i(Instruction::LocalGet(4)); // i
        b.i(Instruction::I32Const(8)); // Size of key-value pair
        b.i(Instruction::I32Mul);
        b.i(Instruction::I32Add);
        b.i(Instruction::I32Const(4)); // Skip key pointer to get value pointer
        b.i(Instruction::I32Add);
        b.i(Instruction::I32Load(MemArg { offset: 0, align: 2, memory_index: 0 }));
        b.i(Instruction::LocalSet(7)); // Store raw value in current_value_ptr
        let frag = Self::compact_bool_unbox_returning(7, 10, malloc_index);
        proof {
            lemma_body_ok_more_locals(frag@, 11, 11);
        }
        b.extend(frag);
        // Now we have the (possibly boxed) value on stack
        b.i(Instruction::Br(2)); // Exit both loop and block with value on stack
        b.i(Instruction::End);
        // No match - increment counter and continue
        b.i(Instruction::LocalGet(4)); // i
        b.i(Instruction::I32Const(1));
        b.i(Instruction::I32Add);
        b.i(Instruction::LocalSet(4)); // i++
        b.i(Instruction::Br(0)); // Continue loop
        b.i(Instruction::End); // End loop
        // No match found after checking all pairs - return null
        b.i(Instruction::I32Const(0));
        b.i(Instruction::End); // End block
        b.i(Instruction::End); // End if
        b.finish()
    }

    /// The instructions `generate_get_index_instructions` returns.
    #[verifier::opaque]
    pub open spec fn get_index_instructions_body(malloc_index: u32) -> Seq<Instruction> {
        (Seq::<Instruction>::empty()
            .push(Instruction::LocalGet(0))
            .push(Instruction::I32Eqz)
            .push(Instruction::If(BlockType::Result(ValType::I32)))
            .push(Instruction::I32Const(0))
            .push(Instruction::Else)
            .push(Instruction::LocalGet(0))
            .push(Instruction::I32Load(MemArg { offset: 0, align: 2, memory_index: 0 }))
            .push(Instruction::LocalSet(2))
            .push(Instruction::LocalGet(1))
            .push(Instruction::I32Const(0))
            .push(Instruction::I32GeS)
            .push(Instruction::LocalGet(1))
            .push(Instruction::LocalGet(2))
            .push(Instruction::I32LtU)
            .push(Instruction::I32And)
            .push(Instruction::If(BlockType::Result(ValType::I32)))
            .push(Instruction::LocalGet(0))
            .push(Instruction::I32Const(4))
            .push(Instruction::I32Add)
            .push(Instruction::LocalGet(1))
            .push(Instruction::I32Const(4))
            .push(Instruction::I32Mul)
            .push(Instruction::I32Add)
            .push(Instruction::I32Load(MemArg { offset: 0, align: 2, memory_index: 0 }))
            .push(Instruction::LocalSet(3))
            + Self::compact_bool_unbox_returning_body(3, 4, malloc_index))
            .push(Instruction::Else)
            .push(Instruction::I32Const(0))
            .push(Instruction::End)
            .push(Instruction::End)
    }

    /// Generate WASM instructions for __json_get_index
    /// Accesses an element on a JSON array by integer index
    /// PRODUCTION IMPLEMENTATION - Proper bounds checking and element access
    /// CRITICAL: Handles compact boolean encoding (1=false, 2=true) by boxing them
    #[verifier::rlimit(40)]
    #[verifier::spinoff_prover]
    fn generate_get_index_instructions(&self, malloc_index: u32) -> (r: Vec<Instruction>)
        ensures
            body_ok(r@, 5),
            r@ == Self::get_index_instructions_body(malloc_index),
    {
        proof {
            reveal(JsonClass::get_index_instructions_body);
        }
        let mut b = Body::new(5);
        // Parameters:
        // Local 0: array_ptr (i32) - pointer to JSON array
        // Local 1: index (i32) - array index to access
        // Working Locals:
        // Local 2: count (i32) - array length
        // Local 3: raw_value (i32) - raw value from array (may be compact encoded)
        // Local 4: boxed_ptr (i32) - pointer to boxed value (for compact booleans)
        // Array Memory Layout: [i32 count][i32 elem0_ptr][i32 elem1_ptr][i32 elem2_ptr]...
        // Compact Encoding (stored directly in array element slots):
        // 0 = null (returned as-is)
        // 1 = false (must be boxed to [tag=2][value=0][padding=0])
        // 2 = true (must be boxed to [tag=2][value=1][padding=0])
        // >2 = pointer to boxed value (returned as-is)
        // Returns: Pointer to element at index, or null (0) if out of bounds
        // Check if array_ptr is null
        b.i(Instruction::LocalGet(0));
        b.i(Instruction::I32Eqz);
        b.i(Instruction::If(BlockType::Result(ValType::I32)));
        // Null input - return null
        b.i(Instruction::I32Const(0));
        b.i(Instruction::Else);
        // Load array count (number of elements)
        b.i(Instruction::LocalGet(0)); // array_ptr
        b.i(Instruction::I32Load(MemArg { offset: 0, align: 2, memory_index: 0 }));
        b.i(Instruction::LocalSet(2)); // count
        // Check bounds: index >= 0 && index < count
        // First check: index >= 0
        b.i(Instruction::LocalGet(1)); // index
        b.i(Instruction::I32Const(0));
        b.i(Instruction::I32GeS); // index >= 0 (signed comparison)
        // Second check: index < count
        b.i(Instruction::LocalGet(1)); // index
        b.i(Instruction::LocalGet(2)); // count
        b.i(Instruction::I32LtU); // index < count (unsigned comparison)
        // Combine both checks with AND
        b.i(Instruction::I32And);
        b.i(Instruction::If(BlockType::Result(ValType::I32)));
        // Valid index - load element
        // Element offset: array_ptr + 4 + (index * 4)
        // +4 to skip the count field
        // * 4 because each element pointer is 4 bytes
        b.i(Instruction::LocalGet(0)); // array_ptr
        b.i(Instruction::I32Const(4)); // Skip count field
        b.i(Instruction::I32Add);
        b.i(Instruction::LocalGet(1)); // index
        b.i(Instruction::I32Const(4)); // Size of element pointer
        b.i(Instruction::I32Mul);
        b.i(Instruction::I32Add);
        b.i(Instruction::I32Load(MemArg { offset: 0, align: 2, memory_index: 0 }));
        b.i(Instruction::LocalSet(3)); // Store raw value
        let frag = Self::compact_bool_unbox_returning(3, 4, malloc_index);
        proof {
            lemma_body_ok_more_locals(frag@, 5, 5);
        }
        b.extend(frag);
        // Now we have the (possibly boxed) value on stack - return it
        b.i(Instruction::Else);
        // Invalid index (negative or >= count) - return null
        b.i(Instruction::I32Const(0));
        b.i(Instruction::End);
        b.i(Instruction::End);
        b.finish()
    }

    /// The instructions `generate_get_path_instructions` returns.
    #[verifier::opaque]
    pub open spec fn get_path_instructions_body(field_index: u32, index_index: u32) -> Seq<Instruction> {
        let s = Self::get_path_instructions_part_1(Seq::<Instruction>::empty(), field_index, index_index);
        Self::get_path_instructions_part_2(s, field_index, index_index)
    }

    /// Generate WASM instructions for `__json_get_path`.
    ///
    /// Walks a dot-separated path through a boxed JSON value, dispatching each
    /// segment to `__json_get_field` (object) or `__json_get_index` (array) per
    /// at the first segment that fails to resolve.
    fn generate_get_path_instructions(&self, field_index: u32, index_index: u32) -> (r: Vec<Instruction>)
        ensures
            body_ok(r@, 13),
            r@ == Self::get_path_instructions_body(field_index, index_index),
    {
        let mut b = Body::new(13);
        Self::generate_get_path_instructions_1(&mut b, field_index, index_index);
        Self::generate_get_path_instructions_2(&mut b, field_index, index_index);
        proof {
            reveal(JsonClass::get_path_instructions_body);
        }
        b.finish()
    }

    /// Part 1 of `get_path_instructions_body`, after `s`.
    #[verifier::opaque]
    pub open spec fn get_path_instructions_part_1(s: Seq<Instruction>, field_index: u32, index_index: u32) -> Seq<Instruction> {
        s
            .push(Instruction::LocalGet(2))
            .push(Instruction::I32Eqz)
            .push(Instruction::If(BlockType::Result(ValType::I32)))
            .push(Instruction::LocalGet(0))
            .push(Instruction::Else)
            .push(Instruction::LocalGet(0))
            .push(Instruction::LocalSet(5))
            .push(Instruction::I32Const(0))
            .push(Instruction::LocalSet(3))
            .push(Instruction::Block(BlockType::Result(ValType::I32)))
            .push(Instruction::Loop(BlockType::Empty))
            .push(Instruction::LocalGet(5))
            .push(Instruction::I32Eqz)
            .push(Instruction::If(BlockType::Empty))
            .push(Instruction::I32Const(0))
            .push(Instruction::Br(2))
            .push(Instruction::End)
            .push(Instruction::LocalGet(3))
            .push(Instruction::LocalSet(4))
            .push(Instruction::Block(BlockType::Empty))
            .push(Instruction::Loop(BlockType::Empty))
            .push(Instruction::LocalGet(4))
            .push(Instruction::LocalGet(2))
            .push(Instruction::I32GeU)
            .push(Instruction::BrIf(1))
            .push(Instruction::LocalGet(1))
            .push(Instruction::LocalGet(4))
            .push(Instruction::I32Add)
            .push(Instruction::I32Load8U(MemArg { offset: 0, align: 0, memory_index: 0 }))
            .push(Instruction::LocalSet(10))
            .push(Instruction::LocalGet(10))
            .push(Instruction::I32Const(DOT_BYTE))
            .push(Instruction::I32Eq)
            .push(Instruction::BrIf(1))
            .push(Instruction::LocalGet(4))
            .push(Instruction::I32Const(1))
            .push(Instruction::I32Add)
            .push(Instruction::LocalSet(4))
            .push(Instruction::Br(0))
            .push(Instruction::End)
            .push(Instruction::End)
            .push(Instruction::LocalGet(4))
            .push(Instruction::LocalGet(3))
            .push(Instruction::I32Sub)
            .push(Instruction::LocalSet(12))
            .push(Instruction::LocalGet(12))
            .push(Instruction::I32Eqz)
            .push(Instruction::If(BlockType::Empty))
            .push(Instruction::I32Const(0))
            .push(Instruction::Br(2))
            .push(Instruction::End)
            .push(Instruction::I32Const(1))
            .push(Instruction::LocalSet(9))
            .push(Instruction::I32Const(0))
            .push(Instruction::LocalSet(8))
            .push(Instruction::LocalGet(3))
            .push(Instruction::LocalSet(11))
            .push(Instruction::Block(BlockType::Empty))
            .push(Instruction::Loop(BlockType::Empty))
            .push(Instruction::LocalGet(11))
            .push(Instruction::LocalGet(4))
            .push(Instruction::I32GeU)
            .push(Instruction::BrIf(1))
            .push(Instruction::LocalGet(1))
            .push(Instruction::LocalGet(11))
            .push(Instruction::I32Add)
            .push(Instruction::I32Load8U(MemArg { offset: 0, align: 0, memory_index: 0 }))
            .push(Instruction::LocalSet(10))
            .push(Instruction::LocalGet(10))
            .push(Instruction::I32Const(ZERO_BYTE))
            .push(Instruction::I32LtU)
            .push(Instruction::LocalGet(10))
            .push(Instruction::I32Const(NINE_BYTE))
            .push(Instruction::I32GtU)
            .push(Instruction::I32Or)
            .push(Instruction::If(BlockType::Empty))
            .push(Instruction::I32Const(0))
            .push(Instruction::LocalSet(9))
            .push(Instruction::Br(2))
            .push(Instruction::End)
            .push(Instruction::LocalGet(8))
            .push(Instruction::I32Const(10))
            .push(Instruction::I32Mul)
            .push(Instruction::LocalGet(10))
            .push(Instruction::I32Const(ZERO_BYTE))
            .push(Instruction::I32Sub)
            .push(Instruction::I32Add)
            .push(Instruction::LocalSet(8))
            .push(Instruction::LocalGet(11))
            .push(Instruction::I32Const(1))
    }

    /// Part 1 of `generate_get_path_instructions`.
    #[verifier::rlimit(40)]
    #[verifier::spinoff_prover]
    fn generate_get_path_instructions_1(b: &mut Body, field_index: u32, index_index: u32)
        requires
            old(b).wf(),
            old(b).open_blocks() == 0,
            old(b).n_locals() == 13,
        ensures
            final(b).wf(),
            final(b).open_blocks() == 5,
            final(b).n_locals() == 13,
            final(b).instrs() == Self::get_path_instructions_part_1(old(b).instrs(), field_index, index_index),
    {
        proof {
            reveal(JsonClass::get_path_instructions_part_1);
        }
        // '9'
        // Empty-path shortcut: return obj_boxed_ptr unchanged.
        b.i(Instruction::LocalGet(2));
        b.i(Instruction::I32Eqz);
        b.i(Instruction::If(BlockType::Result(ValType::I32)));
        b.i(Instruction::LocalGet(0));
        b.i(Instruction::Else);
        // cur_boxed = obj_boxed_ptr; cursor = 0
        b.i(Instruction::LocalGet(0));
        b.i(Instruction::LocalSet(5));
        b.i(Instruction::I32Const(0));
        b.i(Instruction::LocalSet(3));
        // Block(I32): final result of the walk
        b.i(Instruction::Block(BlockType::Result(ValType::I32)));
        // Loop: one iteration per path segment
        b.i(Instruction::Loop(BlockType::Empty));
        // Bail if current target is null
        b.i(Instruction::LocalGet(5));
        b.i(Instruction::I32Eqz);
        b.i(Instruction::If(BlockType::Empty));
        b.i(Instruction::I32Const(0));
        b.i(Instruction::Br(2)); // exit outer Block with 0
        b.i(Instruction::End);
        // Find seg_end: scan from cursor until '.' or path_len.
        b.i(Instruction::LocalGet(3));
        b.i(Instruction::LocalSet(4)); // seg_end = cursor
        b.i(Instruction::Block(BlockType::Empty));
        b.i(Instruction::Loop(BlockType::Empty));
        b.i(Instruction::LocalGet(4));
        b.i(Instruction::LocalGet(2));
        b.i(Instruction::I32GeU);
        b.i(Instruction::BrIf(1)); // seg_end >= path_len → exit scan block
        b.i(Instruction::LocalGet(1));
        b.i(Instruction::LocalGet(4));
        b.i(Instruction::I32Add);
        b.i(Instruction::I32Load8U(MemArg { offset: 0, align: 0, memory_index: 0 }));
        b.i(Instruction::LocalSet(10));
        b.i(Instruction::LocalGet(10));
        b.i(Instruction::I32Const(DOT_BYTE));
        b.i(Instruction::I32Eq);
        b.i(Instruction::BrIf(1)); // hit '.' → exit scan block
        b.i(Instruction::LocalGet(4));
        b.i(Instruction::I32Const(1));
        b.i(Instruction::I32Add);
        b.i(Instruction::LocalSet(4));
        b.i(Instruction::Br(0)); // continue scan loop
        b.i(Instruction::End); // end scan loop
        b.i(Instruction::End); // end scan block
        // seg_len = seg_end - cursor
        b.i(Instruction::LocalGet(4));
        b.i(Instruction::LocalGet(3));
        b.i(Instruction::I32Sub);
        b.i(Instruction::LocalSet(12));
        // Empty segment (consecutive dots, leading/trailing dot) → return null.
        b.i(Instruction::LocalGet(12));
        b.i(Instruction::I32Eqz);
        b.i(Instruction::If(BlockType::Empty));
        b.i(Instruction::I32Const(0));
        b.i(Instruction::Br(2));
        b.i(Instruction::End);
        // is_digit_seg = 1; idx_acc = 0; scan_i = cursor
        b.i(Instruction::I32Const(1));
        b.i(Instruction::LocalSet(9));
        b.i(Instruction::I32Const(0));
        b.i(Instruction::LocalSet(8));
        b.i(Instruction::LocalGet(3));
        b.i(Instruction::LocalSet(11));
        // Walk the segment bytes; track if all are digits and accumulate value.
        b.i(Instruction::Block(BlockType::Empty));
        b.i(Instruction::Loop(BlockType::Empty));
        b.i(Instruction::LocalGet(11));
        b.i(Instruction::LocalGet(4));
        b.i(Instruction::I32GeU);
        b.i(Instruction::BrIf(1)); // scan_i >= seg_end → exit
        b.i(Instruction::LocalGet(1));
        b.i(Instruction::LocalGet(11));
        b.i(Instruction::I32Add);
        b.i(Instruction::I32Load8U(MemArg { offset: 0, align: 0, memory_index: 0 }));
        b.i(Instruction::LocalSet(10));
        // (byte < '0') | (byte > '9') → not a digit
        b.i(Instruction::LocalGet(10));
        b.i(Instruction::I32Const(ZERO_BYTE));
        b.i(Instruction::I32LtU);
        b.i(Instruction::LocalGet(10));
        b.i(Instruction::I32Const(NINE_BYTE));
        b.i(Instruction::I32GtU);
        b.i(Instruction::I32Or);
        b.i(Instruction::If(BlockType::Empty));
        b.i(Instruction::I32Const(0));
        b.i(Instruction::LocalSet(9));
        b.i(Instruction::Br(2)); // exit digit block
        b.i(Instruction::End);
        // idx_acc = idx_acc * 10 + (byte - '0')
        b.i(Instruction::LocalGet(8));
        b.i(Instruction::I32Const(10));
        b.i(Instruction::I32Mul);
        b.i(Instruction::LocalGet(10));
        b.i(Instruction::I32Const(ZERO_BYTE));
        b.i(Instruction::I32Sub);
        b.i(Instruction::I32Add);
        b.i(Instruction::LocalSet(8));
        // scan_i++
        b.i(Instruction::LocalGet(11));
        b.i(Instruction::I32Const(1));
    }

    /// Part 2 of `get_path_instructions_body`, after `s`.
    #[verifier::opaque]
    pub open spec fn get_path_instructions_part_2(s: Seq<Instruction>, field_index: u32, index_index: u32) -> Seq<Instruction> {
        s
            .push(Instruction::I32Add)
            .push(Instruction::LocalSet(11))
            .push(Instruction::Br(0))
            .push(Instruction::End)
            .push(Instruction::End)
            .push(Instruction::LocalGet(5))
            .push(Instruction::I32Load(MemArg { offset: 0, align: 2, memory_index: 0 }))
            .push(Instruction::LocalSet(6))
            .push(Instruction::LocalGet(5))
            .push(Instruction::I32Load(MemArg { offset: 4, align: 2, memory_index: 0 }))
            .push(Instruction::LocalSet(7))
            .push(Instruction::LocalGet(9))
            .push(Instruction::LocalGet(6))
            .push(Instruction::I32Const(JSON_TAG_ARRAY))
            .push(Instruction::I32Eq)
            .push(Instruction::I32And)
            .push(Instruction::If(BlockType::Empty))
            .push(Instruction::LocalGet(7))
            .push(Instruction::LocalGet(8))
            .push(Instruction::Call(index_index))
            .push(Instruction::LocalSet(5))
            .push(Instruction::Else)
            .push(Instruction::LocalGet(6))
            .push(Instruction::I32Const(JSON_TAG_OBJECT))
            .push(Instruction::I32Eq)
            .push(Instruction::If(BlockType::Empty))
            .push(Instruction::LocalGet(7))
            .push(Instruction::LocalGet(1))
            .push(Instruction::LocalGet(3))
            .push(Instruction::I32Add)
            .push(Instruction::LocalGet(12))
            .push(Instruction::Call(field_index))
            .push(Instruction::LocalSet(5))
            .push(Instruction::Else)
            .push(Instruction::I32Const(0))
            .push(Instruction::Br(3))
            .push(Instruction::End)
            .push(Instruction::End)
            .push(Instruction::LocalGet(5))
            .push(Instruction::I32Eqz)
            .push(Instruction::If(BlockType::Empty))
            .push(Instruction::I32Const(0))
            .push(Instruction::Br(2))
            .push(Instruction::End)
            .push(Instruction::LocalGet(4))
            .push(Instruction::LocalGet(2))
            .push(Instruction::I32GeU)
            .push(Instruction::If(BlockType::Empty))
            .push(Instruction::LocalGet(5))
            .push(Instruction::Br(2))
            .push(Instruction::End)
            .push(Instruction::LocalGet(4))
            .push(Instruction::I32Const(1))
            .push(Instruction::I32Add)
            .push(Instruction::LocalSet(3))
            .push(Instruction::Br(0))
            .push(Instruction::End)
            .push(Instruction::I32Const(0))
            .push(Instruction::End)
            .push(Instruction::End)
    }

    /// Part 2 of `generate_get_path_instructions`.
    #[verifier::rlimit(40)]
    #[verifier::spinoff_prover]
    fn generate_get_path_instructions_2(b: &mut Body, field_index: u32, index_index: u32)
        requires
            old(b).wf(),
            old(b).open_blocks() == 5,
            old(b).n_locals() == 13,
        ensures
            final(b).wf(),
            final(b).open_blocks() == 0,
            final(b).n_locals() == 13,
            final(b).instrs() == Self::get_path_instructions_part_2(old(b).instrs(), field_index, index_index),
    {
        proof {
            reveal(JsonClass::get_path_instructions_part_2);
        }
        b.i(Instruction::I32Add);
        b.i(Instruction::LocalSet(11));
        b.i(Instruction::Br(0)); // continue digit loop
        b.i(Instruction::End); // end digit loop
        b.i(Instruction::End); // end digit block
        // Unbox cur_boxed: tag at offset 0, raw inner ptr at offset 4.
        b.i(Instruction::LocalGet(5));
        b.i(Instruction::I32Load(MemArg { offset: 0, align: 2, memory_index: 0 }));
        b.i(Instruction::LocalSet(6)); // cur_tag
        b.i(Instruction::LocalGet(5));
        b.i(Instruction::I32Load(MemArg { offset: 4, align: 2, memory_index: 0 }));
        b.i(Instruction::LocalSet(7)); // cur_raw_ptr
        // Dispatch:
        // array  + numeric segment → __json_get_index
        // object + any segment     → __json_get_field
        // anything else            → return null
        b.i(Instruction::LocalGet(9));
        b.i(Instruction::LocalGet(6));
        b.i(Instruction::I32Const(JSON_TAG_ARRAY));
        b.i(Instruction::I32Eq);
        b.i(Instruction::I32And);
        b.i(Instruction::If(BlockType::Empty));
        b.i(Instruction::LocalGet(7));
        b.i(Instruction::LocalGet(8));
        b.i(Instruction::Call(index_index));
        b.i(Instruction::LocalSet(5));
        b.i(Instruction::Else);
        b.i(Instruction::LocalGet(6));
        b.i(Instruction::I32Const(JSON_TAG_OBJECT));
        b.i(Instruction::I32Eq);
        b.i(Instruction::If(BlockType::Empty));
        b.i(Instruction::LocalGet(7));
        b.i(Instruction::LocalGet(1));
        b.i(Instruction::LocalGet(3));
        b.i(Instruction::I32Add); // path_content_ptr + cursor
        b.i(Instruction::LocalGet(12));
        b.i(Instruction::Call(field_index));
        b.i(Instruction::LocalSet(5));
        b.i(Instruction::Else);
        b.i(Instruction::I32Const(0));
        b.i(Instruction::Br(3)); // current target is not traversable → exit Block w/ 0
        b.i(Instruction::End);
        b.i(Instruction::End);
        // If the call returned null, propagate it out.
        b.i(Instruction::LocalGet(5));
        b.i(Instruction::I32Eqz);
        b.i(Instruction::If(BlockType::Empty));
        b.i(Instruction::I32Const(0));
        b.i(Instruction::Br(2));
        b.i(Instruction::End);
        // If we consumed the entire path, the walk is finished.
        b.i(Instruction::LocalGet(4));
        b.i(Instruction::LocalGet(2));
        b.i(Instruction::I32GeU);
        b.i(Instruction::If(BlockType::Empty));
        b.i(Instruction::LocalGet(5));
        b.i(Instruction::Br(2));
        b.i(Instruction::End);
        // cursor = seg_end + 1 (skip the dot)
        b.i(Instruction::LocalGet(4));
        b.i(Instruction::I32Const(1));
        b.i(Instruction::I32Add);
        b.i(Instruction::LocalSet(3));
        b.i(Instruction::Br(0)); // continue outer loop
        b.i(Instruction::End); // end Loop
        // Fallthrough — unreachable in practice; Block's static result type.
        b.i(Instruction::I32Const(0));
        b.i(Instruction::End); // end Block
        b.i(Instruction::End); // end outer if
    }

    /// The instructions `generate_text_to_data_instructions` returns.
    #[verifier::opaque]
    pub open spec fn text_to_data_instructions_body(parse_value_index: u32, malloc_index: u32) -> Seq<Instruction> {
        seq![
            Instruction::LocalGet(0),
            Instruction::I32Load(MemArg { offset: 0, align: 2, memory_index: 0 }),
            Instruction::LocalSet(2),
            Instruction::LocalGet(0),
            Instruction::I32Const(4),
            Instruction::I32Add,
            Instruction::LocalGet(2),
            Instruction::I32Add,
            Instruction::I32Const(7),
            Instruction::I32Add,
            Instruction::I32Const(-8i32),
            Instruction::I32And,
            Instruction::LocalSet(3),
            Instruction::GlobalGet(HEAP_PTR_GLOBAL),
            Instruction::LocalGet(3),
            Instruction::I32LtU,
            Instruction::If(BlockType::Empty),
            Instruction::LocalGet(3),
            Instruction::GlobalSet(HEAP_PTR_GLOBAL),
            Instruction::End,
            Instruction::I32Const(4),
            Instruction::Call(malloc_index),
            Instruction::LocalSet(1),
            Instruction::LocalGet(1),
            Instruction::I32Const(0),
            Instruction::I32Store(MemArg { offset: 0, align: 2, memory_index: 0 }),
            Instruction::LocalGet(0),
            Instruction::LocalGet(1),
            Instruction::LocalGet(2),
            Instruction::Call(parse_value_index),
        ]
    }

    /// Generate WASM instructions for json.textToData
    /// Parses a JSON string and returns a pointer to the parsed data structure
    fn generate_text_to_data_instructions(&self, parse_value_index: u32, malloc_index: u32) -> (r: Vec<Instruction>)
        ensures
            body_ok(r@, 4),
            r@ == Self::text_to_data_instructions_body(parse_value_index, malloc_index),
    {
        proof {
            reveal(JsonClass::text_to_data_instructions_body);
        }
        let mut b = Body::new(4);
        // Local variable declarations:
        // Local 0: string_ptr (parameter)
        // Local 1: position_ptr (allocated temp for tracking parse position)
        // Local 2: length (string length)
        // Local 3: string_end (temp for heap guard)
        // Step 1: Get string length (needed for heap guard before any malloc)
        b.i(Instruction::LocalGet(0)); // string_ptr
        b.i(Instruction::I32Load(MemArg { offset: 0, align: 2, memory_index: 0 }));
        b.i(Instruction::LocalSet(2)); // length
        // Step 2: HEAP GUARD - Ensure __heap_ptr is past the input string.
        // When a host function (e.g. _db_query) writes a string into WASM memory
        // without going through WASM's __malloc, __heap_ptr may still point BELOW
        // the string. Subsequent WASM-side malloc calls would then return addresses
        // that overlap with the string, corrupting it during parsing.
        // Fix: compute string_end = (string_ptr + 4 + length + 7) & ~7
        // If __heap_ptr < string_end, advance it.
        b.i(Instruction::LocalGet(0)); // string_ptr
        b.i(Instruction::I32Const(4));
        b.i(Instruction::I32Add);
        b.i(Instruction::LocalGet(2)); // length
        b.i(Instruction::I32Add);
        b.i(Instruction::I32Const(7));
        b.i(Instruction::I32Add);
        b.i(Instruction::I32Const(-8)); // 0xFFFFFFF8 = ~7
        b.i(Instruction::I32And); // aligned string_end
        b.i(Instruction::LocalSet(3)); // store in temp local
        // Compare: if __heap_ptr < string_end, advance it
        b.i(Instruction::GlobalGet(HEAP_PTR_GLOBAL));
        b.i(Instruction::LocalGet(3)); // string_end
        b.i(Instruction::I32LtU); // __heap_ptr < string_end?
        b.i(Instruction::If(BlockType::Empty));
        b.i(Instruction::LocalGet(3)); // string_end
        b.i(Instruction::GlobalSet(HEAP_PTR_GLOBAL)); // advance heap past string
        b.i(Instruction::End);
        // Step 3: Allocate 4 bytes for position storage (now safe from overlap)
        b.i(Instruction::I32Const(4));
        b.i(Instruction::Call(malloc_index));
        b.i(Instruction::LocalSet(1)); // position_ptr
        // Step 4: Initialize position to 0
        b.i(Instruction::LocalGet(1)); // position_ptr
        b.i(Instruction::I32Const(0));
        b.i(Instruction::I32Store(MemArg { offset: 0, align: 2, memory_index: 0 }));
        // Step 5: Call value parser
        // This handles all JSON types: null, boolean, number, string, array, object
        b.i(Instruction::LocalGet(0)); // string_ptr
        b.i(Instruction::LocalGet(1)); // position_ptr
        b.i(Instruction::LocalGet(2)); // length
        b.i(Instruction::Call(parse_value_index));
        b.finish()
    }

    /// The instructions `generate_try_text_to_data_instructions` returns.
    #[verifier::opaque]
    pub open spec fn try_text_to_data_instructions_body(parse_value_index: u32, malloc_index: u32) -> Seq<Instruction> {
        let s = Self::try_text_to_data_instructions_part_1(Seq::<Instruction>::empty(), parse_value_index, malloc_index);
        let s = Self::try_text_to_data_instructions_part_2(s, parse_value_index, malloc_index);
        let s = Self::try_text_to_data_instructions_part_3(s, parse_value_index, malloc_index);
        let s = Self::try_text_to_data_instructions_part_4(s, parse_value_index, malloc_index);
        let s = Self::try_text_to_data_instructions_part_5(s, parse_value_index, malloc_index);
        let s = Self::try_text_to_data_instructions_part_6(s, parse_value_index, malloc_index);
        let s = Self::try_text_to_data_instructions_part_7(s, parse_value_index, malloc_index);
        let s = Self::try_text_to_data_instructions_part_8(s, parse_value_index, malloc_index);
        let s = Self::try_text_to_data_instructions_part_9(s, parse_value_index, malloc_index);
        let s = Self::try_text_to_data_instructions_part_10(s, parse_value_index, malloc_index);
        Self::try_text_to_data_instructions_part_11(s, parse_value_index, malloc_index)
    }

    /// Generate WASM instructions for json.tryTextToData
    /// Validates the input against the JSON grammar before parsing and returns
    /// null (pointer 0) on invalid JSON.
    fn generate_try_text_to_data_instructions(&self, parse_value_index: u32, malloc_index: u32) -> (r: Vec<Instruction>)
        ensures
            body_ok(r@, 9),
            r@ == Self::try_text_to_data_instructions_body(parse_value_index, malloc_index),
    {
        let mut b = Body::new(9);
        Self::generate_try_text_to_data_instructions_1(&mut b, parse_value_index, malloc_index);
        Self::generate_try_text_to_data_instructions_2(&mut b, parse_value_index, malloc_index);
        Self::generate_try_text_to_data_instructions_3(&mut b, parse_value_index, malloc_index);
        Self::generate_try_text_to_data_instructions_4(&mut b, parse_value_index, malloc_index);
        Self::generate_try_text_to_data_instructions_5(&mut b, parse_value_index, malloc_index);
        Self::generate_try_text_to_data_instructions_6(&mut b, parse_value_index, malloc_index);
        Self::generate_try_text_to_data_instructions_7(&mut b, parse_value_index, malloc_index);
        Self::generate_try_text_to_data_instructions_8(&mut b, parse_value_index, malloc_index);
        Self::generate_try_text_to_data_instructions_9(&mut b, parse_value_index, malloc_index);
        Self::generate_try_text_to_data_instructions_10(&mut b, parse_value_index, malloc_index);
        Self::generate_try_text_to_data_instructions_11(&mut b, parse_value_index, malloc_index);
        proof {
            reveal(JsonClass::try_text_to_data_instructions_body);
        }
        b.finish()
    }

    /// Part 1 of `try_text_to_data_instructions_body`, after `s`.
    #[verifier::opaque]
    pub open spec fn try_text_to_data_instructions_part_1(s: Seq<Instruction>, parse_value_index: u32, malloc_index: u32) -> Seq<Instruction> {
        s
            .push(Instruction::LocalGet(0))
            .push(Instruction::I32Load(MemArg { offset: 0, align: 2, memory_index: 0 }))
            .push(Instruction::LocalSet(2))
            .push(Instruction::LocalGet(0))
            .push(Instruction::I32Const(4))
            .push(Instruction::I32Add)
            .push(Instruction::LocalGet(2))
            .push(Instruction::I32Add)
            .push(Instruction::I32Const(7))
            .push(Instruction::I32Add)
            .push(Instruction::I32Const(-8i32))
            .push(Instruction::I32And)
            .push(Instruction::LocalSet(8))
            .push(Instruction::GlobalGet(HEAP_PTR_GLOBAL))
            .push(Instruction::LocalGet(8))
            .push(Instruction::I32LtU)
            .push(Instruction::If(BlockType::Empty))
            .push(Instruction::LocalGet(8))
            .push(Instruction::GlobalSet(HEAP_PTR_GLOBAL))
            .push(Instruction::End)
            .push(Instruction::LocalGet(2))
            .push(Instruction::I32Const(1))
            .push(Instruction::I32Add)
            .push(Instruction::Call(malloc_index))
            .push(Instruction::LocalSet(6))
            .push(Instruction::I32Const(0))
            .push(Instruction::LocalSet(3))
            .push(Instruction::I32Const(0))
            .push(Instruction::LocalSet(5))
            .push(Instruction::I32Const(0))
            .push(Instruction::LocalSet(7))
            .push(Instruction::Block(BlockType::Empty))
            .push(Instruction::Block(BlockType::Empty))
            .push(Instruction::Loop(BlockType::Empty))
            .push(Instruction::Block(BlockType::Empty))
            .push(Instruction::Loop(BlockType::Empty))
            .push(Instruction::LocalGet(3))
            .push(Instruction::LocalGet(2))
            .push(Instruction::I32GeU)
            .push(Instruction::BrIf(3))
            .push(Instruction::LocalGet(0))
            .push(Instruction::I32Const(4))
            .push(Instruction::I32Add)
            .push(Instruction::LocalGet(3))
            .push(Instruction::I32Add)
            .push(Instruction::I32Load8U(MemArg { offset: 0, align: 0, memory_index: 0 }))
            .push(Instruction::LocalSet(4))
            .push(Instruction::LocalGet(4))
            .push(Instruction::I32Const(32))
            .push(Instruction::I32Eq)
            .push(Instruction::LocalGet(4))
            .push(Instruction::I32Const(9))
            .push(Instruction::I32Eq)
            .push(Instruction::I32Or)
            .push(Instruction::LocalGet(4))
            .push(Instruction::I32Const(10))
            .push(Instruction::I32Eq)
            .push(Instruction::I32Or)
            .push(Instruction::LocalGet(4))
            .push(Instruction::I32Const(13))
            .push(Instruction::I32Eq)
            .push(Instruction::I32Or)
            .push(Instruction::I32Eqz)
            .push(Instruction::BrIf(1))
            .push(Instruction::LocalGet(3))
            .push(Instruction::I32Const(1))
            .push(Instruction::I32Add)
            .push(Instruction::LocalSet(3))
            .push(Instruction::Br(0))
            .push(Instruction::End)
            .push(Instruction::End)
            .push(Instruction::LocalGet(7))
            .push(Instruction::I32Const(1))
            .push(Instruction::I32Eq)
            .push(Instruction::If(BlockType::Empty))
            .push(Instruction::LocalGet(5))
            .push(Instruction::I32Eqz)
            .push(Instruction::BrIf(3))
            .push(Instruction::LocalGet(6))
            .push(Instruction::LocalGet(5))
            .push(Instruction::I32Add)
            .push(Instruction::I32Const(1))
            .push(Instruction::I32Sub)
            .push(Instruction::I32Load8U(MemArg { offset: 0, align: 0, memory_index: 0 }))
            .push(Instruction::LocalSet(8))
            .push(Instruction::LocalGet(4))
            .push(Instruction::I32Const(44))
            .push(Instruction::I32Eq)
            .push(Instruction::If(BlockType::Empty))
            .push(Instruction::LocalGet(3))
    }

    /// Part 1 of `generate_try_text_to_data_instructions`.
    #[verifier::rlimit(40)]
    #[verifier::spinoff_prover]
    fn generate_try_text_to_data_instructions_1(b: &mut Body, parse_value_index: u32, malloc_index: u32)
        requires
            old(b).wf(),
            old(b).open_blocks() == 0,
            old(b).n_locals() == 9,
        ensures
            final(b).wf(),
            final(b).open_blocks() == 5,
            final(b).n_locals() == 9,
            final(b).instrs() == Self::try_text_to_data_instructions_part_1(old(b).instrs(), parse_value_index, malloc_index),
    {
        proof {
            reveal(JsonClass::try_text_to_data_instructions_part_1);
        }
        // Locals: 0 string_ptr, 1 position_ptr, 2 length, 3 scan position,
        // 4 current byte, 5 nesting depth, 6 stack of open containers,
        // 7 what the scanner expects next, 8 temp
        b.i(Instruction::LocalGet(0));
        b.i(Instruction::I32Load(MemArg { offset: 0, align: 2, memory_index: 0 }));
        b.i(Instruction::LocalSet(2));
        // Heap guard: the heap pointer must lie past the input string
        b.i(Instruction::LocalGet(0));
        b.i(Instruction::I32Const(4));
        b.i(Instruction::I32Add);
        b.i(Instruction::LocalGet(2));
        b.i(Instruction::I32Add);
        b.i(Instruction::I32Const(7));
        b.i(Instruction::I32Add);
        b.i(Instruction::I32Const(-8));
        b.i(Instruction::I32And);
        b.i(Instruction::LocalSet(8));
        b.i(Instruction::GlobalGet(HEAP_PTR_GLOBAL));
        b.i(Instruction::LocalGet(8));
        b.i(Instruction::I32LtU);
        b.i(Instruction::If(BlockType::Empty));
        b.i(Instruction::LocalGet(8));
        b.i(Instruction::GlobalSet(HEAP_PTR_GLOBAL));
        b.i(Instruction::End);
        // One byte per open container (1 = array, 2 = object)
        b.i(Instruction::LocalGet(2));
        b.i(Instruction::I32Const(1));
        b.i(Instruction::I32Add);
        b.i(Instruction::Call(malloc_index));
        b.i(Instruction::LocalSet(6));
        b.i(Instruction::I32Const(0));
        b.i(Instruction::LocalSet(3));
        b.i(Instruction::I32Const(0));
        b.i(Instruction::LocalSet(5));
        b.i(Instruction::I32Const(0));
        b.i(Instruction::LocalSet(7));
        b.i(Instruction::Block(BlockType::Empty));
        b.i(Instruction::Block(BlockType::Empty));
        b.i(Instruction::Loop(BlockType::Empty));
        // Skip whitespace; the end of the input ends the scan
        b.i(Instruction::Block(BlockType::Empty));
        b.i(Instruction::Loop(BlockType::Empty));
        b.i(Instruction::LocalGet(3));
        b.i(Instruction::LocalGet(2));
        b.i(Instruction::I32GeU);
        b.i(Instruction::BrIf(3));
        b.i(Instruction::LocalGet(0));
        b.i(Instruction::I32Const(4));
        b.i(Instruction::I32Add);
        b.i(Instruction::LocalGet(3));
        b.i(Instruction::I32Add);
        b.i(Instruction::I32Load8U(MemArg { offset: 0, align: 0, memory_index: 0 }));
        b.i(Instruction::LocalSet(4));
        b.i(Instruction::LocalGet(4));
        b.i(Instruction::I32Const(32));
        b.i(Instruction::I32Eq);
        b.i(Instruction::LocalGet(4));
        b.i(Instruction::I32Const(9));
        b.i(Instruction::I32Eq);
        b.i(Instruction::I32Or);
        b.i(Instruction::LocalGet(4));
        b.i(Instruction::I32Const(10));
        b.i(Instruction::I32Eq);
        b.i(Instruction::I32Or);
        b.i(Instruction::LocalGet(4));
        b.i(Instruction::I32Const(13));
        b.i(Instruction::I32Eq);
        b.i(Instruction::I32Or);
        b.i(Instruction::I32Eqz);
        b.i(Instruction::BrIf(1));
        b.i(Instruction::LocalGet(3));
        b.i(Instruction::I32Const(1));
        b.i(Instruction::I32Add);
        b.i(Instruction::LocalSet(3));
        b.i(Instruction::Br(0));
        b.i(Instruction::End);
        b.i(Instruction::End);
        // After a value: a separator or the end of the open container
        b.i(Instruction::LocalGet(7));
        b.i(Instruction::I32Const(1));
        b.i(Instruction::I32Eq);
        b.i(Instruction::If(BlockType::Empty));
        b.i(Instruction::LocalGet(5));
        b.i(Instruction::I32Eqz);
        b.i(Instruction::BrIf(3));
        // the innermost open container
        b.i(Instruction::LocalGet(6));
        b.i(Instruction::LocalGet(5));
        b.i(Instruction::I32Add);
        b.i(Instruction::I32Const(1));
        b.i(Instruction::I32Sub);
        b.i(Instruction::I32Load8U(MemArg { offset: 0, align: 0, memory_index: 0 }));
        b.i(Instruction::LocalSet(8));
        b.i(Instruction::LocalGet(4));
        b.i(Instruction::I32Const(44));
        b.i(Instruction::I32Eq);
        b.i(Instruction::If(BlockType::Empty));
        b.i(Instruction::LocalGet(3));
    }

    /// Part 2 of `try_text_to_data_instructions_body`, after `s`.
    #[verifier::opaque]
    pub open spec fn try_text_to_data_instructions_part_2(s: Seq<Instruction>, parse_value_index: u32, malloc_index: u32) -> Seq<Instruction> {
        s
            .push(Instruction::I32Const(1))
            .push(Instruction::I32Add)
            .push(Instruction::LocalSet(3))
            .push(Instruction::LocalGet(8))
            .push(Instruction::I32Const(2))
            .push(Instruction::I32Eq)
            .push(Instruction::If(BlockType::Empty))
            .push(Instruction::I32Const(2))
            .push(Instruction::LocalSet(7))
            .push(Instruction::Else)
            .push(Instruction::I32Const(0))
            .push(Instruction::LocalSet(7))
            .push(Instruction::End)
            .push(Instruction::Br(2))
            .push(Instruction::End)
            .push(Instruction::LocalGet(4))
            .push(Instruction::I32Const(93))
            .push(Instruction::I32Eq)
            .push(Instruction::LocalGet(8))
            .push(Instruction::I32Const(1))
            .push(Instruction::I32Eq)
            .push(Instruction::I32And)
            .push(Instruction::LocalGet(4))
            .push(Instruction::I32Const(125))
            .push(Instruction::I32Eq)
            .push(Instruction::LocalGet(8))
            .push(Instruction::I32Const(2))
            .push(Instruction::I32Eq)
            .push(Instruction::I32And)
            .push(Instruction::I32Or)
            .push(Instruction::If(BlockType::Empty))
            .push(Instruction::LocalGet(5))
            .push(Instruction::I32Const(1))
            .push(Instruction::I32Sub)
            .push(Instruction::LocalSet(5))
            .push(Instruction::LocalGet(3))
            .push(Instruction::I32Const(1))
            .push(Instruction::I32Add)
            .push(Instruction::LocalSet(3))
            .push(Instruction::Br(2))
            .push(Instruction::End)
            .push(Instruction::Br(3))
            .push(Instruction::End)
            .push(Instruction::LocalGet(7))
            .push(Instruction::I32Const(3))
            .push(Instruction::I32Eq)
            .push(Instruction::If(BlockType::Empty))
            .push(Instruction::LocalGet(4))
            .push(Instruction::I32Const(58))
            .push(Instruction::I32Eq)
            .push(Instruction::I32Eqz)
            .push(Instruction::BrIf(3))
            .push(Instruction::LocalGet(3))
            .push(Instruction::I32Const(1))
            .push(Instruction::I32Add)
            .push(Instruction::LocalSet(3))
            .push(Instruction::I32Const(0))
            .push(Instruction::LocalSet(7))
            .push(Instruction::Br(1))
            .push(Instruction::End)
            .push(Instruction::LocalGet(7))
            .push(Instruction::I32Const(4))
            .push(Instruction::I32Eq)
            .push(Instruction::If(BlockType::Empty))
            .push(Instruction::LocalGet(4))
            .push(Instruction::I32Const(93))
            .push(Instruction::I32Eq)
            .push(Instruction::If(BlockType::Empty))
            .push(Instruction::LocalGet(5))
            .push(Instruction::I32Const(1))
            .push(Instruction::I32Sub)
            .push(Instruction::LocalSet(5))
            .push(Instruction::LocalGet(3))
            .push(Instruction::I32Const(1))
            .push(Instruction::I32Add)
            .push(Instruction::LocalSet(3))
            .push(Instruction::I32Const(1))
            .push(Instruction::LocalSet(7))
            .push(Instruction::Br(2))
            .push(Instruction::End)
            .push(Instruction::I32Const(0))
            .push(Instruction::LocalSet(7))
            .push(Instruction::End)
            .push(Instruction::LocalGet(7))
            .push(Instruction::I32Const(5))
            .push(Instruction::I32Eq)
            .push(Instruction::If(BlockType::Empty))
            .push(Instruction::LocalGet(4))
            .push(Instruction::I32Const(125))
            .push(Instruction::I32Eq)
    }

    /// Part 2 of `generate_try_text_to_data_instructions`.
    #[verifier::rlimit(40)]
    #[verifier::spinoff_prover]
    fn generate_try_text_to_data_instructions_2(b: &mut Body, parse_value_index: u32, malloc_index: u32)
        requires
            old(b).wf(),
            old(b).open_blocks() == 5,
            old(b).n_locals() == 9,
        ensures
            final(b).wf(),
            final(b).open_blocks() == 4,
            final(b).n_locals() == 9,
            final(b).instrs() == Self::try_text_to_data_instructions_part_2(old(b).instrs(), parse_value_index, malloc_index),
    {
        proof {
            reveal(JsonClass::try_text_to_data_instructions_part_2);
        }
        b.i(Instruction::I32Const(1));
        b.i(Instruction::I32Add);
        b.i(Instruction::LocalSet(3));
        b.i(Instruction::LocalGet(8));
        b.i(Instruction::I32Const(2));
        b.i(Instruction::I32Eq);
        b.i(Instruction::If(BlockType::Empty));
        b.i(Instruction::I32Const(2));
        b.i(Instruction::LocalSet(7));
        b.i(Instruction::Else);
        b.i(Instruction::I32Const(0));
        b.i(Instruction::LocalSet(7));
        b.i(Instruction::End);
        b.i(Instruction::Br(2));
        b.i(Instruction::End);
        b.i(Instruction::LocalGet(4));
        b.i(Instruction::I32Const(93));
        b.i(Instruction::I32Eq);
        b.i(Instruction::LocalGet(8));
        b.i(Instruction::I32Const(1));
        b.i(Instruction::I32Eq);
        b.i(Instruction::I32And);
        b.i(Instruction::LocalGet(4));
        b.i(Instruction::I32Const(125));
        b.i(Instruction::I32Eq);
        b.i(Instruction::LocalGet(8));
        b.i(Instruction::I32Const(2));
        b.i(Instruction::I32Eq);
        b.i(Instruction::I32And);
        b.i(Instruction::I32Or);
        b.i(Instruction::If(BlockType::Empty));
        b.i(Instruction::LocalGet(5));
        b.i(Instruction::I32Const(1));
        b.i(Instruction::I32Sub);
        b.i(Instruction::LocalSet(5));
        b.i(Instruction::LocalGet(3));
        b.i(Instruction::I32Const(1));
        b.i(Instruction::I32Add);
        b.i(Instruction::LocalSet(3));
        b.i(Instruction::Br(2));
        b.i(Instruction::End);
        b.i(Instruction::Br(3));
        b.i(Instruction::End);
        // After a key: the colon
        b.i(Instruction::LocalGet(7));
        b.i(Instruction::I32Const(3));
        b.i(Instruction::I32Eq);
        b.i(Instruction::If(BlockType::Empty));
        b.i(Instruction::LocalGet(4));
        b.i(Instruction::I32Const(58));
        b.i(Instruction::I32Eq);
        b.i(Instruction::I32Eqz);
        b.i(Instruction::BrIf(3));
        b.i(Instruction::LocalGet(3));
        b.i(Instruction::I32Const(1));
        b.i(Instruction::I32Add);
        b.i(Instruction::LocalSet(3));
        b.i(Instruction::I32Const(0));
        b.i(Instruction::LocalSet(7));
        b.i(Instruction::Br(1));
        b.i(Instruction::End);
        // Just inside a container: it may close at once
        b.i(Instruction::LocalGet(7));
        b.i(Instruction::I32Const(4));
        b.i(Instruction::I32Eq);
        b.i(Instruction::If(BlockType::Empty));
        b.i(Instruction::LocalGet(4));
        b.i(Instruction::I32Const(93));
        b.i(Instruction::I32Eq);
        b.i(Instruction::If(BlockType::Empty));
        b.i(Instruction::LocalGet(5));
        b.i(Instruction::I32Const(1));
        b.i(Instruction::I32Sub);
        b.i(Instruction::LocalSet(5));
        b.i(Instruction::LocalGet(3));
        b.i(Instruction::I32Const(1));
        b.i(Instruction::I32Add);
        b.i(Instruction::LocalSet(3));
        b.i(Instruction::I32Const(1));
        b.i(Instruction::LocalSet(7));
        b.i(Instruction::Br(2));
        b.i(Instruction::End);
        b.i(Instruction::I32Const(0));
        b.i(Instruction::LocalSet(7));
        b.i(Instruction::End);
        b.i(Instruction::LocalGet(7));
        b.i(Instruction::I32Const(5));
        b.i(Instruction::I32Eq);
        b.i(Instruction::If(BlockType::Empty));
        b.i(Instruction::LocalGet(4));
        b.i(Instruction::I32Const(125));
        b.i(Instruction::I32Eq);
    }

    /// Part 3 of `try_text_to_data_instructions_body`, after `s`.
    #[verifier::opaque]
    pub open spec fn try_text_to_data_instructions_part_3(s: Seq<Instruction>, parse_value_index: u32, malloc_index: u32) -> Seq<Instruction> {
        s
            .push(Instruction::If(BlockType::Empty))
            .push(Instruction::LocalGet(5))
            .push(Instruction::I32Const(1))
            .push(Instruction::I32Sub)
            .push(Instruction::LocalSet(5))
            .push(Instruction::LocalGet(3))
            .push(Instruction::I32Const(1))
            .push(Instruction::I32Add)
            .push(Instruction::LocalSet(3))
            .push(Instruction::I32Const(1))
            .push(Instruction::LocalSet(7))
            .push(Instruction::Br(2))
            .push(Instruction::End)
            .push(Instruction::I32Const(2))
            .push(Instruction::LocalSet(7))
            .push(Instruction::End)
            .push(Instruction::LocalGet(7))
            .push(Instruction::I32Const(2))
            .push(Instruction::I32Eq)
            .push(Instruction::If(BlockType::Empty))
            .push(Instruction::LocalGet(4))
            .push(Instruction::I32Const(34))
            .push(Instruction::I32Eq)
            .push(Instruction::I32Eqz)
            .push(Instruction::BrIf(3))
            .push(Instruction::LocalGet(3))
            .push(Instruction::I32Const(1))
            .push(Instruction::I32Add)
            .push(Instruction::LocalSet(3))
            .push(Instruction::Block(BlockType::Empty))
            .push(Instruction::Loop(BlockType::Empty))
            .push(Instruction::LocalGet(3))
            .push(Instruction::LocalGet(2))
            .push(Instruction::I32GeU)
            .push(Instruction::BrIf(5))
            .push(Instruction::LocalGet(0))
            .push(Instruction::I32Const(4))
            .push(Instruction::I32Add)
            .push(Instruction::LocalGet(3))
            .push(Instruction::I32Add)
            .push(Instruction::I32Load8U(MemArg { offset: 0, align: 0, memory_index: 0 }))
            .push(Instruction::LocalSet(4))
            .push(Instruction::LocalGet(4))
            .push(Instruction::I32Const(34))
            .push(Instruction::I32Eq)
            .push(Instruction::If(BlockType::Empty))
            .push(Instruction::LocalGet(3))
            .push(Instruction::I32Const(1))
            .push(Instruction::I32Add)
            .push(Instruction::LocalSet(3))
            .push(Instruction::Br(2))
            .push(Instruction::End)
            .push(Instruction::LocalGet(4))
            .push(Instruction::I32Const(32))
            .push(Instruction::I32LtU)
            .push(Instruction::BrIf(5))
            .push(Instruction::LocalGet(4))
            .push(Instruction::I32Const(92))
            .push(Instruction::I32Eq)
            .push(Instruction::If(BlockType::Empty))
            .push(Instruction::LocalGet(3))
            .push(Instruction::I32Const(1))
            .push(Instruction::I32Add)
            .push(Instruction::LocalSet(3))
            .push(Instruction::LocalGet(3))
            .push(Instruction::LocalGet(2))
            .push(Instruction::I32GeU)
            .push(Instruction::BrIf(6))
            .push(Instruction::LocalGet(0))
            .push(Instruction::I32Const(4))
            .push(Instruction::I32Add)
            .push(Instruction::LocalGet(3))
            .push(Instruction::I32Add)
            .push(Instruction::I32Load8U(MemArg { offset: 0, align: 0, memory_index: 0 }))
            .push(Instruction::LocalSet(4))
            .push(Instruction::LocalGet(4))
            .push(Instruction::I32Const(117))
            .push(Instruction::I32Eq)
            .push(Instruction::If(BlockType::Empty))
            .push(Instruction::LocalGet(3))
            .push(Instruction::I32Const(1))
            .push(Instruction::I32Add)
            .push(Instruction::LocalSet(3))
            .push(Instruction::I32Const(0))
            .push(Instruction::LocalSet(8))
            .push(Instruction::Block(BlockType::Empty))
            .push(Instruction::Loop(BlockType::Empty))
            .push(Instruction::LocalGet(8))
            .push(Instruction::I32Const(4))
            .push(Instruction::I32GeU)
    }

    /// Part 3 of `generate_try_text_to_data_instructions`.
    #[verifier::rlimit(40)]
    #[verifier::spinoff_prover]
    fn generate_try_text_to_data_instructions_3(b: &mut Body, parse_value_index: u32, malloc_index: u32)
        requires
            old(b).wf(),
            old(b).open_blocks() == 4,
            old(b).n_locals() == 9,
        ensures
            final(b).wf(),
            final(b).open_blocks() == 10,
            final(b).n_locals() == 9,
            final(b).instrs() == Self::try_text_to_data_instructions_part_3(old(b).instrs(), parse_value_index, malloc_index),
    {
        proof {
            reveal(JsonClass::try_text_to_data_instructions_part_3);
        }
        b.i(Instruction::If(BlockType::Empty));
        b.i(Instruction::LocalGet(5));
        b.i(Instruction::I32Const(1));
        b.i(Instruction::I32Sub);
        b.i(Instruction::LocalSet(5));
        b.i(Instruction::LocalGet(3));
        b.i(Instruction::I32Const(1));
        b.i(Instruction::I32Add);
        b.i(Instruction::LocalSet(3));
        b.i(Instruction::I32Const(1));
        b.i(Instruction::LocalSet(7));
        b.i(Instruction::Br(2));
        b.i(Instruction::End);
        b.i(Instruction::I32Const(2));
        b.i(Instruction::LocalSet(7));
        b.i(Instruction::End);
        // A key: a string, then the colon
        b.i(Instruction::LocalGet(7));
        b.i(Instruction::I32Const(2));
        b.i(Instruction::I32Eq);
        b.i(Instruction::If(BlockType::Empty));
        b.i(Instruction::LocalGet(4));
        b.i(Instruction::I32Const(34));
        b.i(Instruction::I32Eq);
        b.i(Instruction::I32Eqz);
        b.i(Instruction::BrIf(3));
        // A string: up to the closing quote; control characters are invalid
        // and a backslash starts one of the JSON escapes
        b.i(Instruction::LocalGet(3));
        b.i(Instruction::I32Const(1));
        b.i(Instruction::I32Add);
        b.i(Instruction::LocalSet(3));
        b.i(Instruction::Block(BlockType::Empty));
        b.i(Instruction::Loop(BlockType::Empty));
        b.i(Instruction::LocalGet(3));
        b.i(Instruction::LocalGet(2));
        b.i(Instruction::I32GeU);
        b.i(Instruction::BrIf(5));
        b.i(Instruction::LocalGet(0));
        b.i(Instruction::I32Const(4));
        b.i(Instruction::I32Add);
        b.i(Instruction::LocalGet(3));
        b.i(Instruction::I32Add);
        b.i(Instruction::I32Load8U(MemArg { offset: 0, align: 0, memory_index: 0 }));
        b.i(Instruction::LocalSet(4));
        b.i(Instruction::LocalGet(4));
        b.i(Instruction::I32Const(34));
        b.i(Instruction::I32Eq);
        b.i(Instruction::If(BlockType::Empty));
        b.i(Instruction::LocalGet(3));
        b.i(Instruction::I32Const(1));
        b.i(Instruction::I32Add);
        b.i(Instruction::LocalSet(3));
        b.i(Instruction::Br(2));
        b.i(Instruction::End);
        b.i(Instruction::LocalGet(4));
        b.i(Instruction::I32Const(32));
        b.i(Instruction::I32LtU);
        b.i(Instruction::BrIf(5));
        b.i(Instruction::LocalGet(4));
        b.i(Instruction::I32Const(92));
        b.i(Instruction::I32Eq);
        b.i(Instruction::If(BlockType::Empty));
        b.i(Instruction::LocalGet(3));
        b.i(Instruction::I32Const(1));
        b.i(Instruction::I32Add);
        b.i(Instruction::LocalSet(3));
        b.i(Instruction::LocalGet(3));
        b.i(Instruction::LocalGet(2));
        b.i(Instruction::I32GeU);
        b.i(Instruction::BrIf(6));
        b.i(Instruction::LocalGet(0));
        b.i(Instruction::I32Const(4));
        b.i(Instruction::I32Add);
        b.i(Instruction::LocalGet(3));
        b.i(Instruction::I32Add);
        b.i(Instruction::I32Load8U(MemArg { offset: 0, align: 0, memory_index: 0 }));
        b.i(Instruction::LocalSet(4));
        b.i(Instruction::LocalGet(4));
        b.i(Instruction::I32Const(117));
        b.i(Instruction::I32Eq);
        b.i(Instruction::If(BlockType::Empty));
        b.i(Instruction::LocalGet(3));
        b.i(Instruction::I32Const(1));
        b.i(Instruction::I32Add);
        b.i(Instruction::LocalSet(3));
        // four hex digits
        b.i(Instruction::I32Const(0));
        b.i(Instruction::LocalSet(8));
        b.i(Instruction::Block(BlockType::Empty));
        b.i(Instruction::Loop(BlockType::Empty));
        b.i(Instruction::LocalGet(8));
        b.i(Instruction::I32Const(4));
        b.i(Instruction::I32GeU);
    }

    /// Part 4 of `try_text_to_data_instructions_body`, after `s`.
    #[verifier::opaque]
    pub open spec fn try_text_to_data_instructions_part_4(s: Seq<Instruction>, parse_value_index: u32, malloc_index: u32) -> Seq<Instruction> {
        s
            .push(Instruction::BrIf(1))
            .push(Instruction::LocalGet(3))
            .push(Instruction::LocalGet(2))
            .push(Instruction::I32GeU)
            .push(Instruction::BrIf(9))
            .push(Instruction::LocalGet(0))
            .push(Instruction::I32Const(4))
            .push(Instruction::I32Add)
            .push(Instruction::LocalGet(3))
            .push(Instruction::I32Add)
            .push(Instruction::I32Load8U(MemArg { offset: 0, align: 0, memory_index: 0 }))
            .push(Instruction::LocalSet(4))
            .push(Instruction::LocalGet(4))
            .push(Instruction::I32Const(48))
            .push(Instruction::I32GeU)
            .push(Instruction::LocalGet(4))
            .push(Instruction::I32Const(57))
            .push(Instruction::I32LeU)
            .push(Instruction::I32And)
            .push(Instruction::LocalGet(4))
            .push(Instruction::I32Const(97))
            .push(Instruction::I32GeU)
            .push(Instruction::LocalGet(4))
            .push(Instruction::I32Const(102))
            .push(Instruction::I32LeU)
            .push(Instruction::I32And)
            .push(Instruction::I32Or)
            .push(Instruction::LocalGet(4))
            .push(Instruction::I32Const(65))
            .push(Instruction::I32GeU)
            .push(Instruction::LocalGet(4))
            .push(Instruction::I32Const(70))
            .push(Instruction::I32LeU)
            .push(Instruction::I32And)
            .push(Instruction::I32Or)
            .push(Instruction::I32Eqz)
            .push(Instruction::BrIf(9))
            .push(Instruction::LocalGet(3))
            .push(Instruction::I32Const(1))
            .push(Instruction::I32Add)
            .push(Instruction::LocalSet(3))
            .push(Instruction::LocalGet(8))
            .push(Instruction::I32Const(1))
            .push(Instruction::I32Add)
            .push(Instruction::LocalSet(8))
            .push(Instruction::Br(0))
            .push(Instruction::End)
            .push(Instruction::End)
            .push(Instruction::Br(2))
            .push(Instruction::End)
            .push(Instruction::LocalGet(4))
            .push(Instruction::I32Const(34))
            .push(Instruction::I32Eq)
            .push(Instruction::LocalGet(4))
            .push(Instruction::I32Const(92))
            .push(Instruction::I32Eq)
            .push(Instruction::I32Or)
            .push(Instruction::LocalGet(4))
            .push(Instruction::I32Const(47))
            .push(Instruction::I32Eq)
            .push(Instruction::I32Or)
            .push(Instruction::LocalGet(4))
            .push(Instruction::I32Const(98))
            .push(Instruction::I32Eq)
            .push(Instruction::I32Or)
            .push(Instruction::LocalGet(4))
            .push(Instruction::I32Const(102))
            .push(Instruction::I32Eq)
            .push(Instruction::I32Or)
            .push(Instruction::LocalGet(4))
            .push(Instruction::I32Const(110))
            .push(Instruction::I32Eq)
            .push(Instruction::I32Or)
            .push(Instruction::LocalGet(4))
            .push(Instruction::I32Const(114))
            .push(Instruction::I32Eq)
            .push(Instruction::I32Or)
            .push(Instruction::LocalGet(4))
            .push(Instruction::I32Const(116))
            .push(Instruction::I32Eq)
            .push(Instruction::I32Or)
            .push(Instruction::I32Eqz)
            .push(Instruction::BrIf(6))
            .push(Instruction::End)
            .push(Instruction::LocalGet(3))
            .push(Instruction::I32Const(1))
            .push(Instruction::I32Add)
            .push(Instruction::LocalSet(3))
            .push(Instruction::Br(0))
            .push(Instruction::End)
    }

    /// Part 4 of `generate_try_text_to_data_instructions`.
    #[verifier::rlimit(40)]
    #[verifier::spinoff_prover]
    fn generate_try_text_to_data_instructions_4(b: &mut Body, parse_value_index: u32, malloc_index: u32)
        requires
            old(b).wf(),
            old(b).open_blocks() == 10,
            old(b).n_locals() == 9,
        ensures
            final(b).wf(),
            final(b).open_blocks() == 5,
            final(b).n_locals() == 9,
            final(b).instrs() == Self::try_text_to_data_instructions_part_4(old(b).instrs(), parse_value_index, malloc_index),
    {
        proof {
            reveal(JsonClass::try_text_to_data_instructions_part_4);
        }
        b.i(Instruction::BrIf(1));
        b.i(Instruction::LocalGet(3));
        b.i(Instruction::LocalGet(2));
        b.i(Instruction::I32GeU);
        b.i(Instruction::BrIf(9));
        b.i(Instruction::LocalGet(0));
        b.i(Instruction::I32Const(4));
        b.i(Instruction::I32Add);
        b.i(Instruction::LocalGet(3));
        b.i(Instruction::I32Add);
        b.i(Instruction::I32Load8U(MemArg { offset: 0, align: 0, memory_index: 0 }));
        b.i(Instruction::LocalSet(4));
        b.i(Instruction::LocalGet(4));
        b.i(Instruction::I32Const(48));
        b.i(Instruction::I32GeU);
        b.i(Instruction::LocalGet(4));
        b.i(Instruction::I32Const(57));
        b.i(Instruction::I32LeU);
        b.i(Instruction::I32And);
        b.i(Instruction::LocalGet(4));
        b.i(Instruction::I32Const(97));
        b.i(Instruction::I32GeU);
        b.i(Instruction::LocalGet(4));
        b.i(Instruction::I32Const(102));
        b.i(Instruction::I32LeU);
        b.i(Instruction::I32And);
        b.i(Instruction::I32Or);
        b.i(Instruction::LocalGet(4));
        b.i(Instruction::I32Const(65));
        b.i(Instruction::I32GeU);
        b.i(Instruction::LocalGet(4));
        b.i(Instruction::I32Const(70));
        b.i(Instruction::I32LeU);
        b.i(Instruction::I32And);
        b.i(Instruction::I32Or);
        b.i(Instruction::I32Eqz);
        b.i(Instruction::BrIf(9));
        b.i(Instruction::LocalGet(3));
        b.i(Instruction::I32Const(1));
        b.i(Instruction::I32Add);
        b.i(Instruction::LocalSet(3));
        b.i(Instruction::LocalGet(8));
        b.i(Instruction::I32Const(1));
        b.i(Instruction::I32Add);
        b.i(Instruction::LocalSet(8));
        b.i(Instruction::Br(0));
        b.i(Instruction::End);
        b.i(Instruction::End);
        b.i(Instruction::Br(2));
        b.i(Instruction::End);
        b.i(Instruction::LocalGet(4));
        b.i(Instruction::I32Const(34));
        b.i(Instruction::I32Eq);
        b.i(Instruction::LocalGet(4));
        b.i(Instruction::I32Const(92));
        b.i(Instruction::I32Eq);
        b.i(Instruction::I32Or);
        b.i(Instruction::LocalGet(4));
        b.i(Instruction::I32Const(47));
        b.i(Instruction::I32Eq);
        b.i(Instruction::I32Or);
        b.i(Instruction::LocalGet(4));
        b.i(Instruction::I32Const(98));
        b.i(Instruction::I32Eq);
        b.i(Instruction::I32Or);
        b.i(Instruction::LocalGet(4));
        b.i(Instruction::I32Const(102));
        b.i(Instruction::I32Eq);
        b.i(Instruction::I32Or);
        b.i(Instruction::LocalGet(4));
        b.i(Instruction::I32Const(110));
        b.i(Instruction::I32Eq);
        b.i(Instruction::I32Or);
        b.i(Instruction::LocalGet(4));
        b.i(Instruction::I32Const(114));
        b.i(Instruction::I32Eq);
        b.i(Instruction::I32Or);
        b.i(Instruction::LocalGet(4));
        b.i(Instruction::I32Const(116));
        b.i(Instruction::I32Eq);
        b.i(Instruction::I32Or);
        b.i(Instruction::I32Eqz);
        b.i(Instruction::BrIf(6));
        b.i(Instruction::End);
        b.i(Instruction::LocalGet(3));
        b.i(Instruction::I32Const(1));
        b.i(Instruction::I32Add);
        b.i(Instruction::LocalSet(3));
        b.i(Instruction::Br(0));
        b.i(Instruction::End);
    }

    /// Part 5 of `try_text_to_data_instructions_body`, after `s`.
    #[verifier::opaque]
    pub open spec fn try_text_to_data_instructions_part_5(s: Seq<Instruction>, parse_value_index: u32, malloc_index: u32) -> Seq<Instruction> {
        s
            .push(Instruction::End)
            .push(Instruction::I32Const(3))
            .push(Instruction::LocalSet(7))
            .push(Instruction::Br(1))
            .push(Instruction::End)
            .push(Instruction::I32Const(1))
            .push(Instruction::LocalSet(7))
            .push(Instruction::LocalGet(4))
            .push(Instruction::I32Const(123))
            .push(Instruction::I32Eq)
            .push(Instruction::If(BlockType::Empty))
            .push(Instruction::LocalGet(6))
            .push(Instruction::LocalGet(5))
            .push(Instruction::I32Add)
            .push(Instruction::I32Const(2))
            .push(Instruction::I32Store8(MemArg { offset: 0, align: 0, memory_index: 0 }))
            .push(Instruction::LocalGet(5))
            .push(Instruction::I32Const(1))
            .push(Instruction::I32Add)
            .push(Instruction::LocalSet(5))
            .push(Instruction::LocalGet(3))
            .push(Instruction::I32Const(1))
            .push(Instruction::I32Add)
            .push(Instruction::LocalSet(3))
            .push(Instruction::I32Const(5))
            .push(Instruction::LocalSet(7))
            .push(Instruction::Br(1))
            .push(Instruction::End)
            .push(Instruction::LocalGet(4))
            .push(Instruction::I32Const(91))
            .push(Instruction::I32Eq)
            .push(Instruction::If(BlockType::Empty))
            .push(Instruction::LocalGet(6))
            .push(Instruction::LocalGet(5))
            .push(Instruction::I32Add)
            .push(Instruction::I32Const(1))
            .push(Instruction::I32Store8(MemArg { offset: 0, align: 0, memory_index: 0 }))
            .push(Instruction::LocalGet(5))
            .push(Instruction::I32Const(1))
            .push(Instruction::I32Add)
            .push(Instruction::LocalSet(5))
            .push(Instruction::LocalGet(3))
            .push(Instruction::I32Const(1))
            .push(Instruction::I32Add)
            .push(Instruction::LocalSet(3))
            .push(Instruction::I32Const(4))
            .push(Instruction::LocalSet(7))
            .push(Instruction::Br(1))
            .push(Instruction::End)
            .push(Instruction::LocalGet(4))
            .push(Instruction::I32Const(34))
            .push(Instruction::I32Eq)
            .push(Instruction::If(BlockType::Empty))
            .push(Instruction::LocalGet(3))
            .push(Instruction::I32Const(1))
            .push(Instruction::I32Add)
            .push(Instruction::LocalSet(3))
            .push(Instruction::Block(BlockType::Empty))
            .push(Instruction::Loop(BlockType::Empty))
            .push(Instruction::LocalGet(3))
            .push(Instruction::LocalGet(2))
            .push(Instruction::I32GeU)
            .push(Instruction::BrIf(5))
            .push(Instruction::LocalGet(0))
            .push(Instruction::I32Const(4))
            .push(Instruction::I32Add)
            .push(Instruction::LocalGet(3))
            .push(Instruction::I32Add)
            .push(Instruction::I32Load8U(MemArg { offset: 0, align: 0, memory_index: 0 }))
            .push(Instruction::LocalSet(4))
            .push(Instruction::LocalGet(4))
            .push(Instruction::I32Const(34))
            .push(Instruction::I32Eq)
            .push(Instruction::If(BlockType::Empty))
            .push(Instruction::LocalGet(3))
            .push(Instruction::I32Const(1))
            .push(Instruction::I32Add)
            .push(Instruction::LocalSet(3))
            .push(Instruction::Br(2))
            .push(Instruction::End)
            .push(Instruction::LocalGet(4))
            .push(Instruction::I32Const(32))
            .push(Instruction::I32LtU)
            .push(Instruction::BrIf(5))
            .push(Instruction::LocalGet(4))
            .push(Instruction::I32Const(92))
            .push(Instruction::I32Eq)
            .push(Instruction::If(BlockType::Empty))
            .push(Instruction::LocalGet(3))
            .push(Instruction::I32Const(1))
    }

    /// Part 5 of `generate_try_text_to_data_instructions`.
    #[verifier::rlimit(40)]
    #[verifier::spinoff_prover]
    fn generate_try_text_to_data_instructions_5(b: &mut Body, parse_value_index: u32, malloc_index: u32)
        requires
            old(b).wf(),
            old(b).open_blocks() == 5,
            old(b).n_locals() == 9,
        ensures
            final(b).wf(),
            final(b).open_blocks() == 7,
            final(b).n_locals() == 9,
            final(b).instrs() == Self::try_text_to_data_instructions_part_5(old(b).instrs(), parse_value_index, malloc_index),
    {
        proof {
            reveal(JsonClass::try_text_to_data_instructions_part_5);
        }
        b.i(Instruction::End);
        b.i(Instruction::I32Const(3));
        b.i(Instruction::LocalSet(7));
        b.i(Instruction::Br(1));
        b.i(Instruction::End);
        // A value
        b.i(Instruction::I32Const(1));
        b.i(Instruction::LocalSet(7));
        b.i(Instruction::LocalGet(4));
        b.i(Instruction::I32Const(123));
        b.i(Instruction::I32Eq);
        b.i(Instruction::If(BlockType::Empty));
        b.i(Instruction::LocalGet(6));
        b.i(Instruction::LocalGet(5));
        b.i(Instruction::I32Add);
        b.i(Instruction::I32Const(2));
        b.i(Instruction::I32Store8(MemArg { offset: 0, align: 0, memory_index: 0 }));
        b.i(Instruction::LocalGet(5));
        b.i(Instruction::I32Const(1));
        b.i(Instruction::I32Add);
        b.i(Instruction::LocalSet(5));
        b.i(Instruction::LocalGet(3));
        b.i(Instruction::I32Const(1));
        b.i(Instruction::I32Add);
        b.i(Instruction::LocalSet(3));
        b.i(Instruction::I32Const(5));
        b.i(Instruction::LocalSet(7));
        b.i(Instruction::Br(1));
        b.i(Instruction::End);
        b.i(Instruction::LocalGet(4));
        b.i(Instruction::I32Const(91));
        b.i(Instruction::I32Eq);
        b.i(Instruction::If(BlockType::Empty));
        b.i(Instruction::LocalGet(6));
        b.i(Instruction::LocalGet(5));
        b.i(Instruction::I32Add);
        b.i(Instruction::I32Const(1));
        b.i(Instruction::I32Store8(MemArg { offset: 0, align: 0, memory_index: 0 }));
        b.i(Instruction::LocalGet(5));
        b.i(Instruction::I32Const(1));
        b.i(Instruction::I32Add);
        b.i(Instruction::LocalSet(5));
        b.i(Instruction::LocalGet(3));
        b.i(Instruction::I32Const(1));
        b.i(Instruction::I32Add);
        b.i(Instruction::LocalSet(3));
        b.i(Instruction::I32Const(4));
        b.i(Instruction::LocalSet(7));
        b.i(Instruction::Br(1));
        b.i(Instruction::End);
        b.i(Instruction::LocalGet(4));
        b.i(Instruction::I32Const(34));
        b.i(Instruction::I32Eq);
        b.i(Instruction::If(BlockType::Empty));
        // A string: up to the closing quote; control characters are invalid
        // and a backslash starts one of the JSON escapes
        b.i(Instruction::LocalGet(3));
        b.i(Instruction::I32Const(1));
        b.i(Instruction::I32Add);
        b.i(Instruction::LocalSet(3));
        b.i(Instruction::Block(BlockType::Empty));
        b.i(Instruction::Loop(BlockType::Empty));
        b.i(Instruction::LocalGet(3));
        b.i(Instruction::LocalGet(2));
        b.i(Instruction::I32GeU);
        b.i(Instruction::BrIf(5));
        b.i(Instruction::LocalGet(0));
        b.i(Instruction::I32Const(4));
        b.i(Instruction::I32Add);
        b.i(Instruction::LocalGet(3));
        b.i(Instruction::I32Add);
        b.i(Instruction::I32Load8U(MemArg { offset: 0, align: 0, memory_index: 0 }));
        b.i(Instruction::LocalSet(4));
        b.i(Instruction::LocalGet(4));
        b.i(Instruction::I32Const(34));
        b.i(Instruction::I32Eq);
        b.i(Instruction::If(BlockType::Empty));
        b.i(Instruction::LocalGet(3));
        b.i(Instruction::I32Const(1));
        b.i(Instruction::I32Add);
        b.i(Instruction::LocalSet(3));
        b.i(Instruction::Br(2));
        b.i(Instruction::End);
        b.i(Instruction::LocalGet(4));
        b.i(Instruction::I32Const(32));
        b.i(Instruction::I32LtU);
        b.i(Instruction::BrIf(5));
        b.i(Instruction::LocalGet(4));
        b.i(Instruction::I32Const(92));
        b.i(Instruction::I32Eq);
        b.i(Instruction::If(BlockType::Empty));
        b.i(Instruction::LocalGet(3));
        b.i(Instruction::I32Const(1));
    }

    /// Part 6 of `try_text_to_data_instructions_body`, after `s`.
    #[verifier::opaque]
    pub open spec fn try_text_to_data_instructions_part_6(s: Seq<Instruction>, parse_value_index: u32, malloc_index: u32) -> Seq<Instruction> {
        s
            .push(Instruction::I32Add)
            .push(Instruction::LocalSet(3))
            .push(Instruction::LocalGet(3))
            .push(Instruction::LocalGet(2))
            .push(Instruction::I32GeU)
            .push(Instruction::BrIf(6))
            .push(Instruction::LocalGet(0))
            .push(Instruction::I32Const(4))
            .push(Instruction::I32Add)
            .push(Instruction::LocalGet(3))
            .push(Instruction::I32Add)
            .push(Instruction::I32Load8U(MemArg { offset: 0, align: 0, memory_index: 0 }))
            .push(Instruction::LocalSet(4))
            .push(Instruction::LocalGet(4))
            .push(Instruction::I32Const(117))
            .push(Instruction::I32Eq)
            .push(Instruction::If(BlockType::Empty))
            .push(Instruction::LocalGet(3))
            .push(Instruction::I32Const(1))
            .push(Instruction::I32Add)
            .push(Instruction::LocalSet(3))
            .push(Instruction::I32Const(0))
            .push(Instruction::LocalSet(8))
            .push(Instruction::Block(BlockType::Empty))
            .push(Instruction::Loop(BlockType::Empty))
            .push(Instruction::LocalGet(8))
            .push(Instruction::I32Const(4))
            .push(Instruction::I32GeU)
            .push(Instruction::BrIf(1))
            .push(Instruction::LocalGet(3))
            .push(Instruction::LocalGet(2))
            .push(Instruction::I32GeU)
            .push(Instruction::BrIf(9))
            .push(Instruction::LocalGet(0))
            .push(Instruction::I32Const(4))
            .push(Instruction::I32Add)
            .push(Instruction::LocalGet(3))
            .push(Instruction::I32Add)
            .push(Instruction::I32Load8U(MemArg { offset: 0, align: 0, memory_index: 0 }))
            .push(Instruction::LocalSet(4))
            .push(Instruction::LocalGet(4))
            .push(Instruction::I32Const(48))
            .push(Instruction::I32GeU)
            .push(Instruction::LocalGet(4))
            .push(Instruction::I32Const(57))
            .push(Instruction::I32LeU)
            .push(Instruction::I32And)
            .push(Instruction::LocalGet(4))
            .push(Instruction::I32Const(97))
            .push(Instruction::I32GeU)
            .push(Instruction::LocalGet(4))
            .push(Instruction::I32Const(102))
            .push(Instruction::I32LeU)
            .push(Instruction::I32And)
            .push(Instruction::I32Or)
            .push(Instruction::LocalGet(4))
            .push(Instruction::I32Const(65))
            .push(Instruction::I32GeU)
            .push(Instruction::LocalGet(4))
            .push(Instruction::I32Const(70))
            .push(Instruction::I32LeU)
            .push(Instruction::I32And)
            .push(Instruction::I32Or)
            .push(Instruction::I32Eqz)
            .push(Instruction::BrIf(9))
            .push(Instruction::LocalGet(3))
            .push(Instruction::I32Const(1))
            .push(Instruction::I32Add)
            .push(Instruction::LocalSet(3))
            .push(Instruction::LocalGet(8))
            .push(Instruction::I32Const(1))
            .push(Instruction::I32Add)
            .push(Instruction::LocalSet(8))
            .push(Instruction::Br(0))
            .push(Instruction::End)
            .push(Instruction::End)
            .push(Instruction::Br(2))
            .push(Instruction::End)
            .push(Instruction::LocalGet(4))
            .push(Instruction::I32Const(34))
            .push(Instruction::I32Eq)
            .push(Instruction::LocalGet(4))
            .push(Instruction::I32Const(92))
            .push(Instruction::I32Eq)
            .push(Instruction::I32Or)
            .push(Instruction::LocalGet(4))
            .push(Instruction::I32Const(47))
            .push(Instruction::I32Eq)
            .push(Instruction::I32Or)
            .push(Instruction::LocalGet(4))
    }

    /// Part 6 of `generate_try_text_to_data_instructions`.
    #[verifier::rlimit(40)]
    #[verifier::spinoff_prover]
    fn generate_try_text_to_data_instructions_6(b: &mut Body, parse_value_index: u32, malloc_index: u32)
        requires
            old(b).wf(),
            old(b).open_blocks() == 7,
            old(b).n_locals() == 9,
        ensures
            final(b).wf(),
            final(b).open_blocks() == 7,
            final(b).n_locals() == 9,
            final(b).instrs() == Self::try_text_to_data_instructions_part_6(old(b).instrs(), parse_value_index, malloc_index),
    {
        proof {
            reveal(JsonClass::try_text_to_data_instructions_part_6);
        }
        b.i(Instruction::I32Add);
        b.i(Instruction::LocalSet(3));
        b.i(Instruction::LocalGet(3));
        b.i(Instruction::LocalGet(2));
        b.i(Instruction::I32GeU);
        b.i(Instruction::BrIf(6));
        b.i(Instruction::LocalGet(0));
        b.i(Instruction::I32Const(4));
        b.i(Instruction::I32Add);
        b.i(Instruction::LocalGet(3));
        b.i(Instruction::I32Add);
        b.i(Instruction::I32Load8U(MemArg { offset: 0, align: 0, memory_index: 0 }));
        b.i(Instruction::LocalSet(4));
        b.i(Instruction::LocalGet(4));
        b.i(Instruction::I32Const(117));
        b.i(Instruction::I32Eq);
        b.i(Instruction::If(BlockType::Empty));
        b.i(Instruction::LocalGet(3));
        b.i(Instruction::I32Const(1));
        b.i(Instruction::I32Add);
        b.i(Instruction::LocalSet(3));
        // four hex digits
        b.i(Instruction::I32Const(0));
        b.i(Instruction::LocalSet(8));
        b.i(Instruction::Block(BlockType::Empty));
        b.i(Instruction::Loop(BlockType::Empty));
        b.i(Instruction::LocalGet(8));
        b.i(Instruction::I32Const(4));
        b.i(Instruction::I32GeU);
        b.i(Instruction::BrIf(1));
        b.i(Instruction::LocalGet(3));
        b.i(Instruction::LocalGet(2));
        b.i(Instruction::I32GeU);
        b.i(Instruction::BrIf(9));
        b.i(Instruction::LocalGet(0));
        b.i(Instruction::I32Const(4));
        b.i(Instruction::I32Add);
        b.i(Instruction::LocalGet(3));
        b.i(Instruction::I32Add);
        b.i(Instruction::I32Load8U(MemArg { offset: 0, align: 0, memory_index: 0 }));
        b.i(Instruction::LocalSet(4));
        b.i(Instruction::LocalGet(4));
        b.i(Instruction::I32Const(48));
        b.i(Instruction::I32GeU);
        b.i(Instruction::LocalGet(4));
        b.i(Instruction::I32Const(57));
        b.i(Instruction::I32LeU);
        b.i(Instruction::I32And);
        b.i(Instruction::LocalGet(4));
        b.i(Instruction::I32Const(97));
        b.i(Instruction::I32GeU);
        b.i(Instruction::LocalGet(4));
        b.i(Instruction::I32Const(102));
        b.i(Instruction::I32LeU);
        b.i(Instruction::I32And);
        b.i(Instruction::I32Or);
        b.i(Instruction::LocalGet(4));
        b.i(Instruction::I32Const(65));
        b.i(Instruction::I32GeU);
        b.i(Instruction::LocalGet(4));
        b.i(Instruction::I32Const(70));
        b.i(Instruction::I32LeU);
        b.i(Instruction::I32And);
        b.i(Instruction::I32Or);
        b.i(Instruction::I32Eqz);
        b.i(Instruction::BrIf(9));
        b.i(Instruction::LocalGet(3));
        b.i(Instruction::I32Const(1));
        b.i(Instruction::I32Add);
        b.i(Instruction::LocalSet(3));
        b.i(Instruction::LocalGet(8));
        b.i(Instruction::I32Const(1));
        b.i(Instruction::I32Add);
        b.i(Instruction::LocalSet(8));
        b.i(Instruction::Br(0));
        b.i(Instruction::End);
        b.i(Instruction::End);
        b.i(Instruction::Br(2));
        b.i(Instruction::End);
        b.i(Instruction::LocalGet(4));
        b.i(Instruction::I32Const(34));
        b.i(Instruction::I32Eq);
        b.i(Instruction::LocalGet(4));
        b.i(Instruction::I32Const(92));
        b.i(Instruction::I32Eq);
        b.i(Instruction::I32Or);
        b.i(Instruction::LocalGet(4));
        b.i(Instruction::I32Const(47));
        b.i(Instruction::I32Eq);
        b.i(Instruction::I32Or);
        b.i(Instruction::LocalGet(4));
    }

    /// Part 7 of `try_text_to_data_instructions_body`, after `s`.
    #[verifier::opaque]
    pub open spec fn try_text_to_data_instructions_part_7(s: Seq<Instruction>, parse_value_index: u32, malloc_index: u32) -> Seq<Instruction> {
        s
            .push(Instruction::I32Const(98))
            .push(Instruction::I32Eq)
            .push(Instruction::I32Or)
            .push(Instruction::LocalGet(4))
            .push(Instruction::I32Const(102))
            .push(Instruction::I32Eq)
            .push(Instruction::I32Or)
            .push(Instruction::LocalGet(4))
            .push(Instruction::I32Const(110))
            .push(Instruction::I32Eq)
            .push(Instruction::I32Or)
            .push(Instruction::LocalGet(4))
            .push(Instruction::I32Const(114))
            .push(Instruction::I32Eq)
            .push(Instruction::I32Or)
            .push(Instruction::LocalGet(4))
            .push(Instruction::I32Const(116))
            .push(Instruction::I32Eq)
            .push(Instruction::I32Or)
            .push(Instruction::I32Eqz)
            .push(Instruction::BrIf(6))
            .push(Instruction::End)
            .push(Instruction::LocalGet(3))
            .push(Instruction::I32Const(1))
            .push(Instruction::I32Add)
            .push(Instruction::LocalSet(3))
            .push(Instruction::Br(0))
            .push(Instruction::End)
            .push(Instruction::End)
            .push(Instruction::Br(1))
            .push(Instruction::End)
            .push(Instruction::LocalGet(4))
            .push(Instruction::I32Const(116))
            .push(Instruction::I32Eq)
            .push(Instruction::If(BlockType::Empty))
            .push(Instruction::LocalGet(2))
            .push(Instruction::LocalGet(3))
            .push(Instruction::I32Sub)
            .push(Instruction::I32Const(4))
            .push(Instruction::I32LtU)
            .push(Instruction::BrIf(3))
            .push(Instruction::LocalGet(0))
            .push(Instruction::I32Const(4))
            .push(Instruction::I32Add)
            .push(Instruction::LocalGet(3))
            .push(Instruction::I32Add)
            .push(Instruction::I32Load8U(MemArg { offset: 1, align: 0, memory_index: 0 }))
            .push(Instruction::I32Const(114))
            .push(Instruction::I32Ne)
            .push(Instruction::BrIf(3))
            .push(Instruction::LocalGet(0))
            .push(Instruction::I32Const(4))
            .push(Instruction::I32Add)
            .push(Instruction::LocalGet(3))
            .push(Instruction::I32Add)
            .push(Instruction::I32Load8U(MemArg { offset: 2, align: 0, memory_index: 0 }))
            .push(Instruction::I32Const(117))
            .push(Instruction::I32Ne)
            .push(Instruction::BrIf(3))
            .push(Instruction::LocalGet(0))
            .push(Instruction::I32Const(4))
            .push(Instruction::I32Add)
            .push(Instruction::LocalGet(3))
            .push(Instruction::I32Add)
            .push(Instruction::I32Load8U(MemArg { offset: 3, align: 0, memory_index: 0 }))
            .push(Instruction::I32Const(101))
            .push(Instruction::I32Ne)
            .push(Instruction::BrIf(3))
            .push(Instruction::LocalGet(3))
            .push(Instruction::I32Const(4))
            .push(Instruction::I32Add)
            .push(Instruction::LocalSet(3))
            .push(Instruction::Br(1))
            .push(Instruction::End)
            .push(Instruction::LocalGet(4))
            .push(Instruction::I32Const(102))
            .push(Instruction::I32Eq)
            .push(Instruction::If(BlockType::Empty))
            .push(Instruction::LocalGet(2))
            .push(Instruction::LocalGet(3))
            .push(Instruction::I32Sub)
            .push(Instruction::I32Const(5))
            .push(Instruction::I32LtU)
            .push(Instruction::BrIf(3))
            .push(Instruction::LocalGet(0))
            .push(Instruction::I32Const(4))
            .push(Instruction::I32Add)
            .push(Instruction::LocalGet(3))
            .push(Instruction::I32Add)
            .push(Instruction::I32Load8U(MemArg { offset: 1, align: 0, memory_index: 0 }))
    }

    /// Part 7 of `generate_try_text_to_data_instructions`.
    #[verifier::rlimit(40)]
    #[verifier::spinoff_prover]
    fn generate_try_text_to_data_instructions_7(b: &mut Body, parse_value_index: u32, malloc_index: u32)
        requires
            old(b).wf(),
            old(b).open_blocks() == 7,
            old(b).n_locals() == 9,
        ensures
            final(b).wf(),
            final(b).open_blocks() == 4,
            final(b).n_locals() == 9,
            final(b).instrs() == Self::try_text_to_data_instructions_part_7(old(b).instrs(), parse_value_index, malloc_index),
    {
        proof {
            reveal(JsonClass::try_text_to_data_instructions_part_7);
        }
        b.i(Instruction::I32Const(98));
        b.i(Instruction::I32Eq);
        b.i(Instruction::I32Or);
        b.i(Instruction::LocalGet(4));
        b.i(Instruction::I32Const(102));
        b.i(Instruction::I32Eq);
        b.i(Instruction::I32Or);
        b.i(Instruction::LocalGet(4));
        b.i(Instruction::I32Const(110));
        b.i(Instruction::I32Eq);
        b.i(Instruction::I32Or);
        b.i(Instruction::LocalGet(4));
        b.i(Instruction::I32Const(114));
        b.i(Instruction::I32Eq);
        b.i(Instruction::I32Or);
        b.i(Instruction::LocalGet(4));
        b.i(Instruction::I32Const(116));
        b.i(Instruction::I32Eq);
        b.i(Instruction::I32Or);
        b.i(Instruction::I32Eqz);
        b.i(Instruction::BrIf(6));
        b.i(Instruction::End);
        b.i(Instruction::LocalGet(3));
        b.i(Instruction::I32Const(1));
        b.i(Instruction::I32Add);
        b.i(Instruction::LocalSet(3));
        b.i(Instruction::Br(0));
        b.i(Instruction::End);
        b.i(Instruction::End);
        b.i(Instruction::Br(1));
        b.i(Instruction::End);
        b.i(Instruction::LocalGet(4));
        b.i(Instruction::I32Const(116));
        b.i(Instruction::I32Eq);
        b.i(Instruction::If(BlockType::Empty));
        // the literal true
        b.i(Instruction::LocalGet(2));
        b.i(Instruction::LocalGet(3));
        b.i(Instruction::I32Sub);
        b.i(Instruction::I32Const(4));
        b.i(Instruction::I32LtU);
        b.i(Instruction::BrIf(3));
        b.i(Instruction::LocalGet(0));
        b.i(Instruction::I32Const(4));
        b.i(Instruction::I32Add);
        b.i(Instruction::LocalGet(3));
        b.i(Instruction::I32Add);
        b.i(Instruction::I32Load8U(MemArg { offset: 1, align: 0, memory_index: 0 }));
        b.i(Instruction::I32Const(114));
        b.i(Instruction::I32Ne);
        b.i(Instruction::BrIf(3));
        b.i(Instruction::LocalGet(0));
        b.i(Instruction::I32Const(4));
        b.i(Instruction::I32Add);
        b.i(Instruction::LocalGet(3));
        b.i(Instruction::I32Add);
        b.i(Instruction::I32Load8U(MemArg { offset: 2, align: 0, memory_index: 0 }));
        b.i(Instruction::I32Const(117));
        b.i(Instruction::I32Ne);
        b.i(Instruction::BrIf(3));
        b.i(Instruction::LocalGet(0));
        b.i(Instruction::I32Const(4));
        b.i(Instruction::I32Add);
        b.i(Instruction::LocalGet(3));
        b.i(Instruction::I32Add);
        b.i(Instruction::I32Load8U(MemArg { offset: 3, align: 0, memory_index: 0 }));
        b.i(Instruction::I32Const(101));
        b.i(Instruction::I32Ne);
        b.i(Instruction::BrIf(3));
        b.i(Instruction::LocalGet(3));
        b.i(Instruction::I32Const(4));
        b.i(Instruction::I32Add);
        b.i(Instruction::LocalSet(3));
        b.i(Instruction::Br(1));
        b.i(Instruction::End);
        b.i(Instruction::LocalGet(4));
        b.i(Instruction::I32Const(102));
        b.i(Instruction::I32Eq);
        b.i(Instruction::If(BlockType::Empty));
        // the literal false
        b.i(Instruction::LocalGet(2));
        b.i(Instruction::LocalGet(3));
        b.i(Instruction::I32Sub);
        b.i(Instruction::I32Const(5));
        b.i(Instruction::I32LtU);
        b.i(Instruction::BrIf(3));
        b.i(Instruction::LocalGet(0));
        b.i(Instruction::I32Const(4));
        b.i(Instruction::I32Add);
        b.i(Instruction::LocalGet(3));
        b.i(Instruction::I32Add);
        b.i(Instruction::I32Load8U(MemArg { offset: 1, align: 0, memory_index: 0 }));
    }

    /// Part 8 of `try_text_to_data_instructions_body`, after `s`.
    #[verifier::opaque]
    pub open spec fn try_text_to_data_instructions_part_8(s: Seq<Instruction>, parse_value_index: u32, malloc_index: u32) -> Seq<Instruction> {
        s
            .push(Instruction::I32Const(97))
            .push(Instruction::I32Ne)
            .push(Instruction::BrIf(3))
            .push(Instruction::LocalGet(0))
            .push(Instruction::I32Const(4))
            .push(Instruction::I32Add)
            .push(Instruction::LocalGet(3))
            .push(Instruction::I32Add)
            .push(Instruction::I32Load8U(MemArg { offset: 2, align: 0, memory_index: 0 }))
            .push(Instruction::I32Const(108))
            .push(Instruction::I32Ne)
            .push(Instruction::BrIf(3))
            .push(Instruction::LocalGet(0))
            .push(Instruction::I32Const(4))
            .push(Instruction::I32Add)
            .push(Instruction::LocalGet(3))
            .push(Instruction::I32Add)
            .push(Instruction::I32Load8U(MemArg { offset: 3, align: 0, memory_index: 0 }))
            .push(Instruction::I32Const(115))
            .push(Instruction::I32Ne)
            .push(Instruction::BrIf(3))
            .push(Instruction::LocalGet(0))
            .push(Instruction::I32Const(4))
            .push(Instruction::I32Add)
            .push(Instruction::LocalGet(3))
            .push(Instruction::I32Add)
            .push(Instruction::I32Load8U(MemArg { offset: 4, align: 0, memory_index: 0 }))
            .push(Instruction::I32Const(101))
            .push(Instruction::I32Ne)
            .push(Instruction::BrIf(3))
            .push(Instruction::LocalGet(3))
            .push(Instruction::I32Const(5))
            .push(Instruction::I32Add)
            .push(Instruction::LocalSet(3))
            .push(Instruction::Br(1))
            .push(Instruction::End)
            .push(Instruction::LocalGet(4))
            .push(Instruction::I32Const(110))
            .push(Instruction::I32Eq)
            .push(Instruction::If(BlockType::Empty))
            .push(Instruction::LocalGet(2))
            .push(Instruction::LocalGet(3))
            .push(Instruction::I32Sub)
            .push(Instruction::I32Const(4))
            .push(Instruction::I32LtU)
            .push(Instruction::BrIf(3))
            .push(Instruction::LocalGet(0))
            .push(Instruction::I32Const(4))
            .push(Instruction::I32Add)
            .push(Instruction::LocalGet(3))
            .push(Instruction::I32Add)
            .push(Instruction::I32Load8U(MemArg { offset: 1, align: 0, memory_index: 0 }))
            .push(Instruction::I32Const(117))
            .push(Instruction::I32Ne)
            .push(Instruction::BrIf(3))
            .push(Instruction::LocalGet(0))
            .push(Instruction::I32Const(4))
            .push(Instruction::I32Add)
            .push(Instruction::LocalGet(3))
            .push(Instruction::I32Add)
            .push(Instruction::I32Load8U(MemArg { offset: 2, align: 0, memory_index: 0 }))
            .push(Instruction::I32Const(108))
            .push(Instruction::I32Ne)
            .push(Instruction::BrIf(3))
            .push(Instruction::LocalGet(0))
            .push(Instruction::I32Const(4))
            .push(Instruction::I32Add)
            .push(Instruction::LocalGet(3))
            .push(Instruction::I32Add)
            .push(Instruction::I32Load8U(MemArg { offset: 3, align: 0, memory_index: 0 }))
            .push(Instruction::I32Const(108))
            .push(Instruction::I32Ne)
            .push(Instruction::BrIf(3))
            .push(Instruction::LocalGet(3))
            .push(Instruction::I32Const(4))
            .push(Instruction::I32Add)
            .push(Instruction::LocalSet(3))
            .push(Instruction::Br(1))
            .push(Instruction::End)
            .push(Instruction::LocalGet(4))
            .push(Instruction::I32Const(45))
            .push(Instruction::I32Eq)
            .push(Instruction::LocalGet(4))
            .push(Instruction::I32Const(48))
            .push(Instruction::I32GeU)
            .push(Instruction::LocalGet(4))
            .push(Instruction::I32Const(57))
            .push(Instruction::I32LeU)
            .push(Instruction::I32And)
            .push(Instruction::I32Or)
    }

    /// Part 8 of `generate_try_text_to_data_instructions`.
    #[verifier::rlimit(40)]
    #[verifier::spinoff_prover]
    fn generate_try_text_to_data_instructions_8(b: &mut Body, parse_value_index: u32, malloc_index: u32)
        requires
            old(b).wf(),
            old(b).open_blocks() == 4,
            old(b).n_locals() == 9,
        ensures
            final(b).wf(),
            final(b).open_blocks() == 3,
            final(b).n_locals() == 9,
            final(b).instrs() == Self::try_text_to_data_instructions_part_8(old(b).instrs(), parse_value_index, malloc_index),
    {
        proof {
            reveal(JsonClass::try_text_to_data_instructions_part_8);
        }
        b.i(Instruction::I32Const(97));
        b.i(Instruction::I32Ne);
        b.i(Instruction::BrIf(3));
        b.i(Instruction::LocalGet(0));
        b.i(Instruction::I32Const(4));
        b.i(Instruction::I32Add);
        b.i(Instruction::LocalGet(3));
        b.i(Instruction::I32Add);
        b.i(Instruction::I32Load8U(MemArg { offset: 2, align: 0, memory_index: 0 }));
        b.i(Instruction::I32Const(108));
        b.i(Instruction::I32Ne);
        b.i(Instruction::BrIf(3));
        b.i(Instruction::LocalGet(0));
        b.i(Instruction::I32Const(4));
        b.i(Instruction::I32Add);
        b.i(Instruction::LocalGet(3));
        b.i(Instruction::I32Add);
        b.i(Instruction::I32Load8U(MemArg { offset: 3, align: 0, memory_index: 0 }));
        b.i(Instruction::I32Const(115));
        b.i(Instruction::I32Ne);
        b.i(Instruction::BrIf(3));
        b.i(Instruction::LocalGet(0));
        b.i(Instruction::I32Const(4));
        b.i(Instruction::I32Add);
        b.i(Instruction::LocalGet(3));
        b.i(Instruction::I32Add);
        b.i(Instruction::I32Load8U(MemArg { offset: 4, align: 0, memory_index: 0 }));
        b.i(Instruction::I32Const(101));
        b.i(Instruction::I32Ne);
        b.i(Instruction::BrIf(3));
        b.i(Instruction::LocalGet(3));
        b.i(Instruction::I32Const(5));
        b.i(Instruction::I32Add);
        b.i(Instruction::LocalSet(3));
        b.i(Instruction::Br(1));
        b.i(Instruction::End);
        b.i(Instruction::LocalGet(4));
        b.i(Instruction::I32Const(110));
        b.i(Instruction::I32Eq);
        b.i(Instruction::If(BlockType::Empty));
        // the literal null
        b.i(Instruction::LocalGet(2));
        b.i(Instruction::LocalGet(3));
        b.i(Instruction::I32Sub);
        b.i(Instruction::I32Const(4));
        b.i(Instruction::I32LtU);
        b.i(Instruction::BrIf(3));
        b.i(Instruction::LocalGet(0));
        b.i(Instruction::I32Const(4));
        b.i(Instruction::I32Add);
        b.i(Instruction::LocalGet(3));
        b.i(Instruction::I32Add);
        b.i(Instruction::I32Load8U(MemArg { offset: 1, align: 0, memory_index: 0 }));
        b.i(Instruction::I32Const(117));
        b.i(Instruction::I32Ne);
        b.i(Instruction::BrIf(3));
        b.i(Instruction::LocalGet(0));
        b.i(Instruction::I32Const(4));
        b.i(Instruction::I32Add);
        b.i(Instruction::LocalGet(3));
        b.i(Instruction::I32Add);
        b.i(Instruction::I32Load8U(MemArg { offset: 2, align: 0, memory_index: 0 }));
        b.i(Instruction::I32Const(108));
        b.i(Instruction::I32Ne);
        b.i(Instruction::BrIf(3));
        b.i(Instruction::LocalGet(0));
        b.i(Instruction::I32Const(4));
        b.i(Instruction::I32Add);
        b.i(Instruction::LocalGet(3));
        b.i(Instruction::I32Add);
        b.i(Instruction::I32Load8U(MemArg { offset: 3, align: 0, memory_index: 0 }));
        b.i(Instruction::I32Const(108));
        b.i(Instruction::I32Ne);
        b.i(Instruction::BrIf(3));
        b.i(Instruction::LocalGet(3));
        b.i(Instruction::I32Const(4));
        b.i(Instruction::I32Add);
        b.i(Instruction::LocalSet(3));
        b.i(Instruction::Br(1));
        b.i(Instruction::End);
        // A number: an optional minus, 0 or a digit run without a leading zero,
        // an optional fraction and an optional exponent
        b.i(Instruction::LocalGet(4));
        b.i(Instruction::I32Const(45));
        b.i(Instruction::I32Eq);
        b.i(Instruction::LocalGet(4));
        b.i(Instruction::I32Const(48));
        b.i(Instruction::I32GeU);
        b.i(Instruction::LocalGet(4));
        b.i(Instruction::I32Const(57));
        b.i(Instruction::I32LeU);
        b.i(Instruction::I32And);
        b.i(Instruction::I32Or);
    }

    /// Part 9 of `try_text_to_data_instructions_body`, after `s`.
    #[verifier::opaque]
    pub open spec fn try_text_to_data_instructions_part_9(s: Seq<Instruction>, parse_value_index: u32, malloc_index: u32) -> Seq<Instruction> {
        s
            .push(Instruction::I32Eqz)
            .push(Instruction::BrIf(2))
            .push(Instruction::LocalGet(4))
            .push(Instruction::I32Const(45))
            .push(Instruction::I32Eq)
            .push(Instruction::If(BlockType::Empty))
            .push(Instruction::LocalGet(3))
            .push(Instruction::I32Const(1))
            .push(Instruction::I32Add)
            .push(Instruction::LocalSet(3))
            .push(Instruction::End)
            .push(Instruction::LocalGet(3))
            .push(Instruction::LocalGet(2))
            .push(Instruction::I32GeU)
            .push(Instruction::BrIf(2))
            .push(Instruction::LocalGet(0))
            .push(Instruction::I32Const(4))
            .push(Instruction::I32Add)
            .push(Instruction::LocalGet(3))
            .push(Instruction::I32Add)
            .push(Instruction::I32Load8U(MemArg { offset: 0, align: 0, memory_index: 0 }))
            .push(Instruction::LocalSet(4))
            .push(Instruction::LocalGet(4))
            .push(Instruction::I32Const(48))
            .push(Instruction::I32Eq)
            .push(Instruction::If(BlockType::Empty))
            .push(Instruction::LocalGet(3))
            .push(Instruction::I32Const(1))
            .push(Instruction::I32Add)
            .push(Instruction::LocalSet(3))
            .push(Instruction::Else)
            .push(Instruction::I32Const(0))
            .push(Instruction::LocalSet(8))
            .push(Instruction::Block(BlockType::Empty))
            .push(Instruction::Loop(BlockType::Empty))
            .push(Instruction::LocalGet(3))
            .push(Instruction::LocalGet(2))
            .push(Instruction::I32GeU)
            .push(Instruction::BrIf(1))
            .push(Instruction::LocalGet(0))
            .push(Instruction::I32Const(4))
            .push(Instruction::I32Add)
            .push(Instruction::LocalGet(3))
            .push(Instruction::I32Add)
            .push(Instruction::I32Load8U(MemArg { offset: 0, align: 0, memory_index: 0 }))
            .push(Instruction::LocalSet(4))
            .push(Instruction::LocalGet(4))
            .push(Instruction::I32Const(48))
            .push(Instruction::I32GeU)
            .push(Instruction::LocalGet(4))
            .push(Instruction::I32Const(57))
            .push(Instruction::I32LeU)
            .push(Instruction::I32And)
            .push(Instruction::I32Eqz)
            .push(Instruction::BrIf(1))
            .push(Instruction::LocalGet(3))
            .push(Instruction::I32Const(1))
            .push(Instruction::I32Add)
            .push(Instruction::LocalSet(3))
            .push(Instruction::LocalGet(8))
            .push(Instruction::I32Const(1))
            .push(Instruction::I32Add)
            .push(Instruction::LocalSet(8))
            .push(Instruction::Br(0))
            .push(Instruction::End)
            .push(Instruction::End)
            .push(Instruction::LocalGet(8))
            .push(Instruction::I32Eqz)
            .push(Instruction::BrIf(3))
            .push(Instruction::End)
            .push(Instruction::Block(BlockType::Empty))
            .push(Instruction::LocalGet(3))
            .push(Instruction::LocalGet(2))
            .push(Instruction::I32GeU)
            .push(Instruction::BrIf(0))
            .push(Instruction::LocalGet(0))
            .push(Instruction::I32Const(4))
            .push(Instruction::I32Add)
            .push(Instruction::LocalGet(3))
            .push(Instruction::I32Add)
            .push(Instruction::I32Load8U(MemArg { offset: 0, align: 0, memory_index: 0 }))
            .push(Instruction::LocalSet(4))
            .push(Instruction::LocalGet(4))
            .push(Instruction::I32Const(46))
            .push(Instruction::I32Eq)
            .push(Instruction::I32Eqz)
            .push(Instruction::BrIf(0))
            .push(Instruction::LocalGet(3))
            .push(Instruction::I32Const(1))
            .push(Instruction::I32Add)
    }

    /// Part 9 of `generate_try_text_to_data_instructions`.
    #[verifier::rlimit(40)]
    #[verifier::spinoff_prover]
    fn generate_try_text_to_data_instructions_9(b: &mut Body, parse_value_index: u32, malloc_index: u32)
        requires
            old(b).wf(),
            old(b).open_blocks() == 3,
            old(b).n_locals() == 9,
        ensures
            final(b).wf(),
            final(b).open_blocks() == 4,
            final(b).n_locals() == 9,
            final(b).instrs() == Self::try_text_to_data_instructions_part_9(old(b).instrs(), parse_value_index, malloc_index),
    {
        proof {
            reveal(JsonClass::try_text_to_data_instructions_part_9);
        }
        b.i(Instruction::I32Eqz);
        b.i(Instruction::BrIf(2));
        b.i(Instruction::LocalGet(4));
        b.i(Instruction::I32Const(45));
        b.i(Instruction::I32Eq);
        b.i(Instruction::If(BlockType::Empty));
        b.i(Instruction::LocalGet(3));
        b.i(Instruction::I32Const(1));
        b.i(Instruction::I32Add);
        b.i(Instruction::LocalSet(3));
        b.i(Instruction::End);
        b.i(Instruction::LocalGet(3));
        b.i(Instruction::LocalGet(2));
        b.i(Instruction::I32GeU);
        b.i(Instruction::BrIf(2));
        b.i(Instruction::LocalGet(0));
        b.i(Instruction::I32Const(4));
        b.i(Instruction::I32Add);
        b.i(Instruction::LocalGet(3));
        b.i(Instruction::I32Add);
        b.i(Instruction::I32Load8U(MemArg { offset: 0, align: 0, memory_index: 0 }));
        b.i(Instruction::LocalSet(4));
        b.i(Instruction::LocalGet(4));
        b.i(Instruction::I32Const(48));
        b.i(Instruction::I32Eq);
        b.i(Instruction::If(BlockType::Empty));
        b.i(Instruction::LocalGet(3));
        b.i(Instruction::I32Const(1));
        b.i(Instruction::I32Add);
        b.i(Instruction::LocalSet(3));
        b.i(Instruction::Else);
        b.i(Instruction::I32Const(0));
        b.i(Instruction::LocalSet(8));
        b.i(Instruction::Block(BlockType::Empty));
        b.i(Instruction::Loop(BlockType::Empty));
        b.i(Instruction::LocalGet(3));
        b.i(Instruction::LocalGet(2));
        b.i(Instruction::I32GeU);
        b.i(Instruction::BrIf(1));
        b.i(Instruction::LocalGet(0));
        b.i(Instruction::I32Const(4));
        b.i(Instruction::I32Add);
        b.i(Instruction::LocalGet(3));
        b.i(Instruction::I32Add);
        b.i(Instruction::I32Load8U(MemArg { offset: 0, align: 0, memory_index: 0 }));
        b.i(Instruction::LocalSet(4));
        b.i(Instruction::LocalGet(4));
        b.i(Instruction::I32Const(48));
        b.i(Instruction::I32GeU);
        b.i(Instruction::LocalGet(4));
        b.i(Instruction::I32Const(57));
        b.i(Instruction::I32LeU);
        b.i(Instruction::I32And);
        b.i(Instruction::I32Eqz);
        b.i(Instruction::BrIf(1));
        b.i(Instruction::LocalGet(3));
        b.i(Instruction::I32Const(1));
        b.i(Instruction::I32Add);
        b.i(Instruction::LocalSet(3));
        b.i(Instruction::LocalGet(8));
        b.i(Instruction::I32Const(1));
        b.i(Instruction::I32Add);
        b.i(Instruction::LocalSet(8));
        b.i(Instruction::Br(0));
        b.i(Instruction::End);
        b.i(Instruction::End);
        b.i(Instruction::LocalGet(8));
        b.i(Instruction::I32Eqz);
        b.i(Instruction::BrIf(3));
        b.i(Instruction::End);
        b.i(Instruction::Block(BlockType::Empty));
        b.i(Instruction::LocalGet(3));
        b.i(Instruction::LocalGet(2));
        b.i(Instruction::I32GeU);
        b.i(Instruction::BrIf(0));
        b.i(Instruction::LocalGet(0));
        b.i(Instruction::I32Const(4));
        b.i(Instruction::I32Add);
        b.i(Instruction::LocalGet(3));
        b.i(Instruction::I32Add);
        b.i(Instruction::I32Load8U(MemArg { offset: 0, align: 0, memory_index: 0 }));
        b.i(Instruction::LocalSet(4));
        b.i(Instruction::LocalGet(4));
        b.i(Instruction::I32Const(46));
        b.i(Instruction::I32Eq);
        b.i(Instruction::I32Eqz);
        b.i(Instruction::BrIf(0));
        b.i(Instruction::LocalGet(3));
        b.i(Instruction::I32Const(1));
        b.i(Instruction::I32Add);
    }

    /// Part 10 of `try_text_to_data_instructions_body`, after `s`.
    #[verifier::opaque]
    pub open spec fn try_text_to_data_instructions_part_10(s: Seq<Instruction>, parse_value_index: u32, malloc_index: u32) -> Seq<Instruction> {
        s
            .push(Instruction::LocalSet(3))
            .push(Instruction::I32Const(0))
            .push(Instruction::LocalSet(8))
            .push(Instruction::Block(BlockType::Empty))
            .push(Instruction::Loop(BlockType::Empty))
            .push(Instruction::LocalGet(3))
            .push(Instruction::LocalGet(2))
            .push(Instruction::I32GeU)
            .push(Instruction::BrIf(1))
            .push(Instruction::LocalGet(0))
            .push(Instruction::I32Const(4))
            .push(Instruction::I32Add)
            .push(Instruction::LocalGet(3))
            .push(Instruction::I32Add)
            .push(Instruction::I32Load8U(MemArg { offset: 0, align: 0, memory_index: 0 }))
            .push(Instruction::LocalSet(4))
            .push(Instruction::LocalGet(4))
            .push(Instruction::I32Const(48))
            .push(Instruction::I32GeU)
            .push(Instruction::LocalGet(4))
            .push(Instruction::I32Const(57))
            .push(Instruction::I32LeU)
            .push(Instruction::I32And)
            .push(Instruction::I32Eqz)
            .push(Instruction::BrIf(1))
            .push(Instruction::LocalGet(3))
            .push(Instruction::I32Const(1))
            .push(Instruction::I32Add)
            .push(Instruction::LocalSet(3))
            .push(Instruction::LocalGet(8))
            .push(Instruction::I32Const(1))
            .push(Instruction::I32Add)
            .push(Instruction::LocalSet(8))
            .push(Instruction::Br(0))
            .push(Instruction::End)
            .push(Instruction::End)
            .push(Instruction::LocalGet(8))
            .push(Instruction::I32Eqz)
            .push(Instruction::BrIf(3))
            .push(Instruction::End)
            .push(Instruction::Block(BlockType::Empty))
            .push(Instruction::LocalGet(3))
            .push(Instruction::LocalGet(2))
            .push(Instruction::I32GeU)
            .push(Instruction::BrIf(0))
            .push(Instruction::LocalGet(0))
            .push(Instruction::I32Const(4))
            .push(Instruction::I32Add)
            .push(Instruction::LocalGet(3))
            .push(Instruction::I32Add)
            .push(Instruction::I32Load8U(MemArg { offset: 0, align: 0, memory_index: 0 }))
            .push(Instruction::LocalSet(4))
            .push(Instruction::LocalGet(4))
            .push(Instruction::I32Const(101))
            .push(Instruction::I32Eq)
            .push(Instruction::LocalGet(4))
            .push(Instruction::I32Const(69))
            .push(Instruction::I32Eq)
            .push(Instruction::I32Or)
            .push(Instruction::I32Eqz)
            .push(Instruction::BrIf(0))
            .push(Instruction::LocalGet(3))
            .push(Instruction::I32Const(1))
            .push(Instruction::I32Add)
            .push(Instruction::LocalSet(3))
            .push(Instruction::Block(BlockType::Empty))
            .push(Instruction::LocalGet(3))
            .push(Instruction::LocalGet(2))
            .push(Instruction::I32GeU)
            .push(Instruction::BrIf(0))
            .push(Instruction::LocalGet(0))
            .push(Instruction::I32Const(4))
            .push(Instruction::I32Add)
            .push(Instruction::LocalGet(3))
            .push(Instruction::I32Add)
            .push(Instruction::I32Load8U(MemArg { offset: 0, align: 0, memory_index: 0 }))
            .push(Instruction::LocalSet(4))
            .push(Instruction::LocalGet(4))
            .push(Instruction::I32Const(43))
            .push(Instruction::I32Eq)
            .push(Instruction::LocalGet(4))
            .push(Instruction::I32Const(45))
            .push(Instruction::I32Eq)
            .push(Instruction::I32Or)
            .push(Instruction::I32Eqz)
            .push(Instruction::BrIf(0))
            .push(Instruction::LocalGet(3))
            .push(Instruction::I32Const(1))
            .push(Instruction::I32Add)
            .push(Instruction::LocalSet(3))
    }

    /// Part 10 of `generate_try_text_to_data_instructions`.
    #[verifier::rlimit(40)]
    #[verifier::spinoff_prover]
    fn generate_try_text_to_data_instructions_10(b: &mut Body, parse_value_index: u32, malloc_index: u32)
        requires
            old(b).wf(),
            old(b).open_blocks() == 4,
            old(b).n_locals() == 9,
        ensures
            final(b).wf(),
            final(b).open_blocks() == 5,
            final(b).n_locals() == 9,
            final(b).instrs() == Self::try_text_to_data_instructions_part_10(old(b).instrs(), parse_value_index, malloc_index),
    {
        proof {
            reveal(JsonClass::try_text_to_data_instructions_part_10);
        }
        b.i(Instruction::LocalSet(3));
        b.i(Instruction::I32Const(0));
        b.i(Instruction::LocalSet(8));
        b.i(Instruction::Block(BlockType::Empty));
        b.i(Instruction::Loop(BlockType::Empty));
        b.i(Instruction::LocalGet(3));
        b.i(Instruction::LocalGet(2));
        b.i(Instruction::I32GeU);
        b.i(Instruction::BrIf(1));
        b.i(Instruction::LocalGet(0));
        b.i(Instruction::I32Const(4));
        b.i(Instruction::I32Add);
        b.i(Instruction::LocalGet(3));
        b.i(Instruction::I32Add);
        b.i(Instruction::I32Load8U(MemArg { offset: 0, align: 0, memory_index: 0 }));
        b.i(Instruction::LocalSet(4));
        b.i(Instruction::LocalGet(4));
        b.i(Instruction::I32Const(48));
        b.i(Instruction::I32GeU);
        b.i(Instruction::LocalGet(4));
        b.i(Instruction::I32Const(57));
        b.i(Instruction::I32LeU);
        b.i(Instruction::I32And);
        b.i(Instruction::I32Eqz);
        b.i(Instruction::BrIf(1));
        b.i(Instruction::LocalGet(3));
        b.i(Instruction::I32Const(1));
        b.i(Instruction::I32Add);
        b.i(Instruction::LocalSet(3));
        b.i(Instruction::LocalGet(8));
        b.i(Instruction::I32Const(1));
        b.i(Instruction::I32Add);
        b.i(Instruction::LocalSet(8));
        b.i(Instruction::Br(0));
        b.i(Instruction::End);
        b.i(Instruction::End);
        b.i(Instruction::LocalGet(8));
        b.i(Instruction::I32Eqz);
        b.i(Instruction::BrIf(3));
        b.i(Instruction::End);
        b.i(Instruction::Block(BlockType::Empty));
        b.i(Instruction::LocalGet(3));
        b.i(Instruction::LocalGet(2));
        b.i(Instruction::I32GeU);
        b.i(Instruction::BrIf(0));
        b.i(Instruction::LocalGet(0));
        b.i(Instruction::I32Const(4));
        b.i(Instruction::I32Add);
        b.i(Instruction::LocalGet(3));
        b.i(Instruction::I32Add);
        b.i(Instruction::I32Load8U(MemArg { offset: 0, align: 0, memory_index: 0 }));
        b.i(Instruction::LocalSet(4));
        b.i(Instruction::LocalGet(4));
        b.i(Instruction::I32Const(101));
        b.i(Instruction::I32Eq);
        b.i(Instruction::LocalGet(4));
        b.i(Instruction::I32Const(69));
        b.i(Instruction::I32Eq);
        b.i(Instruction::I32Or);
        b.i(Instruction::I32Eqz);
        b.i(Instruction::BrIf(0));
        b.i(Instruction::LocalGet(3));
        b.i(Instruction::I32Const(1));
        b.i(Instruction::I32Add);
        b.i(Instruction::LocalSet(3));
        b.i(Instruction::Block(BlockType::Empty));
        b.i(Instruction::LocalGet(3));
        b.i(Instruction::LocalGet(2));
        b.i(Instruction::I32GeU);
        b.i(Instruction::BrIf(0));
        b.i(Instruction::LocalGet(0));
        b.i(Instruction::I32Const(4));
        b.i(Instruction::I32Add);
        b.i(Instruction::LocalGet(3));
        b.i(Instruction::I32Add);
        b.i(Instruction::I32Load8U(MemArg { offset: 0, align: 0, memory_index: 0 }));
        b.i(Instruction::LocalSet(4));
        b.i(Instruction::LocalGet(4));
        b.i(Instruction::I32Const(43));
        b.i(Instruction::I32Eq);
        b.i(Instruction::LocalGet(4));
        b.i(Instruction::I32Const(45));
        b.i(Instruction::I32Eq);
        b.i(Instruction::I32Or);
        b.i(Instruction::I32Eqz);
        b.i(Instruction::BrIf(0));
        b.i(Instruction::LocalGet(3));
        b.i(Instruction::I32Const(1));
        b.i(Instruction::I32Add);
        b.i(Instruction::LocalSet(3));
    }

    /// Part 11 of `try_text_to_data_instructions_body`, after `s`.
    #[verifier::opaque]
    pub open spec fn try_text_to_data_instructions_part_11(s: Seq<Instruction>, parse_value_index: u32, malloc_index: u32) -> Seq<Instruction> {
        s
            .push(Instruction::End)
            .push(Instruction::I32Const(0))
            .push(Instruction::LocalSet(8))
            .push(Instruction::Block(BlockType::Empty))
            .push(Instruction::Loop(BlockType::Empty))
            .push(Instruction::LocalGet(3))
            .push(Instruction::LocalGet(2))
            .push(Instruction::I32GeU)
            .push(Instruction::BrIf(1))
            .push(Instruction::LocalGet(0))
            .push(Instruction::I32Const(4))
            .push(Instruction::I32Add)
            .push(Instruction::LocalGet(3))
            .push(Instruction::I32Add)
            .push(Instruction::I32Load8U(MemArg { offset: 0, align: 0, memory_index: 0 }))
            .push(Instruction::LocalSet(4))
            .push(Instruction::LocalGet(4))
            .push(Instruction::I32Const(48))
            .push(Instruction::I32GeU)
            .push(Instruction::LocalGet(4))
            .push(Instruction::I32Const(57))
            .push(Instruction::I32LeU)
            .push(Instruction::I32And)
            .push(Instruction::I32Eqz)
            .push(Instruction::BrIf(1))
            .push(Instruction::LocalGet(3))
            .push(Instruction::I32Const(1))
            .push(Instruction::I32Add)
            .push(Instruction::LocalSet(3))
            .push(Instruction::LocalGet(8))
            .push(Instruction::I32Const(1))
            .push(Instruction::I32Add)
            .push(Instruction::LocalSet(8))
            .push(Instruction::Br(0))
            .push(Instruction::End)
            .push(Instruction::End)
            .push(Instruction::LocalGet(8))
            .push(Instruction::I32Eqz)
            .push(Instruction::BrIf(3))
            .push(Instruction::End)
            .push(Instruction::Br(0))
            .push(Instruction::End)
            .push(Instruction::End)
            .push(Instruction::LocalGet(7))
            .push(Instruction::I32Const(1))
            .push(Instruction::I32Ne)
            .push(Instruction::LocalGet(5))
            .push(Instruction::I32Const(0))
            .push(Instruction::I32Ne)
            .push(Instruction::I32Or)
            .push(Instruction::BrIf(0))
            .push(Instruction::I32Const(4))
            .push(Instruction::Call(malloc_index))
            .push(Instruction::LocalSet(1))
            .push(Instruction::LocalGet(1))
            .push(Instruction::I32Const(0))
            .push(Instruction::I32Store(MemArg { offset: 0, align: 2, memory_index: 0 }))
            .push(Instruction::LocalGet(0))
            .push(Instruction::LocalGet(1))
            .push(Instruction::LocalGet(2))
            .push(Instruction::Call(parse_value_index))
            .push(Instruction::Return)
            .push(Instruction::End)
            .push(Instruction::I32Const(0))
    }

    /// Part 11 of `generate_try_text_to_data_instructions`.
    #[verifier::rlimit(40)]
    #[verifier::spinoff_prover]
    fn generate_try_text_to_data_instructions_11(b: &mut Body, parse_value_index: u32, malloc_index: u32)
        requires
            old(b).wf(),
            old(b).open_blocks() == 5,
            old(b).n_locals() == 9,
        ensures
            final(b).wf(),
            final(b).open_blocks() == 0,
            final(b).n_locals() == 9,
            final(b).instrs() == Self::try_text_to_data_instructions_part_11(old(b).instrs(), parse_value_index, malloc_index),
    {
        proof {
            reveal(JsonClass::try_text_to_data_instructions_part_11);
        }
        b.i(Instruction::End);
        b.i(Instruction::I32Const(0));
        b.i(Instruction::LocalSet(8));
        b.i(Instruction::Block(BlockType::Empty));
        b.i(Instruction::Loop(BlockType::Empty));
        b.i(Instruction::LocalGet(3));
        b.i(Instruction::LocalGet(2));
        b.i(Instruction::I32GeU);
        b.i(Instruction::BrIf(1));
        b.i(Instruction::LocalGet(0));
        b.i(Instruction::I32Const(4));
        b.i(Instruction::I32Add);
        b.i(Instruction::LocalGet(3));
        b.i(Instruction::I32Add);
        b.i(Instruction::I32Load8U(MemArg { offset: 0, align: 0, memory_index: 0 }));
        b.i(Instruction::LocalSet(4));
        b.i(Instruction::LocalGet(4));
        b.i(Instruction::I32Const(48));
        b.i(Instruction::I32GeU);
        b.i(Instruction::LocalGet(4));
        b.i(Instruction::I32Const(57));
        b.i(Instruction::I32LeU);
        b.i(Instruction::I32And);
        b.i(Instruction::I32Eqz);
        b.i(Instruction::BrIf(1));
        b.i(Instruction::LocalGet(3));
        b.i(Instruction::I32Const(1));
        b.i(Instruction::I32Add);
        b.i(Instruction::LocalSet(3));
        b.i(Instruction::LocalGet(8));
        b.i(Instruction::I32Const(1));
        b.i(Instruction::I32Add);
        b.i(Instruction::LocalSet(8));
        b.i(Instruction::Br(0));
        b.i(Instruction::End);
        b.i(Instruction::End);
        b.i(Instruction::LocalGet(8));
        b.i(Instruction::I32Eqz);
        b.i(Instruction::BrIf(3));
        b.i(Instruction::End);
        b.i(Instruction::Br(0));
        b.i(Instruction::End);
        b.i(Instruction::End);
        // The input ended: it is valid when a complete value was read
        b.i(Instruction::LocalGet(7));
        b.i(Instruction::I32Const(1));
        b.i(Instruction::I32Ne);
        b.i(Instruction::LocalGet(5));
        b.i(Instruction::I32Const(0));
        b.i(Instruction::I32Ne);
        b.i(Instruction::I32Or);
        b.i(Instruction::BrIf(0));
        // Valid: parse it
        b.i(Instruction::I32Const(4));
        b.i(Instruction::Call(malloc_index));
        b.i(Instruction::LocalSet(1));
        b.i(Instruction::LocalGet(1));
        b.i(Instruction::I32Const(0));
        b.i(Instruction::I32Store(MemArg { offset: 0, align: 2, memory_index: 0 }));
        b.i(Instruction::LocalGet(0));
        b.i(Instruction::LocalGet(1));
        b.i(Instruction::LocalGet(2));
        b.i(Instruction::Call(parse_value_index));
        b.i(Instruction::Return);
        b.i(Instruction::End);
        // Invalid JSON: null
        b.i(Instruction::I32Const(0));
    }

    /// The instructions `generate_data_to_text_instructions` returns.
    #[verifier::opaque]
    pub open spec fn data_to_text_instructions_body(stringify_value_idx: u32) -> Seq<Instruction> {
        seq![
            Instruction::LocalGet(0),
            Instruction::Call(stringify_value_idx),
        ]
    }

    /// Generate WASM instructions for json.dataToText
    /// Converts a boxed JSON value back to JSON text string
    ///
    /// Memory layout of boxed values (12 bytes each):
    /// - Null (tag 0):    [tag=0, 0, 0]
    /// - Integer (tag 1): [tag=1, i32_value, 0]
    /// - Boolean (tag 2): [tag=2, bool (0/1), 0]
    /// - Number (tag 3):  [tag=3, f64_lo, f64_hi] (8 bytes for f64)
    /// - String (tag 4):  [tag=4, string_ptr, 0]
    /// - List (tag 5):    [tag=5, array_ptr, 0]
    /// - Object (tag 6):  [tag=6, object_ptr, 0]
    ///
    /// Parameters:
    /// - Local 0: data pointer (parameter)
    /// - Local 1: type_tag
    /// - Local 2: value / temp
    /// - Local 3: result_ptr
    /// - Local 4: temp
    /// - Local 5: string_ptr
    /// - Local 6: f64_value
    fn generate_data_to_text_instructions(&self, stringify_value_idx: u32) -> (r: Vec<Instruction>)
        ensures
            body_ok(r@, 1),
            r@ == Self::data_to_text_instructions_body(stringify_value_idx),
    {
        proof {
            reveal(JsonClass::data_to_text_instructions_body);
        }
        let mut b = Body::new(1);
        // Simply call __json_stringify_value with the boxed_ptr parameter
        b.i(Instruction::LocalGet(0));
        b.i(Instruction::Call(stringify_value_idx));
        b.finish()
    }

    /// The instructions `generate_pretty_data_to_text_instructions` returns.
    #[verifier::opaque]
    pub open spec fn pretty_data_to_text_instructions_body(pretty_stringify_value_idx: u32) -> Seq<Instruction> {
        seq![
            Instruction::LocalGet(0),
            Instruction::I32Const(0),
            Instruction::Call(pretty_stringify_value_idx),
        ]
    }

    /// Generate WASM instructions for json.prettyDataToText
    /// Calls __json_pretty_stringify_value with indent level 0.
    fn generate_pretty_data_to_text_instructions(&self, pretty_stringify_value_idx: u32) -> (r: Vec<Instruction>)
        ensures
            body_ok(r@, 1),
            r@ == Self::pretty_data_to_text_instructions_body(pretty_stringify_value_idx),
    {
        proof {
            reveal(JsonClass::pretty_data_to_text_instructions_body);
        }
        let mut b = Body::new(1);
        b.i(Instruction::LocalGet(0)); // data pointer
        b.i(Instruction::I32Const(0)); // indent = 0
        b.i(Instruction::Call(pretty_stringify_value_idx));
        b.finish()
    }

    /// The instructions `generate_pretty_stringify_value_instructions` returns.
    #[verifier::opaque]
    pub open spec fn pretty_stringify_value_instructions_body(malloc_index: u32, int_to_string_index: u32, float_to_string_index: u32, quote_string_idx: u32, pretty_array_idx: u32, pretty_object_idx: u32, _stringify_array_idx: u32, _stringify_object_idx: u32) -> Seq<Instruction> {
        let s = Self::pretty_stringify_value_instructions_part_1(Seq::<Instruction>::empty(), malloc_index, int_to_string_index, float_to_string_index, quote_string_idx, pretty_array_idx, pretty_object_idx, _stringify_array_idx, _stringify_object_idx);
        Self::pretty_stringify_value_instructions_part_2(s, malloc_index, int_to_string_index, float_to_string_index, quote_string_idx, pretty_array_idx, pretty_object_idx, _stringify_array_idx, _stringify_object_idx)
    }

    /// Generate WASM instructions for __json_pretty_stringify_value
    /// Same dispatch as __json_stringify_value but passes indent to array/object handlers.
    fn generate_pretty_stringify_value_instructions(&self, malloc_index: u32, int_to_string_index: u32, float_to_string_index: u32, quote_string_idx: u32, pretty_array_idx: u32, pretty_object_idx: u32, _stringify_array_idx: u32, _stringify_object_idx: u32) -> (r: Vec<Instruction>)
        ensures
            body_ok(r@, 7),
            r@ == Self::pretty_stringify_value_instructions_body(malloc_index, int_to_string_index, float_to_string_index, quote_string_idx, pretty_array_idx, pretty_object_idx, _stringify_array_idx, _stringify_object_idx),
    {
        let mut b = Body::new(7);
        Self::generate_pretty_stringify_value_instructions_1(&mut b, malloc_index, int_to_string_index, float_to_string_index, quote_string_idx, pretty_array_idx, pretty_object_idx, _stringify_array_idx, _stringify_object_idx);
        Self::generate_pretty_stringify_value_instructions_2(&mut b, malloc_index, int_to_string_index, float_to_string_index, quote_string_idx, pretty_array_idx, pretty_object_idx, _stringify_array_idx, _stringify_object_idx);
        proof {
            reveal(JsonClass::pretty_stringify_value_instructions_body);
        }
        b.finish()
    }

    /// Part 1 of `pretty_stringify_value_instructions_body`, after `s`.
    #[verifier::opaque]
    pub open spec fn pretty_stringify_value_instructions_part_1(s: Seq<Instruction>, malloc_index: u32, int_to_string_index: u32, float_to_string_index: u32, quote_string_idx: u32, pretty_array_idx: u32, pretty_object_idx: u32, _stringify_array_idx: u32, _stringify_object_idx: u32) -> Seq<Instruction> {
        s
            .push(Instruction::LocalGet(0))
            .push(Instruction::I32Eqz)
            .push(Instruction::If(BlockType::Result(ValType::I32)))
            .push(Instruction::I32Const(8))
            .push(Instruction::Call(malloc_index))
            .push(Instruction::LocalTee(4))
            .push(Instruction::I32Const(4))
            .push(Instruction::I32Store(MemArg { offset: 0, align: 2, memory_index: 0 }))
            .push(Instruction::LocalGet(4))
            .push(Instruction::I32Const(0x6C6C756E))
            .push(Instruction::I32Store(MemArg { offset: 4, align: 2, memory_index: 0 }))
            .push(Instruction::LocalGet(4))
            .push(Instruction::Else)
            .push(Instruction::LocalGet(0))
            .push(Instruction::I32Load(MemArg { offset: 0, align: 2, memory_index: 0 }))
            .push(Instruction::LocalSet(2))
            .push(Instruction::LocalGet(2))
            .push(Instruction::I32Eqz)
            .push(Instruction::If(BlockType::Result(ValType::I32)))
            .push(Instruction::I32Const(8))
            .push(Instruction::Call(malloc_index))
            .push(Instruction::LocalTee(4))
            .push(Instruction::I32Const(4))
            .push(Instruction::I32Store(MemArg { offset: 0, align: 2, memory_index: 0 }))
            .push(Instruction::LocalGet(4))
            .push(Instruction::I32Const(0x6C6C756E))
            .push(Instruction::I32Store(MemArg { offset: 4, align: 2, memory_index: 0 }))
            .push(Instruction::LocalGet(4))
            .push(Instruction::Else)
            .push(Instruction::LocalGet(2))
            .push(Instruction::I32Const(1))
            .push(Instruction::I32Eq)
            .push(Instruction::If(BlockType::Result(ValType::I32)))
            .push(Instruction::LocalGet(0))
            .push(Instruction::I32Load(MemArg { offset: 4, align: 2, memory_index: 0 }))
            .push(Instruction::Call(int_to_string_index))
            .push(Instruction::Else)
            .push(Instruction::LocalGet(2))
            .push(Instruction::I32Const(2))
            .push(Instruction::I32Eq)
            .push(Instruction::If(BlockType::Result(ValType::I32)))
            .push(Instruction::LocalGet(0))
            .push(Instruction::I32Load(MemArg { offset: 4, align: 2, memory_index: 0 }))
            .push(Instruction::If(BlockType::Result(ValType::I32)))
            .push(Instruction::I32Const(8))
            .push(Instruction::Call(malloc_index))
            .push(Instruction::LocalTee(4))
            .push(Instruction::I32Const(4))
            .push(Instruction::I32Store(MemArg { offset: 0, align: 2, memory_index: 0 }))
            .push(Instruction::LocalGet(4))
            .push(Instruction::I32Const(0x65757274))
            .push(Instruction::I32Store(MemArg { offset: 4, align: 2, memory_index: 0 }))
            .push(Instruction::LocalGet(4))
            .push(Instruction::Else)
            .push(Instruction::I32Const(9))
            .push(Instruction::Call(malloc_index))
            .push(Instruction::LocalTee(4))
            .push(Instruction::I32Const(5))
            .push(Instruction::I32Store(MemArg { offset: 0, align: 2, memory_index: 0 }))
            .push(Instruction::LocalGet(4))
            .push(Instruction::I32Const(0x736C6166))
            .push(Instruction::I32Store(MemArg { offset: 4, align: 2, memory_index: 0 }))
            .push(Instruction::LocalGet(4))
            .push(Instruction::I32Const(101))
            .push(Instruction::I32Store8(MemArg { offset: 8, align: 0, memory_index: 0 }))
            .push(Instruction::LocalGet(4))
            .push(Instruction::End)
            .push(Instruction::Else)
            .push(Instruction::LocalGet(2))
            .push(Instruction::I32Const(3))
            .push(Instruction::I32Eq)
            .push(Instruction::If(BlockType::Result(ValType::I32)))
            .push(Instruction::LocalGet(0))
            .push(Instruction::F64Load(MemArg { offset: 4, align: 3, memory_index: 0 }))
            .push(Instruction::Call(float_to_string_index))
            .push(Instruction::Else)
            .push(Instruction::LocalGet(2))
            .push(Instruction::I32Const(4))
            .push(Instruction::I32Eq)
            .push(Instruction::If(BlockType::Result(ValType::I32)))
            .push(Instruction::LocalGet(0))
            .push(Instruction::I32Load(MemArg { offset: 4, align: 2, memory_index: 0 }))
            .push(Instruction::Call(quote_string_idx))
            .push(Instruction::Else)
            .push(Instruction::LocalGet(2))
            .push(Instruction::I32Const(5))
            .push(Instruction::I32Eq)
            .push(Instruction::If(BlockType::Result(ValType::I32)))
            .push(Instruction::LocalGet(0))
            .push(Instruction::I32Load(MemArg { offset: 4, align: 2, memory_index: 0 }))
    }

    /// Part 1 of `generate_pretty_stringify_value_instructions`.
    #[verifier::rlimit(40)]
    #[verifier::spinoff_prover]
    fn generate_pretty_stringify_value_instructions_1(b: &mut Body, malloc_index: u32, int_to_string_index: u32, float_to_string_index: u32, quote_string_idx: u32, pretty_array_idx: u32, pretty_object_idx: u32, _stringify_array_idx: u32, _stringify_object_idx: u32)
        requires
            old(b).wf(),
            old(b).open_blocks() == 0,
            old(b).n_locals() == 7,
        ensures
            final(b).wf(),
            final(b).open_blocks() == 7,
            final(b).n_locals() == 7,
            final(b).instrs() == Self::pretty_stringify_value_instructions_part_1(old(b).instrs(), malloc_index, int_to_string_index, float_to_string_index, quote_string_idx, pretty_array_idx, pretty_object_idx, _stringify_array_idx, _stringify_object_idx),
    {
        proof {
            reveal(JsonClass::pretty_stringify_value_instructions_part_1);
        }
        // Parameters: Local 0 = boxed_ptr, Local 1 = indent_level
        // Working:    Local 2 = type_tag, Local 3 = value, Local 4 = result_ptr, Local 5 = temp, Local 6 = f64_value
        // null pointer → return "null"
        b.i(Instruction::LocalGet(0));
        b.i(Instruction::I32Eqz);
        b.i(Instruction::If(BlockType::Result(ValType::I32)));
        b.i(Instruction::I32Const(8));
        b.i(Instruction::Call(malloc_index));
        b.i(Instruction::LocalTee(4));
        b.i(Instruction::I32Const(4));
        b.i(Instruction::I32Store(MemArg { offset: 0, align: 2, memory_index: 0 }));
        b.i(Instruction::LocalGet(4));
        b.i(Instruction::I32Const(0x6C6C756E)); // "null"
        b.i(Instruction::I32Store(MemArg { offset: 4, align: 2, memory_index: 0 }));
        b.i(Instruction::LocalGet(4));
        b.i(Instruction::Else);
        // Read type tag
        b.i(Instruction::LocalGet(0));
        b.i(Instruction::I32Load(MemArg { offset: 0, align: 2, memory_index: 0 }));
        b.i(Instruction::LocalSet(2)); // type_tag
        // Tag 0: Null
        b.i(Instruction::LocalGet(2));
        b.i(Instruction::I32Eqz);
        b.i(Instruction::If(BlockType::Result(ValType::I32)));
        b.i(Instruction::I32Const(8));
        b.i(Instruction::Call(malloc_index));
        b.i(Instruction::LocalTee(4));
        b.i(Instruction::I32Const(4));
        b.i(Instruction::I32Store(MemArg { offset: 0, align: 2, memory_index: 0 }));
        b.i(Instruction::LocalGet(4));
        b.i(Instruction::I32Const(0x6C6C756E));
        b.i(Instruction::I32Store(MemArg { offset: 4, align: 2, memory_index: 0 }));
        b.i(Instruction::LocalGet(4));
        b.i(Instruction::Else);
        // Tag 1: Integer
        b.i(Instruction::LocalGet(2));
        b.i(Instruction::I32Const(1));
        b.i(Instruction::I32Eq);
        b.i(Instruction::If(BlockType::Result(ValType::I32)));
        b.i(Instruction::LocalGet(0));
        b.i(Instruction::I32Load(MemArg { offset: 4, align: 2, memory_index: 0 }));
        b.i(Instruction::Call(int_to_string_index));
        b.i(Instruction::Else);
        // Tag 2: Boolean
        b.i(Instruction::LocalGet(2));
        b.i(Instruction::I32Const(2));
        b.i(Instruction::I32Eq);
        b.i(Instruction::If(BlockType::Result(ValType::I32)));
        b.i(Instruction::LocalGet(0));
        b.i(Instruction::I32Load(MemArg { offset: 4, align: 2, memory_index: 0 }));
        b.i(Instruction::If(BlockType::Result(ValType::I32)));
        // true
        b.i(Instruction::I32Const(8));
        b.i(Instruction::Call(malloc_index));
        b.i(Instruction::LocalTee(4));
        b.i(Instruction::I32Const(4));
        b.i(Instruction::I32Store(MemArg { offset: 0, align: 2, memory_index: 0 }));
        b.i(Instruction::LocalGet(4));
        b.i(Instruction::I32Const(0x65757274));
        b.i(Instruction::I32Store(MemArg { offset: 4, align: 2, memory_index: 0 }));
        b.i(Instruction::LocalGet(4));
        b.i(Instruction::Else);
        // false
        b.i(Instruction::I32Const(9));
        b.i(Instruction::Call(malloc_index));
        b.i(Instruction::LocalTee(4));
        b.i(Instruction::I32Const(5));
        b.i(Instruction::I32Store(MemArg { offset: 0, align: 2, memory_index: 0 }));
        b.i(Instruction::LocalGet(4));
        b.i(Instruction::I32Const(0x736C6166));
        b.i(Instruction::I32Store(MemArg { offset: 4, align: 2, memory_index: 0 }));
        b.i(Instruction::LocalGet(4));
        b.i(Instruction::I32Const(101)); // 'e'
        b.i(Instruction::I32Store8(MemArg { offset: 8, align: 0, memory_index: 0 }));
        b.i(Instruction::LocalGet(4));
        b.i(Instruction::End);
        b.i(Instruction::Else);
        // Tag 3: Number
        b.i(Instruction::LocalGet(2));
        b.i(Instruction::I32Const(3));
        b.i(Instruction::I32Eq);
        b.i(Instruction::If(BlockType::Result(ValType::I32)));
        b.i(Instruction::LocalGet(0));
        b.i(Instruction::F64Load(MemArg { offset: 4, align: 3, memory_index: 0 }));
        b.i(Instruction::Call(float_to_string_index));
        b.i(Instruction::Else);
        // Tag 4: String
        b.i(Instruction::LocalGet(2));
        b.i(Instruction::I32Const(4));
        b.i(Instruction::I32Eq);
        b.i(Instruction::If(BlockType::Result(ValType::I32)));
        b.i(Instruction::LocalGet(0));
        b.i(Instruction::I32Load(MemArg { offset: 4, align: 2, memory_index: 0 }));
        b.i(Instruction::Call(quote_string_idx));
        b.i(Instruction::Else);
        // Tag 5: List/Array — use pretty version
        b.i(Instruction::LocalGet(2));
        b.i(Instruction::I32Const(5));
        b.i(Instruction::I32Eq);
        b.i(Instruction::If(BlockType::Result(ValType::I32)));
        b.i(Instruction::LocalGet(0));
        b.i(Instruction::I32Load(MemArg { offset: 4, align: 2, memory_index: 0 }));
    }

    /// Part 2 of `pretty_stringify_value_instructions_body`, after `s`.
    #[verifier::opaque]
    pub open spec fn pretty_stringify_value_instructions_part_2(s: Seq<Instruction>, malloc_index: u32, int_to_string_index: u32, float_to_string_index: u32, quote_string_idx: u32, pretty_array_idx: u32, pretty_object_idx: u32, _stringify_array_idx: u32, _stringify_object_idx: u32) -> Seq<Instruction> {
        s
            .push(Instruction::LocalGet(1))
            .push(Instruction::Call(pretty_array_idx))
            .push(Instruction::Else)
            .push(Instruction::LocalGet(2))
            .push(Instruction::I32Const(6))
            .push(Instruction::I32Eq)
            .push(Instruction::If(BlockType::Result(ValType::I32)))
            .push(Instruction::LocalGet(0))
            .push(Instruction::I32Load(MemArg { offset: 4, align: 2, memory_index: 0 }))
            .push(Instruction::LocalGet(1))
            .push(Instruction::Call(pretty_object_idx))
            .push(Instruction::Else)
            .push(Instruction::I32Const(8))
            .push(Instruction::Call(malloc_index))
            .push(Instruction::LocalTee(4))
            .push(Instruction::I32Const(4))
            .push(Instruction::I32Store(MemArg { offset: 0, align: 2, memory_index: 0 }))
            .push(Instruction::LocalGet(4))
            .push(Instruction::I32Const(0x6C6C756E))
            .push(Instruction::I32Store(MemArg { offset: 4, align: 2, memory_index: 0 }))
            .push(Instruction::LocalGet(4))
            .push(Instruction::End)
            .push(Instruction::End)
            .push(Instruction::End)
            .push(Instruction::End)
            .push(Instruction::End)
            .push(Instruction::End)
            .push(Instruction::End)
            .push(Instruction::End)
    }

    /// Part 2 of `generate_pretty_stringify_value_instructions`.
    fn generate_pretty_stringify_value_instructions_2(b: &mut Body, malloc_index: u32, int_to_string_index: u32, float_to_string_index: u32, quote_string_idx: u32, pretty_array_idx: u32, pretty_object_idx: u32, _stringify_array_idx: u32, _stringify_object_idx: u32)
        requires
            old(b).wf(),
            old(b).open_blocks() == 7,
            old(b).n_locals() == 7,
        ensures
            final(b).wf(),
            final(b).open_blocks() == 0,
            final(b).n_locals() == 7,
            final(b).instrs() == Self::pretty_stringify_value_instructions_part_2(old(b).instrs(), malloc_index, int_to_string_index, float_to_string_index, quote_string_idx, pretty_array_idx, pretty_object_idx, _stringify_array_idx, _stringify_object_idx),
    {
        proof {
            reveal(JsonClass::pretty_stringify_value_instructions_part_2);
        }
        b.i(Instruction::LocalGet(1)); // indent_level
        b.i(Instruction::Call(pretty_array_idx));
        b.i(Instruction::Else);
        // Tag 6: Object — use pretty version
        b.i(Instruction::LocalGet(2));
        b.i(Instruction::I32Const(6));
        b.i(Instruction::I32Eq);
        b.i(Instruction::If(BlockType::Result(ValType::I32)));
        b.i(Instruction::LocalGet(0));
        b.i(Instruction::I32Load(MemArg { offset: 4, align: 2, memory_index: 0 }));
        b.i(Instruction::LocalGet(1)); // indent_level
        b.i(Instruction::Call(pretty_object_idx));
        b.i(Instruction::Else);
        // Unknown type → "null"
        b.i(Instruction::I32Const(8));
        b.i(Instruction::Call(malloc_index));
        b.i(Instruction::LocalTee(4));
        b.i(Instruction::I32Const(4));
        b.i(Instruction::I32Store(MemArg { offset: 0, align: 2, memory_index: 0 }));
        b.i(Instruction::LocalGet(4));
        b.i(Instruction::I32Const(0x6C6C756E));
        b.i(Instruction::I32Store(MemArg { offset: 4, align: 2, memory_index: 0 }));
        b.i(Instruction::LocalGet(4));
        b.i(Instruction::End); // tag 6
        b.i(Instruction::End); // tag 5
        b.i(Instruction::End); // tag 4
        b.i(Instruction::End); // tag 3
        b.i(Instruction::End); // tag 2
        b.i(Instruction::End); // tag 1
        b.i(Instruction::End); // tag 0
        b.i(Instruction::End); // null check
    }

    /// The instructions `generate_pretty_stringify_array_instructions` returns.
    #[verifier::opaque]
    pub open spec fn pretty_stringify_array_instructions_body(malloc_index: u32, string_concat_index: u32, pretty_value_idx: u32) -> Seq<Instruction> {
        let s = Self::pretty_stringify_array_instructions_part_1(Seq::<Instruction>::empty(), malloc_index, string_concat_index, pretty_value_idx);
        Self::pretty_stringify_array_instructions_part_2(s, malloc_index, string_concat_index, pretty_value_idx)
    }

    /// Generate WASM instructions for __json_pretty_stringify_array
    /// Produces `[\n  value,\n  value\n]` with `(indent+1)*2` spaces per element line
    /// and `indent*2` spaces for the closing bracket.
    fn generate_pretty_stringify_array_instructions(&self, malloc_index: u32, string_concat_index: u32, pretty_value_idx: u32) -> (r: Vec<Instruction>)
        ensures
            body_ok(r@, 11),
            r@ == Self::pretty_stringify_array_instructions_body(malloc_index, string_concat_index, pretty_value_idx),
    {
        let mut b = Body::new(11);
        Self::generate_pretty_stringify_array_instructions_1(&mut b, malloc_index, string_concat_index, pretty_value_idx);
        Self::generate_pretty_stringify_array_instructions_2(&mut b, malloc_index, string_concat_index, pretty_value_idx);
        proof {
            reveal(JsonClass::pretty_stringify_array_instructions_body);
        }
        b.finish()
    }

    /// Part 1 of `pretty_stringify_array_instructions_body`, after `s`.
    #[verifier::opaque]
    pub open spec fn pretty_stringify_array_instructions_part_1(s: Seq<Instruction>, malloc_index: u32, string_concat_index: u32, pretty_value_idx: u32) -> Seq<Instruction> {
        s
            .push(Instruction::LocalGet(0))
            .push(Instruction::I32Load(MemArg { offset: 0, align: 2, memory_index: 0 }))
            .push(Instruction::LocalSet(2))
            .push(Instruction::LocalGet(2))
            .push(Instruction::I32Eqz)
            .push(Instruction::If(BlockType::Result(ValType::I32)))
            .push(Instruction::I32Const(6))
            .push(Instruction::Call(malloc_index))
            .push(Instruction::LocalTee(7))
            .push(Instruction::I32Const(2))
            .push(Instruction::I32Store(MemArg { offset: 0, align: 2, memory_index: 0 }))
            .push(Instruction::LocalGet(7))
            .push(Instruction::I32Const(91))
            .push(Instruction::I32Store8(MemArg { offset: 4, align: 0, memory_index: 0 }))
            .push(Instruction::LocalGet(7))
            .push(Instruction::I32Const(93))
            .push(Instruction::I32Store8(MemArg { offset: 5, align: 0, memory_index: 0 }))
            .push(Instruction::LocalGet(7))
            .push(Instruction::Else)
            .push(Instruction::LocalGet(1))
            .push(Instruction::I32Const(1))
            .push(Instruction::I32Add)
            .push(Instruction::I32Const(2))
            .push(Instruction::I32Mul)
            .push(Instruction::I32Const(1))
            .push(Instruction::I32Add)
            .push(Instruction::LocalSet(7))
            .push(Instruction::I32Const(4))
            .push(Instruction::LocalGet(7))
            .push(Instruction::I32Add)
            .push(Instruction::Call(malloc_index))
            .push(Instruction::LocalSet(9))
            .push(Instruction::LocalGet(9))
            .push(Instruction::LocalGet(7))
            .push(Instruction::I32Store(MemArg { offset: 0, align: 2, memory_index: 0 }))
            .push(Instruction::LocalGet(9))
            .push(Instruction::I32Const(10))
            .push(Instruction::I32Store8(MemArg { offset: 4, align: 0, memory_index: 0 }))
            .push(Instruction::I32Const(1))
            .push(Instruction::LocalSet(3))
            .push(Instruction::Block(BlockType::Empty))
            .push(Instruction::Loop(BlockType::Empty))
            .push(Instruction::LocalGet(3))
            .push(Instruction::LocalGet(7))
            .push(Instruction::I32GeU)
            .push(Instruction::BrIf(1))
            .push(Instruction::LocalGet(9))
            .push(Instruction::I32Const(4))
            .push(Instruction::I32Add)
            .push(Instruction::LocalGet(3))
            .push(Instruction::I32Add)
            .push(Instruction::I32Const(32))
            .push(Instruction::I32Store8(MemArg { offset: 0, align: 0, memory_index: 0 }))
            .push(Instruction::LocalGet(3))
            .push(Instruction::I32Const(1))
            .push(Instruction::I32Add)
            .push(Instruction::LocalSet(3))
            .push(Instruction::Br(0))
            .push(Instruction::End)
            .push(Instruction::End)
            .push(Instruction::LocalGet(1))
            .push(Instruction::I32Const(2))
            .push(Instruction::I32Mul)
            .push(Instruction::I32Const(1))
            .push(Instruction::I32Add)
            .push(Instruction::LocalSet(7))
            .push(Instruction::I32Const(4))
            .push(Instruction::LocalGet(7))
            .push(Instruction::I32Add)
            .push(Instruction::Call(malloc_index))
            .push(Instruction::LocalSet(10))
            .push(Instruction::LocalGet(10))
            .push(Instruction::LocalGet(7))
            .push(Instruction::I32Store(MemArg { offset: 0, align: 2, memory_index: 0 }))
            .push(Instruction::LocalGet(10))
            .push(Instruction::I32Const(10))
            .push(Instruction::I32Store8(MemArg { offset: 4, align: 0, memory_index: 0 }))
            .push(Instruction::I32Const(1))
            .push(Instruction::LocalSet(3))
            .push(Instruction::Block(BlockType::Empty))
            .push(Instruction::Loop(BlockType::Empty))
            .push(Instruction::LocalGet(3))
            .push(Instruction::LocalGet(7))
            .push(Instruction::I32GeU)
            .push(Instruction::BrIf(1))
            .push(Instruction::LocalGet(10))
            .push(Instruction::I32Const(4))
            .push(Instruction::I32Add)
            .push(Instruction::LocalGet(3))
            .push(Instruction::I32Add)
    }

    /// Part 1 of `generate_pretty_stringify_array_instructions`.
    #[verifier::rlimit(40)]
    #[verifier::spinoff_prover]
    fn generate_pretty_stringify_array_instructions_1(b: &mut Body, malloc_index: u32, string_concat_index: u32, pretty_value_idx: u32)
        requires
            old(b).wf(),
            old(b).open_blocks() == 0,
            old(b).n_locals() == 11,
        ensures
            final(b).wf(),
            final(b).open_blocks() == 3,
            final(b).n_locals() == 11,
            final(b).instrs() == Self::pretty_stringify_array_instructions_part_1(old(b).instrs(), malloc_index, string_concat_index, pretty_value_idx),
    {
        proof {
            reveal(JsonClass::pretty_stringify_array_instructions_part_1);
        }
        // Parameters: Local 0 = array_ptr, Local 1 = indent_level
        // Working:    Local 2=count, Local 3=i, Local 4=result, Local 5=elem_ptr,
        // Local 6=elem_str, Local 7=temp, Local 8=boxed_ptr,
        // Local 9=indent_str (for elements), Local 10=closing_indent_str
        // Read count
        b.i(Instruction::LocalGet(0));
        b.i(Instruction::I32Load(MemArg { offset: 0, align: 2, memory_index: 0 }));
        b.i(Instruction::LocalSet(2)); // count
        // Empty array → return "[]"
        b.i(Instruction::LocalGet(2));
        b.i(Instruction::I32Eqz);
        b.i(Instruction::If(BlockType::Result(ValType::I32)));
        b.i(Instruction::I32Const(6));
        b.i(Instruction::Call(malloc_index));
        b.i(Instruction::LocalTee(7));
        b.i(Instruction::I32Const(2));
        b.i(Instruction::I32Store(MemArg { offset: 0, align: 2, memory_index: 0 }));
        b.i(Instruction::LocalGet(7));
        b.i(Instruction::I32Const(91)); // '['
        b.i(Instruction::I32Store8(MemArg { offset: 4, align: 0, memory_index: 0 }));
        b.i(Instruction::LocalGet(7));
        b.i(Instruction::I32Const(93)); // ']'
        b.i(Instruction::I32Store8(MemArg { offset: 5, align: 0, memory_index: 0 }));
        b.i(Instruction::LocalGet(7));
        b.i(Instruction::Else);
        // Build element-indent string: "\n" + (indent+1)*2 spaces
        // byte_count = 1 (newline) + (indent+1)*2
        b.i(Instruction::LocalGet(1));
        b.i(Instruction::I32Const(1));
        b.i(Instruction::I32Add);
        b.i(Instruction::I32Const(2));
        b.i(Instruction::I32Mul);
        b.i(Instruction::I32Const(1));
        b.i(Instruction::I32Add); // total = 1 + (indent+1)*2
        b.i(Instruction::LocalSet(7)); // save byte count
        // allocate indent_str
        b.i(Instruction::I32Const(4));
        b.i(Instruction::LocalGet(7));
        b.i(Instruction::I32Add);
        b.i(Instruction::Call(malloc_index));
        b.i(Instruction::LocalSet(9)); // indent_str (for element lines)
        // store length
        b.i(Instruction::LocalGet(9));
        b.i(Instruction::LocalGet(7));
        b.i(Instruction::I32Store(MemArg { offset: 0, align: 2, memory_index: 0 }));
        // write '\n' as first byte
        b.i(Instruction::LocalGet(9));
        b.i(Instruction::I32Const(10)); // '\n'
        b.i(Instruction::I32Store8(MemArg { offset: 4, align: 0, memory_index: 0 }));
        // fill remaining bytes with spaces using a loop
        // reuse local 3 (i) as write offset starting at 1
        b.i(Instruction::I32Const(1));
        b.i(Instruction::LocalSet(3));
        b.i(Instruction::Block(BlockType::Empty));
        b.i(Instruction::Loop(BlockType::Empty));
        b.i(Instruction::LocalGet(3));
        b.i(Instruction::LocalGet(7));
        b.i(Instruction::I32GeU);
        b.i(Instruction::BrIf(1));
        b.i(Instruction::LocalGet(9));
        b.i(Instruction::I32Const(4));
        b.i(Instruction::I32Add);
        b.i(Instruction::LocalGet(3));
        b.i(Instruction::I32Add);
        b.i(Instruction::I32Const(32)); // ' '
        b.i(Instruction::I32Store8(MemArg { offset: 0, align: 0, memory_index: 0 }));
        b.i(Instruction::LocalGet(3));
        b.i(Instruction::I32Const(1));
        b.i(Instruction::I32Add);
        b.i(Instruction::LocalSet(3));
        b.i(Instruction::Br(0));
        b.i(Instruction::End);
        b.i(Instruction::End);
        // Build closing-indent string: "\n" + indent*2 spaces
        b.i(Instruction::LocalGet(1));
        b.i(Instruction::I32Const(2));
        b.i(Instruction::I32Mul);
        b.i(Instruction::I32Const(1));
        b.i(Instruction::I32Add); // total = 1 + indent*2
        b.i(Instruction::LocalSet(7));
        b.i(Instruction::I32Const(4));
        b.i(Instruction::LocalGet(7));
        b.i(Instruction::I32Add);
        b.i(Instruction::Call(malloc_index));
        b.i(Instruction::LocalSet(10)); // closing_indent_str
        b.i(Instruction::LocalGet(10));
        b.i(Instruction::LocalGet(7));
        b.i(Instruction::I32Store(MemArg { offset: 0, align: 2, memory_index: 0 }));
        b.i(Instruction::LocalGet(10));
        b.i(Instruction::I32Const(10)); // '\n'
        b.i(Instruction::I32Store8(MemArg { offset: 4, align: 0, memory_index: 0 }));
        b.i(Instruction::I32Const(1));
        b.i(Instruction::LocalSet(3));
        b.i(Instruction::Block(BlockType::Empty));
        b.i(Instruction::Loop(BlockType::Empty));
        b.i(Instruction::LocalGet(3));
        b.i(Instruction::LocalGet(7));
        b.i(Instruction::I32GeU);
        b.i(Instruction::BrIf(1));
        b.i(Instruction::LocalGet(10));
        b.i(Instruction::I32Const(4));
        b.i(Instruction::I32Add);
        b.i(Instruction::LocalGet(3));
        b.i(Instruction::I32Add);
    }

    /// Part 2 of `pretty_stringify_array_instructions_body`, after `s`.
    #[verifier::opaque]
    pub open spec fn pretty_stringify_array_instructions_part_2(s: Seq<Instruction>, malloc_index: u32, string_concat_index: u32, pretty_value_idx: u32) -> Seq<Instruction> {
        (s
            .push(Instruction::I32Const(32))
            .push(Instruction::I32Store8(MemArg { offset: 0, align: 0, memory_index: 0 }))
            .push(Instruction::LocalGet(3))
            .push(Instruction::I32Const(1))
            .push(Instruction::I32Add)
            .push(Instruction::LocalSet(3))
            .push(Instruction::Br(0))
            .push(Instruction::End)
            .push(Instruction::End)
            .push(Instruction::I32Const(5))
            .push(Instruction::Call(malloc_index))
            .push(Instruction::LocalTee(4))
            .push(Instruction::I32Const(1))
            .push(Instruction::I32Store(MemArg { offset: 0, align: 2, memory_index: 0 }))
            .push(Instruction::LocalGet(4))
            .push(Instruction::I32Const(91))
            .push(Instruction::I32Store8(MemArg { offset: 4, align: 0, memory_index: 0 }))
            .push(Instruction::I32Const(0))
            .push(Instruction::LocalSet(3))
            .push(Instruction::Block(BlockType::Empty))
            .push(Instruction::Loop(BlockType::Empty))
            .push(Instruction::LocalGet(3))
            .push(Instruction::LocalGet(2))
            .push(Instruction::I32GeU)
            .push(Instruction::BrIf(1))
            .push(Instruction::LocalGet(3))
            .push(Instruction::If(BlockType::Empty))
            .push(Instruction::I32Const(5))
            .push(Instruction::Call(malloc_index))
            .push(Instruction::LocalTee(7))
            .push(Instruction::I32Const(1))
            .push(Instruction::I32Store(MemArg { offset: 0, align: 2, memory_index: 0 }))
            .push(Instruction::LocalGet(7))
            .push(Instruction::I32Const(44))
            .push(Instruction::I32Store8(MemArg { offset: 4, align: 0, memory_index: 0 }))
            .push(Instruction::LocalGet(4))
            .push(Instruction::LocalGet(7))
            .push(Instruction::Call(string_concat_index))
            .push(Instruction::LocalSet(4))
            .push(Instruction::End)
            .push(Instruction::LocalGet(4))
            .push(Instruction::LocalGet(9))
            .push(Instruction::Call(string_concat_index))
            .push(Instruction::LocalSet(4))
            .push(Instruction::LocalGet(0))
            .push(Instruction::LocalGet(3))
            .push(Instruction::I32Const(2))
            .push(Instruction::I32Shl)
            .push(Instruction::I32Add)
            .push(Instruction::I32Load(MemArg { offset: 4, align: 2, memory_index: 0 }))
            .push(Instruction::LocalSet(5))
            + Self::compact_bool_box_inplace_body(5, 8, malloc_index))
            .push(Instruction::LocalGet(5))
            .push(Instruction::LocalGet(1))
            .push(Instruction::I32Const(1))
            .push(Instruction::I32Add)
            .push(Instruction::Call(pretty_value_idx))
            .push(Instruction::LocalSet(6))
            .push(Instruction::LocalGet(4))
            .push(Instruction::LocalGet(6))
            .push(Instruction::Call(string_concat_index))
            .push(Instruction::LocalSet(4))
            .push(Instruction::LocalGet(3))
            .push(Instruction::I32Const(1))
            .push(Instruction::I32Add)
            .push(Instruction::LocalSet(3))
            .push(Instruction::Br(0))
            .push(Instruction::End)
            .push(Instruction::End)
            .push(Instruction::LocalGet(4))
            .push(Instruction::LocalGet(10))
            .push(Instruction::Call(string_concat_index))
            .push(Instruction::LocalSet(4))
            .push(Instruction::I32Const(5))
            .push(Instruction::Call(malloc_index))
            .push(Instruction::LocalTee(7))
            .push(Instruction::I32Const(1))
            .push(Instruction::I32Store(MemArg { offset: 0, align: 2, memory_index: 0 }))
            .push(Instruction::LocalGet(7))
            .push(Instruction::I32Const(93))
            .push(Instruction::I32Store8(MemArg { offset: 4, align: 0, memory_index: 0 }))
            .push(Instruction::LocalGet(4))
            .push(Instruction::LocalGet(7))
            .push(Instruction::Call(string_concat_index))
            .push(Instruction::End)
    }

    /// Part 2 of `generate_pretty_stringify_array_instructions`.
    #[verifier::rlimit(40)]
    #[verifier::spinoff_prover]
    fn generate_pretty_stringify_array_instructions_2(b: &mut Body, malloc_index: u32, string_concat_index: u32, pretty_value_idx: u32)
        requires
            old(b).wf(),
            old(b).open_blocks() == 3,
            old(b).n_locals() == 11,
        ensures
            final(b).wf(),
            final(b).open_blocks() == 0,
            final(b).n_locals() == 11,
            final(b).instrs() == Self::pretty_stringify_array_instructions_part_2(old(b).instrs(), malloc_index, string_concat_index, pretty_value_idx),
    {
        proof {
            reveal(JsonClass::pretty_stringify_array_instructions_part_2);
        }
        b.i(Instruction::I32Const(32)); // ' '
        b.i(Instruction::I32Store8(MemArg { offset: 0, align: 0, memory_index: 0 }));
        b.i(Instruction::LocalGet(3));
        b.i(Instruction::I32Const(1));
        b.i(Instruction::I32Add);
        b.i(Instruction::LocalSet(3));
        b.i(Instruction::Br(0));
        b.i(Instruction::End);
        b.i(Instruction::End);
        // result = "["
        b.i(Instruction::I32Const(5));
        b.i(Instruction::Call(malloc_index));
        b.i(Instruction::LocalTee(4)); // result
        b.i(Instruction::I32Const(1));
        b.i(Instruction::I32Store(MemArg { offset: 0, align: 2, memory_index: 0 }));
        b.i(Instruction::LocalGet(4));
        b.i(Instruction::I32Const(91)); // '['
        b.i(Instruction::I32Store8(MemArg { offset: 4, align: 0, memory_index: 0 }));
        // i = 0
        b.i(Instruction::I32Const(0));
        b.i(Instruction::LocalSet(3));
        // Loop over elements
        b.i(Instruction::Block(BlockType::Empty));
        b.i(Instruction::Loop(BlockType::Empty));
        b.i(Instruction::LocalGet(3));
        b.i(Instruction::LocalGet(2));
        b.i(Instruction::I32GeU);
        b.i(Instruction::BrIf(1));
        // If i > 0, append ","
        b.i(Instruction::LocalGet(3));
        b.i(Instruction::If(BlockType::Empty));
        b.i(Instruction::I32Const(5));
        b.i(Instruction::Call(malloc_index));
        b.i(Instruction::LocalTee(7));
        b.i(Instruction::I32Const(1));
        b.i(Instruction::I32Store(MemArg { offset: 0, align: 2, memory_index: 0 }));
        b.i(Instruction::LocalGet(7));
        b.i(Instruction::I32Const(44)); // ','
        b.i(Instruction::I32Store8(MemArg { offset: 4, align: 0, memory_index: 0 }));
        b.i(Instruction::LocalGet(4));
        b.i(Instruction::LocalGet(7));
        b.i(Instruction::Call(string_concat_index));
        b.i(Instruction::LocalSet(4));
        b.i(Instruction::End);
        // Append element-indent string
        b.i(Instruction::LocalGet(4));
        b.i(Instruction::LocalGet(9));
        b.i(Instruction::Call(string_concat_index));
        b.i(Instruction::LocalSet(4));
        // Load elem_ptr
        b.i(Instruction::LocalGet(0));
        b.i(Instruction::LocalGet(3));
        b.i(Instruction::I32Const(2));
        b.i(Instruction::I32Shl); // i * 4
        b.i(Instruction::I32Add);
        b.i(Instruction::I32Load(MemArg { offset: 4, align: 2, memory_index: 0 }));
        b.i(Instruction::LocalSet(5));
        let frag = Self::compact_bool_box_inplace(5, 8, malloc_index);
        proof {
            lemma_body_ok_more_locals(frag@, 9, 11);
        }
        b.extend(frag);
        // elem_str = pretty_stringify_value(elem_ptr, indent+1)
        b.i(Instruction::LocalGet(5));
        b.i(Instruction::LocalGet(1));
        b.i(Instruction::I32Const(1));
        b.i(Instruction::I32Add); // indent + 1
        b.i(Instruction::Call(pretty_value_idx));
        b.i(Instruction::LocalSet(6));
        // result = concat(result, elem_str)
        b.i(Instruction::LocalGet(4));
        b.i(Instruction::LocalGet(6));
        b.i(Instruction::Call(string_concat_index));
        b.i(Instruction::LocalSet(4));
        // i++
        b.i(Instruction::LocalGet(3));
        b.i(Instruction::I32Const(1));
        b.i(Instruction::I32Add);
        b.i(Instruction::LocalSet(3));
        b.i(Instruction::Br(0));
        b.i(Instruction::End);
        b.i(Instruction::End);
        // Append closing_indent + "]"
        b.i(Instruction::LocalGet(4));
        b.i(Instruction::LocalGet(10));
        b.i(Instruction::Call(string_concat_index));
        b.i(Instruction::LocalSet(4));
        b.i(Instruction::I32Const(5));
        b.i(Instruction::Call(malloc_index));
        b.i(Instruction::LocalTee(7));
        b.i(Instruction::I32Const(1));
        b.i(Instruction::I32Store(MemArg { offset: 0, align: 2, memory_index: 0 }));
        b.i(Instruction::LocalGet(7));
        b.i(Instruction::I32Const(93)); // ']'
        b.i(Instruction::I32Store8(MemArg { offset: 4, align: 0, memory_index: 0 }));
        b.i(Instruction::LocalGet(4));
        b.i(Instruction::LocalGet(7));
        b.i(Instruction::Call(string_concat_index));
        b.i(Instruction::End); // end count == 0 check
    }

    /// The instructions `generate_pretty_stringify_object_instructions` returns.
    #[verifier::opaque]
    pub open spec fn pretty_stringify_object_instructions_body(malloc_index: u32, string_concat_index: u32, quote_string_idx: u32, pretty_value_idx: u32) -> Seq<Instruction> {
        let s = Self::pretty_stringify_object_instructions_part_1(Seq::<Instruction>::empty(), malloc_index, string_concat_index, quote_string_idx, pretty_value_idx);
        let s = Self::pretty_stringify_object_instructions_part_2(s, malloc_index, string_concat_index, quote_string_idx, pretty_value_idx);
        Self::pretty_stringify_object_instructions_part_3(s, malloc_index, string_concat_index, quote_string_idx, pretty_value_idx)
    }

    /// Generate WASM instructions for __json_pretty_stringify_object
    /// Produces `{\n  "key": value,\n  ...\n}` with proper indentation.
    fn generate_pretty_stringify_object_instructions(&self, malloc_index: u32, string_concat_index: u32, quote_string_idx: u32, pretty_value_idx: u32) -> (r: Vec<Instruction>)
        ensures
            body_ok(r@, 13),
            r@ == Self::pretty_stringify_object_instructions_body(malloc_index, string_concat_index, quote_string_idx, pretty_value_idx),
    {
        let mut b = Body::new(13);
        Self::generate_pretty_stringify_object_instructions_1(&mut b, malloc_index, string_concat_index, quote_string_idx, pretty_value_idx);
        Self::generate_pretty_stringify_object_instructions_2(&mut b, malloc_index, string_concat_index, quote_string_idx, pretty_value_idx);
        Self::generate_pretty_stringify_object_instructions_3(&mut b, malloc_index, string_concat_index, quote_string_idx, pretty_value_idx);
        proof {
            reveal(JsonClass::pretty_stringify_object_instructions_body);
        }
        b.finish()
    }

    /// Part 1 of `pretty_stringify_object_instructions_body`, after `s`.
    #[verifier::opaque]
    pub open spec fn pretty_stringify_object_instructions_part_1(s: Seq<Instruction>, malloc_index: u32, string_concat_index: u32, quote_string_idx: u32, pretty_value_idx: u32) -> Seq<Instruction> {
        s
            .push(Instruction::LocalGet(0))
            .push(Instruction::I32Load(MemArg { offset: 0, align: 2, memory_index: 0 }))
            .push(Instruction::LocalSet(2))
            .push(Instruction::LocalGet(2))
            .push(Instruction::I32Eqz)
            .push(Instruction::If(BlockType::Result(ValType::I32)))
            .push(Instruction::I32Const(6))
            .push(Instruction::Call(malloc_index))
            .push(Instruction::LocalTee(9))
            .push(Instruction::I32Const(2))
            .push(Instruction::I32Store(MemArg { offset: 0, align: 2, memory_index: 0 }))
            .push(Instruction::LocalGet(9))
            .push(Instruction::I32Const(123))
            .push(Instruction::I32Store8(MemArg { offset: 4, align: 0, memory_index: 0 }))
            .push(Instruction::LocalGet(9))
            .push(Instruction::I32Const(125))
            .push(Instruction::I32Store8(MemArg { offset: 5, align: 0, memory_index: 0 }))
            .push(Instruction::LocalGet(9))
            .push(Instruction::Else)
            .push(Instruction::LocalGet(1))
            .push(Instruction::I32Const(1))
            .push(Instruction::I32Add)
            .push(Instruction::I32Const(2))
            .push(Instruction::I32Mul)
            .push(Instruction::I32Const(1))
            .push(Instruction::I32Add)
            .push(Instruction::LocalSet(9))
            .push(Instruction::I32Const(4))
            .push(Instruction::LocalGet(9))
            .push(Instruction::I32Add)
            .push(Instruction::Call(malloc_index))
            .push(Instruction::LocalSet(11))
            .push(Instruction::LocalGet(11))
            .push(Instruction::LocalGet(9))
            .push(Instruction::I32Store(MemArg { offset: 0, align: 2, memory_index: 0 }))
            .push(Instruction::LocalGet(11))
            .push(Instruction::I32Const(10))
            .push(Instruction::I32Store8(MemArg { offset: 4, align: 0, memory_index: 0 }))
            .push(Instruction::I32Const(1))
            .push(Instruction::LocalSet(3))
            .push(Instruction::Block(BlockType::Empty))
            .push(Instruction::Loop(BlockType::Empty))
            .push(Instruction::LocalGet(3))
            .push(Instruction::LocalGet(9))
            .push(Instruction::I32GeU)
            .push(Instruction::BrIf(1))
            .push(Instruction::LocalGet(11))
            .push(Instruction::I32Const(4))
            .push(Instruction::I32Add)
            .push(Instruction::LocalGet(3))
            .push(Instruction::I32Add)
            .push(Instruction::I32Const(32))
            .push(Instruction::I32Store8(MemArg { offset: 0, align: 0, memory_index: 0 }))
            .push(Instruction::LocalGet(3))
            .push(Instruction::I32Const(1))
            .push(Instruction::I32Add)
            .push(Instruction::LocalSet(3))
            .push(Instruction::Br(0))
            .push(Instruction::End)
            .push(Instruction::End)
            .push(Instruction::LocalGet(1))
            .push(Instruction::I32Const(2))
            .push(Instruction::I32Mul)
            .push(Instruction::I32Const(1))
            .push(Instruction::I32Add)
            .push(Instruction::LocalSet(9))
            .push(Instruction::I32Const(4))
            .push(Instruction::LocalGet(9))
            .push(Instruction::I32Add)
            .push(Instruction::Call(malloc_index))
            .push(Instruction::LocalSet(12))
            .push(Instruction::LocalGet(12))
            .push(Instruction::LocalGet(9))
            .push(Instruction::I32Store(MemArg { offset: 0, align: 2, memory_index: 0 }))
            .push(Instruction::LocalGet(12))
            .push(Instruction::I32Const(10))
            .push(Instruction::I32Store8(MemArg { offset: 4, align: 0, memory_index: 0 }))
            .push(Instruction::I32Const(1))
            .push(Instruction::LocalSet(3))
            .push(Instruction::Block(BlockType::Empty))
            .push(Instruction::Loop(BlockType::Empty))
            .push(Instruction::LocalGet(3))
            .push(Instruction::LocalGet(9))
            .push(Instruction::I32GeU)
            .push(Instruction::BrIf(1))
            .push(Instruction::LocalGet(12))
            .push(Instruction::I32Const(4))
            .push(Instruction::I32Add)
            .push(Instruction::LocalGet(3))
            .push(Instruction::I32Add)
    }

    /// Part 1 of `generate_pretty_stringify_object_instructions`.
    #[verifier::rlimit(40)]
    #[verifier::spinoff_prover]
    fn generate_pretty_stringify_object_instructions_1(b: &mut Body, malloc_index: u32, string_concat_index: u32, quote_string_idx: u32, pretty_value_idx: u32)
        requires
            old(b).wf(),
            old(b).open_blocks() == 0,
            old(b).n_locals() == 13,
        ensures
            final(b).wf(),
            final(b).open_blocks() == 3,
            final(b).n_locals() == 13,
            final(b).instrs() == Self::pretty_stringify_object_instructions_part_1(old(b).instrs(), malloc_index, string_concat_index, quote_string_idx, pretty_value_idx),
    {
        proof {
            reveal(JsonClass::pretty_stringify_object_instructions_part_1);
        }
        // Parameters: Local 0 = object_ptr, Local 1 = indent_level
        // Working:    Local 2=count, Local 3=i, Local 4=result, Local 5=key_ptr,
        // Local 6=val_ptr, Local 7=key_str, Local 8=val_str,
        // Local 9=temp, Local 10=boxed_ptr, Local 11=indent_str, Local 12=closing_indent_str
        // Read count
        b.i(Instruction::LocalGet(0));
        b.i(Instruction::I32Load(MemArg { offset: 0, align: 2, memory_index: 0 }));
        b.i(Instruction::LocalSet(2)); // count
        // Empty object → return "{}"
        b.i(Instruction::LocalGet(2));
        b.i(Instruction::I32Eqz);
        b.i(Instruction::If(BlockType::Result(ValType::I32)));
        b.i(Instruction::I32Const(6));
        b.i(Instruction::Call(malloc_index));
        b.i(Instruction::LocalTee(9));
        b.i(Instruction::I32Const(2));
        b.i(Instruction::I32Store(MemArg { offset: 0, align: 2, memory_index: 0 }));
        b.i(Instruction::LocalGet(9));
        b.i(Instruction::I32Const(123)); // '{'
        b.i(Instruction::I32Store8(MemArg { offset: 4, align: 0, memory_index: 0 }));
        b.i(Instruction::LocalGet(9));
        b.i(Instruction::I32Const(125)); // '}'
        b.i(Instruction::I32Store8(MemArg { offset: 5, align: 0, memory_index: 0 }));
        b.i(Instruction::LocalGet(9));
        b.i(Instruction::Else);
        // Build element-indent string: "\n" + (indent+1)*2 spaces
        b.i(Instruction::LocalGet(1));
        b.i(Instruction::I32Const(1));
        b.i(Instruction::I32Add);
        b.i(Instruction::I32Const(2));
        b.i(Instruction::I32Mul);
        b.i(Instruction::I32Const(1));
        b.i(Instruction::I32Add);
        b.i(Instruction::LocalSet(9)); // byte_count
        b.i(Instruction::I32Const(4));
        b.i(Instruction::LocalGet(9));
        b.i(Instruction::I32Add);
        b.i(Instruction::Call(malloc_index));
        b.i(Instruction::LocalSet(11)); // indent_str
        b.i(Instruction::LocalGet(11));
        b.i(Instruction::LocalGet(9));
        b.i(Instruction::I32Store(MemArg { offset: 0, align: 2, memory_index: 0 }));
        b.i(Instruction::LocalGet(11));
        b.i(Instruction::I32Const(10)); // '\n'
        b.i(Instruction::I32Store8(MemArg { offset: 4, align: 0, memory_index: 0 }));
        b.i(Instruction::I32Const(1));
        b.i(Instruction::LocalSet(3));
        b.i(Instruction::Block(BlockType::Empty));
        b.i(Instruction::Loop(BlockType::Empty));
        b.i(Instruction::LocalGet(3));
        b.i(Instruction::LocalGet(9));
        b.i(Instruction::I32GeU);
        b.i(Instruction::BrIf(1));
        b.i(Instruction::LocalGet(11));
        b.i(Instruction::I32Const(4));
        b.i(Instruction::I32Add);
        b.i(Instruction::LocalGet(3));
        b.i(Instruction::I32Add);
        b.i(Instruction::I32Const(32)); // ' '
        b.i(Instruction::I32Store8(MemArg { offset: 0, align: 0, memory_index: 0 }));
        b.i(Instruction::LocalGet(3));
        b.i(Instruction::I32Const(1));
        b.i(Instruction::I32Add);
        b.i(Instruction::LocalSet(3));
        b.i(Instruction::Br(0));
        b.i(Instruction::End);
        b.i(Instruction::End);
        // Build closing-indent: "\n" + indent*2 spaces
        b.i(Instruction::LocalGet(1));
        b.i(Instruction::I32Const(2));
        b.i(Instruction::I32Mul);
        b.i(Instruction::I32Const(1));
        b.i(Instruction::I32Add);
        b.i(Instruction::LocalSet(9));
        b.i(Instruction::I32Const(4));
        b.i(Instruction::LocalGet(9));
        b.i(Instruction::I32Add);
        b.i(Instruction::Call(malloc_index));
        b.i(Instruction::LocalSet(12)); // closing_indent_str
        b.i(Instruction::LocalGet(12));
        b.i(Instruction::LocalGet(9));
        b.i(Instruction::I32Store(MemArg { offset: 0, align: 2, memory_index: 0 }));
        b.i(Instruction::LocalGet(12));
        b.i(Instruction::I32Const(10)); // '\n'
        b.i(Instruction::I32Store8(MemArg { offset: 4, align: 0, memory_index: 0 }));
        b.i(Instruction::I32Const(1));
        b.i(Instruction::LocalSet(3));
        b.i(Instruction::Block(BlockType::Empty));
        b.i(Instruction::Loop(BlockType::Empty));
        b.i(Instruction::LocalGet(3));
        b.i(Instruction::LocalGet(9));
        b.i(Instruction::I32GeU);
        b.i(Instruction::BrIf(1));
        b.i(Instruction::LocalGet(12));
        b.i(Instruction::I32Const(4));
        b.i(Instruction::I32Add);
        b.i(Instruction::LocalGet(3));
        b.i(Instruction::I32Add);
    }

    /// Part 2 of `pretty_stringify_object_instructions_body`, after `s`.
    #[verifier::opaque]
    pub open spec fn pretty_stringify_object_instructions_part_2(s: Seq<Instruction>, malloc_index: u32, string_concat_index: u32, quote_string_idx: u32, pretty_value_idx: u32) -> Seq<Instruction> {
        (s
            .push(Instruction::I32Const(32))
            .push(Instruction::I32Store8(MemArg { offset: 0, align: 0, memory_index: 0 }))
            .push(Instruction::LocalGet(3))
            .push(Instruction::I32Const(1))
            .push(Instruction::I32Add)
            .push(Instruction::LocalSet(3))
            .push(Instruction::Br(0))
            .push(Instruction::End)
            .push(Instruction::End)
            .push(Instruction::I32Const(5))
            .push(Instruction::Call(malloc_index))
            .push(Instruction::LocalTee(4))
            .push(Instruction::I32Const(1))
            .push(Instruction::I32Store(MemArg { offset: 0, align: 2, memory_index: 0 }))
            .push(Instruction::LocalGet(4))
            .push(Instruction::I32Const(123))
            .push(Instruction::I32Store8(MemArg { offset: 4, align: 0, memory_index: 0 }))
            .push(Instruction::I32Const(0))
            .push(Instruction::LocalSet(3))
            .push(Instruction::Block(BlockType::Empty))
            .push(Instruction::Loop(BlockType::Empty))
            .push(Instruction::LocalGet(3))
            .push(Instruction::LocalGet(2))
            .push(Instruction::I32GeU)
            .push(Instruction::BrIf(1))
            .push(Instruction::LocalGet(3))
            .push(Instruction::If(BlockType::Empty))
            .push(Instruction::I32Const(5))
            .push(Instruction::Call(malloc_index))
            .push(Instruction::LocalTee(9))
            .push(Instruction::I32Const(1))
            .push(Instruction::I32Store(MemArg { offset: 0, align: 2, memory_index: 0 }))
            .push(Instruction::LocalGet(9))
            .push(Instruction::I32Const(44))
            .push(Instruction::I32Store8(MemArg { offset: 4, align: 0, memory_index: 0 }))
            .push(Instruction::LocalGet(4))
            .push(Instruction::LocalGet(9))
            .push(Instruction::Call(string_concat_index))
            .push(Instruction::LocalSet(4))
            .push(Instruction::End)
            .push(Instruction::LocalGet(4))
            .push(Instruction::LocalGet(11))
            .push(Instruction::Call(string_concat_index))
            .push(Instruction::LocalSet(4))
            .push(Instruction::LocalGet(0))
            .push(Instruction::LocalGet(3))
            .push(Instruction::I32Const(3))
            .push(Instruction::I32Shl)
            .push(Instruction::I32Add)
            .push(Instruction::I32Load(MemArg { offset: 4, align: 2, memory_index: 0 }))
            .push(Instruction::LocalSet(5))
            .push(Instruction::LocalGet(5))
            .push(Instruction::Call(quote_string_idx))
            .push(Instruction::LocalSet(7))
            .push(Instruction::LocalGet(4))
            .push(Instruction::LocalGet(7))
            .push(Instruction::Call(string_concat_index))
            .push(Instruction::LocalSet(4))
            .push(Instruction::I32Const(6))
            .push(Instruction::Call(malloc_index))
            .push(Instruction::LocalTee(9))
            .push(Instruction::I32Const(2))
            .push(Instruction::I32Store(MemArg { offset: 0, align: 2, memory_index: 0 }))
            .push(Instruction::LocalGet(9))
            .push(Instruction::I32Const(58))
            .push(Instruction::I32Store8(MemArg { offset: 4, align: 0, memory_index: 0 }))
            .push(Instruction::LocalGet(9))
            .push(Instruction::I32Const(32))
            .push(Instruction::I32Store8(MemArg { offset: 5, align: 0, memory_index: 0 }))
            .push(Instruction::LocalGet(4))
            .push(Instruction::LocalGet(9))
            .push(Instruction::Call(string_concat_index))
            .push(Instruction::LocalSet(4))
            .push(Instruction::LocalGet(0))
            .push(Instruction::LocalGet(3))
            .push(Instruction::I32Const(3))
            .push(Instruction::I32Shl)
            .push(Instruction::I32Add)
            .push(Instruction::I32Load(MemArg { offset: 8, align: 2, memory_index: 0 }))
            .push(Instruction::LocalSet(6))
            + Self::compact_bool_box_inplace_body(6, 10, malloc_index))
            .push(Instruction::LocalGet(6))
            .push(Instruction::LocalGet(1))
            .push(Instruction::I32Const(1))
            .push(Instruction::I32Add)
            .push(Instruction::Call(pretty_value_idx))
            .push(Instruction::LocalSet(8))
            .push(Instruction::LocalGet(4))
            .push(Instruction::LocalGet(8))
    }

    /// Part 2 of `generate_pretty_stringify_object_instructions`.
    #[verifier::rlimit(40)]
    #[verifier::spinoff_prover]
    fn generate_pretty_stringify_object_instructions_2(b: &mut Body, malloc_index: u32, string_concat_index: u32, quote_string_idx: u32, pretty_value_idx: u32)
        requires
            old(b).wf(),
            old(b).open_blocks() == 3,
            old(b).n_locals() == 13,
        ensures
            final(b).wf(),
            final(b).open_blocks() == 3,
            final(b).n_locals() == 13,
            final(b).instrs() == Self::pretty_stringify_object_instructions_part_2(old(b).instrs(), malloc_index, string_concat_index, quote_string_idx, pretty_value_idx),
    {
        proof {
            reveal(JsonClass::pretty_stringify_object_instructions_part_2);
        }
        b.i(Instruction::I32Const(32)); // ' '
        b.i(Instruction::I32Store8(MemArg { offset: 0, align: 0, memory_index: 0 }));
        b.i(Instruction::LocalGet(3));
        b.i(Instruction::I32Const(1));
        b.i(Instruction::I32Add);
        b.i(Instruction::LocalSet(3));
        b.i(Instruction::Br(0));
        b.i(Instruction::End);
        b.i(Instruction::End);
        // result = "{"
        b.i(Instruction::I32Const(5));
        b.i(Instruction::Call(malloc_index));
        b.i(Instruction::LocalTee(4)); // result
        b.i(Instruction::I32Const(1));
        b.i(Instruction::I32Store(MemArg { offset: 0, align: 2, memory_index: 0 }));
        b.i(Instruction::LocalGet(4));
        b.i(Instruction::I32Const(123)); // '{'
        b.i(Instruction::I32Store8(MemArg { offset: 4, align: 0, memory_index: 0 }));
        // i = 0
        b.i(Instruction::I32Const(0));
        b.i(Instruction::LocalSet(3));
        // Loop over key-value pairs
        b.i(Instruction::Block(BlockType::Empty));
        b.i(Instruction::Loop(BlockType::Empty));
        b.i(Instruction::LocalGet(3));
        b.i(Instruction::LocalGet(2));
        b.i(Instruction::I32GeU);
        b.i(Instruction::BrIf(1));
        // If i > 0, append ","
        b.i(Instruction::LocalGet(3));
        b.i(Instruction::If(BlockType::Empty));
        b.i(Instruction::I32Const(5));
        b.i(Instruction::Call(malloc_index));
        b.i(Instruction::LocalTee(9));
        b.i(Instruction::I32Const(1));
        b.i(Instruction::I32Store(MemArg { offset: 0, align: 2, memory_index: 0 }));
        b.i(Instruction::LocalGet(9));
        b.i(Instruction::I32Const(44)); // ','
        b.i(Instruction::I32Store8(MemArg { offset: 4, align: 0, memory_index: 0 }));
        b.i(Instruction::LocalGet(4));
        b.i(Instruction::LocalGet(9));
        b.i(Instruction::Call(string_concat_index));
        b.i(Instruction::LocalSet(4));
        b.i(Instruction::End);
        // Append element-indent
        b.i(Instruction::LocalGet(4));
        b.i(Instruction::LocalGet(11));
        b.i(Instruction::Call(string_concat_index));
        b.i(Instruction::LocalSet(4));
        // Load key_ptr from object_ptr + 4 + i*8
        b.i(Instruction::LocalGet(0));
        b.i(Instruction::LocalGet(3));
        b.i(Instruction::I32Const(3));
        b.i(Instruction::I32Shl); // i * 8
        b.i(Instruction::I32Add);
        b.i(Instruction::I32Load(MemArg { offset: 4, align: 2, memory_index: 0 }));
        b.i(Instruction::LocalSet(5)); // key_ptr
        // key_str = quote_string(key_ptr)
        b.i(Instruction::LocalGet(5));
        b.i(Instruction::Call(quote_string_idx));
        b.i(Instruction::LocalSet(7)); // key_str
        // result = concat(result, key_str)
        b.i(Instruction::LocalGet(4));
        b.i(Instruction::LocalGet(7));
        b.i(Instruction::Call(string_concat_index));
        b.i(Instruction::LocalSet(4));
        // Append ": "
        b.i(Instruction::I32Const(6)); // 4-byte header + 2 bytes
        b.i(Instruction::Call(malloc_index));
        b.i(Instruction::LocalTee(9));
        b.i(Instruction::I32Const(2));
        b.i(Instruction::I32Store(MemArg { offset: 0, align: 2, memory_index: 0 }));
        b.i(Instruction::LocalGet(9));
        b.i(Instruction::I32Const(58)); // ':'
        b.i(Instruction::I32Store8(MemArg { offset: 4, align: 0, memory_index: 0 }));
        b.i(Instruction::LocalGet(9));
        b.i(Instruction::I32Const(32)); // ' '
        b.i(Instruction::I32Store8(MemArg { offset: 5, align: 0, memory_index: 0 }));
        b.i(Instruction::LocalGet(4));
        b.i(Instruction::LocalGet(9));
        b.i(Instruction::Call(string_concat_index));
        b.i(Instruction::LocalSet(4));
        // Load val_ptr from object_ptr + 8 + i*8
        b.i(Instruction::LocalGet(0));
        b.i(Instruction::LocalGet(3));
        b.i(Instruction::I32Const(3));
        b.i(Instruction::I32Shl); // i * 8
        b.i(Instruction::I32Add);
        b.i(Instruction::I32Load(MemArg { offset: 8, align: 2, memory_index: 0 }));
        b.i(Instruction::LocalSet(6)); // val_ptr
        let frag = Self::compact_bool_box_inplace(6, 10, malloc_index);
        proof {
            lemma_body_ok_more_locals(frag@, 11, 13);
        }
        b.extend(frag);
        // val_str = pretty_stringify_value(val_ptr, indent+1)
        b.i(Instruction::LocalGet(6));
        b.i(Instruction::LocalGet(1));
        b.i(Instruction::I32Const(1));
        b.i(Instruction::I32Add);
        b.i(Instruction::Call(pretty_value_idx));
        b.i(Instruction::LocalSet(8)); // val_str
        // result = concat(result, val_str)
        b.i(Instruction::LocalGet(4));
        b.i(Instruction::LocalGet(8));
    }

    /// Part 3 of `pretty_stringify_object_instructions_body`, after `s`.
    #[verifier::opaque]
    pub open spec fn pretty_stringify_object_instructions_part_3(s: Seq<Instruction>, malloc_index: u32, string_concat_index: u32, quote_string_idx: u32, pretty_value_idx: u32) -> Seq<Instruction> {
        s
            .push(Instruction::Call(string_concat_index))
            .push(Instruction::LocalSet(4))
            .push(Instruction::LocalGet(3))
            .push(Instruction::I32Const(1))
            .push(Instruction::I32Add)
            .push(Instruction::LocalSet(3))
            .push(Instruction::Br(0))
            .push(Instruction::End)
            .push(Instruction::End)
            .push(Instruction::LocalGet(4))
            .push(Instruction::LocalGet(12))
            .push(Instruction::Call(string_concat_index))
            .push(Instruction::LocalSet(4))
            .push(Instruction::I32Const(5))
            .push(Instruction::Call(malloc_index))
            .push(Instruction::LocalTee(9))
            .push(Instruction::I32Const(1))
            .push(Instruction::I32Store(MemArg { offset: 0, align: 2, memory_index: 0 }))
            .push(Instruction::LocalGet(9))
            .push(Instruction::I32Const(125))
            .push(Instruction::I32Store8(MemArg { offset: 4, align: 0, memory_index: 0 }))
            .push(Instruction::LocalGet(4))
            .push(Instruction::LocalGet(9))
            .push(Instruction::Call(string_concat_index))
            .push(Instruction::End)
    }

    /// Part 3 of `generate_pretty_stringify_object_instructions`.
    fn generate_pretty_stringify_object_instructions_3(b: &mut Body, malloc_index: u32, string_concat_index: u32, quote_string_idx: u32, pretty_value_idx: u32)
        requires
            old(b).wf(),
            old(b).open_blocks() == 3,
            old(b).n_locals() == 13,
        ensures
            final(b).wf(),
            final(b).open_blocks() == 0,
            final(b).n_locals() == 13,
            final(b).instrs() == Self::pretty_stringify_object_instructions_part_3(old(b).instrs(), malloc_index, string_concat_index, quote_string_idx, pretty_value_idx),
    {
        proof {
            reveal(JsonClass::pretty_stringify_object_instructions_part_3);
        }
        b.i(Instruction::Call(string_concat_index));
        b.i(Instruction::LocalSet(4));
        // i++
        b.i(Instruction::LocalGet(3));
        b.i(Instruction::I32Const(1));
        b.i(Instruction::I32Add);
        b.i(Instruction::LocalSet(3));
        b.i(Instruction::Br(0));
        b.i(Instruction::End);
        b.i(Instruction::End);
        // Append closing_indent + "}"
        b.i(Instruction::LocalGet(4));
        b.i(Instruction::LocalGet(12));
        b.i(Instruction::Call(string_concat_index));
        b.i(Instruction::LocalSet(4));
        b.i(Instruction::I32Const(5));
        b.i(Instruction::Call(malloc_index));
        b.i(Instruction::LocalTee(9));
        b.i(Instruction::I32Const(1));
        b.i(Instruction::I32Store(MemArg { offset: 0, align: 2, memory_index: 0 }));
        b.i(Instruction::LocalGet(9));
        b.i(Instruction::I32Const(125)); // '}'
        b.i(Instruction::I32Store8(MemArg { offset: 4, align: 0, memory_index: 0 }));
        b.i(Instruction::LocalGet(4));
        b.i(Instruction::LocalGet(9));
        b.i(Instruction::Call(string_concat_index));
        b.i(Instruction::End); // end count == 0 check
    }

    /// The instructions `generate_quote_string_instructions` returns.
    #[verifier::opaque]
    pub open spec fn quote_string_instructions_body(malloc_index: u32) -> Seq<Instruction> {
        let s = Self::quote_string_instructions_part_1(Seq::<Instruction>::empty(), malloc_index);
        Self::quote_string_instructions_part_2(s, malloc_index)
    }

    fn generate_quote_string_instructions(&self, malloc_index: u32) -> (r: Vec<Instruction>)
        ensures
            body_ok(r@, 7),
            r@ == Self::quote_string_instructions_body(malloc_index),
    {
        let mut b = Body::new(7);
        Self::generate_quote_string_instructions_1(&mut b, malloc_index);
        Self::generate_quote_string_instructions_2(&mut b, malloc_index);
        proof {
            reveal(JsonClass::quote_string_instructions_body);
        }
        b.finish()
    }

    /// Part 1 of `quote_string_instructions_body`, after `s`.
    #[verifier::opaque]
    pub open spec fn quote_string_instructions_part_1(s: Seq<Instruction>, malloc_index: u32) -> Seq<Instruction> {
        Self::quoted_byte_after(
            Self::quoted_byte_after(
            Self::quoted_byte_after(
            Self::quoted_byte_after(
            Self::quoted_byte_after(
            Self::quoted_byte_after(
            Self::quoted_byte_after(
            Self::quoted_byte_after(
            Self::quoted_byte_after(
            Self::quoted_byte_after(
            Self::quoted_byte_after(
            Self::quoted_byte_after(
            Self::quoted_byte_after(
            s
            .push(Instruction::LocalGet(0))
            .push(Instruction::I32Load(MemArg { offset: 0, align: 2, memory_index: 0 }))
            .push(Instruction::LocalSet(1))
            .push(Instruction::LocalGet(1))
            .push(Instruction::I32Const(6))
            .push(Instruction::I32Mul)
            .push(Instruction::I32Const(6))
            .push(Instruction::I32Add)
            .push(Instruction::Call(malloc_index))
            .push(Instruction::LocalSet(2))
            .push(Instruction::LocalGet(2))
            .push(Instruction::I32Const(34))
            .push(Instruction::I32Store8(MemArg { offset: 4, align: 0, memory_index: 0 }))
            .push(Instruction::I32Const(0))
            .push(Instruction::LocalSet(3))
            .push(Instruction::I32Const(0))
            .push(Instruction::LocalSet(4))
            .push(Instruction::Block(BlockType::Empty))
            .push(Instruction::Loop(BlockType::Empty))
            .push(Instruction::LocalGet(3))
            .push(Instruction::LocalGet(1))
            .push(Instruction::I32GeU)
            .push(Instruction::BrIf(1))
            .push(Instruction::LocalGet(0))
            .push(Instruction::I32Const(4))
            .push(Instruction::I32Add)
            .push(Instruction::LocalGet(3))
            .push(Instruction::I32Add)
            .push(Instruction::I32Load8U(MemArg { offset: 0, align: 0, memory_index: 0 }))
            .push(Instruction::LocalSet(5))
            .push(Instruction::LocalGet(5))
            .push(Instruction::I32Const(92))
            .push(Instruction::I32Eq)
            .push(Instruction::If(BlockType::Empty)),
            92,
        ),
            92,
        )
            .push(Instruction::Else)
            .push(Instruction::LocalGet(5))
            .push(Instruction::I32Const(34))
            .push(Instruction::I32Eq)
            .push(Instruction::If(BlockType::Empty)),
            92,
        ),
            34,
        )
            .push(Instruction::Else)
            .push(Instruction::LocalGet(5))
            .push(Instruction::I32Const(8))
            .push(Instruction::I32Eq)
            .push(Instruction::If(BlockType::Empty)),
            92,
        ),
            98,
        )
            .push(Instruction::Else)
            .push(Instruction::LocalGet(5))
            .push(Instruction::I32Const(9))
            .push(Instruction::I32Eq)
            .push(Instruction::If(BlockType::Empty)),
            92,
        ),
            116,
        )
            .push(Instruction::Else)
            .push(Instruction::LocalGet(5))
            .push(Instruction::I32Const(10))
            .push(Instruction::I32Eq)
            .push(Instruction::If(BlockType::Empty)),
            92,
        ),
            110,
        )
            .push(Instruction::Else)
            .push(Instruction::LocalGet(5))
            .push(Instruction::I32Const(12))
            .push(Instruction::I32Eq)
            .push(Instruction::If(BlockType::Empty)),
            92,
        ),
            102,
        )
            .push(Instruction::Else)
            .push(Instruction::LocalGet(5))
            .push(Instruction::I32Const(13))
            .push(Instruction::I32Eq)
            .push(Instruction::If(BlockType::Empty)),
            92,
        )
    }

    /// Part 1 of `generate_quote_string_instructions`.
    #[verifier::rlimit(40)]
    #[verifier::spinoff_prover]
    fn generate_quote_string_instructions_1(b: &mut Body, malloc_index: u32)
        requires
            old(b).wf(),
            old(b).open_blocks() == 0,
            old(b).n_locals() == 7,
        ensures
            final(b).wf(),
            final(b).open_blocks() == 9,
            final(b).n_locals() == 7,
            final(b).instrs() == Self::quote_string_instructions_part_1(old(b).instrs(), malloc_index),
    {
        proof {
            reveal(JsonClass::quote_string_instructions_part_1);
        }
        // orig_len = mem[str_ptr]
        b.i(Instruction::LocalGet(0));
        b.i(Instruction::I32Load(MemArg { offset: 0, align: 2, memory_index: 0 }));
        b.i(Instruction::LocalSet(1));
        // result_ptr = malloc(orig_len * 6 + 6)
        b.i(Instruction::LocalGet(1));
        b.i(Instruction::I32Const(6));
        b.i(Instruction::I32Mul);
        b.i(Instruction::I32Const(6));
        b.i(Instruction::I32Add);
        b.i(Instruction::Call(malloc_index));
        b.i(Instruction::LocalSet(2));
        // Write opening '"' at result_ptr+4
        b.i(Instruction::LocalGet(2));
        b.i(Instruction::I32Const(34));
        b.i(Instruction::I32Store8(MemArg { offset: 4, align: 0, memory_index: 0 }));
        // i = 0, out_len = 0
        b.i(Instruction::I32Const(0));
        b.i(Instruction::LocalSet(3));
        b.i(Instruction::I32Const(0));
        b.i(Instruction::LocalSet(4));
        // block $break { loop $continue {
        b.i(Instruction::Block(BlockType::Empty));
        b.i(Instruction::Loop(BlockType::Empty));
        // if i >= orig_len: break
        b.i(Instruction::LocalGet(3));
        b.i(Instruction::LocalGet(1));
        b.i(Instruction::I32GeU);
        b.i(Instruction::BrIf(1));
        // current_byte = mem[str_ptr + 4 + i]
        b.i(Instruction::LocalGet(0));
        b.i(Instruction::I32Const(4));
        b.i(Instruction::I32Add);
        b.i(Instruction::LocalGet(3));
        b.i(Instruction::I32Add);
        b.i(Instruction::I32Load8U(MemArg { offset: 0, align: 0, memory_index: 0 }));
        b.i(Instruction::LocalSet(5));
        // Dispatch ladder. Each named-escape gets its own If/Else; the final
        // `Else` is a control-byte check that ends in either \u00XX or pass-through.
        // The order is: \  "  BS  TAB  LF  FF  CR  (control-byte fallback).
        // Named cases come first so they win even when their value is < 0x20
        // (BS, TAB, LF, FF, CR all are — without the named cases first the
        // generic control-byte branch would still escape them, but as \u00XX
        // instead of the more readable named form RFC 8259 prefers).
        b.i(Instruction::LocalGet(5));
        b.i(Instruction::I32Const(92));
        b.i(Instruction::I32Eq);
        b.i(Instruction::If(BlockType::Empty));
        Self::emit_quoted_byte(b, 92);
        Self::emit_quoted_byte(b, 92);
        b.i(Instruction::Else);
        b.i(Instruction::LocalGet(5));
        b.i(Instruction::I32Const(34));
        b.i(Instruction::I32Eq);
        b.i(Instruction::If(BlockType::Empty));
        Self::emit_quoted_byte(b, 92);
        Self::emit_quoted_byte(b, 34);
        b.i(Instruction::Else);
        b.i(Instruction::LocalGet(5));
        b.i(Instruction::I32Const(8)); // BS
        b.i(Instruction::I32Eq);
        b.i(Instruction::If(BlockType::Empty));
        Self::emit_quoted_byte(b, 92);
        Self::emit_quoted_byte(b, 98);
        // 'b'
        b.i(Instruction::Else);
        b.i(Instruction::LocalGet(5));
        b.i(Instruction::I32Const(9)); // TAB
        b.i(Instruction::I32Eq);
        b.i(Instruction::If(BlockType::Empty));
        Self::emit_quoted_byte(b, 92);
        Self::emit_quoted_byte(b, 116);
        // 't'
        b.i(Instruction::Else);
        b.i(Instruction::LocalGet(5));
        b.i(Instruction::I32Const(10)); // LF
        b.i(Instruction::I32Eq);
        b.i(Instruction::If(BlockType::Empty));
        Self::emit_quoted_byte(b, 92);
        Self::emit_quoted_byte(b, 110);
        // 'n'
        b.i(Instruction::Else);
        b.i(Instruction::LocalGet(5));
        b.i(Instruction::I32Const(12)); // FF
        b.i(Instruction::I32Eq);
        b.i(Instruction::If(BlockType::Empty));
        Self::emit_quoted_byte(b, 92);
        Self::emit_quoted_byte(b, 102);
        // 'f'
        b.i(Instruction::Else);
        b.i(Instruction::LocalGet(5));
        b.i(Instruction::I32Const(13)); // CR
        b.i(Instruction::I32Eq);
        b.i(Instruction::If(BlockType::Empty));
        Self::emit_quoted_byte(b, 92);
    }

    /// Part 2 of `quote_string_instructions_body`, after `s`.
    #[verifier::opaque]
    pub open spec fn quote_string_instructions_part_2(s: Seq<Instruction>, malloc_index: u32) -> Seq<Instruction> {
        Self::hex_nibble_after(
            Self::hex_nibble_after(
            Self::quoted_byte_after(
            Self::quoted_byte_after(
            Self::quoted_byte_after(
            Self::quoted_byte_after(
            Self::quoted_byte_after(
            s,
            114,
        )
            .push(Instruction::Else)
            .push(Instruction::LocalGet(5))
            .push(Instruction::I32Const(0x20))
            .push(Instruction::I32LtU)
            .push(Instruction::If(BlockType::Empty)),
            92,
        ),
            117,
        ),
            48,
        ),
            48,
        ),
            4,
        ),
            0,
        )
            .push(Instruction::Else)
            .push(Instruction::LocalGet(2))
            .push(Instruction::LocalGet(4))
            .push(Instruction::I32Add)
            .push(Instruction::LocalGet(5))
            .push(Instruction::I32Store8(MemArg { offset: 5, align: 0, memory_index: 0 }))
            .push(Instruction::LocalGet(4))
            .push(Instruction::I32Const(1))
            .push(Instruction::I32Add)
            .push(Instruction::LocalSet(4))
            .push(Instruction::End)
            .push(Instruction::End)
            .push(Instruction::End)
            .push(Instruction::End)
            .push(Instruction::End)
            .push(Instruction::End)
            .push(Instruction::End)
            .push(Instruction::End)
            .push(Instruction::LocalGet(3))
            .push(Instruction::I32Const(1))
            .push(Instruction::I32Add)
            .push(Instruction::LocalSet(3))
            .push(Instruction::Br(0))
            .push(Instruction::End)
            .push(Instruction::End)
            .push(Instruction::LocalGet(2))
            .push(Instruction::LocalGet(4))
            .push(Instruction::I32Add)
            .push(Instruction::I32Const(34))
            .push(Instruction::I32Store8(MemArg { offset: 5, align: 0, memory_index: 0 }))
            .push(Instruction::LocalGet(2))
            .push(Instruction::LocalGet(4))
            .push(Instruction::I32Const(2))
            .push(Instruction::I32Add)
            .push(Instruction::I32Store(MemArg { offset: 0, align: 2, memory_index: 0 }))
            .push(Instruction::LocalGet(2))
    }

    /// Part 2 of `generate_quote_string_instructions`.
    #[verifier::rlimit(40)]
    #[verifier::spinoff_prover]
    fn generate_quote_string_instructions_2(b: &mut Body, malloc_index: u32)
        requires
            old(b).wf(),
            old(b).open_blocks() == 9,
            old(b).n_locals() == 7,
        ensures
            final(b).wf(),
            final(b).open_blocks() == 0,
            final(b).n_locals() == 7,
            final(b).instrs() == Self::quote_string_instructions_part_2(old(b).instrs(), malloc_index),
    {
        proof {
            reveal(JsonClass::quote_string_instructions_part_2);
        }
        Self::emit_quoted_byte(b, 114);
        // 'r'
        b.i(Instruction::Else);
        // Control bytes 0x00..0x1F that didn't match a named escape → \u00XX
        b.i(Instruction::LocalGet(5));
        b.i(Instruction::I32Const(0x20));
        b.i(Instruction::I32LtU);
        b.i(Instruction::If(BlockType::Empty));
        Self::emit_quoted_byte(b, 92);
        // '\'
        Self::emit_quoted_byte(b, 117);
        // 'u'
        Self::emit_quoted_byte(b, 48);
        // '0'
        Self::emit_quoted_byte(b, 48);
        // '0'
        Self::emit_hex_nibble(b, 4);
        Self::emit_hex_nibble(b, 0);
        b.i(Instruction::Else);
        // Pass-through for printable / UTF-8 bytes
        b.i(Instruction::LocalGet(2));
        b.i(Instruction::LocalGet(4));
        b.i(Instruction::I32Add);
        b.i(Instruction::LocalGet(5));
        b.i(Instruction::I32Store8(MemArg { offset: 5, align: 0, memory_index: 0 }));
        b.i(Instruction::LocalGet(4));
        b.i(Instruction::I32Const(1));
        b.i(Instruction::I32Add);
        b.i(Instruction::LocalSet(4));
        // Close 8 if/else blocks (one per named escape + the control-byte branch)
        b.i(Instruction::End);
        b.i(Instruction::End);
        b.i(Instruction::End);
        b.i(Instruction::End);
        b.i(Instruction::End);
        b.i(Instruction::End);
        b.i(Instruction::End);
        b.i(Instruction::End);
        // i++; continue loop
        b.i(Instruction::LocalGet(3));
        b.i(Instruction::I32Const(1));
        b.i(Instruction::I32Add);
        b.i(Instruction::LocalSet(3));
        b.i(Instruction::Br(0));
        // end loop; end block
        b.i(Instruction::End);
        b.i(Instruction::End);
        // Write closing '"' at result_ptr+5+out_len
        b.i(Instruction::LocalGet(2));
        b.i(Instruction::LocalGet(4));
        b.i(Instruction::I32Add);
        b.i(Instruction::I32Const(34));
        b.i(Instruction::I32Store8(MemArg { offset: 5, align: 0, memory_index: 0 }));
        // Store final length (out_len + 2) at result_ptr
        b.i(Instruction::LocalGet(2));
        b.i(Instruction::LocalGet(4));
        b.i(Instruction::I32Const(2));
        b.i(Instruction::I32Add);
        b.i(Instruction::I32Store(MemArg { offset: 0, align: 2, memory_index: 0 }));
        // Return result_ptr
        b.i(Instruction::LocalGet(2));
    }

    /// The instructions `generate_stringify_value_instructions` returns.
    #[verifier::opaque]
    pub open spec fn stringify_value_instructions_body(malloc_index: u32, int_to_string_index: u32, float_to_string_index: u32, quote_string_idx: u32, stringify_array_idx: u32, stringify_object_idx: u32) -> Seq<Instruction> {
        let s = Self::stringify_value_instructions_part_1(Seq::<Instruction>::empty(), malloc_index, int_to_string_index, float_to_string_index, quote_string_idx, stringify_array_idx, stringify_object_idx);
        Self::stringify_value_instructions_part_2(s, malloc_index, int_to_string_index, float_to_string_index, quote_string_idx, stringify_array_idx, stringify_object_idx)
    }

    fn generate_stringify_value_instructions(&self, malloc_index: u32, int_to_string_index: u32, float_to_string_index: u32, quote_string_idx: u32, stringify_array_idx: u32, stringify_object_idx: u32) -> (r: Vec<Instruction>)
        ensures
            body_ok(r@, 7),
            r@ == Self::stringify_value_instructions_body(malloc_index, int_to_string_index, float_to_string_index, quote_string_idx, stringify_array_idx, stringify_object_idx),
    {
        let mut b = Body::new(7);
        Self::generate_stringify_value_instructions_1(&mut b, malloc_index, int_to_string_index, float_to_string_index, quote_string_idx, stringify_array_idx, stringify_object_idx);
        Self::generate_stringify_value_instructions_2(&mut b, malloc_index, int_to_string_index, float_to_string_index, quote_string_idx, stringify_array_idx, stringify_object_idx);
        proof {
            reveal(JsonClass::stringify_value_instructions_body);
        }
        b.finish()
    }

    /// Part 1 of `stringify_value_instructions_body`, after `s`.
    #[verifier::opaque]
    pub open spec fn stringify_value_instructions_part_1(s: Seq<Instruction>, malloc_index: u32, int_to_string_index: u32, float_to_string_index: u32, quote_string_idx: u32, stringify_array_idx: u32, stringify_object_idx: u32) -> Seq<Instruction> {
        s
            .push(Instruction::LocalGet(0))
            .push(Instruction::I32Eqz)
            .push(Instruction::If(BlockType::Result(ValType::I32)))
            .push(Instruction::I32Const(8))
            .push(Instruction::Call(malloc_index))
            .push(Instruction::LocalTee(3))
            .push(Instruction::I32Const(4))
            .push(Instruction::I32Store(MemArg { offset: 0, align: 2, memory_index: 0 }))
            .push(Instruction::LocalGet(3))
            .push(Instruction::I32Const(0x6C6C756E))
            .push(Instruction::I32Store(MemArg { offset: 4, align: 2, memory_index: 0 }))
            .push(Instruction::LocalGet(3))
            .push(Instruction::Else)
            .push(Instruction::LocalGet(0))
            .push(Instruction::I32Load(MemArg { offset: 0, align: 2, memory_index: 0 }))
            .push(Instruction::LocalSet(1))
            .push(Instruction::LocalGet(1))
            .push(Instruction::I32Eqz)
            .push(Instruction::If(BlockType::Result(ValType::I32)))
            .push(Instruction::I32Const(8))
            .push(Instruction::Call(malloc_index))
            .push(Instruction::LocalTee(3))
            .push(Instruction::I32Const(4))
            .push(Instruction::I32Store(MemArg { offset: 0, align: 2, memory_index: 0 }))
            .push(Instruction::LocalGet(3))
            .push(Instruction::I32Const(0x6C6C756E))
            .push(Instruction::I32Store(MemArg { offset: 4, align: 2, memory_index: 0 }))
            .push(Instruction::LocalGet(3))
            .push(Instruction::Else)
            .push(Instruction::LocalGet(1))
            .push(Instruction::I32Const(1))
            .push(Instruction::I32Eq)
            .push(Instruction::If(BlockType::Result(ValType::I32)))
            .push(Instruction::LocalGet(0))
            .push(Instruction::I32Load(MemArg { offset: 4, align: 2, memory_index: 0 }))
            .push(Instruction::Call(int_to_string_index))
            .push(Instruction::Else)
            .push(Instruction::LocalGet(1))
            .push(Instruction::I32Const(2))
            .push(Instruction::I32Eq)
            .push(Instruction::If(BlockType::Result(ValType::I32)))
            .push(Instruction::LocalGet(0))
            .push(Instruction::I32Load(MemArg { offset: 4, align: 2, memory_index: 0 }))
            .push(Instruction::If(BlockType::Result(ValType::I32)))
            .push(Instruction::I32Const(8))
            .push(Instruction::Call(malloc_index))
            .push(Instruction::LocalTee(3))
            .push(Instruction::I32Const(4))
            .push(Instruction::I32Store(MemArg { offset: 0, align: 2, memory_index: 0 }))
            .push(Instruction::LocalGet(3))
            .push(Instruction::I32Const(0x65757274))
            .push(Instruction::I32Store(MemArg { offset: 4, align: 2, memory_index: 0 }))
            .push(Instruction::LocalGet(3))
            .push(Instruction::Else)
            .push(Instruction::I32Const(9))
            .push(Instruction::Call(malloc_index))
            .push(Instruction::LocalTee(3))
            .push(Instruction::I32Const(5))
            .push(Instruction::I32Store(MemArg { offset: 0, align: 2, memory_index: 0 }))
            .push(Instruction::LocalGet(3))
            .push(Instruction::I32Const(0x736C6166))
            .push(Instruction::I32Store(MemArg { offset: 4, align: 2, memory_index: 0 }))
            .push(Instruction::LocalGet(3))
            .push(Instruction::I32Const(101))
            .push(Instruction::I32Store8(MemArg { offset: 8, align: 0, memory_index: 0 }))
            .push(Instruction::LocalGet(3))
            .push(Instruction::End)
            .push(Instruction::Else)
            .push(Instruction::LocalGet(1))
            .push(Instruction::I32Const(3))
            .push(Instruction::I32Eq)
            .push(Instruction::If(BlockType::Result(ValType::I32)))
            .push(Instruction::LocalGet(0))
            .push(Instruction::F64Load(MemArg { offset: 4, align: 3, memory_index: 0 }))
            .push(Instruction::Call(float_to_string_index))
            .push(Instruction::Else)
            .push(Instruction::LocalGet(1))
            .push(Instruction::I32Const(4))
            .push(Instruction::I32Eq)
            .push(Instruction::If(BlockType::Result(ValType::I32)))
            .push(Instruction::LocalGet(0))
            .push(Instruction::I32Load(MemArg { offset: 4, align: 2, memory_index: 0 }))
            .push(Instruction::Call(quote_string_idx))
            .push(Instruction::Else)
            .push(Instruction::LocalGet(1))
            .push(Instruction::I32Const(5))
            .push(Instruction::I32Eq)
            .push(Instruction::If(BlockType::Result(ValType::I32)))
            .push(Instruction::LocalGet(0))
            .push(Instruction::I32Load(MemArg { offset: 4, align: 2, memory_index: 0 }))
    }

    /// Part 1 of `generate_stringify_value_instructions`.
    #[verifier::rlimit(40)]
    #[verifier::spinoff_prover]
    fn generate_stringify_value_instructions_1(b: &mut Body, malloc_index: u32, int_to_string_index: u32, float_to_string_index: u32, quote_string_idx: u32, stringify_array_idx: u32, stringify_object_idx: u32)
        requires
            old(b).wf(),
            old(b).open_blocks() == 0,
            old(b).n_locals() == 7,
        ensures
            final(b).wf(),
            final(b).open_blocks() == 7,
            final(b).n_locals() == 7,
            final(b).instrs() == Self::stringify_value_instructions_part_1(old(b).instrs(), malloc_index, int_to_string_index, float_to_string_index, quote_string_idx, stringify_array_idx, stringify_object_idx),
    {
        proof {
            reveal(JsonClass::stringify_value_instructions_part_1);
        }
        // Check if boxed_ptr is null (0)
        b.i(Instruction::LocalGet(0));
        b.i(Instruction::I32Eqz);
        b.i(Instruction::If(BlockType::Result(ValType::I32)));
        // Return "null" string
        b.i(Instruction::I32Const(8));
        b.i(Instruction::Call(malloc_index));
        b.i(Instruction::LocalTee(3));
        b.i(Instruction::I32Const(4));
        b.i(Instruction::I32Store(MemArg { offset: 0, align: 2, memory_index: 0 }));
        b.i(Instruction::LocalGet(3));
        b.i(Instruction::I32Const(0x6C6C756E)); // "null"
        b.i(Instruction::I32Store(MemArg { offset: 4, align: 2, memory_index: 0 }));
        b.i(Instruction::LocalGet(3));
        b.i(Instruction::Else);
        // Read type tag
        b.i(Instruction::LocalGet(0));
        b.i(Instruction::I32Load(MemArg { offset: 0, align: 2, memory_index: 0 }));
        b.i(Instruction::LocalSet(1)); // type_tag
        // Tag 0: Null
        b.i(Instruction::LocalGet(1));
        b.i(Instruction::I32Eqz);
        b.i(Instruction::If(BlockType::Result(ValType::I32)));
        b.i(Instruction::I32Const(8));
        b.i(Instruction::Call(malloc_index));
        b.i(Instruction::LocalTee(3));
        b.i(Instruction::I32Const(4));
        b.i(Instruction::I32Store(MemArg { offset: 0, align: 2, memory_index: 0 }));
        b.i(Instruction::LocalGet(3));
        b.i(Instruction::I32Const(0x6C6C756E));
        b.i(Instruction::I32Store(MemArg { offset: 4, align: 2, memory_index: 0 }));
        b.i(Instruction::LocalGet(3));
        b.i(Instruction::Else);
        // Tag 1: Integer
        b.i(Instruction::LocalGet(1));
        b.i(Instruction::I32Const(1));
        b.i(Instruction::I32Eq);
        b.i(Instruction::If(BlockType::Result(ValType::I32)));
        b.i(Instruction::LocalGet(0));
        b.i(Instruction::I32Load(MemArg { offset: 4, align: 2, memory_index: 0 }));
        b.i(Instruction::Call(int_to_string_index));
        b.i(Instruction::Else);
        // Tag 2: Boolean
        b.i(Instruction::LocalGet(1));
        b.i(Instruction::I32Const(2));
        b.i(Instruction::I32Eq);
        b.i(Instruction::If(BlockType::Result(ValType::I32)));
        b.i(Instruction::LocalGet(0));
        b.i(Instruction::I32Load(MemArg { offset: 4, align: 2, memory_index: 0 }));
        b.i(Instruction::If(BlockType::Result(ValType::I32)));
        // true
        b.i(Instruction::I32Const(8));
        b.i(Instruction::Call(malloc_index));
        b.i(Instruction::LocalTee(3));
        b.i(Instruction::I32Const(4));
        b.i(Instruction::I32Store(MemArg { offset: 0, align: 2, memory_index: 0 }));
        b.i(Instruction::LocalGet(3));
        b.i(Instruction::I32Const(0x65757274)); // "true"
        b.i(Instruction::I32Store(MemArg { offset: 4, align: 2, memory_index: 0 }));
        b.i(Instruction::LocalGet(3));
        b.i(Instruction::Else);
        // false
        b.i(Instruction::I32Const(9));
        b.i(Instruction::Call(malloc_index));
        b.i(Instruction::LocalTee(3));
        b.i(Instruction::I32Const(5));
        b.i(Instruction::I32Store(MemArg { offset: 0, align: 2, memory_index: 0 }));
        b.i(Instruction::LocalGet(3));
        b.i(Instruction::I32Const(0x736C6166)); // "fals"
        b.i(Instruction::I32Store(MemArg { offset: 4, align: 2, memory_index: 0 }));
        b.i(Instruction::LocalGet(3));
        b.i(Instruction::I32Const(101)); // 'e'
        b.i(Instruction::I32Store8(MemArg { offset: 8, align: 0, memory_index: 0 }));
        b.i(Instruction::LocalGet(3));
        b.i(Instruction::End);
        b.i(Instruction::Else);
        // Tag 3: Number
        b.i(Instruction::LocalGet(1));
        b.i(Instruction::I32Const(3));
        b.i(Instruction::I32Eq);
        b.i(Instruction::If(BlockType::Result(ValType::I32)));
        b.i(Instruction::LocalGet(0));
        b.i(Instruction::F64Load(MemArg { offset: 4, align: 3, memory_index: 0 }));
        b.i(Instruction::Call(float_to_string_index));
        b.i(Instruction::Else);
        // Tag 4: String
        b.i(Instruction::LocalGet(1));
        b.i(Instruction::I32Const(4));
        b.i(Instruction::I32Eq);
        b.i(Instruction::If(BlockType::Result(ValType::I32)));
        b.i(Instruction::LocalGet(0));
        b.i(Instruction::I32Load(MemArg { offset: 4, align: 2, memory_index: 0 }));
        b.i(Instruction::Call(quote_string_idx));
        b.i(Instruction::Else);
        // Tag 5: List/Array
        b.i(Instruction::LocalGet(1));
        b.i(Instruction::I32Const(5));
        b.i(Instruction::I32Eq);
        b.i(Instruction::If(BlockType::Result(ValType::I32)));
        b.i(Instruction::LocalGet(0));
        b.i(Instruction::I32Load(MemArg { offset: 4, align: 2, memory_index: 0 }));
    }

    /// Part 2 of `stringify_value_instructions_body`, after `s`.
    #[verifier::opaque]
    pub open spec fn stringify_value_instructions_part_2(s: Seq<Instruction>, malloc_index: u32, int_to_string_index: u32, float_to_string_index: u32, quote_string_idx: u32, stringify_array_idx: u32, stringify_object_idx: u32) -> Seq<Instruction> {
        s
            .push(Instruction::Call(stringify_array_idx))
            .push(Instruction::Else)
            .push(Instruction::LocalGet(1))
            .push(Instruction::I32Const(6))
            .push(Instruction::I32Eq)
            .push(Instruction::If(BlockType::Result(ValType::I32)))
            .push(Instruction::LocalGet(0))
            .push(Instruction::I32Load(MemArg { offset: 4, align: 2, memory_index: 0 }))
            .push(Instruction::Call(stringify_object_idx))
            .push(Instruction::Else)
            .push(Instruction::I32Const(8))
            .push(Instruction::Call(malloc_index))
            .push(Instruction::LocalTee(3))
            .push(Instruction::I32Const(4))
            .push(Instruction::I32Store(MemArg { offset: 0, align: 2, memory_index: 0 }))
            .push(Instruction::LocalGet(3))
            .push(Instruction::I32Const(0x6C6C756E))
            .push(Instruction::I32Store(MemArg { offset: 4, align: 2, memory_index: 0 }))
            .push(Instruction::LocalGet(3))
            .push(Instruction::End)
            .push(Instruction::End)
            .push(Instruction::End)
            .push(Instruction::End)
            .push(Instruction::End)
            .push(Instruction::End)
            .push(Instruction::End)
            .push(Instruction::End)
    }

    /// Part 2 of `generate_stringify_value_instructions`.
    fn generate_stringify_value_instructions_2(b: &mut Body, malloc_index: u32, int_to_string_index: u32, float_to_string_index: u32, quote_string_idx: u32, stringify_array_idx: u32, stringify_object_idx: u32)
        requires
            old(b).wf(),
            old(b).open_blocks() == 7,
            old(b).n_locals() == 7,
        ensures
            final(b).wf(),
            final(b).open_blocks() == 0,
            final(b).n_locals() == 7,
            final(b).instrs() == Self::stringify_value_instructions_part_2(old(b).instrs(), malloc_index, int_to_string_index, float_to_string_index, quote_string_idx, stringify_array_idx, stringify_object_idx),
    {
        proof {
            reveal(JsonClass::stringify_value_instructions_part_2);
        }
        b.i(Instruction::Call(stringify_array_idx));
        b.i(Instruction::Else);
        // Tag 6: Object
        b.i(Instruction::LocalGet(1));
        b.i(Instruction::I32Const(6));
        b.i(Instruction::I32Eq);
        b.i(Instruction::If(BlockType::Result(ValType::I32)));
        b.i(Instruction::LocalGet(0));
        b.i(Instruction::I32Load(MemArg { offset: 4, align: 2, memory_index: 0 }));
        b.i(Instruction::Call(stringify_object_idx));
        b.i(Instruction::Else);
        // Unknown type - return "null"
        b.i(Instruction::I32Const(8));
        b.i(Instruction::Call(malloc_index));
        b.i(Instruction::LocalTee(3));
        b.i(Instruction::I32Const(4));
        b.i(Instruction::I32Store(MemArg { offset: 0, align: 2, memory_index: 0 }));
        b.i(Instruction::LocalGet(3));
        b.i(Instruction::I32Const(0x6C6C756E));
        b.i(Instruction::I32Store(MemArg { offset: 4, align: 2, memory_index: 0 }));
        b.i(Instruction::LocalGet(3));
        b.i(Instruction::End); // end tag 6
        b.i(Instruction::End); // end tag 5
        b.i(Instruction::End); // end tag 4
        b.i(Instruction::End); // end tag 3
        b.i(Instruction::End); // end tag 2
        b.i(Instruction::End); // end tag 1
        b.i(Instruction::End); // end tag 0
        b.i(Instruction::End); // end null check
    }

    /// The instructions `generate_stringify_array_instructions` returns.
    #[verifier::opaque]
    pub open spec fn stringify_array_instructions_body(malloc_index: u32, string_concat_index: u32, stringify_value_idx: u32) -> Seq<Instruction> {
        (Seq::<Instruction>::empty()
            .push(Instruction::LocalGet(0))
            .push(Instruction::I32Load(MemArg { offset: 0, align: 2, memory_index: 0 }))
            .push(Instruction::LocalSet(1))
            .push(Instruction::LocalGet(1))
            .push(Instruction::I32Eqz)
            .push(Instruction::If(BlockType::Result(ValType::I32)))
            .push(Instruction::I32Const(6))
            .push(Instruction::Call(malloc_index))
            .push(Instruction::LocalTee(6))
            .push(Instruction::I32Const(2))
            .push(Instruction::I32Store(MemArg { offset: 0, align: 2, memory_index: 0 }))
            .push(Instruction::LocalGet(6))
            .push(Instruction::I32Const(91))
            .push(Instruction::I32Store8(MemArg { offset: 4, align: 0, memory_index: 0 }))
            .push(Instruction::LocalGet(6))
            .push(Instruction::I32Const(93))
            .push(Instruction::I32Store8(MemArg { offset: 5, align: 0, memory_index: 0 }))
            .push(Instruction::LocalGet(6))
            .push(Instruction::Else)
            .push(Instruction::I32Const(5))
            .push(Instruction::Call(malloc_index))
            .push(Instruction::LocalTee(3))
            .push(Instruction::I32Const(1))
            .push(Instruction::I32Store(MemArg { offset: 0, align: 2, memory_index: 0 }))
            .push(Instruction::LocalGet(3))
            .push(Instruction::I32Const(91))
            .push(Instruction::I32Store8(MemArg { offset: 4, align: 0, memory_index: 0 }))
            .push(Instruction::I32Const(0))
            .push(Instruction::LocalSet(2))
            .push(Instruction::Block(BlockType::Empty))
            .push(Instruction::Loop(BlockType::Empty))
            .push(Instruction::LocalGet(2))
            .push(Instruction::LocalGet(1))
            .push(Instruction::I32GeU)
            .push(Instruction::BrIf(1))
            .push(Instruction::LocalGet(2))
            .push(Instruction::If(BlockType::Empty))
            .push(Instruction::I32Const(5))
            .push(Instruction::Call(malloc_index))
            .push(Instruction::LocalTee(6))
            .push(Instruction::I32Const(1))
            .push(Instruction::I32Store(MemArg { offset: 0, align: 2, memory_index: 0 }))
            .push(Instruction::LocalGet(6))
            .push(Instruction::I32Const(44))
            .push(Instruction::I32Store8(MemArg { offset: 4, align: 0, memory_index: 0 }))
            .push(Instruction::LocalGet(3))
            .push(Instruction::LocalGet(6))
            .push(Instruction::Call(string_concat_index))
            .push(Instruction::LocalSet(3))
            .push(Instruction::End)
            .push(Instruction::LocalGet(0))
            .push(Instruction::LocalGet(2))
            .push(Instruction::I32Const(2))
            .push(Instruction::I32Shl)
            .push(Instruction::I32Add)
            .push(Instruction::I32Load(MemArg { offset: 4, align: 2, memory_index: 0 }))
            .push(Instruction::LocalSet(4))
            + Self::compact_bool_box_inplace_body(4, 7, malloc_index))
            .push(Instruction::LocalGet(4))
            .push(Instruction::Call(stringify_value_idx))
            .push(Instruction::LocalSet(5))
            .push(Instruction::LocalGet(3))
            .push(Instruction::LocalGet(5))
            .push(Instruction::Call(string_concat_index))
            .push(Instruction::LocalSet(3))
            .push(Instruction::LocalGet(2))
            .push(Instruction::I32Const(1))
            .push(Instruction::I32Add)
            .push(Instruction::LocalSet(2))
            .push(Instruction::Br(0))
            .push(Instruction::End)
            .push(Instruction::End)
            .push(Instruction::I32Const(5))
            .push(Instruction::Call(malloc_index))
            .push(Instruction::LocalTee(6))
            .push(Instruction::I32Const(1))
            .push(Instruction::I32Store(MemArg { offset: 0, align: 2, memory_index: 0 }))
            .push(Instruction::LocalGet(6))
            .push(Instruction::I32Const(93))
            .push(Instruction::I32Store8(MemArg { offset: 4, align: 0, memory_index: 0 }))
            .push(Instruction::LocalGet(3))
            .push(Instruction::LocalGet(6))
            .push(Instruction::Call(string_concat_index))
            .push(Instruction::End)
    }

    #[verifier::rlimit(40)]
    #[verifier::spinoff_prover]
    fn generate_stringify_array_instructions(&self, malloc_index: u32, string_concat_index: u32, stringify_value_idx: u32) -> (r: Vec<Instruction>)
        ensures
            body_ok(r@, 8),
            r@ == Self::stringify_array_instructions_body(malloc_index, string_concat_index, stringify_value_idx),
    {
        proof {
            reveal(JsonClass::stringify_array_instructions_body);
        }
        let mut b = Body::new(8);
        // Read count from array_ptr[0]
        b.i(Instruction::LocalGet(0));
        b.i(Instruction::I32Load(MemArg { offset: 0, align: 2, memory_index: 0 }));
        b.i(Instruction::LocalSet(1)); // count
        // Check if count == 0
        b.i(Instruction::LocalGet(1));
        b.i(Instruction::I32Eqz);
        b.i(Instruction::If(BlockType::Result(ValType::I32)));
        // Return "[]"
        b.i(Instruction::I32Const(6));
        b.i(Instruction::Call(malloc_index));
        b.i(Instruction::LocalTee(6));
        b.i(Instruction::I32Const(2));
        b.i(Instruction::I32Store(MemArg { offset: 0, align: 2, memory_index: 0 }));
        b.i(Instruction::LocalGet(6));
        b.i(Instruction::I32Const(91)); // '['
        b.i(Instruction::I32Store8(MemArg { offset: 4, align: 0, memory_index: 0 }));
        b.i(Instruction::LocalGet(6));
        b.i(Instruction::I32Const(93)); // ']'
        b.i(Instruction::I32Store8(MemArg { offset: 5, align: 0, memory_index: 0 }));
        b.i(Instruction::LocalGet(6));
        b.i(Instruction::Else);
        // Create "["
        b.i(Instruction::I32Const(5));
        b.i(Instruction::Call(malloc_index));
        b.i(Instruction::LocalTee(3)); // result
        b.i(Instruction::I32Const(1));
        b.i(Instruction::I32Store(MemArg { offset: 0, align: 2, memory_index: 0 }));
        b.i(Instruction::LocalGet(3));
        b.i(Instruction::I32Const(91)); // '['
        b.i(Instruction::I32Store8(MemArg { offset: 4, align: 0, memory_index: 0 }));
        // Initialize loop counter
        b.i(Instruction::I32Const(0));
        b.i(Instruction::LocalSet(2)); // i = 0
        // Loop over elements
        b.i(Instruction::Block(BlockType::Empty));
        b.i(Instruction::Loop(BlockType::Empty));
        // Check if i >= count
        b.i(Instruction::LocalGet(2));
        b.i(Instruction::LocalGet(1));
        b.i(Instruction::I32GeU);
        b.i(Instruction::BrIf(1)); // break out of loop
        // If i > 0, append ","
        b.i(Instruction::LocalGet(2));
        b.i(Instruction::If(BlockType::Empty));
        // Create ","
        b.i(Instruction::I32Const(5));
        b.i(Instruction::Call(malloc_index));
        b.i(Instruction::LocalTee(6));
        b.i(Instruction::I32Const(1));
        b.i(Instruction::I32Store(MemArg { offset: 0, align: 2, memory_index: 0 }));
        b.i(Instruction::LocalGet(6));
        b.i(Instruction::I32Const(44)); // ','
        b.i(Instruction::I32Store8(MemArg { offset: 4, align: 0, memory_index: 0 }));
        // result = string.concat(result, ",")
        b.i(Instruction::LocalGet(3));
        b.i(Instruction::LocalGet(6));
        b.i(Instruction::Call(string_concat_index));
        b.i(Instruction::LocalSet(3));
        b.i(Instruction::End);
        // Load elem_ptr from array_ptr + 4 + i*4
        b.i(Instruction::LocalGet(0));
        b.i(Instruction::LocalGet(2));
        b.i(Instruction::I32Const(2));
        b.i(Instruction::I32Shl); // i * 4
        b.i(Instruction::I32Add);
        b.i(Instruction::I32Load(MemArg { offset: 4, align: 2, memory_index: 0 }));
        b.i(Instruction::LocalSet(4)); // elem_ptr
        let frag = Self::compact_bool_box_inplace(4, 7, malloc_index);
        proof {
            lemma_body_ok_more_locals(frag@, 8, 8);
        }
        b.extend(frag);
        // elem_str = stringify_value(elem_ptr)
        b.i(Instruction::LocalGet(4));
        b.i(Instruction::Call(stringify_value_idx));
        b.i(Instruction::LocalSet(5)); // elem_str
        // result = string.concat(result, elem_str)
        b.i(Instruction::LocalGet(3));
        b.i(Instruction::LocalGet(5));
        b.i(Instruction::Call(string_concat_index));
        b.i(Instruction::LocalSet(3));
        // i++
        b.i(Instruction::LocalGet(2));
        b.i(Instruction::I32Const(1));
        b.i(Instruction::I32Add);
        b.i(Instruction::LocalSet(2));
        b.i(Instruction::Br(0)); // continue loop
        b.i(Instruction::End); // end loop
        b.i(Instruction::End); // end block
        // Append "]"
        b.i(Instruction::I32Const(5));
        b.i(Instruction::Call(malloc_index));
        b.i(Instruction::LocalTee(6));
        b.i(Instruction::I32Const(1));
        b.i(Instruction::I32Store(MemArg { offset: 0, align: 2, memory_index: 0 }));
        b.i(Instruction::LocalGet(6));
        b.i(Instruction::I32Const(93)); // ']'
        b.i(Instruction::I32Store8(MemArg { offset: 4, align: 0, memory_index: 0 }));
        // result = string.concat(result, "]")
        b.i(Instruction::LocalGet(3));
        b.i(Instruction::LocalGet(6));
        b.i(Instruction::Call(string_concat_index));
        b.i(Instruction::End); // end count == 0 check
        b.finish()
    }

    /// The instructions `generate_stringify_object_instructions` returns.
    #[verifier::opaque]
    pub open spec fn stringify_object_instructions_body(malloc_index: u32, string_concat_index: u32, quote_string_idx: u32, stringify_value_idx: u32) -> Seq<Instruction> {
        let s = Self::stringify_object_instructions_part_1(Seq::<Instruction>::empty(), malloc_index, string_concat_index, quote_string_idx, stringify_value_idx);
        Self::stringify_object_instructions_part_2(s, malloc_index, string_concat_index, quote_string_idx, stringify_value_idx)
    }

    fn generate_stringify_object_instructions(&self, malloc_index: u32, string_concat_index: u32, quote_string_idx: u32, stringify_value_idx: u32) -> (r: Vec<Instruction>)
        ensures
            body_ok(r@, 10),
            r@ == Self::stringify_object_instructions_body(malloc_index, string_concat_index, quote_string_idx, stringify_value_idx),
    {
        let mut b = Body::new(10);
        Self::generate_stringify_object_instructions_1(&mut b, malloc_index, string_concat_index, quote_string_idx, stringify_value_idx);
        Self::generate_stringify_object_instructions_2(&mut b, malloc_index, string_concat_index, quote_string_idx, stringify_value_idx);
        proof {
            reveal(JsonClass::stringify_object_instructions_body);
        }
        b.finish()
    }

    /// Part 1 of `stringify_object_instructions_body`, after `s`.
    #[verifier::opaque]
    pub open spec fn stringify_object_instructions_part_1(s: Seq<Instruction>, malloc_index: u32, string_concat_index: u32, quote_string_idx: u32, stringify_value_idx: u32) -> Seq<Instruction> {
        (s
            .push(Instruction::LocalGet(0))
            .push(Instruction::I32Load(MemArg { offset: 0, align: 2, memory_index: 0 }))
            .push(Instruction::LocalSet(1))
            .push(Instruction::LocalGet(1))
            .push(Instruction::I32Eqz)
            .push(Instruction::If(BlockType::Result(ValType::I32)))
            .push(Instruction::I32Const(6))
            .push(Instruction::Call(malloc_index))
            .push(Instruction::LocalTee(8))
            .push(Instruction::I32Const(2))
            .push(Instruction::I32Store(MemArg { offset: 0, align: 2, memory_index: 0 }))
            .push(Instruction::LocalGet(8))
            .push(Instruction::I32Const(123))
            .push(Instruction::I32Store8(MemArg { offset: 4, align: 0, memory_index: 0 }))
            .push(Instruction::LocalGet(8))
            .push(Instruction::I32Const(125))
            .push(Instruction::I32Store8(MemArg { offset: 5, align: 0, memory_index: 0 }))
            .push(Instruction::LocalGet(8))
            .push(Instruction::Else)
            .push(Instruction::I32Const(5))
            .push(Instruction::Call(malloc_index))
            .push(Instruction::LocalTee(3))
            .push(Instruction::I32Const(1))
            .push(Instruction::I32Store(MemArg { offset: 0, align: 2, memory_index: 0 }))
            .push(Instruction::LocalGet(3))
            .push(Instruction::I32Const(123))
            .push(Instruction::I32Store8(MemArg { offset: 4, align: 0, memory_index: 0 }))
            .push(Instruction::I32Const(0))
            .push(Instruction::LocalSet(2))
            .push(Instruction::Block(BlockType::Empty))
            .push(Instruction::Loop(BlockType::Empty))
            .push(Instruction::LocalGet(2))
            .push(Instruction::LocalGet(1))
            .push(Instruction::I32GeU)
            .push(Instruction::BrIf(1))
            .push(Instruction::LocalGet(2))
            .push(Instruction::If(BlockType::Empty))
            .push(Instruction::I32Const(5))
            .push(Instruction::Call(malloc_index))
            .push(Instruction::LocalTee(8))
            .push(Instruction::I32Const(1))
            .push(Instruction::I32Store(MemArg { offset: 0, align: 2, memory_index: 0 }))
            .push(Instruction::LocalGet(8))
            .push(Instruction::I32Const(44))
            .push(Instruction::I32Store8(MemArg { offset: 4, align: 0, memory_index: 0 }))
            .push(Instruction::LocalGet(3))
            .push(Instruction::LocalGet(8))
            .push(Instruction::Call(string_concat_index))
            .push(Instruction::LocalSet(3))
            .push(Instruction::End)
            .push(Instruction::LocalGet(0))
            .push(Instruction::LocalGet(2))
            .push(Instruction::I32Const(3))
            .push(Instruction::I32Shl)
            .push(Instruction::I32Add)
            .push(Instruction::I32Load(MemArg { offset: 4, align: 2, memory_index: 0 }))
            .push(Instruction::LocalSet(4))
            .push(Instruction::LocalGet(4))
            .push(Instruction::Call(quote_string_idx))
            .push(Instruction::LocalSet(6))
            .push(Instruction::LocalGet(3))
            .push(Instruction::LocalGet(6))
            .push(Instruction::Call(string_concat_index))
            .push(Instruction::LocalSet(3))
            .push(Instruction::I32Const(5))
            .push(Instruction::Call(malloc_index))
            .push(Instruction::LocalTee(8))
            .push(Instruction::I32Const(1))
            .push(Instruction::I32Store(MemArg { offset: 0, align: 2, memory_index: 0 }))
            .push(Instruction::LocalGet(8))
            .push(Instruction::I32Const(58))
            .push(Instruction::I32Store8(MemArg { offset: 4, align: 0, memory_index: 0 }))
            .push(Instruction::LocalGet(3))
            .push(Instruction::LocalGet(8))
            .push(Instruction::Call(string_concat_index))
            .push(Instruction::LocalSet(3))
            .push(Instruction::LocalGet(0))
            .push(Instruction::LocalGet(2))
            .push(Instruction::I32Const(3))
            .push(Instruction::I32Shl)
            .push(Instruction::I32Add)
            .push(Instruction::I32Load(MemArg { offset: 8, align: 2, memory_index: 0 }))
            .push(Instruction::LocalSet(5))
            + Self::compact_bool_box_inplace_body(5, 9, malloc_index))
            .push(Instruction::LocalGet(5))
            .push(Instruction::Call(stringify_value_idx))
            .push(Instruction::LocalSet(7))
            .push(Instruction::LocalGet(3))
            .push(Instruction::LocalGet(7))
    }

    /// Part 1 of `generate_stringify_object_instructions`.
    #[verifier::rlimit(40)]
    #[verifier::spinoff_prover]
    fn generate_stringify_object_instructions_1(b: &mut Body, malloc_index: u32, string_concat_index: u32, quote_string_idx: u32, stringify_value_idx: u32)
        requires
            old(b).wf(),
            old(b).open_blocks() == 0,
            old(b).n_locals() == 10,
        ensures
            final(b).wf(),
            final(b).open_blocks() == 3,
            final(b).n_locals() == 10,
            final(b).instrs() == Self::stringify_object_instructions_part_1(old(b).instrs(), malloc_index, string_concat_index, quote_string_idx, stringify_value_idx),
    {
        proof {
            reveal(JsonClass::stringify_object_instructions_part_1);
        }
        // Read count from object_ptr[0]
        b.i(Instruction::LocalGet(0));
        b.i(Instruction::I32Load(MemArg { offset: 0, align: 2, memory_index: 0 }));
        b.i(Instruction::LocalSet(1)); // count
        // Check if count == 0
        b.i(Instruction::LocalGet(1));
        b.i(Instruction::I32Eqz);
        b.i(Instruction::If(BlockType::Result(ValType::I32)));
        // Return "{}"
        b.i(Instruction::I32Const(6));
        b.i(Instruction::Call(malloc_index));
        b.i(Instruction::LocalTee(8));
        b.i(Instruction::I32Const(2));
        b.i(Instruction::I32Store(MemArg { offset: 0, align: 2, memory_index: 0 }));
        b.i(Instruction::LocalGet(8));
        b.i(Instruction::I32Const(123)); // '{'
        b.i(Instruction::I32Store8(MemArg { offset: 4, align: 0, memory_index: 0 }));
        b.i(Instruction::LocalGet(8));
        b.i(Instruction::I32Const(125)); // '}'
        b.i(Instruction::I32Store8(MemArg { offset: 5, align: 0, memory_index: 0 }));
        b.i(Instruction::LocalGet(8));
        b.i(Instruction::Else);
        // Create "{"
        b.i(Instruction::I32Const(5));
        b.i(Instruction::Call(malloc_index));
        b.i(Instruction::LocalTee(3)); // result
        b.i(Instruction::I32Const(1));
        b.i(Instruction::I32Store(MemArg { offset: 0, align: 2, memory_index: 0 }));
        b.i(Instruction::LocalGet(3));
        b.i(Instruction::I32Const(123)); // '{'
        b.i(Instruction::I32Store8(MemArg { offset: 4, align: 0, memory_index: 0 }));
        // Initialize loop counter
        b.i(Instruction::I32Const(0));
        b.i(Instruction::LocalSet(2)); // i = 0
        // Loop over key-value pairs
        b.i(Instruction::Block(BlockType::Empty));
        b.i(Instruction::Loop(BlockType::Empty));
        // Check if i >= count
        b.i(Instruction::LocalGet(2));
        b.i(Instruction::LocalGet(1));
        b.i(Instruction::I32GeU);
        b.i(Instruction::BrIf(1)); // break out of loop
        // If i > 0, append ","
        b.i(Instruction::LocalGet(2));
        b.i(Instruction::If(BlockType::Empty));
        // Create ","
        b.i(Instruction::I32Const(5));
        b.i(Instruction::Call(malloc_index));
        b.i(Instruction::LocalTee(8));
        b.i(Instruction::I32Const(1));
        b.i(Instruction::I32Store(MemArg { offset: 0, align: 2, memory_index: 0 }));
        b.i(Instruction::LocalGet(8));
        b.i(Instruction::I32Const(44)); // ','
        b.i(Instruction::I32Store8(MemArg { offset: 4, align: 0, memory_index: 0 }));
        // result = string.concat(result, ",")
        b.i(Instruction::LocalGet(3));
        b.i(Instruction::LocalGet(8));
        b.i(Instruction::Call(string_concat_index));
        b.i(Instruction::LocalSet(3));
        b.i(Instruction::End);
        // Load key_ptr from object_ptr + 4 + i*8
        b.i(Instruction::LocalGet(0));
        b.i(Instruction::LocalGet(2));
        b.i(Instruction::I32Const(3));
        b.i(Instruction::I32Shl); // i * 8
        b.i(Instruction::I32Add);
        b.i(Instruction::I32Load(MemArg { offset: 4, align: 2, memory_index: 0 }));
        b.i(Instruction::LocalSet(4)); // key_ptr
        // key_str = quote_string(key_ptr)
        b.i(Instruction::LocalGet(4));
        b.i(Instruction::Call(quote_string_idx));
        b.i(Instruction::LocalSet(6)); // key_str
        // result = string.concat(result, key_str)
        b.i(Instruction::LocalGet(3));
        b.i(Instruction::LocalGet(6));
        b.i(Instruction::Call(string_concat_index));
        b.i(Instruction::LocalSet(3));
        // Append ":"
        b.i(Instruction::I32Const(5));
        b.i(Instruction::Call(malloc_index));
        b.i(Instruction::LocalTee(8));
        b.i(Instruction::I32Const(1));
        b.i(Instruction::I32Store(MemArg { offset: 0, align: 2, memory_index: 0 }));
        b.i(Instruction::LocalGet(8));
        b.i(Instruction::I32Const(58)); // ':'
        b.i(Instruction::I32Store8(MemArg { offset: 4, align: 0, memory_index: 0 }));
        // result = string.concat(result, ":")
        b.i(Instruction::LocalGet(3));
        b.i(Instruction::LocalGet(8));
        b.i(Instruction::Call(string_concat_index));
        b.i(Instruction::LocalSet(3));
        // Load val_ptr from object_ptr + 8 + i*8
        b.i(Instruction::LocalGet(0));
        b.i(Instruction::LocalGet(2));
        b.i(Instruction::I32Const(3));
        b.i(Instruction::I32Shl); // i * 8
        b.i(Instruction::I32Add);
        b.i(Instruction::I32Load(MemArg { offset: 8, align: 2, memory_index: 0 }));
        b.i(Instruction::LocalSet(5)); // val_ptr
        let frag = Self::compact_bool_box_inplace(5, 9, malloc_index);
        proof {
            lemma_body_ok_more_locals(frag@, 10, 10);
        }
        b.extend(frag);
        // val_str = stringify_value(val_ptr)
        b.i(Instruction::LocalGet(5));
        b.i(Instruction::Call(stringify_value_idx));
        b.i(Instruction::LocalSet(7)); // val_str
        // result = string.concat(result, val_str)
        b.i(Instruction::LocalGet(3));
        b.i(Instruction::LocalGet(7));
    }

    /// Part 2 of `stringify_object_instructions_body`, after `s`.
    #[verifier::opaque]
    pub open spec fn stringify_object_instructions_part_2(s: Seq<Instruction>, malloc_index: u32, string_concat_index: u32, quote_string_idx: u32, stringify_value_idx: u32) -> Seq<Instruction> {
        s
            .push(Instruction::Call(string_concat_index))
            .push(Instruction::LocalSet(3))
            .push(Instruction::LocalGet(2))
            .push(Instruction::I32Const(1))
            .push(Instruction::I32Add)
            .push(Instruction::LocalSet(2))
            .push(Instruction::Br(0))
            .push(Instruction::End)
            .push(Instruction::End)
            .push(Instruction::I32Const(5))
            .push(Instruction::Call(malloc_index))
            .push(Instruction::LocalTee(8))
            .push(Instruction::I32Const(1))
            .push(Instruction::I32Store(MemArg { offset: 0, align: 2, memory_index: 0 }))
            .push(Instruction::LocalGet(8))
            .push(Instruction::I32Const(125))
            .push(Instruction::I32Store8(MemArg { offset: 4, align: 0, memory_index: 0 }))
            .push(Instruction::LocalGet(3))
            .push(Instruction::LocalGet(8))
            .push(Instruction::Call(string_concat_index))
            .push(Instruction::End)
    }

    /// Part 2 of `generate_stringify_object_instructions`.
    fn generate_stringify_object_instructions_2(b: &mut Body, malloc_index: u32, string_concat_index: u32, quote_string_idx: u32, stringify_value_idx: u32)
        requires
            old(b).wf(),
            old(b).open_blocks() == 3,
            old(b).n_locals() == 10,
        ensures
            final(b).wf(),
            final(b).open_blocks() == 0,
            final(b).n_locals() == 10,
            final(b).instrs() == Self::stringify_object_instructions_part_2(old(b).instrs(), malloc_index, string_concat_index, quote_string_idx, stringify_value_idx),
    {
        proof {
            reveal(JsonClass::stringify_object_instructions_part_2);
        }
        b.i(Instruction::Call(string_concat_index));
        b.i(Instruction::LocalSet(3));
        // i++
        b.i(Instruction::LocalGet(2));
        b.i(Instruction::I32Const(1));
        b.i(Instruction::I32Add);
        b.i(Instruction::LocalSet(2));
        b.i(Instruction::Br(0)); // continue loop
        b.i(Instruction::End); // end loop
        b.i(Instruction::End); // end block
        // Append "}"
        b.i(Instruction::I32Const(5));
        b.i(Instruction::Call(malloc_index));
        b.i(Instruction::LocalTee(8));
        b.i(Instruction::I32Const(1));
        b.i(Instruction::I32Store(MemArg { offset: 0, align: 2, memory_index: 0 }));
        b.i(Instruction::LocalGet(8));
        b.i(Instruction::I32Const(125)); // '}'
        b.i(Instruction::I32Store8(MemArg { offset: 4, align: 0, memory_index: 0 }));
        // result = string.concat(result, "}")
        b.i(Instruction::LocalGet(3));
        b.i(Instruction::LocalGet(8));
        b.i(Instruction::Call(string_concat_index));
        b.i(Instruction::End); // end count == 0 check
    }

    /// The instructions `generate_encode_cln_list_instructions` returns.
    #[verifier::opaque]
    pub open spec fn encode_cln_list_instructions_body(malloc_idx: u32, string_concat_idx: u32, int_to_string_idx: u32, float_to_string_idx: u32, quote_string_idx: u32) -> Seq<Instruction> {
        (Self::encode_primitive_after(
            (((Seq::<Instruction>::empty()
            .push(Instruction::LocalGet(0))
            .push(Instruction::I32Load(MemArg { offset: 0, align: 2, memory_index: 0 }))
            .push(Instruction::LocalSet(2))
            .push(Instruction::LocalGet(2))
            .push(Instruction::I32Eqz)
            .push(Instruction::If(BlockType::Result(ValType::I32)))
            + alloc_const_str_instrs(seq![91u8, 93u8], malloc_idx, 4))
            .push(Instruction::LocalGet(4))
            .push(Instruction::Else)
            .push(Instruction::LocalGet(1))
            .push(Instruction::I32Const(3))
            .push(Instruction::I32Eq)
            .push(Instruction::If(BlockType::Result(ValType::I32)))
            .push(Instruction::I32Const(8))
            .push(Instruction::Else)
            .push(Instruction::I32Const(4))
            .push(Instruction::End)
            .push(Instruction::LocalSet(9))
            + alloc_const_str_instrs(seq![91u8], malloc_idx, 4))
            .push(Instruction::I32Const(0))
            .push(Instruction::LocalSet(3))
            .push(Instruction::Block(BlockType::Empty))
            .push(Instruction::Loop(BlockType::Empty))
            .push(Instruction::LocalGet(3))
            .push(Instruction::LocalGet(2))
            .push(Instruction::I32GeU)
            .push(Instruction::BrIf(1))
            .push(Instruction::LocalGet(3))
            .push(Instruction::If(BlockType::Empty))
            + alloc_const_str_instrs(seq![44u8], malloc_idx, 8))
            .push(Instruction::LocalGet(4))
            .push(Instruction::LocalGet(8))
            .push(Instruction::Call(string_concat_idx))
            .push(Instruction::LocalSet(4))
            .push(Instruction::End)
            .push(Instruction::LocalGet(0))
            .push(Instruction::I32Const(LIST_DATA_OFFSET as i32))
            .push(Instruction::I32Add)
            .push(Instruction::LocalGet(3))
            .push(Instruction::LocalGet(9))
            .push(Instruction::I32Mul)
            .push(Instruction::I32Add)
            .push(Instruction::LocalSet(6))
            .push(Instruction::LocalGet(1))
            .push(Instruction::I32Const(3))
            .push(Instruction::I32Eq)
            .push(Instruction::If(BlockType::Empty))
            .push(Instruction::LocalGet(6))
            .push(Instruction::F64Load(MemArg { offset: 0, align: 3, memory_index: 0 }))
            .push(Instruction::LocalSet(10))
            .push(Instruction::LocalGet(10))
            .push(Instruction::Call(float_to_string_idx))
            .push(Instruction::LocalSet(5))
            .push(Instruction::Else)
            .push(Instruction::LocalGet(6))
            .push(Instruction::I32Load(MemArg { offset: 0, align: 2, memory_index: 0 }))
            .push(Instruction::LocalSet(7)),
            7, 1, 5, int_to_string_idx, quote_string_idx, malloc_idx,
        )
            .push(Instruction::End)
            .push(Instruction::LocalGet(4))
            .push(Instruction::LocalGet(5))
            .push(Instruction::Call(string_concat_idx))
            .push(Instruction::LocalSet(4))
            .push(Instruction::LocalGet(3))
            .push(Instruction::I32Const(1))
            .push(Instruction::I32Add)
            .push(Instruction::LocalSet(3))
            .push(Instruction::Br(0))
            .push(Instruction::End)
            .push(Instruction::End)
            + alloc_const_str_instrs(seq![93u8], malloc_idx, 8))
            .push(Instruction::LocalGet(4))
            .push(Instruction::LocalGet(8))
            .push(Instruction::Call(string_concat_idx))
            .push(Instruction::LocalSet(4))
            .push(Instruction::LocalGet(4))
            .push(Instruction::End)
    }

    /// Generate WASM body for `__json_encode_cln_list(list_ptr: i32, elem_tag: i32) -> i32`.
    ///
    /// Walks a native Clean list (header `[len:i32@0][cap:i32@4][type_id:i32@8][pad@12]`,
    /// elements from offset 16) and encodes each element directly into a JSON array
    /// string. Element stride is 8 bytes when `elem_tag == 3` (Number/f64) and 4 bytes
    /// when `T` is a primitive — for richer element types (nested collections, class
    /// instances) the dispatch is expected to take a different path.
    #[verifier::rlimit(40)]
    #[verifier::spinoff_prover]
    fn generate_encode_cln_list_instructions(&self, malloc_idx: u32, string_concat_idx: u32, int_to_string_idx: u32, float_to_string_idx: u32, quote_string_idx: u32) -> (r: Vec<Instruction>)
        ensures
            body_ok(r@, 11),
            r@ == Self::encode_cln_list_instructions_body(malloc_idx, string_concat_idx, int_to_string_idx, float_to_string_idx, quote_string_idx),
    {
        proof {
            reveal(JsonClass::encode_cln_list_instructions_body);
        }
        let mut b = Body::new(11);
        // count = mem[list_ptr + 0]
        b.i(Instruction::LocalGet(0));
        b.i(Instruction::I32Load(MemArg { offset: 0, align: 2, memory_index: 0 }));
        b.i(Instruction::LocalSet(2));
        // empty? return "[]"
        b.i(Instruction::LocalGet(2));
        b.i(Instruction::I32Eqz);
        b.i(Instruction::If(BlockType::Result(ValType::I32)));
        Self::emit_alloc_const_str(&mut b, &[91, 93], malloc_idx, 4); // "[]"
        proof {
            assert((&[91, 93])@ =~= seq![91u8, 93u8]);
        }
        b.i(Instruction::LocalGet(4));
        b.i(Instruction::Else);
        // elem_stride = (elem_tag == 3) ? 8 : 4
        b.i(Instruction::LocalGet(1));
        b.i(Instruction::I32Const(3));
        b.i(Instruction::I32Eq);
        b.i(Instruction::If(BlockType::Result(ValType::I32)));
        b.i(Instruction::I32Const(8));
        b.i(Instruction::Else);
        b.i(Instruction::I32Const(4));
        b.i(Instruction::End);
        b.i(Instruction::LocalSet(9));
        // result = "["
        Self::emit_alloc_const_str(&mut b, &[91], malloc_idx, 4); // "["
        proof {
            assert((&[91])@ =~= seq![91u8]);
        }
        // i = 0
        b.i(Instruction::I32Const(0));
        b.i(Instruction::LocalSet(3));
        b.i(Instruction::Block(BlockType::Empty));
        b.i(Instruction::Loop(BlockType::Empty));
        // if i >= count: break
        b.i(Instruction::LocalGet(3));
        b.i(Instruction::LocalGet(2));
        b.i(Instruction::I32GeU);
        b.i(Instruction::BrIf(1));
        // if i > 0: result = concat(result, ",")
        b.i(Instruction::LocalGet(3));
        b.i(Instruction::If(BlockType::Empty));
        Self::emit_alloc_const_str(&mut b, &[44], malloc_idx, 8); // ","
        proof {
            assert((&[44])@ =~= seq![44u8]);
        }
        b.i(Instruction::LocalGet(4));
        b.i(Instruction::LocalGet(8));
        b.i(Instruction::Call(string_concat_idx));
        b.i(Instruction::LocalSet(4));
        b.i(Instruction::End);
        // elem_addr = list_ptr + 16 + i * elem_stride
        b.i(Instruction::LocalGet(0));
        b.i(Instruction::I32Const(LIST_DATA_OFFSET as i32));
        b.i(Instruction::I32Add);
        b.i(Instruction::LocalGet(3));
        b.i(Instruction::LocalGet(9));
        b.i(Instruction::I32Mul);
        b.i(Instruction::I32Add);
        b.i(Instruction::LocalSet(6));
        // Dispatch by tag: tag 3 (Number/f64) loads f64 and converts; others load i32
        b.i(Instruction::LocalGet(1));
        b.i(Instruction::I32Const(3));
        b.i(Instruction::I32Eq);
        b.i(Instruction::If(BlockType::Empty));
        b.i(Instruction::LocalGet(6));
        b.i(Instruction::F64Load(MemArg { offset: 0, align: 3, memory_index: 0 }));
        b.i(Instruction::LocalSet(10));
        b.i(Instruction::LocalGet(10));
        b.i(Instruction::Call(float_to_string_idx));
        b.i(Instruction::LocalSet(5));
        b.i(Instruction::Else);
        b.i(Instruction::LocalGet(6));
        b.i(Instruction::I32Load(MemArg { offset: 0, align: 2, memory_index: 0 }));
        b.i(Instruction::LocalSet(7));
        Self::emit_encode_primitive_i32(&mut b, 7, 1, 5, int_to_string_idx, quote_string_idx, malloc_idx);
        b.i(Instruction::End);
        // result = concat(result, elem_str)
        b.i(Instruction::LocalGet(4));
        b.i(Instruction::LocalGet(5));
        b.i(Instruction::Call(string_concat_idx));
        b.i(Instruction::LocalSet(4));
        // i++
        b.i(Instruction::LocalGet(3));
        b.i(Instruction::I32Const(1));
        b.i(Instruction::I32Add);
        b.i(Instruction::LocalSet(3));
        b.i(Instruction::Br(0));
        b.i(Instruction::End); // end loop
        b.i(Instruction::End); // end block
        // result = concat(result, "]")
        Self::emit_alloc_const_str(&mut b, &[93], malloc_idx, 8); // "]"
        proof {
            assert((&[93])@ =~= seq![93u8]);
        }
        b.i(Instruction::LocalGet(4));
        b.i(Instruction::LocalGet(8));
        b.i(Instruction::Call(string_concat_idx));
        b.i(Instruction::LocalSet(4));
        // emit final result
        b.i(Instruction::LocalGet(4));
        b.i(Instruction::End); // end count==0 if
        b.finish()
    }

    /// The instructions `generate_encode_cln_pairs_instructions` returns.
    #[verifier::opaque]
    pub open spec fn encode_cln_pairs_instructions_body(malloc_idx: u32, string_concat_idx: u32, int_to_string_idx: u32, quote_string_idx: u32) -> Seq<Instruction> {
        (Self::encode_primitive_after(
            ((((Seq::<Instruction>::empty()
            .push(Instruction::LocalGet(0))
            .push(Instruction::I32Load(MemArg { offset: 0, align: 2, memory_index: 0 }))
            .push(Instruction::LocalSet(2))
            .push(Instruction::LocalGet(2))
            .push(Instruction::I32Eqz)
            .push(Instruction::If(BlockType::Result(ValType::I32)))
            + alloc_const_str_instrs(seq![123u8, 125u8], malloc_idx, 4))
            .push(Instruction::LocalGet(4))
            .push(Instruction::Else)
            + alloc_const_str_instrs(seq![123u8], malloc_idx, 4))
            .push(Instruction::I32Const(0))
            .push(Instruction::LocalSet(3))
            .push(Instruction::Block(BlockType::Empty))
            .push(Instruction::Loop(BlockType::Empty))
            .push(Instruction::LocalGet(3))
            .push(Instruction::LocalGet(2))
            .push(Instruction::I32GeU)
            .push(Instruction::BrIf(1))
            .push(Instruction::LocalGet(3))
            .push(Instruction::If(BlockType::Empty))
            + alloc_const_str_instrs(seq![44u8], malloc_idx, 10))
            .push(Instruction::LocalGet(4))
            .push(Instruction::LocalGet(10))
            .push(Instruction::Call(string_concat_idx))
            .push(Instruction::LocalSet(4))
            .push(Instruction::End)
            .push(Instruction::LocalGet(0))
            .push(Instruction::I32Const(PAIRS_HEADER_SIZE as i32))
            .push(Instruction::I32Add)
            .push(Instruction::LocalGet(3))
            .push(Instruction::I32Const(PAIRS_ENTRY_SIZE as i32))
            .push(Instruction::I32Mul)
            .push(Instruction::I32Add)
            .push(Instruction::LocalSet(5))
            .push(Instruction::LocalGet(5))
            .push(Instruction::I32Load(MemArg { offset: 0, align: 2, memory_index: 0 }))
            .push(Instruction::LocalSet(6))
            .push(Instruction::LocalGet(5))
            .push(Instruction::I32Load(MemArg { offset: 4, align: 2, memory_index: 0 }))
            .push(Instruction::LocalSet(7))
            .push(Instruction::LocalGet(6))
            .push(Instruction::Call(quote_string_idx))
            .push(Instruction::LocalSet(8))
            .push(Instruction::LocalGet(4))
            .push(Instruction::LocalGet(8))
            .push(Instruction::Call(string_concat_idx))
            .push(Instruction::LocalSet(4))
            + alloc_const_str_instrs(seq![58u8], malloc_idx, 10))
            .push(Instruction::LocalGet(4))
            .push(Instruction::LocalGet(10))
            .push(Instruction::Call(string_concat_idx))
            .push(Instruction::LocalSet(4)),
            7, 1, 9, int_to_string_idx, quote_string_idx, malloc_idx,
        )
            .push(Instruction::LocalGet(4))
            .push(Instruction::LocalGet(9))
            .push(Instruction::Call(string_concat_idx))
            .push(Instruction::LocalSet(4))
            .push(Instruction::LocalGet(3))
            .push(Instruction::I32Const(1))
            .push(Instruction::I32Add)
            .push(Instruction::LocalSet(3))
            .push(Instruction::Br(0))
            .push(Instruction::End)
            .push(Instruction::End)
            + alloc_const_str_instrs(seq![125u8], malloc_idx, 10))
            .push(Instruction::LocalGet(4))
            .push(Instruction::LocalGet(10))
            .push(Instruction::Call(string_concat_idx))
            .push(Instruction::LocalSet(4))
            .push(Instruction::LocalGet(4))
            .push(Instruction::End)
    }

    /// Generate WASM body for `__json_encode_cln_pairs(pairs_ptr: i32, val_tag: i32) -> i32`.
    ///
    /// Walks a native Clean pairs map (header `[count:i32@0][capacity:i32@4]`, entries
    /// from offset 8 as `[key_ptr:i32][val:i32]` of 8 bytes each) and encodes each
    /// entry as `"key":value` directly into a JSON object string. Keys are Clean
    /// strings and are quoted via `__json_quote_string`. Values are dispatched by
    /// `val_tag` (`1`=Integer, `2`=Boolean, `4`=String); other tags emit `null`.
    /// `pairs<K,V>` cannot hold `V=number` because pairs entries are 4 bytes — the
    /// type checker rejects that combination, so a tag-3 case is not handled here.
    #[verifier::rlimit(40)]
    #[verifier::spinoff_prover]
    fn generate_encode_cln_pairs_instructions(&self, malloc_idx: u32, string_concat_idx: u32, int_to_string_idx: u32, quote_string_idx: u32) -> (r: Vec<Instruction>)
        ensures
            body_ok(r@, 11),
            r@ == Self::encode_cln_pairs_instructions_body(malloc_idx, string_concat_idx, int_to_string_idx, quote_string_idx),
    {
        proof {
            reveal(JsonClass::encode_cln_pairs_instructions_body);
        }
        let mut b = Body::new(11);
        // count = mem[pairs_ptr + 0]
        b.i(Instruction::LocalGet(0));
        b.i(Instruction::I32Load(MemArg { offset: 0, align: 2, memory_index: 0 }));
        b.i(Instruction::LocalSet(2));
        // empty? return "{}"
        b.i(Instruction::LocalGet(2));
        b.i(Instruction::I32Eqz);
        b.i(Instruction::If(BlockType::Result(ValType::I32)));
        Self::emit_alloc_const_str(&mut b, &[123, 125], malloc_idx, 4); // "{}"
        proof {
            assert((&[123, 125])@ =~= seq![123u8, 125u8]);
        }
        b.i(Instruction::LocalGet(4));
        b.i(Instruction::Else);
        // result = "{"
        Self::emit_alloc_const_str(&mut b, &[123], malloc_idx, 4); // "{"
        proof {
            assert((&[123])@ =~= seq![123u8]);
        }
        // i = 0
        b.i(Instruction::I32Const(0));
        b.i(Instruction::LocalSet(3));
        b.i(Instruction::Block(BlockType::Empty));
        b.i(Instruction::Loop(BlockType::Empty));
        // if i >= count: break
        b.i(Instruction::LocalGet(3));
        b.i(Instruction::LocalGet(2));
        b.i(Instruction::I32GeU);
        b.i(Instruction::BrIf(1));
        // if i > 0: result = concat(result, ",")
        b.i(Instruction::LocalGet(3));
        b.i(Instruction::If(BlockType::Empty));
        Self::emit_alloc_const_str(&mut b, &[44], malloc_idx, 10); // ","
        proof {
            assert((&[44])@ =~= seq![44u8]);
        }
        b.i(Instruction::LocalGet(4));
        b.i(Instruction::LocalGet(10));
        b.i(Instruction::Call(string_concat_idx));
        b.i(Instruction::LocalSet(4));
        b.i(Instruction::End);
        // entry_addr = pairs_ptr + 8 + i * 8
        b.i(Instruction::LocalGet(0));
        b.i(Instruction::I32Const(PAIRS_HEADER_SIZE as i32));
        b.i(Instruction::I32Add);
        b.i(Instruction::LocalGet(3));
        b.i(Instruction::I32Const(PAIRS_ENTRY_SIZE as i32));
        b.i(Instruction::I32Mul);
        b.i(Instruction::I32Add);
        b.i(Instruction::LocalSet(5));
        // key_ptr = mem[entry_addr + 0]
        b.i(Instruction::LocalGet(5));
        b.i(Instruction::I32Load(MemArg { offset: 0, align: 2, memory_index: 0 }));
        b.i(Instruction::LocalSet(6));
        // val_i32 = mem[entry_addr + 4]
        b.i(Instruction::LocalGet(5));
        b.i(Instruction::I32Load(MemArg { offset: 4, align: 2, memory_index: 0 }));
        b.i(Instruction::LocalSet(7));
        // key_str = quote_string(key_ptr)
        b.i(Instruction::LocalGet(6));
        b.i(Instruction::Call(quote_string_idx));
        b.i(Instruction::LocalSet(8));
        // result = concat(result, key_str)
        b.i(Instruction::LocalGet(4));
        b.i(Instruction::LocalGet(8));
        b.i(Instruction::Call(string_concat_idx));
        b.i(Instruction::LocalSet(4));
        // result = concat(result, ":")
        Self::emit_alloc_const_str(&mut b, &[58], malloc_idx, 10); // ":"
        proof {
            assert((&[58])@ =~= seq![58u8]);
        }
        b.i(Instruction::LocalGet(4));
        b.i(Instruction::LocalGet(10));
        b.i(Instruction::Call(string_concat_idx));
        b.i(Instruction::LocalSet(4));
        // val_str = encode_primitive(val_i32, val_tag)
        Self::emit_encode_primitive_i32(&mut b, 7, 1, 9, int_to_string_idx, quote_string_idx, malloc_idx);
        // result = concat(result, val_str)
        b.i(Instruction::LocalGet(4));
        b.i(Instruction::LocalGet(9));
        b.i(Instruction::Call(string_concat_idx));
        b.i(Instruction::LocalSet(4));
        // i++
        b.i(Instruction::LocalGet(3));
        b.i(Instruction::I32Const(1));
        b.i(Instruction::I32Add);
        b.i(Instruction::LocalSet(3));
        b.i(Instruction::Br(0));
        b.i(Instruction::End); // end loop
        b.i(Instruction::End); // end block
        // result = concat(result, "}")
        Self::emit_alloc_const_str(&mut b, &[125], malloc_idx, 10); // "}"
        proof {
            assert((&[125])@ =~= seq![125u8]);
        }
        b.i(Instruction::LocalGet(4));
        b.i(Instruction::LocalGet(10));
        b.i(Instruction::Call(string_concat_idx));
        b.i(Instruction::LocalSet(4));
        b.i(Instruction::LocalGet(4));
        b.i(Instruction::End); // end count==0 if
        b.finish()
    }

    /// The instructions `generate_from_cln_list_instructions` returns.
    #[verifier::opaque]
    pub open spec fn from_cln_list_instructions_body(malloc_idx: u32) -> Seq<Instruction> {
        seq![
            Instruction::LocalGet(0),
            Instruction::I32Load(MemArg { offset: 0, align: 2, memory_index: 0 }),
            Instruction::LocalSet(2),
            Instruction::LocalGet(2),
            Instruction::I32Const(4),
            Instruction::I32Mul,
            Instruction::I32Const(4),
            Instruction::I32Add,
            Instruction::Call(malloc_idx),
            Instruction::LocalSet(6),
            Instruction::LocalGet(6),
            Instruction::LocalGet(2),
            Instruction::I32Store(MemArg { offset: 0, align: 2, memory_index: 0 }),
            Instruction::LocalGet(1),
            Instruction::I32Const(3),
            Instruction::I32Eq,
            Instruction::If(BlockType::Result(ValType::I32)),
            Instruction::I32Const(8),
            Instruction::Else,
            Instruction::I32Const(4),
            Instruction::End,
            Instruction::LocalSet(8),
            Instruction::I32Const(0),
            Instruction::LocalSet(3),
            Instruction::Block(BlockType::Empty),
            Instruction::Loop(BlockType::Empty),
            Instruction::LocalGet(3),
            Instruction::LocalGet(2),
            Instruction::I32GeU,
            Instruction::BrIf(1),
            Instruction::LocalGet(0),
            Instruction::I32Const(LIST_DATA_OFFSET as i32),
            Instruction::I32Add,
            Instruction::LocalGet(3),
            Instruction::LocalGet(8),
            Instruction::I32Mul,
            Instruction::I32Add,
            Instruction::LocalSet(4),
            Instruction::I32Const(12),
            Instruction::Call(malloc_idx),
            Instruction::LocalSet(5),
            Instruction::LocalGet(5),
            Instruction::LocalGet(1),
            Instruction::I32Store(MemArg { offset: 0, align: 2, memory_index: 0 }),
            Instruction::LocalGet(1),
            Instruction::I32Const(3),
            Instruction::I32Eq,
            Instruction::If(BlockType::Empty),
            Instruction::LocalGet(5),
            Instruction::LocalGet(4),
            Instruction::F64Load(MemArg { offset: 0, align: 3, memory_index: 0 }),
            Instruction::F64Store(MemArg { offset: 4, align: 3, memory_index: 0 }),
            Instruction::Else,
            Instruction::LocalGet(5),
            Instruction::LocalGet(4),
            Instruction::I32Load(MemArg { offset: 0, align: 2, memory_index: 0 }),
            Instruction::I32Store(MemArg { offset: 4, align: 2, memory_index: 0 }),
            Instruction::LocalGet(5),
            Instruction::I32Const(0),
            Instruction::I32Store(MemArg { offset: 8, align: 2, memory_index: 0 }),
            Instruction::End,
            Instruction::LocalGet(6),
            Instruction::I32Const(4),
            Instruction::I32Add,
            Instruction::LocalGet(3),
            Instruction::I32Const(4),
            Instruction::I32Mul,
            Instruction::I32Add,
            Instruction::LocalSet(7),
            Instruction::LocalGet(7),
            Instruction::LocalGet(5),
            Instruction::I32Store(MemArg { offset: 0, align: 2, memory_index: 0 }),
            Instruction::LocalGet(3),
            Instruction::I32Const(1),
            Instruction::I32Add,
            Instruction::LocalSet(3),
            Instruction::Br(0),
            Instruction::End,
            Instruction::End,
            Instruction::LocalGet(6),
        ]
    }

    /// Generate WASM body for `__json_from_cln_list(list_ptr: i32, elem_tag: i32) -> i32`.
    ///
    /// Converts a native Clean list (header `[len@0][cap@4][type_id@8][pad@12]`,
    /// raw elements from offset 16) into the JSON-array tree layout
    /// `[count:i32][boxed_elem_ptr_0:i32]…` that `__json_stringify_array`
    /// expects. Each element is wrapped in a fresh 12-byte boxed Any
    /// `[tag][val_lo][val_hi]` so the recursive stringify walks correctly even
    /// when the Any value is later embedded in a JSON object literal.
    /// Element stride is 8 bytes for `elem_tag == 3` (Number/f64) and 4 bytes
    /// for every other tag.
    ///
    /// is boxed to Any — the box's payload is the converter's result rather
    /// than the raw Clean list pointer.
    #[verifier::rlimit(40)]
    #[verifier::spinoff_prover]
    fn generate_from_cln_list_instructions(&self, malloc_idx: u32) -> (r: Vec<Instruction>)
        ensures
            body_ok(r@, 9),
            r@ == Self::from_cln_list_instructions_body(malloc_idx),
    {
        proof {
            reveal(JsonClass::from_cln_list_instructions_body);
        }
        let mut b = Body::new(9);
        // count = mem[list_ptr + 0]
        b.i(Instruction::LocalGet(0));
        b.i(Instruction::I32Load(MemArg { offset: 0, align: 2, memory_index: 0 }));
        b.i(Instruction::LocalSet(2));
        // json_array_ptr = malloc(4 + count * 4)
        b.i(Instruction::LocalGet(2));
        b.i(Instruction::I32Const(4));
        b.i(Instruction::I32Mul);
        b.i(Instruction::I32Const(4));
        b.i(Instruction::I32Add);
        b.i(Instruction::Call(malloc_idx));
        b.i(Instruction::LocalSet(6));
        // Store count at offset 0 of the JSON array
        b.i(Instruction::LocalGet(6));
        b.i(Instruction::LocalGet(2));
        b.i(Instruction::I32Store(MemArg { offset: 0, align: 2, memory_index: 0 }));
        // elem_stride = (elem_tag == 3) ? 8 : 4
        b.i(Instruction::LocalGet(1));
        b.i(Instruction::I32Const(3));
        b.i(Instruction::I32Eq);
        b.i(Instruction::If(BlockType::Result(ValType::I32)));
        b.i(Instruction::I32Const(8));
        b.i(Instruction::Else);
        b.i(Instruction::I32Const(4));
        b.i(Instruction::End);
        b.i(Instruction::LocalSet(8));
        // i = 0
        b.i(Instruction::I32Const(0));
        b.i(Instruction::LocalSet(3));
        b.i(Instruction::Block(BlockType::Empty));
        b.i(Instruction::Loop(BlockType::Empty));
        // if i >= count: break
        b.i(Instruction::LocalGet(3));
        b.i(Instruction::LocalGet(2));
        b.i(Instruction::I32GeU);
        b.i(Instruction::BrIf(1));
        // elem_addr = list_ptr + 16 + i * elem_stride
        b.i(Instruction::LocalGet(0));
        b.i(Instruction::I32Const(LIST_DATA_OFFSET as i32));
        b.i(Instruction::I32Add);
        b.i(Instruction::LocalGet(3));
        b.i(Instruction::LocalGet(8));
        b.i(Instruction::I32Mul);
        b.i(Instruction::I32Add);
        b.i(Instruction::LocalSet(4));
        // box_ptr = malloc(12)
        b.i(Instruction::I32Const(12));
        b.i(Instruction::Call(malloc_idx));
        b.i(Instruction::LocalSet(5));
        // box_ptr[0] = elem_tag
        b.i(Instruction::LocalGet(5));
        b.i(Instruction::LocalGet(1));
        b.i(Instruction::I32Store(MemArg { offset: 0, align: 2, memory_index: 0 }));
        // Store the value: Number (tag 3) writes a full f64 at offset 4
        // (spanning bytes 4..12, which is where stringify_value's F64Load
        // reads). Other tags write a single i32 at offset 4 and leave
        // offset 8 zero. The store path is selected by a runtime branch
        // on elem_tag because we do not know the type statically here.
        b.i(Instruction::LocalGet(1));
        b.i(Instruction::I32Const(3));
        b.i(Instruction::I32Eq);
        b.i(Instruction::If(BlockType::Empty));
        // f64 case
        b.i(Instruction::LocalGet(5));
        b.i(Instruction::LocalGet(4));
        b.i(Instruction::F64Load(MemArg { offset: 0, align: 3, memory_index: 0 }));
        b.i(Instruction::F64Store(MemArg { offset: 4, align: 3, memory_index: 0 }));
        b.i(Instruction::Else);
        // i32 case
        b.i(Instruction::LocalGet(5));
        b.i(Instruction::LocalGet(4));
        b.i(Instruction::I32Load(MemArg { offset: 0, align: 2, memory_index: 0 }));
        b.i(Instruction::I32Store(MemArg { offset: 4, align: 2, memory_index: 0 }));
        // Zero the padding at offset 8 so stringify_value never reads
        // garbage when it walks past the i32 payload (e.g. for an unboxed
        // f64 reinterpret of a tag=1 box, which would otherwise be
        // implementation-defined behavior).
        b.i(Instruction::LocalGet(5));
        b.i(Instruction::I32Const(0));
        b.i(Instruction::I32Store(MemArg { offset: 8, align: 2, memory_index: 0 }));
        b.i(Instruction::End);
        // dest_slot_addr = json_array_ptr + 4 + i * 4
        b.i(Instruction::LocalGet(6));
        b.i(Instruction::I32Const(4));
        b.i(Instruction::I32Add);
        b.i(Instruction::LocalGet(3));
        b.i(Instruction::I32Const(4));
        b.i(Instruction::I32Mul);
        b.i(Instruction::I32Add);
        b.i(Instruction::LocalSet(7));
        // mem[dest_slot_addr] = box_ptr
        b.i(Instruction::LocalGet(7));
        b.i(Instruction::LocalGet(5));
        b.i(Instruction::I32Store(MemArg { offset: 0, align: 2, memory_index: 0 }));
        // i++
        b.i(Instruction::LocalGet(3));
        b.i(Instruction::I32Const(1));
        b.i(Instruction::I32Add);
        b.i(Instruction::LocalSet(3));
        b.i(Instruction::Br(0));
        b.i(Instruction::End); // end loop
        b.i(Instruction::End); // end block
        b.i(Instruction::LocalGet(6));
        b.finish()
    }

    /// The instructions `generate_from_cln_pairs_instructions` returns.
    #[verifier::opaque]
    pub open spec fn from_cln_pairs_instructions_body(malloc_idx: u32) -> Seq<Instruction> {
        seq![
            Instruction::LocalGet(0),
            Instruction::I32Load(MemArg { offset: 0, align: 2, memory_index: 0 }),
            Instruction::LocalSet(2),
            Instruction::LocalGet(2),
            Instruction::I32Const(8),
            Instruction::I32Mul,
            Instruction::I32Const(4),
            Instruction::I32Add,
            Instruction::Call(malloc_idx),
            Instruction::LocalSet(7),
            Instruction::LocalGet(7),
            Instruction::LocalGet(2),
            Instruction::I32Store(MemArg { offset: 0, align: 2, memory_index: 0 }),
            Instruction::I32Const(0),
            Instruction::LocalSet(3),
            Instruction::Block(BlockType::Empty),
            Instruction::Loop(BlockType::Empty),
            Instruction::LocalGet(3),
            Instruction::LocalGet(2),
            Instruction::I32GeU,
            Instruction::BrIf(1),
            Instruction::LocalGet(0),
            Instruction::I32Const(PAIRS_HEADER_SIZE as i32),
            Instruction::I32Add,
            Instruction::LocalGet(3),
            Instruction::I32Const(PAIRS_ENTRY_SIZE as i32),
            Instruction::I32Mul,
            Instruction::I32Add,
            Instruction::LocalSet(4),
            Instruction::LocalGet(4),
            Instruction::I32Load(MemArg { offset: 0, align: 2, memory_index: 0 }),
            Instruction::LocalSet(5),
            Instruction::LocalGet(4),
            Instruction::I32Load(MemArg { offset: 4, align: 2, memory_index: 0 }),
            Instruction::LocalSet(6),
            Instruction::I32Const(12),
            Instruction::Call(malloc_idx),
            Instruction::LocalSet(8),
            Instruction::LocalGet(8),
            Instruction::LocalGet(1),
            Instruction::I32Store(MemArg { offset: 0, align: 2, memory_index: 0 }),
            Instruction::LocalGet(8),
            Instruction::LocalGet(6),
            Instruction::I32Store(MemArg { offset: 4, align: 2, memory_index: 0 }),
            Instruction::LocalGet(8),
            Instruction::I32Const(0),
            Instruction::I32Store(MemArg { offset: 8, align: 2, memory_index: 0 }),
            Instruction::LocalGet(7),
            Instruction::I32Const(4),
            Instruction::I32Add,
            Instruction::LocalGet(3),
            Instruction::I32Const(8),
            Instruction::I32Mul,
            Instruction::I32Add,
            Instruction::LocalSet(9),
            Instruction::LocalGet(9),
            Instruction::LocalGet(5),
            Instruction::I32Store(MemArg { offset: 0, align: 2, memory_index: 0 }),
            Instruction::LocalGet(9),
            Instruction::LocalGet(8),
            Instruction::I32Store(MemArg { offset: 4, align: 2, memory_index: 0 }),
            Instruction::LocalGet(3),
            Instruction::I32Const(1),
            Instruction::I32Add,
            Instruction::LocalSet(3),
            Instruction::Br(0),
            Instruction::End,
            Instruction::End,
            Instruction::LocalGet(7),
        ]
    }

    /// Generate WASM body for `__json_from_cln_pairs(pairs_ptr: i32, val_tag: i32) -> i32`.
    ///
    /// Converts a native Clean pairs map (header `[count@0][cap@4]`, entries
    /// from offset 8 as `[key_ptr][val]` of 8 bytes) into the JSON-object
    /// tree layout `[count:i32][key_ptr][boxed_val_ptr]…` that
    /// `__json_stringify_object` expects. Each value is wrapped in a fresh
    /// 12-byte boxed Any tagged with `val_tag`; the key string pointer is
    /// reused as-is (strings are immutable and `__json_quote_string` does
    /// not mutate them).
    #[verifier::rlimit(40)]
    #[verifier::spinoff_prover]
    fn generate_from_cln_pairs_instructions(&self, malloc_idx: u32) -> (r: Vec<Instruction>)
        ensures
            body_ok(r@, 10),
            r@ == Self::from_cln_pairs_instructions_body(malloc_idx),
    {
        proof {
            reveal(JsonClass::from_cln_pairs_instructions_body);
        }
        let mut b = Body::new(10);
        // count = mem[pairs_ptr + 0]
        b.i(Instruction::LocalGet(0));
        b.i(Instruction::I32Load(MemArg { offset: 0, align: 2, memory_index: 0 }));
        b.i(Instruction::LocalSet(2));
        // json_object_ptr = malloc(4 + count * 8)
        b.i(Instruction::LocalGet(2));
        b.i(Instruction::I32Const(8));
        b.i(Instruction::I32Mul);
        b.i(Instruction::I32Const(4));
        b.i(Instruction::I32Add);
        b.i(Instruction::Call(malloc_idx));
        b.i(Instruction::LocalSet(7));
        // Store count
        b.i(Instruction::LocalGet(7));
        b.i(Instruction::LocalGet(2));
        b.i(Instruction::I32Store(MemArg { offset: 0, align: 2, memory_index: 0 }));
        // i = 0
        b.i(Instruction::I32Const(0));
        b.i(Instruction::LocalSet(3));
        b.i(Instruction::Block(BlockType::Empty));
        b.i(Instruction::Loop(BlockType::Empty));
        // if i >= count: break
        b.i(Instruction::LocalGet(3));
        b.i(Instruction::LocalGet(2));
        b.i(Instruction::I32GeU);
        b.i(Instruction::BrIf(1));
        // entry_addr = pairs_ptr + 8 + i * 8
        b.i(Instruction::LocalGet(0));
        b.i(Instruction::I32Const(PAIRS_HEADER_SIZE as i32));
        b.i(Instruction::I32Add);
        b.i(Instruction::LocalGet(3));
        b.i(Instruction::I32Const(PAIRS_ENTRY_SIZE as i32));
        b.i(Instruction::I32Mul);
        b.i(Instruction::I32Add);
        b.i(Instruction::LocalSet(4));
        // key_ptr = mem[entry_addr + 0]
        b.i(Instruction::LocalGet(4));
        b.i(Instruction::I32Load(MemArg { offset: 0, align: 2, memory_index: 0 }));
        b.i(Instruction::LocalSet(5));
        // val_raw = mem[entry_addr + 4]
        b.i(Instruction::LocalGet(4));
        b.i(Instruction::I32Load(MemArg { offset: 4, align: 2, memory_index: 0 }));
        b.i(Instruction::LocalSet(6));
        // box_ptr = malloc(12)
        b.i(Instruction::I32Const(12));
        b.i(Instruction::Call(malloc_idx));
        b.i(Instruction::LocalSet(8));
        // box_ptr[0] = val_tag
        b.i(Instruction::LocalGet(8));
        b.i(Instruction::LocalGet(1));
        b.i(Instruction::I32Store(MemArg { offset: 0, align: 2, memory_index: 0 }));
        b.i(Instruction::LocalGet(8));
        b.i(Instruction::LocalGet(6));
        b.i(Instruction::I32Store(MemArg { offset: 4, align: 2, memory_index: 0 }));
        // box_ptr[8] = 0
        b.i(Instruction::LocalGet(8));
        b.i(Instruction::I32Const(0));
        b.i(Instruction::I32Store(MemArg { offset: 8, align: 2, memory_index: 0 }));
        // dest_entry_addr = json_object_ptr + 4 + i * 8
        b.i(Instruction::LocalGet(7));
        b.i(Instruction::I32Const(4));
        b.i(Instruction::I32Add);
        b.i(Instruction::LocalGet(3));
        b.i(Instruction::I32Const(8));
        b.i(Instruction::I32Mul);
        b.i(Instruction::I32Add);
        b.i(Instruction::LocalSet(9));
        // mem[dest_entry_addr + 0] = key_ptr
        b.i(Instruction::LocalGet(9));
        b.i(Instruction::LocalGet(5));
        b.i(Instruction::I32Store(MemArg { offset: 0, align: 2, memory_index: 0 }));
        // mem[dest_entry_addr + 4] = box_ptr
        b.i(Instruction::LocalGet(9));
        b.i(Instruction::LocalGet(8));
        b.i(Instruction::I32Store(MemArg { offset: 4, align: 2, memory_index: 0 }));
        // i++
        b.i(Instruction::LocalGet(3));
        b.i(Instruction::I32Const(1));
        b.i(Instruction::I32Add);
        b.i(Instruction::LocalSet(3));
        b.i(Instruction::Br(0));
        b.i(Instruction::End); // end loop
        b.i(Instruction::End); // end block
        b.i(Instruction::LocalGet(7));
        b.finish()
    }

    /// The instructions `generate_skip_string_instructions` returns.
    #[verifier::opaque]
    pub open spec fn skip_string_instructions_body() -> Seq<Instruction> {
        seq![
            Instruction::LocalGet(1),
            Instruction::I32Load(MemArg { offset: 0, align: 2, memory_index: 0 }),
            Instruction::LocalSet(3),
            Instruction::LocalGet(3),
            Instruction::I32Const(1),
            Instruction::I32Add,
            Instruction::LocalSet(3),
            Instruction::Block(BlockType::Empty),
            Instruction::Loop(BlockType::Empty),
            Instruction::LocalGet(3),
            Instruction::LocalGet(2),
            Instruction::I32GeU,
            Instruction::BrIf(1),
            Instruction::LocalGet(0),
            Instruction::I32Const(4),
            Instruction::I32Add,
            Instruction::LocalGet(3),
            Instruction::I32Add,
            Instruction::I32Load8U(MemArg { offset: 0, align: 0, memory_index: 0 }),
            Instruction::LocalSet(4),
            Instruction::LocalGet(3),
            Instruction::I32Const(1),
            Instruction::I32Add,
            Instruction::LocalSet(3),
            Instruction::LocalGet(4),
            Instruction::I32Const(34),
            Instruction::I32Eq,
            Instruction::BrIf(1),
            Instruction::LocalGet(4),
            Instruction::I32Const(92),
            Instruction::I32Eq,
            Instruction::If(BlockType::Empty),
            Instruction::LocalGet(3),
            Instruction::I32Const(1),
            Instruction::I32Add,
            Instruction::LocalSet(3),
            Instruction::End,
            Instruction::Br(0),
            Instruction::End,
            Instruction::End,
            Instruction::LocalGet(1),
            Instruction::LocalGet(3),
            Instruction::I32Store(MemArg { offset: 0, align: 2, memory_index: 0 }),
        ]
    }

    /// Generate WASM instructions for __json_skip_string
    ///
    /// Advances the position stored at `position_ptr` past a complete JSON string,
    /// including correctly handling backslash escape sequences so that a `\"` inside
    /// a string does not terminate the scan prematurely.
    ///
    /// Precondition: position_ptr holds the index of the opening `"` character.
    /// Postcondition: position_ptr holds the index of the byte *after* the closing `"`.
    ///
    /// Parameters:
    /// - Local 0: string_ptr  (i32)  — pointer to Clean Language string [len][bytes…]
    /// - Local 1: position_ptr (i32) — pointer to i32 position cell
    /// - Local 2: length (i32)       — total byte length of the JSON text
    ///
    /// Working locals:
    /// - Local 3: position (cached)
    /// - Local 4: current_char
    #[verifier::rlimit(40)]
    #[verifier::spinoff_prover]
    fn generate_skip_string_instructions(&self) -> (r: Vec<Instruction>)
        ensures
            body_ok(r@, 5),
            r@ == Self::skip_string_instructions_body(),
    {
        proof {
            reveal(JsonClass::skip_string_instructions_body);
        }
        let mut b = Body::new(5);
        // Load position from position_ptr into local cache
        b.i(Instruction::LocalGet(1));
        b.i(Instruction::I32Load(MemArg { offset: 0, align: 2, memory_index: 0 }));
        b.i(Instruction::LocalSet(3));
        // Skip the opening '"'
        b.i(Instruction::LocalGet(3));
        b.i(Instruction::I32Const(1));
        b.i(Instruction::I32Add);
        b.i(Instruction::LocalSet(3));
        // Scan loop: advance until we find the unescaped closing '"'
        b.i(Instruction::Block(BlockType::Empty)); // outer_block  exit=1
        b.i(Instruction::Loop(BlockType::Empty)); // scan_loop    restart=0
        // bounds check
        b.i(Instruction::LocalGet(3));
        b.i(Instruction::LocalGet(2));
        b.i(Instruction::I32GeU);
        b.i(Instruction::BrIf(1)); // exit outer_block (end of input, no closing quote)
        // load char at string_ptr + 4 + position
        b.i(Instruction::LocalGet(0));
        b.i(Instruction::I32Const(4));
        b.i(Instruction::I32Add);
        b.i(Instruction::LocalGet(3));
        b.i(Instruction::I32Add);
        b.i(Instruction::I32Load8U(MemArg { offset: 0, align: 0, memory_index: 0 }));
        b.i(Instruction::LocalSet(4));
        // position++
        b.i(Instruction::LocalGet(3));
        b.i(Instruction::I32Const(1));
        b.i(Instruction::I32Add);
        b.i(Instruction::LocalSet(3));
        // if char == '"': closing quote found → exit
        b.i(Instruction::LocalGet(4));
        b.i(Instruction::I32Const(34)); // '"'
        b.i(Instruction::I32Eq);
        b.i(Instruction::BrIf(1)); // exit outer_block
        // if char == '\\': skip the next byte (escaped character)
        b.i(Instruction::LocalGet(4));
        b.i(Instruction::I32Const(92)); // '\\'
        b.i(Instruction::I32Eq);
        b.i(Instruction::If(BlockType::Empty));
        b.i(Instruction::LocalGet(3));
        b.i(Instruction::I32Const(1));
        b.i(Instruction::I32Add);
        b.i(Instruction::LocalSet(3)); // skip escaped char
        b.i(Instruction::End);
        b.i(Instruction::Br(0)); // continue scan_loop
        b.i(Instruction::End); // end scan_loop
        b.i(Instruction::End); // end outer_block
        // Write updated position back to position_ptr
        b.i(Instruction::LocalGet(1));
        b.i(Instruction::LocalGet(3));
        b.i(Instruction::I32Store(MemArg { offset: 0, align: 2, memory_index: 0 }));
        b.finish()
    }

    /// The instructions `generate_parse_string_instructions` returns.
    #[verifier::opaque]
    pub open spec fn parse_string_instructions_body(malloc_index: u32) -> Seq<Instruction> {
        let s = Self::parse_string_instructions_part_1(Seq::<Instruction>::empty(), malloc_index);
        Self::parse_string_instructions_part_2(s, malloc_index)
    }

    /// Generate WASM instructions for __json_parse_string
    ///
    /// Parses a JSON string starting at the `"` whose position is in `position_ptr`.
    /// Allocates a new Clean Language string buffer, writes decoded bytes (including
    /// fully-resolved escape sequences), stores the final length, updates `position_ptr`
    /// to point past the closing `"`, and returns a pointer to the new string.
    ///
    /// Escape handling:
    /// `\"` → 34   `\\` → 92   `\/` → 47   `\n` → 10   `\r` → 13
    /// `\t` →  9   `\b` →  8   `\f` → 12   `\uXXXX` → '?' (63) placeholder
    /// any other `\X` → X (pass-through)
    ///
    /// Parameters:
    /// - Local 0: string_ptr   (i32) — pointer to Clean Language string [len][bytes…]
    /// - Local 1: position_ptr (i32) — pointer to i32 position cell (AT opening `"`)
    /// - Local 2: length       (i32) — total JSON byte length
    ///
    /// Working locals:
    /// - Local 3: position (cached)
    /// - Local 4: current_char
    /// - Local 5: out_ptr (allocated output buffer)
    /// - Local 6: out_write_pos (number of bytes written so far)
    /// - Local 7: next_char (for escape processing)
    fn generate_parse_string_instructions(&self, malloc_index: u32) -> (r: Vec<Instruction>)
        ensures
            body_ok(r@, 8),
            r@ == Self::parse_string_instructions_body(malloc_index),
    {
        let mut b = Body::new(8);
        Self::generate_parse_string_instructions_1(&mut b, malloc_index);
        Self::generate_parse_string_instructions_2(&mut b, malloc_index);
        proof {
            reveal(JsonClass::parse_string_instructions_body);
        }
        b.finish()
    }

    /// Part 1 of `parse_string_instructions_body`, after `s`.
    #[verifier::opaque]
    pub open spec fn parse_string_instructions_part_1(s: Seq<Instruction>, malloc_index: u32) -> Seq<Instruction> {
        s
            .push(Instruction::LocalGet(1))
            .push(Instruction::I32Load(MemArg { offset: 0, align: 2, memory_index: 0 }))
            .push(Instruction::LocalSet(3))
            .push(Instruction::LocalGet(3))
            .push(Instruction::I32Const(1))
            .push(Instruction::I32Add)
            .push(Instruction::LocalSet(3))
            .push(Instruction::I32Const(4))
            .push(Instruction::LocalGet(2))
            .push(Instruction::I32Add)
            .push(Instruction::Call(malloc_index))
            .push(Instruction::LocalSet(5))
            .push(Instruction::I32Const(0))
            .push(Instruction::LocalSet(6))
            .push(Instruction::Block(BlockType::Empty))
            .push(Instruction::Loop(BlockType::Empty))
            .push(Instruction::LocalGet(3))
            .push(Instruction::LocalGet(2))
            .push(Instruction::I32GeU)
            .push(Instruction::BrIf(1))
            .push(Instruction::LocalGet(0))
            .push(Instruction::I32Const(4))
            .push(Instruction::I32Add)
            .push(Instruction::LocalGet(3))
            .push(Instruction::I32Add)
            .push(Instruction::I32Load8U(MemArg { offset: 0, align: 0, memory_index: 0 }))
            .push(Instruction::LocalSet(4))
            .push(Instruction::LocalGet(3))
            .push(Instruction::I32Const(1))
            .push(Instruction::I32Add)
            .push(Instruction::LocalSet(3))
            .push(Instruction::LocalGet(4))
            .push(Instruction::I32Const(34))
            .push(Instruction::I32Eq)
            .push(Instruction::BrIf(1))
            .push(Instruction::LocalGet(4))
            .push(Instruction::I32Const(92))
            .push(Instruction::I32Eq)
            .push(Instruction::If(BlockType::Empty))
            .push(Instruction::LocalGet(3))
            .push(Instruction::LocalGet(2))
            .push(Instruction::I32GeU)
            .push(Instruction::If(BlockType::Empty))
            .push(Instruction::Br(3))
            .push(Instruction::End)
            .push(Instruction::LocalGet(0))
            .push(Instruction::I32Const(4))
            .push(Instruction::I32Add)
            .push(Instruction::LocalGet(3))
            .push(Instruction::I32Add)
            .push(Instruction::I32Load8U(MemArg { offset: 0, align: 0, memory_index: 0 }))
            .push(Instruction::LocalSet(7))
            .push(Instruction::LocalGet(3))
            .push(Instruction::I32Const(1))
            .push(Instruction::I32Add)
            .push(Instruction::LocalSet(3))
            .push(Instruction::LocalGet(7))
            .push(Instruction::I32Const(34))
            .push(Instruction::I32Eq)
            .push(Instruction::If(BlockType::Empty))
            .push(Instruction::I32Const(34))
            .push(Instruction::LocalSet(4))
            .push(Instruction::Else)
            .push(Instruction::LocalGet(7))
            .push(Instruction::I32Const(92))
            .push(Instruction::I32Eq)
            .push(Instruction::If(BlockType::Empty))
            .push(Instruction::I32Const(92))
            .push(Instruction::LocalSet(4))
            .push(Instruction::Else)
            .push(Instruction::LocalGet(7))
            .push(Instruction::I32Const(47))
            .push(Instruction::I32Eq)
            .push(Instruction::If(BlockType::Empty))
            .push(Instruction::I32Const(47))
            .push(Instruction::LocalSet(4))
            .push(Instruction::Else)
            .push(Instruction::LocalGet(7))
            .push(Instruction::I32Const(110))
            .push(Instruction::I32Eq)
            .push(Instruction::If(BlockType::Empty))
            .push(Instruction::I32Const(10))
            .push(Instruction::LocalSet(4))
            .push(Instruction::Else)
            .push(Instruction::LocalGet(7))
            .push(Instruction::I32Const(114))
            .push(Instruction::I32Eq)
            .push(Instruction::If(BlockType::Empty))
            .push(Instruction::I32Const(13))
            .push(Instruction::LocalSet(4))
    }

    /// Part 1 of `generate_parse_string_instructions`.
    #[verifier::rlimit(40)]
    #[verifier::spinoff_prover]
    fn generate_parse_string_instructions_1(b: &mut Body, malloc_index: u32)
        requires
            old(b).wf(),
            old(b).open_blocks() == 0,
            old(b).n_locals() == 8,
        ensures
            final(b).wf(),
            final(b).open_blocks() == 8,
            final(b).n_locals() == 8,
            final(b).instrs() == Self::parse_string_instructions_part_1(old(b).instrs(), malloc_index),
    {
        proof {
            reveal(JsonClass::parse_string_instructions_part_1);
        }
        // Load position from position_ptr
        b.i(Instruction::LocalGet(1));
        b.i(Instruction::I32Load(MemArg { offset: 0, align: 2, memory_index: 0 }));
        b.i(Instruction::LocalSet(3));
        // Skip the opening '"'
        b.i(Instruction::LocalGet(3));
        b.i(Instruction::I32Const(1));
        b.i(Instruction::I32Add);
        b.i(Instruction::LocalSet(3));
        // Allocate output buffer: 4-byte length header + at most `length` content bytes
        // The worst case is that every byte of the original JSON maps to one output byte.
        b.i(Instruction::I32Const(4));
        b.i(Instruction::LocalGet(2));
        b.i(Instruction::I32Add);
        b.i(Instruction::Call(malloc_index));
        b.i(Instruction::LocalSet(5)); // out_ptr
        // out_write_pos = 0
        b.i(Instruction::I32Const(0));
        b.i(Instruction::LocalSet(6));
        // Parse loop
        b.i(Instruction::Block(BlockType::Empty)); // outer_block  exit=1
        b.i(Instruction::Loop(BlockType::Empty)); // parse_loop   restart=0
        // bounds check
        b.i(Instruction::LocalGet(3));
        b.i(Instruction::LocalGet(2));
        b.i(Instruction::I32GeU);
        b.i(Instruction::BrIf(1)); // exit if end of input
        // load char at string_ptr + 4 + position
        b.i(Instruction::LocalGet(0));
        b.i(Instruction::I32Const(4));
        b.i(Instruction::I32Add);
        b.i(Instruction::LocalGet(3));
        b.i(Instruction::I32Add);
        b.i(Instruction::I32Load8U(MemArg { offset: 0, align: 0, memory_index: 0 }));
        b.i(Instruction::LocalSet(4));
        // position++
        b.i(Instruction::LocalGet(3));
        b.i(Instruction::I32Const(1));
        b.i(Instruction::I32Add);
        b.i(Instruction::LocalSet(3));
        // if char == '"': end of string
        b.i(Instruction::LocalGet(4));
        b.i(Instruction::I32Const(34)); // '"'
        b.i(Instruction::I32Eq);
        b.i(Instruction::BrIf(1)); // exit outer_block
        // if char == '\\': handle escape sequence
        b.i(Instruction::LocalGet(4));
        b.i(Instruction::I32Const(92)); // '\\'
        b.i(Instruction::I32Eq);
        b.i(Instruction::If(BlockType::Empty));
        // bounds check before reading next char
        b.i(Instruction::LocalGet(3));
        b.i(Instruction::LocalGet(2));
        b.i(Instruction::I32GeU);
        b.i(Instruction::If(BlockType::Empty));
        b.i(Instruction::Br(3)); // exit outer_block (truncated escape at end of input)
        b.i(Instruction::End);
        // read next_char
        b.i(Instruction::LocalGet(0));
        b.i(Instruction::I32Const(4));
        b.i(Instruction::I32Add);
        b.i(Instruction::LocalGet(3));
        b.i(Instruction::I32Add);
        b.i(Instruction::I32Load8U(MemArg { offset: 0, align: 0, memory_index: 0 }));
        b.i(Instruction::LocalSet(7));
        // position++
        b.i(Instruction::LocalGet(3));
        b.i(Instruction::I32Const(1));
        b.i(Instruction::I32Add);
        b.i(Instruction::LocalSet(3));
        // Map next_char → output byte, stored back into local 4
        // '"' (34)
        b.i(Instruction::LocalGet(7));
        b.i(Instruction::I32Const(34));
        b.i(Instruction::I32Eq);
        b.i(Instruction::If(BlockType::Empty));
        b.i(Instruction::I32Const(34));
        b.i(Instruction::LocalSet(4));
        b.i(Instruction::Else);
        // '\\' (92)
        b.i(Instruction::LocalGet(7));
        b.i(Instruction::I32Const(92));
        b.i(Instruction::I32Eq);
        b.i(Instruction::If(BlockType::Empty));
        b.i(Instruction::I32Const(92));
        b.i(Instruction::LocalSet(4));
        b.i(Instruction::Else);
        // '/' (47)
        b.i(Instruction::LocalGet(7));
        b.i(Instruction::I32Const(47));
        b.i(Instruction::I32Eq);
        b.i(Instruction::If(BlockType::Empty));
        b.i(Instruction::I32Const(47));
        b.i(Instruction::LocalSet(4));
        b.i(Instruction::Else);
        // 'n' (110) → newline (10)
        b.i(Instruction::LocalGet(7));
        b.i(Instruction::I32Const(110));
        b.i(Instruction::I32Eq);
        b.i(Instruction::If(BlockType::Empty));
        b.i(Instruction::I32Const(10));
        b.i(Instruction::LocalSet(4));
        b.i(Instruction::Else);
        // 'r' (114) → carriage return (13)
        b.i(Instruction::LocalGet(7));
        b.i(Instruction::I32Const(114));
        b.i(Instruction::I32Eq);
        b.i(Instruction::If(BlockType::Empty));
        b.i(Instruction::I32Const(13));
        b.i(Instruction::LocalSet(4));
    }

    /// Part 2 of `parse_string_instructions_body`, after `s`.
    #[verifier::opaque]
    pub open spec fn parse_string_instructions_part_2(s: Seq<Instruction>, malloc_index: u32) -> Seq<Instruction> {
        s
            .push(Instruction::Else)
            .push(Instruction::LocalGet(7))
            .push(Instruction::I32Const(116))
            .push(Instruction::I32Eq)
            .push(Instruction::If(BlockType::Empty))
            .push(Instruction::I32Const(9))
            .push(Instruction::LocalSet(4))
            .push(Instruction::Else)
            .push(Instruction::LocalGet(7))
            .push(Instruction::I32Const(98))
            .push(Instruction::I32Eq)
            .push(Instruction::If(BlockType::Empty))
            .push(Instruction::I32Const(8))
            .push(Instruction::LocalSet(4))
            .push(Instruction::Else)
            .push(Instruction::LocalGet(7))
            .push(Instruction::I32Const(102))
            .push(Instruction::I32Eq)
            .push(Instruction::If(BlockType::Empty))
            .push(Instruction::I32Const(12))
            .push(Instruction::LocalSet(4))
            .push(Instruction::Else)
            .push(Instruction::LocalGet(7))
            .push(Instruction::I32Const(117))
            .push(Instruction::I32Eq)
            .push(Instruction::If(BlockType::Empty))
            .push(Instruction::LocalGet(3))
            .push(Instruction::I32Const(4))
            .push(Instruction::I32Add)
            .push(Instruction::LocalSet(3))
            .push(Instruction::I32Const(63))
            .push(Instruction::LocalSet(4))
            .push(Instruction::Else)
            .push(Instruction::LocalGet(7))
            .push(Instruction::LocalSet(4))
            .push(Instruction::End)
            .push(Instruction::End)
            .push(Instruction::End)
            .push(Instruction::End)
            .push(Instruction::End)
            .push(Instruction::End)
            .push(Instruction::End)
            .push(Instruction::End)
            .push(Instruction::End)
            .push(Instruction::LocalGet(5))
            .push(Instruction::I32Const(4))
            .push(Instruction::I32Add)
            .push(Instruction::LocalGet(6))
            .push(Instruction::I32Add)
            .push(Instruction::LocalGet(4))
            .push(Instruction::I32Store8(MemArg { offset: 0, align: 0, memory_index: 0 }))
            .push(Instruction::LocalGet(6))
            .push(Instruction::I32Const(1))
            .push(Instruction::I32Add)
            .push(Instruction::LocalSet(6))
            .push(Instruction::Br(1))
            .push(Instruction::End)
            .push(Instruction::LocalGet(5))
            .push(Instruction::I32Const(4))
            .push(Instruction::I32Add)
            .push(Instruction::LocalGet(6))
            .push(Instruction::I32Add)
            .push(Instruction::LocalGet(4))
            .push(Instruction::I32Store8(MemArg { offset: 0, align: 0, memory_index: 0 }))
            .push(Instruction::LocalGet(6))
            .push(Instruction::I32Const(1))
            .push(Instruction::I32Add)
            .push(Instruction::LocalSet(6))
            .push(Instruction::Br(0))
            .push(Instruction::End)
            .push(Instruction::End)
            .push(Instruction::LocalGet(5))
            .push(Instruction::LocalGet(6))
            .push(Instruction::I32Store(MemArg { offset: 0, align: 2, memory_index: 0 }))
            .push(Instruction::LocalGet(1))
            .push(Instruction::LocalGet(3))
            .push(Instruction::I32Store(MemArg { offset: 0, align: 2, memory_index: 0 }))
            .push(Instruction::LocalGet(5))
    }

    /// Part 2 of `generate_parse_string_instructions`.
    #[verifier::rlimit(40)]
    #[verifier::spinoff_prover]
    fn generate_parse_string_instructions_2(b: &mut Body, malloc_index: u32)
        requires
            old(b).wf(),
            old(b).open_blocks() == 8,
            old(b).n_locals() == 8,
        ensures
            final(b).wf(),
            final(b).open_blocks() == 0,
            final(b).n_locals() == 8,
            final(b).instrs() == Self::parse_string_instructions_part_2(old(b).instrs(), malloc_index),
    {
        proof {
            reveal(JsonClass::parse_string_instructions_part_2);
        }
        b.i(Instruction::Else);
        // 't' (116) → tab (9)
        b.i(Instruction::LocalGet(7));
        b.i(Instruction::I32Const(116));
        b.i(Instruction::I32Eq);
        b.i(Instruction::If(BlockType::Empty));
        b.i(Instruction::I32Const(9));
        b.i(Instruction::LocalSet(4));
        b.i(Instruction::Else);
        // 'b' (98) → backspace (8)
        b.i(Instruction::LocalGet(7));
        b.i(Instruction::I32Const(98));
        b.i(Instruction::I32Eq);
        b.i(Instruction::If(BlockType::Empty));
        b.i(Instruction::I32Const(8));
        b.i(Instruction::LocalSet(4));
        b.i(Instruction::Else);
        // 'f' (102) → form feed (12)
        b.i(Instruction::LocalGet(7));
        b.i(Instruction::I32Const(102));
        b.i(Instruction::I32Eq);
        b.i(Instruction::If(BlockType::Empty));
        b.i(Instruction::I32Const(12));
        b.i(Instruction::LocalSet(4));
        b.i(Instruction::Else);
        // 'u' (117) → \uXXXX: skip 4 hex digits, emit '?' (63)
        b.i(Instruction::LocalGet(7));
        b.i(Instruction::I32Const(117));
        b.i(Instruction::I32Eq);
        b.i(Instruction::If(BlockType::Empty));
        b.i(Instruction::LocalGet(3));
        b.i(Instruction::I32Const(4));
        b.i(Instruction::I32Add);
        b.i(Instruction::LocalSet(3)); // skip 4 hex digits
        b.i(Instruction::I32Const(63));
        b.i(Instruction::LocalSet(4)); // '?'
        b.i(Instruction::Else);
        // unknown escape: pass next_char through unchanged
        b.i(Instruction::LocalGet(7));
        b.i(Instruction::LocalSet(4));
        b.i(Instruction::End); // 'u'
        b.i(Instruction::End); // 'f'
        b.i(Instruction::End); // 'b'
        b.i(Instruction::End); // 't'
        b.i(Instruction::End); // 'r'
        b.i(Instruction::End); // 'n'
        b.i(Instruction::End); // '/'
        b.i(Instruction::End); // '\\'
        b.i(Instruction::End); // '"'
        // Write the decoded byte (local 4) to out_ptr[4 + out_write_pos]
        b.i(Instruction::LocalGet(5));
        b.i(Instruction::I32Const(4));
        b.i(Instruction::I32Add);
        b.i(Instruction::LocalGet(6));
        b.i(Instruction::I32Add);
        b.i(Instruction::LocalGet(4));
        b.i(Instruction::I32Store8(MemArg { offset: 0, align: 0, memory_index: 0 }));
        b.i(Instruction::LocalGet(6));
        b.i(Instruction::I32Const(1));
        b.i(Instruction::I32Add);
        b.i(Instruction::LocalSet(6)); // out_write_pos++
        b.i(Instruction::Br(1)); // continue parse_loop
        b.i(Instruction::End); // end escape if
        // Not an escape: write the raw byte directly
        b.i(Instruction::LocalGet(5));
        b.i(Instruction::I32Const(4));
        b.i(Instruction::I32Add);
        b.i(Instruction::LocalGet(6));
        b.i(Instruction::I32Add);
        b.i(Instruction::LocalGet(4));
        b.i(Instruction::I32Store8(MemArg { offset: 0, align: 0, memory_index: 0 }));
        b.i(Instruction::LocalGet(6));
        b.i(Instruction::I32Const(1));
        b.i(Instruction::I32Add);
        b.i(Instruction::LocalSet(6)); // out_write_pos++
        b.i(Instruction::Br(0)); // continue parse_loop
        b.i(Instruction::End); // end parse_loop
        b.i(Instruction::End); // end outer_block
        // Store the actual byte count into the length header at out_ptr[0]
        b.i(Instruction::LocalGet(5));
        b.i(Instruction::LocalGet(6));
        b.i(Instruction::I32Store(MemArg { offset: 0, align: 2, memory_index: 0 }));
        // Write updated position back to position_ptr
        b.i(Instruction::LocalGet(1));
        b.i(Instruction::LocalGet(3));
        b.i(Instruction::I32Store(MemArg { offset: 0, align: 2, memory_index: 0 }));
        // Return out_ptr (pointer to new Clean Language string)
        b.i(Instruction::LocalGet(5));
    }

    /// The instructions `generate_parse_value_instructions` returns.
    #[verifier::opaque]
    pub open spec fn parse_value_instructions_body(parse_object_index: u32, parse_array_index: u32, parse_string_index: u32, malloc_index: u32) -> Seq<Instruction> {
        let s = Self::parse_value_instructions_part_1(Seq::<Instruction>::empty(), parse_object_index, parse_array_index, parse_string_index, malloc_index);
        let s = Self::parse_value_instructions_part_2(s, parse_object_index, parse_array_index, parse_string_index, malloc_index);
        let s = Self::parse_value_instructions_part_3(s, parse_object_index, parse_array_index, parse_string_index, malloc_index);
        let s = Self::parse_value_instructions_part_4(s, parse_object_index, parse_array_index, parse_string_index, malloc_index);
        let s = Self::parse_value_instructions_part_5(s, parse_object_index, parse_array_index, parse_string_index, malloc_index);
        let s = Self::parse_value_instructions_part_6(s, parse_object_index, parse_array_index, parse_string_index, malloc_index);
        Self::parse_value_instructions_part_7(s, parse_object_index, parse_array_index, parse_string_index, malloc_index)
    }

    /// Generate WASM instructions for __json_parse_value
    /// Dispatches to appropriate parser based on value type
    ///
    /// Parameters:
    /// - string_ptr (i32): Pointer to JSON string
    /// - position_ptr (i32): Memory location containing current position
    /// - length (i32): String length
    ///
    /// Returns:
    /// - i32: Pointer to parsed value (or 0 for null)
    fn generate_parse_value_instructions(&self, parse_object_index: u32, parse_array_index: u32, parse_string_index: u32, malloc_index: u32) -> (r: Vec<Instruction>)
        ensures
            body_ok(r@, 15),
            r@ == Self::parse_value_instructions_body(parse_object_index, parse_array_index, parse_string_index, malloc_index),
    {
        let mut b = Body::new(15);
        Self::generate_parse_value_instructions_1(&mut b, parse_object_index, parse_array_index, parse_string_index, malloc_index);
        Self::generate_parse_value_instructions_2(&mut b, parse_object_index, parse_array_index, parse_string_index, malloc_index);
        Self::generate_parse_value_instructions_3(&mut b, parse_object_index, parse_array_index, parse_string_index, malloc_index);
        Self::generate_parse_value_instructions_4(&mut b, parse_object_index, parse_array_index, parse_string_index, malloc_index);
        Self::generate_parse_value_instructions_5(&mut b, parse_object_index, parse_array_index, parse_string_index, malloc_index);
        Self::generate_parse_value_instructions_6(&mut b, parse_object_index, parse_array_index, parse_string_index, malloc_index);
        Self::generate_parse_value_instructions_7(&mut b, parse_object_index, parse_array_index, parse_string_index, malloc_index);
        proof {
            reveal(JsonClass::parse_value_instructions_body);
        }
        b.finish()
    }

    /// Part 1 of `parse_value_instructions_body`, after `s`.
    #[verifier::opaque]
    pub open spec fn parse_value_instructions_part_1(s: Seq<Instruction>, parse_object_index: u32, parse_array_index: u32, parse_string_index: u32, malloc_index: u32) -> Seq<Instruction> {
        s
            .push(Instruction::LocalGet(1))
            .push(Instruction::I32Load(MemArg { offset: 0, align: 2, memory_index: 0 }))
            .push(Instruction::LocalSet(3))
            .push(Instruction::Block(BlockType::Empty))
            .push(Instruction::Loop(BlockType::Empty))
            .push(Instruction::LocalGet(3))
            .push(Instruction::LocalGet(2))
            .push(Instruction::I32GeU)
            .push(Instruction::BrIf(1))
            .push(Instruction::LocalGet(0))
            .push(Instruction::I32Const(4))
            .push(Instruction::I32Add)
            .push(Instruction::LocalGet(3))
            .push(Instruction::I32Add)
            .push(Instruction::I32Load8U(MemArg { offset: 0, align: 0, memory_index: 0 }))
            .push(Instruction::LocalSet(4))
            .push(Instruction::LocalGet(4))
            .push(Instruction::I32Const(32))
            .push(Instruction::I32Eq)
            .push(Instruction::LocalGet(4))
            .push(Instruction::I32Const(9))
            .push(Instruction::I32Eq)
            .push(Instruction::I32Or)
            .push(Instruction::LocalGet(4))
            .push(Instruction::I32Const(10))
            .push(Instruction::I32Eq)
            .push(Instruction::I32Or)
            .push(Instruction::LocalGet(4))
            .push(Instruction::I32Const(13))
            .push(Instruction::I32Eq)
            .push(Instruction::I32Or)
            .push(Instruction::If(BlockType::Empty))
            .push(Instruction::LocalGet(3))
            .push(Instruction::I32Const(1))
            .push(Instruction::I32Add)
            .push(Instruction::LocalSet(3))
            .push(Instruction::Br(1))
            .push(Instruction::End)
            .push(Instruction::Br(1))
            .push(Instruction::End)
            .push(Instruction::End)
            .push(Instruction::LocalGet(4))
            .push(Instruction::I32Const(123))
            .push(Instruction::I32Eq)
            .push(Instruction::If(BlockType::Result(ValType::I32)))
            .push(Instruction::LocalGet(1))
            .push(Instruction::LocalGet(3))
            .push(Instruction::I32Store(MemArg { offset: 0, align: 2, memory_index: 0 }))
            .push(Instruction::LocalGet(0))
            .push(Instruction::LocalGet(1))
            .push(Instruction::LocalGet(2))
            .push(Instruction::Call(parse_object_index))
            .push(Instruction::LocalSet(5))
            .push(Instruction::I32Const(12))
            .push(Instruction::Call(malloc_index))
            .push(Instruction::LocalSet(9))
            .push(Instruction::LocalGet(9))
            .push(Instruction::I32Const(6))
            .push(Instruction::I32Store(MemArg { offset: 0, align: 2, memory_index: 0 }))
            .push(Instruction::LocalGet(9))
            .push(Instruction::LocalGet(5))
            .push(Instruction::I32Store(MemArg { offset: 4, align: 2, memory_index: 0 }))
            .push(Instruction::LocalGet(9))
            .push(Instruction::I32Const(0))
            .push(Instruction::I32Store(MemArg { offset: 8, align: 2, memory_index: 0 }))
            .push(Instruction::LocalGet(9))
            .push(Instruction::Else)
            .push(Instruction::LocalGet(4))
            .push(Instruction::I32Const(91))
            .push(Instruction::I32Eq)
            .push(Instruction::If(BlockType::Result(ValType::I32)))
            .push(Instruction::LocalGet(1))
            .push(Instruction::LocalGet(3))
            .push(Instruction::I32Store(MemArg { offset: 0, align: 2, memory_index: 0 }))
            .push(Instruction::LocalGet(0))
            .push(Instruction::LocalGet(1))
            .push(Instruction::LocalGet(2))
            .push(Instruction::Call(parse_array_index))
            .push(Instruction::LocalSet(5))
            .push(Instruction::I32Const(12))
            .push(Instruction::Call(malloc_index))
            .push(Instruction::LocalSet(9))
            .push(Instruction::LocalGet(9))
            .push(Instruction::I32Const(5))
            .push(Instruction::I32Store(MemArg { offset: 0, align: 2, memory_index: 0 }))
            .push(Instruction::LocalGet(9))
            .push(Instruction::LocalGet(5))
            .push(Instruction::I32Store(MemArg { offset: 4, align: 2, memory_index: 0 }))
            .push(Instruction::LocalGet(9))
            .push(Instruction::I32Const(0))
    }

    /// Part 1 of `generate_parse_value_instructions`.
    #[verifier::rlimit(40)]
    #[verifier::spinoff_prover]
    fn generate_parse_value_instructions_1(b: &mut Body, parse_object_index: u32, parse_array_index: u32, parse_string_index: u32, malloc_index: u32)
        requires
            old(b).wf(),
            old(b).open_blocks() == 0,
            old(b).n_locals() == 15,
        ensures
            final(b).wf(),
            final(b).open_blocks() == 2,
            final(b).n_locals() == 15,
            final(b).instrs() == Self::parse_value_instructions_part_1(old(b).instrs(), parse_object_index, parse_array_index, parse_string_index, malloc_index),
    {
        proof {
            reveal(JsonClass::parse_value_instructions_part_1);
        }
        // Local variable declarations:
        // Local 0: string_ptr (parameter)
        // Local 1: position_ptr (parameter - memory location)
        // Local 2: length (parameter)
        // Local 3: position (cached from position_ptr)
        // Local 4: current_character
        // Local 5: result_ptr / value_ptr
        // Local 6: start_position (for number/string parsing)
        // Local 7: value_length / parse_pos
        // Local 8: temp / is_negative
        // Local 9: temp
        // Local 10: temp
        // Local 11: temp
        // Local 12: decimal_divisor (F64)
        // Entry: Read position from memory
        b.i(Instruction::LocalGet(1)); // position_ptr
        b.i(Instruction::I32Load(MemArg { offset: 0, align: 2, memory_index: 0 }));
        b.i(Instruction::LocalSet(3)); // position (cached)
        // Skip whitespace (space=32, tab=9, newline=10, return=13)
        b.i(Instruction::Block(BlockType::Empty));
        b.i(Instruction::Loop(BlockType::Empty));
        // Check bounds
        b.i(Instruction::LocalGet(3));
        b.i(Instruction::LocalGet(2));
        b.i(Instruction::I32GeU);
        b.i(Instruction::BrIf(1)); // Exit if position >= length
        // Load character
        b.i(Instruction::LocalGet(0));
        b.i(Instruction::I32Const(4));
        b.i(Instruction::I32Add);
        b.i(Instruction::LocalGet(3));
        b.i(Instruction::I32Add);
        b.i(Instruction::I32Load8U(MemArg { offset: 0, align: 0, memory_index: 0 }));
        b.i(Instruction::LocalSet(4)); // current_character
        // Check if whitespace
        b.i(Instruction::LocalGet(4));
        b.i(Instruction::I32Const(32)); // space
        b.i(Instruction::I32Eq);
        b.i(Instruction::LocalGet(4));
        b.i(Instruction::I32Const(9)); // tab
        b.i(Instruction::I32Eq);
        b.i(Instruction::I32Or);
        b.i(Instruction::LocalGet(4));
        b.i(Instruction::I32Const(10)); // newline
        b.i(Instruction::I32Eq);
        b.i(Instruction::I32Or);
        b.i(Instruction::LocalGet(4));
        b.i(Instruction::I32Const(13)); // return
        b.i(Instruction::I32Eq);
        b.i(Instruction::I32Or);
        b.i(Instruction::If(BlockType::Empty));
        // Increment position
        b.i(Instruction::LocalGet(3));
        b.i(Instruction::I32Const(1));
        b.i(Instruction::I32Add);
        b.i(Instruction::LocalSet(3));
        b.i(Instruction::Br(1)); // Continue loop
        b.i(Instruction::End);
        b.i(Instruction::Br(1)); // Exit loop (non-whitespace found)
        b.i(Instruction::End);
        b.i(Instruction::End);
        // Read first non-whitespace character (already in Local 4)
        // We already have it from the whitespace skip loop
        // Dispatch based on character
        // Check for '{' (123) - object
        b.i(Instruction::LocalGet(4));
        b.i(Instruction::I32Const(123));
        b.i(Instruction::I32Eq);
        b.i(Instruction::If(BlockType::Result(ValType::I32)));
        // Write position back before call
        b.i(Instruction::LocalGet(1));
        b.i(Instruction::LocalGet(3));
        b.i(Instruction::I32Store(MemArg { offset: 0, align: 2, memory_index: 0 }));
        // Call parse_object
        b.i(Instruction::LocalGet(0));
        b.i(Instruction::LocalGet(1));
        b.i(Instruction::LocalGet(2));
        b.i(Instruction::Call(parse_object_index));
        // NOTE: Box the object result with AnyTypeTag::Object (6)
        // Save raw object pointer to local 5
        b.i(Instruction::LocalSet(5));
        // Allocate 12 bytes for boxed any
        b.i(Instruction::I32Const(12));
        b.i(Instruction::Call(malloc_index));
        b.i(Instruction::LocalSet(9)); // boxed_ptr in local 9
        // Store type tag 6 (Object) at offset 0
        b.i(Instruction::LocalGet(9));
        b.i(Instruction::I32Const(6)); // AnyTypeTag::Object = 6
        b.i(Instruction::I32Store(MemArg { offset: 0, align: 2, memory_index: 0 }));
        // Store object pointer at offset 4
        b.i(Instruction::LocalGet(9));
        b.i(Instruction::LocalGet(5)); // raw object pointer
        b.i(Instruction::I32Store(MemArg { offset: 4, align: 2, memory_index: 0 }));
        // Store 0 at offset 8
        b.i(Instruction::LocalGet(9));
        b.i(Instruction::I32Const(0));
        b.i(Instruction::I32Store(MemArg { offset: 8, align: 2, memory_index: 0 }));
        // Return boxed object pointer
        b.i(Instruction::LocalGet(9));
        b.i(Instruction::Else);
        // Check for '[' (91) - array
        b.i(Instruction::LocalGet(4));
        b.i(Instruction::I32Const(91));
        b.i(Instruction::I32Eq);
        b.i(Instruction::If(BlockType::Result(ValType::I32)));
        // Write position back before call
        b.i(Instruction::LocalGet(1));
        b.i(Instruction::LocalGet(3));
        b.i(Instruction::I32Store(MemArg { offset: 0, align: 2, memory_index: 0 }));
        // Call parse_array
        b.i(Instruction::LocalGet(0));
        b.i(Instruction::LocalGet(1));
        b.i(Instruction::LocalGet(2));
        b.i(Instruction::Call(parse_array_index));
        // NOTE: Box the array result with AnyTypeTag::List (5)
        // Save raw array pointer to local 5
        b.i(Instruction::LocalSet(5));
        // Allocate 12 bytes for boxed any
        b.i(Instruction::I32Const(12));
        b.i(Instruction::Call(malloc_index));
        b.i(Instruction::LocalSet(9)); // boxed_ptr in local 9
        // Store type tag 5 (List) at offset 0
        b.i(Instruction::LocalGet(9));
        b.i(Instruction::I32Const(5)); // AnyTypeTag::List = 5
        b.i(Instruction::I32Store(MemArg { offset: 0, align: 2, memory_index: 0 }));
        // Store array pointer at offset 4
        b.i(Instruction::LocalGet(9));
        b.i(Instruction::LocalGet(5)); // raw array pointer
        b.i(Instruction::I32Store(MemArg { offset: 4, align: 2, memory_index: 0 }));
        // Store 0 at offset 8
        b.i(Instruction::LocalGet(9));
        b.i(Instruction::I32Const(0));
    }

    /// Part 2 of `parse_value_instructions_body`, after `s`.
    #[verifier::opaque]
    pub open spec fn parse_value_instructions_part_2(s: Seq<Instruction>, parse_object_index: u32, parse_array_index: u32, parse_string_index: u32, malloc_index: u32) -> Seq<Instruction> {
        s
            .push(Instruction::I32Store(MemArg { offset: 8, align: 2, memory_index: 0 }))
            .push(Instruction::LocalGet(9))
            .push(Instruction::Else)
            .push(Instruction::LocalGet(4))
            .push(Instruction::I32Const(34))
            .push(Instruction::I32Eq)
            .push(Instruction::If(BlockType::Result(ValType::I32)))
            .push(Instruction::LocalGet(1))
            .push(Instruction::LocalGet(3))
            .push(Instruction::I32Store(MemArg { offset: 0, align: 2, memory_index: 0 }))
            .push(Instruction::LocalGet(0))
            .push(Instruction::LocalGet(1))
            .push(Instruction::LocalGet(2))
            .push(Instruction::Call(parse_string_index))
            .push(Instruction::LocalSet(5))
            .push(Instruction::LocalGet(1))
            .push(Instruction::I32Load(MemArg { offset: 0, align: 2, memory_index: 0 }))
            .push(Instruction::LocalSet(3))
            .push(Instruction::I32Const(12))
            .push(Instruction::Call(malloc_index))
            .push(Instruction::LocalSet(8))
            .push(Instruction::LocalGet(8))
            .push(Instruction::I32Const(4))
            .push(Instruction::I32Store(MemArg { offset: 0, align: 2, memory_index: 0 }))
            .push(Instruction::LocalGet(8))
            .push(Instruction::LocalGet(5))
            .push(Instruction::I32Store(MemArg { offset: 4, align: 2, memory_index: 0 }))
            .push(Instruction::LocalGet(8))
            .push(Instruction::I32Const(0))
            .push(Instruction::I32Store(MemArg { offset: 8, align: 2, memory_index: 0 }))
            .push(Instruction::LocalGet(8))
            .push(Instruction::Else)
            .push(Instruction::LocalGet(4))
            .push(Instruction::I32Const(48))
            .push(Instruction::I32GeU)
            .push(Instruction::LocalGet(4))
            .push(Instruction::I32Const(57))
            .push(Instruction::I32LeU)
            .push(Instruction::I32And)
            .push(Instruction::LocalGet(4))
            .push(Instruction::I32Const(45))
            .push(Instruction::I32Eq)
            .push(Instruction::I32Or)
            .push(Instruction::If(BlockType::Result(ValType::I32)))
            .push(Instruction::LocalGet(3))
            .push(Instruction::LocalSet(6))
            .push(Instruction::Block(BlockType::Empty))
            .push(Instruction::Loop(BlockType::Empty))
            .push(Instruction::LocalGet(3))
            .push(Instruction::LocalGet(2))
            .push(Instruction::I32GeU)
            .push(Instruction::BrIf(1))
            .push(Instruction::LocalGet(0))
            .push(Instruction::I32Const(4))
            .push(Instruction::I32Add)
            .push(Instruction::LocalGet(3))
            .push(Instruction::I32Add)
            .push(Instruction::I32Load8U(MemArg { offset: 0, align: 0, memory_index: 0 }))
            .push(Instruction::LocalSet(4))
            .push(Instruction::LocalGet(4))
            .push(Instruction::I32Const(48))
            .push(Instruction::I32GeU)
            .push(Instruction::LocalGet(4))
            .push(Instruction::I32Const(57))
            .push(Instruction::I32LeU)
            .push(Instruction::I32And)
            .push(Instruction::LocalGet(4))
            .push(Instruction::I32Const(46))
            .push(Instruction::I32Eq)
            .push(Instruction::I32Or)
            .push(Instruction::LocalGet(4))
            .push(Instruction::I32Const(101))
            .push(Instruction::I32Eq)
            .push(Instruction::I32Or)
            .push(Instruction::LocalGet(4))
            .push(Instruction::I32Const(69))
            .push(Instruction::I32Eq)
            .push(Instruction::I32Or)
            .push(Instruction::LocalGet(4))
            .push(Instruction::I32Const(43))
            .push(Instruction::I32Eq)
            .push(Instruction::I32Or)
            .push(Instruction::LocalGet(4))
            .push(Instruction::I32Const(45))
            .push(Instruction::I32Eq)
            .push(Instruction::I32Or)
            .push(Instruction::I32Eqz)
            .push(Instruction::BrIf(1))
            .push(Instruction::LocalGet(3))
            .push(Instruction::I32Const(1))
    }

    /// Part 2 of `generate_parse_value_instructions`.
    #[verifier::rlimit(40)]
    #[verifier::spinoff_prover]
    fn generate_parse_value_instructions_2(b: &mut Body, parse_object_index: u32, parse_array_index: u32, parse_string_index: u32, malloc_index: u32)
        requires
            old(b).wf(),
            old(b).open_blocks() == 2,
            old(b).n_locals() == 15,
        ensures
            final(b).wf(),
            final(b).open_blocks() == 6,
            final(b).n_locals() == 15,
            final(b).instrs() == Self::parse_value_instructions_part_2(old(b).instrs(), parse_object_index, parse_array_index, parse_string_index, malloc_index),
    {
        proof {
            reveal(JsonClass::parse_value_instructions_part_2);
        }
        b.i(Instruction::I32Store(MemArg { offset: 8, align: 2, memory_index: 0 }));
        // Return boxed array pointer
        b.i(Instruction::LocalGet(9));
        b.i(Instruction::Else);
        // Check for '"' (34) - string: delegate to __json_parse_string
        b.i(Instruction::LocalGet(4));
        b.i(Instruction::I32Const(34));
        b.i(Instruction::I32Eq);
        b.i(Instruction::If(BlockType::Result(ValType::I32)));
        // Write cached position back to position_ptr before the call
        // (position currently points AT the '"'; parse_string expects that)
        b.i(Instruction::LocalGet(1));
        b.i(Instruction::LocalGet(3));
        b.i(Instruction::I32Store(MemArg { offset: 0, align: 2, memory_index: 0 }));
        // Call __json_parse_string(string_ptr, position_ptr, length) -> str_ptr
        b.i(Instruction::LocalGet(0));
        b.i(Instruction::LocalGet(1));
        b.i(Instruction::LocalGet(2));
        b.i(Instruction::Call(parse_string_index));
        b.i(Instruction::LocalSet(5)); // str_ptr
        // Read updated position back from position_ptr
        b.i(Instruction::LocalGet(1));
        b.i(Instruction::I32Load(MemArg { offset: 0, align: 2, memory_index: 0 }));
        b.i(Instruction::LocalSet(3)); // refresh cached position
        // Box the string: allocate 12 bytes for boxed any
        b.i(Instruction::I32Const(12));
        b.i(Instruction::Call(malloc_index));
        b.i(Instruction::LocalSet(8)); // boxed_ptr in local 8
        // Store type tag 4 (String) at offset 0
        b.i(Instruction::LocalGet(8));
        b.i(Instruction::I32Const(4)); // String tag
        b.i(Instruction::I32Store(MemArg { offset: 0, align: 2, memory_index: 0 }));
        // Store string pointer at offset 4
        b.i(Instruction::LocalGet(8));
        b.i(Instruction::LocalGet(5)); // str_ptr
        b.i(Instruction::I32Store(MemArg { offset: 4, align: 2, memory_index: 0 }));
        // Store 0 at offset 8
        b.i(Instruction::LocalGet(8));
        b.i(Instruction::I32Const(0));
        b.i(Instruction::I32Store(MemArg { offset: 8, align: 2, memory_index: 0 }));
        // Return boxed string pointer
        b.i(Instruction::LocalGet(8));
        b.i(Instruction::Else);
        // Check for digit (48-57) or '-' (45) - number
        b.i(Instruction::LocalGet(4));
        b.i(Instruction::I32Const(48));
        b.i(Instruction::I32GeU);
        b.i(Instruction::LocalGet(4));
        b.i(Instruction::I32Const(57));
        b.i(Instruction::I32LeU);
        b.i(Instruction::I32And);
        b.i(Instruction::LocalGet(4));
        b.i(Instruction::I32Const(45)); // '-'
        b.i(Instruction::I32Eq);
        b.i(Instruction::I32Or);
        b.i(Instruction::If(BlockType::Result(ValType::I32)));
        // Parse number value
        b.i(Instruction::LocalGet(3));
        b.i(Instruction::LocalSet(6)); // num_start = position
        // Find end of number
        b.i(Instruction::Block(BlockType::Empty));
        b.i(Instruction::Loop(BlockType::Empty));
        b.i(Instruction::LocalGet(3));
        b.i(Instruction::LocalGet(2));
        b.i(Instruction::I32GeU);
        b.i(Instruction::BrIf(1));
        b.i(Instruction::LocalGet(0));
        b.i(Instruction::I32Const(4));
        b.i(Instruction::I32Add);
        b.i(Instruction::LocalGet(3));
        b.i(Instruction::I32Add);
        b.i(Instruction::I32Load8U(MemArg { offset: 0, align: 0, memory_index: 0 }));
        b.i(Instruction::LocalSet(4));
        // Check if char is digit or '.' or 'e' or 'E' or '+' or '-'
        b.i(Instruction::LocalGet(4));
        b.i(Instruction::I32Const(48));
        b.i(Instruction::I32GeU);
        b.i(Instruction::LocalGet(4));
        b.i(Instruction::I32Const(57));
        b.i(Instruction::I32LeU);
        b.i(Instruction::I32And);
        b.i(Instruction::LocalGet(4));
        b.i(Instruction::I32Const(46)); // '.'
        b.i(Instruction::I32Eq);
        b.i(Instruction::I32Or);
        b.i(Instruction::LocalGet(4));
        b.i(Instruction::I32Const(101)); // 'e'
        b.i(Instruction::I32Eq);
        b.i(Instruction::I32Or);
        b.i(Instruction::LocalGet(4));
        b.i(Instruction::I32Const(69)); // 'E'
        b.i(Instruction::I32Eq);
        b.i(Instruction::I32Or);
        b.i(Instruction::LocalGet(4));
        b.i(Instruction::I32Const(43)); // '+'
        b.i(Instruction::I32Eq);
        b.i(Instruction::I32Or);
        b.i(Instruction::LocalGet(4));
        b.i(Instruction::I32Const(45)); // '-'
        b.i(Instruction::I32Eq);
        b.i(Instruction::I32Or);
        b.i(Instruction::I32Eqz);
        b.i(Instruction::BrIf(1));
        b.i(Instruction::LocalGet(3));
        b.i(Instruction::I32Const(1));
    }

    /// Part 3 of `parse_value_instructions_body`, after `s`.
    #[verifier::opaque]
    pub open spec fn parse_value_instructions_part_3(s: Seq<Instruction>, parse_object_index: u32, parse_array_index: u32, parse_string_index: u32, malloc_index: u32) -> Seq<Instruction> {
        s
            .push(Instruction::I32Add)
            .push(Instruction::LocalSet(3))
            .push(Instruction::Br(0))
            .push(Instruction::End)
            .push(Instruction::End)
            .push(Instruction::I32Const(12))
            .push(Instruction::Call(malloc_index))
            .push(Instruction::LocalSet(5))
            .push(Instruction::LocalGet(5))
            .push(Instruction::I32Const(3))
            .push(Instruction::I32Store(MemArg { offset: 0, align: 2, memory_index: 0 }))
            .push(Instruction::LocalGet(5))
            .push(Instruction::I32Const(4))
            .push(Instruction::I32Add)
            .push(Instruction::F64Const(0x0000000000000000u64))
            .push(Instruction::F64Store(MemArg { offset: 0, align: 3, memory_index: 0 }))
            .push(Instruction::LocalGet(6))
            .push(Instruction::LocalSet(7))
            .push(Instruction::I32Const(0))
            .push(Instruction::LocalSet(8))
            .push(Instruction::LocalGet(0))
            .push(Instruction::I32Const(4))
            .push(Instruction::I32Add)
            .push(Instruction::LocalGet(7))
            .push(Instruction::I32Add)
            .push(Instruction::I32Load8U(MemArg { offset: 0, align: 0, memory_index: 0 }))
            .push(Instruction::I32Const(45))
            .push(Instruction::I32Eq)
            .push(Instruction::If(BlockType::Empty))
            .push(Instruction::I32Const(1))
            .push(Instruction::LocalSet(8))
            .push(Instruction::LocalGet(7))
            .push(Instruction::I32Const(1))
            .push(Instruction::I32Add)
            .push(Instruction::LocalSet(7))
            .push(Instruction::End)
            .push(Instruction::Block(BlockType::Empty))
            .push(Instruction::Loop(BlockType::Empty))
            .push(Instruction::LocalGet(7))
            .push(Instruction::LocalGet(3))
            .push(Instruction::I32GeU)
            .push(Instruction::BrIf(1))
            .push(Instruction::LocalGet(0))
            .push(Instruction::I32Const(4))
            .push(Instruction::I32Add)
            .push(Instruction::LocalGet(7))
            .push(Instruction::I32Add)
            .push(Instruction::I32Load8U(MemArg { offset: 0, align: 0, memory_index: 0 }))
            .push(Instruction::LocalSet(4))
            .push(Instruction::LocalGet(4))
            .push(Instruction::I32Const(48))
            .push(Instruction::I32GeU)
            .push(Instruction::LocalGet(4))
            .push(Instruction::I32Const(57))
            .push(Instruction::I32LeU)
            .push(Instruction::I32And)
            .push(Instruction::I32Eqz)
            .push(Instruction::BrIf(1))
            .push(Instruction::LocalGet(5))
            .push(Instruction::I32Const(4))
            .push(Instruction::I32Add)
            .push(Instruction::F64Load(MemArg { offset: 0, align: 3, memory_index: 0 }))
            .push(Instruction::F64Const(0x4024000000000000u64))
            .push(Instruction::F64Mul)
            .push(Instruction::LocalGet(4))
            .push(Instruction::I32Const(48))
            .push(Instruction::I32Sub)
            .push(Instruction::F64ConvertI32S)
            .push(Instruction::F64Add)
            .push(Instruction::LocalSet(13))
            .push(Instruction::LocalGet(5))
            .push(Instruction::I32Const(4))
            .push(Instruction::I32Add)
            .push(Instruction::LocalGet(13))
            .push(Instruction::F64Store(MemArg { offset: 0, align: 3, memory_index: 0 }))
            .push(Instruction::LocalGet(7))
            .push(Instruction::I32Const(1))
            .push(Instruction::I32Add)
            .push(Instruction::LocalSet(7))
            .push(Instruction::Br(0))
            .push(Instruction::End)
            .push(Instruction::End)
            .push(Instruction::LocalGet(7))
            .push(Instruction::LocalGet(3))
            .push(Instruction::I32LtU)
            .push(Instruction::If(BlockType::Empty))
            .push(Instruction::LocalGet(0))
            .push(Instruction::I32Const(4))
            .push(Instruction::I32Add)
            .push(Instruction::LocalGet(7))
    }

    /// Part 3 of `generate_parse_value_instructions`.
    #[verifier::rlimit(40)]
    #[verifier::spinoff_prover]
    fn generate_parse_value_instructions_3(b: &mut Body, parse_object_index: u32, parse_array_index: u32, parse_string_index: u32, malloc_index: u32)
        requires
            old(b).wf(),
            old(b).open_blocks() == 6,
            old(b).n_locals() == 15,
        ensures
            final(b).wf(),
            final(b).open_blocks() == 5,
            final(b).n_locals() == 15,
            final(b).instrs() == Self::parse_value_instructions_part_3(old(b).instrs(), parse_object_index, parse_array_index, parse_string_index, malloc_index),
    {
        proof {
            reveal(JsonClass::parse_value_instructions_part_3);
        }
        b.i(Instruction::I32Add);
        b.i(Instruction::LocalSet(3));
        b.i(Instruction::Br(0));
        b.i(Instruction::End);
        b.i(Instruction::End);
        // Allocate 12 bytes: 4 (type tag = 3) + 8 (f64 value)
        b.i(Instruction::I32Const(12));
        b.i(Instruction::Call(malloc_index));
        b.i(Instruction::LocalSet(5)); // value_ptr
        // Store type tag = 3 (number)
        b.i(Instruction::LocalGet(5));
        b.i(Instruction::I32Const(3));
        b.i(Instruction::I32Store(MemArg { offset: 0, align: 2, memory_index: 0 }));
        // Initialize accumulator to 0.0
        b.i(Instruction::LocalGet(5));
        b.i(Instruction::I32Const(4));
        b.i(Instruction::I32Add);
        b.i(Instruction::F64Const(0x0000000000000000u64)); // 0.0
        b.i(Instruction::F64Store(MemArg { offset: 0, align: 3, memory_index: 0 }));
        // Initialize parsing state
        b.i(Instruction::LocalGet(6)); // num_start
        b.i(Instruction::LocalSet(7)); // parse_pos = num_start
        b.i(Instruction::I32Const(0));
        b.i(Instruction::LocalSet(8)); // is_negative = 0
        // Check for negative sign
        b.i(Instruction::LocalGet(0));
        b.i(Instruction::I32Const(4));
        b.i(Instruction::I32Add);
        b.i(Instruction::LocalGet(7));
        b.i(Instruction::I32Add);
        b.i(Instruction::I32Load8U(MemArg { offset: 0, align: 0, memory_index: 0 }));
        b.i(Instruction::I32Const(45)); // '-'
        b.i(Instruction::I32Eq);
        b.i(Instruction::If(BlockType::Empty));
        b.i(Instruction::I32Const(1));
        b.i(Instruction::LocalSet(8)); // is_negative = 1
        b.i(Instruction::LocalGet(7));
        b.i(Instruction::I32Const(1));
        b.i(Instruction::I32Add);
        b.i(Instruction::LocalSet(7)); // parse_pos++ (skip '-')
        b.i(Instruction::End);
        // Parse integer part - accumulate digits
        b.i(Instruction::Block(BlockType::Empty));
        b.i(Instruction::Loop(BlockType::Empty));
        // Check if parse_pos >= position (end of number)
        b.i(Instruction::LocalGet(7));
        b.i(Instruction::LocalGet(3));
        b.i(Instruction::I32GeU);
        b.i(Instruction::BrIf(1));
        // Get current character
        b.i(Instruction::LocalGet(0));
        b.i(Instruction::I32Const(4));
        b.i(Instruction::I32Add);
        b.i(Instruction::LocalGet(7));
        b.i(Instruction::I32Add);
        b.i(Instruction::I32Load8U(MemArg { offset: 0, align: 0, memory_index: 0 }));
        b.i(Instruction::LocalSet(4));
        // Check if it's a digit (48-57)
        b.i(Instruction::LocalGet(4));
        b.i(Instruction::I32Const(48)); // '0'
        b.i(Instruction::I32GeU);
        b.i(Instruction::LocalGet(4));
        b.i(Instruction::I32Const(57)); // '9'
        b.i(Instruction::I32LeU);
        b.i(Instruction::I32And);
        b.i(Instruction::I32Eqz);
        b.i(Instruction::BrIf(1)); // Exit if not a digit (decimal point or end)
        // Load current accumulator value
        b.i(Instruction::LocalGet(5));
        b.i(Instruction::I32Const(4));
        b.i(Instruction::I32Add);
        b.i(Instruction::F64Load(MemArg { offset: 0, align: 3, memory_index: 0 }));
        // Multiply by 10
        b.i(Instruction::F64Const(0x4024000000000000u64)); // 10.0
        b.i(Instruction::F64Mul);
        // Add current digit value (char - '0')
        b.i(Instruction::LocalGet(4));
        b.i(Instruction::I32Const(48));
        b.i(Instruction::I32Sub);
        b.i(Instruction::F64ConvertI32S);
        b.i(Instruction::F64Add);
        // Save to temp local 13 (F64)
        b.i(Instruction::LocalSet(13));
        // Store back (address first, then value for F64Store)
        b.i(Instruction::LocalGet(5));
        b.i(Instruction::I32Const(4));
        b.i(Instruction::I32Add);
        b.i(Instruction::LocalGet(13));
        b.i(Instruction::F64Store(MemArg { offset: 0, align: 3, memory_index: 0 }));
        // Increment parse_pos
        b.i(Instruction::LocalGet(7));
        b.i(Instruction::I32Const(1));
        b.i(Instruction::I32Add);
        b.i(Instruction::LocalSet(7));
        b.i(Instruction::Br(0)); // Continue loop
        b.i(Instruction::End);
        b.i(Instruction::End);
        // Parse decimal point if present
        // Check if parse_pos < position and current char is '.'
        b.i(Instruction::LocalGet(7)); // parse_pos
        b.i(Instruction::LocalGet(3)); // position (end of number)
        b.i(Instruction::I32LtU);
        b.i(Instruction::If(BlockType::Empty));
        // Get current character
        b.i(Instruction::LocalGet(0));
        b.i(Instruction::I32Const(4));
        b.i(Instruction::I32Add);
        b.i(Instruction::LocalGet(7));
    }

    /// Part 4 of `parse_value_instructions_body`, after `s`.
    #[verifier::opaque]
    pub open spec fn parse_value_instructions_part_4(s: Seq<Instruction>, parse_object_index: u32, parse_array_index: u32, parse_string_index: u32, malloc_index: u32) -> Seq<Instruction> {
        s
            .push(Instruction::I32Add)
            .push(Instruction::I32Load8U(MemArg { offset: 0, align: 0, memory_index: 0 }))
            .push(Instruction::LocalSet(4))
            .push(Instruction::LocalGet(4))
            .push(Instruction::I32Const(46))
            .push(Instruction::I32Eq)
            .push(Instruction::If(BlockType::Empty))
            .push(Instruction::LocalGet(7))
            .push(Instruction::I32Const(1))
            .push(Instruction::I32Add)
            .push(Instruction::LocalSet(7))
            .push(Instruction::F64Const(0x4024000000000000u64))
            .push(Instruction::LocalSet(12))
            .push(Instruction::Block(BlockType::Empty))
            .push(Instruction::Loop(BlockType::Empty))
            .push(Instruction::LocalGet(7))
            .push(Instruction::LocalGet(3))
            .push(Instruction::I32GeU)
            .push(Instruction::BrIf(1))
            .push(Instruction::LocalGet(0))
            .push(Instruction::I32Const(4))
            .push(Instruction::I32Add)
            .push(Instruction::LocalGet(7))
            .push(Instruction::I32Add)
            .push(Instruction::I32Load8U(MemArg { offset: 0, align: 0, memory_index: 0 }))
            .push(Instruction::LocalSet(4))
            .push(Instruction::LocalGet(4))
            .push(Instruction::I32Const(48))
            .push(Instruction::I32GeU)
            .push(Instruction::LocalGet(4))
            .push(Instruction::I32Const(57))
            .push(Instruction::I32LeU)
            .push(Instruction::I32And)
            .push(Instruction::I32Eqz)
            .push(Instruction::BrIf(1))
            .push(Instruction::LocalGet(5))
            .push(Instruction::I32Const(4))
            .push(Instruction::I32Add)
            .push(Instruction::F64Load(MemArg { offset: 0, align: 3, memory_index: 0 }))
            .push(Instruction::LocalGet(4))
            .push(Instruction::I32Const(48))
            .push(Instruction::I32Sub)
            .push(Instruction::F64ConvertI32S)
            .push(Instruction::LocalGet(12))
            .push(Instruction::F64Div)
            .push(Instruction::F64Add)
            .push(Instruction::LocalSet(13))
            .push(Instruction::LocalGet(5))
            .push(Instruction::I32Const(4))
            .push(Instruction::I32Add)
            .push(Instruction::LocalGet(13))
            .push(Instruction::F64Store(MemArg { offset: 0, align: 3, memory_index: 0 }))
            .push(Instruction::LocalGet(12))
            .push(Instruction::F64Const(0x4024000000000000u64))
            .push(Instruction::F64Mul)
            .push(Instruction::LocalSet(12))
            .push(Instruction::LocalGet(7))
            .push(Instruction::I32Const(1))
            .push(Instruction::I32Add)
            .push(Instruction::LocalSet(7))
            .push(Instruction::Br(0))
            .push(Instruction::End)
            .push(Instruction::End)
            .push(Instruction::End)
            .push(Instruction::End)
            .push(Instruction::LocalGet(7))
            .push(Instruction::LocalGet(3))
            .push(Instruction::I32LtU)
            .push(Instruction::If(BlockType::Empty))
            .push(Instruction::LocalGet(0))
            .push(Instruction::I32Const(4))
            .push(Instruction::I32Add)
            .push(Instruction::LocalGet(7))
            .push(Instruction::I32Add)
            .push(Instruction::I32Load8U(MemArg { offset: 0, align: 0, memory_index: 0 }))
            .push(Instruction::LocalSet(4))
            .push(Instruction::LocalGet(4))
            .push(Instruction::I32Const(101))
            .push(Instruction::I32Eq)
            .push(Instruction::LocalGet(4))
            .push(Instruction::I32Const(69))
            .push(Instruction::I32Eq)
            .push(Instruction::I32Or)
            .push(Instruction::If(BlockType::Empty))
            .push(Instruction::LocalGet(7))
            .push(Instruction::I32Const(1))
            .push(Instruction::I32Add)
            .push(Instruction::LocalSet(7))
            .push(Instruction::I32Const(0))
            .push(Instruction::LocalSet(9))
    }

    /// Part 4 of `generate_parse_value_instructions`.
    #[verifier::rlimit(40)]
    #[verifier::spinoff_prover]
    fn generate_parse_value_instructions_4(b: &mut Body, parse_object_index: u32, parse_array_index: u32, parse_string_index: u32, malloc_index: u32)
        requires
            old(b).wf(),
            old(b).open_blocks() == 5,
            old(b).n_locals() == 15,
        ensures
            final(b).wf(),
            final(b).open_blocks() == 6,
            final(b).n_locals() == 15,
            final(b).instrs() == Self::parse_value_instructions_part_4(old(b).instrs(), parse_object_index, parse_array_index, parse_string_index, malloc_index),
    {
        proof {
            reveal(JsonClass::parse_value_instructions_part_4);
        }
        b.i(Instruction::I32Add);
        b.i(Instruction::I32Load8U(MemArg { offset: 0, align: 0, memory_index: 0 }));
        b.i(Instruction::LocalSet(4));
        // Check if it's a decimal point '.' (46)
        b.i(Instruction::LocalGet(4));
        b.i(Instruction::I32Const(46)); // '.'
        b.i(Instruction::I32Eq);
        b.i(Instruction::If(BlockType::Empty));
        // Skip the decimal point
        b.i(Instruction::LocalGet(7));
        b.i(Instruction::I32Const(1));
        b.i(Instruction::I32Add);
        b.i(Instruction::LocalSet(7));
        // Initialize decimal divisor to 10.0
        b.i(Instruction::F64Const(0x4024000000000000u64)); // 10.0
        b.i(Instruction::LocalSet(12));
        // Parse fractional digits
        b.i(Instruction::Block(BlockType::Empty));
        b.i(Instruction::Loop(BlockType::Empty));
        // Check if parse_pos >= position (end of number)
        b.i(Instruction::LocalGet(7));
        b.i(Instruction::LocalGet(3));
        b.i(Instruction::I32GeU);
        b.i(Instruction::BrIf(1)); // Exit if done
        // Get current character
        b.i(Instruction::LocalGet(0));
        b.i(Instruction::I32Const(4));
        b.i(Instruction::I32Add);
        b.i(Instruction::LocalGet(7));
        b.i(Instruction::I32Add);
        b.i(Instruction::I32Load8U(MemArg { offset: 0, align: 0, memory_index: 0 }));
        b.i(Instruction::LocalSet(4));
        // Check if it's a digit (48-57)
        b.i(Instruction::LocalGet(4));
        b.i(Instruction::I32Const(48)); // '0'
        b.i(Instruction::I32GeU);
        b.i(Instruction::LocalGet(4));
        b.i(Instruction::I32Const(57)); // '9'
        b.i(Instruction::I32LeU);
        b.i(Instruction::I32And);
        b.i(Instruction::I32Eqz);
        b.i(Instruction::BrIf(1)); // Exit if not a digit
        // Load current accumulator value
        b.i(Instruction::LocalGet(5));
        b.i(Instruction::I32Const(4));
        b.i(Instruction::I32Add);
        b.i(Instruction::F64Load(MemArg { offset: 0, align: 3, memory_index: 0 }));
        // Convert digit to value (char - '0')
        b.i(Instruction::LocalGet(4));
        b.i(Instruction::I32Const(48));
        b.i(Instruction::I32Sub);
        b.i(Instruction::F64ConvertI32S);
        // Divide by decimal_divisor
        b.i(Instruction::LocalGet(12));
        b.i(Instruction::F64Div);
        // Add to accumulator
        b.i(Instruction::F64Add);
        // Save result to temp local 13 (F64)
        b.i(Instruction::LocalSet(13));
        // Store back (address first, then value for F64Store)
        b.i(Instruction::LocalGet(5));
        b.i(Instruction::I32Const(4));
        b.i(Instruction::I32Add);
        b.i(Instruction::LocalGet(13));
        b.i(Instruction::F64Store(MemArg { offset: 0, align: 3, memory_index: 0 }));
        // Multiply divisor by 10 for next digit
        b.i(Instruction::LocalGet(12));
        b.i(Instruction::F64Const(0x4024000000000000u64)); // 10.0
        b.i(Instruction::F64Mul);
        b.i(Instruction::LocalSet(12));
        // Increment parse_pos
        b.i(Instruction::LocalGet(7));
        b.i(Instruction::I32Const(1));
        b.i(Instruction::I32Add);
        b.i(Instruction::LocalSet(7));
        b.i(Instruction::Br(0)); // Continue loop
        b.i(Instruction::End); // End fractional loop
        b.i(Instruction::End); // End fractional block
        b.i(Instruction::End); // End decimal point check
        b.i(Instruction::End); // End parse_pos < position check
        // Apply the exponent if present: 'e' or 'E', an optional sign and
        // digits; the value is scaled by ten to that power
        b.i(Instruction::LocalGet(7));
        b.i(Instruction::LocalGet(3));
        b.i(Instruction::I32LtU);
        b.i(Instruction::If(BlockType::Empty));
        b.i(Instruction::LocalGet(0));
        b.i(Instruction::I32Const(4));
        b.i(Instruction::I32Add);
        b.i(Instruction::LocalGet(7));
        b.i(Instruction::I32Add);
        b.i(Instruction::I32Load8U(MemArg { offset: 0, align: 0, memory_index: 0 }));
        b.i(Instruction::LocalSet(4));
        b.i(Instruction::LocalGet(4));
        b.i(Instruction::I32Const(101)); // 'e'
        b.i(Instruction::I32Eq);
        b.i(Instruction::LocalGet(4));
        b.i(Instruction::I32Const(69)); // 'E'
        b.i(Instruction::I32Eq);
        b.i(Instruction::I32Or);
        b.i(Instruction::If(BlockType::Empty));
        b.i(Instruction::LocalGet(7));
        b.i(Instruction::I32Const(1));
        b.i(Instruction::I32Add);
        b.i(Instruction::LocalSet(7));
        b.i(Instruction::I32Const(0));
        b.i(Instruction::LocalSet(9)); // exponent_negative = 0
    }

    /// Part 5 of `parse_value_instructions_body`, after `s`.
    #[verifier::opaque]
    pub open spec fn parse_value_instructions_part_5(s: Seq<Instruction>, parse_object_index: u32, parse_array_index: u32, parse_string_index: u32, malloc_index: u32) -> Seq<Instruction> {
        s
            .push(Instruction::F64Const(0x0000000000000000u64))
            .push(Instruction::LocalSet(12))
            .push(Instruction::LocalGet(7))
            .push(Instruction::LocalGet(3))
            .push(Instruction::I32LtU)
            .push(Instruction::If(BlockType::Empty))
            .push(Instruction::LocalGet(0))
            .push(Instruction::I32Const(4))
            .push(Instruction::I32Add)
            .push(Instruction::LocalGet(7))
            .push(Instruction::I32Add)
            .push(Instruction::I32Load8U(MemArg { offset: 0, align: 0, memory_index: 0 }))
            .push(Instruction::LocalSet(4))
            .push(Instruction::LocalGet(4))
            .push(Instruction::I32Const(45))
            .push(Instruction::I32Eq)
            .push(Instruction::If(BlockType::Empty))
            .push(Instruction::I32Const(1))
            .push(Instruction::LocalSet(9))
            .push(Instruction::End)
            .push(Instruction::LocalGet(4))
            .push(Instruction::I32Const(45))
            .push(Instruction::I32Eq)
            .push(Instruction::LocalGet(4))
            .push(Instruction::I32Const(43))
            .push(Instruction::I32Eq)
            .push(Instruction::I32Or)
            .push(Instruction::If(BlockType::Empty))
            .push(Instruction::LocalGet(7))
            .push(Instruction::I32Const(1))
            .push(Instruction::I32Add)
            .push(Instruction::LocalSet(7))
            .push(Instruction::End)
            .push(Instruction::End)
            .push(Instruction::Block(BlockType::Empty))
            .push(Instruction::Loop(BlockType::Empty))
            .push(Instruction::LocalGet(7))
            .push(Instruction::LocalGet(3))
            .push(Instruction::I32GeU)
            .push(Instruction::BrIf(1))
            .push(Instruction::LocalGet(0))
            .push(Instruction::I32Const(4))
            .push(Instruction::I32Add)
            .push(Instruction::LocalGet(7))
            .push(Instruction::I32Add)
            .push(Instruction::I32Load8U(MemArg { offset: 0, align: 0, memory_index: 0 }))
            .push(Instruction::LocalSet(4))
            .push(Instruction::LocalGet(4))
            .push(Instruction::I32Const(48))
            .push(Instruction::I32GeU)
            .push(Instruction::LocalGet(4))
            .push(Instruction::I32Const(57))
            .push(Instruction::I32LeU)
            .push(Instruction::I32And)
            .push(Instruction::I32Eqz)
            .push(Instruction::BrIf(1))
            .push(Instruction::LocalGet(12))
            .push(Instruction::F64Const(0x4024000000000000u64))
            .push(Instruction::F64Mul)
            .push(Instruction::LocalGet(4))
            .push(Instruction::I32Const(48))
            .push(Instruction::I32Sub)
            .push(Instruction::F64ConvertI32S)
            .push(Instruction::F64Add)
            .push(Instruction::F64Const(0x4079000000000000u64))
            .push(Instruction::F64Min)
            .push(Instruction::LocalSet(12))
            .push(Instruction::LocalGet(7))
            .push(Instruction::I32Const(1))
            .push(Instruction::I32Add)
            .push(Instruction::LocalSet(7))
            .push(Instruction::Br(0))
            .push(Instruction::End)
            .push(Instruction::End)
            .push(Instruction::F64Const(0x3ff0000000000000u64))
            .push(Instruction::LocalSet(14))
            .push(Instruction::Block(BlockType::Empty))
            .push(Instruction::Loop(BlockType::Empty))
            .push(Instruction::LocalGet(12))
            .push(Instruction::F64Const(0x3fe0000000000000u64))
            .push(Instruction::F64Lt)
            .push(Instruction::BrIf(1))
            .push(Instruction::LocalGet(14))
            .push(Instruction::F64Const(0x4024000000000000u64))
            .push(Instruction::F64Mul)
            .push(Instruction::LocalSet(14))
            .push(Instruction::LocalGet(12))
            .push(Instruction::F64Const(0x3ff0000000000000u64))
            .push(Instruction::F64Sub)
            .push(Instruction::LocalSet(12))
    }

    /// Part 5 of `generate_parse_value_instructions`.
    #[verifier::rlimit(40)]
    #[verifier::spinoff_prover]
    fn generate_parse_value_instructions_5(b: &mut Body, parse_object_index: u32, parse_array_index: u32, parse_string_index: u32, malloc_index: u32)
        requires
            old(b).wf(),
            old(b).open_blocks() == 6,
            old(b).n_locals() == 15,
        ensures
            final(b).wf(),
            final(b).open_blocks() == 8,
            final(b).n_locals() == 15,
            final(b).instrs() == Self::parse_value_instructions_part_5(old(b).instrs(), parse_object_index, parse_array_index, parse_string_index, malloc_index),
    {
        proof {
            reveal(JsonClass::parse_value_instructions_part_5);
        }
        b.i(Instruction::F64Const(0x0000000000000000u64)); // 0.0
        b.i(Instruction::LocalSet(12)); // exponent = 0
        // Optional sign
        b.i(Instruction::LocalGet(7));
        b.i(Instruction::LocalGet(3));
        b.i(Instruction::I32LtU);
        b.i(Instruction::If(BlockType::Empty));
        b.i(Instruction::LocalGet(0));
        b.i(Instruction::I32Const(4));
        b.i(Instruction::I32Add);
        b.i(Instruction::LocalGet(7));
        b.i(Instruction::I32Add);
        b.i(Instruction::I32Load8U(MemArg { offset: 0, align: 0, memory_index: 0 }));
        b.i(Instruction::LocalSet(4));
        b.i(Instruction::LocalGet(4));
        b.i(Instruction::I32Const(45)); // '-'
        b.i(Instruction::I32Eq);
        b.i(Instruction::If(BlockType::Empty));
        b.i(Instruction::I32Const(1));
        b.i(Instruction::LocalSet(9));
        b.i(Instruction::End);
        b.i(Instruction::LocalGet(4));
        b.i(Instruction::I32Const(45)); // '-'
        b.i(Instruction::I32Eq);
        b.i(Instruction::LocalGet(4));
        b.i(Instruction::I32Const(43)); // '+'
        b.i(Instruction::I32Eq);
        b.i(Instruction::I32Or);
        b.i(Instruction::If(BlockType::Empty));
        b.i(Instruction::LocalGet(7));
        b.i(Instruction::I32Const(1));
        b.i(Instruction::I32Add);
        b.i(Instruction::LocalSet(7));
        b.i(Instruction::End);
        b.i(Instruction::End);
        // Exponent digits (the exponent is capped at 400)
        b.i(Instruction::Block(BlockType::Empty));
        b.i(Instruction::Loop(BlockType::Empty));
        b.i(Instruction::LocalGet(7));
        b.i(Instruction::LocalGet(3));
        b.i(Instruction::I32GeU);
        b.i(Instruction::BrIf(1));
        b.i(Instruction::LocalGet(0));
        b.i(Instruction::I32Const(4));
        b.i(Instruction::I32Add);
        b.i(Instruction::LocalGet(7));
        b.i(Instruction::I32Add);
        b.i(Instruction::I32Load8U(MemArg { offset: 0, align: 0, memory_index: 0 }));
        b.i(Instruction::LocalSet(4));
        b.i(Instruction::LocalGet(4));
        b.i(Instruction::I32Const(48));
        b.i(Instruction::I32GeU);
        b.i(Instruction::LocalGet(4));
        b.i(Instruction::I32Const(57));
        b.i(Instruction::I32LeU);
        b.i(Instruction::I32And);
        b.i(Instruction::I32Eqz);
        b.i(Instruction::BrIf(1));
        b.i(Instruction::LocalGet(12));
        b.i(Instruction::F64Const(0x4024000000000000u64)); // 10.0
        b.i(Instruction::F64Mul);
        b.i(Instruction::LocalGet(4));
        b.i(Instruction::I32Const(48));
        b.i(Instruction::I32Sub);
        b.i(Instruction::F64ConvertI32S);
        b.i(Instruction::F64Add);
        b.i(Instruction::F64Const(0x4079000000000000u64)); // 400.0
        b.i(Instruction::F64Min);
        b.i(Instruction::LocalSet(12));
        b.i(Instruction::LocalGet(7));
        b.i(Instruction::I32Const(1));
        b.i(Instruction::I32Add);
        b.i(Instruction::LocalSet(7));
        b.i(Instruction::Br(0));
        b.i(Instruction::End);
        b.i(Instruction::End);
        // factor = 10 ^ exponent
        b.i(Instruction::F64Const(0x3ff0000000000000u64)); // 1.0
        b.i(Instruction::LocalSet(14));
        b.i(Instruction::Block(BlockType::Empty));
        b.i(Instruction::Loop(BlockType::Empty));
        b.i(Instruction::LocalGet(12));
        b.i(Instruction::F64Const(0x3fe0000000000000u64)); // 0.5
        b.i(Instruction::F64Lt);
        b.i(Instruction::BrIf(1));
        b.i(Instruction::LocalGet(14));
        b.i(Instruction::F64Const(0x4024000000000000u64)); // 10.0
        b.i(Instruction::F64Mul);
        b.i(Instruction::LocalSet(14));
        b.i(Instruction::LocalGet(12));
        b.i(Instruction::F64Const(0x3ff0000000000000u64)); // 1.0
        b.i(Instruction::F64Sub);
        b.i(Instruction::LocalSet(12));
    }

    /// Part 6 of `parse_value_instructions_body`, after `s`.
    #[verifier::opaque]
    pub open spec fn parse_value_instructions_part_6(s: Seq<Instruction>, parse_object_index: u32, parse_array_index: u32, parse_string_index: u32, malloc_index: u32) -> Seq<Instruction> {
        s
            .push(Instruction::Br(0))
            .push(Instruction::End)
            .push(Instruction::End)
            .push(Instruction::LocalGet(5))
            .push(Instruction::I32Const(4))
            .push(Instruction::I32Add)
            .push(Instruction::LocalGet(9))
            .push(Instruction::If(BlockType::Result(ValType::F64)))
            .push(Instruction::LocalGet(5))
            .push(Instruction::I32Const(4))
            .push(Instruction::I32Add)
            .push(Instruction::F64Load(MemArg { offset: 0, align: 3, memory_index: 0 }))
            .push(Instruction::LocalGet(14))
            .push(Instruction::F64Div)
            .push(Instruction::Else)
            .push(Instruction::LocalGet(5))
            .push(Instruction::I32Const(4))
            .push(Instruction::I32Add)
            .push(Instruction::F64Load(MemArg { offset: 0, align: 3, memory_index: 0 }))
            .push(Instruction::LocalGet(14))
            .push(Instruction::F64Mul)
            .push(Instruction::End)
            .push(Instruction::F64Store(MemArg { offset: 0, align: 3, memory_index: 0 }))
            .push(Instruction::End)
            .push(Instruction::End)
            .push(Instruction::LocalGet(8))
            .push(Instruction::If(BlockType::Empty))
            .push(Instruction::LocalGet(5))
            .push(Instruction::I32Const(4))
            .push(Instruction::I32Add)
            .push(Instruction::F64Load(MemArg { offset: 0, align: 3, memory_index: 0 }))
            .push(Instruction::F64Neg)
            .push(Instruction::LocalSet(13))
            .push(Instruction::LocalGet(5))
            .push(Instruction::I32Const(4))
            .push(Instruction::I32Add)
            .push(Instruction::LocalGet(13))
            .push(Instruction::F64Store(MemArg { offset: 0, align: 3, memory_index: 0 }))
            .push(Instruction::End)
            .push(Instruction::LocalGet(1))
            .push(Instruction::LocalGet(3))
            .push(Instruction::I32Store(MemArg { offset: 0, align: 2, memory_index: 0 }))
            .push(Instruction::LocalGet(5))
            .push(Instruction::Else)
            .push(Instruction::LocalGet(4))
            .push(Instruction::I32Const(116))
            .push(Instruction::I32Eq)
            .push(Instruction::If(BlockType::Result(ValType::I32)))
            .push(Instruction::LocalGet(3))
            .push(Instruction::I32Const(4))
            .push(Instruction::I32Add)
            .push(Instruction::LocalSet(3))
            .push(Instruction::LocalGet(1))
            .push(Instruction::LocalGet(3))
            .push(Instruction::I32Store(MemArg { offset: 0, align: 2, memory_index: 0 }))
            .push(Instruction::I32Const(12))
            .push(Instruction::Call(malloc_index))
            .push(Instruction::LocalSet(5))
            .push(Instruction::LocalGet(5))
            .push(Instruction::I32Const(2))
            .push(Instruction::I32Store(MemArg { offset: 0, align: 2, memory_index: 0 }))
            .push(Instruction::LocalGet(5))
            .push(Instruction::I32Const(1))
            .push(Instruction::I32Store(MemArg { offset: 4, align: 2, memory_index: 0 }))
            .push(Instruction::LocalGet(5))
            .push(Instruction::I32Const(0))
            .push(Instruction::I32Store(MemArg { offset: 8, align: 2, memory_index: 0 }))
            .push(Instruction::LocalGet(5))
            .push(Instruction::Else)
            .push(Instruction::LocalGet(4))
            .push(Instruction::I32Const(102))
            .push(Instruction::I32Eq)
            .push(Instruction::If(BlockType::Result(ValType::I32)))
            .push(Instruction::LocalGet(3))
            .push(Instruction::I32Const(5))
            .push(Instruction::I32Add)
            .push(Instruction::LocalSet(3))
            .push(Instruction::LocalGet(1))
            .push(Instruction::LocalGet(3))
            .push(Instruction::I32Store(MemArg { offset: 0, align: 2, memory_index: 0 }))
            .push(Instruction::I32Const(12))
            .push(Instruction::Call(malloc_index))
            .push(Instruction::LocalSet(5))
            .push(Instruction::LocalGet(5))
            .push(Instruction::I32Const(2))
            .push(Instruction::I32Store(MemArg { offset: 0, align: 2, memory_index: 0 }))
            .push(Instruction::LocalGet(5))
            .push(Instruction::I32Const(0))
            .push(Instruction::I32Store(MemArg { offset: 4, align: 2, memory_index: 0 }))
            .push(Instruction::LocalGet(5))
    }

    /// Part 6 of `generate_parse_value_instructions`.
    #[verifier::rlimit(40)]
    #[verifier::spinoff_prover]
    fn generate_parse_value_instructions_6(b: &mut Body, parse_object_index: u32, parse_array_index: u32, parse_string_index: u32, malloc_index: u32)
        requires
            old(b).wf(),
            old(b).open_blocks() == 8,
            old(b).n_locals() == 15,
        ensures
            final(b).wf(),
            final(b).open_blocks() == 6,
            final(b).n_locals() == 15,
            final(b).instrs() == Self::parse_value_instructions_part_6(old(b).instrs(), parse_object_index, parse_array_index, parse_string_index, malloc_index),
    {
        proof {
            reveal(JsonClass::parse_value_instructions_part_6);
        }
        b.i(Instruction::Br(0));
        b.i(Instruction::End);
        b.i(Instruction::End);
        // value = value / factor for a negative exponent, value * factor otherwise
        b.i(Instruction::LocalGet(5));
        b.i(Instruction::I32Const(4));
        b.i(Instruction::I32Add);
        b.i(Instruction::LocalGet(9));
        b.i(Instruction::If(BlockType::Result(ValType::F64)));
        b.i(Instruction::LocalGet(5));
        b.i(Instruction::I32Const(4));
        b.i(Instruction::I32Add);
        b.i(Instruction::F64Load(MemArg { offset: 0, align: 3, memory_index: 0 }));
        b.i(Instruction::LocalGet(14));
        b.i(Instruction::F64Div);
        b.i(Instruction::Else);
        b.i(Instruction::LocalGet(5));
        b.i(Instruction::I32Const(4));
        b.i(Instruction::I32Add);
        b.i(Instruction::F64Load(MemArg { offset: 0, align: 3, memory_index: 0 }));
        b.i(Instruction::LocalGet(14));
        b.i(Instruction::F64Mul);
        b.i(Instruction::End);
        b.i(Instruction::F64Store(MemArg { offset: 0, align: 3, memory_index: 0 }));
        b.i(Instruction::End); // end exponent check
        b.i(Instruction::End); // end parse_pos < position check
        // Apply negative sign if needed
        b.i(Instruction::LocalGet(8)); // is_negative
        b.i(Instruction::If(BlockType::Empty));
        // Negate the value
        b.i(Instruction::LocalGet(5));
        b.i(Instruction::I32Const(4));
        b.i(Instruction::I32Add);
        b.i(Instruction::F64Load(MemArg { offset: 0, align: 3, memory_index: 0 }));
        b.i(Instruction::F64Neg);
        // Save negated value to temp local 13
        b.i(Instruction::LocalSet(13));
        // Store back (address first, then value)
        b.i(Instruction::LocalGet(5));
        b.i(Instruction::I32Const(4));
        b.i(Instruction::I32Add);
        b.i(Instruction::LocalGet(13));
        b.i(Instruction::F64Store(MemArg { offset: 0, align: 3, memory_index: 0 }));
        b.i(Instruction::End);
        // Write position back
        b.i(Instruction::LocalGet(1));
        b.i(Instruction::LocalGet(3));
        b.i(Instruction::I32Store(MemArg { offset: 0, align: 2, memory_index: 0 }));
        // Return number pointer
        b.i(Instruction::LocalGet(5));
        b.i(Instruction::Else);
        // Check for 't' (116) - true
        b.i(Instruction::LocalGet(4));
        b.i(Instruction::I32Const(116));
        b.i(Instruction::I32Eq);
        b.i(Instruction::If(BlockType::Result(ValType::I32)));
        // Skip past "true" (4 characters)
        b.i(Instruction::LocalGet(3));
        b.i(Instruction::I32Const(4));
        b.i(Instruction::I32Add);
        b.i(Instruction::LocalSet(3));
        // Write position back
        b.i(Instruction::LocalGet(1));
        b.i(Instruction::LocalGet(3));
        b.i(Instruction::I32Store(MemArg { offset: 0, align: 2, memory_index: 0 }));
        // Allocate 12 bytes for boxed boolean (true)
        b.i(Instruction::I32Const(12));
        b.i(Instruction::Call(malloc_index));
        b.i(Instruction::LocalSet(5));
        // Store type tag 2 (Boolean) at offset 0
        b.i(Instruction::LocalGet(5));
        b.i(Instruction::I32Const(2)); // Boolean tag
        b.i(Instruction::I32Store(MemArg { offset: 0, align: 2, memory_index: 0 }));
        // Store value 1 (true) at offset 4
        b.i(Instruction::LocalGet(5));
        b.i(Instruction::I32Const(1)); // true = 1
        b.i(Instruction::I32Store(MemArg { offset: 4, align: 2, memory_index: 0 }));
        // Store 0 at offset 8 (padding)
        b.i(Instruction::LocalGet(5));
        b.i(Instruction::I32Const(0));
        b.i(Instruction::I32Store(MemArg { offset: 8, align: 2, memory_index: 0 }));
        // Return boxed boolean pointer
        b.i(Instruction::LocalGet(5));
        b.i(Instruction::Else);
        // Check for 'f' (102) - false
        b.i(Instruction::LocalGet(4));
        b.i(Instruction::I32Const(102));
        b.i(Instruction::I32Eq);
        b.i(Instruction::If(BlockType::Result(ValType::I32)));
        // Skip past "false" (5 characters)
        b.i(Instruction::LocalGet(3));
        b.i(Instruction::I32Const(5));
        b.i(Instruction::I32Add);
        b.i(Instruction::LocalSet(3));
        // Write position back
        b.i(Instruction::LocalGet(1));
        b.i(Instruction::LocalGet(3));
        b.i(Instruction::I32Store(MemArg { offset: 0, align: 2, memory_index: 0 }));
        // Allocate 12 bytes for boxed boolean (false)
        b.i(Instruction::I32Const(12));
        b.i(Instruction::Call(malloc_index));
        b.i(Instruction::LocalSet(5));
        // Store type tag 2 (Boolean) at offset 0
        b.i(Instruction::LocalGet(5));
        b.i(Instruction::I32Const(2)); // Boolean tag
        b.i(Instruction::I32Store(MemArg { offset: 0, align: 2, memory_index: 0 }));
        // Store value 0 (false) at offset 4
        b.i(Instruction::LocalGet(5));
        b.i(Instruction::I32Const(0)); // false = 0
        b.i(Instruction::I32Store(MemArg { offset: 4, align: 2, memory_index: 0 }));
        // Store 0 at offset 8 (padding)
        b.i(Instruction::LocalGet(5));
    }

    /// Part 7 of `parse_value_instructions_body`, after `s`.
    #[verifier::opaque]
    pub open spec fn parse_value_instructions_part_7(s: Seq<Instruction>, parse_object_index: u32, parse_array_index: u32, parse_string_index: u32, malloc_index: u32) -> Seq<Instruction> {
        s
            .push(Instruction::I32Const(0))
            .push(Instruction::I32Store(MemArg { offset: 8, align: 2, memory_index: 0 }))
            .push(Instruction::LocalGet(5))
            .push(Instruction::Else)
            .push(Instruction::LocalGet(4))
            .push(Instruction::I32Const(110))
            .push(Instruction::I32Eq)
            .push(Instruction::If(BlockType::Result(ValType::I32)))
            .push(Instruction::LocalGet(3))
            .push(Instruction::I32Const(4))
            .push(Instruction::I32Add)
            .push(Instruction::LocalSet(3))
            .push(Instruction::LocalGet(1))
            .push(Instruction::LocalGet(3))
            .push(Instruction::I32Store(MemArg { offset: 0, align: 2, memory_index: 0 }))
            .push(Instruction::I32Const(12))
            .push(Instruction::Call(malloc_index))
            .push(Instruction::LocalSet(5))
            .push(Instruction::LocalGet(5))
            .push(Instruction::I32Const(0))
            .push(Instruction::I32Store(MemArg { offset: 0, align: 2, memory_index: 0 }))
            .push(Instruction::LocalGet(5))
            .push(Instruction::I32Const(0))
            .push(Instruction::I32Store(MemArg { offset: 4, align: 2, memory_index: 0 }))
            .push(Instruction::LocalGet(5))
            .push(Instruction::I32Const(0))
            .push(Instruction::I32Store(MemArg { offset: 8, align: 2, memory_index: 0 }))
            .push(Instruction::LocalGet(5))
            .push(Instruction::Else)
            .push(Instruction::I32Const(12))
            .push(Instruction::Call(malloc_index))
            .push(Instruction::LocalSet(5))
            .push(Instruction::LocalGet(5))
            .push(Instruction::I32Const(0))
            .push(Instruction::I32Store(MemArg { offset: 0, align: 2, memory_index: 0 }))
            .push(Instruction::LocalGet(5))
            .push(Instruction::End)
            .push(Instruction::End)
            .push(Instruction::End)
            .push(Instruction::End)
            .push(Instruction::End)
            .push(Instruction::End)
            .push(Instruction::End)
    }

    /// Part 7 of `generate_parse_value_instructions`.
    #[verifier::rlimit(40)]
    #[verifier::spinoff_prover]
    fn generate_parse_value_instructions_7(b: &mut Body, parse_object_index: u32, parse_array_index: u32, parse_string_index: u32, malloc_index: u32)
        requires
            old(b).wf(),
            old(b).open_blocks() == 6,
            old(b).n_locals() == 15,
        ensures
            final(b).wf(),
            final(b).open_blocks() == 0,
            final(b).n_locals() == 15,
            final(b).instrs() == Self::parse_value_instructions_part_7(old(b).instrs(), parse_object_index, parse_array_index, parse_string_index, malloc_index),
    {
        proof {
            reveal(JsonClass::parse_value_instructions_part_7);
        }
        b.i(Instruction::I32Const(0));
        b.i(Instruction::I32Store(MemArg { offset: 8, align: 2, memory_index: 0 }));
        // Return boxed boolean pointer
        b.i(Instruction::LocalGet(5));
        b.i(Instruction::Else);
        // Check for 'n' (110) - null
        b.i(Instruction::LocalGet(4));
        b.i(Instruction::I32Const(110));
        b.i(Instruction::I32Eq);
        b.i(Instruction::If(BlockType::Result(ValType::I32)));
        // Skip past "null" (4 characters)
        b.i(Instruction::LocalGet(3));
        b.i(Instruction::I32Const(4));
        b.i(Instruction::I32Add);
        b.i(Instruction::LocalSet(3));
        // Write position back
        b.i(Instruction::LocalGet(1));
        b.i(Instruction::LocalGet(3));
        b.i(Instruction::I32Store(MemArg { offset: 0, align: 2, memory_index: 0 }));
        // Allocate 12 bytes for boxed null
        b.i(Instruction::I32Const(12));
        b.i(Instruction::Call(malloc_index));
        b.i(Instruction::LocalSet(5));
        // Store type tag 0 (Null) at offset 0
        b.i(Instruction::LocalGet(5));
        b.i(Instruction::I32Const(0)); // Null tag
        b.i(Instruction::I32Store(MemArg { offset: 0, align: 2, memory_index: 0 }));
        // Store 0 at offset 4
        b.i(Instruction::LocalGet(5));
        b.i(Instruction::I32Const(0));
        b.i(Instruction::I32Store(MemArg { offset: 4, align: 2, memory_index: 0 }));
        // Store 0 at offset 8
        b.i(Instruction::LocalGet(5));
        b.i(Instruction::I32Const(0));
        b.i(Instruction::I32Store(MemArg { offset: 8, align: 2, memory_index: 0 }));
        // Return boxed null pointer
        b.i(Instruction::LocalGet(5));
        b.i(Instruction::Else);
        // Unknown value - return boxed null
        b.i(Instruction::I32Const(12));
        b.i(Instruction::Call(malloc_index));
        b.i(Instruction::LocalSet(5));
        b.i(Instruction::LocalGet(5));
        b.i(Instruction::I32Const(0));
        b.i(Instruction::I32Store(MemArg { offset: 0, align: 2, memory_index: 0 }));
        b.i(Instruction::LocalGet(5));
        b.i(Instruction::End); // End 'n' check
        b.i(Instruction::End); // End 'f' check
        b.i(Instruction::End); // End 't' check
        b.i(Instruction::End); // End number check
        b.i(Instruction::End); // End string check
        b.i(Instruction::End); // End array check
        b.i(Instruction::End); // End object check
    }

    /// The instructions `generate_parse_object_instructions` returns.
    #[verifier::opaque]
    pub open spec fn parse_object_instructions_body(parse_value_index: u32, skip_string_index: u32, parse_string_index: u32, malloc_index: u32) -> Seq<Instruction> {
        (((((Seq::<Instruction>::empty()
            + Self::parse_object_init_instructions_body())
            + Self::parse_object_count_pairs_instructions_body(skip_string_index))
            + Self::parse_object_alloc_instructions_body(malloc_index))
            + Self::parse_object_parse_pairs_instructions_body(parse_value_index, parse_string_index, malloc_index))
            + Self::parse_object_finalize_instructions_body())
    }

    /// Generate WASM instructions for __json_parse_object
    /// Parses JSON object: {"key1":value1,"key2":value2,...}
    ///
    /// Parameters:
    /// - string_ptr (i32): Pointer to JSON string
    /// - position_ptr (i32): Memory location containing current position
    /// - length (i32): String length
    ///
    /// Returns:
    /// - i32: Pointer to object or 0 on error
    ///
    /// Local variable layout:
    /// - Local 0: string_ptr (parameter)
    /// - Local 1: position_ptr (parameter - memory location)
    /// - Local 2: length (parameter)
    /// - Local 3: position (cached from position_ptr)
    /// - Local 4: current_character
    /// - Local 5: pair_count
    /// - Local 6: object_ptr (allocated memory)
    /// - Local 7: loop counter i
    /// - Local 8: start_position / key_start / num_start / str_start
    /// - Local 9: key_len / str_len / parse_pos
    /// - Local 10: key_ptr / is_negative / temp / depth
    /// - Local 11: value_ptr / str_ptr
    /// - Local 12: temp
    /// - Local 13: temp
    /// - Local 14: decimal_divisor (F64)
    #[verifier::rlimit(40)]
    #[verifier::spinoff_prover]
    fn generate_parse_object_instructions(&self, parse_value_index: u32, skip_string_index: u32, parse_string_index: u32, malloc_index: u32) -> (r: Vec<Instruction>)
        ensures
            body_ok(r@, 15),
            r@ == Self::parse_object_instructions_body(parse_value_index, skip_string_index, parse_string_index, malloc_index),
    {
        proof {
            reveal(JsonClass::parse_object_instructions_body);
        }
        let mut b = Body::new(15);
        let frag = self.generate_parse_object_init_instructions();
        proof {
            lemma_body_ok_more_locals(frag@, 9, 15);
        }
        b.extend(frag);
        let frag = self.generate_parse_object_count_pairs_instructions(skip_string_index);
        proof {
            lemma_body_ok_more_locals(frag@, 11, 15);
        }
        b.extend(frag);
        let frag = self.generate_parse_object_alloc_instructions(malloc_index);
        proof {
            lemma_body_ok_more_locals(frag@, 9, 15);
        }
        b.extend(frag);
        let frag = self.generate_parse_object_parse_pairs_instructions(parse_value_index, parse_string_index, malloc_index);
        proof {
            lemma_body_ok_more_locals(frag@, 15, 15);
        }
        b.extend(frag);
        let frag = self.generate_parse_object_finalize_instructions();
        proof {
            lemma_body_ok_more_locals(frag@, 7, 15);
        }
        b.extend(frag);
        b.finish()
    }

    /// The instructions `generate_parse_object_init_instructions` returns.
    #[verifier::opaque]
    pub open spec fn parse_object_init_instructions_body() -> Seq<Instruction> {
        seq![
            Instruction::LocalGet(1),
            Instruction::I32Load(MemArg { offset: 0, align: 2, memory_index: 0 }),
            Instruction::LocalSet(3),
            Instruction::LocalGet(3),
            Instruction::I32Const(1),
            Instruction::I32Add,
            Instruction::LocalSet(3),
            Instruction::LocalGet(3),
            Instruction::LocalSet(8),
            Instruction::I32Const(0),
            Instruction::LocalSet(5),
        ]
    }

    ///
    /// Reads: Local 1 (position_ptr), Local 2 (length)
    /// Writes: Local 3 (position), Local 8 (start_position), Local 5 (pair_count)
    fn generate_parse_object_init_instructions(&self) -> (r: Vec<Instruction>)
        ensures
            body_ok(r@, 9),
            r@ == Self::parse_object_init_instructions_body(),
    {
        proof {
            reveal(JsonClass::parse_object_init_instructions_body);
        }
        let mut b = Body::new(9);
        // Read position from memory into cache
        b.i(Instruction::LocalGet(1)); // position_ptr
        b.i(Instruction::I32Load(MemArg { offset: 0, align: 2, memory_index: 0 }));
        b.i(Instruction::LocalSet(3)); // position (cached)
        // OBJECT PARSER IMPLEMENTATION
        // Parse JSON object: {"key1":value1,"key2":value2,...}
        // Strategy:
        // 1. Count key-value pairs by scanning for commas
        // 2. Allocate memory: 4 bytes (count) + pairs * 8 bytes (key_ptr, val_ptr per pair)
        // 3. Parse each key-value pair and store in memory
        // Memory layout: [i32 count][i32 key0_ptr][i32 val0_ptr][i32 key1_ptr][i32 val1_ptr]...
        // Step 1: Skip opening '{'
        b.i(Instruction::LocalGet(3)); // position
        b.i(Instruction::I32Const(1));
        b.i(Instruction::I32Add);
        b.i(Instruction::LocalSet(3)); // position++
        // Step 2: Count pairs by scanning for commas and keys
        // Save current position
        b.i(Instruction::LocalGet(3));
        b.i(Instruction::LocalSet(8)); // start_position = position
        // Initialize pair count to 0
        b.i(Instruction::I32Const(0));
        b.i(Instruction::LocalSet(5)); // pair_count = 0
        b.finish()
    }

    /// The instructions `generate_parse_object_count_pairs_instructions` returns.
    #[verifier::opaque]
    pub open spec fn parse_object_count_pairs_instructions_body(skip_string_index: u32) -> Seq<Instruction> {
        let s = Self::parse_object_count_pairs_instructions_part_1(Seq::<Instruction>::empty(), skip_string_index);
        Self::parse_object_count_pairs_instructions_part_2(s, skip_string_index)
    }

    ///
    /// Uses depth tracking and calls `__json_skip_string` when a `"` is encountered so
    /// that escape sequences inside strings cannot be misinterpreted as structural chars.
    ///
    /// Reads:  Local 0 (string_ptr), Local 1 (position_ptr), Local 2 (length),
    /// Local 3 (position), Local 5 (pair_count)
    /// Writes: Local 3 (position advanced past entire object),
    /// Local 4 (char), Local 5 (pair_count), Local 10 (depth)
    fn generate_parse_object_count_pairs_instructions(&self, skip_string_index: u32) -> (r: Vec<Instruction>)
        ensures
            body_ok(r@, 11),
            r@ == Self::parse_object_count_pairs_instructions_body(skip_string_index),
    {
        let mut b = Body::new(11);
        Self::generate_parse_object_count_pairs_instructions_1(&mut b, skip_string_index);
        Self::generate_parse_object_count_pairs_instructions_2(&mut b, skip_string_index);
        proof {
            reveal(JsonClass::parse_object_count_pairs_instructions_body);
        }
        b.finish()
    }

    /// Part 1 of `parse_object_count_pairs_instructions_body`, after `s`.
    #[verifier::opaque]
    pub open spec fn parse_object_count_pairs_instructions_part_1(s: Seq<Instruction>, skip_string_index: u32) -> Seq<Instruction> {
        s
            .push(Instruction::Block(BlockType::Empty))
            .push(Instruction::Loop(BlockType::Empty))
            .push(Instruction::Block(BlockType::Empty))
            .push(Instruction::Loop(BlockType::Empty))
            .push(Instruction::LocalGet(3))
            .push(Instruction::LocalGet(2))
            .push(Instruction::I32GeU)
            .push(Instruction::BrIf(3))
            .push(Instruction::LocalGet(0))
            .push(Instruction::I32Const(4))
            .push(Instruction::I32Add)
            .push(Instruction::LocalGet(3))
            .push(Instruction::I32Add)
            .push(Instruction::I32Load8U(MemArg { offset: 0, align: 0, memory_index: 0 }))
            .push(Instruction::LocalSet(4))
            .push(Instruction::LocalGet(4))
            .push(Instruction::I32Const(32))
            .push(Instruction::I32Eq)
            .push(Instruction::LocalGet(4))
            .push(Instruction::I32Const(9))
            .push(Instruction::I32Eq)
            .push(Instruction::I32Or)
            .push(Instruction::LocalGet(4))
            .push(Instruction::I32Const(10))
            .push(Instruction::I32Eq)
            .push(Instruction::I32Or)
            .push(Instruction::LocalGet(4))
            .push(Instruction::I32Const(13))
            .push(Instruction::I32Eq)
            .push(Instruction::I32Or)
            .push(Instruction::I32Eqz)
            .push(Instruction::BrIf(1))
            .push(Instruction::LocalGet(3))
            .push(Instruction::I32Const(1))
            .push(Instruction::I32Add)
            .push(Instruction::LocalSet(3))
            .push(Instruction::Br(0))
            .push(Instruction::End)
            .push(Instruction::End)
            .push(Instruction::LocalGet(4))
            .push(Instruction::I32Const(125))
            .push(Instruction::I32Eq)
            .push(Instruction::BrIf(1))
            .push(Instruction::LocalGet(5))
            .push(Instruction::I32Const(1))
            .push(Instruction::I32Add)
            .push(Instruction::LocalSet(5))
            .push(Instruction::I32Const(0))
            .push(Instruction::LocalSet(10))
            .push(Instruction::Block(BlockType::Empty))
            .push(Instruction::Loop(BlockType::Empty))
            .push(Instruction::LocalGet(3))
            .push(Instruction::LocalGet(2))
            .push(Instruction::I32GeU)
            .push(Instruction::BrIf(3))
            .push(Instruction::LocalGet(0))
            .push(Instruction::I32Const(4))
            .push(Instruction::I32Add)
            .push(Instruction::LocalGet(3))
            .push(Instruction::I32Add)
            .push(Instruction::I32Load8U(MemArg { offset: 0, align: 0, memory_index: 0 }))
            .push(Instruction::LocalSet(4))
            .push(Instruction::LocalGet(3))
            .push(Instruction::I32Const(1))
            .push(Instruction::I32Add)
            .push(Instruction::LocalSet(3))
            .push(Instruction::LocalGet(4))
            .push(Instruction::I32Const(34))
            .push(Instruction::I32Eq)
            .push(Instruction::If(BlockType::Empty))
            .push(Instruction::LocalGet(1))
            .push(Instruction::LocalGet(3))
            .push(Instruction::I32Const(1))
            .push(Instruction::I32Sub)
            .push(Instruction::I32Store(MemArg { offset: 0, align: 2, memory_index: 0 }))
            .push(Instruction::LocalGet(0))
            .push(Instruction::LocalGet(1))
            .push(Instruction::LocalGet(2))
            .push(Instruction::Call(skip_string_index))
            .push(Instruction::LocalGet(1))
            .push(Instruction::I32Load(MemArg { offset: 0, align: 2, memory_index: 0 }))
            .push(Instruction::LocalSet(3))
            .push(Instruction::Br(0))
            .push(Instruction::End)
            .push(Instruction::LocalGet(4))
            .push(Instruction::I32Const(123))
            .push(Instruction::I32Eq)
            .push(Instruction::LocalGet(4))
            .push(Instruction::I32Const(91))
            .push(Instruction::I32Eq)
    }

    /// Part 1 of `generate_parse_object_count_pairs_instructions`.
    #[verifier::rlimit(40)]
    #[verifier::spinoff_prover]
    fn generate_parse_object_count_pairs_instructions_1(b: &mut Body, skip_string_index: u32)
        requires
            old(b).wf(),
            old(b).open_blocks() == 0,
            old(b).n_locals() == 11,
        ensures
            final(b).wf(),
            final(b).open_blocks() == 4,
            final(b).n_locals() == 11,
            final(b).instrs() == Self::parse_object_count_pairs_instructions_part_1(old(b).instrs(), skip_string_index),
    {
        proof {
            reveal(JsonClass::parse_object_count_pairs_instructions_part_1);
        }
        // outer_block / outer_loop: iterate over top-level key-value pairs
        b.i(Instruction::Block(BlockType::Empty)); // outer_block  label=1
        b.i(Instruction::Loop(BlockType::Empty)); // outer_loop   label=0
        // --- skip leading whitespace ---
        b.i(Instruction::Block(BlockType::Empty)); // ws_block     label=1 (inner)
        b.i(Instruction::Loop(BlockType::Empty)); // ws_loop      label=0 (inner)
        b.i(Instruction::LocalGet(3));
        b.i(Instruction::LocalGet(2));
        b.i(Instruction::I32GeU);
        b.i(Instruction::BrIf(3)); // exit outer_block if end of input
        b.i(Instruction::LocalGet(0));
        b.i(Instruction::I32Const(4));
        b.i(Instruction::I32Add);
        b.i(Instruction::LocalGet(3));
        b.i(Instruction::I32Add);
        b.i(Instruction::I32Load8U(MemArg { offset: 0, align: 0, memory_index: 0 }));
        b.i(Instruction::LocalSet(4));
        // is whitespace?
        b.i(Instruction::LocalGet(4));
        b.i(Instruction::I32Const(32));
        b.i(Instruction::I32Eq);
        b.i(Instruction::LocalGet(4));
        b.i(Instruction::I32Const(9));
        b.i(Instruction::I32Eq);
        b.i(Instruction::I32Or);
        b.i(Instruction::LocalGet(4));
        b.i(Instruction::I32Const(10));
        b.i(Instruction::I32Eq);
        b.i(Instruction::I32Or);
        b.i(Instruction::LocalGet(4));
        b.i(Instruction::I32Const(13));
        b.i(Instruction::I32Eq);
        b.i(Instruction::I32Or);
        b.i(Instruction::I32Eqz);
        b.i(Instruction::BrIf(1)); // non-whitespace: exit ws_block
        b.i(Instruction::LocalGet(3));
        b.i(Instruction::I32Const(1));
        b.i(Instruction::I32Add);
        b.i(Instruction::LocalSet(3));
        b.i(Instruction::Br(0)); // continue ws_loop
        b.i(Instruction::End); // end ws_loop
        b.i(Instruction::End); // end ws_block
        // --- check for '}' that ends the object ---
        b.i(Instruction::LocalGet(4));
        b.i(Instruction::I32Const(125)); // '}'
        b.i(Instruction::I32Eq);
        b.i(Instruction::BrIf(1)); // exit outer_loop
        // --- found a key: pair_count++ ---
        b.i(Instruction::LocalGet(5));
        b.i(Instruction::I32Const(1));
        b.i(Instruction::I32Add);
        b.i(Instruction::LocalSet(5));
        // --- skip this entire key:value pair to find next ',' or '}' ---
        // depth tracks nesting inside nested objects/arrays
        b.i(Instruction::I32Const(0));
        b.i(Instruction::LocalSet(10)); // depth = 0
        // skip_block / skip_loop: advance position to end of this pair
        b.i(Instruction::Block(BlockType::Empty)); // skip_block  label=1
        b.i(Instruction::Loop(BlockType::Empty)); // skip_loop   label=0
        b.i(Instruction::LocalGet(3));
        b.i(Instruction::LocalGet(2));
        b.i(Instruction::I32GeU);
        b.i(Instruction::BrIf(3)); // end-of-input → exit outer_block
        // peek char, then advance position
        b.i(Instruction::LocalGet(0));
        b.i(Instruction::I32Const(4));
        b.i(Instruction::I32Add);
        b.i(Instruction::LocalGet(3));
        b.i(Instruction::I32Add);
        b.i(Instruction::I32Load8U(MemArg { offset: 0, align: 0, memory_index: 0 }));
        b.i(Instruction::LocalSet(4));
        b.i(Instruction::LocalGet(3));
        b.i(Instruction::I32Const(1));
        b.i(Instruction::I32Add);
        b.i(Instruction::LocalSet(3)); // position++
        // --- if '"': skip the whole string via __json_skip_string ---
        b.i(Instruction::LocalGet(4));
        b.i(Instruction::I32Const(34)); // '"'
        b.i(Instruction::I32Eq);
        b.i(Instruction::If(BlockType::Empty));
        // position is now one past the opening '"'; write (position-1) to position_ptr
        b.i(Instruction::LocalGet(1));
        b.i(Instruction::LocalGet(3));
        b.i(Instruction::I32Const(1));
        b.i(Instruction::I32Sub);
        b.i(Instruction::I32Store(MemArg { offset: 0, align: 2, memory_index: 0 }));
        // call __json_skip_string(string_ptr, position_ptr, length)
        b.i(Instruction::LocalGet(0));
        b.i(Instruction::LocalGet(1));
        b.i(Instruction::LocalGet(2));
        b.i(Instruction::Call(skip_string_index));
        // read updated position back
        b.i(Instruction::LocalGet(1));
        b.i(Instruction::I32Load(MemArg { offset: 0, align: 2, memory_index: 0 }));
        b.i(Instruction::LocalSet(3));
        b.i(Instruction::Br(0)); // continue skip_loop
        b.i(Instruction::End);
        // --- '{' or '[': depth++ ---
        b.i(Instruction::LocalGet(4));
        b.i(Instruction::I32Const(123)); // '{'
        b.i(Instruction::I32Eq);
        b.i(Instruction::LocalGet(4));
        b.i(Instruction::I32Const(91)); // '['
        b.i(Instruction::I32Eq);
    }

    /// Part 2 of `parse_object_count_pairs_instructions_body`, after `s`.
    #[verifier::opaque]
    pub open spec fn parse_object_count_pairs_instructions_part_2(s: Seq<Instruction>, skip_string_index: u32) -> Seq<Instruction> {
        s
            .push(Instruction::I32Or)
            .push(Instruction::If(BlockType::Empty))
            .push(Instruction::LocalGet(10))
            .push(Instruction::I32Const(1))
            .push(Instruction::I32Add)
            .push(Instruction::LocalSet(10))
            .push(Instruction::Br(1))
            .push(Instruction::End)
            .push(Instruction::LocalGet(4))
            .push(Instruction::I32Const(125))
            .push(Instruction::I32Eq)
            .push(Instruction::LocalGet(4))
            .push(Instruction::I32Const(93))
            .push(Instruction::I32Eq)
            .push(Instruction::I32Or)
            .push(Instruction::If(BlockType::Empty))
            .push(Instruction::LocalGet(10))
            .push(Instruction::I32Eqz)
            .push(Instruction::If(BlockType::Empty))
            .push(Instruction::Br(3))
            .push(Instruction::End)
            .push(Instruction::LocalGet(10))
            .push(Instruction::I32Const(1))
            .push(Instruction::I32Sub)
            .push(Instruction::LocalSet(10))
            .push(Instruction::Br(1))
            .push(Instruction::End)
            .push(Instruction::LocalGet(4))
            .push(Instruction::I32Const(44))
            .push(Instruction::I32Eq)
            .push(Instruction::LocalGet(10))
            .push(Instruction::I32Eqz)
            .push(Instruction::I32And)
            .push(Instruction::BrIf(1))
            .push(Instruction::Br(0))
            .push(Instruction::End)
            .push(Instruction::End)
            .push(Instruction::LocalGet(4))
            .push(Instruction::I32Const(125))
            .push(Instruction::I32Eq)
            .push(Instruction::BrIf(1))
            .push(Instruction::Br(0))
            .push(Instruction::End)
            .push(Instruction::End)
    }

    /// Part 2 of `generate_parse_object_count_pairs_instructions`.
    #[verifier::rlimit(40)]
    #[verifier::spinoff_prover]
    fn generate_parse_object_count_pairs_instructions_2(b: &mut Body, skip_string_index: u32)
        requires
            old(b).wf(),
            old(b).open_blocks() == 4,
            old(b).n_locals() == 11,
        ensures
            final(b).wf(),
            final(b).open_blocks() == 0,
            final(b).n_locals() == 11,
            final(b).instrs() == Self::parse_object_count_pairs_instructions_part_2(old(b).instrs(), skip_string_index),
    {
        proof {
            reveal(JsonClass::parse_object_count_pairs_instructions_part_2);
        }
        b.i(Instruction::I32Or);
        b.i(Instruction::If(BlockType::Empty));
        b.i(Instruction::LocalGet(10));
        b.i(Instruction::I32Const(1));
        b.i(Instruction::I32Add);
        b.i(Instruction::LocalSet(10));
        b.i(Instruction::Br(1)); // continue skip_loop
        b.i(Instruction::End);
        // --- '}' or ']' ---
        b.i(Instruction::LocalGet(4));
        b.i(Instruction::I32Const(125)); // '}'
        b.i(Instruction::I32Eq);
        b.i(Instruction::LocalGet(4));
        b.i(Instruction::I32Const(93)); // ']'
        b.i(Instruction::I32Eq);
        b.i(Instruction::I32Or);
        b.i(Instruction::If(BlockType::Empty));
        // depth == 0 → this is the outer closing brace: exit skip_block.
        // Br index: from inside two nested Ifs (outer brace If + inner depth==0 If)
        // the label stack is [innerIf, outerIf, skip_loop(Loop), skip_block(Block)].
        // Br(3) targets skip_block. Br(2) would restart skip_loop (Loop labels mean
        // "go to start"), which lets the scanner march past the object's closing
        // brace and miscounts characters in the next array element as additional
        // key/value pairs (STDLIB-JSON-INDEX-OBJECT-ARRAY-PAST-ZERO).
        b.i(Instruction::LocalGet(10));
        b.i(Instruction::I32Eqz);
        b.i(Instruction::If(BlockType::Empty));
        b.i(Instruction::Br(3)); // exit skip_block
        b.i(Instruction::End);
        // depth > 0: decrement and continue
        b.i(Instruction::LocalGet(10));
        b.i(Instruction::I32Const(1));
        b.i(Instruction::I32Sub);
        b.i(Instruction::LocalSet(10));
        b.i(Instruction::Br(1)); // continue skip_loop
        b.i(Instruction::End);
        // --- ',' at depth 0: separator between pairs; exit skip_block ---
        b.i(Instruction::LocalGet(4));
        b.i(Instruction::I32Const(44)); // ','
        b.i(Instruction::I32Eq);
        b.i(Instruction::LocalGet(10));
        b.i(Instruction::I32Eqz);
        b.i(Instruction::I32And);
        b.i(Instruction::BrIf(1)); // exit skip_block
        b.i(Instruction::Br(0)); // continue skip_loop
        b.i(Instruction::End); // end skip_loop
        b.i(Instruction::End); // end skip_block
        // If we exited because of '}': end the outer loop too
        b.i(Instruction::LocalGet(4));
        b.i(Instruction::I32Const(125)); // '}'
        b.i(Instruction::I32Eq);
        b.i(Instruction::BrIf(1)); // exit outer_loop
        b.i(Instruction::Br(0)); // continue outer_loop
        b.i(Instruction::End); // end outer_loop
        b.i(Instruction::End); // end outer_block
    }

    /// The instructions `generate_parse_object_alloc_instructions` returns.
    #[verifier::opaque]
    pub open spec fn parse_object_alloc_instructions_body(malloc_index: u32) -> Seq<Instruction> {
        seq![
            Instruction::I32Const(4),
            Instruction::LocalGet(5),
            Instruction::I32Const(8),
            Instruction::I32Mul,
            Instruction::I32Add,
            Instruction::Call(malloc_index),
            Instruction::LocalSet(6),
            Instruction::LocalGet(6),
            Instruction::LocalGet(5),
            Instruction::I32Store(MemArg { offset: 0, align: 2, memory_index: 0 }),
            Instruction::LocalGet(8),
            Instruction::LocalSet(3),
            Instruction::I32Const(0),
            Instruction::LocalSet(7),
        ]
    }

    ///
    /// Allocates `4 + pair_count * 8` bytes (count header + key/value pointer pairs),
    /// stores the pair count at offset 0, resets position to `start_position`, and
    /// initialises the loop counter `i = 0`.
    ///
    /// Reads: Local 5 (pair_count), Local 8 (start_position)
    /// Writes: Local 6 (object_ptr), Local 3 (position reset), Local 7 (i = 0)
    fn generate_parse_object_alloc_instructions(&self, malloc_index: u32) -> (r: Vec<Instruction>)
        ensures
            body_ok(r@, 9),
            r@ == Self::parse_object_alloc_instructions_body(malloc_index),
    {
        proof {
            reveal(JsonClass::parse_object_alloc_instructions_body);
        }
        let mut b = Body::new(9);
        // Step 3: Allocate memory for object
        // Size = 4 (count) + pair_count * 8 (key ptr + val ptr)
        b.i(Instruction::I32Const(4));
        b.i(Instruction::LocalGet(5)); // pair_count
        b.i(Instruction::I32Const(8));
        b.i(Instruction::I32Mul);
        b.i(Instruction::I32Add);
        b.i(Instruction::Call(malloc_index)); // Call __malloc
        b.i(Instruction::LocalSet(6)); // object_ptr = malloc(...)
        // Store pair count at offset 0
        b.i(Instruction::LocalGet(6));
        b.i(Instruction::LocalGet(5));
        b.i(Instruction::I32Store(MemArg { offset: 0, align: 2, memory_index: 0 }));
        // Step 4: Reset position to start and parse pairs
        b.i(Instruction::LocalGet(8));
        b.i(Instruction::LocalSet(3)); // position = start_position
        // Initialize loop counter
        b.i(Instruction::I32Const(0));
        b.i(Instruction::LocalSet(7)); // i = 0
        b.finish()
    }

    /// The instructions `generate_parse_object_parse_pairs_instructions` returns.
    #[verifier::opaque]
    pub open spec fn parse_object_parse_pairs_instructions_body(parse_value_index: u32, parse_string_index: u32, malloc_index: u32) -> Seq<Instruction> {
        let s = Self::parse_object_parse_pairs_instructions_part_1(Seq::<Instruction>::empty(), parse_value_index, parse_string_index, malloc_index);
        let s = Self::parse_object_parse_pairs_instructions_part_2(s, parse_value_index, parse_string_index, malloc_index);
        let s = Self::parse_object_parse_pairs_instructions_part_3(s, parse_value_index, parse_string_index, malloc_index);
        let s = Self::parse_object_parse_pairs_instructions_part_4(s, parse_value_index, parse_string_index, malloc_index);
        let s = Self::parse_object_parse_pairs_instructions_part_5(s, parse_value_index, parse_string_index, malloc_index);
        let s = Self::parse_object_parse_pairs_instructions_part_6(s, parse_value_index, parse_string_index, malloc_index);
        let s = Self::parse_object_parse_pairs_instructions_part_7(s, parse_value_index, parse_string_index, malloc_index);
        let s = Self::parse_object_parse_pairs_instructions_part_8(s, parse_value_index, parse_string_index, malloc_index);
        Self::parse_object_parse_pairs_instructions_part_9(s, parse_value_index, parse_string_index, malloc_index)
    }

    ///
    /// For each pair: skips leading whitespace and any preceding comma, parses the key string
    /// (allocates and copies it), skips `:`, then dispatches on the first byte of the value
    /// to parse numbers (integer/float), strings, booleans, null, or nested structures via a
    /// recursive call to `parse_value`. After storing the value pointer, advances past any
    /// trailing separator before incrementing the loop counter.
    ///
    /// This block must remain monolithic because all `BrIf` depth offsets are relative to
    /// the nesting established by the enclosing `Block + Loop` opened here.
    fn generate_parse_object_parse_pairs_instructions(&self, parse_value_index: u32, parse_string_index: u32, malloc_index: u32) -> (r: Vec<Instruction>)
        ensures
            body_ok(r@, 15),
            r@ == Self::parse_object_parse_pairs_instructions_body(parse_value_index, parse_string_index, malloc_index),
    {
        let mut b = Body::new(15);
        Self::generate_parse_object_parse_pairs_instructions_1(&mut b, parse_value_index, parse_string_index, malloc_index);
        Self::generate_parse_object_parse_pairs_instructions_2(&mut b, parse_value_index, parse_string_index, malloc_index);
        Self::generate_parse_object_parse_pairs_instructions_3(&mut b, parse_value_index, parse_string_index, malloc_index);
        Self::generate_parse_object_parse_pairs_instructions_4(&mut b, parse_value_index, parse_string_index, malloc_index);
        Self::generate_parse_object_parse_pairs_instructions_5(&mut b, parse_value_index, parse_string_index, malloc_index);
        Self::generate_parse_object_parse_pairs_instructions_6(&mut b, parse_value_index, parse_string_index, malloc_index);
        Self::generate_parse_object_parse_pairs_instructions_7(&mut b, parse_value_index, parse_string_index, malloc_index);
        Self::generate_parse_object_parse_pairs_instructions_8(&mut b, parse_value_index, parse_string_index, malloc_index);
        Self::generate_parse_object_parse_pairs_instructions_9(&mut b, parse_value_index, parse_string_index, malloc_index);
        proof {
            reveal(JsonClass::parse_object_parse_pairs_instructions_body);
        }
        b.finish()
    }

    /// Part 1 of `parse_object_parse_pairs_instructions_body`, after `s`.
    #[verifier::opaque]
    pub open spec fn parse_object_parse_pairs_instructions_part_1(s: Seq<Instruction>, parse_value_index: u32, parse_string_index: u32, malloc_index: u32) -> Seq<Instruction> {
        s
            .push(Instruction::Block(BlockType::Empty))
            .push(Instruction::Loop(BlockType::Empty))
            .push(Instruction::LocalGet(7))
            .push(Instruction::LocalGet(5))
            .push(Instruction::I32GeU)
            .push(Instruction::BrIf(1))
            .push(Instruction::Block(BlockType::Empty))
            .push(Instruction::Loop(BlockType::Empty))
            .push(Instruction::LocalGet(3))
            .push(Instruction::LocalGet(2))
            .push(Instruction::I32GeU)
            .push(Instruction::BrIf(3))
            .push(Instruction::LocalGet(0))
            .push(Instruction::I32Const(4))
            .push(Instruction::I32Add)
            .push(Instruction::LocalGet(3))
            .push(Instruction::I32Add)
            .push(Instruction::I32Load8U(MemArg { offset: 0, align: 0, memory_index: 0 }))
            .push(Instruction::LocalSet(4))
            .push(Instruction::LocalGet(4))
            .push(Instruction::I32Const(32))
            .push(Instruction::I32Eq)
            .push(Instruction::LocalGet(4))
            .push(Instruction::I32Const(9))
            .push(Instruction::I32Eq)
            .push(Instruction::I32Or)
            .push(Instruction::LocalGet(4))
            .push(Instruction::I32Const(10))
            .push(Instruction::I32Eq)
            .push(Instruction::I32Or)
            .push(Instruction::LocalGet(4))
            .push(Instruction::I32Const(13))
            .push(Instruction::I32Eq)
            .push(Instruction::I32Or)
            .push(Instruction::I32Eqz)
            .push(Instruction::BrIf(1))
            .push(Instruction::LocalGet(3))
            .push(Instruction::I32Const(1))
            .push(Instruction::I32Add)
            .push(Instruction::LocalSet(3))
            .push(Instruction::Br(0))
            .push(Instruction::End)
            .push(Instruction::End)
            .push(Instruction::LocalGet(0))
            .push(Instruction::I32Const(4))
            .push(Instruction::I32Add)
            .push(Instruction::LocalGet(3))
            .push(Instruction::I32Add)
            .push(Instruction::I32Load8U(MemArg { offset: 0, align: 0, memory_index: 0 }))
            .push(Instruction::I32Const(44))
            .push(Instruction::I32Eq)
            .push(Instruction::If(BlockType::Empty))
            .push(Instruction::LocalGet(3))
            .push(Instruction::I32Const(1))
            .push(Instruction::I32Add)
            .push(Instruction::LocalSet(3))
            .push(Instruction::Block(BlockType::Empty))
            .push(Instruction::Loop(BlockType::Empty))
            .push(Instruction::LocalGet(3))
            .push(Instruction::LocalGet(2))
            .push(Instruction::I32GeU)
            .push(Instruction::BrIf(1))
            .push(Instruction::LocalGet(0))
            .push(Instruction::I32Const(4))
            .push(Instruction::I32Add)
            .push(Instruction::LocalGet(3))
            .push(Instruction::I32Add)
            .push(Instruction::I32Load8U(MemArg { offset: 0, align: 0, memory_index: 0 }))
            .push(Instruction::LocalSet(4))
            .push(Instruction::LocalGet(4))
            .push(Instruction::I32Const(32))
            .push(Instruction::I32Eq)
            .push(Instruction::LocalGet(4))
            .push(Instruction::I32Const(9))
            .push(Instruction::I32Eq)
            .push(Instruction::I32Or)
            .push(Instruction::LocalGet(4))
            .push(Instruction::I32Const(10))
            .push(Instruction::I32Eq)
            .push(Instruction::I32Or)
            .push(Instruction::LocalGet(4))
            .push(Instruction::I32Const(13))
            .push(Instruction::I32Eq)
            .push(Instruction::I32Or)
            .push(Instruction::I32Eqz)
            .push(Instruction::BrIf(1))
            .push(Instruction::LocalGet(3))
            .push(Instruction::I32Const(1))
            .push(Instruction::I32Add)
            .push(Instruction::LocalSet(3))
    }

    /// Part 1 of `generate_parse_object_parse_pairs_instructions`.
    #[verifier::rlimit(40)]
    #[verifier::spinoff_prover]
    fn generate_parse_object_parse_pairs_instructions_1(b: &mut Body, parse_value_index: u32, parse_string_index: u32, malloc_index: u32)
        requires
            old(b).wf(),
            old(b).open_blocks() == 0,
            old(b).n_locals() == 15,
        ensures
            final(b).wf(),
            final(b).open_blocks() == 5,
            final(b).n_locals() == 15,
            final(b).instrs() == Self::parse_object_parse_pairs_instructions_part_1(old(b).instrs(), parse_value_index, parse_string_index, malloc_index),
    {
        proof {
            reveal(JsonClass::parse_object_parse_pairs_instructions_part_1);
        }
        // Parse each key-value pair
        b.i(Instruction::Block(BlockType::Empty));
        b.i(Instruction::Loop(BlockType::Empty));
        // Check if we've parsed all pairs
        b.i(Instruction::LocalGet(7));
        b.i(Instruction::LocalGet(5));
        b.i(Instruction::I32GeU);
        b.i(Instruction::BrIf(1)); // Exit if i >= pair_count
        // Skip whitespace before key
        b.i(Instruction::Block(BlockType::Empty));
        b.i(Instruction::Loop(BlockType::Empty));
        b.i(Instruction::LocalGet(3));
        b.i(Instruction::LocalGet(2));
        b.i(Instruction::I32GeU);
        b.i(Instruction::BrIf(3)); // Exit to outer block
        b.i(Instruction::LocalGet(0));
        b.i(Instruction::I32Const(4));
        b.i(Instruction::I32Add);
        b.i(Instruction::LocalGet(3));
        b.i(Instruction::I32Add);
        b.i(Instruction::I32Load8U(MemArg { offset: 0, align: 0, memory_index: 0 }));
        b.i(Instruction::LocalSet(4));
        b.i(Instruction::LocalGet(4));
        b.i(Instruction::I32Const(32));
        b.i(Instruction::I32Eq);
        b.i(Instruction::LocalGet(4));
        b.i(Instruction::I32Const(9));
        b.i(Instruction::I32Eq);
        b.i(Instruction::I32Or);
        b.i(Instruction::LocalGet(4));
        b.i(Instruction::I32Const(10));
        b.i(Instruction::I32Eq);
        b.i(Instruction::I32Or);
        b.i(Instruction::LocalGet(4));
        b.i(Instruction::I32Const(13));
        b.i(Instruction::I32Eq);
        b.i(Instruction::I32Or);
        b.i(Instruction::I32Eqz);
        b.i(Instruction::BrIf(1));
        b.i(Instruction::LocalGet(3));
        b.i(Instruction::I32Const(1));
        b.i(Instruction::I32Add);
        b.i(Instruction::LocalSet(3));
        b.i(Instruction::Br(0));
        b.i(Instruction::End);
        b.i(Instruction::End);
        // NOTE: Skip comma separator between key-value pairs
        // After parsing a value, we might be at ',' before the next key
        // Check if current char is ',' and skip it
        b.i(Instruction::LocalGet(0));
        b.i(Instruction::I32Const(4));
        b.i(Instruction::I32Add);
        b.i(Instruction::LocalGet(3));
        b.i(Instruction::I32Add);
        b.i(Instruction::I32Load8U(MemArg { offset: 0, align: 0, memory_index: 0 }));
        b.i(Instruction::I32Const(44)); // ','
        b.i(Instruction::I32Eq);
        b.i(Instruction::If(BlockType::Empty));
        // Skip the comma
        b.i(Instruction::LocalGet(3));
        b.i(Instruction::I32Const(1));
        b.i(Instruction::I32Add);
        b.i(Instruction::LocalSet(3));
        // Skip whitespace after comma
        b.i(Instruction::Block(BlockType::Empty));
        b.i(Instruction::Loop(BlockType::Empty));
        b.i(Instruction::LocalGet(3));
        b.i(Instruction::LocalGet(2));
        b.i(Instruction::I32GeU);
        b.i(Instruction::BrIf(1));
        b.i(Instruction::LocalGet(0));
        b.i(Instruction::I32Const(4));
        b.i(Instruction::I32Add);
        b.i(Instruction::LocalGet(3));
        b.i(Instruction::I32Add);
        b.i(Instruction::I32Load8U(MemArg { offset: 0, align: 0, memory_index: 0 }));
        b.i(Instruction::LocalSet(4));
        b.i(Instruction::LocalGet(4));
        b.i(Instruction::I32Const(32)); // space
        b.i(Instruction::I32Eq);
        b.i(Instruction::LocalGet(4));
        b.i(Instruction::I32Const(9)); // tab
        b.i(Instruction::I32Eq);
        b.i(Instruction::I32Or);
        b.i(Instruction::LocalGet(4));
        b.i(Instruction::I32Const(10)); // newline
        b.i(Instruction::I32Eq);
        b.i(Instruction::I32Or);
        b.i(Instruction::LocalGet(4));
        b.i(Instruction::I32Const(13)); // return
        b.i(Instruction::I32Eq);
        b.i(Instruction::I32Or);
        b.i(Instruction::I32Eqz);
        b.i(Instruction::BrIf(1)); // Exit if not whitespace
        b.i(Instruction::LocalGet(3));
        b.i(Instruction::I32Const(1));
        b.i(Instruction::I32Add);
        b.i(Instruction::LocalSet(3));
    }

    /// Part 2 of `parse_object_parse_pairs_instructions_body`, after `s`.
    #[verifier::opaque]
    pub open spec fn parse_object_parse_pairs_instructions_part_2(s: Seq<Instruction>, parse_value_index: u32, parse_string_index: u32, malloc_index: u32) -> Seq<Instruction> {
        s
            .push(Instruction::Br(0))
            .push(Instruction::End)
            .push(Instruction::End)
            .push(Instruction::End)
            .push(Instruction::LocalGet(1))
            .push(Instruction::LocalGet(3))
            .push(Instruction::I32Store(MemArg { offset: 0, align: 2, memory_index: 0 }))
            .push(Instruction::LocalGet(0))
            .push(Instruction::LocalGet(1))
            .push(Instruction::LocalGet(2))
            .push(Instruction::Call(parse_string_index))
            .push(Instruction::LocalSet(10))
            .push(Instruction::LocalGet(1))
            .push(Instruction::I32Load(MemArg { offset: 0, align: 2, memory_index: 0 }))
            .push(Instruction::LocalSet(3))
            .push(Instruction::LocalGet(6))
            .push(Instruction::I32Const(4))
            .push(Instruction::I32Add)
            .push(Instruction::LocalGet(7))
            .push(Instruction::I32Const(8))
            .push(Instruction::I32Mul)
            .push(Instruction::I32Add)
            .push(Instruction::LocalGet(10))
            .push(Instruction::I32Store(MemArg { offset: 0, align: 2, memory_index: 0 }))
            .push(Instruction::Block(BlockType::Empty))
            .push(Instruction::Loop(BlockType::Empty))
            .push(Instruction::LocalGet(3))
            .push(Instruction::LocalGet(2))
            .push(Instruction::I32GeU)
            .push(Instruction::BrIf(3))
            .push(Instruction::LocalGet(0))
            .push(Instruction::I32Const(4))
            .push(Instruction::I32Add)
            .push(Instruction::LocalGet(3))
            .push(Instruction::I32Add)
            .push(Instruction::I32Load8U(MemArg { offset: 0, align: 0, memory_index: 0 }))
            .push(Instruction::LocalSet(4))
            .push(Instruction::LocalGet(4))
            .push(Instruction::I32Const(32))
            .push(Instruction::I32Eq)
            .push(Instruction::LocalGet(4))
            .push(Instruction::I32Const(9))
            .push(Instruction::I32Eq)
            .push(Instruction::I32Or)
            .push(Instruction::LocalGet(4))
            .push(Instruction::I32Const(10))
            .push(Instruction::I32Eq)
            .push(Instruction::I32Or)
            .push(Instruction::LocalGet(4))
            .push(Instruction::I32Const(13))
            .push(Instruction::I32Eq)
            .push(Instruction::I32Or)
            .push(Instruction::I32Eqz)
            .push(Instruction::BrIf(1))
            .push(Instruction::LocalGet(3))
            .push(Instruction::I32Const(1))
            .push(Instruction::I32Add)
            .push(Instruction::LocalSet(3))
            .push(Instruction::Br(0))
            .push(Instruction::End)
            .push(Instruction::End)
            .push(Instruction::LocalGet(3))
            .push(Instruction::I32Const(1))
            .push(Instruction::I32Add)
            .push(Instruction::LocalSet(3))
            .push(Instruction::Block(BlockType::Empty))
            .push(Instruction::Loop(BlockType::Empty))
            .push(Instruction::LocalGet(3))
            .push(Instruction::LocalGet(2))
            .push(Instruction::I32GeU)
            .push(Instruction::BrIf(3))
            .push(Instruction::LocalGet(0))
            .push(Instruction::I32Const(4))
            .push(Instruction::I32Add)
            .push(Instruction::LocalGet(3))
            .push(Instruction::I32Add)
            .push(Instruction::I32Load8U(MemArg { offset: 0, align: 0, memory_index: 0 }))
            .push(Instruction::LocalSet(4))
            .push(Instruction::LocalGet(4))
            .push(Instruction::I32Const(32))
            .push(Instruction::I32Eq)
            .push(Instruction::LocalGet(4))
            .push(Instruction::I32Const(9))
            .push(Instruction::I32Eq)
            .push(Instruction::I32Or)
            .push(Instruction::LocalGet(4))
            .push(Instruction::I32Const(10))
            .push(Instruction::I32Eq)
            .push(Instruction::I32Or)
            .push(Instruction::LocalGet(4))
    }

    /// Part 2 of `generate_parse_object_parse_pairs_instructions`.
    #[verifier::rlimit(40)]
    #[verifier::spinoff_prover]
    fn generate_parse_object_parse_pairs_instructions_2(b: &mut Body, parse_value_index: u32, parse_string_index: u32, malloc_index: u32)
        requires
            old(b).wf(),
            old(b).open_blocks() == 5,
            old(b).n_locals() == 15,
        ensures
            final(b).wf(),
            final(b).open_blocks() == 4,
            final(b).n_locals() == 15,
            final(b).instrs() == Self::parse_object_parse_pairs_instructions_part_2(old(b).instrs(), parse_value_index, parse_string_index, malloc_index),
    {
        proof {
            reveal(JsonClass::parse_object_parse_pairs_instructions_part_2);
        }
        b.i(Instruction::Br(0));
        b.i(Instruction::End);
        b.i(Instruction::End);
        b.i(Instruction::End); // End comma check
        // Parse key (must be string starting with '"')
        // Position is currently AT the opening '"'
        // Write position to position_ptr and call __json_parse_string
        b.i(Instruction::LocalGet(1));
        b.i(Instruction::LocalGet(3));
        b.i(Instruction::I32Store(MemArg { offset: 0, align: 2, memory_index: 0 }));
        // Call __json_parse_string(string_ptr, position_ptr, length) → key_ptr
        b.i(Instruction::LocalGet(0));
        b.i(Instruction::LocalGet(1));
        b.i(Instruction::LocalGet(2));
        b.i(Instruction::Call(parse_string_index));
        b.i(Instruction::LocalSet(10)); // key_ptr
        // Read updated position back
        b.i(Instruction::LocalGet(1));
        b.i(Instruction::I32Load(MemArg { offset: 0, align: 2, memory_index: 0 }));
        b.i(Instruction::LocalSet(3));
        // Store key pointer in object
        b.i(Instruction::LocalGet(6)); // object_ptr
        b.i(Instruction::I32Const(4));
        b.i(Instruction::I32Add);
        b.i(Instruction::LocalGet(7)); // i
        b.i(Instruction::I32Const(8));
        b.i(Instruction::I32Mul);
        b.i(Instruction::I32Add);
        b.i(Instruction::LocalGet(10)); // key_ptr
        b.i(Instruction::I32Store(MemArg { offset: 0, align: 2, memory_index: 0 }));
        // Skip whitespace before ':'
        b.i(Instruction::Block(BlockType::Empty));
        b.i(Instruction::Loop(BlockType::Empty));
        b.i(Instruction::LocalGet(3));
        b.i(Instruction::LocalGet(2));
        b.i(Instruction::I32GeU);
        b.i(Instruction::BrIf(3));
        b.i(Instruction::LocalGet(0));
        b.i(Instruction::I32Const(4));
        b.i(Instruction::I32Add);
        b.i(Instruction::LocalGet(3));
        b.i(Instruction::I32Add);
        b.i(Instruction::I32Load8U(MemArg { offset: 0, align: 0, memory_index: 0 }));
        b.i(Instruction::LocalSet(4));
        b.i(Instruction::LocalGet(4));
        b.i(Instruction::I32Const(32));
        b.i(Instruction::I32Eq);
        b.i(Instruction::LocalGet(4));
        b.i(Instruction::I32Const(9));
        b.i(Instruction::I32Eq);
        b.i(Instruction::I32Or);
        b.i(Instruction::LocalGet(4));
        b.i(Instruction::I32Const(10));
        b.i(Instruction::I32Eq);
        b.i(Instruction::I32Or);
        b.i(Instruction::LocalGet(4));
        b.i(Instruction::I32Const(13));
        b.i(Instruction::I32Eq);
        b.i(Instruction::I32Or);
        b.i(Instruction::I32Eqz);
        b.i(Instruction::BrIf(1));
        b.i(Instruction::LocalGet(3));
        b.i(Instruction::I32Const(1));
        b.i(Instruction::I32Add);
        b.i(Instruction::LocalSet(3));
        b.i(Instruction::Br(0));
        b.i(Instruction::End);
        b.i(Instruction::End);
        // Skip ':' character
        b.i(Instruction::LocalGet(3));
        b.i(Instruction::I32Const(1));
        b.i(Instruction::I32Add);
        b.i(Instruction::LocalSet(3));
        // Skip whitespace before value
        b.i(Instruction::Block(BlockType::Empty));
        b.i(Instruction::Loop(BlockType::Empty));
        b.i(Instruction::LocalGet(3));
        b.i(Instruction::LocalGet(2));
        b.i(Instruction::I32GeU);
        b.i(Instruction::BrIf(3));
        b.i(Instruction::LocalGet(0));
        b.i(Instruction::I32Const(4));
        b.i(Instruction::I32Add);
        b.i(Instruction::LocalGet(3));
        b.i(Instruction::I32Add);
        b.i(Instruction::I32Load8U(MemArg { offset: 0, align: 0, memory_index: 0 }));
        b.i(Instruction::LocalSet(4));
        b.i(Instruction::LocalGet(4));
        b.i(Instruction::I32Const(32));
        b.i(Instruction::I32Eq);
        b.i(Instruction::LocalGet(4));
        b.i(Instruction::I32Const(9));
        b.i(Instruction::I32Eq);
        b.i(Instruction::I32Or);
        b.i(Instruction::LocalGet(4));
        b.i(Instruction::I32Const(10));
        b.i(Instruction::I32Eq);
        b.i(Instruction::I32Or);
        b.i(Instruction::LocalGet(4));
    }

    /// Part 3 of `parse_object_parse_pairs_instructions_body`, after `s`.
    #[verifier::opaque]
    pub open spec fn parse_object_parse_pairs_instructions_part_3(s: Seq<Instruction>, parse_value_index: u32, parse_string_index: u32, malloc_index: u32) -> Seq<Instruction> {
        s
            .push(Instruction::I32Const(13))
            .push(Instruction::I32Eq)
            .push(Instruction::I32Or)
            .push(Instruction::I32Eqz)
            .push(Instruction::BrIf(1))
            .push(Instruction::LocalGet(3))
            .push(Instruction::I32Const(1))
            .push(Instruction::I32Add)
            .push(Instruction::LocalSet(3))
            .push(Instruction::Br(0))
            .push(Instruction::End)
            .push(Instruction::End)
            .push(Instruction::LocalGet(0))
            .push(Instruction::I32Const(4))
            .push(Instruction::I32Add)
            .push(Instruction::LocalGet(3))
            .push(Instruction::I32Add)
            .push(Instruction::I32Load8U(MemArg { offset: 0, align: 0, memory_index: 0 }))
            .push(Instruction::LocalSet(4))
            .push(Instruction::LocalGet(4))
            .push(Instruction::I32Const(48))
            .push(Instruction::I32GeU)
            .push(Instruction::LocalGet(4))
            .push(Instruction::I32Const(57))
            .push(Instruction::I32LeU)
            .push(Instruction::I32And)
            .push(Instruction::LocalGet(4))
            .push(Instruction::I32Const(45))
            .push(Instruction::I32Eq)
            .push(Instruction::I32Or)
            .push(Instruction::If(BlockType::Empty))
            .push(Instruction::LocalGet(3))
            .push(Instruction::LocalSet(8))
            .push(Instruction::Block(BlockType::Empty))
            .push(Instruction::Loop(BlockType::Empty))
            .push(Instruction::LocalGet(3))
            .push(Instruction::LocalGet(2))
            .push(Instruction::I32GeU)
            .push(Instruction::BrIf(3))
            .push(Instruction::LocalGet(0))
            .push(Instruction::I32Const(4))
            .push(Instruction::I32Add)
            .push(Instruction::LocalGet(3))
            .push(Instruction::I32Add)
            .push(Instruction::I32Load8U(MemArg { offset: 0, align: 0, memory_index: 0 }))
            .push(Instruction::LocalSet(4))
            .push(Instruction::LocalGet(4))
            .push(Instruction::I32Const(48))
            .push(Instruction::I32GeU)
            .push(Instruction::LocalGet(4))
            .push(Instruction::I32Const(57))
            .push(Instruction::I32LeU)
            .push(Instruction::I32And)
            .push(Instruction::LocalGet(4))
            .push(Instruction::I32Const(46))
            .push(Instruction::I32Eq)
            .push(Instruction::I32Or)
            .push(Instruction::LocalGet(4))
            .push(Instruction::I32Const(101))
            .push(Instruction::I32Eq)
            .push(Instruction::I32Or)
            .push(Instruction::LocalGet(4))
            .push(Instruction::I32Const(69))
            .push(Instruction::I32Eq)
            .push(Instruction::I32Or)
            .push(Instruction::LocalGet(4))
            .push(Instruction::I32Const(43))
            .push(Instruction::I32Eq)
            .push(Instruction::I32Or)
            .push(Instruction::LocalGet(4))
            .push(Instruction::I32Const(45))
            .push(Instruction::I32Eq)
            .push(Instruction::I32Or)
            .push(Instruction::I32Eqz)
            .push(Instruction::BrIf(1))
            .push(Instruction::LocalGet(3))
            .push(Instruction::I32Const(1))
            .push(Instruction::I32Add)
            .push(Instruction::LocalSet(3))
            .push(Instruction::Br(0))
            .push(Instruction::End)
            .push(Instruction::End)
            .push(Instruction::I32Const(12))
            .push(Instruction::Call(malloc_index))
            .push(Instruction::LocalSet(11))
            .push(Instruction::LocalGet(11))
            .push(Instruction::I32Const(3))
            .push(Instruction::I32Store(MemArg { offset: 0, align: 2, memory_index: 0 }))
            .push(Instruction::LocalGet(11))
            .push(Instruction::I32Const(4))
    }

    /// Part 3 of `generate_parse_object_parse_pairs_instructions`.
    #[verifier::rlimit(40)]
    #[verifier::spinoff_prover]
    fn generate_parse_object_parse_pairs_instructions_3(b: &mut Body, parse_value_index: u32, parse_string_index: u32, malloc_index: u32)
        requires
            old(b).wf(),
            old(b).open_blocks() == 4,
            old(b).n_locals() == 15,
        ensures
            final(b).wf(),
            final(b).open_blocks() == 3,
            final(b).n_locals() == 15,
            final(b).instrs() == Self::parse_object_parse_pairs_instructions_part_3(old(b).instrs(), parse_value_index, parse_string_index, malloc_index),
    {
        proof {
            reveal(JsonClass::parse_object_parse_pairs_instructions_part_3);
        }
        b.i(Instruction::I32Const(13));
        b.i(Instruction::I32Eq);
        b.i(Instruction::I32Or);
        b.i(Instruction::I32Eqz);
        b.i(Instruction::BrIf(1));
        b.i(Instruction::LocalGet(3));
        b.i(Instruction::I32Const(1));
        b.i(Instruction::I32Add);
        b.i(Instruction::LocalSet(3));
        b.i(Instruction::Br(0));
        b.i(Instruction::End);
        b.i(Instruction::End);
        // Parse value - check first character to determine type
        b.i(Instruction::LocalGet(0));
        b.i(Instruction::I32Const(4));
        b.i(Instruction::I32Add);
        b.i(Instruction::LocalGet(3));
        b.i(Instruction::I32Add);
        b.i(Instruction::I32Load8U(MemArg { offset: 0, align: 0, memory_index: 0 }));
        b.i(Instruction::LocalSet(4));
        // Check if value is a number (digit or '-')
        b.i(Instruction::LocalGet(4));
        b.i(Instruction::I32Const(48)); // '0'
        b.i(Instruction::I32GeU);
        b.i(Instruction::LocalGet(4));
        b.i(Instruction::I32Const(57)); // '9'
        b.i(Instruction::I32LeU);
        b.i(Instruction::I32And);
        b.i(Instruction::LocalGet(4));
        b.i(Instruction::I32Const(45)); // '-'
        b.i(Instruction::I32Eq);
        b.i(Instruction::I32Or);
        b.i(Instruction::If(BlockType::Empty));
        // Parse number value
        b.i(Instruction::LocalGet(3));
        b.i(Instruction::LocalSet(8)); // num_start = position
        // Find end of number
        b.i(Instruction::Block(BlockType::Empty));
        b.i(Instruction::Loop(BlockType::Empty));
        b.i(Instruction::LocalGet(3));
        b.i(Instruction::LocalGet(2));
        b.i(Instruction::I32GeU);
        b.i(Instruction::BrIf(3));
        b.i(Instruction::LocalGet(0));
        b.i(Instruction::I32Const(4));
        b.i(Instruction::I32Add);
        b.i(Instruction::LocalGet(3));
        b.i(Instruction::I32Add);
        b.i(Instruction::I32Load8U(MemArg { offset: 0, align: 0, memory_index: 0 }));
        b.i(Instruction::LocalSet(4));
        // Check if char is digit or '.' or 'e' or 'E' or '+' or '-'
        b.i(Instruction::LocalGet(4));
        b.i(Instruction::I32Const(48));
        b.i(Instruction::I32GeU);
        b.i(Instruction::LocalGet(4));
        b.i(Instruction::I32Const(57));
        b.i(Instruction::I32LeU);
        b.i(Instruction::I32And);
        b.i(Instruction::LocalGet(4));
        b.i(Instruction::I32Const(46)); // '.'
        b.i(Instruction::I32Eq);
        b.i(Instruction::I32Or);
        b.i(Instruction::LocalGet(4));
        b.i(Instruction::I32Const(101)); // 'e'
        b.i(Instruction::I32Eq);
        b.i(Instruction::I32Or);
        b.i(Instruction::LocalGet(4));
        b.i(Instruction::I32Const(69)); // 'E'
        b.i(Instruction::I32Eq);
        b.i(Instruction::I32Or);
        b.i(Instruction::LocalGet(4));
        b.i(Instruction::I32Const(43)); // '+'
        b.i(Instruction::I32Eq);
        b.i(Instruction::I32Or);
        b.i(Instruction::LocalGet(4));
        b.i(Instruction::I32Const(45)); // '-'
        b.i(Instruction::I32Eq);
        b.i(Instruction::I32Or);
        b.i(Instruction::I32Eqz);
        b.i(Instruction::BrIf(1));
        b.i(Instruction::LocalGet(3));
        b.i(Instruction::I32Const(1));
        b.i(Instruction::I32Add);
        b.i(Instruction::LocalSet(3));
        b.i(Instruction::Br(0));
        b.i(Instruction::End);
        b.i(Instruction::End);
        // IMPROVED NUMBER PARSER - Multi-digit integers and floats
        // Parse the complete numeric value from num_start to current position
        // Allocate 12 bytes: 4 (type tag = 3) + 8 (f64 value)
        b.i(Instruction::I32Const(12));
        b.i(Instruction::Call(malloc_index)); // __malloc
        b.i(Instruction::LocalSet(11)); // value_ptr
        // Store type tag = 3 (number)
        b.i(Instruction::LocalGet(11));
        b.i(Instruction::I32Const(3));
        b.i(Instruction::I32Store(MemArg { offset: 0, align: 2, memory_index: 0 }));
        // Initialize accumulator to 0.0 (address first, then value)
        b.i(Instruction::LocalGet(11));
        b.i(Instruction::I32Const(4));
    }

    /// Part 4 of `parse_object_parse_pairs_instructions_body`, after `s`.
    #[verifier::opaque]
    pub open spec fn parse_object_parse_pairs_instructions_part_4(s: Seq<Instruction>, parse_value_index: u32, parse_string_index: u32, malloc_index: u32) -> Seq<Instruction> {
        s
            .push(Instruction::I32Add)
            .push(Instruction::F64Const(0x0000000000000000u64))
            .push(Instruction::F64Store(MemArg { offset: 0, align: 3, memory_index: 0 }))
            .push(Instruction::LocalGet(8))
            .push(Instruction::LocalSet(9))
            .push(Instruction::I32Const(0))
            .push(Instruction::LocalSet(10))
            .push(Instruction::LocalGet(0))
            .push(Instruction::I32Const(4))
            .push(Instruction::I32Add)
            .push(Instruction::LocalGet(9))
            .push(Instruction::I32Add)
            .push(Instruction::I32Load8U(MemArg { offset: 0, align: 0, memory_index: 0 }))
            .push(Instruction::I32Const(45))
            .push(Instruction::I32Eq)
            .push(Instruction::If(BlockType::Empty))
            .push(Instruction::I32Const(1))
            .push(Instruction::LocalSet(10))
            .push(Instruction::LocalGet(9))
            .push(Instruction::I32Const(1))
            .push(Instruction::I32Add)
            .push(Instruction::LocalSet(9))
            .push(Instruction::End)
            .push(Instruction::Block(BlockType::Empty))
            .push(Instruction::Loop(BlockType::Empty))
            .push(Instruction::LocalGet(9))
            .push(Instruction::LocalGet(3))
            .push(Instruction::I32GeU)
            .push(Instruction::BrIf(1))
            .push(Instruction::LocalGet(0))
            .push(Instruction::I32Const(4))
            .push(Instruction::I32Add)
            .push(Instruction::LocalGet(9))
            .push(Instruction::I32Add)
            .push(Instruction::I32Load8U(MemArg { offset: 0, align: 0, memory_index: 0 }))
            .push(Instruction::LocalSet(4))
            .push(Instruction::LocalGet(4))
            .push(Instruction::I32Const(48))
            .push(Instruction::I32GeU)
            .push(Instruction::LocalGet(4))
            .push(Instruction::I32Const(57))
            .push(Instruction::I32LeU)
            .push(Instruction::I32And)
            .push(Instruction::I32Eqz)
            .push(Instruction::BrIf(1))
            .push(Instruction::LocalGet(11))
            .push(Instruction::I32Const(4))
            .push(Instruction::I32Add)
            .push(Instruction::F64Load(MemArg { offset: 0, align: 3, memory_index: 0 }))
            .push(Instruction::F64Const(0x4024000000000000u64))
            .push(Instruction::F64Mul)
            .push(Instruction::LocalGet(4))
            .push(Instruction::I32Const(48))
            .push(Instruction::I32Sub)
            .push(Instruction::F64ConvertI32S)
            .push(Instruction::F64Add)
            .push(Instruction::LocalSet(14))
            .push(Instruction::LocalGet(11))
            .push(Instruction::I32Const(4))
            .push(Instruction::I32Add)
            .push(Instruction::LocalGet(14))
            .push(Instruction::F64Store(MemArg { offset: 0, align: 3, memory_index: 0 }))
            .push(Instruction::LocalGet(9))
            .push(Instruction::I32Const(1))
            .push(Instruction::I32Add)
            .push(Instruction::LocalSet(9))
            .push(Instruction::Br(0))
            .push(Instruction::End)
            .push(Instruction::End)
            .push(Instruction::LocalGet(9))
            .push(Instruction::LocalGet(3))
            .push(Instruction::I32LtU)
            .push(Instruction::If(BlockType::Empty))
            .push(Instruction::LocalGet(0))
            .push(Instruction::I32Const(4))
            .push(Instruction::I32Add)
            .push(Instruction::LocalGet(9))
            .push(Instruction::I32Add)
            .push(Instruction::I32Load8U(MemArg { offset: 0, align: 0, memory_index: 0 }))
            .push(Instruction::LocalSet(4))
            .push(Instruction::LocalGet(4))
            .push(Instruction::I32Const(46))
            .push(Instruction::I32Eq)
            .push(Instruction::If(BlockType::Empty))
            .push(Instruction::LocalGet(9))
            .push(Instruction::I32Const(1))
            .push(Instruction::I32Add)
            .push(Instruction::LocalSet(9))
            .push(Instruction::F64Const(0x4024000000000000u64))
            .push(Instruction::LocalSet(13))
    }

    /// Part 4 of `generate_parse_object_parse_pairs_instructions`.
    #[verifier::rlimit(40)]
    #[verifier::spinoff_prover]
    fn generate_parse_object_parse_pairs_instructions_4(b: &mut Body, parse_value_index: u32, parse_string_index: u32, malloc_index: u32)
        requires
            old(b).wf(),
            old(b).open_blocks() == 3,
            old(b).n_locals() == 15,
        ensures
            final(b).wf(),
            final(b).open_blocks() == 5,
            final(b).n_locals() == 15,
            final(b).instrs() == Self::parse_object_parse_pairs_instructions_part_4(old(b).instrs(), parse_value_index, parse_string_index, malloc_index),
    {
        proof {
            reveal(JsonClass::parse_object_parse_pairs_instructions_part_4);
        }
        b.i(Instruction::I32Add);
        b.i(Instruction::F64Const(0x0000000000000000u64)); // 0.0
        b.i(Instruction::F64Store(MemArg { offset: 0, align: 3, memory_index: 0 }));
        // Initialize parsing state
        b.i(Instruction::LocalGet(8)); // num_start
        b.i(Instruction::LocalSet(9)); // parse_pos = num_start
        b.i(Instruction::I32Const(0));
        b.i(Instruction::LocalSet(10)); // is_negative = 0
        // Check for negative sign
        b.i(Instruction::LocalGet(0));
        b.i(Instruction::I32Const(4));
        b.i(Instruction::I32Add);
        b.i(Instruction::LocalGet(9));
        b.i(Instruction::I32Add);
        b.i(Instruction::I32Load8U(MemArg { offset: 0, align: 0, memory_index: 0 }));
        b.i(Instruction::I32Const(45)); // '-'
        b.i(Instruction::I32Eq);
        b.i(Instruction::If(BlockType::Empty));
        b.i(Instruction::I32Const(1));
        b.i(Instruction::LocalSet(10)); // is_negative = 1
        b.i(Instruction::LocalGet(9));
        b.i(Instruction::I32Const(1));
        b.i(Instruction::I32Add);
        b.i(Instruction::LocalSet(9)); // parse_pos++ (skip '-')
        b.i(Instruction::End);
        // Parse integer part - accumulate digits
        b.i(Instruction::Block(BlockType::Empty));
        b.i(Instruction::Loop(BlockType::Empty));
        // Check if parse_pos >= position (end of number)
        b.i(Instruction::LocalGet(9));
        b.i(Instruction::LocalGet(3));
        b.i(Instruction::I32GeU);
        b.i(Instruction::BrIf(1));
        // Get current character
        b.i(Instruction::LocalGet(0));
        b.i(Instruction::I32Const(4));
        b.i(Instruction::I32Add);
        b.i(Instruction::LocalGet(9));
        b.i(Instruction::I32Add);
        b.i(Instruction::I32Load8U(MemArg { offset: 0, align: 0, memory_index: 0 }));
        b.i(Instruction::LocalSet(4));
        // Check if it's a digit (48-57)
        b.i(Instruction::LocalGet(4));
        b.i(Instruction::I32Const(48)); // '0'
        b.i(Instruction::I32GeU);
        b.i(Instruction::LocalGet(4));
        b.i(Instruction::I32Const(57)); // '9'
        b.i(Instruction::I32LeU);
        b.i(Instruction::I32And);
        b.i(Instruction::I32Eqz);
        b.i(Instruction::BrIf(1)); // Exit if not a digit (decimal point or end)
        // Load current accumulator value
        b.i(Instruction::LocalGet(11));
        b.i(Instruction::I32Const(4));
        b.i(Instruction::I32Add);
        b.i(Instruction::F64Load(MemArg { offset: 0, align: 3, memory_index: 0 }));
        // Multiply by 10
        b.i(Instruction::F64Const(0x4024000000000000u64)); // 10.0
        b.i(Instruction::F64Mul);
        // Add current digit value (char - '0')
        b.i(Instruction::LocalGet(4));
        b.i(Instruction::I32Const(48));
        b.i(Instruction::I32Sub);
        b.i(Instruction::F64ConvertI32S);
        b.i(Instruction::F64Add);
        // Save to temp local 14 (F64)
        b.i(Instruction::LocalSet(14));
        // Store back (address first, then value)
        b.i(Instruction::LocalGet(11));
        b.i(Instruction::I32Const(4));
        b.i(Instruction::I32Add);
        b.i(Instruction::LocalGet(14));
        b.i(Instruction::F64Store(MemArg { offset: 0, align: 3, memory_index: 0 }));
        // Increment parse_pos
        b.i(Instruction::LocalGet(9));
        b.i(Instruction::I32Const(1));
        b.i(Instruction::I32Add);
        b.i(Instruction::LocalSet(9));
        b.i(Instruction::Br(0)); // Continue loop
        b.i(Instruction::End);
        b.i(Instruction::End);
        // Parse decimal point if present
        // Check if parse_pos < position and current char is '.'
        b.i(Instruction::LocalGet(9)); // parse_pos
        b.i(Instruction::LocalGet(3)); // position (end of number)
        b.i(Instruction::I32LtU);
        b.i(Instruction::If(BlockType::Empty));
        // Get current character
        b.i(Instruction::LocalGet(0));
        b.i(Instruction::I32Const(4));
        b.i(Instruction::I32Add);
        b.i(Instruction::LocalGet(9));
        b.i(Instruction::I32Add);
        b.i(Instruction::I32Load8U(MemArg { offset: 0, align: 0, memory_index: 0 }));
        b.i(Instruction::LocalSet(4));
        // Check if it's a decimal point '.' (46)
        b.i(Instruction::LocalGet(4));
        b.i(Instruction::I32Const(46)); // '.'
        b.i(Instruction::I32Eq);
        b.i(Instruction::If(BlockType::Empty));
        // Skip the decimal point
        b.i(Instruction::LocalGet(9));
        b.i(Instruction::I32Const(1));
        b.i(Instruction::I32Add);
        b.i(Instruction::LocalSet(9));
        // Initialize decimal divisor to 10.0 (use local 13, not 14 - 14 is for temp storage)
        b.i(Instruction::F64Const(0x4024000000000000u64)); // 10.0
        b.i(Instruction::LocalSet(13));
    }

    /// Part 5 of `parse_object_parse_pairs_instructions_body`, after `s`.
    #[verifier::opaque]
    pub open spec fn parse_object_parse_pairs_instructions_part_5(s: Seq<Instruction>, parse_value_index: u32, parse_string_index: u32, malloc_index: u32) -> Seq<Instruction> {
        s
            .push(Instruction::Block(BlockType::Empty))
            .push(Instruction::Loop(BlockType::Empty))
            .push(Instruction::LocalGet(9))
            .push(Instruction::LocalGet(3))
            .push(Instruction::I32GeU)
            .push(Instruction::BrIf(1))
            .push(Instruction::LocalGet(0))
            .push(Instruction::I32Const(4))
            .push(Instruction::I32Add)
            .push(Instruction::LocalGet(9))
            .push(Instruction::I32Add)
            .push(Instruction::I32Load8U(MemArg { offset: 0, align: 0, memory_index: 0 }))
            .push(Instruction::LocalSet(4))
            .push(Instruction::LocalGet(4))
            .push(Instruction::I32Const(48))
            .push(Instruction::I32GeU)
            .push(Instruction::LocalGet(4))
            .push(Instruction::I32Const(57))
            .push(Instruction::I32LeU)
            .push(Instruction::I32And)
            .push(Instruction::I32Eqz)
            .push(Instruction::BrIf(1))
            .push(Instruction::LocalGet(11))
            .push(Instruction::I32Const(4))
            .push(Instruction::I32Add)
            .push(Instruction::F64Load(MemArg { offset: 0, align: 3, memory_index: 0 }))
            .push(Instruction::LocalGet(4))
            .push(Instruction::I32Const(48))
            .push(Instruction::I32Sub)
            .push(Instruction::F64ConvertI32S)
            .push(Instruction::LocalGet(13))
            .push(Instruction::F64Div)
            .push(Instruction::F64Add)
            .push(Instruction::LocalSet(14))
            .push(Instruction::LocalGet(11))
            .push(Instruction::I32Const(4))
            .push(Instruction::I32Add)
            .push(Instruction::LocalGet(14))
            .push(Instruction::F64Store(MemArg { offset: 0, align: 3, memory_index: 0 }))
            .push(Instruction::LocalGet(13))
            .push(Instruction::F64Const(0x4024000000000000u64))
            .push(Instruction::F64Mul)
            .push(Instruction::LocalSet(13))
            .push(Instruction::LocalGet(9))
            .push(Instruction::I32Const(1))
            .push(Instruction::I32Add)
            .push(Instruction::LocalSet(9))
            .push(Instruction::Br(0))
            .push(Instruction::End)
            .push(Instruction::End)
            .push(Instruction::End)
            .push(Instruction::End)
            .push(Instruction::LocalGet(9))
            .push(Instruction::LocalGet(3))
            .push(Instruction::I32LtU)
            .push(Instruction::If(BlockType::Empty))
            .push(Instruction::LocalGet(0))
            .push(Instruction::I32Const(4))
            .push(Instruction::I32Add)
            .push(Instruction::LocalGet(9))
            .push(Instruction::I32Add)
            .push(Instruction::I32Load8U(MemArg { offset: 0, align: 0, memory_index: 0 }))
            .push(Instruction::LocalSet(4))
            .push(Instruction::LocalGet(4))
            .push(Instruction::I32Const(101))
            .push(Instruction::I32Eq)
            .push(Instruction::LocalGet(4))
            .push(Instruction::I32Const(69))
            .push(Instruction::I32Eq)
            .push(Instruction::I32Or)
            .push(Instruction::If(BlockType::Empty))
            .push(Instruction::LocalGet(9))
            .push(Instruction::I32Const(1))
            .push(Instruction::I32Add)
            .push(Instruction::LocalSet(9))
            .push(Instruction::I32Const(0))
            .push(Instruction::LocalSet(12))
            .push(Instruction::F64Const(0x0000000000000000u64))
            .push(Instruction::LocalSet(13))
            .push(Instruction::LocalGet(9))
            .push(Instruction::LocalGet(3))
            .push(Instruction::I32LtU)
            .push(Instruction::If(BlockType::Empty))
            .push(Instruction::LocalGet(0))
            .push(Instruction::I32Const(4))
            .push(Instruction::I32Add)
            .push(Instruction::LocalGet(9))
            .push(Instruction::I32Add)
            .push(Instruction::I32Load8U(MemArg { offset: 0, align: 0, memory_index: 0 }))
            .push(Instruction::LocalSet(4))
    }

    /// Part 5 of `generate_parse_object_parse_pairs_instructions`.
    #[verifier::rlimit(40)]
    #[verifier::spinoff_prover]
    fn generate_parse_object_parse_pairs_instructions_5(b: &mut Body, parse_value_index: u32, parse_string_index: u32, malloc_index: u32)
        requires
            old(b).wf(),
            old(b).open_blocks() == 5,
            old(b).n_locals() == 15,
        ensures
            final(b).wf(),
            final(b).open_blocks() == 6,
            final(b).n_locals() == 15,
            final(b).instrs() == Self::parse_object_parse_pairs_instructions_part_5(old(b).instrs(), parse_value_index, parse_string_index, malloc_index),
    {
        proof {
            reveal(JsonClass::parse_object_parse_pairs_instructions_part_5);
        }
        // Parse fractional digits
        b.i(Instruction::Block(BlockType::Empty));
        b.i(Instruction::Loop(BlockType::Empty));
        // Check if parse_pos >= position (end of number)
        b.i(Instruction::LocalGet(9));
        b.i(Instruction::LocalGet(3));
        b.i(Instruction::I32GeU);
        b.i(Instruction::BrIf(1)); // Exit if done
        // Get current character
        b.i(Instruction::LocalGet(0));
        b.i(Instruction::I32Const(4));
        b.i(Instruction::I32Add);
        b.i(Instruction::LocalGet(9));
        b.i(Instruction::I32Add);
        b.i(Instruction::I32Load8U(MemArg { offset: 0, align: 0, memory_index: 0 }));
        b.i(Instruction::LocalSet(4));
        // Check if it's a digit (48-57)
        b.i(Instruction::LocalGet(4));
        b.i(Instruction::I32Const(48)); // '0'
        b.i(Instruction::I32GeU);
        b.i(Instruction::LocalGet(4));
        b.i(Instruction::I32Const(57)); // '9'
        b.i(Instruction::I32LeU);
        b.i(Instruction::I32And);
        b.i(Instruction::I32Eqz);
        b.i(Instruction::BrIf(1)); // Exit if not a digit
        // Load current accumulator value
        b.i(Instruction::LocalGet(11));
        b.i(Instruction::I32Const(4));
        b.i(Instruction::I32Add);
        b.i(Instruction::F64Load(MemArg { offset: 0, align: 3, memory_index: 0 }));
        // Convert digit to value (char - '0')
        b.i(Instruction::LocalGet(4));
        b.i(Instruction::I32Const(48));
        b.i(Instruction::I32Sub);
        b.i(Instruction::F64ConvertI32S);
        // Divide by decimal_divisor (local 13)
        b.i(Instruction::LocalGet(13));
        b.i(Instruction::F64Div);
        // Add to accumulator
        b.i(Instruction::F64Add);
        // Save result to temp local 14 (F64)
        b.i(Instruction::LocalSet(14));
        // Store back (address first, then value)
        b.i(Instruction::LocalGet(11));
        b.i(Instruction::I32Const(4));
        b.i(Instruction::I32Add);
        b.i(Instruction::LocalGet(14));
        b.i(Instruction::F64Store(MemArg { offset: 0, align: 3, memory_index: 0 }));
        // Multiply divisor by 10 for next digit
        b.i(Instruction::LocalGet(13));
        b.i(Instruction::F64Const(0x4024000000000000u64)); // 10.0
        b.i(Instruction::F64Mul);
        b.i(Instruction::LocalSet(13));
        // Increment parse_pos
        b.i(Instruction::LocalGet(9));
        b.i(Instruction::I32Const(1));
        b.i(Instruction::I32Add);
        b.i(Instruction::LocalSet(9));
        b.i(Instruction::Br(0)); // Continue loop
        b.i(Instruction::End); // End fractional loop
        b.i(Instruction::End); // End fractional block
        b.i(Instruction::End); // End decimal point check
        b.i(Instruction::End); // End parse_pos < position check
        // Apply the exponent if present: 'e' or 'E', an optional sign and
        // digits; the value is scaled by ten to that power
        b.i(Instruction::LocalGet(9));
        b.i(Instruction::LocalGet(3));
        b.i(Instruction::I32LtU);
        b.i(Instruction::If(BlockType::Empty));
        b.i(Instruction::LocalGet(0));
        b.i(Instruction::I32Const(4));
        b.i(Instruction::I32Add);
        b.i(Instruction::LocalGet(9));
        b.i(Instruction::I32Add);
        b.i(Instruction::I32Load8U(MemArg { offset: 0, align: 0, memory_index: 0 }));
        b.i(Instruction::LocalSet(4));
        b.i(Instruction::LocalGet(4));
        b.i(Instruction::I32Const(101)); // 'e'
        b.i(Instruction::I32Eq);
        b.i(Instruction::LocalGet(4));
        b.i(Instruction::I32Const(69)); // 'E'
        b.i(Instruction::I32Eq);
        b.i(Instruction::I32Or);
        b.i(Instruction::If(BlockType::Empty));
        b.i(Instruction::LocalGet(9));
        b.i(Instruction::I32Const(1));
        b.i(Instruction::I32Add);
        b.i(Instruction::LocalSet(9));
        b.i(Instruction::I32Const(0));
        b.i(Instruction::LocalSet(12)); // exponent_negative = 0
        b.i(Instruction::F64Const(0x0000000000000000u64)); // 0.0
        b.i(Instruction::LocalSet(13)); // exponent = 0
        // Optional sign
        b.i(Instruction::LocalGet(9));
        b.i(Instruction::LocalGet(3));
        b.i(Instruction::I32LtU);
        b.i(Instruction::If(BlockType::Empty));
        b.i(Instruction::LocalGet(0));
        b.i(Instruction::I32Const(4));
        b.i(Instruction::I32Add);
        b.i(Instruction::LocalGet(9));
        b.i(Instruction::I32Add);
        b.i(Instruction::I32Load8U(MemArg { offset: 0, align: 0, memory_index: 0 }));
        b.i(Instruction::LocalSet(4));
    }

    /// Part 6 of `parse_object_parse_pairs_instructions_body`, after `s`.
    #[verifier::opaque]
    pub open spec fn parse_object_parse_pairs_instructions_part_6(s: Seq<Instruction>, parse_value_index: u32, parse_string_index: u32, malloc_index: u32) -> Seq<Instruction> {
        s
            .push(Instruction::LocalGet(4))
            .push(Instruction::I32Const(45))
            .push(Instruction::I32Eq)
            .push(Instruction::If(BlockType::Empty))
            .push(Instruction::I32Const(1))
            .push(Instruction::LocalSet(12))
            .push(Instruction::End)
            .push(Instruction::LocalGet(4))
            .push(Instruction::I32Const(45))
            .push(Instruction::I32Eq)
            .push(Instruction::LocalGet(4))
            .push(Instruction::I32Const(43))
            .push(Instruction::I32Eq)
            .push(Instruction::I32Or)
            .push(Instruction::If(BlockType::Empty))
            .push(Instruction::LocalGet(9))
            .push(Instruction::I32Const(1))
            .push(Instruction::I32Add)
            .push(Instruction::LocalSet(9))
            .push(Instruction::End)
            .push(Instruction::End)
            .push(Instruction::Block(BlockType::Empty))
            .push(Instruction::Loop(BlockType::Empty))
            .push(Instruction::LocalGet(9))
            .push(Instruction::LocalGet(3))
            .push(Instruction::I32GeU)
            .push(Instruction::BrIf(1))
            .push(Instruction::LocalGet(0))
            .push(Instruction::I32Const(4))
            .push(Instruction::I32Add)
            .push(Instruction::LocalGet(9))
            .push(Instruction::I32Add)
            .push(Instruction::I32Load8U(MemArg { offset: 0, align: 0, memory_index: 0 }))
            .push(Instruction::LocalSet(4))
            .push(Instruction::LocalGet(4))
            .push(Instruction::I32Const(48))
            .push(Instruction::I32GeU)
            .push(Instruction::LocalGet(4))
            .push(Instruction::I32Const(57))
            .push(Instruction::I32LeU)
            .push(Instruction::I32And)
            .push(Instruction::I32Eqz)
            .push(Instruction::BrIf(1))
            .push(Instruction::LocalGet(13))
            .push(Instruction::F64Const(0x4024000000000000u64))
            .push(Instruction::F64Mul)
            .push(Instruction::LocalGet(4))
            .push(Instruction::I32Const(48))
            .push(Instruction::I32Sub)
            .push(Instruction::F64ConvertI32S)
            .push(Instruction::F64Add)
            .push(Instruction::F64Const(0x4079000000000000u64))
            .push(Instruction::F64Min)
            .push(Instruction::LocalSet(13))
            .push(Instruction::LocalGet(9))
            .push(Instruction::I32Const(1))
            .push(Instruction::I32Add)
            .push(Instruction::LocalSet(9))
            .push(Instruction::Br(0))
            .push(Instruction::End)
            .push(Instruction::End)
            .push(Instruction::F64Const(0x3ff0000000000000u64))
            .push(Instruction::LocalSet(14))
            .push(Instruction::Block(BlockType::Empty))
            .push(Instruction::Loop(BlockType::Empty))
            .push(Instruction::LocalGet(13))
            .push(Instruction::F64Const(0x3fe0000000000000u64))
            .push(Instruction::F64Lt)
            .push(Instruction::BrIf(1))
            .push(Instruction::LocalGet(14))
            .push(Instruction::F64Const(0x4024000000000000u64))
            .push(Instruction::F64Mul)
            .push(Instruction::LocalSet(14))
            .push(Instruction::LocalGet(13))
            .push(Instruction::F64Const(0x3ff0000000000000u64))
            .push(Instruction::F64Sub)
            .push(Instruction::LocalSet(13))
            .push(Instruction::Br(0))
            .push(Instruction::End)
            .push(Instruction::End)
            .push(Instruction::LocalGet(11))
            .push(Instruction::I32Const(4))
            .push(Instruction::I32Add)
            .push(Instruction::LocalGet(12))
            .push(Instruction::If(BlockType::Result(ValType::F64)))
            .push(Instruction::LocalGet(11))
            .push(Instruction::I32Const(4))
            .push(Instruction::I32Add)
            .push(Instruction::F64Load(MemArg { offset: 0, align: 3, memory_index: 0 }))
            .push(Instruction::LocalGet(14))
    }

    /// Part 6 of `generate_parse_object_parse_pairs_instructions`.
    #[verifier::rlimit(40)]
    #[verifier::spinoff_prover]
    fn generate_parse_object_parse_pairs_instructions_6(b: &mut Body, parse_value_index: u32, parse_string_index: u32, malloc_index: u32)
        requires
            old(b).wf(),
            old(b).open_blocks() == 6,
            old(b).n_locals() == 15,
        ensures
            final(b).wf(),
            final(b).open_blocks() == 6,
            final(b).n_locals() == 15,
            final(b).instrs() == Self::parse_object_parse_pairs_instructions_part_6(old(b).instrs(), parse_value_index, parse_string_index, malloc_index),
    {
        proof {
            reveal(JsonClass::parse_object_parse_pairs_instructions_part_6);
        }
        b.i(Instruction::LocalGet(4));
        b.i(Instruction::I32Const(45)); // '-'
        b.i(Instruction::I32Eq);
        b.i(Instruction::If(BlockType::Empty));
        b.i(Instruction::I32Const(1));
        b.i(Instruction::LocalSet(12));
        b.i(Instruction::End);
        b.i(Instruction::LocalGet(4));
        b.i(Instruction::I32Const(45)); // '-'
        b.i(Instruction::I32Eq);
        b.i(Instruction::LocalGet(4));
        b.i(Instruction::I32Const(43)); // '+'
        b.i(Instruction::I32Eq);
        b.i(Instruction::I32Or);
        b.i(Instruction::If(BlockType::Empty));
        b.i(Instruction::LocalGet(9));
        b.i(Instruction::I32Const(1));
        b.i(Instruction::I32Add);
        b.i(Instruction::LocalSet(9));
        b.i(Instruction::End);
        b.i(Instruction::End);
        // Exponent digits (the exponent is capped at 400)
        b.i(Instruction::Block(BlockType::Empty));
        b.i(Instruction::Loop(BlockType::Empty));
        b.i(Instruction::LocalGet(9));
        b.i(Instruction::LocalGet(3));
        b.i(Instruction::I32GeU);
        b.i(Instruction::BrIf(1));
        b.i(Instruction::LocalGet(0));
        b.i(Instruction::I32Const(4));
        b.i(Instruction::I32Add);
        b.i(Instruction::LocalGet(9));
        b.i(Instruction::I32Add);
        b.i(Instruction::I32Load8U(MemArg { offset: 0, align: 0, memory_index: 0 }));
        b.i(Instruction::LocalSet(4));
        b.i(Instruction::LocalGet(4));
        b.i(Instruction::I32Const(48));
        b.i(Instruction::I32GeU);
        b.i(Instruction::LocalGet(4));
        b.i(Instruction::I32Const(57));
        b.i(Instruction::I32LeU);
        b.i(Instruction::I32And);
        b.i(Instruction::I32Eqz);
        b.i(Instruction::BrIf(1));
        b.i(Instruction::LocalGet(13));
        b.i(Instruction::F64Const(0x4024000000000000u64)); // 10.0
        b.i(Instruction::F64Mul);
        b.i(Instruction::LocalGet(4));
        b.i(Instruction::I32Const(48));
        b.i(Instruction::I32Sub);
        b.i(Instruction::F64ConvertI32S);
        b.i(Instruction::F64Add);
        b.i(Instruction::F64Const(0x4079000000000000u64)); // 400.0
        b.i(Instruction::F64Min);
        b.i(Instruction::LocalSet(13));
        b.i(Instruction::LocalGet(9));
        b.i(Instruction::I32Const(1));
        b.i(Instruction::I32Add);
        b.i(Instruction::LocalSet(9));
        b.i(Instruction::Br(0));
        b.i(Instruction::End);
        b.i(Instruction::End);
        // factor = 10 ^ exponent
        b.i(Instruction::F64Const(0x3ff0000000000000u64)); // 1.0
        b.i(Instruction::LocalSet(14));
        b.i(Instruction::Block(BlockType::Empty));
        b.i(Instruction::Loop(BlockType::Empty));
        b.i(Instruction::LocalGet(13));
        b.i(Instruction::F64Const(0x3fe0000000000000u64)); // 0.5
        b.i(Instruction::F64Lt);
        b.i(Instruction::BrIf(1));
        b.i(Instruction::LocalGet(14));
        b.i(Instruction::F64Const(0x4024000000000000u64)); // 10.0
        b.i(Instruction::F64Mul);
        b.i(Instruction::LocalSet(14));
        b.i(Instruction::LocalGet(13));
        b.i(Instruction::F64Const(0x3ff0000000000000u64)); // 1.0
        b.i(Instruction::F64Sub);
        b.i(Instruction::LocalSet(13));
        b.i(Instruction::Br(0));
        b.i(Instruction::End);
        b.i(Instruction::End);
        // value = value / factor for a negative exponent, value * factor otherwise
        b.i(Instruction::LocalGet(11));
        b.i(Instruction::I32Const(4));
        b.i(Instruction::I32Add);
        b.i(Instruction::LocalGet(12));
        b.i(Instruction::If(BlockType::Result(ValType::F64)));
        b.i(Instruction::LocalGet(11));
        b.i(Instruction::I32Const(4));
        b.i(Instruction::I32Add);
        b.i(Instruction::F64Load(MemArg { offset: 0, align: 3, memory_index: 0 }));
        b.i(Instruction::LocalGet(14));
    }

    /// Part 7 of `parse_object_parse_pairs_instructions_body`, after `s`.
    #[verifier::opaque]
    pub open spec fn parse_object_parse_pairs_instructions_part_7(s: Seq<Instruction>, parse_value_index: u32, parse_string_index: u32, malloc_index: u32) -> Seq<Instruction> {
        s
            .push(Instruction::F64Div)
            .push(Instruction::Else)
            .push(Instruction::LocalGet(11))
            .push(Instruction::I32Const(4))
            .push(Instruction::I32Add)
            .push(Instruction::F64Load(MemArg { offset: 0, align: 3, memory_index: 0 }))
            .push(Instruction::LocalGet(14))
            .push(Instruction::F64Mul)
            .push(Instruction::End)
            .push(Instruction::F64Store(MemArg { offset: 0, align: 3, memory_index: 0 }))
            .push(Instruction::End)
            .push(Instruction::End)
            .push(Instruction::LocalGet(10))
            .push(Instruction::If(BlockType::Empty))
            .push(Instruction::LocalGet(11))
            .push(Instruction::I32Const(4))
            .push(Instruction::I32Add)
            .push(Instruction::F64Load(MemArg { offset: 0, align: 3, memory_index: 0 }))
            .push(Instruction::F64Neg)
            .push(Instruction::LocalSet(14))
            .push(Instruction::LocalGet(11))
            .push(Instruction::I32Const(4))
            .push(Instruction::I32Add)
            .push(Instruction::LocalGet(14))
            .push(Instruction::F64Store(MemArg { offset: 0, align: 3, memory_index: 0 }))
            .push(Instruction::End)
            .push(Instruction::LocalGet(6))
            .push(Instruction::I32Const(4))
            .push(Instruction::I32Add)
            .push(Instruction::LocalGet(7))
            .push(Instruction::I32Const(8))
            .push(Instruction::I32Mul)
            .push(Instruction::I32Add)
            .push(Instruction::I32Const(4))
            .push(Instruction::I32Add)
            .push(Instruction::LocalGet(11))
            .push(Instruction::I32Store(MemArg { offset: 0, align: 2, memory_index: 0 }))
            .push(Instruction::Else)
            .push(Instruction::LocalGet(4))
            .push(Instruction::I32Const(34))
            .push(Instruction::I32Eq)
            .push(Instruction::If(BlockType::Empty))
            .push(Instruction::LocalGet(1))
            .push(Instruction::LocalGet(3))
            .push(Instruction::I32Store(MemArg { offset: 0, align: 2, memory_index: 0 }))
            .push(Instruction::LocalGet(0))
            .push(Instruction::LocalGet(1))
            .push(Instruction::LocalGet(2))
            .push(Instruction::Call(parse_string_index))
            .push(Instruction::LocalSet(11))
            .push(Instruction::LocalGet(1))
            .push(Instruction::I32Load(MemArg { offset: 0, align: 2, memory_index: 0 }))
            .push(Instruction::LocalSet(3))
            .push(Instruction::I32Const(12))
            .push(Instruction::Call(malloc_index))
            .push(Instruction::LocalSet(12))
            .push(Instruction::LocalGet(12))
            .push(Instruction::I32Const(4))
            .push(Instruction::I32Store(MemArg { offset: 0, align: 2, memory_index: 0 }))
            .push(Instruction::LocalGet(12))
            .push(Instruction::LocalGet(11))
            .push(Instruction::I32Store(MemArg { offset: 4, align: 2, memory_index: 0 }))
            .push(Instruction::LocalGet(12))
            .push(Instruction::I32Const(0))
            .push(Instruction::I32Store(MemArg { offset: 8, align: 2, memory_index: 0 }))
            .push(Instruction::LocalGet(6))
            .push(Instruction::I32Const(4))
            .push(Instruction::I32Add)
            .push(Instruction::LocalGet(7))
            .push(Instruction::I32Const(8))
            .push(Instruction::I32Mul)
            .push(Instruction::I32Add)
            .push(Instruction::I32Const(4))
            .push(Instruction::I32Add)
            .push(Instruction::LocalGet(12))
            .push(Instruction::I32Store(MemArg { offset: 0, align: 2, memory_index: 0 }))
            .push(Instruction::Else)
            .push(Instruction::LocalGet(4))
            .push(Instruction::I32Const(116))
            .push(Instruction::I32Eq)
            .push(Instruction::If(BlockType::Empty))
            .push(Instruction::LocalGet(6))
            .push(Instruction::I32Const(4))
            .push(Instruction::I32Add)
            .push(Instruction::LocalGet(7))
            .push(Instruction::I32Const(8))
            .push(Instruction::I32Mul)
            .push(Instruction::I32Add)
            .push(Instruction::I32Const(4))
            .push(Instruction::I32Add)
    }

    /// Part 7 of `generate_parse_object_parse_pairs_instructions`.
    #[verifier::rlimit(40)]
    #[verifier::spinoff_prover]
    fn generate_parse_object_parse_pairs_instructions_7(b: &mut Body, parse_value_index: u32, parse_string_index: u32, malloc_index: u32)
        requires
            old(b).wf(),
            old(b).open_blocks() == 6,
            old(b).n_locals() == 15,
        ensures
            final(b).wf(),
            final(b).open_blocks() == 5,
            final(b).n_locals() == 15,
            final(b).instrs() == Self::parse_object_parse_pairs_instructions_part_7(old(b).instrs(), parse_value_index, parse_string_index, malloc_index),
    {
        proof {
            reveal(JsonClass::parse_object_parse_pairs_instructions_part_7);
        }
        b.i(Instruction::F64Div);
        b.i(Instruction::Else);
        b.i(Instruction::LocalGet(11));
        b.i(Instruction::I32Const(4));
        b.i(Instruction::I32Add);
        b.i(Instruction::F64Load(MemArg { offset: 0, align: 3, memory_index: 0 }));
        b.i(Instruction::LocalGet(14));
        b.i(Instruction::F64Mul);
        b.i(Instruction::End);
        b.i(Instruction::F64Store(MemArg { offset: 0, align: 3, memory_index: 0 }));
        b.i(Instruction::End); // end exponent check
        b.i(Instruction::End); // end parse_pos < position check
        // Apply negative sign if needed
        b.i(Instruction::LocalGet(10)); // is_negative
        b.i(Instruction::If(BlockType::Empty));
        // Negate the value
        b.i(Instruction::LocalGet(11));
        b.i(Instruction::I32Const(4));
        b.i(Instruction::I32Add);
        b.i(Instruction::F64Load(MemArg { offset: 0, align: 3, memory_index: 0 }));
        b.i(Instruction::F64Neg);
        // Save negated value to temp local 14
        b.i(Instruction::LocalSet(14));
        // Store back (address first, then value)
        b.i(Instruction::LocalGet(11));
        b.i(Instruction::I32Const(4));
        b.i(Instruction::I32Add);
        b.i(Instruction::LocalGet(14));
        b.i(Instruction::F64Store(MemArg { offset: 0, align: 3, memory_index: 0 }));
        b.i(Instruction::End);
        // Store value pointer in object
        b.i(Instruction::LocalGet(6)); // object_ptr
        b.i(Instruction::I32Const(4));
        b.i(Instruction::I32Add);
        b.i(Instruction::LocalGet(7)); // i
        b.i(Instruction::I32Const(8));
        b.i(Instruction::I32Mul);
        b.i(Instruction::I32Add);
        b.i(Instruction::I32Const(4));
        b.i(Instruction::I32Add); // offset to value slot
        b.i(Instruction::LocalGet(11)); // value_ptr
        b.i(Instruction::I32Store(MemArg { offset: 0, align: 2, memory_index: 0 }));
        b.i(Instruction::Else);
        // Parse other value types: string, boolean, null, or nested structures
        // Check if value is a string (starts with '"')
        b.i(Instruction::LocalGet(4));
        b.i(Instruction::I32Const(34)); // '"'
        b.i(Instruction::I32Eq);
        b.i(Instruction::If(BlockType::Empty));
        // Position is AT the opening '"'. Write to position_ptr and call __json_parse_string.
        b.i(Instruction::LocalGet(1));
        b.i(Instruction::LocalGet(3));
        b.i(Instruction::I32Store(MemArg { offset: 0, align: 2, memory_index: 0 }));
        // Call __json_parse_string(string_ptr, position_ptr, length) → str_ptr
        b.i(Instruction::LocalGet(0));
        b.i(Instruction::LocalGet(1));
        b.i(Instruction::LocalGet(2));
        b.i(Instruction::Call(parse_string_index));
        b.i(Instruction::LocalSet(11)); // str_ptr
        // Read updated position back
        b.i(Instruction::LocalGet(1));
        b.i(Instruction::I32Load(MemArg { offset: 0, align: 2, memory_index: 0 }));
        b.i(Instruction::LocalSet(3));
        // Box the string: allocate 12 bytes for boxed structure: [tag=4][str_ptr][padding]
        b.i(Instruction::I32Const(12));
        b.i(Instruction::Call(malloc_index));
        b.i(Instruction::LocalSet(12)); // boxed_ptr in local 12 (temp)
        // Store type tag 4 (String) at offset 0
        b.i(Instruction::LocalGet(12));
        b.i(Instruction::I32Const(4)); // AnyTypeTag::String
        b.i(Instruction::I32Store(MemArg { offset: 0, align: 2, memory_index: 0 }));
        // Store string pointer at offset 4
        b.i(Instruction::LocalGet(12));
        b.i(Instruction::LocalGet(11)); // str_ptr
        b.i(Instruction::I32Store(MemArg { offset: 4, align: 2, memory_index: 0 }));
        // Store padding=0 at offset 8
        b.i(Instruction::LocalGet(12));
        b.i(Instruction::I32Const(0));
        b.i(Instruction::I32Store(MemArg { offset: 8, align: 2, memory_index: 0 }));
        // Store boxed pointer in object
        b.i(Instruction::LocalGet(6)); // object_ptr
        b.i(Instruction::I32Const(4));
        b.i(Instruction::I32Add);
        b.i(Instruction::LocalGet(7)); // i
        b.i(Instruction::I32Const(8));
        b.i(Instruction::I32Mul);
        b.i(Instruction::I32Add);
        b.i(Instruction::I32Const(4));
        b.i(Instruction::I32Add);
        b.i(Instruction::LocalGet(12)); // boxed_ptr
        b.i(Instruction::I32Store(MemArg { offset: 0, align: 2, memory_index: 0 }));
        b.i(Instruction::Else);
        // Check if value is 'true'
        b.i(Instruction::LocalGet(4));
        b.i(Instruction::I32Const(116)); // 't'
        b.i(Instruction::I32Eq);
        b.i(Instruction::If(BlockType::Empty));
        // Store true (encoded as 2)
        b.i(Instruction::LocalGet(6)); // object_ptr
        b.i(Instruction::I32Const(4));
        b.i(Instruction::I32Add);
        b.i(Instruction::LocalGet(7)); // i
        b.i(Instruction::I32Const(8));
        b.i(Instruction::I32Mul);
        b.i(Instruction::I32Add);
        b.i(Instruction::I32Const(4));
        b.i(Instruction::I32Add);
    }

    /// Part 8 of `parse_object_parse_pairs_instructions_body`, after `s`.
    #[verifier::opaque]
    pub open spec fn parse_object_parse_pairs_instructions_part_8(s: Seq<Instruction>, parse_value_index: u32, parse_string_index: u32, malloc_index: u32) -> Seq<Instruction> {
        s
            .push(Instruction::I32Const(2))
            .push(Instruction::I32Store(MemArg { offset: 0, align: 2, memory_index: 0 }))
            .push(Instruction::LocalGet(3))
            .push(Instruction::I32Const(4))
            .push(Instruction::I32Add)
            .push(Instruction::LocalSet(3))
            .push(Instruction::Else)
            .push(Instruction::LocalGet(4))
            .push(Instruction::I32Const(102))
            .push(Instruction::I32Eq)
            .push(Instruction::If(BlockType::Empty))
            .push(Instruction::LocalGet(6))
            .push(Instruction::I32Const(4))
            .push(Instruction::I32Add)
            .push(Instruction::LocalGet(7))
            .push(Instruction::I32Const(8))
            .push(Instruction::I32Mul)
            .push(Instruction::I32Add)
            .push(Instruction::I32Const(4))
            .push(Instruction::I32Add)
            .push(Instruction::I32Const(1))
            .push(Instruction::I32Store(MemArg { offset: 0, align: 2, memory_index: 0 }))
            .push(Instruction::LocalGet(3))
            .push(Instruction::I32Const(5))
            .push(Instruction::I32Add)
            .push(Instruction::LocalSet(3))
            .push(Instruction::Else)
            .push(Instruction::LocalGet(4))
            .push(Instruction::I32Const(110))
            .push(Instruction::I32Eq)
            .push(Instruction::If(BlockType::Empty))
            .push(Instruction::LocalGet(6))
            .push(Instruction::I32Const(4))
            .push(Instruction::I32Add)
            .push(Instruction::LocalGet(7))
            .push(Instruction::I32Const(8))
            .push(Instruction::I32Mul)
            .push(Instruction::I32Add)
            .push(Instruction::I32Const(4))
            .push(Instruction::I32Add)
            .push(Instruction::I32Const(0))
            .push(Instruction::I32Store(MemArg { offset: 0, align: 2, memory_index: 0 }))
            .push(Instruction::LocalGet(3))
            .push(Instruction::I32Const(4))
            .push(Instruction::I32Add)
            .push(Instruction::LocalSet(3))
            .push(Instruction::Else)
            .push(Instruction::LocalGet(1))
            .push(Instruction::LocalGet(3))
            .push(Instruction::I32Store(MemArg { offset: 0, align: 2, memory_index: 0 }))
            .push(Instruction::LocalGet(0))
            .push(Instruction::LocalGet(1))
            .push(Instruction::LocalGet(2))
            .push(Instruction::Call(parse_value_index))
            .push(Instruction::LocalSet(11))
            .push(Instruction::LocalGet(1))
            .push(Instruction::I32Load(MemArg { offset: 0, align: 2, memory_index: 0 }))
            .push(Instruction::LocalSet(3))
            .push(Instruction::LocalGet(6))
            .push(Instruction::I32Const(4))
            .push(Instruction::I32Add)
            .push(Instruction::LocalGet(7))
            .push(Instruction::I32Const(8))
            .push(Instruction::I32Mul)
            .push(Instruction::I32Add)
            .push(Instruction::I32Const(4))
            .push(Instruction::I32Add)
            .push(Instruction::LocalGet(11))
            .push(Instruction::I32Store(MemArg { offset: 0, align: 2, memory_index: 0 }))
            .push(Instruction::End)
            .push(Instruction::End)
            .push(Instruction::End)
            .push(Instruction::End)
            .push(Instruction::End)
            .push(Instruction::I32Const(0))
            .push(Instruction::LocalSet(10))
            .push(Instruction::Block(BlockType::Empty))
            .push(Instruction::Loop(BlockType::Empty))
            .push(Instruction::LocalGet(3))
            .push(Instruction::LocalGet(2))
            .push(Instruction::I32GeU)
            .push(Instruction::BrIf(3))
            .push(Instruction::LocalGet(0))
            .push(Instruction::I32Const(4))
            .push(Instruction::I32Add)
            .push(Instruction::LocalGet(3))
            .push(Instruction::I32Add)
            .push(Instruction::I32Load8U(MemArg { offset: 0, align: 0, memory_index: 0 }))
            .push(Instruction::LocalSet(4))
            .push(Instruction::LocalGet(3))
    }

    /// Part 8 of `generate_parse_object_parse_pairs_instructions`.
    #[verifier::rlimit(40)]
    #[verifier::spinoff_prover]
    fn generate_parse_object_parse_pairs_instructions_8(b: &mut Body, parse_value_index: u32, parse_string_index: u32, malloc_index: u32)
        requires
            old(b).wf(),
            old(b).open_blocks() == 5,
            old(b).n_locals() == 15,
        ensures
            final(b).wf(),
            final(b).open_blocks() == 4,
            final(b).n_locals() == 15,
            final(b).instrs() == Self::parse_object_parse_pairs_instructions_part_8(old(b).instrs(), parse_value_index, parse_string_index, malloc_index),
    {
        proof {
            reveal(JsonClass::parse_object_parse_pairs_instructions_part_8);
        }
        b.i(Instruction::I32Const(2)); // true = 2
        b.i(Instruction::I32Store(MemArg { offset: 0, align: 2, memory_index: 0 }));
        // Skip past "true" (4 characters)
        b.i(Instruction::LocalGet(3));
        b.i(Instruction::I32Const(4));
        b.i(Instruction::I32Add);
        b.i(Instruction::LocalSet(3));
        b.i(Instruction::Else);
        // Check if value is 'false'
        b.i(Instruction::LocalGet(4));
        b.i(Instruction::I32Const(102)); // 'f'
        b.i(Instruction::I32Eq);
        b.i(Instruction::If(BlockType::Empty));
        // Store false (encoded as 1)
        b.i(Instruction::LocalGet(6)); // object_ptr
        b.i(Instruction::I32Const(4));
        b.i(Instruction::I32Add);
        b.i(Instruction::LocalGet(7)); // i
        b.i(Instruction::I32Const(8));
        b.i(Instruction::I32Mul);
        b.i(Instruction::I32Add);
        b.i(Instruction::I32Const(4));
        b.i(Instruction::I32Add);
        b.i(Instruction::I32Const(1)); // false = 1
        b.i(Instruction::I32Store(MemArg { offset: 0, align: 2, memory_index: 0 }));
        // Skip past "false" (5 characters)
        b.i(Instruction::LocalGet(3));
        b.i(Instruction::I32Const(5));
        b.i(Instruction::I32Add);
        b.i(Instruction::LocalSet(3));
        b.i(Instruction::Else);
        // Check if value is 'null'
        b.i(Instruction::LocalGet(4));
        b.i(Instruction::I32Const(110)); // 'n'
        b.i(Instruction::I32Eq);
        b.i(Instruction::If(BlockType::Empty));
        // Store null (0)
        b.i(Instruction::LocalGet(6)); // object_ptr
        b.i(Instruction::I32Const(4));
        b.i(Instruction::I32Add);
        b.i(Instruction::LocalGet(7)); // i
        b.i(Instruction::I32Const(8));
        b.i(Instruction::I32Mul);
        b.i(Instruction::I32Add);
        b.i(Instruction::I32Const(4));
        b.i(Instruction::I32Add);
        b.i(Instruction::I32Const(0)); // null = 0
        b.i(Instruction::I32Store(MemArg { offset: 0, align: 2, memory_index: 0 }));
        // Skip past "null" (4 characters)
        b.i(Instruction::LocalGet(3));
        b.i(Instruction::I32Const(4));
        b.i(Instruction::I32Add);
        b.i(Instruction::LocalSet(3));
        b.i(Instruction::Else);
        // NESTED STRUCTURE SUPPORT
        // Check if value is '{' (nested object) or '[' (nested array)
        // Use recursive call to parse_value
        // Write current position to memory before recursive call
        b.i(Instruction::LocalGet(1)); // position_ptr
        b.i(Instruction::LocalGet(3)); // cached position
        b.i(Instruction::I32Store(MemArg { offset: 0, align: 2, memory_index: 0 }));
        // Recursive call to value parser
        b.i(Instruction::LocalGet(0)); // string_ptr
        b.i(Instruction::LocalGet(1)); // position_ptr
        b.i(Instruction::LocalGet(2)); // length
        b.i(Instruction::Call(parse_value_index));
        b.i(Instruction::LocalSet(11)); // value_ptr
        // Read updated position
        b.i(Instruction::LocalGet(1));
        b.i(Instruction::I32Load(MemArg { offset: 0, align: 2, memory_index: 0 }));
        b.i(Instruction::LocalSet(3)); // update position cache
        // Store nested value pointer in object
        b.i(Instruction::LocalGet(6)); // object_ptr
        b.i(Instruction::I32Const(4));
        b.i(Instruction::I32Add);
        b.i(Instruction::LocalGet(7)); // i
        b.i(Instruction::I32Const(8));
        b.i(Instruction::I32Mul);
        b.i(Instruction::I32Add);
        b.i(Instruction::I32Const(4));
        b.i(Instruction::I32Add);
        b.i(Instruction::LocalGet(11)); // value_ptr
        b.i(Instruction::I32Store(MemArg { offset: 0, align: 2, memory_index: 0 }));
        b.i(Instruction::End); // null check
        b.i(Instruction::End); // false check
        b.i(Instruction::End); // true check
        b.i(Instruction::End); // string check
        b.i(Instruction::End); // number check (outer else)
        // Skip past value to find ',' or '}'
        b.i(Instruction::I32Const(0));
        b.i(Instruction::LocalSet(10)); // depth = 0
        b.i(Instruction::Block(BlockType::Empty));
        b.i(Instruction::Loop(BlockType::Empty));
        b.i(Instruction::LocalGet(3));
        b.i(Instruction::LocalGet(2));
        b.i(Instruction::I32GeU);
        b.i(Instruction::BrIf(3));
        b.i(Instruction::LocalGet(0));
        b.i(Instruction::I32Const(4));
        b.i(Instruction::I32Add);
        b.i(Instruction::LocalGet(3));
        b.i(Instruction::I32Add);
        b.i(Instruction::I32Load8U(MemArg { offset: 0, align: 0, memory_index: 0 }));
        b.i(Instruction::LocalSet(4));
        b.i(Instruction::LocalGet(3));
    }

    /// Part 9 of `parse_object_parse_pairs_instructions_body`, after `s`.
    #[verifier::opaque]
    pub open spec fn parse_object_parse_pairs_instructions_part_9(s: Seq<Instruction>, parse_value_index: u32, parse_string_index: u32, malloc_index: u32) -> Seq<Instruction> {
        s
            .push(Instruction::I32Const(1))
            .push(Instruction::I32Add)
            .push(Instruction::LocalSet(3))
            .push(Instruction::LocalGet(4))
            .push(Instruction::I32Const(123))
            .push(Instruction::I32Eq)
            .push(Instruction::LocalGet(4))
            .push(Instruction::I32Const(91))
            .push(Instruction::I32Eq)
            .push(Instruction::I32Or)
            .push(Instruction::If(BlockType::Empty))
            .push(Instruction::LocalGet(10))
            .push(Instruction::I32Const(1))
            .push(Instruction::I32Add)
            .push(Instruction::LocalSet(10))
            .push(Instruction::End)
            .push(Instruction::LocalGet(4))
            .push(Instruction::I32Const(125))
            .push(Instruction::I32Eq)
            .push(Instruction::LocalGet(4))
            .push(Instruction::I32Const(93))
            .push(Instruction::I32Eq)
            .push(Instruction::I32Or)
            .push(Instruction::If(BlockType::Empty))
            .push(Instruction::LocalGet(10))
            .push(Instruction::I32Eqz)
            .push(Instruction::If(BlockType::Empty))
            .push(Instruction::LocalGet(4))
            .push(Instruction::I32Const(44))
            .push(Instruction::I32Eq)
            .push(Instruction::LocalGet(4))
            .push(Instruction::I32Const(125))
            .push(Instruction::I32Eq)
            .push(Instruction::I32Or)
            .push(Instruction::BrIf(3))
            .push(Instruction::Else)
            .push(Instruction::LocalGet(10))
            .push(Instruction::I32Const(1))
            .push(Instruction::I32Sub)
            .push(Instruction::LocalSet(10))
            .push(Instruction::End)
            .push(Instruction::End)
            .push(Instruction::LocalGet(10))
            .push(Instruction::I32Eqz)
            .push(Instruction::If(BlockType::Empty))
            .push(Instruction::LocalGet(4))
            .push(Instruction::I32Const(44))
            .push(Instruction::I32Eq)
            .push(Instruction::BrIf(2))
            .push(Instruction::End)
            .push(Instruction::Br(0))
            .push(Instruction::End)
            .push(Instruction::End)
            .push(Instruction::LocalGet(7))
            .push(Instruction::I32Const(1))
            .push(Instruction::I32Add)
            .push(Instruction::LocalSet(7))
            .push(Instruction::Br(0))
            .push(Instruction::End)
            .push(Instruction::End)
    }

    /// Part 9 of `generate_parse_object_parse_pairs_instructions`.
    #[verifier::rlimit(40)]
    #[verifier::spinoff_prover]
    fn generate_parse_object_parse_pairs_instructions_9(b: &mut Body, parse_value_index: u32, parse_string_index: u32, malloc_index: u32)
        requires
            old(b).wf(),
            old(b).open_blocks() == 4,
            old(b).n_locals() == 15,
        ensures
            final(b).wf(),
            final(b).open_blocks() == 0,
            final(b).n_locals() == 15,
            final(b).instrs() == Self::parse_object_parse_pairs_instructions_part_9(old(b).instrs(), parse_value_index, parse_string_index, malloc_index),
    {
        proof {
            reveal(JsonClass::parse_object_parse_pairs_instructions_part_9);
        }
        b.i(Instruction::I32Const(1));
        b.i(Instruction::I32Add);
        b.i(Instruction::LocalSet(3));
        // Track nesting depth
        b.i(Instruction::LocalGet(4));
        b.i(Instruction::I32Const(123));
        b.i(Instruction::I32Eq);
        b.i(Instruction::LocalGet(4));
        b.i(Instruction::I32Const(91));
        b.i(Instruction::I32Eq);
        b.i(Instruction::I32Or);
        b.i(Instruction::If(BlockType::Empty));
        b.i(Instruction::LocalGet(10));
        b.i(Instruction::I32Const(1));
        b.i(Instruction::I32Add);
        b.i(Instruction::LocalSet(10));
        b.i(Instruction::End);
        // NOTE: Check for '}' or ']' - handle depth correctly
        b.i(Instruction::LocalGet(4));
        b.i(Instruction::I32Const(125)); // '}'
        b.i(Instruction::I32Eq);
        b.i(Instruction::LocalGet(4));
        b.i(Instruction::I32Const(93)); // ']'
        b.i(Instruction::I32Eq);
        b.i(Instruction::I32Or);
        b.i(Instruction::If(BlockType::Empty));
        // Is this at depth 0? If so, exit for outer brace
        b.i(Instruction::LocalGet(10));
        b.i(Instruction::I32Eqz);
        b.i(Instruction::If(BlockType::Empty));
        // depth is 0, check for ',' or '}' to exit
        b.i(Instruction::LocalGet(4));
        b.i(Instruction::I32Const(44)); // ','
        b.i(Instruction::I32Eq);
        b.i(Instruction::LocalGet(4));
        b.i(Instruction::I32Const(125)); // '}'
        b.i(Instruction::I32Eq);
        b.i(Instruction::I32Or);
        b.i(Instruction::BrIf(3)); // Exit skip block (Br(3) from inside 2 Ifs + Loop = Block)
        b.i(Instruction::Else);
        // depth > 0, decrement for inner closing brace
        b.i(Instruction::LocalGet(10));
        b.i(Instruction::I32Const(1));
        b.i(Instruction::I32Sub);
        b.i(Instruction::LocalSet(10)); // depth--
        b.i(Instruction::End);
        b.i(Instruction::End);
        // At depth 0, check for ','
        b.i(Instruction::LocalGet(10));
        b.i(Instruction::I32Eqz);
        b.i(Instruction::If(BlockType::Empty));
        b.i(Instruction::LocalGet(4));
        b.i(Instruction::I32Const(44)); // ','
        b.i(Instruction::I32Eq);
        b.i(Instruction::BrIf(2)); // Exit skip loop for comma
        b.i(Instruction::End);
        b.i(Instruction::Br(0));
        b.i(Instruction::End);
        b.i(Instruction::End);
        // Increment loop counter
        b.i(Instruction::LocalGet(7));
        b.i(Instruction::I32Const(1));
        b.i(Instruction::I32Add);
        b.i(Instruction::LocalSet(7)); // i++
        b.i(Instruction::Br(0)); // Continue parse loop
        b.i(Instruction::End); // End parse loop
        b.i(Instruction::End); // End parse block
    }

    /// The instructions `generate_parse_object_finalize_instructions` returns.
    #[verifier::opaque]
    pub open spec fn parse_object_finalize_instructions_body() -> Seq<Instruction> {
        seq![
            Instruction::LocalGet(1),
            Instruction::LocalGet(3),
            Instruction::I32Store(MemArg { offset: 0, align: 2, memory_index: 0 }),
            Instruction::LocalGet(6),
        ]
    }

    /// the object pointer.
    ///
    /// Reads: Local 1 (position_ptr), Local 3 (cached position), Local 6 (object_ptr)
    fn generate_parse_object_finalize_instructions(&self) -> (r: Vec<Instruction>)
        ensures
            body_ok(r@, 7),
            r@ == Self::parse_object_finalize_instructions_body(),
    {
        proof {
            reveal(JsonClass::parse_object_finalize_instructions_body);
        }
        let mut b = Body::new(7);
        // Write final position back to memory
        b.i(Instruction::LocalGet(1)); // position_ptr
        b.i(Instruction::LocalGet(3)); // cached position
        b.i(Instruction::I32Store(MemArg { offset: 0, align: 2, memory_index: 0 }));
        // Return object pointer
        b.i(Instruction::LocalGet(6));
        b.finish()
    }

    /// The instructions `generate_parse_array_instructions` returns.
    #[verifier::opaque]
    pub open spec fn parse_array_instructions_body(parse_value_index: u32, skip_string_index: u32, parse_string_index: u32, malloc_index: u32) -> Seq<Instruction> {
        let s = Self::parse_array_instructions_part_1(Seq::<Instruction>::empty(), parse_value_index, skip_string_index, parse_string_index, malloc_index);
        let s = Self::parse_array_instructions_part_2(s, parse_value_index, skip_string_index, parse_string_index, malloc_index);
        let s = Self::parse_array_instructions_part_3(s, parse_value_index, skip_string_index, parse_string_index, malloc_index);
        let s = Self::parse_array_instructions_part_4(s, parse_value_index, skip_string_index, parse_string_index, malloc_index);
        let s = Self::parse_array_instructions_part_5(s, parse_value_index, skip_string_index, parse_string_index, malloc_index);
        let s = Self::parse_array_instructions_part_6(s, parse_value_index, skip_string_index, parse_string_index, malloc_index);
        let s = Self::parse_array_instructions_part_7(s, parse_value_index, skip_string_index, parse_string_index, malloc_index);
        let s = Self::parse_array_instructions_part_8(s, parse_value_index, skip_string_index, parse_string_index, malloc_index);
        Self::parse_array_instructions_part_9(s, parse_value_index, skip_string_index, parse_string_index, malloc_index)
    }

    /// Generate WASM instructions for __json_parse_array
    /// Parses JSON array: [value1,value2,value3,...]
    ///
    /// Parameters:
    /// - string_ptr (i32): Pointer to JSON string
    /// - position_ptr (i32): Memory location containing current position
    /// - length (i32): String length
    ///
    /// Returns:
    /// - i32: Pointer to array or 0 on error
    fn generate_parse_array_instructions(&self, parse_value_index: u32, skip_string_index: u32, parse_string_index: u32, malloc_index: u32) -> (r: Vec<Instruction>)
        ensures
            body_ok(r@, 15),
            r@ == Self::parse_array_instructions_body(parse_value_index, skip_string_index, parse_string_index, malloc_index),
    {
        let mut b = Body::new(15);
        Self::generate_parse_array_instructions_1(&mut b, parse_value_index, skip_string_index, parse_string_index, malloc_index);
        Self::generate_parse_array_instructions_2(&mut b, parse_value_index, skip_string_index, parse_string_index, malloc_index);
        Self::generate_parse_array_instructions_3(&mut b, parse_value_index, skip_string_index, parse_string_index, malloc_index);
        Self::generate_parse_array_instructions_4(&mut b, parse_value_index, skip_string_index, parse_string_index, malloc_index);
        Self::generate_parse_array_instructions_5(&mut b, parse_value_index, skip_string_index, parse_string_index, malloc_index);
        Self::generate_parse_array_instructions_6(&mut b, parse_value_index, skip_string_index, parse_string_index, malloc_index);
        Self::generate_parse_array_instructions_7(&mut b, parse_value_index, skip_string_index, parse_string_index, malloc_index);
        Self::generate_parse_array_instructions_8(&mut b, parse_value_index, skip_string_index, parse_string_index, malloc_index);
        Self::generate_parse_array_instructions_9(&mut b, parse_value_index, skip_string_index, parse_string_index, malloc_index);
        proof {
            reveal(JsonClass::parse_array_instructions_body);
        }
        b.finish()
    }

    /// Part 1 of `parse_array_instructions_body`, after `s`.
    #[verifier::opaque]
    pub open spec fn parse_array_instructions_part_1(s: Seq<Instruction>, parse_value_index: u32, skip_string_index: u32, parse_string_index: u32, malloc_index: u32) -> Seq<Instruction> {
        s
            .push(Instruction::LocalGet(1))
            .push(Instruction::I32Load(MemArg { offset: 0, align: 2, memory_index: 0 }))
            .push(Instruction::LocalSet(3))
            .push(Instruction::LocalGet(3))
            .push(Instruction::I32Const(1))
            .push(Instruction::I32Add)
            .push(Instruction::LocalSet(3))
            .push(Instruction::LocalGet(3))
            .push(Instruction::LocalSet(8))
            .push(Instruction::I32Const(0))
            .push(Instruction::LocalSet(5))
            .push(Instruction::Block(BlockType::Empty))
            .push(Instruction::Loop(BlockType::Empty))
            .push(Instruction::Block(BlockType::Empty))
            .push(Instruction::Loop(BlockType::Empty))
            .push(Instruction::LocalGet(3))
            .push(Instruction::LocalGet(2))
            .push(Instruction::I32GeU)
            .push(Instruction::BrIf(3))
            .push(Instruction::LocalGet(0))
            .push(Instruction::I32Const(4))
            .push(Instruction::I32Add)
            .push(Instruction::LocalGet(3))
            .push(Instruction::I32Add)
            .push(Instruction::I32Load8U(MemArg { offset: 0, align: 0, memory_index: 0 }))
            .push(Instruction::LocalSet(4))
            .push(Instruction::LocalGet(4))
            .push(Instruction::I32Const(32))
            .push(Instruction::I32Eq)
            .push(Instruction::LocalGet(4))
            .push(Instruction::I32Const(9))
            .push(Instruction::I32Eq)
            .push(Instruction::I32Or)
            .push(Instruction::LocalGet(4))
            .push(Instruction::I32Const(10))
            .push(Instruction::I32Eq)
            .push(Instruction::I32Or)
            .push(Instruction::LocalGet(4))
            .push(Instruction::I32Const(13))
            .push(Instruction::I32Eq)
            .push(Instruction::I32Or)
            .push(Instruction::I32Eqz)
            .push(Instruction::BrIf(1))
            .push(Instruction::LocalGet(3))
            .push(Instruction::I32Const(1))
            .push(Instruction::I32Add)
            .push(Instruction::LocalSet(3))
            .push(Instruction::Br(0))
            .push(Instruction::End)
            .push(Instruction::End)
            .push(Instruction::LocalGet(4))
            .push(Instruction::I32Const(93))
            .push(Instruction::I32Eq)
            .push(Instruction::BrIf(1))
            .push(Instruction::LocalGet(5))
            .push(Instruction::I32Const(1))
            .push(Instruction::I32Add)
            .push(Instruction::LocalSet(5))
            .push(Instruction::I32Const(0))
            .push(Instruction::LocalSet(10))
            .push(Instruction::Block(BlockType::Empty))
            .push(Instruction::Loop(BlockType::Empty))
            .push(Instruction::LocalGet(3))
            .push(Instruction::LocalGet(2))
            .push(Instruction::I32GeU)
            .push(Instruction::BrIf(3))
            .push(Instruction::LocalGet(0))
            .push(Instruction::I32Const(4))
            .push(Instruction::I32Add)
            .push(Instruction::LocalGet(3))
            .push(Instruction::I32Add)
            .push(Instruction::I32Load8U(MemArg { offset: 0, align: 0, memory_index: 0 }))
            .push(Instruction::LocalSet(4))
            .push(Instruction::LocalGet(3))
            .push(Instruction::I32Const(1))
            .push(Instruction::I32Add)
            .push(Instruction::LocalSet(3))
            .push(Instruction::LocalGet(4))
            .push(Instruction::I32Const(34))
            .push(Instruction::I32Eq)
            .push(Instruction::If(BlockType::Empty))
            .push(Instruction::LocalGet(1))
            .push(Instruction::LocalGet(3))
            .push(Instruction::I32Const(1))
            .push(Instruction::I32Sub)
            .push(Instruction::I32Store(MemArg { offset: 0, align: 2, memory_index: 0 }))
            .push(Instruction::LocalGet(0))
            .push(Instruction::LocalGet(1))
            .push(Instruction::LocalGet(2))
            .push(Instruction::Call(skip_string_index))
    }

    /// Part 1 of `generate_parse_array_instructions`.
    #[verifier::rlimit(40)]
    #[verifier::spinoff_prover]
    fn generate_parse_array_instructions_1(b: &mut Body, parse_value_index: u32, skip_string_index: u32, parse_string_index: u32, malloc_index: u32)
        requires
            old(b).wf(),
            old(b).open_blocks() == 0,
            old(b).n_locals() == 15,
        ensures
            final(b).wf(),
            final(b).open_blocks() == 5,
            final(b).n_locals() == 15,
            final(b).instrs() == Self::parse_array_instructions_part_1(old(b).instrs(), parse_value_index, skip_string_index, parse_string_index, malloc_index),
    {
        proof {
            reveal(JsonClass::parse_array_instructions_part_1);
        }
        // Local 0: string_ptr (parameter)
        // Local 1: position_ptr (parameter - memory location)
        // Local 2: length (parameter)
        // Local 3: position (cached from position_ptr)
        // Local 4: current_character
        // Local 5: element_count
        // Local 6: array_ptr (allocated memory)
        // Local 7: loop counter i
        // Local 8: start_position / num_start / str_start
        // Local 9: element_ptr / value / str_len / parse_pos
        // Local 10: depth tracker / is_negative
        // Local 11: value_ptr / str_ptr / temp
        // Local 12: temp
        // Local 13: decimal_divisor (F64)
        // Local 14: temp
        // Read position from memory into cache
        b.i(Instruction::LocalGet(1)); // position_ptr
        b.i(Instruction::I32Load(MemArg { offset: 0, align: 2, memory_index: 0 }));
        b.i(Instruction::LocalSet(3)); // position (cached)
        // ARRAY PARSER IMPLEMENTATION
        // Parse JSON array: [value1,value2,value3,...]
        // Strategy (similar to object parser):
        // 1. Count elements by scanning for commas
        // 2. Allocate memory: 4 bytes (count) + elements * 4 bytes (element pointer per element)
        // 3. Parse each element and store in memory
        // Memory layout: [i32 count][i32 elem0][i32 elem1][i32 elem2]...
        // Step 1: Skip opening '['
        b.i(Instruction::LocalGet(3)); // position
        b.i(Instruction::I32Const(1));
        b.i(Instruction::I32Add);
        b.i(Instruction::LocalSet(3)); // position++
        // Step 2: Count elements by scanning
        // Save current position
        b.i(Instruction::LocalGet(3));
        b.i(Instruction::LocalSet(8)); // start_position = position
        // Initialize element count to 0
        b.i(Instruction::I32Const(0));
        b.i(Instruction::LocalSet(5)); // elem_count = 0
        // Scan to count elements
        b.i(Instruction::Block(BlockType::Empty));
        b.i(Instruction::Loop(BlockType::Empty));
        // Skip whitespace
        b.i(Instruction::Block(BlockType::Empty));
        b.i(Instruction::Loop(BlockType::Empty));
        // Check if pos >= len
        b.i(Instruction::LocalGet(3));
        b.i(Instruction::LocalGet(2));
        b.i(Instruction::I32GeU);
        b.i(Instruction::BrIf(3)); // Exit to outer block
        // Get current char
        b.i(Instruction::LocalGet(0));
        b.i(Instruction::I32Const(4));
        b.i(Instruction::I32Add);
        b.i(Instruction::LocalGet(3));
        b.i(Instruction::I32Add);
        b.i(Instruction::I32Load8U(MemArg { offset: 0, align: 0, memory_index: 0 }));
        b.i(Instruction::LocalSet(4)); // char
        // Check if whitespace
        b.i(Instruction::LocalGet(4));
        b.i(Instruction::I32Const(32));
        b.i(Instruction::I32Eq);
        b.i(Instruction::LocalGet(4));
        b.i(Instruction::I32Const(9));
        b.i(Instruction::I32Eq);
        b.i(Instruction::I32Or);
        b.i(Instruction::LocalGet(4));
        b.i(Instruction::I32Const(10));
        b.i(Instruction::I32Eq);
        b.i(Instruction::I32Or);
        b.i(Instruction::LocalGet(4));
        b.i(Instruction::I32Const(13));
        b.i(Instruction::I32Eq);
        b.i(Instruction::I32Or);
        b.i(Instruction::I32Eqz);
        b.i(Instruction::BrIf(1)); // Exit whitespace loop
        // Increment position
        b.i(Instruction::LocalGet(3));
        b.i(Instruction::I32Const(1));
        b.i(Instruction::I32Add);
        b.i(Instruction::LocalSet(3));
        b.i(Instruction::Br(0)); // Continue whitespace loop
        b.i(Instruction::End); // End whitespace loop
        b.i(Instruction::End); // End whitespace block
        // Check for ']' (empty array or end of array)
        b.i(Instruction::LocalGet(4));
        b.i(Instruction::I32Const(93)); // ']'
        b.i(Instruction::I32Eq);
        b.i(Instruction::BrIf(1)); // Exit counting loop
        // We found an element - increment count
        b.i(Instruction::LocalGet(5));
        b.i(Instruction::I32Const(1));
        b.i(Instruction::I32Add);
        b.i(Instruction::LocalSet(5)); // elem_count++
        // Skip past this element to find next comma or ']'
        // Uses __json_skip_string when a '"' is seen (escape-aware)
        b.i(Instruction::I32Const(0));
        b.i(Instruction::LocalSet(10)); // depth = 0
        b.i(Instruction::Block(BlockType::Empty)); // skip_block  label=1
        b.i(Instruction::Loop(BlockType::Empty)); // skip_loop   label=0
        // Check bounds
        b.i(Instruction::LocalGet(3));
        b.i(Instruction::LocalGet(2));
        b.i(Instruction::I32GeU);
        b.i(Instruction::BrIf(3)); // Exit to outer counting block
        // Peek char, advance position
        b.i(Instruction::LocalGet(0));
        b.i(Instruction::I32Const(4));
        b.i(Instruction::I32Add);
        b.i(Instruction::LocalGet(3));
        b.i(Instruction::I32Add);
        b.i(Instruction::I32Load8U(MemArg { offset: 0, align: 0, memory_index: 0 }));
        b.i(Instruction::LocalSet(4));
        b.i(Instruction::LocalGet(3));
        b.i(Instruction::I32Const(1));
        b.i(Instruction::I32Add);
        b.i(Instruction::LocalSet(3));
        // '"': skip entire string via __json_skip_string
        b.i(Instruction::LocalGet(4));
        b.i(Instruction::I32Const(34)); // '"'
        b.i(Instruction::I32Eq);
        b.i(Instruction::If(BlockType::Empty));
        // write (position-1) to position_ptr so skip_string starts at opening '"'
        b.i(Instruction::LocalGet(1));
        b.i(Instruction::LocalGet(3));
        b.i(Instruction::I32Const(1));
        b.i(Instruction::I32Sub);
        b.i(Instruction::I32Store(MemArg { offset: 0, align: 2, memory_index: 0 }));
        b.i(Instruction::LocalGet(0));
        b.i(Instruction::LocalGet(1));
        b.i(Instruction::LocalGet(2));
        b.i(Instruction::Call(skip_string_index));
    }

    /// Part 2 of `parse_array_instructions_body`, after `s`.
    #[verifier::opaque]
    pub open spec fn parse_array_instructions_part_2(s: Seq<Instruction>, parse_value_index: u32, skip_string_index: u32, parse_string_index: u32, malloc_index: u32) -> Seq<Instruction> {
        s
            .push(Instruction::LocalGet(1))
            .push(Instruction::I32Load(MemArg { offset: 0, align: 2, memory_index: 0 }))
            .push(Instruction::LocalSet(3))
            .push(Instruction::Br(0))
            .push(Instruction::End)
            .push(Instruction::LocalGet(4))
            .push(Instruction::I32Const(123))
            .push(Instruction::I32Eq)
            .push(Instruction::LocalGet(4))
            .push(Instruction::I32Const(91))
            .push(Instruction::I32Eq)
            .push(Instruction::I32Or)
            .push(Instruction::If(BlockType::Empty))
            .push(Instruction::LocalGet(10))
            .push(Instruction::I32Const(1))
            .push(Instruction::I32Add)
            .push(Instruction::LocalSet(10))
            .push(Instruction::Br(1))
            .push(Instruction::End)
            .push(Instruction::LocalGet(4))
            .push(Instruction::I32Const(125))
            .push(Instruction::I32Eq)
            .push(Instruction::LocalGet(4))
            .push(Instruction::I32Const(93))
            .push(Instruction::I32Eq)
            .push(Instruction::I32Or)
            .push(Instruction::If(BlockType::Empty))
            .push(Instruction::LocalGet(10))
            .push(Instruction::I32Eqz)
            .push(Instruction::If(BlockType::Empty))
            .push(Instruction::Br(3))
            .push(Instruction::End)
            .push(Instruction::LocalGet(10))
            .push(Instruction::I32Const(1))
            .push(Instruction::I32Sub)
            .push(Instruction::LocalSet(10))
            .push(Instruction::Br(1))
            .push(Instruction::End)
            .push(Instruction::LocalGet(4))
            .push(Instruction::I32Const(44))
            .push(Instruction::I32Eq)
            .push(Instruction::LocalGet(10))
            .push(Instruction::I32Eqz)
            .push(Instruction::I32And)
            .push(Instruction::BrIf(1))
            .push(Instruction::Br(0))
            .push(Instruction::End)
            .push(Instruction::End)
            .push(Instruction::LocalGet(4))
            .push(Instruction::I32Const(93))
            .push(Instruction::I32Eq)
            .push(Instruction::BrIf(1))
            .push(Instruction::Br(0))
            .push(Instruction::End)
            .push(Instruction::End)
            .push(Instruction::I32Const(4))
            .push(Instruction::LocalGet(5))
            .push(Instruction::I32Const(4))
            .push(Instruction::I32Mul)
            .push(Instruction::I32Add)
            .push(Instruction::Call(malloc_index))
            .push(Instruction::LocalSet(6))
            .push(Instruction::LocalGet(6))
            .push(Instruction::LocalGet(5))
            .push(Instruction::I32Store(MemArg { offset: 0, align: 2, memory_index: 0 }))
            .push(Instruction::LocalGet(8))
            .push(Instruction::LocalSet(3))
            .push(Instruction::I32Const(0))
            .push(Instruction::LocalSet(7))
            .push(Instruction::Block(BlockType::Empty))
            .push(Instruction::Loop(BlockType::Empty))
            .push(Instruction::LocalGet(7))
            .push(Instruction::LocalGet(5))
            .push(Instruction::I32GeU)
            .push(Instruction::BrIf(1))
            .push(Instruction::Block(BlockType::Empty))
            .push(Instruction::Loop(BlockType::Empty))
            .push(Instruction::LocalGet(3))
            .push(Instruction::LocalGet(2))
            .push(Instruction::I32GeU)
            .push(Instruction::BrIf(3))
            .push(Instruction::LocalGet(0))
            .push(Instruction::I32Const(4))
            .push(Instruction::I32Add)
            .push(Instruction::LocalGet(3))
            .push(Instruction::I32Add)
            .push(Instruction::I32Load8U(MemArg { offset: 0, align: 0, memory_index: 0 }))
            .push(Instruction::LocalSet(4))
            .push(Instruction::LocalGet(4))
            .push(Instruction::I32Const(32))
    }

    /// Part 2 of `generate_parse_array_instructions`.
    #[verifier::rlimit(40)]
    #[verifier::spinoff_prover]
    fn generate_parse_array_instructions_2(b: &mut Body, parse_value_index: u32, skip_string_index: u32, parse_string_index: u32, malloc_index: u32)
        requires
            old(b).wf(),
            old(b).open_blocks() == 5,
            old(b).n_locals() == 15,
        ensures
            final(b).wf(),
            final(b).open_blocks() == 4,
            final(b).n_locals() == 15,
            final(b).instrs() == Self::parse_array_instructions_part_2(old(b).instrs(), parse_value_index, skip_string_index, parse_string_index, malloc_index),
    {
        proof {
            reveal(JsonClass::parse_array_instructions_part_2);
        }
        b.i(Instruction::LocalGet(1));
        b.i(Instruction::I32Load(MemArg { offset: 0, align: 2, memory_index: 0 }));
        b.i(Instruction::LocalSet(3));
        b.i(Instruction::Br(0)); // continue skip_loop
        b.i(Instruction::End);
        // '{' or '[': depth++
        b.i(Instruction::LocalGet(4));
        b.i(Instruction::I32Const(123)); // '{'
        b.i(Instruction::I32Eq);
        b.i(Instruction::LocalGet(4));
        b.i(Instruction::I32Const(91)); // '['
        b.i(Instruction::I32Eq);
        b.i(Instruction::I32Or);
        b.i(Instruction::If(BlockType::Empty));
        b.i(Instruction::LocalGet(10));
        b.i(Instruction::I32Const(1));
        b.i(Instruction::I32Add);
        b.i(Instruction::LocalSet(10)); // depth++
        b.i(Instruction::Br(1)); // continue skip_loop
        b.i(Instruction::End);
        // '}' or ']'
        b.i(Instruction::LocalGet(4));
        b.i(Instruction::I32Const(125)); // '}'
        b.i(Instruction::I32Eq);
        b.i(Instruction::LocalGet(4));
        b.i(Instruction::I32Const(93)); // ']'
        b.i(Instruction::I32Eq);
        b.i(Instruction::I32Or);
        b.i(Instruction::If(BlockType::Empty));
        // depth == 0: outer close → exit skip_block.
        // Br index: from inside two nested Ifs (outer brace If + inner depth==0 If)
        // the label stack is [innerIf, outerIf, skip_loop(Loop), skip_block(Block)].
        // Br(3) targets skip_block. Br(2) would restart skip_loop and cause the
        // counter to march past the array's `]` (STDLIB-JSON-INDEX-OBJECT-ARRAY-PAST-ZERO).
        b.i(Instruction::LocalGet(10));
        b.i(Instruction::I32Eqz);
        b.i(Instruction::If(BlockType::Empty));
        b.i(Instruction::Br(3)); // exit skip_block
        b.i(Instruction::End);
        // depth > 0: decrement
        b.i(Instruction::LocalGet(10));
        b.i(Instruction::I32Const(1));
        b.i(Instruction::I32Sub);
        b.i(Instruction::LocalSet(10));
        b.i(Instruction::Br(1)); // continue skip_loop
        b.i(Instruction::End);
        // ',' at depth 0: element separator → exit skip_block
        b.i(Instruction::LocalGet(4));
        b.i(Instruction::I32Const(44)); // ','
        b.i(Instruction::I32Eq);
        b.i(Instruction::LocalGet(10));
        b.i(Instruction::I32Eqz);
        b.i(Instruction::I32And);
        b.i(Instruction::BrIf(1)); // exit skip_block
        b.i(Instruction::Br(0)); // continue skip_loop
        b.i(Instruction::End); // end skip_loop
        b.i(Instruction::End); // end skip_block
        // Check if we hit ']' (end of array)
        b.i(Instruction::LocalGet(4));
        b.i(Instruction::I32Const(93)); // ']'
        b.i(Instruction::I32Eq);
        b.i(Instruction::BrIf(1)); // Exit counting loop
        b.i(Instruction::Br(0)); // Continue counting loop
        b.i(Instruction::End); // End counting loop
        b.i(Instruction::End); // End counting block
        // Step 3: Allocate memory for array
        // Size = 4 (count) + elem_count * 4 (element pointers)
        b.i(Instruction::I32Const(4));
        b.i(Instruction::LocalGet(5)); // elem_count
        b.i(Instruction::I32Const(4));
        b.i(Instruction::I32Mul);
        b.i(Instruction::I32Add);
        b.i(Instruction::Call(malloc_index)); // Call __malloc
        b.i(Instruction::LocalSet(6)); // array_ptr = malloc(...)
        // Store element count at offset 0
        b.i(Instruction::LocalGet(6));
        b.i(Instruction::LocalGet(5));
        b.i(Instruction::I32Store(MemArg { offset: 0, align: 2, memory_index: 0 }));
        // Step 4: Reset position to start and parse elements
        b.i(Instruction::LocalGet(8));
        b.i(Instruction::LocalSet(3)); // position = start_position
        // Initialize loop counter
        b.i(Instruction::I32Const(0));
        b.i(Instruction::LocalSet(7)); // i = 0
        // Parse each element
        b.i(Instruction::Block(BlockType::Empty));
        b.i(Instruction::Loop(BlockType::Empty));
        // Check if we've parsed all elements
        b.i(Instruction::LocalGet(7));
        b.i(Instruction::LocalGet(5));
        b.i(Instruction::I32GeU);
        b.i(Instruction::BrIf(1)); // Exit if i >= elem_count
        // Skip whitespace before element
        b.i(Instruction::Block(BlockType::Empty));
        b.i(Instruction::Loop(BlockType::Empty));
        b.i(Instruction::LocalGet(3));
        b.i(Instruction::LocalGet(2));
        b.i(Instruction::I32GeU);
        b.i(Instruction::BrIf(3)); // Exit to outer
        b.i(Instruction::LocalGet(0));
        b.i(Instruction::I32Const(4));
        b.i(Instruction::I32Add);
        b.i(Instruction::LocalGet(3));
        b.i(Instruction::I32Add);
        b.i(Instruction::I32Load8U(MemArg { offset: 0, align: 0, memory_index: 0 }));
        b.i(Instruction::LocalSet(4));
        b.i(Instruction::LocalGet(4));
        b.i(Instruction::I32Const(32));
    }

    /// Part 3 of `parse_array_instructions_body`, after `s`.
    #[verifier::opaque]
    pub open spec fn parse_array_instructions_part_3(s: Seq<Instruction>, parse_value_index: u32, skip_string_index: u32, parse_string_index: u32, malloc_index: u32) -> Seq<Instruction> {
        s
            .push(Instruction::I32Eq)
            .push(Instruction::LocalGet(4))
            .push(Instruction::I32Const(9))
            .push(Instruction::I32Eq)
            .push(Instruction::I32Or)
            .push(Instruction::LocalGet(4))
            .push(Instruction::I32Const(10))
            .push(Instruction::I32Eq)
            .push(Instruction::I32Or)
            .push(Instruction::LocalGet(4))
            .push(Instruction::I32Const(13))
            .push(Instruction::I32Eq)
            .push(Instruction::I32Or)
            .push(Instruction::I32Eqz)
            .push(Instruction::BrIf(1))
            .push(Instruction::LocalGet(3))
            .push(Instruction::I32Const(1))
            .push(Instruction::I32Add)
            .push(Instruction::LocalSet(3))
            .push(Instruction::Br(0))
            .push(Instruction::End)
            .push(Instruction::End)
            .push(Instruction::LocalGet(0))
            .push(Instruction::I32Const(4))
            .push(Instruction::I32Add)
            .push(Instruction::LocalGet(3))
            .push(Instruction::I32Add)
            .push(Instruction::I32Load8U(MemArg { offset: 0, align: 0, memory_index: 0 }))
            .push(Instruction::LocalSet(4))
            .push(Instruction::LocalGet(4))
            .push(Instruction::I32Const(48))
            .push(Instruction::I32GeU)
            .push(Instruction::LocalGet(4))
            .push(Instruction::I32Const(57))
            .push(Instruction::I32LeU)
            .push(Instruction::I32And)
            .push(Instruction::LocalGet(4))
            .push(Instruction::I32Const(45))
            .push(Instruction::I32Eq)
            .push(Instruction::I32Or)
            .push(Instruction::If(BlockType::Empty))
            .push(Instruction::LocalGet(3))
            .push(Instruction::LocalSet(8))
            .push(Instruction::Block(BlockType::Empty))
            .push(Instruction::Loop(BlockType::Empty))
            .push(Instruction::LocalGet(3))
            .push(Instruction::LocalGet(2))
            .push(Instruction::I32GeU)
            .push(Instruction::BrIf(3))
            .push(Instruction::LocalGet(0))
            .push(Instruction::I32Const(4))
            .push(Instruction::I32Add)
            .push(Instruction::LocalGet(3))
            .push(Instruction::I32Add)
            .push(Instruction::I32Load8U(MemArg { offset: 0, align: 0, memory_index: 0 }))
            .push(Instruction::LocalSet(4))
            .push(Instruction::LocalGet(4))
            .push(Instruction::I32Const(48))
            .push(Instruction::I32GeU)
            .push(Instruction::LocalGet(4))
            .push(Instruction::I32Const(57))
            .push(Instruction::I32LeU)
            .push(Instruction::I32And)
            .push(Instruction::LocalGet(4))
            .push(Instruction::I32Const(46))
            .push(Instruction::I32Eq)
            .push(Instruction::I32Or)
            .push(Instruction::LocalGet(4))
            .push(Instruction::I32Const(45))
            .push(Instruction::I32Eq)
            .push(Instruction::I32Or)
            .push(Instruction::I32Eqz)
            .push(Instruction::BrIf(1))
            .push(Instruction::LocalGet(3))
            .push(Instruction::I32Const(1))
            .push(Instruction::I32Add)
            .push(Instruction::LocalSet(3))
            .push(Instruction::Br(0))
            .push(Instruction::End)
            .push(Instruction::End)
            .push(Instruction::I32Const(12))
            .push(Instruction::Call(malloc_index))
            .push(Instruction::LocalSet(11))
            .push(Instruction::LocalGet(11))
            .push(Instruction::I32Const(3))
            .push(Instruction::I32Store(MemArg { offset: 0, align: 2, memory_index: 0 }))
            .push(Instruction::LocalGet(11))
            .push(Instruction::I32Const(4))
            .push(Instruction::I32Add)
            .push(Instruction::F64Const(0x0000000000000000u64))
    }

    /// Part 3 of `generate_parse_array_instructions`.
    #[verifier::rlimit(40)]
    #[verifier::spinoff_prover]
    fn generate_parse_array_instructions_3(b: &mut Body, parse_value_index: u32, skip_string_index: u32, parse_string_index: u32, malloc_index: u32)
        requires
            old(b).wf(),
            old(b).open_blocks() == 4,
            old(b).n_locals() == 15,
        ensures
            final(b).wf(),
            final(b).open_blocks() == 3,
            final(b).n_locals() == 15,
            final(b).instrs() == Self::parse_array_instructions_part_3(old(b).instrs(), parse_value_index, skip_string_index, parse_string_index, malloc_index),
    {
        proof {
            reveal(JsonClass::parse_array_instructions_part_3);
        }
        b.i(Instruction::I32Eq);
        b.i(Instruction::LocalGet(4));
        b.i(Instruction::I32Const(9));
        b.i(Instruction::I32Eq);
        b.i(Instruction::I32Or);
        b.i(Instruction::LocalGet(4));
        b.i(Instruction::I32Const(10));
        b.i(Instruction::I32Eq);
        b.i(Instruction::I32Or);
        b.i(Instruction::LocalGet(4));
        b.i(Instruction::I32Const(13));
        b.i(Instruction::I32Eq);
        b.i(Instruction::I32Or);
        b.i(Instruction::I32Eqz);
        b.i(Instruction::BrIf(1));
        b.i(Instruction::LocalGet(3));
        b.i(Instruction::I32Const(1));
        b.i(Instruction::I32Add);
        b.i(Instruction::LocalSet(3));
        b.i(Instruction::Br(0));
        b.i(Instruction::End);
        b.i(Instruction::End);
        // Parse element value - check first character to determine type
        b.i(Instruction::LocalGet(0));
        b.i(Instruction::I32Const(4));
        b.i(Instruction::I32Add);
        b.i(Instruction::LocalGet(3));
        b.i(Instruction::I32Add);
        b.i(Instruction::I32Load8U(MemArg { offset: 0, align: 0, memory_index: 0 }));
        b.i(Instruction::LocalSet(4));
        // Check if element is a number (digit or '-')
        b.i(Instruction::LocalGet(4));
        b.i(Instruction::I32Const(48)); // '0'
        b.i(Instruction::I32GeU);
        b.i(Instruction::LocalGet(4));
        b.i(Instruction::I32Const(57)); // '9'
        b.i(Instruction::I32LeU);
        b.i(Instruction::I32And);
        b.i(Instruction::LocalGet(4));
        b.i(Instruction::I32Const(45)); // '-'
        b.i(Instruction::I32Eq);
        b.i(Instruction::I32Or);
        b.i(Instruction::If(BlockType::Empty));
        // Parse number (reuse number parsing logic from object parser)
        b.i(Instruction::LocalGet(3));
        b.i(Instruction::LocalSet(8)); // num_start = position
        // Find end of number
        b.i(Instruction::Block(BlockType::Empty));
        b.i(Instruction::Loop(BlockType::Empty));
        b.i(Instruction::LocalGet(3));
        b.i(Instruction::LocalGet(2));
        b.i(Instruction::I32GeU);
        b.i(Instruction::BrIf(3));
        b.i(Instruction::LocalGet(0));
        b.i(Instruction::I32Const(4));
        b.i(Instruction::I32Add);
        b.i(Instruction::LocalGet(3));
        b.i(Instruction::I32Add);
        b.i(Instruction::I32Load8U(MemArg { offset: 0, align: 0, memory_index: 0 }));
        b.i(Instruction::LocalSet(4));
        // Check if char is part of number
        b.i(Instruction::LocalGet(4));
        b.i(Instruction::I32Const(48));
        b.i(Instruction::I32GeU);
        b.i(Instruction::LocalGet(4));
        b.i(Instruction::I32Const(57));
        b.i(Instruction::I32LeU);
        b.i(Instruction::I32And);
        b.i(Instruction::LocalGet(4));
        b.i(Instruction::I32Const(46)); // '.'
        b.i(Instruction::I32Eq);
        b.i(Instruction::I32Or);
        b.i(Instruction::LocalGet(4));
        b.i(Instruction::I32Const(45)); // '-'
        b.i(Instruction::I32Eq);
        b.i(Instruction::I32Or);
        b.i(Instruction::I32Eqz);
        b.i(Instruction::BrIf(1));
        b.i(Instruction::LocalGet(3));
        b.i(Instruction::I32Const(1));
        b.i(Instruction::I32Add);
        b.i(Instruction::LocalSet(3));
        b.i(Instruction::Br(0));
        b.i(Instruction::End);
        b.i(Instruction::End);
        // Allocate and parse number (same as object parser)
        b.i(Instruction::I32Const(12));
        b.i(Instruction::Call(malloc_index)); // __malloc
        b.i(Instruction::LocalSet(11)); // value_ptr
        // Store type tag = 3
        b.i(Instruction::LocalGet(11));
        b.i(Instruction::I32Const(3));
        b.i(Instruction::I32Store(MemArg { offset: 0, align: 2, memory_index: 0 }));
        // Initialize accumulator (address first, then value)
        b.i(Instruction::LocalGet(11));
        b.i(Instruction::I32Const(4));
        b.i(Instruction::I32Add);
        b.i(Instruction::F64Const(0x0000000000000000u64)); // 0.0
    }

    /// Part 4 of `parse_array_instructions_body`, after `s`.
    #[verifier::opaque]
    pub open spec fn parse_array_instructions_part_4(s: Seq<Instruction>, parse_value_index: u32, skip_string_index: u32, parse_string_index: u32, malloc_index: u32) -> Seq<Instruction> {
        s
            .push(Instruction::F64Store(MemArg { offset: 0, align: 3, memory_index: 0 }))
            .push(Instruction::LocalGet(8))
            .push(Instruction::LocalSet(9))
            .push(Instruction::I32Const(0))
            .push(Instruction::LocalSet(10))
            .push(Instruction::LocalGet(0))
            .push(Instruction::I32Const(4))
            .push(Instruction::I32Add)
            .push(Instruction::LocalGet(9))
            .push(Instruction::I32Add)
            .push(Instruction::I32Load8U(MemArg { offset: 0, align: 0, memory_index: 0 }))
            .push(Instruction::I32Const(45))
            .push(Instruction::I32Eq)
            .push(Instruction::If(BlockType::Empty))
            .push(Instruction::I32Const(1))
            .push(Instruction::LocalSet(10))
            .push(Instruction::LocalGet(9))
            .push(Instruction::I32Const(1))
            .push(Instruction::I32Add)
            .push(Instruction::LocalSet(9))
            .push(Instruction::End)
            .push(Instruction::Block(BlockType::Empty))
            .push(Instruction::Loop(BlockType::Empty))
            .push(Instruction::LocalGet(9))
            .push(Instruction::LocalGet(3))
            .push(Instruction::I32GeU)
            .push(Instruction::BrIf(1))
            .push(Instruction::LocalGet(0))
            .push(Instruction::I32Const(4))
            .push(Instruction::I32Add)
            .push(Instruction::LocalGet(9))
            .push(Instruction::I32Add)
            .push(Instruction::I32Load8U(MemArg { offset: 0, align: 0, memory_index: 0 }))
            .push(Instruction::LocalSet(4))
            .push(Instruction::LocalGet(4))
            .push(Instruction::I32Const(48))
            .push(Instruction::I32GeU)
            .push(Instruction::LocalGet(4))
            .push(Instruction::I32Const(57))
            .push(Instruction::I32LeU)
            .push(Instruction::I32And)
            .push(Instruction::I32Eqz)
            .push(Instruction::BrIf(1))
            .push(Instruction::LocalGet(11))
            .push(Instruction::I32Const(4))
            .push(Instruction::I32Add)
            .push(Instruction::F64Load(MemArg { offset: 0, align: 3, memory_index: 0 }))
            .push(Instruction::F64Const(0x4024000000000000u64))
            .push(Instruction::F64Mul)
            .push(Instruction::LocalGet(4))
            .push(Instruction::I32Const(48))
            .push(Instruction::I32Sub)
            .push(Instruction::F64ConvertI32S)
            .push(Instruction::F64Add)
            .push(Instruction::LocalSet(14))
            .push(Instruction::LocalGet(11))
            .push(Instruction::I32Const(4))
            .push(Instruction::I32Add)
            .push(Instruction::LocalGet(14))
            .push(Instruction::F64Store(MemArg { offset: 0, align: 3, memory_index: 0 }))
            .push(Instruction::LocalGet(9))
            .push(Instruction::I32Const(1))
            .push(Instruction::I32Add)
            .push(Instruction::LocalSet(9))
            .push(Instruction::Br(0))
            .push(Instruction::End)
            .push(Instruction::End)
            .push(Instruction::LocalGet(9))
            .push(Instruction::LocalGet(3))
            .push(Instruction::I32LtU)
            .push(Instruction::If(BlockType::Empty))
            .push(Instruction::LocalGet(0))
            .push(Instruction::I32Const(4))
            .push(Instruction::I32Add)
            .push(Instruction::LocalGet(9))
            .push(Instruction::I32Add)
            .push(Instruction::I32Load8U(MemArg { offset: 0, align: 0, memory_index: 0 }))
            .push(Instruction::LocalSet(4))
            .push(Instruction::LocalGet(4))
            .push(Instruction::I32Const(46))
            .push(Instruction::I32Eq)
            .push(Instruction::If(BlockType::Empty))
            .push(Instruction::LocalGet(9))
            .push(Instruction::I32Const(1))
            .push(Instruction::I32Add)
            .push(Instruction::LocalSet(9))
            .push(Instruction::F64Const(0x4024000000000000u64))
            .push(Instruction::LocalSet(13))
            .push(Instruction::Block(BlockType::Empty))
            .push(Instruction::Loop(BlockType::Empty))
    }

    /// Part 4 of `generate_parse_array_instructions`.
    #[verifier::rlimit(40)]
    #[verifier::spinoff_prover]
    fn generate_parse_array_instructions_4(b: &mut Body, parse_value_index: u32, skip_string_index: u32, parse_string_index: u32, malloc_index: u32)
        requires
            old(b).wf(),
            old(b).open_blocks() == 3,
            old(b).n_locals() == 15,
        ensures
            final(b).wf(),
            final(b).open_blocks() == 7,
            final(b).n_locals() == 15,
            final(b).instrs() == Self::parse_array_instructions_part_4(old(b).instrs(), parse_value_index, skip_string_index, parse_string_index, malloc_index),
    {
        proof {
            reveal(JsonClass::parse_array_instructions_part_4);
        }
        b.i(Instruction::F64Store(MemArg { offset: 0, align: 3, memory_index: 0 }));
        // Parse number value
        b.i(Instruction::LocalGet(8)); // num_start
        b.i(Instruction::LocalSet(9)); // parse_pos
        b.i(Instruction::I32Const(0));
        b.i(Instruction::LocalSet(10)); // is_negative
        // Check for negative sign
        b.i(Instruction::LocalGet(0));
        b.i(Instruction::I32Const(4));
        b.i(Instruction::I32Add);
        b.i(Instruction::LocalGet(9));
        b.i(Instruction::I32Add);
        b.i(Instruction::I32Load8U(MemArg { offset: 0, align: 0, memory_index: 0 }));
        b.i(Instruction::I32Const(45)); // '-'
        b.i(Instruction::I32Eq);
        b.i(Instruction::If(BlockType::Empty));
        b.i(Instruction::I32Const(1));
        b.i(Instruction::LocalSet(10));
        b.i(Instruction::LocalGet(9));
        b.i(Instruction::I32Const(1));
        b.i(Instruction::I32Add);
        b.i(Instruction::LocalSet(9));
        b.i(Instruction::End);
        // Parse digits
        b.i(Instruction::Block(BlockType::Empty));
        b.i(Instruction::Loop(BlockType::Empty));
        b.i(Instruction::LocalGet(9));
        b.i(Instruction::LocalGet(3));
        b.i(Instruction::I32GeU);
        b.i(Instruction::BrIf(1));
        b.i(Instruction::LocalGet(0));
        b.i(Instruction::I32Const(4));
        b.i(Instruction::I32Add);
        b.i(Instruction::LocalGet(9));
        b.i(Instruction::I32Add);
        b.i(Instruction::I32Load8U(MemArg { offset: 0, align: 0, memory_index: 0 }));
        b.i(Instruction::LocalSet(4));
        // Check if digit
        b.i(Instruction::LocalGet(4));
        b.i(Instruction::I32Const(48));
        b.i(Instruction::I32GeU);
        b.i(Instruction::LocalGet(4));
        b.i(Instruction::I32Const(57));
        b.i(Instruction::I32LeU);
        b.i(Instruction::I32And);
        b.i(Instruction::I32Eqz);
        b.i(Instruction::BrIf(1));
        // Accumulate: result = result * 10 + digit
        b.i(Instruction::LocalGet(11));
        b.i(Instruction::I32Const(4));
        b.i(Instruction::I32Add);
        b.i(Instruction::F64Load(MemArg { offset: 0, align: 3, memory_index: 0 }));
        b.i(Instruction::F64Const(0x4024000000000000u64)); // 10.0
        b.i(Instruction::F64Mul);
        b.i(Instruction::LocalGet(4));
        b.i(Instruction::I32Const(48));
        b.i(Instruction::I32Sub);
        b.i(Instruction::F64ConvertI32S);
        b.i(Instruction::F64Add);
        // Save to temp local 14 (F64)
        b.i(Instruction::LocalSet(14));
        // Store back (address first, then value)
        b.i(Instruction::LocalGet(11));
        b.i(Instruction::I32Const(4));
        b.i(Instruction::I32Add);
        b.i(Instruction::LocalGet(14));
        b.i(Instruction::F64Store(MemArg { offset: 0, align: 3, memory_index: 0 }));
        b.i(Instruction::LocalGet(9));
        b.i(Instruction::I32Const(1));
        b.i(Instruction::I32Add);
        b.i(Instruction::LocalSet(9));
        b.i(Instruction::Br(0));
        b.i(Instruction::End);
        b.i(Instruction::End);
        // Parse decimal point if present (array element)
        // Check if parse_pos < position and current char is '.'
        b.i(Instruction::LocalGet(9)); // parse_pos
        b.i(Instruction::LocalGet(3)); // position (end of number)
        b.i(Instruction::I32LtU);
        b.i(Instruction::If(BlockType::Empty));
        // Get current character
        b.i(Instruction::LocalGet(0));
        b.i(Instruction::I32Const(4));
        b.i(Instruction::I32Add);
        b.i(Instruction::LocalGet(9));
        b.i(Instruction::I32Add);
        b.i(Instruction::I32Load8U(MemArg { offset: 0, align: 0, memory_index: 0 }));
        b.i(Instruction::LocalSet(4));
        // Check if it's a decimal point '.' (46)
        b.i(Instruction::LocalGet(4));
        b.i(Instruction::I32Const(46)); // '.'
        b.i(Instruction::I32Eq);
        b.i(Instruction::If(BlockType::Empty));
        // Skip the decimal point
        b.i(Instruction::LocalGet(9));
        b.i(Instruction::I32Const(1));
        b.i(Instruction::I32Add);
        b.i(Instruction::LocalSet(9));
        // Initialize decimal divisor to 10.0
        b.i(Instruction::F64Const(0x4024000000000000u64)); // 10.0
        b.i(Instruction::LocalSet(13));
        // Parse fractional digits
        b.i(Instruction::Block(BlockType::Empty));
        b.i(Instruction::Loop(BlockType::Empty));
    }

    /// Part 5 of `parse_array_instructions_body`, after `s`.
    #[verifier::opaque]
    pub open spec fn parse_array_instructions_part_5(s: Seq<Instruction>, parse_value_index: u32, skip_string_index: u32, parse_string_index: u32, malloc_index: u32) -> Seq<Instruction> {
        s
            .push(Instruction::LocalGet(9))
            .push(Instruction::LocalGet(3))
            .push(Instruction::I32GeU)
            .push(Instruction::BrIf(1))
            .push(Instruction::LocalGet(0))
            .push(Instruction::I32Const(4))
            .push(Instruction::I32Add)
            .push(Instruction::LocalGet(9))
            .push(Instruction::I32Add)
            .push(Instruction::I32Load8U(MemArg { offset: 0, align: 0, memory_index: 0 }))
            .push(Instruction::LocalSet(4))
            .push(Instruction::LocalGet(4))
            .push(Instruction::I32Const(48))
            .push(Instruction::I32GeU)
            .push(Instruction::LocalGet(4))
            .push(Instruction::I32Const(57))
            .push(Instruction::I32LeU)
            .push(Instruction::I32And)
            .push(Instruction::I32Eqz)
            .push(Instruction::BrIf(1))
            .push(Instruction::LocalGet(11))
            .push(Instruction::I32Const(4))
            .push(Instruction::I32Add)
            .push(Instruction::F64Load(MemArg { offset: 0, align: 3, memory_index: 0 }))
            .push(Instruction::LocalGet(4))
            .push(Instruction::I32Const(48))
            .push(Instruction::I32Sub)
            .push(Instruction::F64ConvertI32S)
            .push(Instruction::LocalGet(13))
            .push(Instruction::F64Div)
            .push(Instruction::F64Add)
            .push(Instruction::LocalSet(14))
            .push(Instruction::LocalGet(11))
            .push(Instruction::I32Const(4))
            .push(Instruction::I32Add)
            .push(Instruction::LocalGet(14))
            .push(Instruction::F64Store(MemArg { offset: 0, align: 3, memory_index: 0 }))
            .push(Instruction::LocalGet(13))
            .push(Instruction::F64Const(0x4024000000000000u64))
            .push(Instruction::F64Mul)
            .push(Instruction::LocalSet(13))
            .push(Instruction::LocalGet(9))
            .push(Instruction::I32Const(1))
            .push(Instruction::I32Add)
            .push(Instruction::LocalSet(9))
            .push(Instruction::Br(0))
            .push(Instruction::End)
            .push(Instruction::End)
            .push(Instruction::End)
            .push(Instruction::End)
            .push(Instruction::LocalGet(9))
            .push(Instruction::LocalGet(3))
            .push(Instruction::I32LtU)
            .push(Instruction::If(BlockType::Empty))
            .push(Instruction::LocalGet(0))
            .push(Instruction::I32Const(4))
            .push(Instruction::I32Add)
            .push(Instruction::LocalGet(9))
            .push(Instruction::I32Add)
            .push(Instruction::I32Load8U(MemArg { offset: 0, align: 0, memory_index: 0 }))
            .push(Instruction::LocalSet(4))
            .push(Instruction::LocalGet(4))
            .push(Instruction::I32Const(101))
            .push(Instruction::I32Eq)
            .push(Instruction::LocalGet(4))
            .push(Instruction::I32Const(69))
            .push(Instruction::I32Eq)
            .push(Instruction::I32Or)
            .push(Instruction::If(BlockType::Empty))
            .push(Instruction::LocalGet(9))
            .push(Instruction::I32Const(1))
            .push(Instruction::I32Add)
            .push(Instruction::LocalSet(9))
            .push(Instruction::I32Const(0))
            .push(Instruction::LocalSet(12))
            .push(Instruction::F64Const(0x0000000000000000u64))
            .push(Instruction::LocalSet(13))
            .push(Instruction::LocalGet(9))
            .push(Instruction::LocalGet(3))
            .push(Instruction::I32LtU)
            .push(Instruction::If(BlockType::Empty))
            .push(Instruction::LocalGet(0))
            .push(Instruction::I32Const(4))
            .push(Instruction::I32Add)
            .push(Instruction::LocalGet(9))
            .push(Instruction::I32Add)
            .push(Instruction::I32Load8U(MemArg { offset: 0, align: 0, memory_index: 0 }))
            .push(Instruction::LocalSet(4))
            .push(Instruction::LocalGet(4))
            .push(Instruction::I32Const(45))
    }

    /// Part 5 of `generate_parse_array_instructions`.
    #[verifier::rlimit(40)]
    #[verifier::spinoff_prover]
    fn generate_parse_array_instructions_5(b: &mut Body, parse_value_index: u32, skip_string_index: u32, parse_string_index: u32, malloc_index: u32)
        requires
            old(b).wf(),
            old(b).open_blocks() == 7,
            old(b).n_locals() == 15,
        ensures
            final(b).wf(),
            final(b).open_blocks() == 6,
            final(b).n_locals() == 15,
            final(b).instrs() == Self::parse_array_instructions_part_5(old(b).instrs(), parse_value_index, skip_string_index, parse_string_index, malloc_index),
    {
        proof {
            reveal(JsonClass::parse_array_instructions_part_5);
        }
        // Check if parse_pos >= position (end of number)
        b.i(Instruction::LocalGet(9));
        b.i(Instruction::LocalGet(3));
        b.i(Instruction::I32GeU);
        b.i(Instruction::BrIf(1)); // Exit if done
        // Get current character
        b.i(Instruction::LocalGet(0));
        b.i(Instruction::I32Const(4));
        b.i(Instruction::I32Add);
        b.i(Instruction::LocalGet(9));
        b.i(Instruction::I32Add);
        b.i(Instruction::I32Load8U(MemArg { offset: 0, align: 0, memory_index: 0 }));
        b.i(Instruction::LocalSet(4));
        // Check if it's a digit (48-57)
        b.i(Instruction::LocalGet(4));
        b.i(Instruction::I32Const(48)); // '0'
        b.i(Instruction::I32GeU);
        b.i(Instruction::LocalGet(4));
        b.i(Instruction::I32Const(57)); // '9'
        b.i(Instruction::I32LeU);
        b.i(Instruction::I32And);
        b.i(Instruction::I32Eqz);
        b.i(Instruction::BrIf(1)); // Exit if not a digit
        // Load current accumulator value
        b.i(Instruction::LocalGet(11));
        b.i(Instruction::I32Const(4));
        b.i(Instruction::I32Add);
        b.i(Instruction::F64Load(MemArg { offset: 0, align: 3, memory_index: 0 }));
        // Convert digit to value (char - '0')
        b.i(Instruction::LocalGet(4));
        b.i(Instruction::I32Const(48));
        b.i(Instruction::I32Sub);
        b.i(Instruction::F64ConvertI32S);
        // Divide by decimal_divisor
        b.i(Instruction::LocalGet(13));
        b.i(Instruction::F64Div);
        // Add to accumulator
        b.i(Instruction::F64Add);
        // Save result to temp local 14 (F64)
        b.i(Instruction::LocalSet(14));
        // Store back (address first, then value)
        b.i(Instruction::LocalGet(11));
        b.i(Instruction::I32Const(4));
        b.i(Instruction::I32Add);
        b.i(Instruction::LocalGet(14));
        b.i(Instruction::F64Store(MemArg { offset: 0, align: 3, memory_index: 0 }));
        // Multiply divisor by 10 for next digit
        b.i(Instruction::LocalGet(13));
        b.i(Instruction::F64Const(0x4024000000000000u64)); // 10.0
        b.i(Instruction::F64Mul);
        b.i(Instruction::LocalSet(13));
        // Increment parse_pos
        b.i(Instruction::LocalGet(9));
        b.i(Instruction::I32Const(1));
        b.i(Instruction::I32Add);
        b.i(Instruction::LocalSet(9));
        b.i(Instruction::Br(0)); // Continue loop
        b.i(Instruction::End); // End fractional loop
        b.i(Instruction::End); // End fractional block
        b.i(Instruction::End); // End decimal point check
        b.i(Instruction::End); // End parse_pos < position check
        // Apply the exponent if present: 'e' or 'E', an optional sign and
        // digits; the value is scaled by ten to that power
        b.i(Instruction::LocalGet(9));
        b.i(Instruction::LocalGet(3));
        b.i(Instruction::I32LtU);
        b.i(Instruction::If(BlockType::Empty));
        b.i(Instruction::LocalGet(0));
        b.i(Instruction::I32Const(4));
        b.i(Instruction::I32Add);
        b.i(Instruction::LocalGet(9));
        b.i(Instruction::I32Add);
        b.i(Instruction::I32Load8U(MemArg { offset: 0, align: 0, memory_index: 0 }));
        b.i(Instruction::LocalSet(4));
        b.i(Instruction::LocalGet(4));
        b.i(Instruction::I32Const(101)); // 'e'
        b.i(Instruction::I32Eq);
        b.i(Instruction::LocalGet(4));
        b.i(Instruction::I32Const(69)); // 'E'
        b.i(Instruction::I32Eq);
        b.i(Instruction::I32Or);
        b.i(Instruction::If(BlockType::Empty));
        b.i(Instruction::LocalGet(9));
        b.i(Instruction::I32Const(1));
        b.i(Instruction::I32Add);
        b.i(Instruction::LocalSet(9));
        b.i(Instruction::I32Const(0));
        b.i(Instruction::LocalSet(12)); // exponent_negative = 0
        b.i(Instruction::F64Const(0x0000000000000000u64)); // 0.0
        b.i(Instruction::LocalSet(13)); // exponent = 0
        // Optional sign
        b.i(Instruction::LocalGet(9));
        b.i(Instruction::LocalGet(3));
        b.i(Instruction::I32LtU);
        b.i(Instruction::If(BlockType::Empty));
        b.i(Instruction::LocalGet(0));
        b.i(Instruction::I32Const(4));
        b.i(Instruction::I32Add);
        b.i(Instruction::LocalGet(9));
        b.i(Instruction::I32Add);
        b.i(Instruction::I32Load8U(MemArg { offset: 0, align: 0, memory_index: 0 }));
        b.i(Instruction::LocalSet(4));
        b.i(Instruction::LocalGet(4));
        b.i(Instruction::I32Const(45)); // '-'
    }

    /// Part 6 of `parse_array_instructions_body`, after `s`.
    #[verifier::opaque]
    pub open spec fn parse_array_instructions_part_6(s: Seq<Instruction>, parse_value_index: u32, skip_string_index: u32, parse_string_index: u32, malloc_index: u32) -> Seq<Instruction> {
        s
            .push(Instruction::I32Eq)
            .push(Instruction::If(BlockType::Empty))
            .push(Instruction::I32Const(1))
            .push(Instruction::LocalSet(12))
            .push(Instruction::End)
            .push(Instruction::LocalGet(4))
            .push(Instruction::I32Const(45))
            .push(Instruction::I32Eq)
            .push(Instruction::LocalGet(4))
            .push(Instruction::I32Const(43))
            .push(Instruction::I32Eq)
            .push(Instruction::I32Or)
            .push(Instruction::If(BlockType::Empty))
            .push(Instruction::LocalGet(9))
            .push(Instruction::I32Const(1))
            .push(Instruction::I32Add)
            .push(Instruction::LocalSet(9))
            .push(Instruction::End)
            .push(Instruction::End)
            .push(Instruction::Block(BlockType::Empty))
            .push(Instruction::Loop(BlockType::Empty))
            .push(Instruction::LocalGet(9))
            .push(Instruction::LocalGet(3))
            .push(Instruction::I32GeU)
            .push(Instruction::BrIf(1))
            .push(Instruction::LocalGet(0))
            .push(Instruction::I32Const(4))
            .push(Instruction::I32Add)
            .push(Instruction::LocalGet(9))
            .push(Instruction::I32Add)
            .push(Instruction::I32Load8U(MemArg { offset: 0, align: 0, memory_index: 0 }))
            .push(Instruction::LocalSet(4))
            .push(Instruction::LocalGet(4))
            .push(Instruction::I32Const(48))
            .push(Instruction::I32GeU)
            .push(Instruction::LocalGet(4))
            .push(Instruction::I32Const(57))
            .push(Instruction::I32LeU)
            .push(Instruction::I32And)
            .push(Instruction::I32Eqz)
            .push(Instruction::BrIf(1))
            .push(Instruction::LocalGet(13))
            .push(Instruction::F64Const(0x4024000000000000u64))
            .push(Instruction::F64Mul)
            .push(Instruction::LocalGet(4))
            .push(Instruction::I32Const(48))
            .push(Instruction::I32Sub)
            .push(Instruction::F64ConvertI32S)
            .push(Instruction::F64Add)
            .push(Instruction::F64Const(0x4079000000000000u64))
            .push(Instruction::F64Min)
            .push(Instruction::LocalSet(13))
            .push(Instruction::LocalGet(9))
            .push(Instruction::I32Const(1))
            .push(Instruction::I32Add)
            .push(Instruction::LocalSet(9))
            .push(Instruction::Br(0))
            .push(Instruction::End)
            .push(Instruction::End)
            .push(Instruction::F64Const(0x3ff0000000000000u64))
            .push(Instruction::LocalSet(14))
            .push(Instruction::Block(BlockType::Empty))
            .push(Instruction::Loop(BlockType::Empty))
            .push(Instruction::LocalGet(13))
            .push(Instruction::F64Const(0x3fe0000000000000u64))
            .push(Instruction::F64Lt)
            .push(Instruction::BrIf(1))
            .push(Instruction::LocalGet(14))
            .push(Instruction::F64Const(0x4024000000000000u64))
            .push(Instruction::F64Mul)
            .push(Instruction::LocalSet(14))
            .push(Instruction::LocalGet(13))
            .push(Instruction::F64Const(0x3ff0000000000000u64))
            .push(Instruction::F64Sub)
            .push(Instruction::LocalSet(13))
            .push(Instruction::Br(0))
            .push(Instruction::End)
            .push(Instruction::End)
            .push(Instruction::LocalGet(11))
            .push(Instruction::I32Const(4))
            .push(Instruction::I32Add)
            .push(Instruction::LocalGet(12))
            .push(Instruction::If(BlockType::Result(ValType::F64)))
            .push(Instruction::LocalGet(11))
            .push(Instruction::I32Const(4))
            .push(Instruction::I32Add)
            .push(Instruction::F64Load(MemArg { offset: 0, align: 3, memory_index: 0 }))
            .push(Instruction::LocalGet(14))
            .push(Instruction::F64Div)
            .push(Instruction::Else)
    }

    /// Part 6 of `generate_parse_array_instructions`.
    #[verifier::rlimit(40)]
    #[verifier::spinoff_prover]
    fn generate_parse_array_instructions_6(b: &mut Body, parse_value_index: u32, skip_string_index: u32, parse_string_index: u32, malloc_index: u32)
        requires
            old(b).wf(),
            old(b).open_blocks() == 6,
            old(b).n_locals() == 15,
        ensures
            final(b).wf(),
            final(b).open_blocks() == 6,
            final(b).n_locals() == 15,
            final(b).instrs() == Self::parse_array_instructions_part_6(old(b).instrs(), parse_value_index, skip_string_index, parse_string_index, malloc_index),
    {
        proof {
            reveal(JsonClass::parse_array_instructions_part_6);
        }
        b.i(Instruction::I32Eq);
        b.i(Instruction::If(BlockType::Empty));
        b.i(Instruction::I32Const(1));
        b.i(Instruction::LocalSet(12));
        b.i(Instruction::End);
        b.i(Instruction::LocalGet(4));
        b.i(Instruction::I32Const(45)); // '-'
        b.i(Instruction::I32Eq);
        b.i(Instruction::LocalGet(4));
        b.i(Instruction::I32Const(43)); // '+'
        b.i(Instruction::I32Eq);
        b.i(Instruction::I32Or);
        b.i(Instruction::If(BlockType::Empty));
        b.i(Instruction::LocalGet(9));
        b.i(Instruction::I32Const(1));
        b.i(Instruction::I32Add);
        b.i(Instruction::LocalSet(9));
        b.i(Instruction::End);
        b.i(Instruction::End);
        // Exponent digits (the exponent is capped at 400)
        b.i(Instruction::Block(BlockType::Empty));
        b.i(Instruction::Loop(BlockType::Empty));
        b.i(Instruction::LocalGet(9));
        b.i(Instruction::LocalGet(3));
        b.i(Instruction::I32GeU);
        b.i(Instruction::BrIf(1));
        b.i(Instruction::LocalGet(0));
        b.i(Instruction::I32Const(4));
        b.i(Instruction::I32Add);
        b.i(Instruction::LocalGet(9));
        b.i(Instruction::I32Add);
        b.i(Instruction::I32Load8U(MemArg { offset: 0, align: 0, memory_index: 0 }));
        b.i(Instruction::LocalSet(4));
        b.i(Instruction::LocalGet(4));
        b.i(Instruction::I32Const(48));
        b.i(Instruction::I32GeU);
        b.i(Instruction::LocalGet(4));
        b.i(Instruction::I32Const(57));
        b.i(Instruction::I32LeU);
        b.i(Instruction::I32And);
        b.i(Instruction::I32Eqz);
        b.i(Instruction::BrIf(1));
        b.i(Instruction::LocalGet(13));
        b.i(Instruction::F64Const(0x4024000000000000u64)); // 10.0
        b.i(Instruction::F64Mul);
        b.i(Instruction::LocalGet(4));
        b.i(Instruction::I32Const(48));
        b.i(Instruction::I32Sub);
        b.i(Instruction::F64ConvertI32S);
        b.i(Instruction::F64Add);
        b.i(Instruction::F64Const(0x4079000000000000u64)); // 400.0
        b.i(Instruction::F64Min);
        b.i(Instruction::LocalSet(13));
        b.i(Instruction::LocalGet(9));
        b.i(Instruction::I32Const(1));
        b.i(Instruction::I32Add);
        b.i(Instruction::LocalSet(9));
        b.i(Instruction::Br(0));
        b.i(Instruction::End);
        b.i(Instruction::End);
        // factor = 10 ^ exponent
        b.i(Instruction::F64Const(0x3ff0000000000000u64)); // 1.0
        b.i(Instruction::LocalSet(14));
        b.i(Instruction::Block(BlockType::Empty));
        b.i(Instruction::Loop(BlockType::Empty));
        b.i(Instruction::LocalGet(13));
        b.i(Instruction::F64Const(0x3fe0000000000000u64)); // 0.5
        b.i(Instruction::F64Lt);
        b.i(Instruction::BrIf(1));
        b.i(Instruction::LocalGet(14));
        b.i(Instruction::F64Const(0x4024000000000000u64)); // 10.0
        b.i(Instruction::F64Mul);
        b.i(Instruction::LocalSet(14));
        b.i(Instruction::LocalGet(13));
        b.i(Instruction::F64Const(0x3ff0000000000000u64)); // 1.0
        b.i(Instruction::F64Sub);
        b.i(Instruction::LocalSet(13));
        b.i(Instruction::Br(0));
        b.i(Instruction::End);
        b.i(Instruction::End);
        // value = value / factor for a negative exponent, value * factor otherwise
        b.i(Instruction::LocalGet(11));
        b.i(Instruction::I32Const(4));
        b.i(Instruction::I32Add);
        b.i(Instruction::LocalGet(12));
        b.i(Instruction::If(BlockType::Result(ValType::F64)));
        b.i(Instruction::LocalGet(11));
        b.i(Instruction::I32Const(4));
        b.i(Instruction::I32Add);
        b.i(Instruction::F64Load(MemArg { offset: 0, align: 3, memory_index: 0 }));
        b.i(Instruction::LocalGet(14));
        b.i(Instruction::F64Div);
        b.i(Instruction::Else);
    }

    /// Part 7 of `parse_array_instructions_body`, after `s`.
    #[verifier::opaque]
    pub open spec fn parse_array_instructions_part_7(s: Seq<Instruction>, parse_value_index: u32, skip_string_index: u32, parse_string_index: u32, malloc_index: u32) -> Seq<Instruction> {
        s
            .push(Instruction::LocalGet(11))
            .push(Instruction::I32Const(4))
            .push(Instruction::I32Add)
            .push(Instruction::F64Load(MemArg { offset: 0, align: 3, memory_index: 0 }))
            .push(Instruction::LocalGet(14))
            .push(Instruction::F64Mul)
            .push(Instruction::End)
            .push(Instruction::F64Store(MemArg { offset: 0, align: 3, memory_index: 0 }))
            .push(Instruction::End)
            .push(Instruction::End)
            .push(Instruction::LocalGet(10))
            .push(Instruction::If(BlockType::Empty))
            .push(Instruction::LocalGet(11))
            .push(Instruction::I32Const(4))
            .push(Instruction::I32Add)
            .push(Instruction::F64Load(MemArg { offset: 0, align: 3, memory_index: 0 }))
            .push(Instruction::F64Neg)
            .push(Instruction::LocalSet(14))
            .push(Instruction::LocalGet(11))
            .push(Instruction::I32Const(4))
            .push(Instruction::I32Add)
            .push(Instruction::LocalGet(14))
            .push(Instruction::F64Store(MemArg { offset: 0, align: 3, memory_index: 0 }))
            .push(Instruction::End)
            .push(Instruction::LocalGet(6))
            .push(Instruction::I32Const(4))
            .push(Instruction::I32Add)
            .push(Instruction::LocalGet(7))
            .push(Instruction::I32Const(4))
            .push(Instruction::I32Mul)
            .push(Instruction::I32Add)
            .push(Instruction::LocalGet(11))
            .push(Instruction::I32Store(MemArg { offset: 0, align: 2, memory_index: 0 }))
            .push(Instruction::Else)
            .push(Instruction::LocalGet(4))
            .push(Instruction::I32Const(34))
            .push(Instruction::I32Eq)
            .push(Instruction::If(BlockType::Empty))
            .push(Instruction::LocalGet(1))
            .push(Instruction::LocalGet(3))
            .push(Instruction::I32Store(MemArg { offset: 0, align: 2, memory_index: 0 }))
            .push(Instruction::LocalGet(0))
            .push(Instruction::LocalGet(1))
            .push(Instruction::LocalGet(2))
            .push(Instruction::Call(parse_string_index))
            .push(Instruction::LocalSet(11))
            .push(Instruction::LocalGet(1))
            .push(Instruction::I32Load(MemArg { offset: 0, align: 2, memory_index: 0 }))
            .push(Instruction::LocalSet(3))
            .push(Instruction::I32Const(12))
            .push(Instruction::Call(malloc_index))
            .push(Instruction::LocalSet(12))
            .push(Instruction::LocalGet(12))
            .push(Instruction::I32Const(4))
            .push(Instruction::I32Store(MemArg { offset: 0, align: 2, memory_index: 0 }))
            .push(Instruction::LocalGet(12))
            .push(Instruction::LocalGet(11))
            .push(Instruction::I32Store(MemArg { offset: 4, align: 2, memory_index: 0 }))
            .push(Instruction::LocalGet(12))
            .push(Instruction::I32Const(0))
            .push(Instruction::I32Store(MemArg { offset: 8, align: 2, memory_index: 0 }))
            .push(Instruction::LocalGet(6))
            .push(Instruction::I32Const(4))
            .push(Instruction::I32Add)
            .push(Instruction::LocalGet(7))
            .push(Instruction::I32Const(4))
            .push(Instruction::I32Mul)
            .push(Instruction::I32Add)
            .push(Instruction::LocalGet(12))
            .push(Instruction::I32Store(MemArg { offset: 0, align: 2, memory_index: 0 }))
            .push(Instruction::Else)
            .push(Instruction::LocalGet(4))
            .push(Instruction::I32Const(116))
            .push(Instruction::I32Eq)
            .push(Instruction::If(BlockType::Empty))
            .push(Instruction::LocalGet(6))
            .push(Instruction::I32Const(4))
            .push(Instruction::I32Add)
            .push(Instruction::LocalGet(7))
            .push(Instruction::I32Const(4))
            .push(Instruction::I32Mul)
            .push(Instruction::I32Add)
            .push(Instruction::I32Const(2))
            .push(Instruction::I32Store(MemArg { offset: 0, align: 2, memory_index: 0 }))
            .push(Instruction::LocalGet(3))
            .push(Instruction::I32Const(4))
            .push(Instruction::I32Add)
            .push(Instruction::LocalSet(3))
            .push(Instruction::Else)
            .push(Instruction::LocalGet(4))
    }

    /// Part 7 of `generate_parse_array_instructions`.
    #[verifier::rlimit(40)]
    #[verifier::spinoff_prover]
    fn generate_parse_array_instructions_7(b: &mut Body, parse_value_index: u32, skip_string_index: u32, parse_string_index: u32, malloc_index: u32)
        requires
            old(b).wf(),
            old(b).open_blocks() == 6,
            old(b).n_locals() == 15,
        ensures
            final(b).wf(),
            final(b).open_blocks() == 5,
            final(b).n_locals() == 15,
            final(b).instrs() == Self::parse_array_instructions_part_7(old(b).instrs(), parse_value_index, skip_string_index, parse_string_index, malloc_index),
    {
        proof {
            reveal(JsonClass::parse_array_instructions_part_7);
        }
        b.i(Instruction::LocalGet(11));
        b.i(Instruction::I32Const(4));
        b.i(Instruction::I32Add);
        b.i(Instruction::F64Load(MemArg { offset: 0, align: 3, memory_index: 0 }));
        b.i(Instruction::LocalGet(14));
        b.i(Instruction::F64Mul);
        b.i(Instruction::End);
        b.i(Instruction::F64Store(MemArg { offset: 0, align: 3, memory_index: 0 }));
        b.i(Instruction::End); // end exponent check
        b.i(Instruction::End); // end parse_pos < position check
        // Apply negative sign
        b.i(Instruction::LocalGet(10));
        b.i(Instruction::If(BlockType::Empty));
        b.i(Instruction::LocalGet(11));
        b.i(Instruction::I32Const(4));
        b.i(Instruction::I32Add);
        b.i(Instruction::F64Load(MemArg { offset: 0, align: 3, memory_index: 0 }));
        b.i(Instruction::F64Neg);
        // Save negated value to temp local 14
        b.i(Instruction::LocalSet(14));
        // Store back (address first, then value)
        b.i(Instruction::LocalGet(11));
        b.i(Instruction::I32Const(4));
        b.i(Instruction::I32Add);
        b.i(Instruction::LocalGet(14));
        b.i(Instruction::F64Store(MemArg { offset: 0, align: 3, memory_index: 0 }));
        b.i(Instruction::End);
        // Store element pointer in array
        b.i(Instruction::LocalGet(6)); // array_ptr
        b.i(Instruction::I32Const(4));
        b.i(Instruction::I32Add);
        b.i(Instruction::LocalGet(7)); // i
        b.i(Instruction::I32Const(4));
        b.i(Instruction::I32Mul);
        b.i(Instruction::I32Add);
        b.i(Instruction::LocalGet(11)); // value_ptr
        b.i(Instruction::I32Store(MemArg { offset: 0, align: 2, memory_index: 0 }));
        b.i(Instruction::Else);
        b.i(Instruction::LocalGet(4));
        b.i(Instruction::I32Const(34)); // '"'
        b.i(Instruction::I32Eq);
        b.i(Instruction::If(BlockType::Empty));
        // Position is AT the opening '"'. Write to position_ptr, call __json_parse_string.
        b.i(Instruction::LocalGet(1));
        b.i(Instruction::LocalGet(3));
        b.i(Instruction::I32Store(MemArg { offset: 0, align: 2, memory_index: 0 }));
        // Call __json_parse_string(string_ptr, position_ptr, length) → str_ptr
        b.i(Instruction::LocalGet(0));
        b.i(Instruction::LocalGet(1));
        b.i(Instruction::LocalGet(2));
        b.i(Instruction::Call(parse_string_index));
        b.i(Instruction::LocalSet(11)); // str_ptr
        // Read updated position back
        b.i(Instruction::LocalGet(1));
        b.i(Instruction::I32Load(MemArg { offset: 0, align: 2, memory_index: 0 }));
        b.i(Instruction::LocalSet(3));
        // Box the string as an any type value
        // Allocate 12 bytes for boxed structure: [tag=4][str_ptr][padding]
        b.i(Instruction::I32Const(12));
        b.i(Instruction::Call(malloc_index));
        b.i(Instruction::LocalSet(12)); // boxed_ptr in local 12 (temp)
        // Store type tag 4 (String) at offset 0
        b.i(Instruction::LocalGet(12));
        b.i(Instruction::I32Const(4)); // AnyTypeTag::String
        b.i(Instruction::I32Store(MemArg { offset: 0, align: 2, memory_index: 0 }));
        // Store string pointer at offset 4
        b.i(Instruction::LocalGet(12));
        b.i(Instruction::LocalGet(11)); // str_ptr
        b.i(Instruction::I32Store(MemArg { offset: 4, align: 2, memory_index: 0 }));
        // Store padding=0 at offset 8
        b.i(Instruction::LocalGet(12));
        b.i(Instruction::I32Const(0));
        b.i(Instruction::I32Store(MemArg { offset: 8, align: 2, memory_index: 0 }));
        // Store boxed pointer in array (not raw str_ptr)
        b.i(Instruction::LocalGet(6)); // array_ptr
        b.i(Instruction::I32Const(4));
        b.i(Instruction::I32Add);
        b.i(Instruction::LocalGet(7)); // i
        b.i(Instruction::I32Const(4));
        b.i(Instruction::I32Mul);
        b.i(Instruction::I32Add);
        b.i(Instruction::LocalGet(12)); // boxed_ptr (not str_ptr)
        b.i(Instruction::I32Store(MemArg { offset: 0, align: 2, memory_index: 0 }));
        b.i(Instruction::Else);
        // Check if element is 'true'
        b.i(Instruction::LocalGet(4));
        b.i(Instruction::I32Const(116)); // 't'
        b.i(Instruction::I32Eq);
        b.i(Instruction::If(BlockType::Empty));
        // Store true (encoded as 2)
        b.i(Instruction::LocalGet(6)); // array_ptr
        b.i(Instruction::I32Const(4));
        b.i(Instruction::I32Add);
        b.i(Instruction::LocalGet(7)); // i
        b.i(Instruction::I32Const(4));
        b.i(Instruction::I32Mul);
        b.i(Instruction::I32Add);
        b.i(Instruction::I32Const(2)); // true = 2
        b.i(Instruction::I32Store(MemArg { offset: 0, align: 2, memory_index: 0 }));
        // Skip past "true" (4 characters)
        b.i(Instruction::LocalGet(3));
        b.i(Instruction::I32Const(4));
        b.i(Instruction::I32Add);
        b.i(Instruction::LocalSet(3));
        b.i(Instruction::Else);
        // Check if element is 'false'
        b.i(Instruction::LocalGet(4));
    }

    /// Part 8 of `parse_array_instructions_body`, after `s`.
    #[verifier::opaque]
    pub open spec fn parse_array_instructions_part_8(s: Seq<Instruction>, parse_value_index: u32, skip_string_index: u32, parse_string_index: u32, malloc_index: u32) -> Seq<Instruction> {
        s
            .push(Instruction::I32Const(102))
            .push(Instruction::I32Eq)
            .push(Instruction::If(BlockType::Empty))
            .push(Instruction::LocalGet(6))
            .push(Instruction::I32Const(4))
            .push(Instruction::I32Add)
            .push(Instruction::LocalGet(7))
            .push(Instruction::I32Const(4))
            .push(Instruction::I32Mul)
            .push(Instruction::I32Add)
            .push(Instruction::I32Const(1))
            .push(Instruction::I32Store(MemArg { offset: 0, align: 2, memory_index: 0 }))
            .push(Instruction::LocalGet(3))
            .push(Instruction::I32Const(5))
            .push(Instruction::I32Add)
            .push(Instruction::LocalSet(3))
            .push(Instruction::Else)
            .push(Instruction::LocalGet(4))
            .push(Instruction::I32Const(110))
            .push(Instruction::I32Eq)
            .push(Instruction::If(BlockType::Empty))
            .push(Instruction::LocalGet(6))
            .push(Instruction::I32Const(4))
            .push(Instruction::I32Add)
            .push(Instruction::LocalGet(7))
            .push(Instruction::I32Const(4))
            .push(Instruction::I32Mul)
            .push(Instruction::I32Add)
            .push(Instruction::I32Const(0))
            .push(Instruction::I32Store(MemArg { offset: 0, align: 2, memory_index: 0 }))
            .push(Instruction::LocalGet(3))
            .push(Instruction::I32Const(4))
            .push(Instruction::I32Add)
            .push(Instruction::LocalSet(3))
            .push(Instruction::Else)
            .push(Instruction::LocalGet(1))
            .push(Instruction::LocalGet(3))
            .push(Instruction::I32Store(MemArg { offset: 0, align: 2, memory_index: 0 }))
            .push(Instruction::LocalGet(0))
            .push(Instruction::LocalGet(1))
            .push(Instruction::LocalGet(2))
            .push(Instruction::Call(parse_value_index))
            .push(Instruction::LocalSet(9))
            .push(Instruction::LocalGet(1))
            .push(Instruction::I32Load(MemArg { offset: 0, align: 2, memory_index: 0 }))
            .push(Instruction::LocalSet(3))
            .push(Instruction::LocalGet(6))
            .push(Instruction::I32Const(4))
            .push(Instruction::I32Add)
            .push(Instruction::LocalGet(7))
            .push(Instruction::I32Const(4))
            .push(Instruction::I32Mul)
            .push(Instruction::I32Add)
            .push(Instruction::LocalGet(9))
            .push(Instruction::I32Store(MemArg { offset: 0, align: 2, memory_index: 0 }))
            .push(Instruction::End)
            .push(Instruction::End)
            .push(Instruction::End)
            .push(Instruction::End)
            .push(Instruction::End)
            .push(Instruction::I32Const(0))
            .push(Instruction::LocalSet(10))
            .push(Instruction::Block(BlockType::Empty))
            .push(Instruction::Loop(BlockType::Empty))
            .push(Instruction::LocalGet(3))
            .push(Instruction::LocalGet(2))
            .push(Instruction::I32GeU)
            .push(Instruction::BrIf(3))
            .push(Instruction::LocalGet(0))
            .push(Instruction::I32Const(4))
            .push(Instruction::I32Add)
            .push(Instruction::LocalGet(3))
            .push(Instruction::I32Add)
            .push(Instruction::I32Load8U(MemArg { offset: 0, align: 0, memory_index: 0 }))
            .push(Instruction::LocalSet(4))
            .push(Instruction::LocalGet(3))
            .push(Instruction::I32Const(1))
            .push(Instruction::I32Add)
            .push(Instruction::LocalSet(3))
            .push(Instruction::LocalGet(4))
            .push(Instruction::I32Const(123))
            .push(Instruction::I32Eq)
            .push(Instruction::LocalGet(4))
            .push(Instruction::I32Const(91))
            .push(Instruction::I32Eq)
            .push(Instruction::I32Or)
            .push(Instruction::If(BlockType::Empty))
            .push(Instruction::LocalGet(10))
            .push(Instruction::I32Const(1))
            .push(Instruction::I32Add)
    }

    /// Part 8 of `generate_parse_array_instructions`.
    #[verifier::rlimit(40)]
    #[verifier::spinoff_prover]
    fn generate_parse_array_instructions_8(b: &mut Body, parse_value_index: u32, skip_string_index: u32, parse_string_index: u32, malloc_index: u32)
        requires
            old(b).wf(),
            old(b).open_blocks() == 5,
            old(b).n_locals() == 15,
        ensures
            final(b).wf(),
            final(b).open_blocks() == 5,
            final(b).n_locals() == 15,
            final(b).instrs() == Self::parse_array_instructions_part_8(old(b).instrs(), parse_value_index, skip_string_index, parse_string_index, malloc_index),
    {
        proof {
            reveal(JsonClass::parse_array_instructions_part_8);
        }
        b.i(Instruction::I32Const(102)); // 'f'
        b.i(Instruction::I32Eq);
        b.i(Instruction::If(BlockType::Empty));
        // Store false (encoded as 1)
        b.i(Instruction::LocalGet(6)); // array_ptr
        b.i(Instruction::I32Const(4));
        b.i(Instruction::I32Add);
        b.i(Instruction::LocalGet(7)); // i
        b.i(Instruction::I32Const(4));
        b.i(Instruction::I32Mul);
        b.i(Instruction::I32Add);
        b.i(Instruction::I32Const(1)); // false = 1
        b.i(Instruction::I32Store(MemArg { offset: 0, align: 2, memory_index: 0 }));
        // Skip past "false" (5 characters)
        b.i(Instruction::LocalGet(3));
        b.i(Instruction::I32Const(5));
        b.i(Instruction::I32Add);
        b.i(Instruction::LocalSet(3));
        b.i(Instruction::Else);
        // Check if element is 'null'
        b.i(Instruction::LocalGet(4));
        b.i(Instruction::I32Const(110)); // 'n'
        b.i(Instruction::I32Eq);
        b.i(Instruction::If(BlockType::Empty));
        // Store null (0)
        b.i(Instruction::LocalGet(6)); // array_ptr
        b.i(Instruction::I32Const(4));
        b.i(Instruction::I32Add);
        b.i(Instruction::LocalGet(7)); // i
        b.i(Instruction::I32Const(4));
        b.i(Instruction::I32Mul);
        b.i(Instruction::I32Add);
        b.i(Instruction::I32Const(0)); // null = 0
        b.i(Instruction::I32Store(MemArg { offset: 0, align: 2, memory_index: 0 }));
        // Skip past "null" (4 characters)
        b.i(Instruction::LocalGet(3));
        b.i(Instruction::I32Const(4));
        b.i(Instruction::I32Add);
        b.i(Instruction::LocalSet(3));
        b.i(Instruction::Else);
        // Nested object/array - use recursive call to parse_value
        // Write current position to memory before recursive call
        b.i(Instruction::LocalGet(1)); // position_ptr
        b.i(Instruction::LocalGet(3)); // cached position
        b.i(Instruction::I32Store(MemArg { offset: 0, align: 2, memory_index: 0 }));
        // Recursive call to value parser
        b.i(Instruction::LocalGet(0)); // string_ptr
        b.i(Instruction::LocalGet(1)); // position_ptr
        b.i(Instruction::LocalGet(2)); // length
        b.i(Instruction::Call(parse_value_index));
        b.i(Instruction::LocalSet(9)); // element_ptr
        // Read updated position
        b.i(Instruction::LocalGet(1));
        b.i(Instruction::I32Load(MemArg { offset: 0, align: 2, memory_index: 0 }));
        b.i(Instruction::LocalSet(3)); // update position cache
        // Store nested element pointer in array
        b.i(Instruction::LocalGet(6)); // array_ptr
        b.i(Instruction::I32Const(4));
        b.i(Instruction::I32Add);
        b.i(Instruction::LocalGet(7)); // i
        b.i(Instruction::I32Const(4));
        b.i(Instruction::I32Mul);
        b.i(Instruction::I32Add);
        b.i(Instruction::LocalGet(9)); // element_ptr (parsed nested value)
        b.i(Instruction::I32Store(MemArg { offset: 0, align: 2, memory_index: 0 }));
        b.i(Instruction::End); // null check
        b.i(Instruction::End); // false check
        b.i(Instruction::End); // true check
        b.i(Instruction::End); // string check
        b.i(Instruction::End); // number check (outer else)
        // Skip past element to find ',' or ']'
        b.i(Instruction::I32Const(0));
        b.i(Instruction::LocalSet(10)); // depth = 0
        b.i(Instruction::Block(BlockType::Empty));
        b.i(Instruction::Loop(BlockType::Empty));
        b.i(Instruction::LocalGet(3));
        b.i(Instruction::LocalGet(2));
        b.i(Instruction::I32GeU);
        b.i(Instruction::BrIf(3));
        b.i(Instruction::LocalGet(0));
        b.i(Instruction::I32Const(4));
        b.i(Instruction::I32Add);
        b.i(Instruction::LocalGet(3));
        b.i(Instruction::I32Add);
        b.i(Instruction::I32Load8U(MemArg { offset: 0, align: 0, memory_index: 0 }));
        b.i(Instruction::LocalSet(4));
        b.i(Instruction::LocalGet(3));
        b.i(Instruction::I32Const(1));
        b.i(Instruction::I32Add);
        b.i(Instruction::LocalSet(3));
        // Track depth
        b.i(Instruction::LocalGet(4));
        b.i(Instruction::I32Const(123));
        b.i(Instruction::I32Eq);
        b.i(Instruction::LocalGet(4));
        b.i(Instruction::I32Const(91));
        b.i(Instruction::I32Eq);
        b.i(Instruction::I32Or);
        b.i(Instruction::If(BlockType::Empty));
        b.i(Instruction::LocalGet(10));
        b.i(Instruction::I32Const(1));
        b.i(Instruction::I32Add);
    }

    /// Part 9 of `parse_array_instructions_body`, after `s`.
    #[verifier::opaque]
    pub open spec fn parse_array_instructions_part_9(s: Seq<Instruction>, parse_value_index: u32, skip_string_index: u32, parse_string_index: u32, malloc_index: u32) -> Seq<Instruction> {
        s
            .push(Instruction::LocalSet(10))
            .push(Instruction::End)
            .push(Instruction::LocalGet(4))
            .push(Instruction::I32Const(125))
            .push(Instruction::I32Eq)
            .push(Instruction::LocalGet(4))
            .push(Instruction::I32Const(93))
            .push(Instruction::I32Eq)
            .push(Instruction::I32Or)
            .push(Instruction::If(BlockType::Empty))
            .push(Instruction::LocalGet(10))
            .push(Instruction::I32Const(0))
            .push(Instruction::I32GtU)
            .push(Instruction::If(BlockType::Empty))
            .push(Instruction::LocalGet(10))
            .push(Instruction::I32Const(1))
            .push(Instruction::I32Sub)
            .push(Instruction::LocalSet(10))
            .push(Instruction::End)
            .push(Instruction::End)
            .push(Instruction::LocalGet(10))
            .push(Instruction::I32Eqz)
            .push(Instruction::If(BlockType::Empty))
            .push(Instruction::LocalGet(4))
            .push(Instruction::I32Const(44))
            .push(Instruction::I32Eq)
            .push(Instruction::LocalGet(4))
            .push(Instruction::I32Const(93))
            .push(Instruction::I32Eq)
            .push(Instruction::I32Or)
            .push(Instruction::BrIf(2))
            .push(Instruction::End)
            .push(Instruction::Br(0))
            .push(Instruction::End)
            .push(Instruction::End)
            .push(Instruction::LocalGet(7))
            .push(Instruction::I32Const(1))
            .push(Instruction::I32Add)
            .push(Instruction::LocalSet(7))
            .push(Instruction::Br(0))
            .push(Instruction::End)
            .push(Instruction::End)
            .push(Instruction::LocalGet(1))
            .push(Instruction::LocalGet(3))
            .push(Instruction::I32Store(MemArg { offset: 0, align: 2, memory_index: 0 }))
            .push(Instruction::LocalGet(6))
    }

    /// Part 9 of `generate_parse_array_instructions`.
    #[verifier::rlimit(40)]
    #[verifier::spinoff_prover]
    fn generate_parse_array_instructions_9(b: &mut Body, parse_value_index: u32, skip_string_index: u32, parse_string_index: u32, malloc_index: u32)
        requires
            old(b).wf(),
            old(b).open_blocks() == 5,
            old(b).n_locals() == 15,
        ensures
            final(b).wf(),
            final(b).open_blocks() == 0,
            final(b).n_locals() == 15,
            final(b).instrs() == Self::parse_array_instructions_part_9(old(b).instrs(), parse_value_index, skip_string_index, parse_string_index, malloc_index),
    {
        proof {
            reveal(JsonClass::parse_array_instructions_part_9);
        }
        b.i(Instruction::LocalSet(10));
        b.i(Instruction::End);
        b.i(Instruction::LocalGet(4));
        b.i(Instruction::I32Const(125));
        b.i(Instruction::I32Eq);
        b.i(Instruction::LocalGet(4));
        b.i(Instruction::I32Const(93));
        b.i(Instruction::I32Eq);
        b.i(Instruction::I32Or);
        b.i(Instruction::If(BlockType::Empty));
        b.i(Instruction::LocalGet(10));
        b.i(Instruction::I32Const(0));
        b.i(Instruction::I32GtU);
        b.i(Instruction::If(BlockType::Empty));
        b.i(Instruction::LocalGet(10));
        b.i(Instruction::I32Const(1));
        b.i(Instruction::I32Sub);
        b.i(Instruction::LocalSet(10));
        b.i(Instruction::End);
        b.i(Instruction::End);
        // At depth 0, check for ',' or ']'
        b.i(Instruction::LocalGet(10));
        b.i(Instruction::I32Eqz);
        b.i(Instruction::If(BlockType::Empty));
        b.i(Instruction::LocalGet(4));
        b.i(Instruction::I32Const(44));
        b.i(Instruction::I32Eq);
        b.i(Instruction::LocalGet(4));
        b.i(Instruction::I32Const(93));
        b.i(Instruction::I32Eq);
        b.i(Instruction::I32Or);
        b.i(Instruction::BrIf(2));
        b.i(Instruction::End);
        b.i(Instruction::Br(0));
        b.i(Instruction::End);
        b.i(Instruction::End);
        // Increment loop counter
        b.i(Instruction::LocalGet(7));
        b.i(Instruction::I32Const(1));
        b.i(Instruction::I32Add);
        b.i(Instruction::LocalSet(7)); // i++
        b.i(Instruction::Br(0)); // Continue parse loop
        b.i(Instruction::End); // End parse loop
        b.i(Instruction::End); // End parse block
        // Write final position back to memory
        b.i(Instruction::LocalGet(1)); // position_ptr
        b.i(Instruction::LocalGet(3)); // cached position
        b.i(Instruction::I32Store(MemArg { offset: 0, align: 2, memory_index: 0 }));
        // Return array pointer
        b.i(Instruction::LocalGet(6));
    }

    /// The instructions `generate_get_wrapper_instructions` returns.
    #[verifier::opaque]
    pub open spec fn get_wrapper_instructions_body(path_idx: u32, text_to_data_idx: u32) -> Seq<Instruction> {
        seq![
            Instruction::LocalGet(0),
            Instruction::I32Eqz,
            Instruction::If(BlockType::Result(ValType::I32)),
            Instruction::I32Const(0),
            Instruction::Else,
            Instruction::LocalGet(0),
            Instruction::I32Load(MemArg { offset: 0, align: 2, memory_index: 0 }),
            Instruction::LocalSet(2),
            Instruction::LocalGet(2),
            Instruction::I32Const(JSON_TAG_STRING),
            Instruction::I32Eq,
            Instruction::If(BlockType::Result(ValType::I32)),
            Instruction::LocalGet(0),
            Instruction::I32Load(MemArg { offset: 4, align: 2, memory_index: 0 }),
            Instruction::LocalSet(4),
            Instruction::LocalGet(4),
            Instruction::GlobalGet(1),
            Instruction::I32Eq,
            Instruction::GlobalGet(1),
            Instruction::I32Const(0),
            Instruction::I32Ne,
            Instruction::I32And,
            Instruction::GlobalGet(0),
            Instruction::GlobalGet(3),
            Instruction::I32GeU,
            Instruction::I32And,
            Instruction::If(BlockType::Result(ValType::I32)),
            Instruction::GlobalGet(2),
            Instruction::Else,
            Instruction::LocalGet(4),
            Instruction::Call(text_to_data_idx),
            Instruction::LocalSet(5),
            Instruction::LocalGet(4),
            Instruction::GlobalSet(1),
            Instruction::LocalGet(5),
            Instruction::GlobalSet(2),
            Instruction::GlobalGet(0),
            Instruction::GlobalSet(3),
            Instruction::LocalGet(5),
            Instruction::End,
            Instruction::Else,
            Instruction::LocalGet(0),
            Instruction::End,
            Instruction::LocalSet(3),
            Instruction::LocalGet(3),
            Instruction::LocalGet(1),
            Instruction::I32Const(4),
            Instruction::I32Add,
            Instruction::LocalGet(1),
            Instruction::I32Load(MemArg { offset: 0, align: 2, memory_index: 0 }),
            Instruction::Call(path_idx),
            Instruction::End,
        ]
    }

    /// The body of `json.get`: unwraps a boxed JSON string (parsing it, with a
    /// one-entry cache keyed by the source pointer) and walks the path.
    #[verifier::rlimit(40)]
    #[verifier::spinoff_prover]
    fn generate_get_wrapper_instructions(path_idx: u32, text_to_data_idx: u32) -> (r: Vec<Instruction>)
        ensures
            body_ok(r@, 6),
            r@ == Self::get_wrapper_instructions_body(path_idx, text_to_data_idx),
    {
        proof {
            reveal(JsonClass::get_wrapper_instructions_body);
        }
        let mut b = Body::new(6);
        // null guard
        b.i(Instruction::LocalGet(0));
        b.i(Instruction::I32Eqz);
        b.i(Instruction::If(BlockType::Result(ValType::I32)));
        b.i(Instruction::I32Const(0));
        b.i(Instruction::Else);
        // read type tag at offset 0 of the boxed Any
        b.i(Instruction::LocalGet(0));
        b.i(Instruction::I32Load(MemArg { offset: 0, align: 2, memory_index: 0 }));
        b.i(Instruction::LocalSet(2)); // type_tag
        b.i(Instruction::LocalGet(2));
        b.i(Instruction::I32Const(JSON_TAG_STRING));
        b.i(Instruction::I32Eq);
        b.i(Instruction::If(BlockType::Result(ValType::I32)));
        // str_ptr = memory[json_ptr + 4]
        b.i(Instruction::LocalGet(0));
        b.i(Instruction::I32Load(MemArg { offset: 4, align: 2, memory_index: 0 }));
        b.i(Instruction::LocalSet(4));
        // Cache hit predicate:
        // str_ptr == cache_src  &&  cache_src != 0  &&  __heap_ptr >= cache_floor
        b.i(Instruction::LocalGet(4));
        b.i(Instruction::GlobalGet(1)); // cache_src
        b.i(Instruction::I32Eq);
        b.i(Instruction::GlobalGet(1));
        b.i(Instruction::I32Const(0));
        b.i(Instruction::I32Ne); // cache_src != 0
        b.i(Instruction::I32And);
        b.i(Instruction::GlobalGet(0)); // __heap_ptr
        b.i(Instruction::GlobalGet(3)); // cache_floor
        b.i(Instruction::I32GeU);
        b.i(Instruction::I32And);
        b.i(Instruction::If(BlockType::Result(ValType::I32)));
        // hit — reuse cached parsed tree
        b.i(Instruction::GlobalGet(2));
        b.i(Instruction::Else);
        // miss — parse, then memoize (source ptr, parsed ptr, floor)
        b.i(Instruction::LocalGet(4));
        b.i(Instruction::Call(text_to_data_idx));
        b.i(Instruction::LocalSet(5)); // parsed_ptr
        b.i(Instruction::LocalGet(4));
        b.i(Instruction::GlobalSet(1)); // cache_src := str_ptr
        b.i(Instruction::LocalGet(5));
        b.i(Instruction::GlobalSet(2)); // cache_parsed := parsed_ptr
        b.i(Instruction::GlobalGet(0));
        b.i(Instruction::GlobalSet(3)); // cache_floor := __heap_ptr (post-parse)
        b.i(Instruction::LocalGet(5));
        b.i(Instruction::End); // closes cache hit/miss
        b.i(Instruction::Else);
        b.i(Instruction::LocalGet(0)); // already a boxed Any object or other type
        b.i(Instruction::End); // closes tag==String check
        b.i(Instruction::LocalSet(3)); // obj_boxed_ptr
        // __json_get_path expects the boxed Any directly (not the raw inner
        // pointer) because it must re-read the tag for every segment to
        // decide between field vs index dispatch.
        b.i(Instruction::LocalGet(3));
        // path content ptr = path_ptr + 4
        b.i(Instruction::LocalGet(1));
        b.i(Instruction::I32Const(4));
        b.i(Instruction::I32Add);
        // path length = mem[path_ptr]
        b.i(Instruction::LocalGet(1));
        b.i(Instruction::I32Load(MemArg { offset: 0, align: 2, memory_index: 0 }));
        b.i(Instruction::Call(path_idx));
        b.i(Instruction::End); // closes null check
        b.finish()
    }
}

} // verus!
