# clean_stdlib

The standard library of the Clean Language WebAssembly backend, verified
with Verus: the runtime helper functions the compiler registers with its
code generator (lists, list behaviours, math, matrices, JSON, method-style
helpers, memory management), and a byte-addressed memory manager with
reference counting, first-fit reuse and coalescing.

## Layout

- `src/wasm.rs`: the instructions the library emits, as plain values, and
  what a well-formed function body is (structured blocks balanced, branches
  to enclosing labels, locals below the declared count).
- `src/body.rs`: a body builder that keeps every body it produces well
  formed; every generator returns a body built with it.
- `src/codegen.rs`: the code generator's function table: consecutive
  indices, name bindings where the last binding wins, aliases, and the
  specifications (`appended`, `grew`, `aliased`) the registration contracts
  are written in; a registered function's signature includes its body.
- `src/memory.rs`: the memory manager (allocation, retain/release,
  deallocation, typed stores) and its memory section. Freed blocks join
  the free list in address order and merge with the free-list blocks next to
  them in memory; blocks are 8-aligned and never overlap.
- `src/list_ops.rs`, `src/list_behavior.rs`, `src/list_class.rs`,
  `src/list_advanced.rs`: lists.
- `src/math_class.rs`, `src/math_advanced.rs`, `src/matrix_ops.rs`,
  `src/matrix_literals.rs`, `src/method_style.rs`, `src/json_class.rs`:
  the other classes.
- `src/semantics.rs`: what instruction sequences without loops compute
  (locals, constants, integer arithmetic, loads and stores over memory as
  bytes, `If`/`Else`/`End`), and laws on the helpers that meaning covers:
  list size, first, last, get, push then read back, pop, isEmpty, and
  matrix get and set.
- `app/lib.rs`: conversion of the library's instructions and function table
  to `wasm_encoder` for emission.
- `tests/`: tests of the library; `tests/wasm_exec.rs` runs registered
  bodies in a small interpreter to check what they compute.
