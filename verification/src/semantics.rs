//! What instruction sequences without loops compute: a small-step meaning
//! for the local, constant, integer and memory instructions and for
//! `If`/`Else`/`End`, over a value stack, the locals and linear memory as
//! bytes. Runs that reach any other instruction (loops, branches, calls,
//! floating-point arithmetic) have no meaning here. The laws at the end
//! state what some of the registered helpers compute.

use vstd::prelude::*;
use crate::list_behavior::{ListBehaviorManager, BEHAVIOR_LINE};
use crate::list_class::ListClass;
use crate::math_class::MathClass;
use crate::list_ops::ListManager;
use crate::matrix_ops::MatrixOperations;
use crate::memory::{le_bytes_u32, le_bytes_u64, written};
use crate::wasm::{Instruction, MemArg};

verus! {

/// A value on the stack or in a local: an i32, or the bits of an f64.
pub enum Value {
    I32(i32),
    F64(u64),
}

/// The state a sequence runs in.
pub struct MachineState {
    pub stack: Seq<Value>,
    pub locals: Seq<Value>,
    pub mem: Seq<u8>,
}

/// The unsigned 32-bit word stored little-endian at `a`.
pub open spec fn load_u32(mem: Seq<u8>, a: int) -> u32 {
    (mem[a] as int + 256 * mem[a + 1] as int + 65536 * mem[a + 2] as int + 16777216 * mem[
        a + 3
    ] as int) as u32
}

/// The signed 32-bit word stored little-endian at `a`.
pub open spec fn load_i32(mem: Seq<u8>, a: int) -> i32 {
    load_u32(mem, a) as i32
}

/// The 64-bit word stored little-endian at `a`.
pub open spec fn load_u64(mem: Seq<u8>, a: int) -> u64 {
    (load_u32(mem, a) as int + 4294967296 * load_u32(mem, a + 4) as int) as u64
}

/// The byte address an access with `m` makes from the i32 `base`.
pub open spec fn address(base: i32, m: MemArg) -> int {
    base as u32 as int + m.offset as int
}

/// `s` with its top value replaced by `v`.
pub open spec fn replace_top(s: MachineState, v: Value) -> MachineState {
    MachineState { stack: s.stack.drop_last().push(v), ..s }
}

/// The magnitude bits of an f64 (all but the sign).
pub open spec fn f64_mag(x: u64) -> u64 {
    x & 0x7fff_ffff_ffff_ffffu64
}

/// The biased exponent of an f64.
pub open spec fn f64_exp(x: u64) -> u64 {
    (x >> 52u64) & 0x7ffu64
}

/// Whether an f64 has its sign bit set.
pub open spec fn f64_neg(x: u64) -> bool {
    (x >> 63u64) == 1u64
}

/// Whether the bits are a NaN.
pub open spec fn f64_is_nan(x: u64) -> bool {
    f64_exp(x) == 0x7ffu64 && (x & 0xf_ffff_ffff_ffffu64) != 0u64
}

/// The mantissa bits that stand below the units place of an f64 whose
/// exponent says it is at least 1 and below 2^52.
pub open spec fn fraction_bits(x: u64) -> u64 {
    ((1u64 << ((1075u64 - f64_exp(x)) as u64)) - 1u64) as u64
}

/// Whether an f64 is an integer (zero, infinities and NaN included).
pub open spec fn f64_integral(x: u64) -> bool {
    f64_exp(x) >= 1075u64 || f64_mag(x) == 0u64 || (f64_exp(x) >= 1023u64 && x & fraction_bits(x)
        == 0u64)
}

/// The order of f64 values (for operands that are not NaN): `a <= b`,
/// with +0 and -0 equal.
pub open spec fn f64_le(a: u64, b: u64) -> bool {
    if f64_mag(a) == 0u64 && f64_mag(b) == 0u64 {
        true
    } else if !f64_neg(a) && !f64_neg(b) {
        f64_mag(a) <= f64_mag(b)
    } else if f64_neg(a) && f64_neg(b) {
        f64_mag(a) >= f64_mag(b)
    } else {
        f64_neg(a)
    }
}

/// IEEE 754 rounding toward negative infinity, on the bits of an f64.
pub open spec fn f64_floor(x: u64) -> u64 {
    if f64_exp(x) >= 1075u64 || f64_mag(x) == 0u64 {
        x
    } else if f64_exp(x) < 1023u64 {
        if f64_neg(x) {
            0xbff0_0000_0000_0000u64
        } else {
            0u64
        }
    } else if x & fraction_bits(x) == 0u64 {
        x
    } else if f64_neg(x) {
        ((x & !fraction_bits(x)) + fraction_bits(x) + 1u64) as u64
    } else {
        x & !fraction_bits(x)
    }
}

/// Floor rounds down to an integer and keeps integers as they are.
proof fn lemma_floor_bits(x: u64)
    by (bit_vector)
    requires
        !f64_is_nan(x),
    ensures
        f64_le(f64_floor(x), x),
        f64_integral(f64_floor(x)),
        f64_integral(x) ==> f64_floor(x) == x,
{
}

/// The i32 a binary integer instruction leaves for operands `a` and `b`
/// (comparisons give 1 or 0; arithmetic wraps).
pub open spec fn i32_binop(ins: Instruction, a: i32, b: i32) -> i32 {
    match ins {
        Instruction::I32Add => (a + b) as i32,
        Instruction::I32Sub => (a - b) as i32,
        Instruction::I32Mul => (a * b) as i32,
        Instruction::I32And => a & b,
        Instruction::I32Or => a | b,
        Instruction::I32Eq => if a == b { 1 } else { 0 },
        Instruction::I32Ne => if a != b { 1 } else { 0 },
        Instruction::I32LtS => if a < b { 1 } else { 0 },
        Instruction::I32LtU => if (a as u32) < (b as u32) { 1 } else { 0 },
        Instruction::I32GtS => if a > b { 1 } else { 0 },
        Instruction::I32GtU => if (a as u32) > (b as u32) { 1 } else { 0 },
        Instruction::I32LeU => if (a as u32) <= (b as u32) { 1 } else { 0 },
        Instruction::I32GeS => if a >= b { 1 } else { 0 },
        _ => if (a as u32) >= (b as u32) { 1 } else { 0 },
    }
}

/// The state after one instruction, if it has a meaning here.
pub open spec fn step(s: MachineState, ins: Instruction) -> Option<MachineState> {
    let n = s.stack.len();
    match ins {
        Instruction::LocalGet(i) => if i < s.locals.len() {
            Some(MachineState { stack: s.stack.push(s.locals[i as int]), ..s })
        } else {
            None
        },
        Instruction::LocalSet(i) => if i < s.locals.len() && n >= 1 {
            Some(
                MachineState {
                    stack: s.stack.drop_last(),
                    locals: s.locals.update(i as int, s.stack.last()),
                    ..s
                },
            )
        } else {
            None
        },
        Instruction::LocalTee(i) => if i < s.locals.len() && n >= 1 {
            Some(MachineState { locals: s.locals.update(i as int, s.stack.last()), ..s })
        } else {
            None
        },
        Instruction::Drop => if n >= 1 {
            Some(MachineState { stack: s.stack.drop_last(), ..s })
        } else {
            None
        },
        Instruction::I32Const(c) => Some(MachineState { stack: s.stack.push(Value::I32(c)), ..s }),
        Instruction::F64Const(b) => Some(MachineState { stack: s.stack.push(Value::F64(b)), ..s }),
        Instruction::I32Add | Instruction::I32Sub | Instruction::I32Mul | Instruction::I32And
        | Instruction::I32Or | Instruction::I32Eq | Instruction::I32Ne | Instruction::I32LtS
        | Instruction::I32LtU | Instruction::I32GtS | Instruction::I32GtU | Instruction::I32LeU
        | Instruction::I32GeS | Instruction::I32GeU => if n >= 2 {
            match (s.stack[n - 2], s.stack[n - 1]) {
                (Value::I32(a), Value::I32(b)) => Some(
                    MachineState {
                        stack: s.stack.subrange(0, n - 2).push(Value::I32(i32_binop(ins, a, b))),
                        ..s
                    },
                ),
                _ => None,
            }
        } else {
            None
        },
        Instruction::F64Floor => if n >= 1 {
            match s.stack[n - 1] {
                Value::F64(x) => Some(replace_top(s, Value::F64(f64_floor(x)))),
                _ => None,
            }
        } else {
            None
        },
        Instruction::I32Eqz => if n >= 1 {
            match s.stack[n - 1] {
                Value::I32(a) => Some(replace_top(s, Value::I32(if a == 0 { 1 } else { 0 }))),
                _ => None,
            }
        } else {
            None
        },
        Instruction::I32Load(m) => if n >= 1 {
            match s.stack[n - 1] {
                Value::I32(a) => if address(a, m) + 4 <= s.mem.len() {
                    Some(replace_top(s, Value::I32(load_i32(s.mem, address(a, m)))))
                } else {
                    None
                },
                _ => None,
            }
        } else {
            None
        },
        Instruction::F64Load(m) => if n >= 1 {
            match s.stack[n - 1] {
                Value::I32(a) => if address(a, m) + 8 <= s.mem.len() {
                    Some(replace_top(s, Value::F64(load_u64(s.mem, address(a, m)))))
                } else {
                    None
                },
                _ => None,
            }
        } else {
            None
        },
        Instruction::I32Store(m) => if n >= 2 {
            match (s.stack[n - 2], s.stack[n - 1]) {
                (Value::I32(a), Value::I32(v)) => if address(a, m) + 4 <= s.mem.len() {
                    Some(
                        MachineState {
                            stack: s.stack.subrange(0, n - 2),
                            mem: written(s.mem, address(a, m), le_bytes_u32(v as u32)),
                            ..s
                        },
                    )
                } else {
                    None
                },
                _ => None,
            }
        } else {
            None
        },
        Instruction::I32Store8(m) => if n >= 2 {
            match (s.stack[n - 2], s.stack[n - 1]) {
                (Value::I32(a), Value::I32(v)) => if address(a, m) + 1 <= s.mem.len() {
                    Some(
                        MachineState {
                            stack: s.stack.subrange(0, n - 2),
                            mem: written(s.mem, address(a, m), seq![(v & 0xff) as u8]),
                            ..s
                        },
                    )
                } else {
                    None
                },
                _ => None,
            }
        } else {
            None
        },
        Instruction::F64Store(m) => if n >= 2 {
            match (s.stack[n - 2], s.stack[n - 1]) {
                (Value::I32(a), Value::F64(v)) => if address(a, m) + 8 <= s.mem.len() {
                    Some(
                        MachineState {
                            stack: s.stack.subrange(0, n - 2),
                            mem: written(s.mem, address(a, m), le_bytes_u64(v)),
                            ..s
                        },
                    )
                } else {
                    None
                },
                _ => None,
            }
        } else {
            None
        },
        _ => None,
    }
}

/// The position of the `End` that closes the block in which position `k`
/// stands, `depth` blocks further in; with `at_else`, an `Else` of that
/// block closes it too. `code.len()` where nothing closes it.
pub open spec fn closing(code: Seq<Instruction>, k: nat, depth: nat, at_else: bool) -> nat
    decreases code.len() - k,
{
    if k >= code.len() {
        code.len()
    } else {
        match code[k as int] {
            Instruction::Block(_) | Instruction::Loop(_) | Instruction::If(_) => closing(
                code,
                k + 1,
                depth + 1,
                at_else,
            ),
            Instruction::End => if depth == 0 {
                k
            } else {
                closing(code, k + 1, (depth - 1) as nat, at_else)
            },
            Instruction::Else => if depth == 0 && at_else {
                k
            } else {
                closing(code, k + 1, depth, at_else)
            },
            _ => closing(code, k + 1, depth, at_else),
        }
    }
}

/// The state after the instructions of `code` from position `k` on, if
/// each has a meaning here. An `If` takes its i32 condition from the stack
/// and goes on with its first arm when it is not 0, else just past the
/// `Else` (or `End`) that closes the first arm; reaching that `Else` from
/// the first arm goes on past the block's `End`; an `End` does nothing.
pub open spec fn run_from(s: MachineState, code: Seq<Instruction>, k: nat) -> Option<MachineState>
    decreases code.len() - k,
{
    if k >= code.len() {
        Some(s)
    } else {
        match code[k as int] {
            Instruction::If(_) => if s.stack.len() >= 1 {
                match s.stack.last() {
                    Value::I32(c) => {
                        let t = MachineState { stack: s.stack.drop_last(), ..s };
                        if c != 0 {
                            run_from(t, code, k + 1)
                        } else {
                            let e = closing(code, k + 1, 0, true);
                            if k < e < code.len() {
                                run_from(t, code, e + 1)
                            } else {
                                None
                            }
                        }
                    },
                    _ => None,
                }
            } else {
                None
            },
            Instruction::Else => {
                let e = closing(code, k + 1, 0, false);
                if k < e < code.len() {
                    run_from(s, code, e + 1)
                } else {
                    None
                }
            },
            Instruction::End => run_from(s, code, k + 1),
            _ => match step(s, code[k as int]) {
                Some(t) => run_from(t, code, k + 1),
                None => None,
            },
        }
    }
}

/// The state after running all of `code`.
pub open spec fn run(s: MachineState, code: Seq<Instruction>) -> Option<MachineState> {
    run_from(s, code, 0)
}

/// A run through states that each instruction leads from one to the next
/// ends in the last of them.
proof fn lemma_run_chain(states: Seq<MachineState>, code: Seq<Instruction>, k: nat)
    requires
        states.len() == code.len() + 1,
        forall|j: int| 0 <= j < code.len() ==> step(states[j], code[j]) == Some(states[j + 1]),
        k <= code.len(),
    ensures
        run_from(states[k as int], code, k) == Some(states[code.len() as int]),
    decreases code.len() - k,
{
    if k < code.len() {
        lemma_run_chain(states, code, k + 1);
    }
}

/// A stretch of `code` from position `from` whose instructions each lead
/// from one of `states` to the next can be run in one go.
proof fn lemma_run_segment(states: Seq<MachineState>, code: Seq<Instruction>, from: nat, k: nat)
    requires
        states.len() >= 1,
        from + states.len() - 1 <= code.len(),
        forall|j: int|
            0 <= j < states.len() - 1 ==> step(states[j], #[trigger] code[from + j]) == Some(
                states[j + 1],
            ),
        from <= k <= from + states.len() - 1,
    ensures
        run_from(states[k - from], code, k) == run_from(
            states.last(),
            code,
            (from + states.len() - 1) as nat,
        ),
    decreases from + states.len() - 1 - k,
{
    if k < from + states.len() - 1 {
        let j = k - from;
        assert(step(states[j], code[from + j]) == Some(states[j + 1]));
        assert(code[k as int] == code[from + j]);
        assert(!(code[k as int] is If) && !(code[k as int] is Else) && !(code[k as int] is End));
        lemma_run_segment(states, code, from, k + 1);
    }
}

/// The word written little-endian at `a` is read back there, and words
/// wholly before or past it are unchanged.
pub proof fn lemma_load_after_write_u32(mem: Seq<u8>, a: int, v: u32, b: int)
    requires
        0 <= a,
        a + 4 <= mem.len(),
        b >= a + 4 || (0 <= b && b + 4 <= a),
        b + 4 <= mem.len(),
    ensures
        load_u32(written(mem, a, le_bytes_u32(v)), a) == v,
        load_u32(written(mem, a, le_bytes_u32(v)), b) == load_u32(mem, b),
{
    let w = written(mem, a, le_bytes_u32(v));
    let bs = le_bytes_u32(v);
    assert(w.len() == mem.len());
    assert(w[a] == bs[0] && w[a + 1] == bs[1] && w[a + 2] == bs[2] && w[a + 3] == bs[3]);
    assert(w[b] == mem[b] && w[b + 1] == mem[b + 1] && w[b + 2] == mem[b + 2] && w[b + 3]
        == mem[b + 3]);
    assert(v == (v & 0xff) + 256 * ((v >> 8u32) & 0xff) + 65536 * ((v >> 16u32) & 0xff)
        + 16777216 * ((v >> 24u32) & 0xff)) by (bit_vector);
    assert((v & 0xff) < 256 && ((v >> 8u32) & 0xff) < 256 && ((v >> 16u32) & 0xff) < 256 && ((v
        >> 24u32) & 0xff) < 256) by (bit_vector);
}

/// A call's starting state: an empty stack and the given locals.
pub open spec fn entry(locals: Seq<Value>, mem: Seq<u8>) -> MachineState {
    MachineState { stack: Seq::empty(), locals, mem }
}

/// `list.length` reads a list's size: the word at the list pointer.
pub proof fn lemma_list_length_reads_size(mem: Seq<u8>, l: i32)
    requires
        0 <= l,
        l + 4 <= mem.len(),
    ensures
        run(entry(seq![Value::I32(l)], mem), ListManager::list_length_body()) == Some(
            MachineState {
                stack: seq![Value::I32(load_i32(mem, l as int))],
                locals: seq![Value::I32(l)],
                mem: mem,
            },
        ),
{
    reveal(ListManager::list_length_body);
    let code = ListManager::list_length_body();
    let loc = seq![Value::I32(l)];
    let states = seq![
        MachineState { stack: Seq::<Value>::empty(), locals: loc, mem: mem },
        MachineState { stack: seq![Value::I32(l)], locals: loc, mem: mem },
        MachineState { stack: seq![Value::I32(load_i32(mem, l as int))], locals: loc, mem: mem },
    ];
    assert(code.len() == 2);
    assert forall|k: int| 0 <= k < 2 implies step(states[k], code[k]) == Some(states[k + 1]) by {
        let s = step(states[k], code[k])->0;
        assert(step(states[k], code[k]) is Some);
        assert(s.stack =~= states[k + 1].stack);
        assert(s.locals =~= states[k + 1].locals);
        assert(s.mem =~= states[k + 1].mem);
    }
    lemma_run_chain(states, code, 0);
    assert(states[0] == entry(loc, mem));
}

/// `list.first` reads the element just past the 16-byte header.
pub proof fn lemma_list_first_reads_first_element(mem: Seq<u8>, l: i32)
    requires
        0 <= l,
        l + 20 <= mem.len(),
        l + 20 <= i32::MAX,
    ensures
        run(entry(seq![Value::I32(l)], mem), ListClass::first_body()) == Some(
            MachineState {
                stack: seq![Value::I32(load_i32(mem, l + 16))],
                locals: seq![Value::I32(l)],
                mem: mem,
            },
        ),
{
    reveal(ListClass::first_body);
    let code = ListClass::first_body();
    let loc = seq![Value::I32(l)];
    let states = seq![
        MachineState { stack: Seq::<Value>::empty(), locals: loc, mem: mem },
        MachineState { stack: seq![Value::I32(l)], locals: loc, mem: mem },
        MachineState { stack: seq![Value::I32(l), Value::I32(16)], locals: loc, mem: mem },
        MachineState { stack: seq![Value::I32((l + 16) as i32)], locals: loc, mem: mem },
        MachineState { stack: seq![Value::I32(load_i32(mem, l + 16))], locals: loc, mem: mem },
    ];
    assert(code.len() == 4);
    assert forall|k: int| 0 <= k < 4 implies step(states[k], code[k]) == Some(states[k + 1]) by {
        let s = step(states[k], code[k])->0;
        assert(step(states[k], code[k]) is Some);
        assert(s.stack =~= states[k + 1].stack);
        assert(s.locals =~= states[k + 1].locals);
        assert(s.mem =~= states[k + 1].mem);
    }
    lemma_run_chain(states, code, 0);
    assert(states[0] == entry(loc, mem));
}

/// `list.last` reads the element at index size - 1, past the header.
pub proof fn lemma_list_last_reads_last_element(mem: Seq<u8>, l: i32)
    requires
        0 <= l,
        l + 4 <= mem.len(),
        1 <= load_i32(mem, l as int),
        l + 16 + 4 * load_i32(mem, l as int) <= mem.len(),
        l + 16 + 4 * load_i32(mem, l as int) <= i32::MAX,
    ensures
        run(entry(seq![Value::I32(l)], mem), ListClass::last_body()) == Some(
            MachineState {
                stack: seq![Value::I32(load_i32(mem, l + 16 + 4 * (load_i32(mem, l as int) - 1)))],
                locals: seq![Value::I32(l)],
                mem: mem,
            },
        ),
{
    reveal(ListClass::last_body);
    let code = ListClass::last_body();
    let loc = seq![Value::I32(l)];
    let n = load_i32(mem, l as int);
    let states = seq![
        MachineState { stack: Seq::<Value>::empty(), locals: loc, mem: mem },
        MachineState { stack: seq![Value::I32(l)], locals: loc, mem: mem },
        MachineState { stack: seq![Value::I32(l), Value::I32(l)], locals: loc, mem: mem },
        MachineState { stack: seq![Value::I32(l), Value::I32(n)], locals: loc, mem: mem },
        MachineState { stack: seq![Value::I32(l), Value::I32(n), Value::I32(1)], locals: loc, mem: mem },
        MachineState { stack: seq![Value::I32(l), Value::I32((n - 1) as i32)], locals: loc, mem: mem },
        MachineState { stack: seq![Value::I32(l), Value::I32((n - 1) as i32), Value::I32(4)], locals: loc, mem: mem },
        MachineState { stack: seq![Value::I32(l), Value::I32(((n - 1) * 4) as i32)], locals: loc, mem: mem },
        MachineState { stack: seq![Value::I32(l), Value::I32(((n - 1) * 4) as i32), Value::I32(16)], locals: loc, mem: mem },
        MachineState { stack: seq![Value::I32(l), Value::I32(((n - 1) * 4 + 16) as i32)], locals: loc, mem: mem },
        MachineState { stack: seq![Value::I32((l + ((n - 1) * 4 + 16)) as i32)], locals: loc, mem: mem },
        MachineState { stack: seq![Value::I32(load_i32(mem, l + 16 + 4 * (n - 1)))], locals: loc, mem: mem },
    ];
    assert(code.len() == 11);
    assert forall|k: int| 0 <= k < 11 implies step(states[k], code[k]) == Some(states[k + 1]) by {
        let s = step(states[k], code[k])->0;
        assert(step(states[k], code[k]) is Some);
        assert(s.stack =~= states[k + 1].stack);
        assert(s.locals =~= states[k + 1].locals);
        assert(s.mem =~= states[k + 1].mem);
    }
    lemma_run_chain(states, code, 0);
    assert(states[0] == entry(loc, mem));
}

/// `list.get` reads the element at an index, past the 16-byte header.
pub proof fn lemma_list_get_reads_element(mem: Seq<u8>, l: i32, i: i32)
    requires
        0 <= l,
        0 <= i,
        l + 16 + 4 * i + 4 <= mem.len(),
        l + 16 + 4 * i + 4 <= i32::MAX,
    ensures
        run(entry(seq![Value::I32(l), Value::I32(i)], mem), ListManager::list_get_body()) == Some(
            MachineState {
                stack: seq![Value::I32(load_i32(mem, l + 16 + 4 * i))],
                locals: seq![Value::I32(l), Value::I32(i)],
                mem: mem,
            },
        ),
{
    reveal(ListManager::list_get_body);
    let code = ListManager::list_get_body();
    let loc = seq![Value::I32(l), Value::I32(i)];
    let states = seq![
        MachineState { stack: Seq::<Value>::empty(), locals: loc, mem: mem },
        MachineState { stack: seq![Value::I32(l)], locals: loc, mem: mem },
        MachineState { stack: seq![Value::I32(l), Value::I32(16)], locals: loc, mem: mem },
        MachineState { stack: seq![Value::I32((l + 16) as i32)], locals: loc, mem: mem },
        MachineState { stack: seq![Value::I32((l + 16) as i32), Value::I32(i)], locals: loc, mem: mem },
        MachineState { stack: seq![Value::I32((l + 16) as i32), Value::I32(i), Value::I32(4)], locals: loc, mem: mem },
        MachineState { stack: seq![Value::I32((l + 16) as i32), Value::I32((i * 4) as i32)], locals: loc, mem: mem },
        MachineState { stack: seq![Value::I32((l + 16 + i * 4) as i32)], locals: loc, mem: mem },
        MachineState { stack: seq![Value::I32(load_i32(mem, l + 16 + 4 * i))], locals: loc, mem: mem },
    ];
    assert(code.len() == 8);
    assert forall|k: int| 0 <= k < 8 implies step(states[k], code[k]) == Some(states[k + 1]) by {
        let s = step(states[k], code[k])->0;
        assert(step(states[k], code[k]) is Some);
        assert(s.stack =~= states[k + 1].stack);
        assert(s.locals =~= states[k + 1].locals);
        assert(s.mem =~= states[k + 1].mem);
    }
    lemma_run_chain(states, code, 0);
    assert(states[0] == entry(loc, mem));
}

/// `matrix.get` reads the f64 at row * cols + col, with cols read from the
/// matrix header, past the 12-byte header.
pub proof fn lemma_matrix_get_reads_element(mem: Seq<u8>, m: i32, row: i32, col: i32)
    requires
        0 <= m,
        0 <= row,
        0 <= col,
        m + 8 <= mem.len(),
        0 <= load_i32(mem, m + 4),
        m + 12 + 8 * (row * load_i32(mem, m + 4) + col) + 8 <= mem.len(),
        m + 12 + 8 * (row * load_i32(mem, m + 4) + col) + 8 <= i32::MAX,
    ensures
        run(entry(seq![Value::I32(m), Value::I32(row), Value::I32(col)], mem), MatrixOperations::matrix_get_body()) == Some(
            MachineState {
                stack: seq![Value::F64(load_u64(mem, m + 12 + 8 * (row * load_i32(mem, m + 4) + col)))],
                locals: seq![Value::I32(m), Value::I32(row), Value::I32(col)],
                mem: mem,
            },
        ),
{
    reveal(MatrixOperations::matrix_get_body);
    let code = MatrixOperations::matrix_get_body();
    let loc = seq![Value::I32(m), Value::I32(row), Value::I32(col)];
    let c = load_i32(mem, m + 4);
    let states = seq![
        MachineState { stack: Seq::<Value>::empty(), locals: loc, mem: mem },
        MachineState { stack: seq![Value::I32(m)], locals: loc, mem: mem },
        MachineState { stack: seq![Value::I32(m), Value::I32(12)], locals: loc, mem: mem },
        MachineState { stack: seq![Value::I32((m + 12) as i32)], locals: loc, mem: mem },
        MachineState { stack: seq![Value::I32((m + 12) as i32), Value::I32(row)], locals: loc, mem: mem },
        MachineState { stack: seq![Value::I32((m + 12) as i32), Value::I32(row), Value::I32(m)], locals: loc, mem: mem },
        MachineState { stack: seq![Value::I32((m + 12) as i32), Value::I32(row), Value::I32(c)], locals: loc, mem: mem },
        MachineState { stack: seq![Value::I32((m + 12) as i32), Value::I32((row * c) as i32)], locals: loc, mem: mem },
        MachineState { stack: seq![Value::I32((m + 12) as i32), Value::I32((row * c) as i32), Value::I32(col)], locals: loc, mem: mem },
        MachineState { stack: seq![Value::I32((m + 12) as i32), Value::I32((row * c + col) as i32)], locals: loc, mem: mem },
        MachineState { stack: seq![Value::I32((m + 12) as i32), Value::I32((row * c + col) as i32), Value::I32(8)], locals: loc, mem: mem },
        MachineState { stack: seq![Value::I32((m + 12) as i32), Value::I32(((row * c + col) * 8) as i32)], locals: loc, mem: mem },
        MachineState { stack: seq![Value::I32((m + 12 + (row * c + col) * 8) as i32)], locals: loc, mem: mem },
        MachineState { stack: seq![Value::F64(load_u64(mem, m + 12 + 8 * (row * c + col)))], locals: loc, mem: mem },
    ];
    assert(code.len() == 13);
    assert forall|k: int| 0 <= k < 13 implies step(states[k], code[k]) == Some(states[k + 1]) by {
        let s = step(states[k], code[k])->0;
        assert(step(states[k], code[k]) is Some);
        assert(s.stack =~= states[k + 1].stack);
        assert(s.locals =~= states[k + 1].locals);
        assert(s.mem =~= states[k + 1].mem);
    }
    lemma_run_chain(states, code, 0);
    assert(states[0] == entry(loc, mem));
}

/// `matrix.set` writes the f64 bits at row * cols + col, with cols read from
/// the matrix header, and returns 1.
pub proof fn lemma_matrix_set_writes_element(mem: Seq<u8>, m: i32, row: i32, col: i32, v: u64)
    requires
        0 <= m,
        0 <= row,
        0 <= col,
        m + 8 <= mem.len(),
        0 <= load_i32(mem, m + 4),
        m + 12 + 8 * (row * load_i32(mem, m + 4) + col) + 8 <= mem.len(),
        m + 12 + 8 * (row * load_i32(mem, m + 4) + col) + 8 <= i32::MAX,
    ensures
        run(entry(seq![Value::I32(m), Value::I32(row), Value::I32(col), Value::F64(v)], mem), MatrixOperations::matrix_set_body()) == Some(
            MachineState {
                stack: seq![Value::I32(1)],
                locals: seq![Value::I32(m), Value::I32(row), Value::I32(col), Value::F64(v)],
                mem: written(mem, m + 12 + 8 * (row * load_i32(mem, m + 4) + col), le_bytes_u64(v)),
            },
        ),
{
    reveal(MatrixOperations::matrix_set_body);
    let code = MatrixOperations::matrix_set_body();
    let loc = seq![Value::I32(m), Value::I32(row), Value::I32(col), Value::F64(v)];
    let c = load_i32(mem, m + 4);
    let states = seq![
        MachineState { stack: Seq::<Value>::empty(), locals: loc, mem: mem },
        MachineState { stack: seq![Value::I32(m)], locals: loc, mem: mem },
        MachineState { stack: seq![Value::I32(m), Value::I32(12)], locals: loc, mem: mem },
        MachineState { stack: seq![Value::I32((m + 12) as i32)], locals: loc, mem: mem },
        MachineState { stack: seq![Value::I32((m + 12) as i32), Value::I32(row)], locals: loc, mem: mem },
        MachineState { stack: seq![Value::I32((m + 12) as i32), Value::I32(row), Value::I32(m)], locals: loc, mem: mem },
        MachineState { stack: seq![Value::I32((m + 12) as i32), Value::I32(row), Value::I32(c)], locals: loc, mem: mem },
        MachineState { stack: seq![Value::I32((m + 12) as i32), Value::I32((row * c) as i32)], locals: loc, mem: mem },
        MachineState { stack: seq![Value::I32((m + 12) as i32), Value::I32((row * c) as i32), Value::I32(col)], locals: loc, mem: mem },
        MachineState { stack: seq![Value::I32((m + 12) as i32), Value::I32((row * c + col) as i32)], locals: loc, mem: mem },
        MachineState { stack: seq![Value::I32((m + 12) as i32), Value::I32((row * c + col) as i32), Value::I32(8)], locals: loc, mem: mem },
        MachineState { stack: seq![Value::I32((m + 12) as i32), Value::I32(((row * c + col) * 8) as i32)], locals: loc, mem: mem },
        MachineState { stack: seq![Value::I32((m + 12 + (row * c + col) * 8) as i32)], locals: loc, mem: mem },
        MachineState { stack: seq![Value::I32((m + 12 + (row * c + col) * 8) as i32), Value::F64(v)], locals: loc, mem: mem },
        MachineState { stack: Seq::<Value>::empty(), locals: loc, mem: written(mem, m + 12 + 8 * (row * c + col), le_bytes_u64(v)) },
        MachineState { stack: seq![Value::I32(1)], locals: loc, mem: written(mem, m + 12 + 8 * (row * c + col), le_bytes_u64(v)) },
    ];
    assert(code.len() == 15);
    assert forall|k: int| 0 <= k < 15 implies step(states[k], code[k]) == Some(states[k + 1]) by {
        let s = step(states[k], code[k])->0;
        assert(step(states[k], code[k]) is Some);
        assert(s.stack =~= states[k + 1].stack);
        assert(s.locals =~= states[k + 1].locals);
        assert(s.mem =~= states[k + 1].mem);
    }
    lemma_run_chain(states, code, 0);
    assert(states[0] == entry(loc, mem));
}

/// Where the arms of `list.pop`'s `If` end.
proof fn lemma_pop_arms()
    ensures
        closing(ListClass::pop_body(), 4, 0, true) == 5,
        closing(ListClass::pop_body(), 6, 0, false) == 19,
        ListClass::pop_body().len() == 20,
{
    reveal(ListClass::pop_body);
    reveal_with_fuel(closing, 16);
}

/// `list.pop` up to its `If`: the size, tested for 0, is on the stack.
proof fn lemma_pop_head(mem: Seq<u8>, l: i32)
    requires
        0 <= l,
        l + 4 <= mem.len(),
    ensures
        run(entry(seq![Value::I32(l)], mem), ListClass::pop_body()) == run_from(
            MachineState {
                stack: seq![Value::I32(if load_i32(mem, l as int) == 0 { 1 } else { 0 })],
                locals: seq![Value::I32(l)],
                mem: mem,
            },
            ListClass::pop_body(),
            3,
        ),
{
    reveal(ListClass::pop_body);
    let code = ListClass::pop_body();
    let loc = seq![Value::I32(l)];
    let n = load_i32(mem, l as int);
    let head = seq![
        MachineState { stack: Seq::<Value>::empty(), locals: loc, mem: mem },
        MachineState { stack: seq![Value::I32(l)], locals: loc, mem: mem },
        MachineState { stack: seq![Value::I32(n)], locals: loc, mem: mem },
        MachineState { stack: seq![Value::I32(if n == 0 { 1 } else { 0 })], locals: loc, mem: mem },
    ];
    assert forall|j: int| 0 <= j < 3 implies step(head[j], #[trigger] code[0 + j]) == Some(head[j + 1]) by {
        let s = step(head[j], code[j])->0;
        assert(step(head[j], code[j]) is Some);
        assert(s.stack =~= head[j + 1].stack);
        assert(s.locals =~= head[j + 1].locals);
        assert(s.mem =~= head[j + 1].mem);
    }
    lemma_run_segment(head, code, 0, 0);
    assert(head[0] == entry(loc, mem));
}

/// `list.pop`'s second arm, from just past its `Else`.
#[verifier::rlimit(40)]
proof fn lemma_pop_second_arm(mem: Seq<u8>, l: i32)
    requires
        0 <= l,
        l + 4 <= mem.len(),
        1 <= load_i32(mem, l as int),
        l + 16 + 4 * load_i32(mem, l as int) <= mem.len(),
        l + 16 + 4 * load_i32(mem, l as int) <= i32::MAX,
    ensures
        run_from(
            MachineState { stack: Seq::<Value>::empty(), locals: seq![Value::I32(l)], mem: mem },
            ListClass::pop_body(),
            6,
        ) == Some(
            MachineState {
                stack: seq![Value::I32(load_i32(mem, l + 16 + 4 * (load_i32(mem, l as int) - 1)))],
                locals: seq![Value::I32(l)],
                mem: written(mem, l as int, le_bytes_u32((load_i32(mem, l as int) - 1) as u32)),
            },
        ),
{
    reveal(ListClass::pop_body);
    let code = ListClass::pop_body();
    let loc = seq![Value::I32(l)];
    let n = load_i32(mem, l as int);
    let m2 = written(mem, l as int, le_bytes_u32((n - 1) as u32));
    lemma_load_after_write_u32(mem, l as int, (n - 1) as u32, l + 16 + 4 * (n - 1));
    assert(load_i32(m2, l as int) == n - 1);
    assert(load_i32(m2, l + 16 + 4 * (n - 1)) == load_i32(mem, l + 16 + 4 * (n - 1)));
    let a = (l + (n - 1) * 4) as i32;
    let tail = seq![
        MachineState { stack: Seq::<Value>::empty(), locals: loc, mem: mem },
        MachineState { stack: seq![Value::I32(l)], locals: loc, mem: mem },
        MachineState { stack: seq![Value::I32(l), Value::I32(l)], locals: loc, mem: mem },
        MachineState { stack: seq![Value::I32(l), Value::I32(n)], locals: loc, mem: mem },
        MachineState { stack: seq![Value::I32(l), Value::I32(n), Value::I32(1)], locals: loc, mem: mem },
        MachineState { stack: seq![Value::I32(l), Value::I32((n - 1) as i32)], locals: loc, mem: mem },
        MachineState { stack: Seq::<Value>::empty(), locals: loc, mem: m2 },
        MachineState { stack: seq![Value::I32(l)], locals: loc, mem: m2 },
        MachineState { stack: seq![Value::I32(l), Value::I32(l)], locals: loc, mem: m2 },
        MachineState { stack: seq![Value::I32(l), Value::I32((n - 1) as i32)], locals: loc, mem: m2 },
        MachineState { stack: seq![Value::I32(l), Value::I32((n - 1) as i32), Value::I32(4)], locals: loc, mem: m2 },
        MachineState { stack: seq![Value::I32(l), Value::I32(((n - 1) * 4) as i32)], locals: loc, mem: m2 },
        MachineState { stack: seq![Value::I32(a)], locals: loc, mem: m2 },
        MachineState { stack: seq![Value::I32(load_i32(mem, l + 16 + 4 * (n - 1)))], locals: loc, mem: m2 },
    ];
    assert(code.len() == 20);
    assert forall|j: int| 0 <= j < 13 implies step(tail[j], #[trigger] code[6 + j]) == Some(tail[j + 1]) by {
        let s = step(tail[j], code[6 + j])->0;
        assert(step(tail[j], code[6 + j]) is Some);
        assert(s.stack =~= tail[j + 1].stack);
        assert(s.locals =~= tail[j + 1].locals);
        assert(s.mem =~= tail[j + 1].mem);
    }
    lemma_run_segment(tail, code, 6, 6);
    assert(code[19] is End);
    assert(run_from(tail.last(), code, 20) == Some(tail.last()));
    assert(run_from(tail.last(), code, 19) == Some(tail.last()));
    assert(tail[0] =~= MachineState { stack: Seq::<Value>::empty(), locals: loc, mem: mem });
}

/// `list.pop` removes and returns the last element: on a list of size
/// n >= 1 it writes n - 1 as the size and returns the element at index
/// n - 1; on an empty list it returns 0 and changes nothing.
pub proof fn lemma_list_pop_takes_last(mem: Seq<u8>, l: i32)
    requires
        0 <= l,
        l + 4 <= mem.len(),
        0 <= load_i32(mem, l as int),
        l + 16 + 4 * load_i32(mem, l as int) <= mem.len(),
        l + 16 + 4 * load_i32(mem, l as int) <= i32::MAX,
    ensures
        load_i32(mem, l as int) == 0 ==> run(entry(seq![Value::I32(l)], mem), ListClass::pop_body())
            == Some(MachineState { stack: seq![Value::I32(0)], locals: seq![Value::I32(l)], mem: mem }),
        load_i32(mem, l as int) >= 1 ==> run(entry(seq![Value::I32(l)], mem), ListClass::pop_body())
            == Some(
            MachineState {
                stack: seq![Value::I32(load_i32(mem, l + 16 + 4 * (load_i32(mem, l as int) - 1)))],
                locals: seq![Value::I32(l)],
                mem: written(mem, l as int, le_bytes_u32((load_i32(mem, l as int) - 1) as u32)),
            },
        ),
{
    let code = ListClass::pop_body();
    let loc = seq![Value::I32(l)];
    let n = load_i32(mem, l as int);
    lemma_pop_head(mem, l);
    lemma_pop_arms();
    let empty = MachineState { stack: Seq::<Value>::empty(), locals: loc, mem: mem };
    let top = MachineState {
        stack: seq![Value::I32(if n == 0 { 1 } else { 0 })],
        locals: loc,
        mem: mem,
    };
    assert(top.stack.drop_last() =~= Seq::<Value>::empty());
    assert(code[3] is If) by {
        reveal(ListClass::pop_body);
    }
    if n == 0 {
        let zero = MachineState { stack: seq![Value::I32(0)], locals: loc, mem: mem };
        assert(code[4] == Instruction::I32Const(0) && code[5] is Else) by {
            reveal(ListClass::pop_body);
        }
        assert(step(empty, code[4]) == Some(zero)) by {
            assert(step(empty, code[4])->0.stack =~= zero.stack);
        }
        assert(run_from(top, code, 3) == run_from(empty, code, 4));
        assert(run_from(empty, code, 4) == run_from(zero, code, 5));
        assert(run_from(zero, code, 5) == run_from(zero, code, 20));
    } else {
        assert(run_from(top, code, 3) == run_from(empty, code, 6));
        lemma_pop_second_arm(mem, l);
    }
}

/// `list.size`, as the list class and the list behaviours register it,
/// reads the same size word as `list.length`.
pub proof fn lemma_list_size_reads_size(mem: Seq<u8>, l: i32)
    requires
        0 <= l,
        l + 4 <= mem.len(),
    ensures
        run(entry(seq![Value::I32(l)], mem), ListClass::list_size_instructions_body()) == Some(
            MachineState {
                stack: seq![Value::I32(load_i32(mem, l as int))],
                locals: seq![Value::I32(l)],
                mem: mem,
            },
        ),
        run(entry(seq![Value::I32(l)], mem), ListBehaviorManager::list_size_body()) == Some(
            MachineState {
                stack: seq![Value::I32(load_i32(mem, l as int))],
                locals: seq![Value::I32(l)],
                mem: mem,
            },
        ),
{
    reveal(ListClass::list_size_instructions_body);
    reveal(ListBehaviorManager::list_size_body);
    reveal(ListManager::list_length_body);
    assert(ListClass::list_size_instructions_body() =~= ListManager::list_length_body());
    assert(ListBehaviorManager::list_size_body() =~= ListManager::list_length_body());
    lemma_list_length_reads_size(mem, l);
}

/// `list.isEmpty` gives 1 when the size word is 0 and 0 otherwise.
pub proof fn lemma_list_is_empty_tests_size(mem: Seq<u8>, l: i32)
    requires
        0 <= l,
        l + 4 <= mem.len(),
    ensures
        run(entry(seq![Value::I32(l)], mem), ListBehaviorManager::list_is_empty_body()) == Some(
            MachineState {
                stack: seq![Value::I32(if load_i32(mem, l as int) == 0 { 1 } else { 0 })],
                locals: seq![Value::I32(l)],
                mem: mem,
            },
        ),
{
    reveal(ListBehaviorManager::list_is_empty_body);
    let code = ListBehaviorManager::list_is_empty_body();
    let loc = seq![Value::I32(l)];
    let n = load_i32(mem, l as int);
    let states = seq![
        MachineState { stack: Seq::<Value>::empty(), locals: loc, mem: mem },
        MachineState { stack: seq![Value::I32(l)], locals: loc, mem: mem },
        MachineState { stack: seq![Value::I32(n)], locals: loc, mem: mem },
        MachineState { stack: seq![Value::I32(if n == 0 { 1 } else { 0 })], locals: loc, mem: mem },
    ];
    assert(code.len() == 3);
    assert forall|k: int| 0 <= k < 3 implies step(states[k], code[k]) == Some(states[k + 1]) by {
        let s = step(states[k], code[k])->0;
        assert(step(states[k], code[k]) is Some);
        assert(s.stack =~= states[k + 1].stack);
        assert(s.locals =~= states[k + 1].locals);
        assert(s.mem =~= states[k + 1].mem);
    }
    lemma_run_chain(states, code, 0);
    assert(states[0] == entry(loc, mem));
}

/// `list.push` (of the list operations) stores the value at index n, past
/// the 16-byte header, then writes n + 1 as the size, and returns the list.
#[verifier::rlimit(80)]
#[verifier::spinoff_prover]
pub proof fn lemma_list_push_appends(mem: Seq<u8>, l: i32, v: i32)
    requires
        0 <= l,
        l + 4 <= mem.len(),
        0 <= load_i32(mem, l as int),
        l + 16 + 4 * load_i32(mem, l as int) + 4 <= mem.len(),
        l + 16 + 4 * load_i32(mem, l as int) + 4 <= i32::MAX,
    ensures
        run(entry(seq![Value::I32(l), Value::I32(v)], mem), ListManager::list_push_body()) == Some(
            MachineState {
                stack: seq![Value::I32(l)],
                locals: seq![Value::I32(l), Value::I32(v)],
                mem: written(
                    written(mem, l + 16 + 4 * load_i32(mem, l as int), le_bytes_u32(v as u32)),
                    l as int,
                    le_bytes_u32((load_i32(mem, l as int) + 1) as u32),
                ),
            },
        ),
{
    reveal(ListManager::list_push_body);
    let code = ListManager::list_push_body();
    let loc = seq![Value::I32(l), Value::I32(v)];
    let n = load_i32(mem, l as int);
    let a = l + 16 + 4 * n;
    let m1 = written(mem, a, le_bytes_u32(v as u32));
    let m2 = written(m1, l as int, le_bytes_u32((n + 1) as u32));
    lemma_load_after_write_u32(mem, a, v as u32, l as int);
    assert(load_i32(m1, l as int) == n);
    let states = seq![
        MachineState { stack: Seq::<Value>::empty(), locals: loc, mem: mem },
        MachineState { stack: seq![Value::I32(l)], locals: loc, mem: mem },
        MachineState { stack: seq![Value::I32(n)], locals: loc, mem: mem },
        MachineState { stack: seq![Value::I32(n), Value::I32(4)], locals: loc, mem: mem },
        MachineState { stack: seq![Value::I32((n * 4) as i32)], locals: loc, mem: mem },
        MachineState { stack: seq![Value::I32((n * 4) as i32), Value::I32(16)], locals: loc, mem: mem },
        MachineState { stack: seq![Value::I32((n * 4 + 16) as i32)], locals: loc, mem: mem },
        MachineState { stack: seq![Value::I32((n * 4 + 16) as i32), Value::I32(l)], locals: loc, mem: mem },
        MachineState { stack: seq![Value::I32(a as i32)], locals: loc, mem: mem },
        MachineState { stack: seq![Value::I32(a as i32), Value::I32(v)], locals: loc, mem: mem },
        MachineState { stack: Seq::<Value>::empty(), locals: loc, mem: m1 },
        MachineState { stack: seq![Value::I32(l)], locals: loc, mem: m1 },
        MachineState { stack: seq![Value::I32(l), Value::I32(l)], locals: loc, mem: m1 },
        MachineState { stack: seq![Value::I32(l), Value::I32(n)], locals: loc, mem: m1 },
        MachineState { stack: seq![Value::I32(l), Value::I32(n), Value::I32(1)], locals: loc, mem: m1 },
        MachineState { stack: seq![Value::I32(l), Value::I32((n + 1) as i32)], locals: loc, mem: m1 },
        MachineState { stack: Seq::<Value>::empty(), locals: loc, mem: m2 },
        MachineState { stack: seq![Value::I32(l)], locals: loc, mem: m2 },
    ];
    assert(code.len() == 17);
    assert forall|k: int| 0 <= k < 17 implies step(states[k], code[k]) == Some(states[k + 1]) by {
        let s = step(states[k], code[k])->0;
        assert(step(states[k], code[k]) is Some);
        assert(s.stack =~= states[k + 1].stack);
        assert(s.locals =~= states[k + 1].locals);
        assert(s.mem =~= states[k + 1].mem);
    }
    lemma_run_chain(states, code, 0);
    assert(states[0] == entry(loc, mem));
}

/// What `list.get` and `list.length` read after a `list.push`: the pushed
/// value at index n, the earlier elements unchanged, and size n + 1.
pub proof fn lemma_list_push_then_read(mem: Seq<u8>, l: i32, v: i32, i: i32)
    requires
        0 <= l,
        l + 4 <= mem.len(),
        0 <= load_i32(mem, l as int),
        l + 16 + 4 * load_i32(mem, l as int) + 4 <= mem.len(),
        l + 16 + 4 * load_i32(mem, l as int) + 4 <= i32::MAX,
        0 <= i <= load_i32(mem, l as int),
    ensures
        ({
            let n = load_i32(mem, l as int);
            let after = run(entry(seq![Value::I32(l), Value::I32(v)], mem), ListManager::list_push_body())->0.mem;
            &&& run(entry(seq![Value::I32(l), Value::I32(i)], after), ListManager::list_get_body())->0.stack
                == seq![Value::I32(if i == n { v } else { load_i32(mem, l + 16 + 4 * i) })]
            &&& run(entry(seq![Value::I32(l)], after), ListManager::list_length_body())->0.stack
                == seq![Value::I32((n + 1) as i32)]
        }),
{
    let n = load_i32(mem, l as int);
    let a = l + 16 + 4 * n;
    let m1 = written(mem, a, le_bytes_u32(v as u32));
    let m2 = written(m1, l as int, le_bytes_u32((n + 1) as u32));
    lemma_list_push_appends(mem, l, v);
    assert(m1.len() == mem.len() && m2.len() == mem.len());
    lemma_load_after_write_u32(m1, l as int, (n + 1) as u32, l + 16 + 4 * i);
    assert(((v as u32) as i32) == v) by (bit_vector);
    if i < n {
        lemma_load_after_write_u32(mem, a, v as u32, l + 16 + 4 * i);
        assert(load_i32(m1, l + 16 + 4 * i) == load_i32(mem, l + 16 + 4 * i));
    } else {
        lemma_load_after_write_u32(mem, a, v as u32, l as int);
        assert(load_i32(m1, a) == v);
    }
    lemma_list_get_reads_element(m2, l, i);
    lemma_list_length_reads_size(m2, l);
}

/// Where the arms of `list.peek`'s two `If`s end.
proof fn lemma_peek_arms()
    ensures
        ListBehaviorManager::list_peek_body().len() == 29,
        closing(ListBehaviorManager::list_peek_body(), 4, 0, true) == 5,
        closing(ListBehaviorManager::list_peek_body(), 6, 0, false) == 28,
        closing(ListBehaviorManager::list_peek_body(), 13, 0, true) == 15,
        closing(ListBehaviorManager::list_peek_body(), 16, 0, false) == 27,
{
    reveal(ListBehaviorManager::list_peek_body);
    reveal_with_fuel(closing, 25);
}

/// `list.peek` from just past its first `Else`: it reads the behaviour
/// word into local 1 and tests the line bit.
proof fn lemma_peek_behaviour_test(mem: Seq<u8>, l: i32)
    requires
        0 <= l,
        l + 16 <= mem.len(),
    ensures
        run_from(
            MachineState { stack: Seq::<Value>::empty(), locals: seq![Value::I32(l), Value::I32(0)], mem: mem },
            ListBehaviorManager::list_peek_body(),
            6,
        ) == run_from(
            MachineState {
                stack: seq![Value::I32(load_i32(mem, l + 12) & BEHAVIOR_LINE)],
                locals: seq![Value::I32(l), Value::I32(load_i32(mem, l + 12))],
                mem: mem,
            },
            ListBehaviorManager::list_peek_body(),
            12,
        ),
{
    reveal(ListBehaviorManager::list_peek_body);
    let code = ListBehaviorManager::list_peek_body();
    let w = load_i32(mem, l + 12);
    let l0 = seq![Value::I32(l), Value::I32(0)];
    let l1 = seq![Value::I32(l), Value::I32(w)];
    let sts = seq![
        MachineState { stack: Seq::<Value>::empty(), locals: l0, mem: mem },
        MachineState { stack: seq![Value::I32(l)], locals: l0, mem: mem },
        MachineState { stack: seq![Value::I32(w)], locals: l0, mem: mem },
        MachineState { stack: Seq::<Value>::empty(), locals: l1, mem: mem },
        MachineState { stack: seq![Value::I32(w)], locals: l1, mem: mem },
        MachineState { stack: seq![Value::I32(w), Value::I32(BEHAVIOR_LINE)], locals: l1, mem: mem },
        MachineState { stack: seq![Value::I32(w & BEHAVIOR_LINE)], locals: l1, mem: mem },
    ];
    assert forall|j: int| 0 <= j < 6 implies step(sts[j], #[trigger] code[6 + j]) == Some(sts[j + 1]) by {
        let s = step(sts[j], code[6 + j])->0;
        assert(step(sts[j], code[6 + j]) is Some);
        assert(s.stack =~= sts[j + 1].stack);
        assert(s.locals =~= sts[j + 1].locals);
        assert(s.mem =~= sts[j + 1].mem);
    }
    lemma_run_segment(sts, code, 6, 6);
}

/// `list.peek` looks without taking: on a non-empty list whose behaviour
/// word has the line bit it gives the front element (index 0, the one
/// `list.remove` takes from such a list), on another non-empty list the
/// last element, and on an empty list 0. Memory is never changed.
#[verifier::rlimit(80)]
#[verifier::spinoff_prover]
pub proof fn lemma_list_peek_looks_at_the_next_element(mem: Seq<u8>, l: i32)
    requires
        0 <= l,
        l + 16 <= mem.len(),
        0 <= load_i32(mem, l as int),
        l + 16 + 4 * load_i32(mem, l as int) <= mem.len(),
        l + 16 + 4 * load_i32(mem, l as int) <= i32::MAX,
    ensures
        ({
            let n = load_i32(mem, l as int);
            let w = load_i32(mem, l + 12);
            let r = run(entry(seq![Value::I32(l), Value::I32(0)], mem), ListBehaviorManager::list_peek_body());
            &&& r is Some
            &&& r->0.mem == mem
            &&& n == 0 ==> r->0.stack == seq![Value::I32(0)]
            &&& n >= 1 && w & BEHAVIOR_LINE != 0 ==> r->0.stack == seq![Value::I32(load_i32(mem, l + 16))]
            &&& n >= 1 && w & BEHAVIOR_LINE == 0 ==> r->0.stack == seq![
                Value::I32(load_i32(mem, l + 16 + 4 * (n - 1))),
            ]
        }),
{
    let code = ListBehaviorManager::list_peek_body();
    let n = load_i32(mem, l as int);
    let w = load_i32(mem, l + 12);
    let l0 = seq![Value::I32(l), Value::I32(0)];
    let l1 = seq![Value::I32(l), Value::I32(w)];
    lemma_peek_arms();
    assert(code[3] is If && code[5] is Else && code[12] is If && code[15] is Else && code[27] is End
        && code[28] is End && code[4] == Instruction::I32Const(0)) by {
        reveal(ListBehaviorManager::list_peek_body);
    }
    let head = seq![
        MachineState { stack: Seq::<Value>::empty(), locals: l0, mem: mem },
        MachineState { stack: seq![Value::I32(l)], locals: l0, mem: mem },
        MachineState { stack: seq![Value::I32(n)], locals: l0, mem: mem },
        MachineState { stack: seq![Value::I32(if n == 0 { 1 } else { 0 })], locals: l0, mem: mem },
    ];
    assert forall|j: int| 0 <= j < 3 implies step(head[j], #[trigger] code[0 + j]) == Some(head[j + 1]) by {
        reveal(ListBehaviorManager::list_peek_body);
        let s = step(head[j], code[j])->0;
        assert(step(head[j], code[j]) is Some);
        assert(s.stack =~= head[j + 1].stack);
        assert(s.locals =~= head[j + 1].locals);
        assert(s.mem =~= head[j + 1].mem);
    }
    lemma_run_segment(head, code, 0, 0);
    assert(head[0] == entry(l0, mem));
    let empty0 = MachineState { stack: Seq::<Value>::empty(), locals: l0, mem: mem };
    assert(head.last().stack.drop_last() =~= Seq::<Value>::empty());
    if n == 0 {
        let zero = MachineState { stack: seq![Value::I32(0)], locals: l0, mem: mem };
        assert(step(empty0, code[4]) == Some(zero)) by {
            assert(step(empty0, code[4])->0.stack =~= zero.stack);
        }
        assert(run_from(head.last(), code, 3) == run_from(empty0, code, 4));
        assert(run_from(empty0, code, 4) == run_from(zero, code, 5));
        assert(run_from(zero, code, 5) == run_from(zero, code, 29));
    } else {
        assert(run_from(head.last(), code, 3) == run_from(empty0, code, 6));
        lemma_peek_behaviour_test(mem, l);
        let t = MachineState { stack: seq![Value::I32(w & BEHAVIOR_LINE)], locals: l1, mem: mem };
        let e1 = MachineState { stack: Seq::<Value>::empty(), locals: l1, mem: mem };
        assert(t.stack.drop_last() =~= Seq::<Value>::empty());
        if w & BEHAVIOR_LINE != 0 {
            assert(run_from(t, code, 12) == run_from(e1, code, 13));
            lemma_peek_front(mem, l);
        } else {
            assert(run_from(t, code, 12) == run_from(e1, code, 16));
            lemma_peek_back(mem, l);
        }
    }
}

/// `list.peek`'s line arm.
proof fn lemma_peek_front(mem: Seq<u8>, l: i32)
    requires
        0 <= l,
        l + 20 <= mem.len(),
        l + 20 <= i32::MAX,
    ensures
        ({
            let l1 = seq![Value::I32(l), Value::I32(load_i32(mem, l + 12))];
            run_from(MachineState { stack: Seq::<Value>::empty(), locals: l1, mem: mem }, ListBehaviorManager::list_peek_body(), 13)
                == Some(MachineState { stack: seq![Value::I32(load_i32(mem, l + 16))], locals: l1, mem: mem })
        }),
{
    reveal(ListBehaviorManager::list_peek_body);
    lemma_peek_arms();
    let code = ListBehaviorManager::list_peek_body();
    let l1 = seq![Value::I32(l), Value::I32(load_i32(mem, l + 12))];
    let sts = seq![
        MachineState { stack: Seq::<Value>::empty(), locals: l1, mem: mem },
        MachineState { stack: seq![Value::I32(l)], locals: l1, mem: mem },
        MachineState { stack: seq![Value::I32(load_i32(mem, l + 16))], locals: l1, mem: mem },
    ];
    assert forall|j: int| 0 <= j < 2 implies step(sts[j], #[trigger] code[13 + j]) == Some(sts[j + 1]) by {
        let s = step(sts[j], code[13 + j])->0;
        assert(step(sts[j], code[13 + j]) is Some);
        assert(s.stack =~= sts[j + 1].stack);
        assert(s.locals =~= sts[j + 1].locals);
        assert(s.mem =~= sts[j + 1].mem);
    }
    lemma_run_segment(sts, code, 13, 13);
    assert(run_from(sts.last(), code, 29) == Some(sts.last()));
    assert(run_from(sts.last(), code, 28) == Some(sts.last()));
    assert(run_from(sts.last(), code, 15) == Some(sts.last()));
}

/// `list.peek`'s arm for other lists.
#[verifier::rlimit(40)]
proof fn lemma_peek_back(mem: Seq<u8>, l: i32)
    requires
        0 <= l,
        l + 16 <= mem.len(),
        1 <= load_i32(mem, l as int),
        l + 16 + 4 * load_i32(mem, l as int) <= mem.len(),
        l + 16 + 4 * load_i32(mem, l as int) <= i32::MAX,
    ensures
        ({
            let l1 = seq![Value::I32(l), Value::I32(load_i32(mem, l + 12))];
            run_from(MachineState { stack: Seq::<Value>::empty(), locals: l1, mem: mem }, ListBehaviorManager::list_peek_body(), 16)
                == Some(MachineState {
                    stack: seq![Value::I32(load_i32(mem, l + 16 + 4 * (load_i32(mem, l as int) - 1)))],
                    locals: l1,
                    mem: mem,
                })
        }),
{
    reveal(ListBehaviorManager::list_peek_body);
    let code = ListBehaviorManager::list_peek_body();
    let n = load_i32(mem, l as int);
    let l1 = seq![Value::I32(l), Value::I32(load_i32(mem, l + 12))];
    let sts = seq![
        MachineState { stack: Seq::<Value>::empty(), locals: l1, mem: mem },
        MachineState { stack: seq![Value::I32(l)], locals: l1, mem: mem },
        MachineState { stack: seq![Value::I32(l), Value::I32(16)], locals: l1, mem: mem },
        MachineState { stack: seq![Value::I32((l + 16) as i32)], locals: l1, mem: mem },
        MachineState { stack: seq![Value::I32((l + 16) as i32), Value::I32(l)], locals: l1, mem: mem },
        MachineState { stack: seq![Value::I32((l + 16) as i32), Value::I32(n)], locals: l1, mem: mem },
        MachineState { stack: seq![Value::I32((l + 16) as i32), Value::I32(n), Value::I32(1)], locals: l1, mem: mem },
        MachineState { stack: seq![Value::I32((l + 16) as i32), Value::I32((n - 1) as i32)], locals: l1, mem: mem },
        MachineState { stack: seq![Value::I32((l + 16) as i32), Value::I32((n - 1) as i32), Value::I32(4)], locals: l1, mem: mem },
        MachineState { stack: seq![Value::I32((l + 16) as i32), Value::I32(((n - 1) * 4) as i32)], locals: l1, mem: mem },
        MachineState { stack: seq![Value::I32((l + 16 + (n - 1) * 4) as i32)], locals: l1, mem: mem },
        MachineState { stack: seq![Value::I32(load_i32(mem, l + 16 + 4 * (n - 1)))], locals: l1, mem: mem },
    ];
    assert(code.len() == 29);
    assert forall|j: int| 0 <= j < 11 implies step(sts[j], #[trigger] code[16 + j]) == Some(sts[j + 1]) by {
        let s = step(sts[j], code[16 + j])->0;
        assert(step(sts[j], code[16 + j]) is Some);
        assert(s.stack =~= sts[j + 1].stack);
        assert(s.locals =~= sts[j + 1].locals);
        assert(s.mem =~= sts[j + 1].mem);
    }
    lemma_run_segment(sts, code, 16, 16);
    assert(run_from(sts.last(), code, 29) == Some(sts.last()));
    assert(run_from(sts.last(), code, 28) == Some(sts.last()));
    assert(run_from(sts.last(), code, 27) == Some(sts.last()));
}

/// `math.floor` rounds down: its result is an integer no greater than its
/// argument, and an integer argument comes back unchanged.
pub proof fn lemma_math_floor_rounds_down(mem: Seq<u8>, x: u64)
    ensures
        run(entry(seq![Value::F64(x)], mem), MathClass::math_floor_instructions_body()) == Some(
            MachineState { stack: seq![Value::F64(f64_floor(x))], locals: seq![Value::F64(x)], mem: mem },
        ),
        !f64_is_nan(x) ==> f64_le(f64_floor(x), x) && f64_integral(f64_floor(x)),
        !f64_is_nan(x) && f64_integral(x) ==> f64_floor(x) == x,
{
    reveal(MathClass::math_floor_instructions_body);
    let code = MathClass::math_floor_instructions_body();
    let loc = seq![Value::F64(x)];
    let states = seq![
        MachineState { stack: Seq::<Value>::empty(), locals: loc, mem: mem },
        MachineState { stack: seq![Value::F64(x)], locals: loc, mem: mem },
        MachineState { stack: seq![Value::F64(f64_floor(x))], locals: loc, mem: mem },
    ];
    assert(code.len() == 2);
    assert forall|k: int| 0 <= k < 2 implies step(states[k], code[k]) == Some(states[k + 1]) by {
        let s = step(states[k], code[k])->0;
        assert(step(states[k], code[k]) is Some);
        assert(s.stack =~= states[k + 1].stack);
        assert(s.locals =~= states[k + 1].locals);
        assert(s.mem =~= states[k + 1].mem);
    }
    lemma_run_chain(states, code, 0);
    assert(states[0] == entry(loc, mem));
    if !f64_is_nan(x) {
        lemma_floor_bits(x);
    }
}

} // verus!
