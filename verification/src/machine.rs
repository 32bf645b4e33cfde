//! Executing whole bodies, loops and calls included: a small-step machine
//! over configurations (state, position, open labels) that runs with a
//! budget of steps. Floating-point arithmetic and the functions a body
//! calls are parameters (`Env`): what is proved here holds for every
//! meaning of them. The laws state what some of the registered helpers
//! compute.

use vstd::prelude::*;
use crate::semantics::{
    MachineState, Value, step, closing, entry, load_i32, load_u32, load_u64,
    lemma_load_after_write_u32,
};
use crate::memory::{le_bytes_u32, le_bytes_u64, written};
use crate::json_class::JsonClass;
use crate::matrix_ops::MatrixOperations;
use crate::wasm::{BlockType, Instruction, MemArg, ValType};

verus! {

/// What a body meets outside itself: f64 arithmetic on the bits of its
/// operands, and the functions it calls.
pub struct Env {
    pub f64_add: spec_fn(u64, u64) -> u64,
    pub f64_sub: spec_fn(u64, u64) -> u64,
    pub f64_mul: spec_fn(u64, u64) -> u64,
    pub f64_div: spec_fn(u64, u64) -> u64,
    /// How many arguments the function with each index takes.
    pub arity: spec_fn(u32) -> nat,
    /// What a call returns (its results and the memory it leaves), if it
    /// returns.
    pub call: spec_fn(u32, Seq<Value>, Seq<u8>) -> Option<(Seq<Value>, Seq<u8>)>,
}

/// An open structured block: where it starts, the stack height at its
/// entry and how many values a branch out of it carries.
pub struct Label {
    pub is_loop: bool,
    pub start: nat,
    pub height: nat,
    pub arity: nat,
}

/// Where a run stands.
pub struct Config {
    pub st: MachineState,
    pub pc: nat,
    pub labels: Seq<Label>,
    pub done: bool,
}

/// The number of values a block of type `bt` leaves.
pub open spec fn block_arity(bt: BlockType) -> nat {
    match bt {
        BlockType::Empty => 0,
        BlockType::Result(_) => 1,
    }
}

/// `c` at the next position with state `t`.
pub open spec fn advance(c: Config, t: MachineState) -> Config {
    Config { st: t, pc: c.pc + 1, ..c }
}

/// A branch to the label `d` levels out (the function body itself when
/// `d` counts every open label).
pub open spec fn branch(code: Seq<Instruction>, c: Config, d: u32) -> Option<Config> {
    let s = c.st;
    let n = s.stack.len();
    if d == c.labels.len() {
        Some(Config { done: true, ..c })
    } else if d < c.labels.len() {
        let k = c.labels.len() - 1 - d;
        let lab = c.labels[k];
        if lab.is_loop && lab.height <= n {
            Some(
                Config {
                    st: MachineState { stack: s.stack.subrange(0, lab.height as int), ..s },
                    pc: lab.start + 1,
                    labels: c.labels.subrange(0, k + 1),
                    done: false,
                },
            )
        } else if !lab.is_loop && lab.height + lab.arity <= n {
            let e = closing(code, lab.start + 1, 0, false);
            if e < code.len() {
                Some(
                    Config {
                        st: MachineState {
                            stack: s.stack.subrange(0, lab.height as int) + s.stack.subrange(
                                n - lab.arity,
                                n as int,
                            ),
                            ..s
                        },
                        pc: e + 1,
                        labels: c.labels.subrange(0, k),
                        done: false,
                    },
                )
            } else {
                None
            }
        } else {
            None
        }
    } else {
        None
    }
}

/// The configuration after one instruction, if it has a meaning.
#[verifier::opaque]
pub open spec fn next(env: Env, code: Seq<Instruction>, c: Config) -> Option<Config> {
    let s = c.st;
    let n = s.stack.len();
    let pc = c.pc;
    if c.done || pc >= code.len() {
        None
    } else {
        match code[pc as int] {
            Instruction::Block(bt) => Some(
                Config {
                    pc: pc + 1,
                    labels: c.labels.push(
                        Label { is_loop: false, start: pc, height: n, arity: block_arity(bt) },
                    ),
                    ..c
                },
            ),
            Instruction::Loop(_) => Some(
                Config {
                    pc: pc + 1,
                    labels: c.labels.push(Label { is_loop: true, start: pc, height: n, arity: 0 }),
                    ..c
                },
            ),
            Instruction::If(bt) => if n >= 1 {
                match s.stack.last() {
                    Value::I32(v) => {
                        let t = MachineState { stack: s.stack.drop_last(), ..s };
                        let lab = Label {
                            is_loop: false,
                            start: pc,
                            height: (n - 1) as nat,
                            arity: block_arity(bt),
                        };
                        if v != 0 {
                            Some(Config { st: t, pc: pc + 1, labels: c.labels.push(lab), ..c })
                        } else {
                            let e = closing(code, pc + 1, 0, true);
                            if e < code.len() && code[e as int] is Else {
                                Some(Config { st: t, pc: e + 1, labels: c.labels.push(lab), ..c })
                            } else if e < code.len() {
                                Some(Config { st: t, pc: e + 1, ..c })
                            } else {
                                None
                            }
                        }
                    },
                    _ => None,
                }
            } else {
                None
            },
            Instruction::Else => {
                let e = closing(code, pc + 1, 0, false);
                if c.labels.len() >= 1 && e < code.len() {
                    Some(Config { pc: e + 1, labels: c.labels.drop_last(), ..c })
                } else {
                    None
                }
            },
            Instruction::End => Some(
                Config {
                    pc: pc + 1,
                    labels: if c.labels.len() >= 1 {
                        c.labels.drop_last()
                    } else {
                        c.labels
                    },
                    ..c
                },
            ),
            Instruction::Br(d) => branch(code, c, d),
            Instruction::BrIf(d) => if n >= 1 {
                match s.stack.last() {
                    Value::I32(v) => {
                        let t = Config { st: MachineState { stack: s.stack.drop_last(), ..s }, ..c };
                        if v != 0 {
                            branch(code, t, d)
                        } else {
                            Some(Config { pc: pc + 1, ..t })
                        }
                    },
                    _ => None,
                }
            } else {
                None
            },
            Instruction::Return => Some(Config { done: true, ..c }),
            Instruction::Call(f) => {
                let k = (env.arity)(f);
                if k <= n {
                    match (env.call)(f, s.stack.subrange(n - k, n as int), s.mem) {
                        Some(res) => Some(
                            advance(
                                c,
                                MachineState {
                                    stack: s.stack.subrange(0, n - k) + res.0,
                                    mem: res.1,
                                    ..s
                                },
                            ),
                        ),
                        None => None,
                    }
                } else {
                    None
                }
            },
            Instruction::F64Add | Instruction::F64Sub | Instruction::F64Mul | Instruction::F64Div => if n
                >= 2 {
                match (s.stack[n - 2], s.stack[n - 1]) {
                    (Value::F64(x), Value::F64(y)) => {
                        let r = match code[pc as int] {
                            Instruction::F64Add => (env.f64_add)(x, y),
                            Instruction::F64Sub => (env.f64_sub)(x, y),
                            Instruction::F64Mul => (env.f64_mul)(x, y),
                            _ => (env.f64_div)(x, y),
                        };
                        Some(
                            advance(
                                c,
                                MachineState {
                                    stack: s.stack.subrange(0, n - 2).push(Value::F64(r)),
                                    ..s
                                },
                            ),
                        )
                    },
                    _ => None,
                }
            } else {
                None
            },
            _ => match step(s, code[pc as int]) {
                Some(t) => Some(advance(c, t)),
                None => None,
            },
        }
    }
}

/// The state a run from `c` ends in within `fuel` steps: when the body
/// returns or runs past its last instruction.
pub open spec fn exec(env: Env, code: Seq<Instruction>, c: Config, fuel: nat) -> Option<MachineState>
    decreases fuel,
{
    if c.done || c.pc >= code.len() {
        Some(c.st)
    } else if fuel == 0 {
        None
    } else {
        match next(env, code, c) {
            Some(d) => exec(env, code, d, (fuel - 1) as nat),
            None => None,
        }
    }
}

/// The configuration a call starts in.
pub open spec fn start(locals: Seq<Value>, mem: Seq<u8>) -> Config {
    Config { st: entry(locals, mem), pc: 0, labels: Seq::empty(), done: false }
}

/// Configurations that each step leads from one to the next can be run
/// in one go.
pub proof fn lemma_exec_chain(env: Env, code: Seq<Instruction>, cs: Seq<Config>, k: nat, fuel: nat)
    requires
        cs.len() >= 1,
        forall|j: int| 0 <= j < cs.len() - 1 ==> next(env, code, #[trigger] cs[j]) == Some(cs[j + 1]),
        k < cs.len(),
        fuel >= cs.len() - 1 - k,
    ensures
        exec(env, code, cs[k as int], fuel) == exec(env, code, cs.last(), (fuel - (cs.len() - 1 - k)) as nat),
    decreases cs.len() - k,
{
    if k < cs.len() - 1 {
        assert(next(env, code, cs[k as int]) == Some(cs[(k + 1) as int]));
        assert(!cs[k as int].done && cs[k as int].pc < code.len()) by {
            reveal(next);
        }
        lemma_exec_chain(env, code, cs, k + 1, (fuel - 1) as nat);
    }
}

/// The word written little-endian at `a` is read back there, and 8-byte
/// words wholly before or past it are unchanged.
pub proof fn lemma_load_after_write_u64(mem: Seq<u8>, a: int, v: u64, b: int)
    requires
        0 <= a,
        a + 8 <= mem.len(),
        b >= a + 8 || (0 <= b && b + 8 <= a),
        b + 8 <= mem.len(),
    ensures
        load_u64(written(mem, a, le_bytes_u64(v)), a) == v,
        load_u64(written(mem, a, le_bytes_u64(v)), b) == load_u64(mem, b),
{
    let w = written(mem, a, le_bytes_u64(v));
    let bs = le_bytes_u64(v);
    assert(w.len() == mem.len());
    assert forall|i: int| 0 <= i < 8 implies w[a + i] == bs[i] && w[b + i] == mem[b + i] by {}
    assert(w[a] == bs[0] && w[a + 1] == bs[1] && w[a + 2] == bs[2] && w[a + 3] == bs[3]);
    assert(w[a + 4] == bs[4] && w[a + 5] == bs[5] && w[a + 6] == bs[6] && w[a + 7] == bs[7]);
    assert(w[b] == mem[b] && w[b + 1] == mem[b + 1] && w[b + 2] == mem[b + 2] && w[b + 3] == mem[b + 3]);
    assert(w[b + 4] == mem[b + 4] && w[b + 5] == mem[b + 5] && w[b + 6] == mem[b + 6] && w[b + 7] == mem[b + 7]);
    lemma_u64_bytes(v);
}

/// A 64-bit word is the sum of its little-endian bytes.
proof fn lemma_u64_bytes(v: u64)
    ensures
        (v as int == ((v & 0xff) as u8) as int + 256 * (((v >> 8u64) & 0xff) as u8) as int + 65536 * (((v
            >> 16u64) & 0xff) as u8) as int + 16777216 * (((v >> 24u64) & 0xff) as u8) as int
            + 4294967296 * (((v >> 32u64) & 0xff) as u8) as int + 1099511627776 * (((v >> 40u64)
            & 0xff) as u8) as int + 281474976710656 * (((v >> 48u64) & 0xff) as u8) as int
            + 72057594037927936 * (((v >> 56u64) & 0xff) as u8) as int),
        (4294967296 > ((v & 0xff) as u8) as int + 256 * (((v >> 8u64) & 0xff) as u8) as int + 65536 * (((v >> 16u64)
            & 0xff) as u8) as int + 16777216 * (((v >> 24u64) & 0xff) as u8) as int),
        (4294967296 > (((v >> 32u64) & 0xff) as u8) as int + 256 * (((v >> 40u64) & 0xff) as u8) as int + 65536 * (((v
            >> 48u64) & 0xff) as u8) as int + 16777216 * (((v >> 56u64) & 0xff) as u8) as int),
{
    assert(v == (v & 0xff) + 256 * ((v >> 8u64) & 0xff) + 65536 * ((v >> 16u64) & 0xff) + 16777216
        * ((v >> 24u64) & 0xff) + 4294967296 * ((v >> 32u64) & 0xff) + 1099511627776 * ((v >> 40u64)
        & 0xff) + 281474976710656 * ((v >> 48u64) & 0xff) + 72057594037927936 * ((v >> 56u64) & 0xff))
        by (bit_vector);
    assert((v & 0xff) < 256 && ((v >> 8u64) & 0xff) < 256 && ((v >> 16u64) & 0xff) < 256 && ((v
        >> 24u64) & 0xff) < 256 && ((v >> 32u64) & 0xff) < 256 && ((v >> 40u64) & 0xff) < 256 && ((v
        >> 48u64) & 0xff) < 256 && ((v >> 56u64) & 0xff) < 256) by (bit_vector);
}

/// The locals of `matrix.add`: the three matrices, then rows, columns,
/// element count and the loop index.
pub open spec fn add_locals(a: i32, b: i32, r: i32, rows: i32, cols: i32, n: i32, i: i32) -> Seq<Value> {
    seq![
        Value::I32(a),
        Value::I32(b),
        Value::I32(r),
        Value::I32(rows),
        Value::I32(cols),
        Value::I32(n),
        Value::I32(i),
    ]
}

/// The labels open inside `matrix.add`'s loop.
pub open spec fn add_labels() -> Seq<Label> {
    seq![
        Label { is_loop: false, start: 15, height: 0, arity: 1 },
        Label { is_loop: false, start: 28, height: 0, arity: 0 },
        Label { is_loop: true, start: 29, height: 0, arity: 0 },
    ]
}

/// Memory `m` after `k` passes of `matrix.add`'s loop: each pass stores,
/// at element i of `r`, the f64 sum of element i of `a` and `b` as it then
/// reads them.
pub open spec fn sums(env: Env, m: Seq<u8>, a: int, b: int, r: int, k: nat) -> Seq<u8>
    decreases k,
{
    if k == 0 {
        m
    } else {
        let p = sums(env, m, a, b, r, (k - 1) as nat);
        let i = k - 1;
        written(
            p,
            r + 12 + 8 * i,
            le_bytes_u64((env.f64_add)(load_u64(p, a + 12 + 8 * i), load_u64(p, b + 12 + 8 * i))),
        )
    }
}

/// Where the blocks of `matrix.add` end.
proof fn lemma_add_closings()
    ensures
        MatrixOperations::matrix_add_body().len() == 73,
        closing(MatrixOperations::matrix_add_body(), 29, 0, false) == 68,
        closing(MatrixOperations::matrix_add_body(), 71, 0, false) == 72,
        closing(MatrixOperations::matrix_add_body(), 16, 0, true) == 70,
{
    reveal(MatrixOperations::matrix_add_body);
    reveal_with_fuel(closing, 60);
}

/// The first stretch of a pass of `matrix.add`'s loop: the test and the target address.
#[verifier::rlimit(80)]
#[verifier::spinoff_prover]
proof fn lemma_add_pass_a(env: Env, a: i32, b: i32, r: i32, rows: i32, cols: i32, m: Seq<u8>, k: nat, fuel: nat)
    requires
        0 <= a,
        0 <= b,
        0 <= r,
        0 <= rows,
        0 <= cols,
        k < rows * cols,
        a + 12 + 8 * (rows * cols) <= i32::MAX,
        b + 12 + 8 * (rows * cols) <= i32::MAX,
        r + 12 + 8 * (rows * cols) <= i32::MAX,
        a + 12 + 8 * (rows * cols) <= m.len(),
        b + 12 + 8 * (rows * cols) <= m.len(),
        r + 12 + 8 * (rows * cols) <= m.len(),
        sums(env, m, a as int, b as int, r as int, k).len() == m.len(),
        fuel >= 14,
    ensures
        ({
            let n = (rows * cols) as i32;
            let kk = k as i32;
            let mk = sums(env, m, a as int, b as int, r as int, k);
            let m1 = sums(env, m, a as int, b as int, r as int, (k + 1) as nat);
            let e8 = (kk * 8) as i32;
            let r12 = (r + 12) as i32;
            let rr = (r12 + e8) as i32;
            let a12 = (a + 12) as i32;
            let aa = (a12 + e8) as i32;
            let b12 = (b + 12) as i32;
            let bb = (b12 + e8) as i32;
            let x = load_u64(mk, aa as int);
            let y = load_u64(mk, bb as int);
            let lk = add_locals(a, b, r, rows, cols, n, kk);
            let lk1 = add_locals(a, b, r, rows, cols, n, (kk + 1) as i32);
            exec(env, MatrixOperations::matrix_add_body(), Config { st: MachineState { stack: Seq::<Value>::empty(), locals: lk, mem: mk }, pc: 30, labels: add_labels(), done: false }, fuel) == exec(env, MatrixOperations::matrix_add_body(), Config { st: MachineState { stack: seq![Value::I32(e8), Value::I32(rr)], locals: lk, mem: mk }, pc: 44, labels: add_labels(), done: false }, (fuel - 14) as nat)
        }),
{
    reveal(MatrixOperations::matrix_add_body);
    let code = MatrixOperations::matrix_add_body();
    let n = (rows * cols) as i32;
    let kk = k as i32;
    let mk = sums(env, m, a as int, b as int, r as int, k);
    let m1 = sums(env, m, a as int, b as int, r as int, (k + 1) as nat);
    let e8 = (kk * 8) as i32;
    let r12 = (r + 12) as i32;
    let rr = (r12 + e8) as i32;
    let a12 = (a + 12) as i32;
    let aa = (a12 + e8) as i32;
    let b12 = (b + 12) as i32;
    let bb = (b12 + e8) as i32;
    let x = load_u64(mk, aa as int);
    let y = load_u64(mk, bb as int);
    let lk = add_locals(a, b, r, rows, cols, n, kk);
    let lk1 = add_locals(a, b, r, rows, cols, n, (kk + 1) as i32);
    let cs = seq![
        Config { st: MachineState { stack: Seq::<Value>::empty(), locals: lk, mem: mk }, pc: 30, labels: add_labels(), done: false },
        Config { st: MachineState { stack: seq![Value::I32(kk)], locals: lk, mem: mk }, pc: 31, labels: add_labels(), done: false },
        Config { st: MachineState { stack: seq![Value::I32(kk), Value::I32(n)], locals: lk, mem: mk }, pc: 32, labels: add_labels(), done: false },
        Config { st: MachineState { stack: seq![Value::I32(0)], locals: lk, mem: mk }, pc: 33, labels: add_labels(), done: false },
        Config { st: MachineState { stack: Seq::<Value>::empty(), locals: lk, mem: mk }, pc: 34, labels: add_labels(), done: false },
        Config { st: MachineState { stack: seq![Value::I32(kk)], locals: lk, mem: mk }, pc: 35, labels: add_labels(), done: false },
        Config { st: MachineState { stack: seq![Value::I32(kk), Value::I32(8)], locals: lk, mem: mk }, pc: 36, labels: add_labels(), done: false },
        Config { st: MachineState { stack: seq![Value::I32(e8)], locals: lk, mem: mk }, pc: 37, labels: add_labels(), done: false },
        Config { st: MachineState { stack: seq![Value::I32(e8), Value::I32(r)], locals: lk, mem: mk }, pc: 38, labels: add_labels(), done: false },
        Config { st: MachineState { stack: seq![Value::I32(e8), Value::I32(r), Value::I32(12)], locals: lk, mem: mk }, pc: 39, labels: add_labels(), done: false },
        Config { st: MachineState { stack: seq![Value::I32(e8), Value::I32(r12)], locals: lk, mem: mk }, pc: 40, labels: add_labels(), done: false },
        Config { st: MachineState { stack: seq![Value::I32(e8), Value::I32(r12), Value::I32(kk)], locals: lk, mem: mk }, pc: 41, labels: add_labels(), done: false },
        Config { st: MachineState { stack: seq![Value::I32(e8), Value::I32(r12), Value::I32(kk), Value::I32(8)], locals: lk, mem: mk }, pc: 42, labels: add_labels(), done: false },
        Config { st: MachineState { stack: seq![Value::I32(e8), Value::I32(r12), Value::I32(e8)], locals: lk, mem: mk }, pc: 43, labels: add_labels(), done: false },
        Config { st: MachineState { stack: seq![Value::I32(e8), Value::I32(rr)], locals: lk, mem: mk }, pc: 44, labels: add_labels(), done: false },
    ];
    assert forall|j: int| 0 <= j < 14 implies next(env, code, #[trigger] cs[j]) == Some(cs[j + 1]) by {
        reveal(next);
        let d = next(env, code, cs[j])->0;
        assert(next(env, code, cs[j]) is Some);
        assert(d.st.stack =~= cs[j + 1].st.stack);
        assert(d.st.locals =~= cs[j + 1].st.locals);
        assert(d.st.mem =~= cs[j + 1].st.mem);
        assert(d.labels =~= cs[j + 1].labels);
    }
    lemma_exec_chain(env, code, cs, 0, fuel);
}

/// The second stretch of a pass: reading element k of the first matrix.
#[verifier::rlimit(80)]
#[verifier::spinoff_prover]
proof fn lemma_add_pass_b(env: Env, a: i32, b: i32, r: i32, rows: i32, cols: i32, m: Seq<u8>, k: nat, fuel: nat)
    requires
        0 <= a,
        0 <= b,
        0 <= r,
        0 <= rows,
        0 <= cols,
        k < rows * cols,
        a + 12 + 8 * (rows * cols) <= i32::MAX,
        b + 12 + 8 * (rows * cols) <= i32::MAX,
        r + 12 + 8 * (rows * cols) <= i32::MAX,
        a + 12 + 8 * (rows * cols) <= m.len(),
        b + 12 + 8 * (rows * cols) <= m.len(),
        r + 12 + 8 * (rows * cols) <= m.len(),
        sums(env, m, a as int, b as int, r as int, k).len() == m.len(),
        fuel >= 15,
    ensures
        ({
            let n = (rows * cols) as i32;
            let kk = k as i32;
            let mk = sums(env, m, a as int, b as int, r as int, k);
            let m1 = sums(env, m, a as int, b as int, r as int, (k + 1) as nat);
            let e8 = (kk * 8) as i32;
            let r12 = (r + 12) as i32;
            let rr = (r12 + e8) as i32;
            let a12 = (a + 12) as i32;
            let aa = (a12 + e8) as i32;
            let b12 = (b + 12) as i32;
            let bb = (b12 + e8) as i32;
            let x = load_u64(mk, aa as int);
            let y = load_u64(mk, bb as int);
            let lk = add_locals(a, b, r, rows, cols, n, kk);
            let lk1 = add_locals(a, b, r, rows, cols, n, (kk + 1) as i32);
            exec(env, MatrixOperations::matrix_add_body(), Config { st: MachineState { stack: seq![Value::I32(e8), Value::I32(rr)], locals: lk, mem: mk }, pc: 44, labels: add_labels(), done: false }, fuel) == exec(env, MatrixOperations::matrix_add_body(), Config { st: MachineState { stack: seq![Value::I32(e8), Value::I32(rr), Value::F64(x), Value::I32(bb)], locals: lk, mem: mk }, pc: 59, labels: add_labels(), done: false }, (fuel - 15) as nat)
        }),
{
    reveal(MatrixOperations::matrix_add_body);
    let code = MatrixOperations::matrix_add_body();
    let n = (rows * cols) as i32;
    let kk = k as i32;
    let mk = sums(env, m, a as int, b as int, r as int, k);
    let m1 = sums(env, m, a as int, b as int, r as int, (k + 1) as nat);
    let e8 = (kk * 8) as i32;
    let r12 = (r + 12) as i32;
    let rr = (r12 + e8) as i32;
    let a12 = (a + 12) as i32;
    let aa = (a12 + e8) as i32;
    let b12 = (b + 12) as i32;
    let bb = (b12 + e8) as i32;
    let x = load_u64(mk, aa as int);
    let y = load_u64(mk, bb as int);
    let lk = add_locals(a, b, r, rows, cols, n, kk);
    let lk1 = add_locals(a, b, r, rows, cols, n, (kk + 1) as i32);
    let cs = seq![
        Config { st: MachineState { stack: seq![Value::I32(e8), Value::I32(rr)], locals: lk, mem: mk }, pc: 44, labels: add_labels(), done: false },
        Config { st: MachineState { stack: seq![Value::I32(e8), Value::I32(rr), Value::I32(a)], locals: lk, mem: mk }, pc: 45, labels: add_labels(), done: false },
        Config { st: MachineState { stack: seq![Value::I32(e8), Value::I32(rr), Value::I32(a), Value::I32(12)], locals: lk, mem: mk }, pc: 46, labels: add_labels(), done: false },
        Config { st: MachineState { stack: seq![Value::I32(e8), Value::I32(rr), Value::I32(a12)], locals: lk, mem: mk }, pc: 47, labels: add_labels(), done: false },
        Config { st: MachineState { stack: seq![Value::I32(e8), Value::I32(rr), Value::I32(a12), Value::I32(kk)], locals: lk, mem: mk }, pc: 48, labels: add_labels(), done: false },
        Config { st: MachineState { stack: seq![Value::I32(e8), Value::I32(rr), Value::I32(a12), Value::I32(kk), Value::I32(8)], locals: lk, mem: mk }, pc: 49, labels: add_labels(), done: false },
        Config { st: MachineState { stack: seq![Value::I32(e8), Value::I32(rr), Value::I32(a12), Value::I32(e8)], locals: lk, mem: mk }, pc: 50, labels: add_labels(), done: false },
        Config { st: MachineState { stack: seq![Value::I32(e8), Value::I32(rr), Value::I32(aa)], locals: lk, mem: mk }, pc: 51, labels: add_labels(), done: false },
        Config { st: MachineState { stack: seq![Value::I32(e8), Value::I32(rr), Value::F64(x)], locals: lk, mem: mk }, pc: 52, labels: add_labels(), done: false },
        Config { st: MachineState { stack: seq![Value::I32(e8), Value::I32(rr), Value::F64(x), Value::I32(b)], locals: lk, mem: mk }, pc: 53, labels: add_labels(), done: false },
        Config { st: MachineState { stack: seq![Value::I32(e8), Value::I32(rr), Value::F64(x), Value::I32(b), Value::I32(12)], locals: lk, mem: mk }, pc: 54, labels: add_labels(), done: false },
        Config { st: MachineState { stack: seq![Value::I32(e8), Value::I32(rr), Value::F64(x), Value::I32(b12)], locals: lk, mem: mk }, pc: 55, labels: add_labels(), done: false },
        Config { st: MachineState { stack: seq![Value::I32(e8), Value::I32(rr), Value::F64(x), Value::I32(b12), Value::I32(kk)], locals: lk, mem: mk }, pc: 56, labels: add_labels(), done: false },
        Config { st: MachineState { stack: seq![Value::I32(e8), Value::I32(rr), Value::F64(x), Value::I32(b12), Value::I32(kk), Value::I32(8)], locals: lk, mem: mk }, pc: 57, labels: add_labels(), done: false },
        Config { st: MachineState { stack: seq![Value::I32(e8), Value::I32(rr), Value::F64(x), Value::I32(b12), Value::I32(e8)], locals: lk, mem: mk }, pc: 58, labels: add_labels(), done: false },
        Config { st: MachineState { stack: seq![Value::I32(e8), Value::I32(rr), Value::F64(x), Value::I32(bb)], locals: lk, mem: mk }, pc: 59, labels: add_labels(), done: false },
    ];
    assert forall|j: int| 0 <= j < 15 implies next(env, code, #[trigger] cs[j]) == Some(cs[j + 1]) by {
        reveal(next);
        let d = next(env, code, cs[j])->0;
        assert(next(env, code, cs[j]) is Some);
        assert(d.st.stack =~= cs[j + 1].st.stack);
        assert(d.st.locals =~= cs[j + 1].st.locals);
        assert(d.st.mem =~= cs[j + 1].st.mem);
        assert(d.labels =~= cs[j + 1].labels);
    }
    lemma_exec_chain(env, code, cs, 0, fuel);
}

/// The last stretch of a pass: the sum, its store and the next index.
#[verifier::rlimit(80)]
#[verifier::spinoff_prover]
proof fn lemma_add_pass_c(env: Env, a: i32, b: i32, r: i32, rows: i32, cols: i32, m: Seq<u8>, k: nat, fuel: nat)
    requires
        0 <= a,
        0 <= b,
        0 <= r,
        0 <= rows,
        0 <= cols,
        k < rows * cols,
        a + 12 + 8 * (rows * cols) <= i32::MAX,
        b + 12 + 8 * (rows * cols) <= i32::MAX,
        r + 12 + 8 * (rows * cols) <= i32::MAX,
        a + 12 + 8 * (rows * cols) <= m.len(),
        b + 12 + 8 * (rows * cols) <= m.len(),
        r + 12 + 8 * (rows * cols) <= m.len(),
        sums(env, m, a as int, b as int, r as int, k).len() == m.len(),
        fuel >= 8,
    ensures
        ({
            let n = (rows * cols) as i32;
            let kk = k as i32;
            let mk = sums(env, m, a as int, b as int, r as int, k);
            let m1 = sums(env, m, a as int, b as int, r as int, (k + 1) as nat);
            let e8 = (kk * 8) as i32;
            let r12 = (r + 12) as i32;
            let rr = (r12 + e8) as i32;
            let a12 = (a + 12) as i32;
            let aa = (a12 + e8) as i32;
            let b12 = (b + 12) as i32;
            let bb = (b12 + e8) as i32;
            let x = load_u64(mk, aa as int);
            let y = load_u64(mk, bb as int);
            let lk = add_locals(a, b, r, rows, cols, n, kk);
            let lk1 = add_locals(a, b, r, rows, cols, n, (kk + 1) as i32);
            exec(env, MatrixOperations::matrix_add_body(), Config { st: MachineState { stack: seq![Value::I32(e8), Value::I32(rr), Value::F64(x), Value::I32(bb)], locals: lk, mem: mk }, pc: 59, labels: add_labels(), done: false }, fuel) == exec(env, MatrixOperations::matrix_add_body(), Config { st: MachineState { stack: Seq::<Value>::empty(), locals: lk1, mem: m1 }, pc: 30, labels: add_labels(), done: false }, (fuel - 8) as nat)
        }),
{
    reveal(MatrixOperations::matrix_add_body);
    let code = MatrixOperations::matrix_add_body();
    let n = (rows * cols) as i32;
    let kk = k as i32;
    let mk = sums(env, m, a as int, b as int, r as int, k);
    let m1 = sums(env, m, a as int, b as int, r as int, (k + 1) as nat);
    let e8 = (kk * 8) as i32;
    let r12 = (r + 12) as i32;
    let rr = (r12 + e8) as i32;
    let a12 = (a + 12) as i32;
    let aa = (a12 + e8) as i32;
    let b12 = (b + 12) as i32;
    let bb = (b12 + e8) as i32;
    let x = load_u64(mk, aa as int);
    let y = load_u64(mk, bb as int);
    let lk = add_locals(a, b, r, rows, cols, n, kk);
    let lk1 = add_locals(a, b, r, rows, cols, n, (kk + 1) as i32);
    let cs = seq![
        Config { st: MachineState { stack: seq![Value::I32(e8), Value::I32(rr), Value::F64(x), Value::I32(bb)], locals: lk, mem: mk }, pc: 59, labels: add_labels(), done: false },
        Config { st: MachineState { stack: seq![Value::I32(e8), Value::I32(rr), Value::F64(x), Value::F64(y)], locals: lk, mem: mk }, pc: 60, labels: add_labels(), done: false },
        Config { st: MachineState { stack: seq![Value::I32(e8), Value::I32(rr), Value::F64((env.f64_add)(x, y))], locals: lk, mem: mk }, pc: 61, labels: add_labels(), done: false },
        Config { st: MachineState { stack: seq![Value::I32(e8)], locals: lk, mem: m1 }, pc: 62, labels: add_labels(), done: false },
        Config { st: MachineState { stack: seq![Value::I32(e8), Value::I32(kk)], locals: lk, mem: m1 }, pc: 63, labels: add_labels(), done: false },
        Config { st: MachineState { stack: seq![Value::I32(e8), Value::I32(kk), Value::I32(1)], locals: lk, mem: m1 }, pc: 64, labels: add_labels(), done: false },
        Config { st: MachineState { stack: seq![Value::I32(e8), Value::I32((kk + 1) as i32)], locals: lk, mem: m1 }, pc: 65, labels: add_labels(), done: false },
        Config { st: MachineState { stack: seq![Value::I32(e8)], locals: lk1, mem: m1 }, pc: 66, labels: add_labels(), done: false },
        Config { st: MachineState { stack: Seq::<Value>::empty(), locals: lk1, mem: m1 }, pc: 30, labels: add_labels(), done: false },
    ];
    assert forall|j: int| 0 <= j < 8 implies next(env, code, #[trigger] cs[j]) == Some(cs[j + 1]) by {
        reveal(next);
        let d = next(env, code, cs[j])->0;
        assert(next(env, code, cs[j]) is Some);
        assert(d.st.stack =~= cs[j + 1].st.stack);
        assert(d.st.locals =~= cs[j + 1].st.locals);
        assert(d.st.mem =~= cs[j + 1].st.mem);
        assert(d.labels =~= cs[j + 1].labels);
    }
    lemma_exec_chain(env, code, cs, 0, fuel);
}

/// `matrix.add` up to its `If`: both shapes read and compared.
#[verifier::rlimit(80)]
#[verifier::spinoff_prover]
proof fn lemma_add_compare(env: Env, mem: Seq<u8>, a: i32, b: i32, r: i32, fuel: nat)
    requires
        0 <= a,
        0 <= b,
        a + 8 <= mem.len(),
        b + 8 <= mem.len(),
        a + 8 <= i32::MAX,
        b + 8 <= i32::MAX,
        fuel >= 15,
    ensures
        ({
            let rows = load_i32(mem, a as int);
            let cols = load_i32(mem, a + 4);
            let rb = load_i32(mem, b as int);
            let cb = load_i32(mem, b + 4);
            let e1: i32 = if rb == rows { 1 } else { 0 };
            let e2: i32 = if cb == cols { 1 } else { 0 };
            let l0 = add_locals(a, b, r, 0, 0, 0, 0);
            let l1 = add_locals(a, b, r, rows, 0, 0, 0);
            let l2 = add_locals(a, b, r, rows, cols, 0, 0);
            exec(env, MatrixOperations::matrix_add_body(), Config { st: MachineState { stack: Seq::<Value>::empty(), locals: l0, mem: mem }, pc: 0, labels: Seq::<Label>::empty(), done: false }, fuel) == exec(env, MatrixOperations::matrix_add_body(), Config { st: MachineState { stack: seq![Value::I32(e1 & e2)], locals: l2, mem: mem }, pc: 15, labels: Seq::<Label>::empty(), done: false }, (fuel - 15) as nat)
        }),
{
    reveal(MatrixOperations::matrix_add_body);
    let code = MatrixOperations::matrix_add_body();
    let rows = load_i32(mem, a as int);
    let cols = load_i32(mem, a + 4);
    let rb = load_i32(mem, b as int);
    let cb = load_i32(mem, b + 4);
    let e1: i32 = if rb == rows { 1 } else { 0 };
    let e2: i32 = if cb == cols { 1 } else { 0 };
    let l0 = add_locals(a, b, r, 0, 0, 0, 0);
    let l1 = add_locals(a, b, r, rows, 0, 0, 0);
    let l2 = add_locals(a, b, r, rows, cols, 0, 0);
    let cs = seq![
        Config { st: MachineState { stack: Seq::<Value>::empty(), locals: l0, mem: mem }, pc: 0, labels: Seq::<Label>::empty(), done: false },
        Config { st: MachineState { stack: seq![Value::I32(a)], locals: l0, mem: mem }, pc: 1, labels: Seq::<Label>::empty(), done: false },
        Config { st: MachineState { stack: seq![Value::I32(rows)], locals: l0, mem: mem }, pc: 2, labels: Seq::<Label>::empty(), done: false },
        Config { st: MachineState { stack: Seq::<Value>::empty(), locals: l1, mem: mem }, pc: 3, labels: Seq::<Label>::empty(), done: false },
        Config { st: MachineState { stack: seq![Value::I32(a)], locals: l1, mem: mem }, pc: 4, labels: Seq::<Label>::empty(), done: false },
        Config { st: MachineState { stack: seq![Value::I32(cols)], locals: l1, mem: mem }, pc: 5, labels: Seq::<Label>::empty(), done: false },
        Config { st: MachineState { stack: Seq::<Value>::empty(), locals: l2, mem: mem }, pc: 6, labels: Seq::<Label>::empty(), done: false },
        Config { st: MachineState { stack: seq![Value::I32(b)], locals: l2, mem: mem }, pc: 7, labels: Seq::<Label>::empty(), done: false },
        Config { st: MachineState { stack: seq![Value::I32(rb)], locals: l2, mem: mem }, pc: 8, labels: Seq::<Label>::empty(), done: false },
        Config { st: MachineState { stack: seq![Value::I32(rb), Value::I32(rows)], locals: l2, mem: mem }, pc: 9, labels: Seq::<Label>::empty(), done: false },
        Config { st: MachineState { stack: seq![Value::I32(e1)], locals: l2, mem: mem }, pc: 10, labels: Seq::<Label>::empty(), done: false },
        Config { st: MachineState { stack: seq![Value::I32(e1), Value::I32(b)], locals: l2, mem: mem }, pc: 11, labels: Seq::<Label>::empty(), done: false },
        Config { st: MachineState { stack: seq![Value::I32(e1), Value::I32(cb)], locals: l2, mem: mem }, pc: 12, labels: Seq::<Label>::empty(), done: false },
        Config { st: MachineState { stack: seq![Value::I32(e1), Value::I32(cb), Value::I32(cols)], locals: l2, mem: mem }, pc: 13, labels: Seq::<Label>::empty(), done: false },
        Config { st: MachineState { stack: seq![Value::I32(e1), Value::I32(e2)], locals: l2, mem: mem }, pc: 14, labels: Seq::<Label>::empty(), done: false },
        Config { st: MachineState { stack: seq![Value::I32(e1 & e2)], locals: l2, mem: mem }, pc: 15, labels: Seq::<Label>::empty(), done: false },
    ];
    assert forall|j: int| 0 <= j < 15 implies next(env, code, #[trigger] cs[j]) == Some(cs[j + 1]) by {
        reveal(next);
        let d = next(env, code, cs[j])->0;
        assert(next(env, code, cs[j]) is Some);
        assert(d.st.stack =~= cs[j + 1].st.stack);
        assert(d.st.locals =~= cs[j + 1].st.locals);
        assert(d.st.mem =~= cs[j + 1].st.mem);
        assert(d.labels =~= cs[j + 1].labels);
    }
    lemma_exec_chain(env, code, cs, 0, fuel);
}

/// `matrix.add` when the shapes agree: the result header and the loop entry.
#[verifier::rlimit(80)]
#[verifier::spinoff_prover]
proof fn lemma_add_setup(env: Env, mem: Seq<u8>, a: i32, b: i32, r: i32, fuel: nat)
    requires
        0 <= a,
        0 <= b,
        a + 8 <= mem.len(),
        b + 8 <= mem.len(),
        a + 8 <= i32::MAX,
        b + 8 <= i32::MAX,
        0 <= r,
        r + 8 <= mem.len(),
        r + 8 <= i32::MAX,
        0 <= load_i32(mem, a as int) * load_i32(mem, a + 4) <= i32::MAX,
        load_i32(mem, b as int) == load_i32(mem, a as int),
        load_i32(mem, b + 4) == load_i32(mem, a + 4),
        fuel >= 15,
    ensures
        ({
            let rows = load_i32(mem, a as int);
            let cols = load_i32(mem, a + 4);
            let n = (rows * cols) as i32;
            let l2 = add_locals(a, b, r, rows, cols, 0, 0);
            let l3 = add_locals(a, b, r, rows, cols, n, 0);
            let m1 = written(mem, r as int, le_bytes_u32(rows as u32));
            let m2 = written(m1, r + 4, le_bytes_u32(cols as u32));
            exec(env, MatrixOperations::matrix_add_body(), Config { st: MachineState { stack: seq![Value::I32(1i32 & 1i32)], locals: l2, mem: mem }, pc: 15, labels: Seq::<Label>::empty(), done: false }, fuel) == exec(env, MatrixOperations::matrix_add_body(), Config { st: MachineState { stack: Seq::<Value>::empty(), locals: l3, mem: m2 }, pc: 30, labels: add_labels(), done: false }, (fuel - 15) as nat)
        }),
{
    reveal(MatrixOperations::matrix_add_body);
    let code = MatrixOperations::matrix_add_body();
    let rows = load_i32(mem, a as int);
    let cols = load_i32(mem, a + 4);
    let n = (rows * cols) as i32;
    let l2 = add_locals(a, b, r, rows, cols, 0, 0);
    let l3 = add_locals(a, b, r, rows, cols, n, 0);
    let m1 = written(mem, r as int, le_bytes_u32(rows as u32));
    let m2 = written(m1, r + 4, le_bytes_u32(cols as u32));
    assert((1i32 & 1i32) == 1i32) by (bit_vector);
    let cs = seq![
        Config { st: MachineState { stack: seq![Value::I32(1i32 & 1i32)], locals: l2, mem: mem }, pc: 15, labels: Seq::<Label>::empty(), done: false },
        Config { st: MachineState { stack: Seq::<Value>::empty(), locals: l2, mem: mem }, pc: 16, labels: seq![Label { is_loop: false, start: 15, height: 0, arity: 1 }], done: false },
        Config { st: MachineState { stack: seq![Value::I32(r)], locals: l2, mem: mem }, pc: 17, labels: seq![Label { is_loop: false, start: 15, height: 0, arity: 1 }], done: false },
        Config { st: MachineState { stack: seq![Value::I32(r), Value::I32(rows)], locals: l2, mem: mem }, pc: 18, labels: seq![Label { is_loop: false, start: 15, height: 0, arity: 1 }], done: false },
        Config { st: MachineState { stack: Seq::<Value>::empty(), locals: l2, mem: m1 }, pc: 19, labels: seq![Label { is_loop: false, start: 15, height: 0, arity: 1 }], done: false },
        Config { st: MachineState { stack: seq![Value::I32(r)], locals: l2, mem: m1 }, pc: 20, labels: seq![Label { is_loop: false, start: 15, height: 0, arity: 1 }], done: false },
        Config { st: MachineState { stack: seq![Value::I32(r), Value::I32(cols)], locals: l2, mem: m1 }, pc: 21, labels: seq![Label { is_loop: false, start: 15, height: 0, arity: 1 }], done: false },
        Config { st: MachineState { stack: Seq::<Value>::empty(), locals: l2, mem: m2 }, pc: 22, labels: seq![Label { is_loop: false, start: 15, height: 0, arity: 1 }], done: false },
        Config { st: MachineState { stack: seq![Value::I32(rows)], locals: l2, mem: m2 }, pc: 23, labels: seq![Label { is_loop: false, start: 15, height: 0, arity: 1 }], done: false },
        Config { st: MachineState { stack: seq![Value::I32(rows), Value::I32(cols)], locals: l2, mem: m2 }, pc: 24, labels: seq![Label { is_loop: false, start: 15, height: 0, arity: 1 }], done: false },
        Config { st: MachineState { stack: seq![Value::I32(n)], locals: l2, mem: m2 }, pc: 25, labels: seq![Label { is_loop: false, start: 15, height: 0, arity: 1 }], done: false },
        Config { st: MachineState { stack: Seq::<Value>::empty(), locals: l3, mem: m2 }, pc: 26, labels: seq![Label { is_loop: false, start: 15, height: 0, arity: 1 }], done: false },
        Config { st: MachineState { stack: seq![Value::I32(0)], locals: l3, mem: m2 }, pc: 27, labels: seq![Label { is_loop: false, start: 15, height: 0, arity: 1 }], done: false },
        Config { st: MachineState { stack: Seq::<Value>::empty(), locals: l3, mem: m2 }, pc: 28, labels: seq![Label { is_loop: false, start: 15, height: 0, arity: 1 }], done: false },
        Config { st: MachineState { stack: Seq::<Value>::empty(), locals: l3, mem: m2 }, pc: 29, labels: seq![Label { is_loop: false, start: 15, height: 0, arity: 1 }, Label { is_loop: false, start: 28, height: 0, arity: 0 }], done: false },
        Config { st: MachineState { stack: Seq::<Value>::empty(), locals: l3, mem: m2 }, pc: 30, labels: add_labels(), done: false },
    ];
    assert forall|j: int| 0 <= j < 15 implies next(env, code, #[trigger] cs[j]) == Some(cs[j + 1]) by {
        reveal(next);
        let d = next(env, code, cs[j])->0;
        assert(next(env, code, cs[j]) is Some);
        assert(d.st.stack =~= cs[j + 1].st.stack);
        assert(d.st.locals =~= cs[j + 1].st.locals);
        assert(d.st.mem =~= cs[j + 1].st.mem);
        assert(d.labels =~= cs[j + 1].labels);
    }
    lemma_exec_chain(env, code, cs, 0, fuel);
}

/// The end of `matrix.add` once every element is done: it gives 1.
#[verifier::rlimit(80)]
#[verifier::spinoff_prover]
proof fn lemma_add_exit(env: Env, a: i32, b: i32, r: i32, rows: i32, cols: i32, m: Seq<u8>, fuel: nat)
    requires
        0 <= rows * cols <= i32::MAX,
        fuel >= 6,
    ensures
        ({
            let n = (rows * cols) as i32;
            let ln = add_locals(a, b, r, rows, cols, n, n);
            exec(env, MatrixOperations::matrix_add_body(), Config { st: MachineState { stack: Seq::<Value>::empty(), locals: ln, mem: m }, pc: 30, labels: add_labels(), done: false }, fuel) == exec(env, MatrixOperations::matrix_add_body(), Config { st: MachineState { stack: seq![Value::I32(1)], locals: ln, mem: m }, pc: 73, labels: Seq::<Label>::empty(), done: false }, (fuel - 6) as nat)
        }),
{
    reveal(MatrixOperations::matrix_add_body);
    let code = MatrixOperations::matrix_add_body();
    let n = (rows * cols) as i32;
    let ln = add_locals(a, b, r, rows, cols, n, n);
    lemma_add_closings();
    let cs = seq![
        Config { st: MachineState { stack: Seq::<Value>::empty(), locals: ln, mem: m }, pc: 30, labels: add_labels(), done: false },
        Config { st: MachineState { stack: seq![Value::I32(n)], locals: ln, mem: m }, pc: 31, labels: add_labels(), done: false },
        Config { st: MachineState { stack: seq![Value::I32(n), Value::I32(n)], locals: ln, mem: m }, pc: 32, labels: add_labels(), done: false },
        Config { st: MachineState { stack: seq![Value::I32(1)], locals: ln, mem: m }, pc: 33, labels: add_labels(), done: false },
        Config { st: MachineState { stack: Seq::<Value>::empty(), locals: ln, mem: m }, pc: 69, labels: seq![Label { is_loop: false, start: 15, height: 0, arity: 1 }], done: false },
        Config { st: MachineState { stack: seq![Value::I32(1)], locals: ln, mem: m }, pc: 70, labels: seq![Label { is_loop: false, start: 15, height: 0, arity: 1 }], done: false },
        Config { st: MachineState { stack: seq![Value::I32(1)], locals: ln, mem: m }, pc: 73, labels: Seq::<Label>::empty(), done: false },
    ];
    assert forall|j: int| 0 <= j < 6 implies next(env, code, #[trigger] cs[j]) == Some(cs[j + 1]) by {
        reveal(next);
        let d = next(env, code, cs[j])->0;
        assert(next(env, code, cs[j]) is Some);
        assert(d.st.stack =~= cs[j + 1].st.stack);
        assert(d.st.locals =~= cs[j + 1].st.locals);
        assert(d.st.mem =~= cs[j + 1].st.mem);
        assert(d.labels =~= cs[j + 1].labels);
    }
    lemma_exec_chain(env, code, cs, 0, fuel);
}

/// `matrix.add` when the shapes differ: it gives 0 and writes nothing.
#[verifier::rlimit(80)]
#[verifier::spinoff_prover]
proof fn lemma_add_refuse(env: Env, mem: Seq<u8>, a: i32, b: i32, r: i32, fuel: nat)
    requires
        fuel >= 3,
    ensures
        ({
            let l2 = add_locals(a, b, r, load_i32(mem, a as int), load_i32(mem, a + 4), 0, 0);
            exec(env, MatrixOperations::matrix_add_body(), Config { st: MachineState { stack: seq![Value::I32(0i32)], locals: l2, mem: mem }, pc: 15, labels: Seq::<Label>::empty(), done: false }, fuel) == exec(env, MatrixOperations::matrix_add_body(), Config { st: MachineState { stack: seq![Value::I32(0)], locals: l2, mem: mem }, pc: 73, labels: Seq::<Label>::empty(), done: false }, (fuel - 3) as nat)
        }),
{
    reveal(MatrixOperations::matrix_add_body);
    let code = MatrixOperations::matrix_add_body();
    let l2 = add_locals(a, b, r, load_i32(mem, a as int), load_i32(mem, a + 4), 0, 0);
    lemma_add_closings();
    let cs = seq![
        Config { st: MachineState { stack: seq![Value::I32(0i32)], locals: l2, mem: mem }, pc: 15, labels: Seq::<Label>::empty(), done: false },
        Config { st: MachineState { stack: Seq::<Value>::empty(), locals: l2, mem: mem }, pc: 71, labels: seq![Label { is_loop: false, start: 15, height: 0, arity: 1 }], done: false },
        Config { st: MachineState { stack: seq![Value::I32(0)], locals: l2, mem: mem }, pc: 72, labels: seq![Label { is_loop: false, start: 15, height: 0, arity: 1 }], done: false },
        Config { st: MachineState { stack: seq![Value::I32(0)], locals: l2, mem: mem }, pc: 73, labels: Seq::<Label>::empty(), done: false },
    ];
    assert forall|j: int| 0 <= j < 3 implies next(env, code, #[trigger] cs[j]) == Some(cs[j + 1]) by {
        reveal(next);
        let d = next(env, code, cs[j])->0;
        assert(next(env, code, cs[j]) is Some);
        assert(d.st.stack =~= cs[j + 1].st.stack);
        assert(d.st.locals =~= cs[j + 1].st.locals);
        assert(d.st.mem =~= cs[j + 1].st.mem);
        assert(d.labels =~= cs[j + 1].labels);
    }
    lemma_exec_chain(env, code, cs, 0, fuel);
}

/// Memory that agrees on eight bytes reads the same 64-bit word there.
proof fn lemma_same_u64(p: Seq<u8>, m: Seq<u8>, x: int)
    requires
        0 <= x,
        x + 8 <= p.len(),
        x + 8 <= m.len(),
        p[x] == m[x],
        p[x + 1] == m[x + 1],
        p[x + 2] == m[x + 2],
        p[x + 3] == m[x + 3],
        p[x + 4] == m[x + 4],
        p[x + 5] == m[x + 5],
        p[x + 6] == m[x + 6],
        p[x + 7] == m[x + 7],
    ensures
        load_u64(p, x) == load_u64(m, x),
        load_u32(p, x) == load_u32(m, x),
        load_u32(p, x + 4) == load_u32(m, x + 4),
{
}

/// Element i of the f64 matrix at `m`: the f64 bits past its 12-byte
/// header (rows, columns, capacity).
pub open spec fn matrix_element(mem: Seq<u8>, m: int, i: int) -> u64 {
    load_u64(mem, m + 12 + 8 * i)
}

/// What `matrix.add`'s loop leaves: after k passes, element i < k of the
/// result holds the sum of element i of the two operands as they were
/// before the loop, and nothing outside the first k result elements has
/// changed.
proof fn lemma_sums(env: Env, m: Seq<u8>, a: int, b: int, r: int, n: nat, k: nat)
    requires
        k <= n,
        0 <= a,
        0 <= b,
        0 <= r,
        a + 12 + 8 * n <= m.len(),
        b + 12 + 8 * n <= m.len(),
        r + 12 + 8 * n <= m.len(),
        r + 12 + 8 * n <= a + 12 || a + 12 + 8 * n <= r + 12,
        r + 12 + 8 * n <= b + 12 || b + 12 + 8 * n <= r + 12,
    ensures
        sums(env, m, a, b, r, k).len() == m.len(),
        forall|x: int|
            0 <= x < m.len() && !(r + 12 <= x < r + 12 + 8 * k) ==> #[trigger] sums(env, m, a, b, r, k)[x]
                == m[x],
        forall|i: int|
            0 <= i < k ==> #[trigger] matrix_element(sums(env, m, a, b, r, k), r, i) == (env.f64_add)(
                matrix_element(m, a, i),
                matrix_element(m, b, i),
            ),
    decreases k,
{
    if k > 0 {
        let i = k - 1;
        lemma_sums(env, m, a, b, r, n, (k - 1) as nat);
        let p = sums(env, m, a, b, r, (k - 1) as nat);
        let q = sums(env, m, a, b, r, k);
        lemma_same_u64(p, m, a + 12 + 8 * i);
        lemma_same_u64(p, m, b + 12 + 8 * i);
        let v = (env.f64_add)(load_u64(m, a + 12 + 8 * i), load_u64(m, b + 12 + 8 * i));
        assert(q == written(p, r + 12 + 8 * i, le_bytes_u64(v)));
        lemma_load_after_write_u64(p, r + 12 + 8 * i, v, r);
        assert forall|j: int| 0 <= j < k implies #[trigger] matrix_element(sums(env, m, a, b, r, k), r, j)
            == (env.f64_add)(matrix_element(m, a, j), matrix_element(m, b, j)) by {
            if j < i {
                assert(matrix_element(p, r, j) == (env.f64_add)(matrix_element(m, a, j), matrix_element(m, b, j)));
                lemma_load_after_write_u64(p, r + 12 + 8 * i, v, r + 12 + 8 * j);
            } else {
                assert(matrix_element(q, r, i) == v);
            }
        }
    }
}

/// One pass of `matrix.add`'s loop.
proof fn lemma_add_pass(env: Env, a: i32, b: i32, r: i32, rows: i32, cols: i32, m: Seq<u8>, k: nat, fuel: nat)
    requires
        0 <= a,
        0 <= b,
        0 <= r,
        0 <= rows,
        0 <= cols,
        a + 12 + 8 * (rows * cols) <= i32::MAX,
        b + 12 + 8 * (rows * cols) <= i32::MAX,
        r + 12 + 8 * (rows * cols) <= i32::MAX,
        a + 12 + 8 * (rows * cols) <= m.len(),
        b + 12 + 8 * (rows * cols) <= m.len(),
        r + 12 + 8 * (rows * cols) <= m.len(),
        r + 12 + 8 * (rows * cols) <= a + 12 || a + 12 + 8 * (rows * cols) <= r + 12,
        r + 12 + 8 * (rows * cols) <= b + 12 || b + 12 + 8 * (rows * cols) <= r + 12,
        k < rows * cols,
        fuel >= 37,
    ensures
        exec(env, MatrixOperations::matrix_add_body(), Config { st: MachineState { stack: Seq::<Value>::empty(), locals: add_locals(a, b, r, rows, cols, (rows * cols) as i32, k as i32), mem: sums(env, m, a as int, b as int, r as int, k) }, pc: 30, labels: add_labels(), done: false }, fuel)
            == exec(env, MatrixOperations::matrix_add_body(), Config { st: MachineState { stack: Seq::<Value>::empty(), locals: add_locals(a, b, r, rows, cols, (rows * cols) as i32, (k + 1) as i32), mem: sums(env, m, a as int, b as int, r as int, (k + 1) as nat) }, pc: 30, labels: add_labels(), done: false }, (fuel - 37) as nat),
{
    lemma_sums(env, m, a as int, b as int, r as int, (rows * cols) as nat, k);
    lemma_add_pass_a(env, a, b, r, rows, cols, m, k, fuel);
    lemma_add_pass_b(env, a, b, r, rows, cols, m, k, (fuel - 14) as nat);
    lemma_add_pass_c(env, a, b, r, rows, cols, m, k, (fuel - 29) as nat);
}

/// `matrix.add`'s loop from pass k to its end.
proof fn lemma_add_loop(env: Env, a: i32, b: i32, r: i32, rows: i32, cols: i32, m: Seq<u8>, k: nat, fuel: nat)
    requires
        0 <= a,
        0 <= b,
        0 <= r,
        0 <= rows,
        0 <= cols,
        a + 12 + 8 * (rows * cols) <= i32::MAX,
        b + 12 + 8 * (rows * cols) <= i32::MAX,
        r + 12 + 8 * (rows * cols) <= i32::MAX,
        a + 12 + 8 * (rows * cols) <= m.len(),
        b + 12 + 8 * (rows * cols) <= m.len(),
        r + 12 + 8 * (rows * cols) <= m.len(),
        r + 12 + 8 * (rows * cols) <= a + 12 || a + 12 + 8 * (rows * cols) <= r + 12,
        r + 12 + 8 * (rows * cols) <= b + 12 || b + 12 + 8 * (rows * cols) <= r + 12,
        k <= rows * cols,
        fuel >= 37 * (rows * cols - k) + 6,
    ensures
        exec(env, MatrixOperations::matrix_add_body(), Config { st: MachineState { stack: Seq::<Value>::empty(), locals: add_locals(a, b, r, rows, cols, (rows * cols) as i32, k as i32), mem: sums(env, m, a as int, b as int, r as int, k) }, pc: 30, labels: add_labels(), done: false }, fuel) == Some(
            MachineState {
                stack: seq![Value::I32(1)],
                locals: add_locals(a, b, r, rows, cols, (rows * cols) as i32, (rows * cols) as i32),
                mem: sums(env, m, a as int, b as int, r as int, (rows * cols) as nat),
            },
        ),
    decreases rows * cols - k,
{
    if k < rows * cols {
        lemma_add_pass(env, a, b, r, rows, cols, m, k, fuel);
        lemma_add_loop(env, a, b, r, rows, cols, m, k + 1, (fuel - 37) as nat);
    } else {
        lemma_add_closings();
        lemma_add_exit(env, a, b, r, rows, cols, sums(env, m, a as int, b as int, r as int, k), fuel);
    }
}

/// What `matrix.add` leaves in memory, read against the memory it started
/// from.
#[verifier::rlimit(80)]
#[verifier::spinoff_prover]
proof fn lemma_add_result(env: Env, mem: Seq<u8>, a: i32, b: i32, r: i32)
    requires
        0 <= a,
        0 <= b,
        0 <= r,
        a + 8 <= mem.len(),
        0 <= load_i32(mem, a as int),
        0 <= load_i32(mem, a + 4),
        load_i32(mem, b as int) == load_i32(mem, a as int),
        load_i32(mem, b + 4) == load_i32(mem, a + 4),
        a + 12 + 8 * (load_i32(mem, a as int) * load_i32(mem, a + 4)) <= mem.len(),
        b + 12 + 8 * (load_i32(mem, a as int) * load_i32(mem, a + 4)) <= mem.len(),
        r + 12 + 8 * (load_i32(mem, a as int) * load_i32(mem, a + 4)) <= mem.len(),
        a + 12 + 8 * (load_i32(mem, a as int) * load_i32(mem, a + 4)) <= i32::MAX,
        b + 12 + 8 * (load_i32(mem, a as int) * load_i32(mem, a + 4)) <= i32::MAX,
        r + 12 + 8 * (load_i32(mem, a as int) * load_i32(mem, a + 4)) <= i32::MAX,
        r + 12 + 8 * (load_i32(mem, a as int) * load_i32(mem, a + 4)) <= a || a + 12 + 8 * (load_i32(
            mem,
            a as int,
        ) * load_i32(mem, a + 4)) <= r,
        r + 12 + 8 * (load_i32(mem, a as int) * load_i32(mem, a + 4)) <= b || b + 12 + 8 * (load_i32(
            mem,
            a as int,
        ) * load_i32(mem, a + 4)) <= r,
    ensures
        ({
            let rows = load_i32(mem, a as int);
            let cols = load_i32(mem, a + 4);
            let n = rows * cols;
            let m2 = written(written(mem, r as int, le_bytes_u32(rows as u32)), r + 4, le_bytes_u32(cols as u32));
            let fin = sums(env, m2, a as int, b as int, r as int, n as nat);
            &&& load_i32(fin, r as int) == rows
            &&& load_i32(fin, r + 4) == cols
            &&& forall|i: int|
                0 <= i < n ==> #[trigger] matrix_element(fin, r as int, i) == (env.f64_add)(
                    matrix_element(mem, a as int, i),
                    matrix_element(mem, b as int, i),
                )
        }),
{
    let rows = load_i32(mem, a as int);
    let cols = load_i32(mem, a + 4);
    let n = rows * cols;
    let m1 = written(mem, r as int, le_bytes_u32(rows as u32));
    let m2 = written(m1, r + 4, le_bytes_u32(cols as u32));
    lemma_sums(env, m2, a as int, b as int, r as int, n as nat, n as nat);
    let fin = sums(env, m2, a as int, b as int, r as int, n as nat);
    assert(m2.len() == mem.len());
    assert forall|i: int| 0 <= i < n implies #[trigger] matrix_element(fin, r as int, i) == (env.f64_add)(
        matrix_element(mem, a as int, i),
        matrix_element(mem, b as int, i),
    ) by {
        assert(matrix_element(fin, r as int, i) == (env.f64_add)(
            matrix_element(m2, a as int, i),
            matrix_element(m2, b as int, i),
        ));
        lemma_same_u64(m2, mem, a + 12 + 8 * i);
        lemma_same_u64(m2, mem, b + 12 + 8 * i);
    }
    lemma_load_after_write_u32(mem, r as int, rows as u32, r + 4);
    lemma_load_after_write_u32(m1, r + 4, cols as u32, r as int);
    lemma_same_u64(fin, m2, r as int);
    assert(load_i32(fin, r as int) == load_i32(m2, r as int));
    assert(load_i32(fin, r + 4) == load_i32(m2, r + 4));
    assert((rows as u32) as i32 == rows) by (bit_vector);
    assert((cols as u32) as i32 == cols) by (bit_vector);
}

/// `matrix.add` adds element by element: when the two operands have the
/// same rows and columns, every element i of the result is the f64 sum of
/// element i of the operands, the result gets their rows and columns,
/// and the call gives 1. (The result's region must not overlap the
/// operands'.)
#[verifier::rlimit(80)]
#[verifier::spinoff_prover]
pub proof fn lemma_matrix_add_sums_elements(env: Env, mem: Seq<u8>, a: i32, b: i32, r: i32)
    requires
        0 <= a,
        0 <= b,
        0 <= r,
        a + 8 <= mem.len(),
        0 <= load_i32(mem, a as int),
        0 <= load_i32(mem, a + 4),
        load_i32(mem, b as int) == load_i32(mem, a as int),
        load_i32(mem, b + 4) == load_i32(mem, a + 4),
        a + 12 + 8 * (load_i32(mem, a as int) * load_i32(mem, a + 4)) <= mem.len(),
        b + 12 + 8 * (load_i32(mem, a as int) * load_i32(mem, a + 4)) <= mem.len(),
        r + 12 + 8 * (load_i32(mem, a as int) * load_i32(mem, a + 4)) <= mem.len(),
        a + 12 + 8 * (load_i32(mem, a as int) * load_i32(mem, a + 4)) <= i32::MAX,
        b + 12 + 8 * (load_i32(mem, a as int) * load_i32(mem, a + 4)) <= i32::MAX,
        r + 12 + 8 * (load_i32(mem, a as int) * load_i32(mem, a + 4)) <= i32::MAX,
        r + 12 + 8 * (load_i32(mem, a as int) * load_i32(mem, a + 4)) <= a || a + 12 + 8 * (load_i32(
            mem,
            a as int,
        ) * load_i32(mem, a + 4)) <= r,
        r + 12 + 8 * (load_i32(mem, a as int) * load_i32(mem, a + 4)) <= b || b + 12 + 8 * (load_i32(
            mem,
            a as int,
        ) * load_i32(mem, a + 4)) <= r,
    ensures
        ({
            let rows = load_i32(mem, a as int);
            let cols = load_i32(mem, a + 4);
            let n = rows * cols;
            let res = exec(
                env,
                MatrixOperations::matrix_add_body(),
                start(add_locals(a, b, r, 0, 0, 0, 0), mem),
                (37 * n + 36) as nat,
            );
            &&& res is Some
            &&& res->0.stack == seq![Value::I32(1)]
            &&& load_i32(res->0.mem, r as int) == rows
            &&& load_i32(res->0.mem, r + 4) == cols
            &&& forall|i: int|
                0 <= i < n ==> #[trigger] matrix_element(res->0.mem, r as int, i) == (env.f64_add)(
                    matrix_element(mem, a as int, i),
                    matrix_element(mem, b as int, i),
                )
        }),
{
    let rows = load_i32(mem, a as int);
    let cols = load_i32(mem, a + 4);
    let n = rows * cols;
    let fuel = (37 * n + 36) as nat;
    let code = MatrixOperations::matrix_add_body();
    let m1 = written(mem, r as int, le_bytes_u32(rows as u32));
    let m2 = written(m1, r + 4, le_bytes_u32(cols as u32));
    lemma_add_compare(env, mem, a, b, r, fuel);
    lemma_add_setup(env, mem, a, b, r, (fuel - 15) as nat);
    assert(sums(env, m2, a as int, b as int, r as int, 0) == m2);
    lemma_add_loop(env, a, b, r, rows, cols, m2, 0, (fuel - 30) as nat);
    lemma_add_result(env, mem, a, b, r);
}

/// `matrix.add` refuses operands of different shapes: it gives 0 and
/// writes nothing.
pub proof fn lemma_matrix_add_refuses_other_shapes(env: Env, mem: Seq<u8>, a: i32, b: i32, r: i32)
    requires
        0 <= a,
        0 <= b,
        a + 8 <= mem.len(),
        b + 8 <= mem.len(),
        a + 8 <= i32::MAX,
        b + 8 <= i32::MAX,
        load_i32(mem, b as int) != load_i32(mem, a as int) || load_i32(mem, b + 4) != load_i32(mem, a + 4),
    ensures
        ({
            let res = exec(env, MatrixOperations::matrix_add_body(), start(add_locals(a, b, r, 0, 0, 0, 0), mem), 18);
            &&& res is Some
            &&& res->0.stack == seq![Value::I32(0)]
            &&& res->0.mem == mem
        }),
{
    let rows = load_i32(mem, a as int);
    let cols = load_i32(mem, a + 4);
    let e1: i32 = if load_i32(mem, b as int) == rows { 1 } else { 0 };
    let e2: i32 = if load_i32(mem, b + 4) == cols { 1 } else { 0 };
    assert((0i32 & 1i32) == 0i32 && (1i32 & 0i32) == 0i32 && (0i32 & 0i32) == 0i32) by (bit_vector);
    assert(e1 & e2 == 0i32);
    lemma_add_compare(env, mem, a, b, r, 18);
    lemma_add_refuse(env, mem, a, b, r, 3);
    lemma_add_closings();
}

/// The first 90 of `__json_stringify_value`'s instructions, written out.
#[verifier::opaque]
pub open spec fn sv_code_1(mi: u32, ii: u32, fi: u32, qi: u32, ai: u32, oi: u32) -> Seq<Instruction> {
    seq![
        Instruction::LocalGet(0),
        Instruction::I32Eqz,
        Instruction::If(BlockType::Result(ValType::I32)),
        Instruction::I32Const(8),
        Instruction::Call(mi),
        Instruction::LocalTee(3),
        Instruction::I32Const(4),
        Instruction::I32Store(MemArg { offset: 0, align: 2, memory_index: 0 }),
        Instruction::LocalGet(3),
        Instruction::I32Const(0x6C6C756E),
        Instruction::I32Store(MemArg { offset: 4, align: 2, memory_index: 0 }),
        Instruction::LocalGet(3),
        Instruction::Else,
        Instruction::LocalGet(0),
        Instruction::I32Load(MemArg { offset: 0, align: 2, memory_index: 0 }),
        Instruction::LocalSet(1),
        Instruction::LocalGet(1),
        Instruction::I32Eqz,
        Instruction::If(BlockType::Result(ValType::I32)),
        Instruction::I32Const(8),
        Instruction::Call(mi),
        Instruction::LocalTee(3),
        Instruction::I32Const(4),
        Instruction::I32Store(MemArg { offset: 0, align: 2, memory_index: 0 }),
        Instruction::LocalGet(3),
        Instruction::I32Const(0x6C6C756E),
        Instruction::I32Store(MemArg { offset: 4, align: 2, memory_index: 0 }),
        Instruction::LocalGet(3),
        Instruction::Else,
        Instruction::LocalGet(1),
        Instruction::I32Const(1),
        Instruction::I32Eq,
        Instruction::If(BlockType::Result(ValType::I32)),
        Instruction::LocalGet(0),
        Instruction::I32Load(MemArg { offset: 4, align: 2, memory_index: 0 }),
        Instruction::Call(ii),
        Instruction::Else,
        Instruction::LocalGet(1),
        Instruction::I32Const(2),
        Instruction::I32Eq,
        Instruction::If(BlockType::Result(ValType::I32)),
        Instruction::LocalGet(0),
        Instruction::I32Load(MemArg { offset: 4, align: 2, memory_index: 0 }),
        Instruction::If(BlockType::Result(ValType::I32)),
        Instruction::I32Const(8),
        Instruction::Call(mi),
        Instruction::LocalTee(3),
        Instruction::I32Const(4),
        Instruction::I32Store(MemArg { offset: 0, align: 2, memory_index: 0 }),
        Instruction::LocalGet(3),
        Instruction::I32Const(0x65757274),
        Instruction::I32Store(MemArg { offset: 4, align: 2, memory_index: 0 }),
        Instruction::LocalGet(3),
        Instruction::Else,
        Instruction::I32Const(9),
        Instruction::Call(mi),
        Instruction::LocalTee(3),
        Instruction::I32Const(5),
        Instruction::I32Store(MemArg { offset: 0, align: 2, memory_index: 0 }),
        Instruction::LocalGet(3),
        Instruction::I32Const(0x736C6166),
        Instruction::I32Store(MemArg { offset: 4, align: 2, memory_index: 0 }),
        Instruction::LocalGet(3),
        Instruction::I32Const(101),
        Instruction::I32Store8(MemArg { offset: 8, align: 0, memory_index: 0 }),
        Instruction::LocalGet(3),
        Instruction::End,
        Instruction::Else,
        Instruction::LocalGet(1),
        Instruction::I32Const(3),
        Instruction::I32Eq,
        Instruction::If(BlockType::Result(ValType::I32)),
        Instruction::LocalGet(0),
        Instruction::F64Load(MemArg { offset: 4, align: 3, memory_index: 0 }),
        Instruction::Call(fi),
        Instruction::Else,
        Instruction::LocalGet(1),
        Instruction::I32Const(4),
        Instruction::I32Eq,
        Instruction::If(BlockType::Result(ValType::I32)),
        Instruction::LocalGet(0),
        Instruction::I32Load(MemArg { offset: 4, align: 2, memory_index: 0 }),
        Instruction::Call(qi),
        Instruction::Else,
        Instruction::LocalGet(1),
        Instruction::I32Const(5),
        Instruction::I32Eq,
        Instruction::If(BlockType::Result(ValType::I32)),
        Instruction::LocalGet(0),
        Instruction::I32Load(MemArg { offset: 4, align: 2, memory_index: 0 }),
    ]
}

/// The rest of `__json_stringify_value`'s instructions, written out.
#[verifier::opaque]
pub open spec fn sv_code_2(mi: u32, ii: u32, fi: u32, qi: u32, ai: u32, oi: u32) -> Seq<Instruction> {
    seq![
        Instruction::Call(ai),
        Instruction::Else,
        Instruction::LocalGet(1),
        Instruction::I32Const(6),
        Instruction::I32Eq,
        Instruction::If(BlockType::Result(ValType::I32)),
        Instruction::LocalGet(0),
        Instruction::I32Load(MemArg { offset: 4, align: 2, memory_index: 0 }),
        Instruction::Call(oi),
        Instruction::Else,
        Instruction::I32Const(8),
        Instruction::Call(mi),
        Instruction::LocalTee(3),
        Instruction::I32Const(4),
        Instruction::I32Store(MemArg { offset: 0, align: 2, memory_index: 0 }),
        Instruction::LocalGet(3),
        Instruction::I32Const(0x6C6C756E),
        Instruction::I32Store(MemArg { offset: 4, align: 2, memory_index: 0 }),
        Instruction::LocalGet(3),
        Instruction::End,
        Instruction::End,
        Instruction::End,
        Instruction::End,
        Instruction::End,
        Instruction::End,
        Instruction::End,
        Instruction::End,
    ]
}

/// `__json_stringify_value`'s instructions written out.
pub open spec fn sv_code(mi: u32, ii: u32, fi: u32, qi: u32, ai: u32, oi: u32) -> Seq<Instruction> {
    sv_code_1(mi, ii, fi, qi, ai, oi) + sv_code_2(mi, ii, fi, qi, ai, oi)
}

#[verifier::rlimit(100)]
#[verifier::spinoff_prover]
proof fn lemma_sv_code_1_0(mi: u32, ii: u32, fi: u32, qi: u32, ai: u32, oi: u32)
    ensures
        forall|i: int| 0 <= i < 23 ==> #[trigger] JsonClass::stringify_value_instructions_part_1(Seq::<Instruction>::empty(), mi, ii, fi, qi, ai, oi)[i] == sv_code_1(mi, ii, fi, qi, ai, oi)[i],
{
    reveal(JsonClass::stringify_value_instructions_part_1);
    reveal(sv_code_1);
}

#[verifier::rlimit(100)]
#[verifier::spinoff_prover]
proof fn lemma_sv_code_1_23(mi: u32, ii: u32, fi: u32, qi: u32, ai: u32, oi: u32)
    ensures
        forall|i: int| 23 <= i < 46 ==> #[trigger] JsonClass::stringify_value_instructions_part_1(Seq::<Instruction>::empty(), mi, ii, fi, qi, ai, oi)[i] == sv_code_1(mi, ii, fi, qi, ai, oi)[i],
{
    reveal(JsonClass::stringify_value_instructions_part_1);
    reveal(sv_code_1);
}

#[verifier::rlimit(100)]
#[verifier::spinoff_prover]
proof fn lemma_sv_code_1_46(mi: u32, ii: u32, fi: u32, qi: u32, ai: u32, oi: u32)
    ensures
        forall|i: int| 46 <= i < 68 ==> #[trigger] JsonClass::stringify_value_instructions_part_1(Seq::<Instruction>::empty(), mi, ii, fi, qi, ai, oi)[i] == sv_code_1(mi, ii, fi, qi, ai, oi)[i],
{
    reveal(JsonClass::stringify_value_instructions_part_1);
    reveal(sv_code_1);
}

#[verifier::rlimit(100)]
#[verifier::spinoff_prover]
proof fn lemma_sv_code_1_68(mi: u32, ii: u32, fi: u32, qi: u32, ai: u32, oi: u32)
    ensures
        forall|i: int| 68 <= i < 90 ==> #[trigger] JsonClass::stringify_value_instructions_part_1(Seq::<Instruction>::empty(), mi, ii, fi, qi, ai, oi)[i] == sv_code_1(mi, ii, fi, qi, ai, oi)[i],
{
    reveal(JsonClass::stringify_value_instructions_part_1);
    reveal(sv_code_1);
}

proof fn lemma_sv_code_1(mi: u32, ii: u32, fi: u32, qi: u32, ai: u32, oi: u32)
    ensures
        JsonClass::stringify_value_instructions_part_1(Seq::<Instruction>::empty(), mi, ii, fi, qi, ai, oi) == sv_code_1(mi, ii, fi, qi, ai, oi),
{
    lemma_sv_code_1_0(mi, ii, fi, qi, ai, oi);
    lemma_sv_code_1_23(mi, ii, fi, qi, ai, oi);
    lemma_sv_code_1_46(mi, ii, fi, qi, ai, oi);
    lemma_sv_code_1_68(mi, ii, fi, qi, ai, oi);
    assert(JsonClass::stringify_value_instructions_part_1(Seq::<Instruction>::empty(), mi, ii, fi, qi, ai, oi).len() == 90) by {
        reveal(JsonClass::stringify_value_instructions_part_1);
    }
    assert(sv_code_1(mi, ii, fi, qi, ai, oi).len() == 90) by {
        reveal(sv_code_1);
    }
    assert(JsonClass::stringify_value_instructions_part_1(Seq::<Instruction>::empty(), mi, ii, fi, qi, ai, oi) =~= sv_code_1(mi, ii, fi, qi, ai, oi));
}

#[verifier::rlimit(100)]
#[verifier::spinoff_prover]
proof fn lemma_sv_code_2(t: Seq<Instruction>, mi: u32, ii: u32, fi: u32, qi: u32, ai: u32, oi: u32)
    ensures
        JsonClass::stringify_value_instructions_part_2(t, mi, ii, fi, qi, ai, oi) == t + sv_code_2(mi, ii, fi, qi, ai, oi),
{
    reveal(JsonClass::stringify_value_instructions_part_2);
    reveal(sv_code_2);
    assert(JsonClass::stringify_value_instructions_part_2(t, mi, ii, fi, qi, ai, oi) =~= t + sv_code_2(mi, ii, fi, qi, ai, oi));
}

/// The generated body is the one written out above.
proof fn lemma_sv_code(mi: u32, ii: u32, fi: u32, qi: u32, ai: u32, oi: u32)
    ensures
        JsonClass::stringify_value_instructions_body(mi, ii, fi, qi, ai, oi) == sv_code(mi, ii, fi, qi, ai, oi),
{
    reveal(JsonClass::stringify_value_instructions_body);
    lemma_sv_code_1(mi, ii, fi, qi, ai, oi);
    lemma_sv_code_2(sv_code_1(mi, ii, fi, qi, ai, oi), mi, ii, fi, qi, ai, oi);
}

/// The locals of `__json_stringify_value` with the box pointer and the
/// tag and string pointer it has read so far.
pub open spec fn sv_locals(bx: i32, tag: i32, p: i32) -> Seq<Value> {
    seq![
        Value::I32(bx),
        Value::I32(tag),
        Value::I32(0),
        Value::I32(p),
        Value::I32(0),
        Value::I32(0),
        Value::I32(0),
    ]
}

/// The label of the `If` at position `k` of `__json_stringify_value`.
pub open spec fn sv_label(k: nat) -> Label {
    Label { is_loop: false, start: k, height: 0, arity: 1 }
}

/// Where the arms of `__json_stringify_value`'s `If`s end.
proof fn lemma_sv_closings(mi: u32, ii: u32, fi: u32, qi: u32, ai: u32, oi: u32)
    ensures
        sv_code(mi, ii, fi, qi, ai, oi).len() == 117,
        closing(sv_code(mi, ii, fi, qi, ai, oi), 3, 0, true) == 12,
        closing(sv_code(mi, ii, fi, qi, ai, oi), 19, 0, true) == 28,
        closing(sv_code(mi, ii, fi, qi, ai, oi), 33, 0, true) == 36,
        closing(sv_code(mi, ii, fi, qi, ai, oi), 44, 0, true) == 53,
        closing(sv_code(mi, ii, fi, qi, ai, oi), 54, 0, false) == 66,
        closing(sv_code(mi, ii, fi, qi, ai, oi), 68, 0, false) == 113,
{
    reveal(sv_code_1);
    reveal(sv_code_2);
    reveal_with_fuel(closing, 50);
}

/// `__json_stringify_value` on a box that is not null: reading its tag.
#[verifier::rlimit(80)]
#[verifier::spinoff_prover]
proof fn lemma_sv_head(env: Env, mem: Seq<u8>, bx: i32, mi: u32, ii: u32, fi: u32, qi: u32, ai: u32, oi: u32, fuel: nat)
    requires
        0 < bx,
        bx + 8 <= mem.len(),
        bx + 8 <= i32::MAX,
        load_i32(mem, bx as int) == 2,
        fuel >= 9,
    ensures
        ({
            let l0 = sv_locals(bx, 0, 0);
            let l1 = sv_locals(bx, 2, 0);
            let pl = load_i32(mem, bx + 4);
            exec(env, sv_code(mi, ii, fi, qi, ai, oi), Config { st: MachineState { stack: Seq::<Value>::empty(), locals: l0, mem: mem }, pc: 0, labels: Seq::<Label>::empty(), done: false }, fuel) == exec(env, sv_code(mi, ii, fi, qi, ai, oi), Config { st: MachineState { stack: Seq::<Value>::empty(), locals: l1, mem: mem }, pc: 29, labels: seq![sv_label(2), sv_label(18)], done: false }, (fuel - 9) as nat)
        }),
{
    reveal(sv_code_1);
    reveal(sv_code_2);
    let code = sv_code(mi, ii, fi, qi, ai, oi);
    let l0 = sv_locals(bx, 0, 0);
    let l1 = sv_locals(bx, 2, 0);
    let pl = load_i32(mem, bx + 4);
    lemma_sv_closings(mi, ii, fi, qi, ai, oi);
    let cs = seq![
        Config { st: MachineState { stack: Seq::<Value>::empty(), locals: l0, mem: mem }, pc: 0, labels: Seq::<Label>::empty(), done: false },
        Config { st: MachineState { stack: seq![Value::I32(bx)], locals: l0, mem: mem }, pc: 1, labels: Seq::<Label>::empty(), done: false },
        Config { st: MachineState { stack: seq![Value::I32(0)], locals: l0, mem: mem }, pc: 2, labels: Seq::<Label>::empty(), done: false },
        Config { st: MachineState { stack: Seq::<Value>::empty(), locals: l0, mem: mem }, pc: 13, labels: seq![sv_label(2)], done: false },
        Config { st: MachineState { stack: seq![Value::I32(bx)], locals: l0, mem: mem }, pc: 14, labels: seq![sv_label(2)], done: false },
        Config { st: MachineState { stack: seq![Value::I32(2)], locals: l0, mem: mem }, pc: 15, labels: seq![sv_label(2)], done: false },
        Config { st: MachineState { stack: Seq::<Value>::empty(), locals: l1, mem: mem }, pc: 16, labels: seq![sv_label(2)], done: false },
        Config { st: MachineState { stack: seq![Value::I32(2)], locals: l1, mem: mem }, pc: 17, labels: seq![sv_label(2)], done: false },
        Config { st: MachineState { stack: seq![Value::I32(0)], locals: l1, mem: mem }, pc: 18, labels: seq![sv_label(2)], done: false },
        Config { st: MachineState { stack: Seq::<Value>::empty(), locals: l1, mem: mem }, pc: 29, labels: seq![sv_label(2), sv_label(18)], done: false },
    ];
    assert forall|j: int| 0 <= j < 9 implies next(env, code, #[trigger] cs[j]) == Some(cs[j + 1]) by {
        reveal(next);
        let d = next(env, code, cs[j])->0;
        assert(next(env, code, cs[j]) is Some);
        assert(d.st.stack =~= cs[j + 1].st.stack);
        assert(d.st.locals =~= cs[j + 1].st.locals);
        assert(d.st.mem =~= cs[j + 1].st.mem);
        assert(d.labels =~= cs[j + 1].labels);
    }
    lemma_exec_chain(env, code, cs, 0, fuel);
}

/// `__json_stringify_value` on tag 2: reading the boolean payload.
#[verifier::rlimit(80)]
#[verifier::spinoff_prover]
proof fn lemma_sv_boolean_tag(env: Env, mem: Seq<u8>, bx: i32, mi: u32, ii: u32, fi: u32, qi: u32, ai: u32, oi: u32, fuel: nat)
    requires
        0 < bx,
        bx + 8 <= mem.len(),
        bx + 8 <= i32::MAX,
        load_i32(mem, bx as int) == 2,
        fuel >= 10,
    ensures
        ({
            let l0 = sv_locals(bx, 0, 0);
            let l1 = sv_locals(bx, 2, 0);
            let pl = load_i32(mem, bx + 4);
            exec(env, sv_code(mi, ii, fi, qi, ai, oi), Config { st: MachineState { stack: Seq::<Value>::empty(), locals: l1, mem: mem }, pc: 29, labels: seq![sv_label(2), sv_label(18)], done: false }, fuel) == exec(env, sv_code(mi, ii, fi, qi, ai, oi), Config { st: MachineState { stack: seq![Value::I32(pl)], locals: l1, mem: mem }, pc: 43, labels: seq![sv_label(2), sv_label(18), sv_label(32), sv_label(40)], done: false }, (fuel - 10) as nat)
        }),
{
    reveal(sv_code_1);
    reveal(sv_code_2);
    let code = sv_code(mi, ii, fi, qi, ai, oi);
    let l0 = sv_locals(bx, 0, 0);
    let l1 = sv_locals(bx, 2, 0);
    let pl = load_i32(mem, bx + 4);
    lemma_sv_closings(mi, ii, fi, qi, ai, oi);
    let cs = seq![
        Config { st: MachineState { stack: Seq::<Value>::empty(), locals: l1, mem: mem }, pc: 29, labels: seq![sv_label(2), sv_label(18)], done: false },
        Config { st: MachineState { stack: seq![Value::I32(2)], locals: l1, mem: mem }, pc: 30, labels: seq![sv_label(2), sv_label(18)], done: false },
        Config { st: MachineState { stack: seq![Value::I32(2), Value::I32(1)], locals: l1, mem: mem }, pc: 31, labels: seq![sv_label(2), sv_label(18)], done: false },
        Config { st: MachineState { stack: seq![Value::I32(0)], locals: l1, mem: mem }, pc: 32, labels: seq![sv_label(2), sv_label(18)], done: false },
        Config { st: MachineState { stack: Seq::<Value>::empty(), locals: l1, mem: mem }, pc: 37, labels: seq![sv_label(2), sv_label(18), sv_label(32)], done: false },
        Config { st: MachineState { stack: seq![Value::I32(2)], locals: l1, mem: mem }, pc: 38, labels: seq![sv_label(2), sv_label(18), sv_label(32)], done: false },
        Config { st: MachineState { stack: seq![Value::I32(2), Value::I32(2)], locals: l1, mem: mem }, pc: 39, labels: seq![sv_label(2), sv_label(18), sv_label(32)], done: false },
        Config { st: MachineState { stack: seq![Value::I32(1)], locals: l1, mem: mem }, pc: 40, labels: seq![sv_label(2), sv_label(18), sv_label(32)], done: false },
        Config { st: MachineState { stack: Seq::<Value>::empty(), locals: l1, mem: mem }, pc: 41, labels: seq![sv_label(2), sv_label(18), sv_label(32), sv_label(40)], done: false },
        Config { st: MachineState { stack: seq![Value::I32(bx)], locals: l1, mem: mem }, pc: 42, labels: seq![sv_label(2), sv_label(18), sv_label(32), sv_label(40)], done: false },
        Config { st: MachineState { stack: seq![Value::I32(pl)], locals: l1, mem: mem }, pc: 43, labels: seq![sv_label(2), sv_label(18), sv_label(32), sv_label(40)], done: false },
    ];
    assert forall|j: int| 0 <= j < 10 implies next(env, code, #[trigger] cs[j]) == Some(cs[j + 1]) by {
        reveal(next);
        let d = next(env, code, cs[j])->0;
        assert(next(env, code, cs[j]) is Some);
        assert(d.st.stack =~= cs[j + 1].st.stack);
        assert(d.st.locals =~= cs[j + 1].st.locals);
        assert(d.st.mem =~= cs[j + 1].st.mem);
        assert(d.labels =~= cs[j + 1].labels);
    }
    lemma_exec_chain(env, code, cs, 0, fuel);
}

/// `__json_stringify_value` on a true boolean: the string "true".
#[verifier::rlimit(80)]
#[verifier::spinoff_prover]
proof fn lemma_sv_true(env: Env, mem: Seq<u8>, bx: i32, mi: u32, ii: u32, fi: u32, qi: u32, ai: u32, oi: u32, p: i32, m2: Seq<u8>, fuel: nat)
    requires
        load_i32(mem, bx + 4) != 0,
        0 <= p,
        p + 9 <= m2.len(),
        p + 9 <= i32::MAX,
        (env.arity)(mi) == 1,
        (env.call)(mi, seq![Value::I32(8)], mem) == Some((seq![Value::I32(p)], m2)),
        fuel >= 15,
    ensures
        ({
            let l1 = sv_locals(bx, 2, 0);
            let l3 = sv_locals(bx, 2, p);
            let m3 = written(m2, p as int, le_bytes_u32(4u32));
            let m4 = written(m3, p + 4, le_bytes_u32(0x65757274u32));
            exec(env, sv_code(mi, ii, fi, qi, ai, oi), Config { st: MachineState { stack: seq![Value::I32(load_i32(mem, bx + 4))], locals: l1, mem: mem }, pc: 43, labels: seq![sv_label(2), sv_label(18), sv_label(32), sv_label(40)], done: false }, fuel) == exec(env, sv_code(mi, ii, fi, qi, ai, oi), Config { st: MachineState { stack: seq![Value::I32(p)], locals: l3, mem: m4 }, pc: 117, labels: Seq::<Label>::empty(), done: false }, (fuel - 15) as nat)
        }),
{
    reveal(sv_code_1);
    reveal(sv_code_2);
    let code = sv_code(mi, ii, fi, qi, ai, oi);
    let l1 = sv_locals(bx, 2, 0);
    let l3 = sv_locals(bx, 2, p);
    let m3 = written(m2, p as int, le_bytes_u32(4u32));
    let m4 = written(m3, p + 4, le_bytes_u32(0x65757274u32));
    lemma_sv_closings(mi, ii, fi, qi, ai, oi);
    assert(seq![Value::I32(8)].subrange(0, 1) =~= seq![Value::I32(8)]);
    let cs = seq![
        Config { st: MachineState { stack: seq![Value::I32(load_i32(mem, bx + 4))], locals: l1, mem: mem }, pc: 43, labels: seq![sv_label(2), sv_label(18), sv_label(32), sv_label(40)], done: false },
        Config { st: MachineState { stack: Seq::<Value>::empty(), locals: l1, mem: mem }, pc: 44, labels: seq![sv_label(2), sv_label(18), sv_label(32), sv_label(40), sv_label(43)], done: false },
        Config { st: MachineState { stack: seq![Value::I32(8)], locals: l1, mem: mem }, pc: 45, labels: seq![sv_label(2), sv_label(18), sv_label(32), sv_label(40), sv_label(43)], done: false },
        Config { st: MachineState { stack: seq![Value::I32(p)], locals: l1, mem: m2 }, pc: 46, labels: seq![sv_label(2), sv_label(18), sv_label(32), sv_label(40), sv_label(43)], done: false },
        Config { st: MachineState { stack: seq![Value::I32(p)], locals: l3, mem: m2 }, pc: 47, labels: seq![sv_label(2), sv_label(18), sv_label(32), sv_label(40), sv_label(43)], done: false },
        Config { st: MachineState { stack: seq![Value::I32(p), Value::I32(4)], locals: l3, mem: m2 }, pc: 48, labels: seq![sv_label(2), sv_label(18), sv_label(32), sv_label(40), sv_label(43)], done: false },
        Config { st: MachineState { stack: Seq::<Value>::empty(), locals: l3, mem: m3 }, pc: 49, labels: seq![sv_label(2), sv_label(18), sv_label(32), sv_label(40), sv_label(43)], done: false },
        Config { st: MachineState { stack: seq![Value::I32(p)], locals: l3, mem: m3 }, pc: 50, labels: seq![sv_label(2), sv_label(18), sv_label(32), sv_label(40), sv_label(43)], done: false },
        Config { st: MachineState { stack: seq![Value::I32(p), Value::I32(0x65757274)], locals: l3, mem: m3 }, pc: 51, labels: seq![sv_label(2), sv_label(18), sv_label(32), sv_label(40), sv_label(43)], done: false },
        Config { st: MachineState { stack: Seq::<Value>::empty(), locals: l3, mem: m4 }, pc: 52, labels: seq![sv_label(2), sv_label(18), sv_label(32), sv_label(40), sv_label(43)], done: false },
        Config { st: MachineState { stack: seq![Value::I32(p)], locals: l3, mem: m4 }, pc: 53, labels: seq![sv_label(2), sv_label(18), sv_label(32), sv_label(40), sv_label(43)], done: false },
        Config { st: MachineState { stack: seq![Value::I32(p)], locals: l3, mem: m4 }, pc: 67, labels: seq![sv_label(2), sv_label(18), sv_label(32), sv_label(40)], done: false },
        Config { st: MachineState { stack: seq![Value::I32(p)], locals: l3, mem: m4 }, pc: 114, labels: seq![sv_label(2), sv_label(18), sv_label(32)], done: false },
        Config { st: MachineState { stack: seq![Value::I32(p)], locals: l3, mem: m4 }, pc: 115, labels: seq![sv_label(2), sv_label(18)], done: false },
        Config { st: MachineState { stack: seq![Value::I32(p)], locals: l3, mem: m4 }, pc: 116, labels: seq![sv_label(2)], done: false },
        Config { st: MachineState { stack: seq![Value::I32(p)], locals: l3, mem: m4 }, pc: 117, labels: Seq::<Label>::empty(), done: false },
    ];
    assert forall|j: int| 0 <= j < 15 implies next(env, code, #[trigger] cs[j]) == Some(cs[j + 1]) by {
        reveal(next);
        let d = next(env, code, cs[j])->0;
        assert(next(env, code, cs[j]) is Some);
        assert(d.st.stack =~= cs[j + 1].st.stack);
        assert(d.st.locals =~= cs[j + 1].st.locals);
        assert(d.st.mem =~= cs[j + 1].st.mem);
        assert(d.labels =~= cs[j + 1].labels);
    }
    lemma_exec_chain(env, code, cs, 0, fuel);
}

/// `__json_stringify_value` on a false boolean: the string "false".
#[verifier::rlimit(80)]
#[verifier::spinoff_prover]
proof fn lemma_sv_false(env: Env, mem: Seq<u8>, bx: i32, mi: u32, ii: u32, fi: u32, qi: u32, ai: u32, oi: u32, p: i32, m2: Seq<u8>, fuel: nat)
    requires
        0 <= p,
        p + 9 <= m2.len(),
        p + 9 <= i32::MAX,
        (env.arity)(mi) == 1,
        (env.call)(mi, seq![Value::I32(9)], mem) == Some((seq![Value::I32(p)], m2)),
        fuel >= 18,
    ensures
        ({
            let l1 = sv_locals(bx, 2, 0);
            let l3 = sv_locals(bx, 2, p);
            let m3 = written(m2, p as int, le_bytes_u32(5u32));
            let m4 = written(m3, p + 4, le_bytes_u32(0x736C6166u32));
            let m5 = written(m4, p + 8, seq![(101i32 & 0xff) as u8]);
            exec(env, sv_code(mi, ii, fi, qi, ai, oi), Config { st: MachineState { stack: seq![Value::I32(0)], locals: l1, mem: mem }, pc: 43, labels: seq![sv_label(2), sv_label(18), sv_label(32), sv_label(40)], done: false }, fuel) == exec(env, sv_code(mi, ii, fi, qi, ai, oi), Config { st: MachineState { stack: seq![Value::I32(p)], locals: l3, mem: m5 }, pc: 117, labels: Seq::<Label>::empty(), done: false }, (fuel - 18) as nat)
        }),
{
    reveal(sv_code_1);
    reveal(sv_code_2);
    let code = sv_code(mi, ii, fi, qi, ai, oi);
    let l1 = sv_locals(bx, 2, 0);
    let l3 = sv_locals(bx, 2, p);
    let m3 = written(m2, p as int, le_bytes_u32(5u32));
    let m4 = written(m3, p + 4, le_bytes_u32(0x736C6166u32));
    let m5 = written(m4, p + 8, seq![(101i32 & 0xff) as u8]);
    lemma_sv_closings(mi, ii, fi, qi, ai, oi);
    assert(seq![Value::I32(9)].subrange(0, 1) =~= seq![Value::I32(9)]);
    let cs = seq![
        Config { st: MachineState { stack: seq![Value::I32(0)], locals: l1, mem: mem }, pc: 43, labels: seq![sv_label(2), sv_label(18), sv_label(32), sv_label(40)], done: false },
        Config { st: MachineState { stack: Seq::<Value>::empty(), locals: l1, mem: mem }, pc: 54, labels: seq![sv_label(2), sv_label(18), sv_label(32), sv_label(40), sv_label(43)], done: false },
        Config { st: MachineState { stack: seq![Value::I32(9)], locals: l1, mem: mem }, pc: 55, labels: seq![sv_label(2), sv_label(18), sv_label(32), sv_label(40), sv_label(43)], done: false },
        Config { st: MachineState { stack: seq![Value::I32(p)], locals: l1, mem: m2 }, pc: 56, labels: seq![sv_label(2), sv_label(18), sv_label(32), sv_label(40), sv_label(43)], done: false },
        Config { st: MachineState { stack: seq![Value::I32(p)], locals: l3, mem: m2 }, pc: 57, labels: seq![sv_label(2), sv_label(18), sv_label(32), sv_label(40), sv_label(43)], done: false },
        Config { st: MachineState { stack: seq![Value::I32(p), Value::I32(5)], locals: l3, mem: m2 }, pc: 58, labels: seq![sv_label(2), sv_label(18), sv_label(32), sv_label(40), sv_label(43)], done: false },
        Config { st: MachineState { stack: Seq::<Value>::empty(), locals: l3, mem: m3 }, pc: 59, labels: seq![sv_label(2), sv_label(18), sv_label(32), sv_label(40), sv_label(43)], done: false },
        Config { st: MachineState { stack: seq![Value::I32(p)], locals: l3, mem: m3 }, pc: 60, labels: seq![sv_label(2), sv_label(18), sv_label(32), sv_label(40), sv_label(43)], done: false },
        Config { st: MachineState { stack: seq![Value::I32(p), Value::I32(0x736C6166)], locals: l3, mem: m3 }, pc: 61, labels: seq![sv_label(2), sv_label(18), sv_label(32), sv_label(40), sv_label(43)], done: false },
        Config { st: MachineState { stack: Seq::<Value>::empty(), locals: l3, mem: m4 }, pc: 62, labels: seq![sv_label(2), sv_label(18), sv_label(32), sv_label(40), sv_label(43)], done: false },
        Config { st: MachineState { stack: seq![Value::I32(p)], locals: l3, mem: m4 }, pc: 63, labels: seq![sv_label(2), sv_label(18), sv_label(32), sv_label(40), sv_label(43)], done: false },
        Config { st: MachineState { stack: seq![Value::I32(p), Value::I32(101)], locals: l3, mem: m4 }, pc: 64, labels: seq![sv_label(2), sv_label(18), sv_label(32), sv_label(40), sv_label(43)], done: false },
        Config { st: MachineState { stack: Seq::<Value>::empty(), locals: l3, mem: m5 }, pc: 65, labels: seq![sv_label(2), sv_label(18), sv_label(32), sv_label(40), sv_label(43)], done: false },
        Config { st: MachineState { stack: seq![Value::I32(p)], locals: l3, mem: m5 }, pc: 66, labels: seq![sv_label(2), sv_label(18), sv_label(32), sv_label(40), sv_label(43)], done: false },
        Config { st: MachineState { stack: seq![Value::I32(p)], locals: l3, mem: m5 }, pc: 67, labels: seq![sv_label(2), sv_label(18), sv_label(32), sv_label(40)], done: false },
        Config { st: MachineState { stack: seq![Value::I32(p)], locals: l3, mem: m5 }, pc: 114, labels: seq![sv_label(2), sv_label(18), sv_label(32)], done: false },
        Config { st: MachineState { stack: seq![Value::I32(p)], locals: l3, mem: m5 }, pc: 115, labels: seq![sv_label(2), sv_label(18)], done: false },
        Config { st: MachineState { stack: seq![Value::I32(p)], locals: l3, mem: m5 }, pc: 116, labels: seq![sv_label(2)], done: false },
        Config { st: MachineState { stack: seq![Value::I32(p)], locals: l3, mem: m5 }, pc: 117, labels: Seq::<Label>::empty(), done: false },
    ];
    assert forall|j: int| 0 <= j < 18 implies next(env, code, #[trigger] cs[j]) == Some(cs[j + 1]) by {
        reveal(next);
        let d = next(env, code, cs[j])->0;
        assert(next(env, code, cs[j]) is Some);
        assert(d.st.stack =~= cs[j + 1].st.stack);
        assert(d.st.locals =~= cs[j + 1].st.locals);
        assert(d.st.mem =~= cs[j + 1].st.mem);
        assert(d.labels =~= cs[j + 1].labels);
    }
    lemma_exec_chain(env, code, cs, 0, fuel);
}

/// Stringifying a boolean box (tag 2) whose payload is not 0 gives the
/// string "true": the pointer the allocator handed out, holding length 4
/// and the bytes 't', 'r', 'u', 'e'.
#[verifier::rlimit(60)]
#[verifier::spinoff_prover]
pub proof fn lemma_stringify_true_is_true(
    env: Env,
    mem: Seq<u8>,
    bx: i32,
    mi: u32,
    ii: u32,
    fi: u32,
    qi: u32,
    ai: u32,
    oi: u32,
    p: i32,
    m2: Seq<u8>,
)
    requires
        0 < bx,
        bx + 8 <= mem.len(),
        bx + 8 <= i32::MAX,
        load_i32(mem, bx as int) == 2,
        (env.arity)(mi) == 1,
        0 <= p,
        p + 9 <= m2.len(),
        p + 9 <= i32::MAX,
        load_i32(mem, bx + 4) != 0,
        (env.call)(mi, seq![Value::I32(8)], mem) == Some((seq![Value::I32(p)], m2)),
    ensures
        ({
            let res = exec(
                env,
                JsonClass::stringify_value_instructions_body(mi, ii, fi, qi, ai, oi),
                start(sv_locals(bx, 0, 0), mem),
                40,
            );
            &&& res is Some
            &&& res->0.stack == seq![Value::I32(p)]
            &&& load_i32(res->0.mem, p as int) == 4
            &&& res->0.mem[p + 4] == 116u8
            &&& res->0.mem[p + 5] == 114u8
            &&& res->0.mem[p + 6] == 117u8
            &&& res->0.mem[p + 7] == 101u8
        }),
{
    lemma_sv_code(mi, ii, fi, qi, ai, oi);
    lemma_sv_closings(mi, ii, fi, qi, ai, oi);
    assert(start(sv_locals(bx, 0, 0), mem).st.stack =~= Seq::<Value>::empty());
    lemma_sv_head(env, mem, bx, mi, ii, fi, qi, ai, oi, 40);
    lemma_sv_boolean_tag(env, mem, bx, mi, ii, fi, qi, ai, oi, 31);
    lemma_sv_true(env, mem, bx, mi, ii, fi, qi, ai, oi, p, m2, 21);
    let m3 = written(m2, p as int, le_bytes_u32(4u32));
    lemma_load_after_write_u32(m2, p as int, 4u32, p + 4);
    lemma_load_after_write_u32(m3, p + 4, 0x65757274u32, p as int);
    assert((0x65757274u32 & 0xff) == 0x74u32 && ((0x65757274u32 >> 8u32) & 0xff) == 0x72u32 && ((0x65757274u32
        >> 16u32) & 0xff) == 0x75u32 && ((0x65757274u32 >> 24u32) & 0xff) == 0x65u32) by (bit_vector);
}

/// Stringifying a boolean box (tag 2) whose payload is 0 gives the string
/// "false": length 5 and the bytes 'f', 'a', 'l', 's', 'e'.
#[verifier::rlimit(60)]
#[verifier::spinoff_prover]
pub proof fn lemma_stringify_false_is_false(
    env: Env,
    mem: Seq<u8>,
    bx: i32,
    mi: u32,
    ii: u32,
    fi: u32,
    qi: u32,
    ai: u32,
    oi: u32,
    p: i32,
    m2: Seq<u8>,
)
    requires
        0 < bx,
        bx + 8 <= mem.len(),
        bx + 8 <= i32::MAX,
        load_i32(mem, bx as int) == 2,
        (env.arity)(mi) == 1,
        0 <= p,
        p + 9 <= m2.len(),
        p + 9 <= i32::MAX,
        load_i32(mem, bx + 4) == 0,
        (env.call)(mi, seq![Value::I32(9)], mem) == Some((seq![Value::I32(p)], m2)),
    ensures
        ({
            let res = exec(
                env,
                JsonClass::stringify_value_instructions_body(mi, ii, fi, qi, ai, oi),
                start(sv_locals(bx, 0, 0), mem),
                40,
            );
            &&& res is Some
            &&& res->0.stack == seq![Value::I32(p)]
            &&& load_i32(res->0.mem, p as int) == 5
            &&& res->0.mem[p + 4] == 102u8
            &&& res->0.mem[p + 5] == 97u8
            &&& res->0.mem[p + 6] == 108u8
            &&& res->0.mem[p + 7] == 115u8
            &&& res->0.mem[p + 8] == 101u8
        }),
{
    lemma_sv_code(mi, ii, fi, qi, ai, oi);
    lemma_sv_closings(mi, ii, fi, qi, ai, oi);
    assert(start(sv_locals(bx, 0, 0), mem).st.stack =~= Seq::<Value>::empty());
    lemma_sv_head(env, mem, bx, mi, ii, fi, qi, ai, oi, 40);
    lemma_sv_boolean_tag(env, mem, bx, mi, ii, fi, qi, ai, oi, 31);
    lemma_sv_false(env, mem, bx, mi, ii, fi, qi, ai, oi, p, m2, 21);
    let m3 = written(m2, p as int, le_bytes_u32(5u32));
    let m4 = written(m3, p + 4, le_bytes_u32(0x736C6166u32));
    lemma_load_after_write_u32(m2, p as int, 5u32, p + 4);
    lemma_load_after_write_u32(m3, p + 4, 0x736C6166u32, p as int);
    assert(load_u32(written(m4, p + 8, seq![(101i32 & 0xff) as u8]), p as int) == load_u32(m4, p as int));
    assert((0x736C6166u32 & 0xff) == 0x66u32 && ((0x736C6166u32 >> 8u32) & 0xff) == 0x61u32 && ((0x736C6166u32
        >> 16u32) & 0xff) == 0x6Cu32 && ((0x736C6166u32 >> 24u32) & 0xff) == 0x73u32 && (101i32 & 0xff) == 101i32)
        by (bit_vector);
}

} // verus!
