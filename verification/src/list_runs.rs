//! What `list.concat` computes, run on the machine of `machine`.

use vstd::prelude::*;
use crate::semantics::{MachineState, Value, closing, load_i32, load_u32, lemma_load_after_write_u32};
use crate::machine::{Config, Env, Label, exec, next, start, lemma_exec_chain};
use crate::memory::{le_bytes_u32, written};
use crate::list_class::ListClass;
use crate::wasm::{BlockType, Instruction, MemArg};

verus! {

/// The first part of `list.concat`'s instructions, written out.
#[verifier::opaque]
pub open spec fn cc_code_1() -> Seq<Instruction> {
    seq![
        Instruction::LocalGet(0),
        Instruction::I32Load(MemArg { offset: 0, align: 2, memory_index: 0 }),
        Instruction::LocalSet(2),
        Instruction::LocalGet(1),
        Instruction::I32Load(MemArg { offset: 0, align: 2, memory_index: 0 }),
        Instruction::LocalSet(3),
        Instruction::LocalGet(2),
        Instruction::LocalGet(3),
        Instruction::I32Add,
        Instruction::LocalSet(4),
        Instruction::I32Const(4),
        Instruction::I32Const(16),
        Instruction::LocalGet(4),
        Instruction::I32Const(4),
        Instruction::I32Mul,
        Instruction::I32Add,
        Instruction::Call(7),
        Instruction::LocalSet(5),
        Instruction::LocalGet(5),
        Instruction::LocalGet(4),
        Instruction::I32Store(MemArg { offset: 0, align: 2, memory_index: 0 }),
        Instruction::LocalGet(5),
        Instruction::LocalGet(4),
        Instruction::I32Store(MemArg { offset: 4, align: 2, memory_index: 0 }),
        Instruction::LocalGet(5),
        Instruction::I32Const(4),
        Instruction::I32Store(MemArg { offset: 8, align: 2, memory_index: 0 }),
        Instruction::I32Const(0),
        Instruction::LocalSet(6),
        Instruction::Block(BlockType::Empty),
        Instruction::Loop(BlockType::Empty),
        Instruction::LocalGet(6),
        Instruction::LocalGet(2),
        Instruction::I32GeS,
        Instruction::BrIf(1),
        Instruction::LocalGet(5),
        Instruction::I32Const(16),
        Instruction::I32Add,
        Instruction::LocalGet(6),
        Instruction::I32Const(4),
        Instruction::I32Mul,
        Instruction::I32Add,
        Instruction::LocalGet(0),
        Instruction::I32Const(16),
        Instruction::I32Add,
        Instruction::LocalGet(6),
        Instruction::I32Const(4),
        Instruction::I32Mul,
        Instruction::I32Add,
        Instruction::I32Load(MemArg { offset: 0, align: 2, memory_index: 0 }),
        Instruction::I32Store(MemArg { offset: 0, align: 2, memory_index: 0 }),
        Instruction::LocalGet(6),
        Instruction::I32Const(1),
        Instruction::I32Add,
        Instruction::LocalSet(6),
        Instruction::Br(0),
        Instruction::End,
        Instruction::End,
        Instruction::I32Const(0),
        Instruction::LocalSet(6),
        Instruction::Block(BlockType::Empty),
        Instruction::Loop(BlockType::Empty),
        Instruction::LocalGet(6),
        Instruction::LocalGet(3),
        Instruction::I32GeS,
        Instruction::BrIf(1),
        Instruction::LocalGet(5),
        Instruction::I32Const(16),
        Instruction::I32Add,
        Instruction::LocalGet(2),
        Instruction::LocalGet(6),
        Instruction::I32Add,
        Instruction::I32Const(4),
        Instruction::I32Mul,
        Instruction::I32Add,
        Instruction::LocalGet(1),
        Instruction::I32Const(16),
        Instruction::I32Add,
        Instruction::LocalGet(6),
        Instruction::I32Const(4),
        Instruction::I32Mul,
        Instruction::I32Add,
        Instruction::I32Load(MemArg { offset: 0, align: 2, memory_index: 0 }),
        Instruction::I32Store(MemArg { offset: 0, align: 2, memory_index: 0 }),
        Instruction::LocalGet(6),
        Instruction::I32Const(1),
        Instruction::I32Add,
        Instruction::LocalSet(6),
        Instruction::Br(0),
        Instruction::End,
    ]
}

/// The rest of `list.concat`'s instructions, written out.
#[verifier::opaque]
pub open spec fn cc_code_2() -> Seq<Instruction> {
    seq![
        Instruction::End,
        Instruction::LocalGet(5),
    ]
}

/// `list.concat`'s instructions written out.
pub open spec fn cc_code() -> Seq<Instruction> {
    cc_code_1() + cc_code_2()
}

#[verifier::rlimit(100)]
#[verifier::spinoff_prover]
proof fn lemma_cc_code_1_0()
    ensures
        forall|i: int| 0 <= i < 23 ==> #[trigger] ListClass::concat_part_1(Seq::<Instruction>::empty())[i] == cc_code_1()[i],
{
    reveal(ListClass::concat_part_1);
    reveal(cc_code_1);
}

#[verifier::rlimit(100)]
#[verifier::spinoff_prover]
proof fn lemma_cc_code_1_23()
    ensures
        forall|i: int| 23 <= i < 46 ==> #[trigger] ListClass::concat_part_1(Seq::<Instruction>::empty())[i] == cc_code_1()[i],
{
    reveal(ListClass::concat_part_1);
    reveal(cc_code_1);
}

#[verifier::rlimit(100)]
#[verifier::spinoff_prover]
proof fn lemma_cc_code_1_46()
    ensures
        forall|i: int| 46 <= i < 69 ==> #[trigger] ListClass::concat_part_1(Seq::<Instruction>::empty())[i] == cc_code_1()[i],
{
    reveal(ListClass::concat_part_1);
    reveal(cc_code_1);
}

#[verifier::rlimit(100)]
#[verifier::spinoff_prover]
proof fn lemma_cc_code_1_69()
    ensures
        forall|i: int| 69 <= i < 90 ==> #[trigger] ListClass::concat_part_1(Seq::<Instruction>::empty())[i] == cc_code_1()[i],
{
    reveal(ListClass::concat_part_1);
    reveal(cc_code_1);
}

#[verifier::rlimit(100)]
#[verifier::spinoff_prover]
proof fn lemma_cc_code_2(t: Seq<Instruction>)
    ensures
        ListClass::concat_part_2(t) == t + cc_code_2(),
{
    reveal(ListClass::concat_part_2);
    reveal(cc_code_2);
    assert(ListClass::concat_part_2(t) =~= t + cc_code_2());
}

/// The generated body is the one written out above.
proof fn lemma_cc_code()
    ensures
        ListClass::concat_body() == cc_code(),
{
    lemma_cc_code_1_0();
    lemma_cc_code_1_23();
    lemma_cc_code_1_46();
    lemma_cc_code_1_69();
    assert(ListClass::concat_part_1(Seq::<Instruction>::empty()).len() == 90) by {
        reveal(ListClass::concat_part_1);
    }
    assert(cc_code_1().len() == 90) by {
        reveal(cc_code_1);
    }
    assert(ListClass::concat_part_1(Seq::<Instruction>::empty()) =~= cc_code_1());
    lemma_cc_code_2(cc_code_1());
    reveal(ListClass::concat_body);
}

/// The locals of `list.concat`: the two lists, their sizes, the total, the
/// new list and the loop index.
pub open spec fn cc_locals(l1: i32, l2: i32, n1: i32, n2: i32, n: i32, p: i32, i: i32) -> Seq<Value> {
    seq![
        Value::I32(l1),
        Value::I32(l2),
        Value::I32(n1),
        Value::I32(n2),
        Value::I32(n),
        Value::I32(p),
        Value::I32(i),
    ]
}

/// Element i of the list at `l`: the i32 past its 16-byte header.
pub open spec fn list_element(mem: Seq<u8>, l: int, i: int) -> i32 {
    load_i32(mem, l + 16 + 4 * i)
}

/// Memory `m` after copying the first k words from `src` to `dst`, one
/// at a time, each read as it stands when it is copied.
pub open spec fn copied(m: Seq<u8>, src: int, dst: int, k: nat) -> Seq<u8>
    decreases k,
{
    if k == 0 {
        m
    } else {
        let q = copied(m, src, dst, (k - 1) as nat);
        written(q, dst + 4 * (k - 1), le_bytes_u32(load_i32(q, src + 4 * (k - 1)) as u32))
    }
}

/// The labels open in `list.concat`'s first loop.
pub open spec fn cc_labels_1() -> Seq<Label> {
    seq![
        Label { is_loop: false, start: 29, height: 0, arity: 0 },
        Label { is_loop: true, start: 30, height: 0, arity: 0 },
    ]
}

/// The labels open in `list.concat`'s second loop.
pub open spec fn cc_labels_2() -> Seq<Label> {
    seq![
        Label { is_loop: false, start: 60, height: 0, arity: 0 },
        Label { is_loop: true, start: 61, height: 0, arity: 0 },
    ]
}

/// Where the blocks of `list.concat` end.
proof fn lemma_cc_closings()
    ensures
        cc_code().len() == 92,
        closing(cc_code(), 30, 0, false) == 57,
        closing(cc_code(), 61, 0, false) == 90,
{
    reveal(cc_code_1);
    reveal(cc_code_2);
    reveal_with_fuel(closing, 35);
}

/// `list.concat` up to its first loop: sizes read, the new list allocated and its header written.
#[verifier::rlimit(80)]
#[verifier::spinoff_prover]
proof fn lemma_cc_setup(env: Env, mem: Seq<u8>, l1: i32, l2: i32, p: i32, m1: Seq<u8>, fuel: nat)
    requires
        0 <= l1,
        0 <= l2,
        l1 + 4 <= mem.len(),
        l2 + 4 <= mem.len(),
        0 <= load_i32(mem, l1 as int),
        0 <= load_i32(mem, l2 as int),
        16 + 4 * (load_i32(mem, l1 as int) + load_i32(mem, l2 as int)) <= i32::MAX,
        0 <= p,
        p + 16 <= m1.len(),
        p + 16 <= i32::MAX,
        (env.arity)(7) == 2,
        (env.call)(7, seq![Value::I32(4), Value::I32((16 + 4 * (load_i32(mem, l1 as int) + load_i32(mem, l2 as int))) as i32)], mem) == Some((seq![Value::I32(p)], m1)),
        fuel >= 31,
    ensures
        ({
            let n1 = load_i32(mem, l1 as int);
            let n2 = load_i32(mem, l2 as int);
            let n = (n1 + n2) as i32;
            let n4 = (n * 4) as i32;
            let sz = (16 + n4) as i32;
            let a0 = cc_locals(l1, l2, 0, 0, 0, 0, 0);
            let a1 = cc_locals(l1, l2, n1, 0, 0, 0, 0);
            let a2 = cc_locals(l1, l2, n1, n2, 0, 0, 0);
            let a3 = cc_locals(l1, l2, n1, n2, n, 0, 0);
            let a4 = cc_locals(l1, l2, n1, n2, n, p, 0);
            let ma = written(m1, p as int, le_bytes_u32(n as u32));
            let mb = written(ma, p + 4, le_bytes_u32(n as u32));
            let mc = written(mb, p + 8, le_bytes_u32(4u32));
            exec(env, cc_code(), Config { st: MachineState { stack: Seq::<Value>::empty(), locals: a0, mem: mem }, pc: 0, labels: Seq::<Label>::empty(), done: false }, fuel) == exec(env, cc_code(), Config { st: MachineState { stack: Seq::<Value>::empty(), locals: a4, mem: mc }, pc: 31, labels: cc_labels_1(), done: false }, (fuel - 31) as nat)
        }),
{
    reveal(cc_code_1);
    reveal(cc_code_2);
    let code = cc_code();
    let n1 = load_i32(mem, l1 as int);
    let n2 = load_i32(mem, l2 as int);
    let n = (n1 + n2) as i32;
    let n4 = (n * 4) as i32;
    let sz = (16 + n4) as i32;
    let a0 = cc_locals(l1, l2, 0, 0, 0, 0, 0);
    let a1 = cc_locals(l1, l2, n1, 0, 0, 0, 0);
    let a2 = cc_locals(l1, l2, n1, n2, 0, 0, 0);
    let a3 = cc_locals(l1, l2, n1, n2, n, 0, 0);
    let a4 = cc_locals(l1, l2, n1, n2, n, p, 0);
    let ma = written(m1, p as int, le_bytes_u32(n as u32));
    let mb = written(ma, p + 4, le_bytes_u32(n as u32));
    let mc = written(mb, p + 8, le_bytes_u32(4u32));
    assert(seq![Value::I32(4), Value::I32((16 + 4 * (load_i32(mem, l1 as int) + load_i32(mem, l2 as int))) as i32)].subrange(0, 2) =~= seq![Value::I32(4), Value::I32((16 + 4 * (load_i32(mem, l1 as int) + load_i32(mem, l2 as int))) as i32)]);
    let cs = seq![
        Config { st: MachineState { stack: Seq::<Value>::empty(), locals: a0, mem: mem }, pc: 0, labels: Seq::<Label>::empty(), done: false },
        Config { st: MachineState { stack: seq![Value::I32(l1)], locals: a0, mem: mem }, pc: 1, labels: Seq::<Label>::empty(), done: false },
        Config { st: MachineState { stack: seq![Value::I32(n1)], locals: a0, mem: mem }, pc: 2, labels: Seq::<Label>::empty(), done: false },
        Config { st: MachineState { stack: Seq::<Value>::empty(), locals: a1, mem: mem }, pc: 3, labels: Seq::<Label>::empty(), done: false },
        Config { st: MachineState { stack: seq![Value::I32(l2)], locals: a1, mem: mem }, pc: 4, labels: Seq::<Label>::empty(), done: false },
        Config { st: MachineState { stack: seq![Value::I32(n2)], locals: a1, mem: mem }, pc: 5, labels: Seq::<Label>::empty(), done: false },
        Config { st: MachineState { stack: Seq::<Value>::empty(), locals: a2, mem: mem }, pc: 6, labels: Seq::<Label>::empty(), done: false },
        Config { st: MachineState { stack: seq![Value::I32(n1)], locals: a2, mem: mem }, pc: 7, labels: Seq::<Label>::empty(), done: false },
        Config { st: MachineState { stack: seq![Value::I32(n1), Value::I32(n2)], locals: a2, mem: mem }, pc: 8, labels: Seq::<Label>::empty(), done: false },
        Config { st: MachineState { stack: seq![Value::I32(n)], locals: a2, mem: mem }, pc: 9, labels: Seq::<Label>::empty(), done: false },
        Config { st: MachineState { stack: Seq::<Value>::empty(), locals: a3, mem: mem }, pc: 10, labels: Seq::<Label>::empty(), done: false },
        Config { st: MachineState { stack: seq![Value::I32(4)], locals: a3, mem: mem }, pc: 11, labels: Seq::<Label>::empty(), done: false },
        Config { st: MachineState { stack: seq![Value::I32(4), Value::I32(16)], locals: a3, mem: mem }, pc: 12, labels: Seq::<Label>::empty(), done: false },
        Config { st: MachineState { stack: seq![Value::I32(4), Value::I32(16), Value::I32(n)], locals: a3, mem: mem }, pc: 13, labels: Seq::<Label>::empty(), done: false },
        Config { st: MachineState { stack: seq![Value::I32(4), Value::I32(16), Value::I32(n), Value::I32(4)], locals: a3, mem: mem }, pc: 14, labels: Seq::<Label>::empty(), done: false },
        Config { st: MachineState { stack: seq![Value::I32(4), Value::I32(16), Value::I32(n4)], locals: a3, mem: mem }, pc: 15, labels: Seq::<Label>::empty(), done: false },
        Config { st: MachineState { stack: seq![Value::I32(4), Value::I32(sz)], locals: a3, mem: mem }, pc: 16, labels: Seq::<Label>::empty(), done: false },
        Config { st: MachineState { stack: seq![Value::I32(p)], locals: a3, mem: m1 }, pc: 17, labels: Seq::<Label>::empty(), done: false },
        Config { st: MachineState { stack: Seq::<Value>::empty(), locals: a4, mem: m1 }, pc: 18, labels: Seq::<Label>::empty(), done: false },
        Config { st: MachineState { stack: seq![Value::I32(p)], locals: a4, mem: m1 }, pc: 19, labels: Seq::<Label>::empty(), done: false },
        Config { st: MachineState { stack: seq![Value::I32(p), Value::I32(n)], locals: a4, mem: m1 }, pc: 20, labels: Seq::<Label>::empty(), done: false },
        Config { st: MachineState { stack: Seq::<Value>::empty(), locals: a4, mem: ma }, pc: 21, labels: Seq::<Label>::empty(), done: false },
        Config { st: MachineState { stack: seq![Value::I32(p)], locals: a4, mem: ma }, pc: 22, labels: Seq::<Label>::empty(), done: false },
        Config { st: MachineState { stack: seq![Value::I32(p), Value::I32(n)], locals: a4, mem: ma }, pc: 23, labels: Seq::<Label>::empty(), done: false },
        Config { st: MachineState { stack: Seq::<Value>::empty(), locals: a4, mem: mb }, pc: 24, labels: Seq::<Label>::empty(), done: false },
        Config { st: MachineState { stack: seq![Value::I32(p)], locals: a4, mem: mb }, pc: 25, labels: Seq::<Label>::empty(), done: false },
        Config { st: MachineState { stack: seq![Value::I32(p), Value::I32(4)], locals: a4, mem: mb }, pc: 26, labels: Seq::<Label>::empty(), done: false },
        Config { st: MachineState { stack: Seq::<Value>::empty(), locals: a4, mem: mc }, pc: 27, labels: Seq::<Label>::empty(), done: false },
        Config { st: MachineState { stack: seq![Value::I32(0)], locals: a4, mem: mc }, pc: 28, labels: Seq::<Label>::empty(), done: false },
        Config { st: MachineState { stack: Seq::<Value>::empty(), locals: a4, mem: mc }, pc: 29, labels: Seq::<Label>::empty(), done: false },
        Config { st: MachineState { stack: Seq::<Value>::empty(), locals: a4, mem: mc }, pc: 30, labels: seq![Label { is_loop: false, start: 29, height: 0, arity: 0 }], done: false },
        Config { st: MachineState { stack: Seq::<Value>::empty(), locals: a4, mem: mc }, pc: 31, labels: cc_labels_1(), done: false },
    ];
    assert forall|j: int| 0 <= j < 31 implies next(env, code, #[trigger] cs[j]) == Some(cs[j + 1]) by {
        reveal(next);
        let d = next(env, code, cs[j])->0;
        assert(next(env, code, cs[j]) is Some);
        assert(d.st.stack =~= cs[j + 1].st.stack);
        assert(d.st.locals =~= cs[j + 1].st.locals);
        assert(d.st.mem =~= cs[j + 1].st.mem);
        assert(d.labels =~= cs[j + 1].labels);
    }
    lemma_exec_chain(env, code, cs, 0, fuel);
}

/// The first half of a pass of `list.concat`'s first loop.
#[verifier::rlimit(80)]
#[verifier::spinoff_prover]
proof fn lemma_cc_first_a(env: Env, l1: i32, l2: i32, n1: i32, n2: i32, p: i32, m: Seq<u8>, k: nat, fuel: nat)
    requires
        0 <= l1,
        0 <= l2,
        0 <= n1,
        0 <= n2,
        0 <= p,
        k < n1,
        l1 + 16 + 4 * n1 <= i32::MAX,
        p + 16 + 4 * (n1 + n2) <= i32::MAX,
        copied(m, l1 + 16, p + 16, k).len() == m.len(),
        l1 + 16 + 4 * n1 <= m.len(),
        p + 16 + 4 * (n1 + n2) <= m.len(),
        fuel >= 12,
    ensures
        ({
            let n = (n1 + n2) as i32;
            let kk = k as i32;
            let mk = copied(m, l1 + 16, p + 16, k);
            let mk1 = copied(m, l1 + 16, p + 16, (k + 1) as nat);
            let p16 = (p + 16) as i32;
            let k4 = (kk * 4) as i32;
            let pd = (p16 + k4) as i32;
            let s16 = (l1 + 16) as i32;
            let ad = (s16 + k4) as i32;
            let v = load_i32(mk, ad as int);
            let lk = cc_locals(l1, l2, n1, n2, n, p, kk);
            let lk1 = cc_locals(l1, l2, n1, n2, n, p, (kk + 1) as i32);
            exec(env, cc_code(), Config { st: MachineState { stack: Seq::<Value>::empty(), locals: lk, mem: mk }, pc: 31, labels: cc_labels_1(), done: false }, fuel) == exec(env, cc_code(), Config { st: MachineState { stack: seq![Value::I32(pd), Value::I32(l1)], locals: lk, mem: mk }, pc: 43, labels: cc_labels_1(), done: false }, (fuel - 12) as nat)
        }),
{
    reveal(cc_code_1);
    reveal(cc_code_2);
    let code = cc_code();
    let n = (n1 + n2) as i32;
    let kk = k as i32;
    let mk = copied(m, l1 + 16, p + 16, k);
    let mk1 = copied(m, l1 + 16, p + 16, (k + 1) as nat);
    let p16 = (p + 16) as i32;
    let k4 = (kk * 4) as i32;
    let pd = (p16 + k4) as i32;
    let s16 = (l1 + 16) as i32;
    let ad = (s16 + k4) as i32;
    let v = load_i32(mk, ad as int);
    let lk = cc_locals(l1, l2, n1, n2, n, p, kk);
    let lk1 = cc_locals(l1, l2, n1, n2, n, p, (kk + 1) as i32);
    let cs = seq![
        Config { st: MachineState { stack: Seq::<Value>::empty(), locals: lk, mem: mk }, pc: 31, labels: cc_labels_1(), done: false },
        Config { st: MachineState { stack: seq![Value::I32(kk)], locals: lk, mem: mk }, pc: 32, labels: cc_labels_1(), done: false },
        Config { st: MachineState { stack: seq![Value::I32(kk), Value::I32(n1)], locals: lk, mem: mk }, pc: 33, labels: cc_labels_1(), done: false },
        Config { st: MachineState { stack: seq![Value::I32(0)], locals: lk, mem: mk }, pc: 34, labels: cc_labels_1(), done: false },
        Config { st: MachineState { stack: Seq::<Value>::empty(), locals: lk, mem: mk }, pc: 35, labels: cc_labels_1(), done: false },
        Config { st: MachineState { stack: seq![Value::I32(p)], locals: lk, mem: mk }, pc: 36, labels: cc_labels_1(), done: false },
        Config { st: MachineState { stack: seq![Value::I32(p), Value::I32(16)], locals: lk, mem: mk }, pc: 37, labels: cc_labels_1(), done: false },
        Config { st: MachineState { stack: seq![Value::I32(p16)], locals: lk, mem: mk }, pc: 38, labels: cc_labels_1(), done: false },
        Config { st: MachineState { stack: seq![Value::I32(p16), Value::I32(kk)], locals: lk, mem: mk }, pc: 39, labels: cc_labels_1(), done: false },
        Config { st: MachineState { stack: seq![Value::I32(p16), Value::I32(kk), Value::I32(4)], locals: lk, mem: mk }, pc: 40, labels: cc_labels_1(), done: false },
        Config { st: MachineState { stack: seq![Value::I32(p16), Value::I32(k4)], locals: lk, mem: mk }, pc: 41, labels: cc_labels_1(), done: false },
        Config { st: MachineState { stack: seq![Value::I32(pd)], locals: lk, mem: mk }, pc: 42, labels: cc_labels_1(), done: false },
        Config { st: MachineState { stack: seq![Value::I32(pd), Value::I32(l1)], locals: lk, mem: mk }, pc: 43, labels: cc_labels_1(), done: false },
    ];
    assert forall|j: int| 0 <= j < 12 implies next(env, code, #[trigger] cs[j]) == Some(cs[j + 1]) by {
        reveal(next);
        let d = next(env, code, cs[j])->0;
        assert(next(env, code, cs[j]) is Some);
        assert(d.st.stack =~= cs[j + 1].st.stack);
        assert(d.st.locals =~= cs[j + 1].st.locals);
        assert(d.st.mem =~= cs[j + 1].st.mem);
        assert(d.labels =~= cs[j + 1].labels);
    }
    lemma_exec_chain(env, code, cs, 0, fuel);
}

/// The second half of a pass of `list.concat`'s first loop: one word copied.
#[verifier::rlimit(80)]
#[verifier::spinoff_prover]
proof fn lemma_cc_first_b(env: Env, l1: i32, l2: i32, n1: i32, n2: i32, p: i32, m: Seq<u8>, k: nat, fuel: nat)
    requires
        0 <= l1,
        0 <= l2,
        0 <= n1,
        0 <= n2,
        0 <= p,
        k < n1,
        l1 + 16 + 4 * n1 <= i32::MAX,
        p + 16 + 4 * (n1 + n2) <= i32::MAX,
        copied(m, l1 + 16, p + 16, k).len() == m.len(),
        l1 + 16 + 4 * n1 <= m.len(),
        p + 16 + 4 * (n1 + n2) <= m.len(),
        fuel >= 13,
    ensures
        ({
            let n = (n1 + n2) as i32;
            let kk = k as i32;
            let mk = copied(m, l1 + 16, p + 16, k);
            let mk1 = copied(m, l1 + 16, p + 16, (k + 1) as nat);
            let p16 = (p + 16) as i32;
            let k4 = (kk * 4) as i32;
            let pd = (p16 + k4) as i32;
            let s16 = (l1 + 16) as i32;
            let ad = (s16 + k4) as i32;
            let v = load_i32(mk, ad as int);
            let lk = cc_locals(l1, l2, n1, n2, n, p, kk);
            let lk1 = cc_locals(l1, l2, n1, n2, n, p, (kk + 1) as i32);
            exec(env, cc_code(), Config { st: MachineState { stack: seq![Value::I32(pd), Value::I32(l1)], locals: lk, mem: mk }, pc: 43, labels: cc_labels_1(), done: false }, fuel) == exec(env, cc_code(), Config { st: MachineState { stack: Seq::<Value>::empty(), locals: lk1, mem: mk1 }, pc: 31, labels: cc_labels_1(), done: false }, (fuel - 13) as nat)
        }),
{
    reveal(cc_code_1);
    reveal(cc_code_2);
    let code = cc_code();
    let n = (n1 + n2) as i32;
    let kk = k as i32;
    let mk = copied(m, l1 + 16, p + 16, k);
    let mk1 = copied(m, l1 + 16, p + 16, (k + 1) as nat);
    let p16 = (p + 16) as i32;
    let k4 = (kk * 4) as i32;
    let pd = (p16 + k4) as i32;
    let s16 = (l1 + 16) as i32;
    let ad = (s16 + k4) as i32;
    let v = load_i32(mk, ad as int);
    let lk = cc_locals(l1, l2, n1, n2, n, p, kk);
    let lk1 = cc_locals(l1, l2, n1, n2, n, p, (kk + 1) as i32);
    let cs = seq![
        Config { st: MachineState { stack: seq![Value::I32(pd), Value::I32(l1)], locals: lk, mem: mk }, pc: 43, labels: cc_labels_1(), done: false },
        Config { st: MachineState { stack: seq![Value::I32(pd), Value::I32(l1), Value::I32(16)], locals: lk, mem: mk }, pc: 44, labels: cc_labels_1(), done: false },
        Config { st: MachineState { stack: seq![Value::I32(pd), Value::I32(s16)], locals: lk, mem: mk }, pc: 45, labels: cc_labels_1(), done: false },
        Config { st: MachineState { stack: seq![Value::I32(pd), Value::I32(s16), Value::I32(kk)], locals: lk, mem: mk }, pc: 46, labels: cc_labels_1(), done: false },
        Config { st: MachineState { stack: seq![Value::I32(pd), Value::I32(s16), Value::I32(kk), Value::I32(4)], locals: lk, mem: mk }, pc: 47, labels: cc_labels_1(), done: false },
        Config { st: MachineState { stack: seq![Value::I32(pd), Value::I32(s16), Value::I32(k4)], locals: lk, mem: mk }, pc: 48, labels: cc_labels_1(), done: false },
        Config { st: MachineState { stack: seq![Value::I32(pd), Value::I32(ad)], locals: lk, mem: mk }, pc: 49, labels: cc_labels_1(), done: false },
        Config { st: MachineState { stack: seq![Value::I32(pd), Value::I32(v)], locals: lk, mem: mk }, pc: 50, labels: cc_labels_1(), done: false },
        Config { st: MachineState { stack: Seq::<Value>::empty(), locals: lk, mem: mk1 }, pc: 51, labels: cc_labels_1(), done: false },
        Config { st: MachineState { stack: seq![Value::I32(kk)], locals: lk, mem: mk1 }, pc: 52, labels: cc_labels_1(), done: false },
        Config { st: MachineState { stack: seq![Value::I32(kk), Value::I32(1)], locals: lk, mem: mk1 }, pc: 53, labels: cc_labels_1(), done: false },
        Config { st: MachineState { stack: seq![Value::I32((kk + 1) as i32)], locals: lk, mem: mk1 }, pc: 54, labels: cc_labels_1(), done: false },
        Config { st: MachineState { stack: Seq::<Value>::empty(), locals: lk1, mem: mk1 }, pc: 55, labels: cc_labels_1(), done: false },
        Config { st: MachineState { stack: Seq::<Value>::empty(), locals: lk1, mem: mk1 }, pc: 31, labels: cc_labels_1(), done: false },
    ];
    assert forall|j: int| 0 <= j < 13 implies next(env, code, #[trigger] cs[j]) == Some(cs[j + 1]) by {
        reveal(next);
        let d = next(env, code, cs[j])->0;
        assert(next(env, code, cs[j]) is Some);
        assert(d.st.stack =~= cs[j + 1].st.stack);
        assert(d.st.locals =~= cs[j + 1].st.locals);
        assert(d.st.mem =~= cs[j + 1].st.mem);
        assert(d.labels =~= cs[j + 1].labels);
    }
    lemma_exec_chain(env, code, cs, 0, fuel);
}

/// `list.concat` between its loops.
#[verifier::rlimit(80)]
#[verifier::spinoff_prover]
proof fn lemma_cc_between(env: Env, l1: i32, l2: i32, n1: i32, n2: i32, p: i32, m: Seq<u8>, fuel: nat)
    requires
        fuel >= 8,
    ensures
        ({
            let n = (n1 + n2) as i32;
            let ln = cc_locals(l1, l2, n1, n2, n, p, n1);
            let l0 = cc_locals(l1, l2, n1, n2, n, p, 0);
            exec(env, cc_code(), Config { st: MachineState { stack: Seq::<Value>::empty(), locals: ln, mem: m }, pc: 31, labels: cc_labels_1(), done: false }, fuel) == exec(env, cc_code(), Config { st: MachineState { stack: Seq::<Value>::empty(), locals: l0, mem: m }, pc: 62, labels: cc_labels_2(), done: false }, (fuel - 8) as nat)
        }),
{
    reveal(cc_code_1);
    reveal(cc_code_2);
    let code = cc_code();
    let n = (n1 + n2) as i32;
    let ln = cc_locals(l1, l2, n1, n2, n, p, n1);
    let l0 = cc_locals(l1, l2, n1, n2, n, p, 0);
    lemma_cc_closings();
    let cs = seq![
        Config { st: MachineState { stack: Seq::<Value>::empty(), locals: ln, mem: m }, pc: 31, labels: cc_labels_1(), done: false },
        Config { st: MachineState { stack: seq![Value::I32(n1)], locals: ln, mem: m }, pc: 32, labels: cc_labels_1(), done: false },
        Config { st: MachineState { stack: seq![Value::I32(n1), Value::I32(n1)], locals: ln, mem: m }, pc: 33, labels: cc_labels_1(), done: false },
        Config { st: MachineState { stack: seq![Value::I32(1)], locals: ln, mem: m }, pc: 34, labels: cc_labels_1(), done: false },
        Config { st: MachineState { stack: Seq::<Value>::empty(), locals: ln, mem: m }, pc: 58, labels: Seq::<Label>::empty(), done: false },
        Config { st: MachineState { stack: seq![Value::I32(0)], locals: ln, mem: m }, pc: 59, labels: Seq::<Label>::empty(), done: false },
        Config { st: MachineState { stack: Seq::<Value>::empty(), locals: l0, mem: m }, pc: 60, labels: Seq::<Label>::empty(), done: false },
        Config { st: MachineState { stack: Seq::<Value>::empty(), locals: l0, mem: m }, pc: 61, labels: seq![Label { is_loop: false, start: 60, height: 0, arity: 0 }], done: false },
        Config { st: MachineState { stack: Seq::<Value>::empty(), locals: l0, mem: m }, pc: 62, labels: cc_labels_2(), done: false },
    ];
    assert forall|j: int| 0 <= j < 8 implies next(env, code, #[trigger] cs[j]) == Some(cs[j + 1]) by {
        reveal(next);
        let d = next(env, code, cs[j])->0;
        assert(next(env, code, cs[j]) is Some);
        assert(d.st.stack =~= cs[j + 1].st.stack);
        assert(d.st.locals =~= cs[j + 1].st.locals);
        assert(d.st.mem =~= cs[j + 1].st.mem);
        assert(d.labels =~= cs[j + 1].labels);
    }
    lemma_exec_chain(env, code, cs, 0, fuel);
}

/// The first half of a pass of `list.concat`'s second loop.
#[verifier::rlimit(80)]
#[verifier::spinoff_prover]
proof fn lemma_cc_second_a(env: Env, l1: i32, l2: i32, n1: i32, n2: i32, p: i32, m: Seq<u8>, k: nat, fuel: nat)
    requires
        0 <= l1,
        0 <= l2,
        0 <= n1,
        0 <= n2,
        0 <= p,
        k < n2,
        l2 + 16 + 4 * n2 <= i32::MAX,
        p + 16 + 4 * (n1 + n2) <= i32::MAX,
        copied(m, l2 + 16, p + 16 + 4 * n1, k).len() == m.len(),
        l2 + 16 + 4 * n2 <= m.len(),
        p + 16 + 4 * (n1 + n2) <= m.len(),
        fuel >= 13,
    ensures
        ({
            let n = (n1 + n2) as i32;
            let kk = k as i32;
            let mk = copied(m, l2 + 16, p + 16 + 4 * n1, k);
            let mk1 = copied(m, l2 + 16, p + 16 + 4 * n1, (k + 1) as nat);
            let p16 = (p + 16) as i32;
            let nk = (n1 + kk) as i32;
            let nk4 = (nk * 4) as i32;
            let pd = (p16 + nk4) as i32;
            let k4 = (kk * 4) as i32;
            let s16 = (l2 + 16) as i32;
            let ad = (s16 + k4) as i32;
            let v = load_i32(mk, ad as int);
            let lk = cc_locals(l1, l2, n1, n2, n, p, kk);
            let lk1 = cc_locals(l1, l2, n1, n2, n, p, (kk + 1) as i32);
            exec(env, cc_code(), Config { st: MachineState { stack: Seq::<Value>::empty(), locals: lk, mem: mk }, pc: 62, labels: cc_labels_2(), done: false }, fuel) == exec(env, cc_code(), Config { st: MachineState { stack: seq![Value::I32(pd)], locals: lk, mem: mk }, pc: 75, labels: cc_labels_2(), done: false }, (fuel - 13) as nat)
        }),
{
    reveal(cc_code_1);
    reveal(cc_code_2);
    let code = cc_code();
    let n = (n1 + n2) as i32;
    let kk = k as i32;
    let mk = copied(m, l2 + 16, p + 16 + 4 * n1, k);
    let mk1 = copied(m, l2 + 16, p + 16 + 4 * n1, (k + 1) as nat);
    let p16 = (p + 16) as i32;
    let nk = (n1 + kk) as i32;
    let nk4 = (nk * 4) as i32;
    let pd = (p16 + nk4) as i32;
    let k4 = (kk * 4) as i32;
    let s16 = (l2 + 16) as i32;
    let ad = (s16 + k4) as i32;
    let v = load_i32(mk, ad as int);
    let lk = cc_locals(l1, l2, n1, n2, n, p, kk);
    let lk1 = cc_locals(l1, l2, n1, n2, n, p, (kk + 1) as i32);
    let cs = seq![
        Config { st: MachineState { stack: Seq::<Value>::empty(), locals: lk, mem: mk }, pc: 62, labels: cc_labels_2(), done: false },
        Config { st: MachineState { stack: seq![Value::I32(kk)], locals: lk, mem: mk }, pc: 63, labels: cc_labels_2(), done: false },
        Config { st: MachineState { stack: seq![Value::I32(kk), Value::I32(n2)], locals: lk, mem: mk }, pc: 64, labels: cc_labels_2(), done: false },
        Config { st: MachineState { stack: seq![Value::I32(0)], locals: lk, mem: mk }, pc: 65, labels: cc_labels_2(), done: false },
        Config { st: MachineState { stack: Seq::<Value>::empty(), locals: lk, mem: mk }, pc: 66, labels: cc_labels_2(), done: false },
        Config { st: MachineState { stack: seq![Value::I32(p)], locals: lk, mem: mk }, pc: 67, labels: cc_labels_2(), done: false },
        Config { st: MachineState { stack: seq![Value::I32(p), Value::I32(16)], locals: lk, mem: mk }, pc: 68, labels: cc_labels_2(), done: false },
        Config { st: MachineState { stack: seq![Value::I32(p16)], locals: lk, mem: mk }, pc: 69, labels: cc_labels_2(), done: false },
        Config { st: MachineState { stack: seq![Value::I32(p16), Value::I32(n1)], locals: lk, mem: mk }, pc: 70, labels: cc_labels_2(), done: false },
        Config { st: MachineState { stack: seq![Value::I32(p16), Value::I32(n1), Value::I32(kk)], locals: lk, mem: mk }, pc: 71, labels: cc_labels_2(), done: false },
        Config { st: MachineState { stack: seq![Value::I32(p16), Value::I32(nk)], locals: lk, mem: mk }, pc: 72, labels: cc_labels_2(), done: false },
        Config { st: MachineState { stack: seq![Value::I32(p16), Value::I32(nk), Value::I32(4)], locals: lk, mem: mk }, pc: 73, labels: cc_labels_2(), done: false },
        Config { st: MachineState { stack: seq![Value::I32(p16), Value::I32(nk4)], locals: lk, mem: mk }, pc: 74, labels: cc_labels_2(), done: false },
        Config { st: MachineState { stack: seq![Value::I32(pd)], locals: lk, mem: mk }, pc: 75, labels: cc_labels_2(), done: false },
    ];
    assert forall|j: int| 0 <= j < 13 implies next(env, code, #[trigger] cs[j]) == Some(cs[j + 1]) by {
        reveal(next);
        let d = next(env, code, cs[j])->0;
        assert(next(env, code, cs[j]) is Some);
        assert(d.st.stack =~= cs[j + 1].st.stack);
        assert(d.st.locals =~= cs[j + 1].st.locals);
        assert(d.st.mem =~= cs[j + 1].st.mem);
        assert(d.labels =~= cs[j + 1].labels);
    }
    lemma_exec_chain(env, code, cs, 0, fuel);
}

/// The second half of a pass of `list.concat`'s second loop: one word copied.
#[verifier::rlimit(80)]
#[verifier::spinoff_prover]
proof fn lemma_cc_second_b(env: Env, l1: i32, l2: i32, n1: i32, n2: i32, p: i32, m: Seq<u8>, k: nat, fuel: nat)
    requires
        0 <= l1,
        0 <= l2,
        0 <= n1,
        0 <= n2,
        0 <= p,
        k < n2,
        l2 + 16 + 4 * n2 <= i32::MAX,
        p + 16 + 4 * (n1 + n2) <= i32::MAX,
        copied(m, l2 + 16, p + 16 + 4 * n1, k).len() == m.len(),
        l2 + 16 + 4 * n2 <= m.len(),
        p + 16 + 4 * (n1 + n2) <= m.len(),
        fuel >= 14,
    ensures
        ({
            let n = (n1 + n2) as i32;
            let kk = k as i32;
            let mk = copied(m, l2 + 16, p + 16 + 4 * n1, k);
            let mk1 = copied(m, l2 + 16, p + 16 + 4 * n1, (k + 1) as nat);
            let p16 = (p + 16) as i32;
            let nk = (n1 + kk) as i32;
            let nk4 = (nk * 4) as i32;
            let pd = (p16 + nk4) as i32;
            let k4 = (kk * 4) as i32;
            let s16 = (l2 + 16) as i32;
            let ad = (s16 + k4) as i32;
            let v = load_i32(mk, ad as int);
            let lk = cc_locals(l1, l2, n1, n2, n, p, kk);
            let lk1 = cc_locals(l1, l2, n1, n2, n, p, (kk + 1) as i32);
            exec(env, cc_code(), Config { st: MachineState { stack: seq![Value::I32(pd)], locals: lk, mem: mk }, pc: 75, labels: cc_labels_2(), done: false }, fuel) == exec(env, cc_code(), Config { st: MachineState { stack: Seq::<Value>::empty(), locals: lk1, mem: mk1 }, pc: 62, labels: cc_labels_2(), done: false }, (fuel - 14) as nat)
        }),
{
    reveal(cc_code_1);
    reveal(cc_code_2);
    let code = cc_code();
    let n = (n1 + n2) as i32;
    let kk = k as i32;
    let mk = copied(m, l2 + 16, p + 16 + 4 * n1, k);
    let mk1 = copied(m, l2 + 16, p + 16 + 4 * n1, (k + 1) as nat);
    let p16 = (p + 16) as i32;
    let nk = (n1 + kk) as i32;
    let nk4 = (nk * 4) as i32;
    let pd = (p16 + nk4) as i32;
    let k4 = (kk * 4) as i32;
    let s16 = (l2 + 16) as i32;
    let ad = (s16 + k4) as i32;
    let v = load_i32(mk, ad as int);
    let lk = cc_locals(l1, l2, n1, n2, n, p, kk);
    let lk1 = cc_locals(l1, l2, n1, n2, n, p, (kk + 1) as i32);
    let cs = seq![
        Config { st: MachineState { stack: seq![Value::I32(pd)], locals: lk, mem: mk }, pc: 75, labels: cc_labels_2(), done: false },
        Config { st: MachineState { stack: seq![Value::I32(pd), Value::I32(l2)], locals: lk, mem: mk }, pc: 76, labels: cc_labels_2(), done: false },
        Config { st: MachineState { stack: seq![Value::I32(pd), Value::I32(l2), Value::I32(16)], locals: lk, mem: mk }, pc: 77, labels: cc_labels_2(), done: false },
        Config { st: MachineState { stack: seq![Value::I32(pd), Value::I32(s16)], locals: lk, mem: mk }, pc: 78, labels: cc_labels_2(), done: false },
        Config { st: MachineState { stack: seq![Value::I32(pd), Value::I32(s16), Value::I32(kk)], locals: lk, mem: mk }, pc: 79, labels: cc_labels_2(), done: false },
        Config { st: MachineState { stack: seq![Value::I32(pd), Value::I32(s16), Value::I32(kk), Value::I32(4)], locals: lk, mem: mk }, pc: 80, labels: cc_labels_2(), done: false },
        Config { st: MachineState { stack: seq![Value::I32(pd), Value::I32(s16), Value::I32(k4)], locals: lk, mem: mk }, pc: 81, labels: cc_labels_2(), done: false },
        Config { st: MachineState { stack: seq![Value::I32(pd), Value::I32(ad)], locals: lk, mem: mk }, pc: 82, labels: cc_labels_2(), done: false },
        Config { st: MachineState { stack: seq![Value::I32(pd), Value::I32(v)], locals: lk, mem: mk }, pc: 83, labels: cc_labels_2(), done: false },
        Config { st: MachineState { stack: Seq::<Value>::empty(), locals: lk, mem: mk1 }, pc: 84, labels: cc_labels_2(), done: false },
        Config { st: MachineState { stack: seq![Value::I32(kk)], locals: lk, mem: mk1 }, pc: 85, labels: cc_labels_2(), done: false },
        Config { st: MachineState { stack: seq![Value::I32(kk), Value::I32(1)], locals: lk, mem: mk1 }, pc: 86, labels: cc_labels_2(), done: false },
        Config { st: MachineState { stack: seq![Value::I32((kk + 1) as i32)], locals: lk, mem: mk1 }, pc: 87, labels: cc_labels_2(), done: false },
        Config { st: MachineState { stack: Seq::<Value>::empty(), locals: lk1, mem: mk1 }, pc: 88, labels: cc_labels_2(), done: false },
        Config { st: MachineState { stack: Seq::<Value>::empty(), locals: lk1, mem: mk1 }, pc: 62, labels: cc_labels_2(), done: false },
    ];
    assert forall|j: int| 0 <= j < 14 implies next(env, code, #[trigger] cs[j]) == Some(cs[j + 1]) by {
        reveal(next);
        let d = next(env, code, cs[j])->0;
        assert(next(env, code, cs[j]) is Some);
        assert(d.st.stack =~= cs[j + 1].st.stack);
        assert(d.st.locals =~= cs[j + 1].st.locals);
        assert(d.st.mem =~= cs[j + 1].st.mem);
        assert(d.labels =~= cs[j + 1].labels);
    }
    lemma_exec_chain(env, code, cs, 0, fuel);
}

/// The end of `list.concat`: it gives the new list.
#[verifier::rlimit(80)]
#[verifier::spinoff_prover]
proof fn lemma_cc_end(env: Env, l1: i32, l2: i32, n1: i32, n2: i32, p: i32, m: Seq<u8>, fuel: nat)
    requires
        fuel >= 5,
    ensures
        ({
            let n = (n1 + n2) as i32;
            let ln = cc_locals(l1, l2, n1, n2, n, p, n2);
            exec(env, cc_code(), Config { st: MachineState { stack: Seq::<Value>::empty(), locals: ln, mem: m }, pc: 62, labels: cc_labels_2(), done: false }, fuel) == exec(env, cc_code(), Config { st: MachineState { stack: seq![Value::I32(p)], locals: ln, mem: m }, pc: 92, labels: Seq::<Label>::empty(), done: false }, (fuel - 5) as nat)
        }),
{
    reveal(cc_code_1);
    reveal(cc_code_2);
    let code = cc_code();
    let n = (n1 + n2) as i32;
    let ln = cc_locals(l1, l2, n1, n2, n, p, n2);
    lemma_cc_closings();
    let cs = seq![
        Config { st: MachineState { stack: Seq::<Value>::empty(), locals: ln, mem: m }, pc: 62, labels: cc_labels_2(), done: false },
        Config { st: MachineState { stack: seq![Value::I32(n2)], locals: ln, mem: m }, pc: 63, labels: cc_labels_2(), done: false },
        Config { st: MachineState { stack: seq![Value::I32(n2), Value::I32(n2)], locals: ln, mem: m }, pc: 64, labels: cc_labels_2(), done: false },
        Config { st: MachineState { stack: seq![Value::I32(1)], locals: ln, mem: m }, pc: 65, labels: cc_labels_2(), done: false },
        Config { st: MachineState { stack: Seq::<Value>::empty(), locals: ln, mem: m }, pc: 91, labels: Seq::<Label>::empty(), done: false },
        Config { st: MachineState { stack: seq![Value::I32(p)], locals: ln, mem: m }, pc: 92, labels: Seq::<Label>::empty(), done: false },
    ];
    assert forall|j: int| 0 <= j < 5 implies next(env, code, #[trigger] cs[j]) == Some(cs[j + 1]) by {
        reveal(next);
        let d = next(env, code, cs[j])->0;
        assert(next(env, code, cs[j]) is Some);
        assert(d.st.stack =~= cs[j + 1].st.stack);
        assert(d.st.locals =~= cs[j + 1].st.locals);
        assert(d.st.mem =~= cs[j + 1].st.mem);
        assert(d.labels =~= cs[j + 1].labels);
    }
    lemma_exec_chain(env, code, cs, 0, fuel);
}

/// Word i from `base`.
pub open spec fn word(mem: Seq<u8>, base: int, i: int) -> i32 {
    load_i32(mem, base + 4 * i)
}

/// Memory that agrees on four bytes reads the same word there.
proof fn lemma_same_u32(q: Seq<u8>, m: Seq<u8>, x: int)
    requires
        0 <= x,
        x + 4 <= q.len(),
        x + 4 <= m.len(),
        q[x] == m[x],
        q[x + 1] == m[x + 1],
        q[x + 2] == m[x + 2],
        q[x + 3] == m[x + 3],
    ensures
        load_i32(q, x) == load_i32(m, x),
{
}

/// A word written little-endian is read back.
proof fn lemma_u32_roundtrip(mem: Seq<u8>, a: int, v: i32)
    requires
        0 <= a,
        a + 4 <= mem.len(),
    ensures
        load_i32(written(mem, a, le_bytes_u32(v as u32)), a) == v,
{
    let u = v as u32;
    let w = written(mem, a, le_bytes_u32(u));
    let bs = le_bytes_u32(u);
    assert(w[a] == bs[0] && w[a + 1] == bs[1] && w[a + 2] == bs[2] && w[a + 3] == bs[3]);
    assert(u == (u & 0xff) + 256 * ((u >> 8u32) & 0xff) + 65536 * ((u >> 16u32) & 0xff) + 16777216 * ((u
        >> 24u32) & 0xff) && (u & 0xff) < 256 && ((u >> 8u32) & 0xff) < 256 && ((u >> 16u32) & 0xff)
        < 256 && ((u >> 24u32) & 0xff) < 256) by (bit_vector);
    assert((v as u32) as i32 == v) by (bit_vector);
}

/// Copying word by word: after k words, word i < k at `dst` is word i at
/// `src` as it was before, and nothing outside the first k words at `dst`
/// has changed.
proof fn lemma_copied(m: Seq<u8>, src: int, dst: int, nn: nat, k: nat)
    requires
        k <= nn,
        0 <= src,
        0 <= dst,
        src + 4 * nn <= m.len(),
        dst + 4 * nn <= m.len(),
        dst + 4 * nn <= src || src + 4 * nn <= dst,
    ensures
        copied(m, src, dst, k).len() == m.len(),
        forall|x: int| 0 <= x < m.len() && !(dst <= x < dst + 4 * k) ==> #[trigger] copied(m, src, dst, k)[x] == m[x],
        forall|i: int| 0 <= i < k ==> #[trigger] word(copied(m, src, dst, k), dst, i) == word(m, src, i),
    decreases k,
{
    if k > 0 {
        let j = k - 1;
        lemma_copied(m, src, dst, nn, (k - 1) as nat);
        let q = copied(m, src, dst, (k - 1) as nat);
        let r = copied(m, src, dst, k);
        lemma_same_u32(q, m, src + 4 * j);
        let v = load_i32(q, src + 4 * j);
        assert(r == written(q, dst + 4 * j, le_bytes_u32(v as u32)));
        lemma_u32_roundtrip(q, dst + 4 * j, v);
        assert forall|i: int| 0 <= i < k implies #[trigger] word(copied(m, src, dst, k), dst, i) == word(m, src, i) by {
            if i < j {
                assert(word(q, dst, i) == word(m, src, i));
                lemma_same_u32(r, q, dst + 4 * i);
            }
        }
    }
}

/// One pass of `list.concat`'s first loop.
proof fn lemma_cc_first_pass(env: Env, l1: i32, l2: i32, n1: i32, n2: i32, p: i32, m: Seq<u8>, k: nat, fuel: nat)
    requires
        0 <= l1,
        0 <= l2,
        0 <= n1,
        0 <= n2,
        0 <= p,
        l1 + 16 + 4 * n1 <= i32::MAX,
        l2 + 16 + 4 * n2 <= i32::MAX,
        p + 16 + 4 * (n1 + n2) <= i32::MAX,
        l1 + 16 + 4 * n1 <= m.len(),
        l2 + 16 + 4 * n2 <= m.len(),
        p + 16 + 4 * (n1 + n2) <= m.len(),
        p + 16 + 4 * (n1 + n2) <= l1 + 16 || l1 + 16 + 4 * n1 <= p + 16,
        p + 16 + 4 * (n1 + n2) <= l2 + 16 || l2 + 16 + 4 * n2 <= p + 16,
        k < n1,
        fuel >= 25,
    ensures
        exec(env, cc_code(), Config { st: MachineState { stack: Seq::<Value>::empty(), locals: cc_locals(l1, l2, n1, n2, (n1 + n2) as i32, p, k as i32), mem: copied(m, l1 + 16, p + 16, k) }, pc: 31, labels: cc_labels_1(), done: false }, fuel) == exec(env, cc_code(), Config { st: MachineState { stack: Seq::<Value>::empty(), locals: cc_locals(l1, l2, n1, n2, (n1 + n2) as i32, p, (k + 1) as i32), mem: copied(m, l1 + 16, p + 16, (k + 1) as nat) }, pc: 31, labels: cc_labels_1(), done: false }, (fuel - 25) as nat),
{
    lemma_copied(m, l1 + 16, p + 16, n1 as nat, k);
    lemma_cc_first_a(env, l1, l2, n1, n2, p, m, k, fuel);
    lemma_cc_first_b(env, l1, l2, n1, n2, p, m, k, (fuel - 12) as nat);
}

/// `list.concat`'s first loop, from pass k on, up to the second loop.
proof fn lemma_cc_first_loop(env: Env, l1: i32, l2: i32, n1: i32, n2: i32, p: i32, m: Seq<u8>, k: nat, fuel: nat)
    requires
        0 <= l1,
        0 <= l2,
        0 <= n1,
        0 <= n2,
        0 <= p,
        l1 + 16 + 4 * n1 <= i32::MAX,
        l2 + 16 + 4 * n2 <= i32::MAX,
        p + 16 + 4 * (n1 + n2) <= i32::MAX,
        l1 + 16 + 4 * n1 <= m.len(),
        l2 + 16 + 4 * n2 <= m.len(),
        p + 16 + 4 * (n1 + n2) <= m.len(),
        p + 16 + 4 * (n1 + n2) <= l1 + 16 || l1 + 16 + 4 * n1 <= p + 16,
        p + 16 + 4 * (n1 + n2) <= l2 + 16 || l2 + 16 + 4 * n2 <= p + 16,
        k <= n1,
        fuel >= 25 * (n1 - k) + 8,
    ensures
        exec(env, cc_code(), Config { st: MachineState { stack: Seq::<Value>::empty(), locals: cc_locals(l1, l2, n1, n2, (n1 + n2) as i32, p, k as i32), mem: copied(m, l1 + 16, p + 16, k) }, pc: 31, labels: cc_labels_1(), done: false }, fuel) == exec(env, cc_code(), Config { st: MachineState { stack: Seq::<Value>::empty(), locals: cc_locals(l1, l2, n1, n2, (n1 + n2) as i32, p, 0), mem: copied(copied(m, l1 + 16, p + 16, n1 as nat), l2 + 16, p + 16 + 4 * n1, 0) }, pc: 62, labels: cc_labels_2(), done: false }, (fuel - 25 * (n1 - k) - 8) as nat),
    decreases n1 - k,
{
    if k < n1 {
        lemma_cc_first_pass(env, l1, l2, n1, n2, p, m, k, fuel);
        lemma_cc_first_loop(env, l1, l2, n1, n2, p, m, k + 1, (fuel - 25) as nat);
    } else {
        let mm = copied(m, l1 + 16, p + 16, n1 as nat);
        lemma_cc_between(env, l1, l2, n1, n2, p, mm, fuel);
        assert(copied(mm, l2 + 16, p + 16 + 4 * n1, 0) == mm);
    }
}

/// One pass of `list.concat`'s second loop.
proof fn lemma_cc_second_pass(env: Env, l1: i32, l2: i32, n1: i32, n2: i32, p: i32, m: Seq<u8>, k: nat, fuel: nat)
    requires
        0 <= l1,
        0 <= l2,
        0 <= n1,
        0 <= n2,
        0 <= p,
        l1 + 16 + 4 * n1 <= i32::MAX,
        l2 + 16 + 4 * n2 <= i32::MAX,
        p + 16 + 4 * (n1 + n2) <= i32::MAX,
        l1 + 16 + 4 * n1 <= m.len(),
        l2 + 16 + 4 * n2 <= m.len(),
        p + 16 + 4 * (n1 + n2) <= m.len(),
        p + 16 + 4 * (n1 + n2) <= l1 + 16 || l1 + 16 + 4 * n1 <= p + 16,
        p + 16 + 4 * (n1 + n2) <= l2 + 16 || l2 + 16 + 4 * n2 <= p + 16,
        k < n2,
        fuel >= 27,
    ensures
        exec(env, cc_code(), Config { st: MachineState { stack: Seq::<Value>::empty(), locals: cc_locals(l1, l2, n1, n2, (n1 + n2) as i32, p, k as i32), mem: copied(m, l2 + 16, p + 16 + 4 * n1, k) }, pc: 62, labels: cc_labels_2(), done: false }, fuel) == exec(env, cc_code(), Config { st: MachineState { stack: Seq::<Value>::empty(), locals: cc_locals(l1, l2, n1, n2, (n1 + n2) as i32, p, (k + 1) as i32), mem: copied(m, l2 + 16, p + 16 + 4 * n1, (k + 1) as nat) }, pc: 62, labels: cc_labels_2(), done: false }, (fuel - 27) as nat),
{
    lemma_copied(m, l2 + 16, p + 16 + 4 * n1, n2 as nat, k);
    lemma_cc_second_a(env, l1, l2, n1, n2, p, m, k, fuel);
    lemma_cc_second_b(env, l1, l2, n1, n2, p, m, k, (fuel - 13) as nat);
}

/// `list.concat`'s second loop, from pass k on, to the end.
proof fn lemma_cc_second_loop(env: Env, l1: i32, l2: i32, n1: i32, n2: i32, p: i32, m: Seq<u8>, k: nat, fuel: nat)
    requires
        0 <= l1,
        0 <= l2,
        0 <= n1,
        0 <= n2,
        0 <= p,
        l1 + 16 + 4 * n1 <= i32::MAX,
        l2 + 16 + 4 * n2 <= i32::MAX,
        p + 16 + 4 * (n1 + n2) <= i32::MAX,
        l1 + 16 + 4 * n1 <= m.len(),
        l2 + 16 + 4 * n2 <= m.len(),
        p + 16 + 4 * (n1 + n2) <= m.len(),
        p + 16 + 4 * (n1 + n2) <= l1 + 16 || l1 + 16 + 4 * n1 <= p + 16,
        p + 16 + 4 * (n1 + n2) <= l2 + 16 || l2 + 16 + 4 * n2 <= p + 16,
        k <= n2,
        fuel >= 27 * (n2 - k) + 5,
    ensures
        exec(env, cc_code(), Config { st: MachineState { stack: Seq::<Value>::empty(), locals: cc_locals(l1, l2, n1, n2, (n1 + n2) as i32, p, k as i32), mem: copied(m, l2 + 16, p + 16 + 4 * n1, k) }, pc: 62, labels: cc_labels_2(), done: false }, fuel) == Some(
            MachineState {
                stack: seq![Value::I32(p)],
                locals: cc_locals(l1, l2, n1, n2, (n1 + n2) as i32, p, n2),
                mem: copied(m, l2 + 16, p + 16 + 4 * n1, n2 as nat),
            },
        ),
    decreases n2 - k,
{
    if k < n2 {
        lemma_cc_second_pass(env, l1, l2, n1, n2, p, m, k, fuel);
        lemma_cc_second_loop(env, l1, l2, n1, n2, p, m, k + 1, (fuel - 27) as nat);
    } else {
        lemma_cc_closings();
        lemma_cc_end(env, l1, l2, n1, n2, p, copied(m, l2 + 16, p + 16 + 4 * n1, n2 as nat), fuel);
    }
}

/// The memory `list.concat` works on once the new list is allocated and
/// its header written: size and capacity n, element type 4.
pub open spec fn cc_header(m1: Seq<u8>, p: i32, n: i32) -> Seq<u8> {
    written(
        written(written(m1, p as int, le_bytes_u32(n as u32)), p + 4, le_bytes_u32(n as u32)),
        p + 8,
        le_bytes_u32(4u32),
    )
}

/// `list.concat` joins two lists: it allocates a new list (asking the
/// allocator, import 7, for 16 + 4 * (n1 + n2) bytes of type 4), whose size
/// and capacity are n1 + n2 and whose element k is element k of the first
/// list for k < n1 and element k - n1 of the second list for n1 <= k < n1 + n2,
/// and gives it back. The elements are those the two lists hold once the
/// allocation is done; the new list must not overlap them.
#[verifier::rlimit(80)]
#[verifier::spinoff_prover]
pub proof fn lemma_list_concat_joins(env: Env, mem: Seq<u8>, l1: i32, l2: i32, p: i32, m1: Seq<u8>)
    requires
        0 <= l1,
        0 <= l2,
        l1 + 4 <= mem.len(),
        l2 + 4 <= mem.len(),
        0 <= load_i32(mem, l1 as int),
        0 <= load_i32(mem, l2 as int),
        (env.arity)(7) == 2,
        (env.call)(
            7,
            seq![
                Value::I32(4),
                Value::I32((16 + 4 * (load_i32(mem, l1 as int) + load_i32(mem, l2 as int))) as i32),
            ],
            mem,
        ) == Some((seq![Value::I32(p)], m1)),
        0 <= p,
        l1 + 16 + 4 * load_i32(mem, l1 as int) <= m1.len(),
        l2 + 16 + 4 * load_i32(mem, l2 as int) <= m1.len(),
        p + 16 + 4 * (load_i32(mem, l1 as int) + load_i32(mem, l2 as int)) <= m1.len(),
        l1 + 16 + 4 * load_i32(mem, l1 as int) <= i32::MAX,
        l2 + 16 + 4 * load_i32(mem, l2 as int) <= i32::MAX,
        p + 16 + 4 * (load_i32(mem, l1 as int) + load_i32(mem, l2 as int)) <= i32::MAX,
        p + 16 + 4 * (load_i32(mem, l1 as int) + load_i32(mem, l2 as int)) <= l1 + 16 || l1 + 16 + 4
            * load_i32(mem, l1 as int) <= p,
        p + 16 + 4 * (load_i32(mem, l1 as int) + load_i32(mem, l2 as int)) <= l2 + 16 || l2 + 16 + 4
            * load_i32(mem, l2 as int) <= p,
    ensures
        ({
            let n1 = load_i32(mem, l1 as int);
            let n2 = load_i32(mem, l2 as int);
            let res = exec(
                env,
                ListClass::concat_body(),
                start(cc_locals(l1, l2, 0, 0, 0, 0, 0), mem),
                (44 + 27 * (n1 + n2)) as nat,
            );
            &&& res is Some
            &&& res->0.stack == seq![Value::I32(p)]
            &&& load_i32(res->0.mem, p as int) == n1 + n2
            &&& load_i32(res->0.mem, p + 4) == n1 + n2
            &&& load_i32(res->0.mem, p + 8) == 4
            &&& forall|k: int| 0 <= k < n1 ==> #[trigger] list_element(res->0.mem, p as int, k) == list_element(m1, l1 as int, k)
            &&& forall|k: int| n1 <= k < n1 + n2 ==> #[trigger] list_element(res->0.mem, p as int, k) == list_element(
                m1,
                l2 as int,
                k - n1,
            )
        }),
{
    let n1 = load_i32(mem, l1 as int);
    let n2 = load_i32(mem, l2 as int);
    let n = (n1 + n2) as i32;
    let fuel = (44 + 27 * (n1 + n2)) as nat;
    let mc = cc_header(m1, p, n);
    lemma_cc_code();
    lemma_cc_setup(env, mem, l1, l2, p, m1, fuel);
    assert(copied(mc, l1 + 16, p + 16, 0) == mc);
    lemma_cc_first_loop(env, l1, l2, n1, n2, p, mc, 0, (fuel - 31) as nat);
    let mm = copied(mc, l1 + 16, p + 16, n1 as nat);
    lemma_copied(mc, l1 + 16, p + 16, n1 as nat, n1 as nat);
    lemma_cc_second_loop(env, l1, l2, n1, n2, p, mm, 0, (fuel - 39 - 25 * n1) as nat);
    let f = copied(mm, l2 + 16, p + 16 + 4 * n1, n2 as nat);
    lemma_copied(mm, l2 + 16, p + 16 + 4 * n1, n2 as nat, n2 as nat);
    lemma_cc_result(m1, l1, l2, p, n1, n2);
}

/// What `list.concat`'s two loops leave, read against the memory they
/// started from.
#[verifier::rlimit(80)]
#[verifier::spinoff_prover]
proof fn lemma_cc_result(m1: Seq<u8>, l1: i32, l2: i32, p: i32, n1: i32, n2: i32)
    requires
        0 <= l1,
        0 <= l2,
        0 <= n1,
        0 <= n2,
        0 <= p,
        l1 + 16 + 4 * n1 <= m1.len(),
        l2 + 16 + 4 * n2 <= m1.len(),
        p + 16 + 4 * (n1 + n2) <= m1.len(),
        p + 16 + 4 * (n1 + n2) <= i32::MAX,
        p + 16 + 4 * (n1 + n2) <= l1 + 16 || l1 + 16 + 4 * n1 <= p,
        p + 16 + 4 * (n1 + n2) <= l2 + 16 || l2 + 16 + 4 * n2 <= p,
    ensures
        ({
            let mc = cc_header(m1, p, (n1 + n2) as i32);
            let mm = copied(mc, l1 + 16, p + 16, n1 as nat);
            let f = copied(mm, l2 + 16, p + 16 + 4 * n1, n2 as nat);
            &&& load_i32(f, p as int) == n1 + n2
            &&& load_i32(f, p + 4) == n1 + n2
            &&& load_i32(f, p + 8) == 4
            &&& forall|k: int| 0 <= k < n1 ==> #[trigger] list_element(f, p as int, k) == list_element(m1, l1 as int, k)
            &&& forall|k: int| n1 <= k < n1 + n2 ==> #[trigger] list_element(f, p as int, k) == list_element(m1, l2 as int, k - n1)
        }),
{
    let n = (n1 + n2) as i32;
    let ma = written(m1, p as int, le_bytes_u32(n as u32));
    let mb = written(ma, p + 4, le_bytes_u32(n as u32));
    let mc = cc_header(m1, p, n);
    let mm = copied(mc, l1 + 16, p + 16, n1 as nat);
    let f = copied(mm, l2 + 16, p + 16 + 4 * n1, n2 as nat);
    assert(mc.len() == m1.len());
    lemma_copied(mc, l1 + 16, p + 16, n1 as nat, n1 as nat);
    lemma_copied(mm, l2 + 16, p + 16 + 4 * n1, n2 as nat, n2 as nat);
    // the header
    lemma_same_u32(f, mm, p as int);
    lemma_same_u32(mm, mc, p as int);
    lemma_same_u32(f, mm, p + 4);
    lemma_same_u32(mm, mc, p + 4);
    lemma_same_u32(f, mm, p + 8);
    lemma_same_u32(mm, mc, p + 8);
    lemma_u32_roundtrip(m1, p as int, n);
    lemma_same_u32(mc, ma, p as int);
    lemma_u32_roundtrip(ma, p + 4, n);
    lemma_same_u32(mc, mb, p + 4);
    lemma_u32_roundtrip(mb, p + 8, 4i32);
    // the elements
    assert forall|k: int| 0 <= k < n1 implies #[trigger] list_element(f, p as int, k) == list_element(m1, l1 as int, k) by {
        lemma_same_u32(f, mm, p + 16 + 4 * k);
        assert(word(mm, p + 16, k) == word(mc, l1 + 16, k));
        lemma_same_u32(mc, m1, l1 + 16 + 4 * k);
    }
    assert forall|k: int| n1 <= k < n1 + n2 implies #[trigger] list_element(f, p as int, k) == list_element(m1, l2 as int, k - n1) by {
        assert(word(f, p + 16 + 4 * n1, k - n1) == word(mm, l2 + 16, k - n1));
        lemma_same_u32(mm, mc, l2 + 16 + 4 * (k - n1));
        lemma_same_u32(mc, m1, l2 + 16 + 4 * (k - n1));
    }
}

} // verus!
