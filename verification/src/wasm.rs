//! The WebAssembly vocabulary the standard library emits: value types,
//! block types, memory arguments and instructions, held as plain values.
//! `F64Const` carries the IEEE-754 bit pattern of the constant.

use vstd::prelude::*;

verus! {

/// A WebAssembly value type as the compiler's type layer names it.
#[derive(Clone, Copy, Debug, PartialEq, Eq, Structural)]
pub enum WasmType {
    I32,
    I64,
    F32,
    F64,
}

/// A value type inside a block type.
#[derive(Clone, Copy, Debug, PartialEq, Eq, Structural)]
pub enum ValType {
    I32,
    I64,
    F32,
    F64,
}

/// The type of a structured block.
#[derive(Clone, Copy, Debug, PartialEq, Eq, Structural)]
pub enum BlockType {
    Empty,
    Result(ValType),
}

/// Static offset, alignment exponent and memory of a load or store.
#[derive(Clone, Copy, Debug, PartialEq, Eq, Structural)]
pub struct MemArg {
    pub offset: u64,
    pub align: u32,
    pub memory_index: u32,
}

/// The instructions the standard library emits.
#[derive(Clone, Copy, Debug, PartialEq, Eq, Structural)]
pub enum Instruction {
    Unreachable,
    Block(BlockType),
    Loop(BlockType),
    If(BlockType),
    Else,
    End,
    Br(u32),
    BrIf(u32),
    Return,
    Call(u32),
    Drop,
    Select,
    LocalGet(u32),
    LocalSet(u32),
    LocalTee(u32),
    GlobalGet(u32),
    GlobalSet(u32),
    I32Load(MemArg),
    I32Load8U(MemArg),
    F64Load(MemArg),
    I32Store(MemArg),
    I32Store8(MemArg),
    F64Store(MemArg),
    I32Const(i32),
    F64Const(u64),
    I32Eqz,
    I32Eq,
    I32Ne,
    I32LtS,
    I32LtU,
    I32GtS,
    I32GtU,
    I32LeU,
    I32GeS,
    I32GeU,
    F64Eq,
    F64Ne,
    F64Lt,
    F64Gt,
    F64Le,
    F64Ge,
    I32Add,
    I32Sub,
    I32Mul,
    I32DivU,
    I32RemU,
    I32And,
    I32Or,
    I32Shl,
    I32ShrU,
    F64Abs,
    F64Neg,
    F64Ceil,
    F64Floor,
    F64Trunc,
    F64Nearest,
    F64Sqrt,
    F64Add,
    F64Sub,
    F64Mul,
    F64Div,
    F64Min,
    F64Max,
    I32TruncF64S,
    F64ConvertI32S,
}

/// How an instruction changes the number of open structured blocks.
pub open spec fn nesting_delta(i: Instruction) -> int {
    match i {
        Instruction::Block(_) => 1,
        Instruction::Loop(_) => 1,
        Instruction::If(_) => 1,
        Instruction::End => -1,
        _ => 0,
    }
}

/// Whether the local an instruction names (if any) is below `n`.
pub open spec fn local_ok(i: Instruction, n: nat) -> bool {
    match i {
        Instruction::LocalGet(x) => x < n,
        Instruction::LocalSet(x) => x < n,
        Instruction::LocalTee(x) => x < n,
        _ => true,
    }
}

/// Whether a branch at nesting depth `d` targets an enclosing label
/// (label `d` is the function body itself).
pub open spec fn branch_ok(i: Instruction, d: int) -> bool {
    match i {
        Instruction::Br(l) => l <= d,
        Instruction::BrIf(l) => l <= d,
        _ => true,
    }
}

/// Number of structured blocks left open after a sequence.
pub open spec fn depth(s: Seq<Instruction>) -> int
    decreases s.len(),
{
    if s.len() == 0 {
        0
    } else {
        depth(s.drop_last()) + nesting_delta(s.last())
    }
}

/// Every prefix closes no more blocks than it opened, and every branch
/// targets a label that is open where it stands.
pub open spec fn prefix_ok(s: Seq<Instruction>) -> bool
    decreases s.len(),
{
    if s.len() == 0 {
        true
    } else {
        prefix_ok(s.drop_last()) && depth(s) >= 0 && branch_ok(s.last(), depth(s.drop_last()))
    }
}

/// Every local an instruction of the sequence names is below `n`.
pub open spec fn locals_below(s: Seq<Instruction>, n: nat) -> bool {
    forall|k: int| 0 <= k < s.len() ==> #[trigger] local_ok(s[k], n)
}

/// Structured blocks balanced, and branches to enclosing labels only.
pub open spec fn structured(s: Seq<Instruction>) -> bool {
    &&& prefix_ok(s)
    &&& depth(s) == 0
}

/// A well-formed function body: structured, and every local it names
/// below the function's local count.
pub open spec fn body_ok(s: Seq<Instruction>, n_locals: nat) -> bool {
    &&& structured(s)
    &&& locals_below(s, n_locals)
}

/// Pushing keeps the earlier prefix.
pub proof fn lemma_push_drop_last(s: Seq<Instruction>, i: Instruction)
    ensures
        s.push(i).drop_last() == s,
        s.push(i).last() == i,
{
    assert(s.push(i).drop_last() =~= s);
}

/// Depth of a concatenation is the sum of depths.
pub proof fn lemma_depth_concat(a: Seq<Instruction>, b: Seq<Instruction>)
    ensures
        depth(a + b) == depth(a) + depth(b),
    decreases b.len(),
{
    if b.len() == 0 {
        assert(a + b =~= a);
    } else {
        lemma_depth_concat(a, b.drop_last());
        assert((a + b).drop_last() =~= a + b.drop_last());
    }
}

/// A well-nested sequence stays well-nested after any well-nested prefix
/// (branches only reach further out from inside more blocks).
pub proof fn lemma_prefix_concat(a: Seq<Instruction>, b: Seq<Instruction>)
    requires
        prefix_ok(a),
        depth(a) >= 0,
        prefix_ok(b),
    ensures
        prefix_ok(a + b),
    decreases b.len(),
{
    if b.len() == 0 {
        assert(a + b =~= a);
    } else {
        lemma_prefix_concat(a, b.drop_last());
        assert((a + b).drop_last() =~= a + b.drop_last());
        assert((a + b).last() == b.last());
        lemma_depth_concat(a, b);
        lemma_depth_concat(a, b.drop_last());
    }
}

/// A body that is well-formed for `a` locals is well-formed for more.
pub proof fn lemma_body_ok_more_locals(s: Seq<Instruction>, a: nat, b: nat)
    requires
        body_ok(s, a),
        a <= b,
    ensures
        body_ok(s, b),
{
    assert forall|k: int| 0 <= k < s.len() implies #[trigger] local_ok(s[k], b) by {
        assert(local_ok(s[k], a));
    }
}

} // verus!
