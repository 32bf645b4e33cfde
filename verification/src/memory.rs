//! A byte-addressed heap for the compiler's constant-folding and runtime
//! model: blocks carry a 16-byte header slot, a reference count and a type
//! id; freed blocks go on a free list that later allocations reuse
//! (first fit, splitting large blocks) and adjacent free blocks merge.

use vstd::prelude::*;
use crate::body::Body;
use crate::codegen::{
    CodeGenerator, Signature, appended, defined, lemma_appended_start, lemma_appended_fits,
    register_tracked, register_tracked_structured, binding_for,
};
use crate::wasm::{Instruction, MemArg, BlockType, ValType, WasmType, body_ok};
use std::collections::HashMap;
use crate::error::{CompilerError, MemoryErrorKind};
use wasm_encoder::{MemorySection, MemoryType};

verus! {

#[verifier::external_type_specification]
#[verifier::external_body]
pub struct ExMemorySection(wasm_encoder::MemorySection);

broadcast use vstd::std_specs::hash::group_hash_axioms;

/// Type id of values of unknown type.
pub const TYPE_ID_UNKNOWN: u32 = 0;

/// Type id of integers.
pub const TYPE_ID_INTEGER: u32 = 1;

/// Type id of floats.
pub const TYPE_ID_FLOAT: u32 = 2;

/// Type id of strings.
pub const TYPE_ID_STRING: u32 = 3;

/// Type id of arrays.
pub const TYPE_ID_ARRAY: u32 = 4;

/// Type id of matrices.
pub const TYPE_ID_MATRIX: u32 = 5;

/// Type id of objects.
pub const TYPE_ID_OBJECT: u32 = 6;

/// Type id of functions.
pub const TYPE_ID_FUNCTION: u32 = 7;

/// Bytes reserved in front of every user pointer.
pub const HEADER_SIZE: usize = 16;

/// Smallest remainder worth splitting off a reused block.
pub const MIN_ALLOCATION: usize = 32;

/// Block sizes are multiples of this.
pub const ALIGNMENT: usize = 8;

/// WebAssembly page size (64 KiB).
pub const PAGE_SIZE: usize = 65536;

/// Bookkeeping for one block, keyed by the address of its header.
#[derive(Clone, Copy, Debug)]
pub struct MemoryBlock {
    pub size: usize,
    pub ref_count: usize,
    pub is_root: bool,
    pub type_id: u32,
    pub next: Option<usize>,
    pub is_free: bool,
}

/// The limits of the linear memory the manager describes.
#[derive(Clone, Copy, Debug)]
pub struct MemoryLimits {
    pub minimum: u64,
    pub maximum: Option<u64>,
    pub memory64: bool,
    pub shared: bool,
}

/// The memory manager.
#[derive(Clone)]
pub struct MemoryManager {
    memory: MemoryLimits,
    heap_start: usize,
    current_pages: u32,
    max_pages: Option<u32>,
    allocations: HashMap<usize, MemoryBlock>,
    free_list: Option<usize>,
    free_order: Ghost<Seq<usize>>,
    pub data: Vec<u8>,
    total_allocated: usize,
}

/// `n` rounded up to a multiple of `ALIGNMENT`.
pub open spec fn align_up(n: int) -> int {
    ((n + 7) / 8) * 8
}

/// The link a free-list node at position `k` must carry.
pub open spec fn link_after(fl: Seq<usize>, k: int) -> Option<usize> {
    if k + 1 < fl.len() {
        Some(fl[k + 1])
    } else {
        None
    }
}

/// The head of a free list.
pub open spec fn head_of(fl: Seq<usize>) -> Option<usize> {
    if fl.len() == 0 {
        None
    } else {
        Some(fl[0])
    }
}

/// Every block lies below `heap` and holds at least a header, and no two
/// blocks overlap.
pub open spec fn blocks_ok(blocks: Map<usize, MemoryBlock>, heap: int) -> bool {
    &&& forall|p: usize| #[trigger]
        blocks.contains_key(p) ==> blocks[p].size >= HEADER_SIZE && p + blocks[p].size <= heap
    &&& forall|p: usize, q: usize|
        #[trigger] blocks.contains_key(p) && #[trigger] blocks.contains_key(q) && p != q ==> p
            + blocks[p].size <= q || q + blocks[q].size <= p
}

/// Every block starts at a multiple of `ALIGNMENT` and spans a multiple
/// of it.
pub open spec fn blocks_aligned(blocks: Map<usize, MemoryBlock>) -> bool {
    forall|p: usize| #[trigger]
        blocks.contains_key(p) ==> p % ALIGNMENT == 0 && blocks[p].size % ALIGNMENT == 0
}

/// Replacing the block at an aligned address by one of aligned size keeps
/// the blocks aligned.
proof fn lemma_aligned_insert(blocks: Map<usize, MemoryBlock>, p: usize, b: MemoryBlock)
    requires
        blocks_aligned(blocks),
        p % ALIGNMENT == 0,
        b.size % ALIGNMENT == 0,
    ensures
        blocks_aligned(blocks.insert(p, b)),
{
    assert forall|q: usize| #[trigger] blocks.insert(p, b).contains_key(q) implies q % ALIGNMENT == 0
        && blocks.insert(p, b)[q].size % ALIGNMENT == 0 by {
        if q != p {
            assert(blocks.contains_key(q));
        }
    }
}

/// `align_up(n)` is a multiple of `ALIGNMENT` no smaller than `n`.
proof fn lemma_align_up(n: int)
    requires
        n >= 0,
    ensures
        align_up(n) % 8 == 0,
        n <= align_up(n) < n + 8,
{
    assert(((n + 7) / 8) * 8 % 8 == 0 && n <= ((n + 7) / 8) * 8 < n + 8) by (nonlinear_arith)
        requires
            n >= 0,
    ;
}

/// The free list names distinct blocks, each linked to the next.
pub open spec fn list_ok(fl: Seq<usize>, blocks: Map<usize, MemoryBlock>) -> bool {
    &&& forall|k: int|
        0 <= k < fl.len() ==> blocks.contains_key(fl[k]) && (#[trigger] blocks[fl[k]]).next
            == link_after(fl, k)
    &&& fl.no_duplicates()
}

/// Position `k` is the first free-list block with room for `size` bytes.
pub open spec fn is_first_fit(
    fl: Seq<usize>,
    blocks: Map<usize, MemoryBlock>,
    size: int,
    k: int,
) -> bool {
    &&& 0 <= k < fl.len()
    &&& blocks[fl[k]].size >= size
    &&& forall|j: int| 0 <= j < k ==> blocks[#[trigger] fl[j]].size < size
}

/// No free-list block has room for `size` bytes.
pub open spec fn no_fit(fl: Seq<usize>, blocks: Map<usize, MemoryBlock>, size: int) -> bool {
    forall|j: int| 0 <= j < fl.len() ==> blocks[#[trigger] fl[j]].size < size
}

/// Pages to add so that `end` bytes fit after `len` bytes of memory.
pub open spec fn pages_for(end: int, len: int) -> int {
    (end - len + PAGE_SIZE - 1) / (PAGE_SIZE as int)
}

/// A freshly allocated block: one reference, not free, of the given type.
pub open spec fn allocated_block(size: int, type_id: u32) -> MemoryBlock {
    MemoryBlock {
        size: size as usize,
        ref_count: 1,
        is_root: false,
        type_id,
        next: None,
        is_free: false,
    }
}

/// The tail split off a reused block; it stays on the free list in place
/// of the block it came from, free like it.
pub open spec fn split_block(size: int, next: Option<usize>) -> MemoryBlock {
    MemoryBlock {
        size: size as usize,
        ref_count: 0,
        is_root: false,
        type_id: 0,
        next,
        is_free: true,
    }
}

/// The little-endian bytes of a 32-bit word.
pub open spec fn le_bytes_u32(v: u32) -> Seq<u8> {
    seq![
        (v & 0xff) as u8,
        ((v >> 8u32) & 0xff) as u8,
        ((v >> 16u32) & 0xff) as u8,
        ((v >> 24u32) & 0xff) as u8,
    ]
}

/// The little-endian bytes of a 64-bit word.
pub open spec fn le_bytes_u64(v: u64) -> Seq<u8> {
    seq![
        (v & 0xff) as u8,
        ((v >> 8u64) & 0xff) as u8,
        ((v >> 16u64) & 0xff) as u8,
        ((v >> 24u64) & 0xff) as u8,
        ((v >> 32u64) & 0xff) as u8,
        ((v >> 40u64) & 0xff) as u8,
        ((v >> 48u64) & 0xff) as u8,
        ((v >> 56u64) & 0xff) as u8,
    ]
}

/// `data` with `bytes` written at `at`.
pub open spec fn written(data: Seq<u8>, at: int, bytes: Seq<u8>) -> Seq<u8> {
    data.subrange(0, at) + bytes + data.subrange(at + bytes.len(), data.len() as int)
}

/// The free list after one pass of merging, from position `k` on: a node
/// whose successor starts right where it ends and is free absorbs that
/// successor (and is examined again); otherwise the pass moves on.
pub open spec fn coalesce_from(
    blocks: Map<usize, MemoryBlock>,
    fl: Seq<usize>,
    k: int,
) -> (Map<usize, MemoryBlock>, Seq<usize>)
    decreases fl.len() - k, fl.len(),
{
    if k < 0 || k >= fl.len() {
        (blocks, fl)
    } else if k + 1 < fl.len() && fl[k + 1] == fl[k] + blocks[fl[k]].size && blocks[fl[k
        + 1]].is_free {
        let c = fl[k];
        let n = fl[k + 1];
        let merged = MemoryBlock {
            size: (blocks[c].size + blocks[n].size) as usize,
            ref_count: 0,
            is_root: false,
            type_id: 0,
            next: blocks[n].next,
            is_free: true,
        };
        coalesce_from(blocks.remove(n).insert(c, merged), fl.remove(k + 1), k)
    } else {
        coalesce_from(blocks, fl, k + 1)
    }
}

/// Position `k` is where `h` goes in a free list kept in address order:
/// every node before it lies below `h`, the node at it (if any) above.
pub open spec fn sorted_position(fl: Seq<usize>, h: usize, k: int) -> bool {
    &&& 0 <= k <= fl.len()
    &&& forall|j: int| 0 <= j < k ==> #[trigger] fl[j] < h
    &&& k < fl.len() ==> fl[k] > h
}

/// The position at which `h` joins the free list.
pub open spec fn insert_position(fl: Seq<usize>, h: usize) -> int {
    choose|k: int| sorted_position(fl, h, k)
}

/// The node at position `k` of a free list, if any.
pub open spec fn node_at(fl: Seq<usize>, k: int) -> Option<usize> {
    if 0 <= k < fl.len() {
        Some(fl[k])
    } else {
        None
    }
}

/// The blocks and free list after the block at `h` (now `b`) joins the
/// free list at its place in address order, marked free, and the list is
/// merged: it takes the link to its successor, its predecessor links to
/// it, and adjacent free blocks then combine.
pub open spec fn free_into(
    blocks: Map<usize, MemoryBlock>,
    fl: Seq<usize>,
    h: usize,
    b: MemoryBlock,
) -> (Map<usize, MemoryBlock>, Seq<usize>) {
    let k = insert_position(fl, h);
    let linked = blocks.insert(h, MemoryBlock { next: node_at(fl, k), is_free: true, ..b });
    let relinked = if k > 0 {
        linked.insert(fl[k - 1], MemoryBlock { next: Some(h), ..blocks[fl[k - 1]] })
    } else {
        linked
    };
    coalesce_from(relinked, fl.insert(k, h), 0)
}

/// The insertion position is the one a walk from the head stops at.
proof fn lemma_insert_position(fl: Seq<usize>, h: usize, k: int)
    requires
        sorted_position(fl, h, k),
    ensures
        insert_position(fl, h) == k,
{
    let k2 = insert_position(fl, h);
    assert(sorted_position(fl, h, k2));
    if k2 < k {
        assert(fl[k2] < h);
    }
    if k < k2 {
        assert(fl[k] < h);
    }
}

/// Putting a block that is not on the free list at position `k`, linked to
/// the node there and with its predecessor relinked to it, keeps the list
/// well formed.
proof fn lemma_insert_keeps_list(
    fl: Seq<usize>,
    blocks: Map<usize, MemoryBlock>,
    h: usize,
    b: MemoryBlock,
    k: int,
)
    requires
        list_ok(fl, blocks),
        !fl.contains(h),
        0 <= k <= fl.len(),
        b.next == node_at(fl, k),
    ensures
        list_ok(
            fl.insert(k, h),
            if k > 0 {
                blocks.insert(h, b).insert(fl[k - 1], MemoryBlock { next: Some(h), ..blocks[fl[k - 1]] })
            } else {
                blocks.insert(h, b)
            },
        ),
{
    let nfl = fl.insert(k, h);
    let nb = if k > 0 {
        blocks.insert(h, b).insert(fl[k - 1], MemoryBlock { next: Some(h), ..blocks[fl[k - 1]] })
    } else {
        blocks.insert(h, b)
    };
    assert(nfl.len() == fl.len() + 1);
    assert forall|j: int|
        0 <= j < nfl.len() implies nb.contains_key(nfl[j]) && (#[trigger] nb[nfl[j]]).next
        == link_after(nfl, j) by {
        if j < k {
            assert(nfl[j] == fl[j]);
            assert(blocks.contains_key(fl[j]) && blocks[fl[j]].next == link_after(fl, j));
            assert(fl[j] != h);
            if j + 1 < k {
                assert(nfl[j + 1] == fl[j + 1]);
            } else {
                assert(nfl[j + 1] == h);
            }
        } else if j == k {
            assert(nfl[j] == h);
            if k > 0 {
                assert(fl[k - 1] != h);
            }
            if k < fl.len() {
                assert(nfl[j + 1] == fl[k]);
            }
        } else {
            assert(nfl[j] == fl[j - 1]);
            assert(blocks.contains_key(fl[j - 1]) && blocks[fl[j - 1]].next == link_after(fl, j - 1));
            assert(fl[j - 1] != h);
            if k > 0 {
                assert(fl[j - 1] != fl[k - 1]);
            }
            if j + 1 < nfl.len() {
                assert(nfl[j + 1] == fl[j]);
            }
        }
    }
    assert forall|i: int, j: int|
        0 <= i < nfl.len() && 0 <= j < nfl.len() && i != j implies nfl[i] != nfl[j] by {
        if i != k && j != k {
            let oi = if i < k { i } else { i - 1 };
            let oj = if j < k { j } else { j - 1 };
            assert(nfl[i] == fl[oi]);
            assert(nfl[j] == fl[oj]);
        } else if i == k {
            let oj = if j < k { j } else { j - 1 };
            assert(nfl[j] == fl[oj]);
        } else {
            let oi = if i < k { i } else { i - 1 };
            assert(nfl[i] == fl[oi]);
        }
    }
}

/// Growing by `pages_for(end, len)` pages makes room for `end` bytes.
proof fn lemma_pages_cover(end: int, len: int)
    requires
        end > len >= 0,
    ensures
        pages_for(end, len) >= 1,
        len + pages_for(end, len) * PAGE_SIZE >= end,
        pages_for(end, len) * PAGE_SIZE <= end - len + PAGE_SIZE,
{
    let x = end - len;
    let p = PAGE_SIZE as int;
    assert(pages_for(end, len) == (x + p - 1) / p);
    assert((x + p - 1) / p >= 1 && ((x + p - 1) / p) * p >= x && ((x + p - 1) / p) * p <= x + p)
        by (nonlinear_arith)
        requires
            x >= 1,
            p == 65536,
    ;
}

/// Splitting block `p` into an allocated head of `a` bytes and a tail keeps
/// the blocks in place and apart; the tail's address was no block's.
proof fn lemma_split_blocks(blocks: Map<usize, MemoryBlock>, heap: int, p: usize, a: int, type_id: u32)
    requires
        blocks_ok(blocks, heap),
        heap <= usize::MAX,
        blocks.contains_key(p),
        a >= HEADER_SIZE,
        blocks[p].size - a >= MIN_ALLOCATION,
    ensures
        !blocks.contains_key((p + a) as usize),
        blocks_ok(
            blocks.insert((p + a) as usize, split_block(blocks[p].size - a, blocks[p].next)).insert(
                p,
                allocated_block(a, type_id),
            ),
            heap,
        ),
{
    let np = (p + a) as usize;
    let b = blocks[p];
    let nb = blocks.insert(np, split_block(b.size - a, b.next)).insert(p, allocated_block(a, type_id));
    assert(!blocks.contains_key(np)) by {
        if blocks.contains_key(np) {
            assert(np != p);
        }
    }
    assert forall|q: usize| #[trigger]
        nb.contains_key(q) implies nb[q].size >= HEADER_SIZE && q + nb[q].size <= heap by {
        if q != p && q != np {
            assert(blocks.contains_key(q));
        }
    }
    assert forall|q1: usize, q2: usize|
        #[trigger] nb.contains_key(q1) && #[trigger] nb.contains_key(q2) && q1 != q2 implies q1
        + nb[q1].size <= q2 || q2 + nb[q2].size <= q1 by {
        if q1 != p && q1 != np {
            assert(blocks.contains_key(q1));
        }
        if q2 != p && q2 != np {
            assert(blocks.contains_key(q2));
        }
    }
}

/// Replacing free-list position `k` by a new block `np` that inherits its
/// link keeps the list well formed.
proof fn lemma_split_list(
    fl: Seq<usize>,
    blocks: Map<usize, MemoryBlock>,
    nb: Map<usize, MemoryBlock>,
    k: int,
    np: usize,
    t: MemoryBlock,
    x: MemoryBlock,
)
    requires
        list_ok(fl, blocks),
        0 <= k < fl.len(),
        !blocks.contains_key(np),
        nb == blocks.insert(np, t).insert(fl[k], x),
        t.next == blocks[fl[k]].next,
    ensures
        list_ok(seq![np] + fl.subrange(k + 1, fl.len() as int), nb),
{
    let nfl = seq![np] + fl.subrange(k + 1, fl.len() as int);
    assert(blocks.contains_key(fl[k]));
    assert(np != fl[k]);
    assert forall|j: int|
        0 <= j < nfl.len() implies nb.contains_key(nfl[j]) && (#[trigger] nb[nfl[j]]).next
        == link_after(nfl, j) by {
        if j > 0 {
            assert(nfl[j] == fl[k + j]);
            assert(fl[k + j] != fl[k]);
            assert(blocks.contains_key(fl[k + j]) && blocks[fl[k + j]].next == link_after(fl, k + j));
            if k + j + 1 < fl.len() {
                assert(nfl[j + 1] == fl[k + j + 1]);
            }
        } else {
            assert(blocks.contains_key(fl[k]) && blocks[fl[k]].next == link_after(fl, k));
            if k + 1 < fl.len() {
                assert(nfl[1] == fl[k + 1]);
            }
        }
    }
    assert forall|i: int, j: int|
        0 <= i < nfl.len() && 0 <= j < nfl.len() && i != j implies nfl[i] != nfl[j] by {
        if i > 0 && j > 0 {
            assert(nfl[i] == fl[k + i]);
            assert(nfl[j] == fl[k + j]);
        } else if i == 0 {
            assert(nfl[j] == fl[k + j]);
            assert(blocks.contains_key(fl[k + j]) && blocks[fl[k + j]].next == link_after(fl, k + j));
        } else {
            assert(nfl[i] == fl[k + i]);
            assert(blocks.contains_key(fl[k + i]) && blocks[fl[k + i]].next == link_after(fl, k + i));
        }
    }
}

/// Merging block `c` with the block `n` that starts where `c` ends keeps the
/// blocks in place and apart.
proof fn lemma_merge_keeps_blocks(blocks: Map<usize, MemoryBlock>, heap: int, c: usize, n: usize)
    requires
        blocks_ok(blocks, heap),
        heap <= usize::MAX,
        blocks.contains_key(c),
        blocks.contains_key(n),
        n == c + blocks[c].size,
    ensures
        c + blocks[c].size + blocks[n].size <= heap,
        forall|m: MemoryBlock|
            m.size == blocks[c].size + blocks[n].size ==> blocks_ok(
                #[trigger] blocks.remove(n).insert(c, m),
                heap,
            ),
{
    assert(c != n);
    assert forall|m: MemoryBlock|
        m.size == blocks[c].size + blocks[n].size implies blocks_ok(
        #[trigger] blocks.remove(n).insert(c, m),
        heap,
    ) by {
        let nb = blocks.remove(n).insert(c, m);
        assert forall|q: usize| #[trigger]
            nb.contains_key(q) implies nb[q].size >= HEADER_SIZE && q + nb[q].size <= heap by {
            if q != c {
                assert(blocks.contains_key(q));
            }
        }
        assert forall|q1: usize, q2: usize|
            #[trigger] nb.contains_key(q1) && #[trigger] nb.contains_key(q2) && q1 != q2 implies q1
            + nb[q1].size <= q2 || q2 + nb[q2].size <= q1 by {
            assert(blocks.contains_key(q1));
            assert(blocks.contains_key(q2));
            if q1 == c {
                assert(blocks.contains_key(n) && q2 != n);
            }
            if q2 == c {
                assert(blocks.contains_key(n) && q1 != n);
            }
        }
    }
}

/// Dropping position `k + 1` of the free list into position `k` (which takes
/// over its link) keeps the list well formed.
proof fn lemma_merge_keeps_list(
    fl: Seq<usize>,
    blocks: Map<usize, MemoryBlock>,
    k: int,
    m: MemoryBlock,
)
    requires
        list_ok(fl, blocks),
        0 <= k,
        k + 1 < fl.len(),
        m.next == blocks[fl[k + 1]].next,
    ensures
        list_ok(fl.remove(k + 1), blocks.remove(fl[k + 1]).insert(fl[k], m)),
{
    let nfl = fl.remove(k + 1);
    let nb = blocks.remove(fl[k + 1]).insert(fl[k], m);
    assert(blocks.contains_key(fl[k + 1]) && blocks[fl[k + 1]].next == link_after(fl, k + 1));
    assert forall|j: int|
        0 <= j < nfl.len() implies nb.contains_key(nfl[j]) && (#[trigger] nb[nfl[j]]).next
        == link_after(nfl, j) by {
        if j < k {
            assert(nfl[j] == fl[j]);
            assert(blocks.contains_key(fl[j]) && blocks[fl[j]].next == link_after(fl, j));
            assert(fl[j] != fl[k] && fl[j] != fl[k + 1]);
            if j + 1 < k {
                assert(nfl[j + 1] == fl[j + 1]);
            } else {
                assert(nfl[j + 1] == fl[k]);
            }
        } else if j == k {
            assert(nfl[j] == fl[k]);
            if k + 2 < fl.len() {
                assert(nfl[j + 1] == fl[k + 2]);
            }
        } else {
            assert(nfl[j] == fl[j + 1]);
            assert(blocks.contains_key(fl[j + 1]) && blocks[fl[j + 1]].next == link_after(fl, j + 1));
            assert(fl[j + 1] != fl[k] && fl[j + 1] != fl[k + 1]);
            if j + 2 < fl.len() {
                assert(nfl[j + 1] == fl[j + 2]);
            }
        }
    }
    assert forall|i: int, j: int|
        0 <= i < nfl.len() && 0 <= j < nfl.len() && i != j implies nfl[i] != nfl[j] by {
        let oi = if i <= k { i } else { i + 1 };
        let oj = if j <= k { j } else { j + 1 };
        assert(nfl[i] == fl[oi]);
        assert(nfl[j] == fl[oj]);
    }
}

/// Pushing a block that is not on the free list onto its head keeps the
/// list well formed.
proof fn lemma_push_keeps_list(
    fl: Seq<usize>,
    blocks: Map<usize, MemoryBlock>,
    h: usize,
    b: MemoryBlock,
)
    requires
        list_ok(fl, blocks),
        !fl.contains(h),
        b.next == head_of(fl),
    ensures
        list_ok(seq![h] + fl, blocks.insert(h, b)),
{
    let nfl = seq![h] + fl;
    let nb = blocks.insert(h, b);
    assert forall|j: int|
        0 <= j < nfl.len() implies nb.contains_key(nfl[j]) && (#[trigger] nb[nfl[j]]).next
        == link_after(nfl, j) by {
        if j > 0 {
            assert(nfl[j] == fl[j - 1]);
            assert(blocks.contains_key(fl[j - 1]) && blocks[fl[j - 1]].next == link_after(fl, j - 1));
            assert(fl[j - 1] != h);
            if j + 1 < nfl.len() {
                assert(nfl[j + 1] == fl[j]);
            }
        } else if fl.len() > 0 {
            assert(nfl[1] == fl[0]);
        }
    }
    assert forall|i: int, j: int|
        0 <= i < nfl.len() && 0 <= j < nfl.len() && i != j implies nfl[i] != nfl[j] by {
        if i > 0 && j > 0 {
            assert(nfl[i] == fl[i - 1]);
            assert(nfl[j] == fl[j - 1]);
        } else if i == 0 {
            assert(nfl[j] == fl[j - 1]);
        } else {
            assert(nfl[i] == fl[i - 1]);
        }
    }
}

/// Rewriting a block in place with the same size keeps the blocks apart.
proof fn lemma_same_extent_keeps_blocks(
    blocks: Map<usize, MemoryBlock>,
    heap: int,
    h: usize,
    b: MemoryBlock,
)
    requires
        blocks_ok(blocks, heap),
        blocks.contains_key(h),
        b.size == blocks[h].size,
    ensures
        blocks_ok(blocks.insert(h, b), heap),
{
    let nb = blocks.insert(h, b);
    assert forall|q: usize| #[trigger]
        nb.contains_key(q) implies nb[q].size >= HEADER_SIZE && q + nb[q].size <= heap by {
        assert(blocks.contains_key(q));
    }
    assert forall|q1: usize, q2: usize|
        #[trigger] nb.contains_key(q1) && #[trigger] nb.contains_key(q2) && q1 != q2 implies q1
        + nb[q1].size <= q2 || q2 + nb[q2].size <= q1 by {
        assert(blocks.contains_key(q1));
        assert(blocks.contains_key(q2));
    }
}

/// Rewriting a block in place with the same link keeps the list well formed.
proof fn lemma_same_link_keeps_list(
    fl: Seq<usize>,
    blocks: Map<usize, MemoryBlock>,
    h: usize,
    b: MemoryBlock,
)
    requires
        list_ok(fl, blocks),
        blocks.contains_key(h),
        b.next == blocks[h].next,
    ensures
        list_ok(fl, blocks.insert(h, b)),
{
    let nb = blocks.insert(h, b);
    assert forall|j: int|
        0 <= j < fl.len() implies nb.contains_key(fl[j]) && (#[trigger] nb[fl[j]]).next
        == link_after(fl, j) by {
        assert(blocks.contains_key(fl[j]) && blocks[fl[j]].next == link_after(fl, j));
    }
}

impl MemoryManager {
    /// The blocks, keyed by header address.
    pub closed spec fn blocks(&self) -> Map<usize, MemoryBlock> {
        self.allocations@
    }

    /// The free list, head first.
    pub closed spec fn free_order(&self) -> Seq<usize> {
        self.free_order@
    }

    /// The bytes of linear memory.
    pub closed spec fn bytes(&self) -> Seq<u8> {
        self.data@
    }

    /// The first address not yet handed out.
    pub closed spec fn heap_start_spec(&self) -> usize {
        self.heap_start
    }

    /// Pages of linear memory in use.
    pub closed spec fn current_pages_spec(&self) -> u32 {
        self.current_pages
    }

    /// The page limit, if any.
    pub closed spec fn max_pages_spec(&self) -> Option<u32> {
        self.max_pages
    }

    /// Bytes counted as allocated.
    pub closed spec fn total_allocated_spec(&self) -> usize {
        self.total_allocated
    }

    /// The limits the manager was created with.
    pub closed spec fn limits(&self) -> MemoryLimits {
        self.memory
    }

    /// The header address behind a user pointer.
    pub open spec fn header(ptr: usize) -> int {
        ptr - HEADER_SIZE
    }

    /// `ptr` is a user pointer of a known block.
    pub open spec fn valid_pointer(&self, ptr: usize) -> bool {
        ptr >= HEADER_SIZE && self.blocks().contains_key((ptr - HEADER_SIZE) as usize)
    }

    /// The block behind a user pointer.
    pub open spec fn block_of(&self, ptr: usize) -> MemoryBlock {
        self.blocks()[(ptr - HEADER_SIZE) as usize]
    }

    /// The first-fit free-list position for a block of `size` bytes.
    pub open spec fn first_fit(&self, size: int) -> Option<int> {
        if exists|k: int| is_first_fit(self.free_order(), self.blocks(), size, k) {
            Some(choose|k: int| is_first_fit(self.free_order(), self.blocks(), size, k))
        } else {
            None
        }
    }

    /// The block size (header included) an allocation of `size` bytes takes.
    pub open spec fn block_size_for(size: usize) -> int {
        align_up(size + HEADER_SIZE)
    }

    /// Whether a fresh allocation of `size` bytes must grow memory.
    pub open spec fn needs_growth(&self, size: usize) -> bool {
        self.heap_start_spec() + Self::block_size_for(size) > self.bytes().len()
    }

    /// Pages a fresh allocation of `size` bytes adds.
    pub open spec fn growth_pages(&self, size: usize) -> int {
        if self.needs_growth(size) {
            pages_for(self.heap_start_spec() + Self::block_size_for(size), self.bytes().len() as int)
        } else {
            0
        }
    }

    /// The sizes involved in allocating `size` bytes fit the machine's
    /// integers (usize for addresses and counters, u32 for pages).
    pub open spec fn allocation_fits(&self, size: usize) -> bool {
        &&& size + HEADER_SIZE + ALIGNMENT <= usize::MAX
        &&& self.total_allocated_spec() + Self::block_size_for(size) <= usize::MAX
        &&& self.first_fit(Self::block_size_for(size)) is None ==> {
            &&& self.heap_start_spec() + Self::block_size_for(size) + PAGE_SIZE <= usize::MAX
            &&& self.current_pages_spec() + self.growth_pages(size) <= u32::MAX
            &&& (self.current_pages_spec() + self.growth_pages(size)) * PAGE_SIZE + PAGE_SIZE
                <= usize::MAX
        }
    }

    /// Allocating `size` bytes must grow memory past the page limit.
    pub open spec fn exceeds_limit(&self, size: usize) -> bool {
        &&& self.first_fit(Self::block_size_for(size)) is None
        &&& self.needs_growth(size)
        &&& self.max_pages_spec() is Some
        &&& self.current_pages_spec() + self.growth_pages(size) > self.max_pages_spec()->0
    }

    /// The bytes of memory after allocating `size` bytes: zero pages are
    /// appended when a fresh block needs them.
    pub open spec fn bytes_after_allocate(&self, size: usize) -> Seq<u8> {
        if self.first_fit(Self::block_size_for(size)) is None && !self.exceeds_limit(size) {
            self.bytes() + Seq::new((self.growth_pages(size) * PAGE_SIZE) as nat, |i: int| 0u8)
        } else {
            self.bytes()
        }
    }

    /// The result of allocating `size` bytes of type `type_id` in `old`, and
    /// everything of `new` but its bytes.
    pub open spec fn allocate_layout(
        old: MemoryManager,
        new: MemoryManager,
        size: usize,
        type_id: u32,
        r: Result<usize, CompilerError>,
    ) -> bool {
        let a = Self::block_size_for(size);
        let fl = old.free_order();
        let blocks = old.blocks();
        &&& new.max_pages_spec() == old.max_pages_spec()
        &&& new.limits() == old.limits()
        &&& match old.first_fit(a) {
            Some(k) => {
                let p = fl[k];
                let b = blocks[p];
                let rest = b.size - a;
                &&& r == Ok::<usize, CompilerError>((p + HEADER_SIZE) as usize)
                &&& new.heap_start_spec() == old.heap_start_spec()
                &&& new.current_pages_spec() == old.current_pages_spec()
                &&& new.total_allocated_spec() == old.total_allocated_spec() + a
                &&& if rest >= MIN_ALLOCATION {
                    &&& new.blocks() == blocks.insert((p + a) as usize, split_block(rest, b.next)).insert(
                        p,
                        allocated_block(a, type_id),
                    )
                    &&& new.free_order() == seq![(p + a) as usize] + fl.subrange(
                        k + 1,
                        fl.len() as int,
                    )
                } else {
                    &&& new.blocks() == blocks.insert(p, allocated_block(a, type_id))
                    &&& new.free_order() == fl.subrange(k + 1, fl.len() as int)
                }
            },
            None => {
                let start = old.heap_start_spec();
                let pages = old.current_pages_spec() + old.growth_pages(size);
                if old.exceeds_limit(size) {
                    &&& r == Err::<usize, CompilerError>(
                        CompilerError::Memory(
                            MemoryErrorKind::ExceedsMaxPages {
                                size,
                                pages: pages as u32,
                                max: old.max_pages_spec()->0,
                            },
                        ),
                    )
                    &&& new.blocks() == blocks
                    &&& new.free_order() == fl
                    &&& new.heap_start_spec() == start
                    &&& new.current_pages_spec() == old.current_pages_spec()
                    &&& new.total_allocated_spec() == old.total_allocated_spec()
                } else {
                    &&& r == Ok::<usize, CompilerError>((start + HEADER_SIZE) as usize)
                    &&& new.blocks() == blocks.insert(start, allocated_block(a, type_id))
                    &&& new.free_order() == fl
                    &&& new.heap_start_spec() == start + a
                    &&& new.total_allocated_spec() == old.total_allocated_spec() + a
                    &&& new.current_pages_spec() == pages
                }
            },
        }
    }

    /// Everything but the blocks, the free list and the allocation counter
    /// is as in `other`.
    pub open spec fn same_memory(&self, other: &MemoryManager) -> bool {
        &&& self.heap_start_spec() == other.heap_start_spec()
        &&& self.current_pages_spec() == other.current_pages_spec()
        &&& self.max_pages_spec() == other.max_pages_spec()
        &&& self.bytes() == other.bytes()
        &&& self.limits() == other.limits()
    }

    /// Everything but the bytes of memory is as in `other`.
    pub open spec fn same_layout(&self, other: &MemoryManager) -> bool {
        &&& self.blocks() == other.blocks()
        &&& self.free_order() == other.free_order()
        &&& self.total_allocated_spec() == other.total_allocated_spec()
        &&& self.heap_start_spec() == other.heap_start_spec()
        &&& self.current_pages_spec() == other.current_pages_spec()
        &&& self.max_pages_spec() == other.max_pages_spec()
        &&& self.limits() == other.limits()
    }

    /// `self` and `other` are the same state.
    pub open spec fn same_state(&self, other: &MemoryManager) -> bool {
        &&& self.same_memory(other)
        &&& self.blocks() == other.blocks()
        &&& self.free_order() == other.free_order()
        &&& self.total_allocated_spec() == other.total_allocated_spec()
    }

    /// The manager's invariant.
    pub closed spec fn wf(&self) -> bool {
        &&& self.data@.len() == self.current_pages as int * PAGE_SIZE as int
        &&& self.current_pages as int * PAGE_SIZE as int + PAGE_SIZE as int <= usize::MAX
        &&& self.heap_start <= self.data@.len()
        &&& blocks_ok(self.allocations@, self.heap_start as int)
        &&& blocks_aligned(self.allocations@)
        &&& self.heap_start % ALIGNMENT == 0
        &&& self.free_list == head_of(self.free_order@)
        &&& list_ok(self.free_order@, self.allocations@)
    }

    /// A manager with `initial_pages` pages of zeroed memory and an optional
    /// page limit.
    pub fn new(initial_pages: u32, max_pages: Option<u32>) -> (m: MemoryManager)
        requires
            initial_pages as int * PAGE_SIZE as int + PAGE_SIZE as int <= usize::MAX,
        ensures
            m.wf(),
            m.blocks() == Map::<usize, MemoryBlock>::empty(),
            m.free_order() == Seq::<usize>::empty(),
            m.heap_start_spec() == 0,
            m.current_pages_spec() == initial_pages,
            m.max_pages_spec() == max_pages,
            m.total_allocated_spec() == 0,
            m.bytes() == Seq::new(initial_pages as nat * PAGE_SIZE as nat, |i: int| 0u8),
            m.limits() == (MemoryLimits {
                minimum: initial_pages as u64,
                maximum: match max_pages {
                    Some(p) => Some(p as u64),
                    None => None,
                },
                memory64: false,
                shared: false,
            }),
    {
        let initial_size = (initial_pages as usize) * PAGE_SIZE;
        let maximum = match max_pages {
            Some(p) => Some(p as u64),
            None => None,
        };
        let data = vec![0u8; initial_size];
        let m = MemoryManager {
            memory: MemoryLimits {
                minimum: initial_pages as u64,
                maximum,
                memory64: false,
                shared: false,
            },
            heap_start: 0,
            current_pages: initial_pages,
            max_pages,
            allocations: HashMap::new(),
            free_list: None,
            free_order: Ghost(Seq::empty()),
            data,
            total_allocated: 0,
        };
        proof {
            assert(m.data@ =~= Seq::new(initial_pages as nat * PAGE_SIZE as nat, |i: int| 0u8));
        }
        m
    }

    /// The memory limits (initial and maximum pages) of the described memory.
    pub fn memory_limits(&self) -> (l: MemoryLimits)
        ensures
            l == self.limits(),
    {
        self.memory
    }

    /// Round `size` up to a multiple of `ALIGNMENT`.
    fn align_size(size: usize) -> (r: usize)
        requires
            size + (ALIGNMENT - 1) <= usize::MAX,
        ensures
            r == align_up(size as int),
    {
        let r = (size + (ALIGNMENT - 1)) & !(ALIGNMENT - 1);
        assert(((size + 7) as usize) & !7usize == ((size + 7) as usize) - ((size + 7) as usize)
            % 8) by (bit_vector);
        r
    }

    /// The first free-list block with room for `size` bytes.
    fn find_free_block(&self, size: usize) -> (r: Option<usize>)
        requires
            self.wf(),
        ensures
            match r {
                Some(p) => exists|k: int|
                    is_first_fit(self.free_order(), self.blocks(), size as int, k)
                        && #[trigger] self.free_order()[k] == p,
                None => no_fit(self.free_order(), self.blocks(), size as int),
            },
    {
        let ghost fl = self.free_order@;
        let ghost blocks = self.allocations@;
        let mut current = self.free_list;
        let ghost mut k: int = 0;
        while current.is_some()
            invariant
                self.wf(),
                fl == self.free_order@,
                blocks == self.allocations@,
                0 <= k <= fl.len(),
                current == (if k < fl.len() {
                    Some(fl[k])
                } else {
                    None::<usize>
                }),
                forall|j: int| 0 <= j < k ==> blocks[#[trigger] fl[j]].size < size,
            decreases fl.len() - k,
        {
            let ptr = current.unwrap();
            match self.allocations.get(&ptr) {
                Some(block) => {
                    if block.size >= size {
                        assert(is_first_fit(fl, blocks, size as int, k));
                        assert(self.free_order()[k] == ptr);
                        return Some(ptr);
                    }
                    current = block.next;
                    proof {
                        k = k + 1;
                    }
                },
                None => {
                    assert(false);
                    return None;
                },
            }
        }
        None
    }

    /// Allocate a block for `size` bytes of type `type_id` and return the
    /// user pointer (just past the header). The first free-list block that is
    /// large enough is reused, its tail split off when at least
    /// `MIN_ALLOCATION` bytes remain; otherwise the block is taken from the
    /// top of the heap, growing memory by whole pages unless that would pass
    /// the page limit.
    pub fn allocate(&mut self, size: usize, type_id: u32) -> (r: Result<usize, CompilerError>)
        requires
            old(self).wf(),
            old(self).allocation_fits(size),
        ensures
            final(self).wf(),
            Self::allocate_layout(*old(self), *final(self), size, type_id, r),
            final(self).bytes() == old(self).bytes_after_allocate(size),
    {
        let ghost fl = self.free_order@;
        let ghost blocks = self.allocations@;
        let aligned_size = Self::align_size(size + HEADER_SIZE);
        proof {
            lemma_align_up(size + HEADER_SIZE);
        }

        // Try to find a free block first
        if let Some(ptr) = self.find_free_block(aligned_size) {
            let ghost k = choose|k: int|
                is_first_fit(fl, blocks, aligned_size as int, k) && #[trigger] fl[k] == ptr;
            proof {
                assert(is_first_fit(fl, blocks, aligned_size as int, k));
                let k2 = choose|k: int| is_first_fit(fl, blocks, aligned_size as int, k);
                assert(is_first_fit(fl, blocks, aligned_size as int, k2));
                if k2 < k {
                    assert(blocks[fl[k2]].size < aligned_size);
                }
                if k < k2 {
                    assert(blocks[fl[k]].size < aligned_size);
                }
                assert(k2 == k);
                assert(blocks.contains_key(fl[k]));
            }
            let block = self.allocations.remove(&ptr).unwrap();
            let remaining_size = block.size - aligned_size;

            if remaining_size >= MIN_ALLOCATION {
                // Split the block
                let new_ptr = ptr + aligned_size;
                self.allocations.insert(
                    new_ptr,
                    MemoryBlock {
                        size: remaining_size,
                        ref_count: 0,
                        is_root: false,
                        type_id: 0,
                        next: block.next,
                        is_free: true,
                    },
                );
                self.free_list = Some(new_ptr);
                proof {
                    self.free_order = Ghost(seq![new_ptr] + fl.subrange(k + 1, fl.len() as int));
                }
            } else {
                self.free_list = block.next;
                proof {
                    self.free_order = Ghost(fl.subrange(k + 1, fl.len() as int));
                }
            }

            // Initialize the allocated block
            self.allocations.insert(
                ptr,
                MemoryBlock {
                    size: aligned_size,
                    ref_count: 1,
                    is_root: false,
                    type_id,
                    next: None,
                    is_free: false,
                },
            );

            self.total_allocated = self.total_allocated + aligned_size;
            proof {
                if remaining_size >= MIN_ALLOCATION {
                    self.lemma_reuse_split_keeps_wf(old(self), fl, blocks, k, ptr, aligned_size as int, type_id);
                } else {
                    self.lemma_reuse_whole_keeps_wf(old(self), fl, blocks, k, ptr, aligned_size as int, type_id);
                }
            }
            return Ok(ptr + HEADER_SIZE);
        }

        // Need to grow memory
        let ptr = self.heap_start;
        if ptr + aligned_size > self.data.len() {
            let pages_needed = ((ptr + aligned_size - self.data.len()) + PAGE_SIZE - 1) / PAGE_SIZE;
            proof {
                lemma_pages_cover(ptr + aligned_size, self.data@.len() as int);
            }

            if let Some(max) = self.max_pages {
                if self.current_pages + pages_needed as u32 > max {
                    return Err(
                        CompilerError::Memory(
                            MemoryErrorKind::ExceedsMaxPages {
                                size,
                                pages: self.current_pages + pages_needed as u32,
                                max,
                            },
                        ),
                    );
                }
            }

            self.current_pages = self.current_pages + pages_needed as u32;
            let new_len = self.data.len() + pages_needed * PAGE_SIZE;
            self.data.resize(new_len, 0);
            proof {
                assert(self.data@ =~= old(self).data@ + Seq::new(
                    (pages_needed * PAGE_SIZE) as nat,
                    |i: int| 0u8,
                ));
            }
        }

        // Initialize the new block
        self.allocations.insert(
            ptr,
            MemoryBlock {
                size: aligned_size,
                ref_count: 1,
                is_root: false,
                type_id,
                next: None,
                is_free: false,
            },
        );

        self.heap_start = ptr + aligned_size;
        self.total_allocated = self.total_allocated + aligned_size;
        proof {
            self.lemma_fresh_keeps_wf(old(self), ptr, aligned_size as int, type_id);
        }
        Ok(ptr + HEADER_SIZE)
    }

    /// Merge free-list blocks with the free blocks that follow them in
    /// memory, in one pass from the head of the free list.
    fn coalesce_free_blocks(&mut self)
        requires
            old(self).wf(),
        ensures
            final(self).wf(),
            final(self).same_memory(old(self)),
            final(self).total_allocated_spec() == old(self).total_allocated_spec(),
            (final(self).blocks(), final(self).free_order()) == coalesce_from(
                old(self).blocks(),
                old(self).free_order(),
                0,
            ),
    {
        let mut current_ptr_opt = self.free_list;
        let mut prev_ptr_opt: Option<usize> = None;
        let ghost mut k: int = 0;

        while current_ptr_opt.is_some()
            invariant
                self.wf(),
                self.same_memory(old(self)),
                self.total_allocated_spec() == old(self).total_allocated_spec(),
                0 <= k <= self.free_order@.len(),
                current_ptr_opt == (if k < self.free_order@.len() {
                    Some(self.free_order@[k])
                } else {
                    None::<usize>
                }),
                prev_ptr_opt == (if k > 0 {
                    Some(self.free_order@[k - 1])
                } else {
                    None::<usize>
                }),
                coalesce_from(self.allocations@, self.free_order@, k) == coalesce_from(
                    old(self).allocations@,
                    old(self).free_order@,
                    0,
                ),
            decreases self.free_order@.len() - k,
        {
            let current_ptr = current_ptr_opt.unwrap();
            let ghost fl = self.free_order@;
            let ghost blocks = self.allocations@;
            proof {
                assert(blocks.contains_key(fl[k]) && blocks[fl[k]].next == link_after(fl, k));
                if k + 1 < fl.len() {
                    assert(blocks.contains_key(fl[k + 1]) && blocks[fl[k + 1]].next == link_after(
                        fl,
                        k + 1,
                    ));
                }
            }
            let current_next;
            let current_size;
            let next_is_adjacent;
            let next_is_free;

            // Get information about current block
            match self.allocations.get(&current_ptr) {
                Some(current_block) => {
                    current_next = current_block.next;
                    current_size = current_block.size;
                },
                None => {
                    return;
                },
            }
            next_is_adjacent = match current_next {
                Some(next_ptr) => next_ptr == current_ptr + current_size,
                None => false,
            };
            next_is_free = match current_next {
                Some(next_ptr) => match self.allocations.get(&next_ptr) {
                    Some(block) => block.is_free,
                    None => false,
                },
                None => false,
            };

            if next_is_adjacent && next_is_free && current_next.is_some() {
                // Get the next block's size and next pointer
                let next_ptr = current_next.unwrap();
                let (next_size, next_next) = match self.allocations.get(&next_ptr) {
                    Some(next_block) => (next_block.size, next_block.next),
                    None => {
                        return;
                    },
                };
                proof {
                    lemma_merge_keeps_blocks(blocks, self.heap_start as int, current_ptr, next_ptr);
                }

                // Remove both blocks
                self.allocations.remove(&current_ptr);
                self.allocations.remove(&next_ptr);

                // Create a new coalesced block
                let coalesced_block = MemoryBlock {
                    size: current_size + next_size,
                    ref_count: 0,
                    is_root: false,
                    type_id: 0,
                    next: next_next,
                    is_free: true,
                };

                // Insert the new coalesced block
                self.allocations.insert(current_ptr, coalesced_block);
                proof {
                    assert(self.allocations@ =~= blocks.remove(next_ptr).insert(
                        current_ptr,
                        coalesced_block,
                    ));
                    self.free_order = Ghost(fl.remove(k + 1));
                    lemma_merge_keeps_list(fl, blocks, k, coalesced_block);
                }

                // Update the free list
                match prev_ptr_opt {
                    Some(prev_ptr) => {
                        let prev = match self.allocations.get(&prev_ptr) {
                            Some(prev_block) => Some(*prev_block),
                            None => None,
                        };
                        if let Some(prev_block) = prev {
                            let updated = MemoryBlock { next: Some(current_ptr), ..prev_block };
                            proof {
                                let nfl = self.free_order@;
                                assert(self.allocations@[nfl[k - 1]].next == link_after(nfl, k - 1));
                                assert(updated == prev_block);
                            }
                            self.allocations.insert(prev_ptr, updated);
                            proof {
                                assert(self.allocations@ =~= blocks.remove(next_ptr).insert(
                                    current_ptr,
                                    coalesced_block,
                                ));
                            }
                        }
                    },
                    None => {
                        self.free_list = Some(current_ptr);
                    },
                }
                // Stay at the same position to check if we can coalesce more
                current_ptr_opt = Some(current_ptr);
            } else {
                // Move to the next block
                prev_ptr_opt = Some(current_ptr);
                current_ptr_opt = current_next;
                proof {
                    k = k + 1;
                }
            }
        }
    }

    /// Return a block with no references to the free list and merge it with
    /// its free neighbours. Fails on an unknown pointer or while references
    /// remain.
    pub fn deallocate(&mut self, ptr: usize) -> (r: Result<(), CompilerError>)
        requires
            old(self).wf(),
            ptr >= HEADER_SIZE,
            !old(self).free_order().contains((ptr - HEADER_SIZE) as usize),
            old(self).valid_pointer(ptr) && old(self).block_of(ptr).ref_count == 0
                ==> old(self).total_allocated_spec() >= old(self).block_of(ptr).size,
        ensures
            final(self).wf(),
            !old(self).valid_pointer(ptr) ==> r == Err::<(), CompilerError>(
                CompilerError::Memory(MemoryErrorKind::InvalidPointer(ptr)),
            ) && final(self).same_state(old(self)),
            old(self).valid_pointer(ptr) && old(self).block_of(ptr).ref_count > 0 ==> r == Err::<
                (),
                CompilerError,
            >(CompilerError::Memory(MemoryErrorKind::ActiveReferences)) && final(self).same_state(old(self)),
            old(self).valid_pointer(ptr) && old(self).block_of(ptr).ref_count == 0 ==> {
                &&& r == Ok::<(), CompilerError>(())
                &&& final(self).same_memory(old(self))
                &&& final(self).total_allocated_spec() == old(self).total_allocated_spec()
                    - old(self).block_of(ptr).size
                &&& (final(self).blocks(), final(self).free_order()) == old(self).freed(ptr)
            },
    {
        let header_ptr = ptr - HEADER_SIZE;

        let ref_count = match self.allocations.get(&header_ptr) {
            Some(block) => block.ref_count,
            None => {
                return Err(CompilerError::Memory(MemoryErrorKind::InvalidPointer(ptr)));
            },
        };

        // Check if there are active references
        if ref_count > 0 {
            return Err(CompilerError::Memory(MemoryErrorKind::ActiveReferences));
        }
        self.free_block(header_ptr);
        Ok(())
    }

    /// The blocks and free list after the block behind `ptr` joins the free
    /// list at its place in address order (marked free) and is merged with
    /// the free blocks next to it in memory.
    pub open spec fn freed(&self, ptr: usize) -> (Map<usize, MemoryBlock>, Seq<usize>) {
        let h = (ptr - HEADER_SIZE) as usize;
        free_into(self.blocks(), self.free_order(), h, self.blocks()[h])
    }

    /// Put the block at `header_ptr` on the free list in address order,
    /// uncount it and merge.
    fn free_block(&mut self, header_ptr: usize)
        requires
            old(self).wf(),
            old(self).blocks().contains_key(header_ptr),
            !old(self).free_order().contains(header_ptr),
            old(self).total_allocated_spec() >= old(self).blocks()[header_ptr].size,
        ensures
            final(self).wf(),
            final(self).same_memory(old(self)),
            final(self).total_allocated_spec() == old(self).total_allocated_spec() - old(self).blocks()[header_ptr].size,
            (final(self).blocks(), final(self).free_order()) == old(self).freed(
                (header_ptr + HEADER_SIZE) as usize,
            ),
            sorted_position(
                old(self).free_order(),
                header_ptr,
                insert_position(old(self).free_order(), header_ptr),
            ),
    {
        let ghost fl = self.free_order@;
        let ghost blocks = self.allocations@;
        proof {
            assert(header_ptr + blocks[header_ptr].size <= self.heap_start);
        }
        // Find the block's place in the address-ordered free list.
        let mut prev: Option<usize> = None;
        let mut cur: Option<usize> = self.free_list;
        let ghost mut k: int = 0;
        loop
            invariant_except_break
                self.allocations@ == blocks,
                self.free_order@ == fl,
                list_ok(fl, blocks),
                !fl.contains(header_ptr),
                0 <= k <= fl.len(),
                cur == node_at(fl, k),
                prev == (if k > 0 { Some(fl[k - 1]) } else { None::<usize> }),
                forall|j: int| 0 <= j < k ==> #[trigger] fl[j] < header_ptr,
            ensures
                self.allocations@ == blocks,
                self.free_order@ == fl,
                sorted_position(fl, header_ptr, k),
                cur == node_at(fl, k),
                prev == (if k > 0 { Some(fl[k - 1]) } else { None::<usize> }),
            decreases fl.len() - k,
        {
            match cur {
                None => {
                    break;
                },
                Some(p) => {
                    proof {
                        assert(fl[k] == p);
                        assert(p != header_ptr);
                    }
                    if p > header_ptr {
                        break;
                    }
                    let next = match self.allocations.get(&p) {
                        Some(block) => block.next,
                        None => {
                            proof {
                                assert(blocks.contains_key(fl[k]));
                            }
                            None
                        },
                    };
                    proof {
                        assert(blocks.contains_key(fl[k]) && blocks[fl[k]].next == link_after(fl, k));
                    }
                    prev = Some(p);
                    cur = next;
                    proof {
                        k = k + 1;
                    }
                },
            }
        }
        proof {
            lemma_insert_position(fl, header_ptr, k);
        }
        let removed = self.allocations.remove(&header_ptr);
        match removed {
            Some(mut block) => {
                block.next = cur;
                self.total_allocated = self.total_allocated - block.size;

                // Mark as free
                block.is_free = true;
                self.allocations.insert(header_ptr, block);
                proof {
                    assert(self.allocations@ =~= blocks.insert(header_ptr, block));
                    lemma_same_extent_keeps_blocks(blocks, self.heap_start as int, header_ptr, block);
                }
                // Link the predecessor (or the head) to the block
                match prev {
                    Some(pp) => {
                        let ghost mid = self.allocations@;
                        proof {
                            assert(blocks.contains_key(fl[k - 1]));
                            assert(fl[k - 1] != header_ptr);
                            assert(mid.contains_key(pp));
                        }
                        let found = match self.allocations.get(&pp) {
                            Some(b) => Some(*b),
                            None => None,
                        };
                        if let Some(pb) = found {
                            let updated = MemoryBlock { next: Some(header_ptr), ..pb };
                            self.allocations.insert(pp, updated);
                            proof {
                                assert(pb == blocks[fl[k - 1]]);
                                lemma_same_extent_keeps_blocks(mid, self.heap_start as int, pp, updated);
                            }
                        }
                    },
                    None => {
                        self.free_list = Some(header_ptr);
                    },
                }
                proof {
                    self.free_order = Ghost(fl.insert(k, header_ptr));
                    lemma_insert_keeps_list(fl, blocks, header_ptr, block, k);
                    assert(block == MemoryBlock { next: node_at(fl, k), is_free: true, ..blocks[header_ptr] });
                    if k > 0 {
                        assert(self.free_list == head_of(self.free_order@)) by {
                            assert(self.free_order@[0] == fl[0]);
                        }
                    }
                }

                // Try to coalesce adjacent free blocks
                self.coalesce_free_blocks();
            },
            None => {},
        }
    }

    /// Take a reference to the block behind `ptr`.
    pub fn retain(&mut self, ptr: usize) -> (r: Result<(), CompilerError>)
        requires
            old(self).wf(),
            ptr >= HEADER_SIZE,
            old(self).valid_pointer(ptr) ==> old(self).block_of(ptr).ref_count < usize::MAX,
        ensures
            final(self).wf(),
            !old(self).valid_pointer(ptr) ==> r == Err::<(), CompilerError>(
                CompilerError::Memory(MemoryErrorKind::InvalidPointer(ptr)),
            ) && final(self).same_state(old(self)),
            old(self).valid_pointer(ptr) ==> {
                let h = (ptr - HEADER_SIZE) as usize;
                let b = old(self).blocks()[h];
                &&& r == Ok::<(), CompilerError>(())
                &&& final(self).same_memory(old(self))
                &&& final(self).free_order() == old(self).free_order()
                &&& final(self).total_allocated_spec() == old(self).total_allocated_spec()
                &&& final(self).blocks() == old(self).blocks().insert(
                    h,
                    MemoryBlock { ref_count: (b.ref_count + 1) as usize, ..b },
                )
            },
    {
        let header_ptr = ptr - HEADER_SIZE;
        let found = match self.allocations.get(&header_ptr) {
            Some(block) => Some(*block),
            None => None,
        };
        match found {
            Some(block) => {
                let updated = MemoryBlock { ref_count: block.ref_count + 1, ..block };
                self.allocations.insert(header_ptr, updated);
                proof {
                    lemma_same_extent_keeps_blocks(
                        old(self).allocations@,
                        self.heap_start as int,
                        header_ptr,
                        updated,
                    );
                    lemma_same_link_keeps_list(old(self).free_order@, old(self).allocations@, header_ptr, updated);
                }
                Ok(())
            },
            None => Err(CompilerError::Memory(MemoryErrorKind::InvalidPointer(ptr))),
        }
    }

    /// Drop a reference to the block behind `ptr` without freeing it.
    pub fn dec_ref_count(&mut self, ptr: usize) -> (r: Result<(), CompilerError>)
        requires
            old(self).wf(),
            ptr >= HEADER_SIZE,
        ensures
            final(self).wf(),
            !old(self).valid_pointer(ptr) ==> r == Err::<(), CompilerError>(
                CompilerError::Memory(MemoryErrorKind::InvalidPointer(ptr)),
            ) && final(self).same_state(old(self)),
            old(self).valid_pointer(ptr) ==> {
                let h = (ptr - HEADER_SIZE) as usize;
                let b = old(self).blocks()[h];
                &&& r == Ok::<(), CompilerError>(())
                &&& final(self).same_memory(old(self))
                &&& final(self).free_order() == old(self).free_order()
                &&& final(self).total_allocated_spec() == old(self).total_allocated_spec()
                &&& final(self).blocks() == old(self).blocks().insert(
                    h,
                    MemoryBlock {
                        ref_count: if b.ref_count > 0 {
                            (b.ref_count - 1) as usize
                        } else {
                            0
                        },
                        ..b
                    },
                )
            },
    {
        let header_ptr = ptr - HEADER_SIZE;
        let found = match self.allocations.get(&header_ptr) {
            Some(block) => Some(*block),
            None => None,
        };
        match found {
            Some(block) => {
                let mut updated = block;
                if updated.ref_count > 0 {
                    updated.ref_count = updated.ref_count - 1;
                }
                self.allocations.insert(header_ptr, updated);
                proof {
                    lemma_same_extent_keeps_blocks(
                        old(self).allocations@,
                        self.heap_start as int,
                        header_ptr,
                        updated,
                    );
                    lemma_same_link_keeps_list(old(self).free_order@, old(self).allocations@, header_ptr, updated);
                }
                Ok(())
            },
            None => Err(CompilerError::Memory(MemoryErrorKind::InvalidPointer(ptr))),
        }
    }

    /// Drop a reference to the block behind `ptr`; when the last reference
    /// of a non-root block goes, the block is freed and merged.
    pub fn release(&mut self, ptr: usize) -> (r: Result<(), CompilerError>)
        requires
            old(self).wf(),
            ptr >= HEADER_SIZE,
            old(self).valid_pointer(ptr) && old(self).block_of(ptr).ref_count == 1
                && !old(self).block_of(ptr).is_root ==> {
                &&& !old(self).free_order().contains((ptr - HEADER_SIZE) as usize)
                &&& old(self).total_allocated_spec() >= old(self).block_of(ptr).size
            },
        ensures
            final(self).wf(),
            !old(self).valid_pointer(ptr) ==> r == Err::<(), CompilerError>(
                CompilerError::Memory(MemoryErrorKind::InvalidPointer(ptr)),
            ) && final(self).same_state(old(self)),
            old(self).valid_pointer(ptr) && old(self).block_of(ptr).ref_count == 0 ==> r == Ok::<
                (),
                CompilerError,
            >(()) && final(self).same_state(old(self)),
            old(self).valid_pointer(ptr) && old(self).block_of(ptr).ref_count > 0 ==> {
                let h = (ptr - HEADER_SIZE) as usize;
                let b = old(self).blocks()[h];
                let dropped = MemoryBlock { ref_count: (b.ref_count - 1) as usize, ..b };
                &&& r == Ok::<(), CompilerError>(())
                &&& final(self).same_memory(old(self))
                &&& if dropped.ref_count == 0 && !b.is_root {
                    &&& final(self).total_allocated_spec() == old(self).total_allocated_spec()
                        - b.size
                    &&& (final(self).blocks(), final(self).free_order()) == free_into(
                        old(self).blocks(),
                        old(self).free_order(),
                        h,
                        dropped,
                    )
                } else {
                    &&& final(self).total_allocated_spec() == old(self).total_allocated_spec()
                    &&& final(self).free_order() == old(self).free_order()
                    &&& final(self).blocks() == old(self).blocks().insert(h, dropped)
                }
            },
    {
        let header_ptr = ptr - HEADER_SIZE;

        let (ref_count, is_root) = match self.allocations.get(&header_ptr) {
            Some(block) => (block.ref_count, block.is_root),
            None => {
                return Err(CompilerError::Memory(MemoryErrorKind::InvalidPointer(ptr)));
            },
        };

        if ref_count > 0 {
            let found = match self.allocations.get(&header_ptr) {
                Some(block) => Some(*block),
                None => None,
            };
            if let Some(block) = found {
                let mut updated = block;
                updated.ref_count = updated.ref_count - 1;
                self.allocations.insert(header_ptr, updated);
                proof {
                    lemma_same_extent_keeps_blocks(
                        old(self).allocations@,
                        self.heap_start as int,
                        header_ptr,
                        updated,
                    );
                    lemma_same_link_keeps_list(old(self).free_order@, old(self).allocations@, header_ptr, updated);
                }
                // If reference count reaches 0 and not a root object, free it
                if updated.ref_count == 0 && !is_root {
                    proof {
                        assert(self.allocations@.insert(header_ptr, updated) =~= self.allocations@);
                    }
                    self.free_block(header_ptr);
                    proof {
                        let fl = old(self).free_order@;
                        let kk = insert_position(fl, header_ptr);
                        let x = MemoryBlock { next: node_at(fl, kk), is_free: true, ..updated };
                        assert(old(self).allocations@.insert(header_ptr, updated).insert(header_ptr, x)
                            =~= old(self).allocations@.insert(header_ptr, x));
                        if kk > 0 {
                            assert(fl[kk - 1] != header_ptr);
                        }
                    }
                }
            }
            Ok(())
        } else {
            // Reference count already at 0, nothing to do
            Ok(())
        }
    }

    /// The type id of the block behind `ptr`.
    pub fn get_type_id(&self, ptr: usize) -> (r: Result<u32, CompilerError>)
        requires
            ptr >= HEADER_SIZE,
        ensures
            self.valid_pointer(ptr) ==> r == Ok::<u32, CompilerError>(self.block_of(ptr).type_id),
            !self.valid_pointer(ptr) ==> r == Err::<u32, CompilerError>(
                CompilerError::Memory(MemoryErrorKind::InvalidPointer(ptr)),
            ),
    {
        let header_ptr = ptr - HEADER_SIZE;
        match self.allocations.get(&header_ptr) {
            Some(block) => Ok(block.type_id),
            None => Err(CompilerError::Memory(MemoryErrorKind::InvalidPointer(ptr))),
        }
    }

    /// Whether `ptr` is the user pointer of a known block.
    fn is_valid_pointer(&self, ptr: usize) -> (r: bool)
        requires
            ptr >= HEADER_SIZE,
        ensures
            r == self.valid_pointer(ptr),
    {
        let header_ptr = ptr - HEADER_SIZE;
        self.allocations.contains_key(&header_ptr)
    }

    /// A user pointer of a known block lies inside memory.
    proof fn lemma_valid_pointer_in_memory(&self, ptr: usize)
        requires
            self.wf(),
            self.valid_pointer(ptr),
        ensures
            ptr <= self.data@.len(),
            self.data@.len() + PAGE_SIZE <= usize::MAX,
    {
        let h = (ptr - HEADER_SIZE) as usize;
        assert(self.allocations@.contains_key(h));
    }

    /// Store a 32-bit integer (little endian) at a user pointer.
    pub fn store_i32(&mut self, ptr: usize, value: i32) -> (r: Result<(), CompilerError>)
        requires
            old(self).wf(),
            ptr >= HEADER_SIZE,
        ensures
            final(self).wf(),
            final(self).blocks() == old(self).blocks(),
            final(self).free_order() == old(self).free_order(),
            final(self).total_allocated_spec() == old(self).total_allocated_spec(),
            final(self).heap_start_spec() == old(self).heap_start_spec(),
            final(self).current_pages_spec() == old(self).current_pages_spec(),
            final(self).max_pages_spec() == old(self).max_pages_spec(),
            final(self).limits() == old(self).limits(),
            !old(self).valid_pointer(ptr) ==> r == Err::<(), CompilerError>(
                CompilerError::Memory(MemoryErrorKind::InvalidPointer(ptr)),
            ) && final(self).bytes() == old(self).bytes(),
            old(self).valid_pointer(ptr) && ptr + 4 > old(self).bytes().len() ==> r == Err::<
                (),
                CompilerError,
            >(CompilerError::Memory(MemoryErrorKind::OutOfBounds)) && final(self).bytes() == old(self).bytes(),
            old(self).valid_pointer(ptr) && ptr + 4 <= old(self).bytes().len() ==> r == Ok::<
                (),
                CompilerError,
            >(()) && final(self).bytes() == written(
                old(self).bytes(),
                ptr as int,
                le_bytes_u32(value as u32),
            ),
    {
        if !self.is_valid_pointer(ptr) {
            return Err(CompilerError::Memory(MemoryErrorKind::InvalidPointer(ptr)));
        }
        proof {
            self.lemma_valid_pointer_in_memory(ptr);
        }
        if ptr + 4 > self.data.len() {
            return Err(CompilerError::Memory(MemoryErrorKind::OutOfBounds));
        }
        let v = value as u32;
        self.data.set(ptr, (v & 0xff) as u8);
        self.data.set(ptr + 1, ((v >> 8u32) & 0xff) as u8);
        self.data.set(ptr + 2, ((v >> 16u32) & 0xff) as u8);
        self.data.set(ptr + 3, ((v >> 24u32) & 0xff) as u8);
        proof {
            assert(self.data@ =~= written(old(self).data@, ptr as int, le_bytes_u32(v)));
        }
        Ok(())
    }

    /// Store a byte at a user pointer.
    pub fn store_u8(&mut self, ptr: usize, value: u8) -> (r: Result<(), CompilerError>)
        requires
            old(self).wf(),
            ptr >= HEADER_SIZE,
        ensures
            final(self).wf(),
            final(self).blocks() == old(self).blocks(),
            final(self).free_order() == old(self).free_order(),
            final(self).total_allocated_spec() == old(self).total_allocated_spec(),
            final(self).heap_start_spec() == old(self).heap_start_spec(),
            final(self).current_pages_spec() == old(self).current_pages_spec(),
            final(self).max_pages_spec() == old(self).max_pages_spec(),
            final(self).limits() == old(self).limits(),
            !old(self).valid_pointer(ptr) ==> r == Err::<(), CompilerError>(
                CompilerError::Memory(MemoryErrorKind::InvalidPointer(ptr)),
            ) && final(self).bytes() == old(self).bytes(),
            old(self).valid_pointer(ptr) && ptr + 1 > old(self).bytes().len() ==> r == Err::<
                (),
                CompilerError,
            >(CompilerError::Memory(MemoryErrorKind::OutOfBounds)) && final(self).bytes() == old(self).bytes(),
            old(self).valid_pointer(ptr) && ptr + 1 <= old(self).bytes().len() ==> r == Ok::<
                (),
                CompilerError,
            >(()) && final(self).bytes() == old(self).bytes().update(ptr as int, value),
    {
        if !self.is_valid_pointer(ptr) {
            return Err(CompilerError::Memory(MemoryErrorKind::InvalidPointer(ptr)));
        }
        proof {
            self.lemma_valid_pointer_in_memory(ptr);
        }
        if ptr + 1 > self.data.len() {
            return Err(CompilerError::Memory(MemoryErrorKind::OutOfBounds));
        }
        self.data.set(ptr, value);
        Ok(())
    }

    /// Store a 64-bit float, given by its IEEE-754 bits, (little endian) at a
    /// user pointer.
    pub fn store_f64(&mut self, ptr: usize, value_bits: u64) -> (r: Result<(), CompilerError>)
        requires
            old(self).wf(),
            ptr >= HEADER_SIZE,
        ensures
            final(self).wf(),
            final(self).blocks() == old(self).blocks(),
            final(self).free_order() == old(self).free_order(),
            final(self).total_allocated_spec() == old(self).total_allocated_spec(),
            final(self).heap_start_spec() == old(self).heap_start_spec(),
            final(self).current_pages_spec() == old(self).current_pages_spec(),
            final(self).max_pages_spec() == old(self).max_pages_spec(),
            final(self).limits() == old(self).limits(),
            !old(self).valid_pointer(ptr) ==> r == Err::<(), CompilerError>(
                CompilerError::Memory(MemoryErrorKind::InvalidPointer(ptr)),
            ) && final(self).bytes() == old(self).bytes(),
            old(self).valid_pointer(ptr) && ptr + 8 > old(self).bytes().len() ==> r == Err::<
                (),
                CompilerError,
            >(CompilerError::Memory(MemoryErrorKind::OutOfBounds)) && final(self).bytes() == old(self).bytes(),
            old(self).valid_pointer(ptr) && ptr + 8 <= old(self).bytes().len() ==> r == Ok::<
                (),
                CompilerError,
            >(()) && final(self).bytes() == written(
                old(self).bytes(),
                ptr as int,
                le_bytes_u64(value_bits),
            ),
    {
        if !self.is_valid_pointer(ptr) {
            return Err(CompilerError::Memory(MemoryErrorKind::InvalidPointer(ptr)));
        }
        proof {
            self.lemma_valid_pointer_in_memory(ptr);
        }
        if ptr + 8 > self.data.len() {
            return Err(CompilerError::Memory(MemoryErrorKind::OutOfBounds));
        }
        let v = value_bits;
        self.data.set(ptr, (v & 0xff) as u8);
        self.data.set(ptr + 1, ((v >> 8u64) & 0xff) as u8);
        self.data.set(ptr + 2, ((v >> 16u64) & 0xff) as u8);
        self.data.set(ptr + 3, ((v >> 24u64) & 0xff) as u8);
        self.data.set(ptr + 4, ((v >> 32u64) & 0xff) as u8);
        self.data.set(ptr + 5, ((v >> 40u64) & 0xff) as u8);
        self.data.set(ptr + 6, ((v >> 48u64) & 0xff) as u8);
        self.data.set(ptr + 7, ((v >> 56u64) & 0xff) as u8);
        proof {
            assert(self.data@ =~= written(old(self).data@, ptr as int, le_bytes_u64(v)));
        }
        Ok(())
    }

    /// Pages of linear memory in use.
    pub fn get_current_pages(&self) -> (r: u32)
        ensures
            r == self.current_pages_spec(),
    {
        self.current_pages
    }

    /// The page limit, if any.
    pub fn get_max_pages(&self) -> (r: Option<u32>)
        ensures
            r == self.max_pages_spec(),
    {
        self.max_pages
    }

    /// The first address not yet handed out.
    pub fn get_heap_start(&self) -> (r: usize)
        ensures
            r == self.heap_start_spec(),
    {
        self.heap_start
    }

    /// Bytes counted as allocated.
    pub fn get_total_allocated(&self) -> (r: usize)
        ensures
            r == self.total_allocated_spec(),
    {
        self.total_allocated
    }

    /// The memory's length leaves room for another page in a usize.
    pub proof fn lemma_bytes_fit(&self)
        requires
            self.wf(),
        ensures
            self.bytes().len() + PAGE_SIZE <= usize::MAX,
            self.heap_start_spec() <= self.bytes().len(),
    {
    }

    /// The byte of linear memory at `addr`.
    pub fn byte_at(&self, addr: usize) -> (r: u8)
        requires
            addr < self.bytes().len(),
        ensures
            r == self.bytes()[addr as int],
    {
        self.data[addr]
    }

    /// The public `data` vector, whose contents are the bytes of linear
    /// memory the contracts speak of.
    pub fn data_ref(&self) -> (r: &Vec<u8>)
        ensures
            r@ == self.bytes(),
    {
        &self.data
    }

    /// Overwrite the byte of linear memory at `addr`.
    pub fn write_byte(&mut self, addr: usize, value: u8)
        requires
            old(self).wf(),
            addr < old(self).bytes().len(),
        ensures
            final(self).wf(),
            final(self).bytes() == old(self).bytes().update(addr as int, value),
            final(self).same_layout(old(self)),
    {
        self.data.set(addr, value);
    }

    /// An allocation that succeeds hands out a pointer just past the header
    /// of a new block that has one reference, the requested type, no free
    /// mark, and room for the requested bytes inside memory.
    pub proof fn lemma_allocate_gives_block(
        old: MemoryManager,
        new: MemoryManager,
        size: usize,
        type_id: u32,
        ptr: usize,
    )
        requires
            old.wf(),
            new.wf(),
            Self::allocate_layout(old, new, size, type_id, Ok(ptr)),
        ensures
            ptr >= HEADER_SIZE,
            new.valid_pointer(ptr),
            new.block_of(ptr) == allocated_block(Self::block_size_for(size), type_id),
            ptr + size <= new.heap_start_spec() <= new.bytes().len(),
            ptr % ALIGNMENT == 0,
    {
        let a = Self::block_size_for(size);
        assert(a >= size + HEADER_SIZE);
        match old.first_fit(a) {
            Some(k) => {
                let p = old.free_order()[k];
                assert(ptr == p + HEADER_SIZE);
                assert(new.blocks().contains_key(p));
                assert(new.blocks()[p] == allocated_block(a, type_id));
                assert(p + new.blocks()[p].size <= new.heap_start);
            },
            None => {
                let start = old.heap_start_spec();
                assert(new.blocks().contains_key(start));
                assert(start + new.blocks()[start].size <= new.heap_start);
            },
        }
    }

    /// Reusing free-list position `k` for a block of `a` bytes and
    /// splitting off the tail keeps the invariant.
    proof fn lemma_reuse_split_keeps_wf(
        &self,
        old: &MemoryManager,
        fl: Seq<usize>,
        blocks: Map<usize, MemoryBlock>,
        k: int,
        p: usize,
        a: int,
        type_id: u32,
    )
        requires
            old.wf(),
            fl == old.free_order(),
            blocks == old.blocks(),
            is_first_fit(fl, blocks, a, k),
            fl[k] == p,
            a >= HEADER_SIZE,
            self.data@ == old.data@,
            self.heap_start == old.heap_start,
            self.current_pages == old.current_pages,
            blocks[p].size - a >= MIN_ALLOCATION,
            a % 8 == 0,
            self.allocations@ == blocks.remove(p).insert(
                (p + a) as usize,
                split_block(blocks[p].size - a, blocks[p].next),
            ).insert(p, allocated_block(a, type_id)),
            self.free_order@ == seq![(p + a) as usize] + fl.subrange(k + 1, fl.len() as int),
            self.free_list == Some((p + a) as usize),
        ensures
            self.wf(),
            self.blocks() == blocks.insert(
                (p + a) as usize,
                split_block(blocks[p].size - a, blocks[p].next),
            ).insert(p, allocated_block(a, type_id)),
    {
        let np = (p + a) as usize;
        let nb = self.allocations@;
        lemma_split_blocks(blocks, old.heap_start as int, p, a, type_id);
        assert(blocks.remove(p).insert(np, split_block(blocks[p].size - a, blocks[p].next)).insert(
            p,
            allocated_block(a, type_id),
        ) =~= blocks.insert(np, split_block(blocks[p].size - a, blocks[p].next)).insert(
            p,
            allocated_block(a, type_id),
        ));
        lemma_split_list(fl, blocks, nb, k, np, split_block(blocks[p].size - a, blocks[p].next), allocated_block(a, type_id));
        assert(blocks.contains_key(p));
        assert(p % ALIGNMENT == 0 && blocks[p].size % ALIGNMENT == 0);
        lemma_aligned_insert(blocks, np, split_block(blocks[p].size - a, blocks[p].next));
        lemma_aligned_insert(
            blocks.insert(np, split_block(blocks[p].size - a, blocks[p].next)),
            p,
            allocated_block(a, type_id),
        );
    }

    /// Reusing free-list position `k` for a block of `a` bytes whole keeps
    /// the invariant.
    #[verifier::rlimit(60)]
    #[verifier::spinoff_prover]
    proof fn lemma_reuse_whole_keeps_wf(
        &self,
        old: &MemoryManager,
        fl: Seq<usize>,
        blocks: Map<usize, MemoryBlock>,
        k: int,
        p: usize,
        a: int,
        type_id: u32,
    )
        requires
            old.wf(),
            fl == old.free_order(),
            blocks == old.blocks(),
            is_first_fit(fl, blocks, a, k),
            fl[k] == p,
            a >= HEADER_SIZE,
            self.data@ == old.data@,
            self.heap_start == old.heap_start,
            self.current_pages == old.current_pages,
            a % 8 == 0,
            self.allocations@ == blocks.remove(p).insert(p, allocated_block(a, type_id)),
            self.free_order@ == fl.subrange(k + 1, fl.len() as int),
            self.free_list == blocks[p].next,
        ensures
            self.wf(),
            self.blocks() == blocks.insert(p, allocated_block(a, type_id)),
    {
        let nb = self.allocations@;
        let nfl = self.free_order@;
        assert(blocks.contains_key(p));
        assert(blocks_aligned(nb)) by {
            assert(p % ALIGNMENT == 0);
            lemma_aligned_insert(blocks, p, allocated_block(a, type_id));
            assert(blocks.remove(p).insert(p, allocated_block(a, type_id)) =~= blocks.insert(
                p,
                allocated_block(a, type_id),
            ));
        }
        assert(blocks.remove(p).insert(p, allocated_block(a, type_id)) =~= blocks.insert(
            p,
            allocated_block(a, type_id),
        ));
        assert(blocks_ok(nb, self.heap_start as int)) by {
            assert forall|q: usize| #[trigger]
                nb.contains_key(q) implies nb[q].size >= HEADER_SIZE && q + nb[q].size
                <= self.heap_start by {
                if q != p {
                    assert(blocks.contains_key(q));
                }
            }
            assert forall|q1: usize, q2: usize|
                #[trigger] nb.contains_key(q1) && #[trigger] nb.contains_key(q2) && q1 != q2 implies q1
                + nb[q1].size <= q2 || q2 + nb[q2].size <= q1 by {
                assert(blocks.contains_key(q1));
                assert(blocks.contains_key(q2));
            }
        }
        assert(list_ok(nfl, nb)) by {
            assert forall|j: int|
                0 <= j < nfl.len() implies nb.contains_key(nfl[j]) && (#[trigger] nb[nfl[j]]).next
                == link_after(nfl, j) by {
                assert(nfl[j] == fl[k + 1 + j]);
                assert(fl[k + 1 + j] != fl[k]);
                assert(blocks.contains_key(fl[k + 1 + j]) && blocks[fl[k + 1 + j]].next == link_after(
                    fl,
                    k + 1 + j,
                ));
                if k + 1 + j + 1 < fl.len() {
                    assert(nfl[j + 1] == fl[k + 1 + j + 1]);
                }
            }
            assert(nfl.no_duplicates()) by {
                assert forall|i: int, j: int|
                    0 <= i < nfl.len() && 0 <= j < nfl.len() && i != j implies nfl[i] != nfl[j] by {
                    assert(nfl[i] == fl[k + 1 + i]);
                    assert(nfl[j] == fl[k + 1 + j]);
                }
            }
        }
        if k + 1 < fl.len() {
            assert(nfl[0] == fl[k + 1]);
            assert(blocks[fl[k]].next == link_after(fl, k));
        }
    }

    /// Taking a fresh block of `a` bytes at the top of the heap keeps the
    /// invariant.
    proof fn lemma_fresh_keeps_wf(&self, old: &MemoryManager, ptr: usize, a: int, type_id: u32)
        requires
            old.wf(),
            ptr == old.heap_start,
            a >= HEADER_SIZE,
            a % 8 == 0,
            self.heap_start == ptr + a,
            self.heap_start <= self.data@.len(),
            self.data@.len() == self.current_pages as int * PAGE_SIZE as int,
            self.current_pages as int * PAGE_SIZE as int + PAGE_SIZE as int <= usize::MAX,
            self.allocations@ == old.allocations@.insert(ptr, allocated_block(a, type_id)),
            self.free_order@ == old.free_order@,
            self.free_list == old.free_list,
        ensures
            self.wf(),
    {
        let blocks = old.allocations@;
        let nb = self.allocations@;
        let fl = old.free_order@;
        lemma_aligned_insert(blocks, ptr, allocated_block(a, type_id));
        assert(!blocks.contains_key(ptr)) by {
            if blocks.contains_key(ptr) {
                assert(ptr + blocks[ptr].size <= old.heap_start);
            }
        }
        assert forall|q: usize| #[trigger]
            nb.contains_key(q) implies nb[q].size >= HEADER_SIZE && q + nb[q].size
            <= self.heap_start by {
            if q != ptr {
                assert(blocks.contains_key(q));
            }
        }
        assert forall|q1: usize, q2: usize|
            #[trigger] nb.contains_key(q1) && #[trigger] nb.contains_key(q2) && q1 != q2 implies q1
            + nb[q1].size <= q2 || q2 + nb[q2].size <= q1 by {
            if q1 != ptr {
                assert(blocks.contains_key(q1));
            }
            if q2 != ptr {
                assert(blocks.contains_key(q2));
            }
        }
        assert forall|j: int|
            0 <= j < fl.len() implies nb.contains_key(fl[j]) && (#[trigger] nb[fl[j]]).next
            == link_after(fl, j) by {
            assert(blocks.contains_key(fl[j]) && blocks[fl[j]].next == link_after(fl, j));
            assert(fl[j] != ptr);
        }
    }

}

/// The memories a memory section defines, in order, each as
/// `(minimum, maximum, memory64, shared)`.
pub uninterp spec fn memory_section_types(section: MemorySection) -> Seq<(u64, Option<u64>, bool, bool)>;

/// `wasm_encoder::MemorySection::new`: a memory section that defines no
/// memory yet.
#[verifier::external_body]
fn memory_section_new() -> (section: MemorySection)
    ensures
        memory_section_types(section) == Seq::<(u64, Option<u64>, bool, bool)>::empty(),
{
    MemorySection::new()
}

/// `wasm_encoder::MemorySection::memory`: defines one more memory, of the
/// given limits and flags and the default page size, after those the
/// section already defines. The section counts its memories in a `u32`,
/// so it must hold fewer than `u32::MAX` of them.
#[verifier::external_body]
fn memory_section_add(
    section: &mut MemorySection,
    minimum: u64,
    maximum: Option<u64>,
    memory64: bool,
    shared: bool,
)
    requires
        memory_section_types(*old(section)).len() < u32::MAX,
    ensures
        memory_section_types(*final(section)) == memory_section_types(*old(section)).push(
            (minimum, maximum, memory64, shared),
        ),
{
    section.memory(MemoryType { minimum, maximum, memory64, shared, page_size_log2: None });
}

impl MemoryManager {
    /// The memory section that declares this manager's linear memory.
    pub fn create_memory_section(&self) -> (section: MemorySection)
        ensures
            memory_section_types(section) == seq![
                (
                    self.limits().minimum,
                    self.limits().maximum,
                    self.limits().memory64,
                    self.limits().shared,
                ),
            ],
    {
        let mut section = memory_section_new();
        memory_section_add(
            &mut section,
            self.memory.minimum,
            self.memory.maximum,
            self.memory.memory64,
            self.memory.shared,
        );
        section
    }
}

/// Releasing undoes retaining: if `m1` is what `retain(ptr)` makes of
/// `m0` for a live block with at least one reference, and `m2` is what
/// `release(ptr)` makes of `m1`, then `m2` holds exactly the state of
/// `m0`: the block keeps its count, nothing is freed and no byte changes.
pub proof fn lemma_retain_then_release(
    m0: MemoryManager,
    m1: MemoryManager,
    m2: MemoryManager,
    ptr: usize,
)
    requires
        m0.valid_pointer(ptr),
        1 <= m0.block_of(ptr).ref_count < usize::MAX,
        // what `retain(ptr)` ensures of a valid pointer
        m1.same_memory(&m0),
        m1.free_order() == m0.free_order(),
        m1.total_allocated_spec() == m0.total_allocated_spec(),
        m1.blocks() == m0.blocks().insert(
            (ptr - HEADER_SIZE) as usize,
            MemoryBlock { ref_count: (m0.block_of(ptr).ref_count + 1) as usize, ..m0.block_of(ptr) },
        ),
        // what `release(ptr)` ensures of a block whose count stays positive
        m2.same_memory(&m1),
        m2.free_order() == m1.free_order(),
        m2.total_allocated_spec() == m1.total_allocated_spec(),
        m2.blocks() == m1.blocks().insert(
            (ptr - HEADER_SIZE) as usize,
            MemoryBlock { ref_count: (m1.block_of(ptr).ref_count - 1) as usize, ..m1.block_of(ptr) },
        ),
    ensures
        m2.same_state(&m0),
{
    let h = (ptr - HEADER_SIZE) as usize;
    assert(m1.block_of(ptr) == MemoryBlock {
        ref_count: (m0.block_of(ptr).ref_count + 1) as usize,
        ..m0.block_of(ptr)
    });
    assert(m0.blocks().contains_key(h));
    assert(m2.blocks()[h] == m0.blocks()[h]);
    assert(m2.blocks() =~= m0.blocks());
}


/// Blocks never overlap and user pointers are aligned: in any well-formed
/// manager, every block starts at a multiple of `ALIGNMENT` and spans a
/// multiple of it, two distinct blocks share no byte, and every user
/// pointer of a known block is a multiple of `ALIGNMENT`.
pub proof fn lemma_blocks_apart_and_aligned(m: MemoryManager)
    requires
        m.wf(),
    ensures
        forall|p: usize| #[trigger]
            m.blocks().contains_key(p) ==> p % ALIGNMENT == 0 && m.blocks()[p].size % ALIGNMENT == 0
                && p + m.blocks()[p].size <= m.heap_start_spec(),
        forall|p: usize, q: usize|
            #[trigger] m.blocks().contains_key(p) && #[trigger] m.blocks().contains_key(q) && p != q
                ==> p + m.blocks()[p].size <= q || q + m.blocks()[q].size <= p,
        forall|ptr: usize| #[trigger] m.valid_pointer(ptr) ==> ptr % ALIGNMENT == 0,
{
    assert forall|ptr: usize| #[trigger] m.valid_pointer(ptr) implies ptr % ALIGNMENT == 0 by {
        assert(m.blocks().contains_key((ptr - HEADER_SIZE) as usize));
    }
}


/// What an allocation gives: on success, an 8-aligned user pointer past a
/// header, to a block of the requested type with one reference, `a` bytes
/// counted more, lying inside memory and sharing no byte with any other
/// block; memory stays within the page limit it started within. On
/// failure nothing changes.
pub proof fn lemma_allocate_law(
    old: MemoryManager,
    new: MemoryManager,
    size: usize,
    type_id: u32,
    r: Result<usize, CompilerError>,
)
    requires
        old.wf(),
        new.wf(),
        MemoryManager::allocate_layout(old, new, size, type_id, r),
        new.bytes() == old.bytes_after_allocate(size),
    ensures
        new.bytes().len() == new.current_pages_spec() * PAGE_SIZE,
        old.max_pages_spec() is Some && old.current_pages_spec() <= old.max_pages_spec()->0
            ==> new.current_pages_spec() <= old.max_pages_spec()->0,
        match r {
            Ok(p) => {
                let h = (p - HEADER_SIZE) as usize;
                let a = MemoryManager::block_size_for(size);
                &&& p % ALIGNMENT == 0
                &&& p >= HEADER_SIZE
                &&& new.valid_pointer(p)
                &&& new.block_of(p).type_id == type_id
                &&& new.block_of(p).ref_count == 1
                &&& new.block_of(p).size == a
                &&& new.total_allocated_spec() == old.total_allocated_spec() + a
                &&& h + a <= new.bytes().len()
                &&& forall|q: usize| #[trigger]
                    new.blocks().contains_key(q) && q != h ==> q + new.blocks()[q].size <= h || h + a
                        <= q
            },
            Err(_) => new.same_state(&old) && new.bytes() == old.bytes(),
        },
{
    lemma_blocks_apart_and_aligned(new);
    assert(new.bytes().len() == new.current_pages_spec() * PAGE_SIZE);
    if let Ok(p) = r {
        MemoryManager::lemma_allocate_gives_block(old, new, size, type_id, p);
        let h = (p - HEADER_SIZE) as usize;
        assert(new.blocks().contains_key(h));
    }
}
/// The functions `register_functions` registers, in order.
pub open spec fn memory_signatures() -> Seq<Signature> {
    seq![
        defined(
            "memory.allocate"@,
            seq![WasmType::I32, WasmType::I32],
            Some(WasmType::I32),
            seq![],
            MemoryManager::allocate_function_body(),
        ),
        defined(
            "memory.retain"@,
            seq![WasmType::I32],
            None,
            seq![],
            MemoryManager::retain_function_body(),
        ),
        defined(
            "memory.release"@,
            seq![WasmType::I32],
            None,
            seq![],
            MemoryManager::release_function_body(),
        ),
    ]
}

/// The names `register_functions` binds, with indices counted from its first
/// registered function.
pub open spec fn memory_bindings() -> Seq<(Seq<char>, int)> {
    seq![
        ("memory.allocate"@, 0),
        ("memory.retain"@, 1),
        ("memory.release"@, 2),
    ]
}

impl MemoryManager {
    /// Register the functions of this module.
    pub fn register_functions(&self, codegen: &mut CodeGenerator) -> (r: Result<(), CompilerError>)
        requires
            old(codegen).wf(),
        ensures
            final(codegen).wf(),
            r is Ok <==> old(codegen).n_functions() + 3 <= u32::MAX,
            r is Ok ==> appended(
                *old(codegen),
                *final(codegen),
                memory_signatures(),
                memory_bindings(),
            ),
            r matches Err(e) ==> e == CompilerError::FunctionLimit,
    {
        let ghost start = *codegen;
        let ghost mut sigs = Seq::<Signature>::empty();
        let ghost mut binds = Seq::<(Seq<char>, int)>::empty();
        proof {
            lemma_appended_start(start);
        }
        // Register allocate function
        let ghost sig = defined(
            "memory.allocate"@,
            seq![WasmType::I32, WasmType::I32],
            Some(WasmType::I32),
            seq![],
            MemoryManager::allocate_function_body(),
        );
        register_tracked(
            codegen,
            Ghost(start),
            Ghost(sigs),
            Ghost(binds),
            Ghost(sig),
            "memory.allocate",
            &[WasmType::I32, WasmType::I32],
            Some(WasmType::I32),
            &[],
            self.generate_allocate_function(),
        )?;
        proof {
            binds = binds.push(binding_for(sigs, sig));
            sigs = sigs.push(sig);
        }
        // Register retain function
        let ghost sig = defined(
            "memory.retain"@,
            seq![WasmType::I32],
            None,
            seq![],
            MemoryManager::retain_function_body(),
        );
        register_tracked(
            codegen,
            Ghost(start),
            Ghost(sigs),
            Ghost(binds),
            Ghost(sig),
            "memory.retain",
            &[WasmType::I32],
            None,
            &[],
            self.generate_retain_function(),
        )?;
        proof {
            binds = binds.push(binding_for(sigs, sig));
            sigs = sigs.push(sig);
        }
        // Register release function
        let ghost sig = defined(
            "memory.release"@,
            seq![WasmType::I32],
            None,
            seq![],
            MemoryManager::release_function_body(),
        );
        register_tracked(
            codegen,
            Ghost(start),
            Ghost(sigs),
            Ghost(binds),
            Ghost(sig),
            "memory.release",
            &[WasmType::I32],
            None,
            &[],
            self.generate_release_function(),
        )?;
        proof {
            binds = binds.push(binding_for(sigs, sig));
            sigs = sigs.push(sig);
        }
        proof {
            assert(sigs =~= memory_signatures());
            assert(binds =~= memory_bindings());
            lemma_appended_fits(start, *codegen, sigs, binds);
        }
        Ok(())
    }

    /// The instructions `generate_allocate_function` returns.
    #[verifier::opaque]
    pub open spec fn allocate_function_body() -> Seq<Instruction> {
        seq![
            Instruction::LocalGet(0),
            Instruction::LocalGet(1),
            Instruction::I32Const(HEADER_SIZE as i32),
            Instruction::I32Add,
            Instruction::I32Const(7),
            Instruction::I32Add,
            Instruction::I32Const(-8i32),
            Instruction::I32And,
            Instruction::Call(0),
            Instruction::Return,
        ]
    }

    pub fn generate_allocate_function(&self) -> (r: Vec<Instruction>)
        ensures
            body_ok(r@, 2),
            r@ == Self::allocate_function_body(),
    {
        proof {
            reveal(MemoryManager::allocate_function_body);
        }
        let mut b = Body::new(2);
        // Get size parameter
        b.i(Instruction::LocalGet(0));
        // Get type_id parameter
        b.i(Instruction::LocalGet(1));
        // Add header size
        b.i(Instruction::I32Const(HEADER_SIZE as i32));
        b.i(Instruction::I32Add);
        // Align to 8 bytes
        b.i(Instruction::I32Const(7));
        b.i(Instruction::I32Add);
        b.i(Instruction::I32Const(-8));
        b.i(Instruction::I32And);
        // Call memory.grow if needed
        b.i(Instruction::Call(0));
        // Return pointer
        b.i(Instruction::Return);
        b.finish()
    }

    /// The instructions `generate_retain_function` returns.
    #[verifier::opaque]
    pub open spec fn retain_function_body() -> Seq<Instruction> {
        seq![
            Instruction::LocalGet(0),
            Instruction::LocalGet(0),
            Instruction::I32Load(MemArg { offset: 0, align: 2, memory_index: 0 }),
            Instruction::I32Const(1),
            Instruction::I32Add,
            Instruction::I32Store(MemArg { offset: 0, align: 2, memory_index: 0 }),
        ]
    }

    pub fn generate_retain_function(&self) -> (r: Vec<Instruction>)
        ensures
            body_ok(r@, 1),
            r@ == Self::retain_function_body(),
    {
        proof {
            reveal(MemoryManager::retain_function_body);
        }
        let mut b = Body::new(1);
        // Get pointer parameter and keep on stack for store
        b.i(Instruction::LocalGet(0));
        // Duplicate pointer for load operation
        b.i(Instruction::LocalGet(0));
        // Load reference count
        b.i(Instruction::I32Load(MemArg { offset: 0, align: 2, memory_index: 0 }));
        // Increment reference count
        b.i(Instruction::I32Const(1));
        b.i(Instruction::I32Add);
        // Store updated reference count (stack now has [pointer, new_ref_count])
        b.i(Instruction::I32Store(MemArg { offset: 0, align: 2, memory_index: 0 }));
        b.finish()
    }

    /// The instructions `generate_release_function` returns.
    #[verifier::opaque]
    pub open spec fn release_function_body() -> Seq<Instruction> {
        seq![
            Instruction::LocalGet(0),
            Instruction::LocalGet(0),
            Instruction::I32Load(MemArg { offset: 0, align: 2, memory_index: 0 }),
            Instruction::I32Const(1),
            Instruction::I32Sub,
            Instruction::I32Store(MemArg { offset: 0, align: 2, memory_index: 0 }),
        ]
    }

    pub fn generate_release_function(&self) -> (r: Vec<Instruction>)
        ensures
            body_ok(r@, 1),
            r@ == Self::release_function_body(),
    {
        proof {
            reveal(MemoryManager::release_function_body);
        }
        let mut b = Body::new(1);
        // Get pointer parameter and keep on stack for store
        b.i(Instruction::LocalGet(0));
        // Duplicate pointer for load operation
        b.i(Instruction::LocalGet(0));
        // Load reference count
        b.i(Instruction::I32Load(MemArg { offset: 0, align: 2, memory_index: 0 }));
        // Decrement reference count
        b.i(Instruction::I32Const(1));
        b.i(Instruction::I32Sub);
        // Store updated reference count (stack has [pointer, new_ref_count])
        b.i(Instruction::I32Store(MemArg { offset: 0, align: 2, memory_index: 0 }));
        b.finish()
    }

}

} // verus!
