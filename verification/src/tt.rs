//! The transposition table: a fixed-capacity, direct-mapped array of score
//! bounds keyed by Zobrist hash. A slot is overwritten only by an entry of
//! strictly greater depth.

use vstd::prelude::*;

verus! {

/// Number of slots; a power of two so that indexing is a mask.
pub const TRANSPOSITION_TABLE_LENGTH: usize = 8388608;

pub const TABLE_INDEX_MASK: u64 = 8388607;

/// The slot a hash maps to: its low bits.
pub open spec fn slot_of(hash: u64) -> int {
    (hash & TABLE_INDEX_MASK) as int
}

/// How a stored score relates to the true value: `Unset` marks a slot that
/// was never written, `Exact` a true value, `Lowerbound` a score the true
/// value is at least, `Upperbound` one it is at most.
#[derive(Clone, Copy, PartialEq, Eq, Structural, Debug)]
pub enum TranspositionTableFlag {
    Unset,
    Exact,
    Lowerbound,
    Upperbound,
}

#[derive(Clone, Copy, PartialEq, Eq, Structural, Debug)]
pub struct TranspositionTableData {
    pub hash: u64,
    pub score: i32,
    pub depth: u16,
    pub best_move_index: u8,
    pub flag: TranspositionTableFlag,
}

/// The value every slot starts from.
pub open spec fn empty_entry() -> TranspositionTableData {
    TranspositionTableData {
        hash: 0,
        score: 0,
        depth: 0,
        best_move_index: 0,
        flag: TranspositionTableFlag::Unset,
    }
}

/// Stored scores stay strictly inside i32, so negating one never overflows.
pub open spec fn entry_wf(e: TranspositionTableData) -> bool {
    -0x7fff_ffff <= e.score <= 0x7fff_ffff
}

pub open spec fn table_wf(t: Seq<TranspositionTableData>) -> bool {
    &&& t.len() == TRANSPOSITION_TABLE_LENGTH
    &&& forall|i: int| 0 <= i < t.len() ==> entry_wf(#[trigger] t[i])
}

impl TranspositionTableData {
    pub fn new() -> (r: TranspositionTableData)
        ensures
            r == empty_entry(),
    {
        TranspositionTableData {
            hash: 0,
            score: 0,
            depth: 0,
            best_move_index: 0,
            flag: TranspositionTableFlag::Unset,
        }
    }
}

/// How one search call may change the table: every slot either keeps its
/// old entry, or is overwritten by an entry of strictly greater depth whose
/// flag is set. So replacement is depth-preferred, and a slot whose flag is
/// `Unset` was never written: starting from a fresh table, an `Unset` slot
/// still holds `empty_entry()`.
pub open spec fn table_evolves(
    pre: Seq<TranspositionTableData>,
    post: Seq<TranspositionTableData>,
) -> bool {
    &&& post.len() == pre.len()
    &&& forall|i: int|
        0 <= i < post.len() ==> (#[trigger] post[i]) == pre[i] || (post[i].depth > pre[i].depth
            && post[i].flag != TranspositionTableFlag::Unset)
}

/// Table evolution composes across nested search calls.
pub proof fn lemma_table_evolves_trans(
    a: Seq<TranspositionTableData>,
    b: Seq<TranspositionTableData>,
    c: Seq<TranspositionTableData>,
)
    requires
        table_evolves(a, b),
        table_evolves(b, c),
    ensures
        table_evolves(a, c),
{
    assert forall|i: int|
        0 <= i < c.len() implies (#[trigger] c[i]) == a[i] || (c[i].depth > a[i].depth
            && c[i].flag != TranspositionTableFlag::Unset) by {
        assert(b[i] == a[i] || (b[i].depth > a[i].depth && b[i].flag
            != TranspositionTableFlag::Unset));
    }
}

/// A fresh table with every slot unset.
#[verifier::loop_isolation(false)]
pub fn new_transposition_table() -> (r: Vec<TranspositionTableData>)
    ensures
        table_wf(r@),
        forall|i: int| 0 <= i < r@.len() ==> r@[i] == empty_entry(),
{
    let mut t: Vec<TranspositionTableData> = Vec::with_capacity(TRANSPOSITION_TABLE_LENGTH);
    let mut i: usize = 0;
    while i < TRANSPOSITION_TABLE_LENGTH
        invariant
            t@.len() == i,
            i <= TRANSPOSITION_TABLE_LENGTH,
            forall|k: int| 0 <= k < i ==> t@[k] == empty_entry(),
        decreases TRANSPOSITION_TABLE_LENGTH - i,
    {
        t.push(TranspositionTableData::new());
        i += 1;
    }
    t
}

} // verus!
