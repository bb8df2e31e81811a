//! Slots laid out in equal blocks, one block per instance: the arithmetic
//! behind every offset in a merged buffer.

use vstd::arithmetic::div_mod::{lemma_fundamental_div_mod, lemma_fundamental_div_mod_converse};
use vstd::prelude::*;

verus! {

/// `slot` lies in the block of `count` slots that belongs to instance `i`.
pub open spec fn in_block(slot: int, i: int, count: int) -> bool {
    i * count <= slot < i * count + count
}

/// Slot `v` of instance `i` is slot `i * count + v` overall.
pub proof fn lemma_slot(i: int, v: int, count: int)
    requires
        0 <= v < count,
    ensures
        (i * count + v) / count == i,
        (i * count + v) % count == v,
{
    lemma_fundamental_div_mod_converse(i * count + v, count, i, v);
}

/// Slot `j` lies in the block of instance `j / count`, at place `j % count`,
/// and in no other block.
pub proof fn lemma_block_of(j: int, count: int)
    requires
        0 < count,
    ensures
        in_block(j, j / count, count),
        0 <= j % count < count,
        j == (j / count) * count + j % count,
        forall|i: int| in_block(j, i, count) ==> i == j / count,
{
    lemma_fundamental_div_mod(j, count);
    assert(count * (j / count) == (j / count) * count) by (nonlinear_arith);
    assert(0 <= j % count < count) by (nonlinear_arith)
        requires
            0 < count,
    ;
    assert forall|i: int| in_block(j, i, count) implies i == j / count by {
        lemma_fundamental_div_mod_converse(j, count, i, j - i * count);
    }
}

/// The block of instance `i` begins at or after slot zero and ends where the
/// next block begins, within the `n * count` slots of `n` instances.
pub proof fn lemma_block_bounds(i: int, n: int, count: int)
    requires
        0 <= i < n,
        0 <= count,
    ensures
        0 <= i * count,
        (i + 1) * count == i * count + count,
        i * count + count <= n * count,
{
    assert(0 <= i * count) by (nonlinear_arith)
        requires
            0 <= i,
            0 <= count,
    ;
    assert((i + 1) * count == i * count + count) by (nonlinear_arith);
    assert(i * count + count <= n * count) by (nonlinear_arith)
        requires
            i + 1 <= n,
            0 <= count,
    ;
}

/// A slot among the first `n * count` belongs to one of the first `n`
/// instances, and blocks are not empty.
pub proof fn lemma_instance_below(j: int, n: int, count: int)
    requires
        0 <= j < n * count,
        0 <= count,
    ensures
        0 < count,
        0 <= j / count < n,
{
    assert(0 < count) by (nonlinear_arith)
        requires
            0 <= j < n * count,
            0 <= count,
    ;
    lemma_block_of(j, count);
    let i = j / count;
    assert(0 <= i < n) by (nonlinear_arith)
        requires
            i * count <= j < i * count + count,
            0 <= j < n * count,
            0 < count,
    ;
}

} // verus!
