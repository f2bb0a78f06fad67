//! The four-outcome causal comparator over vector clocks.
//!
//! A one-directional `<=` check cannot tell "strictly precedes" from "in
//! conflict" when the test fails; callers doing read-repair need both,
//! reported distinctly.  The comparator here exposes all four outcomes.

use vstd::prelude::*;

use crate::clock::{lemma_tick_count, merged, ticked, ticked_n, zero_counters, VectorClock};
use crate::error::Error;

verus! {

/// How two versions of the same key relate causally.
#[derive(Clone, Copy, Debug, PartialEq, Eq, Structural)]
pub enum Relation {
    /// All counters agree: the two views are the same point in logical
    /// time.
    Equal,
    /// Every counter of the first is at most the matching counter of the
    /// second, and at least one is strictly smaller: the first happened
    /// before the second.
    Before,
    /// The mirror image: the second happened before the first.
    After,
    /// Neither side dominates: the views are concurrent, a potential
    /// conflict.
    Concurrent,
}

/// Every counter of `a` is at most the matching counter of `b`.
pub open spec fn leq_all(a: Seq<usize>, b: Seq<usize>) -> bool {
    a.len() == b.len() && forall|i: int| 0 <= i < a.len() ==> a[i] <= b[i]
}

/// The causal relation between two counter vectors of equal length.
pub open spec fn spec_relate(a: Seq<usize>, b: Seq<usize>) -> Relation {
    if leq_all(a, b) && leq_all(b, a) {
        Relation::Equal
    } else if leq_all(a, b) {
        Relation::Before
    } else if leq_all(b, a) {
        Relation::After
    } else {
        Relation::Concurrent
    }
}

/// Classifies two clocks as `Equal`, `Before`, `After` or `Concurrent`.
/// Clocks built for different process counts are never compared; that is
/// reported as `LengthMismatch`.
pub fn relate(a: &VectorClock, b: &VectorClock) -> (result: Result<Relation, Error>)
    ensures
        a.clocks@.len() == b.clocks@.len() ==> result == Ok::<Relation, Error>(
            spec_relate(a.clocks@, b.clocks@),
        ),
        a.clocks@.len() != b.clocks@.len() ==> (result matches Err(e)
            && e == Error::LengthMismatch),
{
    let n: usize = a.clocks.len();
    if b.clocks.len() != n {
        return Err(Error::LengthMismatch);
    }
    let mut a_le_b: bool = true;
    let mut b_le_a: bool = true;
    let mut i: usize = 0;
    while i < n
        invariant
            i <= n,
            n == a.clocks@.len(),
            n == b.clocks@.len(),
            a_le_b == (forall|j: int| 0 <= j < i ==> a.clocks@[j] <= b.clocks@[j]),
            b_le_a == (forall|j: int| 0 <= j < i ==> b.clocks@[j] <= a.clocks@[j]),
        decreases n - i,
    {
        if a.clocks[i] > b.clocks[i] {
            a_le_b = false;
        }
        if b.clocks[i] > a.clocks[i] {
            b_le_a = false;
        }
        i = i + 1;
    }
    proof {
        assert(a_le_b == leq_all(a.clocks@, b.clocks@));
        assert(b_le_a == leq_all(b.clocks@, a.clocks@));
    }
    if a_le_b && b_le_a {
        Ok(Relation::Equal)
    } else if a_le_b {
        Ok(Relation::Before)
    } else if b_le_a {
        Ok(Relation::After)
    } else {
        Ok(Relation::Concurrent)
    }
}

/// Reflexivity: a clock always relates to itself as `Equal`.
pub proof fn lemma_relate_reflexive(a: Seq<usize>)
    ensures
        spec_relate(a, a) == Relation::Equal,
{
}

/// Antisymmetry: `a` relates `Before` `b` exactly when `b` relates
/// `After` `a`, and `Equal` holds in one order exactly when it holds in
/// the other.
pub proof fn lemma_relate_antisymmetric(a: Seq<usize>, b: Seq<usize>)
    ensures
        (spec_relate(a, b) == Relation::Before) <==> (spec_relate(b, a) == Relation::After),
        (spec_relate(a, b) == Relation::Equal) <==> (spec_relate(b, a) == Relation::Equal),
{
}

/// Merge correctness: merging never causally regresses the receiver.
/// The receiver's clock before a merge relates strictly `Before` the
/// merged clock, whatever the sender's counters were.
pub proof fn lemma_merge_advances(c: Seq<usize>, d: Seq<usize>, p: int)
    requires
        c.len() == d.len(),
        0 <= p < c.len(),
        c[p] < usize::MAX,
    ensures
        spec_relate(c, merged(c, d, p)) == Relation::Before,
{
    let m = merged(c, d, p);
    assert(ticked(c, p)[p] == c[p] + 1);
    assert forall|i: int| 0 <= i < c.len() implies c[i] <= m[i] by {
        assert(ticked(c, p)[i] >= c[i]);
    }
    assert(leq_all(c, m));
    assert(!leq_all(m, c)) by {
        assert(m[p] > c[p]);
    }
}

/// Concurrent detection: two clocks produced by independent local events
/// on two different processes, with no merge in between, relate as
/// `Concurrent`.
pub proof fn lemma_independent_histories_concurrent(len: nat, p: int, q: int, m: nat, n: nat)
    requires
        0 <= p < len,
        0 <= q < len,
        p != q,
        1 <= m <= usize::MAX,
        1 <= n <= usize::MAX,
    ensures
        spec_relate(
            ticked_n(zero_counters(len), p, m),
            ticked_n(zero_counters(len), q, n),
        ) == Relation::Concurrent,
{
    let a = ticked_n(zero_counters(len), p, m);
    let b = ticked_n(zero_counters(len), q, n);
    lemma_tick_count(zero_counters(len), p, m);
    lemma_tick_count(zero_counters(len), q, n);
    assert(!leq_all(a, b)) by {
        assert(a[p] > b[p]);
    }
    assert(!leq_all(b, a)) by {
        assert(b[q] > a[q]);
    }
}

} // verus!
