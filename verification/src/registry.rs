//! Reference counts of native handles.
//!
//! Several owners may hold the same native handle. The registry counts them,
//! and tells the owner that gives up the last reference to destroy the
//! handle.

use std::collections::HashMap;
use vstd::multiset::Multiset;
use vstd::prelude::*;

verus! {

broadcast use vstd::std_specs::hash::group_hash_axioms;

/// Counts the references to each native handle, a handle being the address
/// of the native object.
///
/// Its view is the multiset of the references that are outstanding: a handle
/// occurs in it once for each owner.
pub struct PointerReferenceCounter {
    map: HashMap<usize, usize>,
}

/// The multiset that holds each key of `counts` as often as its count says.
spec fn references(counts: Map<usize, usize>) -> Multiset<usize> {
    Multiset::from_map(Map::new(|p: usize| counts.contains_key(p), |p: usize| counts[p] as nat))
}

impl View for PointerReferenceCounter {
    type V = Multiset<usize>;

    closed spec fn view(&self) -> Multiset<usize> {
        references(self.map@)
    }
}

impl PointerReferenceCounter {
    /// No handle is tracked with a count of zero.
    #[verifier::type_invariant]
    spec fn tracked_counts_positive(self) -> bool {
        forall|p: usize| #[trigger] self.map@.contains_key(p) ==> self.map@[p] >= 1
    }

    /// A registry without references.
    pub fn new() -> (registry: Self)
        ensures
            registry@ == Multiset::<usize>::empty(),
    {
        let registry = PointerReferenceCounter { map: HashMap::new() };
        proof {
            lemma_references_count_all(registry.map@);
        }
        registry
    }

    /// The number of references to `ptr` that are outstanding.
    pub fn count(&self, ptr: usize) -> (n: usize)
        ensures
            n == self@.count(ptr),
    {
        proof {
            lemma_references_count(self.map@, ptr);
        }
        match self.map.get(&ptr) {
            Some(rc) => *rc,
            None => 0,
        }
    }

    /// Registers one more reference to `ptr`.
    pub fn incr(&mut self, ptr: usize)
        requires
            old(self)@.count(ptr) < usize::MAX,
        ensures
            final(self)@ == old(self)@.insert(ptr),
            final(self)@ == apply(old(self)@, RegistryOp::Incr(ptr)),
    {
        proof {
            use_type_invariant(&*self);
            lemma_references_count(self.map@, ptr);
        }
        let rc = match self.map.get(&ptr) {
            Some(rc) => *rc,
            None => 0,
        };
        let mut map = HashMap::new();
        std::mem::swap(&mut map, &mut self.map);
        map.insert(ptr, rc + 1);
        self.map = map;
        proof {
            lemma_references_count_all(old(self).map@);
            lemma_references_count_all(self.map@);
        }
    }

    /// Gives up one reference to `ptr`. Returns `true` when it was the last
    /// one: the handle is then no longer tracked, and the caller destroys it.
    pub fn decr(&mut self, ptr: usize) -> (destroy: bool)
        requires
            old(self)@.count(ptr) > 0,
        ensures
            final(self)@ == old(self)@.remove(ptr),
            final(self)@ == apply(old(self)@, RegistryOp::Decr(ptr)),
            destroy == (old(self)@.count(ptr) == 1),
            destroy == destroys(old(self)@, RegistryOp::Decr(ptr), ptr),
    {
        proof {
            use_type_invariant(&*self);
            lemma_references_count(self.map@, ptr);
        }
        let count = *self.map.get(&ptr).unwrap();
        let destroy = count == 1;
        let mut map = HashMap::new();
        std::mem::swap(&mut map, &mut self.map);
        if destroy {
            map.remove(&ptr);
        } else {
            map.insert(ptr, count - 1);
        }
        self.map = map;
        proof {
            lemma_references_count_all(old(self).map@);
            lemma_references_count_all(self.map@);
        }
        destroy
    }
}

/// One step of the use of a registry.
pub enum RegistryOp {
    /// A reference to the handle is taken.
    Incr(usize),
    /// A reference to the handle is given back.
    Decr(usize),
}

/// Whether a registry with the given references takes the step: a
/// reference is given back only where one is outstanding.
pub open spec fn permitted(references: Multiset<usize>, op: RegistryOp) -> bool {
    match op {
        RegistryOp::Incr(_) => true,
        RegistryOp::Decr(p) => references.count(p) > 0,
    }
}

/// The references after the step.
pub open spec fn apply(references: Multiset<usize>, op: RegistryOp) -> Multiset<usize> {
    match op {
        RegistryOp::Incr(p) => references.insert(p),
        RegistryOp::Decr(p) => references.remove(p),
    }
}

/// Whether the step has the handle `p` destroyed: it gives back the last
/// reference to it.
pub open spec fn destroys(references: Multiset<usize>, op: RegistryOp, p: usize) -> bool {
    op == RegistryOp::Decr(p) && references.count(p) == 1
}

/// The references after the given steps, taken from a registry without
/// references.
pub open spec fn replay(ops: Seq<RegistryOp>) -> Multiset<usize>
    decreases ops.len(),
{
    if ops.len() == 0 {
        Multiset::empty()
    } else {
        apply(replay(ops.drop_last()), ops.last())
    }
}

/// Whether a registry without references takes all the steps, one after the
/// other.
pub open spec fn all_permitted(ops: Seq<RegistryOp>) -> bool {
    forall|i: int| 0 <= i < ops.len() ==> permitted(replay(#[trigger] ops.take(i)), ops[i])
}

/// How many of the steps take a reference to `p`.
pub open spec fn increments(ops: Seq<RegistryOp>, p: usize) -> nat
    decreases ops.len(),
{
    if ops.len() == 0 {
        0
    } else if ops.last() == RegistryOp::Incr(p) {
        increments(ops.drop_last(), p) + 1
    } else {
        increments(ops.drop_last(), p)
    }
}

/// How many of the steps give a reference to `p` back.
pub open spec fn decrements(ops: Seq<RegistryOp>, p: usize) -> nat
    decreases ops.len(),
{
    if ops.len() == 0 {
        0
    } else if ops.last() == RegistryOp::Decr(p) {
        decrements(ops.drop_last(), p) + 1
    } else {
        decrements(ops.drop_last(), p)
    }
}

/// How many of the steps have `p` destroyed.
pub open spec fn destructions(ops: Seq<RegistryOp>, p: usize) -> nat
    decreases ops.len(),
{
    if ops.len() == 0 {
        0
    } else if destroys(replay(ops.drop_last()), ops.last(), p) {
        destructions(ops.drop_last(), p) + 1
    } else {
        destructions(ops.drop_last(), p)
    }
}

/// A registry that takes all the steps takes those at the start of them.
pub proof fn lemma_prefix_permitted(ops: Seq<RegistryOp>, n: int)
    requires
        all_permitted(ops),
        0 <= n <= ops.len(),
    ensures
        all_permitted(ops.take(n)),
{
    assert forall|i: int| 0 <= i < ops.take(n).len() implies permitted(
        replay(#[trigger] ops.take(n).take(i)),
        ops.take(n)[i],
    ) by {
        assert(ops.take(n).take(i) =~= ops.take(i));
    }
}

/// The references to a handle are the increments that no decrement has
/// answered yet.
pub proof fn lemma_count_is_balance(ops: Seq<RegistryOp>, p: usize)
    requires
        all_permitted(ops),
    ensures
        replay(ops).count(p) == increments(ops, p) - decrements(ops, p),
    decreases ops.len(),
{
    broadcast use vstd::multiset::group_multiset_axioms;

    if ops.len() > 0 {
        let n = ops.len() - 1;
        lemma_prefix_permitted(ops, n);
        lemma_count_is_balance(ops.drop_last(), p);
    }
}

/// A reference is given back only while there are more increments than
/// decrements: a registry takes no decrement of a handle without an
/// outstanding increment.
pub proof fn lemma_decrement_needs_increment(ops: Seq<RegistryOp>, i: int, p: usize)
    requires
        all_permitted(ops),
        0 <= i < ops.len(),
        ops[i] == RegistryOp::Decr(p),
    ensures
        increments(ops.take(i), p) > decrements(ops.take(i), p),
{
    lemma_prefix_permitted(ops, i);
    lemma_count_is_balance(ops.take(i), p);
}

/// A step has a handle destroyed if and only if it is a decrement of the
/// handle after which its increments and its decrements are equal in
/// number.
pub proof fn lemma_destroyed_when_balanced(ops: Seq<RegistryOp>, i: int, p: usize)
    requires
        all_permitted(ops),
        0 <= i < ops.len(),
    ensures
        destroys(replay(ops.take(i)), ops[i], p) <==> ops[i] == RegistryOp::Decr(p) && increments(
            ops.take(i + 1),
            p,
        ) == decrements(ops.take(i + 1), p),
{
    lemma_prefix_permitted(ops, i);
    lemma_count_is_balance(ops.take(i), p);
    assert(ops.take(i + 1).drop_last() =~= ops.take(i));
}

/// Once destroyed, a handle has no reference left, and the registry takes
/// no further decrement of it: nothing is destroyed twice.
pub proof fn lemma_destroyed_is_gone(references: Multiset<usize>, p: usize)
    requires
        destroys(references, RegistryOp::Decr(p), p),
    ensures
        apply(references, RegistryOp::Decr(p)).count(p) == 0,
        !permitted(apply(references, RegistryOp::Decr(p)), RegistryOp::Decr(p)),
{
    broadcast use vstd::multiset::group_multiset_axioms;

}

/// None of the first `n` steps of a run has `p` destroyed, if none of them
/// leaves `p` without a reference that it had before.
proof fn lemma_no_destruction_while_referenced(ops: Seq<RegistryOp>, n: int, p: usize)
    requires
        all_permitted(ops),
        0 <= n <= ops.len(),
        forall|i: int|
            0 < i <= n && replay(ops.take(i - 1)).count(p) > 0 ==> replay(
                #[trigger] ops.take(i),
            ).count(p) > 0,
    ensures
        destructions(ops.take(n), p) == 0,
    decreases n,
{
    broadcast use vstd::multiset::group_multiset_axioms;

    if n > 0 {
        lemma_no_destruction_while_referenced(ops, n - 1, p);
        assert(ops.take(n).drop_last() =~= ops.take(n - 1));
    }
}

/// A handle is destroyed exactly once in its life: if the handle is
/// referenced at some time, keeps a reference from then on until the last
/// step, and has none after it, then that last step, and no other, has it
/// destroyed.
pub proof fn lemma_destroyed_exactly_once(ops: Seq<RegistryOp>, p: usize)
    requires
        all_permitted(ops),
        exists|i: int| 0 <= i < ops.len() && replay(#[trigger] ops.take(i)).count(p) > 0,
        forall|i: int|
            0 < i < ops.len() && replay(ops.take(i - 1)).count(p) > 0 ==> replay(
                #[trigger] ops.take(i),
            ).count(p) > 0,
        replay(ops).count(p) == 0,
    ensures
        destructions(ops, p) == 1,
        destroys(replay(ops.drop_last()), ops.last(), p),
        destructions(ops.drop_last(), p) == 0,
{
    broadcast use vstd::multiset::group_multiset_axioms;

    let n = ops.len() - 1;
    let first = choose|i: int| 0 <= i < ops.len() && replay(#[trigger] ops.take(i)).count(p) > 0;
    lemma_stays_referenced(ops, first, n, p);
    lemma_no_destruction_while_referenced(ops, n, p);
}

/// A handle that keeps its references from step to step keeps them over
/// many steps.
proof fn lemma_stays_referenced(ops: Seq<RegistryOp>, from: int, to: int, p: usize)
    requires
        0 <= from <= to < ops.len(),
        replay(ops.take(from)).count(p) > 0,
        forall|i: int|
            0 < i < ops.len() && replay(ops.take(i - 1)).count(p) > 0 ==> replay(
                #[trigger] ops.take(i),
            ).count(p) > 0,
    ensures
        replay(ops.take(to)).count(p) > 0,
    decreases to - from,
{
    if from < to {
        lemma_stays_referenced(ops, from, to - 1, p);
    }
}

/// `references(counts)` holds `p` as often as `counts` says, and not at all
/// where `counts` has no count for it.
proof fn lemma_references_count(counts: Map<usize, usize>, p: usize)
    requires
        counts.dom().finite(),
    ensures
        references(counts).count(p) == if counts.contains_key(p) {
            counts[p] as nat
        } else {
            0
        },
{
    let m = Map::new(|p: usize| counts.contains_key(p), |p: usize| counts[p] as nat);
    assert(m.dom() =~= counts.dom());
}

/// The same of every handle at once.
proof fn lemma_references_count_all(counts: Map<usize, usize>)
    requires
        counts.dom().finite(),
    ensures
        forall|p: usize|
            #[trigger] references(counts).count(p) == if counts.contains_key(p) {
                counts[p] as nat
            } else {
                0
            },
{
    assert forall|p: usize|
        #[trigger] references(counts).count(p) == if counts.contains_key(p) {
            counts[p] as nat
        } else {
            0
        } by {
        lemma_references_count(counts, p);
    }
}

} // verus!
