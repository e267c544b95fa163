//! CRDT convergence verification.
//!
//! Tracks the operations that nodes perform during a test, stamps each with
//! the node's vector clock, detects concurrent operations, follows the state
//! hash that every node reports, and decides whether the nodes converged.

use vstd::prelude::*;
use crate::keyed::{KeyedList, unique_keys, has_key, key_pos, lookup, upsert, lemma_lookup_at, lemma_upsert};
use crate::platform::{instant_now, millis_between, new_uuid_v4, is_hyphenated_uuid, unix_time_ms, sha256, sha256_spec};
use crate::registry::{CrdtConvergenceProof, ProofType, SignedAttestation};
use crate::text::{concat3, usize_to_text, decimal, str_eq};
use std::time::Instant;

verus! {

// ---------------------------------------------------------------------------
// Vector clocks
// ---------------------------------------------------------------------------

/// A vector clock: a counter per node.
pub type VectorClock = KeyedList<u64>;

/// The counter of node `k` in clock `c` (absent counters are zero).
pub open spec fn clock_get(c: Seq<(Seq<char>, u64)>, k: Seq<char>) -> u64 {
    match lookup(c, k) {
        Some(v) => v,
        None => 0,
    }
}

/// Every counter of `a` is at most the matching counter of `b`.
pub open spec fn clock_leq(a: Seq<(Seq<char>, u64)>, b: Seq<(Seq<char>, u64)>) -> bool {
    forall|i: int| 0 <= i < a.len() ==> (#[trigger] a[i]).1 <= clock_get(b, a[i].0)
}

/// The two clocks hold the same counters under the same nodes.
pub open spec fn same_clock(a: Seq<(Seq<char>, u64)>, b: Seq<(Seq<char>, u64)>) -> bool {
    forall|k: Seq<char>| #[trigger] lookup(a, k) == lookup(b, k)
}

/// Clock `a` happened before clock `b`: `a <= b` and the two differ.
pub open spec fn happened_before(a: Seq<(Seq<char>, u64)>, b: Seq<(Seq<char>, u64)>) -> bool {
    clock_leq(a, b) && !same_clock(a, b)
}

/// Neither clock happened before the other.
pub open spec fn concurrent_clocks(a: Seq<(Seq<char>, u64)>, b: Seq<(Seq<char>, u64)>) -> bool {
    !happened_before(a, b) && !happened_before(b, a)
}

/// The counter of node `k` in clock `c`.
fn clock_counter(c: &VectorClock, k: &str) -> (v: u64)
    requires
        unique_keys(c@),
    ensures
        v == clock_get(c@, k@),
{
    match c.get(k) {
        Some(v) => *v,
        None => 0,
    }
}

/// Whether every counter of `a` is at most the matching counter of `b`.
fn clock_leq_exec(a: &VectorClock, b: &VectorClock) -> (r: bool)
    requires
        unique_keys(b@),
    ensures
        r == clock_leq(a@, b@),
{
    let mut i: usize = 0;
    while i < a.len()
        invariant
            0 <= i <= a@.len(),
            unique_keys(b@),
            forall|j: int| 0 <= j < i ==> (#[trigger] a@[j]).1 <= clock_get(b@, a@[j].0),
        decreases a@.len() - i,
    {
        let v = *a.value_at(i);
        if v > clock_counter(b, a.key_at(i).as_str()) {
            assert(!((a@[i as int]).1 <= clock_get(b@, a@[i as int].0)));
            return false;
        }
        i = i + 1;
    }
    true
}

/// Whether every entry of `a` is stored with the same counter in `b`.
fn entries_found_in(a: &VectorClock, b: &VectorClock) -> (r: bool)
    requires
        unique_keys(b@),
    ensures
        r == (forall|j: int| 0 <= j < a@.len() ==> lookup(b@, (#[trigger] a@[j]).0) == Some(a@[j].1)),
{
    let mut i: usize = 0;
    while i < a.len()
        invariant
            0 <= i <= a@.len(),
            unique_keys(b@),
            forall|j: int| 0 <= j < i ==> lookup(b@, (#[trigger] a@[j]).0) == Some(a@[j].1),
        decreases a@.len() - i,
    {
        match b.get(a.key_at(i).as_str()) {
            Some(v) => {
                if *v != *a.value_at(i) {
                    return false;
                }
            },
            None => {
                return false;
            },
        }
        i = i + 1;
    }
    true
}

/// Whether the two clocks hold the same counters under the same nodes.
fn same_clock_exec(a: &VectorClock, b: &VectorClock) -> (r: bool)
    requires
        unique_keys(a@),
        unique_keys(b@),
    ensures
        r == same_clock(a@, b@),
{
    let ab = entries_found_in(a, b);
    let ba = entries_found_in(b, a);
    proof {
        if ab && ba {
            assert forall|k: Seq<char>| #[trigger] lookup(a@, k) == lookup(b@, k) by {
                if has_key(a@, k) {
                    let i = key_pos(a@, k);
                    lemma_lookup_at(a@, i);
                    assert(lookup(b@, a@[i].0) == Some(a@[i].1));
                } else if has_key(b@, k) {
                    let j = key_pos(b@, k);
                    lemma_lookup_at(b@, j);
                    assert(lookup(a@, b@[j].0) == Some(b@[j].1));
                }
            }
        }
        if !ab {
            let j = choose|j: int| 0 <= j < a@.len() && !(lookup(b@, (#[trigger] a@[j]).0) == Some(a@[j].1));
            lemma_lookup_at(a@, j);
            assert(lookup(a@, a@[j].0) != lookup(b@, a@[j].0));
        }
        if ab && !ba {
            let j = choose|j: int| 0 <= j < b@.len() && !(lookup(a@, (#[trigger] b@[j]).0) == Some(b@[j].1));
            lemma_lookup_at(b@, j);
            assert(lookup(b@, b@[j].0) != lookup(a@, b@[j].0));
        }
    }
    ab && ba
}

// ---------------------------------------------------------------------------
// CRDT operations
// ---------------------------------------------------------------------------

/// The kinds of CRDT whose convergence is verified.
#[derive(Debug, Clone, Copy, PartialEq, Eq, Structural)]
pub enum CrdtType {
    /// Observed-remove set.
    OrSet,
    /// Grow-only counter.
    GCounter,
    /// Positive-negative counter.
    PnCounter,
    /// Last-writer-wins register.
    LwwRegister,
    /// The peer cache (an OR-set of peers).
    PeerCache,
}

/// One operation that a node performed on a CRDT.
pub struct CrdtOperation {
    /// Node that performed the operation.
    pub node_id: String,
    /// Kind of operation (`"add"`, `"remove"`, ...).
    pub operation_type: String,
    /// Vector clock of the node when the operation was recorded.
    pub vector_clock: VectorClock,
}

/// Mathematical value of a [`CrdtOperation`].
pub struct CrdtOperationView {
    pub node_id: Seq<char>,
    pub operation_type: Seq<char>,
    pub vector_clock: Seq<(Seq<char>, u64)>,
}

impl View for CrdtOperation {
    type V = CrdtOperationView;

    open spec fn view(&self) -> CrdtOperationView {
        CrdtOperationView {
            node_id: self.node_id@,
            operation_type: self.operation_type@,
            vector_clock: self.vector_clock@,
        }
    }
}

/// Views of a sequence of operations.
pub open spec fn op_views(s: Seq<CrdtOperation>) -> Seq<CrdtOperationView> {
    s.map_values(|o: CrdtOperation| o@)
}

impl CrdtOperation {
    /// A new operation of `node_id` with an empty vector clock.
    pub fn new(node_id: String, operation_type: String) -> (op: Self)
        ensures
            op@.node_id == node_id@,
            op@.operation_type == operation_type@,
            op@.vector_clock == Seq::<(Seq<char>, u64)>::empty(),
    {
        CrdtOperation { node_id, operation_type, vector_clock: KeyedList::new() }
    }

    /// An independent copy of the operation.
    pub fn duplicate(&self) -> (op: Self)
        ensures
            op@ == self@,
    {
        CrdtOperation {
            node_id: self.node_id.clone(),
            operation_type: self.operation_type.clone(),
            vector_clock: self.vector_clock.duplicate(),
        }
    }
}

// ---------------------------------------------------------------------------
// Operation tracking
// ---------------------------------------------------------------------------

/// The predicate "performed by node `k`".
pub open spec fn from_node(k: Seq<char>) -> spec_fn(CrdtOperationView) -> bool {
    |o: CrdtOperationView| o.node_id == k
}

/// The operations of node `k`, in recording order.
pub open spec fn node_ops(ops: Seq<CrdtOperationView>, k: Seq<char>) -> Seq<CrdtOperationView> {
    ops.filter(from_node(k))
}

/// Number of operations of node `k`.
pub open spec fn node_count(ops: Seq<CrdtOperationView>, k: Seq<char>) -> nat {
    node_ops(ops, k).len()
}

/// `op` stamped with the clock that gives its node the counter `count`.
pub open spec fn stamped(op: CrdtOperationView, count: nat) -> CrdtOperationView {
    CrdtOperationView {
        node_id: op.node_id,
        operation_type: op.operation_type,
        vector_clock: seq![(op.node_id, count as u64)],
    }
}

/// The clock of the `j`-th recorded operation: its node's counter equals the
/// number of that node's operations up to and including it.
pub open spec fn stamp_of(ops: Seq<CrdtOperationView>, j: int) -> Seq<(Seq<char>, u64)> {
    seq![(ops[j].node_id, node_count(ops.take(j + 1), ops[j].node_id) as u64)]
}

proof fn lemma_node_ops_push(ops: Seq<CrdtOperationView>, x: CrdtOperationView, k: Seq<char>)
    ensures
        node_ops(ops.push(x), k) == if x.node_id == k { node_ops(ops, k).push(x) } else { node_ops(ops, k) },
{
    ops.lemma_filter_push(x, from_node(k));
}

proof fn lemma_node_ops_empty(k: Seq<char>)
    ensures
        node_count(Seq::<CrdtOperationView>::empty(), k) == 0,
{
    reveal(Seq::filter);
}

/// A node has operations exactly when some recorded operation is its.
proof fn lemma_node_count_positive(ops: Seq<CrdtOperationView>, k: Seq<char>)
    ensures
        node_count(ops, k) > 0 <==> exists|j: int| 0 <= j < ops.len() && (#[trigger] ops[j]).node_id == k,
    decreases ops.len(),
{
    if ops.len() == 0 {
        lemma_node_ops_empty(k);
    } else {
        let init = ops.drop_last();
        lemma_node_count_positive(init, k);
        assert(ops == init.push(ops.last()));
        lemma_node_ops_push(init, ops.last(), k);
        if exists|j: int| 0 <= j < init.len() && (#[trigger] init[j]).node_id == k {
            let j = choose|j: int| 0 <= j < init.len() && (#[trigger] init[j]).node_id == k;
            assert(ops[j] == init[j]);
        }
        if exists|j: int| 0 <= j < ops.len() && (#[trigger] ops[j]).node_id == k {
            let j = choose|j: int| 0 <= j < ops.len() && (#[trigger] ops[j]).node_id == k;
            if j < init.len() {
                assert(init[j] == ops[j]);
            }
        }
    }
}


/// Pairs `(ops[i], ops[j'])` with `j' >= j` whose clocks are concurrent, in order of `j'`.
pub open spec fn pairs_from(ops: Seq<CrdtOperationView>, i: int, j: int) -> Seq<(CrdtOperationView, CrdtOperationView)>
    decreases ops.len() - j,
{
    if j < 0 || j >= ops.len() {
        Seq::empty()
    } else {
        let rest = pairs_from(ops, i, j + 1);
        if concurrent_clocks(ops[i].vector_clock, ops[j].vector_clock) {
            seq![(ops[i], ops[j])] + rest
        } else {
            rest
        }
    }
}

/// Concurrent pairs `(ops[i'], ops[j'])` with `i <= i' < j'`, row by row.
pub open spec fn pairs_after(ops: Seq<CrdtOperationView>, i: int) -> Seq<(CrdtOperationView, CrdtOperationView)>
    decreases ops.len() - i,
{
    if i < 0 || i >= ops.len() {
        Seq::empty()
    } else {
        pairs_from(ops, i, i + 1) + pairs_after(ops, i + 1)
    }
}

/// All pairs of concurrent operations `(ops[i], ops[j])` with `i < j`, in
/// lexicographic order of `(i, j)`.
pub open spec fn concurrent_pairs(ops: Seq<CrdtOperationView>) -> Seq<(CrdtOperationView, CrdtOperationView)> {
    pairs_after(ops, 0)
}

/// Lookup in a clock with a single counter.
proof fn lemma_lookup_single(k: Seq<char>, v: u64, k2: Seq<char>)
    ensures
        unique_keys(seq![(k, v)]),
        lookup(seq![(k, v)], k2) == if k2 == k { Some(v) } else { None::<u64> },
{
    let s = seq![(k, v)];
    if k2 == k {
        lemma_lookup_at(s, 0);
    } else {
        if has_key(s, k2) {
            let p = key_pos(s, k2);
            assert(s[p].0 == k);
        }
    }
}

/// The number of a node's operations never shrinks as the prefix grows, and
/// grows by one at each of its operations.
proof fn lemma_prefix_count(ops: Seq<CrdtOperationView>, i: int, j: int, k: Seq<char>)
    requires
        0 <= i <= j <= ops.len(),
    ensures
        node_count(ops.take(i), k) <= node_count(ops.take(j), k),
        i < j && ops[i].node_id == k ==> node_count(ops.take(i), k) + 1 <= node_count(ops.take(j), k),
    decreases j - i,
{
    if i < j {
        lemma_prefix_count(ops, i + 1, j, k);
        assert(ops.take(i + 1) =~= ops.take(i).push(ops[i]));
        lemma_node_ops_push(ops.take(i), ops[i], k);
    }
}

/// Records the operations of a test and stamps each with its node's vector clock.
pub struct OperationTracker {
    operations: Vec<CrdtOperation>,
    by_node: KeyedList<Vec<CrdtOperation>>,
    vector_clocks: KeyedList<VectorClock>,
}

impl View for OperationTracker {
    type V = Seq<CrdtOperationView>;

    /// The recorded operations, in recording order.
    closed spec fn view(&self) -> Seq<CrdtOperationView> {
        op_views(self.operations@)
    }
}

/// Copies of a list of operations.
fn duplicate_ops(v: &Vec<CrdtOperation>) -> (r: Vec<CrdtOperation>)
    ensures
        op_views(r@) == op_views(v@),
{
    let mut r: Vec<CrdtOperation> = Vec::new();
    let mut i: usize = 0;
    while i < v.len()
        invariant
            0 <= i <= v@.len(),
            op_views(r@) == op_views(v@.take(i as int)),
        decreases v@.len() - i,
    {
        let ghost before = r@;
        let d = v[i].duplicate();
        r.push(d);
        assert(v@.take(i + 1) =~= v@.take(i as int).push(v@[i as int]));
        assert(r@ == before.push(d));
        assert(op_views(r@) =~= op_views(before).push(d@));
        assert(op_views(v@.take(i + 1)) =~= op_views(v@.take(i as int)).push(v@[i as int]@));
        assert(op_views(r@) =~= op_views(v@.take(i + 1)));
        i = i + 1;
    }
    assert(v@.take(v@.len() as int) =~= v@);
    r
}

impl OperationTracker {
    /// The tracker's internal tables agree with the recorded operations.
    pub closed spec fn wf(&self) -> bool {
        let ops = self@;
        &&& unique_keys(self.by_node@)
        &&& unique_keys(self.vector_clocks@)
        &&& forall|k: Seq<char>| #![trigger has_key(self.by_node@, k)] #![trigger node_count(ops, k)]
            has_key(self.by_node@, k) <==> node_count(ops, k) > 0
        &&& forall|k: Seq<char>| #![trigger has_key(self.vector_clocks@, k)]
            has_key(self.vector_clocks@, k) <==> node_count(ops, k) > 0
        &&& forall|i: int| 0 <= i < self.by_node@.len() ==>
            op_views((#[trigger] self.by_node@[i]).1@) == node_ops(ops, self.by_node@[i].0)
        &&& forall|i: int| 0 <= i < self.vector_clocks@.len() ==>
            (#[trigger] self.vector_clocks@[i]).1@ == seq![(self.vector_clocks@[i].0, node_count(ops, self.vector_clocks@[i].0) as u64)]
        &&& forall|j: int| 0 <= j < ops.len() ==> (#[trigger] ops[j]).vector_clock == stamp_of(ops, j)
        &&& forall|k: Seq<char>| #[trigger] node_count(ops, k) <= u64::MAX
    }

    /// The clock of every recorded operation holds just its node's counter.
    pub proof fn lemma_stamps(&self, j: int)
        requires
            self.wf(),
            0 <= j < self@.len(),
        ensures
            self@[j].vector_clock == stamp_of(self@, j),
            node_count(self@.take(j + 1), self@[j].node_id) <= u64::MAX,
    {
        lemma_prefix_count(self@, j + 1, self@.len() as int, self@[j].node_id);
        assert(self@.take(self@.len() as int) =~= self@);
    }

    /// An empty tracker.
    pub fn new() -> (t: Self)
        ensures
            t.wf(),
            t@ == Seq::<CrdtOperationView>::empty(),
    {
        let t = OperationTracker {
            operations: Vec::new(),
            by_node: KeyedList::new(),
            vector_clocks: KeyedList::new(),
        };
        assert(t@ =~= Seq::<CrdtOperationView>::empty());
        proof {
            assert forall|k: Seq<char>| node_count(t@, k) == 0 by {
                lemma_node_ops_empty(k);
            }
        }
        t
    }

    /// Records `operation`: its vector clock becomes that of its node after
    /// the node's own counter is advanced by one.
    pub fn record(&mut self, operation: CrdtOperation)
        requires
            old(self).wf(),
            node_count(old(self)@, operation.node_id@) < u64::MAX,
        ensures
            final(self).wf(),
            final(self)@ == old(self)@.push(stamped(operation@, node_count(old(self)@, operation.node_id@) + 1)),
    {
        let ghost old_ops = self@;
        let ghost n = operation.node_id@;
        let ghost c = node_count(old_ops, n);
        let ghost s = stamped(operation@, c + 1);
        proof {
            lemma_node_ops_push(old_ops, s, n);
        }
        // The node's clock after its own counter advances.
        let current = match self.vector_clocks.get(operation.node_id.as_str()) {
            Some(clock) => {
                proof {
                    let p = key_pos(self.vector_clocks@, n);
                    lemma_lookup_at(self.vector_clocks@, p);
                    assert(clock@ == seq![(n, c as u64)]);
                    lemma_lookup_at(clock@, 0);
                }
                clock_counter(clock, operation.node_id.as_str())
            },
            None => {
                proof {
                    if c > 0 {
                        assert(has_key(self.vector_clocks@, n));
                        let p = key_pos(self.vector_clocks@, n);
                        lemma_lookup_at(self.vector_clocks@, p);
                    }
                }
                0
            },
        };
        assert(current == c);
        let mut clock: VectorClock = KeyedList::new();
        clock.insert(operation.node_id.clone(), current + 1);
        assert(clock@ =~= seq![(n, (c + 1) as u64)]);
        let stamp = CrdtOperation {
            node_id: operation.node_id,
            operation_type: operation.operation_type,
            vector_clock: clock.duplicate(),
        };
        assert(stamp@ == s);
        let ghost new_ops = old_ops.push(s);
        proof {
            assert forall|k: Seq<char>| k != n implies node_ops(new_ops, k) == node_ops(old_ops, k) by {
                lemma_node_ops_push(old_ops, s, k);
            }
        }
        // Store the node's clock.
        let ghost old_clocks = self.vector_clocks@;
        proof { lemma_upsert(old_clocks, n, clock); }
        self.vector_clocks.insert(stamp.node_id.clone(), clock);
        // Store the operation under its node.
        let ghost old_by_node = self.by_node@;
        match self.by_node.position(stamp.node_id.as_str()) {
            Some(p) => {
                let copy = stamp.duplicate();
                self.by_node.push_value_at(p, copy);
                proof {
                    assert(op_views(self.by_node@[p as int].1@) =~= op_views(old_by_node[p as int].1@).push(s));
                    assert(unique_keys(self.by_node@)) by {
                        assert forall|i: int, j: int| 0 <= i < self.by_node@.len() && 0 <= j < self.by_node@.len() && i != j
                            implies #[trigger] self.by_node@[i].0 != #[trigger] self.by_node@[j].0 by {
                            assert(old_by_node[i].0 != old_by_node[j].0);
                        }
                    }
                    assert forall|k: Seq<char>| has_key(self.by_node@, k) <==> has_key(old_by_node, k) by {
                        if has_key(self.by_node@, k) {
                            let q = key_pos(self.by_node@, k);
                            assert(old_by_node[q].0 == k);
                        }
                        if has_key(old_by_node, k) {
                            let q = key_pos(old_by_node, k);
                            assert(self.by_node@[q].0 == k);
                        }
                    }
                }
            },
            None => {
                let mut list: Vec<CrdtOperation> = Vec::new();
                list.push(stamp.duplicate());
                proof {
                    lemma_upsert(old_by_node, n, list);
                    assert(c == 0);
                    assert(op_views(list@) =~= node_ops(old_ops, n).push(s));
                }
                self.by_node.insert(stamp.node_id.clone(), list);
            },
        }
        self.operations.push(stamp);
        proof {
            let ops = self@;
            assert(ops =~= new_ops);
            // Node counts after the push.
            assert(node_count(new_ops, n) == c + 1);
            assert forall|k: Seq<char>| has_key(self.by_node@, k) <==> node_count(ops, k) > 0 by {
                if k != n {
                    if has_key(self.by_node@, k) {
                        let q = key_pos(self.by_node@, k);
                        if q < old_by_node.len() {
                            assert(old_by_node[q].0 == k);
                        }
                    }
                    if has_key(old_by_node, k) {
                        let q = key_pos(old_by_node, k);
                        if has_key(old_by_node, n) {
                            assert(self.by_node@[q] == old_by_node[q]);
                        } else {
                            assert(self.by_node@[q] == old_by_node[q]);
                        }
                    }
                } else {
                    assert(lookup(self.by_node@, n) is Some);
                }
            }
            assert forall|k: Seq<char>| has_key(self.vector_clocks@, k) <==> node_count(ops, k) > 0 by {
                if k != n {
                    assert(lookup(self.vector_clocks@, k) == lookup(old_clocks, k));
                } else {
                    assert(lookup(self.vector_clocks@, n) is Some);
                }
            }
            assert forall|i: int| 0 <= i < self.by_node@.len() implies
                op_views((#[trigger] self.by_node@[i]).1@) == node_ops(ops, self.by_node@[i].0) by {
                let k = self.by_node@[i].0;
                if k != n {
                    if i < old_by_node.len() {
                        assert(self.by_node@[i] == old_by_node[i]);
                    }
                } else {
                    lemma_lookup_at(self.by_node@, i);
                }
            }
            assert forall|i: int| 0 <= i < self.vector_clocks@.len() implies
                (#[trigger] self.vector_clocks@[i]).1@ == seq![(self.vector_clocks@[i].0, node_count(ops, self.vector_clocks@[i].0) as u64)] by {
                let k = self.vector_clocks@[i].0;
                lemma_lookup_at(self.vector_clocks@, i);
                if k != n {
                    assert(lookup(old_clocks, k) == lookup(self.vector_clocks@, k));
                    let q = key_pos(old_clocks, k);
                    lemma_lookup_at(old_clocks, q);
                }
            }
            assert forall|k: Seq<char>| #[trigger] node_count(ops, k) <= u64::MAX by {
                if k != n {
                    assert(node_count(old_ops, k) <= u64::MAX);
                }
            }
            assert forall|j: int| 0 <= j < ops.len() implies (#[trigger] ops[j]).vector_clock == stamp_of(ops, j) by {
                if j < old_ops.len() {
                    assert(ops.take(j + 1) =~= old_ops.take(j + 1));
                    assert(ops[j] == old_ops[j]);
                } else {
                    assert(ops.take(j + 1) =~= new_ops);
                }
            }
        }
    }

    /// All recorded operations, in recording order.
    pub fn all(&self) -> (ops: &[CrdtOperation])
        ensures
            op_views(ops@) == self@,
    {
        self.operations.as_slice()
    }

    /// The operations of node `node_id`, if it recorded any.
    pub fn for_node(&self, node_id: &str) -> (r: Option<&Vec<CrdtOperation>>)
        requires
            self.wf(),
        ensures
            match r {
                Some(v) => op_views(v@) == node_ops(self@, node_id@) && node_count(self@, node_id@) > 0,
                None => node_count(self@, node_id@) == 0,
            },
    {
        match self.by_node.position(node_id) {
            Some(p) => {
                proof { assert(has_key(self.by_node@, node_id@)); }
                Some(self.by_node.value_at(p))
            },
            None => None,
        }
    }

    /// The current vector clock of node `node_id`, if it recorded any
    /// operation: the node's own counter, equal to its number of operations.
    pub fn clock_for(&self, node_id: &str) -> (r: Option<&VectorClock>)
        requires
            self.wf(),
        ensures
            match r {
                Some(c) => c@ == seq![(node_id@, node_count(self@, node_id@) as u64)] && node_count(self@, node_id@) > 0,
                None => node_count(self@, node_id@) == 0,
            },
    {
        match self.vector_clocks.position(node_id) {
            Some(p) => {
                proof { assert(has_key(self.vector_clocks@, node_id@)); }
                Some(self.vector_clocks.value_at(p))
            },
            None => None,
        }
    }

    /// Clock `a` happened before clock `b`.
    fn happens_before(&self, a: &VectorClock, b: &VectorClock) -> (r: bool)
        requires
            unique_keys(a@),
            unique_keys(b@),
        ensures
            r == happened_before(a@, b@),
    {
        let a_leq_b = clock_leq_exec(a, b);
        let not_equal = !same_clock_exec(a, b);
        a_leq_b && not_equal
    }

    /// Whether neither operation happened before the other.
    pub fn are_concurrent(&self, op1: &CrdtOperation, op2: &CrdtOperation) -> (r: bool)
        requires
            unique_keys(op1.vector_clock@),
            unique_keys(op2.vector_clock@),
        ensures
            r == concurrent_clocks(op1.vector_clock@, op2.vector_clock@),
    {
        let a_before_b = self.happens_before(&op1.vector_clock, &op2.vector_clock);
        let b_before_a = self.happens_before(&op2.vector_clock, &op1.vector_clock);
        !a_before_b && !b_before_a
    }

    /// Every pair of recorded operations whose clocks are concurrent, each
    /// pair in recording order and the pairs in lexicographic order of their
    /// positions.
    pub fn find_concurrent_pairs(&self) -> (pairs: Vec<(&CrdtOperation, &CrdtOperation)>)
        requires
            self.wf(),
        ensures
            pairs@.map_values(|p: (&CrdtOperation, &CrdtOperation)| (p.0@, p.1@)) == concurrent_pairs(self@),
    {
        let ghost ops = self@;
        let ghost total = concurrent_pairs(ops);
        let mut pairs: Vec<(&CrdtOperation, &CrdtOperation)> = Vec::new();
        let n = self.operations.len();
        let mut i: usize = 0;
        while i < n
            invariant
                n == self.operations@.len(),
                ops == self@,
                self.wf(),
                0 <= i <= n,
                total == concurrent_pairs(ops),
                pairs@.map_values(|p: (&CrdtOperation, &CrdtOperation)| (p.0@, p.1@)) + pairs_after(ops, i as int) == total,
            decreases n - i,
        {
            let mut j: usize = i + 1;
            proof {
                assert(pairs_after(ops, i as int) == pairs_from(ops, i as int, j as int) + pairs_after(ops, j as int));
                assert(pairs@.map_values(|p: (&CrdtOperation, &CrdtOperation)| (p.0@, p.1@)) + pairs_from(ops, i as int, j as int) + pairs_after(ops, j as int) =~= total);
            }
            while j < n
                invariant
                    n == self.operations@.len(),
                    ops == self@,
                    self.wf(),
                    0 <= i < j <= n,
                    total == concurrent_pairs(ops),
                    pairs@.map_values(|p: (&CrdtOperation, &CrdtOperation)| (p.0@, p.1@)) + pairs_from(ops, i as int, j as int) + pairs_after(ops, i + 1) == total,
                decreases n - j,
            {
                let op1 = &self.operations[i];
                let op2 = &self.operations[j];
                proof {
                    assert(ops[i as int] == op1@);
                    assert(ops[j as int] == op2@);
                    lemma_lookup_single(ops[i as int].node_id, node_count(ops.take(i + 1), ops[i as int].node_id) as u64, ops[i as int].node_id);
                    lemma_lookup_single(ops[j as int].node_id, node_count(ops.take(j + 1), ops[j as int].node_id) as u64, ops[j as int].node_id);
                }
                let ghost before = pairs@.map_values(|p: (&CrdtOperation, &CrdtOperation)| (p.0@, p.1@));
                if self.are_concurrent(op1, op2) {
                    pairs.push((op1, op2));
                    proof {
                        assert(pairs@.map_values(|p: (&CrdtOperation, &CrdtOperation)| (p.0@, p.1@)) =~= before.push((op1@, op2@)));
                        assert(pairs_from(ops, i as int, j as int) == seq![(ops[i as int], ops[j as int])] + pairs_from(ops, i as int, j + 1));
                        assert(before.push((op1@, op2@)) + pairs_from(ops, i as int, j + 1) =~= before + pairs_from(ops, i as int, j as int));
                    }
                } else {
                    proof {
                        assert(pairs_from(ops, i as int, j as int) == pairs_from(ops, i as int, j + 1));
                    }
                }
                j = j + 1;
            }
            proof {
                assert(pairs_from(ops, i as int, n as int) == Seq::<(CrdtOperationView, CrdtOperationView)>::empty());
                assert(pairs@.map_values(|p: (&CrdtOperation, &CrdtOperation)| (p.0@, p.1@)) + pairs_after(ops, i + 1) =~= total);
            }
            i = i + 1;
        }
        proof {
            assert(pairs_after(ops, n as int) == Seq::<(CrdtOperationView, CrdtOperationView)>::empty());
            assert(pairs@.map_values(|p: (&CrdtOperation, &CrdtOperation)| (p.0@, p.1@)) =~= total);
        }
        pairs
    }

    /// Forgets every recorded operation.
    pub fn clear(&mut self)
        ensures
            final(self).wf(),
            final(self)@ == Seq::<CrdtOperationView>::empty(),
    {
        self.operations.clear();
        self.by_node.clear();
        self.vector_clocks.clear();
        assert(self@ =~= Seq::<CrdtOperationView>::empty());
        proof {
            assert forall|k: Seq<char>| node_count(self@, k) == 0 by {
                lemma_node_ops_empty(k);
            }
        }
    }
}

/// Law of the tracker: two recorded operations are concurrent exactly when
/// different nodes performed them, since each node's own counter orders its
/// operations and no clock carries another node's counter.
pub proof fn lemma_concurrent_iff_different_nodes(t: &OperationTracker, i: int, j: int)
    requires
        t.wf(),
        0 <= i < j < t@.len(),
    ensures
        concurrent_clocks(t@[i].vector_clock, t@[j].vector_clock) <==> t@[i].node_id != t@[j].node_id,
{
    let ops = t@;
    t.lemma_stamps(i);
    t.lemma_stamps(j);
    let ni = ops[i].node_id;
    let nj = ops[j].node_id;
    let ci = node_count(ops.take(i + 1), ni);
    let cj = node_count(ops.take(j + 1), nj);
    let a = ops[i].vector_clock;
    let b = ops[j].vector_clock;
    lemma_prefix_count(ops, i, i + 1, ni);
    lemma_prefix_count(ops, j, j + 1, nj);
    lemma_lookup_single(ni, ci as u64, ni);
    lemma_lookup_single(nj, cj as u64, nj);
    lemma_lookup_single(ni, ci as u64, nj);
    lemma_lookup_single(nj, cj as u64, ni);
    if ni == nj {
        lemma_prefix_count(ops, i + 1, j, ni);
        assert(ci < cj);
        assert(clock_leq(a, b));
        assert(lookup(a, ni) != lookup(b, ni));
        assert(happened_before(a, b));
    } else {
        assert(clock_get(b, ni) == 0);
        assert(!clock_leq(a, b)) by {
            assert(a[0].1 > clock_get(b, a[0].0));
        }
        assert(clock_get(a, nj) == 0);
        assert(!clock_leq(b, a)) by {
            assert(b[0].1 > clock_get(a, b[0].0));
        }
    }
}

/// Pairs `(ops[i], ops[j'])` with `j' >= j` performed by different nodes,
/// in order of `j'`.
pub open spec fn cross_pairs_from(ops: Seq<CrdtOperationView>, i: int, j: int) -> Seq<(CrdtOperationView, CrdtOperationView)>
    decreases ops.len() - j,
{
    if j < 0 || j >= ops.len() {
        Seq::empty()
    } else {
        let rest = cross_pairs_from(ops, i, j + 1);
        if ops[i].node_id != ops[j].node_id { seq![(ops[i], ops[j])] + rest } else { rest }
    }
}

/// Pairs `(ops[i'], ops[j'])` with `i <= i' < j'` performed by different
/// nodes, row by row.
pub open spec fn cross_pairs_after(ops: Seq<CrdtOperationView>, i: int) -> Seq<(CrdtOperationView, CrdtOperationView)>
    decreases ops.len() - i,
{
    if i < 0 || i >= ops.len() {
        Seq::empty()
    } else {
        cross_pairs_from(ops, i, i + 1) + cross_pairs_after(ops, i + 1)
    }
}

/// All pairs `(ops[i], ops[j])` with `i < j` performed by different nodes,
/// in lexicographic order of `(i, j)`.
pub open spec fn cross_node_pairs(ops: Seq<CrdtOperationView>) -> Seq<(CrdtOperationView, CrdtOperationView)> {
    cross_pairs_after(ops, 0)
}

proof fn lemma_pairs_from_cross(t: &OperationTracker, i: int, j: int)
    requires
        t.wf(),
        0 <= i < j,
        i < t@.len(),
    ensures
        pairs_from(t@, i, j) == cross_pairs_from(t@, i, j),
    decreases t@.len() - j,
{
    if j < t@.len() {
        lemma_pairs_from_cross(t, i, j + 1);
        lemma_concurrent_iff_different_nodes(t, i, j);
    }
}

proof fn lemma_pairs_after_cross(t: &OperationTracker, i: int)
    requires
        t.wf(),
        0 <= i,
    ensures
        pairs_after(t@, i) == cross_pairs_after(t@, i),
    decreases t@.len() - i,
{
    if i < t@.len() {
        lemma_pairs_from_cross(t, i, i + 1);
        lemma_pairs_after_cross(t, i + 1);
    }
}

/// Law of the tracker: the concurrent pairs it finds (see
/// [`OperationTracker::find_concurrent_pairs`]) are exactly the pairs of
/// recorded operations that different nodes performed, in order.
pub proof fn lemma_concurrent_pairs_are_cross_node(t: &OperationTracker)
    requires
        t.wf(),
    ensures
        concurrent_pairs(t@) == cross_node_pairs(t@),
{
    lemma_pairs_after_cross(t, 0);
}

// ---------------------------------------------------------------------------
// Convergence
// ---------------------------------------------------------------------------

/// Every node reports the same state hash.
pub open spec fn all_same_hash(s: Seq<(Seq<char>, [u8; 32])>) -> bool {
    forall|i: int, j: int| 0 <= i < s.len() && 0 <= j < s.len() ==> #[trigger] s[i].1 == #[trigger] s[j].1
}

/// The predicate "reports hash `h`".
pub open spec fn holds_hash(h: [u8; 32]) -> spec_fn((Seq<char>, [u8; 32])) -> bool {
    |e: (Seq<char>, [u8; 32])| e.1 == h
}

/// The predicate "does not report hash `h`".
pub open spec fn lacks_hash(h: [u8; 32]) -> spec_fn((Seq<char>, [u8; 32])) -> bool {
    |e: (Seq<char>, [u8; 32])| e.1 != h
}

/// Number of nodes that report hash `h`.
pub open spec fn hash_count(s: Seq<(Seq<char>, [u8; 32])>, h: [u8; 32]) -> nat {
    s.filter(holds_hash(h)).len()
}

/// `h` is reported by some node and by at least as many nodes as any other hash.
pub open spec fn is_majority_hash(s: Seq<(Seq<char>, [u8; 32])>, h: [u8; 32]) -> bool {
    &&& exists|i: int| 0 <= i < s.len() && #[trigger] s[i].1 == h
    &&& forall|j: int| 0 <= j < s.len() ==> hash_count(s, #[trigger] s[j].1) <= hash_count(s, h)
}

/// The nodes that do not report hash `h`, in order.
pub open spec fn nodes_lacking(s: Seq<(Seq<char>, [u8; 32])>, h: [u8; 32]) -> Seq<Seq<char>> {
    s.filter(lacks_hash(h)).map_values(|e: (Seq<char>, [u8; 32])| e.0)
}

/// Whether two state hashes are equal.
pub fn hash_eq(a: &[u8; 32], b: &[u8; 32]) -> (r: bool)
    ensures
        r == (*a == *b),
{
    let mut i: usize = 0;
    while i < 32
        invariant
            0 <= i <= 32,
            forall|k: int| 0 <= k < i ==> a[k] == b[k],
        decreases 32 - i,
    {
        if a[i] != b[i] {
            return false;
        }
        i = i + 1;
    }
    assert(*a =~= *b);
    true
}

/// Number of entries of `t` that report hash `h`.
fn count_hash(t: &KeyedList<[u8; 32]>, h: &[u8; 32]) -> (n: usize)
    ensures
        n == hash_count(t@, *h),
{
    let mut n: usize = 0;
    let mut i: usize = 0;
    while i < t.len()
        invariant
            0 <= i <= t@.len(),
            n == t@.take(i as int).filter(holds_hash(*h)).len(),
            n <= i,
        decreases t@.len() - i,
    {
        proof {
            assert(t@.take(i + 1) =~= t@.take(i as int).push(t@[i as int]));
            t@.take(i as int).lemma_filter_push(t@[i as int], holds_hash(*h));
        }
        if hash_eq(t.value_at(i), h) {
            n = n + 1;
        }
        i = i + 1;
    }
    assert(t@.take(t@.len() as int) =~= t@);
    n
}

/// Initial and current state hashes of the nodes of a test.
pub struct ConvergenceState {
    /// Initial state hash of each node.
    pub initial: KeyedList<[u8; 32]>,
    /// Current state hash of each node.
    pub current: KeyedList<[u8; 32]>,
    /// Milliseconds from the start to when convergence was first observed,
    /// if it was.
    pub converged_after_ms: Option<u64>,
    /// When the test started.
    pub started_at: Instant,
}

impl ConvergenceState {
    /// Both tables have unique node keys.
    pub open spec fn wf(&self) -> bool {
        unique_keys(self.initial@) && unique_keys(self.current@)
    }

    /// A state with no nodes, started now.
    pub fn new() -> (c: Self)
        ensures
            c.wf(),
            c.initial@.len() == 0,
            c.current@.len() == 0,
            c.converged_after_ms is None,
    {
        ConvergenceState {
            initial: KeyedList::new(),
            current: KeyedList::new(),
            converged_after_ms: None,
            started_at: instant_now(),
        }
    }

    /// Records the initial state hash of `node_id`.
    pub fn set_initial(&mut self, node_id: String, hash: [u8; 32])
        requires
            old(self).wf(),
        ensures
            final(self).wf(),
            final(self).initial@ == upsert(old(self).initial@, node_id@, hash),
            final(self).current@ == old(self).current@,
            final(self).converged_after_ms == old(self).converged_after_ms,
            final(self).started_at == old(self).started_at,
    {
        self.initial.insert(node_id, hash);
    }

    /// Records the current state hash of `node_id`.
    pub fn update_current(&mut self, node_id: String, hash: [u8; 32])
        requires
            old(self).wf(),
        ensures
            final(self).wf(),
            final(self).current@ == upsert(old(self).current@, node_id@, hash),
            final(self).initial@ == old(self).initial@,
            final(self).converged_after_ms == old(self).converged_after_ms,
            final(self).started_at == old(self).started_at,
    {
        self.current.insert(node_id, hash);
    }

    /// Whether every node reports the same current hash (vacuously so with
    /// fewer than two nodes).
    pub fn is_converged(&self) -> (r: bool)
        ensures
            r == all_same_hash(self.current@),
    {
        let n = self.current.len();
        if n < 2 {
            return true;
        }
        let first = self.current.value_at(0);
        let mut i: usize = 1;
        while i < n
            invariant
                n == self.current@.len(),
                1 <= i <= n,
                *first == self.current@[0].1,
                forall|k: int| 0 <= k < i ==> (#[trigger] self.current@[k]).1 == self.current@[0].1,
            decreases n - i,
        {
            if !hash_eq(self.current.value_at(i), first) {
                return false;
            }
            i = i + 1;
        }
        true
    }

    /// Notes that convergence was reached, with the time since the start,
    /// the first time only.
    pub fn mark_converged(&mut self)
        ensures
            final(self).converged_after_ms is Some,
            old(self).converged_after_ms is Some ==> final(self).converged_after_ms == old(self).converged_after_ms,
            final(self).initial@ == old(self).initial@,
            final(self).current@ == old(self).current@,
            final(self).started_at == old(self).started_at,
    {
        if self.converged_after_ms.is_none() {
            let now = instant_now();
            self.converged_after_ms = Some(millis_between(&now, &self.started_at));
        }
    }

    /// Milliseconds from the start to convergence, if convergence was reached.
    pub fn convergence_time_ms(&self) -> (r: Option<u64>)
        ensures
            r == self.converged_after_ms,
    {
        self.converged_after_ms
    }

    /// The nodes whose current hash differs from the most common one. With
    /// several equally common hashes any of them may serve as the reference.
    pub fn divergent_nodes(&self) -> (r: Vec<&String>)
        requires
            self.wf(),
        ensures
            self.current@.len() <= 1 ==> r@.len() == 0,
            self.current@.len() > 1 ==> exists|m: [u8; 32]| #[trigger] is_majority_hash(self.current@, m)
                && r@.map_values(|x: &String| x@) == nodes_lacking(self.current@, m)
                && r@.len() == self.current@.len() - hash_count(self.current@, m),
            all_same_hash(self.current@) ==> r@.len() == 0,
    {
        let n = self.current.len();
        if n <= 1 {
            return Vec::new();
        }
        let ghost s = self.current@;
        let mut best: usize = 0;
        let mut best_count = count_hash(&self.current, self.current.value_at(0));
        let mut p: usize = 1;
        while p < n
            invariant
                n == s.len(),
                s == self.current@,
                1 <= p <= n,
                best < n,
                best_count == hash_count(s, s[best as int].1),
                forall|j: int| 0 <= j < p ==> hash_count(s, #[trigger] s[j].1) <= best_count,
            decreases n - p,
        {
            let c = count_hash(&self.current, self.current.value_at(p));
            if c > best_count {
                best = p;
                best_count = c;
            }
            p = p + 1;
        }
        let m = self.current.value_at(best);
        assert(is_majority_hash(s, *m));
        let mut r: Vec<&String> = Vec::new();
        let mut i: usize = 0;
        while i < n
            invariant
                n == s.len(),
                s == self.current@,
                *m == s[best as int].1,
                0 <= i <= n,
                r@.map_values(|x: &String| x@) == s.take(i as int).filter(lacks_hash(*m)).map_values(|e: (Seq<char>, [u8; 32])| e.0),
            decreases n - i,
        {
            let ghost before = r@;
            proof {
                assert(s.take(i + 1) =~= s.take(i as int).push(s[i as int]));
                s.take(i as int).lemma_filter_push(s[i as int], lacks_hash(*m));
            }
            if !hash_eq(self.current.value_at(i), m) {
                r.push(self.current.key_at(i));
                assert(r@.map_values(|x: &String| x@) =~= before.map_values(|x: &String| x@).push(s[i as int].0));
                assert(s.take(i + 1).filter(lacks_hash(*m)).map_values(|e: (Seq<char>, [u8; 32])| e.0)
                    =~= s.take(i as int).filter(lacks_hash(*m)).map_values(|e: (Seq<char>, [u8; 32])| e.0).push(s[i as int].0));
            }
            i = i + 1;
        }
        assert(s.take(n as int) =~= s);
        proof {
            lemma_divergent_count(s, *m);
            assert(r@.len() == r@.map_values(|x: &String| x@).len());
        }
        r
    }
}

/// Every node either reports hash `h` or does not.
proof fn lemma_hash_split(s: Seq<(Seq<char>, [u8; 32])>, h: [u8; 32])
    ensures
        s.filter(holds_hash(h)).len() + s.filter(lacks_hash(h)).len() == s.len(),
    decreases s.len(),
{
    if s.len() == 0 {
        reveal_with_fuel(Seq::filter, 1);
    } else {
        let init = s.drop_last();
        lemma_hash_split(init, h);
        assert(s =~= init.push(s.last()));
        init.lemma_filter_push(s.last(), holds_hash(h));
        init.lemma_filter_push(s.last(), lacks_hash(h));
    }
}

/// Law of divergence: the nodes off a most common hash are all nodes but
/// those reporting it, and there are none once the nodes have converged.
pub proof fn lemma_divergent_count(s: Seq<(Seq<char>, [u8; 32])>, m: [u8; 32])
    requires
        is_majority_hash(s, m),
    ensures
        nodes_lacking(s, m).len() == s.len() - hash_count(s, m),
        all_same_hash(s) ==> nodes_lacking(s, m).len() == 0,
{
    lemma_hash_split(s, m);
    lemma_converged_iff_none_divergent(s, m);
}

/// Law of convergence: with two or more nodes, the nodes have converged
/// exactly when no node disagrees with a most common hash.
pub proof fn lemma_converged_iff_none_divergent(s: Seq<(Seq<char>, [u8; 32])>, m: [u8; 32])
    requires
        is_majority_hash(s, m),
    ensures
        all_same_hash(s) <==> nodes_lacking(s, m).len() == 0,
{
    let i = choose|i: int| 0 <= i < s.len() && #[trigger] s[i].1 == m;
    if all_same_hash(s) {
        assert forall|k: int| 0 <= k < s.len() implies !lacks_hash(m)(#[trigger] s[k]) by {
            assert(s[k].1 == s[i].1);
        }
        s.lemma_all_neg_filter_empty(lacks_hash(m));
    } else {
        let (a, b) = choose|a: int, b: int| 0 <= a < s.len() && 0 <= b < s.len() && !(s[a].1 == s[b].1);
        let k = if s[a].1 != m { a } else { b };
        assert(lacks_hash(m)(s[k]));
        s.lemma_filter_contains(lacks_hash(m), k);
    }
}

// ---------------------------------------------------------------------------
// The verifier
// ---------------------------------------------------------------------------

/// Configuration of a CRDT verification.
#[derive(Debug, Clone, Copy)]
pub struct CrdtVerifierConfig {
    /// Maximum time to wait for convergence (ms).
    pub convergence_timeout_ms: u64,
    /// How often to check for convergence (ms).
    pub poll_interval_ms: u64,
    /// Minimum number of nodes for a valid test.
    pub min_nodes: usize,
    /// Whether to verify conflict-resolution semantics.
    pub verify_conflict_resolution: bool,
}

impl Default for CrdtVerifierConfig {
    /// 30 s timeout, 100 ms polling, at least two nodes, semantics checked.
    fn default() -> (c: Self)
        ensures
            c.convergence_timeout_ms == 30_000,
            c.poll_interval_ms == 100,
            c.min_nodes == 2,
            c.verify_conflict_resolution,
    {
        CrdtVerifierConfig {
            convergence_timeout_ms: 30_000,
            poll_interval_ms: 100,
            min_nodes: 2,
            verify_conflict_resolution: true,
        }
    }
}

/// State snapshot from a single node.
pub struct NodeStateSnapshot {
    /// Node identifier.
    pub node_id: String,
    /// Hash of the node's state.
    pub state_hash: [u8; 32],
    /// When the snapshot was taken.
    pub timestamp: Instant,
    /// Raw state data, when available.
    pub raw_state: Option<Vec<u8>>,
}

/// Result of checking conflict resolution.
pub struct ConflictResolutionResult {
    /// Whether any concurrent operations were detected.
    pub had_conflicts: bool,
    /// Whether the conflicts were resolved correctly.
    pub correctly_resolved: bool,
    /// What was found, for people.
    pub details: String,
}

/// The pair is an `add` concurrent with a `remove`, in either order.
pub open spec fn is_add_remove(p: (CrdtOperationView, CrdtOperationView)) -> bool {
    ||| (p.0.operation_type == "add"@ && p.1.operation_type == "remove"@)
    ||| (p.0.operation_type == "remove"@ && p.1.operation_type == "add"@)
}

/// The predicate `is_add_remove`.
pub open spec fn add_remove_pred() -> spec_fn((CrdtOperationView, CrdtOperationView)) -> bool {
    |p: (CrdtOperationView, CrdtOperationView)| is_add_remove(p)
}

/// The details reported for the concurrent pairs `pairs` of a CRDT of kind `t`.
pub open spec fn conflict_details(t: CrdtType, pairs: Seq<(CrdtOperationView, CrdtOperationView)>) -> Seq<char> {
    match t {
        CrdtType::OrSet => "OR-Set: "@ + decimal(pairs.filter(add_remove_pred()).len())
            + " add/remove conflicts detected (add should win)"@,
        CrdtType::GCounter => "G-Counter: "@ + decimal(pairs.len())
            + " concurrent increments (all should be applied)"@,
        CrdtType::PnCounter => "PN-Counter: "@ + decimal(pairs.len())
            + " concurrent operations (inc/dec should merge)"@,
        CrdtType::LwwRegister => "LWW-Register: "@ + decimal(pairs.len())
            + " concurrent writes (latest timestamp wins)"@,
        CrdtType::PeerCache => "PeerCache: "@ + decimal(pairs.len())
            + " concurrent peer updates (add wins)"@,
    }
}

/// Number of `add`/`remove` pairs among `pairs`.
fn count_add_remove(pairs: &Vec<(&CrdtOperation, &CrdtOperation)>) -> (n: usize)
    ensures
        n == pairs@.map_values(|p: (&CrdtOperation, &CrdtOperation)| (p.0@, p.1@)).filter(add_remove_pred()).len(),
{
    let ghost v = pairs@.map_values(|p: (&CrdtOperation, &CrdtOperation)| (p.0@, p.1@));
    let mut n: usize = 0;
    let mut i: usize = 0;
    while i < pairs.len()
        invariant
            v == pairs@.map_values(|p: (&CrdtOperation, &CrdtOperation)| (p.0@, p.1@)),
            0 <= i <= pairs@.len(),
            n == v.take(i as int).filter(add_remove_pred()).len(),
            n <= i,
        decreases pairs@.len() - i,
    {
        proof {
            assert(v.take(i + 1) =~= v.take(i as int).push(v[i as int]));
            v.take(i as int).lemma_filter_push(v[i as int], add_remove_pred());
        }
        let (a, b) = pairs[i];
        let a_add = str_eq(a.operation_type.as_str(), "add");
        let a_remove = str_eq(a.operation_type.as_str(), "remove");
        let b_add = str_eq(b.operation_type.as_str(), "add");
        let b_remove = str_eq(b.operation_type.as_str(), "remove");
        if (a_add && b_remove) || (a_remove && b_add) {
            n = n + 1;
        }
        i = i + 1;
    }
    assert(v.take(v.len() as int) =~= v);
    n
}

/// Mathematical value of a [`CrdtVerifier`].
pub struct CrdtVerifierView {
    pub test_id: Seq<char>,
    pub crdt_type: CrdtType,
    pub config: CrdtVerifierConfig,
    pub operations: Seq<CrdtOperationView>,
    pub initial: Seq<(Seq<char>, [u8; 32])>,
    pub current: Seq<(Seq<char>, [u8; 32])>,
    /// Milliseconds from the start to the first convergence observed.
    pub convergence_ms: Option<u64>,
}

impl CrdtVerifierView {
    /// Whether convergence has been observed.
    pub open spec fn converged(self) -> bool {
        self.convergence_ms is Some
    }
}

/// `new` is `old` after a convergence check: convergence is noted, with its
/// time, when the states agree and none was noted before; a time noted
/// before stays.
pub open spec fn convergence_checked(old: CrdtVerifierView, new: CrdtVerifierView) -> bool {
    &&& new == (CrdtVerifierView { convergence_ms: new.convergence_ms, ..old })
    &&& new.converged() == (old.converged() || all_same_hash(old.current))
    &&& (old.converged() || !all_same_hash(old.current)) ==> new.convergence_ms == old.convergence_ms
}

/// Verifies that the nodes of a test converge to one CRDT state.
pub struct CrdtVerifier {
    config: CrdtVerifierConfig,
    operations: OperationTracker,
    convergence: ConvergenceState,
    crdt_type: CrdtType,
    test_id: String,
}

impl View for CrdtVerifier {
    type V = CrdtVerifierView;

    closed spec fn view(&self) -> CrdtVerifierView {
        CrdtVerifierView {
            test_id: self.test_id@,
            crdt_type: self.crdt_type,
            config: self.config,
            operations: self.operations@,
            initial: self.convergence.initial@,
            current: self.convergence.current@,
            convergence_ms: self.convergence.converged_after_ms,
        }
    }
}

/// `p` is the convergence proof of a verifier in state `v`, attested by
/// `observer`: its test, kind, first initial hash (zeros when none), the
/// operations, the final states, convergence and its time (zero when not
/// observed), whether conflicts were resolved, and one attestation.
pub open spec fn is_convergence_proof(p: CrdtConvergenceProof, v: CrdtVerifierView, observer: Seq<char>) -> bool {
    &&& p.test_id@ == v.test_id
    &&& p.crdt_type == v.crdt_type
    &&& v.initial.len() > 0 ==> p.initial_state_hash == v.initial[0].1
    &&& v.initial.len() == 0 ==> p.initial_state_hash@ == seq![0u8; 32]
    &&& op_views(p.operations@) == v.operations
    &&& p.node_final_states@ == v.current
    &&& p.convergence_achieved == all_same_hash(v.current)
    &&& p.convergence_time_ms == (match v.convergence_ms { Some(ms) => ms, None => 0 })
    &&& p.conflict_resolution_correct == (concurrent_pairs(v.operations).len() == 0 || all_same_hash(v.current))
    &&& p.attestations@.len() == 1
    &&& p.attestations@[0].node_id@ == observer
    &&& p.attestations@[0].proof_type == ProofType::CrdtConvergence
    &&& p.attestations@[0].data_hash@ == seq![0u8; 32]
}

/// Summary of a CRDT verification.
pub struct VerificationSummary {
    /// Test identifier.
    pub test_id: String,
    /// Kind of CRDT tested.
    pub crdt_type: CrdtType,
    /// Number of nodes that reported a current state.
    pub nodes_participating: usize,
    /// Number of operations recorded.
    pub operations_recorded: usize,
    /// Whether all nodes report the same state.
    pub convergence_achieved: bool,
    /// Time to converge, if convergence was observed.
    pub convergence_time_ms: Option<u64>,
    /// Nodes whose state differs from the most common one.
    pub divergent_nodes: Vec<String>,
    /// Conflict-resolution analysis.
    pub conflict_result: ConflictResolutionResult,
}

impl CrdtVerifier {
    /// The verifier's parts are consistent.
    pub closed spec fn wf(&self) -> bool {
        self.operations.wf() && self.convergence.wf()
    }

    /// A verifier of a CRDT of kind `crdt_type` with the default configuration.
    pub fn new(crdt_type: CrdtType) -> (v: Self)
        ensures
            v.wf(),
            v@.crdt_type == crdt_type,
            v@.config == (CrdtVerifierConfig {
                convergence_timeout_ms: 30_000,
                poll_interval_ms: 100,
                min_nodes: 2,
                verify_conflict_resolution: true,
            }),
            v@.operations.len() == 0,
            v@.initial.len() == 0,
            v@.current.len() == 0,
            !v@.converged(),
            is_hyphenated_uuid(v@.test_id),
    {
        Self::with_config(crdt_type, CrdtVerifierConfig::default())
    }

    /// A verifier of a CRDT of kind `crdt_type` with configuration `config`
    /// and a fresh random test identifier.
    pub fn with_config(crdt_type: CrdtType, config: CrdtVerifierConfig) -> (v: Self)
        ensures
            v.wf(),
            v@.crdt_type == crdt_type,
            v@.config == config,
            v@.operations.len() == 0,
            v@.initial.len() == 0,
            v@.current.len() == 0,
            !v@.converged(),
            is_hyphenated_uuid(v@.test_id),
    {
        CrdtVerifier {
            config,
            operations: OperationTracker::new(),
            convergence: ConvergenceState::new(),
            crdt_type,
            test_id: new_uuid_v4(),
        }
    }

    /// The test identifier.
    pub fn test_id(&self) -> (id: &str)
        ensures
            id@ == self@.test_id,
    {
        self.test_id.as_str()
    }

    /// The configuration.
    pub fn config(&self) -> (c: &CrdtVerifierConfig)
        ensures
            *c == self@.config,
    {
        &self.config
    }

    /// Records the initial state hash of `node_id`.
    pub fn record_initial_state(&mut self, node_id: String, state_hash: [u8; 32])
        requires
            old(self).wf(),
        ensures
            final(self).wf(),
            final(self)@ == (CrdtVerifierView { initial: upsert(old(self)@.initial, node_id@, state_hash), ..old(self)@ }),
    {
        self.convergence.set_initial(node_id, state_hash);
    }

    /// Records an operation (see [`OperationTracker::record`]).
    pub fn record_operation(&mut self, operation: CrdtOperation)
        requires
            old(self).wf(),
            node_count(old(self)@.operations, operation.node_id@) < u64::MAX,
        ensures
            final(self).wf(),
            final(self)@ == (CrdtVerifierView {
                operations: old(self)@.operations.push(stamped(operation@, node_count(old(self)@.operations, operation.node_id@) + 1)),
                ..old(self)@
            }),
    {
        self.operations.record(operation);
    }

    /// Records the current state hash of `node_id`.
    pub fn update_state(&mut self, node_id: String, state_hash: [u8; 32])
        requires
            old(self).wf(),
        ensures
            final(self).wf(),
            final(self)@ == (CrdtVerifierView { current: upsert(old(self)@.current, node_id@, state_hash), ..old(self)@ }),
    {
        self.convergence.update_current(node_id, state_hash);
    }

    /// Whether the nodes have converged; the first time they have, the
    /// moment is noted.
    pub fn check_convergence(&mut self) -> (converged: bool)
        requires
            old(self).wf(),
        ensures
            final(self).wf(),
            converged == all_same_hash(old(self)@.current),
            convergence_checked(old(self)@, final(self)@),
    {
        let converged = self.convergence.is_converged();
        if converged {
            self.convergence.mark_converged();
        }
        converged
    }

    /// The initial state hash of the first node that reported one, or all
    /// zeros when none did.
    pub fn initial_state_hash(&self) -> (h: [u8; 32])
        ensures
            self@.initial.len() > 0 ==> h == self@.initial[0].1,
            self@.initial.len() == 0 ==> h@ == seq![0u8; 32],
    {
        if self.convergence.initial.len() > 0 {
            *self.convergence.initial.value_at(0)
        } else {
            let z = [0u8; 32];
            assert(z@ =~= seq![0u8; 32]);
            z
        }
    }

    /// Checks conflict resolution: with no concurrent operations there is
    /// nothing to resolve; otherwise resolution counts as correct when the
    /// states converged, and the details count the relevant conflicts.
    pub fn verify_conflict_resolution(&self) -> (r: ConflictResolutionResult)
        requires
            self.wf(),
        ensures
            r.had_conflicts == (concurrent_pairs(self@.operations).len() > 0),
            concurrent_pairs(self@.operations).len() == 0 ==> r.correctly_resolved
                && r.details@ == "No concurrent operations detected"@,
            concurrent_pairs(self@.operations).len() > 0 ==> r.correctly_resolved == all_same_hash(self@.current)
                && r.details@ == conflict_details(self@.crdt_type, concurrent_pairs(self@.operations)),
    {
        let pairs = self.operations.find_concurrent_pairs();
        let ghost v = pairs@.map_values(|p: (&CrdtOperation, &CrdtOperation)| (p.0@, p.1@));
        assert(v.len() == pairs@.len());
        if pairs.len() == 0 {
            return ConflictResolutionResult {
                had_conflicts: false,
                correctly_resolved: true,
                details: crate::text::owned("No concurrent operations detected"),
            };
        }
        let details = match self.crdt_type {
            CrdtType::OrSet => {
                let conflicts = count_add_remove(&pairs);
                concat3("OR-Set: ", usize_to_text(conflicts).as_str(), " add/remove conflicts detected (add should win)")
            },
            CrdtType::GCounter => concat3("G-Counter: ", usize_to_text(pairs.len()).as_str(),
                " concurrent increments (all should be applied)"),
            CrdtType::PnCounter => concat3("PN-Counter: ", usize_to_text(pairs.len()).as_str(),
                " concurrent operations (inc/dec should merge)"),
            CrdtType::LwwRegister => concat3("LWW-Register: ", usize_to_text(pairs.len()).as_str(),
                " concurrent writes (latest timestamp wins)"),
            CrdtType::PeerCache => concat3("PeerCache: ", usize_to_text(pairs.len()).as_str(),
                " concurrent peer updates (add wins)"),
        };
        ConflictResolutionResult {
            had_conflicts: pairs.len() != 0,
            correctly_resolved: self.convergence.is_converged(),
            details,
        }
    }

    /// A convergence proof attested by `observer_id`.
    pub fn generate_proof(&self, observer_id: String) -> (p: CrdtConvergenceProof)
        requires
            self.wf(),
        ensures
            is_convergence_proof(p, self@, observer_id@),
    {
        let conflict_result = self.verify_conflict_resolution();
        let mut proof = CrdtConvergenceProof::new(self.test_id.clone(), self.crdt_type);
        proof.initial_state_hash = self.initial_state_hash();
        proof.operations = duplicate_ops(&self.operations.operations);
        proof.node_final_states = self.convergence.current.duplicate();
        proof.convergence_achieved = self.convergence.is_converged();
        proof.convergence_time_ms = match self.convergence.convergence_time_ms() {
            Some(t) => t,
            None => 0,
        };
        proof.conflict_resolution_correct = conflict_result.correctly_resolved;
        let zero = [0u8; 32];
        assert(zero@ =~= seq![0u8; 32]);
        let attestation = SignedAttestation::new(observer_id, ProofType::CrdtConvergence, zero);
        let mut attestations: Vec<SignedAttestation> = Vec::new();
        attestations.push(attestation);
        proof.attestations = attestations;
        proof.timestamp_ms = unix_time_ms();
        proof
    }

    /// A summary of the verification.
    pub fn get_summary(&self) -> (s: VerificationSummary)
        requires
            self.wf(),
        ensures
            s.test_id@ == self@.test_id,
            s.crdt_type == self@.crdt_type,
            s.nodes_participating == self@.current.len(),
            s.operations_recorded == self@.operations.len(),
            s.convergence_achieved == all_same_hash(self@.current),
            s.convergence_time_ms == self@.convergence_ms,
            self@.current.len() <= 1 ==> s.divergent_nodes@.len() == 0,
            self@.current.len() > 1 ==> exists|m: [u8; 32]| #[trigger] is_majority_hash(self@.current, m)
                && s.divergent_nodes@.map_values(|x: String| x@) == nodes_lacking(self@.current, m),
            s.conflict_result.had_conflicts == (concurrent_pairs(self@.operations).len() > 0),
            s.conflict_result.correctly_resolved == (concurrent_pairs(self@.operations).len() == 0
                || all_same_hash(self@.current)),
            concurrent_pairs(self@.operations).len() == 0 ==> s.conflict_result.details@ == "No concurrent operations detected"@,
            concurrent_pairs(self@.operations).len() > 0 ==> s.conflict_result.details@
                == conflict_details(self@.crdt_type, concurrent_pairs(self@.operations)),
    {
        let conflict_result = self.verify_conflict_resolution();
        let divergent = self.convergence.divergent_nodes();
        let mut names: Vec<String> = Vec::new();
        let mut i: usize = 0;
        while i < divergent.len()
            invariant
                0 <= i <= divergent@.len(),
                names@.map_values(|x: String| x@) == divergent@.take(i as int).map_values(|x: &String| x@),
            decreases divergent@.len() - i,
        {
            let ghost before = names@;
            let name: String = (*divergent[i]).clone();
            names.push(name);
            assert(names@ == before.push(name));
            assert(divergent@.take(i + 1) =~= divergent@.take(i as int).push(divergent@[i as int]));
            assert(names@.map_values(|x: String| x@) =~= before.map_values(|x: String| x@).push(name@));
            assert(divergent@.take(i + 1).map_values(|x: &String| x@) =~= divergent@.take(i as int).map_values(|x: &String| x@).push(divergent@[i as int]@));
            i = i + 1;
        }
        assert(divergent@.take(divergent@.len() as int) =~= divergent@);
        VerificationSummary {
            test_id: self.test_id.clone(),
            crdt_type: self.crdt_type,
            nodes_participating: self.convergence.current.len(),
            operations_recorded: self.operations.operations.len(),
            convergence_achieved: self.convergence.is_converged(),
            convergence_time_ms: self.convergence.convergence_time_ms(),
            divergent_nodes: names,
            conflict_result,
        }
    }

    /// Starts over with no operations, no states and a fresh test identifier;
    /// the kind and configuration stay.
    pub fn reset(&mut self)
        ensures
            final(self).wf(),
            final(self)@.crdt_type == old(self)@.crdt_type,
            final(self)@.config == old(self)@.config,
            final(self)@.operations.len() == 0,
            final(self)@.initial.len() == 0,
            final(self)@.current.len() == 0,
            !final(self)@.converged(),
            is_hyphenated_uuid(final(self)@.test_id),
    {
        self.operations.clear();
        self.convergence = ConvergenceState::new();
        self.test_id = new_uuid_v4();
    }
}

/// The SHA-256 hash of `data`.
pub fn compute_state_hash(data: &[u8]) -> (h: [u8; 32])
    ensures
        h@ == sha256_spec(data@),
{
    sha256(data)
}

} // verus!
