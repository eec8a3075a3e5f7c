//! Logic of the asynchronous client: building service requests, interpreting their responses and
//! ordering remote data types by their dependencies.
use vstd::prelude::*;
use vstd::set_lib::lemma_len_subset;

use crate::ua::{
    self, AttributeId, BrowseDescription, BrowseNextRequest, BrowseRequest, BrowseResponse,
    CallMethodRequest, CallRequest, CallResponse, ContinuationPoint, DataTypeDescription, NodeId,
    NodeIdView, ReadRequest, ReadResponse, ReadValueId, ReferenceDescription, StatusCode,
    TimestampsToReturn, Variant, WriteRequest, WriteResponse, WriteValue,
};
use crate::{Attribute, DataValue, Duration, Error, Result};

verus! {

broadcast use vstd::seq_lib::group_seq_properties, vstd::set::group_set_axioms;

/// Node `b` has all its dependencies among the first nodes already placed in `done`.
pub open spec fn deps_placed(deps: Seq<Seq<usize>>, done: Seq<usize>, b: int) -> bool {
    forall|j: int|
        0 <= j < deps[b].len() ==> (deps[b][j] as int) < deps.len() && done.contains(
            #[trigger] deps[b][j],
        )
}

/// `order` lists every node `0..deps.len()` exactly once, each after all of its dependencies
/// (`deps[b]` lists the nodes that node `b` depends on).
pub open spec fn is_topological_order(deps: Seq<Seq<usize>>, order: Seq<usize>) -> bool {
    &&& order.len() == deps.len()
    &&& order.no_duplicates()
    &&& forall|i: int| 0 <= i < order.len() ==> (#[trigger] order[i] as int) < deps.len()
    &&& forall|i: int|
        0 <= i < order.len() ==> deps_placed(deps, #[trigger] order.subrange(0, i), order[i] as int)
}

/// Views of a sequence of vectors.
pub open spec fn vec_views(v: Seq<Vec<usize>>) -> Seq<Seq<usize>> {
    v.map_values(|x: Vec<usize>| x@)
}

/// The set of `usize` values below `n`.
pub open spec fn below(n: nat) -> Set<usize> {
    Set::new(|x: usize| (x as nat) < n)
}

proof fn lemma_below(n: nat)
    ensures
        below(n).finite(),
        n <= usize::MAX + 1 ==> below(n).len() == n,
    decreases n,
{
    if n == 0 {
        assert(below(0) =~= Set::<usize>::empty());
    } else {
        lemma_below((n - 1) as nat);
        if n - 1 <= usize::MAX {
            let last = (n - 1) as usize;
            assert(below((n - 1) as nat).insert(last) =~= below(n));
        } else {
            assert(below((n - 1) as nat) =~= below(n));
        }
    }
}

/// A sequence of distinct values below `n` has at most `n` elements.
proof fn lemma_distinct_below(s: Seq<usize>, n: nat)
    requires
        s.no_duplicates(),
        forall|i: int| 0 <= i < s.len() ==> (#[trigger] s[i] as nat) < n,
    ensures
        s.len() <= n,
{
    s.unique_seq_to_set();
    lemma_below(n);
    assert(s.to_set().subset_of(below(n)));
    lemma_len_subset(s.to_set(), below(n));
    if n > usize::MAX + 1 {
        // A set of `usize` values has at most `usize::MAX + 1` elements.
        lemma_below((usize::MAX + 1) as nat);
        assert(s.to_set().subset_of(below((usize::MAX + 1) as nat)));
        lemma_len_subset(s.to_set(), below((usize::MAX + 1) as nat));
    }
}

/// Once Kahn's algorithm has stopped with every node whose dependencies are all placed already
/// placed, every node of a topological order is placed.
proof fn lemma_order_placed(deps: Seq<Seq<usize>>, done: Seq<usize>, order: Seq<usize>, k: int)
    requires
        is_topological_order(deps, order),
        0 <= k <= order.len(),
        forall|b: int| 0 <= b < deps.len() && deps_placed(deps, done, b) ==> done.contains(b as usize),
    ensures
        forall|i: int| 0 <= i < k ==> done.contains(#[trigger] order[i]),
    decreases k,
{
    if k > 0 {
        lemma_order_placed(deps, done, order, k - 1);
        let x = order[k - 1];
        let prefix = order.subrange(0, k - 1);
        assert(deps_placed(deps, prefix, x as int));
        assert forall|j: int| 0 <= j < deps[x as int].len() implies (deps[x as int][j] as int)
            < deps.len() && done.contains(#[trigger] deps[x as int][j]) by {
            assert(prefix.contains(deps[x as int][j]));
            let p = choose|p: int| 0 <= p < prefix.len() && prefix[p] == deps[x as int][j];
            assert(order[p] == prefix[p]);
        }
        assert(deps_placed(deps, done, x as int));
    }
}

/// Every dependency names a node.
pub open spec fn deps_in_range(deps: Seq<Seq<usize>>) -> bool {
    forall|b: int, j: int|
        0 <= b < deps.len() && 0 <= j < deps[b].len() ==> (#[trigger] deps[b][j] as int)
            < deps.len()
}

/// In walk `p`, the node at `i` depends on the node at `i + 1`.
pub open spec fn walk_step(deps: Seq<Seq<usize>>, p: Seq<usize>, i: int) -> bool {
    deps[p[i] as int].contains(p[i + 1])
}

/// `p` is a walk along dependencies: nodes, each depending on the next.
pub open spec fn is_dependency_walk(deps: Seq<Seq<usize>>, p: Seq<usize>) -> bool {
    &&& p.len() >= 1
    &&& forall|i: int| 0 <= i < p.len() ==> (#[trigger] p[i] as int) < deps.len()
    &&& forall|i: int| 0 <= i < p.len() - 1 ==> #[trigger] walk_step(deps, p, i)
}

/// The dependencies form a cycle (a node depending on itself included).
pub open spec fn has_cycle(deps: Seq<Seq<usize>>) -> bool {
    exists|p: Seq<usize>|
        #[trigger] is_dependency_walk(deps, p) && p.len() >= 2 && p[0] == p[p.len() - 1]
}

/// Position of `x` in `order`.
spec fn position(order: Seq<usize>, x: usize) -> int {
    choose|i: int| 0 <= i < order.len() && order[i] == x
}

/// Along a walk, positions in a topological order strictly decrease.
proof fn lemma_walk_positions(deps: Seq<Seq<usize>>, order: Seq<usize>, p: Seq<usize>, k: int)
    requires
        deps.len() <= usize::MAX,
        is_topological_order(deps, order),
        is_dependency_walk(deps, p),
        0 <= k < p.len(),
    ensures
        0 <= position(order, p[k]) < order.len(),
        order[position(order, p[k])] == p[k],
        position(order, p[k]) <= position(order, p[0]) - k,
    decreases k,
{
    lemma_distinct_below_full(order, deps.len(), p[k]);
    if k > 0 {
        lemma_walk_positions(deps, order, p, k - 1);
        let a = p[k - 1];
        let b = p[k];
        let pa = position(order, a);
        assert(walk_step(deps, p, k - 1));
        assert(deps[a as int].contains(b));
        let j = choose|j: int| 0 <= j < deps[a as int].len() && deps[a as int][j] == b;
        let prefix = order.subrange(0, pa);
        assert(deps_placed(deps, prefix, order[pa] as int));
        assert(prefix.contains(deps[a as int][j]));
        let q = choose|q: int| 0 <= q < prefix.len() && prefix[q] == b;
        assert(order[q] == b);
        let pb = position(order, b);
        if pb != q {
            assert(order[pb] == order[q]);
        }
    }
}

/// Every node not yet placed depends on another node not yet placed: then there is a cycle.
proof fn lemma_stuck_cycle(deps: Seq<Seq<usize>>, done: Seq<usize>)
    requires
        deps.len() <= usize::MAX,
        deps_in_range(deps),
        done.no_duplicates(),
        forall|i: int| 0 <= i < done.len() ==> (#[trigger] done[i] as int) < deps.len(),
        done.len() < deps.len(),
        forall|b: int|
            0 <= b < deps.len() && !done.contains(b as usize) ==> !#[trigger] deps_placed(
                deps,
                done,
                b,
            ),
    ensures
        has_cycle(deps),
{
    let n = deps.len();
    // A node not yet placed.
    let x0 = choose|x: usize| (x as int) < n && !done.contains(x);
    if !(exists|x: usize| (x as int) < n && !done.contains(x)) {
        done.unique_seq_to_set();
        lemma_below(n);
        assert(below(n).subset_of(done.to_set())) by {
            assert forall|x: usize| below(n).contains(x) implies done.to_set().contains(x) by {
                assert((x as int) < n);
            }
        }
        lemma_len_subset(below(n), done.to_set());
    }
    lemma_walk(deps, done, x0, n);
    let w = walk(deps, done, x0, n);
    if w.no_duplicates() {
        lemma_distinct_below(w, n);
    }
    let (i, j) = choose|i: int, j: int|
        0 <= i < w.len() && 0 <= j < w.len() && i != j && w[i] == w[j];
    let (lo, hi) = if i < j { (i, j) } else { (j, i) };
    let c = w.subrange(lo, hi + 1);
    assert forall|t: int| 0 <= t < c.len() - 1 implies #[trigger] walk_step(deps, c, t) by {
        assert(walk_step(deps, w, lo + t));
        assert(c[t] == w[lo + t]);
        assert(c[t + 1] == w[lo + t + 1]);
    }
    assert(is_dependency_walk(deps, c));
    assert(c[0] == c[c.len() - 1]);
}

/// The node that a node not yet placed depends on, not yet placed itself.
spec fn next_unplaced(deps: Seq<Seq<usize>>, done: Seq<usize>, x: usize) -> usize {
    choose|y: usize| deps[x as int].contains(y) && !done.contains(y)
}

/// Walk of `k` steps from `x` among nodes not yet placed.
spec fn walk(deps: Seq<Seq<usize>>, done: Seq<usize>, x: usize, k: nat) -> Seq<usize>
    decreases k,
{
    if k == 0 {
        seq![x]
    } else {
        let w = walk(deps, done, x, (k - 1) as nat);
        w.push(next_unplaced(deps, done, w.last()))
    }
}

proof fn lemma_walk(deps: Seq<Seq<usize>>, done: Seq<usize>, x: usize, k: nat)
    requires
        deps_in_range(deps),
        (x as int) < deps.len(),
        !done.contains(x),
        forall|b: int|
            0 <= b < deps.len() && !done.contains(b as usize) ==> !#[trigger] deps_placed(
                deps,
                done,
                b,
            ),
    ensures
        walk(deps, done, x, k).len() == k + 1,
        is_dependency_walk(deps, walk(deps, done, x, k)),
        forall|i: int|
            0 <= i < walk(deps, done, x, k).len() ==> !done.contains(
                #[trigger] walk(deps, done, x, k)[i],
            ),
    decreases k,
{
    if k > 0 {
        lemma_walk(deps, done, x, (k - 1) as nat);
        let w = walk(deps, done, x, (k - 1) as nat);
        let a = w.last();
        assert(w[w.len() - 1] == a);
        assert(!deps_placed(deps, done, a as int));
        let j = choose|j: int|
            0 <= j < deps[a as int].len() && !((deps[a as int][j] as int) < deps.len()
                && done.contains(#[trigger] deps[a as int][j]));
        assert((deps[a as int][j] as int) < deps.len());
        assert(deps[a as int].contains(deps[a as int][j]));
        let y = next_unplaced(deps, done, a);
        assert(deps[a as int].contains(y) && !done.contains(y));
        let w2 = walk(deps, done, x, k);
        assert(w2 == w.push(y));
        let jy = choose|jy: int| 0 <= jy < deps[a as int].len() && deps[a as int][jy] == y;
        assert((deps[a as int][jy] as int) < deps.len());
        assert forall|i: int| 0 <= i < w2.len() - 1 implies #[trigger] walk_step(deps, w2, i) by {
            if i < w.len() - 1 {
                assert(walk_step(deps, w, i));
            }
        }
        assert forall|i: int| 0 <= i < w2.len() implies (#[trigger] w2[i] as int) < deps.len()
            && !done.contains(w2[i]) by {
            if i < w.len() {
                assert(w2[i] == w[i]);
            }
        }
    }
}

/// A placement of some nodes, each after all its dependencies, extends to a full topological
/// order when the dependencies name nodes only and form no cycle.
proof fn lemma_extend_order(deps: Seq<Seq<usize>>, done: Seq<usize>)
    requires
        deps.len() <= usize::MAX,
        deps_in_range(deps),
        !has_cycle(deps),
        done.no_duplicates(),
        forall|i: int| 0 <= i < done.len() ==> (#[trigger] done[i] as int) < deps.len(),
        forall|i: int|
            0 <= i < done.len() ==> deps_placed(deps, #[trigger] done.subrange(0, i), done[i] as int),
    ensures
        exists|order: Seq<usize>| is_topological_order(deps, order),
    decreases deps.len() - done.len(),
{
    lemma_distinct_below(done, deps.len());
    if done.len() == deps.len() {
        assert(is_topological_order(deps, done));
    } else if exists|b: int|
        0 <= b < deps.len() && !done.contains(b as usize) && #[trigger] deps_placed(deps, done, b) {
        let b = choose|b: int|
            0 <= b < deps.len() && !done.contains(b as usize) && #[trigger] deps_placed(
                deps,
                done,
                b,
            );
        let next = done.push(b as usize);
        assert forall|i: int| 0 <= i < next.len() implies deps_placed(
            deps,
            #[trigger] next.subrange(0, i),
            next[i] as int,
        ) by {
            if i < done.len() {
                assert(next.subrange(0, i) =~= done.subrange(0, i));
            } else {
                assert(next.subrange(0, i) =~= done);
            }
        }
        assert forall|i: int| 0 <= i < next.len() implies (#[trigger] next[i] as int)
            < deps.len() by {
            if i < done.len() {
                assert(next[i] == done[i]);
            }
        }
        assert(next.no_duplicates()) by {
            assert forall|i: int, j: int|
                0 <= i < next.len() && 0 <= j < next.len() && i != j implies next[i]
                != next[j] by {
                if i < done.len() && j < done.len() {
                    assert(next[i] == done[i] && next[j] == done[j]);
                } else if i < done.len() {
                    assert(next[i] == done[i]);
                    assert(done.contains(done[i]));
                } else if j < done.len() {
                    assert(next[j] == done[j]);
                    assert(done.contains(done[j]));
                }
            }
        }
        lemma_extend_order(deps, next);
    } else {
        lemma_stuck_cycle(deps, done);
    }
}

/// A topological order exists exactly when every dependency names a node and the dependencies
/// form no cycle; such an order lists every node exactly once.
pub proof fn lemma_topological_order_exists(deps: Seq<Seq<usize>>)
    requires
        deps.len() <= usize::MAX,
    ensures
        (exists|order: Seq<usize>| is_topological_order(deps, order)) <==> (deps_in_range(deps)
            && !has_cycle(deps)),
        forall|order: Seq<usize>, x: usize|
            is_topological_order(deps, order) && (x as int) < deps.len() ==> #[trigger] order.contains(x),
{
    assert forall|order: Seq<usize>, x: usize|
        is_topological_order(deps, order) && (x as int) < deps.len() implies #[trigger] order.contains(x) by {
        lemma_distinct_below_full(order, deps.len(), x);
    }
    if exists|order: Seq<usize>| is_topological_order(deps, order) {
        let order = choose|order: Seq<usize>| is_topological_order(deps, order);
        assert forall|b: int, j: int|
            0 <= b < deps.len() && 0 <= j < deps[b].len() implies (#[trigger] deps[b][j] as int)
            < deps.len() by {
            lemma_distinct_below_full(order, deps.len(), b as usize);
            let i = choose|i: int| 0 <= i < order.len() && order[i] == b as usize;
            assert(deps_placed(deps, order.subrange(0, i), order[i] as int));
        }
        if has_cycle(deps) {
            let p = choose|p: Seq<usize>|
                #[trigger] is_dependency_walk(deps, p) && p.len() >= 2 && p[0] == p[p.len() - 1];
            lemma_walk_positions(deps, order, p, p.len() - 1);
        }
    } else if deps_in_range(deps) && !has_cycle(deps) {
        lemma_extend_order(deps, Seq::empty());
    }
}

/// Checks whether `v` holds `x`.
fn vec_contains(v: &Vec<usize>, x: usize) -> (r: bool)
    ensures
        r == v@.contains(x),
{
    let mut i: usize = 0;
    while i < v.len()
        invariant
            i <= v.len(),
            forall|j: int| 0 <= j < i ==> v@[j] != x,
        decreases v.len() - i,
    {
        if v[i] == x {
            assert(v@[i as int] == x);
            return true;
        }
        i = i + 1;
    }
    false
}

/// Checks whether all dependencies of a node are placed; `placed[a]` tells whether node `a` is.
fn all_placed(dep: &Vec<usize>, placed: &Vec<bool>, Ghost(deps): Ghost<Seq<Seq<usize>>>, Ghost(done): Ghost<Seq<usize>>, Ghost(b): Ghost<int>) -> (r: bool)
    requires
        placed.len() == deps.len(),
        0 <= b < deps.len(),
        deps[b] == dep@,
        forall|a: int| 0 <= a < deps.len() ==> placed@[a] == done.contains(a as usize),
    ensures
        r == deps_placed(deps, done, b),
{
    let mut i: usize = 0;
    while i < dep.len()
        invariant
            i <= dep.len(),
            placed.len() == deps.len(),
            deps[b] == dep@,
            forall|a: int| 0 <= a < deps.len() ==> placed@[a] == done.contains(a as usize),
            forall|j: int|
                0 <= j < i ==> (dep@[j] as int) < deps.len() && done.contains(#[trigger] dep@[j]),
        decreases dep.len() - i,
    {
        let a = dep[i];
        if a >= placed.len() || !placed[a] {
            assert(!((dep@[i as int] as int) < deps.len() && done.contains(dep@[i as int])));
            return false;
        }
        i = i + 1;
    }
    true
}

/// Orders nodes so that each node comes after all of its dependencies.
///
/// Nodes are `0..deps.len()`; `deps[b]` lists the nodes that node `b` depends on. This returns
/// `None` when no such order exists: when the dependencies form a cycle or name a node that does
/// not exist.
pub fn topological_sort(deps: &Vec<Vec<usize>>) -> (r: Option<Vec<usize>>)
    ensures
        match r {
            Some(order) => is_topological_order(vec_views(deps@), order@),
            None => forall|order: Seq<usize>| !#[trigger] is_topological_order(vec_views(deps@), order),
        },
        r is Some <==> deps_in_range(vec_views(deps@)) && !has_cycle(vec_views(deps@)),
{
    let n = deps.len();
    let ghost d = vec_views(deps@);
    let mut placed: Vec<bool> = Vec::new();
    let mut i: usize = 0;
    while i < n
        invariant
            i <= n,
            n == deps.len(),
            placed.len() == i,
            forall|a: int| 0 <= a < i ==> !placed@[a],
        decreases n - i,
    {
        placed.push(false);
        i = i + 1;
    }
    let mut result: Vec<usize> = Vec::new();
    // Start with the nodes that depend on nothing.
    let mut stack: Vec<usize> = Vec::new();
    let mut b: usize = 0;
    while b < n
        invariant
            b <= n,
            n == deps.len(),
            d == vec_views(deps@),
            placed.len() == n,
            result@.len() == 0,
            forall|a: int| 0 <= a < n ==> !placed@[a],
            (result@ + stack@).no_duplicates(),
            forall|x: int| 0 <= x < stack@.len() ==> (#[trigger] stack@[x] as int) < b,
            forall|c: int|
                0 <= c < n ==> (deps_placed(d, result@, c) && c < b <==> (result@.contains(
                    c as usize,
                ) || stack@.contains(c as usize))),
        decreases n - b,
    {
        let ready = all_placed(&deps[b], &placed, Ghost(d), Ghost(result@), Ghost(b as int));
        let ghost old_stack = stack@;
        if ready {
            stack.push(b);
            assert(result@ + stack@ =~= old_stack.push(b));
        }
        b = b + 1;
        assert forall|c: int|
            0 <= c < n implies (deps_placed(d, result@, c) && c < b <==> (result@.contains(
                c as usize,
            ) || stack@.contains(c as usize))) by {
            if c == b - 1 {
                if !ready {
                    assert(!stack@.contains(c as usize));
                }
            } else {
                assert(stack@.contains(c as usize) <==> old_stack.contains(c as usize));
            }
        }
    }
    while stack.len() > 0
        invariant
            n == deps.len(),
            d == vec_views(deps@),
            placed.len() == n,
            forall|a: int| 0 <= a < n ==> placed@[a] == result@.contains(a as usize),
            (result@ + stack@).no_duplicates(),
            forall|x: int| 0 <= x < result@.len() ==> (#[trigger] result@[x] as int) < n,
            forall|x: int| 0 <= x < stack@.len() ==> (#[trigger] stack@[x] as int) < n,
            forall|c: int|
                0 <= c < n ==> (deps_placed(d, result@, c) <==> (result@.contains(c as usize)
                    || stack@.contains(c as usize))),
            forall|i: int|
                0 <= i < result@.len() ==> deps_placed(
                    d,
                    #[trigger] result@.subrange(0, i),
                    result@[i] as int,
                ),
        decreases n - result@.len(),
    {
        proof {
            lemma_distinct_below(result@ + stack@, n as nat);
        }
        let ghost old_result = result@;
        let ghost old_stack = stack@;
        let a = stack.pop().unwrap();
        assert(old_stack =~= stack@.push(a));
        assert(deps_placed(d, old_result, a as int));
        result.push(a);
        placed.set(a, true);
        assert(result@.subrange(0, result@.len() - 1) =~= old_result);
        assert forall|i: int|
            0 <= i < result@.len() implies deps_placed(
            d,
            #[trigger] result@.subrange(0, i),
            result@[i] as int,
        ) by {
            if i < old_result.len() {
                assert(result@.subrange(0, i) =~= old_result.subrange(0, i));
            }
        }
        proof {
            let old_all = old_result + old_stack;
            let new_all = result@ + stack@;
            let rl = old_result.len() as int;
            let sl = stack@.len() as int;
            assert(old_all[rl + sl] == a);
            if old_result.contains(a) {
                let p = choose|p: int| 0 <= p < rl && old_result[p] == a;
                assert(old_all[p] == a);
            }
            assert(new_all.len() == old_all.len());
            // Position of each element of the new sequence in the old one.
            let pos = |i: int|
                if i < rl {
                    i
                } else if i == rl {
                    rl + sl
                } else {
                    i - 1
                };
            assert forall|i: int| 0 <= i < new_all.len() implies new_all[i] == old_all[pos(i)] by {}
            assert forall|i: int, j: int|
                0 <= i < new_all.len() && 0 <= j < new_all.len() && i != j implies new_all[i]
                != new_all[j] by {
                assert(new_all[i] == old_all[pos(i)]);
                assert(new_all[j] == old_all[pos(j)]);
            }
        }
        assert forall|c: int| #![trigger result@.contains(c as usize)] #![trigger stack@.contains(c as usize)] 0 <= c < n implies (result@.contains(c as usize) || stack@.contains(
            c as usize,
        )) == (old_result.contains(c as usize) || old_stack.contains(c as usize)) by {
            if old_stack.contains(c as usize) && c as usize != a {
                let p = choose|p: int| 0 <= p < old_stack.len() && old_stack[p] == c as usize;
                assert(stack@[p] == c as usize);
            }
            if stack@.contains(c as usize) {
                let p = choose|p: int| 0 <= p < stack@.len() && stack@[p] == c as usize;
                assert(old_stack[p] == c as usize);
            }
        }
        assert forall|c: int| 0 <= c < n implies (!d[c].contains(a) ==> (deps_placed(
            d,
            result@,
            c,
        ) <==> deps_placed(d, old_result, c))) && (d[c].contains(a) ==> !deps_placed(
            d,
            old_result,
            c,
        )) by {
            if d[c].contains(a) {
                let j = choose|j: int| 0 <= j < d[c].len() && d[c][j] == a;
                assert(!old_result.contains(d[c][j]));
            } else {
                assert forall|j: int| 0 <= j < d[c].len() implies (result@.contains(
                    #[trigger] d[c][j],
                ) <==> old_result.contains(d[c][j])) by {
                    assert(d[c][j] != a);
                }
            }
        }
        assert forall|c: int| #![trigger d[c]] 0 <= c < n implies (!d[c].contains(a) ==> (deps_placed(
            d,
            result@,
            c,
        ) <==> (result@.contains(c as usize) || stack@.contains(c as usize)))) && (
        d[c].contains(a) ==> !(result@.contains(c as usize) || stack@.contains(c as usize))) by {
            assert(deps_placed(d, old_result, c) <==> (old_result.contains(c as usize)
                || old_stack.contains(c as usize)));
            assert((result@.contains(c as usize) || stack@.contains(c as usize)) == (
            old_result.contains(c as usize) || old_stack.contains(c as usize)));
        }
        // Release the nodes that waited for `a` only.
        let mut b: usize = 0;
        while b < n
            invariant
                b <= n,
                n == deps.len(),
                d == vec_views(deps@),
                placed.len() == n,
                result@ == old_result.push(a),
                !old_result.contains(a),
                (a as int) < n,
                forall|x: int| 0 <= x < n ==> placed@[x] == result@.contains(x as usize),
                (result@ + stack@).no_duplicates(),
                forall|x: int| 0 <= x < stack@.len() ==> (#[trigger] stack@[x] as int) < n,
                forall|c: int|
                    0 <= c < b ==> (deps_placed(d, result@, c) <==> (result@.contains(c as usize)
                        || stack@.contains(c as usize))),
                forall|c: int|
                    b <= c < n ==> (!d[c].contains(a) ==> (deps_placed(d, result@, c) <==> (
                    result@.contains(c as usize) || stack@.contains(c as usize)))),
                forall|c: int|
                    #![trigger d[c]]
                    b <= c < n ==> (d[c].contains(a) ==> !(result@.contains(c as usize)
                        || stack@.contains(c as usize))),
            decreases n - b,
        {
            let ghost prev_stack = stack@;
            if vec_contains(&deps[b], a) {
                let ready = all_placed(&deps[b], &placed, Ghost(d), Ghost(result@), Ghost(b as int));
                if ready {
                    stack.push(b);
                    assert(result@ + stack@ =~= (result@ + prev_stack).push(b));
                }
            }
            b = b + 1;
            assert forall|c: int| 0 <= c < b implies (deps_placed(d, result@, c) <==> (
            result@.contains(c as usize) || stack@.contains(c as usize))) by {
                if c < b - 1 {
                    assert(stack@.contains(c as usize) <==> prev_stack.contains(c as usize) || c
                        == b - 1);
                }
            }
            assert forall|c: int| b <= c < n implies (!d[c].contains(a) ==> (deps_placed(
                d,
                result@,
                c,
            ) <==> (result@.contains(c as usize) || stack@.contains(c as usize)))) && (
            d[c].contains(a) ==> !(result@.contains(c as usize) || stack@.contains(
                c as usize,
            ))) by {
                assert(stack@.contains(c as usize) <==> prev_stack.contains(c as usize));
            }
        }
    }
    if result.len() == n {
        proof {
            assert forall|i: int| 0 <= i < result@.len() implies (#[trigger] result@[i] as int)
                < d.len() by {}
            assert(is_topological_order(d, result@));
            lemma_topological_order_exists(d);
            assert(d == vec_views(deps@));
        }
        Some(result)
    } else {
        proof {
            assert(stack@ =~= Seq::<usize>::empty());
            assert(result@ + stack@ =~= result@);
            assert forall|order: Seq<usize>| !#[trigger] is_topological_order(d, order) by {
                if is_topological_order(d, order) {
                    lemma_order_placed(d, result@, order, order.len() as int);
                    order.unique_seq_to_set();
                    result@.unique_seq_to_set();
                    assert(order.to_set().subset_of(result@.to_set()));
                    lemma_len_subset(order.to_set(), result@.to_set());
                    lemma_distinct_below(result@, n as nat);
                }
            }
            lemma_topological_order_exists(d);
            assert(d == vec_views(deps@));
        }
        None
    }
}


/// Data types of namespace 0, and numeric data types of namespace 3, are known to every client.
pub open spec fn is_well_known_spec(id: NodeIdView) -> bool {
    id.namespace_index == 0 || (id.namespace_index == 3 && id.identifier is Numeric)
}

/// Checks whether a data type is known to the client without being added.
pub fn is_well_known_data_type(data_type_id: &NodeId) -> (r: bool)
    ensures
        r == is_well_known_spec(data_type_id@),
        r == (data_type_id.namespace_index == 0 || (data_type_id.namespace_index == 3
            && data_type_id.identifier is Numeric)),
{
    data_type_id.is_ns0() || (data_type_id.namespace_index() == 3 && data_type_id.is_numeric())
}

/// A data type is well known exactly when it lies in namespace 0, or is numeric in namespace 3:
/// data types of any other namespace (such as a server's own namespace 1) are not.
pub proof fn lemma_well_known(id: NodeIdView)
    ensures
        is_well_known_spec(id) <==> (id.namespace_index == 0 || (id.namespace_index == 3
            && id.identifier is Numeric)),
        id.namespace_index != 0 && id.namespace_index != 3 ==> !is_well_known_spec(id),
{
}

/// ID of the data type described at index `i`.
pub open spec fn desc_id(descs: Seq<DataTypeDescription>, i: int) -> NodeIdView {
    descs[i].spec_data_type_id()@
}

/// The description at index `i` must be added: its data type is neither well known nor known
/// already, and no later description describes the same data type (the last one wins).
pub open spec fn is_new_description(
    descs: Seq<DataTypeDescription>,
    known: Seq<NodeId>,
    i: int,
) -> bool {
    &&& !is_well_known_spec(desc_id(descs, i))
    &&& forall|k: int| 0 <= k < known.len() ==> (#[trigger] known[k])@ != desc_id(descs, i)
    &&& forall|j: int| i < j < descs.len() ==> #[trigger] desc_id(descs, j) != desc_id(descs, i)
}

/// Indices below `n` of the descriptions that must be added, in ascending order.
pub open spec fn new_descriptions(
    descs: Seq<DataTypeDescription>,
    known: Seq<NodeId>,
    n: nat,
) -> Seq<usize>
    decreases n,
{
    if n == 0 {
        Seq::empty()
    } else {
        let prev = new_descriptions(descs, known, (n - 1) as nat);
        if is_new_description(descs, known, n - 1) {
            prev.push((n - 1) as usize)
        } else {
            prev
        }
    }
}

/// Data types of the fields of a described structure.
pub open spec fn field_types(d: DataTypeDescription) -> Seq<NodeId> {
    match d {
        DataTypeDescription::Structure { field_data_types: Some(f), .. } => f@,
        _ => Seq::empty(),
    }
}

/// Position in `sel` of the description of data type `id`, if any.
pub open spec fn position_of(
    descs: Seq<DataTypeDescription>,
    sel: Seq<usize>,
    id: NodeIdView,
) -> Option<usize> {
    if exists|q: int| 0 <= q < sel.len() && #[trigger] desc_id(descs, sel[q] as int) == id {
        Some(
            (choose|q: int| 0 <= q < sel.len() && #[trigger] desc_id(descs, sel[q] as int) == id) as usize,
        )
    } else {
        None
    }
}

/// Positions in `sel` of the first `m` field types that are described in `sel`.
pub open spec fn field_positions(
    descs: Seq<DataTypeDescription>,
    sel: Seq<usize>,
    fields: Seq<NodeId>,
    m: nat,
) -> Seq<usize>
    decreases m,
{
    if m == 0 {
        Seq::empty()
    } else {
        let prev = field_positions(descs, sel, fields, (m - 1) as nat);
        match position_of(descs, sel, fields[m - 1]@) {
            Some(q) => prev.push(q),
            None => prev,
        }
    }
}

/// Dependency graph among the descriptions that must be added: node `p` stands for description
/// `sel[p]` and depends on the descriptions of its field types.
pub open spec fn data_type_dependencies(
    descs: Seq<DataTypeDescription>,
    known: Seq<NodeId>,
) -> Seq<Seq<usize>> {
    let sel = new_descriptions(descs, known, descs.len());
    Seq::new(
        sel.len(),
        |p: int|
            field_positions(
                descs,
                sel,
                field_types(descs[sel[p] as int]),
                field_types(descs[sel[p] as int]).len(),
            ),
    )
}

proof fn lemma_new_descriptions(descs: Seq<DataTypeDescription>, known: Seq<NodeId>, n: nat)
    requires
        n <= descs.len(),
        descs.len() <= usize::MAX,
    ensures
        forall|p: int|
            0 <= p < new_descriptions(descs, known, n).len() ==> {
                let i = #[trigger] new_descriptions(descs, known, n)[p] as int;
                0 <= i < n && is_new_description(descs, known, i)
            },
        forall|p: int, q: int|
            0 <= p < q < new_descriptions(descs, known, n).len() ==> #[trigger] new_descriptions(
                descs,
                known,
                n,
            )[p] < #[trigger] new_descriptions(descs, known, n)[q],
    decreases n,
{
    if n > 0 {
        lemma_new_descriptions(descs, known, (n - 1) as nat);
        let prev = new_descriptions(descs, known, (n - 1) as nat);
        let cur = new_descriptions(descs, known, n);
        assert forall|p: int, q: int| 0 <= p < q < cur.len() implies #[trigger] cur[p]
            < #[trigger] cur[q] by {
            assert(prev[p] == cur[p]);
            if q < prev.len() {
                assert(prev[q] == cur[q]);
            } else {
                assert((prev[p] as int) < n - 1);
            }
        }
        assert forall|p: int| 0 <= p < cur.len() implies {
            let i = #[trigger] cur[p] as int;
            0 <= i < n && is_new_description(descs, known, i)
        } by {
            if p < prev.len() {
                assert(prev[p] == cur[p]);
            }
        }
    }
}

/// Descriptions that must be added describe distinct data types.
proof fn lemma_selected_distinct(descs: Seq<DataTypeDescription>, known: Seq<NodeId>, p: int, q: int)
    requires
        descs.len() <= usize::MAX,
        0 <= p < new_descriptions(descs, known, descs.len()).len(),
        0 <= q < new_descriptions(descs, known, descs.len()).len(),
        p != q,
    ensures
        desc_id(descs, new_descriptions(descs, known, descs.len())[p] as int) != desc_id(
            descs,
            new_descriptions(descs, known, descs.len())[q] as int,
        ),
{
    let sel = new_descriptions(descs, known, descs.len());
    lemma_new_descriptions(descs, known, descs.len());
    let i = sel[p] as int;
    let j = sel[q] as int;
    if p < q {
        assert(i < j);
        assert(is_new_description(descs, known, i));
    } else {
        assert(j < i);
        assert(is_new_description(descs, known, j));
    }
}

/// Every description below `n` that must be added is selected.
proof fn lemma_new_descriptions_complete(
    descs: Seq<DataTypeDescription>,
    known: Seq<NodeId>,
    n: nat,
    i: int,
)
    requires
        0 <= i < n,
        n <= descs.len(),
        descs.len() <= usize::MAX,
        is_new_description(descs, known, i),
    ensures
        new_descriptions(descs, known, n).contains(i as usize),
    decreases n,
{
    let prev = new_descriptions(descs, known, (n - 1) as nat);
    if i == n - 1 {
        assert(new_descriptions(descs, known, n).last() == i as usize);
    } else {
        lemma_new_descriptions_complete(descs, known, (n - 1) as nat, i);
        let p = choose|p: int| 0 <= p < prev.len() && prev[p] == i as usize;
        assert(new_descriptions(descs, known, n)[p] == i as usize);
    }
}

/// A sequence of `n` distinct values below `n` holds every value below `n`.
proof fn lemma_distinct_below_full(s: Seq<usize>, n: nat, x: usize)
    requires
        s.no_duplicates(),
        s.len() == n,
        n <= usize::MAX,
        forall|i: int| 0 <= i < s.len() ==> (#[trigger] s[i] as nat) < n,
        (x as nat) < n,
    ensures
        s.contains(x),
{
    if !s.contains(x) {
        s.unique_seq_to_set();
        lemma_below(n);
        assert(below(n).contains(x));
        let rest = below(n).remove(x);
        assert(rest.len() == n - 1);
        assert(s.to_set().subset_of(rest));
        lemma_len_subset(s.to_set(), rest);
    }
}

/// Field positions of the first `n` field types hold the position of each of them that is
/// described.
proof fn lemma_field_positions_contains(
    descs: Seq<DataTypeDescription>,
    sel: Seq<usize>,
    fields: Seq<NodeId>,
    n: nat,
    j: int,
    q: usize,
)
    requires
        0 <= j < n <= fields.len(),
        position_of(descs, sel, fields[j]@) == Some(q),
    ensures
        field_positions(descs, sel, fields, n).contains(q),
    decreases n,
{
    let prev = field_positions(descs, sel, fields, (n - 1) as nat);
    if j == n - 1 {
        assert(field_positions(descs, sel, fields, n) == prev.push(q));
        assert(prev.push(q)[prev.len() as int] == q);
    } else {
        lemma_field_positions_contains(descs, sel, fields, (n - 1) as nat, j, q);
        let t = choose|t: int| 0 <= t < prev.len() && prev[t] == q;
        match position_of(descs, sel, fields[n - 1]@) {
            Some(y) => {
                assert(field_positions(descs, sel, fields, n) == prev.push(y));
                assert(prev.push(y)[t] == q);
            },
            None => {},
        }
    }
}

/// In a planned order, every structure comes after the description of each of its fields' data
/// types that is in the plan: all field types are dependencies, not only some of them.
pub proof fn lemma_plan_fields_first(
    descs: Seq<DataTypeDescription>,
    known: Seq<NodeId>,
    order: Seq<usize>,
)
    requires
        descs.len() <= usize::MAX,
        is_topological_order(data_type_dependencies(descs, known), order),
    ensures
        ({
            let sel = new_descriptions(descs, known, descs.len());
            let v = order.map_values(|p: usize| sel[p as int]);
            forall|k: int, j: int, m: int|
                #![trigger v[k], v[m], field_types(descs[v[k] as int])[j]]
                0 <= k < v.len() && 0 <= m < v.len() && 0 <= j < field_types(
                    descs[v[k] as int],
                ).len() && descs[v[m] as int].spec_data_type_id()@ == field_types(
                    descs[v[k] as int],
                )[j]@ ==> m < k
        }),
{
    let sel = new_descriptions(descs, known, descs.len());
    let v = order.map_values(|p: usize| sel[p as int]);
    let deps = data_type_dependencies(descs, known);
    lemma_new_descriptions(descs, known, descs.len());
    assert forall|k: int, j: int, m: int|
        0 <= k < v.len() && 0 <= m < v.len() && 0 <= j < field_types(descs[v[k] as int]).len()
            && descs[v[m] as int].spec_data_type_id()@ == field_types(descs[v[k] as int])[j]@
        implies m < k by {
        let p = order[k];
        let pm = order[m];
        let fields = field_types(descs[sel[p as int] as int]);
        assert(v[k] == sel[p as int]);
        assert(v[m] == sel[pm as int]);
        let id = fields[j]@;
        assert(desc_id(descs, sel[pm as int] as int) == id);
        assert(exists|q: int| 0 <= q < sel.len() && #[trigger] desc_id(descs, sel[q] as int) == id);
        let q = choose|q: int| 0 <= q < sel.len() && #[trigger] desc_id(descs, sel[q] as int) == id;
        if q != pm as int {
            lemma_selected_distinct(descs, known, q, pm as int);
        }
        assert(position_of(descs, sel, id) == Some(pm));
        lemma_field_positions_contains(descs, sel, fields, fields.len(), j, pm);
        assert(deps[p as int] == field_positions(descs, sel, fields, fields.len()));
        let jj = choose|jj: int| 0 <= jj < deps[p as int].len() && deps[p as int][jj] == pm;
        let prefix = order.subrange(0, k);
        assert(deps_placed(deps, prefix, order[k] as int));
        assert(prefix.contains(deps[p as int][jj]));
        let t = choose|t: int| 0 <= t < prefix.len() && prefix[t] == pm;
        assert(order[t] == order[m]);
    }
}

/// A planned order of data type descriptions lists each description that must be added exactly
/// once, and nothing else: the descriptions of data types that are neither well known nor known
/// already, the last one of each data type.
pub proof fn lemma_plan_lists_new_descriptions_once(
    descs: Seq<DataTypeDescription>,
    known: Seq<NodeId>,
    order: Seq<usize>,
)
    requires
        descs.len() <= usize::MAX,
        is_topological_order(data_type_dependencies(descs, known), order),
    ensures
        ({
            let sel = new_descriptions(descs, known, descs.len());
            let v = order.map_values(|p: usize| sel[p as int]);
            &&& v.no_duplicates()
            &&& forall|i: int|
                0 <= i < descs.len() ==> (v.contains(i as usize) <==> is_new_description(
                    descs,
                    known,
                    i,
                ))
            &&& forall|k: int| 0 <= k < v.len() ==> (#[trigger] v[k] as int) < descs.len()
        }),
{
    let sel = new_descriptions(descs, known, descs.len());
    let v = order.map_values(|p: usize| sel[p as int]);
    lemma_new_descriptions(descs, known, descs.len());
    assert(order.len() == sel.len());
    assert(sel.no_duplicates()) by {
        assert forall|a: int, b: int| 0 <= a < sel.len() && 0 <= b < sel.len() && a != b implies sel[a]
            != sel[b] by {
            if a < b {
                assert(sel[a] < sel[b]);
            } else {
                assert(sel[b] < sel[a]);
            }
        }
    }
    lemma_distinct_below(sel, descs.len());
    assert forall|a: int, b: int| 0 <= a < v.len() && 0 <= b < v.len() && a != b implies v[a]
        != v[b] by {
        let pa = order[a] as int;
        let pb = order[b] as int;
        assert(pa != pb);
        if pa < pb {
            assert(sel[pa] < sel[pb]);
        } else {
            assert(sel[pb] < sel[pa]);
        }
    }
    assert forall|i: int| 0 <= i < descs.len() implies (v.contains(i as usize)
        <==> is_new_description(descs, known, i)) by {
        if v.contains(i as usize) {
            let k = choose|k: int| 0 <= k < v.len() && v[k] == i as usize;
            assert(sel[order[k] as int] == i as usize);
        }
        if is_new_description(descs, known, i) {
            lemma_new_descriptions_complete(descs, known, descs.len(), i);
            let p = choose|p: int| 0 <= p < sel.len() && sel[p] == i as usize;
            lemma_distinct_below_full(order, sel.len(), p as usize);
            let k = choose|k: int| 0 <= k < order.len() && order[k] == p as usize;
            assert(order[k] as int == p);
            assert(v[k] == sel[order[k] as int]);
            assert(v[k] == i as usize);
        }
    }
}

/// Checks whether `id` is among `known`.
fn known_contains(known: &[NodeId], id: &NodeId) -> (r: bool)
    ensures
        r == exists|k: int| 0 <= k < known@.len() && (#[trigger] known@[k])@ == id@,
{
    let mut k: usize = 0;
    while k < known.len()
        invariant
            k <= known@.len(),
            forall|x: int| 0 <= x < k ==> (#[trigger] known@[x])@ != id@,
        decreases known@.len() - k,
    {
        if known[k].equals(id) {
            return true;
        }
        k = k + 1;
    }
    false
}

/// Decides which data type descriptions must be added, and in which order.
///
/// Descriptions of well-known data types and of `known` ones are left out; of several descriptions
/// of one data type only the last one counts. The result lists indices into `descs` such that every
/// description comes after the descriptions of its fields' data types.
///
/// # Errors
///
/// This fails when the descriptions depend on each other in a cycle.
pub fn plan_new_data_types(descs: &[DataTypeDescription], known: &[NodeId]) -> (r: Result<
    Vec<usize>,
>)
    ensures
        match r {
            Ok(v) => (exists|order: Seq<usize>|
                #[trigger] is_topological_order(data_type_dependencies(descs@, known@), order)
                    && v@ == order.map_values(
                    |p: usize| new_descriptions(descs@, known@, descs@.len())[p as int],
                )) && v@.no_duplicates() && (forall|i: int|
                0 <= i < descs@.len() ==> (v@.contains(i as usize) <==> is_new_description(
                    descs@,
                    known@,
                    i,
                ))) && (forall|k: int, m: int|
                #![trigger v@[k], v@[m]]
                0 <= k < v@.len() && 0 <= m < v@.len() ==> (descs@[v@[k] as int] matches DataTypeDescription::Structure {
                    field_data_types: Some(f),
                    ..
                } ==> forall|j: int|
                    0 <= j < f@.len() && descs@[v@[m] as int].spec_data_type_id()@ == (
                    #[trigger] f@[j])@ ==> m < k)),
            Err(e) => e == Error::Internal("cyclical data type descriptions") && forall|
                order: Seq<usize>,
            | !#[trigger] is_topological_order(data_type_dependencies(descs@, known@), order),
        },
{
    let n = descs.len();
    let ghost ds = descs@;
    let ghost ks = known@;
    // Select the descriptions to add.
    let mut sel: Vec<usize> = Vec::new();
    let mut i: usize = 0;
    while i < n
        invariant
            i <= n,
            n == ds.len(),
            ds == descs@,
            ks == known@,
            sel@ == new_descriptions(ds, ks, i as nat),
        decreases n - i,
    {
        let id = descs[i].data_type_id();
        let mut is_new = !is_well_known_data_type(id) && !known_contains(known, id);
        let mut j: usize = i + 1;
        while j < n
            invariant
                i < j <= n,
                n == ds.len(),
                ds == descs@,
                *id == ds[i as int].spec_data_type_id(),
                is_new == (!is_well_known_spec(desc_id(ds, i as int)) && (forall|k: int|
                    0 <= k < ks.len() ==> (#[trigger] ks[k])@ != desc_id(ds, i as int)) && (forall|
                    x: int,
                | i < x < j ==> #[trigger] desc_id(ds, x) != desc_id(ds, i as int))),
            decreases n - j,
        {
            let same = descs[j].data_type_id().equals(id);
            assert(same == (desc_id(ds, j as int) == desc_id(ds, i as int)));
            if same {
                is_new = false;
            }
            j = j + 1;
        }
        if is_new {
            sel.push(i);
        }
        i = i + 1;
    }
    let ghost s = sel@;
    proof {
        lemma_new_descriptions(ds, ks, n as nat);
    }
    // Collect the dependencies of each selected description.
    let mut deps: Vec<Vec<usize>> = Vec::new();
    let mut p: usize = 0;
    while p < sel.len()
        invariant
            p <= sel@.len(),
            n == ds.len(),
            ds == descs@,
            s == sel@,
            s == new_descriptions(ds, ks, ds.len()),
            forall|x: int| 0 <= x < s.len() ==> (#[trigger] s[x] as int) < n,
            deps@.len() == p,
            forall|x: int|
                0 <= x < p ==> (#[trigger] deps@[x])@ == data_type_dependencies(ds, ks)[x],
        decreases sel@.len() - p,
    {
        let mut row: Vec<usize> = Vec::new();
        let ghost fields = field_types(ds[s[p as int] as int]);
        match &descs[sel[p]] {
            DataTypeDescription::Structure { field_data_types: Some(f), .. } => {
                let mut m: usize = 0;
                while m < f.len()
                    invariant
                        m <= f@.len(),
                        fields == f@,
                        n == ds.len(),
                        ds == descs@,
                        s == sel@,
                        s == new_descriptions(ds, ks, ds.len()),
                        forall|x: int| 0 <= x < s.len() ==> (#[trigger] s[x] as int) < n,
                        row@ == field_positions(ds, s, fields, m as nat),
                    decreases f@.len() - m,
                {
                    let mut q: usize = 0;
                    let mut found: Option<usize> = None;
                    while q < sel.len()
                        invariant
                            q <= sel@.len(),
                            (m as int) < f@.len(),
                            n == ds.len(),
                            ds == descs@,
                            s == sel@,
                            forall|x: int| 0 <= x < s.len() ==> (#[trigger] s[x] as int) < n,
                            found is None ==> forall|x: int|
                                0 <= x < q ==> #[trigger] desc_id(ds, s[x] as int) != f@[m as int]@,
                            found matches Some(y) ==> (y as int) < s.len() && desc_id(
                                ds,
                                s[y as int] as int,
                            ) == f@[m as int]@,
                        decreases sel@.len() - q,
                    {
                        if found.is_none() && descs[sel[q]].data_type_id().equals(&f[m]) {
                            found = Some(q);
                        }
                        q = q + 1;
                    }
                    proof {
                        if let Some(y) = found {
                            let c = choose|c: int|
                                0 <= c < s.len() && #[trigger] desc_id(ds, s[c] as int)
                                    == f@[m as int]@;
                            if c != y as int {
                                lemma_selected_distinct(ds, ks, c, y as int);
                            }
                        }
                    }
                    if let Some(y) = found {
                        row.push(y);
                    }
                    m = m + 1;
                }
            },
            _ => {},
        }
        deps.push(row);
        p = p + 1;
    }
    assert(vec_views(deps@) =~= data_type_dependencies(ds, ks));
    match topological_sort(&deps) {
        Some(order) => {
            let mut v: Vec<usize> = Vec::new();
            let mut k: usize = 0;
            while k < order.len()
                invariant
                    k <= order@.len(),
                    s == sel@,
                    is_topological_order(vec_views(deps@), order@),
                    deps@.len() == s.len(),
                    v@ == order@.subrange(0, k as int).map_values(|p: usize| s[p as int]),
                decreases order@.len() - k,
            {
                v.push(sel[order[k]]);
                k = k + 1;
                assert(v@ =~= order@.subrange(0, k as int).map_values(|p: usize| s[p as int]));
            }
            assert(order@.subrange(0, order@.len() as int) =~= order@);
            assert(is_topological_order(data_type_dependencies(ds, ks), order@));
            proof {
                lemma_plan_lists_new_descriptions_once(ds, ks, order@);
                lemma_plan_fields_first(ds, ks, order@);
                assert forall|k: int, m: int|
                    #![trigger v@[k], v@[m]]
                    0 <= k < v@.len() && 0 <= m < v@.len() implies (ds[v@[k] as int] matches DataTypeDescription::Structure {
                        field_data_types: Some(f),
                        ..
                    } ==> forall|j: int|
                        0 <= j < f@.len() && ds[v@[m] as int].spec_data_type_id()@ == (
                        #[trigger] f@[j])@ ==> m < k) by {
                    if let DataTypeDescription::Structure { field_data_types: Some(f), .. } = ds[v@[k] as int] {
                        assert forall|j: int|
                            0 <= j < f@.len() && ds[v@[m] as int].spec_data_type_id()@ == (
                            #[trigger] f@[j])@ implies m < k by {
                            assert(field_types(ds[v@[k] as int]) == f@);
                            assert(field_types(ds[v@[k] as int])[j] == f@[j]);
                        }
                    }
                }
            }
            Ok(v)
        },
        None => Err(Error::Internal("cyclical data type descriptions")),
    }
}


/// Result type for browsing: the references found, and the continuation point for more.
pub type BrowseResult = Result<(Vec<ReferenceDescription>, Option<ContinuationPoint>)>;

/// Request that reads the given attributes of the given nodes, with both timestamps.
pub fn read_many_attributes_request(node_attributes: &[(NodeId, AttributeId)]) -> (r: ReadRequest)
    ensures
        r.timestamps_to_return == TimestampsToReturn::spec_both(),
        r.nodes_to_read.len() == node_attributes@.len(),
        forall|i: int|
            0 <= i < r.nodes_to_read.len() ==> (#[trigger] r.nodes_to_read@[i]).node_id@
                == node_attributes@[i].0@ && r.nodes_to_read@[i].attribute_id
                == node_attributes@[i].1,
{
    let mut nodes_to_read: Vec<ReadValueId> = Vec::new();
    let mut i: usize = 0;
    while i < node_attributes.len()
        invariant
            i <= node_attributes@.len(),
            nodes_to_read.len() == i,
            forall|k: int|
                0 <= k < i ==> (#[trigger] nodes_to_read@[k]).node_id@ == node_attributes@[k].0@
                    && nodes_to_read@[k].attribute_id == node_attributes@[k].1,
        decreases node_attributes@.len() - i,
    {
        let (node_id, attribute_id) = &node_attributes[i];
        nodes_to_read.push(ReadValueId { node_id: node_id.clone(), attribute_id: *attribute_id });
        i = i + 1;
    }
    ReadRequest {
        request_header: ua::RequestHeader::init(),
        timestamps_to_return: TimestampsToReturn::both(),
        nodes_to_read,
    }
}

/// Pairs one node with each of the given attributes, in order.
pub fn read_attributes_pairs(node_id: &NodeId, attribute_ids: &[AttributeId]) -> (r: Vec<
    (NodeId, AttributeId),
>)
    ensures
        r.len() == attribute_ids@.len(),
        forall|i: int|
            0 <= i < r.len() ==> (#[trigger] r@[i]).0@ == node_id@ && r@[i].1 == attribute_ids@[i],
{
    let mut pairs: Vec<(NodeId, AttributeId)> = Vec::new();
    let mut i: usize = 0;
    while i < attribute_ids.len()
        invariant
            i <= attribute_ids@.len(),
            pairs.len() == i,
            forall|k: int|
                0 <= k < i ==> (#[trigger] pairs@[k]).0@ == node_id@ && pairs@[k].1
                    == attribute_ids@[k],
        decreases attribute_ids@.len() - i,
    {
        pairs.push((node_id.clone(), attribute_ids[i]));
        i = i + 1;
    }
    pairs
}

/// Takes the values of a read of `count` attributes.
///
/// This fails when the results are unset, or when their number is not `count`: the results could
/// not be matched with the attributes.
pub fn read_many_attributes_result(response: ReadResponse, count: usize) -> (r: Result<
    Vec<DataValue<Variant>>,
>)
    ensures
        match response.results {
            None => r == Err::<Vec<DataValue<Variant>>, Error>(
                Error::Internal("read should return results"),
            ),
            Some(results) => if results.len() != count {
                r == Err::<Vec<DataValue<Variant>>, Error>(
                    Error::Internal("unexpected number of read results"),
                )
            } else {
                r matches Ok(v) && v.len() == count && forall|i: int|
                    0 <= i < v.len() ==> (#[trigger] v@[i]).spec_inner() == results@[i]
            },
        },
{
    let Some(results) = response.results else {
        return Err(Error::internal("read should return results"));
    };
    let ghost rs = results@;
    let mut rest = crate::reverse_vec(results);
    let mut values: Vec<DataValue<Variant>> = Vec::new();
    while rest.len() > 0
        invariant
            values.len() + rest.len() == rs.len(),
            forall|k: int| 0 <= k < rest.len() ==> rest@[k] == rs[rs.len() - 1 - k],
            forall|i: int| 0 <= i < values.len() ==> (#[trigger] values@[i]).spec_inner() == rs[i],
        decreases rest.len(),
    {
        let ghost i = values.len() as int;
        let value = rest.pop().unwrap();
        assert(value == rs[i]);
        values.push(DataValue::new(value));
    }
    if values.len() != count {
        return Err(Error::internal("unexpected number of read results"));
    }
    Ok(values)
}

/// Takes the value of a read of a single attribute, typed for that attribute.
pub fn read_attribute_result<T: Attribute>(values: Vec<DataValue<Variant>>) -> (r: Result<
    DataValue<T::Value>,
>)
    ensures
        values.len() == 0 ==> r == Err::<DataValue<T::Value>, Error>(
            Error::Internal("should contain exactly one attribute"),
        ),
        values.len() > 0 ==> (r matches Ok(v) && v.spec_inner() == values@.last().spec_inner()),
{
    let mut values = values;
    let Some(value) = values.pop() else {
        return Err(Error::internal("should contain exactly one attribute"));
    };
    Ok(value.cast())
}

/// Request that writes the value attribute of a node.
pub fn write_value_request(node_id: &NodeId, value: ua::DataValue) -> (r: WriteRequest)
    ensures
        r.nodes_to_write.len() == 1,
        r.nodes_to_write@[0].node_id@ == node_id@,
        r.nodes_to_write@[0].attribute_id == AttributeId::spec_value(),
        r.nodes_to_write@[0].value == value,
{
    let mut nodes_to_write: Vec<WriteValue> = Vec::new();
    nodes_to_write.push(
        WriteValue { node_id: node_id.clone(), attribute_id: AttributeId::value(), value },
    );
    WriteRequest { request_header: ua::RequestHeader::init(), nodes_to_write }
}

/// Interprets the response of writing a single value.
pub fn write_value_result(response: &WriteResponse) -> (r: Result<()>)
    ensures
        match response.results {
            None => r == Err::<(), Error>(Error::Internal("write should return results")),
            Some(results) => if results.len() == 0 {
                r == Err::<(), Error>(Error::Internal("write should return a result"))
            } else {
                (r is Ok <==> results@[0].spec_is_good()) && (r matches Err(e) ==> e
                    == Error::Server(results@[0]))
            },
        },
{
    let Some(results) = &response.results else {
        return Err(Error::internal("write should return results"));
    };
    if results.len() == 0 {
        return Err(Error::internal("write should return a result"));
    }
    Error::verify_good(&results[0])
}

/// Request that calls a method on an object.
pub fn call_method_request(object_id: &NodeId, method_id: &NodeId, input_arguments: Vec<Variant>) -> (r:
    CallRequest)
    ensures
        r.methods_to_call.len() == 1,
        r.methods_to_call@[0].object_id@ == object_id@,
        r.methods_to_call@[0].method_id@ == method_id@,
        r.methods_to_call@[0].input_arguments == input_arguments,
{
    let mut methods_to_call: Vec<CallMethodRequest> = Vec::new();
    methods_to_call.push(
        CallMethodRequest {
            object_id: object_id.clone(),
            method_id: method_id.clone(),
            input_arguments,
        },
    );
    CallRequest { request_header: ua::RequestHeader::init(), methods_to_call }
}

/// Takes the output arguments of a single method call.
///
/// Unset output arguments are taken as none.
pub fn call_method_result(response: CallResponse) -> (r: Result<Vec<Variant>>)
    ensures
        match response.results {
            None => r == Err::<Vec<Variant>, Error>(Error::Internal("call should return results")),
            Some(results) => if results.len() == 0 {
                r == Err::<Vec<Variant>, Error>(Error::Internal("call should return a result"))
            } else if !results@[0].status_code.spec_is_good() {
                r == Err::<Vec<Variant>, Error>(Error::Server(results@[0].status_code))
            } else {
                r matches Ok(v) && v@ == match results@[0].output_arguments {
                    Some(o) => o@,
                    None => Seq::empty(),
                }
            },
        },
{
    let Some(results) = response.results else {
        return Err(Error::internal("call should return results"));
    };
    if results.len() == 0 {
        return Err(Error::internal("call should return a result"));
    }
    let mut results = results;
    let result = results.swap_remove(0);
    Error::verify_good(&result.status_code)?;
    match result.output_arguments {
        Some(output_arguments) => Ok(output_arguments),
        None => Ok(Vec::new()),
    }
}

/// `r` is the browse result that `result` stands for.
pub open spec fn browse_result_matches(result: ua::BrowseResult, r: BrowseResult) -> bool {
    if result.status_code.spec_is_good() {
        r matches Ok((references, continuation_point)) && references@ == match result.references {
            Some(v) => v@,
            None => Seq::empty(),
        } && continuation_point == result.continuation_point
    } else {
        r == Err::<(Vec<ReferenceDescription>, Option<ContinuationPoint>), Error>(
            Error::Server(result.status_code),
        )
    }
}

/// Converts the result of browsing one node.
///
/// Some servers leave the references unset when there are none: they are taken as none.
pub fn to_browse_result(result: ua::BrowseResult) -> (r: BrowseResult)
    ensures
        browse_result_matches(result, r),
{
    Error::verify_good(&result.status_code)?;
    let references = match result.references {
        Some(references) => references,
        None => Vec::new(),
    };
    Ok((references, result.continuation_point))
}

/// Request that browses one node.
pub fn browse_request(browse_description: BrowseDescription) -> (r: BrowseRequest)
    ensures
        r.nodes_to_browse@ == seq![browse_description],
{
    let mut nodes_to_browse: Vec<BrowseDescription> = Vec::new();
    nodes_to_browse.push(browse_description);
    assert(nodes_to_browse@ =~= seq![browse_description]);
    BrowseRequest { request_header: ua::RequestHeader::init(), nodes_to_browse }
}

/// Request that browses several nodes.
pub fn browse_many_request(browse_descriptions: Vec<BrowseDescription>) -> (r: BrowseRequest)
    ensures
        r.nodes_to_browse == browse_descriptions,
{
    BrowseRequest { request_header: ua::RequestHeader::init(), nodes_to_browse: browse_descriptions }
}

/// Request that browses continuation points for more references.
pub fn browse_next_request(continuation_points: Vec<ContinuationPoint>) -> (r: BrowseNextRequest)
    ensures
        r.continuation_points == continuation_points,
        !r.release_continuation_points,
{
    BrowseNextRequest {
        request_header: ua::RequestHeader::init(),
        release_continuation_points: false,
        continuation_points,
    }
}

/// Takes the result of browsing one node.
pub fn browse_result(response: BrowseResponse) -> (r: BrowseResult)
    ensures
        match response.results {
            None => r == Err::<(Vec<ReferenceDescription>, Option<ContinuationPoint>), Error>(
                Error::Internal("browse should return results"),
            ),
            Some(results) => if results.len() == 0 {
                r == Err::<(Vec<ReferenceDescription>, Option<ContinuationPoint>), Error>(
                    Error::Internal("browse should return a result"),
                )
            } else {
                browse_result_matches(results@[0], r)
            },
        },
{
    let Some(results) = response.results else {
        return Err(Error::internal("browse should return results"));
    };
    if results.len() == 0 {
        return Err(Error::internal("browse should return a result"));
    }
    let mut results = results;
    let result = results.swap_remove(0);
    to_browse_result(result)
}

/// Takes the results of browsing `count` nodes or continuation points, one per request element.
///
/// This fails when the results are unset, or when their number is not `count`.
pub fn browse_many_results(response: BrowseResponse, count: usize) -> (r: Result<Vec<BrowseResult>>)
    ensures
        match response.results {
            None => r == Err::<Vec<BrowseResult>, Error>(
                Error::Internal("browse should return results"),
            ),
            Some(results) => if results.len() != count {
                r == Err::<Vec<BrowseResult>, Error>(
                    Error::Internal("unexpected number of browse results"),
                )
            } else {
                r matches Ok(v) && v.len() == count && forall|i: int|
                    0 <= i < v.len() ==> browse_result_matches(results@[i], #[trigger] v@[i])
            },
        },
{
    let Some(results) = response.results else {
        return Err(Error::internal("browse should return results"));
    };
    if results.len() != count {
        return Err(Error::internal("unexpected number of browse results"));
    }
    let ghost rs = results@;
    let mut rest = crate::reverse_vec(results);
    let mut out: Vec<BrowseResult> = Vec::new();
    while rest.len() > 0
        invariant
            out.len() + rest.len() == rs.len(),
            forall|k: int| 0 <= k < rest.len() ==> rest@[k] == rs[rs.len() - 1 - k],
            forall|i: int| 0 <= i < out.len() ==> browse_result_matches(rs[i], #[trigger] out@[i]),
        decreases rest.len(),
    {
        let ghost i = out.len() as int;
        let result = rest.pop().unwrap();
        assert(result == rs[i]);
        out.push(to_browse_result(result));
    }
    Ok(out)
}


/// Time that one run of the client's event loop may block, in milliseconds.
pub const RUN_ITERATE_TIMEOUT_MILLIS: u64 = 200;

/// Timeout handed to one run of the client's event loop: the duration in whole milliseconds,
/// saturated to what fits in `u32`.
pub fn run_iterate_timeout_millis(timeout: &Duration) -> (r: u32)
    ensures
        r == (if Duration::spec_millis(timeout@) <= u32::MAX {
            Duration::spec_millis(timeout@)
        } else {
            u32::MAX as nat
        }),
{
    let millis = timeout.as_millis();
    if millis <= 0xffff_ffffu128 {
        millis as u32
    } else {
        u32::MAX
    }
}

/// What the background task of the client does after one run of the event loop.
pub enum BackgroundStep {
    /// The run succeeded: keep going (unless cancelled).
    Continue,
    /// The client was disconnected: stop, this is no error.
    Disconnected,
    /// The connection was closed: stop, this is no error.
    ConnectionClosed,
    /// The run failed otherwise: stop and report the error.
    Failed(Error),
}

/// Decides how the background task goes on after one run of the event loop, from the status
/// code the run returned.
pub fn background_step(status_code: StatusCode) -> (r: BackgroundStep)
    ensures
        r is Continue <==> status_code.spec_is_good(),
        r is Disconnected <==> !status_code.spec_is_good() && status_code
            == StatusCode::spec_bad_disconnect(),
        r is ConnectionClosed <==> !status_code.spec_is_good() && status_code
            == StatusCode::spec_bad_connection_closed(),
        r matches BackgroundStep::Failed(e) ==> e == Error::Server(status_code),
{
    match Error::verify_good(&status_code) {
        Ok(()) => BackgroundStep::Continue,
        Err(error) => {
            if status_code.code() == StatusCode::bad_disconnect().code() {
                BackgroundStep::Disconnected
            } else if status_code.code() == StatusCode::bad_connection_closed().code() {
                BackgroundStep::ConnectionClosed
            } else {
                BackgroundStep::Failed(error)
            }
        },
    }
}

} // verus!
