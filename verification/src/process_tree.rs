//! Descendants of a process in a snapshot of the process table.

use vstd::prelude::*;

verus! {

/// One row of a process-table snapshot: a pid and its parent, if any.
#[derive(Debug, Clone, Copy, PartialEq, Eq, Structural)]
pub struct ProcessLink {
    pub pid: u32,
    pub parent: Option<u32>,
}

/// The snapshot lists `child` with parent `parent`.
pub open spec fn child_of(procs: Seq<ProcessLink>, child: u32, parent: u32) -> bool {
    exists|i: int| 0 <= i < procs.len() && #[trigger] procs[i] == ProcessLink { pid: child, parent: Some(parent) }
}

/// `path` runs from parent to child at every step, over at least one step.
pub open spec fn is_chain(procs: Seq<ProcessLink>, path: Seq<u32>) -> bool {
    &&& path.len() >= 2
    &&& forall|k: int| 0 <= k < path.len() - 1 ==> child_of(procs, #[trigger] path[k + 1], path[k])
}

/// `q` is a child, grandchild, … of `root` in the snapshot.
pub open spec fn descends_from(procs: Seq<ProcessLink>, q: u32, root: u32) -> bool {
    exists|path: Seq<u32>| #[trigger] is_chain(procs, path) && path[0] == root && path.last() == q
}

/// `d[k]` is a child of `root` or of a process listed before it in `d`.
pub open spec fn found_under(procs: Seq<ProcessLink>, root: u32, d: Seq<u32>, k: int) -> bool {
    exists|p: u32|
        #[trigger] child_of(procs, d[k], p) && (p == root || exists|j: int|
            0 <= j < k && d[j] == p)
}

/// `d` lists exactly the descendants of `root`, each once, and each after
/// a process it was found under (unless found directly under `root`).
pub open spec fn descendant_list(procs: Seq<ProcessLink>, root: u32, d: Seq<u32>) -> bool {
    &&& d.no_duplicates()
    &&& forall|q: u32| d.contains(q) <==> descends_from(procs, q, root)
    &&& forall|k: int| 0 <= k < d.len() ==> #[trigger] found_under(procs, root, d, k)
}

/// Appending to a list keeps each earlier entry found under an earlier one.
proof fn lemma_found_under_push(procs: Seq<ProcessLink>, root: u32, d: Seq<u32>, x: u32, k: int)
    requires
        0 <= k < d.len(),
        found_under(procs, root, d, k),
    ensures
        found_under(procs, root, d.push(x), k),
{
    let p = choose|p: u32|
        #[trigger] child_of(procs, d[k], p) && (p == root || exists|j: int| 0 <= j < k && d[j] == p);
    assert(d.push(x)[k] == d[k]);
    if p != root {
        let j = choose|j: int| 0 <= j < k && d[j] == p;
        assert(d.push(x)[j] == p);
    }
    assert(child_of(procs, d.push(x)[k], p));
}

/// A child of `root`, or of a descendant of `root`, descends from `root`.
proof fn lemma_extend(procs: Seq<ProcessLink>, root: u32, p: u32, c: u32)
    requires
        p == root || descends_from(procs, p, root),
        child_of(procs, c, p),
    ensures
        descends_from(procs, c, root),
{
    if p == root {
        let path = seq![root, c];
        assert(is_chain(procs, path)) by {
            assert forall|k: int| 0 <= k < path.len() - 1 implies child_of(
                procs,
                #[trigger] path[k + 1],
                path[k],
            ) by {
                assert(k == 0);
            }
        }
        assert(path.last() == c);
    } else {
        let path = choose|path: Seq<u32>| #[trigger] is_chain(procs, path) && path[0] == root && path.last() == p;
        let longer = path.push(c);
        assert(is_chain(procs, longer)) by {
            assert forall|k: int| 0 <= k < longer.len() - 1 implies child_of(
                procs,
                #[trigger] longer[k + 1],
                longer[k],
            ) by {
                if k < path.len() - 1 {
                    assert(longer[k + 1] == path[k + 1]);
                    assert(longer[k] == path[k]);
                } else {
                    assert(longer[k] == p);
                    assert(longer[k + 1] == c);
                }
            }
        }
        assert(longer[0] == root);
        assert(longer.last() == c);
    }
}

/// If `closed` holds every child of `root` and of each of its own members,
/// every process on a chain from `root` past the start is in `closed`.
proof fn lemma_chain_in_closed(procs: Seq<ProcessLink>, root: u32, closed: Seq<u32>, path: Seq<u32>, k: int)
    requires
        is_chain(procs, path),
        path[0] == root,
        1 <= k < path.len(),
        forall|x: u32, c: u32|
            (x == root || closed.contains(x)) && #[trigger] child_of(procs, c, x) ==> closed.contains(c),
    ensures
        closed.contains(path[k]),
    decreases k,
{
    assert(child_of(procs, path[(k - 1) + 1], path[k - 1]));
    if k > 1 {
        lemma_chain_in_closed(procs, root, closed, path, k - 1);
    }
}

/// Whether `x` occurs in `v`.
fn listed(v: &Vec<u32>, x: u32) -> (r: bool)
    ensures
        r == v@.contains(x),
{
    let n = v.len();
    for i in 0..n
        invariant
            n == v@.len(),
            forall|k: int| 0 <= k < i ==> v@[k] != x,
    {
        if v[i] == x {
            return true;
        }
    }
    false
}

/// The number of distinct processes found is bounded by the snapshot size.
proof fn lemma_found_bounded(procs: Seq<ProcessLink>, root: u32, found: Seq<u32>)
    requires
        found.no_duplicates(),
        forall|k: int| 0 <= k < found.len() ==> #[trigger] found_under(procs, root, found, k),
    ensures
        found.len() <= procs.len(),
{
    let pids = procs.map_values(|l: ProcessLink| l.pid);
    assert(found.to_set().subset_of(pids.to_set())) by {
        assert forall|x: u32| found.to_set().contains(x) implies pids.to_set().contains(x) by {
            let k = choose|k: int| 0 <= k < found.len() && found[k] == x;
            assert(found_under(procs, root, found, k));
            let p = choose|p: u32|
                #[trigger] child_of(procs, found[k], p) && (p == root || exists|j: int|
                    0 <= j < k && found[j] == p);
            let i = choose|i: int| 0 <= i < procs.len() && #[trigger] procs[i] == ProcessLink { pid: x, parent: Some(p) };
            assert(pids[i] == x);
        }
    }
    pids.lemma_cardinality_of_set();
    found.unique_seq_to_set();
    vstd::set_lib::lemma_len_subset(found.to_set(), pids.to_set());
}

/// Number of snapshot rows whose pid is not yet in `found`.
pub open spec fn unvisited(procs: Seq<ProcessLink>, found: Seq<u32>) -> nat
    decreases procs.len(),
{
    if procs.len() == 0 {
        0
    } else {
        unvisited(procs.drop_last(), found) + if found.contains(procs.last().pid) {
            0nat
        } else {
            1nat
        }
    }
}

/// One scan of the snapshot from row `i` on, for children of `parent`:
/// each child not yet found is appended to both `found` and `stack`.
pub open spec fn scan_children(
    procs: Seq<ProcessLink>,
    parent: u32,
    i: nat,
    found: Seq<u32>,
    stack: Seq<u32>,
) -> (Seq<u32>, Seq<u32>)
    decreases procs.len() - i,
{
    if i >= procs.len() {
        (found, stack)
    } else {
        let link = procs[i as int];
        if link.parent == Some(parent) && !found.contains(link.pid) {
            scan_children(procs, parent, i + 1, found.push(link.pid), stack.push(link.pid))
        } else {
            scan_children(procs, parent, i + 1, found, stack)
        }
    }
}

/// Growing the found set never adds unvisited rows, and finding the pid
/// of some row removes at least one.
pub proof fn lemma_unvisited_shrinks(procs: Seq<ProcessLink>, a: Seq<u32>, b: Seq<u32>)
    requires
        forall|x: u32| a.contains(x) ==> b.contains(x),
    ensures
        unvisited(procs, b) <= unvisited(procs, a),
        (exists|i: int| 0 <= i < procs.len() && !a.contains(procs[i].pid) && b.contains(procs[i].pid))
            ==> unvisited(procs, b) < unvisited(procs, a),
    decreases procs.len(),
{
    if procs.len() > 0 {
        lemma_unvisited_shrinks(procs.drop_last(), a, b);
        if exists|i: int| 0 <= i < procs.len() && !a.contains(procs[i].pid) && b.contains(procs[i].pid) {
            let i = choose|i: int| 0 <= i < procs.len() && !a.contains(procs[i].pid) && b.contains(procs[i].pid);
            if i < procs.len() - 1 {
                assert(procs.drop_last()[i] == procs[i]);
            }
        }
    }
}

/// A scan appends the same new pids to `found` and to `stack`; when it
/// finds any, fewer rows stay unvisited.
pub proof fn lemma_scan_progress(
    procs: Seq<ProcessLink>,
    parent: u32,
    i: nat,
    found: Seq<u32>,
    stack: Seq<u32>,
)
    ensures
        ({
            let (f2, s2) = scan_children(procs, parent, i, found, stack);
            &&& f2.len() - found.len() == s2.len() - stack.len()
            &&& f2.len() >= found.len()
            &&& (f2.len() == found.len() ==> f2 == found && s2 == stack)
            &&& (f2.len() > found.len() ==> unvisited(procs, f2) < unvisited(procs, found))
            &&& unvisited(procs, f2) <= unvisited(procs, found)
        }),
    decreases procs.len() - i,
{
    if i < procs.len() {
        let link = procs[i as int];
        if link.parent == Some(parent) && !found.contains(link.pid) {
            let f1 = found.push(link.pid);
            lemma_scan_progress(procs, parent, i + 1, f1, stack.push(link.pid));
            assert forall|x: u32| found.contains(x) implies f1.contains(x) by {
                let j = choose|j: int| 0 <= j < found.len() && found[j] == x;
                assert(f1[j] == x);
            }
            assert(f1[found.len() as int] == link.pid);
            lemma_unvisited_shrinks(procs, found, f1);
        } else {
            lemma_scan_progress(procs, parent, i + 1, found, stack);
        }
    }
}

/// The depth-first traversal: pop the last pid of `stack`, scan the
/// snapshot in order for its children not yet found, repeat until the
/// stack is empty; the result is `found` in discovery order.
pub open spec fn traverse(procs: Seq<ProcessLink>, found: Seq<u32>, stack: Seq<u32>) -> Seq<u32>
    decreases unvisited(procs, found), stack.len(),
{
    if stack.len() == 0 {
        found
    } else {
        let (f2, s2) = scan_children(procs, stack.last(), 0, found, stack.drop_last());
        proof {
            lemma_scan_progress(procs, stack.last(), 0, found, stack.drop_last());
        }
        traverse(procs, f2, s2)
    }
}

/// The descendants of `root` in the order the depth-first traversal from
/// `root` finds them.
pub open spec fn descendant_order(procs: Seq<ProcessLink>, root: u32) -> Seq<u32> {
    traverse(procs, Seq::empty(), seq![root])
}

/// The descendants of `root` in the snapshot, found depth-first from
/// `root` in snapshot order; each is listed once, after the process it was
/// found under.
pub fn collect_descendants(root: u32, procs: &Vec<ProcessLink>) -> (out: Vec<u32>)
    ensures
        out@ == descendant_order(procs@, root),
        descendant_list(procs@, root, out@),
{
    let n = procs.len();
    let mut out: Vec<u32> = Vec::new();
    let mut stack: Vec<u32> = vec![root];
    let ghost order = descendant_order(procs@, root);
    assert(out@ =~= Seq::<u32>::empty());
    assert(stack@ =~= seq![root]);
    while stack.len() > 0
        invariant
            n == procs@.len(),
            traverse(procs@, out@, stack@) == order,
            out@.no_duplicates(),
            forall|x: u32| #[trigger] stack@.contains(x) ==> x == root || out@.contains(x),
            forall|q: u32| #[trigger] out@.contains(q) ==> descends_from(procs@, q, root),
            forall|k: int| 0 <= k < out@.len() ==> #[trigger] found_under(procs@, root, out@, k),
            forall|x: u32, c: u32|
                (x == root || out@.contains(x)) && !stack@.contains(x) && #[trigger] child_of(
                    procs@,
                    c,
                    x,
                ) ==> out@.contains(c),
        decreases n - out@.len(), stack@.len(),
    {
        proof {
            lemma_found_bounded(procs@, root, out@);
        }
        let ghost out0 = out@;
        let ghost stack0 = stack@;
        let p = stack.pop().unwrap();
        assert(stack@ == stack0.drop_last());
        proof {
            assert(stack0.contains(p)) by {
                assert(stack0[stack0.len() - 1] == p);
            }
            assert forall|x: u32| #[trigger] stack@.contains(x) implies stack0.contains(x) by {
                let j = choose|j: int| 0 <= j < stack@.len() && stack@[j] == x;
                assert(stack0[j] == x);
            }
            assert forall|x: u32| #[trigger] stack0.contains(x) implies stack@.contains(x) || x == p by {
                let j = choose|j: int| 0 <= j < stack0.len() && stack0[j] == x;
                if j < stack@.len() {
                    assert(stack@[j] == x);
                }
            }
        }
        for i in 0..n
            invariant
                n == procs@.len(),
                scan_children(procs@, p, i as nat, out@, stack@) == scan_children(
                    procs@,
                    p,
                    0,
                    out0,
                    stack0.drop_last(),
                ),
                traverse(procs@, out0, stack0) == order,
                stack0.len() > 0,
                stack0.last() == p,
                p == root || out@.contains(p),
                out0.len() <= out@.len(),
                out@.subrange(0, out0.len() as int) == out0,
                stack@.len() + out0.len() == stack0.len() - 1 + out@.len(),
                out@.no_duplicates(),
                forall|x: u32| #[trigger] stack@.contains(x) ==> x == root || out@.contains(x),
                forall|q: u32| #[trigger] out@.contains(q) ==> descends_from(procs@, q, root),
                forall|k: int| 0 <= k < out@.len() ==> #[trigger] found_under(procs@, root, out@, k),
                forall|x: u32, c: u32|
                    x != p && (x == root || out@.contains(x)) && !stack@.contains(x)
                        && #[trigger] child_of(procs@, c, x) ==> out@.contains(c),
                forall|t: int|
                    0 <= t < i && #[trigger] procs@[t].parent == Some(p) ==> out@.contains(
                        procs@[t].pid,
                    ),
                forall|x: u32| #[trigger] out0.contains(x) ==> out@.contains(x),
                forall|x: u32| #[trigger] out@.contains(x) && !out0.contains(x) ==> stack@.contains(x),
        {
            let link = procs[i];
            if link.parent == Some(p) {
                let child = link.pid;
                if !listed(&out, child) {
                    let ghost before = out@;
                    let ghost stack_before = stack@;
                    proof {
                        assert(child_of(procs@, child, p)) by {
                            assert(procs@[i as int] == ProcessLink { pid: child, parent: Some(p) });
                        }
                        lemma_extend(procs@, root, p, child);
                    }
                    out.push(child);
                    stack.push(child);
                    proof {
                        assert forall|x: u32| #[trigger] out@.contains(x) <==> (before.contains(x) || x == child) by {
                            if out@.contains(x) {
                                let j = choose|j: int| 0 <= j < out@.len() && out@[j] == x;
                                if j < before.len() {
                                    assert(before[j] == x);
                                }
                            }
                            if before.contains(x) {
                                let j = choose|j: int| 0 <= j < before.len() && before[j] == x;
                                assert(out@[j] == x);
                            }
                            if x == child {
                                assert(out@[before.len() as int] == x);
                            }
                        }
                        assert(out@.subrange(0, out0.len() as int) =~= out0);
                        assert forall|k: int| 0 <= k < out@.len() implies #[trigger] found_under(
                            procs@,
                            root,
                            out@,
                            k,
                        ) by {
                            if k < before.len() {
                                lemma_found_under_push(procs@, root, before, child, k);
                            } else {
                                assert(out@[k] == child);
                                assert(child_of(procs@, out@[k], p));
                                if p != root {
                                    let j = choose|j: int| 0 <= j < before.len() && before[j] == p;
                                    assert(out@[j] == p);
                                }
                            }
                        }
                        assert forall|x: u32| #[trigger] stack@.contains(x) <==> (stack_before.contains(x) || x == child) by {
                            if stack@.contains(x) {
                                let j = choose|j: int| 0 <= j < stack@.len() && stack@[j] == x;
                                if j < stack_before.len() {
                                    assert(stack_before[j] == x);
                                }
                            }
                            if stack_before.contains(x) {
                                let j = choose|j: int| 0 <= j < stack_before.len() && stack_before[j] == x;
                                assert(stack@[j] == x);
                            }
                            if x == child {
                                assert(stack@[stack_before.len() as int] == x);
                            }
                        }
                    }
                }
            }
        }
        proof {
            assert forall|x: u32, c: u32|
                (x == root || out@.contains(x)) && !stack@.contains(x) && #[trigger] child_of(
                    procs@,
                    c,
                    x,
                ) implies out@.contains(c) by {
                if x == p {
                    let t = choose|t: int| 0 <= t < procs@.len() && #[trigger] procs@[t] == ProcessLink { pid: c, parent: Some(x) };
                    assert(procs@[t].parent == Some(p));
                }
            }
            assert forall|x: u32| #[trigger] stack@.contains(x) implies x == root || out@.contains(x) by {
            }
            lemma_found_bounded(procs@, root, out@);
            assert(out@.len() >= out0.len());
        }
    }
    proof {
        assert forall|q: u32| out@.contains(q) <==> descends_from(procs@, q, root) by {
            if descends_from(procs@, q, root) {
                let path = choose|path: Seq<u32>| #[trigger] is_chain(procs@, path) && path[0] == root && path.last() == q;
                lemma_chain_in_closed(procs@, root, out@, path, path.len() - 1);
            }
        }
    }
    out
}

} // verus!
