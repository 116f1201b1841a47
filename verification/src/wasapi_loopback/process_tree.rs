//! Process trees: loopback capture addresses a process together with all that it started, so a
//! process whose ancestor is addressed as well is not named a second time.

use vstd::prelude::*;

use crate::text::texts;
use crate::types::{StreamConfig, StreamConfigView};
use crate::wasapi_loopback::process::{
    find_pids_by_name_substrings, infos, processes_by_substrings, snapshot_entries, ProcessEntry,
    ProcessInfo, ProcessInfoView,
};

verus! {

// ---------------------------------------------------------------------------
// Ancestors
// ---------------------------------------------------------------------------

/// The process that started another, where the other is in the snapshot.
pub open spec fn parent_of(entries: Seq<ProcessEntry>, pid: u32) -> Option<u32>
    decreases entries.len(),
{
    if entries.len() == 0 {
        None
    } else if entries[0].pid == pid {
        Some(entries[0].parent_pid)
    } else {
        parent_of(entries.skip(1), pid)
    }
}

/// The ancestor `n` generations up, where the snapshot leads that far.
pub open spec fn ancestor(entries: Seq<ProcessEntry>, pid: u32, n: nat) -> Option<u32>
    decreases n,
{
    if n == 0 {
        Some(pid)
    } else {
        match ancestor(entries, pid, (n - 1) as nat) {
            Some(a) => parent_of(entries, a),
            None => None,
        }
    }
}

/// Whether `pid` was started by `other`, or by one that `other` started, and so on.
pub open spec fn descends_from(entries: Seq<ProcessEntry>, pid: u32, other: u32) -> bool {
    exists|n: nat| n >= 1 && #[trigger] ancestor(entries, pid, n) == Some(other)
}

proof fn ancestors_add_up(entries: Seq<ProcessEntry>, pid: u32, m: nat, n: nat)
    requires
        ancestor(entries, pid, m) is Some,
    ensures
        ancestor(entries, pid, m + n) == ancestor(entries, ancestor(entries, pid, m)->0, n),
    decreases n,
{
    if n > 0 {
        ancestors_add_up(entries, pid, m, (n - 1) as nat);
    }
}

proof fn ancestors_lead_up(entries: Seq<ProcessEntry>, pid: u32, m: nat, n: nat)
    requires
        m <= n,
        ancestor(entries, pid, n) is Some,
    ensures
        ancestor(entries, pid, m) is Some,
    decreases n - m,
{
    if m < n {
        ancestors_lead_up(entries, pid, m + 1, n);
    }
}

/// The parent of a process is the one that its entry names, wherever the entry stands; of several
/// entries for one process the first counts. A process has no parent exactly where no entry is
/// there for it.
pub proof fn parents_are_found_anywhere(entries: Seq<ProcessEntry>, pid: u32, i: int)
    ensures
        0 <= i < entries.len() && entries[i].pid == pid && (forall|j: int|
            0 <= j < i ==> (#[trigger] entries[j]).pid != pid) ==> parent_of(entries, pid) == Some(
            entries[i].parent_pid,
        ),
        parent_of(entries, pid) is None <==> forall|j: int|
            0 <= j < entries.len() ==> (#[trigger] entries[j]).pid != pid,
    decreases entries.len(),
{
    if entries.len() > 0 {
        let rest: Seq<ProcessEntry> = entries.skip(1);
        parents_are_found_anywhere(rest, pid, i - 1);
        assert forall|j: int| 0 <= j < rest.len() implies #[trigger] rest[j] == entries[j + 1] by {
        }
        if parent_of(rest, pid) is None && entries[0].pid != pid {
            assert forall|j: int| 0 <= j < entries.len() implies (#[trigger] entries[j]).pid
                != pid by {
                if j > 0 {
                    assert(rest[j - 1].pid != pid);
                }
            }
        }
        if forall|j: int| 0 <= j < entries.len() ==> (#[trigger] entries[j]).pid != pid {
            assert(entries[0].pid != pid);
            assert forall|j: int| 0 <= j < rest.len() implies (#[trigger] rest[j]).pid != pid by {
                assert(entries[j + 1].pid != pid);
            }
        }
        if i > 0 && i < entries.len() && (forall|j: int|
            0 <= j < i ==> (#[trigger] entries[j]).pid != pid) {
            assert(entries[0].pid != pid);
            assert forall|j: int| 0 <= j < i - 1 implies (#[trigger] rest[j]).pid != pid by {
                assert(entries[j + 1].pid != pid);
            }
            assert(rest[i - 1] == entries[i]);
        }
    }
}

/// Where no two entries are for the same process, each process descends from the one that its
/// entry names, whatever the order of the entries and of the identifiers.
pub proof fn children_descend_from_their_parents(entries: Seq<ProcessEntry>, i: int)
    requires
        forall|j: int, k: int|
            0 <= j < k < entries.len() ==> (#[trigger] entries[j]).pid != (
            #[trigger] entries[k]).pid,
        0 <= i < entries.len(),
    ensures
        parent_of(entries, entries[i].pid) == Some(entries[i].parent_pid),
        descends_from(entries, entries[i].pid, entries[i].parent_pid),
{
    parents_are_found_anywhere(entries, entries[i].pid, i);
    descent_is_by_parents(entries, entries[i].pid, entries[i].parent_pid);
}

/// A process descends from its parent and from those from which its parent descends, and from no
/// other; one without a parent descends from none.
pub proof fn descent_is_by_parents(entries: Seq<ProcessEntry>, pid: u32, other: u32)
    ensures
        descends_from(entries, pid, other) <==> (parent_of(entries, pid) matches Some(parent) && (
        parent == other || descends_from(entries, parent, other))),
{
    reveal_with_fuel(ancestor, 2);
    assert(ancestor(entries, pid, 0) == Some(pid));
    assert(ancestor(entries, pid, 1) == parent_of(entries, pid));
    if let Some(parent) = parent_of(entries, pid) {
        if descends_from(entries, parent, other) {
            let n: nat = choose|n: nat| n >= 1 && #[trigger] ancestor(entries, parent, n) == Some(
                other,
            );
            ancestors_add_up(entries, pid, 1, n);
            assert(ancestor(entries, pid, 1 + n) == Some(other));
        }
    }
    if descends_from(entries, pid, other) {
        let n: nat = choose|n: nat| n >= 1 && #[trigger] ancestor(entries, pid, n) == Some(other);
        ancestors_lead_up(entries, pid, 1, n);
        if n > 1 {
            let parent: u32 = parent_of(entries, pid)->0;
            ancestors_add_up(entries, pid, 1, (n - 1) as nat);
            assert(ancestor(entries, parent, (n - 1) as nat) == Some(other));
        }
    }
}

/// Descent is transitive.
pub proof fn descent_is_transitive(entries: Seq<ProcessEntry>, a: u32, b: u32, c: u32)
    requires
        descends_from(entries, a, b),
        descends_from(entries, b, c),
    ensures
        descends_from(entries, a, c),
{
    let m: nat = choose|m: nat| m >= 1 && #[trigger] ancestor(entries, a, m) == Some(b);
    let n: nat = choose|n: nat| n >= 1 && #[trigger] ancestor(entries, b, n) == Some(c);
    ancestors_add_up(entries, a, m, n);
    assert(ancestor(entries, a, m + n) == Some(c));
}

spec fn listed_pids(entries: Seq<ProcessEntry>) -> Seq<u32> {
    entries.map_values(|e: ProcessEntry| e.pid)
}

proof fn parents_are_of_listed(entries: Seq<ProcessEntry>, pid: u32)
    requires
        parent_of(entries, pid) is Some,
    ensures
        listed_pids(entries).contains(pid),
    decreases entries.len(),
{
    if entries[0].pid == pid {
        assert(listed_pids(entries)[0] == pid);
    } else {
        let rest: Seq<ProcessEntry> = entries.skip(1);
        parents_are_of_listed(rest, pid);
        let i: int = choose|i: int| 0 <= i < rest.len() && listed_pids(rest)[i] == pid;
        assert(listed_pids(entries)[i + 1] == pid);
    }
}

/// An ancestor that is found at all is found within as many generations as there are processes:
/// beyond that the line of ancestors goes in circles.
proof fn ancestors_are_near(entries: Seq<ProcessEntry>, pid: u32, other: u32, n: nat)
    requires
        n >= 1,
        ancestor(entries, pid, n) == Some(other),
    ensures
        exists|m: nat|
            1 <= m <= entries.len() && #[trigger] ancestor(entries, pid, m) == Some(other),
    decreases n,
{
    if n <= entries.len() {
        assert(ancestor(entries, pid, n) == Some(other));
    } else {
        let line: Seq<u32> = Seq::new(n, |i: int| ancestor(entries, pid, i as nat)->0);
        let pids: Seq<u32> = listed_pids(entries);
        assert forall|i: int| 0 <= i < n implies pids.contains(#[trigger] line[i]) by {
            ancestors_lead_up(entries, pid, (i + 1) as nat, n);
            ancestors_lead_up(entries, pid, i as nat, n);
            parents_are_of_listed(entries, line[i]);
        }
        if line.no_duplicates() {
            line.unique_seq_to_set();
            pids.lemma_cardinality_of_set();
            assert(line.to_set().subset_of(pids.to_set())) by {
                assert forall|x: u32| line.to_set().contains(x) implies pids.to_set().contains(
                    x,
                ) by {
                    let i: int = choose|i: int| 0 <= i < line.len() && line[i] == x;
                    assert(pids.contains(line[i]));
                }
            }
            vstd::set_lib::lemma_len_subset(line.to_set(), pids.to_set());
            assert(false);
        }
        let (i, j): (int, int) = choose|i: int, j: int|
            0 <= i < line.len() && 0 <= j < line.len() && i != j && line[i] == line[j];
        let (i, j): (int, int) = if i < j {
            (i, j)
        } else {
            (j, i)
        };
        ancestors_lead_up(entries, pid, i as nat, n);
        ancestors_lead_up(entries, pid, j as nat, n);
        let rest: nat = (n - j) as nat;
        ancestors_add_up(entries, pid, i as nat, rest);
        ancestors_add_up(entries, pid, j as nat, rest);
        ancestors_are_near(entries, pid, other, (i + rest) as nat);
    }
}

fn find_parent(entries: &Vec<ProcessEntry>, pid: u32) -> (parent: Option<u32>)
    ensures
        parent == parent_of(entries@, pid),
        parent is None <==> forall|i: int|
            0 <= i < entries@.len() ==> (#[trigger] entries@[i]).pid != pid,
{
    let mut i: usize = 0;
    proof {
        parents_are_found_anywhere(entries@, pid, 0);
        assert(entries@.skip(0) =~= entries@);
    }
    while i < entries.len()
        invariant
            i <= entries@.len(),
            parent_of(entries@, pid) == parent_of(entries@.skip(i as int), pid),
        decreases entries.len() - i,
    {
        proof {
            assert(entries@.skip(i as int).skip(1) =~= entries@.skip(i + 1));
        }
        if entries[i].pid == pid {
            return Some(entries[i].parent_pid);
        }
        i = i + 1;
    }
    None
}

/// Whether `pid` was started by `other`, or by one that `other` started, and so on.
pub fn is_descendant(entries: &Vec<ProcessEntry>, pid: u32, other: u32) -> (descends: bool)
    ensures
        descends == descends_from(entries@, pid, other),
{
    let mut current: u32 = pid;
    let mut n: usize = 0;
    while n < entries.len()
        invariant
            n <= entries@.len(),
            ancestor(entries@, pid, n as nat) == Some(current),
            forall|m: nat|
                1 <= m <= n ==> #[trigger] ancestor(entries@, pid, m) != Some(other),
        decreases entries.len() - n,
    {
        match find_parent(entries, current) {
            Some(parent) => {
                proof {
                    assert(ancestor(entries@, pid, (n + 1) as nat) == Some(parent));
                }
                if parent == other {
                    return true;
                }
                current = parent;
            },
            None => {
                proof {
                    assert(ancestor(entries@, pid, (n + 1) as nat) is None);
                    if descends_from(entries@, pid, other) {
                        let m: nat = choose|m: nat|
                            m >= 1 && #[trigger] ancestor(entries@, pid, m) == Some(other);
                        if m > n {
                            ancestors_lead_up(entries@, pid, (n + 1) as nat, m);
                        }
                    }
                }
                return false;
            },
        }
        n = n + 1;
    }
    proof {
        if descends_from(entries@, pid, other) {
            let m: nat = choose|m: nat|
                m >= 1 && #[trigger] ancestor(entries@, pid, m) == Some(other);
            ancestors_are_near(entries@, pid, other, m);
        }
    }
    false
}

// ---------------------------------------------------------------------------
// The roots of a list of processes
// ---------------------------------------------------------------------------

/// Whether `pid` is one of `roots` or descends from one of them.
pub open spec fn covered(entries: Seq<ProcessEntry>, roots: Seq<u32>, pid: u32) -> bool {
    exists|i: int|
        0 <= i < roots.len() && (#[trigger] roots[i] == pid || descends_from(
            entries,
            pid,
            roots[i],
        ))
}

/// `roots` with `pid`: as they are where they cover it, otherwise with it in place of those that
/// descend from it.
pub open spec fn with_root(entries: Seq<ProcessEntry>, roots: Seq<u32>, pid: u32) -> Seq<u32> {
    if covered(entries, roots, pid) {
        roots
    } else {
        roots.filter(|r: u32| !descends_from(entries, r, pid)).push(pid)
    }
}

/// The processes of a list that are not in the tree of another one of the list.
pub open spec fn tree_roots(entries: Seq<ProcessEntry>, pids: Seq<u32>) -> Seq<u32>
    decreases pids.len(),
{
    if pids.len() == 0 {
        seq![]
    } else {
        with_root(entries, tree_roots(entries, pids.drop_last()), pids.last())
    }
}

fn is_covered(entries: &Vec<ProcessEntry>, roots: &Vec<u32>, pid: u32) -> (found: bool)
    ensures
        found == covered(entries@, roots@, pid),
{
    let mut i: usize = 0;
    while i < roots.len()
        invariant
            i <= roots@.len(),
            forall|j: int|
                0 <= j < i ==> #[trigger] roots@[j] != pid && !descends_from(
                    entries@,
                    pid,
                    roots@[j],
                ),
        decreases roots.len() - i,
    {
        if roots[i] == pid || is_descendant(entries, pid, roots[i]) {
            return true;
        }
        i = i + 1;
    }
    false
}

fn without_descendants(entries: &Vec<ProcessEntry>, roots: &Vec<u32>, pid: u32) -> (kept: Vec<u32>)
    ensures
        kept@ == roots@.filter(|r: u32| !descends_from(entries@, r, pid)),
{
    let ghost wanted = |r: u32| !descends_from(entries@, r, pid);
    let mut kept: Vec<u32> = Vec::new();
    let mut i: usize = 0;
    proof {
        reveal(Seq::filter);
    }
    while i < roots.len()
        invariant
            i <= roots@.len(),
            wanted == (|r: u32| !descends_from(entries@, r, pid)),
            kept@ == roots@.take(i as int).filter(wanted),
        decreases roots.len() - i,
    {
        proof {
            reveal(Seq::filter);
            assert(roots@.take(i + 1).drop_last() =~= roots@.take(i as int));
        }
        if !is_descendant(entries, roots[i], pid) {
            kept.push(roots[i]);
        }
        i = i + 1;
    }
    proof {
        assert(roots@.take(i as int) =~= roots@);
    }
    kept
}

/// The processes of a list without those in the tree of another one, each once.
pub fn deduplicate_pids_by_tree(pids: &Vec<u32>, entries: &Vec<ProcessEntry>) -> (roots: Vec<u32>)
    ensures
        roots@ == tree_roots(entries@, pids@),
{
    let mut roots: Vec<u32> = Vec::new();
    let mut i: usize = 0;
    while i < pids.len()
        invariant
            i <= pids@.len(),
            roots@ == tree_roots(entries@, pids@.take(i as int)),
        decreases pids.len() - i,
    {
        proof {
            assert(pids@.take(i + 1).drop_last() =~= pids@.take(i as int));
        }
        let pid: u32 = pids[i];
        if !is_covered(entries, &roots, pid) {
            roots = without_descendants(entries, &roots, pid);
            roots.push(pid);
        }
        i = i + 1;
    }
    proof {
        assert(pids@.take(i as int) =~= pids@);
    }
    roots
}

proof fn filter_keeps(s: Seq<u32>, keep: spec_fn(u32) -> bool)
    ensures
        forall|x: u32| #[trigger] s.filter(keep).contains(x) <==> s.contains(x) && keep(x),
        s.no_duplicates() ==> s.filter(keep).no_duplicates(),
    decreases s.len(),
{
    reveal(Seq::filter);
    if s.len() > 0 {
        let rest: Seq<u32> = s.drop_last();
        let last: u32 = s.last();
        filter_keeps(rest, keep);
        assert(s =~= rest.push(last));
        assert forall|x: u32| #[trigger] s.filter(keep).contains(x) <==> s.contains(x) && keep(
            x,
        ) by {
            contains_push(rest, last, x);
            contains_push(rest.filter(keep), last, x);
        }
        if s.no_duplicates() {
            assert(rest.no_duplicates());
            assert(!rest.contains(last));
            assert(!rest.filter(keep).contains(last));
        }
    }
}

proof fn contains_push(s: Seq<u32>, last: u32, x: u32)
    ensures
        s.push(last).contains(x) <==> s.contains(x) || x == last,
{
    if s.contains(x) {
        let i: int = choose|i: int| 0 <= i < s.len() && s[i] == x;
        assert(s.push(last)[i] == x);
    }
    if x == last {
        assert(s.push(last)[s.len() as int] == x);
    }
}

/// Whether each process is there once and none descends from another.
pub open spec fn trees_apart(entries: Seq<ProcessEntry>, roots: Seq<u32>) -> bool {
    &&& roots.no_duplicates()
    &&& forall|a: u32, b: u32|
        roots.contains(a) && roots.contains(b) && a != b ==> !#[trigger] descends_from(
            entries,
            a,
            b,
        )
}

/// The roots of a list stand for all of it: each is of the list, each process of the list is in
/// the tree of a root, and no two of the trees overlap.
pub proof fn roots_stand_for_all(entries: Seq<ProcessEntry>, pids: Seq<u32>)
    ensures
        trees_apart(entries, tree_roots(entries, pids)),
        forall|p: u32| #[trigger] tree_roots(entries, pids).contains(p) ==> pids.contains(p),
        forall|p: u32|
            pids.contains(p) ==> #[trigger] covered(entries, tree_roots(entries, pids), p),
    decreases pids.len(),
{
    if pids.len() > 0 {
        let before: Seq<u32> = tree_roots(entries, pids.drop_last());
        let last: u32 = pids.last();
        let after: Seq<u32> = tree_roots(entries, pids);
        roots_stand_for_all(entries, pids.drop_last());
        assert(pids =~= pids.drop_last().push(last));
        assert forall|p: u32| #[trigger] pids.drop_last().contains(p) implies pids.contains(p) by {
            contains_push(pids.drop_last(), last, p);
        }
        contains_push(pids.drop_last(), last, last);
        if !covered(entries, before, last) {
            let keep = |r: u32| !descends_from(entries, r, last);
            let kept: Seq<u32> = before.filter(keep);
            filter_keeps(before, keep);
            assert(after == kept.push(last));
            assert forall|p: u32| #[trigger] after.contains(p) <==> kept.contains(p) || p
                == last by {
                contains_push(kept, last, p);
            }
            assert(!kept.contains(last)) by {
                if kept.contains(last) {
                    let i: int = choose|i: int| 0 <= i < before.len() && before[i] == last;
                    assert(covered(entries, before, last));
                }
            }
            assert forall|a: u32, b: u32|
                after.contains(a) && after.contains(b) && a != b implies !#[trigger] descends_from(
                entries,
                a,
                b,
            ) by {
                if a == last {
                    let i: int = choose|i: int| 0 <= i < before.len() && before[i] == b;
                    assert(before[i] == b);
                }
            }
            assert forall|p: u32| pids.contains(p) implies #[trigger] covered(
                entries,
                after,
                p,
            ) by {
                contains_push(pids.drop_last(), last, p);
                assert(after[kept.len() as int] == last);
                if p != last {
                    assert(covered(entries, before, p));
                    let i: int = choose|i: int|
                        0 <= i < before.len() && (#[trigger] before[i] == p || descends_from(
                            entries,
                            p,
                            before[i],
                        ));
                    let root: u32 = before[i];
                    assert(before.contains(root));
                    if keep(root) {
                        assert(after.contains(root));
                        let j: int = choose|j: int| 0 <= j < after.len() && after[j] == root;
                        assert(after[j] == root);
                    } else if root != p {
                        descent_is_transitive(entries, p, root, last);
                    }
                }
            }
        } else {
            assert forall|p: u32| pids.contains(p) implies #[trigger] covered(
                entries,
                after,
                p,
            ) by {
                contains_push(pids.drop_last(), last, p);
            }
        }
    }
}

/// One process per tree: each process of a list is one of the roots or descends from one, each
/// root is of the list, none is there twice and none descends from another.
pub proof fn trees_are_named_once(entries: Seq<ProcessEntry>, pids: Seq<u32>, pid: u32, i: int, j: int)
    ensures
        pids.contains(pid) ==> exists|k: int|
            0 <= k < tree_roots(entries, pids).len() && (#[trigger] tree_roots(entries, pids)[k]
                == pid || descends_from(entries, pid, tree_roots(entries, pids)[k])),
        tree_roots(entries, pids).contains(pid) ==> pids.contains(pid),
        0 <= i < tree_roots(entries, pids).len() && 0 <= j < tree_roots(entries, pids).len() && i
            != j ==> tree_roots(entries, pids)[i] != tree_roots(entries, pids)[j]
            && !descends_from(
            entries,
            tree_roots(entries, pids)[i],
            tree_roots(entries, pids)[j],
        ),
{
    let roots: Seq<u32> = tree_roots(entries, pids);
    roots_stand_for_all(entries, pids);
    if pids.contains(pid) {
        assert(covered(entries, roots, pid));
        let k: int = choose|k: int|
            0 <= k < roots.len() && (#[trigger] roots[k] == pid || descends_from(
                entries,
                pid,
                roots[k],
            ));
        assert(roots[k] == pid || descends_from(entries, pid, roots[k]));
    }
    if 0 <= i < roots.len() && 0 <= j < roots.len() && i != j {
        assert(roots.contains(roots[i]));
        assert(roots.contains(roots[j]));
    }
}

/// Processes of which none descends from another, and none is there twice, all stay, in their
/// order.
pub proof fn separate_trees_stay(entries: Seq<ProcessEntry>, pids: Seq<u32>)
    requires
        forall|i: int, j: int|
            0 <= i < pids.len() && 0 <= j < pids.len() && i != j ==> #[trigger] pids[i]
                != #[trigger] pids[j] && !descends_from(entries, pids[i], pids[j]),
    ensures
        tree_roots(entries, pids) == pids,
    decreases pids.len(),
{
    if pids.len() > 0 {
        let rest: Seq<u32> = pids.drop_last();
        let last: u32 = pids.last();
        assert forall|i: int, j: int|
            0 <= i < rest.len() && 0 <= j < rest.len() && i != j implies #[trigger] rest[i]
            != #[trigger] rest[j] && !descends_from(entries, rest[i], rest[j]) by {
            assert(pids[i] == rest[i] && pids[j] == rest[j]);
        }
        separate_trees_stay(entries, rest);
        assert(!covered(entries, rest, last)) by {
            if covered(entries, rest, last) {
                let k: int = choose|k: int|
                    0 <= k < rest.len() && (#[trigger] rest[k] == last || descends_from(
                        entries,
                        last,
                        rest[k],
                    ));
                assert(pids[k] == rest[k] && pids[pids.len() - 1] == last);
            }
        }
        let keep = |r: u32| !descends_from(entries, r, last);
        assert forall|i: int| 0 <= i < rest.len() implies keep(#[trigger] rest[i]) by {
            assert(pids[i] == rest[i] && pids[pids.len() - 1] == last);
        }
        filter_keeps_all(rest, keep);
        assert(rest.push(last) =~= pids);
    } else {
        assert(tree_roots(entries, pids) =~= pids);
    }
}

proof fn filter_keeps_all(s: Seq<u32>, keep: spec_fn(u32) -> bool)
    requires
        forall|i: int| 0 <= i < s.len() ==> keep(#[trigger] s[i]),
    ensures
        s.filter(keep) == s,
    decreases s.len(),
{
    reveal(Seq::filter);
    if s.len() > 0 {
        let rest: Seq<u32> = s.drop_last();
        assert forall|i: int| 0 <= i < rest.len() implies keep(#[trigger] rest[i]) by {
            assert(rest[i] == s[i]);
        }
        filter_keeps_all(rest, keep);
        assert(keep(s[s.len() - 1]));
        assert(rest.push(s.last()) =~= s);
    } else {
        assert(s.filter(keep) =~= s);
    }
}

// ---------------------------------------------------------------------------
// The processes that a stream leaves out
// ---------------------------------------------------------------------------

/// The processes that a configuration names: by identifier where it gives identifiers, otherwise
/// by name.
pub open spec fn named_pids(config: StreamConfigView, entries: Seq<ProcessEntry>) -> Seq<u32> {
    if config.excluded_app_pids matches Some(pids) && pids.len() > 0 {
        config.excluded_app_pids->0.map_values(|p: i32| p as u32)
    } else if config.excluded_app_names matches Some(names) && names.len() > 0 {
        processes_by_substrings(entries, config.excluded_app_names->0).map_values(
            |p: ProcessInfoView| p.pid,
        )
    } else {
        seq![]
    }
}

/// A configuration that gives process identifiers names those, as they are read without a sign,
/// and no others. Only one that gives none names processes by name, and one that gives neither
/// names none.
pub proof fn identifiers_go_before_names(
    config: StreamConfigView,
    entries: Seq<ProcessEntry>,
    i: int,
)
    ensures
        config.excluded_app_pids matches Some(pids) ==> pids.len() > 0 ==> {
            let named = named_pids(config, entries);
            &&& named.len() == pids.len()
            &&& 0 <= i < pids.len() && pids[i] >= 0 ==> named[i] == pids[i]
            &&& 0 <= i < pids.len() && pids[i] < 0 ==> named[i] == pids[i] + 0x1_0000_0000
        },
        config.excluded_app_pids is None || config.excluded_app_pids->0.len() == 0 ==> {
            let named = named_pids(config, entries);
            &&& config.excluded_app_names matches Some(names) ==> {
                let found = processes_by_substrings(entries, names);
                &&& named.len() == if names.len() > 0 {
                    found.len()
                } else {
                    0
                }
                &&& 0 <= i < named.len() ==> named[i] == found[i].pid
            }
            &&& config.excluded_app_names is None ==> named.len() == 0
        },
{
    if let Some(pids) = config.excluded_app_pids {
        if 0 <= i < pids.len() {
            let p: i32 = pids[i];
            assert(p as u32 == if p >= 0 {
                p as int
            } else {
                p + 0x1_0000_0000
            }) by (bit_vector);
        }
    }
}

/// The processes whose trees a stream leaves out, one per tree.
pub fn resolve_excluded_pids(
    config: &StreamConfig,
    snapshot: &Option<Vec<ProcessEntry>>,
) -> (pids: Vec<u32>)
    ensures
        pids@ == tree_roots(
            snapshot_entries(*snapshot),
            named_pids(config@, snapshot_entries(*snapshot)),
        ),
{
    let none: Vec<ProcessEntry> = Vec::new();
    let entries: &Vec<ProcessEntry> = match snapshot {
        Some(entries) => entries,
        None => {
            proof {
                assert(none@ =~= snapshot_entries(*snapshot));
            }
            &none
        },
    };
    match &config.excluded_app_pids {
        Some(pids) => {
            if !pids.is_empty() {
                let mut raw: Vec<u32> = Vec::new();
                let mut i: usize = 0;
                while i < pids.len()
                    invariant
                        i <= pids@.len(),
                        raw@.len() == i,
                        forall|j: int| 0 <= j < i ==> #[trigger] raw@[j] == pids@[j] as u32,
                    decreases pids.len() - i,
                {
                    raw.push(pids[i] as u32);
                    i = i + 1;
                }
                proof {
                    assert(raw@ =~= named_pids(config@, snapshot_entries(*snapshot)));
                }
                return deduplicate_pids_by_tree(&raw, entries);
            }
        },
        None => {},
    }
    match &config.excluded_app_names {
        Some(names) => {
            if !names.is_empty() {
                let found: Vec<ProcessInfo> = find_pids_by_name_substrings(names, snapshot);
                let mut raw: Vec<u32> = Vec::new();
                let mut i: usize = 0;
                while i < found.len()
                    invariant
                        i <= found@.len(),
                        raw@.len() == i,
                        forall|j: int| 0 <= j < i ==> #[trigger] raw@[j] == found@[j].pid,
                    decreases found.len() - i,
                {
                    raw.push(found[i].pid);
                    i = i + 1;
                }
                proof {
                    assert(raw@ =~= infos(found@).map_values(|p: ProcessInfoView| p.pid));
                    assert(raw@ =~= named_pids(config@, snapshot_entries(*snapshot)));
                }
                return deduplicate_pids_by_tree(&raw, entries);
            }
        },
        None => {},
    }
    Vec::new()
}

} // verus!
