//! Running processes: which of them go by a name, and which belong to the tree of another.

use vstd::prelude::*;

use crate::text::{
    any_equals, any_occurs_in, before_nul, before_nul_is_prefix, from_utf16_lossy, lowercase,
    some_occurs_in, texts, to_lowercase, utf16_lossy,
};

verus! {

/// One process of a snapshot: its identifier, that of the process which started it, and the
/// NUL-terminated name of its executable file.
pub struct ProcessEntry {
    pub pid: u32,
    pub parent_pid: u32,
    pub exe_file: Vec<u16>,
}

/// A process with its identifier and the name of its executable file.
#[derive(Clone, Debug)]
pub struct ProcessInfo {
    pub pid: u32,
    pub exe_name: String,
}

/// What a [`ProcessInfo`] says.
pub struct ProcessInfoView {
    pub pid: u32,
    pub exe_name: Seq<char>,
}

impl View for ProcessInfo {
    type V = ProcessInfoView;

    open spec fn view(&self) -> ProcessInfoView {
        ProcessInfoView { pid: self.pid, exe_name: self.exe_name@ }
    }
}

impl View for ProcessEntry {
    type V = ProcessInfoView;

    open spec fn view(&self) -> ProcessInfoView {
        ProcessInfoView { pid: self.pid, exe_name: wide_text(self.exe_file@) }
    }
}

// ---------------------------------------------------------------------------
// Names
// ---------------------------------------------------------------------------

/// The text of a NUL-terminated buffer of UTF-16 units.
pub open spec fn wide_text(units: Seq<u16>) -> Seq<char> {
    utf16_lossy(before_nul(units, 0u16))
}

/// The text of a NUL-terminated buffer of UTF-16 units; all of them where none is NUL.
pub fn wchar_array_to_string(wchars: &[u16]) -> (text: String)
    ensures
        text@ == wide_text(wchars@),
        text@ == utf16_lossy(before_nul(wchars@, 0u16)),
{
    let mut units: Vec<u16> = Vec::new();
    let mut i: usize = 0;
    while i < wchars.len() && wchars[i] != 0
        invariant
            i <= wchars@.len(),
            units@ == wchars@.take(i as int),
            forall|j: int| 0 <= j < i ==> wchars@[j] != 0,
        decreases wchars.len() - i,
    {
        units.push(wchars[i]);
        i = i + 1;
        proof {
            assert(units@ =~= wchars@.take(i as int));
        }
    }
    proof {
        before_nul_is_prefix(wchars@, 0u16, i as int);
    }
    from_utf16_lossy(units.as_slice())
}

/// What a list of processes says.
pub open spec fn infos(processes: Seq<ProcessInfo>) -> Seq<ProcessInfoView> {
    processes.map_values(|p: ProcessInfo| p@)
}

/// The processes of a snapshot; none where there is no snapshot.
pub open spec fn snapshot_entries(snapshot: Option<Vec<ProcessEntry>>) -> Seq<ProcessEntry> {
    match snapshot {
        Some(entries) => entries@,
        None => seq![],
    }
}

/// The processes of a snapshot with the names of their executable files.
pub open spec fn listed(entries: Seq<ProcessEntry>) -> Seq<ProcessInfoView> {
    entries.map_values(|e: ProcessEntry| e@)
}

/// The lower-case equivalents of texts.
pub open spec fn lowercase_all(names: Seq<Seq<char>>) -> Seq<Seq<char>> {
    names.map_values(|n: Seq<char>| lowercase(n))
}

/// Whether the process goes by a name that contains one of the texts, regardless of case.
pub open spec fn name_contains_any(process: ProcessInfoView, names: Seq<Seq<char>>) -> bool {
    some_occurs_in(lowercase_all(names), lowercase(process.exe_name))
}

/// Whether the process goes by one of the names, regardless of case.
pub open spec fn name_equals_any(process: ProcessInfoView, names: Seq<Seq<char>>) -> bool {
    lowercase_all(names).contains(lowercase(process.exe_name))
}

/// The processes whose names contain one of the texts, in the order of the snapshot.
pub open spec fn processes_by_substrings(
    entries: Seq<ProcessEntry>,
    names: Seq<Seq<char>>,
) -> Seq<ProcessInfoView> {
    listed(entries).filter(|p: ProcessInfoView| name_contains_any(p, names))
}

/// The processes that go by one of the names, in the order of the snapshot.
pub open spec fn processes_by_exact_names(
    entries: Seq<ProcessEntry>,
    names: Seq<Seq<char>>,
) -> Seq<ProcessInfoView> {
    listed(entries).filter(|p: ProcessInfoView| name_equals_any(p, names))
}

fn lowercase_strings(names: &Vec<String>) -> (lower: Vec<String>)
    ensures
        texts(lower@) == lowercase_all(texts(names@)),
{
    let mut lower: Vec<String> = Vec::new();
    let mut i: usize = 0;
    while i < names.len()
        invariant
            i <= names@.len(),
            lower@.len() == i,
            forall|j: int| 0 <= j < i ==> (#[trigger] lower@[j])@ == lowercase(names@[j]@),
        decreases names.len() - i,
    {
        lower.push(to_lowercase(names[i].as_str()));
        i = i + 1;
    }
    proof {
        assert(texts(lower@) =~= lowercase_all(texts(names@)));
    }
    lower
}

// ---------------------------------------------------------------------------
// Matching of lower-case names
// ---------------------------------------------------------------------------

/// A process with the name of its executable file, as it is and in lower case.
pub struct NamedProcess {
    pub pid: u32,
    pub exe_name: String,
    pub exe_lower: String,
}

impl View for NamedProcess {
    type V = ProcessInfoView;

    open spec fn view(&self) -> ProcessInfoView {
        ProcessInfoView { pid: self.pid, exe_name: self.exe_name@ }
    }
}

/// What is said of those of a list of processes that are wanted, in their order.
pub open spec fn selected(
    processes: Seq<NamedProcess>,
    wanted: spec_fn(NamedProcess) -> bool,
) -> Seq<ProcessInfoView> {
    processes.filter(wanted).map_values(|p: NamedProcess| p@)
}

proof fn select_one_more(
    processes: Seq<NamedProcess>,
    wanted: spec_fn(NamedProcess) -> bool,
    i: int,
)
    requires
        0 <= i < processes.len(),
    ensures
        selected(processes.take(i + 1), wanted) == if wanted(processes[i]) {
            selected(processes.take(i), wanted).push(processes[i]@)
        } else {
            selected(processes.take(i), wanted)
        },
{
    reveal(Seq::filter);
    assert(processes.take(i + 1).drop_last() =~= processes.take(i));
    assert(selected(processes.take(i + 1), wanted) =~= if wanted(processes[i]) {
        selected(processes.take(i), wanted).push(processes[i]@)
    } else {
        selected(processes.take(i), wanted)
    });
}

fn push_info(found: &mut Vec<ProcessInfo>, process: &NamedProcess)
    ensures
        infos(final(found)@) == infos(old(found)@).push(process@),
{
    found.push(ProcessInfo { pid: process.pid, exe_name: process.exe_name.clone() });
    proof {
        assert(infos(found@) =~= infos(old(found)@).push(process@));
    }
}

/// The processes whose lower-case names contain one of the texts.
pub fn select_by_substrings(
    processes: &Vec<NamedProcess>,
    lowercase_substrings: &Vec<String>,
) -> (found: Vec<ProcessInfo>)
    ensures
        infos(found@) == selected(
            processes@,
            |p: NamedProcess| some_occurs_in(texts(lowercase_substrings@), p.exe_lower@),
        ),
{
    let ghost wanted = |p: NamedProcess|
        some_occurs_in(texts(lowercase_substrings@), p.exe_lower@);
    let mut found: Vec<ProcessInfo> = Vec::new();
    let mut i: usize = 0;
    proof {
        reveal(Seq::filter);
        assert(infos(found@) =~= selected(processes@.take(0), wanted));
    }
    while i < processes.len()
        invariant
            i <= processes@.len(),
            wanted == (|p: NamedProcess|
                some_occurs_in(texts(lowercase_substrings@), p.exe_lower@)),
            infos(found@) == selected(processes@.take(i as int), wanted),
        decreases processes.len() - i,
    {
        proof {
            select_one_more(processes@, wanted, i as int);
        }
        if any_occurs_in(lowercase_substrings, processes[i].exe_lower.as_str()) {
            push_info(&mut found, &processes[i]);
        }
        i = i + 1;
    }
    proof {
        assert(processes@.take(i as int) =~= processes@);
    }
    found
}

/// The processes whose lower-case names are among the texts.
pub fn select_by_exact_names(
    processes: &Vec<NamedProcess>,
    lowercase_names: &Vec<String>,
) -> (found: Vec<ProcessInfo>)
    ensures
        infos(found@) == selected(
            processes@,
            |p: NamedProcess| texts(lowercase_names@).contains(p.exe_lower@),
        ),
{
    let ghost wanted = |p: NamedProcess| texts(lowercase_names@).contains(p.exe_lower@);
    let mut found: Vec<ProcessInfo> = Vec::new();
    let mut i: usize = 0;
    proof {
        reveal(Seq::filter);
        assert(infos(found@) =~= selected(processes@.take(0), wanted));
    }
    while i < processes.len()
        invariant
            i <= processes@.len(),
            wanted == (|p: NamedProcess| texts(lowercase_names@).contains(p.exe_lower@)),
            infos(found@) == selected(processes@.take(i as int), wanted),
        decreases processes.len() - i,
    {
        proof {
            select_one_more(processes@, wanted, i as int);
        }
        if any_equals(lowercase_names, processes[i].exe_lower.as_str()) {
            push_info(&mut found, &processes[i]);
        }
        i = i + 1;
    }
    proof {
        assert(processes@.take(i as int) =~= processes@);
    }
    found
}

// ---------------------------------------------------------------------------
// Processes by name
// ---------------------------------------------------------------------------

/// Whether each process is the one at the same place of the snapshot, with its name in lower
/// case.
spec fn names_of(processes: Seq<NamedProcess>, entries: Seq<ProcessEntry>) -> bool {
    &&& processes.len() == entries.len()
    &&& forall|i: int|
        0 <= i < processes.len() ==> (#[trigger] processes[i])@ == entries[i]@
            && processes[i].exe_lower@ == lowercase(entries[i]@.exe_name)
}

proof fn selection_is_by_entry(
    processes: Seq<NamedProcess>,
    entries: Seq<ProcessEntry>,
    wanted: spec_fn(NamedProcess) -> bool,
    wanted_info: spec_fn(ProcessInfoView) -> bool,
)
    requires
        names_of(processes, entries),
        forall|i: int|
            0 <= i < processes.len() ==> wanted(#[trigger] processes[i]) == wanted_info(
                processes[i]@,
            ),
    ensures
        selected(processes, wanted) == listed(entries).filter(wanted_info),
    decreases processes.len(),
{
    reveal(Seq::filter);
    if processes.len() > 0 {
        let n: int = processes.len() - 1;
        let shorter: Seq<NamedProcess> = processes.drop_last();
        assert forall|i: int| 0 <= i < shorter.len() implies wanted(#[trigger] shorter[i])
            == wanted_info(shorter[i]@) by {
            assert(shorter[i] == processes[i]);
        }
        assert(names_of(shorter, entries.drop_last())) by {
            assert forall|i: int| 0 <= i < shorter.len() implies (#[trigger] shorter[i])@
                == entries.drop_last()[i]@ && shorter[i].exe_lower@ == lowercase(
                entries.drop_last()[i]@.exe_name,
            ) by {
                assert(shorter[i] == processes[i]);
            }
        }
        selection_is_by_entry(shorter, entries.drop_last(), wanted, wanted_info);
        assert(listed(entries).drop_last() =~= listed(entries.drop_last()));
        assert(processes.take(n + 1) =~= processes);
        assert(processes.take(n) =~= shorter);
        select_one_more(processes, wanted, n);
        assert(listed(entries).last() == processes[n]@);
    } else {
        assert(selected(processes, wanted) =~= listed(entries).filter(wanted_info));
    }
}

fn name_processes(snapshot: &Option<Vec<ProcessEntry>>) -> (processes: Vec<NamedProcess>)
    ensures
        names_of(processes@, snapshot_entries(*snapshot)),
{
    let mut processes: Vec<NamedProcess> = Vec::new();
    let entries: &Vec<ProcessEntry> = match snapshot {
        Some(entries) => entries,
        None => {
            return processes;
        },
    };
    let mut i: usize = 0;
    while i < entries.len()
        invariant
            i <= entries@.len(),
            names_of(processes@, entries@.take(i as int)),
        decreases entries.len() - i,
    {
        let exe_name: String = wchar_array_to_string(entries[i].exe_file.as_slice());
        let exe_lower: String = to_lowercase(exe_name.as_str());
        processes.push(NamedProcess { pid: entries[i].pid, exe_name, exe_lower });
        i = i + 1;
    }
    proof {
        assert(entries@.take(i as int) =~= entries@);
    }
    processes
}

/// The processes whose executable names contain one of the texts, regardless of case; none where
/// the processes could not be listed.
pub fn find_pids_by_name_substrings(
    name_substrings: &Vec<String>,
    snapshot: &Option<Vec<ProcessEntry>>,
) -> (found: Vec<ProcessInfo>)
    ensures
        infos(found@) == processes_by_substrings(
            snapshot_entries(*snapshot),
            texts(name_substrings@),
        ),
{
    let lowercase_substrings: Vec<String> = lowercase_strings(name_substrings);
    let processes: Vec<NamedProcess> = name_processes(snapshot);
    proof {
        selection_is_by_entry(
            processes@,
            snapshot_entries(*snapshot),
            |p: NamedProcess| some_occurs_in(texts(lowercase_substrings@), p.exe_lower@),
            |p: ProcessInfoView| name_contains_any(p, texts(name_substrings@)),
        );
    }
    select_by_substrings(&processes, &lowercase_substrings)
}

/// The processes whose executable names are among the names, regardless of case; none where the
/// processes could not be listed.
pub fn find_pids_by_exact_names(
    names: &Vec<String>,
    snapshot: &Option<Vec<ProcessEntry>>,
) -> (found: Vec<ProcessInfo>)
    ensures
        infos(found@) == processes_by_exact_names(snapshot_entries(*snapshot), texts(names@)),
{
    let lowercase_names: Vec<String> = lowercase_strings(names);
    let processes: Vec<NamedProcess> = name_processes(snapshot);
    proof {
        selection_is_by_entry(
            processes@,
            snapshot_entries(*snapshot),
            |p: NamedProcess| texts(lowercase_names@).contains(p.exe_lower@),
            |p: ProcessInfoView| name_equals_any(p, texts(names@)),
        );
    }
    select_by_exact_names(&processes, &lowercase_names)
}

// ---------------------------------------------------------------------------
// Laws
// ---------------------------------------------------------------------------

/// A process that goes by one of the names also goes by a name that contains one of them.
pub proof fn exact_names_are_substrings(process: ProcessInfoView, names: Seq<Seq<char>>)
    requires
        name_equals_any(process, names),
    ensures
        name_contains_any(process, names),
{
    let lower: Seq<char> = lowercase(process.exe_name);
    let all: Seq<Seq<char>> = lowercase_all(names);
    let i: int = choose|i: int| 0 <= i < all.len() && all[i] == lower;
    assert(lower.subrange(0int, 0int + all[i].len()) =~= all[i]);
    assert(crate::text::occurs_in(all[i], lower));
}

proof fn filters_go_piece_by_piece<T>(some: Seq<T>, more: Seq<T>, wanted: spec_fn(T) -> bool)
    ensures
        (some + more).filter(wanted) == some.filter(wanted) + more.filter(wanted),
    decreases more.len(),
{
    reveal(Seq::filter);
    if more.len() == 0 {
        assert(some + more =~= some);
        assert(some.filter(wanted) =~= some.filter(wanted) + more.filter(wanted));
    } else {
        filters_go_piece_by_piece(some, more.drop_last(), wanted);
        assert((some + more).drop_last() =~= some + more.drop_last());
        assert((some + more).filter(wanted) =~= some.filter(wanted) + more.filter(wanted));
    }
}

proof fn filters_keep_one_or_none<T>(one: T, wanted: spec_fn(T) -> bool)
    ensures
        seq![one].filter(wanted) == if wanted(one) {
            seq![one]
        } else {
            seq![]
        },
{
    reveal(Seq::filter);
    let none: Seq<T> = seq![];
    assert(none.filter(wanted) =~= none);
    assert(seq![one].drop_last() =~= none);
    assert(seq![one].last() == one);
    assert(none.push(one) =~= seq![one]);
}

/// The processes of a snapshot are looked at one by one, in their order. One is found by a part of
/// its name where the lower-case name contains the lower-case part, and by its name where the two
/// are the same in lower case; it is found with its own identifier and its own name, as it is up
/// to the NUL.
pub proof fn processes_are_found_one_by_one(
    some: Seq<ProcessEntry>,
    more: Seq<ProcessEntry>,
    entry: ProcessEntry,
    names: Seq<Seq<char>>,
)
    ensures
        processes_by_substrings(some + more, names) == processes_by_substrings(some, names)
            + processes_by_substrings(more, names),
        processes_by_exact_names(some + more, names) == processes_by_exact_names(some, names)
            + processes_by_exact_names(more, names),
        ({
            let exe_name = utf16_lossy(before_nul(entry.exe_file@, 0u16));
            let info = ProcessInfoView { pid: entry.pid, exe_name };
            &&& processes_by_substrings(seq![entry], names) == if exists|k: int, at: int|
                0 <= k < names.len() && 0 <= at <= lowercase(exe_name).len() - lowercase(
                    names[k],
                ).len() && #[trigger] lowercase(exe_name).subrange(
                    at,
                    at + lowercase(names[k]).len(),
                ) == lowercase(names[k]) {
                seq![info]
            } else {
                seq![]
            }
            &&& processes_by_exact_names(seq![entry], names) == if exists|k: int|
                0 <= k < names.len() && lowercase(#[trigger] names[k]) == lowercase(exe_name) {
                seq![info]
            } else {
                seq![]
            }
        }),
{
    let contains = |p: ProcessInfoView| name_contains_any(p, names);
    let equals = |p: ProcessInfoView| name_equals_any(p, names);
    assert(listed(some + more) =~= listed(some) + listed(more));
    filters_go_piece_by_piece(listed(some), listed(more), contains);
    filters_go_piece_by_piece(listed(some), listed(more), equals);
    let exe_name: Seq<char> = utf16_lossy(before_nul(entry.exe_file@, 0u16));
    let lower: Seq<char> = lowercase(exe_name);
    let all: Seq<Seq<char>> = lowercase_all(names);
    assert(listed(seq![entry]) =~= seq![entry@]);
    filters_keep_one_or_none(entry@, contains);
    filters_keep_one_or_none(entry@, equals);
    if contains(entry@) {
        let k: int = choose|k: int|
            0 <= k < all.len() && crate::text::occurs_in(#[trigger] all[k], lower);
        let at: int = choose|at: int|
            0 <= at <= lower.len() - all[k].len() && #[trigger] lower.subrange(
                at,
                at + all[k].len(),
            ) == all[k];
        assert(all[k] == lowercase(names[k]));
        assert(lower.subrange(at, at + lowercase(names[k]).len()) == lowercase(names[k]));
    }
    assert forall|k: int, at: int|
        0 <= k < names.len() && 0 <= at <= lower.len() - lowercase(names[k]).len()
            && #[trigger] lower.subrange(at, at + lowercase(names[k]).len()) == lowercase(
            names[k],
        ) implies contains(entry@) by {
        assert(all[k] == lowercase(names[k]));
        assert(crate::text::occurs_in(all[k], lower));
    }
    if equals(entry@) {
        let k: int = choose|k: int| 0 <= k < all.len() && all[k] == lower;
        assert(all[k] == lowercase(names[k]));
    }
    assert forall|k: int|
        0 <= k < names.len() && lowercase(#[trigger] names[k]) == lower implies equals(entry@) by {
        assert(all[k] == lower);
    }
}

/// Processes with lower-case names are looked at one by one, in their order, and those that are
/// wanted are found as they are.
pub proof fn selections_go_one_by_one(
    some: Seq<NamedProcess>,
    more: Seq<NamedProcess>,
    process: NamedProcess,
    wanted: spec_fn(NamedProcess) -> bool,
)
    ensures
        selected(some + more, wanted) == selected(some, wanted) + selected(more, wanted),
        wanted(process) ==> selected(seq![process], wanted) == seq![
            ProcessInfoView { pid: process.pid, exe_name: process.exe_name@ },
        ],
        !wanted(process) ==> selected(seq![process], wanted).len() == 0,
{
    filters_go_piece_by_piece(some, more, wanted);
    filters_keep_one_or_none(process, wanted);
    assert(selected(some + more, wanted) =~= selected(some, wanted) + selected(more, wanted));
    if wanted(process) {
        assert(selected(seq![process], wanted) =~= seq![process@]);
    }
}

/// A list of processes says the identifier and the name of each, in their order.
pub proof fn processes_say_what_they_are(processes: Seq<ProcessInfo>, i: int)
    ensures
        infos(processes).len() == processes.len(),
        0 <= i < processes.len() ==> infos(processes)[i].pid == processes[i].pid
            && infos(processes)[i].exe_name == processes[i].exe_name@,
{
}

/// The case of the names does not matter: names that are the same in lower case find the same
/// processes.
pub proof fn matching_ignores_case(
    entries: Seq<ProcessEntry>,
    names: Seq<Seq<char>>,
    others: Seq<Seq<char>>,
)
    requires
        lowercase_all(names) == lowercase_all(others),
    ensures
        processes_by_substrings(entries, names) == processes_by_substrings(entries, others),
        processes_by_exact_names(entries, names) == processes_by_exact_names(entries, others),
{
    assert((|p: ProcessInfoView| name_contains_any(p, names)) =~= (|p: ProcessInfoView|
        name_contains_any(p, others)));
    assert((|p: ProcessInfoView| name_equals_any(p, names)) =~= (|p: ProcessInfoView|
        name_equals_any(p, others)));
}

/// Without names no process is found.
pub proof fn no_names_find_nothing(entries: Seq<ProcessEntry>)
    ensures
        processes_by_substrings(entries, seq![]).len() == 0,
        processes_by_exact_names(entries, seq![]).len() == 0,
    decreases entries.len(),
{
    reveal(Seq::filter);
    assert(lowercase_all(seq![]) =~= seq![]);
    if entries.len() > 0 {
        no_names_find_nothing(entries.drop_last());
        assert(listed(entries).drop_last() =~= listed(entries.drop_last()));
    }
}

} // verus!
