//! Selection among running processes: which process triggers an attempt,
//! which one is VRChat, and whether Windows Error Reporting is handling it.

use std::collections::HashSet;
use vstd::prelude::*;
use crate::lifecycle::{TriggerInfo, TriggerSource};
use crate::text::{chars_of, contains, contains_lowered, contains_seq, decimal, decimal_text, eq_ignore_ascii_case, lower, push_char, push_str};

verus! {

broadcast use vstd::std_specs::hash::group_hash_axioms;

/// What the selection logic reads of one running process. Text is the lossy
/// Unicode form of the operating system's strings.
#[derive(Debug, Clone)]
pub struct ProcessEntry {
    pub pid: u32,
    pub name: String,
    pub exe: Option<String>,
    pub cmd: Vec<String>,
    pub run_time_secs: u64,
    pub dead: bool,
}

/// A trigger and, if it was running at that moment, the VRChat process
/// (an index into the scanned process list).
#[derive(Debug, Clone, PartialEq, Eq)]
pub struct TriggerCandidate {
    pub trigger: TriggerInfo,
    pub vrchat: Option<usize>,
}

/// The process is named `expected`, ignoring ASCII case.
pub open spec fn named(p: ProcessEntry, expected: Seq<char>) -> bool {
    lower(p.name@) == lower(expected)
}

/// The command line as one string, parts separated by single spaces.
pub open spec fn joined(parts: Seq<String>) -> Seq<char>
    decreases parts.len(),
{
    if parts.len() == 0 {
        seq![]
    } else if parts.len() == 1 {
        parts[0]@
    } else {
        joined(parts.drop_last()) + seq![' '] + parts.last()@
    }
}

/// The process's executable path, or (unless `path_only`) its command line,
/// mentions VRChat in any ASCII case.
pub open spec fn associated(p: ProcessEntry, path_only: bool) -> bool {
    ||| (p.exe matches Some(e) && contains_seq(lower(e@), "vrchat"@))
    ||| (!path_only && contains_seq(lower(joined(p.cmd@)), "vrchat"@))
}

/// A process that can be selected as VRChat.
pub open spec fn vrchat_candidate(p: ProcessEntry, ignored: Set<u32>) -> bool {
    named(p, "vrchat.exe"@) && !ignored.contains(p.pid)
}

/// A process named `name` that can be selected as the trigger.
pub open spec fn associated_candidate(p: ProcessEntry, name: Seq<char>, ignored: Set<u32>, path_only: bool) -> bool {
    !ignored.contains(p.pid) && named(p, name) && associated(p, path_only)
}

/// `r` is the first index of `ps` that satisfies `f`, or `None` if none does.
pub open spec fn first_match(ps: Seq<ProcessEntry>, f: spec_fn(ProcessEntry) -> bool, r: Option<usize>) -> bool {
    match r {
        Some(i) => i < ps.len() && f(ps[i as int]) && forall|j: int| 0 <= j < i ==> !f(#[trigger] ps[j]),
        None => forall|j: int| 0 <= j < ps.len() ==> !f(#[trigger] ps[j]),
    }
}

/// Some index is the first match of `f` in `ps`, or none matches.
pub proof fn first_match_exists(ps: Seq<ProcessEntry>, f: spec_fn(ProcessEntry) -> bool)
    requires
        ps.len() <= usize::MAX,
    ensures
        exists|r: Option<usize>| first_match(ps, f, r),
    decreases ps.len(),
{
    if ps.len() == 0 {
        assert(first_match(ps, f, None));
    } else {
        let front = ps.drop_last();
        first_match_exists(front, f);
        let r0 = choose|r: Option<usize>| first_match(front, f, r);
        match r0 {
            Some(i) => {
                assert forall|j: int| 0 <= j < i implies !f(#[trigger] ps[j]) by {
                    assert(ps[j] == front[j]);
                }
                assert(first_match(ps, f, Some(i)));
            },
            None => {
                if f(ps.last()) {
                    assert forall|j: int| 0 <= j < ps.len() - 1 implies !f(#[trigger] ps[j]) by {
                        assert(ps[j] == front[j]);
                    }
                    assert(first_match(ps, f, Some((ps.len() - 1) as usize)));
                } else {
                    assert forall|j: int| 0 <= j < ps.len() implies !f(#[trigger] ps[j]) by {
                        if j < ps.len() - 1 {
                            assert(ps[j] == front[j]);
                        }
                    }
                    assert(first_match(ps, f, None));
                }
            },
        }
    }
}

/// Whether the process is named `expected`, ignoring ASCII case.
pub fn is_name(process: &ProcessEntry, expected: &str) -> (r: bool)
    ensures
        r == named(*process, expected@),
{
    eq_ignore_ascii_case(process.name.as_str(), expected)
}

/// The first process in `processes` named `vrchat.exe` whose pid is not ignored.
pub fn find_vrchat(processes: &Vec<ProcessEntry>, ignored: &HashSet<u32>) -> (r: Option<usize>)
    ensures
        first_match(processes@, |p: ProcessEntry| vrchat_candidate(p, ignored@), r),
{
    let ghost f = |p: ProcessEntry| vrchat_candidate(p, ignored@);
    let mut i: usize = 0;
    while i < processes.len()
        invariant
            i <= processes@.len(),
            f == (|p: ProcessEntry| vrchat_candidate(p, ignored@)),
            forall|j: int| 0 <= j < i ==> !f(#[trigger] processes@[j]),
        decreases processes@.len() - i,
    {
        let p = &processes[i];
        if is_name(p, "vrchat.exe") && !ignored.contains(&p.pid) {
            return Some(i);
        }
        i = i + 1;
    }
    None
}

/// The command line of a process, joined by spaces.
pub fn joined_command(parts: &Vec<String>) -> (r: Vec<char>)
    ensures
        r@ == joined(parts@),
{
    let mut text = String::new();
    let mut i: usize = 0;
    while i < parts.len()
        invariant
            i <= parts@.len(),
            text@ == joined(parts@.subrange(0, i as int)),
        decreases parts@.len() - i,
    {
        let ghost prefix = parts@.subrange(0, i as int);
        let ghost next = parts@.subrange(0, i + 1);
        assert(next.drop_last() =~= prefix);
        if i > 0 {
            push_char(&mut text, ' ');
        }
        push_str(&mut text, parts[i].as_str());
        assert(text@ =~= joined(next));
        i = i + 1;
    }
    assert(parts@.subrange(0, parts@.len() as int) =~= parts@);
    chars_of(text.as_str())
}

/// Whether the process's path (or command line, unless `path_only`)
/// mentions VRChat.
fn is_associated(process: &ProcessEntry, path_only: bool) -> (r: bool)
    ensures
        r == associated(*process, path_only),
{
    let by_path = match &process.exe {
        Some(exe) => contains_lowered(&chars_of(exe.as_str()), "vrchat"),
        None => false,
    };
    if by_path {
        return true;
    }
    if path_only {
        return false;
    }
    contains_lowered(&joined_command(&process.cmd), "vrchat")
}

/// The first process named `name` that is not ignored and is associated
/// with VRChat.
pub fn find_named_associated(processes: &Vec<ProcessEntry>, name: &str, ignored: &HashSet<u32>, path_only: bool) -> (r: Option<usize>)
    ensures
        first_match(processes@, |p: ProcessEntry| associated_candidate(p, name@, ignored@, path_only), r),
{
    let ghost f = |p: ProcessEntry| associated_candidate(p, name@, ignored@, path_only);
    let mut i: usize = 0;
    while i < processes.len()
        invariant
            i <= processes@.len(),
            f == (|p: ProcessEntry| associated_candidate(p, name@, ignored@, path_only)),
            forall|j: int| 0 <= j < i ==> !f(#[trigger] processes@[j]),
        decreases processes@.len() - i,
    {
        let p = &processes[i];
        if !ignored.contains(&p.pid) && is_name(p, name) && is_associated(p, path_only) {
            return Some(i);
        }
        i = i + 1;
    }
    None
}

fn copy_path(path: &Option<String>) -> (r: Option<String>)
    ensures
        r == *path,
{
    match path {
        Some(text) => Some(text.clone()),
        None => None,
    }
}

/// The trigger that a scan selects: a VRChat-associated protected launcher
/// first, then an Easy Anti-Cheat process that mentions VRChat, then VRChat
/// itself.
pub open spec fn trigger_choice(ps: Seq<ProcessEntry>, launcher: Option<usize>, eac: Option<usize>, vrchat: Option<usize>) -> Option<TriggerCandidate> {
    match launcher {
        Some(i) => Some(TriggerCandidate {
            trigger: TriggerInfo { source: TriggerSource::ProtectedLauncher, source_pid: ps[i as int].pid, path: ps[i as int].exe },
            vrchat,
        }),
        None => match eac {
            Some(i) => Some(TriggerCandidate {
                trigger: TriggerInfo { source: TriggerSource::EasyAntiCheat, source_pid: ps[i as int].pid, path: ps[i as int].exe },
                vrchat,
            }),
            None => match vrchat {
                Some(i) => Some(TriggerCandidate {
                    trigger: TriggerInfo { source: TriggerSource::VrchatProcess, source_pid: ps[i as int].pid, path: ps[i as int].exe },
                    vrchat: Some(i),
                }),
                None => None,
            },
        },
    }
}

/// The trigger of a new attempt, if a scan shows one.
pub fn find_trigger(processes: &Vec<ProcessEntry>, ignored: &HashSet<u32>) -> (r: Option<TriggerCandidate>)
    ensures
        exists|launcher: Option<usize>, eac: Option<usize>, vrchat: Option<usize>| {
            &&& first_match(processes@, |p: ProcessEntry| associated_candidate(p, "start_protected_game.exe"@, ignored@, true), launcher)
            &&& first_match(processes@, |p: ProcessEntry| associated_candidate(p, "easyanticheat_eos.exe"@, ignored@, false), eac)
            &&& first_match(processes@, |p: ProcessEntry| vrchat_candidate(p, ignored@), vrchat)
            &&& r == trigger_choice(processes@, launcher, eac, vrchat)
        },
        r matches Some(c) ==> first_match(processes@, |p: ProcessEntry| vrchat_candidate(p, ignored@), c.vrchat),
        r is Some && r->0.trigger.source == TriggerSource::VrchatProcess ==> {
            &&& r->0.vrchat is Some
            &&& r->0.vrchat->0 < processes@.len()
            &&& processes@[r->0.vrchat->0 as int].pid == r->0.trigger.source_pid
            &&& processes@[r->0.vrchat->0 as int].exe == r->0.trigger.path
        },
{
    let total = processes.len();
    let vrchat = find_vrchat(processes, ignored);
    let launcher = find_named_associated(processes, "start_protected_game.exe", ignored, true);
    if let Some(i) = launcher {
        let p = &processes[i];
        let r = Some(TriggerCandidate {
            trigger: TriggerInfo { source: TriggerSource::ProtectedLauncher, source_pid: p.pid, path: copy_path(&p.exe) },
            vrchat,
        });
        proof {
            let f = |p: ProcessEntry| associated_candidate(p, "easyanticheat_eos.exe"@, ignored@, false);
            assert(processes@.len() == total);
            first_match_exists(processes@, f);
            let eac = choose|e: Option<usize>| first_match(processes@, f, e);
            assert(r == trigger_choice(processes@, launcher, eac, vrchat));
        }
        return r;
    }
    let eac = find_named_associated(processes, "easyanticheat_eos.exe", ignored, false);
    if let Some(i) = eac {
        let p = &processes[i];
        let r = Some(TriggerCandidate {
            trigger: TriggerInfo { source: TriggerSource::EasyAntiCheat, source_pid: p.pid, path: copy_path(&p.exe) },
            vrchat,
        });
        assert(r == trigger_choice(processes@, launcher, eac, vrchat));
        return r;
    }
    match vrchat {
        Some(i) => {
            let p = &processes[i];
            let r = Some(TriggerCandidate {
                trigger: TriggerInfo { source: TriggerSource::VrchatProcess, source_pid: p.pid, path: copy_path(&p.exe) },
                vrchat: Some(i),
            });
            assert(r == trigger_choice(processes@, launcher, eac, vrchat));
            r
        },
        None => {
            assert(trigger_choice(processes@, launcher, eac, vrchat) is None);
            None
        },
    }
}

/// What a scan's trigger says: the VRChat process reported with any trigger is
/// the first selectable VRChat process; a trigger that is VRChat itself comes
/// with that same process; a launcher wins over Easy Anti-Cheat, which wins
/// over VRChat; and there is no trigger only when none of the three is found.
pub proof fn trigger_comes_with_vrchat_and_priority(
    ps: Seq<ProcessEntry>,
    ignored: Set<u32>,
    launcher: Option<usize>,
    eac: Option<usize>,
    vrchat: Option<usize>,
)
    requires
        first_match(ps, |p: ProcessEntry| associated_candidate(p, "start_protected_game.exe"@, ignored, true), launcher),
        first_match(ps, |p: ProcessEntry| associated_candidate(p, "easyanticheat_eos.exe"@, ignored, false), eac),
        first_match(ps, |p: ProcessEntry| vrchat_candidate(p, ignored), vrchat),
    ensures
        ({
            let r = trigger_choice(ps, launcher, eac, vrchat);
            &&& r is Some ==> r->0.vrchat == vrchat
            &&& r is Some && r->0.trigger.source == TriggerSource::VrchatProcess ==> {
                &&& launcher is None && eac is None
                &&& r->0.vrchat is Some && r->0.vrchat->0 < ps.len()
                &&& ps[r->0.vrchat->0 as int].pid == r->0.trigger.source_pid
                &&& vrchat_candidate(ps[r->0.vrchat->0 as int], ignored)
            }
            &&& r is Some && r->0.trigger.source == TriggerSource::ProtectedLauncher ==> {
                &&& launcher is Some
                &&& ps[launcher->0 as int].pid == r->0.trigger.source_pid
                &&& associated_candidate(ps[launcher->0 as int], "start_protected_game.exe"@, ignored, true)
            }
            &&& r is Some && r->0.trigger.source == TriggerSource::EasyAntiCheat ==> {
                &&& launcher is None && eac is Some
                &&& ps[eac->0 as int].pid == r->0.trigger.source_pid
                &&& associated_candidate(ps[eac->0 as int], "easyanticheat_eos.exe"@, ignored, false)
            }
        }),
        trigger_choice(ps, launcher, eac, vrchat) is None <==> (launcher is None && eac is None && vrchat is None),
{
}

/// A Windows Error Reporting process whose command line names `pid`.
pub open spec fn reports_fault_of(p: ProcessEntry, pid: u32) -> bool {
    named(p, "werfault.exe"@) && exists|k: int| 0 <= k < p.cmd@.len() && contains_seq(#[trigger] p.cmd@[k]@, decimal(pid as nat))
}

/// Whether some command-line part contains `target`.
fn command_mentions(parts: &Vec<String>, target: &Vec<char>) -> (r: bool)
    ensures
        r == exists|k: int| 0 <= k < parts@.len() && contains_seq(#[trigger] parts@[k]@, target@),
{
    let mut k: usize = 0;
    while k < parts.len()
        invariant
            k <= parts@.len(),
            forall|m: int| 0 <= m < k ==> !contains_seq(#[trigger] parts@[m]@, target@),
        decreases parts@.len() - k,
    {
        if contains(&chars_of(parts[k].as_str()), target) {
            return true;
        }
        k = k + 1;
    }
    false
}

/// Whether Windows Error Reporting is running for process `target_pid`.
pub fn has_associated_werfault(processes: &Vec<ProcessEntry>, target_pid: u32) -> (r: bool)
    ensures
        r == exists|j: int| 0 <= j < processes@.len() && reports_fault_of(#[trigger] processes@[j], target_pid),
{
    let target = chars_of(decimal_text(target_pid as u64).as_str());
    let mut i: usize = 0;
    while i < processes.len()
        invariant
            i <= processes@.len(),
            target@ == decimal(target_pid as nat),
            forall|j: int| 0 <= j < i ==> !reports_fault_of(#[trigger] processes@[j], target_pid),
        decreases processes@.len() - i,
    {
        let p = &processes[i];
        if is_name(p, "werfault.exe") && command_mentions(&p.cmd, &target) {
            assert(reports_fault_of(processes@[i as int], target_pid));
            return true;
        }
        i = i + 1;
    }
    false
}

/// The pids of all processes named `vrchat.exe`.
pub fn vrchat_pids(processes: &Vec<ProcessEntry>) -> (r: HashSet<u32>)
    ensures
        forall|pid: u32| r@.contains(pid) <==>
            exists|j: int| 0 <= j < processes@.len() && #[trigger] processes@[j].pid == pid && named(processes@[j], "vrchat.exe"@),
{
    let mut pids: HashSet<u32> = HashSet::new();
    let mut i: usize = 0;
    while i < processes.len()
        invariant
            i <= processes@.len(),
            forall|pid: u32| pids@.contains(pid) <==>
                exists|j: int| 0 <= j < i && #[trigger] processes@[j].pid == pid && named(processes@[j], "vrchat.exe"@),
        decreases processes@.len() - i,
    {
        let p = &processes[i];
        if is_name(p, "vrchat.exe") {
            pids.insert(p.pid);
        }
        i = i + 1;
    }
    pids
}

/// The physical core count reported by the system, or the logical count when
/// it reports none; at least one.
pub fn physical_core_count(reported: Option<usize>, logical: usize) -> (r: usize)
    ensures
        r == (match reported {
            Some(n) => if n >= 1 { n } else { 1 },
            None => if logical >= 1 { logical } else { 1 },
        }),
{
    let n = match reported {
        Some(n) => n,
        None => logical,
    };
    if n >= 1 { n } else { 1 }
}

/// The logical processor count; at least one.
pub fn logical_processor_count(logical: usize) -> (r: usize)
    ensures
        r == (if logical >= 1 { logical } else { 1 }),
{
    if logical >= 1 { logical } else { 1 }
}

} // verus!
