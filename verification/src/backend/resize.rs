//! The correction after start: once the terminal runs, the editor inside it
//! is told that the window size changed, because it may have started with a
//! wrong idea of it. The editor is looked for in the process table a bounded
//! number of times; this module decides, the caller reads the table, sleeps
//! and signals.

use crate::config::Backend;
use crate::config::Config;
use crate::host::file_name;
use crate::host::path_file_name;
use crate::host::Platform;
use crate::text::opt_text;
use vstd::prelude::*;

verus! {

/// How often the process table is scanned at most.
pub const MAX_ATTEMPTS: u32 = 10;

/// The pause between two scans, in milliseconds.
pub const RETRY_MILLIS: u64 = 10;

/// A process whose name matches the editor's.
#[derive(Clone, Copy, Debug, PartialEq, Eq, Structural)]
pub struct ProcessInfo {
    pub pid: u32,
    pub parent: Option<u32>,
}

/// What to do after a scan.
#[derive(Clone, Copy, Debug, PartialEq, Eq, Structural)]
pub enum Correction {
    /// Send the window-size-change signal to this process, and stop.
    Resize(u32),
    /// Pause, then scan again.
    Wait,
    /// Stop without signalling: the budget is spent.
    GiveUp,
}

/// The progress of one correction: the number of scans made so far.
#[derive(Clone, Copy, Debug, PartialEq, Eq, Structural)]
pub struct PollState {
    pub attempts: u32,
}

/// Whether `p` runs directly under the terminal.
pub open spec fn is_child(p: ProcessInfo, term_pid: u32) -> bool {
    p.parent == Some(term_pid)
}

/// The first listed process that runs directly under the terminal.
pub open spec fn first_child(procs: Seq<ProcessInfo>, term_pid: u32) -> Option<u32>
    decreases procs.len(),
{
    if procs.len() == 0 {
        None
    } else if is_child(procs[0], term_pid) {
        Some(procs[0].pid)
    } else {
        first_child(procs.drop_first(), term_pid)
    }
}

/// The decision after one more scan, made after `attempts` earlier ones: the
/// new number of scans and what to do.
pub open spec fn next_step(attempts: u32, procs: Seq<ProcessInfo>, term_pid: u32) -> (
    u32,
    Correction,
) {
    if attempts >= MAX_ATTEMPTS {
        (attempts, Correction::GiveUp)
    } else {
        match first_child(procs, term_pid) {
            Some(pid) => (MAX_ATTEMPTS, Correction::Resize(pid)),
            None => if attempts + 1 == MAX_ATTEMPTS {
                (MAX_ATTEMPTS, Correction::GiveUp)
            } else {
                ((attempts + 1) as u32, Correction::Wait)
            },
        }
    }
}

/// `first_child` finds a process exactly if one of the listed processes
/// runs directly under the terminal, and then names the first such process.
pub proof fn lemma_first_child(procs: Seq<ProcessInfo>, term_pid: u32)
    ensures
        first_child(procs, term_pid) is None <==> forall|i: int|
            0 <= i < procs.len() ==> !is_child(#[trigger] procs[i], term_pid),
        first_child(procs, term_pid) matches Some(pid) ==> exists|i: int|
            0 <= i < procs.len() && is_child(#[trigger] procs[i], term_pid) && procs[i].pid == pid
                && forall|j: int| 0 <= j < i ==> !is_child(#[trigger] procs[j], term_pid),
    decreases procs.len(),
{
    if procs.len() > 0 {
        let rest = procs.drop_first();
        lemma_first_child(rest, term_pid);
        assert forall|i: int| 0 <= i < rest.len() implies rest[i] == procs[i + 1] by {}
        if is_child(procs[0], term_pid) {
            assert(is_child(procs[0], term_pid) && procs[0].pid == first_child(
                procs,
                term_pid,
            )->Some_0);
        } else {
            if first_child(rest, term_pid) is None {
                assert forall|i: int| 0 <= i < procs.len() implies !is_child(
                    #[trigger] procs[i],
                    term_pid,
                ) by {
                    if i > 0 {
                        assert(rest[i - 1] == procs[i]);
                    }
                }
            } else {
                let pid = first_child(rest, term_pid)->Some_0;
                let i = choose|i: int|
                    0 <= i < rest.len() && is_child(#[trigger] rest[i], term_pid) && rest[i].pid
                        == pid && forall|j: int|
                        0 <= j < i ==> !is_child(#[trigger] rest[j], term_pid);
                assert(procs[i + 1] == rest[i]);
                assert forall|j: int| 0 <= j < i + 1 implies !is_child(
                    #[trigger] procs[j],
                    term_pid,
                ) by {
                    if j > 0 {
                        assert(rest[j - 1] == procs[j]);
                    }
                }
                assert(is_child(procs[i + 1], term_pid) && procs[i + 1].pid == pid);
            }
        }
    }
}

/// While no process runs under the terminal, nine scans say to wait, the
/// tenth gives up, and no scan ever says to signal.
pub proof fn lemma_budget_exhausted(scans: Seq<Seq<ProcessInfo>>, term_pid: u32)
    requires
        scans.len() == MAX_ATTEMPTS,
        forall|k: int| 0 <= k < scans.len() ==> first_child(#[trigger] scans[k], term_pid) is None,
    ensures
        forall|k: int|
            0 <= k < MAX_ATTEMPTS - 1 ==> next_step(k as u32, #[trigger] scans[k], term_pid) == ((k
                + 1) as u32, Correction::Wait),
        next_step((MAX_ATTEMPTS - 1) as u32, scans[MAX_ATTEMPTS - 1], term_pid) == (
            MAX_ATTEMPTS,
            Correction::GiveUp,
        ),
        forall|k: int, attempts: u32|
            0 <= k < scans.len() ==> !(#[trigger] next_step(attempts, scans[k], term_pid).1
                is Resize),
{
}

/// Finds the first listed process that runs directly under the terminal.
pub fn find_child(procs: &Vec<ProcessInfo>, term_pid: u32) -> (r: Option<u32>)
    ensures
        r == first_child(procs@, term_pid),
{
    let mut i: usize = 0;
    assert(procs@.subrange(0, procs@.len() as int) =~= procs@);
    while i < procs.len()
        invariant
            i <= procs.len(),
            first_child(procs@, term_pid) == first_child(
                procs@.subrange(i as int, procs@.len() as int),
                term_pid,
            ),
        decreases procs.len() - i,
    {
        let ghost rest = procs@.subrange(i as int, procs@.len() as int);
        assert(rest[0] == procs@[i as int]);
        assert(rest.drop_first() =~= procs@.subrange(i + 1, procs@.len() as int));
        match procs[i].parent {
            Some(ppid) => {
                if ppid == term_pid {
                    return Some(procs[i].pid);
                }
            },
            None => {},
        }
        i += 1;
    }
    assert(procs@.subrange(i as int, procs@.len() as int) =~= Seq::<ProcessInfo>::empty());
    None
}

impl PollState {
    /// The state before the first scan.
    pub fn new() -> (s: Self)
        ensures
            s.attempts == 0,
    {
        PollState { attempts: 0 }
    }
}

/// Decides what to do after a scan of the process table. `procs` are the
/// processes whose name matches the editor's. The first of them that runs
/// directly under the terminal is to be signalled; without one the caller
/// waits and scans again, until the budget of scans is spent.
pub fn post_start(state: &mut PollState, procs: &Vec<ProcessInfo>, term_pid: u32) -> (r: Correction)
    ensures
        (final(state).attempts, r) == next_step(old(state).attempts, procs@, term_pid),
{
    if state.attempts >= MAX_ATTEMPTS {
        return Correction::GiveUp;
    }
    state.attempts = state.attempts + 1;
    match find_child(procs, term_pid) {
        Some(pid) => {
            state.attempts = MAX_ATTEMPTS;
            Correction::Resize(pid)
        },
        None => {
            if state.attempts == MAX_ATTEMPTS {
                Correction::GiveUp
            } else {
                Correction::Wait
            }
        },
    }
}

/// Whether the correction applies: to Alacritty on Linux only.
pub fn needs_post_start(backend: Backend, platform: Platform) -> (r: bool)
    ensures
        r == (backend == Backend::Alacritty && platform == Platform::Linux),
{
    backend == Backend::Alacritty && platform == Platform::Linux
}

/// The name under which the editor shows in the process table: the final
/// component of its path, if it has one.
pub fn editor_process_name(config: &Config) -> (r: Option<String>)
    ensures
        opt_text(r) == path_file_name(config.nvim_exe_path@),
{
    file_name(config.nvim_exe_path.as_str())
}

/// Begins a correction: the name to look for in the process table, with the
/// state before the first scan. Where the editor's path has no final
/// component there is no name to look for, and no correction: nothing is
/// to be scanned, waited for or signalled.
pub fn begin_post_start(config: &Config) -> (r: Option<(String, PollState)>)
    ensures
        r is None <==> path_file_name(config.nvim_exe_path@) is None,
        r matches Some((n, s)) ==> Some(n@) == path_file_name(config.nvim_exe_path@) && s.attempts
            == 0,
{
    match editor_process_name(config) {
        Some(name) => Some((name, PollState::new())),
        None => None,
    }
}

} // verus!
