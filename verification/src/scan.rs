//! Process/window scanner: samples the OS process table and derives one
//! cycle's observation snapshot.
//!
//! The OS queries go through trusted wrappers around `sysinfo`; everything
//! derived from what they hand back — name matching, title matching and the
//! snapshot itself — is verified. On platforms without window enumeration
//! the scanner degrades to host-process detection only.

use vstd::prelude::*;
use vstd::string::*;
use crate::text::{host_name_matches, is_game_window_title, is_host_process_name, title_matches};

verus! {

/// One cycle's observation of process and window state.
pub struct Snapshot {
    pub host_process_present: bool,
    pub game_window_present: bool,
    pub matched_title: Option<String>,
}

impl Snapshot {
    /// A reported game window implies a present host process and a recorded
    /// matching title.
    pub open spec fn wf(self) -> bool {
        self.game_window_present ==> self.host_process_present && self.matched_title is Some
    }
}

/// A scanned process: its executable name and, where the platform can
/// enumerate windows, the title of a visible window it owns.
pub struct ProcInfo {
    pub name: String,
    pub window_title: Option<String>,
}

/// `p` is the host emulator showing a window whose title names the game.
pub open spec fn is_game_proc(p: ProcInfo) -> bool {
    &&& host_name_matches(p.name@)
    &&& p.window_title matches Some(t) && title_matches(t@)
}

/// Some process in `procs` bears the host executable name.
pub open spec fn some_host(procs: Seq<ProcInfo>) -> bool {
    exists|i: int| 0 <= i < procs.len() && host_name_matches(procs[i].name@)
}

/// Some process in `procs` is the host showing a game window.
pub open spec fn some_game(procs: Seq<ProcInfo>) -> bool {
    exists|i: int| 0 <= i < procs.len() && is_game_proc(procs[i])
}

/// Derives the snapshot from the scanned processes: host presence, game
/// window presence, and the first matching title, first match winning.
pub fn build_snapshot(procs: &Vec<ProcInfo>) -> (r: Snapshot)
    ensures
        r.wf(),
        r.host_process_present == some_host(procs@),
        r.game_window_present == some_game(procs@),
        r.game_window_present <==> r.matched_title is Some,
        r.matched_title matches Some(t) ==> exists|i: int|
            {
                &&& 0 <= i < procs@.len()
                &&& #[trigger] is_game_proc(procs@[i])
                &&& procs@[i].window_title matches Some(w) && t@ == w@
                &&& forall|j: int| 0 <= j < i ==> !is_game_proc(procs@[j])
            },
{
    let n = procs.len();
    let mut found_host = false;
    let mut i: usize = 0;
    while i < n
        invariant
            n == procs@.len(),
            i <= n,
            found_host == exists|k: int| 0 <= k < i && host_name_matches(procs@[k].name@),
            forall|k: int| 0 <= k < i ==> !is_game_proc(procs@[k]),
        decreases n - i,
    {
        let p = &procs[i];
        if is_host_process_name(p.name.as_str()) {
            found_host = true;
            match &p.window_title {
                Some(t) => {
                    if is_game_window_title(t.as_str()) {
                        assert(is_game_proc(procs@[i as int]));
                        return Snapshot {
                            host_process_present: true,
                            game_window_present: true,
                            matched_title: Some(t.clone()),
                        };
                    }
                },
                None => {},
            }
        }
        i = i + 1;
    }
    Snapshot { host_process_present: found_host, game_window_present: false, matched_title: None }
}

#[verifier::external_type_specification]
#[verifier::external_body]
pub struct ExSystem(sysinfo::System);

/// Relies on `sysinfo::System::new_with_specifics`: a process table handle
/// that refreshes process names, CPU and memory on demand.
#[verifier::external_body]
fn sys_new() -> sysinfo::System {
    sysinfo::System::new_with_specifics(
        sysinfo::RefreshKind::nothing().with_processes(
            sysinfo::ProcessRefreshKind::nothing().with_cpu().with_memory(),
        ),
    )
}

/// Relies on `sysinfo::System::refresh_processes`: refreshes every entry of
/// the process table and drops dead processes.
#[verifier::external_body]
fn sys_refresh(sys: &mut sysinfo::System) {
    sys.refresh_processes(sysinfo::ProcessesToUpdate::All, true);
}

/// Relies on `sysinfo::System::processes`, `sysinfo::Pid::as_u32` and
/// `sysinfo::Process::name`: hands out the id and executable name of every
/// process now in the table, in no promised order.
#[verifier::external_body]
fn sys_process_table(sys: &sysinfo::System) -> (r: Vec<(u32, String)>) {
    sys.processes().iter().map(
        |(pid, p)| (pid.as_u32(), p.name().to_string_lossy().into_owned()),
    ).collect()
}

/// Relies on `sysinfo::get_current_pid`, `sysinfo::System::process`,
/// `sysinfo::Process::cpu_usage` and `sysinfo::Process::memory`: this
/// process's own usage, when its entry is in the table. The CPU share is
/// truncated to whole percent.
#[verifier::external_body]
fn sys_own_usage(sys: &sysinfo::System) -> (r: Option<(u32, u64)>) {
    match sysinfo::get_current_pid() {
        Ok(pid) => sys.process(pid).map(|p| (p.cpu_usage() as u32, p.memory())),
        Err(_) => None,
    }
}

/// The scanner; it exclusively owns its OS process-table handle across
/// calls, refreshing it each cycle.
pub struct ProcessScanner {
    pub sys: sysinfo::System,
}

impl ProcessScanner {
    /// A scanner with a fresh process-table handle.
    pub fn new() -> ProcessScanner {
        ProcessScanner { sys: sys_new() }
    }

    /// Refreshes the process table and hands out its entries — process id
    /// and executable name each — for a window-title provider to inspect.
    pub fn refresh_table(&mut self) -> Vec<(u32, String)> {
        sys_refresh(&mut self.sys);
        sys_process_table(&self.sys)
    }

    /// One scan without a window-title provider, the no-op fallback:
    /// detection degrades to host-process presence, and the snapshot never
    /// reports a game window.
    pub fn scan(&mut self) -> (r: Snapshot)
        ensures
            r.wf(),
            !r.game_window_present,
            r.matched_title is None,
    {
        let table = self.refresh_table();
        let mut procs: Vec<ProcInfo> = Vec::new();
        let mut i: usize = 0;
        while i < table.len()
            invariant
                procs@.len() == i,
                i <= table@.len(),
                forall|k: int| 0 <= k < i ==> (#[trigger] procs@[k]).window_title is None,
            decreases table@.len() - i,
        {
            let entry = &table[i];
            procs.push(ProcInfo { name: entry.1.clone(), window_title: None });
            i = i + 1;
        }
        assert(!some_game(procs@));
        build_snapshot(&procs)
    }

    /// This process's own CPU share (whole percent) and memory use (bytes);
    /// zeros when its table entry is momentarily missing.
    pub fn get_own_usage(&self) -> (u32, u64) {
        usage_or_zero(sys_own_usage(&self.sys))
    }
}

/// What the resource sampler reports for a given table entry: the entry's
/// own numbers, or zeros when the entry is momentarily missing — sampling
/// never fails.
pub fn usage_or_zero(sample: Option<(u32, u64)>) -> (r: (u32, u64))
    ensures
        r == (match sample {
            Some(u) => u,
            None => (0u32, 0u64),
        }),
{
    match sample {
        Some(u) => u,
        None => (0, 0),
    }
}

} // verus!
