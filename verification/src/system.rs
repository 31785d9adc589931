//! The production system boundary, bound to the live OS: process scans
//! through the proc filesystem, process lifecycle events through the
//! kernel's process-event connector, the wall clock, and the sync action.

use vstd::prelude::*;

use procfs::WithCurrentSystemInfo;

use crate::engine::{ScanError, System, WaitError};
use crate::process::{oldest_match, IsKworkerFn, ProcInfo};

verus! {

/// A subscription to the kernel's process lifecycle events.
#[verifier::external_type_specification]
#[verifier::external_body]
pub struct ExPidMonitor(cnproc::PidMonitor);

/// Relies on `procfs::process::all_processes` and the per-process `stat`
/// and `uid` reads: on success, each element describes one process that was
/// running during the scan (owner id, start time in milliseconds since the
/// Unix epoch, command name). A process whose metadata cannot be read — it
/// exited mid-scan, or is inaccessible — is silently skipped; only a
/// failure of the enumeration itself is an error.
#[verifier::external_body]
fn scan_processes() -> (r: Result<Vec<ProcInfo>, String>)
{
    let procs = match procfs::process::all_processes() {
        Ok(it) => it,
        Err(e) => return Err(format!("{e}")),
    };
    let mut v = Vec::new();
    for res in procs {
        let Ok(p) = res else { continue };
        let Ok(stat) = p.stat() else { continue };
        let Ok(uid) = p.uid() else { continue };
        let Ok(start) = stat.starttime().get() else { continue };
        v.push(ProcInfo { uid, starttime: start.timestamp_millis(), comm: stat.comm });
    }
    Ok(v)
}

/// Relies on `procfs::process::Process::new` and the same per-process
/// reads: the record of the process with the given pid, or `None` when it
/// cannot be read (it already exited, or is inaccessible).
#[verifier::external_body]
fn read_proc_info(pid: i32) -> (r: Option<ProcInfo>)
{
    let Ok(p) = procfs::process::Process::new(pid) else { return None };
    let Ok(stat) = p.stat() else { return None };
    let Ok(uid) = p.uid() else { return None };
    let Ok(start) = stat.starttime().get() else { return None };
    Some(ProcInfo { uid, starttime: start.timestamp_millis(), comm: stat.comm })
}

/// Relies on `chrono::Local::now`: the current wall-clock time, in
/// milliseconds since the Unix epoch.
#[verifier::external_body]
fn wall_clock_ms() -> (t: i64)
{
    chrono::Local::now().timestamp_millis()
}

/// Relies on `rustix::fs::sync`: requests a system-wide flush of filesystem
/// buffers. It reports nothing back; failures are not observable here.
#[verifier::external_body]
fn sync_filesystems()
{
    rustix::fs::sync();
}

/// Relies on `cnproc::PidMonitor::new`: opens a subscription to process
/// lifecycle events, or reports why it could not.
#[verifier::external_body]
fn pid_monitor_new() -> (r: Result<cnproc::PidMonitor, String>)
{
    match cnproc::PidMonitor::new() {
        Ok(m) => Ok(m),
        Err(e) => Err(format!("{e}")),
    }
}

/// One process lifecycle event, as far as this tool reads it.
pub enum ProcEvent {
    /// A process replaced its image; the pid of that process.
    Exec(i32),
    /// A process forked; the pid of the new child.
    Fork(i32),
    /// Any other lifecycle event.
    Other,
}

/// Relies on `cnproc::PidMonitor::recv`: the next event from the
/// subscription, or `None` when the channel yields nothing (its receive
/// failed, or the datagram held no event).
#[verifier::external_body]
fn monitor_recv(monitor: &mut cnproc::PidMonitor) -> (r: Option<ProcEvent>)
{
    match monitor.recv() {
        Some(cnproc::PidEvent::Exec(pid)) => Some(ProcEvent::Exec(pid)),
        Some(cnproc::PidEvent::Fork(pid)) => Some(ProcEvent::Fork(pid)),
        Some(_) => Some(ProcEvent::Other),
        None => None,
    }
}

/// Relies on `rustix::time::clock_gettime` on the monotonic clock: seconds
/// and nanoseconds since some fixed point, with the nanosecond part in
/// `[0, 1_000_000_000)`.
#[verifier::external_body]
fn monotonic_clock() -> (r: (i64, i64))
    ensures
        0 <= r.1 < 1000000000,
{
    let ts = rustix::time::clock_gettime(rustix::time::ClockId::Monotonic);
    (ts.tv_sec, ts.tv_nsec)
}

/// The pid of the newly created or re-imaged process a lifecycle event
/// denotes: exec and fork events carry one; other events are ignored.
pub open spec fn spec_event_new_pid(e: ProcEvent) -> Option<i32> {
    match e {
        ProcEvent::Exec(pid) => Some(pid),
        ProcEvent::Fork(pid) => Some(pid),
        ProcEvent::Other => None,
    }
}

/// Picks the pid of the process a lifecycle event newly created or
/// re-imaged, if it denotes one.
pub fn event_new_pid(e: &ProcEvent) -> (r: Option<i32>)
    ensures
        r == spec_event_new_pid(*e),
{
    match e {
        ProcEvent::Exec(pid) => Some(*pid),
        ProcEvent::Fork(pid) => Some(*pid),
        ProcEvent::Other => None,
    }
}

/// Whether at least `timeout_ms` milliseconds lie between two readings of
/// the monotonic clock, each given as seconds and nanoseconds.
pub open spec fn spec_elapsed_at_least(start: (i64, i64), now: (i64, i64), timeout_ms: u64) -> bool {
    (now.0 - start.0) * 1000000000 + (now.1 - start.1) >= timeout_ms * 1000000
}

/// Decides whether at least `timeout_ms` milliseconds lie between two
/// readings of the monotonic clock.
fn elapsed_at_least(start: (i64, i64), now: (i64, i64), timeout_ms: u64) -> (r: bool)
    ensures
        r == spec_elapsed_at_least(start, now, timeout_ms),
{
    let ns: i128 = (now.0 as i128 - start.0 as i128) * 1000000000 + (now.1 as i128
        - start.1 as i128);
    ns >= (timeout_ms as i128) * 1000000
}

/// The production implementation of the system boundary. Its abstract state
/// — the snapshot the last scan saw, the last clock reading, the number of
/// sync calls, whether the last scan and wait failed, and the timeout the
/// last wait was bounded by — is carried as ghost bookkeeping alongside
/// the live calls.
pub struct LiveSystem {
    snapshot: Ghost<Seq<ProcInfo>>,
    clock: Ghost<i64>,
    syncs: Ghost<nat>,
    scan_failure: Ghost<bool>,
    wait_failure: Ghost<bool>,
    wait_timeout: Ghost<u64>,
}

impl LiveSystem {
    /// A fresh handle on the live system, with no sync triggered yet.
    pub fn new() -> (s: LiveSystem)
        ensures
            s.sync_count() == 0,
    {
        LiveSystem {
            snapshot: Ghost(Seq::empty()),
            clock: Ghost(0),
            syncs: Ghost(0),
            scan_failure: Ghost(false),
            wait_failure: Ghost(false),
            wait_timeout: Ghost(0),
        }
    }
}

impl System for LiveSystem {
    closed spec fn procs(&self) -> Seq<ProcInfo> {
        self.snapshot@
    }

    closed spec fn now_ms(&self) -> i64 {
        self.clock@
    }

    closed spec fn sync_count(&self) -> nat {
        self.syncs@
    }

    closed spec fn scan_failed(&self) -> bool {
        self.scan_failure@
    }

    closed spec fn wait_failed(&self) -> bool {
        self.wait_failure@
    }

    closed spec fn wait_timeout_ms(&self) -> u64 {
        self.wait_timeout@
    }

    fn find_oldest_kworker<F: IsKworkerFn>(&mut self, is_kworker: &F) -> (r: Result<
        Option<ProcInfo>,
        ScanError,
    >) {
        match scan_processes() {
            Err(message) => {
                self.scan_failure = Ghost(true);
                Err(ScanError { message })
            },
            Ok(snapshot) => {
                self.scan_failure = Ghost(false);
                self.snapshot = Ghost(snapshot@);
                Ok(oldest_match(&snapshot, is_kworker))
            },
        }
    }

    fn now(&mut self) -> (t: i64) {
        let t: i64 = wall_clock_ms();
        self.clock = Ghost(t);
        t
    }

    fn wait_for_kworker<F: IsKworkerFn>(&mut self, is_kworker: &F, timeout_ms: u64) -> (r: Result<
        (),
        WaitError,
    >) {
        self.wait_timeout = Ghost(timeout_ms);
        let mut monitor = match pid_monitor_new() {
            Ok(m) => m,
            Err(message) => {
                self.wait_failure = Ghost(true);
                return Err(WaitError { message });
            },
        };
        let start = monotonic_clock();
        // The wait is bounded by wall-clock time, not by a step count, yet
        // every loop needs a decreasing measure; this step budget lies far
        // beyond what any real event stream reaches, and exhausting it acts
        // like the safety-net timeout: the caller re-scans.
        let mut budget: u64 = u64::MAX;
        loop
            invariant
                self.snapshot == old(self).snapshot,
                self.clock == old(self).clock,
                self.syncs == old(self).syncs,
                self.scan_failure == old(self).scan_failure,
                self.wait_timeout@ == timeout_ms,
            decreases budget,
        {
            if budget == 0 {
                self.wait_failure = Ghost(false);
                return Ok(());
            }
            budget = budget - 1;
            let now = monotonic_clock();
            if elapsed_at_least(start, now, timeout_ms) {
                self.wait_failure = Ghost(false);
                return Ok(());
            }
            let event = match monitor_recv(&mut monitor) {
                Some(e) => e,
                None => {
                    self.wait_failure = Ghost(true);
                    return Err(
                        WaitError {
                            message: "failed to receive process event from kernel".to_owned(),
                        },
                    );
                },
            };
            match event_new_pid(&event) {
                Some(pid) => {
                    match read_proc_info(pid) {
                        Some(info) => {
                            if is_kworker.is_kworker(&info) {
                                self.wait_failure = Ghost(false);
                                return Ok(());
                            }
                        },
                        None => {},
                    }
                },
                None => {},
            }
        }
    }

    fn sync(&mut self) {
        self.syncs = Ghost(self.syncs@ + 1);
        sync_filesystems();
    }
}

} // verus!
