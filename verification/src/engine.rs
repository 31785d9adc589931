//! The decision engine: one monitoring cycle over an abstract system
//! boundary, and the timing constants that govern the loop around it.

use vstd::prelude::*;

use crate::process::{spec_oldest_match, IsKworkerFn, ProcInfo};

verus! {

/// The polling interval, in milliseconds, while a matching kworker is
/// running but has not yet exceeded its age threshold: a tight loop to catch
/// it as soon as it does.
pub const BUSY_POLLING_MS: u64 = 1000;

/// The polling interval, in milliseconds, after an error has occurred: a
/// back-off so that repeated errors do not spam the logs.
pub const IDLE_POLLING_MS: u64 = 60000;

/// The upper bound, in milliseconds, on one event wait. The kernel may drop
/// process events on a busy system, so a full process rescan follows in any
/// case once this much time has passed.
pub const MAX_MONITOR_DURATION_MS: u64 = 60000;

/// How long, in milliseconds, monitoring pauses after a sync was triggered,
/// to let the system recover and stabilize.
pub const EXPECTED_RECOVERY_TIME_MS: u64 = 30000;

/// Process enumeration itself failed. Per-process read misses during a scan
/// are not errors; they are silently skipped.
#[derive(Debug)]
pub struct ScanError {
    /// What the enumeration step reported.
    pub message: String,
}

/// The process-event subscription became unusable. A timeout of the wait is
/// not an error.
#[derive(Debug)]
pub struct WaitError {
    /// What the subscription step reported.
    pub message: String,
}

/// What one decision cycle can fail with, naming the step that failed.
#[derive(Debug)]
pub enum WorkaroundError {
    /// The scan for matching processes failed.
    Scan(ScanError),
    /// The wait for a new matching process failed.
    Wait(WaitError),
}

/// The system boundary the decision engine runs against: a process scan, a
/// wall clock, a bounded wait for process events, and the sync action.
///
/// The spec functions are the abstract state a cycle's contract speaks
/// of: the snapshot the last successful scan saw, the time the last clock
/// read returned, how many times the sync action has run, whether the
/// last scan and the last wait failed, and the timeout the last wait was
/// bounded by. The outcome observables tie each step's result to the
/// boundary: a scan or a wait returns an error exactly when its
/// observable reports a failure.
pub trait System: Sized {
    /// The process snapshot that the last successful scan saw.
    spec fn procs(&self) -> Seq<ProcInfo>;

    /// The wall-clock time that the last clock read returned, in
    /// milliseconds since the Unix epoch.
    spec fn now_ms(&self) -> i64;

    /// How many times the sync action has been triggered.
    spec fn sync_count(&self) -> nat;

    /// Whether the last scan failed: the process enumeration itself could
    /// not be performed.
    spec fn scan_failed(&self) -> bool;

    /// Whether the last wait failed: the event subscription became
    /// unusable. A timeout is success, not a failure.
    spec fn wait_failed(&self) -> bool;

    /// The safety-net timeout, in milliseconds, that the last wait was
    /// bounded by.
    spec fn wait_timeout_ms(&self) -> u64;

    /// Finds the oldest running process that matches the given predicate:
    /// on success, exactly the oldest match within the snapshot this scan
    /// saw, or `None` when no process matches. Fails if and only if the
    /// enumeration itself cannot be performed.
    fn find_oldest_kworker<F: IsKworkerFn>(&mut self, is_kworker: &F) -> (r: Result<
        Option<ProcInfo>,
        ScanError,
    >)
        ensures
            final(self).sync_count() == old(self).sync_count(),
            final(self).now_ms() == old(self).now_ms(),
            final(self).wait_failed() == old(self).wait_failed(),
            final(self).wait_timeout_ms() == old(self).wait_timeout_ms(),
            (r is Err) <==> final(self).scan_failed(),
            r matches Ok(v) ==> v == spec_oldest_match(final(self).procs(), *is_kworker),
    ;

    /// Returns the current wall-clock time, in milliseconds since the Unix
    /// epoch.
    fn now(&mut self) -> (t: i64)
        ensures
            final(self).sync_count() == old(self).sync_count(),
            final(self).procs() == old(self).procs(),
            final(self).scan_failed() == old(self).scan_failed(),
            final(self).wait_failed() == old(self).wait_failed(),
            final(self).wait_timeout_ms() == old(self).wait_timeout_ms(),
            t == final(self).now_ms(),
    ;

    /// Blocks until a process lifecycle event for a process matching the
    /// predicate arrives, or until `timeout_ms` milliseconds have passed,
    /// whichever is first; both completions return success. Fails if and
    /// only if the event subscription becomes unusable. Triggers no sync.
    fn wait_for_kworker<F: IsKworkerFn>(&mut self, is_kworker: &F, timeout_ms: u64) -> (r: Result<
        (),
        WaitError,
    >)
        ensures
            final(self).sync_count() == old(self).sync_count(),
            final(self).procs() == old(self).procs(),
            final(self).now_ms() == old(self).now_ms(),
            final(self).scan_failed() == old(self).scan_failed(),
            final(self).wait_timeout_ms() == timeout_ms,
            (r is Err) <==> final(self).wait_failed(),
    ;

    /// Triggers a system-wide sync of filesystem buffers, exactly once.
    fn sync(&mut self)
        requires
            old(self).sync_count() < u64::MAX,
        ensures
            final(self).sync_count() == old(self).sync_count() + 1,
            final(self).procs() == old(self).procs(),
            final(self).now_ms() == old(self).now_ms(),
            final(self).scan_failed() == old(self).scan_failed(),
            final(self).wait_failed() == old(self).wait_failed(),
            final(self).wait_timeout_ms() == old(self).wait_timeout_ms(),
    ;
}

/// Whether a cycle that selected `oldest` at time `now_ms` must trigger the
/// sync: only a match strictly older than the threshold does.
pub open spec fn should_sync(oldest: Option<ProcInfo>, now_ms: int, threshold_ms: int) -> bool {
    match oldest {
        Some(p) => now_ms - p.starttime > threshold_ms,
        None => false,
    }
}

/// The delay, in milliseconds, before the next cycle: zero after a wait (so
/// that the caller re-scans at once), the recovery pause after a sync, and
/// the busy-poll interval while a match is still young.
pub open spec fn cycle_delay_ms(oldest: Option<ProcInfo>, now_ms: int, threshold_ms: int) -> u64 {
    match oldest {
        None => 0,
        Some(p) => if now_ms - p.starttime > threshold_ms {
            EXPECTED_RECOVERY_TIME_MS
        } else {
            BUSY_POLLING_MS
        },
    }
}

/// When no process in the snapshot matches the predicate, the cycle
/// selects nothing, must not trigger the sync, and asks for an immediate
/// re-scan (a zero delay).
pub proof fn lemma_no_match_no_sync<F: IsKworkerFn>(
    procs: Seq<ProcInfo>,
    f: F,
    now_ms: int,
    threshold_ms: int,
)
    requires
        forall|i: int| 0 <= i < procs.len() ==> !f.matches_spec(#[trigger] procs[i]),
    ensures
        spec_oldest_match(procs, f) is None,
        !should_sync(spec_oldest_match(procs, f), now_ms, threshold_ms),
        cycle_delay_ms(spec_oldest_match(procs, f), now_ms, threshold_ms) == 0,
{
    crate::process::lemma_oldest_match_correct(procs, f);
}

/// A matching process whose age is at or below the threshold triggers no
/// sync, and the cycle yields the busy-poll interval.
pub proof fn lemma_below_threshold(p: ProcInfo, now_ms: int, threshold_ms: int)
    requires
        now_ms - p.starttime <= threshold_ms,
    ensures
        !should_sync(Some(p), now_ms, threshold_ms),
        cycle_delay_ms(Some(p), now_ms, threshold_ms) == BUSY_POLLING_MS,
{
}

/// A matching process whose age exceeds the threshold triggers the sync,
/// and the cycle yields the recovery pause.
pub proof fn lemma_above_threshold(p: ProcInfo, now_ms: int, threshold_ms: int)
    requires
        now_ms - p.starttime > threshold_ms,
    ensures
        should_sync(Some(p), now_ms, threshold_ms),
        cycle_delay_ms(Some(p), now_ms, threshold_ms) == EXPECTED_RECOVERY_TIME_MS,
{
}

/// Oldest-wins: when some process in the snapshot matches, the cycle's
/// decision is taken on a matching process whose start time is minimal
/// among all matching processes.
pub proof fn lemma_oldest_wins<F: IsKworkerFn>(procs: Seq<ProcInfo>, f: F)
    requires
        exists|i: int| 0 <= i < procs.len() && f.matches_spec(#[trigger] procs[i]),
    ensures
        spec_oldest_match(procs, f) matches Some(p) ==> {
            &&& f.matches_spec(p)
            &&& exists|i: int| 0 <= i < procs.len() && #[trigger] procs[i] == p
            &&& forall|i: int|
                0 <= i < procs.len() && f.matches_spec(#[trigger] procs[i]) ==> p.starttime
                    <= procs[i].starttime
        },
        spec_oldest_match(procs, f) is Some,
{
    crate::process::lemma_oldest_match_correct(procs, f);
}

/// Idempotence: the decision cycle is a pure function of the snapshot, the
/// clock and the threshold. Two cycles over unchanged inputs reach the
/// same sync decision and the same delay — there is no hidden state.
pub proof fn lemma_cycle_idempotent<F: IsKworkerFn>(
    procs1: Seq<ProcInfo>,
    procs2: Seq<ProcInfo>,
    f: F,
    now1: int,
    now2: int,
    threshold1: int,
    threshold2: int,
)
    requires
        procs1 == procs2,
        now1 == now2,
        threshold1 == threshold2,
    ensures
        should_sync(spec_oldest_match(procs1, f), now1, threshold1) == should_sync(
            spec_oldest_match(procs2, f),
            now2,
            threshold2,
        ),
        cycle_delay_ms(spec_oldest_match(procs1, f), now1, threshold1) == cycle_delay_ms(
            spec_oldest_match(procs2, f),
            now2,
            threshold2,
        ),
{
}

/// Acts on the oldest matching kworker a successful scan selected: reads
/// the clock, compares the process's age against the threshold, triggers
/// the sync exactly when the age exceeds it, and returns the next-cycle
/// delay. This path makes no fallible call, so it owes its result
/// unconditionally.
pub fn act_on_match<T: System>(
    system: &mut T,
    kworker: &ProcInfo,
    runtime_threshold_ms: i64,
) -> (d: u64)
    requires
        old(system).sync_count() < u64::MAX,
    ensures
        d == cycle_delay_ms(
            Some(*kworker),
            final(system).now_ms() as int,
            runtime_threshold_ms as int,
        ),
        final(system).sync_count() == if should_sync(
            Some(*kworker),
            final(system).now_ms() as int,
            runtime_threshold_ms as int,
        ) {
            old(system).sync_count() + 1
        } else {
            old(system).sync_count()
        },
        final(system).procs() == old(system).procs(),
        final(system).scan_failed() == old(system).scan_failed(),
        final(system).wait_failed() == old(system).wait_failed(),
        final(system).wait_timeout_ms() == old(system).wait_timeout_ms(),
{
    let now: i64 = system.now();
    let elapsed: i128 = now as i128 - kworker.starttime as i128;
    if elapsed > runtime_threshold_ms as i128 {
        system.sync();
        EXPECTED_RECOVERY_TIME_MS
    } else {
        BUSY_POLLING_MS
    }
}

/// One decision cycle: scan for the oldest matching kworker; when one
/// exists, compare its age against the threshold and either trigger the
/// sync (returning the recovery pause) or do nothing (returning the
/// busy-poll interval); when none exists, block on the bounded event wait
/// and return a zero delay so that the caller re-scans at once. The cycle
/// succeeds if and only if the step it reached succeeded: a scan failure
/// is surfaced as the scan error, a wait failure as the wait error, and no
/// sync is triggered on any error path.
pub fn workaround<T: System, F: IsKworkerFn>(
    system: &mut T,
    is_kworker: &F,
    runtime_threshold_ms: i64,
) -> (r: Result<u64, WorkaroundError>)
    requires
        old(system).sync_count() < u64::MAX,
    ensures
        match r {
            Ok(d) => {
                let oldest = spec_oldest_match(final(system).procs(), *is_kworker);
                let now = final(system).now_ms() as int;
                &&& !final(system).scan_failed()
                &&& oldest is None ==> {
                    &&& !final(system).wait_failed()
                    &&& final(system).wait_timeout_ms() == MAX_MONITOR_DURATION_MS
                }
                &&& oldest is Some ==> final(system).wait_timeout_ms() == old(
                    system,
                ).wait_timeout_ms()
                &&& d == cycle_delay_ms(oldest, now, runtime_threshold_ms as int)
                &&& final(system).sync_count() == if should_sync(
                    oldest,
                    now,
                    runtime_threshold_ms as int,
                ) {
                    old(system).sync_count() + 1
                } else {
                    old(system).sync_count()
                }
            },
            Err(WorkaroundError::Scan(_)) => {
                &&& final(system).scan_failed()
                &&& final(system).wait_timeout_ms() == old(system).wait_timeout_ms()
                &&& final(system).sync_count() == old(system).sync_count()
            },
            Err(WorkaroundError::Wait(_)) => {
                &&& !final(system).scan_failed()
                &&& final(system).wait_failed()
                &&& final(system).wait_timeout_ms() == MAX_MONITOR_DURATION_MS
                &&& spec_oldest_match(final(system).procs(), *is_kworker) is None
                &&& final(system).sync_count() == old(system).sync_count()
            },
        },
        !final(system).scan_failed() && (spec_oldest_match(final(system).procs(), *is_kworker)
            is Some || !final(system).wait_failed()) ==> r is Ok,
{
    let scan = system.find_oldest_kworker(is_kworker);
    match scan {
        Err(e) => Err(WorkaroundError::Scan(e)),
        Ok(Some(kworker)) => Ok(act_on_match(system, &kworker, runtime_threshold_ms)),
        Ok(None) => {
            match system.wait_for_kworker(is_kworker, MAX_MONITOR_DURATION_MS) {
                Ok(_) => Ok(0),
                Err(e) => Err(WorkaroundError::Wait(e)),
            }
        },
    }
}

} // verus!
