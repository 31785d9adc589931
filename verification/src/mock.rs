//! A deterministic, in-memory implementation of the system boundary, for
//! exercising the decision engine without touching the live system.

use vstd::prelude::*;

use crate::engine::{ScanError, System, WaitError};
use crate::process::{IsKworkerFn, ProcInfo};

verus! {

/// A deterministic `System`: a snapshot of at most one process, a fixed
/// clock, a counter of sync calls, and a scripted outcome for the wait
/// step.
pub struct MockSystem {
    /// The single process the snapshot holds, if any.
    pub kworker: Option<ProcInfo>,
    /// The fixed wall-clock time, in milliseconds since the Unix epoch.
    pub now: i64,
    /// How many times the sync action has been called.
    pub sync_calls: u64,
    /// What the scan step reports: success, or the message of its error.
    pub scan_result: Result<(), String>,
    /// What the wait step reports: success, or the message of its error.
    pub wait_result: Result<(), String>,
    /// The timeout the last wait was bounded by (ghost bookkeeping).
    pub wait_timeout: Ghost<u64>,
}

impl Default for MockSystem {
    /// An empty system: no process, the clock at zero, no sync calls, and
    /// scan and wait steps that succeed.
    fn default() -> (s: MockSystem)
        ensures
            s.kworker is None,
            s.now == 0,
            s.sync_calls == 0,
            s.scan_result is Ok,
            s.wait_result is Ok,
    {
        MockSystem {
            kworker: None,
            now: 0,
            sync_calls: 0,
            scan_result: Ok(()),
            wait_result: Ok(()),
            wait_timeout: Ghost(0),
        }
    }
}

impl System for MockSystem {
    open spec fn procs(&self) -> Seq<ProcInfo> {
        match self.kworker {
            Some(p) => seq![p],
            None => Seq::empty(),
        }
    }

    open spec fn now_ms(&self) -> i64 {
        self.now
    }

    open spec fn sync_count(&self) -> nat {
        self.sync_calls as nat
    }

    open spec fn scan_failed(&self) -> bool {
        self.scan_result is Err
    }

    open spec fn wait_failed(&self) -> bool {
        self.wait_result is Err
    }

    open spec fn wait_timeout_ms(&self) -> u64 {
        self.wait_timeout@
    }

    fn find_oldest_kworker<F: IsKworkerFn>(&mut self, is_kworker: &F) -> (r: Result<
        Option<ProcInfo>,
        ScanError,
    >)
        ensures
            *final(self) == *old(self),
    {
        proof {
            reveal_with_fuel(crate::process::oldest_match_upto, 2);
        }
        if let Err(s) = &self.scan_result {
            return Err(ScanError { message: s.clone() });
        }
        match &self.kworker {
            None => Ok(None),
            Some(p) => if is_kworker.is_kworker(p) {
                Ok(Some(p.clone()))
            } else {
                Ok(None)
            },
        }
    }

    fn now(&mut self) -> (t: i64)
        ensures
            *final(self) == *old(self),
    {
        self.now
    }

    fn wait_for_kworker<F: IsKworkerFn>(&mut self, is_kworker: &F, timeout_ms: u64) -> (r: Result<
        (),
        WaitError,
    >)
        ensures
            final(self).kworker == old(self).kworker,
            final(self).now == old(self).now,
            final(self).sync_calls == old(self).sync_calls,
            final(self).scan_result == old(self).scan_result,
            final(self).wait_result == old(self).wait_result,
    {
        self.wait_timeout = Ghost(timeout_ms);
        match &self.wait_result {
            Ok(_) => Ok(()),
            Err(s) => Err(WaitError { message: s.clone() }),
        }
    }

    fn sync(&mut self)
        ensures
            final(self).kworker == old(self).kworker,
            final(self).now == old(self).now,
            final(self).scan_result == old(self).scan_result,
            final(self).wait_result == old(self).wait_result,
            final(self).sync_calls == old(self).sync_calls + 1,
    {
        self.sync_calls = self.sync_calls + 1;
    }
}

} // verus!
