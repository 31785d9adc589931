//! Process records, the match predicate over them, and the choice of the
//! oldest matching record in a snapshot.

use vstd::prelude::*;

verus! {

/// A point-in-time record of one process: owner, start time and command
/// name. It is a snapshot, not a live handle; it is produced once and never
/// changed.
#[derive(Debug)]
pub struct ProcInfo {
    /// The user id of the process owner.
    pub uid: u32,
    /// The time the process began executing, in milliseconds since the Unix
    /// epoch.
    pub starttime: i64,
    /// The short command name of the process.
    pub comm: String,
}

impl Clone for ProcInfo {
    fn clone(&self) -> (r: Self)
        ensures
            r == *self,
    {
        ProcInfo { uid: self.uid, starttime: self.starttime, comm: self.comm.clone() }
    }
}

/// A pure predicate that picks out the kworker processes to monitor.
pub trait IsKworkerFn: Sized {
    /// What the predicate holds of a process record.
    spec fn matches_spec(&self, p: ProcInfo) -> bool;

    /// Decides whether `p` is a monitored kworker.
    fn is_kworker(&self, p: &ProcInfo) -> (r: bool)
        ensures
            r == self.matches_spec(*p),
    ;
}

/// What `glob_match::glob_match` returns for a pattern and a name.
pub uninterp spec fn glob_matches(pattern: Seq<char>, name: Seq<char>) -> bool;

/// Relies on `glob_match::glob_match`: whether a shell-style glob pattern
/// matches a string. The result depends on the two strings alone.
#[verifier::external_body]
fn glob_match_str(pattern: &str, name: &str) -> (r: bool)
    ensures
        r == glob_matches(pattern@, name@),
{
    glob_match::glob_match(pattern, name)
}

/// Matches processes owned by root whose command name matches a configured
/// glob pattern.
pub struct KworkerMatcher {
    /// The glob pattern a command name must match.
    pub process_glob: String,
}

impl IsKworkerFn for KworkerMatcher {
    open spec fn matches_spec(&self, p: ProcInfo) -> bool {
        p.uid == 0 && glob_matches(self.process_glob@, p.comm@)
    }

    fn is_kworker(&self, p: &ProcInfo) -> (r: bool) {
        p.uid == 0 && glob_match_str(self.process_glob.as_str(), p.comm.as_str())
    }
}

/// The oldest match among the first `n` records of `procs`: the record with
/// the smallest start time among those satisfying `f`; on a tie, the
/// earliest such record.
pub open spec fn oldest_match_upto<F: IsKworkerFn>(procs: Seq<ProcInfo>, f: F, n: int) -> Option<
    ProcInfo,
>
    decreases n,
{
    if n <= 0 {
        None
    } else {
        let prev = oldest_match_upto(procs, f, n - 1);
        let p = procs[n - 1];
        if !f.matches_spec(p) {
            prev
        } else {
            match prev {
                None => Some(p),
                Some(q) => if q.starttime <= p.starttime {
                    Some(q)
                } else {
                    Some(p)
                },
            }
        }
    }
}

/// The oldest matching record in a snapshot, if any: the one with the
/// smallest start time; on a tie, the earliest such record in the snapshot.
pub open spec fn spec_oldest_match<F: IsKworkerFn>(procs: Seq<ProcInfo>, f: F) -> Option<ProcInfo> {
    oldest_match_upto(procs, f, procs.len() as int)
}

proof fn lemma_oldest_match_upto<F: IsKworkerFn>(procs: Seq<ProcInfo>, f: F, n: int)
    requires
        0 <= n <= procs.len(),
    ensures
        (oldest_match_upto(procs, f, n) is None) <==> (forall|i: int|
            0 <= i < n ==> !f.matches_spec(#[trigger] procs[i])),
        oldest_match_upto(procs, f, n) matches Some(p) ==> {
            &&& f.matches_spec(p)
            &&& exists|i: int| 0 <= i < n && #[trigger] procs[i] == p
            &&& forall|i: int|
                0 <= i < n && f.matches_spec(#[trigger] procs[i]) ==> p.starttime
                    <= procs[i].starttime
        },
    decreases n,
{
    if n > 0 {
        lemma_oldest_match_upto(procs, f, n - 1);
    }
}

/// Oldest-wins: the selected record, when there is one, is a matching record
/// of the snapshot whose start time is minimal among all matching records;
/// and nothing is selected exactly when no record matches.
pub proof fn lemma_oldest_match_correct<F: IsKworkerFn>(procs: Seq<ProcInfo>, f: F)
    ensures
        (spec_oldest_match(procs, f) is None) <==> (forall|i: int|
            0 <= i < procs.len() ==> !f.matches_spec(#[trigger] procs[i])),
        spec_oldest_match(procs, f) matches Some(p) ==> {
            &&& f.matches_spec(p)
            &&& exists|i: int| 0 <= i < procs.len() && #[trigger] procs[i] == p
            &&& forall|i: int|
                0 <= i < procs.len() && f.matches_spec(#[trigger] procs[i]) ==> p.starttime
                    <= procs[i].starttime
        },
{
    lemma_oldest_match_upto(procs, f, procs.len() as int);
}

/// Scans a snapshot and returns the oldest record matching the predicate, or
/// `None` when no record matches.
pub fn oldest_match<F: IsKworkerFn>(procs: &Vec<ProcInfo>, is_kworker: &F) -> (r: Option<ProcInfo>)
    ensures
        r == spec_oldest_match(procs@, *is_kworker),
{
    let mut best: Option<ProcInfo> = None;
    let mut i: usize = 0;
    while i < procs.len()
        invariant
            i <= procs.len(),
            best == oldest_match_upto(procs@, *is_kworker, i as int),
        decreases procs.len() - i,
    {
        let p = &procs[i];
        if is_kworker.is_kworker(p) {
            let replace = match &best {
                None => true,
                Some(q) => p.starttime < q.starttime,
            };
            if replace {
                best = Some(p.clone());
            }
        }
        i = i + 1;
    }
    best
}

} // verus!
