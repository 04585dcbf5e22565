//! The mirroring workflow as a state machine.
//!
//! The orchestration is a linear sequence of external operations: ensure the
//! working directory exists, ensure a local clone exists (cloning or
//! fetching), ensure the mirror remote is registered, then force-push the
//! primary branch. Each phase names the operation that is pending; the
//! operation's outcome comes back as an event, and `step` decides the next
//! phase. Every failure is terminal: the workflow is re-run as a whole, never
//! resumed.

use vstd::prelude::*;

verus! {

/// Why a run aborted. Every reason is terminal: nothing is retried.
#[derive(Clone, Copy, Debug, PartialEq, Eq)]
pub enum FailReason {
    /// The working directory did not exist and could not be created.
    WorkdirCreateFailed,
    /// The clone of the upstream repository failed.
    CloneFailed,
    /// The fetch of the upstream remote into the existing clone failed.
    FetchFailed,
    /// The query for the mirror remote failed for some reason other than the
    /// remote being absent; only absence is self-healing.
    RemoteCheckFailed,
    /// Registering the mirror remote failed.
    RemoteAddFailed,
    /// The force-push onto the mirror failed.
    PushFailed,
}

/// Outcome of the query for the mirror remote. Absence is the one failure
/// the workflow heals by registering the remote; any other failure of the
/// query is unexpected and fatal.
#[derive(Clone, Copy, Debug, PartialEq, Eq)]
pub enum RemoteStatus {
    Present,
    Absent,
    Failed,
}

/// Outcome of one external operation, answering the phase that asked for it.
#[derive(Clone, Copy, Debug, PartialEq, Eq)]
pub enum Event {
    /// Whether the working directory already exists on disk.
    WorkdirChecked(bool),
    /// Whether creating the working directory (with its parents) succeeded.
    WorkdirCreated(bool),
    /// Whether a valid repository stands at the fixed repository subpath.
    RepoProbed(bool),
    /// Whether the clone of the upstream repository succeeded.
    CloneFinished(bool),
    /// Whether the fetch of the upstream remote succeeded.
    FetchFinished(bool),
    /// What the query for the mirror remote reported.
    RemoteChecked(RemoteStatus),
    /// Whether registering the mirror remote succeeded.
    RemoteAdded(bool),
    /// Whether the force-push succeeded.
    PushFinished(bool),
}

/// The pending operation, or a terminal state. The workflow starts at
/// `CheckingWorkdir` and walks forward; no phase is ever revisited.
#[derive(Clone, Copy, Debug, PartialEq, Eq)]
pub enum Phase {
    /// Ask whether the working directory exists.
    CheckingWorkdir,
    /// Create the working directory and its missing parents.
    CreatingWorkdir,
    /// Ask whether a valid repository stands at the repository subpath.
    ProbingRepo,
    /// Clone the upstream repository; no local repository was found.
    CloningRepo,
    /// Fetch the upstream remote; a local repository was found.
    FetchingUpstream,
    /// Ask whether the mirror remote is registered.
    CheckingMirrorRemote,
    /// Register the mirror remote; the query found it absent.
    AddingMirrorRemote,
    /// Force-push the primary branch onto the mirror.
    PushingMirror,
    /// The push succeeded; the run is complete.
    Done,
    /// The run aborted.
    Failed(FailReason),
}

/// Whether the event answers the operation pending in phase `p`. Terminal
/// phases have no pending operation, so no event fits them.
pub open spec fn fits(p: Phase, e: Event) -> bool {
    match (p, e) {
        (Phase::CheckingWorkdir, Event::WorkdirChecked(_)) => true,
        (Phase::CreatingWorkdir, Event::WorkdirCreated(_)) => true,
        (Phase::ProbingRepo, Event::RepoProbed(_)) => true,
        (Phase::CloningRepo, Event::CloneFinished(_)) => true,
        (Phase::FetchingUpstream, Event::FetchFinished(_)) => true,
        (Phase::CheckingMirrorRemote, Event::RemoteChecked(_)) => true,
        (Phase::AddingMirrorRemote, Event::RemoteAdded(_)) => true,
        (Phase::PushingMirror, Event::PushFinished(_)) => true,
        _ => false,
    }
}

/// The transition table. An event that does not answer the pending operation
/// leaves the phase where it is; under `fits` that case never arises.
pub open spec fn step_spec(p: Phase, e: Event) -> Phase {
    match (p, e) {
        (Phase::CheckingWorkdir, Event::WorkdirChecked(true)) => Phase::ProbingRepo,
        (Phase::CheckingWorkdir, Event::WorkdirChecked(false)) => Phase::CreatingWorkdir,
        (Phase::CreatingWorkdir, Event::WorkdirCreated(true)) => Phase::ProbingRepo,
        (Phase::CreatingWorkdir, Event::WorkdirCreated(false)) => Phase::Failed(
            FailReason::WorkdirCreateFailed,
        ),
        (Phase::ProbingRepo, Event::RepoProbed(true)) => Phase::FetchingUpstream,
        (Phase::ProbingRepo, Event::RepoProbed(false)) => Phase::CloningRepo,
        (Phase::CloningRepo, Event::CloneFinished(true)) => Phase::CheckingMirrorRemote,
        (Phase::CloningRepo, Event::CloneFinished(false)) => Phase::Failed(FailReason::CloneFailed),
        (Phase::FetchingUpstream, Event::FetchFinished(true)) => Phase::CheckingMirrorRemote,
        (Phase::FetchingUpstream, Event::FetchFinished(false)) => Phase::Failed(
            FailReason::FetchFailed,
        ),
        (Phase::CheckingMirrorRemote, Event::RemoteChecked(RemoteStatus::Present)) => Phase::PushingMirror,
        (Phase::CheckingMirrorRemote, Event::RemoteChecked(RemoteStatus::Absent)) => Phase::AddingMirrorRemote,
        (Phase::CheckingMirrorRemote, Event::RemoteChecked(RemoteStatus::Failed)) => Phase::Failed(
            FailReason::RemoteCheckFailed,
        ),
        (Phase::AddingMirrorRemote, Event::RemoteAdded(true)) => Phase::PushingMirror,
        (Phase::AddingMirrorRemote, Event::RemoteAdded(false)) => Phase::Failed(
            FailReason::RemoteAddFailed,
        ),
        (Phase::PushingMirror, Event::PushFinished(true)) => Phase::Done,
        (Phase::PushingMirror, Event::PushFinished(false)) => Phase::Failed(FailReason::PushFailed),
        _ => p,
    }
}

/// Every run starts by asking whether the working directory exists.
pub fn initial_phase() -> (p: Phase)
    ensures
        p == Phase::CheckingWorkdir,
{
    Phase::CheckingWorkdir
}

/// Whether the event answers the operation pending in phase `p`.
pub fn event_fits(p: Phase, e: Event) -> (b: bool)
    ensures
        b == fits(p, e),
{
    match (p, e) {
        (Phase::CheckingWorkdir, Event::WorkdirChecked(_)) => true,
        (Phase::CreatingWorkdir, Event::WorkdirCreated(_)) => true,
        (Phase::ProbingRepo, Event::RepoProbed(_)) => true,
        (Phase::CloningRepo, Event::CloneFinished(_)) => true,
        (Phase::FetchingUpstream, Event::FetchFinished(_)) => true,
        (Phase::CheckingMirrorRemote, Event::RemoteChecked(_)) => true,
        (Phase::AddingMirrorRemote, Event::RemoteAdded(_)) => true,
        (Phase::PushingMirror, Event::PushFinished(_)) => true,
        _ => false,
    }
}

/// Advance the workflow by one operation's outcome.
pub fn step(p: Phase, e: Event) -> (next: Phase)
    requires
        fits(p, e),
    ensures
        next == step_spec(p, e),
{
    match (p, e) {
        (Phase::CheckingWorkdir, Event::WorkdirChecked(true)) => Phase::ProbingRepo,
        (Phase::CheckingWorkdir, Event::WorkdirChecked(false)) => Phase::CreatingWorkdir,
        (Phase::CreatingWorkdir, Event::WorkdirCreated(true)) => Phase::ProbingRepo,
        (Phase::CreatingWorkdir, Event::WorkdirCreated(false)) => Phase::Failed(
            FailReason::WorkdirCreateFailed,
        ),
        (Phase::ProbingRepo, Event::RepoProbed(true)) => Phase::FetchingUpstream,
        (Phase::ProbingRepo, Event::RepoProbed(false)) => Phase::CloningRepo,
        (Phase::CloningRepo, Event::CloneFinished(true)) => Phase::CheckingMirrorRemote,
        (Phase::CloningRepo, Event::CloneFinished(false)) => Phase::Failed(FailReason::CloneFailed),
        (Phase::FetchingUpstream, Event::FetchFinished(true)) => Phase::CheckingMirrorRemote,
        (Phase::FetchingUpstream, Event::FetchFinished(false)) => Phase::Failed(
            FailReason::FetchFailed,
        ),
        (Phase::CheckingMirrorRemote, Event::RemoteChecked(RemoteStatus::Present)) => Phase::PushingMirror,
        (Phase::CheckingMirrorRemote, Event::RemoteChecked(RemoteStatus::Absent)) => Phase::AddingMirrorRemote,
        (Phase::CheckingMirrorRemote, Event::RemoteChecked(RemoteStatus::Failed)) => Phase::Failed(
            FailReason::RemoteCheckFailed,
        ),
        (Phase::AddingMirrorRemote, Event::RemoteAdded(true)) => Phase::PushingMirror,
        (Phase::AddingMirrorRemote, Event::RemoteAdded(false)) => Phase::Failed(
            FailReason::RemoteAddFailed,
        ),
        (Phase::PushingMirror, Event::PushFinished(true)) => Phase::Done,
        (Phase::PushingMirror, Event::PushFinished(false)) => Phase::Failed(FailReason::PushFailed),
        _ => p,
    }
}

/// The phase after running a whole sequence of outcomes from `p`.
pub open spec fn run(p: Phase, evs: Seq<Event>) -> Phase
    decreases evs.len(),
{
    if evs.len() == 0 {
        p
    } else {
        run(step_spec(p, evs[0]), evs.drop_first())
    }
}

/// Whether every event of the sequence answers the operation pending when it
/// arrives. App-driven runs are of this shape: each event is the outcome of
/// the operation the current phase asked for.
pub open spec fn wf_trace(p: Phase, evs: Seq<Event>) -> bool
    decreases evs.len(),
{
    evs.len() == 0 || (fits(p, evs[0]) && wf_trace(step_spec(p, evs[0]), evs.drop_first()))
}

/// The phases that operate on the repository itself; each presupposes that
/// the working directory exists.
pub open spec fn is_repo_phase(p: Phase) -> bool {
    ||| p is ProbingRepo
    ||| p is CloningRepo
    ||| p is FetchingUpstream
    ||| p is CheckingMirrorRemote
    ||| p is AddingMirrorRemote
    ||| p is PushingMirror
}

/// The events that establish that the working directory exists: it was found
/// on disk, or it was created.
pub open spec fn secures_workdir(e: Event) -> bool {
    e == Event::WorkdirChecked(true) || e == Event::WorkdirCreated(true)
}

/// How far along the linear workflow a phase stands. Every fitting step
/// strictly increases it, which is why no phase is ever revisited.
pub open spec fn rank(p: Phase) -> nat {
    match p {
        Phase::CheckingWorkdir => 0,
        Phase::CreatingWorkdir => 1,
        Phase::ProbingRepo => 2,
        Phase::CloningRepo => 3,
        Phase::FetchingUpstream => 3,
        Phase::CheckingMirrorRemote => 4,
        Phase::AddingMirrorRemote => 5,
        Phase::PushingMirror => 6,
        Phase::Done => 7,
        Phase::Failed(_) => 7,
    }
}

/// Running one more event is one more step.
proof fn lemma_run_push(p: Phase, evs: Seq<Event>, e: Event)
    ensures
        run(p, evs.push(e)) == step_spec(run(p, evs), e),
    decreases evs.len(),
{
    if evs.len() == 0 {
        assert(evs.push(e)[0] == e);
        assert(evs.push(e).drop_first() =~= Seq::<Event>::empty());
        assert(run(step_spec(p, e), Seq::<Event>::empty()) == step_spec(p, e));
        assert(run(p, evs.push(e)) == run(step_spec(p, e), evs.push(e).drop_first()));
    } else {
        assert(evs.push(e)[0] == evs[0]);
        assert(evs.push(e).drop_first() =~= evs.drop_first().push(e));
        lemma_run_push(step_spec(p, evs[0]), evs.drop_first(), e);
        assert(run(p, evs.push(e)) == run(step_spec(p, evs[0]), evs.drop_first().push(e)));
        assert(run(p, evs) == run(step_spec(p, evs[0]), evs.drop_first()));
    }
}

/// In a well-formed trace, the event at each position answers the operation
/// pending after the events before it.
proof fn lemma_wf_fits_at(p: Phase, evs: Seq<Event>, k: int)
    requires
        wf_trace(p, evs),
        0 <= k < evs.len(),
    ensures
        fits(run(p, evs.take(k)), evs[k]),
    decreases k,
{
    if k == 0 {
        assert(evs.take(0) =~= Seq::<Event>::empty());
    } else {
        lemma_wf_fits_at(step_spec(p, evs[0]), evs.drop_first(), k - 1);
        assert(evs.drop_first().take(k - 1) =~= evs.take(k).drop_first());
        assert(evs.take(k)[0] == evs[0]);
        assert(evs.drop_first()[k - 1] == evs[k]);
    }
}

/// Every fitting step moves strictly forward along the workflow.
proof fn lemma_step_rank(p: Phase, e: Event)
    requires
        fits(p, e),
    ensures
        rank(step_spec(p, e)) > rank(p),
{
}

/// Along a well-formed trace the workflow only moves forward: a later point
/// of the run stands strictly further along than an earlier one.
pub proof fn lemma_rank_increases(p: Phase, evs: Seq<Event>, m: int, n: int)
    requires
        wf_trace(p, evs),
        0 <= m < n <= evs.len(),
    ensures
        rank(run(p, evs.take(m))) < rank(run(p, evs.take(n))),
    decreases n - m,
{
    lemma_wf_fits_at(p, evs, n - 1);
    lemma_run_push(p, evs.take(n - 1), evs[n - 1]);
    assert(evs.take(n) =~= evs.take(n - 1).push(evs[n - 1]));
    lemma_step_rank(run(p, evs.take(n - 1)), evs[n - 1]);
    if m < n - 1 {
        lemma_rank_increases(p, evs, m, n - 1);
    }
}

/// No phase is ever revisited: a well-formed run never stands in the same
/// phase at two different points. In particular the clone, the fetch, the
/// registration and the push are each attempted at most once per run.
pub proof fn lemma_no_phase_revisited(evs: Seq<Event>, m: int, n: int)
    requires
        wf_trace(Phase::CheckingWorkdir, evs),
        0 <= m < n <= evs.len(),
    ensures
        run(Phase::CheckingWorkdir, evs.take(m)) != run(Phase::CheckingWorkdir, evs.take(n)),
{
    lemma_rank_increases(Phase::CheckingWorkdir, evs, m, n);
}

/// The working directory is secured before any repository operation: whenever
/// a run stands in a repository phase, an earlier event already found the
/// working directory on disk or created it. This holds of every event
/// sequence, well formed or not.
pub proof fn lemma_workdir_before_repo_op(evs: Seq<Event>, n: int)
    requires
        0 <= n <= evs.len(),
        is_repo_phase(run(Phase::CheckingWorkdir, evs.take(n))),
    ensures
        exists|i: int| 0 <= i < n && secures_workdir(evs[i]),
    decreases n,
{
    if n == 0 {
        assert(evs.take(0) =~= Seq::<Event>::empty());
    } else {
        let prev = run(Phase::CheckingWorkdir, evs.take(n - 1));
        lemma_run_push(Phase::CheckingWorkdir, evs.take(n - 1), evs[n - 1]);
        assert(evs.take(n) =~= evs.take(n - 1).push(evs[n - 1]));
        if is_repo_phase(prev) {
            lemma_workdir_before_repo_op(evs, n - 1);
            let i = choose|i: int| 0 <= i < n - 1 && secures_workdir(evs[i]);
            assert(0 <= i < n && secures_workdir(evs[i]));
        } else {
            assert(secures_workdir(evs[n - 1]));
            assert(0 <= n - 1 < n && secures_workdir(evs[n - 1]));
        }
    }
}

/// A probe answer chooses exactly one of cloning and fetching: a valid
/// repository is fetched into, a missing one is cloned.
pub proof fn lemma_probe_branch(valid: bool)
    ensures
        valid ==> step_spec(Phase::ProbingRepo, Event::RepoProbed(valid))
            == Phase::FetchingUpstream,
        !valid ==> step_spec(Phase::ProbingRepo, Event::RepoProbed(valid)) == Phase::CloningRepo,
{
}

/// Cloning and fetching are mutually exclusive within one run: a run that
/// ever stands in the cloning phase never stands in the fetching phase.
pub proof fn lemma_clone_fetch_exclusive(evs: Seq<Event>, m: int, n: int)
    requires
        wf_trace(Phase::CheckingWorkdir, evs),
        0 <= m <= evs.len(),
        0 <= n <= evs.len(),
        run(Phase::CheckingWorkdir, evs.take(m)) is CloningRepo,
    ensures
        !(run(Phase::CheckingWorkdir, evs.take(n)) is FetchingUpstream),
{
    if run(Phase::CheckingWorkdir, evs.take(n)) is FetchingUpstream {
        if m < n {
            lemma_rank_increases(Phase::CheckingWorkdir, evs, m, n);
        } else if n < m {
            lemma_rank_increases(Phase::CheckingWorkdir, evs, n, m);
        }
    }
}

/// When the mirror remote is found present, registration is never attempted:
/// a run whose remote query answered `Present` never stands in the
/// registration phase.
pub proof fn lemma_remote_present_no_registration(evs: Seq<Event>, k: int, n: int)
    requires
        wf_trace(Phase::CheckingWorkdir, evs),
        0 <= k < evs.len(),
        evs[k] == Event::RemoteChecked(RemoteStatus::Present),
        0 <= n <= evs.len(),
    ensures
        run(Phase::CheckingWorkdir, evs.take(n)) != Phase::AddingMirrorRemote,
{
    let start = Phase::CheckingWorkdir;
    lemma_wf_fits_at(start, evs, k);
    assert(run(start, evs.take(k)) == Phase::CheckingMirrorRemote);
    if run(start, evs.take(n)) == Phase::AddingMirrorRemote {
        assert(evs.take(0) =~= Seq::<Event>::empty());
        assert(n > 0);
        lemma_run_push(start, evs.take(n - 1), evs[n - 1]);
        assert(evs.take(n) =~= evs.take(n - 1).push(evs[n - 1]));
        lemma_wf_fits_at(start, evs, n - 1);
        let prev = run(start, evs.take(n - 1));
        assert(prev == Phase::CheckingMirrorRemote);
        assert(evs[n - 1] == Event::RemoteChecked(RemoteStatus::Absent));
        if k < n - 1 {
            lemma_rank_increases(start, evs, k, n - 1);
        } else if n - 1 < k {
            lemma_rank_increases(start, evs, n - 1, k);
        }
        assert(false);
    }
}

/// When the mirror remote is found absent, the registration phase follows at
/// once, and any push the run reaches comes only after it.
pub proof fn lemma_registration_before_push(evs: Seq<Event>, m: int, n: int)
    requires
        wf_trace(Phase::CheckingWorkdir, evs),
        0 <= m <= evs.len(),
        0 <= n <= evs.len(),
        run(Phase::CheckingWorkdir, evs.take(m)) == Phase::AddingMirrorRemote,
        run(Phase::CheckingWorkdir, evs.take(n)) == Phase::PushingMirror,
    ensures
        m < n,
{
    if n < m {
        lemma_rank_increases(Phase::CheckingWorkdir, evs, n, m);
    }
}

/// The message a run aborts with, naming the step that failed.
pub fn abort_message(r: FailReason) -> (msg: String)
    ensures
        r is WorkdirCreateFailed ==> msg@ == "unable to create workdir"@,
        r is CloneFailed ==> msg@ == "git clone failed: Failed to clone the rust repo"@,
        r is FetchFailed ==> msg@ == "git fetch failed: Failed to fetch from origin"@,
        r is RemoteCheckFailed ==> msg@ == "unexpected error: the remote query failed"@,
        r is RemoteAddFailed ==> msg@ == "git remote add sg failed: Failed to add SEXXI remote"@,
        r is PushFailed ==> msg@ == "git push failed: Failed to force push to sg"@,
{
    match r {
        FailReason::WorkdirCreateFailed => "unable to create workdir".to_owned(),
        FailReason::CloneFailed => "git clone failed: Failed to clone the rust repo".to_owned(),
        FailReason::FetchFailed => "git fetch failed: Failed to fetch from origin".to_owned(),
        FailReason::RemoteCheckFailed => "unexpected error: the remote query failed".to_owned(),
        FailReason::RemoteAddFailed => "git remote add sg failed: Failed to add SEXXI remote".to_owned(),
        FailReason::PushFailed => "git push failed: Failed to force push to sg".to_owned(),
    }
}

} // verus!
