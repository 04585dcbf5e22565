use repo_mirror::workflow::{
    abort_message, event_fits, initial_phase, step, Event, FailReason, Phase, RemoteStatus,
};

#[test]
fn fresh_environment_full_run() {
    // Empty environment, nothing on disk: the directory is created, the
    // repository cloned, the mirror remote registered, the branch pushed.
    let mut phase = initial_phase();
    assert_eq!(phase, Phase::CheckingWorkdir);
    phase = step(phase, Event::WorkdirChecked(false));
    assert_eq!(phase, Phase::CreatingWorkdir);
    phase = step(phase, Event::WorkdirCreated(true));
    assert_eq!(phase, Phase::ProbingRepo);
    phase = step(phase, Event::RepoProbed(false));
    assert_eq!(phase, Phase::CloningRepo);
    phase = step(phase, Event::CloneFinished(true));
    assert_eq!(phase, Phase::CheckingMirrorRemote);
    phase = step(phase, Event::RemoteChecked(RemoteStatus::Absent));
    assert_eq!(phase, Phase::AddingMirrorRemote);
    phase = step(phase, Event::RemoteAdded(true));
    assert_eq!(phase, Phase::PushingMirror);
    phase = step(phase, Event::PushFinished(true));
    assert_eq!(phase, Phase::Done);
}

#[test]
fn existing_repo_and_remote_run() {
    // A valid repository and a registered mirror remote: fetch instead of
    // clone, no registration, then the push.
    let mut phase = initial_phase();
    phase = step(phase, Event::WorkdirChecked(true));
    assert_eq!(phase, Phase::ProbingRepo);
    phase = step(phase, Event::RepoProbed(true));
    assert_eq!(phase, Phase::FetchingUpstream);
    phase = step(phase, Event::FetchFinished(true));
    assert_eq!(phase, Phase::CheckingMirrorRemote);
    phase = step(phase, Event::RemoteChecked(RemoteStatus::Present));
    assert_eq!(phase, Phase::PushingMirror);
    phase = step(phase, Event::PushFinished(true));
    assert_eq!(phase, Phase::Done);
}

#[test]
fn probe_branch_is_exclusive() {
    // The probe answer picks exactly one of cloning and fetching.
    assert_eq!(step(Phase::ProbingRepo, Event::RepoProbed(false)), Phase::CloningRepo);
    assert_eq!(step(Phase::ProbingRepo, Event::RepoProbed(true)), Phase::FetchingUpstream);
}

#[test]
fn clone_failure_aborts() {
    // A failing clone ends the run at once: the failed phase accepts no
    // further event.
    let phase = step(Phase::CloningRepo, Event::CloneFinished(false));
    assert_eq!(phase, Phase::Failed(FailReason::CloneFailed));
    assert!(!event_fits(phase, Event::RemoteChecked(RemoteStatus::Absent)));
    assert!(!event_fits(phase, Event::PushFinished(true)));
    assert_eq!(
        abort_message(FailReason::CloneFailed),
        "git clone failed: Failed to clone the rust repo"
    );
}

#[test]
fn unexpected_remote_check_failure_aborts() {
    // A remote query that fails for a reason other than absence is an
    // unexpected error, distinct from the self-healing absent case.
    let phase = step(Phase::CheckingMirrorRemote, Event::RemoteChecked(RemoteStatus::Failed));
    assert_eq!(phase, Phase::Failed(FailReason::RemoteCheckFailed));
    assert_ne!(phase, step(Phase::CheckingMirrorRemote, Event::RemoteChecked(RemoteStatus::Absent)));
    assert_eq!(
        abort_message(FailReason::RemoteCheckFailed),
        "unexpected error: the remote query failed"
    );
}

#[test]
fn workdir_create_failure_aborts() {
    let phase = step(Phase::CreatingWorkdir, Event::WorkdirCreated(false));
    assert_eq!(phase, Phase::Failed(FailReason::WorkdirCreateFailed));
    assert_eq!(abort_message(FailReason::WorkdirCreateFailed), "unable to create workdir");
}

#[test]
fn fetch_failure_aborts() {
    let phase = step(Phase::FetchingUpstream, Event::FetchFinished(false));
    assert_eq!(phase, Phase::Failed(FailReason::FetchFailed));
    assert_eq!(
        abort_message(FailReason::FetchFailed),
        "git fetch failed: Failed to fetch from origin"
    );
}

#[test]
fn remote_add_failure_aborts() {
    let phase = step(Phase::AddingMirrorRemote, Event::RemoteAdded(false));
    assert_eq!(phase, Phase::Failed(FailReason::RemoteAddFailed));
    assert_eq!(
        abort_message(FailReason::RemoteAddFailed),
        "git remote add sg failed: Failed to add SEXXI remote"
    );
}

#[test]
fn push_failure_aborts() {
    let phase = step(Phase::PushingMirror, Event::PushFinished(false));
    assert_eq!(phase, Phase::Failed(FailReason::PushFailed));
    assert_eq!(
        abort_message(FailReason::PushFailed),
        "git push failed: Failed to force push to sg"
    );
}

#[test]
fn events_fit_only_their_phase() {
    assert!(event_fits(Phase::CheckingWorkdir, Event::WorkdirChecked(true)));
    assert!(event_fits(Phase::CreatingWorkdir, Event::WorkdirCreated(false)));
    assert!(event_fits(Phase::ProbingRepo, Event::RepoProbed(true)));
    assert!(event_fits(Phase::CloningRepo, Event::CloneFinished(true)));
    assert!(event_fits(Phase::FetchingUpstream, Event::FetchFinished(true)));
    assert!(event_fits(Phase::CheckingMirrorRemote, Event::RemoteChecked(RemoteStatus::Present)));
    assert!(event_fits(Phase::AddingMirrorRemote, Event::RemoteAdded(true)));
    assert!(event_fits(Phase::PushingMirror, Event::PushFinished(true)));

    assert!(!event_fits(Phase::CheckingWorkdir, Event::RepoProbed(true)));
    assert!(!event_fits(Phase::ProbingRepo, Event::CloneFinished(true)));
    assert!(!event_fits(Phase::Done, Event::PushFinished(true)));
    assert!(!event_fits(Phase::Failed(FailReason::PushFailed), Event::PushFinished(true)));
}

#[test]
fn remote_present_skips_registration() {
    // Running the workflow again after a completed run: the remote is found,
    // registration is skipped, no error on that account.
    let phase = step(Phase::CheckingMirrorRemote, Event::RemoteChecked(RemoteStatus::Present));
    assert_eq!(phase, Phase::PushingMirror);
}
