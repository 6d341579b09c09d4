use git_bot::repo::CreatedCommit;
use git_bot::error::GitBotError;
use git_bot::status::{
    has_changes_in, is_changed_entry, STATUS_INDEX_MODIFIED, STATUS_INDEX_NEW, STATUS_WT_MODIFIED,
    STATUS_WT_NEW,
};
use git_bot::sync::{finish_push, sync_local, SyncEvent, SyncOutcome, SyncState};

fn made() -> CreatedCommit {
    CreatedCommit {
        id: vec![0xab, 0x01],
        parent: vec![0x0c, 0x00],
        identity_name: b"Sync Bot".to_vec(),
        identity_email: b"bot@example.com".to_vec(),
    }
}

fn run(events: Vec<SyncEvent>, path: &str) -> SyncState {
    let path = path.to_string();
    let mut state = SyncState::CheckingPath;
    for e in events {
        state = state.advance(e, &path);
    }
    state
}

#[test]
fn empty_status_has_no_changes() {
    assert!(!has_changes_in(&vec![]));
}

#[test]
fn unmodified_entries_have_no_changes() {
    // current, staged deletion, working-tree deletion, ignored
    assert!(!has_changes_in(&vec![0, 4, 512, 16384]));
}

#[test]
fn staged_entries_are_changes() {
    assert!(has_changes_in(&vec![0, STATUS_INDEX_NEW]));
    assert!(has_changes_in(&vec![STATUS_INDEX_MODIFIED]));
    assert!(is_changed_entry(1));
    assert!(is_changed_entry(2));
    assert!(!is_changed_entry(4));
}

#[test]
fn modified_entry_is_a_change() {
    assert!(has_changes_in(&vec![0, STATUS_WT_MODIFIED]));
    assert!(is_changed_entry(256));
}

#[test]
fn new_entry_is_a_change() {
    assert!(has_changes_in(&vec![STATUS_WT_NEW, 0]));
    assert!(is_changed_entry(128 | 1));
}

#[test]
fn clean_tree_is_skipped() {
    let state = run(
        vec![
            SyncEvent::PathChecked(true),
            SyncEvent::Opened(Ok(())),
            SyncEvent::StatusRead(Ok(vec![0, 0])),
            SyncEvent::Staged(Ok(())),
            SyncEvent::Committed(Ok(made())),
            SyncEvent::Pushed(true, String::new()),
        ],
        "/repo",
    );
    assert_eq!(state, SyncState::Done(SyncOutcome::Skipped));
}

#[test]
fn changed_tree_goes_through_commit_to_push() {
    let path = "/repo".to_string();
    let mut state = SyncState::CheckingPath.advance(SyncEvent::PathChecked(true), &path);
    assert_eq!(state, SyncState::Opening);
    state = state.advance(SyncEvent::Opened(Ok(())), &path);
    assert_eq!(state, SyncState::Inspecting);
    state = state.advance(SyncEvent::StatusRead(Ok(vec![256])), &path);
    assert_eq!(state, SyncState::Staging);
    state = state.advance(SyncEvent::Pushed(true, String::new()), &path);
    assert_eq!(state, SyncState::Staging);
    state = state.advance(SyncEvent::Staged(Ok(())), &path);
    assert_eq!(state, SyncState::Committing);
    state = state.advance(SyncEvent::Committed(Ok(made())), &path);
    assert_eq!(state, SyncState::Pushing(made()));
    state = state.advance(SyncEvent::Pushed(true, String::new()), &path);
    assert_eq!(state, SyncState::Done(SyncOutcome::Succeeded));
}

#[test]
fn failed_push_keeps_transport_text() {
    let state = run(
        vec![
            SyncEvent::PathChecked(true),
            SyncEvent::Opened(Ok(())),
            SyncEvent::StatusRead(Ok(vec![128])),
            SyncEvent::Staged(Ok(())),
            SyncEvent::Committed(Ok(made())),
            SyncEvent::Pushed(false, "rejected: non-fast-forward".to_string()),
            SyncEvent::Pushed(true, String::new()),
        ],
        "/repo",
    );
    assert_eq!(
        state,
        SyncState::Done(SyncOutcome::Failed(GitBotError::GitError(
            "rejected: non-fast-forward".to_string()
        )))
    );
}

#[test]
fn finish_push_reports_outcome() {
    assert_eq!(finish_push(true, "ignored".to_string()), SyncOutcome::Succeeded);
    assert_eq!(
        finish_push(false, "fatal: no remote".to_string()),
        SyncOutcome::Failed(GitBotError::GitError("fatal: no remote".to_string()))
    );
}

#[test]
fn engine_failures_end_the_sync() {
    let err = GitBotError::GitError("index locked".to_string());
    let state = run(
        vec![
            SyncEvent::PathChecked(true),
            SyncEvent::Opened(Ok(())),
            SyncEvent::StatusRead(Ok(vec![256])),
            SyncEvent::Staged(Err(err.clone())),
            SyncEvent::Committed(Ok(made())),
        ],
        "/repo",
    );
    assert_eq!(state, SyncState::Done(SyncOutcome::Failed(err.clone())));
    let state = run(
        vec![SyncEvent::PathChecked(true), SyncEvent::Opened(Err(err.clone()))],
        "/repo",
    );
    assert_eq!(state, SyncState::Done(SyncOutcome::Failed(err.clone())));
    let state = run(
        vec![
            SyncEvent::PathChecked(true),
            SyncEvent::Opened(Ok(())),
            SyncEvent::StatusRead(Err(err.clone())),
        ],
        "/repo",
    );
    assert_eq!(state, SyncState::Done(SyncOutcome::Failed(err.clone())));
    let state = run(
        vec![
            SyncEvent::PathChecked(true),
            SyncEvent::Opened(Ok(())),
            SyncEvent::StatusRead(Ok(vec![256])),
            SyncEvent::Staged(Ok(())),
            SyncEvent::Committed(Err(err.clone())),
            SyncEvent::Pushed(true, String::new()),
        ],
        "/repo",
    );
    assert_eq!(state, SyncState::Done(SyncOutcome::Failed(err)));
}

#[test]
fn missing_path_is_invalid() {
    let path = "/no/such/repository".to_string();
    let state = sync_local(&path, false, &"auto-sync".to_string());
    assert_eq!(
        state,
        SyncState::Done(SyncOutcome::Failed(GitBotError::InvalidPath(path)))
    );
}

#[test]
fn unopenable_path_is_an_engine_failure() {
    let path = "/no/such/repository".to_string();
    let state = sync_local(&path, true, &"auto-sync".to_string());
    match state {
        SyncState::Done(SyncOutcome::Failed(GitBotError::GitError(text))) => {
            assert!(!text.is_empty())
        }
        other => panic!("unexpected state {:?}", other),
    }
}

#[test]
fn descriptions_name_the_failure() {
    assert_eq!(
        GitBotError::InvalidPath("/repoB".to_string()).describe(),
        "Path inválido: /repoB"
    );
    assert_eq!(
        GitBotError::GitError("boom".to_string()).describe(),
        "Error de Git: boom"
    );
    assert_eq!(GitBotError::IoError("denied".to_string()).describe(), "Error de IO: denied");
    assert_eq!(
        GitBotError::ConfigError("missing field".to_string()).describe(),
        "Error de configuración: missing field"
    );
}
