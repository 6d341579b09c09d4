use git_bot::repo::CreatedCommit;
use git_bot::batch::{BatchRunner, RepoReport};
use git_bot::config::Config;
use git_bot::error::GitBotError;
use git_bot::schedule::{Scheduler, SchedulerAction};
use git_bot::sync::{sync_local, SyncEvent, SyncOutcome, SyncState};

fn made() -> CreatedCommit {
    CreatedCommit {
        id: vec![0xab, 0x01],
        parent: vec![0x0c, 0x00],
        identity_name: b"Sync Bot".to_vec(),
        identity_email: b"bot@example.com".to_vec(),
    }
}

fn paths(names: &[&str]) -> Vec<String> {
    names.iter().map(|s| s.to_string()).collect()
}

#[test]
fn config_rejects_zero_interval() {
    match Config::new(paths(&["/a"]), 0, "m".to_string()) {
        Err(GitBotError::ConfigError(_)) => {}
        _ => panic!("a zero interval must be refused"),
    }
}

#[test]
fn config_rejects_interval_beyond_seconds() {
    assert!(Config::new(paths(&["/a"]), u64::MAX / 3600 + 1, "m".to_string()).is_err());
    assert!(Config::new(paths(&["/a"]), u64::MAX / 3600, "m".to_string()).is_ok());
}

#[test]
fn config_keeps_its_values() {
    let c = Config::new(paths(&["/b", "/a", "/b"]), 2, "auto-sync".to_string()).unwrap();
    assert_eq!(c.repositories(), &paths(&["/b", "/a", "/b"]));
    assert_eq!(c.interval_hours(), 2);
    assert_eq!(c.interval_secs(), 7200);
    assert_eq!(c.commit_message(), "auto-sync");
    assert_eq!(c.push_arguments(), paths(&["push", "origin", "main"]));
    let c = c.with_push_target("upstream".to_string(), "trunk".to_string());
    assert_eq!(c.remote(), "upstream");
    assert_eq!(c.branch(), "trunk");
    assert_eq!(c.push_arguments(), paths(&["push", "upstream", "trunk"]));
}

#[test]
fn one_invalid_path_does_not_stop_the_batch() {
    let mut batch = BatchRunner::new(paths(&["/r1", "/missing", "/r3", "/r4"]));
    let mut n = 0;
    while let Some(path) = batch.next_repository() {
        let exists = path != "/missing";
        let state = if exists {
            SyncState::Done(SyncOutcome::Skipped)
        } else {
            sync_local(&path, false, &"m".to_string())
        };
        match state {
            SyncState::Done(outcome) => batch.record(outcome),
            _ => panic!("not finished"),
        }
        n += 1;
    }
    assert_eq!(n, 4);
    assert!(batch.is_complete());
    let reports = batch.reports();
    assert_eq!(reports.len(), 4);
    assert_eq!(reports[0].path, "/r1");
    assert_eq!(
        reports[1],
        RepoReport {
            path: "/missing".to_string(),
            outcome: SyncOutcome::Failed(GitBotError::InvalidPath("/missing".to_string())),
        }
    );
    assert_eq!(reports[2].outcome, SyncOutcome::Skipped);
    assert_eq!(reports[3].path, "/r4");
}

#[test]
fn record_on_complete_batch_changes_nothing() {
    let mut batch = BatchRunner::new(paths(&["/only"]));
    batch.record(SyncOutcome::Succeeded);
    batch.record(SyncOutcome::Skipped);
    assert_eq!(batch.reports().len(), 1);
    assert_eq!(batch.reports()[0].outcome, SyncOutcome::Succeeded);
    assert_eq!(batch.next_repository(), None);
}

#[test]
fn empty_batch_is_complete() {
    let batch = BatchRunner::new(vec![]);
    assert!(batch.is_complete());
    assert_eq!(batch.next_repository(), None);
}

#[test]
fn next_cycle_waits_full_interval_after_completion() {
    let mut s = Scheduler::new(3600);
    assert_eq!(s.next_action(), SchedulerAction::RunCycle);
    assert_eq!(s.cycle_completed(), SchedulerAction::Sleep(3600));
    assert_eq!(s.woke(1800), SchedulerAction::Sleep(1800));
    assert_eq!(s.next_action(), SchedulerAction::Sleep(1800));
    assert_eq!(s.woke(1799), SchedulerAction::Sleep(1));
    assert_eq!(s.woke(1), SchedulerAction::RunCycle);
    assert_eq!(s.next_action(), SchedulerAction::RunCycle);
    assert_eq!(s.cycle_completed(), SchedulerAction::Sleep(3600));
    assert_eq!(s.woke(u64::MAX), SchedulerAction::RunCycle);
    assert_eq!(s.cycle_completed(), SchedulerAction::Sleep(3600));
    for _ in 0..59 {
        assert!(matches!(s.woke(60), SchedulerAction::Sleep(_)));
    }
    assert_eq!(s.next_action(), SchedulerAction::Sleep(60));
    assert_eq!(s.woke(60), SchedulerAction::RunCycle);
}

#[test]
fn two_repositories_one_missing_then_sleep() {
    let config =
        Config::new(paths(&["/repoA", "/repoB"]), 1, "auto-sync".to_string()).unwrap();
    let mut scheduler = Scheduler::new(config.interval_secs());
    assert_eq!(scheduler.next_action(), SchedulerAction::RunCycle);
    let mut batch = BatchRunner::new(config.repositories().clone());

    let a = batch.next_repository().unwrap();
    assert_eq!(a, "/repoA");
    let mut state = SyncState::CheckingPath;
    for e in vec![
        SyncEvent::PathChecked(true),
        SyncEvent::Opened(Ok(())),
        SyncEvent::StatusRead(Ok(vec![256])),
        SyncEvent::Staged(Ok(())),
        SyncEvent::Committed(Ok(made())),
    ] {
        state = state.advance(e, &a);
    }
    assert_eq!(state, SyncState::Pushing(made()));
    state = state.advance(SyncEvent::Pushed(true, String::new()), &a);
    match state {
        SyncState::Done(o) => batch.record(o),
        _ => panic!("not finished"),
    }

    let b = batch.next_repository().unwrap();
    assert_eq!(b, "/repoB");
    match sync_local(&b, false, config.commit_message()) {
        SyncState::Done(o) => batch.record(o),
        _ => panic!("not finished"),
    }

    assert!(batch.is_complete());
    assert_eq!(batch.reports()[0].outcome, SyncOutcome::Succeeded);
    assert_eq!(
        batch.reports()[1].outcome,
        SyncOutcome::Failed(GitBotError::InvalidPath("/repoB".to_string()))
    );
    assert_eq!(scheduler.cycle_completed(), SchedulerAction::Sleep(3600));
}
