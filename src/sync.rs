//! The synchronisation of one repository: detect, stage, commit, push.
//!
//! The decisions are a state machine: each state names the outside step the
//! synchronisation waits on, and each event is what that step reported.
//! The engine steps run here; the path check and the push transport are run
//! by the caller, which hands their results in as events.
use vstd::prelude::*;
use crate::error::GitBotError;
use crate::repo::{commit_stage, open_at, read_status, records, stage_all, CreatedCommit};
use crate::status::{any_changed, has_changes_in};

verus! {

/// How the synchronisation of one repository ended.
#[derive(Debug, Clone, PartialEq, Eq)]
pub enum SyncOutcome {
    /// The working tree had nothing to commit: nothing was staged, committed
    /// or pushed.
    Skipped,
    /// A commit was created and pushed.
    Succeeded,
    /// A step failed; the commit of an earlier step, if any, is kept.
    Failed(GitBotError),
}

/// Where the synchronisation of one repository stands.
#[derive(Debug, Clone, PartialEq, Eq)]
pub enum SyncState {
    /// Waiting to learn whether the configured path exists on disk.
    CheckingPath,
    /// Waiting for the working copy to open.
    Opening,
    /// Waiting for the working-tree status.
    Inspecting,
    /// Waiting for every change to be staged.
    Staging,
    /// Waiting for the commit on the branch tip.
    Committing,
    /// Waiting for the push transport, with the id of the commit to publish.
    Pushing(CreatedCommit),
    /// Finished, with its outcome.
    Done(SyncOutcome),
}

/// What an outside step reported.
#[derive(Debug, PartialEq, Eq)]
pub enum SyncEvent {
    /// Whether the configured path exists on disk.
    PathChecked(bool),
    /// Whether the working copy opened.
    Opened(Result<(), GitBotError>),
    /// The status flags of the working-tree entries.
    StatusRead(Result<Vec<u32>, GitBotError>),
    /// Whether staging succeeded.
    Staged(Result<(), GitBotError>),
    /// The id of the created commit, or why none was created.
    Committed(Result<CreatedCommit, GitBotError>),
    /// Whether the push transport succeeded, and its diagnostic text.
    Pushed(bool, String),
}

/// The state after `e`, in state `s`, for the repository at `path`. An event
/// that the state does not wait for changes nothing.
pub open spec fn next_state(s: SyncState, e: SyncEvent, path: String) -> SyncState {
    match s {
        SyncState::CheckingPath => match e {
            SyncEvent::PathChecked(exists) => if exists {
                SyncState::Opening
            } else {
                SyncState::Done(SyncOutcome::Failed(GitBotError::InvalidPath(path)))
            },
            _ => s,
        },
        SyncState::Opening => match e {
            SyncEvent::Opened(Ok(())) => SyncState::Inspecting,
            SyncEvent::Opened(Err(err)) => SyncState::Done(SyncOutcome::Failed(err)),
            _ => s,
        },
        SyncState::Inspecting => match e {
            SyncEvent::StatusRead(Ok(entries)) => if any_changed(entries@) {
                SyncState::Staging
            } else {
                SyncState::Done(SyncOutcome::Skipped)
            },
            SyncEvent::StatusRead(Err(err)) => SyncState::Done(SyncOutcome::Failed(err)),
            _ => s,
        },
        SyncState::Staging => match e {
            SyncEvent::Staged(Ok(())) => SyncState::Committing,
            SyncEvent::Staged(Err(err)) => SyncState::Done(SyncOutcome::Failed(err)),
            _ => s,
        },
        SyncState::Committing => match e {
            SyncEvent::Committed(Ok(id)) => SyncState::Pushing(id),
            SyncEvent::Committed(Err(err)) => SyncState::Done(SyncOutcome::Failed(err)),
            _ => s,
        },
        SyncState::Pushing(_) => match e {
            SyncEvent::Pushed(success, text) => if success {
                SyncState::Done(SyncOutcome::Succeeded)
            } else {
                SyncState::Done(SyncOutcome::Failed(GitBotError::GitError(text)))
            },
            _ => s,
        },
        SyncState::Done(_) => s,
    }
}

/// The state reached from `s` after each of `events` in turn.
pub open spec fn run_events(s: SyncState, events: Seq<SyncEvent>, path: String) -> SyncState
    decreases events.len(),
{
    if events.len() == 0 {
        s
    } else {
        run_events(next_state(s, events[0], path), events.drop_first(), path)
    }
}

impl SyncState {
    /// Whether the synchronisation has finished.
    pub fn is_done(&self) -> (r: bool)
        ensures
            r == (*self is Done),
    {
        match self {
            SyncState::Done(_) => true,
            _ => false,
        }
    }

    /// The state after `event`, for the repository at `path`.
    pub fn advance(self, event: SyncEvent, path: &String) -> (r: SyncState)
        ensures
            r == next_state(self, event, *path),
    {
        match self {
            SyncState::CheckingPath => match event {
                SyncEvent::PathChecked(exists) => if exists {
                    SyncState::Opening
                } else {
                    SyncState::Done(SyncOutcome::Failed(GitBotError::InvalidPath(path.clone())))
                },
                _ => self,
            },
            SyncState::Opening => match event {
                SyncEvent::Opened(Ok(())) => SyncState::Inspecting,
                SyncEvent::Opened(Err(err)) => SyncState::Done(SyncOutcome::Failed(err)),
                _ => self,
            },
            SyncState::Inspecting => match event {
                SyncEvent::StatusRead(Ok(entries)) => if has_changes_in(&entries) {
                    SyncState::Staging
                } else {
                    SyncState::Done(SyncOutcome::Skipped)
                },
                SyncEvent::StatusRead(Err(err)) => SyncState::Done(SyncOutcome::Failed(err)),
                _ => self,
            },
            SyncState::Staging => match event {
                SyncEvent::Staged(Ok(())) => SyncState::Committing,
                SyncEvent::Staged(Err(err)) => SyncState::Done(SyncOutcome::Failed(err)),
                _ => self,
            },
            SyncState::Committing => match event {
                SyncEvent::Committed(Ok(id)) => SyncState::Pushing(id),
                SyncEvent::Committed(Err(err)) => SyncState::Done(SyncOutcome::Failed(err)),
                _ => self,
            },
            SyncState::Pushing(_) => match event {
                SyncEvent::Pushed(success, text) => if success {
                    SyncState::Done(SyncOutcome::Succeeded)
                } else {
                    SyncState::Done(SyncOutcome::Failed(GitBotError::GitError(text)))
                },
                _ => self,
            },
            SyncState::Done(_) => self,
        }
    }
}

/// One more event extends a run by one step.
proof fn lemma_run_extend(s: SyncState, events: Seq<SyncEvent>, e: SyncEvent, path: String)
    ensures
        run_events(s, events.push(e), path) == next_state(run_events(s, events, path), e, path),
    decreases events.len(),
{
    if events.len() == 0 {
        assert(events.push(e).drop_first() =~= events);
        assert(events.push(e)[0] == e);
        assert(run_events(next_state(s, e, path), events, path) == next_state(s, e, path));
    } else {
        assert(events.push(e).drop_first() =~= events.drop_first().push(e));
        assert(events.push(e)[0] == events[0]);
        lemma_run_extend(next_state(s, events[0], path), events.drop_first(), e, path);
    }
}

/// A state that the synchronisation of the repository at `path` reaches from
/// its start through some sequence of reported events.
pub open spec fn reachable(r: SyncState, path: String) -> bool {
    exists|events: Seq<SyncEvent>| r == run_events(SyncState::CheckingPath, events, path)
}

/// Runs the engine part of one repository's synchronisation: opens the
/// working copy at `path` (whose existence on disk the caller has checked),
/// inspects it, and where it holds changes stages them and commits them with
/// `commit_message`. Returns a finished state, or `Pushing` with the new
/// commit when it waits for the push transport: that commit stores
/// `commit_message`, has the branch's former tip as its one parent and the
/// engine's configured identity as author and committer. Staging and the
/// commit run only where the machine waits for them. Either result is a
/// state of the synchronisation reached through the engine's reports. An existing path never gives `InvalidPath`, and without
/// the push nothing succeeds; what the engine reports decides the rest.
pub fn sync_local(path: &String, path_exists: bool, commit_message: &String) -> (r: SyncState)
    ensures
        r is Done || r is Pushing,
        reachable(r, *path),
        !path_exists ==> r == SyncState::Done(
            SyncOutcome::Failed(GitBotError::InvalidPath(*path)),
        ),
        path_exists ==> r != SyncState::Done(SyncOutcome::Failed(GitBotError::InvalidPath(*path))),
        path_exists ==> r != SyncState::Done(SyncOutcome::Succeeded),
        path_exists && r is Done && r->Done_0 is Failed ==> r->Done_0->Failed_0 is GitError,
        r is Pushing ==> records(r->Pushing_0, commit_message@),
{
    let ghost mut events: Seq<SyncEvent> = Seq::empty();
    let ghost seen = events;
    let ev = SyncEvent::PathChecked(path_exists);
    proof {
        events = events.push(ev);
    }
    let state = step(SyncState::CheckingPath, ev, path, Ghost(seen));
    if !path_exists {
        return state;
    }
    let repo = match open_at(path) {
        Ok(repo) => repo,
        Err(err) => {
            let ev = SyncEvent::Opened(Err(err));
            let ghost seen = events;
            proof {
                events = events.push(ev);
            }
            return step(state, ev, path, Ghost(seen));
        },
    };
    let ev = SyncEvent::Opened(Ok(()));
    let ghost seen = events;
    proof {
        events = events.push(ev);
    }
    let state = step(state, ev, path, Ghost(seen));
    let ev = SyncEvent::StatusRead(read_status(&repo));
    let ghost seen = events;
    proof {
        events = events.push(ev);
    }
    let state = step(state, ev, path, Ghost(seen));
    if state.is_done() {
        return state;
    }
    let mut index = match stage_all(&repo, &state) {
        Ok(index) => index,
        Err(err) => {
            let ev = SyncEvent::Staged(Err(err));
            let ghost seen = events;
            proof {
                events = events.push(ev);
            }
            return step(state, ev, path, Ghost(seen));
        },
    };
    let ev = SyncEvent::Staged(Ok(()));
    let ghost seen = events;
    proof {
        events = events.push(ev);
    }
    let state = step(state, ev, path, Ghost(seen));
    let ev = SyncEvent::Committed(commit_stage(&repo, &mut index, commit_message, &state));
    let ghost seen = events;
    proof {
        events = events.push(ev);
    }
    step(state, ev, path, Ghost(seen))
}

/// Advances a run of the synchronisation of the repository at `path` by one
/// reported event.
fn step(state: SyncState, ev: SyncEvent, path: &String, Ghost(events): Ghost<Seq<SyncEvent>>) -> (r:
    SyncState)
    requires
        state == run_events(SyncState::CheckingPath, events, *path),
    ensures
        r == next_state(state, ev, *path),
        r == run_events(SyncState::CheckingPath, events.push(ev), *path),
        reachable(r, *path),
{
    proof {
        lemma_run_extend(SyncState::CheckingPath, events, ev, *path);
    }
    state.advance(ev, path)
}

/// Ends a synchronisation that waits for the push transport, with what the
/// transport reported: `Succeeded`, or `Failed` with the transport's text.
pub fn finish_push(success: bool, diagnostic: String) -> (r: SyncOutcome)
    ensures
        success ==> r == SyncOutcome::Succeeded,
        !success ==> r == SyncOutcome::Failed(GitBotError::GitError(diagnostic)),
        forall|id: CreatedCommit, path: String|
            #[trigger] next_state(
                SyncState::Pushing(id),
                SyncEvent::Pushed(success, diagnostic),
                path,
            ) == SyncState::Done(r),
{
    if success {
        SyncOutcome::Succeeded
    } else {
        SyncOutcome::Failed(GitBotError::GitError(diagnostic))
    }
}

/// A finished synchronisation stays as it is, whatever is reported after.
pub proof fn lemma_finished_is_final(o: SyncOutcome, events: Seq<SyncEvent>, path: String)
    ensures
        run_events(SyncState::Done(o), events, path) == SyncState::Done(o),
    decreases events.len(),
{
    if events.len() > 0 {
        lemma_finished_is_final(o, events.drop_first(), path);
    }
}

/// A working tree with no modified or new entry is skipped: whatever is
/// reported afterwards, nothing is staged, committed or pushed.
pub proof fn lemma_clean_tree_is_skipped(entries: Vec<u32>, later: Seq<SyncEvent>, path: String)
    requires
        !any_changed(entries@),
    ensures
        next_state(SyncState::Inspecting, SyncEvent::StatusRead(Ok(entries)), path)
            == SyncState::Done(SyncOutcome::Skipped),
        run_events(SyncState::Inspecting, seq![SyncEvent::StatusRead(Ok(entries))] + later, path)
            == SyncState::Done(SyncOutcome::Skipped),
{
    let events = seq![SyncEvent::StatusRead(Ok(entries))] + later;
    assert(events.drop_first() =~= later);
    lemma_finished_is_final(SyncOutcome::Skipped, later, path);
}

/// A working tree with a modified or new entry goes on to staging, and the
/// push transport is only reached from a commit that was created: a run that
/// waits for the push, from any state that did not, was told of a successful
/// commit on the way.
pub proof fn lemma_push_follows_commit(s: SyncState, events: Seq<SyncEvent>, path: String)
    requires
        !(s is Pushing),
        run_events(s, events, path) is Pushing,
    ensures
        exists|i: int|
            0 <= i < events.len() && #[trigger] events[i] is Committed && events[i]->Committed_0 is Ok,
    decreases events.len(),
{
    if events.len() == 0 {
    } else {
        let t = next_state(s, events[0], path);
        if t is Pushing {
            assert(events[0] is Committed && events[0]->Committed_0 is Ok);
        } else {
            lemma_push_follows_commit(t, events.drop_first(), path);
            let i = choose|i: int|
                0 <= i < events.drop_first().len() && #[trigger] events.drop_first()[i] is Committed
                    && events.drop_first()[i]->Committed_0 is Ok;
            assert(events[i + 1] == events.drop_first()[i]);
        }
    }
}

/// A working tree with a modified or new entry is staged next.
pub proof fn lemma_changed_tree_is_staged(entries: Vec<u32>, path: String)
    requires
        any_changed(entries@),
    ensures
        next_state(SyncState::Inspecting, SyncEvent::StatusRead(Ok(entries)), path)
            == SyncState::Staging,
{
}

/// A failed push ends the synchronisation as `Failed` with the transport's
/// own text, and nothing reported afterwards undoes the commit before it.
pub proof fn lemma_failed_push_is_final(
    id: CreatedCommit,
    text: String,
    later: Seq<SyncEvent>,
    path: String,
)
    ensures
        run_events(SyncState::Pushing(id), seq![SyncEvent::Pushed(false, text)] + later, path)
            == SyncState::Done(SyncOutcome::Failed(GitBotError::GitError(text))),
{
    let events = seq![SyncEvent::Pushed(false, text)] + later;
    assert(events.drop_first() =~= later);
    lemma_finished_is_final(SyncOutcome::Failed(GitBotError::GitError(text)), later, path);
}

} // verus!
