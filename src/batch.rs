//! The batch runner: one cycle over every configured repository, in order,
//! where each repository's outcome is recorded and none stops the others.
use vstd::prelude::*;
use crate::sync::SyncOutcome;

verus! {

/// The outcome of one repository in a cycle.
#[derive(Debug, Clone, PartialEq, Eq)]
pub struct RepoReport {
    pub path: String,
    pub outcome: SyncOutcome,
}

/// The reports of a cycle over `paths` in which the first repositories ended
/// with `outcomes`, one for each, in order.
pub open spec fn reports_of(paths: Seq<String>, outcomes: Seq<SyncOutcome>) -> Seq<RepoReport> {
    Seq::new(outcomes.len(), |i: int| RepoReport { path: paths[i], outcome: outcomes[i] })
}

/// A cycle in progress over a fixed list of repositories.
pub struct BatchRunner {
    repositories: Vec<String>,
    reports: Vec<RepoReport>,
}

impl BatchRunner {
    pub closed spec fn spec_repositories(&self) -> Seq<String> {
        self.repositories@
    }

    pub closed spec fn spec_reports(&self) -> Seq<RepoReport> {
        self.reports@
    }

    /// Each report so far belongs to the repository in its place, and there
    /// are no more reports than repositories.
    pub open spec fn wf(&self) -> bool {
        &&& self.spec_reports().len() <= self.spec_repositories().len()
        &&& forall|i: int|
            0 <= i < self.spec_reports().len() ==> (#[trigger] self.spec_reports()[i]).path
                == self.spec_repositories()[i]
    }

    /// A cycle over `repositories`, none of them attempted yet.
    pub fn new(repositories: Vec<String>) -> (r: BatchRunner)
        ensures
            r.wf(),
            r.spec_repositories() == repositories@,
            r.spec_reports() == Seq::<RepoReport>::empty(),
    {
        BatchRunner { repositories, reports: Vec::new() }
    }

    /// The repository to attempt next, or `None` when every one has been.
    pub fn next_repository(&self) -> (r: Option<String>)
        requires
            self.wf(),
        ensures
            self.spec_reports().len() < self.spec_repositories().len() ==> r == Some(
                self.spec_repositories()[self.spec_reports().len() as int],
            ),
            self.spec_reports().len() == self.spec_repositories().len() ==> r is None,
    {
        if self.reports.len() < self.repositories.len() {
            Some(self.repositories[self.reports.len()].clone())
        } else {
            None
        }
    }

    /// Whether every repository has been attempted.
    pub fn is_complete(&self) -> (r: bool)
        requires
            self.wf(),
        ensures
            r == (self.spec_reports().len() == self.spec_repositories().len()),
    {
        self.reports.len() == self.repositories.len()
    }

    /// Records the outcome of the repository attempted last, whatever it was,
    /// and moves on to the next one. On a complete cycle nothing changes.
    pub fn record(&mut self, outcome: SyncOutcome)
        requires
            old(self).wf(),
        ensures
            final(self).wf(),
            final(self).spec_repositories() == old(self).spec_repositories(),
            final(self).spec_reports() == record_one(
                old(self).spec_repositories(),
                old(self).spec_reports(),
                outcome,
            ),
    {
        if self.reports.len() < self.repositories.len() {
            let path = self.repositories[self.reports.len()].clone();
            self.reports.push(RepoReport { path, outcome });
        }
    }

    /// The reports so far, in processing order.
    pub fn reports(&self) -> (r: &Vec<RepoReport>)
        ensures
            r@ == self.spec_reports(),
    {
        &self.reports
    }
}

/// The reports after recording `outcome` on a cycle over `paths` with the
/// reports `done`: a report for the next repository, unless every one has
/// been attempted.
pub open spec fn record_one(paths: Seq<String>, done: Seq<RepoReport>, outcome: SyncOutcome) -> Seq<
    RepoReport,
> {
    if done.len() < paths.len() {
        done.push(RepoReport { path: paths[done.len() as int], outcome })
    } else {
        done
    }
}

/// The reports after recording `outcomes`, in order, on a cycle over `paths`.
pub open spec fn record_all(paths: Seq<String>, done: Seq<RepoReport>, outcomes: Seq<SyncOutcome>) -> Seq<
    RepoReport,
>
    decreases outcomes.len(),
{
    if outcomes.len() == 0 {
        done
    } else {
        record_all(paths, record_one(paths, done, outcomes[0]), outcomes.drop_first())
    }
}

/// A cycle attempts every repository exactly once, in order, whatever each
/// outcome is: recording one outcome per repository, failures included,
/// leaves one report per repository with that repository's path and outcome.
pub proof fn lemma_every_repository_reported(paths: Seq<String>, outcomes: Seq<SyncOutcome>)
    requires
        outcomes.len() == paths.len(),
    ensures
        record_all(paths, Seq::empty(), outcomes) == reports_of(paths, outcomes),
{
    lemma_record_all_prefix(paths, outcomes, 0);
    assert(outcomes.subrange(0, 0) =~= Seq::<SyncOutcome>::empty());
    assert(outcomes.subrange(0, outcomes.len() as int) =~= outcomes);
    assert(reports_of(paths, outcomes.subrange(0, 0)) =~= Seq::<RepoReport>::empty());
}

/// Recording the outcomes after the first `k` continues the reports of the
/// first `k`.
proof fn lemma_record_all_prefix(paths: Seq<String>, outcomes: Seq<SyncOutcome>, k: int)
    requires
        outcomes.len() <= paths.len(),
        0 <= k <= outcomes.len(),
    ensures
        record_all(
            paths,
            reports_of(paths, outcomes.subrange(0, k)),
            outcomes.subrange(k, outcomes.len() as int),
        ) == reports_of(paths, outcomes),
    decreases outcomes.len() - k,
{
    if k == outcomes.len() {
        assert(outcomes.subrange(0, k) =~= outcomes);
        assert(outcomes.subrange(k, outcomes.len() as int) =~= Seq::<SyncOutcome>::empty());
    } else {
        let done = reports_of(paths, outcomes.subrange(0, k));
        let rest = outcomes.subrange(k, outcomes.len() as int);
        assert(done.push(RepoReport { path: paths[k], outcome: rest[0] }) =~= reports_of(
            paths,
            outcomes.subrange(0, k + 1),
        ));
        assert(rest.drop_first() =~= outcomes.subrange(k + 1, outcomes.len() as int));
        lemma_record_all_prefix(paths, outcomes, k + 1);
    }
}

} // verus!
