//! The scheduler: runs a cycle, waits the configured interval from the end of
//! that cycle, and starts the next, forever.
use vstd::prelude::*;

verus! {

/// What the scheduler asks for next.
#[derive(Debug, Clone, PartialEq, Eq)]
pub enum SchedulerAction {
    /// Run one cycle over every repository.
    RunCycle,
    /// Sleep for this many seconds, then report how long was slept.
    Sleep(u64),
}

/// The scheduler's state: whether a cycle is due or the wait after one is
/// under way, and how long has been waited since that cycle ended.
pub struct Scheduler {
    interval_secs: u64,
    waiting: bool,
    waited_secs: u64,
}

/// The total of a sequence of sleeps, in seconds.
pub open spec fn total_slept(sleeps: Seq<u64>) -> int
    decreases sleeps.len(),
{
    if sleeps.len() == 0 {
        0
    } else {
        sleeps[0] + total_slept(sleeps.drop_first())
    }
}

impl Scheduler {
    pub closed spec fn spec_interval_secs(&self) -> u64 {
        self.interval_secs
    }

    pub closed spec fn spec_waiting(&self) -> bool {
        self.waiting
    }

    pub closed spec fn spec_waited_secs(&self) -> u64 {
        self.waited_secs
    }

    /// The scheduler after `slept_secs` more seconds of waiting, and what it
    /// asks for next.
    pub closed spec fn after_sleep(&self, slept_secs: u64) -> (Scheduler, SchedulerAction) {
        if self.waited_secs + slept_secs >= self.interval_secs {
            (Scheduler { waiting: false, waited_secs: 0, ..*self }, SchedulerAction::RunCycle)
        } else {
            let waited = (self.waited_secs + slept_secs) as u64;
            (
                Scheduler { waited_secs: waited, ..*self },
                SchedulerAction::Sleep((self.interval_secs - waited) as u64),
            )
        }
    }

    /// The interval is positive and a wait under way has not yet run it out.
    pub open spec fn wf(&self) -> bool {
        &&& self.spec_interval_secs() > 0
        &&& self.spec_waited_secs() < self.spec_interval_secs()
        &&& !self.spec_waiting() ==> self.spec_waited_secs() == 0
    }

    /// A scheduler with `interval_secs` between cycles; the first cycle is due
    /// at once.
    pub fn new(interval_secs: u64) -> (r: Scheduler)
        requires
            interval_secs > 0,
        ensures
            r.wf(),
            r.spec_interval_secs() == interval_secs,
            !r.spec_waiting(),
    {
        Scheduler { interval_secs, waiting: false, waited_secs: 0 }
    }

    /// What the scheduler asks for now: a cycle, or the rest of the wait.
    pub fn next_action(&self) -> (r: SchedulerAction)
        requires
            self.wf(),
        ensures
            !self.spec_waiting() ==> r == SchedulerAction::RunCycle,
            self.spec_waiting() ==> r == SchedulerAction::Sleep(
                (self.spec_interval_secs() - self.spec_waited_secs()) as u64,
            ),
    {
        if self.waiting {
            SchedulerAction::Sleep(self.interval_secs - self.waited_secs)
        } else {
            SchedulerAction::RunCycle
        }
    }

    /// Notes that a cycle has ended: the whole interval is to be waited from
    /// now, however long the cycle took.
    pub fn cycle_completed(&mut self) -> (r: SchedulerAction)
        requires
            old(self).wf(),
        ensures
            final(self).wf(),
            final(self).spec_interval_secs() == old(self).spec_interval_secs(),
            final(self).spec_waiting(),
            final(self).spec_waited_secs() == 0,
            r == SchedulerAction::Sleep(old(self).spec_interval_secs()),
    {
        self.waiting = true;
        self.waited_secs = 0;
        SchedulerAction::Sleep(self.interval_secs)
    }

    /// Notes that `slept_secs` more seconds have been waited. The next cycle
    /// is due once the time waited since the last cycle ended reaches the
    /// interval; before that the rest of the wait is asked for.
    pub fn woke(&mut self, slept_secs: u64) -> (r: SchedulerAction)
        requires
            old(self).wf(),
            old(self).spec_waiting(),
        ensures
            final(self).wf(),
            final(self).spec_interval_secs() == old(self).spec_interval_secs(),
            (*final(self), r) == old(self).after_sleep(slept_secs),
            ({
                let waited = old(self).spec_waited_secs() + slept_secs;
                let interval = old(self).spec_interval_secs();
                if waited >= interval {
                    &&& r == SchedulerAction::RunCycle
                    &&& !final(self).spec_waiting()
                } else {
                    &&& final(self).spec_waiting()
                    &&& final(self).spec_waited_secs() == waited
                    &&& r == SchedulerAction::Sleep((interval - waited) as u64)
                }
            }),
    {
        if slept_secs >= self.interval_secs - self.waited_secs {
            self.waiting = false;
            self.waited_secs = 0;
            SchedulerAction::RunCycle
        } else {
            self.waited_secs = self.waited_secs + slept_secs;
            SchedulerAction::Sleep(self.interval_secs - self.waited_secs)
        }
    }
}

/// Whether a waiting scheduler asks for a cycle within the reports of
/// `sleeps`, one after another.
pub open spec fn cycle_due_within(s: Scheduler, sleeps: Seq<u64>) -> bool
    decreases sleeps.len(),
{
    if sleeps.len() == 0 {
        false
    } else {
        let (t, action) = s.after_sleep(sleeps[0]);
        if action is RunCycle {
            true
        } else {
            cycle_due_within(t, sleeps.drop_first())
        }
    }
}

/// The next cycle comes only after the whole interval, counted from the end
/// of the last cycle: a scheduler that has waited `spec_waited_secs()` since
/// then asks for a cycle within any run of sleeps exactly when the time
/// waited and those sleeps add up to the interval. Just after a cycle ends
/// the time waited is zero.
pub proof fn lemma_cycle_after_full_interval(s: Scheduler, sleeps: Seq<u64>)
    requires
        s.wf(),
        s.spec_waiting(),
    ensures
        cycle_due_within(s, sleeps) <==> s.spec_waited_secs() + total_slept(sleeps)
            >= s.spec_interval_secs(),
    decreases sleeps.len(),
{
    if sleeps.len() > 0 {
        lemma_total_slept_nonneg(sleeps.drop_first());
        let (t, action) = s.after_sleep(sleeps[0]);
        if !(action is RunCycle) {
            assert(t.wf() && t.spec_waiting());
            assert(t.spec_waited_secs() == s.spec_waited_secs() + sleeps[0]);
            assert(t.spec_interval_secs() == s.spec_interval_secs());
            lemma_cycle_after_full_interval(t, sleeps.drop_first());
        }
    }
}

proof fn lemma_total_slept_nonneg(sleeps: Seq<u64>)
    ensures
        total_slept(sleeps) >= 0,
    decreases sleeps.len(),
{
    if sleeps.len() > 0 {
        lemma_total_slept_nonneg(sleeps.drop_first());
    }
}

} // verus!
