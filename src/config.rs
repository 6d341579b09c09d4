//! The configuration: the repositories to keep in sync, the interval between
//! cycles and the commit message. It is checked once, when it is built, and
//! never changes afterwards.
use vstd::prelude::*;
use crate::error::GitBotError;

verus! {

/// Seconds in one hour.
pub const SECONDS_PER_HOUR: u64 = 3600;

/// The remote that commits are pushed to unless another is chosen.
pub const DEFAULT_REMOTE: &'static str = "origin";

/// The branch that commits are pushed to unless another is chosen.
pub const DEFAULT_BRANCH: &'static str = "main";

/// The largest interval, in hours, whose length in seconds fits in a `u64`.
pub const MAX_INTERVAL_HOURS: u64 = 5124095576030431;

/// An interval that the configuration accepts: a positive number of hours
/// whose length in seconds fits in a `u64`.
pub open spec fn valid_interval(hours: u64) -> bool {
    0 < hours && hours * SECONDS_PER_HOUR <= u64::MAX
}

/// A checked configuration.
pub struct Config {
    repositories: Vec<String>,
    interval_hours: u64,
    commit_message: String,
    remote: String,
    branch: String,
}

impl Config {
    /// A configuration whose interval is valid.
    pub open spec fn wf(&self) -> bool {
        valid_interval(self.spec_interval_hours())
    }

    pub closed spec fn spec_repositories(&self) -> Seq<String> {
        self.repositories@
    }

    pub closed spec fn spec_interval_hours(&self) -> u64 {
        self.interval_hours
    }

    pub closed spec fn spec_commit_message(&self) -> String {
        self.commit_message
    }

    pub closed spec fn spec_remote(&self) -> Seq<char> {
        self.remote@
    }

    pub closed spec fn spec_branch(&self) -> Seq<char> {
        self.branch@
    }

    /// Checks and builds a configuration that pushes to `origin`/`main`. An
    /// interval of zero hours, or one too long to count in seconds, is a
    /// configuration error.
    pub fn new(repositories: Vec<String>, interval_hours: u64, commit_message: String) -> (r:
        Result<Config, GitBotError>)
        ensures
            r is Ok <==> valid_interval(interval_hours),
            r is Err ==> r->Err_0 is ConfigError,
            r is Ok ==> {
                let c = r->Ok_0;
                &&& c.wf()
                &&& c.spec_repositories() == repositories@
                &&& c.spec_interval_hours() == interval_hours
                &&& c.spec_commit_message() == commit_message
                &&& c.spec_remote() == DEFAULT_REMOTE@
                &&& c.spec_branch() == DEFAULT_BRANCH@
            },
    {
        if interval_hours == 0 {
            return Err(
                GitBotError::ConfigError(
                    String::from_str("interval_hours debe ser un número positivo de horas"),
                ),
            );
        }
        if interval_hours > MAX_INTERVAL_HOURS {
            return Err(
                GitBotError::ConfigError(String::from_str("interval_hours es demasiado grande")),
            );
        }
        assert(interval_hours * SECONDS_PER_HOUR <= u64::MAX) by (nonlinear_arith)
            requires
                interval_hours <= MAX_INTERVAL_HOURS,
        ;
        Ok(
            Config {
                repositories,
                interval_hours,
                commit_message,
                remote: String::from_str(DEFAULT_REMOTE),
                branch: String::from_str(DEFAULT_BRANCH),
            },
        )
    }

    /// The same configuration, pushing to another remote and branch.
    pub fn with_push_target(self, remote: String, branch: String) -> (r: Config)
        ensures
            r.spec_repositories() == self.spec_repositories(),
            r.spec_interval_hours() == self.spec_interval_hours(),
            r.spec_commit_message() == self.spec_commit_message(),
            r.spec_remote() == remote@,
            r.spec_branch() == branch@,
            self.wf() ==> r.wf(),
    {
        Config { remote, branch, ..self }
    }

    /// The repositories, in processing order.
    pub fn repositories(&self) -> (r: &Vec<String>)
        ensures
            r@ == self.spec_repositories(),
    {
        &self.repositories
    }

    /// The hours between the end of one cycle and the start of the next.
    pub fn interval_hours(&self) -> (r: u64)
        ensures
            r == self.spec_interval_hours(),
    {
        self.interval_hours
    }

    /// The message of every commit.
    pub fn commit_message(&self) -> (r: &String)
        ensures
            *r == self.spec_commit_message(),
    {
        &self.commit_message
    }

    /// The remote that commits are pushed to.
    pub fn remote(&self) -> (r: &String)
        ensures
            r@ == self.spec_remote(),
    {
        &self.remote
    }

    /// The branch that commits are pushed to.
    pub fn branch(&self) -> (r: &String)
        ensures
            r@ == self.spec_branch(),
    {
        &self.branch
    }

    /// The wait between cycles, in seconds.
    pub fn interval_secs(&self) -> (r: u64)
        requires
            self.wf(),
        ensures
            r == self.spec_interval_hours() * SECONDS_PER_HOUR,
    {
        self.interval_hours * SECONDS_PER_HOUR
    }

    /// The arguments of the push command: `push`, the remote, the branch.
    pub fn push_arguments(&self) -> (r: Vec<String>)
        ensures
            r@.len() == 3,
            r@[0]@ == "push"@,
            r@[1]@ == self.spec_remote(),
            r@[2]@ == self.spec_branch(),
    {
        let mut args: Vec<String> = Vec::new();
        args.push(String::from_str("push"));
        args.push(self.remote.clone());
        args.push(self.branch.clone());
        args
    }
}

} // verus!
