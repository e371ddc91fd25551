//! Jobs: named lists of steps with permissions, a gate, a concurrency
//! policy, environment bindings and upstream dependencies.

use vstd::prelude::*;
use crate::condition::{Condition, Expr};
use crate::step::{Step, StepView, steps_view};

verus! {

/// An access level granted on a scope of the repository.
#[derive(Debug, Clone, Copy, PartialEq, Eq, Structural)]
pub enum Level {
    NoAccess,
    Read,
    Write,
}

/// The access a job is granted; a scope left at `None` is not granted.
#[derive(Debug, Clone, Copy, PartialEq, Eq, Structural)]
pub struct Permissions {
    pub contents: Option<Level>,
    pub pull_requests: Option<Level>,
    pub packages: Option<Level>,
}

impl Permissions {
    /// No scope granted.
    pub fn new() -> (r: Permissions)
        ensures
            r == (Permissions { contents: None, pull_requests: None, packages: None }),
    {
        Permissions { contents: None, pull_requests: None, packages: None }
    }

    pub fn contents(self, level: Level) -> (r: Permissions)
        ensures
            r == (Permissions { contents: Some(level), ..self }),
    {
        Permissions { contents: Some(level), ..self }
    }

    pub fn pull_requests(self, level: Level) -> (r: Permissions)
        ensures
            r == (Permissions { pull_requests: Some(level), ..self }),
    {
        Permissions { pull_requests: Some(level), ..self }
    }

    pub fn packages(self, level: Level) -> (r: Permissions)
        ensures
            r == (Permissions { packages: Some(level), ..self }),
    {
        Permissions { packages: Some(level), ..self }
    }
}

/// Runs that share `group` are serialised; an older one is cancelled only
/// when `cancel_in_progress` holds.
#[derive(Debug, Clone, PartialEq, Eq)]
pub struct Concurrency {
    pub group: String,
    pub cancel_in_progress: bool,
}

impl Concurrency {
    pub fn new(group: &str, cancel_in_progress: bool) -> (r: Concurrency)
        ensures
            r.group@ == group@,
            r.cancel_in_progress == cancel_in_progress,
    {
        Concurrency { group: group.to_owned(), cancel_in_progress }
    }
}

/// An environment binding `key=value`.
#[derive(Debug, Clone, PartialEq, Eq)]
pub struct EnvVar {
    pub key: String,
    pub value: String,
}

impl EnvVar {
    pub fn new(key: &str, value: &str) -> (r: EnvVar)
        ensures
            r@ == (key@, value@),
    {
        EnvVar { key: key.to_owned(), value: value.to_owned() }
    }
}

impl View for EnvVar {
    type V = (Seq<char>, Seq<char>);

    open spec fn view(&self) -> (Seq<char>, Seq<char>) {
        (self.key@, self.value@)
    }
}

/// The views of a list of environment bindings.
pub open spec fn env_view(v: Seq<EnvVar>) -> Seq<(Seq<char>, Seq<char>)> {
    v.map_values(|e: EnvVar| e@)
}

/// The key under which a job stands in a workflow.
#[derive(Debug, Clone, Copy, PartialEq, Eq, Structural)]
pub enum JobId {
    Build,
    Release,
    ReleasePr,
    AutoFixLintFmt,
}

impl JobId {
    pub open spec fn key_spec(self) -> Seq<char> {
        match self {
            JobId::Build => "build"@,
            JobId::Release => "release"@,
            JobId::ReleasePr => "release-pr"@,
            JobId::AutoFixLintFmt => "auto-fix-lint-fmt"@,
        }
    }

    /// The job's key in the rendered workflow.
    pub fn key(self) -> (r: &'static str)
        ensures
            r@ == self.key_spec(),
    {
        match self {
            JobId::Build => "build",
            JobId::Release => "release",
            JobId::ReleasePr => "release-pr",
            JobId::AutoFixLintFmt => "auto-fix-lint-fmt",
        }
    }
}

#[derive(Debug, Clone, PartialEq, Eq)]
pub struct Job {
    pub name: String,
    pub steps: Vec<Step>,
    pub permissions: Permissions,
    pub condition: Option<Condition>,
    pub concurrency: Option<Concurrency>,
    pub needs: Vec<JobId>,
    pub env: Vec<EnvVar>,
}

/// The mathematical value of a [`Job`]; a concurrency policy is seen as
/// its group and its cancel-in-progress flag.
pub struct JobView {
    pub name: Seq<char>,
    pub steps: Seq<StepView>,
    pub permissions: Permissions,
    pub condition: Option<Expr>,
    pub concurrency: Option<(Seq<char>, bool)>,
    pub needs: Seq<JobId>,
    pub env: Seq<(Seq<char>, Seq<char>)>,
}

impl View for Job {
    type V = JobView;

    open spec fn view(&self) -> JobView {
        JobView {
            name: self.name@,
            steps: steps_view(self.steps@),
            permissions: self.permissions,
            condition: match self.condition {
                Some(c) => Some(c@),
                None => None,
            },
            concurrency: match self.concurrency {
                Some(c) => Some((c.group@, c.cancel_in_progress)),
                None => None,
            },
            needs: self.needs@,
            env: env_view(self.env@),
        }
    }
}

/// A job with a name and nothing else.
pub open spec fn empty_job(name: Seq<char>) -> JobView {
    JobView {
        name,
        steps: Seq::empty(),
        permissions: Permissions { contents: None, pull_requests: None, packages: None },
        condition: None,
        concurrency: None,
        needs: Seq::empty(),
        env: Seq::empty(),
    }
}

impl Job {
    /// A job named `name` with no steps, no permissions, no gate, no
    /// concurrency policy, no dependency and no environment.
    pub fn new(name: &str) -> (r: Job)
        ensures
            r@ == empty_job(name@),
    {
        let r = Job {
            name: name.to_owned(),
            steps: Vec::new(),
            permissions: Permissions::new(),
            condition: None,
            concurrency: None,
            needs: Vec::new(),
            env: Vec::new(),
        };
        assert(steps_view(r.steps@) =~= Seq::empty());
        assert(env_view(r.env@) =~= Seq::empty());
        r
    }

    pub fn permissions(self, permissions: Permissions) -> (r: Job)
        ensures
            r@ == (JobView { permissions, ..self@ }),
    {
        Job { permissions, ..self }
    }

    /// Gates the job on `cond`.
    pub fn cond(self, cond: Condition) -> (r: Job)
        ensures
            r@ == (JobView { condition: Some(cond@), ..self@ }),
    {
        Job { condition: Some(cond), ..self }
    }

    pub fn concurrency(self, concurrency: Concurrency) -> (r: Job)
        ensures
            r@ == (JobView {
                concurrency: Some((concurrency.group@, concurrency.cancel_in_progress)),
                ..self@
            }),
    {
        Job { concurrency: Some(concurrency), ..self }
    }

    /// Makes the job wait for the job `id`.
    pub fn add_needs(self, id: JobId) -> (r: Job)
        ensures
            r@ == (JobView { needs: self@.needs.push(id), ..self@ }),
    {
        let mut job = self;
        job.needs.push(id);
        job
    }

    /// Appends an environment binding.
    pub fn add_env(self, var: EnvVar) -> (r: Job)
        ensures
            r@ == (JobView { env: self@.env.push(var@), ..self@ }),
    {
        let mut job = self;
        let ghost before = job.env@;
        job.env.push(var);
        assert(env_view(job.env@) =~= env_view(before).push(var@));
        job
    }

    /// Appends a step after those already there.
    pub fn add_step(self, step: Step) -> (r: Job)
        ensures
            r@ == (JobView { steps: self@.steps.push(step@), ..self@ }),
    {
        let mut job = self;
        let ghost before = job.steps@;
        job.steps.push(step);
        assert(steps_view(job.steps@) =~= steps_view(before).push(step@));
        job
    }
}

/// The binding of the platform's built-in token.
pub open spec fn github_token_env() -> (Seq<char>, Seq<char>) {
    ("GITHUB_TOKEN"@, "${{ secrets.GITHUB_TOKEN }}"@)
}

impl EnvVar {
    /// Binds the platform's built-in token.
    pub fn github() -> (r: EnvVar)
        ensures
            r@ == github_token_env(),
    {
        EnvVar::new("GITHUB_TOKEN", "${{ secrets.GITHUB_TOKEN }}")
    }
}

} // verus!
