//! The workflow document and the assembler that decides, from the feature
//! flags, which jobs it holds and how they are gated and wired.

use vstd::prelude::*;
use crate::condition::{Condition, Expr, release_gate_expr, is_pull_request_expr};
use crate::job::{
    EnvVar, Job, JobId, JobView, Level, Permissions, Concurrency, env_view, github_token_env,
};
use crate::step::{
    CargoCommand, ReleaseCommand, Step, StepView, Toolchain, strings_view,
};

verus! {

/// Kinds of pull-request activity that trigger a run.
#[derive(Debug, Clone, Copy, PartialEq, Eq, Structural)]
pub enum PullRequestType {
    Opened,
    Synchronize,
    Reopened,
}

/// The events that trigger a run.
#[derive(Debug, Clone, PartialEq, Eq)]
pub struct Events {
    /// A push to one of these branches triggers a run.
    pub push_branches: Vec<String>,
    /// Pull-request activity of these kinds ...
    pub pull_request_types: Vec<PullRequestType>,
    /// ... against one of these branches triggers a run.
    pub pull_request_branches: Vec<String>,
}

pub struct EventsView {
    pub push_branches: Seq<Seq<char>>,
    pub pull_request_types: Seq<PullRequestType>,
    pub pull_request_branches: Seq<Seq<char>>,
}

impl View for Events {
    type V = EventsView;

    open spec fn view(&self) -> EventsView {
        EventsView {
            push_branches: strings_view(self.push_branches@),
            pull_request_types: self.pull_request_types@,
            pull_request_branches: strings_view(self.pull_request_branches@),
        }
    }
}

/// Pushes to the default branch, and pull requests against it that are
/// opened, synchronised or reopened.
pub open spec fn events_spec() -> EventsView {
    EventsView {
        push_branches: seq!["main"@],
        pull_request_types: seq![
            PullRequestType::Opened,
            PullRequestType::Synchronize,
            PullRequestType::Reopened,
        ],
        pull_request_branches: seq!["main"@],
    }
}

impl Events {
    /// The events of every generated workflow: see [`events_spec`].
    pub fn main_branch() -> (r: Events)
        ensures
            r@ == events_spec(),
    {
        let mut push_branches: Vec<String> = Vec::new();
        push_branches.push("main".to_owned());
        let mut pull_request_branches: Vec<String> = Vec::new();
        pull_request_branches.push("main".to_owned());
        let mut pull_request_types: Vec<PullRequestType> = Vec::new();
        pull_request_types.push(PullRequestType::Opened);
        pull_request_types.push(PullRequestType::Synchronize);
        pull_request_types.push(PullRequestType::Reopened);
        let r = Events { push_branches, pull_request_types, pull_request_branches };
        assert(r@.push_branches =~= events_spec().push_branches);
        assert(r@.pull_request_branches =~= events_spec().pull_request_branches);
        assert(r@.pull_request_types =~= events_spec().pull_request_types);
        r
    }
}

/// A workflow document: a name, global environment bindings, the events
/// that trigger it and its jobs, each under its key, in assembly order.
#[derive(Debug, Clone, PartialEq, Eq)]
pub struct GithubWorkflow {
    pub name: String,
    pub env: Vec<EnvVar>,
    pub on: Events,
    pub jobs: Vec<(JobId, Job)>,
}

pub struct GithubWorkflowView {
    pub name: Seq<char>,
    pub env: Seq<(Seq<char>, Seq<char>)>,
    pub on: EventsView,
    pub jobs: Seq<(JobId, JobView)>,
}

pub open spec fn jobs_view(v: Seq<(JobId, Job)>) -> Seq<(JobId, JobView)> {
    v.map_values(|p: (JobId, Job)| (p.0, p.1@))
}

impl View for GithubWorkflow {
    type V = GithubWorkflowView;

    open spec fn view(&self) -> GithubWorkflowView {
        GithubWorkflowView {
            name: self.name@,
            env: env_view(self.env@),
            on: self.on@,
            jobs: jobs_view(self.jobs@),
        }
    }
}

impl GithubWorkflowView {
    /// Some job stands under key `id`.
    pub open spec fn has_job(self, id: JobId) -> bool {
        exists|i: int| 0 <= i < self.jobs.len() && #[trigger] self.jobs[i].0 == id
    }

    /// See [`jobs_wf`].
    pub open spec fn wf(self) -> bool {
        jobs_wf(self.jobs)
    }
}

/// Some job before position `end` stands under key `id`.
pub open spec fn key_before(jobs: Seq<(JobId, JobView)>, id: JobId, end: int) -> bool {
    exists|j: int| 0 <= j < end && #[trigger] jobs[j].0 == id
}

/// Keys are unique, and a job depends only on jobs that stand before it.
pub open spec fn jobs_wf(jobs: Seq<(JobId, JobView)>) -> bool {
    &&& forall|i: int, j: int|
        0 <= i < j < jobs.len() ==> #[trigger] jobs[i].0 != #[trigger] jobs[j].0
    &&& forall|i: int, k: int|
        0 <= i < jobs.len() && 0 <= k < jobs[i].1.needs.len() ==> key_before(
            jobs,
            #[trigger] jobs[i].1.needs[k],
            i,
        )
}

impl GithubWorkflow {
    /// A workflow named `name` with no environment, no events and no jobs.
    pub fn new(name: String, on: Events) -> (r: GithubWorkflow)
        ensures
            r@ == (GithubWorkflowView { name: name@, env: Seq::empty(), on: on@, jobs: Seq::empty() }),
    {
        let r = GithubWorkflow { name, env: Vec::new(), on, jobs: Vec::new() };
        assert(r@.env =~= Seq::empty());
        assert(r@.jobs =~= Seq::empty());
        r
    }

    /// Appends a global environment binding.
    pub fn add_env(self, var: EnvVar) -> (r: GithubWorkflow)
        ensures
            r@ == (GithubWorkflowView { env: self@.env.push(var@), ..self@ }),
    {
        let mut w = self;
        let ghost before = w.env@;
        w.env.push(var);
        assert(env_view(w.env@) =~= env_view(before).push(var@));
        w
    }

    /// Appends `job` under key `id`.
    pub fn add_job(self, id: JobId, job: Job) -> (r: GithubWorkflow)
        ensures
            r@ == (GithubWorkflowView { jobs: self@.jobs.push((id, job@)), ..self@ }),
    {
        let mut w = self;
        let ghost before = w.jobs@;
        let ghost jv = job@;
        w.jobs.push((id, job));
        assert(jobs_view(w.jobs@) =~= jobs_view(before).push((id, jv)));
        w
    }
}

impl GithubWorkflow {
    /// Whether a job before position `end` stands under key `id`.
    fn has_job_before(&self, id: JobId, end: usize) -> (r: bool)
        requires
            end <= self.jobs.len(),
        ensures
            r == key_before(self@.jobs, id, end as int),
    {
        let mut j: usize = 0;
        while j < end
            invariant
                j <= end <= self.jobs.len(),
                forall|t: int| 0 <= t < j ==> #[trigger] self@.jobs[t].0 != id,
            decreases end - j,
        {
            if self.jobs[j].0 == id {
                assert(self@.jobs[j as int].0 == id);
                return true;
            }
            j += 1;
        }
        false
    }

    /// Checks that keys are unique and that every job depends only on jobs
    /// that stand before it (so no dependency is missing, forward or cyclic).
    pub fn is_well_formed(&self) -> (r: bool)
        ensures
            r == self@.wf(),
    {
        let ghost jobs = self@.jobs;
        let n = self.jobs.len();
        let mut i: usize = 0;
        while i < n
            invariant
                i <= n == self.jobs.len(),
                jobs == self@.jobs,
                forall|a: int, b: int|
                    0 <= a < b < i ==> #[trigger] jobs[a].0 != #[trigger] jobs[b].0,
                forall|a: int, q: int|
                    0 <= a < i && 0 <= q < jobs[a].1.needs.len() ==> key_before(
                        jobs,
                        #[trigger] jobs[a].1.needs[q],
                        a,
                    ),
            decreases n - i,
        {
            if self.has_job_before(self.jobs[i].0, i) {
                let ghost j = choose|j: int| 0 <= j < i && #[trigger] jobs[j].0 == jobs[i as int].0;
                assert(jobs[j].0 == jobs[i as int].0);
                return false;
            }
            let needs = &self.jobs[i].1.needs;
            assert(needs@ == jobs[i as int].1.needs);
            let mut k: usize = 0;
            while k < needs.len()
                invariant
                    i < n == self.jobs.len(),
                    jobs == self@.jobs,
                    needs@ == jobs[i as int].1.needs,
                    k <= needs.len(),
                    forall|a: int, q: int|
                        0 <= a < i && 0 <= q < jobs[a].1.needs.len() ==> key_before(
                            jobs,
                            #[trigger] jobs[a].1.needs[q],
                            a,
                        ),
                    forall|q: int|
                        0 <= q < k ==> key_before(jobs, #[trigger] jobs[i as int].1.needs[q], i as int),
                decreases needs.len() - k,
            {
                if !self.has_job_before(needs[k], i) {
                    assert(jobs[i as int].1.needs[k as int] == needs@[k as int]);
                    return false;
                }
                k += 1;
            }
            assert forall|a: int, q: int|
                0 <= a <= i && 0 <= q < jobs[a].1.needs.len() implies key_before(
                    jobs,
                    #[trigger] jobs[a].1.needs[q],
                    a,
                ) by {
                if a == i as int {
                    assert(0 <= q < k);
                }
            }
            i += 1;
        }
        true
    }
}

/// The binding that turns compiler warnings into errors.
pub open spec fn rust_flags_env() -> (Seq<char>, Seq<char>) {
    ("RUSTFLAGS"@, "-Dwarnings"@)
}

/// The binding of the package registry's token, read from the secret of
/// the same name.
pub open spec fn registry_token_env() -> (Seq<char>, Seq<char>) {
    ("CARGO_REGISTRY_TOKEN"@, "${{ secrets.CARGO_REGISTRY_TOKEN }}"@)
}

/// Write access on pull requests, packages and contents.
pub open spec fn release_permissions() -> Permissions {
    Permissions {
        contents: Some(Level::Write),
        pull_requests: Some(Level::Write),
        packages: Some(Level::Write),
    }
}

/// The concurrency group of the release-PR job: one per ref.
pub open spec fn release_pr_group() -> Seq<char> {
    "release-${{github.ref}}"@
}

pub open spec fn is_bench_step(s: StepView) -> bool {
    s matches StepView::Cargo { command: CargoCommand::Bench, .. }
}

/// The "Build and Test" job.
pub open spec fn build_job_spec(benchmarks: bool) -> JobView {
    let steps = seq![
        StepView::Checkout,
        StepView::Toolchain(Toolchain { stable: true, nightly: true, clippy: true, fmt: true }),
        StepView::Cargo {
            command: CargoCommand::Test,
            name: "Cargo Test"@,
            args: "--all-features --workspace"@,
            nightly: false,
        },
        StepView::Cargo {
            command: CargoCommand::Fmt,
            name: "Cargo Fmt"@,
            args: "--check"@,
            nightly: true,
        },
        StepView::Cargo {
            command: CargoCommand::Clippy,
            name: "Cargo Clippy"@,
            args: "--all-features --workspace -- -D warnings"@,
            nightly: true,
        },
    ];
    JobView {
        name: "Build and Test"@,
        steps: if benchmarks {
            steps.push(
                StepView::Cargo {
                    command: CargoCommand::Bench,
                    name: "Cargo Bench"@,
                    args: "--workspace"@,
                    nightly: false,
                },
            )
        } else {
            steps
        },
        permissions: Permissions { contents: Some(Level::Read), pull_requests: None, packages: None },
        condition: None,
        concurrency: None,
        needs: Seq::empty(),
        env: Seq::empty(),
    }
}

/// The "Release" job (for `ReleaseCommand::Release`) or the "Release PR"
/// job (for `ReleaseCommand::ReleasePr`), gated by `gate` and granted
/// `permissions`.
pub open spec fn release_job_with(
    command: ReleaseCommand,
    gate: Expr,
    permissions: Permissions,
) -> JobView {
    JobView {
        name: match command {
            ReleaseCommand::Release => "Release"@,
            ReleaseCommand::ReleasePr => "Release PR"@,
        },
        steps: seq![StepView::Checkout, StepView::Release(command)],
        permissions,
        condition: Some(gate),
        concurrency: match command {
            ReleaseCommand::Release => None,
            ReleaseCommand::ReleasePr => Some((release_pr_group(), false)),
        },
        needs: seq![JobId::Build],
        env: seq![github_token_env(), registry_token_env()],
    }
}

/// The shell commands that commit and push the formatter's fixes.
pub open spec fn fix_commit_script() -> Seq<Seq<char>> {
    seq![
        "git config user.name \"github-actions[bot]\""@,
        "git config user.email \"github-actions[bot]@users.noreply.github.com\""@,
        "git add ."@,
        "git commit -m \"style: Applied automatic formatting fixes via gh-workflow-tailcall\""@,
        "git push"@,
    ]
}

/// A release job as the workflow holds it: gated on a push to the default
/// branch, with write access on pull requests, packages and contents.
pub open spec fn release_job_spec(command: ReleaseCommand) -> JobView {
    release_job_with(command, release_gate_expr(), release_permissions())
}

/// The "Auto Fix Lint and Fmt" job.
pub open spec fn auto_fix_job_spec() -> JobView {
    JobView {
        name: "Auto Fix Lint and Fmt"@,
        steps: seq![
            StepView::Checkout,
            StepView::Toolchain(Toolchain { stable: true, nightly: true, clippy: false, fmt: true }),
            StepView::Cargo {
                command: CargoCommand::Fmt,
                name: "Cargo Fmt (Fix)"@,
                args: ""@,
                nightly: true,
            },
            StepView::Run(fix_commit_script()),
        ],
        permissions: Permissions { contents: Some(Level::Write), pull_requests: None, packages: None },
        condition: Some(is_pull_request_expr()),
        concurrency: None,
        needs: Seq::empty(),
        env: Seq::empty(),
    }
}

/// The jobs of the workflow, in assembly order.
pub open spec fn jobs_spec(auto_release: bool, benchmarks: bool, auto_fix: bool) -> Seq<
    (JobId, JobView),
> {
    let build = seq![(JobId::Build, build_job_spec(benchmarks))];
    let with_release = if auto_release {
        build.push((JobId::Release, release_job_spec(ReleaseCommand::Release))).push(
            (JobId::ReleasePr, release_job_spec(ReleaseCommand::ReleasePr)),
        )
    } else {
        build
    };
    if auto_fix {
        with_release.push((JobId::AutoFixLintFmt, auto_fix_job_spec()))
    } else {
        with_release
    }
}

/// The feature flags from which a workflow is generated.
#[derive(Debug, Clone, PartialEq, Eq)]
pub struct Workflow {
    /// Adds the release jobs. They read the secret `CARGO_REGISTRY_TOKEN`.
    pub auto_release: bool,
    /// The workflow's name.
    pub name: String,
    /// Adds a benchmark step to the build job.
    pub benchmarks: bool,
    /// Adds a job that commits the formatter's fixes on pull requests.
    pub auto_fix: bool,
}

impl Default for Workflow {
    fn default() -> (r: Workflow)
        ensures
            r.auto_release == false,
            r.name@ == "CI"@,
            r.benchmarks == false,
            r.auto_fix == false,
    {
        Workflow { auto_release: false, name: "CI".to_owned(), benchmarks: false, auto_fix: false }
    }
}

impl Workflow {
    /// The workflow that these flags generate.
    pub open spec fn spec_github_workflow(&self) -> GithubWorkflowView {
        GithubWorkflowView {
            name: self.name@,
            env: seq![rust_flags_env()],
            on: events_spec(),
            jobs: jobs_spec(self.auto_release, self.benchmarks, self.auto_fix),
        }
    }

    pub fn auto_release(self, value: bool) -> (r: Workflow)
        ensures
            r == (Workflow { auto_release: value, ..self }),
    {
        Workflow { auto_release: value, ..self }
    }

    pub fn name(self, value: String) -> (r: Workflow)
        ensures
            r == (Workflow { name: value, ..self }),
    {
        Workflow { name: value, ..self }
    }

    pub fn benchmarks(self, value: bool) -> (r: Workflow)
        ensures
            r == (Workflow { benchmarks: value, ..self }),
    {
        Workflow { benchmarks: value, ..self }
    }

    pub fn auto_fix(self, value: bool) -> (r: Workflow)
        ensures
            r == (Workflow { auto_fix: value, ..self }),
    {
        Workflow { auto_fix: value, ..self }
    }

    /// The "Build and Test" job: checkout, toolchain setup, test, format
    /// check and lint, then the benchmarks when they are enabled.
    pub fn build_and_test(&self) -> (r: Job)
        ensures
            r@ == build_job_spec(self.benchmarks),
    {
        let mut job = Job::new("Build and Test")
            .permissions(Permissions::new().contents(Level::Read))
            .add_step(Step::checkout())
            .add_step(
                Step::toolchain(Toolchain::new().add_stable().add_nightly().add_clippy().add_fmt()),
            )
            .add_step(Step::cargo(CargoCommand::Test, "Cargo Test", "--all-features --workspace", false))
            .add_step(Step::cargo(CargoCommand::Fmt, "Cargo Fmt", "--check", true))
            .add_step(
                Step::cargo(
                    CargoCommand::Clippy,
                    "Cargo Clippy",
                    "--all-features --workspace -- -D warnings",
                    true,
                ),
            );
        if self.benchmarks {
            job = job.add_step(Step::cargo(CargoCommand::Bench, "Cargo Bench", "--workspace", false));
        }
        assert(job@.steps =~= build_job_spec(self.benchmarks).steps);
        job
    }

    /// Assembles the workflow: the build job always; the two release jobs,
    /// after it and gated on a push to the default branch, when
    /// `auto_release` holds; the auto-fix job, gated on pull requests and
    /// independent of the rest, when `auto_fix` holds.
    pub fn to_github_workflow(&self) -> (r: GithubWorkflow)
        ensures
            r@ == self.spec_github_workflow(),
            r@.wf(),
    {
        let build = self.build_and_test();
        let mut workflow = GithubWorkflow::new(self.name.clone(), Events::main_branch())
            .add_env(EnvVar::new("RUSTFLAGS", "-Dwarnings"))
            .add_job(JobId::Build, build);
        if self.auto_release {
            let cond = Condition::release_gate();
            let permissions = Permissions::new()
                .pull_requests(Level::Write)
                .packages(Level::Write)
                .contents(Level::Write);
            let release = release_job(&cond, permissions);
            let release_pr = release_pr_job(cond, permissions);
            workflow = workflow.add_job(JobId::Release, release).add_job(JobId::ReleasePr, release_pr);
        }
        if self.auto_fix {
            workflow = workflow.add_job(JobId::AutoFixLintFmt, lint_and_fmt_fix_job());
        }
        assert(workflow@.env =~= seq![rust_flags_env()]);
        assert(workflow@.jobs =~= jobs_spec(self.auto_release, self.benchmarks, self.auto_fix));
        proof {
            lemma_jobs_spec_wf(self.auto_release, self.benchmarks, self.auto_fix);
        }
        workflow
    }
}

/// The assembled jobs have unique keys and depend only on earlier jobs.
pub proof fn lemma_jobs_spec_wf(auto_release: bool, benchmarks: bool, auto_fix: bool)
    ensures
        jobs_wf(jobs_spec(auto_release, benchmarks, auto_fix)),
{
    let jobs = jobs_spec(auto_release, benchmarks, auto_fix);
    assert forall|i: int, k: int|
        0 <= i < jobs.len() && 0 <= k < jobs[i].1.needs.len() implies key_before(
            jobs,
            #[trigger] jobs[i].1.needs[k],
            i,
        ) by {
        assert(jobs[0].0 == JobId::Build);
    }
}

/// The "Release" job: after the build, under `cond`, with `permissions`.
pub fn release_job(cond: &Condition, permissions: Permissions) -> (r: Job)
    ensures
        r@ == release_job_with(ReleaseCommand::Release, cond@, permissions),
{
    let job = Job::new("Release")
        .cond(cond.clone())
        .add_needs(JobId::Build)
        .add_env(EnvVar::github())
        .add_env(EnvVar::new("CARGO_REGISTRY_TOKEN", "${{ secrets.CARGO_REGISTRY_TOKEN }}"))
        .permissions(permissions)
        .add_step(Step::checkout())
        .add_step(Step::release(ReleaseCommand::Release));
    assert(job@.steps =~= release_job_with(ReleaseCommand::Release, cond@, permissions).steps);
    assert(job@.needs =~= release_job_with(ReleaseCommand::Release, cond@, permissions).needs);
    assert(job@.env =~= release_job_with(ReleaseCommand::Release, cond@, permissions).env);
    job
}

/// The "Release PR" job: after the build, under `cond`, with `permissions`,
/// and with runs on one ref queued rather than cancelled.
pub fn release_pr_job(cond: Condition, permissions: Permissions) -> (r: Job)
    ensures
        r@ == release_job_with(ReleaseCommand::ReleasePr, cond@, permissions),
{
    let job = Job::new("Release PR")
        .cond(cond)
        .concurrency(Concurrency::new("release-${{github.ref}}", false))
        .add_needs(JobId::Build)
        .add_env(EnvVar::github())
        .add_env(EnvVar::new("CARGO_REGISTRY_TOKEN", "${{ secrets.CARGO_REGISTRY_TOKEN }}"))
        .permissions(permissions)
        .add_step(Step::checkout())
        .add_step(Step::release(ReleaseCommand::ReleasePr));
    assert(job@.steps =~= release_job_with(ReleaseCommand::ReleasePr, cond@, permissions).steps);
    assert(job@.needs =~= release_job_with(ReleaseCommand::ReleasePr, cond@, permissions).needs);
    assert(job@.env =~= release_job_with(ReleaseCommand::ReleasePr, cond@, permissions).env);
    job
}

/// The "Auto Fix Lint and Fmt" job: on pull requests, runs the formatter
/// in fix mode, then commits and pushes what it changed.
pub fn lint_and_fmt_fix_job() -> (r: Job)
    ensures
        r@ == auto_fix_job_spec(),
{
    let mut script: Vec<String> = Vec::new();
    script.push("git config user.name \"github-actions[bot]\"".to_owned());
    script.push("git config user.email \"github-actions[bot]@users.noreply.github.com\"".to_owned());
    script.push("git add .".to_owned());
    script.push(
        "git commit -m \"style: Applied automatic formatting fixes via gh-workflow-tailcall\"".to_owned(),
    );
    script.push("git push".to_owned());
    assert(strings_view(script@) =~= fix_commit_script());
    let job = Job::new("Auto Fix Lint and Fmt")
        .permissions(Permissions::new().contents(Level::Write))
        .cond(Condition::is_pull_request())
        .add_step(Step::checkout())
        .add_step(Step::toolchain(Toolchain::new().add_stable().add_nightly().add_fmt()))
        .add_step(Step::cargo(CargoCommand::Fmt, "Cargo Fmt (Fix)", "", true))
        .add_step(Step::run(script));
    assert(job@.steps =~= auto_fix_job_spec().steps);
    job
}

} // verus!
