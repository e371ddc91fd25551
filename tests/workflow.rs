use gh_workflow_tailcall::{
    CargoCommand, CargoStep, Condition, ContextField, EnvVar, GithubWorkflow, Job, JobId, Level,
    Permissions, PullRequestType, ReleaseCommand, Step, Toolchain, Workflow,
};

fn job<'a>(w: &'a GithubWorkflow, id: JobId) -> Option<&'a Job> {
    w.jobs.iter().find(|(k, _)| *k == id).map(|(_, j)| j)
}

fn keys(w: &GithubWorkflow) -> Vec<&'static str> {
    w.jobs.iter().map(|(k, _)| k.key()).collect()
}

fn config(auto_release: bool, name: &str, benchmarks: bool, auto_fix: bool) -> Workflow {
    Workflow::default()
        .auto_release(auto_release)
        .name(name.to_string())
        .benchmarks(benchmarks)
        .auto_fix(auto_fix)
}

fn release_gate() -> Condition {
    Condition::And(
        Box::new(Condition::Equals(ContextField::Ref, "refs/heads/main".to_string())),
        Box::new(Condition::Equals(ContextField::EventName, "push".to_string())),
    )
}

fn cargo(command: CargoCommand, name: &str, args: &str, nightly: bool) -> Step {
    Step::Cargo(CargoStep { command, name: name.to_string(), args: args.to_string(), nightly })
}

#[test]
fn default_flags() {
    let w = Workflow::default();
    assert!(!w.auto_release);
    assert_eq!(w.name, "CI");
    assert!(!w.benchmarks);
    assert!(!w.auto_fix);
}

#[test]
fn setters_change_one_flag() {
    let w = Workflow::default().benchmarks(true);
    assert!(w.benchmarks);
    assert!(!w.auto_release && !w.auto_fix);
    let w = w.name("Checks".to_string());
    assert_eq!(w.name, "Checks");
    assert!(w.benchmarks);
}

#[test]
fn build_job_steps_without_benchmarks() {
    let job = Workflow::default().build_and_test();
    assert_eq!(job.name, "Build and Test");
    assert_eq!(
        job.steps,
        vec![
            Step::Checkout,
            Step::Toolchain(Toolchain { stable: true, nightly: true, clippy: true, fmt: true }),
            cargo(CargoCommand::Test, "Cargo Test", "--all-features --workspace", false),
            cargo(CargoCommand::Fmt, "Cargo Fmt", "--check", true),
            cargo(CargoCommand::Clippy, "Cargo Clippy", "--all-features --workspace -- -D warnings", true),
        ]
    );
    assert_eq!(
        job.permissions,
        Permissions { contents: Some(Level::Read), pull_requests: None, packages: None }
    );
    assert!(job.condition.is_none());
    assert!(job.concurrency.is_none());
    assert!(job.needs.is_empty());
}

#[test]
fn build_job_ends_with_benchmarks_when_enabled() {
    let job = config(false, "CI", true, false).build_and_test();
    assert_eq!(job.steps.len(), 6);
    assert_eq!(job.steps[0], Step::Checkout);
    assert_eq!(
        job.steps[5],
        cargo(CargoCommand::Bench, "Cargo Bench", "--workspace", false)
    );
}

#[test]
fn build_job_present_for_every_flag_combination() {
    for bits in 0..8u8 {
        let benchmarks = bits & 2 != 0;
        let w = config(bits & 1 != 0, "CI", benchmarks, bits & 4 != 0).to_github_workflow();
        let build = job(&w, JobId::Build).expect("build job");
        assert_eq!(build.steps[0], Step::Checkout);
        let last_is_bench = matches!(
            build.steps.last(),
            Some(Step::Cargo(CargoStep { command: CargoCommand::Bench, .. }))
        );
        assert_eq!(last_is_bench, benchmarks);
    }
}

#[test]
fn no_release_jobs_without_auto_release() {
    for auto_fix in [false, true] {
        let w = config(false, "CI", true, auto_fix).to_github_workflow();
        assert!(job(&w, JobId::Release).is_none());
        assert!(job(&w, JobId::ReleasePr).is_none());
        assert!(w.jobs.iter().all(|(_, j)| j.name != "Release" && j.name != "Release PR"));
    }
}

#[test]
fn release_jobs_depend_on_build_and_share_grants() {
    let w = config(true, "CI", false, true).to_github_workflow();
    let release = job(&w, JobId::Release).unwrap();
    let release_pr = job(&w, JobId::ReleasePr).unwrap();
    assert_eq!(release.needs, vec![JobId::Build]);
    assert_eq!(release_pr.needs, vec![JobId::Build]);
    assert_eq!(release.permissions, release_pr.permissions);
    assert_eq!(
        release.permissions,
        Permissions {
            contents: Some(Level::Write),
            pull_requests: Some(Level::Write),
            packages: Some(Level::Write),
        }
    );
    assert!(release.concurrency.is_none());
    let c = release_pr.concurrency.as_ref().unwrap();
    assert_eq!(c.group, "release-${{github.ref}}");
    assert!(!c.cancel_in_progress);
    for (id, j) in &w.jobs {
        assert_eq!(j.concurrency.is_some(), *id == JobId::ReleasePr);
    }
    assert_eq!(release.condition, Some(release_gate()));
    assert_eq!(release_pr.condition, Some(release_gate()));
    let env = vec![
        EnvVar::new("GITHUB_TOKEN", "${{ secrets.GITHUB_TOKEN }}"),
        EnvVar::new("CARGO_REGISTRY_TOKEN", "${{ secrets.CARGO_REGISTRY_TOKEN }}"),
    ];
    assert_eq!(release.env, env);
    assert_eq!(release_pr.env, env);
    assert_eq!(release.steps, vec![Step::Checkout, Step::Release(ReleaseCommand::Release)]);
    assert_eq!(release_pr.steps, vec![Step::Checkout, Step::Release(ReleaseCommand::ReleasePr)]);
}

#[test]
fn auto_fix_job_gated_on_pull_requests_and_independent() {
    let w = config(true, "CI", false, true).to_github_workflow();
    let fix = job(&w, JobId::AutoFixLintFmt).unwrap();
    assert_eq!(fix.name, "Auto Fix Lint and Fmt");
    assert_eq!(
        fix.condition,
        Some(Condition::Equals(ContextField::EventName, "pull_request".to_string()))
    );
    assert!(fix.needs.is_empty());
    assert!(w.jobs.iter().all(|(_, j)| !j.needs.contains(&JobId::AutoFixLintFmt)));
    assert_eq!(
        fix.permissions,
        Permissions { contents: Some(Level::Write), pull_requests: None, packages: None }
    );
    assert_eq!(fix.steps.len(), 4);
    assert_eq!(
        fix.steps[1],
        Step::Toolchain(Toolchain { stable: true, nightly: true, clippy: false, fmt: true })
    );
    assert_eq!(fix.steps[2], cargo(CargoCommand::Fmt, "Cargo Fmt (Fix)", "", true));
    match &fix.steps[3] {
        Step::Run(cmds) => {
            assert_eq!(cmds.len(), 5);
            assert_eq!(cmds[2], "git add .");
            assert_eq!(cmds[4], "git push");
        }
        other => panic!("expected a script step, found {:?}", other),
    }
}

#[test]
fn no_auto_fix_job_without_flag() {
    let w = config(true, "CI", true, false).to_github_workflow();
    assert!(job(&w, JobId::AutoFixLintFmt).is_none());
}

#[test]
fn assembling_twice_gives_equal_workflows() {
    for bits in 0..8u8 {
        let cfg = config(bits & 1 != 0, "Pipeline", bits & 2 != 0, bits & 4 != 0);
        assert_eq!(cfg.to_github_workflow(), cfg.clone().to_github_workflow());
    }
}

#[test]
fn release_example_workflow() {
    let w = config(true, "CI", false, false).to_github_workflow();
    assert_eq!(w.name, "CI");
    assert_eq!(keys(&w), vec!["build", "release", "release-pr"]);
    let build = job(&w, JobId::Build).unwrap();
    assert_eq!(build.steps.len(), 5);
    assert!(build.condition.is_none());
    let release = job(&w, JobId::Release).unwrap();
    assert_eq!(release.needs, vec![JobId::Build]);
    assert!(release.condition.is_some());
    assert!(release.concurrency.is_none());
    let release_pr = job(&w, JobId::ReleasePr).unwrap();
    assert_eq!(release_pr.needs, vec![JobId::Build]);
    assert!(release_pr.condition.is_some());
    assert!(!release_pr.concurrency.as_ref().unwrap().cancel_in_progress);
    assert_eq!(w.on.push_branches, vec!["main".to_string()]);
    assert_eq!(
        w.on.pull_request_types,
        vec![PullRequestType::Opened, PullRequestType::Synchronize, PullRequestType::Reopened]
    );
    assert_eq!(w.on.pull_request_branches, vec!["main".to_string()]);
}

#[test]
fn default_workflow_has_only_build() {
    let w = Workflow::default().to_github_workflow();
    assert_eq!(keys(&w), vec!["build"]);
    assert_eq!(w.env, vec![EnvVar::new("RUSTFLAGS", "-Dwarnings")]);
}

#[test]
fn all_jobs_in_order() {
    let w = config(true, "CI", true, true).to_github_workflow();
    assert_eq!(keys(&w), vec!["build", "release", "release-pr", "auto-fix-lint-fmt"]);
}

#[test]
fn condition_combinators() {
    let c = Condition::is_main().or(Condition::is_pull_request().not());
    assert_eq!(
        c,
        Condition::Or(
            Box::new(Condition::Equals(ContextField::Ref, "refs/heads/main".to_string())),
            Box::new(Condition::Not(Box::new(Condition::Equals(
                ContextField::EventName,
                "pull_request".to_string()
            )))),
        )
    );
    assert_eq!(c.clone(), c);
    assert_eq!(Condition::release_gate(), release_gate());
}

#[test]
fn job_builder_keeps_step_order_and_grants() {
    let j = Job::new("J")
        .add_step(Step::checkout())
        .add_step(Step::run(vec!["a".to_string(), "b".to_string()]))
        .permissions(Permissions::new().packages(Level::Write).contents(Level::NoAccess))
        .add_needs(JobId::Build);
    assert_eq!(j.steps, vec![Step::Checkout, Step::Run(vec!["a".to_string(), "b".to_string()])]);
    assert_eq!(j.permissions.packages, Some(Level::Write));
    assert_eq!(j.permissions.contents, Some(Level::NoAccess));
    assert_eq!(j.permissions.pull_requests, None);
    assert_eq!(j.needs, vec![JobId::Build]);
}

fn bare(jobs: Vec<(JobId, Job)>) -> GithubWorkflow {
    GithubWorkflow {
        name: "W".to_string(),
        env: vec![],
        on: gh_workflow_tailcall::Events::main_branch(),
        jobs,
    }
}

#[test]
fn assembled_workflows_are_well_formed() {
    for bits in 0..8u8 {
        let w = config(bits & 1 != 0, "CI", bits & 2 != 0, bits & 4 != 0).to_github_workflow();
        assert!(w.is_well_formed());
    }
}

#[test]
fn duplicate_key_is_rejected() {
    let w = bare(vec![(JobId::Build, Job::new("a")), (JobId::Build, Job::new("b"))]);
    assert!(!w.is_well_formed());
}

#[test]
fn forward_dependency_is_rejected() {
    let w = bare(vec![
        (JobId::Release, Job::new("r").add_needs(JobId::Build)),
        (JobId::Build, Job::new("b")),
    ]);
    assert!(!w.is_well_formed());
}

#[test]
fn missing_dependency_is_rejected() {
    let w = bare(vec![(JobId::Release, Job::new("r").add_needs(JobId::Build))]);
    assert!(!w.is_well_formed());
    let w = bare(vec![
        (JobId::Build, Job::new("b")),
        (JobId::Release, Job::new("r").add_needs(JobId::Build)),
    ]);
    assert!(w.is_well_formed());
}

#[test]
fn self_dependency_is_rejected() {
    let w = bare(vec![(JobId::Build, Job::new("b").add_needs(JobId::Build))]);
    assert!(!w.is_well_formed());
}
