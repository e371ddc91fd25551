//! What holds of every workflow that the assembler builds, stated over the
//! value that `Workflow::to_github_workflow` is proved to return.

use vstd::prelude::*;
use crate::condition::is_pull_request_expr;
use crate::job::JobId;
use crate::step::StepView;
use crate::workflow::{Workflow, is_bench_step, jobs_spec, jobs_wf, release_pr_group};

verus! {

/// Every workflow holds the "Build and Test" job under the key `build`; it
/// starts with a checkout, and ends with the benchmark step exactly when
/// benchmarks are enabled.
pub proof fn build_job_always_present(cfg: &Workflow)
    ensures
        cfg.spec_github_workflow().has_job(JobId::Build),
        forall|i: int|
            0 <= i < cfg.spec_github_workflow().jobs.len() && #[trigger] cfg.spec_github_workflow().jobs[i].0
                == JobId::Build ==> {
                let steps = cfg.spec_github_workflow().jobs[i].1.steps;
                &&& steps.len() > 0
                &&& steps[0] == StepView::Checkout
                &&& is_bench_step(steps.last()) <==> cfg.benchmarks
            },
{
    let jobs = cfg.spec_github_workflow().jobs;
    assert(jobs[0].0 == JobId::Build);
}

/// Without `auto_release` there is no release job, under its key or its
/// name.
pub proof fn no_release_jobs_unless_enabled(cfg: &Workflow)
    requires
        !cfg.auto_release,
    ensures
        !cfg.spec_github_workflow().has_job(JobId::Release),
        !cfg.spec_github_workflow().has_job(JobId::ReleasePr),
        forall|i: int|
            0 <= i < cfg.spec_github_workflow().jobs.len() ==> {
                let name = #[trigger] cfg.spec_github_workflow().jobs[i].1.name;
                name != "Release"@ && name != "Release PR"@
            },
{
    reveal_strlit("Release");
    reveal_strlit("Release PR");
    reveal_strlit("Build and Test");
    reveal_strlit("Auto Fix Lint and Fmt");
    assert("Build and Test"@.len() != "Release"@.len());
    assert("Build and Test"@.len() != "Release PR"@.len());
    assert("Auto Fix Lint and Fmt"@.len() != "Release"@.len());
    assert("Auto Fix Lint and Fmt"@.len() != "Release PR"@.len());
}

/// With `auto_release`, the "Release" and "Release PR" jobs both stand in
/// the workflow, both depend on the build job alone, both have the same
/// grants, and the release-PR job is the only job of the workflow with a
/// concurrency policy, one that queues runs rather than cancelling them.
pub proof fn release_jobs_wiring(cfg: &Workflow)
    requires
        cfg.auto_release,
    ensures
        cfg.spec_github_workflow().has_job(JobId::Release),
        cfg.spec_github_workflow().has_job(JobId::ReleasePr),
        forall|i: int|
            0 <= i < cfg.spec_github_workflow().jobs.len() && (#[trigger] cfg.spec_github_workflow().jobs[i].0
                == JobId::Release || cfg.spec_github_workflow().jobs[i].0 == JobId::ReleasePr)
                ==> cfg.spec_github_workflow().jobs[i].1.needs == seq![JobId::Build],
        forall|i: int, j: int|
            0 <= i < cfg.spec_github_workflow().jobs.len() && 0 <= j
                < cfg.spec_github_workflow().jobs.len() && #[trigger] cfg.spec_github_workflow().jobs[i].0
                == JobId::Release && #[trigger] cfg.spec_github_workflow().jobs[j].0 == JobId::ReleasePr
                ==> cfg.spec_github_workflow().jobs[i].1.permissions
                == cfg.spec_github_workflow().jobs[j].1.permissions,
        forall|i: int|
            0 <= i < cfg.spec_github_workflow().jobs.len() ==> ((
            #[trigger] cfg.spec_github_workflow().jobs[i].1.concurrency is Some)
                <==> cfg.spec_github_workflow().jobs[i].0 == JobId::ReleasePr),
        forall|i: int|
            0 <= i < cfg.spec_github_workflow().jobs.len() && #[trigger] cfg.spec_github_workflow().jobs[i].0
                == JobId::ReleasePr ==> cfg.spec_github_workflow().jobs[i].1.concurrency == Some(
                (release_pr_group(), false),
            ),
{
    let jobs = cfg.spec_github_workflow().jobs;
    assert(jobs[1].0 == JobId::Release);
    assert(jobs[2].0 == JobId::ReleasePr);
}

/// With `auto_fix`, the auto-fix job stands in the workflow, is gated on a
/// pull-request event, depends on no job, and no job depends on it.
pub proof fn auto_fix_job_independent(cfg: &Workflow)
    requires
        cfg.auto_fix,
    ensures
        cfg.spec_github_workflow().has_job(JobId::AutoFixLintFmt),
        forall|i: int|
            0 <= i < cfg.spec_github_workflow().jobs.len() && #[trigger] cfg.spec_github_workflow().jobs[i].0
                == JobId::AutoFixLintFmt ==> {
                &&& cfg.spec_github_workflow().jobs[i].1.condition == Some(is_pull_request_expr())
                &&& cfg.spec_github_workflow().jobs[i].1.needs.len() == 0
            },
        forall|i: int, k: int|
            0 <= i < cfg.spec_github_workflow().jobs.len() && 0 <= k
                < cfg.spec_github_workflow().jobs[i].1.needs.len()
                ==> #[trigger] cfg.spec_github_workflow().jobs[i].1.needs[k] != JobId::AutoFixLintFmt,
{
    let jobs = cfg.spec_github_workflow().jobs;
    assert(jobs.last().0 == JobId::AutoFixLintFmt);
}

/// Every assembled workflow is well formed: unique keys, and dependencies
/// only on jobs that stand before.
pub proof fn assembled_workflow_well_formed(cfg: &Workflow)
    ensures
        cfg.spec_github_workflow().wf(),
{
    crate::workflow::lemma_jobs_spec_wf(cfg.auto_release, cfg.benchmarks, cfg.auto_fix);
}

/// Assembling from equal flags gives the same workflow: the same jobs, steps
/// and gates, in the same order.
pub proof fn assembly_is_deterministic(a: &Workflow, b: &Workflow)
    requires
        a.auto_release == b.auto_release,
        a.name@ == b.name@,
        a.benchmarks == b.benchmarks,
        a.auto_fix == b.auto_fix,
    ensures
        a.spec_github_workflow() == b.spec_github_workflow(),
{
}

} // verus!
