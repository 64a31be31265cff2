//! The provisioning planner.
//!
//! Provisioning produces three artifact generations in a fixed order — the
//! guest executable, the app-level proving key, and the aggregation key pair
//! — each persisted, each expensive, each independently skippable when its
//! output already exists. The planner decides which steps a setup run
//! performs from what is present on storage; the host performs them. Running
//! setup again after a complete run plans nothing: artifacts already present
//! are never regenerated.
//!
//! Trust model: the app-level verifying key is deliberately not persisted.
//! Verifiers are given the aggregation verifying key alone and reconstruct
//! the rest from the per-program commits carried by each proof, so nothing
//! program-specific needs distributing out of band.

use vstd::prelude::*;

verus! {

/// Which provisioning artifacts are already present on persistent storage.
#[derive(Clone, Copy, Debug, PartialEq, Eq, Structural)]
pub struct ArtifactStatus {
    pub guest_exe: bool,
    pub app_pk: bool,
    pub agg_keys: bool,
}

/// The provisioning steps, in the order a setup run performs them.
#[derive(Clone, Copy, Debug, PartialEq, Eq, Structural)]
pub enum SetupStep {
    BuildGuest,
    GenerateAppPk,
    GenerateAggKeys,
}

/// Whether the artifact a step produces is already present.
pub open spec fn step_done(status: ArtifactStatus, step: SetupStep) -> bool {
    match step {
        SetupStep::BuildGuest => status.guest_exe,
        SetupStep::GenerateAppPk => status.app_pk,
        SetupStep::GenerateAggKeys => status.agg_keys,
    }
}

/// The steps a setup run performs: each in order, skipped exactly when its
/// artifact already exists.
pub open spec fn spec_plan(status: ArtifactStatus) -> Seq<SetupStep> {
    (if !status.guest_exe {
        seq![SetupStep::BuildGuest]
    } else {
        Seq::<SetupStep>::empty()
    }) + (if !status.app_pk {
        seq![SetupStep::GenerateAppPk]
    } else {
        Seq::<SetupStep>::empty()
    }) + (if !status.agg_keys {
        seq![SetupStep::GenerateAggKeys]
    } else {
        Seq::<SetupStep>::empty()
    })
}

/// Plan a setup run from what is present on storage.
pub fn plan_setup(status: &ArtifactStatus) -> (plan: Vec<SetupStep>)
    ensures
        plan@ == spec_plan(*status),
{
    let mut plan: Vec<SetupStep> = Vec::new();
    if !status.guest_exe {
        plan.push(SetupStep::BuildGuest);
    }
    if !status.app_pk {
        plan.push(SetupStep::GenerateAppPk);
    }
    if !status.agg_keys {
        plan.push(SetupStep::GenerateAggKeys);
    }
    proof {
        assert(plan@ =~= spec_plan(*status));
    }
    plan
}

/// The status after a step has run to completion and persisted its artifact.
pub open spec fn after_step(status: ArtifactStatus, step: SetupStep) -> ArtifactStatus {
    match step {
        SetupStep::BuildGuest => ArtifactStatus { guest_exe: true, ..status },
        SetupStep::GenerateAppPk => ArtifactStatus { app_pk: true, ..status },
        SetupStep::GenerateAggKeys => ArtifactStatus { agg_keys: true, ..status },
    }
}

/// The status after a sequence of steps has run to completion.
pub open spec fn after_plan(status: ArtifactStatus, plan: Seq<SetupStep>) -> ArtifactStatus
    decreases plan.len(),
{
    if plan.len() == 0 {
        status
    } else {
        after_plan(after_step(status, plan.first()), plan.drop_first())
    }
}

/// Record that a step has run to completion and persisted its artifact.
pub fn apply_step(status: ArtifactStatus, step: &SetupStep) -> (s2: ArtifactStatus)
    ensures
        s2 == after_step(status, *step),
{
    match step {
        SetupStep::BuildGuest => ArtifactStatus { guest_exe: true, ..status },
        SetupStep::GenerateAppPk => ArtifactStatus { app_pk: true, ..status },
        SetupStep::GenerateAggKeys => ArtifactStatus { agg_keys: true, ..status },
    }
}

/// A step stands in the plan exactly when its artifact is missing.
pub proof fn lemma_plan_exactly_missing(status: ArtifactStatus, step: SetupStep)
    ensures
        spec_plan(status).contains(step) <==> !step_done(status, step),
{
    if !step_done(status, step) {
        match step {
            SetupStep::BuildGuest => {
                assert(spec_plan(status)[0] == step);
            },
            SetupStep::GenerateAppPk => {
                if !status.guest_exe {
                    assert(spec_plan(status)[1] == step);
                } else {
                    assert(spec_plan(status)[0] == step);
                }
            },
            SetupStep::GenerateAggKeys => {
                let i = spec_plan(status).len() - 1;
                assert(spec_plan(status)[i] == step);
            },
        }
    }
}

/// After every planned step has run, all three artifacts are present.
pub proof fn lemma_plan_completes(status: ArtifactStatus)
    ensures
        after_plan(status, spec_plan(status)) == (ArtifactStatus {
            guest_exe: true,
            app_pk: true,
            agg_keys: true,
        }),
    decreases spec_plan(status).len(),
{
    let plan = spec_plan(status);
    if plan.len() > 0 {
        let s1 = after_step(status, plan.first());
        assert(plan.drop_first() =~= spec_plan(s1));
        lemma_plan_completes(s1);
    }
}

/// Provisioning is idempotent: after a setup run has completed every step it
/// planned, a second run plans nothing — present artifacts are never
/// regenerated.
pub proof fn lemma_setup_idempotent(status: ArtifactStatus)
    ensures
        spec_plan(after_plan(status, spec_plan(status))) =~= Seq::<SetupStep>::empty(),
{
    lemma_plan_completes(status);
}

} // verus!
