use uplc_zkvm::provisioning::{ArtifactStatus, SetupStep, apply_step, plan_setup};

fn status(guest_exe: bool, app_pk: bool, agg_keys: bool) -> ArtifactStatus {
    ArtifactStatus {
        guest_exe,
        app_pk,
        agg_keys,
    }
}

#[test]
fn fresh_deployment_plans_all_steps_in_order() {
    let plan = plan_setup(&status(false, false, false));
    assert_eq!(
        plan,
        vec![
            SetupStep::BuildGuest,
            SetupStep::GenerateAppPk,
            SetupStep::GenerateAggKeys
        ]
    );
}

#[test]
fn present_artifacts_are_skipped() {
    let plan = plan_setup(&status(true, false, false));
    assert_eq!(
        plan,
        vec![SetupStep::GenerateAppPk, SetupStep::GenerateAggKeys]
    );
    let plan = plan_setup(&status(true, true, false));
    assert_eq!(plan, vec![SetupStep::GenerateAggKeys]);
    let plan = plan_setup(&status(false, true, true));
    assert_eq!(plan, vec![SetupStep::BuildGuest]);
}

#[test]
fn fully_provisioned_deployment_plans_nothing() {
    assert_eq!(plan_setup(&status(true, true, true)), vec![]);
}

#[test]
fn second_setup_run_is_a_no_op() {
    // Run setup once from nothing, completing every planned step ...
    let mut s = status(false, false, false);
    for step in plan_setup(&s) {
        s = apply_step(s, &step);
    }
    // ... then run it again: nothing is planned, nothing regenerated.
    assert_eq!(plan_setup(&s), vec![]);
}

#[test]
fn interrupted_setup_resumes_where_it_stopped() {
    let mut s = status(false, false, false);
    let plan = plan_setup(&s);
    // Only the first step completed before an interruption.
    s = apply_step(s, &plan[0]);
    assert_eq!(
        plan_setup(&s),
        vec![SetupStep::GenerateAppPk, SetupStep::GenerateAggKeys]
    );
}
