use app_operator::deployment::WorkloadAction;
use app_operator::finalizer::{
    complete_cleanup, decide_step, finalizer_name, has_finalizer, phase_of, prepare_event,
    FinalizerPhase, LifecycleEvent,
};
use app_operator::operator::{
    plan_apply, plan_cleanup, plan_reconcile, Application, ApplicationSpec, ApplicationState,
    ApplicationStatus, Diagnostics, Directive, EventType, Metrics, ReconcilePlan, REQUEUE_SECONDS,
};

fn app(deploy: bool, deployed: Option<bool>, deleting: bool, with_finalizer: bool) -> Application {
    let mut finalizers: Vec<String> = vec!["other.example/keep".to_owned()];
    if with_finalizer {
        finalizers.push(finalizer_name().to_owned());
    }
    Application {
        namespace: "default".to_owned(),
        name: "a".to_owned(),
        spec: ApplicationSpec {
            name: "a".to_owned(),
            image: "nginx:1".to_owned(),
            deploy,
        },
        status: deployed.map(|d| ApplicationStatus { state: ApplicationState::Running, deployed: d }),
        finalizers,
        deletion_timestamp: if deleting { Some(1_700_000_000_000) } else { None },
        resource_version: 1,
    }
}

#[test]
fn phases_follow_marker_and_finalizer() {
    assert_eq!(phase_of(&app(true, None, false, false)), FinalizerPhase::NoFinalizer);
    assert_eq!(phase_of(&app(true, None, false, true)), FinalizerPhase::FinalizerPresent);
    assert_eq!(phase_of(&app(true, None, true, true)), FinalizerPhase::Deleting);
    assert_eq!(phase_of(&app(true, None, true, false)), FinalizerPhase::Removed);
}

#[test]
fn apply_owed_while_not_deleting() {
    let d = decide_step(&app(true, None, false, false));
    assert!(d.add_finalizer);
    assert_eq!(d.event, Some(LifecycleEvent::Apply));

    let d = decide_step(&app(true, None, false, true));
    assert!(!d.add_finalizer);
    assert_eq!(d.event, Some(LifecycleEvent::Apply));
}

#[test]
fn cleanup_owed_only_with_marker_and_finalizer() {
    let d = decide_step(&app(true, None, true, true));
    assert_eq!(d.event, Some(LifecycleEvent::Cleanup));

    let d = decide_step(&app(true, None, true, false));
    assert_eq!(d.event, None);

    let d = decide_step(&app(true, None, false, true));
    assert_ne!(d.event, Some(LifecycleEvent::Cleanup));
}

#[test]
fn finalizer_present_after_first_apply() {
    let mut a = app(true, None, false, false);
    assert!(!has_finalizer(&a));
    let ev = prepare_event(&mut a);
    assert_eq!(ev, Some(LifecycleEvent::Apply));
    assert!(has_finalizer(&a));
    // The patch is idempotent: a re-delivered notification adds nothing.
    let n = a.finalizers.len();
    let ev = prepare_event(&mut a);
    assert_eq!(ev, Some(LifecycleEvent::Apply));
    assert_eq!(a.finalizers.len(), n);
    // Entries of other controllers survive.
    assert!(a.finalizers.contains(&"other.example/keep".to_owned()));
}

#[test]
fn finalizer_absent_after_cleanup() {
    let mut a = app(true, Some(true), true, true);
    assert!(has_finalizer(&a));
    complete_cleanup(&mut a);
    assert!(!has_finalizer(&a));
    assert_eq!(a.finalizers, vec!["other.example/keep".to_owned()]);
    // Removing an absent finalizer is a no-op.
    complete_cleanup(&mut a);
    assert_eq!(a.finalizers, vec!["other.example/keep".to_owned()]);
}

#[test]
fn apply_status_follows_desired_deploy() {
    let plan = plan_apply(&app(true, Some(true), false, true)).unwrap();
    assert_eq!(plan.new_status, ApplicationStatus { state: ApplicationState::Running, deployed: true });
    assert_eq!(plan.directive, Directive::Requeue(REQUEUE_SECONDS));
    assert_eq!(plan.directive, Directive::Requeue(300));

    let plan = plan_apply(&app(false, Some(true), false, true)).unwrap();
    assert_eq!(plan.new_status.deployed, false);
    assert_eq!(plan.new_status.state, ApplicationState::Running);
}

#[test]
fn scenario_first_apply_skips_create() {
    // Freshly created object: no status yet, so the deployment guard is
    // false and the workload create is skipped for this cycle; the status
    // patch records deployed=true for the next one.
    let a = app(true, None, false, false);
    let plan = plan_apply(&a).unwrap();
    assert!(plan.action.is_none());
    assert!(plan.event.is_none());
    assert_eq!(plan.new_status, ApplicationStatus { state: ApplicationState::Running, deployed: true });
}

#[test]
fn scenario_second_apply_creates_workload() {
    // Re-delivered object now remembers deployed=true: create fires.
    let a = app(true, Some(true), false, true);
    let plan = plan_apply(&a).unwrap();
    match plan.action {
        Some(WorkloadAction::Create(d)) => {
            assert_eq!(d.name, "a");
            assert_eq!(d.replicas, 2);
            assert_eq!(d.image, "nginx:1");
            assert_eq!(d.container_name, "a");
        }
        other => panic!("expected a create action, got {:?}", other),
    }
    let e = plan.event.unwrap();
    assert_eq!(e.type_, EventType::Normal);
    assert_eq!(e.reason, "CreatingDeployment");
    assert_eq!(e.note, "Creating deployment `a`");
    assert_eq!(e.action, "Reconciling");
}

#[test]
fn scenario_deploy_turned_off_deletes_workload() {
    let a = app(false, Some(true), false, true);
    let plan = plan_apply(&a).unwrap();
    match plan.action {
        Some(WorkloadAction::Delete(name)) => assert_eq!(name, "a"),
        other => panic!("expected a delete action, got {:?}", other),
    }
    let e = plan.event.unwrap();
    assert_eq!(e.reason, "DeletingDeployment");
    assert_eq!(e.note, "Deleting deployment `a`");
    assert_eq!(plan.new_status.deployed, false);
}

#[test]
fn scenario_cleanup_deletes_and_releases() {
    let mut a = app(true, Some(true), true, true);
    let mut metrics = Metrics::new();
    let mut diagnostics = Diagnostics::new();
    let plan = plan_reconcile(&mut a, &mut metrics, &mut diagnostics).unwrap();
    match plan {
        ReconcilePlan::Cleanup(p) => {
            match p.action {
                WorkloadAction::Delete(name) => assert_eq!(name, "a"),
                other => panic!("expected a delete action, got {:?}", other),
            }
            assert_eq!(p.event.reason, "DeleteApplication");
            assert_eq!(p.event.note, "Delete `a`");
            assert_eq!(p.directive, Directive::AwaitChange);
        }
        other => panic!("expected a cleanup plan, got {:?}", other),
    }
    // Once the workload is gone, the finalizer is removed and the next
    // notification finds nothing left to do.
    complete_cleanup(&mut a);
    let plan = plan_reconcile(&mut a, &mut metrics, &mut diagnostics).unwrap();
    assert!(matches!(plan, ReconcilePlan::Done));
}

#[test]
fn cleanup_plan_deletes_by_spec_name() {
    let mut a = app(true, Some(true), true, true);
    a.spec.name = "workload-name".to_owned();
    let p = plan_cleanup(&a);
    match p.action {
        WorkloadAction::Delete(name) => assert_eq!(name, "workload-name"),
        other => panic!("expected a delete action, got {:?}", other),
    }
}

#[test]
fn reconcile_counts_invocations() {
    let mut a = app(true, None, false, false);
    let mut metrics = Metrics::new();
    let mut diagnostics = Diagnostics::new();
    assert_eq!(metrics.reconciliations, 0);
    let plan = plan_reconcile(&mut a, &mut metrics, &mut diagnostics).unwrap();
    assert!(matches!(plan, ReconcilePlan::Apply(_)));
    assert_eq!(metrics.reconciliations, 1);
    assert_eq!(metrics.failures, 0);
    assert!(has_finalizer(&a));
}

#[test]
fn reconcile_rejects_malformed_spec() {
    let mut a = app(true, Some(true), false, true);
    a.spec.name = String::new();
    let mut metrics = Metrics::new();
    let mut diagnostics = Diagnostics::new();
    let r = plan_reconcile(&mut a, &mut metrics, &mut diagnostics);
    assert!(matches!(r, Err(app_operator::Error::SerializationError(_))));
}
