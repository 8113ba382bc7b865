//! The `Application` resource model and the reconciler.
//!
//! The reconciler is a planner: from the observed object it computes the
//! side effects to perform (a workload action, an operator-visible event, a
//! status patch) and a scheduling directive. The surrounding process carries
//! the plan out against the resource store.

use vstd::prelude::*;

use crate::deployment::{build_workload, spec_build_workload, valid_spec, WorkloadAction};
use crate::finalizer::{prepare_event, spec_has_finalizer, LifecycleEvent};
use crate::Error;

verus! {

/// The lifecycle state recorded in an application's status.
#[derive(Debug, Clone, Copy, PartialEq, Eq, Structural)]
pub enum ApplicationState {
    Running,
    Starting,
    Failed,
}

/// The desired state of an application: which image to run under which
/// workload name, and whether it should be deployed at all.
#[derive(Debug, Clone)]
pub struct ApplicationSpec {
    pub name: String,
    pub image: String,
    pub deploy: bool,
}

/// The mathematical value of an [`ApplicationSpec`].
pub struct ApplicationSpecView {
    pub name: Seq<char>,
    pub image: Seq<char>,
    pub deploy: bool,
}

impl View for ApplicationSpec {
    type V = ApplicationSpecView;

    open spec fn view(&self) -> ApplicationSpecView {
        ApplicationSpecView { name: self.name@, image: self.image@, deploy: self.deploy }
    }
}

/// The status subdocument of an `Application`: what the last successful
/// reconcile observed and wrote back.
#[derive(Debug, Clone, Copy, PartialEq, Eq, Structural)]
pub struct ApplicationStatus {
    pub state: ApplicationState,
    pub deployed: bool,
}

/// The watched custom resource, reduced to the fields the controller reads:
/// identity, spec, remembered status, the finalizer set, the deletion
/// marker, and the store's concurrency token.
#[derive(Debug, Clone)]
pub struct Application {
    pub namespace: String,
    pub name: String,
    pub spec: ApplicationSpec,
    pub status: Option<ApplicationStatus>,
    pub finalizers: Vec<String>,
    pub deletion_timestamp: Option<i64>,
    pub resource_version: u64,
}

impl Application {
    /// Whether the last written status said the workload was deployed;
    /// false while no status has been written yet.
    pub open spec fn spec_was_deployed(&self) -> bool {
        match self.status {
            Some(s) => s.deployed,
            None => false,
        }
    }

    /// Whether the store has marked this object for deletion.
    pub open spec fn spec_marked_for_deletion(&self) -> bool {
        self.deletion_timestamp is Some
    }

    pub fn was_deployed(&self) -> (r: bool)
        ensures
            r == self.spec_was_deployed(),
    {
        match &self.status {
            Some(s) => s.deployed,
            None => false,
        }
    }

    pub fn marked_for_deletion(&self) -> (r: bool)
        ensures
            r == self.spec_marked_for_deletion(),
    {
        self.deletion_timestamp.is_some()
    }
}

/// Severity of an operator-visible event record.
#[derive(Debug, Clone, Copy, PartialEq, Eq, Structural)]
pub enum EventType {
    Normal,
    Warning,
}

/// An event published on the object for operator visibility.
#[derive(Debug, Clone)]
pub struct EventRecord {
    pub type_: EventType,
    pub reason: String,
    pub note: String,
    pub action: String,
}

/// The scheduling directive a handler returns to the loop driver.
#[derive(Debug, Clone, Copy, PartialEq, Eq, Structural)]
pub enum Directive {
    /// Re-invoke after this many seconds even absent further triggers.
    Requeue(u64),
    /// Do not requeue; wait for the next change notification.
    AwaitChange,
}

/// Apply handlers requeue after five minutes to correct drift.
pub const REQUEUE_SECONDS: u64 = 300;

/// Everything an Apply decides: the workload side effect (if any), the
/// event that announces it, the status to patch back, and the directive.
#[derive(Debug, Clone)]
pub struct ApplyPlan {
    pub action: Option<WorkloadAction>,
    pub event: Option<EventRecord>,
    pub new_status: ApplicationStatus,
    pub directive: Directive,
}

/// Plan one Apply from the observed spec and the remembered status.
///
/// The deployment guard is keyed off the previously written status, not off
/// observed workload existence: a workload is only created or deleted when
/// the last written status said one was deployed. The status is always
/// rewritten to `{state: Running, deployed: spec.deploy}`, and the handler
/// asks to be requeued. The only failure is a spec whose workload
/// descriptor cannot be built.
pub fn plan_apply(app: &Application) -> (r: Result<ApplyPlan, Error>)
    ensures
        r is Err <==> app.spec_was_deployed() && app.spec.deploy && !valid_spec(
            app.spec@.name,
            app.spec@.image,
        ),
        r matches Err(e) ==> e is SerializationError,
        r matches Ok(p) ==> {
            &&& p.new_status == (ApplicationStatus {
                state: ApplicationState::Running,
                deployed: app.spec.deploy,
            })
            &&& p.directive == Directive::Requeue(REQUEUE_SECONDS)
            &&& app.spec_was_deployed() && app.spec.deploy ==> {
                &&& p.action matches Some(WorkloadAction::Create(d)) && d@ == spec_build_workload(
                    app.spec@.name,
                    app.spec@.image,
                )
                &&& p.event matches Some(e) && e.type_ == EventType::Normal && e.reason@
                    == "CreatingDeployment"@ && e.note@ == "Creating deployment `"@ + app.name@
                    + "`"@ && e.action@ == "Reconciling"@
            }
            &&& app.spec_was_deployed() && !app.spec.deploy ==> {
                &&& p.action matches Some(WorkloadAction::Delete(n)) && n@ == app.spec@.name
                &&& p.event matches Some(e) && e.type_ == EventType::Normal && e.reason@
                    == "DeletingDeployment"@ && e.note@ == "Deleting deployment `"@ + app.name@
                    + "`"@ && e.action@ == "Reconciling"@
            }
            &&& !app.spec_was_deployed() ==> p.action is None && p.event is None
        },
{
    let desired = app.spec.deploy;
    let actual = app.was_deployed();
    let mut action: Option<WorkloadAction> = None;
    let mut event: Option<EventRecord> = None;
    if actual && desired {
        let descriptor = match build_workload(&app.spec.name, &app.spec.image) {
            Ok(d) => d,
            Err(e) => {
                return Err(e);
            },
        };
        action = Some(WorkloadAction::Create(descriptor));
        event = Some(
            EventRecord {
                type_: EventType::Normal,
                reason: "CreatingDeployment".to_owned(),
                note: "Creating deployment `".to_owned().concat(app.name.as_str()).concat("`"),
                action: "Reconciling".to_owned(),
            },
        );
    } else if actual && !desired {
        action = Some(WorkloadAction::Delete(app.spec.name.clone()));
        event = Some(
            EventRecord {
                type_: EventType::Normal,
                reason: "DeletingDeployment".to_owned(),
                note: "Deleting deployment `".to_owned().concat(app.name.as_str()).concat("`"),
                action: "Reconciling".to_owned(),
            },
        );
    }
    Ok(
        ApplyPlan {
            action,
            event,
            new_status: ApplicationStatus { state: ApplicationState::Running, deployed: desired },
            directive: Directive::Requeue(REQUEUE_SECONDS),
        },
    )
}

/// The event owed after a create, once the workload has been read back:
/// a normal record when the workload was found, a warning when it was not.
/// The read itself happens outside; this interprets every outcome of it.
pub fn post_create_event(spec_name: &String, found: bool) -> (e: EventRecord)
    ensures
        found ==> e.type_ == EventType::Normal && e.reason@ == "RunningApplication"@ && e.note@
            == "Deployment complete `"@ + spec_name@ + "`"@,
        !found ==> e.type_ == EventType::Warning && e.reason@ == "FailedApplication"@ && e.note@
            == "Deployment not starting `"@ + spec_name@ + "`"@,
        e.action@ == "Reconciling"@,
{
    if found {
        EventRecord {
            type_: EventType::Normal,
            reason: "RunningApplication".to_owned(),
            note: "Deployment complete `".to_owned().concat(spec_name.as_str()).concat("`"),
            action: "Reconciling".to_owned(),
        }
    } else {
        EventRecord {
            type_: EventType::Warning,
            reason: "FailedApplication".to_owned(),
            note: "Deployment not starting `".to_owned().concat(spec_name.as_str()).concat("`"),
            action: "Reconciling".to_owned(),
        }
    }
}

/// Everything a Cleanup decides: delete the workload, announce the
/// deletion, and await the object's removal instead of requeueing.
#[derive(Debug, Clone)]
pub struct CleanupPlan {
    pub action: WorkloadAction,
    pub event: EventRecord,
    pub directive: Directive,
}

/// Plan one Cleanup: the managed workload is deleted (idempotently, by
/// name), a deletion event is published, and no requeue is asked for, since
/// the object is about to be removed.
pub fn plan_cleanup(app: &Application) -> (p: CleanupPlan)
    ensures
        p.directive == Directive::AwaitChange,
        p.action matches WorkloadAction::Delete(n) && n@ == app.spec@.name,
        p.event.type_ == EventType::Normal,
        p.event.reason@ == "DeleteApplication"@,
        p.event.note@ == "Delete `"@ + app.name@ + "`"@,
        p.event.action@ == "Reconciling"@,
{
    CleanupPlan {
        action: WorkloadAction::Delete(app.spec.name.clone()),
        event: EventRecord {
            type_: EventType::Normal,
            reason: "DeleteApplication".to_owned(),
            note: "Delete `".to_owned().concat(app.name.as_str()).concat("`"),
            action: "Reconciling".to_owned(),
        },
        directive: Directive::AwaitChange,
    }
}

/// `x + 1`, stopped at the largest counter value.
pub open spec fn spec_sat_inc(x: u64) -> u64 {
    if x < u64::MAX {
        (x + 1) as u64
    } else {
        x
    }
}

fn sat_inc(x: u64) -> (r: u64)
    ensures
        r == spec_sat_inc(x),
{
    if x < u64::MAX {
        x + 1
    } else {
        x
    }
}

/// `x + y`, stopped at the largest counter value.
pub open spec fn spec_sat_add(x: u64, y: u64) -> u64 {
    if x + y <= u64::MAX {
        (x + y) as u64
    } else {
        u64::MAX
    }
}

fn sat_add(x: u64, y: u64) -> (r: u64)
    ensures
        r == spec_sat_add(x, y),
{
    if y <= u64::MAX - x {
        x + y
    } else {
        u64::MAX
    }
}

/// A histogram of durations in milliseconds: one count per upper bound and
/// one overflow bucket, plus the running sum and total count.
#[derive(Debug, Clone)]
pub struct DurationHistogram {
    /// Bucket upper bounds, strictly increasing, in milliseconds.
    pub bounds: Vec<u64>,
    /// One count per bound; the final entry counts everything larger.
    pub counts: Vec<u64>,
    pub sum_ms: u64,
    pub count: u64,
}

impl DurationHistogram {
    pub open spec fn wf(&self) -> bool {
        &&& self.counts@.len() == self.bounds@.len() + 1
        &&& forall|i: int, j: int|
            0 <= i < j < self.bounds@.len() ==> self.bounds@[i] < self.bounds@[j]
    }

    /// An empty histogram over the given strictly increasing bounds.
    pub fn new(bounds: Vec<u64>) -> (h: DurationHistogram)
        requires
            forall|i: int, j: int| 0 <= i < j < bounds@.len() ==> bounds@[i] < bounds@[j],
        ensures
            h.wf(),
            h.bounds == bounds,
            h.count == 0u64 && h.sum_ms == 0u64,
            forall|i: int| 0 <= i < h.counts@.len() ==> h.counts@[i] == 0u64,
    {
        let n = bounds.len();
        let mut counts: Vec<u64> = Vec::new();
        let mut i: usize = 0;
        while i < n
            invariant
                i <= n,
                counts@.len() == i,
                forall|j: int| 0 <= j < i ==> counts@[j] == 0u64,
            decreases n - i,
        {
            counts.push(0);
            i = i + 1;
        }
        counts.push(0);
        DurationHistogram { bounds, counts, sum_ms: 0, count: 0 }
    }

    /// Record one duration: the first bucket whose bound reaches the value
    /// is incremented (the overflow bucket when none does), as are the
    /// running sum and the total count. Counts stop at their largest value
    /// instead of wrapping.
    pub fn observe(&mut self, ms: u64)
        requires
            old(self).wf(),
        ensures
            final(self).wf(),
            final(self).bounds == old(self).bounds,
            final(self).count == spec_sat_inc(old(self).count),
            final(self).sum_ms == spec_sat_add(old(self).sum_ms, ms),
            exists|idx: int| observe_places(*old(self), *final(self), ms, idx),
    {
        let mut idx: usize = 0;
        while idx < self.bounds.len() && ms > self.bounds[idx]
            invariant
                idx <= self.bounds@.len(),
                forall|j: int| 0 <= j < idx ==> self.bounds@[j] < ms,
                *self == *old(self),
            decreases self.bounds@.len() - idx,
        {
            idx = idx + 1;
        }
        let bumped = sat_inc(self.counts[idx]);
        self.counts.set(idx, bumped);
        self.count = sat_inc(self.count);
        self.sum_ms = sat_add(self.sum_ms, ms);
        proof {
            assert(observe_places(*old(self), *self, ms, idx as int));
        }
    }
}

/// The duration `ms` lands in bucket `idx`: every earlier bound is below
/// it, its own bound (when it has one) reaches it, and exactly that bucket's
/// count was bumped.
pub open spec fn observe_places(
    pre: DurationHistogram,
    post: DurationHistogram,
    ms: u64,
    idx: int,
) -> bool {
    &&& 0 <= idx <= pre.bounds@.len()
    &&& (forall|j: int| 0 <= j < idx ==> pre.bounds@[j] < ms)
    &&& (idx < pre.bounds@.len() ==> ms <= pre.bounds@[idx])
    &&& post.counts@ == pre.counts@.update(idx, spec_sat_inc(pre.counts@[idx]))
}

/// Process-wide counters and the reconcile duration histogram. Reset only
/// on restart; counters never decrease.
#[derive(Debug, Clone)]
pub struct Metrics {
    /// How many reconcile invocations ran.
    pub reconciliations: u64,
    /// How many of them failed.
    pub failures: u64,
    /// How long reconcile invocations took, in milliseconds.
    pub reconcile_duration: DurationHistogram,
}

impl Metrics {
    pub open spec fn wf(&self) -> bool {
        self.reconcile_duration.wf()
    }

    /// Fresh metrics: zero counters and an empty duration histogram with
    /// bounds from ten milliseconds to one minute.
    pub fn new() -> (m: Metrics)
        ensures
            m.wf(),
            m.reconciliations == 0u64 && m.failures == 0u64,
            m.reconcile_duration.count == 0u64,
            m.reconcile_duration.bounds@ == seq![
                10u64,
                100u64,
                250u64,
                500u64,
                1000u64,
                5000u64,
                15000u64,
                60000u64,
            ],
    {
        let mut bounds: Vec<u64> = Vec::new();
        bounds.push(10);
        bounds.push(100);
        bounds.push(250);
        bounds.push(500);
        bounds.push(1000);
        bounds.push(5000);
        bounds.push(15000);
        bounds.push(60000);
        proof {
            assert(bounds@ =~= seq![
                10u64,
                100u64,
                250u64,
                500u64,
                1000u64,
                5000u64,
                15000u64,
                60000u64,
            ]);
        }
        Metrics { reconciliations: 0, failures: 0, reconcile_duration: DurationHistogram::new(bounds) }
    }

    /// Count one reconcile invocation.
    pub fn record_reconciliation(&mut self)
        requires
            old(self).wf(),
        ensures
            final(self).wf(),
            final(self).reconciliations == spec_sat_inc(old(self).reconciliations),
            final(self).failures == old(self).failures,
            final(self).reconcile_duration == old(self).reconcile_duration,
    {
        self.reconciliations = sat_inc(self.reconciliations);
    }

    /// Count one reconcile failure.
    pub fn record_failure(&mut self)
        requires
            old(self).wf(),
        ensures
            final(self).wf(),
            final(self).failures == spec_sat_inc(old(self).failures),
            final(self).reconciliations == old(self).reconciliations,
            final(self).reconcile_duration == old(self).reconcile_duration,
    {
        self.failures = sat_inc(self.failures);
    }

    /// Record how long a reconcile invocation took.
    pub fn observe_duration(&mut self, ms: u64)
        requires
            old(self).wf(),
        ensures
            final(self).wf(),
            final(self).reconciliations == old(self).reconciliations,
            final(self).failures == old(self).failures,
            final(self).reconcile_duration.count == spec_sat_inc(
                old(self).reconcile_duration.count,
            ),
            final(self).reconcile_duration.sum_ms == spec_sat_add(
                old(self).reconcile_duration.sum_ms,
                ms,
            ),
            final(self).reconcile_duration.bounds == old(self).reconcile_duration.bounds,
            exists|idx: int|
                observe_places(
                    old(self).reconcile_duration,
                    final(self).reconcile_duration,
                    ms,
                    idx,
                ),
    {
        self.reconcile_duration.observe(ms);
    }
}

/// Relies on `chrono::Utc::now` for the current wall-clock time, read as
/// milliseconds since the Unix epoch via `DateTime::timestamp_millis`.
/// Nothing is assumed of the value; it panics only when the system clock
/// reads earlier than the epoch.
#[verifier::external_body]
fn now_millis() -> i64 {
    chrono::Utc::now().timestamp_millis()
}

/// What the process-wide diagnostics endpoint reports: when the reconciler
/// last saw an event, and under which reporter identity events are
/// published.
#[derive(Debug, Clone)]
pub struct Diagnostics {
    /// Milliseconds since the Unix epoch of the last observed event.
    pub last_event: i64,
    /// The reporter identity attached to published events.
    pub reporter: String,
}

impl Diagnostics {
    /// Fresh diagnostics under the controller's reporter identity, with the
    /// last-event clock started at `t`.
    pub fn new_at(t: i64) -> (d: Diagnostics)
        ensures
            d.last_event == t,
            d.reporter@ == "app-reporter"@,
    {
        Diagnostics { last_event: t, reporter: "app-reporter".to_owned() }
    }

    /// Fresh diagnostics under the controller's reporter identity, with the
    /// last-event clock started now.
    pub fn new() -> (d: Diagnostics)
        ensures
            d.reporter@ == "app-reporter"@,
    {
        Self::new_at(now_millis())
    }

    /// Note that an event was observed at `t`: the last-event timestamp
    /// becomes `t` and nothing else moves.
    pub fn record_event_at(&mut self, t: i64)
        ensures
            final(self).last_event == t,
            final(self).reporter == old(self).reporter,
    {
        self.last_event = t;
    }

    /// Note that an event was just observed. Only the last-event timestamp
    /// moves; the reporter identity is stable for the process lifetime.
    pub fn record_event(&mut self)
        ensures
            final(self).reporter == old(self).reporter,
    {
        let t = now_millis();
        self.record_event_at(t);
    }
}

/// Map a reconcile failure to its scheduling directive: every failure takes
/// the same flat five-minute retry and bumps the failure counter. There is
/// deliberately no exponential backoff and no triage by failure kind.
pub fn error_policy(error: &Error, metrics: &mut Metrics) -> (d: Directive)
    requires
        old(metrics).wf(),
    ensures
        d == Directive::Requeue(REQUEUE_SECONDS),
        final(metrics).wf(),
        final(metrics).failures == spec_sat_inc(old(metrics).failures),
        final(metrics).reconciliations == old(metrics).reconciliations,
        final(metrics).reconcile_duration == old(metrics).reconcile_duration,
{
    let _ = error;
    metrics.record_failure();
    Directive::Requeue(REQUEUE_SECONDS)
}

/// What one pipeline invocation decided, for the driver to carry out.
#[derive(Debug, Clone)]
pub enum ReconcilePlan {
    /// Reconcile toward the spec: the finalizer has been ensured present.
    Apply(ApplyPlan),
    /// Release the workload; remove the finalizer once that succeeded.
    Cleanup(CleanupPlan),
    /// Deletion in progress and the finalizer already gone: nothing owed.
    Done,
}

/// One reconcile invocation up to its side effects: count it, note the
/// event, run the finalizer state machine (adding the owed finalizer patch
/// to the object), and plan the owed lifecycle handler. The driver then
/// performs the plan's store calls and patches.
pub fn plan_reconcile(app: &mut Application, metrics: &mut Metrics, diagnostics: &mut Diagnostics) -> (r:
    Result<ReconcilePlan, Error>)
    requires
        old(metrics).wf(),
    ensures
        final(metrics).wf(),
        final(metrics).reconciliations == spec_sat_inc(old(metrics).reconciliations),
        final(metrics).failures == old(metrics).failures,
        final(diagnostics).reporter == old(diagnostics).reporter,
        final(app).namespace == old(app).namespace && final(app).name == old(app).name
            && final(app).spec == old(app).spec && final(app).status == old(app).status
            && final(app).deletion_timestamp == old(app).deletion_timestamp
            && final(app).resource_version == old(app).resource_version,
        spec_has_finalizer(old(app)) ==> *final(app) == *old(app),
        !old(app).spec_marked_for_deletion() ==> spec_has_finalizer(final(app)),
        !spec_has_finalizer(old(app)) && !old(app).spec_marked_for_deletion() ==> final(app)
            .finalizers@.drop_last() == old(app).finalizers@ && final(app).finalizers@.last()@
            == crate::finalizer::spec_finalizer(),
        r is Err <==> (!old(app).spec_marked_for_deletion() && old(app).spec_was_deployed()
            && old(app).spec.deploy && !valid_spec(old(app).spec@.name, old(app).spec@.image)),
        r matches Err(e) ==> e is SerializationError,
        !old(app).spec_marked_for_deletion() && r is Ok ==> (r matches Ok(
            ReconcilePlan::Apply(p),
        ) && plan_apply_ensures(*old(app), p)),
        old(app).spec_marked_for_deletion() ==> *final(app) == *old(app),
        old(app).spec_marked_for_deletion() && spec_has_finalizer(old(app)) ==> (r matches Ok(
            ReconcilePlan::Cleanup(p),
        ) && plan_cleanup_ensures(*old(app), p)),
        old(app).spec_marked_for_deletion() && !spec_has_finalizer(old(app)) ==> r matches Ok(
            ReconcilePlan::Done,
        ),
{
    metrics.record_reconciliation();
    diagnostics.record_event();
    let event = prepare_event(app);
    match event {
        Some(LifecycleEvent::Apply) => {
            match plan_apply(app) {
                Ok(p) => Ok(ReconcilePlan::Apply(p)),
                Err(e) => Err(e),
            }
        },
        Some(LifecycleEvent::Cleanup) => Ok(ReconcilePlan::Cleanup(plan_cleanup(app))),
        None => Ok(ReconcilePlan::Done),
    }
}

/// The startup precondition, interpreted from the store's answer: the
/// watched resource type must already be registered, and its absence is
/// fatal — the controller halts instead of retrying.
pub fn bootstrap_check(resource_type_registered: bool) -> (r: Result<(), Error>)
    ensures
        r is Ok <==> resource_type_registered,
        r matches Err(e) ==> e is BootstrapError,
{
    if resource_type_registered {
        Ok(())
    } else {
        Err(
            Error::BootstrapError(
                "the watched resource type is not registered in the store".to_owned(),
            ),
        )
    }
}

/// What [`plan_apply`] promises of a plan for `app`, for reuse by the
/// pipeline's own contract.
pub open spec fn plan_apply_ensures(app: Application, p: ApplyPlan) -> bool {
    &&& p.new_status == (ApplicationStatus {
        state: ApplicationState::Running,
        deployed: app.spec.deploy,
    })
    &&& p.directive == Directive::Requeue(REQUEUE_SECONDS)
    &&& app.spec_was_deployed() && app.spec.deploy ==> {
        &&& p.action matches Some(WorkloadAction::Create(d)) && d@ == spec_build_workload(
            app.spec@.name,
            app.spec@.image,
        )
        &&& p.event matches Some(e) && e.type_ == EventType::Normal && e.reason@
            == "CreatingDeployment"@ && e.note@ == "Creating deployment `"@ + app.name@ + "`"@
            && e.action@ == "Reconciling"@
    }
    &&& app.spec_was_deployed() && !app.spec.deploy ==> {
        &&& p.action matches Some(WorkloadAction::Delete(n)) && n@ == app.spec@.name
        &&& p.event matches Some(e) && e.type_ == EventType::Normal && e.reason@
            == "DeletingDeployment"@ && e.note@ == "Deleting deployment `"@ + app.name@ + "`"@
            && e.action@ == "Reconciling"@
    }
    &&& !app.spec_was_deployed() ==> p.action is None && p.event is None
}

/// What [`plan_cleanup`] promises of a plan for `app`, for reuse by the
/// pipeline's own contract.
pub open spec fn plan_cleanup_ensures(app: Application, p: CleanupPlan) -> bool {
    &&& p.directive == Directive::AwaitChange
    &&& p.action matches WorkloadAction::Delete(n) && n@ == app.spec@.name
    &&& p.event.type_ == EventType::Normal
    &&& p.event.reason@ == "DeleteApplication"@
    &&& p.event.note@ == "Delete `"@ + app.name@ + "`"@
    &&& p.event.action@ == "Reconciling"@
}

} // verus!
