//! The finalizer lifecycle state machine.
//!
//! A raw change notification is turned into at most one lifecycle event:
//! Apply while the object is not being deleted, Cleanup once a deletion
//! marker is set while this controller's finalizer is still present. The
//! finalizer blocks physical deletion until cleanup has succeeded; both
//! finalizer patches are idempotent, and entries owned by other controllers
//! are never disturbed.

use vstd::prelude::*;
use vstd::seq_lib::group_filter_ensures;

use crate::operator::Application;

verus! {

/// The finalizer marker this controller owns on watched objects.
pub open spec fn spec_finalizer() -> Seq<char> {
    "customapps.per.naess"@
}

/// The exec value of [`spec_finalizer`].
pub fn finalizer_name() -> (r: &'static str)
    ensures
        r@ == spec_finalizer(),
{
    "customapps.per.naess"
}

/// Whether the finalizer list `fins` holds an entry spelled `name`.
pub open spec fn seq_contains_str(fins: Seq<String>, name: Seq<char>) -> bool {
    exists|i: int| 0 <= i < fins.len() && fins[i]@ == name
}

/// Whether the object carries this controller's finalizer.
pub open spec fn spec_has_finalizer(app: &Application) -> bool {
    seq_contains_str(app.finalizers@, spec_finalizer())
}

fn contains_str(fins: &Vec<String>, name: &String) -> (r: bool)
    ensures
        r == seq_contains_str(fins@, name@),
{
    let mut i: usize = 0;
    while i < fins.len()
        invariant
            i <= fins.len(),
            forall|j: int| 0 <= j < i ==> fins@[j]@ != name@,
        decreases fins.len() - i,
    {
        if fins[i].eq(name) {
            return true;
        }
        i = i + 1;
    }
    false
}

/// Whether the object carries this controller's finalizer.
pub fn has_finalizer(app: &Application) -> (r: bool)
    ensures
        r == spec_has_finalizer(app),
{
    let name: String = finalizer_name().to_owned();
    contains_str(&app.finalizers, &name)
}

/// Add this controller's finalizer to the list. The patch is idempotent:
/// adding an already-present finalizer changes nothing, and entries of other
/// controllers are kept as they are.
pub fn add_finalizer(fins: &mut Vec<String>)
    ensures
        seq_contains_str(final(fins)@, spec_finalizer()),
        seq_contains_str(old(fins)@, spec_finalizer()) ==> final(fins)@ == old(fins)@,
        !seq_contains_str(old(fins)@, spec_finalizer()) ==> final(fins)@.drop_last() == old(fins)@
            && final(fins)@.last()@ == spec_finalizer(),
{
    let name: String = finalizer_name().to_owned();
    if !contains_str(fins, &name) {
        fins.push(name);
        proof {
            assert(final(fins)@.drop_last() =~= old(fins)@);
            assert(final(fins)@[old(fins)@.len() as int]@ == spec_finalizer());
        }
    }
}

/// Remove this controller's finalizer from the list. The patch is
/// idempotent (removing an absent finalizer is a no-op) and keeps every
/// entry owned by another controller, in order.
#[verifier::loop_isolation(false)]
pub fn remove_finalizer(fins: &mut Vec<String>)
    ensures
        !seq_contains_str(final(fins)@, spec_finalizer()),
        final(fins)@.map_values(|s: String| s@) == old(fins)@.map_values(|s: String| s@).filter(
            (|s: Seq<char>| s != spec_finalizer()),
        ),
{
    broadcast use group_filter_ensures;

    let ghost vf = |s: String| s@;
    let ghost p = |s: Seq<char>| s != spec_finalizer();
    let name: String = finalizer_name().to_owned();
    let mut out: Vec<String> = Vec::new();
    let mut i: usize = 0;
    proof {
        assert(out@.map_values(vf) =~= old(fins)@.subrange(0, 0).map_values(vf).filter(p)) by {
            reveal(Seq::filter);
            assert(old(fins)@.subrange(0, 0).map_values(vf) =~= Seq::<Seq<char>>::empty());
        }
    }
    while i < fins.len()
        invariant
            i <= fins.len(),
            *fins == *old(fins),
            out@.map_values(vf) == fins@.subrange(0, i as int).map_values(vf).filter(p),
        decreases fins.len() - i,
    {
        let ghost pre = fins@.subrange(0, i as int).map_values(vf);
        let keep = !fins[i].eq(&name);
        if keep {
            out.push(fins[i].clone());
        }
        proof {
            let x = fins@[i as int]@;
            assert(fins@.subrange(0, i + 1).map_values(vf) =~= pre.push(x));
            assert(pre.push(x).drop_last() =~= pre);
            assert(pre.push(x).filter(p) == if p(x) {
                pre.filter(p).push(x)
            } else {
                pre.filter(p)
            }) by {
                reveal(Seq::filter);
            }
            if keep {
                assert(out@.map_values(vf) =~= pre.filter(p).push(x));
            }
        }
        i = i + 1;
    }
    proof {
        assert(fins@.subrange(0, fins@.len() as int) =~= fins@);
    }
    *fins = out;
    proof {
        let res = final(fins)@.map_values(vf);
        assert forall|k: int| 0 <= k < final(fins)@.len() implies final(fins)@[k]@
            != spec_finalizer() by {
            assert(res[k] == final(fins)@[k]@);
            assert(p(res[k]));
        }
    }
}

/// The lifecycle phase an object is in, read off the deletion marker and
/// this controller's finalizer.
#[derive(Debug, Clone, Copy, PartialEq, Eq, Structural)]
pub enum FinalizerPhase {
    /// Not being deleted, finalizer not yet added.
    NoFinalizer,
    /// Not being deleted, finalizer present: deletion is blocked.
    FinalizerPresent,
    /// Deletion marker set, finalizer still present: cleanup is owed.
    Deleting,
    /// Deletion marker set, finalizer gone: physical deletion follows.
    Removed,
}

/// The phase determined by the deletion marker and finalizer presence.
pub open spec fn spec_phase(marked: bool, has_fin: bool) -> FinalizerPhase {
    if !marked {
        if has_fin {
            FinalizerPhase::FinalizerPresent
        } else {
            FinalizerPhase::NoFinalizer
        }
    } else {
        if has_fin {
            FinalizerPhase::Deleting
        } else {
            FinalizerPhase::Removed
        }
    }
}

pub fn phase_of(app: &Application) -> (p: FinalizerPhase)
    ensures
        p == spec_phase(app.spec_marked_for_deletion(), spec_has_finalizer(app)),
{
    let marked = app.marked_for_deletion();
    let has_fin = has_finalizer(app);
    if !marked {
        if has_fin {
            FinalizerPhase::FinalizerPresent
        } else {
            FinalizerPhase::NoFinalizer
        }
    } else {
        if has_fin {
            FinalizerPhase::Deleting
        } else {
            FinalizerPhase::Removed
        }
    }
}

/// The one lifecycle event owed for an observed object, if any.
#[derive(Debug, Clone, Copy, PartialEq, Eq, Structural)]
pub enum LifecycleEvent {
    /// Reconcile the object toward its spec.
    Apply,
    /// Release associated resources before deletion may proceed.
    Cleanup,
}

/// What the state machine does for one observed object: patch the finalizer
/// in first if needed, then run at most one lifecycle event.
#[derive(Debug, Clone, Copy, PartialEq, Eq, Structural)]
pub struct StepDecision {
    /// Add this controller's finalizer before handling the event.
    pub add_finalizer: bool,
    /// The one event to run, if any is owed.
    pub event: Option<LifecycleEvent>,
}

/// Decide the lifecycle step for an observed object: exactly one Apply
/// while the object is not being deleted (adding the finalizer first when it
/// is missing), Cleanup exactly when a deletion marker is set and the
/// finalizer is still present, and nothing once the finalizer is gone.
pub fn decide_step(app: &Application) -> (d: StepDecision)
    ensures
        !app.spec_marked_for_deletion() ==> d == (StepDecision {
            add_finalizer: !spec_has_finalizer(app),
            event: Some(LifecycleEvent::Apply),
        }),
        (d.event == Some(LifecycleEvent::Cleanup)) <==> (app.spec_marked_for_deletion()
            && spec_has_finalizer(app)),
        app.spec_marked_for_deletion() && spec_has_finalizer(app) ==> d == (StepDecision {
            add_finalizer: false,
            event: Some(LifecycleEvent::Cleanup),
        }),
        app.spec_marked_for_deletion() && !spec_has_finalizer(app) ==> d == (StepDecision {
            add_finalizer: false,
            event: None::<LifecycleEvent>,
        }),
{
    match phase_of(app) {
        FinalizerPhase::NoFinalizer => StepDecision {
            add_finalizer: true,
            event: Some(LifecycleEvent::Apply),
        },
        FinalizerPhase::FinalizerPresent => StepDecision {
            add_finalizer: false,
            event: Some(LifecycleEvent::Apply),
        },
        FinalizerPhase::Deleting => StepDecision {
            add_finalizer: false,
            event: Some(LifecycleEvent::Cleanup),
        },
        FinalizerPhase::Removed => StepDecision { add_finalizer: false, event: None },
    }
}

/// Decide the lifecycle step for an observed object and perform the owed
/// add-finalizer patch. This is the entry of the state machine: an object
/// without a deletion marker yields exactly one Apply event and carries the
/// finalizer afterwards; an object marked for deletion yields Cleanup
/// exactly while the finalizer is still present. Nothing else of the object
/// is touched.
pub fn prepare_event(app: &mut Application) -> (ev: Option<LifecycleEvent>)
    ensures
        !old(app).spec_marked_for_deletion() ==> ev == Some(LifecycleEvent::Apply)
            && spec_has_finalizer(final(app)),
        (ev == Some(LifecycleEvent::Cleanup)) <==> (old(app).spec_marked_for_deletion()
            && spec_has_finalizer(old(app))),
        old(app).spec_marked_for_deletion() && !spec_has_finalizer(old(app)) ==> ev is None,
        old(app).spec_marked_for_deletion() ==> *final(app) == *old(app),
        spec_has_finalizer(old(app)) ==> *final(app) == *old(app),
        final(app).namespace == old(app).namespace,
        final(app).name == old(app).name,
        final(app).spec == old(app).spec,
        final(app).status == old(app).status,
        final(app).deletion_timestamp == old(app).deletion_timestamp,
        final(app).resource_version == old(app).resource_version,
        !spec_has_finalizer(old(app)) && !old(app).spec_marked_for_deletion() ==> final(app)
            .finalizers@.drop_last() == old(app).finalizers@ && final(app).finalizers@.last()@
            == spec_finalizer(),
{
    let d = decide_step(app);
    if d.add_finalizer {
        add_finalizer(&mut app.finalizers);
    }
    d.event
}

/// Record a successful Cleanup: remove this controller's finalizer, so the
/// store may proceed with physical deletion. Idempotent, and finalizers of
/// other controllers survive in order.
pub fn complete_cleanup(app: &mut Application)
    ensures
        !spec_has_finalizer(final(app)),
        final(app).finalizers@.map_values(|s: String| s@) == old(app).finalizers@.map_values(
            |s: String| s@,
        ).filter((|s: Seq<char>| s != spec_finalizer())),
        final(app).namespace == old(app).namespace,
        final(app).name == old(app).name,
        final(app).spec == old(app).spec,
        final(app).status == old(app).status,
        final(app).deletion_timestamp == old(app).deletion_timestamp,
        final(app).resource_version == old(app).resource_version,
{
    remove_finalizer(&mut app.finalizers);
}

} // verus!
