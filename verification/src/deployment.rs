//! The managed workload: descriptor construction and an idempotent store model.
//!
//! A workload descriptor is built from an application spec by a typed
//! builder that rejects malformed input up front, instead of failing later
//! when the resource is serialized for submission. The store model pins the
//! idempotent create/delete semantics the controller relies on: creating an
//! existing workload and deleting an absent one are both successes.

use vstd::prelude::*;

verus! {

/// Outcome of submitting a workload descriptor.
#[derive(Debug, Clone, Copy, PartialEq, Eq, Structural)]
pub enum ApplicationDeploymentState {
    Deployed,
    Failed,
}

/// The descriptor of the backing deployment resource: a fixed two-replica
/// workload running one container with the spec's image, labelled and
/// selected by a constant app label.
#[derive(Debug, Clone)]
pub struct WorkloadDescriptor {
    pub name: String,
    pub replicas: u32,
    pub app_label: String,
    pub container_name: String,
    pub image: String,
}

/// The mathematical value of a [`WorkloadDescriptor`].
pub struct WorkloadDescriptorView {
    pub name: Seq<char>,
    pub replicas: int,
    pub app_label: Seq<char>,
    pub container_name: Seq<char>,
    pub image: Seq<char>,
}

impl View for WorkloadDescriptor {
    type V = WorkloadDescriptorView;

    open spec fn view(&self) -> WorkloadDescriptorView {
        WorkloadDescriptorView {
            name: self.name@,
            replicas: self.replicas as int,
            app_label: self.app_label@,
            container_name: self.container_name@,
            image: self.image@,
        }
    }
}

/// The replica count every managed workload is created with.
pub const WORKLOAD_REPLICAS: u32 = 2;

/// The value of the constant `app` label and selector.
pub open spec fn spec_app_label() -> Seq<char> {
    "nginx"@
}

/// The length bound a workload name must meet: non-empty and at most the
/// 63 characters a DNS label allows. Character-set checks are left to the
/// store's own admission.
pub open spec fn valid_name(name: Seq<char>) -> bool {
    0 < name.len() <= 63
}

/// A spec can be turned into a descriptor iff its workload name is a valid
/// DNS label and it names a container image.
pub open spec fn valid_spec(name: Seq<char>, image: Seq<char>) -> bool {
    valid_name(name) && image.len() > 0
}

/// The descriptor a valid spec builds to.
pub open spec fn spec_build_workload(name: Seq<char>, image: Seq<char>) -> WorkloadDescriptorView {
    WorkloadDescriptorView {
        name: name,
        replicas: WORKLOAD_REPLICAS as int,
        app_label: spec_app_label(),
        container_name: name,
        image: image,
    }
}

/// Build the workload descriptor for a spec, rejecting malformed input at
/// build time rather than at submission time.
pub fn build_workload(name: &String, image: &String) -> (r: Result<
    WorkloadDescriptor,
    crate::Error,
>)
    ensures
        r is Ok <==> valid_spec(name@, image@),
        r matches Ok(d) ==> d@ == spec_build_workload(name@, image@),
        r matches Err(e) ==> e is SerializationError,
{
    let len = name.as_str().unicode_len();
    if len == 0 || len > 63 {
        return Err(crate::Error::SerializationError(
            "workload name must be a non-empty DNS label".to_owned(),
        ));
    }
    if image.as_str().unicode_len() == 0 {
        return Err(crate::Error::SerializationError(
            "workload image must be non-empty".to_owned(),
        ));
    }
    Ok(WorkloadDescriptor {
        name: name.clone(),
        replicas: WORKLOAD_REPLICAS,
        app_label: "nginx".to_owned(),
        container_name: name.clone(),
        image: image.clone(),
    })
}

/// A side effect the reconciler asks the workload manager to perform.
#[derive(Debug, Clone)]
pub enum WorkloadAction {
    Create(WorkloadDescriptor),
    Delete(String),
}

/// Outcome of an idempotent create: both variants are successes.
#[derive(Debug, Clone, Copy, PartialEq, Eq, Structural)]
pub enum CreateOutcome {
    Created,
    AlreadyExists,
}

/// Outcome of an idempotent delete: both variants are successes.
#[derive(Debug, Clone, Copy, PartialEq, Eq, Structural)]
pub enum DeleteOutcome {
    Deleted,
    NotFound,
}

/// Whether some workload in `ws` is named `name`.
pub open spec fn contains_name(ws: Seq<WorkloadDescriptorView>, name: Seq<char>) -> bool {
    exists|i: int| 0 <= i < ws.len() && ws[i].name == name
}

/// Workload names identify workloads: no two entries share a name.
pub open spec fn unique_names(ws: Seq<WorkloadDescriptorView>) -> bool {
    forall|i: int, j: int| 0 <= i < j < ws.len() ==> ws[i].name != ws[j].name
}

/// What an idempotent create does: an existing workload of the same name is
/// left as it is and reported as existing; otherwise the descriptor is added.
pub open spec fn spec_create(ws: Seq<WorkloadDescriptorView>, d: WorkloadDescriptorView) -> (
    Seq<WorkloadDescriptorView>,
    CreateOutcome,
) {
    if contains_name(ws, d.name) {
        (ws, CreateOutcome::AlreadyExists)
    } else {
        (ws.push(d), CreateOutcome::Created)
    }
}

/// What an idempotent delete does: absence is a success that changes nothing.
pub open spec fn spec_delete(ws: Seq<WorkloadDescriptorView>, name: Seq<char>) -> (
    Seq<WorkloadDescriptorView>,
    DeleteOutcome,
) {
    if contains_name(ws, name) {
        let i = choose|i: int| 0 <= i < ws.len() && ws[i].name == name;
        (ws.remove(i), DeleteOutcome::Deleted)
    } else {
        (ws, DeleteOutcome::NotFound)
    }
}

/// The set of live managed workloads, as the store observes it. Descriptors
/// are keyed by their workload name; the name is unique among live entries.
#[derive(Debug)]
pub struct WorkloadStore {
    pub workloads: Vec<WorkloadDescriptor>,
}

impl View for WorkloadStore {
    type V = Seq<WorkloadDescriptorView>;

    open spec fn view(&self) -> Seq<WorkloadDescriptorView> {
        self.workloads@.map_values(|d: WorkloadDescriptor| d@)
    }
}

impl WorkloadStore {
    /// The store is well formed when no two live workloads share a name.
    pub open spec fn wf(&self) -> bool {
        unique_names(self@)
    }

    pub fn new() -> (s: WorkloadStore)
        ensures
            s@ =~= Seq::<WorkloadDescriptorView>::empty(),
            s.wf(),
    {
        let s = WorkloadStore { workloads: Vec::new() };
        proof {
            assert(s@ =~= Seq::<WorkloadDescriptorView>::empty());
        }
        s
    }

    /// The index of the workload named `name`, if one is live.
    fn find(&self, name: &String) -> (r: Option<usize>)
        ensures
            match r {
                Some(i) => i < self@.len() && self@[i as int].name == name@,
                None => !contains_name(self@, name@),
            },
    {
        let mut i: usize = 0;
        while i < self.workloads.len()
            invariant
                i <= self.workloads.len(),
                forall|j: int| 0 <= j < i ==> self@[j].name != name@,
            decreases self.workloads.len() - i,
        {
            if self.workloads[i].name.eq(name) {
                return Some(i);
            }
            i = i + 1;
        }
        None
    }

    /// Submit a workload: repeated identical submissions converge on one
    /// live workload, and an already-existing one is a success, not an error.
    pub fn create(&mut self, d: WorkloadDescriptor) -> (r: CreateOutcome)
        requires
            old(self).wf(),
        ensures
            (final(self)@, r) == spec_create(old(self)@, d@),
            final(self).wf(),
            contains_name(final(self)@, d@.name),
    {
        match self.find(&d.name) {
            Some(_) => CreateOutcome::AlreadyExists,
            None => {
                self.workloads.push(d);
                proof {
                    assert(self@ =~= old(self)@.push(d@));
                    assert(self@[old(self)@.len() as int].name == d@.name);
                }
                CreateOutcome::Created
            },
        }
    }

    /// Remove the workload named `name`: absence is a no-op success.
    pub fn delete(&mut self, name: &String) -> (r: DeleteOutcome)
        requires
            old(self).wf(),
        ensures
            final(self).wf(),
            !contains_name(final(self)@, name@),
            contains_name(old(self)@, name@) ==> r == DeleteOutcome::Deleted
                && (exists|i: int|
                0 <= i < old(self)@.len() && old(self)@[i].name == name@ && final(self)@ == old(
                    self,
                )@.remove(i)),
            !contains_name(old(self)@, name@) ==> r == DeleteOutcome::NotFound && final(self)@
                == old(self)@,
    {
        match self.find(name) {
            Some(i) => {
                let _ = self.workloads.remove(i);
                proof {
                    let ws = old(self)@;
                    assert(self@ =~= ws.remove(i as int));
                    ws.remove_ensures(i as int);
                    assert forall|k: int| 0 <= k < self@.len() implies self@[k].name != name@ by {
                        if k < i {
                            assert(self@[k] == ws[k]);
                        } else {
                            assert(self@[k] == ws[k + 1]);
                        }
                    }
                    assert(unique_names(self@));
                }
                DeleteOutcome::Deleted
            },
            None => DeleteOutcome::NotFound,
        }
    }

    /// The live workload named `name`, if any: the returned descriptor is
    /// one of the stored entries, unchanged.
    pub fn get(&self, name: &String) -> (r: Option<&WorkloadDescriptor>)
        ensures
            match r {
                Some(d) => contains_name(self@, name@) && d@.name == name@ && exists|i: int|
                    0 <= i < self@.len() && self@[i] == d@,
                None => !contains_name(self@, name@),
            },
    {
        match self.find(name) {
            Some(i) => {
                let d = &self.workloads[i];
                proof {
                    assert(self@[i as int] == d@);
                }
                Some(d)
            },
            None => None,
        }
    }

    /// How many workloads are live.
    pub fn len(&self) -> (r: usize)
        ensures
            r == self@.len(),
    {
        self.workloads.len()
    }
}

/// Law: for any store and any descriptor, submitting the same descriptor
/// twice leaves exactly one live workload under its name, and the second
/// submission is a success that changes nothing.
pub proof fn lemma_create_idempotent(ws: Seq<WorkloadDescriptorView>, d: WorkloadDescriptorView)
    requires
        unique_names(ws),
    ensures
        ({
            let (ws1, r1) = spec_create(ws, d);
            let (ws2, r2) = spec_create(ws1, d);
            &&& ws2 == ws1
            &&& r2 == CreateOutcome::AlreadyExists
            &&& unique_names(ws2)
            &&& exists|i: int| 0 <= i < ws2.len() && ws2[i].name == d.name
            &&& forall|i: int, j: int|
                (0 <= i < ws2.len() && 0 <= j < ws2.len() && ws2[i].name == d.name && ws2[j].name
                    == d.name) ==> i == j
        }),
{
    let (ws1, r1) = spec_create(ws, d);
    if !contains_name(ws, d.name) {
        assert(ws1 == ws.push(d));
        assert(ws1[ws.len() as int].name == d.name);
        assert(unique_names(ws1));
    }
    assert(contains_name(ws1, d.name));
}

/// Law: deleting a workload that is not live is a no-op success.
pub proof fn lemma_delete_absent_noop(ws: Seq<WorkloadDescriptorView>, name: Seq<char>)
    requires
        !contains_name(ws, name),
    ensures
        spec_delete(ws, name) == (ws, DeleteOutcome::NotFound),
{
}

} // verus!
