//! The controller loop driver's scheduling state.
//!
//! The driver invokes the pipeline at most once concurrently per object
//! identity. The scheduler here is that discipline: an identity can be
//! admitted only while it is not already in flight, so two notifications
//! for the same object can never yield two simultaneous reconciles.

use vstd::prelude::*;

verus! {

/// An object identity: namespace and name.
#[derive(Debug, Clone)]
pub struct Identity {
    pub namespace: String,
    pub name: String,
}

/// The mathematical value of an [`Identity`].
pub struct IdentityView {
    pub namespace: Seq<char>,
    pub name: Seq<char>,
}

impl View for Identity {
    type V = IdentityView;

    open spec fn view(&self) -> IdentityView {
        IdentityView { namespace: self.namespace@, name: self.name@ }
    }
}

impl Identity {
    pub fn same_as(&self, other: &Identity) -> (r: bool)
        ensures
            r == (self@ == other@),
    {
        let eq = self.namespace.eq(&other.namespace) && self.name.eq(&other.name);
        if eq {
            assert(self@.namespace == other@.namespace && self@.name == other@.name);
            assert(self@ == other@);
        }
        eq
    }

    /// A copy with the same identity value.
    pub fn duplicate(&self) -> (r: Identity)
        ensures
            r@ == self@,
    {
        Identity { namespace: self.namespace.clone(), name: self.name.clone() }
    }
}

/// Whether a reconcile for `id` is among the in-flight identities `s`.
pub open spec fn spec_in_flight(s: Seq<IdentityView>, id: IdentityView) -> bool {
    exists|i: int| 0 <= i < s.len() && s[i] == id
}

/// No identity is in flight twice.
pub open spec fn unique_ids(s: Seq<IdentityView>) -> bool {
    forall|i: int, j: int| 0 <= i < j < s.len() ==> s[i] != s[j]
}

/// What admission does: an identity already in flight is turned away and
/// nothing changes; otherwise it is admitted and recorded as in flight.
pub open spec fn spec_admit(s: Seq<IdentityView>, id: IdentityView) -> (Seq<IdentityView>, bool) {
    if spec_in_flight(s, id) {
        (s, false)
    } else {
        (s.push(id), true)
    }
}

/// The driver's admission discipline: at most one reconcile runs per
/// object identity at any time, while distinct identities run concurrently.
#[derive(Debug)]
pub struct Scheduler {
    pub inflight: Vec<Identity>,
}

impl View for Scheduler {
    type V = Seq<IdentityView>;

    open spec fn view(&self) -> Seq<IdentityView> {
        self.inflight@.map_values(|x: Identity| x@)
    }
}

impl Scheduler {
    /// The scheduler is well formed when no identity is in flight twice.
    pub open spec fn wf(&self) -> bool {
        unique_ids(self@)
    }

    pub fn new() -> (s: Scheduler)
        ensures
            s@ =~= Seq::<IdentityView>::empty(),
            s.wf(),
    {
        let s = Scheduler { inflight: Vec::new() };
        proof {
            assert(s@ =~= Seq::<IdentityView>::empty());
        }
        s
    }

    fn find(&self, id: &Identity) -> (r: Option<usize>)
        ensures
            match r {
                Some(i) => i < self@.len() && self@[i as int] == id@,
                None => !spec_in_flight(self@, id@),
            },
    {
        let mut i: usize = 0;
        while i < self.inflight.len()
            invariant
                i <= self.inflight.len(),
                forall|j: int| 0 <= j < i ==> self@[j] != id@,
            decreases self.inflight.len() - i,
        {
            if self.inflight[i].same_as(id) {
                return Some(i);
            }
            i = i + 1;
        }
        None
    }

    /// Whether a reconcile for `id` is currently in flight.
    pub fn in_flight(&self, id: &Identity) -> (r: bool)
        ensures
            r == spec_in_flight(self@, id@),
    {
        self.find(id).is_some()
    }

    /// Ask to start a reconcile for `id`: admitted only while none is in
    /// flight for the same identity, so concurrently delivered notifications
    /// for one object serialize.
    pub fn try_begin(&mut self, id: &Identity) -> (started: bool)
        requires
            old(self).wf(),
        ensures
            final(self).wf(),
            (final(self)@, started) == spec_admit(old(self)@, id@),
            started <==> !spec_in_flight(old(self)@, id@),
            spec_in_flight(final(self)@, id@),
    {
        match self.find(id) {
            Some(_) => false,
            None => {
                self.inflight.push(id.duplicate());
                proof {
                    assert(self@ =~= old(self)@.push(id@));
                    assert(self@[old(self)@.len() as int] == id@);
                }
                true
            },
        }
    }

    /// Record that the reconcile for `id` finished, releasing the identity
    /// for the next notification or timer.
    pub fn finish(&mut self, id: &Identity)
        requires
            old(self).wf(),
        ensures
            final(self).wf(),
            !spec_in_flight(final(self)@, id@),
            spec_in_flight(old(self)@, id@) ==> exists|i: int|
                0 <= i < old(self)@.len() && old(self)@[i] == id@ && final(self)@ == old(
                    self,
                )@.remove(i),
            !spec_in_flight(old(self)@, id@) ==> final(self)@ == old(self)@,
    {
        match self.find(id) {
            Some(i) => {
                let _ = self.inflight.remove(i);
                proof {
                    let s = old(self)@;
                    assert(self@ =~= s.remove(i as int));
                    s.remove_ensures(i as int);
                    assert forall|k: int| 0 <= k < self@.len() implies self@[k] != id@ by {
                        if k < i {
                            assert(self@[k] == s[k]);
                        } else {
                            assert(self@[k] == s[k + 1]);
                        }
                    }
                    assert(unique_ids(self@));
                }
            },
            None => {},
        }
    }
}

/// Law: two concurrently delivered notifications for one identity never
/// yield two simultaneously in-flight reconciles: once one admission
/// succeeded, every further admission for that identity is turned away and
/// leaves the in-flight set unchanged until the first reconcile finishes,
/// and the identity is never in flight twice.
pub proof fn lemma_serialized_per_identity(s: Seq<IdentityView>, id: IdentityView)
    requires
        unique_ids(s),
    ensures
        ({
            let (s1, started1) = spec_admit(s, id);
            let (s2, started2) = spec_admit(s1, id);
            &&& spec_in_flight(s1, id)
            &&& s2 == s1
            &&& !started2
            &&& unique_ids(s1)
            &&& forall|i: int, j: int|
                (0 <= i < s1.len() && 0 <= j < s1.len() && s1[i] == id && s1[j] == id) ==> i == j
        }),
{
    let (s1, started1) = spec_admit(s, id);
    if !spec_in_flight(s, id) {
        assert(s1 == s.push(id));
        assert(s1[s.len() as int] == id);
        assert(unique_ids(s1));
    }
    assert(spec_in_flight(s1, id));
}

} // verus!
