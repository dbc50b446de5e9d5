//! The synthesized wrapper as a live generic type: a distinct name over one
//! payload slot, with the by-value inject/project pair. The by-value pair is
//! the one form that needs no ownership wrapper — it moves the payload in and
//! out, so it requires a statically sized payload.

use vstd::prelude::*;

verus! {

/// A compile-time distinct name over a single payload value. The type adds
/// no storage of its own: its one field is the payload, so the wrapper is
/// purely a new name for the same bits.
#[derive(Debug, PartialEq, Eq, PartialOrd, Ord, Hash, Clone, Copy)]
pub struct Wrapper<D> {
    deps: D,
}

impl<D> View for Wrapper<D> {
    type V = D;

    /// A wrapper is, mathematically, nothing but its payload.
    closed spec fn view(&self) -> D {
        self.deps
    }
}

impl<D> Wrapper<D> {
    /// Spec-level by-value inject: the wrapper whose payload is `deps`.
    pub closed spec fn spec_inj(deps: D) -> Wrapper<D> {
        Wrapper { deps }
    }

    /// Spec-level by-value project: the payload the wrapper holds.
    pub closed spec fn spec_prj(self) -> D {
        self.deps
    }

    /// Inject by value: move the payload into the wrapper name.
    pub fn inj(deps: D) -> (r: Self)
        ensures
            r@ == deps,
            r == Self::spec_inj(deps),
    {
        Wrapper { deps }
    }

    /// Project by value: move the payload back out.
    pub fn prj(self) -> (r: D)
        ensures
            r == self@,
            r == self.spec_prj(),
    {
        self.deps
    }

    /// Project by shared reference: view the wrapper's storage as the
    /// payload, without moving it.
    pub fn prj_ref(&self) -> (r: &D)
        ensures
            *r == self@,
    {
        &self.deps
    }
}

/// Law: by-value round-trip identity. Projecting an injected payload gives
/// the payload back, and injecting a projected wrapper gives the wrapper
/// back, for every payload type and value.
pub proof fn lemma_value_round_trip<D>(deps: D, w: Wrapper<D>)
    ensures
        Wrapper::spec_inj(deps).spec_prj() == deps,
        Wrapper::spec_inj(w.spec_prj()) == w,
        Wrapper::spec_inj(deps)@ == deps,
{
}

} // verus!
