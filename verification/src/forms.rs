//! The closed set of ownership forms the conversion suite covers, and an
//! abstract handle model of the generated inject/project operations.
//!
//! Every conversion the suite emits only changes the static type under which
//! an existing allocation is viewed. The `Handle` model makes that policy
//! checkable once, against the general case: a handle records the storage
//! address, the bit pattern, the reference count and the ownership form, and
//! the model operations may change nothing but the type tag.

use vstd::prelude::*;

verus! {

/// The four ownership families, with the exclusive reference family split by
/// mutability: five kinds, each available pinned or not, give the ten forms.
#[derive(Clone, Copy, Debug, PartialEq, Eq, Structural)]
pub enum FormKind {
    /// Exclusive immutable view of borrowed storage.
    PlainRef,
    /// Exclusive mutable view of borrowed storage.
    MutRef,
    /// Exclusively owned heap allocation.
    OwnedHeap,
    /// Shared allocation with a single-threaded (non-atomic) reference count.
    SharedLocal,
    /// Shared allocation with a thread-safe (atomic) reference count.
    SharedAtomic,
}

/// One of the ten concrete ownership forms: a kind, pinned or not.
#[derive(Clone, Copy, Debug, PartialEq, Eq, Structural)]
pub struct OwnershipForm {
    pub kind: FormKind,
    /// Address-stable: the holder promises the payload never relocates.
    pub pinned: bool,
}

impl OwnershipForm {
    /// Shared forms carry a reference count; their ownership is a share, not
    /// the whole allocation.
    pub open spec fn is_shared(self) -> bool {
        self.kind == FormKind::SharedLocal || self.kind == FormKind::SharedAtomic
    }

    /// Exclusive forms: views and owned heap storage.
    pub open spec fn is_exclusive(self) -> bool {
        !self.is_shared()
    }

    /// Forms through which the payload may be mutated.
    pub open spec fn is_mutable(self) -> bool {
        self.kind == FormKind::MutRef || self.kind == FormKind::OwnedHeap
    }

    /// Forms whose reference count is safe to mutate from several threads.
    pub open spec fn is_atomic(self) -> bool {
        self.kind == FormKind::SharedAtomic
    }

    /// Forms that promise a stable payload address.
    pub open spec fn is_address_stable(self) -> bool {
        self.pinned
    }
}

/// The order in which the suite emits its conversion pairs: the five
/// non-pinned forms, then the same five pinned.
pub open spec fn form_order() -> Seq<OwnershipForm> {
    seq![
        OwnershipForm { kind: FormKind::PlainRef, pinned: false },
        OwnershipForm { kind: FormKind::MutRef, pinned: false },
        OwnershipForm { kind: FormKind::OwnedHeap, pinned: false },
        OwnershipForm { kind: FormKind::SharedLocal, pinned: false },
        OwnershipForm { kind: FormKind::SharedAtomic, pinned: false },
        OwnershipForm { kind: FormKind::PlainRef, pinned: true },
        OwnershipForm { kind: FormKind::MutRef, pinned: true },
        OwnershipForm { kind: FormKind::OwnedHeap, pinned: true },
        OwnershipForm { kind: FormKind::SharedLocal, pinned: true },
        OwnershipForm { kind: FormKind::SharedAtomic, pinned: true },
    ]
}

/// The ten ownership forms, in emission order.
pub fn all_forms() -> (r: Vec<OwnershipForm>)
    ensures
        r@ == form_order(),
{
    let mut v: Vec<OwnershipForm> = Vec::new();
    v.push(OwnershipForm { kind: FormKind::PlainRef, pinned: false });
    v.push(OwnershipForm { kind: FormKind::MutRef, pinned: false });
    v.push(OwnershipForm { kind: FormKind::OwnedHeap, pinned: false });
    v.push(OwnershipForm { kind: FormKind::SharedLocal, pinned: false });
    v.push(OwnershipForm { kind: FormKind::SharedAtomic, pinned: false });
    v.push(OwnershipForm { kind: FormKind::PlainRef, pinned: true });
    v.push(OwnershipForm { kind: FormKind::MutRef, pinned: true });
    v.push(OwnershipForm { kind: FormKind::OwnedHeap, pinned: true });
    v.push(OwnershipForm { kind: FormKind::SharedLocal, pinned: true });
    v.push(OwnershipForm { kind: FormKind::SharedAtomic, pinned: true });
    proof {
        assert(v@ =~= form_order());
    }
    v
}

/// Law: the emission order is the whole closed set — it lists every
/// ownership form, each exactly once.
pub proof fn lemma_form_order_complete()
    ensures
        form_order().len() == 10,
        forall|f: OwnershipForm| #[trigger] form_order().contains(f),
        forall|i: int, j: int|
            0 <= i < j < form_order().len() ==> form_order()[i] != form_order()[j],
{
    assert forall|f: OwnershipForm| #[trigger] form_order().contains(f) by {
        let i: int = match f.kind {
            FormKind::PlainRef => 0,
            FormKind::MutRef => 1,
            FormKind::OwnedHeap => 2,
            FormKind::SharedLocal => 3,
            FormKind::SharedAtomic => 4,
        };
        if f.pinned {
            assert(form_order()[i + 5] == f);
        } else {
            assert(form_order()[i] == f);
        }
    }
}

/// Which of the two layout-identical types a handle is currently viewed as.
#[derive(Clone, Copy, Debug, PartialEq, Eq, Structural)]
pub enum TypedAs {
    /// The handle is typed as the payload itself.
    Payload,
    /// The handle is typed as the synthesized wrapper over the payload.
    Wrapper,
}

/// Abstract model of a value held under one ownership form: the storage it
/// occupies, the ownership bookkeeping, and the static type it is viewed as.
pub struct Handle {
    /// The ownership form the handle was created under.
    pub form: OwnershipForm,
    /// Address of the underlying payload storage.
    pub addr: usize,
    /// Reference count of the allocation (1 for exclusive forms).
    pub ref_count: usize,
    /// The bit pattern of the payload storage.
    pub bytes: Vec<u8>,
    /// The static type the storage is currently viewed as.
    pub typed_as: TypedAs,
}

/// Mathematical image of a `Handle`.
pub ghost struct HandleView {
    pub form: OwnershipForm,
    pub addr: nat,
    pub ref_count: nat,
    pub bytes: Seq<u8>,
    pub typed_as: TypedAs,
}

impl View for Handle {
    type V = HandleView;

    open spec fn view(&self) -> HandleView {
        HandleView {
            form: self.form,
            addr: self.addr as nat,
            ref_count: self.ref_count as nat,
            bytes: self.bytes@,
            typed_as: self.typed_as,
        }
    }
}

/// What inject does to a handle: retype the very same storage as the
/// wrapper. Nothing else may change.
pub open spec fn spec_inject(h: HandleView) -> HandleView {
    HandleView { typed_as: TypedAs::Wrapper, ..h }
}

/// What project does to a handle: retype the very same storage as the
/// payload. Nothing else may change.
pub open spec fn spec_project(h: HandleView) -> HandleView {
    HandleView { typed_as: TypedAs::Payload, ..h }
}

/// Inject: view a payload-typed handle as the wrapper, under the same
/// ownership form. No allocation, no copy, no reference-count traffic.
pub fn inject(h: Handle) -> (r: Handle)
    requires
        h.typed_as == TypedAs::Payload,
    ensures
        r@ == spec_inject(h@),
{
    Handle { typed_as: TypedAs::Wrapper, ..h }
}

/// Project: view a wrapper-typed handle as the payload, under the same
/// ownership form. No allocation, no copy, no reference-count traffic.
pub fn project(h: Handle) -> (r: Handle)
    requires
        h.typed_as == TypedAs::Wrapper,
    ensures
        r@ == spec_project(h@),
{
    Handle { typed_as: TypedAs::Payload, ..h }
}

/// Law: round-trip identity. Projecting an injected handle gives back the
/// original handle, and injecting a projected one likewise — same address,
/// same bits, same ownership form, same reference count.
pub proof fn lemma_round_trip_identity(h: HandleView)
    ensures
        h.typed_as == TypedAs::Payload ==> spec_project(spec_inject(h)) == h,
        h.typed_as == TypedAs::Wrapper ==> spec_inject(spec_project(h)) == h,
{
}

/// Law: no duplication of ownership. A cast in either direction leaves the
/// reference count of a shared handle exactly as it was.
pub proof fn lemma_no_ownership_duplication(h: HandleView)
    requires
        h.form.is_shared(),
    ensures
        spec_inject(h).ref_count == h.ref_count,
        spec_project(h).ref_count == h.ref_count,
{
}

/// Law: pinned address stability. For an address-stable form, the payload
/// sits at the same address before inject and after a later project, and the
/// intermediate handle never moved it either.
pub proof fn lemma_pinned_address_stability(h: HandleView)
    requires
        h.form.is_address_stable(),
    ensures
        spec_inject(h).addr == h.addr,
        spec_project(spec_inject(h)).addr == h.addr,
        spec_project(h).addr == h.addr,
        spec_inject(spec_project(h)).addr == h.addr,
{
}

/// Law: a cast never changes the ownership form, so it can neither upgrade
/// nor downgrade the thread-safety classification of a shared allocation,
/// and the bit pattern of the storage is untouched.
pub proof fn lemma_cast_preserves_discipline(h: HandleView)
    ensures
        spec_inject(h).form == h.form,
        spec_project(h).form == h.form,
        spec_inject(h).form.is_atomic() == h.form.is_atomic(),
        spec_project(h).form.is_atomic() == h.form.is_atomic(),
        spec_inject(h).bytes == h.bytes,
        spec_project(h).bytes == h.bytes,
{
}

} // verus!
