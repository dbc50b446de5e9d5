//! The live wrapper type: by-value round trip and layout equivalence, plus
//! the abstract handle model of the ownership-form conversions.

use std::mem::{align_of, size_of};

use dep_inj_target::forms::{inject, project, FormKind, Handle, OwnershipForm, TypedAs};
use dep_inj_target::wrapper::Wrapper;

#[derive(Debug, PartialEq, Clone, Copy)]
struct Config {
    retries: i64,
    timeout_ms: i64,
}

// A payload whose layout has non-trivial padding.
#[derive(Debug, PartialEq, Clone, Copy)]
struct Mixed {
    a: u8,
    b: u64,
    c: u16,
}

#[test]
fn value_round_trip() {
    let cfg = Config {
        retries: 3,
        timeout_ms: 500,
    };
    assert_eq!(Wrapper::inj(cfg).prj(), cfg);
}

#[test]
fn inject_then_project_ref() {
    let cfg = Config {
        retries: 7,
        timeout_ms: 250,
    };
    let w = Wrapper::inj(cfg);
    assert_eq!(*w.prj_ref(), cfg);
    assert_eq!(w.prj(), cfg);
}

#[test]
fn project_of_injected_wrapper_is_input() {
    let w = Wrapper::inj(41u64);
    let back = Wrapper::inj(w.prj());
    assert_eq!(back, w);
}

#[test]
fn layout_equivalence() {
    assert_eq!(size_of::<Wrapper<Config>>(), size_of::<Config>());
    assert_eq!(align_of::<Wrapper<Config>>(), align_of::<Config>());
    assert_eq!(size_of::<Wrapper<Mixed>>(), size_of::<Mixed>());
    assert_eq!(align_of::<Wrapper<Mixed>>(), align_of::<Mixed>());
    assert_eq!(size_of::<Wrapper<u8>>(), size_of::<u8>());
    assert_eq!(align_of::<Wrapper<u8>>(), align_of::<u8>());
    assert_eq!(size_of::<Wrapper<()>>(), size_of::<()>());
    // Nested wrapping keeps the same layout too.
    assert_eq!(size_of::<Wrapper<Wrapper<Mixed>>>(), size_of::<Mixed>());
}

#[test]
fn app_context_config_scenario() {
    // Marker `AppContext` with zero fields synthesizes; the wrapper over
    // `Config` shares its size; inject-then-project returns the payload.
    let decl = dep_inj_target::decl::MarkerDecl {
        vis: String::from("pub"),
        name: String::from("AppContext"),
        fields: Vec::new(),
    };
    match dep_inj_target::dep_inj_target(decl) {
        dep_inj_target::Emission::Generated { wrapper, .. } => {
            assert_eq!(wrapper.name, "AppContext");
            assert_eq!(wrapper.field_name, "deps");
        }
        dep_inj_target::Emission::Rejected { .. } => panic!("AppContext must be accepted"),
    }
    assert_eq!(size_of::<Wrapper<Config>>(), size_of::<Config>());
    let cfg = Config {
        retries: 3,
        timeout_ms: 500,
    };
    assert_eq!(
        Wrapper::inj(cfg).prj(),
        Config {
            retries: 3,
            timeout_ms: 500,
        }
    );
}

fn sample_handle(kind: FormKind, pinned: bool) -> Handle {
    Handle {
        form: OwnershipForm { kind, pinned },
        addr: 0x1000,
        ref_count: 3,
        bytes: vec![0xde, 0xad, 0xbe, 0xef],
        typed_as: TypedAs::Payload,
    }
}

#[test]
fn handle_round_trip_identity() {
    let kinds = [
        FormKind::PlainRef,
        FormKind::MutRef,
        FormKind::OwnedHeap,
        FormKind::SharedLocal,
        FormKind::SharedAtomic,
    ];
    for kind in kinds {
        for pinned in [false, true] {
            let h = sample_handle(kind, pinned);
            let w = inject(h);
            assert_eq!(w.typed_as, TypedAs::Wrapper);
            let back = project(w);
            assert_eq!(back.typed_as, TypedAs::Payload);
            assert_eq!(back.form, OwnershipForm { kind, pinned });
            assert_eq!(back.addr, 0x1000);
            assert_eq!(back.ref_count, 3);
            assert_eq!(back.bytes, vec![0xde, 0xad, 0xbe, 0xef]);
        }
    }
}

#[test]
fn shared_cast_keeps_reference_count() {
    for kind in [FormKind::SharedLocal, FormKind::SharedAtomic] {
        let h = sample_handle(kind, false);
        let w = inject(h);
        assert_eq!(w.ref_count, 3);
        let p = project(w);
        assert_eq!(p.ref_count, 3);
    }
}

#[test]
fn pinned_cast_keeps_address() {
    let kinds = [
        FormKind::PlainRef,
        FormKind::MutRef,
        FormKind::OwnedHeap,
        FormKind::SharedLocal,
        FormKind::SharedAtomic,
    ];
    for kind in kinds {
        let h = sample_handle(kind, true);
        let w = inject(h);
        assert_eq!(w.addr, 0x1000);
        let p = project(w);
        assert_eq!(p.addr, 0x1000);
    }
}

#[test]
fn cast_keeps_thread_safety_classification() {
    let local = inject(sample_handle(FormKind::SharedLocal, false));
    assert_eq!(local.form.kind, FormKind::SharedLocal);
    let atomic = inject(sample_handle(FormKind::SharedAtomic, false));
    assert_eq!(atomic.form.kind, FormKind::SharedAtomic);
}
