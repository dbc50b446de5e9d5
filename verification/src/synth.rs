//! The wrapper synthesizer and the conversion suite generator: from an
//! accepted marker declaration to the full description of what is emitted —
//! the wrapper type definition, the by-value pair, and one inject/project
//! pair for each of the ten ownership forms.

use vstd::prelude::*;
use vstd::string::StringExecFns;

use crate::decl::{MarkerDecl, MarkerDeclView};
use crate::forms::{form_order, all_forms, FormKind, OwnershipForm};

verus! {

/// Name of the generic payload parameter of every synthesized wrapper.
pub open spec fn payload_param_name() -> Seq<char> {
    "__Deps__"@
}

/// Name of the wrapper's single payload slot.
pub open spec fn payload_field_name() -> Seq<char> {
    "deps"@
}

/// The structural capabilities derived on the wrapper for ergonomics; they
/// play no part in the layout contract.
pub open spec fn wrapper_derives() -> Seq<Seq<char>> {
    seq![
        "Debug"@,
        "PartialEq"@,
        "Eq"@,
        "PartialOrd"@,
        "Ord"@,
        "Hash"@,
        "Clone"@,
        "Copy"@,
    ]
}

/// The synthesized wrapper type definition: a generic type over one
/// unconstrained-size payload parameter, carrying exactly one slot of that
/// payload type, with a representation directive that makes its layout
/// byte-identical to the payload's.
pub struct WrapperDef {
    /// Visibility, preserved exactly from the marker declaration.
    pub vis: String,
    /// Name, preserved exactly from the marker declaration.
    pub name: String,
    /// Name of the generic payload parameter.
    pub payload_param: String,
    /// The payload parameter accepts types of statically unknown size.
    pub payload_maybe_unsized: bool,
    /// The layout-identity directive: the compiled representation of the
    /// wrapper is required, structurally, to equal the payload's.
    pub repr_transparent: bool,
    /// Name of the single payload slot; there is no other field.
    pub field_name: String,
    /// Derived capabilities, for ergonomics only.
    pub derives: Vec<String>,
}

/// What the synthesizer owes for a given declaration: name and visibility
/// kept, one payload slot, unsized payloads admitted, and the layout
/// directive in force.
pub open spec fn wrapper_def_ok(def: WrapperDef, decl: MarkerDeclView) -> bool {
    &&& def.vis@ == decl.vis
    &&& def.name@ == decl.name
    &&& def.payload_param@ == payload_param_name()
    &&& def.payload_maybe_unsized
    &&& def.repr_transparent
    &&& def.field_name@ == payload_field_name()
    &&& def.derives.deep_view() == wrapper_derives()
}

/// Synthesize the wrapper type definition for an accepted marker.
pub fn target_struct(item: &MarkerDecl) -> (r: WrapperDef)
    requires
        item.is_marker_shape(),
    ensures
        wrapper_def_ok(r, item@),
{
    let mut derives: Vec<String> = Vec::new();
    derives.push(String::from_str("Debug"));
    derives.push(String::from_str("PartialEq"));
    derives.push(String::from_str("Eq"));
    derives.push(String::from_str("PartialOrd"));
    derives.push(String::from_str("Ord"));
    derives.push(String::from_str("Hash"));
    derives.push(String::from_str("Clone"));
    derives.push(String::from_str("Copy"));
    proof {
        assert(derives.deep_view() =~= wrapper_derives());
    }
    WrapperDef {
        vis: item.vis.clone(),
        name: item.name.clone(),
        payload_param: String::from_str("__Deps__"),
        payload_maybe_unsized: true,
        repr_transparent: true,
        field_name: String::from_str("deps"),
        derives,
    }
}

/// The name of the inject operation for an ownership form.
pub open spec fn spec_inj_name(form: OwnershipForm) -> Seq<char> {
    if form.pinned {
        match form.kind {
            FormKind::PlainRef => "inj_pin_ref"@,
            FormKind::MutRef => "inj_pin_ref_mut"@,
            FormKind::OwnedHeap => "inj_pin_box"@,
            FormKind::SharedLocal => "inj_pin_rc"@,
            FormKind::SharedAtomic => "inj_pin_arc"@,
        }
    } else {
        match form.kind {
            FormKind::PlainRef => "inj_ref"@,
            FormKind::MutRef => "inj_ref_mut"@,
            FormKind::OwnedHeap => "inj_box"@,
            FormKind::SharedLocal => "inj_rc"@,
            FormKind::SharedAtomic => "inj_arc"@,
        }
    }
}

/// The name of the project operation for an ownership form.
pub open spec fn spec_prj_name(form: OwnershipForm) -> Seq<char> {
    if form.pinned {
        match form.kind {
            FormKind::PlainRef => "prj_pin_ref"@,
            FormKind::MutRef => "prj_pin_ref_mut"@,
            FormKind::OwnedHeap => "prj_pin_box"@,
            FormKind::SharedLocal => "prj_pin_rc"@,
            FormKind::SharedAtomic => "prj_pin_arc"@,
        }
    } else {
        match form.kind {
            FormKind::PlainRef => "prj_ref"@,
            FormKind::MutRef => "prj_ref_mut"@,
            FormKind::OwnedHeap => "prj_box"@,
            FormKind::SharedLocal => "prj_rc"@,
            FormKind::SharedAtomic => "prj_arc"@,
        }
    }
}

/// One emitted inject/project pair for one ownership form.
pub struct ConvPair {
    pub form: OwnershipForm,
    pub inj_name: String,
    pub prj_name: String,
}

/// A pair is right for its form when it carries the form and the two
/// operation names that belong to it.
pub open spec fn pair_ok(p: ConvPair, form: OwnershipForm) -> bool {
    &&& p.form == form
    &&& p.inj_name@ == spec_inj_name(form)
    &&& p.prj_name@ == spec_prj_name(form)
}

/// Build the inject/project pair for one ownership form.
pub fn pair_for(form: OwnershipForm) -> (r: ConvPair)
    ensures
        pair_ok(r, form),
{
    let (inj_name, prj_name): (String, String) = if form.pinned {
        match form.kind {
            FormKind::PlainRef => (
                String::from_str("inj_pin_ref"),
                String::from_str("prj_pin_ref"),
            ),
            FormKind::MutRef => (
                String::from_str("inj_pin_ref_mut"),
                String::from_str("prj_pin_ref_mut"),
            ),
            FormKind::OwnedHeap => (
                String::from_str("inj_pin_box"),
                String::from_str("prj_pin_box"),
            ),
            FormKind::SharedLocal => (
                String::from_str("inj_pin_rc"),
                String::from_str("prj_pin_rc"),
            ),
            FormKind::SharedAtomic => (
                String::from_str("inj_pin_arc"),
                String::from_str("prj_pin_arc"),
            ),
        }
    } else {
        match form.kind {
            FormKind::PlainRef => (String::from_str("inj_ref"), String::from_str("prj_ref")),
            FormKind::MutRef => (
                String::from_str("inj_ref_mut"),
                String::from_str("prj_ref_mut"),
            ),
            FormKind::OwnedHeap => (String::from_str("inj_box"), String::from_str("prj_box")),
            FormKind::SharedLocal => (String::from_str("inj_rc"), String::from_str("prj_rc")),
            FormKind::SharedAtomic => (String::from_str("inj_arc"), String::from_str("prj_arc")),
        }
    };
    ConvPair { form, inj_name, prj_name }
}

/// The conversion suite emitted for one wrapper: an inject/project pair for
/// each ownership form, over a payload parameter that may be unsized.
pub struct ConvSuite {
    /// Name of the wrapper type the suite is attached to.
    pub target_name: String,
    /// The suite's impl block admits unsized payloads.
    pub payload_maybe_unsized: bool,
    /// The pairs, one per ownership form, in emission order.
    pub pairs: Vec<ConvPair>,
}

/// What the suite generator owes: one pair per ownership form, in emission
/// order, each with its form's operation names, attached to the wrapper and
/// open to unsized payloads.
pub open spec fn suite_ok(suite: ConvSuite, name: Seq<char>) -> bool {
    &&& suite.target_name@ == name
    &&& suite.payload_maybe_unsized
    &&& suite.pairs@.len() == form_order().len()
    &&& forall|i: int|
        0 <= i < form_order().len() ==> pair_ok(#[trigger] suite.pairs@[i], form_order()[i])
}

/// Generate the conversion suite for a synthesized wrapper: ten pairs, one
/// per ownership form, in emission order.
pub fn target_impl_ref_casting(item: &WrapperDef) -> (r: ConvSuite)
    ensures
        suite_ok(r, item.name@),
{
    let forms = all_forms();
    let mut pairs: Vec<ConvPair> = Vec::new();
    let mut idx: usize = 0;
    while idx < forms.len()
        invariant
            forms@ == form_order(),
            idx <= forms@.len(),
            pairs@.len() == idx,
            forall|i: int| 0 <= i < idx ==> pair_ok(#[trigger] pairs@[i], form_order()[i]),
        decreases forms@.len() - idx,
    {
        let f = forms[idx];
        pairs.push(pair_for(f));
        idx = idx + 1;
    }
    ConvSuite { target_name: item.name.clone(), payload_maybe_unsized: true, pairs }
}

/// The by-value inject/project pair: the one form that moves the payload
/// itself, so it exists only for statically sized payloads.
pub struct ValuePair {
    /// Name of the wrapper type the pair is attached to.
    pub target_name: String,
    pub inj_name: String,
    pub prj_name: String,
    /// By-value conversion requires a statically sized payload.
    pub requires_sized: bool,
}

/// What the by-value generator owes.
pub open spec fn value_pair_ok(p: ValuePair, name: Seq<char>) -> bool {
    &&& p.target_name@ == name
    &&& p.inj_name@ == "inj"@
    &&& p.prj_name@ == "prj"@
    &&& p.requires_sized
}

/// Generate the by-value inject/project pair for a synthesized wrapper.
pub fn target_impl_new(item: &WrapperDef) -> (r: ValuePair)
    ensures
        value_pair_ok(r, item.name@),
{
    ValuePair {
        target_name: item.name.clone(),
        inj_name: String::from_str("inj"),
        prj_name: String::from_str("prj"),
        requires_sized: true,
    }
}

} // verus!
