//! Dependency injection by type projection, as a verified synthesis core.
//!
//! Given a marker-type declaration with no fields, the library synthesizes a
//! description of a generic wrapper type that shares the memory layout of any
//! payload type, together with a closed suite of inject/project conversion
//! pairs over ten ownership forms. A declaration with fields is rejected with
//! a single diagnostic and handed back unchanged.

pub mod decl;
pub mod forms;
pub mod synth;
pub mod validate;
pub mod wrapper;

use vstd::prelude::*;

use crate::decl::MarkerDecl;
use crate::synth::{
    suite_ok, target_impl_new, target_impl_ref_casting, target_struct, value_pair_ok,
    wrapper_def_ok, ConvSuite, ValuePair, WrapperDef,
};
use crate::validate::{check_target, no_fields_message, Diagnostic};

verus! {

/// Everything one invocation emits: on an accepted marker, the wrapper type
/// definition, the by-value pair and the ownership-form conversion suite; on
/// a rejected one, the untouched original declaration plus one diagnostic,
/// so the rest of the compilation unit keeps compiling.
pub enum Emission {
    Generated { wrapper: WrapperDef, value_pair: ValuePair, suite: ConvSuite },
    Rejected { original: MarkerDecl, diagnostic: Diagnostic },
}

/// Transform one marker declaration. A declaration with zero fields yields
/// the full output — wrapper definition, by-value pair, and one pair per
/// ownership form; any other shape yields the original declaration unchanged
/// beside the single `InvalidTargetShape` diagnostic.
pub fn dep_inj_target(item: MarkerDecl) -> (r: Emission)
    ensures
        item.is_marker_shape() ==> (r matches Emission::Generated {
            wrapper,
            value_pair,
            suite,
        } && wrapper_def_ok(wrapper, item@) && value_pair_ok(value_pair, item@.name) && suite_ok(
            suite,
            item@.name,
        )),
        !item.is_marker_shape() ==> (r matches Emission::Rejected { original, diagnostic }
            && original@ == item@ && diagnostic.message@ == no_fields_message()),
{
    match check_target(&item) {
        Err(diagnostic) => Emission::Rejected { original: item, diagnostic },
        Ok(()) => {
            let wrapper = target_struct(&item);
            let suite = target_impl_ref_casting(&wrapper);
            let value_pair = target_impl_new(&wrapper);
            Emission::Generated { wrapper, value_pair, suite }
        },
    }
}

} // verus!
