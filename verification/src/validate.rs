//! The declaration validator: a marker declaration is accepted exactly when
//! it has zero fields; anything else earns the single diagnostic.

use vstd::prelude::*;
use vstd::string::StringExecFns;

use crate::decl::MarkerDecl;

verus! {

/// The one diagnostic message the system can produce.
pub open spec fn no_fields_message() -> Seq<char> {
    "expected a declaration with no fields"@
}

/// A diagnostic attached to a rejected declaration. There is exactly one
/// error kind, so the message is always `no_fields_message`.
pub struct Diagnostic {
    pub message: String,
}

impl Diagnostic {
    /// The diagnostic for a declaration that is not a valid marker shape.
    pub fn invalid_target_shape() -> (d: Diagnostic)
        ensures
            d.message@ == no_fields_message(),
    {
        Diagnostic { message: String::from_str("expected a declaration with no fields") }
    }
}

/// Accepts a declaration exactly when it carries no fields; otherwise hands
/// back the single `InvalidTargetShape` diagnostic.
pub fn check_target(item: &MarkerDecl) -> (r: Result<(), Diagnostic>)
    ensures
        r is Ok <==> item.is_marker_shape(),
        r matches Err(d) ==> d.message@ == no_fields_message(),
{
    if item.field_count() == 0 {
        Ok(())
    } else {
        Err(Diagnostic::invalid_target_shape())
    }
}

} // verus!
