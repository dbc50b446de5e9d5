//! The input side of synthesis: a candidate marker declaration, as handed
//! over by the host front end, reduced to the parts the transformation reads.

use vstd::prelude::*;

verus! {

/// One field of a candidate declaration. The validator only counts fields,
/// but the original text of each is kept so a rejected declaration can be
/// re-emitted untouched.
pub struct Field {
    /// Field name; empty for a positional (tuple) field.
    pub name: String,
    /// Rendered type of the field.
    pub ty: String,
}

/// Mathematical image of a `Field`.
pub ghost struct FieldView {
    pub name: Seq<char>,
    pub ty: Seq<char>,
}

impl View for Field {
    type V = FieldView;

    open spec fn view(&self) -> FieldView {
        FieldView { name: self.name@, ty: self.ty@ }
    }
}

/// A marker-type declaration: a visibility qualifier, a name, and whatever
/// fields the user wrote. Only a declaration with zero fields is a valid
/// marker.
pub struct MarkerDecl {
    /// Visibility qualifier exactly as written (empty for inherited).
    pub vis: String,
    /// The declared type name.
    pub name: String,
    /// The declared fields; a valid marker has none.
    pub fields: Vec<Field>,
}

/// Mathematical image of a `MarkerDecl`.
pub ghost struct MarkerDeclView {
    pub vis: Seq<char>,
    pub name: Seq<char>,
    pub fields: Seq<FieldView>,
}

impl View for MarkerDecl {
    type V = MarkerDeclView;

    open spec fn view(&self) -> MarkerDeclView {
        MarkerDeclView {
            vis: self.vis@,
            name: self.name@,
            fields: self.fields@.map_values(|f: Field| f@),
        }
    }
}

impl MarkerDecl {
    /// The structural precondition of synthesis: the declaration carries no
    /// fields at all.
    pub open spec fn is_marker_shape(self) -> bool {
        self@.fields.len() == 0
    }

    /// Number of declared fields.
    pub fn field_count(&self) -> (n: usize)
        ensures
            n == self@.fields.len(),
    {
        self.fields.len()
    }
}

} // verus!
