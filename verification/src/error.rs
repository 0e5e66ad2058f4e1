//! The two ways in which a derivation fails, with the place that each
//! diagnostic is anchored at and the text it carries.

use vstd::prelude::*;

verus! {

/// The diagnostic for an annotation keyed `builder` that is not of the one
/// accepted form.
pub open spec fn annotation_shape_message() -> Seq<char> {
    "expected `builder(each = \"...\")`"@
}

/// The diagnostic for an input that is not a struct with named fields.
pub open spec fn structural_message() -> Seq<char> {
    "Builder macro for Struct only"@
}

/// An annotation of one field is keyed `builder` and is not
/// `builder(each = "...")`, or is the second one keyed `builder`.
#[derive(Debug, Clone, Copy, PartialEq, Eq, Structural)]
pub struct AnnotationShapeError {
    /// The position of the annotation among those of its field: the
    /// diagnostic is anchored there.
    pub annotation: usize,
}

impl AnnotationShapeError {
    /// The text of the diagnostic.
    pub fn message(&self) -> (text: String)
        ensures
            text@ == annotation_shape_message(),
    {
        String::from_str("expected `builder(each = \"...\")`")
    }
}

/// Why no builder was derived. Nothing is generated beside an error.
#[derive(Debug, Clone, Copy, PartialEq, Eq, Structural)]
pub enum DeriveError {
    /// The input is not a struct with named fields. The diagnostic is
    /// anchored at the whole type.
    Structure,
    /// The annotation at position `annotation` of the field at position
    /// `field` is at fault. The diagnostic is anchored at that annotation.
    AnnotationShape { field: usize, annotation: usize },
}

impl DeriveError {
    pub open spec fn message_spec(self) -> Seq<char> {
        match self {
            DeriveError::Structure => structural_message(),
            DeriveError::AnnotationShape { .. } => annotation_shape_message(),
        }
    }

    /// The text of the diagnostic.
    pub fn message(&self) -> (text: String)
        ensures
            text@ == self.message_spec(),
    {
        match self {
            DeriveError::Structure => String::from_str("Builder macro for Struct only"),
            DeriveError::AnnotationShape { .. } => String::from_str(
                "expected `builder(each = \"...\")`",
            ),
        }
    }
}

} // verus!
