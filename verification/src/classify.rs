//! Sorting each field into one of three classes by the form of its declared
//! type and by its annotations.
//!
//! The type is matched by its written form alone: a path of one segment named
//! `Option` or `Vec` with exactly one generic argument, which is a type. A
//! type of the user's own under one of these names is taken for the standard
//! one, and a standard one written with a longer path is not recognised.

use vstd::prelude::*;
use crate::annotation::{find_each_in_attrs, find_each_spec};
use crate::descriptor::{
    field_views, Field, FieldView, GenericArgument, GenericArgumentView, RecordDescriptor,
    RecordDescriptorView, RecordShape, RecordShapeView, TypeExpr, TypeExprView,
};
use crate::error::{AnnotationShapeError, DeriveError};
use crate::views::{ok_view, some_view};

verus! {

/// How the builder stores, sets and finalizes a field.
#[derive(Debug, Clone, PartialEq, Eq)]
pub enum FieldClassification {
    /// Any field that is neither of the two below. Carries the declared type.
    /// The builder holds an optional value, and building requires it.
    Plain(String),
    /// A field declared `Option<T>`. Carries `T`. The builder holds the
    /// optional value itself, and building never requires it.
    OptionalWrapped(String),
    /// A field declared `Vec<T>` and annotated `builder(each = "name")`.
    /// Carries `T` and the name. The builder holds a sequence that starts
    /// empty and grows by one element with each call of the setter `name`.
    RepeatedAppend { element: String, each: String },
}

/// The view of [`FieldClassification`].
pub enum FieldClassificationView {
    Plain(Seq<char>),
    OptionalWrapped(Seq<char>),
    RepeatedAppend { element: Seq<char>, each: Seq<char> },
}

impl View for FieldClassification {
    type V = FieldClassificationView;

    open spec fn view(&self) -> FieldClassificationView {
        match *self {
            FieldClassification::Plain(declared) => FieldClassificationView::Plain(declared@),
            FieldClassification::OptionalWrapped(inner) => FieldClassificationView::OptionalWrapped(
                inner@,
            ),
            FieldClassification::RepeatedAppend { element, each } => {
                FieldClassificationView::RepeatedAppend { element: element@, each: each@ }
            },
        }
    }
}

impl FieldClassificationView {
    /// The type of the value that one call of the setter takes.
    pub open spec fn parameter(self) -> Seq<char> {
        match self {
            FieldClassificationView::Plain(declared) => declared,
            FieldClassificationView::OptionalWrapped(inner) => inner,
            FieldClassificationView::RepeatedAppend { element, .. } => element,
        }
    }

    /// The name of the setter of a field called `field`.
    pub open spec fn setter(self, field: Seq<char>) -> Seq<char> {
        match self {
            FieldClassificationView::RepeatedAppend { each, .. } => each,
            _ => field,
        }
    }
}

/// The generic argument `T` of a type written `wrapper<T>`: a path of one
/// segment named `wrapper`, with exactly one generic argument, which is a
/// type. `None` for every other type.
pub open spec fn wrapped_type(ty: TypeExprView, wrapper: Seq<char>) -> Option<Seq<char>> {
    match ty.path {
        Some(segments) => if segments.len() == 1 && segments[0].name == wrapper
            && segments[0].arguments.len() == 1 {
            match segments[0].arguments[0] {
                GenericArgumentView::Type(inner) => Some(inner),
                GenericArgumentView::Other => None,
            }
        } else {
            None
        },
        None => None,
    }
}

/// The class of a field with the declared type `ty` whose annotations give
/// the rename `rename`. The first rule that applies decides:
/// `Option<T>` is optional; `Vec<T>` with a rename is filled by appending;
/// everything else is plain, a `Vec<T>` without a rename too.
pub open spec fn classification_of(
    ty: TypeExprView,
    rename: Option<Seq<char>>,
) -> FieldClassificationView {
    match wrapped_type(ty, "Option"@) {
        Some(inner) => FieldClassificationView::OptionalWrapped(inner),
        None => match (wrapped_type(ty, "Vec"@), rename) {
            (Some(element), Some(each)) => FieldClassificationView::RepeatedAppend {
                element,
                each,
            },
            _ => FieldClassificationView::Plain(ty.text),
        },
    }
}

/// The class of a field, or the error of its annotations. The annotations
/// are read only where the declared type is a `Vec<T>`: on every other field
/// they are passed over, whatever their form.
pub open spec fn classify_spec(field: FieldView) -> Result<
    FieldClassificationView,
    AnnotationShapeError,
> {
    if wrapped_type(field.ty, "Option"@) is None && wrapped_type(field.ty, "Vec"@) is Some {
        match find_each_spec(field.annotations) {
            Ok(rename) => Ok(classification_of(field.ty, rename)),
            Err(e) => Err(e),
        }
    } else {
        Ok(classification_of(field.ty, None))
    }
}

/// Reads the generic argument of a type written `wrapper<T>`.
pub fn wrapped_in<'a>(ty: &'a TypeExpr, wrapper: &str) -> (inner: Option<&'a String>)
    ensures
        some_view(inner) == wrapped_type(ty@, wrapper@),
{
    match &ty.path {
        Some(segments) => {
            if segments.len() != 1 {
                return None;
            }
            let segment = &segments[0];
            if segment.name != String::from_str(wrapper) || segment.arguments.len() != 1 {
                return None;
            }
            match &segment.arguments[0] {
                GenericArgument::Type(inner) => Some(inner),
                GenericArgument::Other => None,
            }
        },
        None => None,
    }
}

/// Classifies a field whose annotations have been read already.
pub fn classification_for(ty: &TypeExpr, rename: Option<String>) -> (class: FieldClassification)
    ensures
        class@ == classification_of(ty@, some_view(rename)),
{
    match wrapped_in(ty, "Option") {
        Some(inner) => FieldClassification::OptionalWrapped(inner.clone()),
        None => match (wrapped_in(ty, "Vec"), rename) {
            (Some(element), Some(each)) => FieldClassification::RepeatedAppend {
                element: element.clone(),
                each,
            },
            _ => FieldClassification::Plain(ty.text.clone()),
        },
    }
}

/// Classifies a field.
///
/// Fails where the declared type is a `Vec<T>` and the annotations are at
/// fault, with the error of the annotations.
pub fn classify(field: &Field) -> (r: Result<FieldClassification, AnnotationShapeError>)
    ensures
        ok_view(r) == classify_spec(field@),
{
    if wrapped_in(&field.ty, "Option").is_none() && wrapped_in(&field.ty, "Vec").is_some() {
        match find_each_in_attrs(&field.annotations) {
            Ok(rename) => Ok(classification_for(&field.ty, rename)),
            Err(e) => Err(e),
        }
    } else {
        Ok(classification_for(&field.ty, None))
    }
}

/// A field of the record with the class it was sorted into.
#[derive(Debug, Clone, PartialEq, Eq)]
pub struct ClassifiedField {
    pub name: String,
    pub class: FieldClassification,
}

/// The view of [`ClassifiedField`].
pub struct ClassifiedFieldView {
    pub name: Seq<char>,
    pub class: FieldClassificationView,
}

impl View for ClassifiedField {
    type V = ClassifiedFieldView;

    open spec fn view(&self) -> ClassifiedFieldView {
        ClassifiedFieldView { name: self.name@, class: self.class@ }
    }
}

impl ClassifiedFieldView {
    /// The name of the field's setter.
    pub open spec fn setter(self) -> Seq<char> {
        self.class.setter(self.name)
    }
}

/// The views of classified fields, in order.
pub open spec fn classified_views(fields: Seq<ClassifiedField>) -> Seq<ClassifiedFieldView> {
    fields.map_values(|f: ClassifiedField| f@)
}

/// The fields with their classes, in declaration order, or the error of the
/// first field whose classification fails.
pub open spec fn classify_fields_spec(fields: Seq<FieldView>) -> Result<
    Seq<ClassifiedFieldView>,
    DeriveError,
>
    decreases fields.len(),
{
    if fields.len() == 0 {
        Ok(Seq::empty())
    } else {
        match classify_fields_spec(fields.drop_last()) {
            Ok(earlier) => match classify_spec(fields.last()) {
                Ok(class) => Ok(earlier.push(ClassifiedFieldView { name: fields.last().name, class })),
                Err(e) => Err(
                    DeriveError::AnnotationShape {
                        field: (fields.len() - 1) as usize,
                        annotation: e.annotation,
                    },
                ),
            },
            Err(e) => Err(e),
        }
    }
}

/// The classified fields of a record. Only a struct with named fields has
/// any.
pub open spec fn classify_record_spec(record: RecordDescriptorView) -> Result<
    Seq<ClassifiedFieldView>,
    DeriveError,
> {
    match record.shape {
        RecordShapeView::NamedStruct(fields) => classify_fields_spec(fields),
        _ => Err(DeriveError::Structure),
    }
}

/// Classification goes field by field: it succeeds where every field's does,
/// and then keeps each field's name and class at the field's position.
/// Where it fails, the first field that fails decides, and the error names
/// that field and the annotation at fault.
pub proof fn lemma_classify_fields(fields: Seq<FieldView>)
    requires
        fields.len() <= usize::MAX,
    ensures
        match classify_fields_spec(fields) {
            Ok(classified) => {
                &&& classified.len() == fields.len()
                &&& forall|i: int|
                    0 <= i < fields.len() ==> classified[i].name == fields[i].name && classify_spec(
                        #[trigger] fields[i],
                    ) == Ok::<FieldClassificationView, AnnotationShapeError>(classified[i].class)
            },
            Err(e) => {
                &&& e matches DeriveError::AnnotationShape { field, annotation }
                &&& field < fields.len()
                &&& classify_spec(fields[field as int]) == Err::<
                    FieldClassificationView,
                    AnnotationShapeError,
                >(AnnotationShapeError { annotation })
                &&& forall|k: int| 0 <= k < field ==> classify_spec(#[trigger] fields[k]) is Ok
            },
        },
    decreases fields.len(),
{
    if fields.len() > 0 {
        let earlier = fields.drop_last();
        lemma_classify_fields(earlier);
        assert(forall|i: int| 0 <= i < earlier.len() ==> earlier[i] == fields[i]);
    }
}

/// An error among the first fields is the error of the whole.
pub proof fn lemma_classify_fields_prefix_error(fields: Seq<FieldView>, end: int)
    requires
        0 <= end <= fields.len(),
        classify_fields_spec(fields.take(end)) is Err,
    ensures
        classify_fields_spec(fields) == classify_fields_spec(fields.take(end)),
    decreases fields.len() - end,
{
    if end < fields.len() {
        assert(fields.take(end + 1).drop_last() == fields.take(end));
        lemma_classify_fields_prefix_error(fields, end + 1);
    } else {
        assert(fields.take(end) == fields);
    }
}

/// The view of what the classification of a record returns.
pub open spec fn classified_view(r: Result<Vec<ClassifiedField>, DeriveError>) -> Result<
    Seq<ClassifiedFieldView>,
    DeriveError,
> {
    match r {
        Ok(classified) => Ok(classified_views(classified@)),
        Err(e) => Err(e),
    }
}

/// Classifies the fields of a record in declaration order.
///
/// Fails with `Structure` unless the record is a struct with named fields,
/// and with the error of the first field whose classification fails.
pub fn classify_record(record: &RecordDescriptor) -> (r: Result<Vec<ClassifiedField>, DeriveError>)
    ensures
        classified_view(r) == classify_record_spec(record@),
{
    match &record.shape {
        RecordShape::NamedStruct(fields) => {
            let ghost views = field_views(fields@);
            let mut classified: Vec<ClassifiedField> = Vec::new();
            let mut i: usize = 0;
            assert(classified_views(classified@) == Seq::<ClassifiedFieldView>::empty());
            while i < fields.len()
                invariant
                    0 <= i <= fields.len(),
                    views == field_views(fields@),
                    record@.shape == RecordShapeView::NamedStruct(views),
                    classify_fields_spec(views.take(i as int)) == Ok::<
                        Seq<ClassifiedFieldView>,
                        DeriveError,
                    >(classified_views(classified@)),
                decreases fields.len() - i,
            {
                assert(views.take(i + 1).drop_last() == views.take(i as int));
                match classify(&fields[i]) {
                    Ok(class) => {
                        let ghost earlier = classified_views(classified@);
                        let entry = ClassifiedField { name: fields[i].name.clone(), class };
                        classified.push(entry);
                        assert(classified_views(classified@) == earlier.push(entry@));
                    },
                    Err(e) => {
                        proof {
                            lemma_classify_fields_prefix_error(views, i + 1);
                        }
                        return Err(
                            DeriveError::AnnotationShape { field: i, annotation: e.annotation },
                        );
                    },
                }
                i += 1;
            }
            assert(views.take(i as int) == views);
            Ok(classified)
        },
        _ => Err(DeriveError::Structure),
    }
}

} // verus!
