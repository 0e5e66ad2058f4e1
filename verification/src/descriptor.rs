//! The record that a builder is derived for, as plain data: its name, its
//! fields in declaration order, and for each field the declared type and the
//! annotations attached to it.
//!
//! Every type here has a view that replaces `String` by `Seq<char>` and `Vec`
//! by `Seq`; the contracts of the crate are stated over these views.

use vstd::prelude::*;

verus! {

/// One entry between the parentheses of a list annotation.
#[derive(Debug, Clone, PartialEq, Eq)]
pub enum Entry {
    /// `key = "value"`: a name bound to a string literal.
    StringValue { key: String, value: String },
    /// `key = literal`, where the literal is not a string.
    OtherValue { key: String },
    /// Anything else: a bare name, a nested list, a literal on its own.
    Other,
}

/// The view of [`Entry`].
pub enum EntryView {
    StringValue { key: Seq<char>, value: Seq<char> },
    OtherValue { key: Seq<char> },
    Other,
}

impl View for Entry {
    type V = EntryView;

    open spec fn view(&self) -> EntryView {
        match *self {
            Entry::StringValue { key, value } => EntryView::StringValue {
                key: key@,
                value: value@,
            },
            Entry::OtherValue { key } => EntryView::OtherValue { key: key@ },
            Entry::Other => EntryView::Other,
        }
    }
}

/// What follows the key of an annotation.
#[derive(Debug, Clone, PartialEq, Eq)]
pub enum AnnotationBody {
    /// Nothing: `#[key]`.
    Word,
    /// A bound literal: `#[key = literal]`.
    Value,
    /// A parenthesised list of entries: `#[key(entry, entry)]`.
    List(Vec<Entry>),
    /// Arguments that have none of the three forms above.
    Unstructured,
}

/// The view of [`AnnotationBody`].
pub enum AnnotationBodyView {
    Word,
    Value,
    List(Seq<EntryView>),
    Unstructured,
}

/// The views of a list's entries, in order.
pub open spec fn entry_views(entries: Seq<Entry>) -> Seq<EntryView> {
    entries.map_values(|e: Entry| e@)
}

impl View for AnnotationBody {
    type V = AnnotationBodyView;

    open spec fn view(&self) -> AnnotationBodyView {
        match *self {
            AnnotationBody::Word => AnnotationBodyView::Word,
            AnnotationBody::Value => AnnotationBodyView::Value,
            AnnotationBody::List(entries) => AnnotationBodyView::List(entry_views(entries@)),
            AnnotationBody::Unstructured => AnnotationBodyView::Unstructured,
        }
    }
}

/// One annotation attached to a field: `#[key ...]`.
#[derive(Debug, Clone, PartialEq, Eq)]
pub struct Annotation {
    /// The annotation's path as written; `builder` for the annotations that
    /// this crate reads.
    pub key: String,
    pub body: AnnotationBody,
}

/// The view of [`Annotation`].
pub struct AnnotationView {
    pub key: Seq<char>,
    pub body: AnnotationBodyView,
}

impl View for Annotation {
    type V = AnnotationView;

    open spec fn view(&self) -> AnnotationView {
        AnnotationView { key: self.key@, body: self.body@ }
    }
}

/// One generic argument of a path segment.
#[derive(Debug, Clone, PartialEq, Eq)]
pub enum GenericArgument {
    /// A type, as written.
    Type(String),
    /// A lifetime, a constant, a binding or a constraint.
    Other,
}

/// The view of [`GenericArgument`].
pub enum GenericArgumentView {
    Type(Seq<char>),
    Other,
}

impl View for GenericArgument {
    type V = GenericArgumentView;

    open spec fn view(&self) -> GenericArgumentView {
        match *self {
            GenericArgument::Type(text) => GenericArgumentView::Type(text@),
            GenericArgument::Other => GenericArgumentView::Other,
        }
    }
}

/// One segment of a path type: a name and its generic arguments in angle
/// brackets, if it has any.
#[derive(Debug, Clone, PartialEq, Eq)]
pub struct PathSegment {
    pub name: String,
    pub arguments: Vec<GenericArgument>,
}

/// The view of [`PathSegment`].
pub struct PathSegmentView {
    pub name: Seq<char>,
    pub arguments: Seq<GenericArgumentView>,
}

/// The views of a segment's generic arguments, in order.
pub open spec fn argument_views(arguments: Seq<GenericArgument>) -> Seq<GenericArgumentView> {
    arguments.map_values(|a: GenericArgument| a@)
}

impl View for PathSegment {
    type V = PathSegmentView;

    open spec fn view(&self) -> PathSegmentView {
        PathSegmentView {
            name: self.name@,
            arguments: argument_views(self.arguments@),
        }
    }
}

/// The declared type of a field.
#[derive(Debug, Clone, PartialEq, Eq)]
pub struct TypeExpr {
    /// The type as written.
    pub text: String,
    /// The segments of the type, where it is a path such as
    /// `std::vec::Vec<u8>`; `None` for every other form of type.
    pub path: Option<Vec<PathSegment>>,
}

/// The view of [`TypeExpr`].
pub struct TypeExprView {
    pub text: Seq<char>,
    pub path: Option<Seq<PathSegmentView>>,
}

/// The views of a path's segments, in order.
pub open spec fn segment_views(segments: Seq<PathSegment>) -> Seq<PathSegmentView> {
    segments.map_values(|s: PathSegment| s@)
}

impl View for TypeExpr {
    type V = TypeExprView;

    open spec fn view(&self) -> TypeExprView {
        TypeExprView {
            text: self.text@,
            path: match self.path {
                Some(segments) => Some(segment_views(segments@)),
                None => None,
            },
        }
    }
}

/// One member of a record.
#[derive(Debug, Clone, PartialEq, Eq)]
pub struct Field {
    pub name: String,
    pub ty: TypeExpr,
    /// The annotations attached to the field, in source order.
    pub annotations: Vec<Annotation>,
}

/// The view of [`Field`].
pub struct FieldView {
    pub name: Seq<char>,
    pub ty: TypeExprView,
    pub annotations: Seq<AnnotationView>,
}

/// The views of a field's annotations, in order.
pub open spec fn annotation_views(annotations: Seq<Annotation>) -> Seq<AnnotationView> {
    annotations.map_values(|a: Annotation| a@)
}

impl View for Field {
    type V = FieldView;

    open spec fn view(&self) -> FieldView {
        FieldView {
            name: self.name@,
            ty: self.ty@,
            annotations: annotation_views(self.annotations@),
        }
    }
}

/// The form of the type that a builder is asked for.
#[derive(Debug, Clone, PartialEq, Eq)]
pub enum RecordShape {
    /// A struct with named fields, in declaration order.
    NamedStruct(Vec<Field>),
    /// A struct with positional fields.
    TupleStruct,
    /// A struct without fields and without braces.
    UnitStruct,
    Enum,
    Union,
}

/// The view of [`RecordShape`].
pub enum RecordShapeView {
    NamedStruct(Seq<FieldView>),
    TupleStruct,
    UnitStruct,
    Enum,
    Union,
}

/// The views of a record's fields, in order.
pub open spec fn field_views(fields: Seq<Field>) -> Seq<FieldView> {
    fields.map_values(|f: Field| f@)
}

impl View for RecordShape {
    type V = RecordShapeView;

    open spec fn view(&self) -> RecordShapeView {
        match *self {
            RecordShape::NamedStruct(fields) => RecordShapeView::NamedStruct(field_views(fields@)),
            RecordShape::TupleStruct => RecordShapeView::TupleStruct,
            RecordShape::UnitStruct => RecordShapeView::UnitStruct,
            RecordShape::Enum => RecordShapeView::Enum,
            RecordShape::Union => RecordShapeView::Union,
        }
    }
}

/// The type that a builder is derived for.
#[derive(Debug, Clone, PartialEq, Eq)]
pub struct RecordDescriptor {
    pub name: String,
    pub shape: RecordShape,
}

/// The view of [`RecordDescriptor`].
pub struct RecordDescriptorView {
    pub name: Seq<char>,
    pub shape: RecordShapeView,
}

impl View for RecordDescriptor {
    type V = RecordDescriptorView;

    open spec fn view(&self) -> RecordDescriptorView {
        RecordDescriptorView { name: self.name@, shape: self.shape@ }
    }
}

} // verus!
