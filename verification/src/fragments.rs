//! The four pieces of code that one field contributes to its builder: the
//! declaration of the builder's storage, the setter, the statement that
//! finalizes the field when the record is built, and the entry in the
//! record's literal.

use vstd::prelude::*;
use crate::classify::{classify, classify_spec, FieldClassification, FieldClassificationView};
use crate::descriptor::{Field, FieldView};
use crate::error::AnnotationShapeError;
use crate::views::ok_view;

verus! {

/// What one field contributes to the generated code.
#[derive(Debug, Clone, PartialEq, Eq)]
pub struct SynthesizedFragments {
    /// The field of the builder type that holds what has been set.
    pub storage: String,
    /// The method of the builder type that sets the field.
    pub setter: String,
    /// The statement of `build` that takes the field out of the builder.
    pub finalization: String,
    /// The field's entry in the literal of the record.
    pub literal: String,
}

/// The view of [`SynthesizedFragments`].
pub struct SynthesizedFragmentsView {
    pub storage: Seq<char>,
    pub setter: Seq<char>,
    pub finalization: Seq<char>,
    pub literal: Seq<char>,
}

impl View for SynthesizedFragments {
    type V = SynthesizedFragmentsView;

    open spec fn view(&self) -> SynthesizedFragmentsView {
        SynthesizedFragmentsView {
            storage: self.storage@,
            setter: self.setter@,
            finalization: self.finalization@,
            literal: self.literal@,
        }
    }
}

/// The message with which `build` fails for a required field that was never
/// set.
pub open spec fn missing_field_message(name: Seq<char>) -> Seq<char> {
    "field \""@ + name + "\" required, but not set yet."@
}

/// The declaration of the builder's storage for a field. A plain field is
/// held in an option of its declared type; an optional field and a sequence
/// filled by appending are held under their declared type.
pub open spec fn storage_fragment(
    name: Seq<char>,
    declared: Seq<char>,
    class: FieldClassificationView,
) -> Seq<char> {
    match class {
        FieldClassificationView::Plain(_) => name + ": ::core::option::Option<"@ + declared
            + ">,"@,
        _ => name + ": "@ + declared + ","@,
    }
}

/// The setter of a field. It takes the builder and one value and gives the
/// builder back. A sequence filled by appending gets the value at its end;
/// every other field is set to the value.
pub open spec fn setter_fragment(name: Seq<char>, class: FieldClassificationView) -> Seq<char> {
    "pub fn "@ + class.setter(name) + "(mut self, value: "@ + class.parameter()
        + ") -> Self { self."@ + name + (match class {
        FieldClassificationView::RepeatedAppend { .. } => ".push(value)"@,
        _ => " = Some(value)"@,
    }) + "; self }"@
}

/// The statement that finalizes a field. Only a plain field can fail here,
/// with [`missing_field_message`], written out as a string literal.
pub open spec fn finalization_fragment(name: Seq<char>, class: FieldClassificationView) -> Seq<
    char,
> {
    match class {
        FieldClassificationView::Plain(_) => "let "@ + name + " = self."@ + name
            + ".ok_or(\"field \\\""@ + name + "\\\" required, but not set yet.\")?;"@,
        _ => "let "@ + name + " = self."@ + name + ";"@,
    }
}

/// The entry of a field in the literal of the record.
pub open spec fn literal_fragment(name: Seq<char>) -> Seq<char> {
    name + ","@
}

/// The four fragments of a field of the given class.
pub open spec fn synthesize_spec(
    field: FieldView,
    class: FieldClassificationView,
) -> SynthesizedFragmentsView {
    SynthesizedFragmentsView {
        storage: storage_fragment(field.name, field.ty.text, class),
        setter: setter_fragment(field.name, class),
        finalization: finalization_fragment(field.name, class),
        literal: literal_fragment(field.name),
    }
}

/// The four fragments of a field, or the error of its classification.
pub open spec fn parse_field_spec(field: FieldView) -> Result<
    SynthesizedFragmentsView,
    AnnotationShapeError,
> {
    match classify_spec(field) {
        Ok(class) => Ok(synthesize_spec(field, class)),
        Err(e) => Err(e),
    }
}

/// Writes the four fragments of a field of the given class.
pub fn synthesize(field: &Field, class: &FieldClassification) -> (fragments: SynthesizedFragments)
    ensures
        fragments@ == synthesize_spec(field@, class@),
{
    let name = field.name.as_str();

    let mut storage = field.name.clone();
    match class {
        FieldClassification::Plain(_) => {
            storage.append(": ::core::option::Option<");
            storage.append(field.ty.text.as_str());
            storage.append(">,");
        },
        _ => {
            storage.append(": ");
            storage.append(field.ty.text.as_str());
            storage.append(",");
        },
    }

    let mut setter = String::from_str("pub fn ");
    match class {
        FieldClassification::Plain(declared) => {
            setter.append(name);
            setter.append("(mut self, value: ");
            setter.append(declared.as_str());
        },
        FieldClassification::OptionalWrapped(inner) => {
            setter.append(name);
            setter.append("(mut self, value: ");
            setter.append(inner.as_str());
        },
        FieldClassification::RepeatedAppend { element, each } => {
            setter.append(each.as_str());
            setter.append("(mut self, value: ");
            setter.append(element.as_str());
        },
    }
    setter.append(") -> Self { self.");
    setter.append(name);
    match class {
        FieldClassification::RepeatedAppend { .. } => {
            setter.append(".push(value)");
        },
        _ => {
            setter.append(" = Some(value)");
        },
    }
    setter.append("; self }");

    let mut finalization = String::from_str("let ");
    finalization.append(name);
    finalization.append(" = self.");
    finalization.append(name);
    match class {
        FieldClassification::Plain(_) => {
            finalization.append(".ok_or(\"field \\\"");
            finalization.append(name);
            finalization.append("\\\" required, but not set yet.\")?;");
        },
        _ => {
            finalization.append(";");
        },
    }

    let mut literal = field.name.clone();
    literal.append(",");

    SynthesizedFragments { storage, setter, finalization, literal }
}

/// Classifies a field and writes its four fragments.
///
/// Fails where the classification fails, with its error.
pub fn parse_field(field: &Field) -> (r: Result<SynthesizedFragments, AnnotationShapeError>)
    ensures
        ok_view(r) == parse_field_spec(field@),
{
    match classify(field) {
        Ok(class) => Ok(synthesize(field, &class)),
        Err(e) => Err(e),
    }
}

} // verus!
