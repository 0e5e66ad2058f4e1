//! Putting the fragments of all fields together into the code of a builder:
//! a factory on the record type, the builder type, and its methods.
//!
//! The fields keep their declaration order in every part of the output.

use vstd::prelude::*;
use crate::classify::{
    classify_fields_spec, lemma_classify_fields, lemma_classify_fields_prefix_error,
    ClassifiedFieldView,
};
use crate::descriptor::{
    field_views, FieldView, RecordDescriptor, RecordDescriptorView, RecordShape, RecordShapeView,
};
use crate::error::DeriveError;
use crate::fragments::{
    parse_field, synthesize_spec, SynthesizedFragments, SynthesizedFragmentsView,
};
use crate::views::ok_view;

verus! {

/// One of the four fragments of a field.
#[derive(Debug, Clone, Copy, PartialEq, Eq)]
pub enum Part {
    Storage,
    Setter,
    Finalization,
    Literal,
}

/// The fragment of the given kind.
pub open spec fn part_of(fragments: SynthesizedFragmentsView, part: Part) -> Seq<char> {
    match part {
        Part::Storage => fragments.storage,
        Part::Setter => fragments.setter,
        Part::Finalization => fragments.finalization,
        Part::Literal => fragments.literal,
    }
}

/// The views of the fragments of all fields, in order.
pub open spec fn fragment_views(fragments: Seq<SynthesizedFragments>) -> Seq<
    SynthesizedFragmentsView,
> {
    fragments.map_values(|f: SynthesizedFragments| f@)
}

/// The fragments of one kind on a line each, in order, each line behind the
/// same indentation.
pub open spec fn lines(indent: Seq<char>, fragments: Seq<SynthesizedFragmentsView>, part: Part) -> Seq<
    char,
>
    decreases fragments.len(),
{
    if fragments.len() == 0 {
        Seq::empty()
    } else {
        lines(indent, fragments.drop_last(), part) + indent + part_of(fragments.last(), part)
            + "\n"@
    }
}

/// The name of the builder type of a record.
pub open spec fn builder_name(record: Seq<char>) -> Seq<char> {
    record + "Builder"@
}

/// The code of the builder of the record called `record`: the factory
/// `builder` on the record type, which returns the builder in its default
/// state; the builder type with the storage of every field; and its methods,
/// the setters and then `build`, which finalizes the fields one after the
/// other, returns at the first that fails, and else returns the record.
pub open spec fn generated_code(record: Seq<char>, fragments: Seq<SynthesizedFragmentsView>) -> Seq<
    char,
> {
    "impl "@ + record + " {\n    pub fn builder() -> "@ + builder_name(record)
        + " {\n        Default::default()\n    }\n}\n\n#[derive(Default)]\npub struct "@
        + builder_name(record) + " {\n"@ + lines("    "@, fragments, Part::Storage)
        + "}\n\nimpl "@ + builder_name(record) + " {\n"@ + lines("    "@, fragments, Part::Setter)
        + "\n    pub fn build(self) -> ::core::result::Result<"@ + record
        + ", std::string::String> {\n"@ + lines("        "@, fragments, Part::Finalization)
        + "        Ok("@ + record + " {\n"@ + lines("            "@, fragments, Part::Literal)
        + "        })\n    }\n}\n"@
}

/// The fragments of the fields, each written for the class of its field.
pub open spec fn fragments_of(
    fields: Seq<FieldView>,
    classified: Seq<ClassifiedFieldView>,
) -> Seq<SynthesizedFragmentsView> {
    Seq::new(fields.len(), |i: int| synthesize_spec(fields[i], classified[i].class))
}

/// The code of the builder of a record, or why there is none: the record is
/// not a struct with named fields, or the classification of a field fails.
pub open spec fn derive_builder_spec(record: RecordDescriptorView) -> Result<
    Seq<char>,
    DeriveError,
> {
    match record.shape {
        RecordShapeView::NamedStruct(fields) => match classify_fields_spec(fields) {
            Ok(classified) => Ok(generated_code(record.name, fragments_of(fields, classified))),
            Err(e) => Err(e),
        },
        _ => Err(DeriveError::Structure),
    }
}

/// Picks the fragment of the given kind.
fn pick<'a>(fragments: &'a SynthesizedFragments, kind: Part) -> (text: &'a String)
    ensures
        text@ == part_of(fragments@, kind),
{
    match kind {
        Part::Storage => &fragments.storage,
        Part::Setter => &fragments.setter,
        Part::Finalization => &fragments.finalization,
        Part::Literal => &fragments.literal,
    }
}

/// Appends the fragments of one kind, on a line each.
fn append_lines(out: &mut String, indent: &str, fragments: &Vec<SynthesizedFragments>, kind: Part)
    ensures
        final(out)@ == old(out)@ + lines(indent@, fragment_views(fragments@), kind),
{
    let ghost start = out@;
    let ghost views = fragment_views(fragments@);
    let mut i: usize = 0;
    while i < fragments.len()
        invariant
            0 <= i <= fragments.len(),
            views == fragment_views(fragments@),
            out@ == start + lines(indent@, views.take(i as int), kind),
        decreases fragments.len() - i,
    {
        let text = pick(&fragments[i], kind);
        out.append(indent);
        out.append(text.as_str());
        out.append("\n");
        assert(views.take(i + 1).drop_last() == views.take(i as int));
        i += 1;
    }
    assert(views.take(i as int) == views);
}

/// Writes the code of a builder from the fragments of the record's fields.
pub fn assemble(record: &str, fragments: &Vec<SynthesizedFragments>) -> (code: String)
    ensures
        code@ == generated_code(record@, fragment_views(fragments@)),
{
    let mut builder = String::from_str(record);
    builder.append("Builder");

    let mut code = String::from_str("impl ");
    code.append(record);
    code.append(" {\n    pub fn builder() -> ");
    code.append(builder.as_str());
    code.append(
        " {\n        Default::default()\n    }\n}\n\n#[derive(Default)]\npub struct ",
    );
    code.append(builder.as_str());
    code.append(" {\n");
    append_lines(&mut code, "    ", fragments, Part::Storage);
    code.append("}\n\nimpl ");
    code.append(builder.as_str());
    code.append(" {\n");
    append_lines(&mut code, "    ", fragments, Part::Setter);
    code.append("\n    pub fn build(self) -> ::core::result::Result<");
    code.append(record);
    code.append(", std::string::String> {\n");
    append_lines(&mut code, "        ", fragments, Part::Finalization);
    code.append("        Ok(");
    code.append(record);
    code.append(" {\n");
    append_lines(&mut code, "            ", fragments, Part::Literal);
    code.append("        })\n    }\n}\n");
    code
}

/// Derives the code of a builder for a record.
///
/// Fails with `Structure` unless the record is a struct with named fields,
/// and with the error of the first field, in declaration order, whose
/// annotations are at fault. Nothing is generated beside an error.
pub fn derive_builder(input: RecordDescriptor) -> (r: Result<String, DeriveError>)
    ensures
        ok_view(r) == derive_builder_spec(input@),
{
    match &input.shape {
        RecordShape::NamedStruct(fields) => {
            let ghost views = field_views(fields@);
            let mut fragments: Vec<SynthesizedFragments> = Vec::new();
            let mut i: usize = 0;
            while i < fields.len()
                invariant
                    0 <= i <= fields.len(),
                    views == field_views(fields@),
                    input@.shape == RecordShapeView::NamedStruct(views),
                    classify_fields_spec(views.take(i as int)) is Ok,
                    fragment_views(fragments@) == fragments_of(
                        views.take(i as int),
                        classify_fields_spec(views.take(i as int))->Ok_0,
                    ),
                decreases fields.len() - i,
            {
                assert(views.take(i + 1).drop_last() == views.take(i as int));
                match parse_field(&fields[i]) {
                    Ok(field_fragments) => {
                        let ghost earlier = fragment_views(fragments@);
                        fragments.push(field_fragments);
                        proof {
                            lemma_classify_fields(views.take(i as int));
                        }
                        assert(fragment_views(fragments@) == earlier.push(field_fragments@));
                    },
                    Err(e) => {
                        proof {
                            lemma_classify_fields_prefix_error(views, i + 1);
                        }
                        return Err(
                            DeriveError::AnnotationShape { field: i, annotation: e.annotation },
                        );
                    },
                }
                i += 1;
            }
            assert(views.take(i as int) == views);
            Ok(assemble(input.name.as_str(), &fragments))
        },
        _ => Err(DeriveError::Structure),
    }
}

} // verus!
