//! What holds of every builder, whatever the record and whatever the calls.
//!
//! The laws speak of a builder that starts in its default state and takes a
//! sequence of calls in order. They are stated for records whose setters have
//! names of their own: where two setters share a name, a call reaches only
//! the first.

use vstd::prelude::*;
use crate::annotation::{each_literal, is_builder_keyed, keyed_below, rename_of};
use crate::assemble::derive_builder_spec;
use crate::builder::{
    after_call, build_spec, finalized, first_missing_from, initial_slots, setter_position,
    setter_position_from, FieldValueView, SlotView,
};
use crate::classify::{
    classify_fields_spec, classify_spec, lemma_classify_fields, wrapped_type, ClassifiedFieldView,
    FieldClassificationView,
};
use crate::descriptor::{AnnotationView, FieldView, RecordDescriptorView};
use crate::error::{annotation_shape_message, AnnotationShapeError, DeriveError};
use crate::fragments::missing_field_message;
use crate::identifier::is_identifier_spec;

verus! {

/// One call of a setter.
pub struct Call<V> {
    pub setter: Seq<char>,
    pub value: V,
}

/// What a builder holds after the calls, made in order.
pub open spec fn after_calls<V>(
    fields: Seq<ClassifiedFieldView>,
    slots: Seq<SlotView<V>>,
    calls: Seq<Call<V>>,
) -> Seq<SlotView<V>>
    decreases calls.len(),
{
    if calls.len() == 0 {
        slots
    } else {
        after_call(
            fields,
            after_calls(fields, slots, calls.drop_last()),
            calls.last().setter,
            calls.last().value,
        )
    }
}

/// What a builder in its default state holds after the calls.
pub open spec fn held_after<V>(fields: Seq<ClassifiedFieldView>, calls: Seq<Call<V>>) -> Seq<
    SlotView<V>,
> {
    after_calls(fields, initial_slots(fields), calls)
}

/// The values that the setter `setter` was called with, in the order of the
/// calls.
pub open spec fn values_to<V>(calls: Seq<Call<V>>, setter: Seq<char>) -> Seq<V>
    decreases calls.len(),
{
    if calls.len() == 0 {
        Seq::empty()
    } else {
        let earlier = values_to(calls.drop_last(), setter);
        if calls.last().setter == setter {
            earlier.push(calls.last().value)
        } else {
            earlier
        }
    }
}

/// The last of the values, if there is any.
pub open spec fn last_of<V>(values: Seq<V>) -> Option<V> {
    if values.len() == 0 {
        None
    } else {
        Some(values.last())
    }
}

/// No two fields have setters of the same name.
pub open spec fn distinct_setters(fields: Seq<ClassifiedFieldView>) -> bool {
    forall|i: int, j: int|
        #![trigger fields[i], fields[j]]
        0 <= i < j < fields.len() ==> fields[i].setter() != fields[j].setter()
}

/// Every plain field has had its setter called.
pub open spec fn plain_fields_set<V>(fields: Seq<ClassifiedFieldView>, calls: Seq<Call<V>>) -> bool {
    forall|k: int|
        0 <= k < fields.len() && (#[trigger] fields[k]).class is Plain ==> values_to(
            calls,
            fields[k].setter(),
        ).len() > 0
}

/// What a field of the given class holds after its setter was called with
/// the values, in order.
pub open spec fn slot_holding<V>(class: FieldClassificationView, values: Seq<V>) -> SlotView<V> {
    match class {
        FieldClassificationView::RepeatedAppend { .. } => SlotView::Many(values),
        _ => SlotView::Single(last_of(values)),
    }
}

/// What a field of the given class is built with after its setter was called
/// with the values, in order, of which there is one at least where the field
/// is plain.
pub open spec fn value_holding<V>(class: FieldClassificationView, values: Seq<V>) -> FieldValueView<
    V,
> {
    match class {
        FieldClassificationView::Plain(_) => FieldValueView::Required(values.last()),
        FieldClassificationView::OptionalWrapped(_) => FieldValueView::Optional(last_of(values)),
        FieldClassificationView::RepeatedAppend { .. } => FieldValueView::Repeated(values),
    }
}

proof fn lemma_setter_position_from(fields: Seq<ClassifiedFieldView>, setter: Seq<char>, from: int)
    requires
        0 <= from,
    ensures
        match setter_position_from(fields, setter, from) {
            Some(i) => {
                &&& from <= i < fields.len()
                &&& fields[i].setter() == setter
                &&& forall|k: int| from <= k < i ==> (#[trigger] fields[k]).setter() != setter
            },
            None => forall|k: int|
                from <= k < fields.len() ==> (#[trigger] fields[k]).setter() != setter,
        },
    decreases fields.len() - from,
{
    if from < fields.len() && fields[from].setter() != setter {
        lemma_setter_position_from(fields, setter, from + 1);
    }
}

/// A call reaches the field whose setter it names, where the names of the
/// setters are distinct, and no field where it names no setter.
pub proof fn lemma_setter_position(fields: Seq<ClassifiedFieldView>, setter: Seq<char>)
    requires
        distinct_setters(fields),
    ensures
        forall|i: int|
            0 <= i < fields.len() && (#[trigger] fields[i]).setter() == setter ==> setter_position(
                fields,
                setter,
            ) == Some(i),
        setter_position(fields, setter) matches Some(i) ==> 0 <= i < fields.len()
            && fields[i].setter() == setter,
{
    lemma_setter_position_from(fields, setter, 0);
}

/// The state of a builder after any calls: each field holds what its own
/// setter was called with, the last value or all of them by its class.
pub proof fn lemma_held_after<V>(fields: Seq<ClassifiedFieldView>, calls: Seq<Call<V>>)
    requires
        distinct_setters(fields),
    ensures
        held_after(fields, calls).len() == fields.len(),
        forall|i: int|
            0 <= i < fields.len() ==> (#[trigger] held_after(fields, calls)[i]) == slot_holding(
                fields[i].class,
                values_to(calls, fields[i].setter()),
            ),
    decreases calls.len(),
{
    if calls.len() > 0 {
        let earlier = calls.drop_last();
        let last = calls.last();
        lemma_held_after(fields, earlier);
        lemma_setter_position(fields, last.setter);
    }
}

proof fn lemma_first_missing_from<V>(
    fields: Seq<ClassifiedFieldView>,
    slots: Seq<SlotView<V>>,
    from: int,
)
    requires
        0 <= from,
    ensures
        match first_missing_from(fields, slots, from) {
            Some(i) => {
                &&& from <= i < fields.len()
                &&& finalized(fields[i], slots[i]) is Err
                &&& forall|k: int| from <= k < i ==> finalized(fields[k], #[trigger] slots[k]) is Ok
            },
            None => forall|k: int|
                from <= k < fields.len() ==> finalized(fields[k], #[trigger] slots[k]) is Ok,
        },
    decreases fields.len() - from,
{
    if from < fields.len() && finalized(fields[from], slots[from]) is Ok {
        lemma_first_missing_from(fields, slots, from + 1);
    }
}

/// Where every plain field has had its setter called, `build` succeeds, and
/// each field of the record is built from what its own setter was called
/// with: a plain field from the last value, an optional field from the last
/// value if there is one, a sequence from all values in the order of the
/// calls.
pub proof fn law_built_record<V>(fields: Seq<ClassifiedFieldView>, calls: Seq<Call<V>>)
    requires
        distinct_setters(fields),
        plain_fields_set(fields, calls),
    ensures
        build_spec(fields, held_after(fields, calls)) == Ok::<Seq<FieldValueView<V>>, Seq<char>>(
            Seq::new(
                fields.len(),
                |i: int| value_holding(fields[i].class, values_to(calls, fields[i].setter())),
            ),
        ),
{
    let held = held_after(fields, calls);
    lemma_held_after(fields, calls);
    lemma_first_missing_from(fields, held, 0);
    assert(Seq::new(fields.len(), |i: int| finalized(fields[i], held[i])->Ok_0) == Seq::new(
        fields.len(),
        |i: int| value_holding(fields[i].class, values_to(calls, fields[i].setter())),
    ));
}

/// `build` fails for the first plain field, in declaration order, whose
/// setter was never called, with the message that names that field.
pub proof fn law_first_unset_field_fails<V>(
    fields: Seq<ClassifiedFieldView>,
    calls: Seq<Call<V>>,
    unset: int,
)
    requires
        distinct_setters(fields),
        0 <= unset < fields.len(),
        fields[unset].class is Plain,
        values_to(calls, fields[unset].setter()).len() == 0,
        forall|k: int|
            0 <= k < unset && (#[trigger] fields[k]).class is Plain ==> values_to(
                calls,
                fields[k].setter(),
            ).len() > 0,
    ensures
        build_spec(fields, held_after(fields, calls)) == Err::<Seq<FieldValueView<V>>, Seq<char>>(
            missing_field_message(fields[unset].name),
        ),
{
    let held = held_after(fields, calls);
    lemma_held_after(fields, calls);
    lemma_first_missing_from(fields, held, 0);
    assert(finalized(fields[unset], held[unset]) is Err);
}

/// For a record of plain fields only: after every setter was called exactly
/// once, in any order, `build` returns the record that holds, for each field,
/// the value that its setter was called with.
pub proof fn law_every_setter_once<V>(
    fields: Seq<ClassifiedFieldView>,
    calls: Seq<Call<V>>,
    values: Seq<V>,
)
    requires
        distinct_setters(fields),
        forall|i: int| 0 <= i < fields.len() ==> (#[trigger] fields[i]).class is Plain,
        values.len() == fields.len(),
        forall|i: int|
            0 <= i < fields.len() ==> values_to(calls, (#[trigger] fields[i]).setter()) == seq![
                values[i],
            ],
    ensures
        build_spec(fields, held_after(fields, calls)) == Ok::<Seq<FieldValueView<V>>, Seq<char>>(
            Seq::new(fields.len(), |i: int| FieldValueView::Required(values[i])),
        ),
{
    law_built_record(fields, calls);
    assert(Seq::new(
        fields.len(),
        |i: int| value_holding(fields[i].class, values_to(calls, fields[i].setter())),
    ) == Seq::new(fields.len(), |i: int| FieldValueView::Required(values[i])));
}

/// For a record of plain fields only: after every setter but one was called
/// exactly once, `build` fails with the message that names the field whose
/// setter was left out.
pub proof fn law_omitted_setter<V>(
    fields: Seq<ClassifiedFieldView>,
    calls: Seq<Call<V>>,
    omitted: int,
)
    requires
        distinct_setters(fields),
        forall|i: int| 0 <= i < fields.len() ==> (#[trigger] fields[i]).class is Plain,
        0 <= omitted < fields.len(),
        values_to(calls, fields[omitted].setter()).len() == 0,
        forall|i: int|
            0 <= i < fields.len() && i != omitted ==> values_to(
                calls,
                (#[trigger] fields[i]).setter(),
            ).len() == 1,
    ensures
        build_spec(fields, held_after(fields, calls)) == Err::<Seq<FieldValueView<V>>, Seq<char>>(
            missing_field_message(fields[omitted].name),
        ),
{
    law_first_unset_field_fails(fields, calls, omitted);
}

/// A field declared `Option<T>` never makes `build` fail. It is built as
/// `None` where its setter was never called, and as `Some(v)` where the
/// setter was last called with `v`: the value itself, not an option of it.
pub proof fn law_optional_field<V>(
    fields: Seq<ClassifiedFieldView>,
    calls: Seq<Call<V>>,
    optional: int,
)
    requires
        distinct_setters(fields),
        plain_fields_set(fields, calls),
        0 <= optional < fields.len(),
        fields[optional].class is OptionalWrapped,
    ensures
        build_spec(fields, held_after(fields, calls)) matches Ok(record) && record.len()
            == fields.len() && record[optional] == FieldValueView::Optional(
            last_of(values_to(calls, fields[optional].setter())),
        ),
{
    law_built_record(fields, calls);
}

/// A field declared `Vec<T>` with the annotation `builder(each = "name")`
/// never makes `build` fail. It is built as the sequence of the values that
/// the setter `name` was called with, in the order of the calls: the empty
/// sequence where it was never called.
pub proof fn law_repeated_field<V>(
    fields: Seq<ClassifiedFieldView>,
    calls: Seq<Call<V>>,
    repeated: int,
)
    requires
        distinct_setters(fields),
        plain_fields_set(fields, calls),
        0 <= repeated < fields.len(),
        fields[repeated].class is RepeatedAppend,
    ensures
        build_spec(fields, held_after(fields, calls)) matches Ok(record) && record.len()
            == fields.len() && record[repeated] == FieldValueView::Repeated(
            values_to(calls, fields[repeated].setter()),
        ),
        fields[repeated].class matches FieldClassificationView::RepeatedAppend { each, .. }
            && fields[repeated].setter() == each,
{
    law_built_record(fields, calls);
}

/// The two names that the classifier looks for are different.
proof fn lemma_vec_is_not_option()
    ensures
        "Vec"@ != "Option"@,
{
    reveal_strlit("Vec");
    reveal_strlit("Option");
    assert("Vec"@.len() != "Option"@.len());
}

/// A field declared `Option<T>` is optional, whatever its annotations: its
/// setter has the field's name and takes a `T`.
pub proof fn law_option_is_optional(field: FieldView, inner: Seq<char>)
    requires
        wrapped_type(field.ty, "Option"@) == Some(inner),
    ensures
        classify_spec(field) == Ok::<FieldClassificationView, AnnotationShapeError>(
            FieldClassificationView::OptionalWrapped(inner),
        ),
        FieldClassificationView::OptionalWrapped(inner).setter(field.name) == field.name,
        FieldClassificationView::OptionalWrapped(inner).parameter() == inner,
{
}

proof fn lemma_one_keyed(annotations: Seq<AnnotationView>, at: int, end: int)
    requires
        0 <= at < annotations.len(),
        0 <= end <= annotations.len(),
        forall|j: int|
            0 <= j < annotations.len() ==> (is_builder_keyed(#[trigger] annotations[j]) <==> j
                == at),
    ensures
        keyed_below(annotations, end) == if end > at {
            seq![at]
        } else {
            Seq::<int>::empty()
        },
    decreases end,
{
    if end > 0 {
        lemma_one_keyed(annotations, at, end - 1);
    }
}

/// A field declared `Vec<T>` whose one annotation keyed `builder` is
/// `builder(each = "name")`, with an identifier for the name, is filled by
/// appending: its setter is called `name` and takes a `T`.
pub proof fn law_annotated_sequence_is_repeated(
    field: FieldView,
    at: int,
    element: Seq<char>,
    each: Seq<char>,
)
    requires
        field.annotations.len() <= usize::MAX,
        wrapped_type(field.ty, "Vec"@) == Some(element),
        0 <= at < field.annotations.len(),
        forall|j: int|
            0 <= j < field.annotations.len() ==> (is_builder_keyed(
                #[trigger] field.annotations[j],
            ) <==> j == at),
        each_literal(field.annotations[at].body) == Some(each),
        is_identifier_spec(each),
    ensures
        classify_spec(field) == Ok::<FieldClassificationView, AnnotationShapeError>(
            FieldClassificationView::RepeatedAppend { element, each },
        ),
        (FieldClassificationView::RepeatedAppend { element, each }).setter(field.name) == each,
        (FieldClassificationView::RepeatedAppend { element, each }).parameter() == element,
{
    lemma_vec_is_not_option();
    lemma_one_keyed(field.annotations, at, field.annotations.len() as int);
}

/// A field declared `Vec<T>` with an annotation keyed `builder` that is not
/// of the form `builder(each = "name")` fails the classification, at the
/// first such annotation.
pub proof fn law_malformed_annotation_fails(field: FieldView, at: int)
    requires
        field.annotations.len() <= usize::MAX,
        wrapped_type(field.ty, "Vec"@) is Some,
        0 <= at < field.annotations.len(),
        is_builder_keyed(field.annotations[at]),
        forall|j: int| 0 <= j < at ==> !is_builder_keyed(#[trigger] field.annotations[j]),
        rename_of(field.annotations[at].body) is None,
    ensures
        classify_spec(field) == Err::<FieldClassificationView, AnnotationShapeError>(
            AnnotationShapeError { annotation: at as usize },
        ),
{
    lemma_vec_is_not_option();
    lemma_first_keyed(field.annotations, at, field.annotations.len() as int);
}

proof fn lemma_first_keyed(annotations: Seq<AnnotationView>, at: int, end: int)
    requires
        0 <= at < annotations.len(),
        0 <= end <= annotations.len(),
        is_builder_keyed(annotations[at]),
        forall|j: int| 0 <= j < at ==> !is_builder_keyed(#[trigger] annotations[j]),
    ensures
        end <= at ==> keyed_below(annotations, end).len() == 0,
        end > at ==> keyed_below(annotations, end).len() > 0 && keyed_below(annotations, end)[0]
            == at,
    decreases end,
{
    if end > 0 {
        lemma_first_keyed(annotations, at, end - 1);
    }
}

/// One field whose annotations are at fault fails the derivation for the
/// whole record: no code is derived, and the diagnostic is anchored at the
/// offending annotation of the first such field and has the fixed text.
pub proof fn law_malformed_annotation_fails_derivation(
    record: RecordDescriptorView,
    field: int,
    annotation: usize,
)
    requires
        record.shape is NamedStruct,
        record.shape->NamedStruct_0.len() <= usize::MAX,
        0 <= field < record.shape->NamedStruct_0.len(),
        classify_spec(record.shape->NamedStruct_0[field]) == Err::<
            FieldClassificationView,
            AnnotationShapeError,
        >(AnnotationShapeError { annotation }),
        forall|k: int|
            0 <= k < field ==> classify_spec(#[trigger] record.shape->NamedStruct_0[k]) is Ok,
    ensures
        derive_builder_spec(record) == Err::<Seq<char>, DeriveError>(
            DeriveError::AnnotationShape { field: field as usize, annotation },
        ),
        (DeriveError::AnnotationShape { field: field as usize, annotation }).message_spec()
            == annotation_shape_message(),
{
    lemma_classify_fields(record.shape->NamedStruct_0);
}

proof fn lemma_none_keyed(annotations: Seq<AnnotationView>, end: int)
    requires
        0 <= end <= annotations.len(),
        forall|j: int| 0 <= j < annotations.len() ==> !is_builder_keyed(#[trigger] annotations[j]),
    ensures
        keyed_below(annotations, end).len() == 0,
    decreases end,
{
    if end > 0 {
        lemma_none_keyed(annotations, end - 1);
    }
}

/// A field declared `Vec<T>` without an annotation keyed `builder` is plain:
/// its setter has the field's name and takes the whole sequence.
pub proof fn law_unannotated_sequence_is_plain(field: FieldView)
    requires
        wrapped_type(field.ty, "Vec"@) is Some,
        forall|j: int|
            0 <= j < field.annotations.len() ==> !is_builder_keyed(#[trigger] field.annotations[j]),
    ensures
        classify_spec(field) == Ok::<FieldClassificationView, AnnotationShapeError>(
            FieldClassificationView::Plain(field.ty.text),
        ),
        FieldClassificationView::Plain(field.ty.text).setter(field.name) == field.name,
        FieldClassificationView::Plain(field.ty.text).parameter() == field.ty.text,
{
    lemma_vec_is_not_option();
    lemma_none_keyed(field.annotations, field.annotations.len() as int);
}

/// A field declared `Vec<T>` without an annotation keyed `builder` has to be
/// set before `build`: where its setter was never called and every plain
/// field before it was set, `build` fails with the message that names it.
pub proof fn law_unannotated_sequence_must_be_set<V>(
    fields: Seq<FieldView>,
    at: int,
    calls: Seq<Call<V>>,
)
    requires
        fields.len() <= usize::MAX,
        0 <= at < fields.len(),
        wrapped_type(fields[at].ty, "Vec"@) is Some,
        forall|j: int|
            0 <= j < fields[at].annotations.len() ==> !is_builder_keyed(
                #[trigger] fields[at].annotations[j],
            ),
        classify_fields_spec(fields) is Ok,
        distinct_setters(classify_fields_spec(fields)->Ok_0),
        values_to(calls, fields[at].name).len() == 0,
        forall|k: int|
            0 <= k < at && (#[trigger] classify_fields_spec(fields)->Ok_0[k]).class is Plain
                ==> values_to(calls, classify_fields_spec(fields)->Ok_0[k].setter()).len() > 0,
    ensures
        build_spec(
            classify_fields_spec(fields)->Ok_0,
            held_after(classify_fields_spec(fields)->Ok_0, calls),
        ) == Err::<Seq<FieldValueView<V>>, Seq<char>>(missing_field_message(fields[at].name)),
{
    let classified = classify_fields_spec(fields)->Ok_0;
    lemma_classify_fields(fields);
    law_unannotated_sequence_is_plain(fields[at]);
    law_first_unset_field_fails(classified, calls, at);
}

} // verus!
