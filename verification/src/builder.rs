//! What a generated builder does, as a value that can be run: what it holds
//! for each field, what a call of a setter does to it, and what `build`
//! returns.
//!
//! A builder is made for the classified fields of a record. It starts in its
//! default state, takes calls of setters by name, and is consumed by `build`.
//! Where the generated code has one type per field, the values here are of
//! any one type `V`, and a record is the sequence of its fields' values.

use vstd::prelude::*;
use crate::classify::{
    classified_views, ClassifiedField, ClassifiedFieldView, FieldClassification,
    FieldClassificationView,
};
use crate::fragments::missing_field_message;

verus! {

/// What a builder holds for one field.
#[derive(Debug, Clone, PartialEq, Eq)]
pub enum Slot<V> {
    /// At most one value: the one that was set last.
    Single(Option<V>),
    /// The values that were appended, in the order of the calls.
    Many(Vec<V>),
}

/// The view of [`Slot`].
pub enum SlotView<V> {
    Single(Option<V>),
    Many(Seq<V>),
}

impl<V> View for Slot<V> {
    type V = SlotView<V>;

    open spec fn view(&self) -> SlotView<V> {
        match *self {
            Slot::Single(held) => SlotView::Single(held),
            Slot::Many(items) => SlotView::Many(items@),
        }
    }
}

/// The views of a builder's slots, in order.
pub open spec fn slot_views<V>(slots: Seq<Slot<V>>) -> Seq<SlotView<V>> {
    slots.map_values(|s: Slot<V>| s@)
}

/// The value of one field of a record that was built.
#[derive(Debug, Clone, PartialEq, Eq)]
pub enum FieldValue<V> {
    /// The value of a plain field.
    Required(V),
    /// The value of an optional field: what was set, or nothing.
    Optional(Option<V>),
    /// The value of a sequence that was filled by appending.
    Repeated(Vec<V>),
}

/// The view of [`FieldValue`].
pub enum FieldValueView<V> {
    Required(V),
    Optional(Option<V>),
    Repeated(Seq<V>),
}

impl<V> View for FieldValue<V> {
    type V = FieldValueView<V>;

    open spec fn view(&self) -> FieldValueView<V> {
        match *self {
            FieldValue::Required(value) => FieldValueView::Required(value),
            FieldValue::Optional(held) => FieldValueView::Optional(held),
            FieldValue::Repeated(items) => FieldValueView::Repeated(items@),
        }
    }
}

/// The views of a record's field values, in order.
pub open spec fn value_views<V>(values: Seq<FieldValue<V>>) -> Seq<FieldValueView<V>> {
    values.map_values(|v: FieldValue<V>| v@)
}

/// What a builder in its default state holds for a field of the given class:
/// an empty sequence where the field is filled by appending, and nothing
/// elsewhere.
pub open spec fn empty_slot<V>(class: FieldClassificationView) -> SlotView<V> {
    match class {
        FieldClassificationView::RepeatedAppend { .. } => SlotView::Many(Seq::empty()),
        _ => SlotView::Single(None),
    }
}

/// The default state of a builder for the given fields.
pub open spec fn initial_slots<V>(fields: Seq<ClassifiedFieldView>) -> Seq<SlotView<V>> {
    Seq::new(fields.len(), |i: int| empty_slot(fields[i].class))
}

/// Whether a slot is of the kind that the class of its field asks for.
pub open spec fn slot_fits<V>(class: FieldClassificationView, slot: SlotView<V>) -> bool {
    class is RepeatedAppend <==> slot is Many
}

/// The position of the first field at or after `from` whose setter has the
/// given name.
pub open spec fn setter_position_from(
    fields: Seq<ClassifiedFieldView>,
    setter: Seq<char>,
    from: int,
) -> Option<int>
    decreases fields.len() - from,
{
    if from >= fields.len() {
        None
    } else if fields[from].setter() == setter {
        Some(from)
    } else {
        setter_position_from(fields, setter, from + 1)
    }
}

/// The position of the field that a call of the setter `setter` reaches: the
/// first one, in declaration order, whose setter has that name.
pub open spec fn setter_position(fields: Seq<ClassifiedFieldView>, setter: Seq<char>) -> Option<
    int,
> {
    setter_position_from(fields, setter, 0)
}

/// What a slot holds after a call of its setter with `value`: the value in
/// place of what was set before, or the value appended to what was there.
pub open spec fn stored<V>(slot: SlotView<V>, value: V) -> SlotView<V> {
    match slot {
        SlotView::Single(_) => SlotView::Single(Some(value)),
        SlotView::Many(items) => SlotView::Many(items.push(value)),
    }
}

/// What a builder holds after a call of the setter `setter` with `value`.
/// A name that is no setter's leaves the builder as it was.
pub open spec fn after_call<V>(
    fields: Seq<ClassifiedFieldView>,
    slots: Seq<SlotView<V>>,
    setter: Seq<char>,
    value: V,
) -> Seq<SlotView<V>> {
    match setter_position(fields, setter) {
        Some(i) => slots.update(i, stored(slots[i], value)),
        None => slots,
    }
}

/// The value that a field is built with, or the message with which `build`
/// fails for it. A sequence is taken as it stands. A single value is required
/// where the field is plain and is taken as an option elsewhere.
pub open spec fn finalized<V>(field: ClassifiedFieldView, slot: SlotView<V>) -> Result<
    FieldValueView<V>,
    Seq<char>,
> {
    match slot {
        SlotView::Many(items) => Ok(FieldValueView::Repeated(items)),
        SlotView::Single(held) => match field.class {
            FieldClassificationView::Plain(_) => match held {
                Some(value) => Ok(FieldValueView::Required(value)),
                None => Err(missing_field_message(field.name)),
            },
            _ => Ok(FieldValueView::Optional(held)),
        },
    }
}

/// The position of the first field at or after `from` whose finalization
/// fails.
pub open spec fn first_missing_from<V>(
    fields: Seq<ClassifiedFieldView>,
    slots: Seq<SlotView<V>>,
    from: int,
) -> Option<int>
    decreases fields.len() - from,
{
    if from >= fields.len() {
        None
    } else if finalized(fields[from], slots[from]) is Err {
        Some(from)
    } else {
        first_missing_from(fields, slots, from + 1)
    }
}

/// What `build` returns: the values of all fields in declaration order, or
/// the message of the first field, in declaration order, whose finalization
/// fails.
pub open spec fn build_spec<V>(fields: Seq<ClassifiedFieldView>, slots: Seq<SlotView<V>>) -> Result<
    Seq<FieldValueView<V>>,
    Seq<char>,
> {
    match first_missing_from(fields, slots, 0) {
        Some(i) => Err(missing_field_message(fields[i].name)),
        None => Ok(Seq::new(fields.len(), |i: int| finalized(fields[i], slots[i])->Ok_0)),
    }
}

/// The view of what `build` returns.
pub open spec fn built_view<V>(r: Result<Vec<FieldValue<V>>, String>) -> Result<
    Seq<FieldValueView<V>>,
    Seq<char>,
> {
    match r {
        Ok(record) => Ok(value_views(record@)),
        Err(message) => Err(message@),
    }
}

/// A builder for the classified fields of a record.
pub struct Builder<V> {
    fields: Vec<ClassifiedField>,
    slots: Vec<Slot<V>>,
}

/// The view of [`Builder`].
pub struct BuilderView<V> {
    /// The fields that the builder was made for, in declaration order.
    pub fields: Seq<ClassifiedFieldView>,
    /// What the builder holds for each field.
    pub slots: Seq<SlotView<V>>,
}

impl<V> BuilderView<V> {
    /// There is one slot for each field, of the kind that the field's class
    /// asks for.
    pub open spec fn well_formed(self) -> bool {
        &&& self.slots.len() == self.fields.len()
        &&& forall|i: int|
            0 <= i < self.fields.len() ==> slot_fits(self.fields[i].class, #[trigger] self.slots[i])
    }
}

impl<V> View for Builder<V> {
    type V = BuilderView<V>;

    closed spec fn view(&self) -> BuilderView<V> {
        BuilderView { fields: classified_views(self.fields@), slots: slot_views(self.slots@) }
    }
}

/// The message with which `build` fails for a required field that was never
/// set.
pub fn missing_field(name: &str) -> (message: String)
    ensures
        message@ == missing_field_message(name@),
{
    let mut message = String::from_str("field \"");
    message.append(name);
    message.append("\" required, but not set yet.");
    message
}

/// The name of a field's setter.
fn setter_name(field: &ClassifiedField) -> (name: &String)
    ensures
        name@ == field@.setter(),
{
    match &field.class {
        FieldClassification::RepeatedAppend { each, .. } => each,
        _ => &field.name,
    }
}

/// Finds the first field whose setter has the given name.
fn position(fields: &Vec<ClassifiedField>, setter: &str) -> (found: Option<usize>)
    ensures
        found matches Some(i) ==> i < fields.len(),
        setter_position(classified_views(fields@), setter@) == match found {
            Some(i) => Some(i as int),
            None => None,
        },
{
    let ghost views = classified_views(fields@);
    let wanted = String::from_str(setter);
    let mut i: usize = 0;
    while i < fields.len()
        invariant
            0 <= i <= fields.len(),
            views == classified_views(fields@),
            wanted@ == setter@,
            setter_position(views, setter@) == setter_position_from(views, setter@, i as int),
        decreases fields.len() - i,
    {
        if *setter_name(&fields[i]) == wanted {
            return Some(i);
        }
        i += 1;
    }
    None
}

impl<V> Builder<V> {
    #[verifier::type_invariant]
    spec fn consistent(self) -> bool {
        self@.well_formed()
    }

    /// The builder of a record with the given fields, in its default state:
    /// nothing is set, and every sequence is empty.
    pub fn new(fields: Vec<ClassifiedField>) -> (builder: Self)
        ensures
            builder@.fields == classified_views(fields@),
            builder@.slots == initial_slots::<V>(classified_views(fields@)),
            builder@.well_formed(),
    {
        let ghost views = classified_views(fields@);
        let mut slots: Vec<Slot<V>> = Vec::new();
        let mut i: usize = 0;
        while i < fields.len()
            invariant
                0 <= i <= fields.len(),
                views == classified_views(fields@),
                slots.len() == i,
                forall|k: int|
                    0 <= k < i ==> (#[trigger] slots@[k])@ == empty_slot::<V>(views[k].class),
            decreases fields.len() - i,
        {
            match &fields[i].class {
                FieldClassification::RepeatedAppend { .. } => {
                    slots.push(Slot::Many(Vec::new()));
                },
                _ => {
                    slots.push(Slot::Single(None));
                },
            }
            i += 1;
        }
        Builder { fields, slots }
    }

    /// Calls the setter `setter` with `value` and gives the builder back.
    ///
    /// The call reaches the first field whose setter has that name. A plain
    /// or optional field is set to the value, in place of an earlier one; a
    /// sequence filled by appending gets the value at its end. No other field
    /// changes. A name that is no setter's leaves the builder as it was.
    pub fn call(self, setter: &str, value: V) -> (builder: Self)
        ensures
            builder@.fields == self@.fields,
            builder@.slots == after_call(self@.fields, self@.slots, setter@, value),
            builder@.well_formed(),
    {
        proof {
            use_type_invariant(&self);
        }
        let Builder { fields, slots } = self;
        let mut slots = slots;
        let ghost before = slot_views(slots@);
        match position(&fields, setter) {
            Some(i) => {
                let mut held = Slot::Single(None);
                slots.set_and_swap(i, &mut held);
                let updated = match held {
                    Slot::Single(_) => Slot::Single(Some(value)),
                    Slot::Many(items) => {
                        let mut items = items;
                        items.push(value);
                        Slot::Many(items)
                    },
                };
                slots.set(i, updated);
                assert(slot_views(slots@) == before.update(i as int, stored(before[i as int], value)));
            },
            None => {},
        }
        Builder { fields, slots }
    }

    /// Finalizes the fields in declaration order and returns their values.
    ///
    /// Fails at the first plain field that was never set, with the message
    /// `field "<name>" required, but not set yet.` for the name of that
    /// field. An optional field that was never set is built as `None`, and a
    /// sequence that nothing was appended to as the empty sequence.
    pub fn build(self) -> (r: Result<Vec<FieldValue<V>>, String>)
        ensures
            built_view(r) == build_spec(self@.fields, self@.slots),
    {
        proof {
            use_type_invariant(&self);
        }
        let Builder { fields, slots } = self;
        let mut slots = slots;
        let ghost views = classified_views(fields@);
        let ghost held_at_entry = slot_views(slots@);
        let mut record: Vec<FieldValue<V>> = Vec::new();
        let mut i: usize = 0;
        while i < fields.len()
            invariant
                0 <= i <= fields.len(),
                views == classified_views(fields@),
                self@.fields == views,
                self@.slots == held_at_entry,
                slots.len() == fields.len(),
                held_at_entry.len() == fields.len(),
                forall|k: int|
                    i <= k < fields.len() ==> (#[trigger] slots@[k])@ == held_at_entry[k],
                first_missing_from(views, held_at_entry, 0) == first_missing_from(
                    views,
                    held_at_entry,
                    i as int,
                ),
                record.len() == i,
                forall|k: int|
                    0 <= k < i ==> finalized(views[k], held_at_entry[k]) == Ok::<
                        FieldValueView<V>,
                        Seq<char>,
                    >((#[trigger] record@[k])@),
            decreases fields.len() - i,
        {
            let mut held = Slot::Single(None);
            slots.set_and_swap(i, &mut held);
            match held {
                Slot::Many(items) => {
                    record.push(FieldValue::Repeated(items));
                },
                Slot::Single(value) => {
                    match &fields[i].class {
                        FieldClassification::Plain(_) => {
                            match value {
                                Some(value) => {
                                    record.push(FieldValue::Required(value));
                                },
                                None => {
                                    return Err(missing_field(fields[i].name.as_str()));
                                },
                            }
                        },
                        _ => {
                            record.push(FieldValue::Optional(value));
                        },
                    }
                },
            }
            i += 1;
        }
        assert(value_views(record@) == Seq::new(
            views.len(),
            |i: int| finalized(views[i], held_at_entry[i])->Ok_0,
        ));
        Ok(record)
    }
}

} // verus!
