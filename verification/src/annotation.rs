//! Reading the one annotation that this crate understands:
//! `builder(each = "name")`, which renames a sequence field's setter and makes
//! it append one element per call.
//!
//! Annotations under any other key are passed over. An annotation keyed
//! `builder` must have exactly this form, and a field may carry one at most.

use vstd::prelude::*;
use crate::descriptor::{
    annotation_views, Annotation, AnnotationBody, AnnotationBodyView, AnnotationView, Entry,
    EntryView,
};
use crate::error::AnnotationShapeError;
use crate::identifier::{is_identifier, is_identifier_spec};
use crate::views::some_view;

verus! {

/// Whether the annotation is one of those that this crate reads.
pub open spec fn is_builder_keyed(annotation: AnnotationView) -> bool {
    annotation.key == "builder"@
}

/// The string bound to `each`, where the body is a list of that one entry.
pub open spec fn each_literal(body: AnnotationBodyView) -> Option<Seq<char>> {
    match body {
        AnnotationBodyView::List(entries) => if entries.len() == 1 {
            match entries[0] {
                EntryView::StringValue { key, value } => if key == "each"@ {
                    Some(value)
                } else {
                    None
                },
                _ => None,
            }
        } else {
            None
        },
        _ => None,
    }
}

/// The setter name that the body of an annotation keyed `builder` gives, or
/// `None` where the body is not of the accepted form: a list of one entry,
/// which binds `each` to a string that is an identifier.
pub open spec fn rename_of(body: AnnotationBodyView) -> Option<Seq<char>> {
    match each_literal(body) {
        Some(value) => if is_identifier_spec(value) {
            Some(value)
        } else {
            None
        },
        None => None,
    }
}

/// The positions below `end` of the annotations keyed `builder`, ascending.
pub open spec fn keyed_below(annotations: Seq<AnnotationView>, end: int) -> Seq<int>
    decreases end,
{
    if end <= 0 {
        Seq::empty()
    } else {
        let earlier = keyed_below(annotations, end - 1);
        if is_builder_keyed(annotations[end - 1]) {
            earlier.push(end - 1)
        } else {
            earlier
        }
    }
}

/// What the lookup returns for a field whose first annotation keyed
/// `builder` stands at `first` and gives `rename`, and whose second one, if
/// there is any, stands at `second`. The first one must be of the accepted
/// form, and there must be no second one.
pub open spec fn rename_decision(
    first: usize,
    rename: Option<Seq<char>>,
    second: Option<usize>,
) -> Result<Option<Seq<char>>, AnnotationShapeError> {
    if rename is None {
        Err(AnnotationShapeError { annotation: first })
    } else {
        match second {
            Some(surplus) => Err(AnnotationShapeError { annotation: surplus }),
            None => Ok(rename),
        }
    }
}

/// The position of the first annotation keyed `builder`, if there is any.
pub open spec fn first_keyed(annotations: Seq<AnnotationView>) -> Option<usize> {
    let keyed = keyed_below(annotations, annotations.len() as int);
    if keyed.len() >= 1 {
        Some(keyed[0] as usize)
    } else {
        None
    }
}

/// The position of the second annotation keyed `builder`, if there is any.
pub open spec fn second_keyed(annotations: Seq<AnnotationView>) -> Option<usize> {
    let keyed = keyed_below(annotations, annotations.len() as int);
    if keyed.len() >= 2 {
        Some(keyed[1] as usize)
    } else {
        None
    }
}

/// What a field's annotations say about its setter.
///
/// With no annotation keyed `builder` there is no rename. With exactly one,
/// of the accepted form, the rename is the name it gives. Otherwise the
/// lookup fails, at the first annotation keyed `builder` if that one is not of
/// the accepted form, and at the second one keyed `builder` if it is.
pub open spec fn find_each_spec(annotations: Seq<AnnotationView>) -> Result<
    Option<Seq<char>>,
    AnnotationShapeError,
> {
    match first_keyed(annotations) {
        Some(first) => rename_decision(
            first,
            rename_of(annotations[first as int].body),
            second_keyed(annotations),
        ),
        None => Ok(None),
    }
}

/// The view of what the lookup returns.
pub open spec fn rename_view(r: Result<Option<String>, AnnotationShapeError>) -> Result<
    Option<Seq<char>>,
    AnnotationShapeError,
> {
    match r {
        Ok(name) => Ok(some_view(name)),
        Err(e) => Err(e),
    }
}

/// The positions found stay where they are when the search goes further.
proof fn lemma_keyed_below_extends(annotations: Seq<AnnotationView>, end: int, further: int)
    requires
        0 <= end <= further,
    ensures
        keyed_below(annotations, end).len() <= keyed_below(annotations, further).len(),
        forall|k: int|
            0 <= k < keyed_below(annotations, end).len() ==> keyed_below(annotations, further)[k]
                == keyed_below(annotations, end)[k],
    decreases further - end,
{
    if end < further {
        lemma_keyed_below_extends(annotations, end, further - 1);
    }
}

/// Reads the string bound to `each` from a body that is a list of that one
/// entry.
pub fn each_value(body: &AnnotationBody) -> (value: Option<&String>)
    ensures
        some_view(value) == each_literal(body@),
{
    match body {
        AnnotationBody::List(entries) => {
            if entries.len() != 1 {
                return None;
            }
            match &entries[0] {
                Entry::StringValue { key, value } => {
                    if *key == String::from_str("each") {
                        Some(value)
                    } else {
                        None
                    }
                },
                _ => None,
            }
        },
        _ => None,
    }
}

/// Reads the setter name from the body of an annotation keyed `builder`, if
/// the body is of the accepted form.
pub fn body_rename(body: &AnnotationBody) -> (name: Option<String>)
    ensures
        some_view(name) == rename_of(body@),
{
    match each_value(body) {
        Some(value) => {
            if is_identifier(value.as_str()) {
                Some(value.clone())
            } else {
                None
            }
        },
        None => None,
    }
}

/// Finds the first two annotations keyed `builder`.
pub fn first_two_keyed(attrs: &[Annotation]) -> (found: (Option<usize>, Option<usize>))
    ensures
        found.0 == first_keyed(annotation_views(attrs@)),
        found.1 == second_keyed(annotation_views(attrs@)),
        found.0 matches Some(first) ==> first < attrs.len(),
{
    let ghost annotations = annotation_views(attrs@);
    let builder = String::from_str("builder");
    let mut first: Option<usize> = None;
    let mut i: usize = 0;
    while i < attrs.len()
        invariant
            0 <= i <= attrs.len(),
            annotations == annotation_views(attrs@),
            builder@ == "builder"@,
            first is None ==> keyed_below(annotations, i as int).len() == 0,
            first matches Some(at) ==> {
                &&& at < i
                &&& keyed_below(annotations, i as int).len() == 1
                &&& keyed_below(annotations, i as int)[0] == at
            },
        decreases attrs.len() - i,
    {
        if attrs[i].key == builder {
            proof {
                lemma_keyed_below_extends(annotations, i + 1, annotations.len() as int);
            }
            if first.is_some() {
                return (first, Some(i));
            }
            first = Some(i);
        }
        i += 1;
    }
    (first, None)
}

/// Decides what the lookup returns, from the positions of the first two
/// annotations keyed `builder` and the rename that the first one gives.
pub fn decide_rename(first: usize, rename: Option<String>, second: Option<usize>) -> (r: Result<
    Option<String>,
    AnnotationShapeError,
>)
    ensures
        rename_view(r) == rename_decision(first, some_view(rename), second),
{
    if rename.is_none() {
        return Err(AnnotationShapeError { annotation: first });
    }
    match second {
        Some(surplus) => Err(AnnotationShapeError { annotation: surplus }),
        None => Ok(rename),
    }
}

/// Looks among a field's annotations for the rename of its setter.
///
/// Returns `Ok(None)` where no annotation is keyed `builder`, the name where
/// exactly one is and has the form `builder(each = "name")`, and an error
/// anchored at the offending annotation in every other case.
pub fn find_each_in_attrs(attrs: &[Annotation]) -> (r: Result<
    Option<String>,
    AnnotationShapeError,
>)
    ensures
        rename_view(r) == find_each_spec(annotation_views(attrs@)),
{
    let (first, second) = first_two_keyed(attrs);
    match first {
        Some(at) => {
            decide_rename(at, body_rename(&attrs[at].body), second)
        },
        None => Ok(None),
    }
}

} // verus!
