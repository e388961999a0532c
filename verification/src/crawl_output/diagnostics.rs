//! Collecting the objects a run uploaded.
use vstd::prelude::*;

verus! {

/// The elements of an optional value: none or one.
pub open spec fn optional_seq<T>(o: Option<T>) -> Seq<T> {
    match o {
        Some(x) => seq![x],
        None => seq![],
    }
}

/// Adds an uploaded object to the list, when there is one.
pub fn push_optional_object<T>(uploaded_objects: &mut Vec<T>, object: Option<T>)
    ensures
        final(uploaded_objects)@ == old(uploaded_objects)@ + optional_seq(object),
{
    match object {
        Some(object) => {
            uploaded_objects.push(object);
        },
        None => {},
    }
    assert(uploaded_objects@ =~= old(uploaded_objects)@ + optional_seq(object));
}

} // verus!
