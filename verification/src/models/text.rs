use vstd::prelude::*;

verus! {

/// What a text field that may be absent holds.
pub open spec fn optional_text(field: Option<String>) -> Option<Seq<char>> {
    match field {
        Some(text) => Some(text@),
        None => None,
    }
}

/// Copies a text field that may be absent.
pub fn clone_optional_text(field: &Option<String>) -> (copy: Option<String>)
    ensures
        optional_text(copy) == optional_text(*field),
{
    match field {
        Some(text) => Some(text.clone()),
        None => None,
    }
}

} // verus!
