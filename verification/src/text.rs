use vstd::prelude::*;

verus! {

/// The characters of a string that may be absent.
pub open spec fn text_of(named: Option<String>) -> Option<Seq<char>> {
    match named {
        Some(text) => Some(text@),
        None => None,
    }
}

/// A copy of `text`.
pub fn copy_of(text: &String) -> (copy: String)
    ensures
        copy@ == text@,
{
    text.clone()
}

/// A copy of `named`.
pub fn copy_of_named(named: &Option<String>) -> (copy: Option<String>)
    ensures
        text_of(copy) == text_of(*named),
{
    match named {
        Some(text) => Some(text.clone()),
        None => None,
    }
}

/// The string that `named` holds, or a copy of `fallback` where it holds none.
pub fn named_or_copy(named: Option<String>, fallback: &String) -> (chosen: String)
    ensures
        chosen@ == (match text_of(named) {
            Some(text) => text,
            None => fallback@,
        }),
{
    match named {
        Some(text) => text,
        None => fallback.clone(),
    }
}

} // verus!
