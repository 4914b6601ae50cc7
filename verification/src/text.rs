//! Strings as the contracts see them.

use vstd::prelude::*;
use vstd::string::StringExecFns;

verus! {

/// The model of an optional owned string.
pub open spec fn text_view(text: Option<String>) -> Option<Seq<char>> {
    match text {
        Some(s) => Some(s@),
        None => None,
    }
}

/// The model of an optional borrowed string.
pub open spec fn str_view(text: Option<&str>) -> Option<Seq<char>> {
    match text {
        Some(s) => Some(s@),
        None => None,
    }
}

/// The models of a run of strings, in order.
pub open spec fn texts(strings: Seq<String>) -> Seq<Seq<char>> {
    Seq::new(strings.len(), |i: int| strings[i]@)
}

/// An owned copy of an optional borrowed string.
pub(crate) fn owned_text(text: Option<&str>) -> (copy: Option<String>)
    ensures
        text_view(copy) == str_view(text),
{
    match text {
        Some(s) => Some(String::from_str(s)),
        None => None,
    }
}

/// A copy of an optional string.
pub(crate) fn copied_text(text: &Option<String>) -> (copy: Option<String>)
    ensures
        text_view(copy) == text_view(*text),
{
    match text {
        Some(s) => Some(s.clone()),
        None => None,
    }
}

/// Whether `wanted` is among the first `end` entries of `list`.
pub(crate) fn occurs_before(list: &Vec<String>, end: usize, wanted: &String) -> (seen: bool)
    requires
        end <= list.len(),
    ensures
        seen == texts(list@).take(end as int).contains(wanted@),
{
    let ghost earlier = texts(list@).take(end as int);
    let mut i: usize = 0;
    while i < end
        invariant
            i <= end <= list.len(),
            earlier == texts(list@).take(end as int),
            forall|k: int| 0 <= k < i ==> earlier[k] != wanted@,
        decreases end - i,
    {
        if list[i] == *wanted {
            assert(earlier[i as int] == wanted@);
            return true;
        }
        i += 1;
    }
    false
}

/// Whether `wanted` is an entry of `list`.
pub(crate) fn occurs_in(list: &Vec<String>, wanted: &String) -> (seen: bool)
    ensures
        seen == texts(list@).contains(wanted@),
{
    assert(texts(list@).take(list.len() as int) =~= texts(list@));
    occurs_before(list, list.len(), wanted)
}

} // verus!
