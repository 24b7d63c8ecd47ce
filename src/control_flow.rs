use vstd::prelude::*;

verus! {

/// Text shown in the heading when no name has been entered.
pub open spec fn empty_name_text() -> Seq<char> {
    "Name is empty"@
}

/// Text of the heading for a given name.
pub open spec fn heading_spec(name: Seq<char>) -> Seq<char> {
    if name.len() > 0 {
        name
    } else {
        empty_name_text()
    }
}

/// New visibility after the toggle button is clicked: a shown item is
/// hidden and a hidden one is shown.
pub fn toggled(visible: bool) -> (r: bool)
    ensures
        r == !visible,
{
    if visible {
        false
    } else {
        true
    }
}

/// The selector behind the heading: whether a name has been entered.
pub fn has_name(name: &str) -> (r: bool)
    ensures
        r == (name@.len() > 0),
{
    !name.is_empty()
}

/// The heading text: the name itself once one is entered, otherwise a
/// placeholder.
pub fn heading_text(name: &str) -> (r: String)
    ensures
        r@ == heading_spec(name@),
{
    if has_name(name) {
        String::from_str(name)
    } else {
        String::from_str("Name is empty")
    }
}

} // verus!
