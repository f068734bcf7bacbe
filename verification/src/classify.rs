//! The component classifier: a declared name is a component candidate
//! exactly when its first character is an uppercase letter.

use vstd::prelude::*;

verus! {

/// What `char::is_uppercase` returns: a property of the character alone.
pub uninterp spec fn char_is_upper(c: char) -> bool;

/// Relies on `char::is_uppercase`: the Unicode uppercase property, which on
/// ASCII holds exactly of the letters `A` through `Z`.
#[verifier::external_body]
fn is_uppercase_char(c: char) -> (r: bool)
    ensures
        r == char_is_upper(c),
        (c as u32) < 128 ==> (r <==> (65 <= (c as u32) && (c as u32) <= 90)),
{
    c.is_uppercase()
}

/// A name is a component name when it is nonempty and starts uppercase.
pub open spec fn component_name(name: Seq<char>) -> bool {
    name.len() > 0 && char_is_upper(name[0])
}

/// Decides whether a declared name follows the UI-component convention
/// of a capitalized identifier.
pub fn is_component_name(name: &str) -> (r: bool)
    ensures
        r == component_name(name@),
{
    let len = name.unicode_len();
    if len == 0 {
        false
    } else {
        is_uppercase_char(name.get_char(0))
    }
}

} // verus!
