//! Comparisons on names and labels.

use vstd::prelude::*;
use vstd::string::*;

verus! {

/// The reserved collection name that always designates the daemon's default
/// collection, whatever that collection's label is.
pub open spec fn default_name() -> Seq<char> {
    "default"@
}

/// An ASCII capital letter mapped to its small letter; any other character
/// is left alone.
pub open spec fn ascii_lower(c: char) -> char {
    if 'A' <= c && c <= 'Z' {
        ((c as u32) + 32) as char
    } else {
        c
    }
}

/// `s` with every ASCII capital letter replaced by its small letter.
pub open spec fn ascii_lowered(s: Seq<char>) -> Seq<char> {
    Seq::new(s.len(), |i: int| ascii_lower(s[i]))
}

/// The text of an optional string.
pub open spec fn optional_text(text: Option<String>) -> Option<Seq<char>> {
    match text {
        Some(text) => Some(text@),
        None => None,
    }
}

/// The text of an optional string slice.
pub open spec fn optional_str(text: Option<&str>) -> Option<Seq<char>> {
    match text {
        Some(text) => Some(text@),
        None => None,
    }
}

/// Whether two strings hold the same characters.
pub fn same_text(a: &str, b: &str) -> (same: bool)
    ensures
        same == (a@ == b@),
{
    let left = a.to_owned();
    let right = b.to_owned();
    left == right
}

/// Whether `name` is exactly the reserved name `default`.
pub fn is_default(name: &str) -> (yes: bool)
    ensures
        yes == (name@ == default_name()),
{
    same_text(name, "default")
}

/// Whether `name` is the reserved name `default` once ASCII capital letters
/// are read as small ones (`Default` and `DEFAULT` qualify).
pub fn is_default_ignoring_case(name: &str) -> (yes: bool)
    ensures
        yes == (ascii_lowered(name@) == default_name()),
{
    proof {
        reveal_strlit("default");
    }
    let reserved = "default";
    if name.unicode_len() != 7 {
        return false;
    }
    let mut i: usize = 0;
    while i < 7
        invariant
            i <= 7,
            name@.len() == 7,
            reserved@ == default_name(),
            default_name().len() == 7,
            forall|j: int| 0 <= j < i ==> ascii_lower(name@[j]) == default_name()[j],
        decreases 7 - i,
    {
        if lower(name.get_char(i)) != reserved.get_char(i) {
            return false;
        }
        i += 1;
    }
    assert(ascii_lowered(name@) =~= default_name());
    true
}

fn lower(c: char) -> (l: char)
    ensures
        l == ascii_lower(c),
{
    if 'A' <= c && c <= 'Z' {
        let code: u8 = c as u8;
        (code + 32) as char
    } else {
        c
    }
}

} // verus!
