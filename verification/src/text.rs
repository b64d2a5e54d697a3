//! What the library assumes of the methods of `String` that it edits texts
//! with.

use vstd::prelude::*;

verus! {

/// `String::push` appends the character to the end of the string.
pub assume_specification[ String::push ](text: &mut String, ch: char)
    ensures
        final(text)@ == old(text)@.push(ch),
;

/// `String::pop` removes the last character and returns it, or returns
/// `None` and leaves the string as it is where the string is empty.
pub assume_specification[ String::pop ](text: &mut String) -> (last: Option<char>)
    ensures
        match last {
            Some(ch) => old(text)@.len() > 0 && ch == old(text)@.last() && final(text)@ == old(
                text,
            )@.drop_last(),
            None => old(text)@.len() == 0 && final(text)@ == old(text)@,
        },
;

/// The upper case form that `str::to_uppercase` gives a text.
pub uninterp spec fn uppercase_of(text: Seq<char>) -> Seq<char>;

/// `str::to_uppercase` returns the upper case form of the text as a new
/// string.
pub assume_specification[ str::to_uppercase ](text: &str) -> (upper: String)
    ensures
        upper@ == uppercase_of(text@),
;

} // verus!
