//! Character classes used by the field validators.
//!
//! The ASCII classes are fully specified here. The three Unicode character
//! properties that the validators consult (`Uppercase`, `Lowercase`,
//! `White_Space`) are taken from `std`'s `char` methods through trusted
//! specifications, under the names [`unicode_uppercase`], [`unicode_lowercase`]
//! and [`unicode_whitespace`].

use vstd::prelude::*;

verus! {

/// An ASCII decimal digit, `'0'` through `'9'`.
pub open spec fn spec_is_digit(c: char) -> bool {
    '0' <= c && c <= '9'
}

/// An ASCII letter, `'a'`-`'z'` or `'A'`-`'Z'`.
pub open spec fn spec_is_ascii_letter(c: char) -> bool {
    ('a' <= c && c <= 'z') || ('A' <= c && c <= 'Z')
}

/// Whether `c` has the Unicode `Uppercase` property, as decided by
/// `char::is_uppercase`.
pub uninterp spec fn unicode_uppercase(c: char) -> bool;

/// Whether `c` has the Unicode `Lowercase` property, as decided by
/// `char::is_lowercase`.
pub uninterp spec fn unicode_lowercase(c: char) -> bool;

/// Whether `c` has the Unicode `White_Space` property, as decided by
/// `char::is_whitespace`.
pub uninterp spec fn unicode_whitespace(c: char) -> bool;

/// Relies on `char::is_uppercase`: whether the character has the Unicode
/// `Uppercase` property. Its documentation states that ASCII capital letters
/// have the property while ASCII small letters and digits do not.
pub assume_specification[ char::is_uppercase ](c: char) -> (r: bool)
    ensures
        r == unicode_uppercase(c),
        'A' <= c && c <= 'Z' ==> r,
        'a' <= c && c <= 'z' ==> !r,
        '0' <= c && c <= '9' ==> !r,
;

/// Relies on `char::is_lowercase`: whether the character has the Unicode
/// `Lowercase` property. Its documentation states that ASCII small letters
/// have the property while ASCII capital letters and digits do not.
pub assume_specification[ char::is_lowercase ](c: char) -> (r: bool)
    ensures
        r == unicode_lowercase(c),
        'a' <= c && c <= 'z' ==> r,
        'A' <= c && c <= 'Z' ==> !r,
        '0' <= c && c <= '9' ==> !r,
;

/// Relies on `char::is_whitespace`: whether the character has the Unicode
/// `White_Space` property. Its documentation states that the space character
/// has the property while letters and digits do not.
pub assume_specification[ char::is_whitespace ](c: char) -> (r: bool)
    ensures
        r == unicode_whitespace(c),
        c == ' ' ==> r,
        spec_is_ascii_letter(c) || spec_is_digit(c) ==> !r,
;

/// Executable check for [`spec_is_digit`].
pub fn is_digit_char(c: char) -> (r: bool)
    ensures
        r == spec_is_digit(c),
{
    '0' <= c && c <= '9'
}

/// Executable check for [`spec_is_ascii_letter`].
pub fn is_ascii_letter_char(c: char) -> (r: bool)
    ensures
        r == spec_is_ascii_letter(c),
{
    ('a' <= c && c <= 'z') || ('A' <= c && c <= 'Z')
}

} // verus!
