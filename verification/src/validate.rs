//! Field validators.
//!
//! Each validator is a total function on one string input: it returns `Ok`
//! exactly on the inputs that satisfy its rule, and otherwise a
//! [`AppError::ValidationError`] carrying one specific message. Checks are
//! ordered — length before character set before structure — so the first
//! violated rule determines the message.

use vstd::prelude::*;
use vstd::string::StrSliceExecFns;
use vstd::string::StringExecFns;
use vstd::string::StringSliceAdditionalSpecFns;

use crate::chars::is_ascii_letter_char;
use crate::chars::is_digit_char;
use crate::chars::spec_is_ascii_letter;
use crate::chars::spec_is_digit;
use crate::chars::unicode_lowercase;
use crate::chars::unicode_uppercase;
use crate::chars::unicode_whitespace;
use crate::error::AppError;
use crate::error::is_validation_err;

verus! {

/// Some character of `s` is an ASCII digit.
pub open spec fn has_digit(s: Seq<char>) -> bool {
    exists|i: int| 0 <= i < s.len() && spec_is_digit(s[i])
}

/// Some character of `s` has the Unicode `Uppercase` property.
pub open spec fn has_uppercase(s: Seq<char>) -> bool {
    exists|i: int| 0 <= i < s.len() && unicode_uppercase(s[i])
}

/// Some character of `s` has the Unicode `Lowercase` property.
pub open spec fn has_lowercase(s: Seq<char>) -> bool {
    exists|i: int| 0 <= i < s.len() && unicode_lowercase(s[i])
}

/// A password is strong when it is at least 8 bytes long and contains an
/// ASCII digit, an uppercase letter and a lowercase letter.
pub open spec fn password_strong(password: &str) -> bool {
    &&& password.spec_bytes().len() >= 8
    &&& has_digit(password@)
    &&& has_uppercase(password@)
    &&& has_lowercase(password@)
}

/// Byte length of `s` (validator length limits count bytes, as `str::len`
/// does).
pub(crate) fn byte_len(s: &str) -> (r: usize)
    ensures
        r == s.spec_bytes().len(),
{
    s.as_bytes().len()
}

fn contains_digit(s: &str) -> (r: bool)
    ensures
        r == has_digit(s@),
{
    let n = s.unicode_len();
    for i in 0..n
        invariant
            n == s@.len(),
            forall|j: int| 0 <= j < i ==> !spec_is_digit(s@[j]),
    {
        if is_digit_char(s.get_char(i)) {
            assert(spec_is_digit(s@[i as int]));
            return true;
        }
    }
    false
}

fn contains_uppercase(s: &str) -> (r: bool)
    ensures
        r == has_uppercase(s@),
{
    let n = s.unicode_len();
    for i in 0..n
        invariant
            n == s@.len(),
            forall|j: int| 0 <= j < i ==> !unicode_uppercase(s@[j]),
    {
        if s.get_char(i).is_uppercase() {
            assert(unicode_uppercase(s@[i as int]));
            return true;
        }
    }
    false
}

fn contains_lowercase(s: &str) -> (r: bool)
    ensures
        r == has_lowercase(s@),
{
    let n = s.unicode_len();
    for i in 0..n
        invariant
            n == s@.len(),
            forall|j: int| 0 <= j < i ==> !unicode_lowercase(s@[j]),
    {
        if s.get_char(i).is_lowercase() {
            assert(unicode_lowercase(s@[i as int]));
            return true;
        }
    }
    false
}

/// Validates password strength: at least 8 bytes, with at least one ASCII
/// digit, one uppercase letter and one lowercase letter. The first violated
/// rule, in that order, determines the reported message.
pub fn validate_password(password: &str) -> (r: Result<(), AppError>)
    ensures
        r is Ok <==> password_strong(password),
        password.spec_bytes().len() < 8 ==> is_validation_err(
            r,
            "Password must be at least 8 characters long"@,
        ),
        password.spec_bytes().len() >= 8 && !has_digit(password@) ==> is_validation_err(
            r,
            "Password must contain at least one digit"@,
        ),
        password.spec_bytes().len() >= 8 && has_digit(password@) && !has_uppercase(password@)
            ==> is_validation_err(r, "Password must contain at least one uppercase letter"@),
        password.spec_bytes().len() >= 8 && has_digit(password@) && has_uppercase(password@)
            && !has_lowercase(password@) ==> is_validation_err(
            r,
            "Password must contain at least one lowercase letter"@,
        ),
{
    if byte_len(password) < 8 {
        return Err(
            AppError::ValidationError(
                String::from_str("Password must be at least 8 characters long"),
            ),
        );
    }
    if !contains_digit(password) {
        return Err(
            AppError::ValidationError(String::from_str("Password must contain at least one digit")),
        );
    }
    if !contains_uppercase(password) {
        return Err(
            AppError::ValidationError(
                String::from_str("Password must contain at least one uppercase letter"),
            ),
        );
    }
    if !contains_lowercase(password) {
        return Err(
            AppError::ValidationError(
                String::from_str("Password must contain at least one lowercase letter"),
            ),
        );
    }
    Ok(())
}

/// A character permitted in a username: ASCII letter, digit, underscore or
/// dot.
pub open spec fn spec_is_username_char(c: char) -> bool {
    spec_is_ascii_letter(c) || spec_is_digit(c) || c == '_' || c == '.'
}

/// Every character of `s` is permitted in a username.
pub open spec fn all_username_chars(s: Seq<char>) -> bool {
    forall|i: int| 0 <= i < s.len() ==> spec_is_username_char(s[i])
}

fn check_username_chars(s: &str) -> (r: bool)
    ensures
        r == all_username_chars(s@),
{
    let n = s.unicode_len();
    for i in 0..n
        invariant
            n == s@.len(),
            forall|j: int| 0 <= j < i ==> spec_is_username_char(s@[j]),
    {
        let c = s.get_char(i);
        if !(is_ascii_letter_char(c) || is_digit_char(c) || c == '_' || c == '.') {
            assert(!spec_is_username_char(s@[i as int]));
            return false;
        }
    }
    true
}

/// Validates a username: between 3 and 50 bytes, drawn from ASCII letters,
/// digits, underscores and dots. Length is checked before the character set,
/// so the first violated rule determines the message.
pub fn validate_username(username: &str) -> (r: Result<(), AppError>)
    ensures
        r is Ok <==> (3 <= username.spec_bytes().len() <= 50 && all_username_chars(username@)),
        username.spec_bytes().len() < 3 ==> is_validation_err(
            r,
            "Username must be at least 3 characters long"@,
        ),
        username.spec_bytes().len() > 50 ==> is_validation_err(
            r,
            "Username is too long (max 50 characters)"@,
        ),
        3 <= username.spec_bytes().len() <= 50 && !all_username_chars(username@)
            ==> is_validation_err(
            r,
            "Username can only contain letters, numbers, underscores and dots"@,
        ),
{
    if byte_len(username) < 3 {
        return Err(
            AppError::ValidationError(
                String::from_str("Username must be at least 3 characters long"),
            ),
        );
    }
    if byte_len(username) > 50 {
        return Err(
            AppError::ValidationError(String::from_str("Username is too long (max 50 characters)")),
        );
    }
    if !check_username_chars(username) {
        return Err(
            AppError::ValidationError(
                String::from_str("Username can only contain letters, numbers, underscores and dots"),
            ),
        );
    }
    Ok(())
}

/// A character permitted in a phone number, besides an optional leading
/// plus: ASCII digit, space or hyphen.
pub open spec fn spec_is_phone_char(c: char) -> bool {
    spec_is_digit(c) || c == ' ' || c == '-'
}

/// The phone number without its optional leading `'+'`.
pub open spec fn phone_body(s: Seq<char>) -> Seq<char> {
    if s.len() > 0 && s[0] == '+' {
        s.skip(1)
    } else {
        s
    }
}

/// The phone pattern: an optional leading `'+'` followed by 6 to 20
/// characters drawn from digits, spaces and hyphens.
pub open spec fn phone_format_ok(s: Seq<char>) -> bool {
    &&& 6 <= phone_body(s).len() <= 20
    &&& forall|i: int| 0 <= i < phone_body(s).len() ==> spec_is_phone_char(phone_body(s)[i])
}

/// How many characters of `s` are ASCII digits.
pub open spec fn digit_count(s: Seq<char>) -> nat
    decreases s.len(),
{
    if s.len() == 0 {
        0
    } else {
        digit_count(s.drop_last()) + if spec_is_digit(s.last()) {
            1nat
        } else {
            0nat
        }
    }
}

fn check_phone_format(s: &str) -> (r: bool)
    ensures
        r == phone_format_ok(s@),
{
    let n = s.unicode_len();
    let start: usize = if n > 0 && s.get_char(0) == '+' {
        1
    } else {
        0
    };
    assert(phone_body(s@) =~= s@.skip(start as int));
    if n - start < 6 || n - start > 20 {
        return false;
    }
    for i in start..n
        invariant
            n == s@.len(),
            start <= i,
            start == 0 || start == 1,
            phone_body(s@) =~= s@.skip(start as int),
            forall|j: int| start <= j < i ==> spec_is_phone_char(s@[j]),
    {
        let c = s.get_char(i);
        if !(is_digit_char(c) || c == ' ' || c == '-') {
            proof {
                assert(phone_body(s@) =~= s@.skip(start as int));
                assert(phone_body(s@)[i - start as int] == s@[i as int]);
                assert(!spec_is_phone_char(phone_body(s@)[i - start as int]));
            }
            return false;
        }
    }
    assert forall|i: int| 0 <= i < phone_body(s@).len() implies spec_is_phone_char(
        phone_body(s@)[i],
    ) by {
        assert(phone_body(s@)[i] == s@[i + start]);
    }
    true
}

fn count_digits(s: &str) -> (r: usize)
    ensures
        r == digit_count(s@),
{
    let n = s.unicode_len();
    let mut cnt: usize = 0;
    for i in 0..n
        invariant
            n == s@.len(),
            cnt == digit_count(s@.take(i as int)),
            cnt <= i,
    {
        assert(s@.take(i + 1).drop_last() == s@.take(i as int));
        assert(s@.take(i + 1).last() == s@[i as int]);
        if is_digit_char(s.get_char(i)) {
            cnt = cnt + 1;
        }
    }
    assert(s@.take(n as int) == s@);
    cnt
}

/// Validates a phone number: the pattern (optional `'+'`, then 6 to 20
/// digits, spaces or hyphens) is checked first, then — independently — that
/// the string contains at least 6 digit characters.
pub fn validate_phone_number(phone: &str) -> (r: Result<(), AppError>)
    ensures
        r is Ok <==> (phone_format_ok(phone@) && digit_count(phone@) >= 6),
        !phone_format_ok(phone@) ==> is_validation_err(
            r,
            "Invalid phone number format. Use only digits, spaces, hyphens, and optionally a + prefix"@,
        ),
        phone_format_ok(phone@) && digit_count(phone@) < 6 ==> is_validation_err(
            r,
            "Phone number must contain at least 6 digits"@,
        ),
{
    if !check_phone_format(phone) {
        return Err(
            AppError::ValidationError(
                String::from_str(
                    "Invalid phone number format. Use only digits, spaces, hyphens, and optionally a + prefix",
                ),
            ),
        );
    }
    if count_digits(phone) < 6 {
        return Err(
            AppError::ValidationError(
                String::from_str("Phone number must contain at least 6 digits"),
            ),
        );
    }
    Ok(())
}

/// A letter of the fixed Polish-diacritic set the full-name validator
/// accepts: a/c/e/n/o/s/z with ogonek, acute, stroke or dot accents, in both
/// cases. The validator is deliberately not a general Unicode name
/// validator.
pub open spec fn spec_is_polish_letter(c: char) -> bool {
    ||| c == '\u{105}'  // a with ogonek
    ||| c == '\u{107}'  // c with acute
    ||| c == '\u{119}'  // e with ogonek
    ||| c == '\u{142}'  // l with stroke
    ||| c == '\u{144}'  // n with acute
    ||| c == '\u{f3}'  // o with acute
    ||| c == '\u{15b}'  // s with acute
    ||| c == '\u{17a}'  // z with acute
    ||| c == '\u{17c}'  // z with dot above
    ||| c == '\u{104}'  // A with ogonek
    ||| c == '\u{106}'  // C with acute
    ||| c == '\u{118}'  // E with ogonek
    ||| c == '\u{141}'  // L with stroke
    ||| c == '\u{143}'  // N with acute
    ||| c == '\u{d3}'  // O with acute
    ||| c == '\u{15a}'  // S with acute
    ||| c == '\u{179}'  // Z with acute
    ||| c == '\u{17b}'  // Z with dot above

}

/// A character permitted in a full name: Latin letter (ASCII or the fixed
/// Polish set), space, hyphen or apostrophe.
pub open spec fn spec_is_name_char(c: char) -> bool {
    spec_is_ascii_letter(c) || spec_is_polish_letter(c) || c == ' ' || c == '-' || c == '\''
}

/// Every character of `s` is permitted in a full name.
pub open spec fn all_name_chars(s: Seq<char>) -> bool {
    forall|i: int| 0 <= i < s.len() ==> spec_is_name_char(s[i])
}

/// `s` splits on whitespace into at least two non-empty parts: somewhere a
/// non-whitespace character is followed, after intervening whitespace, by
/// another non-whitespace character.
pub open spec fn has_two_name_parts(s: Seq<char>) -> bool {
    exists|i: int, k: int, j: int|
        0 <= i < k < j < s.len() && !unicode_whitespace(s[i]) && unicode_whitespace(s[k])
            && !unicode_whitespace(s[j])
}

fn is_polish_letter_char(c: char) -> (r: bool)
    ensures
        r == spec_is_polish_letter(c),
{
    c == '\u{105}' || c == '\u{107}' || c == '\u{119}' || c == '\u{142}' || c == '\u{144}' || c
        == '\u{f3}' || c == '\u{15b}' || c == '\u{17a}' || c == '\u{17c}' || c == '\u{104}' || c
        == '\u{106}' || c == '\u{118}' || c == '\u{141}' || c == '\u{143}' || c == '\u{d3}' || c
        == '\u{15a}' || c == '\u{179}' || c == '\u{17b}'
}

fn check_name_chars(s: &str) -> (r: bool)
    ensures
        r == all_name_chars(s@),
{
    let n = s.unicode_len();
    for i in 0..n
        invariant
            n == s@.len(),
            forall|j: int| 0 <= j < i ==> spec_is_name_char(s@[j]),
    {
        let c = s.get_char(i);
        if !(is_ascii_letter_char(c) || is_polish_letter_char(c) || c == ' ' || c == '-' || c
            == '\'') {
            assert(!spec_is_name_char(s@[i as int]));
            return false;
        }
    }
    true
}

fn check_two_parts(s: &str) -> (r: bool)
    ensures
        r == has_two_name_parts(s@),
{
    let n = s.unicode_len();
    let mut seen_word = false;
    let mut seen_gap = false;
    for i in 0..n
        invariant
            n == s@.len(),
            seen_word <==> (exists|j: int| 0 <= j < i && !unicode_whitespace(s@[j])),
            seen_gap <==> (exists|j: int, k: int|
                0 <= j < k < i && !unicode_whitespace(s@[j]) && unicode_whitespace(s@[k])),
            forall|i1: int, k1: int, j1: int|
                !(0 <= i1 < k1 < j1 < i && !unicode_whitespace(s@[i1]) && unicode_whitespace(
                    s@[k1],
                ) && !unicode_whitespace(s@[j1])),
    {
        let c = s.get_char(i);
        if c.is_whitespace() {
            if seen_word {
                proof {
                    let j = choose|j: int| 0 <= j < i && !unicode_whitespace(s@[j]);
                    assert(0 <= j < i + 1 && !unicode_whitespace(s@[j]) && unicode_whitespace(
                        s@[i as int],
                    ));
                }
                seen_gap = true;
            }
        } else {
            if seen_gap {
                proof {
                    let (j, k) = choose|j: int, k: int|
                        0 <= j < k < i && !unicode_whitespace(s@[j]) && unicode_whitespace(s@[k]);
                    assert(0 <= j < k < i < s@.len() && !unicode_whitespace(s@[j])
                        && unicode_whitespace(s@[k]) && !unicode_whitespace(s@[i as int]));
                }
                return true;
            }
            assert(!unicode_whitespace(s@[i as int]));
            seen_word = true;
        }
    }
    false
}

/// Validates a full name: between 2 and 100 bytes, characters drawn from
/// Latin letters (including a fixed set of Polish diacritics), spaces,
/// hyphens and apostrophes, and at least two whitespace-separated parts
/// (first and last name). The checks run in that order — length, then
/// character set, then structure — so the first violated rule determines
/// the message.
pub fn validate_full_name(full_name: &str) -> (r: Result<(), AppError>)
    ensures
        r is Ok <==> (2 <= full_name.spec_bytes().len() <= 100 && has_two_name_parts(full_name@)
            && all_name_chars(full_name@)),
        full_name.spec_bytes().len() < 2 ==> is_validation_err(
            r,
            "Full name must be at least 2 characters long"@,
        ),
        full_name.spec_bytes().len() > 100 ==> is_validation_err(
            r,
            "Full name is too long (max 100 characters)"@,
        ),
        2 <= full_name.spec_bytes().len() <= 100 && !all_name_chars(full_name@)
            ==> is_validation_err(
            r,
            "Full name can only contain letters, spaces, hyphens and apostrophes"@,
        ),
        2 <= full_name.spec_bytes().len() <= 100 && all_name_chars(full_name@)
            && !has_two_name_parts(full_name@) ==> is_validation_err(
            r,
            "Full name must include both first and last name"@,
        ),
{
    if byte_len(full_name) < 2 {
        return Err(
            AppError::ValidationError(
                String::from_str("Full name must be at least 2 characters long"),
            ),
        );
    }
    if byte_len(full_name) > 100 {
        return Err(
            AppError::ValidationError(
                String::from_str("Full name is too long (max 100 characters)"),
            ),
        );
    }
    if !check_name_chars(full_name) {
        return Err(
            AppError::ValidationError(
                String::from_str("Full name can only contain letters, spaces, hyphens and apostrophes"),
            ),
        );
    }
    if !check_two_parts(full_name) {
        return Err(
            AppError::ValidationError(
                String::from_str("Full name must include both first and last name"),
            ),
        );
    }
    Ok(())
}

/// `c` equals the ASCII lowercase letter `l` up to ASCII case: either
/// exactly, or as its uppercase counterpart.
pub open spec fn spec_ci_char_eq(c: char, l: char) -> bool {
    c == l || ('A' <= c && c <= 'Z' && (c as u32) + 32 == l as u32)
}

/// `s` equals the ASCII lowercase word `w` ignoring ASCII case.
pub open spec fn spec_ci_matches(s: Seq<char>, w: Seq<char>) -> bool {
    s.len() == w.len() && forall|i: int| 0 <= i < s.len() ==> spec_ci_char_eq(s[i], w[i])
}

fn ci_matches(s: &str, w: &str) -> (r: bool)
    ensures
        r == spec_ci_matches(s@, w@),
{
    let n = s.unicode_len();
    let m = w.unicode_len();
    if n != m {
        return false;
    }
    for i in 0..n
        invariant
            n == s@.len(),
            n == w@.len(),
            forall|j: int| 0 <= j < i ==> spec_ci_char_eq(s@[j], w@[j]),
    {
        let c = s.get_char(i);
        let l = w.get_char(i);
        if !(c == l || ('A' <= c && c <= 'Z' && (c as u32) + 32 == l as u32)) {
            assert(!spec_ci_char_eq(s@[i as int], w@[i as int]));
            return false;
        }
    }
    true
}

/// Validates a role: case-insensitively it must equal `"client"` or
/// `"trainer"`, and the lower-cased role string is returned.
pub fn validate_role(role: &str) -> (r: Result<String, AppError>)
    ensures
        r is Ok <==> (spec_ci_matches(role@, "client"@) || spec_ci_matches(role@, "trainer"@)),
        spec_ci_matches(role@, "client"@) ==> (r matches Ok(out) && out@ == "client"@),
        spec_ci_matches(role@, "trainer"@) ==> (r matches Ok(out) && out@ == "trainer"@),
        r is Err ==> is_validation_err(r, "Invalid role. Must be 'client' or 'trainer'"@),
{
    proof {
        reveal_strlit("client");
        reveal_strlit("trainer");
    }
    if ci_matches(role, "client") {
        Ok(String::from_str("client"))
    } else if ci_matches(role, "trainer") {
        Ok(String::from_str("trainer"))
    } else {
        Err(
            AppError::ValidationError(
                String::from_str("Invalid role. Must be 'client' or 'trainer'"),
            ),
        )
    }
}

} // verus!
