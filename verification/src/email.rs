//! Email format validation.
//!
//! The accepted shape is `local-part@domain.tld`: one or more local-part
//! characters, a single `'@'`, one or more domain characters, a final dot,
//! and a top-level domain of at least two ASCII letters. The shape is
//! specified as the existence of a decomposition ([`email_decomposition`])
//! and the scanning implementation is proved equivalent to it.

use vstd::prelude::*;
use vstd::string::StrSliceExecFns;
use vstd::string::StringExecFns;
use vstd::string::StringSliceAdditionalSpecFns;

use crate::chars::is_ascii_letter_char;
use crate::chars::is_digit_char;
use crate::chars::spec_is_ascii_letter;
use crate::chars::spec_is_digit;
use crate::error::AppError;
use crate::error::is_validation_err;
use crate::validate::byte_len;

verus! {

/// A character permitted in the local part, before the `'@'`: ASCII letter,
/// digit, or one of `. _ % + -`.
pub open spec fn spec_is_local_char(c: char) -> bool {
    spec_is_ascii_letter(c) || spec_is_digit(c) || c == '.' || c == '_' || c == '%' || c == '+'
        || c == '-'
}

/// A character permitted in the domain, between the `'@'` and the final
/// dot: ASCII letter, digit, dot or hyphen.
pub open spec fn spec_is_domain_char(c: char) -> bool {
    spec_is_ascii_letter(c) || spec_is_digit(c) || c == '.' || c == '-'
}

/// `s` decomposes as an email with the `'@'` at position `a` and the dot
/// before the top-level domain at position `b`: a non-empty local part, a
/// non-empty domain, and at least two letters after the dot.
pub open spec fn email_decomposition(s: Seq<char>, a: int, b: int) -> bool {
    &&& 1 <= a
    &&& a + 2 <= b
    &&& b + 3 <= s.len()
    &&& s[a] == '@'
    &&& s[b] == '.'
    &&& (forall|i: int| 0 <= i < a ==> spec_is_local_char(s[i]))
    &&& (forall|i: int| a < i < b ==> spec_is_domain_char(s[i]))
    &&& (forall|i: int| b < i < s.len() ==> spec_is_ascii_letter(s[i]))
}

/// `s` has the accepted email shape.
pub open spec fn email_format_ok(s: Seq<char>) -> bool {
    exists|a: int, b: int| email_decomposition(s, a, b)
}

/// In any decomposition the `'@'` position is forced: it is the first (and
/// only) `'@'` of the string, since neither the local part, the domain nor
/// the top-level domain may contain one.
proof fn lemma_decomposition_at(s: Seq<char>, a2: int, b2: int, a: int)
    requires
        email_decomposition(s, a2, b2),
        0 <= a < s.len(),
        s[a] == '@',
        forall|i: int| 0 <= i < a ==> s[i] != '@',
    ensures
        a2 == a,
{
    if a2 < a {
        assert(s[a2] == '@');
        assert(false);
    }
    if a2 > a {
        assert(spec_is_local_char(s[a]));
        assert(false);
    }
}

/// In any decomposition the final-dot position is forced: it is the last
/// `'.'` of the string, since the top-level domain is letters only.
proof fn lemma_decomposition_dot(s: Seq<char>, a2: int, b2: int, b: int)
    requires
        email_decomposition(s, a2, b2),
        0 <= b < s.len(),
        s[b] == '.',
        forall|i: int| b < i < s.len() ==> s[i] != '.',
    ensures
        b2 == b,
{
    if b2 > b {
        assert(s[b2] == '.');
        assert(false);
    }
    if b2 < b {
        assert(spec_is_ascii_letter(s[b]));
        assert(false);
    }
}

/// Position of the first `'@'` in `s`, if any.
fn find_first_at(s: &str) -> (r: Option<usize>)
    ensures
        match r {
            Some(a) => a < s@.len() && s@[a as int] == '@' && (forall|i: int|
                0 <= i < a ==> s@[i] != '@'),
            None => forall|i: int| 0 <= i < s@.len() ==> s@[i] != '@',
        },
{
    let n = s.unicode_len();
    for i in 0..n
        invariant
            n == s@.len(),
            forall|j: int| 0 <= j < i ==> s@[j] != '@',
    {
        if s.get_char(i) == '@' {
            return Some(i);
        }
    }
    None
}

/// Position of the last `'.'` of `s` at or after `from`, if any. No `'.'`
/// occurs anywhere after the returned position.
fn find_last_dot_from(s: &str, from: usize) -> (r: Option<usize>)
    requires
        from <= s@.len(),
    ensures
        match r {
            Some(b) => from <= b < s@.len() && s@[b as int] == '.' && (forall|i: int|
                b < i < s@.len() ==> s@[i] != '.'),
            None => forall|i: int| from <= i < s@.len() ==> s@[i] != '.',
        },
{
    let n = s.unicode_len();
    let mut i = n;
    while i > from
        invariant
            from <= n == s@.len(),
            from <= i <= n,
            forall|j: int| i <= j < n ==> s@[j] != '.',
        decreases i,
    {
        i = i - 1;
        if s.get_char(i) == '.' {
            return Some(i);
        }
    }
    None
}

fn all_local_chars_in(s: &str, lo: usize, hi: usize) -> (r: bool)
    requires
        lo <= hi <= s@.len(),
    ensures
        r == (forall|i: int| lo <= i < hi ==> spec_is_local_char(s@[i])),
{
    for i in lo..hi
        invariant
            hi <= s@.len(),
            forall|j: int| lo <= j < i ==> spec_is_local_char(s@[j]),
    {
        let c = s.get_char(i);
        if !(is_ascii_letter_char(c) || is_digit_char(c) || c == '.' || c == '_' || c == '%' || c
            == '+' || c == '-') {
            assert(!spec_is_local_char(s@[i as int]));
            return false;
        }
    }
    true
}

fn all_domain_chars_in(s: &str, lo: usize, hi: usize) -> (r: bool)
    requires
        lo <= hi <= s@.len(),
    ensures
        r == (forall|i: int| lo <= i < hi ==> spec_is_domain_char(s@[i])),
{
    for i in lo..hi
        invariant
            hi <= s@.len(),
            forall|j: int| lo <= j < i ==> spec_is_domain_char(s@[j]),
    {
        let c = s.get_char(i);
        if !(is_ascii_letter_char(c) || is_digit_char(c) || c == '.' || c == '-') {
            assert(!spec_is_domain_char(s@[i as int]));
            return false;
        }
    }
    true
}

fn all_letters_in(s: &str, lo: usize, hi: usize) -> (r: bool)
    requires
        lo <= hi <= s@.len(),
    ensures
        r == (forall|i: int| lo <= i < hi ==> spec_is_ascii_letter(s@[i])),
{
    for i in lo..hi
        invariant
            hi <= s@.len(),
            forall|j: int| lo <= j < i ==> spec_is_ascii_letter(s@[j]),
    {
        if !is_ascii_letter_char(s.get_char(i)) {
            assert(!spec_is_ascii_letter(s@[i as int]));
            return false;
        }
    }
    true
}

/// Whether `s` has the accepted email shape, by scanning for the unique
/// `'@'` and the last `'.'` and checking the three segments around them.
fn email_format_matches(s: &str) -> (r: bool)
    ensures
        r == email_format_ok(s@),
{
    let n = s.unicode_len();
    let a = match find_first_at(s) {
        Some(a) => a,
        None => {
            proof {
                assert forall|a2: int, b2: int| !email_decomposition(s@, a2, b2) by {
                    if email_decomposition(s@, a2, b2) {
                        assert(s@[a2] == '@');
                    }
                }
            }
            return false;
        },
    };
    if a == 0 {
        proof {
            assert forall|a2: int, b2: int| !email_decomposition(s@, a2, b2) by {
                if email_decomposition(s@, a2, b2) {
                    lemma_decomposition_at(s@, a2, b2, 0);
                }
            }
        }
        return false;
    }
    if !all_local_chars_in(s, 0, a) {
        proof {
            assert forall|a2: int, b2: int| !email_decomposition(s@, a2, b2) by {
                if email_decomposition(s@, a2, b2) {
                    lemma_decomposition_at(s@, a2, b2, a as int);
                }
            }
        }
        return false;
    }
    let b = match find_last_dot_from(s, a + 1) {
        Some(b) => b,
        None => {
            proof {
                assert forall|a2: int, b2: int| !email_decomposition(s@, a2, b2) by {
                    if email_decomposition(s@, a2, b2) {
                        lemma_decomposition_at(s@, a2, b2, a as int);
                        assert(s@[b2] == '.');
                    }
                }
            }
            return false;
        },
    };
    if b - a < 2 {
        proof {
            assert forall|a2: int, b2: int| !email_decomposition(s@, a2, b2) by {
                if email_decomposition(s@, a2, b2) {
                    lemma_decomposition_at(s@, a2, b2, a as int);
                    lemma_decomposition_dot(s@, a2, b2, b as int);
                }
            }
        }
        return false;
    }
    if !all_domain_chars_in(s, a + 1, b) {
        proof {
            assert forall|a2: int, b2: int| !email_decomposition(s@, a2, b2) by {
                if email_decomposition(s@, a2, b2) {
                    lemma_decomposition_at(s@, a2, b2, a as int);
                    lemma_decomposition_dot(s@, a2, b2, b as int);
                }
            }
        }
        return false;
    }
    if !all_letters_in(s, b + 1, n) {
        proof {
            assert forall|a2: int, b2: int| !email_decomposition(s@, a2, b2) by {
                if email_decomposition(s@, a2, b2) {
                    lemma_decomposition_at(s@, a2, b2, a as int);
                    lemma_decomposition_dot(s@, a2, b2, b as int);
                }
            }
        }
        return false;
    }
    if n - (b + 1) < 2 {
        proof {
            assert forall|a2: int, b2: int| !email_decomposition(s@, a2, b2) by {
                if email_decomposition(s@, a2, b2) {
                    lemma_decomposition_at(s@, a2, b2, a as int);
                    lemma_decomposition_dot(s@, a2, b2, b as int);
                }
            }
        }
        return false;
    }
    proof {
        assert(email_decomposition(s@, a as int, b as int));
    }
    true
}

/// Validates an email address: it must be at most 100 bytes and match the
/// `local-part@domain.tld` pattern, with the length checked first. A final
/// explicit check that the address contains `'@'` mirrors the rule as
/// stated; it is provably implied by the pattern and so never fires.
pub fn validate_email(email: &str) -> (r: Result<(), AppError>)
    ensures
        r is Ok <==> (email_format_ok(email@) && email.spec_bytes().len() <= 100),
        email.spec_bytes().len() > 100 ==> is_validation_err(
            r,
            "Email is too long (max 100 characters)"@,
        ),
        email.spec_bytes().len() <= 100 && !email_format_ok(email@) ==> is_validation_err(
            r,
            "Invalid email format"@,
        ),
{
    if byte_len(email) > 100 {
        return Err(
            AppError::ValidationError(String::from_str("Email is too long (max 100 characters)")),
        );
    }
    if !email_format_matches(email) {
        return Err(AppError::ValidationError(String::from_str("Invalid email format")));
    }
    if find_first_at(email).is_none() {
        proof {
            let (a2, b2) = choose|a2: int, b2: int| email_decomposition(email@, a2, b2);
            assert(email@[a2] == '@');
            assert(false);
        }
        return Err(
            AppError::ValidationError(String::from_str("Email must contain @ character")),
        );
    }
    Ok(())
}

} // verus!
