//! Detection of text that must not be stored: credentials, e-mail
//! addresses, mainland mobile numbers and resident identity numbers.
use vstd::prelude::*;
use crate::text::{ascii_lower, chars_of, contains, has_sub, to_ascii_lower};

verus! {

/// An ASCII decimal digit.
pub open spec fn is_digit(c: char) -> bool {
    '0' <= c && c <= '9'
}

/// An ASCII letter or digit.
pub open spec fn is_alnum(c: char) -> bool {
    is_digit(c) || ('a' <= c && c <= 'z') || ('A' <= c && c <= 'Z')
}

/// A character that may end the local part of an e-mail address.
pub open spec fn is_local_char(c: char) -> bool {
    is_alnum(c) || c == '.' || c == '_' || c == '%' || c == '+' || c == '-'
}

/// A character of the domain of an e-mail address.
pub open spec fn is_domain_char(c: char) -> bool {
    is_alnum(c) || c == '.' || c == '-'
}

/// `s` holds digits only from `i` for `n` characters.
pub open spec fn digits_at(s: Seq<char>, i: int, n: int) -> bool {
    forall|k: int| i <= k < i + n ==> is_digit(#[trigger] s[k])
}

/// The run from `i` of length `n` has no digit right before or after it.
pub open spec fn bounded_run(s: Seq<char>, i: int, n: int) -> bool {
    &&& (i == 0 || !is_digit(s[i - 1]))
    &&& (i + n == s.len() || !is_digit(s[i + n]))
}

/// An eleven-digit mobile number starting with `1` begins at `i`.
pub open spec fn phone_at(s: Seq<char>, i: int) -> bool {
    &&& 0 <= i
    &&& i + 11 <= s.len()
    &&& s[i] == '1'
    &&& digits_at(s, i, 11)
    &&& bounded_run(s, i, 11)
}

/// An eighteen-character identity number (seventeen digits and a digit or
/// `X`) begins at `i`.
pub open spec fn id_number_at(s: Seq<char>, i: int) -> bool {
    &&& 0 <= i
    &&& i + 18 <= s.len()
    &&& digits_at(s, i, 17)
    &&& (is_digit(s[i + 17]) || s[i + 17] == 'X' || s[i + 17] == 'x')
    &&& bounded_run(s, i, 18)
}

/// The `@` at `i` joins a local part to a dotted domain: a local character
/// before it, and after it domain characters up to a `.` that a letter or
/// digit follows.
pub open spec fn email_at(s: Seq<char>, i: int) -> bool {
    &&& 0 < i < s.len()
    &&& s[i] == '@'
    &&& is_local_char(s[i - 1])
    &&& exists|j: int| email_dot(s, i, j)
}

/// The `.` at `j` ends the domain run that starts after the `@` at `i`.
pub open spec fn email_dot(s: Seq<char>, i: int, j: int) -> bool {
    &&& i + 1 < j
    &&& j + 1 < s.len()
    &&& s[j] == '.'
    &&& is_alnum(s[j + 1])
    &&& forall|k: int| i + 1 <= k < j ==> is_domain_char(#[trigger] s[k])
}

/// The markers of a credential, matched on the ASCII lower-cased text.
pub open spec fn has_secret_marker(s: Seq<char>) -> bool {
    let l = ascii_lower(s);
    ||| has_sub(l, "authorization: bearer"@)
    ||| has_sub(l, "api_key"@)
    ||| has_sub(l, "token="@)
    ||| has_sub(l, "password="@)
    ||| has_sub(l, "secret="@)
    ||| has_sub(l, "sk-"@)
    ||| has_sub(l, "ak-"@)
}

/// The text holds a credential, an e-mail address, a mobile number or an
/// identity number.
pub open spec fn sensitive_spec(s: Seq<char>) -> bool {
    ||| has_secret_marker(s)
    ||| (exists|i: int| #[trigger] email_at(s, i))
    ||| (exists|i: int| #[trigger] phone_at(s, i))
    ||| (exists|i: int| #[trigger] id_number_at(s, i))
}

fn digit(c: char) -> (r: bool)
    ensures
        r == is_digit(c),
{
    '0' <= c && c <= '9'
}

fn alnum(c: char) -> (r: bool)
    ensures
        r == is_alnum(c),
{
    digit(c) || ('a' <= c && c <= 'z') || ('A' <= c && c <= 'Z')
}

/// Whether the text holds a credential marker (see `has_secret_marker`).
pub fn secret_marker(text: &str) -> (r: bool)
    ensures
        r == has_secret_marker(text@),
{
    let lowered = to_ascii_lower(text);
    let l = lowered.as_str();
    contains(l, "authorization: bearer") || contains(l, "api_key") || contains(l, "token=") || contains(
        l,
        "password=",
    ) || contains(l, "secret=") || contains(l, "sk-") || contains(l, "ak-")
}

fn digit_run(s: &Vec<char>, i: usize, n: usize) -> (r: bool)
    requires
        i + n <= s@.len(),
    ensures
        r == digits_at(s@, i as int, n as int),
{
    assert(s@.len() == s.len());
    let end = i + n;
    let mut k: usize = i;
    while k < end
        invariant
            end == i + n,
            i <= k <= i + n <= s@.len(),
            forall|m: int| i <= m < k ==> is_digit(#[trigger] s@[m]),
        decreases end - k,
    {
        if !digit(s[k]) {
            return false;
        }
        k = k + 1;
    }
    true
}

fn run_bounded(s: &Vec<char>, i: usize, n: usize) -> (r: bool)
    requires
        i + n <= s@.len(),
    ensures
        r == bounded_run(s@, i as int, n as int),
{
    assert(s@.len() == s.len());
    let end = i + n;
    let before = i == 0 || !digit(s[i - 1]);
    let after = end == s.len() || !digit(s[end]);
    before && after
}

fn phone_starts(s: &Vec<char>, i: usize) -> (r: bool)
    ensures
        r == phone_at(s@, i as int),
{
    if i > s.len() || s.len() - i < 11 {
        return false;
    }
    s[i] == '1' && digit_run(s, i, 11) && run_bounded(s, i, 11)
}

fn id_number_starts(s: &Vec<char>, i: usize) -> (r: bool)
    ensures
        r == id_number_at(s@, i as int),
{
    if i > s.len() || s.len() - i < 18 {
        return false;
    }
    let last = s[i + 17];
    digit_run(s, i, 17) && (digit(last) || last == 'X' || last == 'x') && run_bounded(s, i, 18)
}

fn email_starts(s: &Vec<char>, i: usize) -> (r: bool)
    ensures
        r == email_at(s@, i as int),
{
    if i == 0 || i >= s.len() || s[i] != '@' {
        return false;
    }
    let c = s[i - 1];
    if !(alnum(c) || c == '.' || c == '_' || c == '%' || c == '+' || c == '-') {
        return false;
    }
    let mut j: usize = i + 1;
    while j < s.len()
        invariant
            i + 1 <= j <= s@.len(),
            0 < i < s@.len(),
            s@[i as int] == '@',
            is_local_char(s@[i - 1]),
            forall|k: int| i + 1 <= k < j ==> is_domain_char(#[trigger] s@[k]),
            forall|m: int| i + 1 < m < j ==> !email_dot(s@, i as int, m),
        decreases s.len() - j,
    {
        let d = s[j];
        if j > i + 1 && d == '.' && j + 1 < s.len() && alnum(s[j + 1]) {
            assert(email_dot(s@, i as int, j as int));
            return true;
        }
        if !(alnum(d) || d == '.' || d == '-') {
            assert forall|m: int| #![auto] email_dot(s@, i as int, m) implies false by {
                if m > j {
                    assert(is_domain_char(s@[j as int]));
                }
            }
            return false;
        }
        j = j + 1;
    }
    assert forall|m: int| #![auto] email_dot(s@, i as int, m) implies false by {}
    false
}

/// Whether the text holds a credential, an e-mail address, a mobile number
/// or an identity number (see `sensitive_spec`).
pub fn contains_sensitive_text(text: &str) -> (r: bool)
    ensures
        r == sensitive_spec(text@),
{
    if secret_marker(text) {
        return true;
    }
    let s = chars_of(text);
    let mut i: usize = 0;
    while i < s.len()
        invariant
            i <= s@.len(),
            s@ == text@,
            forall|k: int| 0 <= k < i ==> !email_at(s@, k) && !phone_at(s@, k) && !id_number_at(s@, k),
        decreases s.len() - i,
    {
        if email_starts(&s, i) || phone_starts(&s, i) || id_number_starts(&s, i) {
            return true;
        }
        i = i + 1;
    }
    assert forall|k: int| !email_at(s@, k) && !phone_at(s@, k) && !id_number_at(s@, k) by {
        if k >= i {
            assert(!(0 <= k && k + 11 <= s@.len()));
        }
    }
    false
}

} // verus!
