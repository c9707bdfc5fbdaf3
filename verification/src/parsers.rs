use vstd::prelude::*;

use crate::text::{all_dec_digits, chars_of};

verus! {

/// True when `c` may appear in a profile slug: an ASCII letter, an ASCII
/// digit, or a hyphen.
pub open spec fn is_slug_char(c: char) -> bool {
    (97 <= c as u32 <= 122) || (65 <= c as u32 <= 90) || (48 <= c as u32 <= 57) || c == '-'
}

/// True when `s` is a well-formed profile slug: at most 38 characters, all
/// of them alphanumeric or hyphens.
pub open spec fn valid_slug(s: Seq<char>) -> bool {
    s.len() <= 38 && forall|i: int| 0 <= i < s.len() ==> is_slug_char(#[trigger] s[i])
}

/// True when `s` is a well-formed calendar year: exactly four decimal
/// digits.
pub open spec fn valid_year(s: Seq<char>) -> bool {
    s.len() == 4 && all_dec_digits(s)
}

/// Validates a profile slug, so that only well-formed slugs reach the
/// fetching step: accepts `value` unchanged exactly when [`valid_slug`]
/// holds of it, and explains the constraint otherwise.
pub fn parse_slug(value: &str) -> (r: Result<String, String>)
    ensures
        valid_slug(value@) ==> (r matches Ok(v) && v@ == value@),
        !valid_slug(value@) ==> (r matches Err(m) && m@
            == "slug must only contain alphanumeric characters and/or hyphens"@),
{
    let chars = chars_of(value);
    let n = chars.len();
    if n > 38 {
        return Err("slug must only contain alphanumeric characters and/or hyphens".to_owned());
    }
    let mut i: usize = 0;
    while i < n
        invariant
            i <= n == chars@.len(),
            chars@ == value@,
            forall|j: int| 0 <= j < i ==> is_slug_char(#[trigger] chars@[j]),
        decreases n - i,
    {
        let c = chars[i];
        let d = c as u32;
        let ok = (97 <= d && d <= 122) || (65 <= d && d <= 90) || (48 <= d && d <= 57) || c == '-';
        if !ok {
            return Err("slug must only contain alphanumeric characters and/or hyphens".to_owned());
        }
        i = i + 1;
    }
    Ok(value.to_owned())
}

/// Validates a year argument, so that only plausible calendar years reach
/// the fetching step: accepts `value` unchanged exactly when [`valid_year`]
/// holds of it, and explains the constraint otherwise.
pub fn parse_year(value: &str) -> (r: Result<String, String>)
    ensures
        valid_year(value@) ==> (r matches Ok(v) && v@ == value@),
        !valid_year(value@) ==> (r matches Err(m) && m@
            == "year must be a valid calendar year, e.g. 2022"@),
{
    let chars = chars_of(value);
    let n = chars.len();
    if n != 4 {
        return Err("year must be a valid calendar year, e.g. 2022".to_owned());
    }
    let mut i: usize = 0;
    while i < n
        invariant
            i <= n == chars@.len(),
            chars@ == value@,
            forall|j: int| 0 <= j < i ==> crate::text::is_dec_digit(#[trigger] chars@[j]),
        decreases n - i,
    {
        let c = chars[i];
        let d = c as u32;
        if d < 48 || d > 57 {
            return Err("year must be a valid calendar year, e.g. 2022".to_owned());
        }
        i = i + 1;
    }
    Ok(value.to_owned())
}

} // verus!
