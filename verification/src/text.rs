use vstd::prelude::*;

verus! {

/// True when `c` is an ASCII decimal digit.
pub open spec fn is_dec_digit(c: char) -> bool {
    48 <= c as u32 <= 57
}

/// The numeric value of one ASCII decimal digit.
pub open spec fn digit_val(c: char) -> nat {
    ((c as u32) - 48) as nat
}

/// True when every character of `s` is an ASCII decimal digit.
pub open spec fn all_dec_digits(s: Seq<char>) -> bool {
    forall|i: int| 0 <= i < s.len() ==> is_dec_digit(#[trigger] s[i])
}

/// The value of a digit string read in base ten, most significant first.
pub open spec fn digits_val(s: Seq<char>) -> nat
    decreases s.len(),
{
    if s.len() == 0 {
        0
    } else {
        digits_val(s.drop_last()) * 10 + digit_val(s.last())
    }
}

/// The part of `s` that must be all digits: everything after an optional
/// leading `+`.
pub open spec fn digit_part(s: Seq<char>) -> Seq<char> {
    if s.len() > 0 && s[0] == '+' {
        s.drop_first()
    } else {
        s
    }
}

/// What parsing `s` as a non-negative machine integer yields: after an
/// optional leading `+`, at least one decimal digit and nothing else, and a
/// value that fits in `usize`; anything else is rejected.
pub open spec fn parse_usize_spec(s: Seq<char>) -> Option<usize> {
    let digits = digit_part(s);
    if digits.len() > 0 && all_dec_digits(digits) && digits_val(digits) <= usize::MAX {
        Some(digits_val(digits) as usize)
    } else {
        None
    }
}

/// True when `part` occurs contiguously somewhere within `whole`.
pub open spec fn contains_seq(whole: Seq<char>, part: Seq<char>) -> bool {
    exists|i: int|
        0 <= i && i + part.len() <= whole.len() && #[trigger] whole.subrange(i, i + part.len())
            == part
}

/// Appending characters to a digit string never lowers its value.
pub proof fn lemma_digits_val_extend(s: Seq<char>, a: int, i: int, j: int)
    requires
        0 <= a <= i <= j <= s.len(),
    ensures
        digits_val(s.subrange(a, i)) <= digits_val(s.subrange(a, j)),
    decreases j - i,
{
    if i < j {
        lemma_digits_val_extend(s, a, i, j - 1);
        assert(s.subrange(a, j).drop_last() =~= s.subrange(a, j - 1));
        assert(digits_val(s.subrange(a, j)) == digits_val(s.subrange(a, j - 1)) * 10 + digit_val(
            s.subrange(a, j).last(),
        ));
    }
}

/// Relies on str::chars: it yields exactly the characters of the slice, in
/// order.
#[verifier::external_body]
pub(crate) fn chars_of(s: &str) -> (r: Vec<char>)
    ensures
        r@ == s@,
{
    s.chars().collect()
}

/// Parses a string as a non-negative integer, exactly as
/// [`parse_usize_spec`] states: an optional leading `+`, then one or more
/// decimal digits whose value fits in `usize`.
pub fn parse_usize(s: &str) -> (r: Option<usize>)
    ensures
        r == parse_usize_spec(s@),
{
    let chars = chars_of(s);
    let n = chars.len();
    let start: usize = if n > 0 && chars[0] == '+' {
        1
    } else {
        0
    };
    let ghost digits: Seq<char> = chars@.subrange(start as int, n as int);
    proof {
        if n > 0 && chars@[0] == '+' {
            assert(digits =~= s@.drop_first());
        } else {
            assert(digits =~= s@);
        }
        assert(digits == digit_part(s@));
    }
    if n == start {
        return None;
    }
    let mut acc: usize = 0;
    let mut i: usize = start;
    while i < n
        invariant
            start <= i <= n == chars@.len(),
            chars@ == s@,
            digits == chars@.subrange(start as int, n as int),
            digits == digit_part(s@),
            all_dec_digits(chars@.subrange(start as int, i as int)),
            acc == digits_val(chars@.subrange(start as int, i as int)),
        decreases n - i,
    {
        let c = chars[i];
        let d = c as u32;
        if d < 48 || d > 57 {
            proof {
                assert(digits[i - start] == chars@[i as int]);
                assert(!is_dec_digit(digits[i - start]));
            }
            return None;
        }
        let dv = (d - 48) as usize;
        let ghost prefix = chars@.subrange(start as int, i as int);
        proof {
            assert(chars@.subrange(start as int, i + 1).drop_last() =~= prefix);
            assert(chars@.subrange(start as int, i + 1).last() == chars@[i as int]);
        }
        let next = match acc.checked_mul(10) {
            Some(a) => a.checked_add(dv),
            None => None,
        };
        match next {
            Some(a) => {
                acc = a;
            },
            None => {
                proof {
                    assert(digits_val(chars@.subrange(start as int, i + 1)) > usize::MAX);
                    lemma_digits_val_extend(chars@, start as int, i + 1, n as int);
                }
                return None;
            },
        }
        i = i + 1;
    }
    proof {
        assert(digits =~= chars@.subrange(start as int, i as int));
    }
    Some(acc)
}

} // verus!
