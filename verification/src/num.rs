//! Verified parsing of decimal numerals, used for ports, counters and
//! string-length tags.

use vstd::prelude::*;

verus! {

/// An ASCII decimal digit.
pub open spec fn is_digit_char(c: char) -> bool {
    48 <= c as u32 <= 57
}

/// The value of one digit.
pub open spec fn digit_val(c: char) -> int {
    c as u32 - 48
}

/// A non-empty string of digits.
pub open spec fn spec_all_digits(s: Seq<char>) -> bool {
    s.len() > 0 && forall|i: int| 0 <= i < s.len() ==> is_digit_char(#[trigger] s[i])
}

/// The value of a digit string.
pub open spec fn spec_digits_val(s: Seq<char>) -> int
    decreases s.len(),
{
    if s.len() == 0 {
        0
    } else {
        spec_digits_val(s.drop_last()) * 10 + digit_val(s[s.len() - 1])
    }
}

/// The value of a digit string is never negative.
pub proof fn lemma_digits_val_nonneg(s: Seq<char>)
    requires
        forall|i: int| 0 <= i < s.len() ==> is_digit_char(#[trigger] s[i]),
    ensures
        spec_digits_val(s) >= 0,
    decreases s.len(),
{
    if s.len() > 0 {
        lemma_digits_val_nonneg(s.drop_last());
    }
}

/// Extending a digit string on the right never shrinks its value.
pub proof fn lemma_digits_val_prefix(s: Seq<char>, i: int)
    requires
        forall|k: int| 0 <= k < s.len() ==> is_digit_char(#[trigger] s[k]),
        0 <= i <= s.len(),
    ensures
        spec_digits_val(s) >= spec_digits_val(s.subrange(0, i)),
    decreases s.len() - i,
{
    if i == s.len() {
        assert(s.subrange(0, i) =~= s);
    } else {
        lemma_digits_val_prefix(s, i + 1);
        let p = s.subrange(0, i + 1);
        assert(p.drop_last() =~= s.subrange(0, i));
        assert(p[p.len() - 1] == s[i]);
        lemma_digits_val_nonneg(s.subrange(0, i));
        assert(spec_digits_val(p) == spec_digits_val(s.subrange(0, i)) * 10 + digit_val(s[i]));
    }
}

/// Parses a non-empty unsigned decimal numeral. Returns `None` exactly
/// when the text is not all digits or the value does not fit in a `u64`.
pub fn parse_u64(s: &str) -> (r: Option<u64>)
    ensures
        match r {
            Some(v) => spec_all_digits(s@) && v == spec_digits_val(s@),
            None => !spec_all_digits(s@) || spec_digits_val(s@) > u64::MAX,
        },
{
    let n = s.unicode_len();
    if n == 0 {
        return None;
    }
    let mut v: u64 = 0;
    let mut i: usize = 0;
    while i < n
        invariant
            i <= n,
            n == s@.len(),
            n > 0,
            forall|k: int| 0 <= k < i ==> is_digit_char(#[trigger] s@[k]),
            v == spec_digits_val(s@.subrange(0, i as int)),
        decreases n - i,
    {
        let c = s.get_char(i);
        let u = c as u32;
        if u < 48 || u > 57 {
            return None;
        }
        let d: u64 = (u - 48) as u64;
        proof {
            assert(s@.subrange(0, i as int + 1).drop_last() =~= s@.subrange(0, i as int));
            assert(s@.subrange(0, i as int + 1)[i as int] == s@[i as int]);
        }
        if v > (u64::MAX - d) / 10 {
            proof {
                if spec_all_digits(s@) {
                    lemma_digits_val_prefix(s@, i as int + 1);
                    assert(spec_digits_val(s@.subrange(0, i as int + 1)) == v * 10 + d);
                }
            }
            return None;
        }
        v = v * 10 + d;
        i = i + 1;
    }
    proof {
        assert(s@.subrange(0, n as int) =~= s@);
    }
    Some(v)
}

/// Whether a string is a decimal numeral with an optional leading sign.
pub open spec fn spec_is_int_text(s: Seq<char>) -> bool {
    if s.len() > 0 && (s[0] == '-' || s[0] == '+') {
        spec_all_digits(s.drop_first())
    } else {
        spec_all_digits(s)
    }
}

/// The signed value of a decimal numeral with an optional leading sign.
pub open spec fn spec_int_text_val(s: Seq<char>) -> int {
    if s.len() > 0 && s[0] == '-' {
        -spec_digits_val(s.drop_first())
    } else if s.len() > 0 && s[0] == '+' {
        spec_digits_val(s.drop_first())
    } else {
        spec_digits_val(s)
    }
}

/// Parses a signed 32-bit decimal numeral. Returns `None` exactly when
/// the text is not a numeral or its value does not fit in an `i32`.
pub fn parse_i32(s: &str) -> (r: Option<i32>)
    ensures
        match r {
            Some(v) => spec_is_int_text(s@) && v == spec_int_text_val(s@),
            None => !spec_is_int_text(s@) || spec_int_text_val(s@) > i32::MAX
                || spec_int_text_val(s@) < i32::MIN,
        },
{
    let n = s.unicode_len();
    if n == 0 {
        return None;
    }
    let c0 = s.get_char(0);
    if c0 == '-' || c0 == '+' {
        let rest = s.substring_char(1, n);
        proof {
            assert(rest@ =~= s@.drop_first());
        }
        match parse_u64(rest) {
            Some(v) => {
                if c0 == '-' {
                    if v > 0x8000_0000u64 {
                        proof {
                            lemma_digits_val_nonneg(s@.drop_first());
                        }
                        None
                    } else if v == 0x8000_0000u64 {
                        Some(i32::MIN)
                    } else {
                        Some(0i32 - (v as i32))
                    }
                } else {
                    if v > 0x7FFF_FFFFu64 {
                        None
                    } else {
                        Some(v as i32)
                    }
                }
            },
            None => {
                proof {
                    if spec_all_digits(s@.drop_first()) {
                        lemma_digits_val_nonneg(s@.drop_first());
                    }
                }
                None
            },
        }
    } else {
        match parse_u64(s) {
            Some(v) => {
                if v > 0x7FFF_FFFFu64 {
                    None
                } else {
                    Some(v as i32)
                }
            },
            None => None,
        }
    }
}

/// Parses an unsigned 16-bit decimal numeral (a TCP port). Returns `None`
/// exactly when the text is not all digits or the value is over 65535.
pub fn parse_u16(s: &str) -> (r: Option<u16>)
    ensures
        match r {
            Some(v) => spec_all_digits(s@) && v == spec_digits_val(s@),
            None => !spec_all_digits(s@) || spec_digits_val(s@) > u16::MAX,
        },
{
    match parse_u64(s) {
        Some(v) => if v <= 65535 {
            Some(v as u16)
        } else {
            None
        },
        None => None,
    }
}

/// The digit character for a value below ten.
pub open spec fn spec_digit_char(d: int) -> char {
    if d == 0 {
        '0'
    } else if d == 1 {
        '1'
    } else if d == 2 {
        '2'
    } else if d == 3 {
        '3'
    } else if d == 4 {
        '4'
    } else if d == 5 {
        '5'
    } else if d == 6 {
        '6'
    } else if d == 7 {
        '7'
    } else if d == 8 {
        '8'
    } else {
        '9'
    }
}

/// The canonical decimal text of a non-negative number.
pub open spec fn spec_u64_text(n: int) -> Seq<char>
    decreases n,
{
    if n < 10 {
        seq![spec_digit_char(n)]
    } else {
        spec_u64_text(n / 10).push(spec_digit_char(n % 10))
    }
}

/// Formats a number as its canonical decimal text.
pub fn u64_text(n: u64) -> (r: String)
    ensures
        r@ == spec_u64_text(n as int),
    decreases n,
{
    let d = n % 10;
    let c: char = if d == 0 {
        '0'
    } else if d == 1 {
        '1'
    } else if d == 2 {
        '2'
    } else if d == 3 {
        '3'
    } else if d == 4 {
        '4'
    } else if d == 5 {
        '5'
    } else if d == 6 {
        '6'
    } else if d == 7 {
        '7'
    } else if d == 8 {
        '8'
    } else {
        '9'
    };
    if n < 10 {
        let mut r = String::new();
        crate::text::push_char(&mut r, c);
        proof {
            assert(r@ =~= seq![spec_digit_char(n as int)]);
        }
        r
    } else {
        let mut r = u64_text(n / 10);
        crate::text::push_char(&mut r, c);
        r
    }
}

/// Parses an unsigned decimal numeral into a `usize`. Returns `None`
/// exactly when the text is not all digits or the value does not fit.
pub fn parse_usize(s: &str) -> (r: Option<usize>)
    ensures
        match r {
            Some(v) => spec_all_digits(s@) && v == spec_digits_val(s@),
            None => !spec_all_digits(s@) || spec_digits_val(s@) > usize::MAX,
        },
{
    match parse_u64(s) {
        Some(v) => if v <= usize::MAX as u64 {
            Some(v as usize)
        } else {
            None
        },
        None => None,
    }
}

} // verus!
