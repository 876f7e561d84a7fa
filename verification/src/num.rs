//! Reading a signed decimal integer out of a slice of source text.
//!
//! The text of an integer-literal token must parse as a signed 64-bit
//! integer: an optional sign followed by one or more decimal digits, with a
//! value in range.  `is_i64_text` says exactly which texts qualify and
//! `int_text_value` what they denote; `parse_i64_text` decides both.

use vstd::prelude::*;
use vstd::string::StrSliceExecFns;

verus! {

pub open spec fn is_digit_char(c: char) -> bool {
    48 <= c as u32 <= 57
}

pub open spec fn digit_val(c: char) -> int {
    c as u32 - 48
}

pub open spec fn all_digits(s: Seq<char>) -> bool {
    forall|i: int| 0 <= i < s.len() ==> is_digit_char(s[i])
}

/// The value of a digit string, most significant digit first.
pub open spec fn digits_value(s: Seq<char>) -> int
    decreases s.len(),
{
    if s.len() == 0 {
        0
    } else {
        digits_value(s.drop_last()) * 10 + digit_val(s[s.len() - 1])
    }
}

pub open spec fn has_sign(s: Seq<char>) -> bool {
    s.len() > 0 && (s[0] == '-' || s[0] == '+')
}

/// The digit part of the text: everything after the optional sign.
pub open spec fn int_body(s: Seq<char>) -> Seq<char> {
    if has_sign(s) {
        s.skip(1)
    } else {
        s
    }
}

pub open spec fn int_negative(s: Seq<char>) -> bool {
    s.len() > 0 && s[0] == '-'
}

/// Whether `s` is an optional sign followed by one or more decimal digits.
pub open spec fn is_int_text(s: Seq<char>) -> bool {
    int_body(s).len() > 0 && all_digits(int_body(s))
}

/// The signed value denoted by an integer text.
pub open spec fn int_text_value(s: Seq<char>) -> int {
    if int_negative(s) {
        -digits_value(int_body(s))
    } else {
        digits_value(int_body(s))
    }
}

/// Whether `s` denotes an integer representable as an `i64`.
pub open spec fn is_i64_text(s: Seq<char>) -> bool {
    is_int_text(s) && -9223372036854775808 <= int_text_value(s) <= 9223372036854775807
}

pub proof fn lemma_digits_value_nonneg(s: Seq<char>)
    requires
        all_digits(s),
    ensures
        digits_value(s) >= 0,
    decreases s.len(),
{
    if s.len() > 0 {
        assert(all_digits(s.drop_last()));
        lemma_digits_value_nonneg(s.drop_last());
    }
}

/// A digit string is worth at least as much as any of its prefixes.
pub proof fn lemma_digits_prefix_bound(s: Seq<char>, j: int)
    requires
        all_digits(s),
        0 <= j <= s.len(),
    ensures
        digits_value(s.take(j)) <= digits_value(s),
    decreases s.len() - j,
{
    if j == s.len() {
        assert(s.take(j) =~= s);
    } else {
        let p = s.take(j);
        let q = s.take(j + 1);
        assert(q.drop_last() =~= p);
        assert(q[q.len() - 1] == s[j]);
        assert(all_digits(p));
        lemma_digits_value_nonneg(p);
        assert(digits_value(q) == digits_value(p) * 10 + digit_val(s[j]));
        assert(digits_value(p) <= digits_value(q));
        lemma_digits_prefix_bound(s, j + 1);
    }
}

/// Decide whether `s` is the text of an `i64` and, if so, compute its value.
pub fn parse_i64_text(s: &str) -> (r: Option<i64>)
    ensures
        match r {
            Option::Some(v) => is_i64_text(s@) && v as int == int_text_value(s@),
            Option::None => !is_i64_text(s@),
        },
{
    let n = s.unicode_len();
    if n == 0 {
        return Option::None;
    }
    let first = s.get_char(0);
    let neg = first == '-';
    let signed = neg || first == '+';
    let start: usize = if signed {
        1
    } else {
        0
    };
    if start == n {
        return Option::None;
    }
    let ghost body = int_body(s@);
    proof {
        assert(body =~= s@.skip(start as int));
    }
    let mut mag: u64 = 0;
    let mut i: usize = start;
    while i < n
        invariant
            start <= i <= n,
            n == s@.len(),
            start == (if has_sign(s@) { 1int } else { 0int }),
            body == int_body(s@),
            body =~= s@.skip(start as int),
            all_digits(body.take(i - start)),
            mag as int == digits_value(body.take(i - start)),
            mag <= 9223372036854775808u64,
        decreases n - i,
    {
        let c = s.get_char(i);
        let d32 = c as u32;
        let ghost j = i - start;
        proof {
            assert(body[j] == s@[i as int]);
        }
        if d32 < 48 || d32 > 57 {
            // a non-digit in the body: not an integer text at all
            assert(!all_digits(body));
            return Option::None;
        }
        let d = (d32 - 48) as u64;
        proof {
            assert(body.take(j + 1).drop_last() =~= body.take(j));
            assert(body.take(j + 1)[j] == body[j]);
            assert(all_digits(body.take(j + 1)));
            assert(digits_value(body.take(j + 1)) == mag * 10 + d);
        }
        if mag > 922337203685477580u64 || (mag == 922337203685477580u64 && d > 8) {
            // the digits read so far already push the magnitude past 2^63,
            // and further digits can only grow it
            proof {
                if all_digits(body) {
                    lemma_digits_prefix_bound(body, j + 1);
                }
            }
            return Option::None;
        }
        mag = mag * 10 + d;
        i = i + 1;
    }
    proof {
        assert(body.take((n - start) as int) =~= body);
    }
    if neg {
        if mag == 9223372036854775808u64 {
            Option::Some(-9223372036854775807i64 - 1)
        } else {
            Option::Some(-(mag as i64))
        }
    } else {
        if mag == 9223372036854775808u64 {
            // +2^63 is one past the largest representable value
            Option::None
        } else {
            Option::Some(mag as i64)
        }
    }
}

} // verus!
