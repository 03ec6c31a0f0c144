//! Decimal rendering and parsing of unsigned integers.
//!
//! Request paths and query-string values carry numeric identifiers and
//! cursors in plain decimal, and the result-target dispatch hinges on whether
//! a caller-supplied identifier parses as an unsigned integer, so both
//! directions are verified here against one spec-level digit model.

use vstd::prelude::*;
use vstd::string::StrSliceExecFns;
use vstd::string::StringExecFns;

verus! {

/// The character of one decimal digit value.
pub open spec fn spec_digit_char(d: int) -> char {
    if d == 0 {
        '0'
    } else if d == 1 {
        '1'
    } else if d == 2 {
        '2'
    } else if d == 3 {
        '3'
    } else if d == 4 {
        '4'
    } else if d == 5 {
        '5'
    } else if d == 6 {
        '6'
    } else if d == 7 {
        '7'
    } else if d == 8 {
        '8'
    } else {
        '9'
    }
}

/// The decimal rendering of a number: no sign, no leading zero except for the
/// number zero itself.
pub open spec fn spec_u64_digits(n: nat) -> Seq<char>
    decreases n,
{
    if n < 10 {
        seq![spec_digit_char(n as int)]
    } else {
        spec_u64_digits(n / 10).push(spec_digit_char((n % 10) as int))
    }
}

pub open spec fn spec_is_digit(c: char) -> bool {
    48 <= c as int <= 57
}

pub open spec fn spec_digit_val(c: char) -> int {
    c as int - 48
}

pub open spec fn spec_all_digits(s: Seq<char>) -> bool {
    forall|i: int| 0 <= i < s.len() ==> spec_is_digit(#[trigger] s[i])
}

/// The numeric value of a digit string, most significant digit first.
pub open spec fn spec_digits_val(s: Seq<char>) -> int
    decreases s.len(),
{
    if s.len() == 0 {
        0
    } else {
        spec_digits_val(s.drop_last()) * 10 + spec_digit_val(s.last())
    }
}

/// The digit part of an integer literal: everything after one optional
/// leading plus sign.
pub open spec fn spec_u64_body(s: Seq<char>) -> Seq<char> {
    if s.len() > 0 && s[0] == '+' {
        s.subrange(1, s.len() as int)
    } else {
        s
    }
}

/// Whether a string is an unsigned-integer literal in range: an optional
/// leading plus sign, then at least one digit and nothing else, with a value
/// that fits in sixty-four bits.
pub open spec fn spec_parses_as_u64(s: Seq<char>) -> bool {
    let b = spec_u64_body(s);
    b.len() > 0 && spec_all_digits(b) && spec_digits_val(b) <= u64::MAX as int
}

/// The value of such a literal.
pub open spec fn spec_u64_value(s: Seq<char>) -> int {
    spec_digits_val(spec_u64_body(s))
}

proof fn lemma_digits_val_nonneg(s: Seq<char>)
    requires
        spec_all_digits(s),
    ensures
        spec_digits_val(s) >= 0,
    decreases s.len(),
{
    if s.len() > 0 {
        assert(spec_all_digits(s.drop_last()));
        lemma_digits_val_nonneg(s.drop_last());
    }
}

proof fn lemma_digits_val_prefix_le(s: Seq<char>, j: int)
    requires
        spec_all_digits(s),
        0 <= j <= s.len(),
    ensures
        spec_digits_val(s.subrange(0, j)) <= spec_digits_val(s),
    decreases s.len() - j,
{
    if j < s.len() {
        let t = s.subrange(0, j + 1);
        assert(spec_all_digits(t));
        assert(t.drop_last() =~= s.subrange(0, j));
        lemma_digits_val_nonneg(s.subrange(0, j));
        assert(spec_digits_val(t) == spec_digits_val(s.subrange(0, j)) * 10 + spec_digit_val(
            s[j],
        ));
        assert(spec_digits_val(s.subrange(0, j)) <= spec_digits_val(t)) by (nonlinear_arith)
            requires
                spec_digits_val(t) == spec_digits_val(s.subrange(0, j)) * 10 + spec_digit_val(s[j]),
                spec_digits_val(s.subrange(0, j)) >= 0,
                spec_digit_val(s[j]) >= 0,
        ;
        lemma_digits_val_prefix_le(s, j + 1);
        assert(s.subrange(0, j + 1) == t);
    } else {
        assert(s.subrange(0, j) =~= s);
    }
}

/// One decimal digit as a string slice.
fn digit_str(d: u64) -> (r: &'static str)
    requires
        d < 10,
    ensures
        r@ == seq![spec_digit_char(d as int)],
{
    proof {
        reveal_strlit("0");
        reveal_strlit("1");
        reveal_strlit("2");
        reveal_strlit("3");
        reveal_strlit("4");
        reveal_strlit("5");
        reveal_strlit("6");
        reveal_strlit("7");
        reveal_strlit("8");
        reveal_strlit("9");
    }
    let r: &'static str = if d == 0 {
        "0"
    } else if d == 1 {
        "1"
    } else if d == 2 {
        "2"
    } else if d == 3 {
        "3"
    } else if d == 4 {
        "4"
    } else if d == 5 {
        "5"
    } else if d == 6 {
        "6"
    } else if d == 7 {
        "7"
    } else if d == 8 {
        "8"
    } else {
        "9"
    };
    assert(r@ =~= seq![spec_digit_char(d as int)]);
    r
}

/// Render a number in decimal.
pub fn u64_to_string(n: u64) -> (s: String)
    ensures
        s@ == spec_u64_digits(n as nat),
    decreases n,
{
    if n < 10 {
        digit_str(n).to_owned()
    } else {
        let mut s = u64_to_string(n / 10);
        s.append(digit_str(n % 10));
        proof {
            assert(s@ =~= spec_u64_digits(n as nat));
        }
        s
    }
}

/// Parse a string as an unsigned integer, accepting exactly the in-range
/// unsigned-integer literals.
pub fn parse_u64(s: &str) -> (r: Option<u64>)
    ensures
        spec_parses_as_u64(s@) ==> r == Some((spec_u64_value(s@) as u64)),
        !spec_parses_as_u64(s@) ==> r is None,
{
    let len: usize = s.unicode_len();
    let start: usize = if len > 0 && s.get_char(0) == '+' {
        1
    } else {
        0
    };
    let ghost b = spec_u64_body(s@);
    proof {
        assert(b =~= s@.subrange(start as int, len as int));
    }
    if start == len {
        return None;
    }
    let mut acc: u64 = 0;
    let mut i: usize = start;
    while i < len
        invariant
            start <= i <= len,
            start < len,
            len == s@.len(),
            start == 0 || start == 1,
            b == s@.subrange(start as int, len as int),
            b == spec_u64_body(s@),
            spec_all_digits(b.subrange(0, i - start)),
            acc as int == spec_digits_val(b.subrange(0, i - start)),
        decreases len - i,
    {
        let c: char = s.get_char(i);
        if !(c >= '0' && c <= '9') {
            assert(!spec_is_digit(b[i - start]));
            return None;
        }
        let d: u64 = (c as u64) - 48;
        let ghost prefix = b.subrange(0, i - start);
        let ghost prefix1 = b.subrange(0, i + 1 - start);
        proof {
            assert(prefix1.drop_last() =~= prefix);
            assert(spec_all_digits(prefix1));
            assert(spec_digits_val(prefix1) == acc as int * 10 + d);
        }
        let widened: u64 = match acc.checked_mul(10) {
            Some(w) => w,
            None => {
                proof {
                    assert(spec_digits_val(prefix1) > u64::MAX as int) by (nonlinear_arith)
                        requires
                            spec_digits_val(prefix1) == acc as int * 10 + d,
                            acc as int * 10 > u64::MAX as int,
                            d >= 0,
                    ;
                    if spec_all_digits(b) {
                        lemma_digits_val_prefix_le(b, i + 1 - start);
                        assert(spec_digits_val(b) > u64::MAX as int);
                    }
                }
                return None;
            },
        };
        acc = match widened.checked_add(d) {
            Some(a) => a,
            None => {
                proof {
                    if spec_all_digits(b) {
                        lemma_digits_val_prefix_le(b, i + 1 - start);
                        assert(spec_digits_val(b) > u64::MAX as int);
                    }
                }
                return None;
            },
        };
        i = i + 1;
    }
    proof {
        assert(b.subrange(0, i - start) =~= b);
    }
    Some(acc)
}

} // verus!
