//! Decimal text utilities: rendering a `u64` identifier as decimal digits and
//! parsing a strictly positive `i32` from a configuration value.

use vstd::prelude::*;
use vstd::string::StrSliceExecFns;
use vstd::string::StringExecFns;

verus! {

/// A decimal digit character.
pub open spec fn is_dec_digit(c: char) -> bool {
    '0' as int <= c as int && c as int <= '9' as int
}

/// The numeric value of a decimal digit character.
pub open spec fn dec_digit_val(c: char) -> nat {
    (c as int - '0' as int) as nat
}

/// Every character of `s` is a decimal digit.
pub open spec fn all_dec_digits(s: Seq<char>) -> bool {
    forall|i: int| 0 <= i < s.len() ==> is_dec_digit(#[trigger] s[i])
}

/// The numeric value of a digit string, most significant digit first.
pub open spec fn dec_val(s: Seq<char>) -> nat
    decreases s.len(),
{
    if s.len() == 0 {
        0
    } else {
        dec_val(s.drop_last()) * 10 + dec_digit_val(s.last())
    }
}

/// The digit character for a value below ten.
pub open spec fn dec_digit_char(d: nat) -> char {
    if d == 0 {
        '0'
    } else if d == 1 {
        '1'
    } else if d == 2 {
        '2'
    } else if d == 3 {
        '3'
    } else if d == 4 {
        '4'
    } else if d == 5 {
        '5'
    } else if d == 6 {
        '6'
    } else if d == 7 {
        '7'
    } else if d == 8 {
        '8'
    } else {
        '9'
    }
}

/// The canonical decimal rendering of `n`: no sign, no leading zero
/// (except for `n == 0`, rendered as a single `'0'`).
pub open spec fn dec_digits(n: nat) -> Seq<char>
    decreases n,
{
    if n < 10 {
        seq![dec_digit_char(n)]
    } else {
        dec_digits(n / 10).push(dec_digit_char(n % 10))
    }
}

/// Extending a digit string on the right never lowers its value, so the value
/// of any prefix bounds the value of the whole string from below.
pub proof fn lemma_dec_val_prefix_le(s: Seq<char>, j: int)
    requires
        0 <= j <= s.len(),
    ensures
        dec_val(s.subrange(0, j)) <= dec_val(s),
    decreases s.len() - j,
{
    if j == s.len() {
        assert(s.subrange(0, j) =~= s);
    } else {
        let t = s.subrange(0, j + 1);
        assert(t.drop_last() =~= s.subrange(0, j));
        assert(dec_val(s.subrange(0, j)) <= dec_val(s.subrange(0, j)) * 10 + dec_digit_val(
            t.last(),
        ));
        lemma_dec_val_prefix_le(s, j + 1);
    }
}

/// The one-character string for a digit value.
pub fn dec_digit_str(d: u64) -> (r: &'static str)
    requires
        d < 10,
    ensures
        r@ == seq![dec_digit_char(d as nat)],
{
    if d == 0 {
        proof {
            reveal_strlit("0");
            assert("0"@ =~= seq![dec_digit_char(0)]);
        }
        "0"
    } else if d == 1 {
        proof {
            reveal_strlit("1");
            assert("1"@ =~= seq![dec_digit_char(1)]);
        }
        "1"
    } else if d == 2 {
        proof {
            reveal_strlit("2");
            assert("2"@ =~= seq![dec_digit_char(2)]);
        }
        "2"
    } else if d == 3 {
        proof {
            reveal_strlit("3");
            assert("3"@ =~= seq![dec_digit_char(3)]);
        }
        "3"
    } else if d == 4 {
        proof {
            reveal_strlit("4");
            assert("4"@ =~= seq![dec_digit_char(4)]);
        }
        "4"
    } else if d == 5 {
        proof {
            reveal_strlit("5");
            assert("5"@ =~= seq![dec_digit_char(5)]);
        }
        "5"
    } else if d == 6 {
        proof {
            reveal_strlit("6");
            assert("6"@ =~= seq![dec_digit_char(6)]);
        }
        "6"
    } else if d == 7 {
        proof {
            reveal_strlit("7");
            assert("7"@ =~= seq![dec_digit_char(7)]);
        }
        "7"
    } else if d == 8 {
        proof {
            reveal_strlit("8");
            assert("8"@ =~= seq![dec_digit_char(8)]);
        }
        "8"
    } else {
        proof {
            reveal_strlit("9");
            assert("9"@ =~= seq![dec_digit_char(9)]);
        }
        "9"
    }
}

/// Appends the decimal rendering of `n` to `s`.
pub fn append_dec_u64(s: String, n: u64) -> (r: String)
    ensures
        r@ == s@ + dec_digits(n as nat),
    decreases n,
{
    if n < 10 {
        let r = s.concat(dec_digit_str(n));
        proof {
            assert(r@ =~= s@ + dec_digits(n as nat));
        }
        r
    } else {
        let q = n / 10;
        let d = n % 10;
        let s2 = append_dec_u64(s, q);
        let r = s2.concat(dec_digit_str(d));
        proof {
            assert(q as nat == n as nat / 10);
            assert(d as nat == n as nat % 10);
            assert(r@ =~= s@ + dec_digits(n as nat));
        }
        r
    }
}

/// The decimal rendering of `n` as a fresh string.
pub fn u64_to_dec_string(n: u64) -> (r: String)
    ensures
        r@ == dec_digits(n as nat),
{
    let r = append_dec_u64(String::new(), n);
    proof {
        assert(Seq::<char>::empty() + dec_digits(n as nat) =~= dec_digits(n as nat));
    }
    r
}

/// Character-wise string equality.
pub fn str_eq(a: &str, b: &str) -> (r: bool)
    ensures
        r == (a@ == b@),
{
    let alen = a.unicode_len();
    let blen = b.unicode_len();
    if alen != blen {
        return false;
    }
    let mut i: usize = 0;
    while i < alen
        invariant
            0 <= i <= alen,
            alen == a@.len(),
            alen == b@.len(),
            forall|j: int| 0 <= j < i ==> a@[j] == b@[j],
        decreases alen - i,
    {
        if a.get_char(i) != b.get_char(i) {
            return false;
        }
        i += 1;
    }
    proof {
        assert(a@ =~= b@);
    }
    true
}

/// What a configuration value must look like to stand for a positive count:
/// an optional leading `'+'`, then at least one decimal digit, with a value
/// between one and `i32::MAX`. Anything else — empty, signed negative, a
/// non-digit, zero, or a value out of range — does not parse.
pub open spec fn parse_pos_i32(s: Seq<char>) -> Option<i32> {
    let digits = if s.len() > 0 && s[0] == '+' {
        s.subrange(1, s.len() as int)
    } else {
        s
    };
    if digits.len() > 0 && all_dec_digits(digits) && 1 <= dec_val(digits) && dec_val(digits)
        <= i32::MAX {
        Some(dec_val(digits) as i32)
    } else {
        None
    }
}

/// Parses a strictly positive `i32` from `s`; `None` exactly when `s` does not
/// denote a value in `1 ..= i32::MAX`.
pub fn parse_positive_i32(s: &str) -> (r: Option<i32>)
    ensures
        r == parse_pos_i32(s@),
{
    let len = s.unicode_len();
    if len == 0 {
        return None;
    }
    let start: usize = if s.get_char(0) == '+' {
        1
    } else {
        0
    };
    let ghost digits: Seq<char> = s@.subrange(start as int, len as int);
    proof {
        assert(s@.subrange(0, s@.len() as int) =~= s@);
    }
    if start == len {
        return None;
    }
    let mut i: usize = start;
    let mut acc: u64 = 0;
    while i < len
        invariant
            start <= i <= len,
            start < len,
            start <= 1,
            len == s@.len(),
            (start == 1) <==> (s@.len() > 0 && s@[0] == '+'),
            digits == s@.subrange(start as int, len as int),
            acc == dec_val(s@.subrange(start as int, i as int)),
            all_dec_digits(s@.subrange(start as int, i as int)),
            acc <= i32::MAX,
        decreases len - i,
    {
        let c = s.get_char(i);
        let cu = c as u32;
        if cu < 48 || cu > 57 {
            proof {
                assert(digits[i - start] == s@[i as int]);
                assert(!is_dec_digit(digits[i - start]));
                assert(!all_dec_digits(digits));
                assert(parse_pos_i32(s@) is None);
            }
            return None;
        }
        let d: u64 = (cu - 48) as u64;
        proof {
            assert(s@.subrange(start as int, (i + 1) as int).drop_last() =~= s@.subrange(
                start as int,
                i as int,
            ));
            assert(s@.subrange(start as int, (i + 1) as int).last() == s@[i as int]);
            assert(d == dec_digit_val(s@[i as int]));
        }
        let next = acc * 10 + d;
        if next > 0x7fff_ffff {
            proof {
                assert(dec_val(s@.subrange(start as int, (i + 1) as int)) == next);
                assert(digits.subrange(0, (i + 1 - start) as int) =~= s@.subrange(
                    start as int,
                    (i + 1) as int,
                ));
                lemma_dec_val_prefix_le(digits, (i + 1 - start) as int);
                assert(dec_val(digits) > i32::MAX);
                assert(digits == (if s@.len() > 0 && s@[0] == '+' {
                    s@.subrange(1, s@.len() as int)
                } else {
                    s@
                }));
                assert(parse_pos_i32(s@) is None);
            }
            return None;
        }
        acc = next;
        proof {
            let pre = s@.subrange(start as int, i as int);
            let post = s@.subrange(start as int, (i + 1) as int);
            assert forall|j: int| 0 <= j < post.len() implies is_dec_digit(#[trigger] post[j]) by {
                if j < post.len() - 1 {
                    assert(post[j] == s@[start + j]);
                    assert(is_dec_digit(pre[j]));
                } else {
                    assert(post[j] == s@[i as int]);
                }
            }
        }
        i += 1;
    }
    proof {
        assert(s@.subrange(start as int, len as int) == digits);
    }
    if acc == 0 {
        return None;
    }
    proof {
        assert(parse_pos_i32(s@) == Some(acc as i32));
    }
    Some(acc as i32)
}

} // verus!
