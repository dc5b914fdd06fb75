//! Decimal text: the timestamp strings the store writes, and the chapter id
//! text the lookup surface accepts, are plain base-ten numerals.

use vstd::prelude::*;
use vstd::string::StrSliceExecFns;
use vstd::string::StringExecFns;

verus! {

/// `c` is a decimal digit.
pub open spec fn is_digit(c: char) -> bool {
    '0' <= c && c <= '9'
}

/// The digit character for a value below ten.
pub open spec fn digit_char(d: int) -> char {
    if d == 0 {
        '0'
    } else if d == 1 {
        '1'
    } else if d == 2 {
        '2'
    } else if d == 3 {
        '3'
    } else if d == 4 {
        '4'
    } else if d == 5 {
        '5'
    } else if d == 6 {
        '6'
    } else if d == 7 {
        '7'
    } else if d == 8 {
        '8'
    } else {
        '9'
    }
}

/// The value of a digit character.
pub open spec fn digit_val(c: char) -> int {
    c as int - '0' as int
}

/// The canonical base-ten numeral of `n`: no sign, no leading zero except
/// for zero itself.
pub open spec fn dec_str(n: nat) -> Seq<char>
    decreases n,
{
    if n < 10 {
        seq![digit_char(n as int)]
    } else {
        dec_str(n / 10) + seq![digit_char((n % 10) as int)]
    }
}

/// `s` is the canonical numeral of some natural number.
pub open spec fn is_dec_string(s: Seq<char>) -> bool {
    exists|n: nat| s == dec_str(n)
}

/// Every character of `s` is a decimal digit.
pub open spec fn all_digits(s: Seq<char>) -> bool {
    forall|i: int| 0 <= i < s.len() ==> is_digit(#[trigger] s[i])
}

/// The value of a digit string, read left to right; 0 for the empty string.
pub open spec fn dec_val(s: Seq<char>) -> int
    decreases s.len(),
{
    if s.len() == 0 {
        0
    } else {
        dec_val(s.drop_last()) * 10 + digit_val(s.last())
    }
}

/// A digit string never denotes a negative value.
pub proof fn lemma_dec_val_nonneg(s: Seq<char>)
    requires
        all_digits(s),
    ensures
        0 <= dec_val(s),
    decreases s.len(),
{
    if s.len() > 0 {
        assert(all_digits(s.drop_last()));
        lemma_dec_val_nonneg(s.drop_last());
    }
}

/// Reading more digits never shrinks the value: the value of a prefix is a
/// lower bound for the value of the whole digit string.
pub proof fn lemma_dec_val_prefix(s: Seq<char>, k: int)
    requires
        all_digits(s),
        0 <= k <= s.len(),
    ensures
        dec_val(s.subrange(0, k)) <= dec_val(s),
    decreases s.len() - k,
{
    if k < s.len() {
        let longer = s.subrange(0, k + 1);
        assert(longer.drop_last() == s.subrange(0, k));
        assert(all_digits(s.subrange(0, k)));
        lemma_dec_val_nonneg(s.subrange(0, k));
        assert(dec_val(s.subrange(0, k)) <= dec_val(longer));
        lemma_dec_val_prefix(s, k + 1);
    } else {
        assert(s.subrange(0, k) == s);
    }
}

/// The string of one digit.
fn digit_str(d: u64) -> (r: &'static str)
    requires
        d < 10,
    ensures
        r@ == seq![digit_char(d as int)],
{
    proof {
        reveal_strlit("0");
        reveal_strlit("1");
        reveal_strlit("2");
        reveal_strlit("3");
        reveal_strlit("4");
        reveal_strlit("5");
        reveal_strlit("6");
        reveal_strlit("7");
        reveal_strlit("8");
        reveal_strlit("9");
    }
    if d == 0 {
        "0"
    } else if d == 1 {
        "1"
    } else if d == 2 {
        "2"
    } else if d == 3 {
        "3"
    } else if d == 4 {
        "4"
    } else if d == 5 {
        "5"
    } else if d == 6 {
        "6"
    } else if d == 7 {
        "7"
    } else if d == 8 {
        "8"
    } else {
        "9"
    }
}

/// Formats `n` as its canonical base-ten numeral.
pub fn u64_to_dec_string(n: u64) -> (r: String)
    ensures
        r@ == dec_str(n as nat),
    decreases n,
{
    if n < 10 {
        String::from_str(digit_str(n))
    } else {
        let mut s = u64_to_dec_string(n / 10);
        s.append(digit_str(n % 10));
        proof {
            assert(s@ == dec_str((n / 10) as nat) + seq![digit_char((n % 10) as int)]);
        }
        s
    }
}

/// Parses a chapter id written in base ten. Returns the value exactly when
/// the text is one or more digits and the value fits the id type; anything
/// else — empty text, a stray character, a value past the largest id —
/// yields `None`.
pub fn parse_dec_i64(s: &str) -> (r: Option<i64>)
    ensures
        r matches Some(v) ==> s@.len() > 0 && all_digits(s@) && 0 <= v && v as int == dec_val(s@),
        r is None ==> !(s@.len() > 0 && all_digits(s@) && dec_val(s@) <= i64::MAX),
{
    let len: usize = s.unicode_len();
    if len == 0 {
        return None;
    }
    let mut i: usize = 0;
    let mut v: i64 = 0;
    while i < len
        invariant
            0 <= i <= len,
            len == s@.len(),
            all_digits(s@.subrange(0, i as int)),
            0 <= v,
            v as int == dec_val(s@.subrange(0, i as int)),
        decreases len - i,
    {
        let c = s.get_char(i);
        let cv: u32 = c as u32;
        if cv < 48 || 57 < cv {
            assert(!is_digit(s@[i as int]));
            return None;
        }
        let d: i64 = ((cv - 48) as u8) as i64;
        assert(d == digit_val(s@[i as int]));
        if v > (i64::MAX - d) / 10 {
            proof {
                let pre = s@.subrange(0, i + 1);
                assert(pre.drop_last() == s@.subrange(0, i as int));
                assert(dec_val(pre) == v * 10 + d);
                assert(v * 10 + d > i64::MAX) by {
                    assert(v >= (i64::MAX - d) / 10 + 1);
                    assert(((i64::MAX - d) / 10 + 1) * 10 >= i64::MAX - d + 1) by (nonlinear_arith);
                    assert(v * 10 >= ((i64::MAX - d) / 10 + 1) * 10) by (nonlinear_arith)
                        requires
                            v >= (i64::MAX - d) / 10 + 1,
                    ;
                }
                if all_digits(s@) {
                    lemma_dec_val_prefix(s@, i + 1);
                }
            }
            return None;
        }
        proof {
            assert(v * 10 + d <= i64::MAX) by {
                assert(v <= (i64::MAX - d) / 10);
                assert(((i64::MAX - d) / 10) * 10 <= i64::MAX - d) by (nonlinear_arith);
                assert(v * 10 <= ((i64::MAX - d) / 10) * 10) by (nonlinear_arith)
                    requires
                        0 <= v && v <= (i64::MAX - d) / 10,
                ;
            }
            let pre = s@.subrange(0, i + 1);
            assert(pre.drop_last() == s@.subrange(0, i as int));
            assert(dec_val(pre) == v * 10 + d);
        }
        v = v * 10 + d;
        i = i + 1;
    }
    proof {
        assert(s@.subrange(0, len as int) == s@);
    }
    Some(v)
}

} // verus!
