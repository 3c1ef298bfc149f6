//! Verified decimal parsing and formatting for the string-encoded amounts
//! that cross the operation surface.

use vstd::prelude::*;
use vstd::string::StrSliceExecFns;
use vstd::string::StringExecFns;

verus! {

/// Whether `c` is a decimal digit.
pub open spec fn is_digit(c: char) -> bool {
    48 <= c as int <= 57
}

/// The numeric value of the digit `c`.
pub open spec fn digit_val(c: char) -> nat {
    (c as int - 48) as nat
}

/// The digit denoting the value `d`.
pub open spec fn digit_char(d: nat) -> char {
    if d == 0 {
        '0'
    } else if d == 1 {
        '1'
    } else if d == 2 {
        '2'
    } else if d == 3 {
        '3'
    } else if d == 4 {
        '4'
    } else if d == 5 {
        '5'
    } else if d == 6 {
        '6'
    } else if d == 7 {
        '7'
    } else if d == 8 {
        '8'
    } else {
        '9'
    }
}

/// Whether `s` is a non-empty string of decimal digits.
pub open spec fn is_dec_digits(s: Seq<char>) -> bool {
    s.len() > 0 && forall|i: int| 0 <= i < s.len() ==> is_digit(#[trigger] s[i])
}

/// The number the digit string `s` denotes.
pub open spec fn dec_value(s: Seq<char>) -> nat
    decreases s.len(),
{
    if s.len() == 0 {
        0
    } else {
        dec_value(s.drop_last()) * 10 + digit_val(s.last())
    }
}

/// The canonical decimal rendering of `n`: non-empty, all digits, and no
/// leading zero except for `n == 0` itself.
pub open spec fn dec_string_of(n: nat) -> Seq<char>
    decreases n,
{
    if n < 10 {
        seq![digit_char(n)]
    } else {
        dec_string_of(n / 10).push(digit_char(n % 10))
    }
}

/// A digit string's value only grows as more digits are appended.
proof fn lemma_dec_value_prefix_le(s: Seq<char>, i: int)
    requires
        0 <= i <= s.len(),
    ensures
        dec_value(s.subrange(0, i)) <= dec_value(s),
    decreases s.len(),
{
    if i == s.len() {
        assert(s.subrange(0, i) =~= s);
    } else {
        lemma_dec_value_prefix_le(s.drop_last(), i);
        assert(s.drop_last().subrange(0, i) =~= s.subrange(0, i));
        assert(dec_value(s.drop_last()) * 10 >= dec_value(s.drop_last()));
    }
}

/// The canonical rendering of `n` is a digit string and denotes `n`
/// itself, so rendering and parsing are inverse to one another.
pub proof fn lemma_dec_string_of_value(n: nat)
    ensures
        is_dec_digits(dec_string_of(n)),
        dec_value(dec_string_of(n)) == n,
    decreases n,
{
    if n < 10 {
        let s = dec_string_of(n);
        assert(digit_char(n) as int == 48 + n);
        assert(s.drop_last() =~= Seq::<char>::empty());
        assert(dec_value(Seq::<char>::empty()) == 0);
        assert(dec_value(s) == digit_val(digit_char(n)));
    } else {
        lemma_dec_string_of_value(n / 10);
        let prefix = dec_string_of(n / 10);
        let c = digit_char(n % 10);
        assert(c as int == 48 + (n % 10));
        let s = dec_string_of(n);
        assert(s.drop_last() =~= prefix);
        assert(dec_value(s) == dec_value(prefix) * 10 + digit_val(c));
        assert(n / 10 * 10 + n % 10 == n);
        assert forall|i: int| 0 <= i < s.len() implies is_digit(s[i]) by {
            if i < s.len() - 1 {
                assert(s[i] == prefix[i]);
            } else {
                assert(s[i] == c);
            }
        }
    }
}

/// Parse a decimal string. Returns the denoted number exactly when the
/// string is non-empty, holds only digits, and denotes a number that fits;
/// every other string is rejected.
pub fn parse_u128(s: &str) -> (r: Option<u128>)
    ensures
        r == (if is_dec_digits(s@) && dec_value(s@) <= u128::MAX {
            Some(dec_value(s@) as u128)
        } else {
            None::<u128>
        }),
{
    let n: usize = s.unicode_len();
    if n == 0 {
        return None;
    }
    let mut acc: u128 = 0;
    let mut i: usize = 0;
    while i < n
        invariant
            0 < n == s@.len(),
            i <= n,
            forall|j: int| 0 <= j < i ==> is_digit(#[trigger] s@[j]),
            acc == dec_value(s@.subrange(0, i as int)),
        decreases n - i,
    {
        let c: char = s.get_char(i);
        let u: u32 = c as u32;
        if u < 48 || u > 57 {
            proof {
                assert(!is_digit(s@[i as int]));
            }
            return None;
        }
        let d: u128 = (u - 48) as u128;
        let ghost prefix_next: Seq<char> = s@.subrange(0, i + 1);
        proof {
            assert(prefix_next.drop_last() =~= s@.subrange(0, i as int));
            assert(prefix_next.last() == s@[i as int]);
        }
        if acc > u128::MAX / 10 {
            proof {
                assert(acc * 10 + d > u128::MAX) by (nonlinear_arith)
                    requires
                        acc > u128::MAX / 10,
                        d >= 0,
                ;
                if is_dec_digits(s@) && dec_value(s@) <= u128::MAX {
                    lemma_dec_value_prefix_le(s@, i + 1);
                    assert(false);
                }
            }
            return None;
        }
        proof {
            assert(acc * 10 <= u128::MAX) by (nonlinear_arith)
                requires
                    acc <= u128::MAX / 10,
            ;
        }
        let shifted: u128 = acc * 10;
        if d > u128::MAX - shifted {
            proof {
                if is_dec_digits(s@) && dec_value(s@) <= u128::MAX {
                    lemma_dec_value_prefix_le(s@, i + 1);
                    assert(false);
                }
            }
            return None;
        }
        acc = shifted + d;
        i = i + 1;
    }
    proof {
        assert(s@.subrange(0, n as int) =~= s@);
    }
    Some(acc)
}

/// The one-character string for the digit value `d`.
fn digit_str(d: u128) -> (r: &'static str)
    requires
        d < 10,
    ensures
        r@ == seq![digit_char(d as nat)],
{
    proof {
        reveal_strlit("0");
        reveal_strlit("1");
        reveal_strlit("2");
        reveal_strlit("3");
        reveal_strlit("4");
        reveal_strlit("5");
        reveal_strlit("6");
        reveal_strlit("7");
        reveal_strlit("8");
        reveal_strlit("9");
        assert("0"@ =~= seq![digit_char(0)]);
        assert("1"@ =~= seq![digit_char(1)]);
        assert("2"@ =~= seq![digit_char(2)]);
        assert("3"@ =~= seq![digit_char(3)]);
        assert("4"@ =~= seq![digit_char(4)]);
        assert("5"@ =~= seq![digit_char(5)]);
        assert("6"@ =~= seq![digit_char(6)]);
        assert("7"@ =~= seq![digit_char(7)]);
        assert("8"@ =~= seq![digit_char(8)]);
        assert("9"@ =~= seq![digit_char(9)]);
    }
    if d == 0 {
        "0"
    } else if d == 1 {
        "1"
    } else if d == 2 {
        "2"
    } else if d == 3 {
        "3"
    } else if d == 4 {
        "4"
    } else if d == 5 {
        "5"
    } else if d == 6 {
        "6"
    } else if d == 7 {
        "7"
    } else if d == 8 {
        "8"
    } else {
        "9"
    }
}

/// Render `v` as its canonical decimal string.
pub fn to_decimal(v: u128) -> (r: String)
    ensures
        r@ == dec_string_of(v as nat),
    decreases v,
{
    if v < 10 {
        String::from_str(digit_str(v))
    } else {
        proof {
            assert(v / 10 < v) by (nonlinear_arith)
                requires
                    v >= 10,
            ;
        }
        let mut s = to_decimal(v / 10);
        s.append(digit_str(v % 10));
        proof {
            assert(s@ =~= dec_string_of((v / 10) as nat).push(digit_char((v % 10) as nat)));
        }
        s
    }
}

} // verus!
