//! Decimal digit strings: the unsigned-integer text accepted for
//! `max_tokens`, the canonical decimal rendering used in the request body,
//! and the number grammar accepted for `temperature`.

use vstd::prelude::*;

verus! {

/// True when `c` is an ASCII decimal digit.
pub open spec fn is_digit(c: char) -> bool {
    48 <= c as u32 <= 57
}

/// Numeric value of the digit `c`.
pub open spec fn digit_val(c: char) -> nat {
    (c as u32 - 48) as nat
}

/// True when `s` is one or more decimal digits and nothing else.
pub open spec fn is_uint_text(s: Seq<char>) -> bool {
    s.len() > 0 && (forall|i: int| 0 <= i < s.len() ==> is_digit(#[trigger] s[i]))
}

/// The number denoted by the digit string `s` (0 for the empty string).
pub open spec fn uint_of(s: Seq<char>) -> nat
    decreases s.len(),
{
    if s.len() == 0 {
        0
    } else {
        uint_of(s.drop_last()) * 10 + digit_val(s.last())
    }
}

/// The digit character for `d` (meaningful for `d < 10`).
pub open spec fn dec_digit(d: nat) -> char {
    if d == 0 {
        '0'
    } else if d == 1 {
        '1'
    } else if d == 2 {
        '2'
    } else if d == 3 {
        '3'
    } else if d == 4 {
        '4'
    } else if d == 5 {
        '5'
    } else if d == 6 {
        '6'
    } else if d == 7 {
        '7'
    } else if d == 8 {
        '8'
    } else {
        '9'
    }
}

/// The canonical decimal form of `n`: no sign, no leading zeros.
pub open spec fn dec_rep(n: nat) -> Seq<char>
    decreases n,
{
    if n < 10 {
        seq![dec_digit(n)]
    } else {
        dec_rep(n / 10) + seq![dec_digit(n % 10)]
    }
}

/// The single-character string holding the digit `d`.
fn digit_str(d: u64) -> (r: &'static str)
    requires
        d < 10,
    ensures
        r@ == seq![dec_digit(d as nat)],
{
    if d == 0 {
        proof {
            reveal_strlit("0");
            assert("0"@ =~= seq!['0']);
        }
        "0"
    } else if d == 1 {
        proof {
            reveal_strlit("1");
            assert("1"@ =~= seq!['1']);
        }
        "1"
    } else if d == 2 {
        proof {
            reveal_strlit("2");
            assert("2"@ =~= seq!['2']);
        }
        "2"
    } else if d == 3 {
        proof {
            reveal_strlit("3");
            assert("3"@ =~= seq!['3']);
        }
        "3"
    } else if d == 4 {
        proof {
            reveal_strlit("4");
            assert("4"@ =~= seq!['4']);
        }
        "4"
    } else if d == 5 {
        proof {
            reveal_strlit("5");
            assert("5"@ =~= seq!['5']);
        }
        "5"
    } else if d == 6 {
        proof {
            reveal_strlit("6");
            assert("6"@ =~= seq!['6']);
        }
        "6"
    } else if d == 7 {
        proof {
            reveal_strlit("7");
            assert("7"@ =~= seq!['7']);
        }
        "7"
    } else if d == 8 {
        proof {
            reveal_strlit("8");
            assert("8"@ =~= seq!['8']);
        }
        "8"
    } else {
        proof {
            reveal_strlit("9");
            assert("9"@ =~= seq!['9']);
        }
        "9"
    }
}

/// Renders `n` as its canonical decimal digit string.
pub fn render_u64(n: u64) -> (r: String)
    ensures
        r@ == dec_rep(n as nat),
    decreases n,
{
    if n < 10 {
        String::from_str(digit_str(n))
    } else {
        let mut s = render_u64(n / 10);
        s.append(digit_str(n % 10));
        proof {
            assert(s@ =~= dec_rep(n as nat));
        }
        s
    }
}

/// Renders `n` as its canonical decimal digit string.
pub fn render_usize(n: usize) -> (r: String)
    ensures
        r@ == dec_rep(n as nat),
{
    render_u64(n as u64)
}

/// The number denoted by a digit string never shrinks when the string is
/// extended on the right by more digits.
proof fn lemma_uint_of_prefix(s: Seq<char>, i: int)
    requires
        0 <= i <= s.len(),
        forall|j: int| 0 <= j < s.len() ==> is_digit(#[trigger] s[j]),
    ensures
        uint_of(s.take(i)) <= uint_of(s),
    decreases s.len() - i,
{
    if i == s.len() {
        assert(s.take(i) =~= s);
    } else {
        assert(s.take(i + 1).drop_last() =~= s.take(i));
        assert(s.take(i + 1).last() == s[i]);
        assert(uint_of(s.take(i + 1)) == uint_of(s.take(i)) * 10 + digit_val(s[i]));
        lemma_uint_of_prefix(s, i + 1);
    }
}

/// Parses a digit string into a `usize`.
///
/// Returns `Some` exactly when `s` is one or more decimal digits and the
/// denoted number fits in a `usize`.
pub fn parse_usize_text(s: &str) -> (r: Option<usize>)
    ensures
        match r {
            Some(v) => is_uint_text(s@) && uint_of(s@) == v as nat,
            None => !(is_uint_text(s@) && uint_of(s@) <= usize::MAX),
        },
{
    let n = s.unicode_len();
    if n == 0 {
        return None;
    }
    let mut acc: usize = 0;
    let mut i: usize = 0;
    while i < n
        invariant
            0 <= i <= n,
            n == s@.len(),
            forall|j: int| 0 <= j < i ==> is_digit(#[trigger] s@[j]),
            acc as nat == uint_of(s@.take(i as int)),
        decreases n - i,
    {
        let c = s.get_char(i);
        let v = c as u32;
        if v < 48 || v > 57 {
            proof {
                assert(!is_digit(s@[i as int]));
            }
            return None;
        }
        let d = (v - 48) as usize;
        proof {
            assert(s@.take(i + 1).drop_last() =~= s@.take(i as int));
            assert(s@.take(i + 1).last() == s@[i as int]);
            assert(uint_of(s@.take(i + 1)) == acc as nat * 10 + d as nat);
        }
        acc = match acc.checked_mul(10) {
            Some(a) => match a.checked_add(d) {
                Some(b) => b,
                None => {
                    proof {
                        if is_uint_text(s@) {
                            lemma_uint_of_prefix(s@, i + 1);
                        }
                    }
                    return None;
                },
            },
            None => {
                proof {
                    if is_uint_text(s@) {
                        lemma_uint_of_prefix(s@, i + 1);
                    }
                }
                return None;
            },
        };
        i += 1;
    }
    proof {
        assert(s@.take(n as int) =~= s@);
    }
    Some(acc)
}

/// Position of the first index at or after `i` that does not hold a digit.
pub open spec fn digits_end(s: Seq<char>, i: int) -> int
    decreases s.len() - i
    when 0 <= i <= s.len()
{
    if i < s.len() && is_digit(s[i]) {
        digits_end(s, i + 1)
    } else {
        i
    }
}

/// End of the optional fraction part starting at `i`, or -1 when a lone
/// decimal point is not followed by a digit.
pub open spec fn frac_end(s: Seq<char>, i: int) -> int {
    if 0 <= i < s.len() && s[i] == '.' {
        if i + 1 < s.len() && is_digit(s[i + 1]) {
            digits_end(s, i + 1)
        } else {
            -1
        }
    } else {
        i
    }
}

/// End of the optional exponent part starting at `i`, or -1 when an `e`
/// marker is not followed by a (possibly signed) digit string.
pub open spec fn exp_end(s: Seq<char>, i: int) -> int {
    if 0 <= i < s.len() && (s[i] == 'e' || s[i] == 'E') {
        let j: int = if i + 1 < s.len() && (s[i + 1] == '+' || s[i + 1] == '-') {
            i + 2
        } else {
            i + 1
        };
        if j < s.len() && is_digit(s[j]) {
            digits_end(s, j)
        } else {
            -1
        }
    } else {
        i
    }
}

/// True when `s` is a decimal number: an optional minus sign, an integer
/// part with no leading zero, an optional fraction, an optional exponent.
/// Any such text is also a well-formed JSON number token.
pub open spec fn is_number_text(s: Seq<char>) -> bool {
    let i0: int = if s.len() > 0 && s[0] == '-' {
        1
    } else {
        0
    };
    &&& i0 < s.len()
    &&& is_digit(s[i0])
    &&& {
        let i1: int = if s[i0] == '0' {
            i0 + 1
        } else {
            digits_end(s, i0)
        };
        let i2: int = frac_end(s, i1);
        let i3: int = exp_end(s, i2);
        i3 == s.len()
    }
}

/// True when `c` is an ASCII decimal digit.
fn is_digit_char(c: char) -> (r: bool)
    ensures
        r == is_digit(c),
{
    let v = c as u32;
    48 <= v && v <= 57
}

/// Advances over digits: returns the first position at or after `start`
/// that does not hold a digit.
fn skip_digits(s: &str, start: usize) -> (j: usize)
    requires
        start as int <= s@.len(),
    ensures
        j as int == digits_end(s@, start as int),
        start <= j,
        j as int <= s@.len(),
{
    let n = s.unicode_len();
    let mut i = start;
    while i < n && is_digit_char(s.get_char(i))
        invariant
            start <= i <= n,
            n == s@.len(),
            digits_end(s@, start as int) == digits_end(s@, i as int),
        decreases n - i,
    {
        i += 1;
    }
    i
}

/// Decides [`is_number_text`] for the characters of `s`.
pub fn check_number_text(s: &str) -> (r: bool)
    ensures
        r == is_number_text(s@),
{
    let n = s.unicode_len();
    let mut i: usize = 0;
    if n > 0 && s.get_char(0) == '-' {
        i = 1;
    }
    if i >= n {
        return false;
    }
    let c = s.get_char(i);
    if !is_digit_char(c) {
        return false;
    }
    let i1: usize = if c == '0' {
        i + 1
    } else {
        skip_digits(s, i)
    };
    let i2: usize;
    if i1 < n && s.get_char(i1) == '.' {
        if i1 + 1 < n && is_digit_char(s.get_char(i1 + 1)) {
            i2 = skip_digits(s, i1 + 1);
        } else {
            return false;
        }
    } else {
        i2 = i1;
    }
    let i3: usize;
    if i2 < n && (s.get_char(i2) == 'e' || s.get_char(i2) == 'E') {
        let j: usize = if i2 + 1 < n && (s.get_char(i2 + 1) == '+' || s.get_char(i2 + 1) == '-') {
            i2 + 2
        } else {
            i2 + 1
        };
        if j < n && is_digit_char(s.get_char(j)) {
            i3 = skip_digits(s, j);
        } else {
            return false;
        }
    } else {
        i3 = i2;
    }
    i3 == n
}

} // verus!
