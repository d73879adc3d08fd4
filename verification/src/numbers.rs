//! Decimal numerals: what a counter looks like as text, and what a numeric
//! string is worth.
//!
//! The controller sometimes sends a counter as the string `"12"` instead of
//! the integer `12`, so the flexible decoder needs an exact account of
//! base-10 parsing; the renderer needs the converse, formatting a counter as
//! its decimal numeral.

use vstd::prelude::*;

verus! {

/// Whether `c` is a decimal digit.
pub open spec fn is_digit(c: char) -> bool {
    match c {
        '0' => true,
        '1' => true,
        '2' => true,
        '3' => true,
        '4' => true,
        '5' => true,
        '6' => true,
        '7' => true,
        '8' => true,
        '9' => true,
        _ => false,
    }
}

/// The numeric worth of a digit character; 0 for anything else.
pub open spec fn digit_val(c: char) -> nat {
    match c {
        '1' => 1,
        '2' => 2,
        '3' => 3,
        '4' => 4,
        '5' => 5,
        '6' => 6,
        '7' => 7,
        '8' => 8,
        '9' => 9,
        _ => 0,
    }
}

/// The digit character for a value below ten.
pub open spec fn digit_char(d: nat) -> char {
    if d == 0 {
        '0'
    } else if d == 1 {
        '1'
    } else if d == 2 {
        '2'
    } else if d == 3 {
        '3'
    } else if d == 4 {
        '4'
    } else if d == 5 {
        '5'
    } else if d == 6 {
        '6'
    } else if d == 7 {
        '7'
    } else if d == 8 {
        '8'
    } else {
        '9'
    }
}

/// The decimal numeral of `n`, most significant digit first, without
/// leading zeros (`0` itself is the single digit `'0'`).
pub open spec fn dec_digits(n: nat) -> Seq<char>
    decreases n,
{
    if n < 10 {
        seq![digit_char(n)]
    } else {
        dec_digits(n / 10).push(digit_char(n % 10))
    }
}

/// Whether every character of `s` is a decimal digit.
pub open spec fn all_digits(s: Seq<char>) -> bool {
    forall|k: int| 0 <= k < s.len() ==> is_digit(#[trigger] s[k])
}

/// The base-10 worth of a digit sequence (0 when empty).
pub open spec fn digits_value(s: Seq<char>) -> nat
    decreases s.len(),
{
    if s.len() == 0 {
        0
    } else {
        digits_value(s.drop_last()) * 10 + digit_val(s.last())
    }
}

/// What parsing `s` as an unsigned 32-bit decimal numeral yields: the
/// string must be non-empty, all digits, and in range; leading zeros are
/// allowed and do not change the worth.
pub open spec fn parse_u32_spec(s: Seq<char>) -> Option<u32> {
    if s.len() > 0 && all_digits(s) && digits_value(s) <= u32::MAX {
        Some(digits_value(s) as u32)
    } else {
        None
    }
}

/// The numeral of `n` is non-empty, all digits, and worth `n` again.
pub proof fn lemma_dec_digits_value(n: nat)
    ensures
        dec_digits(n).len() >= 1,
        all_digits(dec_digits(n)),
        digits_value(dec_digits(n)) == n,
    decreases n,
{
    if n < 10 {
        let s = dec_digits(n);
        assert(s.len() == 1);
        assert(s.last() == digit_char(n));
        assert(s.drop_last() =~= Seq::<char>::empty());
        assert(digits_value(Seq::<char>::empty()) == 0);
        assert(digits_value(s) == digit_val(digit_char(n)));
        assert(digit_val(digit_char(n)) == n);
    } else {
        lemma_dec_digits_value(n / 10);
        let p = dec_digits(n / 10);
        let s = dec_digits(n);
        assert(s == p.push(digit_char(n % 10)));
        assert(s.drop_last() =~= p);
        assert(s.last() == digit_char(n % 10));
        assert(digit_val(digit_char(n % 10)) == n % 10);
        assert(n / 10 * 10 + n % 10 == n) by (nonlinear_arith);
        assert(digits_value(s) == n);
        assert forall|k: int| 0 <= k < s.len() implies is_digit(#[trigger] s[k]) by {
            if k < p.len() {
                assert(s[k] == p[k]);
            }
        }
    }
}

/// Parsing the numeral of a small value gives the value back.
pub proof fn lemma_parse_of_dec_digits(n: nat)
    requires
        n <= u32::MAX,
    ensures
        parse_u32_spec(dec_digits(n)) == Some(n as u32),
{
    lemma_dec_digits_value(n);
}

/// The digit character for `d`, as a one-character string.
fn digit_str(d: u8) -> (r: &'static str)
    requires
        d < 10,
    ensures
        r@ == seq![digit_char(d as nat)],
{
    match d {
        0 => {
            proof {
                reveal_strlit("0");
                assert("0"@ =~= seq![digit_char(0 as nat)]);
            }
            "0"
        },
        1 => {
            proof {
                reveal_strlit("1");
                assert("1"@ =~= seq![digit_char(1 as nat)]);
            }
            "1"
        },
        2 => {
            proof {
                reveal_strlit("2");
                assert("2"@ =~= seq![digit_char(2 as nat)]);
            }
            "2"
        },
        3 => {
            proof {
                reveal_strlit("3");
                assert("3"@ =~= seq![digit_char(3 as nat)]);
            }
            "3"
        },
        4 => {
            proof {
                reveal_strlit("4");
                assert("4"@ =~= seq![digit_char(4 as nat)]);
            }
            "4"
        },
        5 => {
            proof {
                reveal_strlit("5");
                assert("5"@ =~= seq![digit_char(5 as nat)]);
            }
            "5"
        },
        6 => {
            proof {
                reveal_strlit("6");
                assert("6"@ =~= seq![digit_char(6 as nat)]);
            }
            "6"
        },
        7 => {
            proof {
                reveal_strlit("7");
                assert("7"@ =~= seq![digit_char(7 as nat)]);
            }
            "7"
        },
        8 => {
            proof {
                reveal_strlit("8");
                assert("8"@ =~= seq![digit_char(8 as nat)]);
            }
            "8"
        },
        _ => {
            proof {
                reveal_strlit("9");
                assert("9"@ =~= seq![digit_char(9 as nat)]);
            }
            "9"
        },
    }
}

/// The numeral spelled by `low` read back to front (`low` holds digit
/// values least significant first).
spec fn rev_digit_chars(low: Seq<u8>) -> Seq<char> {
    Seq::new(low.len(), |i: int| digit_char(low[low.len() - 1 - i] as nat))
}

/// Formats `n` as its decimal numeral.
pub fn u32_to_decimal(n: u32) -> (r: String)
    ensures
        r@ == dec_digits(n as nat),
{
    let mut rest: u32 = n;
    let mut low: Vec<u8> = Vec::new();
    low.push((rest % 10) as u8);
    proof {
        assert(rev_digit_chars(low@) =~= seq![digit_char((n % 10) as nat)]);
        if n < 10 {
            assert(dec_digits(n as nat) == seq![digit_char(n as nat)]);
        }
    }
    rest = rest / 10;
    while rest > 0
        invariant
            forall|k: int| 0 <= k < low@.len() ==> #[trigger] low@[k] < 10,
            rest == 0 ==> dec_digits(n as nat) == rev_digit_chars(low@),
            rest > 0 ==> dec_digits(n as nat) == dec_digits(rest as nat) + rev_digit_chars(low@),
        decreases rest,
    {
        let d = (rest % 10) as u8;
        let ghost old_low = low@;
        low.push(d);
        proof {
            assert(rev_digit_chars(low@) =~= seq![digit_char(d as nat)] + rev_digit_chars(
                old_low,
            ));
            if rest >= 10 {
                assert(dec_digits(rest as nat) == dec_digits((rest / 10) as nat).push(
                    digit_char((rest % 10) as nat),
                ));
                assert(dec_digits((rest / 10) as nat).push(digit_char(d as nat)) =~= dec_digits(
                    (rest / 10) as nat,
                ) + seq![digit_char(d as nat)]);
                assert(dec_digits(n as nat) =~= dec_digits((rest / 10) as nat)
                    + rev_digit_chars(low@));
            } else {
                assert(dec_digits(rest as nat) == seq![digit_char(d as nat)]);
                assert(dec_digits(n as nat) =~= rev_digit_chars(low@));
            }
        }
        rest = rest / 10;
        proof {
            assert(rest > 0 ==> rest < 10 * rest) by (nonlinear_arith);
        }
    }
    let mut r = String::new();
    let mut j: usize = low.len();
    while j > 0
        invariant
            j <= low@.len(),
            forall|k: int| 0 <= k < low@.len() ==> #[trigger] low@[k] < 10,
            dec_digits(n as nat) == rev_digit_chars(low@),
            r@ == rev_digit_chars(low@).take(low@.len() - j),
        decreases j,
    {
        j = j - 1;
        let ds = digit_str(low[j]);
        r.append(ds);
        proof {
            let rev = rev_digit_chars(low@);
            assert(rev[low@.len() - 1 - (j as int)] == digit_char(low@[j as int] as nat));
            assert(rev.take(low@.len() - j) =~= rev.take(low@.len() - j - 1).push(
                rev[low@.len() - 1 - (j as int)],
            ));
            assert(r@ =~= rev.take(low@.len() - j));
        }
    }
    proof {
        assert(rev_digit_chars(low@).take(low@.len() - 0) =~= rev_digit_chars(low@));
    }
    r
}

/// Parses `s` as an unsigned 32-bit decimal numeral, yielding nothing on
/// any non-digit character, an empty string, or an out-of-range worth.
pub fn parse_u32(s: &str) -> (r: Option<u32>)
    ensures
        r == parse_u32_spec(s@),
{
    let n = s.unicode_len();
    if n == 0 {
        return None;
    }
    let limit: u64 = u32::MAX as u64;
    let mut acc: u64 = 0;
    let mut i: usize = 0;
    while i < n
        invariant
            n as nat == s@.len(),
            i <= n,
            limit == u32::MAX,
            forall|k: int| 0 <= k < i ==> is_digit(#[trigger] s@[k]),
            digits_value(s@.take(i as int)) <= u32::MAX ==> acc == digits_value(
                s@.take(i as int),
            ),
            digits_value(s@.take(i as int)) > u32::MAX ==> acc > limit,
            acc <= limit * 10 + 9,
        decreases n - i,
    {
        let c = s.get_char(i);
        match digit_of_char(c) {
            None => {
                return None;
            },
            Some(d) => {
                proof {
                    assert(s@.take(i + 1).drop_last() =~= s@.take(i as int));
                    assert(s@.take(i + 1).last() == s@[i as int]);
                }
                if acc <= limit {
                    acc = acc * 10 + (d as u64);
                } else {
                    proof {
                        let v = digits_value(s@.take(i as int));
                        assert(v * 10 + digit_val(s@[i as int]) >= v) by (nonlinear_arith);
                    }
                }
                i = i + 1;
            },
        }
    }
    proof {
        assert(s@.take(n as int) =~= s@);
    }
    if acc > limit {
        None
    } else {
        Some(acc as u32)
    }
}

/// Classifies `c` as a decimal digit, yielding its value.
fn digit_of_char(c: char) -> (r: Option<u8>)
    ensures
        r is Some <==> is_digit(c),
        r matches Some(d) ==> d as nat == digit_val(c) && d < 10,
{
    match c {
        '0' => Some(0),
        '1' => Some(1),
        '2' => Some(2),
        '3' => Some(3),
        '4' => Some(4),
        '5' => Some(5),
        '6' => Some(6),
        '7' => Some(7),
        '8' => Some(8),
        '9' => Some(9),
        _ => None,
    }
}

} // verus!
