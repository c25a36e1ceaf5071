//! Decimal text of integers and the text forms of booleans, as Rust's
//! `Display` and `FromStr` write and read them.
use vstd::prelude::*;

verus! {

/// The character of a decimal digit.
pub open spec fn digit_char(d: int) -> char {
    (48 + d) as char
}

/// `c` is an ASCII decimal digit.
pub open spec fn is_digit(c: char) -> bool {
    '0' <= c && c <= '9'
}

/// The value of an ASCII decimal digit.
pub open spec fn digit_value(c: char) -> int {
    c as int - 48
}

/// The decimal digits of `n`, most significant first, with no leading zero.
pub open spec fn nat_decimal(n: nat) -> Seq<char>
    decreases n,
{
    if n < 10 {
        seq![digit_char(n as int)]
    } else {
        nat_decimal(n / 10).push(digit_char((n % 10) as int))
    }
}

/// The decimal text of `i`: its digits, after a `-` when negative.
pub open spec fn int_decimal(i: int) -> Seq<char> {
    if i < 0 {
        seq!['-'] + nat_decimal((-i) as nat)
    } else {
        nat_decimal(i as nat)
    }
}

/// Every character of `s` is a decimal digit.
pub open spec fn all_digits(s: Seq<char>) -> bool {
    forall|i: int| 0 <= i < s.len() ==> is_digit(#[trigger] s[i])
}

/// The number a string of decimal digits denotes.
pub open spec fn digits_value(s: Seq<char>) -> int
    decreases s.len(),
{
    if s.len() == 0 {
        0
    } else {
        digits_value(s.drop_last()) * 10 + digit_value(s.last())
    }
}

/// The integer `s` denotes in the grammar of Rust's integer `FromStr`:
/// an optional `+` (or `-`, when `signed`) followed by one or more decimal
/// digits; `None` for anything else. The range of the target type is checked
/// apart.
pub open spec fn decimal_value(s: Seq<char>, signed: bool) -> Option<int> {
    if s.len() == 0 {
        None
    } else if (s[0] == '+' || s[0] == '-') && s.len() == 1 {
        None
    } else {
        let negative = s[0] == '-' && signed;
        let digits = if s[0] == '+' || negative {
            s.drop_first()
        } else {
            s
        };
        if all_digits(digits) {
            Some(
                if negative {
                    -digits_value(digits)
                } else {
                    digits_value(digits)
                },
            )
        } else {
            None
        }
    }
}

/// What `s.parse()` gives for an integer type with range `[min, max]`.
pub open spec fn parse_in_range(s: Seq<char>, signed: bool, min: int, max: int) -> Option<int> {
    match decimal_value(s, signed) {
        Some(v) => if min <= v <= max {
            Some(v)
        } else {
            None
        },
        None => None,
    }
}

/// What `s.parse::<bool>()` gives.
pub open spec fn parse_bool_spec(s: Seq<char>) -> Option<bool> {
    if s == "true"@ {
        Some(true)
    } else if s == "false"@ {
        Some(false)
    } else {
        None
    }
}

/// A bound above every value the parsers accept; larger values are clamped to it while reading.
pub const VALUE_CAP: i128 = 0x10_0000_0000_0000_0000i128;

proof fn lemma_digits_value_push(s: Seq<char>, c: char)
    ensures
        digits_value(s.push(c)) == digits_value(s) * 10 + digit_value(c),
{
    assert(s.push(c).drop_last() =~= s);
    assert(s.push(c).last() == c);
}

proof fn lemma_digits_value_nonneg(s: Seq<char>)
    requires
        all_digits(s),
    ensures
        digits_value(s) >= 0,
    decreases s.len(),
{
    if s.len() > 0 {
        assert(all_digits(s.drop_last())) by {
            assert forall|i: int| 0 <= i < s.drop_last().len() implies is_digit(
                #[trigger] s.drop_last()[i],
            ) by {
                assert(s.drop_last()[i] == s[i]);
            }
        }
        lemma_digits_value_nonneg(s.drop_last());
        assert(is_digit(s[s.len() - 1]));
    }
}

fn digit_text(d: u8) -> (r: &'static str)
    requires
        d < 10,
    ensures
        r@ == seq![digit_char(d as int)],
{
    match d {
        0 => {
            proof { reveal_strlit("0"); }
            "0"
        },
        1 => {
            proof { reveal_strlit("1"); }
            "1"
        },
        2 => {
            proof { reveal_strlit("2"); }
            "2"
        },
        3 => {
            proof { reveal_strlit("3"); }
            "3"
        },
        4 => {
            proof { reveal_strlit("4"); }
            "4"
        },
        5 => {
            proof { reveal_strlit("5"); }
            "5"
        },
        6 => {
            proof { reveal_strlit("6"); }
            "6"
        },
        7 => {
            proof { reveal_strlit("7"); }
            "7"
        },
        8 => {
            proof { reveal_strlit("8"); }
            "8"
        },
        _ => {
            proof { reveal_strlit("9"); }
            "9"
        },
    }
}

/// The decimal digits of `n`, least significant first, as numbers.
spec fn low_digits(n: nat) -> Seq<u8>
    decreases n,
{
    if n < 10 {
        seq![n as u8]
    } else {
        seq![(n % 10) as u8] + low_digits(n / 10)
    }
}

proof fn lemma_low_digits(n: nat)
    ensures
        low_digits(n).len() >= 1,
        forall|i: int| 0 <= i < low_digits(n).len() ==> #[trigger] low_digits(n)[i] < 10,
    decreases n,
{
    if n >= 10 {
        lemma_low_digits(n / 10);
    }
}

/// The text of the digits `digits[k..]` written most significant (last) first.
spec fn text_of_low(digits: Seq<u8>) -> Seq<char>
    decreases digits.len(),
{
    if digits.len() == 0 {
        Seq::empty()
    } else {
        text_of_low(digits.drop_first()).push(digit_char(digits[0] as int))
    }
}

proof fn lemma_text_of_low_digits(n: nat)
    ensures
        text_of_low(low_digits(n)) == nat_decimal(n),
    decreases n,
{
    let l = low_digits(n);
    if n >= 10 {
        lemma_text_of_low_digits(n / 10);
        assert(l =~= seq![(n % 10) as u8] + low_digits(n / 10));
        assert(l.drop_first() =~= low_digits(n / 10));
        assert(l[0] == (n % 10) as u8);
        assert(text_of_low(l) == text_of_low(l.drop_first()).push(digit_char(l[0] as int)));
    } else {
        assert(l =~= seq![n as u8]);
        assert(l.drop_first() =~= Seq::<u8>::empty());
        assert(text_of_low(l) == text_of_low(l.drop_first()).push(digit_char(l[0] as int)));
        assert(text_of_low(l) =~= seq![digit_char(n as int)]);
    }
}

/// `text_of_low` of a suffix, grown by one more significant digit to the left.
proof fn lemma_text_of_low_step(digits: Seq<u8>, k: int)
    requires
        0 <= k < digits.len(),
    ensures
        text_of_low(digits.subrange(k, digits.len() as int)) == text_of_low(
            digits.subrange(k + 1, digits.len() as int),
        ).push(digit_char(digits[k] as int)),
{
    assert(digits.subrange(k, digits.len() as int).drop_first() =~= digits.subrange(
        k + 1,
        digits.len() as int,
    ));
}

/// The decimal text of `n`.
pub fn u128_to_decimal(n: u128) -> (r: String)
    ensures
        r@ == nat_decimal(n as nat),
{
    let mut digits: Vec<u8> = Vec::new();
    let mut m: u128 = n;
    proof {
        lemma_low_digits(n as nat);
    }
    loop
        invariant_except_break
            digits@ + low_digits(m as nat) == low_digits(n as nat),
        ensures
            digits@ == low_digits(n as nat),
        decreases m,
    {
        if m < 10 {
            let ghost before = digits@;
            digits.push(m as u8);
            assert(low_digits(m as nat) == seq![m as u8]);
            assert(digits@ =~= before + low_digits(m as nat));
            break;
        }
        digits.push((m % 10) as u8);
        assert(low_digits(m as nat) == seq![(m % 10) as u8] + low_digits((m / 10) as nat));
        assert(digits@ + low_digits((m / 10) as nat) =~= low_digits(n as nat));
        m = m / 10;
    }
    proof {
        lemma_low_digits(n as nat);
        lemma_text_of_low_digits(n as nat);
    }
    let ghost ds = digits@;
    let mut text = String::new();
    let mut k: usize = digits.len();
    assert(ds.subrange(k as int, ds.len() as int) =~= Seq::<u8>::empty());
    while k > 0
        invariant
            digits@ == ds,
            ds == low_digits(n as nat),
            forall|j: int| 0 <= j < ds.len() ==> #[trigger] ds[j] < 10,
            k <= ds.len(),
            text@ == text_of_low(ds.subrange(k as int, ds.len() as int)),
        decreases k,
    {
        k = k - 1;
        proof {
            lemma_text_of_low_step(ds, k as int);
        }
        text.append(digit_text(digits[k]));
    }
    assert(ds.subrange(0, ds.len() as int) =~= ds);
    text
}

/// The decimal text of `i`, as `i.to_string()` writes it.
pub fn i128_to_decimal(i: i128) -> (r: String)
    ensures
        r@ == int_decimal(i as int),
{
    if i < 0 {
        let magnitude: u128 = ((0i128 - (i + 1)) as u128) + 1;
        let digits = u128_to_decimal(magnitude);
        let mut text = "-".to_owned();
        proof {
            reveal_strlit("-");
        }
        text.append(digits.as_str());
        text
    } else {
        u128_to_decimal(i as u128)
    }
}

/// The decimal text of `i`, as `i.to_string()` writes it.
pub fn i64_to_decimal(i: i64) -> (r: String)
    ensures
        r@ == int_decimal(i as int),
{
    i128_to_decimal(i as i128)
}

/// Reads a decimal integer as Rust's integer `FromStr` does for a type
/// whose range is `[min, max]`.
pub fn parse_decimal(s: &str, signed: bool, min: i128, max: i128) -> (r: Option<i128>)
    requires
        -VALUE_CAP < min,
        max <= VALUE_CAP - 1,
    ensures
        r matches Some(v) ==> parse_in_range(s@, signed, min as int, max as int) == Some(v as int),
        r is None ==> parse_in_range(s@, signed, min as int, max as int) is None,
{
    let n = s.unicode_len();
    if n == 0 {
        return None;
    }
    let first = s.get_char(0);
    if (first == '+' || first == '-') && n == 1 {
        return None;
    }
    let negative = first == '-' && signed;
    let start: usize = if first == '+' || negative {
        1
    } else {
        0
    };
    let ghost digits = s@.subrange(start as int, n as int);
    assert(digits =~= if s@[0] == '+' || negative {
        s@.drop_first()
    } else {
        s@
    });
    let mut acc: i128 = 0;
    let mut i: usize = start;
    while i < n
        invariant
            n == s@.len(),
            start <= i <= n,
            n > 0,
            first == s@[0],
            !((first == '+' || first == '-') && n == 1),
            negative == (first == '-' && signed),
            start == (if first == '+' || negative { 1usize } else { 0usize }),
            digits == s@.subrange(start as int, n as int),
            digits == (if s@[0] == '+' || negative {
                s@.drop_first()
            } else {
                s@
            }),
            all_digits(s@.subrange(start as int, i as int)),
            0 <= acc <= VALUE_CAP,
            acc == if digits_value(s@.subrange(start as int, i as int)) < VALUE_CAP {
                digits_value(s@.subrange(start as int, i as int)) as int
            } else {
                VALUE_CAP as int
            },
        decreases n - i,
    {
        let c = s.get_char(i);
        if !('0' <= c && c <= '9') {
            assert(!all_digits(digits)) by {
                assert(digits[i - start] == c);
            }
            return None;
        }
        let d: i128 = (c as u32 - 48u32) as i128;
        proof {
            assert(s@.subrange(start as int, i + 1) =~= s@.subrange(start as int, i as int).push(c));
            lemma_digits_value_push(s@.subrange(start as int, i as int), c);
        }
        if acc >= VALUE_CAP {
            acc = VALUE_CAP;
        } else {
            let next: i128 = acc * 10 + d;
            acc = if next < VALUE_CAP {
                next
            } else {
                VALUE_CAP
            };
        }
        i = i + 1;
    }
    assert(s@.subrange(start as int, n as int) == digits);
    proof {
        lemma_digits_value_nonneg(digits);
    }
    let value: i128 = if negative {
        0 - acc
    } else {
        acc
    };
    if acc >= VALUE_CAP || value < min || value > max {
        return None;
    }
    Some(value)
}

/// Reads an `i64` as `s.parse::<i64>()` does.
pub fn parse_i64(s: &str) -> (r: Option<i64>)
    ensures
        r matches Some(v) ==> parse_in_range(s@, true, i64::MIN as int, i64::MAX as int) == Some(
            v as int,
        ),
        r is None ==> parse_in_range(s@, true, i64::MIN as int, i64::MAX as int) is None,
{
    match parse_decimal(s, true, i64::MIN as i128, i64::MAX as i128) {
        Some(v) => Some(v as i64),
        None => None,
    }
}

/// Reads a `u16` as `s.parse::<u16>()` does.
pub fn parse_u16(s: &str) -> (r: Option<u16>)
    ensures
        r matches Some(v) ==> parse_in_range(s@, false, 0, u16::MAX as int) == Some(v as int),
        r is None ==> parse_in_range(s@, false, 0, u16::MAX as int) is None,
{
    match parse_decimal(s, false, 0, u16::MAX as i128) {
        Some(v) => Some(v as u16),
        None => None,
    }
}

/// Reads a `usize` as `s.parse::<usize>()` does.
pub fn parse_usize(s: &str) -> (r: Option<usize>)
    ensures
        r matches Some(v) ==> parse_in_range(s@, false, 0, usize::MAX as int) == Some(v as int),
        r is None ==> parse_in_range(s@, false, 0, usize::MAX as int) is None,
{
    match parse_decimal(s, false, 0, usize::MAX as i128) {
        Some(v) => Some(v as usize),
        None => None,
    }
}

/// Reads a `bool` as `s.parse::<bool>()` does.
pub fn parse_bool(s: &str) -> (r: Option<bool>)
    ensures
        r == parse_bool_spec(s@),
{
    let text = s.to_owned();
    let yes = "true".to_owned();
    let no = "false".to_owned();
    if text == yes {
        Some(true)
    } else if text == no {
        Some(false)
    } else {
        None
    }
}

proof fn lemma_nat_decimal(n: nat)
    ensures
        nat_decimal(n).len() >= 1,
        all_digits(nat_decimal(n)),
        digits_value(nat_decimal(n)) == n,
    decreases n,
{
    if n < 10 {
        let t = nat_decimal(n);
        assert(t.drop_last() =~= Seq::<char>::empty());
        assert(t.last() == digit_char(n as int));
        assert(digit_value(digit_char(n as int)) == n);
        assert(digits_value(t) == digits_value(t.drop_last()) * 10 + digit_value(t.last()));
    } else {
        lemma_nat_decimal(n / 10);
        let t = nat_decimal(n);
        let d = (n % 10) as int;
        assert(digit_value(digit_char(d)) == d);
        lemma_digits_value_push(nat_decimal(n / 10), digit_char(d));
        assert(digits_value(t) == (n / 10) as int * 10 + d);
        assert forall|i: int| 0 <= i < t.len() implies is_digit(#[trigger] t[i]) by {
            if i < t.len() - 1 {
                assert(t[i] == nat_decimal(n / 10)[i]);
            }
        }
    }
}

/// Reading back the decimal text of an `i64` gives the same number: what
/// `to_string` writes, `parse::<i64>` reads.
pub proof fn lemma_decimal_round_trip(i: i64)
    ensures
        parse_in_range(int_decimal(i as int), true, i64::MIN as int, i64::MAX as int) == Some(
            i as int,
        ),
{
    if i < 0 {
        let m = (-i) as nat;
        lemma_nat_decimal(m);
        let t = int_decimal(i as int);
        assert(t.drop_first() =~= nat_decimal(m));
        assert(t[0] == '-');
    } else {
        lemma_nat_decimal(i as nat);
        let t = nat_decimal(i as nat);
        assert(is_digit(t[0]));
    }
}

} // verus!
