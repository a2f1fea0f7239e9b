//! Decimal text of integers, with and without zero padding.

use vstd::prelude::*;
use vstd::string::StringExecFns;

verus! {

/// The character that stands for the decimal digit `d`.
pub open spec fn digit_char(d: int) -> char {
    if d == 0 {
        '0'
    } else if d == 1 {
        '1'
    } else if d == 2 {
        '2'
    } else if d == 3 {
        '3'
    } else if d == 4 {
        '4'
    } else if d == 5 {
        '5'
    } else if d == 6 {
        '6'
    } else if d == 7 {
        '7'
    } else if d == 8 {
        '8'
    } else {
        '9'
    }
}

/// The decimal digits of `n`, most significant first, without leading zeros.
pub open spec fn decimal_digits(n: nat) -> Seq<char>
    decreases n,
{
    if n < 10 {
        seq![digit_char(n as int)]
    } else {
        decimal_digits(n / 10).push(digit_char((n % 10) as int))
    }
}

/// How many decimal digits `n` has; zero has one.
pub open spec fn digit_count(n: nat) -> nat
    decreases n,
{
    if n < 10 {
        1
    } else {
        1 + digit_count(n / 10)
    }
}

/// Ten to the power `e`.
pub open spec fn pow10(e: nat) -> nat
    decreases e,
{
    if e == 0 {
        1
    } else {
        10 * pow10((e - 1) as nat)
    }
}

/// `k` zero characters.
pub open spec fn zeros(k: nat) -> Seq<char> {
    Seq::new(k, |i: int| '0')
}

/// How many zeros fill a field of `width` characters of which `used` are taken.
pub open spec fn fill(width: nat, used: nat) -> nat {
    if width > used {
        (width - used) as nat
    } else {
        0
    }
}

/// The decimal text of `n` in a field of at least `width` characters, filled
/// with zeros between the sign, if there is one, and the digits.
pub open spec fn zero_padded(n: int, width: nat) -> Seq<char> {
    if n < 0 {
        seq!['-'] + zeros(fill(width, digit_count((-n) as nat) + 1)) + decimal_digits((-n) as nat)
    } else {
        zeros(fill(width, digit_count(n as nat))) + decimal_digits(n as nat)
    }
}

/// The decimal text of `n`.
pub open spec fn decimal(n: int) -> Seq<char> {
    zero_padded(n, 0)
}

/// `decimal_digits(n)` has `digit_count(n)` characters.
pub proof fn lemma_digits_len(n: nat)
    ensures
        decimal_digits(n).len() == digit_count(n),
    decreases n,
{
    if n >= 10 {
        lemma_digits_len(n / 10);
    }
}

/// A number below `10^k` has at most `k` digits.
pub proof fn lemma_digit_count_below(n: nat, k: nat)
    requires
        k >= 1,
        n < pow10(k),
    ensures
        digit_count(n) <= k,
    decreases k,
{
    if n >= 10 {
        if k == 1 {
            assert(pow10(1) == 10) by {
                reveal_with_fuel(pow10, 2);
            }
        } else {
            lemma_digit_count_below(n / 10, (k - 1) as nat);
        }
    }
}

/// A number with `k` digits lies between `10^(k-1)` and `10^k`; zero, which
/// has one digit, is the one number below `10^0`.
pub proof fn lemma_digit_count_bounds(n: nat)
    ensures
        n < pow10(digit_count(n)),
        n >= 1 ==> pow10((digit_count(n) - 1) as nat) <= n,
    decreases n,
{
    reveal_with_fuel(pow10, 2);
    if n >= 10 {
        lemma_digit_count_bounds(n / 10);
    }
}

/// Of two numbers the larger has at least as many digits.
pub proof fn lemma_digit_count_monotonic(a: nat, b: nat)
    requires
        a <= b,
    ensures
        digit_count(a) <= digit_count(b),
    decreases b,
{
    if a >= 10 {
        lemma_digit_count_monotonic(a / 10, b / 10);
    }
}

/// The digit that a character stands for; zero for any other character.
pub open spec fn digit_value(c: char) -> int {
    if c == '1' {
        1
    } else if c == '2' {
        2
    } else if c == '3' {
        3
    } else if c == '4' {
        4
    } else if c == '5' {
        5
    } else if c == '6' {
        6
    } else if c == '7' {
        7
    } else if c == '8' {
        8
    } else if c == '9' {
        9
    } else {
        0
    }
}

/// The number that a run of digits stands for.
pub open spec fn digits_value(s: Seq<char>) -> int
    decreases s.len(),
{
    if s.len() == 0 {
        0
    } else {
        10 * digits_value(s.drop_last()) + digit_value(s.last())
    }
}

/// The number that a run of digits with an optional sign in front stands for.
pub open spec fn number_value(s: Seq<char>) -> int {
    if s.len() > 0 && s[0] == '-' {
        -digits_value(s.drop_first())
    } else {
        digits_value(s)
    }
}

/// Whether `c` is one of the characters that decimal text is made of.
pub open spec fn is_number_char(c: char) -> bool {
    c == '-' || c == '0' || c == '1' || c == '2' || c == '3' || c == '4' || c == '5' || c == '6'
        || c == '7' || c == '8' || c == '9'
}

/// The digits of `n` stand for `n`.
pub proof fn lemma_value_of_digits(n: nat)
    ensures
        digits_value(decimal_digits(n)) == n,
    decreases n,
{
    if n >= 10 {
        lemma_value_of_digits(n / 10);
        let front = decimal_digits(n / 10);
        let d = digit_char((n % 10) as int);
        assert(front.push(d).drop_last() =~= front);
        assert(front.push(d).last() == d);
    } else {
        let s = decimal_digits(n);
        assert(s.drop_last() =~= Seq::<char>::empty());
        assert(digits_value(s.drop_last()) == 0);
    }
}

/// Zeros in front do not change what a run of digits stands for.
pub proof fn lemma_value_ignores_zeros(k: nat, s: Seq<char>)
    ensures
        digits_value(zeros(k) + s) == digits_value(s),
    decreases s.len(), k,
{
    if s.len() > 0 {
        lemma_value_ignores_zeros(k, s.drop_last());
        assert((zeros(k) + s).drop_last() =~= zeros(k) + s.drop_last());
        assert((zeros(k) + s).last() == s.last());
    } else if k > 0 {
        lemma_value_ignores_zeros((k - 1) as nat, s);
        assert((zeros(k) + s).drop_last() =~= zeros((k - 1) as nat) + s);
        assert((zeros(k) + s).last() == '0');
    } else {
        assert(zeros(k) + s =~= Seq::<char>::empty());
    }
}

/// Zero-padded text is made of digits and at most a sign, has the digits of
/// the number at its end, and is as long as the field unless the number needs
/// more room.
pub proof fn lemma_zero_padded_shape(n: int, width: nat)
    ensures
        forall|i: int|
            0 <= i < zero_padded(n, width).len() ==> is_number_char(
                #[trigger] zero_padded(n, width)[i],
            ),
        zero_padded(n, width).len() == (if decimal(n).len() <= width {
            width
        } else {
            decimal(n).len()
        }),
        decimal(n).len() == (if n < 0 {
            digit_count((-n) as nat) + 1
        } else {
            digit_count(n as nat)
        }),
{
    let mag: nat = if n < 0 {
        (-n) as nat
    } else {
        n as nat
    };
    lemma_digits_len(mag);
    lemma_digits_chars(mag);
}

/// The digits of a number are digits.
pub proof fn lemma_digits_chars(n: nat)
    ensures
        forall|i: int|
            0 <= i < decimal_digits(n).len() ==> is_number_char(#[trigger] decimal_digits(n)[i])
                && decimal_digits(n)[i] != '-',
    decreases n,
{
    if n >= 10 {
        lemma_digits_chars(n / 10);
        let front = decimal_digits(n / 10);
        let d = digit_char((n % 10) as int);
        assert forall|i: int| 0 <= i < decimal_digits(n).len() implies is_number_char(
            #[trigger] decimal_digits(n)[i],
        ) && decimal_digits(n)[i] != '-' by {
            if i < front.len() {
                assert(decimal_digits(n)[i] == front[i]);
            } else {
                assert(decimal_digits(n)[i] == d);
            }
        }
    }
}

/// Zero-padded text stands for the number it was made of, whatever the width.
pub proof fn lemma_value_of_zero_padded(n: int, width: nat)
    ensures
        number_value(zero_padded(n, width)) == n,
{
    if n < 0 {
        let mag = (-n) as nat;
        let k = fill(width, digit_count(mag) + 1);
        let text = zero_padded(n, width);
        assert(text[0] == '-');
        assert(text.drop_first() =~= zeros(k) + decimal_digits(mag));
        lemma_value_ignores_zeros(k, decimal_digits(mag));
        lemma_value_of_digits(mag);
    } else {
        let mag = n as nat;
        let k = fill(width, digit_count(mag));
        let text = zero_padded(n, width);
        lemma_digits_chars(mag);
        lemma_digits_len(mag);
        assert(text[0] != '-') by {
            if k > 0 {
                assert(text[0] == '0');
            } else {
                assert(text[0] == decimal_digits(mag)[0]);
            }
        }
        lemma_value_ignores_zeros(k, decimal_digits(mag));
        lemma_value_of_digits(mag);
    }
}

/// Different numbers have different zero-padded texts, whatever the widths.
pub proof fn lemma_zero_padded_injective(a: int, width_a: nat, b: int, width_b: nat)
    requires
        a != b,
    ensures
        zero_padded(a, width_a) != zero_padded(b, width_b),
{
    lemma_value_of_zero_padded(a, width_a);
    lemma_value_of_zero_padded(b, width_b);
}

proof fn lemma_u128_digits(n: nat)
    requires
        n <= u128::MAX,
    ensures
        digit_count(n) <= 39,
{
    assert(pow10(39) == 1_000_000_000_000_000_000_000_000_000_000_000_000_000) by {
        reveal_with_fuel(pow10, 40);
    }
    lemma_digit_count_below(n, 39);
}

/// The text of one decimal digit.
fn digit_str(d: u8) -> (s: &'static str)
    requires
        d < 10,
    ensures
        s@ == seq![digit_char(d as int)],
{
    proof {
        reveal_strlit("0");
        reveal_strlit("1");
        reveal_strlit("2");
        reveal_strlit("3");
        reveal_strlit("4");
        reveal_strlit("5");
        reveal_strlit("6");
        reveal_strlit("7");
        reveal_strlit("8");
        reveal_strlit("9");
    }
    let s = if d == 0 {
        "0"
    } else if d == 1 {
        "1"
    } else if d == 2 {
        "2"
    } else if d == 3 {
        "3"
    } else if d == 4 {
        "4"
    } else if d == 5 {
        "5"
    } else if d == 6 {
        "6"
    } else if d == 7 {
        "7"
    } else if d == 8 {
        "8"
    } else {
        "9"
    };
    s
}

/// Counts the decimal digits of `n`.
pub fn count_digits(n: u128) -> (c: usize)
    ensures
        c == digit_count(n as nat),
        1 <= c <= 39,
{
    let mut c: usize = 1;
    let mut m: u128 = n;
    proof {
        lemma_u128_digits(n as nat);
    }
    while m >= 10
        invariant
            c >= 1,
            c + digit_count(m as nat) == digit_count(n as nat) + 1,
            digit_count(n as nat) <= 39,
        decreases m,
    {
        m = m / 10;
        c = c + 1;
    }
    c
}

/// Appends the decimal digits of `n` to `out`.
pub fn push_digits(out: &mut String, n: u128)
    ensures
        final(out)@ == old(out)@ + decimal_digits(n as nat),
    decreases n,
{
    if n >= 10 {
        push_digits(out, n / 10);
    }
    let d: u8 = (n % 10) as u8;
    out.append(digit_str(d));
}

/// Appends `count` zero characters to `out`.
pub fn push_zeros(out: &mut String, count: usize)
    ensures
        final(out)@ == old(out)@ + zeros(count as nat),
{
    let mut k: usize = 0;
    while k < count
        invariant
            k <= count,
            out@ == old(out)@ + zeros(k as nat),
        decreases count - k,
    {
        proof {
            reveal_strlit("0");
        }
        out.append("0");
        k = k + 1;
    }
}

/// Appends the zero-padded decimal text of `n` to `out`.
pub fn push_zero_padded(out: &mut String, n: i128, width: usize)
    ensures
        final(out)@ == old(out)@ + zero_padded(n as int, width as nat),
{
    let negative = n < 0;
    let magnitude: u128 = if negative {
        ((-(n + 1)) as u128) + 1
    } else {
        n as u128
    };
    let mut used: usize = count_digits(magnitude);
    if negative {
        proof {
            reveal_strlit("-");
        }
        out.append("-");
        used = used + 1;
    }
    let zeros: usize = if width > used {
        width - used
    } else {
        0
    };
    push_zeros(out, zeros);
    push_digits(out, magnitude);
}

/// The zero-padded decimal text of `n`.
pub fn format_zero_padded(n: i128, width: usize) -> (s: String)
    ensures
        s@ == zero_padded(n as int, width as nat),
{
    let mut out = String::new();
    push_zero_padded(&mut out, n, width);
    out
}

/// The decimal text of `n`.
pub fn format_decimal(n: i128) -> (s: String)
    ensures
        s@ == decimal(n as int),
{
    format_zero_padded(n, 0)
}

} // verus!
