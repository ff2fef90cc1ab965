//! Decimal numerals as text.

use vstd::prelude::*;
use vstd::utf8::is_ascii_chars;

verus! {

/// The character that stands for the decimal digit `d`.
pub open spec fn digit(d: int) -> char
    recommends
        0 <= d < 10,
{
    if d == 0 {
        '0'
    } else if d == 1 {
        '1'
    } else if d == 2 {
        '2'
    } else if d == 3 {
        '3'
    } else if d == 4 {
        '4'
    } else if d == 5 {
        '5'
    } else if d == 6 {
        '6'
    } else if d == 7 {
        '7'
    } else if d == 8 {
        '8'
    } else {
        '9'
    }
}

/// The decimal numeral of `n`: its digits, most significant first, without
/// leading zeros (`0` is the single digit zero).
pub open spec fn decimal(n: nat) -> Seq<char>
    decreases n,
{
    if n < 10 {
        seq![digit(n as int)]
    } else {
        decimal(n / 10).push(digit((n % 10) as int))
    }
}

/// The numeral of an integer: a minus sign before the numeral of the
/// magnitude when `x` is negative.
pub open spec fn signed_decimal(x: int) -> Seq<char> {
    if x < 0 {
        seq!['-'] + decimal((-x) as nat)
    } else {
        decimal(x as nat)
    }
}

/// The numeral of `x` filled with zeros to a width of two characters. The
/// sign counts towards the width, so only `0..=9` are filled.
pub open spec fn two_wide(x: int) -> Seq<char> {
    if 0 <= x < 10 {
        seq!['0', digit(x)]
    } else {
        signed_decimal(x)
    }
}

/// Quotient of the division that rounds towards zero.
pub open spec fn quotient(x: int, d: int) -> int
    recommends
        d > 0,
{
    if x >= 0 {
        x / d
    } else {
        -((-x) / d)
    }
}

/// Remainder of the division that rounds towards zero; it has the sign of `x`.
pub open spec fn remainder(x: int, d: int) -> int
    recommends
        d > 0,
{
    if x >= 0 {
        x % d
    } else {
        -((-x) % d)
    }
}

/// A number of hundredths as units, a period and the hundredths, zero
/// filled to two digits. Both parts carry the sign of the number.
pub open spec fn hundredths_text(value: int) -> Seq<char> {
    signed_decimal(quotient(value, 100)) + "."@ + two_wide(remainder(value, 100))
}

/// A number of tenths as units, a period and the tenths. Both parts carry
/// the sign of the number.
pub open spec fn tenths_text(value: int) -> Seq<char> {
    signed_decimal(quotient(value, 10)) + "."@ + signed_decimal(remainder(value, 10))
}

/// The text of one decimal digit.
fn digit_str(d: u8) -> (text: &'static str)
    requires
        d < 10,
    ensures
        text@ == seq![digit(d as int)],
{
    proof {
        reveal_strlit("0");
        reveal_strlit("1");
        reveal_strlit("2");
        reveal_strlit("3");
        reveal_strlit("4");
        reveal_strlit("5");
        reveal_strlit("6");
        reveal_strlit("7");
        reveal_strlit("8");
        reveal_strlit("9");
    }
    let text = match d {
        0 => "0",
        1 => "1",
        2 => "2",
        3 => "3",
        4 => "4",
        5 => "5",
        6 => "6",
        7 => "7",
        8 => "8",
        _ => "9",
    };
    assert(text@ =~= seq![digit(d as int)]);
    text
}

/// Appends the decimal numeral of `n`.
pub fn write_unsigned(output: &mut String, n: u64)
    ensures
        final(output)@ == old(output)@ + decimal(n as nat),
    decreases n,
{
    if n >= 10 {
        write_unsigned(output, n / 10);
    }
    output.append(digit_str((n % 10) as u8));
    assert(output@ =~= old(output)@ + decimal(n as nat));
}

/// Appends the numeral of `x`, with a minus sign when it is negative.
pub fn write_signed(output: &mut String, x: i64)
    ensures
        final(output)@ == old(output)@ + signed_decimal(x as int),
{
    if x < 0 {
        proof {
            reveal_strlit("-");
        }
        output.append("-");
        let magnitude: u64 = (-(x + 1)) as u64 + 1;
        write_unsigned(output, magnitude);
        assert(output@ =~= old(output)@ + signed_decimal(x as int));
    } else {
        write_unsigned(output, x as u64);
    }
}

/// Appends the numeral of `x`, zero filled to two characters.
pub fn write_two_wide(output: &mut String, x: i64)
    ensures
        final(output)@ == old(output)@ + two_wide(x as int),
{
    if 0 <= x && x < 10 {
        proof {
            reveal_strlit("0");
        }
        output.append("0");
        output.append(digit_str(x as u8));
        assert(output@ =~= old(output)@ + two_wide(x as int));
    } else {
        write_signed(output, x);
    }
}

/// A number below a hundred is zero filled to exactly two digits, the tens
/// and the ones.
pub proof fn lemma_two_digits(x: int)
    requires
        0 <= x < 100,
    ensures
        two_wide(x) =~= seq![digit(x / 10), digit(x % 10)],
{
    if x >= 10 {
        assert(decimal((x / 10) as nat) =~= seq![digit(x / 10)]);
        assert(decimal(x as nat) =~= decimal((x / 10) as nat).push(digit(x % 10)));
    }
}

/// Ten to the power of `digits`.
pub open spec fn power_of_ten(digits: nat) -> nat
    decreases digits,
{
    if digits == 0 {
        1
    } else {
        10 * power_of_ten((digits - 1) as nat)
    }
}

/// A numeral has at least one digit, and no more digits than a power of ten
/// above the number has zeros.
pub proof fn lemma_decimal_len(n: nat, digits: nat)
    requires
        n < power_of_ten(digits),
        digits >= 1,
    ensures
        1 <= decimal(n).len() <= digits,
    decreases n,
{
    reveal_with_fuel(power_of_ten, 2);
    if n >= 10 {
        lemma_decimal_len(n / 10, (digits - 1) as nat);
    }
}

/// Numerals are made of ASCII characters.
pub proof fn lemma_decimal_is_ascii(n: nat)
    ensures
        is_ascii_chars(decimal(n)),
    decreases n,
{
    if n >= 10 {
        lemma_decimal_is_ascii(n / 10);
    }
}

/// Signed numerals are made of ASCII characters, and the sign adds one
/// character to the digits.
pub proof fn lemma_signed_decimal(x: int, digits: nat)
    requires
        -power_of_ten(digits) < x < power_of_ten(digits),
        digits >= 1,
    ensures
        is_ascii_chars(signed_decimal(x)),
        1 <= signed_decimal(x).len() <= digits + 1,
        x >= 0 ==> signed_decimal(x).len() <= digits,
{
    if x < 0 {
        lemma_decimal_is_ascii((-x) as nat);
        lemma_decimal_len((-x) as nat, digits);
    } else {
        lemma_decimal_is_ascii(x as nat);
        lemma_decimal_len(x as nat, digits);
    }
}

/// Zero filled numerals are made of ASCII characters and are at least two
/// characters long.
pub proof fn lemma_two_wide(x: int, digits: nat)
    requires
        -power_of_ten(digits) < x < power_of_ten(digits),
        digits >= 2,
    ensures
        is_ascii_chars(two_wide(x)),
        2 <= two_wide(x).len() <= digits + 1,
        x >= 0 ==> two_wide(x).len() <= digits,
{
    lemma_signed_decimal(x, digits);
    if x >= 10 {
        assert(decimal(x as nat).len() == decimal((x / 10) as nat).len() + 1);
        lemma_decimal_len((x / 10) as nat, digits);
    } else if x < 0 {
        lemma_decimal_len((-x) as nat, digits);
    }
}

/// A number of hundredths below `10^(digits + 2)` in magnitude is written
/// in ASCII with no more than `digits + 5` characters.
pub proof fn lemma_hundredths_fit(value: int, digits: nat)
    requires
        -100 * power_of_ten(digits) < value < 100 * power_of_ten(digits),
        digits >= 1,
    ensures
        is_ascii_chars(hundredths_text(value)),
        hundredths_text(value).len() <= digits + 5,
{
    reveal_strlit(".");
    reveal_with_fuel(power_of_ten, 3);
    lemma_signed_decimal(quotient(value, 100), digits);
    lemma_two_wide(remainder(value, 100), 2);
}

/// A number of tenths below `10^(digits + 1)` in magnitude is written in
/// ASCII with no more than `digits + 4` characters.
pub proof fn lemma_tenths_fit(value: int, digits: nat)
    requires
        -10 * power_of_ten(digits) < value < 10 * power_of_ten(digits),
        digits >= 1,
    ensures
        is_ascii_chars(tenths_text(value)),
        tenths_text(value).len() <= digits + 4,
{
    reveal_strlit(".");
    reveal_with_fuel(power_of_ten, 2);
    lemma_signed_decimal(quotient(value, 10), digits);
    lemma_signed_decimal(remainder(value, 10), 1);
}

} // verus!
