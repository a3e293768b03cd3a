//! Temperatures, counted in tenths of a degree Celsius, and how they are printed.
use vstd::prelude::*;
use vstd::utf8::is_ascii_chars;
use crate::mqtt::digits_value;
use crate::text::{byte_len, lemma_ascii_byte_len, lemma_encode_concat, new64, push64, text64};

verus! {

/// The character of a decimal digit.
pub open spec fn digit(d: int) -> char {
    (48 + d) as char
}

/// A natural number in decimal, without leading zeros.
pub open spec fn decimal(n: nat) -> Seq<char>
    decreases n,
{
    if n < 10 {
        seq![digit(n as int)]
    } else {
        decimal(n / 10).push(digit((n % 10) as int))
    }
}

/// How far a number of tenths is from zero.
pub open spec fn magnitude(tenths: i16) -> nat {
    (if tenths < 0 {
        -tenths
    } else {
        tenths as int
    }) as nat
}

/// A number of tenths as a decimal fraction with two places.
pub open spec fn two_places(tenths: i16) -> Seq<char> {
    let sign = if tenths < 0 {
        seq!['-']
    } else {
        seq![]
    };
    let m = magnitude(tenths);
    sign + decimal(m / 10) + seq!['.', digit((m % 10) as int), '0']
}

/// A temperature as it is printed.
pub open spec fn temperature_text(tenths: i16) -> Seq<char> {
    two_places(tenths) + "° C"@
}

/// The characters of `decimal` are digits.
proof fn lemma_decimal_digits(n: nat)
    ensures
        decimal(n).len() > 0,
        forall|i: int| 0 <= i < decimal(n).len() ==> '0' <= #[trigger] decimal(n)[i] <= '9',
    decreases n,
{
    if n >= 10 {
        lemma_decimal_digits(n / 10);
    }
}

/// A number below ten thousand has at most four digits.
proof fn lemma_decimal_len(n: nat)
    requires
        n < 10000,
    ensures
        decimal(n).len() <= 4,
{
    reveal_with_fuel(decimal, 4);
}

/// Different numbers are written differently.
proof fn lemma_decimal_injective(m: nat, n: nat)
    requires
        decimal(m) == decimal(n),
    ensures
        m == n,
    decreases m,
{
    lemma_decimal_digits(m);
    lemma_decimal_digits(n);
    let a = decimal(m);
    let b = decimal(n);
    assert(a.last() == digit((m % 10) as int) && b.last() == digit((n % 10) as int));
    assert(digit((m % 10) as int) as int == 48 + m % 10);
    assert(digit((n % 10) as int) as int == 48 + n % 10);
    if m >= 10 {
        lemma_decimal_digits(m / 10);
    }
    if n >= 10 {
        lemma_decimal_digits(n / 10);
    }
    if m >= 10 && n >= 10 {
        assert(a.drop_last() =~= decimal(m / 10));
        assert(b.drop_last() =~= decimal(n / 10));
        lemma_decimal_injective(m / 10, n / 10);
    }
}

/// The slice that holds one digit.
fn digit_str(d: u16) -> (r: &'static str)
    requires
        d < 10,
    ensures
        r@ == seq![digit(d as int)],
{
    proof {
        reveal_strlit("0");
        reveal_strlit("1");
        reveal_strlit("2");
        reveal_strlit("3");
        reveal_strlit("4");
        reveal_strlit("5");
        reveal_strlit("6");
        reveal_strlit("7");
        reveal_strlit("8");
        reveal_strlit("9");
    }
    let r = match d {
        0 => "0",
        1 => "1",
        2 => "2",
        3 => "3",
        4 => "4",
        5 => "5",
        6 => "6",
        7 => "7",
        8 => "8",
        _ => "9",
    };
    assert(r@ =~= seq![digit(d as int)]);
    r
}

/// Appends an ASCII slice to an ASCII text that it still fits behind.
fn push_ascii(s: &mut heapless::String<64>, t: &str)
    requires
        is_ascii_chars(text64(*old(s))),
        is_ascii_chars(t@),
        text64(*old(s)).len() + t@.len() <= 64,
    ensures
        text64(*final(s)) == text64(*old(s)) + t@,
        is_ascii_chars(text64(*final(s))),
{
    proof {
        lemma_ascii_byte_len(text64(*s));
        lemma_ascii_byte_len(t@);
    }
    let _ = push64(s, t);
}

/// A number in decimal.
pub(crate) fn print_decimal(n: u16) -> (r: heapless::String<64>)
    ensures
        text64(r) == decimal(n as nat),
{
    let mut s = new64();
    proof {
        reveal_with_fuel(decimal, 5);
    }
    push_decimal(&mut s, n);
    assert(text64(s) =~= decimal(n as nat));
    s
}

/// Appends a number in decimal.
fn push_decimal(s: &mut heapless::String<64>, n: u16)
    requires
        is_ascii_chars(text64(*old(s))),
        text64(*old(s)).len() + decimal(n as nat).len() <= 64,
    ensures
        text64(*final(s)) == text64(*old(s)) + decimal(n as nat),
        is_ascii_chars(text64(*final(s))),
    decreases n,
{
    if n >= 10 {
        push_decimal(s, n / 10);
    }
    push_ascii(s, digit_str(n % 10));
    assert(text64(*s) =~= text64(*old(s)) + decimal(n as nat));
}

/// The text of a temperature, as it is printed.
pub fn print_temperature(tenths: i16) -> (r: heapless::String<64>)
    ensures
        text64(r) == temperature_text(tenths),
{
    let m: u16 = if tenths < 0 {
        (-(tenths as i32)) as u16
    } else {
        tenths as u16
    };
    let mut s = new64();
    proof {
        reveal_strlit("-");
        reveal_strlit(".");
        reveal_strlit("0");
        reveal_strlit("° C");
        lemma_decimal_len(m as nat / 10);
    }
    if tenths < 0 {
        push_ascii(&mut s, "-");
    }
    push_decimal(&mut s, m / 10);
    push_ascii(&mut s, ".");
    push_ascii(&mut s, digit_str(m % 10));
    push_ascii(&mut s, "0");
    assert(text64(s) =~= two_places(tenths));
    proof {
        lemma_ascii_byte_len(text64(s));
        let unit = "° C"@;
        assert(unit =~= seq!['°'] + seq![' ', 'C']);
        lemma_encode_concat(seq!['°'], seq![' ', 'C']);
        lemma_ascii_byte_len(seq![' ', 'C']);
        reveal_with_fuel(vstd::utf8::encode_utf8, 2);
        assert(byte_len(seq!['°']) <= 4);
    }
    let _ = push64(&mut s, "° C");
    s
}

/// Two temperatures that print alike are equal.
pub proof fn law_temperature_text_injective(a: i16, b: i16)
    requires
        temperature_text(a) == temperature_text(b),
    ensures
        a == b,
{
    let x = two_places(a);
    let y = two_places(b);
    let unit = "° C"@;
    assert(x =~= temperature_text(a).take(temperature_text(a).len() - unit.len()));
    assert(y =~= temperature_text(b).take(temperature_text(b).len() - unit.len()));
    lemma_decimal_digits(magnitude(a) / 10);
    lemma_decimal_digits(magnitude(b) / 10);
    assert(x[0] == '-' <==> a < 0);
    assert(y[0] == '-' <==> b < 0);
    let n = x.len() as int;
    assert(x[n - 2] == y[n - 2]);
    let skip: int = if a < 0 { 1 } else { 0 };
    assert(decimal(magnitude(a) / 10) =~= x.subrange(skip, n - 3));
    assert(decimal(magnitude(b) / 10) =~= y.subrange(skip, n - 3));
    lemma_decimal_injective(magnitude(a) / 10, magnitude(b) / 10);
}

/// The value of a digit's character.
proof fn lemma_digit(d: int)
    requires
        0 <= d < 10,
    ensures
        digit(d) as int == '0' as int + d,
        '0' <= digit(d) <= '9',
{
}

/// A number in decimal is a run of digits that stands for the number, without a leading zero.
pub proof fn law_decimal_value(n: nat)
    ensures
        digits_value(decimal(n)) == n,
        forall|i: int| 0 <= i < decimal(n).len() ==> '0' <= #[trigger] decimal(n)[i] <= '9',
        decimal(n).len() > 0,
        n > 0 ==> decimal(n)[0] != '0',
    decreases n,
{
    lemma_decimal_digits(n);
    let t = decimal(n);
    lemma_digit((n % 10) as int);
    assert(t.last() == digit((n % 10) as int));
    if n >= 10 {
        law_decimal_value(n / 10);
        assert(t.drop_last() =~= decimal(n / 10));
        assert(t[0] == decimal(n / 10)[0]);
        assert(n == 10 * (n / 10) + n % 10);
    } else {
        assert(t.drop_last() =~= Seq::empty());
        assert(digits_value(t.drop_last()) == 0);
    }
}

/// A temperature is printed as a sign if it is below zero, the whole degrees, a point, the tenths, a
/// zero and the unit.
pub proof fn law_temperature_text(tenths: i16)
    ensures
        ({
            let m = (if tenths < 0 {
                -tenths
            } else {
                tenths as int
            }) as nat;
            temperature_text(tenths) == (if tenths < 0 {
                seq!['-']
            } else {
                Seq::<char>::empty()
            }) + decimal(m / 10) + seq!['.'] + decimal(m % 10) + seq!['0'] + "° C"@
        }),
{
    let m = magnitude(tenths);
    assert(decimal(m % 10) == seq![digit((m % 10) as int)]);
    assert(two_places(tenths) =~= (if tenths < 0 {
        seq!['-']
    } else {
        Seq::<char>::empty()
    }) + decimal(m / 10) + seq!['.'] + decimal(m % 10) + seq!['0']);
}

} // verus!
