//! Numbers as text, and text for a formatter.

use vstd::prelude::*;
use vstd::string::*;

verus! {

/// The character of a decimal or lower-case hexadecimal digit.
pub open spec fn digit(d: int) -> char
    recommends
        0 <= d < 16,
{
    "0123456789abcdef"@[d]
}

/// A natural number in decimal, without leading zeros.
pub open spec fn decimal(n: nat) -> Seq<char>
    decreases n,
{
    if n < 10 {
        seq![digit(n as int)]
    } else {
        decimal(n / 10).push(digit((n % 10) as int))
    }
}

/// An integer in decimal, with a minus sign where it is negative.
pub open spec fn signed_decimal(n: int) -> Seq<char> {
    if n < 0 {
        "-"@ + decimal((-n) as nat)
    } else {
        decimal(n as nat)
    }
}

/// The low `digits` hexadecimal digits of `n`, most significant first.
pub open spec fn hex_digits(n: nat, digits: nat) -> Seq<char>
    decreases digits,
{
    if digits == 0 {
        Seq::empty()
    } else {
        hex_digits(n / 16, (digits - 1) as nat).push(digit((n % 16) as int))
    }
}

/// A four-byte code as `0x` and eight hexadecimal digits.
pub open spec fn hex_code(code: u32) -> Seq<char> {
    "0x"@ + hex_digits(code as nat, 8)
}

/// A digit as a string of its own.
fn digit_text(d: u32) -> (r: &'static str)
    requires
        d < 16,
    ensures
        r@ == seq![digit(d as int)],
{
    proof {
        reveal_strlit("0123456789abcdef");
        reveal_strlit("0");
        reveal_strlit("1");
        reveal_strlit("2");
        reveal_strlit("3");
        reveal_strlit("4");
        reveal_strlit("5");
        reveal_strlit("6");
        reveal_strlit("7");
        reveal_strlit("8");
        reveal_strlit("9");
        reveal_strlit("a");
        reveal_strlit("b");
        reveal_strlit("c");
        reveal_strlit("d");
        reveal_strlit("e");
        reveal_strlit("f");
    }
    let r = match d {
        0 => "0",
        1 => "1",
        2 => "2",
        3 => "3",
        4 => "4",
        5 => "5",
        6 => "6",
        7 => "7",
        8 => "8",
        9 => "9",
        10 => "a",
        11 => "b",
        12 => "c",
        13 => "d",
        14 => "e",
        _ => "f",
    };
    assert(r@ =~= seq![digit(d as int)]);
    r
}

/// Append a number in decimal.
pub(crate) fn push_decimal(out: &mut String, n: u64)
    ensures
        final(out)@ == old(out)@ + decimal(n as nat),
    decreases n,
{
    if n >= 10 {
        push_decimal(out, n / 10);
    }
    out.append(digit_text((n % 10) as u32));
    assert(out@ =~= old(out)@ + decimal(n as nat));
}

/// Append an integer in decimal.
pub(crate) fn push_signed(out: &mut String, n: i32)
    ensures
        final(out)@ == old(out)@ + signed_decimal(n as int),
{
    if n < 0 {
        out.append("-");
        push_decimal(out, (-(n as i64)) as u64);
        assert(out@ =~= old(out)@ + signed_decimal(n as int));
    } else {
        push_decimal(out, n as u64);
    }
}

/// Append the low `digits` hexadecimal digits of a number.
fn push_hex_digits(out: &mut String, n: u32, digits: u32)
    ensures
        final(out)@ == old(out)@ + hex_digits(n as nat, digits as nat),
    decreases digits,
{
    if digits > 0 {
        push_hex_digits(out, n / 16, digits - 1);
        out.append(digit_text(n % 16));
    }
    assert(out@ =~= old(out)@ + hex_digits(n as nat, digits as nat));
}

/// Append a four-byte code as `0x` and eight hexadecimal digits.
pub(crate) fn push_hex_code(out: &mut String, code: u32)
    ensures
        final(out)@ == old(out)@ + hex_code(code),
{
    out.append("0x");
    push_hex_digits(out, code, 8);
    assert(out@ =~= old(out)@ + hex_code(code));
}

/// `core::fmt::Formatter`, which a `Debug` impl writes to. It is carried
/// through; nothing is claimed of it here.
#[verifier::external_type_specification]
#[verifier::external_body]
pub struct ExFormatter<'a>(core::fmt::Formatter<'a>);

/// `core::fmt::Error`, which says no more than that a write failed.
#[verifier::external_type_specification]
#[verifier::external_body]
pub struct ExFormatError(core::fmt::Error);

/// The text that was handed to a formatter with success so far, before anything
/// that the formatter adds to it, such as the indentation of a nested value.
pub uninterp spec fn written(f: core::fmt::Formatter) -> Seq<char>;

/// Whether a formatter was asked for the alternate form (`{:#?}`).
pub uninterp spec fn alternate(f: core::fmt::Formatter) -> bool;

/// Hand text to a formatter, by `core::fmt::Formatter::write_str`.
///
/// Where that succeeds, exactly the given text was added to what was handed to
/// the formatter before. Whether it succeeds is left open: that rests with
/// whatever the formatter writes to.
#[verifier::external_body]
pub(crate) fn write_text(f: &mut core::fmt::Formatter<'_>, text: &str) -> (r: core::fmt::Result)
    ensures
        r is Ok ==> written(*final(f)) == written(*old(f)) + text@,
{
    f.write_str(text)
}

/// Ask a formatter for its `#` flag, by `core::fmt::Formatter::alternate`.
#[verifier::external_body]
pub(crate) fn is_alternate(f: &core::fmt::Formatter<'_>) -> (r: bool)
    ensures
        r == alternate(*f),
{
    f.alternate()
}

/// The number that a text of digits stands for in the given base, where digits
/// beyond nine are lower-case letters.
pub open spec fn value(text: Seq<char>, base: nat) -> nat
    decreases text.len(),
{
    if text.len() == 0 {
        0
    } else {
        value(text.drop_last(), base) * base + digit_value(text.last())
    }
}

/// What a digit stands for.
pub open spec fn digit_value(c: char) -> nat {
    if '0' <= c <= '9' {
        (c as int - '0' as int) as nat
    } else if 'a' <= c <= 'f' {
        (c as int - 'a' as int + 10) as nat
    } else {
        99
    }
}

/// Each digit stands for its number.
pub proof fn law_digits(d: int)
    requires
        0 <= d < 16,
    ensures
        digit_value(digit(d)) == d,
        d < 10 ==> '0' <= digit(d) <= '9',
        d == 0 <==> digit(d) == '0',
{
    reveal_strlit("0123456789abcdef");
}

/// A number in decimal stands for that number, is made of the digits from zero
/// to nine, and has no zero in front but for zero itself.
pub proof fn law_decimal(n: nat)
    ensures
        value(decimal(n), 10) == n,
        decimal(n).len() >= 1,
        forall|i: int| 0 <= i < decimal(n).len() ==> '0' <= #[trigger] decimal(n)[i] <= '9',
        n > 0 ==> decimal(n)[0] != '0',
        n == 0 ==> decimal(n) == seq!['0'],
    decreases n,
{
    if n < 10 {
        law_digits(n as int);
        let text = seq![digit(n as int)];
        assert(decimal(n) == text);
        assert(text.drop_last() =~= Seq::empty());
        assert(value(text.drop_last(), 10) == 0);
        assert(value(text, 10) == n);
    } else {
        law_decimal(n / 10);
        law_digits((n % 10) as int);
        let front = decimal(n / 10);
        let text = front.push(digit((n % 10) as int));
        assert(decimal(n) == text);
        assert(text.drop_last() =~= front);
        assert(value(text, 10) == value(front, 10) * 10 + digit_value(text.last()));
    }
}

/// A negative number has a minus sign in front of its magnitude, and no other
/// has.
pub proof fn law_signed_decimal(n: int)
    ensures
        n < 0 ==> signed_decimal(n) == seq!['-'] + decimal((-n) as nat),
        n >= 0 ==> signed_decimal(n) == decimal(n as nat),
{
    reveal_strlit("-");
    assert("-"@ =~= seq!['-']);
}

proof fn lemma_hex_digits(n: nat, digits: nat)
    ensures
        hex_digits(n, digits).len() == digits,
        forall|i: int|
            0 <= i < digits ==> digit_value(#[trigger] hex_digits(n, digits)[i]) < 16,
        value(hex_digits(n, digits), 16) == n % pow16(digits),
    decreases digits,
{
    if digits > 0 {
        let less = (digits - 1) as nat;
        lemma_hex_digits(n / 16, less);
        law_digits((n % 16) as int);
        lemma_pow16(less);
        let front = hex_digits(n / 16, less);
        let text = front.push(digit((n % 16) as int));
        assert(hex_digits(n, digits) == text);
        assert(text.drop_last() =~= front);
        assert(value(text, 16) == value(front, 16) * 16 + digit_value(text.last()));
        let m = pow16(less);
        assert((n / 16) % m * 16 + n % 16 == n % (m * 16)) by (nonlinear_arith)
            requires
                m > 0,
        {
            let q = (n / 16) / m;
            let r = (n / 16) % m;
            assert(n / 16 == q * m + r && 0 <= r < m);
            assert(n == 16 * (n / 16) + n % 16);
            assert(n == q * (m * 16) + (r * 16 + n % 16));
            assert(0 <= r * 16 + n % 16 < m * 16);
            assert(n % (m * 16) == r * 16 + n % 16) by {
                vstd::arithmetic::div_mod::lemma_fundamental_div_mod_converse(
                    n as int,
                    (m * 16) as int,
                    q as int,
                    (r * 16 + n % 16) as int,
                );
            }
        }
    } else {
        assert(n % 1 == 0);
    }
}

spec fn pow16(digits: nat) -> nat
    decreases digits,
{
    if digits == 0 {
        1
    } else {
        pow16((digits - 1) as nat) * 16
    }
}

proof fn lemma_pow16(digits: nat)
    ensures
        pow16(digits) > 0,
    decreases digits,
{
    if digits > 0 {
        lemma_pow16((digits - 1) as nat);
    }
}

/// A four-byte code is `0x` and eight hexadecimal digits that stand for it.
pub proof fn law_hex_code(code: u32)
    ensures
        hex_code(code).len() == 10,
        hex_code(code)[0] == '0' && hex_code(code)[1] == 'x',
        value(hex_code(code).skip(2), 16) == code,
        forall|i: int| 2 <= i < 10 ==> digit_value(#[trigger] hex_code(code)[i]) < 16,
{
    reveal_strlit("0x");
    lemma_hex_digits(code as nat, 8);
    assert(hex_code(code).skip(2) =~= hex_digits(code as nat, 8));
    assert forall|i: int| 2 <= i < 10 implies digit_value(#[trigger] hex_code(code)[i]) < 16 by {
        assert(hex_code(code)[i] == hex_digits(code as nat, 8)[i - 2]);
    }
    assert(pow16(8) == 0x1_0000_0000) by {
        reveal_with_fuel(pow16, 9);
    }
}

} // verus!
