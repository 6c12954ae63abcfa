//! Numbers written out as text, in decimal and in lower-case hexadecimal.
//!
//! [`decimal`] and [`hex`] say which characters stand for a number;
//! [`numeral_value`] reads them back, and the two laws at the end of the
//! file show that nothing is lost on the way.

use vstd::prelude::*;

verus! {

/// The character that stands for the digit `d`, for `d` below 16.
pub open spec fn digit_char(d: nat) -> char
    recommends
        d < 16,
{
    "0123456789abcdef"@[d as int]
}

/// The digit that `c` stands for.
pub open spec fn digit_value(c: char) -> nat
    recommends
        '0' <= c <= '9' || 'a' <= c <= 'f',
{
    if '0' <= c <= '9' {
        (c as int - '0' as int) as nat
    } else {
        (c as int - 'a' as int + 10) as nat
    }
}

/// The decimal numeral of `n`, without leading zeros.
pub open spec fn decimal(n: nat) -> Seq<char>
    decreases n,
{
    if n < 10 {
        seq![digit_char(n)]
    } else {
        decimal(n / 10).push(digit_char(n % 10))
    }
}

/// The hexadecimal numeral of `n`, in lower case and without leading zeros.
pub open spec fn hex(n: nat) -> Seq<char>
    decreases n,
{
    if n < 16 {
        seq![digit_char(n)]
    } else {
        hex(n / 16).push(digit_char(n % 16))
    }
}

/// The two hexadecimal digits of the byte `b`.
pub open spec fn hex_pair(b: u8) -> Seq<char> {
    seq![digit_char((b / 16) as nat), digit_char((b % 16) as nat)]
}

/// The bytes as pairs of hexadecimal digits, with one space between two
/// neighbours.
pub open spec fn hex_dump(bytes: Seq<u8>) -> Seq<char>
    decreases bytes.len(),
{
    if bytes.len() == 0 {
        Seq::empty()
    } else if bytes.len() == 1 {
        hex_pair(bytes[0])
    } else {
        hex_dump(bytes.drop_last()) + seq![' '] + hex_pair(bytes.last())
    }
}

/// The label of a numeric code that has only a general name: the name, a
/// colon, and the code in hexadecimal between round brackets.
pub open spec fn code_label(name: Seq<char>, code: u16) -> Seq<char> {
    name + ": (0x"@ + hex(code as nat) + ")"@
}

/// The number that the digits `s` spell in the base `base`, most significant
/// digit first.
pub open spec fn numeral_value(s: Seq<char>, base: nat) -> nat
    decreases s.len(),
{
    if s.len() == 0 {
        0
    } else {
        numeral_value(s.drop_last(), base) * base + digit_value(s.last())
    }
}

/// Each of the sixteen digit characters stands for its own digit, and is an
/// ASCII character.
pub proof fn lemma_digit_chars()
    ensures
        "0123456789abcdef"@.len() == 16,
        forall|d: nat| d < 16 ==> digit_value(#[trigger] digit_char(d)) == d,
        forall|d: nat| d < 16 ==> '\0' <= #[trigger] digit_char(d) <= '\u{7f}',
{
    reveal_strlit("0123456789abcdef");
    assert forall|d: nat| d < 16 implies digit_value(#[trigger] digit_char(d)) == d && '\0'
        <= digit_char(d) <= '\u{7f}' by {
        if d < 4 {
            assert(d == 0 || d == 1 || d == 2 || d == 3);
        } else if d < 8 {
            assert(d == 4 || d == 5 || d == 6 || d == 7);
        } else if d < 12 {
            assert(d == 8 || d == 9 || d == 10 || d == 11);
        } else {
            assert(d == 12 || d == 13 || d == 14 || d == 15);
        }
    }
}

/// The text of one digit.
fn digit_str(d: u8) -> (r: &'static str)
    requires
        d < 16,
    ensures
        r@ == seq![digit_char(d as nat)],
{
    let digits = "0123456789abcdef";
    proof {
        lemma_digit_chars();
        assert forall|i: int| 0 <= i < digits@.len() implies '\0' <= #[trigger] digits@[i]
            <= '\u{7f}' by {
            assert(digits@[i] == digit_char(i as nat));
        }
    }
    let r = digits.substring_ascii(d as usize, d as usize + 1);
    proof {
        assert(r@ =~= seq![digit_char(d as nat)]);
    }
    r
}

/// Appends the decimal numeral of `n`.
pub fn push_decimal(out: &mut String, n: u64)
    ensures
        final(out)@ == old(out)@ + decimal(n as nat),
    decreases n,
{
    let ghost before = out@;
    if n >= 10 {
        push_decimal(out, n / 10);
    }
    out.append(digit_str((n % 10) as u8));
    proof {
        assert(out@ =~= before + decimal(n as nat));
    }
}

/// Appends the hexadecimal numeral of `n`.
pub fn push_hex(out: &mut String, n: u64)
    ensures
        final(out)@ == old(out)@ + hex(n as nat),
    decreases n,
{
    let ghost before = out@;
    if n >= 16 {
        push_hex(out, n / 16);
    }
    out.append(digit_str((n % 16) as u8));
    proof {
        assert(out@ =~= before + hex(n as nat));
    }
}

/// Appends the two hexadecimal digits of the byte `b`.
pub fn push_hex_pair(out: &mut String, b: u8)
    ensures
        final(out)@ == old(out)@ + hex_pair(b),
{
    let ghost before = out@;
    out.append(digit_str(b / 16));
    out.append(digit_str(b % 16));
    proof {
        assert(out@ =~= before + hex_pair(b));
    }
}

/// Appends the bytes as pairs of hexadecimal digits, with one space between
/// two neighbours.
pub fn push_hex_dump(out: &mut String, bytes: &[u8])
    ensures
        final(out)@ == old(out)@ + hex_dump(bytes@),
{
    let ghost before = out@;
    let mut i: usize = 0;
    while i < bytes.len()
        invariant
            i <= bytes.len(),
            out@ == before + hex_dump(bytes@.subrange(0, i as int)),
        decreases bytes.len() - i,
    {
        let ghost sofar = bytes@.subrange(0, i as int);
        let ghost next = bytes@.subrange(0, i + 1);
        if i > 0 {
            out.append(" ");
        }
        push_hex_pair(out, bytes[i]);
        proof {
            reveal_strlit(" ");
            assert(" "@ =~= seq![' ']);
            assert(next.drop_last() =~= sofar);
            assert(out@ =~= before + hex_dump(next));
        }
        i = i + 1;
    }
    proof {
        assert(bytes@.subrange(0, bytes.len() as int) =~= bytes@);
    }
}

/// The decimal numeral of `n`.
pub fn decimal_string(n: u64) -> (r: String)
    ensures
        r@ == decimal(n as nat),
{
    let mut out = String::new();
    push_decimal(&mut out, n);
    proof {
        assert(out@ =~= decimal(n as nat));
    }
    out
}

/// The hexadecimal numeral of `n`, in lower case.
pub fn hex_string(n: u64) -> (r: String)
    ensures
        r@ == hex(n as nat),
{
    let mut out = String::new();
    push_hex(&mut out, n);
    proof {
        assert(out@ =~= hex(n as nat));
    }
    out
}

/// The label of a numeric code that has only a general name.
pub fn code_label_string(name: &str, code: u16) -> (r: String)
    ensures
        r@ == code_label(name@, code),
{
    let mut out = String::new();
    out.append(name);
    out.append(": (0x");
    push_hex(&mut out, code as u64);
    out.append(")");
    proof {
        assert(out@ =~= code_label(name@, code));
    }
    out
}

/// A decimal numeral spells the number it was made of: no two numbers share
/// a numeral.
pub proof fn lemma_decimal_value(n: nat)
    ensures
        numeral_value(decimal(n), 10) == n,
        decimal(n).len() >= 1,
    decreases n,
{
    lemma_digit_chars();
    if n < 10 {
        let s = seq![digit_char(n)];
        assert(s.drop_last() =~= Seq::<char>::empty());
        assert(numeral_value(s.drop_last(), 10) == 0);
    } else {
        lemma_decimal_value(n / 10);
        let s = decimal(n);
        assert(s.drop_last() =~= decimal(n / 10));
    }
}

/// A hexadecimal numeral spells the number it was made of: no two numbers
/// share a numeral.
pub proof fn lemma_hex_value(n: nat)
    ensures
        numeral_value(hex(n), 16) == n,
        hex(n).len() >= 1,
    decreases n,
{
    lemma_digit_chars();
    if n < 16 {
        let s = seq![digit_char(n)];
        assert(s.drop_last() =~= Seq::<char>::empty());
        assert(numeral_value(s.drop_last(), 16) == 0);
    } else {
        lemma_hex_value(n / 16);
        let s = hex(n);
        assert(s.drop_last() =~= hex(n / 16));
    }
}

} // verus!
