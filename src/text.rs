use vstd::prelude::*;

verus! {

/// The upper-case hexadecimal digit for `d < 16`.
pub open spec fn hex_digit(d: nat) -> char {
    if d < 10 {
        (('0' as nat) + d) as char
    } else {
        (('A' as nat) + d - 10) as char
    }
}

/// `n` in upper-case hexadecimal, without leading zeros.
pub open spec fn hex_of(n: nat) -> Seq<char>
    decreases n,
{
    if n < 16 {
        seq![hex_digit(n)]
    } else {
        hex_of(n / 16).push(hex_digit(n % 16))
    }
}

/// `n` in upper-case hexadecimal, padded with zeros to at least two digits.
pub open spec fn hex_at_least_two(n: nat) -> Seq<char> {
    if n < 16 {
        seq!['0'] + hex_of(n)
    } else {
        hex_of(n)
    }
}

/// The decimal digit for `d < 10`.
pub open spec fn decimal_digit(d: nat) -> char {
    (('0' as nat) + d) as char
}

/// `n` in decimal, without leading zeros.
pub open spec fn decimal_of(n: nat) -> Seq<char>
    decreases n,
{
    if n < 10 {
        seq![decimal_digit(n)]
    } else {
        decimal_of(n / 10).push(decimal_digit(n % 10))
    }
}

/// `"` + `s` + `"` + `rest`.
pub open spec fn quoted(s: Seq<char>, rest: Seq<char>) -> Seq<char> {
    "\""@ + s + "\""@ + rest
}

pub(crate) fn quote(s: &str, rest: &str) -> (r: String)
    ensures
        r@ == quoted(s@, rest@),
{
    let mut r = String::from_str("\"");
    r.append(s);
    r.append("\"");
    r.append(rest);
    r
}

/// Relies on std's `String::push`: the character is added at the end.
#[verifier::external_body]
pub(crate) fn push_char(s: &mut String, c: char)
    ensures
        final(s)@ == old(s)@.push(c),
{
    s.push(c)
}

fn hex_char(d: u32) -> (c: char)
    requires
        d < 16,
    ensures
        c == hex_digit(d as nat),
{
    if d < 10 {
        ('0' as u8 + d as u8) as char
    } else {
        ('A' as u8 + (d - 10) as u8) as char
    }
}

/// Appends `n` in hexadecimal, padded to at least two digits.
pub fn push_hex(s: &mut String, n: u32)
    ensures
        final(s)@ == old(s)@ + hex_at_least_two(n as nat),
{
    if n < 16 {
        push_char(s, '0');
    }
    push_hex_digits(s, n);
    assert(final(s)@ =~= old(s)@ + hex_at_least_two(n as nat));
}

fn push_hex_digits(s: &mut String, n: u32)
    ensures
        final(s)@ == old(s)@ + hex_of(n as nat),
    decreases n,
{
    if n >= 16 {
        push_hex_digits(s, n / 16);
    }
    push_char(s, hex_char(n % 16));
    assert(final(s)@ =~= old(s)@ + hex_of(n as nat));
}

/// Appends `n` in decimal.
pub fn push_decimal(s: &mut String, n: usize)
    ensures
        final(s)@ == old(s)@ + decimal_of(n as nat),
    decreases n,
{
    if n >= 10 {
        push_decimal(s, n / 10);
    }
    push_char(s, ('0' as u8 + (n % 10) as u8) as char);
    assert(final(s)@ =~= old(s)@ + decimal_of(n as nat));
}

} // verus!
