use vstd::prelude::*;

verus! {

/// The value of `c` as a digit (`0-9`, then `a-z` or `A-Z` from ten up);
/// 36 when `c` is no digit in any radix.
pub open spec fn digit_value(c: char) -> nat {
    if '0' <= c && c <= '9' {
        (c as nat - '0' as nat) as nat
    } else if 'a' <= c && c <= 'z' {
        (c as nat - 'a' as nat + 10) as nat
    } else if 'A' <= c && c <= 'Z' {
        (c as nat - 'A' as nat + 10) as nat
    } else {
        36
    }
}

/// Every character of `s` is a digit of `radix`.
pub open spec fn all_digits(s: Seq<char>, radix: nat) -> bool {
    forall|i: int| 0 <= i < s.len() ==> #[trigger] digit_value(s[i]) < radix
}

/// The number that the digits of `s` denote in `radix`, most significant first.
pub open spec fn digits_value(s: Seq<char>, radix: nat) -> nat
    decreases s.len(),
{
    if s.len() == 0 {
        0
    } else {
        digits_value(s.drop_last(), radix) * radix + digit_value(s.last())
    }
}

/// The two characters `0` and `p` (either case of `p`) open `s`.
pub open spec fn has_prefix(s: Seq<char>, p: char) -> bool {
    s.len() >= 2 && s[0] == '0' && (s[1] == p || s[1] == ((p as u8 - 32) as char))
}

/// The radix that the prefix of `s` selects: `0x` hex, `0b` binary, `0o` octal,
/// else decimal.
pub open spec fn literal_radix(s: Seq<char>) -> nat {
    if has_prefix(s, 'x') {
        16
    } else if has_prefix(s, 'b') {
        2
    } else if has_prefix(s, 'o') {
        8
    } else {
        10
    }
}

/// What follows the radix prefix of `s`, if it has one.
pub open spec fn literal_digits(s: Seq<char>) -> Seq<char> {
    if literal_radix(s) == 10 {
        s
    } else {
        s.skip(2)
    }
}

/// `s` is a well-formed literal: at least one digit, and only digits of its radix.
pub open spec fn is_literal(s: Seq<char>) -> bool {
    literal_digits(s).len() > 0 && all_digits(literal_digits(s), literal_radix(s))
}

/// The number that the literal `s` denotes.
pub open spec fn literal_value(s: Seq<char>) -> nat {
    digits_value(literal_digits(s), literal_radix(s))
}

/// The digit character for `d < 16`, with letters in upper or lower case.
pub open spec fn digit_char(d: nat, upper: bool) -> char {
    if d < 10 {
        (('0' as nat) + d) as char
    } else if upper {
        (('A' as nat) + d - 10) as char
    } else {
        (('a' as nat) + d - 10) as char
    }
}

/// The radix that `radix_digits` writes in: 2, 8 or 10 as asked, else 16.
pub open spec fn writing_radix(radix: nat) -> nat {
    if radix == 2 || radix == 8 || radix == 10 {
        radix
    } else {
        16
    }
}

/// `n` written in `writing_radix(radix)`, without leading zeros.
pub open spec fn radix_digits(n: nat, radix: nat, upper: bool) -> Seq<char>
    decreases n,
{
    let (q, r) = if radix == 2 {
        (n / 2, n % 2)
    } else if radix == 8 {
        (n / 8, n % 8)
    } else if radix == 10 {
        (n / 10, n % 10)
    } else {
        (n / 16, n % 16)
    };
    if q == 0 {
        seq![digit_char(r, upper)]
    } else {
        radix_digits(q, radix, upper).push(digit_char(r, upper))
    }
}

/// The prefix that selects `radix`: none for ten, else `0x`, `0b` or `0o`.
pub open spec fn radix_prefix(radix: nat, upper: bool) -> Seq<char> {
    if radix == 16 {
        if upper { "0X"@ } else { "0x"@ }
    } else if radix == 2 {
        if upper { "0B"@ } else { "0b"@ }
    } else if radix == 8 {
        if upper { "0O"@ } else { "0o"@ }
    } else {
        Seq::empty()
    }
}

/// `n` as a literal in `radix`: its prefix, then its digits.
pub open spec fn written(n: nat, radix: nat, upper: bool) -> Seq<char> {
    radix_prefix(radix, upper) + radix_digits(n, radix, upper)
}

proof fn lemma_radix_digits(n: nat, radix: nat, upper: bool)
    requires
        radix == 2 || radix == 8 || radix == 10 || radix == 16,
    ensures
        radix_digits(n, radix, upper).len() > 0,
        all_digits(radix_digits(n, radix, upper), radix),
        digits_value(radix_digits(n, radix, upper), radix) == n,
    decreases n,
{
    let s = radix_digits(n, radix, upper);
    let q = n / radix;
    let r = n % radix;
    assert(n == q * radix + r && r < radix) by (nonlinear_arith)
        requires
            radix > 0,
            q == n / radix,
            r == n % radix,
    ;
    assert(digits_value(s, radix) == digits_value(s.drop_last(), radix) * radix + digit_value(
        s.last(),
    ));
    assert(digit_value(s.last()) == r);
    if q == 0 {
        assert(s.drop_last() =~= Seq::<char>::empty());
        assert(digits_value(s.drop_last(), radix) * radix == 0);
    } else {
        lemma_radix_digits(q, radix, upper);
        let t = radix_digits(q, radix, upper);
        assert(s.drop_last() =~= t);
        assert forall|i: int| 0 <= i < s.len() implies #[trigger] digit_value(s[i]) < radix by {
            if i < t.len() {
                assert(s[i] == t[i]);
            }
        }
    }
}

/// Literals round-trip across radices: `n` written in radix 2, 8, 10 or 16,
/// with its prefix in either case, is a literal whose value is `n`, so it
/// parses back to `n` in any type that holds `n`.
pub proof fn lemma_literal_round_trip(n: nat, radix: nat, upper: bool)
    requires
        radix == 2 || radix == 8 || radix == 10 || radix == 16,
    ensures
        is_literal(written(n, radix, upper)),
        literal_value(written(n, radix, upper)) == n,
{
    reveal_strlit("0x");
    reveal_strlit("0X");
    reveal_strlit("0b");
    reveal_strlit("0B");
    reveal_strlit("0o");
    reveal_strlit("0O");
    lemma_radix_digits(n, radix, upper);
    let d = radix_digits(n, radix, upper);
    let w = written(n, radix, upper);
    if radix == 10 {
        assert(w =~= d);
        if w.len() >= 2 {
            assert(digit_value(w[1]) < 10);
        }
        assert(literal_radix(w) == 10);
    } else {
        assert(w.skip(2) =~= d);
        assert(literal_radix(w) == radix);
    }
}

/// Why a literal was not accepted.
#[derive(Debug, Copy, Clone, PartialEq, Eq, Structural)]
pub enum ParseNumError {
    /// Empty, a bare prefix, or a character that is no digit of the radix.
    InvalidDigit,
    /// Well formed, but too large for the target type.
    OutOfRange,
}

/// An integer type that a literal can be parsed into.
pub trait RadixInt: Sized {
    /// The largest value of the type.
    spec fn max_value() -> nat;

    /// The value as a mathematical integer.
    spec fn as_int(&self) -> int;

    /// Converts a non-empty run of digits of `radix`.
    fn from_digits(digits: &str, radix: u32) -> (r: Option<Self>)
        requires
            2 <= radix <= 36,
            digits@.len() > 0,
            all_digits(digits@, radix as nat),
        ensures
            r is Some <==> digits_value(digits@, radix as nat) <= Self::max_value(),
            r is Some ==> r->0.as_int() == digits_value(digits@, radix as nat),
    ;
}

/// Relies on num's `Num::from_str_radix` for `u8` (std's `u8::from_str_radix`):
/// a run of digits gives its value, or an error when the value does not fit.
#[verifier::external_body]
fn u8_from_digits(digits: &str, radix: u32) -> (r: Option<u8>)
    requires
        2 <= radix <= 36,
        digits@.len() > 0,
        all_digits(digits@, radix as nat),
    ensures
        r is Some <==> digits_value(digits@, radix as nat) <= u8::MAX as nat,
        r is Some ==> r->0 as int == digits_value(digits@, radix as nat),
{
    <u8 as num::Num>::from_str_radix(digits, radix).ok()
}

impl RadixInt for u8 {
    open spec fn max_value() -> nat {
        u8::MAX as nat
    }

    open spec fn as_int(&self) -> int {
        *self as int
    }

    fn from_digits(digits: &str, radix: u32) -> (r: Option<u8>) {
        u8_from_digits(digits, radix)
    }
}

/// Relies on num's `Num::from_str_radix` for `u16` (std's `u16::from_str_radix`):
/// a run of digits gives its value, or an error when the value does not fit.
#[verifier::external_body]
fn u16_from_digits(digits: &str, radix: u32) -> (r: Option<u16>)
    requires
        2 <= radix <= 36,
        digits@.len() > 0,
        all_digits(digits@, radix as nat),
    ensures
        r is Some <==> digits_value(digits@, radix as nat) <= u16::MAX as nat,
        r is Some ==> r->0 as int == digits_value(digits@, radix as nat),
{
    <u16 as num::Num>::from_str_radix(digits, radix).ok()
}

impl RadixInt for u16 {
    open spec fn max_value() -> nat {
        u16::MAX as nat
    }

    open spec fn as_int(&self) -> int {
        *self as int
    }

    fn from_digits(digits: &str, radix: u32) -> (r: Option<u16>) {
        u16_from_digits(digits, radix)
    }
}

/// Relies on num's `Num::from_str_radix` for `u32` (std's `u32::from_str_radix`):
/// a run of digits gives its value, or an error when the value does not fit.
#[verifier::external_body]
fn u32_from_digits(digits: &str, radix: u32) -> (r: Option<u32>)
    requires
        2 <= radix <= 36,
        digits@.len() > 0,
        all_digits(digits@, radix as nat),
    ensures
        r is Some <==> digits_value(digits@, radix as nat) <= u32::MAX as nat,
        r is Some ==> r->0 as int == digits_value(digits@, radix as nat),
{
    <u32 as num::Num>::from_str_radix(digits, radix).ok()
}

impl RadixInt for u32 {
    open spec fn max_value() -> nat {
        u32::MAX as nat
    }

    open spec fn as_int(&self) -> int {
        *self as int
    }

    fn from_digits(digits: &str, radix: u32) -> (r: Option<u32>) {
        u32_from_digits(digits, radix)
    }
}

/// Relies on num's `Num::from_str_radix` for `i8` (std's `i8::from_str_radix`):
/// a run of digits gives its value, or an error when the value does not fit.
#[verifier::external_body]
fn i8_from_digits(digits: &str, radix: u32) -> (r: Option<i8>)
    requires
        2 <= radix <= 36,
        digits@.len() > 0,
        all_digits(digits@, radix as nat),
    ensures
        r is Some <==> digits_value(digits@, radix as nat) <= i8::MAX as nat,
        r is Some ==> r->0 as int == digits_value(digits@, radix as nat),
{
    <i8 as num::Num>::from_str_radix(digits, radix).ok()
}

impl RadixInt for i8 {
    open spec fn max_value() -> nat {
        i8::MAX as nat
    }

    open spec fn as_int(&self) -> int {
        *self as int
    }

    fn from_digits(digits: &str, radix: u32) -> (r: Option<i8>) {
        i8_from_digits(digits, radix)
    }
}

/// Relies on num's `Num::from_str_radix` for `i16` (std's `i16::from_str_radix`):
/// a run of digits gives its value, or an error when the value does not fit.
#[verifier::external_body]
fn i16_from_digits(digits: &str, radix: u32) -> (r: Option<i16>)
    requires
        2 <= radix <= 36,
        digits@.len() > 0,
        all_digits(digits@, radix as nat),
    ensures
        r is Some <==> digits_value(digits@, radix as nat) <= i16::MAX as nat,
        r is Some ==> r->0 as int == digits_value(digits@, radix as nat),
{
    <i16 as num::Num>::from_str_radix(digits, radix).ok()
}

impl RadixInt for i16 {
    open spec fn max_value() -> nat {
        i16::MAX as nat
    }

    open spec fn as_int(&self) -> int {
        *self as int
    }

    fn from_digits(digits: &str, radix: u32) -> (r: Option<i16>) {
        i16_from_digits(digits, radix)
    }
}

/// Relies on num's `Num::from_str_radix` for `i32` (std's `i32::from_str_radix`):
/// a run of digits gives its value, or an error when the value does not fit.
#[verifier::external_body]
fn i32_from_digits(digits: &str, radix: u32) -> (r: Option<i32>)
    requires
        2 <= radix <= 36,
        digits@.len() > 0,
        all_digits(digits@, radix as nat),
    ensures
        r is Some <==> digits_value(digits@, radix as nat) <= i32::MAX as nat,
        r is Some ==> r->0 as int == digits_value(digits@, radix as nat),
{
    <i32 as num::Num>::from_str_radix(digits, radix).ok()
}

impl RadixInt for i32 {
    open spec fn max_value() -> nat {
        i32::MAX as nat
    }

    open spec fn as_int(&self) -> int {
        *self as int
    }

    fn from_digits(digits: &str, radix: u32) -> (r: Option<i32>) {
        i32_from_digits(digits, radix)
    }
}

fn starts_with_prefix(s: &str, len: usize, lower: char, upper: char) -> (r: bool)
    requires
        len as nat == s@.len(),
        upper == ((lower as u8 - 32) as char),
    ensures
        r == has_prefix(s@, lower),
{
    len >= 2 && s.get_char(0) == '0' && (s.get_char(1) == lower || s.get_char(1) == upper)
}

/// Splits a literal into its radix and the digits after the prefix.
pub fn split_radix(s: &str) -> (r: (u32, &str))
    ensures
        r.0 as nat == literal_radix(s@),
        r.1@ == literal_digits(s@),
{
    let len = s.unicode_len();
    let radix: u32 = if starts_with_prefix(s, len, 'x', 'X') {
        16
    } else if starts_with_prefix(s, len, 'b', 'B') {
        2
    } else if starts_with_prefix(s, len, 'o', 'O') {
        8
    } else {
        10
    };
    if radix == 10 {
        (radix, s)
    } else {
        (radix, s.substring_char(2, len))
    }
}

fn check_digits(s: &str, radix: u32) -> (r: bool)
    requires
        2 <= radix <= 36,
    ensures
        r == all_digits(s@, radix as nat),
{
    let len = s.unicode_len();
    let mut i: usize = 0;
    while i < len
        invariant
            len as nat == s@.len(),
            i <= len,
            forall|j: int| 0 <= j < i ==> #[trigger] digit_value(s@[j]) < radix,
        decreases len - i,
    {
        let c = s.get_char(i);
        let d: u32 = if '0' <= c && c <= '9' {
            c as u32 - '0' as u32
        } else if 'a' <= c && c <= 'z' {
            c as u32 - 'a' as u32 + 10
        } else if 'A' <= c && c <= 'Z' {
            c as u32 - 'A' as u32 + 10
        } else {
            36
        };
        assert(d as nat == digit_value(s@[i as int]));
        if d >= radix {
            return false;
        }
        i += 1;
    }
    true
}

/// Parses a literal: an optional case-insensitive prefix `0x`, `0b` or `0o`
/// selects radix 16, 2 or 8, else radix 10; no sign and no whitespace.
pub fn parse_num<T: RadixInt>(s: &str) -> (r: Result<T, ParseNumError>)
    ensures
        !is_literal(s@) ==> r == Err::<T, ParseNumError>(ParseNumError::InvalidDigit),
        is_literal(s@) && literal_value(s@) > T::max_value() ==> r == Err::<T, ParseNumError>(
            ParseNumError::OutOfRange,
        ),
        is_literal(s@) && literal_value(s@) <= T::max_value() ==> r is Ok && r->Ok_0.as_int()
            == literal_value(s@),
{
    let (radix, digits) = split_radix(s);
    if digits.unicode_len() == 0 || !check_digits(digits, radix) {
        return Err(ParseNumError::InvalidDigit);
    }
    match T::from_digits(digits, radix) {
        Some(v) => Ok(v),
        None => Err(ParseNumError::OutOfRange),
    }
}

} // verus!
