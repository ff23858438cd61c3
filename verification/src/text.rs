//! Text building blocks: decimal and hexadecimal rendering, UUID rendering,
//! ASCII case folding and the normalised ("safe") form of usernames.
use vstd::prelude::*;

verus! {

/// Lower-case hexadecimal digits, indexed by their value.
pub const HEX_DIGITS: [char; 16] = [
    '0', '1', '2', '3', '4', '5', '6', '7', '8', '9', 'a', 'b', 'c', 'd', 'e', 'f',
];

/// The character of a digit value below sixteen.
pub open spec fn digit_char(d: int) -> char {
    HEX_DIGITS@[d]
}

/// Decimal rendering of a natural number, most significant digit first.
pub open spec fn decimal_nat(n: nat) -> Seq<char>
    decreases n,
{
    if n < 10 {
        seq![digit_char(n as int)]
    } else {
        decimal_nat(n / 10).push(digit_char((n % 10) as int))
    }
}

/// Decimal rendering of an integer, with a leading '-' when negative.
pub open spec fn decimal_int(n: int) -> Seq<char> {
    if n < 0 {
        seq!['-'] + decimal_nat((-n) as nat)
    } else {
        decimal_nat(n as nat)
    }
}

/// The `width` last hexadecimal digits of `v`, zero padded, most significant first.
pub open spec fn hex_fixed(v: nat, width: nat) -> Seq<char>
    decreases width,
{
    if width == 0 {
        Seq::empty()
    } else {
        hex_fixed(v / 16, (width - 1) as nat).push(digit_char((v % 16) as int))
    }
}

/// Hyphenated lower-case rendering of a 128-bit UUID value: 32 hexadecimal
/// digits split 8-4-4-4-12.
pub open spec fn uuid_text(v: u128) -> Seq<char> {
    let h = hex_fixed(v as nat, 32);
    h.subrange(0, 8) + seq!['-'] + h.subrange(8, 12) + seq!['-'] + h.subrange(12, 16)
        + seq!['-'] + h.subrange(16, 20) + seq!['-'] + h.subrange(20, 32)
}

/// Appends one character (`String::push`).
#[verifier::external_body]
pub(crate) fn push_char(s: &mut String, c: char)
    ensures
        final(s)@ == old(s)@.push(c),
{
    s.push(c);
}

/// Appends the decimal rendering of `n`.
pub fn push_decimal_u64(s: &mut String, n: u64)
    ensures
        final(s)@ == old(s)@ + decimal_nat(n as nat),
    decreases n,
{
    if n >= 10 {
        push_decimal_u64(s, n / 10);
    }
    let d = (n % 10) as usize;
    push_char(s, HEX_DIGITS[d]);
    proof {
        assert(decimal_nat(n as nat) == if n < 10 {
            seq![digit_char(n as int)]
        } else {
            decimal_nat((n / 10) as nat).push(digit_char((n % 10) as int))
        });
    }
}

/// Appends the decimal rendering of a signed integer.
pub fn push_decimal_i64(s: &mut String, n: i64)
    ensures
        final(s)@ == old(s)@ + decimal_int(n as int),
{
    if n < 0 {
        push_char(s, '-');
        let magnitude: u64 = if n == i64::MIN {
            9223372036854775808u64
        } else {
            (-n) as u64
        };
        push_decimal_u64(s, magnitude);
    } else {
        push_decimal_u64(s, n as u64);
    }
}

/// The decimal rendering of a signed integer.
pub fn decimal_string(n: i64) -> (res: String)
    ensures
        res@ == decimal_int(n as int),
{
    let mut s = String::new();
    push_decimal_i64(&mut s, n);
    s
}

/// Renders a UUID given by its 128-bit value (`uuid::Uuid`'s `Display`), the
/// hyphenated lower-case form.
#[verifier::external_body]
pub(crate) fn uuid_string(v: u128) -> (res: String)
    ensures
        res@ == uuid_text(v),
{
    uuid::Uuid::from_u128(v).to_string()
}

/// Reads a UUID (`uuid::Uuid::parse_str`, as its 128-bit value). The
/// hyphenated lower-case text of a value reads back as that value. The parser
/// also accepts other forms (simple, braced, URN, upper case); what it gives
/// for them is left unsaid here.
#[verifier::external_body]
pub(crate) fn parse_uuid(s: &str) -> (res: Option<u128>)
    ensures
        forall|v: u128| s@ == #[trigger] uuid_text(v) ==> res == Some(v),
{
    match uuid::Uuid::parse_str(s) {
        Ok(u) => Some(u.as_u128()),
        Err(_) => None,
    }
}

/// ASCII lower-casing of one character; other characters are kept.
pub open spec fn ascii_lower(c: char) -> char {
    if 'A' <= c && c <= 'Z' {
        ((c as u32) + 32) as char
    } else {
        c
    }
}

/// ASCII lower-casing of a text (`str::to_ascii_lowercase`).
pub open spec fn ascii_lowercase(s: Seq<char>) -> Seq<char> {
    s.map_values(|c: char| ascii_lower(c))
}

/// The normalised form of a username: ASCII lower case, spaces replaced by
/// underscores.
pub open spec fn safe_username_text(s: Seq<char>) -> Seq<char> {
    s.map_values(|c: char| if c == ' ' { '_' } else { ascii_lower(c) })
}

/// Lower-cases one character if it is an ASCII capital.
pub fn lower_char(c: char) -> (res: char)
    ensures
        res == ascii_lower(c),
{
    if 'A' <= c && c <= 'Z' {
        let code: u8 = (c as u32 + 32) as u8;
        let lowered: char = code as char;
        lowered
    } else {
        c
    }
}

/// ASCII lower-casing of a text.
pub fn to_ascii_lowercase(s: &str) -> (res: String)
    ensures
        res@ == ascii_lowercase(s@),
{
    let mut out = String::new();
    for c in it: s.chars()
        invariant
            it.seq() == s@,
            out@ == ascii_lowercase(s@.take(it.index() as int)),
    {
        assert(s@.take(it.index() + 1) == s@.take(it.index() as int).push(c));
        let l = lower_char(c);
        push_char(&mut out, l);
    }
    assert(s@.take(s@.len() as int) == s@);
    out
}

} // verus!
