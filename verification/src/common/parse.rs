//! Parsing of decimal integers (the `FromStr` grammar of Rust's integer
//! types) and splitting of comma separated fields.
use crate::text::{HEX_DIGITS, decimal_int, decimal_nat, digit_char, push_char};
use vstd::prelude::*;

verus! {

/// Whether the character is an ASCII digit.
pub open spec fn is_digit(c: char) -> bool {
    '0' <= c && c <= '9'
}

/// The value of a digit character.
pub open spec fn digit_value(c: char) -> int {
    (c as u32) - ('0' as u32)
}

/// The value of a string of digits.
pub open spec fn digits_value(s: Seq<char>) -> nat
    decreases s.len(),
{
    if s.len() == 0 {
        0
    } else {
        (digits_value(s.drop_last()) * 10 + digit_value(s.last())) as nat
    }
}

/// Whether all characters are digits, and there is at least one.
pub open spec fn all_digits(s: Seq<char>) -> bool {
    s.len() > 0 && forall|i: int| 0 <= i < s.len() ==> is_digit(#[trigger] s[i])
}

/// What `i64::from_str` gives: an optional '+' or '-' followed by digits,
/// the value within range.
pub open spec fn parse_i64_spec(s: Seq<char>) -> Option<i64> {
    if s.len() > 0 && s[0] == '-' && all_digits(s.drop_first()) && digits_value(s.drop_first()) <= 0x8000_0000_0000_0000 {
        Some((0 - digits_value(s.drop_first())) as i64)
    } else if s.len() > 0 && s[0] == '+' && all_digits(s.drop_first()) && digits_value(s.drop_first()) <= i64::MAX {
        Some(digits_value(s.drop_first()) as i64)
    } else if all_digits(s) && digits_value(s) <= i64::MAX {
        Some(digits_value(s) as i64)
    } else {
        None
    }
}

/// What `u8::from_str` gives: an optional '+' followed by digits, the value
/// at most 255.
pub open spec fn parse_u8_spec(s: Seq<char>) -> Option<u8> {
    if s.len() > 0 && s[0] == '+' && all_digits(s.drop_first()) && digits_value(s.drop_first()) <= 255 {
        Some(digits_value(s.drop_first()) as u8)
    } else if all_digits(s) && digits_value(s) <= 255 {
        Some(digits_value(s) as u8)
    } else {
        None
    }
}

/// Appending a digit never lowers the value.
pub proof fn lemma_digits_value_grows(s: Seq<char>, n: int)
    requires
        0 <= n <= s.len(),
        forall|i: int| 0 <= i < s.len() ==> is_digit(#[trigger] s[i]),
    ensures
        digits_value(s.take(n)) <= digits_value(s),
    decreases s.len(),
{
    if n < s.len() {
        assert(s.drop_last().take(n) == s.take(n));
        lemma_digits_value_grows(s.drop_last(), n);
    } else {
        assert(s.take(n) == s);
    }
}

/// The value of the digits of `s` from position `start` on, if all of them
/// are digits, at least one, and the value is at most `bound`.
fn digits_up_to(s: &Vec<char>, start: usize, bound: u64) -> (res: Option<u64>)
    requires
        start <= s@.len(),
        bound >= 9,
    ensures
        match res {
            Some(v) => all_digits(s@.skip(start as int)) && v == digits_value(s@.skip(start as int))
                && v <= bound,
            None => !(all_digits(s@.skip(start as int)) && digits_value(s@.skip(start as int)) <= bound),
        },
{
    let ghost t = s@.skip(start as int);
    if start == s.len() {
        return None;
    }
    let mut acc: u64 = 0;
    let mut i: usize = start;
    while i < s.len()
        invariant
            start <= i <= s@.len(),
            t == s@.skip(start as int),
            forall|j: int| 0 <= j < i - start ==> is_digit(#[trigger] t[j]),
            acc == digits_value(t.take(i - start)),
            acc <= bound,
            bound >= 9,
        decreases s@.len() - i,
    {
        let c = s[i];
        assert(c == t[i - start]);
        if !('0' <= c && c <= '9') {
            return None;
        }
        assert(t.take(i - start + 1).drop_last() == t.take(i - start));
        let d: u64 = (c as u32 - '0' as u32) as u64;
        if acc > (bound - d) / 10 {
            proof {
                assert(forall|j: int| 0 <= j < i - start + 1 ==> is_digit(#[trigger] t.take(i - start + 1)[j]));
                assert(digits_value(t.take(i - start + 1)) == acc * 10 + d);
                assert(acc * 10 + d > bound) by (nonlinear_arith)
                    requires acc > (bound - d) / 10, d <= 9, d <= bound;
                if all_digits(t) {
                    lemma_digits_value_grows(t, i - start + 1);
                }
            }
            return None;
        }
        proof {
            assert(acc * 10 + d <= bound) by (nonlinear_arith)
                requires acc <= (bound - d) / 10, d <= bound;
        }
        acc = acc * 10 + d;
        i = i + 1;
    }
    assert(t.take(t.len() as int) == t);
    Some(acc)
}

fn chars_of(s: &str) -> (v: Vec<char>)
    ensures
        v@ == s@,
{
    let mut v: Vec<char> = Vec::new();
    for c in it: s.chars()
        invariant
            it.seq() == s@,
            v@ == s@.take(it.index() as int),
    {
        assert(s@.take(it.index() + 1) == s@.take(it.index() as int).push(c));
        v.push(c);
    }
    assert(s@.take(s@.len() as int) == s@);
    v
}

/// Parses a signed 64-bit integer as `i64::from_str` does.
pub fn parse_i64(s: &str) -> (res: Option<i64>)
    ensures
        res == parse_i64_spec(s@),
{
    let v = chars_of(s);
    if v.len() > 0 && v[0] == '-' {
        assert(v@.skip(1) == s@.drop_first());
        match digits_up_to(&v, 1, 0x8000_0000_0000_0000u64) {
            Some(m) => {
                if m == 0x8000_0000_0000_0000u64 {
                    Some(i64::MIN)
                } else {
                    Some(0 - (m as i64))
                }
            },
            None => None,
        }
    } else if v.len() > 0 && v[0] == '+' {
        assert(v@.skip(1) == s@.drop_first());
        match digits_up_to(&v, 1, i64::MAX as u64) {
            Some(m) => Some(m as i64),
            None => None,
        }
    } else {
        assert(v@.skip(0) == s@);
        match digits_up_to(&v, 0, i64::MAX as u64) {
            Some(m) => Some(m as i64),
            None => None,
        }
    }
}

/// Parses an unsigned 8-bit integer as `u8::from_str` does.
pub fn parse_u8(s: &str) -> (res: Option<u8>)
    ensures
        res == parse_u8_spec(s@),
{
    let v = chars_of(s);
    if v.len() > 0 && v[0] == '+' {
        assert(v@.skip(1) == s@.drop_first());
        match digits_up_to(&v, 1, 255) {
            Some(m) => Some(m as u8),
            None => None,
        }
    } else {
        assert(v@.skip(0) == s@);
        match digits_up_to(&v, 0, 255) {
            Some(m) => Some(m as u8),
            None => None,
        }
    }
}

/// What `from_str` of an unsigned integer type whose largest value is `max`
/// gives: an optional '+' followed by digits, the value at most `max`.
pub open spec fn parse_unsigned_spec(s: Seq<char>, max: nat) -> Option<nat> {
    if s.len() > 0 && s[0] == '+' && all_digits(s.drop_first()) && digits_value(s.drop_first()) <= max {
        Some(digits_value(s.drop_first()))
    } else if all_digits(s) && digits_value(s) <= max {
        Some(digits_value(s))
    } else {
        None
    }
}

/// Whether an unsigned parse of `s` with largest value `max` gave `res`.
pub open spec fn parsed_unsigned(s: Seq<char>, max: nat, res: Option<u64>) -> bool {
    match res {
        Some(v) => parse_unsigned_spec(s, max) == Some(v as nat),
        None => parse_unsigned_spec(s, max).is_none(),
    }
}

fn parse_unsigned(s: &str, max: u64) -> (res: Option<u64>)
    requires
        max >= 9,
    ensures
        parsed_unsigned(s@, max as nat, res),
{
    let v = chars_of(s);
    if v.len() > 0 && v[0] == '+' {
        assert(v@.skip(1) == s@.drop_first());
        digits_up_to(&v, 1, max)
    } else {
        assert(v@.skip(0) == s@);
        digits_up_to(&v, 0, max)
    }
}

/// Parses an unsigned 16-bit integer as `u16::from_str` does.
pub fn parse_u16(s: &str) -> (res: Option<u16>)
    ensures
        match res {
            Some(v) => parse_unsigned_spec(s@, u16::MAX as nat) == Some(v as nat),
            None => parse_unsigned_spec(s@, u16::MAX as nat).is_none(),
        },
{
    match parse_unsigned(s, 65535) {
        Some(v) => Some(v as u16),
        None => None,
    }
}

/// Parses an unsigned 64-bit integer as `u64::from_str` does.
pub fn parse_u64(s: &str) -> (res: Option<u64>)
    ensures
        parsed_unsigned(s@, u64::MAX as nat, res),
{
    parse_unsigned(s, u64::MAX)
}

/// Parses a `usize` as `usize::from_str` does.
pub fn parse_usize(s: &str) -> (res: Option<usize>)
    ensures
        match res {
            Some(v) => parse_unsigned_spec(s@, usize::MAX as nat) == Some(v as nat),
            None => parse_unsigned_spec(s@, usize::MAX as nat).is_none(),
        },
{
    match parse_unsigned(s, usize::MAX as u64) {
        Some(v) => Some(v as usize),
        None => None,
    }
}

/// The pieces of a text between commas (`str::split(',')`): one more piece
/// than there are commas, possibly empty.
pub open spec fn comma_pieces(s: Seq<char>) -> Seq<Seq<char>>
    decreases s.len(),
{
    if s.len() == 0 {
        seq![Seq::empty()]
    } else {
        let p = comma_pieces(s.drop_last());
        if s.last() == ',' {
            p.push(Seq::empty())
        } else {
            p.update(p.len() - 1, p.last().push(s.last()))
        }
    }
}

/// There is always at least one piece.
pub proof fn lemma_comma_pieces_nonempty(s: Seq<char>)
    ensures
        comma_pieces(s).len() >= 1,
    decreases s.len(),
{
    if s.len() > 0 {
        lemma_comma_pieces_nonempty(s.drop_last());
    }
}

/// Text without commas extends the last piece.
pub proof fn lemma_comma_pieces_append_plain(a: Seq<char>, b: Seq<char>)
    requires
        forall|i: int| 0 <= i < b.len() ==> b[i] != ',',
    ensures
        comma_pieces(a + b) == comma_pieces(a).update(
            comma_pieces(a).len() - 1,
            comma_pieces(a).last() + b,
        ),
    decreases b.len(),
{
    lemma_comma_pieces_nonempty(a);
    let p = comma_pieces(a);
    if b.len() == 0 {
        assert(a + b == a);
        assert(p.last() + b == p.last());
        assert(p.update(p.len() - 1, p.last()) == p);
    } else {
        let b0 = b.drop_last();
        lemma_comma_pieces_append_plain(a, b0);
        assert((a + b).drop_last() == a + b0);
        assert((a + b).last() == b.last());
        let q = comma_pieces(a + b0);
        assert(q == p.update(p.len() - 1, p.last() + b0));
        assert(q.last() == p.last() + b0);
        assert((p.last() + b0).push(b.last()) == p.last() + b);
        assert(q.update(q.len() - 1, q.last().push(b.last())) == p.update(p.len() - 1, p.last() + b));
    }
}

/// A comma starts a new, empty piece.
pub proof fn lemma_comma_pieces_push_comma(a: Seq<char>)
    ensures
        comma_pieces(a.push(',')) == comma_pieces(a).push(Seq::empty()),
{
    assert(a.push(',').drop_last() == a);
}

/// Texts without commas joined by commas split back into those texts.
pub proof fn lemma_comma_pieces_of_three(x: Seq<char>, y: Seq<char>, z: Seq<char>)
    requires
        forall|i: int| 0 <= i < x.len() ==> x[i] != ',',
        forall|i: int| 0 <= i < y.len() ==> y[i] != ',',
        forall|i: int| 0 <= i < z.len() ==> z[i] != ',',
    ensures
        comma_pieces(x + seq![','] + y + seq![','] + z) == seq![x, y, z],
{
    let e = Seq::<char>::empty();
    lemma_comma_pieces_append_plain(e, x);
    assert(e + x == x);
    assert(comma_pieces(e) == seq![e]);
    assert(e + x == x);
    assert(comma_pieces(x) == seq![x]);
    lemma_comma_pieces_push_comma(x);
    assert(x + seq![','] == x.push(','));
    assert(comma_pieces(x + seq![',']) == seq![x, e]);
    lemma_comma_pieces_append_plain(x + seq![','], y);
    assert(e + y == y);
    assert(comma_pieces(x + seq![','] + y) == seq![x, y]);
    lemma_comma_pieces_push_comma(x + seq![','] + y);
    assert(x + seq![','] + y + seq![','] == (x + seq![','] + y).push(','));
    assert(comma_pieces(x + seq![','] + y + seq![',']) == seq![x, y, e]);
    lemma_comma_pieces_append_plain(x + seq![','] + y + seq![','], z);
    assert(e + z == z);
}

/// Splits a text at its commas.
pub fn split_commas(s: &str) -> (pieces: Vec<String>)
    ensures
        pieces@.len() == comma_pieces(s@).len(),
        forall|i: int| 0 <= i < pieces@.len() ==> #[trigger] pieces@[i]@ == comma_pieces(s@)[i],
{
    let mut done: Vec<String> = Vec::new();
    let mut current = String::new();
    for c in it: s.chars()
        invariant
            it.seq() == s@,
            done@.len() + 1 == comma_pieces(s@.take(it.index() as int)).len(),
            forall|i: int| 0 <= i < done@.len() ==> #[trigger] done@[i]@ == comma_pieces(s@.take(it.index() as int))[i],
            current@ == comma_pieces(s@.take(it.index() as int)).last(),
    {
        let ghost pre = s@.take(it.index() as int);
        assert(s@.take(it.index() + 1).drop_last() == pre);
        proof {
            lemma_comma_pieces_nonempty(pre);
        }
        if c == ',' {
            let finished = current;
            done.push(finished);
            current = String::new();
        } else {
            push_char(&mut current, c);
        }
    }
    assert(s@.take(s@.len() as int) == s@);
    proof {
        lemma_comma_pieces_nonempty(s@);
    }
    done.push(current);
    done
}

/// The decimal digits of a number are digits, at least one, and read back
/// as the number.
pub proof fn lemma_decimal_nat_reads_back(n: nat)
    ensures
        all_digits(decimal_nat(n)),
        digits_value(decimal_nat(n)) == n,
    decreases n,
{
    assert(HEX_DIGITS@ == seq!['0', '1', '2', '3', '4', '5', '6', '7', '8', '9', 'a', 'b', 'c', 'd', 'e', 'f']);
    let d = n % 10;
    assert(is_digit(digit_char(d as int)) && digit_value(digit_char(d as int)) == d);
    if n >= 10 {
        lemma_decimal_nat_reads_back(n / 10);
        let s = decimal_nat(n / 10);
        assert(decimal_nat(n) == s.push(digit_char(d as int)));
        assert(decimal_nat(n).drop_last() == s);
        assert((n / 10) * 10 + n % 10 == n) by (nonlinear_arith);
        assert(digits_value(decimal_nat(n)) == digits_value(s) * 10 + digit_value(digit_char(d as int)));
        assert forall|i: int| 0 <= i < decimal_nat(n).len() implies is_digit(#[trigger] decimal_nat(n)[i]) by {
            if i < s.len() {
                assert(decimal_nat(n)[i] == s[i]);
            }
        }
    } else {
        assert(decimal_nat(n).drop_last() == Seq::<char>::empty());
        assert(n % 10 == n);
        assert(digits_value(decimal_nat(n)) == digits_value(Seq::<char>::empty()) * 10 + digit_value(digit_char(d as int)));
    }
}

/// Every 64-bit integer written in decimal reads back as itself: decimal
/// rendering and integer parsing undo each other, so distinct numbers give
/// distinct texts (and distinct redis keys).
pub proof fn lemma_decimal_roundtrip(n: i64)
    ensures
        parse_i64_spec(decimal_int(n as int)) == Some(n),
{
    assert(HEX_DIGITS@ == seq!['0', '1', '2', '3', '4', '5', '6', '7', '8', '9', 'a', 'b', 'c', 'd', 'e', 'f']);
    if n < 0 {
        let m = (-(n as int)) as nat;
        lemma_decimal_nat_reads_back(m);
        let s = decimal_int(n as int);
        assert(s == seq!['-'] + decimal_nat(m));
        assert(s.drop_first() == decimal_nat(m));
        assert(s[0] == '-');
    } else {
        lemma_decimal_nat_reads_back(n as nat);
        let s = decimal_nat(n as nat);
        assert(is_digit(s[0]));
    }
}

/// Distinct integers have distinct decimal texts.
pub proof fn lemma_decimal_injective(a: i64, b: i64)
    ensures
        decimal_int(a as int) == decimal_int(b as int) ==> a == b,
{
    lemma_decimal_roundtrip(a);
    lemma_decimal_roundtrip(b);
}

} // verus!
