//! Digits, decimal numbers and the comparison of keys.

use vstd::prelude::*;
use vstd::string::{StrSliceExecFns, StringExecFns};

verus! {

/// The upper-case hexadecimal digit of a value below sixteen.
pub open spec fn hex_digit(n: int) -> char {
    if n == 0 {
        '0'
    } else if n == 1 {
        '1'
    } else if n == 2 {
        '2'
    } else if n == 3 {
        '3'
    } else if n == 4 {
        '4'
    } else if n == 5 {
        '5'
    } else if n == 6 {
        '6'
    } else if n == 7 {
        '7'
    } else if n == 8 {
        '8'
    } else if n == 9 {
        '9'
    } else if n == 10 {
        'A'
    } else if n == 11 {
        'B'
    } else if n == 12 {
        'C'
    } else if n == 13 {
        'D'
    } else if n == 14 {
        'E'
    } else {
        'F'
    }
}

/// The value of a hexadecimal digit of either case, if the character is one.
pub open spec fn hex_value(c: char) -> Option<int> {
    if '0' <= c && c <= '9' {
        Some(c as int - '0' as int)
    } else if 'a' <= c && c <= 'f' {
        Some(c as int - 'a' as int + 10)
    } else if 'A' <= c && c <= 'F' {
        Some(c as int - 'A' as int + 10)
    } else {
        None
    }
}

/// The upper-case hexadecimal digit of a value below sixteen, as text.
pub(crate) fn hex_digit_str(n: u8) -> (r: &'static str)
    requires
        n < 16,
    ensures
        r@ == seq![hex_digit(n as int)],
{
    proof {
        reveal_strlit("0");
        reveal_strlit("1");
        reveal_strlit("2");
        reveal_strlit("3");
        reveal_strlit("4");
        reveal_strlit("5");
        reveal_strlit("6");
        reveal_strlit("7");
        reveal_strlit("8");
        reveal_strlit("9");
        reveal_strlit("A");
        reveal_strlit("B");
        reveal_strlit("C");
        reveal_strlit("D");
        reveal_strlit("E");
        reveal_strlit("F");
    }
    let r = match n {
        0 => "0",
        1 => "1",
        2 => "2",
        3 => "3",
        4 => "4",
        5 => "5",
        6 => "6",
        7 => "7",
        8 => "8",
        9 => "9",
        10 => "A",
        11 => "B",
        12 => "C",
        13 => "D",
        14 => "E",
        _ => "F",
    };
    assert(r@ =~= seq![hex_digit(n as int)]);
    r
}

/// A hexadecimal digit written for a value reads back as that value.
pub proof fn lemma_hex_digit_value(n: int)
    requires
        0 <= n < 16,
    ensures
        hex_value(hex_digit(n)) == Some(n),
{
}

/// The value of a decimal digit, if the character is one.
pub open spec fn digit_value(c: char) -> Option<nat> {
    if '0' <= c && c <= '9' {
        Some((c as int - '0' as int) as nat)
    } else {
        None
    }
}

/// The number that a text of one or more decimal digits spells.
pub open spec fn digits_value(s: Seq<char>) -> Option<nat>
    decreases s.len(),
{
    if s.len() == 0 {
        None
    } else {
        match digit_value(s.last()) {
            None => None,
            Some(d) => if s.len() == 1 {
                Some(d)
            } else {
                match digits_value(s.drop_last()) {
                    None => None,
                    Some(h) => Some(h * 10 + d),
                }
            },
        }
    }
}

/// The number that a text spells: decimal digits, which a `+` may precede.
/// No blank, no other sign, no empty text.
pub open spec fn unsigned_value(s: Seq<char>) -> Option<nat> {
    if s.len() > 0 && s[0] == '+' {
        digits_value(s.skip(1))
    } else {
        digits_value(s)
    }
}

/// The number that a text spells, if it is at most `max`.
pub open spec fn bounded_value(s: Seq<char>, max: nat) -> Option<nat> {
    match unsigned_value(s) {
        Some(v) => if v <= max {
            Some(v)
        } else {
            None
        },
        None => None,
    }
}

/// The 16-bit number that a text spells.
pub open spec fn u16_value(s: Seq<char>) -> Option<u16> {
    match bounded_value(s, 0xffff) {
        Some(v) => Some(v as u16),
        None => None,
    }
}

/// The 8-bit number that a text spells.
pub open spec fn u8_value(s: Seq<char>) -> Option<u8> {
    match bounded_value(s, 0xff) {
        Some(v) => Some(v as u8),
        None => None,
    }
}

/// The decimal digits of a number, without leading zeros.
pub open spec fn decimal(n: nat) -> Seq<char>
    decreases n,
{
    if n < 10 {
        seq![hex_digit(n as int)]
    } else {
        decimal(n / 10) + seq![hex_digit((n % 10) as int)]
    }
}

/// A text that spells a number holds decimal digits only.
pub proof fn lemma_digits_all(s: Seq<char>, j: int)
    requires
        digits_value(s) is Some,
        0 <= j < s.len(),
    ensures
        digit_value(s[j]) is Some,
    decreases s.len(),
{
    if j < s.len() - 1 {
        lemma_digits_all(s.drop_last(), j);
    }
}

/// A beginning of a text that spells a number spells one that is no greater.
pub proof fn lemma_digits_prefix(s: Seq<char>, k: int)
    requires
        digits_value(s) is Some,
        0 < k <= s.len(),
    ensures
        digits_value(s.take(k)) is Some,
        digits_value(s.take(k)).unwrap() <= digits_value(s).unwrap(),
    decreases s.len(),
{
    if k == s.len() {
        assert(s.take(k) =~= s);
    } else {
        lemma_digits_prefix(s.drop_last(), k);
        assert(s.drop_last().take(k) =~= s.take(k));
    }
}

/// The decimal digits of a number spell it, and begin with a digit.
pub proof fn lemma_decimal_value(n: nat)
    ensures
        decimal(n).len() > 0,
        digit_value(decimal(n)[0]) is Some,
        digits_value(decimal(n)) == Some(n),
        unsigned_value(decimal(n)) == Some(n),
    decreases n,
{
    if n < 10 {
        assert(decimal(n).last() == hex_digit(n as int));
    } else {
        lemma_decimal_value(n / 10);
        let d = decimal(n);
        assert(d.last() == hex_digit((n % 10) as int));
        assert(d.drop_last() =~= decimal(n / 10));
        assert(d[0] == decimal(n / 10)[0]);
    }
}

/// Reads a number of at most `max` from its decimal digits.
fn parse_bounded(s: &str, max: u32) -> (r: Option<u32>)
    requires
        max <= 0xff_ffff,
    ensures
        match r {
            Some(v) => bounded_value(s@, max as nat) == Some(v as nat),
            None => bounded_value(s@, max as nat) is None,
        },
{
    if !s.is_ascii() {
        proof {
            let j = choose|j: int| 0 <= j < s@.len() && !('\0' <= #[trigger] s@[j] <= '\u{7f}');
            if s@[0] == '+' {
                if digits_value(s@.skip(1)) is Some {
                    lemma_digits_all(s@.skip(1), j - 1);
                }
            } else if digits_value(s@) is Some {
                lemma_digits_all(s@, j);
            }
        }
        return None;
    }
    let n = s.unicode_len();
    if n == 0 {
        return None;
    }
    let start: usize = if s.get_ascii(0) == 43 {
        1
    } else {
        0
    };
    if start == n {
        return None;
    }
    let ghost body = s@.skip(start as int);
    assert(unsigned_value(s@) == digits_value(body)) by {
        if start == 0 {
            assert(body =~= s@);
        }
    }
    let mut acc: u32 = 0;
    let mut i: usize = start;
    while i < n
        invariant
            start <= i <= n,
            n == s@.len(),
            s.is_ascii(),
            body == s@.skip(start as int),
            unsigned_value(s@) == digits_value(body),
            max <= 0xff_ffff,
            acc <= max,
            i == start ==> acc == 0,
            i > start ==> digits_value(body.take(i - start)) == Some(acc as nat),
        decreases n - i,
    {
        let b = s.get_ascii(i);
        if b < 48 || b > 57 {
            proof {
                if digits_value(body) is Some {
                    lemma_digits_all(body, i - start);
                }
            }
            return None;
        }
        let next: u32 = acc * 10 + (b - 48) as u32;
        proof {
            let t = body.take(i + 1 - start);
            assert(t.last() == s@[i as int]);
            assert(t.drop_last() =~= body.take(i - start));
            assert(digits_value(t) == Some(next as nat));
        }
        if next > max {
            proof {
                if digits_value(body) is Some {
                    lemma_digits_prefix(body, i + 1 - start);
                }
            }
            return None;
        }
        acc = next;
        i = i + 1;
    }
    assert(body.take(n - start) =~= body);
    Some(acc)
}

/// Reads a 16-bit number from its decimal digits, which a `+` may precede.
pub fn parse_u16(s: &str) -> (r: Option<u16>)
    ensures
        r == u16_value(s@),
{
    match parse_bounded(s, 0xffff) {
        Some(v) => Some(v as u16),
        None => None,
    }
}

/// Reads an 8-bit number from its decimal digits, which a `+` may precede.
pub fn parse_u8(s: &str) -> (r: Option<u8>)
    ensures
        r == u8_value(s@),
{
    match parse_bounded(s, 0xff) {
        Some(v) => Some(v as u8),
        None => None,
    }
}

/// Appends the decimal digits of a number.
fn push_decimal(out: &mut String, n: u16)
    ensures
        final(out)@ == old(out)@ + decimal(n as nat),
    decreases n,
{
    if n >= 10 {
        push_decimal(out, n / 10);
    }
    out.append(hex_digit_str((n % 10) as u8));
    assert(out@ =~= old(out)@ + decimal(n as nat));
}

/// Writes a number in decimal digits, without leading zeros.
pub fn decimal_string(n: u16) -> (r: String)
    ensures
        r@ == decimal(n as nat),
{
    let mut out = String::new();
    push_decimal(&mut out, n);
    assert(out@ =~= decimal(n as nat));
    out
}

/// Reading the decimal digits of a 16-bit number gives the number back.
pub proof fn lemma_u16_round_trip(n: u16)
    ensures
        u16_value(decimal(n as nat)) == Some(n),
{
    lemma_decimal_value(n as nat);
}

/// Reading the decimal digits of an 8-bit number gives the number back.
pub proof fn lemma_u8_round_trip(n: u8)
    ensures
        u8_value(decimal(n as nat)) == Some(n),
{
    lemma_decimal_value(n as nat);
}

/// Whether JSON writes a text between quotes as it stands: it holds no
/// quote, no backslash and no control character.
pub open spec fn is_literal(s: Seq<char>) -> bool {
    forall|i: int| 0 <= i < s.len() ==> ' ' <= #[trigger] s[i] && s[i] != '"' && s[i] != '\\'
}

/// A number in decimal digits is written as it stands.
pub proof fn lemma_decimal_literal(n: nat)
    ensures
        is_literal(decimal(n)),
    decreases n,
{
    if n >= 10 {
        lemma_decimal_literal(n / 10);
    }
}

/// The character at a place of a text, or a blank where the text has none.
pub open spec fn char_at(s: Seq<char>, i: int) -> char {
    if 0 <= i < s.len() {
        s[i]
    } else {
        ' '
    }
}

/// The lower-case form of an ASCII letter; any other character is itself.
pub open spec fn lower(c: char) -> char {
    if 'A' <= c && c <= 'Z' {
        ((c as u8 + 32) as u8) as char
    } else {
        c
    }
}

/// The text with its ASCII letters in lower case.
pub open spec fn lowered(s: Seq<char>) -> Seq<char> {
    Seq::new(s.len(), |i: int| lower(s[i]))
}

/// Whether two texts are the same once their ASCII letters are in lower case.
pub open spec fn same_ignoring_case(a: Seq<char>, b: Seq<char>) -> bool {
    lowered(a) == lowered(b)
}

/// Compares a text with an ASCII name, ASCII letters taken without their case.
pub(crate) fn eq_ignoring_case(a: &str, name: &str) -> (r: bool)
    requires
        name.is_ascii(),
    ensures
        r == same_ignoring_case(a@, name@),
{
    if !a.is_ascii() {
        proof {
            let j = choose|j: int| 0 <= j < a@.len() && !('\0' <= #[trigger] a@[j] <= '\u{7f}');
            if lowered(a@) == lowered(name@) {
                assert(lowered(a@).len() == a@.len());
                assert(lowered(name@).len() == name@.len());
                assert(lowered(a@)[j] == lower(a@[j]));
                assert(lowered(name@)[j] == lower(name@[j]));
            }
        }
        return false;
    }
    let n = a.unicode_len();
    if n != name.unicode_len() {
        assert(lowered(a@).len() != lowered(name@).len());
        return false;
    }
    let mut i: usize = 0;
    while i < n
        invariant
            0 <= i <= n,
            n == a@.len(),
            n == name@.len(),
            a.is_ascii(),
            name.is_ascii(),
            forall|j: int| 0 <= j < i ==> lower(#[trigger] a@[j]) == lower(name@[j]),
        decreases n - i,
    {
        let x = a.get_ascii(i);
        let y = name.get_ascii(i);
        let lx: u8 = if 65 <= x && x <= 90 {
            x + 32
        } else {
            x
        };
        let ly: u8 = if 65 <= y && y <= 90 {
            y + 32
        } else {
            y
        };
        assert(lx == lower(a@[i as int]) as u8);
        assert(ly == lower(name@[i as int]) as u8);
        if lx != ly {
            proof {
                if lowered(a@) == lowered(name@) {
                    assert(lowered(a@)[i as int] == lower(a@[i as int]));
                    assert(lowered(name@)[i as int] == lower(name@[i as int]));
                }
            }
            return false;
        }
        i = i + 1;
    }
    assert(lowered(a@) =~= lowered(name@));
    true
}

/// Compares a text with an ASCII name, character by character.
pub(crate) fn eq_exact(a: &str, name: &str) -> (r: bool)
    requires
        name.is_ascii(),
    ensures
        r == (a@ == name@),
{
    if !a.is_ascii() {
        return false;
    }
    let n = a.unicode_len();
    if n != name.unicode_len() {
        return false;
    }
    let mut i: usize = 0;
    while i < n
        invariant
            0 <= i <= n,
            n == a@.len(),
            n == name@.len(),
            a.is_ascii(),
            name.is_ascii(),
            forall|j: int| 0 <= j < i ==> #[trigger] a@[j] == name@[j],
        decreases n - i,
    {
        if a.get_ascii(i) != name.get_ascii(i) {
            return false;
        }
        i = i + 1;
    }
    assert(a@ =~= name@);
    true
}

} // verus!
