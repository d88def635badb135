//! Text forms of bytes and of numbers: lower-case hexadecimal and decimal.

use vstd::prelude::*;

verus! {

/// The hexadecimal digit of a value below sixteen, in lower case.
pub open spec fn hex_char(n: int) -> char {
    if n == 0 {
        '0'
    } else if n == 1 {
        '1'
    } else if n == 2 {
        '2'
    } else if n == 3 {
        '3'
    } else if n == 4 {
        '4'
    } else if n == 5 {
        '5'
    } else if n == 6 {
        '6'
    } else if n == 7 {
        '7'
    } else if n == 8 {
        '8'
    } else if n == 9 {
        '9'
    } else if n == 10 {
        'a'
    } else if n == 11 {
        'b'
    } else if n == 12 {
        'c'
    } else if n == 13 {
        'd'
    } else if n == 14 {
        'e'
    } else {
        'f'
    }
}

/// The value of a lower-case hexadecimal digit; `None` for any other
/// character.
pub open spec fn hex_value(c: char) -> Option<int> {
    if c == '0' {
        Some(0)
    } else if c == '1' {
        Some(1)
    } else if c == '2' {
        Some(2)
    } else if c == '3' {
        Some(3)
    } else if c == '4' {
        Some(4)
    } else if c == '5' {
        Some(5)
    } else if c == '6' {
        Some(6)
    } else if c == '7' {
        Some(7)
    } else if c == '8' {
        Some(8)
    } else if c == '9' {
        Some(9)
    } else if c == 'a' {
        Some(10)
    } else if c == 'b' {
        Some(11)
    } else if c == 'c' {
        Some(12)
    } else if c == 'd' {
        Some(13)
    } else if c == 'e' {
        Some(14)
    } else if c == 'f' {
        Some(15)
    } else {
        None
    }
}

/// Bytes in hexadecimal: two lower-case digits for each byte, the high
/// half first.
pub open spec fn hex_spec(bytes: Seq<u8>) -> Seq<char> {
    Seq::new(
        2 * bytes.len(),
        |i: int|
            if i % 2 == 0 {
                hex_char(bytes[i / 2] as int / 16)
            } else {
                hex_char(bytes[i / 2] as int % 16)
            },
    )
}

/// Whether a text is the hexadecimal form of some bytes: an even number of
/// lower-case hexadecimal digits.
pub open spec fn is_hex(text: Seq<char>) -> bool {
    text.len() % 2 == 0 && forall|i: int| 0 <= i < text.len() ==> hex_value(#[trigger] text[i]) is Some
}

/// The bytes that a hexadecimal text stands for.
pub open spec fn unhex_spec(text: Seq<char>) -> Option<Seq<u8>> {
    if is_hex(text) {
        Some(
            Seq::new(
                text.len() / 2,
                |i: int| (hex_value(text[2 * i])->0 * 16 + hex_value(text[2 * i + 1])->0) as u8,
            ),
        )
    } else {
        None
    }
}

/// Reading the hexadecimal form of bytes gives the bytes back.
pub proof fn lemma_unhex_hex(bytes: Seq<u8>)
    ensures
        unhex_spec(hex_spec(bytes)) == Some(bytes),
{
    let text = hex_spec(bytes);
    assert forall|i: int| 0 <= i < text.len() implies hex_value(#[trigger] text[i]) is Some by {
        let b = bytes[i / 2] as int;
        assert(0 <= b / 16 < 16 && 0 <= b % 16 < 16);
    }
    assert(is_hex(text));
    assert(unhex_spec(text)->0 =~= bytes) by {
        assert forall|i: int| 0 <= i < bytes.len() implies unhex_spec(text)->0[i] == bytes[i] by {
            let b = bytes[i] as int;
            assert(0 <= b / 16 < 16 && 0 <= b % 16 < 16);
            assert((2 * i) / 2 == i && (2 * i + 1) / 2 == i);
            assert((2 * i) % 2 == 0 && (2 * i + 1) % 2 == 1);
            assert(text[2 * i] == hex_char(b / 16));
            assert(text[2 * i + 1] == hex_char(b % 16));
            assert(hex_value(hex_char(b / 16)) == Some(b / 16));
            assert(hex_value(hex_char(b % 16)) == Some(b % 16));
            assert((b / 16) * 16 + b % 16 == b);
        }
    }
}

/// Two texts that stand for the same bytes are the same text.
pub proof fn lemma_hex_unhex(text: Seq<char>)
    requires
        is_hex(text),
    ensures
        hex_spec(unhex_spec(text)->0) == text,
{
    let bytes = unhex_spec(text)->0;
    assert(hex_spec(bytes) =~= text) by {
        assert forall|i: int| 0 <= i < text.len() implies hex_spec(bytes)[i] == text[i] by {
            let k = i / 2;
            let hi = hex_value(text[2 * k])->0;
            let lo = hex_value(text[2 * k + 1])->0;
            assert(hex_value(text[2 * k]) is Some && hex_value(text[2 * k + 1]) is Some);
            assert(0 <= hi < 16 && 0 <= lo < 16);
            assert(bytes[k] == (hi * 16 + lo) as u8);
            assert((hi * 16 + lo) / 16 == hi && (hi * 16 + lo) % 16 == lo);
            assert(hex_char(hi) == text[2 * k]);
            assert(hex_char(lo) == text[2 * k + 1]);
        }
    }
}

fn digit_text(n: u8) -> (s: &'static str)
    requires
        n < 16,
    ensures
        s@ == seq![hex_char(n as int)],
{
    let s = match n {
        0 => "0",
        1 => "1",
        2 => "2",
        3 => "3",
        4 => "4",
        5 => "5",
        6 => "6",
        7 => "7",
        8 => "8",
        9 => "9",
        10 => "a",
        11 => "b",
        12 => "c",
        13 => "d",
        14 => "e",
        _ => "f",
    };
    proof {
        reveal_strlit("0");
        reveal_strlit("1");
        reveal_strlit("2");
        reveal_strlit("3");
        reveal_strlit("4");
        reveal_strlit("5");
        reveal_strlit("6");
        reveal_strlit("7");
        reveal_strlit("8");
        reveal_strlit("9");
        reveal_strlit("a");
        reveal_strlit("b");
        reveal_strlit("c");
        reveal_strlit("d");
        reveal_strlit("e");
        reveal_strlit("f");
        assert(s@ =~= seq![hex_char(n as int)]);
    }
    s
}

fn digit_value(c: char) -> (r: Option<u8>)
    ensures
        match hex_value(c) {
            Some(v) => r == Some(v as u8) && v < 16,
            None => r is None,
        },
{
    match c {
        '0' => Some(0),
        '1' => Some(1),
        '2' => Some(2),
        '3' => Some(3),
        '4' => Some(4),
        '5' => Some(5),
        '6' => Some(6),
        '7' => Some(7),
        '8' => Some(8),
        '9' => Some(9),
        'a' => Some(10),
        'b' => Some(11),
        'c' => Some(12),
        'd' => Some(13),
        'e' => Some(14),
        'f' => Some(15),
        _ => None,
    }
}

/// Writes bytes in hexadecimal, lower case, without a prefix.
pub fn to_hex(bytes: &Vec<u8>) -> (text: String)
    ensures
        text@ == hex_spec(bytes@),
{
    let mut text = String::new();
    let mut i: usize = 0;
    while i < bytes.len()
        invariant
            i <= bytes@.len(),
            text@ == hex_spec(bytes@.take(i as int)),
        decreases bytes@.len() - i,
    {
        let b = bytes[i];
        let ghost before = text@;
        text.append(digit_text(b / 16));
        text.append(digit_text(b % 16));
        proof {
            let now = bytes@.take(i + 1);
            assert(text@ == before + seq![hex_char(b as int / 16)] + seq![hex_char(b as int % 16)]);
            assert(text@ =~= hex_spec(now)) by {
                assert forall|k: int| 0 <= k < text@.len() implies text@[k] == hex_spec(now)[k] by {
                    if k < 2 * i {
                        assert(before[k] == hex_spec(bytes@.take(i as int))[k]);
                        assert(now[k / 2] == bytes@.take(i as int)[k / 2]);
                    }
                }
            }
        }
        i = i + 1;
    }
    assert(bytes@.take(i as int) =~= bytes@);
    text
}

/// Reads bytes from hexadecimal: an even number of lower-case digits, no
/// prefix. Anything else gives `None`.
pub fn from_hex(text: &str) -> (bytes: Option<Vec<u8>>)
    ensures
        match unhex_spec(text@) {
            Some(b) => bytes matches Some(v) && v@ == b,
            None => bytes is None,
        },
{
    let n = text.unicode_len();
    if n % 2 != 0 {
        return None;
    }
    let mut out: Vec<u8> = Vec::new();
    let mut i: usize = 0;
    while i < n / 2
        invariant
            n == text@.len(),
            n % 2 == 0,
            i <= n / 2,
            out@.len() == i,
            forall|k: int| 0 <= k < 2 * i ==> hex_value(#[trigger] text@[k]) is Some,
            forall|k: int|
                0 <= k < i ==> #[trigger] out@[k] == (hex_value(text@[2 * k])->0 * 16 + hex_value(
                    text@[2 * k + 1],
                )->0) as u8,
        decreases n / 2 - i,
    {
        let hi = digit_value(text.get_char(2 * i));
        let lo = digit_value(text.get_char(2 * i + 1));
        match (hi, lo) {
            (Some(h), Some(l)) => {
                out.push(h * 16 + l);
            },
            _ => {
                assert(!is_hex(text@));
                return None;
            },
        }
        i = i + 1;
    }
    assert(is_hex(text@));
    assert(out@ =~= unhex_spec(text@)->0);
    Some(out)
}


/// The value of a decimal digit; `None` for any other character.
pub open spec fn decimal_value(c: char) -> Option<int> {
    match hex_value(c) {
        Some(v) => if v < 10 {
            Some(v)
        } else {
            None
        },
        None => None,
    }
}

/// A number in decimal, without leading zeros.
pub open spec fn decimal_spec(n: nat) -> Seq<char>
    decreases n,
{
    if n < 10 {
        seq![hex_char(n as int)]
    } else {
        decimal_spec(n / 10).push(hex_char((n % 10) as int))
    }
}

/// Whether a text is made of decimal digits only, and of one at least.
pub open spec fn is_decimal(text: Seq<char>) -> bool {
    text.len() > 0 && forall|i: int|
        0 <= i < text.len() ==> decimal_value(#[trigger] text[i]) is Some
}

/// The number that the digits of a text spell, read from the left.
pub open spec fn digits_value(text: Seq<char>) -> nat
    decreases text.len(),
{
    if text.len() == 0 {
        0
    } else {
        (digits_value(text.drop_last()) * 10 + match decimal_value(text.last()) {
            Some(v) => v,
            None => 0,
        }) as nat
    }
}

/// The number that a decimal text stands for, where it fits in 64 bits.
/// Leading zeros are read over. Signs, blanks and other characters are
/// not accepted.
pub open spec fn undecimal_spec(text: Seq<char>) -> Option<u64> {
    if is_decimal(text) && digits_value(text) <= u64::MAX {
        Some(digits_value(text) as u64)
    } else {
        None
    }
}

/// The decimal form of a number is made of digits and spells the number.
pub proof fn lemma_decimal_digits(n: nat)
    ensures
        is_decimal(decimal_spec(n)),
        digits_value(decimal_spec(n)) == n,
    decreases n,
{
    if n < 10 {
        let text = decimal_spec(n);
        assert(text.len() == 1);
        assert(text[0] == hex_char(n as int));
        assert(decimal_value(hex_char(n as int)) == Some(n as int));
        assert(text.drop_last().len() == 0);
        assert(digits_value(text.drop_last()) == 0);
        assert(text.last() == text[0]);
    } else {
        lemma_decimal_digits(n / 10);
        let head = decimal_spec(n / 10);
        let text = decimal_spec(n);
        let d = (n % 10) as int;
        assert(text == head.push(hex_char(d)));
        assert(decimal_value(hex_char(d)) == Some(d));
        assert(text.drop_last() =~= head);
        assert(text.last() == hex_char(d));
        assert forall|i: int| 0 <= i < text.len() implies decimal_value(#[trigger] text[i])
            is Some by {
            if i < head.len() {
                assert(text[i] == head[i]);
            }
        }
        assert((n / 10) * 10 + n % 10 == n);
    }
}

/// Reading the decimal form of a number gives the number back.
pub proof fn lemma_undecimal_decimal(n: u64)
    ensures
        undecimal_spec(decimal_spec(n as nat)) == Some(n),
{
    lemma_decimal_digits(n as nat);
}

fn decimal_digit(c: char) -> (r: Option<u8>)
    ensures
        match decimal_value(c) {
            Some(v) => r == Some(v as u8) && v < 10,
            None => r is None,
        },
{
    match digit_value(c) {
        Some(v) => if v < 10 {
            Some(v)
        } else {
            None
        },
        None => None,
    }
}

/// Writes a number in decimal.
pub fn to_decimal(n: u64) -> (text: String)
    ensures
        text@ == decimal_spec(n as nat),
    decreases n,
{
    if n < 10 {
        String::from_str(digit_text(n as u8))
    } else {
        let mut text = to_decimal(n / 10);
        text.append(digit_text((n % 10) as u8));
        assert(text@ =~= decimal_spec(n as nat));
        text
    }
}

/// Reads a number from decimal digits. A text that is empty, holds
/// anything but digits, or spells a number beyond 64 bits gives `None`.
pub fn from_decimal(text: &str) -> (r: Option<u64>)
    ensures
        r == undecimal_spec(text@),
{
    let n = text.unicode_len();
    if n == 0 {
        return None;
    }
    let mut value: u64 = 0;
    let mut i: usize = 0;
    while i < n
        invariant
            n == text@.len(),
            i <= n,
            forall|k: int| 0 <= k < i ==> decimal_value(#[trigger] text@[k]) is Some,
            value == digits_value(text@.take(i as int)),
        decreases n - i,
    {
        let ghost head = text@.take(i as int);
        let ghost next = text@.take(i + 1);
        proof {
            assert(next.drop_last() =~= head);
            assert(next.last() == text@[i as int]);
        }
        match decimal_digit(text.get_char(i)) {
            Some(d) => {
                if value > (u64::MAX - d as u64) / 10 {
                    proof {
                        assert(digits_value(next) > u64::MAX);
                        lemma_digits_grow(text@, i + 1);
                    }
                    return None;
                }
                value = value * 10 + d as u64;
            },
            None => {
                return None;
            },
        }
        i = i + 1;
    }
    assert(text@.take(i as int) =~= text@);
    Some(value)
}

/// A longer run of digits spells no smaller a number than its beginning.
pub proof fn lemma_digits_grow(text: Seq<char>, n: int)
    requires
        0 <= n <= text.len(),
    ensures
        digits_value(text.take(n)) <= digits_value(text),
    decreases text.len() - n,
{
    if n < text.len() {
        lemma_digits_grow(text, n + 1);
        let next = text.take(n + 1);
        assert(next.drop_last() =~= text.take(n));
    } else {
        assert(text.take(n) =~= text);
    }
}

} // verus!
