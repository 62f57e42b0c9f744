//! Numbers as decimal text: how an id stands in a record.

use vstd::prelude::*;
use vstd::string::*;

verus! {

/// The character of a decimal digit.
pub open spec fn digit_char(d: nat) -> char {
    if d == 0 {
        '0'
    } else if d == 1 {
        '1'
    } else if d == 2 {
        '2'
    } else if d == 3 {
        '3'
    } else if d == 4 {
        '4'
    } else if d == 5 {
        '5'
    } else if d == 6 {
        '6'
    } else if d == 7 {
        '7'
    } else if d == 8 {
        '8'
    } else {
        '9'
    }
}

/// The digit that a character stands for, if it is one of `0` to `9`.
pub open spec fn digit_value(c: char) -> Option<nat> {
    if c == '0' {
        Some(0)
    } else if c == '1' {
        Some(1)
    } else if c == '2' {
        Some(2)
    } else if c == '3' {
        Some(3)
    } else if c == '4' {
        Some(4)
    } else if c == '5' {
        Some(5)
    } else if c == '6' {
        Some(6)
    } else if c == '7' {
        Some(7)
    } else if c == '8' {
        Some(8)
    } else if c == '9' {
        Some(9)
    } else {
        None
    }
}

/// The decimal text of a number: no sign, no leading zero but for zero itself.
pub open spec fn decimal_text(n: nat) -> Seq<char>
    decreases n,
{
    if n < 10 {
        seq![digit_char(n)]
    } else {
        decimal_text(n / 10).push(digit_char(n % 10))
    }
}

/// Every character is a decimal digit.
pub open spec fn all_digits(s: Seq<char>) -> bool {
    forall|i: int| 0 <= i < s.len() ==> digit_value(#[trigger] s[i]) is Some
}

/// The number that a text of digits stands for; the empty text stands for zero.
pub open spec fn digits_value(s: Seq<char>) -> nat
    decreases s.len(),
{
    if s.len() == 0 {
        0
    } else {
        digits_value(s.drop_last()) * 10 + (match digit_value(s.last()) {
            Some(d) => d,
            None => 0,
        })
    }
}

/// The number that a text stands for: one or more decimal digits and nothing
/// else. Leading zeros are accepted.
pub open spec fn decimal_value(s: Seq<char>) -> Option<nat> {
    if s.len() > 0 && all_digits(s) {
        Some(digits_value(s))
    } else {
        None
    }
}

/// The `u32` that a text stands for, if it is a decimal number that fits.
pub open spec fn u32_of_text(s: Seq<char>) -> Option<u32> {
    match decimal_value(s) {
        Some(v) => if v <= u32::MAX {
            Some(v as u32)
        } else {
            None
        },
        None => None,
    }
}

/// A longer text of digits stands for no smaller number than its beginning.
pub proof fn lemma_digits_value_grows(s: Seq<char>, k: int)
    requires
        0 <= k <= s.len(),
    ensures
        digits_value(s.take(k)) <= digits_value(s),
    decreases s.len(),
{
    if k == s.len() {
        assert(s.take(k) =~= s);
    } else {
        assert(s.drop_last().take(k) =~= s.take(k));
        lemma_digits_value_grows(s.drop_last(), k);
    }
}

/// The decimal text of a number is not empty and stands for that number.
pub proof fn decimal_text_reads_back(n: nat)
    ensures
        decimal_text(n).len() > 0,
        all_digits(decimal_text(n)),
        decimal_value(decimal_text(n)) == Some(n),
    decreases n,
{
    let text = decimal_text(n);
    if n < 10 {
        assert(text.drop_last() =~= Seq::<char>::empty());
        assert(digits_value(text.drop_last()) == 0);
        assert(digit_value(text.last()) == Some(n));
    } else {
        decimal_text_reads_back(n / 10);
        let front = decimal_text(n / 10);
        assert(text.drop_last() =~= front);
        assert(digit_value(text.last()) == Some(n % 10));
        assert forall|i: int| 0 <= i < text.len() implies digit_value(#[trigger] text[i])
            is Some by {
            if i < front.len() {
                assert(text[i] == front[i]);
            }
        }
    }
}

/// The one-character text of a digit.
fn digit_text(d: u32) -> (text: &'static str)
    requires
        d < 10,
    ensures
        text@ == seq![digit_char(d as nat)],
{
    proof {
        reveal_strlit("0");
        reveal_strlit("1");
        reveal_strlit("2");
        reveal_strlit("3");
        reveal_strlit("4");
        reveal_strlit("5");
        reveal_strlit("6");
        reveal_strlit("7");
        reveal_strlit("8");
        reveal_strlit("9");
    }
    let text = if d == 0 {
        "0"
    } else if d == 1 {
        "1"
    } else if d == 2 {
        "2"
    } else if d == 3 {
        "3"
    } else if d == 4 {
        "4"
    } else if d == 5 {
        "5"
    } else if d == 6 {
        "6"
    } else if d == 7 {
        "7"
    } else if d == 8 {
        "8"
    } else {
        "9"
    };
    assert(text@ =~= seq![digit_char(d as nat)]);
    text
}

/// The digit that a byte of ASCII text stands for.
fn digit_of(byte: u8) -> (d: Option<u32>)
    ensures
        forall|c: char|
            '\0' <= c <= '\u{7f}' && c as u8 == byte ==> #[trigger] digit_value(c) == (match d {
                Some(v) => Some(v as nat),
                None => None,
            }),
{
    if 48 <= byte && byte <= 57 {
        Some((byte - 48) as u32)
    } else {
        None
    }
}

/// Writes a number as decimal text.
pub fn u32_text(n: u32) -> (text: String)
    ensures
        text@ == decimal_text(n as nat),
    decreases n,
{
    if n < 10 {
        String::from_str(digit_text(n))
    } else {
        let mut text = u32_text(n / 10);
        text.append(digit_text(n % 10));
        assert(text@ =~= decimal_text(n as nat));
        text
    }
}

/// Reads a decimal number that fits `u32`: one or more digits, nothing else.
pub fn parse_u32(text: &str) -> (value: Option<u32>)
    ensures
        value == u32_of_text(text@),
{
    if !text.is_ascii() {
        proof {
            let i = choose|i: int|
                0 <= i < text@.len() && !('\0' <= #[trigger] text@[i] <= '\u{7f}');
            assert(digit_value(text@[i]) is None);
        }
        return None;
    }
    let n = text.unicode_len();
    if n == 0 {
        return None;
    }
    let mut acc: u64 = 0;
    let mut i: usize = 0;
    while i < n
        invariant
            text.is_ascii(),
            n == text@.len(),
            0 <= i <= n,
            all_digits(text@.take(i as int)),
            acc == digits_value(text@.take(i as int)),
            acc <= u32::MAX,
        decreases n - i,
    {
        let byte = text.get_ascii(i);
        let ghost c = text@[i as int];
        let ghost upto = text@.take(i as int + 1);
        proof {
            assert(upto.drop_last() =~= text@.take(i as int));
            assert(upto.last() == c);
            assert('\0' <= c <= '\u{7f}');
        }
        match digit_of(byte) {
            None => {
                assert(!all_digits(text@)) by {
                    assert(digit_value(text@[i as int]) is None);
                }
                return None;
            },
            Some(d) => {
                assert(digit_value(c) == Some(d as nat));
                let next: u64 = acc * 10 + d as u64;
                assert(next == digits_value(upto));
                if next > u32::MAX as u64 {
                    proof {
                        lemma_digits_value_grows(text@, i as int + 1);
                    }
                    return None;
                }
                assert forall|j: int| 0 <= j < upto.len() implies digit_value(#[trigger] upto[j])
                    is Some by {
                    if j < i {
                        assert(upto[j] == text@.take(i as int)[j]);
                    }
                }
                acc = next;
            },
        }
        i += 1;
    }
    assert(text@.take(n as int) =~= text@);
    Some(acc as u32)
}

} // verus!
