//! Small text helpers shared by the rest of the crate: decimal rendering,
//! comparison and concatenation of strings.

use vstd::prelude::*;
use vstd::string::*;

verus! {

/// The character that stands for a single decimal digit.
pub open spec fn digit(d: nat) -> char {
    if d == 0 {
        '0'
    } else if d == 1 {
        '1'
    } else if d == 2 {
        '2'
    } else if d == 3 {
        '3'
    } else if d == 4 {
        '4'
    } else if d == 5 {
        '5'
    } else if d == 6 {
        '6'
    } else if d == 7 {
        '7'
    } else if d == 8 {
        '8'
    } else {
        '9'
    }
}

/// The decimal numeral of `n`, most significant digit first, without
/// leading zeros.
pub open spec fn decimal(n: nat) -> Seq<char>
    decreases n,
{
    if n < 10 {
        seq![digit(n)]
    } else {
        decimal(n / 10).push(digit(n % 10))
    }
}

/// The decimal numeral of a signed integer: a minus sign before the
/// magnitude of a negative number.
pub open spec fn signed_decimal(i: int) -> Seq<char> {
    if i < 0 {
        seq!['-'] + decimal((-i) as nat)
    } else {
        decimal(i as nat)
    }
}

/// `items` joined by `sep`.
pub open spec fn joined(items: Seq<Seq<char>>, sep: Seq<char>) -> Seq<char>
    decreases items.len(),
{
    if items.len() == 0 {
        Seq::empty()
    } else if items.len() == 1 {
        items[0]
    } else {
        joined(items.drop_last(), sep) + sep + items.last()
    }
}

fn digit_str(d: u64) -> (r: &'static str)
    requires
        d < 10,
    ensures
        r@ == seq![digit(d as nat)],
{
    proof {
        reveal_strlit("0");
        reveal_strlit("1");
        reveal_strlit("2");
        reveal_strlit("3");
        reveal_strlit("4");
        reveal_strlit("5");
        reveal_strlit("6");
        reveal_strlit("7");
        reveal_strlit("8");
        reveal_strlit("9");
    }
    let r = if d == 0 {
        "0"
    } else if d == 1 {
        "1"
    } else if d == 2 {
        "2"
    } else if d == 3 {
        "3"
    } else if d == 4 {
        "4"
    } else if d == 5 {
        "5"
    } else if d == 6 {
        "6"
    } else if d == 7 {
        "7"
    } else if d == 8 {
        "8"
    } else {
        "9"
    };
    assert(r@ =~= seq![digit(d as nat)]);
    r
}

fn push_decimal(out: &mut String, n: u64)
    ensures
        final(out)@ == old(out)@ + decimal(n as nat),
    decreases n,
{
    if n >= 10 {
        push_decimal(out, n / 10);
    }
    out.append(digit_str(n % 10));
    assert(final(out)@ =~= old(out)@ + decimal(n as nat));
}

/// Renders `n` in decimal.
pub fn u64_to_string(n: u64) -> (r: String)
    ensures
        r@ == decimal(n as nat),
{
    let mut out = String::new();
    push_decimal(&mut out, n);
    assert(out@ =~= decimal(n as nat));
    out
}

/// Renders `n` in decimal.
pub fn usize_to_string(n: usize) -> (r: String)
    ensures
        r@ == decimal(n as nat),
{
    u64_to_string(n as u64)
}

/// Renders `i` in decimal, with a leading minus sign when negative.
pub fn i64_to_string(i: i64) -> (r: String)
    ensures
        r@ == signed_decimal(i as int),
{
    if i < 0 {
        let magnitude: u64 = if i == i64::MIN {
            9223372036854775808u64
        } else {
            (-i) as u64
        };
        let mut out = String::from_str("-");
        proof {
            reveal_strlit("-");
        }
        push_decimal(&mut out, magnitude);
        assert(out@ =~= signed_decimal(i as int));
        out
    } else {
        u64_to_string(i as u64)
    }
}

/// The number that a decimal digit stands for.
pub open spec fn digit_value(c: char) -> Option<nat> {
    if c == '0' {
        Some(0)
    } else if c == '1' {
        Some(1)
    } else if c == '2' {
        Some(2)
    } else if c == '3' {
        Some(3)
    } else if c == '4' {
        Some(4)
    } else if c == '5' {
        Some(5)
    } else if c == '6' {
        Some(6)
    } else if c == '7' {
        Some(7)
    } else if c == '8' {
        Some(8)
    } else if c == '9' {
        Some(9)
    } else {
        None
    }
}

/// The number that a string of decimal digits stands for; `None` for an
/// empty string and for one that holds anything but digits.
pub open spec fn number_of(text: Seq<char>) -> Option<nat>
    decreases text.len(),
{
    if text.len() == 0 {
        None
    } else if text.len() == 1 {
        digit_value(text[0])
    } else {
        match (number_of(text.drop_last()), digit_value(text.last())) {
            (Some(high), Some(low)) => Some(high * 10 + low),
            _ => None,
        }
    }
}

/// A numeral stands for no less than any of its beginnings.
pub proof fn lemma_number_grows(text: Seq<char>, n: int)
    requires
        1 <= n <= text.len(),
        number_of(text) is Some,
    ensures
        number_of(text.take(n)) is Some,
        number_of(text.take(n)).unwrap() <= number_of(text).unwrap(),
    decreases text.len(),
{
    if n == text.len() {
        assert(text.take(n) =~= text);
    } else {
        lemma_number_grows(text.drop_last(), n);
        assert(text.drop_last().take(n) =~= text.take(n));
    }
}

/// Reading a numeral gives back the number that it was written for.
pub proof fn lemma_decimal_round_trip(n: nat)
    ensures
        number_of(decimal(n)) == Some(n),
        decimal(n).len() >= 1,
    decreases n,
{
    if n < 10 {
        assert(decimal(n) =~= seq![digit(n)]);
    } else {
        lemma_decimal_round_trip(n / 10);
        let high = decimal(n / 10);
        let text = decimal(n);
        assert(text =~= high.push(digit(n % 10)));
        assert(text.drop_last() =~= high);
        assert(text.last() == digit(n % 10));
        assert(digit_value(digit(n % 10)) == Some(n % 10));
    }
}

/// Reading a numeral with a sign gives back the integer that it was written
/// for.
pub proof fn lemma_signed_decimal_round_trip(i: int)
    ensures
        integer_of_text(signed_decimal(i)) == Some(i),
{
    if i < 0 {
        lemma_decimal_round_trip((-i) as nat);
        let text = signed_decimal(i);
        assert(text.drop_first() =~= decimal((-i) as nat));
        assert(text[0] == '-');
    } else {
        lemma_decimal_round_trip(i as nat);
        lemma_decimal_starts_with_digit(i as nat);
    }
}

/// A numeral begins with a digit.
pub proof fn lemma_decimal_starts_with_digit(n: nat)
    ensures
        decimal(n).len() >= 1,
        digit_value(decimal(n)[0]) is Some,
    decreases n,
{
    if n >= 10 {
        lemma_decimal_starts_with_digit(n / 10);
        assert(decimal(n) =~= decimal(n / 10).push(digit(n % 10)));
    }
}

fn digit_of(c: char) -> (r: Option<u64>)
    ensures
        r is Some <==> digit_value(c) is Some,
        r matches Some(d) ==> digit_value(c) == Some(d as nat) && d <= 9,
{
    if c == '0' {
        Some(0)
    } else if c == '1' {
        Some(1)
    } else if c == '2' {
        Some(2)
    } else if c == '3' {
        Some(3)
    } else if c == '4' {
        Some(4)
    } else if c == '5' {
        Some(5)
    } else if c == '6' {
        Some(6)
    } else if c == '7' {
        Some(7)
    } else if c == '8' {
        Some(8)
    } else if c == '9' {
        Some(9)
    } else {
        None
    }
}

/// Reads a string of decimal digits as a number; `None` where the string
/// is empty, holds anything but digits, or stands for more than a `u64`
/// can hold.
pub fn parse_u64(text: &str) -> (r: Option<u64>)
    ensures
        r == match number_of(text@) {
            Some(v) if v <= u64::MAX => Some(v as u64),
            _ => None,
        },
{
    let n = text.unicode_len();
    if n == 0 {
        return None;
    }
    let mut value: u64 = 0;
    let mut i: usize = 0;
    while i < n
        invariant
            n == text@.len(),
            i <= n,
            i > 0 ==> number_of(text@.take(i as int)) == Some(value as nat),
            i == 0 ==> value == 0,
        decreases n - i,
    {
        let c = text.get_char(i);
        let ghost next = text@.take(i + 1);
        proof {
            assert(next.drop_last() =~= text@.take(i as int));
            assert(next.last() == c);
            if number_of(text@) is Some {
                lemma_number_grows(text@, i + 1);
            }
        }
        match digit_of(c) {
            None => {
                proof {
                    if number_of(text@) is Some {
                        assert(number_of(next) is Some);
                    }
                }
                return None;
            },
            Some(d) => {
                if value > (u64::MAX - d) / 10 {
                    proof {
                        if number_of(text@) is Some {
                            assert(number_of(next) == Some((value * 10 + d) as nat));
                        }
                    }
                    return None;
                }
                value = value * 10 + d;
            },
        }
        i += 1;
    }
    proof {
        assert(text@.take(n as int) =~= text@);
    }
    Some(value)
}

/// Reads a string of decimal digits as a number; `None` where the string
/// is empty, holds anything but digits, or stands for more than a `usize`
/// can hold.
pub fn parse_usize(text: &str) -> (r: Option<usize>)
    ensures
        r == match number_of(text@) {
            Some(v) if v <= usize::MAX => Some(v as usize),
            _ => None,
        },
{
    match parse_u64(text) {
        Some(v) if v <= usize::MAX as u64 => Some(v as usize),
        _ => None,
    }
}

/// The integer that a numeral with an optional minus sign stands for.
pub open spec fn integer_of_text(text: Seq<char>) -> Option<int> {
    if text.len() > 0 && text[0] == '-' {
        match number_of(text.drop_first()) {
            Some(v) => Some(-(v as int)),
            None => None,
        }
    } else {
        match number_of(text) {
            Some(v) => Some(v as int),
            None => None,
        }
    }
}

/// Reads a numeral with an optional minus sign; `None` where the string is
/// no such numeral or its magnitude is more than a `u64` can hold.
pub fn parse_integer(text: &str) -> (r: Option<i128>)
    ensures
        r == match integer_of_text(text@) {
            Some(v) if -(u64::MAX as int) <= v <= u64::MAX as int => Some(v as i128),
            _ => None,
        },
{
    let n = text.unicode_len();
    if n > 0 && text.get_char(0) == '-' {
        let rest = text.substring_char(1, n);
        assert(rest@ =~= text@.drop_first());
        match parse_u64(rest) {
            Some(v) => Some(-(v as i128)),
            None => None,
        }
    } else {
        match parse_u64(text) {
            Some(v) => Some(v as i128),
            None => None,
        }
    }
}

/// Whether two strings hold the same characters.
pub fn str_eq(a: &str, b: &str) -> (r: bool)
    ensures
        r == (a@ == b@),
{
    let x = a.to_owned();
    let y = b.to_owned();
    x == y
}

/// What is left of `text` after `prefix`, where `text` begins with it.
pub open spec fn stripped(text: Seq<char>, prefix: Seq<char>) -> Option<Seq<char>> {
    if prefix.is_prefix_of(text) {
        Some(text.skip(prefix.len() as int))
    } else {
        None
    }
}

/// What is left of `text` after `prefix`, where `text` begins with it.
pub fn strip_prefix<'a>(text: &'a str, prefix: &str) -> (r: Option<&'a str>)
    ensures
        r is Some <==> stripped(text@, prefix@) is Some,
        r matches Some(rest) ==> Some(rest@) == stripped(text@, prefix@),
{
    let n = text.unicode_len();
    let m = prefix.unicode_len();
    if m > n {
        return None;
    }
    let head = text.substring_char(0, m);
    if str_eq(head, prefix) {
        let rest = text.substring_char(m, n);
        assert(rest@ =~= text@.skip(m as int));
        Some(rest)
    } else {
        None
    }
}

/// `String::from_utf8`: the string that `bytes` encode in UTF-8, or `None`
/// where they encode none.
#[verifier::external_body]
fn from_utf8(bytes: Vec<u8>) -> (r: Option<String>)
    ensures
        r is Some <==> vstd::utf8::valid_utf8(bytes@),
        r matches Some(s) ==> s@.len() <= bytes@.len() && vstd::utf8::encode_utf8(s@) == bytes@,
{
    String::from_utf8(bytes).ok()
}

/// The string that `bytes` encode in UTF-8, or `None` where they encode
/// none.
pub fn string_of_bytes(bytes: Vec<u8>) -> (r: Option<String>)
    ensures
        r is Some <==> vstd::utf8::valid_utf8(bytes@),
        r matches Some(s) ==> vstd::utf8::encode_utf8(s@) == bytes@,
{
    from_utf8(bytes)
}

/// Whether `c` is white space, as Unicode defines it.
pub open spec fn is_white(c: char) -> bool {
    ||| c == ' '
    ||| ('\u{9}' <= c && c <= '\u{d}')
    ||| c == '\u{85}'
    ||| c == '\u{a0}'
    ||| c == '\u{1680}'
    ||| ('\u{2000}' <= c && c <= '\u{200a}')
    ||| c == '\u{2028}'
    ||| c == '\u{2029}'
    ||| c == '\u{202f}'
    ||| c == '\u{205f}'
    ||| c == '\u{3000}'
}

/// The word `current`, where it holds anything.
pub open spec fn word(current: Seq<char>) -> Seq<Seq<char>> {
    if current.len() > 0 {
        seq![current]
    } else {
        Seq::empty()
    }
}

/// The words of `text` from `from` on, where `current` is the part of a
/// word that came before.
pub open spec fn words_from(text: Seq<char>, from: int, current: Seq<char>) -> Seq<Seq<char>>
    decreases text.len() - from,
{
    if from < 0 || from >= text.len() {
        word(current)
    } else if is_white(text[from]) {
        word(current) + words_from(text, from + 1, Seq::empty())
    } else {
        words_from(text, from + 1, current.push(text[from]))
    }
}

/// The words of `text`: its longest stretches without white space, in
/// order.
pub open spec fn words(text: Seq<char>) -> Seq<Seq<char>> {
    words_from(text, 0, Seq::empty())
}

fn white(c: char) -> (r: bool)
    ensures
        r == is_white(c),
{
    c == ' ' || ('\u{9}' <= c && c <= '\u{d}') || c == '\u{85}' || c == '\u{a0}' || c == '\u{1680}'
        || ('\u{2000}' <= c && c <= '\u{200a}') || c == '\u{2028}' || c == '\u{2029}' || c
        == '\u{202f}' || c == '\u{205f}' || c == '\u{3000}'
}

/// Splits `text` at white space.
pub fn split_whitespace(text: &str) -> (r: Vec<String>)
    ensures
        views(r@) == words(text@),
{
    let n = text.unicode_len();
    let mut out: Vec<String> = Vec::new();
    let mut start: usize = 0;
    let mut i: usize = 0;
    proof {
        assert(text@.subrange(0, 0) =~= Seq::<char>::empty());
        assert(views(out@) + words(text@) =~= words(text@));
    }
    while i < n
        invariant
            n == text@.len(),
            start <= i <= n,
            views(out@) + words_from(text@, i as int, text@.subrange(start as int, i as int)) == words(
                text@,
            ),
        decreases n - i,
    {
        let c = text.get_char(i);
        let ghost current = text@.subrange(start as int, i as int);
        let ghost before = views(out@);
        if white(c) {
            if start < i {
                out.push(String::from_str(text.substring_char(start, i)));
                proof {
                    assert(views(out@) =~= before.push(current));
                }
            }
            start = i + 1;
            proof {
                assert(text@.subrange(start as int, i + 1) =~= Seq::<char>::empty());
                assert(views(out@) + words_from(text@, i + 1, Seq::empty()) =~= before + (word(
                    current,
                ) + words_from(text@, i + 1, Seq::empty())));
            }
        } else {
            proof {
                assert(text@.subrange(start as int, i + 1) =~= current.push(c));
            }
        }
        i += 1;
    }
    let ghost before = views(out@);
    let ghost current = text@.subrange(start as int, n as int);
    if start < n {
        out.push(String::from_str(text.substring_char(start, n)));
        proof {
            assert(views(out@) =~= before.push(current));
        }
    }
    proof {
        assert(views(out@) =~= before + word(current));
    }
    out
}

/// `a` followed by `b`.
pub fn concat(a: &str, b: &str) -> (r: String)
    ensures
        r@ == a@ + b@,
{
    let mut out = String::from_str(a);
    out.append(b);
    out
}

/// `a`, `b` and `c` in a row.
pub fn concat3(a: &str, b: &str, c: &str) -> (r: String)
    ensures
        r@ == a@ + b@ + c@,
{
    let mut out = String::from_str(a);
    out.append(b);
    out.append(c);
    out
}

/// The views of a list of strings.
pub open spec fn views(items: Seq<String>) -> Seq<Seq<char>> {
    items.map_values(|s: String| s@)
}

/// Joins `items` with commas.
pub fn join_comma(items: &Vec<String>) -> (r: String)
    ensures
        r@ == joined(views(items@), seq![',']),
{
    let mut out = String::new();
    let mut i: usize = 0;
    proof {
        reveal_strlit(",");
    }
    while i < items.len()
        invariant
            i <= items.len(),
            out@ == joined(views(items@).take(i as int), seq![',']),
            ","@ == seq![','],
        decreases items.len() - i,
    {
        let ghost before = views(items@).take(i as int);
        let ghost after = views(items@).take(i + 1);
        proof {
            assert(after.drop_last() =~= before);
            assert(after.last() == items@[i as int]@);
        }
        if i > 0 {
            out.append(",");
        }
        out.append(items[i].as_str());
        proof {
            if i == 0 {
                assert(before.len() == 0);
                assert(out@ =~= items@[0]@);
            }
        }
        i += 1;
    }
    proof {
        assert(views(items@).take(i as int) =~= views(items@));
    }
    out
}

} // verus!
