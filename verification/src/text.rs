//! Text: equality, affixes, and decimal numbers.

use vstd::prelude::*;
use vstd::string::*;

verus! {

/// `text` with every leading repetition of `pattern` taken away.
pub open spec fn without_prefixes(text: Seq<char>, pattern: Seq<char>) -> Seq<char>
    decreases text.len(),
{
    if pattern.len() > 0 && pattern.is_prefix_of(text) {
        without_prefixes(text.skip(pattern.len() as int), pattern)
    } else {
        text
    }
}

/// `text` with every trailing repetition of `pattern` taken away.
pub open spec fn without_suffixes(text: Seq<char>, pattern: Seq<char>) -> Seq<char>
    decreases text.len(),
{
    if pattern.len() > 0 && pattern.is_suffix_of(text) {
        without_suffixes(text.take(text.len() - pattern.len()), pattern)
    } else {
        text
    }
}

/// A character in lower case by the rules of ASCII: a capital Latin letter
/// becomes its small letter, every other character stays.
pub open spec fn ascii_lower_char(c: char) -> char {
    if 'A' <= c <= 'Z' {
        ((c as u8 + 32) as u8) as char
    } else {
        c
    }
}

/// A text in lower case by the rules of ASCII, character by character.
pub open spec fn ascii_lowered(text: Seq<char>) -> Seq<char> {
    Seq::new(text.len(), |i: int| ascii_lower_char(text[i]))
}

/// The character that writes the digit `d`, for `d` below ten.
pub open spec fn digit(d: int) -> char {
    (('0' as u8 + d) as u8) as char
}

/// `n` in decimal, without sign and without leading zeros.
pub open spec fn decimal(n: nat) -> Seq<char>
    decreases n,
{
    if n < 10 {
        seq![digit(n as int)]
    } else {
        decimal(n / 10).push(digit((n % 10) as int))
    }
}

/// Whether `c` is one of the ten digits.
pub open spec fn is_digit(c: char) -> bool {
    '0' <= c <= '9'
}

/// The number that a run of digits writes; leading zeros count for nothing.
pub open spec fn digits_value(digits: Seq<char>) -> nat
    decreases digits.len(),
{
    if digits.len() == 0 {
        0
    } else {
        digits_value(digits.drop_last()) * 10 + (digits.last() as nat - '0' as nat) as nat
    }
}

/// The number that `text` writes in decimal: one or more digits, after at most
/// one `+`, and nothing else; `None` for any other text and for a number beyond
/// `u64`.
pub open spec fn unsigned_decimal(text: Seq<char>) -> Option<u64> {
    let digits = without_plus(text);
    if digits.len() > 0 && all_digits(digits) && digits_value(digits) <= u64::MAX {
        Some(digits_value(digits) as u64)
    } else {
        None
    }
}

/// `text` without the `+` that it may begin with.
pub open spec fn without_plus(text: Seq<char>) -> Seq<char> {
    if text.len() > 0 && text[0] == '+' {
        text.skip(1)
    } else {
        text
    }
}

/// Whether `text` holds digits and nothing else.
pub open spec fn all_digits(text: Seq<char>) -> bool {
    forall|i: int| 0 <= i < text.len() ==> is_digit(#[trigger] text[i])
}

/// Whether two texts are the same, character by character.
pub fn str_eq(a: &str, b: &str) -> (same: bool)
    ensures
        same == (a@ == b@),
{
    let left = a.as_bytes();
    let right = b.as_bytes();
    proof {
        // Texts with the same bytes are the same text: the bytes decode to one.
        vstd::utf8::encode_utf8_decode_utf8(a@);
        vstd::utf8::encode_utf8_decode_utf8(b@);
    }
    if left.len() != right.len() {
        return false;
    }
    let mut at: usize = 0;
    while at < left.len()
        invariant
            at <= left@.len(),
            left@.len() == right@.len(),
            left@ == vstd::utf8::encode_utf8(a@),
            right@ == vstd::utf8::encode_utf8(b@),
            forall|i: int| 0 <= i < at ==> left@[i] == right@[i],
        decreases left@.len() - at,
    {
        if left[at] != right[at] {
            return false;
        }
        at += 1;
    }
    assert(left@ =~= right@);
    true
}

/// Whether `pattern` stands in `text` at position `at`.
fn stands_at(text: &str, at: usize, pattern: &str, pattern_len: usize) -> (found: bool)
    requires
        pattern_len == pattern@.len(),
        at + pattern_len <= text@.len(),
        at + pattern_len <= usize::MAX,
    ensures
        found == (text@.subrange(at as int, at + pattern_len) == pattern@),
{
    let mut k: usize = 0;
    while k < pattern_len
        invariant
            k <= pattern_len,
            pattern_len == pattern@.len(),
            at + pattern_len <= text@.len(),
            at + pattern_len <= usize::MAX,
            forall|j: int| 0 <= j < k ==> text@[at + j] == pattern@[j],
        decreases pattern_len - k,
    {
        if text.get_char(at + k) != pattern.get_char(k) {
            return false;
        }
        k += 1;
    }
    assert(text@.subrange(at as int, at + pattern_len) =~= pattern@);
    true
}

/// Takes every leading repetition of `leading` and then every trailing
/// repetition of `trailing` away from `text`.
pub fn strip_affixes<'a>(text: &'a str, leading: &str, trailing: &str) -> (core: &'a str)
    ensures
        core@ == without_suffixes(without_prefixes(text@, leading@), trailing@),
{
    let len: usize = text.unicode_len();
    let leading_len: usize = leading.unicode_len();
    let trailing_len: usize = trailing.unicode_len();
    let mut start: usize = 0;
    assert(text@.subrange(0, len as int) =~= text@);
    if leading_len > 0 {
        loop
            invariant_except_break
                start <= len,
                without_prefixes(text@, leading@) == without_prefixes(
                    text@.subrange(start as int, len as int),
                    leading@,
                ),
            invariant
                len == text@.len(),
                leading_len == leading@.len(),
                leading_len > 0,
            ensures
                start <= len,
                without_prefixes(text@, leading@) == text@.subrange(start as int, len as int),
            decreases len - start,
        {
            let ghost rest = text@.subrange(start as int, len as int);
            if len - start < leading_len {
                break ;
            }
            let found = stands_at(text, start, leading, leading_len);
            assert(rest.subrange(0, leading_len as int) =~= text@.subrange(
                start as int,
                start + leading_len,
            ));
            if !found {
                break ;
            }
            assert(rest.skip(leading_len as int) =~= text@.subrange(
                start + leading_len,
                len as int,
            ));
            start += leading_len;
        }
    }
    let ghost front = text@.subrange(start as int, len as int);
    let mut end: usize = len;
    if trailing_len > 0 {
        loop
            invariant_except_break
                start <= end <= len,
                without_suffixes(front, trailing@) == without_suffixes(
                    text@.subrange(start as int, end as int),
                    trailing@,
                ),
            invariant
                len == text@.len(),
                start <= len,
                front == text@.subrange(start as int, len as int),
                trailing_len == trailing@.len(),
                trailing_len > 0,
            ensures
                start <= end <= len,
                without_suffixes(front, trailing@) == text@.subrange(start as int, end as int),
            decreases end - start,
        {
            let ghost rest = text@.subrange(start as int, end as int);
            if end - start < trailing_len {
                break ;
            }
            let found = stands_at(text, end - trailing_len, trailing, trailing_len);
            assert(rest.subrange(rest.len() - trailing_len, rest.len() as int) =~= text@.subrange(
                end - trailing_len,
                end as int,
            ));
            if !found {
                break ;
            }
            assert(rest.take(rest.len() - trailing_len) =~= text@.subrange(
                start as int,
                end - trailing_len,
            ));
            end -= trailing_len;
        }
    }
    text.substring_char(start, end)
}

/// The text of one digit.
fn digit_text(d: u64) -> (text: &'static str)
    requires
        d < 10,
    ensures
        text@ == seq![digit(d as int)],
{
    proof {
        reveal_strlit("0");
        reveal_strlit("1");
        reveal_strlit("2");
        reveal_strlit("3");
        reveal_strlit("4");
        reveal_strlit("5");
        reveal_strlit("6");
        reveal_strlit("7");
        reveal_strlit("8");
        reveal_strlit("9");
    }
    if d == 0 {
        "0"
    } else if d == 1 {
        "1"
    } else if d == 2 {
        "2"
    } else if d == 3 {
        "3"
    } else if d == 4 {
        "4"
    } else if d == 5 {
        "5"
    } else if d == 6 {
        "6"
    } else if d == 7 {
        "7"
    } else if d == 8 {
        "8"
    } else {
        "9"
    }
}

/// Writes `n` in decimal.
pub fn decimal_text(n: u64) -> (text: String)
    ensures
        text@ == decimal(n as nat),
{
    let mut text = String::from_str(digit_text(n % 10));
    let mut rest: u64 = n / 10;
    assert(decimal(n as nat) =~= if rest > 0 {
        decimal(rest as nat) + text@
    } else {
        text@
    });
    while rest > 0
        invariant
            decimal(n as nat) == if rest > 0 {
                decimal(rest as nat) + text@
            } else {
                text@
            },
        decreases rest,
    {
        let ghost before = text@;
        let front = String::from_str(digit_text(rest % 10));
        text = front.concat(text.as_str());
        assert(decimal(rest as nat) + before =~= if rest / 10 > 0 {
            decimal((rest / 10) as nat) + text@
        } else {
            text@
        });
        rest = rest / 10;
    }
    text
}

/// Reads a number written in decimal, as `str::parse::<u64>` reads it: digits
/// after at most one `+`; anything else, and a number beyond `u64`, is refused.
pub fn parse_string_to_u64(text: &str) -> (number: Option<u64>)
    ensures
        number == unsigned_decimal(text@),
{
    let len: usize = text.unicode_len();
    let first: usize = if len > 0 && text.get_char(0) == '+' {
        1
    } else {
        0
    };
    let ghost digits = without_plus(text@);
    if first == len {
        return None;
    }
    let mut value: u64 = 0;
    let mut at: usize = first;
    while at < len
        invariant
            first <= at <= len,
            len == text@.len(),
            digits == without_plus(text@),
            digits == text@.subrange(first as int, len as int),
            all_digits(digits.take(at - first)),
            value == digits_value(digits.take(at - first)),
        decreases len - at,
    {
        let c = text.get_char(at);
        let ghost seen = digits.take(at - first);
        let ghost more = digits.take(at - first + 1);
        assert(more.drop_last() =~= seen);
        assert(more.last() == c);
        if !(c >= '0' && c <= '9') {
            return None;
        }
        let d: u64 = (c as u64) - ('0' as u64);
        let grown = match value.checked_mul(10) {
            Some(tens) => tens.checked_add(d),
            None => None,
        };
        match grown {
            Some(next) => {
                value = next;
            },
            None => {
                proof {
                    lemma_digits_value_grows(more, digits);
                }
                return None;
            },
        }
        assert(all_digits(more));
        at += 1;
    }
    assert(digits.take(at - first) =~= digits);
    Some(value)
}

/// A run of digits writes no smaller a number than any of its beginnings.
proof fn lemma_digits_value_grows(beginning: Seq<char>, whole: Seq<char>)
    requires
        beginning.is_prefix_of(whole),
    ensures
        digits_value(beginning) <= digits_value(whole),
    decreases whole.len(),
{
    if beginning.len() < whole.len() {
        assert(beginning.is_prefix_of(whole.drop_last()));
        lemma_digits_value_grows(beginning, whole.drop_last());
    } else {
        assert(beginning =~= whole);
    }
}

/// The small letter of a capital Latin letter, as a text of its own.
fn small_letter(c: char) -> (letter: &'static str)
    requires
        'A' <= c <= 'Z',
    ensures
        letter@ == seq![ascii_lower_char(c)],
{
    let letters = "abcdefghijklmnopqrstuvwxyz";
    proof {
        reveal_strlit("abcdefghijklmnopqrstuvwxyz");
    }
    let at: usize = (c as u32 - 'A' as u32) as usize;
    letters.substring_ascii(at, at + 1)
}

/// Lower-cases a text by the rules of ASCII, as `str::to_ascii_lowercase` does.
pub fn ascii_lowercase(text: &str) -> (lowered: String)
    ensures
        lowered@ == ascii_lowered(text@),
{
    let len: usize = text.unicode_len();
    let mut lowered = String::new();
    let mut at: usize = 0;
    while at < len
        invariant
            at <= len,
            len == text@.len(),
            lowered@ == ascii_lowered(text@.take(at as int)),
        decreases len - at,
    {
        let c = text.get_char(at);
        if c >= 'A' && c <= 'Z' {
            lowered.append(small_letter(c));
        } else {
            lowered.append(text.substring_char(at, at + 1));
        }
        assert(lowered@ =~= ascii_lowered(text@.take(at + 1)));
        at += 1;
    }
    lowered
}

} // verus!
