//! Helpers on byte strings and text that the other modules share.

use vstd::prelude::*;
use vstd::utf8::*;

verus! {

/// Whether `prefix` is a prefix of `data`.
pub open spec fn has_prefix<T>(data: Seq<T>, prefix: Seq<T>) -> bool {
    prefix.len() <= data.len() && data.subrange(0, prefix.len() as int) == prefix
}

/// Whether `suffix` is a suffix of `data`.
pub open spec fn has_suffix<T>(data: Seq<T>, suffix: Seq<T>) -> bool {
    suffix.len() <= data.len() && data.subrange(data.len() - suffix.len(), data.len() as int)
        == suffix
}

/// What is said of something that failed: what was tried, a colon and the
/// reason.
pub open spec fn failure_of(attempt: Seq<char>, reason: Seq<char>) -> Seq<char> {
    attempt + ": "@ + reason
}

/// Words a failure.
pub fn failure(attempt: &str, reason: &str) -> (message: String)
    ensures
        message@ == failure_of(attempt@, reason@),
{
    let mut message = attempt.to_owned();
    message.append(": ");
    message.append(reason);
    message
}

/// Compares two byte strings.
pub fn bytes_eq(a: &[u8], b: &[u8]) -> (same: bool)
    ensures
        same == (a@ == b@),
{
    if a.len() != b.len() {
        return false;
    }
    let mut i: usize = 0;
    while i < a.len()
        invariant
            a@.len() == b@.len(),
            i <= a@.len(),
            forall|k: int| 0 <= k < i ==> a@[k] == b@[k],
        decreases a@.len() - i,
    {
        if a[i] != b[i] {
            return false;
        }
        i += 1;
    }
    assert(a@ =~= b@);
    true
}

/// Two texts with the same UTF-8 encoding are the same text.
pub proof fn lemma_encoding_is_injective(a: Seq<char>, b: Seq<char>)
    requires
        encode_utf8(a) == encode_utf8(b),
    ensures
        a == b,
{
    encode_utf8_decode_utf8(a);
    encode_utf8_decode_utf8(b);
}

/// Compares two texts.
pub fn text_eq(a: &str, b: &str) -> (same: bool)
    ensures
        same == (a@ == b@),
{
    let same = bytes_eq(a.as_bytes(), b.as_bytes());
    proof {
        if same {
            lemma_encoding_is_injective(a@, b@);
        }
    }
    same
}

/// The characters of a text, in order.
pub fn chars_of(text: &str) -> (chars: Vec<char>)
    ensures
        chars@ == text@,
{
    let mut chars: Vec<char> = Vec::new();
    for c in it: text.chars()
        invariant
            it.seq() == text@,
            chars@ == it.seq().take(it.index() as int),
    {
        chars.push(c);
    }
    chars
}

/// Appends one character. This is `String::push`, which puts `c` at the end
/// of the text and changes nothing else.
#[verifier::external_body]
pub(crate) fn push_char(text: &mut String, c: char)
    ensures
        final(text)@ == old(text)@.push(c),
{
    text.push(c)
}

/// The text made of `chars`.
pub fn text_of(chars: &[char]) -> (text: String)
    ensures
        text@ == chars@,
{
    let mut text = String::new();
    let mut i: usize = 0;
    while i < chars.len()
        invariant
            i <= chars@.len(),
            text@ == chars@.take(i as int),
        decreases chars@.len() - i,
    {
        push_char(&mut text, chars[i]);
        i += 1;
    }
    text
}

/// Whether `c` is one of the ten decimal digits.
pub open spec fn is_digit(c: char) -> bool {
    '0' <= c <= '9'
}

/// The number that a decimal digit stands for.
pub open spec fn digit_value(c: char) -> nat {
    (c as u32 - '0' as u32) as nat
}

/// Whether every character is a decimal digit.
pub open spec fn all_digits(text: Seq<char>) -> bool {
    forall|i: int| 0 <= i < text.len() ==> is_digit(#[trigger] text[i])
}

/// The number that a run of decimal digits stands for.
pub open spec fn decimal_value(digits: Seq<char>) -> nat
    decreases digits.len(),
{
    if digits.len() == 0 {
        0
    } else {
        decimal_value(digits.drop_last()) * 10 + digit_value(digits.last())
    }
}

/// What a text means as an unsigned decimal number: it has at least one
/// character, all of them digits, and its value fits in 64 bits.
pub open spec fn decimal_u64(text: Seq<char>) -> Option<u64> {
    if text.len() > 0 && all_digits(text) && decimal_value(text) <= u64::MAX {
        Some(decimal_value(text) as u64)
    } else {
        None
    }
}

/// A run of digits stands for at least as much as any of its prefixes.
pub proof fn lemma_decimal_value_grows(digits: Seq<char>, n: int)
    requires
        0 <= n <= digits.len(),
    ensures
        decimal_value(digits.take(n)) <= decimal_value(digits),
    decreases digits.len(),
{
    if n == digits.len() {
        assert(digits.take(n) =~= digits);
    } else {
        lemma_decimal_value_grows(digits.drop_last(), n);
        assert(digits.drop_last().take(n) =~= digits.take(n));
    }
}

/// Reads the digits in `chars` as an unsigned decimal number.
pub fn parse_digits(chars: &[char]) -> (number: Option<u64>)
    ensures
        number == decimal_u64(chars@),
{
    if chars.len() == 0 {
        return None;
    }
    let mut value: u64 = 0;
    let mut i: usize = 0;
    while i < chars.len()
        invariant
            i <= chars@.len(),
            chars@.len() > 0,
            all_digits(chars@.take(i as int)),
            value == decimal_value(chars@.take(i as int)),
        decreases chars@.len() - i,
    {
        let c = chars[i];
        assert(chars@.take(i + 1).drop_last() =~= chars@.take(i as int));
        if !('0' <= c && c <= '9') {
            return None;
        }
        let digit: u64 = (c as u32 - '0' as u32) as u64;
        if value > (u64::MAX - digit) / 10 {
            proof {
                lemma_decimal_value_grows(chars@, i + 1);
            }
            return None;
        }
        value = value * 10 + digit;
        assert(all_digits(chars@.take(i + 1)));
        i += 1;
    }
    assert(chars@.take(i as int) =~= chars@);
    Some(value)
}

/// Reads a text as an unsigned decimal number.
pub fn parse_decimal(text: &str) -> (number: Option<u64>)
    ensures
        number == decimal_u64(text@),
{
    let chars = chars_of(text);
    parse_digits(chars.as_slice())
}

/// Whether position `at` holds the first `c` in `text`.
pub open spec fn first_at(text: Seq<char>, c: char, at: int) -> bool {
    &&& 0 <= at < text.len()
    &&& text[at] == c
    &&& forall|k: int| 0 <= k < at ==> text[k] != c
}

/// Finds the first `c`.
pub fn find_char(chars: &[char], c: char) -> (found: Option<usize>)
    ensures
        match found {
            Some(at) => first_at(chars@, c, at as int),
            None => !chars@.contains(c),
        },
{
    let mut i: usize = 0;
    while i < chars.len()
        invariant
            i <= chars@.len(),
            forall|k: int| 0 <= k < i ==> chars@[k] != c,
        decreases chars@.len() - i,
    {
        if chars[i] == c {
            return Some(i);
        }
        i += 1;
    }
    None
}

/// Whether `c` is white space: one of the characters with the Unicode
/// property `White_Space`.
pub open spec fn is_space(c: char) -> bool {
    let code = c as u32;
    ||| (0x09 <= code <= 0x0d)
    ||| code == 0x20
    ||| code == 0x85
    ||| code == 0xa0
    ||| code == 0x1680
    ||| (0x2000 <= code <= 0x200a)
    ||| code == 0x2028
    ||| code == 0x2029
    ||| code == 0x202f
    ||| code == 0x205f
    ||| code == 0x3000
}

/// Whether `c` is white space.
pub fn char_is_space(c: char) -> (space: bool)
    ensures
        space == is_space(c),
{
    let code: u32 = c as u32;
    (0x09 <= code && code <= 0x0d) || code == 0x20 || code == 0x85 || code == 0xa0 || code
        == 0x1680 || (0x2000 <= code && code <= 0x200a) || code == 0x2028 || code == 0x2029
        || code == 0x202f || code == 0x205f || code == 0x3000
}

/// A text without the white space at its end.
pub open spec fn without_trailing_space(text: Seq<char>) -> Seq<char>
    decreases text.len(),
{
    if text.len() > 0 && is_space(text.last()) {
        without_trailing_space(text.drop_last())
    } else {
        text
    }
}

/// The characters at the end of a text up to, and without, the last white
/// space in it.
pub open spec fn last_run(text: Seq<char>) -> Seq<char>
    decreases text.len(),
{
    if text.len() > 0 && !is_space(text.last()) {
        last_run(text.drop_last()).push(text.last())
    } else {
        Seq::empty()
    }
}

/// The last word of a text: the last run of characters without white space.
/// It is empty where the text holds nothing else.
pub open spec fn last_word(text: Seq<char>) -> Seq<char> {
    last_run(without_trailing_space(text))
}

/// Where the last word of the first `end` characters begins and ends.
pub fn last_word_span(chars: &[char], end: usize) -> (span: (usize, usize))
    requires
        end <= chars@.len(),
    ensures
        span.0 <= span.1 <= end,
        chars@.subrange(span.0 as int, span.1 as int) == last_word(chars@.take(end as int)),
{
    let mut stop: usize = end;
    while stop > 0 && char_is_space(chars[stop - 1])
        invariant
            stop <= end <= chars@.len(),
            without_trailing_space(chars@.take(end as int)) == without_trailing_space(
                chars@.take(stop as int),
            ),
        decreases stop,
    {
        assert(chars@.take(stop as int).drop_last() =~= chars@.take(stop - 1));
        stop -= 1;
    }
    let mut start: usize = stop;
    while start > 0 && !char_is_space(chars[start - 1])
        invariant
            start <= stop <= chars@.len(),
            last_run(chars@.take(stop as int)) == last_run(chars@.take(start as int))
                + chars@.subrange(start as int, stop as int),
        decreases start,
    {
        assert(chars@.take(start as int).drop_last() =~= chars@.take(start - 1));
        start -= 1;
    }
    (start, stop)
}

/// What a text means to Rust's parser of unsigned numbers: digits, with at
/// most one `+` before them.
pub open spec fn unsigned_number(text: Seq<char>) -> Option<u64> {
    if text.len() > 0 && text[0] == '+' {
        decimal_u64(text.skip(1))
    } else {
        decimal_u64(text)
    }
}

/// Reads `chars` as an unsigned number.
pub fn parse_unsigned(chars: &[char]) -> (number: Option<u64>)
    ensures
        number == unsigned_number(chars@),
{
    if chars.len() > 0 && chars[0] == '+' {
        let digits = vstd::slice::slice_subrange(chars, 1, chars.len());
        parse_digits(digits)
    } else {
        parse_digits(chars)
    }
}

/// Whether every character of `chars` is white space.
pub fn all_space(chars: &[char]) -> (blank: bool)
    ensures
        blank == (forall|i: int| 0 <= i < chars@.len() ==> is_space(#[trigger] chars@[i])),
{
    let mut i: usize = 0;
    while i < chars.len()
        invariant
            i <= chars@.len(),
            forall|k: int| 0 <= k < i ==> is_space(#[trigger] chars@[k]),
        decreases chars@.len() - i,
    {
        if !char_is_space(chars[i]) {
            return false;
        }
        i += 1;
    }
    true
}

/// Whether two runs of characters are the same.
pub fn chars_eq(a: &[char], b: &[char]) -> (same: bool)
    ensures
        same == (a@ == b@),
{
    if a.len() != b.len() {
        return false;
    }
    let mut i: usize = 0;
    while i < a.len()
        invariant
            a@.len() == b@.len(),
            i <= a@.len(),
            forall|k: int| 0 <= k < i ==> a@[k] == b@[k],
        decreases a@.len() - i,
    {
        if a[i] != b[i] {
            return false;
        }
        i += 1;
    }
    assert(a@ =~= b@);
    true
}

/// Whether the characters of `chars` begin with those of `prefix`.
pub fn chars_start_with(chars: &[char], prefix: &[char]) -> (found: bool)
    ensures
        found == has_prefix(chars@, prefix@),
{
    if prefix.len() > chars.len() {
        return false;
    }
    let mut i: usize = 0;
    while i < prefix.len()
        invariant
            prefix@.len() <= chars@.len(),
            i <= prefix@.len(),
            forall|k: int| 0 <= k < i ==> chars@[k] == prefix@[k],
        decreases prefix@.len() - i,
    {
        if chars[i] != prefix[i] {
            return false;
        }
        i += 1;
    }
    assert(chars@.subrange(0, prefix@.len() as int) =~= prefix@);
    true
}

/// The text that `String::from_utf8_lossy` makes of `bytes`: their text
/// where they are UTF-8, and otherwise that text with the replacement
/// character in the place of what is not.
pub uninterp spec fn utf8_lossy(bytes: Seq<u8>) -> Seq<char>;

/// Calls `String::from_utf8_lossy` and keeps the text that it gives.
#[verifier::external_body]
pub(crate) fn lossy_text(bytes: &[u8]) -> (text: String)
    ensures
        text@ == utf8_lossy(bytes@),
{
    String::from_utf8_lossy(bytes).into_owned()
}

/// Whether the characters of `chars` end with those of `suffix`.
pub fn chars_end_with(chars: &[char], suffix: &[char]) -> (found: bool)
    ensures
        found == has_suffix(chars@, suffix@),
{
    if suffix.len() > chars.len() {
        return false;
    }
    let shift: usize = chars.len() - suffix.len();
    let mut i: usize = 0;
    while i < suffix.len()
        invariant
            suffix@.len() <= chars@.len(),
            shift == chars@.len() - suffix@.len(),
            chars@.len() <= usize::MAX,
            i <= suffix@.len(),
            forall|k: int| 0 <= k < i ==> chars@[shift + k] == suffix@[k],
        decreases suffix@.len() - i,
    {
        if chars[shift + i] != suffix[i] {
            return false;
        }
        i += 1;
    }
    assert(chars@.subrange(shift as int, chars@.len() as int) =~= suffix@);
    true
}

} // verus!
