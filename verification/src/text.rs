//! Characters and strings: white space, trimming, and the conversions
//! between a string and its characters.

use vstd::prelude::*;

verus! {

/// `String::push` appends the character to the end of the string.
pub assume_specification[ String::push ](text: &mut String, c: char)
    ensures
        final(text)@ == old(text)@.push(c),
;

/// The contents of each string of `strings`, in order.
pub open spec fn texts(strings: Seq<String>) -> Seq<Seq<char>> {
    Seq::new(strings.len(), |i: int| strings[i]@)
}

/// The text of `text`, where there is one.
pub open spec fn text_of(text: Option<String>) -> Option<Seq<char>> {
    match text {
        Some(text) => Some(text@),
        None => None,
    }
}

/// Whether `c` is white space: the characters that carry the Unicode
/// property `White_Space`.
pub open spec fn is_whitespace(c: char) -> bool {
    let u = c as u32;
    ||| 0x09 <= u <= 0x0D
    ||| u == 0x20
    ||| u == 0x85
    ||| u == 0xA0
    ||| u == 0x1680
    ||| 0x2000 <= u <= 0x200A
    ||| u == 0x2028
    ||| u == 0x2029
    ||| u == 0x202F
    ||| u == 0x205F
    ||| u == 0x3000
}

/// `text` without the white space at its start.
pub open spec fn trim_start(text: Seq<char>) -> Seq<char>
    decreases text.len(),
{
    if text.len() > 0 && is_whitespace(text[0]) {
        trim_start(text.drop_first())
    } else {
        text
    }
}

/// `text` without the white space at its end.
pub open spec fn trim_end(text: Seq<char>) -> Seq<char>
    decreases text.len(),
{
    if text.len() > 0 && is_whitespace(text.last()) {
        trim_end(text.drop_last())
    } else {
        text
    }
}

/// `text` without the white space at either end.
pub open spec fn trimmed(text: Seq<char>) -> Seq<char> {
    trim_end(trim_start(text))
}

/// The decimal digit for `d`.
pub open spec fn digit(d: nat) -> char
    recommends
        d < 10,
{
    (0x30 + d) as u8 as char
}

/// `n` in decimal digits, without leading zeros.
pub open spec fn decimal_text(n: nat) -> Seq<char>
    decreases n,
{
    if n < 10 {
        seq![digit(n)]
    } else {
        decimal_text(n / 10).push(digit(n % 10))
    }
}

/// Decides [`is_whitespace`].
pub fn whitespace(c: char) -> (b: bool)
    ensures
        b == is_whitespace(c),
{
    let u: u32 = c as u32;
    (0x09 <= u && u <= 0x0D) || u == 0x20 || u == 0x85 || u == 0xA0 || u == 0x1680 || (0x2000 <= u
        && u <= 0x200A) || u == 0x2028 || u == 0x2029 || u == 0x202F || u == 0x205F || u == 0x3000
}

/// Appends `n` in decimal digits to `text`.
pub fn push_decimal(text: &mut String, n: usize)
    ensures
        final(text)@ == old(text)@ + decimal_text(n as nat),
    decreases n,
{
    if n >= 10 {
        push_decimal(text, n / 10);
    }
    let d: u8 = (n % 10) as u8;
    text.push((0x30 + d) as char);
}

/// The characters of `text`, in order.
pub fn chars_of(text: &str) -> (chars: Vec<char>)
    ensures
        chars@ == text@,
{
    let mut chars: Vec<char> = Vec::new();
    for c in it: text.chars()
        invariant
            it.seq() == text@,
            chars@ == text@.take(it.index() as int),
    {
        chars.push(c);
    }
    chars
}

/// The string made of `chars[start..end]`.
pub fn text_between(chars: &Vec<char>, start: usize, end: usize) -> (text: String)
    requires
        start <= end <= chars.len(),
    ensures
        text@ == chars@.subrange(start as int, end as int),
{
    let mut text = String::new();
    let mut i: usize = start;
    while i < end
        invariant
            start <= i <= end <= chars.len(),
            text@ == chars@.subrange(start as int, i as int),
        decreases end - i,
    {
        text.push(chars[i]);
        i += 1;
    }
    text
}

/// The first index in `start..end` whose character is not white space, or
/// `end`: where `chars[start..end]` begins once its start is trimmed.
pub fn skip_whitespace(chars: &Vec<char>, start: usize, end: usize) -> (first: usize)
    requires
        start <= end <= chars.len(),
    ensures
        start <= first <= end,
        chars@.subrange(first as int, end as int) == trim_start(
            chars@.subrange(start as int, end as int),
        ),
{
    let mut first: usize = start;
    while first < end && whitespace(chars[first])
        invariant
            start <= first <= end <= chars.len(),
            trim_start(chars@.subrange(first as int, end as int)) == trim_start(
                chars@.subrange(start as int, end as int),
            ),
        decreases end - first,
    {
        assert(chars@.subrange(first as int, end as int).drop_first() == chars@.subrange(
            first + 1,
            end as int,
        ));
        first += 1;
    }
    first
}

/// One more than the last index in `start..end` whose character is not white
/// space, or `start`: where `chars[start..end]` ends once its end is trimmed.
pub fn drop_whitespace(chars: &Vec<char>, start: usize, end: usize) -> (last: usize)
    requires
        start <= end <= chars.len(),
    ensures
        start <= last <= end,
        chars@.subrange(start as int, last as int) == trim_end(
            chars@.subrange(start as int, end as int),
        ),
{
    let mut last: usize = end;
    while start < last && whitespace(chars[last - 1])
        invariant
            start <= last <= end <= chars.len(),
            trim_end(chars@.subrange(start as int, last as int)) == trim_end(
                chars@.subrange(start as int, end as int),
            ),
        decreases last - start,
    {
        assert(chars@.subrange(start as int, last as int).drop_last() == chars@.subrange(
            start as int,
            last - 1,
        ));
        last -= 1;
    }
    last
}

} // verus!
