//! Reading and writing the small pieces of text that commands and settings
//! are made of.

use vstd::prelude::*;
use vstd::string::*;

verus! {

/// The characters of `text`, one by one.
pub fn chars_of(text: &str) -> (chars: Vec<char>)
    ensures
        chars@ == text@,
{
    let mut chars: Vec<char> = Vec::new();
    for c in it: text.chars()
        invariant
            it.seq() == text@,
            chars@ == text@.take(it.index() as int),
    {
        chars.push(c);
    }
    chars
}

/// Whether `a` and `b` are the same text.
pub fn same_text(a: &str, b: &str) -> (same: bool)
    ensures
        same == (a@ == b@),
{
    a.to_owned() == b.to_owned()
}

/// Whether `c` is one of the decimal digits `0` to `9`.
pub open spec fn is_digit(c: char) -> bool {
    '0' <= c && c <= '9'
}

/// The number that the digit `c` stands for; 0 for any other character.
pub open spec fn digit_value(c: char) -> nat {
    if is_digit(c) {
        (c as int - '0' as int) as nat
    } else {
        0
    }
}

/// Whether `s` is a decimal numeral: one digit or more, and nothing else.
pub open spec fn is_numeral(s: Seq<char>) -> bool {
    s.len() > 0 && forall|i: int| 0 <= i < s.len() ==> is_digit(#[trigger] s[i])
}

/// The number that the digits of `s` write in base ten.
pub open spec fn numeral_value(s: Seq<char>) -> nat
    decreases s.len(),
{
    if s.len() == 0 {
        0
    } else {
        10 * numeral_value(s.drop_last()) + digit_value(s.last())
    }
}

/// The number that `s` writes as a capacity or a count: an optional `+`, then
/// a numeral whose value a `usize` can hold. `None` for any other text.
pub open spec fn parsed_usize(s: Seq<char>) -> Option<usize> {
    let digits = if s.len() > 0 && s[0] == '+' {
        s.skip(1)
    } else {
        s
    };
    if is_numeral(digits) && numeral_value(digits) <= usize::MAX {
        Some(numeral_value(digits) as usize)
    } else {
        None
    }
}

/// The number that `s` writes as a signed integer: an optional `+` or `-`,
/// then a numeral, the whole within the range of `i64`. `None` for any other
/// text.
pub open spec fn parsed_i64(s: Seq<char>) -> Option<i64> {
    let signed = s.len() > 0 && (s[0] == '+' || s[0] == '-');
    let digits = if signed {
        s.skip(1)
    } else {
        s
    };
    let value = if signed && s[0] == '-' {
        -(numeral_value(digits) as int)
    } else {
        numeral_value(digits) as int
    };
    if is_numeral(digits) && i64::MIN <= value <= i64::MAX {
        Some(value as i64)
    } else {
        None
    }
}

/// A numeral is worth at least as much as any of its beginnings.
proof fn lemma_numeral_grows(s: Seq<char>, n: int)
    requires
        0 <= n <= s.len(),
    ensures
        numeral_value(s.take(n)) <= numeral_value(s),
    decreases s.len() - n,
{
    if n == s.len() {
        assert(s.take(n) =~= s);
    } else {
        lemma_numeral_grows(s, n + 1);
        assert(s.take(n + 1).drop_last() =~= s.take(n));
    }
}

/// The value of the numeral that starts at `from` and runs to the end of
/// `chars`, where there is one and a `u64` can hold it.
fn parse_numeral(chars: &Vec<char>, from: usize) -> (value: Option<u64>)
    requires
        from <= chars.len(),
    ensures
        value == if is_numeral(chars@.skip(from as int)) && numeral_value(chars@.skip(from as int))
            <= u64::MAX {
            Some(numeral_value(chars@.skip(from as int)) as u64)
        } else {
            None
        },
{
    let ghost digits = chars@.skip(from as int);
    if from == chars.len() {
        return None;
    }
    let mut value: u64 = 0;
    let mut i: usize = from;
    while i < chars.len()
        invariant
            from <= i <= chars.len(),
            digits == chars@.skip(from as int),
            forall|j: int| 0 <= j < i - from ==> is_digit(#[trigger] digits[j]),
            value == numeral_value(digits.take(i - from)),
        decreases chars.len() - i,
    {
        let c = chars[i];
        if !('0' <= c && c <= '9') {
            assert(!is_digit(digits[i - from]));
            return None;
        }
        let digit = (c as u32 - '0' as u32) as u64;
        proof {
            assert(digits.take(i - from + 1).drop_last() =~= digits.take(i - from));
            lemma_numeral_grows(digits, i - from + 1);
        }
        let tens = match value.checked_mul(10) {
            Some(tens) => tens,
            None => { return None; },
        };
        value = match tens.checked_add(digit) {
            Some(sum) => sum,
            None => { return None; },
        };
        i = i + 1;
    }
    assert(digits.take(i - from) =~= digits);
    Some(value)
}

/// Reads a `usize` written in base ten, as [`parsed_usize`] says.
pub fn parse_usize(text: &str) -> (number: Option<usize>)
    ensures
        number == parsed_usize(text@),
{
    let chars = chars_of(text);
    let from: usize = if chars.len() > 0 && chars[0] == '+' {
        1
    } else {
        0
    };
    assert(chars@.skip(0) =~= chars@);
    match parse_numeral(&chars, from) {
        Some(value) => {
            if value <= usize::MAX as u64 {
                Some(value as usize)
            } else {
                None
            }
        },
        None => None,
    }
}

/// Reads an `i64` written in base ten, as [`parsed_i64`] says.
pub fn parse_i64(text: &str) -> (number: Option<i64>)
    ensures
        number == parsed_i64(text@),
{
    let chars = chars_of(text);
    let signed = chars.len() > 0 && (chars[0] == '+' || chars[0] == '-');
    let negative = signed && chars[0] == '-';
    let from: usize = if signed {
        1
    } else {
        0
    };
    assert(chars@.skip(0) =~= chars@);
    match parse_numeral(&chars, from) {
        Some(value) => {
            if negative {
                if value <= i64::MAX as u64 {
                    Some(-(value as i64))
                } else if value == i64::MAX as u64 + 1 {
                    Some(i64::MIN)
                } else {
                    None
                }
            } else if value <= i64::MAX as u64 {
                Some(value as i64)
            } else {
                None
            }
        },
        None => None,
    }
}

/// The digit that writes `d`, for `d` below ten.
pub open spec fn digit_char(d: nat) -> char {
    ('0' as nat + d) as char
}

/// The numeral that writes `n` in base ten, without leading zeros.
pub open spec fn numeral(n: nat) -> Seq<char>
    decreases n,
{
    if n < 10 {
        seq![digit_char(n)]
    } else {
        numeral(n / 10).push(digit_char(n % 10))
    }
}

fn digit_text(d: u8) -> (text: &'static str)
    requires
        d < 10,
    ensures
        text@ == seq![digit_char(d as nat)],
{
    proof {
        reveal_strlit("0");
        reveal_strlit("1");
        reveal_strlit("2");
        reveal_strlit("3");
        reveal_strlit("4");
        reveal_strlit("5");
        reveal_strlit("6");
        reveal_strlit("7");
        reveal_strlit("8");
        reveal_strlit("9");
    }
    let text = match d {
        0 => "0",
        1 => "1",
        2 => "2",
        3 => "3",
        4 => "4",
        5 => "5",
        6 => "6",
        7 => "7",
        8 => "8",
        _ => "9",
    };
    text
}

/// Writes `n` in base ten.
pub fn render_number(n: u64) -> (text: String)
    ensures
        text@ == numeral(n as nat),
    decreases n,
{
    if n < 10 {
        digit_text(n as u8).to_owned()
    } else {
        let mut text = render_number(n / 10);
        text.append(digit_text((n % 10) as u8));
        text
    }
}

/// What [`render_number`] writes, [`parse_usize`] reads back: the numeral of
/// `n` is a numeral, and its value is `n`.
pub proof fn lemma_numeral_reads_back(n: nat)
    ensures
        is_numeral(numeral(n)),
        numeral_value(numeral(n)) == n,
        n <= usize::MAX ==> parsed_usize(numeral(n)) == Some(n as usize),
    decreases n,
{
    if n < 10 {
        assert(numeral_value(numeral(n).drop_last()) == 0);
    } else {
        lemma_numeral_reads_back(n / 10);
        assert(numeral(n).drop_last() =~= numeral(n / 10));
    }
}

/// Whether `c` separates the words of a command: space, tab, line feed, form
/// feed or carriage return.
pub open spec fn is_ascii_space(c: char) -> bool {
    c == ' ' || c == '\t' || c == '\n' || c == '\x0C' || c == '\r'
}

/// How many characters at the start of `s` belong to one word: the length of
/// the longest beginning without a separator.
pub open spec fn word_len(s: Seq<char>) -> nat
    decreases s.len(),
{
    if s.len() == 0 || is_ascii_space(s[0]) {
        0
    } else {
        1 + word_len(s.skip(1))
    }
}

/// The words of `s`: its longest runs of characters that are no separators,
/// from left to right.
pub open spec fn words(s: Seq<char>) -> Seq<Seq<char>>
    decreases s.len(),
    via words_decreases
{
    if s.len() == 0 {
        Seq::empty()
    } else if is_ascii_space(s[0]) {
        words(s.skip(1))
    } else {
        seq![s.take(word_len(s) as int)] + words(s.skip(word_len(s) as int))
    }
}

#[via_fn]
proof fn words_decreases(s: Seq<char>) {
    lemma_word_len_bounded(s);
}

proof fn lemma_word_len_bounded(s: Seq<char>)
    ensures
        word_len(s) <= s.len(),
    decreases s.len(),
{
    if s.len() > 0 && !is_ascii_space(s[0]) {
        lemma_word_len_bounded(s.skip(1));
    }
}

/// A word that starts at `from` and runs over `n` characters that are no
/// separators goes on for as long as the rest does.
proof fn lemma_word_len_after(s: Seq<char>, from: int, n: int)
    requires
        0 <= from,
        0 <= n,
        from + n <= s.len(),
        forall|j: int| from <= j < from + n ==> !is_ascii_space(#[trigger] s[j]),
    ensures
        word_len(s.skip(from)) == n + word_len(s.skip(from + n)),
    decreases n,
{
    if n > 0 {
        assert(s.skip(from).skip(1) =~= s.skip(from + 1));
        lemma_word_len_after(s, from + 1, n - 1);
    }
}

fn is_separator(c: char) -> (separates: bool)
    ensures
        separates == is_ascii_space(c),
{
    c == ' ' || c == '\t' || c == '\n' || c == '\x0C' || c == '\r'
}

/// Splits `text` into its words, as [`words`] says.
pub fn split_words(text: &str) -> (found: Vec<String>)
    ensures
        found.deep_view() == words(text@),
{
    let chars = chars_of(text);
    let mut found: Vec<String> = Vec::new();
    let mut i: usize = 0;
    assert(text@.skip(0) =~= text@);
    while i < chars.len()
        invariant
            i <= chars.len(),
            chars@ == text@,
            found.deep_view() + words(text@.skip(i as int)) == words(text@),
        decreases chars.len() - i,
    {
        let ghost rest = text@.skip(i as int);
        if is_separator(chars[i]) {
            assert(rest.skip(1) =~= text@.skip(i + 1));
            i = i + 1;
        } else {
            let start = i;
            while i < chars.len() && !is_separator(chars[i])
                invariant
                    start <= i <= chars.len(),
                    chars@ == text@,
                    forall|j: int| start <= j < i ==> !is_ascii_space(#[trigger] text@[j]),
                decreases chars.len() - i,
            {
                i = i + 1;
            }
            proof {
                lemma_word_len_after(text@, start as int, i - start);
                assert(rest.take(i - start) =~= text@.subrange(start as int, i as int));
                assert(rest.skip(i - start) =~= text@.skip(i as int));
            }
            let word = text.substring_char(start, i).to_owned();
            found.push(word);
        }
    }
    found
}

/// How many characters of `s` come before its first `separator`: all of
/// them where it holds none.
pub open spec fn piece_len(s: Seq<char>, separator: char) -> nat
    decreases s.len(),
{
    if s.len() == 0 || s[0] == separator {
        0
    } else {
        1 + piece_len(s.skip(1), separator)
    }
}

/// The pieces that `separator` cuts `s` into, from left to right. There is one
/// piece more than there are separators in `s`, and a piece can be empty.
pub open spec fn pieces(s: Seq<char>, separator: char) -> Seq<Seq<char>>
    decreases s.len(),
{
    let n = piece_len(s, separator) as int;
    if n >= s.len() {
        seq![s]
    } else {
        seq![s.take(n)] + pieces(s.skip(n + 1), separator)
    }
}

proof fn lemma_piece_len_after(s: Seq<char>, separator: char, from: int, n: int)
    requires
        0 <= from,
        0 <= n,
        from + n <= s.len(),
        forall|j: int| from <= j < from + n ==> #[trigger] s[j] != separator,
    ensures
        piece_len(s.skip(from), separator) == n + piece_len(s.skip(from + n), separator),
    decreases n,
{
    if n > 0 {
        assert(s.skip(from).skip(1) =~= s.skip(from + 1));
        lemma_piece_len_after(s, separator, from + 1, n - 1);
    }
}

/// Cuts `text` at every `separator`, as [`pieces`] says.
pub fn split_at_each(text: &str, separator: char) -> (found: Vec<String>)
    ensures
        found.deep_view() == pieces(text@, separator),
{
    let chars = chars_of(text);
    let mut found: Vec<String> = Vec::new();
    let mut start: usize = 0;
    let mut i: usize = 0;
    assert(text@.skip(0) =~= text@);
    while i < chars.len()
        invariant
            start <= i <= chars.len(),
            chars@ == text@,
            forall|j: int| start <= j < i ==> #[trigger] text@[j] != separator,
            found.deep_view() + pieces(text@.skip(start as int), separator) == pieces(
                text@,
                separator,
            ),
        decreases chars.len() - i,
    {
        if chars[i] == separator {
            let ghost rest = text@.skip(start as int);
            proof {
                lemma_piece_len_after(text@, separator, start as int, i - start);
                assert(rest.take(i - start) =~= text@.subrange(start as int, i as int));
                assert(rest.skip(i - start + 1) =~= text@.skip(i + 1));
            }
            let piece = text.substring_char(start, i).to_owned();
            found.push(piece);
            start = i + 1;
        }
        i = i + 1;
    }
    proof {
        lemma_piece_len_after(text@, separator, start as int, i - start);
    }
    let piece = text.substring_char(start, i).to_owned();
    found.push(piece);
    found
}

/// The rest of `text` behind `prefix`, where `text` starts with it.
pub fn strip_prefix<'a>(text: &'a str, prefix: &str) -> (rest: Option<&'a str>)
    ensures
        match rest {
            Some(rest) => prefix@.is_prefix_of(text@) && rest@ == text@.skip(prefix@.len() as int),
            None => !prefix@.is_prefix_of(text@),
        },
{
    let chars = chars_of(text);
    let start = chars_of(prefix);
    if start.len() > chars.len() {
        return None;
    }
    let mut i: usize = 0;
    while i < start.len()
        invariant
            i <= start.len() <= chars.len(),
            chars@ == text@,
            start@ == prefix@,
            forall|j: int| 0 <= j < i ==> text@[j] == prefix@[j],
        decreases start.len() - i,
    {
        if chars[i] != start[i] {
            return None;
        }
        i = i + 1;
    }
    Some(text.substring_char(start.len(), chars.len()))
}

/// Whether `c` is white space, as Unicode lists it under White_Space.
pub uninterp spec fn white_space(c: char) -> bool;

/// `char::is_whitespace` of the standard library: whether `c` is white space.
/// Which characters are is left to the library; the contract only gives its
/// answer a name, so that the answer for one character is always the same.
#[verifier::external_body]
fn is_white_space(c: char) -> (white: bool)
    ensures
        white == white_space(c),
{
    c.is_whitespace()
}

/// How many characters of white space `s` begins with.
pub open spec fn leading_white(s: Seq<char>) -> nat
    decreases s.len(),
{
    if s.len() > 0 && white_space(s[0]) {
        1 + leading_white(s.skip(1))
    } else {
        0
    }
}

/// How many characters of white space `s` ends with.
pub open spec fn trailing_white(s: Seq<char>) -> nat
    decreases s.len(),
{
    if s.len() > 0 && white_space(s.last()) {
        1 + trailing_white(s.drop_last())
    } else {
        0
    }
}

/// `s` without the white space that it begins and ends with.
pub open spec fn trimmed(s: Seq<char>) -> Seq<char> {
    let kept = s.skip(leading_white(s) as int);
    kept.take(kept.len() - trailing_white(kept))
}

proof fn lemma_leading_white(s: Seq<char>, n: int)
    requires
        0 <= n <= s.len(),
        forall|j: int| 0 <= j < n ==> white_space(#[trigger] s[j]),
    ensures
        leading_white(s) == n + leading_white(s.skip(n)),
    decreases n,
{
    if n == 0 {
        assert(s.skip(0) =~= s);
    } else {
        assert(s.skip(1).skip(n - 1) =~= s.skip(n));
        lemma_leading_white(s.skip(1), n - 1);
    }
}

proof fn lemma_trailing_white(s: Seq<char>, n: int)
    requires
        0 <= n <= s.len(),
        forall|j: int| s.len() - n <= j < s.len() ==> white_space(#[trigger] s[j]),
    ensures
        trailing_white(s) == n + trailing_white(s.take(s.len() - n)),
    decreases n,
{
    if n == 0 {
        assert(s.take(s.len() as int) =~= s);
    } else {
        assert(s.drop_last().take(s.len() - n) =~= s.take(s.len() - n));
        lemma_trailing_white(s.drop_last(), n - 1);
    }
}

/// Cuts the white space off both ends of `text`, as [`trimmed`] says.
pub fn trim<'a>(text: &'a str) -> (kept: &'a str)
    ensures
        kept@ == trimmed(text@),
{
    let chars = chars_of(text);
    let mut from: usize = 0;
    while from < chars.len() && is_white_space(chars[from])
        invariant
            from <= chars.len(),
            chars@ == text@,
            forall|j: int| 0 <= j < from ==> white_space(#[trigger] text@[j]),
        decreases chars.len() - from,
    {
        from = from + 1;
    }
    let mut to: usize = chars.len();
    while to > from && is_white_space(chars[to - 1])
        invariant
            from <= to <= chars.len(),
            chars@ == text@,
            forall|j: int| to <= j < chars.len() ==> white_space(#[trigger] text@[j]),
        decreases to,
    {
        to = to - 1;
    }
    proof {
        let rest = text@.skip(from as int);
        lemma_leading_white(text@, from as int);
        lemma_trailing_white(rest, chars.len() - to);
        assert(trailing_white(rest.take(rest.len() - (chars.len() - to))) == 0);
    }
    text.substring_char(from, to)
}

} // verus!
