//! Text as sequences of characters: trimming, searching, splitting into lines
//! and writing numbers in decimal.

use vstd::prelude::*;
use vstd::string::StrSliceExecFns;
use vstd::utf8::*;

verus! {

/// `String::push`: appends one character.
pub assume_specification[ String::push ](text: &mut String, c: char)
    ensures
        final(text)@ == old(text)@.push(c),
;

/// The characters with the Unicode property White_Space.
pub open spec fn is_white_space(c: char) -> bool {
    ||| '\u{9}' <= c <= '\u{d}'
    ||| c == ' '
    ||| c == '\u{85}'
    ||| c == '\u{a0}'
    ||| c == '\u{1680}'
    ||| '\u{2000}' <= c <= '\u{200a}'
    ||| c == '\u{2028}'
    ||| c == '\u{2029}'
    ||| c == '\u{202f}'
    ||| c == '\u{205f}'
    ||| c == '\u{3000}'
}

/// `s` without the white space that it starts with.
pub open spec fn trim_start(s: Seq<char>) -> Seq<char>
    decreases s.len(),
{
    if s.len() > 0 && is_white_space(s[0]) {
        trim_start(s.drop_first())
    } else {
        s
    }
}

/// `s` without the white space that it ends with.
pub open spec fn trim_end(s: Seq<char>) -> Seq<char>
    decreases s.len(),
{
    if s.len() > 0 && is_white_space(s.last()) {
        trim_end(s.drop_last())
    } else {
        s
    }
}

/// `s` without the white space around it.
pub open spec fn trim(s: Seq<char>) -> Seq<char> {
    trim_end(trim_start(s))
}

/// `s` without the characters `c` that it ends with.
pub open spec fn trim_end_char(s: Seq<char>, c: char) -> Seq<char>
    decreases s.len(),
{
    if s.len() > 0 && s.last() == c {
        trim_end_char(s.drop_last(), c)
    } else {
        s
    }
}

/// An index moved right by `by`.
pub open spec fn shifted(index: Option<int>, by: int) -> Option<int> {
    match index {
        Some(i) => Some(i + by),
        None => None,
    }
}

/// The index of the first `c` in `s`.
pub open spec fn position(s: Seq<char>, c: char) -> Option<int>
    decreases s.len(),
{
    if s.len() == 0 {
        None
    } else if s[0] == c {
        Some(0)
    } else {
        shifted(position(s.drop_first(), c), 1)
    }
}

/// The index at which `pattern` first occurs in `s`.
pub open spec fn find(s: Seq<char>, pattern: Seq<char>) -> Option<int>
    decreases s.len(),
{
    if pattern.is_prefix_of(s) {
        Some(0)
    } else if s.len() == 0 {
        None
    } else {
        shifted(find(s.drop_first(), pattern), 1)
    }
}

/// Whether `pattern` occurs in `s`.
pub open spec fn contains(s: Seq<char>, pattern: Seq<char>) -> bool {
    exists|i: int|
        0 <= i && i + pattern.len() <= s.len() && #[trigger] s.subrange(
            i,
            i + pattern.len(),
        ) == pattern
}

/// The first line of `s`, without its line ending: a line feed, or a carriage
/// return and a line feed.
pub open spec fn first_line(s: Seq<char>) -> Seq<char> {
    match position(s, '\n') {
        None => s,
        Some(i) => if i > 0 && s[i - 1] == '\r' {
            s.take(i - 1)
        } else {
            s.take(i)
        },
    }
}

/// What follows the first line of `s` and its line ending.
pub open spec fn after_line(s: Seq<char>) -> Seq<char> {
    match position(s, '\n') {
        None => Seq::empty(),
        Some(i) => s.skip(i + 1),
    }
}

/// The character that writes the digit `d`.
pub open spec fn digit_char(d: nat) -> char {
    (48 + d) as char
}

/// `n` in decimal, without leading zeros.
pub open spec fn decimal(n: nat) -> Seq<char>
    decreases n,
{
    if n < 10 {
        seq![digit_char(n)]
    } else {
        decimal(n / 10).push(digit_char(n % 10))
    }
}

/// `n` in decimal, with a minus sign where it is negative.
pub open spec fn signed_decimal(n: int) -> Seq<char> {
    if n < 0 {
        seq!['-'] + decimal((-n) as nat)
    } else {
        decimal(n as nat)
    }
}

pub proof fn lemma_position_bounds(s: Seq<char>, c: char)
    ensures
        match position(s, c) {
            Some(i) => 0 <= i < s.len() && s[i] == c && forall|j: int| 0 <= j < i ==> s[j] != c,
            None => forall|j: int| 0 <= j < s.len() ==> s[j] != c,
        },
    decreases s.len(),
{
    if s.len() > 0 && s[0] != c {
        let rest = s.drop_first();
        lemma_position_bounds(rest, c);
        match position(rest, c) {
            Some(i) => {
                assert(s[i + 1] == rest[i]);
                assert forall|j: int| 0 <= j < i + 1 implies s[j] != c by {
                    if j > 0 {
                        assert(s[j] == rest[j - 1]);
                    }
                }
            },
            None => {
                assert forall|j: int| 0 <= j < s.len() implies s[j] != c by {
                    if j > 0 {
                        assert(s[j] == rest[j - 1]);
                    }
                }
            },
        }
    }
}

pub proof fn lemma_after_line_shorter(s: Seq<char>)
    ensures
        s.len() > 0 ==> after_line(s).len() < s.len(),
{
    lemma_position_bounds(s, '\n');
}

pub proof fn lemma_find_bounds(s: Seq<char>, pattern: Seq<char>)
    ensures
        match find(s, pattern) {
            Some(i) => 0 <= i && i + pattern.len() <= s.len() && s.subrange(i, i + pattern.len())
                == pattern,
            None => true,
        },
    decreases s.len(),
{
    if pattern.is_prefix_of(s) {
        assert(s.subrange(0, pattern.len() as int) =~= pattern);
    } else if s.len() > 0 {
        let rest = s.drop_first();
        lemma_find_bounds(rest, pattern);
        if let Some(i) = find(rest, pattern) {
            assert(s.subrange(i + 1, i + 1 + pattern.len()) =~= rest.subrange(
                i,
                i + pattern.len(),
            ));
        }
    }
}

/// `find` gives an index exactly where the pattern occurs.
pub proof fn lemma_find_contains(s: Seq<char>, pattern: Seq<char>)
    ensures
        find(s, pattern) is Some <==> contains(s, pattern),
    decreases s.len(),
{
    lemma_find_bounds(s, pattern);
    if contains(s, pattern) && !pattern.is_prefix_of(s) {
        let i = choose|i: int|
            0 <= i && i + pattern.len() <= s.len() && #[trigger] s.subrange(i, i + pattern.len())
                == pattern;
        if i == 0 {
            assert forall|j: int| 0 <= j < pattern.len() implies pattern[j] == s[j] by {
                assert(s.subrange(0, pattern.len() as int)[j] == s[j]);
            }
            assert(pattern.is_prefix_of(s)) by {
                assert(pattern =~= s.subrange(0, pattern.len() as int));
            }
        }
        let rest = s.drop_first();
        assert(rest.subrange(i - 1, i - 1 + pattern.len()) =~= s.subrange(i, i + pattern.len()));
        assert(contains(rest, pattern));
        lemma_find_contains(rest, pattern);
    }
}

/// Whether `c` is white space.
pub fn white_space(c: char) -> (r: bool)
    ensures
        r == is_white_space(c),
{
    let u: u32 = c as u32;
    (9 <= u && u <= 13) || u == 32 || u == 0x85 || u == 0xa0 || u == 0x1680 || (0x2000 <= u && u
        <= 0x200a) || u == 0x2028 || u == 0x2029 || u == 0x202f || u == 0x205f || u == 0x3000
}

/// The characters of `text`, in order.
pub fn chars_of(text: &str) -> (chars: Vec<char>)
    ensures
        chars@ == text@,
{
    let mut chars: Vec<char> = Vec::new();
    for c in it: text.chars()
        invariant
            chars@ == text@.take(it.index() as int),
            it.seq() == text@,
    {
        chars.push(c);
    }
    chars
}

/// The text made of `chars`, in order.
pub fn string_of(chars: &[char]) -> (text: String)
    ensures
        text@ == chars@,
{
    let mut text = String::new();
    for i in 0..chars.len()
        invariant
            text@ == chars@.take(i as int),
    {
        text.push(chars[i]);
    }
    text
}

/// One text after another.
pub fn joined(prefix: &str, rest: &str) -> (text: String)
    ensures
        text@ == prefix@ + rest@,
{
    let mut text = String::new();
    text.append(prefix);
    text.append(rest);
    assert(text@ =~= prefix@ + rest@);
    text
}

/// Whether two texts are the same.
pub fn same_text(a: &str, b: &str) -> (r: bool)
    ensures
        r == (a@ == b@),
{
    proof {
        encode_utf8_decode_utf8(a@);
        encode_utf8_decode_utf8(b@);
    }
    let x = a.as_bytes();
    let y = b.as_bytes();
    if x.len() != y.len() {
        return false;
    }
    for i in 0..x.len()
        invariant
            x@.len() == y@.len(),
            x@.take(i as int) == y@.take(i as int),
            x@ == encode_utf8(a@),
            y@ == encode_utf8(b@),
    {
        if x[i] != y[i] {
            return false;
        }
        assert(x@.take(i + 1) =~= x@.take(i as int).push(x@[i as int]));
        assert(y@.take(i + 1) =~= y@.take(i as int).push(y@[i as int]));
    }
    assert(x@ =~= x@.take(x@.len() as int));
    assert(y@ =~= y@.take(y@.len() as int));
    true
}

/// The part of `s` from `from` up to `to`.
pub fn slice<'a>(s: &'a [char], from: usize, to: usize) -> (r: &'a [char])
    requires
        from <= to <= s@.len(),
    ensures
        r@ == s@.subrange(from as int, to as int),
{
    vstd::slice::slice_subrange(s, from, to)
}

/// Where the part of `s` without the white space around it starts and ends.
pub fn trim_bounds(s: &[char]) -> (r: (usize, usize))
    ensures
        r.0 <= r.1 <= s@.len(),
        s@.subrange(r.0 as int, r.1 as int) == trim(s@),
{
    let mut from: usize = 0;
    assert(s@.skip(0) =~= s@);
    while from < s.len() && white_space(s[from])
        invariant
            from <= s@.len(),
            trim_start(s@) == trim_start(s@.skip(from as int)),
        decreases s@.len() - from,
    {
        assert(s@.skip(from as int).drop_first() =~= s@.skip(from + 1));
        from = from + 1;
    }
    let ghost start = s@.skip(from as int);
    assert(trim_start(s@) == start);
    let mut to: usize = s.len();
    assert(s@.subrange(from as int, to as int) =~= start);
    while from < to && white_space(s[to - 1])
        invariant
            from <= to <= s@.len(),
            start == s@.skip(from as int),
            trim_end(start) == trim_end(s@.subrange(from as int, to as int)),
        decreases to,
    {
        assert(s@.subrange(from as int, to as int).drop_last() =~= s@.subrange(
            from as int,
            to - 1,
        ));
        to = to - 1;
    }
    (from, to)
}

/// `s` without the white space around it.
pub fn trim_chars<'a>(s: &'a [char]) -> (r: &'a [char])
    ensures
        r@ == trim(s@),
{
    let (from, to) = trim_bounds(s);
    slice(s, from, to)
}

/// `text` without the white space around it.
pub fn trim_text<'a>(text: &'a str) -> (r: &'a str)
    ensures
        r@ == trim(text@),
{
    let chars = chars_of(text);
    let (from, to) = trim_bounds(chars.as_slice());
    text.substring_char(from, to)
}

/// `s` without the characters `c` that it ends with.
pub fn trim_end_chars<'a>(s: &'a [char], c: char) -> (r: &'a [char])
    ensures
        r@ == trim_end_char(s@, c),
{
    let mut to: usize = s.len();
    assert(s@.take(to as int) =~= s@);
    while 0 < to && s[to - 1] == c
        invariant
            to <= s@.len(),
            trim_end_char(s@, c) == trim_end_char(s@.take(to as int), c),
        decreases to,
    {
        assert(s@.take(to as int).drop_last() =~= s@.take(to - 1));
        to = to - 1;
    }
    slice(s, 0, to)
}

/// The index of the first `c` in `s`.
pub fn position_of(s: &[char], c: char) -> (r: Option<usize>)
    ensures
        r is Some <==> position(s@, c) is Some,
        r matches Some(i) ==> position(s@, c) == Some(i as int) && i < s@.len(),
{
    assert(s@.skip(0) =~= s@);
    let mut i: usize = 0;
    while i < s.len()
        invariant
            i <= s@.len(),
            position(s@, c) == shifted(position(s@.skip(i as int), c), i as int),
        decreases s@.len() - i,
    {
        assert(s@.skip(i as int)[0] == s@[i as int]);
        if s[i] == c {
            return Some(i);
        }
        assert(s@.skip(i as int).drop_first() =~= s@.skip(i + 1));
        i = i + 1;
    }
    None
}

/// Whether `s` starts with `pattern`.
pub fn has_prefix(s: &[char], pattern: &[char]) -> (r: bool)
    ensures
        r == pattern@.is_prefix_of(s@),
{
    if s.len() < pattern.len() {
        return false;
    }
    for i in 0..pattern.len()
        invariant
            pattern@.len() <= s@.len(),
            forall|j: int| 0 <= j < i ==> pattern@[j] == s@[j],
    {
        if s[i] != pattern[i] {
            assert(s@.subrange(0, pattern@.len() as int)[i as int] == s@[i as int]);
            return false;
        }
    }
    assert(pattern@ =~= s@.subrange(0, pattern@.len() as int));
    true
}

/// The index at which `pattern` first occurs in `s`.
pub fn find_chars(s: &[char], pattern: &[char]) -> (r: Option<usize>)
    ensures
        r is Some <==> find(s@, pattern@) is Some,
        r matches Some(i) ==> find(s@, pattern@) == Some(i as int) && i + pattern@.len()
            <= s@.len(),
{
    proof {
        lemma_find_bounds(s@, pattern@);
    }
    assert(s@.skip(0) =~= s@);
    let mut i: usize = 0;
    loop
        invariant
            i <= s@.len(),
            find(s@, pattern@) == shifted(find(s@.skip(i as int), pattern@), i as int),
            find(s@, pattern@) matches Some(k) ==> k + pattern@.len() <= s@.len(),
        decreases s@.len() - i,
    {
        let rest = slice(s, i, s.len());
        assert(rest@ =~= s@.skip(i as int));
        if has_prefix(rest, pattern) {
            return Some(i);
        }
        if i == s.len() {
            return None;
        }
        assert(s@.skip(i as int).drop_first() =~= s@.skip(i + 1));
        i = i + 1;
    }
}

/// Whether `pattern` occurs in `text`.
pub fn contains_text(text: &str, pattern: &str) -> (r: bool)
    ensures
        r == contains(text@, pattern@),
{
    proof {
        lemma_find_contains(text@, pattern@);
    }
    let s = chars_of(text);
    let p = chars_of(pattern);
    find_chars(s.as_slice(), p.as_slice()).is_some()
}

/// The first line of `s` and what follows it.
pub fn split_line<'a>(s: &'a [char]) -> (r: (&'a [char], &'a [char]))
    ensures
        r.0@ == first_line(s@),
        r.1@ == after_line(s@),
{
    match position_of(s, '\n') {
        None => {
            let n = s.len();
            (s, slice(s, n, n))
        },
        Some(i) => {
            let end = if i > 0 && s[i - 1] == '\r' {
                i - 1
            } else {
                i
            };
            (slice(s, 0, end), slice(s, i + 1, s.len()))
        },
    }
}

/// Appends `n` in decimal.
pub fn append_decimal(text: &mut String, n: u128)
    ensures
        final(text)@ == old(text)@ + decimal(n as nat),
    decreases n,
{
    if n >= 10 {
        append_decimal(text, n / 10);
    }
    let d = (n % 10) as u8;
    text.push((48 + d) as char);
}

/// `n` in decimal.
pub fn decimal_text(n: u128) -> (text: String)
    ensures
        text@ == decimal(n as nat),
{
    let mut text = String::new();
    append_decimal(&mut text, n);
    text
}

/// `n` in decimal, with a minus sign where it is negative.
pub fn signed_decimal_text(n: i32) -> (text: String)
    ensures
        text@ == signed_decimal(n as int),
{
    let mut text = String::new();
    if n < 0 {
        text.push('-');
        append_decimal(&mut text, (-(n as i64)) as u128);
    } else {
        append_decimal(&mut text, n as u128);
    }
    text
}

/// Whether `inner` is what is left of `s` between `from` and `to`, with only white space
/// before and behind it.
pub open spec fn is_trimmed_at(s: Seq<char>, inner: Seq<char>, from: int, to: int) -> bool {
    &&& 0 <= from <= to <= s.len()
    &&& inner == s.subrange(from, to)
    &&& forall|i: int| 0 <= i < from ==> is_white_space(#[trigger] s[i])
    &&& forall|i: int| to <= i < s.len() ==> is_white_space(#[trigger] s[i])
}

proof fn lemma_trim_start_bounds(s: Seq<char>) -> (from: int)
    ensures
        0 <= from <= s.len(),
        trim_start(s) == s.skip(from),
        forall|i: int| 0 <= i < from ==> is_white_space(#[trigger] s[i]),
        from < s.len() ==> !is_white_space(s[from]),
    decreases s.len(),
{
    if s.len() > 0 && is_white_space(s[0]) {
        let rest = s.drop_first();
        let from = lemma_trim_start_bounds(rest);
        assert(rest.skip(from) =~= s.skip(from + 1));
        assert forall|i: int| 0 <= i < from + 1 implies is_white_space(#[trigger] s[i]) by {
            if i > 0 {
                assert(s[i] == rest[i - 1]);
            }
        }
        from + 1
    } else {
        assert(s.skip(0) =~= s);
        0
    }
}

proof fn lemma_trim_end_bounds(s: Seq<char>) -> (to: int)
    ensures
        0 <= to <= s.len(),
        trim_end(s) == s.take(to),
        forall|i: int| to <= i < s.len() ==> is_white_space(#[trigger] s[i]),
        to > 0 ==> !is_white_space(s[to - 1]),
    decreases s.len(),
{
    if s.len() > 0 && is_white_space(s.last()) {
        let front = s.drop_last();
        let to = lemma_trim_end_bounds(front);
        assert(front.take(to) =~= s.take(to));
        assert forall|i: int| to <= i < s.len() implies is_white_space(#[trigger] s[i]) by {
            if i < front.len() {
                assert(s[i] == front[i]);
            }
        }
        to
    } else {
        assert(s.take(s.len() as int) =~= s);
        s.len() as int
    }
}

/// Trimming takes away white space at both ends, all of it, and nothing else.
pub proof fn law_trimming_takes_the_white_space_around(text: &str, trimmed: &str)
    requires
        call_ensures(trim_text, (text,), trimmed),
    ensures
        exists|from: int, to: int| #[trigger] is_trimmed_at(text@, trimmed@, from, to),
        trimmed@.len() > 0 ==> !is_white_space(trimmed@[0]) && !is_white_space(trimmed@.last()),
        trimmed@.len() == 0 <==> forall|i: int|
            0 <= i < text@.len() ==> is_white_space(#[trigger] text@[i]),
{
    let s = text@;
    let from = lemma_trim_start_bounds(s);
    let rest = s.skip(from);
    let to = lemma_trim_end_bounds(rest);
    assert(trimmed@ == rest.take(to));
    assert(rest.take(to) =~= s.subrange(from, from + to));
    assert forall|i: int| from + to <= i < s.len() implies is_white_space(#[trigger] s[i]) by {
        assert(rest[i - from] == s[i]);
    }
    assert(is_trimmed_at(s, trimmed@, from, from + to));
    if trimmed@.len() > 0 {
        assert(trimmed@[0] == s[from]);
        assert(trimmed@.last() == rest[to - 1]);
        assert(!is_white_space(s[from]));
    } else {
        assert forall|i: int| 0 <= i < s.len() implies is_white_space(#[trigger] s[i]) by {
            if i >= from {
                assert(rest[i - from] == s[i]);
            }
        }
    }
}

/// Space, tab, line feed, vertical tab, form feed, carriage return, next line, the
/// no-break space and the spaces and separators of Unicode are white space, and nothing
/// else is: no letter, digit or sign of ASCII.
pub proof fn law_white_space(c: char, r: bool)
    requires
        call_ensures(white_space, (c,), r),
    ensures
        r <==> c == '\t' || c == '\n' || c == '\u{b}' || c == '\u{c}' || c == '\r' || c == ' ' || c
            == '\u{85}' || c == '\u{a0}' || c == '\u{1680}' || ('\u{2000}' <= c <= '\u{200a}') || c
            == '\u{2028}' || c == '\u{2029}' || c == '\u{202f}' || c == '\u{205f}' || c
            == '\u{3000}',
        '!' <= c <= '~' ==> !r,
{
}

/// The number that decimal digits write.
pub open spec fn number_in(digits: Seq<char>) -> int
    decreases digits.len(),
{
    if digits.len() == 0 {
        0
    } else {
        10 * number_in(digits.drop_last()) + (digits.last() as u32 - '0' as u32)
    }
}

proof fn lemma_decimal_is_read_back(n: nat)
    ensures
        number_in(decimal(n)) == n,
        decimal(n).len() > 0,
        forall|i: int| 0 <= i < decimal(n).len() ==> '0' <= #[trigger] decimal(n)[i] <= '9',
        n > 0 ==> decimal(n)[0] != '0',
    decreases n,
{
    if n < 10 {
        assert(decimal(n).drop_last() =~= Seq::<char>::empty());
        assert(number_in(Seq::<char>::empty()) == 0);
        assert(decimal(n).last() == digit_char(n));
    } else {
        lemma_decimal_is_read_back(n / 10);
        let front = decimal(n / 10);
        assert(decimal(n).drop_last() =~= front);
        assert(decimal(n).last() == digit_char(n % 10));
        assert forall|i: int| 0 <= i < decimal(n).len() implies '0' <= #[trigger] decimal(n)[i]
            <= '9' by {
            if i < front.len() {
                assert(decimal(n)[i] == front[i]);
            }
        }
        assert(decimal(n)[0] == front[0]);
    }
}

/// A number in decimal is made of digits from which the same number is read back, and
/// starts with a zero only where it is zero; a negative one has a minus sign before them.
pub proof fn law_decimal_is_read_back(n: u128, text: String, m: i32, signed: String)
    requires
        call_ensures(decimal_text, (n,), text),
        call_ensures(signed_decimal_text, (m,), signed),
    ensures
        number_in(text@) == n,
        text@.len() > 0,
        forall|i: int| 0 <= i < text@.len() ==> '0' <= #[trigger] text@[i] <= '9',
        text@[0] == '0' ==> n == 0 && text@.len() == 1,
        m >= 0 ==> number_in(signed@) == m && signed@[0] != '-',
        m < 0 ==> signed@[0] == '-' && number_in(signed@.skip(1)) == -m,
{
    lemma_decimal_is_read_back(n as nat);
    if m >= 0 {
        lemma_decimal_is_read_back(m as nat);
        assert('0' <= decimal(m as nat)[0] <= '9');
    } else {
        lemma_decimal_is_read_back((-m) as nat);
        assert(signed@.skip(1) =~= decimal((-m) as nat));
    }
}

/// A pattern is found at the first place at which it occurs, and at none where it does not
/// occur.
pub proof fn law_first_occurrence_is_found(s: &[char], pattern: &[char], r: Option<usize>, j: int)
    requires
        call_ensures(find_chars, (s, pattern), r),
        0 <= j,
        j + pattern@.len() <= s@.len(),
        s@.subrange(j, j + pattern@.len()) == pattern@,
    ensures
        r matches Some(i) && i <= j && s@.subrange(i as int, i + pattern@.len()) == pattern@,
{
    lemma_find_bounds(s@, pattern@);
    lemma_find_is_first(s@, pattern@, j);
}

pub proof fn lemma_find_is_first(s: Seq<char>, pattern: Seq<char>, j: int)
    requires
        0 <= j,
        j + pattern.len() <= s.len(),
        s.subrange(j, j + pattern.len()) == pattern,
    ensures
        find(s, pattern) matches Some(i) && i <= j,
    decreases s.len(),
{
    if !pattern.is_prefix_of(s) {
        if j == 0 {
            assert(pattern =~= s.subrange(0, pattern.len() as int));
        }
        let rest = s.drop_first();
        assert(rest.subrange(j - 1, j - 1 + pattern.len()) =~= s.subrange(j, j + pattern.len()));
        lemma_find_is_first(rest, pattern, j - 1);
    }
}

/// The first line ends before the first line feed, and before a carriage return that
/// stands there; what follows the line feed is the rest.
pub proof fn law_first_line_ends_at_the_line_feed(line: Seq<char>, rest: Seq<char>)
    requires
        forall|i: int| 0 <= i < line.len() ==> #[trigger] line[i] != '\n',
    ensures
        line.len() == 0 || line.last() != '\r' ==> first_line(line + seq!['\n'] + rest) == line,
        first_line(line + seq!['\r', '\n'] + rest) == line,
        first_line(line) == line,
        after_line(line + seq!['\n'] + rest) == rest,
        after_line(line + seq!['\r', '\n'] + rest) == rest,
        after_line(line).len() == 0,
{
    let a = line + seq!['\n'] + rest;
    let b = line + seq!['\r', '\n'] + rest;
    let n = line.len() as int;
    lemma_position_bounds(a, '\n');
    lemma_position_bounds(b, '\n');
    lemma_position_bounds(line, '\n');
    assert(a[n] == '\n');
    assert(b[n] == '\r');
    assert(b[n + 1] == '\n');
    assert forall|j: int| 0 <= j < n implies a[j] != '\n' && b[j] != '\n' by {
        assert(a[j] == line[j]);
        assert(b[j] == line[j]);
    }
    assert(position(a, '\n') == Some(n));
    assert(position(b, '\n') == Some(n + 1));
    assert(a.take(n) =~= line);
    assert(b.take(n) =~= line);
    assert(a.skip(n + 1) =~= rest);
    assert(b.skip(n + 2) =~= rest);
    if n > 0 {
        assert(a[n - 1] == line.last());
    }
}

/// A text that ends in some characters `c` is trimmed of them all, and of nothing else.
pub proof fn law_characters_at_the_end_are_taken(s: &[char], c: char, r: &[char])
    requires
        call_ensures(trim_end_chars, (s, c), r),
    ensures
        r@.len() <= s@.len(),
        r@ == s@.take(r@.len() as int),
        forall|i: int| r@.len() <= i < s@.len() ==> #[trigger] s@[i] == c,
        r@.len() > 0 ==> r@.last() != c,
{
    lemma_trim_end_char_bounds(s@, c);
}

proof fn lemma_trim_end_char_bounds(s: Seq<char>, c: char)
    ensures
        ({
            let r = trim_end_char(s, c);
            &&& r.len() <= s.len()
            &&& r == s.take(r.len() as int)
            &&& forall|i: int| r.len() <= i < s.len() ==> #[trigger] s[i] == c
            &&& r.len() > 0 ==> r.last() != c
        }),
    decreases s.len(),
{
    if s.len() > 0 && s.last() == c {
        let front = s.drop_last();
        lemma_trim_end_char_bounds(front, c);
        let r = trim_end_char(s, c);
        assert(front.take(r.len() as int) =~= s.take(r.len() as int));
        assert forall|i: int| r.len() <= i < s.len() implies #[trigger] s[i] == c by {
            if i < front.len() {
                assert(s[i] == front[i]);
            }
        }
    } else {
        assert(s.take(s.len() as int) =~= s);
    }
}

} // verus!
