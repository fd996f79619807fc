//! Text primitives with exact contracts over sequences of characters.
use vstd::prelude::*;

verus! {

/// `String::push`: appends one character to the end of the text.
pub assume_specification[ String::push ](s: &mut String, ch: char)
    ensures
        final(s)@ == old(s)@.push(ch),
;

/// `String::pop`: removes the last character and returns it, or returns `None`
/// and changes nothing where the text is empty.
pub assume_specification[ String::pop ](s: &mut String) -> (last: Option<char>)
    ensures
        old(s)@.len() == 0 ==> last is None && final(s)@ == old(s)@,
        old(s)@.len() > 0 ==> last == Some(old(s)@.last()) && final(s)@ == old(s)@.drop_last(),
;

/// The views of a sequence of texts.
pub open spec fn texts(items: Seq<String>) -> Seq<Seq<char>> {
    Seq::new(items.len(), |i: int| items[i]@)
}

/// The view of an optional text.
pub open spec fn opt_text(item: Option<String>) -> Option<Seq<char>> {
    match item {
        Some(value) => Some(value@),
        None => None,
    }
}

/// An owned copy of a text.
pub fn owned(value: &str) -> (r: String)
    ensures
        r@ == value@,
{
    value.to_owned()
}

/// A copy of an optional text.
pub fn copy_opt(value: &Option<String>) -> (r: Option<String>)
    ensures
        opt_text(r) == opt_text(*value),
{
    match value {
        Some(inner) => Some(inner.clone()),
        None => None,
    }
}

/// A copy of a list of texts.
pub fn copy_texts(items: &Vec<String>) -> (r: Vec<String>)
    ensures
        texts(r@) == texts(items@),
{
    let mut out: Vec<String> = Vec::new();
    let mut i: usize = 0;
    while i < items.len()
        invariant
            i <= items.len(),
            out.len() == i,
            forall|k: int| 0 <= k < i ==> out@[k]@ == items@[k]@,
        decreases items.len() - i,
    {
        out.push(items[i].clone());
        i += 1;
    }
    assert(texts(out@) =~= texts(items@));
    out
}

/// Whether two texts hold the same characters.
pub fn same(a: &str, b: &str) -> (r: bool)
    ensures
        r == (a@ == b@),
{
    let left: Vec<char> = chars_of(a);
    let right: Vec<char> = chars_of(b);
    same_chars(&left, &right)
}

/// Whether two lists of characters are equal.
pub fn same_chars(a: &Vec<char>, b: &Vec<char>) -> (r: bool)
    ensures
        r == (a@ == b@),
{
    if a.len() != b.len() {
        return false;
    }
    let mut i: usize = 0;
    while i < a.len()
        invariant
            i <= a.len(),
            a.len() == b.len(),
            forall|k: int| 0 <= k < i ==> a@[k] == b@[k],
        decreases a.len() - i,
    {
        if a[i] != b[i] {
            return false;
        }
        i += 1;
    }
    assert(a@ =~= b@);
    true
}

/// Whether two optional texts hold the same characters.
pub fn same_opt(a: &Option<String>, b: &Option<String>) -> (r: bool)
    ensures
        r == (opt_text(*a) == opt_text(*b)),
{
    match (a, b) {
        (Some(x), Some(y)) => same(x.as_str(), y.as_str()),
        (None, None) => true,
        _ => false,
    }
}

/// The characters of a text.
pub fn chars_of(value: &str) -> (r: Vec<char>)
    ensures
        r@ == value@,
{
    let mut out: Vec<char> = Vec::new();
    let total: usize = value.unicode_len();
    let mut i: usize = 0;
    while i < total
        invariant
            i <= total,
            total == value@.len(),
            out@ == value@.take(i as int),
        decreases total - i,
    {
        out.push(value.get_char(i));
        i += 1;
        assert(out@ =~= value@.take(i as int));
    }
    assert(value@.take(total as int) =~= value@);
    out
}

/// The text made of the characters from `from` up to `to`.
pub fn slice_text(chars: &Vec<char>, from: usize, to: usize) -> (r: String)
    requires
        from <= to <= chars.len(),
    ensures
        r@ == chars@.subrange(from as int, to as int),
{
    let mut out: String = String::new();
    let mut i: usize = from;
    while i < to
        invariant
            from <= i <= to <= chars.len(),
            out@ == chars@.subrange(from as int, i as int),
        decreases to - i,
    {
        out.push(chars[i]);
        i += 1;
        assert(out@ =~= chars@.subrange(from as int, i as int));
    }
    out
}

/// Two texts, one after the other.
pub fn join2(a: &str, b: &str) -> (r: String)
    ensures
        r@ == a@ + b@,
{
    let mut out: String = a.to_owned();
    out.append(b);
    out
}

/// Three texts, one after the other.
pub fn join3(a: &str, b: &str, c: &str) -> (r: String)
    ensures
        r@ == a@ + b@ + c@,
{
    let mut out: String = a.to_owned();
    out.append(b);
    out.append(c);
    out
}

/// Texts put one after the other with a separator between neighbours.
pub open spec fn joined(items: Seq<Seq<char>>, separator: Seq<char>) -> Seq<char>
    decreases items.len(),
{
    if items.len() == 0 {
        Seq::empty()
    } else if items.len() == 1 {
        items[0]
    } else {
        joined(items.drop_last(), separator) + separator + items.last()
    }
}

/// Joins texts with a separator.
pub fn join_with(items: &Vec<String>, separator: &str) -> (r: String)
    ensures
        r@ == joined(texts(items@), separator@),
{
    if items.len() == 0 {
        return String::new();
    }
    let mut out: String = items[0].clone();
    let mut i: usize = 1;
    assert(texts(items@.take(1)).len() == 1);
    while i < items.len()
        invariant
            1 <= i <= items.len(),
            out@ == joined(texts(items@.take(i as int)), separator@),
        decreases items.len() - i,
    {
        out.append(separator);
        out.append(items[i].as_str());
        proof {
            let next = texts(items@.take(i + 1));
            assert(next.drop_last() =~= texts(items@.take(i as int)));
            assert(next.last() == items@[i as int]@);
        }
        i += 1;
    }
    assert(items@.take(items.len() as int) =~= items@);
    out
}

// ---------------------------------------------------------------------------
// Characters
// ---------------------------------------------------------------------------

/// ASCII letters and digits.
pub open spec fn is_ascii_word_char(c: char) -> bool {
    ('a' <= c && c <= 'z') || ('A' <= c && c <= 'Z') || ('0' <= c && c <= '9')
}

/// Whether a character is an ASCII letter or digit.
pub fn ascii_word_char(c: char) -> (r: bool)
    ensures
        r == is_ascii_word_char(c),
{
    ('a' <= c && c <= 'z') || ('A' <= c && c <= 'Z') || ('0' <= c && c <= '9')
}

/// The lower case of an ASCII letter; any other character as it is.
pub open spec fn lower_char(c: char) -> char {
    if 'A' <= c && c <= 'Z' {
        ((c as u8) + 32) as char
    } else {
        c
    }
}

/// Lower case of one character.
pub fn to_lower_char(c: char) -> (r: char)
    ensures
        r == lower_char(c),
{
    if 'A' <= c && c <= 'Z' {
        let code: u8 = c as u8;
        (code + 32) as char
    } else {
        c
    }
}

/// The characters with the Unicode property White_Space.
pub open spec fn is_white(c: char) -> bool {
    ||| '\u{9}' <= c && c <= '\u{d}'
    ||| c == ' '
    ||| c == '\u{85}'
    ||| c == '\u{a0}'
    ||| c == '\u{1680}'
    ||| '\u{2000}' <= c && c <= '\u{200a}'
    ||| c == '\u{2028}'
    ||| c == '\u{2029}'
    ||| c == '\u{202f}'
    ||| c == '\u{205f}'
    ||| c == '\u{3000}'
}

/// Whether a character is white space.
pub fn white(c: char) -> (r: bool)
    ensures
        r == is_white(c),
{
    ('\u{9}' <= c && c <= '\u{d}') || c == ' ' || c == '\u{85}' || c == '\u{a0}' || c == '\u{1680}'
        || ('\u{2000}' <= c && c <= '\u{200a}') || c == '\u{2028}' || c == '\u{2029}' || c
        == '\u{202f}' || c == '\u{205f}' || c == '\u{3000}'
}

/// The control characters: the Unicode general category Cc.
pub open spec fn is_control(c: char) -> bool {
    c <= '\u{1f}' || ('\u{7f}' <= c && c <= '\u{9f}')
}

/// Whether a character is a control character.
pub fn control(c: char) -> (r: bool)
    ensures
        r == is_control(c),
{
    c <= '\u{1f}' || ('\u{7f}' <= c && c <= '\u{9f}')
}

// ---------------------------------------------------------------------------
// Case folding, trimming, searching
// ---------------------------------------------------------------------------

/// A text with its ASCII letters in lower case.
pub open spec fn lower(s: Seq<char>) -> Seq<char> {
    Seq::new(s.len(), |i: int| lower_char(s[i]))
}

/// Lower case of the ASCII letters of a text.
pub fn to_lower(value: &str) -> (r: String)
    ensures
        r@ == lower(value@),
{
    let chars: Vec<char> = chars_of(value);
    let mut out: String = String::new();
    let mut i: usize = 0;
    while i < chars.len()
        invariant
            i <= chars.len(),
            out@ == lower(chars@.take(i as int)),
        decreases chars.len() - i,
    {
        out.push(to_lower_char(chars[i]));
        i += 1;
        assert(out@ =~= lower(chars@.take(i as int)));
    }
    assert(chars@.take(chars.len() as int) =~= chars@);
    out
}

/// Whether two texts are the same up to the case of ASCII letters.
pub fn same_ignoring_case(a: &str, b: &str) -> (r: bool)
    ensures
        r == (lower(a@) == lower(b@)),
{
    let left: String = to_lower(a);
    let right: String = to_lower(b);
    same(left.as_str(), right.as_str())
}

/// A text without the white space at its start.
pub open spec fn trim_start(s: Seq<char>) -> Seq<char>
    decreases s.len(),
{
    if s.len() > 0 && is_white(s[0]) {
        trim_start(s.skip(1))
    } else {
        s
    }
}

/// A text without the white space at its end.
pub open spec fn trim_end(s: Seq<char>) -> Seq<char>
    decreases s.len(),
{
    if s.len() > 0 && is_white(s.last()) {
        trim_end(s.drop_last())
    } else {
        s
    }
}

/// A text without the white space at either end.
pub open spec fn trimmed(s: Seq<char>) -> Seq<char> {
    trim_end(trim_start(s))
}

/// Removes white space at both ends.
pub fn trim(value: &str) -> (r: String)
    ensures
        r@ == trimmed(value@),
{
    let chars: Vec<char> = chars_of(value);
    let mut from: usize = 0;
    assert(chars@.skip(0) =~= chars@);
    while from < chars.len() && white(chars[from])
        invariant
            from <= chars.len(),
            trim_start(chars@) == trim_start(chars@.skip(from as int)),
        decreases chars.len() - from,
    {
        assert(chars@.skip(from as int).skip(1) =~= chars@.skip(from + 1));
        from += 1;
    }
    let ghost rest = chars@.skip(from as int);
    let mut to: usize = chars.len();
    assert(rest.take(to - from) =~= rest);
    while to > from && white(chars[to - 1])
        invariant
            from <= to <= chars.len(),
            rest == chars@.skip(from as int),
            trim_end(rest) == trim_end(rest.take(to - from)),
        decreases to,
    {
        assert(rest.take(to - from).drop_last() =~= rest.take(to - 1 - from));
        assert(rest.take(to - from).last() == chars@[to - 1]);
        to -= 1;
    }
    assert(rest.take(to - from) =~= chars@.subrange(from as int, to as int));
    assert(to > from ==> rest.take(to - from).last() == chars@[to - 1]);
    slice_text(&chars, from, to)
}

/// Whether `needle` stands in `hay` at position `at`.
pub open spec fn occurs_at(hay: Seq<char>, needle: Seq<char>, at: int) -> bool {
    0 <= at && at + needle.len() <= hay.len() && hay.subrange(at, at + needle.len()) == needle
}

/// Whether `needle` stands somewhere in `hay`.
pub open spec fn has_text(hay: Seq<char>, needle: Seq<char>) -> bool {
    exists|at: int| #[trigger] occurs_at(hay, needle, at)
}

fn chars_at(hay: &Vec<char>, needle: &Vec<char>, at: usize) -> (r: bool)
    requires
        at + needle.len() <= hay.len(),
    ensures
        r == occurs_at(hay@, needle@, at as int),
{
    let mut i: usize = 0;
    while i < needle.len()
        invariant
            i <= needle.len(),
            at + needle.len() <= hay.len(),
            forall|k: int| 0 <= k < i ==> hay@[at + k] == needle@[k],
        decreases needle.len() - i,
    {
        if hay[at + i] != needle[i] {
            assert(hay@.subrange(at as int, at + needle.len())[i as int] != needle@[i as int]);
            return false;
        }
        i += 1;
    }
    assert(hay@.subrange(at as int, at + needle.len()) =~= needle@);
    true
}

/// Whether a text stands somewhere in another.
pub fn contains(hay: &str, needle: &str) -> (r: bool)
    ensures
        r == has_text(hay@, needle@),
{
    let h: Vec<char> = chars_of(hay);
    let n: Vec<char> = chars_of(needle);
    if n.len() > h.len() {
        return false;
    }
    let last: usize = h.len() - n.len();
    let mut at: usize = 0;
    while at <= last
        invariant
            h@ == hay@,
            n@ == needle@,
            n.len() <= h.len(),
            last == h.len() - n.len(),
            at <= last + 1,
            forall|k: int| 0 <= k < at ==> !occurs_at(h@, n@, k),
        decreases last + 1 - at,
    {
        if chars_at(&h, &n, at) {
            return true;
        }
        if at == last {
            assert forall|k: int| !occurs_at(h@, n@, k) by {
                if k > last {
                    assert(k + n@.len() > h@.len());
                }
            }
            return false;
        }
        at += 1;
    }
    false
}

/// Whether a text starts with another.
pub open spec fn has_prefix(s: Seq<char>, prefix: Seq<char>) -> bool {
    occurs_at(s, prefix, 0)
}

/// Whether a text starts with another.
pub fn starts_with(value: &str, prefix: &str) -> (r: bool)
    ensures
        r == has_prefix(value@, prefix@),
{
    let v: Vec<char> = chars_of(value);
    let p: Vec<char> = chars_of(prefix);
    if p.len() > v.len() {
        return false;
    }
    chars_at(&v, &p, 0)
}

/// What follows a prefix, where the text starts with it.
pub fn strip_prefix(value: &str, prefix: &str) -> (r: Option<String>)
    ensures
        has_prefix(value@, prefix@) ==> r is Some && r->0@ == value@.skip(prefix@.len() as int),
        !has_prefix(value@, prefix@) ==> r is None,
{
    if !starts_with(value, prefix) {
        return None;
    }
    let v: Vec<char> = chars_of(value);
    let n: usize = prefix.unicode_len();
    assert(v@.subrange(n as int, v.len() as int) =~= value@.skip(prefix@.len() as int));
    Some(slice_text(&v, n, v.len()))
}

// ---------------------------------------------------------------------------
// Numbers
// ---------------------------------------------------------------------------

/// The character of a decimal digit.
pub open spec fn digit_char(d: nat) -> char {
    (48 + d) as char
}

/// A number written in decimal, without leading zeros.
pub open spec fn decimal_text(n: nat) -> Seq<char>
    decreases n,
{
    if n < 10 {
        seq![digit_char(n)]
    } else {
        decimal_text(n / 10).push(digit_char(n % 10))
    }
}

/// Writes a number in decimal.
pub fn decimal(n: u64) -> (r: String)
    ensures
        r@ == decimal_text(n as nat),
    decreases n,
{
    let digit: u8 = (n % 10) as u8;
    let ch: char = (48 + digit) as char;
    if n < 10 {
        let mut out: String = String::new();
        out.push(ch);
        assert(out@ =~= decimal_text(n as nat));
        out
    } else {
        let mut out: String = decimal(n / 10);
        out.push(ch);
        out
    }
}

/// The character of a hexadecimal digit, in lower case.
pub open spec fn hex_char(d: nat) -> char {
    if d < 10 {
        (48 + d) as char
    } else {
        (87 + d) as char
    }
}

/// The lowest `width` hexadecimal digits of a number, with leading zeros.
pub open spec fn hex_text(n: nat, width: nat) -> Seq<char>
    decreases width,
{
    if width == 0 {
        Seq::empty()
    } else {
        hex_text(n / 16, (width - 1) as nat).push(hex_char(n % 16))
    }
}

/// Writes the lowest `width` hexadecimal digits of a number.
pub fn hex(n: u64, width: usize) -> (r: String)
    ensures
        r@ == hex_text(n as nat, width as nat),
    decreases width,
{
    if width == 0 {
        String::new()
    } else {
        let mut out: String = hex(n / 16, width - 1);
        let digit: u8 = (n % 16) as u8;
        let ch: char = if digit < 10 {
            (48 + digit) as char
        } else {
            (87 + digit) as char
        };
        out.push(ch);
        out
    }
}

/// Whether a character is a decimal digit.
pub open spec fn is_digit(c: char) -> bool {
    '0' <= c && c <= '9'
}

/// The number that a run of decimal digits stands for.
pub open spec fn digits_value(s: Seq<char>) -> nat
    decreases s.len(),
{
    if s.len() == 0 {
        0
    } else {
        digits_value(s.drop_last()) * 10 + (s.last() as nat - 48) as nat
    }
}

/// Whether a text is one or more decimal digits.
pub open spec fn all_digits(s: Seq<char>) -> bool {
    s.len() > 0 && (forall|i: int| 0 <= i < s.len() ==> is_digit(#[trigger] s[i]))
}

/// A text without one plus sign at its start.
pub open spec fn without_plus(s: Seq<char>) -> Seq<char> {
    if s.len() > 0 && s[0] == '+' {
        s.skip(1)
    } else {
        s
    }
}

/// A number as read from a text: an optional plus sign and then one or more
/// decimal digits.
pub open spec fn number_of(s: Seq<char>) -> Option<nat> {
    if all_digits(without_plus(s)) {
        Some(digits_value(without_plus(s)))
    } else {
        None
    }
}

/// Reads a number; `None` where the text is no number or the number is too large.
pub fn parse_u64(value: &str) -> (r: Option<u64>)
    ensures
        match number_of(value@) {
            Some(n) => if n <= u64::MAX {
                r == Some(n as u64)
            } else {
                r is None
            },
            None => r is None,
        },
{
    let chars: Vec<char> = chars_of(value);
    let start: usize = if chars.len() > 0 && chars[0] == '+' {
        1
    } else {
        0
    };
    let ghost body = without_plus(chars@);
    assert(body =~= chars@.skip(start as int));
    if start == chars.len() {
        return None;
    }
    let mut acc: Option<u64> = Some(0);
    let mut i: usize = start;
    assert(body.take(0) =~= Seq::<char>::empty());
    while i < chars.len()
        invariant
            start <= i <= chars.len(),
            start < chars.len(),
            chars@ == value@,
            body == chars@.skip(start as int),
            body == without_plus(value@),
            forall|k: int| 0 <= k < i - start ==> is_digit(#[trigger] body[k]),
            digits_value(body.take(i - start)) <= u64::MAX ==> acc == Some(
                digits_value(body.take(i - start)) as u64,
            ),
            digits_value(body.take(i - start)) > u64::MAX ==> acc is None,
        decreases chars.len() - i,
    {
        let c: char = chars[i];
        assert(c == body[i - start]);
        if !('0' <= c && c <= '9') {
            assert(!is_digit(body[i - start]));
            assert(!all_digits(body));
            return None;
        }
        let digit: u64 = (c as u64) - 48;
        let ghost before = digits_value(body.take(i - start));
        proof {
            assert(body.take(i + 1 - start).drop_last() =~= body.take(i - start));
            assert(digits_value(body.take(i + 1 - start)) == before * 10 + digit);
        }
        acc = match acc {
            Some(total) => {
                if total > (u64::MAX - digit) / 10 {
                    None
                } else {
                    Some(total * 10 + digit)
                }
            },
            None => None,
        };
        i += 1;
    }
    assert(body.take(chars.len() - start) =~= body);
    acc
}

proof fn lemma_decimal_digits(n: nat)
    ensures
        decimal_text(n).len() > 0,
        forall|i: int| 0 <= i < decimal_text(n).len() ==> is_digit(#[trigger] decimal_text(n)[i]),
        digits_value(decimal_text(n)) == n,
    decreases n,
{
    if n < 10 {
        assert(decimal_text(n).drop_last() =~= Seq::<char>::empty());
        assert(digits_value(Seq::<char>::empty()) == 0);
        assert(digits_value(decimal_text(n)) == digits_value(decimal_text(n).drop_last()) * 10 + (
        decimal_text(n).last() as nat - 48) as nat);
    } else {
        lemma_decimal_digits(n / 10);
        assert(decimal_text(n).drop_last() =~= decimal_text(n / 10));
    }
}

/// Reading back a number that was written in decimal gives that number.
pub proof fn law_decimal_round_trip(n: nat)
    ensures
        number_of(decimal_text(n)) == Some(n),
{
    lemma_decimal_digits(n);
    assert(is_digit(decimal_text(n)[0]));
}

// ---------------------------------------------------------------------------
// Lines and paths
// ---------------------------------------------------------------------------

/// The pieces of a text between the occurrences of a separator; there is one more
/// piece than there are separators.
pub open spec fn pieces(s: Seq<char>, separator: char) -> Seq<Seq<char>>
    decreases s.len(),
{
    if s.len() == 0 {
        seq![Seq::empty()]
    } else {
        let before = pieces(s.drop_last(), separator);
        if s.last() == separator {
            before.push(Seq::empty())
        } else {
            before.drop_last().push(before.last().push(s.last()))
        }
    }
}

proof fn lemma_pieces_nonempty(s: Seq<char>, separator: char)
    ensures
        pieces(s, separator).len() > 0,
    decreases s.len(),
{
    if s.len() > 0 {
        lemma_pieces_nonempty(s.drop_last(), separator);
    }
}

/// Splits a text at a separator.
pub fn split_at_char(value: &str, separator: char) -> (r: Vec<String>)
    ensures
        texts(r@) == pieces(value@, separator),
        r.len() > 0,
{
    let chars: Vec<char> = chars_of(value);
    let mut done: Vec<String> = Vec::new();
    let mut current: String = String::new();
    let mut i: usize = 0;
    assert(texts(done@).push(current@) =~= pieces(chars@.take(0), separator));
    while i < chars.len()
        invariant
            i <= chars.len(),
            texts(done@).push(current@) == pieces(chars@.take(i as int), separator),
        decreases chars.len() - i,
    {
        let c: char = chars[i];
        let ghost before = texts(done@).push(current@);
        proof {
            assert(chars@.take(i + 1).drop_last() =~= chars@.take(i as int));
            assert(chars@.take(i + 1).last() == c);
        }
        if c == separator {
            done.push(current);
            current = String::new();
            assert(texts(done@).push(current@) =~= before.push(Seq::empty()));
        } else {
            current.push(c);
            assert(texts(done@).push(current@) =~= before.drop_last().push(before.last().push(c)));
        }
        i += 1;
    }
    assert(chars@.take(chars.len() as int) =~= chars@);
    let ghost all = texts(done@).push(current@);
    done.push(current);
    assert(texts(done@) =~= all);
    done
}

/// A text without one carriage return at its end.
pub open spec fn without_return(s: Seq<char>) -> Seq<char> {
    if s.len() > 0 && s.last() == '\r' {
        s.drop_last()
    } else {
        s
    }
}

/// The lines of a text. A line ends at a line feed, which may follow a carriage
/// return; the last line may lack its line ending.
pub open spec fn lines_of(s: Seq<char>) -> Seq<Seq<char>> {
    let all = pieces(s, '\n');
    let ended = Seq::new((all.len() - 1) as nat, |i: int| without_return(all[i]));
    if all.last().len() == 0 {
        ended
    } else {
        ended.push(all.last())
    }
}

/// Splits a text into its lines.
pub fn lines(value: &str) -> (r: Vec<String>)
    ensures
        texts(r@) == lines_of(value@),
{
    let all: Vec<String> = split_at_char(value, '\n');
    let mut out: Vec<String> = Vec::new();
    let last: usize = all.len() - 1;
    let mut i: usize = 0;
    while i < last
        invariant
            i <= last,
            last == all.len() - 1,
            out.len() == i,
            forall|k: int| 0 <= k < i ==> (#[trigger] out@[k])@ == without_return(all@[k]@),
        decreases last - i,
    {
        let mut line: String = all[i].clone();
        let chars: Vec<char> = chars_of(all[i].as_str());
        if chars.len() > 0 && chars[chars.len() - 1] == '\r' {
            let _ = line.pop();
        }
        out.push(line);
        i += 1;
    }
    let tail: String = all[last].clone();
    let ghost ended = texts(out@);
    proof {
        let spec_all = pieces(value@, '\n');
        assert(texts(all@) == spec_all);
        assert(ended =~= Seq::new((spec_all.len() - 1) as nat, |k: int| without_return(spec_all[k])));
        assert(spec_all.last() == tail@);
    }
    if tail.unicode_len() > 0 {
        out.push(tail);
        assert(texts(out@) =~= ended.push(tail@));
    }
    out
}

/// Whether a list of texts holds a text.
pub fn has_item(items: &Vec<String>, wanted: &str) -> (r: bool)
    ensures
        r == texts(items@).contains(wanted@),
{
    let mut i: usize = 0;
    while i < items.len()
        invariant
            i <= items.len(),
            forall|k: int| 0 <= k < i ==> (#[trigger] items@[k])@ != wanted@,
        decreases items.len() - i,
    {
        if same(items[i].as_str(), wanted) {
            assert(texts(items@)[i as int] == wanted@);
            return true;
        }
        i += 1;
    }
    assert forall|k: int| 0 <= k < texts(items@).len() implies texts(items@)[k] != wanted@ by {
        assert(items@[k]@ != wanted@);
    }
    false
}

/// The last of the components of a path that names something: neither empty nor a
/// single dot.
pub open spec fn last_component(parts: Seq<Seq<char>>) -> Option<Seq<char>>
    decreases parts.len(),
{
    if parts.len() == 0 {
        None
    } else if parts.last().len() == 0 || parts.last() == seq!['.'] {
        last_component(parts.drop_last())
    } else {
        Some(parts.last())
    }
}

/// The name of the file that a path ends in. A path without components has none,
/// nor has one that ends in `..`.
pub open spec fn file_name_of(path: Seq<char>) -> Option<Seq<char>> {
    match last_component(pieces(path, '/')) {
        Some(name) => if name == seq!['.', '.'] {
            None
        } else {
            Some(name)
        },
        None => None,
    }
}

/// The name of the file that a path ends in.
pub fn file_name(path: &str) -> (r: Option<String>)
    ensures
        opt_text(r) == file_name_of(path@),
{
    let parts: Vec<String> = split_at_char(path, '/');
    let mut n: usize = parts.len();
    assert(texts(parts@).take(n as int) =~= texts(parts@));
    while n > 0
        invariant
            n <= parts.len(),
            texts(parts@) == pieces(path@, '/'),
            last_component(texts(parts@)) == last_component(texts(parts@).take(n as int)),
        decreases n,
    {
        let chars: Vec<char> = chars_of(parts[n - 1].as_str());
        proof {
            assert(texts(parts@).take(n as int).last() == chars@);
            assert(texts(parts@).take(n as int).drop_last() =~= texts(parts@).take(n - 1));
        }
        let dot: bool = chars.len() == 1 && chars[0] == '.';
        assert(dot == (chars@ =~= seq!['.']));
        if chars.len() > 0 && !dot {
            let up: bool = chars.len() == 2 && chars[0] == '.' && chars[1] == '.';
            assert(up == (chars@ =~= seq!['.', '.']));
            if up {
                return None;
            }
            return Some(parts[n - 1].clone());
        }
        n -= 1;
    }
    None
}

/// Whether two lists hold the same texts.
pub fn same_texts(a: &Vec<String>, b: &Vec<String>) -> (r: bool)
    ensures
        r == (texts(a@) == texts(b@)),
{
    let ghost x = texts(a@);
    let ghost y = texts(b@);
    if a.len() != b.len() {
        assert(x.len() != y.len());
        return false;
    }
    let mut i: usize = 0;
    while i < a.len()
        invariant
            i <= a.len(),
            a.len() == b.len(),
            x == texts(a@),
            y == texts(b@),
            forall|k: int| 0 <= k < i ==> x[k] == y[k],
        decreases a.len() - i,
    {
        if !same(a[i].as_str(), b[i].as_str()) {
            assert(x[i as int] != y[i as int]);
            return false;
        }
        i += 1;
    }
    assert(x =~= y);
    true
}

/// The components among the first `n` pieces of a path: empty pieces do not count, nor does a
/// dot, unless the path starts with it.
pub open spec fn components_of(all: Seq<Seq<char>>, n: nat) -> Seq<Seq<char>>
    decreases n,
{
    if n == 0 {
        Seq::empty()
    } else {
        let before = components_of(all, (n - 1) as nat);
        if all[n - 1].len() == 0 || (n > 1 && all[n - 1] == seq!['.']) {
            before
        } else {
            before.push(all[n - 1])
        }
    }
}

/// The components of a path.
pub open spec fn components(path: Seq<char>) -> Seq<Seq<char>> {
    components_of(pieces(path, '/'), pieces(path, '/').len())
}

/// Whether a path starts at the root.
pub open spec fn is_rooted(path: Seq<char>) -> bool {
    path.len() > 0 && path[0] == '/'
}

/// A path in its plainest spelling: its components with one slash between neighbours, and one
/// before them where the path starts at the root.
pub open spec fn bare_path(path: Seq<char>) -> Seq<char> {
    if is_rooted(path) {
        "/"@ + joined(components(path), "/"@)
    } else {
        joined(components(path), "/"@)
    }
}

/// Whether two paths are the same, however they are spelled.
pub open spec fn same_path(a: Seq<char>, b: Seq<char>) -> bool {
    bare_path(a) == bare_path(b)
}

fn path_components(path: &str) -> (r: Vec<String>)
    ensures
        texts(r@) == components(path@),
{
    let parts: Vec<String> = split_at_char(path, '/');
    let ghost all = pieces(path@, '/');
    let mut out: Vec<String> = Vec::new();
    let mut i: usize = 0;
    assert(texts(out@) =~= components_of(all, 0));
    while i < parts.len()
        invariant
            i <= parts.len(),
            all == texts(parts@),
            texts(out@) == components_of(all, i as nat),
        decreases parts.len() - i,
    {
        let chars: Vec<char> = chars_of(parts[i].as_str());
        assert(all[i as int] == chars@);
        let dot: bool = chars.len() == 1 && chars[0] == '.';
        assert(dot == (chars@ =~= seq!['.']));
        if chars.len() > 0 && !(dot && i > 0) {
            let ghost before = texts(out@);
            out.push(parts[i].clone());
            assert(texts(out@) =~= before.push(all[i as int]));
        }
        i += 1;
    }
    out
}

fn starts_at_root(path: &str) -> (r: bool)
    ensures
        r == is_rooted(path@),
{
    let chars: Vec<char> = chars_of(path);
    chars.len() > 0 && chars[0] == '/'
}

/// A path in its plainest spelling.
pub fn bare(path: &str) -> (r: String)
    ensures
        r@ == bare_path(path@),
{
    let parts: Vec<String> = path_components(path);
    let rest: String = join_with(&parts, "/");
    if starts_at_root(path) {
        join2("/", rest.as_str())
    } else {
        rest
    }
}

/// Whether two paths are the same, however they are spelled.
pub fn is_same_path(a: &str, b: &str) -> (r: bool)
    ensures
        r == same_path(a@, b@),
{
    let x: String = bare(a);
    let y: String = bare(b);
    same(x.as_str(), y.as_str())
}

/// Two paths are the same if and only if they start at the same place and go through the same
/// components; so a slash behind a path makes no difference.
pub proof fn law_paths_are_compared_by_components(a: Seq<char>, b: Seq<char>)
    ensures
        same_path(a, b) <==> is_rooted(a) == is_rooted(b) && components(a) == components(b),
        a.len() > 0 ==> same_path(a, a.push('/')),
{
    lemma_bare_path(a);
    lemma_bare_path(b);
    let longer = a.push('/');
    let all = pieces(longer, '/');
    assert(longer.drop_last() =~= a);
    assert(all == pieces(a, '/').push(Seq::empty()));
    lemma_components_of_prefix(pieces(a, '/'), Seq::empty(), pieces(a, '/').len());
}

/// The plainest spelling of a path is a spelling of that path.
pub proof fn law_bare_path_is_the_same(path: Seq<char>)
    ensures
        bare_path(bare_path(path)) == bare_path(path),
{
    lemma_bare_path(path);
}

proof fn lemma_components_of_prefix(all: Seq<Seq<char>>, more: Seq<char>, n: nat)
    requires
        n <= all.len(),
    ensures
        components_of(all.push(more), n) == components_of(all, n),
    decreases n,
{
    if n > 0 {
        lemma_components_of_prefix(all, more, (n - 1) as nat);
    }
}

/// Whether a text can be a component: it is not empty, and no slash stands in it.
spec fn is_component(part: Seq<char>) -> bool {
    part.len() > 0 && !part.contains('/')
}

proof fn lemma_pieces_have_no_separator(s: Seq<char>, separator: char)
    ensures
        pieces(s, separator).len() > 0,
        forall|k: int|
            0 <= k < pieces(s, separator).len() ==> !(#[trigger] pieces(s, separator)[k]).contains(
                separator,
            ),
    decreases s.len(),
{
    if s.len() > 0 {
        lemma_pieces_have_no_separator(s.drop_last(), separator);
        let before = pieces(s.drop_last(), separator);
        let all = pieces(s, separator);
        assert forall|k: int| 0 <= k < all.len() implies !(#[trigger] all[k]).contains(
            separator,
        ) by {
            if k < before.len() - 1 {
                assert(all[k] == before[k]);
            } else if s.last() == separator {
                if k < before.len() {
                    assert(all[k] == before[k]);
                }
            } else {
                assert(all[k] == before.last().push(s.last()));
                assert(before.last() == before[before.len() - 1]);
                if all[k].contains(separator) {
                    let j = choose|j: int| 0 <= j < all[k].len() && all[k][j] == separator;
                    assert(before.last()[j] == separator);
                }
            }
        }
    }
}

proof fn lemma_components_of(all: Seq<Seq<char>>, n: nat)
    requires
        n <= all.len(),
        forall|k: int| 0 <= k < all.len() ==> !(#[trigger] all[k]).contains('/'),
    ensures
        forall|k: int|
            0 <= k < components_of(all, n).len() ==> is_component(
                #[trigger] components_of(all, n)[k],
            ),
        forall|k: int|
            0 < k < components_of(all, n).len() ==> #[trigger] components_of(all, n)[k] != seq!['.'],
        all.len() > 0 && all[0].len() == 0 && components_of(all, n).len() > 0 ==> components_of(
            all,
            n,
        )[0] != seq!['.'],
        n > 0 && all[0].len() > 0 ==> components_of(all, n).len() > 0,
        n == 1 ==> components_of(all, n).len() <= 1,
    decreases n,
{
    if n > 0 {
        lemma_components_of(all, (n - 1) as nat);
        let before = components_of(all, (n - 1) as nat);
        let now = components_of(all, n);
        if n == 1 {
            assert(before.len() == 0);
        }
        assert forall|k: int| 0 <= k < now.len() implies is_component(#[trigger] now[k]) by {
            if k < before.len() {
                assert(now[k] == before[k]);
            }
        }
        assert forall|k: int| 0 < k < now.len() implies #[trigger] now[k] != seq!['.'] by {
            if k < before.len() {
                assert(now[k] == before[k]);
            }
        }
    }
}

proof fn lemma_pieces_of_one(s: Seq<char>, separator: char)
    requires
        !s.contains(separator),
    ensures
        pieces(s, separator) == seq![s],
    decreases s.len(),
{
    if s.len() == 0 {
        assert(s =~= Seq::empty());
    } else {
        assert forall|j: int| 0 <= j < s.drop_last().len() implies s.drop_last()[j]
            != separator by {
            assert(s.contains(s[j]));
        }
        lemma_pieces_of_one(s.drop_last(), separator);
        assert(s.contains(s[s.len() - 1]));
        assert(s.drop_last().push(s.last()) =~= s);
        assert(pieces(s, separator) =~= seq![s]);
    }
}

proof fn lemma_pieces_of_more(s: Seq<char>, separator: char, last: Seq<char>)
    requires
        !last.contains(separator),
    ensures
        pieces(s + seq![separator] + last, separator) == pieces(s, separator).push(last),
    decreases last.len(),
{
    let whole = s + seq![separator] + last;
    lemma_pieces_have_no_separator(s, separator);
    if last.len() == 0 {
        assert(last =~= Seq::empty());
        assert(whole.drop_last() =~= s);
        assert(whole.last() == separator);
    } else {
        assert(whole.drop_last() =~= s + seq![separator] + last.drop_last());
        assert(whole.last() == last.last());
        assert forall|j: int| 0 <= j < last.drop_last().len() implies last.drop_last()[j]
            != separator by {
            assert(last.contains(last[j]));
        }
        assert(last.contains(last[last.len() - 1]));
        lemma_pieces_of_more(s, separator, last.drop_last());
        let before = pieces(whole.drop_last(), separator);
        assert(before == pieces(s, separator).push(last.drop_last()));
        assert(before.drop_last() =~= pieces(s, separator));
        assert(last.drop_last().push(last.last()) =~= last);
    }
}

proof fn lemma_pieces_of_joined(parts: Seq<Seq<char>>)
    requires
        parts.len() > 0,
        forall|k: int| 0 <= k < parts.len() ==> is_component(#[trigger] parts[k]),
    ensures
        pieces(joined(parts, "/"@), '/') == parts,
        joined(parts, "/"@).len() > 0,
        joined(parts, "/"@)[0] == parts[0][0],
    decreases parts.len(),
{
    reveal_strlit("/");
    assert("/"@ =~= seq!['/']);
    if parts.len() == 1 {
        lemma_pieces_of_one(parts[0], '/');
        assert(seq![parts[0]] =~= parts);
    } else {
        let init = parts.drop_last();
        assert forall|k: int| 0 <= k < init.len() implies is_component(#[trigger] init[k]) by {
            assert(init[k] == parts[k]);
        }
        lemma_pieces_of_joined(init);
        assert(is_component(parts[parts.len() - 1]));
        lemma_pieces_of_more(joined(init, "/"@), '/', parts.last());
        assert(init.push(parts.last()) =~= parts);
    }
}

proof fn lemma_pieces_behind_separator(s: Seq<char>, separator: char)
    ensures
        pieces(seq![separator] + s, separator) == seq![Seq::<char>::empty()] + pieces(
            s,
            separator,
        ),
    decreases s.len(),
{
    let whole = seq![separator] + s;
    lemma_pieces_have_no_separator(s, separator);
    if s.len() == 0 {
        assert(whole.drop_last() =~= Seq::empty());
        assert(pieces(whole.drop_last(), separator) =~= seq![Seq::<char>::empty()]);
        assert(whole.last() == separator);
        assert(pieces(whole, separator) =~= seq![Seq::<char>::empty()] + pieces(s, separator));
    } else {
        lemma_pieces_behind_separator(s.drop_last(), separator);
        lemma_pieces_have_no_separator(s.drop_last(), separator);
        assert(whole.drop_last() =~= seq![separator] + s.drop_last());
        assert(whole.last() == s.last());
        let before = pieces(s.drop_last(), separator);
        let longer = seq![Seq::<char>::empty()] + before;
        assert(longer.last() == before.last());
        assert(longer.drop_last() =~= seq![Seq::<char>::empty()] + before.drop_last());
        if s.last() == separator {
            assert(longer.push(Seq::empty()) =~= seq![Seq::<char>::empty()] + before.push(
                Seq::empty(),
            ));
        } else {
            let end = before.last().push(s.last());
            assert(longer.drop_last().push(end) =~= seq![Seq::<char>::empty()]
                + before.drop_last().push(end));
        }
    }
}

/// All pieces count where each is a component, and none but the first a dot.
proof fn lemma_components_of_parts(parts: Seq<Seq<char>>, n: nat)
    requires
        n <= parts.len(),
        forall|k: int| 0 <= k < parts.len() ==> is_component(#[trigger] parts[k]),
        forall|k: int| 0 < k < parts.len() ==> #[trigger] parts[k] != seq!['.'],
    ensures
        components_of(parts, n) == parts.take(n as int),
    decreases n,
{
    if n > 0 {
        lemma_components_of_parts(parts, (n - 1) as nat);
        assert(is_component(parts[n - 1]));
        assert(parts.take(n as int) =~= parts.take(n - 1).push(parts[n - 1]));
    } else {
        assert(parts.take(0) =~= Seq::empty());
    }
}

proof fn lemma_components_behind_empty(parts: Seq<Seq<char>>, n: nat)
    requires
        n <= parts.len(),
        forall|k: int| 0 <= k < parts.len() ==> is_component(#[trigger] parts[k]),
        forall|k: int| 0 <= k < parts.len() ==> #[trigger] parts[k] != seq!['.'],
    ensures
        components_of(seq![Seq::<char>::empty()] + parts, n + 1) == parts.take(n as int),
    decreases n,
{
    let all = seq![Seq::<char>::empty()] + parts;
    if n > 0 {
        lemma_components_behind_empty(parts, (n - 1) as nat);
        assert(all[n as int] == parts[n - 1]);
        assert(is_component(parts[n - 1]));
        assert(parts.take(n as int) =~= parts.take(n - 1).push(parts[n - 1]));
    } else {
        assert(all[0].len() == 0);
        assert(components_of(all, 0) =~= Seq::empty());
        assert(components_of(all, 1) =~= Seq::empty());
        assert(parts.take(0) =~= Seq::empty());
    }
}

proof fn lemma_first_piece(path: Seq<char>)
    requires
        path.len() > 0,
    ensures
        (pieces(path, '/')[0].len() == 0) == (path[0] == '/'),
        path[0] == '/' ==> pieces(path, '/').len() > 1,
    decreases path.len(),
{
    lemma_pieces_have_no_separator(path.drop_last(), '/');
    if path.len() == 1 {
        let none = pieces(path.drop_last(), '/');
        assert(path.drop_last() =~= Seq::empty());
        assert(none =~= seq![Seq::<char>::empty()]);
        assert(path.last() == path[0]);
    } else {
        assert(path.drop_last()[0] == path[0]);
        lemma_first_piece(path.drop_last());
    }
}

proof fn lemma_bare_path(path: Seq<char>)
    ensures
        is_rooted(bare_path(path)) == is_rooted(path),
        components(bare_path(path)) == components(path),
{
    reveal_strlit("/");
    assert("/"@ =~= seq!['/']);
    let all = pieces(path, '/');
    let parts = components(path);
    let text = joined(parts, "/"@);
    lemma_pieces_have_no_separator(path, '/');
    lemma_components_of(all, all.len());
    if path.len() > 0 {
        lemma_first_piece(path);
    }
    if is_rooted(path) {
        lemma_pieces_behind_separator(text, '/');
        assert forall|k: int| 0 <= k < parts.len() implies #[trigger] parts[k] != seq!['.'] by {}
        if parts.len() > 0 {
            lemma_pieces_of_joined(parts);
            lemma_components_behind_empty(parts, parts.len());
            assert((seq![Seq::<char>::empty()] + parts).len() == parts.len() + 1);
            assert(parts.take(parts.len() as int) =~= parts);
        } else {
            assert(text =~= Seq::empty());
            let both = seq![Seq::<char>::empty()] + seq![Seq::<char>::empty()];
            assert(pieces(text, '/') =~= seq![Seq::<char>::empty()]);
            assert(pieces(bare_path(path), '/') =~= both);
            assert(both[0].len() == 0 && both[1].len() == 0);
            assert(components_of(both, 0) =~= Seq::empty());
            assert(components_of(both, 1) =~= Seq::empty());
            assert(components_of(both, 2) =~= Seq::empty());
            assert(parts =~= Seq::empty());
        }
    } else if parts.len() > 0 {
        lemma_pieces_of_joined(parts);
        lemma_components_of_parts(parts, parts.len());
        assert(parts.take(parts.len() as int) =~= parts);
        assert(is_component(parts[0]));
        assert(parts[0].contains(parts[0][0]));
    } else {
        let one = seq![Seq::<char>::empty()];
        assert(text =~= Seq::empty());
        assert(pieces(text, '/') =~= one);
        assert(one[0].len() == 0);
        assert(components_of(one, 0) =~= Seq::empty());
        assert(components_of(one, 1) =~= Seq::empty());
        assert(parts =~= Seq::empty());
    }
}

/// Texts with the same pieces are the same.
pub proof fn lemma_pieces_tell_texts_apart(a: Seq<char>, b: Seq<char>, separator: char)
    requires
        pieces(a, separator) == pieces(b, separator),
    ensures
        a == b,
    decreases a.len(),
{
    if a.len() > 0 {
        lemma_pieces_nonempty(a.drop_last(), separator);
    }
    if b.len() > 0 {
        lemma_pieces_nonempty(b.drop_last(), separator);
    }
    if a.len() == 0 || b.len() == 0 {
        if a.len() == 0 && b.len() == 0 {
            assert(a =~= b);
        } else {
            let longer = if a.len() == 0 {
                b
            } else {
                a
            };
            assert(pieces(longer, separator).len() == 1);
            assert(pieces(longer, separator)[0].len() == 0);
            assert(longer.last() != separator);
            assert(pieces(longer, separator).last().len() > 0);
        }
    } else {
        let x = pieces(a.drop_last(), separator);
        let y = pieces(b.drop_last(), separator);
        let p = pieces(a, separator);
        if a.last() == separator {
            assert(p.last().len() == 0);
            assert(b.last() == separator);
            assert(x =~= p.drop_last());
            assert(y =~= p.drop_last());
        } else {
            assert(p.last() == x.last().push(a.last()));
            assert(b.last() != separator);
            assert(p.last() == y.last().push(b.last()));
            assert(x.last() =~= p.last().drop_last());
            assert(y.last() =~= p.last().drop_last());
            assert(p.last().last() == a.last());
            assert(p.last().last() == b.last());
            assert(x.drop_last() =~= p.drop_last());
            assert(y.drop_last() =~= p.drop_last());
            assert(x =~= x.drop_last().push(x.last()));
            assert(y =~= y.drop_last().push(y.last()));
        }
        lemma_pieces_tell_texts_apart(a.drop_last(), b.drop_last(), separator);
        assert(a =~= a.drop_last().push(a.last()));
        assert(b =~= b.drop_last().push(b.last()));
    }
}

} // verus!
