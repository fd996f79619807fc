//! What holds of texts, names, numbers and command lines.
use vstd::prelude::*;

use crate::shell::words_of;
use crate::text::decimal_text;
use crate::text::file_name_of;
use crate::text::has_prefix;
use crate::text::has_text;
use crate::text::is_white;
use crate::text::joined;
use crate::text::lines_of;
use crate::text::lower;
use crate::text::pieces;
use crate::text::trimmed;

verus! {

// ---------------------------------------------------------------------------
// Case and white space
// ---------------------------------------------------------------------------

/// Lower case changes the letters from A to Z and nothing else.
pub proof fn law_lower_case(s: Seq<char>, i: int)
    requires
        0 <= i < s.len(),
    ensures
        lower(s).len() == s.len(),
        !('A' <= s[i] && s[i] <= 'Z') ==> lower(s)[i] == s[i],
        'A' <= s[i] && s[i] <= 'Z' ==> lower(s)[i] as u32 == s[i] as u32 + 32,
        lower(lower(s)) == lower(s),
{
    assert forall|k: int| 0 <= k < s.len() implies #[trigger] lower(lower(s))[k]
        == lower(s)[k] by {}
    assert(lower(lower(s)) =~= lower(s));
}

proof fn lemma_trim_start(s: Seq<char>)
    ensures
        exists|k: int|
            0 <= k <= s.len() && #[trigger] s.skip(k) == crate::text::trim_start(s) && forall|
                i: int,
            |
                0 <= i < k ==> is_white(#[trigger] s[i]),
        crate::text::trim_start(s).len() > 0 ==> !is_white(crate::text::trim_start(s)[0]),
    decreases s.len(),
{
    if s.len() > 0 && is_white(s[0]) {
        let rest = s.skip(1);
        lemma_trim_start(rest);
        let k = choose|k: int|
            0 <= k <= rest.len() && #[trigger] rest.skip(k) == crate::text::trim_start(rest)
                && forall|i: int| 0 <= i < k ==> is_white(#[trigger] rest[i]);
        assert(s.skip(k + 1) =~= rest.skip(k));
        assert forall|i: int| 0 <= i < k + 1 implies is_white(#[trigger] s[i]) by {
            if i > 0 {
                assert(rest[i - 1] == s[i]);
            }
        }
    } else {
        assert(s.skip(0) =~= s);
    }
}

proof fn lemma_trim_end(s: Seq<char>)
    ensures
        exists|k: int|
            0 <= k <= s.len() && #[trigger] s.take(k) == crate::text::trim_end(s) && forall|
                i: int,
            |
                k <= i < s.len() ==> is_white(#[trigger] s[i]),
        crate::text::trim_end(s).len() > 0 ==> !is_white(crate::text::trim_end(s).last()),
    decreases s.len(),
{
    if s.len() > 0 && is_white(s.last()) {
        let rest = s.drop_last();
        lemma_trim_end(rest);
        let k = choose|k: int|
            0 <= k <= rest.len() && #[trigger] rest.take(k) == crate::text::trim_end(rest)
                && forall|i: int| k <= i < rest.len() ==> is_white(#[trigger] rest[i]);
        assert(s.take(k) =~= rest.take(k));
        assert forall|i: int| k <= i < s.len() implies is_white(#[trigger] s[i]) by {
            if i < rest.len() {
                assert(rest[i] == s[i]);
            }
        }
    } else {
        assert(s.take(s.len() as int) =~= s);
    }
}

/// Trimming takes white space away from both ends and nothing else.
pub proof fn law_trimming(s: Seq<char>)
    ensures
        trimmed(s).len() > 0 ==> !is_white(trimmed(s)[0]) && !is_white(trimmed(s).last()),
        exists|from: int, to: int|
            0 <= from <= to <= s.len() && #[trigger] s.subrange(from, to) == trimmed(s) && (forall|
                i: int,
            |
                0 <= i < from || to <= i < s.len() ==> is_white(#[trigger] s[i])),
{
    lemma_trim_start(s);
    let from = choose|k: int|
        0 <= k <= s.len() && #[trigger] s.skip(k) == crate::text::trim_start(s) && forall|i: int|
            0 <= i < k ==> is_white(#[trigger] s[i]);
    let rest = crate::text::trim_start(s);
    lemma_trim_end(rest);
    let k = choose|k: int|
        0 <= k <= rest.len() && #[trigger] rest.take(k) == crate::text::trim_end(rest) && forall|
            i: int,
        |
            k <= i < rest.len() ==> is_white(#[trigger] rest[i]);
    assert(s.subrange(from, from + k) =~= rest.take(k));
    assert forall|i: int| 0 <= i < from || from + k <= i < s.len() implies is_white(
        #[trigger] s[i],
    ) by {
        if i >= from + k {
            assert(rest[i - from] == s[i]);
        }
    }
    if trimmed(s).len() > 0 {
        assert(trimmed(s)[0] == rest[0]);
    }
}

/// A text holds another where the characters of the other stand in it one after the other.
pub proof fn law_texts_in_texts(before: Seq<char>, needle: Seq<char>, behind: Seq<char>)
    ensures
        has_text(before + needle + behind, needle),
        has_prefix(needle + behind, needle),
        forall|hay: Seq<char>|
            has_text(hay, needle) ==> exists|at: int|
                0 <= at <= hay.len() - needle.len() && #[trigger] hay.subrange(
                    at,
                    at + needle.len(),
                ) == needle,
        forall|hay: Seq<char>| #[trigger]
            has_prefix(hay, needle) <==> needle.len() <= hay.len() && hay.take(
                needle.len() as int,
            ) == needle,
{
    let whole = before + needle + behind;
    assert(whole.subrange(before.len() as int, before.len() as int + needle.len()) =~= needle);
    assert(crate::text::occurs_at(whole, needle, before.len() as int));
    let start = needle + behind;
    assert(start.subrange(0, needle.len() as int) =~= needle);
    assert forall|hay: Seq<char>| has_text(hay, needle) implies exists|at: int|
        0 <= at <= hay.len() - needle.len() && #[trigger] hay.subrange(at, at + needle.len())
            == needle by {
        let at = choose|at: int| #[trigger] crate::text::occurs_at(hay, needle, at);
        assert(hay.subrange(at, at + needle.len()) == needle);
    }
    assert forall|hay: Seq<char>| #[trigger] has_prefix(hay, needle) <==> needle.len()
        <= hay.len() && hay.take(needle.len() as int) == needle by {
        if needle.len() <= hay.len() {
            assert(hay.take(needle.len() as int) =~= hay.subrange(0, needle.len() as int));
        }
    }
}

// ---------------------------------------------------------------------------
// Pieces and lines
// ---------------------------------------------------------------------------

/// Texts that are joined follow each other with the separator between them.
pub proof fn law_joined_texts(items: Seq<Seq<char>>, item: Seq<char>, separator: Seq<char>)
    ensures
        joined(Seq::empty(), separator) == Seq::<char>::empty(),
        joined(seq![item], separator) == item,
        items.len() > 0 ==> joined(items.push(item), separator) == joined(items, separator)
            + separator + item,
{
    assert(items.push(item).drop_last() =~= items);
    assert(items.push(item).last() == item);
}

proof fn lemma_no_separator(s: Seq<char>, separator: char)
    requires
        !s.contains(separator),
    ensures
        pieces(s, separator) == seq![s],
    decreases s.len(),
{
    if s.len() > 0 {
        let init = s.drop_last();
        assert forall|k: int| 0 <= k < init.len() implies init[k] != separator by {
            assert(s[k] == init[k]);
            if s[k] == separator {
                assert(s.contains(separator));
            }
        }
        assert(!init.contains(separator));
        lemma_no_separator(init, separator);
        assert(s[s.len() - 1] == s.last());
        assert(s.last() != separator);
        assert(init.push(s.last()) =~= s);
        assert(pieces(s, separator) =~= seq![s]);
    } else {
        assert(s =~= Seq::<char>::empty());
        assert(pieces(s, separator) =~= seq![s]);
    }
}

proof fn lemma_pieces_cut(first: Seq<char>, rest: Seq<char>, separator: char)
    requires
        !rest.contains(separator),
    ensures
        pieces(first.push(separator) + rest, separator) == pieces(first, separator).push(rest),
    decreases rest.len(),
{
    let whole = first.push(separator) + rest;
    if rest.len() == 0 {
        assert(whole =~= first.push(separator));
        assert(whole.drop_last() =~= first);
        assert(rest =~= Seq::<char>::empty());
    } else {
        let init = rest.drop_last();
        assert forall|k: int| 0 <= k < init.len() implies init[k] != separator by {
            assert(rest[k] == init[k]);
            if rest[k] == separator {
                assert(rest.contains(separator));
            }
        }
        lemma_pieces_cut(first, init, separator);
        assert(rest[rest.len() - 1] == rest.last());
        assert(whole.drop_last() =~= first.push(separator) + init);
        assert(whole.last() == rest.last());
        let before = pieces(first, separator).push(init);
        assert(before.drop_last() =~= pieces(first, separator));
        assert(before.last() == init);
        assert(init.push(rest.last()) =~= rest);
    }
}

/// A text without the separator is one piece, and each separator begins another.
pub proof fn law_pieces_are_cut_at_separators(
    first: Seq<char>,
    rest: Seq<char>,
    separator: char,
)
    requires
        !rest.contains(separator),
    ensures
        pieces(rest, separator) == seq![rest],
        pieces(first.push(separator) + rest, separator) == pieces(first, separator).push(rest),
{
    lemma_no_separator(rest, separator);
    lemma_pieces_cut(first, rest, separator);
}

/// Lines are cut at their ends: a last line without an end counts, an empty rest behind the
/// last end does not, and a carriage return before an end belongs to it.
pub proof fn law_lines(first: Seq<char>, line: Seq<char>)
    requires
        !line.contains('\n'),
    ensures
        line.len() > 0 ==> lines_of(line) == seq![line],
        lines_of(Seq::empty()) == Seq::<Seq<char>>::empty(),
        line.len() > 0 && line.last() != '\r' ==> lines_of(line.push('\n')) == seq![line],
        line.len() == 0 || line.last() != '\r' ==> lines_of(line.push('\r').push('\n'))
            == seq![line],
{
    lemma_no_separator(line, '\n');
    lemma_no_separator(Seq::<char>::empty(), '\n');
    lemma_pieces_cut(line, Seq::empty(), '\n');
    assert(line.push('\n') + Seq::<char>::empty() =~= line.push('\n'));
    if line.len() > 0 {
        assert(lines_of(line) =~= seq![line]);
    }
    assert(lines_of(Seq::empty()) =~= Seq::<Seq<char>>::empty());
    if line.len() > 0 && line.last() != '\r' {
        assert(lines_of(line.push('\n')) =~= seq![line]);
    }
    let returned = line.push('\r');
    assert forall|k: int| 0 <= k < returned.len() implies returned[k] != '\n' by {
        if k < line.len() {
            assert(returned[k] == line[k]);
            if line[k] == '\n' {
                assert(line.contains('\n'));
            }
        }
    }
    assert(!returned.contains('\n'));
    lemma_no_separator(returned, '\n');
    lemma_pieces_cut(returned, Seq::empty(), '\n');
    assert(returned.push('\n') + Seq::<char>::empty() =~= returned.push('\n'));
    assert(returned.drop_last() =~= line);
    assert(lines_of(returned.push('\n')) =~= seq![line]);
}

/// The name of a file is what follows the last slash; a slash at the end makes no
/// difference, and what is only dots has none.
pub proof fn law_file_names(directory: Seq<char>, name: Seq<char>)
    requires
        !name.contains('/'),
        name.len() > 0,
        name != seq!['.'],
        name != seq!['.', '.'],
    ensures
        file_name_of(name) == Some(name),
        file_name_of(directory.push('/') + name) == Some(name),
        file_name_of((directory.push('/') + name).push('/')) == Some(name),
        file_name_of(directory.push('/') + seq!['.', '.']) is None,
{
    lemma_no_separator(name, '/');
    lemma_pieces_cut(directory, name, '/');
    let path = directory.push('/') + name;
    let all = pieces(directory, '/').push(name);
    assert(all.last() == name);
    lemma_pieces_cut(path, Seq::empty(), '/');
    assert(path.push('/') + Seq::<char>::empty() =~= path.push('/'));
    let longer = all.push(Seq::empty());
    assert(pieces(path.push('/'), '/') == longer);
    assert(longer.drop_last() =~= all);
    assert(longer.last().len() == 0);
    reveal_with_fuel(crate::text::last_component, 3);
    let dots = seq!['.', '.'];
    assert(dots != seq!['.']) by {
        assert(dots.len() == 2);
        assert(seq!['.'].len() == 1);
    }
    lemma_pieces_cut(directory, dots, '/');
    assert(pieces(directory, '/').push(dots).last() == dots);
}

// ---------------------------------------------------------------------------
// Numbers
// ---------------------------------------------------------------------------

/// A number below ten is one digit, and every other number is the digits of its tenth
/// followed by the rest.
pub proof fn law_decimal_numbers(n: nat, d: nat)
    requires
        d < 10,
    ensures
        decimal_text(d).len() == 1,
        decimal_text(d)[0] as nat == '0' as nat + d,
        n > 0 ==> decimal_text(10 * n + d) == decimal_text(n).push(decimal_text(d)[0]),
{
    if n > 0 {
        assert((10 * n + d) / 10 == n && (10 * n + d) % 10 == d) by (nonlinear_arith)
            requires
                d < 10,
        ;
    }
}

proof fn lemma_hex_tells(n: nat, m: nat, width: nat)
    requires
        crate::text::hex_text(n, width) == crate::text::hex_text(m, width),
    ensures
        n % crate::text_laws::sixteens(width) == m % crate::text_laws::sixteens(width),
    decreases width,
{
    if width > 0 {
        let a = crate::text::hex_text(n, width);
        let b = crate::text::hex_text(m, width);
        let w = (width - 1) as nat;
        assert(a.drop_last() =~= crate::text::hex_text(n / 16, w));
        assert(b.drop_last() =~= crate::text::hex_text(m / 16, w));
        assert(a.last() == crate::text::hex_char(n % 16));
        assert(b.last() == crate::text::hex_char(m % 16));
        lemma_hex_tells(n / 16, m / 16, w);
        let s = sixteens(w);
        lemma_sixteens_positive(w);
        vstd::arithmetic::div_mod::lemma_mod_breakdown(n as int, 16, s as int);
        vstd::arithmetic::div_mod::lemma_mod_breakdown(m as int, 16, s as int);
        assert(sixteens(width) == 16 * s);
    }
}

/// A power of sixteen.
pub open spec fn sixteens(width: nat) -> nat
    decreases width,
{
    if width == 0 {
        1
    } else {
        16 * sixteens((width - 1) as nat)
    }
}

proof fn lemma_sixteens_positive(width: nat)
    ensures
        sixteens(width) > 0,
    decreases width,
{
    if width > 0 {
        lemma_sixteens_positive((width - 1) as nat);
    }
}

/// Sixteen hexadecimal digits tell every two numbers of 64 bits apart.
pub proof fn law_hexadecimal_numbers_are_told_apart(n: u64, m: u64)
    requires
        crate::text::hex_text(n as nat, 16) == crate::text::hex_text(m as nat, 16),
    ensures
        n == m,
{
    lemma_hex_tells(n as nat, m as nat, 16);
    reveal_with_fuel(sixteens, 17);
    assert(sixteens(16) == 0x1_0000_0000_0000_0000);
    vstd::arithmetic::div_mod::lemma_small_mod(n as nat, sixteens(16));
    vstd::arithmetic::div_mod::lemma_small_mod(m as nat, sixteens(16));
}

// ---------------------------------------------------------------------------
// Order
// ---------------------------------------------------------------------------

/// Of two texts the first character that differs decides, and a text comes before those
/// that it begins.
pub proof fn law_first_difference_decides(start: Seq<char>, a: Seq<char>, b: Seq<char>)
    requires
        b.len() > 0,
        a.len() > 0 ==> a[0] != b[0],
    ensures
        a.len() > 0 ==> crate::order::text_less(start + a, start + b) == (a[0] < b[0]),
        a.len() == 0 ==> crate::order::text_less(start + a, start + b)
            && !crate::order::text_less(start + b, start + a),
    decreases start.len(),
{
    if start.len() == 0 {
        assert(start + a =~= a);
        assert(start + b =~= b);
    } else {
        let rest = start.skip(1);
        law_first_difference_decides(rest, a, b);
        assert((start + a).skip(1) =~= rest + a);
        assert((start + b).skip(1) =~= rest + b);
        assert((start + a)[0] == start[0]);
        assert((start + b)[0] == start[0]);
    }
}

// ---------------------------------------------------------------------------
// Command lines
// ---------------------------------------------------------------------------

/// A line without quotes, backslashes and white space is one word, and a blank behind it
/// makes no difference.
pub proof fn law_words_of_plain_lines(line: Seq<char>)
    requires
        line.len() > 0,
        forall|i: int|
            0 <= i < line.len() ==> !is_white(#[trigger] line[i]) && line[i] != '\'' && line[i]
                != '"' && line[i] != '\\',
    ensures
        words_of(line) == seq![line],
        words_of(line.push(' ')) == seq![line],
        words_of(Seq::empty()) == Seq::<Seq<char>>::empty(),
{
    lemma_plain_word(line);
    let state = crate::shell::line_start().after_all(line);
    let spaced = line.push(' ');
    assert(spaced.drop_last() =~= line);
    assert(spaced.last() == ' ');
    assert(state.after(' ').words =~= seq![line]);
    assert(words_of(line) =~= seq![line]);
    assert(words_of(spaced) =~= seq![line]);
    assert(crate::shell::line_start().after_all(Seq::empty()) == crate::shell::line_start());
}

proof fn lemma_plain_word(line: Seq<char>)
    requires
        line.len() > 0,
        forall|i: int|
            0 <= i < line.len() ==> !is_white(#[trigger] line[i]) && line[i] != '\'' && line[i]
                != '"' && line[i] != '\\',
    ensures
        crate::shell::line_start().after_all(line) == (crate::shell::LineState {
            words: Seq::empty(),
            current: Some(line),
            quoting: crate::shell::Quoting::Bare,
            escaped: false,
        }),
    decreases line.len(),
{
    let init = line.drop_last();
    assert(line[line.len() - 1] == line.last());
    if init.len() > 0 {
        assert forall|i: int| 0 <= i < init.len() implies !is_white(#[trigger] init[i])
            && init[i] != '\'' && init[i] != '"' && init[i] != '\\' by {
            assert(line[i] == init[i]);
        }
        lemma_plain_word(init);
        assert(init.push(line.last()) =~= line);
    } else {
        assert(crate::shell::line_start().after_all(init) == crate::shell::line_start());
        assert(Seq::<char>::empty().push(line.last()) =~= line);
    }
}

proof fn lemma_quoted_text(line: Seq<char>, quote: char, quoting: crate::shell::Quoting)
    requires
        quote == '"' && quoting == crate::shell::Quoting::Double || quote == '\'' && quoting
            == crate::shell::Quoting::Single,
        !line.contains(quote),
        !line.contains('\\'),
    ensures
        crate::shell::line_start().after_all(seq![quote] + line) == (crate::shell::LineState {
            words: Seq::empty(),
            current: Some(line),
            quoting,
            escaped: false,
        }),
    decreases line.len(),
{
    let whole = seq![quote] + line;
    if line.len() == 0 {
        assert(whole =~= seq![quote]);
        assert(whole.drop_last() =~= Seq::<char>::empty());
        assert(crate::shell::line_start().after_all(Seq::empty()) == crate::shell::line_start());
        assert(line =~= Seq::<char>::empty());
    } else {
        let init = line.drop_last();
        assert(line.contains(line.last()));
        assert forall|c: char| init.contains(c) implies line.contains(c) by {
            let i = choose|i: int| 0 <= i < init.len() && init[i] == c;
            assert(line[i] == c);
        }
        lemma_quoted_text(init, quote, quoting);
        assert(whole.drop_last() =~= seq![quote] + init);
        assert(whole.last() == line.last());
        assert(init.push(line.last()) =~= line);
    }
}

/// What stands in quotes is one word, white space included; a backslash takes the next
/// character as it is, but in double quotes only a quote or another backslash.
pub proof fn law_quotes_in_lines(line: Seq<char>, c: char)
    requires
        !line.contains('\\'),
    ensures
        !line.contains('"') ==> words_of(seq!['"'] + line + seq!['"']) == seq![line],
        !line.contains('\'') ==> words_of(seq!['\''] + line + seq!['\'']) == seq![line],
        words_of(seq!['\\', c]) == seq![seq![c]],
        c == '"' || c == '\\' ==> words_of(seq!['"', '\\', c, '"']) == seq![seq![c]],
        c != '"' && c != '\\' ==> words_of(seq!['"', '\\', c, '"']) == seq![seq!['\\', c]],
{
    let start = crate::shell::line_start();
    assert(start.after_all(Seq::empty()) == start);
    if !line.contains('"') {
        lemma_quoted_text(line, '"', crate::shell::Quoting::Double);
        let whole = seq!['"'] + line + seq!['"'];
        assert(whole.drop_last() =~= seq!['"'] + line);
        assert(whole.last() == '"');
        assert(words_of(whole) =~= seq![line]);
    }
    if !line.contains('\'') {
        lemma_quoted_text(line, '\'', crate::shell::Quoting::Single);
        let whole = seq!['\''] + line + seq!['\''];
        assert(whole.drop_last() =~= seq!['\''] + line);
        assert(whole.last() == '\'');
        assert(words_of(whole) =~= seq![line]);
    }
    let escaped = seq!['\\', c];
    assert(escaped.drop_last() =~= seq!['\\']);
    assert(seq!['\\'].drop_last() =~= Seq::<char>::empty());
    assert(start.after_all(seq!['\\']) == start.after('\\'));
    assert(start.after_all(escaped) == start.after('\\').after(c));
    assert(Seq::<char>::empty().push(c) =~= seq![c]);
    assert(words_of(escaped) =~= seq![seq![c]]);
    let one = seq!['"'];
    let two = seq!['"', '\\'];
    let three = seq!['"', '\\', c];
    let four = seq!['"', '\\', c, '"'];
    assert(one.drop_last() =~= Seq::<char>::empty());
    assert(two.drop_last() =~= one);
    assert(three.drop_last() =~= two);
    assert(four.drop_last() =~= three);
    assert(start.after_all(one) == start.after('"'));
    assert(start.after_all(two) == start.after('"').after('\\'));
    assert(start.after_all(three) == start.after('"').after('\\').after(c));
    assert(start.after_all(four) == start.after('"').after('\\').after(c).after('"'));
    assert(Seq::<char>::empty().push('\\').push(c) =~= seq!['\\', c]);
    if c == '"' || c == '\\' {
        assert(words_of(four) =~= seq![seq![c]]);
    } else {
        assert(words_of(four) =~= seq![seq!['\\', c]]);
    }
}

/// A word of letters, digits and a few plain signs needs no quotes; an empty one and any
/// other is put between single quotes.
pub proof fn law_quoted_words(word: Seq<char>)
    ensures
        word.len() > 0 && (forall|i: int|
            0 <= i < word.len() ==> {
                let c = #[trigger] word[i];
                ('a' <= c && c <= 'z') || ('A' <= c && c <= 'Z') || ('0' <= c && c <= '9') || c
                    == '-' || c == '_' || c == '.' || c == '/' || c == ':' || c == '='
            }) ==> crate::shell::quoted(word) == word,
        crate::shell::quoted(Seq::empty()) == seq!['\'', '\''],
        (exists|i: int|
            0 <= i < word.len() && {
                let c = #[trigger] word[i];
                is_white(c) || c == '"' || c == '$' || c == '\'' || c == ';'
            }) ==> crate::shell::quoted(word)[0] == '\'' && crate::shell::quoted(word).last()
            == '\'',
{
    if exists|i: int|
        0 <= i < word.len() && {
            let c = #[trigger] word[i];
            is_white(c) || c == '"' || c == '$' || c == '\'' || c == ';'
        } {
        let i = choose|i: int|
            0 <= i < word.len() && {
                let c = #[trigger] word[i];
                is_white(c) || c == '"' || c == '$' || c == '\'' || c == ';'
            };
        assert(!crate::shell::is_plain(word[i]));
    }
}

// ---------------------------------------------------------------------------
// Paths
// ---------------------------------------------------------------------------

proof fn lemma_components_before(all: Seq<Seq<char>>, more: Seq<char>, n: nat)
    requires
        n <= all.len(),
    ensures
        crate::text::components_of(all.push(more), n) == crate::text::components_of(all, n),
    decreases n,
{
    if n > 0 {
        lemma_components_before(all, more, (n - 1) as nat);
    }
}

/// The components of a path are its names and its double dots, in order: a slash more and a
/// single dot behind a slash count for nothing.
pub proof fn law_components_of_paths(path: Seq<char>, name: Seq<char>)
    requires
        !name.contains('/'),
    ensures
        name.len() > 0 && name != seq!['.'] ==> crate::text::components(path.push('/') + name)
            == crate::text::components(path).push(name),
        name.len() == 0 || name == seq!['.'] ==> crate::text::components(path.push('/') + name)
            == crate::text::components(path),
        name.len() > 0 ==> crate::text::components(name) == seq![name],
        crate::text::components(Seq::empty()) == Seq::<Seq<char>>::empty(),
{
    law_pieces_are_cut_at_separators(path, name, '/');
    let all = pieces(path, '/');
    assert(all.len() > 0);
    lemma_components_before(all, name, all.len());
    reveal_with_fuel(crate::text::components_of, 2);
    assert(seq!['.'].len() == 1);
    if name.len() > 0 {
        assert(crate::text::components(name) =~= seq![name]);
    }
    let nothing = Seq::<char>::empty();
    lemma_no_separator(nothing, '/');
    assert(crate::text::components(nothing) =~= Seq::<Seq<char>>::empty());
}

/// The plainest spelling of a path joins its components with slashes, behind a slash where
/// the path starts with one.
pub proof fn law_plainest_paths(path: Seq<char>)
    ensures
        path.len() > 0 && path[0] == '/' ==> crate::text::bare_path(path) == "/"@ + joined(
            crate::text::components(path),
            "/"@,
        ),
        path.len() == 0 || path[0] != '/' ==> crate::text::bare_path(path) == joined(
            crate::text::components(path),
            "/"@,
        ),
{
}

/// A number is read from its digits, with or without a plus sign before them, and from
/// nothing else.
pub proof fn law_numbers_are_read(digits: Seq<char>, d: char)
    requires
        '0' <= d && d <= '9',
        forall|i: int| 0 <= i < digits.len() ==> '0' <= #[trigger] digits[i] && digits[i] <= '9',
    ensures
        digits.len() > 0 ==> crate::text::number_of(digits) is Some && crate::text::number_of(
            seq!['+'] + digits,
        ) == crate::text::number_of(digits) && crate::text::number_of(digits.push(d)) == Some(
            crate::text::number_of(digits)->0 * 10 + (d as nat - '0' as nat) as nat,
        ),
        crate::text::number_of(seq![d]) == Some((d as nat - '0' as nat) as nat),
        crate::text::number_of(Seq::empty()) is None,
        forall|text: Seq<char>, i: int|
            0 < i < text.len() && !('0' <= #[trigger] text[i] && text[i] <= '9')
                ==> crate::text::number_of(text) is None,
{
    reveal_with_fuel(crate::text::digits_value, 2);
    let plus = seq!['+'] + digits;
    assert(plus.skip(1) =~= digits);
    assert(plus[0] == '+');
    let more = digits.push(d);
    assert(more.drop_last() =~= digits);
    if digits.len() > 0 {
        assert(digits[0] >= '0');
        assert(more[0] == digits[0]);
    }
    assert(seq![d].drop_last() =~= Seq::<char>::empty());
    assert forall|text: Seq<char>, i: int|
        0 < i < text.len() && !('0' <= #[trigger] text[i] && text[i] <= '9') implies crate::text::number_of(
        text,
    ) is None by {
        let bare = crate::text::without_plus(text);
        if text[0] == '+' {
            assert(bare[i - 1] == text[i]);
        }
    }
}

} // verus!
