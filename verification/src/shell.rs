//! Shell words: splitting a command line into words, and quoting a word so that
//! a shell reads it back unchanged.
use vstd::prelude::*;

use crate::text::ascii_word_char;
use crate::text::chars_of;
use crate::text::join_with;
use crate::text::white;

verus! {

/// Which quotes the reader stands in.
#[derive(Clone, Copy, Debug, PartialEq, Eq, Structural)]
pub enum Quoting {
    Bare,
    Single,
    Double,
}

/// How far a command line has been read: the finished words, the word under way
/// (if one has begun), the quotes, and whether a backslash was just read.
#[verifier::ext_equal]
pub struct LineState {
    pub words: Seq<Seq<char>>,
    pub current: Option<Seq<char>>,
    pub quoting: Quoting,
    pub escaped: bool,
}

/// The state before the first character.
pub open spec fn line_start() -> LineState {
    LineState { words: Seq::empty(), current: None, quoting: Quoting::Bare, escaped: false }
}

impl LineState {
    /// The word under way, empty where none has begun.
    pub open spec fn word(self) -> Seq<char> {
        match self.current {
            Some(word) => word,
            None => Seq::empty(),
        }
    }

    /// The state with one more character in the word under way.
    pub open spec fn with_char(self, c: char) -> LineState {
        LineState { current: Some(self.word().push(c)), escaped: false, ..self }
    }

    /// The state after one more character of the command line.
    pub open spec fn after(self, c: char) -> LineState {
        match self.quoting {
            Quoting::Single => if c == '\'' {
                LineState { quoting: Quoting::Bare, ..self }
            } else {
                self.with_char(c)
            },
            Quoting::Double => if self.escaped {
                if c == '"' || c == '\\' {
                    self.with_char(c)
                } else {
                    self.with_char('\\').with_char(c)
                }
            } else if c == '\\' {
                LineState { escaped: true, ..self }
            } else if c == '"' {
                LineState { quoting: Quoting::Bare, ..self }
            } else {
                self.with_char(c)
            },
            Quoting::Bare => if self.escaped {
                self.with_char(c)
            } else if c == '\\' {
                LineState { escaped: true, current: Some(self.word()), ..self }
            } else if c == '\'' {
                LineState { quoting: Quoting::Single, current: Some(self.word()), ..self }
            } else if c == '"' {
                LineState { quoting: Quoting::Double, current: Some(self.word()), ..self }
            } else if crate::text::is_white(c) {
                match self.current {
                    Some(word) => LineState { words: self.words.push(word), current: None, ..self },
                    None => self,
                }
            } else {
                self.with_char(c)
            },
        }
    }

    /// The state after a run of characters.
    pub open spec fn after_all(self, s: Seq<char>) -> LineState
        decreases s.len(),
    {
        if s.len() == 0 {
            self
        } else {
            self.after_all(s.drop_last()).after(s.last())
        }
    }

    /// The words read so far, the one under way included.
    pub open spec fn all_words(self) -> Seq<Seq<char>> {
        match self.current {
            Some(word) => self.words.push(word),
            None => self.words,
        }
    }
}

/// The words of a command line. Words are separated by white space; single
/// quotes keep everything, double quotes keep everything but a backslash before a
/// double quote or a backslash, and a bare backslash keeps the next character.
pub open spec fn words_of(line: Seq<char>) -> Seq<Seq<char>> {
    line_start().after_all(line).all_words()
}

/// A line reader under way.
struct LineReader {
    words: Vec<String>,
    current: Option<String>,
    quoting: Quoting,
    escaped: bool,
}

impl LineReader {
    spec fn state(self) -> LineState {
        LineState {
            words: crate::text::texts(self.words@),
            current: crate::text::opt_text(self.current),
            quoting: self.quoting,
            escaped: self.escaped,
        }
    }

    fn begin(&mut self)
        ensures
            final(self).state() == (LineState {
                current: Some(old(self).state().word()),
                ..old(self).state()
            }),
    {
        if self.current.is_none() {
            self.current = Some(String::new());
        }
        assert(self.state().current =~= Some(old(self).state().word()));
    }

    fn put(&mut self, c: char)
        ensures
            final(self).state() == old(self).state().with_char(c),
    {
        let mut word: String = match self.current.take() {
            Some(word) => word,
            None => String::new(),
        };
        word.push(c);
        self.current = Some(word);
        self.escaped = false;
        assert(self.state().words =~= old(self).state().words);
    }

    fn end_word(&mut self)
        ensures
            final(self).state() == (LineState {
                words: old(self).state().all_words(),
                current: None,
                ..old(self).state()
            }),
    {
        match self.current.take() {
            Some(word) => {
                self.words.push(word);
            },
            None => {},
        }
        assert(self.state().words =~= old(self).state().all_words());
    }

    fn read(&mut self, c: char)
        ensures
            final(self).state() == old(self).state().after(c),
    {
        match self.quoting {
            Quoting::Single => {
                if c == '\'' {
                    self.quoting = Quoting::Bare;
                } else {
                    self.put(c);
                }
            },
            Quoting::Double => {
                if self.escaped {
                    if c == '"' || c == '\\' {
                        self.put(c);
                    } else {
                        self.put('\\');
                        self.put(c);
                    }
                } else if c == '\\' {
                    self.escaped = true;
                } else if c == '"' {
                    self.quoting = Quoting::Bare;
                } else {
                    self.put(c);
                }
            },
            Quoting::Bare => {
                if self.escaped {
                    self.put(c);
                } else if c == '\\' {
                    self.begin();
                    self.escaped = true;
                } else if c == '\'' {
                    self.begin();
                    self.quoting = Quoting::Single;
                } else if c == '"' {
                    self.begin();
                    self.quoting = Quoting::Double;
                } else if white(c) {
                    self.end_word();
                } else {
                    self.put(c);
                }
            },
        }
    }
}

/// Splits a command line into its words.
pub fn split_command_words(line: &str) -> (r: Vec<String>)
    ensures
        crate::text::texts(r@) == words_of(line@),
{
    let chars: Vec<char> = chars_of(line);
    let mut reader = LineReader {
        words: Vec::new(),
        current: None,
        quoting: Quoting::Bare,
        escaped: false,
    };
    let mut i: usize = 0;
    assert(reader.state() =~= line_start());
    while i < chars.len()
        invariant
            i <= chars.len(),
            reader.state() == line_start().after_all(chars@.take(i as int)),
        decreases chars.len() - i,
    {
        reader.read(chars[i]);
        proof {
            assert(chars@.take(i + 1).drop_last() =~= chars@.take(i as int));
        }
        i += 1;
    }
    assert(chars@.take(chars.len() as int) =~= chars@);
    reader.end_word();
    reader.words
}

/// The characters that stand for themselves outside quotes.
pub open spec fn is_plain(c: char) -> bool {
    crate::text::is_ascii_word_char(c) || c == '-' || c == '_' || c == '.' || c == '/' || c == ':'
        || c == '='
}

/// Whether every character of a text stands for itself outside quotes.
pub open spec fn all_plain(s: Seq<char>) -> bool {
    forall|i: int| 0 <= i < s.len() ==> is_plain(#[trigger] s[i])
}

/// How a single quote is written inside single quotes: it closes them, stands in
/// double quotes, and opens them again.
pub open spec fn quote_in_quotes() -> Seq<char> {
    seq!['\'', '"', '\'', '"', '\'']
}

/// A text with its single quotes replaced.
pub open spec fn requoted(s: Seq<char>) -> Seq<char>
    decreases s.len(),
{
    if s.len() == 0 {
        Seq::empty()
    } else if s.last() == '\'' {
        requoted(s.drop_last()) + quote_in_quotes()
    } else {
        requoted(s.drop_last()).push(s.last())
    }
}

/// A word as it is written on a command line.
pub open spec fn quoted(s: Seq<char>) -> Seq<char> {
    if s.len() == 0 {
        seq!['\'', '\'']
    } else if all_plain(s) {
        s
    } else {
        seq!['\''] + requoted(s) + seq!['\'']
    }
}

/// Words as they are written on a command line.
pub open spec fn quoted_all(words: Seq<Seq<char>>) -> Seq<Seq<char>> {
    Seq::new(words.len(), |i: int| quoted(words[i]))
}

/// Quotes a word for a shell.
pub fn shell_quote(value: &str) -> (r: String)
    ensures
        r@ == quoted(value@),
{
    let chars: Vec<char> = chars_of(value);
    if chars.len() == 0 {
        let mut out: String = String::new();
        out.push('\'');
        out.push('\'');
        assert(out@ =~= seq!['\'', '\'']);
        return out;
    }
    let mut plain: bool = true;
    let mut i: usize = 0;
    while i < chars.len()
        invariant
            i <= chars.len(),
            plain == all_plain(chars@.take(i as int)),
        decreases chars.len() - i,
    {
        let c: char = chars[i];
        let ok: bool = ascii_word_char(c) || c == '-' || c == '_' || c == '.' || c == '/' || c
            == ':' || c == '=';
        proof {
            let next = chars@.take(i + 1);
            assert(next[i as int] == c);
            if plain && ok {
                assert forall|k: int| 0 <= k < next.len() implies is_plain(#[trigger] next[k]) by {
                    if k < i {
                        assert(chars@.take(i as int)[k] == next[k]);
                    }
                }
            }
            if all_plain(next) {
                assert forall|k: int| 0 <= k < i implies is_plain(#[trigger] chars@.take(i as int)[k]) by {
                    assert(next[k] == chars@[k]);
                }
            }
        }
        plain = plain && ok;
        i += 1;
    }
    assert(chars@.take(chars.len() as int) =~= chars@);
    if plain {
        return value.to_owned();
    }
    let mut out: String = String::new();
    out.push('\'');
    assert(out@ =~= seq!['\''] + requoted(Seq::<char>::empty()));
    let mut j: usize = 0;
    assert(chars@.take(0) =~= Seq::<char>::empty());
    while j < chars.len()
        invariant
            j <= chars.len(),
            out@ == seq!['\''] + requoted(chars@.take(j as int)),
        decreases chars.len() - j,
    {
        let c: char = chars[j];
        proof {
            assert(chars@.take(j + 1).drop_last() =~= chars@.take(j as int));
            assert(chars@.take(j + 1).last() == c);
        }
        let ghost before = out@;
        if c == '\'' {
            out.push('\'');
            out.push('"');
            out.push('\'');
            out.push('"');
            out.push('\'');
            assert(out@ =~= before + quote_in_quotes());
            assert(out@ =~= seq!['\''] + requoted(chars@.take(j + 1)));
        } else {
            out.push(c);
            assert(out@ =~= seq!['\''] + requoted(chars@.take(j + 1)));
        }
        j += 1;
    }
    assert(chars@.take(chars.len() as int) =~= chars@);
    out.push('\'');
    assert(out@ =~= seq!['\''] + requoted(value@) + seq!['\'']);
    out
}

/// Writes words as one command line.
pub fn command_line(words: &Vec<String>) -> (r: String)
    ensures
        r@ == crate::text::joined(quoted_all(crate::text::texts(words@)), seq![' ']),
{
    let mut out: Vec<String> = Vec::new();
    let mut i: usize = 0;
    while i < words.len()
        invariant
            i <= words.len(),
            out.len() == i,
            forall|k: int| 0 <= k < i ==> (#[trigger] out@[k])@ == quoted(words@[k]@),
        decreases words.len() - i,
    {
        out.push(shell_quote(words[i].as_str()));
        i += 1;
    }
    proof {
        assert(crate::text::texts(out@) =~= quoted_all(crate::text::texts(words@)));
        reveal_strlit(" ");
        assert(" "@ =~= seq![' ']);
    }
    join_with(&out, " ")
}

proof fn lemma_after_concat(state: LineState, a: Seq<char>, b: Seq<char>)
    ensures
        state.after_all(a + b) == state.after_all(a).after_all(b),
    decreases b.len(),
{
    if b.len() == 0 {
        assert(a + b =~= a);
    } else {
        assert((a + b).drop_last() =~= a + b.drop_last());
        lemma_after_concat(state, a, b.drop_last());
    }
}

proof fn lemma_after_one(state: LineState, c: char)
    ensures
        state.after_all(seq![c]) == state.after(c),
{
    assert(seq![c].drop_last() =~= Seq::<char>::empty());
    reveal_with_fuel(LineState::after_all, 2);
}

proof fn lemma_after_plain(state: LineState, s: Seq<char>)
    requires
        all_plain(s),
        s.len() > 0,
        state.quoting == Quoting::Bare,
        !state.escaped,
    ensures
        state.after_all(s) == (LineState { current: Some(state.word() + s), ..state }),
    decreases s.len(),
{
    let init = s.drop_last();
    assert(is_plain(s[s.len() - 1]));
    if init.len() == 0 {
        assert(state.after_all(init) == state);
        assert(state.word().push(s.last()) =~= state.word() + s);
    } else {
        assert forall|i: int| 0 <= i < init.len() implies is_plain(#[trigger] init[i]) by {
            assert(init[i] == s[i]);
        }
        lemma_after_plain(state, init);
        assert((state.word() + init).push(s.last()) =~= state.word() + s);
    }
}

proof fn lemma_after_requoted(state: LineState, s: Seq<char>)
    requires
        state.quoting == Quoting::Single,
        !state.escaped,
        state.current is Some,
    ensures
        state.after_all(requoted(s)) == (LineState { current: Some(state.word() + s), ..state }),
    decreases s.len(),
{
    if s.len() == 0 {
        assert(state.word() + s =~= state.word());
    } else {
        let init = s.drop_last();
        lemma_after_requoted(state, init);
        let mid = state.after_all(requoted(init));
        assert((state.word() + init).push(s.last()) =~= state.word() + s);
        if s.last() == '\'' {
            lemma_after_concat(state, requoted(init), quote_in_quotes());
            let q = quote_in_quotes();
            assert(q =~= seq!['\''] + seq!['"'] + seq!['\''] + seq!['"'] + seq!['\'']);
            lemma_after_concat(mid, seq!['\''] + seq!['"'] + seq!['\''] + seq!['"'], seq!['\'']);
            lemma_after_concat(mid, seq!['\''] + seq!['"'] + seq!['\''], seq!['"']);
            lemma_after_concat(mid, seq!['\''] + seq!['"'], seq!['\'']);
            lemma_after_concat(mid, seq!['\''], seq!['"']);
            let m1 = mid.after('\'');
            let m2 = m1.after('"');
            let m3 = m2.after('\'');
            let m4 = m3.after('"');
            lemma_after_one(mid, '\'');
            lemma_after_one(m1, '"');
            lemma_after_one(m2, '\'');
            lemma_after_one(m3, '"');
            lemma_after_one(m4, '\'');
        } else {
            assert(requoted(s).drop_last() =~= requoted(init));
        }
    }
}

proof fn lemma_after_quoted(state: LineState, s: Seq<char>)
    requires
        state.quoting == Quoting::Bare,
        !state.escaped,
        state.current is None,
    ensures
        state.after_all(quoted(s)) == (LineState { current: Some(s), ..state }),
{
    if s.len() == 0 {
        assert(seq!['\'', '\''] =~= seq!['\''] + seq!['\'']);
        lemma_after_concat(state, seq!['\''], seq!['\'']);
        lemma_after_one(state, '\'');
        lemma_after_one(state.after('\''), '\'');
        assert(s =~= Seq::<char>::empty());
    } else if all_plain(s) {
        lemma_after_plain(state, s);
        assert(Seq::<char>::empty() + s =~= s);
    } else {
        let open = state.after('\'');
        lemma_after_concat(state, seq!['\''] + requoted(s), seq!['\'']);
        lemma_after_concat(state, seq!['\''], requoted(s));
        lemma_after_one(state, '\'');
        lemma_after_requoted(open, s);
        lemma_after_one(open.after_all(requoted(s)), '\'');
        assert(Seq::<char>::empty() + s =~= s);
    }
}

proof fn lemma_after_joined(words: Seq<Seq<char>>)
    requires
        words.len() > 0,
    ensures
        line_start().after_all(crate::text::joined(quoted_all(words), seq![' '])) == (LineState {
            words: words.drop_last(),
            current: Some(words.last()),
            quoting: Quoting::Bare,
            escaped: false,
        }),
    decreases words.len(),
{
    let all = quoted_all(words);
    if words.len() == 1 {
        lemma_after_quoted(line_start(), words[0]);
        assert(words.drop_last() =~= Seq::<Seq<char>>::empty());
    } else {
        let init = words.drop_last();
        lemma_after_joined(init);
        assert(all.drop_last() =~= quoted_all(init));
        let head = crate::text::joined(quoted_all(init), seq![' ']);
        lemma_after_concat(line_start(), head + seq![' '], quoted(words.last()));
        lemma_after_concat(line_start(), head, seq![' ']);
        let mid = line_start().after_all(head);
        lemma_after_one(mid, ' ');
        lemma_after_quoted(mid.after(' '), words.last());
        assert(init.drop_last().push(init.last()) =~= init);
    }
}

/// A command line made of quoted words is split into exactly those words: quoting
/// preserves the boundaries between arguments.
pub proof fn law_quoting_keeps_words(words: Seq<Seq<char>>)
    ensures
        words_of(crate::text::joined(quoted_all(words), seq![' '])) == words,
{
    if words.len() == 0 {
        assert(words =~= Seq::<Seq<char>>::empty());
    } else {
        lemma_after_joined(words);
        assert(words.drop_last().push(words.last()) =~= words);
    }
}

} // verus!
