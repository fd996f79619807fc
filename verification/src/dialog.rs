//! Dialogs: what a key does in each of them, and when they close.
use vstd::prelude::*;

use crate::input::cancel_key;
use crate::input::plain_key;
use crate::input::typed_char;
use crate::input::KeyCode;
use crate::input::KeyEvent;
use crate::input::KeyEventKind;
use crate::text::owned;
use crate::text::same_ignoring_case;
use crate::text::to_lower;
use crate::text::trim;

verus! {

// ---------------------------------------------------------------------------
// Confirmations
// ---------------------------------------------------------------------------

/// What an answer to a yes-or-no question means; `None` where it means nothing.
pub open spec fn answer_of(input: Seq<char>, default: bool) -> Option<bool> {
    let answer = crate::text::lower(crate::text::trimmed(input));
    if answer.len() == 0 {
        Some(default)
    } else if answer == seq!['y'] {
        Some(true)
    } else if answer == seq!['n'] {
        Some(false)
    } else {
        None
    }
}

/// What an answer to a yes-or-no question means: nothing typed means the default.
pub fn confirmation_result(input: &str, default: bool) -> (r: Option<bool>)
    ensures
        r == answer_of(input@, default),
{
    let bare: String = trim(input);
    let answer: String = to_lower(bare.as_str());
    let chars: Vec<char> = crate::text::chars_of(answer.as_str());
    if chars.len() == 0 {
        return Some(default);
    }
    let yes: bool = chars.len() == 1 && chars[0] == 'y';
    let no: bool = chars.len() == 1 && chars[0] == 'n';
    assert(yes == (chars@ =~= seq!['y']));
    assert(no == (chars@ =~= seq!['n']));
    if yes {
        Some(true)
    } else if no {
        Some(false)
    } else {
        None
    }
}

/// How a dialog stands after a key.
#[derive(Debug, PartialEq, Eq)]
pub enum Verdict<T> {
    /// The dialog stays open.
    Open,
    /// The dialog closes with a result.
    Closed(T),
}

/// A yes-or-no question.
#[derive(Debug)]
pub struct ConfirmDialog {
    pub input: String,
    pub default: bool,
    /// Whether the last answer meant nothing.
    pub invalid: bool,
}

/// A question after a key: what is typed, whether the last answer was none, and how the
/// question stands.
pub open spec fn question_after(
    typed: Seq<char>,
    default: bool,
    invalid: bool,
    event: KeyEvent,
) -> (Seq<char>, bool, Verdict<bool>) {
    if event.kind != KeyEventKind::Press {
        (typed, invalid, Verdict::Open)
    } else if event.code == KeyCode::Enter && event.is_plain() {
        match answer_of(typed, default) {
            Some(answer) => (typed, invalid, Verdict::Closed(answer)),
            None => (Seq::empty(), true, Verdict::Open),
        }
    } else if event.is_cancel() {
        (typed, invalid, Verdict::Closed(default))
    } else {
        (edited(typed, event), invalid, Verdict::Open)
    }
}

impl ConfirmDialog {
    /// A question without an answer so far.
    pub fn new(default: bool) -> (r: Self)
        ensures
            r.input@.len() == 0,
            r.default == default,
            !r.invalid,
    {
        ConfirmDialog { input: String::new(), default, invalid: false }
    }

    /// What a key does: Enter gives the answer, a cancel key the default, and any
    /// other key edits the answer.
    pub fn press(&mut self, event: KeyEvent) -> (r: Verdict<bool>)
        ensures
            (final(self).input@, final(self).invalid, r) == question_after(
                old(self).input@,
                old(self).default,
                old(self).invalid,
                event,
            ),
            final(self).default == old(self).default,
            ({
                let typed = old(self).input@;
                if event.kind != KeyEventKind::Press {
                    r == Verdict::<bool>::Open && final(self).input@ == typed
                        && final(self).invalid == old(self).invalid
                } else if event.code == KeyCode::Enter && event.is_plain() {
                    match answer_of(typed, old(self).default) {
                        Some(answer) => r == Verdict::Closed(answer) && final(self).input@
                            == typed && final(self).invalid == old(self).invalid,
                        None => r == Verdict::<bool>::Open && final(self).input@.len() == 0
                            && final(self).invalid,
                    }
                } else if event.is_cancel() {
                    r == Verdict::Closed(old(self).default) && final(self).input@ == typed
                        && final(self).invalid == old(self).invalid
                } else {
                    r == Verdict::<bool>::Open && final(self).input@ == edited(typed, event)
                        && final(self).invalid == old(self).invalid
                }
            }),
    {
        if event.kind != KeyEventKind::Press {
            return Verdict::Open;
        }
        match event.code {
            KeyCode::Enter => {
                if plain_key(event) {
                    return match confirmation_result(self.input.as_str(), self.default) {
                        Some(answer) => Verdict::Closed(answer),
                        None => {
                            self.input = String::new();
                            self.invalid = true;
                            Verdict::Open
                        },
                    };
                }
            },
            _ => {},
        }
        if cancel_key(event) {
            return Verdict::Closed(self.default);
        }
        edit(&mut self.input, event);
        Verdict::Open
    }
}

/// A text after an editing key: a typed character is appended, and backspace takes
/// the last one away.
pub open spec fn edited(text: Seq<char>, event: KeyEvent) -> Seq<char> {
    match (event.code, event.typed()) {
        (KeyCode::Backspace, _) => if text.len() > 0 {
            text.drop_last()
        } else {
            text
        },
        (_, Some(c)) => text.push(c),
        _ => text,
    }
}

fn edit(text: &mut String, event: KeyEvent)
    ensures
        final(text)@ == edited(old(text)@, event),
{
    match event.code {
        KeyCode::Backspace => {
            let _ = text.pop();
        },
        _ => match typed_char(event) {
            Some(c) => {
                text.push(c);
            },
            None => {},
        },
    }
}

// ---------------------------------------------------------------------------
// Prompts, notices and help
// ---------------------------------------------------------------------------

/// A line of text to be typed.
#[derive(Debug)]
pub struct PromptDialog {
    pub input: String,
}

/// How a prompt ends.
#[derive(Clone, Copy, Debug, PartialEq, Eq, Structural)]
pub enum PromptEnd {
    Submitted,
    Cancelled,
}

/// A prompt after a key: what is typed, and how the prompt stands.
pub open spec fn prompt_after(typed: Seq<char>, event: KeyEvent) -> (Seq<char>, Verdict<PromptEnd>) {
    if event.kind != KeyEventKind::Press {
        (typed, Verdict::Open)
    } else if event.code == KeyCode::Enter {
        (typed, Verdict::Closed(PromptEnd::Submitted))
    } else if event.is_cancel() {
        (typed, Verdict::Closed(PromptEnd::Cancelled))
    } else {
        (edited(typed, event), Verdict::Open)
    }
}

impl PromptDialog {
    /// What a key does: Enter submits the line, a cancel key gives it up, and any
    /// other key edits it.
    pub fn press(&mut self, event: KeyEvent) -> (r: Verdict<PromptEnd>)
        ensures
            (final(self).input@, r) == prompt_after(old(self).input@, event),
            ({
                let typed = old(self).input@;
                if event.kind != KeyEventKind::Press {
                    r == Verdict::<PromptEnd>::Open && final(self).input@ == typed
                } else if event.code == KeyCode::Enter {
                    r == Verdict::Closed(PromptEnd::Submitted) && final(self).input@ == typed
                } else if event.is_cancel() {
                    r == Verdict::Closed(PromptEnd::Cancelled) && final(self).input@ == typed
                } else {
                    r == Verdict::<PromptEnd>::Open && final(self).input@ == edited(typed, event)
                }
            }),
    {
        if event.kind != KeyEventKind::Press {
            return Verdict::Open;
        }
        match event.code {
            KeyCode::Enter => {
                return Verdict::Closed(PromptEnd::Submitted);
            },
            _ => {},
        }
        if cancel_key(event) {
            return Verdict::Closed(PromptEnd::Cancelled);
        }
        edit(&mut self.input, event);
        Verdict::Open
    }
}

/// Whether a key is an arrow or its letter.
pub open spec fn is_key(event: KeyEvent, code: KeyCode, letter: char) -> bool {
    event.code == code || event.code == KeyCode::Char(letter)
}

fn up_key(event: KeyEvent) -> (r: bool)
    ensures
        r == is_key(event, KeyCode::Up, 'k'),
{
    match event.code {
        KeyCode::Up => true,
        KeyCode::Char(c) => c == 'k',
        _ => false,
    }
}

fn down_key(event: KeyEvent) -> (r: bool)
    ensures
        r == is_key(event, KeyCode::Down, 'j'),
{
    match event.code {
        KeyCode::Down => true,
        KeyCode::Char(c) => c == 'j',
        _ => false,
    }
}

/// One less, but not below zero.
pub open spec fn one_up(n: usize) -> usize {
    if n > 0 {
        (n - 1) as usize
    } else {
        0
    }
}

/// One more, unless that is too large a number.
pub open spec fn one_down(n: usize) -> usize {
    if n < usize::MAX {
        (n + 1) as usize
    } else {
        n
    }
}

/// A text to be read.
#[derive(Clone, Copy, Debug)]
pub struct NoticeDialog {
    pub scroll: usize,
}

/// A notice after a key: where it is scrolled to, and how it stands.
pub open spec fn notice_after(scroll: usize, event: KeyEvent) -> (usize, Verdict<()>) {
    if event.kind != KeyEventKind::Press {
        (scroll, Verdict::Open)
    } else if is_key(event, KeyCode::Down, 'j') {
        (one_down(scroll), Verdict::Open)
    } else if is_key(event, KeyCode::Up, 'k') {
        (one_up(scroll), Verdict::Open)
    } else if event.code == KeyCode::Esc || event.code == KeyCode::Enter || event.code
        == KeyCode::Char('q') {
        (scroll, Verdict::Closed(()))
    } else {
        (scroll, Verdict::Open)
    }
}

impl NoticeDialog {
    /// What a key does: it scrolls, or closes the notice.
    pub fn press(&mut self, event: KeyEvent) -> (r: Verdict<()>)
        ensures
            (final(self).scroll, r) == notice_after(old(self).scroll, event),
            ({
                let scroll = old(self).scroll;
                if event.kind != KeyEventKind::Press {
                    r == Verdict::<()>::Open && final(self).scroll == scroll
                } else if is_key(event, KeyCode::Down, 'j') {
                    r == Verdict::<()>::Open && final(self).scroll == one_down(scroll)
                } else if is_key(event, KeyCode::Up, 'k') {
                    r == Verdict::<()>::Open && final(self).scroll == one_up(scroll)
                } else if event.code == KeyCode::Esc || event.code == KeyCode::Enter || event.code
                    == KeyCode::Char('q') {
                    r == Verdict::Closed(()) && final(self).scroll == scroll
                } else {
                    r == Verdict::<()>::Open && final(self).scroll == scroll
                }
            }),
    {
        if event.kind != KeyEventKind::Press {
            return Verdict::Open;
        }
        if down_key(event) {
            self.scroll = self.scroll.saturating_add(1);
            return Verdict::Open;
        }
        if up_key(event) {
            self.scroll = self.scroll.saturating_sub(1);
            return Verdict::Open;
        }
        match event.code {
            KeyCode::Esc => Verdict::Closed(()),
            KeyCode::Enter => Verdict::Closed(()),
            KeyCode::Char(c) => {
                if c == 'q' {
                    Verdict::Closed(())
                } else {
                    Verdict::Open
                }
            },
            _ => Verdict::Open,
        }
    }
}

/// The list of key bindings, with a filter.
#[derive(Debug)]
pub struct HelpDialog {
    pub filter: String,
    pub editing_filter: bool,
    pub scroll: usize,
}

/// The help dialog, as contracts speak of it.
#[verifier::ext_equal]
pub struct HelpView {
    pub filter: Seq<char>,
    pub editing_filter: bool,
    pub scroll: usize,
}

impl HelpView {
    /// Whether a key closes the dialog. While the filter is edited, only escape,
    /// control and `c`, and `q` do; otherwise every key does that has no other use.
    pub open spec fn closes(self, event: KeyEvent) -> bool {
        if event.kind != KeyEventKind::Press {
            false
        } else if self.editing_filter {
            &&& event.code != KeyCode::Enter
            &&& event.code != KeyCode::Backspace
            &&& (event.is_cancel() || (event.code == KeyCode::Char('q') && event.is_plain()))
        } else {
            &&& !(event.code == KeyCode::Char('/') && event.is_plain())
            &&& !is_key(event, KeyCode::Up, 'k')
            &&& !is_key(event, KeyCode::Down, 'j')
        }
    }

    /// The dialog after a key that leaves it open.
    pub open spec fn after(self, event: KeyEvent) -> HelpView {
        if event.kind != KeyEventKind::Press || self.closes(event) {
            self
        } else if self.editing_filter {
            match (event.code, event.typed()) {
                (KeyCode::Enter, _) => HelpView { editing_filter: false, ..self },
                (KeyCode::Backspace, _) => HelpView {
                    filter: edited(self.filter, event),
                    scroll: 0,
                    ..self
                },
                (_, Some(c)) => HelpView { filter: self.filter.push(c), scroll: 0, ..self },
                _ => self,
            }
        } else if event.code == KeyCode::Char('/') && event.is_plain() {
            HelpView { filter: Seq::empty(), editing_filter: true, scroll: 0 }
        } else if is_key(event, KeyCode::Up, 'k') {
            HelpView { scroll: one_up(self.scroll), ..self }
        } else {
            HelpView { scroll: one_down(self.scroll), ..self }
        }
    }
}

impl HelpDialog {
    /// The dialog as contracts speak of it.
    pub open spec fn view(&self) -> HelpView {
        HelpView {
            filter: self.filter@,
            editing_filter: self.editing_filter,
            scroll: self.scroll,
        }
    }

    /// The list from its top, unfiltered.
    pub fn new() -> (r: Self)
        ensures
            r@ == (HelpView { filter: Seq::empty(), editing_filter: false, scroll: 0 }),
    {
        let r = HelpDialog { filter: String::new(), editing_filter: false, scroll: 0 };
        assert(r@.filter =~= Seq::empty());
        r
    }

    /// What a key does.
    pub fn press(&mut self, event: KeyEvent) -> (r: Verdict<()>)
        ensures
            r == (if old(self)@.closes(event) {
                Verdict::Closed(())
            } else {
                Verdict::<()>::Open
            }),
            final(self)@ == old(self)@.after(event),
    {
        if event.kind != KeyEventKind::Press {
            return Verdict::Open;
        }
        if self.editing_filter {
            match event.code {
                KeyCode::Enter => {
                    self.editing_filter = false;
                    return Verdict::Open;
                },
                KeyCode::Backspace => {
                    edit(&mut self.filter, event);
                    self.scroll = 0;
                    return Verdict::Open;
                },
                _ => {},
            }
            if cancel_key(event) {
                return Verdict::Closed(());
            }
            match typed_char(event) {
                Some(c) => {
                    if c == 'q' {
                        return Verdict::Closed(());
                    }
                    self.filter.push(c);
                    self.scroll = 0;
                },
                None => {},
            }
            return Verdict::Open;
        }
        match event.code {
            KeyCode::Char(c) => {
                if c == '/' && plain_key(event) {
                    self.editing_filter = true;
                    self.filter = String::new();
                    assert(self.filter@ =~= Seq::empty());
                    self.scroll = 0;
                    return Verdict::Open;
                }
            },
            _ => {},
        }
        if up_key(event) {
            self.scroll = self.scroll.saturating_sub(1);
            return Verdict::Open;
        }
        if down_key(event) {
            self.scroll = self.scroll.saturating_add(1);
            return Verdict::Open;
        }
        Verdict::Closed(())
    }
}

// ---------------------------------------------------------------------------
// Choices
// ---------------------------------------------------------------------------

/// An option that a key chooses.
#[derive(Debug)]
pub struct KeyChoice {
    pub key: String,
    pub label: String,
    pub disabled: bool,
}

impl KeyChoice {
    /// An option that can be chosen.
    pub fn new(key: &str, label: &str) -> (r: Self)
        ensures
            r.key@ == key@,
            r.label@ == label@,
            !r.disabled,
    {
        KeyChoice { key: owned(key), label: owned(label), disabled: false }
    }

    /// An option that cannot be chosen.
    pub fn disabled(key: &str, label: &str) -> (r: Self)
        ensures
            r.key@ == key@,
            r.label@ == label@,
            r.disabled,
    {
        KeyChoice { key: owned(key), label: owned(label), disabled: true }
    }
}

/// Options under a title.
#[derive(Debug)]
pub struct ChoiceList {
    pub title: String,
    pub choices: Vec<KeyChoice>,
}

/// An option as contracts speak of it.
#[verifier::ext_equal]
pub struct ChoiceView {
    pub key: Seq<char>,
    pub label: Seq<char>,
    pub disabled: bool,
}

impl KeyChoice {
    /// The option as contracts speak of it.
    pub open spec fn view(&self) -> ChoiceView {
        ChoiceView { key: self.key@, label: self.label@, disabled: self.disabled }
    }
}

impl ChoiceList {
    /// The options as contracts speak of them.
    pub open spec fn options(&self) -> Seq<ChoiceView> {
        Seq::new(self.choices@.len(), |i: int| self.choices@[i]@)
    }
}

/// An option that can be chosen.
pub open spec fn choice(key: Seq<char>, label: Seq<char>) -> ChoiceView {
    ChoiceView { key, label, disabled: false }
}

/// Whether an option can be chosen by a key, whatever the case of its letters.
pub open spec fn answers_to(option: ChoiceView, key: Seq<char>) -> bool {
    !option.disabled && crate::text::lower(option.key) == crate::text::lower(key)
}

/// The key of the first option that can be chosen by a key, in lower case.
pub fn selectable_choice_key(choices: &ChoiceList, key: &str) -> (r: Option<String>)
    ensures
        (exists|i: int|
            0 <= i < choices.options().len() && answers_to(#[trigger] choices.options()[i], key@))
            ==> r is Some && r->0@ == crate::text::lower(key@),
        (forall|i: int|
            0 <= i < choices.options().len() ==> !answers_to(
                #[trigger] choices.options()[i],
                key@,
            )) ==> r is None,
{
    let mut i: usize = 0;
    while i < choices.choices.len()
        invariant
            i <= choices.choices.len(),
            forall|k: int|
                0 <= k < i ==> !answers_to(#[trigger] choices.options()[k], key@),
        decreases choices.choices.len() - i,
    {
        let option: &KeyChoice = &choices.choices[i];
        assert(choices.options()[i as int] == option@);
        if !option.disabled && same_ignoring_case(option.key.as_str(), key) {
            assert(answers_to(choices.options()[i as int], key@));
            return Some(to_lower(option.key.as_str()));
        }
        i += 1;
    }
    None
}

/// Options with their keys, all of which can be chosen.
pub fn choice_list(title: &str, pairs: &Vec<(&str, &str)>) -> (r: ChoiceList)
    ensures
        r.title@ == title@,
        r.options() == Seq::new(
            pairs@.len(),
            |i: int| choice(pairs@[i].0@, pairs@[i].1@),
        ),
{
    let mut choices: Vec<KeyChoice> = Vec::new();
    let mut i: usize = 0;
    while i < pairs.len()
        invariant
            i <= pairs.len(),
            choices.len() == i,
            forall|k: int|
                0 <= k < i ==> (#[trigger] choices@[k])@ == choice(pairs@[k].0@, pairs@[k].1@),
        decreases pairs.len() - i,
    {
        let (key, label): (&str, &str) = pairs[i];
        choices.push(KeyChoice::new(key, label));
        i += 1;
    }
    let r = ChoiceList { title: owned(title), choices };
    assert(r.options() =~= Seq::new(pairs@.len(), |k: int| choice(pairs@[k].0@, pairs@[k].1@)));
    r
}

/// How a choice ends: with the key of an option, in lower case, or without one.
#[derive(Debug)]
pub enum ChoiceEnd {
    Chosen(String),
    Cancelled,
}

/// The key of the option that a key chooses among some options, where it chooses one.
pub open spec fn chosen_by(options: Seq<ChoiceView>, event: KeyEvent) -> Option<Seq<char>> {
    if event.kind == KeyEventKind::Press && !event.is_cancel() && event.typed() is Some && exists|
        i: int,
    |
        0 <= i < options.len() && answers_to(
            #[trigger] options[i],
            seq![crate::text::lower_char(event.typed()->0)],
        ) {
        Some(seq![crate::text::lower_char(event.typed()->0)])
    } else {
        None
    }
}

/// What a key does in a list of options: it chooses the option that answers to it;
/// a cancel key gives the choice up.
pub fn press_choice(choices: &ChoiceList, event: KeyEvent) -> (r: Option<ChoiceEnd>)
    ensures
        (r is Some && r->0 is Cancelled) == (event.kind == KeyEventKind::Press && event.is_cancel()),
        (match r {
            Some(ChoiceEnd::Chosen(key)) => Some(key@),
            _ => None,
        }) == chosen_by(choices.options(), event),
        event.kind != KeyEventKind::Press ==> r is None,
        event.kind == KeyEventKind::Press && event.is_cancel() ==> r == Some(ChoiceEnd::Cancelled),
        event.kind == KeyEventKind::Press && !event.is_cancel() ==> match event.typed() {
            Some(c) => if exists|i: int|
                0 <= i < choices.options().len() && answers_to(
                    #[trigger] choices.options()[i],
                    seq![crate::text::lower_char(c)],
                ) {
                r matches Some(ChoiceEnd::Chosen(key)) && key@ == seq![crate::text::lower_char(c)]
            } else {
                r is None
            },
            None => r is None,
        },
{
    if event.kind != KeyEventKind::Press {
        return None;
    }
    if cancel_key(event) {
        return Some(ChoiceEnd::Cancelled);
    }
    match typed_char(event) {
        Some(c) => {
            let mut key: String = String::new();
            key.push(crate::text::to_lower_char(c));
            assert(key@ =~= seq![crate::text::lower_char(c)]);
            match selectable_choice_key(choices, key.as_str()) {
                Some(_) => Some(ChoiceEnd::Chosen(key)),
                None => None,
            }
        },
        None => None,
    }
}

/// What is known of background work that a dialog waits for.
#[derive(Clone, Copy, Debug, PartialEq, Eq, Structural)]
pub enum DialogJob {
    /// The result is there.
    Done,
    /// The work is gone and has left no result.
    Lost,
    /// The work is under way.
    Pending,
}

/// What follows a look at background work that a dialog waits for.
#[derive(Clone, Copy, Debug)]
pub enum DialogWait {
    /// The dialog ends with the result.
    Finish,
    /// The dialog ends with an error.
    Fail(&'static str),
    /// The dialog ends without a result.
    Cancel,
    /// The dialog goes on waiting.
    Wait,
}

/// Whether a key cancels the work that a dialog waits for.
pub open spec fn cancels_job(job: DialogJob, event: Option<KeyEvent>) -> bool {
    job is Pending && event is Some && event->0.kind == KeyEventKind::Press && event->0.code
        == KeyCode::Esc
}

/// What follows a look at background work that a dialog waits for. Only the escape key ends
/// the wait, and a result that is there counts before it.
pub fn wait_for_dialog_job(job: DialogJob, event: Option<KeyEvent>) -> (r: DialogWait)
    ensures
        r is Cancel == cancels_job(job, event),
        match job {
            DialogJob::Done => r is Finish,
            DialogJob::Lost => r matches DialogWait::Fail(error) && error@
                == "background dialog job stopped unexpectedly"@,
            DialogJob::Pending => r == (match event {
                Some(key) => if key.kind == KeyEventKind::Press && key.code == KeyCode::Esc {
                    DialogWait::Cancel
                } else {
                    DialogWait::Wait
                },
                None => DialogWait::Wait,
            }),
        },
{
    match job {
        DialogJob::Done => DialogWait::Finish,
        DialogJob::Lost => DialogWait::Fail("background dialog job stopped unexpectedly"),
        DialogJob::Pending => match event {
            Some(key) => {
                if key.kind == KeyEventKind::Press && key.code == KeyCode::Esc {
                    DialogWait::Cancel
                } else {
                    DialogWait::Wait
                }
            },
            None => DialogWait::Wait,
        },
    }
}

} // verus!
