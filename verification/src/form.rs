//! The form that asks for the inputs of a workflow.
use vstd::prelude::*;

use crate::input::cancel_key;
use crate::input::plain_key;
use crate::input::typed_char;
use crate::input::KeyCode;
use crate::input::KeyEvent;
use crate::input::KeyEventKind;
use crate::text::decimal;
use crate::text::join2;
use crate::text::join3;
use crate::text::owned;
use crate::text::same;

verus! {

/// What kind of value a field takes.
#[derive(Debug)]
pub enum FormFieldKind {
    Text,
    Number,
    Bool,
    Choice(Vec<String>),
    File(String),
}

/// A field of the form.
#[derive(Debug)]
pub struct FormField {
    pub name: String,
    pub value: String,
    pub description: Option<String>,
    pub constraint: Option<String>,
    pub required: bool,
    pub kind: FormFieldKind,
}

/// What kind of value a field takes, as contracts speak of it.
pub enum KindView {
    Text,
    Number,
    Bool,
    Choice(Seq<Seq<char>>),
    File(Seq<char>),
}

impl FormFieldKind {
    /// The kind as contracts speak of it.
    pub open spec fn view(&self) -> KindView {
        match *self {
            FormFieldKind::Text => KindView::Text,
            FormFieldKind::Number => KindView::Number,
            FormFieldKind::Bool => KindView::Bool,
            FormFieldKind::Choice(options) => KindView::Choice(crate::text::texts(options@)),
            FormFieldKind::File(glob) => KindView::File(glob@),
        }
    }
}

/// An input that a workflow asks for.
#[derive(Debug)]
pub enum WorkflowInput {
    Text { min_length: Option<u64>, max_length: Option<u64> },
    /// The bounds as they are written.
    Number { min: Option<String>, max: Option<String> },
    Bool,
    Choice { options: Vec<String> },
    File { glob: String },
}

/// How a pair of bounds is shown, with a unit behind the numbers.
pub open spec fn bounds_text(min: Option<Seq<char>>, max: Option<Seq<char>>, unit: Seq<char>) -> Option<
    Seq<char>,
> {
    match (min, max) {
        (Some(low), Some(high)) => Some(low + "–"@ + high + unit),
        (Some(low), None) => Some("at least "@ + low + unit),
        (None, Some(high)) => Some("at most "@ + high + unit),
        (None, None) => None,
    }
}

/// The decimal text of an optional number.
pub open spec fn opt_decimal(n: Option<u64>) -> Option<Seq<char>> {
    match n {
        Some(value) => Some(crate::text::decimal_text(value as nat)),
        None => None,
    }
}

/// What the form says of the values that an input takes.
pub open spec fn constraint_of(input: WorkflowInput) -> Option<Seq<char>> {
    match input {
        WorkflowInput::Text { min_length, max_length } => bounds_text(
            opt_decimal(min_length),
            opt_decimal(max_length),
            " chars"@,
        ),
        WorkflowInput::Number { min, max } => bounds_text(
            crate::text::opt_text(min),
            crate::text::opt_text(max),
            ""@,
        ),
        WorkflowInput::Choice { options } => Some(
            crate::text::decimal_text(options@.len()) + " options"@,
        ),
        _ => None,
    }
}

/// The kind of field for an input.
pub open spec fn kind_of(input: WorkflowInput) -> KindView {
    match input {
        WorkflowInput::Text { .. } => KindView::Text,
        WorkflowInput::Number { .. } => KindView::Number,
        WorkflowInput::Bool => KindView::Bool,
        WorkflowInput::Choice { options } => KindView::Choice(crate::text::texts(options@)),
        WorkflowInput::File { glob } => KindView::File(glob@),
    }
}

fn show_bounds(min: Option<&str>, max: Option<&str>, unit: &str) -> (r: Option<String>)
    ensures
        crate::text::opt_text(r) == bounds_text(
            match min {
                Some(low) => Some(low@),
                None => None,
            },
            match max {
                Some(high) => Some(high@),
                None => None,
            },
            unit@,
        ),
{
    match (min, max) {
        (Some(low), Some(high)) => {
            let mut out: String = join3(low, "–", high);
            out.append(unit);
            Some(out)
        },
        (Some(low), None) => Some(join3("at least ", low, unit)),
        (None, Some(high)) => Some(join3("at most ", high, unit)),
        (None, None) => None,
    }
}

fn show_number(n: Option<u64>) -> (r: Option<String>)
    ensures
        crate::text::opt_text(r) == opt_decimal(n),
{
    match n {
        Some(value) => Some(decimal(value)),
        None => None,
    }
}

fn as_text(value: &Option<String>) -> (r: Option<&str>)
    ensures
        match r {
            Some(text) => crate::text::opt_text(*value) == Some(text@),
            None => *value is None,
        },
{
    match value {
        Some(text) => Some(text.as_str()),
        None => None,
    }
}

/// The field for an input, holding the input's default value.
pub fn form_field(
    name: &str,
    input: &WorkflowInput,
    default: &Option<String>,
    description: &Option<String>,
    required: bool,
) -> (r: FormField)
    ensures
        r.name@ == name@,
        r.value@ == (match *default {
            Some(value) => value@,
            None => Seq::empty(),
        }),
        crate::text::opt_text(r.description) == crate::text::opt_text(*description),
        crate::text::opt_text(r.constraint) == constraint_of(*input),
        r.required == required,
        r.kind@ == kind_of(*input),
{
    let value: String = match default {
        Some(value) => value.clone(),
        None => String::new(),
    };
    assert(default is None ==> value@ =~= Seq::empty());
    let (constraint, kind): (Option<String>, FormFieldKind) = match input {
        WorkflowInput::Text { min_length, max_length } => {
            let low: Option<String> = show_number(*min_length);
            let high: Option<String> = show_number(*max_length);
            (show_bounds(as_text(&low), as_text(&high), " chars"), FormFieldKind::Text)
        },
        WorkflowInput::Number { min, max } => {
            (show_bounds(as_text(min), as_text(max), ""), FormFieldKind::Number)
        },
        WorkflowInput::Bool => (None, FormFieldKind::Bool),
        WorkflowInput::Choice { options } => {
            let count: String = decimal(options.len() as u64);
            (
                Some(join2(count.as_str(), " options")),
                FormFieldKind::Choice(crate::text::copy_texts(options)),
            )
        },
        WorkflowInput::File { glob } => (None, FormFieldKind::File(glob.clone())),
    };
    FormField {
        name: owned(name),
        value,
        description: crate::text::copy_opt(description),
        constraint,
        required,
        kind,
    }
}

// ---------------------------------------------------------------------------
// Values
// ---------------------------------------------------------------------------

/// The other truth value; anything but `true` counts as false.
pub open spec fn flipped_bool(value: Seq<char>) -> Seq<char> {
    if value == "true"@ {
        "false"@
    } else {
        "true"@
    }
}

fn toggle_bool_field(value: &str) -> (r: String)
    ensures
        r@ == flipped_bool(value@),
{
    if same(value, "true") {
        owned("false")
    } else {
        owned("true")
    }
}

/// The first position of a value among options.
pub open spec fn option_position(options: Seq<Seq<char>>, value: Seq<char>) -> Option<usize>
    decreases options.len(),
{
    if options.len() == 0 {
        None
    } else {
        match option_position(options.drop_last(), value) {
            Some(found) => Some(found),
            None => if options.last() == value {
                Some((options.len() - 1) as usize)
            } else {
                None
            },
        }
    }
}

/// The position that stands for a value among options: the first where the value is
/// none of them.
pub open spec fn option_of(options: Seq<Seq<char>>, value: Seq<char>) -> usize {
    match option_position(options, value) {
        Some(found) => found,
        None => 0,
    }
}

/// The option next to a value, staying at either end; the first option where the
/// value is none of them.
pub open spec fn cycled(value: Seq<char>, options: Seq<Seq<char>>, forward: bool) -> Seq<char> {
    if options.len() == 0 {
        value
    } else {
        match option_position(options, value) {
            None => options[0],
            Some(at) => if forward {
                if at + 1 < options.len() {
                    options[at + 1]
                } else {
                    options[options.len() - 1]
                }
            } else if at > 0 {
                options[at - 1]
            } else {
                options[0]
            },
        }
    }
}

fn find_option(options: &Vec<String>, value: &str) -> (r: Option<usize>)
    ensures
        r == option_position(crate::text::texts(options@), value@),
        r matches Some(at) ==> at < options.len(),
{
    let ghost all = crate::text::texts(options@);
    let mut found: Option<usize> = None;
    let mut i: usize = 0;
    while i < options.len()
        invariant
            i <= options.len(),
            all == crate::text::texts(options@),
            found == option_position(all.take(i as int), value@),
            found matches Some(at) ==> at < options.len(),
        decreases options.len() - i,
    {
        proof {
            assert(all.take(i + 1).drop_last() =~= all.take(i as int));
            assert(all.take(i + 1).last() == options@[i as int]@);
        }
        if found.is_none() && same(options[i].as_str(), value) {
            found = Some(i);
        }
        i += 1;
    }
    assert(all.take(options.len() as int) =~= all);
    found
}

fn selected_option(options: &Vec<String>, value: &str) -> (r: usize)
    ensures
        r == option_of(crate::text::texts(options@), value@),
{
    match find_option(options, value) {
        Some(found) => found,
        None => 0,
    }
}

fn cycle_enum_field(value: &str, options: &Vec<String>, forward: bool) -> (r: String)
    ensures
        r@ == cycled(value@, crate::text::texts(options@), forward),
{
    if options.len() == 0 {
        return owned(value);
    }
    match find_option(options, value) {
        None => options[0].clone(),
        Some(at) => {
            let next: usize = if forward {
                if at + 1 < options.len() {
                    at + 1
                } else {
                    options.len() - 1
                }
            } else if at > 0 {
                at - 1
            } else {
                0
            };
            options[next].clone()
        },
    }
}

// ---------------------------------------------------------------------------
// The form
// ---------------------------------------------------------------------------

/// What a key asks of the driver.
#[derive(Clone, Copy, Debug, PartialEq, Eq, Structural)]
pub enum FormVerdict {
    /// The form stays open.
    Open,
    /// The form is given up.
    Cancelled,
    /// A file is to be picked for a field.
    PickFile(usize),
    /// The values are to be checked.
    Submit,
}

/// The form, with the selected field or the submit button behind the last one.
#[derive(Debug)]
pub struct FormDialog {
    pub fields: Vec<FormField>,
    pub selected: usize,
    /// The option under the cursor, while the options of a field are shown.
    pub dropdown: Option<usize>,
    pub error: Option<String>,
}

/// The form, as contracts speak of it.
#[verifier::ext_equal]
pub struct FormView {
    pub names: Seq<Seq<char>>,
    pub kinds: Seq<KindView>,
    pub descriptions: Seq<Option<Seq<char>>>,
    pub constraints: Seq<Option<Seq<char>>>,
    pub required: Seq<bool>,
    pub values: Seq<Seq<char>>,
    pub selected: usize,
    pub dropdown: Option<usize>,
    pub error: Option<Seq<char>>,
}

impl FormView {
    /// The kind of the selected field.
    pub open spec fn kind(self) -> Option<KindView> {
        if self.selected < self.kinds.len() {
            Some(self.kinds[self.selected as int])
        } else {
            None
        }
    }

    /// The value of the selected field.
    pub open spec fn value(self) -> Seq<char> {
        self.values[self.selected as int]
    }

    /// With a value in the selected field.
    pub open spec fn with_value(self, value: Seq<char>) -> FormView {
        FormView { values: self.values.update(self.selected as int, value), ..self }
    }

    /// With the next field selected, or the submit button behind the last.
    pub open spec fn with_next(self) -> FormView {
        FormView {
            selected: if self.selected < self.kinds.len() {
                (self.selected + 1) as usize
            } else {
                self.kinds.len() as usize
            },
            ..self
        }
    }

    /// With the cursor of the shown options at a position.
    pub open spec fn with_menu(self, menu: usize) -> FormView {
        FormView { dropdown: Some(menu), ..self }
    }

    /// After a key while the options of a field are shown.
    pub open spec fn after_in_menu(
        self,
        menu: usize,
        options: Seq<Seq<char>>,
        event: KeyEvent,
    ) -> FormView {
        let last = if options.len() == 0 {
            0
        } else {
            (options.len() - 1) as usize
        };
        let closed = FormView { dropdown: None, ..self };
        if event.code == KeyCode::Esc {
            closed
        } else if event.code == KeyCode::Enter && event.is_plain() {
            if menu < options.len() {
                closed.with_value(options[menu as int])
            } else {
                closed
            }
        } else if !event.is_plain() {
            self
        } else if crate::dialog::is_key(event, KeyCode::Up, 'k') {
            self.with_menu(crate::dialog::one_up(menu))
        } else if crate::dialog::is_key(event, KeyCode::Down, 'j') {
            self.with_menu(
                if menu < last {
                    (menu + 1) as usize
                } else {
                    last
                },
            )
        } else if event.code == KeyCode::Home {
            self.with_menu(0)
        } else if event.code == KeyCode::End {
            self.with_menu(last)
        } else {
            self
        }
    }

    /// With a truth value flipped, the options of a field shown, or a space typed.
    pub open spec fn activated(self) -> FormView {
        match self.kind() {
            Some(KindView::Bool) => self.with_value(flipped_bool(self.value())),
            Some(KindView::Choice(options)) => self.with_menu(option_of(options, self.value())),
            _ => self,
        }
    }

    /// After a plain key outside the options of a field.
    pub open spec fn after_plain(self, event: KeyEvent) -> FormView {
        match event.code {
            KeyCode::Tab => self.with_next(),
            KeyCode::Down => self.with_next(),
            KeyCode::BackTab => FormView { selected: crate::dialog::one_up(self.selected), ..self },
            KeyCode::Up => FormView { selected: crate::dialog::one_up(self.selected), ..self },
            KeyCode::Enter => match self.kind() {
                Some(KindView::Text) => self.with_next(),
                Some(KindView::Number) => self.with_next(),
                _ => self.activated(),
            },
            KeyCode::Left => self.after_side(false),
            KeyCode::Right => self.after_side(true),
            KeyCode::Backspace => match self.kind() {
                Some(KindView::Text) => self.with_value(
                    crate::dialog::edited(self.value(), event),
                ),
                Some(KindView::Number) => self.with_value(
                    crate::dialog::edited(self.value(), event),
                ),
                Some(KindView::File(_)) => self.with_value(Seq::empty()),
                _ => self,
            },
            KeyCode::Delete => match self.kind() {
                Some(_) => self.with_value(Seq::empty()),
                None => self,
            },
            KeyCode::Char(c) => if c == ' ' {
                match self.kind() {
                    Some(KindView::Text) => self.with_value(self.value().push(' ')),
                    _ => self.activated(),
                }
            } else {
                match (self.kind(), event.typed()) {
                    (Some(KindView::Text), Some(typed)) => self.with_value(
                        self.value().push(typed),
                    ),
                    (Some(KindView::Number), Some(typed)) => self.with_value(
                        self.value().push(typed),
                    ),
                    _ => self,
                }
            },
            _ => self,
        }
    }

    /// After an arrow to the left or to the right.
    pub open spec fn after_side(self, right: bool) -> FormView {
        match self.kind() {
            Some(KindView::Bool) => self.with_value(
                if right {
                    "true"@
                } else {
                    "false"@
                },
            ),
            Some(KindView::Choice(options)) => self.with_value(
                cycled(self.value(), options, right),
            ),
            _ => self,
        }
    }

    /// Whether a key opens a file picker.
    pub open spec fn picks_file(self, event: KeyEvent) -> bool {
        &&& event.is_plain()
        &&& event.code == KeyCode::Enter || event.code == KeyCode::Char(' ')
        &&& self.kind() is Some
        &&& self.kind()->0 is File
    }

    /// The form after a key press.
    pub open spec fn after(self, event: KeyEvent) -> (FormView, FormVerdict) {
        if event.kind != KeyEventKind::Press {
            (self, FormVerdict::Open)
        } else {
            let s = FormView { error: None, ..self };
            match (self.dropdown, self.kind()) {
                (Some(menu), Some(KindView::Choice(options))) => if event.code != KeyCode::Esc
                    && event.is_cancel() {
                    (s, FormVerdict::Cancelled)
                } else {
                    (s.after_in_menu(menu, options, event), FormVerdict::Open)
                },
                (Some(_), _) => (FormView { dropdown: None, ..s }, FormVerdict::Open),
                (None, _) => if event.is_cancel() {
                    (s, FormVerdict::Cancelled)
                } else if !event.is_plain() {
                    (s, FormVerdict::Open)
                } else if event.code == KeyCode::Enter && self.selected == self.kinds.len() {
                    (s, FormVerdict::Submit)
                } else if self.picks_file(event) {
                    (s, FormVerdict::PickFile(self.selected))
                } else {
                    (s.after_plain(event), FormVerdict::Open)
                },
            }
        }
    }
}

impl FormDialog {
    /// The form as contracts speak of it.
    pub open spec fn view(&self) -> FormView {
        FormView {
            names: Seq::new(self.fields@.len(), |i: int| self.fields@[i].name@),
            kinds: Seq::new(self.fields@.len(), |i: int| self.fields@[i].kind@),
            descriptions: Seq::new(
                self.fields@.len(),
                |i: int| crate::text::opt_text(self.fields@[i].description),
            ),
            constraints: Seq::new(
                self.fields@.len(),
                |i: int| crate::text::opt_text(self.fields@[i].constraint),
            ),
            required: Seq::new(self.fields@.len(), |i: int| self.fields@[i].required),
            values: Seq::new(self.fields@.len(), |i: int| self.fields@[i].value@),
            selected: self.selected,
            dropdown: self.dropdown,
            error: crate::text::opt_text(self.error),
        }
    }

    /// A form with its first field selected.
    pub fn new(fields: Vec<FormField>) -> (r: Self)
        ensures
            r.fields == fields,
            r@.selected == 0,
            r@.dropdown is None,
            r@.error is None,
    {
        FormDialog { fields, selected: 0, dropdown: None, error: None }
    }

    fn set_value(&mut self, index: usize, value: String)
        requires
            index < old(self).fields.len(),
        ensures
            final(self)@ == (FormView {
                values: old(self)@.values.update(index as int, value@),
                ..old(self)@
            }),
    {
        let mut field: FormField = self.fields.remove(index);
        field.value = value;
        self.fields.insert(index, field);
        assert(self@.names =~= old(self)@.names);
        assert(self@.kinds =~= old(self)@.kinds);
        assert(self@.descriptions =~= old(self)@.descriptions);
        assert(self@.constraints =~= old(self)@.constraints);
        assert(self@.required =~= old(self)@.required);
        assert(self@.values =~= old(self)@.values.update(index as int, value@));
    }

    fn select_next(&mut self)
        ensures
            final(self)@ == old(self)@.with_next(),
    {
        self.selected = if self.selected < self.fields.len() {
            self.selected + 1
        } else {
            self.fields.len()
        };
    }

    fn activate(&mut self)
        ensures
            final(self)@ == old(self)@.activated(),
    {
        if self.selected >= self.fields.len() {
            return;
        }
        let index: usize = self.selected;
        match &self.fields[index].kind {
            FormFieldKind::Bool => {
                let value: String = toggle_bool_field(self.fields[index].value.as_str());
                self.set_value(index, value);
            },
            FormFieldKind::Choice(options) => {
                let menu: usize = selected_option(options, self.fields[index].value.as_str());
                self.dropdown = Some(menu);
            },
            _ => {},
        }
    }

    fn side(&mut self, right: bool)
        ensures
            final(self)@ == old(self)@.after_side(right),
    {
        if self.selected >= self.fields.len() {
            return;
        }
        let index: usize = self.selected;
        match &self.fields[index].kind {
            FormFieldKind::Bool => {
                let value: String = if right {
                    owned("true")
                } else {
                    owned("false")
                };
                self.set_value(index, value);
            },
            FormFieldKind::Choice(options) => {
                let value: String = cycle_enum_field(
                    self.fields[index].value.as_str(),
                    options,
                    right,
                );
                self.set_value(index, value);
            },
            _ => {},
        }
    }

    fn menu_key(&mut self, menu: usize, event: KeyEvent)
        requires
            old(self)@.kind() matches Some(KindView::Choice(_)),
            old(self)@.dropdown == Some(menu),
        ensures
            final(self)@ == old(self)@.after_in_menu(
                menu,
                old(self)@.kind()->0->Choice_0,
                event,
            ),
    {
        let index: usize = self.selected;
        let (count, chosen): (usize, Option<String>) = match &self.fields[index].kind {
            FormFieldKind::Choice(options) => (
                options.len(),
                if menu < options.len() {
                    Some(options[menu].clone())
                } else {
                    None
                },
            ),
            _ => (0, None),
        };
        let last: usize = if count == 0 {
            0
        } else {
            count - 1
        };
        match event.code {
            KeyCode::Esc => {
                self.dropdown = None;
            },
            KeyCode::Enter => {
                if plain_key(event) {
                    self.dropdown = None;
                    match chosen {
                        Some(value) => {
                            self.set_value(index, value);
                        },
                        None => {},
                    }
                }
            },
            KeyCode::Home => {
                if plain_key(event) {
                    self.dropdown = Some(0);
                }
            },
            KeyCode::End => {
                if plain_key(event) {
                    self.dropdown = Some(last);
                }
            },
            KeyCode::Up => {
                if plain_key(event) {
                    self.dropdown = Some(menu.saturating_sub(1));
                }
            },
            KeyCode::Down => {
                if plain_key(event) {
                    self.dropdown = Some(
                        if menu < last {
                            menu + 1
                        } else {
                            last
                        },
                    );
                }
            },
            KeyCode::Char(c) => {
                if plain_key(event) && c == 'k' {
                    self.dropdown = Some(menu.saturating_sub(1));
                } else if plain_key(event) && c == 'j' {
                    self.dropdown = Some(
                        if menu < last {
                            menu + 1
                        } else {
                            last
                        },
                    );
                }
            },
            _ => {},
        }
    }

    fn plain_key_press(&mut self, event: KeyEvent)
        requires
            event.is_plain(),
        ensures
            final(self)@ == old(self)@.after_plain(event),
    {
        match event.code {
            KeyCode::Tab => {
                self.select_next();
            },
            KeyCode::Down => {
                self.select_next();
            },
            KeyCode::BackTab => {
                self.selected = self.selected.saturating_sub(1);
            },
            KeyCode::Up => {
                self.selected = self.selected.saturating_sub(1);
            },
            KeyCode::Left => {
                self.side(false);
            },
            KeyCode::Right => {
                self.side(true);
            },
            _ => {
                if self.selected < self.fields.len() {
                    self.field_key(event);
                }
            },
        }
    }

    fn field_key(&mut self, event: KeyEvent)
        requires
            event.is_plain(),
            old(self).selected < old(self).fields.len(),
            event.code == KeyCode::Enter || event.code == KeyCode::Backspace || event.code
                == KeyCode::Delete || event.code is Char || event.code == KeyCode::Esc
                || event.code == KeyCode::Home || event.code == KeyCode::End || event.code
                == KeyCode::Unnamed,
        ensures
            final(self)@ == old(self)@.after_plain(event),
    {
        let index: usize = self.selected;
        let typed: bool = match &self.fields[index].kind {
            FormFieldKind::Text => true,
            FormFieldKind::Number => true,
            _ => false,
        };
        let text: bool = match &self.fields[index].kind {
            FormFieldKind::Text => true,
            _ => false,
        };
        let file: bool = match &self.fields[index].kind {
            FormFieldKind::File(_) => true,
            _ => false,
        };
        let mut value: String = self.fields[index].value.clone();
        match event.code {
            KeyCode::Enter => {
                if typed {
                    self.select_next();
                } else {
                    self.activate();
                }
            },
            KeyCode::Backspace => {
                if typed {
                    let _ = value.pop();
                    self.set_value(index, value);
                } else if file {
                    let empty: String = String::new();
                    assert(empty@ =~= Seq::empty());
                    self.set_value(index, empty);
                }
            },
            KeyCode::Delete => {
                let empty: String = String::new();
                assert(empty@ =~= Seq::empty());
                self.set_value(index, empty);
            },
            KeyCode::Char(c) => {
                if c == ' ' {
                    if text {
                        value.push(' ');
                        self.set_value(index, value);
                    } else {
                        self.activate();
                    }
                } else if typed {
                    match typed_char(event) {
                        Some(letter) => {
                            value.push(letter);
                            self.set_value(index, value);
                        },
                        None => {},
                    }
                }
            },
            _ => {},
        }
    }

    /// What a key does.
    pub fn press(&mut self, event: KeyEvent) -> (r: FormVerdict)
        ensures
            (final(self)@, r) == old(self)@.after(event),
    {
        if event.kind != KeyEventKind::Press {
            return FormVerdict::Open;
        }
        self.error = None;
        let on_choice: bool = self.selected < self.fields.len() && match &self.fields[self.selected].kind {
            FormFieldKind::Choice(_) => true,
            _ => false,
        };
        match self.dropdown {
            Some(menu) => {
                if !on_choice {
                    self.dropdown = None;
                    return FormVerdict::Open;
                }
                if event.code != KeyCode::Esc && cancel_key(event) {
                    return FormVerdict::Cancelled;
                }
                self.menu_key(menu, event);
                return FormVerdict::Open;
            },
            None => {},
        }
        if cancel_key(event) {
            return FormVerdict::Cancelled;
        }
        if !plain_key(event) {
            return FormVerdict::Open;
        }
        if event.code == KeyCode::Enter && self.selected == self.fields.len() {
            return FormVerdict::Submit;
        }
        let on_file: bool = self.selected < self.fields.len() && match &self.fields[self.selected].kind {
            FormFieldKind::File(_) => true,
            _ => false,
        };
        if on_file && (event.code == KeyCode::Enter || event.code == KeyCode::Char(' ')) {
            return FormVerdict::PickFile(self.selected);
        }
        self.plain_key_press(event);
        FormVerdict::Open
    }

    /// Takes the result of a file picker for a field.
    pub fn picked(&mut self, index: usize, result: Result<Option<String>, String>)
        ensures
            final(self)@ == (match result {
                Ok(Some(value)) => if index < old(self)@.values.len() {
                    FormView {
                        values: old(self)@.values.update(index as int, value@),
                        ..old(self)@
                    }
                } else {
                    old(self)@
                },
                Ok(None) => old(self)@,
                Err(problem) => FormView { error: Some(problem@), ..old(self)@ },
            }),
    {
        match result {
            Ok(Some(value)) => {
                if index < self.fields.len() {
                    self.set_value(index, value);
                }
            },
            Ok(None) => {},
            Err(problem) => {
                self.error = Some(problem);
            },
        }
    }

    /// Takes over the checked form of the values, up to the first field whose check
    /// found a problem.
    pub fn store_checked(&mut self, checked: &Vec<Result<String, String>>)
        ensures
            final(self)@ == (FormView {
                values: checked_values(old(self)@.values, checked@, checked@.len()),
                ..old(self)@
            }),
    {
        let mut i: usize = 0;
        assert(self@ =~= (FormView {
            values: checked_values(old(self)@.values, checked@, 0),
            ..old(self)@
        }));
        while i < checked.len()
            invariant
                i <= checked.len(),
                self@ == (FormView {
                    values: checked_values(old(self)@.values, checked@, i as nat),
                    ..old(self)@
                }),
                self@.values.len() == old(self)@.values.len(),
                leading_passed(checked@, i as nat) == i,
            decreases checked.len() - i,
        {
            match &checked[i] {
                Ok(value) => {
                    if i < self.fields.len() {
                        self.set_value(i, value.clone());
                    }
                    proof {
                        assert(leading_passed(checked@, i as nat + 1) == i + 1);
                        assert(self@.values =~= checked_values(
                            old(self)@.values,
                            checked@,
                            i as nat + 1,
                        ));
                    }
                },
                Err(_) => {
                    proof {
                        lemma_leading_stops(checked@, i as nat, checked@.len());
                        assert(self@.values =~= checked_values(
                            old(self)@.values,
                            checked@,
                            checked@.len(),
                        ));
                    }
                    return;
                },
            }
            i += 1;
        }
    }

    /// Takes the problem that a check of the values found in a field.
    pub fn rejected(&mut self, index: usize, problem: String)
        ensures
            final(self)@ == (FormView {
                selected: index,
                error: Some(problem@),
                ..old(self)@
            }),
    {
        self.selected = index;
        self.error = Some(problem);
    }
}

// ---------------------------------------------------------------------------
// Checking the values
// ---------------------------------------------------------------------------

/// What checking a form comes to, as far as the checks have come.
pub enum CheckView {
    /// The value of a field is to be checked.
    Check(usize, Seq<char>),
    /// A field has a problem.
    Invalid(usize, Seq<char>),
    /// Every value passed, and these are the values.
    Passed(Seq<Seq<char>>),
}

/// What checking a form comes to.
#[derive(Debug)]
pub enum FormCheck {
    Check(usize, String),
    Invalid(usize, String),
    Passed(Vec<String>),
}

impl FormCheck {
    /// The outcome as contracts speak of it.
    pub open spec fn view(&self) -> CheckView {
        match *self {
            FormCheck::Check(index, raw) => CheckView::Check(index, raw@),
            FormCheck::Invalid(index, problem) => CheckView::Invalid(index, problem@),
            FormCheck::Passed(values) => CheckView::Passed(crate::text::texts(values@)),
        }
    }
}

/// The value that stands for a field: what was typed, or else the default.
pub open spec fn raw_value(value: Seq<char>, default: Option<Seq<char>>) -> Option<Seq<char>> {
    if value.len() > 0 {
        Some(value)
    } else {
        default
    }
}

/// How many of the first `n` checks passed before one did not.
pub open spec fn leading_passed(checked: Seq<Result<String, String>>, n: nat) -> nat
    decreases n,
{
    if n == 0 {
        0
    } else {
        let before = leading_passed(checked, (n - 1) as nat);
        if before == n - 1 && checked[n - 1] is Ok {
            n
        } else {
            before
        }
    }
}

proof fn lemma_leading_stops(checked: Seq<Result<String, String>>, at: nat, n: nat)
    requires
        at < n <= checked.len(),
        leading_passed(checked, at) == at,
        checked[at as int] is Err,
    ensures
        leading_passed(checked, n) == at,
    decreases n,
{
    if n > at + 1 {
        lemma_leading_stops(checked, at, (n - 1) as nat);
    }
}

/// Values with the leading ones replaced by their checked form.
pub open spec fn checked_values(
    values: Seq<Seq<char>>,
    checked: Seq<Result<String, String>>,
    n: nat,
) -> Seq<Seq<char>> {
    Seq::new(
        values.len(),
        |i: int|
            if i < leading_passed(checked, n) {
                checked[i]->Ok_0@
            } else {
                values[i]
            },
    )
}

/// What checking the fields from one on comes to; `checked` holds what the checks
/// said of the fields so far, the value in its checked form or a problem.
pub open spec fn check_from(
    names: Seq<Seq<char>>,
    values: Seq<Seq<char>>,
    defaults: Seq<Option<String>>,
    checked: Seq<Result<String, String>>,
    at: nat,
    passed: Seq<Seq<char>>,
) -> CheckView
    decreases names.len() - at,
{
    if at >= names.len() {
        CheckView::Passed(passed)
    } else {
        match raw_value(values[at as int], crate::text::opt_text(defaults[at as int])) {
            None => CheckView::Invalid(
                at as usize,
                "Workflow input '"@ + names[at as int] + "' is required"@,
            ),
            Some(raw) => if at >= checked.len() {
                CheckView::Check(at as usize, raw)
            } else {
                match checked[at as int] {
                    Err(problem) => CheckView::Invalid(
                        at as usize,
                        "Workflow input '"@ + names[at as int] + "': "@ + problem@,
                    ),
                    Ok(value) => check_from(
                        names,
                        values,
                        defaults,
                        checked,
                        at + 1,
                        passed.push(value@),
                    ),
                }
            },
        }
    }
}

/// Checks the values of a form, one field after the other. A field without a value
/// takes its default, and is a problem where it has none.
pub fn validate_workflow_form(
    fields: &Vec<FormField>,
    defaults: &Vec<Option<String>>,
    checked: &Vec<Result<String, String>>,
) -> (r: FormCheck)
    requires
        defaults.len() == fields.len(),
    ensures
        r@ == check_from(
            Seq::new(fields@.len(), |i: int| fields@[i].name@),
            Seq::new(fields@.len(), |i: int| fields@[i].value@),
            defaults@,
            checked@,
            0,
            Seq::empty(),
        ),
{
    let ghost names = Seq::new(fields@.len(), |i: int| fields@[i].name@);
    let ghost values = Seq::new(fields@.len(), |i: int| fields@[i].value@);
    let mut passed: Vec<String> = Vec::new();
    let mut i: usize = 0;
    assert(crate::text::texts(passed@) =~= Seq::<Seq<char>>::empty());
    while i < fields.len()
        invariant
            i <= fields.len(),
            defaults.len() == fields.len(),
            names == Seq::new(fields@.len(), |k: int| fields@[k].name@),
            values == Seq::new(fields@.len(), |k: int| fields@[k].value@),
            check_from(names, values, defaults@, checked@, 0, Seq::empty()) == check_from(
                names,
                values,
                defaults@,
                checked@,
                i as nat,
                crate::text::texts(passed@),
            ),
        decreases fields.len() - i,
    {
        let field: &FormField = &fields[i];
        let raw: String = if field.value.as_str().unicode_len() > 0 {
            field.value.clone()
        } else {
            match &defaults[i] {
                Some(value) => value.clone(),
                None => {
                    return FormCheck::Invalid(
                        i,
                        join3("Workflow input '", field.name.as_str(), "' is required"),
                    );
                },
            }
        };
        assert(raw_value(values[i as int], crate::text::opt_text(defaults@[i as int])) == Some(
            raw@,
        ));
        if i >= checked.len() {
            return FormCheck::Check(i, raw);
        }
        match &checked[i] {
            Err(problem) => {
                let mut message: String = join3("Workflow input '", field.name.as_str(), "': ");
                message.append(problem.as_str());
                return FormCheck::Invalid(i, message);
            },
            Ok(value) => {
                let ghost before = crate::text::texts(passed@);
                passed.push(value.clone());
                assert(crate::text::texts(passed@) =~= before.push(value@));
            },
        }
        i += 1;
    }
    FormCheck::Passed(passed)
}

// ---------------------------------------------------------------------------
// Picking a file
// ---------------------------------------------------------------------------

/// The arguments of the file picker for an input.
pub open spec fn picker_args(name: Seq<char>, glob: Seq<char>) -> Seq<Seq<char>> {
    seq![
        "--prompt="@ + name + "> "@,
        "--header=Select a file matching "@ + glob,
        "--height=80%"@,
        "--reverse"@,
    ]
}

/// The arguments of the file picker for an input, or why there is nothing to pick.
pub fn pick_workflow_file(name: &str, glob: &str, worktree: &str, candidates: usize) -> (r: Result<
    Vec<String>,
    String,
>)
    ensures
        match r {
            Err(problem) => candidates == 0 && problem@ == "no files match '"@ + glob@
                + "' under "@ + worktree@,
            Ok(args) => candidates > 0 && crate::text::texts(args@) == picker_args(name@, glob@),
        },
{
    if candidates == 0 {
        let mut problem: String = join3("no files match '", glob, "' under ");
        problem.append(worktree);
        return Err(problem);
    }
    let mut args: Vec<String> = Vec::new();
    args.push(join3("--prompt=", name, "> "));
    args.push(join2("--header=Select a file matching ", glob));
    args.push(owned("--height=80%"));
    args.push(owned("--reverse"));
    assert(crate::text::texts(args@) =~= picker_args(name@, glob@));
    Ok(args)
}

/// A text without the line endings at its end.
pub open spec fn without_line_ends(s: Seq<char>) -> Seq<char>
    decreases s.len(),
{
    if s.len() > 0 && (s.last() == '\r' || s.last() == '\n') {
        without_line_ends(s.drop_last())
    } else {
        s
    }
}

/// What a picker chose: a file, nothing, or why it failed.
pub open spec fn picker_result(
    code: Option<i32>,
    success: bool,
    status: Seq<char>,
    stdout: Seq<char>,
) -> Result<Option<Seq<char>>, Seq<char>> {
    if code == Some(1i32) || code == Some(130i32) {
        Ok(None)
    } else if !success {
        Err("Workflow input picker exited with "@ + status)
    } else if without_line_ends(stdout).len() == 0 {
        Ok(None)
    } else {
        Ok(Some(without_line_ends(stdout)))
    }
}

/// What the file picker gave: nothing where it found no match or was left, a problem
/// where it failed, and otherwise what it printed.
pub fn picked_file(code: Option<i32>, success: bool, status: &str, stdout: &str) -> (r: Result<
    Option<String>,
    String,
>)
    ensures
        (match r {
            Ok(picked) => Ok(crate::text::opt_text(picked)),
            Err(problem) => Err(problem@),
        }) == picker_result(code, success, status@, stdout@),
        if code == Some(1i32) || code == Some(130i32) {
            r == Ok::<Option<String>, String>(None)
        } else if !success {
            r matches Err(problem) && problem@ == "Workflow input picker exited with "@ + status@
        } else if without_line_ends(stdout@).len() == 0 {
            r == Ok::<Option<String>, String>(None)
        } else {
            r matches Ok(Some(file)) && file@ == without_line_ends(stdout@)
        },
{
    match code {
        Some(number) => {
            if number == 1 || number == 130 {
                return Ok(None);
            }
        },
        None => {},
    }
    if !success {
        return Err(join2("Workflow input picker exited with ", status));
    }
    let chars: Vec<char> = crate::text::chars_of(stdout);
    let mut n: usize = chars.len();
    assert(chars@.take(n as int) =~= chars@);
    while n > 0 && (chars[n - 1] == '\r' || chars[n - 1] == '\n')
        invariant
            n <= chars.len(),
            without_line_ends(chars@) == without_line_ends(chars@.take(n as int)),
        decreases n,
    {
        assert(chars@.take(n as int).drop_last() =~= chars@.take(n - 1));
        assert(chars@.take(n as int).last() == chars@[n - 1]);
        n -= 1;
    }
    assert(n > 0 ==> chars@.take(n as int).last() == chars@[n - 1]);
    assert(chars@.subrange(0, n as int) =~= chars@.take(n as int));
    if n == 0 {
        return Ok(None);
    }
    Ok(Some(crate::text::slice_text(&chars, 0, n)))
}

// ---------------------------------------------------------------------------
// Laws
// ---------------------------------------------------------------------------

/// A key never adds or removes a field, and changes nothing of the fields but the value of the
/// selected one.
pub proof fn law_keys_edit_one_field(form: FormView, event: KeyEvent, i: int)
    requires
        form.values.len() == form.kinds.len(),
        0 <= i < form.values.len(),
    ensures
        form.after(event).0.names == form.names,
        form.after(event).0.kinds == form.kinds,
        form.after(event).0.descriptions == form.descriptions,
        form.after(event).0.constraints == form.constraints,
        form.after(event).0.required == form.required,
        form.after(event).0.values.len() == form.values.len(),
        i != form.selected ==> form.after(event).0.values[i] == form.values[i],
{
}

/// The cursor stays on the fields and on the submit button behind them.
pub proof fn law_cursor_stays_in_form(form: FormView, event: KeyEvent)
    requires
        form.kinds.len() <= usize::MAX,
        form.selected <= form.kinds.len(),
    ensures
        form.after(event).0.selected <= form.kinds.len(),
{
}

/// An arrow on a field of options chooses one of the options.
pub proof fn law_cycling_stays_among_options(
    value: Seq<char>,
    options: Seq<Seq<char>>,
    forward: bool,
)
    requires
        0 < options.len() <= usize::MAX,
    ensures
        options.contains(cycled(value, options, forward)),
{
    lemma_option_position(options, value);
    match option_position(options, value) {
        None => {
            assert(options.contains(options[0]));
        },
        Some(at) => {
            if forward && at + 1 < options.len() {
                assert(options.contains(options[at + 1]));
            } else if forward {
                assert(options.contains(options[options.len() - 1]));
            } else if at > 0 {
                assert(options.contains(options[at - 1]));
            } else {
                assert(options.contains(options[0]));
            }
        },
    }
}

proof fn lemma_option_position(options: Seq<Seq<char>>, value: Seq<char>)
    requires
        options.len() <= usize::MAX,
    ensures
        option_position(options, value) matches Some(at) ==> at < options.len()
            && options[at as int] == value,
    decreases options.len(),
{
    if options.len() > 0 {
        lemma_option_position(options.drop_last(), value);
    }
}

} // verus!
