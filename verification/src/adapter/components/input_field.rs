//! An input field of a form: a label, a value, and a buffer for editing.

use vstd::prelude::*;
use crate::adapter::input_mode::ModifyInputType;
use crate::text::{char_count, grouped, group_digits, string_pop, string_push};

verus! {

/// The abstract state of an input field.
pub struct InputFieldModel {
    pub label: Seq<char>,
    pub value: Seq<char>,
    pub is_focused: bool,
    pub is_required: bool,
    pub is_readonly: bool,
    pub placeholder: Seq<char>,
    pub max_length: Option<usize>,
    pub input_type: ModifyInputType,
    pub temp_buffer: Seq<char>,
}

/// How the input box is coloured.
#[derive(Debug, Clone, Copy, PartialEq, Eq, Structural)]
pub enum InputBoxStyle {
    /// Read-only: grey on black.
    Readonly,
    /// Focused and being edited: black on yellow.
    Editing,
    /// Focused: black on cyan.
    Focused,
    /// Neither: white on dark grey.
    Plain,
}

/// A form field. While it is being edited ("modify" mode) keys go to a
/// buffer, which is committed to the value or discarded at the end.
pub struct InputField {
    label: String,
    value: String,
    is_focused: bool,
    is_required: bool,
    is_readonly: bool,
    placeholder: String,
    max_length: Option<usize>,
    input_type: ModifyInputType,
    temp_buffer: String,
}

impl View for InputField {
    type V = InputFieldModel;

    closed spec fn view(&self) -> InputFieldModel {
        InputFieldModel {
            label: self.label@,
            value: self.value@,
            is_focused: self.is_focused,
            is_required: self.is_required,
            is_readonly: self.is_readonly,
            placeholder: self.placeholder@,
            max_length: self.max_length,
            input_type: self.input_type,
            temp_buffer: self.temp_buffer@,
        }
    }
}

/// Whether a text fits a field's length limit, counted in characters.
pub open spec fn fits(len: nat, max_length: Option<usize>) -> bool {
    match max_length {
        Some(m) => len <= m,
        None => true,
    }
}

/// A value as the field shows it: grouped by thousands for number fields.
pub open spec fn shown_value(input_type: ModifyInputType, v: Seq<char>) -> Seq<char> {
    if input_type == ModifyInputType::NumberOnly && v.len() > 0 {
        grouped(v)
    } else {
        v
    }
}

impl InputFieldModel {
    /// After starting to edit: the buffer holds the value.
    pub open spec fn started(self) -> InputFieldModel {
        InputFieldModel { temp_buffer: self.value, ..self }
    }

    /// After typing `ch`: the character is added unless the buffer is full.
    pub open spec fn typed(self, ch: char) -> InputFieldModel {
        if fits(self.temp_buffer.len() + 1, self.max_length) {
            InputFieldModel { temp_buffer: self.temp_buffer.push(ch), ..self }
        } else {
            self
        }
    }

    /// After a backspace: the last character of the buffer is gone, if any.
    pub open spec fn erased(self) -> InputFieldModel {
        if self.temp_buffer.len() > 0 {
            InputFieldModel { temp_buffer: self.temp_buffer.drop_last(), ..self }
        } else {
            self
        }
    }

    /// After committing: the value holds the buffer.
    pub open spec fn committed(self) -> InputFieldModel {
        InputFieldModel { value: self.temp_buffer, ..self }
    }

    /// After discarding: the buffer is empty.
    pub open spec fn discarded(self) -> InputFieldModel {
        InputFieldModel { temp_buffer: Seq::empty(), ..self }
    }

    /// The text in the box: the buffer while the focused field is edited,
    /// the value otherwise; the placeholder stands in for an empty text.
    pub open spec fn display_text(self, is_in_modify: bool) -> Seq<char> {
        let text = if self.is_focused && is_in_modify { self.temp_buffer } else { self.value };
        if text.len() == 0 && self.placeholder.len() > 0 {
            self.placeholder
        } else {
            shown_value(self.input_type, text)
        }
    }

    /// How the box is coloured.
    pub open spec fn box_style(self, is_in_modify: bool) -> InputBoxStyle {
        if self.is_readonly {
            InputBoxStyle::Readonly
        } else if self.is_focused && is_in_modify {
            InputBoxStyle::Editing
        } else if self.is_focused {
            InputBoxStyle::Focused
        } else {
            InputBoxStyle::Plain
        }
    }

    /// The cursor after the text: an underscore on a focused, writable field.
    pub open spec fn cursor(self) -> Seq<char> {
        if self.is_focused && !self.is_readonly { "_"@ } else { ""@ }
    }
}

impl InputField {
    /// An empty, unfocused, optional, writable field without length limit.
    pub fn new(label: String) -> (r: Self)
        ensures
            r@ == (InputFieldModel {
                label: label@,
                value: Seq::empty(),
                is_focused: false,
                is_required: false,
                is_readonly: false,
                placeholder: Seq::empty(),
                max_length: None,
                input_type: ModifyInputType::Direct,
                temp_buffer: Seq::empty(),
            }),
    {
        InputField {
            label,
            value: String::new(),
            is_focused: false,
            is_required: false,
            is_readonly: false,
            placeholder: String::new(),
            max_length: None,
            input_type: ModifyInputType::Direct,
            temp_buffer: String::new(),
        }
    }

    /// Groups the digits of a number by thousands: "1234567" becomes
    /// "1,234,567"; the empty text stays empty.
    pub fn format_number_with_commas(num_str: &str) -> (r: String)
        ensures
            r@ == grouped(num_str@),
            num_str@.len() == 0 ==> r@.len() == 0,
    {
        if num_str.is_empty() {
            return String::new();
        }
        group_digits(num_str)
    }

    /// The field with this value (no length check).
    pub fn with_value(self, value: String) -> (r: Self)
        ensures
            r@ == (InputFieldModel { value: value@, ..self@ }),
    {
        let mut s = self;
        s.value = value;
        s
    }

    /// The field, marked required.
    pub fn required(self) -> (r: Self)
        ensures
            r@ == (InputFieldModel { is_required: true, ..self@ }),
    {
        let mut s = self;
        s.is_required = true;
        s
    }

    /// The field, made read-only.
    pub fn readonly(self) -> (r: Self)
        ensures
            r@ == (InputFieldModel { is_readonly: true, ..self@ }),
    {
        let mut s = self;
        s.is_readonly = true;
        s
    }

    /// The field with this placeholder.
    pub fn with_placeholder(self, placeholder: String) -> (r: Self)
        ensures
            r@ == (InputFieldModel { placeholder: placeholder@, ..self@ }),
    {
        let mut s = self;
        s.placeholder = placeholder;
        s
    }

    /// The field, limited to `max_length` characters.
    pub fn with_max_length(self, max_length: usize) -> (r: Self)
        ensures
            r@ == (InputFieldModel { max_length: Some(max_length), ..self@ }),
    {
        let mut s = self;
        s.max_length = Some(max_length);
        s
    }

    /// The field with this kind of input.
    pub fn with_input_type(self, input_type: ModifyInputType) -> (r: Self)
        ensures
            r@ == (InputFieldModel { input_type: input_type, ..self@ }),
    {
        let mut s = self;
        s.input_type = input_type;
        s
    }

    /// The kind of input.
    pub fn input_type(&self) -> (r: ModifyInputType)
        ensures
            r == self@.input_type,
    {
        self.input_type
    }

    /// Focuses or unfocuses the field.
    pub fn set_focused(&mut self, focused: bool)
        ensures
            final(self)@ == (InputFieldModel { is_focused: focused, ..old(self)@ }),
    {
        self.is_focused = focused;
    }

    /// Sets the value, unless it is longer (in characters) than the limit;
    /// then nothing changes.
    pub fn set_value(&mut self, value: String)
        ensures
            fits(value@.len(), old(self)@.max_length) ==> final(self)@ == (InputFieldModel {
                value: value@,
                ..old(self)@
            }),
            !fits(value@.len(), old(self)@.max_length) ==> final(self)@ == old(self)@,
    {
        match self.max_length {
            Some(max_len) => {
                if char_count(value.as_str()) <= max_len {
                    self.value = value;
                }
            },
            None => {
                self.value = value;
            },
        }
    }

    /// The value.
    pub fn value(&self) -> (r: &str)
        ensures
            r@ == self@.value,
    {
        self.value.as_str()
    }

    /// Starts editing: the buffer takes the value.
    pub fn start_modify(&mut self)
        ensures
            final(self)@ == old(self)@.started(),
    {
        self.temp_buffer = self.value.clone();
    }

    /// Types a character into the buffer, unless the buffer already holds
    /// as many characters as the limit allows.
    pub fn append_to_buffer(&mut self, ch: char)
        ensures
            final(self)@ == old(self)@.typed(ch),
    {
        match self.max_length {
            Some(max_len) => {
                if char_count(self.temp_buffer.as_str()) < max_len {
                    string_push(&mut self.temp_buffer, ch);
                }
            },
            None => {
                string_push(&mut self.temp_buffer, ch);
            },
        }
    }

    /// Deletes the last character of the buffer, if any.
    pub fn backspace_buffer(&mut self)
        ensures
            final(self)@ == old(self)@.erased(),
    {
        let _ = string_pop(&mut self.temp_buffer);
    }

    /// The buffer.
    pub fn temp_buffer(&self) -> (r: &str)
        ensures
            r@ == self@.temp_buffer,
    {
        self.temp_buffer.as_str()
    }

    /// Commits the edit: the value takes the buffer.
    pub fn commit_buffer(&mut self)
        ensures
            final(self)@ == old(self)@.committed(),
    {
        self.value = self.temp_buffer.clone();
    }

    /// Discards the edit: the buffer is emptied.
    pub fn clear_buffer(&mut self)
        ensures
            final(self)@ == old(self)@.discarded(),
    {
        self.temp_buffer = String::new();
    }

    /// The text shown in the box.
    pub fn display_text(&self, is_in_modify: bool) -> (r: String)
        ensures
            r@ == self@.display_text(is_in_modify),
    {
        let text = if self.is_focused && is_in_modify {
            &self.temp_buffer
        } else {
            &self.value
        };
        if text.as_str().is_empty() && !self.placeholder.as_str().is_empty() {
            self.placeholder.clone()
        } else if self.input_type == ModifyInputType::NumberOnly && !text.as_str().is_empty() {
            Self::format_number_with_commas(text.as_str())
        } else {
            text.clone()
        }
    }

    /// How the box is coloured.
    pub fn box_style(&self, is_in_modify: bool) -> (r: InputBoxStyle)
        ensures
            r == self@.box_style(is_in_modify),
    {
        if self.is_readonly {
            InputBoxStyle::Readonly
        } else if self.is_focused && is_in_modify {
            InputBoxStyle::Editing
        } else if self.is_focused {
            InputBoxStyle::Focused
        } else {
            InputBoxStyle::Plain
        }
    }

    /// The cursor after the text.
    pub fn cursor(&self) -> (r: &'static str)
        ensures
            r@ == self@.cursor(),
    {
        if self.is_focused && !self.is_readonly {
            "_"
        } else {
            ""
        }
    }

    /// The label.
    pub fn label(&self) -> (r: &str)
        ensures
            r@ == self@.label,
    {
        self.label.as_str()
    }

    /// Whether the field is focused.
    pub fn is_focused(&self) -> (r: bool)
        ensures
            r == self@.is_focused,
    {
        self.is_focused
    }

    /// Whether the field is required (its label is marked).
    pub fn is_required(&self) -> (r: bool)
        ensures
            r == self@.is_required,
    {
        self.is_required
    }
}

/// Starting an edit and committing it at once leaves the value as it was;
/// so does starting an edit and discarding it.
pub proof fn law_edit_without_typing_keeps_value(m: InputFieldModel)
    ensures
        m.started().committed().value == m.value,
        m.started().discarded().value == m.value,
{
}

/// A backspace takes back a character that was typed.
pub proof fn law_backspace_undoes_typing(m: InputFieldModel, ch: char)
    requires
        fits(m.temp_buffer.len() + 1, m.max_length),
    ensures
        m.typed(ch).erased() == m,
{
    assert(m.temp_buffer.push(ch).drop_last() =~= m.temp_buffer);
}

/// A buffer within the length limit stays within it, whatever is typed.
pub proof fn law_buffer_stays_within_limit(m: InputFieldModel, ch: char)
    requires
        fits(m.temp_buffer.len(), m.max_length),
    ensures
        fits(m.typed(ch).temp_buffer.len(), m.max_length),
{
}

} // verus!
