//! Text input widget: the edited text and the cursor in it.

use vstd::prelude::*;
use crate::keys::{KeyCode, KeyEvent};
use crate::text::{chars_of, string_of};

verus! {

/// The state of a text input, over plain text. The cursor counts
/// characters from the start of the value.
pub struct TextInputView {
    pub value: Seq<char>,
    pub cursor: nat,
    pub placeholder: Seq<char>,
    pub focused: bool,
}

impl TextInputView {
    /// The cursor stands in the value or right behind it.
    pub open spec fn well_formed(self) -> bool {
        self.cursor <= self.value.len()
    }

    /// Whether an input consumes a press of `code`.
    pub open spec fn consumes(code: KeyCode) -> bool {
        match code {
            KeyCode::Char(_) => true,
            KeyCode::Backspace => true,
            KeyCode::Delete => true,
            KeyCode::Left => true,
            KeyCode::Right => true,
            KeyCode::Home => true,
            KeyCode::End => true,
            _ => false,
        }
    }

    /// The input after a press of `code`: a character is inserted at the
    /// cursor, which moves behind it; backspace removes the character
    /// before the cursor, delete the one under it; the arrows, home and end
    /// move the cursor within the value.
    pub open spec fn press(self, code: KeyCode) -> TextInputView {
        match code {
            KeyCode::Char(c) => TextInputView {
                value: self.value.insert(self.cursor as int, c),
                cursor: self.cursor + 1,
                ..self
            },
            KeyCode::Backspace => if self.cursor > 0 {
                TextInputView {
                    value: self.value.remove(self.cursor - 1),
                    cursor: (self.cursor - 1) as nat,
                    ..self
                }
            } else {
                self
            },
            KeyCode::Delete => if self.cursor < self.value.len() {
                TextInputView { value: self.value.remove(self.cursor as int), ..self }
            } else {
                self
            },
            KeyCode::Left => if self.cursor > 0 {
                TextInputView { cursor: (self.cursor - 1) as nat, ..self }
            } else {
                self
            },
            KeyCode::Right => if self.cursor < self.value.len() {
                TextInputView { cursor: self.cursor + 1, ..self }
            } else {
                self
            },
            KeyCode::Home => TextInputView { cursor: 0, ..self },
            KeyCode::End => TextInputView { cursor: self.value.len(), ..self },
            _ => self,
        }
    }
}

/// A simple text input field.
#[derive(Debug)]
pub struct TextInput {
    /// The current input value.
    value: String,
    /// Cursor position within the input, in characters.
    cursor_position: usize,
    /// Placeholder text shown when empty.
    placeholder: String,
    /// Whether the input is focused.
    focused: bool,
}

impl View for TextInput {
    type V = TextInputView;

    closed spec fn view(&self) -> TextInputView {
        TextInputView {
            value: self.value@,
            cursor: self.cursor_position as nat,
            placeholder: self.placeholder@,
            focused: self.focused,
        }
    }
}

impl TextInput {
    #[verifier::type_invariant]
    spec fn cursor_in_value(&self) -> bool {
        self.cursor_position <= self.value@.len()
    }

    /// An empty input without focus.
    pub fn new() -> (input: Self)
        ensures
            input@ == (TextInputView {
                value: Seq::empty(),
                cursor: 0,
                placeholder: Seq::empty(),
                focused: false,
            }),
    {
        TextInput {
            value: String::new(),
            cursor_position: 0,
            placeholder: String::new(),
            focused: false,
        }
    }

    /// The same input with `placeholder` shown while it is empty.
    pub fn with_placeholder(self, placeholder: &str) -> (input: Self)
        ensures
            input@ == (TextInputView { placeholder: placeholder@, ..self@ }),
    {
        proof {
            use_type_invariant(&self);
        }
        TextInput {
            value: self.value,
            cursor_position: self.cursor_position,
            placeholder: String::from_str(placeholder),
            focused: self.focused,
        }
    }

    /// The current input value.
    pub fn value(&self) -> (value: &str)
        ensures
            value@ == self@.value,
            self@.well_formed(),
    {
        proof {
            use_type_invariant(self);
        }
        self.value.as_str()
    }

    /// The placeholder shown while the input is empty.
    pub fn placeholder(&self) -> (placeholder: &str)
        ensures
            placeholder@ == self@.placeholder,
    {
        self.placeholder.as_str()
    }

    /// The cursor position, in characters from the start of the value.
    pub fn cursor_position(&self) -> (cursor: usize)
        ensures
            cursor == self@.cursor,
            cursor <= self@.value.len(),
    {
        proof {
            use_type_invariant(self);
        }
        self.cursor_position
    }

    /// Replaces the value and puts the cursor behind it.
    pub fn set_value(&mut self, value: &str)
        ensures
            final(self)@ == (TextInputView {
                value: value@,
                cursor: value@.len(),
                ..old(self)@
            }),
    {
        let count: usize = value.unicode_len();
        self.cursor_position = 0;
        self.value = String::from_str(value);
        self.cursor_position = count;
    }

    /// Empties the value and puts the cursor at the start.
    pub fn clear(&mut self)
        ensures
            final(self)@ == (TextInputView { value: Seq::empty(), cursor: 0, ..old(self)@ }),
    {
        self.cursor_position = 0;
        self.value = String::new();
    }

    pub fn set_focused(&mut self, focused: bool)
        ensures
            final(self)@ == (TextInputView { focused, ..old(self)@ }),
    {
        proof {
            use_type_invariant(&*self);
        }
        self.focused = focused;
    }

    pub fn is_focused(&self) -> (focused: bool)
        ensures
            focused == self@.focused,
    {
        self.focused
    }

    /// Handle a key event, returning true if the event was consumed.
    pub fn handle_key(&mut self, key: KeyEvent) -> (consumed: bool)
        ensures
            final(self)@ == old(self)@.press(key.code),
            consumed == TextInputView::consumes(key.code),
            final(self)@.well_formed(),
    {
        proof {
            use_type_invariant(&*self);
        }
        match key.code {
            KeyCode::Char(c) => {
                let mut chars = chars_of(self.value.as_str());
                chars.insert(self.cursor_position, c);
                assert(self.cursor_position < chars.len());
                self.value = string_of(&chars);
                self.cursor_position = self.cursor_position + 1;
                true
            },
            KeyCode::Backspace => {
                if self.cursor_position > 0 {
                    let mut chars = chars_of(self.value.as_str());
                    self.cursor_position = self.cursor_position - 1;
                    chars.remove(self.cursor_position);
                    self.value = string_of(&chars);
                }
                true
            },
            KeyCode::Delete => {
                let mut chars = chars_of(self.value.as_str());
                if self.cursor_position < chars.len() {
                    chars.remove(self.cursor_position);
                    self.value = string_of(&chars);
                }
                true
            },
            KeyCode::Left => {
                if self.cursor_position > 0 {
                    self.cursor_position = self.cursor_position - 1;
                }
                true
            },
            KeyCode::Right => {
                if self.cursor_position < self.value.as_str().unicode_len() {
                    self.cursor_position = self.cursor_position + 1;
                }
                true
            },
            KeyCode::Home => {
                self.cursor_position = 0;
                true
            },
            KeyCode::End => {
                self.cursor_position = self.value.as_str().unicode_len();
                true
            },
            _ => false,
        }
    }

    /// The column at which the cursor is drawn in a bordered box that
    /// starts at column `x` and is `width` columns wide: one column per
    /// character behind the left border. None where the cursor would leave
    /// the inside of the box or the range of columns.
    pub fn cursor_column(&self, x: u16, width: u16) -> (column: Option<u16>)
        ensures
            column == if self@.cursor + 2 < width && x + 1 + self@.cursor <= u16::MAX {
                Some((x + 1 + self@.cursor) as u16)
            } else {
                None
            },
    {
        if width < 2 {
            return None;
        }
        let inside: u16 = width - 2;
        if self.cursor_position < inside as usize {
            let offset: u16 = self.cursor_position as u16;
            let limit: u32 = x as u32 + 1 + offset as u32;
            if limit <= u16::MAX as u32 {
                Some(limit as u16)
            } else {
                None
            }
        } else {
            None
        }
    }

    /// The text to draw: the placeholder while the input is empty and
    /// without focus, the value otherwise.
    pub fn display_text(&self) -> (text: String)
        ensures
            text@ == if self@.value.len() == 0 && !self@.focused {
                self@.placeholder
            } else {
                self@.value
            },
    {
        if self.value.as_str().unicode_len() == 0 && !self.focused {
            self.placeholder.clone()
        } else {
            self.value.clone()
        }
    }
}

impl Clone for TextInput {
    fn clone(&self) -> (copy: Self)
        ensures
            copy@ == self@,
    {
        proof {
            use_type_invariant(self);
        }
        TextInput {
            value: self.value.clone(),
            cursor_position: self.cursor_position,
            placeholder: self.placeholder.clone(),
            focused: self.focused,
        }
    }
}

impl Default for TextInput {
    fn default() -> (input: Self)
        ensures
            input@ == (TextInputView {
                value: Seq::empty(),
                cursor: 0,
                placeholder: Seq::empty(),
                focused: false,
            }),
    {
        TextInput::new()
    }
}

} // verus!
