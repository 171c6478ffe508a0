//! A simpler text field controller that tracks a display mode instead of a
//! modification flag.
use crate::text::{byte_offset_of, chars_of, insert_at_byte, join_parts};
use vstd::prelude::*;
use vstd::utf8::encode_utf8;

verus! {

/// How a controlled text field is shown.
#[derive(Debug, Clone, Copy, PartialEq, Eq, Structural)]
pub enum Mode {
    Display,
    Active,
    Deactive,
    Edit,
}

impl Mode {
    pub fn is_edit(&self) -> (r: bool)
        ensures
            r == (*self == Mode::Edit),
    {
        match self {
            Mode::Edit => true,
            _ => false,
        }
    }
}

/// What a controller holds: its characters, a cursor counted in
/// characters, and its mode.
pub struct ControllerModel {
    pub text: Seq<char>,
    pub cursor: nat,
    pub mode: Mode,
}

impl ControllerModel {
    pub open spec fn wf(self) -> bool {
        self.cursor <= self.text.len() <= usize::MAX
    }
}

/// A text with a character cursor and a display mode.
#[derive(Debug)]
pub struct TextFieldController {
    text: String,
    cursor_index: usize,
    mode: Mode,
}

impl View for TextFieldController {
    type V = ControllerModel;

    closed spec fn view(&self) -> ControllerModel {
        ControllerModel { text: self.text@, cursor: self.cursor_index as nat, mode: self.mode }
    }
}

impl TextFieldController {
    pub open spec fn wf(&self) -> bool {
        self@.wf()
    }

    /// An empty text in display mode.
    pub fn default() -> (r: Self)
        ensures
            r@ == (ControllerModel { text: Seq::empty(), cursor: 0, mode: Mode::Display }),
            r.wf(),
    {
        Self::new(String::new(), 0)
    }

    fn new(text: String, cursor_pos: usize) -> (r: Self)
        requires
            cursor_pos <= text@.len() <= usize::MAX,
        ensures
            r@ == (ControllerModel { text: text@, cursor: cursor_pos as nat, mode: Mode::Display }),
    {
        Self { text, cursor_index: cursor_pos, mode: Mode::Display }
    }

    pub fn text(&self) -> (r: &str)
        ensures
            r@ == self@.text,
    {
        self.text.as_str()
    }

    pub fn cursor_index(&self) -> (r: usize)
        ensures
            r == self@.cursor,
    {
        self.cursor_index
    }

    pub fn current_mode(&self) -> (r: Mode)
        ensures
            r == self@.mode,
    {
        self.mode
    }

    /// Switches the display mode.
    pub fn mode(&mut self, m: Mode)
        ensures
            final(self)@ == (ControllerModel { mode: m, ..old(self)@ }),
    {
        self.mode = m;
    }

    pub fn move_cursor_left(&mut self)
        requires
            old(self).wf(),
        ensures
            final(self)@ == (ControllerModel {
                cursor: if old(self)@.cursor == 0 {
                    0
                } else {
                    (old(self)@.cursor - 1) as nat
                },
                ..old(self)@
            }),
            final(self).wf(),
    {
        let cursor_moved_left = self.cursor_index.saturating_sub(1);
        self.cursor_index = self.clamp_cursor(cursor_moved_left);
    }

    pub fn move_cursor_right(&mut self)
        requires
            old(self).wf(),
        ensures
            final(self)@ == (ControllerModel {
                cursor: if old(self)@.cursor == old(self)@.text.len() {
                    old(self)@.cursor
                } else {
                    old(self)@.cursor + 1
                },
                ..old(self)@
            }),
            final(self).wf(),
    {
        let cursor_moved_right = self.cursor_index.saturating_add(1);
        self.cursor_index = self.clamp_cursor(cursor_moved_right);
    }

    /// Inserts `new_char` at the cursor and moves the cursor past it; a text
    /// of `usize::MAX` characters, which no machine can hold, stays as it is.
    pub fn enter_char(&mut self, new_char: char)
        requires
            old(self).wf(),
        ensures
            old(self)@.text.len() < usize::MAX ==> final(self)@ == (ControllerModel {
                text: old(self)@.text.insert(old(self)@.cursor as int, new_char),
                cursor: old(self)@.cursor + 1,
                ..old(self)@
            }),
            old(self)@.text.len() == usize::MAX ==> final(self)@ == old(self)@,
            final(self).wf(),
    {
        if self.text.as_str().unicode_len() == usize::MAX {
            return ;
        }
        let index = self.byte_index();
        insert_at_byte(&mut self.text, index, new_char);
        self.cursor_index = self.cursor_index + 1;
    }

    /// The byte offset of the cursor in the text's UTF-8 encoding.
    pub fn byte_index(&self) -> (r: usize)
        requires
            self.wf(),
        ensures
            r == encode_utf8(self@.text.take(self@.cursor as int)).len(),
    {
        byte_offset_of(self.text.as_str(), self.cursor_index)
    }

    /// Removes the character before the cursor and moves the cursor back
    /// one; nothing happens at the start.
    pub fn delete_char(&mut self)
        requires
            old(self).wf(),
        ensures
            old(self)@.cursor == 0 ==> final(self)@ == old(self)@,
            old(self)@.cursor > 0 ==> final(self)@ == (ControllerModel {
                text: old(self)@.text.remove(old(self)@.cursor - 1),
                cursor: (old(self)@.cursor - 1) as nat,
                ..old(self)@
            }),
            final(self).wf(),
    {
        let is_not_cursor_leftmost = self.cursor_index != 0;
        if is_not_cursor_leftmost {
            let current_index = self.cursor_index;
            let cs = chars_of(self.text.as_str());
            self.text = join_parts(&cs, current_index - 1, current_index);
            proof {
                assert(self.text@ =~= old(self)@.text.remove(current_index - 1));
            }
            self.cursor_index = current_index - 1;
        }
    }

    /// `new_cursor_pos`, brought within the text.
    pub fn clamp_cursor(&self, new_cursor_pos: usize) -> (r: usize)
        ensures
            r == (if new_cursor_pos > self@.text.len() {
                self@.text.len()
            } else {
                new_cursor_pos as nat
            }),
    {
        let count = self.text.as_str().unicode_len();
        if new_cursor_pos > count {
            count
        } else {
            new_cursor_pos
        }
    }

    pub fn reset_cursor(&mut self)
        requires
            old(self).wf(),
        ensures
            final(self)@ == (ControllerModel { cursor: 0, ..old(self)@ }),
            final(self).wf(),
    {
        self.cursor_index = 0;
    }
}

} // verus!
