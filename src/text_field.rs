//! A single-line Unicode text buffer with a character-granularity cursor.
use crate::text::{byte_offset_of, chars_of, insert_at_byte, join_parts};
use unicode_width::UnicodeWidthChar;
use vstd::prelude::*;
use vstd::utf8::encode_utf8;

verus! {

/// The number of terminal columns that `c` occupies as unicode-width gives
/// it, `None` for a control character.
pub uninterp spec fn char_width(c: char) -> Option<usize>;

/// Relies on unicode_width's `UnicodeWidthChar::width`: the displayed width
/// of one character, `None` for a control character.
#[verifier::external_body]
fn char_width_of(c: char) -> (r: Option<usize>)
    ensures
        r == char_width(c),
{
    UnicodeWidthChar::width(c)
}

/// The columns a character takes on screen: a control character takes none.
pub open spec fn columns_of(c: char) -> nat {
    match char_width(c) {
        Some(w) => w as nat,
        None => 0,
    }
}

/// The sum of the per-character widths of `s`.
pub open spec fn columns(s: Seq<char>) -> nat
    decreases s.len(),
{
    if s.len() == 0 {
        0
    } else {
        columns(s.drop_last()) + columns_of(s.last())
    }
}

/// What a text buffer holds: its characters, the cursor as a character
/// offset, whether it is being edited, and whether it was ever modified.
pub struct TextFieldModel {
    pub text: Seq<char>,
    pub cursor: nat,
    pub is_editing: bool,
    pub has_modified: bool,
}

impl TextFieldModel {
    /// No text, the cursor at the start, not edited and never modified.
    pub open spec fn empty() -> TextFieldModel {
        TextFieldModel { text: Seq::empty(), cursor: 0, is_editing: false, has_modified: false }
    }

    /// The cursor never goes past the last character.
    pub open spec fn wf(self) -> bool {
        self.cursor <= self.text.len() <= usize::MAX
    }

    pub open spec fn clamp(self, pos: int) -> nat {
        if pos <= 0 {
            0
        } else if pos >= self.text.len() {
            self.text.len()
        } else {
            pos as nat
        }
    }

    pub open spec fn moved_left(self) -> TextFieldModel {
        TextFieldModel { cursor: self.clamp(self.cursor - 1), ..self }
    }

    pub open spec fn moved_right(self) -> TextFieldModel {
        TextFieldModel { cursor: self.clamp(self.cursor + 1int), ..self }
    }

    pub open spec fn moved_to_start(self) -> TextFieldModel {
        TextFieldModel { cursor: 0, ..self }
    }

    pub open spec fn moved_to_end(self) -> TextFieldModel {
        TextFieldModel { cursor: self.text.len(), ..self }
    }

    pub open spec fn modified(self) -> TextFieldModel {
        TextFieldModel { has_modified: true, ..self }
    }

    /// `c` goes in at the cursor, and the cursor moves past it.
    pub open spec fn inserted(self, c: char) -> TextFieldModel {
        TextFieldModel {
            text: self.text.insert(self.cursor as int, c),
            cursor: self.cursor + 1,
            has_modified: true,
            ..self
        }
    }

    /// A typed character: inserted where the text can still grow, else the
    /// buffer is only marked modified.
    pub open spec fn typed(self, c: char) -> TextFieldModel {
        if self.text.len() < usize::MAX {
            self.inserted(c)
        } else {
            self.modified()
        }
    }

    /// The character before the cursor goes, and the cursor moves back one.
    pub open spec fn deleted_left(self) -> TextFieldModel {
        if self.cursor == 0 {
            self.modified()
        } else {
            TextFieldModel {
                text: self.text.remove(self.cursor - 1),
                cursor: (self.cursor - 1) as nat,
                has_modified: true,
                ..self
            }
        }
    }

    /// The character at the cursor goes; the cursor stays.
    pub open spec fn deleted_right(self) -> TextFieldModel {
        if self.cursor >= self.text.len() {
            self.modified()
        } else {
            TextFieldModel {
                text: self.text.remove(self.cursor as int),
                has_modified: true,
                ..self
            }
        }
    }

    /// Everything from the cursor to the end goes.
    pub open spec fn deleted_right_all(self) -> TextFieldModel {
        TextFieldModel { text: self.text.take(self.cursor as int), has_modified: true, ..self }
    }

    /// The text is replaced and the cursor placed after its last character.
    pub open spec fn with_text(self, s: Seq<char>) -> TextFieldModel {
        TextFieldModel { text: s, cursor: s.len(), has_modified: true, ..self }
    }

    /// The number of bytes before the cursor in the UTF-8 encoding.
    pub open spec fn byte_offset(self) -> nat {
        encode_utf8(self.text.take(self.cursor as int)).len()
    }

    /// The terminal column of the cursor.
    /// (The sum of the widths of the characters before it, held at
    /// `usize::MAX` where it would pass it.)
    pub open spec fn display_column(self) -> nat {
        let w = columns(self.text.take(self.cursor as int));
        if w > usize::MAX {
            usize::MAX as nat
        } else {
            w
        }
    }
}

/// Whatever edit or move is made, the cursor stays between the start and
/// the end of the text.
pub proof fn lemma_cursor_stays_in_text(m: TextFieldModel, c: char, s: Seq<char>)
    requires
        m.wf(),
        s.len() <= usize::MAX,
    ensures
        m.moved_left().wf(),
        m.moved_right().wf(),
        m.moved_to_start().wf(),
        m.moved_to_end().wf(),
        m.typed(c).wf(),
        m.deleted_left().wf(),
        m.deleted_right().wf(),
        m.deleted_right_all().wf(),
        m.with_text(s).wf(),
{
}

/// Setting a text and reading it back gives the same text.
pub proof fn lemma_set_text_round_trip(m: TextFieldModel, s: Seq<char>)
    ensures
        m.with_text(s).text == s,
{
}

/// An editable text with a cursor counted in characters, never in bytes.
#[derive(Debug, Clone)]
pub struct TextFieldState {
    text: String,
    cursor_index: usize,
    is_editing: bool,
    has_modified: bool,
}

impl View for TextFieldState {
    type V = TextFieldModel;

    closed spec fn view(&self) -> TextFieldModel {
        TextFieldModel {
            text: self.text@,
            cursor: self.cursor_index as nat,
            is_editing: self.is_editing,
            has_modified: self.has_modified,
        }
    }
}

impl TextFieldState {
    pub open spec fn wf(&self) -> bool {
        self@.wf()
    }

    /// An empty buffer, not being edited and never modified.
    pub fn default() -> (r: Self)
        ensures
            r@ == TextFieldModel::empty(),
            r.wf(),
    {
        Self::new(String::new(), 0)
    }

    /// A buffer pre-seeded with `text`, the cursor after its last
    /// character. Seeding is no edit: the buffer counts as never modified.
    pub fn seeded(text: String) -> (r: Self)
        ensures
            r@ == (TextFieldModel {
                text: text@,
                cursor: text@.len(),
                is_editing: false,
                has_modified: false,
            }),
            r.wf(),
    {
        let count = text.as_str().unicode_len();
        Self::new(text, count)
    }

    fn new(text: String, cursor_index: usize) -> (r: Self)
        requires
            cursor_index <= text@.len() <= usize::MAX,
        ensures
            r.wf(),
            r@.text == text@,
            r@.cursor == cursor_index,
            !r@.is_editing,
            !r@.has_modified,
    {
        Self { text, cursor_index, is_editing: false, has_modified: false }
    }

    pub fn text(&self) -> (r: &str)
        ensures
            r@ == self@.text,
    {
        self.text.as_str()
    }

    pub fn cursor_index(&self) -> (r: usize)
        ensures
            r == self@.cursor,
    {
        self.cursor_index
    }

    pub fn is_editing(&self) -> (r: bool)
        ensures
            r == self@.is_editing,
    {
        self.is_editing
    }

    pub fn has_modified(&self) -> (r: bool)
        ensures
            r == self@.has_modified,
    {
        self.has_modified
    }

    fn char_count(&self) -> (r: usize)
        ensures
            r == self@.text.len(),
    {
        self.text.as_str().unicode_len()
    }

    /// Replaces the text and puts the cursor after its last character; like
    /// every edit, marks the buffer modified.
    pub fn set_text(&mut self, text: String)
        ensures
            final(self)@ == old(self)@.with_text(text@),
            final(self).wf(),
    {
        self.modify();
        self.text = text;
        self.cursor_index = self.char_count();
    }

    pub fn set_is_editing(&mut self, is_editing: bool)
        ensures
            final(self)@ == (TextFieldModel { is_editing, ..old(self)@ }),
    {
        self.is_editing = is_editing;
    }

    pub fn move_cursor_left(&mut self)
        requires
            old(self).wf(),
        ensures
            final(self)@ == old(self)@.moved_left(),
            final(self).wf(),
    {
        let cursor_moved_left = self.cursor_index.saturating_sub(1);
        self.cursor_index = self.clamp_cursor(cursor_moved_left);
    }

    pub fn move_cursor_right(&mut self)
        requires
            old(self).wf(),
        ensures
            final(self)@ == old(self)@.moved_right(),
            final(self).wf(),
    {
        let cursor_moved_right = self.cursor_index.saturating_add(1);
        self.cursor_index = self.clamp_cursor(cursor_moved_right);
    }

    pub fn move_cursor_to_start(&mut self)
        requires
            old(self).wf(),
        ensures
            final(self)@ == old(self)@.moved_to_start(),
            final(self).wf(),
    {
        self.cursor_index = 0;
    }

    pub fn move_cursor_to_end(&mut self)
        ensures
            final(self)@ == old(self)@.moved_to_end(),
            final(self).wf(),
    {
        self.cursor_index = self.char_count();
    }

    /// Inserts `new_char` at the cursor and moves the cursor past it. A text
    /// that already holds `usize::MAX` characters, which no machine can hold,
    /// is only marked modified.
    pub fn enter_char(&mut self, new_char: char)
        requires
            old(self).wf(),
        ensures
            final(self)@ == old(self)@.typed(new_char),
            final(self).wf(),
    {
        self.modify();
        if self.char_count() == usize::MAX {
            return ;
        }
        let index = self.byte_index();
        insert_at_byte(&mut self.text, index, new_char);
        self.cursor_index = self.cursor_index + 1;
    }

    /// The byte offset of the cursor in the text's UTF-8 encoding.
    pub fn byte_index(&self) -> (r: usize)
        requires
            self.wf(),
        ensures
            r == self@.byte_offset(),
    {
        byte_offset_of(self.text.as_str(), self.cursor_index)
    }

    /// The terminal column of the cursor: the sum of the display widths of
    /// the characters before it, in which a wide character counts twice.
    pub fn unicode_index(&self) -> (r: usize)
        requires
            self.wf(),
        ensures
            r == self@.display_column(),
    {
        let cs = chars_of(self.text.as_str());
        let mut i: usize = 0;
        let mut sum: usize = 0;
        while i < self.cursor_index
            invariant
                self.wf(),
                cs@ == self@.text,
                i <= self.cursor_index,
                sum == (TextFieldModel { cursor: i as nat, ..self@ }).display_column(),
            decreases self.cursor_index - i,
        {
            let w = match char_width_of(cs[i]) {
                Some(w) => w,
                None => 0,
            };
            proof {
                assert(cs@.take(i + 1).drop_last() =~= cs@.take(i as int));
            }
            sum = sum.saturating_add(w);
            i = i + 1;
        }
        sum
    }

    pub fn delete_left_char(&mut self)
        requires
            old(self).wf(),
        ensures
            final(self)@ == old(self)@.deleted_left(),
            final(self).wf(),
    {
        self.modify();

        let is_not_cursor_leftmost = self.cursor_index != 0;
        if is_not_cursor_leftmost {
            let current_index = self.cursor_index;
            let cs = chars_of(self.text.as_str());
            self.text = join_parts(&cs, current_index - 1, current_index);
            proof {
                assert(self.text@ =~= old(self)@.text.remove(current_index - 1));
            }
            self.cursor_index = current_index - 1;
        }
    }

    pub fn delete_right_char(&mut self)
        requires
            old(self).wf(),
        ensures
            final(self)@ == old(self)@.deleted_right(),
            final(self).wf(),
    {
        self.modify();

        let is_not_cursor_rightmost = self.cursor_index != self.char_count();
        if is_not_cursor_rightmost {
            let current_index = self.cursor_index;
            let cs = chars_of(self.text.as_str());
            self.text = join_parts(&cs, current_index, current_index + 1);
            proof {
                assert(self.text@ =~= old(self)@.text.remove(current_index as int));
            }
        }
    }

    pub fn delete_right_all(&mut self)
        requires
            old(self).wf(),
        ensures
            final(self)@ == old(self)@.deleted_right_all(),
            final(self).wf(),
    {
        self.modify();

        let cs = chars_of(self.text.as_str());
        self.text = join_parts(&cs, self.cursor_index, cs.len());
        proof {
            assert(self.text@ =~= old(self)@.text.take(self.cursor_index as int));
        }
    }

    /// `new_cursor_pos`, brought within the text.
    pub fn clamp_cursor(&self, new_cursor_pos: usize) -> (r: usize)
        ensures
            r == self@.clamp(new_cursor_pos as int),
    {
        let count = self.char_count();
        if new_cursor_pos > count {
            count
        } else {
            new_cursor_pos
        }
    }

    fn modify(&mut self)
        ensures
            final(self)@ == old(self)@.modified(),
    {
        if !self.has_modified {
            self.has_modified = true;
        }
    }
}

} // verus!
