//! How each field component consumes a key press of its own.
use crate::autocomplete::{filtered_state, AutocompleteModel, AutocompleteTextFieldState};
use crate::key::{KeyCode, KeyEvent};
use crate::loop_list::{LoopListModel, LoopListState};
use crate::text_field::{TextFieldModel, TextFieldState};
use vstd::prelude::*;

verus! {

/// The edit a key press makes to a text buffer, or `None` where the buffer
/// has no use for the key.
pub open spec fn text_key_outcome(m: TextFieldModel, key: KeyEvent) -> Option<TextFieldModel> {
    if key.ctrl {
        match key.code {
            KeyCode::Char('b') => Some(m.moved_left()),
            KeyCode::Char('f') => Some(m.moved_right()),
            KeyCode::Char('e') => Some(m.moved_to_end()),
            KeyCode::Char('a') => Some(m.moved_to_start()),
            KeyCode::Char('d') => Some(m.deleted_right()),
            KeyCode::Char('k') => Some(m.deleted_right_all()),
            KeyCode::Char('h') => Some(m.deleted_left()),
            _ => None,
        }
    } else {
        match key.code {
            KeyCode::Left => Some(m.moved_left()),
            KeyCode::Right => Some(m.moved_right()),
            KeyCode::Backspace => Some(m.deleted_left()),
            KeyCode::Delete => Some(m.deleted_right()),
            KeyCode::Char(c) => Some(m.typed(c)),
            _ => None,
        }
    }
}

/// The move a key press makes in a circular selection: `Some(true)` forward,
/// `Some(false)` backward, `None` where the key is not the list's.
pub open spec fn list_key_step(key: KeyEvent) -> Option<bool> {
    if key.ctrl {
        match key.code {
            KeyCode::Char('n') => Some(true),
            KeyCode::Char('p') => Some(false),
            _ => None,
        }
    } else {
        match key.code {
            KeyCode::Up => Some(false),
            KeyCode::Down => Some(true),
            KeyCode::Char('k') => Some(false),
            KeyCode::Char('j') => Some(true),
            _ => None,
        }
    }
}

/// The selection after one step forward or backward.
pub open spec fn stepped(m: LoopListModel, forward: bool) -> LoopListModel {
    if forward {
        m.with_selection(m.next())
    } else {
        m.with_selection(m.previous())
    }
}

/// The state after an autocomplete field takes a key press, or `None` where
/// the key is not the field's. Cursor moves leave the filter as it is; edits
/// filter the items anew. Enter, which confirms, is left out: what it does
/// depends on the selection (see `confirm`).
pub open spec fn autocomplete_key_outcome(m: AutocompleteModel, key: KeyEvent) -> Option<
    AutocompleteModel,
> {
    let moved = |q: TextFieldModel| Some(AutocompleteModel { query: q, ..m });
    let edited = |q: TextFieldModel| Some(filtered_state(m.items, q));
    let step = |forward: bool|
        Some(AutocompleteModel { selection: stepped(m.selection, forward), ..m });
    if key.ctrl {
        match key.code {
            KeyCode::Char('b') => moved(m.query.moved_left()),
            KeyCode::Char('f') => moved(m.query.moved_right()),
            KeyCode::Char('e') => moved(m.query.moved_to_end()),
            KeyCode::Char('a') => moved(m.query.moved_to_start()),
            KeyCode::Char('d') => edited(m.query.deleted_right()),
            KeyCode::Char('k') => edited(m.query.deleted_right_all()),
            KeyCode::Char('h') => edited(m.query.deleted_left()),
            KeyCode::Char('n') => step(true),
            KeyCode::Char('p') => step(false),
            _ => None,
        }
    } else {
        match key.code {
            KeyCode::Up => step(false),
            KeyCode::Down => step(true),
            KeyCode::Left => moved(m.query.moved_left()),
            KeyCode::Right => moved(m.query.moved_right()),
            KeyCode::Backspace => edited(m.query.deleted_left()),
            KeyCode::Delete => edited(m.query.deleted_right()),
            KeyCode::Char(c) => edited(m.query.typed(c)),
            _ => None,
        }
    }
}

impl TextFieldState {
    /// Applies a key press to the buffer; returns whether the key was one
    /// the buffer takes. A key it does not take changes nothing.
    pub fn handle_key_event(&mut self, key: &KeyEvent) -> (handled: bool)
        requires
            old(self).wf(),
        ensures
            final(self).wf(),
            match text_key_outcome(old(self)@, *key) {
                Some(m) => handled && final(self)@ == m,
                None => !handled && final(self)@ == old(self)@,
            },
    {
        if key.ctrl {
            match key.code {
                KeyCode::Char('b') => self.move_cursor_left(),
                KeyCode::Char('f') => self.move_cursor_right(),
                KeyCode::Char('e') => self.move_cursor_to_end(),
                KeyCode::Char('a') => self.move_cursor_to_start(),
                KeyCode::Char('d') => self.delete_right_char(),
                KeyCode::Char('k') => self.delete_right_all(),
                KeyCode::Char('h') => self.delete_left_char(),
                _ => {
                    return false;
                },
            }
            return true;
        }
        match key.code {
            KeyCode::Left => self.move_cursor_left(),
            KeyCode::Right => self.move_cursor_right(),
            KeyCode::Backspace => self.delete_left_char(),
            KeyCode::Delete => self.delete_right_char(),
            KeyCode::Char(c) => self.enter_char(c),
            _ => {
                return false;
            },
        }
        true
    }
}

impl LoopListState {
    /// Moves the selection for a navigation key; returns whether the key was
    /// one the list takes. A key it does not take changes nothing.
    pub fn handle_key_event(&mut self, key: &KeyEvent) -> (handled: bool)
        requires
            old(self).wf(),
        ensures
            final(self).wf(),
            match list_key_step(*key) {
                Some(forward) => handled && final(self)@ == stepped(old(self)@, forward),
                None => !handled && final(self)@ == old(self)@,
            },
    {
        if key.ctrl {
            match key.code {
                KeyCode::Char('n') => self.select_next(),
                KeyCode::Char('p') => self.select_previous(),
                _ => {
                    return false;
                },
            }
            return true;
        }
        match key.code {
            KeyCode::Up => self.select_previous(),
            KeyCode::Down => self.select_next(),
            KeyCode::Char('k') => self.select_previous(),
            KeyCode::Char('j') => self.select_next(),
            _ => {
                return false;
            },
        }
        true
    }
}

impl AutocompleteTextFieldState {
    /// Applies a key press: selection keys move the selection, Enter
    /// confirms the selected item, and editing keys edit the query, which
    /// filters the items anew. Returns whether the key was one the field
    /// takes; a key it does not take changes nothing.
    pub fn handle_key_event(&mut self, key: &KeyEvent) -> (handled: bool)
        requires
            old(self).wf(),
        ensures
            final(self).wf(),
            !key.ctrl && key.code == KeyCode::Enter ==> handled && match old(
                self,
            )@.selection.selected {
                None => final(self)@ == old(self)@,
                Some(s) => final(self)@ == filtered_state(
                    old(self)@.items,
                    old(self)@.query.with_text(old(self)@.items[old(self)@.filtered[s as int] as int]),
                ),
            },
            !(!key.ctrl && key.code == KeyCode::Enter) ==> match autocomplete_key_outcome(
                old(self)@,
                *key,
            ) {
                Some(m) => handled && final(self)@ == m,
                None => !handled && final(self)@ == old(self)@,
            },
    {
        if key.ctrl {
            match key.code {
                KeyCode::Char('b') => self.move_cursor_left(),
                KeyCode::Char('f') => self.move_cursor_right(),
                KeyCode::Char('e') => self.move_cursor_to_end(),
                KeyCode::Char('a') => self.move_cursor_to_start(),
                KeyCode::Char('d') => self.delete_right_char(),
                KeyCode::Char('k') => self.delete_right_all(),
                KeyCode::Char('h') => self.delete_left_char(),
                KeyCode::Char('n') => self.select_next(),
                KeyCode::Char('p') => self.select_previous(),
                _ => {
                    return false;
                },
            }
            return true;
        }
        match key.code {
            KeyCode::Up => self.select_previous(),
            KeyCode::Down => self.select_next(),
            KeyCode::Left => self.move_cursor_left(),
            KeyCode::Right => self.move_cursor_right(),
            KeyCode::Backspace => self.delete_left_char(),
            KeyCode::Delete => self.delete_right_char(),
            KeyCode::Enter => {
                self.confirm();
            },
            KeyCode::Char(c) => self.enter_char(c),
            _ => {
                return false;
            },
        }
        true
    }
}

} // verus!
