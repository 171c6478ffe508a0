//! Key routing for the whole form: global keys first, then focus and mode
//! keys, then the focused field's own component.
use crate::autocomplete::{filtered_state, AutocompleteModel, AutocompleteTextFieldState};
use crate::handler::{
    autocomplete_key_outcome, list_key_step, stepped, text_key_outcome,
};
use crate::key::{KeyCode, KeyEvent};
use crate::loop_list::LoopListState;
use crate::screen::{SelectableField, State};
use crate::text_field::{TextFieldModel, TextFieldState};
use vstd::prelude::*;

verus! {

/// What a key press came to.
#[derive(Debug, Clone, Copy, PartialEq, Eq, Structural)]
pub enum Effect {
    /// The key changed the form.
    Consumed,
    /// The form is to close.
    Quit,
    /// The content is to be edited in an external editor; the result comes
    /// back through `App::finish_edit_content`.
    OpenExternalEditor,
    /// No one took the key; nothing changed.
    Unhandled,
}

/// The keys that act whatever has focus: Control+C quits, Control+O opens
/// the external editor.
pub open spec fn global_effect(key: KeyEvent) -> Option<Effect> {
    if key.ctrl && key.code == KeyCode::Char('c') {
        Some(Effect::Quit)
    } else if key.ctrl && key.code == KeyCode::Char('o') {
        Some(Effect::OpenExternalEditor)
    } else {
        None
    }
}

/// The focus and mode changes a key makes, or `None` where the key is not
/// one of them.
/// - In any mode: Enter on the `Advanced` toggle opens or closes the group,
///   Esc returns to select mode, Tab and BackTab move focus.
/// - In select mode: Up, Down, `k`, `j`, Control+N and Control+P move focus,
///   Enter starts editing. (In edit mode Control+N and Control+P belong to
///   the focused list.)
/// - In edit mode: Enter moves on to the next field, but for the
///   organization field, which takes Enter to confirm its selection.
pub open spec fn navigation_outcome(s: State, key: KeyEvent) -> Option<State> {
    if key.ctrl {
        if !s.is_edit_mode && key.code == KeyCode::Char('n') {
            Some(s.forward())
        } else if !s.is_edit_mode && key.code == KeyCode::Char('p') {
            Some(s.backward())
        } else {
            None
        }
    } else if s.selecting_field == SelectableField::Advanced && key.code == KeyCode::Enter {
        Some(State { is_expand_advanced: !s.is_expand_advanced, ..s })
    } else {
        match key.code {
            KeyCode::Esc => Some(State { is_edit_mode: false, ..s }),
            KeyCode::Tab => Some(s.forward()),
            KeyCode::BackTab => Some(s.backward()),
            _ => if !s.is_edit_mode {
                match key.code {
                    KeyCode::Up => Some(s.backward()),
                    KeyCode::Char('k') => Some(s.backward()),
                    KeyCode::Down => Some(s.forward()),
                    KeyCode::Char('j') => Some(s.forward()),
                    KeyCode::Enter => Some(State { is_edit_mode: true, ..s }),
                    _ => None,
                }
            } else if key.code == KeyCode::Enter && s.selecting_field
                != SelectableField::Organization {
                Some(s.forward())
            } else {
                None
            },
        }
    }
}

/// A text field took `key` (or not) as its handler says.
pub open spec fn text_forwarded(
    pre: TextFieldState,
    post: TextFieldState,
    key: KeyEvent,
    effect: Effect,
) -> bool {
    match text_key_outcome(pre@, key) {
        Some(m) => effect == Effect::Consumed && post@ == m,
        None => effect == Effect::Unhandled && post@ == pre@,
    }
}

/// A choice list took `key` (or not) as its handler says.
pub open spec fn list_forwarded(
    pre: LoopListState,
    post: LoopListState,
    key: KeyEvent,
    effect: Effect,
) -> bool {
    match list_key_step(key) {
        Some(forward) => effect == Effect::Consumed && post@ == stepped(pre@, forward),
        None => effect == Effect::Unhandled && post@ == pre@,
    }
}

/// An autocomplete field took `key` (or not) as its handler says.
pub open spec fn autocomplete_forwarded(
    pre: AutocompleteTextFieldState,
    post: AutocompleteTextFieldState,
    key: KeyEvent,
    effect: Effect,
) -> bool {
    if !key.ctrl && key.code == KeyCode::Enter {
        effect == Effect::Consumed && match pre@.selection.selected {
            None => post@ == pre@,
            Some(s) => post@ == filtered_state(
                pre@.items,
                pre@.query.with_text(pre@.items[pre@.filtered[s as int] as int]),
            ),
        }
    } else {
        match autocomplete_key_outcome(pre@, key) {
            Some(m) => effect == Effect::Consumed && post@ == m,
            None => effect == Effect::Unhandled && post@ == pre@,
        }
    }
}

/// The focused field's component took `key`, and nothing else changed.
pub open spec fn forwarded(pre: State, post: State, key: KeyEvent, effect: Effect) -> bool {
    match pre.selecting_field {
        SelectableField::Title => text_forwarded(pre.title, post.title, key, effect) && post
            == State { title: post.title, ..pre },
        SelectableField::Type => list_forwarded(pre.typ, post.typ, key, effect) && post == State {
            typ: post.typ,
            ..pre
        },
        SelectableField::Impact => list_forwarded(pre.impact, post.impact, key, effect) && post
            == State { impact: post.impact, ..pre },
        SelectableField::StartDate => text_forwarded(pre.start_date, post.start_date, key, effect)
            && post == State { start_date: post.start_date, ..pre },
        SelectableField::EndDate => text_forwarded(pre.end_date, post.end_date, key, effect) && post
            == State { end_date: post.end_date, ..pre },
        SelectableField::Organization => autocomplete_forwarded(
            pre.organization,
            post.organization,
            key,
            effect,
        ) && post == State { organization: post.organization, ..pre },
        SelectableField::Advanced => effect == Effect::Unhandled && post == pre,
    }
}

/// What the running form holds beside the fields.
pub struct AppModel {
    pub should_quit: bool,
    pub state: State,
    pub should_clear_terminal: bool,
}

/// The running form.
#[derive(Debug)]
pub struct App {
    should_quit: bool,
    state: State,
    should_clear_terminal: bool,
}

impl View for App {
    type V = AppModel;

    closed spec fn view(&self) -> AppModel {
        AppModel {
            should_quit: self.should_quit,
            state: self.state,
            should_clear_terminal: self.should_clear_terminal,
        }
    }
}

impl App {
    pub open spec fn wf(&self) -> bool {
        self@.state.wf()
    }

    /// A fresh form (see `State::default`), running.
    pub fn default() -> (r: Self)
        ensures
            r.wf(),
            !r@.should_quit,
            !r@.should_clear_terminal,
            r@.state.selecting_field == SelectableField::Title,
    {
        Self::from_state(State::default())
    }

    /// A running form over `state`.
    pub fn from_state(state: State) -> (r: Self)
        ensures
            r@ == (AppModel { should_quit: false, state, should_clear_terminal: false }),
    {
        Self { should_quit: false, state, should_clear_terminal: false }
    }

    pub fn state(&self) -> (r: &State)
        ensures
            *r == self@.state,
    {
        &self.state
    }

    pub fn should_quit(&self) -> (r: bool)
        ensures
            r == self@.should_quit,
    {
        self.should_quit
    }

    /// Whether the terminal must be cleared before the next frame, as after
    /// the external editor ran.
    pub fn should_clear_terminal(&self) -> (r: bool)
        ensures
            r == self@.should_clear_terminal,
    {
        self.should_clear_terminal
    }

    pub fn terminal_cleared(&mut self)
        ensures
            final(self)@ == (AppModel { should_clear_terminal: false, ..old(self)@ }),
    {
        self.should_clear_terminal = false;
    }

    fn quit(&mut self)
        ensures
            final(self)@ == (AppModel { should_quit: true, ..old(self)@ }),
    {
        self.should_quit = true;
    }

    /// Asks for the external editor on the content; the terminal is to be
    /// cleared once it returns.
    fn edit_content(&mut self) -> (r: Effect)
        ensures
            r == Effect::OpenExternalEditor,
            final(self)@ == (AppModel { should_clear_terminal: true, ..old(self)@ }),
    {
        self.should_clear_terminal = true;
        Effect::OpenExternalEditor
    }

    /// Takes what the external editor gave back: new content replaces the
    /// old one; `None` (no change saved, or the editor failed) leaves it.
    pub fn finish_edit_content(&mut self, edited: Option<String>)
        requires
            old(self).wf(),
        ensures
            final(self).wf(),
            edited is None ==> final(self)@ == old(self)@,
            edited matches Some(c) ==> final(self)@ == (AppModel {
                state: State { content: c, ..old(self)@.state },
                ..old(self)@
            }),
    {
        match edited {
            Some(content) => self.state.content = content,
            None => {},
        }
    }

    /// Marks the text fields that have focus as being edited, so that the
    /// renderer shows their cursor.
    pub fn before_render(&mut self)
        requires
            old(self).wf(),
        ensures
            final(self).wf(),
            final(self)@.should_quit == old(self)@.should_quit,
            final(self)@.should_clear_terminal == old(self)@.should_clear_terminal,
            final(self)@.state == (State {
                title: final(self)@.state.title,
                start_date: final(self)@.state.start_date,
                end_date: final(self)@.state.end_date,
                organization: final(self)@.state.organization,
                ..old(self)@.state
            }),
            final(self)@.state.title@ == (TextFieldModel {
                is_editing: old(self)@.state.selecting_field == SelectableField::Title,
                ..old(self)@.state.title@
            }),
            final(self)@.state.start_date@ == (TextFieldModel {
                is_editing: old(self)@.state.selecting_field == SelectableField::StartDate,
                ..old(self)@.state.start_date@
            }),
            final(self)@.state.end_date@ == (TextFieldModel {
                is_editing: old(self)@.state.selecting_field == SelectableField::EndDate,
                ..old(self)@.state.end_date@
            }),
            final(self)@.state.organization@ == (AutocompleteModel {
                query: TextFieldModel {
                    is_editing: old(self)@.state.selecting_field == SelectableField::Organization,
                    ..old(self)@.state.organization@.query
                },
                ..old(self)@.state.organization@
            }),
    {
        let field = self.state.selecting_field;
        self.state.title.set_is_editing(field == SelectableField::Title);
        self.state.start_date.set_is_editing(field == SelectableField::StartDate);
        self.state.end_date.set_is_editing(field == SelectableField::EndDate);
        self.state.organization.set_is_editing(field == SelectableField::Organization);
    }

    /// Routes one key press. Exactly one path acts: a global key, else a
    /// focus or mode key, else (in edit mode) the focused field's component;
    /// a key that no path takes changes nothing.
    pub fn handle_key_event(&mut self, key: &KeyEvent) -> (r: Effect)
        requires
            old(self).wf(),
        ensures
            final(self).wf(),
            match global_effect(*key) {
                Some(e) => {
                    &&& r == e
                    &&& final(self)@.state == old(self)@.state
                    &&& final(self)@.should_quit == (old(self)@.should_quit || e == Effect::Quit)
                    &&& final(self)@.should_clear_terminal == (old(self)@.should_clear_terminal
                        || e == Effect::OpenExternalEditor)
                },
                None => {
                    &&& final(self)@.should_quit == old(self)@.should_quit
                    &&& final(self)@.should_clear_terminal == old(self)@.should_clear_terminal
                    &&& match navigation_outcome(old(self)@.state, *key) {
                        Some(s) => r == Effect::Consumed && final(self)@.state == s,
                        None => if old(self)@.state.is_edit_mode {
                            forwarded(old(self)@.state, final(self)@.state, *key, r)
                        } else {
                            r == Effect::Unhandled && final(self)@.state == old(self)@.state
                        },
                    }
                },
            },
    {
        if let Some(effect) = self.may_intercept_key_event(key) {
            return effect;
        }
        if !self.state.is_edit_mode {
            if key.ctrl {
                match key.code {
                    KeyCode::Char('n') => self.state.select_next_field(),
                    KeyCode::Char('p') => self.state.select_previous_field(),
                    _ => {
                        return Effect::Unhandled;
                    },
                }
                return Effect::Consumed;
            }
            match key.code {
                KeyCode::Up => self.state.select_previous_field(),
                KeyCode::Down => self.state.select_next_field(),
                KeyCode::Enter => self.state.enter_edit_mode(),
                KeyCode::Char('k') => self.state.select_previous_field(),
                KeyCode::Char('j') => self.state.select_next_field(),
                _ => {
                    return Effect::Unhandled;
                },
            }
            return Effect::Consumed;
        }
        if !key.ctrl && key.code == KeyCode::Enter && self.state.selecting_field
            != SelectableField::Organization {
            self.state.select_next_field();
            return Effect::Consumed;
        }
        let handled = match self.state.selecting_field {
            SelectableField::Title => self.state.title.handle_key_event(key),
            SelectableField::Type => self.state.typ.handle_key_event(key),
            SelectableField::Impact => self.state.impact.handle_key_event(key),
            SelectableField::StartDate => self.state.start_date.handle_key_event(key),
            SelectableField::EndDate => self.state.end_date.handle_key_event(key),
            SelectableField::Organization => self.state.organization.handle_key_event(key),
            SelectableField::Advanced => false,
        };
        if handled {
            Effect::Consumed
        } else {
            Effect::Unhandled
        }
    }

    /// The keys that act in either mode: the global keys, the `Advanced`
    /// toggle, Esc, Tab and BackTab. `None` where the key is none of them.
    fn may_intercept_key_event(&mut self, key: &KeyEvent) -> (r: Option<Effect>)
        requires
            old(self).wf(),
        ensures
            final(self).wf(),
            match global_effect(*key) {
                Some(e) => {
                    &&& r == Some(e)
                    &&& final(self)@.state == old(self)@.state
                    &&& final(self)@.should_quit == (old(self)@.should_quit || e == Effect::Quit)
                    &&& final(self)@.should_clear_terminal == (old(self)@.should_clear_terminal
                        || e == Effect::OpenExternalEditor)
                },
                None => {
                    &&& final(self)@.should_quit == old(self)@.should_quit
                    &&& final(self)@.should_clear_terminal == old(self)@.should_clear_terminal
                    &&& if key.ctrl || !(key.code == KeyCode::Esc || key.code == KeyCode::Tab
                        || key.code == KeyCode::BackTab || (key.code == KeyCode::Enter
                        && old(self)@.state.selecting_field == SelectableField::Advanced)) {
                        r is None && final(self)@ == old(self)@
                    } else {
                        r == Some(Effect::Consumed) && final(self)@.state == navigation_outcome(
                            old(self)@.state,
                            *key,
                        )->0
                    }
                },
            },
    {
        if key.ctrl {
            match key.code {
                KeyCode::Char('c') => {
                    self.quit();
                    return Some(Effect::Quit);
                },
                KeyCode::Char('o') => {
                    return Some(self.edit_content());
                },
                _ => {
                    return None;
                },
            }
        }
        if self.state.selecting_field == SelectableField::Advanced && key.code == KeyCode::Enter {
            self.state.toggle_expand_advanced();
            return Some(Effect::Consumed);
        }
        match key.code {
            KeyCode::Esc => self.state.exit_edit_mode(),
            KeyCode::Tab => self.state.select_next_field(),
            KeyCode::BackTab => self.state.select_previous_field(),
            _ => {
                return None;
            },
        }
        Some(Effect::Consumed)
    }
}

} // verus!
