//! The full form: its fixed field order with a collapsible advanced group,
//! the focus and mode that decide who owns a key, and one component per
//! field.
use crate::autocomplete::{views_of, AutocompleteTextFieldState, filtered_state};
use crate::brag::{IMPACT_COUNT, TYPE_COUNT};
use crate::loop_list::LoopListState;
use crate::text_field::{TextFieldModel, TextFieldState};
use crate::validation::{
    date_rule, regex_matches, shown_error, title_rule, validate_date, validate_title,
    ValidationError, DATE_PATTERN,
};
use vstd::prelude::*;

verus! {

/// The fields of the form, in focus order. `Advanced` is the toggle that
/// opens and closes the advanced group; the fields after it belong to that
/// group.
#[derive(Debug, Clone, Copy, PartialEq, Eq, Structural)]
pub enum SelectableField {
    Title,
    Type,
    Impact,
    StartDate,
    EndDate,
    Advanced,
    Organization,
}

pub const FIELD_COUNT: usize = 7;

impl SelectableField {
    pub open spec fn position(self) -> int {
        match self {
            SelectableField::Title => 0,
            SelectableField::Type => 1,
            SelectableField::Impact => 2,
            SelectableField::StartDate => 3,
            SelectableField::EndDate => 4,
            SelectableField::Advanced => 5,
            SelectableField::Organization => 6,
        }
    }

    pub open spec fn at(i: int) -> Option<SelectableField> {
        if i == 0 {
            Some(SelectableField::Title)
        } else if i == 1 {
            Some(SelectableField::Type)
        } else if i == 2 {
            Some(SelectableField::Impact)
        } else if i == 3 {
            Some(SelectableField::StartDate)
        } else if i == 4 {
            Some(SelectableField::EndDate)
        } else if i == 5 {
            Some(SelectableField::Advanced)
        } else if i == 6 {
            Some(SelectableField::Organization)
        } else {
            None
        }
    }

    /// Whether the field belongs to the advanced group.
    pub open spec fn in_advanced_group(self) -> bool {
        self == SelectableField::Organization
    }

    fn variant(i: usize) -> (r: Option<SelectableField>)
        ensures
            r == SelectableField::at(i as int),
    {
        match i {
            0 => Some(SelectableField::Title),
            1 => Some(SelectableField::Type),
            2 => Some(SelectableField::Impact),
            3 => Some(SelectableField::StartDate),
            4 => Some(SelectableField::EndDate),
            5 => Some(SelectableField::Advanced),
            6 => Some(SelectableField::Organization),
            _ => None,
        }
    }

    fn first() -> (r: SelectableField)
        ensures
            r == SelectableField::Title,
    {
        SelectableField::Title
    }

    fn last() -> (r: SelectableField)
        ensures
            r == SelectableField::Organization,
    {
        SelectableField::Organization
    }

    /// The position of the field in the focus order.
    pub fn idx(self) -> (r: usize)
        ensures
            r == self.position(),
            r < FIELD_COUNT,
    {
        match self {
            SelectableField::Title => 0,
            SelectableField::Type => 1,
            SelectableField::Impact => 2,
            SelectableField::StartDate => 3,
            SelectableField::EndDate => 4,
            SelectableField::Advanced => 5,
            SelectableField::Organization => 6,
        }
    }

    /// The field after this one; `None` after the last.
    pub fn next(self) -> (r: Option<Self>)
        ensures
            r == SelectableField::at(self.position() + 1),
    {
        let index = self.idx();
        if index == FIELD_COUNT - 1 {
            None
        } else {
            SelectableField::variant(index + 1)
        }
    }

    /// The field before this one; `None` before the first.
    pub fn prev(self) -> (r: Option<Self>)
        ensures
            r == SelectableField::at(self.position() - 1),
    {
        let index = self.idx();
        if index == 0 {
            None
        } else {
            SelectableField::variant(index - 1)
        }
    }

    pub fn is_advanced_field(&self) -> (r: bool)
        ensures
            r == self.in_advanced_group(),
    {
        match self {
            SelectableField::Organization => true,
            _ => false,
        }
    }

    pub open spec fn caption(self) -> Seq<char> {
        match self {
            SelectableField::Title => "\u{270f}\u{fe0f} Title"@,
            SelectableField::Type => "\u{1f4cb} Type"@,
            SelectableField::Impact => "\u{1f31f} Impact"@,
            SelectableField::StartDate => "\u{1f4a8} Start Date"@,
            SelectableField::EndDate => "\u{1f3c1} End Date"@,
            SelectableField::Advanced => "Advanced"@,
            SelectableField::Organization => "\u{1f3e2} Organization"@,
        }
    }

    /// The caption shown on the field's frame.
    pub fn title(&self) -> (r: String)
        ensures
            r@ == self.caption(),
    {
        match self {
            SelectableField::Title => String::from_str("\u{270f}\u{fe0f} Title"),
            SelectableField::Type => String::from_str("\u{1f4cb} Type"),
            SelectableField::Impact => String::from_str("\u{1f31f} Impact"),
            SelectableField::StartDate => String::from_str("\u{1f4a8} Start Date"),
            SelectableField::EndDate => String::from_str("\u{1f3c1} End Date"),
            SelectableField::Advanced => String::from_str("Advanced"),
            SelectableField::Organization => String::from_str("\u{1f3e2} Organization"),
        }
    }
}

/// Where forward navigation from `f` lands: the next field, wrapping from
/// the last to the first. A field of a collapsed advanced group gives way to
/// the `Advanced` toggle, so from the toggle itself focus stays there until
/// the group is opened.
pub open spec fn forward_of(f: SelectableField, expanded: bool) -> SelectableField {
    let n = match SelectableField::at(f.position() + 1) {
        Some(g) => g,
        None => SelectableField::Title,
    };
    if !expanded && n.in_advanced_group() {
        SelectableField::Advanced
    } else {
        n
    }
}

/// Where backward navigation from `f` lands: the previous field, wrapping
/// from the first to the last. A field of a collapsed advanced group gives
/// way to the `Advanced` toggle.
pub open spec fn backward_of(f: SelectableField, expanded: bool) -> SelectableField {
    let p = match SelectableField::at(f.position() - 1) {
        Some(g) => g,
        None => SelectableField::Organization,
    };
    if !expanded && p.in_advanced_group() {
        SelectableField::Advanced
    } else {
        p
    }
}

/// While the advanced group is collapsed, navigation in either direction
/// never lands inside it: a step into the group stops on the toggle. Once
/// expanded, forward navigation from the toggle enters it.
pub proof fn lemma_collapsed_group_is_skipped(f: SelectableField)
    ensures
        !forward_of(f, false).in_advanced_group(),
        !backward_of(f, false).in_advanced_group(),
        forward_of(SelectableField::EndDate, false) == SelectableField::Advanced,
        forward_of(SelectableField::Advanced, false) == SelectableField::Advanced,
        forward_of(SelectableField::Advanced, true) == SelectableField::Organization,
{
}

/// How a field is drawn, from the focus and the mode.
#[derive(Debug, Clone, Copy, PartialEq, Eq, Structural)]
pub enum Status {
    Displaying,
    Selecting,
    Editing,
}

/// The names the organization field offers.
pub open spec fn organization_names() -> Seq<Seq<char>> {
    seq![
        "Google"@,
        "Facebook"@,
        "Amazon"@,
        "Netflix"@,
        "Apple"@,
        "Microsoft"@,
        "Twitter"@,
        "LinkedIn"@,
        "Uber"@,
        "Airbnb"@,
    ]
}

pub fn organizations() -> (r: Vec<String>)
    ensures
        views_of(r@) == organization_names(),
{
    let mut r: Vec<String> = Vec::new();
    r.push(String::from_str("Google"));
    r.push(String::from_str("Facebook"));
    r.push(String::from_str("Amazon"));
    r.push(String::from_str("Netflix"));
    r.push(String::from_str("Apple"));
    r.push(String::from_str("Microsoft"));
    r.push(String::from_str("Twitter"));
    r.push(String::from_str("LinkedIn"));
    r.push(String::from_str("Uber"));
    r.push(String::from_str("Airbnb"));
    assert(views_of(r@) =~= organization_names());
    r
}

/// Relies on chrono's `Local::now` and `NaiveDate`'s `Display`: today's
/// local date as text. Which date depends on the clock and the time zone;
/// the text is always `YYYY-MM-DD`, or has a signed year of at least four
/// digits, so at least ten characters.
#[verifier::external_body]
fn today() -> (r: String)
    ensures
        r@.len() >= 10,
{
    chrono::Local::now().naive_local().date().to_string()
}

/// The whole form: focus, mode, the advanced group's state, and the
/// component that each field owns.
#[derive(Debug)]
pub struct State {
    pub selecting_field: SelectableField,
    pub is_edit_mode: bool,
    pub is_expand_advanced: bool,
    pub title: TextFieldState,
    pub typ: LoopListState,
    pub impact: LoopListState,
    pub start_date: TextFieldState,
    pub end_date: TextFieldState,
    pub organization: AutocompleteTextFieldState,
    pub content: String,
}

impl State {
    /// Every component is well formed, the choice lists run over all types
    /// and impacts, and no field of a collapsed advanced group has focus.
    pub open spec fn wf(&self) -> bool {
        &&& self.title.wf()
        &&& self.typ.wf()
        &&& self.impact.wf()
        &&& self.start_date.wf()
        &&& self.end_date.wf()
        &&& self.organization.wf()
        &&& self.typ@.len == TYPE_COUNT
        &&& self.impact@.len == IMPACT_COUNT
        &&& !self.is_expand_advanced ==> !self.selecting_field.in_advanced_group()
    }

    /// The state after forward navigation.
    pub open spec fn forward(self) -> State {
        State {
            selecting_field: forward_of(self.selecting_field, self.is_expand_advanced),
            ..self
        }
    }

    /// The state after backward navigation.
    pub open spec fn backward(self) -> State {
        State {
            selecting_field: backward_of(self.selecting_field, self.is_expand_advanced),
            ..self
        }
    }

    /// A fresh form whose start date holds `start_date`: focus on the first
    /// field in edit mode, the advanced group collapsed, the first type and
    /// impact selected, every other field empty.
    pub fn new(start_date: String) -> (r: Self)
        ensures
            r.wf(),
            r.selecting_field == SelectableField::Title,
            r.is_edit_mode,
            !r.is_expand_advanced,
            r.title@ == TextFieldModel::empty(),
            r.typ@.selected == Some(0usize),
            r.impact@.selected == Some(0usize),
            r.start_date@ == (TextFieldModel {
                text: start_date@,
                cursor: start_date@.len(),
                is_editing: false,
                has_modified: false,
            }),
            r.end_date@ == TextFieldModel::empty(),
            r.organization@ == filtered_state(organization_names(), TextFieldModel::empty()),
            r.content@.len() == 0,
    {
        let start = TextFieldState::seeded(start_date);
        Self {
            selecting_field: SelectableField::first(),
            is_edit_mode: true,
            is_expand_advanced: false,
            title: TextFieldState::default(),
            typ: LoopListState::new(TYPE_COUNT).with_selected(Some(0)),
            impact: LoopListState::new(IMPACT_COUNT).with_selected(Some(0)),
            start_date: start,
            end_date: TextFieldState::default(),
            organization: AutocompleteTextFieldState::new(organizations()),
            content: String::new(),
        }
    }

    /// A fresh form (see `new`) whose start date holds today's date.
    pub fn default() -> (r: Self)
        ensures
            r.wf(),
            r.selecting_field == SelectableField::Title,
            r.is_edit_mode,
            !r.is_expand_advanced,
            r.title@ == TextFieldModel::empty(),
            r.typ@.selected == Some(0usize),
            r.impact@.selected == Some(0usize),
            r.start_date@.cursor == r.start_date@.text.len(),
            r.start_date@.text.len() >= 10,
            !r.start_date@.is_editing,
            !r.start_date@.has_modified,
            r.end_date@ == TextFieldModel::empty(),
            r.organization@ == filtered_state(organization_names(), TextFieldModel::empty()),
            r.content@.len() == 0,
    {
        Self::new(today())
    }

    /// Moves focus forward (see `forward_of`).
    pub fn select_next_field(&mut self)
        requires
            old(self).wf(),
        ensures
            *final(self) == old(self).forward(),
            final(self).wf(),
    {
        self.selecting_field = match self.selecting_field.next() {
            Some(f) => f,
            None => SelectableField::first(),
        };

        if self.should_skip_advanced_fields() {
            self.select_advanced_field();
        }
    }

    /// Moves focus backward (see `backward_of`).
    pub fn select_previous_field(&mut self)
        requires
            old(self).wf(),
        ensures
            *final(self) == old(self).backward(),
            final(self).wf(),
    {
        self.selecting_field = match self.selecting_field.prev() {
            Some(f) => f,
            None => SelectableField::last(),
        };

        if self.should_skip_advanced_fields() {
            self.select_advanced_field();
        }
    }

    /// Opens or closes the advanced group; only the `Advanced` toggle
    /// itself does so, elsewhere nothing changes.
    pub fn toggle_expand_advanced(&mut self)
        requires
            old(self).wf(),
        ensures
            old(self).selecting_field == SelectableField::Advanced ==> *final(self) == (State {
                is_expand_advanced: !old(self).is_expand_advanced,
                ..*old(self)
            }),
            old(self).selecting_field != SelectableField::Advanced ==> *final(self) == *old(self),
            final(self).wf(),
    {
        if self.selecting_field != SelectableField::Advanced {
            return ;
        }
        self.is_expand_advanced = !self.is_expand_advanced;
    }

    pub fn enter_edit_mode(&mut self)
        requires
            old(self).wf(),
        ensures
            *final(self) == (State { is_edit_mode: true, ..*old(self) }),
            final(self).wf(),
    {
        self.is_edit_mode = true;
    }

    pub fn exit_edit_mode(&mut self)
        requires
            old(self).wf(),
        ensures
            *final(self) == (State { is_edit_mode: false, ..*old(self) }),
            final(self).wf(),
    {
        self.is_edit_mode = false;
    }

    fn select_advanced_field(&mut self)
        ensures
            *final(self) == (State { selecting_field: SelectableField::Advanced, ..*old(self) }),
    {
        self.selecting_field = SelectableField::Advanced;
    }

    fn should_skip_advanced_fields(&self) -> (r: bool)
        ensures
            r == (!self.is_expand_advanced && self.selecting_field.in_advanced_group()),
    {
        if self.is_expand_advanced {
            return false;
        }
        self.selecting_field.is_advanced_field()
    }

    /// How `field` is drawn: focused fields show the mode, others are
    /// merely displayed.
    pub fn status_of(&self, field: SelectableField) -> (r: Status)
        ensures
            r == (if self.selecting_field != field {
                Status::Displaying
            } else if self.is_edit_mode {
                Status::Editing
            } else {
                Status::Selecting
            }),
    {
        if self.selecting_field != field {
            Status::Displaying
        } else if self.is_edit_mode {
            Status::Editing
        } else {
            Status::Selecting
        }
    }

    /// The title's error as shown: none before the title was modified.
    pub fn title_error(&self) -> (r: Option<ValidationError>)
        ensures
            r == shown_error(self.title@.has_modified, title_rule(self.title@.text)),
    {
        if !self.title.has_modified() {
            return None;
        }
        validate_title(self.title.text())
    }

    /// The start date's error as shown: none before it was modified; then
    /// it is required and must match `DATE_PATTERN`.
    pub fn start_date_error(&self) -> (r: Option<ValidationError>)
        ensures
            r == shown_error(
                self.start_date@.has_modified,
                date_rule(
                    self.start_date@.text,
                    true,
                    Some(regex_matches(DATE_PATTERN@, self.start_date@.text)),
                ),
            ),
    {
        if !self.start_date.has_modified() {
            return None;
        }
        validate_date(self.start_date.text(), true)
    }

    /// The end date's error as shown: none before it was modified; then it
    /// may stay empty, and otherwise must match `DATE_PATTERN`.
    pub fn end_date_error(&self) -> (r: Option<ValidationError>)
        ensures
            r == shown_error(
                self.end_date@.has_modified,
                date_rule(
                    self.end_date@.text,
                    false,
                    Some(regex_matches(DATE_PATTERN@, self.end_date@.text)),
                ),
            ),
    {
        if !self.end_date.has_modified() {
            return None;
        }
        validate_date(self.end_date.text(), false)
    }
}

} // verus!
