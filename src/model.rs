//! A minimal form model: a field being chosen, the chosen values, and
//! whether the form may close.
use crate::brag::{Impact, Type};
use vstd::prelude::*;

verus! {

/// The fields of the minimal form, in order.
#[derive(Debug, Clone, Copy, PartialEq, Eq, Structural)]
pub enum Field {
    Title,
    Type,
    Impact,
}

pub const FIELD_COUNT: usize = 3;

impl Field {
    pub open spec fn position(self) -> int {
        match self {
            Field::Title => 0,
            Field::Type => 1,
            Field::Impact => 2,
        }
    }

    pub open spec fn at(i: int) -> Option<Field> {
        if i == 0 {
            Some(Field::Title)
        } else if i == 1 {
            Some(Field::Type)
        } else if i == 2 {
            Some(Field::Impact)
        } else {
            None
        }
    }

    fn variant(i: usize) -> (r: Option<Field>)
        ensures
            r == Field::at(i as int),
    {
        match i {
            0 => Some(Field::Title),
            1 => Some(Field::Type),
            2 => Some(Field::Impact),
            _ => None,
        }
    }

    /// The position of the field in the order.
    pub fn idx(self) -> (r: usize)
        ensures
            r == self.position(),
            r < FIELD_COUNT,
    {
        match self {
            Field::Title => 0,
            Field::Type => 1,
            Field::Impact => 2,
        }
    }

    /// The field after this one; `None` after the last.
    pub fn next(self) -> (r: Option<Self>)
        ensures
            r == Field::at(self.position() + 1),
    {
        let index = self.idx();
        if index == FIELD_COUNT - 1 {
            None
        } else {
            Field::variant(index + 1)
        }
    }

    /// The field before this one; `None` before the first.
    pub fn prev(self) -> (r: Option<Self>)
        ensures
            r == Field::at(self.position() - 1),
    {
        let index = self.idx();
        if index == 0 {
            None
        } else {
            Field::variant(index - 1)
        }
    }
}

/// The values the minimal form collects.
#[derive(Debug)]
pub struct Inputs {
    pub typ: Type,
    pub impact: Impact,
}

/// The minimal form: which field is being chosen, if any, the values, and
/// whether it was asked to close.
pub struct State {
    pub selecting_field: Option<Field>,
    pub inputs: Inputs,
    pub should_quit: bool,
}

impl State {
    /// Nothing selected, the first type and impact, not closing.
    pub fn empty() -> (r: Self)
        ensures
            r.selecting_field is None,
            r.inputs.typ == Type::Project,
            r.inputs.impact == Impact::Trivial,
            !r.should_quit,
    {
        Self {
            selecting_field: None,
            inputs: Inputs { typ: Type::Project, impact: Impact::Trivial },
            should_quit: false,
        }
    }

    pub fn unselect(&mut self)
        ensures
            final(self).selecting_field is None,
            final(self).inputs == old(self).inputs,
            final(self).should_quit == old(self).should_quit,
    {
        self.selecting_field = None;
    }

    /// The form may close only while no field is being chosen.
    pub fn can_quit(&self) -> (r: bool)
        ensures
            r == self.selecting_field is None,
    {
        match self.selecting_field {
            None => true,
            Some(_) => false,
        }
    }

    /// Asks the form to close, where it may.
    pub fn quit(&mut self)
        ensures
            final(self).selecting_field == old(self).selecting_field,
            final(self).inputs == old(self).inputs,
            final(self).should_quit == (old(self).should_quit || old(self).selecting_field is None),
    {
        if self.can_quit() {
            self.should_quit = true;
        }
    }
}

} // verus!
