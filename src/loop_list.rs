//! A single-choice selection over a list of known length that wraps around
//! at both ends.
use vstd::prelude::*;

verus! {

/// What a circular selection holds: the length of the list it points into,
/// the selected index if any, and the scroll offset a renderer starts from.
pub struct LoopListModel {
    pub selected: Option<usize>,
    pub offset: usize,
    pub len: usize,
}

impl LoopListModel {
    /// A selection always points inside the list; an empty list has none.
    pub open spec fn wf(self) -> bool {
        self.selected matches Some(i) ==> i < self.len
    }

    pub open spec fn first(self) -> Option<usize> {
        if self.len == 0 {
            None
        } else {
            Some(0usize)
        }
    }

    pub open spec fn last(self) -> Option<usize> {
        if self.len == 0 {
            None
        } else {
            Some((self.len - 1) as usize)
        }
    }

    /// Forward: nothing selected goes to the first index, the last index
    /// wraps to the first, any other index moves up by one.
    pub open spec fn next(self) -> Option<usize> {
        if self.len == 0 {
            None
        } else {
            match self.selected {
                None => Some(0usize),
                Some(i) => if i + 1 >= self.len {
                    Some(0usize)
                } else {
                    Some((i + 1) as usize)
                },
            }
        }
    }

    /// Backward: nothing selected goes to the last index, the first index
    /// wraps to the last, any other index moves down by one.
    pub open spec fn previous(self) -> Option<usize> {
        if self.len == 0 {
            None
        } else {
            match self.selected {
                None => Some((self.len - 1) as usize),
                Some(i) => if i == 0 {
                    Some((self.len - 1) as usize)
                } else {
                    Some((i - 1) as usize)
                },
            }
        }
    }

    pub open spec fn with_selection(self, selected: Option<usize>) -> LoopListModel {
        LoopListModel { selected, ..self }
    }
}

/// A circular selection over an externally owned list of `len` items.
#[derive(Debug, Clone, Copy, PartialEq, Eq, Structural)]
pub struct LoopListState {
    selected: Option<usize>,
    offset: usize,
    len: usize,
}

impl View for LoopListState {
    type V = LoopListModel;

    closed spec fn view(&self) -> LoopListModel {
        LoopListModel { selected: self.selected, offset: self.offset, len: self.len }
    }
}

impl LoopListState {
    pub open spec fn wf(&self) -> bool {
        self@.wf()
    }

    /// A selection over `len` items with nothing selected.
    pub fn new(len: usize) -> (r: Self)
        ensures
            r@ == (LoopListModel { selected: None, offset: 0, len }),
            r.wf(),
    {
        Self { selected: None, offset: 0, len }
    }

    pub fn with_offset(self, offset: usize) -> (r: Self)
        ensures
            r@ == (LoopListModel { offset, ..self@ }),
    {
        Self { offset, ..self }
    }

    pub fn with_selected(self, selected: Option<usize>) -> (r: Self)
        requires
            selected matches Some(i) ==> i < self@.len,
        ensures
            r@ == self@.with_selection(selected),
            r.wf(),
    {
        Self { selected, ..self }
    }

    pub fn selected(&self) -> (r: Option<usize>)
        ensures
            r == self@.selected,
    {
        self.selected
    }

    pub fn offset(&self) -> (r: usize)
        ensures
            r == self@.offset,
    {
        self.offset
    }

    pub fn len(&self) -> (r: usize)
        ensures
            r == self@.len,
    {
        self.len
    }

    pub fn select_first(&mut self)
        ensures
            final(self)@ == old(self)@.with_selection(old(self)@.first()),
            final(self).wf(),
    {
        if self.len == 0 {
            self.selected = None;
            return ;
        }
        self.selected = Some(0);
    }

    pub fn select_last(&mut self)
        ensures
            final(self)@ == old(self)@.with_selection(old(self)@.last()),
            final(self).wf(),
    {
        if self.len == 0 {
            self.selected = None;
            return ;
        }
        self.selected = Some(self.len - 1);
    }

    pub fn select_next(&mut self)
        requires
            old(self).wf(),
        ensures
            final(self)@ == old(self)@.with_selection(old(self)@.next()),
            final(self).wf(),
    {
        if self.len == 0 {
            self.selected = None;
            return ;
        }
        match self.selected {
            None => self.select_first(),
            Some(i) => {
                if self.is_selecting_last() {
                    self.select_first();
                } else {
                    self.selected = Some(i + 1);
                }
            },
        }
    }

    pub fn select_previous(&mut self)
        requires
            old(self).wf(),
        ensures
            final(self)@ == old(self)@.with_selection(old(self)@.previous()),
            final(self).wf(),
    {
        if self.len == 0 {
            self.selected = None;
            return ;
        }
        match self.selected {
            None => self.select_last(),
            Some(i) => {
                if self.is_selecting_first() {
                    self.select_last();
                } else {
                    self.selected = Some(i - 1);
                }
            },
        }
    }

    fn is_selecting_last(&self) -> (r: bool)
        requires
            self.len > 0,
        ensures
            r == (self.selected matches Some(i) && i == self.len - 1),
    {
        match self.selected {
            None => false,
            Some(selected) => selected == self.len - 1,
        }
    }

    fn is_selecting_first(&self) -> (r: bool)
        ensures
            r == (self.selected matches Some(i) && i == 0),
    {
        match self.selected {
            None => false,
            Some(selected) => selected == 0,
        }
    }
}

} // verus!
