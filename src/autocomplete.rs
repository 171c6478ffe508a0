//! A query buffer that narrows a list of candidates by case-insensitive
//! substring match, with a circular selection over what is left.
use crate::loop_list::{LoopListModel, LoopListState};
use crate::text::chars_of;
use crate::text_field::{TextFieldModel, TextFieldState};
use vstd::prelude::*;

verus! {

/// The lowercase form of `s`, as std's `str::to_lowercase` gives it.
pub uninterp spec fn lower_of(s: Seq<char>) -> Seq<char>;

/// Relies on str::to_lowercase: the result depends on the characters alone,
/// and an empty string stays empty.
#[verifier::external_body]
fn lowercase(s: &str) -> (r: String)
    ensures
        r@ == lower_of(s@),
        s@.len() == 0 ==> r@.len() == 0,
{
    s.to_lowercase()
}

/// `needle` occurs in `haystack` as a run of consecutive characters.
pub open spec fn occurs_in(haystack: Seq<char>, needle: Seq<char>) -> bool {
    exists|i: int|
        0 <= i && i + needle.len() <= haystack.len() && #[trigger] haystack.subrange(
            i,
            i + needle.len(),
        ) == needle
}

/// The filter policy: an empty query keeps every item, any other keeps the
/// items that contain it, both sides lowercased.
pub open spec fn item_matches(item: Seq<char>, query: Seq<char>) -> bool {
    query.len() == 0 || occurs_in(lower_of(item), lower_of(query))
}

/// The indices of the first `n` items that match `query`, in source order.
pub open spec fn kept_indices(items: Seq<Seq<char>>, query: Seq<char>, n: nat) -> Seq<usize>
    decreases n,
{
    if n == 0 {
        Seq::empty()
    } else {
        let before = kept_indices(items, query, (n - 1) as nat);
        if item_matches(items[n - 1], query) {
            before.push((n - 1) as usize)
        } else {
            before
        }
    }
}

/// The indices of all items that match `query`, in source order.
pub open spec fn filter_indices(items: Seq<Seq<char>>, query: Seq<char>) -> Seq<usize> {
    kept_indices(items, query, items.len())
}

/// Whether `needle` occurs in `haystack`.
pub fn contains_chars(haystack: &str, needle: &str) -> (r: bool)
    ensures
        r == occurs_in(haystack@, needle@),
{
    let h = chars_of(haystack);
    let n = chars_of(needle);
    if n.len() > h.len() {
        return false;
    }
    let mut i: usize = 0;
    while i <= h.len() - n.len()
        invariant
            h@ == haystack@,
            n@ == needle@,
            n.len() <= h.len(),
            i <= h.len() - n.len() + 1,
            forall|k: int|
                0 <= k < i ==> #[trigger] h@.subrange(k, k + n@.len()) != n@,
        decreases h.len() - i,
    {
        let mut j: usize = 0;
        let mut same = true;
        while j < n.len()
            invariant
                i + n.len() <= h.len(),
                j <= n.len(),
                same == (forall|m: int| 0 <= m < j ==> h@[i + m] == n@[m]),
            decreases n.len() - j,
        {
            if h[i + j] != n[j] {
                same = false;
            }
            j += 1;
        }
        if same {
            assert(h@.subrange(i as int, i + n@.len()) =~= n@);
            return true;
        }
        assert(h@.subrange(i as int, i + n@.len())[(choose|m: int|
            0 <= m < n.len() && h@[i + m] != n@[m])] != n@[(choose|m: int|
            0 <= m < n.len() && h@[i + m] != n@[m])]);
        i += 1;
    }
    assert forall|k: int|
        0 <= k && k + needle@.len() <= haystack@.len() implies #[trigger] haystack@.subrange(
        k,
        k + needle@.len(),
    ) != needle@ by {
        assert(k < i);
    }
    false
}

/// Whether `item` passes the filter for `query`.
pub fn matches_query(item: &str, query: &str) -> (r: bool)
    ensures
        r == item_matches(item@, query@),
{
    if query.is_empty() {
        return true;
    }
    let item_lower = lowercase(item);
    let query_lower = lowercase(query);
    contains_chars(item_lower.as_str(), query_lower.as_str())
}

/// What an autocomplete field holds: its items, its query buffer, the
/// indices of the items the query keeps, and the selection over those.
pub struct AutocompleteModel {
    pub items: Seq<Seq<char>>,
    pub query: TextFieldModel,
    pub filtered: Seq<usize>,
    pub selection: LoopListModel,
}

impl AutocompleteModel {
    /// The filtered list is exactly what the filter keeps of the items, and
    /// the selection runs over it.
    pub open spec fn wf(self) -> bool {
        &&& self.query.wf()
        &&& self.selection.wf()
        &&& self.filtered == filter_indices(self.items, self.query.text)
        &&& self.selection.len == self.filtered.len()
    }
}

/// The state of a field over `items` with query buffer `query`, right after
/// filtering: the kept indices, with the first of them selected.
pub open spec fn filtered_state(items: Seq<Seq<char>>, query: TextFieldModel) -> AutocompleteModel {
    let filtered = filter_indices(items, query.text);
    AutocompleteModel {
        items,
        query,
        filtered,
        selection: LoopListModel {
            selected: if filtered.len() == 0 {
                None
            } else {
                Some(0usize)
            },
            offset: 0,
            len: filtered.len() as usize,
        },
    }
}

/// A filtered choice among a list of candidate names.
#[derive(Debug)]
pub struct AutocompleteTextFieldState {
    items: Vec<String>,
    text_field: TextFieldState,
    filtered_items: Vec<usize>,
    loop_list_state: LoopListState,
}

pub open spec fn views_of(items: Seq<String>) -> Seq<Seq<char>> {
    items.map_values(|s: String| s@)
}

impl View for AutocompleteTextFieldState {
    type V = AutocompleteModel;

    closed spec fn view(&self) -> AutocompleteModel {
        AutocompleteModel {
            items: views_of(self.items@),
            query: self.text_field@,
            filtered: self.filtered_items@,
            selection: self.loop_list_state@,
        }
    }
}

impl AutocompleteTextFieldState {
    pub open spec fn wf(&self) -> bool {
        self@.wf()
    }

    /// A field over `items` with an empty query: every item is kept, the
    /// first one selected.
    pub fn new(items: Vec<String>) -> (r: Self)
        ensures
            r@ == filtered_state(views_of(items@), TextFieldModel::empty()),
            r.wf(),
    {
        let mut i = Self {
            items,
            text_field: TextFieldState::default(),
            filtered_items: Vec::new(),
            loop_list_state: LoopListState::new(0),
        };
        i.filter();
        i
    }

    /// Replaces the items and filters them with the query as it stands.
    pub fn update_items(&mut self, items: Vec<String>)
        requires
            old(self).wf(),
        ensures
            final(self)@ == filtered_state(views_of(items@), old(self)@.query),
            final(self).wf(),
    {
        self.items = items;
        self.filter();
    }

    pub fn text_field(&self) -> (r: &TextFieldState)
        ensures
            r@ == self@.query,
    {
        &self.text_field
    }

    pub fn text(&self) -> (r: &str)
        ensures
            r@ == self@.query.text,
    {
        self.text_field.text()
    }

    pub fn items(&self) -> (r: &Vec<String>)
        ensures
            views_of(r@) == self@.items,
    {
        &self.items
    }

    /// The indices of the kept items, in source order.
    pub fn filtered_indices(&self) -> (r: &Vec<usize>)
        ensures
            r@ == self@.filtered,
    {
        &self.filtered_items
    }

    /// The kept items, in source order.
    pub fn filtered_items(&self) -> (r: Vec<String>)
        requires
            self.wf(),
        ensures
            r@.len() == self@.filtered.len(),
            forall|k: int|
                0 <= k < r@.len() ==> (#[trigger] r@[k])@ == self@.items[self@.filtered[k] as int],
    {
        proof {
            self.lemma_filtered_in_range();
        }
        let mut r: Vec<String> = Vec::new();
        let mut k: usize = 0;
        while k < self.filtered_items.len()
            invariant
                self.wf(),
                k <= self.filtered_items.len(),
                r@.len() == k,
                forall|m: int| 0 <= m < self@.filtered.len() ==> self@.filtered[m] < self@.items.len(),
                forall|m: int|
                    0 <= m < k ==> (#[trigger] r@[m])@ == self@.items[self@.filtered[m] as int],
            decreases self.filtered_items.len() - k,
        {
            let idx = self.filtered_items[k];
            r.push(self.items[idx].clone());
            k += 1;
        }
        r
    }

    /// The position of the selected item in the filtered list.
    pub fn selected(&self) -> (r: Option<usize>)
        ensures
            r == self@.selection.selected,
    {
        self.loop_list_state.selected()
    }

    pub fn loop_list_state(&self) -> (r: &LoopListState)
        ensures
            r@ == self@.selection,
    {
        &self.loop_list_state
    }

    pub fn select_next(&mut self)
        requires
            old(self).wf(),
        ensures
            final(self)@ == (AutocompleteModel {
                selection: old(self)@.selection.with_selection(old(self)@.selection.next()),
                ..old(self)@
            }),
            final(self).wf(),
    {
        self.loop_list_state.select_next();
    }

    pub fn select_previous(&mut self)
        requires
            old(self).wf(),
        ensures
            final(self)@ == (AutocompleteModel {
                selection: old(self)@.selection.with_selection(old(self)@.selection.previous()),
                ..old(self)@
            }),
            final(self).wf(),
    {
        self.loop_list_state.select_previous();
    }

    /// Takes the selected item: its text replaces the query, with the cursor
    /// at the end, and the items are filtered anew. Returns the taken text,
    /// or `None`, changing nothing, where nothing is selected.
    pub fn confirm(&mut self) -> (r: Option<String>)
        requires
            old(self).wf(),
        ensures
            old(self)@.selection.selected is None ==> r is None && final(self)@ == old(self)@,
            old(self)@.selection.selected matches Some(s) ==> {
                let item = old(self)@.items[old(self)@.filtered[s as int] as int];
                &&& r matches Some(t) && t@ == item
                &&& final(self)@ == filtered_state(
                    old(self)@.items,
                    old(self)@.query.with_text(item),
                )
            },
            final(self).wf(),
    {
        proof {
            self.lemma_filtered_in_range();
        }
        match self.loop_list_state.selected() {
            None => None,
            Some(selected) => {
                let index = self.filtered_items[selected];
                let text = self.items[index].clone();
                self.text_field.set_text(text.clone());
                self.filter();
                Some(text)
            },
        }
    }

    pub fn set_is_editing(&mut self, is_editing: bool)
        requires
            old(self).wf(),
        ensures
            final(self)@ == (AutocompleteModel {
                query: TextFieldModel { is_editing, ..old(self)@.query },
                ..old(self)@
            }),
            final(self).wf(),
    {
        self.text_field.set_is_editing(is_editing);
    }

    pub fn move_cursor_left(&mut self)
        requires
            old(self).wf(),
        ensures
            final(self)@ == (AutocompleteModel { query: old(self)@.query.moved_left(), ..old(self)@ }),
            final(self).wf(),
    {
        self.text_field.move_cursor_left();
    }

    pub fn move_cursor_right(&mut self)
        requires
            old(self).wf(),
        ensures
            final(self)@ == (AutocompleteModel { query: old(self)@.query.moved_right(), ..old(self)@ }),
            final(self).wf(),
    {
        self.text_field.move_cursor_right();
    }

    pub fn move_cursor_to_start(&mut self)
        requires
            old(self).wf(),
        ensures
            final(self)@ == (AutocompleteModel {
                query: old(self)@.query.moved_to_start(),
                ..old(self)@
            }),
            final(self).wf(),
    {
        self.text_field.move_cursor_to_start();
    }

    pub fn move_cursor_to_end(&mut self)
        requires
            old(self).wf(),
        ensures
            final(self)@ == (AutocompleteModel { query: old(self)@.query.moved_to_end(), ..old(self)@ }),
            final(self).wf(),
    {
        self.text_field.move_cursor_to_end();
    }

    pub fn enter_char(&mut self, c: char)
        requires
            old(self).wf(),
        ensures
            final(self)@ == filtered_state(old(self)@.items, old(self)@.query.typed(c)),
            final(self).wf(),
    {
        self.text_field.enter_char(c);
        self.filter();
    }

    pub fn delete_left_char(&mut self)
        requires
            old(self).wf(),
        ensures
            final(self)@ == filtered_state(old(self)@.items, old(self)@.query.deleted_left()),
            final(self).wf(),
    {
        self.text_field.delete_left_char();
        self.filter();
    }

    pub fn delete_right_char(&mut self)
        requires
            old(self).wf(),
        ensures
            final(self)@ == filtered_state(old(self)@.items, old(self)@.query.deleted_right()),
            final(self).wf(),
    {
        self.text_field.delete_right_char();
        self.filter();
    }

    pub fn delete_right_all(&mut self)
        requires
            old(self).wf(),
        ensures
            final(self)@ == filtered_state(old(self)@.items, old(self)@.query.deleted_right_all()),
            final(self).wf(),
    {
        self.text_field.delete_right_all();
        self.filter();
    }

    proof fn lemma_filtered_in_range(&self)
        requires
            self.wf(),
        ensures
            forall|m: int|
                0 <= m < self@.filtered.len() ==> self@.filtered[m] < self@.items.len(),
    {
        lemma_kept_below(self@.items, self@.query.text, self@.items.len());
    }

    /// Recomputes the kept items from the query and resets the selection to
    /// the first of them.
    fn filter(&mut self)
        requires
            old(self).text_field.wf(),
        ensures
            final(self).items == old(self).items,
            final(self).text_field == old(self).text_field,
            final(self)@ == filtered_state(old(self)@.items, old(self)@.query),
            final(self).wf(),
    {
        let mut kept: Vec<usize> = Vec::new();
        let mut i: usize = 0;
        while i < self.items.len()
            invariant
                i <= self.items.len(),
                kept@ == kept_indices(views_of(self.items@), self.text_field@.text, i as nat),
            decreases self.items.len() - i,
        {
            if matches_query(self.items[i].as_str(), self.text_field.text()) {
                kept.push(i);
            }
            i += 1;
        }
        self.filtered_items = kept;
        self.update_loop_list_state();
        proof {
            lemma_kept_below(self@.items, self@.query.text, self@.items.len());
        }
    }

    fn update_loop_list_state(&mut self)
        ensures
            final(self).items == old(self).items,
            final(self).text_field == old(self).text_field,
            final(self).filtered_items == old(self).filtered_items,
            final(self).loop_list_state@ == (LoopListModel {
                selected: if old(self).filtered_items.len() == 0 {
                    None
                } else {
                    Some(0usize)
                },
                offset: 0,
                len: old(self).filtered_items.len(),
            }),
    {
        self.loop_list_state = LoopListState::new(self.filtered_items.len());
        self.loop_list_state.select_first();
    }
}

/// An empty query keeps every item, in source order.
pub proof fn lemma_empty_query_keeps_all(items: Seq<Seq<char>>)
    requires
        items.len() <= usize::MAX,
    ensures
        filter_indices(items, Seq::empty()) == Seq::new(items.len(), |i: int| i as usize),
{
    lemma_empty_query_keeps_prefix(items, items.len());
}

proof fn lemma_empty_query_keeps_prefix(items: Seq<Seq<char>>, n: nat)
    requires
        n <= items.len() <= usize::MAX,
    ensures
        kept_indices(items, Seq::empty(), n) == Seq::new(n, |i: int| i as usize),
    decreases n,
{
    if n > 0 {
        lemma_empty_query_keeps_prefix(items, (n - 1) as nat);
        assert(Seq::new((n - 1) as nat, |i: int| i as usize).push((n - 1) as usize) =~= Seq::new(
            n,
            |i: int| i as usize,
        ));
    } else {
        assert(Seq::<usize>::empty() =~= Seq::new(0, |i: int| i as usize));
    }
}

/// Every kept index names an item.
pub proof fn lemma_kept_below(items: Seq<Seq<char>>, query: Seq<char>, n: nat)
    requires
        n <= items.len(),
    ensures
        kept_indices(items, query, n).len() <= n,
        forall|m: int|
            0 <= m < kept_indices(items, query, n).len() ==> kept_indices(items, query, n)[m] < n,
    decreases n,
{
    if n > 0 {
        lemma_kept_below(items, query, (n - 1) as nat);
    }
}

} // verus!
