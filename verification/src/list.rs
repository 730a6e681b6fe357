//! The scrollable list model shared by the node pane and the topic pane.

use vstd::prelude::*;
use crate::event::{KeyCode, KeyEvent, KeyEventKind};
use crate::table::{column_after, column_before, select_next_column, select_previous_column};

verus! {

/// The height of one row, in terminal lines.
pub const ITEM_HEIGHT: usize = 1;

/// A step of the row selection or of the column cursor.
#[derive(Clone, Copy, Debug, PartialEq, Eq, Structural)]
pub enum Movement {
    Up,
    Down,
    Left,
    Right,
}

impl Movement {
    /// The movement that a key stands for: the arrow keys, and `k`, `j`, `h`
    /// and `l` in their place. Other keys stand for none.
    pub open spec fn of_key(code: KeyCode) -> Option<Movement> {
        match code {
            KeyCode::Up => Some(Movement::Up),
            KeyCode::Down => Some(Movement::Down),
            KeyCode::Left => Some(Movement::Left),
            KeyCode::Right => Some(Movement::Right),
            KeyCode::Char(c) => if c == 'k' {
                Some(Movement::Up)
            } else if c == 'j' {
                Some(Movement::Down)
            } else if c == 'h' {
                Some(Movement::Left)
            } else if c == 'l' {
                Some(Movement::Right)
            } else {
                None
            },
            _ => None,
        }
    }

    /// The movement that a key stands for, if any.
    pub fn from_key(code: KeyCode) -> (movement: Option<Movement>)
        ensures
            movement == Self::of_key(code),
    {
        match code {
            KeyCode::Up | KeyCode::Char('k') => Some(Movement::Up),
            KeyCode::Down | KeyCode::Char('j') => Some(Movement::Down),
            KeyCode::Left | KeyCode::Char('h') => Some(Movement::Left),
            KeyCode::Right | KeyCode::Char('l') => Some(Movement::Right),
            _ => None,
        }
    }
}

/// What a list needs from the records it holds: a name that identifies a
/// record within its list, and a test for equal content.
pub trait Record: View + Sized {
    /// The name of a record, read off its mathematical content.
    spec fn name_of(v: Self::V) -> Seq<char>;

    /// The record's name.
    fn name(&self) -> (name: &String)
        ensures
            name@ == Self::name_of(self@),
    ;

    /// Whether two records have the same content.
    fn matches(&self, other: &Self) -> (same: bool)
        ensures
            same == (self@ == other@),
    ;
}

/// The mathematical content of a [`ListModel`]: the records in insertion
/// order, the selected row, the column cursor and the scroll offset.
pub struct ListView<V> {
    pub items: Seq<V>,
    pub selected: Option<usize>,
    pub column: Option<usize>,
    pub scroll_offset: usize,
}

impl<V> ListView<V> {
    /// The list with nothing in it and nothing selected.
    pub open spec fn empty() -> Self {
        ListView { items: Seq::empty(), selected: None, column: None, scroll_offset: 0 }
    }

    /// The row that is selected after moving down once, in a list of `len`
    /// rows: the first row when none was selected, else the next one,
    /// wrapping from the last to the first.
    pub open spec fn row_after(selected: Option<usize>, len: int) -> int
        recommends
            len > 0,
    {
        match selected {
            Some(i) => (i + 1) % len,
            None => 0,
        }
    }

    /// The row that is selected after moving up once, in a list of `len`
    /// rows: the first row when none was selected, else the one before,
    /// wrapping from the first to the last.
    pub open spec fn row_before(selected: Option<usize>, len: int) -> int
        recommends
            len > 0,
    {
        match selected {
            Some(i) => (i - 1 + len) % len,
            None => 0,
        }
    }

    /// The scroll offset that belongs to a selection: the selected row times
    /// the row height, and 0 when no row is selected.
    pub open spec fn offset_of(selected: Option<usize>) -> int {
        match selected {
            Some(i) => i * ITEM_HEIGHT,
            None => 0,
        }
    }

    /// The selection is a row of the list, or nothing, and the scroll offset
    /// is the one that belongs to it.
    pub open spec fn selection_in_range(self) -> bool {
        &&& self.selected matches Some(i) ==> i < self.items.len()
        &&& self.scroll_offset == Self::offset_of(self.selected)
    }

    /// The list with `selected` as its selection, and the scroll offset that
    /// belongs to it.
    pub open spec fn select(self, selected: Option<usize>) -> Self {
        ListView { selected, scroll_offset: Self::offset_of(selected) as usize, ..self }
    }

    /// The list after moving the selection down one row. An empty list stays
    /// as it is.
    pub open spec fn next_row(self) -> Self {
        if self.items.len() == 0 {
            self
        } else {
            self.select(Some(Self::row_after(self.selected, self.items.len() as int) as usize))
        }
    }

    /// The list after moving the selection up one row. An empty list stays
    /// as it is.
    pub open spec fn previous_row(self) -> Self {
        if self.items.len() == 0 {
            self
        } else {
            self.select(Some(Self::row_before(self.selected, self.items.len() as int) as usize))
        }
    }

    /// The list after moving the column cursor one column to the right.
    pub open spec fn next_column(self) -> Self {
        ListView { column: Some(column_after(self.column)), ..self }
    }

    /// The list after moving the column cursor one column to the left.
    pub open spec fn previous_column(self) -> Self {
        ListView { column: Some(column_before(self.column)), ..self }
    }

    /// The list after one movement: up and down move the row selection, left
    /// and right the column cursor.
    pub open spec fn moved(self, movement: Movement) -> Self {
        match movement {
            Movement::Up => self.previous_row(),
            Movement::Down => self.next_row(),
            Movement::Left => self.previous_column(),
            Movement::Right => self.next_column(),
        }
    }

    /// The list after a keyboard event: a pressed key that stands for a
    /// movement moves, anything else changes nothing.
    pub open spec fn on_key(self, key: KeyEvent) -> Self {
        if key.kind == KeyEventKind::Press {
            match Movement::of_key(key.code) {
                Some(movement) => self.moved(movement),
                None => self,
            }
        } else {
            self
        }
    }

    /// Moving down from row `i` of a list of `len` rows selects row
    /// `(i + 1) mod len`, moving up selects row `(i - 1 + len) mod len`, and
    /// from no selection both select the first row. On an empty list neither
    /// does anything. The row selected is always a row of the list.
    pub proof fn lemma_row_steps(self)
        requires
            self.selection_in_range(),
        ensures
            self.items.len() == 0 ==> self.next_row() == self && self.previous_row() == self,
            self.items.len() > 0 ==> self.next_row().selected == Some(
                Self::row_after(self.selected, self.items.len() as int) as usize,
            ) && self.previous_row().selected == Some(
                Self::row_before(self.selected, self.items.len() as int) as usize,
            ),
            self.items.len() > 0 ==> 0 <= Self::row_after(self.selected, self.items.len() as int)
                < self.items.len() && 0 <= Self::row_before(
                self.selected,
                self.items.len() as int,
            ) < self.items.len(),
            self.next_row().selection_in_range(),
            self.previous_row().selection_in_range(),
            self.next_row().items == self.items,
            self.previous_row().items == self.items,
            self.next_row().column == self.column,
            self.previous_row().column == self.column,
    {
        let len = self.items.len() as int;
        if len > 0 {
            if let Some(i) = self.selected {
                vstd::arithmetic::div_mod::lemma_mod_bound(i + 1, len);
                vstd::arithmetic::div_mod::lemma_mod_bound(i - 1 + len, len);
            }
        }
    }

    /// The selection that remains valid in a list of `len` rows: `selected`
    /// itself where that row exists, else the last row, and nothing in an
    /// empty list.
    pub open spec fn clamp_selection(selected: Option<usize>, len: int) -> Option<usize> {
        match selected {
            Some(i) => if i < len {
                Some(i)
            } else if len > 0 {
                Some((len - 1) as usize)
            } else {
                None
            },
            None => None,
        }
    }
}

/// An ordered list of records with a selected row, a column cursor and a
/// scroll offset. Records keep their insertion order, and no two of them have
/// the same name.
pub struct ListModel<T> {
    items: Vec<T>,
    selected: Option<usize>,
    selected_column: Option<usize>,
    scroll_offset: usize,
}

impl<T: Record> View for ListModel<T> {
    type V = ListView<T::V>;

    closed spec fn view(&self) -> ListView<T::V> {
        ListView {
            items: self.items@.map_values(|t: T| t@),
            selected: self.selected,
            column: self.selected_column,
            scroll_offset: self.scroll_offset,
        }
    }
}

impl<T: Record> ListModel<T> {
    /// Whether one of `items` has the name `name`.
    pub open spec fn has_name(items: Seq<T::V>, name: Seq<char>) -> bool {
        exists|i: int| 0 <= i < items.len() && T::name_of(#[trigger] items[i]) == name
    }

    /// No two of `items` have the same name.
    pub open spec fn distinct_names(items: Seq<T::V>) -> bool {
        forall|i: int, j: int|
            0 <= i < j < items.len() ==> T::name_of(#[trigger] items[i]) != T::name_of(
                #[trigger] items[j],
            )
    }

    /// What makes a list valid: its names are distinct, its selection is one
    /// of its rows, or nothing, and its scroll offset belongs to its selection.
    pub open spec fn valid(list: ListView<T::V>) -> bool {
        &&& Self::distinct_names(list.items)
        &&& list.selection_in_range()
    }

    /// The list after appending `item`: `item` goes to the end, unless a
    /// record with its name is already there, in which case nothing changes.
    pub open spec fn appended(list: ListView<T::V>, item: T::V) -> ListView<T::V> {
        if Self::has_name(list.items, T::name_of(item)) {
            list
        } else {
            ListView { items: list.items.push(item), ..list }
        }
    }

    /// The list after removing every record whose content is `item`: the
    /// others keep their order, and the selection stays on its row index where
    /// that row still exists, else moves to the last row.
    pub open spec fn removed(list: ListView<T::V>, item: T::V) -> ListView<T::V> {
        let items = list.items.filter(|v: T::V| v != item);
        (ListView { items, ..list }).select(
            ListView::<T::V>::clamp_selection(list.selected, items.len() as int),
        )
    }

    /// The names of `items`, in order.
    pub open spec fn names(items: Seq<T::V>) -> Seq<Seq<char>> {
        items.map_values(|v: T::V| T::name_of(v))
    }

    /// The list after appending each of `items` in turn.
    pub open spec fn appended_all(list: ListView<T::V>, items: Seq<T::V>) -> ListView<T::V>
        decreases items.len(),
    {
        if items.len() == 0 {
            list
        } else {
            Self::appended_all(Self::appended(list, items[0]), items.skip(1))
        }
    }

    /// Appending keeps a valid list valid.
    pub proof fn lemma_appended_valid(list: ListView<T::V>, item: T::V)
        requires
            Self::valid(list),
        ensures
            Self::valid(Self::appended(list, item)),
    {
    }

    /// Appending a record whose name is already listed changes nothing, so
    /// a repeated name never makes the list longer.
    pub proof fn lemma_append_listed_name(list: ListView<T::V>, item: T::V)
        requires
            Self::has_name(list.items, T::name_of(item)),
        ensures
            Self::appended(list, item) == list,
    {
    }

    /// Appending a record whose name is not yet listed makes the list longer
    /// by that record, and leaves the selection where it was.
    pub proof fn lemma_append_new_name(list: ListView<T::V>, item: T::V)
        requires
            !Self::has_name(list.items, T::name_of(item)),
        ensures
            Self::appended(list, item).items == list.items.push(item),
            Self::appended(list, item).selected == list.selected,
            Self::appended(list, item).column == list.column,
            Self::appended(list, item).scroll_offset == list.scroll_offset,
    {
    }

    /// Appending any number of records keeps a valid list valid, keeps what
    /// was listed in its place, and leaves the selection where it was.
    pub proof fn lemma_appended_all_valid(list: ListView<T::V>, items: Seq<T::V>)
        requires
            Self::valid(list),
        ensures
            Self::valid(Self::appended_all(list, items)),
            list.items.is_prefix_of(Self::appended_all(list, items).items),
            Self::appended_all(list, items).selected == list.selected,
            Self::appended_all(list, items).column == list.column,
            Self::appended_all(list, items).scroll_offset == list.scroll_offset,
        decreases items.len(),
    {
        if items.len() > 0 {
            Self::lemma_appended_all_valid(Self::appended(list, items[0]), items.skip(1));
        }
    }

    /// Records with names that differ from each other and from those listed
    /// are all appended, in their order: the list grows by their number.
    pub proof fn lemma_append_all_distinct(list: ListView<T::V>, items: Seq<T::V>)
        requires
            Self::distinct_names(list.items + items),
        ensures
            Self::appended_all(list, items).items == list.items + items,
        decreases items.len(),
    {
        let all = list.items + items;
        if items.len() == 0 {
            assert(all =~= list.items);
        } else {
            let first = items[0];
            assert(all[list.items.len() as int] == first);
            assert forall|i: int| 0 <= i < list.items.len() implies T::name_of(
                #[trigger] list.items[i],
            ) != T::name_of(first) by {
                assert(all[i] == list.items[i]);
            }
            let next = Self::appended(list, first);
            assert(next.items + items.skip(1) =~= all);
            Self::lemma_append_all_distinct(next, items.skip(1));
        }
    }

    /// A name is listed after appending `items` exactly if it was listed
    /// before or is the name of one of `items`.
    pub proof fn lemma_appended_all_names(
        list: ListView<T::V>,
        items: Seq<T::V>,
        name: Seq<char>,
    )
        ensures
            Self::has_name(Self::appended_all(list, items).items, name) <==> Self::has_name(
                list.items + items,
                name,
            ),
        decreases items.len(),
    {
        let all = list.items + items;
        if items.len() == 0 {
            assert(all =~= list.items);
        } else {
            let first = items[0];
            let next = Self::appended(list, first);
            let rest = items.skip(1);
            Self::lemma_appended_all_names(next, rest, name);
            if Self::has_name(next.items + rest, name) {
                let i = choose|i: int|
                    0 <= i < (next.items + rest).len() && T::name_of(
                        #[trigger] (next.items + rest)[i],
                    ) == name;
                if i < list.items.len() {
                    assert(all[i] == (next.items + rest)[i]);
                } else if i < next.items.len() {
                    assert(all[list.items.len() as int] == first);
                } else {
                    let k = i - next.items.len();
                    assert(all[list.items.len() + 1 + k] == rest[k]);
                }
            }
            if Self::has_name(all, name) {
                let i = choose|i: int|
                    0 <= i < all.len() && T::name_of(#[trigger] all[i]) == name;
                if i < list.items.len() {
                    assert((next.items + rest)[i] == all[i]);
                } else if i == list.items.len() {
                    if Self::has_name(list.items, T::name_of(first)) {
                        let j = choose|j: int|
                            0 <= j < list.items.len() && T::name_of(#[trigger] list.items[j])
                                == T::name_of(first);
                        assert((next.items + rest)[j] == list.items[j]);
                    } else {
                        assert((next.items + rest)[i] == first);
                    }
                } else {
                    let k = i - list.items.len() - 1;
                    assert(rest[k] == all[i]);
                    assert((next.items + rest)[next.items.len() + k] == rest[k]);
                }
            }
        }
    }

    /// After appending `items` to a valid list, the list has as many records
    /// as there are different names among those listed before and `items`.
    pub proof fn lemma_append_all_count(list: ListView<T::V>, items: Seq<T::V>)
        requires
            Self::valid(list),
        ensures
            Self::appended_all(list, items).items.len() == Self::names(
                list.items + items,
            ).to_set().len(),
    {
        let result = Self::appended_all(list, items).items;
        let all = list.items + items;
        Self::lemma_appended_all_valid(list, items);
        assert forall|name: Seq<char>| Self::names(result).to_set().contains(name)
            <==> Self::names(all).to_set().contains(name) by {
            Self::lemma_appended_all_names(list, items, name);
            Self::lemma_names_contain(result, name);
            Self::lemma_names_contain(all, name);
        }
        assert(Self::names(result).to_set() =~= Self::names(all).to_set());
        assert(Self::names(result).no_duplicates());
        Self::names(result).unique_seq_to_set();
    }

    /// A name is among the names of `items` exactly if one of `items` has it.
    pub proof fn lemma_names_contain(items: Seq<T::V>, name: Seq<char>)
        ensures
            Self::names(items).to_set().contains(name) <==> Self::has_name(items, name),
    {
        let names = Self::names(items);
        if names.contains(name) {
            let i = choose|i: int| 0 <= i < names.len() && names[i] == name;
            assert(T::name_of(items[i]) == name);
        }
        if Self::has_name(items, name) {
            let i = choose|i: int| 0 <= i < items.len() && T::name_of(#[trigger] items[i]) == name;
            assert(names[i] == name);
        }
    }

    /// The invariant of the list: its content is valid.
    pub open spec fn wf(&self) -> bool {
        Self::valid(self@)
    }

    /// A list never holds more records than a `usize` can count.
    pub proof fn lemma_len_fits(&self)
        ensures
            self@.items.len() <= usize::MAX,
    {
        vstd::std_specs::vec::axiom_spec_len(&self.items);
    }

    /// An empty list with nothing selected.
    pub fn new() -> (list: Self)
        ensures
            list.wf(),
            list@ == ListView::<T::V>::empty(),
    {
        let list = ListModel {
            items: Vec::new(),
            selected: None,
            selected_column: None,
            scroll_offset: 0,
        };
        assert(list@.items =~= Seq::empty());
        list
    }

    /// The number of records.
    pub fn len(&self) -> (len: usize)
        ensures
            len == self@.items.len(),
    {
        self.items.len()
    }

    /// Whether the list holds no record.
    pub fn is_empty(&self) -> (empty: bool)
        ensures
            empty == (self@.items.len() == 0),
    {
        self.items.len() == 0
    }

    /// The records, in insertion order.
    pub fn items(&self) -> (items: &Vec<T>)
        ensures
            items@.map_values(|t: T| t@) == self@.items,
    {
        &self.items
    }

    /// The selected row, if any.
    pub fn selected(&self) -> (selected: Option<usize>)
        ensures
            selected == self@.selected,
    {
        self.selected
    }

    /// The column cursor, if it was ever moved.
    pub fn selected_column(&self) -> (column: Option<usize>)
        ensures
            column == self@.column,
    {
        self.selected_column
    }

    /// The scroll offset, which follows the selected row.
    pub fn scroll_offset(&self) -> (offset: usize)
        ensures
            offset == self@.scroll_offset,
    {
        self.scroll_offset
    }

    /// Whether a record named `name` is in the list.
    pub fn contains_name(&self, name: &String) -> (found: bool)
        ensures
            found == Self::has_name(self@.items, name@),
    {
        let mut i: usize = 0;
        while i < self.items.len()
            invariant
                i <= self.items.len(),
                forall|j: int| 0 <= j < i ==> T::name_of(#[trigger] self@.items[j]) != name@,
            decreases self.items.len() - i,
        {
            if *self.items[i].name() == *name {
                assert(T::name_of(self@.items[i as int]) == name@);
                return true;
            }
            i += 1;
        }
        false
    }

    /// Appends `item`, unless a record with its name is already in the list.
    pub fn append(&mut self, item: T)
        requires
            old(self).wf(),
        ensures
            final(self).wf(),
            final(self)@ == Self::appended(old(self)@, item@),
            Self::has_name(final(self)@.items, T::name_of(item@)),
    {
        if !self.contains_name(item.name()) {
            let ghost before = self@;
            self.items.push(item);
            assert(self@.items =~= before.items.push(item@));
            assert(self@.items[before.items.len() as int] == item@);
        }
    }

    /// Moves the selection down one row, wrapping from the last row to the
    /// first; selects the first row when none was selected. Does nothing on
    /// an empty list.
    pub fn next_row(&mut self)
        requires
            old(self).wf(),
        ensures
            final(self).wf(),
            final(self)@ == old(self)@.next_row(),
    {
        let len: usize = self.items.len();
        if len == 0 {
            return ;
        }
        let i: usize = match self.selected {
            Some(i) => if i >= len - 1 {
                0
            } else {
                i + 1
            },
            None => 0,
        };
        proof {
            if let Some(prev) = self.selected {
                if prev >= len - 1 {
                    assert((prev + 1) % (len as int) == 0) by {
                        vstd::arithmetic::div_mod::lemma_mod_self_0(len as int);
                    }
                } else {
                    vstd::arithmetic::div_mod::lemma_small_mod((prev + 1) as nat, len as nat);
                }
            }
        }
        self.select(Some(i));
    }

    /// Moves the selection up one row, wrapping from the first row to the
    /// last; selects the first row when none was selected. Does nothing on an
    /// empty list.
    pub fn previous_row(&mut self)
        requires
            old(self).wf(),
        ensures
            final(self).wf(),
            final(self)@ == old(self)@.previous_row(),
    {
        let len: usize = self.items.len();
        if len == 0 {
            return ;
        }
        let i: usize = match self.selected {
            Some(i) => if i == 0 {
                len - 1
            } else {
                i - 1
            },
            None => 0,
        };
        proof {
            if let Some(prev) = self.selected {
                if prev == 0 {
                    vstd::arithmetic::div_mod::lemma_small_mod((len - 1) as nat, len as nat);
                } else {
                    assert((prev - 1 + len) % (len as int) == prev - 1) by {
                        vstd::arithmetic::div_mod::lemma_mod_add_multiples_vanish(
                            prev - 1,
                            len as int,
                        );
                        vstd::arithmetic::div_mod::lemma_small_mod((prev - 1) as nat, len as nat);
                    }
                }
            }
        }
        self.select(Some(i));
    }

    /// Makes `selected` the selection and brings the scroll offset in line
    /// with it.
    fn select(&mut self, selected: Option<usize>)
        requires
            Self::distinct_names(old(self)@.items),
            selected matches Some(i) ==> i < old(self)@.items.len(),
        ensures
            final(self).wf(),
            final(self)@ == old(self)@.select(selected),
    {
        self.selected = selected;
        self.scroll_offset = match selected {
            Some(i) => i * ITEM_HEIGHT,
            None => 0,
        };
    }

    /// Carries out one movement.
    pub fn handle_arrow(&mut self, movement: Movement)
        requires
            old(self).wf(),
        ensures
            final(self).wf(),
            final(self)@ == old(self)@.moved(movement),
    {
        match movement {
            Movement::Up => self.previous_row(),
            Movement::Down => self.next_row(),
            Movement::Left => self.previous_column(),
            Movement::Right => self.next_column(),
        }
    }

    /// Reacts to a keyboard event while the list's pane is active.
    pub fn handle_key_event(&mut self, key_event: KeyEvent)
        requires
            old(self).wf(),
        ensures
            final(self).wf(),
            final(self)@ == old(self)@.on_key(key_event),
    {
        if key_event.kind != KeyEventKind::Press {
            return ;
        }
        match Movement::from_key(key_event.code) {
            Some(movement) => self.handle_arrow(movement),
            None => {},
        }
    }

    /// Removes every record whose content is that of `item`. The selection
    /// stays on its row index where that row still exists, else moves to the
    /// last row, and is cleared when the list became empty.
    pub fn remove(&mut self, item: &T)
        requires
            old(self).wf(),
        ensures
            final(self).wf(),
            final(self)@ == Self::removed(old(self)@, item@),
    {
        let ghost before = self@.items;
        let ghost keep = |v: T::V| v != item@;
        let ghost mut k: int = 0;
        let mut i: usize = 0;
        assert(before.take(0).filter(keep) + before.skip(0) =~= before);
        while i < self.items.len()
            invariant
                0 <= k <= before.len(),
                self@.items == before.take(k).filter(keep) + before.skip(k),
                i == before.take(k).filter(keep).len(),
                Self::distinct_names(self@.items),
                self.selected == old(self).selected,
                self.selected_column == old(self).selected_column,
                self.scroll_offset == old(self).scroll_offset,
                keep == |v: T::V| v != item@,
            decreases before.len() - k,
        {
            let ghost current = self@.items;
            assert(current[i as int] == before[k]);
            assert(before.take(k + 1).drop_last() =~= before.take(k));
            assert(before.take(k + 1).last() == before[k]);
            reveal_with_fuel(Seq::filter, 2);
            if self.items[i].matches(item) {
                self.items.remove(i);
                assert(self@.items =~= current.remove(i as int));
                assert(self@.items =~= before.take(k + 1).filter(keep) + before.skip(k + 1));
            } else {
                i += 1;
                assert(current =~= before.take(k + 1).filter(keep) + before.skip(k + 1));
            }
            proof {
                k = k + 1;
            }
        }
        assert(before.take(k) =~= before);
        assert(self@.items =~= before.filter(keep));
        let len: usize = self.items.len();
        let selected: Option<usize> = match self.selected {
            Some(s) => if s < len {
                Some(s)
            } else if len > 0 {
                Some(len - 1)
            } else {
                None
            },
            None => None,
        };
        self.select(selected);
    }

    /// Moves the column cursor one column to the right. The row selection
    /// stays as it is.
    pub fn next_column(&mut self)
        requires
            old(self).wf(),
        ensures
            final(self).wf(),
            final(self)@ == old(self)@.next_column(),
    {
        self.selected_column = select_next_column(self.selected_column);
    }

    /// Moves the column cursor one column to the left. The row selection
    /// stays as it is.
    pub fn previous_column(&mut self)
        requires
            old(self).wf(),
        ensures
            final(self).wf(),
            final(self)@ == old(self)@.previous_column(),
    {
        self.selected_column = select_previous_column(self.selected_column);
    }
}

} // verus!
