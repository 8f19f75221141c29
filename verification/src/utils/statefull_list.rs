//! A list with a cursor and a set of picked rows.

use std::collections::HashSet;
use vstd::prelude::*;
use vstd::std_specs::hash::*;

verus! {

broadcast use group_hash_axioms;

/// An ordered list of items, a cursor on one of them and the set of rows that
/// the user has picked. The cursor, when there is one, and every picked row
/// are rows of the list.
pub struct StatefulList<T> {
    items: Vec<T>,
    cursor: Option<usize>,
    picked: HashSet<usize>,
}

/// What a list holds: its rows, the row under the cursor and the picked rows.
pub struct ListView<T> {
    pub rows: Seq<T>,
    pub cursor: Option<usize>,
    pub picked: Set<usize>,
}

impl<T> View for StatefulList<T> {
    type V = ListView<T>;

    closed spec fn view(&self) -> ListView<T> {
        ListView { rows: self.items@, cursor: self.cursor, picked: self.picked@ }
    }
}

/// The row after `row` in a list of `len` rows, the first row after the last.
pub open spec fn row_after(row: usize, len: nat) -> usize {
    if row + 1 >= len {
        0
    } else {
        (row + 1) as usize
    }
}

/// The row before `row` in a list of `len` rows, the last row before the first.
pub open spec fn row_before(row: usize, len: nat) -> usize {
    if row == 0 {
        (len - 1) as usize
    } else {
        (row - 1) as usize
    }
}

impl<T> ListView<T> {
    /// The list with the cursor one row down, on the first row after the last.
    pub open spec fn next(self) -> Self {
        ListView {
            cursor: match self.cursor {
                Some(row) => Some(row_after(row, self.rows.len())),
                None => None,
            },
            ..self
        }
    }

    /// The list with the cursor one row up, on the last row before the first.
    pub open spec fn previous(self) -> Self {
        ListView {
            cursor: match self.cursor {
                Some(row) => Some(row_before(row, self.rows.len())),
                None => None,
            },
            ..self
        }
    }

    /// The list with the row under the cursor picked where it was not, and
    /// not picked where it was; the list itself where there is no cursor.
    pub open spec fn toggled(self) -> Self {
        match self.cursor {
            Some(row) => ListView {
                picked: if self.picked.contains(row) {
                    self.picked.remove(row)
                } else {
                    self.picked.insert(row)
                },
                ..self
            },
            None => self,
        }
    }

    /// The list of other items: the cursor on the first of them if there
    /// is one, nothing picked.
    pub open spec fn filled(items: Seq<T>) -> Self {
        ListView {
            rows: items,
            cursor: if items.len() > 0 {
                Some(0usize)
            } else {
                None
            },
            picked: Set::empty(),
        }
    }

    /// Whether the cursor and the picked rows are rows of the list.
    pub open spec fn in_range(self) -> bool {
        &&& self.cursor matches Some(row) ==> row < self.rows.len()
        &&& forall|row: usize| self.picked.contains(row) ==> row < self.rows.len()
        &&& self.picked.finite()
    }
}

impl<T> Default for StatefulList<T> {
    /// An empty list: no cursor, nothing picked.
    fn default() -> (list: Self)
        ensures
            list@ == ListView::<T>::filled(Seq::empty()),
    {
        StatefulList::new()
    }
}

/// The picked rows below `upto`, in rising order.
pub open spec fn picked_below(picked: Set<usize>, upto: nat) -> Seq<usize>
    decreases upto,
{
    if upto == 0 {
        Seq::empty()
    } else if picked.contains((upto - 1) as usize) {
        picked_below(picked, (upto - 1) as nat).push((upto - 1) as usize)
    } else {
        picked_below(picked, (upto - 1) as nat)
    }
}

/// The picked rows below `upto` are rows below `upto`.
pub proof fn lemma_picked_below_in_range(picked: Set<usize>, upto: nat, i: int)
    requires
        0 <= i < picked_below(picked, upto).len(),
    ensures
        picked_below(picked, upto)[i] < upto,
        picked.contains(picked_below(picked, upto)[i]),
    decreases upto,
{
    if upto > 0 {
        let below = picked_below(picked, (upto - 1) as nat);
        if i < below.len() {
            lemma_picked_below_in_range(picked, (upto - 1) as nat, i);
        }
    }
}

impl<T> StatefulList<T> {
    #[verifier::type_invariant]
    spec fn well_formed(self) -> bool {
        &&& self.cursor matches Some(row) ==> row < self.items@.len()
        &&& forall|row: usize| self.picked@.contains(row) ==> row < self.items@.len()
        &&& self.picked@.finite()
    }

    /// An empty list: no cursor, nothing picked.
    pub fn new() -> (list: Self)
        ensures
            list@ == ListView::<T>::filled(Seq::empty()),
    {
        StatefulList { items: Vec::new(), cursor: None, picked: HashSet::new() }
    }

    /// Replaces the items. The cursor goes to the first row, or away where
    /// there is no row, and nothing stays picked.
    pub fn set_items(&mut self, items: Vec<T>)
        ensures
            final(self)@ == ListView::filled(items@),
    {
        let cursor = if items.len() > 0 {
            Some(0)
        } else {
            None
        };
        *self = StatefulList { items, cursor, picked: HashSet::new() };
    }

    /// Moves the cursor one row down, from the last row to the first.
    pub fn next(&mut self)
        ensures
            final(self)@ == old(self)@.next(),
    {
        proof {
            use_type_invariant(&*self);
        }
        if let Some(row) = self.cursor {
            if row >= self.items.len() - 1 {
                self.cursor = Some(0);
            } else {
                self.cursor = Some(row + 1);
            }
        }
    }

    /// Moves the cursor one row up, from the first row to the last.
    pub fn previous(&mut self)
        ensures
            final(self)@ == old(self)@.previous(),
    {
        proof {
            use_type_invariant(&*self);
        }
        if let Some(row) = self.cursor {
            if row == 0 {
                self.cursor = Some(self.items.len() - 1);
            } else {
                self.cursor = Some(row - 1);
            }
        }
    }

    /// Takes the cursor away.
    pub fn unselect(&mut self)
        ensures
            final(self)@ == (ListView { cursor: None, ..old(self)@ }),
    {
        proof {
            use_type_invariant(&*self);
        }
        self.cursor = None;
    }

    /// Picks the row under the cursor, or lets it go where it was picked.
    /// Without a cursor nothing changes.
    pub fn toggle_at_cursor(&mut self)
        ensures
            final(self)@ == old(self)@.toggled(),
    {
        proof {
            use_type_invariant(&*self);
        }
        if let Some(row) = self.cursor {
            let mut picked = HashSet::new();
            std::mem::swap(&mut self.picked, &mut picked);
            if picked.contains(&row) {
                picked.remove(&row);
            } else {
                picked.insert(row);
            }
            self.picked = picked;
        }
    }

    /// The items, in order.
    pub fn items(&self) -> (items: &Vec<T>)
        ensures
            items@ == self@.rows,
            self@.in_range(),
    {
        proof {
            use_type_invariant(self);
        }
        &self.items
    }

    /// The row under the cursor, if any.
    pub fn selected(&self) -> (cursor: Option<usize>)
        ensures
            cursor == self@.cursor,
            cursor matches Some(row) ==> row < self@.rows.len(),
    {
        proof {
            use_type_invariant(self);
        }
        self.cursor
    }

    /// Whether `row` is picked.
    pub fn is_picked(&self, row: usize) -> (picked: bool)
        ensures
            picked == self@.picked.contains(row),
            picked ==> row < self@.rows.len(),
    {
        proof {
            use_type_invariant(self);
        }
        self.picked.contains(&row)
    }

    /// The picked rows, in rising order.
    pub fn picked_rows(&self) -> (rows: Vec<usize>)
        ensures
            rows@ == picked_below(self@.picked, self@.rows.len()),
            forall|i: int| 0 <= i < rows@.len() ==> (#[trigger] rows@[i]) < self@.rows.len(),
    {
        let mut rows: Vec<usize> = Vec::new();
        let mut row: usize = 0;
        while row < self.items.len()
            invariant
                row <= self.items.len(),
                rows@ == picked_below(self.picked@, row as nat),
                forall|i: int| 0 <= i < rows@.len() ==> (#[trigger] rows@[i]) < row,
            decreases self.items.len() - row,
        {
            if self.picked.contains(&row) {
                rows.push(row);
            }
            row += 1;
        }
        rows
    }
}

} // verus!
