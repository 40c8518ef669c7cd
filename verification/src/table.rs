//! The table of rows and its selected row.
//!
//! The table owns the ordered rows shown to the operator and an
//! optional selected index. After every operation the selection is
//! valid: it names an existing row whenever the table has rows, and is
//! empty exactly when the table is empty. Replacing the rows repairs
//! the selection so that, after a deletion shrinks the table by one,
//! the cursor lands on a sensible neighbouring row instead of jumping
//! to the top or out of range.

use vstd::prelude::*;

verus! {

use crate::images::ImageTableRow;

/// The failure of an attempt to select a row that does not exist.
#[derive(Copy, Clone, Debug, PartialEq, Eq, Structural)]
pub enum SelectError {
    OutOfRange,
}

/// The selection that `load` computes for a table of `new_len` rows
/// when the caller prefers `preferred`: the preferred index when it
/// still exists; the row above it when the preferred row was the last
/// one and is now gone; else the first row; empty when there are no
/// rows.
pub open spec fn repaired_selection(new_len: nat, preferred: Option<usize>) -> Option<usize> {
    match preferred {
        Some(p) => if (p as nat) < new_len {
            Some(p)
        } else if p as nat == new_len && new_len > 0 {
            Some((p - 1) as usize)
        } else if new_len > 0 {
            Some(0)
        } else {
            None
        },
        None => if new_len > 0 {
            Some(0usize)
        } else {
            None
        },
    }
}

/// Loading an empty table leaves the selection empty, whatever
/// selection the caller preferred.
pub proof fn lemma_empty_load_selects_nothing(preferred: Option<usize>)
    ensures
        repaired_selection(0, preferred) is None,
{
}

/// The table of image rows with its selected row.
pub struct TableState {
    rows: Vec<ImageTableRow>,
    selected: Option<usize>,
}

impl TableState {
    /// The rows, in display order.
    pub closed spec fn spec_rows(&self) -> Seq<ImageTableRow> {
        self.rows@
    }

    /// The selected index, if any.
    pub closed spec fn spec_selected(&self) -> Option<usize> {
        self.selected
    }

    /// Selection validity: a row is selected exactly when the table is
    /// not empty, and the selected index names an existing row.
    pub open spec fn wf(&self) -> bool {
        match self.spec_selected() {
            Some(i) => (i as nat) < self.spec_rows().len(),
            None => self.spec_rows().len() == 0,
        }
    }

    /// An empty table with no selection.
    pub fn new() -> (t: TableState)
        ensures
            t.spec_rows() =~= Seq::<ImageTableRow>::empty(),
            t.spec_selected() is None,
            t.wf(),
    {
        TableState { rows: Vec::new(), selected: None }
    }

    /// The number of rows.
    pub fn row_count(&self) -> (n: usize)
        ensures
            n == self.spec_rows().len(),
    {
        self.rows.len()
    }

    /// The selected index, if any.
    pub fn selected(&self) -> (r: Option<usize>)
        ensures
            r == self.spec_selected(),
    {
        self.selected
    }

    /// Replaces all rows at once and repairs the selection.
    pub fn load(&mut self, rows: Vec<ImageTableRow>, preferred_selection: Option<usize>)
        ensures
            final(self).spec_rows() == rows@,
            final(self).spec_selected() == repaired_selection(rows@.len(), preferred_selection),
            final(self).wf(),
    {
        let n = rows.len();
        self.rows = rows;
        self.selected = match preferred_selection {
            Some(p) => if p < n {
                Some(p)
            } else if p == n && n > 0 {
                Some(p - 1)
            } else if n > 0 {
                Some(0)
            } else {
                None
            },
            None => if n > 0 {
                Some(0)
            } else {
                None
            },
        };
    }

    /// Moves the selection to `index`; fails, leaving the table
    /// untouched, when no such row exists.
    pub fn select(&mut self, index: usize) -> (r: Result<(), SelectError>)
        requires
            old(self).wf(),
        ensures
            final(self).spec_rows() == old(self).spec_rows(),
            index < old(self).spec_rows().len() ==> r is Ok && final(self).spec_selected()
                == Some(index),
            index >= old(self).spec_rows().len() ==> r == Result::<(), SelectError>::Err(
                SelectError::OutOfRange,
            ) && *final(self) == *old(self),
            final(self).wf(),
    {
        if index < self.rows.len() {
            self.selected = Some(index);
            Ok(())
        } else {
            Err(SelectError::OutOfRange)
        }
    }

    /// The row at `index`.
    pub fn row(&self, index: usize) -> (r: &ImageTableRow)
        requires
            index < self.spec_rows().len(),
        ensures
            *r == self.spec_rows()[index as int],
    {
        &self.rows[index]
    }

    /// The selected row, if any; empty exactly when the table is empty.
    pub fn current_row(&self) -> (r: Option<&ImageTableRow>)
        requires
            self.wf(),
        ensures
            match self.spec_selected() {
                Some(i) => r is Some && *r->0 == self.spec_rows()[i as int],
                None => r is None,
            },
    {
        match self.selected {
            Some(i) => Some(&self.rows[i]),
            None => None,
        }
    }
}

} // verus!
