//! A data table with a movable row selection.

use vstd::prelude::*;

verus! {

/// A table of text rows under fixed headers. The selection, when there is
/// one, is always a row of the table.
pub struct DataTable {
    title: String,
    headers: Vec<String>,
    column_widths: Vec<u16>,
    rows: Vec<Vec<String>>,
    selected: Option<usize>,
}

/// The abstract state of a data table.
pub struct DataTableModel {
    pub title: Seq<char>,
    pub headers: Seq<Seq<char>>,
    pub column_widths: Seq<u16>,
    pub rows: Seq<Seq<Seq<char>>>,
    pub selected: Option<usize>,
}

/// The views of a list of strings.
pub open spec fn texts_of(v: Seq<String>) -> Seq<Seq<char>> {
    v.map_values(|s: String| s@)
}

/// The views of a list of rows.
pub open spec fn rows_of(v: Seq<Vec<String>>) -> Seq<Seq<Seq<char>>> {
    v.map_values(|r: Vec<String>| texts_of(r@))
}

impl DataTableModel {
    /// The selection is a row of the table.
    pub open spec fn wf(self) -> bool {
        &&& self.rows.len() <= usize::MAX
        &&& self.selected matches Some(i) ==> i < self.rows.len()
    }

    /// After `select_next`: the first row when nothing was selected, else the
    /// row below, stopping at the last row.
    pub open spec fn next(self) -> DataTableModel {
        if self.rows.len() == 0 {
            self
        } else {
            match self.selected {
                None => DataTableModel { selected: Some(0), ..self },
                Some(i) => if i + 1 < self.rows.len() {
                    DataTableModel { selected: Some((i + 1) as usize), ..self }
                } else {
                    self
                },
            }
        }
    }

    /// After `select_previous`: the row above, stopping at the first row.
    pub open spec fn previous(self) -> DataTableModel {
        match self.selected {
            Some(i) => if i > 0 {
                DataTableModel { selected: Some((i - 1) as usize), ..self }
            } else {
                self
            },
            None => self,
        }
    }

    /// After `set_data`: the new rows, with the first row selected (or
    /// nothing, when there are no rows).
    pub open spec fn with_rows(self, rows: Seq<Seq<Seq<char>>>) -> DataTableModel {
        DataTableModel {
            rows: rows,
            selected: if rows.len() > 0 { Some(0) } else { None },
            ..self
        }
    }
}

impl View for DataTable {
    type V = DataTableModel;

    closed spec fn view(&self) -> DataTableModel {
        DataTableModel {
            title: self.title@,
            headers: texts_of(self.headers@),
            column_widths: self.column_widths@,
            rows: rows_of(self.rows@),
            selected: self.selected,
        }
    }
}

impl DataTable {
    /// An empty table.
    pub fn new(title: String, headers: Vec<String>) -> (r: Self)
        ensures
            r@.title == title@,
            r@.headers == texts_of(headers@),
            r@.column_widths.len() == 0,
            r@.rows.len() == 0,
            r@.selected is None,
            r@.wf(),
    {
        DataTable { title, headers, column_widths: Vec::new(), rows: Vec::new(), selected: None }
    }

    /// The table with these column widths.
    pub fn with_column_widths(self, widths: Vec<u16>) -> (r: Self)
        ensures
            r@ == (DataTableModel { column_widths: widths@, ..self@ }),
    {
        let mut s = self;
        s.column_widths = widths;
        s
    }

    /// Replaces the rows; the first row is selected.
    pub fn set_data(&mut self, rows: Vec<Vec<String>>)
        ensures
            final(self)@ == old(self)@.with_rows(rows_of(rows@)),
            final(self)@.wf(),
    {
        self.selected = if rows.len() > 0 { Some(0) } else { None };
        self.rows = rows;
    }

    /// Moves the selection down one row.
    pub fn select_next(&mut self)
        requires
            old(self)@.wf(),
        ensures
            final(self)@ == old(self)@.next(),
            final(self)@.wf(),
    {
        if self.rows.len() == 0 {
            return;
        }
        match self.selected {
            None => {
                self.selected = Some(0);
            },
            Some(i) => {
                if i + 1 < self.rows.len() {
                    self.selected = Some(i + 1);
                }
            },
        }
    }

    /// Moves the selection up one row.
    pub fn select_previous(&mut self)
        requires
            old(self)@.wf(),
        ensures
            final(self)@ == old(self)@.previous(),
            final(self)@.wf(),
    {
        match self.selected {
            Some(i) => {
                if i > 0 {
                    self.selected = Some(i - 1);
                }
            },
            None => {},
        }
    }

    /// The selected row, if any.
    pub fn selected(&self) -> (r: Option<usize>)
        ensures
            r == self@.selected,
    {
        self.selected
    }

    /// The number of rows.
    pub fn row_count(&self) -> (r: usize)
        ensures
            r == self@.rows.len(),
    {
        self.rows.len()
    }

    /// The title.
    pub fn title_text(&self) -> (r: &str)
        ensures
            r@ == self@.title,
    {
        self.title.as_str()
    }

    /// The headers.
    pub fn headers(&self) -> (r: &Vec<String>)
        ensures
            texts_of(r@) == self@.headers,
    {
        &self.headers
    }

    /// The rows.
    pub fn rows(&self) -> (r: &Vec<Vec<String>>)
        ensures
            rows_of(r@) == self@.rows,
    {
        &self.rows
    }

    /// The column widths.
    pub fn column_widths(&self) -> (r: &Vec<u16>)
        ensures
            r@ == self@.column_widths,
    {
        &self.column_widths
    }
}

/// Moving down then up returns to the row selected before, unless the
/// selection was on the last row (or there was none).
pub proof fn law_next_then_previous(t: DataTableModel)
    requires
        t.wf(),
        t.selected matches Some(i) && i + 1 < t.rows.len(),
    ensures
        t.next().previous() == t,
{
}

/// Every move keeps the selection on a row of the table.
pub proof fn law_moves_keep_selection_in_table(t: DataTableModel, rows: Seq<Seq<Seq<char>>>)
    requires
        t.wf(),
    ensures
        t.next().wf(),
        t.previous().wf(),
        rows.len() <= usize::MAX ==> t.with_rows(rows).wf(),
{
}

} // verus!
