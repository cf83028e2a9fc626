//! A table: headers, rows, and an optional selected row.

use vstd::prelude::*;

verus! {

/// A titled table of text cells.
pub struct Table {
    title: String,
    headers: Vec<String>,
    rows: Vec<Vec<String>>,
    selected_row: Option<usize>,
}

/// The views of a list of strings.
pub open spec fn cells(v: Seq<String>) -> Seq<Seq<char>> {
    v.map_values(|s: String| s@)
}

impl Table {
    /// The title.
    pub closed spec fn title(&self) -> Seq<char> {
        self.title@
    }

    /// The headers.
    pub closed spec fn header_texts(&self) -> Seq<Seq<char>> {
        cells(self.headers@)
    }

    /// The rows.
    pub closed spec fn row_texts(&self) -> Seq<Seq<Seq<char>>> {
        self.rows@.map_values(|r: Vec<String>| cells(r@))
    }

    /// The selected row, if any.
    pub closed spec fn selection(&self) -> Option<usize> {
        self.selected_row
    }

    /// An empty table with nothing selected.
    pub fn new(title: String) -> (r: Self)
        ensures
            r.title() == title@,
            r.header_texts().len() == 0,
            r.row_texts().len() == 0,
            r.selection() is None,
    {
        Table { title, headers: Vec::new(), rows: Vec::new(), selected_row: None }
    }

    /// The table with these headers.
    pub fn headers(self, headers: Vec<String>) -> (r: Self)
        ensures
            r.title() == self.title(),
            r.header_texts() == cells(headers@),
            r.row_texts() == self.row_texts(),
            r.selection() == self.selection(),
    {
        let mut s = self;
        s.headers = headers;
        s
    }

    /// The table with these rows.
    pub fn rows(self, rows: Vec<Vec<String>>) -> (r: Self)
        ensures
            r.title() == self.title(),
            r.header_texts() == self.header_texts(),
            r.row_texts() == rows@.map_values(|row: Vec<String>| cells(row@)),
            r.selection() == self.selection(),
    {
        let mut s = self;
        s.rows = rows;
        s
    }

    /// The table with this selection.
    pub fn selected_row(self, index: Option<usize>) -> (r: Self)
        ensures
            r.title() == self.title(),
            r.header_texts() == self.header_texts(),
            r.row_texts() == self.row_texts(),
            r.selection() == index,
    {
        let mut s = self;
        s.selected_row = index;
        s
    }

    /// The share of the width, in percent, that each column gets: the
    /// columns share 100% equally, rounded down. The table must have a header.
    pub fn column_percentage(&self) -> (r: u16)
        requires
            1 <= self.header_texts().len() <= u16::MAX,
        ensures
            r == 100nat / self.header_texts().len(),
    {
        let n = self.headers.len() as u16;
        100 / n
    }

    /// Whether row `i` is drawn highlighted.
    pub fn is_highlighted(&self, i: usize) -> (r: bool)
        ensures
            r == (self.selection() == Some(i)),
    {
        match self.selected_row {
            Some(s) => s == i,
            None => false,
        }
    }

    /// The title.
    pub fn title_text(&self) -> (r: &str)
        ensures
            r@ == self.title(),
    {
        self.title.as_str()
    }

    /// The headers.
    pub fn header_cells(&self) -> (r: &Vec<String>)
        ensures
            cells(r@) == self.header_texts(),
    {
        &self.headers
    }

    /// The rows.
    pub fn row_cells(&self) -> (r: &Vec<Vec<String>>)
        ensures
            r@.map_values(|row: Vec<String>| cells(row@)) == self.row_texts(),
    {
        &self.rows
    }
}

} // verus!
