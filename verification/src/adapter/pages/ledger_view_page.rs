//! Screen 401, the general ledger of one account: its lines on the left,
//! the account's figures on the right.
//!
//! The amounts, balances and shortened descriptions are written by the
//! ledger's presenter; this page takes them as they are to be shown.

use vstd::prelude::*;
use crate::adapter::components::data_table::{rows_of, texts_of, DataTable, DataTableModel};
use crate::adapter::pages::screen::push_row;
use crate::text::{from_literal, strings};

verus! {

/// One line of the ledger, as shown.
#[derive(Debug, Clone)]
pub struct LedgerLine {
    pub transaction_date: String,
    pub entry_number: String,
    pub description: String,
    pub debit: String,
    pub credit: String,
    pub balance: String,
}

/// The account's figures, as shown.
#[derive(Debug, Clone)]
pub struct LedgerFigures {
    pub account_code: String,
    pub account_name: String,
    pub opening_balance: String,
    pub total_debit: String,
    pub total_credit: String,
    pub closing_balance: String,
}

/// The cells of a ledger line, in the order of the columns.
pub open spec fn line_cells(l: LedgerLine) -> Seq<Seq<char>> {
    seq![l.transaction_date@, l.entry_number@, l.description@, l.debit@, l.credit@, l.balance@]
}

/// The labelled figures of the information panel.
pub open spec fn figure_lines(f: LedgerFigures) -> Seq<(Seq<char>, Seq<char>)> {
    seq![
        ("科目コード"@, f.account_code@),
        ("科目名"@, f.account_name@),
        ("期首残高"@, f.opening_balance@),
        ("当期借方"@, f.total_debit@),
        ("当期貸方"@, f.total_credit@),
        ("期末残高"@, f.closing_balance@),
    ]
}

/// The views of the information panel's lines.
pub open spec fn pairs_of(v: Seq<(String, String)>) -> Seq<(Seq<char>, Seq<char>)> {
    v.map_values(|p: (String, String)| (p.0@, p.1@))
}

/// The abstract state of the page.
pub struct LedgerViewPageModel {
    pub table: DataTableModel,
    pub info: Seq<(Seq<char>, Seq<char>)>,
}

/// The ledger screen.
pub struct LedgerViewPage {
    title: String,
    screen_code: String,
    period: String,
    table: DataTable,
    info: Vec<(String, String)>,
}

impl View for LedgerViewPage {
    type V = LedgerViewPageModel;

    closed spec fn view(&self) -> LedgerViewPageModel {
        LedgerViewPageModel { table: self.table@, info: pairs_of(self.info@) }
    }
}

fn labelled(label: &str, value: String) -> (r: (String, String))
    ensures
        r.0@ == label@,
        r.1@ == value@,
{
    (from_literal(label), value)
}

fn figures_panel(f: LedgerFigures) -> (r: Vec<(String, String)>)
    ensures
        pairs_of(r@) == figure_lines(f),
{
    let mut v: Vec<(String, String)> = Vec::new();
    v.push(labelled("科目コード", f.account_code));
    v.push(labelled("科目名", f.account_name));
    v.push(labelled("期首残高", f.opening_balance));
    v.push(labelled("当期借方", f.total_debit));
    v.push(labelled("当期貸方", f.total_credit));
    v.push(labelled("期末残高", f.closing_balance));
    proof {
        assert(pairs_of(v@) =~= figure_lines(f));
    }
    v
}

fn line_row(l: &LedgerLine) -> (r: Vec<String>)
    ensures
        texts_of(r@) == line_cells(*l),
{
    let mut r: Vec<String> = Vec::new();
    r.push(l.transaction_date.clone());
    r.push(l.entry_number.clone());
    r.push(l.description.clone());
    r.push(l.debit.clone());
    r.push(l.credit.clone());
    r.push(l.balance.clone());
    proof {
        assert(texts_of(r@) =~= line_cells(*l));
    }
    r
}

impl LedgerViewPage {
    /// The figures shown before the ledger arrives: the cash account.
    pub open spec fn opening_figures() -> Seq<(Seq<char>, Seq<char>)> {
        seq![
            ("科目コード"@, "1001"@),
            ("科目名"@, "現金"@),
            ("期首残高"@, "0"@),
            ("当期借方"@, "900,000"@),
            ("当期貸方"@, "1,000,000"@),
            ("期末残高"@, "100,000"@),
        ]
    }

    /// The screen as it opens: the cash account's table with its six
    /// columns and no lines yet (so nothing selected), and the cash
    /// account's figures; titled "総勘定元帳", screen "R-401", December 2024.
    pub fn new() -> (r: Self)
        ensures
            r@.table == (DataTableModel {
                title: "勘定科目: 現金"@,
                headers: seq!["日付"@, "証憑No"@, "摘要"@, "借方"@, "貸方"@, "残高"@],
                column_widths: seq![12u16, 10u16, 30u16, 15u16, 15u16, 15u16],
                rows: Seq::empty(),
                selected: None,
            }),
            r@.info == Self::opening_figures(),
            r.title()@ == "総勘定元帳"@,
            r.screen_code()@ == "R-401"@,
            r.period()@ == "2024年12月"@,
    {
        let headers = strings(&["日付", "証憑No", "摘要", "借方", "貸方", "残高"]);
        let mut table = DataTable::new(from_literal("勘定科目: 現金"), headers).with_column_widths(
            vec![12, 10, 30, 15, 15, 15],
        );
        table.select_next();
        let mut info: Vec<(String, String)> = Vec::new();
        info.push(labelled("科目コード", from_literal("1001")));
        info.push(labelled("科目名", from_literal("現金")));
        info.push(labelled("期首残高", from_literal("0")));
        info.push(labelled("当期借方", from_literal("900,000")));
        info.push(labelled("当期貸方", from_literal("1,000,000")));
        info.push(labelled("期末残高", from_literal("100,000")));
        let r = LedgerViewPage {
            title: from_literal("総勘定元帳"),
            screen_code: from_literal("R-401"),
            period: from_literal("2024年12月"),
            table,
            info,
        };
        proof {
            assert(r@.table.rows =~= Seq::<Seq<Seq<char>>>::empty());
            assert(r@.table.headers =~= seq!["日付"@, "証憑No"@, "摘要"@, "借方"@, "貸方"@, "残高"@]);
            assert(r@.table.column_widths =~= seq![12u16, 10u16, 30u16, 15u16, 15u16, 15u16]);
            assert(r@.info =~= Self::opening_figures());
        }
        r
    }

    /// The screen's title.
    pub closed spec fn title(&self) -> String {
        self.title
    }

    /// The screen's code.
    pub closed spec fn screen_code(&self) -> String {
        self.screen_code
    }

    /// The period shown.
    pub closed spec fn period(&self) -> String {
        self.period
    }

    /// The screen's title.
    pub fn title_text(&self) -> (r: &str)
        ensures
            r@ == self.title()@,
    {
        self.title.as_str()
    }

    /// The screen's code.
    pub fn screen_code_text(&self) -> (r: &str)
        ensures
            r@ == self.screen_code()@,
    {
        self.screen_code.as_str()
    }

    /// The period shown.
    pub fn period_text(&self) -> (r: &str)
        ensures
            r@ == self.period()@,
    {
        self.period.as_str()
    }

    /// Shows a ledger that arrived: its lines, the first selected, and the
    /// account's figures in place of the earlier ones.
    pub fn update(&mut self, lines: Vec<LedgerLine>, figures: LedgerFigures)
        ensures
            final(self)@.table == old(self)@.table.with_rows(lines@.map_values(|l: LedgerLine| line_cells(l))),
            final(self)@.info == figure_lines(figures),
            final(self)@.table.wf(),
            final(self).title() == old(self).title(),
            final(self).screen_code() == old(self).screen_code(),
            final(self).period() == old(self).period(),
    {
        let mut rows: Vec<Vec<String>> = Vec::new();
        let mut i: usize = 0;
        while i < lines.len()
            invariant
                i <= lines.len(),
                rows_of(rows@) == lines@.subrange(0, i as int).map_values(|l: LedgerLine| line_cells(l)),
            decreases lines.len() - i,
        {
            let row = line_row(&lines[i]);
            let ghost before = rows@;
            push_row(&mut rows, row);
            proof {
                assert(lines@.subrange(0, i + 1).map_values(|l: LedgerLine| line_cells(l)) =~= lines@.subrange(
                    0,
                    i as int,
                ).map_values(|l: LedgerLine| line_cells(l)).push(line_cells(lines@[i as int])));
            }
            i = i + 1;
        }
        proof {
            assert(lines@.subrange(0, lines.len() as int) =~= lines@);
        }
        self.table.set_data(rows);
        self.info = figures_panel(figures);
    }

    /// Moves the selection down one line.
    pub fn select_next(&mut self)
        requires
            old(self)@.table.wf(),
        ensures
            final(self)@.table.wf(),
            final(self)@ == (LedgerViewPageModel { table: old(self)@.table.next(), ..old(self)@ }),
            final(self).title() == old(self).title(),
    {
        self.table.select_next();
    }

    /// Moves the selection up one line.
    pub fn select_previous(&mut self)
        requires
            old(self)@.table.wf(),
        ensures
            final(self)@.table.wf(),
            final(self)@ == (LedgerViewPageModel { table: old(self)@.table.previous(), ..old(self)@ }),
            final(self).title() == old(self).title(),
    {
        self.table.select_previous();
    }

    /// The table.
    pub fn table(&self) -> (r: &DataTable)
        ensures
            r@ == self@.table,
    {
        &self.table
    }

    /// The information panel's lines.
    pub fn info(&self) -> (r: &Vec<(String, String)>)
        ensures
            pairs_of(r@) == self@.info,
    {
        &self.info
    }
}

} // verus!
