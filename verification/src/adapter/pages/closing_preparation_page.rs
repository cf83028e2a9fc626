//! Screen 301, closing preparation: confirming that transactions belong to
//! the period and booking provisional entries.

use vstd::prelude::*;
use crate::adapter::components::loading_spinner::SPINNER_FRAMES;
use crate::adapter::components::data_table::DataTable;
use crate::adapter::components::event_log::{EventLog, LogLevel};
use crate::adapter::pages::screen::{opened_screen, Screen, ScreenModel, ANIMATION_FRAMES};
use crate::text::{from_literal, strings};
use crate::adapter::components::data_table::{rows_of, texts_of};
use crate::adapter::pages::screen::{push_row, row5};
use crate::application::dtos::{BankReconciliationDifferenceDto, PrepareClosingResponse};
use crate::text::{decimal, format_i64, format_u64, join2, join3, push_text, signed_decimal};

verus! {

/// The message logged when data arrives.
pub open spec fn loaded_message(count: nat) -> Seq<char> {
    "データ読込完了: "@ + decimal(count) + " 件"@
}

/// The row for unregistered transactions.
pub open spec fn first_row(r: PrepareClosingResponse) -> Seq<Seq<char>> {
    seq![
        "未登録取引"@,
        if r.unregistered_transactions_count == 0 { "確認済"@ } else { "要確認"@ },
        "2024-12"@,
        "-"@,
        decimal(r.unregistered_transactions_count as nat) + " 件の未登録取引"@,
    ]
}

/// The row for a bank reconciliation: settled when there is no difference.
pub open spec fn bank_row(d: BankReconciliationDifferenceDto) -> Seq<Seq<char>> {
    seq![
        "銀行照合: "@ + d.bank_account@,
        if d.difference == 0 { "確認済"@ } else { "差異あり"@ },
        "2024-12"@,
        signed_decimal(d.difference as int),
        "帳簿: "@ + signed_decimal(d.cash_log_balance as int) + " / 銀行: "@ + signed_decimal(
            d.bank_balance as int,
        ),
    ]
}

/// The row for booked accruals, when any were booked.
pub open spec fn accrual_rows(r: PrepareClosingResponse) -> Seq<Seq<Seq<char>>> {
    if r.accrual_entries_created > 0 {
        seq![seq![
            "発生仕訳作成"@,
            "完了"@,
            "2024-12"@,
            "-"@,
            decimal(r.accrual_entries_created as nat) + " 件の仕訳を作成"@,
        ]]
    } else {
        Seq::empty()
    }
}

/// The row for the provisional financial statements.
pub open spec fn statements_row(r: PrepareClosingResponse) -> Seq<Seq<char>> {
    seq![
        "暫定財務諸表"@,
        if r.provisional_financial_statements_generated { "生成済"@ } else { "未生成"@ },
        "2024-12"@,
        "-"@,
        "暫定財務諸表の生成状況"@,
    ]
}

/// The rows that show a closing preparation result.
pub open spec fn preparation_rows(r: PrepareClosingResponse) -> Seq<Seq<Seq<char>>> {
    seq![first_row(r)]
        + r.bank_reconciliation_differences@.map_values(|d: BankReconciliationDifferenceDto| bank_row(d))
        + accrual_rows(r)
        + seq![statements_row(r)]
}

/// The screen.
pub struct ClosingPreparationPage {
    screen: Screen,
}

impl View for ClosingPreparationPage {
    type V = ScreenModel;

    closed spec fn view(&self) -> ScreenModel {
        self.screen@
    }
}

impl ClosingPreparationPage {
    /// The screen's invariant.
    pub closed spec fn wf(&self) -> bool {
        self.screen.wf()
    }

    /// A well-formed page's table is well formed and both animations are
    /// within their frames.
    pub proof fn frames_in_range(&self)
        requires
            self.wf(),
        ensures
            self@.table.wf(),
            self@.animation_frame < ANIMATION_FRAMES,
            self@.spinner < SPINNER_FRAMES,
    {
        self.screen.frames_in_range();
    }

    /// The screen as it opens.
    pub open spec fn opened() -> ScreenModel {
        opened_screen(
            "◆ 締準備 - 期間帰属確認 ◆"@,
            seq!["項目"@, "確認状態"@, "期間"@, "金額"@, "備考"@],
            seq![20u16, 12u16, 15u16, 15u16, 30u16],
            seq![(LogLevel::Info, "締準備画面を開きました"@), (LogLevel::Info, "データを読み込んでいます..."@)],
        )
    }

    /// The screen as it opens: an empty table, two messages in the log,
    /// waiting for its data.
    pub fn new() -> (r: Self)
        ensures
            r.wf(),
            r@ == Self::opened(),
    {
        let headers = strings(&["項目", "確認状態", "期間", "金額", "備考"]);
        let table = DataTable::new(from_literal("◆ 締準備 - 期間帰属確認 ◆"), headers)
            .with_column_widths(vec![20, 12, 15, 15, 30]);
        let mut log = EventLog::new();
        log.add_info(from_literal("締準備画面を開きました"));
        log.add_info(from_literal("データを読み込んでいます..."));
        proof {
            assert(log@ =~= seq![(LogLevel::Info, "締準備画面を開きました"@), (LogLevel::Info, "データを読み込んでいます..."@)]);
        }
        let r = ClosingPreparationPage { screen: Screen::new(table, log) };
        proof {
            let o = Self::opened();
            assert(r@.table.rows =~= o.table.rows);
            assert(r@.table.headers =~= o.table.headers);
            assert(r@.table.column_widths =~= o.table.column_widths);
            assert(r@.log =~= o.log);
            assert(r@.table == o.table);
        }
        r
    }

    /// Records an error: loading ends with it, and it is logged.
    pub fn set_error(&mut self, error: String)
        requires
            old(self).wf(),
        ensures
            final(self).wf(),
            final(self)@ == old(self)@.failed(error@),
    {
        self.screen.set_error(error);
    }

    /// Whether the data is still awaited.
    pub fn is_loading(&self) -> (r: bool)
        ensures
            r == (self@.status is Loading),
    {
        self.screen.is_loading()
    }

    /// Moves the animations on by one frame.
    pub fn tick(&mut self)
        requires
            old(self).wf(),
        ensures
            final(self).wf(),
            final(self)@ == old(self)@.ticked(),
    {
        self.screen.tick();
    }

    /// Logs an informational message.
    pub fn add_info(&mut self, message: String)
        requires
            old(self).wf(),
        ensures
            final(self).wf(),
            final(self)@ == old(self)@.logged(LogLevel::Info, message@),
    {
        self.screen.add_info(message);
    }

    /// Logs an error message.
    pub fn add_error(&mut self, message: String)
        requires
            old(self).wf(),
        ensures
            final(self).wf(),
            final(self)@ == old(self)@.logged(LogLevel::Error, message@),
    {
        self.screen.add_error(message);
    }

    /// Moves the selection down one row.
    pub fn select_next(&mut self)
        requires
            old(self).wf(),
        ensures
            final(self).wf(),
            final(self)@ == (ScreenModel { table: old(self)@.table.next(), ..old(self)@ }),
    {
        self.screen.select_next();
    }

    /// Moves the selection up one row.
    pub fn select_previous(&mut self)
        requires
            old(self).wf(),
        ensures
            final(self).wf(),
            final(self)@ == (ScreenModel { table: old(self)@.table.previous(), ..old(self)@ }),
    {
        self.screen.select_previous();
    }

    /// The state the screen shows.
    pub fn screen(&self) -> (r: &Screen)
        ensures
            r@ == self@,
    {
        &self.screen
    }

    /// The cursor blinking at the end of the status bar.
    pub fn status_cursor(&self) -> (r: &'static str)
        ensures
            r@ == self@.cursor(),
    {
        self.screen.cursor()
    }

    /// Shows the rows that arrived, ends loading, and logs how many there are.
    pub fn set_data(&mut self, data: Vec<Vec<String>>)
        requires
            old(self).wf(),
        ensures
            final(self).wf(),
            final(self)@ == old(self)@.loaded_with(rows_of(data@)).logged(
                LogLevel::Info,
                loaded_message(data@.len()),
            ),
    {
        let count = data.len();
        self.screen.set_rows(data);
        let digits = format_u64(count as u64);
        let message = join3("データ読込完了: ", digits.as_str(), " 件");
        self.screen.add_info(message);
    }

    /// Shows the result of closing preparation: one row for unregistered
    /// transactions, one for each bank reconciliation, one for the accruals
    /// booked (when there are any), and one for the provisional statements.
    pub fn set_response(&mut self, response: PrepareClosingResponse)
        requires
            old(self).wf(),
        ensures
            final(self).wf(),
            final(self)@ == old(self)@.loaded_with(preparation_rows(response)).logged(
                LogLevel::Info,
                loaded_message(preparation_rows(response).len()),
            ),
    {
        let mut data: Vec<Vec<String>> = Vec::new();
        let unregistered = response.unregistered_transactions_count;
        let count_text = format_u64(unregistered as u64);
        push_row(&mut data, row5(
            from_literal("未登録取引"),
            from_literal(if unregistered == 0 { "確認済" } else { "要確認" }),
            from_literal("2024-12"),
            from_literal("-"),
            join2(count_text.as_str(), " 件の未登録取引"),
        ));
        proof {
            assert(rows_of(data@) =~= seq![first_row(response)]);
        }
        let diffs = &response.bank_reconciliation_differences;
        let mut i: usize = 0;
        while i < diffs.len()
            invariant
                i <= diffs@.len(),
                diffs@ == response.bank_reconciliation_differences@,
                rows_of(data@) == seq![first_row(response)] + diffs@.subrange(0, i as int).map_values(
                    |d: BankReconciliationDifferenceDto| bank_row(d),
                ),
            decreases diffs@.len() - i,
        {
            let d = &diffs[i];
            let difference = format_i64(d.difference);
            let book = format_i64(d.cash_log_balance);
            let bank = format_i64(d.bank_balance);
            let mut note = join2("帳簿: ", book.as_str());
            push_text(&mut note, " / 銀行: ");
            push_text(&mut note, bank.as_str());
            let row = row5(
                join2("銀行照合: ", d.bank_account.as_str()),
                from_literal(if d.difference == 0 { "確認済" } else { "差異あり" }),
                from_literal("2024-12"),
                difference,
                note,
            );
            proof {
                assert(texts_of(row@) == bank_row(*d));
            }
            push_row(&mut data, row);
            proof {
                assert(diffs@.subrange(0, i + 1).map_values(|d: BankReconciliationDifferenceDto| bank_row(d))
                    =~= diffs@.subrange(0, i as int).map_values(|d: BankReconciliationDifferenceDto| bank_row(d)).push(
                    bank_row(diffs@[i as int])));
            }
            i = i + 1;
        }
        proof {
            assert(diffs@.subrange(0, diffs@.len() as int) =~= diffs@);
        }
        let ghost middle = rows_of(data@);
        if response.accrual_entries_created > 0 {
            let n = format_u64(response.accrual_entries_created as u64);
            push_row(&mut data, row5(
                from_literal("発生仕訳作成"),
                from_literal("完了"),
                from_literal("2024-12"),
                from_literal("-"),
                join2(n.as_str(), " 件の仕訳を作成"),
            ));
        }
        let ghost with_accruals = rows_of(data@);
        push_row(&mut data, row5(
            from_literal("暫定財務諸表"),
            from_literal(if response.provisional_financial_statements_generated { "生成済" } else { "未生成" }),
            from_literal("2024-12"),
            from_literal("-"),
            from_literal("暫定財務諸表の生成状況"),
        ));
        proof {
            assert(with_accruals =~= middle + accrual_rows(response));
            assert(rows_of(data@) =~= preparation_rows(response));
        }
        self.set_data(data);
    }
}

impl Default for ClosingPreparationPage {
    fn default() -> (r: Self)
        ensures
            r.wf(),
            r@ == ClosingPreparationPage::opened(),
    {
        ClosingPreparationPage::new()
    }
}

/// A call on the closing preparation page that changes it, with what it
/// is given: `set_data`'s rows, `set_response`'s response, `set_error`'s
/// error, and the messages of `add_info` and `add_error`.
pub enum PreparationCall {
    Tick,
    AddInfo(Seq<char>),
    AddError(Seq<char>),
    SelectNext,
    SelectPrevious,
    SetData(Seq<Seq<Seq<char>>>),
    SetResponse(PrepareClosingResponse),
    SetError(Seq<char>),
}

/// Whether the call hands the page its data or the error in its place.
pub open spec fn delivers(c: PreparationCall) -> bool {
    c is SetData || c is SetResponse || c is SetError
}

/// The page after one call, as each method's contract gives it.
pub open spec fn after_call(m: ScreenModel, c: PreparationCall) -> ScreenModel {
    match c {
        PreparationCall::Tick => m.ticked(),
        PreparationCall::AddInfo(t) => m.logged(LogLevel::Info, t),
        PreparationCall::AddError(t) => m.logged(LogLevel::Error, t),
        PreparationCall::SelectNext => ScreenModel { table: m.table.next(), ..m },
        PreparationCall::SelectPrevious => ScreenModel { table: m.table.previous(), ..m },
        PreparationCall::SetData(rows) => m.loaded_with(rows).logged(LogLevel::Info, loaded_message(rows.len())),
        PreparationCall::SetResponse(r) => m.loaded_with(preparation_rows(r)).logged(
            LogLevel::Info,
            loaded_message(preparation_rows(r).len()),
        ),
        PreparationCall::SetError(e) => m.failed(e),
    }
}

/// The page after a sequence of calls, in order.
pub open spec fn after_calls(m: ScreenModel, cs: Seq<PreparationCall>) -> ScreenModel
    decreases cs.len(),
{
    if cs.len() == 0 {
        m
    } else {
        after_call(after_calls(m, cs.drop_last()), cs.last())
    }
}

/// The page is loading after a sequence of calls from its opening exactly
/// when none of them delivered data, a response or an error; once loading
/// has ended, no call starts it again. (`is_loading` reads the state and
/// changes nothing.)
pub proof fn law_loading_until_delivered(cs: Seq<PreparationCall>, c: PreparationCall, m: ScreenModel)
    ensures
        (after_calls(ClosingPreparationPage::opened(), cs).status is Loading) <==> (forall|i: int|
            0 <= i < cs.len() ==> !delivers(#[trigger] cs[i])),
        !(m.status is Loading) ==> !(after_call(m, c).status is Loading),
    decreases cs.len(),
{
    if cs.len() > 0 {
        law_loading_until_delivered(cs.drop_last(), c, m);
        let before = after_calls(ClosingPreparationPage::opened(), cs.drop_last());
        if before.status is Loading {
            assert forall|i: int| 0 <= i < cs.len() - 1 implies !delivers(#[trigger] cs[i]) by {
                assert(cs[i] == cs.drop_last()[i]);
            }
        } else {
            let j = choose|j: int| 0 <= j < cs.len() - 1 && delivers(#[trigger] cs.drop_last()[j]);
            assert(cs[j] == cs.drop_last()[j]);
        }
        assert(cs[cs.len() - 1] == cs.last());
        if !delivers(cs.last()) && before.status is Loading {
            assert forall|i: int| 0 <= i < cs.len() implies !delivers(#[trigger] cs[i]) by {
                if i < cs.len() - 1 {
                    assert(cs[i] == cs.drop_last()[i]);
                }
            }
        }
    }
}

/// A bank reconciliation is shown as settled exactly when book and bank
/// agree: the status depends only on the size of the difference, so a
/// difference of -d and one of +d are shown alike, and any non-zero
/// difference is shown as a difference.
pub proof fn law_bank_status_follows_difference(a: BankReconciliationDifferenceDto, b: BankReconciliationDifferenceDto)
    ensures
        a.difference == -b.difference ==> bank_row(a)[1] == bank_row(b)[1],
        a.difference != 0 ==> bank_row(a)[1] == "差異あり"@,
        a.difference == 0 ==> bank_row(a)[1] == "確認済"@,
        (bank_row(a)[1] == "確認済"@) <==> a.difference == 0,
{
    reveal_strlit("確認済");
    reveal_strlit("差異あり");
    assert("確認済"@.len() != "差異あり"@.len());
}

} // verus!
