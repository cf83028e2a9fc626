//! Screen 307, financial statements: the statutory disclosure documents.

use vstd::prelude::*;
use crate::adapter::components::loading_spinner::SPINNER_FRAMES;
use crate::adapter::components::data_table::DataTable;
use crate::adapter::components::event_log::{EventLog, LogLevel};
use crate::adapter::pages::screen::{opened_screen, Screen, ScreenModel, ANIMATION_FRAMES};
use crate::text::{from_literal, strings};
use crate::adapter::components::data_table::rows_of;
use crate::adapter::pages::screen::{push_row, row3};
use crate::application::dtos::{FinancialIndicatorsDto, GenerateFinancialStatementsResponse};
use crate::text::{amount_text, fixed2, format_amount, format_fixed2, join2, push_text};

verus! {

/// The rows that show the financial statements.
pub open spec fn statement_rows(r: GenerateFinancialStatementsResponse) -> Seq<Seq<Seq<char>>> {
    seq![
        seq!["財政状態計算書"@, "流動資産"@, amount_text(r.statement_of_financial_position.current_assets as int, r.statement_of_financial_position.current_assets_currency@)],
        seq!["財政状態計算書"@, "非流動資産"@, amount_text(r.statement_of_financial_position.non_current_assets as int, r.statement_of_financial_position.non_current_assets_currency@)],
        seq!["財政状態計算書"@, "流動負債"@, amount_text(r.statement_of_financial_position.current_liabilities as int, r.statement_of_financial_position.current_liabilities_currency@)],
        seq!["財政状態計算書"@, "非流動負債"@, amount_text(r.statement_of_financial_position.non_current_liabilities as int, r.statement_of_financial_position.non_current_liabilities_currency@)],
        seq!["財政状態計算書"@, "純資産"@, amount_text(r.statement_of_financial_position.equity as int, r.statement_of_financial_position.equity_currency@)],
        seq!["損益計算書"@, "売上高"@, amount_text(r.statement_of_profit_or_loss.revenue as int, r.statement_of_profit_or_loss.revenue_currency@)],
        seq!["損益計算書"@, "売上原価"@, amount_text(r.statement_of_profit_or_loss.cost_of_sales as int, r.statement_of_profit_or_loss.cost_of_sales_currency@)],
        seq!["損益計算書"@, "営業利益"@, amount_text(r.statement_of_profit_or_loss.operating_profit as int, r.statement_of_profit_or_loss.operating_profit_currency@)],
        seq!["損益計算書"@, "当期純利益"@, amount_text(r.statement_of_profit_or_loss.net_profit as int, r.statement_of_profit_or_loss.net_profit_currency@)],
        seq!["CF計算書"@, "営業活動CF"@, amount_text(r.statement_of_cash_flows.operating_activities as int, r.statement_of_cash_flows.operating_activities_currency@)],
        seq!["CF計算書"@, "投資活動CF"@, amount_text(r.statement_of_cash_flows.investing_activities as int, r.statement_of_cash_flows.investing_activities_currency@)],
        seq!["CF計算書"@, "財務活動CF"@, amount_text(r.statement_of_cash_flows.financing_activities as int, r.statement_of_cash_flows.financing_activities_currency@)],
    ]
}

/// The message that reports the cross-check.
pub open spec fn cross_check_message(passed: bool) -> Seq<char> {
    "財務諸表生成完了: クロスチェック "@ + if passed { "合格"@ } else { "不合格"@ }
}

/// The message that reports the key ratios: the returns as percentages and
/// the current ratio, each with two decimals.
pub open spec fn indicators_message(fi: FinancialIndicatorsDto) -> Seq<char> {
    "財務指標: ROE "@ + fixed2(fi.roe as int) + "%, ROA "@ + fixed2(fi.roa as int) + "%, 流動比率 "@
        + fixed2(fi.current_ratio as int)
}

/// The screen.
pub struct FinancialStatementPage {
    screen: Screen,
}

impl View for FinancialStatementPage {
    type V = ScreenModel;

    closed spec fn view(&self) -> ScreenModel {
        self.screen@
    }
}

impl FinancialStatementPage {
    /// The screen's invariant.
    pub closed spec fn wf(&self) -> bool {
        self.screen.wf()
    }

    /// A well-formed page's table is well formed and both animations are
    /// within their frames.
    pub proof fn frames_in_range(&self)
        requires
            self.wf(),
        ensures
            self@.table.wf(),
            self@.animation_frame < ANIMATION_FRAMES,
            self@.spinner < SPINNER_FRAMES,
    {
        self.screen.frames_in_range();
    }

    /// The screen as it opens.
    pub open spec fn opened() -> ScreenModel {
        opened_screen(
            "◆ 財務諸表生成 - 制度開示資料 ◆"@,
            seq!["財務諸表"@, "項目"@, "金額"@],
            seq![25u16, 35u16, 20u16],
            seq![(LogLevel::Info, "財務諸表生成画面を開きました"@), (LogLevel::Info, "データを読み込んでいます..."@)],
        )
    }

    /// The screen as it opens: an empty table, two messages in the log,
    /// waiting for its data.
    pub fn new() -> (r: Self)
        ensures
            r.wf(),
            r@ == Self::opened(),
    {
        let headers = strings(&["財務諸表", "項目", "金額"]);
        let table = DataTable::new(from_literal("◆ 財務諸表生成 - 制度開示資料 ◆"), headers)
            .with_column_widths(vec![25, 35, 20]);
        let mut log = EventLog::new();
        log.add_info(from_literal("財務諸表生成画面を開きました"));
        log.add_info(from_literal("データを読み込んでいます..."));
        proof {
            assert(log@ =~= seq![(LogLevel::Info, "財務諸表生成画面を開きました"@), (LogLevel::Info, "データを読み込んでいます..."@)]);
        }
        let r = FinancialStatementPage { screen: Screen::new(table, log) };
        proof {
            let o = Self::opened();
            assert(r@.table.rows =~= o.table.rows);
            assert(r@.table.headers =~= o.table.headers);
            assert(r@.table.column_widths =~= o.table.column_widths);
            assert(r@.log =~= o.log);
            assert(r@.table == o.table);
        }
        r
    }

    /// Records an error: loading ends with it, and it is logged.
    pub fn set_error(&mut self, error: String)
        requires
            old(self).wf(),
        ensures
            final(self).wf(),
            final(self)@ == old(self)@.failed(error@),
    {
        self.screen.set_error(error);
    }

    /// Whether the data is still awaited.
    pub fn is_loading(&self) -> (r: bool)
        ensures
            r == (self@.status is Loading),
    {
        self.screen.is_loading()
    }

    /// Moves the animations on by one frame.
    pub fn tick(&mut self)
        requires
            old(self).wf(),
        ensures
            final(self).wf(),
            final(self)@ == old(self)@.ticked(),
    {
        self.screen.tick();
    }

    /// Logs an informational message.
    pub fn add_info(&mut self, message: String)
        requires
            old(self).wf(),
        ensures
            final(self).wf(),
            final(self)@ == old(self)@.logged(LogLevel::Info, message@),
    {
        self.screen.add_info(message);
    }

    /// Logs an error message.
    pub fn add_error(&mut self, message: String)
        requires
            old(self).wf(),
        ensures
            final(self).wf(),
            final(self)@ == old(self)@.logged(LogLevel::Error, message@),
    {
        self.screen.add_error(message);
    }

    /// Moves the selection down one row.
    pub fn select_next(&mut self)
        requires
            old(self).wf(),
        ensures
            final(self).wf(),
            final(self)@ == (ScreenModel { table: old(self)@.table.next(), ..old(self)@ }),
    {
        self.screen.select_next();
    }

    /// Moves the selection up one row.
    pub fn select_previous(&mut self)
        requires
            old(self).wf(),
        ensures
            final(self).wf(),
            final(self)@ == (ScreenModel { table: old(self)@.table.previous(), ..old(self)@ }),
    {
        self.screen.select_previous();
    }

    /// The state the screen shows.
    pub fn screen(&self) -> (r: &Screen)
        ensures
            r@ == self@,
    {
        &self.screen
    }

    /// The cursor blinking at the end of the status bar.
    pub fn status_cursor(&self) -> (r: &'static str)
        ensures
            r@ == self@.cursor(),
    {
        self.screen.cursor()
    }

    /// Shows the statements: five lines of the statement of financial
    /// position, four of profit or loss, three of cash flows. Loading ends;
    /// the cross-check and the key ratios are logged.
    pub fn set_response(&mut self, response: GenerateFinancialStatementsResponse)
        requires
            old(self).wf(),
        ensures
            final(self).wf(),
            final(self)@ == old(self)@.loaded_with(statement_rows(response)).logged(
                LogLevel::Info,
                cross_check_message(response.cross_check_passed),
            ).logged(LogLevel::Info, indicators_message(response.financial_indicators)),
    {
        let mut data: Vec<Vec<String>> = Vec::new();
        push_row(&mut data, row3(from_literal("財政状態計算書"), from_literal("流動資産"), format_amount(response.statement_of_financial_position.current_assets, response.statement_of_financial_position.current_assets_currency.as_str())));
        push_row(&mut data, row3(from_literal("財政状態計算書"), from_literal("非流動資産"), format_amount(response.statement_of_financial_position.non_current_assets, response.statement_of_financial_position.non_current_assets_currency.as_str())));
        push_row(&mut data, row3(from_literal("財政状態計算書"), from_literal("流動負債"), format_amount(response.statement_of_financial_position.current_liabilities, response.statement_of_financial_position.current_liabilities_currency.as_str())));
        push_row(&mut data, row3(from_literal("財政状態計算書"), from_literal("非流動負債"), format_amount(response.statement_of_financial_position.non_current_liabilities, response.statement_of_financial_position.non_current_liabilities_currency.as_str())));
        push_row(&mut data, row3(from_literal("財政状態計算書"), from_literal("純資産"), format_amount(response.statement_of_financial_position.equity, response.statement_of_financial_position.equity_currency.as_str())));
        push_row(&mut data, row3(from_literal("損益計算書"), from_literal("売上高"), format_amount(response.statement_of_profit_or_loss.revenue, response.statement_of_profit_or_loss.revenue_currency.as_str())));
        push_row(&mut data, row3(from_literal("損益計算書"), from_literal("売上原価"), format_amount(response.statement_of_profit_or_loss.cost_of_sales, response.statement_of_profit_or_loss.cost_of_sales_currency.as_str())));
        push_row(&mut data, row3(from_literal("損益計算書"), from_literal("営業利益"), format_amount(response.statement_of_profit_or_loss.operating_profit, response.statement_of_profit_or_loss.operating_profit_currency.as_str())));
        push_row(&mut data, row3(from_literal("損益計算書"), from_literal("当期純利益"), format_amount(response.statement_of_profit_or_loss.net_profit, response.statement_of_profit_or_loss.net_profit_currency.as_str())));
        push_row(&mut data, row3(from_literal("CF計算書"), from_literal("営業活動CF"), format_amount(response.statement_of_cash_flows.operating_activities, response.statement_of_cash_flows.operating_activities_currency.as_str())));
        push_row(&mut data, row3(from_literal("CF計算書"), from_literal("投資活動CF"), format_amount(response.statement_of_cash_flows.investing_activities, response.statement_of_cash_flows.investing_activities_currency.as_str())));
        push_row(&mut data, row3(from_literal("CF計算書"), from_literal("財務活動CF"), format_amount(response.statement_of_cash_flows.financing_activities, response.statement_of_cash_flows.financing_activities_currency.as_str())));
        proof {
            assert(rows_of(data@) =~= statement_rows(response));
        }
        self.screen.set_rows(data);
        let verdict = if response.cross_check_passed { "合格" } else { "不合格" };
        self.screen.add_info(join2("財務諸表生成完了: クロスチェック ", verdict));
        let fi = response.financial_indicators;
        let mut message = join2("財務指標: ROE ", format_fixed2(fi.roe).as_str());
        push_text(&mut message, "%, ROA ");
        push_text(&mut message, format_fixed2(fi.roa).as_str());
        push_text(&mut message, "%, 流動比率 ");
        push_text(&mut message, format_fixed2(fi.current_ratio).as_str());
        self.screen.add_info(message);
    }
}

impl Default for FinancialStatementPage {
    fn default() -> (r: Self)
        ensures
            r.wf(),
            r@ == FinancialStatementPage::opened(),
    {
        FinancialStatementPage::new()
    }
}

} // verus!
