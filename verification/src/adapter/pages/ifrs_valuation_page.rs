//! Screen 306, IFRS valuation: estimates and fair-value measurement.

use vstd::prelude::*;
use crate::adapter::components::loading_spinner::SPINNER_FRAMES;
use crate::adapter::components::data_table::DataTable;
use crate::adapter::components::event_log::{EventLog, LogLevel};
use crate::adapter::pages::screen::{opened_screen, Screen, ScreenModel, ANIMATION_FRAMES, law_sixty_ticks_return};
use crate::text::{from_literal, strings};
use crate::adapter::components::data_table::rows_of;
use crate::adapter::pages::screen::{push_row, row5};
use crate::application::dtos::{
    ApplyIfrsValuationResponse, FairValueAdjustmentDto, ImpairmentLossDto, InventoryWriteDownDto,
};
use crate::text::{amount_text, decimal, format_amount, format_i64, format_u64, join2, push_text, signed_decimal};

verus! {

/// A signed amount with its sign always shown: "+1200", "-300", "+0".
pub open spec fn with_sign(n: int) -> Seq<char> {
    if n >= 0 { "+"@ + decimal(n as nat) } else { signed_decimal(n) }
}

/// `with_sign` in code.
pub fn format_with_sign(n: i64) -> (r: String)
    ensures
        r@ == with_sign(n as int),
{
    if n >= 0 {
        let digits = format_u64(n as u64);
        join2("+", digits.as_str())
    } else {
        format_i64(n)
    }
}

/// The row of the expected credit loss, when there is one.
pub open spec fn credit_loss_rows(r: ApplyIfrsValuationResponse) -> Seq<Seq<Seq<char>>> {
    if r.expected_credit_loss > 0 {
        seq![seq![
            "予想信用損失"@,
            "ECL"@,
            "-"@,
            amount_text(r.expected_credit_loss as int, r.expected_credit_loss_currency@),
            signed_decimal(r.expected_credit_loss as int),
        ]]
    } else {
        Seq::empty()
    }
}

/// The row of a fair-value adjustment.
pub open spec fn fair_value_row(a: FairValueAdjustmentDto) -> Seq<Seq<char>> {
    seq![
        a.financial_asset@,
        "公正価値"@,
        signed_decimal(a.book_value as int),
        signed_decimal(a.fair_value as int),
        with_sign(a.adjustment as int),
    ]
}

/// The row of an impairment loss.
pub open spec fn impairment_row(l: ImpairmentLossDto) -> Seq<Seq<char>> {
    seq![
        l.asset@,
        "減損"@,
        signed_decimal(l.carrying_amount as int),
        signed_decimal(l.recoverable_amount as int),
        "-"@ + signed_decimal(l.impairment_loss as int),
    ]
}

/// The row of an inventory write-down.
pub open spec fn write_down_row(w: InventoryWriteDownDto) -> Seq<Seq<char>> {
    seq![
        w.item@,
        "評価減"@,
        signed_decimal(w.cost as int),
        signed_decimal(w.net_realizable_value as int),
        "-"@ + signed_decimal(w.write_down_amount as int),
    ]
}

/// The rows that show a valuation result.
pub open spec fn valuation_rows(r: ApplyIfrsValuationResponse) -> Seq<Seq<Seq<char>>> {
    credit_loss_rows(r)
        + r.fair_value_adjustments@.map_values(|a: FairValueAdjustmentDto| fair_value_row(a))
        + r.impairment_losses@.map_values(|l: ImpairmentLossDto| impairment_row(l))
        + r.inventory_write_downs@.map_values(|w: InventoryWriteDownDto| write_down_row(w))
}

/// The message logged when the valuation result arrives.
pub open spec fn valuation_message(r: ApplyIfrsValuationResponse) -> Seq<char> {
    "IFRS評価完了: 公正価値 "@ + decimal(r.fair_value_adjustments@.len()) + " 件、減損 "@
        + decimal(r.impairment_losses@.len()) + " 件、評価減 "@ + decimal(r.inventory_write_downs@.len())
        + " 件、リース "@ + decimal(r.lease_measurements@.len()) + " 件"@
}

/// The screen.
pub struct IfrsValuationPage {
    screen: Screen,
}

impl View for IfrsValuationPage {
    type V = ScreenModel;

    closed spec fn view(&self) -> ScreenModel {
        self.screen@
    }
}

impl IfrsValuationPage {
    /// The screen's invariant.
    pub closed spec fn wf(&self) -> bool {
        self.screen.wf()
    }

    /// A well-formed page's table is well formed and both animations are
    /// within their frames.
    pub proof fn frames_in_range(&self)
        requires
            self.wf(),
        ensures
            self@.table.wf(),
            self@.animation_frame < ANIMATION_FRAMES,
            self@.spinner < SPINNER_FRAMES,
    {
        self.screen.frames_in_range();
    }

    /// The status-bar cursor blinks with a period of sixty ticks: from any
    /// well-formed state, sixty calls of `tick` bring the animation back to
    /// its frame and change neither the loading state, nor the table, nor
    /// the log.
    pub proof fn law_sixty_ticks(&self)
        requires
            self.wf(),
        ensures
            self@.ticked_times(60).animation_frame == self@.animation_frame,
            self@.ticked_times(60).status == self@.status,
            self@.ticked_times(60).table == self@.table,
            self@.ticked_times(60).log == self@.log,
    {
        self.frames_in_range();
        law_sixty_ticks_return(self@);
    }

    /// The screen as it opens.
    pub open spec fn opened() -> ScreenModel {
        opened_screen(
            "◆ IFRS評価 - 公正価値測定 ◆"@,
            seq!["評価項目"@, "種別"@, "帳簿価額"@, "評価額"@, "差額"@],
            seq![20u16, 15u16, 15u16, 15u16, 15u16],
            seq![(LogLevel::Info, "IFRS評価画面を開きました"@), (LogLevel::Info, "データを読み込んでいます..."@)],
        )
    }

    /// The screen as it opens: an empty table, two messages in the log,
    /// waiting for its data.
    pub fn new() -> (r: Self)
        ensures
            r.wf(),
            r@ == Self::opened(),
    {
        let headers = strings(&["評価項目", "種別", "帳簿価額", "評価額", "差額"]);
        let table = DataTable::new(from_literal("◆ IFRS評価 - 公正価値測定 ◆"), headers)
            .with_column_widths(vec![20, 15, 15, 15, 15]);
        let mut log = EventLog::new();
        log.add_info(from_literal("IFRS評価画面を開きました"));
        log.add_info(from_literal("データを読み込んでいます..."));
        proof {
            assert(log@ =~= seq![(LogLevel::Info, "IFRS評価画面を開きました"@), (LogLevel::Info, "データを読み込んでいます..."@)]);
        }
        let r = IfrsValuationPage { screen: Screen::new(table, log) };
        proof {
            let o = Self::opened();
            assert(r@.table.rows =~= o.table.rows);
            assert(r@.table.headers =~= o.table.headers);
            assert(r@.table.column_widths =~= o.table.column_widths);
            assert(r@.log =~= o.log);
            assert(r@.table == o.table);
        }
        r
    }

    /// Records an error: loading ends with it, and it is logged.
    pub fn set_error(&mut self, error: String)
        requires
            old(self).wf(),
        ensures
            final(self).wf(),
            final(self)@ == old(self)@.failed(error@),
    {
        self.screen.set_error(error);
    }

    /// Whether the data is still awaited.
    pub fn is_loading(&self) -> (r: bool)
        ensures
            r == (self@.status is Loading),
    {
        self.screen.is_loading()
    }

    /// Moves the animations on by one frame.
    pub fn tick(&mut self)
        requires
            old(self).wf(),
        ensures
            final(self).wf(),
            final(self)@ == old(self)@.ticked(),
    {
        self.screen.tick();
    }

    /// Logs an informational message.
    pub fn add_info(&mut self, message: String)
        requires
            old(self).wf(),
        ensures
            final(self).wf(),
            final(self)@ == old(self)@.logged(LogLevel::Info, message@),
    {
        self.screen.add_info(message);
    }

    /// Logs an error message.
    pub fn add_error(&mut self, message: String)
        requires
            old(self).wf(),
        ensures
            final(self).wf(),
            final(self)@ == old(self)@.logged(LogLevel::Error, message@),
    {
        self.screen.add_error(message);
    }

    /// Moves the selection down one row.
    pub fn select_next(&mut self)
        requires
            old(self).wf(),
        ensures
            final(self).wf(),
            final(self)@ == (ScreenModel { table: old(self)@.table.next(), ..old(self)@ }),
    {
        self.screen.select_next();
    }

    /// Moves the selection up one row.
    pub fn select_previous(&mut self)
        requires
            old(self).wf(),
        ensures
            final(self).wf(),
            final(self)@ == (ScreenModel { table: old(self)@.table.previous(), ..old(self)@ }),
    {
        self.screen.select_previous();
    }

    /// The state the screen shows.
    pub fn screen(&self) -> (r: &Screen)
        ensures
            r@ == self@,
    {
        &self.screen
    }

    /// The cursor blinking at the end of the status bar.
    pub fn status_cursor(&self) -> (r: &'static str)
        ensures
            r@ == self@.cursor(),
    {
        self.screen.cursor()
    }

    /// Shows the valuation result: the expected credit loss (when there is
    /// one), then each fair-value adjustment, impairment and inventory
    /// write-down; loading ends and the counts are logged.
    pub fn set_response(&mut self, response: ApplyIfrsValuationResponse)
        requires
            old(self).wf(),
        ensures
            final(self).wf(),
            final(self)@ == old(self)@.loaded_with(valuation_rows(response)).logged(
                LogLevel::Info,
                valuation_message(response),
            ),
    {
        let mut data: Vec<Vec<String>> = Vec::new();
        if response.expected_credit_loss > 0 {
            let ecl = format_amount(response.expected_credit_loss, response.expected_credit_loss_currency.as_str());
            let ecl2 = format_i64(response.expected_credit_loss);
            push_row(&mut data, row5(
                from_literal("予想信用損失"),
                from_literal("ECL"),
                from_literal("-"),
                ecl,
                ecl2,
            ));
        }
        proof {
            assert(rows_of(data@) =~= credit_loss_rows(response));
        }
        let fv = &response.fair_value_adjustments;
        let mut i: usize = 0;
        while i < fv.len()
            invariant
                i <= fv@.len(),
                fv@ == response.fair_value_adjustments@,
                rows_of(data@) == credit_loss_rows(response) + fv@.subrange(0, i as int).map_values(
                    |a: FairValueAdjustmentDto| fair_value_row(a),
                ),
            decreases fv@.len() - i,
        {
            let a = &fv[i];
            let row = row5(
                a.financial_asset.clone(),
                from_literal("公正価値"),
                format_i64(a.book_value),
                format_i64(a.fair_value),
                format_with_sign(a.adjustment),
            );
            push_row(&mut data, row);
            proof {
                assert(fv@.subrange(0, i + 1).map_values(|a: FairValueAdjustmentDto| fair_value_row(a))
                    =~= fv@.subrange(0, i as int).map_values(|a: FairValueAdjustmentDto| fair_value_row(a)).push(
                    fair_value_row(fv@[i as int])));
            }
            i = i + 1;
        }
        proof {
            assert(fv@.subrange(0, fv@.len() as int) =~= fv@);
        }
        let ghost after_fv = rows_of(data@);
        let im = &response.impairment_losses;
        let mut j: usize = 0;
        while j < im.len()
            invariant
                j <= im@.len(),
                im@ == response.impairment_losses@,
                rows_of(data@) == after_fv + im@.subrange(0, j as int).map_values(
                    |l: ImpairmentLossDto| impairment_row(l),
                ),
            decreases im@.len() - j,
        {
            let l = &im[j];
            let loss = format_i64(l.impairment_loss);
            let row = row5(
                l.asset.clone(),
                from_literal("減損"),
                format_i64(l.carrying_amount),
                format_i64(l.recoverable_amount),
                join2("-", loss.as_str()),
            );
            push_row(&mut data, row);
            proof {
                assert(im@.subrange(0, j + 1).map_values(|l: ImpairmentLossDto| impairment_row(l))
                    =~= im@.subrange(0, j as int).map_values(|l: ImpairmentLossDto| impairment_row(l)).push(
                    impairment_row(im@[j as int])));
            }
            j = j + 1;
        }
        proof {
            assert(im@.subrange(0, im@.len() as int) =~= im@);
        }
        let ghost after_im = rows_of(data@);
        let wd = &response.inventory_write_downs;
        let mut k: usize = 0;
        while k < wd.len()
            invariant
                k <= wd@.len(),
                wd@ == response.inventory_write_downs@,
                rows_of(data@) == after_im + wd@.subrange(0, k as int).map_values(
                    |w: InventoryWriteDownDto| write_down_row(w),
                ),
            decreases wd@.len() - k,
        {
            let w = &wd[k];
            let amount = format_i64(w.write_down_amount);
            let row = row5(
                w.item.clone(),
                from_literal("評価減"),
                format_i64(w.cost),
                format_i64(w.net_realizable_value),
                join2("-", amount.as_str()),
            );
            push_row(&mut data, row);
            proof {
                assert(wd@.subrange(0, k + 1).map_values(|w: InventoryWriteDownDto| write_down_row(w))
                    =~= wd@.subrange(0, k as int).map_values(|w: InventoryWriteDownDto| write_down_row(w)).push(
                    write_down_row(wd@[k as int])));
            }
            k = k + 1;
        }
        proof {
            assert(wd@.subrange(0, wd@.len() as int) =~= wd@);
            assert(rows_of(data@) =~= valuation_rows(response));
        }
        self.screen.set_rows(data);
        let mut message = join2("IFRS評価完了: 公正価値 ", format_u64(response.fair_value_adjustments.len() as u64).as_str());
        push_text(&mut message, " 件、減損 ");
        push_text(&mut message, format_u64(response.impairment_losses.len() as u64).as_str());
        push_text(&mut message, " 件、評価減 ");
        push_text(&mut message, format_u64(response.inventory_write_downs.len() as u64).as_str());
        push_text(&mut message, " 件、リース ");
        push_text(&mut message, format_u64(response.lease_measurements.len() as u64).as_str());
        push_text(&mut message, " 件");
        self.screen.add_info(message);
    }
}

impl Default for IfrsValuationPage {
    fn default() -> (r: Self)
        ensures
            r.wf(),
            r@ == IfrsValuationPage::opened(),
    {
        IfrsValuationPage::new()
    }
}

} // verus!
