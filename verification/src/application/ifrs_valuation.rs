//! IFRS valuation of a period: estimates and fair-value measurement.
//!
//! The use case reads the period's trial balance, records the valuation in
//! the event store, and answers with the valuation. The reads and writes
//! run asynchronously outside; `valuation` gives what is recorded and
//! answered.

use vstd::prelude::*;
use std::sync::Arc;
use crate::application::dtos::{ApplyIfrsValuationResponse, PeriodRequest};
use crate::text::{decimal, format_u64, from_literal, join2, push_text, signed_decimal, format_i64};

verus! {

/// An event of the closing process. Times are in microseconds since
/// 1970-01-01 UTC; amounts in the smallest unit of the currency.
#[derive(Debug, Clone)]
pub enum ClosingEvent {
    /// A valuation was booked.
    IfrsValuationApplied {
        valuation_id: String,
        fiscal_year: i32,
        period: u8,
        valuation_type: String,
        account_code: String,
        amount: i64,
        currency: String,
        applied_by: String,
        applied_at: i64,
    },
}

/// The expected credit loss booked on trade receivables.
pub const EXPECTED_CREDIT_LOSS: i64 = 50000;

/// A number written with at least two digits: 7 is "07", 12 is "12".
pub open spec fn two_digit(n: nat) -> Seq<char> {
    if n < 10 { "0"@ + decimal(n) } else { decimal(n) }
}

/// The identifier of a period's valuation: "IFRS-2024-07".
pub open spec fn valuation_id(fiscal_year: int, period: nat) -> Seq<char> {
    "IFRS-"@ + signed_decimal(fiscal_year) + "-"@ + two_digit(period)
}

/// Applies the IFRS valuation of a period.
pub struct ApplyIfrsValuationInteractor<R, Q> {
    event_repository: Arc<R>,
    ledger_query_service: Arc<Q>,
}

impl<R, Q> ApplyIfrsValuationInteractor<R, Q> {
    /// The event store and the ledger query service.
    pub closed spec fn parts(&self) -> (Arc<R>, Arc<Q>) {
        (self.event_repository, self.ledger_query_service)
    }

    /// An interactor over these parts.
    pub fn new(event_repository: Arc<R>, ledger_query_service: Arc<Q>) -> (r: Self)
        ensures
            r.parts() == (event_repository, ledger_query_service),
    {
        ApplyIfrsValuationInteractor { event_repository, ledger_query_service }
    }

    /// The identifier of a period's valuation.
    pub fn valuation_id(fiscal_year: i32, period: u8) -> (r: String)
        ensures
            r@ == valuation_id(fiscal_year as int, period as nat),
    {
        let year = format_i64(fiscal_year as i64);
        let mut r = join2("IFRS-", year.as_str());
        push_text(&mut r, "-");
        if period < 10 {
            push_text(&mut r, "0");
        }
        let p = format_u64(period as u64);
        push_text(&mut r, p.as_str());
        proof {
            reveal_strlit("0");
        }
        r
    }

    /// What the valuation of the period records and answers: the stream
    /// to record in, the expected-credit-loss event on trade receivables
    /// (account 1100) booked by the system at `applied_at`, and the answer
    /// that reports that loss and nothing else.
    pub fn valuation(request: PeriodRequest, applied_at: i64) -> (r: (String, ClosingEvent, ApplyIfrsValuationResponse))
        ensures
            r.0@ == valuation_id(request.fiscal_year as int, request.period as nat),
            r.1 matches ClosingEvent::IfrsValuationApplied {
                valuation_id: vid, fiscal_year, period, valuation_type, account_code, amount, currency,
                applied_by, applied_at: at,
            } && vid@ == valuation_id(request.fiscal_year as int, request.period as nat) + "-ECL"@
                && fiscal_year == request.fiscal_year && period == request.period
                && valuation_type@ == "ExpectedCreditLoss"@ && account_code@ == "1100"@
                && amount == EXPECTED_CREDIT_LOSS && currency@ == "JPY"@ && applied_by@ == "system"@
                && at == applied_at,
            r.2.expected_credit_loss == EXPECTED_CREDIT_LOSS,
            r.2.expected_credit_loss_currency@ == "JPY"@,
            r.2.contingent_liabilities@.len() == 0,
            r.2.inventory_write_downs@.len() == 0,
            r.2.impairment_losses@.len() == 0,
            r.2.fair_value_adjustments@.len() == 0,
            r.2.lease_measurements@.len() == 0,
    {
        let id = Self::valuation_id(request.fiscal_year, request.period);
        let event = ClosingEvent::IfrsValuationApplied {
            valuation_id: join2(id.as_str(), "-ECL"),
            fiscal_year: request.fiscal_year,
            period: request.period,
            valuation_type: from_literal("ExpectedCreditLoss"),
            account_code: from_literal("1100"),
            amount: EXPECTED_CREDIT_LOSS,
            currency: from_literal("JPY"),
            applied_by: from_literal("system"),
            applied_at,
        };
        let response = ApplyIfrsValuationResponse {
            expected_credit_loss: EXPECTED_CREDIT_LOSS,
            expected_credit_loss_currency: from_literal("JPY"),
            contingent_liabilities: Vec::new(),
            inventory_write_downs: Vec::new(),
            impairment_losses: Vec::new(),
            fair_value_adjustments: Vec::new(),
            lease_measurements: Vec::new(),
        };
        (id, event, response)
    }
}

/// The value of a decimal digit.
pub open spec fn digit_value(c: char) -> int {
    (c as int) - ('0' as int)
}

proof fn lemma_digit_value(d: nat)
    requires
        d < 10,
    ensures
        digit_value(crate::text::digit_char(d)) == d,
{
}

/// The identifier's period part is the period written with exactly two
/// digits: for every period below 100 the identifier is "IFRS-", the year,
/// a hyphen, and two characters that read back as the period.
pub proof fn law_valuation_id_two_digit_period(fiscal_year: int, period: nat)
    requires
        period < 100,
    ensures
        ({
            let prefix = "IFRS-"@ + signed_decimal(fiscal_year) + "-"@;
            let id = valuation_id(fiscal_year, period);
            &&& id.len() == prefix.len() + 2
            &&& id.subrange(0, prefix.len() as int) == prefix
            &&& digit_value(id[id.len() - 2]) * 10 + digit_value(id[id.len() - 1]) == period
        }),
{
    let prefix = "IFRS-"@ + signed_decimal(fiscal_year) + "-"@;
    let q = two_digit(period);
    if period < 10 {
        reveal_strlit("0");
        assert(decimal(period) == seq![crate::text::digit_char(period)]);
        lemma_digit_value(period);
        lemma_digit_value(0);
        assert(q =~= seq!['0', crate::text::digit_char(period)]);
    } else {
        let t = period / 10;
        let u = period % 10;
        assert(decimal(t) == seq![crate::text::digit_char(t)]);
        assert(decimal(period) == decimal(t).push(crate::text::digit_char(u)));
        lemma_digit_value(t);
        lemma_digit_value(u);
        assert(q =~= seq![crate::text::digit_char(t), crate::text::digit_char(u)]);
    }
    let id = valuation_id(fiscal_year, period);
    assert(id =~= prefix + q);
    assert(id.subrange(0, prefix.len() as int) =~= prefix);
    assert(id[id.len() - 2] == q[0]);
    assert(id[id.len() - 1] == q[1]);
}

} // verus!
