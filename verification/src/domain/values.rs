//! Value objects of the general ledger: account codes, accounting periods
//! and amounts, each checked when it is made. The checks (a code is not
//! empty, a month lies in 1 to 12, an amount is not negative) are this
//! library's own rules.

use vstd::prelude::*;
use crate::domain::error::{DomainError, DomainResult};

verus! {

/// The code of a general-ledger account; never empty.
#[derive(Debug, Clone, PartialEq, Eq)]
pub struct AccountCode {
    code: String,
}

impl View for AccountCode {
    type V = Seq<char>;

    closed spec fn view(&self) -> Seq<char> {
        self.code@
    }
}

impl AccountCode {
    /// Makes an account code; an empty code is refused.
    pub fn new(code: String) -> (r: DomainResult<AccountCode>)
        ensures
            code@.len() == 0 ==> r == Err::<AccountCode, DomainError>(DomainError::InvalidAccountCode),
            code@.len() > 0 ==> (r matches Ok(c) && c@ == code@),
    {
        if code.as_str().is_empty() {
            Err(DomainError::InvalidAccountCode)
        } else {
            Ok(AccountCode { code })
        }
    }

    /// The code as text.
    pub fn value(&self) -> (r: &str)
        ensures
            r@ == self@,
    {
        self.code.as_str()
    }
}

/// A fiscal year and a month of it.
#[derive(Debug, Clone, Copy, PartialEq, Eq, Structural)]
pub struct AccountingPeriod {
    year: u32,
    month: u32,
}

impl View for AccountingPeriod {
    type V = (u32, u32);

    closed spec fn view(&self) -> (u32, u32) {
        (self.year, self.month)
    }
}

impl AccountingPeriod {
    /// Makes a period; the month must lie in 1 to 12.
    pub fn new(year: u32, month: u32) -> (r: DomainResult<AccountingPeriod>)
        ensures
            !(1 <= month <= 12) ==> r == Err::<AccountingPeriod, DomainError>(DomainError::InvalidAccountingPeriod),
            1 <= month <= 12 ==> (r matches Ok(p) && p@ == (year, month)),
    {
        if month < 1 || month > 12 {
            Err(DomainError::InvalidAccountingPeriod)
        } else {
            Ok(AccountingPeriod { year, month })
        }
    }

    /// The fiscal year.
    pub fn year(&self) -> (r: u32)
        ensures
            r == self@.0,
    {
        self.year
    }

    /// The month, from 1 to 12.
    pub fn month(&self) -> (r: u32)
        ensures
            r == self@.1,
    {
        self.month
    }
}

/// An amount of money in the smallest unit of its currency; never negative.
#[derive(Debug, Clone, Copy, PartialEq, Eq, Structural)]
pub struct Amount {
    value: i64,
}

impl View for Amount {
    type V = i64;

    closed spec fn view(&self) -> i64 {
        self.value
    }
}

impl Amount {
    /// Makes an amount; a negative value is refused.
    pub fn new(value: i64) -> (r: DomainResult<Amount>)
        ensures
            value < 0 ==> r == Err::<Amount, DomainError>(DomainError::InvalidAmount),
            value >= 0 ==> (r matches Ok(a) && a@ == value),
    {
        if value < 0 {
            Err(DomainError::InvalidAmount)
        } else {
            Ok(Amount { value })
        }
    }

    /// The amount as an integer.
    pub fn value(&self) -> (r: i64)
        ensures
            r == self@,
    {
        self.value
    }
}

} // verus!
