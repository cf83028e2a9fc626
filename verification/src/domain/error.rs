//! Errors raised by the domain rules. The rules and the wording of their
//! messages are this library's own.

use vstd::prelude::*;
use crate::text::{from_literal, join2};

verus! {

/// A domain rule that an input broke.
#[derive(Debug, Clone, PartialEq, Eq)]
pub enum DomainError {
    /// An account code must not be empty.
    InvalidAccountCode,
    /// A period's month lies outside 1 to 12.
    InvalidAccountingPeriod,
    /// A booked amount must not be negative.
    InvalidAmount,
    /// A journal entry's debits and credits differ.
    UnbalancedEntry,
    /// The store refused to keep the data; the text says why.
    RepositoryError(String),
}

/// The result of a domain operation.
pub type DomainResult<T> = Result<T, DomainError>;

impl DomainError {
    /// The text that describes the error.
    pub open spec fn spec_message(self) -> Seq<char> {
        match self {
            DomainError::InvalidAccountCode => "Invalid account code"@,
            DomainError::InvalidAccountingPeriod => "Invalid accounting period"@,
            DomainError::InvalidAmount => "Invalid amount"@,
            DomainError::UnbalancedEntry => "Debits and credits do not balance"@,
            DomainError::RepositoryError(m) => "Repository error: "@ + m@,
        }
    }

    /// The text that describes the error.
    pub fn message(&self) -> (r: String)
        ensures
            r@ == self.spec_message(),
    {
        match self {
            DomainError::InvalidAccountCode => from_literal("Invalid account code"),
            DomainError::InvalidAccountingPeriod => from_literal("Invalid accounting period"),
            DomainError::InvalidAmount => from_literal("Invalid amount"),
            DomainError::UnbalancedEntry => from_literal("Debits and credits do not balance"),
            DomainError::RepositoryError(m) => join2("Repository error: ", m.as_str()),
        }
    }
}

} // verus!
