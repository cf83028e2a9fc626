//! Errors of the application layer. The wording of their messages is this
//! library's own.

use vstd::prelude::*;
use crate::domain::error::DomainError;
use crate::text::{join2, push_text};

verus! {

/// Why a use case did not complete.
#[derive(Debug, Clone, PartialEq, Eq)]
pub enum ApplicationError {
    /// One input was not acceptable.
    ValidationError(String),
    /// Several inputs were not acceptable; one text for each.
    ValidationFailed(Vec<String>),
    /// A domain rule refused the operation.
    DomainError(DomainError),
    /// The use case could not be carried out.
    UseCaseExecutionFailed(String),
}

/// The result of a use case.
pub type ApplicationResult<T> = Result<T, ApplicationError>;

/// The texts `ms`, with `sep` between each two of them.
pub open spec fn joined(ms: Seq<Seq<char>>, sep: Seq<char>) -> Seq<char>
    decreases ms.len(),
{
    if ms.len() == 0 {
        Seq::empty()
    } else if ms.len() == 1 {
        ms[0]
    } else {
        joined(ms.drop_last(), sep) + sep + ms.last()
    }
}

/// The views of a list of strings.
pub open spec fn texts(v: Seq<String>) -> Seq<Seq<char>> {
    v.map_values(|s: String| s@)
}

/// Joins the texts with `sep` between each two of them.
pub fn join_texts(ms: &Vec<String>, sep: &str) -> (r: String)
    ensures
        r@ == joined(texts(ms@), sep@),
{
    let mut r = String::new();
    let mut i: usize = 0;
    while i < ms.len()
        invariant
            i <= ms.len(),
            r@ == joined(texts(ms@).subrange(0, i as int), sep@),
        decreases ms.len() - i,
    {
        let ghost before = texts(ms@).subrange(0, i as int);
        let ghost after = texts(ms@).subrange(0, i + 1);
        assert(after.drop_last() =~= before);
        assert(after.last() == ms@[i as int]@);
        if i > 0 {
            push_text(&mut r, sep);
        } else {
            assert(before =~= Seq::<Seq<char>>::empty());
        }
        push_text(&mut r, ms[i].as_str());
        i = i + 1;
    }
    assert(texts(ms@).subrange(0, ms.len() as int) =~= texts(ms@));
    r
}

impl ApplicationError {
    /// The text that describes the error.
    pub open spec fn spec_message(self) -> Seq<char> {
        match self {
            ApplicationError::ValidationError(m) => "Validation error: "@ + m@,
            ApplicationError::ValidationFailed(ms) => "Validation failed: "@ + joined(texts(ms@), ", "@),
            ApplicationError::DomainError(e) => "Domain error: "@ + e.spec_message(),
            ApplicationError::UseCaseExecutionFailed(m) => "Use case execution failed: "@ + m@,
        }
    }

    /// The text that describes the error.
    pub fn message(&self) -> (r: String)
        ensures
            r@ == self.spec_message(),
    {
        match self {
            ApplicationError::ValidationError(m) => join2("Validation error: ", m.as_str()),
            ApplicationError::ValidationFailed(ms) => {
                let all = join_texts(ms, ", ");
                join2("Validation failed: ", all.as_str())
            },
            ApplicationError::DomainError(e) => {
                let m = e.message();
                join2("Domain error: ", m.as_str())
            },
            ApplicationError::UseCaseExecutionFailed(m) => join2(
                "Use case execution failed: ",
                m.as_str(),
            ),
        }
    }
}

} // verus!
