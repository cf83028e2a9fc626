//! The journal-entry commands that record a single event: submitting an
//! entry for approval, rejecting it, and reversing it.
//!
//! Each command runs in two steps around the event store, which is reached
//! asynchronously from outside: `begin` gives the notice that the command
//! started, the stream to append to and the event; `complete` takes what
//! the store answered and gives the result to present and the notice that
//! the command is done, or the error to return.

use vstd::prelude::*;
use std::sync::Arc;
use crate::application::clock::{utc_now_micros, utc_now_rfc3339};
use crate::application::error::{ApplicationError, ApplicationResult};
use crate::application::output_port::EventNotification;
use crate::domain::error::DomainError;
use crate::text::{from_literal, join2};

verus! {

/// An event in the life of a journal entry. Times are in microseconds since
/// 1970-01-01 UTC.
#[derive(Debug, Clone)]
pub enum JournalEntryEvent {
    /// The entry was submitted for approval.
    ApprovalRequested { entry_id: String, requested_by: String, requested_at: i64 },
    /// The entry was sent back to its author.
    Rejected { entry_id: String, reason: String, rejected_by: String, rejected_at: i64 },
    /// A reversing entry cancelled the original one.
    Reversed {
        entry_id: String,
        original_id: String,
        reason: String,
        reversed_by: String,
        reversed_at: i64,
    },
}

/// Submit an entry for approval.
#[derive(Debug, Clone)]
pub struct SubmitForApprovalRequest {
    pub entry_id: String,
    pub user_id: String,
}

/// The entry, now awaiting approval.
#[derive(Debug, Clone)]
pub struct SubmitForApprovalResponse {
    pub entry_id: String,
    pub status: String,
    pub submitted_at: String,
}

/// Send an entry back, with the reason.
#[derive(Debug, Clone)]
pub struct RejectJournalEntryRequest {
    pub entry_id: String,
    pub reason: String,
    pub rejected_by: String,
}

/// The entry, back in draft.
#[derive(Debug, Clone)]
pub struct RejectJournalEntryResponse {
    pub entry_id: String,
    pub status: String,
    pub rejected_at: String,
}

/// Reverse an entry, with the reason.
#[derive(Debug, Clone)]
pub struct ReverseJournalEntryRequest {
    pub entry_id: String,
    pub reason: String,
    pub user_id: String,
}

/// The reversing entry and the entry it reverses.
#[derive(Debug, Clone)]
pub struct ReverseJournalEntryResponse {
    pub entry_id: String,
    pub original_entry_id: String,
    pub status: String,
    pub reversed_at: String,
}

/// A notice from the system user at the given place.
pub open spec fn system_notice(n: EventNotification, location: Seq<char>, action: Seq<char>) -> bool {
    n.user@ == "system"@ && n.location@ == location && n.action@ == action && n.success
}

/// The identifier of the entry that reverses `entry_id`.
pub open spec fn reversal_id(entry_id: Seq<char>) -> Seq<char> {
    "REV-"@ + entry_id
}

pub(crate) fn system_success(location: &str, action: String) -> (r: EventNotification)
    ensures
        system_notice(r, location@, action@),
{
    EventNotification::success(from_literal("system"), from_literal(location), action)
}

/// Submits journal entries for approval.
pub struct SubmitForApprovalInteractor<R, E, O> {
    event_repository: Arc<R>,
    event_output: Arc<E>,
    output_port: Arc<O>,
}

impl<R, E, O> SubmitForApprovalInteractor<R, E, O> {
    /// The store, the notice output and the presenter.
    pub closed spec fn parts(&self) -> (Arc<R>, Arc<E>, Arc<O>) {
        (self.event_repository, self.event_output, self.output_port)
    }

    /// An interactor over these parts.
    pub fn new(event_repository: Arc<R>, event_output: Arc<E>, output_port: Arc<O>) -> (r: Self)
        ensures
            r.parts() == (event_repository, event_output, output_port),
    {
        SubmitForApprovalInteractor { event_repository, event_output, output_port }
    }

    /// The start notice, the entry's stream, and the approval-request event
    /// by the requesting user at `now`.
    pub fn begin(request: &SubmitForApprovalRequest, now: i64) -> (r: (EventNotification, String, JournalEntryEvent))
        ensures
            system_notice(r.0, "SubmitForApproval"@, "承認申請を開始: "@ + request.entry_id@),
            r.1@ == request.entry_id@,
            r.2 matches JournalEntryEvent::ApprovalRequested { entry_id, requested_by, requested_at }
                && entry_id@ == request.entry_id@ && requested_by@ == request.user_id@ && requested_at == now,
    {
        let notice = system_success("SubmitForApproval", join2("承認申請を開始: ", request.entry_id.as_str()));
        let event = JournalEntryEvent::ApprovalRequested {
            entry_id: request.entry_id.clone(),
            requested_by: request.user_id.clone(),
            requested_at: now,
        };
        (notice, request.entry_id.clone(), event)
    }

    /// After the store answered: the entry awaiting approval and the done
    /// notice, or the store's error.
    pub fn complete(
        request: SubmitForApprovalRequest,
        stored: Result<(), DomainError>,
        submitted_at: String,
    ) -> (r: ApplicationResult<(SubmitForApprovalResponse, EventNotification)>)
        ensures
            stored matches Err(e) ==> r == Err::<(SubmitForApprovalResponse, EventNotification), ApplicationError>(
                ApplicationError::DomainError(e)),
            stored is Ok ==> (r matches Ok((resp, notice))
                && resp.entry_id@ == request.entry_id@
                && resp.status@ == "PendingApproval"@
                && resp.submitted_at@ == submitted_at@
                && system_notice(notice, "SubmitForApproval"@, "承認申請が完了"@)),
    {
        match stored {
            Err(e) => Err(ApplicationError::DomainError(e)),
            Ok(()) => {
                let response = SubmitForApprovalResponse {
                    entry_id: request.entry_id,
                    status: from_literal("PendingApproval"),
                    submitted_at,
                };
                Ok((response, system_success("SubmitForApproval", from_literal("承認申請が完了"))))
            },
        }
    }

    /// `begin`, at the time read from the clock, in microseconds since
    /// 1970-01-01 UTC.
    pub fn begin_now(request: &SubmitForApprovalRequest) -> (r: (EventNotification, String, JournalEntryEvent))
        ensures
            system_notice(r.0, "SubmitForApproval"@, "承認申請を開始: "@ + request.entry_id@),
            r.1@ == request.entry_id@,
            r.2 matches JournalEntryEvent::ApprovalRequested { entry_id, requested_by, requested_at }
                && entry_id@ == request.entry_id@ && requested_by@ == request.user_id@ && requested_at >= 0,
    {
        let now = utc_now_micros();
        Self::begin(request, now)
    }

    /// `complete`, with the time read from the clock, written in RFC 3339.
    pub fn complete_now(request: SubmitForApprovalRequest, stored: Result<(), DomainError>) -> (r: ApplicationResult<(
        SubmitForApprovalResponse,
        EventNotification,
    )>)
        ensures
            stored matches Err(e) ==> r == Err::<(SubmitForApprovalResponse, EventNotification), ApplicationError>(
                ApplicationError::DomainError(e)),
            stored is Ok ==> (r matches Ok((resp, notice))
                && resp.entry_id@ == request.entry_id@
                && resp.status@ == "PendingApproval"@
                && system_notice(notice, "SubmitForApproval"@, "承認申請が完了"@)),
    {
        let at = utc_now_rfc3339();
        Self::complete(request, stored, at)
    }
}

/// Sends journal entries back to their authors.
pub struct RejectJournalEntryInteractor<R, E, O> {
    event_repository: Arc<R>,
    event_output: Arc<E>,
    output_port: Arc<O>,
}

impl<R, E, O> RejectJournalEntryInteractor<R, E, O> {
    /// The store, the notice output and the presenter.
    pub closed spec fn parts(&self) -> (Arc<R>, Arc<E>, Arc<O>) {
        (self.event_repository, self.event_output, self.output_port)
    }

    /// An interactor over these parts.
    pub fn new(event_repository: Arc<R>, event_output: Arc<E>, output_port: Arc<O>) -> (r: Self)
        ensures
            r.parts() == (event_repository, event_output, output_port),
    {
        RejectJournalEntryInteractor { event_repository, event_output, output_port }
    }

    /// The start notice, the entry's stream, and the rejection event with
    /// its reason, by the rejecting user at `now`.
    pub fn begin(request: &RejectJournalEntryRequest, now: i64) -> (r: (EventNotification, String, JournalEntryEvent))
        ensures
            system_notice(r.0, "RejectJournalEntry"@, "差戻し処理を開始: "@ + request.entry_id@),
            r.1@ == request.entry_id@,
            r.2 matches JournalEntryEvent::Rejected { entry_id, reason, rejected_by, rejected_at }
                && entry_id@ == request.entry_id@ && reason@ == request.reason@
                && rejected_by@ == request.rejected_by@ && rejected_at == now,
    {
        let notice = system_success("RejectJournalEntry", join2("差戻し処理を開始: ", request.entry_id.as_str()));
        let event = JournalEntryEvent::Rejected {
            entry_id: request.entry_id.clone(),
            reason: request.reason.clone(),
            rejected_by: request.rejected_by.clone(),
            rejected_at: now,
        };
        (notice, request.entry_id.clone(), event)
    }

    /// After the store answered: the entry back in draft and the done
    /// notice, or the store's error.
    pub fn complete(
        request: RejectJournalEntryRequest,
        stored: Result<(), DomainError>,
        rejected_at: String,
    ) -> (r: ApplicationResult<(RejectJournalEntryResponse, EventNotification)>)
        ensures
            stored matches Err(e) ==> r == Err::<(RejectJournalEntryResponse, EventNotification), ApplicationError>(
                ApplicationError::DomainError(e)),
            stored is Ok ==> (r matches Ok((resp, notice))
                && resp.entry_id@ == request.entry_id@
                && resp.status@ == "Draft"@
                && resp.rejected_at@ == rejected_at@
                && system_notice(notice, "RejectJournalEntry"@, "差戻し処理が完了"@)),
    {
        match stored {
            Err(e) => Err(ApplicationError::DomainError(e)),
            Ok(()) => {
                let response = RejectJournalEntryResponse {
                    entry_id: request.entry_id,
                    status: from_literal("Draft"),
                    rejected_at,
                };
                Ok((response, system_success("RejectJournalEntry", from_literal("差戻し処理が完了"))))
            },
        }
    }

    /// `begin`, at the time read from the clock, in microseconds since
    /// 1970-01-01 UTC.
    pub fn begin_now(request: &RejectJournalEntryRequest) -> (r: (EventNotification, String, JournalEntryEvent))
        ensures
            system_notice(r.0, "RejectJournalEntry"@, "差戻し処理を開始: "@ + request.entry_id@),
            r.1@ == request.entry_id@,
            r.2 matches JournalEntryEvent::Rejected { entry_id, reason, rejected_by, rejected_at }
                && entry_id@ == request.entry_id@ && reason@ == request.reason@
                && rejected_by@ == request.rejected_by@ && rejected_at >= 0,
    {
        let now = utc_now_micros();
        Self::begin(request, now)
    }

    /// `complete`, with the time read from the clock, written in RFC 3339.
    pub fn complete_now(request: RejectJournalEntryRequest, stored: Result<(), DomainError>) -> (r: ApplicationResult<(
        RejectJournalEntryResponse,
        EventNotification,
    )>)
        ensures
            stored matches Err(e) ==> r == Err::<(RejectJournalEntryResponse, EventNotification), ApplicationError>(
                ApplicationError::DomainError(e)),
            stored is Ok ==> (r matches Ok((resp, notice))
                && resp.entry_id@ == request.entry_id@
                && resp.status@ == "Draft"@
                && system_notice(notice, "RejectJournalEntry"@, "差戻し処理が完了"@)),
    {
        let at = utc_now_rfc3339();
        Self::complete(request, stored, at)
    }
}

/// Reverses journal entries.
pub struct ReverseJournalEntryInteractor<R, E, O> {
    event_repository: Arc<R>,
    event_output: Arc<E>,
    output_port: Arc<O>,
}

impl<R, E, O> ReverseJournalEntryInteractor<R, E, O> {
    /// The store, the notice output and the presenter.
    pub closed spec fn parts(&self) -> (Arc<R>, Arc<E>, Arc<O>) {
        (self.event_repository, self.event_output, self.output_port)
    }

    /// An interactor over these parts.
    pub fn new(event_repository: Arc<R>, event_output: Arc<E>, output_port: Arc<O>) -> (r: Self)
        ensures
            r.parts() == (event_repository, event_output, output_port),
    {
        ReverseJournalEntryInteractor { event_repository, event_output, output_port }
    }

    /// The start notice, the reversing entry's stream ("REV-" and the
    /// original identifier), and the reversal event by the user at `now`.
    pub fn begin(request: &ReverseJournalEntryRequest, now: i64) -> (r: (EventNotification, String, JournalEntryEvent))
        ensures
            system_notice(r.0, "ReverseJournalEntry"@, "取消処理を開始: "@ + request.entry_id@),
            r.1@ == reversal_id(request.entry_id@),
            r.2 matches JournalEntryEvent::Reversed { entry_id, original_id, reason, reversed_by, reversed_at }
                && entry_id@ == reversal_id(request.entry_id@) && original_id@ == request.entry_id@
                && reason@ == request.reason@ && reversed_by@ == request.user_id@ && reversed_at == now,
    {
        let notice = system_success("ReverseJournalEntry", join2("取消処理を開始: ", request.entry_id.as_str()));
        let reversal = join2("REV-", request.entry_id.as_str());
        let event = JournalEntryEvent::Reversed {
            entry_id: reversal.clone(),
            original_id: request.entry_id.clone(),
            reason: request.reason.clone(),
            reversed_by: request.user_id.clone(),
            reversed_at: now,
        };
        (notice, reversal, event)
    }

    /// After the store answered: the reversing entry, the entry it reverses,
    /// and the done notice; or the store's error.
    pub fn complete(
        request: ReverseJournalEntryRequest,
        stored: Result<(), DomainError>,
        reversed_at: String,
    ) -> (r: ApplicationResult<(ReverseJournalEntryResponse, EventNotification)>)
        ensures
            stored matches Err(e) ==> r == Err::<(ReverseJournalEntryResponse, EventNotification), ApplicationError>(
                ApplicationError::DomainError(e)),
            stored is Ok ==> (r matches Ok((resp, notice))
                && resp.entry_id@ == reversal_id(request.entry_id@)
                && resp.original_entry_id@ == request.entry_id@
                && resp.status@ == "Reversed"@
                && resp.reversed_at@ == reversed_at@
                && system_notice(notice, "ReverseJournalEntry"@, "取消処理が完了"@)),
    {
        match stored {
            Err(e) => Err(ApplicationError::DomainError(e)),
            Ok(()) => {
                let reversal = join2("REV-", request.entry_id.as_str());
                let response = ReverseJournalEntryResponse {
                    entry_id: reversal,
                    original_entry_id: request.entry_id,
                    status: from_literal("Reversed"),
                    reversed_at,
                };
                Ok((response, system_success("ReverseJournalEntry", from_literal("取消処理が完了"))))
            },
        }
    }

    /// `begin`, at the time read from the clock, in microseconds since
    /// 1970-01-01 UTC.
    pub fn begin_now(request: &ReverseJournalEntryRequest) -> (r: (EventNotification, String, JournalEntryEvent))
        ensures
            system_notice(r.0, "ReverseJournalEntry"@, "取消処理を開始: "@ + request.entry_id@),
            r.1@ == reversal_id(request.entry_id@),
            r.2 matches JournalEntryEvent::Reversed { entry_id, original_id, reason, reversed_by, reversed_at }
                && entry_id@ == reversal_id(request.entry_id@) && original_id@ == request.entry_id@
                && reason@ == request.reason@ && reversed_by@ == request.user_id@ && reversed_at >= 0,
    {
        let now = utc_now_micros();
        Self::begin(request, now)
    }

    /// `complete`, with the time read from the clock, written in RFC 3339.
    pub fn complete_now(request: ReverseJournalEntryRequest, stored: Result<(), DomainError>) -> (r: ApplicationResult<(
        ReverseJournalEntryResponse,
        EventNotification,
    )>)
        ensures
            stored matches Err(e) ==> r == Err::<(ReverseJournalEntryResponse, EventNotification), ApplicationError>(
                ApplicationError::DomainError(e)),
            stored is Ok ==> (r matches Ok((resp, notice))
                && resp.entry_id@ == reversal_id(request.entry_id@)
                && resp.original_entry_id@ == request.entry_id@
                && resp.status@ == "Reversed"@
                && system_notice(notice, "ReverseJournalEntry"@, "取消処理が完了"@)),
    {
        let at = utc_now_rfc3339();
        Self::complete(request, stored, at)
    }
}

/// The reversing entry is told apart from the original: its identifier is
/// never the original's.
pub proof fn law_reversal_id_differs(entry_id: Seq<char>)
    ensures
        reversal_id(entry_id) != entry_id,
        reversal_id(entry_id).len() == entry_id.len() + 4,
{
    assert(reversal_id(entry_id).len() == entry_id.len() + 4) by {
        reveal_strlit("REV-");
    }
}

} // verus!
