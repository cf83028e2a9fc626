//! Recording what a user did on a screen, and telling the event viewer.

use vstd::prelude::*;
use std::sync::Arc;
use crate::application::clock::utc_now_micros;
use crate::application::error::{ApplicationError, ApplicationResult};
use crate::application::output_port::EventNotification;
use crate::text::{from_literal, push_text};

verus! {

/// What the user did, and where.
#[derive(Clone, Debug)]
pub struct RecordUserActionRequest {
    pub user: String,
    pub location: String,
    pub action: String,
}

/// The record that was kept: its identifier and when it was kept.
#[derive(Clone, Debug)]
pub struct RecordUserActionResponse {
    pub action_id: String,
    /// When it was kept, in microseconds since 1970-01-01 UTC.
    pub recorded_at: i64,
}

/// Records user actions in a repository and reports each to the event viewer.
pub struct RecordUserActionInteractor<R, E> {
    repository: Arc<R>,
    event_output: Arc<E>,
}

/// The text of the notice sent when recording failed.
pub open spec fn failure_notice(action: Seq<char>, error: Seq<char>) -> Seq<char> {
    "操作記録失敗: "@ + action + " - "@ + error
}

/// The text of the error returned when recording failed.
pub open spec fn failure_error(error: Seq<char>) -> Seq<char> {
    "Failed to record user action: "@ + error
}

impl<R, E> RecordUserActionInteractor<R, E> {
    /// An interactor over the given repository and event output.
    pub fn new(repository: Arc<R>, event_output: Arc<E>) -> (r: Self)
        ensures
            r.repository() == repository,
            r.event_output() == event_output,
    {
        RecordUserActionInteractor { repository, event_output }
    }

    /// The repository the actions are kept in.
    pub closed spec fn repository(&self) -> Arc<R> {
        self.repository
    }

    /// Where the notices go.
    pub closed spec fn event_output(&self) -> Arc<E> {
        self.event_output
    }

    /// The repository, to hand it the action.
    pub fn repository_handle(&self) -> (r: &Arc<R>)
        ensures
            *r == self.repository(),
    {
        &self.repository
    }

    /// The notice output, to send it the notice.
    pub fn event_output_handle(&self) -> (r: &Arc<E>)
        ensures
            *r == self.event_output(),
    {
        &self.event_output
    }

    /// What follows the attempt to keep the action: the notice for the
    /// event viewer and the use case's result. `saved` is what the
    /// repository answered: the new record's identifier, or the text of its
    /// error; `recorded_at` is the time to report.
    pub fn conclude(
        request: RecordUserActionRequest,
        saved: Result<String, String>,
        recorded_at: i64,
    ) -> (r: (EventNotification, ApplicationResult<RecordUserActionResponse>))
        ensures
            r.0.user@ == request.user@,
            r.0.location@ == request.location@,
            saved is Ok ==> {
                &&& r.0.success
                &&& r.0.action@ == request.action@
                &&& r.1 matches Ok(resp) && resp.action_id@ == saved->Ok_0@
                    && resp.recorded_at == recorded_at
            },
            saved is Err ==> {
                &&& !r.0.success
                &&& r.0.action@ == failure_notice(request.action@, saved->Err_0@)
                &&& r.1 matches Err(ApplicationError::UseCaseExecutionFailed(m))
                    && m@ == failure_error(saved->Err_0@)
            },
    {
        match saved {
            Ok(action_id) => {
                let response = RecordUserActionResponse { action_id, recorded_at };
                let notice = EventNotification::success(request.user, request.location, request.action);
                (notice, Ok(response))
            },
            Err(e) => {
                let mut text = from_literal("操作記録失敗: ");
                push_text(&mut text, request.action.as_str());
                push_text(&mut text, " - ");
                push_text(&mut text, e.as_str());
                let mut message = from_literal("Failed to record user action: ");
                push_text(&mut message, e.as_str());
                let notice = EventNotification::failure(request.user, request.location, text);
                (notice, Err(ApplicationError::UseCaseExecutionFailed(message)))
            },
        }
    }

    /// `conclude`, with the time read from the clock.
    pub fn conclude_now(
        request: RecordUserActionRequest,
        saved: Result<String, String>,
    ) -> (r: (EventNotification, ApplicationResult<RecordUserActionResponse>))
        ensures
            r.0.user@ == request.user@,
            r.0.location@ == request.location@,
            saved is Ok ==> {
                &&& r.0.success
                &&& r.0.action@ == request.action@
                &&& r.1 matches Ok(resp) && resp.action_id@ == saved->Ok_0@ && resp.recorded_at >= 0
            },
            saved is Err ==> {
                &&& !r.0.success
                &&& r.0.action@ == failure_notice(request.action@, saved->Err_0@)
                &&& r.1 matches Err(ApplicationError::UseCaseExecutionFailed(m))
                    && m@ == failure_error(saved->Err_0@)
            },
    {
        let now = utc_now_micros();
        Self::conclude(request, saved, now)
    }
}

} // verus!
