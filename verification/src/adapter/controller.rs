//! Controllers: they take requests from the screens and hand them to the
//! use cases, without business decisions of their own.

use vstd::prelude::*;
use std::sync::Arc;
use crate::adapter::error::{AdapterError, AdapterResult};
use crate::application::dtos::LoadAccountMasterRequest;
use crate::application::error::ApplicationResult;
use crate::application::record_user_action::{RecordUserActionRequest, RecordUserActionResponse};

verus! {

/// Hands account master requests to its use case.
pub struct AccountMasterController<I> {
    interactor: I,
}

impl<I> AccountMasterController<I> {
    /// The use case requests go to.
    pub closed spec fn interactor(&self) -> I {
        self.interactor
    }

    /// A controller over this use case.
    pub fn new(interactor: I) -> (r: Self)
        ensures
            r.interactor() == interactor,
    {
        AccountMasterController { interactor }
    }

    /// The use case, to hand it the request.
    pub fn interactor_handle(&self) -> (r: &I)
        ensures
            *r == self.interactor(),
    {
        &self.interactor
    }

    /// The request handed to the use case: the filter and whether only
    /// active accounts are wanted, as given.
    pub fn request(filter: Option<String>, active_only: bool) -> (r: LoadAccountMasterRequest)
        ensures
            r.filter == filter,
            r.active_only == active_only,
    {
        LoadAccountMasterRequest { filter, active_only }
    }
}

/// Hands the monthly closing requests to their use cases.
pub struct ClosingController<Consolidate, Prepare, Lock, TrialBalance, NoteDraft, Adjust, Ifrs, Financial> {
    consolidate_ledger: Arc<Consolidate>,
    prepare_closing: Arc<Prepare>,
    lock_closing_period: Arc<Lock>,
    generate_trial_balance: Arc<TrialBalance>,
    generate_note_draft: Arc<NoteDraft>,
    adjust_accounts: Arc<Adjust>,
    apply_ifrs_valuation: Arc<Ifrs>,
    generate_financial_statements: Arc<Financial>,
}

impl<Consolidate, Prepare, Lock, TrialBalance, NoteDraft, Adjust, Ifrs, Financial> ClosingController<
    Consolidate,
    Prepare,
    Lock,
    TrialBalance,
    NoteDraft,
    Adjust,
    Ifrs,
    Financial,
> {
    /// The use cases, in the order of the closing process.
    pub closed spec fn use_cases(&self) -> (
        Arc<Consolidate>,
        Arc<Prepare>,
        Arc<Lock>,
        Arc<TrialBalance>,
        Arc<NoteDraft>,
        Arc<Adjust>,
        Arc<Ifrs>,
        Arc<Financial>,
    ) {
        (
            self.consolidate_ledger,
            self.prepare_closing,
            self.lock_closing_period,
            self.generate_trial_balance,
            self.generate_note_draft,
            self.adjust_accounts,
            self.apply_ifrs_valuation,
            self.generate_financial_statements,
        )
    }

    /// A controller over these use cases.
    pub fn new(
        consolidate_ledger: Arc<Consolidate>,
        prepare_closing: Arc<Prepare>,
        lock_closing_period: Arc<Lock>,
        generate_trial_balance: Arc<TrialBalance>,
        generate_note_draft: Arc<NoteDraft>,
        adjust_accounts: Arc<Adjust>,
        apply_ifrs_valuation: Arc<Ifrs>,
        generate_financial_statements: Arc<Financial>,
    ) -> (r: Self)
        ensures
            r.use_cases() == (
                consolidate_ledger,
                prepare_closing,
                lock_closing_period,
                generate_trial_balance,
                generate_note_draft,
                adjust_accounts,
                apply_ifrs_valuation,
                generate_financial_statements,
            ),
    {
        ClosingController {
            consolidate_ledger,
            prepare_closing,
            lock_closing_period,
            generate_trial_balance,
            generate_note_draft,
            adjust_accounts,
            apply_ifrs_valuation,
            generate_financial_statements,
        }
    }
}

impl<Consolidate, Prepare, Lock, TrialBalance, NoteDraft, Adjust, Ifrs, Financial> ClosingController<
    Consolidate,
    Prepare,
    Lock,
    TrialBalance,
    NoteDraft,
    Adjust,
    Ifrs,
    Financial,
> {
    /// What a closing screen is answered once its use case has run: the
    /// use case's response, or its error as an adapter error.
    pub fn answer<T>(result: ApplicationResult<T>) -> (r: AdapterResult<T>)
        ensures
            result is Ok <==> r is Ok,
            r is Ok ==> r->Ok_0 == result->Ok_0,
            r is Err ==> r->Err_0 == AdapterError::ApplicationError(result->Err_0),
    {
        match result {
            Ok(response) => Ok(response),
            Err(e) => Err(AdapterError::ApplicationError(e)),
        }
    }
}

/// Hands ledger and trial balance queries to the query service.
pub struct LedgerController<L> {
    ledger_query_service: Arc<L>,
}

impl<L> LedgerController<L> {
    /// The query service.
    pub closed spec fn query_service(&self) -> Arc<L> {
        self.ledger_query_service
    }

    /// A controller over this query service.
    pub fn new(ledger_query_service: Arc<L>) -> (r: Self)
        ensures
            r.query_service() == ledger_query_service,
    {
        LedgerController { ledger_query_service }
    }
}

/// Hands what a user did to the use case that records it.
pub struct RecordUserActionController<U> {
    use_case: Arc<U>,
}

impl<U> RecordUserActionController<U> {
    /// The use case.
    pub closed spec fn use_case(&self) -> Arc<U> {
        self.use_case
    }

    /// A controller over this use case.
    pub fn new(use_case: Arc<U>) -> (r: Self)
        ensures
            r.use_case() == use_case,
    {
        RecordUserActionController { use_case }
    }

    /// The use case, to hand it the request.
    pub fn use_case_handle(&self) -> (r: &Arc<U>)
        ensures
            *r == self.use_case(),
    {
        &self.use_case
    }

    /// The request handed to the use case for this action.
    pub fn request(user: String, location: String, action: String) -> (r: RecordUserActionRequest)
        ensures
            r.user@ == user@,
            r.location@ == location@,
            r.action@ == action@,
    {
        RecordUserActionRequest { user, location, action }
    }

    /// What the caller is answered: the use case's response, or the text
    /// of its error.
    pub fn reply(result: ApplicationResult<RecordUserActionResponse>) -> (r: Result<
        RecordUserActionResponse,
        String,
    >)
        ensures
            result is Ok <==> r is Ok,
            r is Ok ==> r->Ok_0 == result->Ok_0,
            r is Err ==> r->Err_0@ == result->Err_0.spec_message(),
    {
        match result {
            Ok(response) => Ok(response),
            Err(e) => Err(e.message()),
        }
    }
}

} // verus!
