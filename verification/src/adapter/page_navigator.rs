//! Which screen each view opens, what its first request is, and how the
//! keys of a list screen are read. The terminal loop that draws the screen
//! and reads the keys runs outside; it asks these functions what to do.

use vstd::prelude::*;
use crate::adapter::input_mode::InputMode;
use crate::adapter::view_router::ViewType;
use crate::application::dtos::{ConsolidateLedgerRequest, LockClosingPeriodRequest, PeriodRequest};
use crate::text::{from_literal, join2};

verus! {

/// A key the user pressed.
#[derive(Debug, Clone, Copy, PartialEq, Eq, Structural)]
pub enum Key {
    Esc,
    Enter,
    Up,
    Down,
    Tab,
    BackTab,
    Backspace,
    Char(char),
    Other,
}

/// What a key does on a list screen.
#[derive(Debug, Clone, Copy, PartialEq, Eq, Structural)]
pub enum SelectionAction {
    /// Leave the screen.
    Exit,
    /// Select the row above.
    Previous,
    /// Select the row below.
    Next,
    /// Run the screen's use case.
    Execute,
    /// Nothing.
    Ignore,
}

/// What a key does on a list screen: Esc leaves, Up or k moves up, Down or
/// j moves down, Enter runs the use case where `can_execute`.
pub open spec fn spec_selection_action(key: Key, can_execute: bool) -> SelectionAction {
    match key {
        Key::Esc => SelectionAction::Exit,
        Key::Up => SelectionAction::Previous,
        Key::Char(c) => if c == 'k' {
            SelectionAction::Previous
        } else if c == 'j' {
            SelectionAction::Next
        } else {
            SelectionAction::Ignore
        },
        Key::Down => SelectionAction::Next,
        Key::Enter => if can_execute { SelectionAction::Execute } else { SelectionAction::Ignore },
        _ => SelectionAction::Ignore,
    }
}

/// A use case of the closing process, with its request.
#[derive(Debug, Clone)]
pub enum ClosingRequest {
    ConsolidateLedger(ConsolidateLedgerRequest),
    PrepareClosing(PeriodRequest),
    LockClosingPeriod(LockClosingPeriodRequest),
    GenerateTrialBalance(PeriodRequest),
    GenerateNoteDraft(PeriodRequest),
    AdjustAccounts(PeriodRequest),
    ApplyIfrsValuation(PeriodRequest),
    GenerateFinancialStatements(PeriodRequest),
}

/// How a view runs.
#[derive(Debug, Clone)]
pub enum ScreenPlan {
    /// The journal entry form.
    JournalEntryForm,
    /// The ledger view, a list to browse.
    LedgerView,
    /// A list on which Enter runs the request.
    RunOnEnter(ClosingRequest),
    /// A screen that sends the request as it opens and shows the answer.
    LoadOnOpen(ClosingRequest),
    /// A screen not implemented yet.
    NotImplemented,
}

/// The period the closing screens work on: December 2024.
pub open spec fn closing_period(r: PeriodRequest) -> bool {
    r.fiscal_year == 2024 && r.period == 12
}

/// The plan of each view.
pub open spec fn plan_matches(view: ViewType, p: ScreenPlan) -> bool {
    match view {
        ViewType::JournalEntry => p is JournalEntryForm,
        ViewType::Ledger => p is LedgerView,
        ViewType::LedgerConsolidation => p matches ScreenPlan::RunOnEnter(
            ClosingRequest::ConsolidateLedger(r),
        ) && r.fiscal_year == 2024 && r.period == 12 && r.from_date@ == "2024-12-01"@ && r.to_date@
            == "2024-12-31"@,
        ViewType::TrialBalance => p matches ScreenPlan::RunOnEnter(
            ClosingRequest::GenerateTrialBalance(r),
        ) && closing_period(r),
        ViewType::ClosingPreparation => p matches ScreenPlan::LoadOnOpen(
            ClosingRequest::PrepareClosing(r),
        ) && closing_period(r),
        ViewType::ClosingLock => p matches ScreenPlan::LoadOnOpen(
            ClosingRequest::LockClosingPeriod(r),
        ) && r.fiscal_year == 2024 && r.period == 12 && r.locked_by@ == "system"@,
        ViewType::NoteDraft => p matches ScreenPlan::LoadOnOpen(
            ClosingRequest::GenerateNoteDraft(r),
        ) && closing_period(r),
        ViewType::AccountAdjustment => p matches ScreenPlan::LoadOnOpen(
            ClosingRequest::AdjustAccounts(r),
        ) && closing_period(r),
        ViewType::IfrsValuation => p matches ScreenPlan::LoadOnOpen(
            ClosingRequest::ApplyIfrsValuation(r),
        ) && closing_period(r),
        ViewType::FinancialStatement => p matches ScreenPlan::LoadOnOpen(
            ClosingRequest::GenerateFinancialStatements(r),
        ) && closing_period(r),
        _ => p is NotImplemented,
    }
}

/// The name of a view, as the "not implemented" screen shows it.
pub open spec fn view_name(view: ViewType) -> Seq<char> {
    match view {
        ViewType::Home => "Home"@,
        ViewType::JournalEntry => "JournalEntry"@,
        ViewType::LedgerConsolidation => "LedgerConsolidation"@,
        ViewType::ClosingPreparation => "ClosingPreparation"@,
        ViewType::ClosingLock => "ClosingLock"@,
        ViewType::TrialBalance => "TrialBalance"@,
        ViewType::NoteDraft => "NoteDraft"@,
        ViewType::AccountAdjustment => "AccountAdjustment"@,
        ViewType::IfrsValuation => "IfrsValuation"@,
        ViewType::FinancialStatement => "FinancialStatement"@,
        ViewType::Ledger => "Ledger"@,
        ViewType::AccountMasterManagement => "AccountMasterManagement"@,
        ViewType::CompanyMasterManagement => "CompanyMasterManagement"@,
        ViewType::UserSettingsManagement => "UserSettingsManagement"@,
        ViewType::SystemSettingsManagement => "SystemSettingsManagement"@,
        ViewType::DataBackup => "DataBackup"@,
        ViewType::DataImport => "DataImport"@,
        ViewType::DataExport => "DataExport"@,
    }
}

/// Runs the screens: decides which screen a view opens and what its keys do.
pub struct PageNavigator;

fn period_2024_12() -> (r: PeriodRequest)
    ensures
        closing_period(r),
{
    PeriodRequest { fiscal_year: 2024, period: 12 }
}

impl PageNavigator {
    /// How the view runs: the journal entry form, the ledger view, a list
    /// on which Enter runs ledger consolidation or the trial balance, a
    /// screen that loads a closing result for December 2024 as it opens,
    /// or the "not implemented" screen.
    pub fn plan(view: ViewType) -> (r: ScreenPlan)
        ensures
            plan_matches(view, r),
    {
        match view {
            ViewType::JournalEntry => ScreenPlan::JournalEntryForm,
            ViewType::Ledger => ScreenPlan::LedgerView,
            ViewType::LedgerConsolidation => ScreenPlan::RunOnEnter(
                ClosingRequest::ConsolidateLedger(
                    ConsolidateLedgerRequest {
                        fiscal_year: 2024,
                        period: 12,
                        from_date: from_literal("2024-12-01"),
                        to_date: from_literal("2024-12-31"),
                    },
                ),
            ),
            ViewType::TrialBalance => ScreenPlan::RunOnEnter(
                ClosingRequest::GenerateTrialBalance(period_2024_12()),
            ),
            ViewType::ClosingPreparation => ScreenPlan::LoadOnOpen(
                ClosingRequest::PrepareClosing(period_2024_12()),
            ),
            ViewType::ClosingLock => ScreenPlan::LoadOnOpen(
                ClosingRequest::LockClosingPeriod(
                    LockClosingPeriodRequest {
                        fiscal_year: 2024,
                        period: 12,
                        locked_by: from_literal("system"),
                    },
                ),
            ),
            ViewType::NoteDraft => ScreenPlan::LoadOnOpen(
                ClosingRequest::GenerateNoteDraft(period_2024_12()),
            ),
            ViewType::AccountAdjustment => ScreenPlan::LoadOnOpen(
                ClosingRequest::AdjustAccounts(period_2024_12()),
            ),
            ViewType::IfrsValuation => ScreenPlan::LoadOnOpen(
                ClosingRequest::ApplyIfrsValuation(period_2024_12()),
            ),
            ViewType::FinancialStatement => ScreenPlan::LoadOnOpen(
                ClosingRequest::GenerateFinancialStatements(period_2024_12()),
            ),
            _ => ScreenPlan::NotImplemented,
        }
    }

    /// What a key does on a list screen.
    pub fn selection_action(key: Key, can_execute: bool) -> (r: SelectionAction)
        ensures
            r == spec_selection_action(key, can_execute),
    {
        match key {
            Key::Esc => SelectionAction::Exit,
            Key::Up => SelectionAction::Previous,
            Key::Char(c) => {
                if c == 'k' {
                    SelectionAction::Previous
                } else if c == 'j' {
                    SelectionAction::Next
                } else {
                    SelectionAction::Ignore
                }
            },
            Key::Down => SelectionAction::Next,
            Key::Enter => {
                if can_execute {
                    SelectionAction::Execute
                } else {
                    SelectionAction::Ignore
                }
            },
            _ => SelectionAction::Ignore,
        }
    }

    /// The name of a view.
    pub fn view_name(view: ViewType) -> (r: &'static str)
        ensures
            r@ == view_name(view),
    {
        match view {
            ViewType::Home => "Home",
            ViewType::JournalEntry => "JournalEntry",
            ViewType::LedgerConsolidation => "LedgerConsolidation",
            ViewType::ClosingPreparation => "ClosingPreparation",
            ViewType::ClosingLock => "ClosingLock",
            ViewType::TrialBalance => "TrialBalance",
            ViewType::NoteDraft => "NoteDraft",
            ViewType::AccountAdjustment => "AccountAdjustment",
            ViewType::IfrsValuation => "IfrsValuation",
            ViewType::FinancialStatement => "FinancialStatement",
            ViewType::Ledger => "Ledger",
            ViewType::AccountMasterManagement => "AccountMasterManagement",
            ViewType::CompanyMasterManagement => "CompanyMasterManagement",
            ViewType::UserSettingsManagement => "UserSettingsManagement",
            ViewType::SystemSettingsManagement => "SystemSettingsManagement",
            ViewType::DataBackup => "DataBackup",
            ViewType::DataImport => "DataImport",
            ViewType::DataExport => "DataExport",
        }
    }

    /// The lines of the "not implemented" screen: the notice, the view's
    /// name, and the key that leads back, with empty lines between.
    pub fn not_implemented_lines(view: ViewType) -> (r: Vec<String>)
        ensures
            r@.map_values(|s: String| s@) == seq![
                Seq::<char>::empty(),
                "この機能は未実装です"@,
                Seq::<char>::empty(),
                "画面: "@ + view_name(view),
                Seq::<char>::empty(),
                "[Esc] 戻る"@,
            ],
    {
        let mut r: Vec<String> = Vec::new();
        r.push(String::new());
        r.push(from_literal("この機能は未実装です"));
        r.push(String::new());
        r.push(join2("画面: ", Self::view_name(view)));
        r.push(String::new());
        r.push(from_literal("[Esc] 戻る"));
        proof {
            assert(r@.map_values(|s: String| s@) =~= seq![
                Seq::<char>::empty(),
                "この機能は未実装です"@,
                Seq::<char>::empty(),
                "画面: "@ + view_name(view),
                Seq::<char>::empty(),
                "[Esc] 戻る"@,
            ]);
        }
        r
    }
}

/// What a key does on the journal entry form.
#[derive(Debug, Clone, Copy, PartialEq, Eq, Structural)]
pub enum FormAction {
    /// Leave the form.
    Exit,
    MoveLeft,
    MoveDown,
    MoveUp,
    MoveRight,
    /// Start editing the focused field.
    EnterModify,
    NextEditMode,
    PreviousEditMode,
    AddLine,
    RemoveLine,
    /// Validate the form and send the registration.
    Submit,
    OverlaySelectPrevious,
    OverlaySelectNext,
    OverlayConfirm,
    OverlayCancel,
    /// Type the character into the focused field.
    InputChar(char),
    Backspace,
    /// Stop editing, dropping what was typed.
    CancelModify,
    /// Nothing.
    Ignore,
}

/// What a key does on the journal entry form. Moving the focus: Esc leaves;
/// h, j, k, l move; i edits; m and M switch the edit mode; Tab adds a line
/// and BackTab removes one; Ctrl+s submits unless a submission is under way.
/// Editing with the account list open: k or Up, j or Down move in the list,
/// Enter takes the entry and Esc closes the list. Editing otherwise: a
/// character is typed, Backspace erases, Esc stops editing.
pub open spec fn spec_form_action(
    mode: InputMode,
    overlay_visible: bool,
    submitting: bool,
    key: Key,
    control: bool,
) -> FormAction {
    match mode {
        InputMode::Normal => match key {
            Key::Esc => FormAction::Exit,
            Key::Tab => FormAction::AddLine,
            Key::BackTab => FormAction::RemoveLine,
            Key::Char(c) => if c == 'h' {
                FormAction::MoveLeft
            } else if c == 'j' {
                FormAction::MoveDown
            } else if c == 'k' {
                FormAction::MoveUp
            } else if c == 'l' {
                FormAction::MoveRight
            } else if c == 'i' {
                FormAction::EnterModify
            } else if c == 'm' {
                FormAction::NextEditMode
            } else if c == 'M' {
                FormAction::PreviousEditMode
            } else if c == 's' && control && !submitting {
                FormAction::Submit
            } else {
                FormAction::Ignore
            },
            _ => FormAction::Ignore,
        },
        InputMode::Modify => if overlay_visible {
            match key {
                Key::Up => FormAction::OverlaySelectPrevious,
                Key::Down => FormAction::OverlaySelectNext,
                Key::Char(c) => if c == 'k' {
                    FormAction::OverlaySelectPrevious
                } else if c == 'j' {
                    FormAction::OverlaySelectNext
                } else {
                    FormAction::Ignore
                },
                Key::Enter => FormAction::OverlayConfirm,
                Key::Esc => FormAction::OverlayCancel,
                _ => FormAction::Ignore,
            }
        } else {
            match key {
                Key::Char(c) => FormAction::InputChar(c),
                Key::Backspace => FormAction::Backspace,
                Key::Esc => FormAction::CancelModify,
                _ => FormAction::Ignore,
            }
        },
    }
}

impl PageNavigator {
    /// What a key does on the journal entry form, given the input mode,
    /// whether the account list is open, whether a submission is under way,
    /// and whether Ctrl was held.
    pub fn form_action(mode: InputMode, overlay_visible: bool, submitting: bool, key: Key, control: bool) -> (r:
        FormAction)
        ensures
            r == spec_form_action(mode, overlay_visible, submitting, key, control),
    {
        match mode {
            InputMode::Normal => match key {
                Key::Esc => FormAction::Exit,
                Key::Tab => FormAction::AddLine,
                Key::BackTab => FormAction::RemoveLine,
                Key::Char(c) => if c == 'h' {
                    FormAction::MoveLeft
                } else if c == 'j' {
                    FormAction::MoveDown
                } else if c == 'k' {
                    FormAction::MoveUp
                } else if c == 'l' {
                    FormAction::MoveRight
                } else if c == 'i' {
                    FormAction::EnterModify
                } else if c == 'm' {
                    FormAction::NextEditMode
                } else if c == 'M' {
                    FormAction::PreviousEditMode
                } else if c == 's' && control && !submitting {
                    FormAction::Submit
                } else {
                    FormAction::Ignore
                },
                _ => FormAction::Ignore,
            },
            InputMode::Modify => if overlay_visible {
                match key {
                    Key::Up => FormAction::OverlaySelectPrevious,
                    Key::Down => FormAction::OverlaySelectNext,
                    Key::Char(c) => if c == 'k' {
                        FormAction::OverlaySelectPrevious
                    } else if c == 'j' {
                        FormAction::OverlaySelectNext
                    } else {
                        FormAction::Ignore
                    },
                    Key::Enter => FormAction::OverlayConfirm,
                    Key::Esc => FormAction::OverlayCancel,
                    _ => FormAction::Ignore,
                }
            } else {
                match key {
                    Key::Char(c) => FormAction::InputChar(c),
                    Key::Backspace => FormAction::Backspace,
                    Key::Esc => FormAction::CancelModify,
                    _ => FormAction::Ignore,
                }
            },
        }
    }
}

/// On the form, a submission is never started twice: while one is under
/// way, no key submits.
pub proof fn law_no_second_submission(mode: InputMode, overlay_visible: bool, key: Key, control: bool)
    ensures
        spec_form_action(mode, overlay_visible, true, key, control) != FormAction::Submit,
{
}

/// The arrows and the vi keys agree on a list screen: Up and k both move
/// the selection up, Down and j both move it down, whatever the screen
/// allows.
pub proof fn law_arrows_and_vi_keys_agree(can_execute: bool)
    ensures
        spec_selection_action(Key::Up, can_execute) == spec_selection_action(Key::Char('k'), can_execute),
        spec_selection_action(Key::Down, can_execute) == spec_selection_action(Key::Char('j'), can_execute),
        spec_selection_action(Key::Up, can_execute) == SelectionAction::Previous,
        spec_selection_action(Key::Down, can_execute) == SelectionAction::Next,
        spec_selection_action(Key::Up, can_execute) != spec_selection_action(Key::Down, can_execute),
{
}

/// Enter runs the use case exactly on the screens that allow it.
pub proof fn law_enter_executes_where_allowed(can_execute: bool)
    ensures
        (spec_selection_action(Key::Enter, can_execute) == SelectionAction::Execute) <==> can_execute,
{
}

/// Esc always leaves a list screen, whatever the screen allows.
pub proof fn law_esc_always_exits(can_execute: bool)
    ensures
        spec_selection_action(Key::Esc, can_execute) == SelectionAction::Exit,
{
}

/// Enter runs a use case only on screens that allow it.
pub proof fn law_enter_only_where_allowed(key: Key)
    ensures
        spec_selection_action(key, false) != SelectionAction::Execute,
{
}

} // verus!
