//! Registering journal entries: a new draft entry, and a replacement entry
//! that first clears an earlier valuation and then books the new one.
//!
//! Registration alternates its own decisions with outside work: the voucher
//! number generator, the domain's rules on dates, voucher numbers, lines and
//! entries, the event store and the presenter are reached asynchronously
//! from outside. The course of each registration is a step function here,
//! from where it stands and what the outside answered to where it goes next
//! and what is to be done: `start` and `step`. Its decisions are steps of
//! their own: the start notices and progress texts, reading the transaction
//! date, whether a voucher number must be generated and for which year,
//! whether debits equal credits, what each refusal is reported and returned
//! as, and what follows the store's answer.

use vstd::prelude::*;
use std::sync::Arc;
use chrono::{Datelike, NaiveDate};
use uuid::Uuid;
use crate::application::error::{ApplicationError, ApplicationResult};
use crate::application::journal_entry_commands::{system_notice, system_success};
use crate::application::output_port::EventNotification;
use crate::domain::error::DomainError;
use crate::text::{from_literal, join2, push_text, text_eq, views};

verus! {

// Requests and the result

/// One line of a journal entry as entered. Amounts are integers in the
/// smallest unit of the currency.
#[derive(Debug, Clone)]
pub struct JournalEntryLineDto {
    pub line_number: u32,
    /// "Debit" or "Credit".
    pub side: String,
    pub account_code: String,
    pub sub_account_code: Option<String>,
    pub department_code: Option<String>,
    pub amount: i64,
    pub currency: String,
    pub tax_type: String,
    pub tax_amount: i64,
    pub description: Option<String>,
}

/// A journal entry to register as a draft. An empty voucher number asks
/// for one to be generated.
#[derive(Debug, Clone)]
pub struct RegisterJournalEntryRequest {
    /// The transaction date, as "YYYY-MM-DD".
    pub transaction_date: String,
    pub voucher_number: String,
    pub lines: Vec<JournalEntryLineDto>,
    pub user_id: String,
}

/// A replacement entry, referring to the entry whose valuation it replaces.
#[derive(Debug, Clone)]
pub struct CreateReplacementEntryRequest {
    pub reference_entry_id: String,
    /// The transaction date, as "YYYY-MM-DD".
    pub transaction_date: String,
    pub voucher_number: String,
    pub lines: Vec<JournalEntryLineDto>,
    pub user_id: String,
}

/// A registered entry, as presented: its identifier and its status.
#[derive(Debug, Clone)]
pub struct RegisteredEntryResponse {
    pub entry_id: String,
    pub status: String,
}

/// A step that refused the request: the text reported to the presenter as
/// an error, and the error returned.
#[derive(Debug, Clone)]
pub struct Refusal {
    pub notice: String,
    pub error: ApplicationError,
}

/// A calendar date, as plain values: the year, the month (1 to 12) and the
/// day of the month (1 to 31).
#[derive(Debug, Clone, Copy, PartialEq, Eq, Structural)]
pub struct CalendarDate {
    pub year: i32,
    pub month: u32,
    pub day: u32,
}

/// A date as a triple of integers: year, month, day.
pub open spec fn date_fields(d: CalendarDate) -> (int, int, int) {
    (d.year as int, d.month as int, d.day as int)
}

// The outside calls

/// What chrono reads from a text in the form "%Y-%m-%d": the date's year,
/// month and day, or the text of its error.
pub uninterp spec fn ymd_parse(s: Seq<char>) -> Result<(int, int, int), Seq<char>>;

/// Whether chrono reads the text as a date in the form "%Y-%m-%d".
pub open spec fn ymd_parses(s: Seq<char>) -> bool {
    ymd_parse(s) is Ok
}

/// The date chrono reads from the text, as year, month and day.
pub open spec fn ymd_date(s: Seq<char>) -> (int, int, int) {
    ymd_parse(s)->Ok_0
}

/// The text of chrono's error when it cannot read the text as such a date.
pub open spec fn ymd_parse_error(s: Seq<char>) -> Seq<char> {
    ymd_parse(s)->Err_0
}

/// Reads a date in the form "%Y-%m-%d" with chrono's
/// `NaiveDate::parse_from_str`, and gives its year, month and day (chrono's
/// `Datelike` accessors), or the text of chrono's error. What is read is
/// named `ymd_parse`; of it, only what chrono's dates always satisfy is
/// stated: the year lies between -262143 and 262142, the month between 1
/// and 12 and the day between 1 and 31.
#[verifier::external_body]
fn parse_ymd(s: &str) -> (r: Result<CalendarDate, String>)
    ensures
        r is Ok <==> ymd_parse(s@) is Ok,
        r is Ok ==> date_fields(r->Ok_0) == ymd_parse(s@)->Ok_0,
        r is Ok ==> -262143 <= r->Ok_0.year <= 262142 && 1 <= r->Ok_0.month <= 12 && 1 <= r->Ok_0.day <= 31,
        r is Err ==> r->Err_0@ == ymd_parse(s@)->Err_0,
{
    match NaiveDate::parse_from_str(s, "%Y-%m-%d") {
        Ok(d) => Ok(CalendarDate { year: d.year(), month: d.month(), day: d.day() }),
        Err(e) => Err(e.to_string()),
    }
}

/// Whether a text is written as uuid writes an identifier: 36 characters,
/// hyphens at 8, 13, 18 and 23, lowercase hexadecimal digits elsewhere.
pub open spec fn uuid_text(s: Seq<char>) -> bool {
    &&& s.len() == 36
    &&& forall|i: int|
        0 <= i < 36 ==> if i == 8 || i == 13 || i == 18 || i == 23 {
            #[trigger] s[i] == '-'
        } else {
            ('0' <= s[i] <= '9') || ('a' <= s[i] <= 'f')
        }
}

/// A random identifier (uuid's `Uuid::new_v4`, written by its `Display`).
/// Of the result only its form is stated: uuid writes it hyphenated in
/// lowercase hexadecimal, with the version digit '4' at 14. Which
/// identifier comes out rests on the system's random number generator, and
/// uuid stops the program if that generator fails.
#[verifier::external_body]
fn random_uuid_text() -> (s: String)
    ensures
        uuid_text(s@),
        s@[14] == '4',
{
    Uuid::new_v4().to_string()
}

/// A fresh identifier for a new journal entry: a random uuid.
pub fn new_entry_id() -> (r: String)
    ensures
        uuid_text(r@),
        r@[14] == '4',
{
    random_uuid_text()
}

// Texts

/// The error that carries one validation message.
pub open spec fn single_validation(e: ApplicationError, m: Seq<char>) -> bool {
    e matches ApplicationError::ValidationFailed(ms) && ms@.len() == 1 && ms@[0]@ == m
}

fn single_validation_error(m: String) -> (r: ApplicationError)
    ensures
        single_validation(r, m@),
{
    let mut ms: Vec<String> = Vec::new();
    ms.push(m);
    ApplicationError::ValidationFailed(ms)
}

/// The message of a date that could not be read.
pub open spec fn bad_date_message(date: Seq<char>, error: Seq<char>) -> Seq<char> {
    "日付形式が不正です: "@ + date + " (エラー: "@ + error + ")"@
}

/// The stages of registration, each announced to the presenter as it begins.
#[derive(Debug, Clone, Copy, PartialEq, Eq, Structural)]
pub enum RegistrationStage {
    Validating,
    GeneratingVoucher,
    CreatingLines,
    CheckingBalance,
    CreatingEntry,
    Storing,
    Completing,
}

/// The progress text of each stage.
pub open spec fn stage_text(stage: RegistrationStage) -> Seq<char> {
    match stage {
        RegistrationStage::Validating => "入力データを検証しています..."@,
        RegistrationStage::GeneratingVoucher => "伝票番号を自動生成しています..."@,
        RegistrationStage::CreatingLines => "仕訳明細を作成しています..."@,
        RegistrationStage::CheckingBalance => "借貸バランスを検証しています..."@,
        RegistrationStage::CreatingEntry => "仕訳エンティティを作成しています..."@,
        RegistrationStage::Storing => "イベントストアへ保存しています..."@,
        RegistrationStage::Completing => "登録処理を完了しています..."@,
    }
}

/// The steps at which a domain rule or the store can refuse a registration.
#[derive(Debug, Clone, Copy, PartialEq, Eq, Structural)]
pub enum RefusedAt {
    /// The transaction date is not acceptable.
    TransactionDate,
    /// No voucher number could be generated.
    VoucherGeneration,
    /// The voucher number is not acceptable.
    VoucherNumber,
    /// Debits and credits differ.
    Balance,
    /// The entry could not be created.
    Entry,
    /// The event store did not keep the entry.
    Store,
}

/// How a refusal at each step begins; the domain's message follows.
pub open spec fn refusal_prefix(at: RefusedAt) -> Seq<char> {
    match at {
        RefusedAt::TransactionDate => "取引日付が無効です: "@,
        RefusedAt::VoucherGeneration => "伝票番号の自動生成に失敗しました: "@,
        RefusedAt::VoucherNumber => "伝票番号が無効です: "@,
        RefusedAt::Balance => "借貸バランスが一致しません: "@,
        RefusedAt::Entry => "仕訳エンティティの作成に失敗しました: "@,
        RefusedAt::Store => "イベントストアへの保存に失敗しました: "@,
    }
}

fn prefix_of(at: RefusedAt) -> (r: &'static str)
    ensures
        r@ == refusal_prefix(at),
{
    match at {
        RefusedAt::TransactionDate => "取引日付が無効です: ",
        RefusedAt::VoucherGeneration => "伝票番号の自動生成に失敗しました: ",
        RefusedAt::VoucherNumber => "伝票番号が無効です: ",
        RefusedAt::Balance => "借貸バランスが一致しません: ",
        RefusedAt::Entry => "仕訳エンティティの作成に失敗しました: ",
        RefusedAt::Store => "イベントストアへの保存に失敗しました: ",
    }
}

/// A refusal by the domain at a step: reported with the step's prefix and
/// the domain's message, returned as a domain error.
pub open spec fn domain_refusal(r: Refusal, at: RefusedAt, e: DomainError) -> bool {
    r.notice@ == refusal_prefix(at) + e.spec_message() && r.error == ApplicationError::DomainError(e)
}

/// A date's year as the voucher generator is handed it: as a `u32`, so
/// that a year before 0 wraps around.
pub open spec fn as_fiscal_year(y: int) -> int {
    if y >= 0 {
        y
    } else {
        y + 0x1_0000_0000
    }
}

/// Registers journal entries as drafts.
pub struct RegisterJournalEntryInteractor<R, E, O, V> {
    event_repository: Arc<R>,
    event_output: Arc<E>,
    output_port: Arc<O>,
    voucher_generator: Arc<V>,
}

impl<R, E, O, V> RegisterJournalEntryInteractor<R, E, O, V> {
    /// The store, the notice output, the presenter and the voucher generator.
    pub closed spec fn parts(&self) -> (Arc<R>, Arc<E>, Arc<O>, Arc<V>) {
        (self.event_repository, self.event_output, self.output_port, self.voucher_generator)
    }

    /// An interactor over these parts.
    pub fn new(event_repository: Arc<R>, event_output: Arc<E>, output_port: Arc<O>, voucher_generator: Arc<V>) -> (r: Self)
        ensures
            r.parts() == (event_repository, event_output, output_port, voucher_generator),
    {
        RegisterJournalEntryInteractor { event_repository, event_output, output_port, voucher_generator }
    }

    /// The start notice, and the progress text of the first stage.
    pub fn begin() -> (r: (EventNotification, String))
        ensures
            system_notice(r.0, "RegisterJournalEntry"@, "仕訳登録を開始"@),
            r.1@ == stage_text(RegistrationStage::Validating),
    {
        let notice = system_success("RegisterJournalEntry", from_literal("仕訳登録を開始"));
        (notice, Self::progress(RegistrationStage::Validating))
    }

    /// The progress text announced as a stage begins.
    pub fn progress(stage: RegistrationStage) -> (r: String)
        ensures
            r@ == stage_text(stage),
    {
        match stage {
            RegistrationStage::Validating => from_literal("入力データを検証しています..."),
            RegistrationStage::GeneratingVoucher => from_literal("伝票番号を自動生成しています..."),
            RegistrationStage::CreatingLines => from_literal("仕訳明細を作成しています..."),
            RegistrationStage::CheckingBalance => from_literal("借貸バランスを検証しています..."),
            RegistrationStage::CreatingEntry => from_literal("仕訳エンティティを作成しています..."),
            RegistrationStage::Storing => from_literal("イベントストアへ保存しています..."),
            RegistrationStage::Completing => from_literal("登録処理を完了しています..."),
        }
    }

    /// What follows reading the transaction date: the date, or a validation
    /// error whose one message, also reported, gives the text and chrono's
    /// reason.
    pub fn check_date(date: &str, parsed: Result<CalendarDate, String>) -> (r: Result<CalendarDate, Refusal>)
        ensures
            parsed is Ok <==> r is Ok,
            parsed is Ok ==> r->Ok_0 == parsed->Ok_0,
            parsed is Err ==> {
                &&& r->Err_0.notice@ == bad_date_message(date@, parsed->Err_0@)
                &&& single_validation(r->Err_0.error, bad_date_message(date@, parsed->Err_0@))
            },
    {
        match parsed {
            Ok(d) => Ok(d),
            Err(e) => {
                let mut m = from_literal("日付形式が不正です: ");
                push_text(&mut m, date);
                push_text(&mut m, " (エラー: ");
                push_text(&mut m, e.as_str());
                push_text(&mut m, ")");
                let notice = from_literal(m.as_str());
                Err(Refusal { notice, error: single_validation_error(m) })
            },
        }
    }

    /// Reads the transaction date: the date chrono reads in the form
    /// "%Y-%m-%d", else the validation error of `check_date`.
    pub fn read_date(date: &str) -> (r: Result<CalendarDate, Refusal>)
        ensures
            r is Ok <==> ymd_parses(date@),
            r is Ok ==> date_fields(r->Ok_0) == ymd_date(date@),
            r is Err ==> {
                &&& r->Err_0.notice@ == bad_date_message(date@, ymd_parse_error(date@))
                &&& single_validation(r->Err_0.error, bad_date_message(date@, ymd_parse_error(date@)))
            },
    {
        let parsed = parse_ymd(date);
        Self::check_date(date, parsed)
    }

    /// Whether the voucher number must be generated: it is left empty.
    pub fn needs_voucher(voucher: &str) -> (r: bool)
        ensures
            r == (voucher@.len() == 0),
    {
        voucher.unicode_len() == 0
    }

    /// The fiscal year for which a voucher number is generated: the year of
    /// the transaction date, as a `u32`.
    pub fn voucher_fiscal_year(date: &CalendarDate) -> (r: u32)
        ensures
            r == as_fiscal_year(date.year as int),
    {
        let y = date.year;
        let r: u32 = if y >= 0 {
            y as u32
        } else {
            (y as i64 + 0x1_0000_0000i64) as u32
        };
        assert(r == as_fiscal_year(y as int));
        r
    }

    /// A refusal by the domain at a step: the step's prefix and the
    /// domain's message are reported, and the domain error is returned.
    pub fn refuse(at: RefusedAt, error: DomainError) -> (r: Refusal)
        ensures
            domain_refusal(r, at, error),
    {
        let m = error.message();
        let notice = join2(prefix_of(at), m.as_str());
        Refusal { notice, error: ApplicationError::DomainError(error) }
    }

    /// The lines could not be created: the reason is reported after
    /// "仕訳明細の作成に失敗しました: ", and the error is returned as it came.
    pub fn refuse_lines(error: ApplicationError) -> (r: Refusal)
        ensures
            r.notice@ == "仕訳明細の作成に失敗しました: "@ + error.spec_message(),
            r.error == error,
    {
        let m = error.message();
        let notice = join2("仕訳明細の作成に失敗しました: ", m.as_str());
        Refusal { notice, error }
    }

    /// What follows the store's answer. Kept: the entry with its identifier
    /// and status is presented, the done notice is sent, and registration
    /// succeeds. Not kept: nothing is presented and no done notice is sent;
    /// the store's error is reported and returned.
    pub fn complete(entry_id: String, status: String, stored: Result<(), DomainError>) -> (r: (
        Option<RegisteredEntryResponse>,
        Option<EventNotification>,
        Result<(), Refusal>,
    ))
        ensures
            stored matches Err(e) ==> {
                &&& r.0 is None
                &&& r.1 is None
                &&& r.2 matches Err(refusal) && domain_refusal(refusal, RefusedAt::Store, e)
            },
            stored is Ok ==> {
                &&& r.0 matches Some(resp) && resp.entry_id@ == entry_id@ && resp.status@ == status@
                &&& r.1 matches Some(n) && system_notice(n, "RegisterJournalEntry"@, "仕訳登録が完了"@)
                &&& r.2 is Ok
            },
    {
        match stored {
            Err(e) => (None, None, Err(Self::refuse(RefusedAt::Store, e))),
            Ok(()) => {
                let response = RegisteredEntryResponse { entry_id, status };
                let notice = system_success("RegisterJournalEntry", from_literal("仕訳登録が完了"));
                (Some(response), Some(notice), Ok(()))
            },
        }
    }
}

// Debits and credits

/// The total of the amounts booked on one side ("Debit" or "Credit").
pub open spec fn side_total(lines: Seq<JournalEntryLineDto>, side: Seq<char>) -> int
    decreases lines.len(),
{
    if lines.len() == 0 {
        0
    } else {
        side_total(lines.drop_last(), side) + if lines.last().side@ == side {
            lines.last().amount as int
        } else {
            0
        }
    }
}

/// Whether the debits equal the credits.
pub open spec fn balanced(lines: Seq<JournalEntryLineDto>) -> bool {
    side_total(lines, "Debit"@) == side_total(lines, "Credit"@)
}

/// Checks that the entry's debits equal its credits.
pub fn check_balance(lines: &Vec<JournalEntryLineDto>) -> (r: Result<(), DomainError>)
    ensures
        r is Ok <==> balanced(lines@),
        r is Err ==> r == Err::<(), DomainError>(DomainError::UnbalancedEntry),
{
    proof {
        reveal_strlit("Debit");
        reveal_strlit("Credit");
        assert("Debit"@.len() == 5 && "Credit"@.len() == 6);
    }
    let mut debit: i128 = 0;
    let mut credit: i128 = 0;
    let mut i: usize = 0;
    while i < lines.len()
        invariant
            i <= lines.len(),
            "Debit"@ != "Credit"@,
            debit == side_total(lines@.take(i as int), "Debit"@),
            credit == side_total(lines@.take(i as int), "Credit"@),
            -(i as int) * 0x8000_0000_0000_0000 <= debit <= (i as int) * 0x8000_0000_0000_0000,
            -(i as int) * 0x8000_0000_0000_0000 <= credit <= (i as int) * 0x8000_0000_0000_0000,
        decreases lines.len() - i,
    {
        let line = &lines[i];
        proof {
            assert(lines@.take(i + 1).drop_last() =~= lines@.take(i as int));
            assert(lines@.take(i + 1).last() == lines@[i as int]);
        }
        if text_eq(line.side.as_str(), "Debit") {
            debit = debit + line.amount as i128;
        } else if text_eq(line.side.as_str(), "Credit") {
            credit = credit + line.amount as i128;
        }
        i = i + 1;
    }
    proof {
        assert(lines@.take(lines.len() as int) =~= lines@);
    }
    if debit == credit {
        Ok(())
    } else {
        Err(DomainError::UnbalancedEntry)
    }
}

/// The side a line is booked on once debits and credits are exchanged.
pub open spec fn swapped_side(side: Seq<char>) -> Seq<char> {
    if side == "Debit"@ {
        "Credit"@
    } else if side == "Credit"@ {
        "Debit"@
    } else {
        side
    }
}

/// `b` is `a` with every line booked on the other side, the amounts kept.
pub open spec fn sides_swapped(a: Seq<JournalEntryLineDto>, b: Seq<JournalEntryLineDto>) -> bool {
    &&& a.len() == b.len()
    &&& forall|i: int|
        0 <= i < a.len() ==> #[trigger] b[i].side@ == swapped_side(a[i].side@) && b[i].amount == a[i].amount
}

proof fn lemma_swapped_totals(a: Seq<JournalEntryLineDto>, b: Seq<JournalEntryLineDto>)
    requires
        sides_swapped(a, b),
    ensures
        side_total(b, "Debit"@) == side_total(a, "Credit"@),
        side_total(b, "Credit"@) == side_total(a, "Debit"@),
    decreases a.len(),
{
    reveal_strlit("Debit");
    reveal_strlit("Credit");
    assert("Debit"@.len() == 5 && "Credit"@.len() == 6);
    if a.len() > 0 {
        let n = a.len() - 1;
        assert forall|i: int| 0 <= i < a.drop_last().len() implies #[trigger] b.drop_last()[i].side@ == swapped_side(
            a.drop_last()[i].side@,
        ) && b.drop_last()[i].amount == a.drop_last()[i].amount by {
            assert(b[i].side@ == swapped_side(a[i].side@));
        }
        lemma_swapped_totals(a.drop_last(), b.drop_last());
        assert(b[n].side@ == swapped_side(a[n].side@));
    }
}

/// Debits equal credits, whichever way the entry is read: the check passes
/// exactly when the debit total equals the credit total, so an entry whose
/// credits exceed its debits is refused as surely as one whose debits exceed
/// its credits, and exchanging the sides of every line never changes the
/// verdict.
pub proof fn law_balance_is_equality(lines: Seq<JournalEntryLineDto>, swapped: Seq<JournalEntryLineDto>)
    ensures
        side_total(lines, "Credit"@) > side_total(lines, "Debit"@) ==> !balanced(lines),
        side_total(lines, "Debit"@) > side_total(lines, "Credit"@) ==> !balanced(lines),
        side_total(lines, "Debit"@) == side_total(lines, "Credit"@) ==> balanced(lines),
        sides_swapped(lines, swapped) ==> (balanced(swapped) <==> balanced(lines)),
{
    if sides_swapped(lines, swapped) {
        lemma_swapped_totals(lines, swapped);
    }
}

// The course of a registration

/// Where a registration stands: what it awaits from outside.
#[derive(Debug, Clone)]
pub enum RegistrationState {
    /// The domain's check of the transaction date.
    DateRule { date: CalendarDate, voucher_number: String },
    /// A generated voucher number.
    VoucherGeneration { date: CalendarDate },
    /// The domain's check of the voucher number.
    VoucherRule { date: CalendarDate, voucher_number: String },
    /// The entry's lines, made by the domain from the request's.
    Lines { date: CalendarDate, voucher_number: String },
    /// The entry, made by the domain; it answers the entry's status.
    Entry { entry_id: String },
    /// The store's answer.
    Store { entry_id: String, status: String },
    /// Nothing: the registration is over.
    Over,
}

/// What the outside answered.
#[derive(Debug)]
pub enum RegistrationEvent {
    /// A domain check (of the date, or of the voucher number).
    Checked(Result<(), DomainError>),
    /// The voucher number generator's answer.
    VoucherGenerated(Result<String, DomainError>),
    /// Whether the lines could be made.
    LinesMade(ApplicationResult<()>),
    /// The entry's status, or why it could not be made.
    EntryMade(Result<String, DomainError>),
    /// The store's answer.
    Stored(Result<(), DomainError>),
}

/// What is to be done next.
#[derive(Debug, Clone)]
pub enum RegistrationAction {
    /// Have the domain check the transaction date.
    CheckTransactionDate(CalendarDate),
    /// Have a voucher number generated for the fiscal year.
    GenerateVoucher(u32),
    /// Have the domain check the voucher number.
    CheckVoucherNumber(String),
    /// Have the domain make the lines from the request's.
    MakeLines,
    /// Have the domain make the entry.
    MakeEntry { entry_id: String, date: CalendarDate, voucher_number: String },
    /// Append the entry's events to the store.
    AppendEvents(String),
    /// Present the response, send the notice, and succeed.
    Complete { response: RegisteredEntryResponse, notice: EventNotification },
    /// Report the refusal's text, and fail with its error.
    Fail(Refusal),
}

/// One step: the state reached, the progress texts to announce (in order,
/// before the action), and the action.
#[derive(Debug, Clone)]
pub struct RegistrationStep {
    pub state: RegistrationState,
    pub progress: Vec<String>,
    pub action: RegistrationAction,
}

/// Whether the state awaits this kind of answer.
pub open spec fn awaits(state: RegistrationState, event: RegistrationEvent) -> bool {
    match state {
        RegistrationState::DateRule { .. } => event is Checked,
        RegistrationState::VoucherGeneration { .. } => event is VoucherGenerated,
        RegistrationState::VoucherRule { .. } => event is Checked,
        RegistrationState::Lines { .. } => event is LinesMade,
        RegistrationState::Entry { .. } => event is EntryMade,
        RegistrationState::Store { .. } => event is Stored,
        RegistrationState::Over => false,
    }
}

/// The step is a refusal, with nothing announced.
pub open spec fn refused_with(r: RegistrationStep, at: RefusedAt, e: DomainError) -> bool {
    &&& r.state is Over
    &&& r.progress@.len() == 0
    &&& r.action matches RegistrationAction::Fail(f) && domain_refusal(f, at, e)
}

fn stage_list1(a: RegistrationStage) -> (r: Vec<String>)
    ensures
        views(r@) == seq![stage_text(a)],
{
    let mut v: Vec<String> = Vec::new();
    v.push(RegisterJournalEntryInteractor::<(), (), (), ()>::progress(a));
    proof {
        assert(views(v@) =~= seq![stage_text(a)]);
    }
    v
}

fn stage_list2(a: RegistrationStage, b: RegistrationStage) -> (r: Vec<String>)
    ensures
        views(r@) == seq![stage_text(a), stage_text(b)],
{
    let mut v: Vec<String> = Vec::new();
    v.push(RegisterJournalEntryInteractor::<(), (), (), ()>::progress(a));
    v.push(RegisterJournalEntryInteractor::<(), (), (), ()>::progress(b));
    proof {
        assert(views(v@) =~= seq![stage_text(a), stage_text(b)]);
    }
    v
}

impl<R, E, O, V> RegisterJournalEntryInteractor<R, E, O, V> {
    /// Starts a registration: the start notice, and the first step, which
    /// announces validation and then reads the transaction date. A date
    /// chrono cannot read ends the registration with the date refusal;
    /// else the domain is asked to check the date read.
    pub fn start(request: &RegisterJournalEntryRequest) -> (r: (EventNotification, RegistrationStep))
        ensures
            system_notice(r.0, "RegisterJournalEntry"@, "仕訳登録を開始"@),
            views(r.1.progress@) == seq![stage_text(RegistrationStage::Validating)],
            !ymd_parses(request.transaction_date@) ==> {
                &&& r.1.state is Over
                &&& r.1.action matches RegistrationAction::Fail(f) && f.notice@ == bad_date_message(
                    request.transaction_date@,
                    ymd_parse_error(request.transaction_date@),
                ) && single_validation(
                    f.error,
                    bad_date_message(request.transaction_date@, ymd_parse_error(request.transaction_date@)),
                )
            },
            ymd_parses(request.transaction_date@) ==> {
                &&& r.1.state matches RegistrationState::DateRule { date, voucher_number } && date_fields(date)
                    == ymd_date(request.transaction_date@) && voucher_number@ == request.voucher_number@
                &&& r.1.action matches RegistrationAction::CheckTransactionDate(d) && date_fields(d) == ymd_date(
                    request.transaction_date@,
                )
            },
    {
        let (notice, _) = Self::begin();
        let progress = stage_list1(RegistrationStage::Validating);
        match Self::read_date(request.transaction_date.as_str()) {
            Err(refusal) => (notice, RegistrationStep { state: RegistrationState::Over, progress, action: RegistrationAction::Fail(refusal) }),
            Ok(date) => (
                notice,
                RegistrationStep {
                    state: RegistrationState::DateRule { date, voucher_number: request.voucher_number.clone() },
                    progress,
                    action: RegistrationAction::CheckTransactionDate(date),
                },
            ),
        }
    }

    /// Whether the state awaits this kind of answer.
    pub fn accepts(state: &RegistrationState, event: &RegistrationEvent) -> (r: bool)
        ensures
            r == awaits(*state, *event),
    {
        match state {
            RegistrationState::DateRule { .. } => matches!(event, RegistrationEvent::Checked(_)),
            RegistrationState::VoucherGeneration { .. } => matches!(event, RegistrationEvent::VoucherGenerated(_)),
            RegistrationState::VoucherRule { .. } => matches!(event, RegistrationEvent::Checked(_)),
            RegistrationState::Lines { .. } => matches!(event, RegistrationEvent::LinesMade(_)),
            RegistrationState::Entry { .. } => matches!(event, RegistrationEvent::EntryMade(_)),
            RegistrationState::Store { .. } => matches!(event, RegistrationEvent::Stored(_)),
            RegistrationState::Over => false,
        }
    }

    /// The next step of a registration, from the answer it awaited. The
    /// request's lines are those whose debits and credits are weighed once
    /// the domain has made the lines.
    pub fn step(state: RegistrationState, event: RegistrationEvent, lines: &Vec<JournalEntryLineDto>) -> (r:
        RegistrationStep)
        requires
            awaits(state, event),
        ensures
            (state, event) matches (RegistrationState::DateRule { .. }, RegistrationEvent::Checked(Err(e)))
                ==> refused_with(r, RefusedAt::TransactionDate, e),
            (state, event) matches (RegistrationState::DateRule { date, voucher_number }, RegistrationEvent::Checked(
                Ok(_),
            )) ==> if voucher_number@.len() == 0 {
                &&& r.state == RegistrationState::VoucherGeneration { date }
                &&& views(r.progress@) == seq![stage_text(RegistrationStage::GeneratingVoucher)]
                &&& r.action matches RegistrationAction::GenerateVoucher(y) && y == as_fiscal_year(date.year as int)
            } else {
                &&& r.state == RegistrationState::VoucherRule { date, voucher_number }
                &&& r.progress@.len() == 0
                &&& r.action matches RegistrationAction::CheckVoucherNumber(v) && v@ == voucher_number@
            },
            (state, event) matches (RegistrationState::VoucherGeneration { .. }, RegistrationEvent::VoucherGenerated(
                Err(e),
            )) ==> refused_with(r, RefusedAt::VoucherGeneration, e),
            (state, event) matches (RegistrationState::VoucherGeneration { date }, RegistrationEvent::VoucherGenerated(
                Ok(v),
            )) ==> {
                &&& r.state == RegistrationState::VoucherRule { date, voucher_number: v }
                &&& r.progress@.len() == 0
                &&& r.action matches RegistrationAction::CheckVoucherNumber(w) && w@ == v@
            },
            (state, event) matches (RegistrationState::VoucherRule { .. }, RegistrationEvent::Checked(Err(e)))
                ==> refused_with(r, RefusedAt::VoucherNumber, e),
            (state, event) matches (RegistrationState::VoucherRule { date, voucher_number }, RegistrationEvent::Checked(
                Ok(_),
            )) ==> {
                &&& r.state == RegistrationState::Lines { date, voucher_number }
                &&& views(r.progress@) == seq![stage_text(RegistrationStage::CreatingLines)]
                &&& r.action is MakeLines
            },
            (state, event) matches (RegistrationState::Lines { .. }, RegistrationEvent::LinesMade(Err(e))) ==> {
                &&& r.state is Over
                &&& r.progress@.len() == 0
                &&& r.action matches RegistrationAction::Fail(f) && f.notice@ == "仕訳明細の作成に失敗しました: "@
                    + e.spec_message() && f.error == e
            },
            (state, event) matches (RegistrationState::Lines { date, voucher_number }, RegistrationEvent::LinesMade(
                Ok(_),
            )) ==> if balanced(lines@) {
                &&& r.state matches RegistrationState::Entry { entry_id } && uuid_text(entry_id@)
                &&& views(r.progress@) == seq![
                    stage_text(RegistrationStage::CheckingBalance),
                    stage_text(RegistrationStage::CreatingEntry),
                ]
                &&& r.action matches RegistrationAction::MakeEntry { entry_id, date: d, voucher_number: v }
                    && r.state == RegistrationState::Entry { entry_id } && d == date && v@ == voucher_number@
            } else {
                &&& r.state is Over
                &&& views(r.progress@) == seq![stage_text(RegistrationStage::CheckingBalance)]
                &&& r.action matches RegistrationAction::Fail(f) && domain_refusal(
                    f,
                    RefusedAt::Balance,
                    DomainError::UnbalancedEntry,
                )
            },
            (state, event) matches (RegistrationState::Entry { .. }, RegistrationEvent::EntryMade(Err(e)))
                ==> refused_with(r, RefusedAt::Entry, e),
            (state, event) matches (RegistrationState::Entry { entry_id }, RegistrationEvent::EntryMade(Ok(status)))
                ==> {
                &&& r.state == RegistrationState::Store { entry_id, status }
                &&& views(r.progress@) == seq![stage_text(RegistrationStage::Storing)]
                &&& r.action matches RegistrationAction::AppendEvents(id) && id@ == entry_id@
            },
            (state, event) matches (RegistrationState::Store { .. }, RegistrationEvent::Stored(Err(e)))
                ==> refused_with(r, RefusedAt::Store, e),
            (state, event) matches (RegistrationState::Store { entry_id, status }, RegistrationEvent::Stored(Ok(_)))
                ==> {
                &&& r.state is Over
                &&& views(r.progress@) == seq![stage_text(RegistrationStage::Completing)]
                &&& r.action matches RegistrationAction::Complete { response, notice } && response.entry_id@
                    == entry_id@ && response.status@ == status@ && system_notice(
                    notice,
                    "RegisterJournalEntry"@,
                    "仕訳登録が完了"@,
                )
            },
    {
        let none: Vec<String> = Vec::new();
        match (state, event) {
            (RegistrationState::DateRule { date, voucher_number }, RegistrationEvent::Checked(checked)) => match checked {
                Err(e) => RegistrationStep { state: RegistrationState::Over, progress: none, action: RegistrationAction::Fail(Self::refuse(RefusedAt::TransactionDate, e)) },
                Ok(()) => if Self::needs_voucher(voucher_number.as_str()) {
                    RegistrationStep {
                        state: RegistrationState::VoucherGeneration { date },
                        progress: stage_list1(RegistrationStage::GeneratingVoucher),
                        action: RegistrationAction::GenerateVoucher(Self::voucher_fiscal_year(&date)),
                    }
                } else {
                    let v = voucher_number.clone();
                    RegistrationStep {
                        state: RegistrationState::VoucherRule { date, voucher_number },
                        progress: none,
                        action: RegistrationAction::CheckVoucherNumber(v),
                    }
                },
            },
            (RegistrationState::VoucherGeneration { date }, RegistrationEvent::VoucherGenerated(generated)) => match generated {
                Err(e) => RegistrationStep { state: RegistrationState::Over, progress: none, action: RegistrationAction::Fail(Self::refuse(RefusedAt::VoucherGeneration, e)) },
                Ok(v) => {
                    let w = v.clone();
                    RegistrationStep {
                        state: RegistrationState::VoucherRule { date, voucher_number: v },
                        progress: none,
                        action: RegistrationAction::CheckVoucherNumber(w),
                    }
                },
            },
            (RegistrationState::VoucherRule { date, voucher_number }, RegistrationEvent::Checked(checked)) => match checked {
                Err(e) => RegistrationStep { state: RegistrationState::Over, progress: none, action: RegistrationAction::Fail(Self::refuse(RefusedAt::VoucherNumber, e)) },
                Ok(()) => RegistrationStep {
                    state: RegistrationState::Lines { date, voucher_number },
                    progress: stage_list1(RegistrationStage::CreatingLines),
                    action: RegistrationAction::MakeLines,
                },
            },
            (RegistrationState::Lines { date, voucher_number }, RegistrationEvent::LinesMade(made)) => match made {
                Err(e) => RegistrationStep { state: RegistrationState::Over, progress: none, action: RegistrationAction::Fail(Self::refuse_lines(e)) },
                Ok(()) => match check_balance(lines) {
                    Err(e) => RegistrationStep {
                        state: RegistrationState::Over,
                        progress: stage_list1(RegistrationStage::CheckingBalance),
                        action: RegistrationAction::Fail(Self::refuse(RefusedAt::Balance, e)),
                    },
                    Ok(()) => {
                        let entry_id = new_entry_id();
                        let id = entry_id.clone();
                        RegistrationStep {
                            state: RegistrationState::Entry { entry_id },
                            progress: stage_list2(RegistrationStage::CheckingBalance, RegistrationStage::CreatingEntry),
                            action: RegistrationAction::MakeEntry { entry_id: id, date, voucher_number },
                        }
                    },
                },
            },
            (RegistrationState::Entry { entry_id }, RegistrationEvent::EntryMade(made)) => match made {
                Err(e) => RegistrationStep { state: RegistrationState::Over, progress: none, action: RegistrationAction::Fail(Self::refuse(RefusedAt::Entry, e)) },
                Ok(status) => {
                    let id = entry_id.clone();
                    RegistrationStep {
                        state: RegistrationState::Store { entry_id, status },
                        progress: stage_list1(RegistrationStage::Storing),
                        action: RegistrationAction::AppendEvents(id),
                    }
                },
            },
            (RegistrationState::Store { entry_id, status }, RegistrationEvent::Stored(stored)) => match stored {
                Err(e) => RegistrationStep { state: RegistrationState::Over, progress: none, action: RegistrationAction::Fail(Self::refuse(RefusedAt::Store, e)) },
                Ok(()) => {
                    let response = RegisteredEntryResponse { entry_id, status };
                    let notice = system_success("RegisterJournalEntry", from_literal("仕訳登録が完了"));
                    RegistrationStep {
                        state: RegistrationState::Over,
                        progress: stage_list1(RegistrationStage::Completing),
                        action: RegistrationAction::Complete { response, notice },
                    }
                },
            },
            _ => RegistrationStep { state: RegistrationState::Over, progress: none, action: RegistrationAction::MakeLines },
        }
    }
}

/// The message of a reference entry that was not found.
pub open spec fn missing_reference_message(id: Seq<char>) -> Seq<char> {
    "参照元伝票が見つかりません: "@ + id
}

/// The message of a transaction date that could not be read.
pub open spec fn invalid_date_message(date: Seq<char>) -> Seq<char> {
    "Invalid date format: "@ + date
}

/// The done notice's text, with the reference entry's number (empty when
/// it has none).
pub open spec fn replacement_done_text(reference_number: Option<String>) -> Seq<char> {
    "洗替仕訳登録が完了 (参照: "@ + match reference_number {
        Some(n) => n@,
        None => Seq::<char>::empty(),
    } + ")"@
}

/// Registers replacement entries.
pub struct CreateReplacementEntryInteractor<R, E, O, F> {
    event_repository: Arc<R>,
    event_output: Arc<E>,
    output_port: Arc<O>,
    finder_service: Arc<F>,
}

impl<R, E, O, F> CreateReplacementEntryInteractor<R, E, O, F> {
    /// The store, the notice output, the presenter and the entry finder.
    pub closed spec fn parts(&self) -> (Arc<R>, Arc<E>, Arc<O>, Arc<F>) {
        (self.event_repository, self.event_output, self.output_port, self.finder_service)
    }

    /// An interactor over these parts.
    pub fn new(event_repository: Arc<R>, event_output: Arc<E>, output_port: Arc<O>, finder_service: Arc<F>) -> (r: Self)
        ensures
            r.parts() == (event_repository, event_output, output_port, finder_service),
    {
        CreateReplacementEntryInteractor { event_repository, event_output, output_port, finder_service }
    }

    /// The start notice.
    pub fn begin() -> (r: EventNotification)
        ensures
            system_notice(r, "CreateReplacementEntry"@, "洗替仕訳登録を開始"@),
    {
        system_success("CreateReplacementEntry", from_literal("洗替仕訳登録を開始"))
    }

    /// The entry referred to must exist: else a validation error naming it.
    pub fn check_reference(id: &str, found: bool) -> (r: ApplicationResult<()>)
        ensures
            found <==> r is Ok,
            !found ==> single_validation(r->Err_0, missing_reference_message(id@)),
    {
        if found {
            Ok(())
        } else {
            Err(single_validation_error(join2("参照元伝票が見つかりません: ", id)))
        }
    }

    /// What follows reading the transaction date: the date, or a validation
    /// error naming the text.
    pub fn check_date(date: &str, parsed: Result<CalendarDate, String>) -> (r: ApplicationResult<CalendarDate>)
        ensures
            parsed is Ok <==> r is Ok,
            parsed is Ok ==> r->Ok_0 == parsed->Ok_0,
            parsed is Err ==> single_validation(r->Err_0, invalid_date_message(date@)),
    {
        match parsed {
            Ok(d) => Ok(d),
            Err(_) => Err(single_validation_error(join2("Invalid date format: ", date))),
        }
    }

    /// Reads the transaction date, "%Y-%m-%d", with chrono: the date read,
    /// else a validation error naming the text.
    pub fn read_date(date: &str) -> (r: ApplicationResult<CalendarDate>)
        ensures
            r is Ok <==> ymd_parses(date@),
            r is Ok ==> date_fields(r->Ok_0) == ymd_date(date@),
            r is Err ==> single_validation(r->Err_0, invalid_date_message(date@)),
    {
        let parsed = parse_ymd(date);
        Self::check_date(date, parsed)
    }

    /// What follows the store's answer: kept, the entry is presented and the
    /// done notice names the reference entry's number; not kept, nothing is
    /// presented or sent and the store's error is returned.
    pub fn complete(
        entry_id: String,
        status: String,
        reference_number: Option<String>,
        stored: Result<(), DomainError>,
    ) -> (r: (Option<RegisteredEntryResponse>, Option<EventNotification>, ApplicationResult<()>))
        ensures
            stored matches Err(e) ==> r.0 is None && r.1 is None && r.2 == Err::<(), ApplicationError>(
                ApplicationError::DomainError(e),
            ),
            stored is Ok ==> {
                &&& r.0 matches Some(resp) && resp.entry_id@ == entry_id@ && resp.status@ == status@
                &&& r.1 matches Some(n) && system_notice(
                    n,
                    "CreateReplacementEntry"@,
                    replacement_done_text(reference_number),
                )
                &&& r.2 is Ok
            },
    {
        match stored {
            Err(e) => (None, None, Err(ApplicationError::DomainError(e))),
            Ok(()) => {
                let mut text = from_literal("洗替仕訳登録が完了 (参照: ");
                match &reference_number {
                    Some(n) => push_text(&mut text, n.as_str()),
                    None => {},
                }
                push_text(&mut text, ")");
                proof {
                    if reference_number is None {
                        assert("洗替仕訳登録が完了 (参照: "@ + Seq::<char>::empty() =~= "洗替仕訳登録が完了 (参照: "@);
                    }
                }
                let response = RegisteredEntryResponse { entry_id, status };
                let notice = system_success("CreateReplacementEntry", text);
                (Some(response), Some(notice), Ok(()))
            },
        }
    }
}

// The course of a replacement entry

/// The entry a replacement refers to, as the finder answers it.
#[derive(Debug, Clone)]
pub struct ReferenceEntry {
    pub entry_number: Option<String>,
}

/// Where a replacement entry stands: what it awaits from outside.
#[derive(Debug, Clone)]
pub enum ReplacementState {
    /// The finder's answer on the reference entry.
    Reference { reference_id: String, transaction_date: String, voucher_number: String },
    /// The domain's check of the transaction date.
    DateRule { date: CalendarDate, voucher_number: String, reference_number: Option<String> },
    /// The domain's check of the voucher number.
    VoucherRule { date: CalendarDate, voucher_number: String, reference_number: Option<String> },
    /// The entry's lines, made by the domain from the request's.
    Lines { date: CalendarDate, voucher_number: String, reference_number: Option<String> },
    /// The entry, made by the domain; it answers the entry's status.
    Entry { entry_id: String, reference_number: Option<String> },
    /// The store's answer.
    Store { entry_id: String, status: String, reference_number: Option<String> },
    /// Nothing: the replacement is over.
    Over,
}

/// What the outside answered.
#[derive(Debug)]
pub enum ReplacementEvent {
    /// The finder's answer: the entry, none, or the query's error.
    Found(ApplicationResult<Option<ReferenceEntry>>),
    /// A domain check (of the date, or of the voucher number).
    Checked(Result<(), DomainError>),
    /// Whether the lines could be made.
    LinesMade(ApplicationResult<()>),
    /// The entry's status, or why it could not be made.
    EntryMade(Result<String, DomainError>),
    /// The store's answer.
    Stored(Result<(), DomainError>),
}

/// What is to be done next.
#[derive(Debug, Clone)]
pub enum ReplacementAction {
    /// Look the reference entry up by its number.
    FindReference(String),
    /// Have the domain check the transaction date.
    CheckTransactionDate(CalendarDate),
    /// Have the domain check the voucher number.
    CheckVoucherNumber(String),
    /// Have the domain make the lines from the request's.
    MakeLines,
    /// Have the domain make the entry.
    MakeEntry { entry_id: String, date: CalendarDate, voucher_number: String },
    /// Append the entry's events to the store.
    AppendEvents(String),
    /// Present the response, send the notice, and succeed.
    Complete { response: RegisteredEntryResponse, notice: EventNotification },
    /// Fail with the error.
    Fail(ApplicationError),
}

/// One step: the state reached and the action.
#[derive(Debug, Clone)]
pub struct ReplacementStep {
    pub state: ReplacementState,
    pub action: ReplacementAction,
}

/// Whether the state awaits this kind of answer.
pub open spec fn replacement_awaits(state: ReplacementState, event: ReplacementEvent) -> bool {
    match state {
        ReplacementState::Reference { .. } => event is Found,
        ReplacementState::DateRule { .. } => event is Checked,
        ReplacementState::VoucherRule { .. } => event is Checked,
        ReplacementState::Lines { .. } => event is LinesMade,
        ReplacementState::Entry { .. } => event is EntryMade,
        ReplacementState::Store { .. } => event is Stored,
        ReplacementState::Over => false,
    }
}

/// The step ends the replacement with this error.
pub open spec fn ends_with(r: ReplacementStep, e: ApplicationError) -> bool {
    r.state is Over && r.action == ReplacementAction::Fail(e)
}

impl<R, E, O, F> CreateReplacementEntryInteractor<R, E, O, F> {
    /// Starts a replacement: the start notice, and the lookup of the
    /// reference entry.
    pub fn start(request: &CreateReplacementEntryRequest) -> (r: (EventNotification, ReplacementStep))
        ensures
            system_notice(r.0, "CreateReplacementEntry"@, "洗替仕訳登録を開始"@),
            r.1.state matches ReplacementState::Reference { reference_id, transaction_date, voucher_number }
                && reference_id@ == request.reference_entry_id@ && transaction_date@ == request.transaction_date@
                && voucher_number@ == request.voucher_number@,
            r.1.action matches ReplacementAction::FindReference(id) && id@ == request.reference_entry_id@,
    {
        let state = ReplacementState::Reference {
            reference_id: request.reference_entry_id.clone(),
            transaction_date: request.transaction_date.clone(),
            voucher_number: request.voucher_number.clone(),
        };
        (Self::begin(), ReplacementStep { state, action: ReplacementAction::FindReference(request.reference_entry_id.clone()) })
    }

    /// Whether the state awaits this kind of answer.
    pub fn accepts(state: &ReplacementState, event: &ReplacementEvent) -> (r: bool)
        ensures
            r == replacement_awaits(*state, *event),
    {
        match state {
            ReplacementState::Reference { .. } => matches!(event, ReplacementEvent::Found(_)),
            ReplacementState::DateRule { .. } => matches!(event, ReplacementEvent::Checked(_)),
            ReplacementState::VoucherRule { .. } => matches!(event, ReplacementEvent::Checked(_)),
            ReplacementState::Lines { .. } => matches!(event, ReplacementEvent::LinesMade(_)),
            ReplacementState::Entry { .. } => matches!(event, ReplacementEvent::EntryMade(_)),
            ReplacementState::Store { .. } => matches!(event, ReplacementEvent::Stored(_)),
            ReplacementState::Over => false,
        }
    }

    /// The next step of a replacement, from the answer it awaited. The
    /// request's lines are weighed once the domain has made the lines.
    pub fn step(state: ReplacementState, event: ReplacementEvent, lines: &Vec<JournalEntryLineDto>) -> (r:
        ReplacementStep)
        requires
            replacement_awaits(state, event),
        ensures
            (state, event) matches (ReplacementState::Reference { .. }, ReplacementEvent::Found(Err(e))) ==> ends_with(
                r,
                e,
            ),
            (state, event) matches (ReplacementState::Reference { reference_id, .. }, ReplacementEvent::Found(Ok(None)))
                ==> {
                &&& r.state is Over
                &&& r.action matches ReplacementAction::Fail(e) && single_validation(e, missing_reference_message(reference_id@))
            },
            (state, event) matches (ReplacementState::Reference { transaction_date, voucher_number, .. }, ReplacementEvent::Found(
                Ok(Some(found)),
            )) ==> if ymd_parses(transaction_date@) {
                &&& r.state matches ReplacementState::DateRule { date, voucher_number: v, reference_number }
                    && date_fields(date) == ymd_date(transaction_date@) && v@ == voucher_number@
                    && reference_number == found.entry_number
                &&& r.action matches ReplacementAction::CheckTransactionDate(d) && date_fields(d) == ymd_date(
                    transaction_date@,
                )
            } else {
                &&& r.state is Over
                &&& r.action matches ReplacementAction::Fail(e) && single_validation(e, invalid_date_message(transaction_date@))
            },
            (state, event) matches (ReplacementState::DateRule { .. }, ReplacementEvent::Checked(Err(e))) ==> ends_with(
                r,
                ApplicationError::DomainError(e),
            ),
            (state, event) matches (ReplacementState::DateRule { date, voucher_number, reference_number }, ReplacementEvent::Checked(
                Ok(_),
            )) ==> {
                &&& r.state == ReplacementState::VoucherRule { date, voucher_number, reference_number }
                &&& r.action matches ReplacementAction::CheckVoucherNumber(v) && v@ == voucher_number@
            },
            (state, event) matches (ReplacementState::VoucherRule { .. }, ReplacementEvent::Checked(Err(e)))
                ==> ends_with(r, ApplicationError::DomainError(e)),
            (state, event) matches (ReplacementState::VoucherRule { date, voucher_number, reference_number }, ReplacementEvent::Checked(
                Ok(_),
            )) ==> {
                &&& r.state == ReplacementState::Lines { date, voucher_number, reference_number }
                &&& r.action is MakeLines
            },
            (state, event) matches (ReplacementState::Lines { .. }, ReplacementEvent::LinesMade(Err(e))) ==> ends_with(
                r,
                e,
            ),
            (state, event) matches (ReplacementState::Lines { date, voucher_number, reference_number }, ReplacementEvent::LinesMade(
                Ok(_),
            )) ==> if balanced(lines@) {
                &&& r.state matches ReplacementState::Entry { entry_id, reference_number: n } && uuid_text(entry_id@)
                    && n == reference_number
                &&& r.action matches ReplacementAction::MakeEntry { entry_id, date: d, voucher_number: v }
                    && r.state == ReplacementState::Entry { entry_id, reference_number } && d == date && v@
                    == voucher_number@
            } else {
                ends_with(r, ApplicationError::DomainError(DomainError::UnbalancedEntry))
            },
            (state, event) matches (ReplacementState::Entry { .. }, ReplacementEvent::EntryMade(Err(e))) ==> ends_with(
                r,
                ApplicationError::DomainError(e),
            ),
            (state, event) matches (ReplacementState::Entry { entry_id, reference_number }, ReplacementEvent::EntryMade(
                Ok(status),
            )) ==> {
                &&& r.state == ReplacementState::Store { entry_id, status, reference_number }
                &&& r.action matches ReplacementAction::AppendEvents(id) && id@ == entry_id@
            },
            (state, event) matches (ReplacementState::Store { .. }, ReplacementEvent::Stored(Err(e))) ==> ends_with(
                r,
                ApplicationError::DomainError(e),
            ),
            (state, event) matches (ReplacementState::Store { entry_id, status, reference_number }, ReplacementEvent::Stored(
                Ok(_),
            )) ==> {
                &&& r.state is Over
                &&& r.action matches ReplacementAction::Complete { response, notice } && response.entry_id@
                    == entry_id@ && response.status@ == status@ && system_notice(
                    notice,
                    "CreateReplacementEntry"@,
                    replacement_done_text(reference_number),
                )
            },
    {
        match (state, event) {
            (ReplacementState::Reference { reference_id, transaction_date, voucher_number }, ReplacementEvent::Found(found)) => match found {
                Err(e) => ReplacementStep { state: ReplacementState::Over, action: ReplacementAction::Fail(e) },
                Ok(None) => match Self::check_reference(reference_id.as_str(), false) {
                    Err(e) => ReplacementStep { state: ReplacementState::Over, action: ReplacementAction::Fail(e) },
                    Ok(()) => ReplacementStep { state: ReplacementState::Over, action: ReplacementAction::MakeLines },
                },
                Ok(Some(entry)) => match Self::read_date(transaction_date.as_str()) {
                    Err(e) => ReplacementStep { state: ReplacementState::Over, action: ReplacementAction::Fail(e) },
                    Ok(date) => ReplacementStep {
                        state: ReplacementState::DateRule { date, voucher_number, reference_number: entry.entry_number },
                        action: ReplacementAction::CheckTransactionDate(date),
                    },
                },
            },
            (ReplacementState::DateRule { date, voucher_number, reference_number }, ReplacementEvent::Checked(checked)) => match checked {
                Err(e) => ReplacementStep { state: ReplacementState::Over, action: ReplacementAction::Fail(ApplicationError::DomainError(e)) },
                Ok(()) => {
                    let v = voucher_number.clone();
                    ReplacementStep {
                        state: ReplacementState::VoucherRule { date, voucher_number, reference_number },
                        action: ReplacementAction::CheckVoucherNumber(v),
                    }
                },
            },
            (ReplacementState::VoucherRule { date, voucher_number, reference_number }, ReplacementEvent::Checked(checked)) => match checked {
                Err(e) => ReplacementStep { state: ReplacementState::Over, action: ReplacementAction::Fail(ApplicationError::DomainError(e)) },
                Ok(()) => ReplacementStep {
                    state: ReplacementState::Lines { date, voucher_number, reference_number },
                    action: ReplacementAction::MakeLines,
                },
            },
            (ReplacementState::Lines { date, voucher_number, reference_number }, ReplacementEvent::LinesMade(made)) => match made {
                Err(e) => ReplacementStep { state: ReplacementState::Over, action: ReplacementAction::Fail(e) },
                Ok(()) => match check_balance(lines) {
                    Err(e) => ReplacementStep { state: ReplacementState::Over, action: ReplacementAction::Fail(ApplicationError::DomainError(e)) },
                    Ok(()) => {
                        let entry_id = new_entry_id();
                        let id = entry_id.clone();
                        ReplacementStep {
                            state: ReplacementState::Entry { entry_id, reference_number },
                            action: ReplacementAction::MakeEntry { entry_id: id, date, voucher_number },
                        }
                    },
                },
            },
            (ReplacementState::Entry { entry_id, reference_number }, ReplacementEvent::EntryMade(made)) => match made {
                Err(e) => ReplacementStep { state: ReplacementState::Over, action: ReplacementAction::Fail(ApplicationError::DomainError(e)) },
                Ok(status) => {
                    let id = entry_id.clone();
                    ReplacementStep {
                        state: ReplacementState::Store { entry_id, status, reference_number },
                        action: ReplacementAction::AppendEvents(id),
                    }
                },
            },
            (ReplacementState::Store { entry_id, status, reference_number }, ReplacementEvent::Stored(stored)) => match stored {
                Err(e) => ReplacementStep { state: ReplacementState::Over, action: ReplacementAction::Fail(ApplicationError::DomainError(e)) },
                Ok(()) => {
                    let (response, notice, _) = Self::complete(entry_id, status, reference_number, Ok(()));
                    match (response, notice) {
                        (Some(response), Some(notice)) => ReplacementStep {
                            state: ReplacementState::Over,
                            action: ReplacementAction::Complete { response, notice },
                        },
                        _ => ReplacementStep { state: ReplacementState::Over, action: ReplacementAction::MakeLines },
                    }
                },
            },
            _ => ReplacementStep { state: ReplacementState::Over, action: ReplacementAction::MakeLines },
        }
    }
}

} // verus!
