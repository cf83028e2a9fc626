use javelin::adapter::components::event_log::LogLevel;
use javelin::adapter::input_mode::InputMode;
use javelin::adapter::page_navigator::{ClosingRequest, FormAction, Key, PageNavigator, ScreenPlan, SelectionAction};
use javelin::adapter::page_states::{AccountAdjustmentPageState, NavAction};
use javelin::adapter::pages::account_adjustment_page::AccountAdjustmentPage;
use javelin::adapter::pages::account_master_page::AccountMasterPage;
use javelin::adapter::pages::application_settings_page::ApplicationSettingsPage;
use javelin::adapter::pages::closing_page::ClosingPage;
use javelin::adapter::pages::closing_preparation_page::ClosingPreparationPage;
use javelin::adapter::pages::financial_statement_page::FinancialStatementPage;
use javelin::adapter::pages::home_page::{HomePage, MenuType, ViewType as HomeView};
use javelin::adapter::pages::ifrs_valuation_page::{format_with_sign, IfrsValuationPage};
use javelin::adapter::pages::journal_entry_page::JournalEntryPage;
use javelin::adapter::pages::ledger_consolidation_page::LedgerConsolidationPage;
use javelin::adapter::pages::ledger_page::LedgerPage;
use javelin::adapter::pages::ledger_view_page::{LedgerFigures, LedgerLine, LedgerViewPage};
use javelin::adapter::pages::screen::LoadingState;
use javelin::adapter::pages::subsidiary_account_master_page::SubsidiaryAccountMasterPage;
use javelin::adapter::presenter::{
    AccountMasterItemViewModel, ApplicationSettingsViewModel, SubsidiaryAccountMasterItemViewModel,
};
use javelin::adapter::route::Route;
use javelin::adapter::view_router::{ViewRouter, ViewType};
use javelin::application::dtos::{
    AccountReclassificationDto, AdjustAccountsResponse, ApplyIfrsValuationResponse,
    BankReconciliationDifferenceDto, FairValueAdjustmentDto, FinancialIndicatorsDto,
    GenerateFinancialStatementsResponse, ImpairmentLossDto, InventoryWriteDownDto, LeaseMeasurementDto,
    PrepareClosingResponse, StatementOfCashFlowsDto, StatementOfChangesInEquityDto,
    StatementOfFinancialPositionDto, StatementOfProfitOrLossDto, TaxEffectAdjustmentDto,
};

#[test]
fn router_goes_back_through_its_history() {
    let mut r = ViewRouter::new();
    assert_eq!(*r.current_view(), ViewType::Home);
    r.navigate_back();
    assert_eq!(*r.current_view(), ViewType::Home);
    r.navigate_to(ViewType::ClosingPreparation);
    r.navigate_to(ViewType::TrialBalance);
    assert_eq!(*r.current_view(), ViewType::TrialBalance);
    r.navigate_back();
    assert_eq!(*r.current_view(), ViewType::ClosingPreparation);
    r.navigate_back();
    assert_eq!(*r.current_view(), ViewType::Home);
    r.navigate_to(ViewType::Ledger);
    r.navigate_to(ViewType::DataExport);
    r.navigate_home();
    assert_eq!(*r.current_view(), ViewType::Home);
    r.navigate_back();
    assert_eq!(*r.current_view(), ViewType::Home);
}

#[test]
fn closing_pages_start_loading_and_tick() {
    let mut page = AccountAdjustmentPage::new();
    assert!(page.is_loading());
    assert_eq!(page.screen().log().len(), 2);
    assert_eq!(page.screen().log().entry(0).message, "勘定補正画面を開きました");
    assert_eq!(page.status_cursor(), "▮");
    for _ in 0..30 {
        page.tick();
    }
    assert_eq!(page.status_cursor(), " ");
    for _ in 0..30 {
        page.tick();
    }
    assert_eq!(page.status_cursor(), "▮");
    page.set_error("timeout".to_string());
    assert!(!page.is_loading());
    assert_eq!(page.screen().log().entry(2).message, "エラー: timeout");
    assert_eq!(page.screen().log().entry(2).level, LogLevel::Error);
    page.add_info("i".to_string());
    page.add_error("e".to_string());
    assert_eq!(page.screen().log().len(), 5);
    page.select_next();
    page.select_previous();
    assert_eq!(page.screen().table().selected(), None);
}

#[test]
fn closing_preparation_rows() {
    let mut page = ClosingPreparationPage::default();
    page.set_response(PrepareClosingResponse {
        unregistered_transactions_count: 0,
        bank_reconciliation_differences: vec![
            BankReconciliationDifferenceDto {
                bank_account: "みずほ普通".to_string(),
                bank_balance: 1000,
                cash_log_balance: 1000,
                difference: 0,
            },
            BankReconciliationDifferenceDto {
                bank_account: "三井当座".to_string(),
                bank_balance: 5000,
                cash_log_balance: 4500,
                difference: -500,
            },
        ],
        accrual_entries_created: 3,
        provisional_financial_statements_generated: false,
    });
    assert!(!page.is_loading());
    let t = page.screen().table();
    assert_eq!(t.row_count(), 5);
    assert_eq!(t.selected(), Some(0));
    let log = page.screen().log();
    assert_eq!(log.entry(log.len() - 1).message, "データ読込完了: 5 件");
    page.select_next();
    assert_eq!(page.screen().table().selected(), Some(1));
    page.set_data(vec![vec!["x".to_string()]]);
    let log = page.screen().log();
    assert_eq!(log.entry(log.len() - 1).message, "データ読込完了: 1 件");
    page.add_info("i".to_string());
    page.add_error("e".to_string());
    page.tick();
    page.select_previous();
    page.set_error("E".to_string());
    assert_eq!(page.status_cursor(), "▮");
}

#[test]
fn ifrs_valuation_rows_and_message() {
    let mut page = IfrsValuationPage::default();
    page.set_response(ApplyIfrsValuationResponse {
        expected_credit_loss: 50000,
        expected_credit_loss_currency: "JPY".to_string(),
        contingent_liabilities: vec![],
        inventory_write_downs: vec![InventoryWriteDownDto {
            item: "商品A".to_string(),
            cost: 100,
            net_realizable_value: 80,
            write_down_amount: 20,
        }],
        impairment_losses: vec![ImpairmentLossDto {
            asset: "建物".to_string(),
            carrying_amount: 1000,
            recoverable_amount: 700,
            impairment_loss: 300,
        }],
        fair_value_adjustments: vec![FairValueAdjustmentDto {
            financial_asset: "株式".to_string(),
            book_value: 500,
            fair_value: 620,
            adjustment: 120,
        }],
        lease_measurements: vec![LeaseMeasurementDto {
            lease_contract: "L1".to_string(),
            right_of_use_asset: 1,
            lease_liability: 1,
        }],
    });
    assert_eq!(page.screen().table().row_count(), 4);
    assert_eq!(page.screen().table().rows()[0][3], "50000 JPY");
    assert_eq!(page.screen().table().rows()[0][4], "50000");
    let log = page.screen().log();
    assert_eq!(
        log.entry(log.len() - 1).message,
        "IFRS評価完了: 公正価値 1 件、減損 1 件、評価減 1 件、リース 1 件"
    );
    assert_eq!(format_with_sign(120), "+120");
    assert_eq!(format_with_sign(-3), "-3");
    assert_eq!(format_with_sign(0), "+0");
    page.tick();
    page.add_info("i".to_string());
    page.add_error("e".to_string());
    page.select_next();
    page.select_previous();
    page.set_error("x".to_string());
    assert!(!page.is_loading());
    assert_eq!(page.status_cursor(), "▮");
}

#[test]
fn financial_statements_rows_and_messages() {
    let mut page = FinancialStatementPage::default();
    page.set_response(GenerateFinancialStatementsResponse {
        statement_of_financial_position: StatementOfFinancialPositionDto {
            current_assets: 1,
            current_assets_currency: "JPY".to_string(),
            non_current_assets: 2,
            non_current_assets_currency: "JPY".to_string(),
            current_liabilities: 3,
            current_liabilities_currency: "JPY".to_string(),
            non_current_liabilities: 4,
            non_current_liabilities_currency: "JPY".to_string(),
            equity: 5,
            equity_currency: "JPY".to_string(),
        },
        statement_of_profit_or_loss: StatementOfProfitOrLossDto {
            revenue: 10,
            revenue_currency: "JPY".to_string(),
            cost_of_sales: 6,
            cost_of_sales_currency: "JPY".to_string(),
            gross_profit: 4,
            operating_expenses: 1,
            operating_profit: 3,
            operating_profit_currency: "JPY".to_string(),
            net_profit: 2,
            net_profit_currency: "JPY".to_string(),
        },
        statement_of_changes_in_equity: StatementOfChangesInEquityDto {
            opening_balance: 3,
            net_profit: 2,
            dividends: 0,
            closing_balance: 5,
        },
        statement_of_cash_flows: StatementOfCashFlowsDto {
            operating_activities: 7,
            operating_activities_currency: "JPY".to_string(),
            investing_activities: -8,
            investing_activities_currency: "JPY".to_string(),
            financing_activities: 9,
            financing_activities_currency: "JPY".to_string(),
            net_change_in_cash: 8,
        },
        financial_indicators: FinancialIndicatorsDto {
            roe: 1234,
            roa: 560,
            current_ratio: 150,
            debt_to_equity_ratio: 80,
        },
        cross_check_passed: true,
    });
    assert_eq!(page.screen().table().row_count(), 12);
    assert_eq!(page.screen().table().rows()[0][2], "1 JPY");
    assert_eq!(page.screen().table().rows()[10][2], "-8 JPY");
    let log = page.screen().log();
    let n = log.len();
    assert_eq!(log.entry(n - 2).message, "財務諸表生成完了: クロスチェック 合格");
    assert_eq!(log.entry(n - 1).message, "財務指標: ROE 12.34%, ROA 5.60%, 流動比率 1.50");
    page.tick();
    page.select_next();
    page.select_previous();
    page.add_info("i".to_string());
    page.add_error("e".to_string());
    page.set_error("x".to_string());
    assert!(!page.is_loading());
    assert_eq!(page.status_cursor(), "▮");
}

#[test]
fn account_adjustment_rows_and_message() {
    let mut page = AccountAdjustmentPage::default();
    page.set_response(AdjustAccountsResponse {
        adjustment_entries_created: 2,
        reclassified_accounts: vec![AccountReclassificationDto {
            from_account: "1990".to_string(),
            to_account: "1110".to_string(),
            amount: 12000,
            currency: "JPY".to_string(),
            reason: "仮払金整理".to_string(),
        }],
        tax_effect_adjustments: vec![TaxEffectAdjustmentDto {
            temporary_difference: 1000,
            tax_rate: 306,
            deferred_tax_amount: 306,
            deferred_tax_amount_currency: "JPY".to_string(),
        }],
    });
    assert_eq!(page.screen().table().row_count(), 2);
    assert_eq!(page.screen().table().rows()[0][3], "12000 JPY");
    assert_eq!(page.screen().table().rows()[1][3], "306 JPY");
    let log = page.screen().log();
    assert_eq!(log.entry(log.len() - 1).message, "勘定補正完了: 振替 1 件、税効果 1 件、調整仕訳 2 件");
}

#[test]
fn ledger_consolidation_status() {
    let mut page = LedgerConsolidationPage::new();
    assert_eq!(page.status_text(), "読込中...");
    page.set_loaded();
    assert_eq!(page.status_text(), "準備完了");
    assert!(!page.status_is_error());
    let log = page.screen().log();
    assert_eq!(log.entry(log.len() - 1).message, "元帳集約データを読み込みました");
    page.set_error("x".to_string());
    assert_eq!(page.status_text(), "エラー");
    assert!(page.status_is_error());
    page.tick();
    page.select_next();
    page.select_previous();
    page.add_info("a".to_string());
    page.add_error("b".to_string());
    assert!(!page.is_loading());
    match page.screen().loading_state() {
        LoadingState::Error(e) => assert_eq!(e, "x"),
        _ => panic!("Expected an error state"),
    }
}

#[test]
fn home_menu_leads_to_screens() {
    let mut home = HomePage::new();
    assert_eq!(home.active_menu(), MenuType::Business);
    assert_eq!(home.get_selected_view(), Some(HomeView::JournalEntry));
    home.select_next();
    assert_eq!(home.get_selected_view(), Some(HomeView::Search));
    for _ in 0..20 {
        home.select_next();
    }
    assert_eq!(home.get_selected_view(), Some(HomeView::Ledger));
    home.switch_menu();
    assert_eq!(home.active_menu(), MenuType::System);
    assert_eq!(home.get_selected_view(), Some(HomeView::AccountMasterManagement));
    home.select_next();
    home.select_next();
    assert_eq!(home.get_selected_view(), Some(HomeView::UserSettingsManagement));
    home.select_previous();
    assert_eq!(home.get_selected_view(), Some(HomeView::SubsidiaryAccountMasterManagement));
    home.switch_menu();
    assert_eq!(home.get_selected_view(), Some(HomeView::Ledger));
    home.add_error("oops");
    let log = home.log();
    assert_eq!(log.len(), 5);
    assert_eq!(log.entry(2).message, "システムマスタメニューに切替");
    assert_eq!(log.entry(3).message, "業務メニューに切替");
    assert_eq!(log.entry(4).message, "oops");
}

#[test]
fn simple_pages_carry_their_title() {
    assert_eq!(ClosingPage::new().title_text(), "月次決算処理");
    assert_eq!(JournalEntryPage::default().title_text(), "仕訳入力");
    assert_eq!(LedgerPage::new().title_text(), "元帳");
}

#[test]
fn master_lists_count_their_pages() {
    let mut page = AccountMasterPage::new();
    assert_eq!(page.total_items(), 0);
    let items: Vec<AccountMasterItemViewModel> = (0..45)
        .map(|i| AccountMasterItemViewModel {
            code: format!("{}", 1000 + i),
            name: "n".to_string(),
            account_type_label: "資産".to_string(),
        })
        .collect();
    page.set_data(items, 2, 0);
    assert_eq!(page.total_items(), 45);
    assert_eq!(page.current_page_items_len(), 5);
    page.set_loading();
    page.set_error("e".to_string());
    let mut sub = SubsidiaryAccountMasterPage::default();
    sub.set_data(
        vec![SubsidiaryAccountMasterItemViewModel {
            code: "01".to_string(),
            name: "n".to_string(),
            parent_account_code: "1110".to_string(),
        }],
        0,
        0,
    );
    assert_eq!(sub.current_page_items_len(), 1);
    sub.set_data(vec![], 7, 0);
    assert_eq!(sub.current_page_items_len(), 0);
    sub.set_loading();
    sub.set_error("x".to_string());
    assert_eq!(sub.total_items(), 0);
}

#[test]
fn settings_page_and_rows() {
    let vm = ApplicationSettingsViewModel {
        default_company_code: None,
        language_label: "日本語".to_string(),
        decimal_places: 2,
        date_format: "YYYY-MM-DD".to_string(),
        fiscal_year_start_month_label: "4月".to_string(),
        closing_day: 31,
        auto_backup_label: "有効".to_string(),
        backup_retention_days: 90,
    };
    let pairs = vm.to_key_value_pairs();
    assert_eq!(pairs.len(), 8);
    assert_eq!(pairs[0], ("デフォルト会社コード".to_string(), "未設定".to_string()));
    assert_eq!(pairs[2], ("小数点以下桁数".to_string(), "2".to_string()));
    assert_eq!(pairs[5], ("締日".to_string(), "31日".to_string()));
    assert_eq!(pairs[7], ("バックアップ保持日数".to_string(), "90日".to_string()));
    let mut page = ApplicationSettingsPage::new();
    page.set_loading();
    page.set_data(vm);
    page.set_error("e".to_string());
    let _ = ApplicationSettingsPage::default();
}

#[test]
fn navigator_plans_each_view() {
    match PageNavigator::plan(ViewType::ClosingPreparation) {
        ScreenPlan::LoadOnOpen(ClosingRequest::PrepareClosing(r)) => {
            assert_eq!((r.fiscal_year, r.period), (2024, 12))
        }
        _ => panic!("Expected closing preparation"),
    }
    match PageNavigator::plan(ViewType::LedgerConsolidation) {
        ScreenPlan::RunOnEnter(ClosingRequest::ConsolidateLedger(r)) => {
            assert_eq!(r.from_date, "2024-12-01");
            assert_eq!(r.to_date, "2024-12-31");
        }
        _ => panic!("Expected consolidation"),
    }
    match PageNavigator::plan(ViewType::ClosingLock) {
        ScreenPlan::LoadOnOpen(ClosingRequest::LockClosingPeriod(r)) => assert_eq!(r.locked_by, "system"),
        _ => panic!("Expected closing lock"),
    }
    assert!(matches!(PageNavigator::plan(ViewType::JournalEntry), ScreenPlan::JournalEntryForm));
    assert!(matches!(PageNavigator::plan(ViewType::Ledger), ScreenPlan::LedgerView));
    assert!(matches!(PageNavigator::plan(ViewType::DataBackup), ScreenPlan::NotImplemented));
    assert_eq!(PageNavigator::selection_action(Key::Esc, true), SelectionAction::Exit);
    assert_eq!(PageNavigator::selection_action(Key::Char('k'), false), SelectionAction::Previous);
    assert_eq!(PageNavigator::selection_action(Key::Down, false), SelectionAction::Next);
    assert_eq!(PageNavigator::selection_action(Key::Enter, true), SelectionAction::Execute);
    assert_eq!(PageNavigator::selection_action(Key::Enter, false), SelectionAction::Ignore);
    let lines = PageNavigator::not_implemented_lines(ViewType::DataImport);
    assert_eq!(lines[1], "この機能は未実装です");
    assert_eq!(lines[3], "画面: DataImport");
}

#[test]
fn page_state_goes_back_on_escape() {
    let mut state = AccountAdjustmentPageState::new();
    assert_eq!(state.route(), Route::AccountAdjustment);
    assert_eq!(state.on_key(Key::Esc), Some(NavAction::Back));
    assert_eq!(state.on_key(Key::Char('q')), None);
    state.on_navigation_error("no route");
    state.tick();
    let log = state.page().screen().log();
    assert_eq!(log.entry(log.len() - 1).message, "no route");
}

#[test]
fn preparation_loading_ends_only_with_data_or_error_and_never_returns() {
    let mut page = ClosingPreparationPage::new();
    assert!(page.is_loading());
    page.tick();
    page.add_info("i".to_string());
    page.add_error("e".to_string());
    page.select_next();
    page.select_previous();
    assert!(page.is_loading());
    page.set_error("boom".to_string());
    assert!(!page.is_loading());
    page.tick();
    page.add_info("again".to_string());
    page.select_next();
    assert!(!page.is_loading());
    page.set_data(vec![vec!["a".to_string()]]);
    assert!(!page.is_loading());
}

#[test]
fn ifrs_cursor_blinks_with_a_period_of_sixty_ticks() {
    let mut page = IfrsValuationPage::new();
    let mut first: Vec<&str> = Vec::new();
    for _ in 0..60 {
        first.push(page.status_cursor());
        page.tick();
    }
    let mut second: Vec<&str> = Vec::new();
    for _ in 0..60 {
        second.push(page.status_cursor());
        page.tick();
    }
    assert_eq!(first, second);
    assert_eq!(first.iter().filter(|c| **c == "▮").count(), 30);
    assert!(page.is_loading());
}

#[test]
fn defaults_open_the_same_screens_as_new() {
    let a = FinancialStatementPage::default();
    let b = FinancialStatementPage::new();
    assert_eq!(a.screen().table().title_text(), b.screen().table().title_text());
    assert_eq!(a.screen().log().len(), 2);
    let s = AccountAdjustmentPageState::new();
    assert_eq!(s.page().screen().table().title_text(), AccountAdjustmentPage::new().screen().table().title_text());
    assert_eq!(s.page().screen().log().entry(0).message, "勘定補正画面を開きました");
}

#[test]
fn ledger_view_opens_on_the_cash_account() {
    let page = LedgerViewPage::new();
    assert_eq!(page.title_text(), "総勘定元帳");
    assert_eq!(page.screen_code_text(), "R-401");
    assert_eq!(page.period_text(), "2024年12月");
    assert_eq!(page.table().title_text(), "勘定科目: 現金");
    assert_eq!(page.table().headers(), &vec!["日付", "証憑No", "摘要", "借方", "貸方", "残高"]);
    assert_eq!(page.table().column_widths(), &vec![12u16, 10, 30, 15, 15, 15]);
    assert_eq!(page.table().selected(), None);
    assert_eq!(page.info()[4], ("当期貸方".to_string(), "1,000,000".to_string()));
}

#[test]
fn ledger_view_shows_the_ledger_that_arrives() {
    let mut page = LedgerViewPage::new();
    let line = |d: &str, n: &str| LedgerLine {
        transaction_date: d.to_string(),
        entry_number: n.to_string(),
        description: "売上".to_string(),
        debit: "1,000".to_string(),
        credit: "0".to_string(),
        balance: "1,000".to_string(),
    };
    page.update(
        vec![line("2024-12-01", "V-1"), line("2024-12-02", "V-2")],
        LedgerFigures {
            account_code: "4010".to_string(),
            account_name: "売上高".to_string(),
            opening_balance: "0".to_string(),
            total_debit: "2,000".to_string(),
            total_credit: "0".to_string(),
            closing_balance: "2,000".to_string(),
        },
    );
    assert_eq!(page.table().row_count(), 2);
    assert_eq!(page.table().selected(), Some(0));
    assert_eq!(page.table().rows()[1][1], "V-2");
    assert_eq!(page.info()[1], ("科目名".to_string(), "売上高".to_string()));
    page.select_next();
    assert_eq!(page.table().selected(), Some(1));
    page.select_next();
    assert_eq!(page.table().selected(), Some(1));
    page.select_previous();
    assert_eq!(page.table().selected(), Some(0));
}

#[test]
fn form_keys_move_edit_and_submit() {
    let f = PageNavigator::form_action;
    assert_eq!(f(InputMode::Normal, false, false, Key::Esc, false), FormAction::Exit);
    assert_eq!(f(InputMode::Normal, false, false, Key::Char('h'), false), FormAction::MoveLeft);
    assert_eq!(f(InputMode::Normal, false, false, Key::Char('l'), false), FormAction::MoveRight);
    assert_eq!(f(InputMode::Normal, false, false, Key::Char('i'), false), FormAction::EnterModify);
    assert_eq!(f(InputMode::Normal, false, false, Key::Char('M'), false), FormAction::PreviousEditMode);
    assert_eq!(f(InputMode::Normal, false, false, Key::Tab, false), FormAction::AddLine);
    assert_eq!(f(InputMode::Normal, false, false, Key::BackTab, false), FormAction::RemoveLine);
    assert_eq!(f(InputMode::Normal, false, false, Key::Char('s'), true), FormAction::Submit);
    assert_eq!(f(InputMode::Normal, false, false, Key::Char('s'), false), FormAction::Ignore);
    assert_eq!(f(InputMode::Normal, false, true, Key::Char('s'), true), FormAction::Ignore);
    assert_eq!(f(InputMode::Modify, true, false, Key::Char('j'), false), FormAction::OverlaySelectNext);
    assert_eq!(f(InputMode::Modify, true, false, Key::Up, false), FormAction::OverlaySelectPrevious);
    assert_eq!(f(InputMode::Modify, true, false, Key::Enter, false), FormAction::OverlayConfirm);
    assert_eq!(f(InputMode::Modify, true, false, Key::Esc, false), FormAction::OverlayCancel);
    assert_eq!(f(InputMode::Modify, false, false, Key::Char('j'), false), FormAction::InputChar('j'));
    assert_eq!(f(InputMode::Modify, false, false, Key::Backspace, false), FormAction::Backspace);
    assert_eq!(f(InputMode::Modify, false, false, Key::Esc, false), FormAction::CancelModify);
    assert_eq!(f(InputMode::Modify, false, false, Key::Enter, false), FormAction::Ignore);
}
