//! The home screen: the business menu and the system-master menu. h/l
//! switches between the two frames, j/k moves within the active one.

use vstd::prelude::*;
use crate::adapter::components::event_log::{EventLog, LogLevel};
use crate::adapter::components::list_selector::{item_view, ListItemData, ListSelector, ListSelectorModel};
use crate::text::from_literal;

verus! {

/// The screens the home menu leads to.
#[derive(Debug, Clone, Copy, PartialEq, Eq, Structural)]
pub enum ViewType {
    Home,
    JournalEntry,
    Search,
    Ledger,
    LedgerConsolidation,
    ClosingPreparation,
    ClosingLock,
    TrialBalance,
    NoteDraft,
    AccountAdjustment,
    IfrsValuation,
    FinancialStatement,
    AccountMasterManagement,
    SubsidiaryAccountMasterManagement,
    UserSettingsManagement,
    DataImport,
    DataExport,
}

/// The two menu frames.
#[derive(Debug, Clone, Copy, PartialEq, Eq, Structural)]
pub enum MenuType {
    /// Business processing.
    Business,
    /// System masters.
    System,
}

/// The screen an entry of the business menu leads to.
pub open spec fn business_view(i: int) -> Option<ViewType> {
    if i == 0 { Some(ViewType::JournalEntry) } else
    if i == 1 { Some(ViewType::Search) } else
    if i == 2 { Some(ViewType::LedgerConsolidation) } else
    if i == 3 { Some(ViewType::ClosingPreparation) } else
    if i == 4 { Some(ViewType::ClosingLock) } else
    if i == 5 { Some(ViewType::TrialBalance) } else
    if i == 6 { Some(ViewType::NoteDraft) } else
    if i == 7 { Some(ViewType::AccountAdjustment) } else
    if i == 8 { Some(ViewType::IfrsValuation) } else
    if i == 9 { Some(ViewType::FinancialStatement) } else
    if i == 10 { Some(ViewType::Ledger) } else
    { None }
}

/// The screen an entry of the system menu leads to.
pub open spec fn system_view(i: int) -> Option<ViewType> {
    if i == 0 { Some(ViewType::AccountMasterManagement) } else
    if i == 1 { Some(ViewType::SubsidiaryAccountMasterManagement) } else
    if i == 2 { Some(ViewType::UserSettingsManagement) } else
    if i == 3 { Some(ViewType::DataImport) } else
    if i == 4 { Some(ViewType::DataExport) } else
    { None }
}

/// The abstract state of the home screen.
pub struct HomePageModel {
    pub title: Seq<char>,
    pub department: Seq<char>,
    pub operator: Seq<char>,
    pub log: Seq<(LogLevel, Seq<char>)>,
    pub business: ListSelectorModel,
    pub system: ListSelectorModel,
    pub active: MenuType,
}

impl HomePageModel {
    /// Both menus are well formed.
    pub open spec fn wf(self) -> bool {
        self.business.wf() && self.system.wf()
    }

    /// The screen the selected entry of the active menu leads to.
    pub open spec fn selected_view(self) -> Option<ViewType> {
        match self.active {
            MenuType::Business => match self.business.selected {
                Some(i) => business_view(i as int),
                None => None,
            },
            MenuType::System => match self.system.selected {
                Some(i) => system_view(i as int),
                None => None,
            },
        }
    }

    /// After switching frames: the other frame is active, and the switch is logged.
    pub open spec fn switched(self) -> HomePageModel {
        match self.active {
            MenuType::Business => HomePageModel {
                active: MenuType::System,
                log: self.log.push((LogLevel::Info, "システムマスタメニューに切替"@)),
                ..self
            },
            MenuType::System => HomePageModel {
                active: MenuType::Business,
                log: self.log.push((LogLevel::Info, "業務メニューに切替"@)),
                ..self
            },
        }
    }
}

fn business_menu_items() -> (v: Vec<ListItemData>)
    ensures
        v@.map_values(|it: ListItemData| item_view(it)) == seq![
                ("101"@, "原始記録登録"@, "日次：仕訳帳・キャッシュログ入力"@),
                ("102"@, "仕訳検索"@, "日次：仕訳の検索・照会"@),
                ("201"@, "元帳集約"@, "週次：総勘定元帳への転記処理"@),
                ("301"@, "締準備"@, "月次：期間帰属確認・仮仕訳作成"@),
                ("302"@, "締日固定"@, "月次：取引データのロック処理"@),
                ("303"@, "試算表生成"@, "月次：残高検証・異常値抽出"@),
                ("304"@, "注記草案生成"@, "月次：開示情報の整理"@),
                ("305"@, "勘定補正"@, "月次：仮勘定整理・区分修正"@),
                ("306"@, "IFRS評価"@, "月次：見積会計・公正価値測定"@),
                ("307"@, "財務諸表生成"@, "月次：制度開示資料作成"@),
                ("401"@, "元帳閲覧"@, "照会：総勘定元帳・補助元帳"@),
            ],
{
    let mut v: Vec<ListItemData> = Vec::new();
    v.push(ListItemData::new(from_literal("101"), from_literal("原始記録登録"), from_literal("日次：仕訳帳・キャッシュログ入力")));
    v.push(ListItemData::new(from_literal("102"), from_literal("仕訳検索"), from_literal("日次：仕訳の検索・照会")));
    v.push(ListItemData::new(from_literal("201"), from_literal("元帳集約"), from_literal("週次：総勘定元帳への転記処理")));
    v.push(ListItemData::new(from_literal("301"), from_literal("締準備"), from_literal("月次：期間帰属確認・仮仕訳作成")));
    v.push(ListItemData::new(from_literal("302"), from_literal("締日固定"), from_literal("月次：取引データのロック処理")));
    v.push(ListItemData::new(from_literal("303"), from_literal("試算表生成"), from_literal("月次：残高検証・異常値抽出")));
    v.push(ListItemData::new(from_literal("304"), from_literal("注記草案生成"), from_literal("月次：開示情報の整理")));
    v.push(ListItemData::new(from_literal("305"), from_literal("勘定補正"), from_literal("月次：仮勘定整理・区分修正")));
    v.push(ListItemData::new(from_literal("306"), from_literal("IFRS評価"), from_literal("月次：見積会計・公正価値測定")));
    v.push(ListItemData::new(from_literal("307"), from_literal("財務諸表生成"), from_literal("月次：制度開示資料作成")));
    v.push(ListItemData::new(from_literal("401"), from_literal("元帳閲覧"), from_literal("照会：総勘定元帳・補助元帳")));
    proof {
        assert(v@.map_values(|it: ListItemData| item_view(it)) =~= seq![
                ("101"@, "原始記録登録"@, "日次：仕訳帳・キャッシュログ入力"@),
                ("102"@, "仕訳検索"@, "日次：仕訳の検索・照会"@),
                ("201"@, "元帳集約"@, "週次：総勘定元帳への転記処理"@),
                ("301"@, "締準備"@, "月次：期間帰属確認・仮仕訳作成"@),
                ("302"@, "締日固定"@, "月次：取引データのロック処理"@),
                ("303"@, "試算表生成"@, "月次：残高検証・異常値抽出"@),
                ("304"@, "注記草案生成"@, "月次：開示情報の整理"@),
                ("305"@, "勘定補正"@, "月次：仮勘定整理・区分修正"@),
                ("306"@, "IFRS評価"@, "月次：見積会計・公正価値測定"@),
                ("307"@, "財務諸表生成"@, "月次：制度開示資料作成"@),
                ("401"@, "元帳閲覧"@, "照会：総勘定元帳・補助元帳"@),
            ]);
    }
    v
}

fn system_menu_items() -> (v: Vec<ListItemData>)
    ensures
        v@.map_values(|it: ListItemData| item_view(it)) == seq![
                ("901"@, "勘定科目マスタ"@, "勘定科目の登録・編集・削除"@),
                ("902"@, "補助科目マスタ"@, "補助科目の登録・編集・削除"@),
                ("903"@, "設定マスタ"@, "言語・表示形式・会計年度・締日・バックアップ設定"@),
                ("904"@, "データインポート"@, "外部データの一括取込"@),
                ("905"@, "データエクスポート"@, "マスタデータの出力"@),
            ],
{
    let mut v: Vec<ListItemData> = Vec::new();
    v.push(ListItemData::new(from_literal("901"), from_literal("勘定科目マスタ"), from_literal("勘定科目の登録・編集・削除")));
    v.push(ListItemData::new(from_literal("902"), from_literal("補助科目マスタ"), from_literal("補助科目の登録・編集・削除")));
    v.push(ListItemData::new(from_literal("903"), from_literal("設定マスタ"), from_literal("言語・表示形式・会計年度・締日・バックアップ設定")));
    v.push(ListItemData::new(from_literal("904"), from_literal("データインポート"), from_literal("外部データの一括取込")));
    v.push(ListItemData::new(from_literal("905"), from_literal("データエクスポート"), from_literal("マスタデータの出力")));
    proof {
        assert(v@.map_values(|it: ListItemData| item_view(it)) =~= seq![
                ("901"@, "勘定科目マスタ"@, "勘定科目の登録・編集・削除"@),
                ("902"@, "補助科目マスタ"@, "補助科目の登録・編集・削除"@),
                ("903"@, "設定マスタ"@, "言語・表示形式・会計年度・締日・バックアップ設定"@),
                ("904"@, "データインポート"@, "外部データの一括取込"@),
                ("905"@, "データエクスポート"@, "マスタデータの出力"@),
            ]);
    }
    v
}

/// The home screen.
pub struct HomePage {
    title: String,
    department: String,
    operator: String,
    log: EventLog,
    business_menu_selector: ListSelector,
    system_menu_selector: ListSelector,
    active_menu: MenuType,
}

impl View for HomePage {
    type V = HomePageModel;

    closed spec fn view(&self) -> HomePageModel {
        HomePageModel {
            title: self.title@,
            department: self.department@,
            operator: self.operator@,
            log: self.log@,
            business: self.business_menu_selector@,
            system: self.system_menu_selector@,
            active: self.active_menu,
        }
    }
}

impl HomePage {
    /// The home screen as the application starts: both menus with their
    /// first entry selected, the business menu active, and two messages
    /// in the log.
    pub fn new() -> (r: Self)
        ensures
            r@.wf(),
            r@.title == "財務会計システム JAVELIN"@,
            r@.department == "主計部"@,
            r@.operator == "担当者"@,
            r@.log == seq![(LogLevel::Info, "システム起動完了"@), (LogLevel::Info, "バージョン: 1.0.0"@)],
            r@.business.title == "業務メニュー"@,
            r@.business.items == seq![
                    ("101"@, "原始記録登録"@, "日次：仕訳帳・キャッシュログ入力"@),
                    ("102"@, "仕訳検索"@, "日次：仕訳の検索・照会"@),
                    ("201"@, "元帳集約"@, "週次：総勘定元帳への転記処理"@),
                    ("301"@, "締準備"@, "月次：期間帰属確認・仮仕訳作成"@),
                    ("302"@, "締日固定"@, "月次：取引データのロック処理"@),
                    ("303"@, "試算表生成"@, "月次：残高検証・異常値抽出"@),
                    ("304"@, "注記草案生成"@, "月次：開示情報の整理"@),
                    ("305"@, "勘定補正"@, "月次：仮勘定整理・区分修正"@),
                    ("306"@, "IFRS評価"@, "月次：見積会計・公正価値測定"@),
                    ("307"@, "財務諸表生成"@, "月次：制度開示資料作成"@),
                    ("401"@, "元帳閲覧"@, "照会：総勘定元帳・補助元帳"@),
                ],
            r@.business.selected == Some(0usize),
            r@.system.title == "システムマスタ"@,
            r@.system.items == seq![
                    ("901"@, "勘定科目マスタ"@, "勘定科目の登録・編集・削除"@),
                    ("902"@, "補助科目マスタ"@, "補助科目の登録・編集・削除"@),
                    ("903"@, "設定マスタ"@, "言語・表示形式・会計年度・締日・バックアップ設定"@),
                    ("904"@, "データインポート"@, "外部データの一括取込"@),
                    ("905"@, "データエクスポート"@, "マスタデータの出力"@),
                ],
            r@.system.selected == Some(0usize),
            r@.active == MenuType::Business,
    {
        let mut log = EventLog::new();
        log.add_info(from_literal("システム起動完了"));
        log.add_info(from_literal("バージョン: 1.0.0"));
        proof {
            assert(log@ =~= seq![(LogLevel::Info, "システム起動完了"@), (LogLevel::Info, "バージョン: 1.0.0"@)]);
        }
        let business = ListSelector::new(from_literal("業務メニュー"), business_menu_items());
        let system = ListSelector::new(from_literal("システムマスタ"), system_menu_items());
        HomePage {
            title: from_literal("財務会計システム JAVELIN"),
            department: from_literal("主計部"),
            operator: from_literal("担当者"),
            log,
            business_menu_selector: business,
            system_menu_selector: system,
            active_menu: MenuType::Business,
        }
    }

    /// Switches to the other menu frame (h/l), and logs the switch.
    pub fn switch_menu(&mut self)
        requires
            old(self)@.wf(),
        ensures
            final(self)@ == old(self)@.switched(),
            final(self)@.wf(),
    {
        match self.active_menu {
            MenuType::Business => {
                self.log.add_info(from_literal("システムマスタメニューに切替"));
                self.active_menu = MenuType::System;
            },
            MenuType::System => {
                self.log.add_info(from_literal("業務メニューに切替"));
                self.active_menu = MenuType::Business;
            },
        }
    }

    /// Logs an error message.
    pub fn add_error(&mut self, message: &str)
        requires
            old(self)@.wf(),
        ensures
            final(self)@ == (HomePageModel {
                log: old(self)@.log.push((LogLevel::Error, message@)),
                ..old(self)@
            }),
            final(self)@.wf(),
    {
        self.log.add_error(from_literal(message));
    }

    /// Moves the selection of the active menu up.
    pub fn select_previous(&mut self)
        requires
            old(self)@.wf(),
        ensures
            final(self)@.wf(),
            old(self)@.active == MenuType::Business ==> final(self)@ == (HomePageModel {
                business: old(self)@.business.previous(),
                ..old(self)@
            }),
            old(self)@.active == MenuType::System ==> final(self)@ == (HomePageModel {
                system: old(self)@.system.previous(),
                ..old(self)@
            }),
    {
        match self.active_menu {
            MenuType::Business => self.business_menu_selector.select_previous(),
            MenuType::System => self.system_menu_selector.select_previous(),
        }
    }

    /// Moves the selection of the active menu down.
    pub fn select_next(&mut self)
        requires
            old(self)@.wf(),
        ensures
            final(self)@.wf(),
            old(self)@.active == MenuType::Business ==> final(self)@ == (HomePageModel {
                business: old(self)@.business.next(),
                ..old(self)@
            }),
            old(self)@.active == MenuType::System ==> final(self)@ == (HomePageModel {
                system: old(self)@.system.next(),
                ..old(self)@
            }),
    {
        match self.active_menu {
            MenuType::Business => self.business_menu_selector.select_next(),
            MenuType::System => self.system_menu_selector.select_next(),
        }
    }

    /// The screen the selected entry of the active menu leads to.
    pub fn get_selected_view(&self) -> (r: Option<ViewType>)
        ensures
            r == self@.selected_view(),
    {
        match self.active_menu {
            MenuType::Business => match self.business_menu_selector.selected_index() {
                Some(idx) => match idx {
                    0 => Some(ViewType::JournalEntry),
                    1 => Some(ViewType::Search),
                    2 => Some(ViewType::LedgerConsolidation),
                    3 => Some(ViewType::ClosingPreparation),
                    4 => Some(ViewType::ClosingLock),
                    5 => Some(ViewType::TrialBalance),
                    6 => Some(ViewType::NoteDraft),
                    7 => Some(ViewType::AccountAdjustment),
                    8 => Some(ViewType::IfrsValuation),
                    9 => Some(ViewType::FinancialStatement),
                    10 => Some(ViewType::Ledger),
                    _ => None,
                },
                None => None,
            },
            MenuType::System => match self.system_menu_selector.selected_index() {
                Some(idx) => match idx {
                    0 => Some(ViewType::AccountMasterManagement),
                    1 => Some(ViewType::SubsidiaryAccountMasterManagement),
                    2 => Some(ViewType::UserSettingsManagement),
                    3 => Some(ViewType::DataImport),
                    4 => Some(ViewType::DataExport),
                    _ => None,
                },
                None => None,
            },
        }
    }

    /// The active menu frame.
    pub fn active_menu(&self) -> (r: MenuType)
        ensures
            r == self@.active,
    {
        self.active_menu
    }

    /// The business menu.
    pub fn business_menu(&self) -> (r: &ListSelector)
        ensures
            r@ == self@.business,
    {
        &self.business_menu_selector
    }

    /// The system-master menu.
    pub fn system_menu(&self) -> (r: &ListSelector)
        ensures
            r@ == self@.system,
    {
        &self.system_menu_selector
    }

    /// The title, the department and the operator shown in the header.
    pub fn header(&self) -> (r: (&str, &str, &str))
        ensures
            r.0@ == self@.title,
            r.1@ == self@.department,
            r.2@ == self@.operator,
    {
        (self.title.as_str(), self.department.as_str(), self.operator.as_str())
    }

    /// The event log.
    pub fn log(&self) -> (r: &EventLog)
        ensures
            r@ == self@.log,
    {
        &self.log
    }
}

impl Default for HomePage {
    fn default() -> (r: Self)
        ensures
            r@.wf(),
            r@.title == "財務会計システム JAVELIN"@,
            r@.department == "主計部"@,
            r@.operator == "担当者"@,
            r@.log == seq![(LogLevel::Info, "システム起動完了"@), (LogLevel::Info, "バージョン: 1.0.0"@)],
            r@.business.title == "業務メニュー"@,
            r@.business.items == seq![
                    ("101"@, "原始記録登録"@, "日次：仕訳帳・キャッシュログ入力"@),
                    ("102"@, "仕訳検索"@, "日次：仕訳の検索・照会"@),
                    ("201"@, "元帳集約"@, "週次：総勘定元帳への転記処理"@),
                    ("301"@, "締準備"@, "月次：期間帰属確認・仮仕訳作成"@),
                    ("302"@, "締日固定"@, "月次：取引データのロック処理"@),
                    ("303"@, "試算表生成"@, "月次：残高検証・異常値抽出"@),
                    ("304"@, "注記草案生成"@, "月次：開示情報の整理"@),
                    ("305"@, "勘定補正"@, "月次：仮勘定整理・区分修正"@),
                    ("306"@, "IFRS評価"@, "月次：見積会計・公正価値測定"@),
                    ("307"@, "財務諸表生成"@, "月次：制度開示資料作成"@),
                    ("401"@, "元帳閲覧"@, "照会：総勘定元帳・補助元帳"@),
                ],
            r@.business.selected == Some(0usize),
            r@.system.title == "システムマスタ"@,
            r@.system.items == seq![
                    ("901"@, "勘定科目マスタ"@, "勘定科目の登録・編集・削除"@),
                    ("902"@, "補助科目マスタ"@, "補助科目の登録・編集・削除"@),
                    ("903"@, "設定マスタ"@, "言語・表示形式・会計年度・締日・バックアップ設定"@),
                    ("904"@, "データインポート"@, "外部データの一括取込"@),
                    ("905"@, "データエクスポート"@, "マスタデータの出力"@),
                ],
            r@.system.selected == Some(0usize),
            r@.active == MenuType::Business,
    {
        HomePage::new()
    }
}

/// Switching frames twice comes back to the frame one started from, with
/// two more messages in the log and the selections untouched.
pub proof fn law_switch_twice_returns(m: HomePageModel)
    ensures
        m.switched().switched().active == m.active,
        m.switched().switched().business == m.business,
        m.switched().switched().system == m.system,
        m.switched().switched().log.len() == m.log.len() + 2,
{
}

/// Every entry of either menu leads to a screen.
pub proof fn law_every_entry_leads_somewhere(i: int)
    ensures
        0 <= i < 11 ==> business_view(i) is Some,
        0 <= i < 5 ==> system_view(i) is Some,
        (i < 0 || i >= 11) ==> business_view(i) is None,
        (i < 0 || i >= 5) ==> system_view(i) is None,
{
}

} // verus!
