//! Presenters: use-case results shaped for the screens.

use vstd::prelude::*;
use crate::adapter::components::data_table::{rows_of, texts_of};
use crate::application::dtos::{AccountMasterItemDto, LoadAccountMasterResponse};
use crate::text::{decimal, format_u64, from_literal, join2, text_eq};

verus! {

/// The account master as a table: headers and rows of text.
#[derive(Debug, Clone)]
pub struct AccountMasterViewModel {
    pub headers: Vec<String>,
    pub rows: Vec<Vec<String>>,
}

/// The Japanese name of an account type; an unknown type is shown as it is.
pub open spec fn account_type_label(t: Seq<char>) -> Seq<char> {
    if t == "Asset"@ {
        "資産"@
    } else if t == "Liability"@ {
        "負債"@
    } else if t == "Equity"@ {
        "純資産"@
    } else if t == "Revenue"@ {
        "収益"@
    } else if t == "Expense"@ {
        "費用"@
    } else {
        t
    }
}

/// The Japanese name of an account type; an unknown type is shown as it is.
pub fn format_account_type(account_type: &str) -> (r: String)
    ensures
        r@ == account_type_label(account_type@),
{
    if text_eq(account_type, "Asset") {
        from_literal("資産")
    } else if text_eq(account_type, "Liability") {
        from_literal("負債")
    } else if text_eq(account_type, "Equity") {
        from_literal("純資産")
    } else if text_eq(account_type, "Revenue") {
        from_literal("収益")
    } else if text_eq(account_type, "Expense") {
        from_literal("費用")
    } else {
        from_literal(account_type)
    }
}

/// The row of an account: code, name, and the Japanese name of its type.
pub open spec fn account_row(a: AccountMasterItemDto) -> Seq<Seq<char>> {
    seq![a.code@, a.name@, account_type_label(a.account_type@)]
}

/// The account master as the account master screen shows it.
pub fn account_master_view_model(response: &LoadAccountMasterResponse) -> (r: AccountMasterViewModel)
    ensures
        texts_of(r.headers@) == seq!["コード"@, "科目名"@, "区分"@],
        rows_of(r.rows@) == response.accounts@.map_values(|a: AccountMasterItemDto| account_row(a)),
{
    let mut headers: Vec<String> = Vec::new();
    headers.push(from_literal("コード"));
    headers.push(from_literal("科目名"));
    headers.push(from_literal("区分"));
    proof {
        assert(texts_of(headers@) =~= seq!["コード"@, "科目名"@, "区分"@]);
    }
    let mut rows: Vec<Vec<String>> = Vec::new();
    let mut i: usize = 0;
    while i < response.accounts.len()
        invariant
            i <= response.accounts@.len(),
            rows_of(rows@) == response.accounts@.subrange(0, i as int).map_values(
                |a: AccountMasterItemDto| account_row(a),
            ),
        decreases response.accounts@.len() - i,
    {
        let a = &response.accounts[i];
        let mut row: Vec<String> = Vec::new();
        row.push(a.code.clone());
        row.push(a.name.clone());
        row.push(format_account_type(a.account_type.as_str()));
        proof {
            assert(texts_of(row@) =~= account_row(*a));
        }
        let ghost before = rows@;
        rows.push(row);
        proof {
            assert(rows_of(rows@) =~= rows_of(before).push(texts_of(row@)));
            assert(response.accounts@.subrange(0, i + 1).map_values(|a: AccountMasterItemDto| account_row(a))
                =~= response.accounts@.subrange(0, i as int).map_values(|a: AccountMasterItemDto| account_row(a)).push(
                account_row(response.accounts@[i as int])));
        }
        i = i + 1;
    }
    proof {
        assert(response.accounts@.subrange(0, response.accounts@.len() as int) =~= response.accounts@);
    }
    AccountMasterViewModel { headers, rows }
}

/// The texts of a list of literals.
pub open spec fn literal_texts(v: Seq<&'static str>) -> Seq<Seq<char>> {
    v.map_values(|s: &'static str| s@)
}

fn three_literals(a: &'static str, b: &'static str, c: &'static str) -> (r: Vec<&'static str>)
    ensures
        literal_texts(r@) == seq![a@, b@, c@],
{
    let mut r: Vec<&'static str> = Vec::new();
    r.push(a);
    r.push(b);
    r.push(c);
    proof {
        assert(literal_texts(r@) =~= seq![a@, b@, c@]);
    }
    r
}

/// An account of the account master screen.
#[derive(Debug, Clone)]
pub struct AccountMasterItemViewModel {
    pub code: String,
    pub name: String,
    pub account_type_label: String,
}

impl AccountMasterItemViewModel {
    /// The column headers of the account list.
    pub fn headers() -> (r: Vec<&'static str>)
        ensures
            literal_texts(r@) == seq!["コード"@, "名称"@, "種別"@],
    {
        three_literals("コード", "名称", "種別")
    }

    /// The account as a row: code, name, type.
    pub fn to_row(&self) -> (r: Vec<String>)
        ensures
            texts_of(r@) == seq![self.code@, self.name@, self.account_type_label@],
    {
        let mut r: Vec<String> = Vec::new();
        r.push(self.code.clone());
        r.push(self.name.clone());
        r.push(self.account_type_label.clone());
        proof {
            assert(texts_of(r@) =~= seq![self.code@, self.name@, self.account_type_label@]);
        }
        r
    }
}

/// A subsidiary account of the subsidiary account master screen.
#[derive(Debug, Clone)]
pub struct SubsidiaryAccountMasterItemViewModel {
    pub code: String,
    pub name: String,
    pub parent_account_code: String,
}

impl SubsidiaryAccountMasterItemViewModel {
    /// The column headers of the subsidiary account list.
    pub fn headers() -> (r: Vec<&'static str>)
        ensures
            literal_texts(r@) == seq!["コード"@, "名称"@, "親科目"@],
    {
        three_literals("コード", "名称", "親科目")
    }

    /// The subsidiary account as a row: code, name, parent account.
    pub fn to_row(&self) -> (r: Vec<String>)
        ensures
            texts_of(r@) == seq![self.code@, self.name@, self.parent_account_code@],
    {
        let mut r: Vec<String> = Vec::new();
        r.push(self.code.clone());
        r.push(self.name.clone());
        r.push(self.parent_account_code.clone());
        proof {
            assert(texts_of(r@) =~= seq![self.code@, self.name@, self.parent_account_code@]);
        }
        r
    }
}

/// The application settings as the settings screen shows them.
#[derive(Debug, Clone)]
pub struct ApplicationSettingsViewModel {
    pub default_company_code: Option<String>,
    pub language_label: String,
    pub decimal_places: u8,
    pub date_format: String,
    pub fiscal_year_start_month_label: String,
    pub closing_day: u8,
    pub auto_backup_label: String,
    pub backup_retention_days: u32,
}

/// The settings as (name, value) texts, in the order the screen lists them.
pub open spec fn settings_pairs(m: ApplicationSettingsViewModel) -> Seq<(Seq<char>, Seq<char>)> {
    seq![
        ("デフォルト会社コード"@, match m.default_company_code {
            Some(c) => c@,
            None => "未設定"@,
        }),
        ("言語"@, m.language_label@),
        ("小数点以下桁数"@, decimal(m.decimal_places as nat)),
        ("日付フォーマット"@, m.date_format@),
        ("会計年度開始月"@, m.fiscal_year_start_month_label@),
        ("締日"@, decimal(m.closing_day as nat) + "日"@),
        ("自動バックアップ"@, m.auto_backup_label@),
        ("バックアップ保持日数"@, decimal(m.backup_retention_days as nat) + "日"@),
    ]
}

/// The views of a list of pairs of strings.
pub open spec fn pair_texts(v: Seq<(String, String)>) -> Seq<(Seq<char>, Seq<char>)> {
    v.map_values(|p: (String, String)| (p.0@, p.1@))
}

fn push_pair(v: &mut Vec<(String, String)>, k: String, x: String)
    ensures
        pair_texts(final(v)@) == pair_texts(old(v)@).push((k@, x@)),
{
    let ghost before = v@;
    v.push((k, x));
    proof {
        assert(pair_texts(v@) =~= pair_texts(before).push((k@, x@)));
    }
}

impl ApplicationSettingsViewModel {
    /// The settings as (name, value) pairs: an unset default company shows
    /// as "未設定", days carry the suffix "日".
    pub fn to_key_value_pairs(&self) -> (r: Vec<(String, String)>)
        ensures
            pair_texts(r@) == settings_pairs(*self),
    {
        let mut r: Vec<(String, String)> = Vec::new();
        let company = match &self.default_company_code {
            Some(c) => c.clone(),
            None => from_literal("未設定"),
        };
        push_pair(&mut r, from_literal("デフォルト会社コード"), company);
        push_pair(&mut r, from_literal("言語"), self.language_label.clone());
        push_pair(&mut r, from_literal("小数点以下桁数"), format_u64(self.decimal_places as u64));
        push_pair(&mut r, from_literal("日付フォーマット"), self.date_format.clone());
        push_pair(&mut r, from_literal("会計年度開始月"), self.fiscal_year_start_month_label.clone());
        let day = format_u64(self.closing_day as u64);
        push_pair(&mut r, from_literal("締日"), join2(day.as_str(), "日"));
        push_pair(&mut r, from_literal("自動バックアップ"), self.auto_backup_label.clone());
        let days = format_u64(self.backup_retention_days as u64);
        push_pair(&mut r, from_literal("バックアップ保持日数"), join2(days.as_str(), "日"));
        proof {
            assert(pair_texts(r@) =~= settings_pairs(*self));
        }
        r
    }
}

} // verus!
