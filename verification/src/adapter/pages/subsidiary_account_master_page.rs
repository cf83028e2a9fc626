//! Screen 902, the subsidiary account master, page by page.

use vstd::prelude::*;
use crate::adapter::layouts::{MasterListModel, MasterListTemplate};
use crate::adapter::pages::screen::LoadingStatus;
use crate::adapter::presenter::SubsidiaryAccountMasterItemViewModel;
use crate::text::from_literal;

verus! {

/// The screen.
pub struct SubsidiaryAccountMasterPage {
    template: MasterListTemplate<SubsidiaryAccountMasterItemViewModel>,
}

impl SubsidiaryAccountMasterPage {
    /// The abstract state of the list.
    pub closed spec fn model(&self) -> MasterListModel {
        self.template.model()
    }

    /// The records.
    pub closed spec fn records(&self) -> Seq<SubsidiaryAccountMasterItemViewModel> {
        self.template.records()
    }

    /// The list as it opens: titled "補助科目マスタ", empty, on its first page
    /// and row, waiting for its data.
    pub open spec fn opened() -> MasterListModel {
        MasterListModel {
            title: "補助科目マスタ"@,
            total: 0,
            current_page: 0,
            selected_index: 0,
            status: LoadingStatus::Loading,
        }
    }

    /// An empty list titled "補助科目マスタ", waiting for its data.
    pub fn new() -> (r: Self)
        ensures
            r.model() == Self::opened(),
            r.records() == Seq::<SubsidiaryAccountMasterItemViewModel>::empty(),
    {
        SubsidiaryAccountMasterPage { template: MasterListTemplate::new(from_literal("補助科目マスタ")) }
    }

    /// The records arrived, with the page and selection to show.
    pub fn set_data(&mut self, accounts: Vec<SubsidiaryAccountMasterItemViewModel>, current_page: usize, selected_index: usize)
        ensures
            final(self).records() == accounts@,
            final(self).model() == (MasterListModel {
                total: accounts@.len(),
                current_page: current_page,
                selected_index: selected_index,
                status: LoadingStatus::Loaded,
                ..old(self).model()
            }),
    {
        self.template.set_data(accounts, current_page, selected_index);
    }

    /// The records are being loaded again.
    pub fn set_loading(&mut self)
        ensures
            final(self).records() == old(self).records(),
            final(self).model() == (MasterListModel { status: LoadingStatus::Loading, ..old(self).model() }),
    {
        self.template.set_loading();
    }

    /// Loading failed.
    pub fn set_error(&mut self, error: String)
        ensures
            final(self).records() == old(self).records(),
            final(self).model() == (MasterListModel {
                status: LoadingStatus::Failed(error@),
                ..old(self).model()
            }),
    {
        self.template.set_error(error);
    }

    /// The number of records.
    pub fn total_items(&self) -> (r: usize)
        ensures
            r == self.model().total,
    {
        self.template.total_items()
    }

    /// The number of records on the current page.
    pub fn current_page_items_len(&self) -> (r: usize)
        ensures
            r == crate::adapter::layouts::page_len(self.model().total, self.model().current_page as nat),
    {
        self.template.current_page_items_len()
    }
}

impl Default for SubsidiaryAccountMasterPage {
    fn default() -> (r: Self)
        ensures
            r.model() == SubsidiaryAccountMasterPage::opened(),
            r.records().len() == 0,
    {
        SubsidiaryAccountMasterPage::new()
    }
}

} // verus!
