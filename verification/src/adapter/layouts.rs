//! Screen layouts: a titled frame, a paged master list, and a settings list.

use vstd::prelude::*;
use crate::adapter::pages::screen::{status_of, LoadingState, LoadingStatus};

verus! {

/// A titled frame around a screen's content.
pub struct MainLayout {
    title: String,
}

impl MainLayout {
    /// The title.
    pub closed spec fn title(&self) -> Seq<char> {
        self.title@
    }

    /// A frame with this title.
    pub fn new(title: String) -> (r: Self)
        ensures
            r.title() == title@,
    {
        MainLayout { title }
    }

    /// The title.
    pub fn title_text(&self) -> (r: &str)
        ensures
            r@ == self.title(),
    {
        self.title.as_str()
    }
}

/// The number of rows one page of a master list shows.
pub const PAGE_SIZE: usize = 20;

/// How many items page `page` (counted from 0) of a list of `total` items shows.
pub open spec fn page_len(total: nat, page: nat) -> nat {
    if page * (PAGE_SIZE as nat) >= total {
        0
    } else if total - page * (PAGE_SIZE as nat) >= PAGE_SIZE as nat {
        PAGE_SIZE as nat
    } else {
        (total - page * (PAGE_SIZE as nat)) as nat
    }
}

/// The abstract state of a master list.
pub struct MasterListModel {
    pub title: Seq<char>,
    pub total: nat,
    pub current_page: usize,
    pub selected_index: usize,
    pub status: LoadingStatus,
}

/// A paged list of master records.
pub struct MasterListTemplate<T> {
    title: String,
    items: Vec<T>,
    current_page: usize,
    selected_index: usize,
    state: LoadingState,
}

impl<T> MasterListTemplate<T> {
    /// The abstract state.
    pub closed spec fn model(&self) -> MasterListModel {
        MasterListModel {
            title: self.title@,
            total: self.items@.len(),
            current_page: self.current_page,
            selected_index: self.selected_index,
            status: status_of(self.state),
        }
    }

    /// The records.
    pub closed spec fn records(&self) -> Seq<T> {
        self.items@
    }

    /// An empty list, waiting for its data.
    pub fn new(title: String) -> (r: Self)
        ensures
            r.model() == (MasterListModel {
                title: title@,
                total: 0,
                current_page: 0,
                selected_index: 0,
                status: LoadingStatus::Loading,
            }),
            r.records() == Seq::<T>::empty(),
    {
        MasterListTemplate {
            title,
            items: Vec::new(),
            current_page: 0,
            selected_index: 0,
            state: LoadingState::Loading,
        }
    }

    /// The records arrived: the page and selection to show come with them.
    pub fn set_data(&mut self, items: Vec<T>, current_page: usize, selected_index: usize)
        ensures
            final(self).records() == items@,
            final(self).model() == (MasterListModel {
                total: items@.len(),
                current_page: current_page,
                selected_index: selected_index,
                status: LoadingStatus::Loaded,
                ..old(self).model()
            }),
    {
        self.items = items;
        self.current_page = current_page;
        self.selected_index = selected_index;
        self.state = LoadingState::Loaded;
    }

    /// The records are being loaded again.
    pub fn set_loading(&mut self)
        ensures
            final(self).records() == old(self).records(),
            final(self).model() == (MasterListModel { status: LoadingStatus::Loading, ..old(self).model() }),
    {
        self.state = LoadingState::Loading;
    }

    /// Loading failed.
    pub fn set_error(&mut self, error: String)
        ensures
            final(self).records() == old(self).records(),
            final(self).model() == (MasterListModel {
                status: LoadingStatus::Failed(error@),
                ..old(self).model()
            }),
    {
        self.state = LoadingState::Error(error);
    }

    /// The number of records.
    pub fn total_items(&self) -> (r: usize)
        ensures
            r == self.model().total,
    {
        self.items.len()
    }

    /// The number of records on the current page.
    pub fn current_page_items_len(&self) -> (r: usize)
        ensures
            r == page_len(self.model().total, self.model().current_page as nat),
    {
        let total = self.items.len();
        if self.current_page > total / PAGE_SIZE {
            proof {
                assert(self.current_page * (PAGE_SIZE as nat) >= total) by (nonlinear_arith)
                    requires
                        self.current_page > total / 20,
                        PAGE_SIZE == 20,
                ;
            }
            return 0;
        }
        let start = self.current_page * PAGE_SIZE;
        if start >= total {
            0
        } else if total - start >= PAGE_SIZE {
            PAGE_SIZE
        } else {
            total - start
        }
    }
}

/// The abstract state of a settings list.
pub struct SettingsModel<T> {
    pub title: Seq<char>,
    pub data: Option<T>,
    pub status: LoadingStatus,
}

/// A list of settings, one (name, value) pair per line.
pub struct SettingsTemplate<T> {
    title: String,
    data: Option<T>,
    state: LoadingState,
}

impl<T> SettingsTemplate<T> {
    /// The abstract state.
    pub closed spec fn model(&self) -> SettingsModel<T> {
        SettingsModel { title: self.title@, data: self.data, status: status_of(self.state) }
    }

    /// An empty list, waiting for its data.
    pub fn new(title: String) -> (r: Self)
        ensures
            r.model() == (SettingsModel::<T> { title: title@, data: None, status: LoadingStatus::Loading }),
    {
        SettingsTemplate { title, data: None, state: LoadingState::Loading }
    }

    /// The settings arrived.
    pub fn set_data(&mut self, data: T)
        ensures
            final(self).model() == (SettingsModel { data: Some(data), status: LoadingStatus::Loaded, ..old(self).model() }),
    {
        self.data = Some(data);
        self.state = LoadingState::Loaded;
    }

    /// The settings are being loaded again.
    pub fn set_loading(&mut self)
        ensures
            final(self).model() == (SettingsModel { status: LoadingStatus::Loading, ..old(self).model() }),
    {
        self.state = LoadingState::Loading;
    }

    /// Loading failed.
    pub fn set_error(&mut self, error: String)
        ensures
            final(self).model() == (SettingsModel { status: LoadingStatus::Failed(error@), ..old(self).model() }),
    {
        self.state = LoadingState::Error(error);
    }
}

/// Pages cover the list: page `p` shows at most a page's worth of records,
/// and the pages before the last full one are full.
pub proof fn law_pages_partition(total: nat, page: nat)
    ensures
        page_len(total, page) <= PAGE_SIZE,
        (page + 1) * (PAGE_SIZE as nat) <= total ==> page_len(total, page) == PAGE_SIZE,
        page * (PAGE_SIZE as nat) >= total ==> page_len(total, page) == 0,
{
    assert((page + 1) * (PAGE_SIZE as nat) == page * (PAGE_SIZE as nat) + PAGE_SIZE as nat) by (nonlinear_arith);
}

} // verus!
