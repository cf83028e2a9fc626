//! A framed list of menu entries with a selection.

use vstd::prelude::*;

verus! {

/// An entry of a menu list: its screen number, name and description.
#[derive(Clone, Debug)]
pub struct ListItemData {
    pub code: String,
    pub name: String,
    pub description: String,
}

impl ListItemData {
    /// An entry.
    pub fn new(code: String, name: String, description: String) -> (r: Self)
        ensures
            r.code@ == code@,
            r.name@ == name@,
            r.description@ == description@,
    {
        ListItemData { code, name, description }
    }
}

/// An entry as plain values: code, name, description.
pub open spec fn item_view(it: ListItemData) -> (Seq<char>, Seq<char>, Seq<char>) {
    (it.code@, it.name@, it.description@)
}

/// The abstract state of a list selector.
pub struct ListSelectorModel {
    pub title: Seq<char>,
    pub items: Seq<(Seq<char>, Seq<char>, Seq<char>)>,
    pub selected: Option<usize>,
    pub active: bool,
}

impl ListSelectorModel {
    /// The selection, when there is one, is an entry of the list.
    pub open spec fn wf(self) -> bool {
        &&& self.items.len() <= usize::MAX
        &&& self.selected matches Some(i) ==> i < self.items.len()
    }

    /// After moving down: the entry below, stopping at the last one.
    pub open spec fn next(self) -> ListSelectorModel {
        match self.selected {
            Some(i) => if i + 1 < self.items.len() {
                ListSelectorModel { selected: Some((i + 1) as usize), ..self }
            } else {
                self
            },
            None => if self.items.len() > 0 {
                ListSelectorModel { selected: Some(0), ..self }
            } else {
                self
            },
        }
    }

    /// After moving up: the entry above, stopping at the first one.
    pub open spec fn previous(self) -> ListSelectorModel {
        match self.selected {
            Some(i) => if i > 0 {
                ListSelectorModel { selected: Some((i - 1) as usize), ..self }
            } else {
                self
            },
            None => self,
        }
    }
}

/// A titled list; the first entry starts selected.
pub struct ListSelector {
    title: String,
    items: Vec<ListItemData>,
    selected: Option<usize>,
    active: bool,
}

impl View for ListSelector {
    type V = ListSelectorModel;

    closed spec fn view(&self) -> ListSelectorModel {
        ListSelectorModel {
            title: self.title@,
            items: self.items@.map_values(|it: ListItemData| item_view(it)),
            selected: self.selected,
            active: self.active,
        }
    }
}

impl ListSelector {
    /// A list with its first entry selected (none, if it is empty), not active.
    pub fn new(title: String, items: Vec<ListItemData>) -> (r: Self)
        ensures
            r@.title == title@,
            r@.items == items@.map_values(|it: ListItemData| item_view(it)),
            r@.selected == (if items@.len() > 0 { Some(0usize) } else { None }),
            !r@.active,
            r@.wf(),
    {
        let selected = if items.len() > 0 { Some(0) } else { None };
        ListSelector { title, items, selected, active: false }
    }

    /// Moves the selection down one entry.
    pub fn select_next(&mut self)
        requires
            old(self)@.wf(),
        ensures
            final(self)@ == old(self)@.next(),
            final(self)@.wf(),
    {
        match self.selected {
            Some(i) => {
                assert(i < self.items@.len());
                if i < self.items.len() - 1 {
                    self.selected = Some(i + 1);
                }
            },
            None => {
                if self.items.len() > 0 {
                    self.selected = Some(0);
                }
            },
        }
    }

    /// Moves the selection up one entry.
    pub fn select_previous(&mut self)
        requires
            old(self)@.wf(),
        ensures
            final(self)@ == old(self)@.previous(),
            final(self)@.wf(),
    {
        match self.selected {
            Some(i) => {
                if i > 0 {
                    self.selected = Some(i - 1);
                }
            },
            None => {},
        }
    }

    /// The selected entry, if any.
    pub fn selected_index(&self) -> (r: Option<usize>)
        ensures
            r == self@.selected,
    {
        self.selected
    }

    /// Marks the list as the active one (drawn highlighted) or not.
    pub fn set_active(&mut self, active: bool)
        ensures
            final(self)@ == (ListSelectorModel { active: active, ..old(self)@ }),
    {
        self.active = active;
    }

    /// The title.
    pub fn title_text(&self) -> (r: &str)
        ensures
            r@ == self@.title,
    {
        self.title.as_str()
    }

    /// The entries.
    pub fn items(&self) -> (r: &Vec<ListItemData>)
        ensures
            r@.map_values(|it: ListItemData| item_view(it)) == self@.items,
    {
        &self.items
    }

    /// Whether the list is the active one.
    pub fn is_active(&self) -> (r: bool)
        ensures
            r == self@.active,
    {
        self.active
    }
}

} // verus!
