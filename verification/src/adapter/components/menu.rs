//! A menu: keyed items, one of which may be selected.

use vstd::prelude::*;
use crate::text::{from_literal, push_text, string_push};

verus! {

/// A menu item and the key that chooses it.
pub struct MenuItem {
    pub label: String,
    pub key: char,
}

/// A line of the drawn menu, highlighted or not.
pub struct MenuLine {
    pub text: String,
    pub highlighted: bool,
}

/// A titled list of items.
pub struct Menu {
    title: String,
    items: Vec<MenuItem>,
    selected_index: Option<usize>,
}

/// The text of an item: "[key] label".
pub open spec fn item_text(key: char, label: Seq<char>) -> Seq<char> {
    seq!['['] + seq![key] + "] "@ + label
}

impl Menu {
    /// The title.
    pub closed spec fn title(&self) -> Seq<char> {
        self.title@
    }

    /// The items as (label, key).
    pub closed spec fn items(&self) -> Seq<(Seq<char>, char)> {
        self.items@.map_values(|it: MenuItem| (it.label@, it.key))
    }

    /// The selected item, if any.
    pub closed spec fn selection(&self) -> Option<usize> {
        self.selected_index
    }

    /// An empty menu with nothing selected.
    pub fn new(title: String) -> (r: Self)
        ensures
            r.title() == title@,
            r.items().len() == 0,
            r.selection() is None,
    {
        Menu { title, items: Vec::new(), selected_index: None }
    }

    /// The menu with one more item at the end.
    pub fn add_item(self, label: String, key: char) -> (r: Self)
        ensures
            r.title() == self.title(),
            r.items() == self.items().push((label@, key)),
            r.selection() == self.selection(),
    {
        let mut s = self;
        let ghost before = s.items@;
        s.items.push(MenuItem { label, key });
        proof {
            assert(s.items@.map_values(|it: MenuItem| (it.label@, it.key)) =~= before.map_values(
                |it: MenuItem| (it.label@, it.key),
            ).push((label@, key)));
        }
        s
    }

    /// The menu with this selection.
    pub fn selected_index(self, index: Option<usize>) -> (r: Self)
        ensures
            r.title() == self.title(),
            r.items() == self.items(),
            r.selection() == index,
    {
        let mut s = self;
        s.selected_index = index;
        s
    }

    /// The lines of the drawn menu: "[key] label" for each item, the
    /// selected one highlighted.
    pub fn lines(&self) -> (r: Vec<MenuLine>)
        ensures
            r@.len() == self.items().len(),
            forall|i: int| 0 <= i < self.items().len() ==> {
                &&& #[trigger] r@[i].text@ == item_text(self.items()[i].1, self.items()[i].0)
                &&& r@[i].highlighted == (self.selection() == Some(i as usize))
            },
    {
        let mut r: Vec<MenuLine> = Vec::new();
        let mut i: usize = 0;
        while i < self.items.len()
            invariant
                i <= self.items@.len(),
                r@.len() == i,
                forall|k: int| 0 <= k < i ==> {
                    &&& #[trigger] r@[k].text@ == item_text(self.items()[k].1, self.items()[k].0)
                    &&& r@[k].highlighted == (self.selection() == Some(k as usize))
                },
            decreases self.items@.len() - i,
        {
            let item = &self.items[i];
            let mut text = from_literal("[");
            string_push(&mut text, item.key);
            push_text(&mut text, "] ");
            push_text(&mut text, item.label.as_str());
            proof {
                reveal_strlit("[");
                assert(text@ =~= item_text(item.key, item.label@));
                assert(self.items()[i as int] == (item.label@, item.key));
            }
            let highlighted = match self.selected_index {
                Some(s) => s == i,
                None => false,
            };
            let ghost prev = r@;
            r.push(MenuLine { text, highlighted });
            proof {
                assert(highlighted == (self.selection() == Some(i)));
                assert forall|k: int| 0 <= k < i + 1 implies {
                    &&& #[trigger] r@[k].text@ == item_text(self.items()[k].1, self.items()[k].0)
                    &&& r@[k].highlighted == (self.selection() == Some(k as usize))
                } by {
                    if k < i {
                        assert(r@[k] == prev[k]);
                    }
                }
            }
            i = i + 1;
        }
        r
    }

    /// The title.
    pub fn title_text(&self) -> (r: &str)
        ensures
            r@ == self.title(),
    {
        self.title.as_str()
    }
}

} // verus!
