//! A simple form: one line per field.

use vstd::prelude::*;
use crate::text::join3;

verus! {

/// A field of a form.
pub struct FormField {
    pub label: String,
    pub value: String,
    pub is_focused: bool,
}

/// A line of the drawn form, highlighted or not.
pub struct FormLine {
    pub text: String,
    pub highlighted: bool,
}

/// A titled list of fields.
pub struct Form {
    title: String,
    fields: Vec<FormField>,
}

/// A field as plain values: label, value, focus.
pub open spec fn field_view(f: FormField) -> (Seq<char>, Seq<char>, bool) {
    (f.label@, f.value@, f.is_focused)
}

impl Form {
    /// The title.
    pub closed spec fn title(&self) -> Seq<char> {
        self.title@
    }

    /// The fields, in order.
    pub closed spec fn fields(&self) -> Seq<(Seq<char>, Seq<char>, bool)> {
        self.fields@.map_values(|f: FormField| field_view(f))
    }

    /// An empty form.
    pub fn new(title: String) -> (r: Self)
        ensures
            r.title() == title@,
            r.fields().len() == 0,
    {
        Form { title, fields: Vec::new() }
    }

    /// The form with one more field at the end.
    pub fn add_field(self, label: String, value: String, is_focused: bool) -> (r: Self)
        ensures
            r.title() == self.title(),
            r.fields() == self.fields().push((label@, value@, is_focused)),
    {
        let mut s = self;
        let ghost before = s.fields@;
        s.fields.push(FormField { label, value, is_focused });
        proof {
            assert(s.fields@.map_values(|f: FormField| field_view(f)) =~= before.map_values(
                |f: FormField| field_view(f),
            ).push((label@, value@, is_focused)));
        }
        s
    }

    /// The lines of the drawn form: for each field "label: value",
    /// highlighted when the field is focused, then an empty line.
    pub fn lines(&self) -> (r: Vec<FormLine>)
        ensures
            r@.len() == 2 * self.fields().len(),
            forall|i: int| 0 <= i < self.fields().len() ==> {
                &&& #[trigger] r@[2 * i].text@ == self.fields()[i].0 + ": "@ + self.fields()[i].1
                &&& r@[2 * i].highlighted == self.fields()[i].2
                &&& r@[2 * i + 1].text@.len() == 0
                &&& !r@[2 * i + 1].highlighted
            },
    {
        let mut r: Vec<FormLine> = Vec::new();
        let mut i: usize = 0;
        while i < self.fields.len()
            invariant
                i <= self.fields@.len(),
                r@.len() == 2 * i,
                forall|k: int| 0 <= k < i ==> {
                    &&& #[trigger] r@[2 * k].text@ == self.fields()[k].0 + ": "@ + self.fields()[k].1
                    &&& r@[2 * k].highlighted == self.fields()[k].2
                    &&& r@[2 * k + 1].text@.len() == 0
                    &&& !r@[2 * k + 1].highlighted
                },
            decreases self.fields@.len() - i,
        {
            let f = &self.fields[i];
            let text = join3(f.label.as_str(), ": ", f.value.as_str());
            r.push(FormLine { text, highlighted: f.is_focused });
            r.push(FormLine { text: String::new(), highlighted: false });
            i = i + 1;
        }
        r
    }

    /// The title.
    pub fn title_text(&self) -> (r: &str)
        ensures
            r@ == self.title(),
    {
        self.title.as_str()
    }
}

} // verus!
