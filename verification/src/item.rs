//! One feed entry and its mathematical model.

use vstd::prelude::*;
use vstd::std_specs::cmp::PartialEqSpecImpl;

verus! {

/// The model of an [`Item`]: each of the five fields as an optional text.
pub ghost struct ItemView {
    pub title: Option<Seq<char>>,
    pub link: Option<Seq<char>>,
    pub description: Option<Seq<char>>,
    pub author: Option<Seq<char>>,
    pub pub_date: Option<Seq<char>>,
}

/// One entry of a feed. Every field is optional; two entries are the same
/// entry exactly when all five fields agree.
#[derive(Debug)]
pub struct Item {
    pub title: Option<String>,
    pub link: Option<String>,
    pub description: Option<String>,
    pub author: Option<String>,
    pub pub_date: Option<String>,
}

/// The model of an optional text.
pub open spec fn text_view(t: Option<String>) -> Option<Seq<char>> {
    match t {
        Some(s) => Some(s@),
        None => None,
    }
}

impl View for Item {
    type V = ItemView;

    open spec fn view(&self) -> ItemView {
        ItemView {
            title: text_view(self.title),
            link: text_view(self.link),
            description: text_view(self.description),
            author: text_view(self.author),
            pub_date: text_view(self.pub_date),
        }
    }
}

/// The models of a sequence of entries, in order.
pub open spec fn items_view(items: Seq<Item>) -> Seq<ItemView> {
    items.map_values(|it: Item| it@)
}

/// Whether two optional texts agree: both absent, or both present with the
/// same characters.
pub fn same_text(a: &Option<String>, b: &Option<String>) -> (r: bool)
    ensures
        r == (text_view(*a) == text_view(*b)),
{
    match (a, b) {
        (Some(x), Some(y)) => *x == *y,
        (None, None) => true,
        _ => false,
    }
}

/// A copy of an optional text.
pub fn clone_text(a: &Option<String>) -> (r: Option<String>)
    ensures
        text_view(r) == text_view(*a),
{
    match a {
        Some(s) => Some(s.clone()),
        None => None,
    }
}

impl PartialEq for Item {
    fn eq(&self, other: &Item) -> (r: bool) {
        same_text(&self.title, &other.title) && same_text(&self.link, &other.link) && same_text(
            &self.description,
            &other.description,
        ) && same_text(&self.author, &other.author) && same_text(&self.pub_date, &other.pub_date)
    }
}

impl PartialEqSpecImpl for Item {
    open spec fn obeys_eq_spec() -> bool {
        true
    }

    open spec fn eq_spec(&self, other: &Item) -> bool {
        self@ == other@
    }
}

impl Clone for Item {
    fn clone(&self) -> (r: Item)
        ensures
            r@ == self@,
    {
        Item {
            title: clone_text(&self.title),
            link: clone_text(&self.link),
            description: clone_text(&self.description),
            author: clone_text(&self.author),
            pub_date: clone_text(&self.pub_date),
        }
    }
}

/// Whether `items` holds an entry equal to `wanted`.
pub fn contains_item(items: &Vec<Item>, wanted: &Item) -> (r: bool)
    ensures
        r == items_view(items@).contains(wanted@),
{
    let mut i: usize = 0;
    while i < items.len()
        invariant
            i <= items.len(),
            forall|k: int| 0 <= k < i ==> items_view(items@)[k] != wanted@,
        decreases items.len() - i,
    {
        if items[i] == *wanted {
            assert(items_view(items@)[i as int] == wanted@);
            return true;
        }
        i += 1;
    }
    false
}

} // verus!
