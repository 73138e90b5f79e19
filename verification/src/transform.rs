//! Entries made ready for presentation.

use vstd::prelude::*;
use crate::date::{convert_pub_date, presents_date};
use crate::item::{clone_text, items_view, text_view, Item, ItemView};

verus! {

/// An entry as the notification shows it: the fields of the feed entry, with
/// the publication date rewritten for reading.
#[derive(Debug)]
pub struct SerItem {
    pub title: Option<String>,
    pub link: Option<String>,
    pub description: Option<String>,
    pub author: Option<String>,
    pub pub_date: Option<String>,
}

impl View for SerItem {
    type V = ItemView;

    open spec fn view(&self) -> ItemView {
        ItemView {
            title: text_view(self.title),
            link: text_view(self.link),
            description: text_view(self.description),
            author: text_view(self.author),
            pub_date: text_view(self.pub_date),
        }
    }
}

/// Whether `shown` presents the entry `given`: title, link, description and
/// author are the same, absent where they were absent, and the publication
/// date is presented as `presents_date` says.
pub open spec fn presents_item(given: ItemView, shown: ItemView) -> bool {
    &&& shown.title == given.title
    &&& shown.link == given.link
    &&& shown.description == given.description
    &&& shown.author == given.author
    &&& presents_date(given.pub_date, shown.pub_date)
}

/// The models of a sequence of presented entries, in order.
pub open spec fn ser_items_view(items: Seq<SerItem>) -> Seq<ItemView> {
    items.map_values(|it: SerItem| it@)
}

/// Whether `shown` presents the entries `given`, one for one and in order.
pub open spec fn presents_items(given: Seq<ItemView>, shown: Seq<ItemView>) -> bool {
    &&& shown.len() == given.len()
    &&& forall|i: int| 0 <= i < given.len() ==> presents_item(given[i], #[trigger] shown[i])
}

/// One entry made ready for presentation.
pub fn convert_to_ser_item(item: &Item) -> (shown: SerItem)
    ensures
        presents_item(item@, shown@),
{
    SerItem {
        title: clone_text(&item.title),
        link: clone_text(&item.link),
        description: clone_text(&item.description),
        author: clone_text(&item.author),
        pub_date: convert_pub_date(&item.pub_date),
    }
}

/// The entries made ready for presentation, one for one and in order.
pub fn convert_to_ser_items(items: &Vec<Item>) -> (ser_items: Vec<SerItem>)
    ensures
        presents_items(items_view(items@), ser_items_view(ser_items@)),
{
    let mut ser_items: Vec<SerItem> = Vec::new();
    let mut i: usize = 0;
    while i < items.len()
        invariant
            i <= items.len(),
            ser_items@.len() == i,
            forall|k: int| 0 <= k < i ==> presents_item(items@[k]@, #[trigger] ser_items@[k]@),
        decreases items.len() - i,
    {
        ser_items.push(convert_to_ser_item(&items[i]));
        i += 1;
    }
    ser_items
}

} // verus!
