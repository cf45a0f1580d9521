//! One listed node of the remote document store.

use vstd::prelude::*;
use crate::text::str_eq;

verus! {

/// One entry returned by a folder listing: an opaque identifier, a display
/// name (arbitrary text, possibly unsafe for filesystem use), and the raw
/// kind string the listing carried.
pub struct Item {
    pub id: String,
    pub visible_name: String,
    pub item_type: String,
}

/// The kind string that marks an entry as a folder; every other kind
/// string denotes a document.
pub open spec fn folder_type_name() -> Seq<char> {
    "CollectionType"@
}

impl Clone for Item {
    /// A copy equal to the original.
    fn clone(&self) -> (r: Self)
        ensures
            r == *self,
    {
        Item {
            id: self.id.clone(),
            visible_name: self.visible_name.clone(),
            item_type: self.item_type.clone(),
        }
    }
}

impl Item {
    /// Whether this entry is a folder.
    pub open spec fn folder_spec(&self) -> bool {
        self.item_type@ == folder_type_name()
    }

    /// An entry is a folder exactly when its kind string is the folder marker.
    pub fn is_folder(&self) -> (r: bool)
        ensures
            r == self.folder_spec(),
    {
        str_eq(self.item_type.as_str(), "CollectionType")
    }
}

} // verus!
