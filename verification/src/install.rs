//! Where staged artifacts go and what is deleted for an item that left the
//! collection.

use crate::inventory::{entry_id, DiskEntry, EntryKind};
use crate::text::{
    has_package_extension, is_packaged_name, lemma_packaged_name_round_trip, packaged_file_name,
    packaged_name,
};
use vstd::prelude::*;

verus! {

/// What has to be deleted so that an item is no longer installed.
#[derive(Debug)]
pub enum Removal {
    /// The directory of this name, with all it holds.
    Directory(String),
    /// The file of this name.
    PackagedFile(String),
    /// Nothing: the item is not there.
    Nothing,
}

impl View for Removal {
    type V = Option<(Seq<char>, EntryKind)>;

    open spec fn view(&self) -> Option<(Seq<char>, EntryKind)> {
        match self {
            Removal::Directory(name) => Some((name@, EntryKind::Directory)),
            Removal::PackagedFile(name) => Some((name@, EntryKind::File)),
            Removal::Nothing => None,
        }
    }
}

/// The entry to delete for an item, given which of its two forms exist: its
/// directory where there is one, else its packaged file where there is one,
/// else nothing.
pub open spec fn removal_target(id: Seq<char>, has_directory: bool, has_packaged_file: bool) -> Option<
    (Seq<char>, EntryKind),
> {
    if has_directory {
        Some((id, EntryKind::Directory))
    } else if has_packaged_file {
        Some((packaged_name(id), EntryKind::File))
    } else {
        None
    }
}

/// The name under which a child of an item's staging directory is
/// installed: a packaged file under the item's packaged name, a directory
/// under the item's identifier, and anything else not at all.
pub open spec fn placement_target(id: Seq<char>, child: (Seq<char>, EntryKind)) -> Option<Seq<char>> {
    match child.1 {
        EntryKind::File => if is_packaged_name(child.0) {
            Some(packaged_name(id))
        } else {
            None
        },
        EntryKind::Directory => Some(id),
        EntryKind::Other => None,
    }
}

/// What to delete for an item that is to be removed. That the item is not
/// there at all is no failure: nothing is left to do for it.
pub fn removal_of(id: &str, has_directory: bool, has_packaged_file: bool) -> (removal: Removal)
    ensures
        removal@ == removal_target(id@, has_directory, has_packaged_file),
{
    if has_directory {
        Removal::Directory(String::from_str(id))
    } else if has_packaged_file {
        Removal::PackagedFile(packaged_file_name(id))
    } else {
        Removal::Nothing
    }
}

/// The name, inside the directory of installed items, to which a child of
/// the item's staging directory is moved, or `None` where the child is left
/// behind.
pub fn placement_of(id: &str, child: &DiskEntry) -> (target: Option<String>)
    ensures
        target.deep_view() == placement_target(id@, child@),
{
    match child.kind {
        EntryKind::File => {
            if has_package_extension(child.name.as_str()) {
                Some(packaged_file_name(id))
            } else {
                None
            }
        },
        EntryKind::Directory => Some(String::from_str(id)),
        EntryKind::Other => None,
    }
}

/// What is installed for an item is found again as that item when the
/// directory is listed: the name under which a staged child is placed
/// stands for the item's identifier. (The item with the empty identifier
/// is the exception: its packaged file would have no name before the
/// extension.)
pub proof fn lemma_placed_item_is_found(id: Seq<char>, child: (Seq<char>, EntryKind))
    requires
        id.len() > 0,
        placement_target(id, child) is Some,
    ensures
        entry_id((placement_target(id, child)->0, child.1)) == Some(id),
{
    lemma_packaged_name_round_trip(id);
}

/// What is deleted for an item is an entry that stands for that item.
pub proof fn lemma_removed_entry_is_the_item(
    id: Seq<char>,
    has_directory: bool,
    has_packaged_file: bool,
)
    requires
        id.len() > 0,
        removal_target(id, has_directory, has_packaged_file) is Some,
    ensures
        entry_id(removal_target(id, has_directory, has_packaged_file)->0) == Some(id),
{
    lemma_packaged_name_round_trip(id);
}

} // verus!
