//! What is installed: the identifiers that the entries of the directory
//! stand for.

use crate::text::{packaged_id, packaged_item_id};
use vstd::prelude::*;

verus! {

/// What kind of thing an entry of a directory is.
#[derive(Debug, Clone, Copy, PartialEq, Eq, Structural)]
pub enum EntryKind {
    /// A directory.
    Directory,
    /// A regular file.
    File,
    /// Anything else, and any entry whose kind could not be read.
    Other,
}

/// An entry at the top level of a directory.
#[derive(Debug)]
pub struct DiskEntry {
    pub name: String,
    pub kind: EntryKind,
}

impl View for DiskEntry {
    type V = (Seq<char>, EntryKind);

    open spec fn view(&self) -> (Seq<char>, EntryKind) {
        (self.name@, self.kind)
    }
}

impl DeepView for DiskEntry {
    type V = (Seq<char>, EntryKind);

    open spec fn deep_view(&self) -> (Seq<char>, EntryKind) {
        self@
    }
}

/// The item that an entry stands for: a directory stands for the item of its
/// name, a file with the package extension for the item of its name without
/// the extension, and nothing else stands for an item.
pub open spec fn entry_id(entry: (Seq<char>, EntryKind)) -> Option<Seq<char>> {
    match entry.1 {
        EntryKind::Directory => Some(entry.0),
        EntryKind::File => packaged_id(entry.0),
        EntryKind::Other => None,
    }
}

/// The identifiers that a listing stands for, in the order of the listing.
/// An item that is installed both ways is named twice.
pub open spec fn installed_ids(entries: Seq<(Seq<char>, EntryKind)>) -> Seq<Seq<char>> {
    entries.filter_map(|entry: (Seq<char>, EntryKind)| entry_id(entry))
}

/// The item that an entry of the directory stands for, if it stands for one.
pub fn installed_id(entry: &DiskEntry) -> (id: Option<String>)
    ensures
        id.deep_view() == entry_id(entry@),
{
    match entry.kind {
        EntryKind::Directory => Some(entry.name.clone()),
        EntryKind::File => packaged_item_id(entry.name.as_str()),
        EntryKind::Other => None,
    }
}

/// The identifiers of the items that a listing of the directory shows as
/// installed.
pub fn collect_installed_mods(entries: &Vec<DiskEntry>) -> (ids: Vec<String>)
    ensures
        ids.deep_view() == installed_ids(entries.deep_view()),
{
    let ghost id_of = |entry: (Seq<char>, EntryKind)| entry_id(entry);
    let mut ids: Vec<String> = Vec::new();
    let mut i: usize = 0;
    assert(entries.deep_view().take(0).filter_map(id_of) =~= ids.deep_view()) by {
        reveal(Seq::filter_map);
    }
    while i < entries.len()
        invariant
            i <= entries.len(),
            id_of == |entry: (Seq<char>, EntryKind)| entry_id(entry),
            ids.deep_view() == entries.deep_view().take(i as int).filter_map(id_of),
        decreases entries.len() - i,
    {
        let found = installed_id(&entries[i]);
        proof {
            entries.deep_view().lemma_filter_map_take_succ(id_of, i as int);
        }
        let ghost before = ids.deep_view();
        match found {
            Some(id) => {
                ids.push(id);
                assert(ids.deep_view() =~= before + seq![id@]);
            },
            None => {
                assert(before + Seq::<Seq<char>>::empty() =~= before);
            },
        }
        i += 1;
    }
    assert(entries.deep_view().take(i as int) == entries.deep_view());
    ids
}

} // verus!
