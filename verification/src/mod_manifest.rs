//! The record of installed versions that is kept beside the installed items.

use vstd::prelude::*;

verus! {

/// One item of the content service with the version it was last seen at.
///
/// The version is the service's "last updated" counter: it only tells which
/// of two states of one item is the later one.
#[derive(Debug)]
pub struct ModManifestMod {
    pub publishedfileid: String,
    pub version: u64,
}

impl View for ModManifestMod {
    type V = (Seq<char>, u64);

    open spec fn view(&self) -> (Seq<char>, u64) {
        (self.publishedfileid@, self.version)
    }
}

impl DeepView for ModManifestMod {
    type V = (Seq<char>, u64);

    open spec fn deep_view(&self) -> (Seq<char>, u64) {
        self@
    }
}

impl Clone for ModManifestMod {
    fn clone(&self) -> (copy: Self)
        ensures
            copy == *self,
    {
        ModManifestMod { publishedfileid: self.publishedfileid.clone(), version: self.version }
    }
}

/// The identifiers of a list of versioned items, in the order of the list.
pub open spec fn item_ids(items: Seq<(Seq<char>, u64)>) -> Seq<Seq<char>> {
    items.map_values(|item: (Seq<char>, u64)| item.0)
}

/// No identifier occurs twice in the list.
pub open spec fn ids_unique(items: Seq<(Seq<char>, u64)>) -> bool {
    item_ids(items).no_duplicates()
}

/// The list read as a map from identifier to version. Where an identifier
/// occurs more than once, its last entry counts.
pub open spec fn version_map(items: Seq<(Seq<char>, u64)>) -> Map<Seq<char>, u64>
    decreases items.len(),
{
    if items.len() == 0 {
        Map::empty()
    } else {
        version_map(items.drop_last()).insert(items.last().0, items.last().1)
    }
}

/// The identifiers that a list gives a version to are the ones it names.
pub proof fn lemma_version_map_dom(items: Seq<(Seq<char>, u64)>)
    ensures
        version_map(items).dom() == item_ids(items).to_set(),
    decreases items.len(),
{
    if items.len() == 0 {
        assert(item_ids(items).to_set() =~= Set::<Seq<char>>::empty());
        assert(version_map(items).dom() =~= Set::<Seq<char>>::empty());
    } else {
        let front = items.drop_last();
        lemma_version_map_dom(front);
        assert(item_ids(front) == item_ids(items).drop_last());
        assert(item_ids(items) == item_ids(front).push(items.last().0));
        item_ids(front).lemma_push_to_set_commute(items.last().0);
        assert(version_map(items).dom() =~= version_map(front).dom().insert(items.last().0));
    }
}

/// In a list without repeated identifiers every entry keeps its version.
pub proof fn lemma_version_map_entry(items: Seq<(Seq<char>, u64)>, i: int)
    requires
        ids_unique(items),
        0 <= i < items.len(),
    ensures
        version_map(items).contains_key(items[i].0),
        version_map(items)[items[i].0] == items[i].1,
    decreases items.len(),
{
    let front = items.drop_last();
    if i < items.len() - 1 {
        assert(item_ids(front) == item_ids(items).drop_last());
        assert(item_ids(items)[i] == items[i].0);
        assert(item_ids(items)[items.len() - 1] == items.last().0);
        assert(items[i].0 != items.last().0);
        assert(front[i] == items[i]);
        lemma_version_map_entry(front, i);
    }
}

/// The persisted record: the versions of the items that the last complete
/// run installed.
#[derive(Debug)]
pub struct ModManifestJson {
    pub mods: Vec<ModManifestMod>,
}

impl View for ModManifestJson {
    type V = Seq<(Seq<char>, u64)>;

    open spec fn view(&self) -> Seq<(Seq<char>, u64)> {
        self.mods.deep_view()
    }
}

impl Clone for ModManifestJson {
    fn clone(&self) -> (copy: Self)
        ensures
            copy@ == self@,
    {
        ModManifestJson { mods: clone_items(&self.mods) }
    }
}

impl ModManifestJson {
    /// A record is well formed when no identifier occurs twice in it.
    pub open spec fn wf(&self) -> bool {
        ids_unique(self@)
    }

    /// The record as a map from identifier to version.
    pub open spec fn versions(&self) -> Map<Seq<char>, u64> {
        version_map(self@)
    }

    /// The record of a directory into which nothing has been installed yet.
    pub fn empty() -> (manifest: Self)
        ensures
            manifest@ == Seq::<(Seq<char>, u64)>::empty(),
            manifest.wf(),
    {
        let manifest = ModManifestJson { mods: Vec::new() };
        assert(manifest@ =~= Seq::<(Seq<char>, u64)>::empty());
        assert(item_ids(manifest@) =~= Seq::<Seq<char>>::empty());
        manifest
    }

    /// What a run works with after it tried to read the record: the record
    /// itself, or the empty one where the file was missing or unreadable.
    pub fn recovered(read: Option<ModManifestJson>) -> (manifest: Self)
        ensures
            read is Some ==> manifest == read->0,
            read is None ==> manifest@ == Seq::<(Seq<char>, u64)>::empty(),
    {
        match read {
            Some(manifest) => manifest,
            None => Self::empty(),
        }
    }
}

/// A copy of a list of versioned items.
pub fn clone_items(items: &Vec<ModManifestMod>) -> (copy: Vec<ModManifestMod>)
    ensures
        copy.deep_view() == items.deep_view(),
{
    let mut copy: Vec<ModManifestMod> = Vec::new();
    let mut i: usize = 0;
    while i < items.len()
        invariant
            i <= items.len(),
            copy.len() == i,
            forall|k: int| 0 <= k < i ==> copy[k]@ == items[k]@,
        decreases items.len() - i,
    {
        copy.push(items[i].clone());
        i += 1;
    }
    assert(copy.deep_view() =~= items.deep_view());
    copy
}

} // verus!
