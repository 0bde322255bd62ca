//! The comparison of what the collection holds, what is installed and what
//! the record says: which items to fetch and which to delete.

use crate::mod_manifest::{
    ids_unique, item_ids, lemma_version_map_dom, lemma_version_map_entry, version_map,
    ModManifestMod,
};
use crate::tables::{
    set_contains, set_insert, set_members, set_new, table_entries, table_get, table_insert,
    table_new,
};
use rustc_hash::FxHashMap;
use rustc_hash::FxHashSet;
use vstd::prelude::*;

verus! {

/// Whether an item of the collection has to be fetched: it is not installed,
/// or the record does not know it, or the record knows an older version.
///
/// An installed item that the record does not know is fetched again: without
/// a recorded version there is no telling how old the installed copy is.
pub open spec fn wants_install(
    item: (Seq<char>, u64),
    disk: Set<Seq<char>>,
    manifest: Map<Seq<char>, u64>,
) -> bool {
    ||| !disk.contains(item.0)
    ||| !manifest.contains_key(item.0)
    ||| item.1 > manifest[item.0]
}

/// Whether an installed item has to be deleted: the collection no longer
/// holds it. Its age plays no part.
pub open spec fn wants_removal(id: Seq<char>, remote: Map<Seq<char>, u64>) -> bool {
    !remote.contains_key(id)
}

/// The items to fetch, in the order of the collection.
pub open spec fn install_list(
    remote: Seq<(Seq<char>, u64)>,
    disk: Set<Seq<char>>,
    manifest: Map<Seq<char>, u64>,
) -> Seq<(Seq<char>, u64)> {
    remote.filter(|item: (Seq<char>, u64)| wants_install(item, disk, manifest))
}

/// The installed entries to delete, in the order in which they were found.
pub open spec fn removal_list(disk: Seq<Seq<char>>, remote: Map<Seq<char>, u64>) -> Seq<Seq<char>> {
    disk.filter(|id: Seq<char>| wants_removal(id, remote))
}

/// The directory after a plan has been carried out in full: the deleted
/// items are gone, the fetched ones are there.
pub open spec fn disk_after(
    disk: Set<Seq<char>>,
    install: Seq<(Seq<char>, u64)>,
    remove: Seq<Seq<char>>,
) -> Set<Seq<char>> {
    disk.difference(remove.to_set()).union(item_ids(install).to_set())
}

/// A filtered list holds exactly the entries of the list that pass.
pub proof fn lemma_filter_membership<A>(list: Seq<A>, pred: spec_fn(A) -> bool, x: A)
    ensures
        list.filter(pred).contains(x) <==> list.contains(x) && pred(x),
{
    if list.filter(pred).contains(x) {
        list.lemma_filter_contains_rev(pred, x);
        let k = choose|k: int| 0 <= k < list.filter(pred).len() && list.filter(pred)[k] == x;
        list.lemma_filter_pred(pred, k);
    }
    if list.contains(x) && pred(x) {
        let k = choose|k: int| 0 <= k < list.len() && list[k] == x;
        list.lemma_filter_contains(pred, k);
    }
}

/// An item is fetched exactly when the collection lists it and it is not
/// installed, not recorded, or recorded at an older version.
pub proof fn lemma_install_membership(
    remote: Seq<(Seq<char>, u64)>,
    disk: Set<Seq<char>>,
    manifest: Map<Seq<char>, u64>,
    item: (Seq<char>, u64),
)
    ensures
        install_list(remote, disk, manifest).contains(item) <==> remote.contains(item)
            && wants_install(item, disk, manifest),
{
    lemma_filter_membership(
        remote,
        |item: (Seq<char>, u64)| wants_install(item, disk, manifest),
        item,
    );
}

/// An installed entry is deleted exactly when the collection does not hold
/// it: every installed item that left the collection goes, and nothing else
/// does, however old it is.
pub proof fn lemma_removal_membership(
    disk: Seq<Seq<char>>,
    remote: Map<Seq<char>, u64>,
    id: Seq<char>,
)
    ensures
        removal_list(disk, remote).contains(id) <==> disk.contains(id) && !remote.contains_key(id),
{
    lemma_filter_membership(disk, |id: Seq<char>| wants_removal(id, remote), id);
}

/// An item that is installed and recorded at the version the collection
/// lists is not fetched.
pub proof fn lemma_current_item_is_not_fetched(
    remote: Seq<(Seq<char>, u64)>,
    disk: Set<Seq<char>>,
    manifest: Map<Seq<char>, u64>,
    id: Seq<char>,
)
    requires
        ids_unique(remote),
        disk.contains(id),
        manifest.contains_key(id),
        version_map(remote).contains_key(id),
        manifest[id] == version_map(remote)[id],
    ensures
        !item_ids(install_list(remote, disk, manifest)).contains(id),
{
    let install = install_list(remote, disk, manifest);
    if item_ids(install).contains(id) {
        let k = choose|k: int| 0 <= k < item_ids(install).len() && item_ids(install)[k] == id;
        let item = install[k];
        assert(install.contains(item));
        lemma_install_membership(remote, disk, manifest, item);
        let j = choose|j: int| 0 <= j < remote.len() && remote[j] == item;
        lemma_version_map_entry(remote, j);
    }
}

/// No identifier is both fetched and deleted by one plan.
pub proof fn lemma_install_and_removal_are_disjoint(
    remote: Seq<(Seq<char>, u64)>,
    disk: Seq<Seq<char>>,
    manifest: Map<Seq<char>, u64>,
    id: Seq<char>,
)
    ensures
        !(item_ids(install_list(remote, disk.to_set(), manifest)).contains(id) && removal_list(
            disk,
            version_map(remote),
        ).contains(id)),
{
    let install = install_list(remote, disk.to_set(), manifest);
    if item_ids(install).contains(id) {
        let k = choose|k: int| 0 <= k < item_ids(install).len() && item_ids(install)[k] == id;
        lemma_listed_ids(install, install[k]);
        assert(install.contains(install[k]));
        lemma_install_membership(remote, disk.to_set(), manifest, install[k]);
        lemma_listed_ids(remote, install[k]);
        lemma_version_map_dom(remote);
        lemma_removal_membership(disk, version_map(remote), id);
    }
}

/// The identifier of an entry of a list is among the list's identifiers.
pub proof fn lemma_listed_ids(items: Seq<(Seq<char>, u64)>, item: (Seq<char>, u64))
    requires
        items.contains(item),
    ensures
        item_ids(items).contains(item.0),
        item_ids(items).to_set().contains(item.0),
{
    let k = choose|k: int| 0 <= k < items.len() && items[k] == item;
    assert(item_ids(items)[k] == item.0);
}

/// Once a plan has been carried out in full, an item is installed exactly
/// when the collection holds it.
pub proof fn lemma_completed_plan_installs_the_collection(
    remote: Seq<(Seq<char>, u64)>,
    disk: Seq<Seq<char>>,
    manifest: Map<Seq<char>, u64>,
)
    ensures
        disk_after(
            disk.to_set(),
            install_list(remote, disk.to_set(), manifest),
            removal_list(disk, version_map(remote)),
        ) == item_ids(remote).to_set(),
{
    let install = install_list(remote, disk.to_set(), manifest);
    let remove = removal_list(disk, version_map(remote));
    let after = disk_after(disk.to_set(), install, remove);
    let listed = item_ids(remote).to_set();
    lemma_version_map_dom(remote);
    assert forall|id: Seq<char>| after.contains(id) <==> listed.contains(id) by {
        lemma_removal_membership(disk, version_map(remote), id);
        if item_ids(install).contains(id) {
            let k = choose|k: int| 0 <= k < item_ids(install).len() && item_ids(install)[k] == id;
            assert(install.contains(install[k]));
            lemma_install_membership(remote, disk.to_set(), manifest, install[k]);
            lemma_listed_ids(remote, install[k]);
        }
        if listed.contains(id) && !disk.to_set().contains(id) {
            let k = choose|k: int| 0 <= k < item_ids(remote).len() && item_ids(remote)[k] == id;
            assert(remote.contains(remote[k]));
            lemma_install_membership(remote, disk.to_set(), manifest, remote[k]);
            lemma_listed_ids(install, remote[k]);
        }
    }
    assert(after =~= listed);
}

/// A run that follows a completed one, with the collection unchanged, has
/// nothing to do: the directory then holds what the first plan left, and the
/// record is the collection itself.
pub proof fn lemma_second_run_is_idle(
    remote: Seq<(Seq<char>, u64)>,
    disk_before: Seq<Seq<char>>,
    manifest_before: Map<Seq<char>, u64>,
    disk_now: Seq<Seq<char>>,
)
    requires
        ids_unique(remote),
        disk_now.to_set() == disk_after(
            disk_before.to_set(),
            install_list(remote, disk_before.to_set(), manifest_before),
            removal_list(disk_before, version_map(remote)),
        ),
    ensures
        install_list(remote, disk_now.to_set(), version_map(remote)).len() == 0,
        removal_list(disk_now, version_map(remote)).len() == 0,
{
    lemma_completed_plan_installs_the_collection(remote, disk_before, manifest_before);
    lemma_version_map_dom(remote);
    let install = install_list(remote, disk_now.to_set(), version_map(remote));
    let remove = removal_list(disk_now, version_map(remote));
    if install.len() > 0 {
        let item = install[0];
        assert(install.contains(item));
        lemma_install_membership(remote, disk_now.to_set(), version_map(remote), item);
        let j = choose|j: int| 0 <= j < remote.len() && remote[j] == item;
        lemma_version_map_entry(remote, j);
        lemma_listed_ids(remote, item);
    }
    if remove.len() > 0 {
        let id = remove[0];
        assert(remove.contains(id));
        lemma_removal_membership(disk_now, version_map(remote), id);
        assert(disk_now.to_set().contains(id));
    }
}

/// The work of one run.
#[derive(Debug)]
pub struct SyncPlan {
    /// The items to fetch and move into the directory.
    pub install: Vec<ModManifestMod>,
    /// The installed entries to delete.
    pub remove: Vec<String>,
}

impl SyncPlan {
    /// The plan of the given collection, directory and record.
    pub open spec fn is_plan_of(
        &self,
        remote: Seq<(Seq<char>, u64)>,
        disk: Seq<Seq<char>>,
        manifest: Seq<(Seq<char>, u64)>,
    ) -> bool {
        &&& self.install.deep_view() == install_list(remote, disk.to_set(), version_map(manifest))
        &&& self.remove.deep_view() == removal_list(disk, version_map(remote))
    }

    /// Whether the run has anything to fetch.
    pub fn needs_fetch(&self) -> (needed: bool)
        ensures
            needed == (self.install.deep_view().len() > 0),
    {
        self.install.len() > 0
    }

    /// Whether the directory already is what the collection asks for.
    pub fn is_empty(&self) -> (empty: bool)
        ensures
            empty == (self.install.deep_view().len() == 0 && self.remove.deep_view().len() == 0),
    {
        self.install.len() == 0 && self.remove.len() == 0
    }
}

/// The table of the versions that a list gives.
pub(crate) fn index_versions(items: &Vec<ModManifestMod>) -> (table: FxHashMap<String, u64>)
    ensures
        table_entries(table) == version_map(items.deep_view()),
{
    let mut table = table_new();
    let mut i: usize = 0;
    while i < items.len()
        invariant
            i <= items.len(),
            table_entries(table) == version_map(items.deep_view().take(i as int)),
        decreases items.len() - i,
    {
        table_insert(&mut table, items[i].publishedfileid.clone(), items[i].version);
        proof {
            let next = items.deep_view().take(i + 1);
            assert(next.drop_last() == items.deep_view().take(i as int));
            assert(next.last() == items[i as int]@);
        }
        i += 1;
    }
    assert(items.deep_view().take(i as int) == items.deep_view());
    table
}

/// The set of the identifiers in a list.
pub(crate) fn index_ids(ids: &Vec<String>) -> (set: FxHashSet<String>)
    ensures
        set_members(set) == ids.deep_view().to_set(),
{
    let mut set = set_new();
    let mut i: usize = 0;
    assert(ids.deep_view().take(0).to_set() =~= Set::<Seq<char>>::empty());
    while i < ids.len()
        invariant
            i <= ids.len(),
            set_members(set) == ids.deep_view().take(i as int).to_set(),
        decreases ids.len() - i,
    {
        set_insert(&mut set, ids[i].clone());
        proof {
            let seen = ids.deep_view().take(i as int);
            assert(ids.deep_view().take(i + 1) == seen.push(ids[i as int]@));
            seen.lemma_push_to_set_commute(ids[i as int]@);
        }
        i += 1;
    }
    assert(ids.deep_view().take(i as int) == ids.deep_view());
    set
}

/// Compares the collection with the directory and the record.
///
/// `remote` lists the items of the collection with their current versions,
/// `disk` the identifiers found installed, `manifest` the versions that the
/// last complete run recorded. An item of the collection is fetched when it
/// is not installed, when the record does not know it, or when the record
/// knows an older version of it; an installed entry is deleted when the
/// collection does not hold it.
pub fn reconcile(
    remote: &Vec<ModManifestMod>,
    disk: &Vec<String>,
    manifest: &Vec<ModManifestMod>,
) -> (plan: SyncPlan)
    ensures
        plan.is_plan_of(remote.deep_view(), disk.deep_view(), manifest.deep_view()),
{
    let on_disk = index_ids(disk);
    let recorded = index_versions(manifest);
    let current = index_versions(remote);
    let ghost disk_set = disk.deep_view().to_set();
    let ghost manifest_map = version_map(manifest.deep_view());
    let ghost remote_map = version_map(remote.deep_view());
    let ghost install_pred = |item: (Seq<char>, u64)| wants_install(item, disk_set, manifest_map);
    let ghost removal_pred = |id: Seq<char>| wants_removal(id, remote_map);

    let mut install: Vec<ModManifestMod> = Vec::new();
    let mut i: usize = 0;
    assert(remote.deep_view().take(0).filter(install_pred) =~= install.deep_view());
    while i < remote.len()
        invariant
            i <= remote.len(),
            set_members(on_disk) == disk_set,
            table_entries(recorded) == manifest_map,
            install_pred == |item: (Seq<char>, u64)| wants_install(item, disk_set, manifest_map),
            install.deep_view() == remote.deep_view().take(i as int).filter(install_pred),
        decreases remote.len() - i,
    {
        let item = &remote[i];
        let known = table_get(&recorded, item.publishedfileid.as_str());
        let wanted = !set_contains(&on_disk, item.publishedfileid.as_str()) || match known {
            None => true,
            Some(version) => item.version > version,
        };
        proof {
            let seen = remote.deep_view().take(i as int);
            assert(remote.deep_view().take(i + 1) == seen.push(item@));
            seen.lemma_filter_push(item@, install_pred);
            assert(wanted == install_pred(item@));
        }
        let ghost before = install.deep_view();
        if wanted {
            install.push(item.clone());
            assert(install.deep_view() == before.push(item@));
        }
        i += 1;
    }
    assert(remote.deep_view().take(i as int) == remote.deep_view());

    let mut remove: Vec<String> = Vec::new();
    let mut j: usize = 0;
    assert(disk.deep_view().take(0).filter(removal_pred) =~= remove.deep_view());
    while j < disk.len()
        invariant
            j <= disk.len(),
            table_entries(current) == remote_map,
            removal_pred == |id: Seq<char>| wants_removal(id, remote_map),
            remove.deep_view() == disk.deep_view().take(j as int).filter(removal_pred),
        decreases disk.len() - j,
    {
        let id = &disk[j];
        let listed = table_get(&current, id.as_str());
        proof {
            let seen = disk.deep_view().take(j as int);
            assert(disk.deep_view().take(j + 1) == seen.push(id@));
            seen.lemma_filter_push(id@, removal_pred);
            assert(listed.is_none() == removal_pred(id@));
        }
        let ghost before = remove.deep_view();
        if listed.is_none() {
            remove.push(id.clone());
            assert(remove.deep_view() == before.push(id@));
        }
        j += 1;
    }
    assert(disk.deep_view().take(j as int) == disk.deep_view());

    SyncPlan { install, remove }
}

} // verus!
