//! The current versions of the items of a collection, as the service
//! reports them.

use crate::mod_manifest::{
    ids_unique, item_ids, lemma_version_map_dom, lemma_version_map_entry, version_map,
    ModManifestMod,
};
use crate::reconcile::index_versions;
use crate::tables::{set_insert, set_members, set_new, table_entries, table_get};
use vstd::prelude::*;
use vstd::std_specs::convert::FromSpecImpl;

verus! {

/// What the service reports about one item: its identifier and the moment
/// of its last update.
#[derive(Debug)]
pub struct PublishedFileChildren {
    pub publishedfileid: String,
    pub time_updated: u64,
}

impl View for PublishedFileChildren {
    type V = (Seq<char>, u64);

    open spec fn view(&self) -> (Seq<char>, u64) {
        (self.publishedfileid@, self.time_updated)
    }
}

impl DeepView for PublishedFileChildren {
    type V = (Seq<char>, u64);

    open spec fn deep_view(&self) -> (Seq<char>, u64) {
        self@
    }
}

impl From<PublishedFileChildren> for ModManifestMod {
    fn from(val: PublishedFileChildren) -> (item: ModManifestMod) {
        ModManifestMod { publishedfileid: val.publishedfileid, version: val.time_updated }
    }
}

impl FromSpecImpl<PublishedFileChildren> for ModManifestMod {
    open spec fn obeys_from_spec() -> bool {
        true
    }

    open spec fn from_spec(val: PublishedFileChildren) -> ModManifestMod {
        ModManifestMod { publishedfileid: val.publishedfileid, version: val.time_updated }
    }
}

/// The identifiers of a list, each once, in the order of their first
/// occurrence.
pub open spec fn distinct(ids: Seq<Seq<char>>) -> Seq<Seq<char>>
    decreases ids.len(),
{
    if ids.len() == 0 {
        Seq::empty()
    } else {
        let front = distinct(ids.drop_last());
        if front.contains(ids.last()) {
            front
        } else {
            front.push(ids.last())
        }
    }
}

/// The items of a report, each once, in the order of their first
/// occurrence, with the version of their last.
pub open spec fn current_versions(reported: Seq<(Seq<char>, u64)>) -> Seq<(Seq<char>, u64)> {
    distinct(item_ids(reported)).map_values(|id: Seq<char>| (id, version_map(reported)[id]))
}

/// The distinct identifiers of a list are those of the list, and none of
/// them occurs twice.
pub proof fn lemma_distinct(ids: Seq<Seq<char>>)
    ensures
        distinct(ids).no_duplicates(),
        distinct(ids).to_set() == ids.to_set(),
    decreases ids.len(),
{
    if ids.len() == 0 {
        assert(distinct(ids).to_set() =~= ids.to_set());
    } else {
        let front = distinct(ids.drop_last());
        lemma_distinct(ids.drop_last());
        assert(ids == ids.drop_last().push(ids.last()));
        ids.drop_last().lemma_push_to_set_commute(ids.last());
        if front.contains(ids.last()) {
            assert(front.to_set().contains(ids.last()));
            assert(front.to_set().insert(ids.last()) =~= front.to_set());
        } else {
            front.lemma_push_to_set_commute(ids.last());
            assert forall|a: int, b: int|
                0 <= a < front.len() + 1 && 0 <= b < front.len() + 1 && a != b implies front.push(
                ids.last(),
            )[a] != front.push(ids.last())[b] by {
                if a == front.len() {
                    assert(front.contains(front[b]));
                } else if b == front.len() {
                    assert(front.contains(front[a]));
                }
            }
        }
    }
}

/// The current versions of a report name no item twice and give every item
/// the version that the report gives it.
pub proof fn lemma_current_versions(reported: Seq<(Seq<char>, u64)>)
    ensures
        ids_unique(current_versions(reported)),
        version_map(current_versions(reported)) == version_map(reported),
{
    let current = current_versions(reported);
    let names = distinct(item_ids(reported));
    lemma_distinct(item_ids(reported));
    assert(item_ids(current) =~= names);
    lemma_version_map_dom(current);
    lemma_version_map_dom(reported);
    assert forall|id: Seq<char>| version_map(current).contains_key(id) implies version_map(
        current,
    )[id] == version_map(reported)[id] by {
        assert(item_ids(current).to_set().contains(id));
        let k = choose|k: int| 0 <= k < item_ids(current).len() && item_ids(current)[k] == id;
        lemma_version_map_entry(current, k);
    }
    assert(version_map(current) =~= version_map(reported));
}

/// Turns a report of the service into the list of the collection's items
/// with their current versions. An item that the report names more than
/// once is kept once, with the version of its last entry.
pub fn remote_versions(reported: &Vec<PublishedFileChildren>) -> (remote: Vec<ModManifestMod>)
    ensures
        remote.deep_view() == current_versions(reported.deep_view()),
        ids_unique(remote.deep_view()),
        version_map(remote.deep_view()) == version_map(reported.deep_view()),
{
    let ghost report = reported.deep_view();
    let mut all: Vec<ModManifestMod> = Vec::new();
    let mut i: usize = 0;
    while i < reported.len()
        invariant
            i <= reported.len(),
            report == reported.deep_view(),
            all.len() == i,
            forall|k: int| 0 <= k < i ==> all[k]@ == report[k],
        decreases reported.len() - i,
    {
        all.push(
            ModManifestMod {
                publishedfileid: reported[i].publishedfileid.clone(),
                version: reported[i].time_updated,
            },
        );
        i += 1;
    }
    assert(all.deep_view() =~= report);
    let versions = index_versions(&all);
    let mut seen = set_new();
    let mut remote: Vec<ModManifestMod> = Vec::new();
    let ghost paired = |id: Seq<char>| (id, version_map(report)[id]);
    let mut j: usize = 0;
    assert(item_ids(report).take(0) =~= Seq::<Seq<char>>::empty());
    assert(remote.deep_view() =~= distinct(item_ids(report).take(0)).map_values(paired));
    assert(distinct(item_ids(report).take(0)).to_set() =~= Set::<Seq<char>>::empty());
    while j < all.len()
        invariant
            j <= all.len(),
            all.deep_view() == report,
            table_entries(versions) == version_map(report),
            paired == |id: Seq<char>| (id, version_map(report)[id]),
            set_members(seen) == distinct(item_ids(report).take(j as int)).to_set(),
            remote.deep_view() == distinct(item_ids(report).take(j as int)).map_values(paired),
        decreases all.len() - j,
    {
        let id = &all[j].publishedfileid;
        let ghost names = distinct(item_ids(report).take(j as int));
        proof {
            let next = item_ids(report).take(j + 1);
            assert(next.drop_last() == item_ids(report).take(j as int));
            assert(next.last() == id@);
            lemma_version_map_dom(report);
            assert(item_ids(report)[j as int] == id@);
            assert(item_ids(report).to_set().contains(id@));
        }
        if set_insert(&mut seen, id.clone()) {
            let ghost before = remote.deep_view();
            if let Some(version) = table_get(&versions, id.as_str()) {
                remote.push(ModManifestMod { publishedfileid: id.clone(), version });
            }
            proof {
                assert(!names.contains(id@));
                names.lemma_push_to_set_commute(id@);
                assert(remote.deep_view() =~= before.push(paired(id@)));
                assert(names.push(id@).map_values(paired) =~= names.map_values(paired).push(
                    paired(id@),
                ));
            }
        } else {
            assert(names.contains(id@));
            assert(set_members(seen) =~= names.to_set());
        }
        j += 1;
    }
    proof {
        assert(item_ids(report).take(j as int) == item_ids(report));
        lemma_current_versions(report);
    }
    remote
}

} // verus!
