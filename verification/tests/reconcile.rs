use sbi::mod_manifest::{clone_items, ModManifestJson, ModManifestMod};
use sbi::reconcile::{reconcile, SyncPlan};

fn item(id: &str, version: u64) -> ModManifestMod {
    ModManifestMod { publishedfileid: id.to_string(), version }
}

fn ids(names: &[&str]) -> Vec<String> {
    names.iter().map(|name| name.to_string()).collect()
}

fn installs(plan: &SyncPlan) -> Vec<(String, u64)> {
    plan.install.iter().map(|m| (m.publishedfileid.clone(), m.version)).collect()
}

fn pair(id: &str, version: u64) -> (String, u64) {
    (id.to_string(), version)
}

#[test]
fn missing_item_is_fetched_and_current_item_is_left_alone() {
    let remote = vec![item("X", 5), item("Y", 10)];
    let disk = ids(&["X"]);
    let manifest = vec![item("X", 5)];
    let plan = reconcile(&remote, &disk, &manifest);
    assert_eq!(installs(&plan), vec![pair("Y", 10)]);
    assert!(plan.remove.is_empty());
}

#[test]
fn outdated_item_is_fetched_and_dropped_item_is_removed() {
    let remote = vec![item("X", 7)];
    let disk = ids(&["X", "Z"]);
    let manifest = vec![item("X", 5), item("Z", 1)];
    let plan = reconcile(&remote, &disk, &manifest);
    assert_eq!(installs(&plan), vec![pair("X", 7)]);
    assert_eq!(plan.remove, ids(&["Z"]));
}

#[test]
fn second_run_after_a_completed_one_has_nothing_to_do() {
    let remote = vec![item("X", 7), item("Y", 10)];
    let disk = ids(&["X", "Z"]);
    let manifest = vec![item("X", 5), item("Z", 1)];
    let first = reconcile(&remote, &disk, &manifest);
    assert!(!first.is_empty());

    let mut disk_after: Vec<String> =
        disk.iter().filter(|id| !first.remove.contains(id)).cloned().collect();
    for fetched in &first.install {
        if !disk_after.contains(&fetched.publishedfileid) {
            disk_after.push(fetched.publishedfileid.clone());
        }
    }
    let mut now = disk_after.clone();
    now.sort();
    assert_eq!(now, ids(&["X", "Y"]));

    let second = reconcile(&remote, &disk_after, &remote);
    assert!(second.is_empty());
    assert!(!second.needs_fetch());
    assert!(second.install.is_empty());
    assert!(second.remove.is_empty());
}

#[test]
fn installed_item_without_a_record_is_fetched_again() {
    let remote = vec![item("X", 5)];
    let plan = reconcile(&remote, &ids(&["X"]), &Vec::new());
    assert_eq!(installs(&plan), vec![pair("X", 5)]);
    assert!(plan.remove.is_empty());
}

#[test]
fn recorded_item_that_is_not_installed_is_fetched() {
    let remote = vec![item("X", 5)];
    let plan = reconcile(&remote, &Vec::new(), &vec![item("X", 5)]);
    assert_eq!(installs(&plan), vec![pair("X", 5)]);
}

#[test]
fn older_remote_version_is_not_fetched() {
    let remote = vec![item("X", 4)];
    let plan = reconcile(&remote, &ids(&["X"]), &vec![item("X", 5)]);
    assert!(plan.install.is_empty());
    assert!(plan.remove.is_empty());
    assert!(plan.is_empty());
}

#[test]
fn version_one_above_the_record_is_fetched() {
    let remote = vec![item("X", u64::MAX)];
    let plan = reconcile(&remote, &ids(&["X"]), &vec![item("X", u64::MAX - 1)]);
    assert_eq!(installs(&plan), vec![pair("X", u64::MAX)]);
}

#[test]
fn stale_item_is_never_removed_while_the_collection_holds_it() {
    let remote = vec![item("X", 9)];
    let plan = reconcile(&remote, &ids(&["X"]), &vec![item("X", 1)]);
    assert!(plan.remove.is_empty());
}

#[test]
fn every_installed_item_outside_the_collection_is_removed() {
    let remote = vec![item("A", 1)];
    let disk = ids(&["Q", "A", "R", "S"]);
    let plan = reconcile(&remote, &disk, &vec![item("A", 1), item("Q", 3)]);
    assert_eq!(plan.remove, ids(&["Q", "R", "S"]));
    assert!(plan.install.is_empty());
}

#[test]
fn item_installed_in_both_forms_is_removed_twice() {
    let plan = reconcile(&Vec::new(), &ids(&["X", "X"]), &Vec::new());
    assert_eq!(plan.remove, ids(&["X", "X"]));
}

#[test]
fn last_record_of_an_item_counts() {
    let remote = vec![item("X", 6)];
    let manifest = vec![item("X", 9), item("X", 5)];
    let plan = reconcile(&remote, &ids(&["X"]), &manifest);
    assert_eq!(installs(&plan), vec![pair("X", 6)]);
    let manifest = vec![item("X", 5), item("X", 9)];
    let plan = reconcile(&remote, &ids(&["X"]), &manifest);
    assert!(plan.install.is_empty());
}

#[test]
fn plan_keeps_the_order_of_the_collection_and_of_the_listing() {
    let remote = vec![item("c", 1), item("a", 1), item("b", 1)];
    let disk = ids(&["z", "y", "a"]);
    let plan = reconcile(&remote, &disk, &vec![item("a", 1)]);
    assert_eq!(installs(&plan), vec![pair("c", 1), pair("b", 1)]);
    assert_eq!(plan.remove, ids(&["z", "y"]));
    assert!(plan.needs_fetch());
}

#[test]
fn fetched_and_removed_items_are_disjoint() {
    let remote = vec![item("a", 3), item("b", 1), item("c", 8)];
    let disk = ids(&["b", "d", "e", "c"]);
    let manifest = vec![item("b", 1), item("c", 2), item("d", 1)];
    let plan = reconcile(&remote, &disk, &manifest);
    for fetched in &plan.install {
        assert!(!plan.remove.contains(&fetched.publishedfileid));
    }
    assert_eq!(installs(&plan), vec![pair("a", 3), pair("c", 8)]);
    assert_eq!(plan.remove, ids(&["d", "e"]));
}

#[test]
fn empty_collection_removes_everything() {
    let plan = reconcile(&Vec::new(), &ids(&["a", "b"]), &vec![item("a", 1)]);
    assert!(plan.install.is_empty());
    assert_eq!(plan.remove, ids(&["a", "b"]));
    assert!(!plan.needs_fetch());
    assert!(!plan.is_empty());
}

#[test]
fn copies_of_items_are_equal_to_the_originals() {
    let items = vec![item("a", 3), item("b", 1)];
    let copy = clone_items(&items);
    assert_eq!(copy.len(), 2);
    assert_eq!(copy[0].publishedfileid, "a");
    assert_eq!(copy[0].version, 3);
    assert_eq!(copy[1].publishedfileid, "b");
    assert_eq!(copy[1].version, 1);
    let one = items[0].clone();
    assert_eq!(one.publishedfileid, "a");
    assert_eq!(one.version, 3);
}

#[test]
fn missing_record_is_read_as_the_empty_one() {
    assert!(ModManifestJson::empty().mods.is_empty());
    assert!(ModManifestJson::recovered(None).mods.is_empty());
    let kept = ModManifestJson::recovered(Some(ModManifestJson { mods: vec![item("a", 3)] }));
    assert_eq!(kept.mods.len(), 1);
    assert_eq!(kept.mods[0].publishedfileid, "a");
    assert_eq!(kept.mods[0].version, 3);
    let copy = kept.clone();
    assert_eq!(copy.mods.len(), 1);
    assert_eq!(copy.mods[0].publishedfileid, "a");
}
