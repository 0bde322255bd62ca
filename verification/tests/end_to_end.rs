use sbi::collection::{CollectionChildren, CollectionDetails};
use sbi::fetch::download_arguments;
use sbi::install::{placement_of, removal_of, Removal};
use sbi::inventory::{DiskEntry, EntryKind};
use sbi::mod_manifest::{ModManifestJson, ModManifestMod};
use sbi::versions::PublishedFileChildren;
use sbi::workshop_downloader::{SyncError, SyncEvent, SyncSession, SyncStage, SyncStep};
use std::collections::BTreeMap;

/// A content service, a fetch tool and a directory, all in memory.
struct World {
    collections: Vec<(String, Vec<(i32, String)>)>,
    versions: Vec<(String, u64)>,
    /// The entries of the directory of installed items.
    installed: BTreeMap<String, EntryKind>,
    /// The record beside them, if there is one.
    record: Option<Vec<(String, u64)>>,
    /// Whether the fetch tool fails.
    tool_fails: bool,
    /// Whether the tool leaves a directory (or else a packaged file).
    tool_unpacks: bool,
    /// The tool's arguments, each time it ran.
    tool_runs: Vec<Vec<String>>,
    /// How often the record was written.
    record_writes: usize,
}

fn form_ids(form: &[(String, String)]) -> Vec<String> {
    assert_eq!(form[0].1, (form.len() - 1).to_string());
    form[1..]
        .iter()
        .enumerate()
        .map(|(i, (key, id))| {
            assert_eq!(key, &format!("publishedfileids[{}]", i));
            id.clone()
        })
        .collect()
}

impl World {
    fn new(collections: &[(&str, &[(i32, &str)])], versions: &[(&str, u64)]) -> World {
        World {
            collections: collections
                .iter()
                .map(|(id, children)| {
                    (id.to_string(), children.iter().map(|(t, c)| (*t, c.to_string())).collect())
                })
                .collect(),
            versions: versions.iter().map(|(id, v)| (id.to_string(), *v)).collect(),
            installed: BTreeMap::new(),
            record: None,
            tool_fails: false,
            tool_unpacks: false,
            tool_runs: Vec::new(),
            record_writes: 0,
        }
    }

    /// The items that the entries of the directory stand for.
    fn installed_ids(&self) -> Vec<String> {
        let mut ids: Vec<String> = self
            .installed
            .iter()
            .filter_map(|(name, kind)| match kind {
                EntryKind::Directory => Some(name.clone()),
                EntryKind::File => name.strip_suffix(".pak").map(|stem| stem.to_string()),
                EntryKind::Other => None,
            })
            .collect();
        ids.sort();
        ids.dedup();
        ids
    }

    fn carry_out(&mut self, step: SyncStep) -> Option<SyncEvent> {
        Some(match step {
            SyncStep::QueryCollections(form) => {
                assert_eq!(form[0].0, "collectioncount");
                SyncEvent::Collections(
                    form_ids(&form)
                        .iter()
                        .map(|id| CollectionDetails {
                            children: self
                                .collections
                                .iter()
                                .filter(|(name, _)| name == id)
                                .flat_map(|(_, children)| children.iter())
                                .map(|(filetype, child)| CollectionChildren {
                                    filetype: *filetype,
                                    publishedfileid: child.clone(),
                                })
                                .collect(),
                        })
                        .collect(),
                )
            }
            SyncStep::QueryVersions(form) => {
                assert_eq!(form[0].0, "itemcount");
                SyncEvent::Versions(
                    form_ids(&form)
                        .iter()
                        .map(|id| PublishedFileChildren {
                            publishedfileid: id.clone(),
                            time_updated: self.versions.iter().find(|(name, _)| name == id).unwrap().1,
                        })
                        .collect(),
                )
            }
            SyncStep::ReadState => SyncEvent::State(
                self.installed
                    .iter()
                    .map(|(name, kind)| DiskEntry { name: name.clone(), kind: *kind })
                    .collect(),
                self.record.as_ref().map(|items| ModManifestJson {
                    mods: items
                        .iter()
                        .map(|(id, v)| ModManifestMod { publishedfileid: id.clone(), version: *v })
                        .collect(),
                }),
            ),
            SyncStep::Fetch(install) => {
                self.tool_runs.push(download_arguments("staging", &install));
                if self.tool_fails {
                    SyncEvent::Failure(SyncError::SubprocessError)
                } else {
                    SyncEvent::Fetched
                }
            }
            SyncStep::Install(remove, install) => {
                for id in &remove {
                    let has_directory = self.installed.get(id) == Some(&EntryKind::Directory);
                    let has_file =
                        self.installed.get(&format!("{}.pak", id)) == Some(&EntryKind::File);
                    match removal_of(id, has_directory, has_file) {
                        Removal::Directory(name) | Removal::PackagedFile(name) => {
                            assert!(self.installed.remove(&name).is_some());
                        }
                        Removal::Nothing => {}
                    }
                }
                for item in &install {
                    let staged = if self.tool_unpacks {
                        DiskEntry { name: "unpacked".to_string(), kind: EntryKind::Directory }
                    } else {
                        DiskEntry { name: "contents.pak".to_string(), kind: EntryKind::File }
                    };
                    let target = placement_of(&item.publishedfileid, &staged).unwrap();
                    self.installed.insert(target, staged.kind);
                }
                SyncEvent::Installed
            }
            SyncStep::WriteManifest(manifest) => {
                self.record_writes += 1;
                self.record = Some(
                    manifest.mods.iter().map(|m| (m.publishedfileid.clone(), m.version)).collect(),
                );
                SyncEvent::ManifestWritten
            }
            SyncStep::Finished | SyncStep::Failed(_) => return None,
            SyncStep::Rejected => panic!("the session rejected a report"),
        })
    }

    /// Runs one synchronisation and returns the session at its end.
    fn sync(&mut self, root: Option<&str>) -> SyncSession {
        let mut session = SyncSession::new();
        let mut step = session.advance(SyncEvent::Requested(root.map(|id| id.to_string())));
        for _ in 0..100 {
            match self.carry_out(step) {
                Some(event) => step = session.advance(event),
                None => return session,
            }
        }
        panic!("the run did not end");
    }
}

fn names(list: &[&str]) -> Vec<String> {
    list.iter().map(|name| name.to_string()).collect()
}

fn pairs(list: &[(&str, u64)]) -> Vec<(String, u64)> {
    list.iter().map(|(id, v)| (id.to_string(), *v)).collect()
}

fn sample_world() -> World {
    World::new(
        &[
            ("root", &[(0, "X"), (2, "nested"), (0, "Y")]),
            ("nested", &[(0, "W"), (2, "root"), (0, "X")]),
        ],
        &[("X", 7), ("Y", 10), ("W", 3)],
    )
}

#[test]
fn run_installs_exactly_the_collection_and_records_it() {
    let mut world = sample_world();
    world.installed.insert("X".to_string(), EntryKind::Directory);
    world.installed.insert("Z.pak".to_string(), EntryKind::File);
    world.installed.insert("Q".to_string(), EntryKind::Directory);
    world.installed.insert("notes.txt".to_string(), EntryKind::File);
    world.record = Some(pairs(&[("X", 5), ("Z", 1)]));

    let session = world.sync(Some("root"));
    assert_eq!(session.stage(), SyncStage::Done);
    assert_eq!(world.installed_ids(), names(&["W", "X", "Y"]));
    assert_eq!(world.record, Some(pairs(&[("X", 7), ("Y", 10), ("W", 3)])));
    assert_eq!(world.record_writes, 1);
    assert_eq!(world.tool_runs.len(), 1);
    assert_eq!(
        world.tool_runs[0],
        names(&[
            "+force_install_dir",
            "staging",
            "+login",
            "anonymous",
            "+workshop_download_item",
            "211820",
            "X",
            "+workshop_download_item",
            "211820",
            "Y",
            "+workshop_download_item",
            "211820",
            "W",
            "+quit",
        ])
    );
}

#[test]
fn second_run_fetches_and_deletes_nothing() {
    let mut world = sample_world();
    world.installed.insert("Z".to_string(), EntryKind::Directory);
    world.sync(Some("root"));
    let after_first = world.installed.clone();
    assert_eq!(world.installed_ids(), names(&["W", "X", "Y"]));

    let session = world.sync(Some("root"));
    assert_eq!(session.stage(), SyncStage::Done);
    assert!(session.plan().is_empty());
    assert_eq!(world.tool_runs.len(), 1);
    assert_eq!(world.installed, after_first);
    assert_eq!(world.record, Some(pairs(&[("X", 7), ("Y", 10), ("W", 3)])));
    assert_eq!(world.record_writes, 2);
}

#[test]
fn newer_version_is_fetched_on_the_next_run() {
    let mut world = sample_world();
    world.sync(Some("root"));
    world.versions[1].1 = 11;
    let session = world.sync(Some("root"));
    assert_eq!(session.stage(), SyncStage::Done);
    assert_eq!(session.plan().install.len(), 1);
    assert_eq!(session.plan().install[0].publishedfileid, "Y");
    assert_eq!(session.plan().install[0].version, 11);
    assert!(session.plan().remove.is_empty());
    assert_eq!(world.record, Some(pairs(&[("X", 7), ("Y", 11), ("W", 3)])));
}

#[test]
fn unpacked_and_packaged_items_are_both_found_again() {
    let mut world = sample_world();
    world.tool_unpacks = true;
    world.sync(Some("root"));
    assert_eq!(world.installed.get("X"), Some(&EntryKind::Directory));
    let session = world.sync(Some("root"));
    assert!(session.plan().is_empty());

    let mut world = sample_world();
    world.sync(Some("root"));
    assert_eq!(world.installed.get("X.pak"), Some(&EntryKind::File));
    let session = world.sync(Some("root"));
    assert!(session.plan().is_empty());
}

#[test]
fn failed_tool_leaves_directory_and_record_as_they_were() {
    let mut world = sample_world();
    world.installed.insert("Z.pak".to_string(), EntryKind::File);
    world.record = Some(pairs(&[("Z", 1)]));
    world.tool_fails = true;
    let before = world.installed.clone();

    let session = world.sync(Some("root"));
    assert_eq!(session.stage(), SyncStage::Failed);
    assert_eq!(session.error(), Some(SyncError::SubprocessError));
    assert_eq!(world.tool_runs.len(), 1);
    assert_eq!(world.record_writes, 0);
    assert_eq!(world.record, Some(pairs(&[("Z", 1)])));
    assert_eq!(world.installed, before);
}

#[test]
fn run_without_a_collection_touches_nothing() {
    let mut world = sample_world();
    world.installed.insert("Z".to_string(), EntryKind::Directory);
    let session = world.sync(None);
    assert_eq!(session.stage(), SyncStage::Failed);
    assert_eq!(session.error(), Some(SyncError::NoCollectionConfigured));
    assert!(world.tool_runs.is_empty());
    assert_eq!(world.record_writes, 0);
    assert_eq!(world.installed.len(), 1);
}

#[test]
fn emptied_collection_removes_everything_without_the_tool() {
    let mut world = World::new(&[("root", &[])], &[]);
    world.installed.insert("A".to_string(), EntryKind::Directory);
    world.installed.insert("B.pak".to_string(), EntryKind::File);
    world.record = Some(pairs(&[("A", 1), ("B", 2)]));
    let session = world.sync(Some("root"));
    assert_eq!(session.stage(), SyncStage::Done);
    assert!(world.tool_runs.is_empty());
    assert!(world.installed.is_empty());
    assert_eq!(world.record, Some(Vec::new()));
}
