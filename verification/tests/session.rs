use sbi::collection::{CollectionChildren, CollectionDetails};
use sbi::inventory::{DiskEntry, EntryKind};
use sbi::mod_manifest::{ModManifestJson, ModManifestMod};
use sbi::versions::PublishedFileChildren;
use sbi::workshop_downloader::{clone_ids, SyncError, SyncEvent, SyncSession, SyncStage, SyncStep};

fn text(pairs: &[(&str, &str)]) -> Vec<(String, String)> {
    pairs.iter().map(|(k, v)| (k.to_string(), v.to_string())).collect()
}

fn names(list: &[&str]) -> Vec<String> {
    list.iter().map(|name| name.to_string()).collect()
}

fn versions(items: &[ModManifestMod]) -> Vec<(String, u64)> {
    items.iter().map(|m| (m.publishedfileid.clone(), m.version)).collect()
}

fn versioned(id: &str, version: u64) -> (String, u64) {
    (id.to_string(), version)
}

fn node(filetype: i32, id: &str) -> CollectionChildren {
    CollectionChildren { filetype, publishedfileid: id.to_string() }
}

fn answer(children: Vec<CollectionChildren>) -> SyncEvent {
    SyncEvent::Collections(vec![CollectionDetails { children }])
}

fn report(items: &[(&str, u64)]) -> SyncEvent {
    SyncEvent::Versions(
        items
            .iter()
            .map(|(id, time_updated)| PublishedFileChildren {
                publishedfileid: id.to_string(),
                time_updated: *time_updated,
            })
            .collect(),
    )
}

fn entry(name: &str, kind: EntryKind) -> DiskEntry {
    DiskEntry { name: name.to_string(), kind }
}

fn record(items: &[(&str, u64)]) -> Option<ModManifestJson> {
    Some(ModManifestJson {
        mods: items
            .iter()
            .map(|(id, version)| ModManifestMod { publishedfileid: id.to_string(), version: *version })
            .collect(),
    })
}

/// A session that has resolved {X, Y}, with versions X@5 and Y@10, and is
/// about to read the directory.
fn session_about_to_reconcile() -> SyncSession {
    let mut session = SyncSession::new();
    session.advance(SyncEvent::Requested(Some("root".to_string())));
    session.advance(answer(vec![node(0, "X"), node(0, "Y")]));
    let step = session.advance(report(&[("X", 5), ("Y", 10)]));
    assert!(matches!(step, SyncStep::ReadState));
    assert_eq!(session.stage(), SyncStage::Reconciling);
    session
}

#[test]
fn new_session_is_idle() {
    let session = SyncSession::new();
    assert_eq!(session.stage(), SyncStage::Idle);
    assert_eq!(session.error(), None);
    assert!(session.remote().is_empty());
    assert!(session.plan().install.is_empty());
    assert!(session.plan().remove.is_empty());
}

#[test]
fn request_without_a_collection_fails() {
    let mut session = SyncSession::new();
    let step = session.advance(SyncEvent::Requested(None));
    assert!(matches!(step, SyncStep::Failed(SyncError::NoCollectionConfigured)));
    assert_eq!(session.stage(), SyncStage::Failed);
    assert_eq!(session.error(), Some(SyncError::NoCollectionConfigured));
}

#[test]
fn complete_run_goes_through_every_stage() {
    let mut session = SyncSession::new();

    let step = session.advance(SyncEvent::Requested(Some("root".to_string())));
    assert_eq!(session.stage(), SyncStage::Resolving);
    match step {
        SyncStep::QueryCollections(form) => assert_eq!(
            form,
            text(&[("collectioncount", "1"), ("publishedfileids[0]", "root")])
        ),
        other => panic!("unexpected step {:?}", other),
    }

    let step = session.advance(answer(vec![node(0, "X"), node(2, "nested")]));
    assert_eq!(session.stage(), SyncStage::Resolving);
    match step {
        SyncStep::QueryCollections(form) => assert_eq!(
            form,
            text(&[("collectioncount", "1"), ("publishedfileids[0]", "nested")])
        ),
        other => panic!("unexpected step {:?}", other),
    }

    let step = session.advance(answer(vec![node(0, "Y")]));
    assert_eq!(session.stage(), SyncStage::VersionQuerying);
    match step {
        SyncStep::QueryVersions(form) => assert_eq!(
            form,
            text(&[("itemcount", "2"), ("publishedfileids[0]", "X"), ("publishedfileids[1]", "Y")])
        ),
        other => panic!("unexpected step {:?}", other),
    }

    let step = session.advance(report(&[("X", 7), ("Y", 10)]));
    assert_eq!(session.stage(), SyncStage::Reconciling);
    assert!(matches!(step, SyncStep::ReadState));
    assert_eq!(versions(session.remote()), vec![versioned("X", 7), versioned("Y", 10)]);

    let listing = vec![
        entry("X", EntryKind::Directory),
        entry("Z.pak", EntryKind::File),
        entry("notes.json", EntryKind::File),
        entry("steamcmd.log", EntryKind::File),
    ];
    let step = session.advance(SyncEvent::State(listing, record(&[("X", 5), ("Z", 1)])));
    assert_eq!(session.stage(), SyncStage::Fetching);
    match step {
        SyncStep::Fetch(install) => {
            assert_eq!(versions(&install), vec![versioned("X", 7), versioned("Y", 10)])
        }
        other => panic!("unexpected step {:?}", other),
    }
    assert_eq!(versions(&session.plan().install), vec![versioned("X", 7), versioned("Y", 10)]);
    assert_eq!(session.plan().remove, names(&["Z"]));

    let step = session.advance(SyncEvent::Fetched);
    assert_eq!(session.stage(), SyncStage::Installing);
    match step {
        SyncStep::Install(remove, install) => {
            assert_eq!(remove, names(&["Z"]));
            assert_eq!(versions(&install), vec![versioned("X", 7), versioned("Y", 10)]);
        }
        other => panic!("unexpected step {:?}", other),
    }

    let step = session.advance(SyncEvent::Installed);
    assert_eq!(session.stage(), SyncStage::ManifestWriting);
    match step {
        SyncStep::WriteManifest(manifest) => {
            assert_eq!(versions(&manifest.mods), vec![versioned("X", 7), versioned("Y", 10)])
        }
        other => panic!("unexpected step {:?}", other),
    }

    let step = session.advance(SyncEvent::ManifestWritten);
    assert_eq!(session.stage(), SyncStage::Done);
    assert!(matches!(step, SyncStep::Finished));
    assert_eq!(session.error(), None);

    let step = session.advance(SyncEvent::Failure(SyncError::NetworkError));
    assert_eq!(session.stage(), SyncStage::Done);
    assert!(matches!(step, SyncStep::Finished));
}

#[test]
fn fetch_is_skipped_when_nothing_is_to_be_fetched() {
    let mut session = session_about_to_reconcile();
    let listing = vec![entry("X", EntryKind::Directory), entry("Y.pak", EntryKind::File), entry("Z", EntryKind::Directory)];
    let step = session.advance(SyncEvent::State(listing, record(&[("X", 5), ("Y", 10)])));
    assert_eq!(session.stage(), SyncStage::Installing);
    match step {
        SyncStep::Install(remove, install) => {
            assert_eq!(remove, names(&["Z"]));
            assert!(install.is_empty());
        }
        other => panic!("unexpected step {:?}", other),
    }
}

#[test]
fn unreadable_record_counts_as_empty() {
    let mut session = session_about_to_reconcile();
    let listing = vec![entry("X", EntryKind::Directory)];
    let step = session.advance(SyncEvent::State(listing, None));
    match step {
        SyncStep::Fetch(install) => {
            assert_eq!(versions(&install), vec![versioned("X", 5), versioned("Y", 10)])
        }
        other => panic!("unexpected step {:?}", other),
    }
}

#[test]
fn failed_fetch_ends_the_run_without_writing_the_record() {
    let mut session = session_about_to_reconcile();
    let step = session.advance(SyncEvent::State(vec![entry("X", EntryKind::Directory)], record(&[("X", 5)])));
    assert!(matches!(step, SyncStep::Fetch(_)));
    assert_eq!(session.stage(), SyncStage::Fetching);

    let step = session.advance(SyncEvent::Failure(SyncError::SubprocessError));
    assert!(matches!(step, SyncStep::Failed(SyncError::SubprocessError)));
    assert_eq!(session.stage(), SyncStage::Failed);
    assert_eq!(session.error(), Some(SyncError::SubprocessError));

    for event in [SyncEvent::Fetched, SyncEvent::Installed, SyncEvent::ManifestWritten] {
        let step = session.advance(event);
        assert!(matches!(step, SyncStep::Failed(SyncError::SubprocessError)));
        assert_eq!(session.stage(), SyncStage::Failed);
    }
}

#[test]
fn failure_ends_the_run_at_every_stage() {
    let mut resolving = SyncSession::new();
    resolving.advance(SyncEvent::Requested(Some("root".to_string())));
    let step = resolving.advance(SyncEvent::Failure(SyncError::NetworkError));
    assert!(matches!(step, SyncStep::Failed(SyncError::NetworkError)));
    assert_eq!(resolving.stage(), SyncStage::Failed);

    let mut querying = SyncSession::new();
    querying.advance(SyncEvent::Requested(Some("root".to_string())));
    querying.advance(answer(vec![node(0, "X")]));
    assert_eq!(querying.stage(), SyncStage::VersionQuerying);
    let step = querying.advance(SyncEvent::Failure(SyncError::DeserializationError));
    assert!(matches!(step, SyncStep::Failed(SyncError::DeserializationError)));
    assert_eq!(querying.error(), Some(SyncError::DeserializationError));

    let mut reconciling = session_about_to_reconcile();
    let step = reconciling.advance(SyncEvent::Failure(SyncError::FilesystemError));
    assert!(matches!(step, SyncStep::Failed(SyncError::FilesystemError)));

    let mut installing = session_about_to_reconcile();
    installing.advance(SyncEvent::State(Vec::new(), None));
    installing.advance(SyncEvent::Fetched);
    assert_eq!(installing.stage(), SyncStage::Installing);
    let step = installing.advance(SyncEvent::Failure(SyncError::FilesystemError));
    assert!(matches!(step, SyncStep::Failed(SyncError::FilesystemError)));
    assert!(matches!(
        installing.advance(SyncEvent::Installed),
        SyncStep::Failed(SyncError::FilesystemError)
    ));

    let mut writing = session_about_to_reconcile();
    writing.advance(SyncEvent::State(Vec::new(), None));
    writing.advance(SyncEvent::Fetched);
    writing.advance(SyncEvent::Installed);
    assert_eq!(writing.stage(), SyncStage::ManifestWriting);
    let step = writing.advance(SyncEvent::Failure(SyncError::FilesystemError));
    assert!(matches!(step, SyncStep::Failed(SyncError::FilesystemError)));
    assert_eq!(writing.stage(), SyncStage::Failed);
}

#[test]
fn report_that_answers_no_step_is_rejected() {
    let mut session = SyncSession::new();
    assert!(matches!(session.advance(SyncEvent::Fetched), SyncStep::Rejected));
    assert!(matches!(
        session.advance(SyncEvent::Failure(SyncError::NetworkError)),
        SyncStep::Rejected
    ));
    assert_eq!(session.stage(), SyncStage::Idle);

    session.advance(SyncEvent::Requested(Some("root".to_string())));
    assert!(matches!(session.advance(SyncEvent::Installed), SyncStep::Rejected));
    assert!(matches!(session.advance(report(&[("X", 1)])), SyncStep::Rejected));
    assert!(matches!(
        session.advance(SyncEvent::Requested(Some("other".to_string()))),
        SyncStep::Rejected
    ));
    assert_eq!(session.stage(), SyncStage::Resolving);

    let mut session = session_about_to_reconcile();
    assert!(matches!(session.advance(SyncEvent::ManifestWritten), SyncStep::Rejected));
    assert!(matches!(session.advance(SyncEvent::Installed), SyncStep::Rejected));
    assert_eq!(session.stage(), SyncStage::Reconciling);
    assert_eq!(versions(session.remote()), vec![versioned("X", 5), versioned("Y", 10)]);
}

#[test]
fn record_written_is_the_collection_and_nothing_else() {
    let mut session = session_about_to_reconcile();
    let listing = vec![entry("old", EntryKind::Directory), entry("X", EntryKind::Directory)];
    session.advance(SyncEvent::State(listing, record(&[("old", 3), ("X", 5), ("gone", 9)])));
    session.advance(SyncEvent::Fetched);
    match session.advance(SyncEvent::Installed) {
        SyncStep::WriteManifest(manifest) => {
            assert_eq!(versions(&manifest.mods), vec![versioned("X", 5), versioned("Y", 10)])
        }
        other => panic!("unexpected step {:?}", other),
    }
}

#[test]
fn item_reported_twice_is_recorded_once() {
    let mut session = SyncSession::new();
    session.advance(SyncEvent::Requested(Some("root".to_string())));
    session.advance(answer(vec![node(0, "X")]));
    session.advance(report(&[("X", 5), ("X", 8)]));
    assert_eq!(versions(session.remote()), vec![versioned("X", 8)]);
}

#[test]
fn copy_of_identifiers_is_equal() {
    assert_eq!(clone_ids(&names(&["a", "", "c"])), names(&["a", "", "c"]));
    assert!(clone_ids(&Vec::new()).is_empty());
}
