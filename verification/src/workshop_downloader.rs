//! One synchronisation run, as a sequence of steps.
//!
//! A run asks the service what the collection holds, asks for the current
//! versions, looks at the directory and the record, fetches what is missing
//! or outdated, moves it into place, deletes what left the collection, and
//! at the very end rewrites the record. The session decides; its caller
//! carries out each step and reports how it went. A step that failed ends
//! the run: nothing is retried, and the record stays as it was.

use crate::collection::{
    absorbed, nothing, start, CollectionDetails, CollectionResolver, Resolution,
};
use crate::form::{indexed_form, item_request};
use crate::inventory::{collect_installed_mods, installed_ids, DiskEntry, EntryKind};
use crate::mod_manifest::{clone_items, ids_unique, version_map, ModManifestJson, ModManifestMod};
use crate::reconcile::{install_list, reconcile, removal_list, SyncPlan};
use crate::versions::{current_versions, remote_versions, PublishedFileChildren};
use vstd::prelude::*;

verus! {

/// Why a run ended without success.
#[derive(Debug, Clone, Copy, PartialEq, Eq, Structural)]
pub enum SyncError {
    /// A request to the service could not be sent or was not answered.
    NetworkError,
    /// The service answered with something that could not be read.
    DeserializationError,
    /// The directory, the staging area or the record could not be read or
    /// changed.
    FilesystemError,
    /// The fetch tool could not be started or ended with a failure.
    SubprocessError,
    /// The run was asked for without a collection.
    NoCollectionConfigured,
}

/// How far a run has come.
#[derive(Debug, Clone, Copy, PartialEq, Eq, Structural)]
pub enum SyncStage {
    Idle,
    Resolving,
    VersionQuerying,
    Reconciling,
    Fetching,
    Installing,
    ManifestWriting,
    Done,
    Failed,
}

/// What the caller reports to the session.
#[derive(Debug)]
pub enum SyncEvent {
    /// A run was asked for, for this collection if there is one.
    Requested(Option<String>),
    /// The service answered the request for the pending collections.
    Collections(Vec<CollectionDetails>),
    /// The service answered the request for the current versions.
    Versions(Vec<PublishedFileChildren>),
    /// The directory was listed and the record was read; the record is
    /// absent where its file is missing or cannot be understood.
    State(Vec<DiskEntry>, Option<ModManifestJson>),
    /// The fetch tool ran and ended with success.
    Fetched,
    /// Everything to delete was deleted and everything fetched was moved.
    Installed,
    /// The record was written.
    ManifestWritten,
    /// The step could not be carried out.
    Failure(SyncError),
}

/// What the caller has to do next.
#[derive(Debug)]
pub enum SyncStep {
    /// Send these form parameters to the collection endpoint.
    QueryCollections(Vec<(String, String)>),
    /// Send these form parameters to the item endpoint.
    QueryVersions(Vec<(String, String)>),
    /// List the directory and read the record.
    ReadState,
    /// Empty the staging area and run the fetch tool once for these items.
    Fetch(Vec<ModManifestMod>),
    /// Delete the first entries, then move the staged artifacts of the
    /// second into the directory.
    Install(Vec<String>, Vec<ModManifestMod>),
    /// Replace the record by this one.
    WriteManifest(ModManifestJson),
    /// Nothing: the run has succeeded.
    Finished,
    /// Nothing: the run has failed for this reason.
    Failed(SyncError),
    /// Nothing new: the report does not answer the step that is due, and
    /// the session has not moved.
    Rejected,
}

/// A report, with its texts as sequences of characters.
pub enum Event {
    Requested(Option<Seq<char>>),
    Collections(Seq<Seq<(i32, Seq<char>)>>),
    Versions(Seq<(Seq<char>, u64)>),
    State(Seq<(Seq<char>, EntryKind)>, Option<Seq<(Seq<char>, u64)>>),
    Fetched,
    Installed,
    ManifestWritten,
    Failure(SyncError),
}

/// A step, with its texts as sequences of characters.
pub enum Step {
    QueryCollections(Seq<(Seq<char>, Seq<char>)>),
    QueryVersions(Seq<(Seq<char>, Seq<char>)>),
    ReadState,
    Fetch(Seq<(Seq<char>, u64)>),
    Install(Seq<Seq<char>>, Seq<(Seq<char>, u64)>),
    WriteManifest(Seq<(Seq<char>, u64)>),
    Finished,
    Failed(SyncError),
    Rejected,
}

impl View for SyncEvent {
    type V = Event;

    open spec fn view(&self) -> Event {
        match self {
            SyncEvent::Requested(collection) => Event::Requested(collection.deep_view()),
            SyncEvent::Collections(details) => Event::Collections(details.deep_view()),
            SyncEvent::Versions(reported) => Event::Versions(reported.deep_view()),
            SyncEvent::State(entries, manifest) => Event::State(
                entries.deep_view(),
                match manifest {
                    Some(manifest) => Some(manifest@),
                    None => None,
                },
            ),
            SyncEvent::Fetched => Event::Fetched,
            SyncEvent::Installed => Event::Installed,
            SyncEvent::ManifestWritten => Event::ManifestWritten,
            SyncEvent::Failure(error) => Event::Failure(*error),
        }
    }
}

impl View for SyncStep {
    type V = Step;

    open spec fn view(&self) -> Step {
        match self {
            SyncStep::QueryCollections(form) => Step::QueryCollections(form.deep_view()),
            SyncStep::QueryVersions(form) => Step::QueryVersions(form.deep_view()),
            SyncStep::ReadState => Step::ReadState,
            SyncStep::Fetch(install) => Step::Fetch(install.deep_view()),
            SyncStep::Install(remove, install) => Step::Install(
                remove.deep_view(),
                install.deep_view(),
            ),
            SyncStep::WriteManifest(manifest) => Step::WriteManifest(manifest@),
            SyncStep::Finished => Step::Finished,
            SyncStep::Failed(error) => Step::Failed(*error),
            SyncStep::Rejected => Step::Rejected,
        }
    }
}

/// What a session knows.
pub struct Session {
    /// How far the run has come.
    pub stage: SyncStage,
    /// The expansion of the collection.
    pub resolution: Resolution,
    /// The items of the collection with their current versions.
    pub remote: Seq<(Seq<char>, u64)>,
    /// The items to fetch.
    pub install: Seq<(Seq<char>, u64)>,
    /// The installed entries to delete.
    pub remove: Seq<Seq<char>>,
    /// Why the run failed, if it did.
    pub error: Option<SyncError>,
}

/// The stages in which the session holds the collection's items with their
/// versions.
pub open spec fn ids_are_settled(stage: SyncStage) -> bool {
    stage == SyncStage::Reconciling || stage == SyncStage::Fetching || stage
        == SyncStage::Installing || stage == SyncStage::ManifestWriting || stage == SyncStage::Done
}

/// A session before a run was asked for.
pub open spec fn idle() -> Session {
    Session {
        stage: SyncStage::Idle,
        resolution: nothing(),
        remote: Seq::empty(),
        install: Seq::empty(),
        remove: Seq::empty(),
        error: None,
    }
}

/// The session after a failure, and the step that says so.
pub open spec fn failing(session: Session, error: SyncError) -> (Session, Step) {
    (Session { stage: SyncStage::Failed, error: Some(error), ..session }, Step::Failed(error))
}

/// The session after the answer of a round, and the next request: for the
/// collections that the answer brought up, or, when it brought up none, for
/// the versions of the items found.
pub open spec fn after_collections(session: Session, details: Seq<Seq<(i32, Seq<char>)>>) -> (
    Session,
    Step,
) {
    let resolution = absorbed(session.resolution, details);
    if resolution.pending.len() == 0 {
        (
            Session { stage: SyncStage::VersionQuerying, resolution, ..session },
            Step::QueryVersions(indexed_form("itemcount"@, resolution.items)),
        )
    } else {
        (
            Session { resolution, ..session },
            Step::QueryCollections(indexed_form("collectioncount"@, resolution.pending)),
        )
    }
}

/// The session after the directory and the record were read, and the next
/// step: the fetch, or, when there is nothing to fetch, the installation.
pub open spec fn after_state(
    session: Session,
    entries: Seq<(Seq<char>, EntryKind)>,
    manifest: Option<Seq<(Seq<char>, u64)>>,
) -> (Session, Step) {
    let disk = installed_ids(entries);
    let recorded = match manifest {
        Some(manifest) => manifest,
        None => Seq::empty(),
    };
    let install = install_list(session.remote, disk.to_set(), version_map(recorded));
    let remove = removal_list(disk, version_map(session.remote));
    if install.len() > 0 {
        (Session { stage: SyncStage::Fetching, install, remove, ..session }, Step::Fetch(install))
    } else {
        (
            Session { stage: SyncStage::Installing, install, remove, ..session },
            Step::Install(remove, install),
        )
    }
}

/// The session after a report, and the step that is due then.
///
/// Each stage is left by the report that answers its step, or by a failure,
/// which ends the run. A run that has ended stays as it is. Any other report
/// is rejected and changes nothing.
pub open spec fn transition(session: Session, event: Event) -> (Session, Step) {
    match (session.stage, event) {
        (SyncStage::Done, _) => (session, Step::Finished),
        (SyncStage::Failed, _) => (session, Step::Failed(session.error->0)),
        (SyncStage::Idle, Event::Requested(None)) => failing(
            session,
            SyncError::NoCollectionConfigured,
        ),
        (SyncStage::Idle, Event::Requested(Some(root))) => (
            Session { stage: SyncStage::Resolving, resolution: start(root), ..session },
            Step::QueryCollections(indexed_form("collectioncount"@, seq![root])),
        ),
        (SyncStage::Idle, _) => (session, Step::Rejected),
        (_, Event::Failure(error)) => failing(session, error),
        (SyncStage::Resolving, Event::Collections(details)) => after_collections(session, details),
        (SyncStage::VersionQuerying, Event::Versions(reported)) => (
            Session {
                stage: SyncStage::Reconciling,
                remote: current_versions(reported),
                ..session
            },
            Step::ReadState,
        ),
        (SyncStage::Reconciling, Event::State(entries, manifest)) => after_state(
            session,
            entries,
            manifest,
        ),
        (SyncStage::Fetching, Event::Fetched) => (
            Session { stage: SyncStage::Installing, ..session },
            Step::Install(session.remove, session.install),
        ),
        (SyncStage::Installing, Event::Installed) => (
            Session { stage: SyncStage::ManifestWriting, ..session },
            Step::WriteManifest(session.remote),
        ),
        (SyncStage::ManifestWriting, Event::ManifestWritten) => (
            Session { stage: SyncStage::Done, ..session },
            Step::Finished,
        ),
        (_, _) => (session, Step::Rejected),
    }
}

/// A synchronisation run in progress.
pub struct SyncSession {
    stage: SyncStage,
    resolver: CollectionResolver,
    remote: Vec<ModManifestMod>,
    plan: SyncPlan,
    /// Why the run failed; it counts only once the run has failed.
    error: SyncError,
}

impl View for SyncSession {
    type V = Session;

    closed spec fn view(&self) -> Session {
        Session {
            stage: self.stage,
            resolution: self.resolver@,
            remote: self.remote.deep_view(),
            install: self.plan.install.deep_view(),
            remove: self.plan.remove.deep_view(),
            error: if self.stage == SyncStage::Failed {
                Some(self.error)
            } else {
                None
            },
        }
    }
}

impl SyncSession {
    /// Once the versions have been reported, the list of the collection's
    /// items names no item twice.
    #[verifier::type_invariant]
    spec fn remote_is_a_map(self) -> bool {
        ids_are_settled(self.stage) ==> ids_unique(self.remote.deep_view())
    }

    /// A session for which no run was asked yet.
    pub fn new() -> (session: Self)
        ensures
            session@ == idle(),
    {
        let session = SyncSession {
            stage: SyncStage::Idle,
            resolver: CollectionResolver::empty(),
            remote: Vec::new(),
            plan: SyncPlan { install: Vec::new(), remove: Vec::new() },
            error: SyncError::NoCollectionConfigured,
        };
        assert(session.remote.deep_view() =~= Seq::<(Seq<char>, u64)>::empty());
        assert(session.plan.install.deep_view() =~= Seq::<(Seq<char>, u64)>::empty());
        assert(session.plan.remove.deep_view() =~= Seq::<Seq<char>>::empty());
        session
    }

    /// How far the run has come.
    pub fn stage(&self) -> (stage: SyncStage)
        ensures
            stage == self@.stage,
    {
        self.stage
    }

    /// Why the run failed, if it did.
    pub fn error(&self) -> (error: Option<SyncError>)
        ensures
            error == self@.error,
    {
        if self.stage == SyncStage::Failed {
            Some(self.error)
        } else {
            None
        }
    }

    /// The items of the collection with their current versions, once the
    /// service has reported them.
    pub fn remote(&self) -> (remote: &Vec<ModManifestMod>)
        ensures
            remote.deep_view() == self@.remote,
    {
        &self.remote
    }

    /// The work of the run, once the directory and the record were read.
    pub fn plan(&self) -> (plan: &SyncPlan)
        ensures
            plan.install.deep_view() == self@.install,
            plan.remove.deep_view() == self@.remove,
    {
        &self.plan
    }

    /// Ends the run with a failure.
    fn fail(&mut self, error: SyncError) -> (step: SyncStep)
        ensures
            (final(self)@, step@) == failing(old(self)@, error),
    {
        proof {
            use_type_invariant(&*self);
        }
        self.stage = SyncStage::Failed;
        self.error = error;
        SyncStep::Failed(error)
    }

    /// Takes the answer of a round of the expansion.
    fn take_collections(&mut self, details: &Vec<CollectionDetails>) -> (step: SyncStep)
        requires
            old(self)@.stage == SyncStage::Resolving,
        ensures
            (final(self)@, step@) == after_collections(old(self)@, details.deep_view()),
    {
        proof {
            use_type_invariant(&*self);
        }
        let mut resolver = CollectionResolver::empty();
        core::mem::swap(&mut self.resolver, &mut resolver);
        resolver.absorb(details);
        self.resolver = resolver;
        if self.resolver.is_done() {
            self.stage = SyncStage::VersionQuerying;
            SyncStep::QueryVersions(item_request(self.resolver.items()))
        } else {
            SyncStep::QueryCollections(self.resolver.request())
        }
    }

    /// Takes the listing of the directory and the record, and makes the
    /// plan.
    fn take_state(&mut self, entries: &Vec<DiskEntry>, manifest: Option<ModManifestJson>) -> (step:
        SyncStep)
        requires
            old(self)@.stage == SyncStage::Reconciling,
        ensures
            (final(self)@, step@) == after_state(
                old(self)@,
                entries.deep_view(),
                match manifest {
                    Some(manifest) => Some(manifest@),
                    None => None,
                },
            ),
    {
        proof {
            use_type_invariant(&*self);
        }
        let disk = collect_installed_mods(entries);
        let recorded = ModManifestJson::recovered(manifest);
        self.plan = reconcile(&self.remote, &disk, &recorded.mods);
        if self.plan.needs_fetch() {
            self.stage = SyncStage::Fetching;
            SyncStep::Fetch(clone_items(&self.plan.install))
        } else {
            self.stage = SyncStage::Installing;
            SyncStep::Install(clone_ids(&self.plan.remove), clone_items(&self.plan.install))
        }
    }

    /// Takes the report on the step that was handed out last and says what
    /// to do next.
    ///
    /// A failure ends the run at once. So does a request without a
    /// collection. The record is handed out for writing only after the
    /// installation was reported as complete, and it is then the list of the
    /// collection's items with their current versions, whatever the record
    /// held before.
    pub fn advance(&mut self, event: SyncEvent) -> (step: SyncStep)
        ensures
            (final(self)@, step@) == transition(old(self)@, event@),
            step matches SyncStep::WriteManifest(manifest) ==> manifest.wf(),
    {
        proof {
            use_type_invariant(&*self);
        }
        match self.stage {
            SyncStage::Done => SyncStep::Finished,
            SyncStage::Failed => SyncStep::Failed(self.error),
            SyncStage::Idle => match event {
                SyncEvent::Requested(None) => self.fail(SyncError::NoCollectionConfigured),
                SyncEvent::Requested(Some(root)) => {
                    self.resolver = CollectionResolver::new(root);
                    self.stage = SyncStage::Resolving;
                    SyncStep::QueryCollections(self.resolver.request())
                },
                _ => SyncStep::Rejected,
            },
            SyncStage::Resolving => match event {
                SyncEvent::Failure(error) => self.fail(error),
                SyncEvent::Collections(details) => self.take_collections(&details),
                _ => SyncStep::Rejected,
            },
            SyncStage::VersionQuerying => match event {
                SyncEvent::Failure(error) => self.fail(error),
                SyncEvent::Versions(reported) => {
                    self.remote = remote_versions(&reported);
                    self.stage = SyncStage::Reconciling;
                    SyncStep::ReadState
                },
                _ => SyncStep::Rejected,
            },
            SyncStage::Reconciling => match event {
                SyncEvent::Failure(error) => self.fail(error),
                SyncEvent::State(entries, manifest) => self.take_state(&entries, manifest),
                _ => SyncStep::Rejected,
            },
            SyncStage::Fetching => match event {
                SyncEvent::Failure(error) => self.fail(error),
                SyncEvent::Fetched => {
                    self.stage = SyncStage::Installing;
                    SyncStep::Install(clone_ids(&self.plan.remove), clone_items(&self.plan.install))
                },
                _ => SyncStep::Rejected,
            },
            SyncStage::Installing => match event {
                SyncEvent::Failure(error) => self.fail(error),
                SyncEvent::Installed => {
                    self.stage = SyncStage::ManifestWriting;
                    SyncStep::WriteManifest(ModManifestJson { mods: clone_items(&self.remote) })
                },
                _ => SyncStep::Rejected,
            },
            SyncStage::ManifestWriting => match event {
                SyncEvent::Failure(error) => self.fail(error),
                SyncEvent::ManifestWritten => {
                    self.stage = SyncStage::Done;
                    SyncStep::Finished
                },
                _ => SyncStep::Rejected,
            },
        }
    }
}

/// A copy of a list of identifiers.
pub fn clone_ids(ids: &Vec<String>) -> (copy: Vec<String>)
    ensures
        copy.deep_view() == ids.deep_view(),
{
    let mut copy: Vec<String> = Vec::new();
    let mut i: usize = 0;
    while i < ids.len()
        invariant
            i <= ids.len(),
            copy.len() == i,
            forall|k: int| 0 <= k < i ==> copy[k]@ == ids[k]@,
        decreases ids.len() - i,
    {
        copy.push(ids[i].clone());
        i += 1;
    }
    assert(copy.deep_view() =~= ids.deep_view());
    copy
}

/// The session after a sequence of reports.
pub open spec fn replay(session: Session, events: Seq<Event>) -> Session
    decreases events.len(),
{
    if events.len() == 0 {
        session
    } else {
        transition(replay(session, events.drop_last()), events.last()).0
    }
}

/// The steps that a session hands out in answer to a sequence of reports.
pub open spec fn replies(session: Session, events: Seq<Event>) -> Seq<Step>
    decreases events.len(),
{
    if events.len() == 0 {
        Seq::empty()
    } else {
        replies(session, events.drop_last()).push(
            transition(replay(session, events.drop_last()), events.last()).1,
        )
    }
}

/// The run has come to the point where the record is written, or beyond.
pub open spec fn record_due(stage: SyncStage) -> bool {
    stage == SyncStage::ManifestWriting || stage == SyncStage::Done
}

/// The record is handed out for writing in one situation only: when the
/// installation is reported as complete. It is then the collection's items
/// with their current versions.
pub proof fn lemma_record_follows_installation(session: Session, event: Event)
    requires
        transition(session, event).1 is WriteManifest,
    ensures
        session.stage == SyncStage::Installing,
        event == Event::Installed,
        transition(session, event).1 == Step::WriteManifest(session.remote),
        transition(session, event).0.remote == session.remote,
{
}

/// A run that has failed stays failed, whatever is reported to it, and
/// hands out nothing but its failure: in particular never the record.
pub proof fn lemma_failure_is_final(session: Session, events: Seq<Event>)
    requires
        session.stage == SyncStage::Failed,
    ensures
        replay(session, events) == session,
        replies(session, events).len() == events.len(),
        forall|k: int|
            0 <= k < events.len() ==> #[trigger] replies(session, events)[k] == Step::Failed(
                session.error->0,
            ),
    decreases events.len(),
{
    if events.len() > 0 {
        lemma_failure_is_final(session, events.drop_last());
    }
}

/// A failure that is reported while a run is under way (while collections
/// or versions are asked for, while the directory is read, while the fetch
/// tool runs, while artifacts are moved or while the record is written)
/// ends the run. From then on the session hands out nothing but that
/// failure: nothing is fetched, moved or deleted any more, and the record
/// is not handed out for writing.
pub proof fn lemma_failed_step_ends_the_work(session: Session, error: SyncError, later: Seq<Event>)
    requires
        session.stage != SyncStage::Idle,
        session.stage != SyncStage::Done,
        session.stage != SyncStage::Failed,
    ensures
        transition(session, Event::Failure(error)) == failing(session, error),
        forall|k: int|
            0 <= k < later.len() ==> #[trigger] replies(
                transition(session, Event::Failure(error)).0,
                later,
            )[k] == Step::Failed(error),
{
    lemma_failure_is_final(failing(session, error).0, later);
}

/// Whatever is reported to a new session: every record that it hands out
/// for writing is the collection's list of items with their current
/// versions as the session holds it in the end, no identifier occurs twice
/// in that list, and a run that succeeded has handed the record out.
pub proof fn lemma_record_is_the_collection(events: Seq<Event>)
    ensures
        ({
            let end = replay(idle(), events);
            let steps = replies(idle(), events);
            &&& steps.len() == events.len()
            &&& crate::mod_manifest::ids_unique(end.remote)
            &&& forall|k: int|
                0 <= k < steps.len() && #[trigger] steps[k] is WriteManifest ==> steps[k]
                    == Step::WriteManifest(end.remote)
            &&& (exists|k: int| 0 <= k < steps.len() && #[trigger] steps[k] is WriteManifest)
                ==> record_due(end.stage) || end.stage == SyncStage::Failed
            &&& record_due(end.stage) ==> exists|k: int|
                0 <= k < steps.len() && #[trigger] steps[k] is WriteManifest
        }),
    decreases events.len(),
{
    let end = replay(idle(), events);
    let steps = replies(idle(), events);
    if events.len() == 0 {
        assert(crate::mod_manifest::item_ids(end.remote) =~= Seq::<Seq<char>>::empty());
    } else {
        let front = events.drop_last();
        lemma_record_is_the_collection(front);
        let before = replay(idle(), front);
        let earlier = replies(idle(), front);
        let last = transition(before, events.last());
        assert(steps == earlier.push(last.1));
        match (before.stage, events.last()) {
            (SyncStage::VersionQuerying, Event::Versions(reported)) => {
                crate::versions::lemma_current_versions(reported);
            },
            _ => {},
        }
        assert forall|k: int|
            0 <= k < steps.len() && #[trigger] steps[k] is WriteManifest implies steps[k]
            == Step::WriteManifest(end.remote) by {
            if k < earlier.len() {
                assert(earlier[k] is WriteManifest);
            }
        }
        if record_due(end.stage) {
            if record_due(before.stage) {
                let k = choose|k: int| 0 <= k < earlier.len() && #[trigger] earlier[k] is WriteManifest;
                assert(steps[k] is WriteManifest);
            } else {
                assert(steps[earlier.len() as int] is WriteManifest);
            }
        }
    }
}

} // verus!
