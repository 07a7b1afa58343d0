//! The rebuild of the asset index as a state machine. The machine decides;
//! a driver reads metadata, walks directories and talks to the store, and
//! reports back after each action.

use crate::index::{
    folder_changed, folder_metadata, folder_row, has_folder_changed, images_in,
    index_directory_images, mtime_of, mtime_seconds, FolderMetadata, FolderMetadataView,
    ImageIndexRecord, ImageIndexRecordView, WalkItem, WalkItemView,
};
use vstd::prelude::*;

verus! {

/// What reading the metadata of a search root gave.
#[derive(Debug, Clone)]
pub enum RootStat {
    /// The metadata could not be read; the text says why.
    Unreadable(String),
    /// The directory's modification time in whole seconds since the epoch,
    /// or `None` where the platform gives none or it lies before the epoch.
    Readable { modified_secs: Option<u64> },
}

pub enum RootStatView {
    Unreadable(Seq<char>),
    Readable { modified_secs: Option<u64> },
}

impl View for RootStat {
    type V = RootStatView;

    open spec fn view(&self) -> RootStatView {
        match self {
            RootStat::Unreadable(reason) => RootStatView::Unreadable(reason@),
            RootStat::Readable { modified_secs } => RootStatView::Readable {
                modified_secs: *modified_secs,
            },
        }
    }
}

/// What the driver reports back after it has carried out an action.
#[derive(Debug, Clone)]
pub enum RebuildEvent {
    /// The rebuild begins.
    Begin,
    /// The answer to `StatRoot`.
    Stat(RootStat),
    /// The answer to `QueryStoredMtime`: the recorded time, or `None` where
    /// the store holds no row for the root or could not be asked.
    Stored(Option<i64>),
    /// The answer to `WalkRoot`: every item of the walk, in order.
    Walked(Vec<WalkItem>),
    /// The store carried out the last action.
    Succeeded,
    /// The store refused the last action; the text says why.
    Failed(String),
}

pub enum RebuildEventView {
    Begin,
    Stat(RootStatView),
    Stored(Option<i64>),
    Walked(Seq<WalkItemView>),
    Succeeded,
    Failed(Seq<char>),
}

impl View for RebuildEvent {
    type V = RebuildEventView;

    open spec fn view(&self) -> RebuildEventView {
        match self {
            RebuildEvent::Begin => RebuildEventView::Begin,
            RebuildEvent::Stat(stat) => RebuildEventView::Stat(stat@),
            RebuildEvent::Stored(mtime) => RebuildEventView::Stored(*mtime),
            RebuildEvent::Walked(items) => RebuildEventView::Walked(items.deep_view()),
            RebuildEvent::Succeeded => RebuildEventView::Succeeded,
            RebuildEvent::Failed(reason) => RebuildEventView::Failed(reason@),
        }
    }
}

/// What the driver is to do next.
#[derive(Debug)]
pub enum RebuildAction {
    /// Read the metadata of this directory.
    StatRoot(String),
    /// Ask the store for the modification time that it recorded for this root.
    QueryStoredMtime(String),
    /// Open a transaction on the store.
    BeginTransaction,
    /// Walk this root recursively, following links, and report every item.
    WalkRoot(String),
    /// Insert this record, in place of any that has the same path.
    UpsertImage(ImageIndexRecord),
    /// Insert this row, in place of any that has the same path.
    UpsertFolder(FolderMetadata),
    /// Commit the open transaction.
    Commit,
    /// The rebuild is over. On an error the driver abandons the open
    /// transaction, which rolls it back, and hands the text to the caller.
    Finish(Result<(), String>),
}

pub enum RebuildActionView {
    StatRoot(Seq<char>),
    QueryStoredMtime(Seq<char>),
    BeginTransaction,
    WalkRoot(Seq<char>),
    UpsertImage(ImageIndexRecordView),
    UpsertFolder(FolderMetadataView),
    Commit,
    Finish(Result<(), Seq<char>>),
}

impl View for RebuildAction {
    type V = RebuildActionView;

    open spec fn view(&self) -> RebuildActionView {
        match self {
            RebuildAction::StatRoot(root) => RebuildActionView::StatRoot(root@),
            RebuildAction::QueryStoredMtime(root) => RebuildActionView::QueryStoredMtime(root@),
            RebuildAction::BeginTransaction => RebuildActionView::BeginTransaction,
            RebuildAction::WalkRoot(root) => RebuildActionView::WalkRoot(root@),
            RebuildAction::UpsertImage(record) => RebuildActionView::UpsertImage(record@),
            RebuildAction::UpsertFolder(row) => RebuildActionView::UpsertFolder(row@),
            RebuildAction::Commit => RebuildActionView::Commit,
            RebuildAction::Finish(Ok(())) => RebuildActionView::Finish(Ok(())),
            RebuildAction::Finish(Err(reason)) => RebuildActionView::Finish(Err(reason@)),
        }
    }
}

/// Where a rebuild stands: which report it waits for.
#[derive(Debug, Clone, Copy, PartialEq, Eq, Structural)]
pub enum RebuildPhase {
    /// Not begun.
    Created,
    /// The root's metadata, to decide whether it changed.
    AwaitProbe,
    /// The recorded time, to compare with the current one.
    AwaitStored { current: i64 },
    /// The transaction to open.
    AwaitTransaction,
    /// The walk.
    AwaitWalk,
    /// The store's word on one record.
    AwaitUpsert,
    /// The root's metadata again, for the row to record.
    AwaitStat,
    /// The store's word on the row.
    AwaitFolder,
    /// The commit.
    AwaitCommit,
    /// Over.
    Finished,
}

/// One rebuild of the index over a list of search roots.
#[derive(Debug)]
pub struct Rebuild {
    roots: Vec<String>,
    entered: usize,
    root: String,
    phase: RebuildPhase,
    pending: Vec<ImageIndexRecord>,
    written: usize,
}

pub struct RebuildView {
    /// The search roots, in the order in which they are taken.
    pub roots: Seq<Seq<char>>,
    /// How many of them the rebuild has entered.
    pub entered: nat,
    /// The root that the rebuild is in.
    pub root: Seq<char>,
    pub phase: RebuildPhase,
    /// The records to write for the root, in the order of the walk.
    pub pending: Seq<ImageIndexRecordView>,
    /// How many of them have been handed to the store.
    pub written: nat,
}

impl View for Rebuild {
    type V = RebuildView;

    closed spec fn view(&self) -> RebuildView {
        RebuildView {
            roots: self.roots.deep_view(),
            entered: self.entered as nat,
            root: self.root@,
            phase: self.phase,
            pending: self.pending.deep_view(),
            written: self.written as nat,
        }
    }
}

/// The text of the failure that ends a rebuild whose driver reports
/// something that the rebuild does not wait for.
pub open spec fn out_of_step() -> Seq<char> {
    "rebuild driver out of step"@
}

impl RebuildView {
    /// A rebuild over `roots` that has not begun.
    pub open spec fn fresh(roots: Seq<Seq<char>>) -> RebuildView {
        RebuildView {
            roots,
            entered: 0,
            root: Seq::empty(),
            phase: RebuildPhase::Created,
            pending: Seq::empty(),
            written: 0,
        }
    }

    /// The rebuild in `phase`, otherwise unchanged.
    pub open spec fn at(self, phase: RebuildPhase) -> RebuildView {
        RebuildView { phase, ..self }
    }

    /// Turns to the next root and asks for its metadata; with no root left,
    /// the rebuild ends well.
    pub open spec fn enter_next(self) -> (RebuildView, RebuildActionView) {
        if self.entered < self.roots.len() {
            (
                RebuildView {
                    entered: self.entered + 1,
                    root: self.roots[self.entered as int],
                    phase: RebuildPhase::AwaitProbe,
                    pending: Seq::empty(),
                    written: 0,
                    ..self
                },
                RebuildActionView::StatRoot(self.roots[self.entered as int]),
            )
        } else {
            (self.at(RebuildPhase::Finished), RebuildActionView::Finish(Ok(())))
        }
    }

    /// Hands the next pending record to the store; with none left, asks for
    /// the root's metadata.
    pub open spec fn write_next(self) -> (RebuildView, RebuildActionView) {
        if self.written < self.pending.len() {
            (
                RebuildView {
                    phase: RebuildPhase::AwaitUpsert,
                    written: self.written + 1,
                    ..self
                },
                RebuildActionView::UpsertImage(self.pending[self.written as int]),
            )
        } else {
            (self.at(RebuildPhase::AwaitStat), RebuildActionView::StatRoot(self.root))
        }
    }

    /// Ends the rebuild with a failure.
    pub open spec fn fail(self, reason: Seq<char>) -> (RebuildView, RebuildActionView) {
        (self.at(RebuildPhase::Finished), RebuildActionView::Finish(Err(reason)))
    }

    /// Opens the transaction in which the root is rescanned.
    pub open spec fn rescan(self) -> (RebuildView, RebuildActionView) {
        (self.at(RebuildPhase::AwaitTransaction), RebuildActionView::BeginTransaction)
    }

    /// The transition function of a rebuild: the state after `event`, and the
    /// action that the driver is to carry out.
    ///
    /// The roots are taken in order. For each, the rebuild reads the root's
    /// metadata and, where that can be read, the recorded time; a root that
    /// has not changed is passed over. A changed root gets a transaction, in
    /// which the rebuild has the root walked, writes a record for each image
    /// of the walk in order, reads the root's metadata again, writes the
    /// root's row with the time just read, and commits. The first failure of
    /// the store, or of the second reading of the metadata, ends the rebuild
    /// with that failure's text; what earlier roots committed stays. A report
    /// that the rebuild does not wait for ends it with `out_of_step`.
    pub open spec fn step(self, event: RebuildEventView) -> (RebuildView, RebuildActionView) {
        match (self.phase, event) {
            (RebuildPhase::Created, RebuildEventView::Begin) => self.enter_next(),
            (RebuildPhase::AwaitProbe, RebuildEventView::Stat(RootStatView::Unreadable(_))) =>
                self.rescan(),
            (
                RebuildPhase::AwaitProbe,
                RebuildEventView::Stat(RootStatView::Readable { modified_secs }),
            ) => (
                self.at(RebuildPhase::AwaitStored { current: mtime_of(modified_secs) }),
                RebuildActionView::QueryStoredMtime(self.root),
            ),
            (RebuildPhase::AwaitStored { current }, RebuildEventView::Stored(stored)) =>
                if folder_changed(Some(current), stored) {
                    self.rescan()
                } else {
                    self.enter_next()
                },
            (RebuildPhase::AwaitTransaction, RebuildEventView::Succeeded) => (
                self.at(RebuildPhase::AwaitWalk),
                RebuildActionView::WalkRoot(self.root),
            ),
            (RebuildPhase::AwaitWalk, RebuildEventView::Walked(items)) => (RebuildView {
                pending: images_in(items),
                written: 0,
                ..self
            }).write_next(),
            (RebuildPhase::AwaitUpsert, RebuildEventView::Succeeded) => self.write_next(),
            (RebuildPhase::AwaitStat, RebuildEventView::Stat(RootStatView::Unreadable(reason))) =>
                self.fail(reason),
            (
                RebuildPhase::AwaitStat,
                RebuildEventView::Stat(RootStatView::Readable { modified_secs }),
            ) => (
                self.at(RebuildPhase::AwaitFolder),
                RebuildActionView::UpsertFolder(folder_row(self.root, mtime_of(modified_secs))),
            ),
            (RebuildPhase::AwaitFolder, RebuildEventView::Succeeded) => (
                self.at(RebuildPhase::AwaitCommit),
                RebuildActionView::Commit,
            ),
            (RebuildPhase::AwaitCommit, RebuildEventView::Succeeded) => self.enter_next(),
            (RebuildPhase::AwaitTransaction, RebuildEventView::Failed(reason)) => self.fail(reason),
            (RebuildPhase::AwaitUpsert, RebuildEventView::Failed(reason)) => self.fail(reason),
            (RebuildPhase::AwaitFolder, RebuildEventView::Failed(reason)) => self.fail(reason),
            (RebuildPhase::AwaitCommit, RebuildEventView::Failed(reason)) => self.fail(reason),
            _ => self.fail(out_of_step()),
        }
    }
}

impl Rebuild {
    /// A rebuild over `roots` that has not begun.
    pub fn new(roots: Vec<String>) -> (rebuild: Rebuild)
        ensures
            rebuild@ == RebuildView::fresh(roots.deep_view()),
    {
        let rebuild = Rebuild {
            roots,
            entered: 0,
            root: String::new(),
            phase: RebuildPhase::Created,
            pending: Vec::new(),
            written: 0,
        };
        assert(rebuild.pending.deep_view() == Seq::<ImageIndexRecordView>::empty());
        rebuild
    }

    /// Where the rebuild stands.
    pub fn phase(&self) -> (phase: RebuildPhase)
        ensures
            phase == self@.phase,
    {
        self.phase
    }

    fn enter_next(&mut self) -> (action: RebuildAction)
        ensures
            (final(self)@, action@) == old(self)@.enter_next(),
    {
        if self.entered < self.roots.len() {
            let root = self.roots[self.entered].clone();
            assert(self.roots.deep_view()[self.entered as int] == root@);
            self.entered = self.entered + 1;
            self.root = root.clone();
            self.phase = RebuildPhase::AwaitProbe;
            self.pending = Vec::new();
            self.written = 0;
            assert(self.pending.deep_view() == Seq::<ImageIndexRecordView>::empty());
            RebuildAction::StatRoot(root)
        } else {
            self.phase = RebuildPhase::Finished;
            RebuildAction::Finish(Ok(()))
        }
    }

    fn write_next(&mut self) -> (action: RebuildAction)
        ensures
            (final(self)@, action@) == old(self)@.write_next(),
    {
        if self.written < self.pending.len() {
            let record = self.pending[self.written].duplicate();
            assert(self.pending.deep_view()[self.written as int] == record@);
            self.phase = RebuildPhase::AwaitUpsert;
            self.written = self.written + 1;
            RebuildAction::UpsertImage(record)
        } else {
            self.phase = RebuildPhase::AwaitStat;
            RebuildAction::StatRoot(self.root.clone())
        }
    }

    fn fail(&mut self, reason: String) -> (action: RebuildAction)
        ensures
            (final(self)@, action@) == old(self)@.fail(reason@),
    {
        self.phase = RebuildPhase::Finished;
        RebuildAction::Finish(Err(reason))
    }

    fn rescan(&mut self) -> (action: RebuildAction)
        ensures
            (final(self)@, action@) == old(self)@.rescan(),
    {
        self.phase = RebuildPhase::AwaitTransaction;
        RebuildAction::BeginTransaction
    }

    /// Takes the driver's report and says what to do next: `RebuildView::step`.
    pub fn step(&mut self, event: RebuildEvent) -> (action: RebuildAction)
        ensures
            (final(self)@, action@) == old(self)@.step(event@),
    {
        match (self.phase, event) {
            (RebuildPhase::Created, RebuildEvent::Begin) => self.enter_next(),
            (RebuildPhase::AwaitProbe, RebuildEvent::Stat(RootStat::Unreadable(_))) => self.rescan(),
            (RebuildPhase::AwaitProbe, RebuildEvent::Stat(RootStat::Readable { modified_secs })) => {
                self.phase = RebuildPhase::AwaitStored { current: mtime_seconds(modified_secs) };
                RebuildAction::QueryStoredMtime(self.root.clone())
            },
            (RebuildPhase::AwaitStored { current }, RebuildEvent::Stored(stored)) => {
                if has_folder_changed(Some(current), stored) {
                    self.rescan()
                } else {
                    self.enter_next()
                }
            },
            (RebuildPhase::AwaitTransaction, RebuildEvent::Succeeded) => {
                self.phase = RebuildPhase::AwaitWalk;
                RebuildAction::WalkRoot(self.root.clone())
            },
            (RebuildPhase::AwaitWalk, RebuildEvent::Walked(items)) => {
                self.pending = index_directory_images(&items);
                self.written = 0;
                self.write_next()
            },
            (RebuildPhase::AwaitUpsert, RebuildEvent::Succeeded) => self.write_next(),
            (RebuildPhase::AwaitStat, RebuildEvent::Stat(RootStat::Unreadable(reason))) => self.fail(
                reason,
            ),
            (RebuildPhase::AwaitStat, RebuildEvent::Stat(RootStat::Readable { modified_secs })) => {
                let row = folder_metadata(self.root.as_str(), mtime_seconds(modified_secs));
                self.phase = RebuildPhase::AwaitFolder;
                RebuildAction::UpsertFolder(row)
            },
            (RebuildPhase::AwaitFolder, RebuildEvent::Succeeded) => {
                self.phase = RebuildPhase::AwaitCommit;
                RebuildAction::Commit
            },
            (RebuildPhase::AwaitCommit, RebuildEvent::Succeeded) => self.enter_next(),
            (RebuildPhase::AwaitTransaction, RebuildEvent::Failed(reason)) => self.fail(reason),
            (RebuildPhase::AwaitUpsert, RebuildEvent::Failed(reason)) => self.fail(reason),
            (RebuildPhase::AwaitFolder, RebuildEvent::Failed(reason)) => self.fail(reason),
            (RebuildPhase::AwaitCommit, RebuildEvent::Failed(reason)) => self.fail(reason),
            _ => self.fail("rebuild driver out of step".to_owned()),
        }
    }
}

/// Whether a rebuild in `phase` has a transaction open.
pub open spec fn in_transaction(phase: RebuildPhase) -> bool {
    match phase {
        RebuildPhase::AwaitWalk => true,
        RebuildPhase::AwaitUpsert => true,
        RebuildPhase::AwaitStat => true,
        RebuildPhase::AwaitFolder => true,
        RebuildPhase::AwaitCommit => true,
        _ => false,
    }
}

/// Every write to the store lies in the transaction of its root: a rebuild
/// asks for a write or a commit only while a transaction is open, opens one
/// only while none is, and closes it only by the commit or by ending.
pub proof fn lemma_writes_stay_in_the_transaction(state: RebuildView, event: RebuildEventView)
    ensures
        ({
            let (next, action) = state.step(event);
            &&& action is UpsertImage || action is UpsertFolder || action is Commit || action
                is WalkRoot ==> in_transaction(next.phase) && (in_transaction(state.phase)
                || state.phase == RebuildPhase::AwaitTransaction)
            &&& action is BeginTransaction ==> !in_transaction(state.phase) && next.phase
                == RebuildPhase::AwaitTransaction
            &&& in_transaction(state.phase) && !in_transaction(next.phase) ==> next.phase
                == RebuildPhase::Finished || (state.phase == RebuildPhase::AwaitCommit && event
                == RebuildEventView::Succeeded)
            &&& action is UpsertFolder ==> action->UpsertFolder_0.path == state.root
            &&& action is WalkRoot ==> action->WalkRoot_0 == state.root
        }),
{
}

/// A failure of the store ends the rebuild with the failure's text, and a
/// rebuild that is over stays so.
pub proof fn lemma_failure_ends_the_rebuild(
    state: RebuildView,
    reason: Seq<char>,
    event: RebuildEventView,
)
    ensures
        state.phase == RebuildPhase::AwaitTransaction || state.phase == RebuildPhase::AwaitUpsert
            || state.phase == RebuildPhase::AwaitFolder || state.phase == RebuildPhase::AwaitCommit
            ==> state.step(RebuildEventView::Failed(reason)) == state.fail(reason),
        state.step(event).1 is Finish <==> state.step(event).0.phase == RebuildPhase::Finished,
        state.phase == RebuildPhase::Finished ==> state.step(event) == state.fail(out_of_step()),
        state.step(event).0.roots == state.roots,
{
}

} // verus!
