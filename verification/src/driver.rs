//! A model of a driver whose store never fails, and what a rebuild achieves
//! with it: the rebuild machine, run to its end, takes the roots in order,
//! walks exactly those that have changed, and leaves in the store what
//! rescanning each of them gives.

use crate::index::{folder_changed, folder_row, images_in, mtime_of, WalkItemView};
use crate::rebuild::{
    RebuildActionView, RebuildEventView, RebuildPhase, RebuildView, RootStatView,
};
use crate::store::StoreModel;
use vstd::prelude::*;

verus! {

/// The filesystem as a rebuild meets it: what reading a root's metadata
/// gives, and what walking the root yields.
pub struct WorldView {
    pub stat: spec_fn(Seq<char>) -> RootStatView,
    pub walk: spec_fn(Seq<char>) -> Seq<WalkItemView>,
}

/// A driver whose store never fails: the store as it is committed, the store
/// as the open transaction sees it, and the roots walked so far.
pub struct DriverView {
    pub committed: StoreModel,
    pub working: StoreModel,
    pub walked: Seq<Seq<char>>,
}

/// How a rebuild ended: its result, the store as it is committed, and the
/// roots that were walked, in order.
pub struct OutcomeView {
    pub result: Result<(), Seq<char>>,
    pub store: StoreModel,
    pub walked: Seq<Seq<char>>,
}

impl DriverView {
    /// A driver at rest on `store`, with nothing walked.
    pub open spec fn on(store: StoreModel) -> DriverView {
        DriverView { committed: store, working: store, walked: Seq::empty() }
    }

    /// Carries out `action` in `world`: the report for the rebuild, and the
    /// driver afterwards.
    pub open spec fn answer(self, world: WorldView, action: RebuildActionView) -> (
        RebuildEventView,
        DriverView,
    ) {
        match action {
            RebuildActionView::StatRoot(root) => (RebuildEventView::Stat((world.stat)(root)), self),
            RebuildActionView::QueryStoredMtime(root) => (
                RebuildEventView::Stored(self.committed.stored_mtime(root)),
                self,
            ),
            RebuildActionView::BeginTransaction => (
                RebuildEventView::Succeeded,
                DriverView { working: self.committed, ..self },
            ),
            RebuildActionView::WalkRoot(root) => (
                RebuildEventView::Walked((world.walk)(root)),
                DriverView { walked: self.walked.push(root), ..self },
            ),
            RebuildActionView::UpsertImage(record) => (
                RebuildEventView::Succeeded,
                DriverView { working: self.working.upsert_image(record), ..self },
            ),
            RebuildActionView::UpsertFolder(row) => (
                RebuildEventView::Succeeded,
                DriverView { working: self.working.upsert_folder(row), ..self },
            ),
            RebuildActionView::Commit => (
                RebuildEventView::Succeeded,
                DriverView { committed: self.working, ..self },
            ),
            RebuildActionView::Finish(_) => (RebuildEventView::Begin, self),
        }
    }
}

/// Whether `action` is what a rebuild in `phase` has asked for.
pub open spec fn asked(phase: RebuildPhase, action: RebuildActionView) -> bool {
    match (phase, action) {
        (RebuildPhase::AwaitProbe, RebuildActionView::StatRoot(_)) => true,
        (RebuildPhase::AwaitStored { .. }, RebuildActionView::QueryStoredMtime(_)) => true,
        (RebuildPhase::AwaitTransaction, RebuildActionView::BeginTransaction) => true,
        (RebuildPhase::AwaitWalk, RebuildActionView::WalkRoot(_)) => true,
        (RebuildPhase::AwaitUpsert, RebuildActionView::UpsertImage(_)) => true,
        (RebuildPhase::AwaitStat, RebuildActionView::StatRoot(_)) => true,
        (RebuildPhase::AwaitFolder, RebuildActionView::UpsertFolder(_)) => true,
        (RebuildPhase::AwaitCommit, RebuildActionView::Commit) => true,
        (_, RebuildActionView::Finish(_)) => true,
        _ => false,
    }
}

/// How far a phase is from the end of its root.
pub open spec fn rank(phase: RebuildPhase) -> nat {
    match phase {
        RebuildPhase::Created => 9,
        RebuildPhase::AwaitProbe => 8,
        RebuildPhase::AwaitStored { .. } => 7,
        RebuildPhase::AwaitTransaction => 6,
        RebuildPhase::AwaitWalk => 5,
        RebuildPhase::AwaitUpsert => 4,
        RebuildPhase::AwaitStat => 3,
        RebuildPhase::AwaitFolder => 2,
        RebuildPhase::AwaitCommit => 1,
        RebuildPhase::Finished => 0,
    }
}

/// Runs a rebuild that has asked for `action` to its end: the driver carries
/// out each action and the rebuild takes each report.
pub open spec fn run(
    world: WorldView,
    state: RebuildView,
    action: RebuildActionView,
    driver: DriverView,
) -> OutcomeView
    decreases state.roots.len() - state.entered, rank(state.phase), state.pending.len()
        - state.written,
    when asked(state.phase, action)
{
    match action {
        RebuildActionView::Finish(result) => OutcomeView {
            result,
            store: driver.committed,
            walked: driver.walked,
        },
        _ => {
            let (event, next_driver) = driver.answer(world, action);
            let (next, next_action) = state.step(event);
            run(world, next, next_action, next_driver)
        },
    }
}

/// Whether a root needs a rescan, as the rebuild decides it.
pub open spec fn root_changed(world: WorldView, store: StoreModel, root: Seq<char>) -> bool {
    match (world.stat)(root) {
        RootStatView::Unreadable(_) => true,
        RootStatView::Readable { modified_secs } => folder_changed(
            Some(mtime_of(modified_secs)),
            store.stored_mtime(root),
        ),
    }
}

/// What rebuilding over `roots` comes to, root by root: an unchanged root is
/// passed over; a changed root whose metadata can be read is walked and
/// rescanned; a root whose metadata cannot be read is walked, and then ends
/// the rebuild with the reason, its transaction undone.
pub open spec fn rebuilt(
    world: WorldView,
    store: StoreModel,
    walked: Seq<Seq<char>>,
    roots: Seq<Seq<char>>,
) -> OutcomeView
    decreases roots.len(),
{
    if roots.len() == 0 {
        OutcomeView { result: Ok(()), store, walked }
    } else {
        let root = roots.first();
        if !root_changed(world, store, root) {
            rebuilt(world, store, walked, roots.drop_first())
        } else {
            match (world.stat)(root) {
                RootStatView::Unreadable(reason) => OutcomeView {
                    result: Err(reason),
                    store,
                    walked: walked.push(root),
                },
                RootStatView::Readable { modified_secs } => rebuilt(
                    world,
                    store.rescan(root, (world.walk)(root), mtime_of(modified_secs)),
                    walked.push(root),
                    roots.drop_first(),
                ),
            }
        }
    }
}

/// The rebuild once every pending record has been handed to the store.
pub open spec fn all_written(state: RebuildView) -> RebuildView {
    RebuildView { phase: RebuildPhase::AwaitStat, written: state.pending.len(), ..state }
}

/// Writing the pending records one by one comes to writing them all.
proof fn lemma_write(world: WorldView, state: RebuildView, driver: DriverView, base: StoreModel)
    requires
        state.written <= state.pending.len(),
        driver.working == base.upsert_images(state.pending.take(state.written as int)),
    ensures
        run(world, state.write_next().0, state.write_next().1, driver) == run(
            world,
            all_written(state),
            RebuildActionView::StatRoot(state.root),
            DriverView { working: base.upsert_images(state.pending), ..driver },
        ),
    decreases state.pending.len() - state.written,
{
    let (next, action) = state.write_next();
    if state.written < state.pending.len() {
        let k = state.written as int;
        let (event, after) = driver.answer(world, action);
        assert(state.pending.take(k + 1).drop_last() == state.pending.take(k));
        assert(state.pending.take(k + 1).last() == state.pending[k]);
        assert(after.working == base.upsert_images(state.pending.take(k + 1)));
        assert(next.step(event) == next.write_next());
        assert(run(world, next, action, driver) == run(
            world,
            next.write_next().0,
            next.write_next().1,
            after,
        ));
        lemma_write(world, next, after, base);
        assert(all_written(next) == all_written(state));
    } else {
        assert(state.pending.take(state.written as int) == state.pending);
        assert(next == all_written(state));
    }
}

/// What the rest of a rebuild comes to once the next root is entered.
proof fn lemma_enter(world: WorldView, state: RebuildView, driver: DriverView)
    requires
        state.entered <= state.roots.len(),
    ensures
        run(world, state.enter_next().0, state.enter_next().1, driver) == rebuilt(
            world,
            driver.committed,
            driver.walked,
            state.roots.skip(state.entered as int),
        ),
    decreases state.roots.len() - state.entered, 0nat,
{
    let rest = state.roots.skip(state.entered as int);
    let (probing, stat_action) = state.enter_next();
    if state.entered < state.roots.len() {
        let root = state.roots[state.entered as int];
        assert(rest.first() == root);
        assert(rest.drop_first() == state.roots.skip(state.entered as int + 1));
        let (stat_event, _) = driver.answer(world, stat_action);
        let (probed, probed_action) = probing.step(stat_event);
        assert(run(world, probing, stat_action, driver) == run(
            world,
            probed,
            probed_action,
            driver,
        ));
        match (world.stat)(root) {
            RootStatView::Unreadable(_) => {
                lemma_scan(world, probed, driver);
            },
            RootStatView::Readable { modified_secs } => {
                let (stored_event, _) = driver.answer(world, probed_action);
                let (decided, decided_action) = probed.step(stored_event);
                assert(run(world, probed, probed_action, driver) == run(
                    world,
                    decided,
                    decided_action,
                    driver,
                ));
                if root_changed(world, driver.committed, root) {
                    lemma_scan(world, decided, driver);
                } else {
                    assert(probed.enter_next() == (decided, decided_action));
                    lemma_enter(world, probed, driver);
                }
            },
        }
    } else {
        assert(rest.len() == 0);
    }
}

/// What the rest of a rebuild comes to once a root is to be rescanned.
proof fn lemma_scan(world: WorldView, state: RebuildView, driver: DriverView)
    requires
        state.phase == RebuildPhase::AwaitTransaction,
        state.entered <= state.roots.len(),
    ensures
        run(world, state, RebuildActionView::BeginTransaction, driver) == (match (world.stat)(
            state.root,
        ) {
            RootStatView::Unreadable(reason) => OutcomeView {
                result: Err(reason),
                store: driver.committed,
                walked: driver.walked.push(state.root),
            },
            RootStatView::Readable { modified_secs } => rebuilt(
                world,
                driver.committed.rescan(
                    state.root,
                    (world.walk)(state.root),
                    mtime_of(modified_secs),
                ),
                driver.walked.push(state.root),
                state.roots.skip(state.entered as int),
            ),
        }),
    decreases state.roots.len() - state.entered, 1nat,
{
    let root = state.root;
    let items = (world.walk)(root);
    let (begun_event, begun) = driver.answer(world, RebuildActionView::BeginTransaction);
    let (walking, walk_action) = state.step(begun_event);
    assert(run(world, state, RebuildActionView::BeginTransaction, driver) == run(
        world,
        walking,
        walk_action,
        begun,
    ));
    let (walked_event, walked) = begun.answer(world, walk_action);
    let (writing, write_action) = walking.step(walked_event);
    assert(run(world, walking, walk_action, begun) == run(world, writing, write_action, walked));
    let loaded = RebuildView { pending: images_in(items), written: 0, ..walking };
    assert((writing, write_action) == loaded.write_next());
    assert(loaded.pending.take(0) == Seq::<crate::index::ImageIndexRecordView>::empty());
    lemma_write(world, loaded, walked, driver.committed);
    let written = DriverView {
        working: driver.committed.upsert_images(images_in(items)),
        ..walked
    };
    let waiting = all_written(loaded);
    let (stat_event, _) = written.answer(world, RebuildActionView::StatRoot(root));
    let (stated, stated_action) = waiting.step(stat_event);
    assert(run(world, waiting, RebuildActionView::StatRoot(root), written) == run(
        world,
        stated,
        stated_action,
        written,
    ));
    match (world.stat)(root) {
        RootStatView::Unreadable(reason) => {},
        RootStatView::Readable { modified_secs } => {
            let (rowed_event, rowed) = written.answer(world, stated_action);
            let (committing, commit_action) = stated.step(rowed_event);
            assert(run(world, stated, stated_action, written) == run(
                world,
                committing,
                commit_action,
                rowed,
            ));
            let (committed_event, committed) = rowed.answer(world, commit_action);
            let (entering, enter_action) = committing.step(committed_event);
            assert(run(world, committing, commit_action, rowed) == run(
                world,
                entering,
                enter_action,
                committed,
            ));
            assert((entering, enter_action) == committing.enter_next());
            lemma_enter(world, committing, committed);
        },
    }
}

/// A rebuild that is driven faultlessly comes to `rebuilt`: it takes the
/// roots in order, walks exactly those that have changed, and leaves in the
/// store what rescanning each of them gives.
pub proof fn lemma_rebuild_runs_to_rebuilt(
    world: WorldView,
    store: StoreModel,
    roots: Seq<Seq<char>>,
)
    ensures
        run(
            world,
            RebuildView::fresh(roots).step(RebuildEventView::Begin).0,
            RebuildView::fresh(roots).step(RebuildEventView::Begin).1,
            DriverView::on(store),
        ) == rebuilt(world, store, Seq::empty(), roots),
{
    let fresh = RebuildView::fresh(roots);
    assert(fresh.step(RebuildEventView::Begin) == fresh.enter_next());
    assert(roots.skip(0) == roots);
    lemma_enter(world, fresh, DriverView::on(store));
}

/// Rescanning a root leaves it unchanged in the eyes of the change
/// detector, and leaves unchanged every root that was so before.
pub proof fn lemma_rescan_settles(
    world: WorldView,
    store: StoreModel,
    root: Seq<char>,
    other: Seq<char>,
)
    requires
        (world.stat)(root) is Readable,
    ensures
        !root_changed(
            world,
            store.rescan(root, (world.walk)(root), mtime_of((world.stat)(root)->modified_secs)),
            root,
        ),
        !root_changed(world, store, other) ==> !root_changed(
            world,
            store.rescan(root, (world.walk)(root), mtime_of((world.stat)(root)->modified_secs)),
            other,
        ),
{
    crate::store::lemma_upsert_images(store, images_in((world.walk)(root)), root);
}

/// A rebuild leaves unchanged every root that was unchanged before it.
pub proof fn lemma_rebuilt_keeps_settled(
    world: WorldView,
    store: StoreModel,
    walked: Seq<Seq<char>>,
    roots: Seq<Seq<char>>,
    other: Seq<char>,
)
    requires
        !root_changed(world, store, other),
    ensures
        !root_changed(world, rebuilt(world, store, walked, roots).store, other),
    decreases roots.len(),
{
    if roots.len() > 0 {
        let root = roots.first();
        if !root_changed(world, store, root) {
            lemma_rebuilt_keeps_settled(world, store, walked, roots.drop_first(), other);
        } else {
            match (world.stat)(root) {
                RootStatView::Unreadable(_) => {},
                RootStatView::Readable { modified_secs } => {
                    lemma_rescan_settles(world, store, root, other);
                    lemma_rebuilt_keeps_settled(
                        world,
                        store.rescan(root, (world.walk)(root), mtime_of(modified_secs)),
                        walked.push(root),
                        roots.drop_first(),
                        other,
                    );
                },
            }
        }
    }
}

/// A rebuild that ends well leaves each of its roots unchanged in the eyes
/// of the change detector.
pub proof fn lemma_rebuilt_settles_roots(
    world: WorldView,
    store: StoreModel,
    walked: Seq<Seq<char>>,
    roots: Seq<Seq<char>>,
    i: int,
)
    requires
        rebuilt(world, store, walked, roots).result is Ok,
        0 <= i < roots.len(),
    ensures
        !root_changed(world, rebuilt(world, store, walked, roots).store, roots[i]),
    decreases roots.len(),
{
    let root = roots.first();
    let rest = roots.drop_first();
    if !root_changed(world, store, root) {
        if i == 0 {
            lemma_rebuilt_keeps_settled(world, store, walked, rest, root);
        } else {
            assert(rest[i - 1] == roots[i]);
            lemma_rebuilt_settles_roots(world, store, walked, rest, i - 1);
        }
    } else {
        match (world.stat)(root) {
            RootStatView::Unreadable(_) => {},
            RootStatView::Readable { modified_secs } => {
                let scanned = store.rescan(root, (world.walk)(root), mtime_of(modified_secs));
                if i == 0 {
                    lemma_rescan_settles(world, store, root, root);
                    lemma_rebuilt_keeps_settled(world, scanned, walked.push(root), rest, root);
                } else {
                    assert(rest[i - 1] == roots[i]);
                    lemma_rebuilt_settles_roots(world, scanned, walked.push(root), rest, i - 1);
                }
            },
        }
    }
}

/// A rebuild over roots of which none has changed walks nothing and leaves
/// the store as it was.
pub proof fn lemma_unchanged_roots_are_passed_over(
    world: WorldView,
    store: StoreModel,
    walked: Seq<Seq<char>>,
    roots: Seq<Seq<char>>,
)
    requires
        forall|i: int| 0 <= i < roots.len() ==> !root_changed(world, store, #[trigger] roots[i]),
    ensures
        rebuilt(world, store, walked, roots) == (OutcomeView { result: Ok(()), store, walked }),
    decreases roots.len(),
{
    if roots.len() > 0 {
        let rest = roots.drop_first();
        assert(!root_changed(world, store, roots[0]));
        assert forall|i: int| 0 <= i < rest.len() implies !root_changed(
            world,
            store,
            #[trigger] rest[i],
        ) by {
            assert(rest[i] == roots[i + 1]);
        }
        lemma_unchanged_roots_are_passed_over(world, store, walked, rest);
    }
}

/// Idempotence: where a rebuild has ended well and the filesystem stays as
/// it was, a second rebuild over the same roots walks nothing and leaves the
/// store as the first one left it.
pub proof fn lemma_second_rebuild_changes_nothing(
    world: WorldView,
    store: StoreModel,
    roots: Seq<Seq<char>>,
)
    requires
        rebuilt(world, store, Seq::empty(), roots).result is Ok,
    ensures
        rebuilt(world, rebuilt(world, store, Seq::empty(), roots).store, Seq::empty(), roots) == (
        OutcomeView {
            result: Ok(()),
            store: rebuilt(world, store, Seq::empty(), roots).store,
            walked: Seq::empty(),
        }),
{
    let first = rebuilt(world, store, Seq::empty(), roots);
    assert forall|i: int| 0 <= i < roots.len() implies !root_changed(
        world,
        first.store,
        #[trigger] roots[i],
    ) by {
        lemma_rebuilt_settles_roots(world, store, Seq::empty(), roots, i);
    }
    lemma_unchanged_roots_are_passed_over(world, first.store, Seq::empty(), roots);
}

/// A rebuild keeps the store well formed, however it ends.
pub proof fn lemma_rebuilt_keeps_wf(
    world: WorldView,
    store: StoreModel,
    walked: Seq<Seq<char>>,
    roots: Seq<Seq<char>>,
)
    requires
        store.wf(),
    ensures
        rebuilt(world, store, walked, roots).store.wf(),
    decreases roots.len(),
{
    if roots.len() > 0 {
        let root = roots.first();
        if !root_changed(world, store, root) {
            lemma_rebuilt_keeps_wf(world, store, walked, roots.drop_first());
        } else {
            match (world.stat)(root) {
                RootStatView::Unreadable(_) => {},
                RootStatView::Readable { modified_secs } => {
                    let mtime = mtime_of(modified_secs);
                    crate::store::lemma_rescan_keeps_wf(store, root, (world.walk)(root), mtime);
                    lemma_rebuilt_keeps_wf(
                        world,
                        store.rescan(root, (world.walk)(root), mtime),
                        walked.push(root),
                        roots.drop_first(),
                    );
                },
            }
        }
    }
}

/// A rebuild adds to the roots walked before it, and a root that has not
/// changed is not among those it adds.
pub proof fn lemma_settled_root_is_not_walked(
    world: WorldView,
    store: StoreModel,
    walked: Seq<Seq<char>>,
    roots: Seq<Seq<char>>,
    settled: Seq<char>,
)
    requires
        !root_changed(world, store, settled),
    ensures
        walked.len() <= rebuilt(world, store, walked, roots).walked.len(),
        rebuilt(world, store, walked, roots).walked.take(walked.len() as int) == walked,
        forall|k: int|
            walked.len() <= k < rebuilt(world, store, walked, roots).walked.len() ==> rebuilt(
                world,
                store,
                walked,
                roots,
            ).walked[k] != settled,
    decreases roots.len(),
{
    let out = rebuilt(world, store, walked, roots);
    if roots.len() == 0 {
        assert(out.walked.take(walked.len() as int) == walked);
    } else {
        let root = roots.first();
        if !root_changed(world, store, root) {
            lemma_settled_root_is_not_walked(world, store, walked, roots.drop_first(), settled);
        } else {
            let more = walked.push(root);
            match (world.stat)(root) {
                RootStatView::Unreadable(_) => {
                    assert(out.walked.take(walked.len() as int) == walked);
                },
                RootStatView::Readable { modified_secs } => {
                    let scanned = store.rescan(root, (world.walk)(root), mtime_of(modified_secs));
                    lemma_rescan_settles(world, store, root, settled);
                    lemma_settled_root_is_not_walked(
                        world,
                        scanned,
                        more,
                        roots.drop_first(),
                        settled,
                    );
                    assert(out.walked.take(walked.len() as int) == out.walked.take(
                        more.len() as int,
                    ).take(walked.len() as int));
                    assert(more.take(walked.len() as int) == walked);
                    assert(out.walked[walked.len() as int] == out.walked.take(
                        more.len() as int,
                    )[walked.len() as int]);
                },
            }
        }
    }
}

/// No root is walked twice in one rebuild: where the roots walked before are
/// distinct and none of them has changed, the roots walked in the end are
/// distinct.
pub proof fn lemma_roots_are_walked_once(
    world: WorldView,
    store: StoreModel,
    walked: Seq<Seq<char>>,
    roots: Seq<Seq<char>>,
)
    requires
        walked.no_duplicates(),
        forall|k: int| 0 <= k < walked.len() ==> !root_changed(world, store, #[trigger] walked[k]),
    ensures
        rebuilt(world, store, walked, roots).walked.no_duplicates(),
    decreases roots.len(),
{
    if roots.len() > 0 {
        let root = roots.first();
        if !root_changed(world, store, root) {
            lemma_roots_are_walked_once(world, store, walked, roots.drop_first());
        } else {
            let more = walked.push(root);
            assert(more.no_duplicates()) by {
                assert forall|i: int, j: int|
                    0 <= i < more.len() && 0 <= j < more.len() && i != j implies more[i]
                    != more[j] by {
                    if i < walked.len() && j < walked.len() {
                    } else if i < walked.len() {
                        assert(!root_changed(world, store, walked[i]));
                    } else {
                        assert(!root_changed(world, store, walked[j]));
                    }
                }
            }
            match (world.stat)(root) {
                RootStatView::Unreadable(_) => {},
                RootStatView::Readable { modified_secs } => {
                    let scanned = store.rescan(root, (world.walk)(root), mtime_of(modified_secs));
                    assert forall|k: int| 0 <= k < more.len() implies !root_changed(
                        world,
                        scanned,
                        #[trigger] more[k],
                    ) by {
                        lemma_rescan_settles(world, store, root, more[k]);
                        if k < walked.len() {
                            assert(!root_changed(world, store, walked[k]));
                        }
                    }
                    lemma_roots_are_walked_once(world, scanned, more, roots.drop_first());
                },
            }
        }
    }
}

} // verus!
