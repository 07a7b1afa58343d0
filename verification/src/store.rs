//! A model of the index store, and the laws of writing to it: a record
//! written over one with the same path replaces it, and a rescan repeated
//! changes nothing.

use crate::index::{
    folder_changed, folder_row, images_in, FolderMetadataView, ImageIndexRecordView, WalkItemView,
};
use crate::resolve::{lookup_key_of, resolved, AssetProbeView};
use vstd::prelude::*;

verus! {

/// The index store as the rebuild and the resolution see it: the image
/// records by their path, and the rows of the search roots by theirs.
pub struct StoreModel {
    pub images: Map<Seq<char>, ImageIndexRecordView>,
    pub folders: Map<Seq<char>, FolderMetadataView>,
}

impl StoreModel {
    /// Every record and every row lies under its own path.
    pub open spec fn wf(self) -> bool {
        &&& forall|path: Seq<char>| #[trigger]
            self.images.contains_key(path) ==> self.images[path].full_path == path
        &&& forall|root: Seq<char>| #[trigger]
            self.folders.contains_key(root) ==> self.folders[root].path == root
    }

    /// The store after `record` is written: it stands in place of any record
    /// that had its path.
    pub open spec fn upsert_image(self, record: ImageIndexRecordView) -> StoreModel {
        StoreModel { images: self.images.insert(record.full_path, record), ..self }
    }

    /// The store after `row` is written: it stands in place of any row that
    /// had its path.
    pub open spec fn upsert_folder(self, row: FolderMetadataView) -> StoreModel {
        StoreModel { folders: self.folders.insert(row.path, row), ..self }
    }

    /// The store after `records` are written one after the other.
    pub open spec fn upsert_images(self, records: Seq<ImageIndexRecordView>) -> StoreModel
        decreases records.len(),
    {
        if records.len() == 0 {
            self
        } else {
            self.upsert_images(records.drop_last()).upsert_image(records.last())
        }
    }

    /// The store after a transaction has rescanned `root`: a record for each
    /// image of the walk, and the root's row with the time `mtime`.
    pub open spec fn rescan(self, root: Seq<char>, items: Seq<WalkItemView>, mtime: i64)
        -> StoreModel {
        self.upsert_images(images_in(items)).upsert_folder(folder_row(root, mtime))
    }

    /// The modification time that the store records for `root`.
    pub open spec fn stored_mtime(self, root: Seq<char>) -> Option<i64> {
        if self.folders.contains_key(root) {
            Some(self.folders[root].last_modified)
        } else {
            None
        }
    }

    /// Whether `answer` is a right answer of the store to a lookup of
    /// `asset_name`: the path of some record whose file name is the lookup
    /// key, or nothing where there is no such record.
    pub open spec fn answers(self, asset_name: Seq<char>, answer: Option<Seq<char>>) -> bool {
        match answer {
            Some(path) => self.images.contains_key(path) && self.images[path].file_name
                == lookup_key_of(asset_name),
            None => forall|path: Seq<char>| #[trigger]
                self.images.contains_key(path) ==> self.images[path].file_name != lookup_key_of(
                    asset_name,
                ),
        }
    }
}

/// Whether a record with the path `path` is among `records`.
pub open spec fn writes_path(records: Seq<ImageIndexRecordView>, path: Seq<char>) -> bool {
    exists|i: int| 0 <= i < records.len() && (#[trigger] records[i]).full_path == path
}

/// The last record among `records` that has the path `path`.
pub open spec fn last_written(records: Seq<ImageIndexRecordView>, path: Seq<char>)
    -> ImageIndexRecordView
    decreases records.len(),
{
    if records.len() == 0 {
        arbitrary()
    } else if records.last().full_path == path {
        records.last()
    } else {
        last_written(records.drop_last(), path)
    }
}

/// Writing a record or a row keeps the store well formed.
pub proof fn lemma_upsert_keeps_wf(
    store: StoreModel,
    record: ImageIndexRecordView,
    row: FolderMetadataView,
)
    requires
        store.wf(),
    ensures
        store.upsert_image(record).wf(),
        store.upsert_folder(row).wf(),
{
}

/// Writing a run of records keeps the store well formed.
pub proof fn lemma_upsert_images_keeps_wf(store: StoreModel, records: Seq<ImageIndexRecordView>)
    requires
        store.wf(),
    ensures
        store.upsert_images(records).wf(),
    decreases records.len(),
{
    if records.len() > 0 {
        lemma_upsert_images_keeps_wf(store, records.drop_last());
        lemma_upsert_keeps_wf(
            store.upsert_images(records.drop_last()),
            records.last(),
            folder_row(Seq::empty(), 0),
        );
    }
}

/// Rescanning a root keeps the store well formed: each path has one record
/// at most, and that record is the path's own.
pub proof fn lemma_rescan_keeps_wf(
    store: StoreModel,
    root: Seq<char>,
    items: Seq<WalkItemView>,
    mtime: i64,
)
    requires
        store.wf(),
    ensures
        store.rescan(root, items, mtime).wf(),
{
    lemma_upsert_images_keeps_wf(store, images_in(items));
}

/// A record written over one with the same path replaces it: the store holds
/// one record for the path, the later one, and as many records as if the
/// earlier one had never been written.
pub proof fn lemma_upsert_overwrites(
    store: StoreModel,
    earlier: ImageIndexRecordView,
    later: ImageIndexRecordView,
)
    requires
        earlier.full_path == later.full_path,
    ensures
        store.upsert_image(earlier).upsert_image(later) == store.upsert_image(later),
        store.upsert_image(earlier).upsert_image(later).images[later.full_path] == later,
        store.upsert_image(earlier).upsert_image(later).images.dom() == store.images.dom().insert(
            later.full_path,
        ),
{
    assert(store.upsert_image(earlier).upsert_image(later).images =~= store.upsert_image(
        later,
    ).images);
}

/// Writing the record that the store already holds changes nothing.
pub proof fn lemma_upsert_is_idempotent(store: StoreModel, record: ImageIndexRecordView)
    ensures
        store.upsert_image(record).upsert_image(record) == store.upsert_image(record),
{
    lemma_upsert_overwrites(store, record, record);
}

/// What a run of writes leaves under one path: the last record written for
/// it, or, where none was, what was there before. The rows stay as they were.
pub proof fn lemma_upsert_images(
    store: StoreModel,
    records: Seq<ImageIndexRecordView>,
    path: Seq<char>,
)
    ensures
        store.upsert_images(records).folders == store.folders,
        writes_path(records, path) ==> store.upsert_images(records).images.contains_key(path)
            && store.upsert_images(records).images[path] == last_written(records, path),
        !writes_path(records, path) ==> store.upsert_images(records).images.contains_key(path)
            == store.images.contains_key(path),
        !writes_path(records, path) ==> store.upsert_images(records).images[path]
            == store.images[path],
    decreases records.len(),
{
    if records.len() > 0 {
        let front = records.drop_last();
        lemma_upsert_images(store, front, path);
        if records.last().full_path == path {
            assert(records[records.len() - 1].full_path == path);
        } else if writes_path(front, path) {
            let i = choose|i: int| 0 <= i < front.len() && (#[trigger] front[i]).full_path == path;
            assert(records[i].full_path == path);
        } else if writes_path(records, path) {
            let i = choose|i: int|
                0 <= i < records.len() && (#[trigger] records[i]).full_path == path;
            assert(front[i].full_path == path);
        }
    }
}

/// Writing the same run of records a second time changes nothing.
pub proof fn lemma_upsert_images_is_idempotent(
    store: StoreModel,
    records: Seq<ImageIndexRecordView>,
)
    ensures
        store.upsert_images(records).upsert_images(records) == store.upsert_images(records),
{
    let once = store.upsert_images(records);
    let twice = once.upsert_images(records);
    assert forall|path: Seq<char>|
        #![trigger twice.images.dom().contains(path)]
        #![trigger once.images.dom().contains(path)]
        twice.images.dom().contains(path) == once.images.dom().contains(path) && (
        once.images.dom().contains(path) ==> twice.images[path] == once.images[path]) by {
        lemma_upsert_images(store, records, path);
        lemma_upsert_images(once, records, path);
    }
    assert(twice.images =~= once.images);
    lemma_upsert_images(store, records, Seq::empty());
    lemma_upsert_images(once, records, Seq::empty());
}

/// After a root has been rescanned, the store records the time of the scan
/// for it, and the change detector finds the root unchanged for as long as
/// its modification time is no later than that.
pub proof fn lemma_rescan_settles_root(
    store: StoreModel,
    root: Seq<char>,
    items: Seq<WalkItemView>,
    mtime: i64,
    later_mtime: i64,
)
    ensures
        store.rescan(root, items, mtime).stored_mtime(root) == Some(mtime),
        later_mtime <= mtime ==> !folder_changed(
            Some(later_mtime),
            store.rescan(root, items, mtime).stored_mtime(root),
        ),
        later_mtime > mtime ==> folder_changed(
            Some(later_mtime),
            store.rescan(root, items, mtime).stored_mtime(root),
        ),
{
}

/// Rescanning a root twice, with the same walk and the same time, leaves the
/// store as the first rescan left it.
pub proof fn lemma_rescan_is_idempotent(
    store: StoreModel,
    root: Seq<char>,
    items: Seq<WalkItemView>,
    mtime: i64,
)
    ensures
        store.rescan(root, items, mtime).rescan(root, items, mtime) == store.rescan(
            root,
            items,
            mtime,
        ),
{
    let records = images_in(items);
    let once = store.rescan(root, items, mtime);
    let twice = once.rescan(root, items, mtime);
    assert forall|path: Seq<char>|
        #![trigger twice.images.dom().contains(path)]
        #![trigger once.images.dom().contains(path)]
        twice.images.dom().contains(path) == once.images.dom().contains(path) && (
        once.images.dom().contains(path) ==> twice.images[path] == once.images[path]) by {
        lemma_upsert_images(store, records, path);
        lemma_upsert_images(once, records, path);
    }
    assert(twice.images =~= once.images);
    lemma_upsert_images(store, records, root);
    lemma_upsert_images(once, records, root);
    assert(twice.folders =~= once.folders);
}

/// An asset that is not beside its document resolves through the index:
/// where the store answers the lookup rightly, the asset resolves to the
/// path of a record whose file name is the asset's lookup key, and to
/// nothing exactly when the store holds no such record.
pub proof fn lemma_resolution_follows_the_index(
    store: StoreModel,
    document: Seq<char>,
    asset_name: Seq<char>,
    probe: AssetProbeView,
)
    requires
        !probe.local_exists,
        store.answers(asset_name, probe.indexed),
    ensures
        resolved(document, asset_name, probe) matches Some(path) ==> store.images.contains_key(
            path,
        ) && store.images[path].file_name == lookup_key_of(asset_name),
        resolved(document, asset_name, probe) is None <==> (forall|path: Seq<char>| #[trigger]
            store.images.contains_key(path) ==> store.images[path].file_name != lookup_key_of(
                asset_name,
            )),
{
}

/// After a rescan, every image of the walk can be found by its file name:
/// the store holds a record for its path whose name is the path's file name.
pub proof fn lemma_rescan_indexes_the_walk(
    store: StoreModel,
    root: Seq<char>,
    items: Seq<WalkItemView>,
    mtime: i64,
    i: int,
)
    requires
        0 <= i < images_in(items).len(),
    ensures
        store.rescan(root, items, mtime).images.contains_key(images_in(items)[i].full_path),
        store.rescan(root, items, mtime).images[images_in(items)[i].full_path].full_path
            == images_in(items)[i].full_path,
{
    let records = images_in(items);
    let path = records[i].full_path;
    lemma_upsert_images(store, records, path);
    lemma_last_written(records, path);
}

/// The last record written for a path has that path.
pub proof fn lemma_last_written(records: Seq<ImageIndexRecordView>, path: Seq<char>)
    requires
        writes_path(records, path),
    ensures
        last_written(records, path).full_path == path,
    decreases records.len(),
{
    if records.len() > 0 && records.last().full_path != path {
        let i = choose|i: int| 0 <= i < records.len() && (#[trigger] records[i]).full_path == path;
        assert(records.drop_last()[i].full_path == path);
        lemma_last_written(records.drop_last(), path);
    }
}

} // verus!
