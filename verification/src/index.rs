//! What the asset index holds and how a walk becomes records: which files
//! count as images, the record of a file, the row of a search root, and the
//! test that tells whether a root needs a rescan.

use crate::paths::{extension_of, file_name_of, path_extension, path_file_name};
use crate::text::{lowercase_of, to_lowercase};
use vstd::prelude::*;

verus! {

/// One discovered image file, as the index stores it.
#[derive(Debug, Clone)]
pub struct ImageIndexRecord {
    /// The file's base name. Several records may share one.
    pub file_name: String,
    /// The file's path: the key of the record.
    pub full_path: String,
    /// The file's extension in lower case.
    pub extension: String,
}

pub struct ImageIndexRecordView {
    pub file_name: Seq<char>,
    pub full_path: Seq<char>,
    pub extension: Seq<char>,
}

impl View for ImageIndexRecord {
    type V = ImageIndexRecordView;

    open spec fn view(&self) -> ImageIndexRecordView {
        ImageIndexRecordView {
            file_name: self.file_name@,
            full_path: self.full_path@,
            extension: self.extension@,
        }
    }
}

impl ImageIndexRecord {
    /// A copy of the record.
    pub fn duplicate(&self) -> (copy: ImageIndexRecord)
        ensures
            copy@ == self@,
    {
        ImageIndexRecord {
            file_name: self.file_name.clone(),
            full_path: self.full_path.clone(),
            extension: self.extension.clone(),
        }
    }
}

impl DeepView for ImageIndexRecord {
    type V = ImageIndexRecordView;

    open spec fn deep_view(&self) -> ImageIndexRecordView {
        self@
    }
}

/// The state of one search root when it was last indexed.
#[derive(Debug, Clone)]
pub struct FolderMetadata {
    /// The search root, exactly as it is configured: the key of the row.
    pub path: String,
    /// The root directory's own modification time, in seconds since the epoch.
    pub last_modified: i64,
    /// Reserved. Indexing leaves it unset.
    pub file_count: Option<i64>,
}

pub struct FolderMetadataView {
    pub path: Seq<char>,
    pub last_modified: i64,
    pub file_count: Option<i64>,
}

impl View for FolderMetadata {
    type V = FolderMetadataView;

    open spec fn view(&self) -> FolderMetadataView {
        FolderMetadataView {
            path: self.path@,
            last_modified: self.last_modified,
            file_count: self.file_count,
        }
    }
}

/// One item that walking a search root yields.
#[derive(Debug, Clone)]
pub enum WalkItem {
    /// A directory entry: its path, and whether it is a regular file (links followed).
    Entry { path: String, is_file: bool },
    /// An entry that could not be read.
    Unreadable,
}

pub enum WalkItemView {
    Entry { path: Seq<char>, is_file: bool },
    Unreadable,
}

impl View for WalkItem {
    type V = WalkItemView;

    open spec fn view(&self) -> WalkItemView {
        match self {
            WalkItem::Entry { path, is_file } => WalkItemView::Entry {
                path: path@,
                is_file: *is_file,
            },
            WalkItem::Unreadable => WalkItemView::Unreadable,
        }
    }
}

impl DeepView for WalkItem {
    type V = WalkItemView;

    open spec fn deep_view(&self) -> WalkItemView {
        self@
    }
}

/// The extensions, in lower case, of the files that the index takes.
pub open spec fn supported_extension(ext: Seq<char>) -> bool {
    ||| ext == "jpg"@
    ||| ext == "jpeg"@
    ||| ext == "png"@
    ||| ext == "gif"@
    ||| ext == "webp"@
    ||| ext == "svg"@
    ||| ext == "bmp"@
}

/// A path names an image when it has an extension that, in lower case, is a
/// supported one.
pub open spec fn image_path(path: Seq<char>) -> bool {
    match extension_of(path) {
        Some(ext) => supported_extension(lowercase_of(ext)),
        None => false,
    }
}

/// Whether `ext`, taken as it is, is a supported extension.
pub fn is_supported_extension(ext: &str) -> (supported: bool)
    ensures
        supported == supported_extension(ext@),
{
    *ext == *"jpg" || *ext == *"jpeg" || *ext == *"png" || *ext == *"gif" || *ext == *"webp"
        || *ext == *"svg" || *ext == *"bmp"
}

/// Whether `path` names an image: its extension is compared without regard
/// to case.
pub fn is_image_file(path: &str) -> (image: bool)
    ensures
        image == image_path(path@),
{
    match path_extension(path) {
        Some(ext) => {
            let lower = to_lowercase(ext.as_str());
            is_supported_extension(lower.as_str())
        },
        None => false,
    }
}

/// The record of the file at `path`: its base name (empty where the path has
/// none), the path itself, and its extension in lower case (empty where it
/// has none).
pub open spec fn record_of(path: Seq<char>) -> ImageIndexRecordView {
    ImageIndexRecordView {
        file_name: match file_name_of(path) {
            Some(name) => name,
            None => Seq::empty(),
        },
        full_path: path,
        extension: match extension_of(path) {
            Some(ext) => lowercase_of(ext),
            None => Seq::empty(),
        },
    }
}

/// Builds the record that indexing writes for the file at `path`.
pub fn image_record(path: &str) -> (record: ImageIndexRecord)
    ensures
        record@ == record_of(path@),
{
    let file_name = match path_file_name(path) {
        Some(name) => name,
        None => String::new(),
    };
    let extension = match path_extension(path) {
        Some(ext) => to_lowercase(ext.as_str()),
        None => String::new(),
    };
    ImageIndexRecord { file_name, full_path: path.to_owned(), extension }
}

/// Whether walking keeps an item: a readable entry that is a regular file
/// and names an image.
pub open spec fn indexable(item: WalkItemView) -> bool {
    item matches WalkItemView::Entry { path, is_file } && is_file && image_path(path)
}

/// The records of the images among `items`, in the order of the walk.
/// Unreadable entries, directories and other files leave no trace.
pub open spec fn images_in(items: Seq<WalkItemView>) -> Seq<ImageIndexRecordView>
    decreases items.len(),
{
    if items.len() == 0 {
        Seq::empty()
    } else {
        let before = images_in(items.drop_last());
        match items.last() {
            WalkItemView::Entry { path, is_file } => if is_file && image_path(path) {
                before.push(record_of(path))
            } else {
                before
            },
            WalkItemView::Unreadable => before,
        }
    }
}

/// Picks the images out of what a walk yielded and builds their records.
pub fn index_directory_images(items: &Vec<WalkItem>) -> (records: Vec<ImageIndexRecord>)
    ensures
        records.deep_view() == images_in(items.deep_view()),
{
    let mut records: Vec<ImageIndexRecord> = Vec::new();
    let mut i: usize = 0;
    while i < items.len()
        invariant
            i <= items.len(),
            records.deep_view() == images_in(items.deep_view().take(i as int)),
        decreases items.len() - i,
    {
        let ghost seen = items.deep_view().take(i as int);
        let ghost next = items.deep_view().take(i + 1);
        assert(next.drop_last() == seen);
        assert(next.last() == items@[i as int]@);
        let ghost before = records.deep_view();
        match &items[i] {
            WalkItem::Entry { path, is_file } => {
                if *is_file && is_image_file(path.as_str()) {
                    let record = image_record(path.as_str());
                    records.push(record);
                    assert(records.deep_view() == before.push(record_of(path@)));
                }
            },
            WalkItem::Unreadable => {},
        }
        i = i + 1;
    }
    assert(items.deep_view().take(i as int) == items.deep_view());
    records
}

/// A modification time in whole seconds since the epoch, as the index stores
/// it: a time that is not known counts as the epoch itself, and a count of
/// seconds beyond `i64::MAX` wraps round.
pub open spec fn mtime_of(modified_secs: Option<u64>) -> i64 {
    match modified_secs {
        Some(secs) => if secs <= i64::MAX {
            secs as i64
        } else {
            (secs - 0x1_0000_0000_0000_0000) as i64
        },
        None => 0,
    }
}

/// Converts a modification time to the form that the index stores.
pub fn mtime_seconds(modified_secs: Option<u64>) -> (mtime: i64)
    ensures
        mtime == mtime_of(modified_secs),
{
    match modified_secs {
        Some(secs) => {
            if secs <= 0x7fff_ffff_ffff_ffff {
                secs as i64
            } else {
                let low: u64 = secs - 0x8000_0000_0000_0000;
                (low as i64) + i64::MIN
            }
        },
        None => 0,
    }
}

/// A search root needs a rescan when its modification time cannot be read,
/// when no row records it yet, or when the time is later than the recorded one.
pub open spec fn folder_changed(current_mtime: Option<i64>, stored_mtime: Option<i64>) -> bool {
    match (current_mtime, stored_mtime) {
        (Some(current), Some(stored)) => current > stored,
        _ => true,
    }
}

/// Decides whether a search root needs a rescan, from the modification time
/// of the root directory itself (`None` where its metadata cannot be read)
/// and the time that the index recorded for it (`None` where it holds no row
/// for the root).
pub fn has_folder_changed(current_mtime: Option<i64>, stored_mtime: Option<i64>) -> (changed: bool)
    ensures
        changed == folder_changed(current_mtime, stored_mtime),
{
    match current_mtime {
        None => true,
        Some(current) => match stored_mtime {
            Some(stored) => current > stored,
            None => true,
        },
    }
}

/// The row that a finished scan of `root` writes.
pub open spec fn folder_row(root: Seq<char>, mtime: i64) -> FolderMetadataView {
    FolderMetadataView { path: root, last_modified: mtime, file_count: None }
}

/// Builds the row that a finished scan of `root` writes.
pub fn folder_metadata(root: &str, mtime: i64) -> (row: FolderMetadata)
    ensures
        row@ == folder_row(root@, mtime),
{
    FolderMetadata { path: root.to_owned(), last_modified: mtime, file_count: None }
}

} // verus!
