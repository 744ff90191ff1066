//! Collecting the files of a published directory.
use crate::files::{entry_of, file_entry, is_sorted_form, sort_files, FileEntry};
use crate::progress::{
    calculate_scanning_percent, scanning_state, scanning_update, share, PublishProgressState,
    PUBLISH_PROGRESS_SCANNING_MAX_PERCENT,
};
use vstd::prelude::*;

verus! {

/// The files that were collected so far, of those that there are.
#[derive(Debug, PartialEq, Eq)]
pub struct FileCollection<F = Vec<FileEntry>> {
    pub files: F,
    pub total_files: usize,
    /// The percentage that was reported last.
    pub last_percent: Option<u8>,
}

/// A collection, as the contracts speak of it.
pub type CollectionView = FileCollection<Seq<FileEntry<Seq<char>>>>;

impl DeepView for FileCollection {
    type V = CollectionView;

    open spec fn deep_view(&self) -> CollectionView {
        FileCollection {
            files: self.files.deep_view(),
            total_files: self.total_files,
            last_percent: self.last_percent,
        }
    }
}

/// The percentage that a collection has come to.
pub open spec fn collected_percent(collection: CollectionView) -> u8 {
    share(
        collection.files.len() as int,
        collection.total_files as int,
        PUBLISH_PROGRESS_SCANNING_MAX_PERCENT as int,
    ) as u8
}

/// What is to be reported of a collection: a percentage that was not reported before, and the
/// end in any case.
pub open spec fn collection_report(collection: CollectionView) -> Option<PublishProgressState> {
    if collection.last_percent == Some(collected_percent(collection)) && collection.files.len()
        != collection.total_files {
        None
    } else {
        Some(scanning_state(collection.files.len() as usize, collection.total_files))
    }
}

/// A collection after its report.
pub open spec fn reported(collection: CollectionView) -> CollectionView {
    match collection_report(collection) {
        Some(_) => FileCollection {
            files: collection.files,
            total_files: collection.total_files,
            last_percent: Some(collected_percent(collection)),
        },
        None => collection,
    }
}

impl FileCollection {
    /// Nothing is collected of `total_files` files.
    pub fn new(total_files: usize) -> (collection: FileCollection)
        ensures
            collection.deep_view() == (FileCollection {
                files: Seq::<FileEntry<Seq<char>>>::empty(),
                total_files,
                last_percent: None,
            }),
    {
        let files: Vec<FileEntry> = Vec::new();
        assert(files.deep_view() =~= Seq::<FileEntry<Seq<char>>>::empty());
        FileCollection { files, total_files, last_percent: None }
    }

    /// Adds a file, whose path is relative to the published directory.
    pub fn add(&mut self, relative_path: &str, contents: &[u8], size: u64)
        ensures
            final(self).deep_view() == (FileCollection {
                files: old(self).deep_view().files.push(entry_of(relative_path@, contents@, size)),
                total_files: old(self).total_files,
                last_percent: old(self).last_percent,
            }),
    {
        let entry = file_entry(relative_path, contents, size);
        let ghost before = self.files.deep_view();
        self.files.push(entry);
        assert(self.files.deep_view() =~= before.push(entry.deep_view()));
    }

    /// What is to be reported now, if anything is.
    pub fn report(&mut self) -> (update: Option<PublishProgressState>)
        ensures
            update == collection_report(old(self).deep_view()),
            final(self).deep_view() == reported(old(self).deep_view()),
    {
        let processed = self.files.len();
        let percent = calculate_scanning_percent(processed, self.total_files);
        let update = scanning_update(self.last_percent, processed, self.total_files);
        if update.is_some() {
            self.last_percent = Some(percent);
        }
        update
    }

    /// The collected files in the order of their paths.
    pub fn collect_files(self) -> (files: Vec<FileEntry>)
        ensures
            is_sorted_form(files.deep_view(), self.deep_view().files),
    {
        sort_files(self.files)
    }
}

/// A collection that is complete is always reported, and one that was reported is not
/// reported again before it grows by a percent or is complete.
pub proof fn law_reports_are_not_repeated(collection: CollectionView)
    ensures
        collection.files.len() == collection.total_files ==> collection_report(collection) is Some,
        collection.files.len() != collection.total_files ==> collection_report(reported(collection))
            is None,
        reported(reported(collection)) == reported(collection),
{
}

/// A report tells how many files were collected of how many there are. The first one is always
/// made, and so is one whose percentage differs from the last.
pub proof fn law_report_tells_the_counts(collection: CollectionView)
    requires
        collection.files.len() <= usize::MAX,
    ensures
        ({
            let report = collection_report(collection);
            &&& report matches Some(state) ==> {
                &&& state.phase == crate::progress::PublishProgressPhase::Scanning
                &&& state.scanned_files == collection.files.len()
                &&& state.total_files == collection.total_files
            }
            &&& collection.last_percent is None ==> report is Some
            &&& collection.last_percent matches Some(last) ==> (last != collected_percent(collection)
                ==> report is Some)
            &&& report is Some ==> reported(collection).last_percent == Some(
                collected_percent(collection),
            )
            &&& reported(collection).files == collection.files
            &&& reported(collection).total_files == collection.total_files
        }),
{
}

} // verus!
