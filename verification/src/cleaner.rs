//! Reconciliation before a scan: which stored paths no longer resolve, and in
//! which transactions they are deleted.

use vstd::prelude::*;

verus! {

/// Deletions in each transaction.
pub const INDEX_BUILDING_CLEAN_BUFFER_SIZE: usize = 500;

/// A stored path with what was found out about it: whether it still exists on
/// disk, and whether it still maps to a virtual path.
#[derive(Clone, Debug, PartialEq, Eq)]
pub struct StoredPath {
    pub path: String,
    pub exists: bool,
    pub resolves: bool,
}

/// The deletions of one clean-up, per table, one list of paths per transaction.
#[derive(Debug)]
pub struct Deletions {
    pub directories: Vec<Vec<String>>,
    pub songs: Vec<Vec<String>>,
}

/// A path is missing when it is gone from disk or no mount root maps it.
pub open spec fn is_missing(stored: StoredPath) -> bool {
    !stored.exists || !stored.resolves
}

/// The missing paths among the stored ones, in stored order.
pub open spec fn missing_of(stored: Seq<StoredPath>) -> Seq<String>
    decreases stored.len(),
{
    if stored.len() == 0 {
        Seq::empty()
    } else {
        let earlier = missing_of(stored.drop_last());
        if is_missing(stored.last()) {
            earlier.push(stored.last().path)
        } else {
            earlier
        }
    }
}

/// How many transactions delete `total` paths.
pub open spec fn deletion_count(total: int) -> int {
    (total + 499) / 500
}

/// Where transaction `j` ends within `total` paths.
pub open spec fn deletion_end(total: int, j: int) -> int {
    if (j + 1) * 500 <= total {
        (j + 1) * 500
    } else {
        total
    }
}

/// The paths of transaction `j`.
pub open spec fn deletion_of(all: Seq<String>, j: int) -> Seq<String> {
    all.subrange(j * 500, deletion_end(all.len() as int, j))
}

/// Every deleted path belongs to a stored entry that is missing.
pub proof fn lemma_deleted_is_missing(stored: Seq<StoredPath>, k: int)
    requires
        0 <= k < missing_of(stored).len(),
    ensures
        exists|i: int|
            0 <= i < stored.len() && is_missing(#[trigger] stored[i]) && stored[i].path
                == missing_of(stored)[k],
    decreases stored.len(),
{
    let earlier = stored.drop_last();
    if is_missing(stored.last()) && k == missing_of(earlier).len() {
        assert(stored[stored.len() - 1].path == missing_of(stored)[k]);
    } else {
        lemma_deleted_is_missing(earlier, k);
        let i = choose|i: int|
            0 <= i < earlier.len() && is_missing(#[trigger] earlier[i]) && earlier[i].path
                == missing_of(earlier)[k];
        assert(stored[i] == earlier[i]);
    }
}

/// Every stored entry that is missing has its path deleted.
pub proof fn lemma_missing_is_deleted(stored: Seq<StoredPath>, i: int)
    requires
        0 <= i < stored.len(),
        is_missing(stored[i]),
    ensures
        exists|k: int|
            0 <= k < missing_of(stored).len() && #[trigger] missing_of(stored)[k]
                == stored[i].path,
    decreases stored.len(),
{
    let earlier = stored.drop_last();
    if i == stored.len() - 1 {
        assert(missing_of(stored)[missing_of(earlier).len() as int] == stored[i].path);
    } else {
        lemma_missing_is_deleted(earlier, i);
        let k = choose|k: int|
            0 <= k < missing_of(earlier).len() && #[trigger] missing_of(earlier)[k]
                == earlier[i].path;
        assert(missing_of(stored)[k] == stored[i].path);
    }
}

/// What a clean-up keeps is sound: a stored entry whose path is not deleted
/// exists on disk and maps to a virtual path.
pub proof fn lemma_kept_paths_resolve(stored: Seq<StoredPath>, i: int)
    requires
        0 <= i < stored.len(),
        forall|k: int|
            0 <= k < missing_of(stored).len() ==> #[trigger] missing_of(stored)[k]
                != stored[i].path,
    ensures
        stored[i].exists,
        stored[i].resolves,
{
    if is_missing(stored[i]) {
        lemma_missing_is_deleted(stored, i);
    }
}

/// Where every stored path still resolves, nothing is deleted.
pub proof fn lemma_nothing_missing(stored: Seq<StoredPath>)
    requires
        forall|i: int| 0 <= i < stored.len() ==> !is_missing(#[trigger] stored[i]),
    ensures
        missing_of(stored).len() == 0,
        deletion_count(missing_of(stored).len() as int) == 0,
    decreases stored.len(),
{
    if stored.len() > 0 {
        let earlier = stored.drop_last();
        assert forall|i: int| 0 <= i < earlier.len() implies !is_missing(
            #[trigger] earlier[i],
        ) by {
            assert(earlier[i] == stored[i]);
        }
        lemma_nothing_missing(earlier);
        assert(!is_missing(stored[stored.len() - 1]));
    }
}

/// Lists the paths to delete among the stored ones.
pub fn list_missing(stored: &Vec<StoredPath>) -> (missing: Vec<String>)
    ensures
        missing@ == missing_of(stored@),
{
    let mut missing: Vec<String> = Vec::new();
    let mut i: usize = 0;
    while i < stored.len()
        invariant
            i <= stored@.len(),
            missing@ == missing_of(stored@.take(i as int)),
        decreases stored@.len() - i,
    {
        proof {
            assert(stored@.take(i + 1).drop_last() =~= stored@.take(i as int));
        }
        let entry = &stored[i];
        if !entry.exists || !entry.resolves {
            missing.push(entry.path.clone());
        }
        i = i + 1;
    }
    proof {
        assert(stored@.take(i as int) =~= stored@);
    }
    missing
}

/// Cuts the paths to delete into transactions of 500, the last one shorter
/// where the count is no multiple of 500, in the order of the paths.
pub fn deletion_batches(missing: &Vec<String>) -> (batches: Vec<Vec<String>>)
    ensures
        batches@.len() == deletion_count(missing@.len() as int),
        forall|j: int|
            0 <= j < batches@.len() ==> (#[trigger] batches@[j])@ == deletion_of(missing@, j),
{
    let total: usize = missing.len();
    let mut batches: Vec<Vec<String>> = Vec::new();
    let mut start: usize = 0;
    while start < total
        invariant
            total == missing@.len(),
            start <= total,
            start == deletion_end(total as int, batches@.len() - 1),
            batches@.len() > 0 ==> (batches@.len() - 1) * 500 < total,
            forall|j: int|
                0 <= j < batches@.len() ==> (#[trigger] batches@[j])@ == deletion_of(missing@, j),
        decreases total - start,
    {
        let end: usize = if total - start > INDEX_BUILDING_CLEAN_BUFFER_SIZE {
            start + INDEX_BUILDING_CLEAN_BUFFER_SIZE
        } else {
            total
        };
        let mut chunk: Vec<String> = Vec::with_capacity(INDEX_BUILDING_CLEAN_BUFFER_SIZE);
        let mut i: usize = start;
        while i < end
            invariant
                start <= i <= end <= total,
                total == missing@.len(),
                chunk@ == missing@.subrange(start as int, i as int),
            decreases end - i,
        {
            chunk.push(missing[i].clone());
            proof {
                assert(chunk@ =~= missing@.subrange(start as int, i + 1));
            }
            i = i + 1;
        }
        batches.push(chunk);
        start = end;
    }
    batches
}

/// The clean-up stage of one cycle.
pub struct Cleaner {}

impl Cleaner {
    pub fn new() -> (cleaner: Self) {
        Cleaner {  }
    }

    /// Decides what one clean-up deletes: of the stored directories and of the
    /// stored songs, each path that is missing, in transactions of 500.
    pub fn clean(&self, directories: &Vec<StoredPath>, songs: &Vec<StoredPath>) -> (deletions:
        Deletions)
        ensures
            deletions.directories@.len() == deletion_count(
                missing_of(directories@).len() as int,
            ),
            forall|j: int|
                0 <= j < deletions.directories@.len() ==> (
                #[trigger] deletions.directories@[j])@ == deletion_of(
                    missing_of(directories@),
                    j,
                ),
            deletions.songs@.len() == deletion_count(missing_of(songs@).len() as int),
            forall|j: int|
                0 <= j < deletions.songs@.len() ==> (#[trigger] deletions.songs@[j])@
                    == deletion_of(missing_of(songs@), j),
    {
        let missing_directories = list_missing(directories);
        let missing_songs = list_missing(songs);
        Deletions {
            directories: deletion_batches(&missing_directories),
            songs: deletion_batches(&missing_songs),
        }
    }
}

} // verus!
