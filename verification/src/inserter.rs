//! Buffering of records into bounded batches, one batch per storage transaction.

use vstd::prelude::*;
use crate::records::{Directory, Item, Song, directories_of, songs_of};

verus! {

/// Insertions in each transaction.
pub const INDEX_BUILDING_INSERT_BUFFER_SIZE: usize = 1000;

/// How many batches a table receives once `total` records have gone through
/// and the stream has ended.
pub open spec fn batch_count(total: int) -> int {
    (total + 999) / 1000
}

/// Where batch `j` starts within the records of its table.
pub open spec fn batch_start(j: int) -> int {
    j * 1000
}

/// Where batch `j` ends within the `total` records of its table.
pub open spec fn batch_end(total: int, j: int) -> int {
    if (j + 1) * 1000 <= total {
        (j + 1) * 1000
    } else {
        total
    }
}

/// Batch `j` of the records of one table.
pub open spec fn batch_of<T>(all: Seq<T>, j: int) -> Seq<T> {
    all.subrange(batch_start(j), batch_end(all.len() as int, j))
}

/// What holds while a table's records are being batched: `done` are the full
/// batches flushed so far, `pending` is the buffer, `all` is every record that
/// has arrived for the table.
pub open spec fn batched<T>(done: Seq<Vec<T>>, pending: Seq<T>, all: Seq<T>) -> bool {
    &&& done.len() * 1000 + pending.len() == all.len()
    &&& pending == all.subrange(batch_start(done.len() as int), all.len() as int)
    &&& forall|j: int| 0 <= j < done.len() ==> (#[trigger] done[j])@ == batch_of(all, j)
}

proof fn lemma_batched_push<T>(done: Seq<Vec<T>>, pending: Seq<T>, all: Seq<T>, x: T)
    requires
        batched(done, pending, all),
    ensures
        batched(done, pending.push(x), all.push(x)),
{
    let grown = all.push(x);
    assert(pending.push(x) =~= grown.subrange(batch_start(done.len() as int), grown.len() as int));
    assert forall|j: int| 0 <= j < done.len() implies (#[trigger] done[j])@ == batch_of(grown, j) by {
        assert(batch_of(all, j) =~= batch_of(grown, j));
    }
}

proof fn lemma_batched_flush<T>(done: Seq<Vec<T>>, pending: Seq<T>, all: Seq<T>, batch: Vec<T>)
    requires
        batched(done, pending, all),
        batch@ == pending,
        pending.len() == 1000,
    ensures
        batched(done.push(batch), Seq::empty(), all),
{
    let more = done.push(batch);
    assert(Seq::<T>::empty() =~= all.subrange(batch_start(more.len() as int), all.len() as int));
    assert forall|j: int| 0 <= j < more.len() implies (#[trigger] more[j])@ == batch_of(all, j) by {
        if j < done.len() {
            assert(more[j] == done[j]);
        } else {
            assert(more[j] == batch);
            assert(pending =~= batch_of(all, j));
        }
    }
}

proof fn lemma_batched_finish<T>(done: Seq<Vec<T>>, pending: Seq<T>, all: Seq<T>, batch: Vec<T>)
    requires
        batched(done, pending, all),
        batch@ == pending,
        0 < pending.len() < 1000,
    ensures
        done.push(batch).len() == batch_count(all.len() as int),
        forall|j: int| 0 <= j < done.len() + 1 ==> (#[trigger] done.push(batch)[j])@ == batch_of(all, j),
{
    let more = done.push(batch);
    assert forall|j: int| 0 <= j < more.len() implies (#[trigger] more[j])@ == batch_of(all, j) by {
        if j < done.len() {
            assert(more[j] == done[j]);
        } else {
            assert(more[j] == batch);
            assert(pending =~= batch_of(all, j));
        }
    }
}

/// Flushes fall exactly on the capacity boundary: of `full` times 1000 records
/// and `rest` more, with `rest` under 1000, the first `full` batches hold 1000
/// each, and one last batch of `rest` follows if and only if `rest` is not 0.
pub proof fn lemma_flush_boundaries<T>(all: Seq<T>, full: nat, rest: nat)
    requires
        all.len() == full * 1000 + rest,
        rest < 1000,
    ensures
        batch_count(all.len() as int) == full + (if rest > 0 { 1int } else { 0int }),
        forall|j: int| 0 <= j < full ==> (#[trigger] batch_of(all, j)).len() == 1000,
        rest > 0 ==> batch_of(all, full as int).len() == rest,
{
}

/// Batching loses nothing and keeps the order: record `i` of a table is
/// record `i % 1000` of batch `i / 1000`.
pub proof fn lemma_batches_keep_order<T>(all: Seq<T>, i: int)
    requires
        0 <= i < all.len(),
    ensures
        0 <= i / 1000 < batch_count(all.len() as int),
        0 <= i % 1000 < batch_of(all, i / 1000).len(),
        batch_of(all, i / 1000)[i % 1000] == all[i],
{
}

/// A full buffer, handed out to be written in one transaction.
#[derive(Debug)]
pub enum Batch {
    Directories(Vec<Directory>),
    Songs(Vec<Song>),
}

/// Every batch that a stream of items gave rise to, per table and in the
/// order of flushing.
#[derive(Debug)]
pub struct Batches {
    pub directories: Vec<Vec<Directory>>,
    pub songs: Vec<Vec<Song>>,
}

/// The two buffers of the insertion stage.
pub struct Inserter {
    new_directories: Vec<Directory>,
    new_songs: Vec<Song>,
}

impl Inserter {
    /// The directories that wait for the next flush.
    pub closed spec fn directories(&self) -> Seq<Directory> {
        self.new_directories@
    }

    /// The songs that wait for the next flush.
    pub closed spec fn songs(&self) -> Seq<Song> {
        self.new_songs@
    }

    /// Between two items neither buffer is full.
    pub open spec fn wf(&self) -> bool {
        &&& self.directories().len() < 1000
        &&& self.songs().len() < 1000
    }

    pub fn new() -> (inserter: Self)
        ensures
            inserter.wf(),
            inserter.directories().len() == 0,
            inserter.songs().len() == 0,
    {
        Inserter {
            new_directories: Vec::with_capacity(INDEX_BUILDING_INSERT_BUFFER_SIZE),
            new_songs: Vec::with_capacity(INDEX_BUILDING_INSERT_BUFFER_SIZE),
        }
    }

    /// How many directories wait for the next flush.
    pub fn pending_directories(&self) -> (n: usize)
        ensures
            n == self.directories().len(),
    {
        self.new_directories.len()
    }

    /// How many songs wait for the next flush.
    pub fn pending_songs(&self) -> (n: usize)
        ensures
            n == self.songs().len(),
    {
        self.new_songs.len()
    }

    /// Appends one item to its buffer and hands the buffer out as a batch when
    /// that made it full.
    pub fn insert_item(&mut self, insert: Item) -> (full: Option<Batch>)
        requires
            old(self).wf(),
        ensures
            final(self).wf(),
            match insert {
                Item::Directory(d) => {
                    let grown = old(self).directories().push(d);
                    &&& final(self).songs() == old(self).songs()
                    &&& grown.len() < 1000 ==> full is None && final(self).directories() == grown
                    &&& grown.len() >= 1000 ==> final(self).directories().len() == 0 && (
                    full matches Some(Batch::Directories(b)) && b@ == grown)
                },
                Item::Song(s) => {
                    let grown = old(self).songs().push(s);
                    &&& final(self).directories() == old(self).directories()
                    &&& grown.len() < 1000 ==> full is None && final(self).songs() == grown
                    &&& grown.len() >= 1000 ==> final(self).songs().len() == 0 && (
                    full matches Some(Batch::Songs(b)) && b@ == grown)
                },
            },
    {
        match insert {
            Item::Directory(d) => {
                self.new_directories.push(d);
                if self.new_directories.len() >= INDEX_BUILDING_INSERT_BUFFER_SIZE {
                    Some(Batch::Directories(self.flush_directories()))
                } else {
                    None
                }
            },
            Item::Song(s) => {
                self.new_songs.push(s);
                if self.new_songs.len() >= INDEX_BUILDING_INSERT_BUFFER_SIZE {
                    Some(Batch::Songs(self.flush_songs()))
                } else {
                    None
                }
            },
        }
    }

    /// Takes a whole stream of items, then its end: every buffer that fills
    /// is flushed at once, and what is left when the stream ends is flushed
    /// last. Each table's records leave in arrival order, cut every 1000.
    pub fn insert(&mut self, items: Vec<Item>) -> (out: Batches)
        requires
            old(self).wf(),
        ensures
            final(self).directories().len() == 0,
            final(self).songs().len() == 0,
            out.directories@.len() == batch_count(
                (old(self).directories() + directories_of(items@)).len() as int,
            ),
            forall|j: int|
                0 <= j < out.directories@.len() ==> (#[trigger] out.directories@[j])@ == batch_of(
                    old(self).directories() + directories_of(items@),
                    j,
                ),
            out.songs@.len() == batch_count((old(self).songs() + songs_of(items@)).len() as int),
            forall|j: int|
                0 <= j < out.songs@.len() ==> (#[trigger] out.songs@[j])@ == batch_of(
                    old(self).songs() + songs_of(items@),
                    j,
                ),
    {
        let ghost stream = items@;
        let ghost first_directories = self.directories();
        let ghost first_songs = self.songs();
        let mut out = Batches { directories: Vec::new(), songs: Vec::new() };
        proof {
            assert(first_directories + directories_of(stream.take(0)) =~= first_directories);
            assert(first_songs + songs_of(stream.take(0)) =~= first_songs);
            assert(first_directories =~= first_directories.subrange(
                0,
                first_directories.len() as int,
            ));
            assert(first_songs =~= first_songs.subrange(0, first_songs.len() as int));
        }
        for item in arriving: items
            invariant
                self.wf(),
                arriving.seq() == stream,
                batched(
                    out.directories@,
                    self.directories(),
                    first_directories + directories_of(stream.take(arriving.index() as int)),
                ),
                batched(
                    out.songs@,
                    self.songs(),
                    first_songs + songs_of(stream.take(arriving.index() as int)),
                ),
        {
            let ghost seen = stream.take(arriving.index() as int);
            let ghost next = stream.take(arriving.index() + 1);
            let ghost arrived = item;
            proof {
                assert(next.drop_last() =~= seen);
                assert(next.last() == arrived);
                match arrived {
                    Item::Directory(d) => {
                        assert(first_directories + directories_of(next) =~= (first_directories
                            + directories_of(seen)).push(d));
                        lemma_batched_push(
                            out.directories@,
                            self.directories(),
                            first_directories + directories_of(seen),
                            d,
                        );
                    },
                    Item::Song(s) => {
                        assert(first_songs + songs_of(next) =~= (first_songs + songs_of(
                            seen,
                        )).push(s));
                        lemma_batched_push(
                            out.songs@,
                            self.songs(),
                            first_songs + songs_of(seen),
                            s,
                        );
                    },
                }
            }
            match self.insert_item(item) {
                Some(Batch::Directories(batch)) => {
                    proof {
                        assert(self.directories() =~= Seq::<Directory>::empty());
                        lemma_batched_flush(
                            out.directories@,
                            batch@,
                            first_directories + directories_of(next),
                            batch,
                        );
                    }
                    out.directories.push(batch);
                },
                Some(Batch::Songs(batch)) => {
                    proof {
                        assert(self.songs() =~= Seq::<Song>::empty());
                        lemma_batched_flush(
                            out.songs@,
                            batch@,
                            first_songs + songs_of(next),
                            batch,
                        );
                    }
                    out.songs.push(batch);
                },
                None => {},
            }
        }
        proof {
            assert(stream.take(stream.len() as int) =~= stream);
        }
        let (last_directories, last_songs) = self.finish();
        if let Some(batch) = last_directories {
            proof {
                lemma_batched_finish(
                    out.directories@,
                    batch@,
                    first_directories + directories_of(stream),
                    batch,
                );
            }
            out.directories.push(batch);
        }
        if let Some(batch) = last_songs {
            proof {
                lemma_batched_finish(
                    out.songs@,
                    batch@,
                    first_songs + songs_of(stream),
                    batch,
                );
            }
            out.songs.push(batch);
        }
        out
    }

    /// The end of the stream: hands out what is left in each buffer, and
    /// nothing for a buffer that is empty.
    pub fn finish(&mut self) -> (rest: (Option<Vec<Directory>>, Option<Vec<Song>>))
        ensures
            final(self).directories().len() == 0,
            final(self).songs().len() == 0,
            match rest.0 {
                Some(batch) => batch@ == old(self).directories() && batch@.len() > 0,
                None => old(self).directories().len() == 0,
            },
            match rest.1 {
                Some(batch) => batch@ == old(self).songs() && batch@.len() > 0,
                None => old(self).songs().len() == 0,
            },
    {
        let last_directories = if self.new_directories.len() > 0 {
            Some(self.flush_directories())
        } else {
            None
        };
        let last_songs = if self.new_songs.len() > 0 {
            Some(self.flush_songs())
        } else {
            None
        };
        (last_directories, last_songs)
    }

    /// Hands out the buffered directories and leaves the buffer empty,
    /// whatever becomes of the batch.
    pub fn flush_directories(&mut self) -> (batch: Vec<Directory>)
        ensures
            batch@ == old(self).directories(),
            final(self).directories().len() == 0,
            final(self).songs() == old(self).songs(),
    {
        let mut batch: Vec<Directory> = Vec::with_capacity(INDEX_BUILDING_INSERT_BUFFER_SIZE);
        core::mem::swap(&mut self.new_directories, &mut batch);
        batch
    }

    /// Hands out the buffered songs and leaves the buffer empty, whatever
    /// becomes of the batch.
    pub fn flush_songs(&mut self) -> (batch: Vec<Song>)
        ensures
            batch@ == old(self).songs(),
            final(self).songs().len() == 0,
            final(self).directories() == old(self).directories(),
    {
        let mut batch: Vec<Song> = Vec::with_capacity(INDEX_BUILDING_INSERT_BUFFER_SIZE);
        core::mem::swap(&mut self.new_songs, &mut batch);
        batch
    }
}

} // verus!
