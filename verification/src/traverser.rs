//! The depth-first walk over the mount roots: which directory is listed next,
//! and what a listing gives rise to.

use vstd::prelude::*;
use crate::collector::Discovery;

verus! {

/// What a directory entry was recognised as.
#[derive(Clone, Copy, Debug, PartialEq, Eq, Structural)]
pub enum EntryKind {
    Directory,
    Audio,
    Other,
}

/// One readable entry of a listed directory.
#[derive(Clone, Debug, PartialEq, Eq)]
pub struct Entry {
    pub path: String,
    pub kind: EntryKind,
}

/// The discovery events of a listing: one per directory and per audio file, in
/// listing order, and none for anything else.
pub open spec fn discoveries_of(entries: Seq<Entry>) -> Seq<Discovery>
    decreases entries.len(),
{
    if entries.len() == 0 {
        Seq::empty()
    } else {
        let earlier = discoveries_of(entries.drop_last());
        match entries.last().kind {
            EntryKind::Directory => earlier.push(Discovery::Directory(entries.last().path)),
            EntryKind::Audio => earlier.push(Discovery::Song(entries.last().path)),
            EntryKind::Other => earlier,
        }
    }
}

/// The directories of a listing, in listing order.
pub open spec fn subdirectories_of(entries: Seq<Entry>) -> Seq<String>
    decreases entries.len(),
{
    if entries.len() == 0 {
        Seq::empty()
    } else {
        let earlier = subdirectories_of(entries.drop_last());
        match entries.last().kind {
            EntryKind::Directory => earlier.push(entries.last().path),
            _ => earlier,
        }
    }
}

/// Every directory and every audio file of a listing is discovered.
pub proof fn lemma_listing_is_discovered(entries: Seq<Entry>, i: int)
    requires
        0 <= i < entries.len(),
        entries[i].kind != EntryKind::Other,
    ensures
        exists|k: int|
            0 <= k < discoveries_of(entries).len() && #[trigger] discoveries_of(entries)[k] == (
            match entries[i].kind {
                EntryKind::Directory => Discovery::Directory(entries[i].path),
                _ => Discovery::Song(entries[i].path),
            }),
    decreases entries.len(),
{
    let earlier = entries.drop_last();
    let wanted = match entries[i].kind {
        EntryKind::Directory => Discovery::Directory(entries[i].path),
        _ => Discovery::Song(entries[i].path),
    };
    if i == entries.len() - 1 {
        assert(discoveries_of(entries)[discoveries_of(earlier).len() as int] == wanted);
    } else {
        lemma_listing_is_discovered(earlier, i);
        let k = choose|k: int|
            0 <= k < discoveries_of(earlier).len() && #[trigger] discoveries_of(earlier)[k]
                == wanted;
        assert(discoveries_of(entries)[k] == wanted);
    }
}

/// The directories that are still to be listed, the next one last.
pub struct Traverser {
    work: Vec<String>,
}

impl Traverser {
    /// The directories that are still to be listed, the next one last.
    pub closed spec fn pending(&self) -> Seq<String> {
        self.work@
    }

    /// A walk that starts at the mount roots.
    pub fn new(mount_roots: Vec<String>) -> (traverser: Self)
        ensures
            traverser.pending() == mount_roots@,
    {
        Traverser { work: mount_roots }
    }

    /// Whether every root has been walked to its end: the discovery queue can
    /// be closed.
    pub fn is_done(&self) -> (done: bool)
        ensures
            done == (self.pending().len() == 0),
    {
        self.work.len() == 0
    }

    /// Takes the directory to list next: the one that was found last, so that
    /// the walk goes depth first.
    pub fn next_directory(&mut self) -> (next: Option<String>)
        ensures
            old(self).pending().len() == 0 ==> next is None && final(self).pending() == old(
                self,
            ).pending(),
            old(self).pending().len() > 0 ==> next == Some(old(self).pending().last())
                && final(self).pending() == old(self).pending().drop_last(),
    {
        self.work.pop()
    }

    /// Takes the readable entries of the directory just listed: emits their
    /// discovery events and queues their directories for listing.
    pub fn traverse(&mut self, entries: &Vec<Entry>) -> (found: Vec<Discovery>)
        ensures
            found@ == discoveries_of(entries@),
            final(self).pending() == old(self).pending() + subdirectories_of(entries@),
    {
        let mut found: Vec<Discovery> = Vec::new();
        let mut i: usize = 0;
        proof {
            assert(self.pending() =~= old(self).pending() + subdirectories_of(
                entries@.take(0),
            ));
        }
        while i < entries.len()
            invariant
                i <= entries@.len(),
                found@ == discoveries_of(entries@.take(i as int)),
                self.pending() == old(self).pending() + subdirectories_of(entries@.take(i as int)),
            decreases entries@.len() - i,
        {
            proof {
                assert(entries@.take(i + 1).drop_last() =~= entries@.take(i as int));
            }
            let entry = &entries[i];
            match entry.kind {
                EntryKind::Directory => {
                    found.push(Discovery::Directory(entry.path.clone()));
                    self.work.push(entry.path.clone());
                },
                EntryKind::Audio => {
                    found.push(Discovery::Song(entry.path.clone()));
                },
                EntryKind::Other => {},
            }
            proof {
                assert(self.pending() =~= old(self).pending() + subdirectories_of(
                    entries@.take(i + 1),
                ));
            }
            i = i + 1;
        }
        proof {
            assert(entries@.take(i as int) =~= entries@);
        }
        found
    }
}

} // verus!
