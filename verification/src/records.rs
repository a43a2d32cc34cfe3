//! The records that one update cycle stages for storage.

use vstd::prelude::*;

verus! {

/// One audio file of the catalog, keyed by its path.
#[derive(Clone, Debug, PartialEq, Eq)]
pub struct Song {
    pub path: String,
    pub parent: String,
    pub track_number: Option<i32>,
    pub disc_number: Option<i32>,
    pub title: Option<String>,
    pub artist: Option<String>,
    pub album_artist: Option<String>,
    pub year: Option<i32>,
    pub album: Option<String>,
    pub artwork: Option<String>,
    pub duration: Option<i32>,
}

/// One directory of the catalog, keyed by its path.
#[derive(Clone, Debug, PartialEq, Eq)]
pub struct Directory {
    pub path: String,
    pub parent: Option<String>,
    pub artist: Option<String>,
    pub year: Option<i32>,
    pub album: Option<String>,
    pub artwork: Option<String>,
    pub date_added: i32,
}

/// A record on its way to storage.
#[derive(Clone, Debug, PartialEq, Eq)]
pub enum Item {
    Directory(Directory),
    Song(Song),
}

/// The songs of a stream of items, in the order in which they arrive.
pub open spec fn songs_of(items: Seq<Item>) -> Seq<Song>
    decreases items.len(),
{
    if items.len() == 0 {
        Seq::empty()
    } else {
        let earlier = songs_of(items.drop_last());
        match items.last() {
            Item::Song(s) => earlier.push(s),
            Item::Directory(_) => earlier,
        }
    }
}

/// The directories of a stream of items, in the order in which they arrive.
pub open spec fn directories_of(items: Seq<Item>) -> Seq<Directory>
    decreases items.len(),
{
    if items.len() == 0 {
        Seq::empty()
    } else {
        let earlier = directories_of(items.drop_last());
        match items.last() {
            Item::Directory(d) => earlier.push(d),
            Item::Song(_) => earlier,
        }
    }
}

} // verus!
