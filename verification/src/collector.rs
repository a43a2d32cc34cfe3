//! From a discovered path and what could be read of it to the record that is
//! stored.

use vstd::prelude::*;
use crate::records::{Directory, Item, Song};

verus! {

/// A path found by the traversal, before anything was read of it.
#[derive(Clone, Debug, PartialEq, Eq)]
pub enum Discovery {
    Directory(String),
    Song(String),
}

/// What the tags of an audio file say.
#[derive(Clone, Debug, PartialEq, Eq)]
pub struct SongTags {
    pub track_number: Option<i32>,
    pub disc_number: Option<i32>,
    pub title: Option<String>,
    pub artist: Option<String>,
    pub album_artist: Option<String>,
    pub year: Option<i32>,
    pub album: Option<String>,
    pub duration: Option<i32>,
    pub has_artwork: bool,
}

/// A file beside a song, or in a directory, with whether its name fits the
/// configured artwork pattern.
#[derive(Clone, Debug, PartialEq, Eq)]
pub struct Sibling {
    pub path: String,
    pub is_artwork: bool,
}

/// The artwork of a directory: the first of its files, in listing order,
/// whose name fits the pattern.
pub open spec fn artwork_of(siblings: Seq<Sibling>) -> Option<String>
    decreases siblings.len(),
{
    if siblings.len() == 0 {
        None
    } else {
        match artwork_of(siblings.drop_last()) {
            Some(path) => Some(path),
            None => if siblings.last().is_artwork {
                Some(siblings.last().path)
            } else {
                None
            },
        }
    }
}

/// The tags that a directory takes its fields from: those of the first of its
/// songs, in listing order, whose tags could be read.
pub open spec fn first_readable(tags: Seq<Option<SongTags>>) -> Option<SongTags>
    decreases tags.len(),
{
    if tags.len() == 0 {
        None
    } else {
        match first_readable(tags.drop_last()) {
            Some(t) => Some(t),
            None => tags.last(),
        }
    }
}

/// A directory has artwork exactly when one of its files fits the pattern,
/// and then it is the first such file.
pub proof fn lemma_artwork_is_first_match(siblings: Seq<Sibling>)
    ensures
        artwork_of(siblings) is None <==> forall|i: int|
            0 <= i < siblings.len() ==> !(#[trigger] siblings[i]).is_artwork,
        artwork_of(siblings) matches Some(path) ==> exists|i: int|
            0 <= i < siblings.len() && (#[trigger] siblings[i]).is_artwork && siblings[i].path
                == path && forall|j: int| 0 <= j < i ==> !(#[trigger] siblings[j]).is_artwork,
    decreases siblings.len(),
{
    if siblings.len() > 0 {
        let earlier = siblings.drop_last();
        lemma_artwork_is_first_match(earlier);
        assert forall|i: int| 0 <= i < earlier.len() implies earlier[i] == siblings[i] by {}
        match artwork_of(earlier) {
            Some(path) => {
                let i = choose|i: int|
                    0 <= i < earlier.len() && (#[trigger] earlier[i]).is_artwork
                        && earlier[i].path == path && forall|j: int|
                        0 <= j < i ==> !(#[trigger] earlier[j]).is_artwork;
                assert(siblings[i].is_artwork && siblings[i].path == path);
                assert forall|j: int| 0 <= j < i implies !(#[trigger] siblings[j]).is_artwork by {
                    assert(earlier[j] == siblings[j]);
                }
            },
            None => {
                let last = siblings.len() - 1;
                if siblings[last].is_artwork {
                    assert forall|j: int| 0 <= j < last implies !(
                    #[trigger] siblings[j]).is_artwork by {
                        assert(earlier[j] == siblings[j]);
                    }
                } else {
                    assert forall|i: int| 0 <= i < siblings.len() implies !(
                    #[trigger] siblings[i]).is_artwork by {
                        if i < last {
                            assert(earlier[i] == siblings[i]);
                        }
                    }
                }
            },
        }
    }
}

/// Finds the artwork of a directory among its files.
pub fn find_artwork(siblings: &Vec<Sibling>) -> (artwork: Option<String>)
    ensures
        artwork == artwork_of(siblings@),
{
    let mut artwork: Option<String> = None;
    let mut i: usize = 0;
    while i < siblings.len()
        invariant
            i <= siblings@.len(),
            artwork == artwork_of(siblings@.take(i as int)),
        decreases siblings@.len() - i,
    {
        proof {
            assert(siblings@.take(i + 1).drop_last() =~= siblings@.take(i as int));
        }
        if artwork.is_none() && siblings[i].is_artwork {
            artwork = Some(siblings[i].path.clone());
        }
        i = i + 1;
    }
    proof {
        assert(siblings@.take(i as int) =~= siblings@);
    }
    artwork
}

/// Picks the tags that a directory takes its fields from.
pub fn first_readable_tags(tags: Vec<Option<SongTags>>) -> (first: Option<SongTags>)
    ensures
        first == first_readable(tags@),
{
    let ghost all = tags@;
    let mut first: Option<SongTags> = None;
    for read in reading: tags
        invariant
            reading.seq() == all,
            first == first_readable(all.take(reading.index() as int)),
    {
        proof {
            assert(all.take(reading.index() + 1).drop_last() =~= all.take(
                reading.index() as int,
            ));
        }
        if first.is_none() {
            first = read;
        }
    }
    proof {
        assert(all.take(all.len() as int) =~= all);
    }
    first
}

/// The record of a song whose tags could not be read: path and parent, and
/// nothing else.
pub open spec fn untagged(path: String, parent: String) -> Song {
    Song {
        path,
        parent,
        track_number: None,
        disc_number: None,
        title: None,
        artist: None,
        album_artist: None,
        year: None,
        album: None,
        artwork: None,
        duration: None,
    }
}

/// The record of a song with its tags. Embedded artwork makes the file its own
/// artwork; without it the directory's artwork stands in.
pub open spec fn tagged(
    path: String,
    parent: String,
    tags: SongTags,
    directory_artwork: Option<String>,
) -> Song {
    Song {
        path,
        parent,
        track_number: tags.track_number,
        disc_number: tags.disc_number,
        title: tags.title,
        artist: tags.artist,
        album_artist: tags.album_artist,
        year: tags.year,
        album: tags.album,
        artwork: if tags.has_artwork {
            Some(path)
        } else {
            directory_artwork
        },
        duration: tags.duration,
    }
}

/// The record of a directory: its fields are those of the first song in it
/// whose tags could be read, and empty where there is none.
pub open spec fn directory_record(
    path: String,
    parent: Option<String>,
    artwork: Option<String>,
    first_song: Option<SongTags>,
    date_added: i32,
) -> Directory {
    match first_song {
        Some(tags) => Directory {
            path,
            parent,
            artist: tags.artist,
            year: tags.year,
            album: tags.album,
            artwork,
            date_added,
        },
        None => Directory {
            path,
            parent,
            artist: None,
            year: None,
            album: None,
            artwork,
            date_added,
        },
    }
}

/// A file is never dropped: with tags or without, the record keeps the path
/// and the parent that it was discovered with.
pub proof fn lemma_song_keeps_linkage(
    path: String,
    parent: String,
    tags: Option<SongTags>,
    directory_artwork: Option<String>,
)
    ensures
        song_record(path, parent, tags, directory_artwork).path == path,
        song_record(path, parent, tags, directory_artwork).parent == parent,
{
}

/// The record of a discovered song, given what reading its tags came to.
pub open spec fn song_record(
    path: String,
    parent: String,
    tags: Option<SongTags>,
    directory_artwork: Option<String>,
) -> Song {
    match tags {
        Some(t) => tagged(path, parent, t, directory_artwork),
        None => untagged(path, parent),
    }
}

/// Builds the insertion item of a discovered song.
pub fn collect_song(
    path: String,
    parent: String,
    tags: Option<SongTags>,
    directory_artwork: Option<String>,
) -> (item: Item)
    ensures
        item == Item::Song(song_record(path, parent, tags, directory_artwork)),
{
    match tags {
        Some(t) => {
            let artwork = if t.has_artwork {
                Some(path.clone())
            } else {
                directory_artwork
            };
            Item::Song(
                Song {
                    path,
                    parent,
                    track_number: t.track_number,
                    disc_number: t.disc_number,
                    title: t.title,
                    artist: t.artist,
                    album_artist: t.album_artist,
                    year: t.year,
                    album: t.album,
                    artwork,
                    duration: t.duration,
                },
            )
        },
        None => Item::Song(
            Song {
                path,
                parent,
                track_number: None,
                disc_number: None,
                title: None,
                artist: None,
                album_artist: None,
                year: None,
                album: None,
                artwork: None,
                duration: None,
            },
        ),
    }
}

/// Builds the insertion item of a discovered directory.
pub fn collect_directory(
    path: String,
    parent: Option<String>,
    artwork: Option<String>,
    first_song: Option<SongTags>,
    date_added: i32,
) -> (item: Item)
    ensures
        item == Item::Directory(directory_record(path, parent, artwork, first_song, date_added)),
{
    match first_song {
        Some(tags) => Item::Directory(
            Directory {
                path,
                parent,
                artist: tags.artist,
                year: tags.year,
                album: tags.album,
                artwork,
                date_added,
            },
        ),
        None => Item::Directory(
            Directory { path, parent, artist: None, year: None, album: None, artwork, date_added },
        ),
    }
}

} // verus!
