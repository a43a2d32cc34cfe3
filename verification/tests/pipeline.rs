use polaris::cleaner::{deletion_batches, list_missing, Cleaner, StoredPath};
use polaris::collector::{
    collect_directory, collect_song, find_artwork, first_readable_tags, Discovery, Sibling,
    SongTags,
};
use polaris::inserter::{Batch, Inserter};
use polaris::records::{Directory, Item, Song};
use polaris::traverser::{Entry, EntryKind, Traverser};

fn song(i: usize) -> Song {
    Song {
        path: format!("root/album/{}.mp3", i),
        parent: "root/album".to_owned(),
        track_number: Some(i as i32),
        disc_number: None,
        title: None,
        artist: None,
        album_artist: None,
        year: None,
        album: None,
        artwork: None,
        duration: None,
    }
}

fn directory(i: usize) -> Directory {
    Directory {
        path: format!("root/{}", i),
        parent: Some("root".to_owned()),
        artist: None,
        year: None,
        album: None,
        artwork: None,
        date_added: 0,
    }
}

fn stored(path: &str, exists: bool, resolves: bool) -> StoredPath {
    StoredPath { path: path.to_owned(), exists, resolves }
}

#[test]
fn buffer_below_capacity_is_not_flushed() {
    let mut inserter = Inserter::new();
    for i in 0..999 {
        assert!(inserter.insert_item(Item::Song(song(i))).is_none());
    }
    assert_eq!(inserter.pending_songs(), 999);
    assert_eq!(inserter.pending_directories(), 0);
}

#[test]
fn buffer_flushes_on_the_thousandth_item() {
    let mut inserter = Inserter::new();
    for i in 0..999 {
        assert!(inserter.insert_item(Item::Song(song(i))).is_none());
    }
    match inserter.insert_item(Item::Song(song(999))) {
        Some(Batch::Songs(batch)) => {
            assert_eq!(batch.len(), 1000);
            assert_eq!(batch[0], song(0));
            assert_eq!(batch[999], song(999));
        }
        _ => panic!("the full buffer was not handed out"),
    }
    assert_eq!(inserter.pending_songs(), 0);
    assert!(inserter.insert_item(Item::Song(song(1000))).is_none());
    assert_eq!(inserter.pending_songs(), 1);
}

#[test]
fn directories_and_songs_fill_separately() {
    let mut inserter = Inserter::new();
    for i in 0..999 {
        assert!(inserter.insert_item(Item::Song(song(i))).is_none());
        assert!(inserter.insert_item(Item::Directory(directory(i))).is_none());
    }
    match inserter.insert_item(Item::Directory(directory(999))) {
        Some(Batch::Directories(batch)) => assert_eq!(batch.len(), 1000),
        _ => panic!("the full buffer was not handed out"),
    }
    assert_eq!(inserter.pending_songs(), 999);
    assert_eq!(inserter.pending_directories(), 0);
}

#[test]
fn stream_of_full_batches_and_a_rest() {
    let mut inserter = Inserter::new();
    let items: Vec<Item> = (0..2007).map(|i| Item::Song(song(i))).collect();
    let out = inserter.insert(items);
    assert_eq!(out.directories.len(), 0);
    assert_eq!(out.songs.len(), 3);
    assert_eq!(out.songs[0].len(), 1000);
    assert_eq!(out.songs[1].len(), 1000);
    assert_eq!(out.songs[2].len(), 7);
    assert_eq!(out.songs[1][0], song(1000));
    assert_eq!(out.songs[2][6], song(2006));
    assert_eq!(inserter.pending_songs(), 0);
}

#[test]
fn stream_of_exact_multiple_has_no_short_batch() {
    let mut inserter = Inserter::new();
    let items: Vec<Item> = (0..3000).map(|i| Item::Song(song(i))).collect();
    let out = inserter.insert(items);
    assert_eq!(out.songs.len(), 3);
    assert!(out.songs.iter().all(|batch| batch.len() == 1000));
}

#[test]
fn empty_stream_flushes_nothing() {
    let mut inserter = Inserter::new();
    let out = inserter.insert(Vec::new());
    assert!(out.directories.is_empty());
    assert!(out.songs.is_empty());
}

#[test]
fn mixed_stream_keeps_each_table_in_order() {
    let mut inserter = Inserter::new();
    let mut items = Vec::new();
    for i in 0..1500 {
        items.push(Item::Directory(directory(i)));
        items.push(Item::Song(song(i)));
        items.push(Item::Song(song(i + 10000)));
    }
    let out = inserter.insert(items);
    assert_eq!(out.directories.len(), 2);
    assert_eq!(out.directories[0].len(), 1000);
    assert_eq!(out.directories[1].len(), 500);
    assert_eq!(out.directories[1][0], directory(1000));
    assert_eq!(out.songs.len(), 3);
    assert_eq!(out.songs[0][0], song(0));
    assert_eq!(out.songs[0][1], song(10000));
    assert_eq!(out.songs[2].len(), 1000);
    assert_eq!(out.songs[2][999], song(11499));
}

#[test]
fn flush_hands_out_and_clears() {
    let mut inserter = Inserter::new();
    assert!(inserter.insert_item(Item::Song(song(1))).is_none());
    assert!(inserter.insert_item(Item::Directory(directory(1))).is_none());
    assert_eq!(inserter.flush_songs(), vec![song(1)]);
    assert_eq!(inserter.pending_songs(), 0);
    assert_eq!(inserter.pending_directories(), 1);
    assert_eq!(inserter.flush_directories(), vec![directory(1)]);
    assert_eq!(inserter.pending_directories(), 0);
}

#[test]
fn missing_is_gone_from_disk_or_unmapped() {
    let paths = vec![
        stored("/music/A", true, true),
        stored("/music/B", false, true),
        stored("/old/C", true, false),
        stored("/old/D", false, false),
    ];
    assert_eq!(
        list_missing(&paths),
        vec!["/music/B".to_owned(), "/old/C".to_owned(), "/old/D".to_owned()]
    );
}

#[test]
fn deletions_are_cut_every_five_hundred() {
    let missing: Vec<String> = (0..1001).map(|i| format!("/gone/{}", i)).collect();
    let batches = deletion_batches(&missing);
    assert_eq!(batches.len(), 3);
    assert_eq!(batches[0].len(), 500);
    assert_eq!(batches[1].len(), 500);
    assert_eq!(batches[2], vec!["/gone/1000".to_owned()]);
    assert_eq!(batches[1][0], "/gone/500");
    let exact: Vec<String> = (0..500).map(|i| format!("/gone/{}", i)).collect();
    assert_eq!(deletion_batches(&exact).len(), 1);
    assert!(deletion_batches(&Vec::new()).is_empty());
}

#[test]
fn deleted_song_is_cleaned_and_not_recreated() {
    let directories = vec![stored("/music/A", true, true)];
    let songs = vec![
        stored("/music/A/song1.mp3", true, true),
        stored("/music/A/song2.mp3", false, true),
    ];
    let deletions = Cleaner::new().clean(&directories, &songs);
    assert!(deletions.directories.is_empty());
    assert_eq!(deletions.songs, vec![vec!["/music/A/song2.mp3".to_owned()]]);

    let mut traverser = Traverser::new(vec!["/music/A".to_owned()]);
    assert_eq!(traverser.next_directory(), Some("/music/A".to_owned()));
    let found = traverser.traverse(&vec![Entry {
        path: "/music/A/song1.mp3".to_owned(),
        kind: EntryKind::Audio,
    }]);
    assert_eq!(found, vec![Discovery::Song("/music/A/song1.mp3".to_owned())]);
    assert!(traverser.is_done());
}

#[test]
fn unchanged_collection_deletes_nothing() {
    let directories = vec![stored("/music/A", true, true), stored("/music/B", true, true)];
    let songs = vec![stored("/music/A/song1.mp3", true, true)];
    let deletions = Cleaner::new().clean(&directories, &songs);
    assert!(deletions.directories.is_empty());
    assert!(deletions.songs.is_empty());
}

#[test]
fn walk_goes_depth_first_and_skips_other_files() {
    let mut traverser = Traverser::new(vec!["/a".to_owned(), "/music".to_owned()]);
    assert!(!traverser.is_done());
    assert_eq!(traverser.next_directory(), Some("/music".to_owned()));
    let found = traverser.traverse(&vec![
        Entry { path: "/music/A".to_owned(), kind: EntryKind::Directory },
        Entry { path: "/music/notes.txt".to_owned(), kind: EntryKind::Other },
        Entry { path: "/music/B".to_owned(), kind: EntryKind::Directory },
        Entry { path: "/music/intro.mp3".to_owned(), kind: EntryKind::Audio },
    ]);
    assert_eq!(
        found,
        vec![
            Discovery::Directory("/music/A".to_owned()),
            Discovery::Directory("/music/B".to_owned()),
            Discovery::Song("/music/intro.mp3".to_owned()),
        ]
    );
    assert_eq!(traverser.next_directory(), Some("/music/B".to_owned()));
    assert_eq!(traverser.next_directory(), Some("/music/A".to_owned()));
    assert_eq!(traverser.next_directory(), Some("/a".to_owned()));
    assert_eq!(traverser.next_directory(), None);
    assert!(traverser.is_done());
}

#[test]
fn one_cycle_over_a_small_collection() {
    let mut traverser = Traverser::new(vec!["/music".to_owned()]);
    let mut inserter = Inserter::new();
    let mut discovered = Vec::new();
    assert_eq!(traverser.next_directory(), Some("/music".to_owned()));
    discovered.extend(traverser.traverse(&vec![Entry {
        path: "/music/A".to_owned(),
        kind: EntryKind::Directory,
    }]));
    assert_eq!(traverser.next_directory(), Some("/music/A".to_owned()));
    discovered.extend(traverser.traverse(&vec![
        Entry { path: "/music/A/song1.mp3".to_owned(), kind: EntryKind::Audio },
        Entry { path: "/music/A/cover.jpg".to_owned(), kind: EntryKind::Other },
    ]));
    assert!(traverser.is_done());

    let tags = SongTags {
        track_number: None,
        disc_number: None,
        title: Some("X".to_owned()),
        artist: Some("Y".to_owned()),
        album_artist: None,
        year: None,
        album: None,
        duration: None,
        has_artwork: false,
    };
    let cover = Some("A/cover.jpg".to_owned());
    let mut items = Vec::new();
    for discovery in discovered {
        match discovery {
            Discovery::Directory(_) => {
                items.push(collect_directory("A".to_owned(), None, cover.clone(), None, 7))
            }
            Discovery::Song(_) => items.push(collect_song(
                "A/song1.mp3".to_owned(),
                "A".to_owned(),
                Some(tags.clone()),
                cover.clone(),
            )),
        }
    }
    let out = inserter.insert(items);
    assert_eq!(out.directories.len(), 1);
    assert_eq!(out.songs.len(), 1);
    let stored_directory = &out.directories[0][0];
    assert_eq!(stored_directory.path, "A");
    assert_eq!(stored_directory.artwork, Some("A/cover.jpg".to_owned()));
    assert_eq!(stored_directory.date_added, 7);
    let stored_song = &out.songs[0][0];
    assert_eq!(stored_song.path, "A/song1.mp3");
    assert_eq!(stored_song.parent, "A");
    assert_eq!(stored_song.title, Some("X".to_owned()));
    assert_eq!(stored_song.artist, Some("Y".to_owned()));
    assert_eq!(stored_song.artwork, Some("A/cover.jpg".to_owned()));
}

#[test]
fn unreadable_tags_keep_path_and_parent_only() {
    let item = collect_song(
        "A/broken.mp3".to_owned(),
        "A".to_owned(),
        None,
        Some("A/cover.jpg".to_owned()),
    );
    let expected = Song {
        path: "A/broken.mp3".to_owned(),
        parent: "A".to_owned(),
        track_number: None,
        disc_number: None,
        title: None,
        artist: None,
        album_artist: None,
        year: None,
        album: None,
        artwork: None,
        duration: None,
    };
    assert_eq!(item, Item::Song(expected));
}

#[test]
fn embedded_artwork_wins_over_the_directory() {
    let tags = SongTags {
        track_number: Some(3),
        disc_number: Some(1),
        title: Some("T".to_owned()),
        artist: Some("Ar".to_owned()),
        album_artist: Some("AA".to_owned()),
        year: Some(1999),
        album: Some("Al".to_owned()),
        duration: Some(215),
        has_artwork: true,
    };
    let item = collect_song(
        "A/s.mp3".to_owned(),
        "A".to_owned(),
        Some(tags),
        Some("A/cover.jpg".to_owned()),
    );
    match item {
        Item::Song(song) => {
            assert_eq!(song.artwork, Some("A/s.mp3".to_owned()));
            assert_eq!(song.track_number, Some(3));
            assert_eq!(song.disc_number, Some(1));
            assert_eq!(song.album_artist, Some("AA".to_owned()));
            assert_eq!(song.year, Some(1999));
            assert_eq!(song.album, Some("Al".to_owned()));
            assert_eq!(song.duration, Some(215));
        }
        Item::Directory(_) => panic!("a song was collected as a directory"),
    }
}

#[test]
fn directory_takes_its_fields_from_the_first_song() {
    let tags = SongTags {
        track_number: None,
        disc_number: None,
        title: Some("T".to_owned()),
        artist: Some("Ar".to_owned()),
        album_artist: None,
        year: Some(2001),
        album: Some("Al".to_owned()),
        duration: None,
        has_artwork: false,
    };
    let item = collect_directory("A/B".to_owned(), Some("A".to_owned()), None, Some(tags), 42);
    let expected = Directory {
        path: "A/B".to_owned(),
        parent: Some("A".to_owned()),
        artist: Some("Ar".to_owned()),
        year: Some(2001),
        album: Some("Al".to_owned()),
        artwork: None,
        date_added: 42,
    };
    assert_eq!(item, Item::Directory(expected));
}

fn sibling(path: &str, is_artwork: bool) -> Sibling {
    Sibling { path: path.to_owned(), is_artwork }
}

#[test]
fn artwork_is_the_first_file_that_fits() {
    let files = vec![
        sibling("/music/A/song1.mp3", false),
        sibling("/music/A/cover.jpg", true),
        sibling("/music/A/cover.png", true),
    ];
    assert_eq!(find_artwork(&files), Some("/music/A/cover.jpg".to_owned()));
    assert_eq!(find_artwork(&vec![sibling("/music/A/song1.mp3", false)]), None);
    assert_eq!(find_artwork(&Vec::new()), None);
}

#[test]
fn directory_fields_come_from_the_first_readable_song() {
    let tags = |title: &str| SongTags {
        track_number: None,
        disc_number: None,
        title: Some(title.to_owned()),
        artist: None,
        album_artist: None,
        year: None,
        album: None,
        duration: None,
        has_artwork: false,
    };
    assert_eq!(
        first_readable_tags(vec![None, Some(tags("second")), Some(tags("third"))]),
        Some(tags("second"))
    );
    assert_eq!(first_readable_tags(vec![None, None]), None);
    assert_eq!(first_readable_tags(Vec::new()), None);
}

#[test]
fn end_of_stream_flushes_only_what_is_left() {
    let mut inserter = Inserter::new();
    let (no_directories, no_songs) = inserter.finish();
    assert!(no_directories.is_none());
    assert!(no_songs.is_none());
    for i in 0..1003 {
        let _ = inserter.insert_item(Item::Song(song(i)));
    }
    let (last_directories, last_songs) = inserter.finish();
    assert!(last_directories.is_none());
    assert_eq!(last_songs, Some(vec![song(1000), song(1001), song(1002)]));
    assert_eq!(inserter.pending_songs(), 0);
}
