use rimusic::music_file::{FileReport, MusicFile, OpenOutcome, TagRead};
use rimusic::paths::text_contains;
use rimusic::state::DirListing;
use rimusic::store::{is_music_file, MusicStore};
use rimusic::tag_map::TagMap;

fn song(p: &str) -> MusicFile {
    MusicFile::from_path(p.to_string())
}

fn report(path: &str, open: OpenOutcome, tags: TagRead, decoded: Option<u128>) -> FileReport {
    FileReport { path: path.to_string(), open, tags, decoded_duration: decoded }
}

fn tagged(duration_ns: u128, artist: Option<&str>) -> TagRead {
    TagRead::Read { duration_ns, artist: artist.map(|a| a.to_string()) }
}

#[test]
fn all_data_from_tags() {
    let mut f = song("/m/a.mp3");
    f.get_music_all_data(&report("/m/a.mp3", OpenOutcome::Ready, tagged(1234, Some("Queen")), None));
    assert_eq!(f.duration, Some(1234));
    assert_eq!(f.artist.as_deref(), Some("Queen"));
}

#[test]
fn all_data_without_artist_tag_uses_various_artists() {
    let mut f = song("/m/a.mp3");
    f.get_music_all_data(&report("/m/a.mp3", OpenOutcome::Ready, tagged(10, None), None));
    assert_eq!(f.duration, Some(10));
    assert_eq!(f.artist.as_deref(), Some("群星"));
}

#[test]
fn all_data_unreadable_tags_leave_song_unchanged() {
    let mut f = song("/m/a.mp3");
    f.get_music_all_data(&report("/m/a.mp3", OpenOutcome::Ready, TagRead::ReadFailed, Some(5)));
    assert_eq!(f.duration, None);
    assert_eq!(f.artist, None);
}

#[test]
fn all_data_unopenable_file_falls_back_to_decoder() {
    let mut f = song("/m/a.mp3");
    f.get_music_all_data(&report("/m/a.mp3", OpenOutcome::Ready, TagRead::OpenFailed, Some(77)));
    assert_eq!(f.duration, Some(77));
    assert_eq!(f.artist.as_deref(), Some("群星"));
    let mut g = song("/m/b.mp3");
    g.get_music_all_data(&report("/m/b.mp3", OpenOutcome::Ready, TagRead::OpenFailed, None));
    assert_eq!(g.duration, Some(0));
}

#[test]
fn known_artist_is_kept() {
    let mut f = song("/m/a.mp3");
    f.artist = Some("Known".to_string());
    f.get_music_all_data(&report("/m/a.mp3", OpenOutcome::Ready, tagged(9, Some("Other")), None));
    assert_eq!(f.artist.as_deref(), Some("Known"));
    assert_eq!(f.duration, None);
    f.get_music_file_artist(&report("/m/a.mp3", OpenOutcome::Ready, tagged(9, Some("Other")), None));
    assert_eq!(f.artist.as_deref(), Some("Known"));
}

#[test]
fn total_duration_prefers_known_then_tags() {
    let mut f = song("/m/a.mp3");
    f.get_music_file_total_duration(&report("/m/a.mp3", OpenOutcome::Ready, tagged(300, None), Some(5)));
    assert_eq!(f.duration, Some(300));
    assert_eq!(f.artist, None);
    f.get_music_file_total_duration(&report("/m/a.mp3", OpenOutcome::Ready, tagged(999, None), None));
    assert_eq!(f.duration, Some(300));
}

#[test]
fn artist_lookup_without_tags() {
    let mut f = song("/m/a.mp3");
    f.get_music_file_artist(&report("/m/a.mp3", OpenOutcome::Ready, TagRead::ReadFailed, None));
    assert_eq!(f.artist.as_deref(), Some("群星"));
    assert_eq!(f.duration, None);
}

#[test]
fn songs_compare_by_path() {
    let mut a = song("/m/a.mp3");
    a.artist = Some("x".to_string());
    let b = song("/m/a.mp3");
    assert!(a == b);
    assert!(song("/m//a.mp3") == b);
    assert!(song("/m/b.mp3") != b);
}

#[test]
fn music_extensions() {
    assert!(is_music_file(&"/m/a.mp3".to_string()));
    assert!(is_music_file(&"/m/a.wav".to_string()));
    assert!(is_music_file(&"/m/a.ogg".to_string()));
    assert!(!is_music_file(&"/m/a.MP3".to_string()));
    assert!(!is_music_file(&"/m/a.txt".to_string()));
    assert!(!is_music_file(&"/m/mp3".to_string()));
}

#[test]
fn text_search_primitives() {
    assert!(text_contains(&"hello world".to_string(), &"lo w".to_string()));
    assert!(text_contains(&"abc".to_string(), &"".to_string()));
    assert!(!text_contains(&"abc".to_string(), &"abcd".to_string()));
    assert!(!text_contains(&"abc".to_string(), &"ac".to_string()));
}

#[test]
fn tag_map_operations() {
    let mut m = TagMap::new();
    assert!(!m.contains_key(&"jazz".to_string()));
    m.insert("jazz".to_string(), vec![]);
    m.insert("pop".to_string(), vec![song("/a.mp3")]);
    m.push_file(&"jazz".to_string(), song("/b.mp3"));
    m.push_file(&"jazz".to_string(), song("/c.mp3"));
    assert_eq!(m.get(&"jazz".to_string()).unwrap().len(), 2);
    m.set_file(&"jazz".to_string(), 0, song("/d.mp3"));
    assert_eq!(m.get(&"jazz".to_string()).unwrap()[0].music, "/d.mp3");
    m.remove_file(&"jazz".to_string(), 0);
    assert_eq!(m.get(&"jazz".to_string()).unwrap()[0].music, "/c.mp3");
    assert_eq!(m.keys(), vec!["jazz".to_string(), "pop".to_string()]);
    m.insert("jazz".to_string(), vec![]);
    assert_eq!(m.get(&"jazz".to_string()).unwrap().len(), 0);
    assert_eq!(m.keys().len(), 2);
    let copy = m.duplicate();
    m.remove(&"jazz".to_string());
    assert!(m.get(&"jazz".to_string()).is_none());
    assert!(copy.contains_key(&"jazz".to_string()));
    m.clear();
    assert!(m.keys().is_empty());
}

fn listing(origin: &str, files: &[&str]) -> DirListing {
    DirListing { origin: origin.to_string(), files: files.iter().map(|f| f.to_string()).collect() }
}

#[test]
fn scanning_keeps_music_files_folder_by_folder() {
    let mut s = MusicStore::new();
    s.search_origin = vec!["/one".to_string(), "/two".to_string(), "/gone".to_string()];
    let listings = vec![
        listing("/two", &["/two/x.ogg", "/two/notes.txt"]),
        listing("/one", &["/one/a.mp3", "/one/b.wav", "/one/c.flac"]),
    ];
    s.sync_only_push(&listings);
    let paths: Vec<&str> = s.music_files.iter().map(|f| f.music.as_str()).collect();
    assert_eq!(paths, vec!["/one/a.mp3", "/one/b.wav", "/two/x.ogg"]);
    s.sync_only_push(&listings);
    assert_eq!(s.music_files.len(), 6);
    s.artists.insert("A".to_string(), vec![]);
    s.sync(&listings);
    assert_eq!(s.music_files.len(), 3);
    assert!(s.artists.keys().is_empty());
}

#[test]
fn filter_of_a_listing() {
    let files = vec!["/a.mp3".to_string(), "/b.jpg".to_string(), "/c.ogg".to_string()];
    assert_eq!(
        MusicStore::get_music_file_from_path(&files),
        vec!["/a.mp3".to_string(), "/c.ogg".to_string()]
    );
}

#[test]
fn removing_a_search_folder() {
    let mut s = MusicStore::new();
    s.search_origin = vec!["/a".to_string(), "/b/".to_string(), "/b".to_string()];
    s.remove_search_origin("/b".to_string());
    assert_eq!(s.search_origin, vec!["/a".to_string(), "/b".to_string()]);
    s.remove_search_origin("/zzz".to_string());
    assert_eq!(s.search_origin.len(), 2);
}

#[test]
fn search_is_case_insensitive_and_ordered() {
    let mut s = MusicStore::new();
    s.music_files = vec![song("/m/Rock Song.mp3"), song("/m/jazz.mp3"), song("/m/rocky.ogg")];
    let r = s.search_music_file(&"ROCK".to_string());
    let paths: Vec<&str> = r.iter().map(|f| f.music.as_str()).collect();
    assert_eq!(paths, vec!["/m/Rock Song.mp3", "/m/rocky.ogg"]);
    assert_eq!(s.search_music_file(&"".to_string()).len(), 3);
    assert!(s.search_music_file(&"blues".to_string()).is_empty());
}

#[test]
fn reading_song_data_builds_the_artist_index() {
    let mut s = MusicStore::new();
    s.music_files = vec![song("/m/a.mp3"), song("/m/b.mp3")];
    s.read_one(&report("/m/a.mp3", OpenOutcome::Ready, tagged(100, Some("X")), None));
    assert_eq!(s.idx, 1);
    assert_eq!(s.music_files[0].artist.as_deref(), Some("X"));
    assert_eq!(s.artists.get(&"X".to_string()).unwrap().len(), 1);
    s.read_one(&report("/m/b.mp3", OpenOutcome::Unplayable, tagged(100, Some("X")), None));
    assert_eq!(s.idx, 2);
    assert_eq!(s.music_files[1].artist, None);
    s.read_one(&report("", OpenOutcome::Unplayable, TagRead::OpenFailed, None));
    assert_eq!(s.idx, 0);
    assert!(!s.is_read);
    s.read_one(&report("/m/a.mp3", OpenOutcome::Ready, tagged(100, Some("X")), None));
    assert_eq!(s.artists.get(&"X".to_string()).unwrap().len(), 1);
}

#[test]
fn tagging_a_song_reads_its_data() {
    let mut s = MusicStore::new();
    s.add_tag_for_music("fav".to_string(), song("/m/a.mp3"), &report("/m/a.mp3", OpenOutcome::Ready, tagged(5, Some("Y")), None));
    s.add_tag_for_music("fav".to_string(), song("/m/b.mp3"), &report("/m/b.mp3", OpenOutcome::Ready, TagRead::ReadFailed, None));
    let l = s.tags.get(&"fav".to_string()).unwrap();
    assert_eq!(l.len(), 2);
    assert_eq!(l[0].artist.as_deref(), Some("Y"));
    assert_eq!(l[1].music, "/m/b.mp3");
    assert_eq!(l[1].artist, None);
}


#[test]
fn rescanning_twice_gives_the_same_library() {
    let mut s = MusicStore::new();
    s.search_origin = vec!["/one".to_string()];
    let listings = vec![listing("/one", &["/one/a.mp3", "/one/b.ogg"])];
    s.sync(&listings);
    let once: Vec<String> = s.music_files.iter().map(|f| f.music.clone()).collect();
    s.sync(&listings);
    let twice: Vec<String> = s.music_files.iter().map(|f| f.music.clone()).collect();
    assert_eq!(once, twice);
}

#[test]
fn empty_search_finds_every_song_in_order() {
    let mut s = MusicStore::new();
    s.music_files = vec![song("/m/b.mp3"), song("/m/A.ogg")];
    let r = s.search_music_file(&String::new());
    let paths: Vec<&str> = r.iter().map(|f| f.music.as_str()).collect();
    assert_eq!(paths, vec!["/m/b.mp3", "/m/A.ogg"]);
}

#[test]
fn a_reading_pass_takes_one_step_per_song_and_one_more() {
    let mut s = MusicStore::new();
    s.music_files = vec![song("/m/a.mp3"), song("/m/b.mp3"), song("/m/c.mp3")];
    for k in 1..=3 {
        s.read_one(&report("", OpenOutcome::Unplayable, TagRead::OpenFailed, None));
        assert_eq!(s.idx, k);
        assert!(s.is_read);
    }
    s.read_one(&report("", OpenOutcome::Unplayable, TagRead::OpenFailed, None));
    assert_eq!(s.idx, 0);
    assert!(!s.is_read);
}

#[test]
fn a_song_file_name() {
    assert_eq!(song("/m/sub/a b.mp3").file_name().as_deref(), Some("a b.mp3"));
    assert!(song("/").file_name().is_none());
}
