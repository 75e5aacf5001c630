//! The song library: the folders it is scanned from, the songs found there, the
//! user's tags and the artist index.

use vstd::prelude::*;
use vstd::string::*;
use crate::music_file::{FileReport, MusicFile, MusicFileModel, OpenOutcome, songs, with_all_data};
use crate::paths::{contains_text, extension_of, lowercase, path_extension, paths_equal, same_path, text_contains, to_lowercase};
use crate::state::{DirListing, PlayListModel};
use crate::tag_map::{TagMap, texts};

verus! {

/// The song library.
pub struct MusicStore {
    pub search_origin: Vec<String>,
    pub music_files: Vec<MusicFile>,
    pub tags: TagMap,
    pub artists: TagMap,
    /// The position of the next song whose data is to be read.
    pub idx: usize,
    /// Whether song data is still being read, one song per tick.
    pub is_read: bool,
}

/// The mathematical value of a [`MusicStore`].
pub struct MusicStoreModel {
    pub search_origin: Seq<Seq<char>>,
    pub music_files: Seq<MusicFileModel>,
    pub tags: Map<Seq<char>, Seq<MusicFileModel>>,
    pub artists: Map<Seq<char>, Seq<MusicFileModel>>,
    pub idx: usize,
    pub is_read: bool,
}

impl View for MusicStore {
    type V = MusicStoreModel;

    open spec fn view(&self) -> MusicStoreModel {
        MusicStoreModel {
            search_origin: texts(self.search_origin@),
            music_files: songs(self.music_files@),
            tags: self.tags@,
            artists: self.artists@,
            idx: self.idx,
            is_read: self.is_read,
        }
    }
}

/// The list of songs that a play list walks through, if the list exists.
pub open spec fn list_of(s: MusicStoreModel, pl: PlayListModel) -> Option<Seq<MusicFileModel>> {
    match pl {
        PlayListModel::AllMusic => Some(s.music_files),
        PlayListModel::Tags(t) => if s.tags.contains_key(t) {
            Some(s.tags[t])
        } else {
            None
        },
        PlayListModel::Artist(a) => if s.artists.contains_key(a) {
            Some(s.artists[a])
        } else {
            None
        },
    }
}

/// The library with the list of a play list replaced.
pub open spec fn with_list(s: MusicStoreModel, pl: PlayListModel, l: Seq<MusicFileModel>) -> MusicStoreModel {
    match pl {
        PlayListModel::AllMusic => MusicStoreModel { music_files: l, ..s },
        PlayListModel::Tags(t) => MusicStoreModel { tags: s.tags.insert(t, l), ..s },
        PlayListModel::Artist(a) => MusicStoreModel { artists: s.artists.insert(a, l), ..s },
    }
}

/// Whether position `i` holds the first song of `list` that is the same song as `f`.
pub open spec fn is_first_match(list: Seq<MusicFileModel>, f: MusicFileModel, i: int) -> bool {
    &&& 0 <= i < list.len()
    &&& MusicFile::same_song(list[i], f)
    &&& forall|j: int| 0 <= j < i ==> !MusicFile::same_song(#[trigger] list[j], f)
}

/// Whether `list` holds a song that is the same song as `f`.
pub open spec fn has_song(list: Seq<MusicFileModel>, f: MusicFileModel) -> bool {
    exists|i: int| 0 <= i < list.len() && MusicFile::same_song(#[trigger] list[i], f)
}

/// The position of the first song of `list` that is the same song as `f`.
pub open spec fn first_match(list: Seq<MusicFileModel>, f: MusicFileModel) -> int {
    choose|i: int| is_first_match(list, f, i)
}

/// Whether a path names a file that the library plays (mp3, wav or ogg).
pub open spec fn is_music_path(p: Seq<char>) -> bool {
    match path_extension(p) {
        Some(e) => e == "mp3"@ || e == "wav"@ || e == "ogg"@,
        None => false,
    }
}

/// The paths of a folder listing that name files the library plays.
pub open spec fn music_paths(files: Seq<Seq<char>>) -> Seq<Seq<char>> {
    files.filter(|p: Seq<char>| is_music_path(p))
}

/// Whether listing `i` is the first listing of `origin`.
pub open spec fn is_first_listing(listings: Seq<DirListing>, origin: Seq<char>, i: int) -> bool {
    &&& 0 <= i < listings.len()
    &&& listings[i].origin@ == origin
    &&& forall|j: int| 0 <= j < i ==> (#[trigger] listings[j]).origin@ != origin
}

/// The files listed in a folder: those of its first listing; none when the folder
/// was not listed (it could not be read).
pub open spec fn listed(listings: Seq<DirListing>, origin: Seq<char>) -> Seq<Seq<char>> {
    if exists|i: int| is_first_listing(listings, origin, i) {
        texts(listings[choose|i: int| is_first_listing(listings, origin, i)].files@)
    } else {
        Seq::empty()
    }
}

/// The song files found in the given folders, folder by folder.
pub open spec fn scanned(origins: Seq<Seq<char>>, listings: Seq<DirListing>) -> Seq<Seq<char>>
    decreases origins.len(),
{
    if origins.len() == 0 {
        Seq::empty()
    } else {
        scanned(origins.drop_last(), listings) + music_paths(listed(listings, origins.last()))
    }
}

/// A song of which only the path is known.
pub open spec fn new_song(p: Seq<char>) -> MusicFileModel {
    MusicFileModel { music: p, duration: None, artist: None }
}

/// The songs made from paths.
pub open spec fn new_songs(ps: Seq<Seq<char>>) -> Seq<MusicFileModel> {
    ps.map_values(|p: Seq<char>| new_song(p))
}

/// Whether a song belongs in the search results for a text: its path contains the
/// text, both compared in lowercase.
pub open spec fn matches_search(f: MusicFileModel, text: Seq<char>) -> bool {
    contains_text(lowercase(f.music), lowercase(text))
}

/// The search condition for a text, as a predicate on songs.
pub open spec fn search_pred(text: Seq<char>) -> spec_fn(MusicFileModel) -> bool {
    |f: MusicFileModel| matches_search(f, text)
}

/// Calls `dirs::audio_dir`, converting the folder to text. Trusted: nothing is
/// stated of the result, which depends on the user's environment.
#[verifier::external_body]
fn audio_dir() -> (r: Option<String>) {
    dirs::audio_dir().map(|p| p.to_string_lossy().into_owned())
}

/// Whether a path names a file that the library plays.
pub fn is_music_file(p: &String) -> (r: bool)
    ensures
        r == is_music_path(p@),
{
    match extension_of(p) {
        Some(e) => {
            let mp3 = String::from_str("mp3");
            let wav = String::from_str("wav");
            let ogg = String::from_str("ogg");
            e == mp3 || e == wav || e == ogg
        },
        None => false,
    }
}

/// Copies a list of strings.
pub fn clone_texts(v: &Vec<String>) -> (r: Vec<String>)
    ensures
        texts(r@) == texts(v@),
{
    let mut r: Vec<String> = Vec::new();
    let mut i: usize = 0;
    while i < v.len()
        invariant
            i <= v@.len(),
            texts(r@) == texts(v@).subrange(0, i as int),
        decreases v@.len() - i,
    {
        let c = v[i].clone();
        let ghost before = r@;
        r.push(c);
        i = i + 1;
        assert(texts(before).len() == before.len());
        assert(texts(r@).len() == r@.len());
        assert forall|j: int| 0 <= j < i implies #[trigger] texts(r@)[j] == texts(v@)[j] by {
            if j < i - 1 {
                assert(texts(before)[j] == texts(v@).subrange(0, i - 1)[j]);
            }
        }
        assert(texts(r@) =~= texts(v@).subrange(0, i as int));
    }
    assert(texts(v@).subrange(0, v@.len() as int) =~= texts(v@));
    r
}

/// The position of the first song of `list` that is the same song as `f`, if any.
pub fn position_of(list: &Vec<MusicFile>, f: &MusicFile) -> (r: Option<usize>)
    ensures
        match r {
            Some(i) => is_first_match(songs(list@), f@, i as int),
            None => !has_song(songs(list@), f@),
        },
{
    let mut i: usize = 0;
    while i < list.len()
        invariant
            i <= list@.len(),
            forall|j: int| 0 <= j < i ==> !MusicFile::same_song(#[trigger] songs(list@)[j], f@),
        decreases list@.len() - i,
    {
        if list[i] == *f {
            return Some(i);
        }
        i = i + 1;
    }
    None
}

/// The first position holding the same path as `p`, if any.
pub fn path_position(list: &Vec<String>, p: &String) -> (r: Option<usize>)
    ensures
        match r {
            Some(i) => i < list@.len() && same_path(list@[i as int]@, p@) && forall|j: int|
                0 <= j < i ==> !same_path(#[trigger] list@[j]@, p@),
            None => forall|j: int| 0 <= j < list@.len() ==> !same_path(#[trigger] list@[j]@, p@),
        },
{
    let mut i: usize = 0;
    while i < list.len()
        invariant
            i <= list@.len(),
            forall|j: int| 0 <= j < i ==> !same_path(#[trigger] list@[j]@, p@),
        decreases list@.len() - i,
    {
        if paths_equal(&list[i], p) {
            return Some(i);
        }
        i = i + 1;
    }
    None
}

pub(crate) proof fn lemma_first_match_unique(list: Seq<MusicFileModel>, f: MusicFileModel, i: int)
    requires
        is_first_match(list, f, i),
    ensures
        first_match(list, f) == i,
        has_song(list, f),
{
    let k = first_match(list, f);
    assert(is_first_match(list, f, k));
    if k < i {
        assert(!MusicFile::same_song(list[k], f));
    }
    if i < k {
        assert(!MusicFile::same_song(list[i], f));
    }
}

proof fn lemma_listed_first(listings: Seq<DirListing>, origin: Seq<char>, i: int)
    requires
        is_first_listing(listings, origin, i),
    ensures
        listed(listings, origin) == texts(listings[i].files@),
{
    let k = choose|k: int| is_first_listing(listings, origin, k);
    assert(is_first_listing(listings, origin, k));
    if k < i {
        assert(listings[k].origin@ != origin);
    }
    if i < k {
        assert(listings[i].origin@ != origin);
    }
}

/// The files that the listings give for a folder; none when it was not listed.
fn listing_of<'a>(listings: &'a Vec<DirListing>, origin: &String, none: &'a Vec<String>) -> (r: &'a Vec<String>)
    requires
        none@.len() == 0,
    ensures
        texts(r@) == listed(listings@, origin@),
{
    let mut i: usize = 0;
    while i < listings.len()
        invariant
            i <= listings@.len(),
            forall|j: int| 0 <= j < i ==> (#[trigger] listings@[j]).origin@ != origin@,
        decreases listings@.len() - i,
    {
        if listings[i].origin == *origin {
            proof {
                lemma_listed_first(listings@, origin@, i as int);
            }
            return &listings[i].files;
        }
        i = i + 1;
    }
    assert(texts(none@) =~= Seq::<Seq<char>>::empty());
    none
}

impl MusicStore {
    /// The empty library that still has song data to read.
    pub open spec fn new_model() -> MusicStoreModel {
        MusicStoreModel {
            search_origin: Seq::empty(),
            music_files: Seq::empty(),
            tags: Map::empty(),
            artists: Map::empty(),
            idx: 0,
            is_read: true,
        }
    }

    /// An empty library that still has song data to read.
    pub fn new() -> (r: MusicStore)
        ensures
            r@ == Self::new_model(),
    {
        let r = MusicStore {
            search_origin: Vec::new(),
            music_files: Vec::new(),
            tags: TagMap::new(),
            artists: TagMap::new(),
            idx: 0,
            is_read: true,
        };
        assert(texts(r.search_origin@) =~= Seq::empty());
        assert(songs(r.music_files@) =~= Seq::empty());
        r
    }

    /// The user's music folder, or an empty path when the system names none.
    pub fn get_music_file() -> (r: String) {
        match audio_dir() {
            Some(v) => v,
            None => String::new(),
        }
    }

    /// The files of a folder listing that the library plays, in listing order.
    pub fn get_music_file_from_path(files: &Vec<String>) -> (r: Vec<String>)
        ensures
            texts(r@) == music_paths(texts(files@)),
    {
        let mut r: Vec<String> = Vec::new();
        let mut i: usize = 0;
        while i < files.len()
            invariant
                i <= files@.len(),
                texts(r@) == music_paths(texts(files@).take(i as int)),
            decreases files@.len() - i,
        {
            let ghost before = r@;
            let ghost pred = |p: Seq<char>| is_music_path(p);
            proof {
                assert(texts(files@).take(i + 1) =~= texts(files@).take(i as int).push(texts(files@)[i as int]));
                texts(files@).take(i as int).lemma_filter_push(texts(files@)[i as int], pred);
            }
            if is_music_file(&files[i]) {
                r.push(files[i].clone());
                assert(texts(r@) =~= texts(before).push(files@[i as int]@));
            }
            i = i + 1;
        }
        assert(texts(files@).take(files@.len() as int) =~= texts(files@));
        r
    }
}


/// Whether position `i` holds the first path of `list` that is the same path as `p`.
pub open spec fn is_first_path(list: Seq<Seq<char>>, p: Seq<char>, i: int) -> bool {
    &&& 0 <= i < list.len()
    &&& same_path(list[i], p)
    &&& forall|j: int| 0 <= j < i ==> !same_path(#[trigger] list[j], p)
}

/// The folders without the first one that is the same path as `p`.
pub open spec fn without_path(list: Seq<Seq<char>>, p: Seq<char>) -> Seq<Seq<char>> {
    if exists|i: int| is_first_path(list, p, i) {
        list.remove(choose|i: int| is_first_path(list, p, i))
    } else {
        list
    }
}

/// The library after one song's data is read: the song at the reading position gets
/// its data when its file plays, and is filed under its artist unless the artist's
/// list already holds it; the position advances. Past the last song, reading stops
/// and the position returns to the start.
pub open spec fn read_one_result(s: MusicStoreModel, r: &FileReport) -> MusicStoreModel {
    if s.idx < s.music_files.len() {
        if r.open != OpenOutcome::Unplayable {
            let f = with_all_data(s.music_files[s.idx as int], r);
            let art = f.artist.unwrap();
            MusicStoreModel {
                music_files: s.music_files.update(s.idx as int, f),
                artists: if s.artists.contains_key(art) {
                    if has_song(s.artists[art], f) {
                        s.artists
                    } else {
                        s.artists.insert(art, s.artists[art].push(f))
                    }
                } else {
                    s.artists.insert(art, seq![f])
                },
                idx: (s.idx + 1) as usize,
                ..s
            }
        } else {
            MusicStoreModel { idx: (s.idx + 1) as usize, ..s }
        }
    } else {
        MusicStoreModel { is_read: false, idx: 0, ..s }
    }
}

/// Whether reading one song's data stays within what the library can do: a song
/// whose file plays must come out of the reading with an artist.
pub open spec fn read_one_defined(s: MusicStoreModel, r: &FileReport) -> bool {
    s.idx < s.music_files.len() && r.open != OpenOutcome::Unplayable ==> with_all_data(
        s.music_files[s.idx as int],
        r,
    ).artist is Some
}

/// The tags after a song is tagged: the song, with its data read, is appended to the
/// tag's list, which is made when the tag is new.
pub open spec fn tagged_result(
    tags: Map<Seq<char>, Seq<MusicFileModel>>,
    tag: Seq<char>,
    f: MusicFileModel,
    r: &FileReport,
) -> Map<Seq<char>, Seq<MusicFileModel>> {
    let g = with_all_data(f, r);
    if tags.contains_key(tag) {
        tags.insert(tag, tags[tag].push(g))
    } else {
        tags.insert(tag, seq![g])
    }
}

proof fn lemma_new_songs_add(a: Seq<Seq<char>>, b: Seq<Seq<char>>)
    ensures
        new_songs(a + b) == new_songs(a) + new_songs(b),
{
    assert(new_songs(a + b) =~= new_songs(a) + new_songs(b));
}

proof fn lemma_without_path(list: Seq<Seq<char>>, p: Seq<char>, i: int)
    requires
        is_first_path(list, p, i),
    ensures
        without_path(list, p) == list.remove(i),
{
    let k = choose|k: int| is_first_path(list, p, k);
    assert(is_first_path(list, p, k));
    if k < i {
        assert(!same_path(list[k], p));
    }
    if i < k {
        assert(!same_path(list[i], p));
    }
}

impl MusicStore {
    /// Adds the songs found in every search folder, folder by folder, to the songs
    /// already known.
    pub fn sync_only_push(&mut self, listings: &Vec<DirListing>)
        ensures
            final(self)@ == (MusicStoreModel {
                music_files: old(self)@.music_files + new_songs(scanned(old(self)@.search_origin, listings@)),
                ..old(self)@
            }),
    {
        let none: Vec<String> = Vec::new();
        let ghost origins = texts(self.search_origin@);
        let mut i: usize = 0;
        while i < self.search_origin.len()
            invariant
                i <= self.search_origin@.len(),
                origins == texts(self.search_origin@),
                none@.len() == 0,
                self@ == (MusicStoreModel {
                    music_files: old(self)@.music_files + new_songs(scanned(origins.take(i as int), listings@)),
                    ..old(self)@
                }),
            decreases self.search_origin@.len() - i,
        {
            assert(origins[i as int] == self.search_origin@[i as int]@);
            let found = Self::get_music_file_from_path(listing_of(listings, &self.search_origin[i], &none));
            let ghost base = songs(self.music_files@);
            let ghost ft = texts(found@);
            let mut j: usize = 0;
            while j < found.len()
                invariant
                    j <= found@.len(),
                    ft == texts(found@),
                    songs(self.music_files@) == base + new_songs(ft.take(j as int)),
                    texts(self.search_origin@) == old(self)@.search_origin,
                    i < self.search_origin@.len(),
                    self.tags@ == old(self).tags@,
                    self.artists@ == old(self).artists@,
                    self.idx == old(self).idx,
                    self.is_read == old(self).is_read,
                decreases found@.len() - j,
            {
                let ghost before = self.music_files@;
                let f = MusicFile::from_path(found[j].clone());
                self.music_files.push(f);
                assert(ft.take(j + 1) =~= ft.take(j as int).push(ft[j as int]));
                assert(new_songs(ft.take(j + 1)) =~= new_songs(ft.take(j as int)).push(new_song(ft[j as int])));
                assert(songs(self.music_files@) =~= songs(before).push(f@));
                j = j + 1;
            }
            proof {
                assert(ft.take(ft.len() as int) =~= ft);
                let t1 = origins.take(i + 1);
                let a = scanned(origins.take(i as int), listings@);
                let b = music_paths(listed(listings@, origins[i as int]));
                assert(ft == b);
                assert(t1.drop_last() =~= origins.take(i as int));
                assert(t1.last() == origins[i as int]);
                assert(scanned(t1, listings@) == a + b);
                lemma_new_songs_add(a, b);
                assert(songs(self.music_files@) =~= old(self)@.music_files + new_songs(a + b));
            }
            i = i + 1;
        }
        assert(origins.take(origins.len() as int) =~= origins);
    }

    /// Forgets all songs and the artist index, then scans the search folders again.
    pub fn sync(&mut self, listings: &Vec<DirListing>)
        ensures
            final(self)@ == (MusicStoreModel {
                music_files: new_songs(scanned(old(self)@.search_origin, listings@)),
                artists: Map::empty(),
                ..old(self)@
            }),
    {
        self.music_files.clear();
        self.artists.clear();
        assert(songs(self.music_files@) =~= Seq::<MusicFileModel>::empty());
        self.sync_only_push(listings);
        assert(Seq::<MusicFileModel>::empty() + new_songs(scanned(old(self)@.search_origin, listings@))
            =~= new_songs(scanned(old(self)@.search_origin, listings@)));
    }

    /// Removes the first search folder that is the same path as `p`, if there is one.
    pub fn remove_search_origin(&mut self, p: String)
        ensures
            final(self)@ == (MusicStoreModel {
                search_origin: without_path(old(self)@.search_origin, p@),
                ..old(self)@
            }),
    {
        match path_position(&self.search_origin, &p) {
            Some(i) => {
                proof {
                    lemma_without_path(texts(self.search_origin@), p@, i as int);
                }
                let ghost before = self.search_origin@;
                self.search_origin.remove(i);
                assert(texts(self.search_origin@) =~= texts(before).remove(i as int));
            },
            None => {
                assert forall|i: int| !is_first_path(texts(self.search_origin@), p@, i) by {
                    if 0 <= i < self.search_origin@.len() {
                        assert(texts(self.search_origin@)[i] == self.search_origin@[i]@);
                    }
                }
            },
        }
    }

    /// Reads the data of the song at the reading position (see [`read_one_result`]).
    /// `report` is the probe of that song's file.
    pub fn read_one(&mut self, report: &FileReport)
        requires
            read_one_defined(old(self)@, report),
        ensures
            final(self)@ == read_one_result(old(self)@, report),
    {
        if self.idx < self.music_files.len() {
            if report.open != OpenOutcome::Unplayable {
                let i = self.idx;
                let mut f = self.music_files[i].clone();
                f.get_music_all_data(report);
                let ghost before = self.music_files@;
                self.music_files.set(i, f.clone());
                assert(songs(self.music_files@) =~= songs(before).update(i as int, f@));
                let art = match &f.artist {
                    Some(a) => a.clone(),
                    None => {
                        assert(false);
                        String::new()
                    },
                };
                let existing = match self.artists.get(&art) {
                    Some(v) => Some(position_of(v, &f)),
                    None => None,
                };
                match existing {
                    Some(pos) => {
                        match pos {
                            Some(k) => {
                                proof {
                                    lemma_first_match_unique(self.artists@[art@], f@, k as int);
                                }
                            },
                            None => {
                                self.artists.push_file(&art, f);
                            },
                        }
                    },
                    None => {
                        let mut v: Vec<MusicFile> = Vec::new();
                        v.push(f);
                        assert(songs(v@) =~= seq![f@]);
                        self.artists.insert(art, v);
                    },
                }
            }
            self.idx = self.idx + 1;
        } else {
            self.is_read = false;
            self.idx = 0;
        }
    }

    /// Files a song under a tag, after reading its data; `report` is the probe of its
    /// file.
    pub fn add_tag_for_music(&mut self, tag: String, music_file: MusicFile, report: &FileReport)
        ensures
            final(self)@ == (MusicStoreModel {
                tags: tagged_result(old(self)@.tags, tag@, music_file@, report),
                ..old(self)@
            }),
    {
        let mut music_file = music_file;
        music_file.get_music_all_data(report);
        if self.tags.contains_key(&tag) {
            self.tags.push_file(&tag, music_file);
        } else {
            let mut v: Vec<MusicFile> = Vec::new();
            v.push(music_file);
            assert(songs(v@) =~= seq![music_file@]);
            self.tags.insert(tag, v);
        }
    }

    /// The songs whose path contains the text, both compared in lowercase, in library
    /// order; the empty text finds every song.
    pub fn search_music_file(&self, text: &String) -> (r: Vec<MusicFile>)
        ensures
            songs(r@) == self@.music_files.filter(search_pred(text@)),
            text@.len() == 0 ==> songs(r@) == self@.music_files,
    {
        let needle = to_lowercase(text);
        let ghost pred = search_pred(text@);
        let ghost all = songs(self.music_files@);
        let mut r: Vec<MusicFile> = Vec::new();
        let mut i: usize = 0;
        while i < self.music_files.len()
            invariant
                i <= self.music_files@.len(),
                all == songs(self.music_files@),
                pred == search_pred(text@),
                needle@ == lowercase(text@),
                text@.len() == 0 ==> needle@.len() == 0,
                songs(r@) == all.take(i as int).filter(pred),
                text@.len() == 0 ==> songs(r@) == all.take(i as int),
            decreases self.music_files@.len() - i,
        {
            let ghost before = r@;
            proof {
                assert(all.take(i + 1) =~= all.take(i as int).push(all[i as int]));
                all.take(i as int).lemma_filter_push(all[i as int], pred);
            }
            assert(all[i as int] == self.music_files@[i as int]@);
            assert(pred(all[i as int]) == contains_text(lowercase(self.music_files@[i as int].music@), lowercase(text@)));
            let hay = to_lowercase(&self.music_files[i].music);
            proof {
                if needle@.len() == 0 {
                    assert(hay@.subrange(0, 0 + needle@.len() as int) =~= needle@);
                    assert(contains_text(hay@, needle@));
                }
            }
            if text_contains(&hay, &needle) {
                let c = self.music_files[i].clone();
                r.push(c);
                assert(songs(r@) =~= songs(before).push(c@));
            }
            i = i + 1;
        }
        assert(all.take(all.len() as int) =~= all);
        proof {
            if text@.len() == 0 {
                assert(songs(r@) =~= self@.music_files);
            }
        }
        r
    }
}

} // verus!
