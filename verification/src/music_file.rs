//! A song of the library and what probing its file reports.

use vstd::prelude::*;
use vstd::string::*;
use crate::paths::{paths_equal, same_path};

verus! {

/// A song of the library: where its file is, how long it plays (in nanoseconds,
/// once known) and who performs it (once known).
#[derive(Debug)]
pub struct MusicFile {
    pub music: String,
    pub duration: Option<u128>,
    pub artist: Option<String>,
}

/// The mathematical value of a [`MusicFile`].
pub struct MusicFileModel {
    pub music: Seq<char>,
    pub duration: Option<u128>,
    pub artist: Option<Seq<char>>,
}

impl View for MusicFile {
    type V = MusicFileModel;

    open spec fn view(&self) -> MusicFileModel {
        MusicFileModel {
            music: self.music@,
            duration: self.duration,
            artist: match self.artist {
                Some(a) => Some(a@),
                None => None,
            },
        }
    }
}

/// What reading a file's tags gave: the file could not be opened, its tags could not
/// be read, or its play time (in nanoseconds) and (when its primary tag names one)
/// its artist.
pub enum TagRead {
    OpenFailed,
    ReadFailed,
    Read { duration_ns: u128, artist: Option<String> },
}

/// What opening a file for playback gave: the file is not a decodable audio file,
/// it could not be opened again, its decoder could not be made again, or it is ready.
#[derive(PartialEq, Eq, Structural, Clone, Copy, Debug)]
pub enum OpenOutcome {
    Unplayable,
    OpenFailed,
    DecodeFailed,
    Ready,
}

/// Everything the library learns about one audio file from the outside: whether it
/// plays, what its tags say, and the play time its decoder reports (if any), in
/// nanoseconds.
pub struct FileReport {
    pub path: String,
    pub open: OpenOutcome,
    pub tags: TagRead,
    pub decoded_duration: Option<u128>,
}

/// The artist name given to songs whose tags name none.
pub open spec fn various_artists() -> Seq<char> {
    "群星"@
}

/// A song whose tags have been read: the play time and artist they give.
pub open spec fn with_tag_data(f: MusicFileModel, duration_ns: u128, artist: Option<String>) -> MusicFileModel {
    MusicFileModel {
        duration: Some(duration_ns),
        artist: Some(
            match artist {
                Some(a) => a@,
                None => various_artists(),
            },
        ),
        ..f
    }
}

/// A song after its play time is looked up: kept if known, else taken from the tags,
/// else from the decoder, else zero.
pub open spec fn with_total_duration(f: MusicFileModel, r: &FileReport) -> MusicFileModel {
    if f.duration is Some {
        f
    } else {
        match r.tags {
            TagRead::Read { duration_ns, .. } => MusicFileModel { duration: Some(duration_ns), ..f },
            _ => MusicFileModel {
                duration: Some(
                    match r.decoded_duration {
                        Some(d) => d,
                        None => 0,
                    },
                ),
                ..f
            },
        }
    }
}

/// A song after its artist is looked up: kept if known, else the tags' data, else
/// the various-artists name.
pub open spec fn with_artist(f: MusicFileModel, r: &FileReport) -> MusicFileModel {
    if f.artist is Some {
        f
    } else {
        match r.tags {
            TagRead::Read { duration_ns, artist } => with_tag_data(f, duration_ns, artist),
            _ => MusicFileModel { artist: Some(various_artists()), ..f },
        }
    }
}

/// A song after all its data is looked up: kept if its artist is known; else the
/// tags' data when they could be read; unchanged when the file opened but its tags
/// could not be read; and when the file could not be opened, its play time looked up
/// and the various-artists name.
pub open spec fn with_all_data(f: MusicFileModel, r: &FileReport) -> MusicFileModel {
    if f.artist is Some {
        f
    } else {
        match r.tags {
            TagRead::Read { duration_ns, artist } => with_tag_data(f, duration_ns, artist),
            TagRead::ReadFailed => f,
            TagRead::OpenFailed => MusicFileModel {
                artist: Some(various_artists()),
                ..with_total_duration(f, r)
            },
        }
    }
}

/// The various-artists name as a string.
pub fn various_artists_name() -> (r: String)
    ensures
        r@ == various_artists(),
{
    String::from_str("群星")
}

/// Copies an optional string.
pub fn clone_opt_string(o: &Option<String>) -> (r: Option<String>)
    ensures
        crate::paths::opt_text(r) == crate::paths::opt_text(*o),
{
    match o {
        Some(s) => Some(s.clone()),
        None => None,
    }
}

impl Clone for MusicFile {
    fn clone(&self) -> (r: Self)
        ensures
            r@ == self@,
    {
        MusicFile {
            music: self.music.clone(),
            duration: self.duration,
            artist: clone_opt_string(&self.artist),
        }
    }
}

impl Default for MusicFile {
    fn default() -> (r: Self)
        ensures
            r@ == (MusicFileModel { music: Seq::empty(), duration: None, artist: None }),
    {
        MusicFile { music: String::new(), duration: None, artist: None }
    }
}

/// Two songs are the same song when their files have the same path.
impl PartialEq for MusicFile {
    fn eq(&self, other: &Self) -> (r: bool) {
        paths_equal(&self.music, &other.music)
    }
}

impl vstd::std_specs::cmp::PartialEqSpecImpl for MusicFile {
    open spec fn obeys_eq_spec() -> bool {
        true
    }

    open spec fn eq_spec(&self, other: &Self) -> bool {
        same_path(self.music@, other.music@)
    }
}

impl MusicFile {
    /// Whether two songs are the same song (their files have the same path).
    pub open spec fn same_song(a: MusicFileModel, b: MusicFileModel) -> bool {
        same_path(a.music, b.music)
    }

    /// The final component of the song's path, shown on its card.
    pub fn file_name(&self) -> (r: Option<String>)
        ensures
            crate::paths::opt_text(r) == crate::paths::path_file_name(self@.music),
    {
        crate::paths::file_name_of(&self.music)
    }

    /// A song that has only its path known.
    pub fn from_path(music: String) -> (r: MusicFile)
        ensures
            r@ == (MusicFileModel { music: music@, duration: None, artist: None }),
    {
        MusicFile { music, duration: None, artist: None }
    }

    fn set_value(&mut self, duration_ns: u128, artist: &Option<String>)
        ensures
            final(self)@ == with_tag_data(old(self)@, duration_ns, *artist),
    {
        self.duration = Some(duration_ns);
        match artist {
            Some(a) => {
                self.artist = Some(a.clone());
            },
            None => {
                self.artist = Some(various_artists_name());
            },
        }
    }

    /// Looks up the play time and artist of a song whose artist is not known yet,
    /// from what probing its file reported.
    pub fn get_music_all_data(&mut self, report: &FileReport)
        ensures
            final(self)@ == with_all_data(old(self)@, report),
    {
        if self.artist.is_some() {
            return ;
        }
        match &report.tags {
            TagRead::Read { duration_ns, artist } => {
                self.set_value(*duration_ns, artist);
            },
            TagRead::ReadFailed => {},
            TagRead::OpenFailed => {
                self.get_music_file_total_duration(report);
                self.artist = Some(various_artists_name());
            },
        }
    }

    /// Looks up the artist of a song whose artist is not known yet.
    pub fn get_music_file_artist(&mut self, report: &FileReport)
        ensures
            final(self)@ == with_artist(old(self)@, report),
    {
        if self.artist.is_some() {
            return ;
        }
        match &report.tags {
            TagRead::Read { duration_ns, artist } => {
                self.set_value(*duration_ns, artist);
            },
            _ => {
                self.artist = Some(various_artists_name());
            },
        }
    }

    /// Looks up the play time of a song whose play time is not known yet.
    pub fn get_music_file_total_duration(&mut self, report: &FileReport)
        ensures
            final(self)@ == with_total_duration(old(self)@, report),
    {
        if self.duration.is_some() {
            return ;
        }
        match &report.tags {
            TagRead::Read { duration_ns, .. } => {
                self.duration = Some(*duration_ns);
            },
            _ => {
                match report.decoded_duration {
                    Some(d) => {
                        self.duration = Some(d);
                    },
                    None => {
                        self.duration = Some(0);
                    },
                }
            },
        }
    }
}

} // verus!

verus! {

/// The models of a sequence of songs.
pub open spec fn songs(v: Seq<MusicFile>) -> Seq<MusicFileModel> {
    v.map_values(|f: MusicFile| f@)
}

/// Copies a list of songs.
pub fn clone_songs(v: &Vec<MusicFile>) -> (r: Vec<MusicFile>)
    ensures
        songs(r@) == songs(v@),
{
    let mut r: Vec<MusicFile> = Vec::new();
    let mut i: usize = 0;
    while i < v.len()
        invariant
            i <= v@.len(),
            songs(r@) == songs(v@).subrange(0, i as int),
        decreases v@.len() - i,
    {
        let c = v[i].clone();
        assert(c@ == songs(v@)[i as int]);
        let ghost before = r@;
        r.push(c);
        i = i + 1;
        assert(r@ == before.push(c));
        assert(songs(before).len() == before.len());
        assert(songs(r@).len() == r@.len());
        assert(songs(r@).len() == i);
        assert forall|j: int| 0 <= j < i implies #[trigger] songs(r@)[j] == songs(v@)[j] by {
            if j < i - 1 {
                assert(songs(before)[j] == songs(v@).subrange(0, i - 1)[j]);
            }
        }
        assert(songs(r@) =~= songs(v@).subrange(0, i as int));
    }
    assert(songs(v@).subrange(0, v@.len() as int) =~= songs(v@));
    r
}

} // verus!
