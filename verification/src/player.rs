//! The playback state machine: which song plays, from which list, in which mode,
//! and what the audio output is told to do.

use vstd::prelude::*;
use vstd::string::*;
use crate::music_file::{FileReport, MusicFile, MusicFileModel, OpenOutcome, with_artist, with_total_duration};
use crate::paths::{file_name_of, path_file_name};
use crate::state::{AudioCommand, PlayList, PlayListModel, PlayState, PlaybackType};
use crate::store::{MusicStore, MusicStoreModel, first_match, has_song, is_first_match, list_of, with_list};

verus! {

/// The playback state. The play time of the current song is in nanoseconds.
pub struct Player {
    pub music_name: String,
    pub now_playing: Option<MusicFile>,
    pub total_music_time: u128,
    pub play_state: PlayState,
    pub playback_type: PlaybackType,
    pub play_list: PlayList,
}

/// The mathematical value of a [`Player`].
pub struct PlayerModel {
    pub music_name: Seq<char>,
    pub now_playing: Option<MusicFileModel>,
    pub total_music_time: u128,
    pub play_state: PlayState,
    pub playback_type: PlaybackType,
    pub play_list: PlayListModel,
}

impl View for Player {
    type V = PlayerModel;

    open spec fn view(&self) -> PlayerModel {
        PlayerModel {
            music_name: self.music_name@,
            now_playing: match self.now_playing {
                Some(f) => Some(f@),
                None => None,
            },
            total_music_time: self.total_music_time,
            play_state: self.play_state,
            playback_type: self.playback_type,
            play_list: self.play_list@,
        }
    }
}

/// What starting a song does: the player and library after it, whether it
/// succeeded, and the audio commands it gives.
pub struct PlayOutcome {
    pub player: PlayerModel,
    pub store: MusicStoreModel,
    pub ok: bool,
    pub commands: Seq<AudioCommand>,
}

/// The title shown while no song is loaded.
pub open spec fn idle_title() -> Seq<char> {
    "TEST MUSIC TITLE"@
}

/// The title shown for a file name: names of more than twenty characters are cut
/// to their first twenty, followed by an ellipsis.
pub open spec fn display_name(name: Seq<char>) -> Seq<char> {
    if name.len() > 20 {
        name.take(20) + "..."@
    } else {
        name
    }
}

/// The position reached from `pos` by `pidx` steps in a list of `len` songs: steps
/// wrap around at the end; a step before the start lands at `len + pidx`.
pub open spec fn next_index(len: int, pos: int, pidx: int) -> int {
    if len == 0 {
        0
    } else if pos + pidx < 0 {
        len + pidx
    } else {
        (pos + pidx) % len
    }
}

/// Whether starting song `p` stays within what the player can do: when the file is
/// ready, the play list must exist and hold the song, and the path must have a
/// final component to show as the title.
pub open spec fn play_defined(pl: PlayerModel, s: MusicStoreModel, p: MusicFileModel, r: &FileReport) -> bool {
    play_defined_in(s, pl.play_list, p, r)
}

/// Whether starting song `p` from play list `list` stays within what the player can
/// do (see [`play_defined`]).
pub open spec fn play_defined_in(s: MusicStoreModel, list: PlayListModel, p: MusicFileModel, r: &FileReport) -> bool {
    r.open == OpenOutcome::Ready ==> {
        &&& list_of(s, list) is Some
        &&& has_song(list_of(s, list).unwrap(), p)
        &&& path_file_name(p.music) is Some
    }
}

/// What starting song `p` does. A file that does not play or cannot be opened again
/// changes nothing; one whose decoder cannot be made again becomes the current song
/// only. A ready file becomes the current song and plays; its play time is looked
/// up; the first song of the play list that is the same song gets the file's play
/// time and artist; the title is the file name.
pub open spec fn play_spec(pl: PlayerModel, s: MusicStoreModel, p: MusicFileModel, r: &FileReport) -> PlayOutcome {
    match r.open {
        OpenOutcome::Ready => {
            let p1 = with_total_duration(p, r);
            let l = list_of(s, pl.play_list).unwrap();
            let k = first_match(l, p);
            PlayOutcome {
                player: PlayerModel {
                    now_playing: Some(p),
                    play_state: PlayState::Play,
                    total_music_time: p1.duration.unwrap(),
                    music_name: display_name(path_file_name(p.music).unwrap()),
                    ..pl
                },
                store: with_list(s, pl.play_list, l.update(k, with_artist(p1, r))),
                ok: true,
                commands: seq![
                    AudioCommand::Clear,
                    AudioCommand::ReadPosition,
                    AudioCommand::StartDecoded,
                    AudioCommand::Play,
                ],
            }
        },
        OpenOutcome::DecodeFailed => PlayOutcome {
            player: PlayerModel { now_playing: Some(p), ..pl },
            store: s,
            ok: false,
            commands: seq![],
        },
        _ => PlayOutcome { player: pl, store: s, ok: false, commands: seq![] },
    }
}

/// The song `pidx` steps away from the current one in the play list.
pub open spec fn push_target(pl: PlayerModel, s: MusicStoreModel, pidx: i32) -> MusicFileModel {
    let l = list_of(s, pl.play_list).unwrap();
    l[next_index(l.len() as int, first_match(l, pl.now_playing.unwrap()), pidx as int)]
}

/// Whether stepping `pidx` songs stays within what the player can do: a song is
/// current and in the play list, the step lands inside the list, and starting the
/// song it lands on is defined.
pub open spec fn push_defined(pl: PlayerModel, s: MusicStoreModel, pidx: i32, r: &FileReport) -> bool {
    &&& push_in_range(pl, s, pidx)
    &&& play_defined(pl, s, push_target(pl, s, pidx), r)
}

/// Whether stepping `pidx` songs lands on a song: a song is current and in the play
/// list, and the step lands inside the list without overflowing 32-bit arithmetic.
pub open spec fn push_in_range(pl: PlayerModel, s: MusicStoreModel, pidx: i32) -> bool {
    &&& pl.now_playing is Some
    &&& list_of(s, pl.play_list) is Some
    &&& has_song(list_of(s, pl.play_list).unwrap(), pl.now_playing.unwrap())
    &&& list_of(s, pl.play_list).unwrap().len() <= i32::MAX
    &&& first_match(list_of(s, pl.play_list).unwrap(), pl.now_playing.unwrap()) + pidx <= i32::MAX
    &&& 0 <= next_index(
        list_of(s, pl.play_list).unwrap().len() as int,
        first_match(list_of(s, pl.play_list).unwrap(), pl.now_playing.unwrap()),
        pidx as int,
    ) < list_of(s, pl.play_list).unwrap().len()
}

/// The player switched between playing and paused.
pub open spec fn switched(pl: PlayerModel) -> PlayerModel {
    PlayerModel {
        play_state: if pl.play_state == PlayState::Play {
            PlayState::Stop
        } else {
            PlayState::Play
        },
        ..pl
    }
}

/// The player with no song loaded.
pub open spec fn reset_player(pl: PlayerModel) -> PlayerModel {
    PlayerModel { now_playing: None, play_state: PlayState::Stop, music_name: idle_title(), ..pl }
}

/// The audio commands that unload the song: stop, show position zero, seek there.
pub open spec fn reset_commands() -> Seq<AudioCommand> {
    seq![AudioCommand::Stop, AudioCommand::ShowPosition(0), AudioCommand::SeekOrFail(0)]
}

/// The audio commands that return to the start once a song has ended.
pub open spec fn rewind_commands() -> Seq<AudioCommand> {
    seq![AudioCommand::ShowPosition(0), AudioCommand::SeekOrFail(0)]
}

/// Whether a timer tick stays within what the player can do: when the output has
/// run empty with a song loaded, the next song that the playback mode chooses
/// (the same one, the next one, or the randomly picked one) must be startable, with
/// its probe given.
pub open spec fn sync_defined(
    pl: PlayerModel,
    s: MusicStoreModel,
    empty: bool,
    pick: Option<usize>,
    rep: Option<FileReport>,
) -> bool {
    empty && pl.now_playing is Some ==> match pl.playback_type {
        PlaybackType::OnceStop => true,
        PlaybackType::OneWhile => rep is Some && play_defined(pl, s, pl.now_playing.unwrap(), &rep.unwrap()),
        PlaybackType::MusicNext => rep is Some && push_defined(pl, s, 1, &rep.unwrap()),
        PlaybackType::RadomPlay => {
            &&& list_of(s, pl.play_list) is Some
            &&& pick is Some
            &&& pick.unwrap() < list_of(s, pl.play_list).unwrap().len()
            &&& rep is Some
            &&& play_defined(pl, s, list_of(s, pl.play_list).unwrap()[pick.unwrap() as int], &rep.unwrap())
        },
    }
}

/// The outcome of a song start followed by more commands when it succeeds.
pub open spec fn then_on_success(o: PlayOutcome, more: Seq<AudioCommand>) -> PlayOutcome {
    if o.ok {
        PlayOutcome { commands: o.commands + more, ..o }
    } else {
        o
    }
}

/// What a timer tick does. The shown position is read from the output; if the
/// output still has sound nothing else happens. Otherwise, with a song loaded, the
/// playback mode decides: stop, start the same song again and resume, step to the
/// next song, or start the randomly picked song of the play list; a failed start
/// ends the tick. Then the position returns to the start.
pub open spec fn sync_spec(
    pl: PlayerModel,
    s: MusicStoreModel,
    empty: bool,
    pick: Option<usize>,
    rep: Option<FileReport>,
) -> PlayOutcome {
    let o = if !empty {
        PlayOutcome { player: pl, store: s, ok: true, commands: seq![] }
    } else {
        match pl.now_playing {
            None => PlayOutcome { player: pl, store: s, ok: true, commands: rewind_commands() },
            Some(p) => match pl.playback_type {
                PlaybackType::OnceStop => PlayOutcome {
                    player: PlayerModel { play_state: PlayState::Stop, ..pl },
                    store: s,
                    ok: true,
                    commands: rewind_commands(),
                },
                PlaybackType::OneWhile => {
                    let o1 = play_spec(pl, s, p, &rep.unwrap());
                    if o1.ok {
                        PlayOutcome {
                            player: PlayerModel { play_state: PlayState::Play, ..o1.player },
                            commands: o1.commands + seq![AudioCommand::Play] + rewind_commands(),
                            ..o1
                        }
                    } else {
                        o1
                    }
                },
                PlaybackType::MusicNext => then_on_success(
                    play_spec(pl, s, push_target(pl, s, 1), &rep.unwrap()),
                    rewind_commands(),
                ),
                PlaybackType::RadomPlay => then_on_success(
                    play_spec(pl, s, list_of(s, pl.play_list).unwrap()[pick.unwrap() as int], &rep.unwrap()),
                    rewind_commands(),
                ),
            },
        }
    };
    PlayOutcome { commands: seq![AudioCommand::ReadPosition] + o.commands, ..o }
}

/// Calls `rand::random_range` on `0..n`. Trusted: the result lies in that range
/// (the range must not be empty, else the call panics). Which value comes back is
/// left open: it is drawn at random.
#[verifier::external_body]
fn random_below(n: usize) -> (r: usize)
    requires
        n > 0,
    ensures
        r < n,
{
    rand::random_range(0..n)
}

/// The title shown for a file name (see [`display_name`]).
pub fn music_title(name: &String) -> (r: String)
    ensures
        r@ == display_name(name@),
{
    let n = name.as_str().unicode_len();
    if n > 20 {
        let head = name.as_str().substring_char(0, 20);
        let mut t = String::from_str(head);
        t.append("...");
        assert(name@.subrange(0, 20) =~= name@.take(20));
        t
    } else {
        name.clone()
    }
}

impl MusicStore {
    /// The position of the current song in the play list: the first song of the list
    /// that is the same song.
    pub fn find_music(&self, player: &Player) -> (r: usize)
        requires
            player.now_playing is Some,
            list_of(self@, player.play_list@) is Some,
            has_song(list_of(self@, player.play_list@).unwrap(), player@.now_playing.unwrap()),
        ensures
            is_first_match(list_of(self@, player.play_list@).unwrap(), player@.now_playing.unwrap(), r as int),
            r == first_match(list_of(self@, player.play_list@).unwrap(), player@.now_playing.unwrap()),
    {
        let now = match &player.now_playing {
            Some(f) => f,
            None => {
                proof {
                    assert(false);
                }
                return 0;
            },
        };
        let list = match &player.play_list {
            PlayList::AllMusic => &self.music_files,
            PlayList::Tags(t) => match self.tags.get(t) {
                Some(v) => v,
                None => {
                    proof {
                        assert(false);
                    }
                    return 0;
                },
            },
            PlayList::Artist(a) => match self.artists.get(a) {
                Some(v) => v,
                None => {
                    proof {
                        assert(false);
                    }
                    return 0;
                },
            },
        };
        match crate::store::position_of(list, now) {
            Some(i) => {
                proof {
                    crate::store::lemma_first_match_unique(
                        list_of(self@, player.play_list@).unwrap(),
                        player@.now_playing.unwrap(),
                        i as int,
                    );
                }
                i
            },
            None => {
                proof {
                    assert(false);
                }
                0
            },
        }
    }

    /// Replaces the song at a position of a play list's list.
    pub fn set_in_list(&mut self, pl: &PlayList, i: usize, f: MusicFile)
        requires
            list_of(old(self)@, pl@) is Some,
            i < list_of(old(self)@, pl@).unwrap().len(),
        ensures
            final(self)@ == with_list(old(self)@, pl@, list_of(old(self)@, pl@).unwrap().update(i as int, f@)),
    {
        match pl {
            PlayList::AllMusic => {
                let ghost before = self.music_files@;
                self.music_files.set(i, f);
                assert(crate::music_file::songs(self.music_files@) =~= crate::music_file::songs(before).update(i as int, f@));
            },
            PlayList::Tags(t) => {
                self.tags.set_file(t, i, f);
            },
            PlayList::Artist(a) => {
                self.artists.set_file(a, i, f);
            },
        }
    }
}

impl Player {
    /// The player with no song loaded, stopped, stopping after each song, walking
    /// through the whole library.
    pub open spec fn new_model() -> PlayerModel {
        PlayerModel {
            music_name: idle_title(),
            now_playing: None,
            total_music_time: 0,
            play_state: PlayState::Stop,
            playback_type: PlaybackType::OnceStop,
            play_list: PlayListModel::AllMusic,
        }
    }

    /// A player with no song loaded, stopped, stopping after each song, walking
    /// through the whole library.
    pub fn new() -> (r: Player)
        ensures
            r@ == Self::new_model(),
    {
        Player {
            total_music_time: 0,
            play_state: PlayState::Stop,
            music_name: String::from_str("TEST MUSIC TITLE"),
            now_playing: None,
            playback_type: PlaybackType::OnceStop,
            play_list: PlayList::AllMusic,
        }
    }

    /// The position `pidx` steps away from `pos` in a list of `len` songs (see
    /// [`next_index`]), computed in 32-bit arithmetic; a result before the start wraps
    /// to a large index.
    pub fn calc_next_idx(len: usize, pos: usize, pidx: i32) -> (r: usize)
        requires
            len <= i32::MAX,
            pos <= i32::MAX,
            pos + pidx <= i32::MAX,
            len > 0 || pos + pidx < 0,
        ensures
            r == next_index(len as int, pos as int, pidx as int) as usize,
            next_index(len as int, pos as int, pidx as int) >= 0 ==> r as int == next_index(
                len as int,
                pos as int,
                pidx as int,
            ),
    {
        let mut ret: i32 = pos as i32 + pidx;
        if ret < 0 {
            ret = len as i32 + pidx;
        } else {
            ret = ret % (len as i32);
        }
        if len == 0 {
            ret = 0;
        }
        ret as usize
    }

    /// Starts playing a song (see [`play_spec`]); `report` is the probe of its file.
    pub fn play_music(
        &mut self,
        p: MusicFile,
        store: &mut MusicStore,
        report: &FileReport,
        cmds: &mut Vec<AudioCommand>,
    ) -> (r: Result<(), ()>)
        requires
            play_defined(old(self)@, old(store)@, p@, report),
        ensures
            final(self)@ == play_spec(old(self)@, old(store)@, p@, report).player,
            final(store)@ == play_spec(old(self)@, old(store)@, p@, report).store,
            r is Ok == play_spec(old(self)@, old(store)@, p@, report).ok,
            final(cmds)@ == old(cmds)@ + play_spec(old(self)@, old(store)@, p@, report).commands,
    {
        let ghost p0 = p@;
        match report.open {
            OpenOutcome::Unplayable | OpenOutcome::OpenFailed => {
                assert(old(cmds)@ + seq![] =~= old(cmds)@);
                return Err(());
            },
            _ => {},
        }
        self.now_playing = Some(p.clone());
        if report.open == OpenOutcome::DecodeFailed {
            assert(old(cmds)@ + seq![] =~= old(cmds)@);
            return Err(());
        }
        self.play_state = PlayState::Play;
        let mut p = p;
        p.get_music_file_total_duration(report);
        self.total_music_time = match p.duration {
            Some(d) => d,
            None => {
                proof {
                    assert(false);
                }
                0
            },
        };
        let idx = store.find_music(self);
        p.get_music_file_total_duration(report);
        p.get_music_file_artist(report);
        store.set_in_list(&self.play_list, idx, p.clone());
        cmds.push(AudioCommand::Clear);
        cmds.push(AudioCommand::ReadPosition);
        cmds.push(AudioCommand::StartDecoded);
        cmds.push(AudioCommand::Play);
        let name = match file_name_of(&p.music) {
            Some(n) => n,
            None => {
                proof {
                    assert(false);
                }
                String::new()
            },
        };
        self.music_name = music_title(&name);
        assert(final(cmds)@ =~= old(cmds)@ + play_spec(old(self)@, old(store)@, p0, report).commands);
        Ok(())
    }
}


impl Player {
    /// Steps `pidx` songs from the current one in the play list and starts the song it
    /// lands on; `report` is the probe of that song's file.
    pub fn music_play_push(
        &mut self,
        pidx: i32,
        store: &mut MusicStore,
        report: &FileReport,
        cmds: &mut Vec<AudioCommand>,
    ) -> (r: Result<(), ()>)
        requires
            push_defined(old(self)@, old(store)@, pidx, report),
        ensures
            final(self)@ == play_spec(old(self)@, old(store)@, push_target(old(self)@, old(store)@, pidx), report).player,
            final(store)@ == play_spec(old(self)@, old(store)@, push_target(old(self)@, old(store)@, pidx), report).store,
            r is Ok == play_spec(old(self)@, old(store)@, push_target(old(self)@, old(store)@, pidx), report).ok,
            final(cmds)@ == old(cmds)@ + play_spec(
                old(self)@,
                old(store)@,
                push_target(old(self)@, old(store)@, pidx),
                report,
            ).commands,
    {
        let idx = store.find_music(self);
        let f = match store.list_for(&self.play_list) {
            Some(list) => {
                let k = Self::calc_next_idx(list.len(), idx, pidx);
                list[k].clone()
            },
            None => {
                proof {
                    assert(false);
                }
                MusicFile::default()
            },
        };
        self.play_music(f, store, report, cmds)
    }

    /// Returns the player to having no song loaded.
    pub fn player_default(&mut self, cmds: &mut Vec<AudioCommand>)
        ensures
            final(self)@ == reset_player(old(self)@),
            final(cmds)@ == old(cmds)@ + reset_commands(),
    {
        self.now_playing = None;
        cmds.push(AudioCommand::Stop);
        self.play_state = PlayState::Stop;
        cmds.push(AudioCommand::ShowPosition(0));
        cmds.push(AudioCommand::SeekOrFail(0));
        self.music_name = String::from_str("TEST MUSIC TITLE");
        assert(final(cmds)@ =~= old(cmds)@ + reset_commands());
    }

    /// Moves playback to a position in nanoseconds (a failed seek is ignored) and
    /// shows it there, in whole milliseconds.
    pub fn set_pos(&self, pos_ns: u128, cmds: &mut Vec<AudioCommand>)
        ensures
            final(cmds)@ == old(cmds)@ + seq![
                AudioCommand::Seek(pos_ns),
                AudioCommand::ShowPosition(pos_ns / 1_000_000),
            ],
    {
        cmds.push(AudioCommand::Seek(pos_ns));
        cmds.push(AudioCommand::ShowPosition(pos_ns / 1_000_000));
        assert(final(cmds)@ =~= old(cmds)@ + seq![
            AudioCommand::Seek(pos_ns),
            AudioCommand::ShowPosition(pos_ns / 1_000_000),
        ]);
    }

    /// Switches between playing and paused; returns whether it was playing.
    pub fn ps_switch(&mut self, cmds: &mut Vec<AudioCommand>) -> (r: bool)
        ensures
            r == (old(self)@.play_state == PlayState::Play),
            final(self)@ == switched(old(self)@),
            final(cmds)@ == old(cmds)@.push(if r { AudioCommand::Pause } else { AudioCommand::Play }),
    {
        match self.play_state {
            PlayState::Play => {
                cmds.push(AudioCommand::Pause);
                self.play_state = PlayState::Stop;
                true
            },
            PlayState::Stop => {
                cmds.push(AudioCommand::Play);
                self.play_state = PlayState::Play;
                false
            },
        }
    }

    /// Draws the random song position that a tick in random mode needs: when the
    /// mode is random and the play list exists and is not empty, a position inside it
    /// (chosen by chance); otherwise none.
    pub fn draw_random_pick(&self, store: &MusicStore) -> (r: Option<usize>)
        ensures
            self@.playback_type == PlaybackType::RadomPlay && list_of(store@, self@.play_list) is Some
                && list_of(store@, self@.play_list).unwrap().len() > 0 <==> r is Some,
            r is Some ==> r.unwrap() < list_of(store@, self@.play_list).unwrap().len(),
    {
        if self.playback_type != PlaybackType::RadomPlay {
            return None;
        }
        match store.list_for(&self.play_list) {
            Some(list) => {
                if list.len() > 0 {
                    Some(random_below(list.len()))
                } else {
                    None
                }
            },
            None => None,
        }
    }

    /// A timer tick (see [`sync_spec`]): `empty` is whether the audio output has run
    /// empty, `pick` the position drawn for random mode and `report` the probe of the
    /// song to start.
    pub fn sync(
        &mut self,
        store: &mut MusicStore,
        empty: bool,
        pick: Option<usize>,
        report: &Option<FileReport>,
        cmds: &mut Vec<AudioCommand>,
    ) -> (r: Result<(), ()>)
        requires
            sync_defined(old(self)@, old(store)@, empty, pick, *report),
        ensures
            final(self)@ == sync_spec(old(self)@, old(store)@, empty, pick, *report).player,
            final(store)@ == sync_spec(old(self)@, old(store)@, empty, pick, *report).store,
            r is Ok == sync_spec(old(self)@, old(store)@, empty, pick, *report).ok,
            final(cmds)@ == old(cmds)@ + sync_spec(old(self)@, old(store)@, empty, pick, *report).commands,
    {
        let ghost c0 = cmds@;
        cmds.push(AudioCommand::ReadPosition);
        if empty {
            let current = match &self.now_playing {
                Some(p) => Some(p.clone()),
                None => None,
            };
            if let Some(p) = current {
                match self.playback_type {
                    PlaybackType::OnceStop => {
                        self.play_state = PlayState::Stop;
                    },
                    PlaybackType::OneWhile => {
                        let rep = match report {
                            Some(x) => x,
                            None => {
                                proof {
                                    assert(false);
                                }
                                return Err(());
                            },
                        };
                        let res = self.play_music(p, store, rep, cmds);
                        if res.is_err() {
                            assert(cmds@ =~= c0 + sync_spec(old(self)@, old(store)@, empty, pick, *report).commands);
                            return Err(());
                        }
                        self.play_state = PlayState::Play;
                        cmds.push(AudioCommand::Play);
                    },
                    PlaybackType::MusicNext => {
                        let rep = match report {
                            Some(x) => x,
                            None => {
                                proof {
                                    assert(false);
                                }
                                return Err(());
                            },
                        };
                        let res = self.music_play_push(1, store, rep, cmds);
                        if res.is_err() {
                            assert(cmds@ =~= c0 + sync_spec(old(self)@, old(store)@, empty, pick, *report).commands);
                            return Err(());
                        }
                    },
                    PlaybackType::RadomPlay => {
                        let rep = match report {
                            Some(x) => x,
                            None => {
                                proof {
                                    assert(false);
                                }
                                return Err(());
                            },
                        };
                        let k = match pick {
                            Some(k) => k,
                            None => {
                                proof {
                                    assert(false);
                                }
                                return Err(());
                            },
                        };
                        let f = match store.list_for(&self.play_list) {
                            Some(list) => list[k].clone(),
                            None => {
                                proof {
                                    assert(false);
                                }
                                return Err(());
                            },
                        };
                        let res = self.play_music(f, store, rep, cmds);
                        if res.is_err() {
                            assert(cmds@ =~= c0 + sync_spec(old(self)@, old(store)@, empty, pick, *report).commands);
                            return Err(());
                        }
                    },
                }
            }
            cmds.push(AudioCommand::ShowPosition(0));
            cmds.push(AudioCommand::SeekOrFail(0));
        }
        assert(cmds@ =~= c0 + sync_spec(old(self)@, old(store)@, empty, pick, *report).commands);
        Ok(())
    }
}

impl MusicStore {
    /// The list of songs of a play list, if the list exists.
    pub fn list_for(&self, pl: &PlayList) -> (r: Option<&Vec<MusicFile>>)
        ensures
            match r {
                Some(v) => list_of(self@, pl@) == Some(crate::music_file::songs(v@)),
                None => list_of(self@, pl@) is None,
            },
    {
        match pl {
            PlayList::AllMusic => Some(&self.music_files),
            PlayList::Tags(t) => self.tags.get(t),
            PlayList::Artist(a) => self.artists.get(a),
        }
    }

    /// Deletes a tag; a player walking through that tag unloads its song.
    pub fn remove_tag(&mut self, player: &mut Player, tag: String, cmds: &mut Vec<AudioCommand>)
        ensures
            final(self)@ == (MusicStoreModel { tags: old(self)@.tags.remove(tag@), ..old(self)@ }),
            old(player)@.play_list == PlayListModel::Tags(tag@) ==> final(player)@ == reset_player(old(player)@)
                && final(cmds)@ == old(cmds)@ + reset_commands(),
            old(player)@.play_list != PlayListModel::Tags(tag@) ==> final(player)@ == old(player)@
                && final(cmds)@ == old(cmds)@,
    {
        self.tags.remove(&tag);
        let walks_tag = match &player.play_list {
            PlayList::Tags(tx) => *tx == tag,
            _ => false,
        };
        if walks_tag {
            player.player_default(cmds);
        }
    }

    /// Takes a song out of a tag (its first occurrence); a player whose current song
    /// is that song unloads it.
    pub fn remove_music_from_tag(
        &mut self,
        player: &mut Player,
        tag: &String,
        music_file: MusicFile,
        cmds: &mut Vec<AudioCommand>,
    )
        requires
            old(self)@.tags.contains_key(tag@),
            has_song(old(self)@.tags[tag@], music_file@),
        ensures
            final(self)@ == (MusicStoreModel {
                tags: old(self)@.tags.insert(
                    tag@,
                    old(self)@.tags[tag@].remove(first_match(old(self)@.tags[tag@], music_file@)),
                ),
                ..old(self)@
            }),
            (old(player)@.now_playing matches Some(x) && MusicFile::same_song(x, music_file@))
                ==> final(player)@ == reset_player(old(player)@) && final(cmds)@ == old(cmds)@ + reset_commands(),
            !(old(player)@.now_playing matches Some(x) && MusicFile::same_song(x, music_file@))
                ==> final(player)@ == old(player)@ && final(cmds)@ == old(cmds)@,
    {
        let idx = match self.tags.get(tag) {
            Some(v) => match crate::store::position_of(v, &music_file) {
                Some(i) => i,
                None => {
                    proof {
                        assert(false);
                    }
                    return ;
                },
            },
            None => {
                proof {
                    assert(false);
                }
                return ;
            },
        };
        proof {
            crate::store::lemma_first_match_unique(old(self)@.tags[tag@], music_file@, idx as int);
        }
        self.tags.remove_file(tag, idx);
        let is_current = match &player.now_playing {
            Some(x) => *x == music_file,
            None => false,
        };
        if is_current {
            player.player_default(cmds);
        }
    }
}


/// Whether song `p` can be started from play list `list` (see [`play_defined_in`]).
pub fn list_can_play(store: &MusicStore, list: &PlayList, p: &MusicFile, report: &FileReport) -> (r: bool)
    ensures
        r == play_defined_in(store@, list@, p@, report),
{
    if report.open != OpenOutcome::Ready {
        return true;
    }
    match store.list_for(list) {
        Some(l) => {
            match crate::store::position_of(l, p) {
                Some(i) => {
                    proof {
                        crate::store::lemma_first_match_unique(crate::music_file::songs(l@), p@, i as int);
                    }
                    file_name_of(&p.music).is_some()
                },
                None => false,
            }
        },
        None => false,
    }
}

impl Player {
    /// The song `pidx` steps away from the current one, when the step lands on one
    /// (see [`push_in_range`] and [`push_target`]).
    pub fn push_target_file(&self, store: &MusicStore, pidx: i32) -> (r: Option<MusicFile>)
        ensures
            r is Some <==> push_in_range(self@, store@, pidx),
            r matches Some(f) ==> f@ == push_target(self@, store@, pidx),
    {
        let now = match &self.now_playing {
            Some(f) => f,
            None => return None,
        };
        let l = match store.list_for(&self.play_list) {
            Some(l) => l,
            None => return None,
        };
        let k = match crate::store::position_of(l, now) {
            Some(k) => k,
            None => return None,
        };
        proof {
            crate::store::lemma_first_match_unique(crate::music_file::songs(l@), now@, k as int);
        }
        let len = l.len();
        if len > 2147483647 {
            return None;
        }
        let ki = k as i64;
        let pi = pidx as i64;
        let li = len as i64;
        if ki + pi > 2147483647 {
            return None;
        }
        if ki + pi < 0 && li + pi < 0 {
            return None;
        }
        let j = Self::calc_next_idx(len, k, pidx);
        if j < len {
            Some(l[j].clone())
        } else {
            None
        }
    }

    /// Whether stepping `pidx` songs is possible and the song it lands on can be
    /// started (see [`push_defined`]).
    pub fn can_push(&self, store: &MusicStore, pidx: i32, report: &FileReport) -> (r: bool)
        ensures
            r == push_defined(self@, store@, pidx, report),
    {
        match self.push_target_file(store, pidx) {
            Some(f) => list_can_play(store, &self.play_list, &f, report),
            None => false,
        }
    }
}

} // verus!
