//! The saved settings.

use vstd::prelude::*;
use crate::music_file::{MusicFile, MusicFileModel};
use crate::player::Player;
use crate::state::{PlayList, PlayListModel, PlaybackType};
use crate::store::MusicStore;
use crate::tag_map::{TagMap, texts};

verus! {

/// One setting the user can change. The volume is in percent.
#[derive(PartialEq, Eq, Structural, Clone, Copy, Debug)]
pub enum SettingKeys {
    ShowSideBar(bool),
    Volume(u32),
    KeepPlayState(bool),
}

/// What is saved between runs. The volume is in percent; the position is in
/// nanoseconds.
pub struct Settings {
    pub show_side_bar: bool,
    pub volume: u32,
    pub search_origin: Vec<String>,
    pub tags: TagMap,
    pub last_music: Option<MusicFile>,
    pub last_position: u128,
    pub last_playback: PlaybackType,
    pub last_playlist: PlayList,
    pub keep_state: bool,
    pub artist: TagMap,
}

/// The mathematical value of [`Settings`].
pub struct SettingsModel {
    pub show_side_bar: bool,
    pub volume: u32,
    pub search_origin: Seq<Seq<char>>,
    pub tags: Map<Seq<char>, Seq<MusicFileModel>>,
    pub last_music: Option<MusicFileModel>,
    pub last_position: u128,
    pub last_playback: PlaybackType,
    pub last_playlist: PlayListModel,
    pub keep_state: bool,
    pub artist: Map<Seq<char>, Seq<MusicFileModel>>,
}

impl View for Settings {
    type V = SettingsModel;

    open spec fn view(&self) -> SettingsModel {
        SettingsModel {
            show_side_bar: self.show_side_bar,
            volume: self.volume,
            search_origin: texts(self.search_origin@),
            tags: self.tags@,
            last_music: match self.last_music {
                Some(f) => Some(f@),
                None => None,
            },
            last_position: self.last_position,
            last_playback: self.last_playback,
            last_playlist: self.last_playlist@,
            keep_state: self.keep_state,
            artist: self.artist@,
        }
    }
}

/// Copies an optional song.
pub fn clone_opt_song(o: &Option<MusicFile>) -> (r: Option<MusicFile>)
    ensures
        match (r, *o) {
            (Some(a), Some(b)) => a@ == b@,
            (None, None) => true,
            _ => false,
        },
{
    match o {
        Some(f) => Some(f.clone()),
        None => None,
    }
}

/// The settings after one change.
pub open spec fn setting_applied(s: SettingsModel, key: SettingKeys) -> SettingsModel {
    match key {
        SettingKeys::ShowSideBar(b) => SettingsModel { show_side_bar: b, ..s },
        SettingKeys::Volume(v) => SettingsModel { volume: v, ..s },
        SettingKeys::KeepPlayState(b) => SettingsModel { keep_state: b, ..s },
    }
}

impl Default for Settings {
    /// No side bar, full volume, the user's music folder as the one search folder, no
    /// tags or artists, no last song at position zero, stop after each song, the whole
    /// library, and the play state not kept.
    fn default() -> (r: Settings)
        ensures
            r@.show_side_bar == false,
            r@.volume == 100,
            r@.search_origin.len() == 1,
            r@.tags == Map::<Seq<char>, Seq<MusicFileModel>>::empty(),
            r@.last_music is None,
            r@.last_position == 0,
            r@.last_playback == PlaybackType::OnceStop,
            r@.last_playlist == PlayListModel::AllMusic,
            r@.keep_state == false,
            r@.artist == Map::<Seq<char>, Seq<MusicFileModel>>::empty(),
    {
        let mut origins: Vec<String> = Vec::new();
        origins.push(MusicStore::get_music_file());
        Settings {
            show_side_bar: false,
            volume: 100,
            search_origin: origins,
            tags: TagMap::new(),
            last_music: None,
            last_position: 0,
            last_playback: PlaybackType::OnceStop,
            last_playlist: PlayList::AllMusic,
            keep_state: false,
            artist: TagMap::new(),
        }
    }
}

impl Settings {
    /// Applies one change.
    pub fn set_setting(&mut self, key: SettingKeys)
        ensures
            final(self)@ == setting_applied(old(self)@, key),
    {
        match key {
            SettingKeys::ShowSideBar(b) => self.show_side_bar = b,
            SettingKeys::Volume(v) => self.volume = v,
            SettingKeys::KeepPlayState(b) => self.keep_state = b,
        }
    }

    /// The settings to save: the library's folders, tags and artists and the player's
    /// song, mode and list, with the output's position; the rest as now.
    pub fn save(&self, store: &MusicStore, player: &Player, position_ns: u128) -> (r: Settings)
        ensures
            r@ == (SettingsModel {
                search_origin: store@.search_origin,
                tags: store@.tags,
                last_music: player@.now_playing,
                last_position: position_ns,
                last_playback: player@.playback_type,
                last_playlist: player@.play_list,
                artist: store@.artists,
                ..self@
            }),
    {
        Settings {
            search_origin: crate::store::clone_texts(&store.search_origin),
            tags: store.tags.duplicate(),
            last_music: clone_opt_song(&player.now_playing),
            last_position: position_ns,
            last_playback: player.playback_type,
            last_playlist: player.play_list.clone(),
            artist: store.artists.duplicate(),
            show_side_bar: self.show_side_bar,
            volume: self.volume,
            keep_state: self.keep_state,
        }
    }
}

} // verus!
