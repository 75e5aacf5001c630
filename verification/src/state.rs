//! The small value types shared by the player, the library and the interface:
//! play lists, playback modes, pages, messages and audio commands.

use vstd::prelude::*;
use vstd::string::*;
use crate::music_file::{MusicFile, FileReport};
use crate::settings::SettingKeys;

verus! {

/// Which list of songs playback walks through.
#[derive(Debug)]
pub enum PlayList {
    AllMusic,
    Tags(String),
    Artist(String),
}

/// The mathematical value of a [`PlayList`].
pub enum PlayListModel {
    AllMusic,
    Tags(Seq<char>),
    Artist(Seq<char>),
}

impl View for PlayList {
    type V = PlayListModel;

    open spec fn view(&self) -> PlayListModel {
        match self {
            PlayList::AllMusic => PlayListModel::AllMusic,
            PlayList::Tags(t) => PlayListModel::Tags(t@),
            PlayList::Artist(a) => PlayListModel::Artist(a@),
        }
    }
}

impl Clone for PlayList {
    fn clone(&self) -> (r: Self)
        ensures
            r@ == self@,
    {
        match self {
            PlayList::AllMusic => PlayList::AllMusic,
            PlayList::Tags(t) => PlayList::Tags(t.clone()),
            PlayList::Artist(a) => PlayList::Artist(a.clone()),
        }
    }
}

/// What happens when a song ends.
#[derive(PartialEq, Eq, Structural, Clone, Copy, Debug)]
pub enum PlaybackType {
    OnceStop,
    OneWhile,
    MusicNext,
    RadomPlay,
}

impl PlaybackType {
    /// The name shown for the mode.
    pub open spec fn label_text(self) -> Seq<char> {
        match self {
            PlaybackType::OnceStop => "单曲即停"@,
            PlaybackType::OneWhile => "单曲循环"@,
            PlaybackType::MusicNext => "下一曲"@,
            PlaybackType::RadomPlay => "随机播放"@,
        }
    }

    /// The name shown for the mode, as text.
    pub fn label(&self) -> (r: String)
        ensures
            r@ == self.label_text(),
    {
        match self {
            PlaybackType::OnceStop => String::from_str("单曲即停"),
            PlaybackType::OneWhile => String::from_str("单曲循环"),
            PlaybackType::MusicNext => String::from_str("下一曲"),
            PlaybackType::RadomPlay => String::from_str("随机播放"),
        }
    }
}

/// Whether the player is playing.
#[derive(PartialEq, Eq, Structural, Clone, Copy, Debug)]
pub enum PlayState {
    Stop,
    Play,
}

/// The page the interface shows.
#[derive(Debug)]
pub enum UiView {
    MainView,
    TagsView,
    TagView(String),
    SearchView,
    SettingsView,
    ArtistsView,
    ArtistView(String),
}

/// The mathematical value of a [`UiView`].
pub enum UiViewModel {
    MainView,
    TagsView,
    TagView(Seq<char>),
    SearchView,
    SettingsView,
    ArtistsView,
    ArtistView(Seq<char>),
}

impl View for UiView {
    type V = UiViewModel;

    open spec fn view(&self) -> UiViewModel {
        match self {
            UiView::MainView => UiViewModel::MainView,
            UiView::TagsView => UiViewModel::TagsView,
            UiView::TagView(t) => UiViewModel::TagView(t@),
            UiView::SearchView => UiViewModel::SearchView,
            UiView::SettingsView => UiViewModel::SettingsView,
            UiView::ArtistsView => UiViewModel::ArtistsView,
            UiView::ArtistView(a) => UiViewModel::ArtistView(a@),
        }
    }
}

impl Clone for UiView {
    fn clone(&self) -> (r: Self)
        ensures
            r@ == self@,
    {
        match self {
            UiView::MainView => UiView::MainView,
            UiView::TagsView => UiView::TagsView,
            UiView::TagView(t) => UiView::TagView(t.clone()),
            UiView::SearchView => UiView::SearchView,
            UiView::SettingsView => UiView::SettingsView,
            UiView::ArtistsView => UiView::ArtistsView,
            UiView::ArtistView(a) => UiView::ArtistView(a.clone()),
        }
    }
}

impl UiView {
    /// Whether two pages are the same page.
    pub fn same_page(&self, other: &UiView) -> (r: bool)
        ensures
            r == (self@ == other@),
    {
        match (self, other) {
            (UiView::MainView, UiView::MainView) => true,
            (UiView::TagsView, UiView::TagsView) => true,
            (UiView::TagView(a), UiView::TagView(b)) => *a == *b,
            (UiView::SearchView, UiView::SearchView) => true,
            (UiView::SettingsView, UiView::SettingsView) => true,
            (UiView::ArtistsView, UiView::ArtistsView) => true,
            (UiView::ArtistView(a), UiView::ArtistView(b)) => *a == *b,
            _ => false,
        }
    }
}

/// What the user did in the interface. Positions are in milliseconds; folders are
/// path texts.
#[derive(Clone, Debug)]
pub enum UiMessage {
    OnValueChanged(u64),
    PlayMusic(MusicFile),
    OnReleaseSlider,
    OnPSSwitchClicked,
    CloseMusicOpenFailureMsg,
    OnPlaybackTypeChanged(PlaybackType),
    SwitchSideBarShow,
    GoView(UiView),
    OpenSetTagMsg(MusicFile),
    AddTagTo(String, MusicFile),
    CloseSetTag,
    WhenNewTagType(String),
    OpenNewTagMsg,
    CloseNewTagMsg,
    AddTag,
    NextMusic,
    PrevMusic,
    RemoveMusicFromTag(MusicFile),
    RemoveTag(String),
    WhenSearchTextType(String),
    WhenExpSearchOriginClicked,
    WhenSettingChanged(SettingKeys),
    DeleteOriginPath(String),
    OnAddSearchOriginClicked,
}

/// What the timers and the window report.
#[derive(PartialEq, Eq, Structural, Clone, Copy, Debug)]
pub enum BackendMessage {
    Sync,
    CloseSave,
    ReadFileData,
}

/// Any message the program handles.
#[derive(Clone, Debug)]
pub enum Message {
    Ui(UiMessage),
    Backend(BackendMessage),
}

/// A command for the audio output, carried out by the embedding program in the
/// order given. The volume is in percent. `StartDecoded` appends the source decoded
/// when the file to play was probed; `ReadPosition` sets the shown position to the
/// output's current position and `ShowPosition` sets it to the given one, in
/// milliseconds; `SeekOrFail` seeks to a position in milliseconds and gives up
/// (panics) when seeking fails; `Seek` seeks to a position in nanoseconds and
/// ignores a failure.
#[derive(PartialEq, Eq, Structural, Clone, Copy, Debug)]
pub enum AudioCommand {
    Pause,
    Play,
    Stop,
    Clear,
    StartDecoded,
    ReadPosition,
    ShowPosition(u128),
    SeekOrFail(u64),
    Seek(u128),
    SetVolume(u32),
}

/// The files that a folder holds, as the embedding program listed them: the paths
/// of its entries that are regular files, in listing order.
pub struct DirListing {
    pub origin: String,
    pub files: Vec<String>,
}

/// What the embedding program observed for one update.
pub struct Facts {
    /// The probe of the file that the update opens, if it opens one.
    pub report: Option<FileReport>,
    /// Listings of folders.
    pub listings: Vec<DirListing>,
    /// The folder picked in the folder dialog, if one was picked.
    pub picked_folder: Option<String>,
    /// Whether the audio output has nothing left to play.
    pub player_empty: bool,
    /// The audio output's current position, in nanoseconds.
    pub position_ns: u128,
    /// The index drawn for random playback, if one was drawn.
    pub random_pick: Option<usize>,
}

} // verus!
