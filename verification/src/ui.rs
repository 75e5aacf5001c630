//! The state of the user interface and how it reacts to what the user does.

use vstd::prelude::*;
use vstd::string::*;
use crate::music_file::{MusicFile, MusicFileModel};
use crate::paths::{opt_text, path_parent, paths_equal, parent_of, same_path};
use crate::player::{
    PlayOutcome, Player, PlayerModel, play_defined, play_spec, push_defined, push_target,
    reset_commands, reset_player,
};
use crate::settings::{SettingKeys, Settings, SettingsModel, setting_applied};
use crate::state::{
    AudioCommand, DirListing, Facts, PlayList, PlayListModel, PlayState, UiMessage, UiView,
    UiViewModel,
};
use crate::store::{
    MusicStore, MusicStoreModel, first_match, has_song, new_songs, scanned, tagged_result,
    without_path,
};

verus! {

/// The state of the user interface.
pub struct Ui {
    /// The song whose tags are being edited.
    pub operate_files: Option<MusicFile>,
    /// Whether the user paused playback (releasing the position slider then does not
    /// resume it).
    pub force_stop: bool,
    pub show_music_open_failure: bool,
    pub side_bar_show: bool,
    pub view: UiView,
    pub show_set_tag_modal: bool,
    pub new_tag: String,
    pub show_new_tag_modal: bool,
    pub search_text: String,
    pub show_exp_search_origin: bool,
}

/// The mathematical value of a [`Ui`].
pub struct UiModel {
    pub operate_files: Option<MusicFileModel>,
    pub force_stop: bool,
    pub show_music_open_failure: bool,
    pub side_bar_show: bool,
    pub view: UiViewModel,
    pub show_set_tag_modal: bool,
    pub new_tag: Seq<char>,
    pub show_new_tag_modal: bool,
    pub search_text: Seq<char>,
    pub show_exp_search_origin: bool,
}

impl View for Ui {
    type V = UiModel;

    open spec fn view(&self) -> UiModel {
        UiModel {
            operate_files: match self.operate_files {
                Some(f) => Some(f@),
                None => None,
            },
            force_stop: self.force_stop,
            show_music_open_failure: self.show_music_open_failure,
            side_bar_show: self.side_bar_show,
            view: self.view@,
            show_set_tag_modal: self.show_set_tag_modal,
            new_tag: self.new_tag@,
            show_new_tag_modal: self.show_new_tag_modal,
            search_text: self.search_text@,
            show_exp_search_origin: self.show_exp_search_origin,
        }
    }
}

/// Helpers for the widgets shared by several pages.
pub struct CommonWidget {}

impl CommonWidget {
    /// What a side-bar button for `view` sends: nothing while that page is shown,
    /// else a request to show it.
    pub fn side_bar_target(env: &Ui, view: UiView) -> (r: Option<UiMessage>)
        ensures
            r is None <==> env.view@ == view@,
            r matches Some(m) ==> (m matches UiMessage::GoView(v) && v@ == view@),
    {
        if view.same_page(&env.view) {
            None
        } else {
            Some(UiMessage::GoView(view))
        }
    }
}

/// The character of a decimal digit.
pub open spec fn digit_char(d: nat) -> char {
    if d == 0 {
        '0'
    } else if d == 1 {
        '1'
    } else if d == 2 {
        '2'
    } else if d == 3 {
        '3'
    } else if d == 4 {
        '4'
    } else if d == 5 {
        '5'
    } else if d == 6 {
        '6'
    } else if d == 7 {
        '7'
    } else if d == 8 {
        '8'
    } else {
        '9'
    }
}

/// The decimal notation of a number, without leading zeros.
pub open spec fn decimal(n: nat) -> Seq<char>
    decreases n,
{
    if n < 10 {
        seq![digit_char(n)]
    } else {
        decimal(n / 10).push(digit_char(n % 10))
    }
}

/// A play time in seconds as minutes, a colon and two-digit seconds.
pub open spec fn clock_text(seconds: nat) -> Seq<char> {
    decimal(seconds / 60) + ":"@ + if seconds % 60 < 10 {
        "0"@ + decimal(seconds % 60)
    } else {
        decimal(seconds % 60)
    }
}

fn digit_text(d: u64) -> (r: &'static str)
    requires
        d < 10,
    ensures
        r@ == seq![digit_char(d as nat)],
{
    proof {
        reveal_strlit("0");
        reveal_strlit("1");
        reveal_strlit("2");
        reveal_strlit("3");
        reveal_strlit("4");
        reveal_strlit("5");
        reveal_strlit("6");
        reveal_strlit("7");
        reveal_strlit("8");
        reveal_strlit("9");
    }
    if d == 0 {
        "0"
    } else if d == 1 {
        "1"
    } else if d == 2 {
        "2"
    } else if d == 3 {
        "3"
    } else if d == 4 {
        "4"
    } else if d == 5 {
        "5"
    } else if d == 6 {
        "6"
    } else if d == 7 {
        "7"
    } else if d == 8 {
        "8"
    } else {
        "9"
    }
}

fn append_decimal(s: &mut String, n: u64)
    ensures
        final(s)@ == old(s)@ + decimal(n as nat),
    decreases n,
{
    if n >= 10 {
        append_decimal(s, n / 10);
    }
    s.append(digit_text(n % 10));
    assert(final(s)@ =~= old(s)@ + decimal(n as nat));
}

/// The whole seconds of a play time in nanoseconds, held to what a `u64` holds.
pub open spec fn whole_seconds(ns: u128) -> u64 {
    if ns / 1_000_000_000 > u64::MAX {
        u64::MAX
    } else {
        (ns / 1_000_000_000) as u64
    }
}

/// Writes a play time in seconds as minutes, a colon and two-digit seconds.
pub fn format_time(seconds: u64) -> (r: String)
    ensures
        r@ == clock_text(seconds as nat),
{
    let mut s = String::new();
    append_decimal(&mut s, seconds / 60);
    s.append(":");
    if seconds % 60 < 10 {
        s.append("0");
    }
    append_decimal(&mut s, seconds % 60);
    assert(s@ =~= clock_text(seconds as nat));
    s
}


/// What an interface update does to everything it touches, and the audio commands
/// it gives.
pub struct UiOutcome {
    pub ui: UiModel,
    pub player: PlayerModel,
    pub store: MusicStoreModel,
    pub settings: SettingsModel,
    pub commands: Seq<AudioCommand>,
}

/// The play list that starting a song from a page walks through: the page's tag or
/// artist, the whole library from the library and search pages, and otherwise the
/// current one.
pub open spec fn list_for_page(page: UiViewModel, current: PlayListModel) -> PlayListModel {
    match page {
        UiViewModel::TagView(t) => PlayListModel::Tags(t),
        UiViewModel::MainView => PlayListModel::AllMusic,
        UiViewModel::SearchView => PlayListModel::AllMusic,
        UiViewModel::ArtistView(a) => PlayListModel::Artist(a),
        _ => current,
    }
}

/// Whether the facts carry the probe of song `f`'s file.
pub open spec fn report_matches(facts: &Facts, f: MusicFileModel) -> bool {
    facts.report is Some && facts.report.unwrap().path@ == f.music
}

/// The result of starting a song from the interface: a failed start shows the
/// failure notice.
pub open spec fn after_play(u: UiModel, st: SettingsModel, o: PlayOutcome) -> UiOutcome {
    UiOutcome {
        ui: if o.ok {
            u
        } else {
            UiModel { show_music_open_failure: true, ..u }
        },
        player: o.player,
        store: o.store,
        settings: st,
        commands: o.commands,
    }
}

/// Whether the current song lies directly in folder `p`.
pub open spec fn plays_from_folder(pl: PlayerModel, p: Seq<char>) -> bool {
    pl.now_playing matches Some(val) && path_parent(val.music) matches Some(par) && same_path(par, p)
}

/// Whether an interface update stays within what the program can do: a song to
/// start must be startable and its probe given; a song to tag must have its probe
/// given; a step to the previous or next song must be possible with the probe of
/// the song it lands on; a song to take out of the shown tag must be in it.
pub open spec fn ui_update_defined(
    u: UiModel,
    pl: PlayerModel,
    s: MusicStoreModel,
    msg: &UiMessage,
    facts: &Facts,
) -> bool {
    match msg {
        UiMessage::PlayMusic(p) => report_matches(facts, p@) && play_defined(
            PlayerModel { play_list: list_for_page(u.view, pl.play_list), ..pl },
            s,
            p@,
            &facts.report.unwrap(),
        ),
        UiMessage::AddTagTo(_, p) => report_matches(facts, p@),
        UiMessage::PrevMusic => facts.report is Some && push_defined(pl, s, -1i32, &facts.report.unwrap())
            && report_matches(facts, push_target(pl, s, -1i32)),
        UiMessage::NextMusic => facts.report is Some && push_defined(pl, s, 1, &facts.report.unwrap())
            && report_matches(facts, push_target(pl, s, 1)),
        UiMessage::RemoveMusicFromTag(p) => u.view matches UiViewModel::TagView(t) ==> (
        s.tags.contains_key(t) && has_song(s.tags[t], p@)),
        _ => true,
    }
}

/// What an interface update does.
pub open spec fn ui_update_spec(
    u: UiModel,
    pl: PlayerModel,
    s: MusicStoreModel,
    st: SettingsModel,
    msg: &UiMessage,
    facts: &Facts,
) -> UiOutcome {
    let same = UiOutcome { ui: u, player: pl, store: s, settings: st, commands: seq![] };
    match msg {
        UiMessage::OnValueChanged(x) => UiOutcome {
            player: PlayerModel { play_state: PlayState::Stop, ..pl },
            commands: seq![
                AudioCommand::Pause,
                AudioCommand::ShowPosition(*x as u128),
                AudioCommand::SeekOrFail(*x),
            ],
            ..same
        },
        UiMessage::PlayMusic(p) => after_play(
            u,
            st,
            play_spec(
                PlayerModel { play_list: list_for_page(u.view, pl.play_list), ..pl },
                s,
                p@,
                &facts.report.unwrap(),
            ),
        ),
        UiMessage::OnReleaseSlider => if !u.force_stop {
            UiOutcome {
                player: PlayerModel { play_state: PlayState::Play, ..pl },
                commands: seq![AudioCommand::Play],
                ..same
            }
        } else {
            same
        },
        UiMessage::OnPSSwitchClicked => {
            let was_playing = pl.play_state == PlayState::Play;
            UiOutcome {
                ui: UiModel { force_stop: was_playing, ..u },
                player: PlayerModel {
                    play_state: if was_playing {
                        PlayState::Stop
                    } else {
                        PlayState::Play
                    },
                    ..pl
                },
                commands: seq![
                    if was_playing {
                        AudioCommand::Pause
                    } else {
                        AudioCommand::Play
                    },
                ],
                ..same
            }
        },
        UiMessage::CloseMusicOpenFailureMsg => UiOutcome {
            ui: UiModel { show_music_open_failure: false, ..u },
            ..same
        },
        UiMessage::OnPlaybackTypeChanged(t) => UiOutcome {
            player: PlayerModel { playback_type: *t, ..pl },
            ..same
        },
        UiMessage::SwitchSideBarShow => UiOutcome {
            ui: UiModel { side_bar_show: !u.side_bar_show, ..u },
            ..same
        },
        UiMessage::GoView(v) => UiOutcome {
            ui: UiModel { view: v@, side_bar_show: false, ..u },
            ..same
        },
        UiMessage::OpenSetTagMsg(p) => UiOutcome {
            ui: UiModel { show_set_tag_modal: true, operate_files: Some(p@), ..u },
            ..same
        },
        UiMessage::AddTagTo(t, p) => UiOutcome {
            ui: UiModel { show_set_tag_modal: false, ..u },
            store: MusicStoreModel {
                tags: tagged_result(s.tags, t@, p@, &facts.report.unwrap()),
                ..s
            },
            ..same
        },
        UiMessage::CloseSetTag => UiOutcome { ui: UiModel { show_set_tag_modal: false, ..u }, ..same },
        UiMessage::WhenNewTagType(t) => UiOutcome { ui: UiModel { new_tag: t@, ..u }, ..same },
        UiMessage::OpenNewTagMsg => UiOutcome { ui: UiModel { show_new_tag_modal: true, ..u }, ..same },
        UiMessage::CloseNewTagMsg => UiOutcome {
            ui: UiModel { show_new_tag_modal: false, new_tag: Seq::empty(), ..u },
            ..same
        },
        UiMessage::AddTag => UiOutcome {
            ui: UiModel { show_new_tag_modal: false, new_tag: Seq::empty(), ..u },
            store: MusicStoreModel { tags: s.tags.insert(u.new_tag, Seq::empty()), ..s },
            ..same
        },
        UiMessage::PrevMusic => after_play(u, st, play_spec(pl, s, push_target(pl, s, -1i32), &facts.report.unwrap())),
        UiMessage::NextMusic => after_play(u, st, play_spec(pl, s, push_target(pl, s, 1), &facts.report.unwrap())),
        UiMessage::RemoveMusicFromTag(p) => match u.view {
            UiViewModel::TagView(t) => {
                let hit = pl.now_playing matches Some(x) && MusicFile::same_song(x, p@);
                UiOutcome {
                    store: MusicStoreModel {
                        tags: s.tags.insert(t, s.tags[t].remove(first_match(s.tags[t], p@))),
                        ..s
                    },
                    player: if hit {
                        reset_player(pl)
                    } else {
                        pl
                    },
                    commands: if hit {
                        reset_commands()
                    } else {
                        seq![]
                    },
                    ..same
                }
            },
            _ => same,
        },
        UiMessage::RemoveTag(t) => {
            let hit = pl.play_list == PlayListModel::Tags(t@);
            UiOutcome {
                ui: UiModel { view: UiViewModel::TagsView, ..u },
                store: MusicStoreModel { tags: s.tags.remove(t@), ..s },
                player: if hit {
                    reset_player(pl)
                } else {
                    pl
                },
                commands: if hit {
                    reset_commands()
                } else {
                    seq![]
                },
                ..same
            }
        },
        UiMessage::WhenSearchTextType(t) => UiOutcome { ui: UiModel { search_text: t@, ..u }, ..same },
        UiMessage::WhenExpSearchOriginClicked => UiOutcome {
            ui: UiModel { show_exp_search_origin: !u.show_exp_search_origin, ..u },
            ..same
        },
        UiMessage::WhenSettingChanged(k) => UiOutcome {
            settings: setting_applied(st, *k),
            commands: match k {
                SettingKeys::Volume(v) => seq![AudioCommand::SetVolume(*v)],
                _ => seq![],
            },
            ..same
        },
        UiMessage::DeleteOriginPath(p) => {
            let hit = plays_from_folder(pl, p@);
            let origins = without_path(s.search_origin, p@);
            UiOutcome {
                player: if hit {
                    reset_player(pl)
                } else {
                    pl
                },
                store: MusicStoreModel {
                    search_origin: origins,
                    music_files: new_songs(scanned(origins, facts.listings@)),
                    artists: Map::empty(),
                    idx: 0,
                    is_read: true,
                    ..s
                },
                commands: if hit {
                    reset_commands()
                } else {
                    seq![]
                },
                ..same
            }
        },
        UiMessage::OnAddSearchOriginClicked => match facts.picked_folder {
            Some(pat) => {
                let known = exists|j: int|
                    0 <= j < s.search_origin.len() && same_path(#[trigger] s.search_origin[j], pat@);
                let origins = s.search_origin.push(pat@);
                UiOutcome {
                    store: if known {
                        MusicStoreModel { idx: 0, is_read: true, ..s }
                    } else {
                        MusicStoreModel {
                            search_origin: origins,
                            music_files: s.music_files + new_songs(scanned(origins, facts.listings@)),
                            idx: 0,
                            is_read: true,
                            ..s
                        }
                    },
                    ..same
                }
            },
            None => same,
        },
    }
}


impl Default for Ui {
    /// The library page, with no notice, dialog, side bar or text shown.
    fn default() -> (r: Ui)
        ensures
            r@ == Ui::default_model(),
    {
        Ui {
            operate_files: None,
            force_stop: false,
            show_music_open_failure: false,
            side_bar_show: false,
            view: UiView::MainView,
            show_set_tag_modal: false,
            new_tag: String::new(),
            show_new_tag_modal: false,
            search_text: String::new(),
            show_exp_search_origin: false,
        }
    }
}

impl Ui {
    /// The library page, with no notice, dialog, side bar or text shown.
    pub open spec fn default_model() -> UiModel {
        UiModel {
            operate_files: None,
            force_stop: false,
            show_music_open_failure: false,
            side_bar_show: false,
            view: UiViewModel::MainView,
            show_set_tag_modal: false,
            new_tag: Seq::empty(),
            show_new_tag_modal: false,
            search_text: Seq::empty(),
            show_exp_search_origin: false,
        }
    }

    /// The play time shown on a song's card: whole minutes and seconds (at most as
    /// many seconds as a `u64` holds), or `--:--` while it is unknown.
    pub fn card_time(f: &MusicFile) -> (r: String)
        ensures
            r@ == match f@.duration {
                Some(ns) => clock_text(whole_seconds(ns) as nat),
                None => "--:--"@,
            },
    {
        match f.duration {
            Some(ns) => {
                let secs = ns / 1_000_000_000;
                let s: u64 = if secs > u64::MAX as u128 {
                    u64::MAX
                } else {
                    secs as u64
                };
                format_time(s)
            },
            None => {
                let mut s = String::new();
                s.append("--:--");
                proof {
                    reveal_strlit("--:--");
                }
                assert(s@ =~= "--:--"@);
                s
            },
        }
    }

    /// The artist shown on a song's card, or `--` while it is unknown.
    pub fn card_artist(f: &MusicFile) -> (r: String)
        ensures
            r@ == match f@.artist {
                Some(a) => a,
                None => "--"@,
            },
    {
        match &f.artist {
            Some(a) => a.clone(),
            None => {
                let mut s = String::new();
                s.append("--");
                proof {
                    reveal_strlit("--");
                }
                assert(s@ =~= "--"@);
                s
            },
        }
    }

    /// Whether a song's card offers taking it out of the shown tag: only on a tag
    /// page.
    pub fn card_removable(&self) -> (r: bool)
        ensures
            r == (self@.view is TagView),
    {
        match &self.view {
            UiView::TagView(_) => true,
            _ => false,
        }
    }

    /// Whether the buttons for the previous and next song are enabled: only while a
    /// song is loaded.
    pub fn skip_enabled(player: &Player) -> (r: bool)
        ensures
            r == player@.now_playing is Some,
    {
        player.now_playing.is_some()
    }

    /// What the button of tag `k` in the tag dialog sends: nothing when the tag
    /// already holds the song being edited, else a request to tag it (an unnamed
    /// empty song stands in when none is being edited).
    pub fn check_music_in_tag(&self, store: &MusicStore, k: &String) -> (r: Option<UiMessage>)
        ensures
            ({
                let f = match self@.operate_files {
                    Some(f) => f,
                    None => MusicFileModel { music: Seq::empty(), duration: None, artist: None },
                };
                &&& (r is None <==> (store@.tags.contains_key(k@) && has_song(store@.tags[k@], f)))
                &&& (r matches Some(m) ==> (m matches UiMessage::AddTagTo(t, g) && t@ == k@ && g@ == f))
            }),
    {
        let f = match &self.operate_files {
            Some(f) => f.clone(),
            None => MusicFile::default(),
        };
        match store.tags.get(k) {
            Some(x) => {
                match crate::store::position_of(x, &f) {
                    Some(i) => None,
                    None => Some(UiMessage::AddTagTo(k.clone(), f)),
                }
            },
            None => Some(UiMessage::AddTagTo(k.clone(), f)),
        }
    }

    /// What the add button of the new-tag dialog sends: nothing when the name is
    /// empty or already a tag, else a request to add the tag.
    pub fn check_tag_add(&self, store: &MusicStore) -> (r: Option<UiMessage>)
        ensures
            r is None <==> (self@.new_tag.len() == 0 || store@.tags.contains_key(self@.new_tag)),
            r matches Some(m) ==> m matches UiMessage::AddTag,
    {
        if self.new_tag.as_str().unicode_len() == 0 {
            None
        } else if store.tags.contains_key(&self.new_tag) {
            None
        } else {
            Some(UiMessage::AddTag)
        }
    }

    /// Reacts to what the user did (see [`ui_update_spec`]). `facts` holds what the
    /// embedding program observed for this update; audio commands are appended to
    /// `cmds`.
    pub fn update(
        &mut self,
        msg: UiMessage,
        player: &mut Player,
        store: &mut MusicStore,
        settings: &mut Settings,
        facts: &Facts,
        cmds: &mut Vec<AudioCommand>,
    )
        requires
            ui_update_defined(old(self)@, old(player)@, old(store)@, &msg, facts),
        ensures
            final(self)@ == ui_update_spec(old(self)@, old(player)@, old(store)@, old(settings)@, &msg, facts).ui,
            final(player)@ == ui_update_spec(old(self)@, old(player)@, old(store)@, old(settings)@, &msg, facts).player,
            final(store)@ == ui_update_spec(old(self)@, old(player)@, old(store)@, old(settings)@, &msg, facts).store,
            final(settings)@ == ui_update_spec(old(self)@, old(player)@, old(store)@, old(settings)@, &msg, facts).settings,
            final(cmds)@ == old(cmds)@ + ui_update_spec(
                old(self)@,
                old(player)@,
                old(store)@,
                old(settings)@,
                &msg,
                facts,
            ).commands,
    {
        if matches!(
            msg,
            UiMessage::OnValueChanged(_) | UiMessage::PlayMusic(_) | UiMessage::OnReleaseSlider
                | UiMessage::OnPSSwitchClicked | UiMessage::PrevMusic | UiMessage::NextMusic
        ) {
            self.update_playback(msg, player, store, settings, facts, cmds);
        } else if matches!(
            msg,
            UiMessage::AddTagTo(..) | UiMessage::AddTag | UiMessage::RemoveMusicFromTag(_)
                | UiMessage::RemoveTag(_) | UiMessage::DeleteOriginPath(_)
                | UiMessage::OnAddSearchOriginClicked
        ) {
            self.update_library(msg, player, store, settings, facts, cmds);
        } else {
            self.update_page(msg, player, store, settings, facts, cmds);
        }
    }

    fn update_playback(
        &mut self,
        msg: UiMessage,
        player: &mut Player,
        store: &mut MusicStore,
        settings: &mut Settings,
        facts: &Facts,
        cmds: &mut Vec<AudioCommand>,
    )
        requires
            ui_update_defined(old(self)@, old(player)@, old(store)@, &msg, facts),
            (msg is OnValueChanged || msg is PlayMusic || msg is OnReleaseSlider || msg is OnPSSwitchClicked || msg is PrevMusic || msg is NextMusic),
        ensures
            final(self)@ == ui_update_spec(old(self)@, old(player)@, old(store)@, old(settings)@, &msg, facts).ui,
            final(player)@ == ui_update_spec(old(self)@, old(player)@, old(store)@, old(settings)@, &msg, facts).player,
            final(store)@ == ui_update_spec(old(self)@, old(player)@, old(store)@, old(settings)@, &msg, facts).store,
            final(settings)@ == ui_update_spec(old(self)@, old(player)@, old(store)@, old(settings)@, &msg, facts).settings,
            final(cmds)@ == old(cmds)@ + ui_update_spec(
                old(self)@,
                old(player)@,
                old(store)@,
                old(settings)@,
                &msg,
                facts,
            ).commands,
    {
        let ghost m0 = msg;
        match msg {
            UiMessage::OnValueChanged(x) => {
                cmds.push(AudioCommand::Pause);
                player.play_state = PlayState::Stop;
                cmds.push(AudioCommand::ShowPosition(x as u128));
                cmds.push(AudioCommand::SeekOrFail(x));
            },
            UiMessage::PlayMusic(p) => {
                match &self.view {
                    UiView::TagView(t) => player.play_list = PlayList::Tags(t.clone()),
                    UiView::MainView => player.play_list = PlayList::AllMusic,
                    UiView::TagsView => {},
                    UiView::SearchView => player.play_list = PlayList::AllMusic,
                    UiView::SettingsView => {},
                    UiView::ArtistsView => {},
                    UiView::ArtistView(a) => player.play_list = PlayList::Artist(a.clone()),
                }
                let rep = match &facts.report {
                    Some(r) => r,
                    None => {
                        proof {
                            assert(false);
                        }
                        return ;
                    },
                };
                if player.play_music(p, store, rep, cmds).is_err() {
                    self.show_music_open_failure = true;
                }
            },
            UiMessage::OnReleaseSlider => {
                if !self.force_stop {
                    cmds.push(AudioCommand::Play);
                    player.play_state = PlayState::Play;
                }
            },
            UiMessage::OnPSSwitchClicked => {
                self.force_stop = player.ps_switch(cmds);
            },
            UiMessage::PrevMusic => {
                let rep = match &facts.report {
                    Some(r) => r,
                    None => {
                        proof {
                            assert(false);
                        }
                        return ;
                    },
                };
                if player.music_play_push(-1, store, rep, cmds).is_err() {
                    self.show_music_open_failure = true;
                }
            },
            UiMessage::NextMusic => {
                let rep = match &facts.report {
                    Some(r) => r,
                    None => {
                        proof {
                            assert(false);
                        }
                        return ;
                    },
                };
                if player.music_play_push(1, store, rep, cmds).is_err() {
                    self.show_music_open_failure = true;
                }
            },
            _ => {
                proof {
                    assert(false);
                }
            },
        }
        assert(final(cmds)@ =~= old(cmds)@ + ui_update_spec(
            old(self)@,
            old(player)@,
            old(store)@,
            old(settings)@,
            &m0,
            facts,
        ).commands);
    }

    fn update_library(
        &mut self,
        msg: UiMessage,
        player: &mut Player,
        store: &mut MusicStore,
        settings: &mut Settings,
        facts: &Facts,
        cmds: &mut Vec<AudioCommand>,
    )
        requires
            ui_update_defined(old(self)@, old(player)@, old(store)@, &msg, facts),
            (msg is AddTagTo || msg is AddTag || msg is RemoveMusicFromTag || msg is RemoveTag || msg is DeleteOriginPath || msg is OnAddSearchOriginClicked),
        ensures
            final(self)@ == ui_update_spec(old(self)@, old(player)@, old(store)@, old(settings)@, &msg, facts).ui,
            final(player)@ == ui_update_spec(old(self)@, old(player)@, old(store)@, old(settings)@, &msg, facts).player,
            final(store)@ == ui_update_spec(old(self)@, old(player)@, old(store)@, old(settings)@, &msg, facts).store,
            final(settings)@ == ui_update_spec(old(self)@, old(player)@, old(store)@, old(settings)@, &msg, facts).settings,
            final(cmds)@ == old(cmds)@ + ui_update_spec(
                old(self)@,
                old(player)@,
                old(store)@,
                old(settings)@,
                &msg,
                facts,
            ).commands,
    {
        let ghost m0 = msg;
        match msg {
            UiMessage::AddTagTo(t, p) => {
                let rep = match &facts.report {
                    Some(r) => r,
                    None => {
                        proof {
                            assert(false);
                        }
                        return ;
                    },
                };
                store.add_tag_for_music(t, p, rep);
                self.show_set_tag_modal = false;
            },
            UiMessage::AddTag => {
                let empty: Vec<MusicFile> = Vec::new();
                assert(crate::music_file::songs(empty@) =~= Seq::<MusicFileModel>::empty());
                store.tags.insert(self.new_tag.clone(), empty);
                self.show_new_tag_modal = false;
                self.new_tag = String::new();
            },
            UiMessage::RemoveMusicFromTag(p) => {
                if let UiView::TagView(t) = &self.view {
                    store.remove_music_from_tag(player, t, p, cmds);
                } else {
                    assert(old(cmds)@ + seq![] =~= old(cmds)@);
                }
            },
            UiMessage::RemoveTag(t) => {
                self.view = UiView::TagsView;
                store.remove_tag(player, t, cmds);
            },
            UiMessage::DeleteOriginPath(p) => {
                let hit = match &player.now_playing {
                    Some(val) => match parent_of(&val.music) {
                        Some(par) => paths_equal(&par, &p),
                        None => false,
                    },
                    None => false,
                };
                if hit {
                    player.player_default(cmds);
                }
                store.remove_search_origin(p);
                store.sync(&facts.listings);
                store.idx = 0;
                store.is_read = true;
            },
            UiMessage::OnAddSearchOriginClicked => {
                match &facts.picked_folder {
                    Some(pat) => {
                        let found = crate::store::path_position(&store.search_origin, pat);
                        match found {
                            Some(j) => {
                                assert(same_path(old(store)@.search_origin[j as int], pat@));
                            },
                            None => {
                                let ghost before = store.search_origin@;
                                store.search_origin.push(pat.clone());
                                assert(crate::tag_map::texts(store.search_origin@) =~= crate::tag_map::texts(
                                    before,
                                ).push(pat@));
                                store.sync_only_push(&facts.listings);
                            },
                        }
                        store.idx = 0;
                        store.is_read = true;
                    },
                    None => {},
                }
            },            _ => {
                proof {
                    assert(false);
                }
            },
        }
        assert(final(cmds)@ =~= old(cmds)@ + ui_update_spec(
            old(self)@,
            old(player)@,
            old(store)@,
            old(settings)@,
            &m0,
            facts,
        ).commands);
    }

    fn update_page(
        &mut self,
        msg: UiMessage,
        player: &mut Player,
        store: &mut MusicStore,
        settings: &mut Settings,
        facts: &Facts,
        cmds: &mut Vec<AudioCommand>,
    )
        requires
            ui_update_defined(old(self)@, old(player)@, old(store)@, &msg, facts),
            (msg is CloseMusicOpenFailureMsg || msg is OnPlaybackTypeChanged || msg is SwitchSideBarShow || msg is GoView || msg is OpenSetTagMsg || msg is CloseSetTag || msg is WhenNewTagType || msg is OpenNewTagMsg || msg is CloseNewTagMsg || msg is WhenSearchTextType || msg is WhenExpSearchOriginClicked || msg is WhenSettingChanged),
        ensures
            final(self)@ == ui_update_spec(old(self)@, old(player)@, old(store)@, old(settings)@, &msg, facts).ui,
            final(player)@ == ui_update_spec(old(self)@, old(player)@, old(store)@, old(settings)@, &msg, facts).player,
            final(store)@ == ui_update_spec(old(self)@, old(player)@, old(store)@, old(settings)@, &msg, facts).store,
            final(settings)@ == ui_update_spec(old(self)@, old(player)@, old(store)@, old(settings)@, &msg, facts).settings,
            final(cmds)@ == old(cmds)@ + ui_update_spec(
                old(self)@,
                old(player)@,
                old(store)@,
                old(settings)@,
                &msg,
                facts,
            ).commands,
    {
        let ghost m0 = msg;
        match msg {
            UiMessage::CloseMusicOpenFailureMsg => {
                self.show_music_open_failure = false;
            },
            UiMessage::OnPlaybackTypeChanged(p) => {
                player.playback_type = p;
            },
            UiMessage::SwitchSideBarShow => {
                self.side_bar_show = !self.side_bar_show;
            },
            UiMessage::GoView(v) => {
                self.view = v;
                self.side_bar_show = false;
            },
            UiMessage::OpenSetTagMsg(p) => {
                self.show_set_tag_modal = true;
                self.operate_files = Some(p);
            },
            UiMessage::CloseSetTag => {
                self.show_set_tag_modal = false;
            },
            UiMessage::WhenNewTagType(t) => {
                self.new_tag = t;
            },
            UiMessage::OpenNewTagMsg => {
                self.show_new_tag_modal = true;
            },
            UiMessage::CloseNewTagMsg => {
                self.show_new_tag_modal = false;
                self.new_tag = String::new();
            },
            UiMessage::WhenSearchTextType(t) => {
                self.search_text = t;
            },
            UiMessage::WhenExpSearchOriginClicked => {
                self.show_exp_search_origin = !self.show_exp_search_origin;
            },
            UiMessage::WhenSettingChanged(k) => {
                settings.set_setting(k);
                if let SettingKeys::Volume(f) = k {
                    cmds.push(AudioCommand::SetVolume(f));
                }
            },
            _ => {
                proof {
                    assert(false);
                }
            },
        }
        assert(final(cmds)@ =~= old(cmds)@ + ui_update_spec(
            old(self)@,
            old(player)@,
            old(store)@,
            old(settings)@,
            &m0,
            facts,
        ).commands);
    }

}


/// The play list that starting a song from a page walks through (see
/// [`list_for_page`]).
pub fn page_play_list(page: &UiView, current: &PlayList) -> (r: PlayList)
    ensures
        r@ == list_for_page(page@, current@),
{
    match page {
        UiView::TagView(t) => PlayList::Tags(t.clone()),
        UiView::MainView => PlayList::AllMusic,
        UiView::SearchView => PlayList::AllMusic,
        UiView::ArtistView(a) => PlayList::Artist(a.clone()),
        _ => current.clone(),
    }
}

/// Whether the facts carry the probe of song `f`'s file.
pub fn has_report_for(facts: &Facts, f: &MusicFile) -> (r: bool)
    ensures
        r == report_matches(facts, f@),
{
    match &facts.report {
        Some(rep) => rep.path == f.music,
        None => false,
    }
}

impl Ui {
    /// Whether an interface update can be carried out (see [`ui_update_defined`]).
    pub fn can_update(&self, msg: &UiMessage, player: &Player, store: &MusicStore, facts: &Facts) -> (r: bool)
        ensures
            r == ui_update_defined(self@, player@, store@, msg, facts),
    {
        match msg {
            UiMessage::PlayMusic(p) => {
                if !has_report_for(facts, p) {
                    return false;
                }
                let rep = match &facts.report {
                    Some(x) => x,
                    None => return false,
                };
                let list = page_play_list(&self.view, &player.play_list);
                crate::player::list_can_play(store, &list, p, rep)
            },
            UiMessage::AddTagTo(_, p) => has_report_for(facts, p),
            UiMessage::PrevMusic => {
                let rep = match &facts.report {
                    Some(x) => x,
                    None => return false,
                };
                if !player.can_push(store, -1, rep) {
                    return false;
                }
                match player.push_target_file(store, -1) {
                    Some(f) => has_report_for(facts, &f),
                    None => false,
                }
            },
            UiMessage::NextMusic => {
                let rep = match &facts.report {
                    Some(x) => x,
                    None => return false,
                };
                if !player.can_push(store, 1, rep) {
                    return false;
                }
                match player.push_target_file(store, 1) {
                    Some(f) => has_report_for(facts, &f),
                    None => false,
                }
            },
            UiMessage::RemoveMusicFromTag(p) => {
                match &self.view {
                    UiView::TagView(t) => match store.tags.get(t) {
                        Some(l) => match crate::store::position_of(l, p) {
                            Some(i) => true,
                            None => false,
                        },
                        None => false,
                    },
                    _ => true,
                }
            },
            _ => true,
        }
    }
}

} // verus!
