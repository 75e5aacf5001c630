//! The whole program state and the steps that drive it: the start-up that loads the
//! saved settings into the library and player, and each update for a message.

use vstd::prelude::*;
use crate::music_file::{FileReport, MusicFile, MusicFileModel, OpenOutcome, TagRead, with_total_duration};
use crate::paths::opt_text;
use crate::player::{
    Player, PlayerModel, list_can_play, play_defined_in, play_spec, push_target, sync_defined,
    sync_spec,
};
use crate::settings::{Settings, SettingsModel};
use crate::state::{AudioCommand, BackendMessage, DirListing, Facts, Message, PlayState, PlaybackType, UiMessage};
use crate::store::{MusicStore, MusicStoreModel, list_of, new_songs, read_one_defined, read_one_result, scanned};
use crate::tag_map::texts;
use crate::ui::{Ui, UiModel, report_matches, has_report_for, ui_update_defined, ui_update_spec};

verus! {

/// The whole program state.
pub struct RIMusic {
    pub player: Player,
    pub store: MusicStore,
    pub settings: Settings,
    pub exit: bool,
    pub run_once: bool,
    pub ui: Ui,
}

/// The mathematical value of a [`RIMusic`].
pub struct RIMusicModel {
    pub player: PlayerModel,
    pub store: MusicStoreModel,
    pub settings: SettingsModel,
    pub exit: bool,
    pub run_once: bool,
    pub ui: UiModel,
}

impl View for RIMusic {
    type V = RIMusicModel;

    open spec fn view(&self) -> RIMusicModel {
        RIMusicModel {
            player: self.player@,
            store: self.store@,
            settings: self.settings@,
            exit: self.exit,
            run_once: self.run_once,
            ui: self.ui@,
        }
    }
}

/// What a step does: the state after it, the audio commands it gives, and the
/// settings it asks to save.
pub struct AppOutcome {
    pub app: RIMusicModel,
    pub commands: Seq<AudioCommand>,
    pub saved: Option<SettingsModel>,
}

/// What the embedding program has to observe before a step: the file to probe, the
/// folders to list, whether to ask the user for a folder (which is then listed too),
/// and the position drawn for random playback.
pub struct Needs {
    pub probe: Option<String>,
    pub folders: Vec<String>,
    pub pick_folder: bool,
    pub random_pick: Option<usize>,
}

/// The start-up's first half: the library takes its folders, tags and artists from
/// the settings and scans the folders; the output takes the saved volume.
pub open spec fn read_var_spec(m: RIMusicModel, listings: Seq<DirListing>) -> AppOutcome {
    AppOutcome {
        app: RIMusicModel {
            store: MusicStoreModel {
                search_origin: m.settings.search_origin,
                tags: m.settings.tags,
                artists: m.settings.artist,
                music_files: m.store.music_files + new_songs(scanned(m.settings.search_origin, listings)),
                ..m.store
            },
            ..m
        },
        commands: seq![AudioCommand::SetVolume(m.settings.volume)],
        saved: None,
    }
}

/// The start-up's second half: when the play state is kept, the player takes the
/// saved mode and list and the last song's play time; the last song is started
/// (failure is ignored), paused, and moved to the saved position.
pub open spec fn read_play_spec(m: RIMusicModel, rep: Option<FileReport>) -> AppOutcome {
    let st = m.settings;
    if !st.keep_state {
        AppOutcome { app: m, commands: seq![], saved: None }
    } else {
        let pl1 = PlayerModel {
            total_music_time: match st.last_music {
                Some(lm) => with_total_duration(lm, &rep.unwrap()).duration.unwrap(),
                None => 0,
            },
            playback_type: st.last_playback,
            play_list: st.last_playlist,
            ..m.player
        };
        match st.last_music {
            None => AppOutcome { app: RIMusicModel { player: pl1, ..m }, commands: seq![], saved: None },
            Some(lm) => {
                let o = play_spec(pl1, m.store, lm, &rep.unwrap());
                AppOutcome {
                    app: RIMusicModel {
                        player: PlayerModel { play_state: PlayState::Stop, ..o.player },
                        store: o.store,
                        ..m
                    },
                    commands: o.commands + seq![
                        AudioCommand::Pause,
                        AudioCommand::Seek(st.last_position),
                        AudioCommand::ShowPosition(st.last_position / 1_000_000),
                    ],
                    saved: None,
                }
            },
        }
    }
}

/// The whole start-up.
pub open spec fn startup_spec(m: RIMusicModel, facts: &Facts) -> AppOutcome {
    let a = read_var_spec(m, facts.listings@);
    let b = read_play_spec(a.app, facts.report);
    AppOutcome {
        app: RIMusicModel { run_once: false, ..b.app },
        commands: a.commands + b.commands,
        saved: None,
    }
}

/// Whether the start-up stays within what the program can do (see
/// [`read_play_defined`] after [`read_var_spec`]).
pub open spec fn startup_defined(m: RIMusicModel, facts: &Facts) -> bool {
    read_play_defined(read_var_spec(m, facts.listings@).app, facts)
}

/// Whether the start-up's second half stays within what the program can do: a kept
/// last song must come with its probe and be startable from the saved list.
pub open spec fn read_play_defined(m: RIMusicModel, facts: &Facts) -> bool {
    m.settings.keep_state && m.settings.last_music is Some ==> {
        &&& report_matches(facts, m.settings.last_music.unwrap())
        &&& play_defined_in(
            m.store,
            m.settings.last_playlist,
            m.settings.last_music.unwrap(),
            &facts.report.unwrap(),
        )
    }
}

/// The song that a tick starts once the output has run empty, if any.
pub open spec fn sync_target(pl: PlayerModel, s: MusicStoreModel, pick: Option<usize>) -> Option<MusicFileModel> {
    match pl.now_playing {
        None => None,
        Some(p) => match pl.playback_type {
            PlaybackType::OnceStop => None,
            PlaybackType::OneWhile => Some(p),
            PlaybackType::MusicNext => Some(push_target(pl, s, 1)),
            PlaybackType::RadomPlay => Some(list_of(s, pl.play_list).unwrap()[pick.unwrap() as int]),
        },
    }
}

/// Whether a timer or window step stays within what the program can do.
pub open spec fn backend_defined(m: RIMusicModel, msg: BackendMessage, facts: &Facts) -> bool {
    match msg {
        BackendMessage::Sync => {
            &&& sync_defined(m.player, m.store, facts.player_empty, facts.random_pick, facts.report)
            &&& (facts.player_empty && sync_target(m.player, m.store, facts.random_pick) is Some)
                ==> report_matches(facts, sync_target(m.player, m.store, facts.random_pick).unwrap())
        },
        BackendMessage::CloseSave => true,
        BackendMessage::ReadFileData => m.store.idx < m.store.music_files.len() ==> {
            &&& report_matches(facts, m.store.music_files[m.store.idx as int])
            &&& read_one_defined(m.store, &facts.report.unwrap())
        },
    }
}

/// What a timer or window step does: a tick advances playback, showing the failure
/// notice when a start fails; closing saves the settings and ends the program;
/// reading reads one song's data.
pub open spec fn backend_spec(m: RIMusicModel, msg: BackendMessage, facts: &Facts) -> AppOutcome {
    match msg {
        BackendMessage::Sync => {
            let o = sync_spec(m.player, m.store, facts.player_empty, facts.random_pick, facts.report);
            AppOutcome {
                app: RIMusicModel {
                    player: o.player,
                    store: o.store,
                    ui: if o.ok {
                        m.ui
                    } else {
                        UiModel { show_music_open_failure: true, ..m.ui }
                    },
                    ..m
                },
                commands: o.commands,
                saved: None,
            }
        },
        BackendMessage::CloseSave => AppOutcome {
            app: RIMusicModel { exit: true, ..m },
            commands: seq![],
            saved: Some(
                SettingsModel {
                    search_origin: m.store.search_origin,
                    tags: m.store.tags,
                    last_music: m.player.now_playing,
                    last_position: facts.position_ns,
                    last_playback: m.player.playback_type,
                    last_playlist: m.player.play_list,
                    artist: m.store.artists,
                    ..m.settings
                },
            ),
        },
        BackendMessage::ReadFileData => {
            AppOutcome {
                app: RIMusicModel { store: read_one_result(m.store, &facts.report.unwrap()), ..m },
                commands: seq![],
                saved: None,
            }
        },
    }
}

/// Whether a step for a message stays within what the program can do.
pub open spec fn app_update_defined(m: RIMusicModel, msg: &Message, facts: &Facts) -> bool {
    match msg {
        Message::Ui(u) => ui_update_defined(m.ui, m.player, m.store, u, facts),
        Message::Backend(b) => backend_defined(m, *b, facts),
    }
}

/// What a step for a message does.
pub open spec fn app_update_spec(m: RIMusicModel, msg: &Message, facts: &Facts) -> AppOutcome {
    match msg {
        Message::Ui(u) => {
            let o = ui_update_spec(m.ui, m.player, m.store, m.settings, u, facts);
            AppOutcome {
                app: RIMusicModel { ui: o.ui, player: o.player, store: o.store, settings: o.settings, ..m },
                commands: o.commands,
                saved: None,
            }
        },
        Message::Backend(b) => backend_spec(m, *b, facts),
    }
}


/// The file that a tick probes once the output has run empty: the current song
/// again, the next song when there is one, or the randomly picked one.
pub open spec fn sync_probe(pl: PlayerModel, s: MusicStoreModel, pick: Option<usize>) -> Option<Seq<char>> {
    match pl.now_playing {
        None => None,
        Some(p) => match pl.playback_type {
            PlaybackType::OnceStop => None,
            PlaybackType::OneWhile => Some(p.music),
            PlaybackType::MusicNext => if crate::player::push_in_range(pl, s, 1) {
                Some(push_target(pl, s, 1).music)
            } else {
                None
            },
            PlaybackType::RadomPlay => match pick {
                Some(k) => Some(list_of(s, pl.play_list).unwrap()[k as int].music),
                None => None,
            },
        },
    }
}

/// The file that a step for a message probes, if any.
pub open spec fn needed_file(m: RIMusicModel, msg: &Message, empty: bool, pick: Option<usize>) -> Option<Seq<char>> {
    match msg {
        Message::Ui(UiMessage::PlayMusic(p)) => Some(p.music@),
        Message::Ui(UiMessage::AddTagTo(_, p)) => Some(p.music@),
        Message::Ui(UiMessage::PrevMusic) => if crate::player::push_in_range(m.player, m.store, -1i32) {
            Some(push_target(m.player, m.store, -1i32).music)
        } else {
            None
        },
        Message::Ui(UiMessage::NextMusic) => if crate::player::push_in_range(m.player, m.store, 1) {
            Some(push_target(m.player, m.store, 1).music)
        } else {
            None
        },
        Message::Backend(BackendMessage::Sync) => if empty {
            sync_probe(m.player, m.store, pick)
        } else {
            None
        },
        Message::Backend(BackendMessage::ReadFileData) => if m.store.idx < m.store.music_files.len() {
            Some(m.store.music_files[m.store.idx as int].music)
        } else {
            None
        },
        _ => None,
    }
}

/// Whether a step for a message rescans the search folders.
pub open spec fn rescans(msg: &Message) -> bool {
    msg matches Message::Ui(UiMessage::DeleteOriginPath(_)) || msg matches Message::Ui(
        UiMessage::OnAddSearchOriginClicked,
    )
}

/// Whether `r` is what the start-up needs observed: the probe of the kept last song
/// and the listings of the saved search folders.
pub open spec fn startup_needs_met(m: RIMusicModel, r: &Needs) -> bool {
    &&& opt_text(r.probe) == (if m.settings.keep_state && m.settings.last_music is Some {
        Some(m.settings.last_music.unwrap().music)
    } else {
        None
    })
    &&& texts(r.folders@) == m.settings.search_origin
    &&& !r.pick_folder
    &&& r.random_pick is None
}

/// Whether `r` is what a step for a message needs observed (see [`needed_file`]):
/// the probe of the file it opens, the listings of all search folders when it
/// rescans them, the folder dialog for adding a folder, and for a tick in random
/// mode a position drawn at random inside the play list.
pub open spec fn message_needs_met(m: RIMusicModel, msg: &Message, player_empty: bool, r: &Needs) -> bool {
    &&& opt_text(r.probe) == needed_file(m, msg, player_empty, r.random_pick)
    &&& texts(r.folders@) == (if rescans(msg) {
        m.store.search_origin
    } else {
        Seq::empty()
    })
    &&& r.pick_folder == (msg matches Message::Ui(UiMessage::OnAddSearchOriginClicked))
    &&& r.random_pick is Some <==> (msg matches Message::Backend(BackendMessage::Sync) && player_empty
        && m.player.now_playing is Some && m.player.playback_type == PlaybackType::RadomPlay
        && list_of(m.store, m.player.play_list) is Some && list_of(m.store, m.player.play_list).unwrap().len() > 0)
    &&& r.random_pick matches Some(k) ==> k < list_of(m.store, m.player.play_list).unwrap().len()
}

/// Whether the settings handed back by a step are the ones it asks to save.
pub open spec fn saved_as(r: Option<Settings>, s: Option<SettingsModel>) -> bool {
    match (r, s) {
        (Some(x), Some(y)) => x@ == y,
        (None, None) => true,
        _ => false,
    }
}

/// What a step of the program did.
pub enum Step {
    /// The start-up ran, with these audio commands; the message is handed back, to be
    /// handled by the next step with what it needs observed.
    Started(Vec<AudioCommand>, Message),
    /// The message was handled: the audio commands to carry out, in order, and the
    /// settings to save, if any.
    Handled(Vec<AudioCommand>, Option<Settings>),
    /// The step cannot be carried out in the current state.
    Refused,
}

impl RIMusic {
    /// The program state for loaded settings, before start-up: an empty library
    /// still to be read, a stopped player and the library page.
    pub fn new(settings: Settings) -> (r: RIMusic)
        ensures
            r@.settings == settings@,
            r@.store == MusicStore::new_model(),
            r@.player == Player::new_model(),
            r@.ui == Ui::default_model(),
            !r@.exit,
            r@.run_once,
    {
        RIMusic {
            store: MusicStore::new(),
            player: Player::new(),
            settings,
            exit: false,
            run_once: true,
            ui: Ui::default(),
        }
    }

    fn read_var(&mut self, listings: &Vec<DirListing>, cmds: &mut Vec<AudioCommand>)
        ensures
            final(self)@ == read_var_spec(old(self)@, listings@).app,
            final(cmds)@ == old(cmds)@ + read_var_spec(old(self)@, listings@).commands,
    {
        self.store.search_origin = crate::store::clone_texts(&self.settings.search_origin);
        self.store.tags = self.settings.tags.duplicate();
        self.store.artists = self.settings.artist.duplicate();
        self.store.sync_only_push(listings);
        cmds.push(AudioCommand::SetVolume(self.settings.volume));
        assert(final(cmds)@ =~= old(cmds)@ + read_var_spec(old(self)@, listings@).commands);
    }

    fn read_play(&mut self, facts: &Facts, cmds: &mut Vec<AudioCommand>)
        requires
            read_play_defined(old(self)@, facts),
        ensures
            final(self)@ == read_play_spec(old(self)@, facts.report).app,
            final(cmds)@ == old(cmds)@ + read_play_spec(old(self)@, facts.report).commands,
    {
        if self.settings.keep_state {
            self.player.total_music_time = match &self.settings.last_music {
                Some(lm) => {
                    let rep = match &facts.report {
                        Some(x) => x,
                        None => {
                            proof {
                                assert(false);
                            }
                            return ;
                        },
                    };
                    let mut l = lm.clone();
                    l.get_music_file_total_duration(rep);
                    match l.duration {
                        Some(d) => d,
                        None => 0,
                    }
                },
                None => 0,
            };
            self.player.playback_type = self.settings.last_playback;
            self.player.play_list = self.settings.last_playlist.clone();
            match &self.settings.last_music {
                Some(lm) => {
                    let rep = match &facts.report {
                        Some(x) => x,
                        None => {
                            proof {
                                assert(false);
                            }
                            return ;
                        },
                    };
                    let lm = lm.clone();
                    let _ = self.player.play_music(lm, &mut self.store, rep, cmds);
                    cmds.push(AudioCommand::Pause);
                    self.player.set_pos(self.settings.last_position, cmds);
                    self.player.play_state = PlayState::Stop;
                },
                None => {},
            }
        }
        assert(final(cmds)@ =~= old(cmds)@ + read_play_spec(old(self)@, facts.report).commands);
    }

    /// Whether the start-up's second half can be carried out (see
    /// [`read_play_defined`]).
    pub fn can_read_play(&self, facts: &Facts) -> (r: bool)
        ensures
            r == read_play_defined(self@, facts),
    {
        if !self.settings.keep_state {
            return true;
        }
        match &self.settings.last_music {
            Some(lm) => {
                if !has_report_for(facts, lm) {
                    return false;
                }
                match &facts.report {
                    Some(rep) => list_can_play(&self.store, &self.settings.last_playlist, lm, rep),
                    None => false,
                }
            },
            None => true,
        }
    }

    /// The start-up (see [`startup_spec`]), run before the first message.
    pub fn startup(&mut self, facts: &Facts) -> (r: Vec<AudioCommand>)
        requires
            startup_defined(old(self)@, facts),
        ensures
            final(self)@ == startup_spec(old(self)@, facts).app,
            r@ == startup_spec(old(self)@, facts).commands,
    {
        let mut cmds: Vec<AudioCommand> = Vec::new();
        self.read_var(&facts.listings, &mut cmds);
        self.read_play(facts, &mut cmds);
        self.run_once = false;
        assert(cmds@ =~= startup_spec(old(self)@, facts).commands);
        cmds
    }

    /// The start-up when it can be carried out: the library is loaded from the
    /// settings in any case; the rest runs only when the kept last song can be
    /// started, and the result says whether it could.
    pub fn try_startup(&mut self, facts: &Facts) -> (r: Option<Vec<AudioCommand>>)
        ensures
            r is Some == startup_defined(old(self)@, facts),
            r matches Some(c) ==> final(self)@ == startup_spec(old(self)@, facts).app
                && c@ == startup_spec(old(self)@, facts).commands,
            r is None ==> final(self)@ == read_var_spec(old(self)@, facts.listings@).app,
    {
        let mut cmds: Vec<AudioCommand> = Vec::new();
        self.read_var(&facts.listings, &mut cmds);
        if !self.can_read_play(facts) {
            return None;
        }
        self.read_play(facts, &mut cmds);
        self.run_once = false;
        assert(cmds@ =~= startup_spec(old(self)@, facts).commands);
        Some(cmds)
    }

    /// What the start-up needs observed: the probe of the kept last song and the
    /// listings of the saved search folders.
    pub fn startup_needs(&self) -> (r: Needs)
        ensures
            startup_needs_met(self@, &r),
    {
        let probe = if self.settings.keep_state {
            match &self.settings.last_music {
                Some(lm) => Some(lm.music.clone()),
                None => None,
            }
        } else {
            None
        };
        Needs {
            probe,
            folders: crate::store::clone_texts(&self.settings.search_origin),
            pick_folder: false,
            random_pick: None,
        }
    }
}


impl RIMusic {
    /// Handles a message (see [`app_update_spec`]): the audio commands to carry out,
    /// in order, and the settings to save, if any.
    pub fn handle(&mut self, msg: Message, facts: &Facts) -> (r: (Vec<AudioCommand>, Option<Settings>))
        requires
            app_update_defined(old(self)@, &msg, facts),
        ensures
            final(self)@ == app_update_spec(old(self)@, &msg, facts).app,
            r.0@ == app_update_spec(old(self)@, &msg, facts).commands,
            saved_as(r.1, app_update_spec(old(self)@, &msg, facts).saved),
    {
        let mut cmds: Vec<AudioCommand> = Vec::new();
        let saved = match msg {
            Message::Ui(m) => {
                self.ui.update(m, &mut self.player, &mut self.store, &mut self.settings, facts, &mut cmds);
                None
            },
            Message::Backend(m) => crate::backend::update(m, self, facts, &mut cmds),
        };
        assert(cmds@ =~= Seq::<AudioCommand>::empty() + cmds@);
        (cmds, saved)
    }

    /// Whether a timer tick can be carried out.
    fn can_sync(&self, facts: &Facts) -> (r: bool)
        ensures
            r == backend_defined(self@, BackendMessage::Sync, facts),
    {
        if !facts.player_empty {
            return true;
        }
        let now = match &self.player.now_playing {
            Some(p) => p,
            None => return true,
        };
        match self.player.playback_type {
            PlaybackType::OnceStop => true,
            PlaybackType::OneWhile => match &facts.report {
                Some(rep) => list_can_play(&self.store, &self.player.play_list, now, rep) && has_report_for(
                    facts,
                    now,
                ),
                None => false,
            },
            PlaybackType::MusicNext => match &facts.report {
                Some(rep) => {
                    if !self.player.can_push(&self.store, 1, rep) {
                        return false;
                    }
                    match self.player.push_target_file(&self.store, 1) {
                        Some(f) => has_report_for(facts, &f),
                        None => false,
                    }
                },
                None => false,
            },
            PlaybackType::RadomPlay => {
                let l = match self.store.list_for(&self.player.play_list) {
                    Some(l) => l,
                    None => return false,
                };
                let k = match facts.random_pick {
                    Some(k) => k,
                    None => return false,
                };
                if k >= l.len() {
                    return false;
                }
                match &facts.report {
                    Some(rep) => list_can_play(&self.store, &self.player.play_list, &l[k], rep)
                        && has_report_for(facts, &l[k]),
                    None => false,
                }
            },
        }
    }

    /// Whether a message can be handled (see [`app_update_defined`]).
    pub fn can_handle(&self, msg: &Message, facts: &Facts) -> (r: bool)
        ensures
            r == app_update_defined(self@, msg, facts),
    {
        match msg {
            Message::Ui(m) => self.ui.can_update(m, &self.player, &self.store, facts),
            Message::Backend(BackendMessage::Sync) => self.can_sync(facts),
            Message::Backend(BackendMessage::CloseSave) => true,
            Message::Backend(BackendMessage::ReadFileData) => {
                if self.store.idx >= self.store.music_files.len() {
                    return true;
                }
                let f = &self.store.music_files[self.store.idx];
                if !has_report_for(facts, f) {
                    return false;
                }
                match &facts.report {
                    Some(rep) => {
                        if rep.open == OpenOutcome::Unplayable {
                            true
                        } else {
                            let mut g = f.clone();
                            g.get_music_all_data(rep);
                            g.artist.is_some()
                        }
                    },
                    None => false,
                }
            },
        }
    }

    /// Handles a message when it can be carried out; otherwise nothing changes and the
    /// result is `None`.
    pub fn try_handle(&mut self, msg: Message, facts: &Facts) -> (r: Option<(Vec<AudioCommand>, Option<Settings>)>)
        ensures
            r is Some == app_update_defined(old(self)@, &msg, facts),
            r is None ==> final(self)@ == old(self)@,
            r matches Some(x) ==> final(self)@ == app_update_spec(old(self)@, &msg, facts).app && x.0@
                == app_update_spec(old(self)@, &msg, facts).commands && saved_as(
                x.1,
                app_update_spec(old(self)@, &msg, facts).saved,
            ),
    {
        if self.can_handle(&msg, facts) {
            Some(self.handle(msg, facts))
        } else {
            None
        }
    }

    /// A step of the program for a message. Before the first message the start-up
    /// runs (see [`startup_spec`]) and the message is handed back, to be handled by
    /// the next step; afterwards the message is handled (see [`app_update_spec`]).
    /// `facts` holds what [`RIMusic::needs`] asked to observe. A step that cannot be
    /// carried out is refused: a refused start-up has still loaded the library from
    /// the settings, a refused message changes nothing.
    pub fn update(&mut self, msg: Message, facts: &Facts) -> (r: Step)
        ensures
            old(self)@.run_once ==> {
                &&& r is Refused <==> !startup_defined(old(self)@, facts)
                &&& r is Refused ==> final(self)@ == read_var_spec(old(self)@, facts.listings@).app
                &&& !(r is Handled)
                &&& r matches Step::Started(c, m) ==> final(self)@ == startup_spec(old(self)@, facts).app
                    && c@ == startup_spec(old(self)@, facts).commands && m == msg
            },
            !old(self)@.run_once ==> {
                &&& r is Refused <==> !app_update_defined(old(self)@, &msg, facts)
                &&& r is Refused ==> final(self)@ == old(self)@
                &&& !(r is Started)
                &&& r matches Step::Handled(c, sv) ==> final(self)@ == app_update_spec(old(self)@, &msg, facts).app
                    && c@ == app_update_spec(old(self)@, &msg, facts).commands && saved_as(
                    sv,
                    app_update_spec(old(self)@, &msg, facts).saved,
                )
            },
    {
        if self.run_once {
            match self.try_startup(facts) {
                Some(c) => Step::Started(c, msg),
                None => Step::Refused,
            }
        } else {
            match self.try_handle(msg, facts) {
                Some((c, sv)) => Step::Handled(c, sv),
                None => Step::Refused,
            }
        }
    }

    /// What the next step needs observed: before the first message, what the
    /// start-up needs (see [`startup_needs_met`]); afterwards, what handling the
    /// message needs (see [`message_needs_met`]).
    pub fn needs(&self, msg: &Message, player_empty: bool) -> (r: Needs)
        ensures
            self@.run_once ==> startup_needs_met(self@, &r),
            !self@.run_once ==> message_needs_met(self@, msg, player_empty, &r),
    {
        if self.run_once {
            self.startup_needs()
        } else {
            self.message_needs(msg, player_empty)
        }
    }

    /// Whether the playback timer runs: while a song plays.
    pub fn ticks(&self) -> (r: bool)
        ensures
            r == (self@.player.play_state == PlayState::Play),
    {
        self.player.play_state == PlayState::Play
    }

    /// Whether the reading timer runs: while the library's data is being read.
    pub fn reads(&self) -> (r: bool)
        ensures
            r == self@.store.is_read,
    {
        self.store.is_read
    }

    /// What handling a message needs observed (see [`message_needs_met`]).
    pub fn message_needs(&self, msg: &Message, player_empty: bool) -> (r: Needs)
        ensures
            message_needs_met(self@, msg, player_empty, &r),
    {
        let empty_folders: Vec<String> = Vec::new();
        assert(texts(empty_folders@) =~= Seq::<Seq<char>>::empty());
        match msg {
            Message::Ui(UiMessage::PlayMusic(p)) => Needs {
                probe: Some(p.music.clone()),
                folders: empty_folders,
                pick_folder: false,
                random_pick: None,
            },
            Message::Ui(UiMessage::AddTagTo(_, p)) => Needs {
                probe: Some(p.music.clone()),
                folders: empty_folders,
                pick_folder: false,
                random_pick: None,
            },
            Message::Ui(UiMessage::PrevMusic) => Needs {
                probe: match self.player.push_target_file(&self.store, -1) {
                    Some(f) => Some(f.music),
                    None => None,
                },
                folders: empty_folders,
                pick_folder: false,
                random_pick: None,
            },
            Message::Ui(UiMessage::NextMusic) => Needs {
                probe: match self.player.push_target_file(&self.store, 1) {
                    Some(f) => Some(f.music),
                    None => None,
                },
                folders: empty_folders,
                pick_folder: false,
                random_pick: None,
            },
            Message::Ui(UiMessage::DeleteOriginPath(_)) => Needs {
                probe: None,
                folders: crate::store::clone_texts(&self.store.search_origin),
                pick_folder: false,
                random_pick: None,
            },
            Message::Ui(UiMessage::OnAddSearchOriginClicked) => Needs {
                probe: None,
                folders: crate::store::clone_texts(&self.store.search_origin),
                pick_folder: true,
                random_pick: None,
            },
            Message::Backend(BackendMessage::Sync) => {
                if !player_empty {
                    return Needs { probe: None, folders: empty_folders, pick_folder: false, random_pick: None };
                }
                let now = match &self.player.now_playing {
                    Some(p) => p,
                    None => {
                        return Needs { probe: None, folders: empty_folders, pick_folder: false, random_pick: None };
                    },
                };
                match self.player.playback_type {
                    PlaybackType::OnceStop => Needs {
                        probe: None,
                        folders: empty_folders,
                        pick_folder: false,
                        random_pick: None,
                    },
                    PlaybackType::OneWhile => Needs {
                        probe: Some(now.music.clone()),
                        folders: empty_folders,
                        pick_folder: false,
                        random_pick: None,
                    },
                    PlaybackType::MusicNext => Needs {
                        probe: match self.player.push_target_file(&self.store, 1) {
                            Some(f) => Some(f.music),
                            None => None,
                        },
                        folders: empty_folders,
                        pick_folder: false,
                        random_pick: None,
                    },
                    PlaybackType::RadomPlay => {
                        let pick = self.player.draw_random_pick(&self.store);
                        let probe = match pick {
                            Some(k) => match self.store.list_for(&self.player.play_list) {
                                Some(l) => Some(l[k].music.clone()),
                                None => None,
                            },
                            None => None,
                        };
                        Needs { probe, folders: empty_folders, pick_folder: false, random_pick: pick }
                    },
                }
            },
            Message::Backend(BackendMessage::ReadFileData) => Needs {
                probe: if self.store.idx < self.store.music_files.len() {
                    Some(self.store.music_files[self.store.idx].music.clone())
                } else {
                    None
                },
                folders: empty_folders,
                pick_folder: false,
                random_pick: None,
            },
            _ => Needs { probe: None, folders: empty_folders, pick_folder: false, random_pick: None },
        }
    }
}

} // verus!
