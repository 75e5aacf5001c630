use rimusic::music_file::{FileReport, MusicFile, OpenOutcome, TagRead};
use rimusic::player::Player;
use rimusic::session::{RIMusic, Step};
use rimusic::settings::{SettingKeys, Settings};
use rimusic::state::{AudioCommand, BackendMessage, DirListing, Facts, Message, PlayList, PlayState, PlaybackType, UiMessage, UiView};
use rimusic::store::MusicStore;
use rimusic::tag_map::TagMap;
use rimusic::ui::{format_time, CommonWidget, Ui};

fn song(p: &str) -> MusicFile {
    MusicFile::from_path(p.to_string())
}

fn ready(path: &str, ns: u128, artist: &str) -> FileReport {
    FileReport {
        path: path.to_string(),
        open: OpenOutcome::Ready,
        tags: TagRead::Read { duration_ns: ns, artist: Some(artist.to_string()) },
        decoded_duration: None,
    }
}

fn facts(report: Option<FileReport>) -> Facts {
    Facts {
        report,
        listings: vec![],
        picked_folder: None,
        player_empty: false,
        position_ns: 0,
        random_pick: None,
    }
}

fn settings() -> Settings {
    Settings {
        show_side_bar: false,
        volume: 100,
        search_origin: vec!["/m".to_string()],
        tags: TagMap::new(),
        last_music: None,
        last_position: 0,
        last_playback: PlaybackType::OnceStop,
        last_playlist: PlayList::AllMusic,
        keep_state: false,
        artist: TagMap::new(),
    }
}

fn app() -> RIMusic {
    let mut a = RIMusic::new(settings());
    let f = Facts {
        listings: vec![DirListing { origin: "/m".to_string(), files: vec!["/m/a.mp3".to_string(), "/m/b.mp3".to_string()] }],
        ..facts(None)
    };
    let cmds = a.try_startup(&f).unwrap();
    assert_eq!(cmds, vec![AudioCommand::SetVolume(100)]);
    a
}

#[test]
fn clock_texts() {
    assert_eq!(format_time(0), "0:00");
    assert_eq!(format_time(5), "0:05");
    assert_eq!(format_time(65), "1:05");
    assert_eq!(format_time(600), "10:00");
    assert_eq!(format_time(3599), "59:59");
    assert_eq!(format_time(7322), "122:02");
}

#[test]
fn side_bar_buttons() {
    let ui = Ui::default();
    assert!(CommonWidget::side_bar_target(&ui, UiView::MainView).is_none());
    assert!(matches!(CommonWidget::side_bar_target(&ui, UiView::TagsView), Some(UiMessage::GoView(UiView::TagsView))));
}

#[test]
fn new_tag_button() {
    let mut ui = Ui::default();
    let mut s = MusicStore::new();
    assert!(ui.check_tag_add(&s).is_none());
    ui.new_tag = "fav".to_string();
    assert!(matches!(ui.check_tag_add(&s), Some(UiMessage::AddTag)));
    s.tags.insert("fav".to_string(), vec![]);
    assert!(ui.check_tag_add(&s).is_none());
}

#[test]
fn tag_dialog_buttons() {
    let mut ui = Ui::default();
    let mut s = MusicStore::new();
    s.tags.insert("fav".to_string(), vec![song("/m/a.mp3")]);
    ui.operate_files = Some(song("/m/a.mp3"));
    assert!(ui.check_music_in_tag(&s, &"fav".to_string()).is_none());
    match ui.check_music_in_tag(&s, &"new".to_string()) {
        Some(UiMessage::AddTagTo(t, f)) => {
            assert_eq!(t, "new");
            assert_eq!(f.music, "/m/a.mp3");
        }
        _ => panic!("expected a request to tag"),
    }
}

#[test]
fn startup_scans_and_keeps_volume() {
    let a = app();
    assert!(!a.run_once);
    assert_eq!(a.store.music_files.len(), 2);
    assert_eq!(a.store.search_origin, vec!["/m".to_string()]);
}

#[test]
fn startup_restores_kept_song() {
    let mut st = settings();
    st.keep_state = true;
    st.last_music = Some(song("/m/b.mp3"));
    st.last_position = 1_500_123_456;
    st.last_playback = PlaybackType::MusicNext;
    let mut a = RIMusic::new(st);
    let needs = a.startup_needs();
    assert_eq!(needs.probe.as_deref(), Some("/m/b.mp3"));
    assert_eq!(needs.folders, vec!["/m".to_string()]);
    let f = Facts {
        listings: vec![DirListing { origin: "/m".to_string(), files: vec!["/m/a.mp3".to_string(), "/m/b.mp3".to_string()] }],
        ..facts(Some(ready("/m/b.mp3", 9000, "Q")))
    };
    let cmds = a.try_startup(&f).unwrap();
    assert_eq!(a.player.now_playing.as_ref().unwrap().music, "/m/b.mp3");
    assert_eq!(a.player.play_state, PlayState::Stop);
    assert_eq!(a.player.playback_type, PlaybackType::MusicNext);
    assert_eq!(a.player.total_music_time, 9000);
    assert_eq!(
        &cmds[cmds.len() - 3..],
        &[AudioCommand::Pause, AudioCommand::Seek(1_500_123_456), AudioCommand::ShowPosition(1500)]
    );
}

#[test]
fn startup_with_a_vanished_song_is_refused() {
    let mut st = settings();
    st.keep_state = true;
    st.last_music = Some(song("/gone/x.mp3"));
    let mut a = RIMusic::new(st);
    let f = facts(Some(ready("/gone/x.mp3", 1, "Q")));
    assert!(a.try_startup(&f).is_none());
}

#[test]
fn playing_from_the_library_page() {
    let mut a = app();
    let msg = Message::Ui(UiMessage::PlayMusic(song("/m/a.mp3")));
    let needs = a.needs(&msg, false);
    assert_eq!(needs.probe.as_deref(), Some("/m/a.mp3"));
    let (cmds, saved) = a.try_handle(msg, &facts(Some(ready("/m/a.mp3", 1000, "A")))).unwrap();
    assert!(saved.is_none());
    assert_eq!(cmds.len(), 4);
    assert_eq!(a.player.music_name, "a.mp3");
    assert!(!a.ui.show_music_open_failure);
}

#[test]
fn failed_start_shows_the_notice() {
    let mut a = app();
    let bad = FileReport { path: "/m/a.mp3".to_string(), open: OpenOutcome::Unplayable, tags: TagRead::OpenFailed, decoded_duration: None };
    a.try_handle(Message::Ui(UiMessage::PlayMusic(song("/m/a.mp3"))), &facts(Some(bad))).unwrap();
    assert!(a.ui.show_music_open_failure);
    a.try_handle(Message::Ui(UiMessage::CloseMusicOpenFailureMsg), &facts(None)).unwrap();
    assert!(!a.ui.show_music_open_failure);
}

#[test]
fn update_without_the_needed_probe_is_refused() {
    let mut a = app();
    assert!(a.try_handle(Message::Ui(UiMessage::PlayMusic(song("/m/a.mp3"))), &facts(None)).is_none());
    assert!(a.try_handle(Message::Ui(UiMessage::PlayMusic(song("/m/a.mp3"))), &facts(Some(ready("/m/b.mp3", 1, "A")))).is_none());
    assert!(a.try_handle(Message::Ui(UiMessage::NextMusic), &facts(Some(ready("/m/b.mp3", 1, "A")))).is_none());
    assert!(a.player.now_playing.is_none());
}

#[test]
fn next_and_previous_songs() {
    let mut a = app();
    a.try_handle(Message::Ui(UiMessage::PlayMusic(song("/m/a.mp3"))), &facts(Some(ready("/m/a.mp3", 1, "A")))).unwrap();
    let msg = Message::Ui(UiMessage::NextMusic);
    assert_eq!(a.needs(&msg, false).probe.as_deref(), Some("/m/b.mp3"));
    a.try_handle(msg, &facts(Some(ready("/m/b.mp3", 1, "B")))).unwrap();
    assert_eq!(a.player.now_playing.as_ref().unwrap().music, "/m/b.mp3");
    let msg = Message::Ui(UiMessage::PrevMusic);
    assert_eq!(a.needs(&msg, false).probe.as_deref(), Some("/m/a.mp3"));
    a.try_handle(msg, &facts(Some(ready("/m/a.mp3", 1, "A")))).unwrap();
    assert_eq!(a.player.now_playing.as_ref().unwrap().music, "/m/a.mp3");
}

#[test]
fn slider_and_pause() {
    let mut a = app();
    let (cmds, _) = a.try_handle(Message::Ui(UiMessage::OnValueChanged(2500)), &facts(None)).unwrap();
    assert_eq!(cmds, vec![AudioCommand::Pause, AudioCommand::ShowPosition(2500), AudioCommand::SeekOrFail(2500)]);
    let (cmds, _) = a.try_handle(Message::Ui(UiMessage::OnReleaseSlider), &facts(None)).unwrap();
    assert_eq!(cmds, vec![AudioCommand::Play]);
    assert_eq!(a.player.play_state, PlayState::Play);
    a.try_handle(Message::Ui(UiMessage::OnPSSwitchClicked), &facts(None)).unwrap();
    assert!(a.ui.force_stop);
    let (cmds, _) = a.try_handle(Message::Ui(UiMessage::OnReleaseSlider), &facts(None)).unwrap();
    assert!(cmds.is_empty());
    assert_eq!(a.player.play_state, PlayState::Stop);
}

#[test]
fn pages_and_dialogs() {
    let mut a = app();
    a.try_handle(Message::Ui(UiMessage::SwitchSideBarShow), &facts(None)).unwrap();
    assert!(a.ui.side_bar_show);
    a.try_handle(Message::Ui(UiMessage::GoView(UiView::SearchView)), &facts(None)).unwrap();
    assert!(!a.ui.side_bar_show);
    assert!(matches!(a.ui.view, UiView::SearchView));
    a.try_handle(Message::Ui(UiMessage::WhenSearchTextType("ro".to_string())), &facts(None)).unwrap();
    assert_eq!(a.ui.search_text, "ro");
    a.try_handle(Message::Ui(UiMessage::OpenNewTagMsg), &facts(None)).unwrap();
    a.try_handle(Message::Ui(UiMessage::WhenNewTagType("fav".to_string())), &facts(None)).unwrap();
    a.try_handle(Message::Ui(UiMessage::AddTag), &facts(None)).unwrap();
    assert!(!a.ui.show_new_tag_modal);
    assert_eq!(a.ui.new_tag, "");
    assert!(a.store.tags.contains_key(&"fav".to_string()));
    a.try_handle(Message::Ui(UiMessage::OpenSetTagMsg(song("/m/a.mp3"))), &facts(None)).unwrap();
    assert!(a.ui.show_set_tag_modal);
    a.try_handle(Message::Ui(UiMessage::AddTagTo("fav".to_string(), song("/m/a.mp3"))), &facts(Some(ready("/m/a.mp3", 1, "A")))).unwrap();
    assert!(!a.ui.show_set_tag_modal);
    assert_eq!(a.store.tags.get(&"fav".to_string()).unwrap().len(), 1);
    a.try_handle(Message::Ui(UiMessage::GoView(UiView::TagView("fav".to_string()))), &facts(None)).unwrap();
    a.try_handle(Message::Ui(UiMessage::RemoveMusicFromTag(song("/m/a.mp3"))), &facts(None)).unwrap();
    assert_eq!(a.store.tags.get(&"fav".to_string()).unwrap().len(), 0);
    a.try_handle(Message::Ui(UiMessage::RemoveTag("fav".to_string())), &facts(None)).unwrap();
    assert!(matches!(a.ui.view, UiView::TagsView));
    assert!(!a.store.tags.contains_key(&"fav".to_string()));
    a.try_handle(Message::Ui(UiMessage::WhenExpSearchOriginClicked), &facts(None)).unwrap();
    assert!(a.ui.show_exp_search_origin);
    a.try_handle(Message::Ui(UiMessage::OnPlaybackTypeChanged(PlaybackType::RadomPlay)), &facts(None)).unwrap();
    assert_eq!(a.player.playback_type, PlaybackType::RadomPlay);
}

#[test]
fn settings_changes() {
    let mut a = app();
    let (cmds, _) = a.try_handle(Message::Ui(UiMessage::WhenSettingChanged(SettingKeys::Volume(40))), &facts(None)).unwrap();
    assert_eq!(cmds, vec![AudioCommand::SetVolume(40)]);
    assert_eq!(a.settings.volume, 40);
    a.try_handle(Message::Ui(UiMessage::WhenSettingChanged(SettingKeys::ShowSideBar(true))), &facts(None)).unwrap();
    assert!(a.settings.show_side_bar);
    a.try_handle(Message::Ui(UiMessage::WhenSettingChanged(SettingKeys::KeepPlayState(true))), &facts(None)).unwrap();
    assert!(a.settings.keep_state);
}

#[test]
fn removing_a_folder_rescans() {
    let mut a = app();
    a.store.search_origin.push("/n".to_string());
    a.try_handle(Message::Ui(UiMessage::PlayMusic(song("/m/a.mp3"))), &facts(Some(ready("/m/a.mp3", 1, "A")))).unwrap();
    let msg = Message::Ui(UiMessage::DeleteOriginPath("/m".to_string()));
    assert_eq!(a.needs(&msg, false).folders, vec!["/m".to_string(), "/n".to_string()]);
    let f = Facts {
        listings: vec![
            DirListing { origin: "/m".to_string(), files: vec!["/m/a.mp3".to_string()] },
            DirListing { origin: "/n".to_string(), files: vec!["/n/z.ogg".to_string()] },
        ],
        ..facts(None)
    };
    let (cmds, _) = a.try_handle(msg, &f).unwrap();
    assert_eq!(cmds, vec![AudioCommand::Stop, AudioCommand::ShowPosition(0), AudioCommand::SeekOrFail(0)]);
    assert!(a.player.now_playing.is_none());
    assert_eq!(a.store.search_origin, vec!["/n".to_string()]);
    assert_eq!(a.store.music_files.len(), 1);
    assert_eq!(a.store.music_files[0].music, "/n/z.ogg");
    assert!(a.store.is_read);
}

#[test]
fn adding_a_folder() {
    let mut a = app();
    let msg = Message::Ui(UiMessage::OnAddSearchOriginClicked);
    assert!(a.needs(&msg, false).pick_folder);
    let f = Facts {
        picked_folder: Some("/n".to_string()),
        listings: vec![
            DirListing { origin: "/m".to_string(), files: vec!["/m/a.mp3".to_string()] },
            DirListing { origin: "/n".to_string(), files: vec!["/n/z.ogg".to_string()] },
        ],
        ..facts(None)
    };
    a.try_handle(msg, &f).unwrap();
    assert_eq!(a.store.search_origin, vec!["/m".to_string(), "/n".to_string()]);
    assert_eq!(a.store.music_files.len(), 4);
    let f2 = Facts { picked_folder: Some("/n/".to_string()), ..facts(None) };
    a.try_handle(Message::Ui(UiMessage::OnAddSearchOriginClicked), &f2).unwrap();
    assert_eq!(a.store.search_origin.len(), 2);
}

#[test]
fn ticks_and_reading() {
    let mut a = app();
    a.try_handle(Message::Ui(UiMessage::PlayMusic(song("/m/a.mp3"))), &facts(Some(ready("/m/a.mp3", 1, "A")))).unwrap();
    a.player.playback_type = PlaybackType::MusicNext;
    let msg = Message::Backend(BackendMessage::Sync);
    assert!(a.needs(&msg, false).probe.is_none());
    assert_eq!(a.needs(&msg, true).probe.as_deref(), Some("/m/b.mp3"));
    let f = Facts { player_empty: true, ..facts(Some(ready("/m/b.mp3", 1, "B"))) };
    a.try_handle(msg, &f).unwrap();
    assert_eq!(a.player.now_playing.as_ref().unwrap().music, "/m/b.mp3");

    a.player.playback_type = PlaybackType::RadomPlay;
    let msg = Message::Backend(BackendMessage::Sync);
    let needs = a.needs(&msg, true);
    let k = needs.random_pick.unwrap();
    assert!(k < 2);
    let path = needs.probe.unwrap();
    let f = Facts { player_empty: true, random_pick: Some(k), ..facts(Some(ready(&path, 1, "B"))) };
    a.try_handle(msg, &f).unwrap();
    assert_eq!(a.player.now_playing.as_ref().unwrap().music, path);

    let msg = Message::Backend(BackendMessage::ReadFileData);
    assert_eq!(a.needs(&msg, false).probe.as_deref(), Some("/m/a.mp3"));
    a.try_handle(msg, &facts(Some(ready("/m/a.mp3", 1, "Artist")))).unwrap();
    assert_eq!(a.store.idx, 1);
    // the song's artist was already read when it was played
    assert!(a.store.artists.contains_key(&"A".to_string()));
    assert!(!a.store.artists.contains_key(&"Artist".to_string()));
}

#[test]
fn closing_saves_and_the_next_start_restores() {
    let mut a = app();
    a.try_handle(Message::Ui(UiMessage::PlayMusic(song("/m/b.mp3"))), &facts(Some(ready("/m/b.mp3", 1, "A")))).unwrap();
    a.player.playback_type = PlaybackType::OneWhile;
    a.store.tags.insert("fav".to_string(), vec![song("/m/b.mp3")]);
    let f = Facts { position_ns: 777_654_321, ..facts(None) };
    let (_, saved) = a.try_handle(Message::Backend(BackendMessage::CloseSave), &f).unwrap();
    assert!(a.exit);
    let mut saved = saved.unwrap();
    assert_eq!(saved.last_position, 777_654_321);
    assert_eq!(saved.last_music.as_ref().unwrap().music, "/m/b.mp3");
    saved.keep_state = true;
    let mut b = RIMusic::new(saved);
    let f = Facts {
        listings: vec![DirListing { origin: "/m".to_string(), files: vec!["/m/a.mp3".to_string(), "/m/b.mp3".to_string()] }],
        ..facts(Some(ready("/m/b.mp3", 1, "A")))
    };
    let cmds = b.try_startup(&f).unwrap();
    assert_eq!(&cmds[cmds.len() - 2..], &[AudioCommand::Seek(777_654_321), AudioCommand::ShowPosition(777)]);
    assert!(b.store.tags.contains_key(&"fav".to_string()));
    assert_eq!(b.player.playback_type, PlaybackType::OneWhile);
    assert_eq!(b.player.now_playing.as_ref().unwrap().music, "/m/b.mp3");
}

#[test]
fn default_settings_have_one_folder() {
    let s = Settings::default();
    assert_eq!(s.search_origin.len(), 1);
    assert_eq!(s.volume, 100);
    assert!(!s.keep_state);
    let p = Player::new();
    let st = MusicStore::new();
    let saved = s.save(&st, &p, 5);
    assert_eq!(saved.last_position, 5);
    assert!(saved.search_origin.is_empty());
}

#[test]
fn applying_a_setting_twice_is_applying_it_once() {
    let mut s = settings();
    s.set_setting(SettingKeys::Volume(30));
    s.set_setting(SettingKeys::Volume(30));
    assert_eq!(s.volume, 30);
    s.set_setting(SettingKeys::KeepPlayState(true));
    s.set_setting(SettingKeys::KeepPlayState(true));
    assert!(s.keep_state);
    assert!(!s.show_side_bar);
}

#[test]
fn first_step_starts_up_then_the_message_is_handled() {
    let mut a = RIMusic::new(settings());
    let msg = Message::Ui(UiMessage::SwitchSideBarShow);
    let needs = a.needs(&msg, false);
    assert!(needs.probe.is_none());
    assert_eq!(needs.folders, vec!["/m".to_string()]);
    let f = Facts {
        listings: vec![DirListing { origin: "/m".to_string(), files: vec!["/m/a.mp3".to_string(), "/m/b.mp3".to_string()] }],
        ..facts(None)
    };
    let back = match a.update(msg, &f) {
        Step::Started(cmds, back) => {
            assert_eq!(cmds, vec![AudioCommand::SetVolume(100)]);
            back
        }
        _ => panic!("expected the start-up"),
    };
    assert!(matches!(back, Message::Ui(UiMessage::SwitchSideBarShow)));
    assert!(!a.run_once);
    assert_eq!(a.store.music_files.len(), 2);
    assert!(!a.ui.side_bar_show);
    assert!(a.needs(&back, false).folders.is_empty());
    match a.update(back, &facts(None)) {
        Step::Handled(cmds, saved) => {
            assert!(cmds.is_empty());
            assert!(saved.is_none());
        }
        _ => panic!("expected the message to be handled"),
    }
    assert!(a.ui.side_bar_show);
    assert!(!a.run_once);
}

#[test]
fn refused_steps() {
    let mut st = settings();
    st.keep_state = true;
    st.last_music = Some(song("/gone/x.mp3"));
    let mut a = RIMusic::new(st);
    let f = facts(Some(ready("/gone/x.mp3", 1, "Q")));
    assert!(matches!(a.update(Message::Ui(UiMessage::SwitchSideBarShow), &f), Step::Refused));
    assert!(a.run_once);
    assert_eq!(a.store.search_origin, vec!["/m".to_string()]);

    let mut b = app();
    assert!(matches!(b.update(Message::Ui(UiMessage::PlayMusic(song("/m/a.mp3"))), &facts(None)), Step::Refused));
    assert!(b.player.now_playing.is_none());
}

#[test]
fn closing_is_handled_through_the_step() {
    let mut a = app();
    match a.update(Message::Backend(BackendMessage::CloseSave), &facts(None)) {
        Step::Handled(_, saved) => assert!(saved.is_some()),
        _ => panic!("expected the message to be handled"),
    }
    assert!(a.exit);
}

#[test]
fn timers_follow_playback_and_reading() {
    let mut a = app();
    assert!(!a.ticks());
    assert!(a.reads());
    a.try_handle(Message::Ui(UiMessage::PlayMusic(song("/m/a.mp3"))), &facts(Some(ready("/m/a.mp3", 1, "A")))).unwrap();
    assert!(a.ticks());
    a.store.is_read = false;
    assert!(!a.reads());
}

#[test]
fn song_card_texts_and_buttons() {
    let mut f = song("/m/a.mp3");
    assert_eq!(Ui::card_time(&f), "--:--");
    assert_eq!(Ui::card_artist(&f), "--");
    f.duration = Some(65_999_999_999);
    f.artist = Some("Queen".to_string());
    assert_eq!(Ui::card_time(&f), "1:05");
    assert_eq!(Ui::card_artist(&f), "Queen");
    f.duration = Some(u128::MAX);
    assert_eq!(Ui::card_time(&f), format_time(u64::MAX));
    let mut ui = Ui::default();
    assert!(!ui.card_removable());
    ui.view = UiView::TagView("fav".to_string());
    assert!(ui.card_removable());
    ui.view = UiView::ArtistView("Queen".to_string());
    assert!(!ui.card_removable());
    let mut p = Player::new();
    assert!(!Ui::skip_enabled(&p));
    p.now_playing = Some(song("/m/a.mp3"));
    assert!(Ui::skip_enabled(&p));
}

#[test]
fn removing_the_shown_tag_leaves_its_page() {
    let mut a = app();
    a.try_handle(Message::Ui(UiMessage::OpenNewTagMsg), &facts(None)).unwrap();
    a.try_handle(Message::Ui(UiMessage::WhenNewTagType("fav".to_string())), &facts(None)).unwrap();
    a.try_handle(Message::Ui(UiMessage::AddTag), &facts(None)).unwrap();
    a.try_handle(Message::Ui(UiMessage::GoView(UiView::TagView("fav".to_string()))), &facts(None)).unwrap();
    a.try_handle(Message::Ui(UiMessage::RemoveTag("fav".to_string())), &facts(None)).unwrap();
    assert!(matches!(a.ui.view, UiView::TagsView));
    assert!(a.store.tags.get(&"fav".to_string()).is_none());
}
