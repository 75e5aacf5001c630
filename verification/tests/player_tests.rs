use rimusic::music_file::{FileReport, MusicFile, OpenOutcome, TagRead};
use rimusic::player::{music_title, Player};
use rimusic::state::{AudioCommand, PlayList, PlayState, PlaybackType};
use rimusic::store::MusicStore;

fn song(p: &str) -> MusicFile {
    MusicFile::from_path(p.to_string())
}

fn ready(path: &str, ns: u128, artist: &str) -> FileReport {
    FileReport {
        path: path.to_string(),
        open: OpenOutcome::Ready,
        tags: TagRead::Read { duration_ns: ns, artist: Some(artist.to_string()) },
        decoded_duration: None,
    }
}

fn with_open(path: &str, open: OpenOutcome) -> FileReport {
    FileReport { path: path.to_string(), open, tags: TagRead::OpenFailed, decoded_duration: None }
}

fn library(paths: &[&str]) -> MusicStore {
    let mut s = MusicStore::new();
    s.music_files = paths.iter().map(|p| song(p)).collect();
    s
}

#[test]
fn next_index_wraps_both_ways() {
    assert_eq!(Player::calc_next_idx(5, 4, 1), 0);
    assert_eq!(Player::calc_next_idx(5, 2, 1), 3);
    assert_eq!(Player::calc_next_idx(5, 0, -1), 4);
    assert_eq!(Player::calc_next_idx(5, 3, -1), 2);
    assert_eq!(Player::calc_next_idx(0, 0, -1), 0);
    assert_eq!(Player::calc_next_idx(3, 1, 7), 2);
}

#[test]
fn stepping_forward_then_back_returns() {
    for len in 1..6usize {
        for pos in 0..len {
            let n = Player::calc_next_idx(len, pos, 1);
            assert!(n < len);
            assert_eq!(Player::calc_next_idx(len, n, -1), pos);
            let p = Player::calc_next_idx(len, pos, -1);
            assert_eq!(Player::calc_next_idx(len, p, 1), pos);
        }
    }
}

#[test]
fn titles_are_cut_after_twenty_characters() {
    assert_eq!(music_title(&"short.mp3".to_string()), "short.mp3");
    assert_eq!(music_title(&"01234567890123456789".to_string()), "01234567890123456789");
    assert_eq!(music_title(&"0123456789012345678901.mp3".to_string()), "01234567890123456789...");
    assert_eq!(music_title(&"一二三四五六七八九十一二三四五六七八九十一".to_string()), "一二三四五六七八九十一二三四五六七八九十...");
}

#[test]
fn a_new_player_is_idle() {
    let p = Player::new();
    assert_eq!(p.music_name, "TEST MUSIC TITLE");
    assert!(p.now_playing.is_none());
    assert_eq!(p.play_state, PlayState::Stop);
    assert_eq!(p.playback_type, PlaybackType::OnceStop);
    assert!(matches!(p.play_list, PlayList::AllMusic));
    assert_eq!(p.total_music_time, 0);
}

#[test]
fn playing_a_ready_file() {
    let mut s = library(&["/m/a.mp3", "/m/b.mp3"]);
    let mut p = Player::new();
    let mut cmds = Vec::new();
    let r = p.play_music(song("/m/b.mp3"), &mut s, &ready("/m/b.mp3", 4000, "Z"), &mut cmds);
    assert!(r.is_ok());
    assert_eq!(p.play_state, PlayState::Play);
    assert_eq!(p.total_music_time, 4000);
    assert_eq!(p.music_name, "b.mp3");
    assert_eq!(p.now_playing.as_ref().unwrap().music, "/m/b.mp3");
    assert_eq!(p.now_playing.as_ref().unwrap().artist, None);
    assert_eq!(s.music_files[1].artist.as_deref(), Some("Z"));
    assert_eq!(s.music_files[1].duration, Some(4000));
    assert_eq!(
        cmds,
        vec![AudioCommand::Clear, AudioCommand::ReadPosition, AudioCommand::StartDecoded, AudioCommand::Play]
    );
}

#[test]
fn playing_a_broken_file_fails() {
    let mut s = library(&["/m/a.mp3"]);
    let mut p = Player::new();
    let mut cmds = Vec::new();
    assert!(p.play_music(song("/m/a.mp3"), &mut s, &with_open("/m/a.mp3", OpenOutcome::Unplayable), &mut cmds).is_err());
    assert!(p.now_playing.is_none());
    assert!(p.play_music(song("/m/a.mp3"), &mut s, &with_open("/m/a.mp3", OpenOutcome::OpenFailed), &mut cmds).is_err());
    assert!(p.now_playing.is_none());
    assert!(p.play_music(song("/m/a.mp3"), &mut s, &with_open("/m/a.mp3", OpenOutcome::DecodeFailed), &mut cmds).is_err());
    assert_eq!(p.now_playing.as_ref().unwrap().music, "/m/a.mp3");
    assert_eq!(p.play_state, PlayState::Stop);
    assert!(cmds.is_empty());
}

#[test]
fn stepping_through_the_library() {
    let mut s = library(&["/m/a.mp3", "/m/b.mp3", "/m/c.mp3"]);
    let mut p = Player::new();
    let mut cmds = Vec::new();
    p.play_music(song("/m/c.mp3"), &mut s, &ready("/m/c.mp3", 1, "A"), &mut cmds).unwrap();
    assert_eq!(p.push_target_file(&s, 1).unwrap().music, "/m/a.mp3");
    assert!(p.can_push(&s, 1, &ready("/m/a.mp3", 1, "A")));
    p.music_play_push(1, &mut s, &ready("/m/a.mp3", 2, "B"), &mut cmds).unwrap();
    assert_eq!(p.now_playing.as_ref().unwrap().music, "/m/a.mp3");
    p.music_play_push(-1, &mut s, &ready("/m/c.mp3", 3, "C"), &mut cmds).unwrap();
    assert_eq!(p.now_playing.as_ref().unwrap().music, "/m/c.mp3");
    assert!(p.push_target_file(&MusicStore::new(), 1).is_none());
}

#[test]
fn switching_twice_restores() {
    let mut p = Player::new();
    let mut cmds = Vec::new();
    assert!(!p.ps_switch(&mut cmds));
    assert_eq!(p.play_state, PlayState::Play);
    assert!(p.ps_switch(&mut cmds));
    assert_eq!(p.play_state, PlayState::Stop);
    assert_eq!(cmds, vec![AudioCommand::Play, AudioCommand::Pause]);
}

#[test]
fn unloading_the_song() {
    let mut s = library(&["/m/a.mp3"]);
    let mut p = Player::new();
    let mut cmds = Vec::new();
    p.play_music(song("/m/a.mp3"), &mut s, &ready("/m/a.mp3", 1, "A"), &mut cmds).unwrap();
    cmds.clear();
    p.player_default(&mut cmds);
    assert!(p.now_playing.is_none());
    assert_eq!(p.music_name, "TEST MUSIC TITLE");
    assert_eq!(cmds, vec![AudioCommand::Stop, AudioCommand::ShowPosition(0), AudioCommand::SeekOrFail(0)]);
}

#[test]
fn tick_while_sound_remains_only_reads_position() {
    let mut s = library(&["/m/a.mp3"]);
    let mut p = Player::new();
    let mut cmds = Vec::new();
    p.sync(&mut s, false, None, &None, &mut cmds).unwrap();
    assert_eq!(cmds, vec![AudioCommand::ReadPosition]);
}

#[test]
fn tick_at_end_in_each_mode() {
    let mut s = library(&["/m/a.mp3", "/m/b.mp3"]);
    let mut p = Player::new();
    let mut cmds = Vec::new();
    p.play_music(song("/m/a.mp3"), &mut s, &ready("/m/a.mp3", 1, "A"), &mut cmds).unwrap();

    cmds.clear();
    p.sync(&mut s, true, None, &None, &mut cmds).unwrap();
    assert_eq!(p.play_state, PlayState::Stop);
    assert_eq!(cmds, vec![AudioCommand::ReadPosition, AudioCommand::ShowPosition(0), AudioCommand::SeekOrFail(0)]);

    p.playback_type = PlaybackType::MusicNext;
    p.sync(&mut s, true, None, &Some(ready("/m/b.mp3", 1, "B")), &mut cmds).unwrap();
    assert_eq!(p.now_playing.as_ref().unwrap().music, "/m/b.mp3");

    p.playback_type = PlaybackType::OneWhile;
    cmds.clear();
    p.sync(&mut s, true, None, &Some(ready("/m/b.mp3", 1, "B")), &mut cmds).unwrap();
    assert_eq!(p.now_playing.as_ref().unwrap().music, "/m/b.mp3");
    assert_eq!(cmds.last(), Some(&AudioCommand::SeekOrFail(0)));
    assert!(cmds.contains(&AudioCommand::Play));

    p.playback_type = PlaybackType::RadomPlay;
    let pick = p.draw_random_pick(&s).unwrap();
    assert!(pick < 2);
    p.sync(&mut s, true, Some(0), &Some(ready("/m/a.mp3", 1, "A")), &mut cmds).unwrap();
    assert_eq!(p.now_playing.as_ref().unwrap().music, "/m/a.mp3");

    cmds.clear();
    let r = p.sync(&mut s, true, Some(1), &Some(with_open("/m/b.mp3", OpenOutcome::Unplayable)), &mut cmds);
    assert!(r.is_err());
    assert_eq!(cmds, vec![AudioCommand::ReadPosition]);
}

#[test]
fn finding_the_current_song() {
    let mut s = library(&["/m/a.mp3", "/m/b.mp3", "/m/b.mp3"]);
    let mut p = Player::new();
    let mut cmds = Vec::new();
    p.play_music(song("/m/b.mp3"), &mut s, &ready("/m/b.mp3", 1, "A"), &mut cmds).unwrap();
    assert_eq!(s.find_music(&p), 1);
}

#[test]
fn removing_the_walked_tag_unloads_the_song() {
    let mut s = MusicStore::new();
    s.tags.insert("fav".to_string(), vec![song("/m/a.mp3")]);
    let mut p = Player::new();
    p.play_list = PlayList::Tags("fav".to_string());
    let mut cmds = Vec::new();
    p.play_music(song("/m/a.mp3"), &mut s, &ready("/m/a.mp3", 1, "A"), &mut cmds).unwrap();
    cmds.clear();
    s.remove_tag(&mut p, "other".to_string(), &mut cmds);
    assert!(p.now_playing.is_some());
    s.remove_tag(&mut p, "fav".to_string(), &mut cmds);
    assert!(p.now_playing.is_none());
    assert!(!s.tags.contains_key(&"fav".to_string()));
    assert_eq!(cmds.len(), 3);
}

#[test]
fn removing_the_current_song_from_a_tag() {
    let mut s = MusicStore::new();
    s.tags.insert("fav".to_string(), vec![song("/m/a.mp3"), song("/m/b.mp3"), song("/m/a.mp3")]);
    let mut p = Player::new();
    p.now_playing = Some(song("/m/b.mp3"));
    let mut cmds = Vec::new();
    s.remove_music_from_tag(&mut p, &"fav".to_string(), song("/m/a.mp3"), &mut cmds);
    let l = s.tags.get(&"fav".to_string()).unwrap();
    assert_eq!(l.len(), 2);
    assert_eq!(l[0].music, "/m/b.mp3");
    assert!(p.now_playing.is_some());
    s.remove_music_from_tag(&mut p, &"fav".to_string(), song("/m/b.mp3"), &mut cmds);
    assert!(p.now_playing.is_none());
}

#[test]
fn playback_labels() {
    assert_eq!(PlaybackType::OnceStop.label(), "单曲即停");
    assert_eq!(PlaybackType::OneWhile.label(), "单曲循环");
    assert_eq!(PlaybackType::MusicNext.label(), "下一曲");
    assert_eq!(PlaybackType::RadomPlay.label(), "随机播放");
}
