//! Properties that hold across operations of the library.

use vstd::prelude::*;
use crate::music_file::{FileReport, MusicFile, MusicFileModel, OpenOutcome, with_all_data};
use crate::paths::{path_extension, same_path};
use crate::player::{PlayerModel, display_name, next_index, play_spec, switched, sync_spec};
use crate::session::{RIMusicModel, app_update_spec, backend_spec, read_play_spec, read_var_spec, startup_spec};
use crate::settings::{SettingKeys, SettingsModel, setting_applied};
use crate::state::{
    BackendMessage, DirListing, Facts, Message, PlayListModel, PlayState, PlaybackType, UiMessage, UiViewModel,
};
use crate::store::{
    MusicStoreModel, has_song, is_first_match, is_first_path, list_of, matches_search, music_paths,
    new_songs, read_one_result, scanned, search_pred, tagged_result, without_path,
};
use crate::ui::{UiModel, ui_update_spec};

verus! {

/// Stepping one song forward and then one back, or back and then forward, returns
/// to the same position of a non-empty list; each step lands inside the list.
pub proof fn lemma_step_round_trip(len: int, pos: int)
    requires
        0 <= pos < len,
    ensures
        0 <= next_index(len, pos, 1) < len,
        0 <= next_index(len, pos, -1) < len,
        next_index(len, next_index(len, pos, 1), -1) == pos,
        next_index(len, next_index(len, pos, -1), 1) == pos,
{
    vstd::arithmetic::div_mod::lemma_small_mod(pos as nat, len as nat);
    vstd::arithmetic::div_mod::lemma_mod_self_0(len);
    if pos + 1 < len {
        vstd::arithmetic::div_mod::lemma_small_mod((pos + 1) as nat, len as nat);
    }
    if pos > 0 {
        vstd::arithmetic::div_mod::lemma_small_mod((pos - 1) as nat, len as nat);
    } else {
        vstd::arithmetic::div_mod::lemma_small_mod((len - 1) as nat, len as nat);
    }
}

/// Whether no two songs of a list are the same song, the earlier compared with the
/// later.
pub open spec fn distinct_songs(l: Seq<MusicFileModel>) -> bool {
    forall|i: int, j: int| 0 <= i < j < l.len() ==> !MusicFile::same_song(#[trigger] l[i], #[trigger] l[j])
}

/// Whether every artist's list holds each song once.
pub open spec fn artists_distinct(s: MusicStoreModel) -> bool {
    forall|k: Seq<char>| #[trigger] s.artists.contains_key(k) ==> distinct_songs(s.artists[k])
}

/// Reading one song's data never files a song twice under an artist.
pub proof fn lemma_read_one_keeps_artists_distinct(s: MusicStoreModel, r: &FileReport)
    requires
        artists_distinct(s),
    ensures
        artists_distinct(read_one_result(s, r)),
{
    let t = read_one_result(s, r);
    if s.idx < s.music_files.len() && r.open != crate::music_file::OpenOutcome::Unplayable {
        let f = with_all_data(s.music_files[s.idx as int], r);
        let art = f.artist.unwrap();
        assert forall|k: Seq<char>| #[trigger] t.artists.contains_key(k) implies distinct_songs(t.artists[k]) by {
            if k == art {
                if s.artists.contains_key(art) && !has_song(s.artists[art], f) {
                    let l = s.artists[art].push(f);
                    assert forall|i: int, j: int| 0 <= i < j < l.len() implies !MusicFile::same_song(
                        #[trigger] l[i],
                        #[trigger] l[j],
                    ) by {
                        if j == l.len() - 1 {
                            assert(l[i] == s.artists[art][i]);
                        } else {
                            assert(distinct_songs(s.artists[art]));
                        }
                    }
                } else if !s.artists.contains_key(art) {
                    assert(t.artists[k] == seq![f]);
                }
            }
        }
    }
}

/// Rescanning twice with the same folder listings gives what rescanning once gives.
pub proof fn lemma_rescan_idempotent(s: MusicStoreModel, listings: Seq<DirListing>)
    ensures
        ({
            let once = MusicStoreModel {
                music_files: new_songs(scanned(s.search_origin, listings)),
                artists: Map::empty(),
                ..s
            };
            let twice = MusicStoreModel {
                music_files: new_songs(scanned(once.search_origin, listings)),
                artists: Map::empty(),
                ..once
            };
            once == twice
        }),
{
}

/// Every search result is a song of the library that matches the text, and there are
/// no more results than songs.
pub proof fn lemma_search_results_match(s: MusicStoreModel, text: Seq<char>)
    ensures
        ({
            let found = s.music_files.filter(search_pred(text));
            &&& found.len() <= s.music_files.len()
            &&& forall|i: int| 0 <= i < found.len() ==> matches_search(#[trigger] found[i], text)
                && s.music_files.contains(found[i])
        }),
{
    let found = s.music_files.filter(search_pred(text));
    s.music_files.lemma_filter_len(search_pred(text));
    assert forall|i: int| 0 <= i < found.len() implies matches_search(#[trigger] found[i], text)
        && s.music_files.contains(found[i]) by {
        s.music_files.lemma_filter_pred(search_pred(text), i);
        assert(found.contains(found[i]));
        s.music_files.lemma_filter_contains_rev(search_pred(text), found[i]);
    }
}

/// Tagging a song leaves the tag holding, as its last song, the song with its data
/// read, after the songs it held before.
pub proof fn lemma_tagging_appends(
    tags: Map<Seq<char>, Seq<MusicFileModel>>,
    t: Seq<char>,
    f: MusicFileModel,
    r: &FileReport,
)
    ensures
        ({
            let after = tagged_result(tags, t, f, r);
            let before = if tags.contains_key(t) {
                tags[t]
            } else {
                Seq::empty()
            };
            &&& after.contains_key(t)
            &&& after[t] == before.push(with_all_data(f, r))
            &&& forall|k: Seq<char>| k != t ==> after.contains_key(k) == tags.contains_key(k)
        }),
{
    if !tags.contains_key(t) {
        assert(seq![with_all_data(f, r)] =~= Seq::<MusicFileModel>::empty().push(with_all_data(f, r)));
    }
}

/// A shown title is never longer than twenty characters plus the ellipsis, and a
/// name of at most twenty characters is shown whole.
pub proof fn lemma_title_bounds(name: Seq<char>)
    ensures
        display_name(name).len() <= 23,
        name.len() <= 20 ==> display_name(name) == name,
        name.len() > 20 ==> display_name(name).take(20) == name.take(20),
{
    if name.len() > 20 {
        assert(display_name(name).take(20) =~= name.take(20));
        assert(display_name(name).len() == 20 + "..."@.len());
        reveal_strlit("...");
    }
}

/// Applying a setting change twice gives what applying it once gives.
pub proof fn lemma_setting_idempotent(s: SettingsModel, k: SettingKeys)
    ensures
        setting_applied(setting_applied(s, k), k) == setting_applied(s, k),
{
}

/// What closing saves, the next start-up restores: the library's search folders,
/// tags and artists, and, when the play state is kept, the playback mode and play
/// list.
pub proof fn lemma_saved_session_restores(m: RIMusicModel, facts: &Facts, next: RIMusicModel, startup: &Facts)
    requires
        next.settings == backend_spec(m, BackendMessage::CloseSave, facts).saved.unwrap(),
    ensures
        ({
            let a = read_var_spec(next, startup.listings@).app;
            &&& a.store.search_origin == m.store.search_origin
            &&& a.store.tags == m.store.tags
            &&& a.store.artists == m.store.artists
        }),
        next.settings.keep_state ==> ({
            let b = read_play_spec(read_var_spec(next, startup.listings@).app, startup.report).app;
            &&& b.player.playback_type == m.player.playback_type
            &&& b.player.play_list == m.player.play_list
            &&& b.player.play_state == PlayState::Stop || next.settings.last_music is None
        }),
{
}

/// Switching between playing and paused twice restores the player; the two switches
/// report opposite former states.
pub proof fn lemma_switch_twice_restores(pl: PlayerModel)
    ensures
        switched(switched(pl)) == pl,
        (pl.play_state == PlayState::Play) != (switched(pl).play_state == PlayState::Play),
{
}

/// Whether a shown tag page names a tag that exists.
pub open spec fn tag_page_valid(u: UiModel, s: MusicStoreModel) -> bool {
    u.view matches UiViewModel::TagView(t) ==> s.tags.contains_key(t)
}

/// Whether a message asks to show the page of a tag that does not exist.
pub open spec fn opens_missing_tag(msg: &UiMessage, s: MusicStoreModel) -> bool {
    match msg {
        UiMessage::GoView(v) => match v@ {
            UiViewModel::TagView(t) => !s.tags.contains_key(t),
            _ => false,
        },
        _ => false,
    }
}

/// A shown tag page keeps naming an existing tag through every interface step but a
/// request to show a tag that does not exist: removing a tag leaves for the tags
/// page, and no other step takes a tag away.
pub proof fn lemma_tag_page_stays_valid(
    u: UiModel,
    pl: PlayerModel,
    s: MusicStoreModel,
    st: SettingsModel,
    msg: &UiMessage,
    facts: &Facts,
)
    requires
        tag_page_valid(u, s),
        !opens_missing_tag(msg, s),
    ensures
        tag_page_valid(ui_update_spec(u, pl, s, st, msg, facts).ui, ui_update_spec(u, pl, s, st, msg, facts).store),
{
    let o = ui_update_spec(u, pl, s, st, msg, facts);
    match msg {
        UiMessage::AddTagTo(t, p) => {
            lemma_tagging_appends(s.tags, t@, p@, &facts.report.unwrap());
        },
        _ => {},
    }
}

/// Whether no folder of a list is the same path as a later one.
pub open spec fn distinct_paths(o: Seq<Seq<char>>) -> bool {
    forall|i: int, j: int| 0 <= i < j < o.len() ==> !same_path(#[trigger] o[i], #[trigger] o[j])
}

/// No interface step makes a search folder the same path as a later one: a picked
/// folder is added only when no folder is the same path as it, and deleting a folder
/// keeps the others in order.
pub proof fn lemma_search_folders_stay_distinct(
    u: UiModel,
    pl: PlayerModel,
    s: MusicStoreModel,
    st: SettingsModel,
    msg: &UiMessage,
    facts: &Facts,
)
    requires
        distinct_paths(s.search_origin),
    ensures
        distinct_paths(ui_update_spec(u, pl, s, st, msg, facts).store.search_origin),
{
    let o = s.search_origin;
    match msg {
        UiMessage::DeleteOriginPath(p) => {
            if exists|i: int| is_first_path(o, p@, i) {
                let k = choose|i: int| is_first_path(o, p@, i);
                let w = o.remove(k);
                assert(without_path(o, p@) == w);
                assert forall|i: int, j: int| 0 <= i < j < w.len() implies !same_path(
                    #[trigger] w[i],
                    #[trigger] w[j],
                ) by {
                    let i2 = if i < k { i } else { i + 1 };
                    let j2 = if j < k { j } else { j + 1 };
                    assert(w[i] == o[i2]);
                    assert(w[j] == o[j2]);
                }
            }
        },
        UiMessage::OnAddSearchOriginClicked => {
            match facts.picked_folder {
                Some(pat) => {
                    let w = o.push(pat@);
                    if !(exists|j: int| 0 <= j < o.len() && same_path(#[trigger] o[j], pat@)) {
                        assert forall|i: int, j: int| 0 <= i < j < w.len() implies !same_path(
                            #[trigger] w[i],
                            #[trigger] w[j],
                        ) by {
                            assert(w[i] == o[i]);
                            if j < o.len() {
                                assert(w[j] == o[j]);
                            }
                        }
                    }
                },
                None => {},
            }
        },
        _ => {},
    }
}

/// The library after reading one song's data per report, in order.
pub open spec fn read_steps(s: MusicStoreModel, rs: Seq<FileReport>) -> MusicStoreModel
    decreases rs.len(),
{
    if rs.len() == 0 {
        s
    } else {
        read_one_result(read_steps(s, rs.drop_last()), &rs.last())
    }
}

/// A reading pass started at the first song takes one step per song, each moving the
/// reading position on by one while reading goes on, and one step more, which ends
/// reading and returns the position to the start.
pub proof fn lemma_read_pass_length(s: MusicStoreModel, rs: Seq<FileReport>)
    requires
        s.idx == 0,
        s.is_read,
        s.music_files.len() <= usize::MAX,
        rs.len() <= s.music_files.len() + 1,
    ensures
        rs.len() <= s.music_files.len() ==> {
            &&& read_steps(s, rs).idx == rs.len()
            &&& read_steps(s, rs).is_read
            &&& read_steps(s, rs).music_files.len() == s.music_files.len()
        },
        rs.len() == s.music_files.len() + 1 ==> {
            &&& !read_steps(s, rs).is_read
            &&& read_steps(s, rs).idx == 0
        },
    decreases rs.len(),
{
    if rs.len() > 0 {
        lemma_read_pass_length(s, rs.drop_last());
        let before = read_steps(s, rs.drop_last());
        assert(read_steps(s, rs) == read_one_result(before, &rs.last()));
    }
}

/// The start-up runs once: it leaves the start-up marked done, and handling a
/// message never marks it pending again.
pub proof fn lemma_startup_runs_once(m: RIMusicModel, startup: &Facts, msg: &Message, facts: &Facts)
    ensures
        !startup_spec(m, startup).app.run_once,
        app_update_spec(m, msg, facts).app.run_once == m.run_once,
{
}

/// Whether a path ends in one of the extensions of the files the library plays:
/// `mp3`, `wav` or `ogg`.
pub open spec fn has_music_extension(p: Seq<char>) -> bool {
    path_extension(p) == Some("mp3"@) || path_extension(p) == Some("wav"@) || path_extension(p)
        == Some("ogg"@)
}

/// Scanning a folder listing keeps exactly its files with the extension `mp3`, `wav`
/// or `ogg`, and scanning the search folders gives only such files.
pub proof fn lemma_scanning_keeps_music_extensions(files: Seq<Seq<char>>, origins: Seq<Seq<char>>, listings: Seq<DirListing>)
    ensures
        forall|p: Seq<char>| #[trigger] music_paths(files).contains(p) <==> (files.contains(p) && has_music_extension(p)),
        forall|i: int| 0 <= i < scanned(origins, listings).len() ==> has_music_extension(#[trigger] scanned(origins, listings)[i]),
    decreases origins.len(),
{
    reveal_strlit("mp3");
    reveal_strlit("wav");
    reveal_strlit("ogg");
    let pred = |p: Seq<char>| crate::store::is_music_path(p);
    assert forall|p: Seq<char>| #[trigger] music_paths(files).contains(p) <==> (files.contains(p) && has_music_extension(p)) by {
        if music_paths(files).contains(p) {
            files.lemma_filter_contains_rev(pred, p);
        }
        if files.contains(p) && has_music_extension(p) {
            files.filter_lemma(pred);
        }
    }
    if origins.len() > 0 {
        lemma_scanning_keeps_music_extensions(files, origins.drop_last(), listings);
        let listed_files = crate::store::listed(listings, origins.last());
        lemma_scanning_keeps_music_extensions(listed_files, Seq::empty(), listings);
        let a = scanned(origins.drop_last(), listings);
        let b = music_paths(listed_files);
        assert forall|i: int| 0 <= i < scanned(origins, listings).len() implies has_music_extension(
            #[trigger] scanned(origins, listings)[i],
        ) by {
            if i >= a.len() {
                assert(scanned(origins, listings)[i] == b[i - a.len()]);
                assert(b.contains(b[i - a.len()]));
            } else {
                assert(scanned(origins, listings)[i] == a[i]);
            }
        }
    }
}

/// Reading one song's data never drops a song from the artist index: every artist
/// filed before keeps its list as a prefix of its list after. A song whose file plays
/// is, once read, in the list of its artist: the list holds it, or the list already
/// held the same song and stays as it was.
pub proof fn lemma_read_one_keeps_artist_lists(s: MusicStoreModel, r: &FileReport)
    ensures
        forall|k: Seq<char>| #[trigger] s.artists.contains_key(k) ==> read_one_result(s, r).artists.contains_key(k)
            && s.artists[k].is_prefix_of(read_one_result(s, r).artists[k]),
        s.idx < s.music_files.len() && r.open != OpenOutcome::Unplayable ==> ({
            let t = read_one_result(s, r);
            let f = t.music_files[s.idx as int];
            let art = f.artist.unwrap();
            &&& t.artists.contains_key(art)
            &&& t.artists[art].contains(f) || (s.artists.contains_key(art) && has_song(s.artists[art], f)
                && t.artists[art] == s.artists[art])
        }),
{
    let t = read_one_result(s, r);
    if s.idx < s.music_files.len() && r.open != OpenOutcome::Unplayable {
        let f = with_all_data(s.music_files[s.idx as int], r);
        let art = f.artist.unwrap();
        assert(t.music_files[s.idx as int] == f);
        assert forall|k: Seq<char>| #[trigger] s.artists.contains_key(k) implies t.artists.contains_key(k)
            && s.artists[k].is_prefix_of(t.artists[k]) by {
            if k == art && s.artists.contains_key(art) && !has_song(s.artists[art], f) {
                assert(s.artists[k] =~= t.artists[k].subrange(0, s.artists[k].len() as int));
            } else {
                assert(s.artists[k] =~= t.artists[k].subrange(0, s.artists[k].len() as int));
            }
        }
        if s.artists.contains_key(art) && !has_song(s.artists[art], f) {
            let l = s.artists[art].push(f);
            assert(l[l.len() - 1] == f);
        } else if !s.artists.contains_key(art) {
            assert(seq![f][0] == f);
        }
    } else {
        assert forall|k: Seq<char>| #[trigger] s.artists.contains_key(k) implies t.artists.contains_key(k)
            && s.artists[k].is_prefix_of(t.artists[k]) by {
            assert(s.artists[k] =~= t.artists[k].subrange(0, s.artists[k].len() as int));
        }
    }
}

/// The ⏮ button starts the song just before the current one in the play list, or
/// the last song when the current one is first; the ⏭ button starts the song just
/// after it, or the first song when the current one is last. The play list stays.
pub proof fn lemma_prev_next_step_by_one(
    u: UiModel,
    pl: PlayerModel,
    s: MusicStoreModel,
    st: SettingsModel,
    facts: &Facts,
    i: int,
)
    requires
        pl.now_playing is Some,
        list_of(s, pl.play_list) is Some,
        is_first_match(list_of(s, pl.play_list).unwrap(), pl.now_playing.unwrap(), i),
        facts.report is Some,
        facts.report.unwrap().open == OpenOutcome::Ready,
    ensures
        ({
            let l = list_of(s, pl.play_list).unwrap();
            let prev = ui_update_spec(u, pl, s, st, &UiMessage::PrevMusic, facts).player;
            let next = ui_update_spec(u, pl, s, st, &UiMessage::NextMusic, facts).player;
            &&& prev.now_playing == Some(l[if i == 0 { l.len() - 1 } else { i - 1 }])
            &&& next.now_playing == Some(l[if i + 1 == l.len() { 0 } else { i + 1 }])
            &&& prev.play_state == PlayState::Play && next.play_state == PlayState::Play
            &&& prev.play_list == pl.play_list && next.play_list == pl.play_list
        }),
{
    let l = list_of(s, pl.play_list).unwrap();
    crate::store::lemma_first_match_unique(l, pl.now_playing.unwrap(), i);
    if i + 1 < l.len() {
        vstd::arithmetic::div_mod::lemma_small_mod((i + 1) as nat, l.len() as nat);
    } else {
        vstd::arithmetic::div_mod::lemma_mod_self_0(l.len() as int);
    }
    if i > 0 {
        vstd::arithmetic::div_mod::lemma_small_mod((i - 1) as nat, l.len() as nat);
    }
}

/// When a song ends in next-song mode, the tick starts the song just after it in
/// the play list, or the first song when it was the last.
pub proof fn lemma_next_song_mode_steps_forward(
    pl: PlayerModel,
    s: MusicStoreModel,
    pick: Option<usize>,
    rep: FileReport,
    i: int,
)
    requires
        pl.now_playing is Some,
        pl.playback_type == PlaybackType::MusicNext,
        list_of(s, pl.play_list) is Some,
        is_first_match(list_of(s, pl.play_list).unwrap(), pl.now_playing.unwrap(), i),
        rep.open == OpenOutcome::Ready,
    ensures
        ({
            let l = list_of(s, pl.play_list).unwrap();
            let o = sync_spec(pl, s, true, pick, Some(rep));
            &&& o.player.now_playing == Some(l[if i + 1 == l.len() { 0 } else { i + 1 }])
            &&& o.player.play_list == pl.play_list
            &&& o.ok
        }),
{
    let l = list_of(s, pl.play_list).unwrap();
    crate::store::lemma_first_match_unique(l, pl.now_playing.unwrap(), i);
    if i + 1 < l.len() {
        vstd::arithmetic::div_mod::lemma_small_mod((i + 1) as nat, l.len() as nat);
    } else {
        vstd::arithmetic::div_mod::lemma_mod_self_0(l.len() as int);
    }
}

/// Starting a song from a page sets the play list that ⏮ and ⏭ walk: the tag of a
/// tag page, the artist of an artist page, the whole library from the library and
/// search pages; from any other page the play list stays. This holds whatever the
/// probe reports.
pub proof fn lemma_play_from_page_sets_play_list(
    u: UiModel,
    pl: PlayerModel,
    s: MusicStoreModel,
    st: SettingsModel,
    p: MusicFile,
    facts: &Facts,
)
    ensures
        ({
            let after = ui_update_spec(u, pl, s, st, &UiMessage::PlayMusic(p), facts).player.play_list;
            &&& u.view matches UiViewModel::ArtistView(a) ==> after == PlayListModel::Artist(a)
            &&& u.view matches UiViewModel::TagView(t) ==> after == PlayListModel::Tags(t)
            &&& (u.view == UiViewModel::MainView || u.view == UiViewModel::SearchView) ==> after
                == PlayListModel::AllMusic
            &&& (u.view == UiViewModel::TagsView || u.view == UiViewModel::SettingsView || u.view
                == UiViewModel::ArtistsView) ==> after == pl.play_list
        }),
{
}

} // verus!
