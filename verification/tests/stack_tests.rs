use russpot::model::ContextId;
use russpot::model::PlaylistInfo;
use russpot::model::SearchType;
use russpot::model::SpotItem;
use russpot::model::TrackInfo;
use russpot::navigation::NavCommand;
use russpot::navigation::NavOutput;
use russpot::switchview::ChildContent;
use russpot::switchview::Model;

fn track(name: &str) -> SpotItem {
    SpotItem::Track(TrackInfo {
        uri: Some(format!("spotify:track:{}", name)),
        name: name.to_string(),
        artists: vec![],
        href: None,
        images: vec![],
    })
}

fn playlist(name: &str) -> SpotItem {
    SpotItem::Playlist(PlaylistInfo {
        uri: format!("spotify:playlist:{}", name),
        name: name.to_string(),
        owner: None,
        href: format!("https://api.example/playlists/{}", name),
        images: vec![],
    })
}

/// A fresh stack whose root list has streamed in the given playlists.
fn stack_with_playlists(names: &[&str]) -> Model {
    let mut s = Model::new();
    let page_id = s.top_page_id();
    let generation = s.top_page().group_ref().section_at(0).generation();
    for n in names {
        assert!(s.accept_item(0, page_id, 0, generation, playlist(n)));
    }
    s
}

fn root_cursor(s: &Model) -> Option<usize> {
    s.top_page().group_ref().section_at(0).cursor()
}

#[test]
fn new_stack_has_one_playlists_page() {
    let s = Model::new();
    assert_eq!(s.depth(), 1);
    let page = s.top_page();
    assert!(matches!(page, ChildContent::MultiView(_)));
    assert_eq!(page.group_ref().num_sections(), 1);
    assert_eq!(page.group_ref().section_at(0).source(), &SpotItem::UserPlaylists);
}

#[test]
fn back_at_root_is_refused() {
    let mut s = stack_with_playlists(&["p1"]);
    assert!(!s.nav_back());
    assert_eq!(s.depth(), 1);
    assert!(!s.nav_back());
    assert_eq!(s.depth(), 1);
}

#[test]
fn descend_with_nothing_selected_is_noop() {
    let mut s = stack_with_playlists(&["p1"]);
    assert_eq!(s.nav_descend(), None);
    assert_eq!(s.depth(), 1);
}

#[test]
fn descend_into_playlist_pushes_page() {
    let mut s = stack_with_playlists(&["p1", "p2"]);
    s.nav(NavCommand::Down); // select p1
    let src = s.nav_descend();
    assert_eq!(src, Some(playlist("p1")));
    assert_eq!(s.depth(), 2);
    let page = s.top_page();
    assert_eq!(page.group_ref().num_sections(), 1);
    assert_eq!(page.group_ref().section_at(0).source(), &playlist("p1"));
    assert_eq!(page.group_ref().section_at(0).len(), 0);
}

#[test]
fn descend_on_track_is_refused() {
    let mut s = stack_with_playlists(&["p1"]);
    s.nav(NavCommand::Down);
    assert!(s.nav_descend().is_some());
    // Stream a track into the new page and select it.
    let page_id = s.top_page_id();
    let generation = s.top_page().group_ref().section_at(0).generation();
    assert!(s.accept_item(1, page_id, 0, generation, track("t1")));
    s.nav(NavCommand::Down);
    assert_eq!(s.nav_descend(), None);
    assert_eq!(s.depth(), 2);
}

#[test]
fn back_after_descend_restores_page_state() {
    let mut s = stack_with_playlists(&["p1", "p2", "p3"]);
    s.nav(NavCommand::Down);
    s.nav(NavCommand::Down); // cursor on p2
    assert_eq!(root_cursor(&s), Some(1));
    assert!(s.nav_descend().is_some());
    assert_eq!(s.depth(), 2);
    assert!(s.nav_back());
    assert_eq!(s.depth(), 1);
    // The root page kept its items and its cursor; nothing was reloaded.
    assert_eq!(s.top_page().group_ref().section_at(0).len(), 3);
    assert_eq!(root_cursor(&s), Some(1));
    assert_eq!(s.current_item(), Some(playlist("p2")));
}

#[test]
fn escape_at_outermost_page_bounces_back_in() {
    let mut s = stack_with_playlists(&["p1", "p2"]);
    s.nav(NavCommand::Down); // select p1
    // Up from the first entry escapes the list and the single section;
    // the stack bounces the move back: the mirrored Down re-enters the
    // list at the top.
    let got = s.nav(NavCommand::Up);
    assert_eq!(got, Some(NavOutput::CursorIsNowAt(playlist("p1"))));
    assert_eq!(root_cursor(&s), Some(0));
    // The same at the bottom end.
    s.nav(NavCommand::Down);
    assert_eq!(root_cursor(&s), Some(1));
    let got = s.nav(NavCommand::Down);
    assert_eq!(got, Some(NavOutput::CursorIsNowAt(playlist("p2"))));
    assert_eq!(root_cursor(&s), Some(1));
}

#[test]
fn moves_on_empty_page_are_absorbed() {
    let mut s = Model::new();
    assert_eq!(s.nav(NavCommand::Down), None);
    assert_eq!(s.nav(NavCommand::Up), None);
    assert_eq!(s.depth(), 1);
    assert_eq!(root_cursor(&s), None);
}

#[test]
fn reset_search_replaces_stack_with_search_page() {
    let mut s = stack_with_playlists(&["p1"]);
    s.nav(NavCommand::Down);
    assert!(s.nav_descend().is_some());
    assert_eq!(s.depth(), 2);
    s.nav_reset_search();
    assert_eq!(s.depth(), 1);
    let page = s.top_page();
    assert!(matches!(page, ChildContent::SearchPage(_)));
    assert_eq!(page.group_ref().num_sections(), 0);
}

#[test]
fn reset_playlists_replaces_stack_with_fresh_root() {
    let mut s = stack_with_playlists(&["p1"]);
    let old_page_id = s.top_page_id();
    let old_generation = s.top_page().group_ref().section_at(0).generation();
    s.nav_reset_playlists();
    assert_eq!(s.depth(), 1);
    assert_ne!(s.top_page_id(), old_page_id);
    assert_eq!(s.top_page().group_ref().section_at(0).len(), 0);
    // A delivery for the replaced root no longer matches any page.
    assert!(!s.accept_item(0, old_page_id, 0, old_generation, playlist("late")));
    assert_eq!(s.top_page().group_ref().section_at(0).len(), 0);
}

#[test]
fn executing_a_search_builds_two_result_sections() {
    let mut s = Model::new();
    assert!(!s.execute_search("blue".to_string()));
    s.nav_reset_search();
    assert!(s.execute_search("blue".to_string()));
    let group = s.top_page().group_ref();
    assert_eq!(group.num_sections(), 2);
    assert_eq!(
        group.section_at(0).source(),
        &SpotItem::SearchResults { st: SearchType::Album, query: "blue".to_string() }
    );
    assert_eq!(
        group.section_at(1).source(),
        &SpotItem::SearchResults { st: SearchType::Track, query: "blue".to_string() }
    );
    assert_eq!(group.cur_section(), 0);
}

#[test]
fn new_search_drops_old_result_deliveries() {
    let mut s = Model::new();
    s.nav_reset_search();
    assert!(s.execute_search("one".to_string()));
    let page_id = s.top_page_id();
    let old_gen0 = s.top_page().group_ref().section_at(0).generation();
    assert!(s.execute_search("two".to_string()));
    // Results for the first query answer under their old generation tags.
    assert!(!s.accept_item(0, page_id, 0, old_gen0, track("late")));
    assert_eq!(s.top_page().group_ref().section_at(0).len(), 0);
    let new_gen0 = s.top_page().group_ref().section_at(0).generation();
    assert!(s.accept_item(0, page_id, 0, new_gen0, track("fresh")));
    assert_eq!(s.top_page().group_ref().section_at(0).len(), 1);
}

#[test]
fn deliveries_for_popped_pages_are_dropped() {
    let mut s = stack_with_playlists(&["p1"]);
    s.nav(NavCommand::Down);
    assert!(s.nav_descend().is_some());
    let inner_page_id = s.top_page_id();
    let inner_generation = s.top_page().group_ref().section_at(0).generation();
    assert!(s.nav_back());
    // The popped page's load answers late; its identifier matches no
    // live page, wherever it points.
    assert!(!s.accept_item(1, inner_page_id, 0, inner_generation, track("late")));
    assert!(!s.accept_item(0, inner_page_id, 0, inner_generation, track("late")));
    assert_eq!(s.top_page().group_ref().section_at(0).len(), 1);
}

#[test]
fn clear_cursor_reaches_the_top_page() {
    let mut s = stack_with_playlists(&["p1"]);
    s.nav(NavCommand::Down);
    assert_eq!(root_cursor(&s), Some(0));
    assert_eq!(s.nav(NavCommand::ClearCursor), None);
    assert_eq!(root_cursor(&s), None);
    assert_eq!(s.current_item(), None);
}

#[test]
fn play_context_comes_from_top_page() {
    let mut s = stack_with_playlists(&["mix"]);
    assert_eq!(s.play_context(), None);
    s.nav(NavCommand::Down);
    let ctx = s.play_context().expect("selected playlist is playable");
    assert_eq!(ctx.context, ContextId::Playlist("spotify:playlist:mix".to_string()));
    assert_eq!(ctx.offset_uri, None);
    // Descend into the playlist: its track page carries the playlist
    // context with the selected track as offset.
    assert!(s.nav_descend().is_some());
    let page_id = s.top_page_id();
    let generation = s.top_page().group_ref().section_at(0).generation();
    assert!(s.accept_item(1, page_id, 0, generation, track("t9")));
    s.nav(NavCommand::Down);
    let ctx = s.play_context().expect("track page is playable");
    assert_eq!(ctx.context, ContextId::Playlist("spotify:playlist:mix".to_string()));
    assert_eq!(ctx.offset_uri, Some("spotify:track:t9".to_string()));
}

#[test]
fn current_item_comes_from_top_page() {
    let mut s = stack_with_playlists(&["p1", "p2"]);
    assert_eq!(s.current_item(), None);
    s.nav(NavCommand::Down);
    assert_eq!(s.current_item(), Some(playlist("p1")));
}

#[test]
fn load_failures_are_routed_like_deliveries() {
    let mut s = Model::new();
    let page_id = s.top_page_id();
    let generation = s.top_page().group_ref().section_at(0).generation();
    // A failure notice under a dead identifier is dropped.
    assert!(!s.mark_load_failed(0, page_id + 1, 0, generation));
    assert!(!s.top_page().group_ref().section_at(0).load_failed());
    // Under the live identifier and tag it is recorded.
    assert!(s.mark_load_failed(0, page_id, 0, generation));
    assert!(s.top_page().group_ref().section_at(0).load_failed());
    // A reset replaces the page; the failed list is gone.
    s.nav_reset_playlists();
    assert!(!s.top_page().group_ref().section_at(0).load_failed());
}

#[test]
fn search_select_and_descend_into_result() {
    // A full session: search, stream results in, select an album in the
    // results, descend into it, stream its tracks, select one, and read
    // the playable context.
    let mut s = Model::new();
    s.nav_reset_search();
    assert!(s.execute_search("larks".to_string()));
    let page_id = s.top_page_id();
    let gen_albums = s.top_page().group_ref().section_at(0).generation();
    let found = SpotItem::Album(russpot::model::AlbumInfo {
        uri: Some("spotify:album:larks-live".to_string()),
        name: "larks live".to_string(),
        artists: vec!["The Larks".to_string()],
        href: None,
        images: vec![],
    });
    assert!(s.accept_item(0, page_id, 0, gen_albums, found.clone()));
    s.nav(NavCommand::Down);
    assert_eq!(s.current_item(), Some(found.clone()));
    assert_eq!(s.nav_descend(), Some(found));
    assert_eq!(s.depth(), 2);
    let inner_id = s.top_page_id();
    let inner_gen = s.top_page().group_ref().section_at(0).generation();
    assert!(s.accept_item(1, inner_id, 0, inner_gen, track("live-one")));
    s.nav(NavCommand::Down);
    let ctx = s.play_context().expect("album tracks are playable");
    assert_eq!(ctx.context, ContextId::Album("spotify:album:larks-live".to_string()));
    assert_eq!(ctx.offset_uri, Some("spotify:track:live-one".to_string()));
    // Back lands on the search page with the result still selected.
    assert!(s.nav_back());
    assert_eq!(s.depth(), 1);
    assert!(matches!(s.top_page(), ChildContent::SearchPage(_)));
    assert_eq!(s.current_item().map(|it| it.name()), Some("larks live".to_string()));
}

#[test]
fn page_ids_are_never_reused() {
    let mut s = stack_with_playlists(&["p1"]);
    let first = s.top_page_id();
    s.nav(NavCommand::Down);
    assert!(s.nav_descend().is_some());
    let second = s.top_page_id();
    assert_ne!(first, second);
    assert!(s.nav_back());
    s.nav(NavCommand::Down);
    assert!(s.nav_descend().is_some());
    let third = s.top_page_id();
    assert_ne!(second, third);
    assert_ne!(first, third);
}
