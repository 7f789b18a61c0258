use russpot::model::AlbumInfo;
use russpot::model::SearchType;
use russpot::model::SpotItem;
use russpot::model::TrackInfo;
use russpot::multiview::Model;
use russpot::navigation::NavCommand;
use russpot::navigation::NavOutput;

fn track(name: &str) -> SpotItem {
    SpotItem::Track(TrackInfo {
        uri: Some(format!("spotify:track:{}", name)),
        name: name.to_string(),
        artists: vec![],
        href: None,
        images: vec![],
    })
}

fn album(name: &str) -> SpotItem {
    SpotItem::Album(AlbumInfo {
        uri: Some(format!("spotify:album:{}", name)),
        name: name.to_string(),
        artists: vec![],
        href: None,
        images: vec![],
    })
}

fn search(st: SearchType, query: &str) -> SpotItem {
    SpotItem::SearchResults { st, query: query.to_string() }
}

/// A two-section group as a search page shows: albums (left empty here)
/// and tracks (filled with `tracks`).
fn search_group(albums: &[&str], tracks: &[&str]) -> Model {
    let mut g = Model::new(vec![
        search(SearchType::Album, "q"),
        search(SearchType::Track, "q"),
    ]);
    for a in albums {
        assert!(g.accept_item(0, 0, album(a)));
    }
    for t in tracks {
        assert!(g.accept_item(1, 1, track(t)));
    }
    g
}

fn selected(name: &str) -> Option<NavOutput> {
    Some(NavOutput::CursorIsNowAt(track(name)))
}

#[test]
fn new_group_starts_at_first_section() {
    let g = search_group(&[], &[]);
    assert_eq!(g.num_sections(), 2);
    assert_eq!(g.cur_section(), 0);
    assert_eq!(g.section_at(0).len(), 0);
    assert_eq!(g.section_at(1).len(), 0);
}

#[test]
fn sections_take_distinct_generations() {
    let g = search_group(&[], &[]);
    assert_ne!(g.section_at(0).generation(), g.section_at(1).generation());
}

#[test]
fn dispatch_moves_inside_active_section() {
    let mut g = search_group(&["a1", "a2"], &[]);
    assert_eq!(
        g.dispatch(NavCommand::Down),
        Some(NavOutput::CursorIsNowAt(album("a1")))
    );
    assert_eq!(
        g.dispatch(NavCommand::Down),
        Some(NavOutput::CursorIsNowAt(album("a2")))
    );
    assert_eq!(g.cur_section(), 0);
}

#[test]
fn empty_section_escapes_to_neighbour_with_cursor_set() {
    // Two sections: albums still empty, tracks already loaded. A downward
    // move on the empty albums section escapes immediately and lands on
    // the first track.
    let mut g = search_group(&[], &["t1", "t2", "t3"]);
    assert_eq!(g.cur_section(), 0);
    assert_eq!(g.dispatch(NavCommand::Down), selected("t1"));
    assert_eq!(g.cur_section(), 1);
    assert_eq!(g.section_at(1).cursor(), Some(0));
}

#[test]
fn escape_forward_enters_next_section_at_top() {
    let mut g = search_group(&["a1"], &["t1", "t2"]);
    g.dispatch(NavCommand::Down); // select a1
    assert_eq!(g.dispatch(NavCommand::Down), selected("t1"));
    assert_eq!(g.cur_section(), 1);
    assert_eq!(g.section_at(0).cursor(), None);
    assert_eq!(g.section_at(1).cursor(), Some(0));
}

#[test]
fn escape_backward_enters_previous_section_at_bottom() {
    let mut g = search_group(&["a1", "a2"], &["t1"]);
    g.dispatch(NavCommand::Down); // a1 selected, section 0
    g.dispatch(NavCommand::Down); // a2 selected
    g.dispatch(NavCommand::Down); // escapes section 0, lands on t1
    assert_eq!(g.cur_section(), 1);
    // Moving up from t1 escapes section 1 backward and lands on the last
    // album, a2.
    assert_eq!(
        g.dispatch(NavCommand::Up),
        Some(NavOutput::CursorIsNowAt(album("a2")))
    );
    assert_eq!(g.cur_section(), 0);
    assert_eq!(g.section_at(0).cursor(), Some(1));
    assert_eq!(g.section_at(1).cursor(), None);
}

#[test]
fn escape_past_edges_is_reported_upward() {
    let mut g = search_group(&["a1"], &["t1"]);
    g.dispatch(NavCommand::Down); // select a1
    assert_eq!(g.dispatch(NavCommand::Up), Some(NavOutput::EscapedUp));
    assert_eq!(g.cur_section(), 0);
    assert_eq!(g.section_at(0).cursor(), None);
    g.dispatch(NavCommand::Down); // select a1 again
    g.dispatch(NavCommand::Down); // lands on t1
    assert_eq!(g.dispatch(NavCommand::Down), Some(NavOutput::EscapedDown));
    assert_eq!(g.cur_section(), 1);
}

#[test]
fn dispatch_on_empty_group_does_nothing() {
    let mut g = Model::new(vec![]);
    assert_eq!(g.num_sections(), 0);
    assert_eq!(g.dispatch(NavCommand::Down), None);
    assert_eq!(g.descend(), None);
    assert_eq!(g.play_context(), None);
    assert_eq!(g.current_item(), None);
}

#[test]
fn change_section_out_of_bounds_is_absorbed() {
    let mut g = search_group(&["a1"], &["t1"]);
    assert_eq!(g.change_section(-1), None);
    assert_eq!(g.cur_section(), 0);
    assert_eq!(g.change_section(1), selected("t1"));
    assert_eq!(g.cur_section(), 1);
    assert_eq!(g.change_section(1), None);
    assert_eq!(g.cur_section(), 1);
}

#[test]
fn clear_cursor_goes_to_active_section() {
    let mut g = search_group(&["a1"], &[]);
    g.dispatch(NavCommand::Down);
    assert_eq!(g.section_at(0).cursor(), Some(0));
    assert_eq!(g.dispatch(NavCommand::ClearCursor), None);
    assert_eq!(g.section_at(0).cursor(), None);
}

#[test]
fn deliveries_are_routed_by_section_and_generation() {
    let mut g = search_group(&[], &[]);
    let gen0 = g.section_at(0).generation();
    let gen1 = g.section_at(1).generation();
    assert!(g.accept_item(0, gen0, album("a")));
    assert!(!g.accept_item(0, gen1, album("stale")));
    assert!(g.accept_item(1, gen1, track("t")));
    assert!(!g.accept_item(2, gen0, track("nowhere")));
    assert_eq!(g.section_at(0).len(), 1);
    assert_eq!(g.section_at(1).len(), 1);
}

#[test]
fn reset_sections_drops_old_deliveries() {
    let mut g = search_group(&["a1"], &["t1"]);
    let old_gen0 = g.section_at(0).generation();
    let old_gen1 = g.section_at(1).generation();
    g.reset_sections(vec![search(SearchType::Album, "new"), search(SearchType::Track, "new")]);
    assert_eq!(g.cur_section(), 0);
    assert_eq!(g.section_at(0).len(), 0);
    assert_eq!(g.section_at(1).len(), 0);
    // The replaced sections' loads still answer under their old tags;
    // nothing may accept them.
    assert!(!g.accept_item(0, old_gen0, album("late")));
    assert!(!g.accept_item(1, old_gen1, track("late")));
    assert_eq!(g.section_at(0).len(), 0);
    assert_eq!(g.section_at(1).len(), 0);
}

#[test]
fn click_switches_section_and_selects() {
    let mut g = search_group(&["a1"], &["t1", "t2"]);
    g.dispatch(NavCommand::Down); // select a1 in section 0
    let got = g.move_cursor_to(1, 1);
    assert_eq!(got, Some(track("t2")));
    assert_eq!(g.cur_section(), 1);
    assert_eq!(g.section_at(1).cursor(), Some(1));
    assert_eq!(g.section_at(0).cursor(), None);
}

#[test]
fn click_on_missing_item_is_noop() {
    let mut g = search_group(&["a1"], &[]);
    assert_eq!(g.move_cursor_to(1, 0), None);
    assert_eq!(g.cur_section(), 0);
    assert_eq!(g.move_cursor_to(5, 0), None);
}

#[test]
fn walking_three_sections_and_back() {
    let mut g = Model::new(vec![
        search(SearchType::Album, "q"),
        search(SearchType::Track, "q"),
        search(SearchType::Playlist, "q"),
    ]);
    let gen0 = g.section_at(0).generation();
    let gen2 = g.section_at(2).generation();
    assert!(g.accept_item(0, gen0, album("a1")));
    assert!(g.accept_item(2, gen2, album("p1")));
    assert!(g.accept_item(2, gen2, album("p2")));
    // Down from nothing selects a1; down again escapes section 0, crosses
    // the empty section 1 in two hops, and lands on p1; at the bottom the
    // escape is reported upward.
    g.dispatch(NavCommand::Down);
    assert_eq!(g.dispatch(NavCommand::Down), None); // into empty section 1
    assert_eq!(g.cur_section(), 1);
    assert_eq!(
        g.dispatch(NavCommand::Down),
        Some(NavOutput::CursorIsNowAt(album("p1")))
    );
    assert_eq!(g.cur_section(), 2);
    g.dispatch(NavCommand::Down); // p2
    assert_eq!(g.dispatch(NavCommand::Down), Some(NavOutput::EscapedDown));
    // And back up: from no cursor, Up selects the last item, then walks up
    // and escapes through the empty middle section to a1.
    assert_eq!(
        g.dispatch(NavCommand::Up),
        Some(NavOutput::CursorIsNowAt(album("p2")))
    );
    g.dispatch(NavCommand::Up); // p1
    assert_eq!(g.dispatch(NavCommand::Up), None); // into empty section 1
    assert_eq!(g.cur_section(), 1);
    assert_eq!(
        g.dispatch(NavCommand::Up),
        Some(NavOutput::CursorIsNowAt(album("a1")))
    );
    assert_eq!(g.cur_section(), 0);
}

#[test]
fn failed_section_is_reported() {
    let mut g = search_group(&[], &[]);
    let gen1 = g.section_at(1).generation();
    assert!(!g.section_at(1).load_failed());
    assert!(g.mark_load_failed(1, gen1));
    assert!(g.section_at(1).load_failed());
    assert!(!g.section_at(0).load_failed());
    // A stale or misaddressed notice changes nothing.
    assert!(!g.mark_load_failed(0, gen1));
    assert!(!g.mark_load_failed(9, gen1));
    assert!(!g.section_at(0).load_failed());
}

#[test]
fn descend_and_play_context_use_active_section() {
    let mut g = search_group(&["a1"], &["t1"]);
    assert_eq!(g.descend(), None);
    g.dispatch(NavCommand::Down); // select a1
    assert_eq!(g.descend(), Some(album("a1")));
    assert_eq!(g.current_item(), Some(album("a1")));
    let ctx = g.play_context().expect("albums are playable");
    assert_eq!(
        ctx.context,
        russpot::model::ContextId::Album("spotify:album:a1".to_string())
    );
    assert_eq!(ctx.offset_uri, None);
}
