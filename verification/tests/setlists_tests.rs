use praisechords::setlists::{
    add_song_notice, app_link, checked_total_songs, favorite_after_toggle, favorite_star_html, parse_direction,
    plan_move, player_base, reset_link, setlist_description, setlist_item, setlist_navigation,
    share_base, share_box_html, share_link, song_at_position, song_in_setlist, total_songs,
    Direction, MoveError, SetlistItem, SetlistNotice,
};

#[test]
fn directions_are_up_and_down() {
    assert_eq!(parse_direction("up"), Some(Direction::Up));
    assert_eq!(parse_direction("down"), Some(Direction::Down));
    assert_eq!(parse_direction("Up"), None);
}

#[test]
fn moving_a_song_swaps_order_values_with_its_neighbour() {
    let songs = vec![(10, Some(1)), (20, Some(2)), (30, Some(3))];
    let up = plan_move(&songs, 20, Some(Direction::Up)).unwrap();
    assert_eq!((up.song_id, up.song_order, up.other_id, up.other_order), (20, 1, 10, 2));
    let down = plan_move(&songs, 20, Some(Direction::Down)).unwrap();
    assert_eq!((down.song_id, down.song_order, down.other_id, down.other_order), (20, 3, 30, 2));
}

#[test]
fn missing_orders_count_as_positions() {
    let songs = vec![(10, None), (20, None)];
    let down = plan_move(&songs, 10, Some(Direction::Down)).unwrap();
    assert_eq!((down.song_order, down.other_id, down.other_order), (1, 20, 0));
}

#[test]
fn moves_past_the_ends_are_refused() {
    let songs = vec![(10, Some(1)), (20, Some(2))];
    assert_eq!(plan_move(&songs, 10, Some(Direction::Up)), Err(MoveError::BadRequest));
    assert_eq!(plan_move(&songs, 20, Some(Direction::Down)), Err(MoveError::BadRequest));
    assert_eq!(plan_move(&songs, 10, None), Err(MoveError::BadRequest));
    assert_eq!(plan_move(&songs, 99, Some(Direction::Up)), Err(MoveError::NotFound));
}

#[test]
fn moving_up_then_down_restores_the_orders() {
    let songs = vec![(10, Some(1)), (20, Some(2)), (30, Some(3))];
    let up = plan_move(&songs, 20, Some(Direction::Up)).unwrap();
    let again = vec![(20, Some(up.song_order)), (10, Some(up.other_order)), (30, Some(3))];
    let down = plan_move(&again, 20, Some(Direction::Down)).unwrap();
    assert_eq!(down.song_order, 2);
    assert_eq!(down.other_id, 10);
    assert_eq!(down.other_order, 1);
}

#[test]
fn navigation_links_neighbours() {
    let base = player_base(7);
    assert_eq!(base, "/setlists/7/play");
    let mid = setlist_navigation(&base, 2, 3).unwrap();
    assert_eq!(mid.previous_url.as_deref(), Some("/setlists/7/play/1"));
    assert_eq!(mid.next_url.as_deref(), Some("/setlists/7/play/3"));
    let first = setlist_navigation(&base, 1, 3).unwrap();
    assert_eq!(first.previous_url, None);
    let last = setlist_navigation(&base, 3, 3).unwrap();
    assert_eq!(last.next_url, None);
    assert!(setlist_navigation(&base, 0, 3).is_none());
    assert!(setlist_navigation(&base, 4, 3).is_none());
    let shared = setlist_navigation(&share_base("abc"), 1, 2).unwrap();
    assert_eq!(shared.next_url.as_deref(), Some("/share/abc/2"));
}

#[test]
fn positions_count_from_one() {
    let ids = vec![5, 6, 7];
    assert_eq!(song_at_position(&ids, 1), Some(5));
    assert_eq!(song_at_position(&ids, 3), Some(7));
    assert_eq!(song_at_position(&ids, 0), None);
    assert_eq!(song_at_position(&ids, 4), None);
}

#[test]
fn links_drop_trailing_slashes_of_the_address() {
    assert_eq!(reset_link("https://pc.example/", "tok"), "https://pc.example/reset-password?token=tok");
    assert_eq!(share_link("https://pc.example//", "abc"), "https://pc.example/share/abc/1");
    assert_eq!(app_link("http://h", "/x"), "http://h/x");
}

#[test]
fn share_box_escapes_the_link() {
    let html = share_box_html("https://x/?a=1&b=2");
    assert!(html.contains("value=\"https://x/?a=1&amp;b=2\""));
    assert!(html.contains("Link público da setlist"));
}

#[test]
fn setlist_totals_add_up() {
    let items = vec![
        SetlistItem { id: 1, data: String::new(), desc: "a".into(), song_count: 3 },
        SetlistItem { id: 2, data: String::new(), desc: "b".into(), song_count: 4 },
    ];
    assert_eq!(total_songs(&items), 7);
    assert_eq!(total_songs(&vec![]), 0);
}

#[test]
fn descriptions_are_required() {
    assert_eq!(setlist_description("  Domingo  "), Some("Domingo".to_string()));
    assert_eq!(setlist_description("   "), None);
}

#[test]
fn favourite_toggles() {
    assert!(favorite_after_toggle(false, true));
    assert!(!favorite_after_toggle(true, true));
    assert!(favorite_after_toggle(true, false));
    assert_eq!(favorite_after_toggle(favorite_after_toggle(true, true), true), true);
    assert_eq!(
        favorite_star_html(5, true),
        "<button hx-post=\"/htmx/songs/5/favorite\" hx-swap=\"outerHTML\" class=\"px-2 text-yellow-400\">★</button>"
    );
    assert_eq!(
        favorite_star_html(-1, false),
        "<button hx-post=\"/htmx/songs/-1/favorite\" hx-swap=\"outerHTML\" class=\"px-2 text-gray-300\">☆</button>"
    );
}

#[test]
fn rows_of_setlists_and_their_songs() {
    let item = setlist_item(3, Some("2024-05-01".into()), None, 2);
    assert_eq!((item.id, item.data.as_str(), item.desc.as_str(), item.song_count), (3, "2024-05-01", "", 2));
    let song = song_in_setlist(9, Some("Hino".into()), None, None, Some("X".into()), Some("  ".into()));
    assert_eq!(song.name, "Hino");
    assert_eq!(song.org_name, "");
    assert_eq!(song.youtube, None);
}

#[test]
fn adding_a_song_reports_what_happened() {
    assert_eq!(add_song_notice(Some(0)), SetlistNotice::AlreadyThere);
    assert_eq!(add_song_notice(Some(1)), SetlistNotice::Added);
    assert_eq!(add_song_notice(None), SetlistNotice::AddFailed);
    assert_eq!(SetlistNotice::Added.html(), "<p class=\"text-green-400\">Música adicionada à setlist.</p>");
}

#[test]
fn totals_that_would_overflow_are_reported() {

    let items = vec![
        SetlistItem { id: 1, data: String::new(), desc: "a".into(), song_count: 3 },
        SetlistItem { id: 2, data: String::new(), desc: "b".into(), song_count: 4 },
    ];
    assert_eq!(checked_total_songs(&items), Some(7));
    let big = vec![
        SetlistItem { id: 1, data: String::new(), desc: "a".into(), song_count: i64::MAX },
        SetlistItem { id: 2, data: String::new(), desc: "b".into(), song_count: 1 },
    ];
    assert_eq!(checked_total_songs(&big), None);
}
