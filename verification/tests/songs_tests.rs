use praisechords::songs::{attribution_user_ids, Song, SongListItem, SongsListTemplate};

fn card(youtube: Option<&str>, org_key: &str) -> String {
    let song = SongListItem {
        id: 7,
        code: "W0007".into(),
        name: "Santo".into(),
        org_name: String::new(),
        composer: String::new(),
        artistas: String::new(),
        org_key: org_key.into(),
        youtube: youtube.map(|y| y.to_string()),
        favorite: false,
        view_count: 0,
        inserted_by: String::new(),
        updated_by: String::new(),
        can_edit: false,
        is_pending: false,
        can_delete: false,
        can_approve: false,
    };
    SongsListTemplate { heading: "H".to_string(), songs: vec![song] }.render().unwrap()
}

#[test]
fn one_video_gives_one_youtube_link() {
    let html = card(Some("AAAAAAAAAAA"), "");
    assert!(html.contains("href=\"https://www.youtube.com/watch?v=AAAAAAAAAAA\">YouTube</a>"));
    assert!(!html.contains("Versão"));
}

#[test]
fn alternative_versions_get_their_own_links() {
    let html = card(Some("AAAAAAAAAAA\nBBBBBBBBBBB\nCCCCCCCCCCC"), "");
    assert!(html.contains("watch?v=AAAAAAAAAAA\">YouTube</a>"));
    assert!(html.contains("watch?v=BBBBBBBBBBB\">Versão 2</a>"));
    assert!(html.contains("watch?v=CCCCCCCCCCC\">Versão 3</a>"));
}

#[test]
fn the_key_line_shows_only_when_there_is_a_key() {
    assert!(card(None, "G").contains("Tom: G"));
    assert!(!card(None, "").contains("Tom:"));
}

fn song_by(inserted: Option<i32>, updated: Option<i32>) -> Song {
    Song {
        id: 1,
        code: None,
        name: None,
        org_name: None,
        composer: None,
        chord_pro: String::new(),
        lyrics: None,
        themes: None,
        youtube: None,
        genre_type: None,
        artistas: None,
        org_key: None,
        org_tempo: None,
        copyright: None,
        id_insert_user: inserted,
        id_update_user: updated,
        view_count: None,
        status: None,
    }
}

#[test]
fn names_are_fetched_for_adders_and_correctors() {
    let songs = vec![
        song_by(Some(9), Some(4)),
        song_by(None, Some(7)),
        song_by(Some(4), None),
        song_by(None, None),
        song_by(Some(2), Some(2)),
    ];
    assert_eq!(attribution_user_ids(&songs), vec![2, 4, 7, 9]);
    assert_eq!(attribution_user_ids(&vec![]), Vec::<i32>::new());
}
