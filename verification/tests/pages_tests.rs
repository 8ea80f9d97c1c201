use praisechords::pages::{
    checkout_fields, checkout_url, chord_layout_valid, donation_amount, genre_name, genre_option,
    index_header, insert_statistics, statistics_days, statistics_html, song_detail_text,
    wants_no_store, DailyStat, RecentUser,
};
use praisechords::pages::demo_cleanup_due;
use praisechords::songs::Song;

#[test]
fn statistics_period_is_read_and_clamped() {
    assert_eq!(statistics_days(None), 30);
    assert_eq!(statistics_days(Some("7")), 7);
    assert_eq!(statistics_days(Some("0")), 1);
    assert_eq!(statistics_days(Some("-4")), 1);
    assert_eq!(statistics_days(Some("1000")), 365);
    assert_eq!(statistics_days(Some("abc")), 30);
}

#[test]
fn statistics_block_lists_days_and_users() {
    let daily = vec![DailyStat { date: "2024-05-02".into(), unique_users: 4 }];
    let recent = vec![
        RecentUser { nome: Some("  ".into()), email: "a@b.pt".into(), perfil: Some(4), last_active: "02/05/2024 10:00".into() },
        RecentUser { nome: Some("Rui".into()), email: "r@b.pt".into(), perfil: None, last_active: "01/05/2024 09:00".into() },
    ];
    let html = statistics_html(12, 30, 7, &daily, &recent);
    assert!(html.contains("<div class=\"text-4xl font-bold mb-2\">12</div>"));
    assert!(html.contains("Utilizadores únicos (últimos 7 dias)"));
    assert!(html.contains("Total de logins (últimos 7 dias)"));
    assert!(html.contains("<td class=\"py-2 px-3\">2024-05-02</td>\n                  <td class=\"text-right py-2 px-3 font-semibold text-white\">4</td>"));
    assert!(html.contains("<td class=\"py-2 px-3\">(sem nome)</td>"));
    assert!(html.contains(">Programador</td>"));
    assert!(html.contains("<td class=\"py-2 px-3\">Rui</td>"));
    assert!(html.find("(sem nome)").unwrap() < html.find(">Rui<").unwrap());
}

#[test]
fn statistics_block_goes_in_place_of_the_marker() {
    assert_eq!(insert_statistics("<main><!-- STATS_CONTENT --></main>", "X"), "<main>X</main>");
    assert_eq!(insert_statistics("<main></main>", "X"), "<main></main>");
}

#[test]
fn home_header_from_the_name() {
    let h = index_header(Some("  ana maria silva".into()), Some(4), Some("Sé".into()));
    assert_eq!(h.first_name, "ana");
    assert_eq!(h.initials, "AM");
    assert_eq!(h.profile_label, "Programador");
    assert_eq!(h.church, "Sé");
    assert!(h.is_programmer);
    let single = index_header(Some("Élio".into()), Some(2), None);
    assert_eq!(single.first_name, "Élio");
    assert_eq!(single.initials, "É");
    assert!(!single.is_programmer);
    let none = index_header(None, None, None);
    assert_eq!(none.first_name, "Utilizador");
    assert_eq!(none.initials, "U");
    assert_eq!(none.profile_label, "Utilizador");
    let blank = index_header(Some("   ".into()), None, None);
    assert_eq!(blank.first_name, "Utilizador");
    assert_eq!(blank.initials, "U");
}

#[test]
fn genre_names_and_choices() {
    assert_eq!(genre_name(3, None), "Tipo 3");
    assert_eq!(genre_name(3, Some("Hinos".into())), "Hinos");
    let g = genre_option(2, None, Some("HI".into()), Some(2));
    assert_eq!((g.id, g.name.as_str(), g.prefix.as_str(), g.selected), (2, "Tipo 2", "HI", true));
    assert!(!genre_option(2, None, None, None).selected);
}

#[test]
fn song_pages_fill_defaults() {
    let song = Song {
        id: 4,
        code: None,
        name: None,
        org_name: None,
        composer: None,
        chord_pro: "[C]Ló".into(),
        lyrics: None,
        themes: None,
        youtube: Some("abc".into()),
        genre_type: None,
        artistas: None,
        org_key: None,
        org_tempo: None,
        copyright: None,
        id_insert_user: None,
        id_update_user: None,
        view_count: None,
        status: None,
    };
    let d = song_detail_text(&song, true, false, true, false, false);
    assert_eq!(d.name, "(sem título)");
    assert_eq!(d.code, "-");
    assert_eq!(d.lyrics, "");
    assert_eq!(d.youtube, "abc");
    assert!(d.favorite && d.can_edit && !d.can_delete);
}

#[test]
fn chord_layout_limits() {
    assert!(chord_layout_valid(0, -1, -11));
    assert!(chord_layout_valid(4, 1, 11));
    assert!(!chord_layout_valid(5, 0, 0));
    assert!(!chord_layout_valid(2, 2, 0));
    assert!(!chord_layout_valid(2, 0, 12));
}

#[test]
fn donations() {
    assert_eq!(donation_amount(None), Some(500));
    assert_eq!(donation_amount(Some("2500")), Some(2500));
    assert_eq!(donation_amount(Some("99")), None);
    assert_eq!(donation_amount(Some("x")), Some(500));
    let f = checkout_fields(750, "http://h");
    assert_eq!(f.len(), 10);
    assert_eq!(f[4], ("line_items[0][price_data][unit_amount]".to_string(), "750".to_string()));
    assert_eq!(f[7], ("success_url".to_string(), "http://h/app?donation=success".to_string()));
    assert_eq!(f[8], ("cancel_url".to_string(), "http://h/app?donation=cancel".to_string()));
    assert_eq!(f[9], ("locale".to_string(), "pt".to_string()));
}

#[test]
fn payment_page_comes_from_the_reply() {
    assert_eq!(checkout_url(true, "{\"url\":\"https://pay/x\",\"id\":1}"), Some("https://pay/x".to_string()));
    assert_eq!(checkout_url(false, "{\"url\":\"https://pay/x\"}"), None);
    assert_eq!(checkout_url(true, "{\"url\":3}"), None);
    assert_eq!(checkout_url(true, "not json"), None);
}

#[test]
fn html_responses_are_not_cached() {
    assert!(wants_no_store(Some("text/html; charset=utf-8")));
    assert!(!wants_no_store(Some("application/json")));
    assert!(!wants_no_store(None));
}

#[test]
fn demo_data_goes_after_a_day() {
    assert!(demo_cleanup_due(Some(24)));
    assert!(!demo_cleanup_due(Some(23)));
    assert!(!demo_cleanup_due(None));
}
