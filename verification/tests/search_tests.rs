use praisechords::search::{build_search, SearchParams};

fn params(q: &str) -> SearchParams {
    SearchParams { q: Some(q.to_string()), letter: None, filter: None, sort: None, genre_type: None, fav: None }
}

#[test]
fn blank_searches_find_nothing() {
    assert!(build_search(&params("   "), Some(1), false).is_none());
    let none = SearchParams { q: None, letter: None, filter: None, sort: None, genre_type: None, fav: None };
    assert!(build_search(&none, None, false).is_none());
}

#[test]
fn search_patterns_fold_accents() {
    let s = build_search(&params("  Coração "), Some(1), false).unwrap();
    assert_eq!(s.pattern, "%Coracao%");
    assert_eq!(s.letter, "%");
    assert!(!s.favorites_only);
    assert!(s.sql.ends_with(" LIMIT 100"));
}

#[test]
fn letter_and_favourites() {
    let mut p = params("paz");
    p.letter = Some(" B ".to_string());
    p.fav = Some("1".to_string());
    let s = build_search(&p, Some(9), false).unwrap();
    assert_eq!(s.letter, "B%");
    assert!(s.favorites_only);
    assert!(s.sql.contains("uf.\"userId\" = 9 "));
    let anon = build_search(&p, None, false).unwrap();
    assert!(!anon.favorites_only);
}

#[test]
fn searches_only_list_what_the_viewer_may_see() {
    let s = build_search(&params("paz"), Some(9), false).unwrap();
    assert!(s.sql.contains(" AND (s.\"Status\" = 'approved' OR s.\"IdInsertUser\" = 9 OR false) ORDER BY "));
    let m = build_search(&params("paz"), None, true).unwrap();
    assert!(m.sql.contains("(s.\"Status\" = 'approved' OR s.\"IdInsertUser\" = 0 OR true)"));
}

#[test]
fn latest_songs_and_subqueries_carry_the_visibility_rule() {
    let sql = praisechords::search::latest_songs_sql(Some(3), false, true);
    assert!(sql.starts_with("SELECT \"ID\", \"Code\""));
    assert!(sql.contains("FROM songs WHERE (\"Status\" = 'approved' OR \"IdInsertUser\" = 3 OR false)"));
    assert!(sql.ends_with(" ORDER BY \"createdAt\" DESC NULLS LAST, \"ID\" DESC LIMIT 50"));
    let sub = praisechords::search::visible_subquery("SELECT 1", None, false);
    assert_eq!(sub, "SELECT * FROM (SELECT 1) \"song_visibility\" WHERE (\"Status\" = 'approved' OR \"IdInsertUser\" = 0 OR false)");
}

#[test]
fn json_search_wraps_the_text() {
    let (pattern, sql) = praisechords::search::json_search(Some("ab".to_string()), Some(2), true);
    assert_eq!(pattern, "%ab%");
    assert!(sql.contains("OR true)"));
    let (all, _) = praisechords::search::json_search(None, None, false);
    assert_eq!(all, "%");
}

#[test]
fn accents_in_the_query_make_no_difference() {
    let a = build_search(&params("Coração"), Some(1), false).unwrap();
    let b = build_search(&params("Coracao"), Some(1), false).unwrap();
    assert_eq!(a.pattern, b.pattern);
    assert_eq!(a.sql, b.sql);
    assert_eq!(a.letter, b.letter);
}
