use praisechords::youtube::normalize_youtube;

#[test]
fn bare_video_id_is_kept() {
    assert_eq!(normalize_youtube("dQw4w9WgXcQ".to_string()), "dQw4w9WgXcQ");
    assert_eq!(normalize_youtube("  dQw4w9WgXcQ  ".to_string()), "dQw4w9WgXcQ");
}

#[test]
fn watch_link_gives_its_id() {
    assert_eq!(
        normalize_youtube("https://www.youtube.com/watch?v=dQw4w9WgXcQ&t=10".to_string()),
        "dQw4w9WgXcQ"
    );
    assert_eq!(
        normalize_youtube("www.youtube.com/watch?feature=share&v=dQw4w9WgXcQ".to_string()),
        "dQw4w9WgXcQ"
    );
}

#[test]
fn short_link_gives_its_id() {
    assert_eq!(normalize_youtube("youtu.be/dQw4w9WgXcQ".to_string()), "dQw4w9WgXcQ");
    assert_eq!(normalize_youtube("https://youtu.be/dQw4w9WgXcQ?si=abc".to_string()), "dQw4w9WgXcQ");
}

#[test]
fn embed_shorts_and_live_paths_give_the_id() {
    assert_eq!(
        normalize_youtube("https://www.youtube.com/embed/dQw4w9WgXcQ/extra".to_string()),
        "dQw4w9WgXcQ"
    );
    assert_eq!(normalize_youtube("https://youtube.com/shorts/dQw4w9WgXcQ".to_string()), "dQw4w9WgXcQ");
    assert_eq!(normalize_youtube("https://youtube.com/live/dQw4w9WgXcQ".to_string()), "dQw4w9WgXcQ");
}

#[test]
fn blank_value_becomes_empty() {
    assert_eq!(normalize_youtube("   ".to_string()), "");
}

#[test]
fn links_without_a_valid_id_are_kept_as_typed() {
    assert_eq!(normalize_youtube("https://example.com/page".to_string()), "https://example.com/page");
    assert_eq!(
        normalize_youtube(" https://youtube.com/watch?v=short ".to_string()),
        " https://youtube.com/watch?v=short "
    );
    assert_eq!(normalize_youtube("not a link".to_string()), "not a link");
}

#[test]
fn normalizing_twice_changes_nothing_more() {
    for v in ["https://www.youtube.com/watch?v=dQw4w9WgXcQ", "https://example.com/x", "  ", "dQw4w9WgXcQ"] {
        let once = normalize_youtube(v.to_string());
        assert_eq!(normalize_youtube(once.clone()), once);
    }
}

#[test]
fn each_line_of_the_field_is_normalised_on_its_own() {
    let out = normalize_youtube(
        "https://youtu.be/AAAAAAAAAAA?si=x\nhttps://youtu.be/BBBBBBBBBBB".to_string(),
    );
    assert_eq!(out, "AAAAAAAAAAA\nBBBBBBBBBBB");
    assert_eq!(out.lines().count(), 2);
}

#[test]
fn blank_lines_are_dropped_and_other_lines_kept_in_order() {
    let out = normalize_youtube(
        "  dQw4w9WgXcQ \r\n\n   \nhttps://www.youtube.com/watch?v=AAAAAAAAAAA\nnot a link\n".to_string(),
    );
    assert_eq!(out, "dQw4w9WgXcQ\nAAAAAAAAAAA\nnot a link");
}
