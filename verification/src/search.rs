//! Song search: from the search panel's parameters to the SQL query that
//! lists matching songs, and the visibility rule shared by all song lists.

use vstd::prelude::*;
use crate::text::{
    chars_of, chars_eq, append_str, append_chars, string_from_chars, string_from_range, trim,
    trim_bounds, opt_view,
};
use crate::numbers::{parse_i32, parse_i32_spec, push_signed_decimal, signed_decimal_spec};

verus! {

/// `"true"` or `"false"`, as `{}` prints a `bool`.
pub open spec fn bool_text(b: bool) -> Seq<char> {
    if b {
        "true"@
    } else {
        "false"@
    }
}

/// Appends `{}` of a `bool`.
fn push_bool(out: &mut Vec<char>, b: bool)
    ensures
        final(out)@ == old(out)@ + bool_text(b),
{
    if b {
        append_str(out, "true");
    } else {
        append_str(out, "false");
    }
}

/// The visibility condition of song lists: approved songs, the viewer's own
/// songs (a visitor counts as user 0) and, for moderators, everything.
pub open spec fn visibility_spec(column_prefix: Seq<char>, viewer: Option<i32>, is_moderator: bool) -> Seq<char> {
    "("@ + column_prefix + "\"Status\" = 'approved' OR "@ + column_prefix + "\"IdInsertUser\" = "@
        + signed_decimal_spec(
        match viewer {
            Some(v) => v as int,
            None => 0,
        },
    ) + " OR "@ + bool_text(is_moderator) + ")"@
}

/// Appends the visibility condition.
fn push_visibility(out: &mut Vec<char>, column_prefix: &str, viewer: Option<i32>, is_moderator: bool)
    ensures
        final(out)@ == old(out)@ + visibility_spec(column_prefix@, viewer, is_moderator),
{
    let owner: i32 = match viewer {
        Some(v) => v,
        None => 0,
    };
    append_str(out, "(");
    append_str(out, column_prefix);
    append_str(out, "\"Status\" = 'approved' OR ");
    append_str(out, column_prefix);
    append_str(out, "\"IdInsertUser\" = ");
    push_signed_decimal(out, owner as i64);
    append_str(out, " OR ");
    push_bool(out, is_moderator);
    append_str(out, ")");
    assert(out@ =~= old(out)@ + visibility_spec(column_prefix@, viewer, is_moderator));
}

/// The columns that song lists read.
pub open spec fn song_columns() -> Seq<char> {
    "\"ID\", \"Code\", \"Name\", \"OrgName\", \"Composer\", \"ChordPro\", \"Lyrics\", \"Themes\", \"Youtube\", \"GenreType\", \"Artistas\", \"OrgKey\", \"OrgTempo\", \"Copyright\", \"Favorite\", \"IdInsertUser\", \"IdUpdateUser\", \"ViewCount\", \"createdAt\", \"updatedAt\", \"Status\""@
}

/// The query of the latest songs the viewer may see (50, newest first).
pub open spec fn latest_songs_sql_spec(viewer: Option<i32>, is_moderator: bool, by_creation: bool) -> Seq<char> {
    "SELECT "@ + song_columns() + " FROM songs WHERE "@ + visibility_spec(Seq::empty(), viewer, is_moderator)
        + (if by_creation {
        " ORDER BY \"createdAt\" DESC NULLS LAST, \"ID\" DESC LIMIT 50"@
    } else {
        " ORDER BY \"ID\" DESC LIMIT 50"@
    })
}

/// SQL for the latest visible songs: by creation date for the song panel,
/// by id for the JSON API.
pub fn latest_songs_sql(viewer: Option<i32>, is_moderator: bool, by_creation: bool) -> (sql: String)
    ensures
        sql@ == latest_songs_sql_spec(viewer, is_moderator, by_creation),
{
    let mut out: Vec<char> = Vec::new();
    append_str(&mut out, "SELECT ");
    append_str(&mut out, "\"ID\", \"Code\", \"Name\", \"OrgName\", \"Composer\", \"ChordPro\", \"Lyrics\", \"Themes\", \"Youtube\", \"GenreType\", \"Artistas\", \"OrgKey\", \"OrgTempo\", \"Copyright\", \"Favorite\", \"IdInsertUser\", \"IdUpdateUser\", \"ViewCount\", \"createdAt\", \"updatedAt\", \"Status\"");
    append_str(&mut out, " FROM songs WHERE ");
    push_visibility(&mut out, "", viewer, is_moderator);
    if by_creation {
        append_str(&mut out, " ORDER BY \"createdAt\" DESC NULLS LAST, \"ID\" DESC LIMIT 50");
    } else {
        append_str(&mut out, " ORDER BY \"ID\" DESC LIMIT 50");
    }
    proof {
        reveal_strlit("");
    }
    assert(out@ =~= latest_songs_sql_spec(viewer, is_moderator, by_creation));
    string_from_chars(&out)
}

/// A library page's query restricted to the songs the viewer may see.
pub open spec fn visible_subquery_spec(query: Seq<char>, viewer: Option<i32>, is_moderator: bool) -> Seq<char> {
    "SELECT * FROM ("@ + query + ") \"song_visibility\" WHERE "@ + visibility_spec(
        Seq::empty(),
        viewer,
        is_moderator,
    )
}

/// Wraps a library page's query so that only visible songs remain.
pub fn visible_subquery(query: &str, viewer: Option<i32>, is_moderator: bool) -> (sql: String)
    ensures
        sql@ == visible_subquery_spec(query@, viewer, is_moderator),
{
    let mut out: Vec<char> = Vec::new();
    append_str(&mut out, "SELECT * FROM (");
    append_str(&mut out, query);
    append_str(&mut out, ") \"song_visibility\" WHERE ");
    push_visibility(&mut out, "", viewer, is_moderator);
    proof {
        reveal_strlit("");
    }
    assert(out@ =~= visible_subquery_spec(query@, viewer, is_moderator));
    string_from_chars(&out)
}

/// The `ILIKE` pattern of the JSON search: the text between `%` wildcards,
/// or `%` alone when no text is given.
pub open spec fn json_pattern_spec(q: Option<Seq<char>>) -> Seq<char> {
    match q {
        Some(s) => seq!['%'] + s + seq!['%'],
        None => seq!['%'],
    }
}

/// The pattern and query of the JSON search.
pub fn json_search(q: Option<String>, viewer: Option<i32>, is_moderator: bool) -> (r: (String, String))
    ensures
        r.0@ == json_pattern_spec(opt_view(q)),
        r.1@ == "SELECT \"ID\", \"Code\", \"Name\", \"Artistas\", \"IdInsertUser\" FROM songs WHERE (\"Name\" ILIKE $1 OR \"Artistas\" ILIKE $1 OR \"Code\" ILIKE $1) AND "@
            + visibility_spec(Seq::empty(), viewer, is_moderator) + " ORDER BY \"ID\" DESC LIMIT 50"@,
{
    let mut p: Vec<char> = Vec::new();
    p.push('%');
    match &q {
        Some(s) => {
            append_str(&mut p, s.as_str());
            p.push('%');
        },
        None => {},
    }
    assert(p@ =~= json_pattern_spec(opt_view(q)));
    let mut out: Vec<char> = Vec::new();
    append_str(&mut out, "SELECT \"ID\", \"Code\", \"Name\", \"Artistas\", \"IdInsertUser\" FROM songs WHERE (\"Name\" ILIKE $1 OR \"Artistas\" ILIKE $1 OR \"Code\" ILIKE $1) AND ");
    push_visibility(&mut out, "", viewer, is_moderator);
    append_str(&mut out, " ORDER BY \"ID\" DESC LIMIT 50");
    proof {
        reveal_strlit("");
    }
    (string_from_chars(&p), string_from_chars(&out))
}

// ---------------------------------------------------------------------------
// The search panel
// ---------------------------------------------------------------------------

/// The parameters of the search panel, as received.
pub struct SearchParams {
    /// Search text.
    pub q: Option<String>,
    /// Initial letter of the title.
    pub letter: Option<String>,
    /// Field searched: `org_name`, `artistas`, `composer`, `lyrics` or all.
    pub filter: Option<String>,
    /// Order: `alpha`, `type`, `tempo`, `views`, `recent` or by id.
    pub sort: Option<String>,
    /// Genre type id.
    pub genre_type: Option<String>,
    /// `1` to list favourites only.
    pub fav: Option<String>,
}

/// A search to run: the SQL, its two bound patterns, and whether only the
/// viewer's favourites are listed.
pub struct SearchQuery {
    /// The SQL text.
    pub sql: String,
    /// The text pattern, bound as `$1`.
    pub pattern: String,
    /// The initial-letter pattern, bound as `$2`.
    pub letter: String,
    /// Only favourites are listed, so every result is a favourite.
    pub favorites_only: bool,
}

/// The condition for the searched field.
pub open spec fn filter_condition_spec(filter: Option<Seq<char>>) -> Seq<char> {
    if filter == Some("org_name"@) {
        "unaccent(COALESCE(s.\"OrgName\", '')) ILIKE unaccent($1)"@
    } else if filter == Some("artistas"@) {
        "unaccent(COALESCE(s.\"Artistas\", '')) ILIKE unaccent($1)"@
    } else if filter == Some("composer"@) {
        "unaccent(COALESCE(s.\"Composer\", '')) ILIKE unaccent($1)"@
    } else if filter == Some("lyrics"@) {
        "unaccent(COALESCE(s.\"Lyrics\", '')) ILIKE unaccent($1)"@
    } else {
        "(unaccent(COALESCE(s.\"Name\", '')) ILIKE unaccent($1) OR unaccent(COALESCE(s.\"Artistas\", '')) ILIKE unaccent($1) OR unaccent(COALESCE(s.\"Code\", '')) ILIKE unaccent($1))"@
    }
}

/// The ordering for the requested sort.
pub open spec fn sort_order_spec(sort: Option<Seq<char>>) -> Seq<char> {
    if sort == Some("alpha"@) {
        "s.\"Name\" ASC NULLS LAST, s.\"ID\" DESC"@
    } else if sort == Some("type"@) {
        "g.\"Desc\" ASC NULLS LAST, s.\"Name\" ASC NULLS LAST"@
    } else if sort == Some("tempo"@) {
        "s.\"OrgTempo\" ASC NULLS LAST, s.\"Name\" ASC NULLS LAST"@
    } else if sort == Some("views"@) {
        "s.\"ViewCount\" DESC NULLS LAST, s.\"ID\" DESC"@
    } else if sort == Some("recent"@) {
        "s.\"createdAt\" DESC NULLS LAST, s.\"ID\" DESC"@
    } else {
        "s.\"ID\" DESC"@
    }
}

/// Whether an optional text equals a literal.
fn opt_is(o: &Option<String>, lit: &str) -> (r: bool)
    ensures
        r == (opt_view(*o) == Some(lit@)),
{
    match o {
        Some(s) => crate::text::str_eq(s.as_str(), lit),
        None => false,
    }
}

/// Appends the condition for the searched field.
fn push_filter_condition(out: &mut Vec<char>, filter: &Option<String>)
    ensures
        final(out)@ == old(out)@ + filter_condition_spec(opt_view(*filter)),
{
    if opt_is(filter, "org_name") {
        append_str(out, "unaccent(COALESCE(s.\"OrgName\", '')) ILIKE unaccent($1)");
    } else if opt_is(filter, "artistas") {
        append_str(out, "unaccent(COALESCE(s.\"Artistas\", '')) ILIKE unaccent($1)");
    } else if opt_is(filter, "composer") {
        append_str(out, "unaccent(COALESCE(s.\"Composer\", '')) ILIKE unaccent($1)");
    } else if opt_is(filter, "lyrics") {
        append_str(out, "unaccent(COALESCE(s.\"Lyrics\", '')) ILIKE unaccent($1)");
    } else {
        append_str(out, "(unaccent(COALESCE(s.\"Name\", '')) ILIKE unaccent($1) OR unaccent(COALESCE(s.\"Artistas\", '')) ILIKE unaccent($1) OR unaccent(COALESCE(s.\"Code\", '')) ILIKE unaccent($1))");
    }
}

/// Appends the ordering for the requested sort.
fn push_sort_order(out: &mut Vec<char>, sort: &Option<String>)
    ensures
        final(out)@ == old(out)@ + sort_order_spec(opt_view(*sort)),
{
    if opt_is(sort, "alpha") {
        append_str(out, "s.\"Name\" ASC NULLS LAST, s.\"ID\" DESC");
    } else if opt_is(sort, "type") {
        append_str(out, "g.\"Desc\" ASC NULLS LAST, s.\"Name\" ASC NULLS LAST");
    } else if opt_is(sort, "tempo") {
        append_str(out, "s.\"OrgTempo\" ASC NULLS LAST, s.\"Name\" ASC NULLS LAST");
    } else if opt_is(sort, "views") {
        append_str(out, "s.\"ViewCount\" DESC NULLS LAST, s.\"ID\" DESC");
    } else if opt_is(sort, "recent") {
        append_str(out, "s.\"createdAt\" DESC NULLS LAST, s.\"ID\" DESC");
    } else {
        append_str(out, "s.\"ID\" DESC");
    }
}

/// The search text, trimmed (empty when absent).
pub open spec fn search_text_spec(p: SearchParams) -> Seq<char> {
    match p.q {
        Some(q) => trim(q@),
        None => Seq::<char>::empty(),
    }
}

/// The text pattern: the search text between `%` wildcards, accents folded.
pub open spec fn text_pattern_spec(t: Seq<char>) -> Seq<char> {
    (seq!['%'] + t + seq!['%']).map_values(|c: char| crate::text::fold_accent_spec(c))
}

/// A text that is exactly one byte long in UTF-8: a single ASCII character.
pub open spec fn one_byte(s: Seq<char>) -> bool {
    s.len() == 1 && (s[0] as u32) < 0x80
}

/// The initial-letter pattern: the trimmed letter followed by `%` when it is
/// a single one-byte character, else `%`.
pub open spec fn letter_pattern_spec(letter: Option<Seq<char>>) -> Seq<char> {
    match letter {
        Some(l) => if one_byte(trim(l)) {
            trim(l) + seq!['%']
        } else {
            seq!['%']
        },
        None => seq!['%'],
    }
}

/// The genre filter, when a genre id can be read.
pub open spec fn genre_filter_spec(t: Option<Seq<char>>) -> Option<i32> {
    match t {
        Some(s) => parse_i32_spec(trim(s)),
        None => None,
    }
}

/// Whether the favourites-only switch is on (`fav` is `1`, trimmed).
pub open spec fn wants_favorites_spec(fav: Option<Seq<char>>) -> bool {
    match fav {
        Some(f) => trim(f) == seq!['1'],
        None => false,
    }
}

/// The join with the genre table, needed to filter or sort by genre.
pub open spec fn genre_join_spec(genre: Option<i32>, sort: Option<Seq<char>>) -> Seq<char> {
    if genre is Some || sort == Some("type"@) {
        " LEFT JOIN genretypes g ON g.\"ID\" = s.\"GenreType\" "@
    } else {
        Seq::<char>::empty()
    }
}

/// The join with the viewer's favourites.
pub open spec fn favorites_join_spec(active: bool, viewer: Option<i32>) -> Seq<char> {
    if active && viewer is Some {
        " JOIN \"UserFavoriteSongs\" uf ON uf.\"songId\" = s.\"ID\" AND uf.\"userId\" = "@
            + signed_decimal_spec(viewer->0 as int) + " "@
    } else {
        Seq::<char>::empty()
    }
}

/// The genre condition.
pub open spec fn genre_condition_spec(genre: Option<i32>) -> Seq<char> {
    match genre {
        Some(g) => " AND s.\"GenreType\" = "@ + signed_decimal_spec(g as int),
        None => Seq::<char>::empty(),
    }
}

/// The columns of the search, prefixed by the table alias.
pub open spec fn search_columns() -> Seq<char> {
    "SELECT s.\"ID\", s.\"Code\", s.\"Name\", s.\"OrgName\", s.\"Composer\", s.\"ChordPro\", s.\"Lyrics\", s.\"Themes\", s.\"Youtube\", s.\"GenreType\", s.\"Artistas\", s.\"OrgKey\", s.\"OrgTempo\", s.\"Copyright\", s.\"Favorite\", s.\"IdInsertUser\", s.\"IdUpdateUser\", s.\"ViewCount\", s.\"createdAt\", s.\"updatedAt\", s.\"Status\" FROM songs s"@
}

/// The SQL of a search.
pub open spec fn search_sql_spec(p: SearchParams, viewer: Option<i32>, is_moderator: bool) -> Seq<char> {
    let genre = genre_filter_spec(opt_view(p.genre_type));
    let fav_active = wants_favorites_spec(opt_view(p.fav)) && viewer is Some;
    search_columns() + genre_join_spec(genre, opt_view(p.sort)) + favorites_join_spec(
        fav_active,
        viewer,
    ) + " WHERE "@ + filter_condition_spec(opt_view(p.filter))
        + " AND COALESCE(s.\"Name\", '') ILIKE $2"@ + genre_condition_spec(genre) + " AND "@
        + visibility_spec("s."@, viewer, is_moderator) + " ORDER BY "@ + sort_order_spec(
        opt_view(p.sort),
    ) + " LIMIT 100"@
}

/// The search for the panel's parameters: none when the search text is
/// blank (the panel then shows no results).
pub open spec fn search_spec(p: SearchParams, viewer: Option<i32>, is_moderator: bool) -> Option<(Seq<char>, Seq<char>, Seq<char>, bool)> {
    let t = search_text_spec(p);
    if t.len() == 0 {
        None
    } else {
        Some(
            (
                search_sql_spec(p, viewer, is_moderator),
                text_pattern_spec(t),
                letter_pattern_spec(opt_view(p.letter)),
                wants_favorites_spec(opt_view(p.fav)) && viewer is Some,
            ),
        )
    }
}

/// The view of a search.
pub open spec fn search_query_view(q: Option<SearchQuery>) -> Option<(Seq<char>, Seq<char>, Seq<char>, bool)> {
    match q {
        Some(s) => Some((s.sql@, s.pattern@, s.letter@, s.favorites_only)),
        None => None,
    }
}

/// The trimmed form of an optional text.
fn trimmed(o: &Option<String>) -> (r: Option<Vec<char>>)
    ensures
        match r {
            Some(v) => opt_view(*o) matches Some(s) && v@ == trim(s),
            None => o is None,
        },
{
    match o {
        Some(s) => {
            let v = chars_of(s.as_str());
            let (a, b) = trim_bounds(&v);
            let mut w: Vec<char> = Vec::new();
            let mut i = a;
            while i < b
                invariant
                    a <= i <= b <= v.len(),
                    w@ == v@.subrange(a as int, i as int),
                decreases b - i,
            {
                w.push(v[i]);
                assert(v@.subrange(a as int, i + 1) =~= v@.subrange(a as int, i as int).push(
                    v@[i as int],
                ));
                i += 1;
            }
            Some(w)
        },
        None => None,
    }
}

/// Appends the favourites join.
fn push_favorites_join(out: &mut Vec<char>, active: bool, viewer: Option<i32>)
    ensures
        final(out)@ == old(out)@ + favorites_join_spec(active, viewer),
{
    if active {
        match viewer {
            Some(uid) => {
                append_str(out, " JOIN \"UserFavoriteSongs\" uf ON uf.\"songId\" = s.\"ID\" AND uf.\"userId\" = ");
                push_signed_decimal(out, uid as i64);
                append_str(out, " ");
            },
            None => {},
        }
    }
    assert(out@ =~= old(out)@ + favorites_join_spec(active, viewer));
}

/// Appends the genre condition.
fn push_genre_condition(out: &mut Vec<char>, genre: Option<i32>)
    ensures
        final(out)@ == old(out)@ + genre_condition_spec(genre),
{
    match genre {
        Some(g) => {
            append_str(out, " AND s.\"GenreType\" = ");
            push_signed_decimal(out, g as i64);
        },
        None => {},
    }
    assert(out@ =~= old(out)@ + genre_condition_spec(genre));
}

/// Builds the SQL of a search.
fn search_sql(p: &SearchParams, viewer: Option<i32>, is_moderator: bool) -> (sql: Vec<char>)
    ensures
        sql@ == search_sql_spec(*p, viewer, is_moderator),
{
    let genre: Option<i32> = match trimmed(&p.genre_type) {
        Some(t) => {
            let ts = string_from_chars(&t);
            parse_i32(ts.as_str())
        },
        None => None,
    };
    let wants = match trimmed(&p.fav) {
        Some(t) => {
            let one: Vec<char> = vec!['1'];
            assert(one@ =~= seq!['1']);
            chars_eq(&t, &one)
        },
        None => false,
    };
    let fav_active = wants && viewer.is_some();
    let mut out: Vec<char> = Vec::new();
    append_str(&mut out, "SELECT s.\"ID\", s.\"Code\", s.\"Name\", s.\"OrgName\", s.\"Composer\", s.\"ChordPro\", s.\"Lyrics\", s.\"Themes\", s.\"Youtube\", s.\"GenreType\", s.\"Artistas\", s.\"OrgKey\", s.\"OrgTempo\", s.\"Copyright\", s.\"Favorite\", s.\"IdInsertUser\", s.\"IdUpdateUser\", s.\"ViewCount\", s.\"createdAt\", s.\"updatedAt\", s.\"Status\" FROM songs s");
    let ghost o1 = out@;
    if genre.is_some() || opt_is(&p.sort, "type") {
        append_str(&mut out, " LEFT JOIN genretypes g ON g.\"ID\" = s.\"GenreType\" ");
    }
    assert(out@ =~= o1 + genre_join_spec(genre, opt_view(p.sort)));
    push_favorites_join(&mut out, fav_active, viewer);
    append_str(&mut out, " WHERE ");
    push_filter_condition(&mut out, &p.filter);
    append_str(&mut out, " AND COALESCE(s.\"Name\", '') ILIKE $2");
    push_genre_condition(&mut out, genre);
    append_str(&mut out, " AND ");
    push_visibility(&mut out, "s.", viewer, is_moderator);
    append_str(&mut out, " ORDER BY ");
    push_sort_order(&mut out, &p.sort);
    append_str(&mut out, " LIMIT 100");
    assert(out@ =~= search_sql_spec(*p, viewer, is_moderator));
    out
}

/// The search for the panel's parameters, for a viewer who may or may not
/// moderate. `None` when the search text is blank.
pub fn build_search(p: &SearchParams, viewer: Option<i32>, is_moderator: bool) -> (r: Option<SearchQuery>)
    ensures
        search_query_view(r) == search_spec(*p, viewer, is_moderator),
{
    let t: Vec<char> = match trimmed(&p.q) {
        Some(t) => t,
        None => Vec::new(),
    };
    assert(t@ == search_text_spec(*p));
    if t.len() == 0 {
        return None;
    }
    let mut raw: Vec<char> = Vec::new();
    raw.push('%');
    append_chars(&mut raw, &t);
    raw.push('%');
    let raw_s = string_from_chars(&raw);
    let pattern = crate::text::normalize_accents(raw_s.as_str());
    assert(raw@ =~= seq!['%'] + t@ + seq!['%']);
    let letter: Vec<char> = match trimmed(&p.letter) {
        Some(l) => {
            if l.len() == 1 && (l[0] as u32) < 0x80 {
                let mut w = l;
                w.push('%');
                w
            } else {
                vec!['%']
            }
        },
        None => vec!['%'],
    };
    assert(letter@ =~= letter_pattern_spec(opt_view(p.letter)));
    let wants = match trimmed(&p.fav) {
        Some(f) => {
            let one: Vec<char> = vec!['1'];
            assert(one@ =~= seq!['1']);
            chars_eq(&f, &one)
        },
        None => false,
    };
    let sql = search_sql(p, viewer, is_moderator);
    Some(
        SearchQuery {
            sql: string_from_chars(&sql),
            pattern,
            letter: string_from_chars(&letter),
            favorites_only: wants && viewer.is_some(),
        },
    )
}

/// A search only ever lists what the viewer may see: its condition always
/// ends with the visibility rule, and a favourites search is only made for
/// a signed-in viewer.
pub proof fn law_search_respects_visibility(p: SearchParams, viewer: Option<i32>, is_moderator: bool)
    ensures
        search_spec(p, viewer, is_moderator) matches Some(q) ==> {
            &&& q.3 ==> viewer is Some
            &&& q.0 == search_columns() + genre_join_spec(
                genre_filter_spec(opt_view(p.genre_type)),
                opt_view(p.sort),
            ) + favorites_join_spec(q.3, viewer) + " WHERE "@ + filter_condition_spec(
                opt_view(p.filter),
            ) + " AND COALESCE(s.\"Name\", '') ILIKE $2"@ + genre_condition_spec(
                genre_filter_spec(opt_view(p.genre_type)),
            ) + " AND "@ + visibility_spec("s."@, viewer, is_moderator) + " ORDER BY "@
                + sort_order_spec(opt_view(p.sort)) + " LIMIT 100"@
        },
{
}


/// Folding the accents of the search text first changes nothing: the
/// search already matches the text with its accents folded, so a query
/// typed with accents and the same query without them run the same search.
pub proof fn law_search_ignores_folded_accents(
    p1: SearchParams,
    p2: SearchParams,
    viewer: Option<i32>,
    is_moderator: bool,
)
    requires
        opt_view(p2.q) == (match opt_view(p1.q) {
            Some(q) => Some(q.map_values(|c: char| crate::text::fold_accent_spec(c))),
            None => None,
        }),
        p2.letter == p1.letter,
        p2.filter == p1.filter,
        p2.sort == p1.sort,
        p2.genre_type == p1.genre_type,
        p2.fav == p1.fav,
    ensures
        search_spec(p2, viewer, is_moderator) == search_spec(p1, viewer, is_moderator),
{
    let f = |c: char| crate::text::fold_accent_spec(c);
    if p1.q is Some {
        let q = p1.q->Some_0@;
        crate::text::lemma_trim_of_folded(q);
        let t = trim(q);
        assert(search_text_spec(p2) == t.map_values(f));
        let a = seq!['%'] + t.map_values(f) + seq!['%'];
        let b = seq!['%'] + t + seq!['%'];
        assert forall|i: int| 0 <= i < a.len() implies #[trigger] a.map_values(f)[i]
            == b.map_values(f)[i] by {
            if 1 <= i < a.len() - 1 {
                crate::text::lemma_fold_keeps_whitespace(t[i - 1]);
                assert(a[i] == f(t[i - 1]));
                assert(b[i] == t[i - 1]);
            }
        }
        assert(a.map_values(f) =~= b.map_values(f));
    }
    assert(search_sql_spec(p2, viewer, is_moderator) == search_sql_spec(p1, viewer, is_moderator));
}

/// Whether `s` ends with `suffix`.
pub open spec fn ends_with(s: Seq<char>, suffix: Seq<char>) -> bool {
    s.len() >= suffix.len() && s.subrange(s.len() - suffix.len(), s.len() as int) == suffix
}

/// The SQL of a search ends with its ordering and its limit.
proof fn lemma_sql_ends_with_order(p: SearchParams, viewer: Option<i32>, is_moderator: bool)
    ensures
        ends_with(
            search_sql_spec(p, viewer, is_moderator),
            " ORDER BY "@ + sort_order_spec(opt_view(p.sort)) + " LIMIT 100"@,
        ),
{
    let s = search_sql_spec(p, viewer, is_moderator);
    let tail = " ORDER BY "@ + sort_order_spec(opt_view(p.sort)) + " LIMIT 100"@;
    let genre = genre_filter_spec(opt_view(p.genre_type));
    let fav_active = wants_favorites_spec(opt_view(p.fav)) && viewer is Some;
    let head = search_columns() + genre_join_spec(genre, opt_view(p.sort)) + favorites_join_spec(
        fav_active,
        viewer,
    ) + " WHERE "@ + filter_condition_spec(opt_view(p.filter))
        + " AND COALESCE(s.\"Name\", '') ILIKE $2"@ + genre_condition_spec(genre) + " AND "@
        + visibility_spec("s."@, viewer, is_moderator);
    assert(s =~= head + tail);
    assert((head + tail).subrange(head.len() as int, (head + tail).len() as int) =~= tail);
}

/// The order of the results for each sort of the search panel: `alpha` by
/// title A to Z, `type` by genre then title, `tempo` by tempo then title,
/// `views` most viewed first, `recent` newest first, anything else newest
/// id first; always at most 100 songs.
pub proof fn law_search_sort_orders(p: SearchParams, viewer: Option<i32>, is_moderator: bool)
    ensures
        search_spec(p, viewer, is_moderator) matches Some(q) ==> {
            let sort = opt_view(p.sort);
            &&& sort == Some("alpha"@) ==> ends_with(
                q.0,
                " ORDER BY s.\"Name\" ASC NULLS LAST, s.\"ID\" DESC LIMIT 100"@,
            )
            &&& sort == Some("type"@) ==> ends_with(
                q.0,
                " ORDER BY g.\"Desc\" ASC NULLS LAST, s.\"Name\" ASC NULLS LAST LIMIT 100"@,
            )
            &&& sort == Some("tempo"@) ==> ends_with(
                q.0,
                " ORDER BY s.\"OrgTempo\" ASC NULLS LAST, s.\"Name\" ASC NULLS LAST LIMIT 100"@,
            )
            &&& sort == Some("views"@) ==> ends_with(
                q.0,
                " ORDER BY s.\"ViewCount\" DESC NULLS LAST, s.\"ID\" DESC LIMIT 100"@,
            )
            &&& sort == Some("recent"@) ==> ends_with(
                q.0,
                " ORDER BY s.\"createdAt\" DESC NULLS LAST, s.\"ID\" DESC LIMIT 100"@,
            )
            &&& (sort != Some("alpha"@) && sort != Some("type"@) && sort != Some("tempo"@) && sort
                != Some("views"@) && sort != Some("recent"@)) ==> ends_with(
                q.0,
                " ORDER BY s.\"ID\" DESC LIMIT 100"@,
            )
        },
{
    reveal_strlit("alpha");
    reveal_strlit("type");
    reveal_strlit("tempo");
    reveal_strlit("views");
    reveal_strlit("recent");
    reveal_strlit(" ORDER BY ");
    reveal_strlit(" LIMIT 100");
    reveal_strlit("s.\"Name\" ASC NULLS LAST, s.\"ID\" DESC");
    reveal_strlit("g.\"Desc\" ASC NULLS LAST, s.\"Name\" ASC NULLS LAST");
    reveal_strlit("s.\"OrgTempo\" ASC NULLS LAST, s.\"Name\" ASC NULLS LAST");
    reveal_strlit("s.\"ViewCount\" DESC NULLS LAST, s.\"ID\" DESC");
    reveal_strlit("s.\"createdAt\" DESC NULLS LAST, s.\"ID\" DESC");
    reveal_strlit("s.\"ID\" DESC");
    reveal_strlit(" ORDER BY s.\"Name\" ASC NULLS LAST, s.\"ID\" DESC LIMIT 100");
    reveal_strlit(" ORDER BY g.\"Desc\" ASC NULLS LAST, s.\"Name\" ASC NULLS LAST LIMIT 100");
    reveal_strlit(" ORDER BY s.\"OrgTempo\" ASC NULLS LAST, s.\"Name\" ASC NULLS LAST LIMIT 100");
    reveal_strlit(" ORDER BY s.\"ViewCount\" DESC NULLS LAST, s.\"ID\" DESC LIMIT 100");
    reveal_strlit(" ORDER BY s.\"createdAt\" DESC NULLS LAST, s.\"ID\" DESC LIMIT 100");
    reveal_strlit(" ORDER BY s.\"ID\" DESC LIMIT 100");
    lemma_sql_ends_with_order(p, viewer, is_moderator);
    let sort = opt_view(p.sort);
    let tail = " ORDER BY "@ + sort_order_spec(sort) + " LIMIT 100"@;
    assert("alpha"@ != "type"@ && "alpha"@ != "tempo"@ && "alpha"@ != "views"@ && "alpha"@
        != "recent"@) by {
        assert("alpha"@[0] != "tempo"@[0] && "alpha"@[0] != "views"@[0]);
    }
    assert("type"@ != "tempo"@ && "type"@ != "views"@ && "type"@ != "recent"@) by {
        assert("type"@.len() == 4 && "tempo"@.len() == 5 && "views"@.len() == 5 && "recent"@.len()
            == 6);
    }
    assert("tempo"@ != "views"@ && "tempo"@ != "recent"@) by {
        assert("tempo"@[0] != "views"@[0]);
    }
    assert("views"@ != "recent"@) by {
        assert("views"@.len() != "recent"@.len());
    }
    if let Some(q) = search_spec(p, viewer, is_moderator) {
        assert(q.0 == search_sql_spec(p, viewer, is_moderator));
    }
    if sort == Some("alpha"@) {
        assert(tail =~= " ORDER BY s.\"Name\" ASC NULLS LAST, s.\"ID\" DESC LIMIT 100"@);
    } else if sort == Some("type"@) {
        assert(tail =~= " ORDER BY g.\"Desc\" ASC NULLS LAST, s.\"Name\" ASC NULLS LAST LIMIT 100"@);
    } else if sort == Some("tempo"@) {
        assert(tail =~= " ORDER BY s.\"OrgTempo\" ASC NULLS LAST, s.\"Name\" ASC NULLS LAST LIMIT 100"@);
    } else if sort == Some("views"@) {
        assert(tail =~= " ORDER BY s.\"ViewCount\" DESC NULLS LAST, s.\"ID\" DESC LIMIT 100"@);
    } else if sort == Some("recent"@) {
        assert(tail =~= " ORDER BY s.\"createdAt\" DESC NULLS LAST, s.\"ID\" DESC LIMIT 100"@);
    } else {
        assert(tail =~= " ORDER BY s.\"ID\" DESC LIMIT 100"@);
    }
}
} // verus!
