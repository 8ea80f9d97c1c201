//! Page pieces: the statistics page, the header of the home page, genre
//! choices, song details, chord display settings, donations and caching.

use vstd::prelude::*;
use crate::text::{
    append_str, chars_of, is_ws, non_blank_or, or_default_text, replace_all, replace_chars,
    skip_ws_forward, string_from_chars, to_uppercase, trim_start, uppercase, ws_prefix_len,
};
use crate::access::{effective_profile, profile_label, profile_label_spec};
use crate::numbers::{parse_i64, parse_i64_spec, push_signed_decimal, signed_decimal_spec};

verus! {

// ---------------------------------------------------------------------------
// Statistics
// ---------------------------------------------------------------------------

/// The period of the statistics page: the `days` parameter when it parses,
/// else 30, kept between 1 and 365.
pub open spec fn stats_days_spec(param: Option<Seq<char>>) -> i64 {
    let d = match param {
        Some(p) => match parse_i64_spec(p) {
            Some(x) => x,
            None => 30,
        },
        None => 30,
    };
    if d < 1 {
        1
    } else if d > 365 {
        365
    } else {
        d
    }
}

/// Reads the period of the statistics page.
pub fn statistics_days(param: Option<&str>) -> (d: i64)
    ensures
        d == stats_days_spec(match param {
            Some(p) => Some(p@),
            None => None,
        }),
        1 <= d <= 365,
{
    let d: i64 = match param {
        Some(p) => match parse_i64(p) {
            Some(x) => x,
            None => 30,
        },
        None => 30,
    };
    if d < 1 {
        1
    } else if d > 365 {
        365
    } else {
        d
    }
}

/// Distinct users on one day.
pub struct DailyStat {
    /// The day, `YYYY-MM-DD`.
    pub date: String,
    /// Distinct users that day.
    pub unique_users: i64,
}

/// A user with recent activity.
pub struct RecentUser {
    /// Name, if any.
    pub nome: Option<String>,
    /// Email.
    pub email: String,
    /// Profile.
    pub perfil: Option<i32>,
    /// Last activity, as displayed.
    pub last_active: String,
}

/// The name shown for a user: `(sem nome)` when blank or missing.
pub open spec fn display_name_spec(nome: Option<String>) -> Seq<char> {
    non_blank_or(nome, "(sem nome)"@)
}

/// The row of one day.
pub open spec fn daily_row_spec(r: DailyStat) -> Seq<char> {
    "<tr class=\"border-b border-gray-700/50 hover:bg-gray-700/30\">\n                  <td class=\"py-2 px-3\">"@
        + r.date@
        + "</td>\n                  <td class=\"text-right py-2 px-3 font-semibold text-white\">"@
        + signed_decimal_spec(r.unique_users as int)
        + "</td>\n                </tr>"@
}

/// The rows of all days.
pub open spec fn daily_rows_spec(rows: Seq<DailyStat>) -> Seq<char>
    decreases rows.len(),
{
    if rows.len() == 0 {
        seq![]
    } else {
        daily_rows_spec(rows.drop_last()) + daily_row_spec(rows.last())
    }
}

/// The row of one recent user.
pub open spec fn recent_row_spec(r: RecentUser) -> Seq<char> {
    "<tr class=\"border-b border-gray-700/50 hover:bg-gray-700/30\">\n                  <td class=\"py-2 px-3\">"@
        + display_name_spec(r.nome)
        + "</td>\n                  <td class=\"py-2 px-3 text-gray-400\">"@
        + r.email@
        + "</td>\n                  <td class=\"py-2 px-3 text-xs uppercase tracking-wide text-blue-300\">"@
        + profile_label_spec(r.perfil)
        + "</td>\n                  <td class=\"text-right py-2 px-3 text-xs text-gray-400\">"@
        + r.last_active@
        + "</td>\n                </tr>"@
}

/// The rows of all recent users.
pub open spec fn recent_rows_spec(rows: Seq<RecentUser>) -> Seq<char>
    decreases rows.len(),
{
    if rows.len() == 0 {
        seq![]
    } else {
        recent_rows_spec(rows.drop_last()) + recent_row_spec(rows.last())
    }
}

/// The statistics block.
pub open spec fn statistics_spec(total_unique_users: i64, total_logins: i64, days: i64, daily_html: Seq<char>, recent_html: Seq<char>) -> Seq<char> {
    "\n        <div class=\"grid grid-cols-1 sm:grid-cols-2 gap-4 mb-8\">\n          <div class=\"bg-gradient-to-br from-blue-500 to-blue-600 rounded-xl p-6 text-white shadow-lg\">\n            <div class=\"text-4xl font-bold mb-2\">"@
        + signed_decimal_spec(total_unique_users as int)
        + "</div>\n            <div class=\"text-sm text-blue-100\">Utilizadores únicos (últimos "@
        + signed_decimal_spec(days as int)
        + " dias)</div>\n          </div>\n          <div class=\"bg-gradient-to-br from-purple-500 to-purple-600 rounded-xl p-6 text-white shadow-lg\">\n            <div class=\"text-4xl font-bold mb-2\">"@
        + signed_decimal_spec(total_logins as int)
        + "</div>\n            <div class=\"text-sm text-purple-100\">Total de logins (últimos "@
        + signed_decimal_spec(days as int)
        + " dias)</div>\n          </div>\n        </div>\n        <div class=\"bg-gray-800/50 rounded-xl p-6 border border-gray-700/50\">\n          <h3 class=\"text-xl font-bold text-white mb-4\">Utilizadores únicos por dia</h3>\n          <div class=\"overflow-x-auto\">\n            <table class=\"w-full text-sm text-gray-300\">\n              <thead>\n                <tr class=\"border-b border-gray-700\">\n                  <th class=\"text-left py-2 px-3\">Data</th>\n                  <th class=\"text-right py-2 px-3\">Utilizadores únicos</th>\n                </tr>\n              </thead>\n              <tbody>\n                "@
        + daily_html
        + "\n              </tbody>\n            </table>\n          </div>\n        </div>\n        <div class=\"bg-gray-800/50 rounded-xl p-6 border border-gray-700/50\">\n          <h3 class=\"text-xl font-bold text-white mb-4\">Últimos 50 utilizadores que usaram o programa</h3>\n          <div class=\"overflow-x-auto\">\n            <table class=\"w-full text-sm text-gray-300\">\n              <thead>\n                <tr class=\"border-b border-gray-700\">\n                  <th class=\"text-left py-2 px-3\">Utilizador</th>\n                  <th class=\"text-left py-2 px-3\">Email</th>\n                  <th class=\"text-left py-2 px-3\">Perfil</th>\n                  <th class=\"text-right py-2 px-3\">Última atividade</th>\n                </tr>\n              </thead>\n              <tbody>\n                "@
        + recent_html
        + "\n              </tbody>\n            </table>\n          </div>\n        </div>\n        "@
}

/// The row of one day.
fn daily_row(r: &DailyStat) -> (s: String)
    ensures
        s@ == daily_row_spec(*r),
{
    let mut v: Vec<char> = Vec::new();
    append_str(&mut v, "<tr class=\"border-b border-gray-700/50 hover:bg-gray-700/30\">\n                  <td class=\"py-2 px-3\">");
    append_str(&mut v, r.date.as_str());
    append_str(&mut v, "</td>\n                  <td class=\"text-right py-2 px-3 font-semibold text-white\">");
    push_signed_decimal(&mut v, r.unique_users as i64);
    append_str(&mut v, "</td>\n                </tr>");
    assert(v@ =~= daily_row_spec(*r));
    string_from_chars(&v)
}

/// The row of one recent user.
fn recent_row(r: &RecentUser) -> (s: String)
    ensures
        s@ == recent_row_spec(*r),
{
    let name = or_default_text(&r.nome, "(sem nome)");
    let label = profile_label(r.perfil);
    let mut v: Vec<char> = Vec::new();
    append_str(&mut v, "<tr class=\"border-b border-gray-700/50 hover:bg-gray-700/30\">\n                  <td class=\"py-2 px-3\">");
    append_str(&mut v, name.as_str());
    append_str(&mut v, "</td>\n                  <td class=\"py-2 px-3 text-gray-400\">");
    append_str(&mut v, r.email.as_str());
    append_str(&mut v, "</td>\n                  <td class=\"py-2 px-3 text-xs uppercase tracking-wide text-blue-300\">");
    append_str(&mut v, label.as_str());
    append_str(&mut v, "</td>\n                  <td class=\"text-right py-2 px-3 text-xs text-gray-400\">");
    append_str(&mut v, r.last_active.as_str());
    append_str(&mut v, "</td>\n                </tr>");
    assert(v@ =~= recent_row_spec(*r));
    string_from_chars(&v)
}

/// The statistics block of the statistics page: totals for the period,
/// distinct users per day and the most recent users.
pub fn statistics_html(
    total_unique_users: i64,
    total_logins: i64,
    days: i64,
    daily: &Vec<DailyStat>,
    recent: &Vec<RecentUser>,
) -> (s: String)
    ensures
        s@ == statistics_spec(total_unique_users, total_logins, days, daily_rows_spec(daily@), recent_rows_spec(recent@)),
{
    let mut d: Vec<char> = Vec::new();
    let mut i: usize = 0;
    while i < daily.len()
        invariant
            i <= daily.len(),
            d@ == daily_rows_spec(daily@.take(i as int)),
        decreases daily.len() - i,
    {
        let row = daily_row(&daily[i]);
        append_str(&mut d, row.as_str());
        proof {
            assert(daily@.take(i + 1).drop_last() =~= daily@.take(i as int));
        }
        i += 1;
    }
    assert(daily@.take(daily.len() as int) =~= daily@);
    let mut r: Vec<char> = Vec::new();
    let mut j: usize = 0;
    while j < recent.len()
        invariant
            j <= recent.len(),
            r@ == recent_rows_spec(recent@.take(j as int)),
        decreases recent.len() - j,
    {
        let row = recent_row(&recent[j]);
        append_str(&mut r, row.as_str());
        proof {
            assert(recent@.take(j + 1).drop_last() =~= recent@.take(j as int));
        }
        j += 1;
    }
    assert(recent@.take(recent.len() as int) =~= recent@);
    let daily_text = string_from_chars(&d);
    let recent_text = string_from_chars(&r);
    let daily_html = daily_text.as_str();
    let recent_html = recent_text.as_str();
    let mut v: Vec<char> = Vec::new();
    append_str(&mut v, "\n        <div class=\"grid grid-cols-1 sm:grid-cols-2 gap-4 mb-8\">\n          <div class=\"bg-gradient-to-br from-blue-500 to-blue-600 rounded-xl p-6 text-white shadow-lg\">\n            <div class=\"text-4xl font-bold mb-2\">");
    push_signed_decimal(&mut v, total_unique_users as i64);
    append_str(&mut v, "</div>\n            <div class=\"text-sm text-blue-100\">Utilizadores únicos (últimos ");
    push_signed_decimal(&mut v, days as i64);
    append_str(&mut v, " dias)</div>\n          </div>\n          <div class=\"bg-gradient-to-br from-purple-500 to-purple-600 rounded-xl p-6 text-white shadow-lg\">\n            <div class=\"text-4xl font-bold mb-2\">");
    push_signed_decimal(&mut v, total_logins as i64);
    append_str(&mut v, "</div>\n            <div class=\"text-sm text-purple-100\">Total de logins (últimos ");
    push_signed_decimal(&mut v, days as i64);
    append_str(&mut v, " dias)</div>\n          </div>\n        </div>\n        <div class=\"bg-gray-800/50 rounded-xl p-6 border border-gray-700/50\">\n          <h3 class=\"text-xl font-bold text-white mb-4\">Utilizadores únicos por dia</h3>\n          <div class=\"overflow-x-auto\">\n            <table class=\"w-full text-sm text-gray-300\">\n              <thead>\n                <tr class=\"border-b border-gray-700\">\n                  <th class=\"text-left py-2 px-3\">Data</th>\n                  <th class=\"text-right py-2 px-3\">Utilizadores únicos</th>\n                </tr>\n              </thead>\n              <tbody>\n                ");
    append_str(&mut v, daily_html);
    append_str(&mut v, "\n              </tbody>\n            </table>\n          </div>\n        </div>\n        <div class=\"bg-gray-800/50 rounded-xl p-6 border border-gray-700/50\">\n          <h3 class=\"text-xl font-bold text-white mb-4\">Últimos 50 utilizadores que usaram o programa</h3>\n          <div class=\"overflow-x-auto\">\n            <table class=\"w-full text-sm text-gray-300\">\n              <thead>\n                <tr class=\"border-b border-gray-700\">\n                  <th class=\"text-left py-2 px-3\">Utilizador</th>\n                  <th class=\"text-left py-2 px-3\">Email</th>\n                  <th class=\"text-left py-2 px-3\">Perfil</th>\n                  <th class=\"text-right py-2 px-3\">Última atividade</th>\n                </tr>\n              </thead>\n              <tbody>\n                ");
    append_str(&mut v, recent_html);
    append_str(&mut v, "\n              </tbody>\n            </table>\n          </div>\n        </div>\n        ");
    assert(v@ =~= statistics_spec(total_unique_users, total_logins, days, daily_html@, recent_html@));
    string_from_chars(&v)
}

/// The marker in the statistics page that the block replaces.
pub open spec fn stats_marker() -> Seq<char> {
    "<!-- STATS_CONTENT -->"@
}

/// Puts the statistics block in place of every marker of the page.
pub fn insert_statistics(page: &str, block: &str) -> (s: String)
    ensures
        s@ == replace_all(page@, stats_marker(), block@),
{
    let v = chars_of(page);
    let pat = chars_of("<!-- STATS_CONTENT -->");
    let rep = chars_of(block);
    proof {
        reveal_strlit("<!-- STATS_CONTENT -->");
    }
    let out = replace_chars(&v, &pat, &rep);
    string_from_chars(&out)
}

// ---------------------------------------------------------------------------
// The home page header
// ---------------------------------------------------------------------------

/// Number of non-whitespace characters at the start of `s`.
pub open spec fn word_len(s: Seq<char>) -> nat
    decreases s.len(),
{
    if s.len() > 0 && !is_ws(s[0]) {
        1 + word_len(s.drop_first())
    } else {
        0
    }
}

/// `k` is the word length exactly when `s[..k]` has no whitespace and
/// `s[k]` (if any) is whitespace.
proof fn lemma_word_len(s: Seq<char>, k: int)
    requires
        0 <= k <= s.len(),
        forall|j: int| 0 <= j < k ==> !is_ws(s[j]),
        k == s.len() || is_ws(s[k]),
    ensures
        word_len(s) == k,
    decreases k,
{
    if k > 0 {
        let t = s.drop_first();
        assert forall|j: int| 0 <= j < k - 1 implies !is_ws(t[j]) by {
            assert(t[j] == s[j + 1]);
        }
        if k < s.len() {
            assert(t[k - 1] == s[k]);
        }
        lemma_word_len(t, k - 1);
    }
}

/// The first whitespace-separated word of `s` (empty when there is none).
pub open spec fn first_word(s: Seq<char>) -> Seq<char> {
    let t = trim_start(s);
    t.take(word_len(t) as int)
}

/// What follows the first word of `s`.
pub open spec fn after_first_word(s: Seq<char>) -> Seq<char> {
    let t = trim_start(s);
    t.skip(word_len(t) as int)
}

/// The first letters of the first two words of `s`.
pub open spec fn initials_spec(s: Seq<char>) -> Seq<char> {
    let w1 = first_word(s);
    let w2 = first_word(after_first_word(s));
    (if w1.len() > 0 {
        seq![w1[0]]
    } else {
        seq![]
    }) + (if w2.len() > 0 {
        seq![w2[0]]
    } else {
        seq![]
    })
}

/// Bounds `(a, b)` of the first word of `v[from..]`.
fn first_word_bounds(v: &Vec<char>, from: usize) -> (r: (usize, usize))
    requires
        from <= v.len(),
    ensures
        from <= r.0 <= r.1 <= v.len(),
        v@.subrange(r.0 as int, r.1 as int) == first_word(v@.skip(from as int)),
        v@.skip(r.1 as int) == after_first_word(v@.skip(from as int)),
{
    let a = skip_ws_forward(v, from, v.len());
    let mut b = a;
    while b < v.len() && !crate::text::is_whitespace(v[b])
        invariant
            a <= b <= v.len(),
            forall|j: int| a <= j < b ==> !is_ws(v@[j]),
        decreases v.len() - b,
    {
        b += 1;
    }
    proof {
        let s = v@.skip(from as int);
        assert(v@.subrange(from as int, v.len() as int) =~= s);
        let t = trim_start(s);
        assert(t =~= v@.skip(a as int));
        assert forall|j: int| 0 <= j < b - a implies !is_ws(t[j]) by {
            assert(t[j] == v@[a + j]);
        }
        if b < v.len() {
            assert(t[b - a] == v@[b as int]);
        }
        lemma_word_len(t, b - a);
        assert(t.take(b - a) =~= v@.subrange(a as int, b as int));
        assert(t.skip(b - a) =~= v@.skip(b as int));
    }
    (a, b)
}

/// What the home page shows of the signed-in user.
pub struct IndexHeader {
    /// First word of the name, or `Utilizador`.
    pub first_name: String,
    /// Initials in capitals, or `U`.
    pub initials: String,
    /// Profile label.
    pub profile_label: String,
    /// Church, or empty.
    pub church: String,
    /// Whether the user is a programmer.
    pub is_programmer: bool,
}

/// The full name used on the home page: the stored one, or `Utilizador`.
pub open spec fn full_name_spec(nome: Option<String>) -> Seq<char> {
    match nome {
        Some(n) => n@,
        None => "Utilizador"@,
    }
}

/// The home page header for a user: the first word of the name, the
/// capitalised first letters of its first two words, the profile label and
/// the church.
pub fn index_header(nome: Option<String>, perfil: Option<i32>, igreja: Option<String>) -> (h:
    IndexHeader)
    ensures
        h.first_name@ == (if first_word(full_name_spec(nome)).len() > 0 {
            first_word(full_name_spec(nome))
        } else {
            "Utilizador"@
        }),
        h.initials@ == (if initials_spec(full_name_spec(nome)).len() > 0 {
            uppercase(initials_spec(full_name_spec(nome)))
        } else {
            "U"@
        }),
        initials_spec(full_name_spec(nome)).len() > 0 && crate::text::is_ascii_text(
            initials_spec(full_name_spec(nome)),
        ) ==> h.initials@ == crate::text::ascii_uppercase(initials_spec(full_name_spec(nome))),
        h.profile_label@ == profile_label_spec(perfil),
        h.church@ == crate::songs::or_empty(igreja),
        h.is_programmer == (effective_profile(perfil) == 4),
{
    let full = match nome {
        Some(n) => n,
        None => "Utilizador".to_string(),
    };
    let v = chars_of(full.as_str());
    let (a1, b1) = first_word_bounds(&v, 0);
    assert(v@.skip(0) =~= v@);
    let (a2, b2) = first_word_bounds(&v, b1);
    let first_name = if a1 < b1 {
        crate::text::string_from_range(&v, a1, b1)
    } else {
        "Utilizador".to_string()
    };
    let mut ini: Vec<char> = Vec::new();
    if a1 < b1 {
        ini.push(v[a1]);
    }
    if a2 < b2 {
        ini.push(v[a2]);
    }
    proof {
        let w1 = first_word(full@);
        let w2 = first_word(after_first_word(full@));
        assert(w1.len() > 0 ==> w1[0] == v@[a1 as int]);
        assert(w2.len() > 0 ==> w2[0] == v@[a2 as int]);
        assert(ini@ =~= initials_spec(full@));
    }
    let ini_text = string_from_chars(&ini);
    let initials = if ini.len() > 0 {
        to_uppercase(ini_text.as_str())
    } else {
        "U".to_string()
    };
    let perfil_value: i32 = match perfil {
        Some(p) => p,
        None => 1,
    };
    IndexHeader {
        first_name,
        initials,
        profile_label: profile_label(perfil),
        church: crate::songs::unwrap_or_empty(&igreja),
        is_programmer: perfil_value == 4,
    }
}

// ---------------------------------------------------------------------------
// Genres
// ---------------------------------------------------------------------------

/// The name of a genre: its description, or `Tipo {id}`.
pub open spec fn genre_name_spec(id: i32, desc: Option<String>) -> Seq<char> {
    match desc {
        Some(d) => d@,
        None => "Tipo "@ + signed_decimal_spec(id as int),
    }
}

/// The name of a genre: its description, or `Tipo {id}`.
pub fn genre_name(id: i32, desc: Option<String>) -> (s: String)
    ensures
        s@ == genre_name_spec(id, desc),
{
    match desc {
        Some(d) => d,
        None => {
            let mut v: Vec<char> = Vec::new();
            append_str(&mut v, "Tipo ");
            push_signed_decimal(&mut v, id as i64);
            assert(v@ =~= "Tipo "@ + signed_decimal_spec(id as int));
            string_from_chars(&v)
        },
    }
}

/// A genre offered in the song forms.
pub struct GenreOption {
    /// Genre id.
    pub id: i32,
    /// Name shown.
    pub name: String,
    /// Code prefix, or empty.
    pub prefix: String,
    /// Whether it is the song's genre.
    pub selected: bool,
}

/// A genre choice of the song forms, marked when it is the song's genre.
pub fn genre_option(id: i32, name: Option<String>, prefix: Option<String>, current: Option<i32>) -> (g:
    GenreOption)
    ensures
        g.id == id,
        g.name@ == genre_name_spec(id, name),
        g.prefix@ == crate::songs::or_empty(prefix),
        g.selected == (current == Some(id)),
{
    let selected = match current {
        Some(c) => c == id,
        None => false,
    };
    GenreOption {
        id,
        name: genre_name(id, name),
        prefix: crate::songs::unwrap_or_empty(&prefix),
        selected,
    }
}

// ---------------------------------------------------------------------------
// Song details and chord display
// ---------------------------------------------------------------------------

/// The text of a song page, with what the viewer may do.
pub struct SongDetailText {
    /// Song id.
    pub id: i32,
    /// Title, or `(sem título)`.
    pub name: String,
    /// Code, or `-`.
    pub code: String,
    /// Chords.
    pub chord_pro: String,
    /// Lyrics, or empty.
    pub lyrics: String,
    /// Video link, or empty.
    pub youtube: String,
    /// Marked as a favourite by the viewer.
    pub favorite: bool,
    /// Waiting for review.
    pub is_pending: bool,
    /// The viewer may edit it.
    pub can_edit: bool,
    /// The viewer may delete it.
    pub can_delete: bool,
    /// The viewer may approve it.
    pub can_approve: bool,
}

/// The text of a song page.
pub fn song_detail_text(
    song: &crate::songs::Song,
    favorite: bool,
    is_pending: bool,
    can_edit: bool,
    can_delete: bool,
    can_approve: bool,
) -> (d: SongDetailText)
    ensures
        d.id == song.id,
        d.name@ == (match song.name {
            Some(n) => n@,
            None => crate::songs::untitled(),
        }),
        d.code@ == (match song.code {
            Some(c) => c@,
            None => "-"@,
        }),
        d.chord_pro@ == song.chord_pro@,
        d.lyrics@ == crate::songs::or_empty(song.lyrics),
        d.youtube@ == crate::songs::or_empty(song.youtube),
        d.favorite == favorite,
        d.is_pending == is_pending,
        d.can_edit == can_edit,
        d.can_delete == can_delete,
        d.can_approve == can_approve,
{
    let name = match &song.name {
        Some(n) => n.clone(),
        None => {
            proof {
                reveal_strlit("(sem título)");
            }
            "(sem título)".to_string()
        },
    };
    let code = match &song.code {
        Some(c) => c.clone(),
        None => "-".to_string(),
    };
    SongDetailText {
        id: song.id,
        name,
        code,
        chord_pro: song.chord_pro.clone(),
        lyrics: crate::songs::unwrap_or_empty(&song.lyrics),
        youtube: crate::songs::unwrap_or_empty(&song.youtube),
        favorite,
        is_pending,
        can_edit,
        can_delete,
        can_approve,
    }
}

/// Whether the whole-number chord display settings are allowed: 0 to 4
/// columns, accidentals -1 (flats), 0 or 1 (sharps), and a transposition
/// of at most 11 semitones either way.
pub open spec fn layout_valid_spec(column_count: i32, accidentals: i32, transpose: i32) -> bool {
    0 <= column_count <= 4 && (accidentals == -1 || accidentals == 0 || accidentals == 1) && -11
        <= transpose <= 11
}

/// Checks the whole-number chord display settings.
pub fn chord_layout_valid(column_count: i32, accidentals: i32, transpose: i32) -> (ok: bool)
    ensures
        ok == layout_valid_spec(column_count, accidentals, transpose),
{
    0 <= column_count && column_count <= 4 && (accidentals == -1 || accidentals == 0 || accidentals
        == 1) && -11 <= transpose && transpose <= 11
}

/// The chord display settings accepted are exactly those with 0 to 4
/// columns, an accidentals preference between -1 and 1 (flats, none,
/// sharps) and a transposition within an octave either way; in particular
/// the default settings (no columns, no preference, no transposition) are
/// accepted, and each preference is accepted with any valid columns and
/// transposition.
pub proof fn law_chord_layout_ranges(column_count: i32, accidentals: i32, transpose: i32)
    ensures
        layout_valid_spec(column_count, accidentals, transpose) <==> (0 <= column_count <= 4 && -1
            <= accidentals <= 1 && -11 <= transpose <= 11),
        layout_valid_spec(0, 0, 0),
        (0 <= column_count <= 4 && -11 <= transpose <= 11) ==> {
            &&& layout_valid_spec(column_count, -1i32, transpose)
            &&& layout_valid_spec(column_count, 0, transpose)
            &&& layout_valid_spec(column_count, 1, transpose)
        },
{
}

// ---------------------------------------------------------------------------
// Donations
// ---------------------------------------------------------------------------

/// The donation in cents: the `amount` parameter when it parses, else 500;
/// refused below 100.
pub open spec fn donation_spec(param: Option<Seq<char>>) -> Option<i64> {
    let a = match param {
        Some(p) => match parse_i64_spec(p) {
            Some(x) => x,
            None => 500,
        },
        None => 500,
    };
    if a < 100 {
        None
    } else {
        Some(a)
    }
}

/// Reads the donation amount in cents; `None` below the 1€ minimum.
pub fn donation_amount(param: Option<&str>) -> (r: Option<i64>)
    ensures
        r == donation_spec(match param {
            Some(p) => Some(p@),
            None => None,
        }),
{
    let a: i64 = match param {
        Some(p) => match parse_i64(p) {
            Some(x) => x,
            None => 500,
        },
        None => 500,
    };
    if a < 100 {
        None
    } else {
        Some(a)
    }
}

/// The view of form fields.
pub open spec fn fields_view(f: Seq<(String, String)>) -> Seq<(Seq<char>, Seq<char>)> {
    f.map_values(|p: (String, String)| (p.0@, p.1@))
}

/// The fields of the payment session for a donation.
pub open spec fn checkout_fields_spec(amount: i64, app_url: Seq<char>) -> Seq<(Seq<char>, Seq<char>)> {
    seq![
        ("payment_method_types[]"@, "card"@),
        ("line_items[0][price_data][currency]"@, "eur"@),
        ("line_items[0][price_data][product_data][name]"@, "Donativo PraiseChords"@),
        ("line_items[0][price_data][product_data][description]"@, "Apoio ao projeto PraiseChords"@),
        ("line_items[0][price_data][unit_amount]"@, signed_decimal_spec(amount as int)),
        ("line_items[0][quantity]"@, "1"@),
        ("mode"@, "payment"@),
        ("success_url"@, app_url + "/app?donation=success"@),
        ("cancel_url"@, app_url + "/app?donation=cancel"@),
        ("locale"@, "pt"@),
    ]
}

/// A field of the payment form.
fn field(k: &str, v: &str) -> (p: (String, String))
    ensures
        p.0@ == k@,
        p.1@ == v@,
{
    (k.to_string(), v.to_string())
}

/// The fields sent to open a payment session for a donation of `amount`
/// cents, returning to the application at `app_url`.
pub fn checkout_fields(amount: i64, app_url: &str) -> (f: Vec<(String, String)>)
    ensures
        fields_view(f@) == checkout_fields_spec(amount, app_url@),
{
    let amount_text = crate::numbers::format_i64(amount);
    let mut ok_url = chars_of(app_url);
    append_str(&mut ok_url, "/app?donation=success");
    let mut cancel_url = chars_of(app_url);
    append_str(&mut cancel_url, "/app?donation=cancel");
    let ok_text = string_from_chars(&ok_url);
    let cancel_text = string_from_chars(&cancel_url);
    let mut f: Vec<(String, String)> = Vec::new();
    f.push(field("payment_method_types[]", "card"));
    f.push(field("line_items[0][price_data][currency]", "eur"));
    f.push(field("line_items[0][price_data][product_data][name]", "Donativo PraiseChords"));
    f.push(field("line_items[0][price_data][product_data][description]", "Apoio ao projeto PraiseChords"));
    f.push(field("line_items[0][price_data][unit_amount]", amount_text.as_str()));
    f.push(field("line_items[0][quantity]", "1"));
    f.push(field("mode", "payment"));
    f.push(field("success_url", ok_text.as_str()));
    f.push(field("cancel_url", cancel_text.as_str()));
    f.push(field("locale", "pt"));
    assert(fields_view(f@) =~= checkout_fields_spec(amount, app_url@));
    f
}

/// The string at `key` of the JSON object in `body`, as serde_json reads
/// it; a function of the two texts.
pub uninterp spec fn json_string_field(body: Seq<char>, key: Seq<char>) -> Option<Seq<char>>;

/// `serde_json::from_str::<serde_json::Value>`, then `Value::get` and
/// `Value::as_str`. Trusted: the result is `json_string_field` of the body
/// and the key.
#[verifier::external_body]
fn json_string_at(body: &str, key: &str) -> (r: Option<String>)
    ensures
        match r {
            Some(s) => json_string_field(body@, key@) == Some(s@),
            None => json_string_field(body@, key@) is None,
        },
{
    let value: serde_json::Value = match serde_json::from_str(body) {
        Ok(v) => v,
        Err(_) => return None,
    };
    match value.get(key) {
        Some(serde_json::Value::String(t)) => Some(t.clone()),
        _ => None,
    }
}

/// The payment page of a successful reply: its `url` field.
pub fn checkout_url(status_ok: bool, body: &str) -> (r: Option<String>)
    ensures
        match r {
            Some(u) => status_ok && json_string_field(body@, "url"@) == Some(u@),
            None => !status_ok || json_string_field(body@, "url"@) is None,
        },
{
    if !status_ok {
        return None;
    }
    json_string_at(body, "url")
}

// ---------------------------------------------------------------------------
// Caching
// ---------------------------------------------------------------------------

/// Whether a response of this content type must not be cached: HTML pages
/// always come fresh.
pub fn wants_no_store(content_type: Option<&str>) -> (r: bool)
    ensures
        r == (match content_type {
            Some(t) => crate::text::has_at(t@, 0, "text/html"@),
            None => false,
        }),
{
    match content_type {
        Some(t) => {
            let v = chars_of(t);
            crate::text::starts_with_chars(&v, "text/html")
        },
        None => false,
    }
}

// ---------------------------------------------------------------------------
// Demo data
// ---------------------------------------------------------------------------

/// Demo data is removed when a demo user signs in and the oldest demo song
/// is at least a day old (its age in whole hours); without demo songs there
/// is nothing to remove.
pub fn demo_cleanup_due(oldest_age_hours: Option<i64>) -> (due: bool)
    ensures
        due == (match oldest_age_hours {
            Some(h) => h >= 24,
            None => false,
        }),
{
    match oldest_age_hours {
        Some(h) => h >= 24,
        None => false,
    }
}

} // verus!
