//! Setlists: reordering songs, moving through a setlist in the player,
//! share links and summaries.

use vstd::prelude::*;
use crate::text::{
    append_str, append_escaped, chars_of, opt_view, string_from_chars, escape_html_spec, trim, trim_string,
};
use crate::numbers::{decimal_spec, push_decimal, push_signed_decimal, signed_decimal_spec};

verus! {

// ---------------------------------------------------------------------------
// Reordering
// ---------------------------------------------------------------------------

/// Direction of a move within a setlist.
#[derive(Clone, Copy, PartialEq, Eq, Structural, Debug)]
pub enum Direction {
    /// Towards the start.
    Up,
    /// Towards the end.
    Down,
}

/// Reads a direction from the request path (`up` or `down`).
pub fn parse_direction(s: &str) -> (r: Option<Direction>)
    ensures
        r == (if s@ == "up"@ {
            Some(Direction::Up)
        } else if s@ == "down"@ {
            Some(Direction::Down)
        } else {
            None
        }),
{
    if crate::text::str_eq(s, "up") {
        Some(Direction::Up)
    } else if crate::text::str_eq(s, "down") {
        Some(Direction::Down)
    } else {
        None
    }
}

/// The two order values to write: the moved song takes its neighbour's
/// order and the neighbour takes the moved song's order.
#[derive(Clone, Copy, PartialEq, Eq, Structural, Debug)]
pub struct MovePlan {
    /// The song that moves.
    pub song_id: i32,
    /// Its new order.
    pub song_order: i32,
    /// The neighbour it swaps with.
    pub other_id: i32,
    /// The neighbour's new order.
    pub other_order: i32,
}

/// Why a move cannot be made.
#[derive(Clone, Copy, PartialEq, Eq, Structural, Debug)]
pub enum MoveError {
    /// The song is not in the setlist (404).
    NotFound,
    /// Unknown direction, or no neighbour in that direction (400).
    BadRequest,
}

/// Index of the first entry for `song_id`.
pub open spec fn first_index(songs: Seq<(i32, Option<i32>)>, song_id: i32) -> int
    decreases songs.len(),
{
    if songs.len() == 0 {
        -1
    } else if songs[0].0 == song_id {
        0
    } else {
        let r = first_index(songs.drop_first(), song_id);
        if r < 0 {
            -1
        } else {
            r + 1
        }
    }
}

/// The order of entry `i`, or its position when no order is stored.
pub open spec fn order_at(songs: Seq<(i32, Option<i32>)>, i: int) -> i32 {
    match songs[i].1 {
        Some(o) => o,
        None => i as i32,
    }
}

/// The move of `song_id` one place in `direction`, among the setlist's
/// entries listed by order.
pub open spec fn move_spec(songs: Seq<(i32, Option<i32>)>, song_id: i32, direction: Option<Direction>) -> Result<MovePlan, MoveError> {
    let i = first_index(songs, song_id);
    if i < 0 {
        Err(MoveError::NotFound)
    } else {
        let j = match direction {
            Some(Direction::Up) => if i > 0 {
                i - 1
            } else {
                -1
            },
            Some(Direction::Down) => if i + 1 < songs.len() {
                i + 1
            } else {
                -1
            },
            None => -1,
        };
        if j < 0 {
            Err(MoveError::BadRequest)
        } else {
            Ok(
                MovePlan {
                    song_id,
                    song_order: order_at(songs, j),
                    other_id: songs[j].0,
                    other_order: order_at(songs, i),
                },
            )
        }
    }
}

/// Where the first entry for `song_id` is, if anywhere.
fn find_song(songs: &Vec<(i32, Option<i32>)>, song_id: i32) -> (r: Option<usize>)
    ensures
        match r {
            Some(i) => first_index(songs@, song_id) == i as int && i < songs@.len(),
            None => first_index(songs@, song_id) < 0,
        },
{
    let mut i: usize = 0;
    while i < songs.len()
        invariant
            i <= songs.len(),
            forall|k: int| 0 <= k < i ==> songs@[k].0 != song_id,
        decreases songs.len() - i,
    {
        if songs[i].0 == song_id {
            proof {
                lemma_first_index_found(songs@, song_id, i as int);
            }
            return Some(i);
        }
        i += 1;
    }
    proof {
        lemma_first_index_absent(songs@, song_id);
    }
    None
}

/// The first entry for `song_id` is at `i` when it is there and nowhere
/// before.
proof fn lemma_first_index_found(songs: Seq<(i32, Option<i32>)>, song_id: i32, i: int)
    requires
        0 <= i < songs.len(),
        songs[i].0 == song_id,
        forall|k: int| 0 <= k < i ==> songs[k].0 != song_id,
    ensures
        first_index(songs, song_id) == i,
    decreases i,
{
    if i > 0 {
        let t = songs.drop_first();
        assert forall|k: int| 0 <= k < i - 1 implies t[k].0 != song_id by {
            assert(t[k] == songs[k + 1]);
        }
        assert(t[i - 1] == songs[i]);
        lemma_first_index_found(t, song_id, i - 1);
    }
}

/// Without an entry for `song_id` there is no index.
proof fn lemma_first_index_absent(songs: Seq<(i32, Option<i32>)>, song_id: i32)
    requires
        forall|k: int| 0 <= k < songs.len() ==> songs[k].0 != song_id,
    ensures
        first_index(songs, song_id) < 0,
    decreases songs.len(),
{
    if songs.len() > 0 {
        let t = songs.drop_first();
        assert forall|k: int| 0 <= k < t.len() implies t[k].0 != song_id by {
            assert(t[k] == songs[k + 1]);
        }
        lemma_first_index_absent(t, song_id);
    }
}

/// The order of entry `i`.
fn order_of(songs: &Vec<(i32, Option<i32>)>, i: usize) -> (o: i32)
    requires
        i < songs.len(),
    ensures
        o == order_at(songs@, i as int),
{
    match songs[i].1 {
        Some(o) => o,
        None => i as i32,
    }
}

/// Plans moving a song one place up or down in its setlist: the song and
/// its neighbour exchange their order values.
pub fn plan_move(songs: &Vec<(i32, Option<i32>)>, song_id: i32, direction: Option<Direction>) -> (r:
    Result<MovePlan, MoveError>)
    ensures
        r == move_spec(songs@, song_id, direction),
{
    let found = find_song(songs, song_id);
    if found.is_none() {
        return Err(MoveError::NotFound);
    }
    let i = found.unwrap();
    assert(i < songs.len());
    let j: usize = match direction {
        Some(Direction::Up) => {
            if i > 0 {
                i - 1
            } else {
                return Err(MoveError::BadRequest);
            }
        },
        Some(Direction::Down) => {
            if i + 1 < songs.len() {
                i + 1
            } else {
                return Err(MoveError::BadRequest);
            }
        },
        None => return Err(MoveError::BadRequest),
    };
    Ok(
        MovePlan {
            song_id,
            song_order: order_of(songs, j),
            other_id: songs[j].0,
            other_order: order_of(songs, i),
        },
    )
}

/// The setlist as listed again after a move of entry `i` up: the two
/// entries change places while the order values stay in place.
pub open spec fn listed_after_up(songs: Seq<(i32, Option<i32>)>, i: int) -> Seq<(i32, Option<i32>)> {
    songs.update(i - 1, (songs[i].0, songs[i - 1].1)).update(i, (songs[i - 1].0, songs[i].1))
}

/// Moving a song up and then down again gives every song its old order
/// back (when ids are distinct and orders are stored).
pub proof fn law_move_up_then_down(songs: Seq<(i32, Option<i32>)>, song_id: i32)
    requires
        forall|a: int, b: int| 0 <= a < b < songs.len() ==> songs[a].0 != songs[b].0,
        forall|k: int| 0 <= k < songs.len() ==> songs[k].1 is Some,
        move_spec(songs, song_id, Some(Direction::Up)) is Ok,
    ensures
        ({
            let up = move_spec(songs, song_id, Some(Direction::Up))->Ok_0;
            let i = first_index(songs, song_id);
            let again = listed_after_up(songs, i);
            let down = move_spec(again, song_id, Some(Direction::Down));
            &&& down is Ok
            &&& down->Ok_0.song_id == song_id
            &&& down->Ok_0.other_id == up.other_id
            &&& down->Ok_0.song_order == up.other_order
            &&& down->Ok_0.other_order == up.song_order
        }),
{
    let i = first_index(songs, song_id);
    lemma_first_index_bounds(songs, song_id);
    let again = listed_after_up(songs, i);
    assert(again[i - 1].0 == song_id);
    assert forall|k: int| 0 <= k < i - 1 implies again[k].0 != song_id by {
        assert(again[k] == songs[k]);
        assert(songs[k].0 != songs[i].0);
    }
    lemma_first_index_found(again, song_id, i - 1);
}

/// The first index is within bounds and names the song.
proof fn lemma_first_index_bounds(songs: Seq<(i32, Option<i32>)>, song_id: i32)
    ensures
        first_index(songs, song_id) < songs.len(),
        first_index(songs, song_id) >= 0 ==> songs[first_index(songs, song_id)].0 == song_id,
    decreases songs.len(),
{
    if songs.len() > 0 && songs[0].0 != song_id {
        let t = songs.drop_first();
        lemma_first_index_bounds(t, song_id);
        if first_index(t, song_id) >= 0 {
            assert(songs[first_index(t, song_id) + 1] == t[first_index(t, song_id)]);
        }
    }
}

// ---------------------------------------------------------------------------
// The player
// ---------------------------------------------------------------------------

/// Where the player is within a setlist, with links to the neighbours.
pub struct SetlistNavigation {
    /// Current position, from 1.
    pub current_position: usize,
    /// Number of songs in the setlist.
    pub total_songs: usize,
    /// Link to the previous song, when there is one.
    pub previous_url: Option<String>,
    /// Link to the next song, when there is one.
    pub next_url: Option<String>,
}

/// The link to position `p` under `base`.
pub open spec fn position_url(base: Seq<char>, p: nat) -> Seq<char> {
    base + seq!['/'] + decimal_spec(p)
}

/// `"/setlists/{id}/play"`, the base of the owner's player links.
pub open spec fn player_base_spec(setlist_id: i32) -> Seq<char> {
    "/setlists/"@ + signed_decimal_spec(setlist_id as int) + "/play"@
}

/// `"/share/{token}"`, the base of public player links.
pub open spec fn share_base_spec(token: Seq<char>) -> Seq<char> {
    "/share/"@ + token
}

/// The base of the owner's player links for a setlist.
pub fn player_base(setlist_id: i32) -> (s: String)
    ensures
        s@ == player_base_spec(setlist_id),
{
    let mut v: Vec<char> = Vec::new();
    append_str(&mut v, "/setlists/");
    push_signed_decimal(&mut v, setlist_id as i64);
    append_str(&mut v, "/play");
    assert(v@ =~= player_base_spec(setlist_id));
    string_from_chars(&v)
}

/// The base of public player links for a share token.
pub fn share_base(token: &str) -> (s: String)
    ensures
        s@ == share_base_spec(token@),
{
    let mut v: Vec<char> = Vec::new();
    append_str(&mut v, "/share/");
    append_str(&mut v, token);
    assert(v@ =~= share_base_spec(token@));
    string_from_chars(&v)
}

/// The link to a position.
fn make_position_url(base: &str, p: usize) -> (s: String)
    ensures
        s@ == position_url(base@, p as nat),
{
    let mut v = chars_of(base);
    v.push('/');
    push_decimal(&mut v, p as u64);
    assert(v@ =~= position_url(base@, p as nat));
    string_from_chars(&v)
}


/// The link to the previous position: from position 2 on.
pub open spec fn previous_link(base: Seq<char>, position: nat) -> Option<Seq<char>> {
    if position > 1 {
        Some(position_url(base, (position - 1) as nat))
    } else {
        None
    }
}

/// The link to the next position: before the last one.
pub open spec fn next_link(base: Seq<char>, position: nat, total: nat) -> Option<Seq<char>> {
    if position < total {
        Some(position_url(base, position + 1))
    } else {
        None
    }
}

/// The player's place at `position` (from 1) in a setlist of `total` songs:
/// none when the position is outside the setlist; otherwise links to the
/// previous position (from 2 on) and the next one (before the last).
pub fn setlist_navigation(base: &str, position: usize, total: usize) -> (r: Option<SetlistNavigation>)
    ensures
        r is None <==> (position == 0 || position > total),
        r matches Some(n) ==> {
            &&& n.current_position == position
            &&& n.total_songs == total
            &&& opt_view(n.previous_url) == previous_link(base@, position as nat)
            &&& opt_view(n.next_url) == next_link(base@, position as nat, total as nat)
        },
{
    if position == 0 || position > total {
        return None;
    }
    let previous_url = if position > 1 {
        Some(make_position_url(base, position - 1))
    } else {
        None
    };
    let next_url = if position < total {
        Some(make_position_url(base, position + 1))
    } else {
        None
    };
    Some(SetlistNavigation { current_position: position, total_songs: total, previous_url, next_url })
}

/// The song shown at `position` (from 1) of the setlist.
pub fn song_at_position(song_ids: &Vec<i32>, position: usize) -> (r: Option<i32>)
    ensures
        r == (if 1 <= position <= song_ids@.len() {
            Some(song_ids@[position - 1])
        } else {
            None
        }),
{
    if position == 0 || position > song_ids.len() {
        None
    } else {
        Some(song_ids[position - 1])
    }
}

/// Next and previous are inverse: the page after `p` links back to `p`,
/// and the page before `p + 1` is `p`; the first page has no previous link
/// and the last no next link.
pub proof fn law_navigation_links_back(base: Seq<char>, p: nat, total: nat)
    requires
        1 <= p < total,
    ensures
        next_link(base, p, total) == Some(position_url(base, p + 1)),
        previous_link(base, p + 1) == Some(position_url(base, p)),
        previous_link(base, 1) is None,
        next_link(base, total, total) is None,
{
}

// ---------------------------------------------------------------------------
// Links and summaries
// ---------------------------------------------------------------------------

/// `s` without trailing `/` characters (`trim_end_matches('/')`).
pub open spec fn trim_trailing_slashes(s: Seq<char>) -> Seq<char>
    decreases s.len(),
{
    if s.len() > 0 && s.last() == '/' {
        trim_trailing_slashes(s.drop_last())
    } else {
        s
    }
}

/// Length of `s` without its trailing slashes.
fn trailing_slash_cut(v: &Vec<char>) -> (k: usize)
    ensures
        k <= v.len(),
        v@.take(k as int) == trim_trailing_slashes(v@),
{
    let mut k = v.len();
    assert(v@.take(k as int) =~= v@);
    while k > 0 && v[k - 1] == '/'
        invariant
            k <= v.len(),
            trim_trailing_slashes(v@) == trim_trailing_slashes(v@.take(k as int)),
        decreases k,
    {
        assert(v@.take(k as int).drop_last() =~= v@.take(k - 1));
        k -= 1;
    }
    k
}

/// The application address followed by `path` (trailing slashes of the
/// address dropped).
pub open spec fn app_link_spec(base: Seq<char>, path: Seq<char>) -> Seq<char> {
    trim_trailing_slashes(base) + path
}

/// Joins the application address and a path.
pub fn app_link(base: &str, path: &str) -> (s: String)
    ensures
        s@ == app_link_spec(base@, path@),
{
    let v = chars_of(base);
    let k = trailing_slash_cut(&v);
    let mut w: Vec<char> = Vec::new();
    let mut i: usize = 0;
    while i < k
        invariant
            i <= k <= v.len(),
            w@ == v@.take(i as int),
        decreases k - i,
    {
        w.push(v[i]);
        assert(v@.take(i + 1) =~= v@.take(i as int).push(v@[i as int]));
        i += 1;
    }
    append_str(&mut w, path);
    string_from_chars(&w)
}

/// The link that opens the reset-password page for a token.
pub fn reset_link(app_base_url: &str, token: &str) -> (s: String)
    ensures
        s@ == trim_trailing_slashes(app_base_url@) + "/reset-password?token="@ + token@,
{
    let mut p: Vec<char> = Vec::new();
    append_str(&mut p, "/reset-password?token=");
    append_str(&mut p, token);
    let ps = string_from_chars(&p);
    let s = app_link(app_base_url, ps.as_str());
    assert(s@ =~= trim_trailing_slashes(app_base_url@) + "/reset-password?token="@ + token@);
    s
}

/// The public link of a shared setlist (opening on its first song).
pub fn share_link(app_base_url: &str, token: &str) -> (s: String)
    ensures
        s@ == trim_trailing_slashes(app_base_url@) + "/share/"@ + token@ + "/1"@,
{
    let mut p: Vec<char> = Vec::new();
    append_str(&mut p, "/share/");
    append_str(&mut p, token);
    append_str(&mut p, "/1");
    let ps = string_from_chars(&p);
    let s = app_link(app_base_url, ps.as_str());
    assert(s@ =~= trim_trailing_slashes(app_base_url@) + "/share/"@ + token@ + "/1"@);
    s
}

/// The box that shows a new share link with a copy button.
pub open spec fn share_box_spec(url: Seq<char>) -> Seq<char> {
    "<div class=\"w-full rounded-lg bg-violet-500/15 p-3 text-sm text-violet-100\"><p class=\"mb-2 font-semibold\">Link público da setlist</p><div class=\"flex gap-2\"><input id=\"setlist-share-url\" readonly value=\""@
        + escape_html_spec(url)
        + "\" class=\"min-w-0 flex-1 rounded bg-gray-900 px-3 py-2 text-xs text-white\" /><button type=\"button\" onclick=\"navigator.clipboard.writeText(document.getElementById('setlist-share-url').value)\" class=\"rounded bg-violet-600 px-3 py-2 font-semibold hover:bg-violet-700\">Copiar</button></div><p class=\"mt-2 text-xs text-violet-200\">Qualquer pessoa com este link pode ver as músicas.</p></div>"@
}

/// The HTML that shows a new share link.
pub fn share_box_html(url: &str) -> (s: String)
    ensures
        s@ == share_box_spec(url@),
{
    let mut v: Vec<char> = Vec::new();
    append_str(&mut v, "<div class=\"w-full rounded-lg bg-violet-500/15 p-3 text-sm text-violet-100\"><p class=\"mb-2 font-semibold\">Link público da setlist</p><div class=\"flex gap-2\"><input id=\"setlist-share-url\" readonly value=\"");
    append_escaped(&mut v, url);
    append_str(&mut v, "\" class=\"min-w-0 flex-1 rounded bg-gray-900 px-3 py-2 text-xs text-white\" /><button type=\"button\" onclick=\"navigator.clipboard.writeText(document.getElementById('setlist-share-url').value)\" class=\"rounded bg-violet-600 px-3 py-2 font-semibold hover:bg-violet-700\">Copiar</button></div><p class=\"mt-2 text-xs text-violet-200\">Qualquer pessoa com este link pode ver as músicas.</p></div>");
    assert(v@ =~= share_box_spec(url@));
    string_from_chars(&v)
}

/// A setlist in a list: its date (`YYYY-MM-DD`, or empty), description and
/// number of songs.
pub struct SetlistItem {
    /// Database id.
    pub id: i32,
    /// Date, or empty.
    pub data: String,
    /// Description, or empty.
    pub desc: String,
    /// Number of songs.
    pub song_count: i64,
}

/// Sum of the song counts of setlists.
pub open spec fn total_songs_spec(items: Seq<SetlistItem>) -> int
    decreases items.len(),
{
    if items.len() == 0 {
        0
    } else {
        total_songs_spec(items.drop_last()) + items.last().song_count
    }
}

/// The number of songs over all listed setlists.
pub fn total_songs(items: &Vec<SetlistItem>) -> (t: i64)
    requires
        totals_fit(items@),
    ensures
        t == total_songs_spec(items@),
{
    let mut t: i64 = 0;
    let mut i: usize = 0;
    assert(items@.take(0) =~= Seq::<SetlistItem>::empty());
    while i < items.len()
        invariant
            i <= items.len(),
            t == total_songs_spec(items@.take(i as int)),
            forall|k: int| 0 <= k <= items@.len() ==> i64::MIN <= #[trigger] total_songs_spec(
                items@.take(k),
            ) <= i64::MAX,
        decreases items.len() - i,
    {
        proof {
            let s = items@.take(i + 1);
            assert(s.drop_last() =~= items@.take(i as int));
            assert(s.last() == items@[i as int]);
            assert(i64::MIN <= total_songs_spec(items@.take(i + 1)) <= i64::MAX);
        }
        t = t + items[i].song_count;
        i += 1;
    }
    assert(items@.take(items.len() as int) =~= items@);
    t
}

/// Whether every running total of the song counts fits in an `i64`.
pub open spec fn totals_fit(items: Seq<SetlistItem>) -> bool {
    forall|k: int| 0 <= k <= items.len() ==> i64::MIN <= #[trigger] total_songs_spec(items.take(k))
        <= i64::MAX
}

/// The number of songs over all listed setlists, or `None` when a running
/// total leaves the range of `i64` (where summing would overflow).
pub fn checked_total_songs(items: &Vec<SetlistItem>) -> (r: Option<i64>)
    ensures
        match r {
            Some(t) => totals_fit(items@) && t == total_songs_spec(items@),
            None => !totals_fit(items@),
        },
{
    let mut t: i64 = 0;
    let mut i: usize = 0;
    assert(items@.take(0) =~= Seq::<SetlistItem>::empty());
    while i < items.len()
        invariant
            i <= items.len(),
            t == total_songs_spec(items@.take(i as int)),
            forall|k: int| 0 <= k <= i ==> i64::MIN <= #[trigger] total_songs_spec(items@.take(k))
                <= i64::MAX,
        decreases items.len() - i,
    {
        proof {
            let s = items@.take(i + 1);
            assert(s.drop_last() =~= items@.take(i as int));
            assert(s.last() == items@[i as int]);
        }
        match t.checked_add(items[i].song_count) {
            Some(x) => {
                t = x;
            },
            None => {
                assert(!(i64::MIN <= total_songs_spec(items@.take(i + 1)) <= i64::MAX));
                return None;
            },
        }
        i += 1;
    }
    assert(items@.take(items.len() as int) =~= items@);
    Some(t)
}

/// A setlist description is required: its trimmed text, or `None` when
/// blank.
pub fn setlist_description(desc: &str) -> (r: Option<String>)
    ensures
        match r {
            Some(d) => d@ == trim(desc@) && d@.len() > 0,
            None => trim(desc@).len() == 0,
        },
{
    let d = trim_string(desc);
    if d.as_str().unicode_len() == 0 {
        None
    } else {
        Some(d)
    }
}

/// The favourite state after a toggle: the opposite of before when the
/// database accepted the change, the old state otherwise.
pub fn favorite_after_toggle(was_favorite: bool, change_succeeded: bool) -> (r: bool)
    ensures
        r == toggle_spec(was_favorite, change_succeeded),
{
    if was_favorite {
        if change_succeeded {
            false
        } else {
            was_favorite
        }
    } else {
        if change_succeeded {
            true
        } else {
            was_favorite
        }
    }
}

/// The star button after a toggle.
pub open spec fn favorite_star_spec(song_id: i32, favorite: bool) -> Seq<char> {
    "<button hx-post=\"/htmx/songs/"@ + signed_decimal_spec(song_id as int) + (if favorite {
        "/favorite\" hx-swap=\"outerHTML\" class=\"px-2 text-yellow-400\">★</button>"@
    } else {
        "/favorite\" hx-swap=\"outerHTML\" class=\"px-2 text-gray-300\">☆</button>"@
    })
}

/// The star button for a song: lit for a favourite.
pub fn favorite_star_html(song_id: i32, favorite: bool) -> (s: String)
    ensures
        s@ == favorite_star_spec(song_id, favorite),
{
    let mut v: Vec<char> = Vec::new();
    append_str(&mut v, "<button hx-post=\"/htmx/songs/");
    push_signed_decimal(&mut v, song_id as i64);
    if favorite {
        append_str(&mut v, "/favorite\" hx-swap=\"outerHTML\" class=\"px-2 text-yellow-400\">★</button>");
    } else {
        append_str(&mut v, "/favorite\" hx-swap=\"outerHTML\" class=\"px-2 text-gray-300\">☆</button>");
    }
    assert(v@ =~= favorite_star_spec(song_id, favorite));
    string_from_chars(&v)
}

/// Toggling twice with both changes accepted restores the first state.
pub proof fn law_favorite_toggle_twice(was: bool)
    ensures
        toggle_spec(toggle_spec(was, true), true) == was,
        toggle_spec(was, false) == was,
{
}

/// The rule of `favorite_after_toggle`.
pub open spec fn toggle_spec(was: bool, ok: bool) -> bool {
    if ok {
        !was
    } else {
        was
    }
}

// ---------------------------------------------------------------------------
// Rows and messages
// ---------------------------------------------------------------------------

/// A setlist in a list, from its stored row (the date already as text).
pub fn setlist_item(id: i32, data: Option<String>, desc: Option<String>, song_count: i64) -> (s:
    SetlistItem)
    ensures
        s.id == id,
        s.data@ == crate::songs::or_empty(data),
        s.desc@ == crate::songs::or_empty(desc),
        s.song_count == song_count,
{
    SetlistItem {
        id,
        data: crate::songs::unwrap_or_empty(&data),
        desc: crate::songs::unwrap_or_empty(&desc),
        song_count,
    }
}

/// A song as listed in a setlist.
pub struct SongInSetlist {
    /// Song id.
    pub id: i32,
    /// Title, or empty.
    pub name: String,
    /// Title in the song's first language, or empty.
    pub org_name: String,
    /// Composer, or empty.
    pub composer: String,
    /// Artists, or empty.
    pub artistas: String,
    /// Video link, when not blank.
    pub youtube: Option<String>,
}

/// A song of a setlist, from its stored row.
pub fn song_in_setlist(
    id: i32,
    name: Option<String>,
    org_name: Option<String>,
    composer: Option<String>,
    artistas: Option<String>,
    youtube: Option<String>,
) -> (s: SongInSetlist)
    ensures
        s.id == id,
        s.name@ == crate::songs::or_empty(name),
        s.org_name@ == crate::songs::or_empty(org_name),
        s.composer@ == crate::songs::or_empty(composer),
        s.artistas@ == crate::songs::or_empty(artistas),
        opt_view(s.youtube) == crate::text::non_blank(youtube),
{
    SongInSetlist {
        id,
        name: crate::songs::unwrap_or_empty(&name),
        org_name: crate::songs::unwrap_or_empty(&org_name),
        composer: crate::songs::unwrap_or_empty(&composer),
        artistas: crate::songs::unwrap_or_empty(&artistas),
        youtube: crate::text::keep_non_blank(&youtube),
    }
}

/// A message of the setlist pages.
#[derive(Clone, Copy, PartialEq, Eq, Structural, Debug)]
pub enum SetlistNotice {
    /// The session has expired.
    SessionExpired,
    /// The setlist has no description.
    DescriptionRequired,
    /// The setlist was created.
    Created,
    /// The setlist could not be created.
    CreateFailed,
    /// The setlist was created with the song in it.
    CreatedWithSong,
    /// The song could not be added.
    AddFailed,
    /// The song was already in the setlist.
    AlreadyThere,
    /// The song was added.
    Added,
    /// The setlist is not the user's.
    NotFound,
    /// The share link could not be made.
    ShareFailed,
}

/// The HTML of a setlist message.
pub open spec fn setlist_notice_spec(n: SetlistNotice) -> Seq<char> {
    match n {
        SetlistNotice::SessionExpired => "<p class=\"text-red-400\">Sessão expirada.</p>"@,
        SetlistNotice::DescriptionRequired => "<p class=\"text-red-400\">A descrição é obrigatória.</p>"@,
        SetlistNotice::Created => "<p class=\"text-green-400\">Setlist criada.</p>"@,
        SetlistNotice::CreateFailed => "<p class=\"text-red-400\">Não foi possível criar a setlist.</p>"@,
        SetlistNotice::CreatedWithSong => "<p class=\"text-green-400\">Setlist criada e música adicionada.</p>"@,
        SetlistNotice::AddFailed => "<p class=\"text-red-400\">Não foi possível adicionar a música.</p>"@,
        SetlistNotice::AlreadyThere => "<p class=\"text-yellow-300\">A música já está nesta setlist.</p>"@,
        SetlistNotice::Added => "<p class=\"text-green-400\">Música adicionada à setlist.</p>"@,
        SetlistNotice::NotFound => "<p class=\"text-red-400\">Setlist não encontrada.</p>"@,
        SetlistNotice::ShareFailed => "<p class=\"text-red-400\">Não foi possível criar o link.</p>"@,
    }
}

impl SetlistNotice {
    /// The HTML of the message.
    pub fn html(self) -> (s: String)
        ensures
            s@ == setlist_notice_spec(self),
    {
        let text: &str = match self {
            SetlistNotice::SessionExpired => "<p class=\"text-red-400\">Sessão expirada.</p>",
            SetlistNotice::DescriptionRequired => "<p class=\"text-red-400\">A descrição é obrigatória.</p>",
            SetlistNotice::Created => "<p class=\"text-green-400\">Setlist criada.</p>",
            SetlistNotice::CreateFailed => "<p class=\"text-red-400\">Não foi possível criar a setlist.</p>",
            SetlistNotice::CreatedWithSong => "<p class=\"text-green-400\">Setlist criada e música adicionada.</p>",
            SetlistNotice::AddFailed => "<p class=\"text-red-400\">Não foi possível adicionar a música.</p>",
            SetlistNotice::AlreadyThere => "<p class=\"text-yellow-300\">A música já está nesta setlist.</p>",
            SetlistNotice::Added => "<p class=\"text-green-400\">Música adicionada à setlist.</p>",
            SetlistNotice::NotFound => "<p class=\"text-red-400\">Setlist não encontrada.</p>",
            SetlistNotice::ShareFailed => "<p class=\"text-red-400\">Não foi possível criar o link.</p>",
        };
        text.to_string()
    }
}

/// The message after adding a song: already there when no row was
/// inserted, added otherwise, a failure when the database failed.
pub fn add_song_notice(rows_affected: Option<u64>) -> (n: SetlistNotice)
    ensures
        n == (match rows_affected {
            Some(0) => SetlistNotice::AlreadyThere,
            Some(_) => SetlistNotice::Added,
            None => SetlistNotice::AddFailed,
        }),
{
    match rows_affected {
        Some(0) => SetlistNotice::AlreadyThere,
        Some(_) => SetlistNotice::Added,
        None => SetlistNotice::AddFailed,
    }
}

} // verus!
