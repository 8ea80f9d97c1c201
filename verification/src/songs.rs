//! Song cards: the list items shown in search results and library pages,
//! and the HTML of the results grid.

use vstd::prelude::*;
use crate::text::{
    append_escaped, append_str, chars_of, escape_html_spec, keep_non_blank, non_blank, opt_view,
    string_from_chars, trim, trim_bounds,
};
use crate::access::{SongStatus, status_spec, song_status, CardPermissions};
use crate::numbers::{push_decimal, push_signed_decimal, decimal_spec, signed_decimal_spec};

verus! {

/// One song as a card in a list.
pub struct SongListItem {
    /// Database id.
    pub id: i32,
    /// Catalogue code (e.g. `W0001`).
    pub code: String,
    /// Title.
    pub name: String,
    /// Title in the song's first language.
    pub org_name: String,
    /// Composer.
    pub composer: String,
    /// Performing artists.
    pub artistas: String,
    /// Key the song was written in.
    pub org_key: String,
    /// YouTube link or ID, when one is recorded.
    pub youtube: Option<String>,
    /// Whether the viewer marked it as a favourite.
    pub favorite: bool,
    /// Number of views.
    pub view_count: i64,
    /// Name of the user who added the song (empty when unknown).
    pub inserted_by: String,
    /// Name of the user who last corrected it (empty when unknown).
    pub updated_by: String,
    /// Awaiting approval.
    pub is_pending: bool,
    /// The viewer may edit it.
    pub can_edit: bool,
    /// The viewer may delete it.
    pub can_delete: bool,
    /// The viewer may approve it.
    pub can_approve: bool,
}

/// The results grid: a heading and the cards.
pub struct SongsListTemplate {
    /// Heading above the cards.
    pub heading: String,
    /// The cards, in order.
    pub songs: Vec<SongListItem>,
}

/// Why rendering failed; rendering these pages does not fail.
#[derive(Debug, Clone, Copy, PartialEq, Eq, Structural)]
pub enum RenderError {
    /// Never produced.
    Unreachable,
}

// ---------------------------------------------------------------------------
// HTML of a card
// ---------------------------------------------------------------------------

/// The "added by / corrected by" line: the adder when known, and the
/// corrector only when known and different from the adder.
pub open spec fn attribution_spec(inserted: Seq<char>, updated: Seq<char>) -> Seq<char> {
    (if inserted.len() > 0 {
        "<span class=\"text-xs text-gray-400\">Inserido por "@ + escape_html_spec(inserted)
            + "</span>"@
    } else {
        Seq::<char>::empty()
    }) + (if updated.len() > 0 && updated != inserted {
        "<span class=\"text-xs text-gray-400 ml-2\">Corrigido por "@ + escape_html_spec(updated)
            + "</span>"@
    } else {
        Seq::<char>::empty()
    })
}

/// The metadata line with the song's key, omitted when there is none.
pub open spec fn meta_spec(org_key: Seq<char>) -> Seq<char> {
    if org_key.len() > 0 {
        "<div class=\"text-sm font-semibold text-red-400\">Tom: "@ + escape_html_spec(org_key)
            + "</div>"@
    } else {
        Seq::<char>::empty()
    }
}

/// The link to version `k` (from 1) of the video: the first is "YouTube",
/// the others "Versão k".
pub open spec fn video_link_spec(line: Seq<char>, k: nat) -> Seq<char> {
    "<a class=\"px-2 text-red-500\" target=\"_blank\" href=\"https://www.youtube.com/watch?v="@
        + escape_html_spec(line) + "\">"@ + (if k == 1 {
        "YouTube"@
    } else {
        "Versão "@ + decimal_spec(k)
    }) + "</a>"@
}

/// One link per stored line, in order.
pub open spec fn video_links_spec(ls: Seq<Seq<char>>) -> Seq<char>
    decreases ls.len(),
{
    if ls.len() == 0 {
        seq![]
    } else {
        video_links_spec(ls.drop_last()) + video_link_spec(ls.last(), ls.len())
    }
}

/// The links to the recorded YouTube videos, one per line of the field
/// (the original version first, then the alternatives), when there is one.
pub open spec fn youtube_link_spec(y: Option<String>) -> Seq<char> {
    match y {
        Some(y) => video_links_spec(crate::text::lines_spec(y@)),
        None => Seq::<char>::empty(),
    }
}

/// Appends the links to the versions of the video.
fn push_video_links(out: &mut Vec<char>, y: &str)
    ensures
        final(out)@ == old(out)@ + video_links_spec(crate::text::lines_spec(y@)),
{
    let lines = crate::text::split_lines(y);
    let ghost o = out@;
    let ghost ls = crate::text::lines_view(lines@);
    let mut i: usize = 0;
    while i < lines.len()
        invariant
            i <= lines.len(),
            ls == crate::text::lines_view(lines@),
            out@ == o + video_links_spec(ls.take(i as int)),
        decreases lines.len() - i,
    {
        append_str(
            out,
            "<a class=\"px-2 text-red-500\" target=\"_blank\" href=\"https://www.youtube.com/watch?v=",
        );
        append_escaped(out, lines[i].as_str());
        append_str(out, "\">");
        if i == 0 {
            append_str(out, "YouTube");
        } else {
            append_str(out, "Versão ");
            push_decimal(out, (i + 1) as u64);
        }
        append_str(out, "</a>");
        proof {
            let t = ls.take(i + 1);
            assert(t.drop_last() =~= ls.take(i as int));
            assert(t.last() == lines@[i as int]@);
            assert(out@ =~= o + video_links_spec(t));
        }
        i += 1;
    }
    assert(ls.take(lines.len() as int) =~= ls);
}

/// The favourite star, lit when the song is a favourite.
pub open spec fn favorite_button_spec(id: i32, favorite: bool) -> Seq<char> {
    "<button hx-post=\"/htmx/songs/"@ + signed_decimal_spec(id as int) + (if favorite {
        "/favorite\" hx-swap=\"outerHTML\" class=\"px-2 text-yellow-400\">★</button>"@
    } else {
        "/favorite\" hx-swap=\"outerHTML\" class=\"px-2 text-gray-300\">☆</button>"@
    })
}

/// The edit button, when allowed.
pub open spec fn edit_button_spec(id: i32, shown: bool) -> Seq<char> {
    if shown {
        "<button hx-get=\"/htmx/songs/"@ + signed_decimal_spec(id as int)
            + "/edit\" hx-target=\"#song-panel\" class=\"px-2\">Editar</button>"@
    } else {
        Seq::<char>::empty()
    }
}

/// The delete button, when allowed.
pub open spec fn delete_button_spec(id: i32, shown: bool) -> Seq<char> {
    if shown {
        "<button hx-delete=\"/htmx/songs/"@ + signed_decimal_spec(id as int)
            + "/delete\" hx-confirm=\"Apagar esta música?\" class=\"px-2 text-red-400\">Apagar</button>"@
    } else {
        Seq::<char>::empty()
    }
}

/// The approve button, for a pending song and a viewer who may approve.
pub open spec fn approve_button_spec(id: i32, shown: bool) -> Seq<char> {
    if shown {
        "<button hx-post=\"/htmx/songs/"@ + signed_decimal_spec(id as int)
            + "/approve\" class=\"px-2 text-green-400\">Aprovar</button>"@
    } else {
        Seq::<char>::empty()
    }
}

/// The buttons of a card.
pub open spec fn actions_spec(s: SongListItem) -> Seq<char> {
    youtube_link_spec(s.youtube) + favorite_button_spec(s.id, s.favorite) + edit_button_spec(
        s.id,
        s.can_edit,
    ) + delete_button_spec(s.id, s.can_delete) + approve_button_spec(
        s.id,
        s.can_approve && s.is_pending,
    )
}

/// The clickable title part of a card.
pub open spec fn card_title_spec(s: SongListItem) -> Seq<char> {
    "<div hx-get=\"/htmx/songs/"@ + signed_decimal_spec(s.id as int)
        + "\" hx-target=\"#song-panel\" class=\"cursor-pointer\"><span class=\"text-xs text-gray-400\">"@
        + escape_html_spec(s.code@) + "</span> <span class=\"font-semibold text-white\">"@
        + escape_html_spec(s.name@) + "</span>"@ + (if s.is_pending {
        " <span class=\"badge-pending text-xs text-yellow-300\">Pendente</span>"@
    } else {
        Seq::<char>::empty()
    }) + "</div>"@
}

/// The opening of a card.
pub open spec fn card_open_spec(id: i32) -> Seq<char> {
    "<div class=\"song-card rounded-lg bg-gray-800/60 p-3\" id=\"song-"@ + signed_decimal_spec(
        id as int,
    ) + "\">"@
}

/// The artists line.
pub open spec fn artists_spec(artistas: Seq<char>) -> Seq<char> {
    "<div class=\"text-sm text-gray-300\">"@ + escape_html_spec(artistas) + "</div>"@
}

/// The attribution block.
pub open spec fn attribution_block_spec(s: SongListItem) -> Seq<char> {
    "<div class=\"attribution\">"@ + attribution_spec(s.inserted_by@, s.updated_by@) + "</div>"@
}

/// The buttons block.
pub open spec fn actions_block_spec(s: SongListItem) -> Seq<char> {
    "<div class=\"actions flex\">"@ + actions_spec(s) + "</div>"@
}

/// The HTML of one card.
pub open spec fn card_spec(s: SongListItem) -> Seq<char> {
    card_open_spec(s.id) + card_title_spec(s) + artists_spec(s.artistas@) + meta_spec(s.org_key@)
        + attribution_block_spec(s) + actions_block_spec(s) + "</div>"@
}

/// The cards of `songs`, in order.
pub open spec fn cards_spec(songs: Seq<SongListItem>) -> Seq<char>
    decreases songs.len(),
{
    if songs.len() == 0 {
        Seq::<char>::empty()
    } else {
        cards_spec(songs.drop_last()) + card_spec(songs.last())
    }
}

/// The HTML of the results grid.
pub open spec fn songs_list_spec(heading: Seq<char>, songs: Seq<SongListItem>) -> Seq<char> {
    "<section class=\"songs-list\"><h2 class=\"text-lg font-bold text-white mb-3\">"@
        + escape_html_spec(heading) + "</h2>"@ + (if songs.len() == 0 {
        "<p class=\"text-gray-400\">Nenhuma música encontrada.</p>"@
    } else {
        "<div class=\"grid gap-3\">"@ + cards_spec(songs) + "</div>"@
    }) + "</section>"@
}

/// Appends the attribution line.
fn push_attribution(out: &mut Vec<char>, inserted: &String, updated: &String)
    ensures
        final(out)@ == old(out)@ + attribution_spec(inserted@, updated@),
{
    let ins = chars_of(inserted.as_str());
    let upd = chars_of(updated.as_str());
    if ins.len() > 0 {
        append_str(out, "<span class=\"text-xs text-gray-400\">Inserido por ");
        append_escaped(out, inserted.as_str());
        append_str(out, "</span>");
    }
    let ghost mid = out@;
    if upd.len() > 0 && !crate::text::chars_eq(&upd, &ins) {
        append_str(out, "<span class=\"text-xs text-gray-400 ml-2\">Corrigido por ");
        append_escaped(out, updated.as_str());
        append_str(out, "</span>");
    }
    assert(out@ =~= old(out)@ + attribution_spec(inserted@, updated@));
}

/// Appends the metadata line.
fn push_meta(out: &mut Vec<char>, org_key: &String)
    ensures
        final(out)@ == old(out)@ + meta_spec(org_key@),
{
    let k = chars_of(org_key.as_str());
    if k.len() > 0 {
        append_str(out, "<div class=\"text-sm font-semibold text-red-400\">Tom: ");
        append_escaped(out, org_key.as_str());
        append_str(out, "</div>");
    }
    assert(out@ =~= old(out)@ + meta_spec(org_key@));
}

/// Appends `piece(id)`: a literal, the id, and one of two literals.
fn push_id_button(out: &mut Vec<char>, head: &str, id: i32, tail: &str)
    ensures
        final(out)@ == old(out)@ + (head@ + signed_decimal_spec(id as int) + tail@),
{
    append_str(out, head);
    push_signed_decimal(out, id as i64);
    append_str(out, tail);
    assert(out@ =~= old(out)@ + (head@ + signed_decimal_spec(id as int) + tail@));
}

/// Appends the buttons of a card.
fn push_actions(out: &mut Vec<char>, s: &SongListItem)
    ensures
        final(out)@ == old(out)@ + actions_spec(*s),
{
    let ghost o0 = out@;
    match &s.youtube {
        Some(y) => {
            push_video_links(out, y.as_str());
        },
        None => {},
    }
    assert(out@ =~= o0 + youtube_link_spec(s.youtube));
    let ghost o1 = out@;
    if s.favorite {
        push_id_button(out, "<button hx-post=\"/htmx/songs/", s.id, "/favorite\" hx-swap=\"outerHTML\" class=\"px-2 text-yellow-400\">★</button>");
    } else {
        push_id_button(out, "<button hx-post=\"/htmx/songs/", s.id, "/favorite\" hx-swap=\"outerHTML\" class=\"px-2 text-gray-300\">☆</button>");
    }
    assert(out@ =~= o1 + favorite_button_spec(s.id, s.favorite));
    let ghost o2 = out@;
    if s.can_edit {
        push_id_button(out, "<button hx-get=\"/htmx/songs/", s.id, "/edit\" hx-target=\"#song-panel\" class=\"px-2\">Editar</button>");
    }
    assert(out@ =~= o2 + edit_button_spec(s.id, s.can_edit));
    let ghost o3 = out@;
    if s.can_delete {
        push_id_button(out, "<button hx-delete=\"/htmx/songs/", s.id, "/delete\" hx-confirm=\"Apagar esta música?\" class=\"px-2 text-red-400\">Apagar</button>");
    }
    assert(out@ =~= o3 + delete_button_spec(s.id, s.can_delete));
    let ghost o4 = out@;
    if s.can_approve && s.is_pending {
        push_id_button(out, "<button hx-post=\"/htmx/songs/", s.id, "/approve\" class=\"px-2 text-green-400\">Aprovar</button>");
    }
    assert(out@ =~= o4 + approve_button_spec(s.id, s.can_approve && s.is_pending));
    proof {
        lemma_concat5(
            o0,
            youtube_link_spec(s.youtube),
            favorite_button_spec(s.id, s.favorite),
            edit_button_spec(s.id, s.can_edit),
            delete_button_spec(s.id, s.can_delete),
            approve_button_spec(s.id, s.can_approve && s.is_pending),
        );
    }
}

/// Appends the clickable title part of a card.
fn push_card_title(out: &mut Vec<char>, s: &SongListItem)
    ensures
        final(out)@ == old(out)@ + card_title_spec(*s),
{
    append_str(out, "<div hx-get=\"/htmx/songs/");
    push_signed_decimal(out, s.id as i64);
    append_str(
        out,
        "\" hx-target=\"#song-panel\" class=\"cursor-pointer\"><span class=\"text-xs text-gray-400\">",
    );
    append_escaped(out, s.code.as_str());
    append_str(out, "</span> <span class=\"font-semibold text-white\">");
    append_escaped(out, s.name.as_str());
    append_str(out, "</span>");
    let ghost m = out@;
    if s.is_pending {
        append_str(out, " <span class=\"badge-pending text-xs text-yellow-300\">Pendente</span>");
    }
    append_str(out, "</div>");
    assert(out@ =~= old(out)@ + card_title_spec(*s));
}

/// Appends the HTML of one card.
fn push_card(out: &mut Vec<char>, s: &SongListItem)
    ensures
        final(out)@ == old(out)@ + card_spec(*s),
{
    let ghost o0 = out@;
    push_id_button(out, "<div class=\"song-card rounded-lg bg-gray-800/60 p-3\" id=\"song-", s.id, "\">");
    assert(out@ == o0 + card_open_spec(s.id));
    let ghost o1 = out@;
    push_card_title(out, s);
    let ghost o2 = out@;
    append_str(out, "<div class=\"text-sm text-gray-300\">");
    append_escaped(out, s.artistas.as_str());
    append_str(out, "</div>");
    assert(out@ =~= o2 + artists_spec(s.artistas@));
    let ghost o3 = out@;
    push_meta(out, &s.org_key);
    let ghost o4 = out@;
    append_str(out, "<div class=\"attribution\">");
    push_attribution(out, &s.inserted_by, &s.updated_by);
    append_str(out, "</div>");
    assert(out@ =~= o4 + attribution_block_spec(*s));
    let ghost o5 = out@;
    append_str(out, "<div class=\"actions flex\">");
    push_actions(out, s);
    append_str(out, "</div>");
    assert(out@ =~= o5 + actions_block_spec(*s));
    append_str(out, "</div>");
    proof {
        lemma_concat7(
            o0,
            card_open_spec(s.id),
            card_title_spec(*s),
            artists_spec(s.artistas@),
            meta_spec(s.org_key@),
            attribution_block_spec(*s),
            actions_block_spec(*s),
            "</div>"@,
        );
    }
}

impl SongsListTemplate {
    /// Renders the results grid.
    pub fn render(&self) -> (r: Result<String, RenderError>)
        ensures
            r matches Ok(html) && html@ == songs_list_spec(self.heading@, self.songs@),
    {
        let mut out: Vec<char> = Vec::new();
        append_str(&mut out, "<section class=\"songs-list\"><h2 class=\"text-lg font-bold text-white mb-3\">");
        append_escaped(&mut out, self.heading.as_str());
        append_str(&mut out, "</h2>");
        let ghost pre = out@;
        if self.songs.len() == 0 {
            append_str(&mut out, "<p class=\"text-gray-400\">Nenhuma música encontrada.</p>");
        } else {
            append_str(&mut out, "<div class=\"grid gap-3\">");
            let ghost base = out@;
            let mut i: usize = 0;
            while i < self.songs.len()
                invariant
                    i <= self.songs.len(),
                    out@ == base + cards_spec(self.songs@.take(i as int)),
                decreases self.songs.len() - i,
            {
                push_card(&mut out, &self.songs[i]);
                proof {
                    let t = self.songs@.take(i + 1);
                    assert(t.drop_last() =~= self.songs@.take(i as int));
                    assert(t.last() == self.songs@[i as int]);
                    assert(out@ =~= base + cards_spec(t));
                }
                i += 1;
            }
            assert(self.songs@.take(self.songs.len() as int) =~= self.songs@);
            append_str(&mut out, "</div>");
        }
        append_str(&mut out, "</section>");
        assert(out@ =~= songs_list_spec(self.heading@, self.songs@));
        Ok(string_from_chars(&out))
    }
}

// ---------------------------------------------------------------------------
// From stored songs to cards
// ---------------------------------------------------------------------------

/// A stored song, as the lists read it.
pub struct Song {
    /// Database id.
    pub id: i32,
    /// Catalogue code.
    pub code: Option<String>,
    /// Title.
    pub name: Option<String>,
    /// Title in the song's first language.
    pub org_name: Option<String>,
    /// Composer.
    pub composer: Option<String>,
    /// Chords in ChordPro.
    pub chord_pro: String,
    /// Lyrics.
    pub lyrics: Option<String>,
    /// Themes.
    pub themes: Option<String>,
    /// YouTube links, one per line.
    pub youtube: Option<String>,
    /// Genre type id.
    pub genre_type: Option<i32>,
    /// Performing artists.
    pub artistas: Option<String>,
    /// Key the song was written in.
    pub org_key: Option<String>,
    /// Tempo the song was written in.
    pub org_tempo: Option<i32>,
    /// Copyright notice.
    pub copyright: Option<String>,
    /// Who added it.
    pub id_insert_user: Option<i32>,
    /// Who last corrected it.
    pub id_update_user: Option<i32>,
    /// Number of views.
    pub view_count: Option<i32>,
    /// Review status text.
    pub status: Option<String>,
}

/// The characters of an optional string, or nothing.
pub open spec fn or_empty(o: Option<String>) -> Seq<char> {
    match o {
        Some(s) => s@,
        None => Seq::<char>::empty(),
    }
}

/// `"(sem título)"`, the title of a song without one.
pub open spec fn untitled() -> Seq<char> {
    "(sem título)"@
}

/// A copy of an optional string, or an empty string.
pub fn unwrap_or_empty(o: &Option<String>) -> (s: String)
    ensures
        s@ == or_empty(*o),
{
    match o {
        Some(s) => s.clone(),
        None => String::new(),
    }
}

/// The card for a stored song, given whether the viewer marked it as a
/// favourite, what the viewer may do with it, and the names of who added
/// and corrected it.
pub fn list_item(
    song: &Song,
    favorite: bool,
    perms: CardPermissions,
    inserted_by: String,
    updated_by: String,
) -> (item: SongListItem)
    ensures
        item.id == song.id,
        item.code@ == or_empty(song.code),
        item.name@ == (match song.name {
            Some(n) => n@,
            None => untitled(),
        }),
        item.org_name@ == or_empty(song.org_name),
        item.composer@ == or_empty(song.composer),
        item.artistas@ == or_empty(song.artistas),
        item.org_key@ == or_empty(song.org_key),
        opt_view(item.youtube) == non_blank(song.youtube),
        item.favorite == favorite,
        item.view_count == (match song.view_count {
            Some(v) => v as i64,
            None => 0i64,
        }),
        item.inserted_by@ == inserted_by@,
        item.updated_by@ == updated_by@,
        item.is_pending == (status_spec(opt_view(song.status)) == SongStatus::Pending),
        item.can_edit == perms.can_edit,
        item.can_delete == perms.can_delete,
        item.can_approve == perms.can_approve,
{
    let name = match &song.name {
        Some(n) => n.clone(),
        None => {
            let v: Vec<char> = chars_of("(sem título)");
            string_from_chars(&v)
        },
    };
    let status = match &song.status {
        Some(st) => song_status(Some(st.as_str())),
        None => song_status(None),
    };
    SongListItem {
        id: song.id,
        code: unwrap_or_empty(&song.code),
        name,
        org_name: unwrap_or_empty(&song.org_name),
        composer: unwrap_or_empty(&song.composer),
        artistas: unwrap_or_empty(&song.artistas),
        org_key: unwrap_or_empty(&song.org_key),
        youtube: keep_non_blank(&song.youtube),
        favorite,
        view_count: match song.view_count {
            Some(v) => v as i64,
            None => 0,
        },
        inserted_by,
        updated_by,
        is_pending: status == SongStatus::Pending,
        can_edit: perms.can_edit,
        can_delete: perms.can_delete,
        can_approve: perms.can_approve,
    }
}

/// Whether a card of `s` shows the name of user `u`: as its adder or as its
/// corrector.
pub open spec fn names_user(s: Song, u: i32) -> bool {
    s.id_insert_user == Some(u) || s.id_update_user == Some(u)
}

/// Strictly increasing.
pub open spec fn strictly_sorted(v: Seq<i32>) -> bool {
    forall|i: int, j: int| 0 <= i < j < v.len() ==> v[i] < v[j]
}

/// Inserts `x` into a strictly increasing vector, unless it is already there.
fn insert_sorted(v: &mut Vec<i32>, x: i32)
    requires
        strictly_sorted(old(v)@),
    ensures
        strictly_sorted(final(v)@),
        final(v)@.to_set() == old(v)@.to_set().insert(x),
{
    let mut i: usize = 0;
    while i < v.len() && v[i] < x
        invariant
            i <= v.len(),
            v@ == old(v)@,
            strictly_sorted(v@),
            forall|j: int| 0 <= j < i ==> v@[j] < x,
        decreases v.len() - i,
    {
        i += 1;
    }
    if i < v.len() && v[i] == x {
        assert(v@.to_set() =~= old(v)@.to_set().insert(x));
        return;
    }
    let ghost before = v@;
    v.insert(i, x);
    proof {
        assert forall|a: int, b: int| 0 <= a < b < v@.len() implies v@[a] < v@[b] by {
            if b < i {
            } else if a < i && b == i {
            } else if a < i && b > i {
                assert(v@[b] == before[b - 1]);
            } else if a == i {
                assert(v@[b] == before[b - 1]);
                assert(before[i as int] >= x);
                if b - 1 > i {
                    assert(before[i as int] < before[b - 1]);
                }
            } else {
                assert(v@[a] == before[a - 1]);
                assert(v@[b] == before[b - 1]);
            }
        }
        assert forall|y: i32| v@.to_set().contains(y) <==> before.to_set().insert(x).contains(y) by {
            if v@.to_set().contains(y) {
                let k = choose|k: int| 0 <= k < v@.len() && v@[k] == y;
                if k < i {
                    assert(before[k] == y);
                } else if k > i {
                    assert(before[k - 1] == y);
                }
            }
            if before.to_set().contains(y) {
                let k = choose|k: int| 0 <= k < before.len() && before[k] == y;
                if k < i {
                    assert(v@[k] == y);
                } else {
                    assert(v@[k + 1] == y);
                }
            }
            if y == x {
                assert(v@[i as int] == x);
            }
        }
        assert(v@.to_set() =~= old(v)@.to_set().insert(x));
    }
}

/// Inserts an optional user into a strictly increasing vector.
fn insert_sorted_opt(v: &mut Vec<i32>, x: Option<i32>)
    requires
        strictly_sorted(old(v)@),
    ensures
        strictly_sorted(final(v)@),
        final(v)@.to_set() == match x {
            Some(u) => old(v)@.to_set().insert(u),
            None => old(v)@.to_set(),
        },
{
    if let Some(u) = x {
        insert_sorted(v, u);
    }
}

/// The users whose names the cards of `songs` need, sorted and without
/// repeats: the adders, and the correctors too, so that a card whose
/// corrector is someone else than its adder can show "Corrigido por".
pub fn attribution_user_ids(songs: &Vec<Song>) -> (ids: Vec<i32>)
    ensures
        strictly_sorted(ids@),
        forall|u: i32| ids@.contains(u) <==> exists|k: int| 0 <= k < songs@.len() && names_user(#[trigger] songs@[k], u),
{
    let mut ids: Vec<i32> = Vec::new();
    let mut k: usize = 0;
    while k < songs.len()
        invariant
            k <= songs.len(),
            strictly_sorted(ids@),
            forall|u: i32| ids@.to_set().contains(u) <==> exists|j: int| 0 <= j < k && names_user(#[trigger] songs@[j], u),
        decreases songs.len() - k,
    {
        let ghost prev = ids@;
        insert_sorted_opt(&mut ids, songs[k].id_insert_user);
        insert_sorted_opt(&mut ids, songs[k].id_update_user);
        assert forall|x: i32| ids@.to_set().contains(x) <==> exists|j: int| 0 <= j < k + 1 && names_user(#[trigger] songs@[j], x) by {
            if ids@.to_set().contains(x) {
                if names_user(songs@[k as int], x) {
                } else {
                    assert(prev.to_set().contains(x));
                }
            }
            if exists|j: int| 0 <= j < k + 1 && names_user(#[trigger] songs@[j], x) {
                let j = choose|j: int| 0 <= j < k + 1 && names_user(#[trigger] songs@[j], x);
                if j < k {
                    assert(prev.to_set().contains(x));
                }
            }
        }
        k += 1;
    }
    assert forall|u: i32| ids@.contains(u) <==> ids@.to_set().contains(u) by {}
    ids
}

/// The name recorded for `id` among `names` (the last row for it wins, as
/// when rows are inserted into a map); empty when unknown or not given.
pub open spec fn name_of(names: Seq<(i32, Option<String>)>, id: Option<i32>) -> Seq<char>
    decreases names.len(),
{
    if names.len() == 0 || id is None {
        Seq::<char>::empty()
    } else if Some(names.last().0) == id {
        or_empty(names.last().1)
    } else {
        name_of(names.drop_last(), id)
    }
}

/// Looks up the display name of a user among fetched `(id, name)` rows.
pub fn lookup_name(names: &Vec<(i32, Option<String>)>, id: Option<i32>) -> (s: String)
    ensures
        s@ == name_of(names@, id),
{
    let mut k = names.len();
    assert(names@.take(k as int) =~= names@);
    while k > 0
        invariant
            k <= names.len(),
            name_of(names@, id) == name_of(names@.take(k as int), id),
        decreases k,
    {
        let t = Ghost(names@.take(k as int));
        assert(t@.last() == names@[k - 1]);
        assert(t@.drop_last() =~= names@.take(k - 1));
        if id.is_some() && Some(names[k - 1].0) == id {
            return unwrap_or_empty(&names[k - 1].1);
        }
        if id.is_none() {
            return String::new();
        }
        k -= 1;
    }
    String::new()
}

/// How a song appears in its edit form.
pub struct SongEditView {
    /// Database id.
    pub id: i32,
    /// Catalogue code.
    pub code: String,
    /// Heading of the form.
    pub title: String,
    /// Title.
    pub name: String,
    /// Title in the song's first language.
    pub org_name: String,
    /// Composer.
    pub composer: String,
    /// Chords, with literal newline escapes turned into line breaks.
    pub chord_pro: String,
    /// Lyrics, with literal newline escapes turned into line breaks.
    pub lyrics: String,
    /// Themes.
    pub themes: String,
    /// YouTube links.
    pub youtube: String,
    /// Performing artists.
    pub artistas: String,
    /// Key the song was written in.
    pub org_key: String,
    /// Tempo the song was written in, as text (empty when unknown).
    pub org_tempo: String,
    /// Copyright notice.
    pub copyright: String,
}

/// The edit form of a song.
pub fn edit_view(song: &Song) -> (v: SongEditView)
    ensures
        v.id == song.id,
        v.code@ == or_empty(song.code),
        v.title@ == (match song.name {
            Some(n) => n@,
            None => match song.org_name {
                Some(o) => o@,
                None => "Sem título"@,
            },
        }),
        v.name@ == or_empty(song.name),
        v.org_name@ == or_empty(song.org_name),
        v.composer@ == or_empty(song.composer),
        v.chord_pro@ == crate::text::normalize_newlines_spec(song.chord_pro@),
        v.lyrics@ == crate::text::normalize_newlines_spec(or_empty(song.lyrics)),
        v.themes@ == or_empty(song.themes),
        v.youtube@ == or_empty(song.youtube),
        v.artistas@ == or_empty(song.artistas),
        v.org_key@ == or_empty(song.org_key),
        v.org_tempo@ == (match song.org_tempo {
            Some(t) => signed_decimal_spec(t as int),
            None => Seq::<char>::empty(),
        }),
        v.copyright@ == or_empty(song.copyright),
{
    let title = match &song.name {
        Some(n) => n.clone(),
        None => match &song.org_name {
            Some(o) => o.clone(),
            None => {
                let v: Vec<char> = chars_of("Sem título");
                string_from_chars(&v)
            },
        },
    };
    SongEditView {
        id: song.id,
        code: unwrap_or_empty(&song.code),
        title,
        name: unwrap_or_empty(&song.name),
        org_name: unwrap_or_empty(&song.org_name),
        composer: unwrap_or_empty(&song.composer),
        chord_pro: crate::text::normalize_newlines(song.chord_pro.clone()),
        lyrics: crate::text::normalize_newlines(unwrap_or_empty(&song.lyrics)),
        themes: unwrap_or_empty(&song.themes),
        youtube: unwrap_or_empty(&song.youtube),
        artistas: unwrap_or_empty(&song.artistas),
        org_key: unwrap_or_empty(&song.org_key),
        org_tempo: match song.org_tempo {
            Some(t) => crate::numbers::format_i64(t as i64),
            None => String::new(),
        },
        copyright: unwrap_or_empty(&song.copyright),
    }
}

/// A card names who added the song: the text "Inserido por " followed by
/// the (escaped) name appears in it whenever the name is known.
pub proof fn law_card_shows_inserter(s: SongListItem)
    requires
        s.inserted_by@.len() > 0,
    ensures
        contains(card_spec(s), "Inserido por "@ + escape_html_spec(s.inserted_by@)),
{
    let a = "<span class=\"text-xs text-gray-400\">Inserido por "@;
    let piece = "Inserido por "@ + escape_html_spec(s.inserted_by@);
    let att = attribution_spec(s.inserted_by@, s.updated_by@);
    let c = card_spec(s);
    reveal_strlit("<span class=\"text-xs text-gray-400\">Inserido por ");
    reveal_strlit("Inserido por ");
    assert(a.subrange(a.len() - 13, a.len() as int) =~= "Inserido por "@);
    lemma_contains_suffix_of_prefix(a, "Inserido por "@, escape_html_spec(s.inserted_by@));
    lemma_contains_in_middle(a + escape_html_spec(s.inserted_by@), piece, "</span>"@);
    let rest = if s.updated_by@.len() > 0 && s.updated_by@ != s.inserted_by@ {
        "<span class=\"text-xs text-gray-400 ml-2\">Corrigido por "@ + escape_html_spec(
            s.updated_by@,
        ) + "</span>"@
    } else {
        Seq::<char>::empty()
    };
    assert(att == a + escape_html_spec(s.inserted_by@) + "</span>"@ + rest);
    lemma_contains_in_middle(a + escape_html_spec(s.inserted_by@) + "</span>"@, piece, rest);
    let before = card_open_spec(s.id) + card_title_spec(s) + artists_spec(s.artistas@) + meta_spec(
        s.org_key@,
    ) + "<div class=\"attribution\">"@;
    let after = "</div>"@ + actions_block_spec(s) + "</div>"@;
    assert(c =~= before + att + after);
    lemma_contains_around(before, att, after, piece);
}

/// When the corrector is the adder, the card shows only the adder: the
/// attribution line is the "added by" part alone.
pub proof fn law_card_hides_same_corrector(s: SongListItem)
    requires
        s.updated_by@ == s.inserted_by@,
    ensures
        attribution_spec(s.inserted_by@, s.updated_by@) == (if s.inserted_by@.len() > 0 {
            "<span class=\"text-xs text-gray-400\">Inserido por "@ + escape_html_spec(s.inserted_by@)
                + "</span>"@
        } else {
            Seq::<char>::empty()
        }),
{
    assert(attribution_spec(s.inserted_by@, s.updated_by@) =~= (if s.inserted_by@.len() > 0 {
        "<span class=\"text-xs text-gray-400\">Inserido por "@ + escape_html_spec(s.inserted_by@)
            + "</span>"@
    } else {
        Seq::<char>::empty()
    }));
}

/// The corrector is named exactly when known and different from the adder.
pub proof fn law_card_names_other_corrector(s: SongListItem)
    requires
        s.updated_by@.len() > 0,
        s.updated_by@ != s.inserted_by@,
    ensures
        contains(
            attribution_spec(s.inserted_by@, s.updated_by@),
            "Corrigido por "@ + escape_html_spec(s.updated_by@),
        ),
{
    let a = "<span class=\"text-xs text-gray-400 ml-2\">Corrigido por "@;
    let piece = "Corrigido por "@ + escape_html_spec(s.updated_by@);
    let first = if s.inserted_by@.len() > 0 {
        "<span class=\"text-xs text-gray-400\">Inserido por "@ + escape_html_spec(s.inserted_by@)
            + "</span>"@
    } else {
        Seq::<char>::empty()
    };
    reveal_strlit("<span class=\"text-xs text-gray-400 ml-2\">Corrigido por ");
    reveal_strlit("Corrigido por ");
    assert(a.subrange(a.len() - 14, a.len() as int) =~= "Corrigido por "@);
    lemma_contains_suffix_of_prefix(a, "Corrigido por "@, escape_html_spec(s.updated_by@));
    lemma_contains_around(first, a + escape_html_spec(s.updated_by@), "</span>"@, piece);
    assert(attribution_spec(s.inserted_by@, s.updated_by@) =~= first + (a + escape_html_spec(
        s.updated_by@,
    )) + "</span>"@);
}

/// Appending five pieces one by one appends their concatenation.
pub proof fn lemma_concat5<A>(o: Seq<A>, a: Seq<A>, b: Seq<A>, c: Seq<A>, d: Seq<A>, e: Seq<A>)
    ensures
        o + a + b + c + d + e == o + (a + b + c + d + e),
{
    assert(o + a + b + c + d + e =~= o + (a + b + c + d + e));
}

/// Appending seven pieces one by one appends their concatenation.
pub proof fn lemma_concat7<A>(
    o: Seq<A>,
    a: Seq<A>,
    b: Seq<A>,
    c: Seq<A>,
    d: Seq<A>,
    e: Seq<A>,
    f: Seq<A>,
    g: Seq<A>,
)
    ensures
        o + a + b + c + d + e + f + g == o + (a + b + c + d + e + f + g),
{
    assert(o + a + b + c + d + e + f + g =~= o + (a + b + c + d + e + f + g));
}

/// Whether `piece` occurs in `s`.
pub open spec fn contains(s: Seq<char>, piece: Seq<char>) -> bool {
    exists|i: int| 0 <= i <= s.len() - piece.len() && #[trigger] s.subrange(i, i + piece.len()) == piece
}

/// A piece of the middle part occurs in the whole.
pub proof fn lemma_contains_around(a: Seq<char>, b: Seq<char>, c: Seq<char>, piece: Seq<char>)
    requires
        contains(b, piece),
    ensures
        contains(a + b + c, piece),
{
    let i = choose|i: int| 0 <= i <= b.len() - piece.len() && #[trigger] b.subrange(i, i + piece.len()) == piece;
    let w = a + b + c;
    assert(w.subrange(a.len() + i, a.len() + i + piece.len()) =~= b.subrange(i, i + piece.len()));
}

/// A piece of the first part occurs in the whole.
pub proof fn lemma_contains_in_middle(b: Seq<char>, piece: Seq<char>, c: Seq<char>)
    requires
        contains(b, piece),
    ensures
        contains(b + c, piece),
{
    lemma_contains_around(Seq::<char>::empty(), b, c, piece);
    assert(Seq::<char>::empty() + b + c =~= b + c);
}

/// If `p` is a suffix of `a`, then `p + x` occurs in `a + x`.
proof fn lemma_contains_suffix_of_prefix(a: Seq<char>, p: Seq<char>, x: Seq<char>)
    requires
        p.len() <= a.len(),
        a.subrange(a.len() - p.len(), a.len() as int) == p,
    ensures
        contains(a + x, p + x),
{
    let w = a + x;
    let i = a.len() - p.len();
    assert(w.subrange(i, i + (p + x).len()) =~= p + x);
}


/// A card's favourite button is the star of the favourite toggle: the lit
/// yellow ★ for a favourite and the grey ☆ otherwise, posting to the song's
/// `/favorite` route.
pub proof fn law_card_favourite_star(s: SongListItem)
    ensures
        s.favorite ==> exists|i: int|
            crate::text::has_at(
                card_spec(s),
                i,
                "<button hx-post=\"/htmx/songs/"@ + signed_decimal_spec(s.id as int)
                    + "/favorite\" hx-swap=\"outerHTML\" class=\"px-2 text-yellow-400\">★</button>"@,
            ),
        !s.favorite ==> exists|i: int|
            crate::text::has_at(
                card_spec(s),
                i,
                "<button hx-post=\"/htmx/songs/"@ + signed_decimal_spec(s.id as int)
                    + "/favorite\" hx-swap=\"outerHTML\" class=\"px-2 text-gray-300\">☆</button>"@,
            ),
        favorite_button_spec(s.id, s.favorite) == crate::setlists::favorite_star_spec(
            s.id,
            s.favorite,
        ),
{
    let yt = youtube_link_spec(s.youtube);
    let b = favorite_button_spec(s.id, s.favorite);
    assert(b.subrange(0, b.len() as int) =~= b);
    crate::text::lemma_has_at_prepend(yt, b, 0, b);
    crate::text::lemma_has_at_append(yt + b, yt.len() as int, b, edit_button_spec(s.id, s.can_edit));
    let x1 = yt + b + edit_button_spec(s.id, s.can_edit);
    crate::text::lemma_has_at_append(x1, yt.len() as int, b, delete_button_spec(s.id, s.can_delete));
    let x2 = x1 + delete_button_spec(s.id, s.can_delete);
    crate::text::lemma_has_at_append(x2, yt.len() as int, b, approve_button_spec(s.id, s.can_approve && s.is_pending));
    let acts = x2 + approve_button_spec(s.id, s.can_approve && s.is_pending);
    assert(acts == actions_spec(s));
    let d = "<div class=\"actions flex\">"@;
    crate::text::lemma_has_at_prepend(d, acts, yt.len() as int, b);
    crate::text::lemma_has_at_append(d + acts, (d.len() + yt.len()) as int, b, "</div>"@);
    let blk = d + acts + "</div>"@;
    assert(blk == actions_block_spec(s));
    let pre = card_open_spec(s.id) + card_title_spec(s) + artists_spec(s.artistas@) + meta_spec(
        s.org_key@,
    ) + attribution_block_spec(s);
    let k: int = (pre.len() + d.len() + yt.len()) as int;
    crate::text::lemma_has_at_prepend(pre, blk, (d.len() + yt.len()) as int, b);
    crate::text::lemma_has_at_append(pre + blk, k, b, "</div>"@);
    assert(pre + blk + "</div>"@ == card_spec(s));
    assert(crate::text::has_at(card_spec(s), k, b));
}

} // verus!
