//! YouTube links: a song stores the 11-character video ID when one can be
//! found in what the user typed (a bare ID or one of the usual link forms).

use vstd::prelude::*;
use crate::text::{
    join_lines, join_newlines, lines_spec, lines_view, split_lines, lemma_newline_absent,
    chars_of, chars_eq, has_at, matches_at, string_from_chars, string_from_range, trim, trim_bounds,
    is_ws, lemma_ws_prefix_len, lemma_ws_suffix_len,
};

verus! {

/// What the URL parser reports of a parsed URL: its decoded query pairs,
/// its host (if any) and its path.
pub type UrlView = (Seq<(Seq<char>, Seq<char>)>, Option<Seq<char>>, Seq<char>);

/// The parts of a parsed URL that link normalisation reads.
pub struct ParsedUrl {
    /// Decoded `key=value` pairs of the query, in order.
    pub query_pairs: Vec<(String, String)>,
    /// The host, when the URL has one.
    pub host: Option<String>,
    /// The path, starting with `/` for web URLs.
    pub path: String,
}

impl View for ParsedUrl {
    type V = UrlView;

    open spec fn view(&self) -> UrlView {
        (
            self.query_pairs@.map_values(|p: (String, String)| (p.0@, p.1@)),
            match self.host {
                Some(h) => Some(h@),
                None => None,
            },
            self.path@,
        )
    }
}

/// The view of an optional parsed URL.
pub open spec fn opt_url_view(o: Option<ParsedUrl>) -> Option<UrlView> {
    match o {
        Some(u) => Some(u@),
        None => None,
    }
}

/// What `url::Url::parse` gives for a text: `None` when the text is not a
/// valid URL, otherwise the query pairs, host and path of the parsed URL.
pub uninterp spec fn url_parse(input: Seq<char>) -> Option<UrlView>;

/// Parses `input` with the `url` crate (`url::Url::parse`) and reads back
/// `query_pairs()`, `host_str()` and `path()`. The contract only names the
/// result: WHATWG URL parsing is not restated here.
#[verifier::external_body]
fn parse_url(input: &str) -> (r: Option<ParsedUrl>)
    ensures
        opt_url_view(r) == url_parse(input@),
{
    match url::Url::parse(input) {
        Ok(u) => Some(ParsedUrl {
            query_pairs: u.query_pairs().map(|(k, v)| (k.into_owned(), v.into_owned())).collect(),
            host: u.host_str().map(|h| h.to_string()),
            path: u.path().to_string(),
        }),
        Err(_) => None,
    }
}

/// Characters allowed in a YouTube video ID.
pub open spec fn is_id_char(c: char) -> bool {
    ('a' <= c && c <= 'z') || ('A' <= c && c <= 'Z') || ('0' <= c && c <= '9') || c == '-' || c
        == '_'
}

/// Eleven characters, each a letter, digit, `-` or `_`.
pub open spec fn is_video_id(s: Seq<char>) -> bool {
    s.len() == 11 && forall|i: int| 0 <= i < s.len() ==> is_id_char(#[trigger] s[i])
}

/// Whether `c` may appear in a video ID.
fn id_char(c: char) -> (r: bool)
    ensures
        r == is_id_char(c),
{
    ('a' <= c && c <= 'z') || ('A' <= c && c <= 'Z') || ('0' <= c && c <= '9') || c == '-' || c
        == '_'
}

/// Whether `v[from..to]` is a video ID.
fn is_video_id_range(v: &Vec<char>, from: usize, to: usize) -> (r: bool)
    requires
        from <= to <= v.len(),
    ensures
        r == is_video_id(v@.subrange(from as int, to as int)),
{
    if to - from != 11 {
        return false;
    }
    let mut i = from;
    while i < to
        invariant
            from <= i <= to <= v.len(),
            to - from == 11,
            forall|j: int| from <= j < i ==> is_id_char(v@[j]),
        decreases to - i,
    {
        if !id_char(v[i]) {
            assert(v@.subrange(from as int, to as int)[i - from] == v@[i as int]);
            return false;
        }
        i += 1;
    }
    assert forall|j: int| 0 <= j < 11 implies is_id_char(
        #[trigger] v@.subrange(from as int, to as int)[j],
    ) by {
        assert(v@.subrange(from as int, to as int)[j] == v@[from + j]);
    }
    true
}

/// `"http://"`.
pub open spec fn http_prefix() -> Seq<char> {
    seq!['h', 't', 't', 'p', ':', '/', '/']
}

/// `"https://"`.
pub open spec fn https_prefix() -> Seq<char> {
    seq!['h', 't', 't', 'p', 's', ':', '/', '/']
}

/// The text handed to the URL parser: the input itself when it already has
/// an `http://` or `https://` scheme, else the input behind `https://`.
pub open spec fn url_candidate(t: Seq<char>) -> Seq<char> {
    if has_at(t, 0, http_prefix()) || has_at(t, 0, https_prefix()) {
        t
    } else {
        https_prefix() + t
    }
}

/// The value of the first query pair whose key is `v`.
pub open spec fn first_v(pairs: Seq<(Seq<char>, Seq<char>)>) -> Option<Seq<char>>
    decreases pairs.len(),
{
    if pairs.len() == 0 {
        None
    } else if pairs[0].0 == seq!['v'] {
        Some(pairs[0].1)
    } else {
        first_v(pairs.drop_first())
    }
}

/// Position of the first `/` in `s`, or its length.
pub open spec fn slash_pos(s: Seq<char>) -> nat
    decreases s.len(),
{
    if s.len() == 0 || s[0] == '/' {
        0
    } else {
        1 + slash_pos(s.drop_first())
    }
}

/// The part of `s` before its first `/`.
pub open spec fn before_slash(s: Seq<char>) -> Seq<char> {
    s.take(slash_pos(s) as int)
}

/// The first path segment (`path_segments().next()`): `None` when the path
/// does not start with `/`.
pub open spec fn first_segment(path: Seq<char>) -> Option<Seq<char>> {
    if path.len() > 0 && path[0] == '/' {
        Some(before_slash(path.drop_first()))
    } else {
        None
    }
}

/// `"/embed/"`.
pub open spec fn embed_prefix() -> Seq<char> {
    seq!['/', 'e', 'm', 'b', 'e', 'd', '/']
}

/// `"/shorts/"`.
pub open spec fn shorts_prefix() -> Seq<char> {
    seq!['/', 's', 'h', 'o', 'r', 't', 's', '/']
}

/// `"/live/"`.
pub open spec fn live_prefix() -> Seq<char> {
    seq!['/', 'l', 'i', 'v', 'e', '/']
}

/// The segment after `/embed/`, `/shorts/` or `/live/` (the first of these
/// that the path starts with).
pub open spec fn path_id(path: Seq<char>) -> Option<Seq<char>> {
    if has_at(path, 0, embed_prefix()) {
        Some(before_slash(path.skip(7)))
    } else if has_at(path, 0, shorts_prefix()) {
        Some(before_slash(path.skip(8)))
    } else if has_at(path, 0, live_prefix()) {
        Some(before_slash(path.skip(6)))
    } else {
        None
    }
}

/// `"youtu.be"`.
pub open spec fn short_host() -> Seq<char> {
    seq!['y', 'o', 'u', 't', 'u', '.', 'b', 'e']
}

/// The candidate ID found in a parsed URL: the `v` query parameter; else,
/// for `youtu.be`, the first path segment; else the segment after one of
/// the known path prefixes.
pub open spec fn candidate_id(u: UrlView) -> Option<Seq<char>> {
    let a = first_v(u.0);
    let b = if a is None && u.1 == Some(short_host()) {
        first_segment(u.2)
    } else {
        a
    };
    if b is None {
        path_id(u.2)
    } else {
        b
    }
}

/// What link normalisation returns once the URL parser has answered:
/// the candidate ID when it is a valid video ID, else the value as it was given.
pub open spec fn youtube_from_parsed(value: Seq<char>, parsed: Option<UrlView>) -> Seq<char> {
    match parsed {
        None => value,
        Some(u) => match candidate_id(u) {
            Some(id) => if is_video_id(id) {
                id
            } else {
                value
            },
            None => value,
        },
    }
}

/// Link normalisation of one line of the YouTube field: blank stays blank (empty),
/// a bare ID is kept (trimmed), a link is reduced to its ID when one can be
/// found, and anything else is kept as it was given.
pub open spec fn normalize_youtube_line_spec(value: Seq<char>) -> Seq<char> {
    let t = trim(value);
    if t.len() == 0 {
        seq![]
    } else if is_video_id(t) {
        t
    } else {
        youtube_from_parsed(value, url_parse(url_candidate(t)))
    }
}

/// Index of the first `/` in `v[from..]`, or `v.len()`.
fn find_slash(v: &Vec<char>, from: usize) -> (k: usize)
    requires
        from <= v.len(),
    ensures
        from <= k <= v.len(),
        k - from == slash_pos(v@.skip(from as int)),
    decreases v.len() - from,
{
    if from == v.len() || v[from] == '/' {
        assert(v@.skip(from as int).len() == 0 || v@.skip(from as int)[0] == '/');
        from
    } else {
        let k = find_slash(v, from + 1);
        assert(v@.skip(from as int).drop_first() =~= v@.skip(from + 1));
        k
    }
}

/// The first path segment of `path`.
fn first_segment_of(path: &String) -> (r: Option<String>)
    ensures
        crate::text::opt_view(r) == first_segment(path@),
{
    let v = chars_of(path.as_str());
    if v.len() > 0 && v[0] == '/' {
        let k = find_slash(&v, 1);
        proof {
            assert(v@.skip(1) =~= v@.drop_first());
            assert(v@.subrange(1, k as int) =~= before_slash(v@.drop_first()));
        }
        Some(string_from_range(&v, 1, k))
    } else {
        None
    }
}

/// The segment after a known prefix of `path`.
fn path_id_of(path: &String) -> (r: Option<String>)
    ensures
        crate::text::opt_view(r) == path_id(path@),
{
    let v = chars_of(path.as_str());
    let embed: Vec<char> = vec!['/', 'e', 'm', 'b', 'e', 'd', '/'];
    let shorts: Vec<char> = vec!['/', 's', 'h', 'o', 'r', 't', 's', '/'];
    let live: Vec<char> = vec!['/', 'l', 'i', 'v', 'e', '/'];
    assert(embed@ =~= embed_prefix());
    assert(shorts@ =~= shorts_prefix());
    assert(live@ =~= live_prefix());
    let skip: usize = if matches_at(&v, 0, &embed) {
        7
    } else if matches_at(&v, 0, &shorts) {
        8
    } else if matches_at(&v, 0, &live) {
        6
    } else {
        return None;
    };
    let k = find_slash(&v, skip);
    assert(v@.subrange(skip as int, k as int) =~= before_slash(v@.skip(skip as int)));
    Some(string_from_range(&v, skip, k))
}

/// The value of the first query pair keyed `v`.
fn first_v_of(pairs: &Vec<(String, String)>) -> (r: Option<String>)
    ensures
        crate::text::opt_view(r) == first_v(pairs@.map_values(|p: (String, String)| (p.0@, p.1@))),
{
    let ghost ps = pairs@.map_values(|p: (String, String)| (p.0@, p.1@));
    let key: Vec<char> = vec!['v'];
    assert(key@ =~= seq!['v']);
    assert(ps.skip(0) =~= ps);
    let mut i: usize = 0;
    while i < pairs.len()
        invariant
            i <= pairs.len(),
            ps == pairs@.map_values(|p: (String, String)| (p.0@, p.1@)),
            key@ == seq!['v'],
            first_v(ps) == first_v(ps.skip(i as int)),
        decreases pairs.len() - i,
    {
        let k = chars_of(pairs[i].0.as_str());
        assert(ps.skip(i as int)[0] == ps[i as int]);
        if chars_eq(&k, &key) {
            return Some(pairs[i].1.clone());
        }
        assert(ps.skip(i as int).drop_first() =~= ps.skip(i + 1));
        i += 1;
    }
    None
}

/// Finishes link normalisation once the URL parser has answered for the
/// candidate text: `parsed` is that answer, `value` the field as it was given.
pub fn youtube_from_parsed_url(value: String, parsed: Option<ParsedUrl>) -> (out: String)
    ensures
        out@ == youtube_from_parsed(value@, opt_url_view(parsed)),
{
    match parsed {
        None => value,
        Some(u) => {
            let a = first_v_of(&u.query_pairs);
            let short: Vec<char> = vec!['y', 'o', 'u', 't', 'u', '.', 'b', 'e'];
            assert(short@ =~= short_host());
            let is_short = match &u.host {
                Some(h) => {
                    let hv = chars_of(h.as_str());
                    chars_eq(&hv, &short)
                },
                None => false,
            };
            let b = if a.is_none() && is_short {
                first_segment_of(&u.path)
            } else {
                a
            };
            let c = if b.is_none() {
                path_id_of(&u.path)
            } else {
                b
            };
            match c {
                Some(id) => {
                    let iv = chars_of(id.as_str());
                    if is_video_id_range(&iv, 0, iv.len()) {
                        assert(iv@.subrange(0, iv@.len() as int) =~= iv@);
                        id
                    } else {
                        assert(iv@.subrange(0, iv@.len() as int) =~= iv@);
                        value
                    }
                },
                None => value,
            }
        },
    }
}

/// Extracts the 11-character ID from one YouTube link, or returns the
/// value unchanged when no valid ID can be identified. A blank value
/// becomes empty and a bare ID is returned trimmed.
pub fn normalize_youtube_line(value: String) -> (out: String)
    ensures
        out@ == normalize_youtube_line_spec(value@),
{
    let v = chars_of(value.as_str());
    let (a, b) = trim_bounds(&v);
    if a == b {
        return String::new();
    }
    if is_video_id_range(&v, a, b) {
        return string_from_range(&v, a, b);
    }
    let ghost t = trim(value@);
    let http: Vec<char> = vec!['h', 't', 't', 'p', ':', '/', '/'];
    let https: Vec<char> = vec!['h', 't', 't', 'p', 's', ':', '/', '/'];
    assert(http@ =~= http_prefix());
    assert(https@ =~= https_prefix());
    let tv = subvec(&v, a, b);
    let mut cand: Vec<char> = Vec::new();
    if !(matches_at(&tv, 0, &http) || matches_at(&tv, 0, &https)) {
        crate::text::append_chars(&mut cand, &https);
    }
    crate::text::append_chars(&mut cand, &tv);
    assert(cand@ =~= url_candidate(t));
    let cand_s = string_from_chars(&cand);
    let parsed = parse_url(cand_s.as_str());
    youtube_from_parsed_url(value, parsed)
}

/// A copy of `v[from..to]`.
fn subvec(v: &Vec<char>, from: usize, to: usize) -> (out: Vec<char>)
    requires
        from <= to <= v.len(),
    ensures
        out@ == v@.subrange(from as int, to as int),
{
    let mut out: Vec<char> = Vec::new();
    let mut i = from;
    while i < to
        invariant
            from <= i <= to <= v.len(),
            out@ == v@.subrange(from as int, i as int),
        decreases to - i,
    {
        out.push(v[i]);
        assert(v@.subrange(from as int, i + 1) =~= v@.subrange(from as int, i as int).push(
            v@[i as int],
        ));
        i += 1;
    }
    out
}

/// A video ID has no whitespace, so trimming leaves it as it is.
proof fn lemma_video_id_trimmed(s: Seq<char>)
    requires
        is_video_id(s),
    ensures
        trim(s) == s,
{
    assert(!is_ws(s[0]));
    lemma_ws_prefix_len(s, 0);
    assert(s.skip(0) =~= s);
    assert(!is_ws(s[s.len() - 1]));
    lemma_ws_suffix_len(s, 0);
    assert(s.take(s.len() as int) =~= s);
}

/// Normalising a YouTube link twice gives what normalising once gives.
pub proof fn law_normalize_youtube_line_idempotent(value: Seq<char>)
    ensures
        normalize_youtube_line_spec(normalize_youtube_line_spec(value)) == normalize_youtube_line_spec(value),
{
    let r = normalize_youtube_line_spec(value);
    let t = trim(value);
    if t.len() == 0 {
        assert(r.len() == 0);
        assert(trim(r).len() == 0) by {
            assert(r.skip(0).len() == 0);
        }
    } else if is_video_id(t) {
        lemma_video_id_trimmed(t);
    } else {
        let res = youtube_from_parsed(value, url_parse(url_candidate(t)));
        if res != value {
            // The only other outcome is a valid video ID.
            assert(is_video_id(res));
            lemma_video_id_trimmed(res);
        }
    }
}

/// The outcome is empty, a valid video ID, or the value exactly as given.
pub proof fn law_normalize_youtube_line_outcomes(value: Seq<char>)
    ensures
        normalize_youtube_line_spec(value).len() == 0 || is_video_id(normalize_youtube_line_spec(value))
            || normalize_youtube_line_spec(value) == value,
        normalize_youtube_line_spec(value).len() == 0 <==> trim(value).len() == 0,
{
    let t = trim(value);
    if t.len() > 0 && !is_video_id(t) {
        let res = youtube_from_parsed(value, url_parse(url_candidate(t)));
        if res.len() == 0 && !is_video_id(res) {
            assert(res == value);
            assert(value.len() == 0);
            assert(t =~= value.skip(0).take(0));
        }
    }
}


/// The stored lines of the YouTube field: each non-blank line normalised
/// on its own, blank lines left out, in order.
pub open spec fn youtube_lines_spec(ls: Seq<Seq<char>>) -> Seq<Seq<char>>
    decreases ls.len(),
{
    if ls.len() == 0 {
        seq![]
    } else {
        let r = youtube_lines_spec(ls.drop_last());
        if trim(ls.last()).len() == 0 {
            r
        } else {
            r.push(normalize_youtube_line_spec(ls.last()))
        }
    }
}

/// Normalisation of the YouTube field, which holds one ID or link per line
/// (the first the original version, the others alternatives): every
/// non-blank line is normalised on its own and the lines are joined again
/// with `'\n'`.
pub open spec fn normalize_youtube_spec(value: Seq<char>) -> Seq<char> {
    join_lines(youtube_lines_spec(lines_spec(value)))
}

/// Normalises the YouTube field line by line: each non-blank line becomes
/// its video ID when one is found (or stays as typed), blank lines are
/// dropped, and the lines are joined with `'\n'`.
pub fn normalize_youtube(value: String) -> (out: String)
    ensures
        out@ == normalize_youtube_spec(value@),
{
    let lines = split_lines(value.as_str());
    let mut kept: Vec<String> = Vec::new();
    let mut i: usize = 0;
    while i < lines.len()
        invariant
            i <= lines.len(),
            lines_view(kept@) == youtube_lines_spec(lines_view(lines@).take(i as int)),
        decreases lines.len() - i,
    {
        let line = lines[i].clone();
        let t = crate::text::trim_string(line.as_str());
        proof {
            let ls = lines_view(lines@).take(i + 1);
            assert(ls.drop_last() =~= lines_view(lines@).take(i as int));
            assert(ls.last() == lines@[i as int]@);
        }
        if t.as_str().unicode_len() > 0 {
            let ghost before = kept@;
            let n = normalize_youtube_line(line);
            kept.push(n);
            assert(lines_view(kept@) =~= lines_view(before).push(n@));
        }
        i += 1;
    }
    assert(lines_view(lines@).take(lines.len() as int) =~= lines_view(lines@));
    join_newlines(&kept)
}

/// A field with a single line (no `'\n'`) is normalised exactly as that one
/// link, so songs with one link keep working as before.
pub proof fn law_single_link_field(value: Seq<char>)
    requires
        forall|k: int| 0 <= k < value.len() ==> value[k] != '\n',
    ensures
        normalize_youtube_spec(value) == normalize_youtube_line_spec(value),
{
    if value.len() > 0 {
        lemma_newline_absent(value);
        let ls = lines_spec(value);
        assert(ls == seq![value]);
        assert(ls.drop_last() =~= Seq::<Seq<char>>::empty());
        assert(ls.last() == value);
        assert(youtube_lines_spec(ls.drop_last()) == Seq::<Seq<char>>::empty());
        if trim(value).len() == 0 {
            assert(youtube_lines_spec(ls) == Seq::<Seq<char>>::empty());
            assert(normalize_youtube_line_spec(value) == Seq::<char>::empty());
        } else {
            assert(youtube_lines_spec(ls) =~= seq![normalize_youtube_line_spec(value)]);
        }
    } else {
        assert(trim(value).len() == 0) by {
            assert(value.skip(0).len() == 0);
        }
    }
}

/// Every stored line is a video ID or a non-blank line as it was typed;
/// blank lines are dropped and no line is added.
pub proof fn law_youtube_lines_kept(ls: Seq<Seq<char>>)
    ensures
        youtube_lines_spec(ls).len() <= ls.len(),
        forall|j: int| 0 <= j < youtube_lines_spec(ls).len() ==> {
            let l = #[trigger] youtube_lines_spec(ls)[j];
            is_video_id(l) || exists|k: int| 0 <= k < ls.len() && l == ls[k] && trim(ls[k]).len() > 0
        },
    decreases ls.len(),
{
    if ls.len() > 0 {
        let r = youtube_lines_spec(ls.drop_last());
        law_youtube_lines_kept(ls.drop_last());
        let x = ls.last();
        if trim(x).len() > 0 {
            law_normalize_youtube_line_outcomes(x);
        }
        assert forall|j: int| 0 <= j < youtube_lines_spec(ls).len() implies {
            let l = #[trigger] youtube_lines_spec(ls)[j];
            is_video_id(l) || exists|k: int| 0 <= k < ls.len() && l == ls[k] && trim(ls[k]).len() > 0
        } by {
            let l = youtube_lines_spec(ls)[j];
            if j < r.len() {
                assert(l == r[j]);
                if !is_video_id(l) {
                    let k = choose|k: int| 0 <= k < ls.drop_last().len() && l == ls.drop_last()[k]
                        && trim(ls.drop_last()[k]).len() > 0;
                    assert(ls[k] == ls.drop_last()[k]);
                }
            } else {
                assert(l == normalize_youtube_line_spec(x));
                if !is_video_id(l) {
                    assert(ls[ls.len() - 1] == x);
                }
            }
        }
    }
}

/// Every eleven-character text made only of ASCII letters, digits, `-` and
/// `_` is a video ID: typed alone in the field it is stored as it is, and a
/// link whose first query parameter is `v` with that text is reduced to it.
pub proof fn law_video_ids_are_kept(id: Seq<char>, value: Seq<char>, u: UrlView)
    requires
        id.len() == 11,
        forall|i: int|
            0 <= i < 11 ==> {
                let c = #[trigger] id[i];
                ||| 'a' <= c <= 'z'
                ||| 'A' <= c <= 'Z'
                ||| '0' <= c <= '9'
                ||| c == '-'
                ||| c == '_'
            },
    ensures
        normalize_youtube_spec(id) == id,
        u.0.len() > 0 && u.0[0] == (seq!['v'], id) ==> youtube_from_parsed(value, Some(u)) == id,
{
    assert forall|i: int| 0 <= i < id.len() implies is_id_char(#[trigger] id[i]) by {
        let c = id[i];
    }
    assert(is_video_id(id));
    lemma_video_id_trimmed(id);
    assert forall|k: int| 0 <= k < id.len() implies id[k] != '\n' by {
        let c = id[k];
    }
    law_single_link_field(id);
    assert(normalize_youtube_line_spec(id) == id);
    if u.0.len() > 0 && u.0[0] == (seq!['v'], id) {
        assert(first_v(u.0) == Some(id));
        assert(candidate_id(u) == Some(id));
    }
}

/// A watch link `https://www.youtube.com/watch?v=` followed by a video ID
/// is stored as the ID, once the URL parser reads that ID as the link's
/// first query parameter.
pub proof fn law_watch_link_gives_its_id(id: Seq<char>, u: UrlView)
    requires
        id.len() == 11,
        forall|i: int|
            0 <= i < 11 ==> {
                let c = #[trigger] id[i];
                ||| 'a' <= c <= 'z'
                ||| 'A' <= c <= 'Z'
                ||| '0' <= c <= '9'
                ||| c == '-'
                ||| c == '_'
            },
        url_parse("https://www.youtube.com/watch?v="@ + id) == Some(u),
        u.0.len() > 0 && u.0[0] == (seq!['v'], id),
    ensures
        normalize_youtube_spec("https://www.youtube.com/watch?v="@ + id) == id,
{
    reveal_strlit("https://www.youtube.com/watch?v=");
    let pre = "https://www.youtube.com/watch?v="@;
    let link = pre + id;
    assert(pre.len() == 32);
    assert forall|k: int| 0 <= k < link.len() implies link[k] != '\n' by {
        if k >= 32 {
            assert(link[k] == id[k - 32]);
            let c = id[k - 32];
        }
    }
    law_single_link_field(link);
    assert(!is_ws(link[0]));
    lemma_ws_prefix_len(link, 0);
    assert(link.skip(0) =~= link);
    assert(link[link.len() - 1] == id[10]);
    let last = id[10];
    assert(!is_ws(link[link.len() - 1]));
    lemma_ws_suffix_len(link, 0);
    assert(link.take(link.len() as int) =~= link);
    assert(trim(link) == link);
    assert(!is_video_id(link));
    assert(link.subrange(0, 8) =~= https_prefix());
    assert(url_candidate(link) == link);
    law_video_ids_are_kept(id, link, u);
}
} // verus!
