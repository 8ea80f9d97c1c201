//! Catalogue codes ("W0001", "ED0042", ...) and the values stored when a
//! song is created or edited.

use vstd::prelude::*;
use vstd::string::StringSliceAdditionalSpecFns;
use crate::text::{
    chars_of, string_from_chars, string_from_range, append_str, empty_to_none, empty_to_none_spec,
    normalize_newlines, normalize_newlines_spec, opt_view, trim, trim_bounds,
};
use crate::numbers::{
    parse_i32, parse_i32_spec, push_zero_padded, zero_padded_spec, parse_int_spec, digits_value,
    all_digits, is_digit, decimal_spec, zeros, lemma_decimal_roundtrip,
};
use crate::youtube::{normalize_youtube, normalize_youtube_spec};

verus! {

/// `s` without its first `n` characters (empty when `n` exceeds its length).
pub open spec fn skip_chars(s: Seq<char>, n: int) -> Seq<char> {
    if n >= s.len() {
        Seq::<char>::empty()
    } else {
        s.skip(n)
    }
}

/// The number that follows the prefix in a code: the code's characters
/// after as many characters as the prefix has UTF-8 bytes, read as an `i32`.
pub open spec fn code_number_spec(prefix: &str, code: Seq<char>) -> Option<i32> {
    parse_i32_spec(skip_chars(code, (prefix.spec_bytes().len() as usize) as int))
}

/// The number of `code` after `prefix`, as the code generator reads it.
pub fn code_number(prefix: &str, code: &str) -> (r: Option<i32>)
    ensures
        r == code_number_spec(prefix, code@),
{
    let n = prefix.len();
    let v = chars_of(code);
    let rest = if n >= v.len() {
        String::new()
    } else {
        string_from_range(&v, n, v.len())
    };
    proof {
        if n < v.len() {
            assert(v@.subrange(n as int, v.len() as int) =~= v@.skip(n as int));
        }
    }
    parse_i32(rest.as_str())
}

/// The number the next code gets: one more than the last code's number, or
/// 1 when there is no last code or its number cannot be read.
pub open spec fn next_number_spec(prefix: &str, last: Option<Seq<char>>) -> int {
    match last {
        Some(c) => match code_number_spec(prefix, c) {
            Some(n) => n + 1,
            None => 1,
        },
        None => 1,
    }
}

/// The next code: the prefix followed by the next number, zero-padded to
/// four characters.
pub open spec fn next_code_spec(prefix: &str, last: Option<Seq<char>>) -> Seq<char> {
    prefix@ + zero_padded_spec(next_number_spec(prefix, last), 4)
}

/// Computes the next sequential code for `prefix`, given the greatest code
/// with that prefix found so far. A last code numbered `i32::MAX` has no
/// successor.
pub fn next_code(prefix: &str, last: Option<String>) -> (code: String)
    requires
        match last {
            Some(c) => code_number_spec(prefix, c@) != Some(i32::MAX),
            None => true,
        },
    ensures
        code@ == next_code_spec(prefix, opt_view(last)),
{
    let next: i32 = match &last {
        Some(c) => match code_number(prefix, c.as_str()) {
            Some(n) => n + 1,
            None => 1,
        },
        None => 1,
    };
    let mut out = chars_of(prefix);
    push_zero_padded(&mut out, next as i64, 4);
    string_from_chars(&out)
}

/// Leading zeros do not change the value of digits.
pub proof fn lemma_leading_zeros(k: int, s: Seq<char>)
    ensures
        digits_value(zeros(k) + s) == digits_value(s),
        all_digits(s) ==> all_digits(zeros(k) + s),
    decreases s.len(), k,
{
    let z = zeros(k);
    if k <= 0 {
        assert(z + s =~= s);
    } else if s.len() == 0 {
        assert(z + s =~= z);
        if k > 0 {
            assert(z.drop_last() =~= zeros(k - 1));
            lemma_leading_zeros(k - 1, s);
            assert(zeros(k - 1) + s =~= zeros(k - 1));
        }
    } else {
        lemma_leading_zeros(k, s.drop_last());
        assert((z + s).drop_last() =~= z + s.drop_last());
        assert((z + s).last() == s.last());
    }
    if all_digits(s) {
        assert forall|i: int| 0 <= i < (z + s).len() implies is_digit(#[trigger] (z + s)[i]) by {
            if i >= z.len() {
                assert((z + s)[i] == s[i - z.len()]);
            }
        }
    }
}

/// A zero-padded number reads back as that number.
pub proof fn lemma_zero_padded_parses(n: i32, w: int)
    requires
        w >= 0,
    ensures
        parse_i32_spec(zero_padded_spec(n as int, w)) == Some(n),
{
    if n < 0 {
        let m = (-(n as int)) as nat;
        lemma_decimal_roundtrip(m);
        let k = w - 1 - decimal_spec(m).len();
        lemma_leading_zeros(k, decimal_spec(m));
        let body = zeros(k) + decimal_spec(m);
        let s = seq!['-'] + body;
        assert(s == zero_padded_spec(n as int, w));
        assert(s.drop_first() =~= body);
    } else {
        let m = n as nat;
        lemma_decimal_roundtrip(m);
        let k = w - decimal_spec(m).len();
        lemma_leading_zeros(k, decimal_spec(m));
        let s = zeros(k) + decimal_spec(m);
        assert(is_digit(s[0]));
    }
}

/// Codes count up: the code made after `last` starts with the prefix, and
/// (for a prefix in ASCII) its number is one more than the number of
/// `last`, or 1 when `last` has none.
pub proof fn law_next_code_counts_up(prefix: &str, last: Option<Seq<char>>)
    requires
        vstd::string::is_ascii(prefix),
        prefix@.len() <= usize::MAX,
        match last {
            Some(c) => code_number_spec(prefix, c) != Some(i32::MAX),
            None => true,
        },
    ensures
        next_code_spec(prefix, last).take(prefix@.len() as int) == prefix@,
        code_number_spec(prefix, next_code_spec(prefix, last)) == Some(
            next_number_spec(prefix, last) as i32,
        ),
{
    broadcast use vstd::string::is_ascii_spec_bytes;
    let code = next_code_spec(prefix, last);
    let n = next_number_spec(prefix, last);
    assert(i32::MIN <= n <= i32::MAX);
    assert(prefix.spec_bytes().len() == prefix@.len());
    assert((prefix.spec_bytes().len() as usize) as int == prefix@.len());
    assert(code.take(prefix@.len() as int) =~= prefix@);
    let pad = zero_padded_spec(n, 4);
    lemma_zero_padded_parses(n as i32, 4);
    if prefix@.len() >= code.len() {
        assert(pad.len() == 0);
        assert(parse_i32_spec(pad) is None);
    } else {
        assert(code.skip(prefix@.len() as int) =~= pad);
    }
}

// ---------------------------------------------------------------------------
// Song forms
// ---------------------------------------------------------------------------

/// The fields of the song create and edit forms, as typed.
pub struct SongForm {
    /// Catalogue code.
    pub code: String,
    /// Title.
    pub name: String,
    /// Title in the song's first language.
    pub org_name: String,
    /// Composer.
    pub composer: String,
    /// Chords in ChordPro.
    pub chord_pro: String,
    /// Lyrics.
    pub lyrics: String,
    /// Themes.
    pub themes: String,
    /// YouTube links or IDs.
    pub youtube: String,
    /// Genre type id, as typed.
    pub genre_type: Option<String>,
    /// Performing artists.
    pub artistas: String,
    /// Key the song was written in.
    pub org_key: String,
    /// Tempo the song was written in, as typed.
    pub org_tempo: Option<String>,
    /// Copyright notice.
    pub copyright: String,
}

/// An optional number field: its trimmed text read as an `i32`.
pub open spec fn optional_i32_spec(o: Option<Seq<char>>) -> Option<i32> {
    match o {
        Some(s) => parse_i32_spec(trim(s)),
        None => None,
    }
}

/// Reads an optional number field; unreadable text counts as absent.
pub fn parse_optional_i32(o: &Option<String>) -> (r: Option<i32>)
    ensures
        r == optional_i32_spec(opt_view(*o)),
{
    match o {
        Some(s) => {
            let t = crate::text::trim_string(s.as_str());
            parse_i32(t.as_str())
        },
        None => None,
    }
}

/// The values written when a song is edited.
pub struct SongUpdate {
    /// Catalogue code, as typed.
    pub code: String,
    /// Title, as typed.
    pub name: String,
    /// Title in the song's first language, as typed.
    pub org_name: String,
    /// Composer, as typed.
    pub composer: String,
    /// Chords with literal newline escapes turned into line breaks.
    pub chord_pro: String,
    /// Lyrics with literal newline escapes turned into line breaks.
    pub lyrics: String,
    /// Themes, as typed.
    pub themes: String,
    /// The YouTube field reduced to a video ID where possible.
    pub youtube: String,
    /// Genre type id, when readable.
    pub genre_type: Option<i32>,
    /// Performing artists, as typed.
    pub artistas: String,
    /// Key the song was written in, as typed.
    pub org_key: String,
    /// Tempo the song was written in, when readable.
    pub org_tempo: Option<i32>,
    /// Copyright notice, as typed.
    pub copyright: String,
}

/// The stored values of an edited song.
pub fn prepare_song_update(form: SongForm) -> (u: SongUpdate)
    ensures
        u.code@ == form.code@,
        u.name@ == form.name@,
        u.org_name@ == form.org_name@,
        u.composer@ == form.composer@,
        u.chord_pro@ == normalize_newlines_spec(form.chord_pro@),
        u.lyrics@ == normalize_newlines_spec(form.lyrics@),
        u.themes@ == form.themes@,
        u.youtube@ == normalize_youtube_spec(form.youtube@),
        u.genre_type == optional_i32_spec(opt_view(form.genre_type)),
        u.artistas@ == form.artistas@,
        u.org_key@ == form.org_key@,
        u.org_tempo == optional_i32_spec(opt_view(form.org_tempo)),
        u.copyright@ == form.copyright@,
{
    let genre_type = parse_optional_i32(&form.genre_type);
    let org_tempo = parse_optional_i32(&form.org_tempo);
    SongUpdate {
        code: form.code,
        name: form.name,
        org_name: form.org_name,
        composer: form.composer,
        chord_pro: normalize_newlines(form.chord_pro),
        lyrics: normalize_newlines(form.lyrics),
        themes: form.themes,
        youtube: normalize_youtube(form.youtube),
        genre_type,
        artistas: form.artistas,
        org_key: form.org_key,
        org_tempo,
        copyright: form.copyright,
    }
}

/// The values written when a song is created. Blank optional texts are
/// stored as absent.
pub struct NewSong {
    /// Catalogue code.
    pub code: String,
    /// Title.
    pub name: Option<String>,
    /// Title in the song's first language.
    pub org_name: Option<String>,
    /// Composer.
    pub composer: Option<String>,
    /// Chords with literal newline escapes turned into line breaks.
    pub chord_pro: String,
    /// Lyrics with literal newline escapes turned into line breaks.
    pub lyrics: String,
    /// Themes.
    pub themes: Option<String>,
    /// The YouTube field reduced to a video ID where possible.
    pub youtube: Option<String>,
    /// Genre type id, when readable.
    pub genre_type: Option<i32>,
    /// Performing artists.
    pub artistas: Option<String>,
    /// Key the song was written in.
    pub org_key: Option<String>,
    /// Tempo the song was written in, when readable.
    pub org_tempo: Option<i32>,
    /// Copyright notice.
    pub copyright: Option<String>,
    /// `"approved"` when a moderator creates it, else `"pending"`.
    pub status: &'static str,
}

/// What creating a song needs before its values can be written.
pub enum CodeChoice {
    /// The form carried a code: use it (trimmed).
    Given(String),
    /// No code was typed: one must be generated for the genre (when any).
    Generate(Option<i32>),
}

/// The typed code, trimmed, or a request to generate one for the genre.
pub fn choose_code(form_code: String, genre_type: Option<i32>) -> (c: CodeChoice)
    ensures
        match c {
            CodeChoice::Given(s) => empty_to_none_spec(form_code@) == Some(s@),
            CodeChoice::Generate(g) => empty_to_none_spec(form_code@) is None && g == genre_type,
        },
{
    match empty_to_none(form_code) {
        Some(code) => CodeChoice::Given(code),
        None => CodeChoice::Generate(genre_type),
    }
}

/// `"SUB"`, the prefix of generated codes when the genre has none.
pub open spec fn default_prefix() -> Seq<char> {
    "SUB"@
}

/// The prefix for a generated code: the genre's code suffix when the genre
/// has one, else `"SUB"`.
pub fn code_prefix(genre_suffix: Option<String>) -> (p: String)
    ensures
        p@ == match genre_suffix {
            Some(s) => s@,
            None => default_prefix(),
        },
{
    match genre_suffix {
        Some(s) => s,
        None => {
            let v = chars_of("SUB");
            string_from_chars(&v)
        },
    }
}

/// The stored values of a new song.
pub fn prepare_new_song(form: SongForm, code: String, author_is_moderator: bool) -> (n: NewSong)
    ensures
        n.code@ == code@,
        opt_view(n.name) == empty_to_none_spec(form.name@),
        opt_view(n.org_name) == empty_to_none_spec(form.org_name@),
        opt_view(n.composer) == empty_to_none_spec(form.composer@),
        n.chord_pro@ == normalize_newlines_spec(form.chord_pro@),
        n.lyrics@ == normalize_newlines_spec(form.lyrics@),
        opt_view(n.themes) == empty_to_none_spec(form.themes@),
        opt_view(n.youtube) == empty_to_none_spec(normalize_youtube_spec(form.youtube@)),
        n.genre_type == optional_i32_spec(opt_view(form.genre_type)),
        opt_view(n.artistas) == empty_to_none_spec(form.artistas@),
        opt_view(n.org_key) == empty_to_none_spec(form.org_key@),
        n.org_tempo == optional_i32_spec(opt_view(form.org_tempo)),
        opt_view(n.copyright) == empty_to_none_spec(form.copyright@),
        n.status@ == if author_is_moderator {
            crate::access::approved_text()
        } else {
            crate::access::pending_text()
        },
{
    let genre_type = parse_optional_i32(&form.genre_type);
    let org_tempo = parse_optional_i32(&form.org_tempo);
    NewSong {
        code,
        name: empty_to_none(form.name),
        org_name: empty_to_none(form.org_name),
        composer: empty_to_none(form.composer),
        chord_pro: normalize_newlines(form.chord_pro),
        lyrics: normalize_newlines(form.lyrics),
        themes: empty_to_none(form.themes),
        youtube: empty_to_none(normalize_youtube(form.youtube)),
        genre_type,
        artistas: empty_to_none(form.artistas),
        org_key: empty_to_none(form.org_key),
        org_tempo,
        copyright: empty_to_none(form.copyright),
        status: crate::access::new_song_status(author_is_moderator),
    }
}

} // verus!
