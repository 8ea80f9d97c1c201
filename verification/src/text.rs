//! Character-level text utilities: whitespace trimming, HTML escaping,
//! literal-newline normalisation, accent folding and blank-field handling.

use vstd::prelude::*;

verus! {

// ---------------------------------------------------------------------------
// Basic conversions
// ---------------------------------------------------------------------------

/// Appends one character to a string (std `String::push`).
#[verifier::external_body]
pub(crate) fn push_char(s: &mut String, c: char)
    ensures
        final(s)@ == old(s)@.push(c),
{
    s.push(c);
}

/// The characters of `s`, in order.
pub fn chars_of(s: &str) -> (out: Vec<char>)
    ensures
        out@ == s@,
{
    let mut out: Vec<char> = Vec::new();
    for c in it: s.chars()
        invariant
            out@ == it.seq().take(it.index() as int),
            it.seq() == s@,
    {
        out.push(c);
    }
    out
}

/// The string made of `v[from..to]`.
pub fn string_from_range(v: &Vec<char>, from: usize, to: usize) -> (out: String)
    requires
        from <= to <= v.len(),
    ensures
        out@ == v@.subrange(from as int, to as int),
{
    let mut out = String::new();
    let mut i = from;
    while i < to
        invariant
            from <= i <= to <= v.len(),
            out@ == v@.subrange(from as int, i as int),
        decreases to - i,
    {
        push_char(&mut out, v[i]);
        assert(v@.subrange(from as int, i + 1) =~= v@.subrange(from as int, i as int).push(v@[i as int]));
        i += 1;
    }
    out
}

/// The string made of all of `v`.
pub fn string_from_chars(v: &Vec<char>) -> (out: String)
    ensures
        out@ == v@,
{
    let out = string_from_range(v, 0, v.len());
    assert(v@.subrange(0, v@.len() as int) =~= v@);
    out
}

/// Appends all characters of `src` to `dst`.
pub fn append_chars(dst: &mut Vec<char>, src: &Vec<char>)
    ensures
        final(dst)@ == old(dst)@ + src@,
{
    let mut i: usize = 0;
    while i < src.len()
        invariant
            i <= src.len(),
            dst@ == old(dst)@ + src@.take(i as int),
        decreases src.len() - i,
    {
        dst.push(src[i]);
        assert(src@.take(i + 1) =~= src@.take(i as int).push(src@[i as int]));
        i += 1;
    }
    assert(src@.take(src.len() as int) =~= src@);
}

/// Appends all characters of `src` to `dst`.
pub fn append_str(dst: &mut Vec<char>, src: &str)
    ensures
        final(dst)@ == old(dst)@ + src@,
{
    let cs = chars_of(src);
    append_chars(dst, &cs);
}

/// Whether `a` and `b` hold the same characters.
pub fn chars_eq(a: &Vec<char>, b: &Vec<char>) -> (r: bool)
    ensures
        r == (a@ == b@),
{
    if a.len() != b.len() {
        return false;
    }
    let mut i: usize = 0;
    while i < a.len()
        invariant
            a.len() == b.len(),
            i <= a.len(),
            forall|j: int| 0 <= j < i ==> a@[j] == b@[j],
        decreases a.len() - i,
    {
        if a[i] != b[i] {
            return false;
        }
        i += 1;
    }
    assert(a@ =~= b@);
    true
}

/// Whether the strings `a` and `b` are equal.
pub fn str_eq(a: &str, b: &str) -> (r: bool)
    ensures
        r == (a@ == b@),
{
    let ca = chars_of(a);
    let cb = chars_of(b);
    chars_eq(&ca, &cb)
}

/// Whether `s[at..]` starts with `pat`.
pub open spec fn has_at(s: Seq<char>, at: int, pat: Seq<char>) -> bool {
    0 <= at && at + pat.len() <= s.len() && s.subrange(at, at + pat.len()) == pat
}

/// A piece found in `x` is still found after text is appended to `x`.
pub proof fn lemma_has_at_append(x: Seq<char>, i: int, b: Seq<char>, q: Seq<char>)
    requires
        has_at(x, i, b),
    ensures
        has_at(x + q, i, b),
{
    assert((x + q).subrange(i, i + b.len()) =~= x.subrange(i, i + b.len()));
}

/// A piece found in `x` is found further on after text is put before `x`.
pub proof fn lemma_has_at_prepend(p: Seq<char>, x: Seq<char>, i: int, b: Seq<char>)
    requires
        has_at(x, i, b),
    ensures
        has_at(p + x, p.len() + i, b),
{
    assert((p + x).subrange(p.len() + i, p.len() + i + b.len()) =~= x.subrange(i, i + b.len()));
}

/// Whether `v[at..]` starts with `pat`.
pub fn matches_at(v: &Vec<char>, at: usize, pat: &Vec<char>) -> (r: bool)
    ensures
        r == has_at(v@, at as int, pat@),
{
    if at > v.len() || pat.len() > v.len() - at {
        return false;
    }
    let mut j: usize = 0;
    while j < pat.len()
        invariant
            at + pat.len() <= v.len(),
            j <= pat.len(),
            forall|k: int| 0 <= k < j ==> v@[at + k] == pat@[k],
        decreases pat.len() - j,
    {
        if v[at + j] != pat[j] {
            assert(v@.subrange(at as int, at + pat.len())[j as int] != pat@[j as int]);
            return false;
        }
        j += 1;
    }
    assert(v@.subrange(at as int, at + pat.len()) =~= pat@);
    true
}

/// Whether `s` starts with `pat`.
pub fn starts_with_chars(v: &Vec<char>, pat: &str) -> (r: bool)
    ensures
        r == has_at(v@, 0, pat@),
{
    let p = chars_of(pat);
    matches_at(v, 0, &p)
}

// ---------------------------------------------------------------------------
// Whitespace and trimming
// ---------------------------------------------------------------------------

/// Unicode `White_Space`, the set that `char::is_whitespace` tests.
pub open spec fn is_ws(c: char) -> bool {
    ||| ('\u{9}' <= c && c <= '\u{d}')
    ||| c == ' '
    ||| c == '\u{85}'
    ||| c == '\u{a0}'
    ||| c == '\u{1680}'
    ||| ('\u{2000}' <= c && c <= '\u{200a}')
    ||| c == '\u{2028}'
    ||| c == '\u{2029}'
    ||| c == '\u{202f}'
    ||| c == '\u{205f}'
    ||| c == '\u{3000}'
}

/// Whether `c` is whitespace.
pub fn is_whitespace(c: char) -> (r: bool)
    ensures
        r == is_ws(c),
{
    ('\u{9}' <= c && c <= '\u{d}') || c == ' ' || c == '\u{85}' || c == '\u{a0}' || c
        == '\u{1680}' || ('\u{2000}' <= c && c <= '\u{200a}') || c == '\u{2028}' || c
        == '\u{2029}' || c == '\u{202f}' || c == '\u{205f}' || c == '\u{3000}'
}

/// Number of whitespace characters at the start of `s`.
pub open spec fn ws_prefix_len(s: Seq<char>) -> nat
    decreases s.len(),
{
    if s.len() > 0 && is_ws(s[0]) {
        1 + ws_prefix_len(s.drop_first())
    } else {
        0
    }
}

/// Number of whitespace characters at the end of `s`.
pub open spec fn ws_suffix_len(s: Seq<char>) -> nat
    decreases s.len(),
{
    if s.len() > 0 && is_ws(s.last()) {
        1 + ws_suffix_len(s.drop_last())
    } else {
        0
    }
}

/// `s` without its leading whitespace (`str::trim_start`).
pub open spec fn trim_start(s: Seq<char>) -> Seq<char> {
    s.skip(ws_prefix_len(s) as int)
}

/// `s` without its trailing whitespace (`str::trim_end`).
pub open spec fn trim_end(s: Seq<char>) -> Seq<char> {
    s.take(s.len() - ws_suffix_len(s))
}

/// `s` without leading and trailing whitespace (`str::trim`).
pub open spec fn trim(s: Seq<char>) -> Seq<char> {
    trim_end(trim_start(s))
}

/// `k` is the length of the whitespace prefix exactly when all of `s[..k]`
/// is whitespace and `s[k]` (if any) is not.
pub proof fn lemma_ws_prefix_len(s: Seq<char>, k: int)
    requires
        0 <= k <= s.len(),
        forall|j: int| 0 <= j < k ==> is_ws(s[j]),
        k == s.len() || !is_ws(s[k]),
    ensures
        ws_prefix_len(s) == k,
    decreases k,
{
    if k > 0 {
        let t = s.drop_first();
        assert forall|j: int| 0 <= j < k - 1 implies is_ws(t[j]) by {
            assert(t[j] == s[j + 1]);
        }
        if k < s.len() {
            assert(t[k - 1] == s[k]);
        }
        lemma_ws_prefix_len(t, k - 1);
    }
}

/// The whitespace prefix is no longer than the string, and the character
/// after it is not whitespace.
pub proof fn lemma_ws_prefix_bounds(s: Seq<char>)
    ensures
        ws_prefix_len(s) <= s.len(),
        forall|j: int| 0 <= j < ws_prefix_len(s) ==> is_ws(s[j]),
        ws_prefix_len(s) < s.len() ==> !is_ws(s[ws_prefix_len(s) as int]),
    decreases s.len(),
{
    if s.len() > 0 && is_ws(s[0]) {
        let t = s.drop_first();
        lemma_ws_prefix_bounds(t);
        assert forall|j: int| 0 <= j < ws_prefix_len(s) implies is_ws(s[j]) by {
            if j > 0 {
                assert(s[j] == t[j - 1]);
            }
        }
        if ws_prefix_len(s) < s.len() {
            assert(s[ws_prefix_len(s) as int] == t[ws_prefix_len(t) as int]);
        }
    }
}

/// `k` is the length of the whitespace suffix exactly when all of
/// `s[len-k..]` is whitespace and the character before it (if any) is not.
pub proof fn lemma_ws_suffix_len(s: Seq<char>, k: int)
    requires
        0 <= k <= s.len(),
        forall|j: int| s.len() - k <= j < s.len() ==> is_ws(s[j]),
        k == s.len() || !is_ws(s[s.len() - k - 1]),
    ensures
        ws_suffix_len(s) == k,
    decreases k,
{
    if k > 0 {
        let t = s.drop_last();
        assert forall|j: int| t.len() - (k - 1) <= j < t.len() implies is_ws(t[j]) by {
            assert(t[j] == s[j]);
        }
        if k < s.len() {
            assert(t[t.len() - (k - 1) - 1] == s[s.len() - k - 1]);
        }
        lemma_ws_suffix_len(t, k - 1);
    }
}

/// The whitespace suffix is no longer than the string.
pub proof fn lemma_ws_suffix_bounds(s: Seq<char>)
    ensures
        ws_suffix_len(s) <= s.len(),
        forall|j: int| s.len() - ws_suffix_len(s) <= j < s.len() ==> is_ws(s[j]),
        ws_suffix_len(s) < s.len() ==> !is_ws(s[s.len() - ws_suffix_len(s) - 1]),
    decreases s.len(),
{
    if s.len() > 0 && is_ws(s.last()) {
        let t = s.drop_last();
        lemma_ws_suffix_bounds(t);
        assert forall|j: int| s.len() - ws_suffix_len(s) <= j < s.len() implies is_ws(s[j]) by {
            if j < s.len() - 1 {
                assert(s[j] == t[j]);
            }
        }
        if ws_suffix_len(s) < s.len() {
            assert(s[s.len() - ws_suffix_len(s) - 1] == t[t.len() - ws_suffix_len(t) - 1]);
        }
    }
}

/// Index of the first non-whitespace character of `v[from..to]` (or `to`).
pub fn skip_ws_forward(v: &Vec<char>, from: usize, to: usize) -> (k: usize)
    requires
        from <= to <= v.len(),
    ensures
        from <= k <= to,
        k - from == ws_prefix_len(v@.subrange(from as int, to as int)),
{
    let mut k = from;
    while k < to && is_whitespace(v[k])
        invariant
            from <= k <= to <= v.len(),
            forall|j: int| from <= j < k ==> is_ws(v@[j]),
        decreases to - k,
    {
        k += 1;
    }
    proof {
        let s = v@.subrange(from as int, to as int);
        assert forall|j: int| 0 <= j < k - from implies is_ws(s[j]) by {
            assert(s[j] == v@[from + j]);
        }
        if k < to {
            assert(s[k - from] == v@[k as int]);
        }
        lemma_ws_prefix_len(s, k - from);
    }
    k
}

/// Index just past the last non-whitespace character of `v[from..to]`
/// (or `from`).
pub fn skip_ws_backward(v: &Vec<char>, from: usize, to: usize) -> (k: usize)
    requires
        from <= to <= v.len(),
    ensures
        from <= k <= to,
        to - k == ws_suffix_len(v@.subrange(from as int, to as int)),
{
    let mut k = to;
    while k > from && is_whitespace(v[k - 1])
        invariant
            from <= k <= to <= v.len(),
            forall|j: int| k <= j < to ==> is_ws(v@[j]),
        decreases k - from,
    {
        k -= 1;
    }
    proof {
        let s = v@.subrange(from as int, to as int);
        assert forall|j: int| s.len() - (to - k) <= j < s.len() implies is_ws(s[j]) by {
            assert(s[j] == v@[from + j]);
        }
        if k > from {
            assert(s[s.len() - (to - k) - 1] == v@[k - 1]);
        }
        lemma_ws_suffix_len(s, (to - k) as int);
    }
    k
}

/// Bounds `(start, end)` of the trimmed part of `v`.
pub fn trim_bounds(v: &Vec<char>) -> (r: (usize, usize))
    ensures
        r.0 <= r.1 <= v.len(),
        v@.subrange(r.0 as int, r.1 as int) == trim(v@),
{
    let start = skip_ws_forward(v, 0, v.len());
    let end = skip_ws_backward(v, start, v.len());
    proof {
        assert(v@.subrange(0, v.len() as int) =~= v@);
        let ts = trim_start(v@);
        assert(ts =~= v@.subrange(start as int, v.len() as int));
        assert(v@.subrange(start as int, end as int) =~= ts.take(ts.len() - ws_suffix_len(ts)));
    }
    (start, end)
}

/// `s` with leading and trailing whitespace removed (`str::trim`).
pub fn trim_string(s: &str) -> (out: String)
    ensures
        out@ == trim(s@),
{
    let v = chars_of(s);
    let (a, b) = trim_bounds(&v);
    string_from_range(&v, a, b)
}

/// Trimming twice is trimming once.
pub proof fn lemma_trim_idempotent(s: Seq<char>)
    ensures
        trim(trim(s)) == trim(s),
{
    let ts = trim_start(s);
    lemma_ws_prefix_bounds(s);
    lemma_ws_suffix_bounds(ts);
    let t = trim(s);
    assert(t =~= ts.take(ts.len() - ws_suffix_len(ts)));
    if t.len() == 0 {
        assert(trim(t) =~= t);
    } else {
        // t starts with a non-whitespace character and ends with one.
        assert(t[0] == s[ws_prefix_len(s) as int]);
        lemma_ws_prefix_len(t, 0);
        assert(trim_start(t) =~= t);
        assert(t[t.len() - 1] == ts[ts.len() - ws_suffix_len(ts) - 1]);
        lemma_ws_suffix_len(t, 0);
        assert(trim(t) =~= t);
    }
}

/// A trimmed string neither starts nor ends with whitespace.
pub proof fn law_trim_leaves_no_edge_whitespace(s: Seq<char>)
    ensures
        trim(s).len() > 0 ==> !is_ws(trim(s)[0]) && !is_ws(trim(s).last()),
{
    let ts = trim_start(s);
    lemma_ws_prefix_bounds(s);
    lemma_ws_suffix_bounds(ts);
    let t = trim(s);
    if t.len() > 0 {
        assert(t[0] == s[ws_prefix_len(s) as int]);
        assert(t.last() == ts[ts.len() - ws_suffix_len(ts) - 1]);
    }
}

// ---------------------------------------------------------------------------
// Blank fields
// ---------------------------------------------------------------------------

/// The characters of an optional string.
pub open spec fn opt_view(o: Option<String>) -> Option<Seq<char>> {
    match o {
        Some(s) => Some(s@),
        None => None,
    }
}

/// The Unicode lowercase mapping that `str::to_lowercase` applies, a
/// function of the text alone.
pub uninterp spec fn lowercase(s: Seq<char>) -> Seq<char>;

/// Whether every character is ASCII.
pub open spec fn is_ascii_text(s: Seq<char>) -> bool {
    forall|i: int| 0 <= i < s.len() ==> (#[trigger] s[i] as u32) < 128
}

/// An ASCII capital letter in lowercase; every other character as it is.
pub open spec fn ascii_lower_char(c: char) -> char {
    if 'A' <= c && c <= 'Z' {
        ((c as u32) + 32) as char
    } else {
        c
    }
}

/// An ASCII small letter in uppercase; every other character as it is.
pub open spec fn ascii_upper_char(c: char) -> char {
    if 'a' <= c && c <= 'z' {
        ((c as u32) - 32) as char
    } else {
        c
    }
}

/// ASCII letters of `s` in lowercase.
pub open spec fn ascii_lowercase(s: Seq<char>) -> Seq<char> {
    s.map_values(|c: char| ascii_lower_char(c))
}

/// ASCII letters of `s` in uppercase.
pub open spec fn ascii_uppercase(s: Seq<char>) -> Seq<char> {
    s.map_values(|c: char| ascii_upper_char(c))
}

/// `str::to_lowercase` from std. Trusted: the result is `lowercase` of the
/// text; it is empty exactly when the text is (std maps every character to
/// one or more characters); and on ASCII text it maps `A`-`Z` to `a`-`z`
/// and keeps every other character, as std documents. What other
/// characters become is not stated.
#[verifier::external_body]
pub(crate) fn to_lowercase(s: &str) -> (r: String)
    ensures
        r@ == lowercase(s@),
        r@.len() == 0 <==> s@.len() == 0,
        is_ascii_text(s@) ==> r@ == ascii_lowercase(s@),
{
    s.to_lowercase()
}

/// The Unicode uppercase mapping that `str::to_uppercase` applies, a
/// function of the text alone.
pub uninterp spec fn uppercase(s: Seq<char>) -> Seq<char>;

/// `str::to_uppercase` from std. Trusted: the result is `uppercase` of the
/// text; it is empty exactly when the text is (std maps every character to
/// one or more characters); and on ASCII text it maps `a`-`z` to `A`-`Z`
/// and keeps every other character, as std documents. What other
/// characters become is not stated.
#[verifier::external_body]
pub(crate) fn to_uppercase(s: &str) -> (r: String)
    ensures
        r@ == uppercase(s@),
        r@.len() == 0 <==> s@.len() == 0,
        is_ascii_text(s@) ==> r@ == ascii_uppercase(s@),
{
    s.to_uppercase()
}

/// An optional text kept only when something other than whitespace is in it.
pub open spec fn non_blank(o: Option<String>) -> Option<Seq<char>> {
    match o {
        Some(s) => if trim(s@).len() > 0 {
            Some(s@)
        } else {
            None
        },
        None => None,
    }
}

/// Keeps a text only when it is not blank.
pub fn keep_non_blank(o: &Option<String>) -> (r: Option<String>)
    ensures
        opt_view(r) == non_blank(*o),
{
    match o {
        Some(s) => {
            let v = chars_of(s.as_str());
            let (a, b) = trim_bounds(&v);
            if a < b {
                Some(s.clone())
            } else {
                None
            }
        },
        None => None,
    }
}

/// A non-blank text, or the default.
pub open spec fn non_blank_or(v: Option<String>, default: Seq<char>) -> Seq<char> {
    match non_blank(v) {
        Some(s) => s,
        None => default,
    }
}

/// A non-blank text, or the default.
pub fn or_default_text(v: &Option<String>, default: &str) -> (s: String)
    ensures
        s@ == non_blank_or(*v, default@),
{
    match keep_non_blank(v) {
        Some(s) => s,
        None => default.to_string(),
    }
}

/// A form value, trimmed, or `None` when nothing but whitespace remains.
pub open spec fn empty_to_none_spec(s: Seq<char>) -> Option<Seq<char>> {
    if trim(s).len() == 0 {
        None
    } else {
        Some(trim(s))
    }
}

/// Trims a form value; a blank value becomes `None`.
pub fn empty_to_none(value: String) -> (r: Option<String>)
    ensures
        opt_view(r) == empty_to_none_spec(value@),
{
    let trimmed = trim_string(value.as_str());
    if trimmed.as_str().unicode_len() == 0 {
        None
    } else {
        Some(trimmed)
    }
}

/// What `empty_to_none` keeps is non-empty and already trimmed.
pub proof fn law_empty_to_none_trimmed(s: Seq<char>)
    ensures
        empty_to_none_spec(s) matches Some(t) ==> t.len() > 0 && trim(t) == t,
        empty_to_none_spec(s) is None <==> (forall|i: int| 0 <= i < s.len() ==> is_ws(s[i])),
{
    lemma_trim_idempotent(s);
    lemma_ws_prefix_bounds(s);
    let ts = trim_start(s);
    lemma_ws_suffix_bounds(ts);
    if trim(s).len() == 0 {
        assert(ws_suffix_len(ts) == ts.len());
        assert forall|i: int| 0 <= i < s.len() implies is_ws(s[i]) by {
            if i >= ws_prefix_len(s) {
                assert(s[i] == ts[i - ws_prefix_len(s)]);
            }
        }
    } else {
        if ws_prefix_len(s) < s.len() {
        }
    }
}

// ---------------------------------------------------------------------------
// HTML escaping
// ---------------------------------------------------------------------------

/// The HTML text for one character.
pub open spec fn escape_char_spec(c: char) -> Seq<char> {
    if c == '&' {
        seq!['&', 'a', 'm', 'p', ';']
    } else if c == '<' {
        seq!['&', 'l', 't', ';']
    } else if c == '>' {
        seq!['&', 'g', 't', ';']
    } else if c == '"' {
        seq!['&', 'q', 'u', 'o', 't', ';']
    } else if c == '\'' {
        seq!['&', '#', 'x', '2', '7', ';']
    } else {
        seq![c]
    }
}

/// `s` with `&`, `<`, `>`, `"` and `'` replaced by their HTML entities.
pub open spec fn escape_html_spec(s: Seq<char>) -> Seq<char>
    decreases s.len(),
{
    if s.len() == 0 {
        seq![]
    } else {
        escape_html_spec(s.drop_last()) + escape_char_spec(s.last())
    }
}

/// Appends the HTML text of `c` to `out`.
pub fn push_escaped(out: &mut Vec<char>, c: char)
    ensures
        final(out)@ == old(out)@ + escape_char_spec(c),
{
    if c == '&' {
        out.push('&');
        out.push('a');
        out.push('m');
        out.push('p');
        out.push(';');
    } else if c == '<' {
        out.push('&');
        out.push('l');
        out.push('t');
        out.push(';');
    } else if c == '>' {
        out.push('&');
        out.push('g');
        out.push('t');
        out.push(';');
    } else if c == '"' {
        out.push('&');
        out.push('q');
        out.push('u');
        out.push('o');
        out.push('t');
        out.push(';');
    } else if c == '\'' {
        out.push('&');
        out.push('#');
        out.push('x');
        out.push('2');
        out.push('7');
        out.push(';');
    } else {
        out.push(c);
    }
    assert(out@ =~= old(out)@ + escape_char_spec(c));
}

/// Appends the escaped form of `s` to `out`.
pub fn append_escaped(out: &mut Vec<char>, s: &str)
    ensures
        final(out)@ == old(out)@ + escape_html_spec(s@),
{
    let v = chars_of(s);
    let mut i: usize = 0;
    while i < v.len()
        invariant
            i <= v.len(),
            v@ == s@,
            out@ == old(out)@ + escape_html_spec(v@.take(i as int)),
        decreases v.len() - i,
    {
        let ghost before = out@;
        push_escaped(out, v[i]);
        proof {
            let t = v@.take(i + 1);
            assert(t.drop_last() =~= v@.take(i as int));
            assert(t.last() == v@[i as int]);
            assert(out@ =~= old(out)@ + escape_html_spec(t));
        }
        i += 1;
    }
    assert(v@.take(v.len() as int) =~= v@);
}

/// Escapes `&`, `<`, `>`, `"` and `'` for safe inclusion in HTML.
pub fn escape_html(value: &str) -> (out: String)
    ensures
        out@ == escape_html_spec(value@),
{
    let mut v: Vec<char> = Vec::new();
    append_escaped(&mut v, value);
    assert(v@ =~= escape_html_spec(value@));
    string_from_chars(&v)
}

/// Characters that HTML treats specially inside text and attribute values.
pub open spec fn is_html_special(c: char) -> bool {
    c == '<' || c == '>' || c == '"' || c == '\''
}

/// The entity decoded at step `n` (1 to 5) of unescaping: `&#x27;`,
/// `&quot;`, `&gt;`, `&lt;`, then `&amp;`.
pub open spec fn entity_at(n: int) -> Seq<char> {
    if n == 1 {
        seq!['&', '#', 'x', '2', '7', ';']
    } else if n == 2 {
        seq!['&', 'q', 'u', 'o', 't', ';']
    } else if n == 3 {
        seq!['&', 'g', 't', ';']
    } else if n == 4 {
        seq!['&', 'l', 't', ';']
    } else {
        seq!['&', 'a', 'm', 'p', ';']
    }
}

/// The character that the entity of step `n` stands for.
pub open spec fn entity_char(n: int) -> char {
    if n == 1 {
        '\''
    } else if n == 2 {
        '"'
    } else if n == 3 {
        '>'
    } else if n == 4 {
        '<'
    } else {
        '&'
    }
}

/// Decoding of escaped HTML, by the replacements `&#x27;` → `'`,
/// `&quot;` → `"`, `&gt;` → `>`, `&lt;` → `<` and `&amp;` → `&`, in that
/// order, each over the whole text.
pub open spec fn unescape_html_spec(t: Seq<char>) -> Seq<char> {
    replace_all(
        replace_all(
            replace_all(
                replace_all(replace_all(t, entity_at(1), seq![entity_char(1)]), entity_at(2), seq![entity_char(2)]),
                entity_at(3),
                seq![entity_char(3)],
            ),
            entity_at(4),
            seq![entity_char(4)],
        ),
        entity_at(5),
        seq![entity_char(5)],
    )
}

/// How `c` reads after the first `n` decoding steps.
pub open spec fn partly_decoded(n: int, c: char) -> Seq<char> {
    if exists|k: int| 1 <= k <= n && k <= 5 && c == entity_char(k) {
        seq![c]
    } else {
        escape_char_spec(c)
    }
}

/// Escaped text after the first `n` decoding steps.
pub open spec fn partly_decoded_text(n: int, s: Seq<char>) -> Seq<char>
    decreases s.len(),
{
    if s.len() == 0 {
        seq![]
    } else {
        partly_decoded(n, s[0]) + partly_decoded_text(n, s.drop_first())
    }
}

/// Text without `&` is copied as it is by a replacement of an entity.
proof fn lemma_replace_skips_plain(a: Seq<char>, u: Seq<char>, pat: Seq<char>, rep: Seq<char>)
    requires
        lacks(a, '&'),
        pat.len() > 0,
        pat[0] == '&',
    ensures
        replace_all(a + u, pat, rep) == a + replace_all(u, pat, rep),
    decreases a.len(),
{
    if a.len() > 0 {
        let w = a + u;
        assert(w[0] == a[0]);
        if has_at(w, 0, pat) {
            assert(w.subrange(0, pat.len() as int)[0] == w[0]);
        }
        assert(w.drop_first() =~= a.drop_first() + u);
        assert(lacks(a.drop_first(), '&')) by {
            assert forall|i: int| 0 <= i < a.drop_first().len() implies a.drop_first()[i] != '&' by {
                assert(a.drop_first()[i] == a[i + 1]);
            }
        }
        lemma_replace_skips_plain(a.drop_first(), u, pat, rep);
        assert(replace_all(w, pat, rep) =~= a + replace_all(u, pat, rep));
    }
}

/// One decoding step turns the text after `n` steps into the text after
/// `n + 1` steps.
proof fn lemma_decode_step(n: int, s: Seq<char>)
    requires
        0 <= n < 5,
    ensures
        replace_all(partly_decoded_text(n, s), entity_at(n + 1), seq![entity_char(n + 1)])
            == partly_decoded_text(n + 1, s),
    decreases s.len(),
{
    let pat = entity_at(n + 1);
    let rep = seq![entity_char(n + 1)];
    if s.len() > 0 {
        let c = s[0];
        let rest = s.drop_first();
        let b = partly_decoded(n, c);
        let e = partly_decoded_text(n, rest);
        lemma_decode_step(n, rest);
        assert(pat.len() >= 4 && pat[0] == '&');
        if c == entity_char(n + 1) {
            assert(!exists|k: int| 1 <= k <= n && k <= 5 && c == entity_char(k));
            assert(exists|k: int| 1 <= k <= n + 1 && k <= 5 && c == entity_char(k));
            assert(b == pat);
            assert((b + e).subrange(0, pat.len() as int) =~= pat);
            assert((b + e).skip(pat.len() as int) =~= e);
            assert(partly_decoded(n + 1, c) == rep);
        } else {
            assert(partly_decoded(n + 1, c) == b) by {
                if exists|k: int| 1 <= k <= n + 1 && k <= 5 && c == entity_char(k) {
                    let k = choose|k: int| 1 <= k <= n + 1 && k <= 5 && c == entity_char(k);
                    assert(k <= n);
                }
            }
            if lacks(b, '&') {
                lemma_replace_skips_plain(b, e, pat, rep);
            } else {
                assert(b.len() >= 4 && b[0] == '&' && b[1] != pat[1]);
                let w = b + e;
                if has_at(w, 0, pat) {
                    assert(w.subrange(0, pat.len() as int)[1] == w[1]);
                }
                assert(w.drop_first() =~= b.drop_first() + e);
                assert(lacks(b.drop_first(), '&'));
                lemma_replace_skips_plain(b.drop_first(), e, pat, rep);
                assert(replace_all(w, pat, rep) =~= b + replace_all(e, pat, rep));
            }
        }
        assert(partly_decoded_text(n + 1, s) == partly_decoded(n + 1, c) + partly_decoded_text(n + 1, rest));
    }
}

/// Escaping reads the same built from the front as from the back.
proof fn lemma_escape_front(s: Seq<char>)
    ensures
        escape_html_spec(s) == partly_decoded_text(0, s),
    decreases s.len(),
{
    if s.len() > 0 {
        let a = s.drop_last();
        lemma_escape_front(a);
        lemma_partly_decoded_push(0, a, s.last());
        assert(a.push(s.last()) =~= s);
        assert(partly_decoded(0, s.last()) == escape_char_spec(s.last()));
    }
}

/// Decoding steps work character by character.
proof fn lemma_partly_decoded_push(n: int, a: Seq<char>, x: char)
    ensures
        partly_decoded_text(n, a.push(x)) == partly_decoded_text(n, a) + partly_decoded(n, x),
    decreases a.len(),
{
    if a.len() == 0 {
        assert(a.push(x).drop_first() =~= Seq::<char>::empty());
        assert(a.push(x)[0] == x);
        assert(partly_decoded_text(n, Seq::<char>::empty()) == Seq::<char>::empty());
        assert(partly_decoded_text(n, a.push(x)) == partly_decoded(n, x) + partly_decoded_text(
            n,
            Seq::<char>::empty(),
        ));
        assert(partly_decoded_text(n, a) == Seq::<char>::empty());
        assert(partly_decoded_text(n, a.push(x)) =~= partly_decoded_text(n, a) + partly_decoded(n, x));
    } else {
        assert(a.push(x).drop_first() =~= a.drop_first().push(x));
        lemma_partly_decoded_push(n, a.drop_first(), x);
        assert(a.push(x)[0] == a[0]);
        assert(partly_decoded_text(n, a.push(x)) =~= partly_decoded_text(n, a) + partly_decoded(
            n,
            x,
        ));
    }
}

/// After all five steps every character reads as itself.
proof fn lemma_fully_decoded(s: Seq<char>)
    ensures
        partly_decoded_text(5, s) == s,
    decreases s.len(),
{
    if s.len() > 0 {
        let c = s[0];
        lemma_fully_decoded(s.drop_first());
        if exists|k: int| 1 <= k <= 5 && k <= 5 && c == entity_char(k) {
        } else {
            assert(c != entity_char(1) && c != entity_char(2) && c != entity_char(3) && c != entity_char(4)
                && c != entity_char(5));
        }
        assert(partly_decoded(5, c) == seq![c]);
        assert(partly_decoded_text(5, s) =~= s);
    }
}

/// Decoding the entities of escaped text gives the text back.
pub proof fn law_unescape_after_escape(s: Seq<char>)
    ensures
        unescape_html_spec(escape_html_spec(s)) == s,
{
    lemma_escape_front(s);
    lemma_decode_step(0, s);
    lemma_decode_step(1, s);
    lemma_decode_step(2, s);
    lemma_decode_step(3, s);
    lemma_decode_step(4, s);
    lemma_fully_decoded(s);
}

/// Escaped text holds no raw `<`, `>`, `"` or `'`, and is at least as long
/// as the text it escapes.
pub proof fn law_escape_html_is_inert(s: Seq<char>)
    ensures
        forall|i: int| 0 <= i < escape_html_spec(s).len() ==> !is_html_special(
            #[trigger] escape_html_spec(s)[i],
        ),
        escape_html_spec(s).len() >= s.len(),
    decreases s.len(),
{
    if s.len() > 0 {
        law_escape_html_is_inert(s.drop_last());
        let a = escape_html_spec(s.drop_last());
        let b = escape_char_spec(s.last());
        assert forall|i: int| 0 <= i < (a + b).len() implies !is_html_special(
            #[trigger] (a + b)[i],
        ) by {
            if i >= a.len() {
                assert((a + b)[i] == b[i - a.len()]);
            }
        }
    }
}

/// Text without special characters is left as it is.
pub proof fn law_escape_html_identity(s: Seq<char>)
    requires
        forall|i: int| 0 <= i < s.len() ==> !is_html_special(#[trigger] s[i]) && s[i] != '&',
    ensures
        escape_html_spec(s) == s,
    decreases s.len(),
{
    if s.len() > 0 {
        let t = s.drop_last();
        assert forall|i: int| 0 <= i < t.len() implies !is_html_special(#[trigger] t[i]) && t[i]
            != '&' by {
            assert(t[i] == s[i]);
        }
        law_escape_html_identity(t);
        assert(s.last() == s[s.len() - 1]);
        assert(escape_html_spec(s) =~= s);
    }
}

// ---------------------------------------------------------------------------
// Search and replace
// ---------------------------------------------------------------------------

/// `s` with every occurrence of `pat`, found left to right without overlap,
/// replaced by `rep` (`str::replace`).
pub open spec fn replace_all(s: Seq<char>, pat: Seq<char>, rep: Seq<char>) -> Seq<char>
    decreases s.len(),
{
    if s.len() == 0 {
        seq![]
    } else if pat.len() > 0 && has_at(s, 0, pat) {
        rep + replace_all(s.skip(pat.len() as int), pat, rep)
    } else {
        seq![s[0]] + replace_all(s.drop_first(), pat, rep)
    }
}

/// Replaces every occurrence of the non-empty `pat` in `v` by `rep`.
pub fn replace_chars(v: &Vec<char>, pat: &Vec<char>, rep: &Vec<char>) -> (out: Vec<char>)
    requires
        pat.len() > 0,
    ensures
        out@ == replace_all(v@, pat@, rep@),
{
    let mut out: Vec<char> = Vec::new();
    let mut i: usize = 0;
    assert(v@.skip(0) =~= v@);
    while i < v.len()
        invariant
            pat.len() > 0,
            i <= v.len(),
            out@ + replace_all(v@.skip(i as int), pat@, rep@) == replace_all(v@, pat@, rep@),
        decreases v.len() - i,
    {
        let rest = Ghost(v@.skip(i as int));
        if matches_at(v, i, pat) {
            proof {
                assert(rest@.subrange(0, pat@.len() as int) =~= v@.subrange(
                    i as int,
                    i + pat@.len(),
                ));
                assert(rest@.skip(pat@.len() as int) =~= v@.skip(i + pat@.len()));
            }
            append_chars(&mut out, rep);
            i += pat.len();
            assert(out@ + replace_all(v@.skip(i as int), pat@, rep@) =~= replace_all(
                v@,
                pat@,
                rep@,
            ));
        } else {
            proof {
                if pat@.len() <= rest@.len() {
                    assert(rest@.subrange(0, pat@.len() as int) =~= v@.subrange(
                        i as int,
                        i + pat@.len(),
                    ));
                }
                assert(rest@.drop_first() =~= v@.skip(i + 1));
                assert(rest@[0] == v@[i as int]);
            }
            out.push(v[i]);
            i += 1;
            assert(out@ + replace_all(v@.skip(i as int), pat@, rep@) =~= replace_all(
                v@,
                pat@,
                rep@,
            ));
        }
    }
    assert(v@.skip(v.len() as int) =~= Seq::<char>::empty());
    assert(out@ =~= replace_all(v@, pat@, rep@));
    out
}

/// A text with no occurrence of `pat` is left unchanged.
pub open spec fn no_occurrence(s: Seq<char>, pat: Seq<char>) -> bool {
    forall|i: int| 0 <= i <= s.len() - pat.len() ==> !#[trigger] has_at(s, i, pat)
}

/// Replacing a pattern that does not occur changes nothing.
pub proof fn lemma_replace_absent(s: Seq<char>, pat: Seq<char>, rep: Seq<char>)
    requires
        pat.len() > 0,
        no_occurrence(s, pat),
    ensures
        replace_all(s, pat, rep) == s,
    decreases s.len(),
{
    if s.len() > 0 {
        let t = s.drop_first();
        assert(!has_at(s, 0, pat)) by {
            if 0 <= s.len() - pat.len() {
                assert(!has_at(s, 0, pat));
            }
        }
        assert forall|i: int| 0 <= i <= t.len() - pat.len() implies !#[trigger] has_at(
            t,
            i,
            pat,
        ) by {
            assert(!has_at(s, i + 1, pat));
            if has_at(t, i, pat) {
                assert(s.subrange(i + 1, i + 1 + pat.len()) =~= t.subrange(i, i + pat.len()));
            }
        }
        lemma_replace_absent(t, pat, rep);
        assert(replace_all(s, pat, rep) =~= s);
    }
}

// ---------------------------------------------------------------------------
// Literal newline escapes
// ---------------------------------------------------------------------------

/// The two characters `\` and `n`.
pub open spec fn lit_n() -> Seq<char> {
    seq!['\\', 'n']
}

/// The two characters `\` and `r`.
pub open spec fn lit_r() -> Seq<char> {
    seq!['\\', 'r']
}

/// The four characters `\`, `r`, `\`, `n`.
pub open spec fn lit_rn() -> Seq<char> {
    seq!['\\', 'r', '\\', 'n']
}

/// A real line break.
pub open spec fn newline() -> Seq<char> {
    seq!['\n']
}

/// Literal `\r\n`, then `\n`, then `\r` escape sequences turned into real
/// line breaks, in that order.
pub open spec fn normalize_newlines_spec(s: Seq<char>) -> Seq<char> {
    replace_all(replace_all(replace_all(s, lit_rn(), newline()), lit_n(), newline()), lit_r(), newline())
}

/// Turns the literal escape sequences `\r\n`, `\n` and `\r` (backslash
/// followed by a letter) into real line breaks.
pub fn normalize_newlines(value: String) -> (out: String)
    ensures
        out@ == normalize_newlines_spec(value@),
{
    let v = chars_of(value.as_str());
    let nl: Vec<char> = vec!['\n'];
    let rn: Vec<char> = vec!['\\', 'r', '\\', 'n'];
    let n: Vec<char> = vec!['\\', 'n'];
    let r: Vec<char> = vec!['\\', 'r'];
    assert(nl@ =~= newline());
    assert(rn@ =~= lit_rn());
    assert(n@ =~= lit_n());
    assert(r@ =~= lit_r());
    let a = replace_chars(&v, &rn, &nl);
    let b = replace_chars(&a, &n, &nl);
    let c = replace_chars(&b, &r, &nl);
    string_from_chars(&c)
}

/// After replacing the two-character pattern `\x` by a line break, no `\x`
/// remains.
pub proof fn lemma_replace_backslash_pair_removes(s: Seq<char>, x: char)
    requires
        x != '\n',
    ensures
        no_occurrence(replace_all(s, seq!['\\', x], newline()), seq!['\\', x]),
        replace_all(s, seq!['\\', x], newline()).len() > 0 ==> (replace_all(s, seq!['\\', x], newline())[0] == '\n' || replace_all(s, seq!['\\', x], newline())[0] == s[0]),
    decreases s.len(),
{
    let p = seq!['\\', x];
    let out = replace_all(s, p, newline());
    if s.len() > 0 {
        if has_at(s, 0, p) {
            let t = s.skip(2);
            lemma_replace_backslash_pair_removes(t, x);
            let rt = replace_all(t, p, newline());
            assert(out == newline() + rt);
            assert forall|i: int| 0 <= i <= out.len() - p.len() implies !#[trigger] has_at(
                out,
                i,
                p,
            ) by {
                if i == 0 {
                    assert(out[0] == '\n');
                    assert(out.subrange(0, 2)[0] == '\n');
                } else {
                    assert(out.subrange(i, i + 2) =~= rt.subrange(i - 1, i + 1));
                    assert(!has_at(rt, i - 1, p));
                }
            }
        } else {
            let t = s.drop_first();
            lemma_replace_backslash_pair_removes(t, x);
            let rt = replace_all(t, p, newline());
            assert(out == seq![s[0]] + rt);
            assert forall|i: int| 0 <= i <= out.len() - p.len() implies !#[trigger] has_at(
                out,
                i,
                p,
            ) by {
                if i == 0 {
                    // out = s[0] + rt, and rt starts with '\n' or with s[1].
                    assert(out[0] == s[0]);
                    assert(out[1] == rt[0]);
                    if s[0] == '\\' && rt[0] == x {
                        assert(rt[0] == t[0]);
                        assert(s.subrange(0, 2) =~= p);
                    }
                    assert(out.subrange(0, 2)[0] == out[0]);
                    assert(out.subrange(0, 2)[1] == out[1]);
                } else {
                    assert(out.subrange(i, i + 2) =~= rt.subrange(i - 1, i + 1));
                    assert(!has_at(rt, i - 1, p));
                }
            }
        }
    }
}

/// A line break is not a backslash, so replacing `\y` in a text free of `\x`
/// keeps it free of `\x`.
pub proof fn lemma_replace_keeps_absent(s: Seq<char>, x: char, y: char)
    requires
        x != '\n',
        no_occurrence(s, seq!['\\', x]),
    ensures
        no_occurrence(replace_all(s, seq!['\\', y], newline()), seq!['\\', x]),
        replace_all(s, seq!['\\', y], newline()).len() > 0 ==> (replace_all(s, seq!['\\', y], newline())[0] == '\n' || replace_all(s, seq!['\\', y], newline())[0] == s[0]),
    decreases s.len(),
{
    let p = seq!['\\', x];
    let q = seq!['\\', y];
    let out = replace_all(s, q, newline());
    if s.len() > 0 {
        if has_at(s, 0, q) {
            let t = s.skip(2);
            assert forall|i: int| 0 <= i <= t.len() - p.len() implies !#[trigger] has_at(t, i, p) by {
                assert(!has_at(s, i + 2, p));
                if has_at(t, i, p) {
                    assert(s.subrange(i + 2, i + 4) =~= t.subrange(i, i + 2));
                }
            }
            lemma_replace_keeps_absent(t, x, y);
            let rt = replace_all(t, q, newline());
            assert(out == newline() + rt);
            assert forall|i: int| 0 <= i <= out.len() - p.len() implies !#[trigger] has_at(
                out,
                i,
                p,
            ) by {
                if i == 0 {
                    assert(out.subrange(0, 2)[0] == '\n');
                } else {
                    assert(out.subrange(i, i + 2) =~= rt.subrange(i - 1, i + 1));
                    assert(!has_at(rt, i - 1, p));
                }
            }
        } else {
            let t = s.drop_first();
            assert forall|i: int| 0 <= i <= t.len() - p.len() implies !#[trigger] has_at(t, i, p) by {
                assert(!has_at(s, i + 1, p));
                if has_at(t, i, p) {
                    assert(s.subrange(i + 1, i + 3) =~= t.subrange(i, i + 2));
                }
            }
            lemma_replace_keeps_absent(t, x, y);
            let rt = replace_all(t, q, newline());
            assert(out == seq![s[0]] + rt);
            assert forall|i: int| 0 <= i <= out.len() - p.len() implies !#[trigger] has_at(
                out,
                i,
                p,
            ) by {
                if i == 0 {
                    assert(out[0] == s[0]);
                    assert(out[1] == rt[0]);
                    if s[0] == '\\' && rt[0] == x {
                        assert(rt[0] == t[0]);
                        assert(s.subrange(0, 2) =~= p);
                        assert(!has_at(s, 0, p));
                    }
                    assert(out.subrange(0, 2)[0] == out[0]);
                    assert(out.subrange(0, 2)[1] == out[1]);
                } else {
                    assert(out.subrange(i, i + 2) =~= rt.subrange(i - 1, i + 1));
                    assert(!has_at(rt, i - 1, p));
                }
            }
        }
    }
}

/// Normalised text holds no literal `\n` or `\r` escape sequence.
pub proof fn law_normalize_newlines_clean(s: Seq<char>)
    ensures
        no_occurrence(normalize_newlines_spec(s), lit_n()),
        no_occurrence(normalize_newlines_spec(s), lit_r()),
{
    let a = replace_all(s, lit_rn(), newline());
    let b = replace_all(a, lit_n(), newline());
    lemma_replace_backslash_pair_removes(a, 'n');
    lemma_replace_keeps_absent(b, 'n', 'r');
    lemma_replace_backslash_pair_removes(b, 'r');
}

/// A four-character pattern cannot occur where its two-character prefix
/// does not.
proof fn lemma_no_rn_when_no_r(s: Seq<char>)
    requires
        no_occurrence(s, lit_r()),
    ensures
        no_occurrence(s, lit_rn()),
{
    assert forall|i: int| 0 <= i <= s.len() - lit_rn().len() implies !#[trigger] has_at(
        s,
        i,
        lit_rn(),
    ) by {
        assert(!has_at(s, i, lit_r()));
        if has_at(s, i, lit_rn()) {
            assert(s[i] == s.subrange(i, i + 4)[0]);
            assert(s[i + 1] == s.subrange(i, i + 4)[1]);
            assert(s.subrange(i, i + 2) =~= lit_r());
        }
    }
}

/// Normalising twice is normalising once.
pub proof fn law_normalize_newlines_idempotent(s: Seq<char>)
    ensures
        normalize_newlines_spec(normalize_newlines_spec(s)) == normalize_newlines_spec(s),
{
    let t = normalize_newlines_spec(s);
    law_normalize_newlines_clean(s);
    lemma_no_rn_when_no_r(t);
    lemma_replace_absent(t, lit_rn(), newline());
    lemma_replace_absent(t, lit_n(), newline());
    lemma_replace_absent(t, lit_r(), newline());
}

// ---------------------------------------------------------------------------
// Accent folding
// ---------------------------------------------------------------------------

/// The unaccented letter for an accented Latin letter; other characters
/// are kept.
pub open spec fn fold_accent_spec(c: char) -> char {
    if c == 'à' || c == 'á' || c == 'â' || c == 'ã' || c == 'ä' || c == 'å' {
        'a'
    } else if c == 'À' || c == 'Á' || c == 'Â' || c == 'Ã' || c == 'Ä' || c == 'Å' {
        'A'
    } else if c == 'è' || c == 'é' || c == 'ê' || c == 'ë' {
        'e'
    } else if c == 'È' || c == 'É' || c == 'Ê' || c == 'Ë' {
        'E'
    } else if c == 'ì' || c == 'í' || c == 'î' || c == 'ï' {
        'i'
    } else if c == 'Ì' || c == 'Í' || c == 'Î' || c == 'Ï' {
        'I'
    } else if c == 'ò' || c == 'ó' || c == 'ô' || c == 'õ' || c == 'ö' || c == 'ø' {
        'o'
    } else if c == 'Ò' || c == 'Ó' || c == 'Ô' || c == 'Õ' || c == 'Ö' || c == 'Ø' {
        'O'
    } else if c == 'ù' || c == 'ú' || c == 'û' || c == 'ü' {
        'u'
    } else if c == 'Ù' || c == 'Ú' || c == 'Û' || c == 'Ü' {
        'U'
    } else if c == 'ñ' {
        'n'
    } else if c == 'Ñ' {
        'N'
    } else if c == 'ç' {
        'c'
    } else if c == 'Ç' {
        'C'
    } else if c == 'ý' || c == 'ÿ' {
        'y'
    } else if c == 'Ý' || c == 'Ÿ' {
        'Y'
    } else {
        c
    }
}

/// Folds the accent of one character.
pub fn fold_accent(c: char) -> (r: char)
    ensures
        r == fold_accent_spec(c),
{
    if c == 'à' || c == 'á' || c == 'â' || c == 'ã' || c == 'ä' || c == 'å' {
        'a'
    } else if c == 'À' || c == 'Á' || c == 'Â' || c == 'Ã' || c == 'Ä' || c == 'Å' {
        'A'
    } else if c == 'è' || c == 'é' || c == 'ê' || c == 'ë' {
        'e'
    } else if c == 'È' || c == 'É' || c == 'Ê' || c == 'Ë' {
        'E'
    } else if c == 'ì' || c == 'í' || c == 'î' || c == 'ï' {
        'i'
    } else if c == 'Ì' || c == 'Í' || c == 'Î' || c == 'Ï' {
        'I'
    } else if c == 'ò' || c == 'ó' || c == 'ô' || c == 'õ' || c == 'ö' || c == 'ø' {
        'o'
    } else if c == 'Ò' || c == 'Ó' || c == 'Ô' || c == 'Õ' || c == 'Ö' || c == 'Ø' {
        'O'
    } else if c == 'ù' || c == 'ú' || c == 'û' || c == 'ü' {
        'u'
    } else if c == 'Ù' || c == 'Ú' || c == 'Û' || c == 'Ü' {
        'U'
    } else if c == 'ñ' {
        'n'
    } else if c == 'Ñ' {
        'N'
    } else if c == 'ç' {
        'c'
    } else if c == 'Ç' {
        'C'
    } else if c == 'ý' || c == 'ÿ' {
        'y'
    } else if c == 'Ý' || c == 'Ÿ' {
        'Y'
    } else {
        c
    }
}

/// Replaces accented Latin letters and cedillas by their plain letters, so
/// that searches match with or without accents ("coração" becomes "coracao").
pub fn normalize_accents(input: &str) -> (out: String)
    ensures
        out@ == input@.map_values(|c: char| fold_accent_spec(c)),
{
    let v = chars_of(input);
    let mut w: Vec<char> = Vec::new();
    let mut i: usize = 0;
    while i < v.len()
        invariant
            i <= v.len(),
            v@ == input@,
            w@ == v@.take(i as int).map_values(|c: char| fold_accent_spec(c)),
        decreases v.len() - i,
    {
        w.push(fold_accent(v[i]));
        assert(v@.take(i + 1).map_values(|c: char| fold_accent_spec(c)) =~= v@.take(
            i as int,
        ).map_values(|c: char| fold_accent_spec(c)).push(fold_accent_spec(v@[i as int])));
        i += 1;
    }
    assert(v@.take(v.len() as int) =~= v@);
    string_from_chars(&w)
}

/// Folding accents keeps the length, and folding twice is folding once.
pub proof fn law_normalize_accents_idempotent(s: Seq<char>)
    ensures
        s.map_values(|c: char| fold_accent_spec(c)).len() == s.len(),
        s.map_values(|c: char| fold_accent_spec(c)).map_values(|c: char| fold_accent_spec(c))
            == s.map_values(|c: char| fold_accent_spec(c)),
{
    let f = |c: char| fold_accent_spec(c);
    assert(s.map_values(f).map_values(f) =~= s.map_values(f));
}

/// Folding accents never turns whitespace into text or text into
/// whitespace.
pub proof fn lemma_fold_keeps_whitespace(c: char)
    ensures
        is_ws(fold_accent_spec(c)) == is_ws(c),
        fold_accent_spec(fold_accent_spec(c)) == fold_accent_spec(c),
{
}

/// The whitespace prefix of folded text is as long as the text's.
proof fn lemma_fold_ws_prefix(s: Seq<char>)
    ensures
        ws_prefix_len(s.map_values(|c: char| fold_accent_spec(c))) == ws_prefix_len(s),
    decreases s.len(),
{
    let f = |c: char| fold_accent_spec(c);
    if s.len() > 0 {
        lemma_fold_keeps_whitespace(s[0]);
        assert(s.map_values(f)[0] == f(s[0]));
        assert(s.map_values(f).drop_first() =~= s.drop_first().map_values(f));
        lemma_fold_ws_prefix(s.drop_first());
    }
}

/// The whitespace suffix of folded text is as long as the text's.
proof fn lemma_fold_ws_suffix(s: Seq<char>)
    ensures
        ws_suffix_len(s.map_values(|c: char| fold_accent_spec(c))) == ws_suffix_len(s),
    decreases s.len(),
{
    let f = |c: char| fold_accent_spec(c);
    if s.len() > 0 {
        lemma_fold_keeps_whitespace(s.last());
        assert(s.map_values(f).last() == f(s.last()));
        assert(s.map_values(f).drop_last() =~= s.drop_last().map_values(f));
        lemma_fold_ws_suffix(s.drop_last());
    }
}

/// Folding accents and trimming can be done in either order.
pub proof fn lemma_trim_of_folded(s: Seq<char>)
    ensures
        trim(s.map_values(|c: char| fold_accent_spec(c))) == trim(s).map_values(
            |c: char| fold_accent_spec(c),
        ),
{
    let f = |c: char| fold_accent_spec(c);
    lemma_fold_ws_prefix(s);
    lemma_ws_prefix_bounds(s);
    let ts = trim_start(s);
    assert(trim_start(s.map_values(f)) =~= ts.map_values(f));
    lemma_fold_ws_suffix(ts);
    lemma_ws_suffix_bounds(ts);
    assert(trim(s.map_values(f)) =~= trim(s).map_values(f));
}

// ---------------------------------------------------------------------------
// Lines
// ---------------------------------------------------------------------------

/// Position of the first `'\n'` in `s`, or -1 when there is none.
pub open spec fn newline_index(s: Seq<char>) -> int
    decreases s.len(),
{
    if s.len() == 0 {
        -1
    } else if s[0] == '\n' {
        0
    } else {
        let r = newline_index(s.drop_first());
        if r < 0 {
            -1
        } else {
            r + 1
        }
    }
}

/// A newline found is inside `s` and is a `'\n'`.
pub proof fn lemma_newline_index_bounds(s: Seq<char>)
    ensures
        newline_index(s) < s.len(),
        newline_index(s) >= 0 ==> s[newline_index(s)] == '\n',
    decreases s.len(),
{
    if s.len() > 0 && s[0] != '\n' {
        let t = s.drop_first();
        lemma_newline_index_bounds(t);
        if newline_index(t) >= 0 {
            assert(s[newline_index(t) + 1] == t[newline_index(t)]);
        }
    }
}

/// The first `'\n'` is at `i` when `s[i]` is one and none comes before.
pub proof fn lemma_newline_found(s: Seq<char>, i: int)
    requires
        0 <= i < s.len(),
        s[i] == '\n',
        forall|k: int| 0 <= k < i ==> s[k] != '\n',
    ensures
        newline_index(s) == i,
    decreases i,
{
    if i > 0 {
        let t = s.drop_first();
        assert forall|k: int| 0 <= k < i - 1 implies t[k] != '\n' by {
            assert(t[k] == s[k + 1]);
        }
        assert(t[i - 1] == s[i]);
        lemma_newline_found(t, i - 1);
    }
}

/// Without a `'\n'` there is no newline index.
pub proof fn lemma_newline_absent(s: Seq<char>)
    requires
        forall|k: int| 0 <= k < s.len() ==> s[k] != '\n',
    ensures
        newline_index(s) < 0,
    decreases s.len(),
{
    if s.len() > 0 {
        let t = s.drop_first();
        assert forall|k: int| 0 <= k < t.len() implies t[k] != '\n' by {
            assert(t[k] == s[k + 1]);
        }
        lemma_newline_absent(t);
    }
}

/// A line ended by `"\r\n"` loses its `'\r'`.
pub open spec fn strip_cr(line: Seq<char>) -> Seq<char> {
    if line.len() > 0 && line.last() == '\r' {
        line.drop_last()
    } else {
        line
    }
}

/// The lines of `s` as `str::lines` yields them: split at `'\n'`, a `'\r'`
/// before the `'\n'` removed, and no empty line after a final `'\n'`.
pub open spec fn lines_spec(s: Seq<char>) -> Seq<Seq<char>>
    decreases s.len(),
{
    if s.len() == 0 {
        seq![]
    } else {
        let k = newline_index(s);
        if k < 0 {
            seq![s]
        } else {
            proof {
                lemma_newline_index_bounds(s);
            }
            seq![strip_cr(s.take(k))] + lines_spec(s.skip(k + 1))
        }
    }
}

/// Lines joined with `'\n'` between them.
pub open spec fn join_lines(ls: Seq<Seq<char>>) -> Seq<char>
    decreases ls.len(),
{
    if ls.len() == 0 {
        seq![]
    } else if ls.len() == 1 {
        ls[0]
    } else {
        join_lines(ls.drop_last()) + seq!['\n'] + ls.last()
    }
}


/// The texts of a list of strings.
pub open spec fn lines_view(v: Seq<String>) -> Seq<Seq<char>> {
    v.map_values(|s: String| s@)
}

/// Splits a text into its lines as `str::lines` does.
pub fn split_lines(s: &str) -> (r: Vec<String>)
    ensures
        lines_view(r@) == lines_spec(s@),
{
    let v = chars_of(s);
    let n = v.len();
    let mut out: Vec<String> = Vec::new();
    let mut start: usize = 0;
    assert(v@.skip(0) =~= v@);
    while start < n
        invariant
            start <= n == v.len(),
            lines_spec(v@) == lines_view(out@) + lines_spec(v@.skip(start as int)),
        decreases n - start,
    {
        let mut e = start;
        while e < n && v[e] != '\n'
            invariant
                start <= e <= n == v.len(),
                forall|k: int| start <= k < e ==> v@[k] != '\n',
            decreases n - e,
        {
            e += 1;
        }
        let line_end = if e < n && e > start && v[e - 1] == '\r' {
            e - 1
        } else {
            e
        };
        let next = if e < n {
            e + 1
        } else {
            n
        };
        let line = string_from_range(&v, start, line_end);
        proof {
            let t = v@.skip(start as int);
            let l = v@.subrange(start as int, line_end as int);
            if e < n {
                assert forall|k: int| 0 <= k < e - start implies t[k] != '\n' by {
                    assert(t[k] == v@[start + k]);
                }
                assert(t[e - start] == v@[e as int]);
                lemma_newline_found(t, e - start);
                assert(t.take(e - start) =~= v@.subrange(start as int, e as int));
                assert(strip_cr(t.take(e - start)) =~= l);
                assert(t.skip(e - start + 1) =~= v@.skip(next as int));
            } else {
                assert forall|k: int| 0 <= k < t.len() implies t[k] != '\n' by {
                    assert(t[k] == v@[start + k]);
                }
                lemma_newline_absent(t);
                assert(t =~= l);
                assert(v@.skip(next as int) =~= Seq::<char>::empty());
            }
            assert(lines_spec(t) == seq![l] + lines_spec(v@.skip(next as int)));
        }
        let ghost before = out@;
        out.push(line);
        proof {
            assert(lines_view(out@) =~= lines_view(before).push(line@));
            assert(lines_view(before) + lines_spec(v@.skip(start as int)) =~= lines_view(out@)
                + lines_spec(v@.skip(next as int)));
        }
        start = next;
    }
    proof {
        assert(v@.skip(n as int) =~= Seq::<char>::empty());
        assert(lines_view(out@) + Seq::<Seq<char>>::empty() =~= lines_view(out@));
    }
    out
}

/// Joins texts with `'\n'` between them (`join("\n")`).
pub fn join_newlines(parts: &Vec<String>) -> (r: String)
    ensures
        r@ == join_lines(lines_view(parts@)),
{
    let mut out: Vec<char> = Vec::new();
    let mut i: usize = 0;
    while i < parts.len()
        invariant
            i <= parts.len(),
            out@ == join_lines(lines_view(parts@.take(i as int))),
        decreases parts.len() - i,
    {
        if i > 0 {
            out.push('\n');
        }
        append_str(&mut out, parts[i].as_str());
        proof {
            let t = lines_view(parts@.take(i + 1));
            assert(t.drop_last() =~= lines_view(parts@.take(i as int)));
            assert(t.last() == parts@[i as int]@);
            if i == 0 {
                assert(t.len() == 1);
            }
        }
        i += 1;
    }
    assert(parts@.take(parts.len() as int) =~= parts@);
    string_from_chars(&out)
}


/// No `'\n'` comes before the first newline.
pub proof fn lemma_newline_index_first(s: Seq<char>)
    ensures
        newline_index(s) >= 0 ==> forall|j: int| 0 <= j < newline_index(s) ==> s[j] != '\n',
    decreases s.len(),
{
    if s.len() > 0 && s[0] != '\n' {
        let t = s.drop_first();
        lemma_newline_index_first(t);
        lemma_newline_index_bounds(t);
        if newline_index(t) >= 0 {
            assert forall|j: int| 0 <= j < newline_index(s) implies s[j] != '\n' by {
                if j > 0 {
                    assert(s[j] == t[j - 1]);
                }
            }
        }
    }
}

/// Whether `c` does not occur in `s`.
pub open spec fn lacks(s: Seq<char>, c: char) -> bool {
    forall|i: int| 0 <= i < s.len() ==> s[i] != c
}

/// Lines hold no `'\n'`; and no `'\r'` when the text has none.
pub proof fn lemma_lines_clean(s: Seq<char>)
    ensures
        forall|i: int| 0 <= i < lines_spec(s).len() ==> lacks(#[trigger] lines_spec(s)[i], '\n'),
        lacks(s, '\r') ==> forall|i: int| 0 <= i < lines_spec(s).len() ==> lacks(
            #[trigger] lines_spec(s)[i],
            '\r',
        ),
    decreases s.len(),
{
    if s.len() > 0 {
        let k = newline_index(s);
        lemma_newline_index_bounds(s);
        if k < 0 {
            lemma_newline_index_absent_means_clean(s);
            assert(lines_spec(s) == seq![s]);
        } else {
            lemma_newline_index_first(s);
            let rest = s.skip(k + 1);
            lemma_lines_clean(rest);
            let x = strip_cr(s.take(k));
            assert(lines_spec(s) == seq![x] + lines_spec(rest));
            assert(lacks(x, '\n')) by {
                assert forall|i: int| 0 <= i < x.len() implies x[i] != '\n' by {
                    assert(x[i] == s[i]);
                }
            }
            if lacks(s, '\r') {
                assert(lacks(x, '\r')) by {
                    assert forall|i: int| 0 <= i < x.len() implies x[i] != '\r' by {
                        assert(x[i] == s[i]);
                    }
                }
                assert(lacks(rest, '\r')) by {
                    assert forall|i: int| 0 <= i < rest.len() implies rest[i] != '\r' by {
                        assert(rest[i] == s[i + k + 1]);
                    }
                }
            }
            assert forall|i: int| 0 <= i < lines_spec(s).len() implies lacks(
                #[trigger] lines_spec(s)[i],
                '\n',
            ) by {
                if i > 0 {
                    assert(lines_spec(s)[i] == lines_spec(rest)[i - 1]);
                }
            }
            if lacks(s, '\r') {
                assert forall|i: int| 0 <= i < lines_spec(s).len() implies lacks(
                    #[trigger] lines_spec(s)[i],
                    '\r',
                ) by {
                    if i > 0 {
                        assert(lines_spec(s)[i] == lines_spec(rest)[i - 1]);
                    }
                }
            }
        }
    }
}

/// Without a newline index the text has no `'\n'`.
proof fn lemma_newline_index_absent_means_clean(s: Seq<char>)
    requires
        newline_index(s) < 0,
    ensures
        lacks(s, '\n'),
    decreases s.len(),
{
    if s.len() > 0 {
        let t = s.drop_first();
        lemma_newline_index_absent_means_clean(t);
        assert forall|i: int| 0 <= i < s.len() implies s[i] != '\n' by {
            if i > 0 {
                assert(s[i] == t[i - 1]);
            }
        }
    }
}

/// Whether `s` ends with two `'\n'`.
pub open spec fn ends_with_blank_line(s: Seq<char>) -> bool {
    s.len() >= 2 && s[s.len() - 1] == '\n' && s[s.len() - 2] == '\n'
}

/// The last line of a text without `'\r'` that does not end with two
/// newlines is not empty (unless the text is a lone newline).
pub proof fn lemma_last_line_not_empty(s: Seq<char>)
    requires
        s.len() > 0,
        s != seq!['\n'],
        lacks(s, '\r'),
        !ends_with_blank_line(s),
    ensures
        lines_spec(s).len() > 0,
        lines_spec(s).last().len() > 0,
    decreases s.len(),
{
    let k = newline_index(s);
    lemma_newline_index_bounds(s);
    if k < 0 {
        assert(lines_spec(s) == seq![s]);
    } else {
        let rest = s.skip(k + 1);
        let x = strip_cr(s.take(k));
        assert(lines_spec(s) == seq![x] + lines_spec(rest));
        if rest.len() == 0 {
            assert(lines_spec(rest).len() == 0);
            assert(k == s.len() - 1);
            if k == 0 {
                assert(s =~= seq!['\n']);
            }
            assert(s.take(k).last() == s[k - 1]);
            assert(x.len() > 0);
            assert((seq![x] + lines_spec(rest)).last() == x);
        } else {
            if rest =~= seq!['\n'] {
                assert(s[s.len() - 1] == rest[0]);
                assert(ends_with_blank_line(s));
            }
            assert(lacks(rest, '\r')) by {
                assert forall|i: int| 0 <= i < rest.len() implies rest[i] != '\r' by {
                    assert(rest[i] == s[i + k + 1]);
                }
            }
            if rest.len() >= 2 {
                assert(rest[rest.len() - 1] == s[s.len() - 1]);
                assert(rest[rest.len() - 2] == s[s.len() - 2]);
            }
            lemma_last_line_not_empty(rest);
            assert((seq![x] + lines_spec(rest)).last() == lines_spec(rest).last());
        }
    }
}

/// Joining `m0` before other lines puts a `'\n'` after it.
pub proof fn lemma_join_front(m0: Seq<char>, ms: Seq<Seq<char>>)
    requires
        ms.len() > 0,
    ensures
        join_lines(seq![m0] + ms) == m0 + seq!['\n'] + join_lines(ms),
    decreases ms.len(),
{
    let all = seq![m0] + ms;
    assert(all.drop_last() =~= seq![m0] + ms.drop_last());
    assert(all.last() == ms.last());
    if ms.len() == 1 {
        assert(seq![m0] + ms.drop_last() =~= seq![m0]);
        assert(seq![m0].len() == 1 && seq![m0][0] == m0);
        assert(join_lines(seq![m0]) == m0);
        assert(join_lines(ms) == ms[0]);
        assert(ms.last() == ms[0]);
        assert(join_lines(all) == join_lines(all.drop_last()) + seq!['\n'] + all.last());
        assert(join_lines(all) =~= m0 + seq!['\n'] + join_lines(ms));
    } else {
        lemma_join_front(m0, ms.drop_last());
        assert(join_lines(all) =~= m0 + seq!['\n'] + join_lines(ms));
    }
}

/// `ls` without its last line when that line is empty.
pub open spec fn drop_empty_last(ls: Seq<Seq<char>>) -> Seq<Seq<char>> {
    if ls.len() > 0 && ls.last().len() == 0 {
        ls.drop_last()
    } else {
        ls
    }
}

/// Splitting joined lines gives them back, but for an empty last line,
/// when no line holds `'\n'` or `'\r'`.
pub proof fn lemma_lines_of_join(ms: Seq<Seq<char>>)
    requires
        forall|i: int| 0 <= i < ms.len() ==> lacks(#[trigger] ms[i], '\n') && lacks(ms[i], '\r'),
    ensures
        lines_spec(join_lines(ms)) == drop_empty_last(ms),
    decreases ms.len(),
{
    if ms.len() == 0 {
        assert(lines_spec(join_lines(ms)) =~= drop_empty_last(ms));
    } else if ms.len() == 1 {
        let m = ms[0];
        assert(join_lines(ms) == m);
        assert(lacks(ms[0], '\n'));
        if m.len() == 0 {
            assert(drop_empty_last(ms) =~= Seq::<Seq<char>>::empty());
        } else {
            lemma_newline_absent(m);
            assert(lines_spec(m) == seq![m]);
            assert(drop_empty_last(ms) =~= seq![m]);
        }
    } else {
        let m0 = ms[0];
        let rest = ms.drop_first();
        assert(ms =~= seq![m0] + rest);
        assert forall|i: int| 0 <= i < rest.len() implies lacks(#[trigger] rest[i], '\n') && lacks(
            rest[i],
            '\r',
        ) by {
            assert(rest[i] == ms[i + 1]);
        }
        lemma_lines_of_join(rest);
        lemma_join_front(m0, rest);
        assert(lacks(ms[0], '\n') && lacks(ms[0], '\r'));
        let j = m0 + seq!['\n'] + join_lines(rest);
        assert forall|k: int| 0 <= k < m0.len() implies j[k] != '\n' by {
            assert(j[k] == m0[k]);
        }
        assert(j[m0.len() as int] == '\n');
        lemma_newline_found(j, m0.len() as int);
        assert(j.take(m0.len() as int) =~= m0);
        assert(j.skip(m0.len() as int + 1) =~= join_lines(rest));
        if m0.len() > 0 {
            assert(m0.last() == m0[m0.len() - 1]);
        }
        assert(strip_cr(m0) == m0);
        assert(lines_spec(j) == seq![m0] + lines_spec(join_lines(rest)));
        assert(ms.last() == rest.last());
        if rest.last().len() == 0 {
            assert(ms.drop_last() =~= seq![m0] + rest.drop_last());
        }
        assert(lines_spec(join_lines(ms)) =~= drop_empty_last(ms));
    }
}
} // verus!
