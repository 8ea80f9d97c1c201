//! Configuration: `.env` files with `//` comments, SMTP settings read from
//! the environment, and the transactional emails sent with them.

use vstd::prelude::*;
use crate::text::{
    join_lines, lemma_newline_absent, lemma_newline_found, lines_spec, strip_cr, lacks,
    lemma_lines_clean, lemma_lines_of_join, lemma_last_line_not_empty, drop_empty_last,
    ends_with_blank_line,
    append_str, chars_of, has_at, keep_non_blank, lowercase, matches_at, non_blank, non_blank_or,
    opt_view, or_default_text,
    skip_ws_forward, str_eq, string_from_chars, to_lowercase, ws_prefix_len,
};
use crate::numbers::{
    parse_i64, parse_i64_spec, parse_u16, parse_u16_spec, push_signed_decimal, signed_decimal_spec,
};

verus! {

// ---------------------------------------------------------------------------
// `.env` comments
// ---------------------------------------------------------------------------

/// A line whose text starts with `//` after its indentation gets `#` in
/// place of the `//`; any other line is kept.
pub open spec fn comment_line(line: Seq<char>) -> Seq<char> {
    let p = ws_prefix_len(line) as int;
    if has_at(line, p, "//"@) {
        line.take(p) + seq!['#'] + line.skip(p + 2)
    } else {
        line
    }
}

/// The whole file with every `//` comment line made a `#` comment line.
pub open spec fn normalize_comments_spec(s: Seq<char>) -> Seq<char> {
    join_lines(lines_spec(s).map_values(|l: Seq<char>| comment_line(l)))
}

/// Appends `comment_line(v[a..b])` to `out`.
fn push_comment_line(out: &mut Vec<char>, v: &Vec<char>, a: usize, b: usize)
    requires
        a <= b <= v.len(),
    ensures
        final(out)@ == old(out)@ + comment_line(v@.subrange(a as int, b as int)),
{
    let line = Ghost(v@.subrange(a as int, b as int));
    let p = skip_ws_forward(v, a, b);
    let slashes: Vec<char> = vec!['/', '/'];
    let is_comment = b - p >= 2 && matches_at(v, p, &slashes);
    proof {
        let q = (p - a) as int;
        assert(q == ws_prefix_len(line@));
        if p + 2 <= b {
            assert(line@.subrange(q, q + 2) =~= v@.subrange(p as int, p + 2));
            assert(slashes@ =~= "//"@) by {
                reveal_strlit("//");
            }
        }
        assert("//"@.len() == 2) by {
            reveal_strlit("//");
        }
    }
    let ghost start = out@;
    let mut i = a;
    let skip_from = if is_comment {
        p
    } else {
        b
    };
    while i < skip_from
        invariant
            a <= i <= skip_from <= b <= v.len(),
            out@ == start + v@.subrange(a as int, i as int),
        decreases skip_from - i,
    {
        out.push(v[i]);
        assert(v@.subrange(a as int, i + 1) =~= v@.subrange(a as int, i as int).push(v@[i as int]));
        i += 1;
    }
    if is_comment {
        out.push('#');
        i = p + 2;
        let ghost mid = out@;
        while i < b
            invariant
                p + 2 <= i <= b <= v.len(),
                out@ == mid + v@.subrange(p + 2, i as int),
            decreases b - i,
        {
            out.push(v[i]);
            assert(v@.subrange(p + 2, i + 1) =~= v@.subrange(p + 2, i as int).push(v@[i as int]));
            i += 1;
        }
        proof {
            let q = (p - a) as int;
            assert(line@.take(q) =~= v@.subrange(a as int, p as int));
            assert(line@.skip(q + 2) =~= v@.subrange(p + 2, b as int));
        }
    }
    proof {
        assert(line@ =~= v@.subrange(a as int, b as int));
    }
}

/// `.env` loaders accept only `#` comments: every line whose text starts
/// with `//` after its indentation gets `#` in place of the `//`, keeping
/// the indentation; the lines are joined again with `'\n'`.
pub fn normalize_comments(contents: &str) -> (out: String)
    ensures
        out@ == normalize_comments_spec(contents@),
{
    let v = chars_of(contents);
    let n = v.len();
    let mut out: Vec<char> = Vec::new();
    let mut start: usize = 0;
    let ghost mut done: Seq<Seq<char>> = seq![];
    assert(v@.skip(0) =~= v@);
    while start < n
        invariant
            start <= n == v.len(),
            lines_spec(v@) == done + lines_spec(v@.skip(start as int)),
            done.len() == 0 <==> start == 0,
            out@ == join_lines(done.map_values(|l: Seq<char>| comment_line(l))),
        decreases n - start,
    {
        let mut e = start;
        while e < n && v[e] != '\n'
            invariant
                start <= e <= n == v.len(),
                forall|k: int| start <= k < e ==> v@[k] != '\n',
            decreases n - e,
        {
            e += 1;
        }
        let line_end = if e < n && e > start && v[e - 1] == '\r' {
            e - 1
        } else {
            e
        };
        let ghost before = out@;
        if start > 0 {
            out.push('\n');
        }
        push_comment_line(&mut out, &v, start, line_end);
        let next = if e < n {
            e + 1
        } else {
            n
        };
        proof {
            let t = v@.skip(start as int);
            let line = v@.subrange(start as int, line_end as int);
            assert(t.len() > 0);
            if e < n {
                assert forall|k: int| 0 <= k < e - start implies t[k] != '\n' by {
                    assert(t[k] == v@[start + k]);
                }
                assert(t[e - start] == v@[e as int]);
                lemma_newline_found(t, e - start);
                assert(t.take(e - start) =~= v@.subrange(start as int, e as int));
                assert(strip_cr(t.take(e - start)) =~= line);
                assert(t.skip(e - start + 1) =~= v@.skip(next as int));
            } else {
                assert forall|k: int| 0 <= k < t.len() implies t[k] != '\n' by {
                    assert(t[k] == v@[start + k]);
                }
                lemma_newline_absent(t);
                assert(t =~= line);
                assert(v@.skip(next as int) =~= Seq::<char>::empty());
            }
            assert(lines_spec(t) == seq![line] + lines_spec(v@.skip(next as int)));
            let f = |l: Seq<char>| comment_line(l);
            let nd = done.push(line);
            assert(nd.map_values(f).drop_last() =~= done.map_values(f));
            assert(nd.map_values(f).last() == comment_line(line));
            assert(done + lines_spec(t) =~= nd + lines_spec(v@.skip(next as int)));
            done = nd;
        }
        start = next;
    }
    proof {
        assert(v@.skip(n as int) =~= Seq::<char>::empty());
        assert(done + Seq::<Seq<char>>::empty() =~= done);
    }
    string_from_chars(&out)
}

/// A `//` comment line becomes a `#` comment line, and a line that has
/// been through the rewrite is left as it is by a second one.
pub proof fn law_comment_line_idempotent(line: Seq<char>)
    ensures
        comment_line(comment_line(line)) == comment_line(line),
        !has_at(comment_line(line), ws_prefix_len(comment_line(line)) as int, "//"@),
{
    let p = ws_prefix_len(line) as int;
    crate::text::lemma_ws_prefix_bounds(line);
    assert("//"@ =~= seq!['/', '/']) by {
        reveal_strlit("//");
    }
    if has_at(line, p, "//"@) {
        let c = line.take(p) + seq!['#'] + line.skip(p + 2);
        assert forall|j: int| 0 <= j < p implies crate::text::is_ws(#[trigger] c[j]) by {
            assert(c[j] == line[j]);
        }
        assert(c[p] == '#');
        crate::text::lemma_ws_prefix_len(c, p);
        if has_at(c, p, "//"@) {
            assert(c.subrange(p, p + 2)[0] == c[p]);
        }
    }
}


// ---------------------------------------------------------------------------
// SMTP settings
// ---------------------------------------------------------------------------

/// How the SMTP connection is secured.
#[derive(Clone, Copy, PartialEq, Eq, Structural, Debug)]
pub enum SmtpSecureMode {
    /// No encryption (a local test server).
    Plain,
    /// Plain text, then STARTTLS (port 587).
    StartTls,
    /// TLS from the start (port 465).
    Tls,
}

/// The mode named by an `SMTP_SECURE` value already in lowercase.
pub open spec fn secure_mode_spec(lower: Option<Seq<char>>) -> SmtpSecureMode {
    match lower {
        Some(l) => if l == "true"@ || l == "1"@ || l == "yes"@ || l == "tls"@ || l == "ssl"@ {
            SmtpSecureMode::Tls
        } else if l == "starttls"@ {
            SmtpSecureMode::StartTls
        } else {
            SmtpSecureMode::Plain
        },
        None => SmtpSecureMode::Plain,
    }
}

/// The mode for an `SMTP_SECURE` value in lowercase: `true`, `1`, `yes`,
/// `tls` and `ssl` mean TLS, `starttls` means STARTTLS, anything else (or
/// no value) means none.
pub fn secure_mode_of(lower: Option<&str>) -> (m: SmtpSecureMode)
    ensures
        m == secure_mode_spec(match lower {
            Some(l) => Some(l@),
            None => None,
        }),
{
    match lower {
        Some(l) => {
            if str_eq(l, "true") || str_eq(l, "1") || str_eq(l, "yes") || str_eq(l, "tls") || str_eq(
                l,
                "ssl",
            ) {
                SmtpSecureMode::Tls
            } else if str_eq(l, "starttls") {
                SmtpSecureMode::StartTls
            } else {
                SmtpSecureMode::Plain
            }
        },
        None => SmtpSecureMode::Plain,
    }
}

/// Reads `SMTP_SECURE`, in any letter case.
pub fn parse_smtp_secure(value: Option<String>) -> (m: SmtpSecureMode)
    ensures
        m == secure_mode_spec(match value {
            Some(v) => Some(lowercase(v@)),
            None => None,
        }),
        value matches Some(v) ==> (crate::text::is_ascii_text(v@) ==> m == secure_mode_spec(
            Some(crate::text::ascii_lowercase(v@)),
        )),
{
    match value {
        Some(v) => {
            let l = to_lowercase(v.as_str());
            secure_mode_of(Some(l.as_str()))
        },
        None => secure_mode_of(None),
    }
}

/// The raw environment values that configure email.
pub struct SmtpEnvironment {
    /// `SMTP_HOST`.
    pub host: Option<String>,
    /// `SMTP_PORT`.
    pub port: Option<String>,
    /// `SMTP_SECURE`.
    pub secure: Option<String>,
    /// `SMTP_USER`.
    pub user: Option<String>,
    /// `SMTP_PASSWORD`.
    pub password: Option<String>,
    /// `SMTP_FROM`.
    pub from: Option<String>,
    /// `APP_BASE_URL`.
    pub app_base_url: Option<String>,
    /// `PASSWORD_RESET_TTL_MINUTES`.
    pub reset_ttl_minutes: Option<String>,
}

/// The email settings in use.
pub struct SmtpConfig {
    /// Server host.
    pub host: String,
    /// Server port.
    pub port: u16,
    /// Connection security.
    pub secure: SmtpSecureMode,
    /// Login user, when given.
    pub user: Option<String>,
    /// Login password, when given.
    pub password: Option<String>,
    /// Sender mailbox.
    pub from: String,
    /// Public address of the application, for links in emails.
    pub app_base_url: String,
    /// Minutes a reset or confirmation link stays valid.
    pub reset_ttl_minutes: i64,
}

/// The port: a non-blank value that parses as a `u16`, else 1025.
pub open spec fn port_spec(v: Option<String>) -> u16 {
    match non_blank(v) {
        Some(s) => match parse_u16_spec(s) {
            Some(p) => p,
            None => 1025,
        },
        None => 1025,
    }
}

/// The link lifetime: a non-blank value that parses as a positive `i64`,
/// else 60 minutes.
pub open spec fn ttl_spec(v: Option<String>) -> i64 {
    match non_blank(v) {
        Some(s) => match parse_i64_spec(s) {
            Some(t) => if t > 0 {
                t
            } else {
                60
            },
            None => 60,
        },
        None => 60,
    }
}

/// The email settings from the environment: blank values count as missing;
/// the host defaults to `127.0.0.1`, the port to 1025, the sender to
/// `PraiseChords <noreply@localhost>`, the application address to
/// `http://127.0.0.1:8080` and the link lifetime to 60 minutes.
pub fn smtp_config(env: &SmtpEnvironment) -> (c: SmtpConfig)
    ensures
        c.host@ == non_blank_or(env.host, "127.0.0.1"@),
        c.port == port_spec(env.port),
        c.secure == secure_mode_spec(match non_blank(env.secure) {
            Some(v) => Some(lowercase(v)),
            None => None,
        }),
        opt_view(c.user) == non_blank(env.user),
        opt_view(c.password) == non_blank(env.password),
        c.from@ == non_blank_or(env.from, "PraiseChords <noreply@localhost>"@),
        c.app_base_url@ == non_blank_or(env.app_base_url, "http://127.0.0.1:8080"@),
        c.reset_ttl_minutes == ttl_spec(env.reset_ttl_minutes),
{
    let port = match keep_non_blank(&env.port) {
        Some(v) => match parse_u16(v.as_str()) {
            Some(p) => p,
            None => 1025,
        },
        None => 1025,
    };
    let ttl = match keep_non_blank(&env.reset_ttl_minutes) {
        Some(v) => match parse_i64(v.as_str()) {
            Some(t) => if t > 0 {
                t
            } else {
                60
            },
            None => 60,
        },
        None => 60,
    };
    SmtpConfig {
        host: or_default_text(&env.host, "127.0.0.1"),
        port,
        secure: parse_smtp_secure(keep_non_blank(&env.secure)),
        user: keep_non_blank(&env.user),
        password: keep_non_blank(&env.password),
        from: or_default_text(&env.from, "PraiseChords <noreply@localhost>"),
        app_base_url: or_default_text(&env.app_base_url, "http://127.0.0.1:8080"),
        reset_ttl_minutes: ttl,
    }
}

/// How to reach the SMTP server.
#[derive(Clone, Copy, PartialEq, Eq, Structural, Debug)]
pub enum SmtpTransportKind {
    /// TLS relay.
    Relay,
    /// STARTTLS relay.
    StartTlsRelay,
    /// Unencrypted connection.
    Plain,
}

/// The transport for a security mode.
pub fn transport_kind(mode: SmtpSecureMode) -> (k: SmtpTransportKind)
    ensures
        k == (match mode {
            SmtpSecureMode::Tls => SmtpTransportKind::Relay,
            SmtpSecureMode::StartTls => SmtpTransportKind::StartTlsRelay,
            SmtpSecureMode::Plain => SmtpTransportKind::Plain,
        }),
{
    match mode {
        SmtpSecureMode::Tls => SmtpTransportKind::Relay,
        SmtpSecureMode::StartTls => SmtpTransportKind::StartTlsRelay,
        SmtpSecureMode::Plain => SmtpTransportKind::Plain,
    }
}

/// The login to use: user and password when both are configured.
pub fn smtp_credentials(config: &SmtpConfig) -> (r: Option<(String, String)>)
    ensures
        match r {
            Some((u, p)) => config.user matches Some(cu) && config.password matches Some(cp) && u@
                == cu@ && p@ == cp@,
            None => config.user is None || config.password is None,
        },
{
    match (&config.user, &config.password) {
        (Some(u), Some(p)) => Some((u.clone(), p.clone())),
        _ => None,
    }
}

// ---------------------------------------------------------------------------
// Transactional emails
// ---------------------------------------------------------------------------

/// Subject of the password reset email.
pub open spec fn reset_subject_spec() -> Seq<char> {
    "Recuperação de password - PraiseChords"@
}

/// Subject of the registration email.
pub open spec fn registration_subject_spec() -> Seq<char> {
    "Confirme o seu registo - PraiseChords"@
}

/// The subject of the password reset email.
pub fn reset_subject() -> (s: String)
    ensures
        s@ == reset_subject_spec(),
{
    "Recuperação de password - PraiseChords".to_string()
}

/// The subject of the registration email.
pub fn registration_subject() -> (s: String)
    ensures
        s@ == registration_subject_spec(),
{
    "Confirme o seu registo - PraiseChords".to_string()
}

/// Body of the password reset email.
pub open spec fn reset_body_spec(link: Seq<char>, ttl: i64) -> Seq<char> {
    "Recebemos um pedido para alterar a sua password.\n\nAbra este link para escolher uma nova password:\n"@
        + link + "\n\nO link expira em "@ + signed_decimal_spec(ttl as int)
        + " minutos. Se não fez este pedido, ignore este email."@
}

/// Body of the registration email.
pub open spec fn registration_body_spec(link: Seq<char>, ttl: i64) -> Seq<char> {
    "Obrigado por se registar no PraiseChords!\n\nAbra este link para confirmar a sua conta e escolher a sua password:\n"@
        + link + "\n\nO link expira em "@ + signed_decimal_spec(ttl as int)
        + " minutos. Se não fez este pedido, ignore este email."@
}

/// The password reset email: the link and how long it lasts.
pub fn reset_email_body(reset_link: &str, ttl_minutes: i64) -> (s: String)
    ensures
        s@ == reset_body_spec(reset_link@, ttl_minutes),
{
    let mut v: Vec<char> = Vec::new();
    append_str(
        &mut v,
        "Recebemos um pedido para alterar a sua password.\n\nAbra este link para escolher uma nova password:\n",
    );
    append_str(&mut v, reset_link);
    append_str(&mut v, "\n\nO link expira em ");
    push_signed_decimal(&mut v, ttl_minutes);
    append_str(&mut v, " minutos. Se não fez este pedido, ignore este email.");
    assert(v@ =~= reset_body_spec(reset_link@, ttl_minutes));
    string_from_chars(&v)
}

/// The registration email: the confirmation link and how long it lasts.
pub fn registration_email_body(confirm_link: &str, ttl_minutes: i64) -> (s: String)
    ensures
        s@ == registration_body_spec(confirm_link@, ttl_minutes),
{
    let mut v: Vec<char> = Vec::new();
    append_str(
        &mut v,
        "Obrigado por se registar no PraiseChords!\n\nAbra este link para confirmar a sua conta e escolher a sua password:\n",
    );
    append_str(&mut v, confirm_link);
    append_str(&mut v, "\n\nO link expira em ");
    push_signed_decimal(&mut v, ttl_minutes);
    append_str(&mut v, " minutos. Se não fez este pedido, ignore este email.");
    assert(v@ =~= registration_body_spec(confirm_link@, ttl_minutes));
    string_from_chars(&v)
}

/// Whether lettre accepts a text as a mailbox (`Mailbox::from_str`); a
/// function of the text alone.
pub uninterp spec fn mailbox_accepts(s: Seq<char>) -> bool;

/// `<lettre::message::Mailbox as FromStr>::from_str`, reduced to whether it
/// succeeds. Trusted: the answer is `mailbox_accepts` of the text.
#[verifier::external_body]
fn parses_as_mailbox(s: &str) -> (ok: bool)
    ensures
        ok == mailbox_accepts(s@),
{
    s.parse::<lettre::message::Mailbox>().is_ok()
}

/// The error for the sender and recipient, given whether each parses as a
/// mailbox: the sender is checked first.
pub open spec fn address_check_spec(from_ok: bool, to_ok: bool) -> Result<(), Seq<char>> {
    if !from_ok {
        Err("SMTP_FROM inválido"@)
    } else if !to_ok {
        Err("email inválido"@)
    } else {
        Ok(())
    }
}

/// The view of an address check.
pub open spec fn check_view(r: Result<(), String>) -> Result<(), Seq<char>> {
    match r {
        Ok(()) => Ok(()),
        Err(e) => Err(e@),
    }
}

/// The error for the sender and recipient, given whether each parses.
pub fn address_check(from_ok: bool, to_ok: bool) -> (r: Result<(), String>)
    ensures
        check_view(r) == address_check_spec(from_ok, to_ok),
{
    if !from_ok {
        Err("SMTP_FROM inválido".to_string())
    } else if !to_ok {
        Err("email inválido".to_string())
    } else {
        Ok(())
    }
}

/// Checks the sender and the recipient before an email is built.
pub fn check_addresses(from: &str, recipient: &str) -> (r: Result<(), String>)
    ensures
        check_view(r) == address_check_spec(mailbox_accepts(from@), mailbox_accepts(recipient@)),
{
    let from_ok = parses_as_mailbox(from);
    let to_ok = parses_as_mailbox(recipient);
    address_check(from_ok, to_ok)
}

/// `" | causado por: {cause}"` for each cause in turn.
pub open spec fn causes_spec(causes: Seq<String>) -> Seq<char>
    decreases causes.len(),
{
    if causes.len() == 0 {
        seq![]
    } else {
        causes_spec(causes.drop_last()) + " | causado por: "@ + causes.last()@
    }
}

/// The tag that says what kind of failure it was.
pub open spec fn failure_tags_spec(is_tls: bool, is_timeout: bool, is_response: bool) -> Seq<char> {
    (if is_tls {
        " [TLS: SMTP_SECURE/porta incompatível com o servidor?]"@
    } else {
        seq![]
    }) + (if is_timeout {
        " [TIMEOUT: porta bloqueada por firewall/security list/ISP?]"@
    } else {
        seq![]
    }) + (if is_response {
        " [SERVIDOR SMTP REJEITOU: verifique o código na mensagem, ex. 535=credenciais, 550/571=remetente não aprovado]"@
    } else {
        seq![]
    })
}

/// The text logged when sending fails: the error, each cause in its
/// chain, and what kind of failure it was.
pub fn describe_send_failure(
    message: &str,
    causes: &Vec<String>,
    is_tls: bool,
    is_timeout: bool,
    is_response: bool,
) -> (s: String)
    ensures
        s@ == message@ + causes_spec(causes@) + failure_tags_spec(is_tls, is_timeout, is_response),
{
    let mut v = chars_of(message);
    let mut i: usize = 0;
    while i < causes.len()
        invariant
            i <= causes.len(),
            v@ == message@ + causes_spec(causes@.take(i as int)),
        decreases causes.len() - i,
    {
        append_str(&mut v, " | causado por: ");
        append_str(&mut v, causes[i].as_str());
        proof {
            let t = causes@.take(i + 1);
            assert(t.drop_last() =~= causes@.take(i as int));
        }
        i += 1;
    }
    assert(causes@.take(causes.len() as int) =~= causes@);
    let ghost before = v@;
    if is_tls {
        append_str(&mut v, " [TLS: SMTP_SECURE/porta incompatível com o servidor?]");
    }
    if is_timeout {
        append_str(&mut v, " [TIMEOUT: porta bloqueada por firewall/security list/ISP?]");
    }
    if is_response {
        append_str(
            &mut v,
            " [SERVIDOR SMTP REJEITOU: verifique o código na mensagem, ex. 535=credenciais, 550/571=remetente não aprovado]",
        );
    }
    assert(v@ =~= before + failure_tags_spec(is_tls, is_timeout, is_response));
    string_from_chars(&v)
}


/// The rewrite of a line adds neither `'\n'` nor `'\r'`, and leaves a line
/// empty only when it was empty.
proof fn lemma_comment_line_clean(l: Seq<char>)
    ensures
        lacks(l, '\n') ==> lacks(comment_line(l), '\n'),
        lacks(l, '\r') ==> lacks(comment_line(l), '\r'),
        comment_line(l).len() == 0 ==> l.len() == 0,
{
    let p = ws_prefix_len(l) as int;
    crate::text::lemma_ws_prefix_bounds(l);
    if has_at(l, p, "//"@) {
        assert("//"@.len() == 2) by {
            reveal_strlit("//");
        }
        let c = l.take(p) + seq!['#'] + l.skip(p + 2);
        assert forall|i: int| 0 <= i < c.len() implies (c[i] == '#' || exists|j: int|
            0 <= j < l.len() && c[i] == #[trigger] l[j]) by {
            if i < p {
                assert(c[i] == l[i]);
            } else if i > p {
                assert(c[i] == l[i + 1]);
            }
        }
        assert(c[p] == '#');
    }
}

/// Rewriting the comments of a file a second time changes nothing, for a
/// file without `'\r'` that does not end with an empty line.
pub proof fn law_normalize_comments_idempotent(s: Seq<char>)
    requires
        lacks(s, '\r'),
        !ends_with_blank_line(s),
    ensures
        normalize_comments_spec(normalize_comments_spec(s)) == normalize_comments_spec(s),
{
    let f = |l: Seq<char>| comment_line(l);
    let ls = lines_spec(s);
    let ms = ls.map_values(f);
    lemma_lines_clean(s);
    assert forall|i: int| 0 <= i < ms.len() implies lacks(#[trigger] ms[i], '\n') && lacks(
        ms[i],
        '\r',
    ) by {
        assert(lacks(ls[i], '\n'));
        assert(lacks(ls[i], '\r'));
        lemma_comment_line_clean(ls[i]);
    }
    lemma_lines_of_join(ms);
    let d = drop_empty_last(ms);
    assert forall|i: int| 0 <= i < d.len() implies #[trigger] f(d[i]) == d[i] by {
        assert(d[i] == ms[i]);
        law_comment_line_idempotent(ls[i]);
    }
    assert(d.map_values(f) =~= d);
    if ms.len() > 0 && ms.last().len() == 0 {
        lemma_comment_line_clean(ls.last());
        assert(ms.last() == f(ls.last()));
        if s.len() > 0 && s != seq!['\n'] {
            lemma_last_line_not_empty(s);
        }
        assert(s.len() > 0);
        assert(s =~= seq!['\n']);
        crate::text::lemma_newline_found(s, 0);
        assert(s.skip(1).len() == 0);
        assert(s.take(0) =~= Seq::<char>::empty());
        assert(strip_cr(s.take(0)) =~= Seq::<char>::empty());
        assert(lines_spec(s.skip(1)) == Seq::<Seq<char>>::empty());
        assert(lines_spec(s) == seq![strip_cr(s.take(0))] + lines_spec(s.skip(1)));
        assert(lines_spec(s) =~= seq![Seq::<char>::empty()]);
        assert(d =~= Seq::<Seq<char>>::empty());
        assert(join_lines(ms) == ms[0]);
    }
}
} // verus!
