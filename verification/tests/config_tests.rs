use praisechords::config::{
    check_addresses, describe_send_failure, normalize_comments, parse_smtp_secure,
    registration_email_body, registration_subject, reset_email_body, reset_subject, secure_mode_of,
    smtp_config, smtp_credentials, transport_kind, SmtpEnvironment, SmtpSecureMode,
    SmtpTransportKind,
};

fn env() -> SmtpEnvironment {
    SmtpEnvironment {
        host: None,
        port: None,
        secure: None,
        user: None,
        password: None,
        from: None,
        app_base_url: None,
        reset_ttl_minutes: None,
    }
}

#[test]
fn slash_comments_become_hash_comments() {
    assert_eq!(normalize_comments("// a=1\n  //b=2\r\nc=3\n"), "# a=1\n  #b=2\nc=3");
    assert_eq!(normalize_comments("URL=http://x//y"), "URL=http://x//y");
    assert_eq!(normalize_comments(""), "");
    assert_eq!(normalize_comments("\n\n"), "\n");
    assert_eq!(normalize_comments("# ok\n/ not\n"), "# ok\n/ not");
}

#[test]
fn normalizing_comments_twice_changes_nothing_more() {
    let once = normalize_comments("////x\n\t// y\nz=1");
    assert_eq!(once, "#//x\n\t# y\nz=1");
    assert_eq!(normalize_comments(&once), once);
}

#[test]
fn smtp_secure_values() {
    for v in ["true", "1", "YES", "Tls", "ssl"] {
        assert_eq!(parse_smtp_secure(Some(v.to_string())), SmtpSecureMode::Tls);
    }
    assert_eq!(parse_smtp_secure(Some("STARTTLS".to_string())), SmtpSecureMode::StartTls);
    assert_eq!(parse_smtp_secure(Some("no".to_string())), SmtpSecureMode::Plain);
    assert_eq!(parse_smtp_secure(Some(" tls".to_string())), SmtpSecureMode::Plain);
    assert_eq!(parse_smtp_secure(None), SmtpSecureMode::Plain);
    assert_eq!(secure_mode_of(Some("starttls")), SmtpSecureMode::StartTls);
}

#[test]
fn smtp_defaults_apply_to_missing_and_blank_values() {
    let mut e = env();
    e.host = Some("   ".to_string());
    let c = smtp_config(&e);
    assert_eq!(c.host, "127.0.0.1");
    assert_eq!(c.port, 1025);
    assert_eq!(c.secure, SmtpSecureMode::Plain);
    assert_eq!(c.user, None);
    assert_eq!(c.password, None);
    assert_eq!(c.from, "PraiseChords <noreply@localhost>");
    assert_eq!(c.app_base_url, "http://127.0.0.1:8080");
    assert_eq!(c.reset_ttl_minutes, 60);
}

#[test]
fn smtp_values_are_read() {
    let mut e = env();
    e.host = Some("smtp.example.com".to_string());
    e.port = Some("587".to_string());
    e.secure = Some("starttls".to_string());
    e.user = Some("u".to_string());
    e.password = Some("p".to_string());
    e.reset_ttl_minutes = Some("15".to_string());
    let c = smtp_config(&e);
    assert_eq!(c.host, "smtp.example.com");
    assert_eq!(c.port, 587);
    assert_eq!(c.secure, SmtpSecureMode::StartTls);
    assert_eq!(c.reset_ttl_minutes, 15);
    assert_eq!(smtp_credentials(&c), Some(("u".to_string(), "p".to_string())));
    assert_eq!(transport_kind(c.secure), SmtpTransportKind::StartTlsRelay);
}

#[test]
fn bad_port_and_lifetime_fall_back() {
    let mut e = env();
    e.port = Some("70000".to_string());
    e.reset_ttl_minutes = Some("0".to_string());
    e.user = Some("u".to_string());
    let c = smtp_config(&e);
    assert_eq!(c.port, 1025);
    assert_eq!(c.reset_ttl_minutes, 60);
    assert_eq!(smtp_credentials(&c), None);
    e.reset_ttl_minutes = Some("-5".to_string());
    assert_eq!(smtp_config(&e).reset_ttl_minutes, 60);
    e.port = Some(" 25".to_string());
    assert_eq!(smtp_config(&e).port, 1025);
}

#[test]
fn transports_follow_the_mode() {
    assert_eq!(transport_kind(SmtpSecureMode::Tls), SmtpTransportKind::Relay);
    assert_eq!(transport_kind(SmtpSecureMode::Plain), SmtpTransportKind::Plain);
}

#[test]
fn email_texts() {
    assert_eq!(reset_subject(), "Recuperação de password - PraiseChords");
    assert_eq!(registration_subject(), "Confirme o seu registo - PraiseChords");
    assert_eq!(
        reset_email_body("http://x/reset-password?token=t", 30),
        "Recebemos um pedido para alterar a sua password.\n\nAbra este link para escolher uma nova password:\nhttp://x/reset-password?token=t\n\nO link expira em 30 minutos. Se não fez este pedido, ignore este email."
    );
    assert_eq!(
        registration_email_body("L", 60),
        "Obrigado por se registar no PraiseChords!\n\nAbra este link para confirmar a sua conta e escolher a sua password:\nL\n\nO link expira em 60 minutos. Se não fez este pedido, ignore este email."
    );
}

#[test]
fn addresses_are_checked_sender_first() {
    assert_eq!(check_addresses("PraiseChords <noreply@localhost>", "ana@example.com"), Ok(()));
    assert_eq!(check_addresses("not an address", "ana@example.com"), Err("SMTP_FROM inválido".to_string()));
    assert_eq!(check_addresses("a@b.pt", "nope"), Err("email inválido".to_string()));
}

#[test]
fn send_failures_list_causes_and_kinds() {
    let causes = vec!["io".to_string(), "dns".to_string()];
    assert_eq!(
        describe_send_failure("connection", &causes, false, true, false),
        "connection | causado por: io | causado por: dns [TIMEOUT: porta bloqueada por firewall/security list/ISP?]"
    );
    assert_eq!(describe_send_failure("x", &vec![], false, false, false), "x");
    let all = describe_send_failure("e", &vec![], true, false, true);
    assert!(all.starts_with("e [TLS: SMTP_SECURE/porta incompatível com o servidor?] [SERVIDOR SMTP REJEITOU"));
}

#[test]
fn rewriting_a_file_twice_changes_nothing_more() {
    for s in ["a=1\n\n// b\n//c=2\n", "  //x\ny", "\n", "z"] {
        let once = normalize_comments(s);
        assert_eq!(normalize_comments(&once), once);
    }
}
