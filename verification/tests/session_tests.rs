use praisechords::session::{
    authenticated_user_id, create_auth_token, fresh_claims, is_demo_user, session_claims,
    session_expiry, session_is_demo, session_user, SessionClaims,
};

const SECRET: &[u8] = b"test-secret";
const LOGIN: u64 = 1_700_000_000;

fn token_for(id: i32, is_demo: bool) -> String {
    create_auth_token(
        id,
        "ana@example.com".to_string(),
        Some("Ana".to_string()),
        Some(3),
        is_demo,
        LOGIN,
        SECRET,
    )
    .unwrap()
}

fn claims(exp: u64) -> SessionClaims {
    SessionClaims {
        id: 7,
        email: "x@y.z".to_string(),
        nome: None,
        perfil: None,
        is_demo: false,
        exp,
    }
}

#[test]
fn a_login_token_reads_back_its_claims() {
    let t = token_for(42, false);
    assert_eq!(t.split('.').count(), 3);
    let c = session_claims(&t, SECRET, LOGIN).unwrap();
    assert_eq!(c.id, 42);
    assert_eq!(c.email, "ana@example.com");
    assert_eq!(c.nome.as_deref(), Some("Ana"));
    assert_eq!(c.perfil, Some(3));
    assert!(!c.is_demo);
    assert_eq!(c.exp, LOGIN + 604_800);
}

#[test]
fn absent_name_and_profile_read_back_as_absent() {
    let t = create_auth_token(5, "b@c.d".to_string(), None, None, true, LOGIN, SECRET).unwrap();
    let c = session_claims(&t, SECRET, LOGIN).unwrap();
    assert_eq!(c.nome, None);
    assert_eq!(c.perfil, None);
    assert!(c.is_demo);
}

#[test]
fn a_session_lasts_seven_days_and_a_minute() {
    let t = token_for(42, false);
    assert_eq!(authenticated_user_id(Some(&t), SECRET, LOGIN), Some(42));
    assert_eq!(authenticated_user_id(Some(&t), SECRET, LOGIN + 604_800), Some(42));
    assert_eq!(authenticated_user_id(Some(&t), SECRET, LOGIN + 604_860), Some(42));
    assert_eq!(authenticated_user_id(Some(&t), SECRET, LOGIN + 604_861), None);
}

#[test]
fn a_token_signed_with_another_secret_signs_nobody_in() {
    let t = token_for(42, false);
    assert_eq!(authenticated_user_id(Some(&t), b"other", LOGIN), None);
    assert!(session_claims(&t, b"other", LOGIN).is_none());
}

#[test]
fn a_tampered_or_missing_token_signs_nobody_in() {
    let t = token_for(42, false);
    let mut bad = t.clone();
    bad.push('x');
    assert_eq!(authenticated_user_id(Some(&bad), SECRET, LOGIN), None);
    assert_eq!(authenticated_user_id(Some("not a token"), SECRET, LOGIN), None);
    assert_eq!(authenticated_user_id(None, SECRET, LOGIN), None);
}

#[test]
fn the_demo_flag_comes_from_the_token() {
    assert!(is_demo_user(Some(&token_for(1, true)), SECRET, LOGIN));
    assert!(!is_demo_user(Some(&token_for(1, false)), SECRET, LOGIN));
    assert!(!is_demo_user(None, SECRET, LOGIN));
    assert!(!is_demo_user(Some(&token_for(1, true)), SECRET, LOGIN + 700_000));
}

#[test]
fn freshness_allows_a_minute_of_grace() {
    assert!(fresh_claims(Some(claims(1000)), 1060).is_some());
    assert!(fresh_claims(Some(claims(1000)), 1061).is_none());
    assert!(fresh_claims(Some(claims(0)), 60).is_some());
    assert!(fresh_claims(Some(claims(0)), 0).is_some());
    assert!(fresh_claims(None, 0).is_none());
}

#[test]
fn user_and_demo_flag_of_claims() {
    assert_eq!(session_user(Some(claims(9))), Some(7));
    assert_eq!(session_user(None), None);
    let mut c = claims(9);
    c.is_demo = true;
    assert!(session_is_demo(Some(c)));
    assert!(!session_is_demo(Some(claims(9))));
    assert!(!session_is_demo(None));
}

#[test]
fn the_expiry_is_seven_days_on_unless_it_overflows() {
    assert_eq!(session_expiry(0), Some(604_800));
    assert_eq!(session_expiry(u64::MAX - 604_800), Some(u64::MAX));
    assert_eq!(session_expiry(u64::MAX - 604_799), None);
    assert_eq!(
        create_auth_token(1, "a@b.c".to_string(), None, None, false, u64::MAX, SECRET),
        None
    );
}
