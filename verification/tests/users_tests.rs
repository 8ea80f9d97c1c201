use praisechords::users::{
    check_login, demo_cleaned_html, edit_user_form_html, forgot_request, login_check_with,
    login_request, may_change_other_account, normalize_email, optional_church,
    password_form_html, prepare_new_account, prepare_password_change, prepare_password_reset,
    prepare_registration, registration_step, reset_passwords_acceptable, user_row_html,
    users_list_html, validate_new_user, validate_user_update, AccountNotice, LoginOutcome,
    LoginUser, NewUserForm, RegisterForm, RegistrationStep, UpdateRefusal, UserLookup, UserRow,
    UserUpdateForm,
};

#[test]
fn emails_are_trimmed_and_lowercased() {
    assert_eq!(normalize_email("  Ana.Silva@Example.PT \n"), "ana.silva@example.pt");
    assert_eq!(normalize_email("ÉLIO@X.PT"), "élio@x.pt");
    assert_eq!(normalize_email("   "), "");
}

#[test]
fn churches_are_trimmed_or_dropped() {
    assert_eq!(optional_church(Some("  Sé  ".into())), Some("Sé".to_string()));
    assert_eq!(optional_church(Some("  ".into())), None);
    assert_eq!(optional_church(None), None);
}

#[test]
fn sign_in_needs_email_and_password() {
    assert_eq!(login_request(" ", "x"), Err(LoginOutcome::MissingFields));
    assert_eq!(login_request("a@b.pt", ""), Err(LoginOutcome::MissingFields));
    assert_eq!(login_request(" A@B.pt ", "pw"), Ok("a@b.pt".to_string()));
}

#[test]
fn sign_in_verdicts() {
    let found = |ativo: bool| UserLookup::Found(LoginUser { id: 3, ativo, password_hash: String::new() });
    assert_eq!(login_check_with(&UserLookup::Missing, true), Err(LoginOutcome::UnknownUser));
    assert_eq!(login_check_with(&UserLookup::Failed, true), Err(LoginOutcome::LookupFailed));
    assert_eq!(login_check_with(&found(false), true), Err(LoginOutcome::Inactive));
    assert_eq!(login_check_with(&found(true), false), Err(LoginOutcome::WrongPassword));
    assert_eq!(login_check_with(&found(true), true), Ok(3));
}

#[test]
fn a_new_password_signs_the_account_in() {
    let hash = prepare_password_change("segredo1").unwrap();
    let user = UserLookup::Found(LoginUser { id: 11, ativo: true, password_hash: hash.clone() });
    assert_eq!(check_login(&user, "segredo1"), Ok(11));
    assert_eq!(check_login(&user, "segredo2"), Err(LoginOutcome::WrongPassword));
    let off = UserLookup::Found(LoginUser { id: 11, ativo: false, password_hash: hash });
    assert_eq!(check_login(&off, "segredo1"), Err(LoginOutcome::Inactive));
    let broken = UserLookup::Found(LoginUser { id: 11, ativo: true, password_hash: "x".into() });
    assert_eq!(check_login(&broken, "segredo1"), Err(LoginOutcome::WrongPassword));
}

#[test]
fn sign_in_answers() {
    assert_eq!(LoginOutcome::MissingFields.status(), 400);
    assert_eq!(LoginOutcome::Inactive.status(), 403);
    assert_eq!(LoginOutcome::LookupFailed.status(), 500);
    assert_eq!(LoginOutcome::WrongPassword.status(), 401);
    assert_eq!(
        LoginOutcome::WrongPassword.message_html(),
        "<p class=\"text-center text-red-400 mb-4 text-sm sm:text-base\">Erro: Password incorreta</p>"
    );
    assert_eq!(
        LoginOutcome::Success.message_html(),
        "<p class=\"text-center text-green-400 mb-4 text-sm sm:text-base\">Login bem-sucedido!</p>"
    );
}

#[test]
fn registrations() {
    let r = prepare_registration(RegisterForm { nome: " Ana ".into(), email: " ANA@X.PT".into(), igreja: Some(" ".into()) }).unwrap();
    assert_eq!((r.nome.as_str(), r.email.as_str(), r.igreja), ("Ana", "ana@x.pt", None));
    assert!(prepare_registration(RegisterForm { nome: "  ".into(), email: "a@b".into(), igreja: None }).is_none());
    assert_eq!(registration_step(Some((4, true))), RegistrationStep::AlreadyActive);
    assert_eq!(registration_step(Some((4, false))), RegistrationStep::RefreshPending(4));
    assert_eq!(registration_step(None), RegistrationStep::CreateAccount);
    assert_eq!(forgot_request(" X@Y.PT "), Some("x@y.pt".to_string()));
    assert_eq!(forgot_request(" "), None);
}

#[test]
fn new_passwords_need_six_bytes_typed_twice() {
    assert!(reset_passwords_acceptable("abcdef", "abcdef"));
    assert!(!reset_passwords_acceptable("abcde", "abcde"));
    assert!(!reset_passwords_acceptable("abcdef", "abcdeg"));
    assert!(reset_passwords_acceptable("ççç", "ççç"));
    assert!(!reset_passwords_acceptable("ção", "ção"));
    assert_eq!(prepare_password_reset("abc", "abc"), Err(AccountNotice::ResetMismatch));
    assert_eq!(prepare_password_change("abc"), Err(AccountNotice::PasswordTooShort));
    let h = prepare_password_reset("novapass", "novapass").unwrap();
    let user = UserLookup::Found(LoginUser { id: 2, ativo: true, password_hash: h });
    assert_eq!(check_login(&user, "novapass"), Ok(2));
}

#[test]
fn creating_accounts() {
    let form = NewUserForm { nome: " Rui ".into(), email: "RUI@x.pt".into(), password: "123456".into(), igreja: None, perfil: 3, ativo: None };
    let u = validate_new_user(&form).unwrap();
    assert_eq!((u.nome.as_str(), u.email.as_str(), u.perfil, u.ativo), ("Rui", "rui@x.pt", 3, true));
    let (_, hash) = prepare_new_account(&form).unwrap();
    let user = UserLookup::Found(LoginUser { id: 1, ativo: true, password_hash: hash });
    assert_eq!(check_login(&user, "123456"), Ok(1));
    let bad = NewUserForm { perfil: 5, ..form };
    assert!(validate_new_user(&bad).is_none());
    assert_eq!(prepare_new_account(&bad).err(), Some(AccountNotice::CreateIncomplete));
}

#[test]
fn programmers_cannot_lock_themselves_out() {
    let form = |perfil: i32| UserUpdateForm { nome: "Ana".into(), email: "a@b.pt".into(), igreja: None, perfil };
    assert_eq!(validate_user_update(7, 7, form(2)).err(), Some(UpdateRefusal::OwnProgrammerProfile));
    assert!(validate_user_update(7, 7, form(4)).is_ok());
    assert!(validate_user_update(8, 7, form(2)).is_ok());
    assert_eq!(validate_user_update(8, 7, form(0)).err(), Some(UpdateRefusal::Incomplete));
    assert!(!may_change_other_account(7, 7));
    assert!(may_change_other_account(8, 7));
}

#[test]
fn user_table() {
    assert_eq!(users_list_html(&vec![]), "<p class=\"text-gray-400 text-center py-8\">Nenhum utilizador encontrado</p>");
    let row = UserRow { id: 5, email: "a@b.pt".into(), nome: "<Ana>".into(), perfil: Some(2), igreja: None, ativo: false };
    let html = user_row_html(&row);
    assert!(html.contains("<div class=\"font-medium text-white\">&lt;Ana&gt;</div>"));
    assert!(html.contains(">Moderador</span>"));
    assert!(html.contains("<td class=\"py-3 px-4 text-red-400\">✗ Inativo</td>"));
    assert!(html.contains("<td class=\"py-3 px-4 text-gray-300\">-</td>"));
    assert!(html.ends_with("<tr id=\"edit-user-5\"></tr>"));
    let list = users_list_html(&vec![row]);
    assert!(list.starts_with("<div class=\"overflow-x-auto\">"));
    assert!(list.contains(&html));
}

#[test]
fn user_forms() {
    let f = edit_user_form_html(9, "Ana", "a@b.pt", &None, Some(3));
    assert!(f.contains("<option value=\"3\" selected>Colaborador</option>"));
    assert!(f.contains("<option value=\"1\" >Utilizador</option>"));
    assert!(f.contains("name=\"igreja\" value=\"\""));
    assert!(f.contains("hx-post=\"/htmx/users/9/update\""));
    let d = edit_user_form_html(9, "Ana", "a@b.pt", &Some("Sé".into()), None);
    assert!(d.contains("<option value=\"1\" selected>Utilizador</option>"));
    let p = password_form_html(4);
    assert!(p.starts_with("<td colspan=\"5\" class=\"py-4 px-4 bg-gray-700/30\"><form hx-post=\"/htmx/users/4/password\" hx-target=\"#edit-user-4\""));
}

#[test]
fn account_messages() {
    assert_eq!(AccountNotice::AccessDenied.html(), "<p class=\"text-red-400\">Acesso negado</p>");
    assert_eq!(AccountNotice::OwnDelete.html(), "<p class=\"text-yellow-400\">⚠ Não pode apagar a sua própria conta</p>");
    assert!(AccountNotice::Toggled.html().starts_with("<script>htmx.ajax('GET', '/htmx/users/list'"));
    assert_eq!(demo_cleaned_html(3), "<p class=\"text-green-400\">✓ Dados demo limpos: 3 músicas removidas.</p>");
}

#[test]
fn pending_accounts_get_a_random_password_hash() {
    let a = praisechords::users::placeholder_password_hash().unwrap();
    let b = praisechords::users::placeholder_password_hash().unwrap();
    assert!(a.starts_with("$2b$12$"));
    assert_ne!(a, b);
}
