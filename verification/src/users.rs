//! Accounts: signing in, registration, password resets and the forms of
//! the user manager.

use vstd::prelude::*;
use crate::text::{
    append_escaped, append_str, empty_to_none, empty_to_none_spec, escape_html_spec, lowercase,
    opt_view, string_from_chars, to_lowercase, trim, trim_string,
};
use crate::access::{profile_label, profile_label_spec};
use crate::numbers::{push_signed_decimal, signed_decimal_spec};

verus! {

// ---------------------------------------------------------------------------
// Form values
// ---------------------------------------------------------------------------

/// An email as accounts are looked up by: trimmed, then in lowercase.
pub open spec fn email_key(s: Seq<char>) -> Seq<char> {
    lowercase(trim(s))
}

/// Trims an email and puts it in lowercase.
pub fn normalize_email(s: &str) -> (r: String)
    ensures
        r@ == email_key(s@),
        r@.len() == 0 <==> trim(s@).len() == 0,
        crate::text::is_ascii_text(trim(s@)) ==> r@ == crate::text::ascii_lowercase(trim(s@)),
{
    let t = trim_string(s);
    to_lowercase(t.as_str())
}

/// An optional church name: trimmed, and dropped when blank.
pub open spec fn church_spec(igreja: Option<String>) -> Option<Seq<char>> {
    match igreja {
        Some(s) => empty_to_none_spec(s@),
        None => None,
    }
}

/// Trims an optional church name, dropping it when blank.
pub fn optional_church(igreja: Option<String>) -> (r: Option<String>)
    ensures
        opt_view(r) == church_spec(igreja),
{
    match igreja {
        Some(s) => empty_to_none(s),
        None => None,
    }
}

/// Length in bytes of a text, as `str::len` counts it (its UTF-8 encoding).
pub open spec fn byte_len(s: Seq<char>) -> nat {
    vstd::utf8::encode_utf8(s).len()
}

// ---------------------------------------------------------------------------
// Signing in
// ---------------------------------------------------------------------------

/// How a sign-in attempt ends.
#[derive(Clone, Copy, PartialEq, Eq, Structural, Debug)]
pub enum LoginOutcome {
    /// Email or password missing (400).
    MissingFields,
    /// No account with that email (401).
    UnknownUser,
    /// The account could not be read (500).
    LookupFailed,
    /// The account is disabled (403).
    Inactive,
    /// The password does not match (401).
    WrongPassword,
    /// The session token could not be made (500).
    SessionFailed,
    /// Signed in.
    Success,
}

/// Checks the sign-in form: the email, trimmed and in lowercase, and the
/// password must both be non-empty.
pub fn login_request(email: &str, password: &str) -> (r: Result<String, LoginOutcome>)
    ensures
        match r {
            Ok(e) => e@ == email_key(email@) && trim(email@).len() > 0 && password@.len() > 0,
            Err(o) => o == LoginOutcome::MissingFields && (trim(email@).len() == 0 || password@.len()
                == 0),
        },
{
    let e = normalize_email(email);
    if e.as_str().is_empty() || password.is_empty() {
        Err(LoginOutcome::MissingFields)
    } else {
        Ok(e)
    }
}

/// An account as read for signing in.
pub struct LoginUser {
    /// Account id.
    pub id: i32,
    /// Whether the account is enabled.
    pub ativo: bool,
    /// The stored bcrypt hash.
    pub password_hash: String,
}

/// What looking up the account gave.
pub enum UserLookup {
    /// The account.
    Found(LoginUser),
    /// No account has that email.
    Missing,
    /// The database failed.
    Failed,
}

/// The verdict on a sign-in, given the lookup and whether the password
/// matches the stored hash: the account id, or why it is refused.
pub open spec fn login_check_spec(lookup: UserLookup, password_ok: bool) -> Result<i32, LoginOutcome> {
    match lookup {
        UserLookup::Missing => Err(LoginOutcome::UnknownUser),
        UserLookup::Failed => Err(LoginOutcome::LookupFailed),
        UserLookup::Found(u) => if !u.ativo {
            Err(LoginOutcome::Inactive)
        } else if !password_ok {
            Err(LoginOutcome::WrongPassword)
        } else {
            Ok(u.id)
        },
    }
}

/// The verdict on a sign-in once the password has been checked.
pub fn login_check_with(lookup: &UserLookup, password_ok: bool) -> (r: Result<i32, LoginOutcome>)
    ensures
        r == login_check_spec(*lookup, password_ok),
{
    match lookup {
        UserLookup::Missing => Err(LoginOutcome::UnknownUser),
        UserLookup::Failed => Err(LoginOutcome::LookupFailed),
        UserLookup::Found(u) => {
            if !u.ativo {
                Err(LoginOutcome::Inactive)
            } else if !password_ok {
                Err(LoginOutcome::WrongPassword)
            } else {
                Ok(u.id)
            }
        },
    }
}

/// Whether bcrypt accepts a password for a stored hash
/// (`bcrypt::verify`, an error counting as no); a function of the two.
pub uninterp spec fn bcrypt_accepts(password: Seq<char>, hash: Seq<char>) -> bool;

/// `bcrypt::verify`, with an error (a malformed hash) read as a mismatch.
/// Trusted: the answer is `bcrypt_accepts` of the password and the hash.
#[verifier::external_body]
fn password_matches(password: &str, hash: &str) -> (ok: bool)
    ensures
        ok == bcrypt_accepts(password@, hash@),
{
    bcrypt::verify(password, hash).unwrap_or(false)
}

/// Whether the password matches the account found, if one was.
pub open spec fn password_ok_spec(lookup: UserLookup, password: Seq<char>) -> bool {
    match lookup {
        UserLookup::Found(u) => u.ativo && bcrypt_accepts(password, u.password_hash@),
        _ => false,
    }
}

/// Checks a sign-in against the account found: the password is compared
/// only for an enabled account.
pub fn check_login(lookup: &UserLookup, password: &str) -> (r: Result<i32, LoginOutcome>)
    ensures
        r == login_check_spec(*lookup, password_ok_spec(*lookup, password@)),
{
    let ok = match lookup {
        UserLookup::Found(u) => u.ativo && password_matches(password, u.password_hash.as_str()),
        _ => false,
    };
    login_check_with(lookup, ok)
}

/// The HTTP status of a sign-in outcome.
pub open spec fn login_status_spec(o: LoginOutcome) -> u16 {
    match o {
        LoginOutcome::MissingFields => 400,
        LoginOutcome::UnknownUser => 401,
        LoginOutcome::LookupFailed => 500,
        LoginOutcome::Inactive => 403,
        LoginOutcome::WrongPassword => 401,
        LoginOutcome::SessionFailed => 500,
        LoginOutcome::Success => 200,
    }
}

/// The message of a sign-in outcome.
pub open spec fn login_text_spec(o: LoginOutcome) -> Seq<char> {
    match o {
        LoginOutcome::MissingFields => "Erro: Email e password são obrigatórios"@,
        LoginOutcome::UnknownUser => "Erro: Utilizador não encontrado"@,
        LoginOutcome::LookupFailed => "Erro: Erro ao fazer login"@,
        LoginOutcome::Inactive => "Erro: Utilizador inativo"@,
        LoginOutcome::WrongPassword => "Erro: Password incorreta"@,
        LoginOutcome::SessionFailed => "Erro: Não foi possível criar sessão"@,
        LoginOutcome::Success => "Login bem-sucedido!"@,
    }
}

/// The paragraph shown for a sign-in outcome: red for errors, green on
/// success.
pub open spec fn login_html_spec(o: LoginOutcome) -> Seq<char> {
    (if o == LoginOutcome::Success {
        "<p class=\"text-center text-green-400 mb-4 text-sm sm:text-base\">"@
    } else {
        "<p class=\"text-center text-red-400 mb-4 text-sm sm:text-base\">"@
    }) + login_text_spec(o) + "</p>"@
}

impl LoginOutcome {
    /// The HTTP status to answer with.
    pub fn status(self) -> (s: u16)
        ensures
            s == login_status_spec(self),
    {
        match self {
            LoginOutcome::MissingFields => 400,
            LoginOutcome::UnknownUser => 401,
            LoginOutcome::LookupFailed => 500,
            LoginOutcome::Inactive => 403,
            LoginOutcome::WrongPassword => 401,
            LoginOutcome::SessionFailed => 500,
            LoginOutcome::Success => 200,
        }
    }

    /// The HTML paragraph to answer with.
    pub fn message_html(self) -> (s: String)
        ensures
            s@ == login_html_spec(self),
    {
        let mut v: Vec<char> = Vec::new();
        if self == LoginOutcome::Success {
            crate::text::append_str(
                &mut v,
                "<p class=\"text-center text-green-400 mb-4 text-sm sm:text-base\">",
            );
        } else {
            crate::text::append_str(
                &mut v,
                "<p class=\"text-center text-red-400 mb-4 text-sm sm:text-base\">",
            );
        }
        let text = match self {
            LoginOutcome::MissingFields => "Erro: Email e password são obrigatórios",
            LoginOutcome::UnknownUser => "Erro: Utilizador não encontrado",
            LoginOutcome::LookupFailed => "Erro: Erro ao fazer login",
            LoginOutcome::Inactive => "Erro: Utilizador inativo",
            LoginOutcome::WrongPassword => "Erro: Password incorreta",
            LoginOutcome::SessionFailed => "Erro: Não foi possível criar sessão",
            LoginOutcome::Success => "Login bem-sucedido!",
        };
        crate::text::append_str(&mut v, text);
        crate::text::append_str(&mut v, "</p>");
        assert(v@ =~= login_html_spec(self));
        crate::text::string_from_chars(&v)
    }
}

/// A sign-in succeeds exactly for an enabled account whose stored hash
/// accepts the password.
pub proof fn law_login_needs_active_account_and_password(lookup: UserLookup, password: Seq<char>)
    ensures
        login_check_spec(lookup, password_ok_spec(lookup, password)) is Ok <==> (lookup matches UserLookup::Found(u)
            && u.ativo && bcrypt_accepts(password, u.password_hash@)),
{
}

// ---------------------------------------------------------------------------
// Registration and password resets
// ---------------------------------------------------------------------------

/// The registration form.
pub struct RegisterForm {
    /// Name.
    pub nome: String,
    /// Email.
    pub email: String,
    /// Church, optional.
    pub igreja: Option<String>,
}

/// A registration to record.
pub struct Registration {
    /// Name, trimmed.
    pub nome: String,
    /// Email, trimmed and in lowercase.
    pub email: String,
    /// Church, trimmed, when not blank.
    pub igreja: Option<String>,
}

/// Checks the registration form: name and email are required.
pub fn prepare_registration(form: RegisterForm) -> (r: Option<Registration>)
    ensures
        r is Some <==> (trim(form.nome@).len() > 0 && trim(form.email@).len() > 0),
        r matches Some(x) ==> {
            &&& x.nome@ == trim(form.nome@)
            &&& x.email@ == email_key(form.email@)
            &&& opt_view(x.igreja) == church_spec(form.igreja)
        },
{
    let email = normalize_email(form.email.as_str());
    let nome = trim_string(form.nome.as_str());
    if nome.as_str().is_empty() || email.as_str().is_empty() {
        return None;
    }
    Some(Registration { nome, email, igreja: optional_church(form.igreja) })
}

/// What to do with a registration, given the account already on that
/// email (its id and whether it is enabled).
#[derive(Clone, Copy, PartialEq, Eq, Structural, Debug)]
pub enum RegistrationStep {
    /// An enabled account has the email: refuse.
    AlreadyActive,
    /// An account waits for confirmation: update it and send a new link.
    RefreshPending(i32),
    /// No account yet: create a disabled one and send a link.
    CreateAccount,
}

/// Decides what a registration does.
pub fn registration_step(existing: Option<(i32, bool)>) -> (s: RegistrationStep)
    ensures
        s == (match existing {
            Some((_, true)) => RegistrationStep::AlreadyActive,
            Some((id, false)) => RegistrationStep::RefreshPending(id),
            None => RegistrationStep::CreateAccount,
        }),
{
    match existing {
        Some((_, true)) => RegistrationStep::AlreadyActive,
        Some((id, false)) => RegistrationStep::RefreshPending(id),
        None => RegistrationStep::CreateAccount,
    }
}

/// The email of a reset request, trimmed and in lowercase; none when blank.
pub fn forgot_request(email: &str) -> (r: Option<String>)
    ensures
        r is Some <==> trim(email@).len() > 0,
        r matches Some(e) ==> e@ == email_key(email@),
{
    let e = normalize_email(email);
    if e.as_str().is_empty() {
        None
    } else {
        Some(e)
    }
}

/// A new password is accepted with at least 6 bytes, typed the same twice.
pub fn reset_passwords_acceptable(password: &str, confirmation: &str) -> (ok: bool)
    ensures
        ok == (byte_len(password@) >= 6 && password@ == confirmation@),
{
    password_long_enough(password) && crate::text::str_eq(password, confirmation)
}

/// A password set by the user manager has at least 6 bytes.
pub fn password_long_enough(password: &str) -> (ok: bool)
    ensures
        ok == (byte_len(password@) >= 6),
{
    password.as_bytes().len() >= 6
}

// ---------------------------------------------------------------------------
// The user manager
// ---------------------------------------------------------------------------

/// The form that creates an account.
pub struct NewUserForm {
    /// Name.
    pub nome: String,
    /// Email.
    pub email: String,
    /// Password.
    pub password: String,
    /// Church, optional.
    pub igreja: Option<String>,
    /// Profile, 1 to 4.
    pub perfil: i32,
    /// Whether the account starts enabled (default: yes).
    pub ativo: Option<bool>,
}

/// An account to create (the password is hashed apart).
pub struct NewUser {
    /// Name, trimmed.
    pub nome: String,
    /// Email, trimmed and in lowercase.
    pub email: String,
    /// Church, trimmed, when not blank.
    pub igreja: Option<String>,
    /// Profile.
    pub perfil: i32,
    /// Whether the account is enabled.
    pub ativo: bool,
}

/// Whether the form that creates an account is complete: name, email, a
/// password of at least 6 bytes and a known profile.
pub open spec fn validate_new_user_spec(form: NewUserForm) -> bool {
    trim(form.nome@).len() > 0 && trim(form.email@).len() > 0 && byte_len(form.password@) >= 6 && 1
        <= form.perfil <= 4
}

/// Checks the form that creates an account: name, email, a password of at
/// least 6 bytes and a known profile are required.
pub fn validate_new_user(form: &NewUserForm) -> (r: Option<NewUser>)
    ensures
        r is Some <==> validate_new_user_spec(*form),
        r matches Some(u) ==> {
            &&& u.nome@ == trim(form.nome@)
            &&& u.email@ == email_key(form.email@)
            &&& opt_view(u.igreja) == church_spec(form.igreja)
            &&& u.perfil == form.perfil
            &&& u.ativo == (match form.ativo {
                Some(a) => a,
                None => true,
            })
        },
{
    let email = normalize_email(form.email.as_str());
    let nome = trim_string(form.nome.as_str());
    if nome.as_str().is_empty() || email.as_str().is_empty() || !password_long_enough(
        form.password.as_str(),
    ) || !crate::access::valid_profile(form.perfil) {
        return None;
    }
    let ativo = match form.ativo {
        Some(a) => a,
        None => true,
    };
    Some(NewUser { nome, email, igreja: optional_church(form.igreja.clone()), perfil: form.perfil, ativo })
}

/// The form that edits an account.
pub struct UserUpdateForm {
    /// Name.
    pub nome: String,
    /// Email.
    pub email: String,
    /// Church, optional.
    pub igreja: Option<String>,
    /// Profile.
    pub perfil: i32,
}

/// The new values of an account.
pub struct UserUpdate {
    /// Name, trimmed.
    pub nome: String,
    /// Email, trimmed and in lowercase.
    pub email: String,
    /// Church, trimmed, when not blank.
    pub igreja: Option<String>,
    /// Profile.
    pub perfil: i32,
}

/// Why an edit is refused.
#[derive(Clone, Copy, PartialEq, Eq, Structural, Debug)]
pub enum UpdateRefusal {
    /// Name, email or a known profile missing.
    Incomplete,
    /// A programmer may not take the programmer profile from themself.
    OwnProgrammerProfile,
}

/// Whether an edit form has a name, an email and a known profile.
pub open spec fn update_complete_spec(form: UserUpdateForm) -> bool {
    trim(form.nome@).len() > 0 && trim(form.email@).len() > 0 && 1 <= form.perfil <= 4
}

/// Why an edit of account `target_id` by `current_id` is refused, if it is.
pub open spec fn update_refusal_spec(target_id: i32, current_id: i32, form: UserUpdateForm) -> Option<
    UpdateRefusal,
> {
    if !update_complete_spec(form) {
        Some(UpdateRefusal::Incomplete)
    } else if target_id == current_id && form.perfil != 4 {
        Some(UpdateRefusal::OwnProgrammerProfile)
    } else {
        None
    }
}

/// Checks an edit of account `target_id` made by `current_id`.
pub fn validate_user_update(target_id: i32, current_id: i32, form: UserUpdateForm) -> (r: Result<
    UserUpdate,
    UpdateRefusal,
>)
    ensures
        match r {
            Ok(u) => {
                &&& update_refusal_spec(target_id, current_id, form) is None
                &&& u.nome@ == trim(form.nome@)
                &&& u.email@ == email_key(form.email@)
                &&& opt_view(u.igreja) == church_spec(form.igreja)
                &&& u.perfil == form.perfil
            },
            Err(e) => update_refusal_spec(target_id, current_id, form) == Some(e),
        },
{
    let email = normalize_email(form.email.as_str());
    let nome = trim_string(form.nome.as_str());
    if nome.as_str().is_empty() || email.as_str().is_empty() || !crate::access::valid_profile(
        form.perfil,
    ) {
        return Err(UpdateRefusal::Incomplete);
    }
    if target_id == current_id && form.perfil != 4 {
        return Err(UpdateRefusal::OwnProgrammerProfile);
    }
    Ok(UserUpdate { nome, email, igreja: optional_church(form.igreja), perfil: form.perfil })
}

/// Whether a programmer may disable or delete account `target_id`.
pub open spec fn may_change_spec(target_id: i32, current_id: i32) -> bool {
    target_id != current_id
}

/// A programmer may disable or delete any account but their own.
pub fn may_change_other_account(target_id: i32, current_id: i32) -> (ok: bool)
    ensures
        ok == may_change_spec(target_id, current_id),
{
    target_id != current_id
}

/// The manager cannot lock a programmer out: an accepted edit of their
/// own account keeps the programmer profile, and their own account can be
/// neither disabled nor deleted.
pub proof fn law_programmer_keeps_own_access(current_id: i32, form: UserUpdateForm)
    ensures
        update_refusal_spec(current_id, current_id, form) is None ==> form.perfil == 4,
        !may_change_spec(current_id, current_id),
{
}

/// An account as listed in the user manager.
pub struct UserRow {
    /// Account id.
    pub id: i32,
    /// Email.
    pub email: String,
    /// Name.
    pub nome: String,
    /// Profile.
    pub perfil: Option<i32>,
    /// Church.
    pub igreja: Option<String>,
    /// Whether enabled.
    pub ativo: bool,
}

/// The church column: the church or `-`.
pub open spec fn church_display_spec(igreja: Option<String>) -> Seq<char> {
    match igreja {
        Some(s) => s@,
        None => "-"@,
    }
}

/// Colour of the status column.
pub open spec fn status_class_spec(ativo: bool) -> Seq<char> {
    if ativo {
        "text-green-400"@
    } else {
        "text-red-400"@
    }
}

/// Text of the status column.
pub open spec fn status_text_spec(ativo: bool) -> Seq<char> {
    if ativo {
        "✓ Ativo"@
    } else {
        "✗ Inativo"@
    }
}

/// One row of the user table, with its actions.
pub open spec fn user_row_spec(r: UserRow) -> Seq<char> {
    "<tr class=\"border-b border-gray-700/50 hover:bg-gray-700/30\">\n                  <td class=\"py-3 px-4\">\n                    <div class=\"font-medium text-white\">"@
        + escape_html_spec(r.nome@)
        + "</div>\n                    <div class=\"text-xs text-gray-400\">"@
        + escape_html_spec(r.email@)
        + "</div>\n                  </td>\n                  <td class=\"py-3 px-4 text-gray-300\">"@
        + escape_html_spec(church_display_spec(r.igreja))
        + "</td>\n                  <td class=\"py-3 px-4\">\n                    <span class=\"px-2 py-1 rounded text-xs font-medium bg-blue-500/20 text-blue-300 border border-blue-400/30\">"@
        + profile_label_spec(r.perfil)
        + "</span>\n                  </td>\n                  <td class=\"py-3 px-4 "@
        + status_class_spec(r.ativo)
        + "\">"@
        + status_text_spec(r.ativo)
        + "</td>\n                  <td class=\"py-3 px-4 text-right\">\n                    <button hx-get=\"/htmx/users/"@
        + signed_decimal_spec(r.id as int)
        + "/edit\" hx-target=\"#edit-user-"@
        + signed_decimal_spec(r.id as int)
        + "\" hx-swap=\"innerHTML\" class=\"text-blue-400 hover:text-blue-300 mr-2\" title=\"Editar\">✏️</button>\n                    <button hx-post=\"/htmx/users/"@
        + signed_decimal_spec(r.id as int)
        + "/toggle\" hx-target=\"#edit-user-"@
        + signed_decimal_spec(r.id as int)
        + "\" hx-swap=\"innerHTML\" class=\"text-yellow-400 hover:text-yellow-300 mr-2\" title=\"Ativar/Desativar\">🔄</button>\n                    <button hx-get=\"/htmx/users/"@
        + signed_decimal_spec(r.id as int)
        + "/password\" hx-target=\"#edit-user-"@
        + signed_decimal_spec(r.id as int)
        + "\" hx-swap=\"innerHTML\" class=\"text-purple-400 hover:text-purple-300 mr-2\" title=\"Alterar Password\">🔑</button>\n                    <button hx-post=\"/htmx/users/"@
        + signed_decimal_spec(r.id as int)
        + "/delete\" hx-target=\"#user-form-message\" hx-swap=\"innerHTML\" hx-confirm=\"Tem a certeza que pretende apagar este utilizador? Esta ação não pode ser revertida.\" class=\"text-red-400 hover:text-red-300\" title=\"Apagar\">🗑️</button>\n                  </td>\n                </tr>\n                <tr id=\"edit-user-"@
        + signed_decimal_spec(r.id as int)
        + "\"></tr>"@
}

/// The table row of an account.
pub fn user_row_html(r: &UserRow) -> (s: String)
    ensures
        s@ == user_row_spec(*r),
{
    let church: &str = match &r.igreja {
        Some(s) => s.as_str(),
        None => "-",
    };
    let label = profile_label(r.perfil);
    let status_class: &str = if r.ativo {
        "text-green-400"
    } else {
        "text-red-400"
    };
    let status_text: &str = if r.ativo {
        "✓ Ativo"
    } else {
        "✗ Inativo"
    };
    let mut v: Vec<char> = Vec::new();
    append_str(&mut v, "<tr class=\"border-b border-gray-700/50 hover:bg-gray-700/30\">\n                  <td class=\"py-3 px-4\">\n                    <div class=\"font-medium text-white\">");
    append_escaped(&mut v, r.nome.as_str());
    append_str(&mut v, "</div>\n                    <div class=\"text-xs text-gray-400\">");
    append_escaped(&mut v, r.email.as_str());
    append_str(&mut v, "</div>\n                  </td>\n                  <td class=\"py-3 px-4 text-gray-300\">");
    append_escaped(&mut v, church);
    append_str(&mut v, "</td>\n                  <td class=\"py-3 px-4\">\n                    <span class=\"px-2 py-1 rounded text-xs font-medium bg-blue-500/20 text-blue-300 border border-blue-400/30\">");
    append_str(&mut v, label.as_str());
    append_str(&mut v, "</span>\n                  </td>\n                  <td class=\"py-3 px-4 ");
    append_str(&mut v, status_class);
    append_str(&mut v, "\">");
    append_str(&mut v, status_text);
    append_str(&mut v, "</td>\n                  <td class=\"py-3 px-4 text-right\">\n                    <button hx-get=\"/htmx/users/");
    push_signed_decimal(&mut v, r.id as i64);
    append_str(&mut v, "/edit\" hx-target=\"#edit-user-");
    push_signed_decimal(&mut v, r.id as i64);
    append_str(&mut v, "\" hx-swap=\"innerHTML\" class=\"text-blue-400 hover:text-blue-300 mr-2\" title=\"Editar\">✏️</button>\n                    <button hx-post=\"/htmx/users/");
    push_signed_decimal(&mut v, r.id as i64);
    append_str(&mut v, "/toggle\" hx-target=\"#edit-user-");
    push_signed_decimal(&mut v, r.id as i64);
    append_str(&mut v, "\" hx-swap=\"innerHTML\" class=\"text-yellow-400 hover:text-yellow-300 mr-2\" title=\"Ativar/Desativar\">🔄</button>\n                    <button hx-get=\"/htmx/users/");
    push_signed_decimal(&mut v, r.id as i64);
    append_str(&mut v, "/password\" hx-target=\"#edit-user-");
    push_signed_decimal(&mut v, r.id as i64);
    append_str(&mut v, "\" hx-swap=\"innerHTML\" class=\"text-purple-400 hover:text-purple-300 mr-2\" title=\"Alterar Password\">🔑</button>\n                    <button hx-post=\"/htmx/users/");
    push_signed_decimal(&mut v, r.id as i64);
    append_str(&mut v, "/delete\" hx-target=\"#user-form-message\" hx-swap=\"innerHTML\" hx-confirm=\"Tem a certeza que pretende apagar este utilizador? Esta ação não pode ser revertida.\" class=\"text-red-400 hover:text-red-300\" title=\"Apagar\">🗑️</button>\n                  </td>\n                </tr>\n                <tr id=\"edit-user-");
    push_signed_decimal(&mut v, r.id as i64);
    append_str(&mut v, "\"></tr>");
    assert(v@ =~= user_row_spec(*r));
    string_from_chars(&v)
}

/// The rows one after another.
pub open spec fn user_rows_spec(rows: Seq<UserRow>) -> Seq<char>
    decreases rows.len(),
{
    if rows.len() == 0 {
        seq![]
    } else {
        user_rows_spec(rows.drop_last()) + user_row_spec(rows.last())
    }
}

/// The table around the rows.
pub open spec fn users_table_spec(rows: Seq<char>) -> Seq<char> {
    "<div class=\"overflow-x-auto\">\n          <table class=\"w-full text-sm text-gray-300\">\n            <thead>\n              <tr class=\"border-b border-gray-700 bg-gray-900/50\">\n                <th class=\"text-left py-3 px-4 font-semibold text-gray-200\">Utilizador</th>\n                <th class=\"text-left py-3 px-4 font-semibold text-gray-200\">Igreja</th>\n                <th class=\"text-left py-3 px-4 font-semibold text-gray-200\">Perfil</th>\n                <th class=\"text-left py-3 px-4 font-semibold text-gray-200\">Status</th>\n                <th class=\"text-right py-3 px-4 font-semibold text-gray-200\">Ações</th>\n              </tr>\n            </thead>\n            <tbody>\n              "@
        + rows
        + "\n            </tbody>\n          </table>\n        </div>"@
}

/// The user manager's list: a table of all accounts, or a note when there
/// is none.
pub open spec fn users_list_spec(users: Seq<UserRow>) -> Seq<char> {
    if users.len() == 0 {
        "<p class=\"text-gray-400 text-center py-8\">Nenhum utilizador encontrado</p>"@
    } else {
        users_table_spec(user_rows_spec(users))
    }
}

/// The HTML list of accounts for the user manager.
pub fn users_list_html(users: &Vec<UserRow>) -> (s: String)
    ensures
        s@ == users_list_spec(users@),
{
    if users.len() == 0 {
        return "<p class=\"text-gray-400 text-center py-8\">Nenhum utilizador encontrado</p>".to_string();
    }
    let mut all: Vec<char> = Vec::new();
    let mut i: usize = 0;
    while i < users.len()
        invariant
            i <= users.len(),
            all@ == user_rows_spec(users@.take(i as int)),
        decreases users.len() - i,
    {
        let row = user_row_html(&users[i]);
        append_str(&mut all, row.as_str());
        proof {
            assert(users@.take(i + 1).drop_last() =~= users@.take(i as int));
        }
        i += 1;
    }
    assert(users@.take(users.len() as int) =~= users@);
    let rows = string_from_chars(&all);
    let rows = rows.as_str();
    let mut v: Vec<char> = Vec::new();
    append_str(&mut v, "<div class=\"overflow-x-auto\">\n          <table class=\"w-full text-sm text-gray-300\">\n            <thead>\n              <tr class=\"border-b border-gray-700 bg-gray-900/50\">\n                <th class=\"text-left py-3 px-4 font-semibold text-gray-200\">Utilizador</th>\n                <th class=\"text-left py-3 px-4 font-semibold text-gray-200\">Igreja</th>\n                <th class=\"text-left py-3 px-4 font-semibold text-gray-200\">Perfil</th>\n                <th class=\"text-left py-3 px-4 font-semibold text-gray-200\">Status</th>\n                <th class=\"text-right py-3 px-4 font-semibold text-gray-200\">Ações</th>\n              </tr>\n            </thead>\n            <tbody>\n              ");
    append_str(&mut v, rows);
    append_str(&mut v, "\n            </tbody>\n          </table>\n        </div>");
    assert(v@ =~= users_table_spec(rows@));
    string_from_chars(&v)
}

/// `selected` when the option is the current profile.
pub open spec fn selected_spec(b: bool) -> Seq<char> {
    if b {
        "selected"@
    } else {
        ""@
    }
}

/// The inline form that edits an account.
pub open spec fn edit_user_form_spec(user_id: i32, nome: Seq<char>, email: Seq<char>, igreja: Seq<char>, perfil: i32) -> Seq<char> {
    "<td colspan=\"5\" class=\"py-4 px-4 bg-gray-700/30\">\n                  <form hx-post=\"/htmx/users/"@
        + signed_decimal_spec(user_id as int)
        + "/update\" hx-target=\"#edit-user-"@
        + signed_decimal_spec(user_id as int)
        + "\" hx-swap=\"innerHTML\" class=\"space-y-3\">\n                    <div class=\"grid grid-cols-1 md:grid-cols-2 gap-3\">\n                      <div>\n                        <label class=\"block text-xs font-medium text-gray-400 mb-1\">Nome</label>\n                        <input type=\"text\" name=\"nome\" value=\""@
        + escape_html_spec(nome)
        + "\" class=\"w-full px-3 py-1.5 rounded bg-gray-600 text-white border border-gray-500 text-sm\" />\n                      </div>\n                      <div>\n                        <label class=\"block text-xs font-medium text-gray-400 mb-1\">Email</label>\n                        <input type=\"email\" name=\"email\" value=\""@
        + escape_html_spec(email)
        + "\" class=\"w-full px-3 py-1.5 rounded bg-gray-600 text-white border border-gray-500 text-sm\" />\n                      </div>\n                      <div>\n                        <label class=\"block text-xs font-medium text-gray-400 mb-1\">Igreja</label>\n                        <input type=\"text\" name=\"igreja\" value=\""@
        + escape_html_spec(igreja)
        + "\" class=\"w-full px-3 py-1.5 rounded bg-gray-600 text-white border border-gray-500 text-sm\" />\n                      </div>\n                      <div>\n                        <label class=\"block text-xs font-medium text-gray-400 mb-1\">Perfil</label>\n                        <select name=\"perfil\" class=\"w-full px-3 py-1.5 rounded bg-gray-600 text-white border border-gray-500 text-sm\">\n                          <option value=\"1\" "@
        + selected_spec(perfil == 1)
        + ">Utilizador</option>\n                          <option value=\"2\" "@
        + selected_spec(perfil == 2)
        + ">Moderador</option>\n                          <option value=\"3\" "@
        + selected_spec(perfil == 3)
        + ">Colaborador</option>\n                          <option value=\"4\" "@
        + selected_spec(perfil == 4)
        + ">Programador</option>\n                        </select>\n                      </div>\n                    </div>\n                    <div class=\"flex gap-2\">\n                      <button type=\"submit\" class=\"bg-green-600 hover:bg-green-700 text-white text-sm py-1.5 px-4 rounded\">Guardar</button>\n                      <button type=\"button\" hx-get=\"/htmx/users/list\" hx-target=\"#users-list-container\" hx-swap=\"innerHTML\" class=\"bg-gray-600 hover:bg-gray-700 text-white text-sm py-1.5 px-4 rounded\">Cancelar</button>\n                    </div>\n                  </form>\n                </td>"@
}

/// The inline form that edits account `user_id`, filled with its values
/// (no church shows empty; no profile selects "Utilizador").
pub fn edit_user_form_html(user_id: i32, nome: &str, email: &str, igreja: &Option<String>, perfil: Option<i32>) -> (s: String)
    ensures
        s@ == edit_user_form_spec(user_id, nome@, email@, crate::songs::or_empty(*igreja),
            crate::access::effective_profile(perfil)),
{
    let perfil: i32 = match perfil {
        Some(p) => p,
        None => 1,
    };
    let igreja_text = crate::songs::unwrap_or_empty(igreja);
    let igreja: &str = igreja_text.as_str();
    let mut v: Vec<char> = Vec::new();
    append_str(&mut v, "<td colspan=\"5\" class=\"py-4 px-4 bg-gray-700/30\">\n                  <form hx-post=\"/htmx/users/");
    push_signed_decimal(&mut v, user_id as i64);
    append_str(&mut v, "/update\" hx-target=\"#edit-user-");
    push_signed_decimal(&mut v, user_id as i64);
    append_str(&mut v, "\" hx-swap=\"innerHTML\" class=\"space-y-3\">\n                    <div class=\"grid grid-cols-1 md:grid-cols-2 gap-3\">\n                      <div>\n                        <label class=\"block text-xs font-medium text-gray-400 mb-1\">Nome</label>\n                        <input type=\"text\" name=\"nome\" value=\"");
    append_escaped(&mut v, nome);
    append_str(&mut v, "\" class=\"w-full px-3 py-1.5 rounded bg-gray-600 text-white border border-gray-500 text-sm\" />\n                      </div>\n                      <div>\n                        <label class=\"block text-xs font-medium text-gray-400 mb-1\">Email</label>\n                        <input type=\"email\" name=\"email\" value=\"");
    append_escaped(&mut v, email);
    append_str(&mut v, "\" class=\"w-full px-3 py-1.5 rounded bg-gray-600 text-white border border-gray-500 text-sm\" />\n                      </div>\n                      <div>\n                        <label class=\"block text-xs font-medium text-gray-400 mb-1\">Igreja</label>\n                        <input type=\"text\" name=\"igreja\" value=\"");
    append_escaped(&mut v, igreja);
    append_str(&mut v, "\" class=\"w-full px-3 py-1.5 rounded bg-gray-600 text-white border border-gray-500 text-sm\" />\n                      </div>\n                      <div>\n                        <label class=\"block text-xs font-medium text-gray-400 mb-1\">Perfil</label>\n                        <select name=\"perfil\" class=\"w-full px-3 py-1.5 rounded bg-gray-600 text-white border border-gray-500 text-sm\">\n                          <option value=\"1\" ");
    append_str(&mut v, if perfil == 1 { "selected" } else { "" });
    append_str(&mut v, ">Utilizador</option>\n                          <option value=\"2\" ");
    append_str(&mut v, if perfil == 2 { "selected" } else { "" });
    append_str(&mut v, ">Moderador</option>\n                          <option value=\"3\" ");
    append_str(&mut v, if perfil == 3 { "selected" } else { "" });
    append_str(&mut v, ">Colaborador</option>\n                          <option value=\"4\" ");
    append_str(&mut v, if perfil == 4 { "selected" } else { "" });
    append_str(&mut v, ">Programador</option>\n                        </select>\n                      </div>\n                    </div>\n                    <div class=\"flex gap-2\">\n                      <button type=\"submit\" class=\"bg-green-600 hover:bg-green-700 text-white text-sm py-1.5 px-4 rounded\">Guardar</button>\n                      <button type=\"button\" hx-get=\"/htmx/users/list\" hx-target=\"#users-list-container\" hx-swap=\"innerHTML\" class=\"bg-gray-600 hover:bg-gray-700 text-white text-sm py-1.5 px-4 rounded\">Cancelar</button>\n                    </div>\n                  </form>\n                </td>");
    assert(v@ =~= edit_user_form_spec(user_id, nome@, email@, igreja@, perfil));
    string_from_chars(&v)
}

/// The inline form that sets a new password for an account.
pub open spec fn password_form_spec(user_id: i32) -> Seq<char> {
    "<td colspan=\"5\" class=\"py-4 px-4 bg-gray-700/30\"><form hx-post=\"/htmx/users/"@
        + signed_decimal_spec(user_id as int)
        + "/password\" hx-target=\"#edit-user-"@
        + signed_decimal_spec(user_id as int)
        + "\" hx-swap=\"innerHTML\" class=\"flex flex-wrap items-end gap-3\"><div><label class=\"block text-xs font-medium text-gray-400 mb-1\">Nova password</label><input type=\"password\" name=\"password\" required minlength=\"6\" class=\"px-3 py-1.5 rounded bg-gray-600 text-white border border-gray-500 text-sm\" placeholder=\"Mínimo 6 caracteres\" /></div><button type=\"submit\" class=\"bg-purple-600 hover:bg-purple-700 text-white text-sm py-1.5 px-4 rounded\">Alterar password</button><button type=\"button\" hx-get=\"/htmx/users/list\" hx-target=\"#users-list-container\" hx-swap=\"innerHTML\" class=\"bg-gray-600 hover:bg-gray-700 text-white text-sm py-1.5 px-4 rounded\">Cancelar</button></form></td>"@
}

/// The inline form that sets a new password for account `user_id`.
pub fn password_form_html(user_id: i32) -> (s: String)
    ensures
        s@ == password_form_spec(user_id),
{
    let mut v: Vec<char> = Vec::new();
    append_str(&mut v, "<td colspan=\"5\" class=\"py-4 px-4 bg-gray-700/30\"><form hx-post=\"/htmx/users/");
    push_signed_decimal(&mut v, user_id as i64);
    append_str(&mut v, "/password\" hx-target=\"#edit-user-");
    push_signed_decimal(&mut v, user_id as i64);
    append_str(&mut v, "\" hx-swap=\"innerHTML\" class=\"flex flex-wrap items-end gap-3\"><div><label class=\"block text-xs font-medium text-gray-400 mb-1\">Nova password</label><input type=\"password\" name=\"password\" required minlength=\"6\" class=\"px-3 py-1.5 rounded bg-gray-600 text-white border border-gray-500 text-sm\" placeholder=\"Mínimo 6 caracteres\" /></div><button type=\"submit\" class=\"bg-purple-600 hover:bg-purple-700 text-white text-sm py-1.5 px-4 rounded\">Alterar password</button><button type=\"button\" hx-get=\"/htmx/users/list\" hx-target=\"#users-list-container\" hx-swap=\"innerHTML\" class=\"bg-gray-600 hover:bg-gray-700 text-white text-sm py-1.5 px-4 rounded\">Cancelar</button></form></td>");
    assert(v@ =~= password_form_spec(user_id));
    string_from_chars(&v)
}

// ---------------------------------------------------------------------------
// Messages
// ---------------------------------------------------------------------------

/// A message shown by the account pages.
#[derive(Clone, Copy, PartialEq, Eq, Structural, Debug)]
pub enum AccountNotice {
    /// The session has expired.
    SessionExpired,
    /// Only programmers may use the user manager.
    AccessDenied,
    /// The new account lacks a name, an email, a long enough password or a known profile.
    CreateIncomplete,
    /// The password could not be hashed.
    PasswordHashFailed,
    /// Another account has the email.
    EmailTaken,
    /// The account was created.
    Created,
    /// The account could not be created.
    CreateFailed,
    /// The edit lacks a name, an email or a known profile.
    UpdateIncomplete,
    /// A programmer tried to give up their own programmer profile.
    OwnProfile,
    /// The account was updated.
    Updated,
    /// No such account.
    UserNotFound,
    /// The account could not be updated.
    UpdateFailed,
    /// A programmer tried to disable their own account.
    OwnDisable,
    /// The account was enabled or disabled; the list reloads.
    Toggled,
    /// The account could not be enabled or disabled.
    ToggleFailed,
    /// A programmer tried to delete their own account.
    OwnDelete,
    /// The account was deleted.
    Deleted,
    /// The account has data and cannot be deleted.
    DeleteBlocked,
    /// The new password has fewer than 6 bytes.
    PasswordTooShort,
    /// The password was changed.
    PasswordChanged,
    /// The password could not be changed.
    PasswordChangeFailed,
    /// The demo data could not be removed.
    DemoCleanFailed,
    /// The registration lacks a name or an email.
    RegisterIncomplete,
    /// An enabled account already has the email.
    AlreadyRegistered,
    /// The registration could not be processed.
    RegisterProcessingFailed,
    /// The registration could not be recorded.
    RegisterCreateFailed,
    /// The registration was recorded and a confirmation email sent.
    Registered,
    /// The reset request has no email.
    ForgotMissingEmail,
    /// The reset request was handled (whether or not the account exists).
    ForgotSent,
    /// The new passwords differ or are too short.
    ResetMismatch,
    /// The new password could not be saved.
    ResetFailed,
    /// The reset link is unknown, used or expired.
    ResetLinkInvalid,
    /// The password was changed; the browser goes to the sign-in page.
    ResetDone,
}

/// The HTML of a message.
pub open spec fn notice_spec(n: AccountNotice) -> Seq<char> {
    match n {
        AccountNotice::SessionExpired => "<p class=\"text-red-400\">Sessão expirada</p>"@,
        AccountNotice::AccessDenied => "<p class=\"text-red-400\">Acesso negado</p>"@,
        AccountNotice::CreateIncomplete => "<p class=\"text-red-400\">Preencha nome, email, password (mínimo 6 caracteres) e um perfil válido</p>"@,
        AccountNotice::PasswordHashFailed => "<p class=\"text-red-400\">Erro ao processar password</p>"@,
        AccountNotice::EmailTaken => "<p class=\"text-red-400\">Este email já está registado</p>"@,
        AccountNotice::Created => "<p class=\"text-green-400\">✓ Utilizador criado com sucesso!</p>"@,
        AccountNotice::CreateFailed => "<p class=\"text-red-400\">Erro ao criar utilizador</p>"@,
        AccountNotice::UpdateIncomplete => "<p class=\"text-red-400\">Preencha nome, email e um perfil válido</p>"@,
        AccountNotice::OwnProfile => "<p class=\"text-yellow-400\">⚠ Não pode remover o seu próprio perfil de Programador</p>"@,
        AccountNotice::Updated => "<p class=\"text-green-400\">✓ Utilizador atualizado!</p>"@,
        AccountNotice::UserNotFound => "<p class=\"text-red-400\">Utilizador não encontrado</p>"@,
        AccountNotice::UpdateFailed => "<p class=\"text-red-400\">Erro ao actualizar utilizador</p>"@,
        AccountNotice::OwnDisable => "<p class=\"text-yellow-400\">⚠ Não pode desactivar a sua própria conta</p>"@,
        AccountNotice::Toggled => "<script>htmx.ajax('GET', '/htmx/users/list', {target: '#users-list-container', swap: 'innerHTML'});</script><p class=\"text-green-400\">✓ Status actualizado!</p>"@,
        AccountNotice::ToggleFailed => "<p class=\"text-red-400\">Erro ao actualizar status</p>"@,
        AccountNotice::OwnDelete => "<p class=\"text-yellow-400\">⚠ Não pode apagar a sua própria conta</p>"@,
        AccountNotice::Deleted => "<p class=\"text-green-400\">✓ Utilizador apagado com sucesso!</p>"@,
        AccountNotice::DeleteBlocked => "<p class=\"text-red-400\">Não foi possível apagar o utilizador porque tem dados associados</p>"@,
        AccountNotice::PasswordTooShort => "<p class=\"text-red-400\">Password deve ter pelo menos 6 caracteres</p>"@,
        AccountNotice::PasswordChanged => "<p class=\"text-green-400\">✓ Password alterada com sucesso!</p>"@,
        AccountNotice::PasswordChangeFailed => "<p class=\"text-red-400\">Erro ao alterar password</p>"@,
        AccountNotice::DemoCleanFailed => "<p class=\"text-red-400\">Erro ao limpar dados demo.</p>"@,
        AccountNotice::RegisterIncomplete => "<div class=\"p-4 bg-red-500/20 border border-red-500/50 rounded-lg\"><p class=\"text-red-400 text-sm\">Nome e email são obrigatórios</p></div>"@,
        AccountNotice::AlreadyRegistered => "<div class=\"p-4 bg-yellow-500/20 border border-yellow-500/50 rounded-lg\"><p class=\"text-yellow-300 text-sm\">Este email já está registado. Se esqueceu a password, use a opção \"Esqueceu Password?\".</p></div>"@,
        AccountNotice::RegisterProcessingFailed => "<p class=\"text-red-400\">Erro ao processar registo</p>"@,
        AccountNotice::RegisterCreateFailed => "<p class=\"text-red-400\">Erro ao criar registo. Tente novamente.</p>"@,
        AccountNotice::Registered => "<div class=\"p-4 bg-green-500/20 border border-green-500/50 rounded-lg\"><p class=\"text-green-400 text-sm\">Registo efetuado! Verifique o seu email para confirmar a conta e definir a password.</p></div>"@,
        AccountNotice::ForgotMissingEmail => "<div class=\"p-4 bg-red-500/20 border border-red-500/50 rounded-lg\"><p class=\"text-red-400 text-sm\">Erro: Email é obrigatório</p></div>"@,
        AccountNotice::ForgotSent => "<div class=\"p-4 bg-green-500/20 border border-green-500/50 rounded-lg\"><p class=\"text-green-400 text-sm\">Se um utilizador com este email existir, será enviado um link de reset para o seu email.</p></div>"@,
        AccountNotice::ResetMismatch => "<div class=\"p-4 bg-red-500/20 border border-red-500/50 rounded-lg\"><p class=\"text-red-400 text-sm\">As passwords devem coincidir e ter pelo menos 6 caracteres.</p></div>"@,
        AccountNotice::ResetFailed => "<p class=\"text-red-400\">Não foi possível alterar a password. Tente novamente.</p>"@,
        AccountNotice::ResetLinkInvalid => "<p class=\"text-red-400\">Este link é inválido, já foi usado ou expirou.</p>"@,
        AccountNotice::ResetDone => "<p class=\"text-green-400\">Password alterada com sucesso. A redirecionar para o login…</p>"@,
    }
}

impl AccountNotice {
    /// The HTML of the message.
    pub fn html(self) -> (s: String)
        ensures
            s@ == notice_spec(self),
    {
        let text: &str = match self {
            AccountNotice::SessionExpired => "<p class=\"text-red-400\">Sessão expirada</p>",
            AccountNotice::AccessDenied => "<p class=\"text-red-400\">Acesso negado</p>",
            AccountNotice::CreateIncomplete => "<p class=\"text-red-400\">Preencha nome, email, password (mínimo 6 caracteres) e um perfil válido</p>",
            AccountNotice::PasswordHashFailed => "<p class=\"text-red-400\">Erro ao processar password</p>",
            AccountNotice::EmailTaken => "<p class=\"text-red-400\">Este email já está registado</p>",
            AccountNotice::Created => "<p class=\"text-green-400\">✓ Utilizador criado com sucesso!</p>",
            AccountNotice::CreateFailed => "<p class=\"text-red-400\">Erro ao criar utilizador</p>",
            AccountNotice::UpdateIncomplete => "<p class=\"text-red-400\">Preencha nome, email e um perfil válido</p>",
            AccountNotice::OwnProfile => "<p class=\"text-yellow-400\">⚠ Não pode remover o seu próprio perfil de Programador</p>",
            AccountNotice::Updated => "<p class=\"text-green-400\">✓ Utilizador atualizado!</p>",
            AccountNotice::UserNotFound => "<p class=\"text-red-400\">Utilizador não encontrado</p>",
            AccountNotice::UpdateFailed => "<p class=\"text-red-400\">Erro ao actualizar utilizador</p>",
            AccountNotice::OwnDisable => "<p class=\"text-yellow-400\">⚠ Não pode desactivar a sua própria conta</p>",
            AccountNotice::Toggled => "<script>htmx.ajax('GET', '/htmx/users/list', {target: '#users-list-container', swap: 'innerHTML'});</script><p class=\"text-green-400\">✓ Status actualizado!</p>",
            AccountNotice::ToggleFailed => "<p class=\"text-red-400\">Erro ao actualizar status</p>",
            AccountNotice::OwnDelete => "<p class=\"text-yellow-400\">⚠ Não pode apagar a sua própria conta</p>",
            AccountNotice::Deleted => "<p class=\"text-green-400\">✓ Utilizador apagado com sucesso!</p>",
            AccountNotice::DeleteBlocked => "<p class=\"text-red-400\">Não foi possível apagar o utilizador porque tem dados associados</p>",
            AccountNotice::PasswordTooShort => "<p class=\"text-red-400\">Password deve ter pelo menos 6 caracteres</p>",
            AccountNotice::PasswordChanged => "<p class=\"text-green-400\">✓ Password alterada com sucesso!</p>",
            AccountNotice::PasswordChangeFailed => "<p class=\"text-red-400\">Erro ao alterar password</p>",
            AccountNotice::DemoCleanFailed => "<p class=\"text-red-400\">Erro ao limpar dados demo.</p>",
            AccountNotice::RegisterIncomplete => "<div class=\"p-4 bg-red-500/20 border border-red-500/50 rounded-lg\"><p class=\"text-red-400 text-sm\">Nome e email são obrigatórios</p></div>",
            AccountNotice::AlreadyRegistered => "<div class=\"p-4 bg-yellow-500/20 border border-yellow-500/50 rounded-lg\"><p class=\"text-yellow-300 text-sm\">Este email já está registado. Se esqueceu a password, use a opção \"Esqueceu Password?\".</p></div>",
            AccountNotice::RegisterProcessingFailed => "<p class=\"text-red-400\">Erro ao processar registo</p>",
            AccountNotice::RegisterCreateFailed => "<p class=\"text-red-400\">Erro ao criar registo. Tente novamente.</p>",
            AccountNotice::Registered => "<div class=\"p-4 bg-green-500/20 border border-green-500/50 rounded-lg\"><p class=\"text-green-400 text-sm\">Registo efetuado! Verifique o seu email para confirmar a conta e definir a password.</p></div>",
            AccountNotice::ForgotMissingEmail => "<div class=\"p-4 bg-red-500/20 border border-red-500/50 rounded-lg\"><p class=\"text-red-400 text-sm\">Erro: Email é obrigatório</p></div>",
            AccountNotice::ForgotSent => "<div class=\"p-4 bg-green-500/20 border border-green-500/50 rounded-lg\"><p class=\"text-green-400 text-sm\">Se um utilizador com este email existir, será enviado um link de reset para o seu email.</p></div>",
            AccountNotice::ResetMismatch => "<div class=\"p-4 bg-red-500/20 border border-red-500/50 rounded-lg\"><p class=\"text-red-400 text-sm\">As passwords devem coincidir e ter pelo menos 6 caracteres.</p></div>",
            AccountNotice::ResetFailed => "<p class=\"text-red-400\">Não foi possível alterar a password. Tente novamente.</p>",
            AccountNotice::ResetLinkInvalid => "<p class=\"text-red-400\">Este link é inválido, já foi usado ou expirou.</p>",
            AccountNotice::ResetDone => "<p class=\"text-green-400\">Password alterada com sucesso. A redirecionar para o login…</p>",
        };
        text.to_string()
    }
}

/// The message after demo data was removed.
pub open spec fn demo_cleaned_spec(n: u64) -> Seq<char> {
    "<p class=\"text-green-400\">✓ Dados demo limpos: "@ + crate::numbers::decimal_spec(n as nat)
        + " músicas removidas.</p>"@
}

/// The message after demo data was removed: how many songs went.
pub fn demo_cleaned_html(n: u64) -> (s: String)
    ensures
        s@ == demo_cleaned_spec(n),
{
    let mut v: Vec<char> = Vec::new();
    append_str(&mut v, "<p class=\"text-green-400\">✓ Dados demo limpos: ");
    crate::numbers::push_decimal(&mut v, n);
    append_str(&mut v, " músicas removidas.</p>");
    assert(v@ =~= demo_cleaned_spec(n));
    string_from_chars(&v)
}

// ---------------------------------------------------------------------------
// New passwords
// ---------------------------------------------------------------------------

/// `bcrypt::hash` at `bcrypt::DEFAULT_COST`, with a random salt; `None`
/// when it fails. Trusted: a hash that comes back accepts the password
/// under `bcrypt::verify`. The hash itself depends on the salt drawn and is
/// not stated.
#[verifier::external_body]
fn hash_password(password: &str) -> (r: Option<String>)
    ensures
        r matches Some(h) ==> bcrypt_accepts(password@, h@),
{
    bcrypt::hash(password, bcrypt::DEFAULT_COST).ok()
}

/// A new account from the user manager: the checked form and the hash of
/// its password.
pub fn prepare_new_account(form: &NewUserForm) -> (r: Result<(NewUser, String), AccountNotice>)
    ensures
        match r {
            Ok((u, h)) => {
                &&& validate_new_user_spec(*form)
                &&& u.nome@ == trim(form.nome@)
                &&& u.email@ == email_key(form.email@)
                &&& opt_view(u.igreja) == church_spec(form.igreja)
                &&& u.perfil == form.perfil
                &&& u.ativo == (match form.ativo {
                    Some(a) => a,
                    None => true,
                })
                &&& bcrypt_accepts(form.password@, h@)
            },
            Err(n) => (n == AccountNotice::CreateIncomplete && !validate_new_user_spec(*form)) || (n
                == AccountNotice::PasswordHashFailed && validate_new_user_spec(*form)),
        },
{
    let u = match validate_new_user(form) {
        Some(u) => u,
        None => return Err(AccountNotice::CreateIncomplete),
    };
    match hash_password(form.password.as_str()) {
        Some(h) => Ok((u, h)),
        None => Err(AccountNotice::PasswordHashFailed),
    }
}

/// A password set by the user manager: long enough, then hashed.
pub fn prepare_password_change(password: &str) -> (r: Result<String, AccountNotice>)
    ensures
        match r {
            Ok(h) => byte_len(password@) >= 6 && bcrypt_accepts(password@, h@),
            Err(n) => (n == AccountNotice::PasswordTooShort && byte_len(password@) < 6) || (n
                == AccountNotice::PasswordHashFailed && byte_len(password@) >= 6),
        },
{
    if !password_long_enough(password) {
        return Err(AccountNotice::PasswordTooShort);
    }
    match hash_password(password) {
        Some(h) => Ok(h),
        None => Err(AccountNotice::PasswordHashFailed),
    }
}

/// A password chosen through a reset link: typed twice, long enough, then
/// hashed.
pub fn prepare_password_reset(password: &str, confirmation: &str) -> (r: Result<String, AccountNotice>)
    ensures
        match r {
            Ok(h) => byte_len(password@) >= 6 && password@ == confirmation@ && bcrypt_accepts(
                password@,
                h@,
            ),
            Err(n) => (n == AccountNotice::ResetMismatch && !(byte_len(password@) >= 6 && password@
                == confirmation@)) || (n == AccountNotice::ResetFailed && byte_len(password@) >= 6
                && password@ == confirmation@),
        },
{
    if !reset_passwords_acceptable(password, confirmation) {
        return Err(AccountNotice::ResetMismatch);
    }
    match hash_password(password) {
        Some(h) => Ok(h),
        None => Err(AccountNotice::ResetFailed),
    }
}

/// The hash stored for an account that waits for confirmation: the hash
/// of a fresh random token, which nobody knows. Fails when no token or no
/// hash can be made.
pub fn placeholder_password_hash() -> (r: Result<String, AccountNotice>)
    ensures
        match r {
            Ok(h) => exists|t: Seq<char>| t.len() == 64 && bcrypt_accepts(t, h@),
            Err(n) => n == AccountNotice::RegisterProcessingFailed,
        },
{
    let token = match crate::tokens::new_reset_token() {
        Some(t) => t,
        None => {
            return Err(AccountNotice::RegisterProcessingFailed);
        },
    };
    match hash_password(token.as_str()) {
        Some(h) => {
            assert(token@.len() == 64 && bcrypt_accepts(token@, h@));
            Ok(h)
        },
        None => Err(AccountNotice::RegisterProcessingFailed),
    }
}

/// A password that was set (by the manager, a reset or on creation) signs
/// the account in while the account is enabled: the stored hash accepts it.
pub proof fn law_new_password_signs_in(id: i32, password: Seq<char>, hash: String)
    requires
        bcrypt_accepts(password, hash@),
    ensures
        login_check_spec(
            UserLookup::Found(LoginUser { id, ativo: true, password_hash: hash }),
            password_ok_spec(UserLookup::Found(LoginUser { id, ativo: true, password_hash: hash }), password),
        ) == Ok::<i32, LoginOutcome>(id),
{
}


/// The status cell of a user row: "✓ Ativo" in green for an enabled
/// account and "✗ Inativo" in red for a disabled one.
#[verifier::rlimit(30)]
pub proof fn law_user_row_status(r: UserRow)
    ensures
        r.ativo ==> exists|i: int|
            crate::text::has_at(user_row_spec(r), i, "text-green-400"@ + "\">"@ + "✓ Ativo"@),
        !r.ativo ==> exists|i: int|
            crate::text::has_at(user_row_spec(r), i, "text-red-400"@ + "\">"@ + "✗ Inativo"@),
{
    let full = user_row_spec(r);
    let a = "<tr class=\"border-b border-gray-700/50 hover:bg-gray-700/30\">\n                  <td class=\"py-3 px-4\">\n                    <div class=\"font-medium text-white\">"@
        + escape_html_spec(r.nome@)
        + "</div>\n                    <div class=\"text-xs text-gray-400\">"@
        + escape_html_spec(r.email@)
        + "</div>\n                  </td>\n                  <td class=\"py-3 px-4 text-gray-300\">"@
        + escape_html_spec(church_display_spec(r.igreja))
        + "</td>\n                  <td class=\"py-3 px-4\">\n                    <span class=\"px-2 py-1 rounded text-xs font-medium bg-blue-500/20 text-blue-300 border border-blue-400/30\">"@
        + profile_label_spec(r.perfil)
        + "</span>\n                  </td>\n                  <td class=\"py-3 px-4 "@;
    let m = status_class_spec(r.ativo) + "\">"@ + status_text_spec(r.ativo);
    let x = a + status_class_spec(r.ativo) + "\">"@ + status_text_spec(r.ativo);
    let i = a.len() as int;
    assert(x.subrange(i, i + m.len()) =~= m);
    assert(full.subrange(0, x.len() as int) =~= x);
    assert(full.subrange(i, i + m.len()) =~= x.subrange(i, i + m.len()));
    assert(crate::text::has_at(full, i, m));
}
} // verus!
