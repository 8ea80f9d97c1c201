//! User profiles and what each may do with songs and accounts.
//!
//! A profile ("perfil") is stored per user: 1 user, 2 moderator,
//! 3 collaborator, 4 programmer. `None` stands for a missing user or a
//! missing profile.

use vstd::prelude::*;

verus! {

/// Profile number of an ordinary user.
pub const PROFILE_USER: i32 = 1;

/// Profile number of a moderator.
pub const PROFILE_MODERATOR: i32 = 2;

/// Profile number of a collaborator.
pub const PROFILE_COLLABORATOR: i32 = 3;

/// Profile number of a programmer.
pub const PROFILE_PROGRAMMER: i32 = 4;

/// The profile used when none is recorded.
pub open spec fn effective_profile(perfil: Option<i32>) -> i32 {
    match perfil {
        Some(p) => p,
        None => PROFILE_USER,
    }
}

/// Moderator or programmer.
pub open spec fn is_moderator_spec(perfil: Option<i32>) -> bool {
    perfil == Some(PROFILE_MODERATOR) || perfil == Some(PROFILE_PROGRAMMER)
}

/// Collaborator, moderator or programmer.
pub open spec fn can_submit_spec(perfil: Option<i32>) -> bool {
    perfil == Some(PROFILE_MODERATOR) || perfil == Some(PROFILE_COLLABORATOR) || perfil == Some(
        PROFILE_PROGRAMMER,
    )
}

/// Collaborator or programmer (profile 3 or more).
pub open spec fn is_admin_spec(perfil: Option<i32>) -> bool {
    effective_profile(perfil) >= 3
}

/// The creator, a moderator or a programmer.
pub open spec fn can_edit_spec(perfil: Option<i32>, user_id: i32, owner: Option<i32>) -> bool {
    is_moderator_spec(perfil) || owner == Some(user_id)
}

/// A moderator or programmer, or an administrator who created the song.
pub open spec fn can_delete_spec(perfil: Option<i32>, user_id: i32, owner: Option<i32>) -> bool {
    is_moderator_spec(perfil) || (is_admin_spec(perfil) && owner == Some(user_id))
}

/// Whether `profile` is one of the four known profiles.
pub fn valid_profile(profile: i32) -> (r: bool)
    ensures
        r == (1 <= profile <= 4),
{
    1 <= profile && profile <= 4
}

/// Collaborators and programmers (profile 3 or more) count as administrators.
pub fn is_admin_profile(perfil: Option<i32>) -> (r: bool)
    ensures
        r == is_admin_spec(perfil),
{
    match perfil {
        Some(p) => p >= 3,
        None => false,
    }
}

/// Moderators (2) and programmers (4) may approve submissions; collaborators
/// (3) may submit songs but cannot approve them, not even their own.
pub fn is_moderator_profile(perfil: Option<i32>) -> (r: bool)
    ensures
        r == is_moderator_spec(perfil),
{
    match perfil {
        Some(p) => p == 2 || p == 4,
        None => false,
    }
}

/// Collaborators, moderators and programmers may submit new songs; ordinary
/// users may not.
pub fn can_submit_song_profile(perfil: Option<i32>) -> (r: bool)
    ensures
        r == can_submit_spec(perfil),
{
    match perfil {
        Some(p) => p == 2 || p == 3 || p == 4,
        None => false,
    }
}

/// Only programmers (4) manage users, see statistics and purge demo data.
pub fn is_programmer_profile(perfil: Option<i32>) -> (r: bool)
    ensures
        r == (perfil == Some(PROFILE_PROGRAMMER)),
{
    match perfil {
        Some(p) => p == 4,
        None => false,
    }
}

/// Moderation needs a signed-in moderator or programmer.
pub fn can_moderate_song(user_id: Option<i32>, perfil: Option<i32>) -> (r: bool)
    ensures
        r == (user_id is Some && is_moderator_spec(perfil)),
{
    match user_id {
        None => false,
        Some(_) => is_moderator_profile(perfil),
    }
}

/// A song may be edited by its creator, a moderator or a programmer.
pub fn can_edit_song(perfil: Option<i32>, user_id: i32, owner: Option<i32>) -> (r: bool)
    ensures
        r == can_edit_spec(perfil, user_id, owner),
{
    is_moderator_profile(perfil) || owner == Some(user_id)
}

/// Moderators and programmers may delete any song; collaborators only their
/// own.
pub fn can_delete_song(perfil: Option<i32>, user_id: i32, owner: Option<i32>) -> (r: bool)
    ensures
        r == can_delete_spec(perfil, user_id, owner),
{
    if is_moderator_profile(perfil) {
        return true;
    }
    if is_admin_profile(perfil) {
        return owner == Some(user_id);
    }
    false
}

/// The label shown for a profile.
pub open spec fn profile_label_spec(perfil: Option<i32>) -> Seq<char> {
    let p = effective_profile(perfil);
    if p == 2 {
        seq!['M', 'o', 'd', 'e', 'r', 'a', 'd', 'o', 'r']
    } else if p == 3 {
        seq!['C', 'o', 'l', 'a', 'b', 'o', 'r', 'a', 'd', 'o', 'r']
    } else if p == 4 {
        seq!['P', 'r', 'o', 'g', 'r', 'a', 'm', 'a', 'd', 'o', 'r']
    } else {
        seq!['U', 't', 'i', 'l', 'i', 'z', 'a', 'd', 'o', 'r']
    }
}

/// Portuguese label of a profile ("Utilizador" when unknown).
pub fn profile_label(perfil: Option<i32>) -> (s: String)
    ensures
        s@ == profile_label_spec(perfil),
{
    let p = match perfil {
        Some(p) => p,
        None => 1,
    };
    let v: Vec<char> = if p == 2 {
        vec!['M', 'o', 'd', 'e', 'r', 'a', 'd', 'o', 'r']
    } else if p == 3 {
        vec!['C', 'o', 'l', 'a', 'b', 'o', 'r', 'a', 'd', 'o', 'r']
    } else if p == 4 {
        vec!['P', 'r', 'o', 'g', 'r', 'a', 'm', 'a', 'd', 'o', 'r']
    } else {
        vec!['U', 't', 'i', 'l', 'i', 'z', 'a', 'd', 'o', 'r']
    };
    assert(v@ =~= profile_label_spec(perfil));
    crate::text::string_from_chars(&v)
}

/// Review state of a song.
#[derive(Clone, Copy, PartialEq, Eq, Structural, Debug)]
pub enum SongStatus {
    /// Visible to everyone.
    Approved,
    /// Awaiting a moderator.
    Pending,
    /// Any other stored value, or none.
    Other,
}

/// `"approved"`.
pub open spec fn approved_text() -> Seq<char> {
    seq!['a', 'p', 'p', 'r', 'o', 'v', 'e', 'd']
}

/// `"pending"`.
pub open spec fn pending_text() -> Seq<char> {
    seq!['p', 'e', 'n', 'd', 'i', 'n', 'g']
}

/// The review state a stored status text stands for.
pub open spec fn status_spec(status: Option<Seq<char>>) -> SongStatus {
    if status == Some(approved_text()) {
        SongStatus::Approved
    } else if status == Some(pending_text()) {
        SongStatus::Pending
    } else {
        SongStatus::Other
    }
}

/// Reads a stored status text.
pub fn song_status(status: Option<&str>) -> (r: SongStatus)
    ensures
        r == status_spec(
            match status {
                Some(s) => Some(s@),
                None => None,
            },
        ),
{
    match status {
        None => SongStatus::Other,
        Some(s) => {
            let v = crate::text::chars_of(s);
            let a: Vec<char> = vec!['a', 'p', 'p', 'r', 'o', 'v', 'e', 'd'];
            let p: Vec<char> = vec!['p', 'e', 'n', 'd', 'i', 'n', 'g'];
            assert(a@ =~= approved_text());
            assert(p@ =~= pending_text());
            if crate::text::chars_eq(&v, &a) {
                SongStatus::Approved
            } else if crate::text::chars_eq(&v, &p) {
                SongStatus::Pending
            } else {
                SongStatus::Other
            }
        },
    }
}

/// The status stored for a new song: approved when a moderator or
/// programmer creates it, pending otherwise.
pub fn new_song_status(author_is_moderator: bool) -> (r: &'static str)
    ensures
        r@ == if author_is_moderator {
            approved_text()
        } else {
            pending_text()
        },
{
    proof {
        reveal_strlit("approved");
        reveal_strlit("pending");
    }
    if author_is_moderator {
        "approved"
    } else {
        "pending"
    }
}

/// Whether a song appears in lists and searches: approved songs for
/// everyone, others for their creator and for moderators. A visitor without
/// an account is matched as user 0, as the list queries do.
pub fn visible_in_lists(
    status: SongStatus,
    owner: Option<i32>,
    viewer: Option<i32>,
    viewer_is_moderator: bool,
) -> (r: bool)
    ensures
        r == listed(status, owner, viewer, viewer_is_moderator),
{
    let who = match viewer {
        Some(v) => v,
        None => 0,
    };
    status == SongStatus::Approved || owner == Some(who) || viewer_is_moderator
}

/// Whether a signed-in user may open a song: a pending song only for its
/// creator and for moderators.
pub fn may_open_song(status: SongStatus, owner: Option<i32>, user_id: i32, is_moderator: bool) -> (r:
    bool)
    ensures
        r == !(status == SongStatus::Pending && owner != Some(user_id) && !is_moderator),
{
    !(status == SongStatus::Pending && owner != Some(user_id) && !is_moderator)
}

/// What a song card may offer to the viewer.
#[derive(Clone, Copy, PartialEq, Eq, Structural, Debug)]
pub struct CardPermissions {
    /// Show the edit button.
    pub can_edit: bool,
    /// Show the delete button.
    pub can_delete: bool,
    /// Show the approve button.
    pub can_approve: bool,
}

/// Buttons of a song card in lists: edit for moderators and the creator,
/// delete for moderators and for an administrator who created the song,
/// approve for moderators.
pub fn card_permissions(viewer: Option<i32>, owner: Option<i32>, is_moderator: bool, is_admin: bool) -> (r:
    CardPermissions)
    ensures
        r.can_edit == (is_moderator || viewer == owner),
        r.can_delete == (is_moderator || (is_admin && viewer == owner)),
        r.can_approve == is_moderator,
{
    CardPermissions {
        can_edit: is_moderator || viewer == owner,
        can_delete: is_moderator || (is_admin && viewer == owner),
        can_approve: is_moderator,
    }
}

/// Outcome of a request to delete a song.
#[derive(Clone, Copy, PartialEq, Eq, Structural, Debug)]
pub enum DeleteDecision {
    /// The song may be deleted.
    Allowed,
    /// Ordinary users cannot delete songs.
    NotCollaborator,
    /// A collaborator may delete only the songs they created.
    NotOwner,
}

/// Who may delete a song: moderators any song, administrators their own.
/// `owner` is read only for non-moderators.
pub fn delete_song_decision(is_moderator: bool, is_admin: bool, user_id: i32, owner: Option<i32>) -> (r:
    DeleteDecision)
    ensures
        r == delete_decision_spec(is_moderator, is_admin, user_id, owner),
{
    if !is_moderator && !is_admin {
        return DeleteDecision::NotCollaborator;
    }
    if !is_moderator {
        if owner != Some(user_id) {
            return DeleteDecision::NotOwner;
        }
    }
    DeleteDecision::Allowed
}

/// Moderators and programmers can do everything with any song: edit it,
/// delete it (whichever route decides) and approve it; whoever may
/// moderate may also submit.
pub proof fn law_moderator_powers(perfil: Option<i32>, user_id: i32, owner: Option<i32>)
    requires
        is_moderator_spec(perfil),
    ensures
        can_edit_spec(perfil, user_id, owner),
        can_delete_spec(perfil, user_id, owner),
        can_submit_spec(perfil),
        delete_decision_spec(true, is_admin_spec(perfil), user_id, owner) == DeleteDecision::Allowed,
{
}

/// The decision of `delete_song_decision`.
pub open spec fn delete_decision_spec(is_moderator: bool, is_admin: bool, user_id: i32, owner: Option<
    i32,
>) -> DeleteDecision {
    if !is_moderator && !is_admin {
        DeleteDecision::NotCollaborator
    } else if !is_moderator && owner != Some(user_id) {
        DeleteDecision::NotOwner
    } else {
        DeleteDecision::Allowed
    }
}

/// A collaborator may submit songs but may not approve them, and may edit
/// or delete a song exactly when they created it.
pub proof fn law_collaborator_limits(user_id: i32, owner: Option<i32>)
    ensures
        can_submit_spec(Some(PROFILE_COLLABORATOR)),
        !is_moderator_spec(Some(PROFILE_COLLABORATOR)),
        can_delete_spec(Some(PROFILE_COLLABORATOR), user_id, owner) <==> owner == Some(user_id),
        can_edit_spec(Some(PROFILE_COLLABORATOR), user_id, owner) <==> owner == Some(user_id),
        (delete_decision_spec(false, true, user_id, owner) == DeleteDecision::Allowed) <==> (owner
            == Some(user_id)),
{
}

/// Approved songs are listed for every viewer; a pending song is listed for
/// a signed-in viewer only when they created it or moderate.
pub proof fn law_listing_visibility(
    owner: Option<i32>,
    viewer: i32,
    viewer_is_moderator: bool,
)
    ensures
        listed(SongStatus::Approved, owner, Some(viewer), viewer_is_moderator),
        listed(SongStatus::Pending, owner, Some(viewer), viewer_is_moderator) <==> (owner == Some(
            viewer,
        ) || viewer_is_moderator),
{
}

/// The rule of `visible_in_lists`.
pub open spec fn listed(status: SongStatus, owner: Option<i32>, viewer: Option<i32>, viewer_is_moderator: bool) -> bool {
    status == SongStatus::Approved || owner == Some(
        match viewer {
            Some(v) => v,
            None => 0i32,
        },
    ) || viewer_is_moderator
}

} // verus!
