use praisechords::access::{
    can_delete_song, can_edit_song, can_moderate_song, can_submit_song_profile, card_permissions,
    delete_song_decision, is_admin_profile, is_moderator_profile, is_programmer_profile,
    may_open_song, new_song_status, profile_label, song_status, valid_profile, DeleteDecision,
    SongStatus,
};

#[test]
fn profiles_one_to_four_are_valid() {
    assert!(!valid_profile(0));
    for p in 1..=4 {
        assert!(valid_profile(p));
    }
    assert!(!valid_profile(5));
}

#[test]
fn profile_labels() {
    assert_eq!(profile_label(Some(2)), "Moderador");
    assert_eq!(profile_label(Some(3)), "Colaborador");
    assert_eq!(profile_label(Some(4)), "Programador");
    assert_eq!(profile_label(Some(1)), "Utilizador");
    assert_eq!(profile_label(None), "Utilizador");
    assert_eq!(profile_label(Some(9)), "Utilizador");
}

#[test]
fn who_moderates_submits_and_administers() {
    assert!(is_moderator_profile(Some(2)));
    assert!(is_moderator_profile(Some(4)));
    assert!(!is_moderator_profile(Some(3)));
    assert!(!is_moderator_profile(None));
    assert!(can_submit_song_profile(Some(3)));
    assert!(!can_submit_song_profile(Some(1)));
    assert!(is_admin_profile(Some(3)));
    assert!(!is_admin_profile(None));
    assert!(is_programmer_profile(Some(4)));
    assert!(!is_programmer_profile(Some(2)));
    assert!(!can_moderate_song(None, Some(4)));
    assert!(can_moderate_song(Some(7), Some(2)));
}

#[test]
fn moderators_edit_and_delete_any_song() {
    assert!(can_edit_song(Some(2), 7, Some(99)));
    assert!(can_delete_song(Some(4), 7, None));
}

#[test]
fn collaborators_only_touch_their_own_songs() {
    assert!(can_edit_song(Some(3), 7, Some(7)));
    assert!(!can_edit_song(Some(3), 7, Some(8)));
    assert!(can_delete_song(Some(3), 7, Some(7)));
    assert!(!can_delete_song(Some(3), 7, Some(8)));
    assert!(!can_delete_song(Some(1), 7, Some(7)));
}

#[test]
fn delete_decisions() {
    assert_eq!(delete_song_decision(true, false, 1, Some(2)), DeleteDecision::Allowed);
    assert_eq!(delete_song_decision(false, false, 1, Some(1)), DeleteDecision::NotCollaborator);
    assert_eq!(delete_song_decision(false, true, 1, Some(2)), DeleteDecision::NotOwner);
    assert_eq!(delete_song_decision(false, true, 1, Some(1)), DeleteDecision::Allowed);
}

#[test]
fn pending_songs_are_hidden_from_strangers() {
    assert_eq!(song_status(Some("pending")), SongStatus::Pending);
    assert!(!may_open_song(SongStatus::Pending, Some(2), 1, false));
    assert!(may_open_song(SongStatus::Pending, Some(1), 1, false));
    assert!(may_open_song(SongStatus::Pending, Some(2), 1, true));
    assert!(may_open_song(song_status(None), Some(2), 1, false));
}

#[test]
fn new_songs_wait_for_review_unless_a_moderator_adds_them() {
    assert_eq!(new_song_status(true), "approved");
    assert_eq!(new_song_status(false), "pending");
}

#[test]
fn card_buttons_follow_the_rules() {
    let p = card_permissions(Some(5), Some(5), false, true);
    assert!(p.can_edit && p.can_delete && !p.can_approve);
    let q = card_permissions(Some(5), Some(6), false, true);
    assert!(!q.can_edit && !q.can_delete);
    let m = card_permissions(Some(5), Some(6), true, true);
    assert!(m.can_edit && m.can_delete && m.can_approve);
}
