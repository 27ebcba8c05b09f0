use matrix_goose::room::{
    find_member, Common, InvitationError, Invite, Invited, Joined, Left, RoomMember, RoomState,
};

fn common(room_id: &str, state: RoomState) -> Common {
    Common { room_id: room_id.to_string(), state }
}

fn member(user_id: &str, sender: &str) -> RoomMember {
    RoomMember { user_id: user_id.to_string(), sender: sender.to_string() }
}

fn invited(room_id: &str) -> Invited {
    Invited::new(common(room_id, RoomState::Invited)).unwrap()
}

#[test]
fn invited_room_needs_the_invited_state() {
    assert!(Invited::new(common("!a:h", RoomState::Invited)).is_some());
    assert!(Invited::new(common("!a:h", RoomState::Joined)).is_none());
    assert!(Invited::new(common("!a:h", RoomState::Left)).is_none());
    assert_eq!(invited("!a:h").room_id(), "!a:h");
}

#[test]
fn joined_and_left_rooms_need_their_states() {
    assert!(Joined::new(common("!a:h", RoomState::Joined)).is_some());
    assert!(Joined::new(common("!a:h", RoomState::Invited)).is_none());
    assert!(Joined::new(common("!a:h", RoomState::Left)).is_none());
    assert!(Left::new(common("!a:h", RoomState::Left)).is_some());
    assert!(Left::new(common("!a:h", RoomState::Joined)).is_none());
    assert!(Left::new(common("!a:h", RoomState::Invited)).is_none());
    assert_eq!(Joined::new(common("!j:h", RoomState::Joined)).unwrap().room_id(), "!j:h");
    assert_eq!(Left::new(common("!l:h", RoomState::Left)).unwrap().room_id(), "!l:h");
}

#[test]
fn accepted_invitation_is_a_joined_room() {
    let joined = invited("!a:h").accept_invitation::<String>(Ok(())).unwrap();
    assert_eq!(joined, Joined::new(common("!a:h", RoomState::Joined)).unwrap());
    assert_eq!(joined.room_id(), "!a:h");
}

#[test]
fn failed_join_hands_the_error_on() {
    let res = invited("!a:h").accept_invitation(Err("forbidden".to_string()));
    assert_eq!(res, Err("forbidden".to_string()));
}

#[test]
fn rejected_invitation_is_a_left_room() {
    let left = invited("!a:h").reject_invitation::<u8>(Ok(())).unwrap();
    assert_eq!(left, Left::new(common("!a:h", RoomState::Left)).unwrap());
    assert_eq!(invited("!a:h").reject_invitation(Err(7u8)), Err(7u8));
}

#[test]
fn direct_mark_needs_a_clear_yes() {
    let joined = Joined::new(common("!a:h", RoomState::Joined)).unwrap();
    assert!(joined.marks_direct::<String>(&Ok(true)));
    assert!(!joined.marks_direct::<String>(&Ok(false)));
    assert!(!joined.marks_direct(&Err("store failed".to_string())));
}

#[test]
fn invite_details_need_a_login() {
    let members = vec![member("@me:h", "@you:h")];
    assert_eq!(
        invited("!a:h").invite_details(None, &members),
        Err(InvitationError::NotAuthenticated)
    );
    assert_eq!(invited("!a:h").invite_details(None, &vec![]), Err(InvitationError::NotAuthenticated));
}

#[test]
fn invite_details_need_the_membership_event() {
    let me = "@me:h".to_string();
    let members = vec![member("@you:h", "@you:h"), member("@other:h", "@you:h")];
    assert_eq!(
        invited("!a:h").invite_details(Some(&me), &members),
        Err(InvitationError::EventMissing)
    );
    assert_eq!(invited("!a:h").invite_details(Some(&me), &vec![]), Err(InvitationError::EventMissing));
}

#[test]
fn invite_details_name_invitee_and_inviter() {
    let me = "@me:h".to_string();
    let members = vec![
        member("@other:h", "@other:h"),
        member("@you:h", "@you:h"),
        member("@me:h", "@you:h"),
    ];
    assert_eq!(
        invited("!a:h").invite_details(Some(&me), &members),
        Ok(Invite {
            invitee: member("@me:h", "@you:h"),
            inviter: Some(member("@you:h", "@you:h")),
        })
    );
}

#[test]
fn invite_details_without_a_stored_inviter() {
    let me = "@me:h".to_string();
    let members = vec![member("@me:h", "@gone:h")];
    assert_eq!(
        invited("!a:h").invite_details(Some(&me), &members),
        Ok(Invite { invitee: member("@me:h", "@gone:h"), inviter: None })
    );
}

#[test]
fn first_stored_member_counts() {
    let me = "@me:h".to_string();
    let members = vec![
        member("@me:h", "@first:h"),
        member("@me:h", "@second:h"),
        member("@first:h", "@a:h"),
        member("@first:h", "@b:h"),
    ];
    assert_eq!(find_member(&members, &me), Some(0));
    assert_eq!(find_member(&members, &"@first:h".to_string()), Some(2));
    assert_eq!(find_member(&members, &"@none:h".to_string()), None);
    assert_eq!(
        invited("!a:h").invite_details(Some(&me), &members),
        Ok(Invite {
            invitee: member("@me:h", "@first:h"),
            inviter: Some(member("@first:h", "@a:h")),
        })
    );
}

#[test]
fn invitation_errors_have_their_messages() {
    assert_eq!(InvitationError::NotAuthenticated.message(), "The client isn't authenticated");
    assert_eq!(InvitationError::EventMissing.message(), "No membership event found");
}

#[test]
fn room_copies_are_equal() {
    let room = invited("!a:h");
    assert_eq!(room.clone(), room);
    let m = member("@me:h", "@you:h");
    assert_eq!(m.duplicate(), m);
}
