//! Rooms by membership state, and the invitation a user holds to one.
//!
//! A room is known here by what the client has stored about it: its id, the
//! user's membership state in it, and the members whose membership events
//! are at hand. Joining and leaving happen on the server; the functions
//! here say what follows from the server's answer.

use vstd::prelude::*;
use vstd::string::StringExecFns;

verus! {

/// The user's membership state in a room.
#[derive(Clone, Copy, Debug, PartialEq, Eq, Structural)]
pub enum RoomState {
    /// The user has joined the room.
    Joined,
    /// The user has left the room.
    Left,
    /// The user has been invited to the room.
    Invited,
}

/// What is common to a room in any state.
#[derive(Clone, Debug, PartialEq, Eq)]
pub struct Common {
    /// The room's id.
    pub room_id: String,
    /// The user's membership state.
    pub state: RoomState,
}

/// The mathematical value of a [`Common`].
pub struct CommonView {
    pub room_id: Seq<char>,
    pub state: RoomState,
}

impl View for Common {
    type V = CommonView;

    open spec fn view(&self) -> CommonView {
        CommonView { room_id: self.room_id@, state: self.state }
    }
}

/// A member of a room, as the latest membership event describes them.
#[derive(Clone, Debug, PartialEq, Eq)]
pub struct RoomMember {
    /// The member.
    pub user_id: String,
    /// Who sent the membership event: for an invited member, the inviter.
    pub sender: String,
}

/// The mathematical value of a [`RoomMember`].
pub struct RoomMemberView {
    pub user_id: Seq<char>,
    pub sender: Seq<char>,
}

impl View for RoomMember {
    type V = RoomMemberView;

    open spec fn view(&self) -> RoomMemberView {
        RoomMemberView { user_id: self.user_id@, sender: self.sender@ }
    }
}

impl RoomMember {
    /// A copy of this member.
    pub fn duplicate(&self) -> (copy: RoomMember)
        ensures
            copy@ == self@,
    {
        RoomMember { user_id: self.user_id.clone(), sender: self.sender.clone() }
    }
}

/// The position of the first member of `members` whose id is `user_id`.
pub open spec fn member_position(members: Seq<RoomMember>, user_id: Seq<char>) -> Option<int>
    decreases members.len(),
{
    if members.len() == 0 {
        None
    } else if members[0].user_id@ == user_id {
        Some(0)
    } else {
        match member_position(members.drop_first(), user_id) {
            Some(i) => Some(i + 1),
            None => None,
        }
    }
}

/// The view of the first member of `members` whose id is `user_id`.
pub open spec fn member_with_id(members: Seq<RoomMember>, user_id: Seq<char>) -> Option<RoomMemberView> {
    match member_position(members, user_id) {
        Some(i) => Some(members[i]@),
        None => None,
    }
}

/// A position that `member_position` returns holds the id asked for, no
/// earlier member does, and `None` means that no member does.
pub proof fn lemma_member_position(members: Seq<RoomMember>, user_id: Seq<char>)
    ensures
        match member_position(members, user_id) {
            Some(i) => {
                &&& 0 <= i < members.len()
                &&& members[i].user_id@ == user_id
                &&& forall|j: int| 0 <= j < i ==> members[j].user_id@ != user_id
            },
            None => forall|j: int| 0 <= j < members.len() ==> members[j].user_id@ != user_id,
        },
    decreases members.len(),
{
    if members.len() > 0 && members[0].user_id@ != user_id {
        let rest = members.drop_first();
        lemma_member_position(rest, user_id);
        assert(forall|j: int| 0 <= j < rest.len() ==> rest[j] == members[j + 1]);
        match member_position(rest, user_id) {
            Some(i) => {
                assert forall|j: int| 0 <= j < i + 1 implies members[j].user_id@ != user_id by {
                    if j > 0 {
                        assert(rest[j - 1] == members[j]);
                    }
                }
            },
            None => {
                assert forall|j: int| 0 <= j < members.len() implies members[j].user_id@ != user_id by {
                    if j > 0 {
                        assert(rest[j - 1] == members[j]);
                    }
                }
            },
        }
    }
}

/// Looks up the first member with the given id.
pub fn find_member(members: &Vec<RoomMember>, user_id: &String) -> (found: Option<usize>)
    ensures
        match found {
            Some(i) => i < members.len() && member_position(members@, user_id@) == Some(i as int),
            None => member_position(members@, user_id@) is None,
        },
{
    let mut i: usize = 0;
    while i < members.len()
        invariant
            i <= members.len(),
            forall|j: int| 0 <= j < i ==> members@[j].user_id@ != user_id@,
        decreases members.len() - i,
    {
        if members[i].user_id == *user_id {
            proof {
                lemma_member_position(members@, user_id@);
            }
            return Some(i);
        }
        i += 1;
    }
    proof {
        lemma_member_position(members@, user_id@);
    }
    None
}

/// A room in the invited state.
#[derive(Debug, PartialEq, Eq)]
pub struct Invited {
    pub(crate) inner: Common,
}

impl Clone for Invited {
    fn clone(&self) -> (copy: Self)
        ensures
            copy.room() == self.room(),
    {
        proof {
            use_type_invariant(self);
        }
        Invited { inner: Common { room_id: self.inner.room_id.clone(), state: self.inner.state } }
    }
}

/// A room in the joined state.
#[derive(Debug, PartialEq, Eq)]
pub struct Joined {
    pub(crate) inner: Common,
}

impl Clone for Joined {
    fn clone(&self) -> (copy: Self)
        ensures
            copy.room() == self.room(),
    {
        proof {
            use_type_invariant(self);
        }
        Joined { inner: Common { room_id: self.inner.room_id.clone(), state: self.inner.state } }
    }
}

/// A room in the left state.
#[derive(Debug, PartialEq, Eq)]
pub struct Left {
    pub(crate) inner: Common,
}

impl Clone for Left {
    fn clone(&self) -> (copy: Self)
        ensures
            copy.room() == self.room(),
    {
        proof {
            use_type_invariant(self);
        }
        Left { inner: Common { room_id: self.inner.room_id.clone(), state: self.inner.state } }
    }
}

/// Details of the (latest) invite.
#[derive(Clone, Debug, PartialEq, Eq)]
pub struct Invite {
    /// Who has been invited.
    pub invitee: RoomMember,
    /// Who sent the invite.
    pub inviter: Option<RoomMember>,
}

/// Why the details of an invitation cannot be given.
#[derive(Clone, Copy, Debug, PartialEq, Eq, Structural)]
pub enum InvitationError {
    /// The client isn't logged in.
    NotAuthenticated,
    /// The room holds no membership event for the user.
    EventMissing,
}

impl InvitationError {
    /// The text that describes this error.
    pub open spec fn message_text(self) -> Seq<char> {
        match self {
            InvitationError::NotAuthenticated => "The client isn't authenticated"@,
            InvitationError::EventMissing => "No membership event found"@,
        }
    }

    /// The text that describes this error.
    pub fn message(&self) -> (text: String)
        ensures
            text@ == self.message_text(),
    {
        match self {
            InvitationError::NotAuthenticated => String::from_str("The client isn't authenticated"),
            InvitationError::EventMissing => String::from_str("No membership event found"),
        }
    }
}

/// What [`Invited::invite_details`] returns for a user and the stored members.
pub open spec fn invite_details_of(
    own_user_id: Option<Seq<char>>,
    members: Seq<RoomMember>,
) -> Result<(RoomMemberView, Option<RoomMemberView>), InvitationError> {
    match own_user_id {
        None => Err(InvitationError::NotAuthenticated),
        Some(id) => match member_with_id(members, id) {
            None => Err(InvitationError::EventMissing),
            Some(invitee) => Ok((invitee, member_with_id(members, invitee.sender))),
        },
    }
}

impl Invite {
    /// The invitee and the inviter, as mathematical values.
    pub open spec fn parts(&self) -> (RoomMemberView, Option<RoomMemberView>) {
        (
            self.invitee@,
            match self.inviter {
                Some(m) => Some(m@),
                None => None,
            },
        )
    }
}

impl Invited {
    /// The room that the invitation is for.
    pub closed spec fn room(&self) -> CommonView {
        self.inner@
    }

    /// An invited room holds the invited state.
    #[verifier::type_invariant]
    spec fn holds_invited_state(&self) -> bool {
        self.inner.state == RoomState::Invited
    }

    /// The invitation to `room`, if the user is invited to it.
    pub fn new(room: Common) -> (invited: Option<Invited>)
        ensures
            invited is Some <==> room.state == RoomState::Invited,
            invited matches Some(i) ==> i.room() == room@,
    {
        match room.state {
            RoomState::Invited => Some(Invited { inner: room }),
            _ => None,
        }
    }

    /// The id of the room. The room's state is the invited state.
    pub fn room_id(&self) -> (id: &String)
        ensures
            id@ == self.room().room_id,
            self.room().state == RoomState::Invited,
    {
        proof {
            use_type_invariant(self);
        }
        &self.inner.room_id
    }

    /// What rejecting the invitation leads to, given the server's answer
    /// to the request to leave: the room in the left state, or the error.
    pub fn reject_invitation<E>(self, left: Result<(), E>) -> (res: Result<Left, E>)
        ensures
            match left {
                Ok(_) => res matches Ok(room) && room.room() == (CommonView {
                    state: RoomState::Left,
                    ..self.room()
                }),
                Err(e) => res == Err::<Left, E>(e),
            },
    {
        match left {
            Ok(_) => Ok(Left { inner: Common { room_id: self.inner.room_id, state: RoomState::Left } }),
            Err(e) => Err(e),
        }
    }

    /// What accepting the invitation leads to, given the server's answer
    /// to the request to join: the room in the joined state, or the error.
    pub fn accept_invitation<E>(self, joined: Result<(), E>) -> (res: Result<Joined, E>)
        ensures
            match joined {
                Ok(_) => res matches Ok(room) && room.room() == (CommonView {
                    state: RoomState::Joined,
                    ..self.room()
                }),
                Err(e) => res == Err::<Joined, E>(e),
            },
    {
        match joined {
            Ok(_) => Ok(Joined { inner: Common { room_id: self.inner.room_id, state: RoomState::Joined } }),
            Err(e) => Err(e),
        }
    }

    /// The membership details of the (latest) invite for this room.
    ///
    /// `own_user_id` is the user that the client is logged in as, `members`
    /// what is stored of the room's members. The invitee is the user
    /// themselves, the inviter whoever sent the invitee's membership event,
    /// if that member is stored too.
    pub fn invite_details(&self, own_user_id: Option<&String>, members: &Vec<RoomMember>) -> (res: Result<
        Invite,
        InvitationError,
    >)
        ensures
            match invite_details_of(
                match own_user_id {
                    Some(id) => Some(id@),
                    None => None,
                },
                members@,
            ) {
                Ok(parts) => res matches Ok(invite) && invite.parts() == parts,
                Err(e) => res == Err::<Invite, InvitationError>(e),
            },
    {
        let user_id = match own_user_id {
            Some(id) => id,
            None => {
                return Err(InvitationError::NotAuthenticated);
            },
        };
        let invitee = match find_member(members, user_id) {
            Some(i) => members[i].duplicate(),
            None => {
                return Err(InvitationError::EventMissing);
            },
        };
        let inviter = match find_member(members, &invitee.sender) {
            Some(i) => Some(members[i].duplicate()),
            None => None,
        };
        Ok(Invite { invitee, inviter })
    }
}

impl Joined {
    /// The room.
    pub closed spec fn room(&self) -> CommonView {
        self.inner@
    }

    /// A joined room holds the joined state.
    #[verifier::type_invariant]
    spec fn holds_joined_state(&self) -> bool {
        self.inner.state == RoomState::Joined
    }

    /// The joined room `room`, if the user has joined it.
    pub fn new(room: Common) -> (joined: Option<Joined>)
        ensures
            joined is Some <==> room.state == RoomState::Joined,
            joined matches Some(j) ==> j.room() == room@,
    {
        match room.state {
            RoomState::Joined => Some(Joined { inner: room }),
            _ => None,
        }
    }

    /// The id of the room. The room's state is the joined state.
    pub fn room_id(&self) -> (id: &String)
        ensures
            id@ == self.room().room_id,
            self.room().state == RoomState::Joined,
    {
        proof {
            use_type_invariant(self);
        }
        &self.inner.room_id
    }

    /// Whether a room that was just joined is to be marked as a direct
    /// chat: only if the query whether the invitation was for one succeeded
    /// and said so. A failed query counts as "no".
    pub fn marks_direct<E>(&self, is_direct: &Result<bool, E>) -> (mark: bool)
        ensures
            mark == (*is_direct matches Ok(d) && d),
    {
        match is_direct {
            Ok(d) => *d,
            Err(_) => false,
        }
    }
}

impl Left {
    /// The room.
    pub closed spec fn room(&self) -> CommonView {
        self.inner@
    }

    /// A left room holds the left state.
    #[verifier::type_invariant]
    spec fn holds_left_state(&self) -> bool {
        self.inner.state == RoomState::Left
    }

    /// The left room `room`, if the user has left it.
    pub fn new(room: Common) -> (left: Option<Left>)
        ensures
            left is Some <==> room.state == RoomState::Left,
            left matches Some(l) ==> l.room() == room@,
    {
        match room.state {
            RoomState::Left => Some(Left { inner: room }),
            _ => None,
        }
    }

    /// The id of the room. The room's state is the left state.
    pub fn room_id(&self) -> (id: &String)
        ensures
            id@ == self.room().room_id,
            self.room().state == RoomState::Left,
    {
        proof {
            use_type_invariant(self);
        }
        &self.inner.room_id
    }
}

} // verus!
