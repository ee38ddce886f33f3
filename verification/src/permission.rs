//! Who may do what: the decisions taken before a message or a room is changed.
//!
//! Each decision is a function of the caller and of what was read of the
//! target; none of them reads or writes anything itself. The rules of an
//! operation are tried in their order, and the first that applies decides.

use crate::error::ErrorKind;
use crate::models::Room;
use crate::object_id::ObjectId;
use vstd::prelude::*;

verus! {

/// The rule by which an operation was allowed.
#[derive(Clone, Copy, Debug, PartialEq, Eq, Structural)]
pub enum Grant {
    /// The caller sent the message.
    Sender,
    /// The caller owns the room.
    RoomOwner,
    /// The caller takes part in the room and does not own it.
    Participant,
    /// The caller does not take part in the room yet.
    Newcomer,
}

/// The reason for which an operation was denied.
#[derive(Clone, Copy, Debug, PartialEq, Eq, Structural)]
pub enum Denial {
    /// The caller neither sent the message nor owns its room.
    Forbidden,
    /// The caller does not own the room.
    Unauthorized,
    /// The owner of a room cannot leave it.
    OwnerCannotLeave,
    /// The caller does not take part in the room.
    NotAMember,
    /// The caller takes part in the room already.
    AlreadyJoined,
}

/// What was decided of an operation.
#[derive(Clone, Copy, Debug, PartialEq, Eq, Structural)]
pub enum Decision {
    Allow(Grant),
    Deny(Denial),
}

impl Denial {
    /// The class of the denial.
    pub open spec fn class(self) -> ErrorKind {
        match self {
            Denial::Forbidden => ErrorKind::Authorization,
            Denial::Unauthorized => ErrorKind::Authorization,
            Denial::OwnerCannotLeave => ErrorKind::Validation,
            Denial::NotAMember => ErrorKind::NotFound,
            Denial::AlreadyJoined => ErrorKind::Validation,
        }
    }

    /// The class of the denial.
    pub fn kind(&self) -> (kind: ErrorKind)
        ensures
            kind == self.class(),
    {
        match self {
            Denial::Forbidden => ErrorKind::Authorization,
            Denial::Unauthorized => ErrorKind::Authorization,
            Denial::OwnerCannotLeave => ErrorKind::Validation,
            Denial::NotAMember => ErrorKind::NotFound,
            Denial::AlreadyJoined => ErrorKind::Validation,
        }
    }

    /// The status sent with the denial. It is that of the class, but for
    /// `Unauthorized`, which is sent as 401.
    pub fn status(&self) -> (status: u16)
        ensures
            status == match *self {
                Denial::Forbidden => 403u16,
                Denial::Unauthorized => 401u16,
                Denial::OwnerCannotLeave => 400u16,
                Denial::NotAMember => 404u16,
                Denial::AlreadyJoined => 400u16,
            },
            *self != Denial::Unauthorized ==> status == self.class().code(),
    {
        match self {
            Denial::Forbidden => 403,
            Denial::Unauthorized => 401,
            Denial::OwnerCannotLeave => 400,
            Denial::NotAMember => 404,
            Denial::AlreadyJoined => 400,
        }
    }
}

/// Deleting a message of a room: its sender may, then the owner of the room
/// may, and nobody else.
pub open spec fn room_message_deletion(caller: ObjectId, sender: ObjectId, room_owner: ObjectId) -> Decision {
    if sender == caller {
        Decision::Allow(Grant::Sender)
    } else if room_owner == caller {
        Decision::Allow(Grant::RoomOwner)
    } else {
        Decision::Deny(Denial::Forbidden)
    }
}

/// Deleting a message between two users: its sender may, and nobody else.
pub open spec fn direct_message_deletion(caller: ObjectId, sender: ObjectId) -> Decision {
    if sender == caller {
        Decision::Allow(Grant::Sender)
    } else {
        Decision::Deny(Denial::Forbidden)
    }
}

/// Deleting a room: its owner may, and nobody else.
pub open spec fn room_deletion(caller: ObjectId, room_owner: ObjectId) -> Decision {
    if room_owner == caller {
        Decision::Allow(Grant::RoomOwner)
    } else {
        Decision::Deny(Denial::Unauthorized)
    }
}

/// Leaving a room: its owner may not, nor one who takes no part in it; any
/// other may.
pub open spec fn room_departure(caller: ObjectId, room_owner: ObjectId, participants: Seq<ObjectId>) -> Decision {
    if caller == room_owner {
        Decision::Deny(Denial::OwnerCannotLeave)
    } else if !participants.contains(caller) {
        Decision::Deny(Denial::NotAMember)
    } else {
        Decision::Allow(Grant::Participant)
    }
}

/// Joining a room: one who takes part in it already may not; any other may.
pub open spec fn room_admission(caller: ObjectId, participants: Seq<ObjectId>) -> Decision {
    if participants.contains(caller) {
        Decision::Deny(Denial::AlreadyJoined)
    } else {
        Decision::Allow(Grant::Newcomer)
    }
}

/// Decides whether `caller` may delete a message of a room.
pub fn may_delete_room_message(caller: ObjectId, sender: ObjectId, room_owner: ObjectId) -> (decision: Decision)
    ensures
        decision == room_message_deletion(caller, sender, room_owner),
{
    if sender == caller {
        Decision::Allow(Grant::Sender)
    } else if room_owner == caller {
        Decision::Allow(Grant::RoomOwner)
    } else {
        Decision::Deny(Denial::Forbidden)
    }
}

/// Decides whether `caller` may delete a message between two users.
pub fn may_delete_direct_message(caller: ObjectId, sender: ObjectId) -> (decision: Decision)
    ensures
        decision == direct_message_deletion(caller, sender),
{
    if sender == caller {
        Decision::Allow(Grant::Sender)
    } else {
        Decision::Deny(Denial::Forbidden)
    }
}

/// Decides whether `caller` may delete a room.
pub fn may_delete_room(caller: ObjectId, room: &Room) -> (decision: Decision)
    ensures
        decision == room_deletion(caller, room.owner),
{
    if room.owner == caller {
        Decision::Allow(Grant::RoomOwner)
    } else {
        Decision::Deny(Denial::Unauthorized)
    }
}

/// Decides whether `caller` may leave a room.
pub fn may_leave_room(caller: ObjectId, room: &Room) -> (decision: Decision)
    ensures
        decision == room_departure(caller, room.owner, room.participants@),
{
    if caller == room.owner {
        Decision::Deny(Denial::OwnerCannotLeave)
    } else if !room.has_participant(caller) {
        Decision::Deny(Denial::NotAMember)
    } else {
        Decision::Allow(Grant::Participant)
    }
}

/// Decides whether `caller` may join a room.
pub fn may_join_room(caller: ObjectId, room: &Room) -> (decision: Decision)
    ensures
        decision == room_admission(caller, room.participants@),
{
    if room.has_participant(caller) {
        Decision::Deny(Denial::AlreadyJoined)
    } else {
        Decision::Allow(Grant::Newcomer)
    }
}

/// The sender of a message may always delete it. Of a message in a room the
/// owner of the room may delete it too. One who is neither is always denied.
pub proof fn deletion_belongs_to_sender_and_owner(caller: ObjectId, sender: ObjectId, room_owner: ObjectId)
    ensures
        room_message_deletion(sender, sender, room_owner) is Allow,
        direct_message_deletion(sender, sender) is Allow,
        room_message_deletion(room_owner, sender, room_owner) is Allow,
        caller != sender && caller != room_owner ==> room_message_deletion(caller, sender, room_owner)
            == Decision::Deny(Denial::Forbidden),
        caller != sender ==> direct_message_deletion(caller, sender) == Decision::Deny(
            Denial::Forbidden,
        ),
        room_message_deletion(caller, sender, room_owner) is Allow <==> caller == sender || caller
            == room_owner,
{
}

/// The owner of a room is always denied leaving it, and so is one who takes
/// no part in it: the first as a request that cannot be met, the second as
/// something that is not there. Neither passes for a departure.
pub proof fn owner_and_stranger_cannot_leave(caller: ObjectId, room_owner: ObjectId, participants: Seq<ObjectId>)
    ensures
        room_departure(room_owner, room_owner, participants) == Decision::Deny(
            Denial::OwnerCannotLeave,
        ),
        caller != room_owner && !participants.contains(caller) ==> room_departure(
            caller,
            room_owner,
            participants,
        ) == Decision::Deny(Denial::NotAMember),
        Denial::NotAMember.class() == ErrorKind::NotFound,
        room_departure(caller, room_owner, participants) is Allow <==> caller != room_owner
            && participants.contains(caller),
{
}

} // verus!
