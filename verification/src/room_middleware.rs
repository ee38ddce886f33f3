//! The guard of the routes that belong to a room: it lets a request through
//! where its caller takes part in the room that the path names.
//!
//! The guard runs behind the identity extractor and reads the identity that
//! the extractor left with the request. It does not turn a request down for a
//! room that does not exist: that is for the handler to say.

use crate::error::ErrorKind;
use crate::error::StoreError;
use crate::models::Room;
use crate::object_id::ObjectId;
use crate::text::after_last;
use crate::text::last_segment;
use crate::token::Identity;
use vstd::prelude::*;

verus! {

/// Why the guard turned a request down.
#[derive(Clone, Copy, Debug, PartialEq, Eq, Structural)]
pub enum GuardError {
    /// The request carries no identity: the extractor did not run before the
    /// guard.
    MissingClaims,
    /// The last segment of the path is not an identifier.
    InvalidRoomId,
    /// The caller takes no part in the room.
    NotAMember,
    /// The room could not be looked up.
    Internal,
}

impl GuardError {
    /// The class of the rejection.
    pub open spec fn class(self) -> ErrorKind {
        match self {
            GuardError::MissingClaims => ErrorKind::Authentication,
            GuardError::InvalidRoomId => ErrorKind::NotFound,
            GuardError::NotAMember => ErrorKind::Authorization,
            GuardError::Internal => ErrorKind::Internal,
        }
    }

    /// The class of the rejection.
    pub fn kind(&self) -> (kind: ErrorKind)
        ensures
            kind == self.class(),
    {
        match self {
            GuardError::MissingClaims => ErrorKind::Authentication,
            GuardError::InvalidRoomId => ErrorKind::NotFound,
            GuardError::NotAMember => ErrorKind::Authorization,
            GuardError::Internal => ErrorKind::Internal,
        }
    }

    /// The status sent with the rejection. It is that of the class, but for
    /// `NotAMember`, which is sent as 401.
    pub fn status(&self) -> (status: u16)
        ensures
            status == match *self {
                GuardError::MissingClaims => 401u16,
                GuardError::InvalidRoomId => 404u16,
                GuardError::NotAMember => 401u16,
                GuardError::Internal => 500u16,
            },
            *self != GuardError::NotAMember ==> status == self.class().code(),
    {
        match self {
            GuardError::MissingClaims => 401,
            GuardError::InvalidRoomId => 404,
            GuardError::NotAMember => 401,
            GuardError::Internal => 500,
        }
    }

    /// The message sent with the rejection.
    pub fn message(&self) -> (message: String)
        ensures
            message@ == match *self {
                GuardError::MissingClaims => "Missing Claims"@,
                GuardError::InvalidRoomId => "Invalid Room Id"@,
                GuardError::NotAMember => "You are not part of the given Room"@,
                GuardError::Internal => "Internal Server Error"@,
            },
    {
        match self {
            GuardError::MissingClaims => String::from_str("Missing Claims"),
            GuardError::InvalidRoomId => String::from_str("Invalid Room Id"),
            GuardError::NotAMember => String::from_str("You are not part of the given Room"),
            GuardError::Internal => String::from_str("Internal Server Error"),
        }
    }
}

/// The room that a request is about: the one that the last segment of its
/// path names. A request without an identity is turned down before its path
/// is read.
pub open spec fn guarded_room(identity: Option<Identity>, path: Seq<char>) -> Result<
    ObjectId,
    GuardError,
> {
    match identity {
        None => Err(GuardError::MissingClaims),
        Some(_) => match ObjectId::parsed(after_last(path, '/')) {
            None => Err(GuardError::InvalidRoomId),
            Some(room_id) => Ok(room_id),
        },
    }
}

/// Whether `caller` passes, given what the lookup of the room gave: a
/// participant passes, and so does anyone where there is no such room.
pub open spec fn membership(caller: ObjectId, room: Result<Option<Room>, StoreError>) -> Result<
    (),
    GuardError,
> {
    match room {
        Err(_) => Err(GuardError::Internal),
        Ok(None) => Ok(()),
        Ok(Some(found)) => if found.participants@.contains(caller) {
            Ok(())
        } else {
            Err(GuardError::NotAMember)
        },
    }
}

/// What the guard makes of a request, given what the lookup of its room gave.
pub open spec fn guard(
    identity: Option<Identity>,
    path: Seq<char>,
    room: Result<Option<Room>, StoreError>,
) -> Result<(), GuardError> {
    match guarded_room(identity, path) {
        Err(e) => Err(e),
        Ok(_) => membership(identity->0.subject_id, room),
    }
}

/// The first step of the guard: the room to look up for a request.
pub fn room_of_request(identity: Option<Identity>, path: &str) -> (res: Result<ObjectId, GuardError>)
    ensures
        res == guarded_room(identity, path@),
{
    match identity {
        None => Err(GuardError::MissingClaims),
        Some(_) => match ObjectId::parse_str(last_segment(path)) {
            None => Err(GuardError::InvalidRoomId),
            Some(room_id) => Ok(room_id),
        },
    }
}

/// The guard: `Ok` where the request may go on to its handler.
pub fn in_room(
    identity: Option<Identity>,
    path: &str,
    room: &Result<Option<Room>, StoreError>,
) -> (res: Result<(), GuardError>)
    ensures
        res == guard(identity, path@, *room),
{
    match room_of_request(identity, path) {
        Err(e) => Err(e),
        Ok(_) => {
            let caller = match identity {
                Some(known) => known.subject_id,
                None => {
                    return Err(GuardError::MissingClaims);
                },
            };
            match room {
                Err(_) => Err(GuardError::Internal),
                Ok(None) => Ok(()),
                Ok(Some(found)) => if found.has_participant(caller) {
                    Ok(())
                } else {
                    Err(GuardError::NotAMember)
                },
            }
        },
    }
}

/// Of a room that exists, those who take part in it pass the guard and nobody
/// else does: anyone else is turned down as not entitled.
pub proof fn only_participants_pass(caller: Identity, path: Seq<char>, room: Room)
    requires
        ObjectId::parsed(after_last(path, '/')) is Some,
    ensures
        room.participants@.contains(caller.subject_id) ==> guard(Some(caller), path, Ok(Some(room)))
            == Ok::<(), GuardError>(()),
        !room.participants@.contains(caller.subject_id) ==> guard(
            Some(caller),
            path,
            Ok(Some(room)),
        ) == Err::<(), GuardError>(GuardError::NotAMember),
        GuardError::NotAMember.class() == ErrorKind::Authorization,
{
}

/// Where the room does not exist the guard lets every identified caller
/// through.
pub proof fn missing_room_passes(caller: Identity, path: Seq<char>)
    requires
        ObjectId::parsed(after_last(path, '/')) is Some,
    ensures
        guard(Some(caller), path, Ok(None)) == Ok::<(), GuardError>(()),
{
}

/// Without an identity nothing passes the guard, whatever the path and the
/// room: the extractor has to run first.
pub proof fn guard_needs_identity(path: Seq<char>, room: Result<Option<Room>, StoreError>)
    ensures
        guard(None, path, room) == Err::<(), GuardError>(GuardError::MissingClaims),
{
}

} // verus!
