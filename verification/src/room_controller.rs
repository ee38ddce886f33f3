//! Creating, reading, joining, leaving and deleting rooms.
//!
//! Each operation is decided here and carried out by the caller: the caller
//! reads or writes the store, and hands what came of it to the next step.

use crate::error::ErrorKind;
use crate::error::StoreError;
use crate::listing::all_read;
use crate::listing::read;
use crate::listing::read_all;
use crate::models::lemma_without;
use crate::models::without;
use crate::models::Room;
use crate::models::User;
use crate::object_id::hex_text;
use crate::object_id::ObjectId;
use crate::permission::may_delete_room;
use crate::permission::may_join_room;
use crate::permission::may_leave_room;
use crate::permission::room_admission;
use crate::permission::room_deletion;
use crate::permission::room_departure;
use crate::permission::Decision;
use crate::permission::Denial;
use crate::token::Identity;
use vstd::prelude::*;

verus! {

/// What a caller sends to create a room.
#[derive(Clone, Debug)]
pub struct RoomRequest {
    pub name: String,
}

/// The answer to a room created or joined.
#[derive(Clone, Debug)]
pub struct RoomResponse {
    pub msg: String,
    pub room_id: ObjectId,
}

/// A room as it is shown.
#[derive(Clone, Debug)]
pub struct Rooms {
    pub name: String,
    pub owner: ObjectId,
    pub participants: Vec<ObjectId>,
}

/// Why an operation on rooms failed.
#[derive(Clone, Copy, Debug, PartialEq, Eq, Structural)]
pub enum RoomError {
    /// A room to create has no name.
    NameRequired,
    /// The caller who creates a room has no account.
    OwnerNotFound,
    /// The store failed.
    Internal,
    /// The new room could not be stored.
    CreateFailed,
    /// No identifier was given for the room to show.
    IdRequired,
    /// The identifier of the room to show or to join is not one.
    InvalidIdFormat,
    /// The room to show or to join does not exist.
    RoomNotFound,
    /// The room to show could not be looked up.
    DatabaseError,
    /// No identifier was given for the room to join.
    JoinIdRequired,
    /// A lookup before joining failed.
    DbError,
    /// The caller who joins a room has no account.
    UserNotFound,
    /// The caller takes part in the room already.
    AlreadyJoined,
    /// A room of the list could not be read.
    ListFailed,
    /// The identifier of the room to leave is not one.
    WrongRoomId,
    /// The room to leave does not exist.
    InvalidRoomId,
    /// The owner of a room cannot leave it.
    OwnerCannotLeave,
    /// The caller takes no part in the room to leave.
    NeverAMember,
    /// The identifier of the room to delete is not one.
    InvalidId,
    /// The room to delete does not exist.
    RoomMissing,
    /// The caller does not own the room to delete.
    NotOwner,
    /// The room could not be deleted.
    DeleteFailed,
}

impl RoomError {
    /// The class of the failure.
    pub open spec fn class(self) -> ErrorKind {
        match self {
            RoomError::NameRequired => ErrorKind::Validation,
            RoomError::OwnerNotFound => ErrorKind::NotFound,
            RoomError::Internal => ErrorKind::Internal,
            RoomError::CreateFailed => ErrorKind::Internal,
            RoomError::IdRequired => ErrorKind::Validation,
            RoomError::InvalidIdFormat => ErrorKind::Validation,
            RoomError::RoomNotFound => ErrorKind::NotFound,
            RoomError::DatabaseError => ErrorKind::Internal,
            RoomError::JoinIdRequired => ErrorKind::Validation,
            RoomError::DbError => ErrorKind::Internal,
            RoomError::UserNotFound => ErrorKind::NotFound,
            RoomError::AlreadyJoined => ErrorKind::Validation,
            RoomError::ListFailed => ErrorKind::Internal,
            RoomError::WrongRoomId => ErrorKind::NotFound,
            RoomError::InvalidRoomId => ErrorKind::NotFound,
            RoomError::OwnerCannotLeave => ErrorKind::Validation,
            RoomError::NeverAMember => ErrorKind::NotFound,
            RoomError::InvalidId => ErrorKind::NotFound,
            RoomError::RoomMissing => ErrorKind::NotFound,
            RoomError::NotOwner => ErrorKind::Authorization,
            RoomError::DeleteFailed => ErrorKind::Internal,
        }
    }

    /// The class of the failure.
    pub fn kind(&self) -> (kind: ErrorKind)
        ensures
            kind == self.class(),
    {
        match self {
            RoomError::NameRequired => ErrorKind::Validation,
            RoomError::OwnerNotFound => ErrorKind::NotFound,
            RoomError::Internal => ErrorKind::Internal,
            RoomError::CreateFailed => ErrorKind::Internal,
            RoomError::IdRequired => ErrorKind::Validation,
            RoomError::InvalidIdFormat => ErrorKind::Validation,
            RoomError::RoomNotFound => ErrorKind::NotFound,
            RoomError::DatabaseError => ErrorKind::Internal,
            RoomError::JoinIdRequired => ErrorKind::Validation,
            RoomError::DbError => ErrorKind::Internal,
            RoomError::UserNotFound => ErrorKind::NotFound,
            RoomError::AlreadyJoined => ErrorKind::Validation,
            RoomError::ListFailed => ErrorKind::Internal,
            RoomError::WrongRoomId => ErrorKind::NotFound,
            RoomError::InvalidRoomId => ErrorKind::NotFound,
            RoomError::OwnerCannotLeave => ErrorKind::Validation,
            RoomError::NeverAMember => ErrorKind::NotFound,
            RoomError::InvalidId => ErrorKind::NotFound,
            RoomError::RoomMissing => ErrorKind::NotFound,
            RoomError::NotOwner => ErrorKind::Authorization,
            RoomError::DeleteFailed => ErrorKind::Internal,
        }
    }

    /// The status sent with the failure: that of its class, but for
    /// `NotOwner`, which is sent as 401.
    pub fn status(&self) -> (status: u16)
        ensures
            status == if *self == RoomError::NotOwner {
                401u16
            } else {
                self.class().code()
            },
    {
        match self {
            RoomError::NotOwner => 401,
            _ => self.kind().status(),
        }
    }

    /// The message sent with the failure.
    pub fn message(&self) -> (message: String)
        ensures
            message@ == match *self {
                RoomError::NameRequired => "All Fields are required"@,
                RoomError::OwnerNotFound => "The owner with given user id not found"@,
                RoomError::Internal => "Internal Server Error"@,
                RoomError::CreateFailed => "Internal SErver Error"@,
                RoomError::IdRequired => "Id is not given"@,
                RoomError::InvalidIdFormat => "Invalid ID format"@,
                RoomError::RoomNotFound => "Room not found"@,
                RoomError::DatabaseError => "Database Error"@,
                RoomError::JoinIdRequired => "Fields are empty"@,
                RoomError::DbError => "DB Error"@,
                RoomError::UserNotFound => "User not found"@,
                RoomError::AlreadyJoined => "User is already in the group"@,
                RoomError::ListFailed => "Internale Server Error"@,
                RoomError::WrongRoomId => "Wrong Room Id"@,
                RoomError::InvalidRoomId => "Invalid Room Id"@,
                RoomError::OwnerCannotLeave => "You are the owner of the room, you can't leave"@,
                RoomError::NeverAMember => "The user was never a part of the room"@,
                RoomError::InvalidId => "Invalid Id"@,
                RoomError::RoomMissing => "Room Not Found"@,
                RoomError::NotOwner => "You have no right to delete the room"@,
                RoomError::DeleteFailed => "internal server error"@,
            },
    {
        match self {
            RoomError::NameRequired => String::from_str("All Fields are required"),
            RoomError::OwnerNotFound => String::from_str("The owner with given user id not found"),
            RoomError::Internal => String::from_str("Internal Server Error"),
            RoomError::CreateFailed => String::from_str("Internal SErver Error"),
            RoomError::IdRequired => String::from_str("Id is not given"),
            RoomError::InvalidIdFormat => String::from_str("Invalid ID format"),
            RoomError::RoomNotFound => String::from_str("Room not found"),
            RoomError::DatabaseError => String::from_str("Database Error"),
            RoomError::JoinIdRequired => String::from_str("Fields are empty"),
            RoomError::DbError => String::from_str("DB Error"),
            RoomError::UserNotFound => String::from_str("User not found"),
            RoomError::AlreadyJoined => String::from_str("User is already in the group"),
            RoomError::ListFailed => String::from_str("Internale Server Error"),
            RoomError::WrongRoomId => String::from_str("Wrong Room Id"),
            RoomError::InvalidRoomId => String::from_str("Invalid Room Id"),
            RoomError::OwnerCannotLeave => String::from_str(
                "You are the owner of the room, you can't leave",
            ),
            RoomError::NeverAMember => String::from_str("The user was never a part of the room"),
            RoomError::InvalidId => String::from_str("Invalid Id"),
            RoomError::RoomMissing => String::from_str("Room Not Found"),
            RoomError::NotOwner => String::from_str("You have no right to delete the room"),
            RoomError::DeleteFailed => String::from_str("internal server error"),
        }
    }
}

/// The identifier that a text of a path stands for, or the given failure.
pub open spec fn id_or(text: Seq<char>, failure: RoomError) -> Result<ObjectId, RoomError> {
    match ObjectId::parsed(text) {
        Some(id) => Ok(id),
        None => Err(failure),
    }
}

/// The identifier that a text of a path stands for, or `missing` where the
/// text is empty, or `malformed` where it is no identifier.
pub open spec fn given_id_or(text: Seq<char>, missing: RoomError, malformed: RoomError) -> Result<
    ObjectId,
    RoomError,
> {
    if text.len() == 0 {
        Err(missing)
    } else {
        id_or(text, malformed)
    }
}

fn parse_or(text: &str, failure: RoomError) -> (res: Result<ObjectId, RoomError>)
    ensures
        res == id_or(text@, failure),
{
    match ObjectId::parse_str(text) {
        Some(id) => Ok(id),
        None => Err(failure),
    }
}

fn parse_given_or(text: &str, missing: RoomError, malformed: RoomError) -> (res: Result<
    ObjectId,
    RoomError,
>)
    ensures
        res == given_id_or(text@, missing, malformed),
{
    if text.is_empty() {
        Err(missing)
    } else {
        parse_or(text, malformed)
    }
}

/// Who is to own a room that is created, given what the lookup of the caller
/// gave: the account found, where the room has a name.
pub open spec fn room_founder(payload: RoomRequest, owner: Result<Option<User>, StoreError>) -> Result<
    ObjectId,
    RoomError,
> {
    if payload.name@.len() == 0 {
        Err(RoomError::NameRequired)
    } else {
        match owner {
            Ok(Some(found)) => Ok(found.id),
            Ok(None) => Err(RoomError::OwnerNotFound),
            Err(_) => Err(RoomError::Internal),
        }
    }
}

/// The first step of creating a room: the account to look up, which is the
/// caller's.
pub fn create_room_target(caller: &Identity, payload: &RoomRequest) -> (res: Result<
    ObjectId,
    RoomError,
>)
    ensures
        res == if payload.name@.len() == 0 {
            Err::<ObjectId, RoomError>(RoomError::NameRequired)
        } else {
            Ok(caller.subject_id)
        },
{
    if payload.name.as_str().is_empty() {
        Err(RoomError::NameRequired)
    } else {
        Ok(caller.subject_id)
    }
}

/// The second step of creating a room, given what the lookup of the caller
/// gave: the room to store, under a new identifier. Its owner is the account
/// found, and the owner is the one who takes part in it.
pub fn create_room(payload: &RoomRequest, owner: &Result<Option<User>, StoreError>) -> (res: Result<
    Room,
    RoomError,
>)
    ensures
        match room_founder(*payload, *owner) {
            Ok(founder) => res matches Ok(room) && room.name@ == payload.name@ && room.owner
                == founder && room.participants@ == seq![founder] && room.well_formed(),
            Err(e) => res == Err::<Room, RoomError>(e),
        },
{
    if payload.name.as_str().is_empty() {
        return Err(RoomError::NameRequired);
    }
    match owner {
        Ok(Some(found)) => Ok(Room::new(ObjectId::new(), payload.name.clone(), found.id)),
        Ok(None) => Err(RoomError::OwnerNotFound),
        Err(_) => Err(RoomError::Internal),
    }
}

/// The answer to a room created, given what storing it gave.
pub fn room_created(name: &str, inserted: &Result<ObjectId, StoreError>) -> (res: Result<
    RoomResponse,
    RoomError,
>)
    ensures
        match *inserted {
            Ok(id) => res matches Ok(response) && response.room_id == id && response.msg@
                == "The room created successfully with the name "@ + name@,
            Err(_) => res == Err::<RoomResponse, RoomError>(RoomError::CreateFailed),
        },
{
    match inserted {
        Ok(id) => Ok(
            RoomResponse {
                msg: String::from_str("The room created successfully with the name ").concat(name),
                room_id: *id,
            },
        ),
        Err(_) => Err(RoomError::CreateFailed),
    }
}

/// The first step of showing a room: the room to look up.
pub fn get_room_target(id: &str) -> (res: Result<ObjectId, RoomError>)
    ensures
        res == given_id_or(id@, RoomError::IdRequired, RoomError::InvalidIdFormat),
{
    parse_given_or(id, RoomError::IdRequired, RoomError::InvalidIdFormat)
}

/// A room as it is shown.
pub open spec fn shown(room: Room) -> Rooms {
    Rooms { name: room.name, owner: room.owner, participants: room.participants }
}

/// The second step of showing a room, given what the lookup gave.
pub fn get_room(found: Result<Option<Room>, StoreError>) -> (res: Result<Rooms, RoomError>)
    ensures
        res == match found {
            Ok(Some(room)) => Ok::<Rooms, RoomError>(shown(room)),
            Ok(None) => Err(RoomError::RoomNotFound),
            Err(_) => Err(RoomError::DatabaseError),
        },
{
    match found {
        Ok(Some(room)) => Ok(
            Rooms { name: room.name, owner: room.owner, participants: room.participants },
        ),
        Ok(None) => Err(RoomError::RoomNotFound),
        Err(_) => Err(RoomError::DatabaseError),
    }
}

/// The rooms as they are shown, given what reading them gave: all of them in
/// their order, or a failure where one could not be read.
pub fn get_all_rooms(fetched: Result<Vec<Result<Room, StoreError>>, StoreError>) -> (res: Result<
    Vec<Rooms>,
    RoomError,
>)
    ensures
        match fetched {
            Ok(items) => if all_read(items@) {
                res matches Ok(listed) && listed@ == read(items@).map_values(|r: Room| shown(r))
            } else {
                res == Err::<Vec<Rooms>, RoomError>(RoomError::ListFailed)
            },
            Err(_) => res == Err::<Vec<Rooms>, RoomError>(RoomError::Internal),
        },
{
    let items = match fetched {
        Ok(items) => items,
        Err(_) => {
            return Err(RoomError::Internal);
        },
    };
    let rooms = match read_all(items) {
        Some(rooms) => rooms,
        None => {
            return Err(RoomError::ListFailed);
        },
    };
    let ghost all = rooms@;
    let mut listed: Vec<Rooms> = Vec::new();
    for room in it: rooms
        invariant
            it.seq() == all,
            listed@ == all.take(it.index() as int).map_values(|r: Room| shown(r)),
    {
        listed.push(Rooms { name: room.name, owner: room.owner, participants: room.participants });
        assert(listed@ =~= all.take(it.index() + 1).map_values(|r: Room| shown(r)));
    }
    assert(all.take(all.len() as int) =~= all);
    Ok(listed)
}

/// Whether `caller` joins the room that `room_id` names, given what the
/// lookups of the caller's account and of the room gave. The account is
/// looked at before the room.
pub open spec fn joining(
    caller: ObjectId,
    room_id: Seq<char>,
    user: Result<Option<User>, StoreError>,
    room: Result<Option<Room>, StoreError>,
) -> Result<ObjectId, RoomError> {
    match given_id_or(room_id, RoomError::JoinIdRequired, RoomError::InvalidIdFormat) {
        Err(e) => Err(e),
        Ok(id) => match user {
            Err(_) => Err(RoomError::DbError),
            Ok(None) => Err(RoomError::UserNotFound),
            Ok(Some(_)) => match room {
                Err(_) => Err(RoomError::DbError),
                Ok(None) => Err(RoomError::RoomNotFound),
                Ok(Some(found)) => match room_admission(caller, found.participants@) {
                    Decision::Allow(_) => Ok(id),
                    Decision::Deny(_) => Err(RoomError::AlreadyJoined),
                },
            },
        },
    }
}

/// The first step of joining a room: the room to look up.
pub fn join_room_target(room_id: &str) -> (res: Result<ObjectId, RoomError>)
    ensures
        res == given_id_or(room_id@, RoomError::JoinIdRequired, RoomError::InvalidIdFormat),
{
    parse_given_or(room_id, RoomError::JoinIdRequired, RoomError::InvalidIdFormat)
}

/// The second step of joining a room, given what the lookup of the caller's
/// account gave: `Ok` where the caller has one.
pub fn join_room_caller(user: &Result<Option<User>, StoreError>) -> (res: Result<(), RoomError>)
    ensures
        res == match *user {
            Err(_) => Err::<(), RoomError>(RoomError::DbError),
            Ok(None) => Err(RoomError::UserNotFound),
            Ok(Some(_)) => Ok(()),
        },
{
    match user {
        Err(_) => Err(RoomError::DbError),
        Ok(None) => Err(RoomError::UserNotFound),
        Ok(Some(_)) => Ok(()),
    }
}

/// Decides whether `caller` joins the room that `room_id` names, given what
/// the lookups of the caller's account and of the room gave: the room to add
/// the caller to, where the caller may join.
pub fn join_room(
    caller: &Identity,
    room_id: &str,
    user: &Result<Option<User>, StoreError>,
    room: &Result<Option<Room>, StoreError>,
) -> (res: Result<ObjectId, RoomError>)
    ensures
        res == joining(caller.subject_id, room_id@, *user, *room),
{
    let id = match join_room_target(room_id) {
        Ok(id) => id,
        Err(e) => {
            return Err(e);
        },
    };
    match join_room_caller(user) {
        Ok(_) => {},
        Err(e) => {
            return Err(e);
        },
    }
    match room {
        Err(_) => Err(RoomError::DbError),
        Ok(None) => Err(RoomError::RoomNotFound),
        Ok(Some(found)) => match may_join_room(caller.subject_id, found) {
            Decision::Allow(_) => Ok(id),
            Decision::Deny(_) => Err(RoomError::AlreadyJoined),
        },
    }
}

/// The room as it is after `caller` joined it: the caller stands behind those
/// who took part before, and nothing else of the room has changed. A caller
/// who may not join leaves no room behind but the denial.
pub fn room_after_join(caller: &Identity, room: Room) -> (res: Result<Room, RoomError>)
    ensures
        match room_admission(caller.subject_id, room.participants@) {
            Decision::Allow(_) => res matches Ok(after) && after.id == room.id && after.name
                == room.name && after.owner == room.owner && after.participants@
                == room.participants@.push(caller.subject_id) && after.members()
                == room.members().insert(caller.subject_id) && (room.well_formed()
                ==> after.well_formed()),
            Decision::Deny(_) => res == Err::<Room, RoomError>(RoomError::AlreadyJoined),
        },
{
    match may_join_room(caller.subject_id, &room) {
        Decision::Allow(_) => {
            let mut after = room;
            after.add_participant(caller.subject_id);
            Ok(after)
        },
        Decision::Deny(_) => Err(RoomError::AlreadyJoined),
    }
}

/// The answer to a room joined, given what adding the caller to it gave.
pub fn room_joined(caller: &Identity, room_id: ObjectId, outcome: &Result<(), StoreError>) -> (res:
    Result<RoomResponse, RoomError>)
    ensures
        match *outcome {
            Ok(_) => res matches Ok(response) && response.room_id == room_id && response.msg@
                == "The user with id "@ + hex_text(caller.subject_id@)
                + ", has joined the room"@,
            Err(_) => res == Err::<RoomResponse, RoomError>(RoomError::Internal),
        },
{
    match outcome {
        Ok(_) => {
            let id = caller.subject_id.to_hex();
            let msg = String::from_str("The user with id ").concat(id.as_str()).concat(
                ", has joined the room",
            );
            Ok(RoomResponse { msg, room_id })
        },
        Err(_) => Err(RoomError::Internal),
    }
}

/// Whether `caller` leaves a room, given what the lookup of the room gave.
pub open spec fn leaving(caller: ObjectId, room: Result<Option<Room>, StoreError>) -> Result<
    (),
    RoomError,
> {
    match room {
        Err(_) => Err(RoomError::Internal),
        Ok(None) => Err(RoomError::InvalidRoomId),
        Ok(Some(found)) => match room_departure(caller, found.owner, found.participants@) {
            Decision::Allow(_) => Ok(()),
            Decision::Deny(Denial::OwnerCannotLeave) => Err(RoomError::OwnerCannotLeave),
            Decision::Deny(_) => Err(RoomError::NeverAMember),
        },
    }
}

/// The first step of leaving a room: the room to look up.
pub fn leave_room_target(id: &str) -> (res: Result<ObjectId, RoomError>)
    ensures
        res == id_or(id@, RoomError::WrongRoomId),
{
    parse_or(id, RoomError::WrongRoomId)
}

/// The second step of leaving a room, given what the lookup of the room
/// gave: `Ok` where the caller is to be taken out of it.
pub fn leave_room(caller: &Identity, room: &Result<Option<Room>, StoreError>) -> (res: Result<
    (),
    RoomError,
>)
    ensures
        res == leaving(caller.subject_id, *room),
{
    match room {
        Err(_) => Err(RoomError::Internal),
        Ok(None) => Err(RoomError::InvalidRoomId),
        Ok(Some(found)) => match may_leave_room(caller.subject_id, found) {
            Decision::Allow(_) => Ok(()),
            Decision::Deny(Denial::OwnerCannotLeave) => Err(RoomError::OwnerCannotLeave),
            Decision::Deny(_) => Err(RoomError::NeverAMember),
        },
    }
}

/// The room as it is after `caller` left it: the caller takes no part in it
/// any more, the others do in their order, and nothing else of the room has
/// changed. A caller who may not leave leaves no room behind but the denial.
pub fn room_after_leave(caller: &Identity, room: Room) -> (res: Result<Room, RoomError>)
    ensures
        match room_departure(caller.subject_id, room.owner, room.participants@) {
            Decision::Allow(_) => res matches Ok(after) && after.id == room.id && after.name
                == room.name && after.owner == room.owner && after.participants@ == without(
                room.participants@,
                caller.subject_id,
            ) && !after.participants@.contains(caller.subject_id) && after.members()
                == room.members().remove(caller.subject_id) && (room.well_formed()
                ==> after.well_formed()),
            Decision::Deny(Denial::OwnerCannotLeave) => res == Err::<Room, RoomError>(
                RoomError::OwnerCannotLeave,
            ),
            Decision::Deny(_) => res == Err::<Room, RoomError>(RoomError::NeverAMember),
        },
{
    match may_leave_room(caller.subject_id, &room) {
        Decision::Allow(_) => {
            let ghost before = room.participants@;
            let mut after = room;
            after.remove_participant(caller.subject_id);
            proof {
                lemma_without(before, caller.subject_id);
            }
            Ok(after)
        },
        Decision::Deny(Denial::OwnerCannotLeave) => Err(RoomError::OwnerCannotLeave),
        Decision::Deny(_) => Err(RoomError::NeverAMember),
    }
}

/// The answer to a room left, given what taking the caller out of it gave.
pub fn room_left(outcome: &Result<(), StoreError>) -> (res: Result<String, RoomError>)
    ensures
        match *outcome {
            Ok(_) => res matches Ok(text) && text@ == "The user has successfully left the room"@,
            Err(_) => res == Err::<String, RoomError>(RoomError::Internal),
        },
{
    match outcome {
        Ok(_) => Ok(String::from_str("The user has successfully left the room")),
        Err(_) => Err(RoomError::Internal),
    }
}

/// Whether `caller` deletes a room, given what the lookup of the room gave.
pub open spec fn deleting(caller: ObjectId, room: Result<Option<Room>, StoreError>) -> Result<
    (),
    RoomError,
> {
    match room {
        Err(_) => Err(RoomError::Internal),
        Ok(None) => Err(RoomError::RoomMissing),
        Ok(Some(found)) => match room_deletion(caller, found.owner) {
            Decision::Allow(_) => Ok(()),
            Decision::Deny(_) => Err(RoomError::NotOwner),
        },
    }
}

/// The first step of deleting a room: the room to look up.
pub fn delete_room_target(id: &str) -> (res: Result<ObjectId, RoomError>)
    ensures
        res == id_or(id@, RoomError::InvalidId),
{
    parse_or(id, RoomError::InvalidId)
}

/// The second step of deleting a room, given what the lookup of the room
/// gave: `Ok` where the room is to be deleted.
pub fn delete_room(caller: &Identity, room: &Result<Option<Room>, StoreError>) -> (res: Result<
    (),
    RoomError,
>)
    ensures
        res == deleting(caller.subject_id, *room),
{
    match room {
        Err(_) => Err(RoomError::Internal),
        Ok(None) => Err(RoomError::RoomMissing),
        Ok(Some(found)) => match may_delete_room(caller.subject_id, found) {
            Decision::Allow(_) => Ok(()),
            Decision::Deny(_) => Err(RoomError::NotOwner),
        },
    }
}

/// The answer to a room deleted, given what the deletion gave.
pub fn room_deleted(outcome: &Result<(), StoreError>) -> (res: Result<String, RoomError>)
    ensures
        match *outcome {
            Ok(_) => res matches Ok(text) && text@
                == "The room is deleted successfully by its owner"@,
            Err(_) => res == Err::<String, RoomError>(RoomError::DeleteFailed),
        },
{
    match outcome {
        Ok(_) => Ok(String::from_str("The room is deleted successfully by its owner")),
        Err(_) => Err(RoomError::DeleteFailed),
    }
}

/// The owner of a room never leaves it, and one who takes no part in it is
/// told so: neither request passes for done.
pub proof fn leaving_is_for_other_participants(caller: ObjectId, room: Room)
    ensures
        leaving(room.owner, Ok(Some(room))) == Err::<(), RoomError>(RoomError::OwnerCannotLeave),
        caller != room.owner && !room.participants@.contains(caller) ==> leaving(
            caller,
            Ok(Some(room)),
        ) == Err::<(), RoomError>(RoomError::NeverAMember),
        RoomError::NeverAMember.class() == ErrorKind::NotFound,
        leaving(caller, Ok(Some(room))) is Ok <==> caller != room.owner
            && room.participants@.contains(caller),
{
}

/// One who joins a room cannot join it again: after the caller was added, the
/// same request is turned down.
pub proof fn joining_twice_is_denied(
    caller: ObjectId,
    room_id: Seq<char>,
    user: Result<Option<User>, StoreError>,
    before: Room,
    after: Room,
)
    requires
        joining(caller, room_id, user, Ok(Some(before))) is Ok,
        after.participants@ == before.participants@.push(caller),
    ensures
        joining(caller, room_id, user, Ok(Some(after))) == Err::<ObjectId, RoomError>(
            RoomError::AlreadyJoined,
        ),
{
    assert(after.participants@[before.participants@.len() as int] == caller);
}

/// The decision to join and the change go together: where `joining` lets the
/// caller in, the room after the change holds the caller and everyone it held
/// before; where it does not, there is no change.
pub proof fn joining_adds_the_caller(
    caller: ObjectId,
    room_id: Seq<char>,
    user: Result<Option<User>, StoreError>,
    room: Room,
)
    requires
        joining(caller, room_id, user, Ok(Some(room))) is Ok,
    ensures
        room_admission(caller, room.participants@) is Allow,
        !room.participants@.contains(caller),
        room.participants@.push(caller).contains(caller),
        forall|other: ObjectId|
            room.participants@.contains(other) ==> #[trigger] room.participants@.push(
                caller,
            ).contains(other),
{
    let after = room.participants@.push(caller);
    assert(after[room.participants@.len() as int] == caller);
    assert forall|other: ObjectId| room.participants@.contains(other) implies #[trigger] after.contains(
        other,
    ) by {
        let i = choose|i: int| 0 <= i < room.participants@.len() && room.participants@[i] == other;
        assert(after[i] == other);
    }
}

/// The decision to leave and the change go together: where `leaving` lets the
/// caller go, the room after the change holds everyone it held before but the
/// caller, its owner among them.
pub proof fn leaving_removes_the_caller(caller: ObjectId, room: Room)
    requires
        leaving(caller, Ok(Some(room))) is Ok,
    ensures
        room_departure(caller, room.owner, room.participants@) is Allow,
        !without(room.participants@, caller).contains(caller),
        forall|other: ObjectId|
            other != caller ==> (#[trigger] without(room.participants@, caller).contains(other)
                <==> room.participants@.contains(other)),
        room.participants@.contains(room.owner) ==> without(room.participants@, caller).contains(
            room.owner,
        ),
{
    lemma_without(room.participants@, caller);
}

} // verus!
