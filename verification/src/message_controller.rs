//! Sending, listing and deleting messages.
//!
//! Each operation is decided here and carried out by the caller: the caller
//! reads or writes the store, and hands what came of it to the next step.

use crate::clock::timestamp_millis;
use crate::error::ErrorKind;
use crate::error::StoreError;
use crate::listing::all_read;
use crate::listing::keep_present;
use crate::listing::present;
use crate::listing::read;
use crate::listing::read_all;
use crate::models::Message;
use crate::models::Recipient;
use crate::models::Room;
use crate::models::User;
use crate::object_id::hex_text;
use crate::object_id::ObjectId;
use crate::permission::direct_message_deletion;
use crate::permission::may_delete_direct_message;
use crate::permission::may_delete_room_message;
use crate::permission::room_message_deletion;
use crate::permission::Decision;
use crate::permission::Grant;
use crate::token::Identity;
use vstd::prelude::*;

verus! {

/// What a caller sends to send a message.
#[derive(Clone, Debug)]
pub struct MessageRequest {
    pub content: String,
}

/// The answer to a message sent.
#[derive(Clone, Debug)]
pub struct MessageResponse {
    pub msg: String,
    pub id: String,
}

/// A message of a room, as listed.
#[derive(Clone, Debug)]
pub struct GetRoomMessages {
    pub sender_id: ObjectId,
    pub room_id: Option<ObjectId>,
    pub content: String,
}

/// A message between two users, as listed.
#[derive(Clone, Debug)]
pub struct GetDMMessages {
    pub sender_id: ObjectId,
    pub receiver_id: Option<ObjectId>,
    pub content: String,
}

/// A conversation of a user, with its last message.
#[derive(Clone, Debug)]
pub struct RecentChat {
    pub chat_id: ObjectId,
    /// `user` or `room`.
    pub chat_type: String,
    pub name: String,
    pub last_message: String,
    /// Milliseconds since the epoch.
    pub timestamp: i64,
}

/// Why an operation on messages failed.
#[derive(Clone, Copy, Debug, PartialEq, Eq, Structural)]
pub enum MessageError {
    /// A message without a recipient or without content.
    FieldsRequired,
    /// The recipient of a message is not an identifier.
    InvalidReceiverId,
    /// The recipient of a message is neither a room nor a user.
    RecipientNotFound,
    /// The store failed.
    Internal,
    /// The identifier in the path of a room's route is not one.
    WrongRoomId,
    /// The message of a room to delete does not exist.
    MessageNotFound,
    /// The caller neither sent the message of a room nor owns the room.
    Forbidden,
    /// The identifier of a direct message to delete is not one.
    IdNotFound,
    /// The direct message to delete does not exist.
    DirectMessageNotFound,
    /// The caller did not send the direct message.
    DirectForbidden,
    /// The user whose conversations are asked for is not an identifier.
    InvalidUserId,
    /// The conversations of a user could not be read.
    RecentChatsFailed,
    /// An identifier in the path of a history route is not one. No message
    /// goes with it.
    BadRequest,
    /// A history could not be read. No message goes with it.
    Failed,
}

impl MessageError {
    /// The class of the failure.
    pub open spec fn class(self) -> ErrorKind {
        match self {
            MessageError::FieldsRequired => ErrorKind::Validation,
            MessageError::InvalidReceiverId => ErrorKind::NotFound,
            MessageError::RecipientNotFound => ErrorKind::NotFound,
            MessageError::Internal => ErrorKind::Internal,
            MessageError::WrongRoomId => ErrorKind::NotFound,
            MessageError::MessageNotFound => ErrorKind::NotFound,
            MessageError::Forbidden => ErrorKind::Authorization,
            MessageError::IdNotFound => ErrorKind::NotFound,
            MessageError::DirectMessageNotFound => ErrorKind::NotFound,
            MessageError::DirectForbidden => ErrorKind::Authorization,
            MessageError::InvalidUserId => ErrorKind::Validation,
            MessageError::RecentChatsFailed => ErrorKind::Internal,
            MessageError::BadRequest => ErrorKind::Validation,
            MessageError::Failed => ErrorKind::Internal,
        }
    }

    /// The class of the failure.
    pub fn kind(&self) -> (kind: ErrorKind)
        ensures
            kind == self.class(),
    {
        match self {
            MessageError::FieldsRequired => ErrorKind::Validation,
            MessageError::InvalidReceiverId => ErrorKind::NotFound,
            MessageError::RecipientNotFound => ErrorKind::NotFound,
            MessageError::Internal => ErrorKind::Internal,
            MessageError::WrongRoomId => ErrorKind::NotFound,
            MessageError::MessageNotFound => ErrorKind::NotFound,
            MessageError::Forbidden => ErrorKind::Authorization,
            MessageError::IdNotFound => ErrorKind::NotFound,
            MessageError::DirectMessageNotFound => ErrorKind::NotFound,
            MessageError::DirectForbidden => ErrorKind::Authorization,
            MessageError::InvalidUserId => ErrorKind::Validation,
            MessageError::RecentChatsFailed => ErrorKind::Internal,
            MessageError::BadRequest => ErrorKind::Validation,
            MessageError::Failed => ErrorKind::Internal,
        }
    }

    /// The status sent with the failure: that of its class.
    pub fn status(&self) -> (status: u16)
        ensures
            status == self.class().code(),
    {
        self.kind().status()
    }

    /// The message sent with the failure.
    pub fn message(&self) -> (message: String)
        ensures
            message@ == match *self {
                MessageError::FieldsRequired => "The fields are required"@,
                MessageError::InvalidReceiverId => "Invalid Receiver Obj Id"@,
                MessageError::RecipientNotFound => "Not Found"@,
                MessageError::Internal => "Internal Server Error"@,
                MessageError::WrongRoomId => "Wrong Room Id"@,
                MessageError::MessageNotFound => "messagenot found"@,
                MessageError::Forbidden => "You don't have permission to delete this message"@,
                MessageError::IdNotFound => "Id not found"@,
                MessageError::DirectMessageNotFound => "Message Not Found"@,
                MessageError::DirectForbidden => "You have no right to delete the message"@,
                MessageError::InvalidUserId => "Invalid user ID"@,
                MessageError::RecentChatsFailed => "Failed to fetch recent chats"@,
                MessageError::BadRequest => ""@,
                MessageError::Failed => ""@,
            },
    {
        match self {
            MessageError::FieldsRequired => String::from_str("The fields are required"),
            MessageError::InvalidReceiverId => String::from_str("Invalid Receiver Obj Id"),
            MessageError::RecipientNotFound => String::from_str("Not Found"),
            MessageError::Internal => String::from_str("Internal Server Error"),
            MessageError::WrongRoomId => String::from_str("Wrong Room Id"),
            MessageError::MessageNotFound => String::from_str("messagenot found"),
            MessageError::Forbidden => String::from_str(
                "You don't have permission to delete this message",
            ),
            MessageError::IdNotFound => String::from_str("Id not found"),
            MessageError::DirectMessageNotFound => String::from_str("Message Not Found"),
            MessageError::DirectForbidden => String::from_str(
                "You have no right to delete the message",
            ),
            MessageError::InvalidUserId => String::from_str("Invalid user ID"),
            MessageError::RecentChatsFailed => String::from_str("Failed to fetch recent chats"),
            MessageError::BadRequest => String::from_str(""),
            MessageError::Failed => String::from_str(""),
        }
    }
}

/// The identifier that a text of a path stands for, or the given failure.
pub open spec fn id_or(text: Seq<char>, failure: MessageError) -> Result<ObjectId, MessageError> {
    match ObjectId::parsed(text) {
        Some(id) => Ok(id),
        None => Err(failure),
    }
}

fn parse_or(text: &str, failure: MessageError) -> (res: Result<ObjectId, MessageError>)
    ensures
        res == id_or(text@, failure),
{
    match ObjectId::parse_str(text) {
        Some(id) => Ok(id),
        None => Err(failure),
    }
}

/// The identifier to look up for a message to send: that of its recipient,
/// where the message has one and has content.
pub open spec fn send_target(id: Seq<char>, content: Seq<char>) -> Result<ObjectId, MessageError> {
    if id.len() == 0 || content.len() == 0 {
        Err(MessageError::FieldsRequired)
    } else {
        id_or(id, MessageError::InvalidReceiverId)
    }
}

/// The first step of sending a message: the identifier to look up.
pub fn send_message_target(id: &str, payload: &MessageRequest) -> (res: Result<
    ObjectId,
    MessageError,
>)
    ensures
        res == send_target(id@, payload.content@),
{
    if id.is_empty() || payload.content.as_str().is_empty() {
        Err(MessageError::FieldsRequired)
    } else {
        parse_or(id, MessageError::InvalidReceiverId)
    }
}

/// Whom an identifier stands for, given what the lookups among the rooms and
/// among the users gave: a room where there is one, else a user where there
/// is one.
pub open spec fn recipient_resolution(
    room: Result<Option<Room>, StoreError>,
    user: Result<Option<User>, StoreError>,
) -> Result<Recipient, MessageError> {
    match room {
        Err(_) => Err(MessageError::Internal),
        Ok(Some(found)) => Ok(Recipient::Room(found.id)),
        Ok(None) => match user {
            Err(_) => Err(MessageError::Internal),
            Ok(Some(found)) => Ok(Recipient::User(found.id)),
            Ok(None) => Err(MessageError::RecipientNotFound),
        },
    }
}

/// The second step of sending a message, given what the lookup among the
/// rooms gave: the recipient where it is a room, `None` where the users are
/// to be asked.
pub fn probe_rooms(room: &Result<Option<Room>, StoreError>) -> (res: Result<
    Option<Recipient>,
    MessageError,
>)
    ensures
        res == match *room {
            Err(_) => Err::<Option<Recipient>, MessageError>(MessageError::Internal),
            Ok(Some(found)) => Ok(Some(Recipient::Room(found.id))),
            Ok(None) => Ok(None),
        },
        forall|user: Result<Option<User>, StoreError>|
            res matches Ok(Some(recipient)) ==> #[trigger] recipient_resolution(*room, user) == Ok::<
                Recipient,
                MessageError,
            >(recipient),
        forall|user: Result<Option<User>, StoreError>|
            res matches Err(e) ==> #[trigger] recipient_resolution(*room, user) == Err::<
                Recipient,
                MessageError,
            >(e),
{
    match room {
        Err(_) => Err(MessageError::Internal),
        Ok(Some(found)) => Ok(Some(Recipient::Room(found.id))),
        Ok(None) => Ok(None),
    }
}

/// The third step of sending a message to what is no room, given what the
/// lookup among the users gave.
pub fn probe_users(user: &Result<Option<User>, StoreError>) -> (res: Result<Recipient, MessageError>)
    ensures
        res == recipient_resolution(Ok(None), *user),
{
    match user {
        Err(_) => Err(MessageError::Internal),
        Ok(Some(found)) => Ok(Recipient::User(found.id)),
        Ok(None) => Err(MessageError::RecipientNotFound),
    }
}

/// The message of `caller` for `recipient`, under a new identifier and with
/// the time of the call.
pub fn send_message(caller: &Identity, recipient: Recipient, payload: &MessageRequest) -> (message:
    Message)
    ensures
        message.sender_id == caller.subject_id,
        message.content@ == payload.content@,
        message.addressed_to() == Some(recipient),
        message.well_formed(),
{
    Message::new(
        ObjectId::new(),
        caller.subject_id,
        recipient,
        payload.content.clone(),
        timestamp_millis(),
    )
}

/// The message of a successful send.
pub open spec fn sent_text() -> Seq<char> {
    "Message was sent Successfully"@
}

/// The answer to a message sent, given what storing it gave: the identifier
/// under which it was stored, in hexadecimal, or nothing where the store gave
/// none.
pub fn message_sent(inserted: &Result<Option<ObjectId>, StoreError>) -> (res: Result<
    MessageResponse,
    MessageError,
>)
    ensures
        match *inserted {
            Ok(Some(id)) => res matches Ok(response) && response.msg@ == sent_text() && response.id@
                == hex_text(id@),
            Ok(None) => res matches Ok(response) && response.msg@ == sent_text()
                && response.id@.len() == 0,
            Err(_) => res == Err::<MessageResponse, MessageError>(MessageError::Internal),
        },
{
    match inserted {
        Ok(Some(id)) => Ok(
            MessageResponse { msg: String::from_str("Message was sent Successfully"), id: id.to_hex() },
        ),
        Ok(None) => Ok(
            MessageResponse { msg: String::from_str("Message was sent Successfully"), id: String::new() },
        ),
        Err(_) => Err(MessageError::Internal),
    }
}

/// What to do next with a message of a room that is to be deleted.
#[derive(Clone, Copy, Debug, PartialEq, Eq)]
pub enum RoomMessageStep {
    /// The caller sent it: delete it.
    DeleteAsSender,
    /// The caller did not send it: look up the room it says it is in, if it
    /// says so.
    AskRoom(Option<ObjectId>),
}

/// The first step of deleting a message of a room: the message to look up.
pub fn delete_message_in_room_target(id: &str) -> (res: Result<ObjectId, MessageError>)
    ensures
        res == id_or(id@, MessageError::WrongRoomId),
{
    parse_or(id, MessageError::WrongRoomId)
}

/// The second step of deleting a message of a room, given what the lookup of
/// the message gave: its sender may delete it at once, and for anyone else
/// the room is asked.
pub fn delete_message_in_room(caller: &Identity, message: &Result<Option<Message>, StoreError>) -> (res:
    Result<RoomMessageStep, MessageError>)
    ensures
        res == match *message {
            Err(_) => Err::<RoomMessageStep, MessageError>(MessageError::Internal),
            Ok(None) => Err(MessageError::MessageNotFound),
            Ok(Some(found)) => if direct_message_deletion(caller.subject_id, found.sender_id)
                is Allow {
                Ok(RoomMessageStep::DeleteAsSender)
            } else {
                Ok(RoomMessageStep::AskRoom(found.room_id))
            },
        },
{
    match message {
        Err(_) => Err(MessageError::Internal),
        Ok(None) => Err(MessageError::MessageNotFound),
        Ok(Some(found)) => match may_delete_direct_message(caller.subject_id, found.sender_id) {
            Decision::Allow(_) => Ok(RoomMessageStep::DeleteAsSender),
            Decision::Deny(_) => Ok(RoomMessageStep::AskRoom(found.room_id)),
        },
    }
}

/// By which rule `caller` deletes a message of a room, given what the lookup
/// of its room gave. The sender deletes it whatever became of the room.
/// Anyone else does where the room is found and is the caller's own, and is
/// denied where it is another's or is not found: a room that is not there has
/// no owner. A lookup that failed is a failure for anyone but the sender.
pub open spec fn room_message_removal(
    caller: ObjectId,
    sender: ObjectId,
    room: Result<Option<Room>, StoreError>,
) -> Result<Grant, MessageError> {
    match direct_message_deletion(caller, sender) {
        Decision::Allow(grant) => Ok(grant),
        Decision::Deny(_) => match room {
            Err(_) => Err(MessageError::Internal),
            Ok(None) => Err(MessageError::Forbidden),
            Ok(Some(found)) => match room_message_deletion(caller, sender, found.owner) {
                Decision::Allow(grant) => Ok(grant),
                Decision::Deny(_) => Err(MessageError::Forbidden),
            },
        },
    }
}

/// What comes of deleting a message of a room, given what the lookups of the
/// message and of its room gave: the rule by which the caller deletes it, if
/// by any.
pub open spec fn room_message_outcome(
    caller: ObjectId,
    message: Result<Option<Message>, StoreError>,
    room: Result<Option<Room>, StoreError>,
) -> Result<Grant, MessageError> {
    match message {
        Err(_) => Err(MessageError::Internal),
        Ok(None) => Err(MessageError::MessageNotFound),
        Ok(Some(found)) => room_message_removal(caller, found.sender_id, room),
    }
}

/// The third step of deleting a message of a room that the caller did not
/// send, given what the lookups of the message and of its room gave: the rule
/// by which the caller may delete it, if by any.
pub fn delete_message_as_owner(
    caller: &Identity,
    message: &Result<Option<Message>, StoreError>,
    room: &Result<Option<Room>, StoreError>,
) -> (res: Result<Grant, MessageError>)
    ensures
        res == room_message_outcome(caller.subject_id, *message, *room),
{
    let sender = match message {
        Err(_) => {
            return Err(MessageError::Internal);
        },
        Ok(None) => {
            return Err(MessageError::MessageNotFound);
        },
        Ok(Some(found)) => found.sender_id,
    };
    match may_delete_direct_message(caller.subject_id, sender) {
        Decision::Allow(grant) => Ok(grant),
        Decision::Deny(_) => match room {
            Err(_) => Err(MessageError::Internal),
            Ok(None) => Err(MessageError::Forbidden),
            Ok(Some(found)) => match may_delete_room_message(caller.subject_id, sender, found.owner) {
                Decision::Allow(grant) => Ok(grant),
                Decision::Deny(_) => Err(MessageError::Forbidden),
            },
        },
    }
}

/// Whether `caller` owns the room that a lookup found, if it found one.
pub open spec fn owns_room(caller: ObjectId, room: Option<Room>) -> bool {
    match room {
        Some(found) => found.owner == caller,
        None => false,
    }
}

/// One who neither sent a message nor owns its room is denied as forbidden,
/// whether the room is another's or is not there; the sender and the owner
/// are allowed. No lookup that answered is reported as a failure.
pub proof fn only_sender_and_owner_delete(caller: ObjectId, sender: ObjectId, room: Option<Room>)
    ensures
        room_message_removal(sender, sender, Ok(room)) == Ok::<Grant, MessageError>(Grant::Sender),
        caller != sender && owns_room(caller, room) ==> room_message_removal(
            caller,
            sender,
            Ok(room),
        ) == Ok::<Grant, MessageError>(Grant::RoomOwner),
        caller != sender && !owns_room(caller, room) ==> room_message_removal(
            caller,
            sender,
            Ok(room),
        ) == Err::<Grant, MessageError>(MessageError::Forbidden),
        MessageError::Forbidden.class() == ErrorKind::Authorization,
{
}

/// The answer to a message of a room deleted by its sender, given what the
/// deletion gave.
pub fn deleted_by_sender(outcome: &Result<(), StoreError>) -> (res: Result<String, MessageError>)
    ensures
        match *outcome {
            Ok(_) => res matches Ok(text) && text@
                == "Message is deleted successfully by the sender himself"@,
            Err(_) => res == Err::<String, MessageError>(MessageError::Internal),
        },
{
    match outcome {
        Ok(_) => Ok(String::from_str("Message is deleted successfully by the sender himself")),
        Err(_) => Err(MessageError::Internal),
    }
}

/// The answer to a message of a room deleted by the owner of the room, given
/// what the deletion gave.
pub fn deleted_by_owner(outcome: &Result<(), StoreError>) -> (res: Result<String, MessageError>)
    ensures
        match *outcome {
            Ok(_) => res matches Ok(text) && text@ == "Message Deleted Successfully by the owner"@,
            Err(_) => res == Err::<String, MessageError>(MessageError::Internal),
        },
{
    match outcome {
        Ok(_) => Ok(String::from_str("Message Deleted Successfully by the owner")),
        Err(_) => Err(MessageError::Internal),
    }
}

/// The answer to a message of a room deleted, given the rule by which the
/// caller deleted it and what the deletion gave: the owner's where the caller
/// deleted it as the owner of the room, the sender's else.
pub fn room_message_deleted(grant: Grant, outcome: &Result<(), StoreError>) -> (res: Result<
    String,
    MessageError,
>)
    ensures
        match *outcome {
            Ok(_) => res matches Ok(text) && text@ == if grant == Grant::RoomOwner {
                "Message Deleted Successfully by the owner"@
            } else {
                "Message is deleted successfully by the sender himself"@
            },
            Err(_) => res == Err::<String, MessageError>(MessageError::Internal),
        },
{
    match grant {
        Grant::RoomOwner => deleted_by_owner(outcome),
        _ => deleted_by_sender(outcome),
    }
}

/// The first step of deleting a direct message: the message to look up.
pub fn delete_message_in_dm_target(id: &str) -> (res: Result<ObjectId, MessageError>)
    ensures
        res == id_or(id@, MessageError::IdNotFound),
{
    parse_or(id, MessageError::IdNotFound)
}

/// The second step of deleting a direct message, given what the lookup of the
/// message gave: `Ok` where the caller may delete it.
pub fn delete_message_in_dm(caller: &Identity, message: &Result<Option<Message>, StoreError>) -> (res:
    Result<(), MessageError>)
    ensures
        res == match *message {
            Err(_) => Err::<(), MessageError>(MessageError::Internal),
            Ok(None) => Err(MessageError::DirectMessageNotFound),
            Ok(Some(found)) => if direct_message_deletion(caller.subject_id, found.sender_id)
                is Allow {
                Ok(())
            } else {
                Err(MessageError::DirectForbidden)
            },
        },
{
    match message {
        Err(_) => Err(MessageError::Internal),
        Ok(None) => Err(MessageError::DirectMessageNotFound),
        Ok(Some(found)) => match may_delete_direct_message(caller.subject_id, found.sender_id) {
            Decision::Allow(_) => Ok(()),
            Decision::Deny(_) => Err(MessageError::DirectForbidden),
        },
    }
}

/// The answer to a direct message deleted, given what the deletion gave.
pub fn direct_message_deleted(outcome: &Result<(), StoreError>) -> (res: Result<String, MessageError>)
    ensures
        match *outcome {
            Ok(_) => res matches Ok(text) && text@ == "the message deleted successfully"@,
            Err(_) => res == Err::<String, MessageError>(MessageError::Internal),
        },
{
    match outcome {
        Ok(_) => Ok(String::from_str("the message deleted successfully")),
        Err(_) => Err(MessageError::Internal),
    }
}

/// A message of a room as it is listed.
pub open spec fn room_listing(message: Message) -> GetRoomMessages {
    GetRoomMessages {
        sender_id: message.sender_id,
        room_id: message.room_id,
        content: message.content,
    }
}

/// A message between two users as it is listed.
pub open spec fn direct_listing(message: Message) -> GetDMMessages {
    GetDMMessages {
        sender_id: message.sender_id,
        receiver_id: message.receiver_id,
        content: message.content,
    }
}

/// The first step of listing the messages of a room: the room to look up.
pub fn get_messages_by_room_id_target(id: &str) -> (res: Result<ObjectId, MessageError>)
    ensures
        res == id_or(id@, MessageError::WrongRoomId),
{
    parse_or(id, MessageError::WrongRoomId)
}

/// The messages of a room as listed, given what reading them gave: all of
/// them in their order, or a failure where one could not be read.
pub fn get_messages_by_room_id(fetched: Result<Vec<Result<Message, StoreError>>, StoreError>) -> (res:
    Result<Vec<GetRoomMessages>, MessageError>)
    ensures
        match fetched {
            Ok(items) if all_read(items@) => res matches Ok(listed) && listed@ == read(
                items@,
            ).map_values(|m: Message| room_listing(m)),
            _ => res == Err::<Vec<GetRoomMessages>, MessageError>(MessageError::Internal),
        },
{
    let items = match fetched {
        Ok(items) => items,
        Err(_) => {
            return Err(MessageError::Internal);
        },
    };
    let messages = match read_all(items) {
        Some(messages) => messages,
        None => {
            return Err(MessageError::Internal);
        },
    };
    let ghost all = messages@;
    let mut listed: Vec<GetRoomMessages> = Vec::new();
    for message in it: messages
        invariant
            it.seq() == all,
            listed@ == all.take(it.index() as int).map_values(|m: Message| room_listing(m)),
    {
        listed.push(
            GetRoomMessages {
                sender_id: message.sender_id,
                room_id: message.room_id,
                content: message.content,
            },
        );
        assert(listed@ =~= all.take(it.index() + 1).map_values(|m: Message| room_listing(m)));
    }
    assert(all.take(all.len() as int) =~= all);
    Ok(listed)
}

/// The first step of listing the messages that the caller sent to a user: the
/// user to look up.
pub fn get_messages_in_dm_target(id: &str) -> (res: Result<ObjectId, MessageError>)
    ensures
        res == id_or(id@, MessageError::WrongRoomId),
{
    parse_or(id, MessageError::WrongRoomId)
}

/// The messages between two users as listed, given what reading them gave:
/// all of them in their order, or a failure where one could not be read.
pub fn get_messages_in_dm(fetched: Result<Vec<Result<Message, StoreError>>, StoreError>) -> (res: Result<
    Vec<GetDMMessages>,
    MessageError,
>)
    ensures
        match fetched {
            Ok(items) if all_read(items@) => res matches Ok(listed) && listed@ == read(
                items@,
            ).map_values(|m: Message| direct_listing(m)),
            _ => res == Err::<Vec<GetDMMessages>, MessageError>(MessageError::Internal),
        },
{
    let items = match fetched {
        Ok(items) => items,
        Err(_) => {
            return Err(MessageError::Internal);
        },
    };
    let messages = match read_all(items) {
        Some(messages) => messages,
        None => {
            return Err(MessageError::Internal);
        },
    };
    let ghost all = messages@;
    let mut listed: Vec<GetDMMessages> = Vec::new();
    for message in it: messages
        invariant
            it.seq() == all,
            listed@ == all.take(it.index() as int).map_values(|m: Message| direct_listing(m)),
    {
        listed.push(
            GetDMMessages {
                sender_id: message.sender_id,
                receiver_id: message.receiver_id,
                content: message.content,
            },
        );
        assert(listed@ =~= all.take(it.index() + 1).map_values(|m: Message| direct_listing(m)));
    }
    assert(all.take(all.len() as int) =~= all);
    Ok(listed)
}

/// The first step of listing the conversations of a user: the user whose they
/// are.
pub fn get_users_with_recent_chats_target(current_user_id: &str) -> (res: Result<
    ObjectId,
    MessageError,
>)
    ensures
        res == id_or(current_user_id@, MessageError::InvalidUserId),
{
    parse_or(current_user_id, MessageError::InvalidUserId)
}

/// The conversations of a user, given what reading them gave: those that
/// could be read, in their order.
pub fn get_users_with_recent_chats(fetched: Result<Vec<Option<RecentChat>>, StoreError>) -> (res:
    Result<Vec<RecentChat>, MessageError>)
    ensures
        match fetched {
            Ok(items) => res matches Ok(chats) && chats@ == present(items@),
            Err(_) => res == Err::<Vec<RecentChat>, MessageError>(MessageError::RecentChatsFailed),
        },
{
    match fetched {
        Ok(items) => Ok(keep_present(items)),
        Err(_) => Err(MessageError::RecentChatsFailed),
    }
}

/// The two users of a history, where both texts are identifiers.
pub open spec fn history_users(first: Seq<char>, second: Seq<char>) -> Result<
    (ObjectId, ObjectId),
    MessageError,
> {
    match (ObjectId::parsed(first), ObjectId::parsed(second)) {
        (Some(a), Some(b)) => Ok((a, b)),
        _ => Err(MessageError::BadRequest),
    }
}

/// The first step of reading the history of two users: the two users.
pub fn get_messages_between_users_target(user1_id: &str, user2_id: &str) -> (res: Result<
    (ObjectId, ObjectId),
    MessageError,
>)
    ensures
        res == history_users(user1_id@, user2_id@),
{
    match ObjectId::parse_str(user1_id) {
        None => Err(MessageError::BadRequest),
        Some(first) => match ObjectId::parse_str(user2_id) {
            None => Err(MessageError::BadRequest),
            Some(second) => Ok((first, second)),
        },
    }
}

/// The messages of a history, given what reading them gave: a failure where
/// the store failed, else the documents that are messages, in their order.
pub open spec fn history(fetched: Result<Vec<Result<Option<Message>, StoreError>>, StoreError>) -> Result<
    Seq<Message>,
    MessageError,
> {
    match fetched {
        Ok(items) if all_read(items@) => Ok(present(read(items@))),
        _ => Err(MessageError::Failed),
    }
}

fn read_history(fetched: Result<Vec<Result<Option<Message>, StoreError>>, StoreError>) -> (res: Result<
    Vec<Message>,
    MessageError,
>)
    ensures
        match res {
            Ok(messages) => history(fetched) == Ok::<Seq<Message>, MessageError>(messages@),
            Err(e) => history(fetched) == Err::<Seq<Message>, MessageError>(e),
        },
{
    match fetched {
        Err(_) => Err(MessageError::Failed),
        Ok(items) => match read_all(items) {
            None => Err(MessageError::Failed),
            Some(documents) => Ok(keep_present(documents)),
        },
    }
}

/// The history of two users, given what reading it gave.
pub fn get_messages_between_users(
    fetched: Result<Vec<Result<Option<Message>, StoreError>>, StoreError>,
) -> (res: Result<Vec<Message>, MessageError>)
    ensures
        match res {
            Ok(messages) => history(fetched) == Ok::<Seq<Message>, MessageError>(messages@),
            Err(e) => history(fetched) == Err::<Seq<Message>, MessageError>(e),
        },
{
    read_history(fetched)
}

/// The first step of reading the history of a room: the room.
pub fn get_messages_in_room_target(room_id: &str) -> (res: Result<ObjectId, MessageError>)
    ensures
        res == id_or(room_id@, MessageError::BadRequest),
{
    parse_or(room_id, MessageError::BadRequest)
}

/// The history of a room, given what reading it gave.
pub fn get_messages_in_room(fetched: Result<Vec<Result<Option<Message>, StoreError>>, StoreError>) -> (res:
    Result<Vec<Message>, MessageError>)
    ensures
        match res {
            Ok(messages) => history(fetched) == Ok::<Seq<Message>, MessageError>(messages@),
            Err(e) => history(fetched) == Err::<Seq<Message>, MessageError>(e),
        },
{
    read_history(fetched)
}

} // verus!
