//! Reading, searching and deleting accounts.
//!
//! Each operation is decided here and carried out by the caller: the caller
//! reads or writes the store, and hands what came of it to the next step.

use crate::error::ErrorKind;
use crate::error::StoreError;
use crate::listing::keep_read;
use crate::listing::read;
use crate::models::User;
use crate::object_id::hex_text;
use crate::object_id::ObjectId;
use vstd::prelude::*;

verus! {

/// An account as it is shown.
#[derive(Clone, Debug)]
pub struct UserResponse {
    pub name: String,
    pub email: String,
}

/// Why an operation on accounts failed.
#[derive(Clone, Copy, Debug, PartialEq, Eq, Structural)]
pub enum UserError {
    /// No identifier was given for the account to show.
    IdRequired,
    /// The identifier of an account is not one.
    InvalidIdFormat,
    /// The account to show does not exist.
    UserNotFound,
    /// The store failed.
    Internal,
    /// No name was given to search for.
    NameRequired,
    /// The account to delete does not exist.
    NotFound,
}

impl UserError {
    /// The class of the failure.
    pub open spec fn class(self) -> ErrorKind {
        match self {
            UserError::IdRequired => ErrorKind::Validation,
            UserError::InvalidIdFormat => ErrorKind::Validation,
            UserError::UserNotFound => ErrorKind::NotFound,
            UserError::Internal => ErrorKind::Internal,
            UserError::NameRequired => ErrorKind::Validation,
            UserError::NotFound => ErrorKind::NotFound,
        }
    }

    /// The class of the failure.
    pub fn kind(&self) -> (kind: ErrorKind)
        ensures
            kind == self.class(),
    {
        match self {
            UserError::IdRequired => ErrorKind::Validation,
            UserError::InvalidIdFormat => ErrorKind::Validation,
            UserError::UserNotFound => ErrorKind::NotFound,
            UserError::Internal => ErrorKind::Internal,
            UserError::NameRequired => ErrorKind::Validation,
            UserError::NotFound => ErrorKind::NotFound,
        }
    }

    /// The status sent with the failure: that of its class.
    pub fn status(&self) -> (status: u16)
        ensures
            status == self.class().code(),
    {
        self.kind().status()
    }

    /// The message sent with the failure.
    pub fn message(&self) -> (message: String)
        ensures
            message@ == match *self {
                UserError::IdRequired => "Id is not given"@,
                UserError::InvalidIdFormat => "Invalid ID format"@,
                UserError::UserNotFound => "No user is present associated with the given id"@,
                UserError::Internal => "Internal Server Error"@,
                UserError::NameRequired => "Name is not given"@,
                UserError::NotFound => "User Not Found"@,
            },
    {
        match self {
            UserError::IdRequired => String::from_str("Id is not given"),
            UserError::InvalidIdFormat => String::from_str("Invalid ID format"),
            UserError::UserNotFound => String::from_str(
                "No user is present associated with the given id",
            ),
            UserError::Internal => String::from_str("Internal Server Error"),
            UserError::NameRequired => String::from_str("Name is not given"),
            UserError::NotFound => String::from_str("User Not Found"),
        }
    }
}

/// An account as it is shown.
pub open spec fn shown(user: User) -> UserResponse {
    UserResponse { name: user.name, email: user.email }
}

/// The account to look up for a text of a path.
pub open spec fn user_target(id: Seq<char>) -> Result<ObjectId, UserError> {
    if id.len() == 0 {
        Err(UserError::IdRequired)
    } else {
        match ObjectId::parsed(id) {
            Some(user_id) => Ok(user_id),
            None => Err(UserError::InvalidIdFormat),
        }
    }
}

/// The first step of showing an account: the account to look up.
pub fn get_user_by_id_target(id: &str) -> (res: Result<ObjectId, UserError>)
    ensures
        res == user_target(id@),
{
    if id.is_empty() {
        Err(UserError::IdRequired)
    } else {
        match ObjectId::parse_str(id) {
            Some(user_id) => Ok(user_id),
            None => Err(UserError::InvalidIdFormat),
        }
    }
}

/// The second step of showing an account, given what the lookup gave.
pub fn get_user_by_id(found: Result<Option<User>, StoreError>) -> (res: Result<UserResponse, UserError>)
    ensures
        res == match found {
            Ok(Some(user)) => Ok::<UserResponse, UserError>(shown(user)),
            Ok(None) => Err(UserError::UserNotFound),
            Err(_) => Err(UserError::Internal),
        },
{
    match found {
        Ok(Some(user)) => Ok(UserResponse { name: user.name, email: user.email }),
        Ok(None) => Err(UserError::UserNotFound),
        Err(_) => Err(UserError::Internal),
    }
}

/// The accounts as they are shown, given what reading them gave: those that
/// could be read, in their order.
pub open spec fn listing(fetched: Result<Vec<Result<User, StoreError>>, StoreError>) -> Result<
    Seq<UserResponse>,
    UserError,
> {
    match fetched {
        Ok(items) => Ok(read(items@).map_values(|u: User| shown(u))),
        Err(_) => Err(UserError::Internal),
    }
}

fn list_users(fetched: Result<Vec<Result<User, StoreError>>, StoreError>) -> (res: Result<
    Vec<UserResponse>,
    UserError,
>)
    ensures
        match res {
            Ok(listed) => listing(fetched) == Ok::<Seq<UserResponse>, UserError>(listed@),
            Err(e) => listing(fetched) == Err::<Seq<UserResponse>, UserError>(e),
        },
{
    let items = match fetched {
        Ok(items) => items,
        Err(_) => {
            return Err(UserError::Internal);
        },
    };
    let users = keep_read(items);
    let ghost all = users@;
    let mut listed: Vec<UserResponse> = Vec::new();
    for user in it: users
        invariant
            it.seq() == all,
            listed@ == all.take(it.index() as int).map_values(|u: User| shown(u)),
    {
        listed.push(UserResponse { name: user.name, email: user.email });
        assert(listed@ =~= all.take(it.index() + 1).map_values(|u: User| shown(u)));
    }
    assert(all.take(all.len() as int) =~= all);
    Ok(listed)
}

/// All accounts as they are shown, given what reading them gave.
pub fn get_all_user(fetched: Result<Vec<Result<User, StoreError>>, StoreError>) -> (res: Result<
    Vec<UserResponse>,
    UserError,
>)
    ensures
        match res {
            Ok(listed) => listing(fetched) == Ok::<Seq<UserResponse>, UserError>(listed@),
            Err(e) => listing(fetched) == Err::<Seq<UserResponse>, UserError>(e),
        },
{
    list_users(fetched)
}

/// The first step of a search by name: `Ok` where there is a name to search
/// for.
pub fn search_by_name_target(name: &str) -> (res: Result<(), UserError>)
    ensures
        res == if name@.len() == 0 {
            Err::<(), UserError>(UserError::NameRequired)
        } else {
            Ok(())
        },
{
    if name.is_empty() {
        Err(UserError::NameRequired)
    } else {
        Ok(())
    }
}

/// The accounts of a name as they are shown, given what reading them gave.
pub fn search_by_name(fetched: Result<Vec<Result<User, StoreError>>, StoreError>) -> (res: Result<
    Vec<UserResponse>,
    UserError,
>)
    ensures
        match res {
            Ok(listed) => listing(fetched) == Ok::<Seq<UserResponse>, UserError>(listed@),
            Err(e) => listing(fetched) == Err::<Seq<UserResponse>, UserError>(e),
        },
{
    list_users(fetched)
}

/// The first step of deleting an account: the account to delete.
pub fn delete_user_target(id: &str) -> (res: Result<ObjectId, UserError>)
    ensures
        res == match ObjectId::parsed(id@) {
            Some(user_id) => Ok::<ObjectId, UserError>(user_id),
            None => Err(UserError::InvalidIdFormat),
        },
{
    match ObjectId::parse_str(id) {
        Some(user_id) => Ok(user_id),
        None => Err(UserError::InvalidIdFormat),
    }
}

/// The answer to an account deleted, given the account that the store took
/// out, if it took one out.
pub fn delete_user(deleted: &Result<Option<User>, StoreError>) -> (res: Result<String, UserError>)
    ensures
        match *deleted {
            Ok(Some(user)) => res matches Ok(text) && text@ == "The User with user id: "@
                + hex_text(user.id@) + ", is deleted successfully"@,
            Ok(None) => res == Err::<String, UserError>(UserError::NotFound),
            Err(_) => res == Err::<String, UserError>(UserError::Internal),
        },
{
    match deleted {
        Ok(Some(user)) => {
            let id = user.id.to_hex();
            Ok(
                String::from_str("The User with user id: ").concat(id.as_str()).concat(
                    ", is deleted successfully",
                ),
            )
        },
        Ok(None) => Err(UserError::NotFound),
        Err(_) => Err(UserError::Internal),
    }
}

} // verus!
