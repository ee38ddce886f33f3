//! The decisions of a chat service: who a caller is, whether the caller may
//! enter a room, and who may change what.
//!
//! The service keeps accounts, rooms and messages in a document store and
//! speaks HTTP. Neither happens here. Every operation is split into steps, and
//! each step is a function from what the caller of this library has read so
//! far to what is to be done next or to the answer. The steps are verified:
//! each states what it returns for every input.
//!
//! - `token` issues bearer tokens and reads the caller's identity out of the
//!   `Authorization` header of a request.
//! - `room_middleware` guards the routes that belong to a room.
//! - `permission` decides who may delete a message, delete a room, leave one
//!   or join one.
//! - `credential` hashes and checks passwords.
//! - `auth_controller`, `room_controller`, `message_controller` and
//!   `user_controller` hold the steps of the operations.
//! - `router` lists the routes and the order of the interceptors before them.
//! - `models`, `object_id`, `error`, `listing`, `text` and `clock` hold what
//!   the others are built of.

pub mod auth_controller;
pub mod clock;
pub mod credential;
pub mod error;
pub mod listing;
pub mod message_controller;
pub mod models;
pub mod object_id;
pub mod permission;
pub mod room_controller;
pub mod room_middleware;
pub mod router;
pub mod text;
pub mod token;
pub mod user_controller;
