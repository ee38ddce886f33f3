//! The routes, and the interceptors that a request passes before its handler.
//!
//! The interceptors of a route run in the order in which `interceptors` lists
//! them. The room membership guard reads the identity that the identity
//! extractor leaves with the request, so wherever the guard runs the extractor
//! runs before it.

use vstd::prelude::*;

verus! {

/// What a request passes before it reaches its handler.
#[derive(Clone, Copy, Debug, PartialEq, Eq, Structural)]
pub enum Interceptor {
    /// Reads the caller's identity out of the credential of the request.
    IdentityExtractor,
    /// Lets the request through where the caller takes part in the room.
    RoomMembershipGuard,
}

/// What a route asks of its caller.
#[derive(Clone, Copy, Debug, PartialEq, Eq, Structural)]
pub enum Access {
    /// Nothing.
    Public,
    /// A valid credential.
    Protected,
    /// A valid credential, and a part in the room that the path names.
    RoomScoped,
}

/// The routes of the service.
#[derive(Clone, Copy, Debug, PartialEq, Eq, Structural)]
pub enum Endpoint {
    Root,
    Register,
    Login,
    GetUser,
    GetAllUsers,
    SearchUsers,
    GetAllRooms,
    DeleteUser,
    CreateRoom,
    GetRoom,
    JoinRoom,
    LeaveRoom,
    DeleteRoom,
    DeleteRoomMessage,
    DeleteDirectMessage,
    SendMessage,
    GetRoomMessages,
    GetDirectMessages,
}

/// The interceptors of a route are in order when an identity extractor stands
/// before every room membership guard.
pub open spec fn in_order(chain: Seq<Interceptor>) -> bool {
    forall|i: int|
        0 <= i < chain.len() && chain[i] == Interceptor::RoomMembershipGuard ==> exists|j: int|
            0 <= j < i && #[trigger] chain[j] == Interceptor::IdentityExtractor
}

impl Access {
    /// The interceptors that a request passes, in the order in which it passes
    /// them.
    pub open spec fn chain(self) -> Seq<Interceptor> {
        match self {
            Access::Public => seq![],
            Access::Protected => seq![Interceptor::IdentityExtractor],
            Access::RoomScoped => seq![
                Interceptor::IdentityExtractor,
                Interceptor::RoomMembershipGuard,
            ],
        }
    }

    /// The interceptors that a request passes, in the order in which it passes
    /// them.
    pub fn interceptors(self) -> (chain: Vec<Interceptor>)
        ensures
            chain@ == self.chain(),
            in_order(chain@),
    {
        let mut chain: Vec<Interceptor> = Vec::new();
        match self {
            Access::Public => {},
            Access::Protected => {
                chain.push(Interceptor::IdentityExtractor);
            },
            Access::RoomScoped => {
                chain.push(Interceptor::IdentityExtractor);
                chain.push(Interceptor::RoomMembershipGuard);
            },
        }
        proof {
            assert(chain@ =~= self.chain());
            lemma_chain_in_order(self);
        }
        chain
    }
}

impl Endpoint {
    /// What the route asks of its caller.
    pub open spec fn required(self) -> Access {
        match self {
            Endpoint::Root => Access::Public,
            Endpoint::Register => Access::Public,
            Endpoint::Login => Access::Public,
            Endpoint::GetUser => Access::Public,
            Endpoint::GetAllUsers => Access::Public,
            Endpoint::SearchUsers => Access::Public,
            Endpoint::GetAllRooms => Access::Public,
            Endpoint::DeleteUser => Access::Protected,
            Endpoint::CreateRoom => Access::Protected,
            Endpoint::GetRoom => Access::Protected,
            Endpoint::JoinRoom => Access::Protected,
            Endpoint::LeaveRoom => Access::Protected,
            Endpoint::DeleteRoom => Access::Protected,
            Endpoint::DeleteRoomMessage => Access::Protected,
            Endpoint::DeleteDirectMessage => Access::Protected,
            Endpoint::SendMessage => Access::RoomScoped,
            Endpoint::GetRoomMessages => Access::RoomScoped,
            Endpoint::GetDirectMessages => Access::RoomScoped,
        }
    }

    /// What the route asks of its caller.
    pub fn access(self) -> (access: Access)
        ensures
            access == self.required(),
    {
        match self {
            Endpoint::Root => Access::Public,
            Endpoint::Register => Access::Public,
            Endpoint::Login => Access::Public,
            Endpoint::GetUser => Access::Public,
            Endpoint::GetAllUsers => Access::Public,
            Endpoint::SearchUsers => Access::Public,
            Endpoint::GetAllRooms => Access::Public,
            Endpoint::DeleteUser => Access::Protected,
            Endpoint::CreateRoom => Access::Protected,
            Endpoint::GetRoom => Access::Protected,
            Endpoint::JoinRoom => Access::Protected,
            Endpoint::LeaveRoom => Access::Protected,
            Endpoint::DeleteRoom => Access::Protected,
            Endpoint::DeleteRoomMessage => Access::Protected,
            Endpoint::DeleteDirectMessage => Access::Protected,
            Endpoint::SendMessage => Access::RoomScoped,
            Endpoint::GetRoomMessages => Access::RoomScoped,
            Endpoint::GetDirectMessages => Access::RoomScoped,
        }
    }

    /// Every route, each once.
    pub fn all() -> (routes: Vec<Endpoint>)
        ensures
            routes@.no_duplicates(),
            forall|endpoint: Endpoint| routes@.contains(endpoint),
    {
        let routes = vec![
            Endpoint::Root,
            Endpoint::Register,
            Endpoint::Login,
            Endpoint::GetUser,
            Endpoint::GetAllUsers,
            Endpoint::SearchUsers,
            Endpoint::GetAllRooms,
            Endpoint::DeleteUser,
            Endpoint::CreateRoom,
            Endpoint::GetRoom,
            Endpoint::JoinRoom,
            Endpoint::LeaveRoom,
            Endpoint::DeleteRoom,
            Endpoint::DeleteRoomMessage,
            Endpoint::DeleteDirectMessage,
            Endpoint::SendMessage,
            Endpoint::GetRoomMessages,
            Endpoint::GetDirectMessages,
        ];
        proof {
            assert forall|endpoint: Endpoint| routes@.contains(endpoint) by {
                let at: int = match endpoint {
                    Endpoint::Root => 0,
                    Endpoint::Register => 1,
                    Endpoint::Login => 2,
                    Endpoint::GetUser => 3,
                    Endpoint::GetAllUsers => 4,
                    Endpoint::SearchUsers => 5,
                    Endpoint::GetAllRooms => 6,
                    Endpoint::DeleteUser => 7,
                    Endpoint::CreateRoom => 8,
                    Endpoint::GetRoom => 9,
                    Endpoint::JoinRoom => 10,
                    Endpoint::LeaveRoom => 11,
                    Endpoint::DeleteRoom => 12,
                    Endpoint::DeleteRoomMessage => 13,
                    Endpoint::DeleteDirectMessage => 14,
                    Endpoint::SendMessage => 15,
                    Endpoint::GetRoomMessages => 16,
                    Endpoint::GetDirectMessages => 17,
                };
                assert(routes@[at] == endpoint);
            }
        }
        routes
    }

    /// The path of the route, with its parameters in braces.
    pub fn path(self) -> (path: &'static str)
        ensures
            path@ == match self {
                Endpoint::Root => "/"@,
                Endpoint::Register => "/api/auth/register"@,
                Endpoint::Login => "/api/auth/login"@,
                Endpoint::GetUser => "/api/user/getUser/{id}"@,
                Endpoint::GetAllUsers => "/api/user/getAll"@,
                Endpoint::SearchUsers => "/api/user/search/{name}"@,
                Endpoint::GetAllRooms => "/api/room/getAll"@,
                Endpoint::DeleteUser => "/api/user/delete/{id}"@,
                Endpoint::CreateRoom => "/api/room/create"@,
                Endpoint::GetRoom => "/api/room/{id}"@,
                Endpoint::JoinRoom => "/api/room/join/{room_id}"@,
                Endpoint::LeaveRoom => "/api/room/leave/{id}"@,
                Endpoint::DeleteRoom => "/api/room/delete/{id}"@,
                Endpoint::DeleteRoomMessage => "/api/message/delete/{id}"@,
                Endpoint::DeleteDirectMessage => "/api/message/deleteDM/{id}"@,
                Endpoint::SendMessage => "/api/message/send/{id}"@,
                Endpoint::GetRoomMessages => "/api/messages/getRoomMessages/{id}"@,
                Endpoint::GetDirectMessages => "/api/messages/getDM/{id}"@,
            },
    {
        match self {
            Endpoint::Root => "/",
            Endpoint::Register => "/api/auth/register",
            Endpoint::Login => "/api/auth/login",
            Endpoint::GetUser => "/api/user/getUser/{id}",
            Endpoint::GetAllUsers => "/api/user/getAll",
            Endpoint::SearchUsers => "/api/user/search/{name}",
            Endpoint::GetAllRooms => "/api/room/getAll",
            Endpoint::DeleteUser => "/api/user/delete/{id}",
            Endpoint::CreateRoom => "/api/room/create",
            Endpoint::GetRoom => "/api/room/{id}",
            Endpoint::JoinRoom => "/api/room/join/{room_id}",
            Endpoint::LeaveRoom => "/api/room/leave/{id}",
            Endpoint::DeleteRoom => "/api/room/delete/{id}",
            Endpoint::DeleteRoomMessage => "/api/message/delete/{id}",
            Endpoint::DeleteDirectMessage => "/api/message/deleteDM/{id}",
            Endpoint::SendMessage => "/api/message/send/{id}",
            Endpoint::GetRoomMessages => "/api/messages/getRoomMessages/{id}",
            Endpoint::GetDirectMessages => "/api/messages/getDM/{id}",
        }
    }
}

/// The interceptors of every kind of access are in order.
pub proof fn lemma_chain_in_order(access: Access)
    ensures
        in_order(access.chain()),
{
    let chain = access.chain();
    assert forall|i: int|
        0 <= i < chain.len() && chain[i] == Interceptor::RoomMembershipGuard implies exists|j: int|
        0 <= j < i && #[trigger] chain[j] == Interceptor::IdentityExtractor by {
        assert(chain[0] == Interceptor::IdentityExtractor);
    }
}

/// On every route the identity extractor runs before the room membership
/// guard, and the guard runs on no route that the extractor does not run on.
pub proof fn extractor_runs_before_guard(endpoint: Endpoint)
    ensures
        in_order(endpoint.required().chain()),
        endpoint.required().chain().contains(Interceptor::RoomMembershipGuard)
            ==> endpoint.required().chain()[0] == Interceptor::IdentityExtractor,
{
    lemma_chain_in_order(endpoint.required());
}

} // verus!
