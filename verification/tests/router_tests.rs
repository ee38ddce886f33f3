use chat_backend::router::Access;
use chat_backend::router::Endpoint;
use chat_backend::router::Interceptor;

fn all() -> Vec<Endpoint> {
    vec![
        Endpoint::Root,
        Endpoint::Register,
        Endpoint::Login,
        Endpoint::GetUser,
        Endpoint::GetAllUsers,
        Endpoint::SearchUsers,
        Endpoint::GetAllRooms,
        Endpoint::DeleteUser,
        Endpoint::CreateRoom,
        Endpoint::GetRoom,
        Endpoint::JoinRoom,
        Endpoint::LeaveRoom,
        Endpoint::DeleteRoom,
        Endpoint::DeleteRoomMessage,
        Endpoint::DeleteDirectMessage,
        Endpoint::SendMessage,
        Endpoint::GetRoomMessages,
        Endpoint::GetDirectMessages,
    ]
}

#[test]
fn all_routes_are_listed_once() {
    assert_eq!(Endpoint::all(), all());
}

#[test]
fn extractor_stands_before_the_guard_on_every_route() {
    for endpoint in all() {
        let chain = endpoint.access().interceptors();
        for (at, interceptor) in chain.iter().enumerate() {
            if *interceptor == Interceptor::RoomMembershipGuard {
                assert!(chain[..at].contains(&Interceptor::IdentityExtractor));
            }
        }
    }
}

#[test]
fn chains_are_as_listed() {
    assert!(Access::Public.interceptors().is_empty());
    assert_eq!(Access::Protected.interceptors(), vec![Interceptor::IdentityExtractor]);
    assert_eq!(
        Access::RoomScoped.interceptors(),
        vec![Interceptor::IdentityExtractor, Interceptor::RoomMembershipGuard]
    );
}

#[test]
fn routes_ask_what_they_ask() {
    assert_eq!(Endpoint::Register.access(), Access::Public);
    assert_eq!(Endpoint::Login.access(), Access::Public);
    assert_eq!(Endpoint::CreateRoom.access(), Access::Protected);
    assert_eq!(Endpoint::JoinRoom.access(), Access::Protected);
    assert_eq!(Endpoint::LeaveRoom.access(), Access::Protected);
    assert_eq!(Endpoint::DeleteRoom.access(), Access::Protected);
    assert_eq!(Endpoint::DeleteRoomMessage.access(), Access::Protected);
    assert_eq!(Endpoint::DeleteDirectMessage.access(), Access::Protected);
    assert_eq!(Endpoint::SendMessage.access(), Access::RoomScoped);
    assert_eq!(Endpoint::GetRoomMessages.access(), Access::RoomScoped);
    assert_eq!(Endpoint::GetDirectMessages.access(), Access::RoomScoped);
}

#[test]
fn routes_have_their_paths() {
    assert_eq!(Endpoint::Register.path(), "/api/auth/register");
    assert_eq!(Endpoint::Login.path(), "/api/auth/login");
    assert_eq!(Endpoint::JoinRoom.path(), "/api/room/join/{room_id}");
    assert_eq!(Endpoint::SendMessage.path(), "/api/message/send/{id}");
    assert_eq!(Endpoint::DeleteDirectMessage.path(), "/api/message/deleteDM/{id}");
    let mut paths: Vec<&str> = all().into_iter().map(|endpoint| endpoint.path()).collect();
    paths.sort();
    paths.dedup();
    assert_eq!(paths.len(), 18);
}
