//! Tests of the server side: the connection-concurrency bound, the
//! backend-free methods, envelope building, and error translation.

use deepwell_rpc::api::{Request, WireResponse};
use deepwell_rpc::backend::Backend;
use deepwell_rpc::dispatcher::Dispatcher;
use deepwell_rpc::queue::DispatcherQueue;
use deepwell_rpc::server::{
    AcceptAction, AcceptEvent, Admission, ConnectionGovernor, Server, MAX_PARALLEL_REQUESTS,
};
use deepwell_rpc::types::BackendError;

#[test]
fn seventeenth_connection_queues_instead_of_dropping() {
    let mut governor = ConnectionGovernor::new();
    for i in 0..MAX_PARALLEL_REQUESTS {
        assert_eq!(governor.active_count(), i);
        assert_eq!(governor.try_admit(), Admission::Admitted);
    }
    assert_eq!(governor.active_count(), MAX_PARALLEL_REQUESTS);
    // One past the bound: queued, never dropped.
    assert_eq!(governor.try_admit(), Admission::Queued);
    assert_eq!(governor.active_count(), MAX_PARALLEL_REQUESTS);
    assert_eq!(governor.waiting_count(), 1);

    // A finished connection hands its slot straight to the waiter.
    governor.release();
    assert_eq!(governor.active_count(), MAX_PARALLEL_REQUESTS);
    assert_eq!(governor.waiting_count(), 0);
    governor.release();
    assert_eq!(governor.active_count(), MAX_PARALLEL_REQUESTS - 1);
}

#[test]
fn accept_failures_are_dropped_never_fatal() {
    let server = Server::init();
    assert_eq!(
        server.on_accept(&AcceptEvent::Failed),
        AcceptAction::DropConnection
    );
    assert_eq!(
        server.on_accept(&AcceptEvent::Connected { peer_known: true }),
        AcceptAction::Serve
    );
    // A peer whose address did not resolve is still serviced.
    assert_eq!(
        server.on_accept(&AcceptEvent::Connected { peer_known: false }),
        AcceptAction::Serve
    );
}

#[test]
fn protocol_and_ping_answer_without_the_backend() {
    let server = Server::init();
    assert_eq!(server.protocol(), "0");
    assert_eq!(server.protocol(), deepwell_rpc::PROTOCOL_VERSION);
    assert_eq!(server.ping(), "pong!");
}

#[test]
fn forwarded_call_template_round_trips() {
    let server = Server::init();
    let mut dispatcher = Dispatcher::new(Backend::new());
    let mut queue = DispatcherQueue::new();

    // Build envelope, submit, let the dispatcher answer, translate.
    let envelope = server.create_user("a".to_string(), "a@example.com".to_string(), "pw".to_string());
    assert!(queue.submit(envelope).is_ok());
    let (mut served, _) = dispatcher.run(&mut queue);
    match server.finish(served.pop().unwrap()) {
        WireResponse::UserId(Ok(id)) => assert_eq!(id, 0),
        _ => panic!("expected the created id"),
    }
}

#[test]
fn domain_errors_become_sendable_errors() {
    let server = Server::init();
    let mut dispatcher = Dispatcher::new(Backend::new());
    let mut queue = DispatcherQueue::new();

    let envelope = server.login("nobody".to_string(), "pw".to_string(), None);
    assert!(queue.submit(envelope).is_ok());
    let (mut served, _) = dispatcher.run(&mut queue);
    match server.finish(served.pop().unwrap()) {
        WireResponse::NewSession(Err(error)) => {
            assert_eq!(error.code, 1);
            assert_eq!(error.message, "invalid credentials");
        }
        _ => panic!("expected the refused login"),
    }
}

#[test]
fn each_sendable_error_keeps_its_code_and_message() {
    let cases = [
        (BackendError::InvalidCredentials, 1, "invalid credentials"),
        (BackendError::InvalidSession, 2, "invalid session"),
        (BackendError::UserNotFound, 3, "user not found"),
    ];
    for (error, code, message) in cases {
        let sendable = error.to_sendable();
        assert_eq!(sendable.code, code);
        assert_eq!(sendable.message, message);
    }
}

#[test]
fn envelope_builders_carry_the_arguments() {
    let server = Server::init();
    let envelope = server.get_users_from_ids(vec![1, 2, 3]);
    match envelope.request() {
        Request::GetUsersFromIds { user_ids } => assert_eq!(user_ids, &vec![1, 2, 3]),
        _ => panic!("wrong request"),
    }
    let envelope = server.logout_others(4, 9);
    match envelope.request() {
        Request::LogoutOthers { session_id, user_id } => {
            assert_eq!(*session_id, 4);
            assert_eq!(*user_id, 9);
        }
        _ => panic!("wrong request"),
    }
    let envelope = server.check_session(1, 2);
    assert!(matches!(envelope.request(), Request::CheckSession { .. }));
    let envelope = server.logout(1, 2);
    assert!(matches!(envelope.request(), Request::Logout { .. }));
    let envelope = server.edit_user(
        1,
        deepwell_rpc::types::UserMetadata { name: None, email: None, password: None },
    );
    assert!(matches!(envelope.request(), Request::EditUser { .. }));
    let envelope = server.get_user_from_id(1);
    assert!(matches!(envelope.request(), Request::GetUserFromId { .. }));
    let envelope = server.get_user_from_name("a".to_string());
    assert!(matches!(envelope.request(), Request::GetUserFromName { .. }));
    let envelope = server.get_user_from_email("a@b".to_string());
    assert!(matches!(envelope.request(), Request::GetUserFromEmail { .. }));
}
