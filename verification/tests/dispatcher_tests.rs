//! End-to-end tests of the dispatcher bridge: envelopes through the
//! bounded queue into the backend and back out of the reply slots.

use deepwell_rpc::api::{Reply, Request};
use deepwell_rpc::backend::Backend;
use deepwell_rpc::dispatcher::{Dispatcher, RunOutcome, Step};
use deepwell_rpc::envelope::{Envelope, SendOutcome};
use deepwell_rpc::queue::DispatcherQueue;
use deepwell_rpc::types::BackendError;

fn new_system() -> (Dispatcher, DispatcherQueue) {
    (Dispatcher::new(Backend::new()), DispatcherQueue::new())
}

fn submit(queue: &mut DispatcherQueue, request: Request) {
    assert!(queue.submit(Envelope::new(request)).is_ok());
}

fn create_user_request(name: &str, email: &str, password: &str) -> Request {
    Request::CreateUser {
        name: name.to_string(),
        email: email.to_string(),
        password: password.to_string(),
    }
}

#[test]
fn create_user_then_get_round_trips() {
    let (mut dispatcher, mut queue) = new_system();
    submit(&mut queue, create_user_request("a", "a@example.com", "pw"));
    let (mut served, outcome) = dispatcher.run(&mut queue);
    assert_eq!(outcome, RunOutcome::Idle);
    let id = match served.pop().unwrap().take_reply() {
        Reply::UserId(Ok(id)) => id,
        other => panic!("unexpected reply: {:?}", reply_kind(&other)),
    };

    submit(&mut queue, Request::GetUserFromId { user_id: id });
    let (mut served, _) = dispatcher.run(&mut queue);
    match served.pop().unwrap().take_reply() {
        Reply::MaybeUser(Ok(Some(user))) => {
            assert_eq!(user.id, id);
            assert_eq!(user.name, "a");
            assert_eq!(user.email, "a@example.com");
        }
        other => panic!("unexpected reply: {:?}", reply_kind(&other)),
    }
}

#[test]
fn get_unknown_id_is_empty_not_error() {
    let (mut dispatcher, mut queue) = new_system();
    submit(&mut queue, Request::GetUserFromId { user_id: 999 });
    let (mut served, _) = dispatcher.run(&mut queue);
    match served.pop().unwrap().take_reply() {
        Reply::MaybeUser(Ok(None)) => {}
        other => panic!("unexpected reply: {:?}", reply_kind(&other)),
    }
}

#[test]
fn get_users_from_ids_preserves_length_and_order() {
    let (mut dispatcher, mut queue) = new_system();
    submit(&mut queue, create_user_request("a", "a@example.com", "pw"));
    let (mut served, _) = dispatcher.run(&mut queue);
    let id1 = match served.pop().unwrap().take_reply() {
        Reply::UserId(Ok(id)) => id,
        _ => panic!("create_user failed"),
    };
    let id2_unknown = 4242;

    submit(
        &mut queue,
        Request::GetUsersFromIds { user_ids: vec![id1, id2_unknown] },
    );
    let (mut served, _) = dispatcher.run(&mut queue);
    match served.pop().unwrap().take_reply() {
        Reply::MaybeUsers(Ok(users)) => {
            assert_eq!(users.len(), 2);
            let first = users[0].as_ref().expect("id1 should be present");
            assert_eq!(first.id, id1);
            assert_eq!(first.name, "a");
            assert!(users[1].is_none());
        }
        other => panic!("unexpected reply: {:?}", reply_kind(&other)),
    }
}

#[test]
fn requests_execute_in_enqueue_order() {
    let (mut dispatcher, mut queue) = new_system();
    // Two creations: ids must come out in enqueue order.
    submit(&mut queue, create_user_request("first", "first@example.com", "pw1"));
    submit(&mut queue, create_user_request("second", "second@example.com", "pw2"));
    let (served, _) = dispatcher.run(&mut queue);
    let ids: Vec<u64> = served
        .into_iter()
        .map(|env| match env.take_reply() {
            Reply::UserId(Ok(id)) => id,
            _ => panic!("create_user failed"),
        })
        .collect();
    assert_eq!(ids, vec![0, 1]);
}

#[test]
fn login_logout_check_session_lifecycle() {
    let (mut dispatcher, mut queue) = new_system();
    submit(&mut queue, create_user_request("a", "a@example.com", "pw"));
    submit(
        &mut queue,
        Request::TryLogin {
            username_or_email: "a@example.com".to_string(),
            password: "pw".to_string(),
            remote_address: Some("10.0.0.1:5".to_string()),
        },
    );
    let (mut served, _) = dispatcher.run(&mut queue);
    let session = match served.pop().unwrap().take_reply() {
        Reply::NewSession(Ok(session)) => session,
        other => panic!("unexpected reply: {:?}", reply_kind(&other)),
    };

    submit(
        &mut queue,
        Request::CheckSession { session_id: session.session_id, user_id: session.user_id },
    );
    submit(
        &mut queue,
        Request::Logout { session_id: session.session_id, user_id: session.user_id },
    );
    submit(
        &mut queue,
        Request::CheckSession { session_id: session.session_id, user_id: session.user_id },
    );
    let (served, _) = dispatcher.run(&mut queue);
    let replies: Vec<Reply> = served.into_iter().map(|e| e.take_reply()).collect();
    assert!(matches!(replies[0], Reply::Unit(Ok(()))));
    assert!(matches!(replies[1], Reply::Unit(Ok(()))));
    // The session is gone after logout.
    assert!(matches!(
        replies[2],
        Reply::Unit(Err(BackendError::InvalidSession))
    ));
}

#[test]
fn login_with_wrong_password_is_refused() {
    let (mut dispatcher, mut queue) = new_system();
    submit(&mut queue, create_user_request("a", "a@example.com", "pw"));
    submit(
        &mut queue,
        Request::TryLogin {
            username_or_email: "a".to_string(),
            password: "wrong".to_string(),
            remote_address: None,
        },
    );
    let (mut served, _) = dispatcher.run(&mut queue);
    match served.pop().unwrap().take_reply() {
        Reply::NewSession(Err(BackendError::InvalidCredentials)) => {}
        other => panic!("unexpected reply: {:?}", reply_kind(&other)),
    }
}

#[test]
fn logout_others_ends_only_other_sessions() {
    let (mut dispatcher, mut queue) = new_system();
    submit(&mut queue, create_user_request("a", "a@example.com", "pw"));
    for _ in 0..3 {
        submit(
            &mut queue,
            Request::TryLogin {
                username_or_email: "a".to_string(),
                password: "pw".to_string(),
                remote_address: None,
            },
        );
    }
    let (mut served, _) = dispatcher.run(&mut queue);
    // Sessions 0, 1, 2 were issued; keep the middle one.
    let third = served.pop().unwrap();
    let second = served.pop().unwrap();
    let kept = match second.take_reply() {
        Reply::NewSession(Ok(session)) => session,
        _ => panic!("login failed"),
    };
    drop(third);

    submit(
        &mut queue,
        Request::LogoutOthers { session_id: kept.session_id, user_id: kept.user_id },
    );
    let (mut served, _) = dispatcher.run(&mut queue);
    match served.pop().unwrap().take_reply() {
        Reply::Sessions(Ok(ended)) => {
            let ids: Vec<u64> = ended.iter().map(|s| s.session_id).collect();
            assert_eq!(ids, vec![0, 2]);
        }
        other => panic!("unexpected reply: {:?}", reply_kind(&other)),
    }

    // The kept session is still valid.
    submit(
        &mut queue,
        Request::CheckSession { session_id: kept.session_id, user_id: kept.user_id },
    );
    let (mut served, _) = dispatcher.run(&mut queue);
    assert!(matches!(
        served.pop().unwrap().take_reply(),
        Reply::Unit(Ok(()))
    ));
}

#[test]
fn edit_user_replaces_only_given_fields() {
    let (mut dispatcher, mut queue) = new_system();
    submit(&mut queue, create_user_request("a", "a@example.com", "pw"));
    submit(
        &mut queue,
        Request::EditUser {
            user_id: 0,
            changes: deepwell_rpc::types::UserMetadata {
                name: Some("b".to_string()),
                email: None,
                password: None,
            },
        },
    );
    submit(&mut queue, Request::GetUserFromId { user_id: 0 });
    let (served, _) = dispatcher.run(&mut queue);
    let mut replies = served.into_iter().map(|e| e.take_reply());
    replies.next();
    assert!(matches!(replies.next().unwrap(), Reply::Unit(Ok(()))));
    match replies.next().unwrap() {
        Reply::MaybeUser(Ok(Some(user))) => {
            assert_eq!(user.name, "b");
            assert_eq!(user.email, "a@example.com");
        }
        _ => panic!("get_user_from_id failed"),
    }
}

#[test]
fn edit_unknown_user_reports_not_found() {
    let (mut dispatcher, mut queue) = new_system();
    submit(
        &mut queue,
        Request::EditUser {
            user_id: 7,
            changes: deepwell_rpc::types::UserMetadata { name: None, email: None, password: None },
        },
    );
    let (mut served, _) = dispatcher.run(&mut queue);
    assert!(matches!(
        served.pop().unwrap().take_reply(),
        Reply::Unit(Err(BackendError::UserNotFound))
    ));
}

#[test]
fn lookup_by_name_and_email() {
    let (mut dispatcher, mut queue) = new_system();
    submit(&mut queue, create_user_request("a", "a@example.com", "pw"));
    submit(&mut queue, Request::GetUserFromName { name: "a".to_string() });
    submit(&mut queue, Request::GetUserFromEmail { email: "a@example.com".to_string() });
    submit(&mut queue, Request::GetUserFromName { name: "nobody".to_string() });
    let (served, _) = dispatcher.run(&mut queue);
    let mut replies = served.into_iter().map(|e| e.take_reply());
    replies.next();
    assert!(matches!(replies.next().unwrap(), Reply::MaybeUser(Ok(Some(_)))));
    assert!(matches!(replies.next().unwrap(), Reply::MaybeUser(Ok(Some(_)))));
    assert!(matches!(replies.next().unwrap(), Reply::MaybeUser(Ok(None))));
}

#[test]
fn abandoned_envelope_discards_reply() {
    let (mut dispatcher, mut queue) = new_system();
    let mut envelope = Envelope::new(Request::Ping);
    envelope.abandon();
    assert!(queue.submit(envelope).is_ok());
    match dispatcher.step(&mut queue) {
        Step::Served(mut env) => {
            // The computed result was discarded: the slot holds nothing,
            // and a late delivery attempt reports the receiver gone.
            assert_eq!(env.respond(Reply::Unit(Ok(()))), SendOutcome::ReceiverGone);
        }
        _ => panic!("expected a served envelope"),
    }
}

#[test]
fn ping_answers_ok() {
    let (mut dispatcher, mut queue) = new_system();
    submit(&mut queue, Request::Ping);
    let (mut served, _) = dispatcher.run(&mut queue);
    assert!(matches!(
        served.pop().unwrap().take_reply(),
        Reply::Unit(Ok(()))
    ));
}

#[test]
fn closed_queue_is_fatal_to_the_actor() {
    let (mut dispatcher, mut queue) = new_system();
    submit(&mut queue, Request::Ping);
    queue.close();
    // Entries already queued are still drained; then the actor learns the
    // producing side is gone, which is the fatal outcome.
    let (served, outcome) = dispatcher.run(&mut queue);
    assert_eq!(served.len(), 1);
    assert_eq!(outcome, RunOutcome::Disconnected);

    let (_, mut open_queue) = new_system();
    let (served, outcome) = dispatcher.run(&mut open_queue);
    assert!(served.is_empty());
    assert_eq!(outcome, RunOutcome::Idle);
}

fn reply_kind(reply: &Reply) -> &'static str {
    match reply {
        Reply::Unit(_) => "Unit",
        Reply::NewSession(_) => "NewSession",
        Reply::Sessions(_) => "Sessions",
        Reply::UserId(_) => "UserId",
        Reply::MaybeUser(_) => "MaybeUser",
        Reply::MaybeUsers(_) => "MaybeUsers",
    }
}
