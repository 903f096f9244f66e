use clubhouse::api::{Body, Reply, Status, StoreFailure};
use clubhouse::auth_routes::{log_out, LogOut, LogOutAction, LogOutEvent};
use clubhouse::middlewares::{
    auth_context, cookie_auth_middleware, Gate, GateAction, GateEvent, UserWithSessionModel,
};
use clubhouse::roles::{AuthContext, Role};
use std::collections::HashMap;

const EXPIRED: &str =
    "session_id=; HttpOnly; SameSite=Strict; Secure; Expires=1 Jan 1970 00:00:00 GMT";

fn row(roles: Option<Vec<Role>>) -> UserWithSessionModel {
    UserWithSessionModel {
        user_id: "u1".to_string(),
        session_id: "tok".to_string(),
        org_id: "o1".to_string(),
        roles,
    }
}

fn stale() -> Reply {
    Reply {
        status: Status::Unauthorized,
        set_cookie: Some(EXPIRED.to_string()),
        body: Body::Text("Unauthorized".to_string()),
    }
}

/// Runs one request through the middleware against a table of sessions and
/// tells what was sent and whether the handler ran.
fn request(sessions: &HashMap<String, UserWithSessionModel>, cookie: Option<&str>) -> (Reply, bool) {
    let mut ran = false;
    let mut state = Gate::Idle;
    let mut event = GateEvent::Received { cookie: cookie.map(|c| c.to_string()) };
    loop {
        let (next, action) = cookie_auth_middleware(state, event);
        state = next;
        event = match action {
            GateAction::Resolve { session_id } => match sessions.get(&session_id) {
                Some(found) => GateEvent::Resolved(found.clone()),
                None => GateEvent::Failed(StoreFailure::RowNotFound),
            },
            GateAction::RunHandler(ctx) => {
                ran = true;
                GateEvent::Handled(Reply::text(Status::Success, &ctx.user_id))
            }
            GateAction::Forward(reply) | GateAction::Reject(reply) => {
                assert_eq!(state, Gate::Done);
                return (reply, ran);
            }
        };
    }
}

#[test]
fn request_without_cookie_is_unauthorized() {
    let (state, action) = cookie_auth_middleware(Gate::Idle, GateEvent::Received { cookie: None });
    assert_eq!(state, Gate::Done);
    assert_eq!(
        action,
        GateAction::Reject(Reply {
            status: Status::Unauthorized,
            set_cookie: None,
            body: Body::Text("Not logged in".to_string()),
        })
    );
}

#[test]
fn request_with_cookie_asks_for_its_session() {
    let (state, action) = cookie_auth_middleware(
        Gate::Idle,
        GateEvent::Received { cookie: Some("tok".to_string()) },
    );
    assert_eq!(state, Gate::Resolving);
    assert_eq!(action, GateAction::Resolve { session_id: "tok".to_string() });
}

#[test]
fn unresolved_cookie_is_unauthorized_and_expired() {
    for failure in [StoreFailure::RowNotFound, StoreFailure::Other, StoreFailure::UniqueViolation] {
        let (state, action) = cookie_auth_middleware(Gate::Resolving, GateEvent::Failed(failure));
        assert_eq!(state, Gate::Done);
        assert_eq!(action, GateAction::Reject(stale()));
    }
}

#[test]
fn resolved_session_runs_the_handler_with_the_identity() {
    let (state, action) = cookie_auth_middleware(
        Gate::Resolving,
        GateEvent::Resolved(row(Some(vec![Role::Coach, Role::Player]))),
    );
    assert_eq!(state, Gate::Handling);
    assert_eq!(
        action,
        GateAction::RunHandler(AuthContext {
            user_id: "u1".to_string(),
            session_id: "tok".to_string(),
            org_id: "o1".to_string(),
            roles: vec![Role::Coach, Role::Player],
        })
    );
}

#[test]
fn user_without_roles_has_the_empty_role_set() {
    assert_eq!(auth_context(row(None)).roles, Vec::<Role>::new());
    assert_eq!(auth_context(row(Some(vec![]))).roles, Vec::<Role>::new());
    let (state, action) = cookie_auth_middleware(Gate::Resolving, GateEvent::Resolved(row(None)));
    assert_eq!(state, Gate::Handling);
    match action {
        GateAction::RunHandler(ctx) => assert!(ctx.roles.is_empty()),
        other => panic!("the handler must run, not {other:?}"),
    }
}

#[test]
fn handler_reply_is_sent_unchanged() {
    let reply = Reply {
        status: Status::Forbidden,
        set_cookie: Some("x=y".to_string()),
        body: Body::Json("no".to_string()),
    };
    let (state, action) = cookie_auth_middleware(Gate::Handling, GateEvent::Handled(reply.clone()));
    assert_eq!(state, Gate::Done);
    assert_eq!(action, GateAction::Forward(reply));
}

#[test]
fn middleware_does_not_look_at_roles() {
    let mut sessions = HashMap::new();
    sessions.insert("tok".to_string(), row(None));
    let (reply, ran) = request(&sessions, Some("tok"));
    assert!(ran);
    assert_eq!(reply, Reply::text(Status::Success, "u1"));
}

#[test]
fn events_out_of_turn_end_the_exchange() {
    let unexpected = Reply::text(Status::InternalServerError, "Unexpected Error");
    let cases = vec![
        (Gate::Idle, GateEvent::Resolved(row(None))),
        (Gate::Idle, GateEvent::Failed(StoreFailure::Other)),
        (Gate::Idle, GateEvent::Handled(Reply::empty(Status::Success))),
        (Gate::Resolving, GateEvent::Received { cookie: None }),
        (Gate::Resolving, GateEvent::Handled(Reply::empty(Status::Success))),
        (Gate::Handling, GateEvent::Resolved(row(None))),
        (Gate::Handling, GateEvent::Failed(StoreFailure::Other)),
        (Gate::Done, GateEvent::Received { cookie: Some("tok".to_string()) }),
        (Gate::Done, GateEvent::Resolved(row(None))),
    ];
    for (state, event) in cases {
        let (next, action) = cookie_auth_middleware(state, event);
        assert_eq!(next, Gate::Done);
        assert_eq!(action, GateAction::Reject(unexpected.clone()));
    }
}

#[test]
fn handler_never_runs_without_a_valid_session() {
    let mut sessions = HashMap::new();
    sessions.insert("tok".to_string(), row(Some(vec![Role::SuperAdmin])));
    for cookie in [None, Some(""), Some("forged"), Some("TOK"), Some("tok ")] {
        let (reply, ran) = request(&sessions, cookie);
        assert!(!ran, "handler ran for {cookie:?}");
        assert_eq!(reply.status, Status::Unauthorized);
        assert_eq!(reply.set_cookie.is_some(), cookie.is_some());
    }
    let (_, ran) = request(&sessions, Some("tok"));
    assert!(ran);
}

#[test]
fn logout_deletes_the_callers_session() {
    let ctx = auth_context(row(None));
    let (state, action) = log_out(LogOut::Idle, LogOutEvent::Received(ctx));
    assert_eq!(state, LogOut::Deleting);
    assert_eq!(action, LogOutAction::DeleteSession { session_id: "tok".to_string() });
}

#[test]
fn logout_always_expires_the_cookie() {
    let (state, action) = log_out(LogOut::Deleting, LogOutEvent::Deleted);
    assert_eq!(state, LogOut::Done);
    assert_eq!(
        action,
        LogOutAction::Respond(Reply {
            status: Status::NoContent,
            set_cookie: Some(EXPIRED.to_string()),
            body: Body::Empty,
        })
    );
    for failure in [StoreFailure::Other, StoreFailure::RowNotFound, StoreFailure::UniqueViolation] {
        let (state, action) = log_out(LogOut::Deleting, LogOutEvent::Failed(failure));
        assert_eq!(state, LogOut::Done);
        assert_eq!(
            action,
            LogOutAction::Respond(Reply {
                status: Status::NoContent,
                set_cookie: Some(EXPIRED.to_string()),
                body: Body::Empty,
            })
        );
    }
}

#[test]
fn logout_with_a_failed_delete_is_still_no_content() {
    let ctx = auth_context(row(None));
    let (state, _) = log_out(LogOut::Idle, LogOutEvent::Received(ctx));
    let (_, action) = log_out(state, LogOutEvent::Failed(StoreFailure::Other));
    match action {
        LogOutAction::Respond(reply) => {
            assert_eq!(reply.status.code(), 204);
            assert_eq!(reply.set_cookie.as_deref(), Some(EXPIRED));
        }
        other => panic!("logout must reply, not {other:?}"),
    }
}

#[test]
fn logout_out_of_turn_ends_the_exchange() {
    let (state, action) = log_out(LogOut::Idle, LogOutEvent::Deleted);
    assert_eq!(state, LogOut::Done);
    assert_eq!(
        action,
        LogOutAction::Respond(Reply::text(Status::InternalServerError, "Unexpected Error"))
    );
    let (state, _) = log_out(LogOut::Done, LogOutEvent::Received(auth_context(row(None))));
    assert_eq!(state, LogOut::Done);
}

#[test]
fn stale_cookie_after_logout_is_rejected_with_expired_cookie() {
    let mut sessions = HashMap::new();
    sessions.insert("tok".to_string(), row(Some(vec![Role::Coach])));
    sessions.insert("other".to_string(), row(Some(vec![Role::Player])));

    let (_, ran) = request(&sessions, Some("tok"));
    assert!(ran);

    let ctx = auth_context(sessions["tok"].clone());
    let (state, action) = log_out(LogOut::Idle, LogOutEvent::Received(ctx));
    match action {
        LogOutAction::DeleteSession { session_id } => {
            sessions.remove(&session_id);
        }
        other => panic!("logout must delete the session, not {other:?}"),
    }
    let (_, action) = log_out(state, LogOutEvent::Deleted);
    match action {
        LogOutAction::Respond(reply) => assert_eq!(reply.set_cookie.as_deref(), Some(EXPIRED)),
        other => panic!("logout must reply, not {other:?}"),
    }

    let (reply, ran) = request(&sessions, Some("tok"));
    assert!(!ran);
    assert_eq!(reply, stale());
    let (_, ran) = request(&sessions, Some("other"));
    assert!(ran);
}

#[test]
fn logout_twice_is_no_error() {
    let mut sessions: HashMap<String, UserWithSessionModel> = HashMap::new();
    for _ in 0..2 {
        let ctx = auth_context(row(None));
        let (state, action) = log_out(LogOut::Idle, LogOutEvent::Received(ctx));
        if let LogOutAction::DeleteSession { session_id } = action {
            sessions.remove(&session_id);
        }
        let (_, action) = log_out(state, LogOutEvent::Deleted);
        match action {
            LogOutAction::Respond(reply) => assert_eq!(reply.status, Status::NoContent),
            other => panic!("logout must reply, not {other:?}"),
        }
    }
}
