use clubhouse::api::{Body, Reply, Status, StoreFailure};
use clubhouse::auth_routes::{
    log_in, log_in_with, open_session, sign_up_via_invite, sign_up_via_invite_with,
    sign_up_with_new_org, sign_up_with_new_org_with, LogIn, LogInAction, LogInEvent, LoginParams,
    SessionModel, SignUpViaInvite, SignUpViaInviteAction, SignUpViaInviteEvent,
    SignUpViaInviteParams, SignUpWithNewOrg, SignUpWithNewOrgAction, SignUpWithNewOrgEvent,
    SignUpWithNewOrgParams,
};
use clubhouse::club::CreateClub;
use clubhouse::game::JustId;
use clubhouse::roles::Role;
use clubhouse::user::UserClean;

const TOKEN: &str = "abcDEF0123456789";
const COOKIE_AT_ZERO: &str =
    "session_id=abcDEF0123456789; HttpOnly; SameSite=Strict; Secure; Expires=Thu, 08 Jan 1970 00:00:00 GMT";

fn unexpected() -> Reply {
    Reply::text(Status::InternalServerError, "Unexpected Error")
}

fn credentials(username: &str, password: &str) -> LoginParams {
    LoginParams { username: username.to_string(), password: password.to_string() }
}

/// A store with users, orgs, roles and sessions, whose writes show only
/// after a commit.
#[derive(Default, Clone)]
struct Tables {
    orgs: Vec<(String, String)>,
    users: Vec<(String, String, String, String)>,
    roles: Vec<(String, Role)>,
    sessions: Vec<SessionModel>,
}

fn login(tables: &mut Tables, params: LoginParams) -> Reply {
    let mut staged = tables.clone();
    let mut state = LogIn::Idle;
    let mut event = LogInEvent::Received(params);
    loop {
        let (next, action) = log_in(state, event);
        state = next;
        event = match action {
            LogInAction::Begin => LogInEvent::Begun,
            LogInAction::FindUser { username, password } => {
                match staged.users.iter().find(|u| u.1 == username && u.2 == password) {
                    Some(user) => LogInEvent::UserFound(UserClean {
                        id: user.0.clone(),
                        username: user.1.clone(),
                    }),
                    None => LogInEvent::Failed(StoreFailure::RowNotFound),
                }
            }
            LogInAction::SaveSession(session) => {
                staged.sessions.push(session);
                LogInEvent::SessionSaved
            }
            LogInAction::Commit => {
                *tables = staged.clone();
                LogInEvent::Committed
            }
            LogInAction::Finish(reply) | LogInAction::Abort(reply) => return reply,
        };
    }
}

fn sign_up(tables: &mut Tables, params: SignUpWithNewOrgParams, fail_at_role: bool) -> Reply {
    let mut staged = tables.clone();
    let mut state = SignUpWithNewOrg::Idle;
    let mut event = SignUpWithNewOrgEvent::Received(params);
    loop {
        let (next, action) = sign_up_with_new_org(state, event);
        state = next;
        event = match action {
            SignUpWithNewOrgAction::Begin => SignUpWithNewOrgEvent::Begun,
            SignUpWithNewOrgAction::InsertOrg { id, title, delay_ms } => {
                assert_eq!(delay_ms, 0);
                staged.orgs.push((id.clone(), title));
                SignUpWithNewOrgEvent::OrgInserted(id)
            }
            SignUpWithNewOrgAction::InsertUser { username, password, org_id } => {
                let id = format!("user-{}", staged.users.len() + 1);
                staged.users.push((id.clone(), username, password, org_id));
                SignUpWithNewOrgEvent::UserInserted(JustId { id })
            }
            SignUpWithNewOrgAction::AssignRole { user_id, role } => {
                if fail_at_role {
                    SignUpWithNewOrgEvent::Failed(StoreFailure::Other)
                } else {
                    staged.roles.push((user_id, role));
                    SignUpWithNewOrgEvent::RoleAssigned
                }
            }
            SignUpWithNewOrgAction::SaveSession(session) => {
                staged.sessions.push(session);
                SignUpWithNewOrgEvent::SessionSaved
            }
            SignUpWithNewOrgAction::Commit => {
                *tables = staged.clone();
                SignUpWithNewOrgEvent::Committed
            }
            SignUpWithNewOrgAction::Finish(reply) | SignUpWithNewOrgAction::Abort(reply) => {
                return reply
            }
        };
    }
}

#[test]
fn signup_with_new_org_creates_org_admin_and_session() {
    let mut tables = Tables::default();
    let reply = sign_up(
        &mut tables,
        SignUpWithNewOrgParams {
            username: "alice".to_string(),
            password: "pw".to_string(),
            org_title: "ClubX".to_string(),
        },
        false,
    );
    assert_eq!(reply.status, Status::Created);
    assert_eq!(reply.status.code(), 201);
    assert_eq!(reply.body, Body::Json("user-1".to_string()));

    assert_eq!(tables.orgs.len(), 1);
    assert_eq!(tables.orgs[0].1, "ClubX");
    assert_eq!(tables.orgs[0].0.chars().count(), 6);
    assert!(tables.orgs[0].0.chars().all(|c| c.is_ascii_alphanumeric()));
    assert_eq!(
        tables.users,
        vec![(
            "user-1".to_string(),
            "alice".to_string(),
            "pw".to_string(),
            tables.orgs[0].0.clone()
        )]
    );
    assert_eq!(tables.roles, vec![("user-1".to_string(), Role::OrgAdmin)]);
    assert_eq!(tables.sessions.len(), 1);
    assert_eq!(tables.sessions[0].user_id, "user-1");
    let token = &tables.sessions[0].id;
    assert_eq!(token.chars().count(), 16);
    assert!(token.chars().all(|c| c.is_ascii_alphanumeric()));

    let cookie = reply.set_cookie.unwrap();
    let head = format!("session_id={token}; HttpOnly; SameSite=Strict; Secure; Expires=");
    assert!(cookie.starts_with(&head));
    assert!(cookie.ends_with(" GMT"));
}

#[test]
fn signup_that_fails_midway_leaves_nothing() {
    let mut tables = Tables::default();
    let reply = sign_up(
        &mut tables,
        SignUpWithNewOrgParams {
            username: "alice".to_string(),
            password: "pw".to_string(),
            org_title: "ClubX".to_string(),
        },
        true,
    );
    assert_eq!(reply, unexpected());
    assert!(tables.orgs.is_empty());
    assert!(tables.users.is_empty());
    assert!(tables.roles.is_empty());
    assert!(tables.sessions.is_empty());
}

#[test]
fn signup_with_new_org_step_by_step() {
    let params = SignUpWithNewOrgParams {
        username: "alice".to_string(),
        password: "pw".to_string(),
        org_title: "ClubX".to_string(),
    };
    let step = |state, event| {
        sign_up_with_new_org_with(state, event, "org123".to_string(), TOKEN.to_string(), 0)
    };
    let (state, action) = step(SignUpWithNewOrg::Idle, SignUpWithNewOrgEvent::Received(params));
    assert_eq!(action, SignUpWithNewOrgAction::Begin);
    let (state, action) = step(state, SignUpWithNewOrgEvent::Begun);
    assert_eq!(
        action,
        SignUpWithNewOrgAction::InsertOrg {
            id: "org123".to_string(),
            title: "ClubX".to_string(),
            delay_ms: 0
        }
    );
    let (state, action) = step(state, SignUpWithNewOrgEvent::OrgInserted("org123".to_string()));
    assert_eq!(state, SignUpWithNewOrg::InsertingUser);
    assert_eq!(
        action,
        SignUpWithNewOrgAction::InsertUser {
            username: "alice".to_string(),
            password: "pw".to_string(),
            org_id: "org123".to_string()
        }
    );
    let (state, action) =
        step(state, SignUpWithNewOrgEvent::UserInserted(JustId { id: "u7".to_string() }));
    assert_eq!(
        action,
        SignUpWithNewOrgAction::AssignRole { user_id: "u7".to_string(), role: Role::OrgAdmin }
    );
    let (state, action) = step(state, SignUpWithNewOrgEvent::RoleAssigned);
    assert_eq!(
        action,
        SignUpWithNewOrgAction::SaveSession(SessionModel {
            id: TOKEN.to_string(),
            user_id: "u7".to_string()
        })
    );
    let (state, action) = step(state, SignUpWithNewOrgEvent::SessionSaved);
    assert_eq!(action, SignUpWithNewOrgAction::Commit);
    let (state, action) = step(state, SignUpWithNewOrgEvent::Committed);
    assert_eq!(state, SignUpWithNewOrg::Done);
    assert_eq!(
        action,
        SignUpWithNewOrgAction::Finish(Reply {
            status: Status::Created,
            set_cookie: Some(COOKIE_AT_ZERO.to_string()),
            body: Body::Json("u7".to_string()),
        })
    );
}

#[test]
fn signup_retries_a_colliding_org_id() {
    let state = SignUpWithNewOrg::CreatingOrg {
        username: "alice".to_string(),
        password: "pw".to_string(),
        allocation: CreateClub::Inserting { title: "ClubX".to_string(), retries: 0 },
    };
    let (state, action) = sign_up_with_new_org_with(
        state,
        SignUpWithNewOrgEvent::Failed(StoreFailure::UniqueViolation),
        "second".to_string(),
        TOKEN.to_string(),
        0,
    );
    assert_eq!(
        action,
        SignUpWithNewOrgAction::InsertOrg {
            id: "second".to_string(),
            title: "ClubX".to_string(),
            delay_ms: 50
        }
    );
    assert_eq!(
        state,
        SignUpWithNewOrg::CreatingOrg {
            username: "alice".to_string(),
            password: "pw".to_string(),
            allocation: CreateClub::Inserting { title: "ClubX".to_string(), retries: 1 },
        }
    );
}

#[test]
fn signup_gives_up_after_five_colliding_org_ids() {
    let mut state = SignUpWithNewOrg::CreatingOrg {
        username: "alice".to_string(),
        password: "pw".to_string(),
        allocation: CreateClub::Inserting { title: "ClubX".to_string(), retries: 0 },
    };
    let mut inserts = 1;
    loop {
        let (next, action) = sign_up_with_new_org(
            state,
            SignUpWithNewOrgEvent::Failed(StoreFailure::UniqueViolation),
        );
        state = next;
        match action {
            SignUpWithNewOrgAction::InsertOrg { .. } => inserts += 1,
            SignUpWithNewOrgAction::Abort(reply) => {
                assert_eq!(reply, unexpected());
                break;
            }
            other => panic!("unexpected action {other:?}"),
        }
    }
    assert_eq!(inserts, 5);
    assert_eq!(state, SignUpWithNewOrg::Done);
}

#[test]
fn signup_aborts_on_any_other_failure() {
    let states = vec![
        SignUpWithNewOrg::Opening {
            params: SignUpWithNewOrgParams {
                username: "a".to_string(),
                password: "b".to_string(),
                org_title: "c".to_string(),
            },
        },
        SignUpWithNewOrg::CreatingOrg {
            username: "a".to_string(),
            password: "b".to_string(),
            allocation: CreateClub::Inserting { title: "c".to_string(), retries: 0 },
        },
        SignUpWithNewOrg::InsertingUser,
        SignUpWithNewOrg::AssigningRole { user_id: "u".to_string() },
        SignUpWithNewOrg::SavingSession { user_id: "u".to_string(), cookie: "c".to_string() },
        SignUpWithNewOrg::Committing { user_id: "u".to_string(), cookie: "c".to_string() },
        SignUpWithNewOrg::Done,
        SignUpWithNewOrg::Idle,
    ];
    for state in states {
        let (next, action) =
            sign_up_with_new_org(state, SignUpWithNewOrgEvent::Failed(StoreFailure::Other));
        assert_eq!(next, SignUpWithNewOrg::Done);
        assert_eq!(action, SignUpWithNewOrgAction::Abort(unexpected()));
    }
}

#[test]
fn login_with_wrong_password_is_unauthorized_without_cookie() {
    let mut tables = Tables::default();
    tables.users.push((
        "u1".to_string(),
        "alice".to_string(),
        "pw".to_string(),
        "o1".to_string(),
    ));
    let reply = login(&mut tables, credentials("alice", "wrong"));
    assert_eq!(reply.status, Status::Unauthorized);
    assert_eq!(reply.status.code(), 401);
    assert_eq!(reply.set_cookie, None);
    assert_eq!(reply.body, Body::Text("Unauthorized".to_string()));
    assert!(tables.sessions.is_empty());
}

#[test]
fn login_with_unknown_user_is_unauthorized() {
    let mut tables = Tables::default();
    let reply = login(&mut tables, credentials("nobody", "pw"));
    assert_eq!(reply, Reply::text(Status::Unauthorized, "Unauthorized"));
}

#[test]
fn login_with_right_password_opens_a_session() {
    let mut tables = Tables::default();
    tables.users.push((
        "u1".to_string(),
        "alice".to_string(),
        "pw".to_string(),
        "o1".to_string(),
    ));
    let reply = login(&mut tables, credentials("alice", "pw"));
    assert_eq!(reply.status, Status::Success);
    assert_eq!(reply.body, Body::Text("u1".to_string()));
    assert_eq!(tables.sessions.len(), 1);
    assert_eq!(tables.sessions[0].user_id, "u1");
    let cookie = reply.set_cookie.unwrap();
    assert!(cookie.starts_with(&format!("session_id={};", tables.sessions[0].id)));
}

#[test]
fn login_step_by_step() {
    let step = |state, event| log_in_with(state, event, TOKEN.to_string(), 0);
    let (state, action) = step(LogIn::Idle, LogInEvent::Received(credentials("alice", "pw")));
    assert_eq!(action, LogInAction::Begin);
    let (state, action) = step(state, LogInEvent::Begun);
    assert_eq!(state, LogIn::FindingUser);
    assert_eq!(
        action,
        LogInAction::FindUser { username: "alice".to_string(), password: "pw".to_string() }
    );
    let user = UserClean { id: "u1".to_string(), username: "alice".to_string() };
    let (state, action) = step(state, LogInEvent::UserFound(user));
    assert_eq!(
        action,
        LogInAction::SaveSession(SessionModel { id: TOKEN.to_string(), user_id: "u1".to_string() })
    );
    let (state, action) = step(state, LogInEvent::SessionSaved);
    assert_eq!(action, LogInAction::Commit);
    let (state, action) = step(state, LogInEvent::Committed);
    assert_eq!(state, LogIn::Done);
    assert_eq!(
        action,
        LogInAction::Finish(Reply {
            status: Status::Success,
            set_cookie: Some(COOKIE_AT_ZERO.to_string()),
            body: Body::Text("u1".to_string()),
        })
    );
}

#[test]
fn login_failures_by_step() {
    let opening = LogIn::Opening { username: "a".to_string(), password: "b".to_string() };
    let (_, action) = log_in(opening.clone(), LogInEvent::Failed(StoreFailure::Other));
    assert_eq!(action, LogInAction::Abort(unexpected()));
    let (_, action) = log_in(opening, LogInEvent::Failed(StoreFailure::RowNotFound));
    assert_eq!(action, LogInAction::Abort(Reply::text(Status::NotFound, "Not found")));

    let (_, action) = log_in(LogIn::FindingUser, LogInEvent::Failed(StoreFailure::Other));
    assert_eq!(action, LogInAction::Abort(Reply::text(Status::Unauthorized, "Unauthorized")));

    let saving = LogIn::SavingSession { user_id: "u".to_string(), cookie: "c".to_string() };
    let (_, action) = log_in(saving, LogInEvent::Failed(StoreFailure::UniqueViolation));
    assert_eq!(
        action,
        LogInAction::Abort(Reply::text(
            Status::InternalServerError,
            "Unexpected error with login"
        ))
    );

    let committing = LogIn::Committing { user_id: "u".to_string(), cookie: "c".to_string() };
    let (state, action) = log_in(committing, LogInEvent::Failed(StoreFailure::Other));
    assert_eq!(state, LogIn::Done);
    assert_eq!(action, LogInAction::Abort(unexpected()));
}

#[test]
fn login_out_of_turn_ends_the_exchange() {
    let cases = vec![
        (LogIn::Idle, LogInEvent::Begun),
        (LogIn::Idle, LogInEvent::Failed(StoreFailure::Other)),
        (LogIn::FindingUser, LogInEvent::Committed),
        (LogIn::Done, LogInEvent::Received(credentials("a", "b"))),
        (LogIn::Done, LogInEvent::Committed),
        (LogIn::Done, LogInEvent::Failed(StoreFailure::RowNotFound)),
    ];
    for (state, event) in cases {
        let (next, action) = log_in(state, event);
        assert_eq!(next, LogIn::Done);
        assert_eq!(action, LogInAction::Abort(unexpected()));
    }
}

#[test]
fn login_beyond_the_last_date_is_an_internal_error() {
    let user = UserClean { id: "u1".to_string(), username: "alice".to_string() };
    let (state, action) =
        log_in_with(LogIn::FindingUser, LogInEvent::UserFound(user), TOKEN.to_string(), i64::MAX);
    assert_eq!(state, LogIn::Done);
    assert_eq!(action, LogInAction::Abort(unexpected()));
}

#[test]
fn open_session_pairs_the_row_with_its_cookie() {
    let (session, cookie) = open_session(TOKEN.to_string(), "u9", 0).unwrap();
    assert_eq!(session, SessionModel { id: TOKEN.to_string(), user_id: "u9".to_string() });
    assert_eq!(cookie, COOKIE_AT_ZERO);
    assert_eq!(open_session(TOKEN.to_string(), "u9", i64::MIN), None);
}

#[test]
fn signup_via_invite_step_by_step() {
    let step = |state, event| sign_up_via_invite_with(state, event, TOKEN.to_string(), 0);
    let params = SignUpViaInviteParams { username: "bob".to_string(), password: "pw".to_string() };
    let (state, action) = step(
        SignUpViaInvite::Idle,
        SignUpViaInviteEvent::Received { invite_id: "inv1".to_string(), params },
    );
    assert_eq!(action, SignUpViaInviteAction::Begin);
    let (state, action) = step(state, SignUpViaInviteEvent::Begun);
    assert_eq!(action, SignUpViaInviteAction::FindInvite { invite_id: "inv1".to_string() });
    let (state, action) =
        step(state, SignUpViaInviteEvent::InviteFound { org_id: "o1".to_string() });
    assert_eq!(state, SignUpViaInvite::InsertingUser);
    assert_eq!(
        action,
        SignUpViaInviteAction::InsertUser {
            username: "bob".to_string(),
            password: "pw".to_string(),
            org_id: "o1".to_string()
        }
    );
    let (state, action) =
        step(state, SignUpViaInviteEvent::UserInserted(JustId { id: "u2".to_string() }));
    assert_eq!(
        action,
        SignUpViaInviteAction::SaveSession(SessionModel {
            id: TOKEN.to_string(),
            user_id: "u2".to_string()
        })
    );
    let (state, action) = step(state, SignUpViaInviteEvent::SessionSaved);
    assert_eq!(action, SignUpViaInviteAction::Commit);
    let (state, action) = step(state, SignUpViaInviteEvent::Committed);
    assert_eq!(state, SignUpViaInvite::Done);
    assert_eq!(
        action,
        SignUpViaInviteAction::Finish(Reply {
            status: Status::Created,
            set_cookie: Some(COOKIE_AT_ZERO.to_string()),
            body: Body::Json("u2".to_string()),
        })
    );
}

#[test]
fn signup_via_invite_assigns_no_role() {
    let mut state = SignUpViaInvite::Idle;
    let mut event = SignUpViaInviteEvent::Received {
        invite_id: "inv1".to_string(),
        params: SignUpViaInviteParams { username: "bob".to_string(), password: "pw".to_string() },
    };
    let mut asked = Vec::new();
    let reply = loop {
        let (next, action) = sign_up_via_invite(state, event);
        state = next;
        event = match action {
            SignUpViaInviteAction::Begin => {
                asked.push("begin");
                SignUpViaInviteEvent::Begun
            }
            SignUpViaInviteAction::FindInvite { .. } => {
                asked.push("find invite");
                SignUpViaInviteEvent::InviteFound { org_id: "o1".to_string() }
            }
            SignUpViaInviteAction::InsertUser { .. } => {
                asked.push("insert user");
                SignUpViaInviteEvent::UserInserted(JustId { id: "u2".to_string() })
            }
            SignUpViaInviteAction::SaveSession(_) => {
                asked.push("save session");
                SignUpViaInviteEvent::SessionSaved
            }
            SignUpViaInviteAction::Commit => {
                asked.push("commit");
                SignUpViaInviteEvent::Committed
            }
            SignUpViaInviteAction::Finish(reply) | SignUpViaInviteAction::Abort(reply) => {
                break reply
            }
        };
    };
    assert_eq!(asked, vec!["begin", "find invite", "insert user", "save session", "commit"]);
    assert_eq!(reply.status, Status::Created);
}

#[test]
fn signup_via_unknown_invite_is_an_internal_error() {
    let state = SignUpViaInvite::FindingInvite {
        params: SignUpViaInviteParams { username: "bob".to_string(), password: "pw".to_string() },
    };
    let (state, action) =
        sign_up_via_invite(state, SignUpViaInviteEvent::Failed(StoreFailure::RowNotFound));
    assert_eq!(state, SignUpViaInvite::Done);
    assert_eq!(action, SignUpViaInviteAction::Abort(unexpected()));
}
