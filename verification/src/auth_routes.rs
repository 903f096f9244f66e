//! Logging in, signing up and logging out.
//!
//! Each exchange is a small machine. The caller hands it the request and then
//! the outcome of every store call that the machine asked for; the machine
//! answers with the next call to make or with the reply to send. An exchange
//! ends with `Finish`, after its transaction was committed, or with `Abort`,
//! where the caller rolls back whatever the transaction holds before it
//! replies. An event that the exchange did not wait for ends it like a store
//! failure that nobody expected.

use vstd::prelude::*;
use crate::api::BodyView;
use crate::api::db_err_to_response;
use crate::api::failure_reply;
use crate::api::Reply;
use crate::api::ReplyView;
use crate::api::Status;
use crate::api::StoreFailure;
use crate::api::unexpected;
use crate::api::unexpected_reply;
use crate::club::create_club_step;
use crate::club::create_club_with;
use crate::club::CreateClub;
use crate::club::CreateClubAction;
use crate::club::CreateClubEvent;
use crate::club::is_club_id;
use crate::club::lemma_club_ids_exist;
use crate::club::new_club_id;
use crate::club::some_club_id;
use crate::game::JustId;
use crate::roles::AuthContext;
use crate::roles::Role;
use crate::session::can_issue_at;
use crate::session::expired_cookie;
use crate::session::expired_empty_cookie;
use crate::session::is_session_token;
use crate::session::lemma_session_tokens_exist;
use crate::session::new_session_token;
use crate::session::session_cookie;
use crate::session::session_cookie_text;
use crate::session::SESSION_COOKIE_TTL_SECS;
use crate::session::some_session_token;
use crate::session::unix_now;
use crate::user::UserClean;

verus! {

/// A session as the store holds it.
#[derive(Debug, Clone, PartialEq, Eq)]
pub struct SessionModel {
    pub id: String,
    pub user_id: String,
}

/// The credentials of a login.
#[derive(Debug, Clone, PartialEq, Eq)]
pub struct LoginParams {
    pub username: String,
    pub password: String,
}

/// The request to sign up and found an organization.
#[derive(Debug, Clone, PartialEq, Eq)]
pub struct SignUpWithNewOrgParams {
    pub username: String,
    pub password: String,
    pub org_title: String,
}

/// The request to sign up on an invite to an organization.
#[derive(Debug, Clone, PartialEq, Eq)]
pub struct SignUpViaInviteParams {
    pub username: String,
    pub password: String,
}

/// The session of `user_id` under `token` together with the cookie that
/// hands it out at `now`; `None` where no cookie can be issued then.
pub fn open_session(token: String, user_id: &str, now: i64) -> (opened: Option<
    (SessionModel, String),
>)
    ensures
        can_issue_at(now as int) ==> (opened matches Some(pair) && pair.0.id@ == token@
            && pair.0.user_id@ == user_id@ && pair.1@ == session_cookie_text(
            token@,
            now + SESSION_COOKIE_TTL_SECS,
        )),
        !can_issue_at(now as int) ==> opened is None,
{
    match session_cookie(token.as_str(), now) {
        Some(cookie) => Some((SessionModel { id: token, user_id: user_id.to_owned() }, cookie)),
        None => None,
    }
}

/// The reply to a sign-up that succeeded: the session cookie, and the new
/// user's id as the body.
pub open spec fn signed_up_reply(user_id: Seq<char>, cookie: Seq<char>) -> ReplyView {
    ReplyView { status: Status::Created, set_cookie: Some(cookie), body: BodyView::Json(user_id) }
}

/// Where a login stands.
#[derive(Debug, Clone, PartialEq, Eq)]
pub enum LogIn {
    /// Nothing was received yet.
    Idle,
    /// The transaction is being opened.
    Opening { username: String, password: String },
    /// The user is being looked up by name and password.
    FindingUser,
    /// The session is being written.
    SavingSession { user_id: String, cookie: String },
    /// The transaction is being committed.
    Committing { user_id: String, cookie: String },
    /// The reply was decided.
    Done,
}

/// What a login is told.
#[derive(Debug, Clone, PartialEq, Eq)]
pub enum LogInEvent {
    /// The request arrived.
    Received(LoginParams),
    /// The transaction is open.
    Begun,
    /// One user has the name and the password.
    UserFound(UserClean),
    /// The session was written.
    SessionSaved,
    /// The transaction was committed.
    Committed,
    /// The store call failed.
    Failed(StoreFailure),
}

/// What a login asks of its caller.
#[derive(Debug, Clone, PartialEq, Eq)]
pub enum LogInAction {
    /// Open a transaction.
    Begin,
    /// Look up the user with this name and password.
    FindUser { username: String, password: String },
    /// Write this session.
    SaveSession(SessionModel),
    /// Commit the transaction.
    Commit,
    /// Send the reply; the transaction was committed.
    Finish(Reply),
    /// Roll back what the transaction holds, then send the reply.
    Abort(Reply),
}

/// The reply to a login that found no user: no cookie is set.
pub open spec fn login_refused_reply() -> ReplyView {
    ReplyView {
        status: Status::Unauthorized,
        set_cookie: None,
        body: BodyView::Text("Unauthorized"@),
    }
}

/// The reply to a login whose session could not be written.
pub open spec fn login_broken_reply() -> ReplyView {
    ReplyView {
        status: Status::InternalServerError,
        set_cookie: None,
        body: BodyView::Text("Unexpected error with login"@),
    }
}

/// The reply to a login that succeeded: the session cookie, and the user's id
/// as the body.
pub open spec fn login_granted_reply(user_id: Seq<char>, cookie: Seq<char>) -> ReplyView {
    ReplyView { status: Status::Success, set_cookie: Some(cookie), body: BodyView::Text(user_id) }
}

/// The step that a login takes from `pre` on `event`, where `token` is the
/// session token drawn for this step and `now` the instant it was taken at:
/// whether it leads to `post` and asks for `action`.
pub open spec fn log_in_step(
    pre: LogIn,
    event: LogInEvent,
    token: Seq<char>,
    now: int,
    post: LogIn,
    action: LogInAction,
) -> bool {
    match (pre, event) {
        (LogIn::Idle, LogInEvent::Received(params)) => {
            &&& action is Begin
            &&& post matches LogIn::Opening { username, password }
            &&& username@ == params.username@
            &&& password@ == params.password@
        },
        (LogIn::Opening { username, password }, LogInEvent::Begun) => {
            &&& post is FindingUser
            &&& action matches LogInAction::FindUser { username: name, password: word }
            &&& name@ == username@
            &&& word@ == password@
        },
        (LogIn::Opening { .. }, LogInEvent::Failed(failure)) => {
            &&& post is Done
            &&& action matches LogInAction::Abort(reply)
            &&& reply@ == failure_reply(failure)
        },
        (LogIn::FindingUser, LogInEvent::UserFound(user)) => {
            if can_issue_at(now) {
                &&& post matches LogIn::SavingSession { user_id, cookie }
                &&& user_id@ == user.id@
                &&& cookie@ == session_cookie_text(token, now + SESSION_COOKIE_TTL_SECS)
                &&& action matches LogInAction::SaveSession(session)
                &&& session.id@ == token
                &&& session.user_id@ == user.id@
            } else {
                &&& post is Done
                &&& action matches LogInAction::Abort(reply)
                &&& reply@ == unexpected_reply()
            }
        },
        (LogIn::FindingUser, LogInEvent::Failed(_)) => {
            &&& post is Done
            &&& action matches LogInAction::Abort(reply)
            &&& reply@ == login_refused_reply()
        },
        (LogIn::SavingSession { user_id, cookie }, LogInEvent::SessionSaved) => {
            &&& action is Commit
            &&& post matches LogIn::Committing { user_id: id, cookie: text }
            &&& id@ == user_id@
            &&& text@ == cookie@
        },
        (LogIn::SavingSession { .. }, LogInEvent::Failed(_)) => {
            &&& post is Done
            &&& action matches LogInAction::Abort(reply)
            &&& reply@ == login_broken_reply()
        },
        (LogIn::Committing { user_id, cookie }, LogInEvent::Committed) => {
            &&& post is Done
            &&& action matches LogInAction::Finish(reply)
            &&& reply@ == login_granted_reply(user_id@, cookie@)
        },
        (LogIn::Committing { .. }, LogInEvent::Failed(failure)) => {
            &&& post is Done
            &&& action matches LogInAction::Abort(reply)
            &&& reply@ == failure_reply(failure)
        },
        _ => {
            &&& post is Done
            &&& action matches LogInAction::Abort(reply)
            &&& reply@ == unexpected_reply()
        },
    }
}

/// One step of a login with the session token and the instant given.
pub fn log_in_with(state: LogIn, event: LogInEvent, token: String, now: i64) -> (step: (
    LogIn,
    LogInAction,
))
    ensures
        log_in_step(state, event, token@, now as int, step.0, step.1),
        step.1 is Commit <==> state is SavingSession && event is SessionSaved,
        step.1 is Finish <==> state is Committing && event is Committed,
{
    match (state, event) {
        (LogIn::Idle, LogInEvent::Received(params)) => (
            LogIn::Opening { username: params.username, password: params.password },
            LogInAction::Begin,
        ),
        (LogIn::Opening { username, password }, LogInEvent::Begun) => (
            LogIn::FindingUser,
            LogInAction::FindUser { username, password },
        ),
        (LogIn::Opening { .. }, LogInEvent::Failed(failure)) => (
            LogIn::Done,
            LogInAction::Abort(db_err_to_response(failure)),
        ),
        (LogIn::FindingUser, LogInEvent::UserFound(user)) => {
            match session_cookie(token.as_str(), now) {
                Some(cookie) => (
                    LogIn::SavingSession { user_id: user.id.clone(), cookie },
                    LogInAction::SaveSession(SessionModel { id: token, user_id: user.id }),
                ),
                None => (LogIn::Done, LogInAction::Abort(unexpected())),
            }
        },
        (LogIn::FindingUser, LogInEvent::Failed(_)) => (
            LogIn::Done,
            LogInAction::Abort(Reply::text(Status::Unauthorized, "Unauthorized")),
        ),
        (LogIn::SavingSession { user_id, cookie }, LogInEvent::SessionSaved) => (
            LogIn::Committing { user_id, cookie },
            LogInAction::Commit,
        ),
        (LogIn::SavingSession { .. }, LogInEvent::Failed(_)) => (
            LogIn::Done,
            LogInAction::Abort(
                Reply::text(Status::InternalServerError, "Unexpected error with login"),
            ),
        ),
        (LogIn::Committing { user_id, cookie }, LogInEvent::Committed) => (
            LogIn::Done,
            LogInAction::Finish(
                Reply::text(Status::Success, user_id.as_str()).with_cookie(cookie.as_str()),
            ),
        ),
        (LogIn::Committing { .. }, LogInEvent::Failed(failure)) => (
            LogIn::Done,
            LogInAction::Abort(db_err_to_response(failure)),
        ),
        _ => (LogIn::Done, LogInAction::Abort(unexpected())),
    }
}

/// One step of a login.
///
/// In one transaction the user is looked up by name and password and a
/// session is written for it. A login that finds no user ends with `401`
/// and sets no cookie; only a login whose commit went through ends with
/// `Finish`, which hands out the session cookie and the user's id. Where the
/// step issues a session, its token is drawn afresh and its cookie counts
/// from the present instant.
pub fn log_in(state: LogIn, event: LogInEvent) -> (step: (LogIn, LogInAction))
    ensures
        exists|token: Seq<char>, now: int|
            is_session_token(token) && #[trigger] log_in_step(
                state,
                event,
                token,
                now,
                step.0,
                step.1,
            ),
        step.1 is Commit <==> state is SavingSession && event is SessionSaved,
        step.1 is Finish <==> state is Committing && event is Committed,
{
    let issues = match state {
        LogIn::FindingUser => true,
        _ => false,
    };
    if issues {
        let token = new_session_token();
        let now = unix_now();
        let ghost drawn = token@;
        let step = log_in_with(state, event, token, now);
        assert(log_in_step(state, event, drawn, now as int, step.0, step.1));
        step
    } else {
        let step = log_in_with(state, event, String::new(), 0);
        proof {
            lemma_session_tokens_exist();
            assert(log_in_step(state, event, some_session_token(), 0, step.0, step.1));
        }
        step
    }
}

/// Where a sign-up that founds an organization stands.
#[derive(Debug, Clone, PartialEq, Eq)]
pub enum SignUpWithNewOrg {
    /// Nothing was received yet.
    Idle,
    /// The transaction is being opened.
    Opening { params: SignUpWithNewOrgParams },
    /// The organization is being written under an id of the allocator.
    CreatingOrg { username: String, password: String, allocation: CreateClub },
    /// The user is being written.
    InsertingUser,
    /// The user is being made administrator of the organization.
    AssigningRole { user_id: String },
    /// The session is being written.
    SavingSession { user_id: String, cookie: String },
    /// The transaction is being committed.
    Committing { user_id: String, cookie: String },
    /// The reply was decided.
    Done,
}

/// What a sign-up that founds an organization is told.
#[derive(Debug, Clone, PartialEq, Eq)]
pub enum SignUpWithNewOrgEvent {
    /// The request arrived.
    Received(SignUpWithNewOrgParams),
    /// The transaction is open.
    Begun,
    /// The organization was written and has this id.
    OrgInserted(String),
    /// The user was written and has this id.
    UserInserted(JustId),
    /// The role was assigned.
    RoleAssigned,
    /// The session was written.
    SessionSaved,
    /// The transaction was committed.
    Committed,
    /// The store call failed.
    Failed(StoreFailure),
}

/// What a sign-up that founds an organization asks of its caller.
#[derive(Debug, Clone, PartialEq, Eq)]
pub enum SignUpWithNewOrgAction {
    /// Open a transaction.
    Begin,
    /// Wait `delay_ms` milliseconds, then write the organization under `id`.
    InsertOrg { id: String, title: String, delay_ms: u64 },
    /// Write this user into this organization.
    InsertUser { username: String, password: String, org_id: String },
    /// Give the user this role.
    AssignRole { user_id: String, role: Role },
    /// Write this session.
    SaveSession(SessionModel),
    /// Commit the transaction.
    Commit,
    /// Send the reply; the transaction was committed.
    Finish(Reply),
    /// Roll back what the transaction holds, then send the reply.
    Abort(Reply),
}

/// Whether the sign-up ends at `post` by rolling back and sending the reply
/// to an unexpected failure.
pub open spec fn founding_fails(post: SignUpWithNewOrg, action: SignUpWithNewOrgAction) -> bool {
    &&& post is Done
    &&& action matches SignUpWithNewOrgAction::Abort(reply)
    &&& reply@ == unexpected_reply()
}

/// How the sign-up goes on once the allocator has come to `next` and asked
/// for `asked`: with another insert of the organization, with the insert of
/// the user into the organization that now exists, or not at all.
pub open spec fn founding_follows(
    next: CreateClub,
    asked: CreateClubAction,
    username: Seq<char>,
    password: Seq<char>,
    post: SignUpWithNewOrg,
    action: SignUpWithNewOrgAction,
) -> bool {
    match asked {
        CreateClubAction::Insert { id, title, delay_ms } => {
            &&& post matches SignUpWithNewOrg::CreatingOrg { username: name, password: word, allocation }
            &&& name@ == username
            &&& word@ == password
            &&& allocation == next
            &&& action matches SignUpWithNewOrgAction::InsertOrg {
                id: org_id,
                title: org_title,
                delay_ms: delay,
            }
            &&& org_id@ == id@
            &&& org_title@ == title@
            &&& delay == delay_ms
        },
        CreateClubAction::Created(org_id) => {
            &&& post is InsertingUser
            &&& action matches SignUpWithNewOrgAction::InsertUser {
                username: name,
                password: word,
                org_id: org,
            }
            &&& name@ == username
            &&& word@ == password
            &&& org@ == org_id@
        },
        CreateClubAction::GiveUp(_) => founding_fails(post, action),
    }
}

/// Whether the sign-up takes the step that the allocator takes from
/// `allocation` on `told` with `candidate`.
pub open spec fn founding_allocates(
    allocation: CreateClub,
    told: CreateClubEvent,
    candidate: Seq<char>,
    username: Seq<char>,
    password: Seq<char>,
    post: SignUpWithNewOrg,
    action: SignUpWithNewOrgAction,
) -> bool {
    exists|next: CreateClub, asked: CreateClubAction| #[trigger]
        create_club_step(allocation, told, candidate, next, asked) && founding_follows(
            next,
            asked,
            username,
            password,
            post,
            action,
        )
}

/// The step that a sign-up that founds an organization takes from `pre` on
/// `event`, where `candidate` is the organization id, `token` the session
/// token and `now` the instant drawn for this step: whether it leads to
/// `post` and asks for `action`.
pub open spec fn sign_up_with_new_org_step(
    pre: SignUpWithNewOrg,
    event: SignUpWithNewOrgEvent,
    candidate: Seq<char>,
    token: Seq<char>,
    now: int,
    post: SignUpWithNewOrg,
    action: SignUpWithNewOrgAction,
) -> bool {
    match (pre, event) {
        (SignUpWithNewOrg::Idle, SignUpWithNewOrgEvent::Received(params)) => {
            &&& action is Begin
            &&& post matches SignUpWithNewOrg::Opening { params: kept }
            &&& kept.username@ == params.username@
            &&& kept.password@ == params.password@
            &&& kept.org_title@ == params.org_title@
        },
        (SignUpWithNewOrg::Opening { params }, SignUpWithNewOrgEvent::Begun) => founding_allocates(
            CreateClub::Idle,
            CreateClubEvent::Received { title: params.org_title },
            candidate,
            params.username@,
            params.password@,
            post,
            action,
        ),
        (
            SignUpWithNewOrg::CreatingOrg { username, password, allocation },
            SignUpWithNewOrgEvent::OrgInserted(id),
        ) => founding_allocates(
            allocation,
            CreateClubEvent::Inserted(id),
            candidate,
            username@,
            password@,
            post,
            action,
        ),
        (
            SignUpWithNewOrg::CreatingOrg { username, password, allocation },
            SignUpWithNewOrgEvent::Failed(failure),
        ) => founding_allocates(
            allocation,
            CreateClubEvent::Failed(failure),
            candidate,
            username@,
            password@,
            post,
            action,
        ),
        (SignUpWithNewOrg::InsertingUser, SignUpWithNewOrgEvent::UserInserted(row)) => {
            &&& post matches SignUpWithNewOrg::AssigningRole { user_id }
            &&& user_id@ == row.id@
            &&& action matches SignUpWithNewOrgAction::AssignRole { user_id: holder, role }
            &&& holder@ == row.id@
            &&& role == Role::OrgAdmin
        },
        (SignUpWithNewOrg::AssigningRole { user_id }, SignUpWithNewOrgEvent::RoleAssigned) => {
            if can_issue_at(now) {
                &&& post matches SignUpWithNewOrg::SavingSession { user_id: kept, cookie }
                &&& kept@ == user_id@
                &&& cookie@ == session_cookie_text(token, now + SESSION_COOKIE_TTL_SECS)
                &&& action matches SignUpWithNewOrgAction::SaveSession(session)
                &&& session.id@ == token
                &&& session.user_id@ == user_id@
            } else {
                founding_fails(post, action)
            }
        },
        (
            SignUpWithNewOrg::SavingSession { user_id, cookie },
            SignUpWithNewOrgEvent::SessionSaved,
        ) => {
            &&& action is Commit
            &&& post matches SignUpWithNewOrg::Committing { user_id: id, cookie: text }
            &&& id@ == user_id@
            &&& text@ == cookie@
        },
        (SignUpWithNewOrg::Committing { user_id, cookie }, SignUpWithNewOrgEvent::Committed) => {
            &&& post is Done
            &&& action matches SignUpWithNewOrgAction::Finish(reply)
            &&& reply@ == signed_up_reply(user_id@, cookie@)
        },
        _ => founding_fails(post, action),
    }
}

/// Lets the allocator take its step and carries the sign-up on from there.
fn found_org(
    allocation: CreateClub,
    told: CreateClubEvent,
    candidate: String,
    username: String,
    password: String,
) -> (step: (SignUpWithNewOrg, SignUpWithNewOrgAction))
    ensures
        founding_allocates(
            allocation,
            told,
            candidate@,
            username@,
            password@,
            step.0,
            step.1,
        ),
{
    let ghost drawn = candidate@;
    let (next, asked) = create_club_with(allocation, told, candidate);
    let ghost kept = next;
    let ghost wanted = asked;
    let step = match asked {
        CreateClubAction::Insert { id, title, delay_ms } => (
            SignUpWithNewOrg::CreatingOrg { username, password, allocation: next },
            SignUpWithNewOrgAction::InsertOrg { id, title, delay_ms },
        ),
        CreateClubAction::Created(org_id) => (
            SignUpWithNewOrg::InsertingUser,
            SignUpWithNewOrgAction::InsertUser { username, password, org_id },
        ),
        CreateClubAction::GiveUp(_) => (
            SignUpWithNewOrg::Done,
            SignUpWithNewOrgAction::Abort(unexpected()),
        ),
    };
    proof {
        assert(create_club_step(allocation, told, drawn, kept, wanted));
        assert(founding_follows(kept, wanted, username@, password@, step.0, step.1));
    }
    step
}

/// One step of a sign-up that founds an organization, with the organization
/// id, the session token and the instant given.
pub fn sign_up_with_new_org_with(
    state: SignUpWithNewOrg,
    event: SignUpWithNewOrgEvent,
    candidate: String,
    token: String,
    now: i64,
) -> (step: (SignUpWithNewOrg, SignUpWithNewOrgAction))
    ensures
        sign_up_with_new_org_step(state, event, candidate@, token@, now as int, step.0, step.1),
        step.1 is Commit <==> state is SavingSession && event is SessionSaved,
        step.1 is Finish <==> state is Committing && event is Committed,
{
    match (state, event) {
        (SignUpWithNewOrg::Idle, SignUpWithNewOrgEvent::Received(params)) => (
            SignUpWithNewOrg::Opening { params },
            SignUpWithNewOrgAction::Begin,
        ),
        (SignUpWithNewOrg::Opening { params }, SignUpWithNewOrgEvent::Begun) => found_org(
            CreateClub::Idle,
            CreateClubEvent::Received { title: params.org_title },
            candidate,
            params.username,
            params.password,
        ),
        (
            SignUpWithNewOrg::CreatingOrg { username, password, allocation },
            SignUpWithNewOrgEvent::OrgInserted(id),
        ) => found_org(allocation, CreateClubEvent::Inserted(id), candidate, username, password),
        (
            SignUpWithNewOrg::CreatingOrg { username, password, allocation },
            SignUpWithNewOrgEvent::Failed(failure),
        ) => found_org(
            allocation,
            CreateClubEvent::Failed(failure),
            candidate,
            username,
            password,
        ),
        (SignUpWithNewOrg::InsertingUser, SignUpWithNewOrgEvent::UserInserted(row)) => (
            SignUpWithNewOrg::AssigningRole { user_id: row.id.clone() },
            SignUpWithNewOrgAction::AssignRole { user_id: row.id, role: Role::OrgAdmin },
        ),
        (SignUpWithNewOrg::AssigningRole { user_id }, SignUpWithNewOrgEvent::RoleAssigned) => {
            match open_session(token, user_id.as_str(), now) {
                Some((session, cookie)) => (
                    SignUpWithNewOrg::SavingSession { user_id, cookie },
                    SignUpWithNewOrgAction::SaveSession(session),
                ),
                None => (SignUpWithNewOrg::Done, SignUpWithNewOrgAction::Abort(unexpected())),
            }
        },
        (
            SignUpWithNewOrg::SavingSession { user_id, cookie },
            SignUpWithNewOrgEvent::SessionSaved,
        ) => (SignUpWithNewOrg::Committing { user_id, cookie }, SignUpWithNewOrgAction::Commit),
        (SignUpWithNewOrg::Committing { user_id, cookie }, SignUpWithNewOrgEvent::Committed) => (
            SignUpWithNewOrg::Done,
            SignUpWithNewOrgAction::Finish(
                Reply::json(Status::Created, user_id.as_str()).with_cookie(cookie.as_str()),
            ),
        ),
        _ => (SignUpWithNewOrg::Done, SignUpWithNewOrgAction::Abort(unexpected())),
    }
}

/// One step of a sign-up that founds an organization.
///
/// In one transaction the organization is written under an id of the
/// allocator, the user into it, the role of its administrator to the user,
/// and the user's session. Any failure but a collision of ids ends the
/// exchange with `Abort`. Where the step draws an id or issues a session,
/// the id and the token are drawn afresh and the cookie counts from the
/// present instant.
pub fn sign_up_with_new_org(state: SignUpWithNewOrg, event: SignUpWithNewOrgEvent) -> (step: (
    SignUpWithNewOrg,
    SignUpWithNewOrgAction,
))
    ensures
        exists|candidate: Seq<char>, token: Seq<char>, now: int|
            is_club_id(candidate) && is_session_token(token) && #[trigger] sign_up_with_new_org_step(
                state,
                event,
                candidate,
                token,
                now,
                step.0,
                step.1,
            ),
        step.1 is Commit <==> state is SavingSession && event is SessionSaved,
        step.1 is Finish <==> state is Committing && event is Committed,
{
    let allocates = match state {
        SignUpWithNewOrg::Opening { .. } => true,
        SignUpWithNewOrg::CreatingOrg { .. } => true,
        _ => false,
    };
    let issues = match state {
        SignUpWithNewOrg::AssigningRole { .. } => true,
        _ => false,
    };
    let candidate = if allocates {
        new_club_id()
    } else {
        String::new()
    };
    let token = if issues {
        new_session_token()
    } else {
        String::new()
    };
    let now = if issues {
        unix_now()
    } else {
        0
    };
    let ghost id = if allocates {
        candidate@
    } else {
        some_club_id()
    };
    let ghost drawn = if issues {
        token@
    } else {
        some_session_token()
    };
    let step = sign_up_with_new_org_with(state, event, candidate, token, now);
    proof {
        lemma_club_ids_exist();
        lemma_session_tokens_exist();
        assert(sign_up_with_new_org_step(state, event, id, drawn, now as int, step.0, step.1));
    }
    step
}

/// Whether step `i` of a recorded run is a step of the sign-up that founds
/// an organization, with some well-formed id, some well-formed token and
/// some instant.
pub open spec fn is_founding_step(
    states: Seq<SignUpWithNewOrg>,
    events: Seq<SignUpWithNewOrgEvent>,
    actions: Seq<SignUpWithNewOrgAction>,
    i: int,
) -> bool {
    exists|candidate: Seq<char>, token: Seq<char>, now: int|
        is_club_id(candidate) && is_session_token(token) && #[trigger] sign_up_with_new_org_step(
            states[i],
            events[i],
            candidate,
            token,
            now,
            states[i + 1],
            actions[i],
        )
}

/// Whether `states`, `events` and `actions` record a run of the sign-up
/// that founds an organization from its start.
pub open spec fn is_founding_run(
    states: Seq<SignUpWithNewOrg>,
    events: Seq<SignUpWithNewOrgEvent>,
    actions: Seq<SignUpWithNewOrgAction>,
) -> bool {
    &&& states.len() == events.len() + 1
    &&& actions.len() == events.len()
    &&& states[0] is Idle
    &&& forall|i: int|
        0 <= i < events.len() ==> #[trigger] is_founding_step(states, events, actions, i)
}

/// How far a sign-up that founds an organization has come.
pub open spec fn founding_stage(state: SignUpWithNewOrg) -> int {
    match state {
        SignUpWithNewOrg::Idle => 0,
        SignUpWithNewOrg::Opening { .. } => 1,
        SignUpWithNewOrg::CreatingOrg { .. } => 2,
        SignUpWithNewOrg::InsertingUser => 3,
        SignUpWithNewOrg::AssigningRole { .. } => 4,
        SignUpWithNewOrg::SavingSession { .. } => 5,
        SignUpWithNewOrg::Committing { .. } => 6,
        SignUpWithNewOrg::Done => 7,
    }
}

/// Whether the organization was written within the first `n` events.
pub open spec fn org_written(events: Seq<SignUpWithNewOrgEvent>, n: int) -> bool {
    exists|j: int| 0 <= j < n && #[trigger] events[j] is OrgInserted
}

/// Whether the user was written within the first `n` events.
pub open spec fn user_written(events: Seq<SignUpWithNewOrgEvent>, n: int) -> bool {
    exists|j: int| 0 <= j < n && #[trigger] events[j] is UserInserted
}

/// Whether the role was assigned within the first `n` events.
pub open spec fn role_written(events: Seq<SignUpWithNewOrgEvent>, n: int) -> bool {
    exists|j: int| 0 <= j < n && #[trigger] events[j] is RoleAssigned
}

/// Whether the session was written within the first `n` events.
pub open spec fn session_written(events: Seq<SignUpWithNewOrgEvent>, n: int) -> bool {
    exists|j: int| 0 <= j < n && #[trigger] events[j] is SessionSaved
}

/// A sign-up that is still under way has written what its stage stands
/// for.
proof fn lemma_founding_has_written(
    states: Seq<SignUpWithNewOrg>,
    events: Seq<SignUpWithNewOrgEvent>,
    actions: Seq<SignUpWithNewOrgAction>,
    n: int,
)
    requires
        is_founding_run(states, events, actions),
        0 <= n <= events.len(),
        !(states[n] is Done),
    ensures
        founding_stage(states[n]) >= 3 ==> org_written(events, n),
        founding_stage(states[n]) >= 4 ==> user_written(events, n),
        founding_stage(states[n]) >= 5 ==> role_written(events, n),
        founding_stage(states[n]) >= 6 ==> session_written(events, n),
    decreases n,
{
    if n > 0 {
        assert(is_founding_step(states, events, actions, n - 1));
        let pre = states[n - 1];
        let event = events[n - 1];
        assert(!(pre is Done));
        lemma_founding_has_written(states, events, actions, n - 1);
        if org_written(events, n - 1) {
            let j = choose|j: int| 0 <= j < n - 1 && #[trigger] events[j] is OrgInserted;
            assert(events[j] is OrgInserted);
        }
        if user_written(events, n - 1) {
            let j = choose|j: int| 0 <= j < n - 1 && #[trigger] events[j] is UserInserted;
            assert(events[j] is UserInserted);
        }
        if role_written(events, n - 1) {
            let j = choose|j: int| 0 <= j < n - 1 && #[trigger] events[j] is RoleAssigned;
            assert(events[j] is RoleAssigned);
        }
        if session_written(events, n - 1) {
            let j = choose|j: int| 0 <= j < n - 1 && #[trigger] events[j] is SessionSaved;
            assert(events[j] is SessionSaved);
        }
        assert(founding_stage(states[n]) <= founding_stage(pre) + 1);
        if founding_stage(states[n]) == founding_stage(pre) + 1 {
            if founding_stage(pre) == 2 {
                assert(event is OrgInserted);
            } else if founding_stage(pre) == 3 {
                assert(event is UserInserted);
            } else if founding_stage(pre) == 4 {
                assert(event is RoleAssigned);
            } else if founding_stage(pre) == 5 {
                assert(event is SessionSaved);
            }
            assert(events[n - 1] == event);
        }
    }
}

/// A sign-up that founds an organization is all or nothing: in every run, a
/// commit is asked for only after the organization, the user, the role of
/// its administrator and the session were written.
pub proof fn law_founding_commits_only_a_whole_run(
    states: Seq<SignUpWithNewOrg>,
    events: Seq<SignUpWithNewOrgEvent>,
    actions: Seq<SignUpWithNewOrgAction>,
    i: int,
)
    requires
        is_founding_run(states, events, actions),
        0 <= i < actions.len(),
        actions[i] is Commit,
    ensures
        org_written(events, i),
        user_written(events, i),
        role_written(events, i),
        events[i] is SessionSaved,
{
    assert(is_founding_step(states, events, actions, i));
    assert(states[i] is SavingSession);
    lemma_founding_has_written(states, events, actions, i);
}

/// Whether `events` are those of a sign-up in which every store call goes
/// through at once: the request `params`, the open transaction, the
/// organization written under `org_id`, the user written as `user`, the
/// role, the session, and the commit.
pub open spec fn founding_goes_through(
    events: Seq<SignUpWithNewOrgEvent>,
    params: SignUpWithNewOrgParams,
    org_id: String,
    user: JustId,
) -> bool {
    &&& events.len() == 7
    &&& events[0] == SignUpWithNewOrgEvent::Received(params)
    &&& events[1] == SignUpWithNewOrgEvent::Begun
    &&& events[2] == SignUpWithNewOrgEvent::OrgInserted(org_id)
    &&& events[3] == SignUpWithNewOrgEvent::UserInserted(user)
    &&& events[4] == SignUpWithNewOrgEvent::RoleAssigned
    &&& events[5] == SignUpWithNewOrgEvent::SessionSaved
    &&& events[6] == SignUpWithNewOrgEvent::Committed
}

/// What a sign-up asks for up to the role, where every store call goes
/// through: the transaction; one organization with the title given, under a
/// well-formed id and without delay; one user with the name and the
/// password given, in the organization that the store returned; and the
/// role of the organization's administrator for that user.
pub open spec fn founds_one_admin(
    actions: Seq<SignUpWithNewOrgAction>,
    params: SignUpWithNewOrgParams,
    org_id: String,
    user: JustId,
) -> bool {
    &&& actions[0] is Begin
    &&& actions[1] matches SignUpWithNewOrgAction::InsertOrg { id, title, delay_ms }
    &&& is_club_id(id@)
    &&& title@ == params.org_title@
    &&& delay_ms == 0
    &&& actions[2] matches SignUpWithNewOrgAction::InsertUser { username, password, org_id: joined }
    &&& username@ == params.username@
    &&& password@ == params.password@
    &&& joined@ == org_id@
    &&& actions[3] matches SignUpWithNewOrgAction::AssignRole { user_id, role }
    &&& user_id@ == user.id@
    &&& role == Role::OrgAdmin
}

/// What a sign-up asks for from the session on, where every store call goes
/// through and the session is issued at `now`: the one session `session` of
/// the new user under a well-formed token; the commit; and the reply `201`
/// with the user's id and the cookie that hands out the token and expires
/// seven days after `now`.
pub open spec fn opens_one_session(
    actions: Seq<SignUpWithNewOrgAction>,
    user: JustId,
    session: SessionModel,
    now: int,
) -> bool {
    &&& can_issue_at(now)
    &&& actions[4] == SignUpWithNewOrgAction::SaveSession(session)
    &&& is_session_token(session.id@)
    &&& session.user_id@ == user.id@
    &&& actions[5] is Commit
    &&& actions[6] matches SignUpWithNewOrgAction::Finish(reply)
    &&& reply@ == signed_up_reply(
        user.id@,
        session_cookie_text(session.id@, now + SESSION_COOKIE_TTL_SECS),
    )
}

/// A sign-up in which every store call goes through asks for exactly one
/// organization, one user in it and the administrator's role for that user,
/// and then ends in one of two ways. Either the instant at which the
/// session is due is one whose seventh day a cookie can state: then the
/// sign-up writes one session of that user, commits, and replies `201` with
/// the session cookie. Or it is not: then the sign-up aborts when the
/// session is due, before any session is written, and commits nothing.
pub proof fn law_founding_makes_one_admin_with_a_session(
    states: Seq<SignUpWithNewOrg>,
    events: Seq<SignUpWithNewOrgEvent>,
    actions: Seq<SignUpWithNewOrgAction>,
    params: SignUpWithNewOrgParams,
    org_id: String,
    user: JustId,
)
    requires
        is_founding_run(states, events, actions),
        founding_goes_through(events, params, org_id, user),
    ensures
        founds_one_admin(actions, params, org_id, user),
        (exists|session: SessionModel, now: int|
            opens_one_session(actions, user, session, now)) || (actions[4] is Abort && forall|
            i: int,
        |
            0 <= i < 7 ==> !(#[trigger] actions[i] is Commit)),
{
    assert(is_founding_step(states, events, actions, 0));
    assert(is_founding_step(states, events, actions, 1));
    assert(is_founding_step(states, events, actions, 2));
    assert(is_founding_step(states, events, actions, 3));
    assert(is_founding_step(states, events, actions, 4));
    assert(is_founding_step(states, events, actions, 5));
    assert(is_founding_step(states, events, actions, 6));
    assert(states[1] is Opening);
    assert(states[2] is CreatingOrg);
    assert(states[3] is InsertingUser);
    assert(states[4] is AssigningRole);
    assert(founds_one_admin(actions, params, org_id, user));
    let (candidate, token, now) = choose|candidate: Seq<char>, token: Seq<char>, now: int|
        is_club_id(candidate) && is_session_token(token) && #[trigger] sign_up_with_new_org_step(
            states[4],
            events[4],
            candidate,
            token,
            now,
            states[5],
            actions[4],
        );
    if can_issue_at(now) {
        let session = actions[4]->SaveSession_0;
        assert(opens_one_session(actions, user, session, now));
    } else {
        assert(states[5] is Done);
        assert(states[6] is Done);
    }
}

/// Where a sign-up on an invite stands.
#[derive(Debug, Clone, PartialEq, Eq)]
pub enum SignUpViaInvite {
    /// Nothing was received yet.
    Idle,
    /// The transaction is being opened.
    Opening { invite_id: String, params: SignUpViaInviteParams },
    /// The invite is being looked up.
    FindingInvite { params: SignUpViaInviteParams },
    /// The user is being written.
    InsertingUser,
    /// The session is being written.
    SavingSession { user_id: String, cookie: String },
    /// The transaction is being committed.
    Committing { user_id: String, cookie: String },
    /// The reply was decided.
    Done,
}

/// What a sign-up on an invite is told.
#[derive(Debug, Clone, PartialEq, Eq)]
pub enum SignUpViaInviteEvent {
    /// The request arrived for the invite with this id.
    Received { invite_id: String, params: SignUpViaInviteParams },
    /// The transaction is open.
    Begun,
    /// The invite exists and leads into this organization.
    InviteFound { org_id: String },
    /// The user was written and has this id.
    UserInserted(JustId),
    /// The session was written.
    SessionSaved,
    /// The transaction was committed.
    Committed,
    /// The store call failed.
    Failed(StoreFailure),
}

/// What a sign-up on an invite asks of its caller.
#[derive(Debug, Clone, PartialEq, Eq)]
pub enum SignUpViaInviteAction {
    /// Open a transaction.
    Begin,
    /// Look up the organization of the invite with this id.
    FindInvite { invite_id: String },
    /// Write this user into this organization.
    InsertUser { username: String, password: String, org_id: String },
    /// Write this session.
    SaveSession(SessionModel),
    /// Commit the transaction.
    Commit,
    /// Send the reply; the transaction was committed.
    Finish(Reply),
    /// Roll back what the transaction holds, then send the reply.
    Abort(Reply),
}

/// Whether the sign-up ends at `post` by rolling back and sending the reply
/// to an unexpected failure.
pub open spec fn joining_fails(post: SignUpViaInvite, action: SignUpViaInviteAction) -> bool {
    &&& post is Done
    &&& action matches SignUpViaInviteAction::Abort(reply)
    &&& reply@ == unexpected_reply()
}

/// The step that a sign-up on an invite takes from `pre` on `event`, where
/// `token` is the session token and `now` the instant drawn for this step:
/// whether it leads to `post` and asks for `action`.
pub open spec fn sign_up_via_invite_step(
    pre: SignUpViaInvite,
    event: SignUpViaInviteEvent,
    token: Seq<char>,
    now: int,
    post: SignUpViaInvite,
    action: SignUpViaInviteAction,
) -> bool {
    match (pre, event) {
        (SignUpViaInvite::Idle, SignUpViaInviteEvent::Received { invite_id, params }) => {
            &&& action is Begin
            &&& post matches SignUpViaInvite::Opening { invite_id: id, params: kept }
            &&& id@ == invite_id@
            &&& kept.username@ == params.username@
            &&& kept.password@ == params.password@
        },
        (SignUpViaInvite::Opening { invite_id, params }, SignUpViaInviteEvent::Begun) => {
            &&& post matches SignUpViaInvite::FindingInvite { params: kept }
            &&& kept.username@ == params.username@
            &&& kept.password@ == params.password@
            &&& action matches SignUpViaInviteAction::FindInvite { invite_id: id }
            &&& id@ == invite_id@
        },
        (
            SignUpViaInvite::FindingInvite { params },
            SignUpViaInviteEvent::InviteFound { org_id },
        ) => {
            &&& post is InsertingUser
            &&& action matches SignUpViaInviteAction::InsertUser { username, password, org_id: org }
            &&& username@ == params.username@
            &&& password@ == params.password@
            &&& org@ == org_id@
        },
        (SignUpViaInvite::InsertingUser, SignUpViaInviteEvent::UserInserted(row)) => {
            if can_issue_at(now) {
                &&& post matches SignUpViaInvite::SavingSession { user_id, cookie }
                &&& user_id@ == row.id@
                &&& cookie@ == session_cookie_text(token, now + SESSION_COOKIE_TTL_SECS)
                &&& action matches SignUpViaInviteAction::SaveSession(session)
                &&& session.id@ == token
                &&& session.user_id@ == row.id@
            } else {
                joining_fails(post, action)
            }
        },
        (SignUpViaInvite::SavingSession { user_id, cookie }, SignUpViaInviteEvent::SessionSaved) => {
            &&& action is Commit
            &&& post matches SignUpViaInvite::Committing { user_id: id, cookie: text }
            &&& id@ == user_id@
            &&& text@ == cookie@
        },
        (SignUpViaInvite::Committing { user_id, cookie }, SignUpViaInviteEvent::Committed) => {
            &&& post is Done
            &&& action matches SignUpViaInviteAction::Finish(reply)
            &&& reply@ == signed_up_reply(user_id@, cookie@)
        },
        _ => joining_fails(post, action),
    }
}

/// One step of a sign-up on an invite, with the session token and the
/// instant given.
pub fn sign_up_via_invite_with(
    state: SignUpViaInvite,
    event: SignUpViaInviteEvent,
    token: String,
    now: i64,
) -> (step: (SignUpViaInvite, SignUpViaInviteAction))
    ensures
        sign_up_via_invite_step(state, event, token@, now as int, step.0, step.1),
        step.1 is Commit <==> state is SavingSession && event is SessionSaved,
        step.1 is Finish <==> state is Committing && event is Committed,
{
    match (state, event) {
        (SignUpViaInvite::Idle, SignUpViaInviteEvent::Received { invite_id, params }) => (
            SignUpViaInvite::Opening { invite_id, params },
            SignUpViaInviteAction::Begin,
        ),
        (SignUpViaInvite::Opening { invite_id, params }, SignUpViaInviteEvent::Begun) => (
            SignUpViaInvite::FindingInvite { params },
            SignUpViaInviteAction::FindInvite { invite_id },
        ),
        (
            SignUpViaInvite::FindingInvite { params },
            SignUpViaInviteEvent::InviteFound { org_id },
        ) => (
            SignUpViaInvite::InsertingUser,
            SignUpViaInviteAction::InsertUser {
                username: params.username,
                password: params.password,
                org_id,
            },
        ),
        (SignUpViaInvite::InsertingUser, SignUpViaInviteEvent::UserInserted(row)) => {
            match open_session(token, row.id.as_str(), now) {
                Some((session, cookie)) => (
                    SignUpViaInvite::SavingSession { user_id: row.id, cookie },
                    SignUpViaInviteAction::SaveSession(session),
                ),
                None => (SignUpViaInvite::Done, SignUpViaInviteAction::Abort(unexpected())),
            }
        },
        (SignUpViaInvite::SavingSession { user_id, cookie }, SignUpViaInviteEvent::SessionSaved) => (
            SignUpViaInvite::Committing { user_id, cookie },
            SignUpViaInviteAction::Commit,
        ),
        (SignUpViaInvite::Committing { user_id, cookie }, SignUpViaInviteEvent::Committed) => (
            SignUpViaInvite::Done,
            SignUpViaInviteAction::Finish(
                Reply::json(Status::Created, user_id.as_str()).with_cookie(cookie.as_str()),
            ),
        ),
        _ => (SignUpViaInvite::Done, SignUpViaInviteAction::Abort(unexpected())),
    }
}

/// One step of a sign-up on an invite.
///
/// In one transaction the invite is resolved to its organization, the user
/// is written into it, and the user's session is written. The user gets no
/// role. Any failure ends the exchange with `Abort`. Where the step issues a
/// session, its token is drawn afresh and its cookie counts from the present
/// instant.
pub fn sign_up_via_invite(state: SignUpViaInvite, event: SignUpViaInviteEvent) -> (step: (
    SignUpViaInvite,
    SignUpViaInviteAction,
))
    ensures
        exists|token: Seq<char>, now: int|
            is_session_token(token) && #[trigger] sign_up_via_invite_step(
                state,
                event,
                token,
                now,
                step.0,
                step.1,
            ),
        step.1 is Commit <==> state is SavingSession && event is SessionSaved,
        step.1 is Finish <==> state is Committing && event is Committed,
{
    let issues = match state {
        SignUpViaInvite::InsertingUser => true,
        _ => false,
    };
    if issues {
        let token = new_session_token();
        let now = unix_now();
        let ghost drawn = token@;
        let step = sign_up_via_invite_with(state, event, token, now);
        assert(sign_up_via_invite_step(state, event, drawn, now as int, step.0, step.1));
        step
    } else {
        let step = sign_up_via_invite_with(state, event, String::new(), 0);
        proof {
            lemma_session_tokens_exist();
            assert(sign_up_via_invite_step(
                state,
                event,
                some_session_token(),
                0,
                step.0,
                step.1,
            ));
        }
        step
    }
}

/// Where a logout stands.
#[derive(Debug, Clone, Copy, PartialEq, Eq, Structural)]
pub enum LogOut {
    /// Nothing was received yet.
    Idle,
    /// The session is being deleted.
    Deleting,
    /// The reply was decided.
    Done,
}

/// What a logout is told.
#[derive(Debug, Clone, PartialEq, Eq)]
pub enum LogOutEvent {
    /// The request arrived, with the identity of its sender.
    Received(AuthContext),
    /// The delete went through, whether or not it found the session.
    Deleted,
    /// The store call failed.
    Failed(StoreFailure),
}

/// What a logout asks of its caller.
#[derive(Debug, Clone, PartialEq, Eq)]
pub enum LogOutAction {
    /// Delete the session with this id.
    DeleteSession { session_id: String },
    /// Send the reply.
    Respond(Reply),
}

/// The reply to a logout, whether or not the delete went through: the
/// client is told to drop its cookie.
pub open spec fn logged_out_reply() -> ReplyView {
    ReplyView { status: Status::NoContent, set_cookie: Some(expired_cookie()), body: BodyView::Empty }
}

/// Whether the logout ends at `post` by sending `reply`.
pub open spec fn logout_responds(post: LogOut, action: LogOutAction, reply: ReplyView) -> bool {
    &&& post == LogOut::Done
    &&& action matches LogOutAction::Respond(sent)
    &&& sent@ == reply
}

/// The step that a logout takes from `pre` on `event`: whether it leads to
/// `post` and asks for `action`.
pub open spec fn log_out_step(pre: LogOut, event: LogOutEvent, post: LogOut, action: LogOutAction) -> bool {
    match (pre, event) {
        (LogOut::Idle, LogOutEvent::Received(auth_ctx)) => {
            &&& post == LogOut::Deleting
            &&& action matches LogOutAction::DeleteSession { session_id }
            &&& session_id@ == auth_ctx.session_id@
        },
        (LogOut::Deleting, LogOutEvent::Deleted) => logout_responds(
            post,
            action,
            logged_out_reply(),
        ),
        (LogOut::Deleting, LogOutEvent::Failed(_)) => logout_responds(
            post,
            action,
            logged_out_reply(),
        ),
        _ => logout_responds(post, action, unexpected_reply()),
    }
}

/// One step of a logout: the caller's session is deleted, and whether or not
/// that went well, the reply is `204` and tells the client to drop its
/// cookie.
pub fn log_out(state: LogOut, event: LogOutEvent) -> (step: (LogOut, LogOutAction))
    ensures
        log_out_step(state, event, step.0, step.1),
{
    match (state, event) {
        (LogOut::Idle, LogOutEvent::Received(auth_ctx)) => (
            LogOut::Deleting,
            LogOutAction::DeleteSession { session_id: auth_ctx.session_id },
        ),
        (LogOut::Deleting, LogOutEvent::Deleted) => (
            LogOut::Done,
            LogOutAction::Respond(
                Reply::empty(Status::NoContent).with_cookie(expired_empty_cookie()),
            ),
        ),
        (LogOut::Deleting, LogOutEvent::Failed(_)) => (
            LogOut::Done,
            LogOutAction::Respond(
                Reply::empty(Status::NoContent).with_cookie(expired_empty_cookie()),
            ),
        ),
        _ => (LogOut::Done, LogOutAction::Respond(unexpected())),
    }
}

} // verus!
