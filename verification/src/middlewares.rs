//! The authentication gate: from a session cookie to the identity of the
//! caller, or to a refusal.
//!
//! The middleware runs before every protected handler. It never looks at roles:
//! whether the caller may do what it asks is for the handler to decide.

use vstd::prelude::*;
use crate::api::BodyView;
use crate::api::Reply;
use crate::api::ReplyView;
use crate::api::Status;
use crate::api::StoreFailure;
use crate::api::unexpected;
use crate::api::unexpected_reply;
use crate::auth_routes::log_out_step;
use crate::auth_routes::LogOut;
use crate::auth_routes::LogOutAction;
use crate::auth_routes::LogOutEvent;
use crate::roles::AuthContext;
use crate::roles::AuthContextView;
use crate::roles::Role;
use crate::session::expired_cookie;
use crate::session::expired_empty_cookie;

verus! {

/// A session joined with its user and the roles that the user holds; `None`
/// where the store gave no list of roles.
#[derive(Debug, Clone, PartialEq, Eq)]
pub struct UserWithSessionModel {
    pub user_id: String,
    pub session_id: String,
    pub org_id: String,
    pub roles: Option<Vec<Role>>,
}

/// The identity that a resolved session stands for. A user without roles has
/// the empty list of them.
pub open spec fn context_of(row: UserWithSessionModel) -> AuthContextView {
    AuthContextView {
        user_id: row.user_id@,
        session_id: row.session_id@,
        org_id: row.org_id@,
        roles: match row.roles {
            Some(roles) => roles@,
            None => Seq::empty(),
        },
    }
}

/// Builds the identity that a resolved session stands for.
pub fn auth_context(row: UserWithSessionModel) -> (auth_ctx: AuthContext)
    ensures
        auth_ctx@ == context_of(row),
{
    let roles = match row.roles {
        Some(roles) => roles,
        None => Vec::new(),
    };
    AuthContext { user_id: row.user_id, session_id: row.session_id, org_id: row.org_id, roles }
}

/// Where the middleware stands with a request.
#[derive(Debug, Clone, Copy, PartialEq, Eq, Structural)]
pub enum Gate {
    /// Nothing was received yet.
    Idle,
    /// The session is being resolved.
    Resolving,
    /// The handler is running.
    Handling,
    /// The reply was decided.
    Done,
}

/// What the middleware is told.
#[derive(Debug, Clone, PartialEq, Eq)]
pub enum GateEvent {
    /// A request arrived; `cookie` is the value of its cookie `session_id`,
    /// if it has one.
    Received { cookie: Option<String> },
    /// The store holds the session.
    Resolved(UserWithSessionModel),
    /// The store holds no such session, or the lookup failed.
    Failed(StoreFailure),
    /// The handler answered.
    Handled(Reply),
}

/// What the middleware asks of its caller.
#[derive(Debug, Clone, PartialEq, Eq)]
pub enum GateAction {
    /// Resolve the session with this id.
    Resolve { session_id: String },
    /// Attach the identity to the request and run the handler.
    RunHandler(AuthContext),
    /// Send the handler's reply as it is.
    Forward(Reply),
    /// Send the refusal; the handler does not run.
    Reject(Reply),
}

/// The refusal of a request without session cookie.
pub open spec fn not_logged_in_reply() -> ReplyView {
    ReplyView {
        status: Status::Unauthorized,
        set_cookie: None,
        body: BodyView::Text("Not logged in"@),
    }
}

/// The refusal of a request whose session cookie resolves to nothing: it
/// makes the client drop the cookie.
pub open spec fn stale_session_reply() -> ReplyView {
    ReplyView {
        status: Status::Unauthorized,
        set_cookie: Some(expired_cookie()),
        body: BodyView::Text("Unauthorized"@),
    }
}

/// Whether the middleware ends at `post` by refusing with `reply`.
pub open spec fn gate_rejects(post: Gate, action: GateAction, reply: ReplyView) -> bool {
    &&& post == Gate::Done
    &&& action matches GateAction::Reject(sent)
    &&& sent@ == reply
}

/// The step that the middleware takes from `pre` on `event`: whether it leads to
/// `post` and asks for `action`.
pub open spec fn gate_step(pre: Gate, event: GateEvent, post: Gate, action: GateAction) -> bool {
    match (pre, event) {
        (Gate::Idle, GateEvent::Received { cookie: Some(value) }) => {
            &&& post == Gate::Resolving
            &&& action matches GateAction::Resolve { session_id }
            &&& session_id@ == value@
        },
        (Gate::Idle, GateEvent::Received { cookie: None }) => gate_rejects(
            post,
            action,
            not_logged_in_reply(),
        ),
        (Gate::Resolving, GateEvent::Resolved(row)) => {
            &&& post == Gate::Handling
            &&& action matches GateAction::RunHandler(auth_ctx)
            &&& auth_ctx@ == context_of(row)
        },
        (Gate::Resolving, GateEvent::Failed(_)) => gate_rejects(
            post,
            action,
            stale_session_reply(),
        ),
        (Gate::Handling, GateEvent::Handled(reply)) => {
            &&& post == Gate::Done
            &&& action matches GateAction::Forward(sent)
            &&& sent@ == reply@
        },
        _ => gate_rejects(post, action, unexpected_reply()),
    }
}

/// One step of the authentication gate.
///
/// A request without session cookie is refused with `401`. One whose cookie
/// resolves to no session is refused with `401` and told to drop the cookie.
/// One whose session resolves runs the handler with the caller's identity,
/// and the handler's reply is sent unchanged. The handler runs in no other
/// case.
pub fn cookie_auth_middleware(state: Gate, event: GateEvent) -> (step: (Gate, GateAction))
    ensures
        gate_step(state, event, step.0, step.1),
        step.1 is RunHandler <==> state == Gate::Resolving && event is Resolved,
{
    match (state, event) {
        (Gate::Idle, GateEvent::Received { cookie: Some(value) }) => (
            Gate::Resolving,
            GateAction::Resolve { session_id: value },
        ),
        (Gate::Idle, GateEvent::Received { cookie: None }) => (
            Gate::Done,
            GateAction::Reject(Reply::text(Status::Unauthorized, "Not logged in")),
        ),
        (Gate::Resolving, GateEvent::Resolved(row)) => (
            Gate::Handling,
            GateAction::RunHandler(auth_context(row)),
        ),
        (Gate::Resolving, GateEvent::Failed(_)) => (
            Gate::Done,
            GateAction::Reject(
                Reply::text(Status::Unauthorized, "Unauthorized").with_cookie(
                    expired_empty_cookie(),
                ),
            ),
        ),
        (Gate::Handling, GateEvent::Handled(reply)) => (Gate::Done, GateAction::Forward(reply)),
        _ => (Gate::Done, GateAction::Reject(unexpected())),
    }
}

/// A request without session cookie is refused as unauthorized, and the
/// handler is not run.
pub proof fn law_request_without_cookie_is_refused(post: Gate, action: GateAction)
    requires
        gate_step(Gate::Idle, GateEvent::Received { cookie: None }, post, action),
    ensures
        post == Gate::Done,
        !(action is RunHandler),
        action matches GateAction::Reject(reply) && reply@.status == Status::Unauthorized,
{
}

/// A request whose session cookie resolves to nothing is refused as
/// unauthorized with the cookie that expires the client's, and the handler
/// is not run: neither by the step that asks for the session nor by the one
/// that learns that there is none.
pub proof fn law_unresolved_cookie_is_refused(
    cookie: String,
    failure: StoreFailure,
    asking: Gate,
    asked: GateAction,
    post: Gate,
    action: GateAction,
)
    requires
        gate_step(Gate::Idle, GateEvent::Received { cookie: Some(cookie) }, asking, asked),
        gate_step(asking, GateEvent::Failed(failure), post, action),
    ensures
        asked matches GateAction::Resolve { session_id } && session_id@ == cookie@,
        post == Gate::Done,
        action matches GateAction::Reject(reply) && reply@.status == Status::Unauthorized
            && reply@.set_cookie == Some(expired_cookie()),
{
}

/// The ids of the sessions that the store holds once it has done what a
/// logout asked for.
pub open spec fn sessions_after(sessions: Set<Seq<char>>, asked: LogOutAction) -> Set<Seq<char>> {
    match asked {
        LogOutAction::DeleteSession { session_id } => sessions.remove(session_id@),
        LogOutAction::Respond(_) => sessions,
    }
}

/// Whether `event` is an answer that a store holding `sessions` can give to
/// the middleware that asked for `session_id`: it resolves no session that it
/// does not hold.
pub open spec fn answers_resolve(
    sessions: Set<Seq<char>>,
    session_id: Seq<char>,
    event: GateEvent,
) -> bool {
    match event {
        GateEvent::Resolved(row) => sessions.contains(session_id) && row.session_id@ == session_id,
        GateEvent::Failed(_) => true,
        _ => false,
    }
}

/// A session that a logout destroyed opens the middleware no more: a later request
/// that bears its cookie is refused as unauthorized and told to drop the
/// cookie, whatever else the store holds.
pub proof fn law_logged_out_session_is_refused(
    sessions: Set<Seq<char>>,
    auth_ctx: AuthContext,
    leaving: LogOut,
    deleted: LogOutAction,
    cookie: String,
    asking: Gate,
    asked: GateAction,
    answer: GateEvent,
    post: Gate,
    action: GateAction,
)
    requires
        log_out_step(LogOut::Idle, LogOutEvent::Received(auth_ctx), leaving, deleted),
        cookie@ == auth_ctx.session_id@,
        gate_step(Gate::Idle, GateEvent::Received { cookie: Some(cookie) }, asking, asked),
        answers_resolve(sessions_after(sessions, deleted), cookie@, answer),
        gate_step(asking, answer, post, action),
    ensures
        deleted matches LogOutAction::DeleteSession { session_id } && session_id@
            == auth_ctx.session_id@,
        asked matches GateAction::Resolve { session_id } && session_id@ == cookie@,
        post == Gate::Done,
        action matches GateAction::Reject(reply) && reply@ == stale_session_reply(),
{
}

} // verus!
