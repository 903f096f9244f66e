//! Leaving with one's organization.
//!
//! The caller's user and the caller's organization are deleted in one
//! transaction; the store removes what belongs to the organization with it.

use vstd::prelude::*;
use crate::api::BodyView;
use crate::api::Reply;
use crate::api::ReplyView;
use crate::api::Status;
use crate::api::StoreFailure;
use crate::api::unexpected;
use crate::api::unexpected_reply;
use crate::roles::AuthContext;

verus! {

/// Where the deletion of the caller's organization stands.
#[derive(Debug, Clone, PartialEq, Eq)]
pub enum DeleteOwnOrg {
    /// Nothing was received yet.
    Idle,
    /// The transaction is being opened.
    Opening { user_id: String, org_id: String },
    /// The caller's user is being deleted.
    DeletingUser { org_id: String },
    /// The organization is being deleted.
    DeletingOrg,
    /// The transaction is being committed.
    Committing,
    /// The reply was decided.
    Done,
}

/// What the deletion of the caller's organization is told.
#[derive(Debug, Clone, PartialEq, Eq)]
pub enum DeleteOwnOrgEvent {
    /// The request arrived, with the identity of its sender.
    Received(AuthContext),
    /// The transaction is open.
    Begun,
    /// The delete of the user went through.
    UserDeleted,
    /// The delete of the organization went through.
    OrgDeleted,
    /// The transaction was committed.
    Committed,
    /// The store call failed.
    Failed(StoreFailure),
}

/// What the deletion of the caller's organization asks of its caller.
#[derive(Debug, Clone, PartialEq, Eq)]
pub enum DeleteOwnOrgAction {
    /// Open a transaction.
    Begin,
    /// Delete the user with this id.
    DeleteUser { user_id: String },
    /// Delete the organization with this id.
    DeleteOrg { org_id: String },
    /// Commit the transaction.
    Commit,
    /// Send the reply; the transaction was committed.
    Finish(Reply),
    /// Roll back what the transaction holds, then send the reply.
    Abort(Reply),
}

/// The reply to a deletion that went through.
pub open spec fn org_deleted_reply() -> ReplyView {
    ReplyView { status: Status::NoContent, set_cookie: None, body: BodyView::Empty }
}

/// Whether the deletion ends at `post` by rolling back and sending the reply
/// to an unexpected failure.
pub open spec fn delete_own_org_fails(post: DeleteOwnOrg, action: DeleteOwnOrgAction) -> bool {
    &&& post is Done
    &&& action matches DeleteOwnOrgAction::Abort(reply)
    &&& reply@ == unexpected_reply()
}

/// The step that the deletion of the caller's organization takes from `pre`
/// on `event`: whether it leads to `post` and asks for `action`.
pub open spec fn delete_own_org_step(
    pre: DeleteOwnOrg,
    event: DeleteOwnOrgEvent,
    post: DeleteOwnOrg,
    action: DeleteOwnOrgAction,
) -> bool {
    match (pre, event) {
        (DeleteOwnOrg::Idle, DeleteOwnOrgEvent::Received(auth_ctx)) => {
            &&& action is Begin
            &&& post matches DeleteOwnOrg::Opening { user_id, org_id }
            &&& user_id@ == auth_ctx.user_id@
            &&& org_id@ == auth_ctx.org_id@
        },
        (DeleteOwnOrg::Opening { user_id, org_id }, DeleteOwnOrgEvent::Begun) => {
            &&& post matches DeleteOwnOrg::DeletingUser { org_id: kept }
            &&& kept@ == org_id@
            &&& action matches DeleteOwnOrgAction::DeleteUser { user_id: doomed }
            &&& doomed@ == user_id@
        },
        (DeleteOwnOrg::DeletingUser { org_id }, DeleteOwnOrgEvent::UserDeleted) => {
            &&& post is DeletingOrg
            &&& action matches DeleteOwnOrgAction::DeleteOrg { org_id: doomed }
            &&& doomed@ == org_id@
        },
        (DeleteOwnOrg::DeletingOrg, DeleteOwnOrgEvent::OrgDeleted) => {
            post is Committing && action is Commit
        },
        (DeleteOwnOrg::Committing, DeleteOwnOrgEvent::Committed) => {
            &&& post is Done
            &&& action matches DeleteOwnOrgAction::Finish(reply)
            &&& reply@ == org_deleted_reply()
        },
        _ => delete_own_org_fails(post, action),
    }
}

/// One step of the deletion of the caller's organization.
///
/// The caller's user goes first, then the organization; `Commit` is asked
/// for only once both deletes went through, and any failure ends the
/// exchange with `Abort`.
pub fn delete_own_org(state: DeleteOwnOrg, event: DeleteOwnOrgEvent) -> (step: (
    DeleteOwnOrg,
    DeleteOwnOrgAction,
))
    ensures
        delete_own_org_step(state, event, step.0, step.1),
        step.1 is Commit <==> state is DeletingOrg && event is OrgDeleted,
        step.1 is Finish <==> state is Committing && event is Committed,
        event is Failed ==> step.1 is Abort,
{
    match (state, event) {
        (DeleteOwnOrg::Idle, DeleteOwnOrgEvent::Received(auth_ctx)) => (
            DeleteOwnOrg::Opening { user_id: auth_ctx.user_id, org_id: auth_ctx.org_id },
            DeleteOwnOrgAction::Begin,
        ),
        (DeleteOwnOrg::Opening { user_id, org_id }, DeleteOwnOrgEvent::Begun) => (
            DeleteOwnOrg::DeletingUser { org_id },
            DeleteOwnOrgAction::DeleteUser { user_id },
        ),
        (DeleteOwnOrg::DeletingUser { org_id }, DeleteOwnOrgEvent::UserDeleted) => (
            DeleteOwnOrg::DeletingOrg,
            DeleteOwnOrgAction::DeleteOrg { org_id },
        ),
        (DeleteOwnOrg::DeletingOrg, DeleteOwnOrgEvent::OrgDeleted) => (
            DeleteOwnOrg::Committing,
            DeleteOwnOrgAction::Commit,
        ),
        (DeleteOwnOrg::Committing, DeleteOwnOrgEvent::Committed) => (
            DeleteOwnOrg::Done,
            DeleteOwnOrgAction::Finish(Reply::empty(Status::NoContent)),
        ),
        _ => (DeleteOwnOrg::Done, DeleteOwnOrgAction::Abort(unexpected())),
    }
}

} // verus!
