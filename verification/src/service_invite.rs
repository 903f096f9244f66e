//! Invites to the service: tokens with which new users join an organization.

use vstd::prelude::*;
use crate::api::BodyView;
use crate::api::db_err_to_response;
use crate::api::failure_reply;
use crate::api::Reply;
use crate::api::ReplyView;
use crate::api::Status;
use crate::api::StoreFailure;
use crate::game::JustId;
use crate::roles::AuthContext;
use crate::roles::forbidden_reply;
use crate::roles::guard;
use crate::roles::org_staff;
use crate::roles::org_staff_whitelist;
use crate::roles::roles_intersect;
use crate::session::is_alphanumeric_token;
use crate::session::random_alphanumeric;
use crate::team::removed_reply;

verus! {

/// The number of characters of an invite's id.
pub const INVITE_ID_LEN: usize = 16;

/// An invite to the service named by its id and its organization.
#[derive(Debug, Clone, PartialEq, Eq)]
pub struct ServiceInvite {
    pub id: String,
    pub org_id: String,
}

/// A fresh id for an invite.
pub fn new_invite_id() -> (id: String)
    ensures
        is_alphanumeric_token(id@, INVITE_ID_LEN as nat),
{
    random_alphanumeric(INVITE_ID_LEN)
}

/// The invite to write under `id`: the caller must manage the organization,
/// and the invite leads into the caller's organization.
pub fn create_service_invite_with(auth_ctx: &AuthContext, id: String) -> (asked: Result<
    ServiceInvite,
    Reply,
>)
    ensures
        asked is Ok <==> roles_intersect(auth_ctx.roles@, org_staff()),
        asked matches Ok(invite) ==> invite.id@ == id@ && invite.org_id@ == auth_ctx.org_id@,
        asked matches Err(reply) ==> reply@ == forbidden_reply(org_staff()),
{
    let whitelist = org_staff_whitelist();
    match guard(auth_ctx, whitelist.as_slice()) {
        Ok(()) => Ok(ServiceInvite { id, org_id: auth_ctx.org_id.clone() }),
        Err(reply) => Err(reply),
    }
}

/// The invite to write, under an id drawn afresh.
pub fn create_service_invite(auth_ctx: &AuthContext) -> (asked: Result<ServiceInvite, Reply>)
    ensures
        asked is Ok <==> roles_intersect(auth_ctx.roles@, org_staff()),
        asked matches Ok(invite) ==> is_alphanumeric_token(invite.id@, INVITE_ID_LEN as nat)
            && invite.org_id@ == auth_ctx.org_id@,
        asked matches Err(reply) ==> reply@ == forbidden_reply(org_staff()),
{
    create_service_invite_with(auth_ctx, new_invite_id())
}

/// The reply to the creation of an invite, given how the insert went: the
/// invite's id as the body.
pub open spec fn invite_created_reply(outcome: Result<JustId, StoreFailure>) -> ReplyView {
    match outcome {
        Ok(row) => ReplyView {
            status: Status::Success,
            set_cookie: None,
            body: BodyView::Text(row.id@),
        },
        Err(failure) => failure_reply(failure),
    }
}

/// The reply to the creation of an invite, given how the insert went.
pub fn create_service_invite_reply(outcome: Result<JustId, StoreFailure>) -> (reply: Reply)
    ensures
        reply@ == invite_created_reply(outcome),
{
    match outcome {
        Ok(row) => Reply::text(Status::Success, row.id.as_str()),
        Err(failure) => db_err_to_response(failure),
    }
}

/// The invite to delete for the caller: the caller must manage the
/// organization, and the delete reaches the invite only within the caller's
/// organization.
pub fn delete_service_invite_by_id(auth_ctx: &AuthContext, id: String) -> (asked: Result<
    ServiceInvite,
    Reply,
>)
    ensures
        asked is Ok <==> roles_intersect(auth_ctx.roles@, org_staff()),
        asked matches Ok(invite) ==> invite.id@ == id@ && invite.org_id@ == auth_ctx.org_id@,
        asked matches Err(reply) ==> reply@ == forbidden_reply(org_staff()),
{
    let whitelist = org_staff_whitelist();
    match guard(auth_ctx, whitelist.as_slice()) {
        Ok(()) => Ok(ServiceInvite { id, org_id: auth_ctx.org_id.clone() }),
        Err(reply) => Err(reply),
    }
}

/// The reply to the deletion of an invite, given how the delete went.
pub fn delete_service_invite_reply(outcome: Result<(), StoreFailure>) -> (reply: Reply)
    ensures
        reply@ == removed_reply(outcome),
{
    match outcome {
        Ok(()) => Reply::empty(Status::NoContent),
        Err(failure) => db_err_to_response(failure),
    }
}

} // verus!
