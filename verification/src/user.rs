//! Users as the handlers see them.

use vstd::prelude::*;
use crate::api::BodyView;
use crate::api::Reply;
use crate::api::ReplyView;
use crate::api::Status;
use crate::api::StoreFailure;
use crate::api::str_equal;
use crate::api::unexpected;
use crate::api::unexpected_reply;
use crate::game::JustId;
use crate::roles::AuthContext;
use crate::roles::forbidden_reply;
use crate::roles::guard;
use crate::roles::org_staff;
use crate::roles::org_staff_whitelist;
use crate::roles::roles_intersect;

verus! {

/// A user without password and bookkeeping columns.
#[derive(Debug, Clone, PartialEq, Eq)]
pub struct UserClean {
    pub id: String,
    pub username: String,
}

/// The name and password of a user to create.
#[derive(Debug, Clone, PartialEq, Eq)]
pub struct CreateUser {
    pub username: String,
    pub password: String,
}

/// The user row to write.
#[derive(Debug, Clone, PartialEq, Eq)]
pub struct NewUser {
    pub username: String,
    pub password: String,
    pub org_id: String,
}

/// The user to write for `payload`: the caller must manage the organization,
/// and the user joins the caller's organization.
pub fn create_user(auth_ctx: &AuthContext, payload: CreateUser) -> (asked: Result<NewUser, Reply>)
    ensures
        asked is Ok <==> roles_intersect(auth_ctx.roles@, org_staff()),
        asked matches Ok(user) ==> user.username@ == payload.username@ && user.password@
            == payload.password@ && user.org_id@ == auth_ctx.org_id@,
        asked matches Err(reply) ==> reply@ == forbidden_reply(org_staff()),
{
    let whitelist = org_staff_whitelist();
    match guard(auth_ctx, whitelist.as_slice()) {
        Ok(()) => Ok(
            NewUser {
                username: payload.username,
                password: payload.password,
                org_id: auth_ctx.org_id.clone(),
            },
        ),
        Err(reply) => Err(reply),
    }
}

/// The reply to the creation of a user, given how the insert went.
pub open spec fn user_created_reply(outcome: Result<JustId, StoreFailure>) -> ReplyView {
    match outcome {
        Ok(row) => ReplyView {
            status: Status::Created,
            set_cookie: None,
            body: BodyView::Json(row.id@),
        },
        Err(_) => unexpected_reply(),
    }
}

/// The reply to the creation of a user, given how the insert went: the new
/// id, or an internal error without detail.
pub fn create_user_reply(outcome: Result<JustId, StoreFailure>) -> (reply: Reply)
    ensures
        reply@ == user_created_reply(outcome),
{
    match outcome {
        Ok(row) => Reply::json(Status::Created, row.id.as_str()),
        Err(_) => unexpected(),
    }
}

/// A user named by its id and the organization that must have it.
#[derive(Debug, Clone, PartialEq, Eq)]
pub struct UserKey {
    pub user_id: String,
    pub org_id: String,
}

impl UserKey {
    /// Whether the key names the user `user_id` of the organization
    /// `org_id`: a delete by this key removes that user and no other.
    pub open spec fn spec_reaches(self, user_id: Seq<char>, org_id: Seq<char>) -> bool {
        self.user_id@ == user_id && self.org_id@ == org_id
    }

    /// Whether the key names the user `user_id` of the organization
    /// `org_id`.
    pub fn reaches(&self, user_id: &str, org_id: &str) -> (reached: bool)
        ensures
            reached == self.spec_reaches(user_id@, org_id@),
    {
        str_equal(self.user_id.as_str(), user_id) && str_equal(self.org_id.as_str(), org_id)
    }
}

/// The user to delete for the request to delete `id`: the caller must manage
/// the organization, and the delete reaches the user only within the
/// caller's organization.
pub fn delete_user_by_id(auth_ctx: &AuthContext, id: String) -> (asked: Result<UserKey, Reply>)
    ensures
        asked is Ok <==> roles_intersect(auth_ctx.roles@, org_staff()),
        asked matches Ok(key) ==> key.user_id@ == id@ && key.org_id@ == auth_ctx.org_id@,
        asked matches Err(reply) ==> reply@ == forbidden_reply(org_staff()),
{
    let whitelist = org_staff_whitelist();
    match guard(auth_ctx, whitelist.as_slice()) {
        Ok(()) => Ok(UserKey { user_id: id, org_id: auth_ctx.org_id.clone() }),
        Err(reply) => Err(reply),
    }
}

/// The user to delete for the request of a caller to delete itself: the
/// caller, in its own organization.
pub fn delete_own_user(auth_ctx: &AuthContext) -> (key: UserKey)
    ensures
        key.user_id@ == auth_ctx.user_id@,
        key.org_id@ == auth_ctx.org_id@,
{
    UserKey { user_id: auth_ctx.user_id.clone(), org_id: auth_ctx.org_id.clone() }
}

/// A user of another organization is out of reach: whatever id the caller
/// names, the key of its delete reaches no user whose organization is not
/// the caller's.
pub proof fn law_foreign_user_is_out_of_reach(
    auth_ctx: AuthContext,
    key: UserKey,
    user_id: Seq<char>,
    org_id: Seq<char>,
)
    requires
        key.org_id@ == auth_ctx.org_id@,
        org_id != auth_ctx.org_id@,
    ensures
        !key.spec_reaches(user_id, org_id),
{
}

/// The reply to a delete that found no user to remove: the caller's
/// organization has no such user, whether or not another one has.
pub open spec fn user_not_found_reply() -> ReplyView {
    ReplyView { status: Status::NotFound, set_cookie: None, body: BodyView::Text("User not found"@) }
}

/// The reply to the deletion of a user, given the number of rows that the
/// delete removed or how it failed.
pub open spec fn user_deleted_reply(outcome: Result<u64, StoreFailure>) -> ReplyView {
    match outcome {
        Ok(rows) => if rows == 0 {
            user_not_found_reply()
        } else {
            ReplyView { status: Status::NoContent, set_cookie: None, body: BodyView::Empty }
        },
        Err(_) => unexpected_reply(),
    }
}

/// The reply to the deletion of a user: `204` where a row went, `404` where
/// none did, an internal error without detail where the delete failed.
pub fn delete_user_reply(outcome: Result<u64, StoreFailure>) -> (reply: Reply)
    ensures
        reply@ == user_deleted_reply(outcome),
{
    match outcome {
        Ok(rows) => {
            if rows == 0 {
                Reply::text(Status::NotFound, "User not found")
            } else {
                Reply::empty(Status::NoContent)
            }
        },
        Err(_) => unexpected(),
    }
}

/// The organization whose users are listed for the caller: its own.
pub fn list_users(auth_ctx: &AuthContext) -> (org_id: String)
    ensures
        org_id@ == auth_ctx.org_id@,
{
    auth_ctx.org_id.clone()
}

/// How the listing of users is answered, given how the read went: the rows
/// are sent with `200`, a failure is answered without detail.
pub fn list_users_reply(outcome: Result<(), StoreFailure>) -> (answer: Result<Status, Reply>)
    ensures
        outcome is Ok ==> answer == Ok::<Status, Reply>(Status::Success),
        outcome is Err ==> (answer matches Err(reply) && reply@ == unexpected_reply()),
{
    match outcome {
        Ok(()) => Ok(Status::Success),
        Err(_) => Err(unexpected()),
    }
}

} // verus!
